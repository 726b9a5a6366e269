//! The weight tables, and the lookup that turns code points into a
//! collation element array.
use std::collections::HashMap;
use vstd::prelude::*;

use crate::types::{Tailoring, Weights};
use crate::weights::{pack_weights, packed, SENTINEL};

verus! {

broadcast use vstd::std_specs::hash::group_hash_axioms;

/// Code points that may start a contraction of three code points.
pub open spec fn need_three(cp: u32) -> bool {
    cp == 3_270 || cp == 3_545 || cp == 4_018 || cp == 4_019
}

/// Code points that may start a contraction of two code points.
pub open spec fn need_two(cp: u32) -> bool {
    cp == 76 || cp == 108 || cp == 1_048 || cp == 1_080 || cp == 1_575 || cp == 1_608 || cp
        == 1_610 || cp == 2_503 || cp == 2_887 || cp == 2_962 || cp == 3_014 || cp == 3_015 || cp
        == 3_142 || cp == 3_263 || cp == 3_274 || cp == 3_398 || cp == 3_399 || cp == 3_548 || cp
        == 3_648 || cp == 3_649 || cp == 3_650 || cp == 3_651 || cp == 3_652 || cp == 3_661 || cp
        == 3_776 || cp == 3_777 || cp == 3_778 || cp == 3_779 || cp == 3_780 || cp == 3_789 || cp
        == 3_953 || cp == 4_133 || cp == 6_581 || cp == 6_582 || cp == 6_583 || cp == 6_586 || cp
        == 6_917 || cp == 6_919 || cp == 6_921 || cp == 6_923 || cp == 6_925 || cp == 6_929 || cp
        == 6_970 || cp == 6_972 || cp == 6_974 || cp == 6_975 || cp == 6_978 || cp == 43_701 || cp
        == 43_702 || cp == 43_705 || cp == 43_707 || cp == 43_708 || cp == 69_937 || cp == 69_938
        || cp == 70_471 || cp == 70_841 || cp == 71_096 || cp == 71_097 || cp == 71_989
}

/// Unassigned code points that are weighted as Han ideographs all the same.
pub open spec fn included_unassigned(cp: u32) -> bool {
    cp == 177_977 || cp == 178_206 || cp == 183_970 || cp == 191_457
}

/// The unified ideographs of the core block and the unified ones among the
/// compatibility ideographs.
pub open spec fn core_han(cp: u32) -> bool {
    (0x4E00 <= cp <= 0x9FFF) || cp == 0xFA0E || cp == 0xFA0F || cp == 0xFA11 || cp == 0xFA13
        || cp == 0xFA14 || cp == 0xFA1F || cp == 0xFA21 || cp == 0xFA23 || cp == 0xFA24 || (0xFA27
        <= cp <= 0xFA29)
}

/// The unified ideographs of the extension blocks.
pub open spec fn extension_han(cp: u32) -> bool {
    (0x3400 <= cp <= 0x4DBF) || (0x20000 <= cp <= 0x2A6DF) || (0x2A700 <= cp <= 0x2B738) || (
    0x2B740 <= cp <= 0x2B81D) || (0x2B820 <= cp <= 0x2CEA1) || (0x2CEB0 <= cp <= 0x2EBE0) || (
    0x30000 <= cp <= 0x3134A) || (0x31350 <= cp <= 0x323AF)
}

/// The lead of the first implicit primary weight.
pub open spec fn implicit_base(cp: u32) -> u16 {
    if core_han(cp) {
        0xFB40
    } else if extension_han(cp) || included_unassigned(cp) {
        0xFB80
    } else {
        0xFBC0
    }
}

/// The two elements derived from a code point that no table lists.
pub open spec fn implicit(cp: u32) -> Seq<u32> {
    seq![
        packed(false, (implicit_base(cp) + (cp / 0x8000)) as u16, 0x20, 0x02),
        packed(false, ((cp % 0x8000) + 0x8000) as u16, 0, 0),
    ]
}

pub open spec fn valid_cp(cp: u32) -> bool {
    cp < 0x110000
}

/// The table key of two or three code points.
pub open spec fn multi_key(cps: Seq<u32>) -> u64 {
    if cps.len() == 2 {
        (cps[0] + cps[1] * 0x200000) as u64
    } else {
        (cps[0] + cps[1] * 0x200000 + cps[2] * 0x400_0000_0000 + 0x8000_0000_0000_0000) as u64
    }
}

/// Weight tables: single code points and contractions, each in a DUCET and
/// a CLDR form. Values are packed collation elements.
pub struct Catalog {
    pub singles: HashMap<u32, Vec<u32>>,
    pub multis: HashMap<u64, Vec<u32>>,
    pub singles_cldr: HashMap<u32, Vec<u32>>,
    pub multis_cldr: HashMap<u64, Vec<u32>>,
}

pub open spec fn good_entries<K>(m: Map<K, Vec<u32>>) -> bool {
    forall|k: K|
        #[trigger] m.contains_key(k) ==> m[k]@.len() > 0 && !m[k]@.contains(SENTINEL)
}

pub open spec fn is_cldr(t: Tailoring) -> bool {
    t is Cldr
}

impl Catalog {
    /// Every entry is a non-empty list of elements without the sentinel.
    pub open spec fn wf(&self) -> bool {
        good_entries(self.singles@) && good_entries(self.multis@) && good_entries(
            self.singles_cldr@,
        ) && good_entries(self.multis_cldr@)
    }

    /// The entry of a single code point: the CLDR table first when it is
    /// chosen, then DUCET.
    pub open spec fn single_entry(&self, t: Tailoring, cp: u32) -> Option<Seq<u32>> {
        if is_cldr(t) && self.singles_cldr@.contains_key(cp) {
            Some(self.singles_cldr@[cp]@)
        } else if self.singles@.contains_key(cp) {
            Some(self.singles@[cp]@)
        } else {
            None
        }
    }

    /// The entry of a contraction, in the same order of tables.
    pub open spec fn multi_entry(&self, t: Tailoring, k: u64) -> Option<Seq<u32>> {
        if is_cldr(t) && self.multis_cldr@.contains_key(k) {
            Some(self.multis_cldr@[k]@)
        } else if self.multis@.contains_key(k) {
            Some(self.multis@[k]@)
        } else {
            None
        }
    }

    /// What one step of the lookup emits at position `i`, and how many code
    /// points it consumes: the longest listed contraction that the lookahead
    /// tables allow, else the code point's own entry, else implicit weights.
    pub open spec fn step(&self, t: Tailoring, s: Seq<u32>, i: int) -> (Seq<u32>, int) {
        let cp = s[i];
        let k3 = multi_key(s.subrange(i, i + 3));
        let k2 = multi_key(s.subrange(i, i + 2));
        if need_three(cp) && i + 2 < s.len() && self.multi_entry(t, k3) is Some {
            (self.multi_entry(t, k3)->0, 3)
        } else if (need_two(cp) || need_three(cp)) && i + 1 < s.len() && self.multi_entry(
            t,
            k2,
        ) is Some {
            (self.multi_entry(t, k2)->0, 2)
        } else if self.single_entry(t, cp) is Some {
            (self.single_entry(t, cp)->0, 1)
        } else {
            (implicit(cp), 1)
        }
    }

    /// The elements of `s` from position `i` on, ending in the sentinel.
    pub open spec fn cea_from(&self, t: Tailoring, s: Seq<u32>, i: int) -> Seq<u32>
        decreases s.len() - i,
        via Self::cea_from_decreases
    {
        if i < 0 || i >= s.len() {
            seq![SENTINEL]
        } else {
            self.step(t, s, i).0 + self.cea_from(t, s, i + self.step(t, s, i).1)
        }
    }

    #[via_fn]
    proof fn cea_from_decreases(&self, t: Tailoring, s: Seq<u32>, i: int) {
        if 0 <= i < s.len() {
            assert(self.step(t, s, i).1 >= 1);
        }
    }

    /// Empty tables.
    pub fn new() -> (r: Catalog)
        ensures
            r.wf(),
            r.singles@ == Map::<u32, Vec<u32>>::empty(),
            r.multis@ == Map::<u64, Vec<u32>>::empty(),
            r.singles_cldr@ == Map::<u32, Vec<u32>>::empty(),
            r.multis_cldr@ == Map::<u64, Vec<u32>>::empty(),
    {
        Catalog {
            singles: HashMap::new(),
            multis: HashMap::new(),
            singles_cldr: HashMap::new(),
            multis_cldr: HashMap::new(),
        }
    }
}

fn is_need_three(cp: u32) -> (r: bool)
    ensures
        r == need_three(cp),
{
    match cp {
        3_270 | 3_545 | 4_018 | 4_019 => true,
        _ => false,
    }
}

fn is_need_two(cp: u32) -> (r: bool)
    ensures
        r == need_two(cp),
{
    match cp {
        76 | 108 | 1_048 | 1_080 | 1_575 | 1_608 | 1_610 | 2_503 | 2_887 | 2_962 | 3_014 | 3_015
        | 3_142 | 3_263 | 3_274 | 3_398 | 3_399 | 3_548 | 3_648 | 3_649 | 3_650 | 3_651 | 3_652
        | 3_661 | 3_776 | 3_777 | 3_778 | 3_779 | 3_780 | 3_789 | 3_953 | 4_133 | 6_581 | 6_582
        | 6_583 | 6_586 | 6_917 | 6_919 | 6_921 | 6_923 | 6_925 | 6_929 | 6_970 | 6_972 | 6_974
        | 6_975 | 6_978 | 43_701 | 43_702 | 43_705 | 43_707 | 43_708 | 69_937 | 69_938 | 70_471
        | 70_841 | 71_096 | 71_097 | 71_989 => true,
        _ => false,
    }
}

fn implicit_base_exec(cp: u32) -> (r: u16)
    ensures
        r == implicit_base(cp),
{
    let core = (0x4E00 <= cp && cp <= 0x9FFF) || cp == 0xFA0E || cp == 0xFA0F || cp == 0xFA11
        || cp == 0xFA13 || cp == 0xFA14 || cp == 0xFA1F || cp == 0xFA21 || cp == 0xFA23 || cp
        == 0xFA24 || (0xFA27 <= cp && cp <= 0xFA29);
    let ext = (0x3400 <= cp && cp <= 0x4DBF) || (0x20000 <= cp && cp <= 0x2A6DF) || (0x2A700
        <= cp && cp <= 0x2B738) || (0x2B740 <= cp && cp <= 0x2B81D) || (0x2B820 <= cp && cp
        <= 0x2CEA1) || (0x2CEB0 <= cp && cp <= 0x2EBE0) || (0x30000 <= cp && cp <= 0x3134A) || (
    0x31350 <= cp && cp <= 0x323AF);
    let included = cp == 177_977 || cp == 178_206 || cp == 183_970 || cp == 191_457;
    if core {
        0xFB40
    } else if ext || included {
        0xFB80
    } else {
        0xFBC0
    }
}

fn push_implicit(out: &mut Vec<u32>, cp: u32)
    requires
        valid_cp(cp),
    ensures
        final(out)@ == old(out)@ + implicit(cp),
{
    let base = implicit_base_exec(cp);
    let first = pack_weights(false, base + (cp / 0x8000) as u16, 0x20, 0x02);
    let second = pack_weights(false, ((cp % 0x8000) + 0x8000) as u16, 0, 0);
    out.push(first);
    out.push(second);
    assert(final(out)@ =~= old(out)@ + implicit(cp));
}

fn push_all(out: &mut Vec<u32>, v: &Vec<u32>)
    ensures
        final(out)@ == old(out)@ + v@,
{
    let mut i: usize = 0;
    while i < v.len()
        invariant
            i <= v@.len(),
            out@ == old(out)@ + v@.take(i as int),
        decreases v@.len() - i,
    {
        out.push(v[i]);
        assert(v@.take(i + 1) =~= v@.take(i as int).push(v@[i as int]));
        assert(out@ =~= old(out)@ + v@.take(i + 1));
        i = i + 1;
    }
    assert(v@.take(i as int) =~= v@);
}

/// Whether an element can be packed and differs from the sentinel once packed.
pub open spec fn packs_cleanly(w: Weights) -> bool {
    w.packable() && packed(w.variable, w.primary, w.secondary, w.tertiary) != SENTINEL
}

pub open spec fn pack_of(w: Weights) -> u32 {
    packed(w.variable, w.primary, w.secondary, w.tertiary)
}

pub open spec fn packs_all(ws: Seq<Weights>) -> bool {
    ws.len() > 0 && forall|i: int| 0 <= i < ws.len() ==> packs_cleanly(#[trigger] ws[i])
}

/// Packs a list of elements for a table entry; `None` when the list is empty
/// or some element does not pack cleanly.
fn pack_list(ws: &Vec<Weights>) -> (r: Option<Vec<u32>>)
    ensures
        r is Some == packs_all(ws@),
        r matches Some(v) ==> v@ == ws@.map_values(|w: Weights| pack_of(w)) && v@.len() > 0
            && !v@.contains(SENTINEL),
{
    if ws.len() == 0 {
        return None;
    }
    let mut out: Vec<u32> = Vec::new();
    let mut i: usize = 0;
    while i < ws.len()
        invariant
            i <= ws@.len(),
            out@ == ws@.take(i as int).map_values(|w: Weights| pack_of(w)),
            forall|k: int| 0 <= k < i ==> packs_cleanly(#[trigger] ws@[k]),
        decreases ws@.len() - i,
    {
        let w = ws[i];
        if w.secondary >= 512 || w.tertiary >= 64 {
            return None;
        }
        let p = pack_weights(w.variable, w.primary, w.secondary, w.tertiary);
        if p == SENTINEL {
            return None;
        }
        out.push(p);
        assert(ws@.take(i + 1) =~= ws@.take(i as int).push(w));
        assert(out@ =~= ws@.take(i + 1).map_values(|w: Weights| pack_of(w)));
        i = i + 1;
    }
    assert(ws@.take(i as int) =~= ws@);
    assert(!out@.contains(SENTINEL)) by {
        if out@.contains(SENTINEL) {
            let k = choose|k: int| 0 <= k < out@.len() && out@[k] == SENTINEL;
            assert(packs_cleanly(ws@[k]));
        }
    }
    Some(out)
}

fn multi_key_exec(cps: &[u32]) -> (r: u64)
    requires
        cps@.len() == 2 || cps@.len() == 3,
        forall|i: int| 0 <= i < cps@.len() ==> valid_cp(#[trigger] cps@[i]),
    ensures
        r == multi_key(cps@),
{
    let a = cps[0] as u64;
    let b = cps[1] as u64;
    if cps.len() == 2 {
        a + b * 0x200000
    } else {
        let c = cps[2] as u64;
        a + b * 0x200000 + c * 0x400_0000_0000 + 0x8000_0000_0000_0000
    }
}

impl Catalog {
    /// Adds the entry of one code point to the DUCET or the CLDR table. The
    /// entry is refused, and nothing changes, when the list is empty or an
    /// element does not pack cleanly.
    pub fn insert_single(&mut self, cldr: bool, cp: u32, ws: &Vec<Weights>) -> (r: bool)
        requires
            old(self).wf(),
        ensures
            final(self).wf(),
            r == packs_all(ws@),
            final(self).multis@ == old(self).multis@,
            final(self).multis_cldr@ == old(self).multis_cldr@,
            !r ==> *final(self) == *old(self),
            r && cldr ==> final(self).singles@ == old(self).singles@,
            r && !cldr ==> final(self).singles_cldr@ == old(self).singles_cldr@,
            r && cldr ==> final(self).singles_cldr@ == old(self).singles_cldr@.insert(
                cp,
                final(self).singles_cldr@[cp],
            ) && final(self).singles_cldr@[cp]@ == ws@.map_values(|w: Weights| pack_of(w)),
            r && !cldr ==> final(self).singles@ == old(self).singles@.insert(
                cp,
                final(self).singles@[cp],
            ) && final(self).singles@[cp]@ == ws@.map_values(|w: Weights| pack_of(w)),
    {
        match pack_list(ws) {
            None => false,
            Some(v) => {
                if cldr {
                    self.singles_cldr.insert(cp, v);
                } else {
                    self.singles.insert(cp, v);
                }
                true
            },
        }
    }

    /// Adds the entry of a contraction of two or three code points. The entry
    /// is refused, and nothing changes, when the key has another length, holds
    /// a value that is no code point, or the list does not pack cleanly.
    pub fn insert_multi(&mut self, cldr: bool, cps: &[u32], ws: &Vec<Weights>) -> (r: bool)
        requires
            old(self).wf(),
        ensures
            final(self).wf(),
            r == ((cps@.len() == 2 || cps@.len() == 3) && (forall|i: int|
                0 <= i < cps@.len() ==> valid_cp(#[trigger] cps@[i])) && packs_all(ws@)),
            final(self).singles@ == old(self).singles@,
            final(self).singles_cldr@ == old(self).singles_cldr@,
            !r ==> *final(self) == *old(self),
            r && cldr ==> final(self).multis@ == old(self).multis@,
            r && !cldr ==> final(self).multis_cldr@ == old(self).multis_cldr@,
            r && cldr ==> final(self).multis_cldr@ == old(self).multis_cldr@.insert(
                multi_key(cps@),
                final(self).multis_cldr@[multi_key(cps@)],
            ) && final(self).multis_cldr@[multi_key(cps@)]@ == ws@.map_values(
                |w: Weights| pack_of(w),
            ),
            r && !cldr ==> final(self).multis@ == old(self).multis@.insert(
                multi_key(cps@),
                final(self).multis@[multi_key(cps@)],
            ) && final(self).multis@[multi_key(cps@)]@ == ws@.map_values(
                |w: Weights| pack_of(w),
            ),
    {
        if cps.len() != 2 && cps.len() != 3 {
            return false;
        }
        let mut i: usize = 0;
        while i < cps.len()
            invariant
                i <= cps@.len(),
                cps@.len() == 2 || cps@.len() == 3,
                *self == *old(self),
                self.wf(),
                forall|k: int| 0 <= k < i ==> valid_cp(#[trigger] cps@[k]),
            decreases cps@.len() - i,
        {
            if cps[i] >= 0x110000 {
                return false;
            }
            i = i + 1;
        }
        let k = multi_key_exec(cps);
        match pack_list(ws) {
            None => false,
            Some(v) => {
                if cldr {
                    self.multis_cldr.insert(k, v);
                } else {
                    self.multis.insert(k, v);
                }
                true
            },
        }
    }

    fn get_single(&self, t: Tailoring, cp: u32) -> (r: Option<&Vec<u32>>)
        ensures
            match r {
                Some(v) => self.single_entry(t, cp) == Some(v@),
                None => self.single_entry(t, cp) is None,
            },
    {
        if let Tailoring::Cldr(_) = t {
            if let Some(v) = self.singles_cldr.get(&cp) {
                return Some(v);
            }
        }
        self.singles.get(&cp)
    }

    fn get_multi(&self, t: Tailoring, k: u64) -> (r: Option<&Vec<u32>>)
        ensures
            match r {
                Some(v) => self.multi_entry(t, k) == Some(v@),
                None => self.multi_entry(t, k) is None,
            },
    {
        if let Tailoring::Cldr(_) = t {
            if let Some(v) = self.multis_cldr.get(&k) {
                return Some(v);
            }
        }
        self.multis.get(&k)
    }

    /// Performs one step of the lookup at position `i`, appending what it
    /// emits to `out`; returns how many code points it consumed.
    fn lookup_step(&self, t: Tailoring, s: &[u32], i: usize, out: &mut Vec<u32>) -> (n: usize)
        requires
            i < s@.len(),
            forall|k: int| 0 <= k < s@.len() ==> valid_cp(#[trigger] s@[k]),
        ensures
            n as int == self.step(t, s@, i as int).1,
            final(out)@ == old(out)@ + self.step(t, s@, i as int).0,
    {
        let cp = s[i];
        let three = is_need_three(cp);
        if three && s.len() - i > 2 {
            let k = multi_key_exec(&s[i..i + 3]);
            if let Some(v) = self.get_multi(t, k) {
                push_all(out, v);
                return 3;
            }
        }
        if (three || is_need_two(cp)) && s.len() - i > 1 {
            let k = multi_key_exec(&s[i..i + 2]);
            if let Some(v) = self.get_multi(t, k) {
                push_all(out, v);
                return 2;
            }
        }
        if let Some(v) = self.get_single(t, cp) {
            push_all(out, v);
            return 1;
        }
        push_implicit(out, cp);
        1
    }

    /// The collation element array of a sequence of code points, ending in
    /// the sentinel.
    pub fn lookup(&self, s: &[u32], t: Tailoring) -> (r: Vec<u32>)
        requires
            forall|k: int| 0 <= k < s@.len() ==> valid_cp(#[trigger] s@[k]),
        ensures
            r@ == self.cea_from(t, s@, 0),
    {
        let mut out: Vec<u32> = Vec::new();
        let mut i: usize = 0;
        while i < s.len()
            invariant
                i <= s@.len(),
                forall|k: int| 0 <= k < s@.len() ==> valid_cp(#[trigger] s@[k]),
                self.cea_from(t, s@, 0) == out@ + self.cea_from(t, s@, i as int),
            decreases s@.len() - i,
        {
            let ghost before = out@;
            let n = self.lookup_step(t, s, i, &mut out);
            assert(self.cea_from(t, s@, i as int) == self.step(t, s@, i as int).0 + self.cea_from(
                t,
                s@,
                i + n,
            ));
            assert(before + self.cea_from(t, s@, i as int) =~= out@ + self.cea_from(
                t,
                s@,
                i + n,
            ));
            i = i + n;
        }
        out.push(SENTINEL);
        out
    }
}

/// A code point that may start a three-code-point contraction, followed by
/// the two code points that complete a listed contraction, resolves through
/// the contraction table and not through single code points.
pub proof fn lemma_three_lookahead(c: &Catalog, t: Tailoring, s: Seq<u32>, i: int)
    requires
        0 <= i,
        i + 2 < s.len(),
        need_three(s[i]),
        c.multi_entry(t, multi_key(s.subrange(i, i + 3))) is Some,
    ensures
        c.step(t, s, i) == (c.multi_entry(t, multi_key(s.subrange(i, i + 3)))->0, 3int),
        c.cea_from(t, s, i) == c.multi_entry(t, multi_key(s.subrange(i, i + 3)))->0 + c.cea_from(
            t,
            s,
            i + 3,
        ),
{
}

/// A code point that may start a two-code-point contraction, followed by a
/// code point that completes none, takes its own entry.
pub proof fn lemma_two_lookahead_fallback(c: &Catalog, t: Tailoring, s: Seq<u32>, i: int)
    requires
        0 <= i,
        i + 1 < s.len(),
        need_two(s[i]),
        !need_three(s[i]),
        c.multi_entry(t, multi_key(s.subrange(i, i + 2))) is None,
        c.single_entry(t, s[i]) is Some,
    ensures
        c.step(t, s, i) == (c.single_entry(t, s[i])->0, 1int),
{
}

} // verus!

//! A fast comparison for strings made only of ASCII letters and digits.
use std::cmp::Ordering;
use vstd::prelude::*;

verus! {

/// ASCII digits, upper case letters and lower case letters.
pub open spec fn is_ascii_an(c: u32) -> bool {
    (48 <= c <= 57) || (65 <= c <= 90) || (97 <= c <= 122)
}

pub open spec fn is_lower(c: u32) -> bool {
    97 <= c <= 122
}

/// Moves every code point above `Z` down by 32.
pub open spec fn fold(c: u32) -> u32 {
    if c > 90 {
        (c - 32) as u32
    } else {
        c
    }
}

/// Doubles every upper case letter, so that it comes after all lower case ones.
pub open spec fn doubled(c: u32) -> u32 {
    if 65 <= c <= 90 {
        (c * 2) as u32
    } else {
        c
    }
}

/// Lexicographic order of two code point sequences.
pub open spec fn lex32(a: Seq<u32>, b: Seq<u32>) -> Ordering
    decreases a.len(),
{
    if a.len() == 0 {
        if b.len() == 0 {
            Ordering::Equal
        } else {
            Ordering::Less
        }
    } else if b.len() == 0 {
        Ordering::Greater
    } else if a[0] < b[0] {
        Ordering::Less
    } else if a[0] > b[0] {
        Ordering::Greater
    } else {
        lex32(a.drop_first(), b.drop_first())
    }
}

pub open spec fn fold_all(s: Seq<u32>) -> Seq<u32> {
    s.map_values(|c: u32| fold(c))
}

pub open spec fn double_all(s: Seq<u32>) -> Seq<u32> {
    s.map_values(|c: u32| doubled(c))
}

/// Case-insensitive order first; among strings equal but for case, lower
/// case letters before upper case ones.
pub open spec fn ascii_order(a: Seq<u32>, b: Seq<u32>) -> Ordering {
    if lex32(fold_all(a), fold_all(b)) != Ordering::Equal {
        lex32(fold_all(a), fold_all(b))
    } else {
        lex32(double_all(a), double_all(b))
    }
}

fn is_ascii_an_exec(c: u32) -> (r: bool)
    ensures
        r == is_ascii_an(c),
{
    (48 <= c && c <= 57) || (65 <= c && c <= 90) || (97 <= c && c <= 122)
}

fn all_an(s: &[u32]) -> (r: bool)
    ensures
        r == (forall|i: int| 0 <= i < s@.len() ==> is_ascii_an(#[trigger] s@[i])),
{
    let mut i: usize = 0;
    while i < s.len()
        invariant
            i <= s@.len(),
            forall|k: int| 0 <= k < i ==> is_ascii_an(#[trigger] s@[k]),
        decreases s@.len() - i,
    {
        if !is_ascii_an_exec(s[i]) {
            return false;
        }
        i = i + 1;
    }
    true
}

/// Whether both inputs are made only of ASCII letters and digits.
pub fn all_ascii(a: &[u32], b: &[u32]) -> (r: bool)
    ensures
        r == ((forall|i: int| 0 <= i < a@.len() ==> is_ascii_an(#[trigger] a@[i])) && (forall|
            i: int,
        |
            0 <= i < b@.len() ==> is_ascii_an(#[trigger] b@[i]))),
{
    if !all_an(a) || !all_an(b) {
        return false;
    }
    true
}

fn cmp_seq(a: &Vec<u32>, b: &Vec<u32>) -> (r: Ordering)
    ensures
        r == lex32(a@, b@),
{
    let mut k: usize = 0;
    assert(a@.skip(0) =~= a@);
    assert(b@.skip(0) =~= b@);
    while k < a.len() && k < b.len() && a[k] == b[k]
        invariant
            k <= a@.len(),
            k <= b@.len(),
            lex32(a@, b@) == lex32(a@.skip(k as int), b@.skip(k as int)),
        decreases a@.len() - k,
    {
        assert(a@.skip(k as int).drop_first() =~= a@.skip(k + 1));
        assert(b@.skip(k as int).drop_first() =~= b@.skip(k + 1));
        k = k + 1;
    }
    if k < a.len() && k < b.len() {
        if a[k] < b[k] {
            Ordering::Less
        } else {
            Ordering::Greater
        }
    } else if k < a.len() {
        Ordering::Greater
    } else if k < b.len() {
        Ordering::Less
    } else {
        Ordering::Equal
    }
}

fn folded(s: &Vec<u32>) -> (r: Vec<u32>)
    ensures
        r@ == fold_all(s@),
{
    let mut out: Vec<u32> = Vec::new();
    let mut i: usize = 0;
    while i < s.len()
        invariant
            i <= s@.len(),
            out@ == fold_all(s@.take(i as int)),
        decreases s@.len() - i,
    {
        let c = s[i];
        out.push(if c > 90 { c - 32 } else { c });
        assert(s@.take(i + 1) =~= s@.take(i as int).push(c));
        assert(out@ =~= fold_all(s@.take(i + 1)));
        i = i + 1;
    }
    assert(s@.take(i as int) =~= s@);
    out
}

fn with_upper_doubled(s: &Vec<u32>) -> (r: Vec<u32>)
    ensures
        r@ == double_all(s@),
{
    let mut out: Vec<u32> = Vec::new();
    let mut i: usize = 0;
    while i < s.len()
        invariant
            i <= s@.len(),
            out@ == double_all(s@.take(i as int)),
        decreases s@.len() - i,
    {
        let c = s[i];
        out.push(if 65 <= c && c <= 90 { c * 2 } else { c });
        assert(s@.take(i + 1) =~= s@.take(i as int).push(c));
        assert(out@ =~= double_all(s@.take(i + 1)));
        i = i + 1;
    }
    assert(s@.take(i as int) =~= s@);
    out
}

/// Compares two strings of ASCII letters and digits: case-insensitively
/// first, then, for strings that differ only in case, lower case first.
pub fn compare_ascii(a: Vec<u32>, b: Vec<u32>) -> (r: Ordering)
    ensures
        r == ascii_order(a@, b@),
{
    let a_lower = folded(&a);
    let b_lower = folded(&b);
    match cmp_seq(&a_lower, &b_lower) {
        Ordering::Equal => {},
        o => {
            return o;
        },
    }
    let a_fixed = with_upper_doubled(&a);
    let b_fixed = with_upper_doubled(&b);
    cmp_seq(&a_fixed, &b_fixed)
}

proof fn lemma_lex32_same(a: Seq<u32>)
    ensures
        lex32(a, a) == Ordering::Equal,
    decreases a.len(),
{
    if a.len() > 0 {
        lemma_lex32_same(a.drop_first());
    }
}

proof fn lemma_lex32_first_difference(a: Seq<u32>, b: Seq<u32>, k: int)
    requires
        0 <= k < a.len(),
        k < b.len(),
        a[k] != b[k],
        forall|i: int| 0 <= i < k ==> a[i] == b[i],
    ensures
        lex32(a, b) == (if a[k] < b[k] {
            Ordering::Less
        } else {
            Ordering::Greater
        }),
    decreases k,
{
    if k > 0 {
        lemma_lex32_first_difference(a.drop_first(), b.drop_first(), k - 1);
    }
}

/// Two strings of ASCII letters and digits that differ only in the case of
/// some letters: the one with the lower case letter at the first difference
/// comes first, wherever that difference stands.
pub proof fn lemma_case_tie_break(a: Seq<u32>, b: Seq<u32>, k: int)
    requires
        a.len() == b.len(),
        forall|i: int| 0 <= i < a.len() ==> is_ascii_an(#[trigger] a[i]),
        forall|i: int| 0 <= i < b.len() ==> is_ascii_an(#[trigger] b[i]),
        forall|i: int| 0 <= i < a.len() ==> fold(#[trigger] a[i]) == fold(b[i]),
        0 <= k < a.len(),
        a[k] != b[k],
        forall|i: int| 0 <= i < k ==> a[i] == b[i],
    ensures
        ascii_order(a, b) == (if is_lower(a[k]) {
            Ordering::Less
        } else {
            Ordering::Greater
        }),
{
    assert(fold_all(a) =~= fold_all(b));
    lemma_lex32_same(fold_all(a));
    let da = double_all(a);
    let db = double_all(b);
    assert(is_ascii_an(a[k]) && is_ascii_an(b[k]) && fold(a[k]) == fold(b[k]));
    lemma_lex32_first_difference(da, db, k);
}

} // verus!

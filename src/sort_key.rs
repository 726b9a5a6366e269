//! Level-by-level comparison of collation element arrays, and sort keys.
use std::cmp::Ordering;
use vstd::prelude::*;

use crate::weights::{
    primary, primary_of, secondary, secondary_of, tertiary, tertiary_of, variability,
    variable_of, SENTINEL,
};

verus! {

/// The five ways of reading one level of weights out of an element array.
#[derive(Clone, Copy, PartialEq, Eq, Debug)]
pub enum Level {
    Primary,
    PrimaryShifted,
    Secondary,
    Tertiary,
    Quaternary,
}

/// Whether an element contributes a weight at this level.
pub open spec fn keeps(lvl: Level, w: u32) -> bool {
    match lvl {
        Level::Primary => primary_of(w) != 0,
        Level::PrimaryShifted => !variable_of(w) && primary_of(w) != 0,
        Level::Secondary => secondary_of(w) != 0,
        Level::Tertiary => tertiary_of(w) != 0,
        Level::Quaternary => variable_of(w) || secondary_of(w) != 0,
    }
}

/// The weight that an element contributes at this level.
pub open spec fn value(lvl: Level, w: u32) -> u16 {
    match lvl {
        Level::Secondary => secondary_of(w),
        Level::Tertiary => tertiary_of(w),
        _ => primary_of(w),
    }
}

/// The weights of one level from position `i` up to the sentinel or the end.
pub open spec fn level_from(cea: Seq<u32>, lvl: Level, i: int) -> Seq<u16>
    decreases cea.len() - i,
{
    if i < 0 || i >= cea.len() || cea[i] == SENTINEL {
        seq![]
    } else if keeps(lvl, cea[i]) {
        seq![value(lvl, cea[i])] + level_from(cea, lvl, i + 1)
    } else {
        level_from(cea, lvl, i + 1)
    }
}

/// The weights of one level of a whole element array.
pub open spec fn level(cea: Seq<u32>, lvl: Level) -> Seq<u16> {
    level_from(cea, lvl, 0)
}

pub open spec fn first_level(shifting: bool) -> Level {
    if shifting {
        Level::PrimaryShifted
    } else {
        Level::Primary
    }
}

/// Lexicographic order of two weight sequences; a proper prefix comes first.
pub open spec fn lex(a: Seq<u16>, b: Seq<u16>) -> Ordering
    decreases a.len(),
{
    if a.len() == 0 {
        if b.len() == 0 {
            Ordering::Equal
        } else {
            Ordering::Less
        }
    } else if b.len() == 0 {
        Ordering::Greater
    } else if a[0] < b[0] {
        Ordering::Less
    } else if a[0] > b[0] {
        Ordering::Greater
    } else {
        lex(a.drop_first(), b.drop_first())
    }
}

/// The opposite order.
pub open spec fn flip(o: Ordering) -> Ordering {
    match o {
        Ordering::Less => Ordering::Greater,
        Ordering::Equal => Ordering::Equal,
        Ordering::Greater => Ordering::Less,
    }
}

/// The order of two arrays: the first level that tells them apart decides;
/// the quaternary level is read only when shifting.
pub open spec fn incremental(a: Seq<u32>, b: Seq<u32>, shifting: bool) -> Ordering {
    let p = first_level(shifting);
    if lex(level(a, p), level(b, p)) != Ordering::Equal {
        lex(level(a, p), level(b, p))
    } else if lex(level(a, Level::Secondary), level(b, Level::Secondary)) != Ordering::Equal {
        lex(level(a, Level::Secondary), level(b, Level::Secondary))
    } else if lex(level(a, Level::Tertiary), level(b, Level::Tertiary)) != Ordering::Equal {
        lex(level(a, Level::Tertiary), level(b, Level::Tertiary))
    } else if shifting {
        lex(level(a, Level::Quaternary), level(b, Level::Quaternary))
    } else {
        Ordering::Equal
    }
}

/// The sort key: the four levels one after the other.
pub open spec fn key(cea: Seq<u32>, shifting: bool) -> Seq<u16> {
    level(cea, first_level(shifting)) + level(cea, Level::Secondary) + level(
        cea,
        Level::Tertiary,
    ) + level(cea, Level::Quaternary)
}

pub open spec fn level_cmp(a: Seq<u32>, b: Seq<u32>, lvl: Level) -> Option<Ordering> {
    if lex(level(a, lvl), level(b, lvl)) == Ordering::Equal {
        None
    } else {
        Some(lex(level(a, lvl), level(b, lvl)))
    }
}

proof fn lemma_level_step(cea: Seq<u32>, lvl: Level, i: int)
    requires
        0 <= i < cea.len(),
        cea[i] != SENTINEL,
    ensures
        level_from(cea, lvl, i) == (if keeps(lvl, cea[i]) {
            seq![value(lvl, cea[i])] + level_from(cea, lvl, i + 1)
        } else {
            level_from(cea, lvl, i + 1)
        }),
{
}

proof fn lemma_lex_head(v: u16, a: Seq<u16>, b: Seq<u16>)
    ensures
        lex(seq![v] + a, seq![v] + b) == lex(a, b),
{
    assert((seq![v] + a).drop_first() =~= a);
    assert((seq![v] + b).drop_first() =~= b);
}

fn keeps_exec(lvl: Level, w: u32) -> (r: bool)
    ensures
        r == keeps(lvl, w),
{
    match lvl {
        Level::Primary => primary(w) != 0,
        Level::PrimaryShifted => !variability(w) && primary(w) != 0,
        Level::Secondary => secondary(w) != 0,
        Level::Tertiary => tertiary(w) != 0,
        Level::Quaternary => variability(w) || secondary(w) != 0,
    }
}

fn value_exec(lvl: Level, w: u32) -> (r: u16)
    ensures
        r == value(lvl, w),
{
    match lvl {
        Level::Secondary => secondary(w),
        Level::Tertiary => tertiary(w),
        _ => primary(w),
    }
}

/// Moves past the elements that contribute nothing at this level.
fn next_kept(cea: &[u32], start: usize, lvl: Level) -> (j: usize)
    requires
        start <= cea@.len(),
    ensures
        start <= j <= cea@.len(),
        level_from(cea@, lvl, j as int) == level_from(cea@, lvl, start as int),
        j < cea@.len() ==> cea@[j as int] == SENTINEL || keeps(lvl, cea@[j as int]),
{
    let mut j: usize = start;
    while j < cea.len() && cea[j] != SENTINEL && !keeps_exec(lvl, cea[j])
        invariant
            start <= j <= cea@.len(),
            level_from(cea@, lvl, j as int) == level_from(cea@, lvl, start as int),
        decreases cea@.len() - j,
    {
        proof {
            lemma_level_step(cea@, lvl, j as int);
        }
        j = j + 1;
    }
    j
}

/// Compares one level of two arrays without building either level.
/// `None` when the level is the same in both.
pub fn compare_level(a_cea: &[u32], b_cea: &[u32], lvl: Level) -> (r: Option<Ordering>)
    ensures
        r == level_cmp(a_cea@, b_cea@, lvl),
{
    let mut i: usize = next_kept(a_cea, 0, lvl);
    let mut j: usize = next_kept(b_cea, 0, lvl);
    loop
        invariant
            i <= a_cea@.len(),
            j <= b_cea@.len(),
            i < a_cea@.len() ==> a_cea@[i as int] == SENTINEL || keeps(lvl, a_cea@[i as int]),
            j < b_cea@.len() ==> b_cea@[j as int] == SENTINEL || keeps(lvl, b_cea@[j as int]),
            lex(level(a_cea@, lvl), level(b_cea@, lvl)) == lex(
                level_from(a_cea@, lvl, i as int),
                level_from(b_cea@, lvl, j as int),
            ),
        decreases a_cea@.len() - i,
    {
        let a_end = i >= a_cea.len() || a_cea[i] == SENTINEL;
        let b_end = j >= b_cea.len() || b_cea[j] == SENTINEL;
        if a_end && b_end {
            return None;
        }
        if a_end {
            return Some(Ordering::Less);
        }
        if b_end {
            return Some(Ordering::Greater);
        }
        let x = value_exec(lvl, a_cea[i]);
        let y = value_exec(lvl, b_cea[j]);
        proof {
            lemma_level_step(a_cea@, lvl, i as int);
            lemma_level_step(b_cea@, lvl, j as int);
        }
        if x < y {
            return Some(Ordering::Less);
        }
        if x > y {
            return Some(Ordering::Greater);
        }
        proof {
            lemma_lex_head(
                x,
                level_from(a_cea@, lvl, i + 1),
                level_from(b_cea@, lvl, j + 1),
            );
        }
        i = next_kept(a_cea, i + 1, lvl);
        j = next_kept(b_cea, j + 1, lvl);
    }
}

/// Builds one level of an array.
pub fn get_level(cea: &[u32], lvl: Level) -> (r: Vec<u16>)
    ensures
        r@ == level(cea@, lvl),
{
    let mut out: Vec<u16> = Vec::new();
    let mut i: usize = 0;
    while i < cea.len() && cea[i] != SENTINEL
        invariant
            i <= cea@.len(),
            level(cea@, lvl) == out@ + level_from(cea@, lvl, i as int),
        decreases cea@.len() - i,
    {
        proof {
            lemma_level_step(cea@, lvl, i as int);
        }
        if keeps_exec(lvl, cea[i]) {
            out.push(value_exec(lvl, cea[i]));
            assert(out@ + level_from(cea@, lvl, i + 1) =~= out@.drop_last() + (seq![
                value(lvl, cea@[i as int]),
            ] + level_from(cea@, lvl, i + 1)));
        }
        i = i + 1;
    }
    assert(level_from(cea@, lvl, i as int) =~= seq![]);
    assert(out@ + level_from(cea@, lvl, i as int) =~= out@);
    out
}

/// `lex` is `Equal` exactly on equal sequences.
pub proof fn lemma_lex_equal(a: Seq<u16>, b: Seq<u16>)
    ensures
        (lex(a, b) == Ordering::Equal) == (a == b),
    decreases a.len(),
{
    if a.len() > 0 && b.len() > 0 && a[0] == b[0] {
        lemma_lex_equal(a.drop_first(), b.drop_first());
        if a.drop_first() == b.drop_first() {
            assert(a =~= seq![a[0]] + a.drop_first());
            assert(b =~= seq![b[0]] + b.drop_first());
        } else if a == b {
            assert(a.drop_first() == b.drop_first());
        }
    } else if a.len() > 0 && b.len() > 0 {
        assert(a[0] != b[0]);
    } else if a.len() != b.len() {
        assert(a != b);
    } else {
        assert(a =~= b);
    }
}

/// `lex` read the other way round gives the reverse order.
pub proof fn lemma_lex_flip(a: Seq<u16>, b: Seq<u16>)
    ensures
        lex(b, a) == flip(lex(a, b)),
    decreases a.len(),
{
    if a.len() > 0 && b.len() > 0 && a[0] == b[0] {
        lemma_lex_flip(a.drop_first(), b.drop_first());
    }
}

/// `lex` is transitive on `Less`.
pub proof fn lemma_lex_trans(a: Seq<u16>, b: Seq<u16>, c: Seq<u16>)
    requires
        lex(a, b) == Ordering::Less,
        lex(b, c) == Ordering::Less,
    ensures
        lex(a, c) == Ordering::Less,
    decreases a.len(),
{
    if a.len() > 0 && b.len() > 0 && c.len() > 0 && a[0] == b[0] && b[0] == c[0] {
        lemma_lex_trans(a.drop_first(), b.drop_first(), c.drop_first());
    }
}

fn compare_primary(a_cea: &[u32], b_cea: &[u32]) -> (r: Option<Ordering>)
    ensures
        r == level_cmp(a_cea@, b_cea@, Level::Primary),
{
    compare_level(a_cea, b_cea, Level::Primary)
}

fn get_primary(cea: &[u32]) -> (r: Vec<u16>)
    ensures
        r@ == level(cea@, Level::Primary),
{
    get_level(cea, Level::Primary)
}

fn compare_primary_shifting(a_cea: &[u32], b_cea: &[u32]) -> (r: Option<Ordering>)
    ensures
        r == level_cmp(a_cea@, b_cea@, Level::PrimaryShifted),
{
    compare_level(a_cea, b_cea, Level::PrimaryShifted)
}

fn get_primary_shifting(cea: &[u32]) -> (r: Vec<u16>)
    ensures
        r@ == level(cea@, Level::PrimaryShifted),
{
    get_level(cea, Level::PrimaryShifted)
}

fn compare_secondary(a_cea: &[u32], b_cea: &[u32]) -> (r: Option<Ordering>)
    ensures
        r == level_cmp(a_cea@, b_cea@, Level::Secondary),
{
    compare_level(a_cea, b_cea, Level::Secondary)
}

fn get_secondary(cea: &[u32]) -> (r: Vec<u16>)
    ensures
        r@ == level(cea@, Level::Secondary),
{
    get_level(cea, Level::Secondary)
}

fn compare_tertiary(a_cea: &[u32], b_cea: &[u32]) -> (r: Option<Ordering>)
    ensures
        r == level_cmp(a_cea@, b_cea@, Level::Tertiary),
{
    compare_level(a_cea, b_cea, Level::Tertiary)
}

fn get_tertiary(cea: &[u32]) -> (r: Vec<u16>)
    ensures
        r@ == level(cea@, Level::Tertiary),
{
    get_level(cea, Level::Tertiary)
}

fn compare_quaternary(a_cea: &[u32], b_cea: &[u32]) -> (r: Option<Ordering>)
    ensures
        r == level_cmp(a_cea@, b_cea@, Level::Quaternary),
{
    compare_level(a_cea, b_cea, Level::Quaternary)
}

fn get_quaternary(cea: &[u32]) -> (r: Vec<u16>)
    ensures
        r@ == level(cea@, Level::Quaternary),
{
    get_level(cea, Level::Quaternary)
}

/// Compares two element arrays level by level, stopping at the first level
/// that tells them apart.
pub fn compare_incremental(a_cea: &[u32], b_cea: &[u32], shifting: bool) -> (r: Ordering)
    ensures
        r == incremental(a_cea@, b_cea@, shifting),
{
    if shifting {
        if let Some(o) = compare_primary_shifting(a_cea, b_cea) {
            return o;
        }
    } else if let Some(o) = compare_primary(a_cea, b_cea) {
        return o;
    }
    if let Some(o) = compare_secondary(a_cea, b_cea) {
        return o;
    }
    if let Some(o) = compare_tertiary(a_cea, b_cea) {
        return o;
    }
    if !shifting {
        return Ordering::Equal;
    }
    if let Some(o) = compare_quaternary(a_cea, b_cea) {
        return o;
    }
    Ordering::Equal
}

/// The full sort key of an element array: primary (shifted or not),
/// secondary, tertiary and quaternary weights, concatenated.
pub fn get_key(cea: &[u32], shifting: bool) -> (r: Vec<u16>)
    ensures
        r@ == key(cea@, shifting),
{
    let mut key = if shifting {
        get_primary_shifting(cea)
    } else {
        get_primary(cea)
    };
    let mut s = get_secondary(cea);
    key.append(&mut s);
    let mut t = get_tertiary(cea);
    key.append(&mut t);
    let mut q = get_quaternary(cea);
    key.append(&mut q);
    key
}

} // verus!

//! Laws of the incremental comparison: it is a total order, and it agrees
//! with comparing the sort keys wherever the concatenated key can tell.
use std::cmp::Ordering;
use vstd::prelude::*;

use crate::sort_key::{
    first_level, flip, incremental, key, keeps, level, level_cmp, level_from, value, lemma_lex_equal, lemma_lex_flip, lemma_lex_trans,
    lex, Level,
};

use crate::weights::{primary_of, variable_of, SENTINEL};

verus! {

/// The two sequences differ at a position that both of them have.
pub open spec fn differ_within(x: Seq<u16>, y: Seq<u16>) -> bool {
    exists|k: int| 0 <= k < x.len() && k < y.len() && x[k] != y[k]
}

/// At the first level where `x` and `y` differ, neither is a proper prefix of
/// the other; and when not shifting, their quaternary weights are the same.
pub open spec fn key_decides(x: Seq<u32>, y: Seq<u32>, shifting: bool) -> bool {
    let p = first_level(shifting);
    if level(x, p) != level(y, p) {
        differ_within(level(x, p), level(y, p))
    } else if level(x, Level::Secondary) != level(y, Level::Secondary) {
        differ_within(level(x, Level::Secondary), level(y, Level::Secondary))
    } else if level(x, Level::Tertiary) != level(y, Level::Tertiary) {
        differ_within(level(x, Level::Tertiary), level(y, Level::Tertiary))
    } else {
        shifting || level(x, Level::Quaternary) == level(y, Level::Quaternary)
    }
}

proof fn lemma_level_facts(a: Seq<u32>, b: Seq<u32>, c: Seq<u32>, lvl: Level)
    ensures
        (lex(level(a, lvl), level(b, lvl)) == Ordering::Equal) == (level(a, lvl) == level(b, lvl)),
        (lex(level(b, lvl), level(c, lvl)) == Ordering::Equal) == (level(b, lvl) == level(c, lvl)),
        (lex(level(a, lvl), level(c, lvl)) == Ordering::Equal) == (level(a, lvl) == level(c, lvl)),
        lex(level(a, lvl), level(a, lvl)) == Ordering::Equal,
        lex(level(b, lvl), level(a, lvl)) == flip(lex(level(a, lvl), level(b, lvl))),
        lex(level(a, lvl), level(b, lvl)) == Ordering::Less && lex(level(b, lvl), level(c, lvl))
            == Ordering::Less ==> lex(level(a, lvl), level(c, lvl)) == Ordering::Less,
{
    lemma_lex_equal(level(a, lvl), level(b, lvl));
    lemma_lex_equal(level(b, lvl), level(c, lvl));
    lemma_lex_equal(level(a, lvl), level(c, lvl));
    lemma_lex_equal(level(a, lvl), level(a, lvl));
    lemma_lex_flip(level(a, lvl), level(b, lvl));
    if lex(level(a, lvl), level(b, lvl)) == Ordering::Less && lex(level(b, lvl), level(c, lvl))
        == Ordering::Less {
        lemma_lex_trans(level(a, lvl), level(b, lvl), level(c, lvl));
    }
}

proof fn lemma_all_level_facts(a: Seq<u32>, b: Seq<u32>, c: Seq<u32>, shifting: bool)
    ensures
        forall|lvl: Level|
            (lvl == first_level(shifting) || lvl == Level::Secondary || lvl == Level::Tertiary
                || lvl == Level::Quaternary) ==> {
                &&& (lex(level(a, lvl), level(b, lvl)) == Ordering::Equal) == (level(a, lvl)
                    == level(b, lvl))
                &&& (lex(level(b, lvl), level(c, lvl)) == Ordering::Equal) == (level(b, lvl)
                    == level(c, lvl))
                &&& (lex(level(a, lvl), level(c, lvl)) == Ordering::Equal) == (level(a, lvl)
                    == level(c, lvl))
                &&& lex(level(a, lvl), level(a, lvl)) == Ordering::Equal
                &&& lex(level(b, lvl), level(a, lvl)) == flip(lex(level(a, lvl), level(b, lvl)))
                &&& (lex(level(a, lvl), level(b, lvl)) == Ordering::Less && lex(
                    level(b, lvl),
                    level(c, lvl),
                ) == Ordering::Less ==> lex(level(a, lvl), level(c, lvl)) == Ordering::Less)
            },
{
    lemma_level_facts(a, b, c, first_level(shifting));
    lemma_level_facts(a, b, c, Level::Secondary);
    lemma_level_facts(a, b, c, Level::Tertiary);
    lemma_level_facts(a, b, c, Level::Quaternary);
}

/// Every element array compares equal to itself.
pub proof fn lemma_incremental_reflexive(a: Seq<u32>, shifting: bool)
    ensures
        incremental(a, a, shifting) == Ordering::Equal,
{
    lemma_all_level_facts(a, a, a, shifting);
}

/// Swapping the two arrays reverses the order.
pub proof fn lemma_incremental_antisymmetric(a: Seq<u32>, b: Seq<u32>, shifting: bool)
    ensures
        incremental(b, a, shifting) == flip(incremental(a, b, shifting)),
{
    lemma_all_level_facts(a, b, b, shifting);
    lemma_all_level_facts(b, a, a, shifting);
}

/// The order is transitive: `a <= b` and `b <= c` give `a <= c`, strictly
/// when either step is strict.
pub proof fn lemma_incremental_transitive(a: Seq<u32>, b: Seq<u32>, c: Seq<u32>, shifting: bool)
    requires
        incremental(a, b, shifting) != Ordering::Greater,
        incremental(b, c, shifting) != Ordering::Greater,
    ensures
        incremental(a, c, shifting) != Ordering::Greater,
        incremental(a, b, shifting) == Ordering::Less || incremental(b, c, shifting)
            == Ordering::Less ==> incremental(a, c, shifting) == Ordering::Less,
{
    lemma_all_level_facts(a, b, c, shifting);
}

proof fn lemma_lex_common_prefix(p: Seq<u16>, x: Seq<u16>, y: Seq<u16>)
    ensures
        lex(p + x, p + y) == lex(x, y),
    decreases p.len(),
{
    if p.len() > 0 {
        assert((p + x).drop_first() =~= p.drop_first() + x);
        assert((p + y).drop_first() =~= p.drop_first() + y);
        lemma_lex_common_prefix(p.drop_first(), x, y);
    } else {
        assert(p + x =~= x);
        assert(p + y =~= y);
    }
}

proof fn lemma_lex_decided(x1: Seq<u16>, x2: Seq<u16>, y1: Seq<u16>, y2: Seq<u16>)
    requires
        differ_within(x1, y1),
    ensures
        lex(x1 + x2, y1 + y2) == lex(x1, y1),
    decreases x1.len(),
{
    let k = choose|k: int| 0 <= k < x1.len() && k < y1.len() && x1[k] != y1[k];
    assert((x1 + x2)[0] == x1[0]);
    assert((y1 + y2)[0] == y1[0]);
    if x1[0] == y1[0] {
        assert(k > 0);
        assert(x1.drop_first()[k - 1] != y1.drop_first()[k - 1]);
        assert((x1 + x2).drop_first() =~= x1.drop_first() + x2);
        assert((y1 + y2).drop_first() =~= y1.drop_first() + y2);
        lemma_lex_decided(x1.drop_first(), x2, y1.drop_first(), y2);
    }
}

/// Comparing two arrays level by level gives the same result as comparing
/// their sort keys, except where at the first level that differs one array's
/// weights are a proper prefix of the other's, or, when not shifting, where
/// only the quaternary weights differ.
pub proof fn lemma_incremental_matches_key(x: Seq<u32>, y: Seq<u32>, shifting: bool)
    requires
        key_decides(x, y, shifting),
    ensures
        incremental(x, y, shifting) == lex(key(x, shifting), key(y, shifting)),
{
    let p = first_level(shifting);
    let (xp, yp) = (level(x, p), level(y, p));
    let (xs, ys) = (level(x, Level::Secondary), level(y, Level::Secondary));
    let (xt, yt) = (level(x, Level::Tertiary), level(y, Level::Tertiary));
    let (xq, yq) = (level(x, Level::Quaternary), level(y, Level::Quaternary));
    lemma_all_level_facts(x, y, y, shifting);
    assert(key(x, shifting) =~= xp + (xs + (xt + xq)));
    assert(key(y, shifting) =~= yp + (ys + (yt + yq)));
    if xp != yp {
        lemma_lex_decided(xp, xs + (xt + xq), yp, ys + (yt + yq));
    } else {
        lemma_lex_common_prefix(xp, xs + (xt + xq), ys + (yt + yq));
        if xs != ys {
            lemma_lex_decided(xs, xt + xq, ys, yt + yq);
        } else {
            lemma_lex_common_prefix(xs, xt + xq, yt + yq);
            if xt != yt {
                lemma_lex_decided(xt, xq, yt, yq);
            } else {
                lemma_lex_common_prefix(xt, xq, yq);
            }
        }
    }
}

proof fn lemma_level_shift(pre: Seq<u32>, post: Seq<u32>, lvl: Level, j: int)
    requires
        0 <= j <= post.len(),
    ensures
        level_from(pre + post, lvl, pre.len() + j) == level_from(post, lvl, j),
    decreases post.len() - j,
{
    if j < post.len() {
        lemma_level_shift(pre, post, lvl, j + 1);
        assert((pre + post)[pre.len() + j] == post[j]);
    }
}

proof fn lemma_level_concat_from(pre: Seq<u32>, post: Seq<u32>, lvl: Level, i: int)
    requires
        0 <= i <= pre.len(),
        !pre.contains(SENTINEL),
    ensures
        level_from(pre + post, lvl, i) == level_from(pre, lvl, i) + level(post, lvl),
    decreases pre.len() - i,
{
    if i == pre.len() {
        lemma_level_shift(pre, post, lvl, 0);
        assert(level_from(pre, lvl, i) =~= seq![]);
        assert(level_from(pre, lvl, i) + level(post, lvl) =~= level(post, lvl));
    } else {
        lemma_level_concat_from(pre, post, lvl, i + 1);
        assert((pre + post)[i] == pre[i]);
        assert(pre[i] != SENTINEL);
        if keeps(lvl, pre[i]) {
            assert(seq![value(lvl, pre[i])] + (level_from(pre, lvl, i + 1) + level(post, lvl))
                =~= (seq![value(lvl, pre[i])] + level_from(pre, lvl, i + 1)) + level(post, lvl));
        }
    }
}

/// Before the sentinel, the weights of one level of two arrays laid end to
/// end are those of the first followed by those of the second.
pub proof fn lemma_level_concat(pre: Seq<u32>, post: Seq<u32>, lvl: Level)
    requires
        !pre.contains(SENTINEL),
    ensures
        level(pre + post, lvl) == level(pre, lvl) + level(post, lvl),
{
    lemma_level_concat_from(pre, post, lvl, 0);
}

proof fn lemma_level_one(w: u32, lvl: Level)
    requires
        w != SENTINEL,
    ensures
        level(seq![w], lvl) == (if keeps(lvl, w) {
            seq![value(lvl, w)]
        } else {
            seq![]
        }),
{
    assert(level_from(seq![w], lvl, 1) =~= seq![]);
    assert(seq![value(lvl, w)] + seq![] =~= seq![value(lvl, w)]);
}

proof fn lemma_insert_split(pre: Seq<u32>, w: u32, post: Seq<u32>, lvl: Level)
    requires
        !pre.contains(SENTINEL),
        w != SENTINEL,
    ensures
        level(pre + seq![w] + post, lvl) == level(pre, lvl) + level(seq![w], lvl) + level(
            post,
            lvl,
        ),
        level(pre + post, lvl) == level(pre, lvl) + level(post, lvl),
{
    assert(pre + seq![w] + post =~= pre + (seq![w] + post));
    lemma_level_concat(pre, seq![w] + post, lvl);
    assert(!seq![w].contains(SENTINEL)) by {
        if seq![w].contains(SENTINEL) {
            assert(seq![w][0] == SENTINEL);
        }
    }
    lemma_level_concat(seq![w], post, lvl);
    lemma_level_concat(pre, post, lvl);
    assert(level(pre, lvl) + (level(seq![w], lvl) + level(post, lvl)) =~= level(pre, lvl)
        + level(seq![w], lvl) + level(post, lvl));
}

/// An element whose primary weight is zero changes nothing at the primary
/// level, shifted or not, wherever it stands before the sentinel.
pub proof fn lemma_zero_primary_ignored(
    pre: Seq<u32>,
    w: u32,
    post: Seq<u32>,
    other: Seq<u32>,
    shifting: bool,
)
    requires
        !pre.contains(SENTINEL),
        w != SENTINEL,
        primary_of(w) == 0,
    ensures
        level(pre + seq![w] + post, first_level(shifting)) == level(
            pre + post,
            first_level(shifting),
        ),
        level_cmp(pre + seq![w] + post, other, first_level(shifting)) == level_cmp(
            pre + post,
            other,
            first_level(shifting),
        ),
        level_cmp(other, pre + seq![w] + post, first_level(shifting)) == level_cmp(
            other,
            pre + post,
            first_level(shifting),
        ),
{
    let lvl = first_level(shifting);
    lemma_insert_split(pre, w, post, lvl);
    lemma_level_one(w, lvl);
    assert(level(pre, lvl) + seq![] =~= level(pre, lvl));
}

/// When shifting, a variable element is left out of the primary level but
/// gives its primary weight to the quaternary level.
pub proof fn lemma_variable_shifted(pre: Seq<u32>, w: u32, post: Seq<u32>)
    requires
        !pre.contains(SENTINEL),
        w != SENTINEL,
        variable_of(w),
    ensures
        level(pre + seq![w] + post, Level::PrimaryShifted) == level(
            pre + post,
            Level::PrimaryShifted,
        ),
        level(pre + seq![w] + post, Level::Quaternary) == level(pre, Level::Quaternary) + seq![
            primary_of(w),
        ] + level(post, Level::Quaternary),
{
    lemma_insert_split(pre, w, post, Level::PrimaryShifted);
    lemma_level_one(w, Level::PrimaryShifted);
    assert(level(pre, Level::PrimaryShifted) + seq![] =~= level(pre, Level::PrimaryShifted));
    lemma_insert_split(pre, w, post, Level::Quaternary);
    lemma_level_one(w, Level::Quaternary);
}

} // verus!

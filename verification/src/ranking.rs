//! The order of a ranked card listing, and the listing's text.
use vstd::prelude::*;
use crate::text::{join, join_seq, owned, views};

verus! {

/// A line of a card listing with what it is ranked by: the card's rank key
/// and its key.
#[derive(Debug)]
pub struct RankedLine {
    pub rank: (i64, i64, i64, i64),
    pub key: String,
    pub line: String,
}

pub type RankedView = ((i64, i64, i64, i64), Seq<char>, Seq<char>);

pub open spec fn ranked_view(e: RankedLine) -> RankedView {
    (e.rank, e.key@, e.line@)
}

pub open spec fn ranked_views(s: Seq<RankedLine>) -> Seq<RankedView> {
    s.map_values(|e: RankedLine| ranked_view(e))
}

/// `a` comes strictly before `b` in character order.
pub open spec fn text_lt(a: Seq<char>, b: Seq<char>) -> bool
    decreases a.len(),
{
    if a.len() == 0 {
        b.len() > 0
    } else if b.len() == 0 {
        false
    } else if a[0] != b[0] {
        (a[0] as u32) < (b[0] as u32)
    } else {
        text_lt(a.drop_first(), b.drop_first())
    }
}

/// `x` comes strictly before `y` in the order of tuples.
pub open spec fn rank_lt(x: (i64, i64, i64, i64), y: (i64, i64, i64, i64)) -> bool {
    x.0 < y.0 || (x.0 == y.0 && (x.1 < y.1 || (x.1 == y.1 && (x.2 < y.2 || (x.2 == y.2 && x.3 < y.3)))))
}

/// A line ranks strictly before another: by rank key, then by card key.
pub open spec fn ranks_before(x: RankedView, y: RankedView) -> bool {
    rank_lt(x.0, y.0) || (x.0 == y.0 && text_lt(x.1, y.1))
}

/// No line ranks strictly before a line above it.
pub open spec fn ranked_in_order(s: Seq<RankedView>) -> bool {
    forall|i: int, j: int| 0 <= i < j < s.len() ==> !ranks_before(#[trigger] s[j], #[trigger] s[i])
}

pub proof fn lemma_text_lt_irreflexive(a: Seq<char>)
    ensures
        !text_lt(a, a),
    decreases a.len(),
{
    if a.len() > 0 {
        lemma_text_lt_irreflexive(a.drop_first());
    }
}

pub proof fn lemma_text_lt_transitive(a: Seq<char>, b: Seq<char>, c: Seq<char>)
    requires
        text_lt(a, b),
        text_lt(b, c),
    ensures
        text_lt(a, c),
    decreases a.len(),
{
    if a.len() > 0 && b.len() > 0 && c.len() > 0 && a[0] == b[0] && b[0] == c[0] {
        lemma_text_lt_transitive(a.drop_first(), b.drop_first(), c.drop_first());
    }
}

pub proof fn lemma_ranks_before_order(x: RankedView, y: RankedView, z: RankedView)
    ensures
        !ranks_before(x, x),
        ranks_before(x, y) && ranks_before(y, z) ==> ranks_before(x, z),
{
    lemma_text_lt_irreflexive(x.1);
    if ranks_before(x, y) && ranks_before(y, z) {
        if x.0 == y.0 && y.0 == z.0 {
            lemma_text_lt_transitive(x.1, y.1, z.1);
        }
    }
}

/// Two lines take the same place in the order: the same rank key and the
/// same card key.
pub open spec fn same_place(x: RankedView, y: RankedView) -> bool {
    x.0 == y.0 && x.1 == y.1
}

/// The lines that take the same place as `v`.
pub open spec fn placed_like(v: RankedView) -> spec_fn(RankedView) -> bool {
    |x: RankedView| same_place(x, v)
}

/// Inserting a line at `p` adds it to the lines that take its place, after
/// the others, when none of those stands at or after `p`; it leaves every
/// other place's lines as they were.
proof fn lemma_filter_insert(s: Seq<RankedView>, p: int, e: RankedView, v: RankedView)
    requires
        0 <= p <= s.len(),
        same_place(e, v) ==> forall|j: int| p <= j < s.len() ==> !same_place(#[trigger] s[j], v),
    ensures
        s.insert(p, e).filter(placed_like(v)) == if same_place(e, v) {
            s.filter(placed_like(v)).push(e)
        } else {
            s.filter(placed_like(v))
        },
{
    let f = placed_like(v);
    let a = s.take(p);
    let b = s.skip(p);
    assert(s.insert(p, e) =~= a + seq![e] + b);
    assert(s =~= a + b);
    Seq::filter_distributes_over_add(a + seq![e], b, f);
    Seq::filter_distributes_over_add(a, seq![e], f);
    Seq::filter_distributes_over_add(a, b, f);
    reveal_with_fuel(Seq::filter, 2);
    assert(seq![e].drop_last() =~= Seq::<RankedView>::empty());
    if same_place(e, v) {
        assert forall|j: int| 0 <= j < b.len() implies !f(b[j]) by {
            assert(b[j] == s[p + j]);
        }
        b.lemma_all_neg_filter_empty(f);
        assert(b.filter(f) =~= Seq::<RankedView>::empty());
        assert(seq![e].filter(f) =~= seq![e]);
        assert(a.filter(f) + seq![e] + b.filter(f) =~= (a.filter(f) + b.filter(f)).push(e));
    } else {
        assert(seq![e].filter(f) =~= Seq::<RankedView>::empty());
        assert(a.filter(f) + seq![e].filter(f) =~= a.filter(f));
    }
}

/// Whether `a` comes strictly before `b` in character order.
pub fn text_less(a: &str, b: &str) -> (r: bool)
    ensures
        r == text_lt(a@, b@),
{
    let n = a.unicode_len();
    let m = b.unicode_len();
    let mut i: usize = 0;
    assert(a@.skip(0) =~= a@);
    assert(b@.skip(0) =~= b@);
    while i < n && i < m && a.get_char(i) == b.get_char(i)
        invariant
            n == a@.len(),
            m == b@.len(),
            i <= n,
            i <= m,
            text_lt(a@, b@) == text_lt(a@.skip(i as int), b@.skip(i as int)),
        decreases n - i,
    {
        assert(a@.skip(i as int).drop_first() =~= a@.skip(i + 1));
        assert(b@.skip(i as int).drop_first() =~= b@.skip(i + 1));
        i = i + 1;
    }
    if i == n {
        i < m
    } else if i == m {
        false
    } else {
        (a.get_char(i) as u32) < (b.get_char(i) as u32)
    }
}

fn rank_less(x: (i64, i64, i64, i64), y: (i64, i64, i64, i64)) -> (r: bool)
    ensures
        r == rank_lt(x, y),
{
    x.0 < y.0 || (x.0 == y.0 && (x.1 < y.1 || (x.1 == y.1 && (x.2 < y.2 || (x.2 == y.2 && x.3
        < y.3)))))
}

fn line_before(x: &RankedLine, y: &RankedLine) -> (r: bool)
    ensures
        r == ranks_before(ranked_view(*x), ranked_view(*y)),
{
    let same = x.rank.0 == y.rank.0 && x.rank.1 == y.rank.1 && x.rank.2 == y.rank.2 && x.rank.3
        == y.rank.3;
    rank_less(x.rank, y.rank) || (same && text_less(x.key.as_str(), y.key.as_str()))
}

/// The lines in rank order: by rank key, then by card key. The result is a
/// permutation of the input, and lines that take the same place keep their
/// order.
pub fn sort_ranked(lines: Vec<RankedLine>) -> (r: Vec<RankedLine>)
    ensures
        ranked_in_order(ranked_views(r@)),
        ranked_views(r@).to_multiset() == ranked_views(lines@).to_multiset(),
        forall|v: RankedView|
            #[trigger] ranked_views(r@).filter(placed_like(v)) == ranked_views(lines@).filter(
                placed_like(v),
            ),
{
    let mut out: Vec<RankedLine> = Vec::new();
    let mut rest = lines;
    let ghost all = ranked_views(rest@);
    let ghost taken: Seq<RankedView> = Seq::empty();
    broadcast use vstd::seq_lib::group_to_multiset_ensures;
    while rest.len() > 0
        invariant
            ranked_in_order(ranked_views(out@)),
            all == taken + ranked_views(rest@),
            ranked_views(out@).to_multiset() == taken.to_multiset(),
            forall|v: RankedView|
                #[trigger] ranked_views(out@).filter(placed_like(v)) == taken.filter(placed_like(v)),
        decreases rest.len(),
    {
        let ghost before_rest = ranked_views(rest@);
        let e = rest.remove(0);
        let ghost ev = ranked_view(e);
        let ghost prev = taken;
        proof {
            assert(before_rest =~= seq![ev] + ranked_views(rest@));
            assert(taken + before_rest =~= taken.push(ev) + ranked_views(rest@));
            taken = taken.push(ev);
        }
        let mut p: usize = 0;
        while p < out.len() && !line_before(&e, &out[p])
            invariant
                p <= out.len(),
                ev == ranked_view(e),
                forall|k: int| 0 <= k < p ==> !ranks_before(ev, #[trigger] ranked_views(out@)[k]),
            decreases out.len() - p,
        {
            assert(ranked_views(out@)[p as int] == ranked_view(out@[p as int]));
            p = p + 1;
        }
        let ghost before = ranked_views(out@);
        out.insert(p, e);
        proof {
            assert(ranked_views(out@) =~= before.insert(p as int, ev));
            vstd::seq_lib::to_multiset_insert(before, p as int, ev);
            prev.to_multiset_ensures();
            assert(taken == prev.push(ev));
            assert(taken.to_multiset() =~= prev.to_multiset().insert(ev));
            assert forall|v: RankedView|
                #[trigger] ranked_views(out@).filter(placed_like(v)) == taken.filter(placed_like(v))
                by {
                if same_place(ev, v) {
                    assert forall|j: int| p <= j < before.len() implies !same_place(
                        #[trigger] before[j],
                        v,
                    ) by {
                        lemma_ranks_before_order(ev, ev, ev);
                        if j == p {
                        } else {
                            assert(!ranks_before(before[j], before[p as int]));
                        }
                    }
                }
                lemma_filter_insert(before, p as int, ev, v);
                prev.lemma_filter_push(ev, placed_like(v));
            }
            assert forall|i: int, j: int|
                0 <= i < j < ranked_views(out@).len() implies !ranks_before(
                #[trigger] ranked_views(out@)[j],
                #[trigger] ranked_views(out@)[i],
            ) by {
                let s = ranked_views(out@);
                if j < p {
                } else if j == p {
                    assert(s[i] == before[i]);
                } else if i < p {
                    assert(s[i] == before[i]);
                    assert(s[j] == before[j - 1]);
                } else if i == p {
                    assert(s[j] == before[j - 1]);
                    assert(p < before.len());
                    assert(ranks_before(ev, before[p as int]));
                    lemma_ranks_before_order(before[j - 1], ev, before[p as int]);
                    if j - 1 > p {
                        assert(!ranks_before(before[j - 1], before[p as int]));
                    }
                } else {
                    assert(s[i] == before[i - 1]);
                    assert(s[j] == before[j - 1]);
                }
            }
        }
    }
    proof {
        assert(taken + ranked_views(rest@) =~= taken);
    }
    out
}

/// The text of a listing: its lines joined by newlines, or
/// `(no matching cards)` when there are none.
pub open spec fn listing_text(lines: Seq<Seq<char>>) -> Seq<char> {
    if lines.len() == 0 {
        "(no matching cards)"@
    } else {
        join_seq(lines, "\n"@)
    }
}

/// The text of a listing from its lines.
pub fn listing(lines: &Vec<String>) -> (r: String)
    ensures
        r@ == listing_text(views(lines@)),
{
    if lines.len() == 0 {
        owned("(no matching cards)")
    } else {
        join(lines, "\n")
    }
}

} // verus!

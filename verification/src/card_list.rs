//! A card listing as a whole: which cards the filters keep, the line of
//! each, and their order.
use vstd::prelude::*;
use crate::card::{Card, CardReadiness};
use crate::listing::{ListFilterContext, basic_filters, column_name_of, list_entry, rank_key, rank_key_spec};
use crate::queue::{classify_spec, queue_matches};
use crate::ranking::{
    RankedLine, RankedView, listing, listing_text, placed_like, ranked_in_order, ranked_view, ranks_before,
    ranked_views, sort_ranked,
};
use crate::read_text::{
    due_suffix, due_suffix_spec, entry_line_spec, list_line, rank_reason, rank_reason_spec,
};
use crate::render::Label;
use crate::text::views;

verus! {

/// What the card store tells about one card of a listing: its readiness,
/// whether it is stale now, its priority label, and the calendar text of
/// its due date.
#[derive(Debug)]
pub struct CardFacts {
    pub readiness: CardReadiness,
    pub stale: bool,
    pub priority: String,
    pub day: String,
}

/// The card passes the listing's filters and its queue view.
pub open spec fn kept(c: Card, f: CardFacts, ctx: ListFilterContext) -> bool {
    let name = column_name_of(ctx.column_names@, c.column_id@);
    let status = classify_spec(c, ctx.now, f.readiness.ready);
    basic_filters(c, name, *ctx.params, f.stale) && match ctx.queue {
        Some(q) => queue_matches(q, status),
        None => true,
    }
}

/// The rank key of a card as the listing sorts by it.
pub open spec fn rank_tuple(c: Card) -> (i64, i64, i64, i64) {
    let k = rank_key_spec(c);
    (k.0 as i64, k.1 as i64, k.2 as i64, k.3 as i64)
}

/// A kept card's entry: its rank key, its key and its line (with the rank
/// reason when the listing is ranked).
pub open spec fn listed_view(
    c: Card,
    f: CardFacts,
    ctx: ListFilterContext,
    labels: Seq<(String, Vec<Label>)>,
    ranked: bool,
) -> RankedView {
    let name = column_name_of(ctx.column_names@, c.column_id@);
    let status = classify_spec(c, ctx.now, f.readiness.ready);
    (
        rank_tuple(c),
        c.key@,
        entry_line_spec(
            c,
            name,
            ctx.queue,
            status,
            f.priority@,
            due_suffix_spec(c.due_date, f.day@, ctx.today),
            labels,
            f.stale,
            ctx.now,
            views(f.readiness.blocked_by@),
            if ranked {
                rank_reason_spec(f.priority@, c)
            } else {
                Seq::empty()
            },
        ),
    )
}

/// The entries of the kept cards among the first `n`, in card order.
pub open spec fn listed(
    cards: Seq<Card>,
    facts: Seq<CardFacts>,
    ctx: ListFilterContext,
    labels: Seq<(String, Vec<Label>)>,
    ranked: bool,
    n: int,
) -> Seq<RankedView>
    decreases n,
{
    if n <= 0 {
        Seq::empty()
    } else {
        let rest = listed(cards, facts, ctx, labels, ranked, n - 1);
        if kept(cards[n - 1], facts[n - 1], ctx) {
            rest.push(listed_view(cards[n - 1], facts[n - 1], ctx, labels, ranked))
        } else {
            rest
        }
    }
}

/// The lines of listing entries.
pub open spec fn entry_lines(s: Seq<RankedView>) -> Seq<Seq<char>> {
    s.map_values(|v: RankedView| v.2)
}

/// The text of a card listing. `facts` has an entry per card, by position.
/// Unranked, the kept cards come in card order; ranked, they come sorted by
/// rank key and then card key (cards that tie on both keep their order),
/// each line ending with its rank reason.
pub fn list_cards(
    cards: &Vec<Card>,
    facts: &Vec<CardFacts>,
    labels: &Vec<(String, Vec<Label>)>,
    ctx: &ListFilterContext<'_>,
    ranked: bool,
) -> (r: String)
    requires
        facts.len() == cards.len(),
        forall|i: int|
            0 <= i < cards.len() && kept(cards@[i], facts@[i], *ctx) ==> cards@[i].priority
                > i64::MIN,
    ensures
        ({
            let all = listed(cards@, facts@, *ctx, labels@, ranked, cards@.len() as int);
            &&& !ranked ==> r@ == listing_text(entry_lines(all))
            &&& ranked ==> exists|s: Seq<RankedView>|
                {
                    &&& ranked_in_order(s)
                    &&& s.to_multiset() == all.to_multiset()
                    &&& forall|v: RankedView|
                        #[trigger] s.filter(placed_like(v)) == all.filter(placed_like(v))
                    &&& r@ == listing_text(entry_lines(s))
                }
        }),
{
    let mut entries: Vec<RankedLine> = Vec::new();
    let mut i: usize = 0;
    while i < cards.len()
        invariant
            i <= cards.len(),
            facts.len() == cards.len(),
            forall|k: int|
                0 <= k < cards.len() && kept(cards@[k], facts@[k], *ctx) ==> cards@[k].priority
                    > i64::MIN,
            ranked_views(entries@) == listed(cards@, facts@, *ctx, labels@, ranked, i as int),
        decreases cards.len() - i,
    {
        let c = &cards[i];
        let f = &facts[i];
        match list_entry(c, &f.readiness, f.stale, ctx) {
            Some(e) => {
                let reason = if ranked {
                    rank_reason(f.priority.as_str(), c)
                } else {
                    String::new()
                };
                let due = due_suffix(c.due_date, f.day.as_str(), ctx.today);
                let line = list_line(
                    c,
                    &e,
                    f.priority.as_str(),
                    due.as_str(),
                    labels,
                    f.stale,
                    ctx.now,
                    &f.readiness,
                    reason.as_str(),
                );
                proof {
                    assert(kept(*c, *f, *ctx));
                }
                let rank = rank_key(c);
                let entry = RankedLine { rank, key: c.key.clone(), line };
                let ghost before = ranked_views(entries@);
                proof {
                    assert(rank == rank_tuple(*c));
                    assert(ranked_view(entry) == listed_view(*c, *f, *ctx, labels@, ranked));
                }
                entries.push(entry);
                assert(ranked_views(entries@) =~= before.push(ranked_view(entry)));
            },
            None => {},
        }
        i = i + 1;
    }
    let ghost all = ranked_views(entries@);
    let ordered = if ranked {
        sort_ranked(entries)
    } else {
        entries
    };
    let mut lines: Vec<String> = Vec::new();
    let mut j: usize = 0;
    while j < ordered.len()
        invariant
            j <= ordered.len(),
            views(lines@) == entry_lines(ranked_views(ordered@)).take(j as int),
        decreases ordered.len() - j,
    {
        let ghost before = views(lines@);
        lines.push(ordered[j].line.clone());
        assert(views(lines@) =~= before.push(ordered@[j as int].line@));
        assert(entry_lines(ranked_views(ordered@)).take(j + 1) =~= entry_lines(
            ranked_views(ordered@),
        ).take(j as int).push(ordered@[j as int].line@));
        j = j + 1;
    }
    assert(entry_lines(ranked_views(ordered@)).take(ordered.len() as int) =~= entry_lines(
        ranked_views(ordered@),
    ));
    let r = listing(&lines);
    proof {
        if ranked {
            assert(ranked_in_order(ranked_views(ordered@)));
        }
    }
    r
}

/// Ranking a listing keeps the same cards with the same keys and rank keys;
/// it only orders them (see `list_cards`) and ends each line with its rank
/// reason: each ranked entry's line starts with the unranked entry's line.
pub proof fn ranking_keeps_the_listed_cards(
    cards: Seq<Card>,
    facts: Seq<CardFacts>,
    ctx: ListFilterContext,
    labels: Seq<(String, Vec<Label>)>,
    n: int,
)
    ensures
        listed(cards, facts, ctx, labels, true, n).len() == listed(
            cards,
            facts,
            ctx,
            labels,
            false,
            n,
        ).len(),
        forall|i: int|
            0 <= i < listed(cards, facts, ctx, labels, false, n).len() ==> {
                let r = #[trigger] listed(cards, facts, ctx, labels, true, n)[i];
                let u = listed(cards, facts, ctx, labels, false, n)[i];
                &&& r.0 == u.0
                &&& r.1 == u.1
                &&& r.2.subrange(0, u.2.len() as int) == u.2
            },
    decreases n,
{
    if n > 0 {
        ranking_keeps_the_listed_cards(cards, facts, ctx, labels, n - 1);
        let c = cards[n - 1];
        let f = facts[n - 1];
        let r = listed_view(c, f, ctx, labels, true);
        let u = listed_view(c, f, ctx, labels, false);
        let name = column_name_of(ctx.column_names@, c.column_id@);
        let status = classify_spec(c, ctx.now, f.readiness.ready);
        let base = entry_line_spec(
            c,
            name,
            ctx.queue,
            status,
            f.priority@,
            due_suffix_spec(c.due_date, f.day@, ctx.today),
            labels,
            f.stale,
            ctx.now,
            views(f.readiness.blocked_by@),
            Seq::empty(),
        );
        assert(u.2 =~= base);
        assert(r.2 =~= base + rank_reason_spec(f.priority@, c));
        assert(r.2.subrange(0, u.2.len() as int) =~= u.2);
    }
}

/// With no filter and no queue view, a listing keeps every card, in card
/// order.
pub proof fn unfiltered_listing_keeps_every_card(
    cards: Seq<Card>,
    facts: Seq<CardFacts>,
    ctx: ListFilterContext,
    labels: Seq<(String, Vec<Label>)>,
    ranked: bool,
    n: int,
)
    requires
        0 <= n <= cards.len(),
        ctx.queue is None,
        ctx.params.column is None && ctx.params.agent_state is None && ctx.params.status is None,
        ctx.params.stale is None && ctx.params.agent_weight_max is None,
        ctx.params.agent_effort is None && ctx.params.suggested_model is None,
        ctx.params.expected_tokens_min is None && ctx.params.expected_tokens_max is None,
        ctx.params.human_intervention is None,
    ensures
        listed(cards, facts, ctx, labels, ranked, n).len() == n,
        forall|i: int|
            0 <= i < n ==> (#[trigger] listed(cards, facts, ctx, labels, ranked, n)[i]).1
                == cards[i].key@,
    decreases n,
{
    if n > 0 {
        unfiltered_listing_keeps_every_card(cards, facts, ctx, labels, ranked, n - 1);
        assert(kept(cards[n - 1], facts[n - 1], ctx));
        let rest = listed(cards, facts, ctx, labels, ranked, n - 1);
        assert forall|i: int| 0 <= i < n implies (#[trigger] listed(
            cards,
            facts,
            ctx,
            labels,
            ranked,
            n,
        )[i]).1 == cards[i].key@ by {
            if i < n - 1 {
                assert(listed(cards, facts, ctx, labels, ranked, n)[i] == rest[i]);
            }
        }
    }
}

/// The weight a ranked listing orders by: the card's agent weight, 3 when
/// unset.
pub open spec fn weight_of(c: Card) -> int {
    match c.agent_weight {
        Some(w) => w as int,
        None => 3,
    }
}

/// The expected tokens a ranked listing orders by; unset counts as the most.
pub open spec fn tokens_of(c: Card) -> int {
    match c.expected_tokens {
        Some(t) => t as int,
        None => i64::MAX as int,
    }
}

/// The order of a ranked listing, card by card: a higher priority comes
/// first; at equal priority a smaller weight (unset counts as 3) comes first
/// whatever the expected tokens; at equal weight fewer expected tokens
/// (unset last); then the older update. The entries compared are those of
/// cards `a` and `b` with any keys `ka`, `kb` and lines `la`, `lb`: the rank
/// key alone decides. A priority of `i64::MIN` has no negation and is left out.
pub proof fn ranked_order_is_priority_weight_tokens_age(
    a: Card,
    b: Card,
    ka: Seq<char>,
    kb: Seq<char>,
    la: Seq<char>,
    lb: Seq<char>,
)
    requires
        a.priority > i64::MIN,
        b.priority > i64::MIN,
    ensures
        a.priority > b.priority ==> ranks_before((rank_tuple(a), ka, la), (rank_tuple(b), kb, lb)),
        a.priority == b.priority && weight_of(a) < weight_of(b) ==> ranks_before(
            (rank_tuple(a), ka, la),
            (rank_tuple(b), kb, lb),
        ),
        a.priority == b.priority && weight_of(a) == weight_of(b) && tokens_of(a) < tokens_of(b)
            ==> ranks_before((rank_tuple(a), ka, la), (rank_tuple(b), kb, lb)),
        a.priority == b.priority && weight_of(a) == weight_of(b) && tokens_of(a) == tokens_of(b)
            && a.updated_at < b.updated_at ==> ranks_before(
            (rank_tuple(a), ka, la),
            (rank_tuple(b), kb, lb),
        ),
{
}

/// In a ranked listing, of two cards at equal priority the one with the
/// smaller weight stands above the other, whatever their expected tokens:
/// `s` is any sequence in rank order, and positions `p` and `q` hold the
/// entries of cards `a` and `b`.
pub proof fn lighter_cards_are_listed_first(s: Seq<RankedView>, p: int, q: int, a: Card, b: Card)
    requires
        ranked_in_order(s),
        0 <= p < s.len(),
        0 <= q < s.len(),
        s[p].0 == rank_tuple(a),
        s[q].0 == rank_tuple(b),
        a.priority > i64::MIN,
        b.priority > i64::MIN,
        a.priority == b.priority,
        weight_of(a) < weight_of(b),
    ensures
        p < q,
{
    ranked_order_is_priority_weight_tokens_age(a, b, s[p].1, s[q].1, s[p].2, s[q].2);
    assert(s[p].0 != s[q].0);
    if q < p {
        assert(!ranks_before(s[p], s[q]));
    }
}

} // verus!

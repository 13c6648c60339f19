//! The filters of `list_cards` and the per-card dependency summary.
use vstd::prelude::*;
use vstd::string::*;
use crate::card::{human_value, opt_str, Card, CardReadiness};
use crate::queue::{classify_queue, classify_spec, queue_matches, QueueMode, QueueStatus};
use crate::text::{join, join_seq, owned, str_eq, views};

verus! {

/// The optional filters of a card listing.
#[derive(Debug)]
pub struct ListParams {
    pub board: Option<String>,
    pub column: Option<String>,
    pub agent_state: Option<String>,
    /// An older name of `agent_state`, used when `agent_state` is unset.
    pub status: Option<String>,
    pub query: Option<String>,
    pub stale: Option<bool>,
    pub agent_weight_max: Option<i64>,
    pub agent_effort: Option<String>,
    pub suggested_model: Option<String>,
    pub expected_tokens_min: Option<i64>,
    pub expected_tokens_max: Option<i64>,
    pub human_intervention: Option<String>,
    pub queue: Option<String>,
    pub ranked: Option<bool>,
}

/// What the filters of one listing share: the parameters, the column names
/// by column id, the queue view, the time of the listing, and the start of
/// that day.
pub struct ListFilterContext<'a> {
    pub params: &'a ListParams,
    pub column_names: &'a Vec<(String, String)>,
    pub queue: Option<QueueMode>,
    pub now: i64,
    pub today: i64,
}

/// A card that passed the filters, with what its line shows.
#[derive(Debug)]
pub struct ListEntry {
    pub column_name: String,
    pub queue: Option<QueueMode>,
    pub queue_status: QueueStatus,
}

/// The `agent_state` filter in force.
pub open spec fn state_filter(p: ListParams) -> Option<Seq<char>> {
    match p.agent_state {
        Some(s) => Some(s@),
        None => opt_str(p.status),
    }
}

/// Whether a card passes the filters that do not need its readiness.
/// `stale` tells whether the card is stale now.
pub open spec fn basic_filters(c: Card, column_name: Seq<char>, p: ListParams, stale: bool) -> bool {
    &&& (p.column matches Some(col) ==> column_name == col@)
    &&& (state_filter(p) matches Some(st) ==> c.agent_state@ == st)
    &&& (p.stale matches Some(want) ==> stale == want)
    &&& (p.agent_weight_max matches Some(max) ==> c.agent_weight matches Some(w) && w <= max)
    &&& (p.agent_effort matches Some(e) ==> opt_str(c.agent_effort) == Some(e@))
    &&& (p.suggested_model matches Some(m) ==> opt_str(c.suggested_model) == Some(m@))
    &&& (p.expected_tokens_min matches Some(min) ==> c.expected_tokens matches Some(t) && t >= min)
    &&& (p.expected_tokens_max matches Some(max) ==> c.expected_tokens matches Some(t) && t <= max)
    &&& (p.human_intervention matches Some(h) ==> human_value(c) == h@)
}

/// The name of the column with id `id`, empty when the table lacks it. The
/// table is read by first match; column ids are unique in the store.
pub open spec fn column_name_of(table: Seq<(String, String)>, id: Seq<char>) -> Seq<char> {
    if exists|i: int| 0 <= i < table.len() && table[i].0@ == id {
        let i = choose|i: int|
            0 <= i < table.len() && table[i].0@ == id && forall|j: int|
                0 <= j < i ==> table[j].0@ != id;
        table[i].1@
    } else {
        Seq::empty()
    }
}

/// No column id occurs twice in a column-name table.
pub open spec fn column_ids_unique(table: Seq<(String, String)>) -> bool {
    forall|a: int, b: int| 0 <= a < b < table.len() ==> table[a].0@ != table[b].0@
}

/// A column-name table whose ids occur once is a map: looking an id up
/// gives its own entry's name.
pub proof fn column_table_is_a_map(table: Seq<(String, String)>, i: int)
    requires
        column_ids_unique(table),
        0 <= i < table.len(),
    ensures
        column_name_of(table, table[i].0@) == table[i].1@,
{
    let id = table[i].0@;
    assert(0 <= i < table.len() && table[i].0@ == id && forall|j: int| 0 <= j < i ==> table[j].0@ != id);
    let k = choose|k: int|
        0 <= k < table.len() && table[k].0@ == id && forall|j: int| 0 <= j < k ==> table[j].0@ != id;
    if k < i {
        assert(table[k].0@ != table[i].0@);
    } else if i < k {
        assert(table[i].0@ != id);
    }
}

fn opt_eq(a: &Option<String>, b: &str) -> (r: bool)
    ensures
        r == (opt_str(*a) == Some(b@)),
{
    match a {
        Some(s) => str_eq(s.as_str(), b),
        None => false,
    }
}

/// Whether a card passes the filters that do not need its readiness.
pub fn matches_basic_filters(card: &Card, column_name: &str, params: &ListParams, stale: bool) -> (r:
    bool)
    ensures
        r == basic_filters(*card, column_name@, *params, stale),
{
    if let Some(column) = &params.column {
        if !str_eq(column_name, column.as_str()) {
            return false;
        }
    }
    let agent_state_filter = match &params.agent_state {
        Some(s) => Some(s),
        None => params.status.as_ref(),
    };
    if let Some(agent_state) = agent_state_filter {
        if !str_eq(card.agent_state.as_str(), agent_state.as_str()) {
            return false;
        }
    }
    if let Some(want) = params.stale {
        if stale != want {
            return false;
        }
    }
    if let Some(max) = params.agent_weight_max {
        match card.agent_weight {
            Some(weight) => {
                if weight > max {
                    return false;
                }
            },
            None => return false,
        }
    }
    if let Some(agent_effort) = &params.agent_effort {
        if !opt_eq(&card.agent_effort, agent_effort.as_str()) {
            return false;
        }
    }
    if let Some(suggested_model) = &params.suggested_model {
        if !opt_eq(&card.suggested_model, suggested_model.as_str()) {
            return false;
        }
    }
    if let Some(min) = params.expected_tokens_min {
        match card.expected_tokens {
            Some(tokens) => {
                if tokens < min {
                    return false;
                }
            },
            None => return false,
        }
    }
    if let Some(max) = params.expected_tokens_max {
        match card.expected_tokens {
            Some(tokens) => {
                if tokens > max {
                    return false;
                }
            },
            None => return false,
        }
    }
    if let Some(human_intervention) = &params.human_intervention {
        let current = crate::card::human_intervention_value(card);
        if !str_eq(current.as_str(), human_intervention.as_str()) {
            return false;
        }
    }
    true
}

/// The column name for a column id.
pub fn column_name(table: &Vec<(String, String)>, id: &str) -> (r: String)
    ensures
        r@ == column_name_of(table@, id@),
{
    let mut i: usize = 0;
    while i < table.len()
        invariant
            i <= table.len(),
            forall|j: int| 0 <= j < i ==> table@[j].0@ != id@,
        decreases table.len() - i,
    {
        if str_eq(table[i].0.as_str(), id) {
            proof {
                let k = choose|k: int|
                    0 <= k < table@.len() && table@[k].0@ == id@ && forall|j: int|
                        0 <= j < k ==> table@[j].0@ != id@;
                assert(k == i as int) by {
                    if k < i as int {
                        assert(table@[k].0@ != id@);
                    }
                    if k > i as int {
                        assert(table@[i as int].0@ == id@);
                    }
                }
            }
            return table[i].1.clone();
        }
        i = i + 1;
    }
    String::new()
}

/// The filter context of a listing at `now`, on the day that starts at
/// `today`.
pub fn filter_context<'a>(
    params: &'a ListParams,
    column_names: &'a Vec<(String, String)>,
    queue: Option<QueueMode>,
    now: i64,
    today: i64,
) -> (r: ListFilterContext<'a>)
    ensures
        r.params == params,
        r.column_names == column_names,
        r.queue == queue,
        r.now == now,
        r.today == today,
{
    ListFilterContext { params, column_names, queue, now, today }
}

/// The listing entry of a card, or `None` when a filter drops it.
pub fn list_entry(card: &Card, readiness: &CardReadiness, stale: bool, context: &ListFilterContext<'_>) -> (r:
    Option<ListEntry>)
    ensures
        ({
            let name = column_name_of(context.column_names@, card.column_id@);
            let status = classify_spec(*card, context.now, readiness.ready);
            let keep = basic_filters(*card, name, *context.params, stale) && match context.queue {
                Some(q) => queue_matches(q, status),
                None => true,
            };
            match r {
                Some(e) => keep && e.column_name@ == name && e.queue == context.queue
                    && e.queue_status == status,
                None => !keep,
            }
        }),
{
    let column_name = column_name(context.column_names, card.column_id.as_str());
    if !matches_basic_filters(card, column_name.as_str(), context.params, stale) {
        return None;
    }
    let queue_status = classify_queue(card, context.now, readiness);
    if let Some(queue) = context.queue {
        if !queue.matches(queue_status) {
            return None;
        }
    }
    Some(ListEntry { column_name, queue: context.queue, queue_status })
}

/// The workflow tag of a card line: ` [blocked]`, ` [next]` or empty.
pub open spec fn workflow_tag(c: Card) -> Seq<char> {
    if c.blocked_reason is Some {
        " [blocked]"@
    } else if c.next_action is Some {
        " [next]"@
    } else {
        Seq::empty()
    }
}

/// The workflow tag of a card line.
pub fn workflow_suffix(c: &Card) -> (r: &'static str)
    ensures
        r@ == workflow_tag(*c),
{
    if c.blocked_reason.is_some() {
        " [blocked]"
    } else if c.next_action.is_some() {
        " [next]"
    } else {
        proof {
            reveal_strlit("");
        }
        ""
    }
}

/// The sort key of the ranked listing: higher priority first, then lower
/// weight (3 when unset), fewer expected tokens (unset last), and the
/// oldest update.
pub open spec fn rank_key_spec(c: Card) -> (int, int, int, int) {
    (
        -c.priority,
        match c.agent_weight {
            Some(w) => w as int,
            None => 3,
        },
        match c.expected_tokens {
            Some(t) => t as int,
            None => i64::MAX as int,
        },
        c.updated_at as int,
    )
}

/// The ranked listing's sort key of a card.
pub fn rank_key(card: &Card) -> (r: (i64, i64, i64, i64))
    requires
        card.priority > i64::MIN,
    ensures
        (r.0 as int, r.1 as int, r.2 as int, r.3 as int) == rank_key_spec(*card),
{
    (
        -card.priority,
        match card.agent_weight {
            Some(w) => w,
            None => 3,
        },
        match card.expected_tokens {
            Some(t) => t,
            None => i64::MAX,
        },
        card.updated_at,
    )
}

/// `a, b` for a non-empty list, `-` for an empty one.
pub open spec fn list_or_dash_spec(values: Seq<Seq<char>>) -> Seq<char> {
    if values.len() == 0 {
        "-"@
    } else {
        join_seq(values, ", "@)
    }
}

/// A list joined with `, `, or `-` when empty.
pub fn list_or_dash(values: &Vec<String>) -> (r: String)
    ensures
        r@ == list_or_dash_spec(views(values@)),
{
    if values.len() == 0 {
        owned("-")
    } else {
        join(values, ", ")
    }
}

/// The readiness line of a card: closed, ready, or the cards that block it.
pub open spec fn readiness_text(closed: bool, ready: bool, blockers: Seq<Seq<char>>) -> Seq<char> {
    if closed {
        "closed"@
    } else if ready {
        "ready"@
    } else {
        "dependency_blocked by "@ + join_seq(blockers, ", "@)
    }
}

pub open spec fn dependency_context_spec(
    upstream: Seq<Seq<char>>,
    downstream: Seq<Seq<char>>,
    closed: bool,
    ready: bool,
    blockers: Seq<Seq<char>>,
) -> Seq<char> {
    "upstream: "@ + list_or_dash_spec(upstream) + "\ndownstream: "@ + list_or_dash_spec(downstream)
        + "\nreadiness: "@ + readiness_text(closed, ready, blockers)
}

/// The downstream keys of `key`: the edges that start at it, in order.
pub open spec fn downstream_of(edges: Seq<(Seq<char>, Seq<char>)>, key: Seq<char>) -> Seq<Seq<char>>
    decreases edges.len(),
{
    if edges.len() == 0 {
        Seq::empty()
    } else {
        let rest = downstream_of(edges.drop_last(), key);
        if edges.last().0 == key {
            rest.push(edges.last().1)
        } else {
            rest
        }
    }
}

/// The dependency section of a card's detail: its upstream keys, the keys
/// that depend on it (from the board's edges), and its readiness.
pub fn dependency_context(
    card_key: &str,
    upstream: &Vec<String>,
    all_edges: &Vec<(String, String)>,
    readiness: &CardReadiness,
) -> (r: String)
    ensures
        r@ == dependency_context_spec(
            views(upstream@),
            downstream_of(crate::graph::edge_views(all_edges@), card_key@),
            readiness.closed,
            readiness.ready,
            views(readiness.blocked_by@),
        ),
{
    let ghost e = crate::graph::edge_views(all_edges@);
    let mut downstream: Vec<String> = Vec::new();
    let mut i: usize = 0;
    while i < all_edges.len()
        invariant
            e == crate::graph::edge_views(all_edges@),
            i <= all_edges.len(),
            views(downstream@) == downstream_of(e.take(i as int), card_key@),
        decreases all_edges.len() - i,
    {
        proof {
            assert(e.take(i + 1).drop_last() =~= e.take(i as int));
            assert(e.take(i + 1).last() == e[i as int]);
            assert(e[i as int] == (all_edges@[i as int].0@, all_edges@[i as int].1@));
        }
        if str_eq(all_edges[i].0.as_str(), card_key) {
            let d = all_edges[i].1.clone();
            let ghost before = views(downstream@);
            downstream.push(d);
            assert(views(downstream@) =~= before.push(d@));
        }
        i = i + 1;
    }
    assert(e.take(all_edges.len() as int) =~= e);
    let state = if readiness.closed {
        owned("closed")
    } else if readiness.ready {
        owned("ready")
    } else {
        owned("dependency_blocked by ").concat(join(&readiness.blocked_by, ", ").as_str())
    };
    owned("upstream: ").concat(list_or_dash(upstream).as_str()).concat("\ndownstream: ").concat(
        list_or_dash(&downstream).as_str(),
    ).concat("\nreadiness: ").concat(state.as_str())
}

} // verus!

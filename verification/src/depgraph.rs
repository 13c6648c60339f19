//! The dependency graph report: which edges to show, the state of each node,
//! and the text of the stage plan.
use vstd::prelude::*;
use crate::card::{Card, CardReadiness, card_closed, human_value, is_human_gate};
use crate::queue::{BadParam, claim_active};
use crate::text::{
    int_decimal, join, join_seq, owned, str_eq, str_trim, trim, views,
};

verus! {

/// A card that waits on upstream cards, with the keys that block it.
pub struct BlockedNode {
    pub key: String,
    pub blocked_by: Vec<String>,
}

/// The board's plan of work: cards that can start together, stage by stage,
/// and the cards that wait on unfinished upstream work.
pub struct StagePlan {
    pub ready_stages: Vec<Vec<String>>,
    pub dependency_blocked: Vec<BlockedNode>,
}

/// The last card with `key`, as a map built from the card list keeps it.
pub open spec fn card_for_key(cards: Seq<Card>, key: Seq<char>) -> Option<Card>
    decreases cards.len(),
{
    if cards.len() == 0 {
        None
    } else if cards.last().key@ == key {
        Some(cards.last())
    } else {
        card_for_key(cards.drop_last(), key)
    }
}

/// Whether an edge is shown: with `active_only`, both ends exist and are
/// open; with a focus, one end is the focus.
pub open spec fn keep_edge(
    cards: Seq<Card>,
    e: (Seq<char>, Seq<char>),
    active_only: bool,
    focus: Option<Seq<char>>,
) -> bool {
    &&& active_only ==> match (card_for_key(cards, e.0), card_for_key(cards, e.1)) {
        (Some(u), Some(d)) => !card_closed(u) && !card_closed(d),
        _ => false,
    }
    &&& match focus {
        Some(f) => e.0 == f || e.1 == f,
        None => true,
    }
}

/// The shown edges, in their order.
pub open spec fn kept_edges(
    edges: Seq<(Seq<char>, Seq<char>)>,
    cards: Seq<Card>,
    active_only: bool,
    focus: Option<Seq<char>>,
) -> Seq<(Seq<char>, Seq<char>)>
    decreases edges.len(),
{
    if edges.len() == 0 {
        Seq::empty()
    } else {
        let rest = kept_edges(edges.drop_last(), cards, active_only, focus);
        if keep_edge(cards, edges.last(), active_only, focus) {
            rest.push(edges.last())
        } else {
            rest
        }
    }
}

pub open spec fn pair_views(e: Seq<(String, String)>) -> Seq<(Seq<char>, Seq<char>)> {
    e.map_values(|p: (String, String)| (p.0@, p.1@))
}

/// The state shown beside a node: `done`, `running` while claimed,
/// `human:<gate>`, `dep-blocked`, `blocked`, `missing` context, or `ready`.
pub open spec fn node_state_spec(c: Card, ready: bool, now: i64) -> Seq<char> {
    if card_closed(c) {
        "done"@
    } else if claim_active(c, now) {
        "running"@
    } else if is_human_gate(human_value(c)) {
        "human:"@ + human_value(c)
    } else if !ready {
        "dep-blocked"@
    } else if c.blocked_reason is Some {
        "blocked"@
    } else if c.next_action is None || c.acceptance_criteria is None {
        "missing"@
    } else {
        "ready"@
    }
}

/// A node is shown `ready` only for a card that can be started and says
/// what to do and when it is done: open, unclaimed, waiting on no person and
/// no upstream card, unblocked, with both a next action and acceptance
/// criteria. Such a card that lacks either of the two is shown `missing`.
pub proof fn ready_nodes_say_what_to_do_and_when_done(c: Card, ready: bool, now: i64)
    ensures
        node_state_spec(c, ready, now) == "ready"@ ==> {
            &&& c.next_action is Some
            &&& c.acceptance_criteria is Some
            &&& !card_closed(c)
            &&& !claim_active(c, now)
            &&& !is_human_gate(human_value(c))
            &&& ready
            &&& c.blocked_reason is None
        },
        !card_closed(c) && !claim_active(c, now) && !is_human_gate(human_value(c)) && ready
            && c.blocked_reason is None && (c.next_action is None || c.acceptance_criteria is None)
            ==> node_state_spec(c, ready, now) == "missing"@,
{
    reveal_strlit("ready");
    reveal_strlit("done");
    reveal_strlit("running");
    reveal_strlit("human:");
    reveal_strlit("dep-blocked");
    reveal_strlit("blocked");
    reveal_strlit("missing");
    if node_state_spec(c, ready, now) == "ready"@ {
        if is_human_gate(human_value(c)) && !card_closed(c) && !claim_active(c, now) {
            assert(("human:"@ + human_value(c)).len() >= 6);
        }
        assert("done"@ != "ready"@) by {
            assert("done"@[0] != "ready"@[0]);
        }
        assert("running"@ != "ready"@) by {
            assert("running"@.len() != "ready"@.len());
        }
        assert("dep-blocked"@ != "ready"@) by {
            assert("dep-blocked"@.len() != "ready"@.len());
        }
        assert("blocked"@ != "ready"@) by {
            assert("blocked"@.len() != "ready"@.len());
        }
        assert("missing"@ != "ready"@) by {
            assert("missing"@[0] != "ready"@[0]);
        }
    }
}

/// Which cards a node state is shown for, state by state: `done` exactly for
/// closed cards; `running` for open cards under an active claim; a human
/// gate's state for open, unclaimed cards waiting on a person; `dep-blocked`
/// for such cards waiting on no person but on an upstream card; `blocked`
/// for those that are ready but carry a blocked reason.
pub proof fn node_states_by_card(c: Card, ready: bool, now: i64)
    ensures
        node_state_spec(c, ready, now) == "done"@ <==> card_closed(c),
        node_state_spec(c, ready, now) == "running"@ <==> !card_closed(c) && claim_active(c, now),
        node_state_spec(c, ready, now) == "human:"@ + human_value(c) <==> !card_closed(c)
            && !claim_active(c, now) && is_human_gate(human_value(c)),
        node_state_spec(c, ready, now) == "dep-blocked"@ <==> !card_closed(c) && !claim_active(c, now)
            && !is_human_gate(human_value(c)) && !ready,
        node_state_spec(c, ready, now) == "blocked"@ <==> !card_closed(c) && !claim_active(c, now)
            && !is_human_gate(human_value(c)) && ready && c.blocked_reason is Some,
{
    reveal_strlit("ready");
    reveal_strlit("done");
    reveal_strlit("running");
    reveal_strlit("human:");
    reveal_strlit("dep-blocked");
    reveal_strlit("blocked");
    reveal_strlit("missing");
    reveal_strlit("review");
    reveal_strlit("decision");
    reveal_strlit("execution");
    let h = "human:"@ + human_value(c);
    assert(h[0] == 'h');
    let names = seq!["done"@, "running"@, "dep-blocked"@, "blocked"@, "missing"@, "ready"@];
    assert forall|i: int, j: int| 0 <= i < j < names.len() implies names[i] != names[j] by {
        if names[i] == names[j] {
            assert(names[i].len() == names[j].len());
            assert(names[i][0] == names[j][0]);
        }
    }
    assert forall|i: int| 0 <= i < names.len() implies names[i] != h by {
        if names[i] == h {
            assert(names[i][0] == h[0]);
        }
    }
    assert(names[0] == "done"@);
    assert(names[1] == "running"@);
    assert(names[2] == "dep-blocked"@);
    assert(names[3] == "blocked"@);
    assert(names[4] == "missing"@);
    assert(names[5] == "ready"@);
}

/// The state recorded for `key`: the first entry with that key. The states
/// are built with one entry per key, so this is the map lookup.
pub open spec fn state_of(states: Seq<(String, String)>, key: Seq<char>) -> Option<Seq<char>>
    decreases states.len(),
{
    if states.len() == 0 {
        None
    } else if states[0].0@ == key {
        Some(states[0].1@)
    } else {
        state_of(states.drop_first(), key)
    }
}

/// No key occurs twice among the node states.
pub open spec fn state_keys_unique(states: Seq<(String, String)>) -> bool {
    forall|a: int, b: int| 0 <= a < b < states.len() ==> states[a].0@ != states[b].0@
}

/// Node states whose keys occur once are a map: looking a key up gives its
/// own entry's state.
pub proof fn node_states_are_a_map(states: Seq<(String, String)>, i: int)
    requires
        state_keys_unique(states),
        0 <= i < states.len(),
    ensures
        state_of(states, states[i].0@) == Some(states[i].1@),
    decreases i,
{
    if i > 0 {
        assert(states[0].0@ != states[i].0@);
        assert forall|a: int, b: int| 0 <= a < b < states.drop_first().len() implies states.drop_first()[a].0@
            != states.drop_first()[b].0@ by {
            assert(states.drop_first()[a] == states[a + 1]);
            assert(states.drop_first()[b] == states[b + 1]);
        }
        assert(states.drop_first()[i - 1] == states[i]);
        node_states_are_a_map(states.drop_first(), i - 1);
    }
}

/// A node as `key(state)`, or the bare key when no state is known.
pub open spec fn node_text(key: Seq<char>, states: Seq<(String, String)>) -> Seq<char> {
    match state_of(states, key) {
        Some(s) => key + "("@ + s + ")"@,
        None => key,
    }
}

/// The nodes of `keys` joined with `sep`.
pub open spec fn nodes_text(keys: Seq<String>, states: Seq<(String, String)>, sep: Seq<char>) -> Seq<
    char,
> {
    join_seq(Seq::new(keys.len(), |j: int| node_text(keys[j]@, states)), sep)
}

/// `stage N: nodes`, counting stages from one.
pub open spec fn stage_line_spec(
    idx: int,
    keys: Seq<String>,
    states: Seq<(String, String)>,
    sep: Seq<char>,
) -> Seq<char> {
    "stage "@ + int_decimal(idx + 1) + ": "@ + nodes_text(keys, states, sep)
}

/// `<prefix>node blocked_by: a, b`.
pub open spec fn blocked_line_spec(b: BlockedNode, states: Seq<(String, String)>, prefix: Seq<char>) -> Seq<
    char,
> {
    prefix + node_text(b.key@, states) + " blocked_by: "@ + nodes_text(b.blocked_by@, states, ", "@)
}

pub open spec fn stage_lines_spec(
    stages: Seq<Vec<String>>,
    states: Seq<(String, String)>,
    sep: Seq<char>,
) -> Seq<Seq<char>> {
    Seq::new(stages.len(), |i: int| stage_line_spec(i, stages[i]@, states, sep))
}

pub open spec fn blocked_lines_spec(
    blocked: Seq<BlockedNode>,
    states: Seq<(String, String)>,
    prefix: Seq<char>,
) -> Seq<Seq<char>> {
    Seq::new(blocked.len(), |i: int| blocked_line_spec(blocked[i], states, prefix))
}

pub open spec fn edge_lines_spec(edges: Seq<(Seq<char>, Seq<char>)>, prefix: Seq<char>) -> Seq<
    Seq<char>,
> {
    Seq::new(edges.len(), |i: int| prefix + edges[i].0 + " -> "@ + edges[i].1)
}

/// Lines joined with newlines, or `-` when there are none.
pub open spec fn block_text(lines: Seq<Seq<char>>) -> Seq<char> {
    if lines.len() == 0 {
        "-"@
    } else {
        join_seq(lines, "\n"@)
    }
}

/// The whole report.
pub open spec fn report_text(
    edges: Seq<(Seq<char>, Seq<char>)>,
    plan: StagePlan,
    states: Seq<(String, String)>,
) -> Seq<char> {
    "dependency_graph:\nedges:\n"@ + block_text(edge_lines_spec(edges, "- "@)) + "\nstages:\n"@
        + block_text(stage_lines_spec(plan.ready_stages@, states, ", "@))
        + "\ndependency_blocked:\n"@ + block_text(
        blocked_lines_spec(plan.dependency_blocked@, states, "- "@),
    )
}

/// The trimmed focus key, unless it is empty.
pub open spec fn focus_spec(focus: Option<Seq<char>>) -> Option<Seq<char>> {
    match focus {
        Some(f) => if trim(f).len() == 0 {
            None
        } else {
            Some(trim(f))
        },
        None => None,
    }
}

/// The index of the last card with `key`.
pub fn find_card_by_key(cards: &Vec<Card>, key: &str) -> (r: Option<usize>)
    ensures
        match r {
            Some(i) => i < cards.len() && card_for_key(cards@, key@) == Some(cards@[i as int]),
            None => card_for_key(cards@, key@) is None,
        },
{
    let mut i: usize = cards.len();
    assert(cards@.take(i as int) =~= cards@);
    while i > 0
        invariant
            i <= cards.len(),
            card_for_key(cards@, key@) == card_for_key(cards@.take(i as int), key@),
        decreases i,
    {
        assert(cards@.take(i as int).drop_last() =~= cards@.take(i - 1));
        assert(cards@.take(i as int).last() == cards@[i - 1]);
        if str_eq(cards[i - 1].key.as_str(), key) {
            return Some(i - 1);
        }
        i = i - 1;
    }
    None
}

/// The state of a dependency graph node for a card and its readiness at
/// `now`.
pub fn graph_node_state(card: &Card, readiness: &CardReadiness, now: i64) -> (r: String)
    ensures
        r@ == node_state_spec(*card, readiness.ready, now),
{
    if crate::card::is_closed(card) {
        return owned("done");
    }
    if crate::queue::claim_is_active_at(card, now) {
        return owned("running");
    }
    let human = crate::card::human_intervention_value(card);
    if str_eq(human.as_str(), "review") || str_eq(human.as_str(), "decision") || str_eq(
        human.as_str(),
        "execution",
    ) {
        return owned("human:").concat(human.as_str());
    }
    if !readiness.ready {
        owned("dep-blocked")
    } else if card.blocked_reason.is_some() {
        owned("blocked")
    } else if card.next_action.is_none() || card.acceptance_criteria.is_none() {
        owned("missing")
    } else {
        owned("ready")
    }
}

/// The edges to show: with `active_only`, only those whose two cards exist
/// and are open; with a focus, only those that touch it.
pub fn filter_dependency_graph_edges(
    dependencies: &Vec<(String, String)>,
    cards: &Vec<Card>,
    active_only: bool,
    focus: Option<&str>,
) -> (r: Vec<(String, String)>)
    ensures
        pair_views(r@) == kept_edges(
            pair_views(dependencies@),
            cards@,
            active_only,
            match focus {
                Some(f) => Some(f@),
                None => None,
            },
        ),
{
    let ghost fv = match focus {
        Some(f) => Some(f@),
        None => None,
    };
    let ghost all = pair_views(dependencies@);
    let mut out: Vec<(String, String)> = Vec::new();
    let mut i: usize = 0;
    while i < dependencies.len()
        invariant
            i <= dependencies.len(),
            all == pair_views(dependencies@),
            fv == match focus {
                Some(f) => Some(f@),
                None => None,
            },
            pair_views(out@) == kept_edges(all.take(i as int), cards@, active_only, fv),
        decreases dependencies.len() - i,
    {
        let up = &dependencies[i].0;
        let down = &dependencies[i].1;
        proof {
            assert(all.take(i + 1).drop_last() =~= all.take(i as int));
            assert(all.take(i + 1).last() == (up@, down@));
        }
        let mut keep = true;
        if active_only {
            match (find_card_by_key(cards, up.as_str()), find_card_by_key(cards, down.as_str())) {
                (Some(u), Some(d)) => {
                    if crate::card::is_closed(&cards[u]) || crate::card::is_closed(&cards[d]) {
                        keep = false;
                    }
                },
                _ => {
                    keep = false;
                },
            }
        }
        if keep {
            match focus {
                Some(f) => {
                    keep = str_eq(up.as_str(), f) || str_eq(down.as_str(), f);
                },
                None => {},
            }
        }
        assert(keep == keep_edge(cards@, (up@, down@), active_only, fv));
        if keep {
            let ghost before = pair_views(out@);
            out.push((up.clone(), down.clone()));
            assert(pair_views(out@) =~= before.push((up@, down@)));
        }
        i = i + 1;
    }
    assert(all.take(dependencies.len() as int) =~= all);
    out
}

/// The state recorded for `key`, if any.
pub fn find_state<'a>(states: &'a Vec<(String, String)>, key: &str) -> (r: Option<&'a String>)
    ensures
        match r {
            Some(s) => state_of(states@, key@) == Some(s@),
            None => state_of(states@, key@) is None,
        },
{
    let mut i: usize = 0;
    assert(states@.subrange(0, states@.len() as int) =~= states@);
    while i < states.len()
        invariant
            i <= states.len(),
            state_of(states@, key@) == state_of(states@.subrange(i as int, states@.len() as int), key@),
        decreases states.len() - i,
    {
        let ghost rest = states@.subrange(i as int, states@.len() as int);
        assert(rest[0] == states@[i as int]);
        assert(rest.drop_first() =~= states@.subrange(i + 1, states@.len() as int));
        if str_eq(states[i].0.as_str(), key) {
            return Some(&states[i].1);
        }
        i = i + 1;
    }
    None
}

/// A node as `key(state)`, or the bare key when its state is unknown.
pub fn graph_node(key: &str, states: &Vec<(String, String)>) -> (r: String)
    ensures
        r@ == node_text(key@, states@),
{
    match find_state(states, key) {
        Some(state) => owned(key).concat("(").concat(state.as_str()).concat(")"),
        None => owned(key),
    }
}

/// The nodes of `keys`, each with its state, joined with `sep`.
pub fn nodes_joined(keys: &Vec<String>, states: &Vec<(String, String)>, sep: &str) -> (r: String)
    ensures
        r@ == nodes_text(keys@, states@, sep@),
{
    let ghost want = Seq::new(keys@.len(), |j: int| node_text(keys@[j]@, states@));
    let mut parts: Vec<String> = Vec::new();
    let mut i: usize = 0;
    while i < keys.len()
        invariant
            i <= keys.len(),
            want == Seq::new(keys@.len(), |j: int| node_text(keys@[j]@, states@)),
            views(parts@) == want.take(i as int),
        decreases keys.len() - i,
    {
        let node = graph_node(keys[i].as_str(), states);
        let ghost before = views(parts@);
        parts.push(node);
        assert(views(parts@) =~= before.push(node@));
        assert(want.take(i + 1) =~= want.take(i as int).push(node@));
        i = i + 1;
    }
    assert(want.take(keys.len() as int) =~= want);
    join(&parts, sep)
}

/// `stage N: nodes` for the stage at `idx`, counting from one.
pub fn stage_line(idx: usize, keys: &Vec<String>, states: &Vec<(String, String)>, sep: &str) -> (r:
    String)
    requires
        idx < usize::MAX,
    ensures
        r@ == stage_line_spec(idx as int, keys@, states@, sep@),
{
    owned("stage ").concat(crate::text::usize_to_string(idx + 1).as_str()).concat(": ").concat(
        nodes_joined(keys, states, sep).as_str(),
    )
}

/// `<prefix>node blocked_by: a, b` for a card that waits on others.
pub fn blocked_line(b: &BlockedNode, states: &Vec<(String, String)>, prefix: &str) -> (r: String)
    ensures
        r@ == blocked_line_spec(*b, states@, prefix@),
{
    owned(prefix).concat(graph_node(b.key.as_str(), states).as_str()).concat(" blocked_by: ").concat(
        nodes_joined(&b.blocked_by, states, ", ").as_str(),
    )
}

/// One line per ready stage.
pub fn stage_lines(stages: &Vec<Vec<String>>, states: &Vec<(String, String)>, sep: &str) -> (r: Vec<
    String,
>)
    ensures
        views(r@) == stage_lines_spec(stages@, states@, sep@),
{
    let ghost want = stage_lines_spec(stages@, states@, sep@);
    let mut out: Vec<String> = Vec::new();
    let mut i: usize = 0;
    while i < stages.len()
        invariant
            i <= stages.len(),
            want == stage_lines_spec(stages@, states@, sep@),
            views(out@) == want.take(i as int),
        decreases stages.len() - i,
    {
        let line = stage_line(i, &stages[i], states, sep);
        let ghost before = views(out@);
        out.push(line);
        assert(views(out@) =~= before.push(line@));
        assert(want.take(i + 1) =~= want.take(i as int).push(line@));
        i = i + 1;
    }
    assert(want.take(stages.len() as int) =~= want);
    out
}

/// One line per card that waits on upstream cards.
pub fn blocked_lines(blocked: &Vec<BlockedNode>, states: &Vec<(String, String)>, prefix: &str) -> (r:
    Vec<String>)
    ensures
        views(r@) == blocked_lines_spec(blocked@, states@, prefix@),
{
    let ghost want = blocked_lines_spec(blocked@, states@, prefix@);
    let mut out: Vec<String> = Vec::new();
    let mut i: usize = 0;
    while i < blocked.len()
        invariant
            i <= blocked.len(),
            want == blocked_lines_spec(blocked@, states@, prefix@),
            views(out@) == want.take(i as int),
        decreases blocked.len() - i,
    {
        let line = blocked_line(&blocked[i], states, prefix);
        let ghost before = views(out@);
        out.push(line);
        assert(views(out@) =~= before.push(line@));
        assert(want.take(i + 1) =~= want.take(i as int).push(line@));
        i = i + 1;
    }
    assert(want.take(blocked.len() as int) =~= want);
    out
}

/// One `<prefix>up -> down` line per edge.
pub fn edge_lines(edges: &Vec<(String, String)>, prefix: &str) -> (r: Vec<String>)
    ensures
        views(r@) == edge_lines_spec(pair_views(edges@), prefix@),
{
    let ghost want = edge_lines_spec(pair_views(edges@), prefix@);
    let mut out: Vec<String> = Vec::new();
    let mut i: usize = 0;
    while i < edges.len()
        invariant
            i <= edges.len(),
            want == edge_lines_spec(pair_views(edges@), prefix@),
            views(out@) == want.take(i as int),
        decreases edges.len() - i,
    {
        let line = owned(prefix).concat(edges[i].0.as_str()).concat(" -> ").concat(
            edges[i].1.as_str(),
        );
        let ghost before = views(out@);
        out.push(line);
        assert(views(out@) =~= before.push(line@));
        assert(want.take(i + 1) =~= want.take(i as int).push(line@));
        i = i + 1;
    }
    assert(want.take(edges.len() as int) =~= want);
    out
}

fn block(lines: &Vec<String>) -> (r: String)
    ensures
        r@ == block_text(views(lines@)),
{
    if lines.len() == 0 {
        owned("-")
    } else {
        join(lines, "\n")
    }
}

/// The report for shown edges, the stage plan and the node states.
pub fn dependency_graph_report(
    edges: &Vec<(String, String)>,
    plan: &StagePlan,
    states: &Vec<(String, String)>,
) -> (r: String)
    ensures
        r@ == report_text(pair_views(edges@), *plan, states@),
{
    let e = block(&edge_lines(edges, "- "));
    let s = block(&stage_lines(&plan.ready_stages, states, ", "));
    let b = block(&blocked_lines(&plan.dependency_blocked, states, "- "));
    owned("dependency_graph:\nedges:\n").concat(e.as_str()).concat("\nstages:\n").concat(
        s.as_str(),
    ).concat("\ndependency_blocked:\n").concat(b.as_str())
}

/// The keys whose state the report shows: every staged key, then every
/// dependency-blocked key.
pub open spec fn node_keys_spec(plan: StagePlan) -> Seq<Seq<char>> {
    Seq::new(plan.ready_stages@.len(), |i: int| views(plan.ready_stages@[i]@)).flatten()
        + Seq::new(plan.dependency_blocked@.len(), |i: int| plan.dependency_blocked@[i].key@)
}

/// The state entry for each key whose card was found.
pub open spec fn states_spec(entries: Seq<(String, Option<(Card, CardReadiness)>)>, now: i64) -> Seq<
    (Seq<char>, Seq<char>),
>
    decreases entries.len(),
{
    if entries.len() == 0 {
        Seq::empty()
    } else {
        let rest = states_spec(entries.drop_last(), now);
        match entries.last().1 {
            Some(found) => rest.push(
                (entries.last().0@, node_state_spec(found.0, found.1.ready, now)),
            ),
            None => rest,
        }
    }
}

/// The outcome of a graph request: the report, or the refusal of an unknown
/// focus card.
pub open spec fn graph_result(
    cards: Seq<Card>,
    edges: Seq<(Seq<char>, Seq<char>)>,
    plan: StagePlan,
    states: Seq<(String, String)>,
    focus: Option<Seq<char>>,
    active_only: bool,
) -> Result<Seq<char>, Seq<char>> {
    match focus_spec(focus) {
        Some(f) if card_for_key(cards, f) is None => Err("no card '"@ + f + "'"@),
        _ => Ok(
            report_text(kept_edges(edges, cards, active_only, focus_spec(focus)), plan, states),
        ),
    }
}

/// Every key of the plan, in report order.
pub fn node_keys(plan: &StagePlan) -> (r: Vec<String>)
    ensures
        views(r@) == node_keys_spec(*plan),
{
    let ghost stages = Seq::new(
        plan.ready_stages@.len(),
        |i: int| views(plan.ready_stages@[i]@),
    );
    let mut out: Vec<String> = Vec::new();
    let mut i: usize = 0;
    while i < plan.ready_stages.len()
        invariant
            i <= plan.ready_stages.len(),
            stages == Seq::new(plan.ready_stages@.len(), |i: int| views(plan.ready_stages@[i]@)),
            views(out@) == stages.take(i as int).flatten(),
        decreases plan.ready_stages.len() - i,
    {
        let stage = &plan.ready_stages[i];
        let ghost base = views(out@);
        let mut j: usize = 0;
        while j < stage.len()
            invariant
                j <= stage.len(),
                views(out@) == base + views(stage@).take(j as int),
            decreases stage.len() - j,
        {
            let ghost before = views(out@);
            out.push(stage[j].clone());
            assert(views(out@) =~= before.push(stage@[j as int]@));
            assert(views(stage@).take(j + 1) =~= views(stage@).take(j as int).push(stage@[j as int]@));
            j = j + 1;
        }
        proof {
            assert(views(stage@).take(stage.len() as int) =~= views(stage@));
            assert(stages.take(i + 1) =~= stages.take(i as int).push(views(stage@)));
            stages.take(i as int).lemma_flatten_push(views(stage@));
        }
        i = i + 1;
    }
    assert(stages.take(plan.ready_stages.len() as int) =~= stages);
    let ghost head = views(out@);
    let ghost tail = Seq::new(plan.dependency_blocked@.len(), |i: int| plan.dependency_blocked@[i].key@);
    let mut k: usize = 0;
    while k < plan.dependency_blocked.len()
        invariant
            k <= plan.dependency_blocked.len(),
            tail == Seq::new(plan.dependency_blocked@.len(), |i: int| plan.dependency_blocked@[i].key@),
            views(out@) == head + tail.take(k as int),
        decreases plan.dependency_blocked.len() - k,
    {
        let ghost before = views(out@);
        out.push(plan.dependency_blocked[k].key.clone());
        assert(views(out@) =~= before.push(tail[k as int]));
        assert(tail.take(k + 1) =~= tail.take(k as int).push(tail[k as int]));
        k = k + 1;
    }
    assert(tail.take(plan.dependency_blocked.len() as int) =~= tail);
    out
}

/// The state of each key whose card was found, in the given order.
pub fn graph_node_states(entries: &Vec<(String, Option<(Card, CardReadiness)>)>, now: i64) -> (r: Vec<
    (String, String),
>)
    ensures
        pair_views(r@) == states_spec(entries@, now),
{
    let mut out: Vec<(String, String)> = Vec::new();
    let mut i: usize = 0;
    while i < entries.len()
        invariant
            i <= entries.len(),
            pair_views(out@) == states_spec(entries@.take(i as int), now),
        decreases entries.len() - i,
    {
        assert(entries@.take(i + 1).drop_last() =~= entries@.take(i as int));
        assert(entries@.take(i + 1).last() == entries@[i as int]);
        match &entries[i].1 {
            Some(found) => {
                let state = graph_node_state(&found.0, &found.1, now);
                let ghost before = pair_views(out@);
                out.push((entries[i].0.clone(), state));
                assert(pair_views(out@) =~= before.push((entries@[i as int].0@, state@)));
            },
            None => {},
        }
        i = i + 1;
    }
    assert(entries@.take(entries.len() as int) =~= entries@);
    out
}

/// The dependency graph report of a board: refuses a focus that names no
/// card, else shows the kept edges, the stages and the blocked cards.
pub fn dependency_graph(
    cards: &Vec<Card>,
    dependencies: &Vec<(String, String)>,
    plan: &StagePlan,
    states: &Vec<(String, String)>,
    focus: Option<&str>,
    active_only: Option<bool>,
) -> (r: Result<String, BadParam>)
    ensures
        match (r, graph_result(
            cards@,
            pair_views(dependencies@),
            *plan,
            states@,
            match focus {
                Some(f) => Some(f@),
                None => None,
            },
            match active_only {
                Some(b) => b,
                None => false,
            },
        )) {
            (Ok(text), Ok(want)) => text@ == want,
            (Err(e), Err(want)) => e.message@ == want,
            _ => false,
        },
{
    let focus_key: Option<&str> = match focus {
        Some(f) => {
            if crate::text::is_blank(f) {
                None
            } else {
                Some(str_trim(f))
            }
        },
        None => None,
    };
    let ghost fv = match focus {
        Some(f) => Some(f@),
        None => None,
    };
    let ghost kv = match focus_key {
        Some(k) => Some(k@),
        None => None,
    };
    assert(kv == focus_spec(fv));
    match focus_key {
        Some(key) => {
            if find_card_by_key(cards, key).is_none() {
                return Err(
                    BadParam { message: owned("no card '").concat(key).concat("'") },
                );
            }
        },
        None => {},
    }
    let active = match active_only {
        Some(b) => b,
        None => false,
    };
    let edges = filter_dependency_graph_edges(dependencies, cards, active, focus_key);
    assert(pair_views(edges@) == kept_edges(pair_views(dependencies@), cards@, active, focus_spec(fv)));
    Ok(dependency_graph_report(&edges, plan, states))
}

/// Every edge the report shows passes its filters: it touches the focus
/// when there is one, and with `active_only` both of its cards exist and
/// are open.
pub proof fn shown_edges_pass_the_filters(
    edges: Seq<(Seq<char>, Seq<char>)>,
    cards: Seq<Card>,
    active_only: bool,
    focus: Option<Seq<char>>,
)
    ensures
        forall|k: int|
            0 <= k < kept_edges(edges, cards, active_only, focus).len() ==> keep_edge(
                cards,
                #[trigger] kept_edges(edges, cards, active_only, focus)[k],
                active_only,
                focus,
            ),
    decreases edges.len(),
{
    if edges.len() > 0 {
        shown_edges_pass_the_filters(edges.drop_last(), cards, active_only, focus);
        let rest = kept_edges(edges.drop_last(), cards, active_only, focus);
        assert forall|k: int| 0 <= k < kept_edges(edges, cards, active_only, focus).len() implies keep_edge(
            cards,
            #[trigger] kept_edges(edges, cards, active_only, focus)[k],
            active_only,
            focus,
        ) by {
            if k < rest.len() {
                assert(kept_edges(edges, cards, active_only, focus)[k] == rest[k]);
            }
        }
    }
}

} // verus!

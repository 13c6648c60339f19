//! Card dependency graphs: cycle detection for imported plans, edge
//! filters, node states and the text rendering of a board's graph.
use vstd::prelude::*;
use vstd::string::*;
use crate::text::{str_eq, views};

verus! {

/// The views of a list of `(upstream, downstream)` edges.
pub open spec fn edge_views(e: Seq<(String, String)>) -> Seq<(Seq<char>, Seq<char>)> {
    e.map_values(|p: (String, String)| (p.0@, p.1@))
}

/// The `i`-th step of the walk `p` follows an edge.
pub open spec fn step_at(e: Seq<(Seq<char>, Seq<char>)>, p: Seq<Seq<char>>, i: int) -> bool {
    e.contains((p[i], p[i + 1]))
}

/// `x` is the downstream end of some edge.
pub open spec fn is_target(e: Seq<(Seq<char>, Seq<char>)>, x: Seq<char>) -> bool {
    exists|j: int| 0 <= j < e.len() && e[j].1 == x
}

/// A walk of at least one step along the edges.
pub open spec fn is_walk(e: Seq<(Seq<char>, Seq<char>)>, p: Seq<Seq<char>>) -> bool {
    &&& p.len() >= 2
    &&& forall|i: int| 0 <= i < p.len() - 1 ==> #[trigger] step_at(e, p, i)
}

/// `t` can be reached from `s` in one or more steps.
pub open spec fn reaches(e: Seq<(Seq<char>, Seq<char>)>, s: Seq<char>, t: Seq<char>) -> bool {
    exists|p: Seq<Seq<char>>| is_walk(e, p) && p[0] == s && p.last() == t
}

/// The graph has a cycle: some node can reach itself.
pub open spec fn has_cycle(e: Seq<(Seq<char>, Seq<char>)>) -> bool {
    exists|s: Seq<char>| reaches(e, s, s)
}

/// Whether the list holds the text.
pub fn vec_contains(v: &Vec<String>, s: &str) -> (r: bool)
    ensures
        r == views(v@).contains(s@),
{
    let mut i: usize = 0;
    while i < v.len()
        invariant
            i <= v.len(),
            forall|j: int| 0 <= j < i ==> v@[j]@ != s@,
        decreases v.len() - i,
    {
        if str_eq(v[i].as_str(), s) {
            assert(views(v@)[i as int] == s@);
            return true;
        }
        i = i + 1;
    }
    proof {
        if views(v@).contains(s@) {
            let j = choose|j: int| 0 <= j < views(v@).len() && views(v@)[j] == s@;
            assert(v@[j]@ == s@);
        }
    }
    false
}

proof fn lemma_walk_extend(e: Seq<(Seq<char>, Seq<char>)>, p: Seq<Seq<char>>, b: Seq<char>)
    requires
        is_walk(e, p),
        e.contains((p.last(), b)),
    ensures
        is_walk(e, p.push(b)),
        p.push(b)[0] == p[0],
        p.push(b).last() == b,
{
    let q = p.push(b);
    assert forall|i: int| 0 <= i < q.len() - 1 implies #[trigger] step_at(e, q, i) by {
        if i < p.len() - 1 {
            assert(step_at(e, p, i));
            assert(q[i] == p[i] && q[i + 1] == p[i + 1]);
        } else {
            assert(q[i] == p.last() && q[i + 1] == b);
        }
    }
}

/// A set of nodes that holds the successors of `s` and is closed under
/// steps holds every node reachable from `s`.
proof fn lemma_closed_holds_reachable(
    e: Seq<(Seq<char>, Seq<char>)>,
    s: Seq<char>,
    r: Seq<Seq<char>>,
    p: Seq<Seq<char>>,
)
    requires
        forall|j: int| 0 <= j < e.len() && e[j].0 == s ==> r.contains(#[trigger] e[j].1),
        forall|j: int| 0 <= j < e.len() && r.contains(e[j].0) ==> r.contains(#[trigger] e[j].1),
        is_walk(e, p),
        p[0] == s,
    ensures
        r.contains(p.last()),
    decreases p.len(),
{
    if p.len() == 2 {
        assert(step_at(e, p, 0));
        let j = choose|j: int| 0 <= j < e.len() && e[j] == (p[0], p[1]);
        assert(e[j].1 == p[1]);
    } else {
        let q = p.drop_last();
        assert forall|i: int| 0 <= i < q.len() - 1 implies #[trigger] step_at(e, q, i) by {
            assert(step_at(e, p, i));
        }
        lemma_closed_holds_reachable(e, s, r, q);
        let n = p.len() - 2;
        assert(step_at(e, p, n));
        let j = choose|j: int| 0 <= j < e.len() && e[j] == (p[n], p[n + 1]);
        assert(e[j].0 == q.last());
        assert(e[j].1 == p.last());
    }
}

proof fn lemma_reach_bounded(e: Seq<(Seq<char>, Seq<char>)>, r: Seq<Seq<char>>)
    requires
        r.no_duplicates(),
        forall|k: int| 0 <= k < r.len() ==> is_target(e, #[trigger] r[k]),
    ensures
        r.len() <= e.len(),
{
    broadcast use vstd::seq_lib::seq_to_set_is_finite;

    let d = e.map_values(|p: (Seq<char>, Seq<char>)| p.1);
    r.unique_seq_to_set();
    d.lemma_cardinality_of_set();
    assert forall|x: Seq<char>| r.to_set().contains(x) implies d.to_set().contains(x) by {
        let k = choose|k: int| 0 <= k < r.len() && r[k] == x;
        assert(is_target(e, r[k]));
        let j = choose|j: int| 0 <= j < e.len() && e[j].1 == r[k];
        assert(d[j] == x);
    }
    vstd::set_lib::lemma_len_subset(r.to_set(), d.to_set());
}

/// Whether `node` lies on a cycle: the nodes reachable from it are grown to
/// a fixpoint and then searched for `node` itself.
pub fn on_cycle(node: &str, edges: &Vec<(String, String)>) -> (r: bool)
    ensures
        r == reaches(edge_views(edges@), node@, node@),
{
    let ghost e = edge_views(edges@);
    let mut reach: Vec<String> = Vec::new();
    // The direct successors of `node`.
    let mut i: usize = 0;
    while i < edges.len()
        invariant
            e == edge_views(edges@),
            i <= edges.len(),
            views(reach@).no_duplicates(),
            forall|k: int| 0 <= k < reach.len() ==> reaches(e, node@, #[trigger] views(reach@)[k]),
            forall|k: int| 0 <= k < reach.len() ==> is_target(e, #[trigger] views(reach@)[k]),
            forall|j: int| 0 <= j < i && e[j].0 == node@ ==> views(reach@).contains(#[trigger] e[j].1),
        decreases edges.len() - i,
    {
        assert(e[i as int] == (edges@[i as int].0@, edges@[i as int].1@));
        if str_eq(edges[i].0.as_str(), node) && !vec_contains(&reach, edges[i].1.as_str()) {
            let ghost before = views(reach@);
            let b = edges[i].1.clone();
            reach.push(b);
            proof {
                assert(views(reach@) =~= before.push(e[i as int].1));
                let p = seq![node@, e[i as int].1];
                assert(e[i as int] == (p[0], p[1]));
                assert(e.contains((p[0], p[1])));
                assert(step_at(e, p, 0));
                assert(is_walk(e, p));
                assert(views(reach@)[before.len() as int] == e[i as int].1);
                assert forall|k: int| 0 <= k < reach.len() implies is_target(e, #[trigger] views(reach@)[k]) by {
                    if k < before.len() {
                        assert(views(reach@)[k] == before[k]);
                    } else {
                        assert(e[i as int].1 == views(reach@)[k]);
                    }
                }
                assert forall|k: int| 0 <= k < reach.len() implies reaches(
                    e,
                    node@,
                    #[trigger] views(reach@)[k],
                ) by {
                    if k < before.len() {
                        assert(views(reach@)[k] == before[k]);
                    } else {
                        assert(p[0] == node@ && p.last() == views(reach@)[k]);
                    }
                }
                assert forall|j: int| 0 <= j < i + 1 && e[j].0 == node@ implies views(
                    reach@,
                ).contains(#[trigger] e[j].1) by {
                    if j < i {
                        assert(before.contains(e[j].1));
                        let k = choose|k: int| 0 <= k < before.len() && before[k] == e[j].1;
                        assert(views(reach@)[k] == e[j].1);
                    } else {
                        assert(views(reach@)[before.len() as int] == e[j].1);
                    }
                }
            }
        }
        i = i + 1;
    }
    // Grow to a fixpoint: add every successor of a node already reached.
    let mut changed = true;
    while changed
        invariant
            e == edge_views(edges@),
            views(reach@).no_duplicates(),
            forall|k: int| 0 <= k < reach.len() ==> reaches(e, node@, #[trigger] views(reach@)[k]),
            forall|k: int| 0 <= k < reach.len() ==> is_target(e, #[trigger] views(reach@)[k]),
            forall|j: int| 0 <= j < e.len() && e[j].0 == node@ ==> views(reach@).contains(#[trigger] e[j].1),
            !changed ==> forall|j: int|
                0 <= j < e.len() && views(reach@).contains(e[j].0) ==> views(reach@).contains(
                    #[trigger] e[j].1,
                ),
        decreases 2 * (e.len() - reach.len()) + (if changed { 1int } else { 0int }),
    {
        proof {
            lemma_reach_bounded(e, views(reach@));
        }
        let ghost start_len = reach.len();
        changed = false;
        let mut i: usize = 0;
        while i < edges.len()
            invariant
                e == edge_views(edges@),
                i <= edges.len(),
                reach.len() >= start_len,
                changed ==> reach.len() > start_len,
                views(reach@).no_duplicates(),
                forall|k: int| 0 <= k < reach.len() ==> reaches(e, node@, #[trigger] views(reach@)[k]),
                forall|k: int| 0 <= k < reach.len() ==> is_target(e, #[trigger] views(reach@)[k]),
                forall|j: int| 0 <= j < e.len() && e[j].0 == node@ ==> views(reach@).contains(#[trigger] e[j].1),
                !changed ==> forall|j: int|
                    0 <= j < i && views(reach@).contains(e[j].0) ==> views(reach@).contains(
                        #[trigger] e[j].1,
                    ),
            decreases edges.len() - i,
        {
            assert(e[i as int] == (edges@[i as int].0@, edges@[i as int].1@));
            if vec_contains(&reach, edges[i].0.as_str()) && !vec_contains(&reach, edges[i].1.as_str()) {
                let ghost before = views(reach@);
                let b = edges[i].1.clone();
                reach.push(b);
                changed = true;
                proof {
                    assert(views(reach@) =~= before.push(e[i as int].1));
                    let a = e[i as int].0;
                    let k0 = choose|k: int| 0 <= k < before.len() && before[k] == a;
                    assert(reaches(e, node@, before[k0]));
                    let p = choose|p: Seq<Seq<char>>| is_walk(e, p) && p[0] == node@ && p.last() == a;
                    assert(e.contains((a, e[i as int].1)));
                    lemma_walk_extend(e, p, e[i as int].1);
                    assert forall|k: int| 0 <= k < reach.len() implies is_target(e, #[trigger] views(reach@)[k]) by {
                        if k < before.len() {
                            assert(views(reach@)[k] == before[k]);
                        } else {
                            assert(e[i as int].1 == views(reach@)[k]);
                        }
                    }
                    assert forall|k: int| 0 <= k < reach.len() implies reaches(
                        e,
                        node@,
                        #[trigger] views(reach@)[k],
                    ) by {
                        if k < before.len() {
                            assert(views(reach@)[k] == before[k]);
                        } else {
                            let q = p.push(e[i as int].1);
                            assert(q[0] == node@ && q.last() == views(reach@)[k]);
                        }
                    }
                    assert forall|j: int| 0 <= j < e.len() && e[j].0 == node@ implies views(
                        reach@,
                    ).contains(#[trigger] e[j].1) by {
                        assert(before.contains(e[j].1));
                        let k = choose|k: int| 0 <= k < before.len() && before[k] == e[j].1;
                        assert(views(reach@)[k] == e[j].1);
                    }
                }
            }
            i = i + 1;
        }
        proof {
            lemma_reach_bounded(e, views(reach@));
        }
    }
    let found = vec_contains(&reach, node);
    proof {
        if reaches(e, node@, node@) {
            let p = choose|p: Seq<Seq<char>>| is_walk(e, p) && p[0] == node@ && p.last() == node@;
            lemma_closed_holds_reachable(e, node@, views(reach@), p);
        }
        if found {
            let k = choose|k: int| 0 <= k < reach.len() && views(reach@)[k] == node@;
            assert(reaches(e, node@, views(reach@)[k]));
        }
    }
    found
}

/// Whether the dependency edges contain a cycle.
pub fn graph_has_cycle(edges: &Vec<(String, String)>) -> (r: bool)
    ensures
        r == has_cycle(edge_views(edges@)),
{
    let ghost e = edge_views(edges@);
    let mut i: usize = 0;
    while i < edges.len()
        invariant
            e == edge_views(edges@),
            i <= edges.len(),
            forall|j: int| 0 <= j < i ==> !reaches(e, #[trigger] e[j].0, e[j].0),
        decreases edges.len() - i,
    {
        assert(e[i as int].0 == edges@[i as int].0@);
        if on_cycle(edges[i].0.as_str(), edges) {
            return true;
        }
        i = i + 1;
    }
    proof {
        if has_cycle(e) {
            let s = choose|s: Seq<char>| reaches(e, s, s);
            let p = choose|p: Seq<Seq<char>>| is_walk(e, p) && p[0] == s && p.last() == s;
            assert(step_at(e, p, 0));
            let j = choose|j: int| 0 <= j < e.len() && e[j] == (p[0], p[1]);
            assert(e[j].0 == s);
        }
    }
    false
}

} // verus!

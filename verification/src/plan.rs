//! Checks on an ordered card plan before any card of it is created: every
//! item valid, aliases unique, dependencies known, and no cycle.
use vstd::prelude::*;
use vstd::string::*;
use crate::graph::{edge_views, graph_has_cycle, has_cycle, vec_contains};
use crate::queue::BadParam;
use crate::text::{blank, int_decimal, is_blank, owned, str_eq, usize_to_string, views};

verus! {

/// One card of a plan to import.
#[derive(Debug)]
pub struct CreateCardItem {
    /// A name, local to the plan, that other items can depend on.
    pub alias: Option<String>,
    pub title: String,
    pub body: Option<String>,
    pub column: Option<String>,
    pub next_action: Option<String>,
    pub acceptance_criteria: Option<String>,
    /// `Some(None)` clears the weight; `Some(Some(w))` sets it.
    pub agent_weight: Option<Option<i64>>,
    pub agent_effort: Option<String>,
    pub suggested_model: Option<String>,
    pub expected_tokens: Option<Option<i64>>,
    pub human_intervention: Option<String>,
    /// Aliases or existing card keys that this card depends on.
    pub depends_on: Option<Vec<String>>,
}

/// A gate that needs a person before an agent may go on.
#[derive(Clone, Copy, Debug, PartialEq, Eq, Structural)]
pub enum HumanIntervention {
    Review,
    Decision,
    Execution,
}

pub open spec fn human_error_text() -> Seq<char> {
    "human_intervention must be none, review, decision, or execution"@
}

/// `none` means no gate; review, decision and execution are gates.
pub open spec fn parse_human_spec(v: Seq<char>) -> Result<Option<HumanIntervention>, ()> {
    if v == "none"@ {
        Ok(None)
    } else if v == "review"@ {
        Ok(Some(HumanIntervention::Review))
    } else if v == "decision"@ {
        Ok(Some(HumanIntervention::Decision))
    } else if v == "execution"@ {
        Ok(Some(HumanIntervention::Execution))
    } else {
        Err(())
    }
}

pub open spec fn human_name(h: HumanIntervention) -> Seq<char> {
    match h {
        HumanIntervention::Review => "review"@,
        HumanIntervention::Decision => "decision"@,
        HumanIntervention::Execution => "execution"@,
    }
}

impl HumanIntervention {
    /// Reads a human intervention value.
    pub fn parse(value: &str) -> (r: Result<Option<HumanIntervention>, BadParam>)
        ensures
            match (r, parse_human_spec(value@)) {
                (Ok(h), Ok(hs)) => h == hs,
                (Err(e), Err(_)) => e.message@ == human_error_text(),
                _ => false,
            },
    {
        if str_eq(value, "none") {
            Ok(None)
        } else if str_eq(value, "review") {
            Ok(Some(HumanIntervention::Review))
        } else if str_eq(value, "decision") {
            Ok(Some(HumanIntervention::Decision))
        } else if str_eq(value, "execution") {
            Ok(Some(HumanIntervention::Execution))
        } else {
            Err(
                BadParam {
                    message: owned(
                        "human_intervention must be none, review, decision, or execution",
                    ),
                },
            )
        }
    }

    /// The value's name.
    pub fn as_str(self) -> (r: &'static str)
        ensures
            r@ == human_name(self),
    {
        match self {
            HumanIntervention::Review => "review",
            HumanIntervention::Decision => "decision",
            HumanIntervention::Execution => "execution",
        }
    }
}

pub open spec fn idx_text(idx: int) -> Seq<char> {
    int_decimal(idx)
}

/// The checks on one item, given the aliases of the items before it.
/// `Ok` carries the aliases including this item's.
pub open spec fn check_item_spec(
    idx: int,
    it: CreateCardItem,
    seen: Seq<Seq<char>>,
    columns: Seq<Seq<char>>,
    keys: Seq<Seq<char>>,
) -> Result<Seq<Seq<char>>, Seq<char>> {
    if blank(it.title@) {
        Err("cards["@ + idx_text(idx) + "].title must not be empty"@)
    } else if it.column is Some && !columns.contains(it.column->0@) {
        Err("no column named '"@ + it.column->0@ + "'"@)
    } else {
        let alias_check: Result<Seq<Seq<char>>, Seq<char>> = match it.alias {
            Some(a) => if blank(a@) {
                Err("cards["@ + idx_text(idx) + "].alias must not be empty"@)
            } else if seen.contains(a@) {
                Err("duplicate card alias '"@ + a@ + "'"@)
            } else if keys.contains(a@) {
                Err("cards["@ + idx_text(idx) + "].alias conflicts with existing card key '"@ + a@
                    + "'"@)
            } else {
                Ok(seen.push(a@))
            },
            None => Ok(seen),
        };
        match alias_check {
            Err(m) => Err(m),
            Ok(s2) => if it.agent_weight matches Some(Some(w)) && !(1 <= w && w <= 5) {
                Err("agent_weight must be between 1 and 5"@)
            } else if it.expected_tokens matches Some(Some(t)) && t <= 0 {
                Err("expected_tokens must be positive"@)
            } else if it.human_intervention matches Some(h) && parse_human_spec(h@) is Err {
                Err(human_error_text())
            } else {
                Ok(s2)
            },
        }
    }
}

/// Checks the items from position `i` on; `Ok` carries every alias.
pub open spec fn scan_items(
    items: Seq<CreateCardItem>,
    i: int,
    seen: Seq<Seq<char>>,
    columns: Seq<Seq<char>>,
    keys: Seq<Seq<char>>,
) -> Result<Seq<Seq<char>>, Seq<char>>
    decreases items.len() - i,
{
    if i < 0 || i >= items.len() {
        Ok(seen)
    } else {
        match check_item_spec(i, items[i], seen, columns, keys) {
            Err(m) => Err(m),
            Ok(s2) => scan_items(items, i + 1, s2, columns, keys),
        }
    }
}

/// The node that a planned card is known by in the dependency graph.
pub open spec fn planned_name_spec(idx: int, it: CreateCardItem) -> Seq<char> {
    match it.alias {
        Some(a) => a@,
        None => "$new:"@ + idx_text(idx),
    }
}

pub open spec fn deps_of(it: CreateCardItem) -> Seq<Seq<char>> {
    match it.depends_on {
        Some(d) => views(d@),
        None => Seq::empty(),
    }
}

/// The edges of one item's dependencies from position `j` on.
pub open spec fn dep_scan(
    idx: int,
    node: Seq<char>,
    deps: Seq<Seq<char>>,
    j: int,
    aliases: Seq<Seq<char>>,
    keys: Seq<Seq<char>>,
    acc: Seq<(Seq<char>, Seq<char>)>,
) -> Result<Seq<(Seq<char>, Seq<char>)>, Seq<char>>
    decreases deps.len() - j,
{
    if j < 0 || j >= deps.len() {
        Ok(acc)
    } else if aliases.contains(deps[j]) || keys.contains(deps[j]) {
        dep_scan(idx, node, deps, j + 1, aliases, keys, acc.push((deps[j], node)))
    } else {
        Err("cards["@ + idx_text(idx) + "].depends_on references unknown alias or key '"@
            + deps[j] + "'"@)
    }
}

/// The edges of the items' dependencies from position `i` on.
pub open spec fn edge_scan(
    items: Seq<CreateCardItem>,
    i: int,
    aliases: Seq<Seq<char>>,
    keys: Seq<Seq<char>>,
    acc: Seq<(Seq<char>, Seq<char>)>,
) -> Result<Seq<(Seq<char>, Seq<char>)>, Seq<char>>
    decreases items.len() - i,
{
    if i < 0 || i >= items.len() {
        Ok(acc)
    } else {
        match dep_scan(
            i,
            planned_name_spec(i, items[i]),
            deps_of(items[i]),
            0,
            aliases,
            keys,
            acc,
        ) {
            Err(m) => Err(m),
            Ok(a2) => edge_scan(items, i + 1, aliases, keys, a2),
        }
    }
}

pub open spec fn cycle_error_text() -> Seq<char> {
    "card dependency graph would contain a cycle"@
}

/// The verdict on a plan: the first failing check's message, else `Ok`.
/// `columns` are the board's column names, `keys` its card keys, and
/// `existing` its dependency edges.
pub open spec fn preflight_spec(
    columns: Seq<Seq<char>>,
    keys: Seq<Seq<char>>,
    existing: Seq<(Seq<char>, Seq<char>)>,
    items: Seq<CreateCardItem>,
) -> Result<(), Seq<char>> {
    match scan_items(items, 0, Seq::empty(), columns, keys) {
        Err(m) => Err(m),
        Ok(aliases) => match edge_scan(items, 0, aliases, keys, existing) {
            Err(m) => Err(m),
            Ok(all) => if has_cycle(all) {
                Err(cycle_error_text())
            } else {
                Ok(())
            },
        },
    }
}

fn bad(m: String) -> (e: BadParam)
    ensures
        e.message@ == m@,
{
    BadParam { message: m }
}

/// `cards[idx]` followed by `rest`.
fn item_message(idx: usize, rest: &str) -> (m: String)
    ensures
        m@ == "cards["@ + idx_text(idx as int) + rest@,
{
    owned("cards[").concat(usize_to_string(idx).as_str()).concat(rest)
}

/// The node name of a planned card: its alias, or `$new:<index>`.
pub fn planned_node_name(idx: usize, item: &CreateCardItem) -> (r: String)
    ensures
        r@ == planned_name_spec(idx as int, *item),
{
    match &item.alias {
        Some(a) => a.clone(),
        None => owned("$new:").concat(usize_to_string(idx).as_str()),
    }
}

fn check_item(
    idx: usize,
    item: &CreateCardItem,
    aliases: &mut Vec<String>,
    column_names: &Vec<String>,
    existing_keys: &Vec<String>,
) -> (r: Result<(), BadParam>)
    ensures
        match (r, check_item_spec(idx as int, *item, views(old(aliases)@), views(column_names@), views(existing_keys@))) {
            (Ok(_), Ok(s2)) => views(final(aliases)@) == s2,
            (Err(e), Err(m)) => e.message@ == m,
            _ => false,
        },
{
    if is_blank(item.title.as_str()) {
        return Err(bad(item_message(idx, "].title must not be empty")));
    }
    if let Some(column) = &item.column {
        if !vec_contains(column_names, column.as_str()) {
            return Err(bad(owned("no column named '").concat(column.as_str()).concat("'")));
        }
    }
    if let Some(alias) = &item.alias {
        if is_blank(alias.as_str()) {
            return Err(bad(item_message(idx, "].alias must not be empty")));
        }
        if vec_contains(aliases, alias.as_str()) {
            return Err(bad(owned("duplicate card alias '").concat(alias.as_str()).concat("'")));
        }
        if vec_contains(existing_keys, alias.as_str()) {
            return Err(
                bad(
                    item_message(idx, "].alias conflicts with existing card key '").concat(
                        alias.as_str(),
                    ).concat("'"),
                ),
            );
        }
        let ghost before = views(aliases@);
        aliases.push(alias.clone());
        assert(views(aliases@) =~= before.push(alias@));
    }
    if let Some(Some(weight)) = item.agent_weight {
        if !(1 <= weight && weight <= 5) {
            return Err(bad(owned("agent_weight must be between 1 and 5")));
        }
    }
    if let Some(Some(tokens)) = item.expected_tokens {
        if tokens <= 0 {
            return Err(bad(owned("expected_tokens must be positive")));
        }
    }
    if let Some(human) = &item.human_intervention {
        match HumanIntervention::parse(human.as_str()) {
            Ok(_) => {},
            Err(e) => return Err(e),
        }
    }
    Ok(())
}

/// Checks a plan before any of its cards is created.
pub fn preflight_create_cards(
    column_names: &Vec<String>,
    existing_keys: &Vec<String>,
    existing_edges: &Vec<(String, String)>,
    cards: &Vec<CreateCardItem>,
) -> (r: Result<(), BadParam>)
    ensures
        match (r, preflight_spec(views(column_names@), views(existing_keys@), edge_views(existing_edges@), cards@)) {
            (Ok(_), Ok(_)) => true,
            (Err(e), Err(m)) => e.message@ == m,
            _ => false,
        },
{
    let ghost cols = views(column_names@);
    let ghost keys = views(existing_keys@);
    let mut aliases: Vec<String> = Vec::new();
    assert(views(aliases@) =~= Seq::<Seq<char>>::empty());
    let mut idx: usize = 0;
    while idx < cards.len()
        invariant
            cols == views(column_names@),
            keys == views(existing_keys@),
            idx <= cards.len(),
            scan_items(cards@, 0, Seq::empty(), cols, keys) == scan_items(
                cards@,
                idx as int,
                views(aliases@),
                cols,
                keys,
            ),
        decreases cards.len() - idx,
    {
        let ghost seen = views(aliases@);
        match check_item(idx, &cards[idx], &mut aliases, column_names, existing_keys) {
            Err(e) => {
                return Err(e);
            },
            Ok(()) => {},
        }
        idx = idx + 1;
    }
    let ghost all_aliases = views(aliases@);
    let mut edges: Vec<(String, String)> = Vec::new();
    let mut k: usize = 0;
    while k < existing_edges.len()
        invariant
            k <= existing_edges.len(),
            edge_views(edges@) == edge_views(existing_edges@).take(k as int),
        decreases existing_edges.len() - k,
    {
        let ghost before = edge_views(edges@);
        edges.push((existing_edges[k].0.clone(), existing_edges[k].1.clone()));
        assert(edge_views(existing_edges@)[k as int] == (existing_edges@[k as int].0@, existing_edges@[k as int].1@));
        assert(edge_views(edges@) =~= before.push(edge_views(existing_edges@)[k as int]));
        assert(edge_views(edges@) =~= edge_views(existing_edges@).take(k + 1));
        k = k + 1;
    }
    assert(edge_views(existing_edges@).take(existing_edges.len() as int) =~= edge_views(
        existing_edges@,
    ));
    let mut i: usize = 0;
    while i < cards.len()
        invariant
            cols == views(column_names@),
            keys == views(existing_keys@),
            all_aliases == views(aliases@),
            scan_items(cards@, 0, Seq::empty(), cols, keys) == Ok::<Seq<Seq<char>>, Seq<char>>(all_aliases),
            i <= cards.len(),
            edge_scan(cards@, 0, all_aliases, keys, edge_views(existing_edges@)) == edge_scan(
                cards@,
                i as int,
                all_aliases,
                keys,
                edge_views(edges@),
            ),
        decreases cards.len() - i,
    {
        let item = &cards[i];
        let downstream = planned_node_name(i, item);
        let ghost node = downstream@;
        let ghost start = edge_views(edges@);
        if let Some(deps) = &item.depends_on {
            let mut j: usize = 0;
            while j < deps.len()
                invariant
                    keys == views(existing_keys@),
                    all_aliases == views(aliases@),
                    cols == views(column_names@),
                    scan_items(cards@, 0, Seq::empty(), cols, keys) == Ok::<Seq<Seq<char>>, Seq<char>>(all_aliases),
                    i < cards.len(),
                    node == downstream@,
                    node == planned_name_spec(i as int, cards@[i as int]),
                    views(deps@) == deps_of(cards@[i as int]),
                    edge_scan(cards@, 0, all_aliases, keys, edge_views(existing_edges@)) == edge_scan(
                        cards@,
                        i as int,
                        all_aliases,
                        keys,
                        start,
                    ),
                    j <= deps.len(),
                    dep_scan(i as int, node, views(deps@), 0, all_aliases, keys, start) == dep_scan(
                        i as int,
                        node,
                        views(deps@),
                        j as int,
                        all_aliases,
                        keys,
                        edge_views(edges@),
                    ),
                decreases deps.len() - j,
            {
                let dep = deps[j].as_str();
                if !(vec_contains(&aliases, dep) || vec_contains(existing_keys, dep)) {
                    return Err(
                        bad(
                            item_message(
                                i,
                                "].depends_on references unknown alias or key '",
                            ).concat(dep).concat("'"),
                        ),
                    );
                }
                let ghost before = edge_views(edges@);
                edges.push((deps[j].clone(), downstream.clone()));
                assert(edge_views(edges@) =~= before.push((dep@, node)));
                j = j + 1;
            }
        } else {
            assert(deps_of(*item) =~= Seq::<Seq<char>>::empty());
        }
        i = i + 1;
    }
    if graph_has_cycle(&edges) {
        return Err(bad(owned("card dependency graph would contain a cycle")));
    }
    Ok(())
}

/// An accepted plan keeps the board's dependency graph free of cycles, and
/// every dependency it adds names an alias of the plan or a card key of the
/// board.
pub proof fn accepted_plans_are_acyclic(
    columns: Seq<Seq<char>>,
    keys: Seq<Seq<char>>,
    existing: Seq<(Seq<char>, Seq<char>)>,
    items: Seq<CreateCardItem>,
)
    requires
        preflight_spec(columns, keys, existing, items) is Ok,
    ensures
        scan_items(items, 0, Seq::empty(), columns, keys) matches Ok(aliases) && edge_scan(
            items,
            0,
            aliases,
            keys,
            existing,
        ) matches Ok(all) && !has_cycle(all),
{
}

/// Checking the items from `i` on succeeds only when their aliases differ
/// from each other and from the aliases seen before.
proof fn lemma_scan_aliases_distinct(
    items: Seq<CreateCardItem>,
    i: int,
    seen: Seq<Seq<char>>,
    columns: Seq<Seq<char>>,
    keys: Seq<Seq<char>>,
)
    requires
        0 <= i,
        scan_items(items, i, seen, columns, keys) is Ok,
    ensures
        forall|k: int|
            i <= k < items.len() && (#[trigger] items[k]).alias is Some ==> !seen.contains(
                items[k].alias->0@,
            ),
        forall|k: int, l: int|
            i <= k < l < items.len() && (#[trigger] items[k]).alias is Some && (#[trigger] items[
                l
            ]).alias is Some ==> items[k].alias->0@ != items[l].alias->0@,
    decreases items.len() - i,
{
    if i < items.len() {
        let it = items[i];
        let s2 = check_item_spec(i, it, seen, columns, keys)->Ok_0;
        match it.alias {
            Some(a) => {
                assert(!seen.contains(a@));
                assert(s2 == seen.push(a@));
            },
            None => {
                assert(s2 == seen);
            },
        }
        lemma_scan_aliases_distinct(items, i + 1, s2, columns, keys);
        assert forall|k: int|
            i <= k < items.len() && (#[trigger] items[k]).alias is Some implies !seen.contains(
                items[k].alias->0@,
            ) by {
            if k > i {
                if seen.contains(items[k].alias->0@) {
                    let x = choose|x: int| 0 <= x < seen.len() && seen[x] == items[k].alias->0@;
                    if it.alias is Some {
                        assert(s2[x] == seen[x]);
                    }
                    assert(s2.contains(items[k].alias->0@));
                }
            }
        }
        assert forall|k: int, l: int|
            i <= k < l < items.len() && (#[trigger] items[k]).alias is Some && (#[trigger] items[
                l
            ]).alias is Some implies items[k].alias->0@ != items[l].alias->0@ by {
            if k == i {
                let a = it.alias->0@;
                assert(s2 == seen.push(a));
                assert(s2[seen.len() as int] == a);
                assert(!s2.contains(items[l].alias->0@));
            }
        }
    }
}

/// An accepted plan names no alias twice: any two items that both carry an
/// alias carry different ones.
pub proof fn accepted_plans_have_distinct_aliases(
    columns: Seq<Seq<char>>,
    keys: Seq<Seq<char>>,
    existing: Seq<(Seq<char>, Seq<char>)>,
    items: Seq<CreateCardItem>,
    k: int,
    l: int,
)
    requires
        preflight_spec(columns, keys, existing, items) is Ok,
        0 <= k < l < items.len(),
        items[k].alias is Some,
        items[l].alias is Some,
    ensures
        items[k].alias->0@ != items[l].alias->0@,
{
    lemma_scan_aliases_distinct(items, 0, Seq::empty(), columns, keys);
}

/// What every item of an accepted plan satisfies on its own: a title that is
/// not blank, a column of the board if it names one, an alias that is not
/// blank and is no card key of the board, a weight from 1 to 5, positive
/// expected tokens and a known human intervention value.
pub open spec fn item_acceptable(
    it: CreateCardItem,
    columns: Seq<Seq<char>>,
    keys: Seq<Seq<char>>,
) -> bool {
    &&& !blank(it.title@)
    &&& (it.column matches Some(c) ==> columns.contains(c@))
    &&& (it.alias matches Some(a) ==> !blank(a@) && !keys.contains(a@))
    &&& (it.agent_weight matches Some(Some(w)) ==> 1 <= w && w <= 5)
    &&& (it.expected_tokens matches Some(Some(t)) ==> t > 0)
    &&& (it.human_intervention matches Some(h) ==> parse_human_spec(h@) is Ok)
}

proof fn lemma_scan_items_acceptable(
    items: Seq<CreateCardItem>,
    i: int,
    seen: Seq<Seq<char>>,
    columns: Seq<Seq<char>>,
    keys: Seq<Seq<char>>,
)
    requires
        0 <= i,
        scan_items(items, i, seen, columns, keys) is Ok,
    ensures
        forall|k: int| i <= k < items.len() ==> item_acceptable(#[trigger] items[k], columns, keys),
    decreases items.len() - i,
{
    if i < items.len() {
        let s2 = check_item_spec(i, items[i], seen, columns, keys)->Ok_0;
        lemma_scan_items_acceptable(items, i + 1, s2, columns, keys);
    }
}

proof fn lemma_scan_aliases_come_from_items(
    items: Seq<CreateCardItem>,
    i: int,
    seen: Seq<Seq<char>>,
    columns: Seq<Seq<char>>,
    keys: Seq<Seq<char>>,
)
    requires
        0 <= i,
        scan_items(items, i, seen, columns, keys) is Ok,
    ensures
        forall|x: Seq<char>|
            #![trigger scan_items(items, i, seen, columns, keys)->Ok_0.contains(x)]
            scan_items(items, i, seen, columns, keys)->Ok_0.contains(x) ==> seen.contains(x) || exists|l: int|
                i <= l < items.len() && (#[trigger] items[l]).alias is Some && items[l].alias->0@ == x,
    decreases items.len() - i,
{
    if i < items.len() {
        let it = items[i];
        let s2 = check_item_spec(i, it, seen, columns, keys)->Ok_0;
        lemma_scan_aliases_come_from_items(items, i + 1, s2, columns, keys);
        assert forall|x: Seq<char>|
            scan_items(items, i, seen, columns, keys)->Ok_0.contains(x) implies seen.contains(x)
                || exists|l: int|
                i <= l < items.len() && (#[trigger] items[l]).alias is Some && items[l].alias->0@
                    == x by {
            assert(scan_items(items, i, seen, columns, keys) == scan_items(items, i + 1, s2, columns, keys));
            if s2.contains(x) && !seen.contains(x) {
                match it.alias {
                    Some(a) => {
                        assert(s2 == seen.push(a@));
                        let y = choose|y: int| 0 <= y < s2.len() && s2[y] == x;
                        if y < seen.len() {
                            assert(seen[y] == x);
                        }
                        assert(items[i].alias->0@ == x);
                    },
                    None => {
                        assert(s2 == seen);
                    },
                }
            }
        }
    }
}

proof fn lemma_dep_scan_known(
    idx: int,
    node: Seq<char>,
    deps: Seq<Seq<char>>,
    j: int,
    aliases: Seq<Seq<char>>,
    keys: Seq<Seq<char>>,
    acc: Seq<(Seq<char>, Seq<char>)>,
)
    requires
        0 <= j,
        dep_scan(idx, node, deps, j, aliases, keys, acc) is Ok,
    ensures
        forall|m: int| j <= m < deps.len() ==> aliases.contains(#[trigger] deps[m]) || keys.contains(deps[m]),
    decreases deps.len() - j,
{
    if j < deps.len() {
        lemma_dep_scan_known(idx, node, deps, j + 1, aliases, keys, acc.push((deps[j], node)));
    }
}

proof fn lemma_edge_scan_known(
    items: Seq<CreateCardItem>,
    i: int,
    aliases: Seq<Seq<char>>,
    keys: Seq<Seq<char>>,
    acc: Seq<(Seq<char>, Seq<char>)>,
)
    requires
        0 <= i,
        edge_scan(items, i, aliases, keys, acc) is Ok,
    ensures
        forall|k: int, m: int|
            i <= k < items.len() && 0 <= m < deps_of(items[k]).len() ==> aliases.contains(
                #[trigger] deps_of(#[trigger] items[k])[m],
            ) || keys.contains(deps_of(items[k])[m]),
    decreases items.len() - i,
{
    if i < items.len() {
        let r = dep_scan(i, planned_name_spec(i, items[i]), deps_of(items[i]), 0, aliases, keys, acc);
        lemma_dep_scan_known(i, planned_name_spec(i, items[i]), deps_of(items[i]), 0, aliases, keys, acc);
        lemma_edge_scan_known(items, i + 1, aliases, keys, r->Ok_0);
    }
}

/// Every item of an accepted plan passes each check on its own (see
/// `item_acceptable`), and each dependency it names is an alias of some item
/// of the plan or a card key of the board.
pub proof fn accepted_plans_hold_only_valid_items(
    columns: Seq<Seq<char>>,
    keys: Seq<Seq<char>>,
    existing: Seq<(Seq<char>, Seq<char>)>,
    items: Seq<CreateCardItem>,
    k: int,
)
    requires
        preflight_spec(columns, keys, existing, items) is Ok,
        0 <= k < items.len(),
    ensures
        item_acceptable(items[k], columns, keys),
        forall|m: int|
            0 <= m < deps_of(items[k]).len() ==> keys.contains(#[trigger] deps_of(items[k])[m])
                || exists|l: int|
                0 <= l < items.len() && (#[trigger] items[l]).alias is Some && items[l].alias->0@
                    == deps_of(items[k])[m],
{
    let e = Seq::<Seq<char>>::empty();
    lemma_scan_items_acceptable(items, 0, e, columns, keys);
    lemma_scan_aliases_come_from_items(items, 0, e, columns, keys);
    let aliases = scan_items(items, 0, e, columns, keys)->Ok_0;
    lemma_edge_scan_known(items, 0, aliases, keys, existing);
    assert forall|m: int| 0 <= m < deps_of(items[k]).len() implies keys.contains(
        #[trigger] deps_of(items[k])[m],
    ) || exists|l: int|
        0 <= l < items.len() && (#[trigger] items[l]).alias is Some && items[l].alias->0@
            == deps_of(items[k])[m] by {
        let d = deps_of(items[k])[m];
        if !keys.contains(d) {
            assert(aliases.contains(d));
            assert(!e.contains(d));
        }
    }
}

} // verus!

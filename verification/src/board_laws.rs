//! Properties of the board application that hold across its operations.
use vstd::prelude::*;
use crate::board_app::{
    App, column_indices, first_key_pos, key_location, same_but_cursors, selected_index,
};
use crate::board_jump::{
    first_after, gate_cands, gate_cands_in, gate_of, human_jump_ok, jump_target, landed_on,
    lemma_first_after_bound,
};
use crate::board_nav::reloaded_cursors;
use crate::board_app::{shown_in, shown_prefix};
use crate::board_state::restored;
use crate::card::Card;
use crate::text::int_decimal;

verus! {

pub proof fn lemma_first_key_pos_found(cards: Seq<crate::card::Card>, idx: Seq<usize>, key: Seq<char>)
    ensures
        first_key_pos(cards, idx, key) matches Some(p) ==> 0 <= p < idx.len() && cards[idx[p] as int].key@
            == key,
    decreases idx.len(),
{
    if idx.len() > 0 {
        lemma_first_key_pos_found(cards, idx.drop_last(), key);
        match first_key_pos(cards, idx.drop_last(), key) {
            Some(p) => {
                assert(idx.drop_last()[p] == idx[p]);
            },
            None => {},
        }
    }
}

pub proof fn lemma_key_location_found(app: App, key: Seq<char>, n: int)
    ensures
        key_location(app, key, n) matches Some((c, p)) ==> 0 <= c < n && first_key_pos(
            app.cards@,
            column_indices(app, c),
            key,
        ) == Some(p),
    decreases n,
{
    if n > 0 {
        lemma_key_location_found(app, key, n - 1);
    }
}

/// Selecting a card by its key selects that card: when some column shows
/// the card `key`, the selection that `select_key` leaves is a card with
/// that key.
pub proof fn selecting_a_key_selects_its_card(old: App, new: App, key: Seq<char>)
    requires
        old.columns.len() <= old.cursors.len(),
        key_location(old, key, old.columns@.len() as int) matches Some((c, p)) && new.focus == c
            && new.cursors@ == old.cursors@.update(c, p as usize),
        same_but_cursors(new, old),
    ensures
        selected_index(new) matches Some(i) && new.cards@[i as int].key@ == key,
{
    let (c, p) = key_location(old, key, old.columns@.len() as int)->0;
    lemma_key_location_found(old, key, old.columns@.len() as int);
    lemma_first_key_pos_found(old.cards@, column_indices(old, c), key);
    crate::board_app::lemma_shown_same(new, old, c, old.cards@.len() as int);
    lemma_shown_prefix_len(old, c, old.cards@.len() as int);
    assert(old.cards.len() == old.cards@.len());
    assert(old.cursors.len() == old.cursors@.len());
    assert(old.columns.len() == old.columns@.len());
    assert(p as usize as int == p);
    assert(new.cursors@[c] == p as usize);
    assert(column_indices(new, c) == column_indices(old, c));
}

/// After a reload every column has a cursor, and each cursor stands on a
/// card its column shows, or on zero when it shows none.
pub proof fn reload_keeps_cursors_on_cards(app: App, base: Seq<usize>)
    ensures
        reloaded_cursors(app, base).len() == app.columns@.len(),
        forall|i: int|
            0 <= i < app.columns@.len() ==> {
                let n = column_indices(app, i).len();
                &&& n == 0 ==> #[trigger] reloaded_cursors(app, base)[i] == 0
                &&& n > 0 ==> reloaded_cursors(app, base)[i] < n
            },
{
}

pub proof fn lemma_shown_prefix_len(app: App, col: int, n: int)
    ensures
        crate::board_app::shown_prefix(app, col, n).len() <= if n < 0 {
            0
        } else {
            n
        },
    decreases n,
{
    if n > 0 {
        lemma_shown_prefix_len(app, col, n - 1);
    }
}

pub proof fn lemma_gate_cands_in_pos(app: App, col: int, idx: Seq<usize>)
    requires
        0 <= col <= usize::MAX,
        idx.len() <= usize::MAX,
    ensures
        forall|k: int|
            0 <= k < gate_cands_in(app, col, idx).len() ==> {
                let c = #[trigger] gate_cands_in(app, col, idx)[k];
                &&& c.0 as int == col
                &&& c.1 < idx.len()
                &&& idx[c.1 as int] == c.2
            },
    decreases idx.len(),
{
    if idx.len() > 0 {
        lemma_gate_cands_in_pos(app, col, idx.drop_last());
        let rest = gate_cands_in(app, col, idx.drop_last());
        assert forall|k: int| 0 <= k < gate_cands_in(app, col, idx).len() implies {
            let c = #[trigger] gate_cands_in(app, col, idx)[k];
            &&& c.0 as int == col
            &&& c.1 < idx.len()
            &&& idx[c.1 as int] == c.2
        } by {
            if k < rest.len() {
                assert(gate_cands_in(app, col, idx)[k] == rest[k]);
                assert(idx.drop_last()[rest[k].1 as int] == idx[rest[k].1 as int]);
            }
        }
    }
}

pub proof fn lemma_gate_cands_pos(app: App, n: int)
    requires
        n <= app.columns@.len(),
    ensures
        forall|k: int|
            0 <= k < gate_cands(app, n).len() ==> {
                let c = #[trigger] gate_cands(app, n)[k];
                &&& c.0 < n
                &&& c.1 < column_indices(app, c.0 as int).len()
                &&& column_indices(app, c.0 as int)[c.1 as int] == c.2
            },
    decreases n,
{
    if n > 0 {
        lemma_gate_cands_pos(app, n - 1);
        lemma_shown_prefix_len(app, n - 1, app.cards@.len() as int);
        assert(app.cards.len() == app.cards@.len());
        assert(app.columns.len() == app.columns@.len());
        lemma_gate_cands_in_pos(app, n - 1, column_indices(app, n - 1));
        let a = gate_cands(app, n - 1);
        let b = gate_cands_in(app, n - 1, column_indices(app, n - 1));
        assert forall|k: int| 0 <= k < gate_cands(app, n).len() implies {
            let c = #[trigger] gate_cands(app, n)[k];
            &&& c.0 < n
            &&& c.1 < column_indices(app, c.0 as int).len()
            &&& column_indices(app, c.0 as int)[c.1 as int] == c.2
        } by {
            if k < a.len() {
                assert(gate_cands(app, n)[k] == a[k]);
            } else {
                assert(gate_cands(app, n)[k] == b[k - a.len()]);
            }
        }
    }
}

/// A jump to human intervention, when some card waits on a person, leaves
/// such a card selected.
pub proof fn human_jump_lands_on_a_waiting_card(old: App, new: App)
    requires
        old.columns.len() <= old.cursors.len(),
        gate_cands(old, old.columns@.len() as int).len() > 0,
        human_jump_ok(old, new),
    ensures
        selected_index(new) matches Some(i) && gate_of(new.cards@[i as int]) is Some,
{
    let n = old.columns@.len() as int;
    let cands = gate_cands(old, n);
    let cur = crate::board_jump::current_spot(old);
    lemma_first_after_bound(cands, cur);
    let k = match first_after(cands, cur) {
        Some(k) => k,
        None => 0,
    };
    assert(jump_target(cands, cur) == cands[k]);
    let c = cands[k];
    lemma_gate_cands_pos(old, n);
    crate::board_jump::lemma_gate_cands_ok(old, n);
    assert(c.0 < n);
    crate::board_app::lemma_shown_same(new, old, c.0 as int, old.cards@.len() as int);
    assert(new.cursors@[c.0 as int] == c.1);
}

/// Every card a column shows belongs to that column and passes the filter.
pub proof fn lemma_shown_cards_belong(app: App, col: int, n: int)
    requires
        n <= app.cards@.len(),
    ensures
        forall|k: int|
            0 <= k < shown_prefix(app, col, n).len() ==> #[trigger] shown_in(
                app,
                col,
                app.cards@[shown_prefix(app, col, n)[k] as int],
            ),
    decreases n,
{
    if n > 0 {
        lemma_shown_cards_belong(app, col, n - 1);
        assert(app.cards.len() == app.cards@.len());
        let rest = shown_prefix(app, col, n - 1);
        let v = (n - 1) as usize;
        assert(v as int == n - 1);
        if shown_in(app, col, app.cards@[n - 1]) {
            assert forall|k: int| 0 <= k < rest.push(v).len() implies #[trigger] shown_in(
                app,
                col,
                app.cards@[rest.push(v)[k] as int],
            ) by {
                if k < rest.len() {
                    assert(rest.push(v)[k] == rest[k]);
                }
            }
        }
    }
}

/// A key shown at some position of a list of cards is found there or
/// earlier.
pub proof fn lemma_first_key_pos_exists(cards: Seq<Card>, idx: Seq<usize>, key: Seq<char>, j: int)
    requires
        0 <= j < idx.len(),
        cards[idx[j] as int].key@ == key,
    ensures
        first_key_pos(cards, idx, key) is Some,
    decreases idx.len(),
{
    if j < idx.len() - 1 {
        assert(idx.drop_last()[j] == idx[j]);
        lemma_first_key_pos_exists(cards, idx.drop_last(), key, j);
    }
}

/// A key that column `f` shows is located in some column among the first
/// `n` when `f < n`.
pub proof fn lemma_key_location_exists(app: App, key: Seq<char>, f: int, n: int)
    requires
        0 <= f < n,
        first_key_pos(app.cards@, column_indices(app, f), key) is Some,
    ensures
        key_location(app, key, n) is Some,
    decreases n,
{
    if f < n - 1 {
        lemma_key_location_exists(app, key, f, n - 1);
    }
}

/// Saving the board screen's state and restoring it gives back the same
/// focused column and the same selected card, on a board that shows the
/// same columns, cards, labels and filter, when no other card has the saved
/// key and no other column has the focused column's id (as on any board of
/// the store, whose card keys and column ids are unique). Without these two
/// conditions the restore may select an earlier card with the same key. `saved` is the screen whose focus text and
/// selected key `save_ui_state` wrote (a focus that it writes as
/// `focus`, a selected card with key `key`); `after` is what
/// `restore_ui_state` makes of `before` from those two texts.
pub proof fn saved_state_restores_focus_and_selection(
    saved: App,
    before: App,
    after: App,
    focus: Seq<char>,
    key: Seq<char>,
)
    requires
        saved.focus < saved.columns.len(),
        saved.focus < saved.cursors.len(),
        focus == int_decimal(saved.focus as int),
        selected_index(saved) matches Some(i) && saved.cards@[i as int].key@ == key,
        before.columns == saved.columns,
        before.cards == saved.cards,
        before.labels == saved.labels,
        before.filter == saved.filter,
        before.columns.len() <= before.cursors.len(),
        forall|j: int|
            0 <= j < saved.cards@.len() && (#[trigger] saved.cards@[j]).key@ == key ==> j == selected_index(
                saved,
            )->0,
        forall|c: int|
            0 <= c < saved.columns@.len() && (#[trigger] saved.columns@[c]).id@ == saved.columns@[saved.focus as int].id@
                ==> c == saved.focus,
        restored(before, after, Some(focus), Some(key)),
    ensures
        after.focus == saved.focus,
        selected_index(after) == selected_index(saved),
{
    let i = selected_index(saved)->0;
    let f0 = saved.focus as int;
    let n = before.columns@.len() as int;
    let cur = saved.cursors@[f0];
    let m = before.cards@.len() as int;
    crate::board_app::lemma_shown_same(before, saved, f0, m);
    assert(column_indices(before, f0)[cur as int] == i);
    lemma_first_key_pos_exists(before.cards@, column_indices(before, f0), key, cur as int);
    assert(before.columns.len() == before.columns@.len());
    lemma_key_location_exists(before, key, f0, n);
    let (c, p) = key_location(before, key, n)->0;
    lemma_key_location_found(before, key, n);
    lemma_first_key_pos_found(before.cards@, column_indices(before, c), key);
    let j = column_indices(before, c)[p];
    crate::board_app::lemma_shown_prefix_bounds(before, c, m);
    crate::board_app::lemma_shown_prefix_bounds(before, f0, m);
    assert(j < m);
    assert(before.cards@[j as int].key@ == key);
    assert(j == i);
    lemma_shown_cards_belong(before, c, m);
    lemma_shown_cards_belong(before, f0, m);
    assert(shown_in(before, c, before.cards@[column_indices(before, c)[p] as int]));
    assert(shown_in(before, f0, before.cards@[column_indices(before, f0)[cur as int] as int]));
    assert(c == f0);
    crate::board_app::lemma_shown_same(after, before, c, m);
    lemma_shown_prefix_len(before, c, m);
    assert(before.cards.len() == before.cards@.len());
    assert(before.cursors.len() == before.cursors@.len());
    assert(p as usize as int == p);
    assert(after.cursors@[c] == p as usize);
}

} // verus!

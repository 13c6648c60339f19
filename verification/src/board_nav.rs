//! Moving around the board: focus and cursor steps, keeping cursors in range
//! after a reload, switching boards, and the dialogs that open on a card.
use vstd::prelude::*;
use crate::board_app::{
    App, ArchiveBack, BoardInfo, Column, InputKind, Mode, column_indices, key_index,
    same_but_cursors, selected_index,
};
use crate::card::Card;
use crate::render::{Label, find_labels, labels_of};
use crate::text::{owned, str_eq};

verus! {

/// `v` held within `lo..=hi`.
pub open spec fn clamp_int(v: int, lo: int, hi: int) -> int {
    if v < lo {
        lo
    } else if v > hi {
        hi
    } else {
        v
    }
}

/// A cursor kept on the last of `shown` cards (on zero when there are none).
pub open spec fn clamp_cursor(c: usize, shown: nat) -> usize {
    if shown == 0 {
        0
    } else if c > shown - 1 {
        (shown - 1) as usize
    } else {
        c
    }
}

/// `n` zeros.
pub open spec fn zeros(n: nat) -> Seq<usize> {
    Seq::new(n, |i: int| 0usize)
}

/// The cursors after a reload: one per column, each kept within the cards
/// that its column shows. Cursors of the wrong number start from zero.
pub open spec fn reloaded_cursors(app: App, base: Seq<usize>) -> Seq<usize> {
    let start = if base.len() != app.columns@.len() {
        zeros(app.columns@.len())
    } else {
        base
    };
    Seq::new(
        app.columns@.len(),
        |i: int| clamp_cursor(start[i], column_indices(app, i).len()),
    )
}

/// The position of the first board with `id`.
pub open spec fn board_pos(boards: Seq<BoardInfo>, id: Seq<char>) -> Option<int>
    decreases boards.len(),
{
    if boards.len() == 0 {
        None
    } else {
        match board_pos(boards.drop_last(), id) {
            Some(i) => Some(i),
            None => if boards.last().id@ == id {
                Some(boards.len() - 1)
            } else {
                None
            },
        }
    }
}

/// The board that Tab moves to: the one after the current board, wrapping;
/// none when there is at most one board.
pub open spec fn next_board_spec(boards: Seq<BoardInfo>, current: Seq<char>) -> Option<int> {
    if boards.len() <= 1 {
        None
    } else {
        let i = match board_pos(boards, current) {
            Some(i) => i,
            None => 0,
        };
        Some((i + 1) % (boards.len() as int))
    }
}

/// The card `key` carries a label named `name`.
pub open spec fn has_label_spec(app: App, key: Seq<char>, name: Seq<char>) -> bool {
    match key_index(app.cards@, key) {
        Some(i) => match labels_of(app.labels@, app.cards@[i].id@) {
            Some(ls) => exists|j: int| 0 <= j < ls.len() && ls[j].name@ == name,
            None => false,
        },
        None => false,
    }
}

/// The columns other than `victim`, as (id, name).
pub open spec fn destinations_spec(cols: Seq<Column>, victim: Seq<char>) -> Seq<(Seq<char>, Seq<char>)>
    decreases cols.len(),
{
    if cols.len() == 0 {
        Seq::empty()
    } else {
        let rest = destinations_spec(cols.drop_last(), victim);
        if cols.last().id@ != victim {
            rest.push((cols.last().id@, cols.last().name@))
        } else {
            rest
        }
    }
}

/// The boards a card can move to: every listed board but the current one,
/// as indices.
pub open spec fn move_targets_spec(boards: Seq<BoardInfo>, current: Seq<char>) -> Seq<usize>
    decreases boards.len(),
{
    if boards.len() == 0 {
        Seq::empty()
    } else {
        let rest = move_targets_spec(boards.drop_last(), current);
        if boards.last().id@ != current {
            rest.push((boards.len() - 1) as usize)
        } else {
            rest
        }
    }
}

/// The mode is the detail view of `key`, scrolled to the top.
pub open spec fn is_detail_of(m: Mode, key: Seq<char>) -> bool {
    m matches Mode::Detail { key: k, scroll } && k@ == key && scroll == 0
}

/// Where a closed prompt goes back to: a card prompt to the card's detail
/// view while the card exists, a column prompt to the column manager, any
/// other to the board.
pub open spec fn input_return(app: App, m: Mode) -> bool {
    match app.mode {
        Mode::Input { kind, .. } => match kind {
            InputKind::EditTitle { key, .. } | InputKind::EditAssignee { key, .. }
            | InputKind::EditDue { key, .. } | InputKind::CompleteWithNote { key, .. } => {
                if key_index(app.cards@, key@) is Some {
                    is_detail_of(m, key@)
                } else {
                    m is Normal
                }
            },
            InputKind::NewColumn | InputKind::RenameColumn(_) => m is ColumnManager,
            _ => m is Normal,
        },
        _ => m is Normal,
    }
}

/// The title prompt of card `c`, filled with its title.
pub open spec fn is_title_prompt(m: Mode, c: Card) -> bool {
    match m {
        Mode::Input { kind: InputKind::EditTitle { key, expected_updated_at }, buffer } => key@
            == c.key@ && expected_updated_at == c.updated_at && buffer@ == c.title@,
        _ => false,
    }
}

/// Everything but the mode and the status line is the same.
pub open spec fn same_but_mode(a: App, b: App) -> bool {
    &&& a.board == b.board
    &&& a.boards == b.boards
    &&& a.columns == b.columns
    &&& a.cards == b.cards
    &&& a.labels == b.labels
    &&& a.focus == b.focus
    &&& a.cursors == b.cursors
    &&& a.col_cursor == b.col_cursor
    &&& a.filter == b.filter
    &&& a.should_quit == b.should_quit
}


/// Moving the focus by `delta` cannot overflow.
pub open spec fn focus_delta_ready(app: App, delta: i32) -> bool {
    app.columns.len() > 0 ==> {
        &&& app.columns.len() <= i32::MAX
        &&& app.focus + delta <= i32::MAX
        &&& app.focus + delta >= i32::MIN
    }
}

/// The focus moved `delta` columns, held on the board; nothing else changed.
pub open spec fn focus_delta_ok(old: App, new: App, delta: i32) -> bool {
    &&& new.focus == if old.columns.len() == 0 {
        old.focus as int
    } else {
        clamp_int(old.focus + delta, 0, old.columns.len() - 1)
    }
    &&& new.cursors == old.cursors
    &&& same_but_cursors(new, old)
}

/// The focused column exists, and moving its cursor by `delta` cannot
/// overflow.
pub open spec fn cursor_delta_ready(app: App, delta: i32) -> bool {
    &&& app.focus < app.columns.len()
    &&& app.focus < app.cursors.len()
    &&& column_indices(app, app.focus as int).len() > 0 ==> {
        &&& column_indices(app, app.focus as int).len() <= i32::MAX
        &&& app.cursors@[app.focus as int] + delta <= i32::MAX
        &&& app.cursors@[app.focus as int] + delta >= i32::MIN
    }
}

/// The focused column's cursor moved `delta` cards, held on the cards it
/// shows; nothing else changed.
pub open spec fn cursor_delta_ok(old: App, new: App, delta: i32) -> bool {
    let n = column_indices(old, old.focus as int).len();
    let f = old.focus as int;
    &&& if n == 0 {
        new.cursors@ == old.cursors@
    } else {
        new.cursors@ == old.cursors@.update(
            f,
            clamp_int(old.cursors@[f] + delta, 0, n - 1) as usize,
        )
    }
    &&& new.focus == old.focus
    &&& same_but_cursors(new, old)
}

/// The archive prompt opened on the selected card, or nothing changed when
/// no card is selected.
pub open spec fn archive_selected_ok(old: App, new: App) -> bool {
    match selected_index(old) {
        Some(i) => {
            &&& new.mode matches Mode::ArchiveConfirm { key, back } && key@ == old.cards@[i as int].key@
                && back == ArchiveBack::Normal
            &&& new.status@ == "archive? y/n"@
            &&& same_but_mode(new, old)
        },
        None => new == old,
    }
}

/// The title prompt opened on the selected card, or nothing changed when no
/// card is selected.
pub open spec fn title_started_ok(old: App, new: App) -> bool {
    match selected_index(old) {
        Some(i) => {
            &&& is_title_prompt(new.mode, old.cards@[i as int])
            &&& same_but_mode(new, old)
            &&& new.status == old.status
        },
        None => new == old,
    }
}

/// The board move dialog opened on card `key`, or the status line says that
/// there is no other board.
pub open spec fn board_move_opened_ok(old: App, new: App, key: Seq<char>, back: ArchiveBack) -> bool {
    &&& if move_targets_spec(old.boards@, old.board.id@).len() == 0 {
        &&& new.status@ == "no other active boards"@
        &&& new.mode == old.mode
    } else {
        &&& new.mode matches Mode::CardBoardMove { key: k, cursor, back: b } && k@ == key && cursor
            == 0 && b == back
        &&& new.status == old.status
    }
    &&& same_but_mode(new, old)
}

pub proof fn lemma_board_pos_prefix(boards: Seq<BoardInfo>, id: Seq<char>, n: int)
    requires
        0 <= n <= boards.len(),
        board_pos(boards.take(n), id) is Some,
    ensures
        board_pos(boards, id) == board_pos(boards.take(n), id),
    decreases boards.len(),
{
    if n == boards.len() {
        assert(boards.take(n) =~= boards);
    } else {
        assert(boards.drop_last().take(n) =~= boards.take(n));
        lemma_board_pos_prefix(boards.drop_last(), id, n);
    }
}

/// The position of the first board with `id`.
pub fn find_board(boards: &Vec<BoardInfo>, id: &str) -> (r: Option<usize>)
    ensures
        match r {
            Some(i) => board_pos(boards@, id@) == Some(i as int) && i < boards.len(),
            None => board_pos(boards@, id@) is None,
        },
{
    let mut i: usize = 0;
    while i < boards.len()
        invariant
            i <= boards.len(),
            board_pos(boards@.take(i as int), id@) is None,
        decreases boards.len() - i,
    {
        assert(boards@.take(i + 1).drop_last() =~= boards@.take(i as int));
        if str_eq(boards[i].id.as_str(), id) {
            proof {
                lemma_board_pos_prefix(boards@, id@, i + 1);
            }
            return Some(i);
        }
        i = i + 1;
    }
    assert(boards@.take(boards.len() as int) =~= boards@);
    None
}

fn zero_cursors(n: usize) -> (r: Vec<usize>)
    ensures
        r@ == zeros(n as nat),
{
    let mut v: Vec<usize> = Vec::new();
    let mut i: usize = 0;
    while i < n
        invariant
            i <= n,
            v@ == zeros(i as nat),
        decreases n - i,
    {
        v.push(0);
        assert(v@ =~= zeros((i + 1) as nat));
        i = i + 1;
    }
    v
}

impl App {
    /// Moves the focus `delta` columns, staying on the board.
    pub fn focus_delta(&mut self, delta: i32)
        requires
            focus_delta_ready(*old(self), delta),
        ensures
            focus_delta_ok(*old(self), *final(self), delta),
    {
        if self.columns.len() == 0 {
            return;
        }
        let max: i64 = self.columns.len() as i64 - 1;
        let v: i64 = self.focus as i64 + delta as i64;
        let c: i64 = if v < 0 {
            0
        } else if v > max {
            max
        } else {
            v
        };
        self.focus = c as usize;
    }

    /// Moves the cursor of the focused column `delta` cards, staying on the
    /// cards the column shows.
    pub fn cursor_delta(&mut self, delta: i32)
        requires
            cursor_delta_ready(*old(self), delta),
        ensures
            cursor_delta_ok(*old(self), *final(self), delta),
    {
        let len = self.column_cards(self.focus).len();
        if len == 0 {
            return;
        }
        let max: i64 = len as i64 - 1;
        let v: i64 = self.cursors[self.focus] as i64 + delta as i64;
        let c: i64 = if v < 0 {
            0
        } else if v > max {
            max
        } else {
            v
        };
        let f = self.focus;
        self.cursors.set(f, c as usize);
    }

    /// Takes freshly loaded cards and labels, then keeps one cursor per
    /// column, each within the cards its column shows.
    pub fn reload(&mut self, cards: Vec<Card>, labels: Vec<(String, Vec<Label>)>)
        ensures
            final(self).cards == cards,
            final(self).labels == labels,
            final(self).cursors@ == reloaded_cursors(*final(self), old(self).cursors@),
            final(self).board == old(self).board,
            final(self).boards == old(self).boards,
            final(self).columns == old(self).columns,
            final(self).focus == old(self).focus,
            final(self).col_cursor == old(self).col_cursor,
            final(self).filter == old(self).filter,
            final(self).status == old(self).status,
            final(self).mode == old(self).mode,
            final(self).should_quit == old(self).should_quit,
    {
        self.cards = cards;
        self.labels = labels;
        if self.cursors.len() != self.columns.len() {
            self.cursors = zero_cursors(self.columns.len());
        }
        let ghost start = self.cursors@;
        let ghost fixed = *self;
        let mut i: usize = 0;
        while i < self.columns.len()
            invariant
                i <= self.columns.len(),
                self.cursors.len() == self.columns.len(),
                start.len() == self.columns.len(),
                same_but_cursors(*self, fixed),
                self.focus == fixed.focus,
                forall|j: int|
                    0 <= j < i ==> self.cursors@[j] == clamp_cursor(
                        start[j],
                        column_indices(fixed, j).len(),
                    ),
                forall|j: int| i <= j < self.columns.len() ==> self.cursors@[j] == start[j],
            decreases self.columns.len() - i,
        {
            let shown = self.column_cards(i);
            proof {
                crate::board_app::lemma_shown_same(*self, fixed, i as int, self.cards@.len() as int);
            }
            let max = if shown.len() == 0 {
                0
            } else {
                shown.len() - 1
            };
            if self.cursors[i] > max {
                self.cursors.set(i, max);
            }
            i = i + 1;
        }
        proof {
            assert forall|j: int| 0 <= j < self.columns@.len() implies column_indices(*self, j)
                == column_indices(fixed, j) by {
                crate::board_app::lemma_shown_same(*self, fixed, j, self.cards@.len() as int);
            }
            assert(self.cursors@ =~= reloaded_cursors(*self, old(self).cursors@));
        }
    }
}

impl App {
    /// Takes the columns of the board after a change of its structure,
    /// keeping the focus and the column manager's cursor on a column, then
    /// reloads the cards.
    pub fn refresh_columns(
        &mut self,
        columns: Vec<Column>,
        cards: Vec<Card>,
        labels: Vec<(String, Vec<Label>)>,
    )
        ensures
            final(self).columns == columns,
            final(self).cards == cards,
            final(self).labels == labels,
            final(self).focus == if old(self).focus >= columns.len() {
                if columns.len() == 0 {
                    0
                } else {
                    columns.len() - 1
                }
            } else {
                old(self).focus as int
            },
            final(self).col_cursor == if old(self).col_cursor >= columns.len() {
                if columns.len() == 0 {
                    0
                } else {
                    columns.len() - 1
                }
            } else {
                old(self).col_cursor as int
            },
            final(self).cursors@ == reloaded_cursors(*final(self), old(self).cursors@),
            final(self).board == old(self).board,
            final(self).boards == old(self).boards,
            final(self).filter == old(self).filter,
            final(self).status == old(self).status,
            final(self).mode == old(self).mode,
            final(self).should_quit == old(self).should_quit,
    {
        let n = columns.len();
        self.columns = columns;
        if self.cursors.len() != n {
            self.cursors = zero_cursors(if n == 0 {
                1
            } else {
                n
            });
        }
        let ghost mid = self.cursors@;
        if self.focus >= n {
            self.focus = if n == 0 {
                0
            } else {
                n - 1
            };
        }
        if self.col_cursor >= n {
            self.col_cursor = if n == 0 {
                0
            } else {
                n - 1
            };
        }
        self.reload(cards, labels);
        assert(reloaded_cursors(*self, mid) =~= reloaded_cursors(*self, old(self).cursors@));
    }

    /// Shows another board: its columns and cards, the first column focused,
    /// every cursor on the first card, and no filter.
    pub fn switch_board(
        &mut self,
        board: BoardInfo,
        columns: Vec<Column>,
        cards: Vec<Card>,
        labels: Vec<(String, Vec<Label>)>,
    )
        ensures
            final(self).board == board,
            final(self).columns == columns,
            final(self).cards == cards,
            final(self).labels == labels,
            final(self).cursors@ == zeros(columns.len() as nat),
            final(self).focus == 0,
            final(self).filter is None,
            final(self).boards == old(self).boards,
            final(self).col_cursor == old(self).col_cursor,
            final(self).status == old(self).status,
            final(self).mode == old(self).mode,
            final(self).should_quit == old(self).should_quit,
    {
        let n = columns.len();
        self.board = board;
        self.columns = columns;
        self.cursors = zero_cursors(if n == 0 {
            1
        } else {
            n
        });
        self.focus = 0;
        self.filter = None;
        self.reload(cards, labels);
        assert(self.cursors@ =~= zeros(n as nat));
    }

    /// The board that Tab switches to: the next listed board after the
    /// current one, wrapping; none with at most one board.
    pub fn cycle_board(&self) -> (r: Option<usize>)
        ensures
            match r {
                Some(i) => next_board_spec(self.boards@, self.board.id@) == Some(i as int) && i
                    < self.boards.len(),
                None => next_board_spec(self.boards@, self.board.id@) is None,
            },
    {
        if self.boards.len() <= 1 {
            return None;
        }
        let i = match find_board(&self.boards, self.board.id.as_str()) {
            Some(i) => i,
            None => 0,
        };
        Some((i + 1) % self.boards.len())
    }

    /// Whether the card `card_key` carries a label named `label_name`.
    pub fn card_has_label(&self, card_key: &str, label_name: &str) -> (r: bool)
        ensures
            r == has_label_spec(*self, card_key@, label_name@),
    {
        match self.card_by_key(card_key) {
            Some(i) => match find_labels(&self.labels, self.cards[i].id.as_str()) {
                Some(ls) => {
                    let mut j: usize = 0;
                    while j < ls.len()
                        invariant
                            j <= ls.len(),
                            key_index(self.cards@, card_key@) == Some(i as int),
                            i < self.cards.len(),
                            labels_of(self.labels@, self.cards@[i as int].id@) == Some(ls@),
                            forall|k: int| 0 <= k < j ==> ls@[k].name@ != label_name@,
                        decreases ls.len() - j,
                    {
                        if str_eq(ls[j].name.as_str(), label_name) {
                            proof {
                                let lv = labels_of(self.labels@, self.cards@[i as int].id@)->0;
                                assert(lv == ls@);
                                assert(lv[j as int].name@ == label_name@);
                            }
                            return true;
                        }
                        j = j + 1;
                    }
                    false
                },
                None => false,
            },
            None => false,
        }
    }

    /// The columns other than the one being deleted, as (id, name) pairs.
    pub fn delete_destinations(&self, victim_id: &str) -> (r: Vec<(String, String)>)
        ensures
            crate::depgraph::pair_views(r@) == destinations_spec(self.columns@, victim_id@),
    {
        let mut out: Vec<(String, String)> = Vec::new();
        let mut i: usize = 0;
        while i < self.columns.len()
            invariant
                i <= self.columns.len(),
                crate::depgraph::pair_views(out@) == destinations_spec(
                    self.columns@.take(i as int),
                    victim_id@,
                ),
            decreases self.columns.len() - i,
        {
            assert(self.columns@.take(i + 1).drop_last() =~= self.columns@.take(i as int));
            let c = &self.columns[i];
            if !str_eq(c.id.as_str(), victim_id) {
                let ghost before = crate::depgraph::pair_views(out@);
                out.push((c.id.clone(), c.name.clone()));
                assert(crate::depgraph::pair_views(out@) =~= before.push((c.id@, c.name@)));
            }
            i = i + 1;
        }
        assert(self.columns@.take(self.columns.len() as int) =~= self.columns@);
        out
    }

    /// The boards other than the current one, as indices into the list.
    pub fn card_move_destinations(&self) -> (r: Vec<usize>)
        ensures
            r@ == move_targets_spec(self.boards@, self.board.id@),
            forall|k: int| 0 <= k < r@.len() ==> r@[k] < self.boards.len(),
    {
        let mut out: Vec<usize> = Vec::new();
        let mut i: usize = 0;
        while i < self.boards.len()
            invariant
                i <= self.boards.len(),
                out@ == move_targets_spec(self.boards@.take(i as int), self.board.id@),
                forall|k: int| 0 <= k < out@.len() ==> out@[k] < i,
            decreases self.boards.len() - i,
        {
            assert(self.boards@.take(i + 1).drop_last() =~= self.boards@.take(i as int));
            if !str_eq(self.boards[i].id.as_str(), self.board.id.as_str()) {
                out.push(i);
            }
            i = i + 1;
        }
        assert(self.boards@.take(self.boards.len() as int) =~= self.boards@);
        out
    }

    /// Where an archive prompt goes back to when it is declined: the card's
    /// detail view when it came from there and the card still exists, else
    /// the board.
    pub fn archive_back_mode(&self, key: &str, back: ArchiveBack) -> (r: Mode)
        ensures
            if back == ArchiveBack::Detail && key_index(self.cards@, key@) is Some {
                is_detail_of(r, key@)
            } else {
                r is Normal
            },
    {
        match back {
            ArchiveBack::Detail => {
                if self.card_by_key(key).is_some() {
                    Mode::Detail { key: owned(key), scroll: 0 }
                } else {
                    Mode::Normal
                }
            },
            ArchiveBack::Normal => Mode::Normal,
        }
    }

    /// Leaves a text prompt without committing it.
    pub fn return_from_input(&mut self)
        ensures
            input_return(*old(self), final(self).mode),
            same_but_mode(*final(self), *old(self)),
            final(self).status == old(self).status,
    {
        let next = match &self.mode {
            Mode::Input { kind, .. } => match kind {
                InputKind::EditTitle { key, .. } | InputKind::EditAssignee { key, .. }
                | InputKind::EditDue { key, .. } | InputKind::CompleteWithNote { key, .. } => {
                    if self.card_by_key(key.as_str()).is_some() {
                        Mode::Detail { key: key.clone(), scroll: 0 }
                    } else {
                        Mode::Normal
                    }
                },
                InputKind::NewColumn | InputKind::RenameColumn(_) => Mode::ColumnManager,
                _ => Mode::Normal,
            },
            _ => Mode::Normal,
        };
        self.mode = next;
    }

    /// Closes the card move dialogs, back to the board or to the card.
    pub fn return_from_card_board_move(&mut self, key: String, back: ArchiveBack)
        ensures
            final(self).mode == match back {
                ArchiveBack::Normal => Mode::Normal,
                ArchiveBack::Detail => Mode::Detail { key: key, scroll: 0 },
            },
            same_but_mode(*final(self), *old(self)),
            final(self).status == old(self).status,
    {
        self.mode = match back {
            ArchiveBack::Normal => Mode::Normal,
            ArchiveBack::Detail => Mode::Detail { key, scroll: 0 },
        };
    }

    /// Asks whether to archive the card `key`.
    pub fn prompt_archive_key(&mut self, key: String, back: ArchiveBack)
        ensures
            final(self).mode == (Mode::ArchiveConfirm { key: key, back: back }),
            final(self).status@ == "archive? y/n"@,
            same_but_mode(*final(self), *old(self)),
    {
        self.mode = Mode::ArchiveConfirm { key, back };
        self.status = owned("archive? y/n");
    }

    /// Asks whether to archive the selected card, if there is one.
    pub fn prompt_archive_selected(&mut self)
        requires
            old(self).focus < old(self).columns.len(),
            old(self).focus < old(self).cursors.len(),
        ensures
            archive_selected_ok(*old(self), *final(self)),
    {
        match self.selected_card() {
            Some(i) => {
                let key = self.cards[i].key.clone();
                self.prompt_archive_key(key, ArchiveBack::Normal);
            },
            None => {},
        }
    }

    /// Opens the title prompt on the selected card, if there is one.
    pub fn start_edit_title(&mut self)
        requires
            old(self).focus < old(self).columns.len(),
            old(self).focus < old(self).cursors.len(),
        ensures
            title_started_ok(*old(self), *final(self)),
    {
        match self.selected_card() {
            Some(i) => {
                let key = self.cards[i].key.clone();
                let title = self.cards[i].title.clone();
                let at = self.cards[i].updated_at;
                self.mode = Mode::Input {
                    kind: InputKind::EditTitle { key, expected_updated_at: at },
                    buffer: title,
                };
            },
            None => {},
        }
    }

    /// Opens the dialog that moves card `key` to another board, or says that
    /// there is no other board.
    pub fn open_card_board_move(&mut self, key: String, back: ArchiveBack)
        ensures
            board_move_opened_ok(*old(self), *final(self), key@, back),
    {
        if self.card_move_destinations().len() == 0 {
            self.status = owned("no other active boards");
            return;
        }
        self.mode = Mode::CardBoardMove { key, cursor: 0, back };
    }
}

} // verus!

//! The dialogs of the board application: the column manager, column
//! deletion, the board list, board templates, archiving and restoring
//! boards, and moving a card to another board.
use vstd::prelude::*;
use crate::board_app::{App, ArchiveBack, BoardInfo, Column, InputKind, Mode};
use crate::board_keys::{Action, Key};
use crate::board_nav::{destinations_spec, move_targets_spec, same_but_mode};
use crate::text::{owned, str_eq, string_pop, string_push};

verus! {

/// The last index of a list of `len` entries, zero for an empty list.
pub open spec fn last_index(len: nat) -> usize {
    if len == 0 {
        0
    } else {
        (len - 1) as usize
    }
}

/// A list cursor after a key: down (or `j`) one, held on the last entry; up
/// (or `k`) one, held on the first. `None` for other keys.
pub open spec fn list_step(cursor: usize, len: nat, key: Key) -> Option<usize> {
    if key == Key::Down || key == Key::Char('j') {
        Some(
            if cursor + 1 < last_index(len) {
                (cursor + 1) as usize
            } else {
                last_index(len)
            },
        )
    } else if key == Key::Up || key == Key::Char('k') {
        Some(
            if cursor == 0 {
                0
            } else {
                (cursor - 1) as usize
            },
        )
    } else {
        None
    }
}

/// A cursor held within a list of `len` entries.
pub open spec fn held(cursor: usize, len: nat) -> usize {
    if cursor < last_index(len) {
        cursor
    } else {
        last_index(len)
    }
}

/// The list cursor after `key`.
pub fn list_cursor(cursor: usize, len: usize, key: Key) -> (r: Option<usize>)
    requires
        (key == Key::Down || key == Key::Char('j')) ==> cursor < usize::MAX,
    ensures
        r == list_step(cursor, len as nat, key),
{
    let last = if len == 0 {
        0
    } else {
        len - 1
    };
    match key {
        Key::Down | Key::Char('j') => Some(
            if cursor + 1 < last {
                cursor + 1
            } else {
                last
            },
        ),
        Key::Up | Key::Char('k') => Some(
            if cursor == 0 {
                0
            } else {
                cursor - 1
            },
        ),
        _ => None,
    }
}

/// The cursor kept on the last row of a list of `len` rows (on the first
/// when the list is empty).
pub(crate) fn hold(cursor: usize, len: usize) -> (r: usize)
    ensures
        r == held(cursor, len as nat),
{
    let last = if len == 0 {
        0
    } else {
        len - 1
    };
    if cursor < last {
        cursor
    } else {
        last
    }
}

/// The column manager: Esc, `q` and `c` close it; `j`/`k` move its cursor;
/// `J`/`K` move the column; `a`/`n` add a column; `r` renames and `d`
/// deletes the column under the cursor (never the only one).
pub open spec fn columns_key_ok(old: App, new: App, r: Action, key: Key) -> bool {
    let n = old.columns@.len();
    let cur = old.col_cursor;
    let col = old.columns@[cur as int];
    if key == Key::Esc || key == Key::Char('q') || key == Key::Char('c') {
        new.mode is Normal && new.status == old.status && same_but_mode(new, old) && r is Nothing
    } else if list_step(cur, n, key) is Some {
        &&& new.col_cursor == list_step(cur, n, key)->0
        &&& new.mode == old.mode && new.status == old.status && r is Nothing
        &&& new.board == old.board && new.boards == old.boards && new.columns == old.columns
        &&& new.cards == old.cards && new.labels == old.labels && new.filter == old.filter
        &&& new.focus == old.focus && new.cursors == old.cursors && new.should_quit == old.should_quit
    } else if key == Key::Char('J') || key == Key::Char('K') {
        &&& new == old
        &&& if cur < n {
            r matches Action::ReorderColumn { id, dir } && id@ == col.id@ && dir == (if key == Key::Char('J') {
                1i32
            } else {
                -1i32
            })
        } else {
            r is Nothing
        }
    } else if key == Key::Char('a') || key == Key::Char('n') {
        &&& new.mode matches Mode::Input { kind, buffer } && kind == InputKind::NewColumn && buffer@.len() == 0
        &&& new.status == old.status && same_but_mode(new, old) && r is Nothing
    } else if key == Key::Char('r') {
        &&& new.status == old.status && same_but_mode(new, old) && r is Nothing
        &&& if cur < n {
            new.mode matches Mode::Input { kind: InputKind::RenameColumn(id), buffer } && id@ == col.id@
                && buffer@ == col.name@
        } else {
            new.mode == old.mode
        }
    } else if key == Key::Char('d') {
        &&& same_but_mode(new, old) && r is Nothing
        &&& if n <= 1 {
            new.status@ == "cannot delete the only column"@ && new.mode == old.mode
        } else if cur < n {
            &&& new.mode matches Mode::ColumnDelete { victim_id, cursor } && victim_id@ == col.id@ && cursor == 0
            &&& new.status == old.status
        } else {
            new.mode == old.mode && new.status == old.status
        }
    } else {
        new == old && r is Nothing
    }
}

/// Deleting a column: Esc goes back to the column manager; `j`/`k` pick the
/// column that takes its cards; Enter deletes it.
pub open spec fn column_delete_key_ok(old: App, new: App, r: Action, key: Key) -> bool {
    match old.mode {
        Mode::ColumnDelete { victim_id, cursor } => {
            let dests = destinations_spec(old.columns@, victim_id@);
            if key == Key::Esc {
                new.mode is ColumnManager && new.status == old.status && same_but_mode(new, old) && r is Nothing
            } else if list_step(cursor, dests.len(), key) is Some {
                &&& new.mode matches Mode::ColumnDelete { victim_id: v, cursor: c } && v@ == victim_id@ && c
                    == list_step(cursor, dests.len(), key)->0
                &&& new.status == old.status && same_but_mode(new, old) && r is Nothing
            } else if key == Key::Enter {
                &&& new.mode is ColumnManager && new.status == old.status && same_but_mode(new, old)
                &&& if cursor < dests.len() {
                    r matches Action::DeleteColumn { victim_id: v, dest_id, dest_name } && v@ == victim_id@
                        && dest_id@ == dests[cursor as int].0 && dest_name@ == dests[cursor as int].1
                } else {
                    r is Nothing
                }
            } else {
                new == old && r is Nothing
            }
        },
        _ => new == old && r is Nothing,
    }
}


/// Archiving the current board: `y` archives it; `n` or Esc cancels.
pub open spec fn board_archive_key_ok(old: App, new: App, r: Action, key: Key) -> bool {
    match old.mode {
        Mode::BoardArchive { board_id, board_name } => if key == Key::Char('y') || key == Key::Char('Y') {
            new == old && (r matches Action::ArchiveBoard { board_id: i, board_name: n } && i@ == board_id@
                && n@ == board_name@)
        } else if key == Key::Char('n') || key == Key::Char('N') || key == Key::Esc {
            new.mode is Normal && new.status@ == "cancelled"@ && same_but_mode(new, old) && r is Nothing
        } else {
            new == old && r is Nothing
        },
        _ => new == old && r is Nothing,
    }
}

/// The board list (as just read): with no boards it closes; Esc, `q` and
/// `b` close it; `j`/`k` move; `J`/`K` move the board; Enter shows it.
pub open spec fn board_switcher_key_ok(old: App, new: App, r: Action, key: Key) -> bool {
    match old.mode {
        Mode::BoardSwitcher { cursor } => {
            let n = old.boards@.len();
            let c = held(cursor, n);
            if n == 0 {
                new.mode is Normal && new.status@ == "no boards"@ && same_but_mode(new, old) && r is Nothing
            } else if key == Key::Esc || key == Key::Char('q') || key == Key::Char('b') {
                new.mode is Normal && new.status == old.status && same_but_mode(new, old) && r is Nothing
            } else if list_step(c, n, key) is Some {
                new.mode == (Mode::BoardSwitcher { cursor: list_step(c, n, key)->0 }) && new.status
                    == old.status && same_but_mode(new, old) && r is Nothing
            } else if key == Key::Char('J') || key == Key::Char('K') {
                new == old && (r matches Action::ReorderBoard { index, dir } && index == c && dir == (if key
                    == Key::Char('J') {
                    1i32
                } else {
                    -1i32
                }))
            } else if key == Key::Enter {
                new == old && r == (Action::SwitchToBoard { index: c })
            } else {
                new == old && r is Nothing
            }
        },
        _ => new == old && r is Nothing,
    }
}

/// Picking the template of a new board among `count`: Esc and `q` cancel;
/// `j`/`k` move; Enter creates the board.
pub open spec fn template_key_ok(old: App, new: App, r: Action, key: Key, count: nat) -> bool {
    match old.mode {
        Mode::BoardTemplatePicker { name, cursor } => {
            let c = held(cursor, count);
            if key == Key::Esc || key == Key::Char('q') {
                new.mode is Normal && new.status@ == "cancelled"@ && same_but_mode(new, old) && r is Nothing
            } else if list_step(c, count, key) is Some {
                &&& new.mode matches Mode::BoardTemplatePicker { name: m, cursor: d } && m@ == name@ && d
                    == list_step(c, count, key)->0
                &&& new.status == old.status && same_but_mode(new, old) && r is Nothing
            } else if key == Key::Enter {
                new == old && (r matches Action::CreateBoard { name: m, template } && m@ == name@ && template
                    == c)
            } else {
                new == old && r is Nothing
            }
        },
        _ => new == old && r is Nothing,
    }
}

/// Back from the card move dialogs to the board, or to the card's detail.
pub open spec fn returned_from_move(m: Mode, key: Seq<char>, back: ArchiveBack) -> bool {
    match back {
        ArchiveBack::Normal => m is Normal,
        ArchiveBack::Detail => m matches Mode::Detail { key: k, scroll } && k@ == key && scroll == 0,
    }
}

/// Picking the board a card moves to (from the list just read): with no
/// other board it goes back; Esc, `q` and `M` go back; `j`/`k` move; Enter
/// asks for that board's columns.
pub open spec fn card_board_move_key_ok(old: App, new: App, r: Action, key: Key) -> bool {
    match old.mode {
        Mode::CardBoardMove { key: card, cursor, back } => {
            let dests = move_targets_spec(old.boards@, old.board.id@);
            let c = held(cursor, dests.len());
            if dests.len() == 0 {
                returned_from_move(new.mode, card@, back) && new.status@ == "no other active boards"@
                    && same_but_mode(new, old) && r is Nothing
            } else if key == Key::Esc || key == Key::Char('q') || key == Key::Char('M') {
                returned_from_move(new.mode, card@, back) && new.status == old.status && same_but_mode(new, old)
                    && r is Nothing
            } else if list_step(c, dests.len(), key) is Some {
                &&& new.mode matches Mode::CardBoardMove { key: k, cursor: d, back: b } && k@ == card@ && d
                    == list_step(c, dests.len(), key)->0 && b == back
                &&& new.status == old.status && same_but_mode(new, old) && r is Nothing
            } else if key == Key::Enter {
                new == old && (r matches Action::PickBoardForCard { key: k, index, back: b } && k@ == card@
                    && index == dests[c as int] && b == back)
            } else {
                new == old && r is Nothing
            }
        },
        _ => new == old && r is Nothing,
    }
}

/// The board a card moves to, once its columns are read: without columns
/// the status line says so; else the column dialog opens.
pub open spec fn board_picked_ok(old: App, new: App, key: Seq<char>, index: int, has_columns: bool, back: ArchiveBack) -> bool {
    let b = old.boards@[index];
    &&& same_but_mode(new, old)
    &&& if !has_columns {
        new.mode == old.mode && new.status@ == "board '"@ + b.name@ + "' has no columns"@
    } else {
        &&& new.mode matches Mode::CardColumnMove { key: k, board_id, board_name, cursor, back: bk } && k@
            == key && board_id@ == b.id@ && board_name@ == b.name@ && cursor == 0 && bk == back
        &&& new.status == old.status
    }
}

/// Picking the column a card moves to among `cols` of the chosen board:
/// without columns it goes back; Esc, `q` and `M` go back; `b` goes back to
/// the board list; `j`/`k` move; Enter moves the card.
pub open spec fn card_column_move_key_ok(old: App, new: App, r: Action, key: Key, cols: Seq<Column>) -> bool {
    match old.mode {
        Mode::CardColumnMove { key: card, board_id, board_name, cursor, back } => {
            let c = held(cursor, cols.len());
            if cols.len() == 0 {
                returned_from_move(new.mode, card@, back) && new.status@ == "board '"@ + board_name@
                    + "' has no columns"@ && same_but_mode(new, old) && r is Nothing
            } else if key == Key::Esc || key == Key::Char('q') || key == Key::Char('M') {
                returned_from_move(new.mode, card@, back) && new.status == old.status && same_but_mode(new, old)
                    && r is Nothing
            } else if key == Key::Char('b') {
                &&& new.mode matches Mode::CardBoardMove { key: k, cursor: d, back: bk } && k@ == card@ && d
                    == 0 && bk == back
                &&& new.status == old.status && same_but_mode(new, old) && r is Nothing
            } else if list_step(c, cols.len(), key) is Some {
                &&& new.mode matches Mode::CardColumnMove { key: k, board_id: i, board_name: n, cursor: d, back: bk }
                    && k@ == card@ && i@ == board_id@ && n@ == board_name@ && d == list_step(c, cols.len(), key)->0
                    && bk == back
                &&& new.status == old.status && same_but_mode(new, old) && r is Nothing
            } else if key == Key::Enter {
                new == old && (r matches Action::MoveCardToBoard { key: k, board_id: i, board_name: n, column, from_backlog }
                    && k@ == card@ && i@ == board_id@ && n@ == board_name@ && column@ == cols[c as int].name@
                    && from_backlog == (old.board.slug@ == "backlog"@))
            } else {
                new == old && r is Nothing
            }
        },
        _ => new == old && r is Nothing,
    }
}

/// The archived board list (as just read): with none it closes; Esc and `q`
/// close it; `j`/`k` move; Enter restores the board; `d` asks to delete it.
pub open spec fn unarchive_key_ok(old: App, new: App, r: Action, key: Key, archived: Seq<BoardInfo>) -> bool {
    match old.mode {
        Mode::BoardUnarchive { cursor } => {
            let n = archived.len();
            let c = held(cursor, n);
            if n == 0 {
                new.mode is Normal && new.status@ == "no archived boards"@ && same_but_mode(new, old) && r is Nothing
            } else if key == Key::Esc || key == Key::Char('q') {
                new.mode is Normal && new.status == old.status && same_but_mode(new, old) && r is Nothing
            } else if list_step(c, n, key) is Some {
                new.mode == (Mode::BoardUnarchive { cursor: list_step(c, n, key)->0 }) && new.status
                    == old.status && same_but_mode(new, old) && r is Nothing
            } else if key == Key::Enter {
                new == old && r == (Action::UnarchiveBoard { index: c })
            } else if key == Key::Char('d') {
                &&& new.mode matches Mode::BoardDelete { board_id, board_name, confirm } && board_id@
                    == archived[c as int].id@ && board_name@ == archived[c as int].name@ && confirm@.len() == 0
                &&& new.status == old.status && same_but_mode(new, old) && r is Nothing
            } else {
                new == old && r is Nothing
            }
        },
        _ => new == old && r is Nothing,
    }
}

/// Deleting an archived board: Esc goes back to the archived list;
/// characters and Backspace edit the confirmation; Enter deletes once the
/// confirmation reads `delete`.
pub open spec fn board_delete_key_ok(old: App, new: App, r: Action, key: Key) -> bool {
    match old.mode {
        Mode::BoardDelete { board_id, board_name, confirm } => if key == Key::Esc {
            new.mode == (Mode::BoardUnarchive { cursor: 0 }) && new.status@ == "cancelled"@ && same_but_mode(
                new,
                old,
            ) && r is Nothing
        } else if key == Key::Backspace || key is Char {
            &&& new.mode matches Mode::BoardDelete { board_id: i, board_name: n, confirm: c } && i == board_id
                && n == board_name && c@ == (if key == Key::Backspace {
                if confirm@.len() == 0 {
                    confirm@
                } else {
                    confirm@.drop_last()
                }
            } else {
                confirm@.push(key->Char_0)
            })
            &&& new.status == old.status && same_but_mode(new, old) && r is Nothing
        } else if key == Key::Enter {
            if confirm@ != "delete"@ {
                new.mode == old.mode && new.status@ == "type `delete` to confirm"@ && same_but_mode(new, old)
                    && r is Nothing
            } else {
                new.mode is Normal && new.status == old.status && same_but_mode(new, old) && (r matches Action::DeleteBoard {
                    board_id: i,
                    board_name: n,
                } && i@ == board_id@ && n@ == board_name@)
            }
        } else {
            new == old && r is Nothing
        },
        _ => new == old && r is Nothing,
    }
}

impl App {
    /// The column manager's keys.
    pub fn on_columns_key(&mut self, key: Key) -> (r: Action)
        requires
            (key == Key::Down || key == Key::Char('j')) ==> old(self).col_cursor < usize::MAX,
        ensures
            columns_key_ok(*old(self), *final(self), r, key),
    {
        let n = self.columns.len();
        let cur = self.col_cursor;
        match key {
            Key::Esc | Key::Char('q') | Key::Char('c') => {
                self.mode = Mode::Normal;
                return Action::Nothing;
            },
            _ => {},
        }
        match list_cursor(cur, n, key) {
            Some(c) => {
                self.col_cursor = c;
                return Action::Nothing;
            },
            None => {},
        }
        match key {
            Key::Char('J') | Key::Char('K') => {
                if cur < n {
                    let dir: i32 = if key == Key::Char('J') {
                        1
                    } else {
                        -1
                    };
                    Action::ReorderColumn { id: self.columns[cur].id.clone(), dir }
                } else {
                    Action::Nothing
                }
            },
            Key::Char('a') | Key::Char('n') => {
                self.mode = Mode::Input { kind: InputKind::NewColumn, buffer: String::new() };
                Action::Nothing
            },
            Key::Char('r') => {
                if cur < n {
                    let id = self.columns[cur].id.clone();
                    let name = self.columns[cur].name.clone();
                    self.mode = Mode::Input { kind: InputKind::RenameColumn(id), buffer: name };
                }
                Action::Nothing
            },
            Key::Char('d') => {
                if n <= 1 {
                    self.status = owned("cannot delete the only column");
                } else if cur < n {
                    self.mode = Mode::ColumnDelete {
                        victim_id: self.columns[cur].id.clone(),
                        cursor: 0,
                    };
                }
                Action::Nothing
            },
            _ => Action::Nothing,
        }
    }

    /// The column deletion dialog's keys.
    pub fn on_column_delete_key(&mut self, key: Key) -> (r: Action)
        requires
            (key == Key::Down || key == Key::Char('j')) ==> (old(self).mode matches Mode::ColumnDelete {
                cursor,
                ..
            } ==> cursor < usize::MAX),
        ensures
            column_delete_key_ok(*old(self), *final(self), r, key),
    {
        let (victim, cursor) = match &self.mode {
            Mode::ColumnDelete { victim_id, cursor } => (victim_id.clone(), *cursor),
            _ => return Action::Nothing,
        };
        let dests = self.delete_destinations(victim.as_str());
        if key == Key::Esc {
            self.mode = Mode::ColumnManager;
            return Action::Nothing;
        }
        match list_cursor(cursor, dests.len(), key) {
            Some(c) => {
                self.mode = Mode::ColumnDelete { victim_id: victim, cursor: c };
                return Action::Nothing;
            },
            None => {},
        }
        if key == Key::Enter {
            self.mode = Mode::ColumnManager;
            if cursor < dests.len() {
                return Action::DeleteColumn {
                    victim_id: victim,
                    dest_id: dests[cursor].0.clone(),
                    dest_name: dests[cursor].1.clone(),
                };
            }
        }
        Action::Nothing
    }
}

impl App {
    /// The board archive prompt's keys.
    pub fn on_board_archive_key(&mut self, key: Key) -> (r: Action)
        ensures
            board_archive_key_ok(*old(self), *final(self), r, key),
    {
        let (id, name) = match &self.mode {
            Mode::BoardArchive { board_id, board_name } => (board_id.clone(), board_name.clone()),
            _ => return Action::Nothing,
        };
        match key {
            Key::Char('y') | Key::Char('Y') => Action::ArchiveBoard { board_id: id, board_name: name },
            Key::Char('n') | Key::Char('N') | Key::Esc => {
                self.mode = Mode::Normal;
                self.status = owned("cancelled");
                Action::Nothing
            },
            _ => Action::Nothing,
        }
    }

    /// The board list's keys, on the list as just read into `boards`.
    pub fn on_board_switcher_key(&mut self, key: Key) -> (r: Action)
        requires
            (key == Key::Down || key == Key::Char('j')) ==> old(self).boards.len() < usize::MAX,
        ensures
            board_switcher_key_ok(*old(self), *final(self), r, key),
    {
        let cursor = match &self.mode {
            Mode::BoardSwitcher { cursor } => *cursor,
            _ => return Action::Nothing,
        };
        let n = self.boards.len();
        if n == 0 {
            self.mode = Mode::Normal;
            self.status = owned("no boards");
            return Action::Nothing;
        }
        let c = hold(cursor, n);
        match key {
            Key::Esc | Key::Char('q') | Key::Char('b') => {
                self.mode = Mode::Normal;
                return Action::Nothing;
            },
            _ => {},
        }
        match list_cursor(c, n, key) {
            Some(d) => {
                self.mode = Mode::BoardSwitcher { cursor: d };
                Action::Nothing
            },
            None => match key {
                Key::Char('J') => Action::ReorderBoard { index: c, dir: 1 },
                Key::Char('K') => Action::ReorderBoard { index: c, dir: -1 },
                Key::Enter => Action::SwitchToBoard { index: c },
                _ => Action::Nothing,
            },
        }
    }

    /// The template picker's keys, among `count` templates.
    pub fn on_board_template_key(&mut self, key: Key, count: usize) -> (r: Action)
        requires
            count < usize::MAX,
            (key == Key::Down || key == Key::Char('j')) ==> count > 0,
        ensures
            template_key_ok(*old(self), *final(self), r, key, count as nat),
    {
        let (name, cursor) = match &self.mode {
            Mode::BoardTemplatePicker { name, cursor } => (name.clone(), *cursor),
            _ => return Action::Nothing,
        };
        let c = hold(cursor, count);
        match key {
            Key::Esc | Key::Char('q') => {
                self.mode = Mode::Normal;
                self.status = owned("cancelled");
                return Action::Nothing;
            },
            _ => {},
        }
        match list_cursor(c, count, key) {
            Some(d) => {
                self.mode = Mode::BoardTemplatePicker { name, cursor: d };
                Action::Nothing
            },
            None => match key {
                Key::Enter => Action::CreateBoard { name, template: c },
                _ => Action::Nothing,
            },
        }
    }

    /// The keys of the dialog that picks a card's new board, on the board
    /// list as just read into `boards`.
    pub fn on_card_board_move_key(&mut self, key: Key) -> (r: Action)
        requires
            old(self).boards.len() < usize::MAX,
        ensures
            card_board_move_key_ok(*old(self), *final(self), r, key),
    {
        let (card, cursor, back) = match &self.mode {
            Mode::CardBoardMove { key, cursor, back } => (key.clone(), *cursor, *back),
            _ => return Action::Nothing,
        };
        let dests = self.card_move_destinations();
        if dests.len() == 0 {
            self.return_from_card_board_move(card, back);
            self.status = owned("no other active boards");
            return Action::Nothing;
        }
        let c = hold(cursor, dests.len());
        match key {
            Key::Esc | Key::Char('q') | Key::Char('M') => {
                self.return_from_card_board_move(card, back);
                return Action::Nothing;
            },
            _ => {},
        }
        match list_cursor(c, dests.len(), key) {
            Some(d) => {
                self.mode = Mode::CardBoardMove { key: card, cursor: d, back };
                Action::Nothing
            },
            None => match key {
                Key::Enter => Action::PickBoardForCard { key: card, index: dests[c], back },
                _ => Action::Nothing,
            },
        }
    }

    /// Opens the column dialog for moving card `key` to the board at `index`,
    /// once its columns are read; says so when it has none.
    pub fn card_board_picked(&mut self, key: String, index: usize, has_columns: bool, back: ArchiveBack)
        requires
            index < old(self).boards.len(),
        ensures
            board_picked_ok(*old(self), *final(self), key@, index as int, has_columns, back),
    {
        if !has_columns {
            self.status = owned("board '").concat(self.boards[index].name.as_str()).concat(
                "' has no columns",
            );
            return ;
        }
        self.mode = Mode::CardColumnMove {
            key,
            board_id: self.boards[index].id.clone(),
            board_name: self.boards[index].name.clone(),
            cursor: 0,
            back,
        };
    }

    /// The keys of the dialog that picks a card's new column among `cols`,
    /// the columns of the chosen board as just read.
    pub fn on_card_column_move_key(&mut self, key: Key, cols: &Vec<Column>) -> (r: Action)
        requires
            cols.len() < usize::MAX,
        ensures
            card_column_move_key_ok(*old(self), *final(self), r, key, cols@),
    {
        let (card, board_id, board_name, cursor, back) = match &self.mode {
            Mode::CardColumnMove { key, board_id, board_name, cursor, back } => (
                key.clone(),
                board_id.clone(),
                board_name.clone(),
                *cursor,
                *back,
            ),
            _ => return Action::Nothing,
        };
        if cols.len() == 0 {
            self.return_from_card_board_move(card, back);
            self.status = owned("board '").concat(board_name.as_str()).concat("' has no columns");
            return Action::Nothing;
        }
        let c = hold(cursor, cols.len());
        match key {
            Key::Esc | Key::Char('q') | Key::Char('M') => {
                self.return_from_card_board_move(card, back);
                return Action::Nothing;
            },
            Key::Char('b') => {
                self.mode = Mode::CardBoardMove { key: card, cursor: 0, back };
                return Action::Nothing;
            },
            _ => {},
        }
        match list_cursor(c, cols.len(), key) {
            Some(d) => {
                self.mode = Mode::CardColumnMove { key: card, board_id, board_name, cursor: d, back };
                Action::Nothing
            },
            None => match key {
                Key::Enter => Action::MoveCardToBoard {
                    key: card,
                    board_id,
                    board_name,
                    column: cols[c].name.clone(),
                    from_backlog: str_eq(self.board.slug.as_str(), "backlog"),
                },
                _ => Action::Nothing,
            },
        }
    }

    /// The archived board list's keys, on `archived`, the list as just read.
    pub fn on_board_unarchive_key(&mut self, key: Key, archived: &Vec<BoardInfo>) -> (r: Action)
        requires
            archived.len() < usize::MAX,
        ensures
            unarchive_key_ok(*old(self), *final(self), r, key, archived@),
    {
        let cursor = match &self.mode {
            Mode::BoardUnarchive { cursor } => *cursor,
            _ => return Action::Nothing,
        };
        let n = archived.len();
        if n == 0 {
            self.mode = Mode::Normal;
            self.status = owned("no archived boards");
            return Action::Nothing;
        }
        let c = hold(cursor, n);
        match key {
            Key::Esc | Key::Char('q') => {
                self.mode = Mode::Normal;
                return Action::Nothing;
            },
            _ => {},
        }
        match list_cursor(c, n, key) {
            Some(d) => {
                self.mode = Mode::BoardUnarchive { cursor: d };
                Action::Nothing
            },
            None => match key {
                Key::Enter => Action::UnarchiveBoard { index: c },
                Key::Char('d') => {
                    self.mode = Mode::BoardDelete {
                        board_id: archived[c].id.clone(),
                        board_name: archived[c].name.clone(),
                        confirm: String::new(),
                    };
                    Action::Nothing
                },
                _ => Action::Nothing,
            },
        }
    }

    /// The board deletion prompt's keys.
    pub fn on_board_delete_key(&mut self, key: Key) -> (r: Action)
        ensures
            board_delete_key_ok(*old(self), *final(self), r, key),
    {
        let (id, name, ok) = match &self.mode {
            Mode::BoardDelete { board_id, board_name, confirm } => (
                board_id.clone(),
                board_name.clone(),
                str_eq(confirm.as_str(), "delete"),
            ),
            _ => return Action::Nothing,
        };
        match key {
            Key::Esc => {
                self.mode = Mode::BoardUnarchive { cursor: 0 };
                self.status = owned("cancelled");
                Action::Nothing
            },
            Key::Backspace => {
                match &mut self.mode {
                    Mode::BoardDelete { confirm, .. } => {
                        string_pop(confirm);
                    },
                    _ => {},
                }
                Action::Nothing
            },
            Key::Char(ch) => {
                match &mut self.mode {
                    Mode::BoardDelete { confirm, .. } => {
                        string_push(confirm, ch);
                    },
                    _ => {},
                }
                Action::Nothing
            },
            Key::Enter => {
                if !ok {
                    self.status = owned("type `delete` to confirm");
                    return Action::Nothing;
                }
                self.mode = Mode::Normal;
                Action::DeleteBoard { board_id: id, board_name: name }
            },
            _ => Action::Nothing,
        }
    }
}

} // verus!

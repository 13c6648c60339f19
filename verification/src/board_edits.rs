//! Card and board edits of the board application that wait on the store:
//! what each asks the store for, and how the screen takes the answer.
use vstd::prelude::*;
use crate::board_app::{App, BoardInfo, Mode, key_index, key_location};
use crate::board_keys::Key;
use crate::board_nav::{board_pos, find_board, same_but_mode};
use crate::text::{owned, str_eq};

verus! {

/// The card store's three priority levels.
#[derive(Clone, Copy, Debug)]
pub struct PriorityLevels {
    pub low: i64,
    pub normal: i64,
    pub high: i64,
}

/// The priority after `p` when cycling: low to normal, normal to high, and
/// anything else back to low.
pub open spec fn next_priority_spec(p: i64, lv: PriorityLevels) -> i64 {
    if p == lv.low {
        lv.normal
    } else if p == lv.normal {
        lv.high
    } else {
        lv.low
    }
}

/// The priority after `p` when cycling.
pub fn next_priority(p: i64, lv: PriorityLevels) -> (r: i64)
    ensures
        r == next_priority_spec(p, lv),
{
    if p == lv.low {
        lv.normal
    } else if p == lv.normal {
        lv.high
    } else {
        lv.low
    }
}

/// Everything but the focus, the cursors and the status line is unchanged.
pub open spec fn same_view(a: App, b: App) -> bool {
    &&& a.board == b.board
    &&& a.boards == b.boards
    &&& a.columns == b.columns
    &&& a.cards == b.cards
    &&& a.labels == b.labels
    &&& a.col_cursor == b.col_cursor
    &&& a.filter == b.filter
    &&& a.should_quit == b.should_quit
    &&& a.mode == b.mode
}

/// Cycling a card's priority three times from any of three distinct levels
/// brings it back to where it started; from any other value the first step
/// goes to the lowest level.
pub proof fn priority_cycle_returns(p: i64, lv: PriorityLevels)
    requires
        lv.low != lv.normal && lv.normal != lv.high && lv.low != lv.high,
    ensures
        (p == lv.low || p == lv.normal || p == lv.high) ==> next_priority_spec(
            next_priority_spec(next_priority_spec(p, lv), lv),
            lv,
        ) == p,
        !(p == lv.low || p == lv.normal || p == lv.high) ==> next_priority_spec(p, lv) == lv.low,
{
}

/// The card an undo restored: its key and its board.
#[derive(Debug)]
pub struct UndoneCard {
    pub key: String,
    pub board_id: String,
}

/// What the screen does after an undo.
#[derive(Debug, PartialEq, Eq)]
pub enum UndoStep {
    /// Nothing was undone.
    Nothing,
    /// Read the board again, show the listed board at `board` when the
    /// restored card lives there, then select card `key`.
    Reload { key: String, board: Option<usize> },
}

/// How a body edit ended at the store.
#[derive(Clone, Copy, Debug, PartialEq, Eq, Structural)]
pub enum BodySave {
    Saved,
    /// The card changed meanwhile; the edit was refused.
    Stale,
}

/// What a key does in the body editor.
#[derive(Debug, PartialEq, Eq)]
pub enum BodyKey {
    Nothing,
    /// Save the edited body.
    Commit,
    Newline,
    Backspace,
    Left,
    Right,
    Up,
    Down,
    Insert(char),
}

impl App {
    /// The priority that cycling gives card `key`, if the board has it.
    pub fn cycle_priority_key(&self, key: &str, levels: PriorityLevels) -> (r: Option<i64>)
        ensures
            match key_index(self.cards@, key@) {
                Some(i) => r == Some(next_priority_spec(self.cards@[i].priority, levels)),
                None => r is None,
            },
    {
        match self.card_by_key(key) {
            Some(i) => Some(next_priority(self.cards[i].priority, levels)),
            None => None,
        }
    }

    /// Takes the store's answer to an undo: with nothing undone the status
    /// says so; otherwise the board is read again and, when the restored card
    /// lives on another listed board, that board is shown.
    pub fn undo_last_card_update(&mut self, undone: Option<UndoneCard>) -> (r: UndoStep)
        ensures
            match undone {
                None => r == UndoStep::Nothing && final(self).status@ == "nothing to undo"@
                    && same_but_mode(*final(self), *old(self)) && final(self).mode == old(self).mode,
                Some(c) => *final(self) == *old(self) && r == UndoStep::Reload {
                    key: c.key,
                    board: if c.board_id@ != old(self).board.id@ {
                        match board_pos(old(self).boards@, c.board_id@) {
                            Some(i) => Some(i as usize),
                            None => None,
                        }
                    } else {
                        None
                    },
                },
            },
    {
        match undone {
            None => {
                self.status = owned("nothing to undo");
                UndoStep::Nothing
            },
            Some(c) => {
                let board = if str_eq(c.board_id.as_str(), self.board.id.as_str()) {
                    None
                } else {
                    find_board(&self.boards, c.board_id.as_str())
                };
                UndoStep::Reload { key: c.key, board }
            },
        }
    }

    /// After the undone card's board was read again: selects the card and
    /// says what was undone.
    pub fn finish_undo(&mut self, key: &str)
        requires
            old(self).columns.len() <= old(self).cursors.len(),
        ensures
            final(self).status@ == "undid last update on "@ + key@,
            same_view(*final(self), *old(self)),
            match key_location(*old(self), key@, old(self).columns@.len() as int) {
                Some((col, pos)) => final(self).focus == col && final(self).cursors@
                    == old(self).cursors@.update(col, pos as usize),
                None => final(self).focus == old(self).focus && final(self).cursors
                    == old(self).cursors,
            },
    {
        self.select_key(key);
        self.status = owned("undid last update on ").concat(key);
    }

    /// Takes the board list read again after the board at `index` moved:
    /// the switcher follows the moved board, and the status names it.
    pub fn reorder_board_from_switcher(&mut self, index: usize, boards: Vec<BoardInfo>)
        requires
            index < old(self).boards.len(),
        ensures
            final(self).boards == boards,
            final(self).status@ == "reordered board '"@ + old(self).boards@[index as int].name@
                + "'"@,
            final(self).mode == match board_pos(boards@, old(self).boards@[index as int].id@) {
                Some(p) => Mode::BoardSwitcher { cursor: p as usize },
                None => old(self).mode,
            },
            final(self).board == old(self).board && final(self).columns == old(self).columns,
            final(self).cards == old(self).cards && final(self).labels == old(self).labels,
            final(self).focus == old(self).focus && final(self).cursors == old(self).cursors,
            final(self).col_cursor == old(self).col_cursor && final(self).filter == old(self).filter,
            final(self).should_quit == old(self).should_quit,
    {
        let id = self.boards[index].id.clone();
        let name = self.boards[index].name.clone();
        self.boards = boards;
        match find_board(&self.boards, id.as_str()) {
            Some(p) => {
                self.mode = Mode::BoardSwitcher { cursor: p };
            },
            None => {},
        }
        self.status = owned("reordered board '").concat(name.as_str()).concat("'");
    }

    /// The card whose body is being edited and the update time the edit
    /// started from, in the body editor.
    pub fn commit_body(&self) -> (r: Option<(String, i64)>)
        ensures
            match self.mode {
                Mode::BodyEdit { key, expected_updated_at } => r == Some((key, expected_updated_at)),
                _ => r is None,
            },
    {
        match &self.mode {
            Mode::BodyEdit { key, expected_updated_at } => Some((key.clone(), *expected_updated_at)),
            _ => None,
        }
    }

    /// After the body of card `key` was saved or refused: the status says
    /// which, and the detail view of the card opens.
    pub fn body_saved(&mut self, key: String, outcome: BodySave)
        ensures
            final(self).status@ == match outcome {
                BodySave::Saved => "saved body of "@ + key@,
                BodySave::Stale => "stale body edit on "@ + key@ + "; reloaded latest card"@,
            },
            final(self).mode == (Mode::Detail { key, scroll: 0 }),
            same_but_mode(*final(self), *old(self)),
    {
        self.status = match outcome {
            BodySave::Saved => owned("saved body of ").concat(key.as_str()),
            BodySave::Stale => owned("stale body edit on ").concat(key.as_str()).concat(
                "; reloaded latest card",
            ),
        };
        self.mode = Mode::Detail { key, scroll: 0 };
    }

    /// The body editor: Esc goes back to the card's detail view, Ctrl-s
    /// saves, and the other keys edit the text.
    pub fn on_body_key(&mut self, key: Key, ctrl: bool) -> (r: BodyKey)
        ensures
            r == match key {
                Key::Esc => BodyKey::Nothing,
                _ => body_key_spec(key, ctrl),
            },
            !(key is Esc && old(self).mode is BodyEdit) ==> *final(self) == *old(self),
            key is Esc && old(self).mode is BodyEdit ==> {
                &&& same_but_mode(*final(self), *old(self))
                &&& final(self).status == old(self).status
                &&& final(self).mode matches Mode::Detail { key: k2, scroll }
                &&& k2@ == old(self).mode->BodyEdit_key@
                &&& scroll == 0
            },
    {
        match key {
            Key::Esc => {
                if let Mode::BodyEdit { key: k, .. } = &self.mode {
                    let k2 = k.clone();
                    self.mode = Mode::Detail { key: k2, scroll: 0 };
                }
                BodyKey::Nothing
            },
            Key::Enter => BodyKey::Newline,
            Key::Backspace => BodyKey::Backspace,
            Key::Left => BodyKey::Left,
            Key::Right => BodyKey::Right,
            Key::Up => BodyKey::Up,
            Key::Down => BodyKey::Down,
            Key::Char(c) => {
                if c == 's' && ctrl {
                    BodyKey::Commit
                } else {
                    BodyKey::Insert(c)
                }
            },
            _ => BodyKey::Nothing,
        }
    }
}

/// What a key other than Esc does in the body editor.
pub open spec fn body_key_spec(key: Key, ctrl: bool) -> BodyKey {
    match key {
        Key::Char(c) => if c == 's' && ctrl {
            BodyKey::Commit
        } else {
            BodyKey::Insert(c)
        },
        Key::Enter => BodyKey::Newline,
        Key::Backspace => BodyKey::Backspace,
        Key::Left => BodyKey::Left,
        Key::Right => BodyKey::Right,
        Key::Up => BodyKey::Up,
        Key::Down => BodyKey::Down,
        _ => BodyKey::Nothing,
    }
}

} // verus!

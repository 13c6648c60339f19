//! What a key press does on each screen of the board application. Work that
//! needs the store comes back as an `Action` for the front end to carry out.
use vstd::prelude::*;
use crate::board_app::{App, ArchiveBack, InputKind, Mode, column_indices, key_index, selected_index};
use crate::board_jump::human_jump_ok;
use crate::board_nav::{
    archive_selected_ok, board_move_opened_ok, board_pos, cursor_delta_ok, cursor_delta_ready,
    focus_delta_ok, focus_delta_ready, input_return, is_detail_of, is_title_prompt,
    move_targets_spec, same_but_mode, title_started_ok,
};
use crate::card::Card;
use crate::text::{owned, string_pop, string_push};

verus! {

/// A key press, as the screens read it.
#[derive(Clone, Copy, Debug, PartialEq, Eq, Structural)]
pub enum Key {
    Char(char),
    Enter,
    Esc,
    Backspace,
    Tab,
    BackTab,
    Up,
    Down,
    Left,
    Right,
    PageUp,
    PageDown,
    Home,
    End,
    Other,
}

/// Work that a key press asks of the store or of the terminal front end.
#[derive(Debug)]
pub enum Action {
    Nothing,
    /// Commit the open text prompt.
    Commit,
    MoveCard { key: String, column: String },
    ReorderCard { key: String, dir: i32 },
    CycleBoard,
    UndoLast,
    CyclePriority { key: String },
    /// Read the work state of the cards, then jump to the next work.
    NextWork,
    /// Open the archived board list, if there are archived boards.
    ShowArchivedBoards,
    Reload,
    /// Open the due date prompt with the card's due date written out.
    EditDue { key: String, expected_updated_at: i64, due_date: Option<i64> },
    /// Start the body editor on the card's body.
    EditBody { key: String, body: String },
    OpenLabelPicker { key: String },
    ArchiveCard { key: String },
    ReorderColumn { id: String, dir: i32 },
    DeleteColumn { victim_id: String, dest_id: String, dest_name: String },
    ArchiveBoard { board_id: String, board_name: String },
    /// Move the board at this index of the board list.
    ReorderBoard { index: usize, dir: i32 },
    /// Show the board at this index of the board list.
    SwitchToBoard { index: usize },
    CreateBoard { name: String, template: usize },
    /// Read the columns of the board at this index, to move card `key` there.
    PickBoardForCard { key: String, index: usize, back: ArchiveBack },
    MoveCardToBoard {
        key: String,
        board_id: String,
        board_name: String,
        column: String,
        from_backlog: bool,
    },
    /// Restore the archived board at this index of the archived list.
    UnarchiveBoard { index: usize },
    DeleteBoard { board_id: String, board_name: String },
    /// Put label `name` on card `key`, or take it off when `on` it is.
    ToggleLabel { key: String, name: String, on: bool },
    /// Put the typed label `name` on card `key` unless it is there already.
    AddLabel { key: String, name: String, present: bool },
}

/// Both modes are the same screen, scrolled to `scroll`: `Some` for the
/// scroll keys, which move by one or ten lines, or to the top or bottom.
pub open spec fn scroll_spec(scroll: u16, key: Key) -> Option<u16> {
    match key {
        Key::Down | Key::Char('j') => Some(
            if scroll == u16::MAX {
                u16::MAX
            } else {
                (scroll + 1) as u16
            },
        ),
        Key::Up | Key::Char('k') => Some(
            if scroll == 0 {
                0
            } else {
                (scroll - 1) as u16
            },
        ),
        Key::PageDown => Some(
            if scroll > u16::MAX - 10 {
                u16::MAX
            } else {
                (scroll + 10) as u16
            },
        ),
        Key::PageUp => Some(
            if scroll < 10 {
                0
            } else {
                (scroll - 10) as u16
            },
        ),
        Key::Home => Some(0),
        Key::End => Some(u16::MAX),
        _ => None,
    }
}

/// The new scroll position for a scroll key.
pub fn scroll_key(scroll: u16, key: Key) -> (r: Option<u16>)
    ensures
        r == scroll_spec(scroll, key),
{
    match key {
        Key::Down | Key::Char('j') => Some(scroll.saturating_add(1)),
        Key::Up | Key::Char('k') => Some(scroll.saturating_sub(1)),
        Key::PageDown => Some(scroll.saturating_add(10)),
        Key::PageUp => Some(scroll.saturating_sub(10)),
        Key::Home => Some(0),
        Key::End => Some(u16::MAX),
        _ => None,
    }
}

/// The text of a prompt after Backspace: one character shorter, if any.
pub open spec fn popped(s: Seq<char>) -> Seq<char> {
    if s.len() == 0 {
        s
    } else {
        s.drop_last()
    }
}

/// `new` is the prompt `old` with its text replaced by `f(text)`.
pub open spec fn prompt_edited(old: Mode, new: Mode, text: Seq<char>) -> bool {
    match (old, new) {
        (Mode::Input { kind: k1, .. }, Mode::Input { kind: k2, buffer: b2 }) => k1 == k2 && b2@
            == text,
        _ => false,
    }
}

/// The text of the open prompt.
pub open spec fn prompt_text(m: Mode) -> Seq<char> {
    match m {
        Mode::Input { buffer, .. } => buffer@,
        _ => Seq::empty(),
    }
}


/// The assignee prompt of card `c`, filled with its assignee.
pub open spec fn is_assignee_prompt(m: Mode, c: Card) -> bool {
    match m {
        Mode::Input { kind: InputKind::EditAssignee { key, expected_updated_at }, buffer } => key@
            == c.key@ && expected_updated_at == c.updated_at && buffer@ == match c.assignee {
            Some(a) => a@,
            None => Seq::<char>::empty(),
        },
        _ => false,
    }
}

/// The completion prompt of card `c`, empty.
pub open spec fn is_complete_prompt(m: Mode, c: Card) -> bool {
    match m {
        Mode::Input { kind: InputKind::CompleteWithNote { key, expected_updated_at }, buffer } => key@
            == c.key@ && expected_updated_at == c.updated_at && buffer@.len() == 0,
        _ => false,
    }
}

/// What a key does on the detail view of card `card` (when the card exists,
/// `c` is it).
pub open spec fn detail_key_ok(old: App, new: App, r: Action, card: Seq<char>, scroll: u16, key: Key) -> bool {
    let found = key_index(old.cards@, card);
    let c = old.cards@[found->0];
    match scroll_spec(scroll, key) {
        Some(s) => new.mode matches Mode::Detail { key: k, scroll: t } && k@ == card && t == s && r is Nothing
            && new.status == old.status,
        None => if key == Key::Esc || key == Key::Char('q') {
            new.mode is Normal && r is Nothing && new.status == old.status
        } else if key == Key::Char('e') {
            r is Nothing && new.status == old.status && if found is Some {
                is_title_prompt(new.mode, c)
            } else {
                new.mode == old.mode
            }
        } else if key == Key::Char('b') {
            new.status == old.status && if found is Some {
                &&& new.mode matches Mode::BodyEdit { key: k, expected_updated_at: at } && k@ == card
                    && at == c.updated_at
                &&& r matches Action::EditBody { key: k, body } && k@ == card && body@ == c.body@
            } else {
                new.mode == old.mode && r is Nothing
            }
        } else if key == Key::Char('a') {
            r is Nothing && new.status == old.status && if found is Some {
                is_assignee_prompt(new.mode, c)
            } else {
                new.mode == old.mode
            }
        } else if key == Key::Char('D') {
            new.mode == old.mode && new.status == old.status && if found is Some {
                r matches Action::EditDue { key: k, expected_updated_at: at, due_date: d } && k@ == card
                    && at == c.updated_at && d == c.due_date
            } else {
                r is Nothing
            }
        } else if key == Key::Char('t') {
            new.mode == old.mode && new.status == old.status && (r matches Action::OpenLabelPicker { key: k } && k@ == card)
        } else if key == Key::Char('p') {
            new.mode == old.mode && new.status == old.status && (r matches Action::CyclePriority { key: k } && k@ == card)
        } else if key == Key::Char('d') {
            r is Nothing && new.status@ == "archive? y/n"@ && (new.mode matches Mode::ArchiveConfirm { key: k, back } && k@ == card && back == ArchiveBack::Detail)
        } else if key == Key::Char('x') {
            r is Nothing && new.status == old.status && if found is Some {
                is_complete_prompt(new.mode, c)
            } else {
                new.mode == old.mode
            }
        } else if key == Key::Char('m') {
            r is Nothing && new.status == old.status && (new.mode matches Mode::AgentMetadata { key: k, scroll: t } && k@ == card && t == 0)
        } else if key == Key::Char('M') {
            r is Nothing && if move_targets_spec(old.boards@, old.board.id@).len() == 0 {
                new.status@ == "no other active boards"@ && new.mode == old.mode
            } else {
                new.status == old.status && (new.mode matches Mode::CardBoardMove { key: k, cursor, back } && k@ == card && cursor == 0 && back == ArchiveBack::Detail)
            }
        } else {
            new.mode == old.mode && r is Nothing && new.status == old.status
        },
    }
}


/// The slug of the Backlog board, which keeps exactly one column and cannot
/// be archived.
pub open spec fn backlog_slug() -> Seq<char> {
    "backlog"@
}

/// Moving the selected card `delta` columns: the card's key and the name of
/// the column it goes to, when that column exists and a card is selected.
pub open spec fn move_target(app: App, delta: i32) -> Option<(Seq<char>, Seq<char>)> {
    let t = app.focus + delta;
    if t < 0 || t >= app.columns@.len() {
        None
    } else {
        match selected_index(app) {
            Some(i) => Some((app.cards@[i as int].key@, app.columns@[t].name@)),
            None => None,
        }
    }
}

/// The action moves the selected card as `move_target` says, or does nothing.
pub open spec fn move_action_ok(app: App, delta: i32, r: Action) -> bool {
    match move_target(app, delta) {
        Some((k, c)) => r matches Action::MoveCard { key, column } && key@ == k && column@ == c,
        None => r is Nothing,
    }
}

/// The action reorders the selected card by `dir`, or does nothing.
pub open spec fn reorder_action_ok(app: App, dir: i32, r: Action) -> bool {
    match selected_index(app) {
        Some(i) => r matches Action::ReorderCard { key, dir: d } && key@ == app.cards@[i as int].key@
            && d == dir,
        None => r is Nothing,
    }
}

/// The keys of the board screen that read the selected card.
pub open spec fn reads_selection(key: Key) -> bool {
    key == Key::Char('H') || key == Key::Char('L') || key == Key::Char('J') || key == Key::Char('K')
        || key == Key::Enter || key == Key::Char('e') || key == Key::Char('p') || key == Key::Char('M')
        || key == Key::Char('d')
}

/// What the board screen needs for a key not to overflow or read past its
/// lists.
pub open spec fn normal_key_ready(app: App, key: Key) -> bool {
    &&& reads_selection(key) ==> app.focus < app.columns.len() && app.focus < app.cursors.len()
    &&& (key == Key::Char('H') || key == Key::Char('L')) ==> app.columns.len() <= i32::MAX && app.focus
        < i32::MAX
    &&& (key == Key::Char('h') || key == Key::Left) ==> focus_delta_ready(app, -1i32)
    &&& (key == Key::Char('l') || key == Key::Right) ==> focus_delta_ready(app, 1i32)
    &&& (key == Key::Char('j') || key == Key::Down) ==> cursor_delta_ready(app, 1i32)
    &&& (key == Key::Char('k') || key == Key::Up) ==> cursor_delta_ready(app, -1i32)
    &&& key == Key::Char('v') ==> app.columns.len() <= app.cursors.len()
}

/// Only the mode and the status line changed, and the action is `r`.
pub open spec fn moded(old: App, new: App, r: Action) -> bool {
    same_but_mode(new, old) && r is Nothing
}

/// The prompt of the given kind opened with `text`.
pub open spec fn opened_prompt(new: App, old: App, kind: InputKind, text: Seq<char>) -> bool {
    &&& new.mode matches Mode::Input { kind: k, buffer } && k == kind && buffer@ == text
    &&& new.status == old.status
}

/// What a key does on the board screen.
pub open spec fn normal_key_ok(old: App, new: App, r: Action, key: Key) -> bool {
    let sel = selected_index(old);
    if key == Key::Char('q') || key == Key::Esc {
        &&& new.should_quit
        &&& new.mode == old.mode && new.status == old.status
        &&& new.focus == old.focus && new.cursors == old.cursors && new.col_cursor == old.col_cursor
        &&& new.board == old.board && new.boards == old.boards && new.columns == old.columns
        &&& new.cards == old.cards && new.labels == old.labels && new.filter == old.filter
        &&& r is Nothing
    } else if key == Key::Char('H') {
        new == old && move_action_ok(old, -1i32, r)
    } else if key == Key::Char('L') {
        new == old && move_action_ok(old, 1i32, r)
    } else if key == Key::Char('J') {
        new == old && reorder_action_ok(old, 1i32, r)
    } else if key == Key::Char('K') {
        new == old && reorder_action_ok(old, -1i32, r)
    } else if key == Key::Char('h') || key == Key::Left {
        focus_delta_ok(old, new, -1i32) && r is Nothing
    } else if key == Key::Char('l') || key == Key::Right {
        focus_delta_ok(old, new, 1i32) && r is Nothing
    } else if key == Key::Char('j') || key == Key::Down {
        cursor_delta_ok(old, new, 1i32) && r is Nothing
    } else if key == Key::Char('k') || key == Key::Up {
        cursor_delta_ok(old, new, -1i32) && r is Nothing
    } else if key == Key::Enter {
        &&& moded(old, new, r)
        &&& new.status == old.status
        &&& match sel {
            Some(i) => is_detail_of(new.mode, old.cards@[i as int].key@),
            None => new.mode == old.mode,
        }
    } else if key == Key::Char('n') {
        moded(old, new, r) && opened_prompt(new, old, InputKind::NewCard, Seq::empty())
    } else if key == Key::Char('N') {
        moded(old, new, r) && opened_prompt(new, old, InputKind::NewBoard, Seq::empty())
    } else if key == Key::Tab || key == Key::BackTab {
        new == old && r is CycleBoard
    } else if key == Key::Char('b') {
        &&& moded(old, new, r)
        &&& new.status == old.status
        &&& new.mode == (Mode::BoardSwitcher {
            cursor: match board_pos(old.boards@, old.board.id@) {
                Some(i) => i as usize,
                None => 0,
            },
        })
    } else if key == Key::Char('i') {
        moded(old, new, r) && opened_prompt(
            new,
            old,
            InputKind::EditBoardContext,
            match old.board.agent_context {
                Some(a) => a@,
                None => Seq::empty(),
            },
        )
    } else if key == Key::Char('c') {
        &&& r is Nothing
        &&& if old.board.slug@ == backlog_slug() {
            &&& new.status@ == "Backlog board has exactly one Backlog column"@
            &&& same_but_mode(new, old) && new.mode == old.mode
        } else {
            &&& new.mode is ColumnManager
            &&& new.status == old.status
            &&& new.col_cursor == (if old.columns.len() == 0 {
                0
            } else if old.focus < old.columns.len() - 1 {
                old.focus as int
            } else {
                old.columns.len() - 1
            })
            &&& new.board == old.board && new.boards == old.boards && new.columns == old.columns
            &&& new.cards == old.cards && new.labels == old.labels && new.filter == old.filter
            &&& new.focus == old.focus && new.cursors == old.cursors && new.should_quit == old.should_quit
        }
    } else if key == Key::Char('e') {
        title_started_ok(old, new) && r is Nothing
    } else if key == Key::Char('/') {
        moded(old, new, r) && opened_prompt(
            new,
            old,
            InputKind::Filter,
            match old.filter {
                Some(f) => f@,
                None => Seq::empty(),
            },
        )
    } else if key == Key::Char('v') {
        human_jump_ok(old, new) && r is Nothing
    } else if key == Key::Char('w') {
        new == old && r is NextWork
    } else if key == Key::Char('g') {
        moded(old, new, r) && new.status == old.status && new.mode == (Mode::DependencyGraph { scroll: 0 })
    } else if key == Key::Char('p') {
        &&& new == old
        &&& match sel {
            Some(i) => r matches Action::CyclePriority { key: k } && k@ == old.cards@[i as int].key@,
            None => r is Nothing,
        }
    } else if key == Key::Char('u') {
        new == old && r is UndoLast
    } else if key == Key::Char('M') {
        &&& r is Nothing
        &&& match sel {
            Some(i) => board_move_opened_ok(old, new, old.cards@[i as int].key@, ArchiveBack::Normal),
            None => new == old,
        }
    } else if key == Key::Char('d') {
        archive_selected_ok(old, new) && r is Nothing
    } else if key == Key::Char('D') {
        &&& moded(old, new, r)
        &&& if old.board.slug@ == backlog_slug() {
            new.status@ == "cannot archive the Backlog board"@ && new.mode == old.mode
        } else {
            &&& new.status == old.status
            &&& new.mode matches Mode::BoardArchive { board_id, board_name } && board_id@ == old.board.id@
                && board_name@ == old.board.name@
        }
    } else if key == Key::Char('m') {
        moded(old, new, r) && new.status == old.status && new.mode == (Mode::MemoryBrowser { cursor: 0 })
    } else if key == Key::Char('U') {
        new == old && r is ShowArchivedBoards
    } else if key == Key::Char('r') {
        same_but_mode(new, old) && new.mode == old.mode && new.status@ == "reloaded"@ && r is Reload
    } else {
        new == old && r is Nothing
    }
}

impl App {
    /// The dependency graph screen: scroll keys scroll it; Esc, `q` and `g`
    /// close it.
    pub fn on_dependency_graph_key(&mut self, key: Key)
        ensures
            match old(self).mode {
                Mode::DependencyGraph { scroll } => match scroll_spec(scroll, key) {
                    Some(s) => final(self).mode == (Mode::DependencyGraph { scroll: s }),
                    None => if key == Key::Esc || key == Key::Char('q') || key == Key::Char('g') {
                        final(self).mode is Normal
                    } else {
                        final(self).mode == old(self).mode
                    },
                },
                _ => final(self).mode == old(self).mode,
            },
            same_but_mode(*final(self), *old(self)),
            final(self).status == old(self).status,
    {
        let scroll = match &self.mode {
            Mode::DependencyGraph { scroll } => *scroll,
            _ => return ,
        };
        match scroll_key(scroll, key) {
            Some(s) => {
                self.mode = Mode::DependencyGraph { scroll: s };
            },
            None => match key {
                Key::Esc | Key::Char('q') | Key::Char('g') => {
                    self.mode = Mode::Normal;
                },
                _ => {},
            },
        }
    }

    /// The agent metadata screen of a card: scroll keys scroll it; Esc, `q`
    /// and `m` go back to the card.
    pub fn on_agent_metadata_key(&mut self, key: Key)
        ensures
            match old(self).mode {
                Mode::AgentMetadata { key: card, scroll } => match scroll_spec(scroll, key) {
                    Some(s) => final(self).mode matches Mode::AgentMetadata { key: k, scroll: t }
                        && k@ == card@ && t == s,
                    None => if key == Key::Esc || key == Key::Char('q') || key == Key::Char('m') {
                        is_detail_of(final(self).mode, card@)
                    } else {
                        final(self).mode == old(self).mode
                    },
                },
                _ => final(self).mode == old(self).mode,
            },
            same_but_mode(*final(self), *old(self)),
            final(self).status == old(self).status,
    {
        let (card, scroll) = match &self.mode {
            Mode::AgentMetadata { key, scroll } => (key.clone(), *scroll),
            _ => return ,
        };
        match scroll_key(scroll, key) {
            Some(s) => {
                self.mode = Mode::AgentMetadata { key: card, scroll: s };
            },
            None => match key {
                Key::Esc | Key::Char('q') | Key::Char('m') => {
                    self.mode = Mode::Detail { key: card, scroll: 0 };
                },
                _ => {},
            },
        }
    }

    /// A text prompt: Esc leaves it, Enter asks to commit it, Backspace and
    /// characters edit its text.
    pub fn on_input_key(&mut self, key: Key) -> (r: Action)
        ensures
            match key {
                Key::Esc => {
                    &&& input_return(*old(self), final(self).mode)
                    &&& r is Nothing
                },
                Key::Enter => {
                    &&& final(self).mode == old(self).mode
                    &&& r is Commit
                },
                Key::Backspace => {
                    &&& if old(self).mode is Input {
                        prompt_edited(old(self).mode, final(self).mode, popped(prompt_text(old(self).mode)))
                    } else {
                        final(self).mode == old(self).mode
                    }
                    &&& r is Nothing
                },
                Key::Char(c) => {
                    &&& if old(self).mode is Input {
                        prompt_edited(old(self).mode, final(self).mode, prompt_text(old(self).mode).push(c))
                    } else {
                        final(self).mode == old(self).mode
                    }
                    &&& r is Nothing
                },
                _ => {
                    &&& final(self).mode == old(self).mode
                    &&& r is Nothing
                },
            },
            same_but_mode(*final(self), *old(self)),
            final(self).status == old(self).status,
    {
        match key {
            Key::Esc => {
                self.return_from_input();
                Action::Nothing
            },
            Key::Enter => Action::Commit,
            Key::Backspace => {
                match &mut self.mode {
                    Mode::Input { buffer, .. } => {
                        string_pop(buffer);
                    },
                    _ => {},
                }
                Action::Nothing
            },
            Key::Char(c) => {
                match &mut self.mode {
                    Mode::Input { buffer, .. } => {
                        string_push(buffer, c);
                    },
                    _ => {},
                }
                Action::Nothing
            },
            _ => Action::Nothing,
        }
    }

    /// The archive prompt of a card: `y` archives it and goes back to the
    /// board; `n` or Esc declines, back to where the prompt came from.
    pub fn on_archive_confirm_key(&mut self, key: Key) -> (r: Action)
        ensures
            match old(self).mode {
                Mode::ArchiveConfirm { key: card, back } => if key == Key::Char('y') || key
                    == Key::Char('Y') {
                    &&& r matches Action::ArchiveCard { key: k } && k@ == card@
                    &&& final(self).mode is Normal
                    &&& final(self).status == old(self).status
                } else if key == Key::Char('n') || key == Key::Char('N') || key == Key::Esc {
                    &&& r is Nothing
                    &&& final(self).status@ == "archive cancelled"@
                    &&& if back == ArchiveBack::Detail && key_index(old(self).cards@, card@) is Some {
                        is_detail_of(final(self).mode, card@)
                    } else {
                        final(self).mode is Normal
                    }
                } else {
                    &&& r is Nothing
                    &&& final(self).mode == old(self).mode
                    &&& final(self).status == old(self).status
                },
                _ => {
                    &&& r is Nothing
                    &&& final(self).mode == old(self).mode
                    &&& final(self).status == old(self).status
                },
            },
            same_but_mode(*final(self), *old(self)),
    {
        let (card, back) = match &self.mode {
            Mode::ArchiveConfirm { key, back } => (key.clone(), *back),
            _ => return Action::Nothing,
        };
        match key {
            Key::Char('y') | Key::Char('Y') => {
                self.mode = Mode::Normal;
                Action::ArchiveCard { key: card }
            },
            Key::Char('n') | Key::Char('N') | Key::Esc => {
                self.status = owned("archive cancelled");
                self.mode = self.archive_back_mode(card.as_str(), back);
                Action::Nothing
            },
            _ => Action::Nothing,
        }
    }
}

impl App {
    /// The detail view of a card: scroll keys scroll it; Esc and `q` close
    /// it; `e`, `a` and `x` open the title, assignee and completion prompts,
    /// `b` the body editor, `D` the due date prompt, `t` the labels, `m` the
    /// agent metadata, `M` the move to another board; `p` cycles the
    /// priority and `d` asks to archive the card.
    pub fn on_detail_key(&mut self, key: Key) -> (r: Action)
        ensures
            match old(self).mode {
                Mode::Detail { key: card, scroll } => detail_key_ok(*old(self), *final(self), r, card@, scroll, key),
                _ => final(self).mode == old(self).mode && final(self).status == old(self).status && r is Nothing,
            },
            same_but_mode(*final(self), *old(self)),
    {
        let (card, scroll) = match &self.mode {
            Mode::Detail { key, scroll } => (key.clone(), *scroll),
            _ => return Action::Nothing,
        };
        match scroll_key(scroll, key) {
            Some(s) => {
                self.mode = Mode::Detail { key: card, scroll: s };
                return Action::Nothing;
            },
            None => {},
        }
        let found = self.card_by_key(card.as_str());
        proof {
            crate::board_app::lemma_key_index_found(self.cards@, card@);
        }
        match key {
            Key::Esc | Key::Char('q') => {
                self.mode = Mode::Normal;
                Action::Nothing
            },
            Key::Char('e') => {
                if let Some(i) = found {
                    let title = self.cards[i].title.clone();
                    let at = self.cards[i].updated_at;
                    self.mode = Mode::Input {
                        kind: InputKind::EditTitle { key: card, expected_updated_at: at },
                        buffer: title,
                    };
                }
                Action::Nothing
            },
            Key::Char('b') => {
                if let Some(i) = found {
                    let body = self.cards[i].body.clone();
                    let at = self.cards[i].updated_at;
                    self.mode = Mode::BodyEdit { key: card.clone(), expected_updated_at: at };
                    Action::EditBody { key: card, body }
                } else {
                    Action::Nothing
                }
            },
            Key::Char('a') => {
                if let Some(i) = found {
                    let cur = match &self.cards[i].assignee {
                        Some(a) => a.clone(),
                        None => String::new(),
                    };
                    let at = self.cards[i].updated_at;
                    self.mode = Mode::Input {
                        kind: InputKind::EditAssignee { key: card, expected_updated_at: at },
                        buffer: cur,
                    };
                }
                Action::Nothing
            },
            Key::Char('D') => {
                if let Some(i) = found {
                    Action::EditDue {
                        key: card,
                        expected_updated_at: self.cards[i].updated_at,
                        due_date: self.cards[i].due_date,
                    }
                } else {
                    Action::Nothing
                }
            },
            Key::Char('t') => Action::OpenLabelPicker { key: card },
            Key::Char('p') => Action::CyclePriority { key: card },
            Key::Char('d') => {
                self.prompt_archive_key(card, ArchiveBack::Detail);
                Action::Nothing
            },
            Key::Char('x') => {
                if let Some(i) = found {
                    let at = self.cards[i].updated_at;
                    self.mode = Mode::Input {
                        kind: InputKind::CompleteWithNote { key: card, expected_updated_at: at },
                        buffer: String::new(),
                    };
                }
                Action::Nothing
            },
            Key::Char('m') => {
                self.mode = Mode::AgentMetadata { key: card, scroll: 0 };
                Action::Nothing
            },
            Key::Char('M') => {
                self.open_card_board_move(card, ArchiveBack::Detail);
                Action::Nothing
            },
            _ => Action::Nothing,
        }
    }
}

impl App {
    /// What moving the selected card `delta` columns asks of the store.
    pub fn move_card(&self, delta: i32) -> (r: Action)
        requires
            self.focus < self.columns.len(),
            self.focus < self.cursors.len(),
            self.columns.len() <= i32::MAX,
            self.focus + delta <= i32::MAX,
            self.focus + delta >= i32::MIN,
        ensures
            move_action_ok(*self, delta, r),
    {
        let target: i64 = self.focus as i64 + delta as i64;
        if target < 0 || target >= self.columns.len() as i64 {
            return Action::Nothing;
        }
        match self.selected_card() {
            Some(i) => Action::MoveCard {
                key: self.cards[i].key.clone(),
                column: self.columns[target as usize].name.clone(),
            },
            None => Action::Nothing,
        }
    }

    /// What reordering the selected card by `dir` asks of the store.
    pub fn reorder(&self, dir: i32) -> (r: Action)
        requires
            self.focus < self.columns.len(),
            self.focus < self.cursors.len(),
        ensures
            reorder_action_ok(*self, dir, r),
    {
        match self.selected_card() {
            Some(i) => Action::ReorderCard { key: self.cards[i].key.clone(), dir },
            None => Action::Nothing,
        }
    }

    /// The board screen: `q`/Esc quit; `h`/`l` and `j`/`k` (or the arrows)
    /// move the focus and the cursor; `H`/`L` move the selected card to the
    /// next column and `J`/`K` reorder it; Enter opens it; `n`, `N`, `i`,
    /// `e` and `/` open the new card, new board, board context, title and
    /// filter prompts; Tab cycles boards and `b` lists them; `c` manages
    /// columns; `v` and `w` jump to human and next work; `g` shows the
    /// dependency graph; `p` cycles the priority; `u` undoes; `M` moves the
    /// card to another board; `d` and `D` archive the card and the board;
    /// `m` browses memories; `U` lists archived boards; `r` reloads.
    pub fn on_normal_key(&mut self, key: Key) -> (r: Action)
        requires
            normal_key_ready(*old(self), key),
        ensures
            normal_key_ok(*old(self), *final(self), r, key),
    {
        match key {
            Key::Char('q') | Key::Esc => {
                self.should_quit = true;
                Action::Nothing
            },
            Key::Char('H') => self.move_card(-1),
            Key::Char('L') => self.move_card(1),
            Key::Char('J') => self.reorder(1),
            Key::Char('K') => self.reorder(-1),
            Key::Char('h') | Key::Left => {
                self.focus_delta(-1);
                Action::Nothing
            },
            Key::Char('l') | Key::Right => {
                self.focus_delta(1);
                Action::Nothing
            },
            Key::Char('j') | Key::Down => {
                self.cursor_delta(1);
                Action::Nothing
            },
            Key::Char('k') | Key::Up => {
                self.cursor_delta(-1);
                Action::Nothing
            },
            Key::Enter => {
                match self.selected_card() {
                    Some(i) => {
                        self.mode = Mode::Detail { key: self.cards[i].key.clone(), scroll: 0 };
                    },
                    None => {},
                }
                Action::Nothing
            },
            Key::Char('n') => {
                self.mode = Mode::Input { kind: InputKind::NewCard, buffer: String::new() };
                Action::Nothing
            },
            Key::Char('N') => {
                self.mode = Mode::Input { kind: InputKind::NewBoard, buffer: String::new() };
                Action::Nothing
            },
            Key::Tab | Key::BackTab => Action::CycleBoard,
            Key::Char('b') => {
                let cursor = match crate::board_nav::find_board(&self.boards, self.board.id.as_str()) {
                    Some(i) => i,
                    None => 0,
                };
                self.mode = Mode::BoardSwitcher { cursor };
                Action::Nothing
            },
            Key::Char('i') => {
                let buffer = match &self.board.agent_context {
                    Some(a) => a.clone(),
                    None => String::new(),
                };
                self.mode = Mode::Input { kind: InputKind::EditBoardContext, buffer };
                Action::Nothing
            },
            Key::Char('c') => {
                if crate::text::str_eq(self.board.slug.as_str(), "backlog") {
                    self.status = owned("Backlog board has exactly one Backlog column");
                } else {
                    let last = if self.columns.len() == 0 {
                        0
                    } else {
                        self.columns.len() - 1
                    };
                    self.col_cursor = if self.focus < last {
                        self.focus
                    } else {
                        last
                    };
                    self.mode = Mode::ColumnManager;
                }
                Action::Nothing
            },
            Key::Char('e') => {
                self.start_edit_title();
                Action::Nothing
            },
            Key::Char('/') => {
                let buffer = match &self.filter {
                    Some(f) => f.clone(),
                    None => String::new(),
                };
                self.mode = Mode::Input { kind: InputKind::Filter, buffer };
                Action::Nothing
            },
            Key::Char('v') => {
                self.jump_to_human_intervention();
                Action::Nothing
            },
            Key::Char('w') => Action::NextWork,
            Key::Char('g') => {
                self.mode = Mode::DependencyGraph { scroll: 0 };
                Action::Nothing
            },
            Key::Char('p') => match self.selected_card() {
                Some(i) => Action::CyclePriority { key: self.cards[i].key.clone() },
                None => Action::Nothing,
            },
            Key::Char('u') => Action::UndoLast,
            Key::Char('M') => {
                match self.selected_card() {
                    Some(i) => {
                        let k = self.cards[i].key.clone();
                        self.open_card_board_move(k, ArchiveBack::Normal);
                    },
                    None => {},
                }
                Action::Nothing
            },
            Key::Char('d') => {
                self.prompt_archive_selected();
                Action::Nothing
            },
            Key::Char('D') => {
                if crate::text::str_eq(self.board.slug.as_str(), "backlog") {
                    self.status = owned("cannot archive the Backlog board");
                } else {
                    self.mode = Mode::BoardArchive {
                        board_id: self.board.id.clone(),
                        board_name: self.board.name.clone(),
                    };
                }
                Action::Nothing
            },
            Key::Char('m') => {
                self.mode = Mode::MemoryBrowser { cursor: 0 };
                Action::Nothing
            },
            Key::Char('U') => Action::ShowArchivedBoards,
            Key::Char('r') => {
                self.status = owned("reloaded");
                Action::Reload
            },
            _ => Action::Nothing,
        }
    }
}

} // verus!

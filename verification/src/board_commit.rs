//! Committing a text prompt of the board application, and what the screen
//! shows once the store has answered.
use vstd::prelude::*;
use crate::board_app::{App, InputKind, Mode, key_index, column_indices};
use crate::board_nav::{reloaded_cursors, same_but_mode};
use crate::board_app::key_location;
use crate::card::Card;
use crate::render::Label;
use crate::text::{blank, is_blank, owned, str_trim, trim};

verus! {

/// The store work a committed prompt asks for.
#[derive(Debug)]
pub enum Commit {
    Nothing,
    /// Read the cards again (the filter changed).
    Reload,
    CreateCard { column: String, title: String },
    UpdateTitle { key: String, title: String, expected_updated_at: i64 },
    UpdateAssignee { key: String, assignee: String, expected_updated_at: i64 },
    /// `due` is empty to clear the date, else `YYYY-MM-DD`.
    UpdateDue { key: String, due: String, expected_updated_at: i64 },
    /// Archive the card as done with `body`, clearing its next action,
    /// blocked reason and handoff note.
    CompleteCard { key: String, body: String, with_note: bool, expected_updated_at: i64 },
    SetBoardContext { text: String },
    AddColumn { name: String },
    RenameColumn { id: String, name: String },
}

/// The body of a card completed with `note`: the note is appended after a
/// blank line, or stands alone in an empty body; an empty note leaves the
/// body as it is.
pub open spec fn completion_body(body: Seq<char>, note: Seq<char>) -> Seq<char> {
    if note.len() == 0 {
        body
    } else if body.len() == 0 {
        "[completion note] "@ + note
    } else {
        body + "\n\n[completion note] "@ + note
    }
}

/// The body of card `key`, empty when there is no such card.
pub open spec fn body_of(app: App, key: Seq<char>) -> Seq<char> {
    match key_index(app.cards@, key) {
        Some(i) => app.cards@[i].body@,
        None => Seq::empty(),
    }
}

/// What committing the open prompt does: the text is trimmed first.
pub open spec fn commit_ok(old: App, new: App, r: Commit, default_template: usize) -> bool {
    match old.mode {
        Mode::Input { kind, buffer } => {
            let text = trim(buffer@);
            &&& new.board == old.board && new.boards == old.boards && new.columns == old.columns
            &&& new.cards == old.cards && new.labels == old.labels
            &&& new.focus == old.focus && new.cursors == old.cursors && new.col_cursor == old.col_cursor
            &&& new.should_quit == old.should_quit
            &&& match kind {
                InputKind::Filter => {
                    &&& new.mode is Normal
                    &&& r is Reload
                    &&& if text.len() == 0 {
                        new.filter is None && new.status@ == "filter cleared"@
                    } else {
                        new.filter matches Some(f) && f@ == text && new.status@ == "filter: "@ + text
                    }
                },
                _ => new.filter == old.filter && match kind {
                    InputKind::NewCard => {
                        &&& new.mode is Normal
                        &&& if text.len() == 0 {
                            new.status@ == "cancelled (empty)"@ && r is Nothing
                        } else if old.focus < old.columns@.len() {
                            new.status == old.status && (r matches Commit::CreateCard { column, title } && column@
                                == old.columns@[old.focus as int].name@ && title@ == text)
                        } else {
                            new.status == old.status && r is Nothing
                        }
                    },
                    InputKind::EditTitle { key, expected_updated_at } => {
                        &&& new.mode matches Mode::Detail { key: k, scroll } && k@ == key@ && scroll == 0
                        &&& new.status == old.status
                        &&& if text.len() == 0 {
                            r is Nothing
                        } else {
                            r matches Commit::UpdateTitle { key: k, title, expected_updated_at: at } && k@ == key@
                                && title@ == text && at == expected_updated_at
                        }
                    },
                    InputKind::EditAssignee { key, expected_updated_at } => {
                        &&& new.mode matches Mode::Detail { key: k, scroll } && k@ == key@ && scroll == 0
                        &&& new.status == old.status
                        &&& r matches Commit::UpdateAssignee { key: k, assignee, expected_updated_at: at } && k@
                            == key@ && assignee@ == text && at == expected_updated_at
                    },
                    InputKind::EditDue { key, expected_updated_at } => {
                        &&& new.mode matches Mode::Detail { key: k, scroll } && k@ == key@ && scroll == 0
                        &&& new.status == old.status
                        &&& r matches Commit::UpdateDue { key: k, due, expected_updated_at: at } && k@ == key@
                            && due@ == text && at == expected_updated_at
                    },
                    InputKind::CompleteWithNote { key, expected_updated_at } => {
                        &&& new.mode is Normal
                        &&& new.status == old.status
                        &&& r matches Commit::CompleteCard { key: k, body, with_note, expected_updated_at: at }
                            && k@ == key@ && body@ == completion_body(body_of(old, key@), text) && with_note == (
                        text.len() > 0) && at == expected_updated_at
                    },
                    InputKind::NewBoard => {
                        &&& r is Nothing
                        &&& if text.len() == 0 {
                            new.mode is Normal && new.status@ == "cancelled (empty)"@
                        } else {
                            new.status == old.status && (new.mode matches Mode::BoardTemplatePicker { name, cursor }
                                && name@ == text && cursor == default_template)
                        }
                    },
                    InputKind::EditBoardContext => {
                        &&& new.mode is Normal
                        &&& new.status == old.status
                        &&& r matches Commit::SetBoardContext { text: t } && t@ == text
                    },
                    InputKind::NewColumn => {
                        &&& new.mode is ColumnManager
                        &&& if text.len() == 0 {
                            new.status@ == "cancelled (empty)"@ && r is Nothing
                        } else {
                            new.status == old.status && (r matches Commit::AddColumn { name } && name@ == text)
                        }
                    },
                    InputKind::RenameColumn(id) => {
                        &&& new.mode is ColumnManager
                        &&& new.status == old.status
                        &&& if text.len() == 0 {
                            r is Nothing
                        } else {
                            r matches Commit::RenameColumn { id: i, name } && i@ == id@ && name@ == text
                        }
                    },
                    _ => false,
                },
            }
        },
        _ => new.mode is Normal && same_but_mode(new, old) && new.status == old.status && r is Nothing,
    }
}

impl App {
    /// Commits the open text prompt: what it edits decides the store work
    /// and the screen that follows. `default_template` is the template the
    /// new board picker starts on.
    pub fn commit_input(&mut self, default_template: usize) -> (r: Commit)
        ensures
            commit_ok(*old(self), *final(self), r, default_template),
    {
        let mut mode = Mode::Normal;
        std::mem::swap(&mut mode, &mut self.mode);
        let (kind, buffer) = match mode {
            Mode::Input { kind, buffer } => (kind, buffer),
            _ => return Commit::Nothing,
        };
        let text = owned(str_trim(buffer.as_str()));
        let empty = is_blank(buffer.as_str());
        match kind {
            InputKind::Filter => {
                if empty {
                    self.filter = None;
                    self.status = owned("filter cleared");
                } else {
                    self.status = owned("filter: ").concat(text.as_str());
                    self.filter = Some(text);
                }
                Commit::Reload
            },
            InputKind::NewCard => {
                if empty {
                    self.status = owned("cancelled (empty)");
                    return Commit::Nothing;
                }
                if self.focus < self.columns.len() {
                    Commit::CreateCard { column: self.columns[self.focus].name.clone(), title: text }
                } else {
                    Commit::Nothing
                }
            },
            InputKind::EditTitle { key, expected_updated_at } => {
                let k = key.clone();
                self.mode = Mode::Detail { key: k, scroll: 0 };
                if empty {
                    Commit::Nothing
                } else {
                    Commit::UpdateTitle { key, title: text, expected_updated_at }
                }
            },
            InputKind::EditAssignee { key, expected_updated_at } => {
                let k = key.clone();
                self.mode = Mode::Detail { key: k, scroll: 0 };
                Commit::UpdateAssignee { key, assignee: text, expected_updated_at }
            },
            InputKind::EditDue { key, expected_updated_at } => {
                let k = key.clone();
                self.mode = Mode::Detail { key: k, scroll: 0 };
                Commit::UpdateDue { key, due: text, expected_updated_at }
            },
            InputKind::CompleteWithNote { key, expected_updated_at } => {
                let mut body = match self.card_by_key(key.as_str()) {
                    Some(i) => self.cards[i].body.clone(),
                    None => String::new(),
                };
                if !empty {
                    if body.unicode_len() > 0 {
                        body.append("\n\n[completion note] ");
                    } else {
                        body = owned("[completion note] ");
                    }
                    body.append(text.as_str());
                }
                Commit::CompleteCard { key, body, with_note: !empty, expected_updated_at }
            },
            InputKind::NewBoard => {
                if empty {
                    self.status = owned("cancelled (empty)");
                } else {
                    self.mode = Mode::BoardTemplatePicker { name: text, cursor: default_template };
                }
                Commit::Nothing
            },
            InputKind::EditBoardContext => Commit::SetBoardContext { text },
            InputKind::NewColumn => {
                self.mode = Mode::ColumnManager;
                if empty {
                    self.status = owned("cancelled (empty)");
                    Commit::Nothing
                } else {
                    Commit::AddColumn { name: text }
                }
            },
            InputKind::RenameColumn(id) => {
                self.mode = Mode::ColumnManager;
                if empty {
                    Commit::Nothing
                } else {
                    Commit::RenameColumn { id, name: text }
                }
            },
        }
    }
}

/// How a store call that a key or a prompt asked for ended.
#[derive(Clone, Copy, Debug, PartialEq, Eq, Structural)]
pub enum Done {
    Created,
    TitleUpdated,
    AssigneeSet,
    DueUpdated,
    Completed,
    CompletedWithNote,
    Archived,
    /// An edit refused because the card changed meanwhile.
    StaleEdit,
    /// A completion refused because the card changed meanwhile.
    StaleComplete,
}

pub open spec fn done_text(d: Done, key: Seq<char>) -> Seq<char> {
    match d {
        Done::Created => "created "@ + key,
        Done::TitleUpdated => "updated "@ + key,
        Done::AssigneeSet => "assignee set on "@ + key,
        Done::DueUpdated => "due updated on "@ + key,
        Done::Completed => "completed "@ + key,
        Done::CompletedWithNote => "completed "@ + key + " with note"@,
        Done::Archived => "archived "@ + key,
        Done::StaleEdit => "stale edit on "@ + key + "; reloaded latest card"@,
        Done::StaleComplete => "stale complete on "@ + key + "; reloaded latest card"@,
    }
}

/// The status line for card `key` after the store answered.
pub fn done_status(d: Done, key: &str) -> (r: String)
    ensures
        r@ == done_text(d, key@),
{
    match d {
        Done::Created => owned("created ").concat(key),
        Done::TitleUpdated => owned("updated ").concat(key),
        Done::AssigneeSet => owned("assignee set on ").concat(key),
        Done::DueUpdated => owned("due updated on ").concat(key),
        Done::Completed => owned("completed ").concat(key),
        Done::CompletedWithNote => owned("completed ").concat(key).concat(" with note"),
        Done::Archived => owned("archived ").concat(key),
        Done::StaleEdit => owned("stale edit on ").concat(key).concat("; reloaded latest card"),
        Done::StaleComplete => owned("stale complete on ").concat(key).concat(
            "; reloaded latest card",
        ),
    }
}

/// The status line after card `key` moved to column `dest`.
pub fn moved_status(key: &str, dest: &str) -> (r: String)
    ensures
        r@ == "moved "@ + key@ + " -> "@ + dest@,
{
    owned("moved ").concat(key).concat(" -> ").concat(dest)
}

impl App {
    /// After a store call: takes the cards and labels read again, selects
    /// card `select` if given, and shows `status`.
    pub fn after_store(
        &mut self,
        cards: Vec<Card>,
        labels: Vec<(String, Vec<Label>)>,
        select: Option<&str>,
        status: String,
    )
        ensures
            final(self).cards == cards,
            final(self).labels == labels,
            final(self).status == status,
            final(self).board == old(self).board && final(self).boards == old(self).boards,
            final(self).columns == old(self).columns && final(self).filter == old(self).filter,
            final(self).col_cursor == old(self).col_cursor && final(self).mode == old(self).mode,
            final(self).should_quit == old(self).should_quit,
            ({
                let base = reloaded_cursors(*final(self), old(self).cursors@);
                match select {
                    Some(k) => match key_location(*final(self), k@, final(self).columns@.len() as int) {
                        Some((c, p)) => final(self).focus == c && final(self).cursors@ == base.update(
                            c,
                            p as usize,
                        ),
                        None => final(self).focus == old(self).focus && final(self).cursors@ == base,
                    },
                    None => final(self).focus == old(self).focus && final(self).cursors@ == base,
                }
            }),
    {
        self.reload(cards, labels);
        let ghost mid = *self;
        match select {
            Some(k) => {
                self.select_key(k);
            },
            None => {},
        }
        self.status = status;
        proof {
            match select {
                Some(k) => {
                    crate::board_app::lemma_key_location_same(
                        *self,
                        mid,
                        k@,
                        self.columns@.len() as int,
                    );
                },
                None => {},
            }
            assert forall|j: int| 0 <= j < self.columns@.len() implies column_indices(*self, j)
                == column_indices(mid, j) by {
                crate::board_app::lemma_shown_same(*self, mid, j, self.cards@.len() as int);
            }
            assert(reloaded_cursors(*self, old(self).cursors@) =~= reloaded_cursors(
                mid,
                old(self).cursors@,
            ));
        }
    }
}

} // verus!

//! The board screen's state: the columns, the cards each column shows under
//! the filter, the selection, and how the selection follows reloads.
use vstd::prelude::*;
use crate::card::Card;
use crate::render::{Label, find_labels, labels_of};
use crate::text::{contains_str, contains_text, lowercase, str_eq, to_lowercase};

verus! {

/// A column of the current board.
#[derive(Debug)]
pub struct Column {
    pub id: String,
    pub name: String,
}

/// A board as the screen lists it.
#[derive(Debug)]
pub struct BoardInfo {
    pub id: String,
    pub name: String,
    pub slug: String,
    pub agent_context: Option<String>,
}

/// Where a card dialog goes back to when it closes.
#[derive(Clone, Copy, Debug, PartialEq, Eq, Structural)]
pub enum ArchiveBack {
    Normal,
    Detail,
}

/// What a text prompt edits.
#[derive(Debug)]
pub enum InputKind {
    NewCard,
    EditTitle { key: String, expected_updated_at: i64 },
    EditAssignee { key: String, expected_updated_at: i64 },
    EditDue { key: String, expected_updated_at: i64 },
    CompleteWithNote { key: String, expected_updated_at: i64 },
    Filter,
    NewBoard,
    EditBoardContext,
    NewColumn,
    RenameColumn(String),
}

/// The screen the board application shows. The body editor's own state is
/// kept beside the mode by the terminal front end.
#[derive(Debug)]
pub enum Mode {
    Normal,
    Detail { key: String, scroll: u16 },
    AgentMetadata { key: String, scroll: u16 },
    DependencyGraph { scroll: u16 },
    Input { kind: InputKind, buffer: String },
    BodyEdit { key: String, expected_updated_at: i64 },
    LabelPicker { key: String, input: String, cursor: usize, candidates: Vec<Label> },
    ColumnManager,
    ColumnDelete { victim_id: String, cursor: usize },
    BoardArchive { board_id: String, board_name: String },
    BoardSwitcher { cursor: usize },
    BoardTemplatePicker { name: String, cursor: usize },
    CardBoardMove { key: String, cursor: usize, back: ArchiveBack },
    CardColumnMove {
        key: String,
        board_id: String,
        board_name: String,
        cursor: usize,
        back: ArchiveBack,
    },
    BoardUnarchive { cursor: usize },
    BoardDelete { board_id: String, board_name: String, confirm: String },
    MemoryBrowser { cursor: usize },
    ArchiveConfirm { key: String, back: ArchiveBack },
}

/// The board application: the current board and its columns and cards, the
/// labels of each card (by card id), the focused column, a card cursor per
/// column, the column manager's cursor, the filter, the status line and the
/// mode.
#[derive(Debug)]
pub struct App {
    pub board: BoardInfo,
    pub boards: Vec<BoardInfo>,
    pub columns: Vec<Column>,
    pub cards: Vec<Card>,
    pub labels: Vec<(String, Vec<Label>)>,
    pub focus: usize,
    pub cursors: Vec<usize>,
    pub col_cursor: usize,
    pub filter: Option<String>,
    pub status: String,
    pub mode: Mode,
    pub should_quit: bool,
}

/// Some label's lowercase name contains `needle`.
pub open spec fn label_hit(ls: Seq<Label>, needle: Seq<char>) -> bool {
    exists|j: int| 0 <= j < ls.len() && contains_text(lowercase(ls[j].name@), needle)
}

/// Without a filter every card matches; with one, a card matches when its
/// title, body or one of its label names contains the filter, compared in
/// lowercase.
pub open spec fn matches_filter(c: Card, labels: Seq<(String, Vec<Label>)>, filter: Option<String>) -> bool {
    match filter {
        None => true,
        Some(q) => {
            let n = lowercase(q@);
            contains_text(lowercase(c.title@), n) || contains_text(lowercase(c.body@), n) || match labels_of(labels, c.id@) {
                Some(ls) => label_hit(ls, n),
                None => false,
            }
        },
    }
}

/// Card `c` is shown in column `col`.
pub open spec fn shown_in(app: App, col: int, c: Card) -> bool {
    c.column_id@ == app.columns@[col].id@ && matches_filter(c, app.labels@, app.filter)
}

/// The indices of the cards among the first `n` that column `col` shows.
pub open spec fn shown_prefix(app: App, col: int, n: int) -> Seq<usize>
    decreases n,
{
    if n <= 0 {
        Seq::empty()
    } else {
        let rest = shown_prefix(app, col, n - 1);
        if shown_in(app, col, app.cards@[n - 1]) {
            rest.push((n - 1) as usize)
        } else {
            rest
        }
    }
}

/// The indices of the cards column `col` shows, in card order.
pub open spec fn column_indices(app: App, col: int) -> Seq<usize> {
    shown_prefix(app, col, app.cards@.len() as int)
}

/// The first position in `idx` whose card has `key`.
pub open spec fn first_key_pos(cards: Seq<Card>, idx: Seq<usize>, key: Seq<char>) -> Option<int>
    decreases idx.len(),
{
    if idx.len() == 0 {
        None
    } else {
        match first_key_pos(cards, idx.drop_last(), key) {
            Some(p) => Some(p),
            None => if cards[idx.last() as int].key@ == key {
                Some(idx.len() - 1)
            } else {
                None
            },
        }
    }
}

/// The index of the first card with `key`.
pub open spec fn key_index(cards: Seq<Card>, key: Seq<char>) -> Option<int>
    decreases cards.len(),
{
    if cards.len() == 0 {
        None
    } else {
        match key_index(cards.drop_last(), key) {
            Some(i) => Some(i),
            None => if cards.last().key@ == key {
                Some(cards.len() - 1)
            } else {
                None
            },
        }
    }
}

/// The first column among the first `n`, and the position in it, that shows
/// the card `key`.
pub open spec fn key_location(app: App, key: Seq<char>, n: int) -> Option<(int, int)>
    decreases n,
{
    if n <= 0 {
        None
    } else {
        match key_location(app, key, n - 1) {
            Some(l) => Some(l),
            None => match first_key_pos(app.cards@, column_indices(app, n - 1), key) {
                Some(p) => Some((n - 1, p)),
                None => None,
            },
        }
    }
}

/// The card under the cursor of the focused column, as an index.
pub open spec fn selected_index(app: App) -> Option<usize> {
    let idx = column_indices(app, app.focus as int);
    let cur = app.cursors@[app.focus as int];
    if cur < idx.len() {
        Some(idx[cur as int])
    } else {
        None
    }
}

/// Everything but the focus and the cursors is the same.
pub open spec fn same_but_cursors(a: App, b: App) -> bool {
    &&& a.board == b.board
    &&& a.boards == b.boards
    &&& a.columns == b.columns
    &&& a.cards == b.cards
    &&& a.labels == b.labels
    &&& a.col_cursor == b.col_cursor
    &&& a.filter == b.filter
    &&& a.status == b.status
    &&& a.mode == b.mode
    &&& a.should_quit == b.should_quit
}

pub proof fn lemma_first_key_pos_prefix(cards: Seq<Card>, idx: Seq<usize>, key: Seq<char>, n: int)
    requires
        0 <= n <= idx.len(),
        first_key_pos(cards, idx.take(n), key) is Some,
    ensures
        first_key_pos(cards, idx, key) == first_key_pos(cards, idx.take(n), key),
    decreases idx.len(),
{
    if n == idx.len() {
        assert(idx.take(n) =~= idx);
    } else {
        assert(idx.drop_last().take(n) =~= idx.take(n));
        lemma_first_key_pos_prefix(cards, idx.drop_last(), key, n);
    }
}

pub proof fn lemma_key_index_prefix(cards: Seq<Card>, key: Seq<char>, n: int)
    requires
        0 <= n <= cards.len(),
        key_index(cards.take(n), key) is Some,
    ensures
        key_index(cards, key) == key_index(cards.take(n), key),
    decreases cards.len(),
{
    if n == cards.len() {
        assert(cards.take(n) =~= cards);
    } else {
        assert(cards.drop_last().take(n) =~= cards.take(n));
        lemma_key_index_prefix(cards.drop_last(), key, n);
    }
}

/// The card that `key_index` finds has the key.
pub proof fn lemma_key_index_found(cards: Seq<Card>, key: Seq<char>)
    ensures
        key_index(cards, key) matches Some(i) ==> 0 <= i < cards.len() && cards[i].key@ == key,
    decreases cards.len(),
{
    if cards.len() > 0 {
        lemma_key_index_found(cards.drop_last(), key);
    }
}

pub proof fn lemma_key_location_grows(app: App, key: Seq<char>, m: int, n: int)
    requires
        0 <= m <= n,
        key_location(app, key, m) is Some,
    ensures
        key_location(app, key, n) == key_location(app, key, m),
    decreases n - m,
{
    if m < n {
        lemma_key_location_grows(app, key, m, n - 1);
    }
}

/// Some label of `ls` has a lowercase name that contains `needle`.
pub fn any_label_contains(ls: &Vec<Label>, needle: &str) -> (r: bool)
    ensures
        r == label_hit(ls@, needle@),
{
    let mut i: usize = 0;
    while i < ls.len()
        invariant
            i <= ls.len(),
            forall|j: int| 0 <= j < i ==> !contains_text(lowercase(ls@[j].name@), needle@),
        decreases ls.len() - i,
    {
        let name = to_lowercase(ls[i].name.as_str());
        if contains_str(name.as_str(), needle) {
            return true;
        }
        i = i + 1;
    }
    false
}

impl App {
    /// The indices of the cards that column `col` shows: its cards that match
    /// the filter, in card order.
    pub fn column_cards(&self, col: usize) -> (r: Vec<usize>)
        requires
            col < self.columns.len(),
        ensures
            r@ == column_indices(*self, col as int),
    {
        let col_id = self.columns[col].id.as_str();
        let needle: Option<String> = match &self.filter {
            Some(q) => Some(to_lowercase(q.as_str())),
            None => None,
        };
        let mut out: Vec<usize> = Vec::new();
        let mut i: usize = 0;
        while i < self.cards.len()
            invariant
                i <= self.cards.len(),
                col < self.columns.len(),
                col_id@ == self.columns@[col as int].id@,
                match (needle, self.filter) {
                    (Some(n), Some(q)) => n@ == lowercase(q@),
                    (None, None) => true,
                    _ => false,
                },
                out@ == shown_prefix(*self, col as int, i as int),
            decreases self.cards.len() - i,
        {
            let c = &self.cards[i];
            let mut shown = str_eq(c.column_id.as_str(), col_id);
            if shown {
                match &needle {
                    Some(n) => {
                        let title = to_lowercase(c.title.as_str());
                        if !contains_str(title.as_str(), n.as_str()) {
                            let body = to_lowercase(c.body.as_str());
                            if !contains_str(body.as_str(), n.as_str()) {
                                shown = match find_labels(&self.labels, c.id.as_str()) {
                                    Some(ls) => any_label_contains(ls, n.as_str()),
                                    None => false,
                                };
                            }
                        }
                    },
                    None => {},
                }
            }
            assert(shown == shown_in(*self, col as int, self.cards@[i as int]));
            if shown {
                out.push(i);
            }
            i = i + 1;
        }
        out
    }

    /// The card under the cursor of the focused column, as an index into the
    /// cards.
    pub fn selected_card(&self) -> (r: Option<usize>)
        requires
            self.focus < self.columns.len(),
            self.focus < self.cursors.len(),
        ensures
            r == selected_index(*self),
            r matches Some(i) ==> i < self.cards.len(),
    {
        let shown = self.column_cards(self.focus);
        let cur = self.cursors[self.focus];
        if cur < shown.len() {
            proof {
                lemma_shown_prefix_bounds(*self, self.focus as int, self.cards@.len() as int);
            }
            Some(shown[cur])
        } else {
            None
        }
    }

    /// The index of the first card with `key`.
    pub fn card_by_key(&self, key: &str) -> (r: Option<usize>)
        ensures
            match r {
                Some(i) => key_index(self.cards@, key@) == Some(i as int) && i < self.cards.len(),
                None => key_index(self.cards@, key@) is None,
            },
    {
        let mut i: usize = 0;
        while i < self.cards.len()
            invariant
                i <= self.cards.len(),
                key_index(self.cards@.take(i as int), key@) is None,
            decreases self.cards.len() - i,
        {
            assert(self.cards@.take(i + 1).drop_last() =~= self.cards@.take(i as int));
            if str_eq(self.cards[i].key.as_str(), key) {
                proof {
                    lemma_key_index_prefix(self.cards@, key@, i + 1);
                }
                return Some(i);
            }
            i = i + 1;
        }
        assert(self.cards@.take(self.cards.len() as int) =~= self.cards@);
        None
    }

    /// Moves the selection to the card `key`: the first column that shows it,
    /// at its position there. Nothing changes when no column shows it.
    pub fn select_key(&mut self, key: &str)
        requires
            old(self).columns.len() <= old(self).cursors.len(),
        ensures
            match key_location(*old(self), key@, old(self).columns@.len() as int) {
                Some((col, pos)) => {
                    &&& final(self).focus == col
                    &&& final(self).cursors@ == old(self).cursors@.update(col, pos as usize)
                    &&& same_but_cursors(*final(self), *old(self))
                },
                None => *final(self) == *old(self),
            },
    {
        let mut i: usize = 0;
        while i < self.columns.len()
            invariant
                *self == *old(self),
                i <= self.columns.len(),
                self.columns.len() <= self.cursors.len(),
                key_location(*self, key@, i as int) is None,
            decreases self.columns.len() - i,
        {
            let shown = self.column_cards(i);
            proof {
                lemma_shown_prefix_bounds(*self, i as int, self.cards@.len() as int);
            }
            let mut p: usize = 0;
            while p < shown.len()
                invariant
                    *self == *old(self),
                    p <= shown.len(),
                    i < self.columns.len(),
                    self.columns.len() <= self.cursors.len(),
                    shown@ == column_indices(*self, i as int),
                    key_location(*self, key@, i as int) is None,
                    first_key_pos(self.cards@, shown@.take(p as int), key@) is None,
                    forall|k: int| 0 <= k < shown@.len() ==> shown@[k] < self.cards@.len(),
                decreases shown.len() - p,
            {
                assert(shown@.take(p + 1).drop_last() =~= shown@.take(p as int));
                if str_eq(self.cards[shown[p]].key.as_str(), key) {
                    proof {
                        lemma_first_key_pos_prefix(self.cards@, shown@, key@, p + 1);
                        lemma_key_location_grows(*self, key@, i + 1, self.columns@.len() as int);
                    }
                    self.focus = i;
                    self.cursors.set(i, p);
                    return;
                }
                p = p + 1;
            }
            assert(shown@.take(shown@.len() as int) =~= shown@);
            i = i + 1;
        }
    }
}

/// What a column shows depends only on the columns, the cards, their labels
/// and the filter.
pub proof fn lemma_shown_same(a: App, b: App, col: int, n: int)
    requires
        a.columns == b.columns,
        a.cards == b.cards,
        a.labels == b.labels,
        a.filter == b.filter,
    ensures
        shown_prefix(a, col, n) == shown_prefix(b, col, n),
    decreases n,
{
    if n > 0 {
        lemma_shown_same(a, b, col, n - 1);
    }
}

/// Where a key is found depends only on what the columns show.
pub proof fn lemma_key_location_same(a: App, b: App, key: Seq<char>, n: int)
    requires
        a.columns == b.columns,
        a.cards == b.cards,
        a.labels == b.labels,
        a.filter == b.filter,
    ensures
        key_location(a, key, n) == key_location(b, key, n),
    decreases n,
{
    if n > 0 {
        lemma_key_location_same(a, b, key, n - 1);
        lemma_shown_same(a, b, n - 1, a.cards@.len() as int);
    }
}

/// Every index that a column shows is the index of a card.
pub proof fn lemma_shown_prefix_bounds(app: App, col: int, n: int)
    requires
        n <= app.cards@.len(),
    ensures
        forall|k: int| 0 <= k < shown_prefix(app, col, n).len() ==> shown_prefix(app, col, n)[k] < n,
    decreases n,
{
    if n > 0 {
        lemma_shown_prefix_bounds(app, col, n - 1);
        assert(app.cards.len() == app.cards@.len());
        let rest = shown_prefix(app, col, n - 1);
        let v = ((n - 1) as usize);
        assert(v as int == n - 1);
        assert forall|k: int| 0 <= k < rest.push(v).len() implies rest.push(v)[k] < n by {
            if k < rest.len() {
                assert(rest.push(v)[k] == rest[k]);
            }
        }
    }
}

} // verus!

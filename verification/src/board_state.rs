//! What the board application remembers between runs, how it follows
//! changes made by other writers, and the text of the card detail view.
use vstd::prelude::*;
use crate::board_app::{App, BoardInfo, Column, Mode, key_location, same_but_cursors, selected_index};
use crate::board_nav::{board_pos, find_board, reloaded_cursors, same_but_mode};
use crate::card::Card;
use crate::render::{Label, metadata_i64_spec};
use crate::text::{digit_char, int_decimal, is_blank, nat_decimal, owned, str_trim, string_push, trim};

verus! {

pub open spec fn is_digit(c: char) -> bool {
    '0' <= c && c <= '9'
}

pub open spec fn digit_value(c: char) -> int {
    c as int - '0' as int
}

/// The number that a run of decimal digits spells.
pub open spec fn digits_value(s: Seq<char>) -> int
    decreases s.len(),
{
    if s.len() == 0 {
        0
    } else {
        digits_value(s.drop_last()) * 10 + digit_value(s.last())
    }
}

/// An unsigned number as `str::parse::<usize>` reads it: an optional `+`,
/// then one or more decimal digits, with a value that fits.
pub open spec fn parse_usize_spec(s: Seq<char>) -> Option<usize> {
    let d = unsigned_digits(s);
    if d.len() > 0 && all_digits(d) && digits_value(d) <= usize::MAX {
        Some(digits_value(d) as usize)
    } else {
        None
    }
}

/// The text after an optional leading `+`.
pub open spec fn unsigned_digits(s: Seq<char>) -> Seq<char> {
    if s.len() > 0 && s[0] == '+' {
        s.drop_first()
    } else {
        s
    }
}

pub open spec fn all_digits(d: Seq<char>) -> bool {
    forall|i: int| 0 <= i < d.len() ==> is_digit(#[trigger] d[i])
}

pub proof fn lemma_digits_grow(s: Seq<char>, k: int)
    requires
        0 <= k <= s.len(),
        forall|i: int| 0 <= i < s.len() ==> is_digit(#[trigger] s[i]),
    ensures
        digits_value(s.take(k)) <= digits_value(s),
        digits_value(s) >= 0,
    decreases s.len(),
{
    if s.len() > 0 {
        if k == s.len() {
            assert(s.take(k) =~= s);
            lemma_digits_grow(s.drop_last(), k - 1);
        } else {
            assert(s.drop_last().take(k) =~= s.take(k));
            lemma_digits_grow(s.drop_last(), k);
        }
        assert(is_digit(s[s.len() - 1]));
    }
}

/// Reads an unsigned decimal number.
#[verifier::loop_isolation(false)]
pub fn parse_usize(s: &str) -> (r: Option<usize>)
    ensures
        r == parse_usize_spec(s@),
{
    let n = s.unicode_len();
    let mut start: usize = 0;
    if n > 0 && s.get_char(0) == '+' {
        start = 1;
    }
    let ghost d = unsigned_digits(s@);
    assert(d =~= s@.subrange(start as int, n as int));
    if start == n {
        return None;
    }
    let mut value: usize = 0;
    let mut over = false;
    let mut i: usize = start;
    while i < n
        invariant
            start <= i <= n,
            start < n,
            n == s@.len(),
            d =~= s@.subrange(start as int, n as int),
            forall|j: int| 0 <= j < i - start ==> is_digit(#[trigger] d[j]),
            !over ==> value == digits_value(d.take(i - start)),
            over ==> digits_value(d.take(i - start)) > usize::MAX,
        decreases n - i,
    {
        let c = s.get_char(i);
        assert(c == d[i - start]);
        if !('0' <= c && c <= '9') {
            proof {
                assert(!is_digit(d[i - start]));
                assert(0 <= i - start < d.len());
            }
            return None;
        }
        let digit = (c as u32 - '0' as u32) as usize;
        proof {
            assert(d.take(i - start + 1).drop_last() =~= d.take(i - start));
            assert(d.take(i - start + 1).last() == c);
            assert(digit == digit_value(c));
            assert(digits_value(d.take(i - start + 1)) == digits_value(d.take(i - start)) * 10
                + digit_value(c));
            lemma_digits_grow(d.take(i - start), 0);
        }
        if !over {
            match value.checked_mul(10) {
                Some(m) => match m.checked_add(digit) {
                    Some(v) => {
                        value = v;
                    },
                    None => {
                        over = true;
                    },
                },
                None => {
                    over = true;
                },
            }
        }
        i = i + 1;
    }
    proof {
        assert(d.take(n - start) =~= d);
    }
    if over {
        None
    } else {
        Some(value)
    }
}

/// What the board application saves for the next run: the board it shows,
/// the focused column, and the selected card.
pub struct UiState {
    pub board: String,
    pub focus: String,
    pub selected: Option<String>,
}

/// How to follow the board list as another writer left it.
#[derive(Debug)]
pub enum Resync {
    /// The list is empty: nothing to show instead.
    Keep,
    /// The current board is still listed at this index: read its columns.
    Refresh(usize),
    /// The current board is gone: show the board at this index.
    Fallback(usize),
}

/// A trimmed, non-empty summary on one line (line breaks shown as ` / `),
/// or `-`.
pub open spec fn one_line(s: Seq<char>) -> Seq<char>
    decreases s.len(),
{
    if s.len() == 0 {
        Seq::empty()
    } else {
        one_line(s.drop_last()) + if s.last() == '\n' {
            " / "@
        } else {
            seq![s.last()]
        }
    }
}

pub open spec fn resume_spec(value: Option<Seq<char>>) -> Seq<char> {
    match value {
        Some(v) => if trim(v).len() == 0 {
            "-"@
        } else {
            one_line(trim(v))
        },
        None => "-"@,
    }
}

/// A resume field of the detail view on one line: trimmed, line breaks as
/// ` / `, `-` when empty.
pub fn resume_value(value: Option<&str>) -> (r: String)
    ensures
        r@ == resume_spec(
            match value {
                Some(v) => Some(v@),
                None => None,
            },
        ),
{
    let v = match value {
        Some(v) => v,
        None => return owned("-"),
    };
    if is_blank(v) {
        return owned("-");
    }
    let t = str_trim(v);
    let n = t.unicode_len();
    let mut out = String::new();
    let mut i: usize = 0;
    while i < n
        invariant
            n == t@.len(),
            i <= n,
            out@ == one_line(t@.take(i as int)),
        decreases n - i,
    {
        let c = t.get_char(i);
        assert(t@.take(i + 1).drop_last() =~= t@.take(i as int));
        assert(t@.take(i + 1).last() == c);
        if c == '\n' {
            out.append(" / ");
        } else {
            string_push(&mut out, c);
            assert(out@ =~= one_line(t@.take(i + 1)));
        }
        i = i + 1;
    }
    assert(t@.take(n as int) =~= t@);
    out
}

/// A number of the agent metadata view, or `-`.
pub fn optional_i64(value: Option<i64>) -> (r: String)
    ensures
        r@ == metadata_i64_spec(value),
{
    match value {
        Some(v) => crate::text::i64_to_string(v),
        None => owned("-"),
    }
}

/// A copy of a board's description.
pub fn copy_board(b: &BoardInfo) -> (r: BoardInfo)
    ensures
        r == *b,
{
    BoardInfo {
        id: b.id.clone(),
        name: b.name.clone(),
        slug: b.slug.clone(),
        agent_context: match &b.agent_context {
            Some(c) => Some(c.clone()),
            None => None,
        },
    }
}

/// What restoring the saved focus text and selected key does: the focus
/// goes to the saved column when the text names one; then, when some column
/// shows a card with the saved key, the selection moves to it. Nothing but
/// the focus and the cursors changes.
pub open spec fn restored(old: App, new: App, focus: Option<Seq<char>>, selected: Option<Seq<char>>) -> bool {
    let f = match focus {
        Some(v) => match parse_usize_spec(v) {
            Some(i) => if i < old.columns.len() {
                i
            } else {
                old.focus
            },
            None => old.focus,
        },
        None => old.focus,
    };
    &&& match selected {
        Some(k) => match key_location(old, k, old.columns@.len() as int) {
            Some((c, p)) => new.focus == c && new.cursors@ == old.cursors@.update(c, p as usize),
            None => new.focus == f && new.cursors == old.cursors,
        },
        None => new.focus == f && new.cursors == old.cursors,
    }
    &&& same_but_cursors(new, old)
}

impl App {
    /// Restores the saved focus (a column index, taken when it names a
    /// column) and the saved selection (a card key).
    pub fn restore_ui_state(&mut self, focus: Option<&str>, selected: Option<&str>)
        requires
            old(self).columns.len() <= old(self).cursors.len(),
        ensures
            restored(
                *old(self),
                *final(self),
                match focus {
                    Some(v) => Some(v@),
                    None => None,
                },
                match selected {
                    Some(k) => Some(k@),
                    None => None,
                },
            ),
    {
        match focus {
            Some(v) => match parse_usize(v) {
                Some(i) => {
                    if i < self.columns.len() {
                        self.focus = i;
                    }
                },
                None => {},
            },
            None => {},
        }
        let ghost mid = *self;
        match selected {
            Some(k) => {
                proof {
                    crate::board_app::lemma_key_location_same(
                        mid,
                        *old(self),
                        k@,
                        self.columns@.len() as int,
                    );
                }
                self.select_key(k);
            },
            None => {},
        }
    }

    /// What saving the screen state writes for the next run: the board's
    /// slug, the focused column and the selected card's key. The front end
    /// hands the three texts to the store.
    pub fn save_ui_state(&self) -> (r: UiState)
        requires
            self.focus < self.columns.len(),
            self.focus < self.cursors.len(),
        ensures
            r.board@ == self.board.slug@,
            r.focus@ == int_decimal(self.focus as int),
            match selected_index(*self) {
                Some(i) => r.selected matches Some(k) && k@ == self.cards@[i as int].key@,
                None => r.selected is None,
            },
    {
        let selected = match self.selected_card() {
            Some(i) => Some(self.cards[i].key.clone()),
            None => None,
        };
        UiState {
            board: self.board.slug.clone(),
            focus: crate::text::usize_to_string(self.focus),
            selected,
        }
    }

    /// Takes the board list as another writer left it: keeps the current
    /// board when it is still listed, with what the list now says of it;
    /// else falls back to the first board, back on the board screen, and
    /// says why.
    pub fn resync_external(&mut self, boards: Vec<BoardInfo>) -> (r: Resync)
        ensures
            final(self).boards == boards,
            match board_pos(boards@, old(self).board.id@) {
                Some(i) => r matches Resync::Refresh(j) && j == i && final(self).mode == old(self).mode
                    && final(self).status == old(self).status && final(self).board == boards@[i],
                None => if boards@.len() > 0 {
                    &&& r matches Resync::Fallback(j) && j == 0
                    &&& final(self).mode is Normal
                    &&& final(self).status@ == "current board '"@ + old(self).board.name@
                        + "' is unavailable; switched to "@ + boards@[0].name@
                } else {
                    r is Keep && final(self).mode == old(self).mode && final(self).status == old(self).status
                },
            },
            board_pos(boards@, old(self).board.id@) is None ==> final(self).board == old(self).board,
            final(self).columns == old(self).columns,
            final(self).cards == old(self).cards && final(self).labels == old(self).labels,
            final(self).focus == old(self).focus && final(self).cursors == old(self).cursors,
            final(self).col_cursor == old(self).col_cursor && final(self).filter == old(self).filter,
            final(self).should_quit == old(self).should_quit,
    {
        match find_board(&boards, self.board.id.as_str()) {
            Some(i) => {
                self.board = copy_board(&boards[i]);
                self.boards = boards;
                Resync::Refresh(i)
            },
            None => {
                if boards.len() > 0 {
                    self.status = owned("current board '").concat(self.board.name.as_str()).concat(
                        "' is unavailable; switched to ",
                    ).concat(boards[0].name.as_str());
                    self.mode = Mode::Normal;
                    self.boards = boards;
                    Resync::Fallback(0)
                } else {
                    self.boards = boards;
                    Resync::Keep
                }
            },
        }
    }

    /// After a column moved: its columns read again, the column manager's
    /// cursor follows the column `id`.
    #[verifier::loop_isolation(false)]
    pub fn column_reordered(
        &mut self,
        id: &str,
        columns: Vec<Column>,
        cards: Vec<Card>,
        labels: Vec<(String, Vec<Label>)>,
    )
        ensures
            final(self).columns == columns,
            final(self).cards == cards,
            final(self).labels == labels,
            match crate::board_state::column_pos(columns@, id@) {
                Some(p) => final(self).col_cursor == p,
                None => final(self).col_cursor == if old(self).col_cursor >= columns.len() {
                    if columns.len() == 0 {
                        0
                    } else {
                        columns.len() - 1
                    }
                } else {
                    old(self).col_cursor as int
                },
            },
            final(self).cursors@ == reloaded_cursors(*final(self), old(self).cursors@),
            final(self).mode == old(self).mode && final(self).status == old(self).status,
    {
        self.refresh_columns(columns, cards, labels);
        let ghost mid = *self;
        let mut i: usize = 0;
        while i < self.columns.len()
            invariant
                *self == mid,
                i <= self.columns.len(),
                column_pos(self.columns@.take(i as int), id@) is None,
            decreases self.columns.len() - i,
        {
            assert(self.columns@.take(i + 1).drop_last() =~= self.columns@.take(i as int));
            if crate::text::str_eq(self.columns[i].id.as_str(), id) {
                proof {
                    lemma_column_pos_prefix(self.columns@, id@, i + 1);
                }
                self.col_cursor = i;
                proof {
                    assert forall|j: int| 0 <= j < self.columns@.len() implies crate::board_app::column_indices(
                        *self,
                        j,
                    ) == crate::board_app::column_indices(mid, j) by {
                        crate::board_app::lemma_shown_same(*self, mid, j, self.cards@.len() as int);
                    }
                    assert(reloaded_cursors(*self, old(self).cursors@) =~= reloaded_cursors(
                        mid,
                        old(self).cursors@,
                    ));
                }
                return ;
            }
            i = i + 1;
        }
        assert(self.columns@.take(self.columns.len() as int) =~= self.columns@);
    }
}

/// The position of the first column with `id`.
pub open spec fn column_pos(cols: Seq<Column>, id: Seq<char>) -> Option<int>
    decreases cols.len(),
{
    if cols.len() == 0 {
        None
    } else {
        match column_pos(cols.drop_last(), id) {
            Some(i) => Some(i),
            None => if cols.last().id@ == id {
                Some(cols.len() - 1)
            } else {
                None
            },
        }
    }
}

pub proof fn lemma_column_pos_prefix(cols: Seq<Column>, id: Seq<char>, n: int)
    requires
        0 <= n <= cols.len(),
        column_pos(cols.take(n), id) is Some,
    ensures
        column_pos(cols, id) == column_pos(cols.take(n), id),
    decreases cols.len(),
{
    if n == cols.len() {
        assert(cols.take(n) =~= cols);
    } else {
        assert(cols.drop_last().take(n) =~= cols.take(n));
        lemma_column_pos_prefix(cols.drop_last(), id, n);
    }
}

pub proof fn lemma_one_line_has_no_break(s: Seq<char>)
    ensures
        forall|i: int| 0 <= i < one_line(s).len() ==> #[trigger] one_line(s)[i] != '\n',
    decreases s.len(),
{
    if s.len() > 0 {
        lemma_one_line_has_no_break(s.drop_last());
        reveal_strlit(" / ");
        let head = one_line(s.drop_last());
        let tail = if s.last() == '\n' {
            " / "@
        } else {
            seq![s.last()]
        };
        assert forall|i: int| 0 <= i < one_line(s).len() implies #[trigger] one_line(s)[i] != '\n' by {
            if i < head.len() {
                assert(one_line(s)[i] == head[i]);
            } else {
                assert(one_line(s)[i] == tail[i - head.len()]);
            }
        }
    }
}

/// A resume field of the detail view never spans lines: whatever the
/// field holds, its rendering holds no line break.
pub proof fn resume_value_is_one_line(value: Option<Seq<char>>)
    ensures
        !resume_spec(value).contains('\n'),
{
    reveal_strlit("-");
    match value {
        Some(v) => {
            if trim(v).len() > 0 {
                lemma_one_line_has_no_break(trim(v));
            }
        },
        None => {},
    }
}

pub proof fn lemma_decimal_reads_back(n: nat)
    ensures
        nat_decimal(n).len() > 0,
        all_digits(nat_decimal(n)),
        digits_value(nat_decimal(n)) == n,
        nat_decimal(n)[0] != '+',
    decreases n,
{
    if n < 10 {
        assert(digit_char(n) as int == n + 48);
        assert(seq![digit_char(n)].drop_last() =~= Seq::<char>::empty());
        assert(digits_value(seq![digit_char(n)]) == digits_value(Seq::<char>::empty()) * 10
            + digit_value(digit_char(n)));
    } else {
        lemma_decimal_reads_back(n / 10);
        let d = nat_decimal(n / 10);
        assert(digit_char(n % 10) as int == n % 10 + 48);
        let s = d.push(digit_char(n % 10));
        assert(s.drop_last() =~= d);
        assert forall|i: int| 0 <= i < s.len() implies is_digit(#[trigger] s[i]) by {
            if i < d.len() {
                assert(s[i] == d[i]);
            }
        }
        assert(s[0] == d[0]);
        assert(digits_value(s) == digits_value(d) * 10 + digit_value(digit_char(n % 10)));
        assert((n / 10) * 10 + n % 10 == n) by (nonlinear_arith);
    }
}

/// The saved focus reads back as the same column: the text that
/// `save_ui_state` writes for focus `n` is what `restore_ui_state` parses as
/// `n`.
pub proof fn saved_focus_reads_back(n: usize)
    ensures
        parse_usize_spec(int_decimal(n as int)) == Some(n),
{
    lemma_decimal_reads_back(n as nat);
    assert(unsigned_digits(nat_decimal(n as nat)) == nat_decimal(n as nat));
}

} // verus!

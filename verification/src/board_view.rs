//! The text of the board screen's views: the header, the card detail view,
//! the agent metadata view and the dependency graph view. Colours and
//! layout are the terminal front end's; what each line says is decided here.
use vstd::prelude::*;
use crate::board_app::{App, Column, column_indices, key_index};
use crate::board_jump::{gate_of, human_gate};
use crate::board_nav::{board_pos, find_board};
use crate::depgraph::{
    StagePlan, blocked_lines, blocked_lines_spec, edge_lines, edge_lines_spec, pair_views, stage_lines,
    stage_lines_spec,
};
use crate::board_state::{column_pos, lemma_column_pos_prefix, resume_spec, resume_value};
use crate::card::{Card, opt_str};
use crate::render::{Label, claim_detail, claim_text, find_labels, metadata_i64, label_names, labels_of, metadata_i64_spec, names_of, opt_or_dash};
use crate::text::{i64_to_string, int_decimal, join, join_seq, owned, string_push, usize_to_string, views};

verus! {

/// The pieces of `s` between line breaks, scanning left to right: those
/// already closed by a `\n`, and the open last one.
pub open spec fn newline_split(s: Seq<char>) -> (Seq<Seq<char>>, Seq<char>)
    decreases s.len(),
{
    if s.len() == 0 {
        (Seq::empty(), Seq::empty())
    } else {
        let (done, cur) = newline_split(s.drop_last());
        if s.last() == '\n' {
            (done.push(cur), Seq::empty())
        } else {
            (done, cur.push(s.last()))
        }
    }
}

/// The pieces of `s` split at each `\n`, the last one kept even when empty.
pub open spec fn newline_pieces(s: Seq<char>) -> Seq<Seq<char>> {
    let (done, cur) = newline_split(s);
    done.push(cur)
}

/// Splits `s` at each `\n`; a final line break gives a final empty piece.
pub fn split_newlines(s: &str) -> (r: Vec<String>)
    ensures
        views(r@) == newline_pieces(s@),
{
    let n = s.unicode_len();
    let mut done: Vec<String> = Vec::new();
    let mut cur = String::new();
    let mut i: usize = 0;
    while i < n
        invariant
            n == s@.len(),
            i <= n,
            (views(done@), cur@) == newline_split(s@.take(i as int)),
        decreases n - i,
    {
        let c = s.get_char(i);
        proof {
            assert(s@.take(i + 1).drop_last() =~= s@.take(i as int));
            assert(s@.take(i + 1).last() == c);
        }
        if c == '\n' {
            proof {
                assert(views(done@.push(cur)) =~= views(done@).push(cur@));
            }
            done.push(cur);
            cur = String::new();
        } else {
            string_push(&mut cur, c);
        }
        i = i + 1;
    }
    assert(s@.take(n as int) =~= s@);
    proof {
        assert(views(done@.push(cur)) =~= views(done@).push(cur@));
    }
    done.push(cur);
    done
}

/// The due line of the detail view: `due: <day>`, marked overdue when the
/// due time is before the start of today, or `due: -`; and whether it is
/// overdue. `day` is the due date as the calendar shows it.
pub open spec fn due_text_spec(due_date: Option<i64>, day: Seq<char>, today: i64) -> (Seq<char>, bool) {
    match due_date {
        Some(ms) => if ms < today {
            ("due: "@ + day + " (overdue)"@, true)
        } else {
            ("due: "@ + day, false)
        },
        None => ("due: -"@, false),
    }
}

/// The due line of the detail view and whether it shows an overdue date;
/// `day` is the calendar text of the due date.
pub fn due_text(due_date: Option<i64>, day: &str, today: i64) -> (r: (String, bool))
    ensures
        (r.0@, r.1) == due_text_spec(due_date, day@, today),
{
    match due_date {
        Some(ms) => {
            if ms < today {
                (owned("due: ").concat(day).concat(" (overdue)"), true)
            } else {
                (owned("due: ").concat(day), false)
            }
        },
        None => (owned("due: -"), false),
    }
}

pub open spec fn opt_view(v: Option<&str>) -> Option<Seq<char>> {
    match v {
        Some(s) => Some(s@),
        None => None,
    }
}

/// A resume line: `<label>: <value on one line>`.
pub open spec fn resume_line_spec(label: Seq<char>, value: Option<Seq<char>>) -> Seq<char> {
    label + ": "@ + resume_spec(value)
}

/// A resume line of the detail view.
pub fn resume_line(label: &str, value: Option<&str>) -> (r: String)
    ensures
        r@ == resume_line_spec(label@, opt_view(value)),
{
    owned(label).concat(": ").concat(resume_value(value).as_str())
}

fn opt_as_str(v: &Option<String>) -> (r: Option<&str>)
    ensures
        opt_view(r) == opt_str(*v),
{
    match v {
        Some(s) => Some(s.as_str()),
        None => None,
    }
}

/// The name of the column with `id`, or the empty text.
pub open spec fn column_name(cols: Seq<Column>, id: Seq<char>) -> Seq<char> {
    match column_pos(cols, id) {
        Some(i) => cols[i].name@,
        None => Seq::empty(),
    }
}

/// The name of the first column with `id`, or the empty text.
pub fn column_name_of(cols: &Vec<Column>, id: &str) -> (r: String)
    ensures
        r@ == column_name(cols@, id@),
{
    let mut i: usize = 0;
    while i < cols.len()
        invariant
            i <= cols.len(),
            column_pos(cols@.take(i as int), id@) is None,
        decreases cols.len() - i,
    {
        proof {
            assert(cols@.take(i + 1).drop_last() =~= cols@.take(i as int));
        }
        if crate::text::str_eq(cols[i].id.as_str(), id) {
            proof {
                assert(column_pos(cols@.take(i + 1), id@) == Some(i as int));
                lemma_column_pos_prefix(cols@, id@, i + 1);
            }
            return cols[i].name.clone();
        }
        i = i + 1;
    }
    assert(cols@.take(cols.len() as int) =~= cols@);
    String::new()
}

/// Appends one line.
fn push_line(out: &mut Vec<String>, line: String)
    ensures
        views(final(out)@) == views(old(out)@).push(line@),
{
    out.push(line);
    proof {
        assert(views(final(out)@) =~= views(old(out)@).push(line@));
    }
}

/// The text, or `-` when unset.
fn or_dash(v: &Option<String>) -> (r: &str)
    ensures
        r@ == opt_or_dash(opt_str(*v)),
{
    match v {
        Some(s) => s.as_str(),
        None => "-",
    }
}

/// The label names of a card joined with `, `, or `-` when the card has no
/// entry in the label table.
pub open spec fn tags_text(table: Seq<(String, Vec<Label>)>, card_id: Seq<char>) -> Seq<char> {
    match labels_of(table, card_id) {
        Some(ls) => join_seq(label_names(ls), ", "@),
        None => "-"@,
    }
}

/// The labels line's list of a card.
pub fn tags_of(table: &Vec<(String, Vec<Label>)>, card_id: &str) -> (r: String)
    ensures
        r@ == tags_text(table@, card_id@),
{
    match find_labels(table, card_id) {
        Some(ls) => join(&names_of(ls), ", "),
        None => owned("-"),
    }
}

/// The body of the detail view: its lines, or a hint when it is empty.
pub open spec fn body_lines(body: Seq<char>) -> Seq<Seq<char>> {
    if body.len() == 0 {
        seq!["(no description - press b to edit)"@]
    } else {
        newline_pieces(body)
    }
}

/// The human gate the detail view shows: any value but `none`.
pub open spec fn human_shown(c: Card) -> Option<Seq<char>> {
    match c.human_intervention {
        Some(h) => if h@ != "none"@ {
            Some(h@)
        } else {
            None
        },
        None => None,
    }
}

/// The lines of the card detail view: key and title; column and priority;
/// assignee; labels; due date; the resume block (next action, acceptance,
/// the blocker when there is one, the human gate when set, handoff,
/// verification); then the body. `priority` is the priority marker's text
/// and `day` the calendar text of the due date.
pub open spec fn detail_lines_spec(
    cols: Seq<Column>,
    labels: Seq<(String, Vec<Label>)>,
    c: Card,
    priority: Seq<char>,
    day: Seq<char>,
    today: i64,
) -> Seq<Seq<char>> {
    seq![
        c.key@ + " "@ + c.title@,
        "column: "@ + column_name(cols, c.column_id@) + "   priority: "@ + priority,
        "assignee: "@ + opt_or_dash(opt_str(c.assignee)) + "   (a to edit)"@,
        "labels: "@ + tags_text(labels, c.id@) + "   (t to edit)"@,
        due_text_spec(c.due_date, day, today).0 + "   (D to edit)"@,
        Seq::empty(),
        "resume"@,
        resume_line_spec("next_action"@, opt_str(c.next_action)),
        resume_line_spec("acceptance"@, opt_str(c.acceptance_criteria)),
    ] + (if c.blocked_reason is Some {
        seq![resume_line_spec("blocked"@, opt_str(c.blocked_reason))]
    } else {
        Seq::empty()
    }) + (match human_shown(c) {
        Some(h) => seq![resume_line_spec("human"@, Some(h))],
        None => Seq::empty(),
    }) + seq![
        resume_line_spec("handoff"@, opt_str(c.handoff_note)),
        resume_line_spec("verification"@, opt_str(c.last_verification)),
        Seq::empty(),
    ] + body_lines(c.body@)
}

/// The text of the card detail view, one entry per line, and whether its due
/// line shows an overdue date.
#[derive(Debug)]
pub struct DetailText {
    pub lines: Vec<String>,
    pub overdue: bool,
}

/// The detail view's lines for card `c`.
pub fn card_detail_lines(
    cols: &Vec<Column>,
    labels: &Vec<(String, Vec<Label>)>,
    c: &Card,
    priority: &str,
    day: &str,
    today: i64,
) -> (r: DetailText)
    ensures
        views(r.lines@) == detail_lines_spec(cols@, labels@, *c, priority@, day@, today),
        r.overdue == due_text_spec(c.due_date, day@, today).1,
{
    let mut lines: Vec<String> = Vec::new();
    push_line(&mut lines, owned(c.key.as_str()).concat(" ").concat(c.title.as_str()));
    push_line(
        &mut lines,
        owned("column: ").concat(column_name_of(cols, c.column_id.as_str()).as_str()).concat(
            "   priority: ",
        ).concat(priority),
    );
    push_line(&mut lines, owned("assignee: ").concat(or_dash(&c.assignee)).concat("   (a to edit)"));
    push_line(
        &mut lines,
        owned("labels: ").concat(tags_of(labels, c.id.as_str()).as_str()).concat("   (t to edit)"),
    );
    let (due, overdue) = due_text(c.due_date, day, today);
    push_line(&mut lines, due.concat("   (D to edit)"));
    push_line(&mut lines, String::new());
    push_line(&mut lines, owned("resume"));
    push_line(&mut lines, resume_line("next_action", opt_as_str(&c.next_action)));
    push_line(&mut lines, resume_line("acceptance", opt_as_str(&c.acceptance_criteria)));
    let ghost head = views(lines@);
    if c.blocked_reason.is_some() {
        push_line(&mut lines, resume_line("blocked", opt_as_str(&c.blocked_reason)));
    }
    let ghost with_blocked = views(lines@);
    match &c.human_intervention {
        Some(h) => {
            if !crate::text::str_eq(h.as_str(), "none") {
                push_line(&mut lines, resume_line("human", Some(h.as_str())));
            }
        },
        None => {},
    }
    let ghost with_human = views(lines@);
    push_line(&mut lines, resume_line("handoff", opt_as_str(&c.handoff_note)));
    push_line(&mut lines, resume_line("verification", opt_as_str(&c.last_verification)));
    push_line(&mut lines, String::new());
    let ghost tail = views(lines@);
    let mut body = if c.body.unicode_len() == 0 {
        let mut b: Vec<String> = Vec::new();
        push_line(&mut b, owned("(no description - press b to edit)"));
        assert(views(b@) =~= seq!["(no description - press b to edit)"@]);
        b
    } else {
        split_newlines(c.body.as_str())
    };
    let ghost body_v = views(body@);
    lines.append(&mut body);
    proof {
        assert(views(lines@) =~= tail + body_v);
        let want = detail_lines_spec(cols@, labels@, *c, priority@, day@, today);
        assert(tail =~= with_human + seq![
            resume_line_spec("handoff"@, opt_str(c.handoff_note)),
            resume_line_spec("verification"@, opt_str(c.last_verification)),
            Seq::<char>::empty(),
        ]);
        assert(views(lines@) =~= want);
    }
    DetailText { lines, overdue }
}

impl App {
    /// The detail view's lines for the card with `key`, if the board has it.
    pub fn detail_lines(&self, key: &str, priority: &str, day: &str, today: i64) -> (r: Option<
        DetailText,
    >)
        ensures
            match key_index(self.cards@, key@) {
                Some(i) => r matches Some(d) && views(d.lines@) == detail_lines_spec(
                    self.columns@,
                    self.labels@,
                    self.cards@[i],
                    priority@,
                    day@,
                    today,
                ) && d.overdue == due_text_spec(self.cards@[i].due_date, day@, today).1,
                None => r is None,
            },
    {
        match self.card_by_key(key) {
            Some(i) => Some(card_detail_lines(&self.columns, &self.labels, &self.cards[i], priority, day, today)),
            None => None,
        }
    }
}

/// The lines of the agent metadata view of card `c`, its claim judged
/// active while the lease runs past `now`.
pub open spec fn agent_metadata_spec(c: Card, now: i64) -> Seq<Seq<char>> {
    seq![
        c.key@ + " agent metadata"@,
        Seq::empty(),
        "agent_state: "@ + c.agent_state@,
        "claim: "@ + claim_text(opt_str(c.claimed_by), c.lease_expires_at, match c.lease_expires_at {
            Some(t) => t > now,
            None => false,
        }),
        Seq::empty(),
        "agent_weight: "@ + metadata_i64_spec(c.agent_weight),
        "agent_effort: "@ + opt_or_dash(opt_str(c.agent_effort)),
        "suggested_model: "@ + opt_or_dash(opt_str(c.suggested_model)),
        "expected_tokens: "@ + metadata_i64_spec(c.expected_tokens),
        "human_intervention: "@ + opt_or_dash(opt_str(c.human_intervention)),
        Seq::empty(),
        "next_action: "@ + opt_or_dash(opt_str(c.next_action)),
        "blocked_reason: "@ + opt_or_dash(opt_str(c.blocked_reason)),
        "acceptance_criteria: "@ + opt_or_dash(opt_str(c.acceptance_criteria)),
        "handoff_note: "@ + opt_or_dash(opt_str(c.handoff_note)),
        "last_verification: "@ + opt_or_dash(opt_str(c.last_verification)),
        "created_at: "@ + int_decimal(c.created_at as int),
        "updated_at: "@ + int_decimal(c.updated_at as int),
    ]
}

/// The agent metadata view's lines for card `c` at `now`.
pub fn card_agent_metadata_lines(c: &Card, now: i64) -> (r: Vec<String>)
    ensures
        views(r@) == agent_metadata_spec(*c, now),
{
    let mut lines: Vec<String> = Vec::new();
    push_line(&mut lines, owned(c.key.as_str()).concat(" agent metadata"));
    push_line(&mut lines, String::new());
    push_line(&mut lines, owned("agent_state: ").concat(c.agent_state.as_str()));
    push_line(&mut lines, owned("claim: ").concat(claim_detail(c, now).as_str()));
    push_line(&mut lines, String::new());
    push_line(&mut lines, owned("agent_weight: ").concat(metadata_i64(c.agent_weight).as_str()));
    push_line(&mut lines, owned("agent_effort: ").concat(or_dash(&c.agent_effort)));
    push_line(&mut lines, owned("suggested_model: ").concat(or_dash(&c.suggested_model)));
    push_line(&mut lines, owned("expected_tokens: ").concat(metadata_i64(c.expected_tokens).as_str()));
    push_line(&mut lines, owned("human_intervention: ").concat(or_dash(&c.human_intervention)));
    push_line(&mut lines, String::new());
    push_line(&mut lines, owned("next_action: ").concat(or_dash(&c.next_action)));
    push_line(&mut lines, owned("blocked_reason: ").concat(or_dash(&c.blocked_reason)));
    push_line(&mut lines, owned("acceptance_criteria: ").concat(or_dash(&c.acceptance_criteria)));
    push_line(&mut lines, owned("handoff_note: ").concat(or_dash(&c.handoff_note)));
    push_line(&mut lines, owned("last_verification: ").concat(or_dash(&c.last_verification)));
    push_line(&mut lines, owned("created_at: ").concat(i64_to_string(c.created_at).as_str()));
    push_line(&mut lines, owned("updated_at: ").concat(i64_to_string(c.updated_at).as_str()));
    assert(views(lines@) =~= agent_metadata_spec(*c, now));
    lines
}

/// The board header: the board's name, its place among the boards (the
/// first place when it is not listed; at least one board counted) and the
/// board keys.
pub open spec fn header_spec(app: App) -> Seq<char> {
    let pos = match board_pos(app.boards@, app.board.id@) {
        Some(i) => i,
        None => 0,
    };
    let total = if app.boards@.len() == 0 {
        1
    } else {
        app.boards@.len() as int
    };
    " board "@ + "< "@ + " "@ + app.board.name@ + " "@ + " >"@ + " "@ + int_decimal(pos + 1) + "/"@
        + int_decimal(total) + " "@
        + "  (Tab: next board · b: board list · N: new board · D: archive board · U: archived)"@
}

/// A card of a column as its list shows it: the priority marker, key and
/// title, the due day, a mark per label, `[stale]`, and the human gate.
/// `priority`, `day` and `stale` are what the priority marker, the calendar
/// and the staleness rule give for the card.
pub open spec fn card_item_spec(
    c: Card,
    labels: Seq<(String, Vec<Label>)>,
    priority: Seq<char>,
    day: Seq<char>,
    stale: bool,
) -> Seq<char> {
    priority + " "@ + c.key@ + " "@ + c.title@ + (if c.due_date is Some {
        " ⏰"@ + day
    } else {
        Seq::empty()
    }) + match labels_of(labels, c.id@) {
        Some(ls) => label_marks(ls),
        None => Seq::empty(),
    } + (if stale {
        " [stale]"@
    } else {
        Seq::empty()
    }) + match gate_of(c) {
        Some(g) => " [H:"@ + g + "]"@,
        None => Seq::empty(),
    }
}

/// ` ●name` for each label, in order.
pub open spec fn label_marks(ls: Seq<Label>) -> Seq<char>
    decreases ls.len(),
{
    if ls.len() == 0 {
        Seq::empty()
    } else {
        label_marks(ls.drop_last()) + " ●"@ + ls.last().name@
    }
}

/// What the card store's priority marker, calendar and staleness rule give
/// for a card.
#[derive(Debug)]
pub struct CardMarks {
    pub priority: String,
    pub day: String,
    pub stale: bool,
}

/// The text of a column: its title, one item per card it shows, and the
/// selected row when the column has the focus and shows a card.
#[derive(Debug)]
pub struct ColumnView {
    pub title: String,
    pub items: Vec<String>,
    pub selected: Option<usize>,
}

/// The marks of each label of a card.
fn label_marks_of(ls: &Vec<Label>) -> (r: String)
    ensures
        r@ == label_marks(ls@),
{
    let mut out = String::new();
    let mut i: usize = 0;
    while i < ls.len()
        invariant
            i <= ls.len(),
            out@ == label_marks(ls@.take(i as int)),
        decreases ls.len() - i,
    {
        assert(ls@.take(i + 1).drop_last() =~= ls@.take(i as int));
        out = out.concat(" ●").concat(ls[i].name.as_str());
        i = i + 1;
    }
    assert(ls@.take(ls.len() as int) =~= ls@);
    out
}

/// A card's item in its column's list.
pub fn card_item(c: &Card, labels: &Vec<(String, Vec<Label>)>, marks: &CardMarks) -> (r: String)
    ensures
        r@ == card_item_spec(*c, labels@, marks.priority@, marks.day@, marks.stale),
{
    let mut out = owned(marks.priority.as_str()).concat(" ").concat(c.key.as_str()).concat(" ").concat(
        c.title.as_str(),
    );
    if c.due_date.is_some() {
        out = out.concat(" ⏰").concat(marks.day.as_str());
    }
    match find_labels(labels, c.id.as_str()) {
        Some(ls) => {
            out = out.concat(label_marks_of(ls).as_str());
        },
        None => {},
    }
    if marks.stale {
        out = out.concat(" [stale]");
    }
    let gate = match &c.human_intervention {
        Some(h) => human_gate(Some(h.as_str())),
        None => human_gate(None),
    };
    match gate {
        Some(g) => {
            out = out.concat(" [H:").concat(g).concat("]");
        },
        None => {},
    }
    out
}

impl App {
    /// The agent metadata view's lines for the card with `key`, if the board
    /// has it.
    pub fn agent_metadata_lines(&self, key: &str, now: i64) -> (r: Option<Vec<String>>)
        ensures
            match key_index(self.cards@, key@) {
                Some(i) => r matches Some(l) && views(l@) == agent_metadata_spec(self.cards@[i], now),
                None => r is None,
            },
    {
        match self.card_by_key(key) {
            Some(i) => Some(card_agent_metadata_lines(&self.cards[i], now)),
            None => None,
        }
    }

    /// The header line of the board screen.
    pub fn header_text(&self) -> (r: String)
        ensures
            r@ == header_spec(*self),
    {
        let pos = match find_board(&self.boards, self.board.id.as_str()) {
            Some(i) => i,
            None => 0,
        };
        let total = if self.boards.len() == 0 {
            1
        } else {
            self.boards.len()
        };
        owned(" board ").concat("< ").concat(" ").concat(self.board.name.as_str()).concat(" ").concat(
            " >",
        ).concat(" ").concat(usize_to_string(pos + 1).as_str()).concat("/").concat(
            usize_to_string(total).as_str(),
        ).concat(" ").concat(
            "  (Tab: next board · b: board list · N: new board · D: archive board · U: archived)",
        )
    }

    /// The text of column `col`: ` name (count) `, the items of the cards it
    /// shows (`marks` has an entry per card of the board, by position), and
    /// the selected row: the column's cursor, kept on the last card, when the
    /// column has the focus and shows a card.
    pub fn column_view(&self, col: usize, marks: &Vec<CardMarks>) -> (r: ColumnView)
        requires
            col < self.columns.len(),
            col < self.cursors.len(),
            marks.len() == self.cards.len(),
        ensures
            ({
                let idx = column_indices(*self, col as int);
                &&& r.title@ == " "@ + self.columns@[col as int].name@ + " ("@ + int_decimal(
                    idx.len() as int,
                ) + ") "@
                &&& views(r.items@) == Seq::new(
                    idx.len(),
                    |j: int|
                        card_item_spec(
                            self.cards@[idx[j] as int],
                            self.labels@,
                            marks@[idx[j] as int].priority@,
                            marks@[idx[j] as int].day@,
                            marks@[idx[j] as int].stale,
                        ),
                )
                &&& r.selected == if col == self.focus && idx.len() > 0 {
                    Some(
                        if self.cursors@[col as int] < idx.len() {
                            self.cursors@[col as int]
                        } else {
                            (idx.len() - 1) as usize
                        },
                    )
                } else {
                    None::<usize>
                }
            }),
    {
        let idx = self.column_cards(col);
        proof {
            crate::board_app::lemma_shown_prefix_bounds(*self, col as int, self.cards@.len() as int);
        }
        let title = owned(" ").concat(self.columns[col].name.as_str()).concat(" (").concat(
            usize_to_string(idx.len()).as_str(),
        ).concat(") ");
        let ghost want = Seq::new(
            idx@.len(),
            |j: int|
                card_item_spec(
                    self.cards@[idx@[j] as int],
                    self.labels@,
                    marks@[idx@[j] as int].priority@,
                    marks@[idx@[j] as int].day@,
                    marks@[idx@[j] as int].stale,
                ),
        );
        let mut items: Vec<String> = Vec::new();
        let mut j: usize = 0;
        while j < idx.len()
            invariant
                j <= idx.len(),
                idx@ == column_indices(*self, col as int),
                marks.len() == self.cards.len(),
                forall|k: int| 0 <= k < idx@.len() ==> idx@[k] < self.cards.len(),
                want == Seq::new(
                    idx@.len(),
                    |k: int|
                        card_item_spec(
                            self.cards@[idx@[k] as int],
                            self.labels@,
                            marks@[idx@[k] as int].priority@,
                            marks@[idx@[k] as int].day@,
                            marks@[idx@[k] as int].stale,
                        ),
                ),
                views(items@) == want.take(j as int),
            decreases idx.len() - j,
        {
            let k = idx[j];
            let item = card_item(&self.cards[k], &self.labels, &marks[k]);
            push_line(&mut items, item);
            assert(want.take(j + 1) =~= want.take(j as int).push(want[j as int]));
            j = j + 1;
        }
        assert(want.take(idx.len() as int) =~= want);
        let selected = if col == self.focus && idx.len() > 0 {
            let cur = self.cursors[col];
            Some(
                if cur < idx.len() {
                    cur
                } else {
                    idx.len() - 1
                },
            )
        } else {
            None
        };
        ColumnView { title, items, selected }
    }
}

/// Lines, or a single `-` when there are none.
pub open spec fn or_dash_lines(lines: Seq<Seq<char>>) -> Seq<Seq<char>> {
    if lines.len() == 0 {
        seq!["-"@]
    } else {
        lines
    }
}

/// The body of the dependency graph view: the ready stages (nodes two
/// spaces apart), the dependency-blocked cards, then the edges; each
/// section `-` when empty.
pub open spec fn graph_view_spec(
    plan: StagePlan,
    states: Seq<(String, String)>,
    edges: Seq<(Seq<char>, Seq<char>)>,
) -> Seq<Seq<char>> {
    seq!["stages"@] + or_dash_lines(stage_lines_spec(plan.ready_stages@, states, "  "@)) + seq![
        Seq::empty(),
        "dependency blocked"@,
    ] + or_dash_lines(blocked_lines_spec(plan.dependency_blocked@, states, ""@)) + seq![
        Seq::empty(),
        "edges"@,
    ] + or_dash_lines(edge_lines_spec(edges, ""@))
}

fn or_dash_vec(lines: Vec<String>) -> (r: Vec<String>)
    ensures
        views(r@) == or_dash_lines(views(lines@)),
{
    if lines.len() == 0 {
        let mut v: Vec<String> = Vec::new();
        push_line(&mut v, owned("-"));
        assert(views(v@) =~= seq!["-"@]);
        v
    } else {
        lines
    }
}

/// The dependency graph view's lines for a stage plan, the node states and
/// the board's dependency edges.
pub fn dependency_graph_lines(
    plan: &StagePlan,
    states: &Vec<(String, String)>,
    edges: &Vec<(String, String)>,
) -> (r: Vec<String>)
    ensures
        views(r@) == graph_view_spec(*plan, states@, pair_views(edges@)),
{
    let mut lines: Vec<String> = Vec::new();
    push_line(&mut lines, owned("stages"));
    let mut stages = or_dash_vec(stage_lines(&plan.ready_stages, states, "  "));
    let ghost a = views(lines@);
    let ghost sv = views(stages@);
    lines.append(&mut stages);
    assert(views(lines@) =~= a + sv);
    push_line(&mut lines, String::new());
    push_line(&mut lines, owned("dependency blocked"));
    let mut blocked = or_dash_vec(blocked_lines(&plan.dependency_blocked, states, ""));
    let ghost b = views(lines@);
    let ghost bv = views(blocked@);
    lines.append(&mut blocked);
    assert(views(lines@) =~= b + bv);
    push_line(&mut lines, String::new());
    push_line(&mut lines, owned("edges"));
    let mut edge = or_dash_vec(edge_lines(edges, ""));
    let ghost c = views(lines@);
    let ghost ev = views(edge@);
    lines.append(&mut edge);
    assert(views(lines@) =~= c + ev);
    assert(views(lines@) =~= graph_view_spec(*plan, states@, pair_views(edges@)));
    lines
}

} // verus!

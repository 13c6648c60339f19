//! The texts that the agent tools read back: a board overview, a card line
//! of a listing, a card's detail page, and the lookups' refusals. Dates and
//! priority badges come formatted by the caller.
use vstd::prelude::*;
use crate::board_app::Column;
use crate::card::Card;
use crate::listing::{ListEntry, workflow_tag};
use crate::queue::{BadParam, QueueMode, QueueStatus, dependency_suffix_spec, queue_suffix_spec};
use crate::render::{
    Label, board_execution_parts, claim_suffix_spec, execution_parts, label_names,
    label_suffix_spec, labels_of, metadata_i64_spec, metadata_value_spec, tag_of,
};
use crate::text::{int_decimal, join, join_seq, owned, str_eq, views};

verus! {

/// A board as the overview lists it.
#[derive(Debug)]
pub struct BoardEntry {
    pub id: String,
    pub slug: String,
    pub has_context: bool,
    pub archived: bool,
}

pub open spec fn opt(o: Option<&str>) -> Option<Seq<char>> {
    match o {
        Some(s) => Some(s@),
        None => None,
    }
}

/// ` due:DATE` after a card, with `!` before `due` when its due time is
/// before the start of today; empty without a due date. `day` is the due
/// date as the calendar writes it.
pub open spec fn due_suffix_spec(due_date: Option<i64>, day: Seq<char>, today: i64) -> Seq<char> {
    match due_date {
        Some(ms) => (if ms < today {
            " !due:"@
        } else {
            " due:"@
        }) + day,
        None => Seq::empty(),
    }
}

/// The due line of a card's detail: the date, ` (overdue)` when its due
/// time is before the start of today, or `-`.
pub open spec fn due_detail_spec(due_date: Option<i64>, day: Seq<char>, today: i64) -> Seq<char> {
    match due_date {
        Some(ms) => day + if ms < today {
            " (overdue)"@
        } else {
            Seq::empty()
        },
        None => "-"@,
    }
}

/// The labels of a card's detail: their names joined, or `-`.
pub open spec fn detail_labels_spec(table: Seq<(String, Vec<Label>)>, card_id: Seq<char>) -> Seq<char> {
    match labels_of(table, card_id) {
        Some(ls) => join_seq(label_names(ls), ", "@),
        None => "-"@,
    }
}

/// A card's line in a listing: key, column, priority, title, due tag,
/// labels, workflow tag, claim, `[stale]`, execution tag, dependency and
/// queue tags, and the rank reason.
pub open spec fn entry_line_spec(
    c: Card,
    column_name: Seq<char>,
    queue: Option<QueueMode>,
    status: QueueStatus,
    priority: Seq<char>,
    due: Seq<char>,
    labels: Seq<(String, Vec<Label>)>,
    stale: bool,
    now: i64,
    blockers: Seq<Seq<char>>,
    rank_reason: Seq<char>,
) -> Seq<char> {
    c.key@ + "  ["@ + column_name + "] ("@ + priority + ") "@ + c.title@ + due
        + label_suffix_spec(labels, c.id@) + workflow_tag(c) + claim_suffix_spec(c, now) + (if stale {
        " [stale]"@
    } else {
        Seq::empty()
    }) + tag_of(execution_parts(c)) + dependency_suffix_spec(status, blockers)
        + queue_suffix_spec(queue, status) + rank_reason
}

/// A card's line in a listing, from its listing entry.
pub open spec fn list_line_spec(
    c: Card,
    e: ListEntry,
    priority: Seq<char>,
    due: Seq<char>,
    labels: Seq<(String, Vec<Label>)>,
    stale: bool,
    now: i64,
    blockers: Seq<Seq<char>>,
    rank_reason: Seq<char>,
) -> Seq<char> {
    entry_line_spec(
        c,
        e.column_name@,
        e.queue,
        e.queue_status,
        priority,
        due,
        labels,
        stale,
        now,
        blockers,
        rank_reason,
    )
}

/// Why a card ranks where it does: its priority, weight and expected tokens.
pub open spec fn rank_reason_spec(priority: Seq<char>, c: Card) -> Seq<char> {
    " [rank:priority="@ + priority + " weight="@ + metadata_i64_spec(c.agent_weight) + " tokens="@
        + metadata_i64_spec(c.expected_tokens) + "]"@
}

/// A card's line in the board overview.
pub open spec fn board_card_line(c: Card, due: Seq<char>, labels: Seq<(String, Vec<Label>)>) -> Seq<char> {
    "- "@ + c.key@ + " "@ + c.title@ + due + label_suffix_spec(labels, c.id@) + tag_of(
        board_execution_parts(c),
    ) + "\n"@
}

/// The lines of the first `n` cards that belong to column `col`, and how
/// many there are.
pub open spec fn column_lines(
    col: Seq<char>,
    cards: Seq<Card>,
    days: Seq<String>,
    today: i64,
    labels: Seq<(String, Vec<Label>)>,
    n: int,
) -> (Seq<char>, nat)
    decreases n,
{
    if n <= 0 {
        (Seq::empty(), 0)
    } else {
        let (text, count) = column_lines(col, cards, days, today, labels, n - 1);
        if cards[n - 1].column_id@ == col {
            (
                text + board_card_line(
                    cards[n - 1],
                    due_suffix_spec(cards[n - 1].due_date, days[n - 1]@, today),
                    labels,
                ),
                count + 1,
            )
        } else {
            (text, count)
        }
    }
}

/// A column's section of the overview: a heading with its card count, one
/// line per card, and a blank line.
pub open spec fn column_section(
    col: Column,
    cards: Seq<Card>,
    days: Seq<String>,
    today: i64,
    labels: Seq<(String, Vec<Label>)>,
) -> Seq<char> {
    let (text, count) = column_lines(col.id@, cards, days, today, labels, cards.len() as int);
    "## "@ + col.name@ + " ("@ + int_decimal(count as int) + ")\n"@ + text + "\n"@
}

/// The sections of the first `n` columns.
pub open spec fn sections(
    cols: Seq<Column>,
    cards: Seq<Card>,
    days: Seq<String>,
    today: i64,
    labels: Seq<(String, Vec<Label>)>,
    n: int,
) -> Seq<char>
    decreases n,
{
    if n <= 0 {
        Seq::empty()
    } else {
        sections(cols, cards, days, today, labels, n - 1) + column_section(
            cols[n - 1],
            cards,
            days,
            today,
            labels,
        )
    }
}

/// A board of the board list: its slug, ` [context]` when it has agent
/// context, ` (current)` for the board shown.
pub open spec fn board_entry_text(b: BoardEntry, current: Seq<char>) -> Seq<char> {
    b.slug@ + (if b.has_context {
        " [context]"@
    } else {
        Seq::empty()
    }) + if b.id@ == current {
        " (current)"@
    } else {
        Seq::empty()
    }
}

/// The entries of the first `n` boards that are (or are not) archived.
pub open spec fn board_entries(bs: Seq<BoardEntry>, archived: bool, current: Seq<char>, n: int) -> Seq<
    Seq<char>,
>
    decreases n,
{
    if n <= 0 {
        Seq::empty()
    } else {
        let rest = board_entries(bs, archived, current, n - 1);
        if bs[n - 1].archived == archived {
            rest.push(board_entry_text(bs[n - 1], current))
        } else {
            rest
        }
    }
}

/// The board overview: the board's agent context, its columns with their
/// cards, and the lists of active and archived boards.
pub open spec fn board_text_spec(
    context: Option<Seq<char>>,
    cols: Seq<Column>,
    cards: Seq<Card>,
    days: Seq<String>,
    today: i64,
    labels: Seq<(String, Vec<Label>)>,
    boards: Seq<BoardEntry>,
    current: Seq<char>,
) -> Seq<char> {
    let head = match context {
        Some(c) => "board_agent_context:\n"@ + c + "\n\n"@,
        None => Seq::empty(),
    };
    let active = join_seq(board_entries(boards, false, current, boards.len() as int), ", "@);
    let archived = join_seq(board_entries(boards, true, current, boards.len() as int), ", "@);
    head + sections(cols, cards, days, today, labels, cols.len() as int) + "---\nboards: "@ + active + if archived.len()
        == 0 {
        Seq::empty()
    } else {
        "\narchived boards: "@ + archived
    }
}

/// The parts of a card's detail page that other renderers compute.
#[derive(Debug)]
pub struct DetailParts {
    pub column: String,
    pub priority: String,
    /// The calendar text of the card's due date.
    pub day: String,
    /// The start of today.
    pub today: i64,
    pub labels: String,
    pub board_context: Option<String>,
    pub claim: String,
    pub dependencies: String,
    pub execution_notes: String,
    pub activity: String,
    pub memories: String,
}

pub open spec fn ostr(o: Option<String>) -> Option<Seq<char>> {
    match o {
        Some(s) => Some(s@),
        None => None,
    }
}

/// A card's detail page.
pub open spec fn card_detail_spec(c: Card, p: DetailParts) -> Seq<char> {
    c.key@ + "  "@ + c.title@ + "\ncolumn: "@ + p.column@ + "\npriority: "@ + p.priority@
        + "\nassignee: "@ + (match c.assignee {
        Some(a) => a@,
        None => "-"@,
    }) + "\ndue: "@ + due_detail_spec(c.due_date, p.day@, p.today) + "\nlabels: "@ + p.labels@ + "\nboard_agent_context: "@
        + metadata_value_spec(ostr(p.board_context)) + "\n\nagent_metadata:\nagent_state: "@
        + c.agent_state@ + "\nclaim: "@ + p.claim@ + "\nagent_weight: "@ + metadata_i64_spec(
        c.agent_weight,
    ) + "\nagent_effort: "@ + metadata_value_spec(ostr(c.agent_effort)) + "\nsuggested_model: "@
        + metadata_value_spec(ostr(c.suggested_model)) + "\nexpected_tokens: "@ + metadata_i64_spec(
        c.expected_tokens,
    ) + "\nhuman_intervention: "@ + metadata_value_spec(ostr(c.human_intervention))
        + "\nnext_action: "@ + metadata_value_spec(ostr(c.next_action)) + "\nblocked_reason: "@
        + metadata_value_spec(ostr(c.blocked_reason)) + "\nacceptance_criteria: "@
        + metadata_value_spec(ostr(c.acceptance_criteria)) + "\nhandoff_note: "@
        + metadata_value_spec(ostr(c.handoff_note)) + "\nlast_verification: "@ + metadata_value_spec(
        ostr(c.last_verification),
    ) + "\ndependencies:\n"@ + p.dependencies@ + "\nexecution_notes:\n"@ + p.execution_notes@
        + "\nactivity:\n"@ + p.activity@ + "\nrelated_memories:\n"@ + p.memories@ + "\n\nbody:\n"@ + (
    if c.body@.len() == 0 {
        "(no description)"@
    } else {
        c.body@
    })
}

/// The due tag of a card line: `day` is the calendar text of its due date
/// and `today` the start of today.
pub fn due_suffix(due_date: Option<i64>, day: &str, today: i64) -> (r: String)
    ensures
        r@ == due_suffix_spec(due_date, day@, today),
{
    match due_date {
        Some(ms) => {
            if ms < today {
                owned(" !due:").concat(day)
            } else {
                owned(" due:").concat(day)
            }
        },
        None => String::new(),
    }
}

/// The due line of a card's detail page.
pub fn due_detail(due_date: Option<i64>, day: &str, today: i64) -> (r: String)
    ensures
        r@ == due_detail_spec(due_date, day@, today),
{
    match due_date {
        Some(ms) => {
            if ms < today {
                owned(day).concat(" (overdue)")
            } else {
                owned(day)
            }
        },
        None => owned("-"),
    }
}

/// The labels line of a card's detail page.
pub fn detail_labels(table: &Vec<(String, Vec<Label>)>, card_id: &str) -> (r: String)
    ensures
        r@ == detail_labels_spec(table@, card_id@),
{
    match crate::render::find_labels(table, card_id) {
        Some(ls) => join(&crate::render::names_of(ls), ", "),
        None => owned("-"),
    }
}

/// Why a card ranks where it does, with its priority label.
pub fn rank_reason(priority: &str, card: &Card) -> (r: String)
    ensures
        r@ == rank_reason_spec(priority@, *card),
{
    owned(" [rank:priority=").concat(priority).concat(" weight=").concat(
        crate::render::metadata_i64(card.agent_weight).as_str(),
    ).concat(" tokens=").concat(crate::render::metadata_i64(card.expected_tokens).as_str()).concat(
        "]",
    )
}

/// A card's line in a listing, from its listing entry, its priority badge
/// and due tag, the labels, whether it is stale, the time, its readiness
/// and its rank reason (empty unless ranked).
pub fn list_line(
    card: &Card,
    entry: &ListEntry,
    priority: &str,
    due: &str,
    labels: &Vec<(String, Vec<Label>)>,
    stale: bool,
    now: i64,
    readiness: &crate::card::CardReadiness,
    rank_reason: &str,
) -> (r: String)
    ensures
        r@ == list_line_spec(
            *card,
            *entry,
            priority@,
            due@,
            labels@,
            stale,
            now,
            views(readiness.blocked_by@),
            rank_reason@,
        ),
{
    proof {
        reveal_strlit("");
    }
    owned(card.key.as_str()).concat("  [").concat(entry.column_name.as_str()).concat("] (").concat(
        priority,
    ).concat(") ").concat(card.title.as_str()).concat(due).concat(
        crate::render::label_suffix(labels, card.id.as_str()).as_str(),
    ).concat(crate::listing::workflow_suffix(card)).concat(
        crate::render::claim_suffix(card, now).as_str(),
    ).concat(
        if stale {
            " [stale]"
        } else {
            ""
        },
    ).concat(crate::render::execution_suffix(card).as_str()).concat(
        crate::queue::dependency_suffix(entry.queue_status, readiness).as_str(),
    ).concat(crate::queue::queue_suffix(entry.queue, entry.queue_status).as_str()).concat(
        rank_reason,
    )
}

/// Refuses a board slug that names no board.
pub fn no_board(slug: &str) -> (e: BadParam)
    ensures
        e.message@ == "no board '"@ + slug@ + "'"@,
{
    BadParam { message: owned("no board '").concat(slug).concat("'") }
}

/// Refuses a card key that names no card.
pub fn no_card(key: &str) -> (e: BadParam)
    ensures
        e.message@ == "no card '"@ + key@ + "'"@,
{
    BadParam { message: owned("no card '").concat(key).concat("'") }
}

/// The id of the first column named `name`, or the refusal of the name.
pub fn resolve_column(columns: &Vec<Column>, name: &str) -> (r: Result<String, BadParam>)
    ensures
        match r {
            Ok(id) => exists|i: int|
                0 <= i < columns@.len() && columns@[i].name@ == name@ && id@ == columns@[i].id@
                    && forall|j: int| 0 <= j < i ==> columns@[j].name@ != name@,
            Err(e) => e.message@ == "no column '"@ + name@ + "'"@ && forall|i: int|
                0 <= i < columns@.len() ==> columns@[i].name@ != name@,
        },
{
    let mut i: usize = 0;
    while i < columns.len()
        invariant
            i <= columns.len(),
            forall|j: int| 0 <= j < i ==> columns@[j].name@ != name@,
        decreases columns.len() - i,
    {
        if str_eq(columns[i].name.as_str(), name) {
            return Ok(columns[i].id.clone());
        }
        i = i + 1;
    }
    Err(BadParam { message: owned("no column '").concat(name).concat("'") })
}

/// Where a project card may be created: a board must be named, and it may
/// not be the Backlog board. `caller` names the tool in the refusal.
pub fn check_project_board<'a>(board: Option<&'a str>, caller: &str) -> (r: Result<&'a str, BadParam>)
    ensures
        match board {
            None => r matches Err(e) && e.message@ == "`board` is required; pass an existing project board slug or a new project board name. To create in Backlog, use create_card_in_backlog."@,
            Some(b) => if b@ == "backlog"@ {
                r matches Err(e) && e.message@ == caller@
                    + " cannot target the Backlog board; use create_card_in_backlog instead."@
            } else {
                r matches Ok(v) && v@ == b@
            },
        },
{
    match board {
        None => Err(
            BadParam {
                message: owned(
                    "`board` is required; pass an existing project board slug or a new project board name. To create in Backlog, use create_card_in_backlog.",
                ),
            },
        ),
        Some(b) => {
            if str_eq(b, "backlog") {
                Err(
                    BadParam {
                        message: owned(caller).concat(
                            " cannot target the Backlog board; use create_card_in_backlog instead.",
                        ),
                    },
                )
            } else {
                Ok(b)
            }
        },
    }
}

fn opt_as_str(o: &Option<String>) -> (r: Option<&str>)
    ensures
        opt(r) == ostr(*o),
{
    match o {
        Some(s) => Some(s.as_str()),
        None => None,
    }
}

/// A card's detail page from the card and the parts other renderers give.
pub fn card_detail(card: &Card, parts: &DetailParts) -> (r: String)
    ensures
        r@ == card_detail_spec(*card, *parts),
{
    let assignee: &str = match &card.assignee {
        Some(a) => a.as_str(),
        None => "-",
    };
    let ctx = match &parts.board_context {
        Some(c) => Some(c.as_str()),
        None => None,
    };
    let body: &str = if card.body.unicode_len() == 0 {
        "(no description)"
    } else {
        card.body.as_str()
    };
    owned(card.key.as_str()).concat("  ").concat(card.title.as_str()).concat("\ncolumn: ").concat(
        parts.column.as_str(),
    ).concat("\npriority: ").concat(parts.priority.as_str()).concat("\nassignee: ").concat(
        assignee,
    ).concat("\ndue: ").concat(due_detail(card.due_date, parts.day.as_str(), parts.today).as_str()).concat("\nlabels: ").concat(
        parts.labels.as_str(),
    ).concat("\nboard_agent_context: ").concat(crate::render::metadata_value(ctx)).concat(
        "\n\nagent_metadata:\nagent_state: ",
    ).concat(card.agent_state.as_str()).concat("\nclaim: ").concat(parts.claim.as_str()).concat(
        "\nagent_weight: ",
    ).concat(crate::render::metadata_i64(card.agent_weight).as_str()).concat(
        "\nagent_effort: ",
    ).concat(crate::render::metadata_value(opt_as_str(&card.agent_effort))).concat(
        "\nsuggested_model: ",
    ).concat(crate::render::metadata_value(opt_as_str(&card.suggested_model))).concat(
        "\nexpected_tokens: ",
    ).concat(crate::render::metadata_i64(card.expected_tokens).as_str()).concat(
        "\nhuman_intervention: ",
    ).concat(crate::render::metadata_value(opt_as_str(&card.human_intervention))).concat(
        "\nnext_action: ",
    ).concat(crate::render::metadata_value(opt_as_str(&card.next_action))).concat(
        "\nblocked_reason: ",
    ).concat(crate::render::metadata_value(opt_as_str(&card.blocked_reason))).concat(
        "\nacceptance_criteria: ",
    ).concat(crate::render::metadata_value(opt_as_str(&card.acceptance_criteria))).concat(
        "\nhandoff_note: ",
    ).concat(crate::render::metadata_value(opt_as_str(&card.handoff_note))).concat(
        "\nlast_verification: ",
    ).concat(crate::render::metadata_value(opt_as_str(&card.last_verification))).concat(
        "\ndependencies:\n",
    ).concat(parts.dependencies.as_str()).concat("\nexecution_notes:\n").concat(
        parts.execution_notes.as_str(),
    ).concat("\nactivity:\n").concat(parts.activity.as_str()).concat("\nrelated_memories:\n").concat(
        parts.memories.as_str(),
    ).concat("\n\nbody:\n").concat(body)
}

fn board_entry(b: &BoardEntry, current: &str) -> (r: String)
    ensures
        r@ == board_entry_text(*b, current@),
{
    let mut t = owned(b.slug.as_str());
    if b.has_context {
        t.append(" [context]");
    }
    if str_eq(b.id.as_str(), current) {
        t.append(" (current)");
    }
    proof {
        reveal_strlit("");
        assert(t@ =~= board_entry_text(*b, current@));
    }
    t
}

fn board_list(boards: &Vec<BoardEntry>, archived: bool, current: &str) -> (r: String)
    ensures
        r@ == join_seq(board_entries(boards@, archived, current@, boards@.len() as int), ", "@),
{
    let mut out: Vec<String> = Vec::new();
    let mut i: usize = 0;
    while i < boards.len()
        invariant
            i <= boards.len(),
            views(out@) == board_entries(boards@, archived, current@, i as int),
        decreases boards.len() - i,
    {
        if boards[i].archived == archived {
            let e = board_entry(&boards[i], current);
            let ghost before = views(out@);
            out.push(e);
            assert(views(out@) =~= before.push(e@));
        }
        i = i + 1;
    }
    join(&out, ", ")
}

fn column_block(
    col: &Column,
    cards: &Vec<Card>,
    days: &Vec<String>,
    today: i64,
    labels: &Vec<(String, Vec<Label>)>,
) -> (r: String)
    requires
        days.len() == cards.len(),
    ensures
        r@ == column_section(*col, cards@, days@, today, labels@),
{
    let mut text = String::new();
    let mut count: usize = 0;
    let mut i: usize = 0;
    while i < cards.len()
        invariant
            i <= cards.len(),
            days.len() == cards.len(),
            count <= i,
            (text@, count as nat) == column_lines(col.id@, cards@, days@, today, labels@, i as int),
        decreases cards.len() - i,
    {
        let c = &cards[i];
        if str_eq(c.column_id.as_str(), col.id.as_str()) {
            let line = owned("- ").concat(c.key.as_str()).concat(" ").concat(c.title.as_str()).concat(
                due_suffix(c.due_date, days[i].as_str(), today).as_str(),
            ).concat(crate::render::label_suffix(labels, c.id.as_str()).as_str()).concat(
                crate::render::board_execution_suffix(c).as_str(),
            ).concat("\n");
            text.append(line.as_str());
            count = count + 1;
        }
        i = i + 1;
    }
    owned("## ").concat(col.name.as_str()).concat(" (").concat(
        crate::text::usize_to_string(count).as_str(),
    ).concat(")\n").concat(text.as_str()).concat("\n")
}

/// The board overview: the board's agent context (if any), each column
/// with its cards (`days` holds the calendar text of each card's due date, and `today`
/// the start of today), and the active and
/// archived boards, with the board `current` marked.
pub fn board_text(
    context: Option<&str>,
    columns: &Vec<Column>,
    cards: &Vec<Card>,
    days: &Vec<String>,
    today: i64,
    labels: &Vec<(String, Vec<Label>)>,
    boards: &Vec<BoardEntry>,
    current: &str,
) -> (r: String)
    requires
        days.len() == cards.len(),
    ensures
        r@ == board_text_spec(opt(context), columns@, cards@, days@, today, labels@, boards@, current@),
{
    let mut out = match context {
        Some(c) => owned("board_agent_context:\n").concat(c).concat("\n\n"),
        None => String::new(),
    };
    let ghost head = out@;
    let mut i: usize = 0;
    while i < columns.len()
        invariant
            i <= columns.len(),
            days.len() == cards.len(),
            out@ == head + sections(columns@, cards@, days@, today, labels@, i as int),
        decreases columns.len() - i,
    {
        let block = column_block(&columns[i], cards, days, today, labels);
        out.append(block.as_str());
        i = i + 1;
    }
    let active = board_list(boards, false, current);
    let archived = board_list(boards, true, current);
    out.append("---\nboards: ");
    out.append(active.as_str());
    if archived.unicode_len() > 0 {
        out.append("\narchived boards: ");
        out.append(archived.as_str());
    }
    proof {
        reveal_strlit("");
        assert(out@ =~= board_text_spec(opt(context), columns@, cards@, days@, today, labels@, boards@, current@));
    }
    out
}

} // verus!

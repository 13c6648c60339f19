//! The text of the board screen's dialogs: their titles, their list items,
//! which item is selected, and the width of the text prompt.
use vstd::prelude::*;
use crate::board_app::{App, BoardInfo, Column, key_index};
use crate::board_dialogs::{held, hold};
use crate::board_keys::backlog_slug;
use crate::board_nav::{destinations_spec, has_label_spec, move_targets_spec};
use crate::board_state::column_pos;
use crate::board_view::column_name_of;
use crate::render::Label;
use crate::text::{int_decimal, join, join_seq, owned, str_eq, usize_to_string, views};

verus! {

/// A list dialog: its title, the line above the list, one line per item,
/// the selected item and the key hint.
#[derive(Debug)]
pub struct ListDialog {
    pub title: String,
    pub heading: String,
    pub items: Vec<String>,
    pub selected: Option<usize>,
    pub hint: String,
}

/// The selected row of a list of `len` items: the cursor, kept on the last
/// item; none when the list is empty.
pub open spec fn pick_spec(cursor: usize, len: nat) -> Option<usize> {
    if len == 0 {
        None
    } else if cursor < len {
        Some(cursor)
    } else {
        Some((len - 1) as usize)
    }
}

/// A dialog selects a row exactly when its list has one, and the row it
/// selects is in the list.
pub proof fn picked_row_is_in_the_list(cursor: usize, len: nat)
    ensures
        pick_spec(cursor, len) is None <==> len == 0,
        pick_spec(cursor, len) matches Some(i) ==> i < len,
        cursor < len ==> pick_spec(cursor, len) == Some(cursor),
{
}

/// The selected row of a list of `len` items.
pub fn list_pick(cursor: usize, len: usize) -> (r: Option<usize>)
    ensures
        r == pick_spec(cursor, len as nat),
{
    if len == 0 {
        None
    } else if cursor < len {
        Some(cursor)
    } else {
        Some(len - 1)
    }
}

/// `n. ` with `n` right-aligned in two places.
pub open spec fn number_spec(n: int) -> Seq<char> {
    (if n < 10 {
        " "@
    } else {
        Seq::empty()
    }) + int_decimal(n) + ". "@
}

/// The number of the item at `i`, counting from one.
pub fn item_number(i: usize) -> (r: String)
    requires
        i < usize::MAX,
    ensures
        r@ == number_spec(i + 1),
{
    let n = i + 1;
    let digits = usize_to_string(n);
    if n < 10 {
        owned(" ").concat(digits.as_str()).concat(". ")
    } else {
        digits.concat(". ")
    }
}

/// A board of the switcher: `* ` on the current board, its number, name and
/// slug, and ` context` when it has an agent context.
pub open spec fn switcher_item_spec(b: BoardInfo, i: int, current: Seq<char>) -> Seq<char> {
    (if b.id@ == current {
        "* "@
    } else {
        "  "@
    }) + number_spec(i + 1) + b.name@ + " ("@ + b.slug@ + ")"@ + if b.agent_context is Some {
        " context"@
    } else {
        Seq::empty()
    }
}

/// A board as a move destination: its number, name and slug.
pub open spec fn destination_item_spec(b: BoardInfo, i: int) -> Seq<char> {
    number_spec(i + 1) + b.name@ + " ("@ + b.slug@ + ")"@
}

/// A label of the picker: `[x] ` when the card has it, then `●name`.
pub open spec fn label_item_spec(app: App, key: Seq<char>, l: Label) -> Seq<char> {
    (if has_label_spec(app, key, l.name@) {
        "[x] "@
    } else {
        "[ ] "@
    }) + "●"@ + l.name@
}

/// How many cards of the board are in the column with `id`.
pub open spec fn cards_in(cards: Seq<crate::card::Card>, id: Seq<char>) -> nat
    decreases cards.len(),
{
    if cards.len() == 0 {
        0
    } else {
        cards_in(cards.drop_last(), id) + if cards.last().column_id@ == id {
            1nat
        } else {
            0nat
        }
    }
}

/// The width of the text prompt: at least 56, room for the label plus 16
/// and for the input plus 12 (each saturating), but no wider than the
/// screen less 4 (saturating).
pub open spec fn popup_width_spec(label_len: u16, input_len: u16, screen: u16) -> u16 {
    let a: int = if label_len + 16 > u16::MAX {
        u16::MAX as int
    } else {
        label_len + 16
    };
    let b: int = if input_len + 12 > u16::MAX {
        u16::MAX as int
    } else {
        input_len + 12
    };
    let w: int = if a > 56 {
        a
    } else {
        56
    };
    let w2: int = if b > w {
        b
    } else {
        w
    };
    let cap: int = if screen >= 4 {
        screen - 4
    } else {
        0
    };
    (if w2 < cap {
        w2
    } else {
        cap
    }) as u16
}

/// The width of the text prompt for a label and an input of the given
/// lengths on a screen `screen` wide.
pub fn input_popup_width(label_len: u16, input_len: u16, screen: u16) -> (r: u16)
    ensures
        r == popup_width_spec(label_len, input_len, screen),
{
    let a = label_len.saturating_add(16);
    let b = input_len.saturating_add(12);
    let w = if a > 56 {
        a
    } else {
        56
    };
    let w2 = if b > w {
        b
    } else {
        w
    };
    let cap = screen.saturating_sub(4);
    if w2 < cap {
        w2
    } else {
        cap
    }
}

/// The lines of the card archive prompt: the question, and the card's title
/// (or a note that the board has no such card).
pub open spec fn archive_confirm_spec(app: App, key: Seq<char>) -> (Seq<char>, Seq<char>) {
    (
        "Archive "@ + key + "?"@,
        match key_index(app.cards@, key) {
            Some(i) => app.cards@[i].title@,
            None => "(card not found)"@,
        },
    )
}

impl App {
    /// The board switcher: every board, the current one marked.
    pub fn board_switcher_view(&self, cursor: usize) -> (r: ListDialog)
        ensures
            r.title@ == " boards "@,
            views(r.items@) == Seq::new(
                self.boards@.len(),
                |i: int| switcher_item_spec(self.boards@[i], i, self.board.id@),
            ),
            r.selected == pick_spec(cursor, self.boards@.len()),
    {
        let ghost want = Seq::new(
            self.boards@.len(),
            |i: int| switcher_item_spec(self.boards@[i], i, self.board.id@),
        );
        let mut items: Vec<String> = Vec::new();
        let mut i: usize = 0;
        while i < self.boards.len()
            invariant
                i <= self.boards.len(),
                want == Seq::new(
                    self.boards@.len(),
                    |k: int| switcher_item_spec(self.boards@[k], k, self.board.id@),
                ),
                views(items@) == want.take(i as int),
            decreases self.boards.len() - i,
        {
            let b = &self.boards[i];
            let mark = if str_eq(b.id.as_str(), self.board.id.as_str()) {
                "* "
            } else {
                "  "
            };
            let context = if b.agent_context.is_some() {
                " context"
            } else {
                ""
            };
            let line = owned(mark).concat(item_number(i).as_str()).concat(b.name.as_str()).concat(
                " (",
            ).concat(b.slug.as_str()).concat(")").concat(context);
            proof {
                reveal_strlit("");
                assert(line@ == want[i as int]);
            }
            let ghost before = views(items@);
            items.push(line);
            assert(views(items@) =~= before.push(line@));
            assert(want.take(i + 1) =~= want.take(i as int).push(want[i as int]));
            i = i + 1;
        }
        assert(want.take(self.boards.len() as int) =~= want);
        ListDialog {
            title: owned(" boards "),
            heading: String::new(),
            items,
            selected: list_pick(cursor, self.boards.len()),
            hint: String::new(),
        }
    }

    /// The board a card moves to: every other board. From the backlog the
    /// dialog sends the card to a project board.
    pub fn card_board_move_view(&self, key: &str, cursor: usize) -> (r: ListDialog)
        ensures
            ({
                let dest = move_targets_spec(self.boards@, self.board.id@);
                let from_backlog = self.board.slug@ == backlog_slug();
                &&& r.title@ == if from_backlog {
                    " send to project board "@
                } else {
                    " move card to board "@
                }
                &&& r.heading@ == key@ + if from_backlog {
                    " project destination"@
                } else {
                    " destination"@
                }
                &&& views(r.items@) == Seq::new(
                    dest.len(),
                    |j: int| destination_item_spec(self.boards@[dest[j] as int], j),
                )
                &&& r.selected == pick_spec(cursor, dest.len())
                &&& r.hint@ == "Enter: choose column   j/k: select   M/Esc: cancel"@
            }),
    {
        let dest = self.card_move_destinations();
        let from_backlog = str_eq(self.board.slug.as_str(), "backlog");
        let ghost want = Seq::new(
            dest@.len(),
            |j: int| destination_item_spec(self.boards@[dest@[j] as int], j),
        );
        let mut items: Vec<String> = Vec::new();
        let mut j: usize = 0;
        while j < dest.len()
            invariant
                j <= dest.len(),
                forall|k: int| 0 <= k < dest@.len() ==> dest@[k] < self.boards.len(),
                want == Seq::new(
                    dest@.len(),
                    |k: int| destination_item_spec(self.boards@[dest@[k] as int], k),
                ),
                views(items@) == want.take(j as int),
            decreases dest.len() - j,
        {
            let b = &self.boards[dest[j]];
            let line = item_number(j).concat(b.name.as_str()).concat(" (").concat(
                b.slug.as_str(),
            ).concat(")");
            let ghost before = views(items@);
            items.push(line);
            assert(views(items@) =~= before.push(line@));
            assert(want.take(j + 1) =~= want.take(j as int).push(want[j as int]));
            j = j + 1;
        }
        assert(want.take(dest.len() as int) =~= want);
        let (title, heading) = if from_backlog {
            (owned(" send to project board "), owned(key).concat(" project destination"))
        } else {
            (owned(" move card to board "), owned(key).concat(" destination"))
        };
        ListDialog {
            title,
            heading,
            items,
            selected: list_pick(cursor, dest.len()),
            hint: owned("Enter: choose column   j/k: select   M/Esc: cancel"),
        }
    }

    /// The column a card moves to on board `board_name`, whose columns are
    /// `columns`.
    pub fn card_column_move_view(
        &self,
        key: &str,
        board_name: &str,
        columns: &Vec<Column>,
        cursor: usize,
    ) -> (r: ListDialog)
        ensures
            ({
                let from_backlog = self.board.slug@ == backlog_slug();
                &&& r.title@ == if from_backlog {
                    " send to project column "@
                } else {
                    " move card to column "@
                }
                &&& r.heading@ == key@ + " -> "@ + board_name@
                &&& views(r.items@) == Seq::new(
                    columns@.len(),
                    |j: int| number_spec(j + 1) + columns@[j].name@,
                )
                &&& r.selected == pick_spec(cursor, columns@.len())
                &&& r.hint@ == if from_backlog {
                    "Enter: send   j/k: select   b: boards   M/Esc: cancel"@
                } else {
                    "Enter: move   j/k: select   b: boards   M/Esc: cancel"@
                }
            }),
    {
        let from_backlog = str_eq(self.board.slug.as_str(), "backlog");
        let ghost want = Seq::new(columns@.len(), |j: int| number_spec(j + 1) + columns@[j].name@);
        let mut items: Vec<String> = Vec::new();
        let mut j: usize = 0;
        while j < columns.len()
            invariant
                j <= columns.len(),
                want == Seq::new(columns@.len(), |k: int| number_spec(k + 1) + columns@[k].name@),
                views(items@) == want.take(j as int),
            decreases columns.len() - j,
        {
            let line = item_number(j).concat(columns[j].name.as_str());
            let ghost before = views(items@);
            items.push(line);
            assert(views(items@) =~= before.push(line@));
            assert(want.take(j + 1) =~= want.take(j as int).push(want[j as int]));
            j = j + 1;
        }
        assert(want.take(columns.len() as int) =~= want);
        let (title, hint) = if from_backlog {
            (
                owned(" send to project column "),
                owned("Enter: send   j/k: select   b: boards   M/Esc: cancel"),
            )
        } else {
            (
                owned(" move card to column "),
                owned("Enter: move   j/k: select   b: boards   M/Esc: cancel"),
            )
        };
        ListDialog {
            title,
            heading: owned(key).concat(" -> ").concat(board_name),
            items,
            selected: list_pick(cursor, columns.len()),
            hint,
        }
    }

    /// The column manager: each column with the number of the board's cards
    /// in it, the manager's cursor selected.
    pub fn column_manager_view(&self) -> (r: ListDialog)
        ensures
            r.title@ == " columns · "@ + self.board.name@ + " "@,
            views(r.items@) == Seq::new(
                self.columns@.len(),
                |j: int|
                    self.columns@[j].name@ + "  ("@ + int_decimal(
                        cards_in(self.cards@, self.columns@[j].id@) as int,
                    ) + " cards)"@,
            ),
            r.selected == pick_spec(self.col_cursor, self.columns@.len()),
    {
        let ghost want = Seq::new(
            self.columns@.len(),
            |j: int|
                self.columns@[j].name@ + "  ("@ + int_decimal(
                    cards_in(self.cards@, self.columns@[j].id@) as int,
                ) + " cards)"@,
        );
        let mut items: Vec<String> = Vec::new();
        let mut j: usize = 0;
        while j < self.columns.len()
            invariant
                j <= self.columns.len(),
                want == Seq::new(
                    self.columns@.len(),
                    |k: int|
                        self.columns@[k].name@ + "  ("@ + int_decimal(
                            cards_in(self.cards@, self.columns@[k].id@) as int,
                        ) + " cards)"@,
                ),
                views(items@) == want.take(j as int),
            decreases self.columns.len() - j,
        {
            let id = self.columns[j].id.as_str();
            let mut count: usize = 0;
            let mut k: usize = 0;
            while k < self.cards.len()
                invariant
                    k <= self.cards.len(),
                    count == cards_in(self.cards@.take(k as int), id@),
                    count <= k,
                decreases self.cards.len() - k,
            {
                assert(self.cards@.take(k + 1).drop_last() =~= self.cards@.take(k as int));
                if str_eq(self.cards[k].column_id.as_str(), id) {
                    count = count + 1;
                }
                k = k + 1;
            }
            assert(self.cards@.take(self.cards.len() as int) =~= self.cards@);
            let line = owned(self.columns[j].name.as_str()).concat("  (").concat(
                usize_to_string(count).as_str(),
            ).concat(" cards)");
            let ghost before = views(items@);
            items.push(line);
            assert(views(items@) =~= before.push(line@));
            assert(want.take(j + 1) =~= want.take(j as int).push(want[j as int]));
            j = j + 1;
        }
        assert(want.take(self.columns.len() as int) =~= want);
        ListDialog {
            title: owned(" columns · ").concat(self.board.name.as_str()).concat(" "),
            heading: String::new(),
            items,
            selected: list_pick(self.col_cursor, self.columns.len()),
            hint: String::new(),
        }
    }

    /// The column delete dialog: where the cards of the deleted column go.
    pub fn column_delete_view(&self, victim_id: &str, cursor: usize) -> (r: ListDialog)
        ensures
            ({
                let dests = destinations_spec(self.columns@, victim_id@);
                let victim = match column_pos(self.columns@, victim_id@) {
                    Some(i) => self.columns@[i].name@,
                    None => Seq::empty(),
                };
                &&& r.title@ == " delete '"@ + victim + "' → move cards to "@
                &&& views(r.items@) == Seq::new(dests.len(), |j: int| dests[j].1)
                &&& r.selected == pick_spec(cursor, dests.len())
            }),
    {
        let dests = self.delete_destinations(victim_id);
        let victim = column_name_of(&self.columns, victim_id);
        let ghost want = Seq::new(
            crate::depgraph::pair_views(dests@).len(),
            |j: int| crate::depgraph::pair_views(dests@)[j].1,
        );
        let mut items: Vec<String> = Vec::new();
        let mut j: usize = 0;
        while j < dests.len()
            invariant
                j <= dests.len(),
                want == Seq::new(
                    crate::depgraph::pair_views(dests@).len(),
                    |k: int| crate::depgraph::pair_views(dests@)[k].1,
                ),
                views(items@) == want.take(j as int),
            decreases dests.len() - j,
        {
            let line = dests[j].1.clone();
            let ghost before = views(items@);
            items.push(line);
            assert(views(items@) =~= before.push(line@));
            assert(want.take(j + 1) =~= want.take(j as int).push(want[j as int]));
            j = j + 1;
        }
        assert(want.take(dests.len() as int) =~= want);
        ListDialog {
            title: owned(" delete '").concat(victim.as_str()).concat("' → move cards to "),
            heading: String::new(),
            items,
            selected: list_pick(cursor, dests.len()),
            hint: String::new(),
        }
    }

    /// The label picker of card `key`: the typed name, then each candidate
    /// checked when the card has it.
    pub fn label_picker_view(&self, key: &str, input: &str, cursor: usize, candidates: &Vec<Label>) -> (r:
        ListDialog)
        ensures
            r.title@ == " labels: "@ + key@ + " "@,
            r.heading@ == "+ "@ + input@,
            views(r.items@) == Seq::new(
                candidates@.len(),
                |j: int| label_item_spec(*self, key@, candidates@[j]),
            ),
            r.selected == pick_spec(cursor, candidates@.len()),
    {
        let ghost want = Seq::new(
            candidates@.len(),
            |j: int| label_item_spec(*self, key@, candidates@[j]),
        );
        let mut items: Vec<String> = Vec::new();
        let mut j: usize = 0;
        while j < candidates.len()
            invariant
                j <= candidates.len(),
                want == Seq::new(
                    candidates@.len(),
                    |k: int| label_item_spec(*self, key@, candidates@[k]),
                ),
                views(items@) == want.take(j as int),
            decreases candidates.len() - j,
        {
            let name = candidates[j].name.as_str();
            let check = if self.card_has_label(key, name) {
                "[x] "
            } else {
                "[ ] "
            };
            let line = owned(check).concat("●").concat(name);
            let ghost before = views(items@);
            items.push(line);
            assert(views(items@) =~= before.push(line@));
            assert(want.take(j + 1) =~= want.take(j as int).push(want[j as int]));
            j = j + 1;
        }
        assert(want.take(candidates.len() as int) =~= want);
        ListDialog {
            title: owned(" labels: ").concat(key).concat(" "),
            heading: owned("+ ").concat(input),
            items,
            selected: list_pick(cursor, candidates.len()),
            hint: String::new(),
        }
    }

    /// The card archive prompt's two lines.
    pub fn archive_confirm_text(&self, key: &str) -> (r: (String, String))
        ensures
            (r.0@, r.1@) == archive_confirm_spec(*self, key@),
    {
        let title = match self.card_by_key(key) {
            Some(i) => self.cards[i].title.clone(),
            None => owned("(card not found)"),
        };
        (owned("Archive ").concat(key).concat("?"), title)
    }
}

/// The archived boards to restore: `name (slug)` each.
pub fn board_unarchive_view(archived: &Vec<BoardInfo>, cursor: usize) -> (r: ListDialog)
    ensures
        r.title@ == " archived boards "@,
        views(r.items@) == Seq::new(
            archived@.len(),
            |j: int| archived@[j].name@ + " ("@ + archived@[j].slug@ + ")"@,
        ),
        r.selected == pick_spec(cursor, archived@.len()),
{
    let ghost want = Seq::new(
        archived@.len(),
        |j: int| archived@[j].name@ + " ("@ + archived@[j].slug@ + ")"@,
    );
    let mut items: Vec<String> = Vec::new();
    let mut j: usize = 0;
    while j < archived.len()
        invariant
            j <= archived.len(),
            want == Seq::new(
                archived@.len(),
                |k: int| archived@[k].name@ + " ("@ + archived@[k].slug@ + ")"@,
            ),
            views(items@) == want.take(j as int),
        decreases archived.len() - j,
    {
        let line = owned(archived[j].name.as_str()).concat(" (").concat(archived[j].slug.as_str()).concat(
            ")",
        );
        let ghost before = views(items@);
        items.push(line);
        assert(views(items@) =~= before.push(line@));
        assert(want.take(j + 1) =~= want.take(j as int).push(want[j as int]));
        j = j + 1;
    }
    assert(want.take(archived.len() as int) =~= want);
    ListDialog {
        title: owned(" archived boards "),
        heading: String::new(),
        items,
        selected: list_pick(cursor, archived.len()),
        hint: String::new(),
    }
}

/// A board template as the picker shows it: its label, its key, and the
/// names of its columns.
#[derive(Debug)]
pub struct TemplateInfo {
    pub label: String,
    pub key: String,
    pub columns: Vec<String>,
}

/// A template of the picker: its number, label, ` default` on the default
/// template, its key, and its columns separated by ` / `.
pub open spec fn template_item_spec(t: TemplateInfo, i: int, default_index: int) -> Seq<char> {
    number_spec(i + 1) + t.label@ + (if i == default_index {
        " default"@
    } else {
        Seq::empty()
    }) + " ("@ + t.key@ + ") "@ + join_seq(views(t.columns@), " / "@)
}

/// The board template picker for a new board called `name`; the template at
/// `default_index` is marked as the default. The cursor row is selected,
/// kept on the last template (on the first when there are none).
pub fn board_template_view(
    name: &str,
    templates: &Vec<TemplateInfo>,
    default_index: usize,
    cursor: usize,
) -> (r: ListDialog)
    ensures
        r.title@ == " board template "@,
        r.heading@ == "new board: "@ + name@,
        views(r.items@) == Seq::new(
            templates@.len(),
            |j: int| template_item_spec(templates@[j], j, default_index as int),
        ),
        r.selected == Some(held(cursor, templates@.len())),
        r.hint@ == "Enter: create   j/k: select   Esc: cancel"@,
{
    let ghost want = Seq::new(
        templates@.len(),
        |j: int| template_item_spec(templates@[j], j, default_index as int),
    );
    let mut items: Vec<String> = Vec::new();
    let mut j: usize = 0;
    while j < templates.len()
        invariant
            j <= templates.len(),
            want == Seq::new(
                templates@.len(),
                |k: int| template_item_spec(templates@[k], k, default_index as int),
            ),
            views(items@) == want.take(j as int),
        decreases templates.len() - j,
    {
        let t = &templates[j];
        let mark = if j == default_index {
            " default"
        } else {
            ""
        };
        let line = item_number(j).concat(t.label.as_str()).concat(mark).concat(" (").concat(
            t.key.as_str(),
        ).concat(") ").concat(join(&t.columns, " / ").as_str());
        proof {
            reveal_strlit("");
            assert(line@ == want[j as int]);
        }
        let ghost before = views(items@);
        items.push(line);
        assert(views(items@) =~= before.push(line@));
        assert(want.take(j + 1) =~= want.take(j as int).push(want[j as int]));
        j = j + 1;
    }
    assert(want.take(templates.len() as int) =~= want);
    ListDialog {
        title: owned(" board template "),
        heading: owned("new board: ").concat(name),
        items,
        selected: Some(hold(cursor, templates.len())),
        hint: owned("Enter: create   j/k: select   Esc: cancel"),
    }
}

/// A confirmation prompt: its title, its message lines and its key hint.
#[derive(Debug)]
pub struct Prompt {
    pub title: String,
    pub lines: Vec<String>,
    pub hint: String,
}

/// The prompt that archives board `name`.
pub fn board_archive_prompt(name: &str) -> (r: Prompt)
    ensures
        r.title@ == " archive board "@,
        views(r.lines@) == seq![
            "Archive board '"@ + name@ + "'?"@,
            "hidden from the board list; cards are kept (U to restore)"@,
        ],
        r.hint@ == "y: archive   n/Esc: cancel"@,
{
    let mut lines: Vec<String> = Vec::new();
    lines.push(owned("Archive board '").concat(name).concat("'?"));
    lines.push(owned("hidden from the board list; cards are kept (U to restore)"));
    assert(views(lines@) =~= seq![
        "Archive board '"@ + name@ + "'?"@,
        "hidden from the board list; cards are kept (U to restore)"@,
    ]);
    Prompt { title: owned(" archive board "), lines, hint: owned("y: archive   n/Esc: cancel") }
}

/// The prompt that deletes board `name`, with the confirmation typed so far.
pub fn board_delete_prompt(name: &str, confirm: &str) -> (r: Prompt)
    ensures
        r.title@ == " delete board "@,
        views(r.lines@) == seq!["delete board '"@ + name@ + "'?"@, "▸ "@ + confirm@],
        r.hint@ == "type `delete` and Enter · Esc cancel"@,
{
    let mut lines: Vec<String> = Vec::new();
    lines.push(owned("delete board '").concat(name).concat("'?"));
    lines.push(owned("▸ ").concat(confirm));
    assert(views(lines@) =~= seq!["delete board '"@ + name@ + "'?"@, "▸ "@ + confirm@]);
    Prompt {
        title: owned(" delete board "),
        lines,
        hint: owned("type `delete` and Enter · Esc cancel"),
    }
}

/// The text prompt with `label`, showing the input typed so far: its title,
/// its input line and its hint.
pub fn input_prompt(label: &str, buffer: &str) -> (r: Prompt)
    ensures
        r.title@ == " "@ + label@ + " "@,
        views(r.lines@) == seq!["▸ "@ + buffer@],
        r.hint@ == "Enter で確定  / Esc で中断"@,
{
    let mut lines: Vec<String> = Vec::new();
    lines.push(owned("▸ ").concat(buffer));
    assert(views(lines@) =~= seq!["▸ "@ + buffer@]);
    Prompt {
        title: owned(" ").concat(label).concat(" "),
        lines,
        hint: owned("Enter で確定  / Esc で中断"),
    }
}

} // verus!

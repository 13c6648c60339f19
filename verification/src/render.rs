//! Compact text renderings of cards, claims, memories and activity logs,
//! as the agent tools print them.
use vstd::prelude::*;
use vstd::string::*;
use crate::card::{opt_str, Card};
use crate::queue::claim_active;
use crate::text::{
    blank, i64_to_string, int_decimal, is_blank, join, join_seq, lines_of, owned, split_lines,
    str_eq, views,
};

verus! {

/// A label attached to a card.
#[derive(Debug)]
pub struct Label {
    pub name: String,
    pub color: String,
}

/// A recorded memory: a decision, learning or context note.
#[derive(Debug)]
pub struct Memory {
    pub key: String,
    pub kind: String,
    pub title: String,
    pub body: String,
}

/// One entry of a card's activity log; `payload_json` is the JSON detail.
#[derive(Debug)]
pub struct ActivityLog {
    pub created_at: i64,
    pub actor: String,
    pub action: String,
    pub payload_json: String,
}

/// The string fields of an activity payload that the renderer reads.
#[derive(Debug)]
pub struct PayloadFields {
    pub old_key: Option<String>,
    pub new_key: Option<String>,
    pub source_name: Option<String>,
    pub source_slug: Option<String>,
    pub destination_name: Option<String>,
    pub destination_slug: Option<String>,
    pub note: Option<String>,
    pub detail: Option<String>,
}

/// The string that the JSON text `text` holds at the JSON pointer `pointer`,
/// if the text parses and a string stands there. The name covers three
/// steps: parse the text (`serde_json::from_str`), look up the pointer
/// (`Value::pointer`), and keep only a string value; any other outcome is
/// `None`.
pub uninterp spec fn json_string_at(text: Seq<char>, pointer: Seq<char>) -> Option<Seq<char>>;

/// Looks up a string in a JSON text with serde_json. One trusted item stands
/// for two serde_json calls chained together: `serde_json::from_str` into a
/// `serde_json::Value`, then `Value::pointer` on that value (the parsed value
/// is opaque, so the two are not stated apart). The contract only names the
/// combined result (`json_string_at`); what JSON parsing gives is not
/// restated here.
#[verifier::external_body]
fn json_string_field(text: &str, pointer: &str) -> (r: Option<String>)
    ensures
        opt_str(r) == json_string_at(text@, pointer@),
{
    let value: serde_json::Value = match serde_json::from_str(text) {
        Ok(v) => v,
        Err(_) => return None,
    };
    match value.pointer(pointer) {
        Some(serde_json::Value::String(s)) => Some(s.clone()),
        _ => None,
    }
}

pub open spec fn opt_or_dash(v: Option<Seq<char>>) -> Seq<char> {
    match v {
        Some(s) => s,
        None => "-"@,
    }
}

/// `[completion note] <note>` on a line of its own after a non-blank body.
pub open spec fn complete_note_body_spec(base: Seq<char>, note: Seq<char>) -> Seq<char> {
    if blank(base) {
        "[completion note] "@ + note
    } else {
        base + "\n[completion note] "@ + note
    }
}

pub open spec fn claim_suffix_spec(c: Card, now: i64) -> Seq<char> {
    match c.claimed_by {
        Some(who) => if claim_active(c, now) {
            " [claimed:"@ + who@ + "]"@
        } else {
            " [claim-expired:"@ + who@ + "]"@
        },
        None => Seq::empty(),
    }
}

/// The claim line of a card: who holds it and until when.
pub open spec fn claim_text(who: Option<Seq<char>>, lease: Option<i64>, active: bool) -> Seq<char> {
    match (who, lease) {
        (Some(w), Some(t)) => if active {
            w + " until lease_expires_at="@ + int_decimal(t as int)
        } else {
            "expired "@ + w + " at lease_expires_at="@ + int_decimal(t as int)
        },
        (Some(w), None) => w + " without lease"@,
        _ => "-"@,
    }
}

pub open spec fn label_names(ls: Seq<Label>) -> Seq<Seq<char>> {
    ls.map_values(|l: Label| l.name@)
}

/// The labels of the card with id `card_id`, if the table lists it. The
/// table is a list of (card id, labels) pairs read by first match; the store
/// gives each card id once, so this is the map lookup.
pub open spec fn labels_of(table: Seq<(String, Vec<Label>)>, card_id: Seq<char>) -> Option<Seq<Label>> {
    if exists|i: int| 0 <= i < table.len() && table[i].0@ == card_id {
        let i = choose|i: int|
            0 <= i < table.len() && table[i].0@ == card_id && forall|j: int|
                0 <= j < i ==> table[j].0@ != card_id;
        Some(table[i].1@)
    } else {
        None
    }
}

/// No card id occurs twice in a label table.
pub open spec fn card_ids_unique(table: Seq<(String, Vec<Label>)>) -> bool {
    forall|a: int, b: int| 0 <= a < b < table.len() ==> table[a].0@ != table[b].0@
}

/// A label table whose card ids occur once is a map: looking a card up gives
/// its own entry's labels.
pub proof fn label_table_is_a_map(table: Seq<(String, Vec<Label>)>, i: int)
    requires
        card_ids_unique(table),
        0 <= i < table.len(),
    ensures
        labels_of(table, table[i].0@) == Some(table[i].1@),
{
    let id = table[i].0@;
    assert(0 <= i < table.len() && table[i].0@ == id && forall|j: int| 0 <= j < i ==> table[j].0@ != id);
    let k = choose|k: int|
        0 <= k < table.len() && table[k].0@ == id && forall|j: int| 0 <= j < k ==> table[j].0@ != id;
    if k < i {
        assert(table[k].0@ != table[i].0@);
    } else if i < k {
        assert(table[i].0@ != id);
    }
}

pub open spec fn label_suffix_spec(table: Seq<(String, Vec<Label>)>, card_id: Seq<char>) -> Seq<char> {
    match labels_of(table, card_id) {
        Some(ls) => if ls.len() > 0 {
            " ["@ + join_seq(label_names(ls), ", "@) + "]"@
        } else {
            Seq::empty()
        },
        None => Seq::empty(),
    }
}

/// The parts of the board overview's execution tag.
pub open spec fn board_execution_parts(c: Card) -> Seq<Seq<char>> {
    let w: Seq<Seq<char>> = match c.agent_weight {
        Some(w) => seq!["w:"@ + int_decimal(w as int)],
        None => Seq::empty(),
    };
    let h: Seq<Seq<char>> = match c.human_intervention {
        Some(h) => if h@ != "none"@ {
            seq!["human:"@ + h@]
        } else {
            Seq::empty()
        },
        None => Seq::empty(),
    };
    w + h
}

/// The parts of the card list's execution tag.
pub open spec fn execution_parts(c: Card) -> Seq<Seq<char>> {
    let w: Seq<Seq<char>> = match c.agent_weight {
        Some(w) => seq!["w:"@ + int_decimal(w as int)],
        None => Seq::empty(),
    };
    let e: Seq<Seq<char>> = match c.agent_effort {
        Some(e) => seq!["effort:"@ + e@],
        None => Seq::empty(),
    };
    let m: Seq<Seq<char>> = match c.suggested_model {
        Some(m) => seq!["model:"@ + m@],
        None => Seq::empty(),
    };
    let t: Seq<Seq<char>> = match c.expected_tokens {
        Some(t) => seq!["tokens:"@ + int_decimal(t as int)],
        None => Seq::empty(),
    };
    let h: Seq<Seq<char>> = match c.human_intervention {
        Some(h) => if h@ != "none"@ {
            seq!["human:"@ + h@]
        } else {
            Seq::empty()
        },
        None => Seq::empty(),
    };
    w + e + m + t + h
}

/// ` [a b]` for non-empty parts, else empty.
pub open spec fn tag_of(parts: Seq<Seq<char>>) -> Seq<char> {
    if parts.len() == 0 {
        Seq::empty()
    } else {
        " ["@ + join_seq(parts, " "@) + "]"@
    }
}

/// A metadata value, or `-` when unset or blank.
pub open spec fn metadata_value_spec(v: Option<Seq<char>>) -> Seq<char> {
    match v {
        Some(s) => if blank(s) {
            "-"@
        } else {
            s
        },
        None => "-"@,
    }
}

pub open spec fn metadata_i64_spec(v: Option<i64>) -> Seq<char> {
    match v {
        Some(n) => int_decimal(n as int),
        None => "-"@,
    }
}

/// The first line of a text, empty when it has none.
pub open spec fn first_line(s: Seq<char>) -> Seq<char> {
    if lines_of(s).len() > 0 {
        lines_of(s)[0]
    } else {
        Seq::empty()
    }
}

pub open spec fn memory_line(m: Memory) -> Seq<char> {
    if first_line(m.body@).len() == 0 {
        "- "@ + m.key@ + " ["@ + m.kind@ + "] "@ + m.title@
    } else {
        "- "@ + m.key@ + " ["@ + m.kind@ + "] "@ + m.title@ + " - "@ + first_line(m.body@)
    }
}

pub open spec fn memory_lines_spec(ms: Seq<Memory>) -> Seq<char> {
    if ms.len() == 0 {
        "-"@
    } else {
        join_seq(ms.map_values(|m: Memory| memory_line(m)), "\n"@)
    }
}

pub open spec fn fields_view(f: PayloadFields) -> Seq<Option<Seq<char>>> {
    seq![
        opt_str(f.old_key),
        opt_str(f.new_key),
        opt_str(f.source_name),
        opt_str(f.source_slug),
        opt_str(f.destination_name),
        opt_str(f.destination_slug),
        opt_str(f.note),
        opt_str(f.detail),
    ]
}

/// The detail of an activity entry from its payload fields: a board move
/// names both keys and both boards; an execution note is its note; any
/// other action shows its `detail`.
pub open spec fn payload_text(action: Seq<char>, f: Seq<Option<Seq<char>>>) -> Option<Seq<char>> {
    if action == "move_board"@ {
        if f[0] is Some && f[1] is Some && f[2] is Some && f[3] is Some && f[4] is Some
            && f[5] is Some {
            Some(
                f[0]->0 + " -> "@ + f[1]->0 + "; "@ + f[2]->0 + " ("@ + f[3]->0 + ") -> "@ + f[4]->0
                    + " ("@ + f[5]->0 + ")"@,
            )
        } else {
            None
        }
    } else if action == "execution_note"@ {
        f[6]
    } else {
        f[7]
    }
}

/// The payload fields that a JSON payload holds.
pub open spec fn json_fields(payload: Seq<char>) -> Seq<Option<Seq<char>>> {
    seq![
        json_string_at(payload, "/old_key"@),
        json_string_at(payload, "/new_key"@),
        json_string_at(payload, "/source_board/name"@),
        json_string_at(payload, "/source_board/slug"@),
        json_string_at(payload, "/destination_board/name"@),
        json_string_at(payload, "/destination_board/slug"@),
        json_string_at(payload, "/note"@),
        json_string_at(payload, "/detail"@),
    ]
}

pub open spec fn activity_line(l: ActivityLog) -> Seq<char> {
    "- "@ + int_decimal(l.created_at as int) + " "@ + l.actor@ + " "@ + l.action@ + " "@ + match payload_text(
        l.action@,
        json_fields(l.payload_json@),
    ) {
        Some(d) => d,
        None => l.payload_json@,
    }
}

pub open spec fn activity_lines_spec(logs: Seq<ActivityLog>) -> Seq<char> {
    if logs.len() == 0 {
        "-"@
    } else {
        join_seq(logs.map_values(|l: ActivityLog| activity_line(l)), "\n"@)
    }
}

/// The execution note lines of a log, oldest first as given.
pub open spec fn note_lines(logs: Seq<ActivityLog>) -> Seq<Seq<char>>
    decreases logs.len(),
{
    if logs.len() == 0 {
        Seq::empty()
    } else {
        let l = logs.last();
        let rest = note_lines(logs.drop_last());
        if l.action@ == "execution_note"@ && json_string_at(l.payload_json@, "/note"@) is Some {
            rest.push(
                "- "@ + int_decimal(l.created_at as int) + " "@ + l.actor@ + " "@ + json_string_at(
                    l.payload_json@,
                    "/note"@,
                )->0,
            )
        } else {
            rest
        }
    }
}

pub open spec fn execution_note_lines_spec(logs: Seq<ActivityLog>) -> Seq<char> {
    if note_lines(logs).len() == 0 {
        "-"@
    } else {
        join_seq(note_lines(logs), "\n"@)
    }
}

/// Appends a completion note to a card body.
pub fn complete_note_body(base: &str, note: &str) -> (r: String)
    ensures
        r@ == complete_note_body_spec(base@, note@),
{
    if is_blank(base) {
        owned("[completion note] ").concat(note)
    } else {
        owned(base).concat("\n[completion note] ").concat(note)
    }
}

/// ` [claimed:who]` for an active claim, ` [claim-expired:who]` for a lapsed
/// one, else empty.
pub fn claim_suffix(card: &Card, now: i64) -> (r: String)
    ensures
        r@ == claim_suffix_spec(*card, now),
{
    match &card.claimed_by {
        Some(who) => {
            if crate::queue::claim_is_active_at(card, now) {
                owned(" [claimed:").concat(who.as_str()).concat("]")
            } else {
                owned(" [claim-expired:").concat(who.as_str()).concat("]")
            }
        },
        None => String::new(),
    }
}

/// The claim line: `who until lease_expires_at=T` while `active`,
/// `expired who at lease_expires_at=T` after, `who without lease`, or `-`.
pub fn claim_value(claimed_by: Option<&str>, lease_expires_at: Option<i64>, active: bool) -> (r:
    String)
    ensures
        r@ == claim_text(
            match claimed_by {
                Some(w) => Some(w@),
                None => None,
            },
            lease_expires_at,
            active,
        ),
{
    match (claimed_by, lease_expires_at) {
        (Some(who), Some(expires_at)) => {
            if active {
                owned(who).concat(" until lease_expires_at=").concat(
                    i64_to_string(expires_at).as_str(),
                )
            } else {
                owned("expired ").concat(who).concat(" at lease_expires_at=").concat(
                    i64_to_string(expires_at).as_str(),
                )
            }
        },
        (Some(who), None) => owned(who).concat(" without lease"),
        _ => owned("-"),
    }
}

/// The claim line of a card at `now`.
pub fn claim_detail(card: &Card, now: i64) -> (r: String)
    ensures
        r@ == claim_text(opt_str(card.claimed_by), card.lease_expires_at, match card.lease_expires_at {
            Some(t) => t > now,
            None => false,
        }),
{
    let who = match &card.claimed_by {
        Some(w) => Some(w.as_str()),
        None => None,
    };
    let active = match card.lease_expires_at {
        Some(t) => t > now,
        None => false,
    };
    claim_value(who, card.lease_expires_at, active)
}

/// The labels of a card in a `(card id, labels)` table.
pub fn find_labels<'a>(table: &'a Vec<(String, Vec<Label>)>, card_id: &str) -> (r: Option<
    &'a Vec<Label>,
>)
    ensures
        match (r, labels_of(table@, card_id@)) {
            (Some(ls), Some(lv)) => ls@ == lv,
            (None, None) => true,
            _ => false,
        },
{
    let mut i: usize = 0;
    while i < table.len()
        invariant
            i <= table.len(),
            forall|j: int| 0 <= j < i ==> table@[j].0@ != card_id@,
        decreases table.len() - i,
    {
        if str_eq(table[i].0.as_str(), card_id) {
            proof {
                let k = choose|k: int|
                    0 <= k < table@.len() && table@[k].0@ == card_id@ && forall|j: int|
                        0 <= j < k ==> table@[j].0@ != card_id@;
                assert(k == i as int) by {
                    if k < i as int {
                        assert(table@[k].0@ != card_id@);
                    }
                    if k > i as int {
                        assert(table@[i as int].0@ == card_id@);
                    }
                }
            }
            return Some(&table[i].1);
        }
        i = i + 1;
    }
    None
}

/// The names of labels.
pub fn names_of(ls: &Vec<Label>) -> (r: Vec<String>)
    ensures
        views(r@) == label_names(ls@),
{
    let mut out: Vec<String> = Vec::new();
    let mut i: usize = 0;
    while i < ls.len()
        invariant
            i <= ls.len(),
            views(out@) == label_names(ls@).take(i as int),
        decreases ls.len() - i,
    {
        let ghost before = views(out@);
        let name = ls[i].name.clone();
        out.push(name);
        assert(views(out@) =~= before.push(name@));
        assert(label_names(ls@)[i as int] == name@);
        assert(views(out@) =~= label_names(ls@).take(i + 1));
        i = i + 1;
    }
    assert(label_names(ls@).take(ls.len() as int) =~= label_names(ls@));
    out
}

/// A card's labels as a trailing ` [a, b]` tag, or empty.
pub fn label_suffix(labels: &Vec<(String, Vec<Label>)>, card_id: &str) -> (r: String)
    ensures
        r@ == label_suffix_spec(labels@, card_id@),
{
    match find_labels(labels, card_id) {
        Some(ls) => {
            if ls.len() > 0 {
                owned(" [").concat(join(&names_of(ls), ", ").as_str()).concat("]")
            } else {
                String::new()
            }
        },
        None => String::new(),
    }
}

fn push_part(parts: &mut Vec<String>, part: String)
    ensures
        views(final(parts)@) == views(old(parts)@).push(part@),
{
    let ghost before = views(parts@);
    parts.push(part);
    assert(views(parts@) =~= before.push(part@));
}

fn tag(parts: &Vec<String>) -> (r: String)
    ensures
        r@ == tag_of(views(parts@)),
{
    if parts.len() == 0 {
        String::new()
    } else {
        owned(" [").concat(join(parts, " ").as_str()).concat("]")
    }
}

/// The board overview's execution tag: ` [w:N human:H]`, or empty.
pub fn board_execution_suffix(c: &Card) -> (r: String)
    ensures
        r@ == tag_of(board_execution_parts(*c)),
{
    let mut parts: Vec<String> = Vec::new();
    assert(views(parts@) =~= Seq::<Seq<char>>::empty());
    if let Some(weight) = c.agent_weight {
        push_part(&mut parts, owned("w:").concat(i64_to_string(weight).as_str()));
    }
    if let Some(human) = &c.human_intervention {
        if !str_eq(human.as_str(), "none") {
            push_part(&mut parts, owned("human:").concat(human.as_str()));
        }
    }
    assert(views(parts@) =~= board_execution_parts(*c));
    tag(&parts)
}

/// The card list's execution tag with weight, effort, model, tokens and
/// human gate, or empty.
pub fn execution_suffix(c: &Card) -> (r: String)
    ensures
        r@ == tag_of(execution_parts(*c)),
{
    let mut parts: Vec<String> = Vec::new();
    assert(views(parts@) =~= Seq::<Seq<char>>::empty());
    if let Some(weight) = c.agent_weight {
        push_part(&mut parts, owned("w:").concat(i64_to_string(weight).as_str()));
    }
    if let Some(effort) = &c.agent_effort {
        push_part(&mut parts, owned("effort:").concat(effort.as_str()));
    }
    if let Some(model) = &c.suggested_model {
        push_part(&mut parts, owned("model:").concat(model.as_str()));
    }
    if let Some(tokens) = c.expected_tokens {
        push_part(&mut parts, owned("tokens:").concat(i64_to_string(tokens).as_str()));
    }
    if let Some(human) = &c.human_intervention {
        if !str_eq(human.as_str(), "none") {
            push_part(&mut parts, owned("human:").concat(human.as_str()));
        }
    }
    assert(views(parts@) =~= execution_parts(*c));
    tag(&parts)
}

/// A metadata value, or `-` when unset or blank.
pub fn metadata_value(value: Option<&str>) -> (r: &str)
    ensures
        r@ == metadata_value_spec(
            match value {
                Some(s) => Some(s@),
                None => None,
            },
        ),
{
    match value {
        Some(s) => if is_blank(s) {
            "-"
        } else {
            s
        },
        None => "-",
    }
}

/// A metadata number, or `-` when unset.
pub fn metadata_i64(value: Option<i64>) -> (r: String)
    ensures
        r@ == metadata_i64_spec(value),
{
    match value {
        Some(v) => i64_to_string(v),
        None => owned("-"),
    }
}

/// The first line of a text.
pub fn first_line_of(s: &str) -> (r: String)
    ensures
        r@ == first_line(s@),
{
    let lines = split_lines(s);
    if lines.len() > 0 {
        lines[0].clone()
    } else {
        String::new()
    }
}

/// One line per memory: key, kind, title and the body's first line.
pub fn memory_lines(memories: &Vec<Memory>) -> (r: String)
    ensures
        r@ == memory_lines_spec(memories@),
{
    if memories.len() == 0 {
        return owned("-");
    }
    let mut lines: Vec<String> = Vec::new();
    let mut i: usize = 0;
    while i < memories.len()
        invariant
            i <= memories.len(),
            views(lines@) == memories@.map_values(|m: Memory| memory_line(m)).take(i as int),
        decreases memories.len() - i,
    {
        let m = &memories[i];
        let snippet = first_line_of(m.body.as_str());
        let head = owned("- ").concat(m.key.as_str()).concat(" [").concat(m.kind.as_str()).concat(
            "] ",
        ).concat(m.title.as_str());
        let line = if snippet.unicode_len() == 0 {
            head
        } else {
            head.concat(" - ").concat(snippet.as_str())
        };
        let ghost before = views(lines@);
        lines.push(line);
        assert(views(lines@) =~= before.push(line@));
        assert(memories@.map_values(|m: Memory| memory_line(m))[i as int] == line@);
        assert(views(lines@) =~= memories@.map_values(|m: Memory| memory_line(m)).take(i + 1));
        i = i + 1;
    }
    assert(memories@.map_values(|m: Memory| memory_line(m)).take(memories.len() as int)
        =~= memories@.map_values(|m: Memory| memory_line(m)));
    join(&lines, "\n")
}

/// The detail text of an activity entry from its payload fields.
pub fn format_activity_payload(action: &str, fields: &PayloadFields) -> (r: Option<String>)
    ensures
        opt_str(r) == payload_text(action@, fields_view(*fields)),
{
    if str_eq(action, "move_board") {
        match (
            &fields.old_key,
            &fields.new_key,
            &fields.source_name,
            &fields.source_slug,
            &fields.destination_name,
            &fields.destination_slug,
        ) {
            (Some(old_key), Some(new_key), Some(sn), Some(ss), Some(dn), Some(ds)) => {
                let s = owned(old_key.as_str()).concat(" -> ").concat(new_key.as_str()).concat(
                    "; ",
                ).concat(sn.as_str()).concat(" (").concat(ss.as_str()).concat(") -> ").concat(
                    dn.as_str(),
                ).concat(" (").concat(ds.as_str()).concat(")");
                Some(s)
            },
            _ => None,
        }
    } else if str_eq(action, "execution_note") {
        match &fields.note {
            Some(n) => Some(n.clone()),
            None => None,
        }
    } else {
        match &fields.detail {
            Some(d) => Some(d.clone()),
            None => None,
        }
    }
}

/// Reads the payload fields out of a JSON payload.
pub fn payload_fields(payload_json: &str) -> (r: PayloadFields)
    ensures
        fields_view(r) == json_fields(payload_json@),
{
    let f = PayloadFields {
        old_key: json_string_field(payload_json, "/old_key"),
        new_key: json_string_field(payload_json, "/new_key"),
        source_name: json_string_field(payload_json, "/source_board/name"),
        source_slug: json_string_field(payload_json, "/source_board/slug"),
        destination_name: json_string_field(payload_json, "/destination_board/name"),
        destination_slug: json_string_field(payload_json, "/destination_board/slug"),
        note: json_string_field(payload_json, "/note"),
        detail: json_string_field(payload_json, "/detail"),
    };
    assert(fields_view(f) =~= json_fields(payload_json@));
    f
}

/// The detail text of an activity entry, read from its JSON payload.
pub fn render_activity_payload(action: &str, payload_json: &str) -> (r: Option<String>)
    ensures
        opt_str(r) == payload_text(action@, json_fields(payload_json@)),
{
    let fields = payload_fields(payload_json);
    format_activity_payload(action, &fields)
}

/// One line per activity entry: time, actor, action and detail; the raw
/// payload stands in for a detail that cannot be read.
pub fn activity_lines(logs: &Vec<ActivityLog>) -> (r: String)
    ensures
        r@ == activity_lines_spec(logs@),
{
    if logs.len() == 0 {
        return owned("-");
    }
    let mut lines: Vec<String> = Vec::new();
    let mut i: usize = 0;
    while i < logs.len()
        invariant
            i <= logs.len(),
            views(lines@) == logs@.map_values(|l: ActivityLog| activity_line(l)).take(i as int),
        decreases logs.len() - i,
    {
        let log = &logs[i];
        let detail = match render_activity_payload(log.action.as_str(), log.payload_json.as_str()) {
            Some(d) => d,
            None => log.payload_json.clone(),
        };
        let line = owned("- ").concat(i64_to_string(log.created_at).as_str()).concat(" ").concat(
            log.actor.as_str(),
        ).concat(" ").concat(log.action.as_str()).concat(" ").concat(detail.as_str());
        let ghost before = views(lines@);
        lines.push(line);
        assert(views(lines@) =~= before.push(line@));
        assert(logs@.map_values(|l: ActivityLog| activity_line(l))[i as int] == line@);
        assert(views(lines@) =~= logs@.map_values(|l: ActivityLog| activity_line(l)).take(i + 1));
        i = i + 1;
    }
    assert(logs@.map_values(|l: ActivityLog| activity_line(l)).take(logs.len() as int)
        =~= logs@.map_values(|l: ActivityLog| activity_line(l)));
    join(&lines, "\n")
}

/// The execution notes of a log, one line each, or `-`.
pub fn execution_note_lines(logs: &Vec<ActivityLog>) -> (r: String)
    ensures
        r@ == execution_note_lines_spec(logs@),
{
    let mut lines: Vec<String> = Vec::new();
    let mut i: usize = 0;
    while i < logs.len()
        invariant
            i <= logs.len(),
            views(lines@) == note_lines(logs@.take(i as int)),
        decreases logs.len() - i,
    {
        let log = &logs[i];
        proof {
            assert(logs@.take(i + 1).drop_last() =~= logs@.take(i as int));
            assert(logs@.take(i + 1).last() == logs@[i as int]);
        }
        if str_eq(log.action.as_str(), "execution_note") {
            if let Some(note) = json_string_field(log.payload_json.as_str(), "/note") {
                let line = owned("- ").concat(i64_to_string(log.created_at).as_str()).concat(
                    " ",
                ).concat(log.actor.as_str()).concat(" ").concat(note.as_str());
                let ghost before = views(lines@);
                lines.push(line);
                assert(views(lines@) =~= before.push(line@));
            }
        }
        i = i + 1;
    }
    assert(logs@.take(logs.len() as int) =~= logs@);
    if lines.len() == 0 {
        owned("-")
    } else {
        join(&lines, "\n")
    }
}

} // verus!

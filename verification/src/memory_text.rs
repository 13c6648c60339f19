//! Replies of the memory, agent registration and handoff delivery tools.
use vstd::prelude::*;
use crate::render::first_line;
use crate::queue::BadParam;
use crate::text::{int_decimal, join, join_seq, owned, views};

verus! {

pub open spec fn card_tag(card_key: Option<Seq<char>>, prefix: Seq<char>) -> Seq<char> {
    match card_key {
        Some(c) => prefix + c,
        None => Seq::empty(),
    }
}

pub open spec fn oview(o: Option<&str>) -> Option<Seq<char>> {
    match o {
        Some(s) => Some(s@),
        None => None,
    }
}

/// The reply to a recorded memory.
pub fn memory_recorded(key: &str, kind: &str, title: &str) -> (r: String)
    ensures
        r@ == "recorded "@ + key@ + " ["@ + kind@ + "]: "@ + title@,
{
    owned("recorded ").concat(key).concat(" [").concat(kind).concat("]: ").concat(title)
}

/// A memory recalled by key: its key, kind, date and card on the first
/// line, its title as a heading, then its body when it has one.
pub fn memory_detail(
    key: &str,
    kind: &str,
    date: &str,
    card_key: Option<&str>,
    title: &str,
    body: &str,
) -> (r: String)
    ensures
        r@ == key@ + " ["@ + kind@ + "] ("@ + date@ + ")"@ + card_tag(oview(card_key), "  card:"@) + "\n# "@
            + title@ + "\n"@ + if body@.len() == 0 {
            Seq::empty()
        } else {
            body@ + "\n"@
        },
{
    let mut out = owned(key).concat(" [").concat(kind).concat("] (").concat(date).concat(")");
    match card_key {
        Some(c) => {
            out.append("  card:");
            out.append(c);
        },
        None => {},
    }
    out.append("\n# ");
    out.append(title);
    out.append("\n");
    if body.unicode_len() > 0 {
        out.append(body);
        out.append("\n");
    }
    proof {
        reveal_strlit("");
        assert(out@ =~= key@ + " ["@ + kind@ + "] ("@ + date@ + ")"@ + card_tag(oview(card_key), "  card:"@)
            + "\n# "@ + title@ + "\n"@ + if body@.len() == 0 {
            Seq::empty()
        } else {
            body@ + "\n"@
        });
    }
    out
}

/// A line of recalled memories: key, kind, date, card, title, and the
/// first line of the body after a dash.
pub fn memory_hit(key: &str, kind: &str, date: &str, card_key: Option<&str>, title: &str, body: &str) -> (r:
    String)
    ensures
        r@ == key@ + " ["@ + kind@ + "] ("@ + date@ + ")"@ + card_tag(oview(card_key), " card:"@) + " "@
            + title@ + if first_line(body@).len() == 0 {
            Seq::empty()
        } else {
            " — "@ + first_line(body@)
        },
{
    let mut out = owned(key).concat(" [").concat(kind).concat("] (").concat(date).concat(")");
    match card_key {
        Some(c) => {
            out.append(" card:");
            out.append(c);
        },
        None => {},
    }
    out.append(" ");
    out.append(title);
    let snippet = crate::render::first_line_of(body);
    if snippet.unicode_len() > 0 {
        out.append(" — ");
        out.append(snippet.as_str());
    }
    proof {
        reveal_strlit("");
        assert(out@ =~= key@ + " ["@ + kind@ + "] ("@ + date@ + ")"@ + card_tag(oview(card_key), " card:"@)
            + " "@ + title@ + if first_line(body@).len() == 0 {
            Seq::empty()
        } else {
            " — "@ + first_line(body@)
        });
    }
    out
}

/// The reply to a recall by query: one line per memory found, or a note
/// that none was.
pub fn recall_reply(hits: &Vec<String>) -> (r: String)
    ensures
        r@ == if hits@.len() == 0 {
            "no memories found"@
        } else {
            join_seq(views(hits@), "\n"@)
        },
{
    if hits.len() == 0 {
        owned("no memories found")
    } else {
        join(hits, "\n")
    }
}

/// Refuses a memory key that names no memory.
pub fn no_memory(key: &str) -> (e: BadParam)
    ensures
        e.message@ == "no memory '"@ + key@ + "'"@,
{
    BadParam { message: owned("no memory '").concat(key).concat("'") }
}

/// How many memories a recall returns: ten unless asked, held within one
/// to a hundred.
pub fn recall_limit(limit: Option<u32>) -> (r: u32)
    ensures
        r == match limit {
            Some(l) => if l < 1 {
                1
            } else if l > 100 {
                100
            } else {
                l
            },
            None => 10,
        },
{
    match limit {
        Some(l) => {
            if l < 1 {
                1
            } else if l > 100 {
                100
            } else {
                l
            }
        },
        None => 10,
    }
}

/// The reply to an agent registration: the identity to claim cards with,
/// the registration, the claim token and when it expires.
pub fn registration_reply(identity: &str, registration_id: &str, claim_token: &str, expires_at: i64) -> (r:
    String)
    ensures
        r@ == "assigned_identity: "@ + identity@ + "\nregistration_id: "@ + registration_id@
            + "\nclaim_token: "@ + claim_token@ + "\nexpires_at: "@ + int_decimal(expires_at as int)
            + registration_advice(),
{
    owned("assigned_identity: ").concat(identity).concat("\nregistration_id: ").concat(
        registration_id,
    ).concat("\nclaim_token: ").concat(claim_token).concat("\nexpires_at: ").concat(
        crate::text::i64_to_string(expires_at).as_str(),
    ).concat(
        "\n\nUse assigned_identity as update_card.claim and pass claim_token with claim/release operations. Store both outside volatile chat context when possible.",
    )
}

pub open spec fn registration_advice() -> Seq<char> {
    "\n\nUse assigned_identity as update_card.claim and pass claim_token with claim/release operations. Store both outside volatile chat context when possible."@
}

/// The status a delivered handoff is given: `completed` with a delivery
/// note, or `failed` with the delivery error.
pub fn delivery_status(error: Option<&str>) -> (r: (String, String))
    ensures
        match error {
            None => r.0@ == "completed"@ && r.1@ == "delivered by watch-handoffs"@,
            Some(e) => r.0@ == "failed"@ && r.1@ == e@,
        },
{
    match error {
        None => (owned("completed"), owned("delivered by watch-handoffs")),
        Some(e) => (owned("failed"), owned(e)),
    }
}

/// The server status reply: version, schema version, database path,
/// working directory, and the default board as `slug (name)` or `-`.
pub fn server_status(
    version: &str,
    schema_version: &str,
    db_path: &str,
    working_directory: &str,
    default_board: Option<(&str, &str)>,
) -> (r: String)
    ensures
        r@ == "kanban_mcp_status:\nversion: "@ + version@ + "\nschema_version: "@ + schema_version@
            + "\ndb_path: "@ + db_path@ + "\nworking_directory: "@ + working_directory@
            + "\ndefault_board: "@ + match default_board {
            Some((slug, name)) => slug@ + " ("@ + name@ + ")"@,
            None => "-"@,
        },
{
    let board = match default_board {
        Some((slug, name)) => owned(slug).concat(" (").concat(name).concat(")"),
        None => owned("-"),
    };
    owned("kanban_mcp_status:\nversion: ").concat(version).concat("\nschema_version: ").concat(
        schema_version,
    ).concat("\ndb_path: ").concat(db_path).concat("\nworking_directory: ").concat(
        working_directory,
    ).concat("\ndefault_board: ").concat(board.as_str())
}

} // verus!

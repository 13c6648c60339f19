//! The card record that the board, the queues and the renderers read.
use vstd::prelude::*;
use crate::text::owned;

verus! {

/// A card on a board, with its agent execution metadata. Times are epoch
/// milliseconds.
#[derive(Debug)]
pub struct Card {
    pub id: String,
    pub key: String,
    pub title: String,
    pub body: String,
    pub column_id: String,
    pub agent_state: String,
    pub priority: i64,
    pub assignee: Option<String>,
    pub due_date: Option<i64>,
    pub next_action: Option<String>,
    pub blocked_reason: Option<String>,
    pub acceptance_criteria: Option<String>,
    pub handoff_note: Option<String>,
    pub last_verification: Option<String>,
    pub agent_weight: Option<i64>,
    pub agent_effort: Option<String>,
    pub suggested_model: Option<String>,
    pub expected_tokens: Option<i64>,
    pub human_intervention: Option<String>,
    pub claimed_by: Option<String>,
    pub lease_expires_at: Option<i64>,
    pub created_at: i64,
    pub updated_at: i64,
    pub archived_at: Option<i64>,
}

/// Whether a card's upstream dependencies allow it to start.
#[derive(Debug)]
pub struct CardReadiness {
    pub card_key: String,
    pub ready: bool,
    pub closed: bool,
    /// Keys of the upstream cards that still block this one.
    pub blocked_by: Vec<String>,
}

/// The view of an optional text field.
pub open spec fn opt_str(o: Option<String>) -> Option<Seq<char>> {
    match o {
        Some(s) => Some(s@),
        None => None,
    }
}

/// A card is closed once it is archived or its agent state is `done`.
pub open spec fn card_closed(c: Card) -> bool {
    c.archived_at is Some || c.agent_state@ == "done"@
}

/// The human intervention gate of a card, `none` when unset.
pub open spec fn human_value(c: Card) -> Seq<char> {
    match c.human_intervention {
        Some(h) => h@,
        None => "none"@,
    }
}

/// A gate that waits for a person: review, decision or execution.
pub open spec fn is_human_gate(v: Seq<char>) -> bool {
    v == "review"@ || v == "decision"@ || v == "execution"@
}

/// Whether the card is closed.
pub fn is_closed(card: &Card) -> (r: bool)
    ensures
        r == card_closed(*card),
{
    card.archived_at.is_some() || crate::text::str_eq(card.agent_state.as_str(), "done")
}

/// The card's human intervention value, `none` when unset.
pub fn human_intervention_value(card: &Card) -> (r: String)
    ensures
        r@ == human_value(*card),
{
    match &card.human_intervention {
        Some(h) => h.clone(),
        None => owned("none"),
    }
}

} // verus!

//! Work queues: which cards an agent can pick up, which wait for a person,
//! and which are blocked.
use vstd::prelude::*;
use vstd::string::*;
use crate::card::{card_closed, human_value, Card, CardReadiness};
use crate::text::{join, join_seq, owned, str_eq, views};

verus! {

/// A queue view that `list_cards` can be asked for.
#[derive(Clone, Copy, Debug, PartialEq, Eq, Structural)]
pub enum QueueMode {
    Executable,
    Review,
    Blocked,
    Claimed,
    MissingContext,
    DependencyBlocked,
    Human,
}

/// Where a card stands with respect to agent work.
#[derive(Clone, Copy, Debug, PartialEq, Eq, Structural)]
pub enum QueueStatus {
    Executable,
    ReviewRequired,
    HumanDecision,
    HumanExecution,
    Blocked,
    Claimed,
    MissingContext,
    DependencyBlocked,
    Closed,
}

/// A tool argument that was refused, with the message shown to the caller.
#[derive(Debug)]
pub struct BadParam {
    pub message: String,
}

pub open spec fn queue_error_text() -> Seq<char> {
    "queue must be executable, review, blocked, claimed, missing_context, dependency_blocked, or human"@
}

pub open spec fn parse_queue_spec(v: Seq<char>) -> Option<QueueMode> {
    if v == "executable"@ {
        Some(QueueMode::Executable)
    } else if v == "review"@ {
        Some(QueueMode::Review)
    } else if v == "blocked"@ {
        Some(QueueMode::Blocked)
    } else if v == "claimed"@ {
        Some(QueueMode::Claimed)
    } else if v == "missing_context"@ {
        Some(QueueMode::MissingContext)
    } else if v == "dependency_blocked"@ {
        Some(QueueMode::DependencyBlocked)
    } else if v == "human"@ {
        Some(QueueMode::Human)
    } else {
        None
    }
}

/// The statuses that a queue view shows.
pub open spec fn queue_matches(mode: QueueMode, status: QueueStatus) -> bool {
    match mode {
        QueueMode::Executable => status == QueueStatus::Executable,
        QueueMode::Review => status == QueueStatus::ReviewRequired,
        QueueMode::Blocked => status == QueueStatus::Blocked,
        QueueMode::Claimed => status == QueueStatus::Claimed,
        QueueMode::MissingContext => status == QueueStatus::MissingContext,
        QueueMode::DependencyBlocked => status == QueueStatus::DependencyBlocked,
        QueueMode::Human => status == QueueStatus::ReviewRequired || status
            == QueueStatus::HumanDecision || status == QueueStatus::HumanExecution,
    }
}

/// A claim holds while its lease has not expired at `now`.
pub open spec fn claim_active(c: Card, now: i64) -> bool {
    c.claimed_by is Some && c.lease_expires_at is Some && c.lease_expires_at->0 > now
}

/// The queue status of a card, checked in this order: closed, blocked,
/// claimed, waiting on upstream cards, waiting on a person, missing context,
/// executable.
pub open spec fn classify_spec(c: Card, now: i64, ready: bool) -> QueueStatus {
    if card_closed(c) {
        QueueStatus::Closed
    } else if c.blocked_reason is Some {
        QueueStatus::Blocked
    } else if claim_active(c, now) {
        QueueStatus::Claimed
    } else if !ready {
        QueueStatus::DependencyBlocked
    } else if human_value(c) == "review"@ {
        QueueStatus::ReviewRequired
    } else if human_value(c) == "decision"@ {
        QueueStatus::HumanDecision
    } else if human_value(c) == "execution"@ {
        QueueStatus::HumanExecution
    } else if c.acceptance_criteria is None || c.next_action is None {
        QueueStatus::MissingContext
    } else {
        QueueStatus::Executable
    }
}

pub open spec fn queue_label(status: QueueStatus) -> Seq<char> {
    match status {
        QueueStatus::Executable => "executable"@,
        QueueStatus::ReviewRequired => "review"@,
        QueueStatus::HumanDecision => "human-decision"@,
        QueueStatus::HumanExecution => "human-execution"@,
        QueueStatus::Blocked => "blocked"@,
        QueueStatus::Claimed => "claimed"@,
        QueueStatus::MissingContext => "missing-context"@,
        QueueStatus::DependencyBlocked => "dependency-blocked"@,
        QueueStatus::Closed => "closed"@,
    }
}

pub open spec fn queue_suffix_spec(mode: Option<QueueMode>, status: QueueStatus) -> Seq<char> {
    if mode is None {
        Seq::empty()
    } else {
        " [queue:"@ + queue_label(status) + "]"@
    }
}

pub open spec fn dependency_suffix_spec(status: QueueStatus, blockers: Seq<Seq<char>>) -> Seq<char> {
    if status != QueueStatus::DependencyBlocked || blockers.len() == 0 {
        Seq::empty()
    } else {
        " [blocked_by:"@ + join_seq(blockers, ","@) + "]"@
    }
}

impl QueueMode {
    /// Reads a queue name.
    pub fn parse(value: &str) -> (r: Result<QueueMode, BadParam>)
        ensures
            match (r, parse_queue_spec(value@)) {
                (Ok(m), Some(ms)) => m == ms,
                (Err(e), None) => e.message@ == queue_error_text(),
                _ => false,
            },
    {
        if str_eq(value, "executable") {
            Ok(QueueMode::Executable)
        } else if str_eq(value, "review") {
            Ok(QueueMode::Review)
        } else if str_eq(value, "blocked") {
            Ok(QueueMode::Blocked)
        } else if str_eq(value, "claimed") {
            Ok(QueueMode::Claimed)
        } else if str_eq(value, "missing_context") {
            Ok(QueueMode::MissingContext)
        } else if str_eq(value, "dependency_blocked") {
            Ok(QueueMode::DependencyBlocked)
        } else if str_eq(value, "human") {
            Ok(QueueMode::Human)
        } else {
            Err(
                BadParam {
                    message: owned(
                        "queue must be executable, review, blocked, claimed, missing_context, dependency_blocked, or human",
                    ),
                },
            )
        }
    }

    /// Whether a card with this status belongs in this queue view.
    pub fn matches(self, status: QueueStatus) -> (r: bool)
        ensures
            r == queue_matches(self, status),
    {
        match self {
            QueueMode::Executable => status == QueueStatus::Executable,
            QueueMode::Review => status == QueueStatus::ReviewRequired,
            QueueMode::Blocked => status == QueueStatus::Blocked,
            QueueMode::Claimed => status == QueueStatus::Claimed,
            QueueMode::MissingContext => status == QueueStatus::MissingContext,
            QueueMode::DependencyBlocked => status == QueueStatus::DependencyBlocked,
            QueueMode::Human => status == QueueStatus::ReviewRequired || status
                == QueueStatus::HumanDecision || status == QueueStatus::HumanExecution,
        }
    }
}

/// Whether the card's claim is still in force at `now`.
pub fn claim_is_active_at(card: &Card, now: i64) -> (r: bool)
    ensures
        r == claim_active(*card, now),
{
    match card.lease_expires_at {
        Some(expires_at) => card.claimed_by.is_some() && expires_at > now,
        None => false,
    }
}

/// The queue status of a card at `now`.
pub fn classify_queue(card: &Card, now: i64, readiness: &CardReadiness) -> (r: QueueStatus)
    ensures
        r == classify_spec(*card, now, readiness.ready),
{
    if crate::card::is_closed(card) {
        return QueueStatus::Closed;
    }
    if card.blocked_reason.is_some() {
        return QueueStatus::Blocked;
    }
    if claim_is_active_at(card, now) {
        return QueueStatus::Claimed;
    }
    if !readiness.ready {
        return QueueStatus::DependencyBlocked;
    }
    let human = crate::card::human_intervention_value(card);
    if str_eq(human.as_str(), "review") {
        return QueueStatus::ReviewRequired;
    }
    if str_eq(human.as_str(), "decision") {
        return QueueStatus::HumanDecision;
    }
    if str_eq(human.as_str(), "execution") {
        return QueueStatus::HumanExecution;
    }
    if card.acceptance_criteria.is_none() || card.next_action.is_none() {
        return QueueStatus::MissingContext;
    }
    QueueStatus::Executable
}

/// ` [blocked_by:A,B]` for a card that waits on upstream cards, else empty.
pub fn dependency_suffix(status: QueueStatus, readiness: &CardReadiness) -> (r: String)
    ensures
        r@ == dependency_suffix_spec(status, views(readiness.blocked_by@)),
{
    if status != QueueStatus::DependencyBlocked || readiness.blocked_by.len() == 0 {
        return String::new();
    }
    owned(" [blocked_by:").concat(join(&readiness.blocked_by, ",").as_str()).concat("]")
}

/// The label of a queue status.
pub fn queue_status_label(status: QueueStatus) -> (r: &'static str)
    ensures
        r@ == queue_label(status),
{
    match status {
        QueueStatus::Executable => "executable",
        QueueStatus::ReviewRequired => "review",
        QueueStatus::HumanDecision => "human-decision",
        QueueStatus::HumanExecution => "human-execution",
        QueueStatus::Blocked => "blocked",
        QueueStatus::Claimed => "claimed",
        QueueStatus::MissingContext => "missing-context",
        QueueStatus::DependencyBlocked => "dependency-blocked",
        QueueStatus::Closed => "closed",
    }
}

/// ` [queue:label]` when a queue view was asked for, else empty.
pub fn queue_suffix(mode: Option<QueueMode>, status: QueueStatus) -> (r: String)
    ensures
        r@ == queue_suffix_spec(mode, status),
{
    if mode.is_none() {
        return String::new();
    }
    owned(" [queue:").concat(queue_status_label(status)).concat("]")
}

/// A card shown in the executable queue can be started right away: it is
/// open, unblocked, unclaimed, its upstream cards are done, no person has to
/// act first, and it says what to do and when it is done.
pub proof fn executable_cards_are_actionable(c: Card, now: i64, ready: bool)
    requires
        queue_matches(QueueMode::Executable, classify_spec(c, now, ready)),
    ensures
        !card_closed(c),
        c.blocked_reason is None,
        !claim_active(c, now),
        ready,
        !(human_value(c) == "review"@ || human_value(c) == "decision"@ || human_value(c)
            == "execution"@),
        c.next_action is Some,
        c.acceptance_criteria is Some,
{
}

/// The human queue shows exactly the cards that wait on a review, a decision
/// or an execution by a person, and each of these is also open, unblocked,
/// unclaimed and ready.
pub proof fn human_queue_is_the_human_gates(c: Card, now: i64, ready: bool)
    ensures
        queue_matches(QueueMode::Human, classify_spec(c, now, ready)) <==> (!card_closed(c)
            && c.blocked_reason is None && !claim_active(c, now) && ready && (human_value(c)
            == "review"@ || human_value(c) == "decision"@ || human_value(c) == "execution"@)),
{
}

/// Every status but `Closed` belongs to the queue view of its own kind, so
/// each open card is reachable through some queue.
pub proof fn every_open_card_is_in_a_queue(c: Card, now: i64, ready: bool)
    requires
        !card_closed(c),
    ensures
        exists|m: QueueMode| queue_matches(m, classify_spec(c, now, ready)),
{
    let s = classify_spec(c, now, ready);
    let m = match s {
        QueueStatus::Executable => QueueMode::Executable,
        QueueStatus::ReviewRequired => QueueMode::Review,
        QueueStatus::HumanDecision => QueueMode::Human,
        QueueStatus::HumanExecution => QueueMode::Human,
        QueueStatus::Blocked => QueueMode::Blocked,
        QueueStatus::Claimed => QueueMode::Claimed,
        QueueStatus::MissingContext => QueueMode::MissingContext,
        QueueStatus::DependencyBlocked => QueueMode::DependencyBlocked,
        QueueStatus::Closed => QueueMode::Executable,
    };
    assert(queue_matches(m, s));
}

} // verus!

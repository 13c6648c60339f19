use kanterm::card::Card;
use kanterm::render::{
    activity_lines, board_execution_suffix, claim_detail, claim_suffix, claim_value,
    complete_note_body, execution_note_lines, execution_suffix, first_line_of, label_suffix,
    memory_lines, metadata_i64, metadata_value, render_activity_payload, ActivityLog, Label,
    Memory,
};

fn card(key: &str) -> Card {
    Card {
        id: format!("id-{key}"),
        key: key.to_string(),
        title: "task".to_string(),
        body: String::new(),
        column_id: "col".to_string(),
        agent_state: "open".to_string(),
        priority: 1,
        assignee: None,
        due_date: None,
        next_action: None,
        blocked_reason: None,
        acceptance_criteria: None,
        handoff_note: None,
        last_verification: None,
        agent_weight: None,
        agent_effort: None,
        suggested_model: None,
        expected_tokens: None,
        human_intervention: None,
        claimed_by: None,
        lease_expires_at: None,
        created_at: 0,
        updated_at: 0,
        archived_at: None,
    }
}

fn log(created_at: i64, actor: &str, action: &str, payload: &str) -> ActivityLog {
    ActivityLog {
        created_at,
        actor: actor.to_string(),
        action: action.to_string(),
        payload_json: payload.to_string(),
    }
}

#[test]
fn render_agent_metadata_claim_value_marks_active_and_expired_claims() {
    assert_eq!(
        claim_value(Some("agent"), Some(123), true),
        "agent until lease_expires_at=123"
    );
    assert_eq!(
        claim_value(Some("agent"), Some(123), false),
        "expired agent at lease_expires_at=123"
    );
    assert_eq!(
        claim_value(Some("agent"), None, false),
        "agent without lease"
    );
    assert_eq!(claim_value(None, None, false), "-");
}

#[test]
fn render_detail_claim_value_marks_active_and_expired_claims() {
    assert_eq!(
        claim_value(Some("agent"), Some(123), true),
        "agent until lease_expires_at=123"
    );
    assert_eq!(
        claim_value(Some("agent"), Some(123), false),
        "expired agent at lease_expires_at=123"
    );
    assert_eq!(
        claim_value(Some("agent"), None, false),
        "agent without lease"
    );
    assert_eq!(claim_value(None, None, false), "-");
}

#[test]
fn claims_show_as_active_until_the_lease_ends() {
    let mut c = card("KB-1");
    c.claimed_by = Some("codex#1".to_string());
    c.lease_expires_at = Some(100);
    assert_eq!(claim_suffix(&c, 99), " [claimed:codex#1]");
    assert_eq!(claim_suffix(&c, 100), " [claim-expired:codex#1]");
    assert_eq!(claim_detail(&c, 50), "codex#1 until lease_expires_at=100");
    assert_eq!(claim_suffix(&card("KB-2"), 0), "");
}

#[test]
fn completion_notes_append_to_the_body() {
    assert_eq!(
        complete_note_body("実装内容", "CI 通過を確認"),
        "実装内容\n[completion note] CI 通過を確認"
    );
    assert_eq!(complete_note_body("  ", "done"), "[completion note] done");
}

#[test]
fn execution_tags_list_only_set_fields() {
    let mut c = card("KB-1");
    assert_eq!(execution_suffix(&c), "");
    c.agent_weight = Some(3);
    c.agent_effort = Some("low".to_string());
    c.expected_tokens = Some(12000);
    c.human_intervention = Some("none".to_string());
    assert_eq!(execution_suffix(&c), " [w:3 effort:low tokens:12000]");
    c.human_intervention = Some("review".to_string());
    assert_eq!(board_execution_suffix(&c), " [w:3 human:review]");
}

#[test]
fn labels_and_metadata_render_compactly() {
    let labels = vec![(
        "id-KB-1".to_string(),
        vec![
            Label {
                name: "bug".to_string(),
                color: "#f00".to_string(),
            },
            Label {
                name: "ui".to_string(),
                color: "#0f0".to_string(),
            },
        ],
    )];
    assert_eq!(label_suffix(&labels, "id-KB-1"), " [bug, ui]");
    assert_eq!(label_suffix(&labels, "id-KB-2"), "");
    assert_eq!(metadata_value(Some("  ")), "-");
    assert_eq!(metadata_value(Some("gpt-5")), "gpt-5");
    assert_eq!(metadata_i64(Some(12000)), "12000");
    assert_eq!(metadata_i64(None), "-");
    assert_eq!(first_line_of("first\r\nsecond"), "first");
}

#[test]
fn memories_list_one_line_each() {
    let ms = vec![
        Memory {
            key: "M-1".to_string(),
            kind: "decision".to_string(),
            title: "Use sqlite".to_string(),
            body: "Local first.\nMore.".to_string(),
        },
        Memory {
            key: "M-2".to_string(),
            kind: "learning".to_string(),
            title: "Tests".to_string(),
            body: String::new(),
        },
    ];
    assert_eq!(
        memory_lines(&ms),
        "- M-1 [decision] Use sqlite - Local first.\n- M-2 [learning] Tests"
    );
    assert_eq!(memory_lines(&Vec::new()), "-");
}

#[test]
fn activity_payloads_are_read_from_json() {
    assert_eq!(
        render_activity_payload(
            "move_board",
            r#"{"old_key":"KB-1","new_key":"WOR-1","source_board":{"name":"Backlog","slug":"backlog"},"destination_board":{"name":"Work","slug":"work"}}"#
        ),
        Some("KB-1 -> WOR-1; Backlog (backlog) -> Work (work)".to_string())
    );
    assert_eq!(
        render_activity_payload("update", r#"{"detail":"title changed"}"#),
        Some("title changed".to_string())
    );
    assert_eq!(render_activity_payload("update", "not json"), None);
    assert_eq!(render_activity_payload("update", r#"{"detail":3}"#), None);
}

#[test]
fn activity_and_execution_note_lines() {
    let logs = vec![
        log(1000, "codex", "execution_note", r#"{"note":"first attempt hit stale fixture"}"#),
        log(2000, "codex", "update", r#"{"detail":"moved"}"#),
        log(3000, "dana", "execution_note", r#"{"note":"second attempt"}"#),
        log(4000, "dana", "other", "raw"),
    ];
    assert_eq!(
        execution_note_lines(&logs),
        "- 1000 codex first attempt hit stale fixture\n- 3000 dana second attempt"
    );
    assert_eq!(
        activity_lines(&logs),
        "- 1000 codex execution_note first attempt hit stale fixture\n- 2000 codex update moved\n- 3000 dana execution_note second attempt\n- 4000 dana other raw"
    );
    assert_eq!(execution_note_lines(&Vec::new()), "-");
}

#[test]
fn numbers_are_written_in_decimal() {
    assert_eq!(metadata_i64(Some(0)), "0");
    assert_eq!(metadata_i64(Some(-45)), "-45");
    assert_eq!(metadata_i64(Some(i64::MAX)), "9223372036854775807");
    assert_eq!(metadata_i64(Some(i64::MIN)), "-9223372036854775808");
}

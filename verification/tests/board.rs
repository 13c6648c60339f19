use kanterm::board_app::{App, ArchiveBack, BoardInfo, Column, InputKind, Mode};
use kanterm::board_commit::{done_status, moved_status, Commit, Done};
use kanterm::board_dialogs::list_cursor;
use kanterm::board_jump::{human_gate, human_intervention_kind, next_work_kind, NextWorkKind};
use kanterm::board_keys::{scroll_key, Action, Key};
use kanterm::board_state::{optional_i64, parse_usize, resume_value, Resync};
use kanterm::card::{Card, CardReadiness};
use kanterm::queue::{classify_queue, QueueStatus};
use kanterm::render::Label;

fn card(key: &str, column: &str, title: &str) -> Card {
    Card {
        id: format!("id-{key}"),
        key: key.to_string(),
        title: title.to_string(),
        body: String::new(),
        column_id: column.to_string(),
        agent_state: "open".to_string(),
        priority: 1,
        assignee: None,
        due_date: None,
        next_action: Some("do it".to_string()),
        blocked_reason: None,
        acceptance_criteria: Some("done".to_string()),
        handoff_note: None,
        last_verification: None,
        agent_weight: None,
        agent_effort: None,
        suggested_model: None,
        expected_tokens: None,
        human_intervention: None,
        claimed_by: None,
        lease_expires_at: None,
        created_at: 0,
        updated_at: 7,
        archived_at: None,
    }
}

fn readiness(ready: bool) -> CardReadiness {
    CardReadiness {
        card_key: "KB-1".to_string(),
        ready,
        closed: false,
        blocked_by: Vec::new(),
    }
}

fn board(id: &str, name: &str, slug: &str) -> BoardInfo {
    BoardInfo {
        id: id.to_string(),
        name: name.to_string(),
        slug: slug.to_string(),
        agent_context: None,
    }
}

fn column(id: &str, name: &str) -> Column {
    Column {
        id: id.to_string(),
        name: name.to_string(),
    }
}

fn app() -> App {
    let mut review = card("WOR-2", "doing", "Review parser");
    review.human_intervention = Some("review".to_string());
    let mut body = card("WOR-3", "todo", "Ship");
    body.body = "Mentions the PARSER in passing".to_string();
    App {
        board: board("b1", "Work", "work"),
        boards: vec![board("b0", "Backlog", "backlog"), board("b1", "Work", "work")],
        columns: vec![column("todo", "Todo"), column("doing", "Doing")],
        cards: vec![card("WOR-1", "todo", "Write tests"), review, body],
        labels: vec![(
            "id-WOR-1".to_string(),
            vec![Label {
                name: "Parser".to_string(),
                color: "#ff0000".to_string(),
            }],
        )],
        focus: 0,
        cursors: vec![0, 0],
        col_cursor: 0,
        filter: None,
        status: String::new(),
        mode: Mode::Normal,
        should_quit: false,
    }
}

#[test]
fn human_gate_labels_only_intervention_states() {
    assert_eq!(human_gate(Some("review")), Some("review"));
    assert_eq!(human_gate(Some("decision")), Some("decision"));
    assert_eq!(human_gate(Some("execution")), Some("execution"));
    assert_eq!(human_gate(Some("none")), None);
    assert_eq!(human_gate(None), None);
}

#[test]
fn resume_value_keeps_summary_single_line() {
    assert_eq!(resume_value(None), "-");
    assert_eq!(resume_value(Some("   ")), "-");
    assert_eq!(resume_value(Some("first\nsecond")), "first / second");
}

#[test]
fn next_work_classification_prioritizes_actionable_states() {
    let now = 1_000;
    let kind = |c: &Card, r: &CardReadiness| next_work_kind(classify_queue(c, now, r));
    assert_eq!(
        kind(&card("KB-1", "col", "task"), &readiness(true)),
        Some(NextWorkKind::Executable)
    );

    let mut review = card("KB-1", "col", "task");
    review.human_intervention = Some("review".into());
    assert_eq!(kind(&review, &readiness(true)), Some(NextWorkKind::Review));

    let mut missing = card("KB-1", "col", "task");
    missing.next_action = None;
    assert_eq!(
        kind(&missing, &readiness(true)),
        Some(NextWorkKind::MissingContext)
    );

    assert_eq!(
        kind(&card("KB-1", "col", "task"), &readiness(false)),
        Some(NextWorkKind::DependencyBlocked)
    );
}

#[test]
fn next_work_kinds_rank_and_name() {
    assert_eq!(NextWorkKind::Executable.rank(), 0);
    assert_eq!(NextWorkKind::Claimed.rank(), 7);
    assert_eq!(NextWorkKind::HumanExecution.label(), "human-execution");
    assert_eq!(next_work_kind(QueueStatus::Closed), None);
    assert_eq!(
        next_work_kind(QueueStatus::HumanDecision),
        Some(NextWorkKind::Decision)
    );
}

#[test]
fn human_intervention_kind_names_gates_only() {
    assert_eq!(human_intervention_kind(Some("execution")), Some("execution"));
    assert_eq!(human_intervention_kind(Some("none")), None);
    assert_eq!(human_intervention_kind(Some("Review")), None);
    assert_eq!(human_intervention_kind(None), None);
}

#[test]
fn resume_value_trims_and_joins_every_line() {
    assert_eq!(resume_value(Some("  a\nb\nc  ")), "a / b / c");
    assert_eq!(resume_value(Some("single")), "single");
}

#[test]
fn optional_numbers_show_a_dash_when_unset() {
    assert_eq!(optional_i64(Some(-12)), "-12");
    assert_eq!(optional_i64(None), "-");
}

#[test]
fn column_cards_follow_the_filter_in_lowercase() {
    let mut a = app();
    assert_eq!(a.column_cards(0), vec![0, 2]);
    assert_eq!(a.column_cards(1), vec![1]);
    a.filter = Some("parser".to_string());
    // WOR-1 by its label, WOR-3 by its body, WOR-2 by its title.
    assert_eq!(a.column_cards(0), vec![0, 2]);
    assert_eq!(a.column_cards(1), vec![1]);
    a.filter = Some("SHIP".to_string());
    assert_eq!(a.column_cards(0), vec![2]);
    assert!(a.column_cards(1).is_empty());
}

#[test]
fn selection_follows_keys_and_cursor_steps() {
    let mut a = app();
    assert_eq!(a.selected_card(), Some(0));
    a.cursor_delta(1);
    assert_eq!(a.cursors, vec![1, 0]);
    a.cursor_delta(5);
    assert_eq!(a.cursors, vec![1, 0]);
    a.cursor_delta(-9);
    assert_eq!(a.cursors, vec![0, 0]);
    a.focus_delta(3);
    assert_eq!(a.focus, 1);
    a.focus_delta(-3);
    assert_eq!(a.focus, 0);
    a.select_key("WOR-2");
    assert_eq!((a.focus, a.cursors.clone()), (1, vec![0, 0]));
    a.select_key("WOR-3");
    assert_eq!((a.focus, a.cursors.clone()), (0, vec![1, 0]));
    let before = (a.focus, a.cursors.clone());
    a.select_key("NOPE");
    assert_eq!((a.focus, a.cursors.clone()), before);
    assert_eq!(a.card_by_key("WOR-3"), Some(2));
    assert_eq!(a.card_by_key("WOR-9"), None);
}

#[test]
fn reload_keeps_cursors_on_shown_cards() {
    let mut a = app();
    a.cursors = vec![5, 3, 9];
    let cards = vec![card("WOR-1", "todo", "Write tests")];
    a.reload(cards, Vec::new());
    assert_eq!(a.cursors, vec![0, 0]);
    a.cursors = vec![4, 0];
    let cards = vec![
        card("WOR-1", "todo", "a"),
        card("WOR-4", "todo", "b"),
        card("WOR-5", "todo", "c"),
    ];
    a.reload(cards, Vec::new());
    assert_eq!(a.cursors, vec![2, 0]);
}

#[test]
fn refresh_and_switch_keep_focus_on_a_column() {
    let mut a = app();
    a.focus = 1;
    a.col_cursor = 1;
    a.refresh_columns(vec![column("todo", "Todo")], a.cards.iter().map(|c| card(&c.key, &c.column_id, &c.title)).collect(), Vec::new());
    assert_eq!(a.focus, 0);
    assert_eq!(a.col_cursor, 0);
    assert_eq!(a.cursors, vec![0]);
    a.filter = Some("x".to_string());
    a.switch_board(
        board("b0", "Backlog", "backlog"),
        vec![column("bl", "Backlog"), column("x", "X")],
        Vec::new(),
        Vec::new(),
    );
    assert_eq!(a.filter, None);
    assert_eq!(a.cursors, vec![0, 0]);
    assert_eq!(a.board.slug, "backlog");
}

#[test]
fn tab_cycles_to_the_next_board() {
    let mut a = app();
    assert_eq!(a.cycle_board(), Some(0));
    a.board = board("b0", "Backlog", "backlog");
    assert_eq!(a.cycle_board(), Some(1));
    a.boards.truncate(1);
    assert_eq!(a.cycle_board(), None);
}

#[test]
fn labels_and_destinations() {
    let a = app();
    assert!(a.card_has_label("WOR-1", "Parser"));
    assert!(!a.card_has_label("WOR-1", "parser"));
    assert!(!a.card_has_label("WOR-2", "Parser"));
    assert_eq!(
        a.delete_destinations("todo"),
        vec![("doing".to_string(), "Doing".to_string())]
    );
    assert_eq!(a.card_move_destinations(), vec![0]);
    let recent = vec![Label {
        name: "urgent".to_string(),
        color: "#000".to_string(),
    }];
    let offered = a.label_candidates(recent, "WOR-1");
    let names: Vec<&str> = offered.iter().map(|l| l.name.as_str()).collect();
    assert_eq!(names, vec!["urgent", "Parser"]);
}

#[test]
fn jump_to_human_intervention_wraps_and_reports() {
    let mut a = app();
    a.jump_to_human_intervention();
    assert_eq!(a.focus, 1);
    assert_eq!(a.status, "human_intervention: WOR-2 review");
    a.jump_to_human_intervention();
    assert_eq!(a.focus, 1);
    a.filter = Some("ship".to_string());
    a.jump_to_human_intervention();
    assert_eq!(
        a.status,
        "no human-intervention cards visible for filter: ship"
    );
}

#[test]
fn jump_to_next_work_prefers_the_best_rank() {
    let mut a = app();
    let work = vec![
        Some(QueueStatus::MissingContext),
        Some(QueueStatus::ReviewRequired),
        Some(QueueStatus::Executable),
    ];
    a.jump_to_next_work(&work);
    assert_eq!((a.focus, a.cursors.clone()), (0, vec![1, 0]));
    assert_eq!(a.status, "next-work: WOR-3 executable");
    a.jump_to_next_work(&vec![None, None, Some(QueueStatus::Closed)]);
    assert_eq!(a.status, "no next-work cards on this board");
}

#[test]
fn normal_keys_open_screens_and_ask_for_work() {
    let mut a = app();
    assert!(matches!(a.on_normal_key(Key::Char('L')), Action::MoveCard { ref key, ref column } if key == "WOR-1" && column == "Doing"));
    assert!(matches!(a.on_normal_key(Key::Char('H')), Action::Nothing));
    assert!(matches!(a.on_normal_key(Key::Char('J')), Action::ReorderCard { dir: 1, .. }));
    assert!(matches!(a.on_normal_key(Key::Tab), Action::CycleBoard));
    assert!(matches!(a.on_normal_key(Key::Char('w')), Action::NextWork));
    a.on_normal_key(Key::Enter);
    assert!(matches!(a.mode, Mode::Detail { ref key, scroll: 0 } if key == "WOR-1"));
    a.mode = Mode::Normal;
    a.on_normal_key(Key::Char('b'));
    assert!(matches!(a.mode, Mode::BoardSwitcher { cursor: 1 }));
    a.mode = Mode::Normal;
    a.on_normal_key(Key::Char('c'));
    assert!(matches!(a.mode, Mode::ColumnManager));
    a.mode = Mode::Normal;
    a.board.slug = "backlog".to_string();
    a.on_normal_key(Key::Char('D'));
    assert_eq!(a.status, "cannot archive the Backlog board");
    a.on_normal_key(Key::Char('d'));
    assert!(matches!(a.mode, Mode::ArchiveConfirm { ref key, back: ArchiveBack::Normal } if key == "WOR-1"));
    assert_eq!(a.status, "archive? y/n");
    a.mode = Mode::Normal;
    assert!(matches!(a.on_normal_key(Key::Char('r')), Action::Reload));
    assert_eq!(a.status, "reloaded");
    a.on_normal_key(Key::Char('q'));
    assert!(a.should_quit);
}

#[test]
fn detail_keys_scroll_and_open_prompts() {
    let mut a = app();
    a.mode = Mode::Detail {
        key: "WOR-1".to_string(),
        scroll: u16::MAX - 3,
    };
    a.on_detail_key(Key::PageDown);
    assert!(matches!(a.mode, Mode::Detail { scroll: u16::MAX, .. }));
    a.on_detail_key(Key::Char('e'));
    match &a.mode {
        Mode::Input {
            kind: InputKind::EditTitle { key, expected_updated_at },
            buffer,
        } => {
            assert_eq!(key, "WOR-1");
            assert_eq!(*expected_updated_at, 7);
            assert_eq!(buffer, "Write tests");
        }
        other => panic!("unexpected mode {other:?}"),
    }
    a.mode = Mode::Detail {
        key: "WOR-1".to_string(),
        scroll: 0,
    };
    assert!(matches!(a.on_detail_key(Key::Char('t')), Action::OpenLabelPicker { .. }));
    a.on_detail_key(Key::Char('m'));
    assert!(matches!(a.mode, Mode::AgentMetadata { scroll: 0, .. }));
    a.on_agent_metadata_key(Key::Char('m'));
    assert!(matches!(a.mode, Mode::Detail { scroll: 0, .. }));
    assert_eq!(scroll_key(0, Key::Up), Some(0));
    assert_eq!(scroll_key(5, Key::PageUp), Some(0));
    assert_eq!(scroll_key(5, Key::Char('x')), None);
}

#[test]
fn prompts_edit_commit_and_return() {
    let mut a = app();
    a.mode = Mode::Input {
        kind: InputKind::CompleteWithNote {
            key: "WOR-1".to_string(),
            expected_updated_at: 7,
        },
        buffer: String::new(),
    };
    a.on_input_key(Key::Char('o'));
    a.on_input_key(Key::Char('k'));
    a.on_input_key(Key::Char('!'));
    a.on_input_key(Key::Backspace);
    assert!(matches!(a.on_input_key(Key::Enter), Action::Commit));
    match a.commit_input(0) {
        Commit::CompleteCard {
            key,
            body,
            with_note,
            expected_updated_at,
        } => {
            assert_eq!(key, "WOR-1");
            assert_eq!(body, "[completion note] ok");
            assert!(with_note);
            assert_eq!(expected_updated_at, 7);
        }
        other => panic!("unexpected commit {other:?}"),
    }
    a.cards[2].body = "Plan".to_string();
    a.mode = Mode::Input {
        kind: InputKind::CompleteWithNote {
            key: "WOR-3".to_string(),
            expected_updated_at: 7,
        },
        buffer: "  shipped ".to_string(),
    };
    assert!(matches!(a.commit_input(0), Commit::CompleteCard { ref body, .. } if body == "Plan\n\n[completion note] shipped"));
    a.mode = Mode::Input {
        kind: InputKind::Filter,
        buffer: "  ".to_string(),
    };
    assert!(matches!(a.commit_input(0), Commit::Reload));
    assert_eq!(a.status, "filter cleared");
    a.mode = Mode::Input {
        kind: InputKind::NewCard,
        buffer: " ".to_string(),
    };
    assert!(matches!(a.commit_input(0), Commit::Nothing));
    assert_eq!(a.status, "cancelled (empty)");
    a.mode = Mode::Input {
        kind: InputKind::NewBoard,
        buffer: "Launch".to_string(),
    };
    a.commit_input(2);
    assert!(matches!(a.mode, Mode::BoardTemplatePicker { ref name, cursor: 2 } if name == "Launch"));
    a.mode = Mode::Input {
        kind: InputKind::RenameColumn("todo".to_string()),
        buffer: "x".to_string(),
    };
    a.on_input_key(Key::Esc);
    assert!(matches!(a.mode, Mode::ColumnManager));
    a.mode = Mode::Input {
        kind: InputKind::EditDue {
            key: "GONE".to_string(),
            expected_updated_at: 1,
        },
        buffer: String::new(),
    };
    a.return_from_input();
    assert!(matches!(a.mode, Mode::Normal));
}

#[test]
fn archive_prompt_confirms_or_returns() {
    let mut a = app();
    a.mode = Mode::ArchiveConfirm {
        key: "WOR-2".to_string(),
        back: ArchiveBack::Detail,
    };
    assert!(matches!(a.on_archive_confirm_key(Key::Char('x')), Action::Nothing));
    a.on_archive_confirm_key(Key::Esc);
    assert_eq!(a.status, "archive cancelled");
    assert!(matches!(a.mode, Mode::Detail { ref key, .. } if key == "WOR-2"));
    a.mode = Mode::ArchiveConfirm {
        key: "WOR-2".to_string(),
        back: ArchiveBack::Detail,
    };
    assert!(matches!(a.on_archive_confirm_key(Key::Char('y')), Action::ArchiveCard { ref key } if key == "WOR-2"));
    assert!(matches!(a.mode, Mode::Normal));
}

#[test]
fn dialogs_move_their_cursors_within_their_lists() {
    assert_eq!(list_cursor(0, 3, Key::Down), Some(1));
    assert_eq!(list_cursor(2, 3, Key::Char('j')), Some(2));
    assert_eq!(list_cursor(0, 3, Key::Up), Some(0));
    assert_eq!(list_cursor(0, 0, Key::Down), Some(0));
    let mut a = app();
    a.mode = Mode::ColumnManager;
    a.on_columns_key(Key::Char('d'));
    assert!(matches!(a.mode, Mode::ColumnDelete { ref victim_id, cursor: 0 } if victim_id == "todo"));
    match a.on_column_delete_key(Key::Enter) {
        Action::DeleteColumn {
            victim_id,
            dest_id,
            dest_name,
        } => {
            assert_eq!(victim_id, "todo");
            assert_eq!(dest_id, "doing");
            assert_eq!(dest_name, "Doing");
        }
        other => panic!("unexpected action {other:?}"),
    }
    a.columns.truncate(1);
    a.on_columns_key(Key::Char('d'));
    assert_eq!(a.status, "cannot delete the only column");
    a.mode = Mode::BoardDelete {
        board_id: "b9".to_string(),
        board_name: "Old".to_string(),
        confirm: "delet".to_string(),
    };
    a.on_board_delete_key(Key::Enter);
    assert_eq!(a.status, "type `delete` to confirm");
    a.on_board_delete_key(Key::Char('e'));
    assert!(matches!(a.on_board_delete_key(Key::Enter), Action::DeleteBoard { ref board_name, .. } if board_name == "Old"));
    a.mode = Mode::CardBoardMove {
        key: "WOR-1".to_string(),
        cursor: 4,
        back: ArchiveBack::Normal,
    };
    assert!(matches!(a.on_card_board_move_key(Key::Enter), Action::PickBoardForCard { index: 0, .. }));
    a.card_board_picked("WOR-1".to_string(), 0, false, ArchiveBack::Normal);
    assert_eq!(a.status, "board 'Backlog' has no columns");
}

#[test]
fn label_picker_toggles_and_adds() {
    let mut a = app();
    a.open_label_picker(
        "WOR-1".to_string(),
        vec![Label {
            name: "Parser".to_string(),
            color: "#f00".to_string(),
        }],
    );
    assert!(matches!(a.on_label_key(Key::Char(' ')), Action::ToggleLabel { on: true, .. }));
    a.on_label_key(Key::Char(' '));
    a.on_label_key(Key::Char('n'));
    a.on_label_key(Key::Char('e'));
    assert!(matches!(a.on_label_key(Key::Enter), Action::AddLabel { present: false, ref name, .. } if name == "ne"));
    a.refresh_label_picker(Vec::new());
    assert!(matches!(a.mode, Mode::LabelPicker { ref input, cursor: 0, .. } if input.is_empty()));
    a.on_label_key(Key::Char('x'));
    assert!(matches!(a.on_label_key(Key::Enter), Action::AddLabel { present: false, ref name, .. } if name == "x"));
    a.on_label_key(Key::Esc);
    assert!(matches!(a.mode, Mode::Detail { ref key, .. } if key == "WOR-1"));
}

#[test]
fn store_answers_update_the_status_line() {
    assert_eq!(done_status(Done::CompletedWithNote, "KB-1"), "completed KB-1 with note");
    assert_eq!(
        done_status(Done::StaleEdit, "KB-1"),
        "stale edit on KB-1; reloaded latest card"
    );
    assert_eq!(moved_status("KB-1", "Doing"), "moved KB-1 -> Doing");
    let mut a = app();
    let cards = vec![card("WOR-1", "todo", "x"), card("WOR-7", "doing", "y")];
    a.after_store(cards, Vec::new(), Some("WOR-7"), done_status(Done::Created, "WOR-7"));
    assert_eq!((a.focus, a.cursors.clone()), (1, vec![0, 0]));
    assert_eq!(a.status, "created WOR-7");
}

#[test]
fn ui_state_is_saved_and_restored() {
    let mut a = app();
    a.focus = 1;
    let saved = a.save_ui_state();
    assert_eq!(saved.board, "work");
    assert_eq!(saved.focus, "1");
    assert_eq!(saved.selected.as_deref(), Some("WOR-2"));
    let mut b = app();
    b.restore_ui_state(Some(saved.focus.as_str()), None);
    assert_eq!(b.focus, 1);
    b.restore_ui_state(Some("7"), None);
    assert_eq!(b.focus, 1);
    b.restore_ui_state(Some("+0"), Some("WOR-3"));
    assert_eq!((b.focus, b.cursors.clone()), (0, vec![1, 0]));
    assert_eq!(parse_usize("18446744073709551616"), None);
    assert_eq!(parse_usize("+"), None);
    assert_eq!(parse_usize(" 1"), None);
    assert_eq!(parse_usize("42"), Some(42));
}

#[test]
fn saved_state_restores_focus_and_selection() {
    let mut a = app();
    a.cursors = vec![1, 0];
    let saved = a.save_ui_state();
    assert_eq!(saved.selected.as_deref(), Some("WOR-3"));

    let mut b = app();
    b.focus = 1;
    b.restore_ui_state(Some(saved.focus.as_str()), saved.selected.as_deref());
    assert_eq!(b.focus, a.focus);
    let i = b.selected_card().unwrap();
    assert_eq!(b.cards[i].key, "WOR-3");
}

#[test]
fn restoring_a_key_that_two_cards_share_selects_the_first() {
    let mut a = app();
    a.cards[1].key = "WOR-1".to_string();
    a.focus = 1;
    let saved = a.save_ui_state();
    assert_eq!(saved.selected.as_deref(), Some("WOR-1"));
    let mut b = app();
    b.cards[1].key = "WOR-1".to_string();
    b.restore_ui_state(Some(saved.focus.as_str()), saved.selected.as_deref());
    assert_eq!(b.focus, 0);
}

#[test]
fn resync_keeps_or_falls_back() {
    let mut a = app();
    let kept = a.resync_external(vec![board("b1", "Work", "work")]);
    assert!(matches!(kept, Resync::Refresh(0)));
    let lost = a.resync_external(vec![board("b0", "Backlog", "backlog")]);
    assert!(matches!(lost, Resync::Fallback(0)));
    assert!(a.status.contains("unavailable"));
    assert_eq!(
        a.status,
        "current board 'Work' is unavailable; switched to Backlog"
    );
    assert!(matches!(a.mode, Mode::Normal));
}

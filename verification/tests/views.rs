use kanterm::board_answers::{archived_boards, first_other_board, ListedBoard};
use kanterm::board_app::{App, BoardInfo, Column, Mode};
use kanterm::backup::{restore_check, RestoreRefusal};
use kanterm::board_dialog_view::{
    board_archive_prompt, board_delete_prompt, board_template_view, board_unarchive_view,
    input_popup_width, input_prompt, item_number, list_pick, TemplateInfo,
};
use kanterm::board_edits::{
    next_priority, BodyKey, BodySave, PriorityLevels, UndoStep, UndoneCard,
};
use kanterm::board_keys::Key;
use kanterm::board_state::{copy_board, Resync};
use kanterm::board_view::{
    card_item, column_name_of, dependency_graph_lines, due_text, resume_line, split_newlines,
    tags_of, CardMarks,
};
use kanterm::card::{Card, CardReadiness};
use kanterm::card_list::{list_cards, CardFacts};
use kanterm::depgraph::{BlockedNode, StagePlan};
use kanterm::hooks::{parse_pid, pidfile_name, process_matches};
use kanterm::listing::{filter_context, ListParams};
use kanterm::render::Label;
use kanterm::watch_scan::{after_scan, Scan, ScanStep, WatchNext};

fn card(key: &str, column: &str, title: &str) -> Card {
    Card {
        id: format!("id-{key}"),
        key: key.to_string(),
        title: title.to_string(),
        body: String::new(),
        column_id: column.to_string(),
        agent_state: "open".to_string(),
        priority: 1,
        assignee: None,
        due_date: None,
        next_action: Some("do it".to_string()),
        blocked_reason: None,
        acceptance_criteria: Some("done".to_string()),
        handoff_note: None,
        last_verification: None,
        agent_weight: None,
        agent_effort: None,
        suggested_model: None,
        expected_tokens: None,
        human_intervention: None,
        claimed_by: None,
        lease_expires_at: None,
        created_at: 0,
        updated_at: 7,
        archived_at: None,
    }
}

fn board(id: &str, name: &str, slug: &str) -> BoardInfo {
    BoardInfo {
        id: id.to_string(),
        name: name.to_string(),
        slug: slug.to_string(),
        agent_context: None,
    }
}

fn column(id: &str, name: &str) -> Column {
    Column {
        id: id.to_string(),
        name: name.to_string(),
    }
}

fn label(name: &str) -> Label {
    Label {
        name: name.to_string(),
        color: "#00ff00".to_string(),
    }
}

fn app() -> App {
    let mut review = card("WOR-2", "doing", "Review parser");
    review.human_intervention = Some("review".to_string());
    let mut ship = card("WOR-3", "todo", "Ship");
    ship.body = "first line\nsecond line".to_string();
    App {
        board: board("b1", "Work", "work"),
        boards: vec![board("b0", "Backlog", "backlog"), board("b1", "Work", "work")],
        columns: vec![column("todo", "Todo"), column("doing", "Doing")],
        cards: vec![card("WOR-1", "todo", "Write tests"), review, ship],
        labels: vec![("id-WOR-1".to_string(), vec![label("Parser")])],
        focus: 0,
        cursors: vec![0, 0],
        col_cursor: 0,
        filter: None,
        status: String::new(),
        mode: Mode::Normal,
        should_quit: false,
    }
}

fn no_params() -> ListParams {
    ListParams {
        board: None,
        column: None,
        agent_state: None,
        status: None,
        query: None,
        stale: None,
        agent_weight_max: None,
        agent_effort: None,
        suggested_model: None,
        expected_tokens_min: None,
        expected_tokens_max: None,
        human_intervention: None,
        queue: None,
        ranked: None,
    }
}

fn facts(stale: bool) -> CardFacts {
    CardFacts {
        readiness: CardReadiness {
            card_key: "KB-1".to_string(),
            ready: true,
            closed: false,
            blocked_by: Vec::new(),
        },
        stale,
        priority: "normal".to_string(),
        day: String::new(),
    }
}

fn searched_card() -> Card {
    let mut c = card("KB-1", "backlog-todo", "ordinary title");
    c.next_action = Some("Run cargo mutants".to_string());
    c.acceptance_criteria = None;
    c
}

fn listing_for(params: &ListParams, stale: bool) -> String {
    let names = vec![("backlog-todo".to_string(), "Todo".to_string())];
    let ctx = filter_context(params, &names, None, 0, 0);
    list_cards(&vec![searched_card()], &vec![facts(stale)], &Vec::new(), &ctx, false)
}

#[test]
fn due_text_marks_only_past_dates_overdue() {
    let today = 1_781_222_400_000;
    assert_eq!(
        due_text(Some(1_781_136_000_000), "2026-06-11", today),
        ("due: 2026-06-11 (overdue)".to_string(), true)
    );
    assert_eq!(
        due_text(Some(1_781_222_400_000), "2026-06-12", today),
        ("due: 2026-06-12".to_string(), false)
    );
    assert_eq!(due_text(None, "", today), ("due: -".to_string(), false));
}

#[test]
fn read_list_cards_query_matches_next_action() {
    let mut query = no_params();
    query.query = Some("mutants".to_string());
    let out = listing_for(&query, false);
    assert!(out.contains("KB-1"));
    assert!(out.contains("[next]"));

    let mut fresh_params = no_params();
    fresh_params.stale = Some(false);
    let fresh = listing_for(&fresh_params, false);
    assert!(fresh.contains("KB-1"));

    let mut stale_params = no_params();
    stale_params.stale = Some(true);
    let stale = listing_for(&stale_params, false);
    assert!(stale.contains("no matching"));
}

#[test]
fn list_list_cards_query_matches_next_action() {
    let mut query = no_params();
    query.query = Some("mutants".to_string());
    let out = listing_for(&query, false);
    assert!(out.contains("KB-1"));
    assert!(out.contains("[next]"));

    let mut fresh_params = no_params();
    fresh_params.stale = Some(false);
    let fresh = listing_for(&fresh_params, false);
    assert!(fresh.contains("KB-1"));

    let mut stale_params = no_params();
    stale_params.stale = Some(true);
    let stale = listing_for(&stale_params, false);
    assert!(stale.contains("no matching"));
}

#[test]
fn resync_external_refreshes_board_metadata_and_columns() {
    let mut a = app();
    let mut work = board("b1", "Work", "work");
    work.agent_context = Some("Run checks before closing.".to_string());

    assert_eq!(a.board.agent_context, None);
    assert!(!a.columns.iter().any(|c| c.name == "Review"));

    match a.resync_external(vec![board("b0", "Backlog", "backlog"), work]) {
        Resync::Refresh(_) => {
            let fresh = app();
            a.refresh_columns(
                vec![column("todo", "Todo"), column("doing", "Doing"), column("review", "Review")],
                fresh.cards,
                fresh.labels,
            );
        }
        _ => panic!("the current board is still listed"),
    }

    assert_eq!(
        a.board.agent_context.as_deref(),
        Some("Run checks before closing.")
    );
    assert!(a.columns.iter().any(|c| c.name == "Review"));
}

#[test]
fn resync_external_recovers_when_current_board_disappears() {
    let mut a = app();
    assert_eq!(a.board.id, "b1");
    a.mode = Mode::ColumnManager;

    match a.resync_external(vec![board("b0", "Backlog", "backlog")]) {
        Resync::Fallback(i) => {
            let first = copy_board(&a.boards[i]);
            a.switch_board(first, vec![column("inbox", "Inbox")], Vec::new(), Vec::new());
        }
        _ => panic!("the current board is gone"),
    }

    assert_ne!(a.board.id, "b1");
    assert_eq!(a.board.slug, "backlog");
    assert!(matches!(a.mode, Mode::Normal));
    assert!(a.status.contains("unavailable"));
}

#[test]
fn body_text_splits_at_every_line_break() {
    assert_eq!(split_newlines("a\nb"), vec!["a", "b"]);
    assert_eq!(split_newlines("a\n"), vec!["a", ""]);
    assert_eq!(split_newlines(""), vec![""]);
    assert_eq!(split_newlines("a\r\nb"), vec!["a\r", "b"]);
}

#[test]
fn detail_lines_show_resume_block_and_body() {
    let a = app();
    let d = a.detail_lines("WOR-1", "normal", "", 0).unwrap();
    assert!(!d.overdue);
    assert_eq!(
        d.lines,
        vec![
            "WOR-1 Write tests",
            "column: Todo   priority: normal",
            "assignee: -   (a to edit)",
            "labels: Parser   (t to edit)",
            "due: -   (D to edit)",
            "",
            "resume",
            "next_action: do it",
            "acceptance: done",
            "handoff: -",
            "verification: -",
            "",
            "(no description - press b to edit)",
        ]
    );

    let review = a.detail_lines("WOR-2", "high", "", 0).unwrap();
    assert!(review.lines.contains(&"human: review".to_string()));
    assert!(review.lines.contains(&"labels: -   (t to edit)".to_string()));

    let ship = a.detail_lines("WOR-3", "low", "", 0).unwrap();
    assert_eq!(&ship.lines[ship.lines.len() - 2..], &["first line", "second line"]);

    assert!(a.detail_lines("NOPE", "low", "", 0).is_none());
}

#[test]
fn detail_lines_flag_an_overdue_due_date_and_a_blocker() {
    let mut a = app();
    a.cards[0].due_date = Some(10);
    a.cards[0].blocked_reason = Some("waiting\non review".to_string());
    a.cards[0].assignee = Some("dana".to_string());
    let d = a.detail_lines("WOR-1", "normal", "1970-01-01", 20).unwrap();
    assert!(d.overdue);
    assert_eq!(d.lines[2], "assignee: dana   (a to edit)");
    assert_eq!(d.lines[4], "due: 1970-01-01 (overdue)   (D to edit)");
    assert_eq!(d.lines[9], "blocked: waiting / on review");
}

#[test]
fn resume_lines_and_lookups() {
    assert_eq!(resume_line("handoff", Some("  a\nb ")), "handoff: a / b");
    assert_eq!(resume_line("handoff", None), "handoff: -");
    let a = app();
    assert_eq!(tags_of(&a.labels, "id-WOR-1"), "Parser");
    assert_eq!(tags_of(&a.labels, "id-WOR-2"), "-");
    assert_eq!(column_name_of(&a.columns, "doing"), "Doing");
    assert_eq!(column_name_of(&a.columns, "gone"), "");
}

#[test]
fn agent_metadata_lines_list_every_field() {
    let mut a = app();
    a.cards[0].claimed_by = Some("agent".to_string());
    a.cards[0].lease_expires_at = Some(123);
    a.cards[0].agent_weight = Some(2);
    let lines = a.agent_metadata_lines("WOR-1", 100).unwrap();
    assert_eq!(
        lines,
        vec![
            "WOR-1 agent metadata",
            "",
            "agent_state: open",
            "claim: agent until lease_expires_at=123",
            "",
            "agent_weight: 2",
            "agent_effort: -",
            "suggested_model: -",
            "expected_tokens: -",
            "human_intervention: -",
            "",
            "next_action: do it",
            "blocked_reason: -",
            "acceptance_criteria: done",
            "handoff_note: -",
            "last_verification: -",
            "created_at: 0",
            "updated_at: 7",
        ]
    );
    let later = a.agent_metadata_lines("WOR-1", 200).unwrap();
    assert_eq!(later[3], "claim: expired agent at lease_expires_at=123");
    assert!(a.agent_metadata_lines("NOPE", 0).is_none());
}

#[test]
fn header_names_the_board_and_its_place() {
    let mut a = app();
    assert_eq!(
        a.header_text(),
        " board <  Work  > 2/2   (Tab: next board · b: board list · N: new board · D: archive board · U: archived)"
    );
    a.boards.clear();
    assert!(a.header_text().contains(" 1/1 "));
}

#[test]
fn column_view_lists_shown_cards_with_marks() {
    let a = app();
    let marks = vec![
        CardMarks { priority: "P1".to_string(), day: String::new(), stale: false },
        CardMarks { priority: "P2".to_string(), day: String::new(), stale: false },
        CardMarks { priority: "P3".to_string(), day: String::new(), stale: true },
    ];
    let todo = a.column_view(0, &marks);
    assert_eq!(todo.title, " Todo (2) ");
    assert_eq!(todo.items, vec!["P1 WOR-1 Write tests ●Parser", "P3 WOR-3 Ship [stale]"]);
    assert_eq!(todo.selected, Some(0));
    let doing = a.column_view(1, &marks);
    assert_eq!(doing.items, vec!["P2 WOR-2 Review parser [H:review]"]);
    assert_eq!(doing.selected, None);

    let mut due = card("WOR-9", "todo", "Due");
    due.due_date = Some(5);
    let m = CardMarks { priority: "P".to_string(), day: "2026-01-02".to_string(), stale: false };
    assert_eq!(card_item(&due, &Vec::new(), &m), "P WOR-9 Due ⏰2026-01-02");
}

#[test]
fn dependency_graph_view_lists_stages_blockers_and_edges() {
    let plan = StagePlan {
        ready_stages: vec![vec!["A".to_string(), "B".to_string()], vec!["C".to_string()]],
        dependency_blocked: vec![BlockedNode {
            key: "D".to_string(),
            blocked_by: vec!["C".to_string()],
        }],
    };
    let states = vec![
        ("A".to_string(), "ready".to_string()),
        ("D".to_string(), "blocked".to_string()),
    ];
    let edges = vec![("C".to_string(), "D".to_string())];
    assert_eq!(
        dependency_graph_lines(&plan, &states, &edges),
        vec![
            "stages",
            "stage 1: A(ready)  B",
            "stage 2: C",
            "",
            "dependency blocked",
            "D(blocked) blocked_by: C",
            "",
            "edges",
            "C -> D",
        ]
    );
    let empty = StagePlan { ready_stages: Vec::new(), dependency_blocked: Vec::new() };
    assert_eq!(
        dependency_graph_lines(&empty, &Vec::new(), &Vec::new()),
        vec!["stages", "-", "", "dependency blocked", "-", "", "edges", "-"]
    );
}

#[test]
fn dialog_lists_number_and_select_their_items() {
    assert_eq!(item_number(0), " 1. ");
    assert_eq!(item_number(9), "10. ");
    assert_eq!(list_pick(5, 2), Some(1));
    assert_eq!(list_pick(0, 0), None);

    let mut a = app();
    let switcher = a.board_switcher_view(5);
    assert_eq!(switcher.items, vec!["   1. Backlog (backlog)", "*  2. Work (work)"]);
    assert_eq!(switcher.selected, Some(1));

    let moving = a.card_board_move_view("WOR-1", 0);
    assert_eq!(moving.title, " move card to board ");
    assert_eq!(moving.heading, "WOR-1 destination");
    assert_eq!(moving.items, vec![" 1. Backlog (backlog)"]);

    let columns = a.card_column_move_view("WOR-1", "Backlog", &vec![column("inbox", "Inbox")], 3);
    assert_eq!(columns.title, " move card to column ");
    assert_eq!(columns.heading, "WOR-1 -> Backlog");
    assert_eq!(columns.items, vec![" 1. Inbox"]);
    assert_eq!(columns.selected, Some(0));
    assert_eq!(columns.hint, "Enter: move   j/k: select   b: boards   M/Esc: cancel");

    a.board = board("b0", "Backlog", "backlog");
    let send = a.card_board_move_view("KB-1", 0);
    assert_eq!(send.title, " send to project board ");
    assert_eq!(send.heading, "KB-1 project destination");
    assert_eq!(send.items, vec![" 1. Work (work)"]);
    let send_col = a.card_column_move_view("KB-1", "Work", &Vec::new(), 0);
    assert_eq!(send_col.title, " send to project column ");
    assert_eq!(send_col.selected, None);
}

#[test]
fn column_and_label_dialogs_describe_their_choices() {
    let a = app();
    let manager = a.column_manager_view();
    assert_eq!(manager.title, " columns · Work ");
    assert_eq!(manager.items, vec!["Todo  (2 cards)", "Doing  (1 cards)"]);
    assert_eq!(manager.selected, Some(0));

    let delete = a.column_delete_view("todo", 4);
    assert_eq!(delete.title, " delete 'Todo' → move cards to ");
    assert_eq!(delete.items, vec!["Doing"]);
    assert_eq!(delete.selected, Some(0));

    let picker = a.label_picker_view("WOR-1", "pa", 0, &vec![label("Parser"), label("Bug")]);
    assert_eq!(picker.title, " labels: WOR-1 ");
    assert_eq!(picker.heading, "+ pa");
    assert_eq!(picker.items, vec!["[x] ●Parser", "[ ] ●Bug"]);

    assert_eq!(
        a.archive_confirm_text("WOR-1"),
        ("Archive WOR-1?".to_string(), "Write tests".to_string())
    );
    assert_eq!(
        a.archive_confirm_text("NOPE"),
        ("Archive NOPE?".to_string(), "(card not found)".to_string())
    );

    let archived = board_unarchive_view(&vec![board("b9", "Old", "old")], 9);
    assert_eq!(archived.items, vec!["Old (old)"]);
    assert_eq!(archived.selected, Some(0));
    assert_eq!(board_unarchive_view(&Vec::new(), 0).selected, None);
}

#[test]
fn input_popup_width_grows_with_its_text_and_fits_the_screen() {
    assert_eq!(input_popup_width(10, 5, 100), 56);
    assert_eq!(input_popup_width(60, 5, 100), 76);
    assert_eq!(input_popup_width(10, 90, 100), 96);
    assert_eq!(input_popup_width(10, 5, 3), 0);
    assert_eq!(input_popup_width(u16::MAX, 0, u16::MAX), u16::MAX - 4);
}

#[test]
fn priority_cycles_low_normal_high() {
    let levels = PriorityLevels { low: 0, normal: 1, high: 2 };
    assert_eq!(next_priority(0, levels), 1);
    assert_eq!(next_priority(1, levels), 2);
    assert_eq!(next_priority(2, levels), 0);
    assert_eq!(next_priority(7, levels), 0);
    let a = app();
    assert_eq!(a.cycle_priority_key("WOR-1", levels), Some(2));
    assert_eq!(a.cycle_priority_key("NOPE", levels), None);
}

#[test]
fn undo_reports_nothing_or_follows_the_card() {
    let mut a = app();
    assert_eq!(a.undo_last_card_update(None), UndoStep::Nothing);
    assert_eq!(a.status, "nothing to undo");

    let elsewhere = UndoneCard { key: "KB-4".to_string(), board_id: "b0".to_string() };
    assert_eq!(
        a.undo_last_card_update(Some(elsewhere)),
        UndoStep::Reload { key: "KB-4".to_string(), board: Some(0) }
    );
    let here = UndoneCard { key: "WOR-3".to_string(), board_id: "b1".to_string() };
    assert_eq!(
        a.undo_last_card_update(Some(here)),
        UndoStep::Reload { key: "WOR-3".to_string(), board: None }
    );
    let gone = UndoneCard { key: "X-1".to_string(), board_id: "b7".to_string() };
    assert_eq!(
        a.undo_last_card_update(Some(gone)),
        UndoStep::Reload { key: "X-1".to_string(), board: None }
    );

    a.finish_undo("WOR-3");
    assert_eq!(a.status, "undid last update on WOR-3");
    assert_eq!(a.focus, 0);
    assert_eq!(a.cursors, vec![1, 0]);
}

#[test]
fn reordered_boards_keep_the_switcher_on_the_moved_board() {
    let mut a = app();
    a.mode = Mode::BoardSwitcher { cursor: 0 };
    a.reorder_board_from_switcher(0, vec![board("b1", "Work", "work"), board("b0", "Backlog", "backlog")]);
    assert!(matches!(a.mode, Mode::BoardSwitcher { cursor: 1 }));
    assert_eq!(a.status, "reordered board 'Backlog'");
    assert_eq!(a.boards[0].id, "b1");
}

#[test]
fn body_editor_keys_and_save() {
    let mut a = app();
    assert_eq!(a.commit_body(), None);
    a.mode = Mode::BodyEdit { key: "WOR-1".to_string(), expected_updated_at: 7 };
    assert_eq!(a.commit_body(), Some(("WOR-1".to_string(), 7)));
    assert_eq!(a.on_body_key(Key::Char('s'), true), BodyKey::Commit);
    assert_eq!(a.on_body_key(Key::Char('s'), false), BodyKey::Insert('s'));
    assert_eq!(a.on_body_key(Key::Enter, false), BodyKey::Newline);
    assert_eq!(a.on_body_key(Key::Backspace, false), BodyKey::Backspace);
    assert_eq!(a.on_body_key(Key::Tab, false), BodyKey::Nothing);
    assert!(matches!(a.mode, Mode::BodyEdit { .. }));
    assert_eq!(a.on_body_key(Key::Esc, false), BodyKey::Nothing);
    assert!(matches!(&a.mode, Mode::Detail { key, scroll: 0 } if key == "WOR-1"));

    a.body_saved("WOR-1".to_string(), BodySave::Saved);
    assert_eq!(a.status, "saved body of WOR-1");
    a.body_saved("WOR-1".to_string(), BodySave::Stale);
    assert_eq!(a.status, "stale body edit on WOR-1; reloaded latest card");
    assert!(matches!(&a.mode, Mode::Detail { key, scroll: 0 } if key == "WOR-1"));
}

#[test]
fn ranked_listing_orders_by_rank_then_key() {
    let mut high = card("KB-2", "backlog-todo", "urgent");
    high.priority = 3;
    let low = card("KB-1", "backlog-todo", "later");
    let names = vec![("backlog-todo".to_string(), "Todo".to_string())];
    let params = no_params();
    let ctx = filter_context(&params, &names, None, 0, 0);
    let out = list_cards(&vec![low, high], &vec![facts(false), facts(false)], &Vec::new(), &ctx, true);
    let lines: Vec<&str> = out.lines().collect();
    assert_eq!(lines.len(), 2);
    assert!(lines[0].starts_with("KB-2  [Todo] (normal) urgent"));
    assert!(lines[0].ends_with(" [rank:priority=normal weight=- tokens=-]"));
    assert!(lines[1].starts_with("KB-1  [Todo] (normal) later"));
    let empty = list_cards(&Vec::new(), &Vec::new(), &Vec::new(), &ctx, true);
    assert_eq!(empty, "(no matching cards)");
}

#[test]
fn watcher_counts_deliveries_and_decides_what_follows() {
    let mut scan = Scan::new();
    assert_eq!(scan.record(&Ok(())), ScanStep::Next);
    assert_eq!(scan.record(&Ok(())), ScanStep::Next);
    assert_eq!(scan.record(&Err("x".to_string())), ScanStep::Fail);
    assert_eq!(scan.delivered, 2);

    assert_eq!(after_scan(true, 0), WatchNext::Stop);
    assert_eq!(after_scan(false, 0), WatchNext::Sleep);
    assert_eq!(after_scan(false, 3), WatchNext::Again);
}

#[test]
fn watcher_pid_files_and_processes() {
    assert_eq!(pidfile_name("agent#abc"), "watch.agent_abc.pid");
    assert_eq!(parse_pid(" 42\n"), Some(42));
    assert_eq!(parse_pid("+7"), Some(7));
    assert_eq!(parse_pid("abc"), None);
    assert_eq!(parse_pid(""), None);
    assert_eq!(parse_pid("4294967296"), None);
    assert_eq!(parse_pid("4294967295"), Some(u32::MAX));
    let cmd = "/usr/bin/kanterm-mcp watch-handoffs --for-agent x";
    assert!(process_matches(true, cmd, "kanterm-mcp", "watch-handoffs"));
    assert!(!process_matches(false, cmd, "kanterm-mcp", "watch-handoffs"));
    assert!(!process_matches(true, "/usr/bin/kanterm-mcp serve", "kanterm-mcp", "watch-handoffs"));
}

#[test]
fn template_picker_marks_the_default_and_lists_columns() {
    let templates = vec![
        TemplateInfo {
            label: "Workflow".to_string(),
            key: "workflow".to_string(),
            columns: vec!["Todo".to_string(), "Doing".to_string(), "Done".to_string()],
        },
        TemplateInfo {
            label: "Simple".to_string(),
            key: "simple".to_string(),
            columns: vec!["Todo".to_string()],
        },
    ];
    let view = board_template_view("Launch", &templates, 0, 7);
    assert_eq!(view.heading, "new board: Launch");
    assert_eq!(
        view.items,
        vec![
            " 1. Workflow default (workflow) Todo / Doing / Done",
            " 2. Simple (simple) Todo",
        ]
    );
    assert_eq!(view.selected, Some(1));
    assert_eq!(board_template_view("x", &Vec::new(), 0, 3).selected, Some(0));
}

#[test]
fn prompts_name_what_they_confirm() {
    let archive = board_archive_prompt("Work");
    assert_eq!(archive.title, " archive board ");
    assert_eq!(archive.lines[0], "Archive board 'Work'?");
    let delete = board_delete_prompt("Work", "del");
    assert_eq!(delete.lines, vec!["delete board 'Work'?", "▸ del"]);
    assert_eq!(delete.hint, "type `delete` and Enter · Esc cancel");
    let input = input_prompt("new card", "abc");
    assert_eq!(input.title, " new card ");
    assert_eq!(input.lines, vec!["▸ abc"]);
}

#[test]
fn restore_refuses_newer_schemas_and_existing_files() {
    assert_eq!(
        restore_check(5, 4, false, false),
        Err(RestoreRefusal::NewerSchema { version: 5, supported: 4 })
    );
    assert_eq!(
        restore_check(5, 4, false, false).unwrap_err().message("/data/kanban.db"),
        "backup schema version 5 is newer than this build supports (4); update kanban before restoring"
    );
    assert_eq!(restore_check(4, 4, true, false), Err(RestoreRefusal::DestinationExists));
    assert_eq!(
        RestoreRefusal::DestinationExists.message("/data/kanban.db"),
        "destination /data/kanban.db already exists; pass --force to replace it"
    );
    assert_eq!(restore_check(3, 4, true, true), Ok(true));
    assert_eq!(restore_check(3, 4, false, false), Ok(false));
}

#[test]
fn board_answers_report_and_pick_the_next_board() {
    let mut a = app();
    a.mode = Mode::BoardArchive { board_id: "b1".to_string(), board_name: "Work".to_string() };
    let next = a.board_archived("b1", "Work", vec![board("b1", "Work", "work"), board("b0", "Backlog", "backlog")]);
    assert_eq!(next, Some(1));
    assert!(matches!(a.mode, Mode::Normal));
    assert_eq!(a.status, "archived board 'Work' (U to restore)");
    assert_eq!(first_other_board(&vec![board("b1", "Work", "work")], "b1"), None);

    a.board_shown(false);
    assert_eq!(a.status, "board: Work");
    a.mode = Mode::BoardSwitcher { cursor: 0 };
    a.board_shown(true);
    assert!(matches!(a.mode, Mode::Normal));

    a.board_created("workflow");
    assert_eq!(a.status, "created board Work (workflow)");
    a.board_unarchived();
    assert_eq!(a.status, "unarchived board 'Work'");

    a.board_deleted("Old", None, vec![board("b1", "Work", "work")]);
    assert_eq!(a.status, "deleted board 'Old'");
    assert_eq!(a.boards.len(), 1);
    a.board_deleted("Old", Some("board is not archived"), Vec::new());
    assert_eq!(a.status, "delete failed: board is not archived");
}

#[test]
fn card_move_answers_select_the_moved_card() {
    let mut a = app();
    assert_eq!(a.card_move_target("b0", "Backlog", vec![board("b0", "Backlog", "backlog")]), Some(0));
    assert_eq!(a.card_move_target("b9", "Gone", Vec::new()), None);
    assert_eq!(a.status, "board 'Gone' not found");

    a.card_moved_to_board("KB-4", "WOR-3", true);
    assert_eq!(a.status, "sent KB-4 -> Work as WOR-3");
    assert_eq!(a.cursors, vec![1, 0]);
    a.card_moved_to_board("KB-4", "WOR-2", false);
    assert_eq!(a.status, "moved KB-4 -> Work as WOR-2");
    assert_eq!(a.focus, 1);
    assert!(matches!(a.mode, Mode::Normal));
}

#[test]
fn column_and_prompt_answers_set_the_status() {
    let mut a = app();
    a.mode = Mode::ColumnDelete { victim_id: "todo".to_string(), cursor: 0 };
    a.column_deleted("Doing");
    assert_eq!(a.status, "column deleted; cards moved to Doing");
    assert!(matches!(a.mode, Mode::ColumnManager));

    a.column_added("doing", "Doing");
    assert_eq!(a.col_cursor, 1);
    assert_eq!(a.status, "added column Doing");
    a.column_added("nope", "Nope");
    assert_eq!(a.col_cursor, 1);

    a.column_refused("duplicate column name");
    assert_eq!(a.status, "error: duplicate column name");
    a.column_renamed("Review");
    assert_eq!(a.status, "renamed column to Review");
    a.due_refused("invalid date");
    assert_eq!(a.status, "bad date: invalid date");
    a.priority_cycled("WOR-1", "!!");
    assert_eq!(a.status, "WOR-1 priority -> !!");
    a.board_context_saved(true);
    assert_eq!(a.status, "board agent context updated");
    a.board_context_saved(false);
    assert_eq!(a.status, "board agent context cleared");
}

#[test]
fn archived_boards_are_listed_in_store_order() {
    let all = vec![
        ListedBoard { board: board("b0", "Backlog", "backlog"), archived_at: None },
        ListedBoard { board: board("b2", "Old", "old"), archived_at: Some(5) },
        ListedBoard { board: board("b1", "Work", "work"), archived_at: None },
        ListedBoard { board: board("b3", "Older", "older"), archived_at: Some(1) },
    ];
    let archived = archived_boards(all);
    let ids: Vec<&str> = archived.iter().map(|b| b.id.as_str()).collect();
    assert_eq!(ids, vec!["b2", "b3"]);

    let mut a = app();
    a.archived_boards_shown(0);
    assert_eq!(a.status, "no archived boards");
    assert!(matches!(a.mode, Mode::Normal));
    a.archived_boards_shown(2);
    assert!(matches!(a.mode, Mode::BoardUnarchive { cursor: 0 }));
}

#[test]
fn listing_flags_overdue_cards() {
    let mut late = searched_card();
    late.due_date = Some(946_684_800_000);
    let mut f = facts(false);
    f.day = "2000-01-01".to_string();
    let names = vec![("backlog-todo".to_string(), "Todo".to_string())];
    let params = no_params();
    let ctx = filter_context(&params, &names, None, 0, 1_781_222_400_000);
    let out = list_cards(&vec![late], &vec![f], &Vec::new(), &ctx, false);
    assert!(out.starts_with("KB-1  [Todo] (normal) ordinary title !due:2000-01-01 [next]"));
}

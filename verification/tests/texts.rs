use kanterm::board_app::Column;
use kanterm::card::{Card, CardReadiness};
use kanterm::listing::ListEntry;
use kanterm::memory_text::{
    delivery_status, memory_detail, memory_hit, memory_recorded, no_memory, recall_limit,
    recall_reply, registration_reply, server_status,
};
use kanterm::queue::{QueueMode, QueueStatus};
use kanterm::ranking::{listing, sort_ranked, text_less, RankedLine};
use kanterm::read_text::{
    board_text, card_detail, check_project_board, detail_labels, due_detail, due_suffix,
    list_line, no_board, no_card, rank_reason, resolve_column, BoardEntry, DetailParts,
};
use kanterm::render::Label;

fn card(key: &str, column: &str, title: &str) -> Card {
    Card {
        id: format!("id-{key}"),
        key: key.to_string(),
        title: title.to_string(),
        body: String::new(),
        column_id: column.to_string(),
        agent_state: "open".to_string(),
        priority: 1,
        assignee: None,
        due_date: None,
        next_action: None,
        blocked_reason: None,
        acceptance_criteria: None,
        handoff_note: None,
        last_verification: None,
        agent_weight: None,
        agent_effort: None,
        suggested_model: None,
        expected_tokens: None,
        human_intervention: None,
        claimed_by: None,
        lease_expires_at: None,
        created_at: 0,
        updated_at: 0,
        archived_at: None,
    }
}

fn ranked(rank: (i64, i64, i64, i64), key: &str) -> RankedLine {
    RankedLine {
        rank,
        key: key.to_string(),
        line: format!("line {key}"),
    }
}

#[test]
fn due_tags_flag_overdue_dates() {
    let today = 1_781_222_400_000;
    assert_eq!(due_suffix(Some(946_684_800_000), "2000-01-01", today), " !due:2000-01-01");
    assert_eq!(due_suffix(Some(1_893_456_000_000), "2030-01-01", today), " due:2030-01-01");
    assert_eq!(due_suffix(Some(today), "2026-06-12", today), " due:2026-06-12");
    assert_eq!(due_suffix(None, "", today), "");
    assert_eq!(due_detail(Some(1_781_136_000_000), "2026-06-11", today), "2026-06-11 (overdue)");
    assert_eq!(due_detail(Some(today), "2026-06-12", today), "2026-06-12");
    assert_eq!(due_detail(None, "", today), "-");
}

#[test]
fn board_overview_lists_columns_and_boards() {
    let columns = vec![
        Column {
            id: "c1".to_string(),
            name: "Today".to_string(),
        },
        Column {
            id: "c2".to_string(),
            name: "Done".to_string(),
        },
    ];
    let mut bug = card("WOR-1", "c1", "fix bug");
    bug.agent_weight = Some(2);
    let mut ship = card("WOR-2", "c1", "ship");
    ship.due_date = Some(946_684_800_000);
    let cards = vec![bug, ship];
    let days = vec![String::new(), "2000-01-01".to_string()];
    let labels = vec![(
        "id-WOR-1".to_string(),
        vec![Label {
            name: "bug".to_string(),
            color: "#f00".to_string(),
        }],
    )];
    let boards = vec![
        BoardEntry {
            id: "b0".to_string(),
            slug: "backlog".to_string(),
            has_context: false,
            archived: false,
        },
        BoardEntry {
            id: "b1".to_string(),
            slug: "work".to_string(),
            has_context: true,
            archived: false,
        },
        BoardEntry {
            id: "b2".to_string(),
            slug: "old".to_string(),
            has_context: false,
            archived: true,
        },
    ];
    assert_eq!(
        board_text(Some("Run checks"), &columns, &cards, &days, 1_781_222_400_000, &labels, &boards, "b1"),
        "board_agent_context:\nRun checks\n\n## Today (2)\n- WOR-1 fix bug [bug] [w:2]\n- WOR-2 ship !due:2000-01-01\n\n## Done (0)\n\n---\nboards: backlog, work [context] (current)\narchived boards: old"
    );
    assert_eq!(
        board_text(None, &Vec::new(), &Vec::new(), &Vec::new(), 0, &labels, &boards[..1].iter().map(|b| BoardEntry { id: b.id.clone(), slug: b.slug.clone(), has_context: b.has_context, archived: b.archived }).collect(), "b0"),
        "---\nboards: backlog (current)"
    );
}

#[test]
fn listing_lines_carry_their_tags() {
    let mut c = card("KB-1", "c1", "ordinary title");
    c.next_action = Some("Run cargo mutants".to_string());
    c.agent_weight = Some(2);
    let entry = ListEntry {
        column_name: "Backlog".to_string(),
        queue: Some(QueueMode::Executable),
        queue_status: QueueStatus::Executable,
    };
    let readiness = CardReadiness {
        card_key: "KB-1".to_string(),
        ready: true,
        closed: false,
        blocked_by: Vec::new(),
    };
    let reason = rank_reason("normal", &c);
    assert_eq!(reason, " [rank:priority=normal weight=2 tokens=-]");
    assert_eq!(
        list_line(&c, &entry, "!", "", &Vec::new(), true, 0, &readiness, &reason),
        "KB-1  [Backlog] (!) ordinary title [next] [stale] [w:2] [queue:executable] [rank:priority=normal weight=2 tokens=-]"
    );
}

#[test]
fn ranked_listings_sort_by_rank_then_key() {
    let lines = vec![
        ranked((-1, 3, 10, 5), "KB-2"),
        ranked((-2, 3, 10, 5), "KB-9"),
        ranked((-1, 3, 10, 5), "KB-10"),
        ranked((-1, 1, 10, 5), "KB-3"),
    ];
    let sorted = sort_ranked(lines);
    let keys: Vec<&str> = sorted.iter().map(|l| l.key.as_str()).collect();
    assert_eq!(keys, vec!["KB-9", "KB-3", "KB-10", "KB-2"]);
    assert!(text_less("KB-10", "KB-2"));
    assert!(!text_less("KB-2", "KB-2"));
    assert!(text_less("", "a"));
    let texts: Vec<String> = sorted.into_iter().map(|l| l.line).collect();
    assert_eq!(listing(&texts), "line KB-9\nline KB-3\nline KB-10\nline KB-2");
    assert_eq!(listing(&Vec::new()), "(no matching cards)");
}

#[test]
fn ranked_lines_that_tie_keep_their_order() {
    let tie = |text: &str| RankedLine {
        rank: (-1, 3, 5, 0),
        key: "KB-1".to_string(),
        line: text.to_string(),
    };
    let sorted = sort_ranked(vec![tie("first"), ranked((-2, 0, 0, 0), "KB-7"), tie("second")]);
    let texts: Vec<&str> = sorted.iter().map(|l| l.line.as_str()).collect();
    assert_eq!(texts, vec!["line KB-7", "first", "second"]);
}

#[test]
fn card_detail_page_lays_out_every_field() {
    let mut c = card("KB-1", "c1", "release");
    c.assignee = Some("dana".to_string());
    c.agent_weight = Some(3);
    c.next_action = Some("  ".to_string());
    c.body = "実装内容".to_string();
    let labels = vec![(
        "id-KB-1".to_string(),
        vec![
            Label {
                name: "a".to_string(),
                color: String::new(),
            },
            Label {
                name: "b".to_string(),
                color: String::new(),
            },
        ],
    )];
    let parts = DetailParts {
        column: "Backlog".to_string(),
        priority: "!".to_string(),
        day: String::new(),
        today: 1_781_222_400_000,
        labels: detail_labels(&labels, "id-KB-1"),
        board_context: None,
        claim: "-".to_string(),
        dependencies: "upstream: -\ndownstream: -\nreadiness: ready".to_string(),
        execution_notes: "-".to_string(),
        activity: "-".to_string(),
        memories: "-".to_string(),
    };
    assert_eq!(
        card_detail(&c, &parts),
        "KB-1  release\ncolumn: Backlog\npriority: !\nassignee: dana\ndue: -\nlabels: a, b\nboard_agent_context: -\n\nagent_metadata:\nagent_state: open\nclaim: -\nagent_weight: 3\nagent_effort: -\nsuggested_model: -\nexpected_tokens: -\nhuman_intervention: -\nnext_action: -\nblocked_reason: -\nacceptance_criteria: -\nhandoff_note: -\nlast_verification: -\ndependencies:\nupstream: -\ndownstream: -\nreadiness: ready\nexecution_notes:\n-\nactivity:\n-\nrelated_memories:\n-\n\nbody:\n実装内容"
    );
    c.body = String::new();
    assert!(card_detail(&c, &parts).ends_with("body:\n(no description)"));
    assert_eq!(detail_labels(&labels, "id-KB-2"), "-");
}

#[test]
fn lookups_refuse_unknown_names() {
    assert_eq!(no_board("ghost").message, "no board 'ghost'");
    assert_eq!(no_card("KB-9").message, "no card 'KB-9'");
    let cols = vec![Column {
        id: "c1".to_string(),
        name: "Todo".to_string(),
    }];
    assert_eq!(resolve_column(&cols, "Todo").unwrap(), "c1");
    assert_eq!(
        resolve_column(&cols, "Later").err().unwrap().message,
        "no column 'Later'"
    );
}

#[test]
fn project_cards_need_a_project_board() {
    assert_eq!(
        check_project_board(None, "create_card").err().unwrap().message,
        "`board` is required; pass an existing project board slug or a new project board name. To create in Backlog, use create_card_in_backlog."
    );
    assert_eq!(
        check_project_board(Some("backlog"), "create_card")
            .err()
            .unwrap()
            .message,
        "create_card cannot target the Backlog board; use create_card_in_backlog instead."
    );
    assert_eq!(check_project_board(Some("New Project"), "create_cards").unwrap(), "New Project");
}

#[test]
fn memory_and_agent_replies() {
    assert_eq!(
        memory_recorded("M-1", "decision", "Use sqlite"),
        "recorded M-1 [decision]: Use sqlite"
    );
    assert_eq!(
        memory_detail("M-1", "decision", "2026-01-02", Some("KB-1"), "Use sqlite", "Local"),
        "M-1 [decision] (2026-01-02)  card:KB-1\n# Use sqlite\nLocal\n"
    );
    assert_eq!(
        memory_detail("M-2", "note", "2026-01-02", None, "T", ""),
        "M-2 [note] (2026-01-02)\n# T\n"
    );
    assert_eq!(
        memory_hit("M-1", "decision", "2026-01-02", Some("KB-1"), "Use sqlite", "Local first.\nMore"),
        "M-1 [decision] (2026-01-02) card:KB-1 Use sqlite — Local first."
    );
    assert_eq!(
        memory_hit("M-2", "note", "2026-01-02", None, "T", ""),
        "M-2 [note] (2026-01-02) T"
    );
    assert_eq!(recall_limit(None), 10);
    assert_eq!(recall_limit(Some(0)), 1);
    assert_eq!(recall_limit(Some(500)), 100);
    assert_eq!(recall_limit(Some(7)), 7);
    assert!(registration_reply("codex#1", "r-1", "tok", 42)
        .starts_with("assigned_identity: codex#1\nregistration_id: r-1\nclaim_token: tok\nexpires_at: 42\n\nUse assigned_identity"));
    assert_eq!(
        delivery_status(None),
        ("completed".to_string(), "delivered by watch-handoffs".to_string())
    );
    assert_eq!(
        delivery_status(Some("bridge exited 1")),
        ("failed".to_string(), "bridge exited 1".to_string())
    );
    assert_eq!(
        server_status("0.1.0", "7", "/db", "/work", Some(("backlog", "Backlog"))),
        "kanban_mcp_status:\nversion: 0.1.0\nschema_version: 7\ndb_path: /db\nworking_directory: /work\ndefault_board: backlog (Backlog)"
    );
}

#[test]
fn recall_replies_join_hits_or_say_none() {
    assert_eq!(recall_reply(&Vec::new()), "no memories found");
    assert_eq!(
        recall_reply(&vec!["M-1 [decision] (2026-01-01) a".to_string(), "M-2 [learning] (2026-01-02) b".to_string()]),
        "M-1 [decision] (2026-01-01) a\nM-2 [learning] (2026-01-02) b"
    );
    assert_eq!(no_memory("M-9").message, "no memory 'M-9'");
}

#[test]
fn detail_page_flags_an_overdue_due_date() {
    let mut c = card("KB-3", "c1", "late");
    c.due_date = Some(946_684_800_000);
    let parts = DetailParts {
        column: "Backlog".to_string(),
        priority: "!".to_string(),
        day: "2000-01-01".to_string(),
        today: 1_781_222_400_000,
        labels: "-".to_string(),
        board_context: None,
        claim: "-".to_string(),
        dependencies: "-".to_string(),
        execution_notes: "-".to_string(),
        activity: "-".to_string(),
        memories: "-".to_string(),
    };
    assert!(card_detail(&c, &parts).contains("\ndue: 2000-01-01 (overdue)\n"));
}

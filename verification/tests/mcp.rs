use kanterm::card::{Card, CardReadiness};
use kanterm::depgraph::{
    dependency_graph, filter_dependency_graph_edges, graph_node, graph_node_state,
    graph_node_states, node_keys, BlockedNode, StagePlan,
};
use kanterm::graph::graph_has_cycle;
use kanterm::hooks::{
    mode_name, parse, parse_mode, safe_key, usage, HookCommand, HookErrorKind, HookMode,
    HookRuntime,
};
use kanterm::listing::{dependency_context, list_or_dash};
use kanterm::plan::{planned_node_name, preflight_create_cards, CreateCardItem, HumanIntervention};
use kanterm::queue::{classify_queue, queue_suffix, QueueMode, QueueStatus};
use kanterm::targets::{parse_targets, DeliveryTarget, TargetErrorKind};
use kanterm::workflow::{
    check_event, handoff_summary, no_action_summary, resolve_repo, resolve_target,
    resolve_to_agent, selected_step, workflow_trigger, workflow_trigger_check, SendHandoffRule,
    Workflow, WorkflowStep, WorkflowTriggerFields,
};

fn card(key: &str) -> Card {
    Card {
        id: format!("id-{key}"),
        key: key.to_string(),
        title: "task".to_string(),
        body: String::new(),
        column_id: "col".to_string(),
        agent_state: "open".to_string(),
        priority: 1,
        assignee: None,
        due_date: None,
        next_action: Some("next".to_string()),
        blocked_reason: None,
        acceptance_criteria: Some("criteria".to_string()),
        handoff_note: None,
        last_verification: None,
        agent_weight: None,
        agent_effort: None,
        suggested_model: None,
        expected_tokens: None,
        human_intervention: None,
        claimed_by: None,
        lease_expires_at: None,
        created_at: 0,
        updated_at: 0,
        archived_at: None,
    }
}

fn ready(key: &str, ready: bool) -> CardReadiness {
    CardReadiness {
        card_key: key.to_string(),
        ready,
        closed: false,
        blocked_by: Vec::new(),
    }
}

fn strings(v: &[&str]) -> Vec<String> {
    v.iter().map(|s| s.to_string()).collect()
}

fn item(alias: &str, title: &str, depends_on: &[&str]) -> CreateCardItem {
    CreateCardItem {
        alias: if alias.is_empty() {
            None
        } else {
            Some(alias.to_string())
        },
        title: title.to_string(),
        body: None,
        column: None,
        next_action: None,
        acceptance_criteria: None,
        agent_weight: None,
        agent_effort: None,
        suggested_model: None,
        expected_tokens: None,
        human_intervention: None,
        depends_on: if depends_on.is_empty() {
            None
        } else {
            Some(strings(depends_on))
        },
    }
}

#[test]
fn parse_command_and_interactive_targets() {
    let config = parse_targets(
        r#"
targets:
  - name: bff-command
    type: command
    agent: bff-agent
    repo: /work/downstream-repo
    command: agent-cli
    args: -p "continue work"
  - name: bff-session
    type: interactive
    agent: bff-agent
    adapter: tmux
    session: bff
    pane: 0
"#,
    )
    .unwrap();
    let DeliveryTarget::Command(command) = config.find("bff-command").unwrap() else {
        panic!("expected command target");
    };
    assert_eq!(command.agent.as_deref(), Some("bff-agent"));
    assert_eq!(command.repo.as_deref(), Some("/work/downstream-repo"));
    assert_eq!(command.args, ["-p", "continue work"]);
    let DeliveryTarget::Interactive(interactive) = config.find("bff-session").unwrap() else {
        panic!("expected interactive target");
    };
    assert_eq!(interactive.adapter.as_deref(), Some("tmux"));
    assert_eq!(interactive.session.as_deref(), Some("bff"));
    assert_eq!(interactive.pane.as_deref(), Some("0"));
}

#[test]
fn parse_rejects_unterminated_args_quote() {
    let err = parse_targets(
        r#"
targets:
  - name: bad
    type: command
    command: echo
    args: "unterminated
"#,
    )
    .err()
    .unwrap();
    assert!(err.message().contains("unterminated quote"));
}

#[test]
fn target_configs_refuse_incomplete_items() {
    let err = parse_targets("targets:\n  - name: x\n    type: command\n")
        .err()
        .unwrap();
    assert_eq!(err.kind, TargetErrorKind::CommandRequired);
    assert_eq!(err.message(), "target 'x' command is required");
    let err = parse_targets("targets:\n").err().unwrap();
    assert_eq!(err.message(), "target config must contain at least one target");
    let err = parse_targets("colors: red\n").err().unwrap();
    assert_eq!(err.kind, TargetErrorKind::UnknownConfigField);
}

#[test]
fn hooks_command_lines_parse() {
    let run_dir = "/tmp/kanterm/run";
    let rt = HookRuntime {
        name: "agent-cli".to_string(),
        settings: ".agent/settings.local.json".to_string(),
    };
    let args = strings(&[
        "install",
        "--runtime",
        "agent-cli",
        "--mode",
        "both",
        "--for-agent",
        "dana#abc123",
        "--claim-token",
        "secret",
        "--settings",
        "/tmp/s.json",
    ]);
    match parse(&args, &rt, run_dir).unwrap() {
        HookCommand::Install(i) => {
            assert_eq!(i.mode, HookMode::Both);
            assert_eq!(i.settings, "/tmp/s.json");
            assert_eq!(i.for_agent, "dana#abc123");
            assert_eq!(i.claim_token, "secret");
            assert_eq!(i.run_dir, run_dir);
        }
        other => panic!("unexpected {other:?}"),
    }
    let err = parse(&strings(&["install", "--mode", "monitor"]), &rt, run_dir)
        .err()
        .unwrap();
    assert_eq!(err.kind, HookErrorKind::ForAgentRequired);
    assert_eq!(err.message(), "--for-agent is required unless --mode off");
    let err = parse(&strings(&["install", "--mode"]), &rt, run_dir).err().unwrap();
    assert_eq!(err.message(), "--mode requires a value");
    let err = parse(&strings(&["bogus"]), &rt, run_dir).err().unwrap();
    assert_eq!(err.message(), "unknown hooks action: bogus");
    assert!(matches!(parse(&Vec::new(), &rt, run_dir).unwrap(), HookCommand::Help));
    assert!(matches!(
        parse(&strings(&["status"]), &rt, run_dir).unwrap(),
        HookCommand::Status { ref settings } if settings == ".agent/settings.local.json"
    ));
    let err = parse(&strings(&["status", "--runtime", "other"]), &rt, run_dir)
        .err()
        .unwrap();
    assert_eq!(err.message(), "unsupported hooks runtime: other");
    let err = parse(&strings(&["install", "--help"]), &rt, run_dir)
        .err()
        .unwrap();
    assert_eq!(err.message(), usage("agent-cli"));
    assert!(usage("agent-cli").starts_with("usage: kanterm-mcp hooks install --runtime agent-cli --mode"));
    assert_eq!(parse_mode("turn").unwrap(), HookMode::Turn);
    assert_eq!(
        parse_mode("loud").err().unwrap().message(),
        "mode must be monitor, turn, both, or off"
    );
    assert_eq!(mode_name(HookMode::Off), "off");
}

#[test]
fn safe_keys_replace_unsafe_characters() {
    assert_eq!(safe_key("dana#abc/1.x"), "dana_abc_1.x");
    assert_eq!(safe_key("añ-b"), "a_-b");
}

#[test]
fn queues_parse_and_classify() {
    assert_eq!(QueueMode::parse("human").unwrap(), QueueMode::Human);
    assert_eq!(
        QueueMode::parse("later").err().unwrap().message,
        "queue must be executable, review, blocked, claimed, missing_context, dependency_blocked, or human"
    );
    assert!(QueueMode::Human.matches(QueueStatus::HumanDecision));
    assert!(!QueueMode::Human.matches(QueueStatus::Executable));
    let mut c = card("KB-1");
    assert_eq!(classify_queue(&c, 0, &ready("KB-1", true)), QueueStatus::Executable);
    c.blocked_reason = Some("waiting".to_string());
    assert_eq!(classify_queue(&c, 0, &ready("KB-1", true)), QueueStatus::Blocked);
    c.agent_state = "done".to_string();
    assert_eq!(classify_queue(&c, 0, &ready("KB-1", true)), QueueStatus::Closed);
    assert_eq!(
        queue_suffix(Some(QueueMode::Human), QueueStatus::HumanDecision),
        " [queue:human-decision]"
    );
    assert_eq!(queue_suffix(None, QueueStatus::HumanDecision), "");
}

#[test]
fn plans_are_checked_before_import() {
    let cols = strings(&["Todo"]);
    let keys = strings(&["BP-1"]);
    let edges: Vec<(String, String)> = Vec::new();
    let ok = vec![item("a", "A setup", &[]), item("b", "B ship", &["a"])];
    assert!(preflight_create_cards(&cols, &keys, &edges, &ok).is_ok());
    let missing = vec![item("a", "A", &["missing"])];
    assert_eq!(
        preflight_create_cards(&cols, &keys, &edges, &missing)
            .err()
            .unwrap()
            .message,
        "cards[0].depends_on references unknown alias or key 'missing'"
    );
    let clash = vec![item("BP-1", "A", &[])];
    assert_eq!(
        preflight_create_cards(&cols, &keys, &edges, &clash)
            .err()
            .unwrap()
            .message,
        "cards[0].alias conflicts with existing card key 'BP-1'"
    );
    let cycle = vec![item("a", "A", &["b"]), item("b", "B", &["a"])];
    assert_eq!(
        preflight_create_cards(&cols, &keys, &edges, &cycle)
            .err()
            .unwrap()
            .message,
        "card dependency graph would contain a cycle"
    );
    let mut bad_column = item("a", "A", &[]);
    bad_column.column = Some("Done".to_string());
    assert_eq!(
        preflight_create_cards(&cols, &keys, &edges, &vec![bad_column])
            .err()
            .unwrap()
            .message,
        "no column named 'Done'"
    );
    assert_eq!(planned_node_name(3, &item("", "x", &[])), "$new:3");
    assert_eq!(
        HumanIntervention::parse("maybe").err().unwrap().message,
        "human_intervention must be none, review, decision, or execution"
    );
    assert_eq!(HumanIntervention::parse("none").unwrap(), None);
}

#[test]
fn cycles_are_found_in_dependency_edges() {
    let chain = vec![
        ("a".to_string(), "b".to_string()),
        ("b".to_string(), "c".to_string()),
    ];
    assert!(!graph_has_cycle(&chain));
    let mut looped = chain.clone();
    looped.push(("c".to_string(), "a".to_string()));
    assert!(graph_has_cycle(&looped));
    assert!(graph_has_cycle(&vec![("x".to_string(), "x".to_string())]));
}

#[test]
fn dependency_context_lists_both_directions() {
    let edges = vec![
        ("KB-1".to_string(), "KB-2".to_string()),
        ("KB-2".to_string(), "KB-3".to_string()),
    ];
    let mut r = ready("KB-2", false);
    r.blocked_by = strings(&["KB-1"]);
    assert_eq!(
        dependency_context("KB-2", &strings(&["KB-1"]), &edges, &r),
        "upstream: KB-1\ndownstream: KB-3\nreadiness: dependency_blocked by KB-1"
    );
    assert_eq!(list_or_dash(&Vec::new()), "-");
}

#[test]
fn dependency_graph_nodes_carry_their_state() {
    let mut c = card("LP-2");
    assert_eq!(graph_node_state(&c, &ready("LP-2", true), 0), "ready");
    assert_eq!(graph_node_state(&c, &ready("LP-2", false), 0), "dep-blocked");
    c.human_intervention = Some("decision".to_string());
    assert_eq!(graph_node_state(&c, &ready("LP-2", true), 0), "human:decision");
    c.claimed_by = Some("codex".to_string());
    c.lease_expires_at = Some(10);
    assert_eq!(graph_node_state(&c, &ready("LP-2", true), 5), "running");
    c.archived_at = Some(1);
    assert_eq!(graph_node_state(&c, &ready("LP-2", true), 5), "done");
    let states = vec![("LP-1".to_string(), "ready".to_string())];
    assert_eq!(graph_node("LP-1", &states), "LP-1(ready)");
    assert_eq!(graph_node("LP-9", &states), "LP-9");
}

#[test]
fn dependency_graph_report_filters_edges() {
    let mut done = card("LP-3");
    done.agent_state = "done".to_string();
    let cards = vec![card("LP-1"), card("LP-2"), done];
    let deps = vec![
        ("LP-1".to_string(), "LP-2".to_string()),
        ("LP-2".to_string(), "LP-3".to_string()),
    ];
    let active = filter_dependency_graph_edges(&deps, &cards, true, None);
    assert_eq!(active, vec![("LP-1".to_string(), "LP-2".to_string())]);
    let focused = filter_dependency_graph_edges(&deps, &cards, false, Some("LP-3"));
    assert_eq!(focused, vec![("LP-2".to_string(), "LP-3".to_string())]);
    let plan = StagePlan {
        ready_stages: vec![strings(&["LP-1"])],
        dependency_blocked: vec![BlockedNode {
            key: "LP-2".to_string(),
            blocked_by: strings(&["LP-1"]),
        }],
    };
    assert_eq!(node_keys(&plan), strings(&["LP-1", "LP-2"]));
    let entries = vec![
        ("LP-1".to_string(), Some((card("LP-1"), ready("LP-1", true)))),
        ("LP-2".to_string(), Some((card("LP-2"), ready("LP-2", false)))),
        ("LP-7".to_string(), None),
    ];
    let states = graph_node_states(&entries, 0);
    assert_eq!(states.len(), 2);
    assert_eq!(
        dependency_graph(&cards, &deps, &plan, &states, Some(" LP-1 "), None).unwrap(),
        "dependency_graph:\nedges:\n- LP-1 -> LP-2\nstages:\nstage 1: LP-1(ready)\ndependency_blocked:\n- LP-2(dep-blocked) blocked_by: LP-1(ready)"
    );
    let empty = StagePlan {
        ready_stages: Vec::new(),
        dependency_blocked: Vec::new(),
    };
    assert_eq!(
        dependency_graph(&cards, &Vec::new(), &empty, &Vec::new(), Some("  "), Some(true)).unwrap(),
        "dependency_graph:\nedges:\n-\nstages:\n-\ndependency_blocked:\n-"
    );
    assert_eq!(
        dependency_graph(&cards, &deps, &plan, &states, Some("LP-9"), None)
            .err()
            .unwrap()
            .message,
        "no card 'LP-9'"
    );
}

fn rule(target: Option<&str>, to_agent: Option<&str>) -> SendHandoffRule {
    SendHandoffRule {
        target: target.map(str::to_string),
        to_agent: to_agent.map(str::to_string),
        repo: None,
        subject: "next".to_string(),
        body: None,
    }
}

#[test]
fn workflow_steps_and_recipients_resolve() {
    let wf = Workflow {
        name: "release".to_string(),
        initial_step: Some("build".to_string()),
        steps: vec![
            WorkflowStep {
                name: "build".to_string(),
                on_complete: None,
            },
            WorkflowStep {
                name: "ship".to_string(),
                on_complete: None,
            },
        ],
    };
    assert_eq!(selected_step(&wf, None).unwrap(), 0);
    assert_eq!(selected_step(&wf, Some("ship")).unwrap(), 1);
    assert_eq!(
        selected_step(&wf, Some("nope")).err().unwrap().message,
        "workflow step 'nope' was not found"
    );
    let config = parse_targets(
        "targets:\n  - name: bff\n    type: command\n    agent: bff-agent\n    repo: /work/r\n    command: agent-cli\n",
    )
    .unwrap();
    let target = resolve_target(&rule(Some("bff"), None), Some(&config))
        .unwrap()
        .unwrap();
    assert_eq!(
        resolve_to_agent(&rule(Some("bff"), None), Some(target)).unwrap(),
        "bff-agent"
    );
    assert_eq!(
        resolve_to_agent(&rule(Some("bff"), Some("  ")), None).unwrap(),
        "bff"
    );
    assert_eq!(
        resolve_to_agent(&rule(None, None), None).err().unwrap().message,
        "send_handoff target could not resolve a recipient"
    );
    assert_eq!(
        resolve_repo(&rule(Some("bff"), None), Some(target)).as_deref(),
        Some("/work/r")
    );
    assert_eq!(
        resolve_target(&rule(Some("bff"), None), None)
            .err()
            .unwrap()
            .message,
        "--targets is required when workflow uses target 'bff'"
    );
    assert!(check_event("complete").is_ok());
    assert_eq!(
        check_event("start").err().unwrap().message,
        "unsupported workflow event: start"
    );
    assert_eq!(
        no_action_summary("release", "build"),
        "workflow: release\nstep: build\naction: none"
    );
    assert_eq!(
        handoff_summary("release", "build", "7", "bff-agent"),
        "workflow: release\nstep: build\naction: send_handoff\nhandoff_id: 7\nto_agent: bff-agent"
    );
}

#[test]
fn workflow_triggers_need_a_completion() {
    let mut p = WorkflowTriggerFields {
        key: "KB-1".to_string(),
        complete_note: None,
        claim: Some("codex#1".to_string()),
        workflow: None,
        workflow_step: None,
        workflow_targets: None,
        workflow_from_agent: None,
    };
    assert!(!workflow_trigger_check(&p).unwrap());
    p.workflow = Some("flow.yaml".to_string());
    assert_eq!(
        workflow_trigger_check(&p).err().unwrap().message,
        "workflow trigger fields require complete_note; workflows run only on card completion"
    );
    p.complete_note = Some("done".to_string());
    assert!(workflow_trigger_check(&p).unwrap());
    let run = workflow_trigger(&p, "work".to_string());
    assert_eq!(run.event, "complete");
    assert_eq!(run.from_agent, "codex#1");
    assert_eq!(run.board.as_deref(), Some("work"));
    assert_eq!(run.card.as_deref(), Some("KB-1"));
    p.workflow = Some("  ".to_string());
    assert_eq!(
        workflow_trigger_check(&p).err().unwrap().message,
        "workflow is required when using workflow trigger fields"
    );
}

//! Workflow runs on card completion: which step runs, where its handoff
//! goes, and what the run reports.
use vstd::prelude::*;
use crate::queue::BadParam;
use crate::targets::{DeliveryTarget, TargetConfig, TargetView, first_named, target_name};
use crate::text::{blank, is_blank, owned, str_eq};

verus! {

/// A handoff that a step sends on completion.
#[derive(Debug)]
pub struct SendHandoffRule {
    pub target: Option<String>,
    pub to_agent: Option<String>,
    pub repo: Option<String>,
    pub subject: String,
    pub body: Option<String>,
}

/// What a step does when its card completes.
#[derive(Debug)]
pub enum WorkflowAction {
    SendHandoff(SendHandoffRule),
}

#[derive(Debug)]
pub struct WorkflowStep {
    pub name: String,
    pub on_complete: Option<WorkflowAction>,
}

#[derive(Debug)]
pub struct Workflow {
    pub name: String,
    pub initial_step: Option<String>,
    pub steps: Vec<WorkflowStep>,
}

/// A workflow run that cannot go on, with its message.
#[derive(Debug)]
pub struct WorkflowError {
    pub message: String,
}

/// The arguments of a workflow run.
#[derive(Debug)]
pub struct RunWorkflowArgs {
    pub workflow: String,
    pub event: String,
    pub step: Option<String>,
    pub from_agent: String,
    pub board: Option<String>,
    pub card: Option<String>,
    pub targets: Option<String>,
}

/// The workflow fields of a card update, with what a trigger reads besides.
#[derive(Debug)]
pub struct WorkflowTriggerFields {
    pub key: String,
    pub complete_note: Option<String>,
    pub claim: Option<String>,
    pub workflow: Option<String>,
    pub workflow_step: Option<String>,
    pub workflow_targets: Option<String>,
    pub workflow_from_agent: Option<String>,
}

pub open spec fn ov(o: Option<String>) -> Option<Seq<char>> {
    match o {
        Some(s) => Some(s@),
        None => None,
    }
}

pub open spec fn oref(o: Option<&str>) -> Option<Seq<char>> {
    match o {
        Some(s) => Some(s@),
        None => None,
    }
}

/// The first step named `name`.
pub open spec fn step_named(steps: Seq<WorkflowStep>, name: Seq<char>) -> Option<int>
    decreases steps.len(),
{
    if steps.len() == 0 {
        None
    } else {
        match step_named(steps.drop_last(), name) {
            Some(i) => Some(i),
            None => if steps.last().name@ == name {
                Some(steps.len() - 1)
            } else {
                None
            },
        }
    }
}

/// The step a run takes: the one named on the command line, else the
/// workflow's initial step.
pub open spec fn selected_step_spec(w: Workflow, explicit: Option<Seq<char>>) -> Result<int, Seq<char>> {
    let name = match explicit {
        Some(e) => Some(e),
        None => ov(w.initial_step),
    };
    match name {
        None => Err("--step is required when workflow has no initial_step"@),
        Some(n) => match step_named(w.steps@, n) {
            Some(i) => Ok(i),
            None => Err("workflow step '"@ + n + "' was not found"@),
        },
    }
}

/// The target a rule names: none without a name; the configured target of
/// that name, which needs a target configuration.
pub open spec fn resolve_target_spec(rule: SendHandoffRule, config: Option<Seq<TargetView>>) -> Result<
    Option<int>,
    Seq<char>,
> {
    match rule.target {
        None => Ok(None),
        Some(name) => match config {
            None => Err("--targets is required when workflow uses target '"@ + name@ + "'"@),
            Some(ts) => match first_named(ts, name@) {
                Some(i) => Ok(Some(i)),
                None => Err("unknown target '"@ + name@ + "'"@),
            },
        },
    }
}

/// The agent a target delivers to, if it names one.
pub open spec fn view_agent(t: TargetView) -> Option<Seq<char>> {
    match t {
        TargetView::Command(c) => c.agent,
        TargetView::Interactive(i) => i.agent,
    }
}

/// The repository of a command target.
pub open spec fn view_repo(t: TargetView) -> Option<Seq<char>> {
    match t {
        TargetView::Command(c) => c.repo,
        TargetView::Interactive(_) => None,
    }
}

/// The recipient of a handoff: the rule's `to_agent` unless blank, else the
/// target's agent, else the rule's target name unless blank.
pub open spec fn to_agent_spec(rule: SendHandoffRule, target: Option<TargetView>) -> Result<Seq<char>, Seq<char>> {
    if rule.to_agent matches Some(a) && !blank(a@) {
        Ok(rule.to_agent->0@)
    } else if target matches Some(t) && view_agent(t) is Some {
        Ok(view_agent(target->0)->0)
    } else if rule.target matches Some(n) && !blank(n@) {
        Ok(rule.target->0@)
    } else {
        Err("send_handoff target could not resolve a recipient"@)
    }
}

/// A handoff goes to the rule's own `to_agent` whenever it names one (not
/// blank), whatever agent the target has; only without it does the target's
/// agent decide.
pub proof fn explicit_recipient_wins(rule: SendHandoffRule, target: Option<TargetView>)
    ensures
        rule.to_agent matches Some(a) && !blank(a@) ==> to_agent_spec(rule, target) == Ok::<
            Seq<char>,
            Seq<char>,
        >(rule.to_agent->0@),
        !(rule.to_agent matches Some(a) && !blank(a@)) && (target matches Some(t) && view_agent(t)
            is Some) ==> to_agent_spec(rule, target) == Ok::<Seq<char>, Seq<char>>(
            view_agent(target->0)->0,
        ),
{
}

/// Without a `to_agent` and without an agent on the target, a handoff goes
/// to the rule's target name (unless blank); it is refused exactly when none
/// of the three gives a name.
pub proof fn recipient_falls_back_to_target_name(rule: SendHandoffRule, target: Option<TargetView>)
    ensures
        !(rule.to_agent matches Some(a) && !blank(a@)) && !(target matches Some(t) && view_agent(
            t,
        ) is Some) && (rule.target matches Some(n) && !blank(n@)) ==> to_agent_spec(rule, target)
            == Ok::<Seq<char>, Seq<char>>(rule.target->0@),
        to_agent_spec(rule, target) is Err <==> !(rule.to_agent matches Some(a) && !blank(a@))
            && !(target matches Some(t) && view_agent(t) is Some) && !(rule.target matches Some(n)
            && !blank(n@)),
{
}

/// The repository of a handoff: the rule's, else the target's.
pub open spec fn repo_spec(rule: SendHandoffRule, target: Option<TargetView>) -> Option<Seq<char>> {
    match rule.repo {
        Some(r) => Some(r@),
        None => match target {
            Some(t) => view_repo(t),
            None => None,
        },
    }
}

pub proof fn lemma_step_named_prefix(steps: Seq<WorkflowStep>, name: Seq<char>, n: int)
    requires
        0 <= n <= steps.len(),
        step_named(steps.take(n), name) is Some,
    ensures
        step_named(steps, name) == step_named(steps.take(n), name),
    decreases steps.len(),
{
    if n == steps.len() {
        assert(steps.take(n) =~= steps);
    } else {
        assert(steps.drop_last().take(n) =~= steps.take(n));
        lemma_step_named_prefix(steps.drop_last(), name, n);
    }
}

/// The step a run takes, as an index into the workflow's steps.
#[verifier::loop_isolation(false)]
pub fn selected_step(workflow: &Workflow, explicit_step: Option<&str>) -> (r: Result<usize, WorkflowError>)
    ensures
        match (r, selected_step_spec(*workflow, oref(explicit_step))) {
            (Ok(i), Ok(j)) => i == j && i < workflow.steps.len(),
            (Err(e), Err(m)) => e.message@ == m,
            _ => false,
        },
{
    let name: &str = match explicit_step {
        Some(e) => e,
        None => match &workflow.initial_step {
            Some(s) => s.as_str(),
            None => {
                return Err(
                    WorkflowError {
                        message: owned("--step is required when workflow has no initial_step"),
                    },
                );
            },
        },
    };
    let mut i: usize = 0;
    while i < workflow.steps.len()
        invariant
            i <= workflow.steps.len(),
            step_named(workflow.steps@.take(i as int), name@) is None,
        decreases workflow.steps.len() - i,
    {
        assert(workflow.steps@.take(i + 1).drop_last() =~= workflow.steps@.take(i as int));
        if str_eq(workflow.steps[i].name.as_str(), name) {
            proof {
                lemma_step_named_prefix(workflow.steps@, name@, i + 1);
            }
            return Ok(i);
        }
        i = i + 1;
    }
    assert(workflow.steps@.take(workflow.steps.len() as int) =~= workflow.steps@);
    Err(WorkflowError { message: owned("workflow step '").concat(name).concat("' was not found") })
}

/// The configured target a rule sends to, if it names one.
pub fn resolve_target<'a>(rule: &SendHandoffRule, config: Option<&'a TargetConfig>) -> (r: Result<
    Option<&'a DeliveryTarget>,
    WorkflowError,
>)
    ensures
        match (r, resolve_target_spec(*rule, match config {
            Some(c) => Some(c@),
            None => None,
        })) {
            (Ok(None), Ok(None)) => true,
            (Ok(Some(t)), Ok(Some(i))) => t@ == config->0@[i],
            (Err(e), Err(m)) => e.message@ == m,
            _ => false,
        },
{
    match &rule.target {
        None => Ok(None),
        Some(name) => match config {
            None => Err(
                WorkflowError {
                    message: owned("--targets is required when workflow uses target '").concat(
                        name.as_str(),
                    ).concat("'"),
                },
            ),
            Some(c) => match c.find(name.as_str()) {
                Some(t) => Ok(Some(t)),
                None => Err(
                    WorkflowError {
                        message: owned("unknown target '").concat(name.as_str()).concat("'"),
                    },
                ),
            },
        },
    }
}

/// The recipient of the handoff a rule sends.
pub fn resolve_to_agent(rule: &SendHandoffRule, target: Option<&DeliveryTarget>) -> (r: Result<
    String,
    WorkflowError,
>)
    ensures
        match (r, to_agent_spec(*rule, match target {
            Some(t) => Some(t@),
            None => None,
        })) {
            (Ok(a), Ok(b)) => a@ == b,
            (Err(e), Err(m)) => e.message@ == m,
            _ => false,
        },
{
    match &rule.to_agent {
        Some(a) => {
            if !is_blank(a.as_str()) {
                return Ok(a.clone());
            }
        },
        None => {},
    }
    match target {
        Some(t) => match t.agent() {
            Some(a) => {
                return Ok(owned(a));
            },
            None => {},
        },
        None => {},
    }
    match &rule.target {
        Some(n) => {
            if !is_blank(n.as_str()) {
                return Ok(n.clone());
            }
        },
        None => {},
    }
    Err(WorkflowError { message: owned("send_handoff target could not resolve a recipient") })
}

/// The repository of the handoff a rule sends.
pub fn resolve_repo(rule: &SendHandoffRule, target: Option<&DeliveryTarget>) -> (r: Option<String>)
    ensures
        ov(r) == repo_spec(*rule, match target {
            Some(t) => Some(t@),
            None => None,
        }),
{
    match &rule.repo {
        Some(r) => Some(r.clone()),
        None => match target {
            Some(t) => match t.repo() {
                Some(p) => Some(owned(p)),
                None => None,
            },
            None => None,
        },
    }
}

/// Runs go only on card completion.
pub fn check_event(event: &str) -> (r: Result<(), WorkflowError>)
    ensures
        match r {
            Ok(()) => event@ == "complete"@,
            Err(e) => event@ != "complete"@ && e.message@ == "unsupported workflow event: "@ + event@,
        },
{
    if str_eq(event, "complete") {
        Ok(())
    } else {
        Err(WorkflowError { message: owned("unsupported workflow event: ").concat(event) })
    }
}

/// The report of a run whose step sends nothing.
pub fn no_action_summary(workflow: &str, step: &str) -> (r: String)
    ensures
        r@ == "workflow: "@ + workflow@ + "\nstep: "@ + step@ + "\naction: none"@,
{
    owned("workflow: ").concat(workflow).concat("\nstep: ").concat(step).concat("\naction: none")
}

/// The report of a run that sent a handoff.
pub fn handoff_summary(workflow: &str, step: &str, handoff_id: &str, to_agent: &str) -> (r: String)
    ensures
        r@ == "workflow: "@ + workflow@ + "\nstep: "@ + step@ + "\naction: send_handoff\nhandoff_id: "@
            + handoff_id@ + "\nto_agent: "@ + to_agent@,
{
    owned("workflow: ").concat(workflow).concat("\nstep: ").concat(step).concat(
        "\naction: send_handoff\nhandoff_id: ",
    ).concat(handoff_id).concat("\nto_agent: ").concat(to_agent)
}

/// Whether an update asks for a workflow run: any workflow field set. Such
/// an update must complete the card and name the workflow.
pub open spec fn trigger_spec(p: WorkflowTriggerFields) -> Result<bool, Seq<char>> {
    if p.workflow is None && p.workflow_step is None && p.workflow_targets is None
        && p.workflow_from_agent is None {
        Ok(false)
    } else if p.complete_note is None {
        Err("workflow trigger fields require complete_note; workflows run only on card completion"@)
    } else if p.workflow is None || blank(p.workflow->0@) {
        Err("workflow is required when using workflow trigger fields"@)
    } else {
        Ok(true)
    }
}

/// Checks the workflow fields of an update: `Ok(false)` when there are
/// none, `Ok(true)` when a run is asked for.
pub fn workflow_trigger_check(p: &WorkflowTriggerFields) -> (r: Result<bool, BadParam>)
    ensures
        match (r, trigger_spec(*p)) {
            (Ok(a), Ok(b)) => a == b,
            (Err(e), Err(m)) => e.message@ == m,
            _ => false,
        },
{
    if p.workflow.is_none() && p.workflow_step.is_none() && p.workflow_targets.is_none()
        && p.workflow_from_agent.is_none() {
        return Ok(false);
    }
    if p.complete_note.is_none() {
        return Err(
            BadParam {
                message: owned(
                    "workflow trigger fields require complete_note; workflows run only on card completion",
                ),
            },
        );
    }
    match &p.workflow {
        Some(w) => {
            if is_blank(w.as_str()) {
                return Err(
                    BadParam {
                        message: owned("workflow is required when using workflow trigger fields"),
                    },
                );
            }
        },
        None => {
            return Err(
                BadParam { message: owned("workflow is required when using workflow trigger fields") },
            );
        },
    }
    Ok(true)
}

/// The run that an update with a workflow asks for, on the board with slug
/// `board`: a completion event, sent from the named agent, else the
/// claimant, else `agent`.
pub fn workflow_trigger(p: &WorkflowTriggerFields, board: String) -> (r: RunWorkflowArgs)
    requires
        trigger_spec(*p) == Ok::<bool, Seq<char>>(true),
    ensures
        r.workflow@ == p.workflow->0@,
        r.event@ == "complete"@,
        ov(r.step) == ov(p.workflow_step),
        r.from_agent@ == match p.workflow_from_agent {
            Some(a) => a@,
            None => match p.claim {
                Some(c) => c@,
                None => "agent"@,
            },
        },
        ov(r.board) == Some(board@),
        ov(r.card) == Some(p.key@),
        ov(r.targets) == ov(p.workflow_targets),
{
    let workflow = match &p.workflow {
        Some(w) => w.clone(),
        None => String::new(),
    };
    let step = match &p.workflow_step {
        Some(s) => Some(s.clone()),
        None => None,
    };
    let from_agent = match &p.workflow_from_agent {
        Some(a) => a.clone(),
        None => match &p.claim {
            Some(c) => c.clone(),
            None => owned("agent"),
        },
    };
    let targets = match &p.workflow_targets {
        Some(t) => Some(t.clone()),
        None => None,
    };
    RunWorkflowArgs {
        workflow,
        event: owned("complete"),
        step,
        from_agent,
        board: Some(board),
        card: Some(p.key.clone()),
        targets,
    }
}

} // verus!

use turn_core::items::ReviewDecision;
use turn_core::orchestrator::ApprovalRequirement;
use turn_core::orchestrator::ExecToolCallOutput;
use turn_core::orchestrator::OrchAction;
use turn_core::orchestrator::OrchConfig;
use turn_core::orchestrator::OrchEvent;
use turn_core::orchestrator::OrchState;
use turn_core::orchestrator::SandboxMode;
use turn_core::orchestrator::SandboxOverride;
use turn_core::orchestrator::ToolDecisionEvent;
use turn_core::orchestrator::ToolDecisionSource;
use turn_core::orchestrator::ToolOrchestrator;
use turn_core::orchestrator::build_denial_reason_from_output;
use turn_core::orchestrator::select_first_attempt_sandbox;

fn denied_output() -> ExecToolCallOutput {
    ExecToolCallOutput {
        exit_code: 1,
        aggregated_output: "permission denied".to_string(),
        timed_out: false,
    }
}

fn config(
    requirement: ApprovalRequirement,
    escalate: bool,
    allows_retry: bool,
    requires_retry_approval: bool,
) -> OrchConfig {
    OrchConfig {
        requirement,
        initial_sandbox: SandboxMode::Isolated(1),
        escalate_on_failure: escalate,
        allows_unsandboxed_retry: allows_retry,
        requires_retry_approval,
    }
}

#[test]
fn sandbox_denied_retry_prompts_once_and_runs_unsandboxed() {
    // A tool that escalates on failure, under a policy that permits the
    // unsandboxed retry, not previously approved.
    let orch = ToolOrchestrator::new();
    let cfg = config(ApprovalRequirement::Skip, true, true, true);

    let started = orch.start(&cfg);
    assert_eq!(started.state, OrchState::FirstAttempt { already_approved: false });
    assert_eq!(
        started.action,
        OrchAction::Attempt { sandbox: SandboxMode::Isolated(1), use_linux_sandbox_exe: true }
    );
    assert_eq!(
        started.telemetry,
        Some(ToolDecisionEvent {
            decision: ReviewDecision::Approved,
            source: ToolDecisionSource::Config,
        })
    );

    let gated = orch.step(&cfg, started.state, OrchEvent::AttemptSandboxDenied(denied_output()));
    assert_eq!(gated.state, OrchState::AwaitingRetryApproval);
    assert_eq!(
        gated.action,
        OrchAction::AskApproval {
            retry_reason: Some("command failed; retry without sandbox?".to_string()),
        }
    );

    let approved = orch.step(&cfg, gated.state, OrchEvent::Decision(ReviewDecision::Approved));
    assert_eq!(approved.state, OrchState::RetryAttempt);
    assert_eq!(
        approved.action,
        OrchAction::Attempt { sandbox: SandboxMode::Unsandboxed, use_linux_sandbox_exe: false }
    );

    let done = orch.step(&cfg, approved.state, OrchEvent::AttemptOk);
    assert_eq!(done.state, OrchState::Finished);
    assert_eq!(done.action, OrchAction::FinishSuccess);
}

#[test]
fn forbidden_requirement_rejects_at_once() {
    let orch = ToolOrchestrator::new();
    let cfg = config(
        ApprovalRequirement::Forbidden { reason: "policy forbids it".to_string() },
        true,
        true,
        true,
    );
    let started = orch.start(&cfg);
    assert_eq!(started.state, OrchState::Finished);
    assert_eq!(started.action, OrchAction::FinishRejected { reason: "policy forbids it".to_string() });
    assert_eq!(started.telemetry, None);
}

#[test]
fn needs_approval_prompts_and_a_denial_rejects() {
    let orch = ToolOrchestrator::new();
    let cfg = config(
        ApprovalRequirement::NeedsApproval { reason: Some("dangerous".to_string()) },
        true,
        true,
        true,
    );
    let started = orch.start(&cfg);
    assert_eq!(started.state, OrchState::AwaitingInitialApproval);
    assert_eq!(
        started.action,
        OrchAction::AskApproval { retry_reason: Some("dangerous".to_string()) }
    );

    let denied = orch.step(&cfg, started.state, OrchEvent::Decision(ReviewDecision::Denied));
    assert_eq!(denied.state, OrchState::Finished);
    assert_eq!(denied.action, OrchAction::FinishRejected { reason: "rejected by user".to_string() });
    assert_eq!(
        denied.telemetry,
        Some(ToolDecisionEvent {
            decision: ReviewDecision::Denied,
            source: ToolDecisionSource::User,
        })
    );
}

#[test]
fn approved_call_skips_the_retry_prompt() {
    // The approval cache: a call approved at the initial prompt is not asked
    // again before the unsandboxed retry.
    let orch = ToolOrchestrator::new();
    let cfg = config(ApprovalRequirement::NeedsApproval { reason: None }, true, true, true);
    let started = orch.start(&cfg);
    let approved = orch.step(&cfg, started.state, OrchEvent::Decision(ReviewDecision::Approved));
    assert_eq!(approved.state, OrchState::FirstAttempt { already_approved: true });

    let gated = orch.step(&cfg, approved.state, OrchEvent::AttemptSandboxDenied(denied_output()));
    assert_eq!(gated.state, OrchState::RetryAttempt);
    assert_eq!(
        gated.action,
        OrchAction::Attempt { sandbox: SandboxMode::Unsandboxed, use_linux_sandbox_exe: false }
    );
}

#[test]
fn no_escalation_surfaces_the_denial() {
    let orch = ToolOrchestrator::new();
    let cfg = config(ApprovalRequirement::Skip, false, true, true);
    let started = orch.start(&cfg);
    let gated = orch.step(&cfg, started.state, OrchEvent::AttemptSandboxDenied(denied_output()));
    assert_eq!(gated.state, OrchState::Finished);
    assert_eq!(gated.action, OrchAction::FinishSurfaceError);
}

#[test]
fn policy_refusing_unsandboxed_retry_surfaces_the_denial() {
    let orch = ToolOrchestrator::new();
    let cfg = config(ApprovalRequirement::Skip, true, false, true);
    let started = orch.start(&cfg);
    let gated = orch.step(&cfg, started.state, OrchEvent::AttemptSandboxDenied(denied_output()));
    assert_eq!(gated.state, OrchState::Finished);
    assert_eq!(gated.action, OrchAction::FinishSurfaceError);
}

#[test]
fn retry_failure_is_surfaced_unchanged() {
    let orch = ToolOrchestrator::new();
    let cfg = config(ApprovalRequirement::Skip, true, true, false);
    let started = orch.start(&cfg);
    let gated = orch.step(&cfg, started.state, OrchEvent::AttemptSandboxDenied(denied_output()));
    assert_eq!(gated.state, OrchState::RetryAttempt);
    let done = orch.step(&cfg, gated.state, OrchEvent::AttemptSandboxDenied(denied_output()));
    assert_eq!(done.state, OrchState::Finished);
    assert_eq!(done.action, OrchAction::FinishSurfaceError);
}

#[test]
fn first_attempt_success_finishes() {
    let orch = ToolOrchestrator::new();
    let cfg = config(ApprovalRequirement::Skip, true, true, true);
    let started = orch.start(&cfg);
    let done = orch.step(&cfg, started.state, OrchEvent::AttemptOk);
    assert_eq!(done.state, OrchState::Finished);
    assert_eq!(done.action, OrchAction::FinishSuccess);
}

#[test]
fn bypass_demand_forces_an_unsandboxed_first_attempt() {
    assert_eq!(
        select_first_attempt_sandbox(
            SandboxOverride::BypassSandboxFirstAttempt,
            SandboxMode::Isolated(2),
        ),
        SandboxMode::Unsandboxed
    );
    assert_eq!(
        select_first_attempt_sandbox(SandboxOverride::NoOverride, SandboxMode::Isolated(2)),
        SandboxMode::Isolated(2)
    );
}

#[test]
fn denial_reason_is_terse_and_stable() {
    assert_eq!(
        build_denial_reason_from_output(&denied_output()),
        "command failed; retry without sandbox?"
    );
}

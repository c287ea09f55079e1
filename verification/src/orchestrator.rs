//! The tool orchestrator: a per-call state machine that sequences approval,
//! sandbox selection, execution, and the unsandboxed retry after a sandbox
//! denial.
//!
//! The machine is a pure step function from state and event to the next
//! state and the action the caller must perform: ask the user, attempt the
//! tool under a sandbox, or finish.  The caller runs the loop, performs each
//! action, and hands the outcome back as the next event.

use vstd::prelude::*;
use vstd::string::StringExecFns;
use crate::items::ReviewDecision;

verus! {

/// A selectable execution isolate: none, or the platform isolate the
/// sandbox manager picked, named by its kind.
#[derive(Clone, Copy, Debug, PartialEq, Eq, Structural)]
pub enum SandboxMode {
    Unsandboxed,
    Isolated(u64),
}

/// A tool's demand about its first attempt.
#[derive(Clone, Copy, Debug, PartialEq, Eq, Structural)]
pub enum SandboxOverride {
    BypassSandboxFirstAttempt,
    NoOverride,
}

/// The sandbox the first attempt runs under: the tool's bypass demand wins
/// over the manager's selection.
pub fn select_first_attempt_sandbox(sandbox_override: SandboxOverride, selected: SandboxMode) -> (r:
    SandboxMode)
    ensures
        r == (match sandbox_override {
            SandboxOverride::BypassSandboxFirstAttempt => SandboxMode::Unsandboxed,
            SandboxOverride::NoOverride => selected,
        }),
{
    match sandbox_override {
        SandboxOverride::BypassSandboxFirstAttempt => SandboxMode::Unsandboxed,
        SandboxOverride::NoOverride => selected,
    }
}

/// The approval a call needs before its first attempt: none, forbidden
/// outright, or a user prompt with an optional reason.
#[derive(Debug, PartialEq)]
pub enum ApprovalRequirement {
    Skip,
    Forbidden { reason: String },
    NeedsApproval { reason: Option<String> },
}

#[verifier::ext_equal]
pub enum ApprovalRequirementView {
    Skip,
    Forbidden { reason: Seq<char> },
    NeedsApproval { reason: Option<Seq<char>> },
}

impl View for ApprovalRequirement {
    type V = ApprovalRequirementView;

    open spec fn view(&self) -> ApprovalRequirementView {
        match self {
            ApprovalRequirement::Skip => ApprovalRequirementView::Skip,
            ApprovalRequirement::Forbidden { reason } => ApprovalRequirementView::Forbidden {
                reason: reason@,
            },
            ApprovalRequirement::NeedsApproval { reason } => ApprovalRequirementView::NeedsApproval {
                reason: reason.deep_view(),
            },
        }
    }
}

/// Who settled a decision: the configuration, or the user at a prompt.
#[derive(Clone, Copy, Debug, PartialEq, Eq, Structural)]
pub enum ToolDecisionSource {
    Config,
    User,
}

/// One tool-decision telemetry event.
#[derive(Clone, Copy, Debug, PartialEq, Eq, Structural)]
pub struct ToolDecisionEvent {
    pub decision: ReviewDecision,
    pub source: ToolDecisionSource,
}

/// The per-call policy the machine runs under.
#[derive(Debug, PartialEq)]
pub struct OrchConfig {
    /// What approval the call needs before its first attempt.
    pub requirement: ApprovalRequirement,
    /// The sandbox the first attempt runs under.
    pub initial_sandbox: SandboxMode,
    /// Whether a sandbox denial may escalate to an unsandboxed retry.
    pub escalate_on_failure: bool,
    /// Whether the approval policy permits an unsandboxed retry at all.
    pub allows_unsandboxed_retry: bool,
    /// Whether the policy demands a prompt before the retry when the call
    /// was not approved already.
    pub requires_retry_approval: bool,
}

#[verifier::ext_equal]
pub struct OrchConfigView {
    pub requirement: ApprovalRequirementView,
    pub initial_sandbox: SandboxMode,
    pub escalate_on_failure: bool,
    pub allows_unsandboxed_retry: bool,
    pub requires_retry_approval: bool,
}

impl View for OrchConfig {
    type V = OrchConfigView;

    open spec fn view(&self) -> OrchConfigView {
        OrchConfigView {
            requirement: self.requirement@,
            initial_sandbox: self.initial_sandbox,
            escalate_on_failure: self.escalate_on_failure,
            allows_unsandboxed_retry: self.allows_unsandboxed_retry,
            requires_retry_approval: self.requires_retry_approval,
        }
    }
}

/// Where a call stands.
#[derive(Clone, Copy, Debug, PartialEq, Eq, Structural)]
pub enum OrchState {
    AwaitingInitialApproval,
    FirstAttempt { already_approved: bool },
    AwaitingRetryApproval,
    RetryAttempt,
    Finished,
}

/// What a tool attempt reports.
#[derive(Debug, PartialEq)]
pub struct ExecToolCallOutput {
    pub exit_code: i64,
    pub aggregated_output: String,
    pub timed_out: bool,
}

#[verifier::ext_equal]
pub struct ExecToolCallOutputView {
    pub exit_code: i64,
    pub aggregated_output: Seq<char>,
    pub timed_out: bool,
}

impl View for ExecToolCallOutput {
    type V = ExecToolCallOutputView;

    open spec fn view(&self) -> ExecToolCallOutputView {
        ExecToolCallOutputView {
            exit_code: self.exit_code,
            aggregated_output: self.aggregated_output@,
            timed_out: self.timed_out,
        }
    }
}

/// What happened since the last action: the user decided, or the attempt
/// came back.
#[derive(Debug, PartialEq)]
pub enum OrchEvent {
    Decision(ReviewDecision),
    AttemptOk,
    AttemptSandboxDenied(ExecToolCallOutput),
    AttemptFailed,
}

#[verifier::ext_equal]
pub enum OrchEventView {
    Decision(ReviewDecision),
    AttemptOk,
    AttemptSandboxDenied(ExecToolCallOutputView),
    AttemptFailed,
}

impl View for OrchEvent {
    type V = OrchEventView;

    open spec fn view(&self) -> OrchEventView {
        match self {
            OrchEvent::Decision(d) => OrchEventView::Decision(*d),
            OrchEvent::AttemptOk => OrchEventView::AttemptOk,
            OrchEvent::AttemptSandboxDenied(o) => OrchEventView::AttemptSandboxDenied(o@),
            OrchEvent::AttemptFailed => OrchEventView::AttemptFailed,
        }
    }
}

/// What the caller must do next.
#[derive(Debug, PartialEq)]
pub enum OrchAction {
    /// Prompt the user, with the retry reason when one applies.
    AskApproval { retry_reason: Option<String> },
    /// Run the tool under the given sandbox; the first attempt carries the
    /// configured platform sandbox helper, the retry none.
    Attempt { sandbox: SandboxMode, use_linux_sandbox_exe: bool },
    /// Return the attempt's successful output.
    FinishSuccess,
    /// Fail with a rejection carrying the reason.
    FinishRejected { reason: String },
    /// Surface the last attempt's error unchanged.
    FinishSurfaceError,
}

#[verifier::ext_equal]
pub enum OrchActionView {
    AskApproval { retry_reason: Option<Seq<char>> },
    Attempt { sandbox: SandboxMode, use_linux_sandbox_exe: bool },
    FinishSuccess,
    FinishRejected { reason: Seq<char> },
    FinishSurfaceError,
}

impl View for OrchAction {
    type V = OrchActionView;

    open spec fn view(&self) -> OrchActionView {
        match self {
            OrchAction::AskApproval { retry_reason } => OrchActionView::AskApproval {
                retry_reason: retry_reason.deep_view(),
            },
            OrchAction::Attempt { sandbox, use_linux_sandbox_exe } => OrchActionView::Attempt {
                sandbox: *sandbox,
                use_linux_sandbox_exe: *use_linux_sandbox_exe,
            },
            OrchAction::FinishSuccess => OrchActionView::FinishSuccess,
            OrchAction::FinishRejected { reason } => OrchActionView::FinishRejected {
                reason: reason@,
            },
            OrchAction::FinishSurfaceError => OrchActionView::FinishSurfaceError,
        }
    }
}

/// One advance of the machine: the state it moves to, the action to
/// perform, and the telemetry to emit, when any.
#[derive(Debug, PartialEq)]
pub struct OrchStep {
    pub state: OrchState,
    pub action: OrchAction,
    pub telemetry: Option<ToolDecisionEvent>,
}

#[verifier::ext_equal]
pub struct OrchStepView {
    pub state: OrchState,
    pub action: OrchActionView,
    pub telemetry: Option<ToolDecisionEvent>,
}

impl View for OrchStep {
    type V = OrchStepView;

    open spec fn view(&self) -> OrchStepView {
        OrchStepView { state: self.state, action: self.action@, telemetry: self.telemetry }
    }
}

/// The terse, stable reason an unsandboxed retry is proposed with.
pub open spec fn spec_denial_reason() -> Seq<char> {
    "command failed; retry without sandbox?"@
}

/// The reason the user is prompted with before an unsandboxed retry.  The
/// denied attempt's output is accepted so the heuristics can evolve without
/// touching call sites; today the reason is fixed.
pub fn build_denial_reason_from_output(output: &ExecToolCallOutput) -> (r: String)
    ensures
        r@ == spec_denial_reason(),
{
    String::from_str("command failed; retry without sandbox?")
}

/// The rejection text of a prompt the user declined.
pub open spec fn rejected_by_user_text() -> Seq<char> {
    "rejected by user"@
}

/// What starting a call does: a forbidden call is rejected, a call that
/// needs approval prompts, and a skipped approval is recorded as a
/// configuration decision and attempts at once.
pub open spec fn spec_orch_start(cfg: OrchConfigView) -> OrchStepView {
    match cfg.requirement {
        ApprovalRequirementView::Skip => OrchStepView {
            state: OrchState::FirstAttempt { already_approved: false },
            action: OrchActionView::Attempt {
                sandbox: cfg.initial_sandbox,
                use_linux_sandbox_exe: true,
            },
            telemetry: Some(
                ToolDecisionEvent {
                    decision: ReviewDecision::Approved,
                    source: ToolDecisionSource::Config,
                },
            ),
        },
        ApprovalRequirementView::Forbidden { reason } => OrchStepView {
            state: OrchState::Finished,
            action: OrchActionView::FinishRejected { reason },
            telemetry: None,
        },
        ApprovalRequirementView::NeedsApproval { reason } => OrchStepView {
            state: OrchState::AwaitingInitialApproval,
            action: OrchActionView::AskApproval { retry_reason: reason },
            telemetry: None,
        },
    }
}

/// Whether the event is one the state can receive.
pub open spec fn valid_event(st: OrchState, ev: OrchEventView) -> bool {
    match st {
        OrchState::AwaitingInitialApproval => ev is Decision,
        OrchState::AwaitingRetryApproval => ev is Decision,
        OrchState::FirstAttempt { .. } => !(ev is Decision),
        OrchState::RetryAttempt => !(ev is Decision),
        OrchState::Finished => false,
    }
}

/// One advance of the machine.
///
/// A denied prompt rejects the call.  A successful attempt finishes.  A
/// sandbox denial of the first attempt passes the retry gate: no escalation
/// or no permission surfaces the denial; an unapproved call under a policy
/// that demands approval prompts once more; otherwise the retry runs
/// unsandboxed at once.  Any outcome of the retry is surfaced unchanged.
pub open spec fn spec_orch_step(cfg: OrchConfigView, st: OrchState, ev: OrchEventView) -> OrchStepView {
    match (st, ev) {
        (OrchState::AwaitingInitialApproval, OrchEventView::Decision(d)) => if d.spec_is_approval() {
            OrchStepView {
                state: OrchState::FirstAttempt { already_approved: true },
                action: OrchActionView::Attempt {
                    sandbox: cfg.initial_sandbox,
                    use_linux_sandbox_exe: true,
                },
                telemetry: Some(ToolDecisionEvent { decision: d, source: ToolDecisionSource::User }),
            }
        } else {
            OrchStepView {
                state: OrchState::Finished,
                action: OrchActionView::FinishRejected { reason: rejected_by_user_text() },
                telemetry: Some(ToolDecisionEvent { decision: d, source: ToolDecisionSource::User }),
            }
        },
        (OrchState::FirstAttempt { .. }, OrchEventView::AttemptOk) => OrchStepView {
            state: OrchState::Finished,
            action: OrchActionView::FinishSuccess,
            telemetry: None,
        },
        (OrchState::FirstAttempt { .. }, OrchEventView::AttemptFailed) => OrchStepView {
            state: OrchState::Finished,
            action: OrchActionView::FinishSurfaceError,
            telemetry: None,
        },
        (
            OrchState::FirstAttempt { already_approved },
            OrchEventView::AttemptSandboxDenied(_),
        ) => if !cfg.escalate_on_failure || !cfg.allows_unsandboxed_retry {
            OrchStepView {
                state: OrchState::Finished,
                action: OrchActionView::FinishSurfaceError,
                telemetry: None,
            }
        } else if !already_approved && cfg.requires_retry_approval {
            OrchStepView {
                state: OrchState::AwaitingRetryApproval,
                action: OrchActionView::AskApproval { retry_reason: Some(spec_denial_reason()) },
                telemetry: None,
            }
        } else {
            OrchStepView {
                state: OrchState::RetryAttempt,
                action: OrchActionView::Attempt {
                    sandbox: SandboxMode::Unsandboxed,
                    use_linux_sandbox_exe: false,
                },
                telemetry: None,
            }
        },
        (OrchState::AwaitingRetryApproval, OrchEventView::Decision(d)) => if d.spec_is_approval() {
            OrchStepView {
                state: OrchState::RetryAttempt,
                action: OrchActionView::Attempt {
                    sandbox: SandboxMode::Unsandboxed,
                    use_linux_sandbox_exe: false,
                },
                telemetry: Some(ToolDecisionEvent { decision: d, source: ToolDecisionSource::User }),
            }
        } else {
            OrchStepView {
                state: OrchState::Finished,
                action: OrchActionView::FinishRejected { reason: rejected_by_user_text() },
                telemetry: Some(ToolDecisionEvent { decision: d, source: ToolDecisionSource::User }),
            }
        },
        (OrchState::RetryAttempt, OrchEventView::AttemptOk) => OrchStepView {
            state: OrchState::Finished,
            action: OrchActionView::FinishSuccess,
            telemetry: None,
        },
        (OrchState::RetryAttempt, _) => OrchStepView {
            state: OrchState::Finished,
            action: OrchActionView::FinishSurfaceError,
            telemetry: None,
        },
        _ => OrchStepView {
            state: OrchState::Finished,
            action: OrchActionView::FinishSurfaceError,
            telemetry: None,
        },
    }
}

/// Drives the approval, sandbox and retry sequence for tool calls.  The
/// sandbox manager and the tool handlers live with the caller, who performs
/// each returned action and hands the outcome back; the orchestrator itself
/// is stateless between calls.
pub struct ToolOrchestrator {}

impl ToolOrchestrator {
    /// A fresh orchestrator.
    pub fn new() -> (r: Self)
        ensures
            r == (ToolOrchestrator {  }),
    {
        ToolOrchestrator {  }
    }

    /// Starts one tool call, as `spec_orch_start` says.
    pub fn start(&self, cfg: &OrchConfig) -> (r: OrchStep)
        ensures
            r@ == spec_orch_start(cfg@),
    {
        match &cfg.requirement {
            ApprovalRequirement::Skip => OrchStep {
                state: OrchState::FirstAttempt { already_approved: false },
                action: OrchAction::Attempt {
                    sandbox: cfg.initial_sandbox,
                    use_linux_sandbox_exe: true,
                },
                telemetry: Some(
                    ToolDecisionEvent {
                        decision: ReviewDecision::Approved,
                        source: ToolDecisionSource::Config,
                    },
                ),
            },
            ApprovalRequirement::Forbidden { reason } => OrchStep {
                state: OrchState::Finished,
                action: OrchAction::FinishRejected { reason: reason.clone() },
                telemetry: None,
            },
            ApprovalRequirement::NeedsApproval { reason } => OrchStep {
                state: OrchState::AwaitingInitialApproval,
                action: OrchAction::AskApproval {
                    retry_reason: crate::items::clone_opt_string(reason),
                },
                telemetry: None,
            },
        }
    }

    /// Advances one tool call, as `spec_orch_step` says.  The caller hands
    /// in only events the state can receive: a decision answers a prompt, an
    /// attempt outcome answers an attempt.
    pub fn step(&self, cfg: &OrchConfig, state: OrchState, event: OrchEvent) -> (r: OrchStep)
        requires
            valid_event(state, event@),
        ensures
            r@ == spec_orch_step(cfg@, state, event@),
    {
        match (state, event) {
            (OrchState::AwaitingInitialApproval, OrchEvent::Decision(d)) => {
                if d.is_approval() {
                    OrchStep {
                        state: OrchState::FirstAttempt { already_approved: true },
                        action: OrchAction::Attempt {
                            sandbox: cfg.initial_sandbox,
                            use_linux_sandbox_exe: true,
                        },
                        telemetry: Some(
                            ToolDecisionEvent { decision: d, source: ToolDecisionSource::User },
                        ),
                    }
                } else {
                    OrchStep {
                        state: OrchState::Finished,
                        action: OrchAction::FinishRejected {
                            reason: String::from_str("rejected by user"),
                        },
                        telemetry: Some(
                            ToolDecisionEvent { decision: d, source: ToolDecisionSource::User },
                        ),
                    }
                }
            },
            (OrchState::FirstAttempt { .. }, OrchEvent::AttemptOk) => OrchStep {
                state: OrchState::Finished,
                action: OrchAction::FinishSuccess,
                telemetry: None,
            },
            (OrchState::FirstAttempt { .. }, OrchEvent::AttemptFailed) => OrchStep {
                state: OrchState::Finished,
                action: OrchAction::FinishSurfaceError,
                telemetry: None,
            },
            (OrchState::FirstAttempt { already_approved }, OrchEvent::AttemptSandboxDenied(output)) => {
                if !cfg.escalate_on_failure || !cfg.allows_unsandboxed_retry {
                    OrchStep {
                        state: OrchState::Finished,
                        action: OrchAction::FinishSurfaceError,
                        telemetry: None,
                    }
                } else if !already_approved && cfg.requires_retry_approval {
                    let reason_msg = build_denial_reason_from_output(&output);
                    OrchStep {
                        state: OrchState::AwaitingRetryApproval,
                        action: OrchAction::AskApproval { retry_reason: Some(reason_msg) },
                        telemetry: None,
                    }
                } else {
                    OrchStep {
                        state: OrchState::RetryAttempt,
                        action: OrchAction::Attempt {
                            sandbox: SandboxMode::Unsandboxed,
                            use_linux_sandbox_exe: false,
                        },
                        telemetry: None,
                    }
                }
            },
            (OrchState::AwaitingRetryApproval, OrchEvent::Decision(d)) => {
                if d.is_approval() {
                    OrchStep {
                        state: OrchState::RetryAttempt,
                        action: OrchAction::Attempt {
                            sandbox: SandboxMode::Unsandboxed,
                            use_linux_sandbox_exe: false,
                        },
                        telemetry: Some(
                            ToolDecisionEvent { decision: d, source: ToolDecisionSource::User },
                        ),
                    }
                } else {
                    OrchStep {
                        state: OrchState::Finished,
                        action: OrchAction::FinishRejected {
                            reason: String::from_str("rejected by user"),
                        },
                        telemetry: Some(
                            ToolDecisionEvent { decision: d, source: ToolDecisionSource::User },
                        ),
                    }
                }
            },
            (OrchState::RetryAttempt, OrchEvent::AttemptOk) => OrchStep {
                state: OrchState::Finished,
                action: OrchAction::FinishSuccess,
                telemetry: None,
            },
            (OrchState::RetryAttempt, _) => OrchStep {
                state: OrchState::Finished,
                action: OrchAction::FinishSurfaceError,
                telemetry: None,
            },
            _ => {
                proof {
                    assert(false);
                }
                OrchStep {
                    state: OrchState::Finished,
                    action: OrchAction::FinishSurfaceError,
                    telemetry: None,
                }
            },
        }
    }
}

// ---------------------------------------------------------------------------
// Laws of the machine
// ---------------------------------------------------------------------------

/// The state after the start and the first `n` events.
pub open spec fn run_state(cfg: OrchConfigView, events: Seq<OrchEventView>, n: int) -> OrchState
    decreases n,
    when 0 <= n <= events.len()
{
    if n <= 0 {
        spec_orch_start(cfg).state
    } else {
        spec_orch_step(cfg, run_state(cfg, events, n - 1), events[n - 1]).state
    }
}

/// Whether the action prompts the user.
pub open spec fn is_prompt(a: OrchActionView) -> bool {
    a is AskApproval
}

/// How many prompts the start and the first `n` events fire.
pub open spec fn prompts_upto(cfg: OrchConfigView, events: Seq<OrchEventView>, n: int) -> int
    decreases n,
    when 0 <= n <= events.len()
{
    if n <= 0 {
        if is_prompt(spec_orch_start(cfg).action) {
            1int
        } else {
            0int
        }
    } else {
        prompts_upto(cfg, events, n - 1) + (if is_prompt(
            spec_orch_step(cfg, run_state(cfg, events, n - 1), events[n - 1]).action,
        ) {
            1int
        } else {
            0int
        })
    }
}

/// How many more prompts a state can still fire.
pub open spec fn prompt_budget(st: OrchState) -> int {
    match st {
        OrchState::AwaitingInitialApproval => 0,
        OrchState::FirstAttempt { already_approved } => if already_approved {
            0int
        } else {
            1int
        },
        OrchState::AwaitingRetryApproval => 0,
        OrchState::RetryAttempt => 0,
        OrchState::Finished => 0,
    }
}

/// Approval caching.  Within one tool call, however the events fall, the
/// approval prompt fires at most twice: once initially and once before the
/// unsandboxed retry.
pub proof fn lemma_prompts_at_most_two(cfg: OrchConfigView, events: Seq<OrchEventView>, n: int)
    requires
        0 <= n <= events.len(),
    ensures
        prompts_upto(cfg, events, n) + prompt_budget(run_state(cfg, events, n)) <= 2,
        prompts_upto(cfg, events, n) <= 2,
    decreases n,
{
    if n > 0 {
        lemma_prompts_at_most_two(cfg, events, n - 1);
    }
}

/// Approval caching, the skipped side.  A call whose requirement is `Skip`
/// fires no prompt at all, unless its policy both escalates a sandbox denial
/// to an unsandboxed retry and demands approval for it.
pub proof fn lemma_skip_fires_no_prompt(cfg: OrchConfigView, events: Seq<OrchEventView>, n: int)
    requires
        0 <= n <= events.len(),
        cfg.requirement is Skip,
        !(cfg.escalate_on_failure && cfg.allows_unsandboxed_retry && cfg.requires_retry_approval),
    ensures
        prompts_upto(cfg, events, n) == 0,
    decreases n,
{
    if n > 0 {
        lemma_skip_fires_no_prompt(cfg, events, n - 1);
    }
}

/// Retry gate.  A sandbox denial of the first attempt triggers the retry
/// branch exactly when the tool escalates on failure and the policy allows
/// an unsandboxed retry; otherwise the denial is surfaced unchanged.  The
/// retry, once entered, prompts first exactly when the call was not already
/// approved and the policy demands it.
pub proof fn lemma_retry_gate(cfg: OrchConfigView, already_approved: bool, output: ExecToolCallOutputView)
    ensures
        ({
            let step = spec_orch_step(
                cfg,
                OrchState::FirstAttempt { already_approved },
                OrchEventView::AttemptSandboxDenied(output),
            );
            if cfg.escalate_on_failure && cfg.allows_unsandboxed_retry {
                if !already_approved && cfg.requires_retry_approval {
                    step.state == OrchState::AwaitingRetryApproval && step.action
                        == (OrchActionView::AskApproval {
                        retry_reason: Some(spec_denial_reason()),
                    })
                } else {
                    step.state == OrchState::RetryAttempt && step.action
                        == (OrchActionView::Attempt {
                        sandbox: SandboxMode::Unsandboxed,
                        use_linux_sandbox_exe: false,
                    })
                }
            } else {
                step.state == OrchState::Finished && step.action
                    == OrchActionView::FinishSurfaceError
            }
        }),
{
}

/// The retry approved.  From the retry prompt, an approval runs the retry
/// unsandboxed and without the platform sandbox helper; a denial rejects the
/// call.
pub proof fn lemma_retry_approval(cfg: OrchConfigView, d: ReviewDecision)
    ensures
        ({
            let step = spec_orch_step(
                cfg,
                OrchState::AwaitingRetryApproval,
                OrchEventView::Decision(d),
            );
            if d.spec_is_approval() {
                step.state == OrchState::RetryAttempt && step.action == (OrchActionView::Attempt {
                    sandbox: SandboxMode::Unsandboxed,
                    use_linux_sandbox_exe: false,
                })
            } else {
                step.state == OrchState::Finished && step.action
                    == (OrchActionView::FinishRejected { reason: rejected_by_user_text() })
            }
        }),
{
}

} // verus!

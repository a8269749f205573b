//! The scheduling decisions of one agent run, as a state machine.
//!
//! The caller performs each action (emitting an event, committing messages,
//! calling a hook, running the model or a tool batch) and hands the machine
//! what came back. The machine decides what happens next.

use vstd::prelude::*;
use vstd::string::StringExecFns;
use crate::config::TurnDecision;
use crate::error::AgentError;
use crate::event::AgentEvent;
use crate::message::{FinishReason, Message, UnifiedFinishReason, Usage};
use crate::stream::{assistant_parts, copy_content, GenerateResult, ModelError, OutputContent};
use crate::usage::{add_usage, usage_plus, usage_sum_fits, usage_total};

verus! {

/// Where steering messages are read.
#[derive(Clone, Copy, Debug, PartialEq, Eq)]
pub enum SteeringPoint {
    /// Once, right after the prompts are committed.
    Initial,
    /// Before a turn whose preparation hook returned and nothing was pending.
    BeforeStep,
    /// After a turn is finished.
    AfterTurn,
}

/// Where a run stands.
#[derive(Clone, Copy, Debug, PartialEq, Eq)]
pub enum Phase {
    Init,
    StartEmitted,
    PromptsCommitted,
    AwaitSteering(SteeringPoint),
    AwaitNextTurn,
    StepStarted,
    InputsCommitted,
    AwaitRequest,
    AwaitStep,
    PartialCommitted,
    AssistantCommitted,
    AwaitBatch,
    BatchCommitted,
    AwaitCancellation,
    AwaitDecision,
    StepFinished,
    AwaitFollowUp,
    AbortStepClosed,
    AbortEmitted,
    ErrorEmitted,
    FinishEmitted,
    Finished,
}

/// What a tool batch produced.
#[derive(Clone, Debug, PartialEq, Eq)]
pub struct ToolBatch {
    /// The tool message to commit.
    pub message: Option<Message>,
    /// Whether the batch holds calls whose results go back to the model.
    pub has_calls: bool,
    /// Whether every local tool asked to end the run.
    pub terminate: bool,
}

/// What the caller hands back after performing an action.
pub enum LoopInput {
    /// Begin the run.
    Start,
    /// An `Emit` or `Commit` was performed.
    Ack,
    /// The steering messages that were taken.
    Steering(Vec<Message>),
    /// The follow-up messages that were taken.
    FollowUp(Vec<Message>),
    /// The messages of the next-turn hook; `None` when the run was aborted meanwhile.
    NextTurnPrepared(Option<Vec<Message>>),
    /// The request hook returned, or the run was aborted meanwhile.
    RequestPrepared { cancelled: bool },
    /// The model answered in full.
    StepCompleted(GenerateResult),
    /// The run was aborted while the model answered; the part of the answer
    /// worth keeping, if any.
    StepAborted(Option<Message>),
    /// The model failed for good.
    StepFailed(ModelError),
    /// The tool batch finished.
    BatchDone(ToolBatch),
    /// Whether the run has been aborted.
    Cancellation { cancelled: bool },
    /// The end-of-turn decision; `None` when the run was aborted meanwhile.
    TurnFinished(Option<TurnDecision>),
}

/// What the caller must do next.
#[derive(Clone, Debug, PartialEq, Eq)]
pub enum LoopAction {
    /// Emit this event, then hand back `Ack`.
    Emit(AgentEvent),
    /// Report the committed messages from index `from` on to the host and
    /// append them to the request context, then hand back `Ack`.
    Commit { from: usize },
    /// Take steering messages.
    PollSteering,
    /// Take follow-up messages.
    PollFollowUp,
    /// Call the next-turn hook with the last turn.
    PrepareNextTurn,
    /// Call the request hook.
    PrepareRequest,
    /// Run the model (with retries) for this step.
    RunStep { step_index: usize },
    /// Run the tool batch of the step's output; `truncated` when the output
    /// hit the length limit.
    RunToolBatch { truncated: bool },
    /// Report whether the run was aborted.
    CheckCancelled,
    /// Call the end-of-turn hook with the current turn.
    FinishTurn,
    /// Emit `RunFinish` with the finish reason and total usage, then `Ack`.
    EmitRunFinish,
    /// The run is over; take its result.
    Done,
}

/// The result of a run.
#[derive(Clone, Debug, PartialEq, Eq)]
pub struct RunOutput {
    /// The run id (as in `RunStart`).
    pub run_id: String,
    /// The messages this run committed, prompts included.
    pub messages: Vec<Message>,
    /// The sum of the usage of every model response.
    pub usage: Usage,
    /// The finish reason of the last model response.
    pub finish_reason: Option<FinishReason>,
    /// The number of completed model responses.
    pub steps: usize,
    /// Whether the run was aborted.
    pub aborted: bool,
}

/// The scheduler of one run.
pub struct LoopMachine {
    run_id: String,
    phase: Phase,
    prompts: Vec<Message>,
    messages: Vec<Message>,
    pending: Vec<Message>,
    prepared: Vec<Message>,
    step_index: usize,
    steps: usize,
    usage: Usage,
    finish_reason: Option<FinishReason>,
    has_more: bool,
    explicit_continue: bool,
    decision: TurnDecision,
    has_last_turn: bool,
    step_open: bool,
    truncated: bool,
    content: Vec<OutputContent>,
    turn_step: usize,
    turn_assistant: usize,
    turn_tool_results: Option<usize>,
    turn_finish_reason: FinishReason,
    turn_usage: Usage,
    error: Option<AgentError>,
    aborted: bool,
    started: Ghost<nat>,
    completed: Ghost<Seq<Usage>>,
}

/// Everything a machine holds, as plain values.
pub struct MachineView {
    pub run_id: String,
    pub phase: Phase,
    /// The prompts not yet committed.
    pub prompts: Seq<Message>,
    /// The messages committed so far.
    pub committed: Seq<Message>,
    /// Steering or follow-up messages taken and not yet committed.
    pub pending: Seq<Message>,
    /// Messages of the next-turn hook not yet committed.
    pub prepared: Seq<Message>,
    /// The index of the current (or last) step.
    pub step_index: usize,
    /// The number of completed model responses.
    pub steps: usize,
    /// The usage summed over the completed model responses.
    pub usage: Usage,
    /// The finish reason of the last completed model response.
    pub finish_reason: Option<FinishReason>,
    /// Whether the last tool batch had calls and did not ask to end the run.
    pub has_more: bool,
    /// Whether the last decision was `Continue` and nothing else asked for another turn.
    pub explicit_continue: bool,
    /// The last end-of-turn decision.
    pub decision: TurnDecision,
    /// Whether a turn has finished.
    pub has_last_turn: bool,
    /// Whether a step is open.
    pub step_open: bool,
    /// Whether the last response hit the length limit.
    pub truncated: bool,
    /// The output of the last completed model response.
    pub content: Seq<OutputContent>,
    pub turn_step: usize,
    pub turn_assistant: usize,
    pub turn_tool_results: Option<usize>,
    pub turn_finish_reason: FinishReason,
    pub turn_usage: Usage,
    /// The error of a failed run.
    pub error: Option<AgentError>,
    /// Whether the run was aborted.
    pub aborted: bool,
    /// The number of `StepStart` events emitted.
    pub started: nat,
    /// The usages of the completed model responses, in order.
    pub completed: Seq<Usage>,
}

impl View for LoopMachine {
    type V = MachineView;

    closed spec fn view(&self) -> MachineView {
        MachineView {
            run_id: self.run_id,
            phase: self.phase,
            prompts: self.prompts@,
            committed: self.messages@,
            pending: self.pending@,
            prepared: self.prepared@,
            step_index: self.step_index,
            steps: self.steps,
            usage: self.usage,
            finish_reason: self.finish_reason,
            has_more: self.has_more,
            explicit_continue: self.explicit_continue,
            decision: self.decision,
            has_last_turn: self.has_last_turn,
            step_open: self.step_open,
            truncated: self.truncated,
            content: self.content@,
            turn_step: self.turn_step,
            turn_assistant: self.turn_assistant,
            turn_tool_results: self.turn_tool_results,
            turn_finish_reason: self.turn_finish_reason,
            turn_usage: self.turn_usage,
            error: self.error,
            aborted: self.aborted,
            started: self.started@,
            completed: self.completed@,
        }
    }
}

/// Whether a phase lies inside an open step (between `StepStart` and `StepFinish`).
pub open spec fn in_step(p: Phase) -> bool {
    ||| p == Phase::StepStarted
    ||| p == Phase::InputsCommitted
    ||| p == Phase::AwaitRequest
    ||| p == Phase::AwaitStep
    ||| p == Phase::PartialCommitted
    ||| p == Phase::AssistantCommitted
    ||| p == Phase::AwaitBatch
    ||| p == Phase::BatchCommitted
    ||| p == Phase::AwaitCancellation
    ||| p == Phase::AwaitDecision
    ||| p == Phase::ErrorEmitted
}

/// Whether a phase lies after the step's assistant message was committed.
pub open spec fn after_assistant(p: Phase) -> bool {
    ||| p == Phase::AssistantCommitted
    ||| p == Phase::AwaitBatch
    ||| p == Phase::BatchCommitted
    ||| p == Phase::AwaitCancellation
    ||| p == Phase::AwaitDecision
}

/// Whether a phase lies before the first step.
pub open spec fn before_first_step(p: Phase) -> bool {
    ||| p == Phase::Init
    ||| p == Phase::StartEmitted
    ||| p == Phase::PromptsCommitted
    ||| p == Phase::AwaitSteering(SteeringPoint::Initial)
}

/// Whether a phase lies between two steps, after a finished turn.
pub open spec fn between_steps(p: Phase) -> bool {
    ||| p == Phase::AwaitNextTurn
    ||| p == Phase::AwaitSteering(SteeringPoint::BeforeStep)
    ||| p == Phase::AwaitSteering(SteeringPoint::AfterTurn)
    ||| p == Phase::AwaitFollowUp
    ||| p == Phase::StepFinished
}

impl LoopMachine {
    /// The phase of the run.
    pub open spec fn phase(self) -> Phase {
        self@.phase
    }

    /// The messages committed so far.
    pub open spec fn committed(self) -> Seq<Message> {
        self@.committed
    }

    /// The prompts the run was started with.
    pub open spec fn prompts(self) -> Seq<Message> {
        self@.prompts
    }

    /// The number of `StepStart` events emitted so far.
    pub open spec fn started(self) -> nat {
        self@.started
    }

    /// The usages of the completed model responses, in order.
    pub open spec fn completed(self) -> Seq<Usage> {
        self@.completed
    }

    /// Whether a step is open (its `StepStart` emitted, its `StepFinish` not yet).
    pub open spec fn step_is_open(self) -> bool {
        self@.step_open
    }

    /// The number of completed model responses.
    pub open spec fn spec_steps(self) -> usize {
        self@.steps
    }

    /// The usage summed over the completed model responses.
    pub open spec fn spec_usage(self) -> Usage {
        self@.usage
    }

    /// The finish reason of the last completed model response.
    pub open spec fn spec_finish_reason(self) -> Option<FinishReason> {
        self@.finish_reason
    }

    /// The run id.
    pub open spec fn spec_run_id(self) -> String {
        self@.run_id
    }

    /// Whether the last end-of-turn decision was to end the run.
    pub open spec fn ending(self) -> bool {
        self@.decision == TurnDecision::End
    }

    /// Whether the run has failed.
    pub open spec fn failed(self) -> bool {
        self@.error is Some
    }

    /// Whether the run was aborted.
    pub open spec fn was_aborted(self) -> bool {
        self@.aborted
    }

    /// The output of the last completed model response.
    pub open spec fn step_output(self) -> Seq<OutputContent> {
        self@.content
    }

    /// The index of the current (or last) turn.
    pub open spec fn turn_index(self) -> usize {
        self@.turn_step
    }

    /// Where the current turn's assistant message stands among the committed ones.
    pub open spec fn turn_assistant_at(self) -> usize {
        self@.turn_assistant
    }

    /// Where the current turn's tool message stands among the committed ones.
    pub open spec fn turn_tool_results_at(self) -> Option<usize> {
        self@.turn_tool_results
    }

    /// The finish reason of the current turn.
    pub open spec fn turn_finish_reason(self) -> FinishReason {
        self@.turn_finish_reason
    }

    /// The usage of the current turn.
    pub open spec fn turn_usage(self) -> Usage {
        self@.turn_usage
    }

    /// Whether the current turn's assistant message and tool message are committed.
    pub open spec fn has_turn(self) -> bool {
        self@.turn_assistant < self@.committed.len()
        && (self@.turn_tool_results matches Some(i) ==> i < self@.committed.len())
    }

    /// The internal consistency of the machine.
    pub closed spec fn wf(self) -> bool {
        &&& self.steps == self.completed@.len()
        &&& self.usage == usage_total(self.completed@)
        &&& self.steps <= self.started@
        &&& ((self.phase == Phase::StepStarted || self.phase == Phase::InputsCommitted
            || self.phase == Phase::AwaitRequest || self.phase == Phase::AwaitStep) ==> self.steps < self.started@)
        &&& (self.started@ > 0 ==> self.step_index + 1 == self.started@)
        &&& (self.started@ == 0 ==> self.step_index == 0 && !self.has_last_turn && !self.step_open)
        &&& (self.step_open == in_step(self.phase))
        &&& (before_first_step(self.phase) ==> self.started@ == 0)
        &&& ((self.phase == Phase::Init || self.phase == Phase::StartEmitted) ==> self.messages@.len() == 0)
        &&& (self.phase == Phase::AwaitSteering(SteeringPoint::Initial) ==> self.has_more)
        &&& (between_steps(self.phase) ==> self.has_last_turn)
        &&& ((self.has_last_turn || after_assistant(self.phase)) ==> self.has_turn())
        &&& !(self.error is Some && self.aborted)
        &&& (self.phase == Phase::ErrorEmitted ==> self.error is Some)
        &&& (self.error matches Some(e) ==> e is Model)
        &&& (self.error is Some ==> self.phase == Phase::ErrorEmitted || self.phase == Phase::Finished)
        &&& (self.aborted ==> self.phase == Phase::Finished)
        &&& (self.phase == Phase::AssistantCommitted ==> (self.finish_reason matches Some(fr)
            && self.truncated == (fr.unified == UnifiedFinishReason::Length)))
    }

    /// Whether `input` is what the machine waits for, and the counters can grow.
    pub open spec fn accepts_input(self, input: LoopInput) -> bool {
        &&& self@.step_index < usize::MAX
        &&& self@.steps < usize::MAX
        &&& match self@.phase {
            Phase::Init => input is Start,
            Phase::AwaitSteering(_) => input is Steering,
            Phase::AwaitNextTurn => input is NextTurnPrepared,
            Phase::AwaitRequest => input is RequestPrepared,
            Phase::AwaitStep => match input {
                LoopInput::StepCompleted(r) => usage_sum_fits(self@.usage, r.usage),
                LoopInput::StepAborted(_) => true,
                LoopInput::StepFailed(_) => true,
                _ => false,
            },
            Phase::AwaitBatch => input is BatchDone,
            Phase::AwaitCancellation => input is Cancellation,
            Phase::AwaitDecision => input is TurnFinished,
            Phase::AwaitFollowUp => input is FollowUp,
            _ => input is Ack,
        }
    }

    /// A machine for a run with this id that commits `prompts` first.
    pub fn new(run_id: String, prompts: Vec<Message>) -> (m: LoopMachine)
        ensures
            m.wf(),
            m.phase() == Phase::Init,
            m.spec_run_id() == run_id,
            m.prompts() == prompts@,
            m.committed().len() == 0,
            m.started() == 0,
            m.completed().len() == 0,
            m.spec_steps() == 0,
            m.spec_usage() == Usage::spec_empty(),
            m.spec_finish_reason() is None,
            m@ == (MachineView {
                run_id,
                phase: Phase::Init,
                prompts: prompts@,
                committed: Seq::empty(),
                pending: Seq::empty(),
                prepared: Seq::empty(),
                step_index: 0,
                steps: 0,
                usage: Usage::spec_empty(),
                finish_reason: None,
                has_more: true,
                explicit_continue: false,
                decision: TurnDecision::Default,
                has_last_turn: false,
                step_open: false,
                truncated: false,
                content: Seq::empty(),
                turn_step: 0,
                turn_assistant: 0,
                turn_tool_results: None,
                turn_finish_reason: FinishReason { unified: UnifiedFinishReason::Stop, raw: None },
                turn_usage: Usage::spec_empty(),
                error: None,
                aborted: false,
                started: 0,
                completed: Seq::empty(),
            }),
    {
        LoopMachine {
            run_id,
            phase: Phase::Init,
            prompts,
            messages: Vec::new(),
            pending: Vec::new(),
            prepared: Vec::new(),
            step_index: 0,
            steps: 0,
            usage: Usage::empty(),
            finish_reason: None,
            has_more: true,
            explicit_continue: false,
            decision: TurnDecision::Default,
            has_last_turn: false,
            step_open: false,
            truncated: false,
            content: Vec::new(),
            turn_step: 0,
            turn_assistant: 0,
            turn_tool_results: None,
            turn_finish_reason: FinishReason::stop(),
            turn_usage: Usage::empty(),
            error: None,
            aborted: false,
            started: Ghost(0),
            completed: Ghost(Seq::empty()),
        }
    }

    /// Whether `input` is what the machine waits for.
    pub fn accepts(&self, input: &LoopInput) -> (b: bool)
        ensures
            b == self.accepts_input(*input),
    {
        if self.step_index == usize::MAX || self.steps == usize::MAX {
            return false;
        }
        match self.phase {
            Phase::Init => matches!(input, LoopInput::Start),
            Phase::AwaitSteering(_) => matches!(input, LoopInput::Steering(_)),
            Phase::AwaitNextTurn => matches!(input, LoopInput::NextTurnPrepared(_)),
            Phase::AwaitRequest => matches!(input, LoopInput::RequestPrepared { .. }),
            Phase::AwaitStep => match input {
                LoopInput::StepCompleted(r) => usage_fits(&self.usage, &r.usage),
                LoopInput::StepAborted(_) => true,
                LoopInput::StepFailed(_) => true,
                _ => false,
            },
            Phase::AwaitBatch => matches!(input, LoopInput::BatchDone(_)),
            Phase::AwaitCancellation => matches!(input, LoopInput::Cancellation { .. }),
            Phase::AwaitDecision => matches!(input, LoopInput::TurnFinished(_)),
            Phase::AwaitFollowUp => matches!(input, LoopInput::FollowUp(_)),
            _ => matches!(input, LoopInput::Ack),
        }
    }
}

/// A `Commit { from }` appends to the committed messages from `from` on;
/// every other action leaves them as they are.
pub open spec fn commit_law(action: LoopAction, before: Seq<Message>, after: Seq<Message>) -> bool {
    match action {
        LoopAction::Commit { from } => from == before.len() && from <= after.len()
            && after.subrange(0, from as int) == before,
        _ => after == before,
    }
}

/// `StepStart` carries the number of steps started before it, opens a step,
/// and only it counts a new step.
pub open spec fn step_start_law(action: LoopAction, before: LoopMachine, after: LoopMachine) -> bool {
    match action {
        LoopAction::Emit(AgentEvent::StepStart { step_index }) => {
            &&& step_index == before.started()
            &&& !before.step_is_open()
            &&& after.step_is_open()
            &&& after.started() == before.started() + 1
        },
        _ => after.started() == before.started(),
    }
}

/// `StepFinish` closes the open step and carries its index.
pub open spec fn step_finish_law(action: LoopAction, before: LoopMachine, after: LoopMachine) -> bool {
    match action {
        LoopAction::Emit(AgentEvent::StepFinish { step_index }) => {
            &&& before.step_is_open()
            &&& step_index + 1 == before.started()
            &&& !after.step_is_open()
        },
        _ => true,
    }
}

/// A completed model response is counted, its usage added, its finish
/// reason kept, and its assistant message committed; nothing else changes
/// these.
pub open spec fn completion_law(input: LoopInput, action: LoopAction, before: LoopMachine, after: LoopMachine) -> bool {
    match input {
        LoopInput::StepCompleted(r) => {
            &&& after.completed() == before.completed().push(r.usage)
            &&& after.spec_usage() == usage_plus(before.spec_usage(), r.usage)
            &&& after.spec_steps() == before.spec_steps() + 1
            &&& after.spec_finish_reason() == Some(r.finish_reason)
            &&& action == (LoopAction::Commit { from: before.committed().len() as usize })
            &&& after.committed().len() == before.committed().len() + 1
            &&& after.committed().last() is Assistant
            &&& after.committed().last()->Assistant_content@ == assistant_parts(r.content@)
            &&& after.committed().last()->Assistant_provider_options == r.provider_metadata
            &&& after.step_output() == r.content@
            &&& after.turn_assistant_at() == before.committed().len()
            &&& after.turn_finish_reason() == r.finish_reason
            &&& after.turn_usage() == r.usage
            &&& after.turn_index() + 1 == before.started()
        },
        _ => {
            &&& after.completed() == before.completed()
            &&& after.spec_finish_reason() == before.spec_finish_reason()
        },
    }
}

/// A failed model response reports `RunError` with the error's text and
/// marks the run failed (the response is not committed: see `commit_law`).
pub open spec fn failure_law(input: LoopInput, action: LoopAction, after: LoopMachine) -> bool {
    match input {
        LoopInput::StepFailed(e) => {
            &&& action is Emit
            &&& action->Emit_0 is RunError
            &&& action->Emit_0->RunError_error_text@ == e.spec_text()
            &&& after.failed()
        },
        _ => true,
    }
}

/// The tool batch is told the response was cut exactly when the last
/// response finished for its length limit.
pub open spec fn batch_law(action: LoopAction, before: LoopMachine) -> bool {
    match action {
        LoopAction::RunToolBatch { truncated } => (before.spec_finish_reason() matches Some(fr)
            && truncated == (fr.unified == UnifiedFinishReason::Length)),
        _ => true,
    }
}

/// An end-of-turn decision closes the step; `End` is remembered.
pub open spec fn decision_law(input: LoopInput, action: LoopAction, before: LoopMachine, after: LoopMachine) -> bool {
    match input {
        LoopInput::TurnFinished(Some(d)) => {
            &&& action == LoopAction::Emit(AgentEvent::StepFinish { step_index: (before.started() - 1) as usize })
            &&& after.ending() == (d == TurnDecision::End)
            &&& after.phase() == Phase::StepFinished
        },
        _ => true,
    }
}

/// The event that ends an aborted run.
pub open spec fn is_run_abort(a: LoopAction) -> bool {
    a matches LoopAction::Emit(AgentEvent::RunAbort { reason: Some(r) }) && r@ == "运行已中止"@
}

/// An abort: the open step is closed first (`StepFinish`), else `RunAbort` is emitted.
pub open spec fn aborting(v: MachineView, w: MachineView, a: LoopAction) -> bool {
    if v.step_open {
        &&& w == MachineView { step_open: false, phase: Phase::AbortStepClosed, ..v }
        &&& a == LoopAction::Emit(AgentEvent::StepFinish { step_index: v.step_index })
    } else {
        &&& w == MachineView { phase: Phase::AbortEmitted, ..v }
        &&& is_run_abort(a)
    }
}

/// Another step follows when the last batch asks for it or messages are
/// pending: the next-turn hook runs first after a finished turn, the first
/// step starts at once; otherwise follow-up messages are read.
pub open spec fn scheduling(v: MachineView, w: MachineView, a: LoopAction) -> bool {
    if v.has_more || v.pending.len() > 0 {
        if v.has_last_turn {
            &&& w == MachineView { phase: Phase::AwaitNextTurn, ..v }
            &&& a == LoopAction::PrepareNextTurn
        } else {
            &&& w == MachineView {
                prepared: Seq::empty(),
                step_open: true,
                started: v.started + 1,
                phase: Phase::StepStarted,
                ..v
            }
            &&& a == LoopAction::Emit(AgentEvent::StepStart { step_index: v.step_index })
        }
    } else {
        &&& w == MachineView { phase: Phase::AwaitFollowUp, ..v }
        &&& a == LoopAction::PollFollowUp
    }
}

/// A step after a finished turn opens with the next index.
pub open spec fn opening(v: MachineView, w: MachineView, a: LoopAction) -> bool {
    &&& w == MachineView {
        step_index: (v.step_index + 1) as usize,
        step_open: true,
        started: v.started + 1,
        phase: Phase::StepStarted,
        ..v
    }
    &&& a == LoopAction::Emit(AgentEvent::StepStart { step_index: (v.step_index + 1) as usize })
}

/// The assistant message of a model response.
pub open spec fn is_reply_of(m: Message, r: GenerateResult) -> bool {
    &&& m is Assistant
    &&& m->Assistant_content@ == assistant_parts(r.content@)
    &&& m->Assistant_provider_options == r.provider_metadata
}

/// The steering messages handed back.
pub open spec fn taken_steering(input: LoopInput) -> Seq<Message> {
    match input {
        LoopInput::Steering(m) => m@,
        _ => Seq::empty(),
    }
}

/// The follow-up messages handed back.
pub open spec fn taken_follow_up(input: LoopInput) -> Seq<Message> {
    match input {
        LoopInput::FollowUp(m) => m@,
        _ => Seq::empty(),
    }
}

/// One move of the run: from `v`, with `input`, to `w`, doing `a`.
pub open spec fn transition(v: MachineView, input: LoopInput, w: MachineView, a: LoopAction) -> bool {
    match v.phase {
        Phase::Init => {
            &&& w == MachineView { phase: Phase::StartEmitted, ..v }
            &&& a == LoopAction::Emit(AgentEvent::RunStart { run_id: v.run_id, message_id: None, message_metadata: None })
        },
        Phase::StartEmitted => {
            &&& w == MachineView {
                committed: v.committed + v.prompts,
                prompts: Seq::empty(),
                phase: Phase::PromptsCommitted,
                ..v
            }
            &&& a == LoopAction::Commit { from: v.committed.len() as usize }
        },
        Phase::PromptsCommitted => {
            &&& w == MachineView { has_more: true, phase: Phase::AwaitSteering(SteeringPoint::Initial), ..v }
            &&& a == LoopAction::PollSteering
        },
        Phase::AwaitSteering(point) => {
            let v1 = MachineView { pending: taken_steering(input), ..v };
            match point {
                SteeringPoint::Initial => scheduling(MachineView { has_more: true, ..v1 }, w, a),
                SteeringPoint::BeforeStep => opening(v1, w, a),
                SteeringPoint::AfterTurn => scheduling(
                    if v1.has_more || v1.pending.len() > 0 { MachineView { explicit_continue: false, ..v1 } } else { v1 },
                    w,
                    a,
                ),
            }
        },
        Phase::AwaitNextTurn => match input {
            LoopInput::NextTurnPrepared(Some(msgs)) => {
                let v1 = MachineView { prepared: msgs@, ..v };
                if v.pending.len() == 0 {
                    &&& w == MachineView { phase: Phase::AwaitSteering(SteeringPoint::BeforeStep), ..v1 }
                    &&& a == LoopAction::PollSteering
                } else {
                    opening(v1, w, a)
                }
            },
            _ => aborting(v, w, a),
        },
        Phase::StepStarted => {
            &&& w == MachineView {
                committed: v.committed + v.prepared + v.pending,
                prepared: Seq::empty(),
                pending: Seq::empty(),
                phase: Phase::InputsCommitted,
                ..v
            }
            &&& a == LoopAction::Commit { from: v.committed.len() as usize }
        },
        Phase::InputsCommitted => {
            &&& w == MachineView { phase: Phase::AwaitRequest, ..v }
            &&& a == LoopAction::PrepareRequest
        },
        Phase::AwaitRequest => match input {
            LoopInput::RequestPrepared { cancelled: false } => {
                &&& w == MachineView { phase: Phase::AwaitStep, ..v }
                &&& a == LoopAction::RunStep { step_index: v.step_index }
            },
            _ => aborting(v, w, a),
        },
        Phase::AwaitStep => match input {
            LoopInput::StepCompleted(r) => {
                &&& w == MachineView {
                    usage: usage_plus(v.usage, r.usage),
                    completed: v.completed.push(r.usage),
                    finish_reason: Some(r.finish_reason),
                    steps: (v.steps + 1) as usize,
                    truncated: r.finish_reason.unified == UnifiedFinishReason::Length,
                    content: r.content@,
                    turn_finish_reason: r.finish_reason,
                    turn_usage: r.usage,
                    turn_step: v.step_index,
                    turn_tool_results: None,
                    committed: v.committed.push(w.committed.last()),
                    turn_assistant: v.committed.len() as usize,
                    phase: Phase::AssistantCommitted,
                    ..v
                }
                &&& is_reply_of(w.committed.last(), r)
                &&& a == LoopAction::Commit { from: v.committed.len() as usize }
            },
            LoopInput::StepAborted(Some(m)) => {
                &&& w == MachineView { committed: v.committed.push(m), phase: Phase::PartialCommitted, ..v }
                &&& a == LoopAction::Commit { from: v.committed.len() as usize }
            },
            LoopInput::StepFailed(e) => {
                &&& w == MachineView { error: Some(AgentError::Model(e)), phase: Phase::ErrorEmitted, ..v }
                &&& a matches LoopAction::Emit(AgentEvent::RunError { error_text }) && error_text@ == e.spec_text()
            },
            _ => aborting(v, w, a),
        },
        Phase::PartialCommitted => aborting(v, w, a),
        Phase::AssistantCommitted => {
            &&& w == MachineView { phase: Phase::AwaitBatch, ..v }
            &&& a == LoopAction::RunToolBatch { truncated: v.truncated }
        },
        Phase::AwaitBatch => match input {
            LoopInput::BatchDone(b) => {
                let v1 = MachineView { has_more: b.has_calls && !b.terminate, ..v };
                match b.message {
                    Some(m) => {
                        &&& w == MachineView {
                            committed: v.committed.push(m),
                            turn_tool_results: Some(v.committed.len() as usize),
                            phase: Phase::BatchCommitted,
                            ..v1
                        }
                        &&& a == LoopAction::Commit { from: v.committed.len() as usize }
                    },
                    None => {
                        &&& w == MachineView { turn_tool_results: None, phase: Phase::AwaitCancellation, ..v1 }
                        &&& a == LoopAction::CheckCancelled
                    },
                }
            },
            _ => aborting(v, w, a),
        },
        Phase::BatchCommitted => {
            &&& w == MachineView { phase: Phase::AwaitCancellation, ..v }
            &&& a == LoopAction::CheckCancelled
        },
        Phase::AwaitCancellation => match input {
            LoopInput::Cancellation { cancelled: false } => {
                &&& w == MachineView { phase: Phase::AwaitDecision, ..v }
                &&& a == LoopAction::FinishTurn
            },
            _ => aborting(v, w, a),
        },
        Phase::AwaitDecision => match input {
            LoopInput::TurnFinished(Some(d)) => {
                &&& w == MachineView {
                    decision: d,
                    has_last_turn: true,
                    step_open: false,
                    phase: Phase::StepFinished,
                    ..v
                }
                &&& a == LoopAction::Emit(AgentEvent::StepFinish { step_index: v.step_index })
            },
            _ => aborting(v, w, a),
        },
        Phase::StepFinished => if v.decision == TurnDecision::End {
            &&& w == MachineView { phase: Phase::FinishEmitted, ..v }
            &&& a == LoopAction::EmitRunFinish
        } else {
            &&& w == MachineView {
                explicit_continue: v.decision == TurnDecision::Continue,
                phase: Phase::AwaitSteering(SteeringPoint::AfterTurn),
                ..v
            }
            &&& a == LoopAction::PollSteering
        },
        Phase::AwaitFollowUp => {
            let msgs = taken_follow_up(input);
            if msgs.len() > 0 {
                scheduling(MachineView { explicit_continue: false, pending: msgs, has_more: true, ..v }, w, a)
            } else if v.explicit_continue {
                scheduling(MachineView { explicit_continue: false, has_more: true, ..v }, w, a)
            } else {
                &&& w == MachineView { phase: Phase::FinishEmitted, ..v }
                &&& a == LoopAction::EmitRunFinish
            }
        },
        Phase::AbortStepClosed => {
            &&& w == MachineView { phase: Phase::AbortEmitted, ..v }
            &&& is_run_abort(a)
        },
        Phase::AbortEmitted => {
            &&& w == MachineView { aborted: true, phase: Phase::Finished, ..v }
            &&& a == LoopAction::Done
        },
        Phase::ErrorEmitted => {
            &&& w == MachineView { step_open: false, phase: Phase::Finished, ..v }
            &&& a == LoopAction::Done
        },
        Phase::FinishEmitted => {
            &&& w == MachineView { phase: Phase::Finished, ..v }
            &&& a == LoopAction::Done
        },
        Phase::Finished => {
            &&& w == v
            &&& a == LoopAction::Done
        },
    }
}

impl LoopMachine {
    /// The event that reports an abort.
    fn abort(&mut self) -> (action: LoopAction)
        requires
            old(self).wf(),
            old(self).error is None,
            !old(self).aborted,
            in_step(old(self).phase) == old(self).step_open,
            old(self).phase != Phase::ErrorEmitted,
            (old(self).has_last_turn || after_assistant(old(self).phase)) ==> old(self).has_turn(),
        ensures
            final(self).wf(),
            final(self).messages == old(self).messages,
            final(self).run_id == old(self).run_id,
            final(self).started == old(self).started,
            final(self).completed == old(self).completed,
            final(self).steps == old(self).steps,
            final(self).usage == old(self).usage,
            final(self).finish_reason == old(self).finish_reason,
            final(self).decision == old(self).decision,
            final(self).error is None,
            !final(self).step_open,
            old(self).step_open ==> action == LoopAction::Emit(AgentEvent::StepFinish { step_index: old(self).step_index })
                && final(self).phase == Phase::AbortStepClosed,
            !old(self).step_open ==> action is Emit && action->Emit_0 is RunAbort
                && final(self).phase == Phase::AbortEmitted,
            aborting(old(self)@, final(self)@, action),
    {
        if self.step_open {
            self.step_open = false;
            self.phase = Phase::AbortStepClosed;
            LoopAction::Emit(AgentEvent::StepFinish { step_index: self.step_index })
        } else {
            self.phase = Phase::AbortEmitted;
            LoopAction::Emit(AgentEvent::RunAbort { reason: Some(String::from_str("运行已中止")) })
        }
    }

    /// Starts the next step when there is more to do, else reads follow-ups.
    fn schedule(&mut self) -> (action: LoopAction)
        requires
            old(self).wf(),
            old(self).error is None,
            !old(self).aborted,
            !old(self).step_open,
            old(self).started@ == 0 || old(self).has_last_turn,
            old(self).started@ == 0 ==> old(self).has_more,
            old(self).has_last_turn ==> old(self).has_turn(),
            old(self).step_index < usize::MAX,
        ensures
            final(self).wf(),
            final(self).messages == old(self).messages,
            final(self).run_id == old(self).run_id,
            final(self).completed == old(self).completed,
            final(self).steps == old(self).steps,
            final(self).usage == old(self).usage,
            final(self).finish_reason == old(self).finish_reason,
            final(self).decision == old(self).decision,
            final(self).error is None,
            match action {
                LoopAction::Emit(AgentEvent::StepStart { step_index }) =>
                    step_index == old(self).started@ && final(self).step_open
                    && final(self).started@ == old(self).started@ + 1
                    && final(self).phase == Phase::StepStarted,
                LoopAction::PrepareNextTurn => final(self).started == old(self).started
                    && final(self).phase == Phase::AwaitNextTurn,
                LoopAction::PollFollowUp => final(self).started == old(self).started
                    && final(self).phase == Phase::AwaitFollowUp,
                _ => false,
            },
            scheduling(old(self)@, final(self)@, action),
    {
        if self.has_more || self.pending.len() > 0 {
            if self.has_last_turn {
                self.phase = Phase::AwaitNextTurn;
                LoopAction::PrepareNextTurn
            } else {
                self.prepared = Vec::new();
                self.step_open = true;
                self.started = Ghost(self.started@ + 1);
                self.phase = Phase::StepStarted;
                LoopAction::Emit(AgentEvent::StepStart { step_index: self.step_index })
            }
        } else {
            self.phase = Phase::AwaitFollowUp;
            LoopAction::PollFollowUp
        }
    }

    /// Opens the step after the next-turn hook returned.
    fn open_next_step(&mut self) -> (action: LoopAction)
        requires
            old(self).wf(),
            old(self).error is None,
            !old(self).aborted,
            !old(self).step_open,
            old(self).has_last_turn,
            old(self).step_index < usize::MAX,
        ensures
            final(self).wf(),
            final(self).messages == old(self).messages,
            final(self).run_id == old(self).run_id,
            final(self).completed == old(self).completed,
            final(self).steps == old(self).steps,
            final(self).usage == old(self).usage,
            final(self).finish_reason == old(self).finish_reason,
            final(self).decision == old(self).decision,
            final(self).error is None,
            action == LoopAction::Emit(AgentEvent::StepStart { step_index: old(self).started@ as usize }),
            old(self).started@ == old(self).step_index + 1,
            final(self).step_open,
            final(self).started@ == old(self).started@ + 1,
            final(self).phase == Phase::StepStarted,
            opening(old(self)@, final(self)@, action),
    {
        self.step_index = self.step_index + 1;
        self.step_open = true;
        self.started = Ghost(self.started@ + 1);
        self.phase = Phase::StepStarted;
        LoopAction::Emit(AgentEvent::StepStart { step_index: self.step_index })
    }

    /// Appends one message to the committed ones.
    fn commit_one(&mut self, m: Message) -> (from: usize)
        ensures
            from == old(self).messages@.len(),
            final(self).messages@ == old(self).messages@.push(m),
            final(self).messages@.subrange(0, from as int) == old(self).messages@,
            final(self).run_id == old(self).run_id,
            final(self).phase == old(self).phase,
            final(self).prompts == old(self).prompts,
            final(self).pending == old(self).pending,
            final(self).prepared == old(self).prepared,
            final(self).step_index == old(self).step_index,
            final(self).steps == old(self).steps,
            final(self).usage == old(self).usage,
            final(self).finish_reason == old(self).finish_reason,
            final(self).has_more == old(self).has_more,
            final(self).explicit_continue == old(self).explicit_continue,
            final(self).decision == old(self).decision,
            final(self).has_last_turn == old(self).has_last_turn,
            final(self).step_open == old(self).step_open,
            final(self).truncated == old(self).truncated,
            final(self).content == old(self).content,
            final(self).turn_step == old(self).turn_step,
            final(self).turn_assistant == old(self).turn_assistant,
            final(self).turn_tool_results == old(self).turn_tool_results,
            final(self).turn_finish_reason == old(self).turn_finish_reason,
            final(self).turn_usage == old(self).turn_usage,
            final(self).error == old(self).error,
            final(self).aborted == old(self).aborted,
            final(self).started == old(self).started,
            final(self).completed == old(self).completed,
    {
        let from = self.messages.len();
        self.messages.push(m);
        proof {
            assert(self.messages@.subrange(0, from as int) == old(self).messages@);
        }
        from
    }

    /// Advances the run with what the caller hands back, and says what to do
    /// next: the move is exactly the one `transition` describes.
    #[verifier::rlimit(60)]
    pub fn next(&mut self, input: LoopInput) -> (action: LoopAction)
        requires
            old(self).wf(),
            old(self).accepts_input(input),
        ensures
            final(self).wf(),
            final(self).spec_run_id() == old(self).spec_run_id(),
            commit_law(action, old(self).committed(), final(self).committed()),
            step_start_law(action, *old(self), *final(self)),
            step_finish_law(action, *old(self), *final(self)),
            completion_law(input, action, *old(self), *final(self)),
            (input is Start) ==> (action == LoopAction::Emit(
                AgentEvent::RunStart { run_id: old(self).spec_run_id(), message_id: None, message_metadata: None },
            )),
            (old(self).phase() == Phase::StartEmitted) ==> ((action == LoopAction::Commit { from: 0 })
                && final(self).committed() == old(self).prompts()),
            failure_law(input, action, *final(self)),
            decision_law(input, action, *old(self), *final(self)),
            (old(self).phase() == Phase::StepFinished && old(self).ending()) ==> (action == LoopAction::EmitRunFinish),
            batch_law(action, *old(self)),
            (action == LoopAction::EmitRunFinish) ==> !final(self).step_is_open(),
            (action == LoopAction::Done) == (final(self).phase() == Phase::Finished),
            (old(self).phase() == Phase::Finished) ==> (action == LoopAction::Done),
            transition(old(self)@, input, final(self)@, action),
    {
        let phase = self.phase;
        match phase {
            Phase::Init => {
                self.phase = Phase::StartEmitted;
                LoopAction::Emit(AgentEvent::RunStart { run_id: self.run_id.clone(), message_id: None, message_metadata: None })
            },
            Phase::StartEmitted => {
                let ghost before = self.messages@;
                let from = self.messages.len();
                let mut prompts = Vec::new();
                std::mem::swap(&mut prompts, &mut self.prompts);
                let ghost p = prompts@;
                self.messages.append(&mut prompts);
                proof {
                    assert(self.messages@ == p);
                    assert(self.messages@.subrange(0, from as int) =~= before);
                }
                self.phase = Phase::PromptsCommitted;
                LoopAction::Commit { from }
            },
            Phase::PromptsCommitted => {
                self.has_more = true;
                self.phase = Phase::AwaitSteering(SteeringPoint::Initial);
                LoopAction::PollSteering
            },
            Phase::AwaitSteering(point) => {
                let msgs = match input {
                    LoopInput::Steering(m) => m,
                    _ => Vec::new(),
                };
                self.pending = msgs;
                match point {
                    SteeringPoint::Initial => {
                        self.has_more = true;
                        self.schedule()
                    },
                    SteeringPoint::BeforeStep => {
                        self.open_next_step()
                    },
                    SteeringPoint::AfterTurn => {
                        if self.has_more || self.pending.len() > 0 {
                            self.explicit_continue = false;
                        }
                        self.schedule()
                    },
                }
            },
            Phase::AwaitNextTurn => {
                match input {
                    LoopInput::NextTurnPrepared(Some(msgs)) => {
                        self.prepared = msgs;
                        if self.pending.len() == 0 {
                            self.phase = Phase::AwaitSteering(SteeringPoint::BeforeStep);
                            LoopAction::PollSteering
                        } else {
                            self.open_next_step()
                        }
                    },
                    _ => self.abort(),
                }
            },
            Phase::StepStarted => {
                let from = self.messages.len();
                let mut prepared = Vec::new();
                std::mem::swap(&mut prepared, &mut self.prepared);
                let mut pending = Vec::new();
                std::mem::swap(&mut pending, &mut self.pending);
                let ghost before = self.messages@;
                self.messages.append(&mut prepared);
                self.messages.append(&mut pending);
                proof {
                    assert(self.messages@.subrange(0, from as int) == before);
                }
                self.phase = Phase::InputsCommitted;
                LoopAction::Commit { from }
            },
            Phase::InputsCommitted => {
                self.phase = Phase::AwaitRequest;
                LoopAction::PrepareRequest
            },
            Phase::AwaitRequest => {
                match input {
                    LoopInput::RequestPrepared { cancelled } => {
                        if cancelled {
                            self.abort()
                        } else {
                            self.phase = Phase::AwaitStep;
                            LoopAction::RunStep { step_index: self.step_index }
                        }
                    },
                    _ => self.abort(),
                }
            },
            Phase::AwaitStep => {
                match input {
                    LoopInput::StepCompleted(result) => {
                        add_usage(&mut self.usage, &result.usage);
                        proof {
                            assert(self.completed@.push(result.usage).drop_last() =~= self.completed@);
                        }
                        self.completed = Ghost(self.completed@.push(result.usage));
                        self.finish_reason = Some(result.finish_reason.duplicate());
                        self.steps = self.steps + 1;
                        self.truncated = match result.finish_reason.unified {
                            UnifiedFinishReason::Length => true,
                            _ => false,
                        };
                        self.content = copy_content(&result.content);
                        self.turn_finish_reason = result.finish_reason.duplicate();
                        self.turn_usage = result.usage;
                        self.turn_step = self.step_index;
                        self.turn_tool_results = None;
                        let assistant = result.into_assistant_message();
                        let from = self.commit_one(assistant);
                        self.turn_assistant = from;
                        self.phase = Phase::AssistantCommitted;
                        LoopAction::Commit { from }
                    },
                    LoopInput::StepAborted(partial) => {
                        match partial {
                            Some(m) => {
                                let from = self.commit_one(m);
                                self.phase = Phase::PartialCommitted;
                                LoopAction::Commit { from }
                            },
                            None => self.abort(),
                        }
                    },
                    LoopInput::StepFailed(e) => {
                        let error_text = e.text();
                        self.error = Some(AgentError::Model(e));
                        self.phase = Phase::ErrorEmitted;
                        LoopAction::Emit(AgentEvent::RunError { error_text })
                    },
                    _ => self.abort(),
                }
            },
            Phase::PartialCommitted => self.abort(),
            Phase::AssistantCommitted => {
                self.phase = Phase::AwaitBatch;
                LoopAction::RunToolBatch { truncated: self.truncated }
            },
            Phase::AwaitBatch => {
                match input {
                    LoopInput::BatchDone(batch) => {
                        self.has_more = batch.has_calls && !batch.terminate;
                        match batch.message {
                            Some(m) => {
                                let from = self.commit_one(m);
                                self.turn_tool_results = Some(from);
                                self.phase = Phase::BatchCommitted;
                                LoopAction::Commit { from }
                            },
                            None => {
                                self.turn_tool_results = None;
                                self.phase = Phase::AwaitCancellation;
                                LoopAction::CheckCancelled
                            },
                        }
                    },
                    _ => self.abort(),
                }
            },
            Phase::BatchCommitted => {
                self.phase = Phase::AwaitCancellation;
                LoopAction::CheckCancelled
            },
            Phase::AwaitCancellation => {
                match input {
                    LoopInput::Cancellation { cancelled } => {
                        if cancelled {
                            self.abort()
                        } else {
                            self.phase = Phase::AwaitDecision;
                            LoopAction::FinishTurn
                        }
                    },
                    _ => self.abort(),
                }
            },
            Phase::AwaitDecision => {
                match input {
                    LoopInput::TurnFinished(Some(d)) => {
                        self.decision = d;
                        self.has_last_turn = true;
                        self.step_open = false;
                        self.phase = Phase::StepFinished;
                        LoopAction::Emit(AgentEvent::StepFinish { step_index: self.step_index })
                    },
                    _ => self.abort(),
                }
            },
            Phase::StepFinished => {
                match self.decision {
                    TurnDecision::End => {
                        self.phase = Phase::FinishEmitted;
                        LoopAction::EmitRunFinish
                    },
                    d => {
                        self.explicit_continue = match d {
                            TurnDecision::Continue => true,
                            _ => false,
                        };
                        self.phase = Phase::AwaitSteering(SteeringPoint::AfterTurn);
                        LoopAction::PollSteering
                    },
                }
            },
            Phase::AwaitFollowUp => {
                let msgs = match input {
                    LoopInput::FollowUp(m) => m,
                    _ => Vec::new(),
                };
                if msgs.len() > 0 {
                    self.explicit_continue = false;
                    self.pending = msgs;
                    self.has_more = true;
                    self.schedule()
                } else if self.explicit_continue {
                    self.explicit_continue = false;
                    self.has_more = true;
                    self.schedule()
                } else {
                    self.phase = Phase::FinishEmitted;
                    LoopAction::EmitRunFinish
                }
            },
            Phase::AbortStepClosed => {
                self.phase = Phase::AbortEmitted;
                LoopAction::Emit(AgentEvent::RunAbort { reason: Some(String::from_str("运行已中止")) })
            },
            Phase::AbortEmitted => {
                self.aborted = true;
                self.phase = Phase::Finished;
                LoopAction::Done
            },
            Phase::ErrorEmitted => {
                self.step_open = false;
                self.phase = Phase::Finished;
                LoopAction::Done
            },
            Phase::FinishEmitted => {
                self.phase = Phase::Finished;
                LoopAction::Done
            },
            Phase::Finished => LoopAction::Done,
        }
    }
}

impl LoopMachine {
    /// The run id.
    pub fn run_id(&self) -> (r: &String)
        ensures
            *r == self.spec_run_id(),
    {
        &self.run_id
    }

    /// The messages committed so far.
    pub fn committed_messages(&self) -> (r: &Vec<Message>)
        ensures
            r@ == self.committed(),
    {
        &self.messages
    }

    /// The output of the current step's model response.
    pub fn step_content(&self) -> (r: &Vec<OutputContent>)
        ensures
            r@ == self.step_output(),
    {
        &self.content
    }

    /// The finish reason of the last completed model response.
    pub fn finish_reason(&self) -> (r: &Option<FinishReason>)
        ensures
            *r == self.spec_finish_reason(),
    {
        &self.finish_reason
    }

    /// The usage summed over the completed model responses.
    pub fn usage(&self) -> (r: Usage)
        requires
            self.wf(),
        ensures
            r == self.spec_usage(),
            r == usage_total(self.completed()),
    {
        self.usage
    }

    /// Whether the current (or last) turn is available.
    pub fn turn_available(&self) -> (b: bool)
        ensures
            b == self.has_turn(),
    {
        self.turn_assistant < self.messages.len() && match self.turn_tool_results {
            Some(i) => i < self.messages.len(),
            None => true,
        }
    }

    /// The current (or last) turn: its index, assistant message, tool
    /// message, finish reason and usage.
    pub fn turn(&self) -> (r: (usize, &Message, Option<&Message>, &FinishReason, &Usage))
        requires
            self.has_turn(),
        ensures
            r.0 == self.turn_index(),
            *r.1 == self.committed()[self.turn_assistant_at() as int],
            match self.turn_tool_results_at() {
                Some(i) => r.2 matches Some(m) && *m == self.committed()[i as int],
                None => r.2 is None,
            },
            *r.3 == self.turn_finish_reason(),
            *r.4 == self.turn_usage(),
    {
        let tool_results = match self.turn_tool_results {
            Some(i) => Some(&self.messages[i]),
            None => None,
        };
        (self.turn_step, &self.messages[self.turn_assistant], tool_results, &self.turn_finish_reason, &self.turn_usage)
    }

    /// The result of a finished run: the model error of a failed run, else
    /// what the run committed, the summed usage, the last finish reason, the
    /// number of completed responses, and whether it was aborted.
    pub fn into_output(self) -> (r: Result<RunOutput, AgentError>)
        requires
            self.wf(),
            self.phase() == Phase::Finished,
        ensures
            self.failed() == (r is Err),
            self@.error matches Some(e) ==> r == Err::<RunOutput, AgentError>(e),
            r is Err ==> r->Err_0 is Model,
            r matches Ok(o) ==> {
                &&& o.run_id == self.spec_run_id()
                &&& o.messages@ == self.committed()
                &&& o.usage == usage_total(self.completed())
                &&& o.steps == self.completed().len()
                &&& o.finish_reason == self.spec_finish_reason()
                &&& o.aborted == self.was_aborted()
            },
    {
        match self.error {
            Some(e) => Err(e),
            None => Ok(RunOutput {
                run_id: self.run_id,
                messages: self.messages,
                usage: self.usage,
                finish_reason: self.finish_reason,
                steps: self.steps,
                aborted: self.aborted,
            }),
        }
    }
}

/// Whether a run may continue from a transcript without new messages: it
/// must end with a user or tool message.
pub fn check_continuable(messages: &Vec<Message>) -> (r: Result<(), AgentError>)
    ensures
        messages@.len() == 0 ==> r == Err::<(), AgentError>(AgentError::NoMessages),
        messages@.len() > 0 && messages@.last() is Assistant ==> r == Err::<(), AgentError>(AgentError::CannotContinueFromAssistant),
        messages@.len() > 0 && !(messages@.last() is Assistant) ==> r is Ok,
{
    let n = messages.len();
    if n == 0 {
        return Err(AgentError::NoMessages);
    }
    if messages[n - 1].is_assistant() {
        return Err(AgentError::CannotContinueFromAssistant);
    }
    Ok(())
}

/// A run starts with `RunStart`, commits its prompts, reads steering
/// messages, opens step 0, commits the steering messages taken, asks the
/// request hook, and then calls the model: it never ends before a model call
/// unless aborted.
pub proof fn law_run_start(
    v0: MachineView,
    v1: MachineView,
    a1: LoopAction,
    v2: MachineView,
    a2: LoopAction,
    v3: MachineView,
    a3: LoopAction,
    steering: Vec<Message>,
    v4: MachineView,
    a4: LoopAction,
    v5: MachineView,
    a5: LoopAction,
    v6: MachineView,
    a6: LoopAction,
    v7: MachineView,
    a7: LoopAction,
)
    requires
        v0.phase == Phase::Init,
        v0.committed.len() == 0,
        v0.prepared.len() == 0,
        v0.step_index == 0,
        v0.started == 0,
        !v0.has_last_turn,
        transition(v0, LoopInput::Start, v1, a1),
        transition(v1, LoopInput::Ack, v2, a2),
        transition(v2, LoopInput::Ack, v3, a3),
        transition(v3, LoopInput::Steering(steering), v4, a4),
        transition(v4, LoopInput::Ack, v5, a5),
        transition(v5, LoopInput::Ack, v6, a6),
        transition(v6, (LoopInput::RequestPrepared { cancelled: false }), v7, a7),
    ensures
        a1 == (LoopAction::Emit(AgentEvent::RunStart { run_id: v0.run_id, message_id: None, message_metadata: None })),
        a2 == (LoopAction::Commit { from: 0 }),
        v2.committed == v0.prompts,
        a3 == LoopAction::PollSteering,
        a4 == (LoopAction::Emit(AgentEvent::StepStart { step_index: 0 })),
        a5 == (LoopAction::Commit { from: v0.prompts.len() as usize }),
        v5.committed == v0.prompts + steering@,
        a6 == LoopAction::PrepareRequest,
        a7 == (LoopAction::RunStep { step_index: 0 }),
{
    assert(v5.committed =~= v0.prompts + steering@);
}

/// After a finished turn: an `End` decision finishes the run at once.
/// Otherwise steering messages are read; another turn follows when the last
/// tool batch had calls and did not ask to end, or steering messages were
/// taken. Else follow-up messages are read; another turn follows when some
/// were taken or the decision was `Continue`; else the run finishes. The
/// messages taken are those the next turn commits.
pub proof fn law_next_turn(
    v0: MachineView,
    i0: LoopInput,
    v1: MachineView,
    a0: LoopAction,
    steering: Vec<Message>,
    v2: MachineView,
    a1: LoopAction,
    follow_up: Vec<Message>,
    v3: MachineView,
    a2: LoopAction,
)
    requires
        v0.phase == Phase::StepFinished,
        transition(v0, i0, v1, a0),
        transition(v1, LoopInput::Steering(steering), v2, a1),
        transition(v2, LoopInput::FollowUp(follow_up), v3, a2),
        v0.has_last_turn,
    ensures
        v0.decision == TurnDecision::End ==> a0 == LoopAction::EmitRunFinish,
        v0.decision != TurnDecision::End ==> {
            &&& a0 == LoopAction::PollSteering
            &&& (a1 == LoopAction::PrepareNextTurn) == (v0.has_more || steering@.len() > 0)
            &&& a1 == LoopAction::PrepareNextTurn ==> v2.pending == steering@
            &&& a1 != LoopAction::PrepareNextTurn ==> {
                &&& a1 == LoopAction::PollFollowUp
                &&& (a2 == LoopAction::PrepareNextTurn) == (follow_up@.len() > 0 || v0.decision == TurnDecision::Continue)
                &&& a2 != LoopAction::PrepareNextTurn ==> a2 == LoopAction::EmitRunFinish
                &&& follow_up@.len() > 0 ==> v3.pending == follow_up@
            }
        },
{
}

/// A tool batch commits its tool message; unless aborted or ended by the
/// hook, the turn closes with `StepFinish` and another turn follows when the
/// batch had calls and did not ask to end the run, or steering messages
/// were taken.
pub proof fn law_batch_feeds_next_turn(
    v0: MachineView,
    batch: ToolBatch,
    v1: MachineView,
    a1: LoopAction,
    v2: MachineView,
    a2: LoopAction,
    v3: MachineView,
    a3: LoopAction,
    d: TurnDecision,
    v4: MachineView,
    a4: LoopAction,
    v5: MachineView,
    a5: LoopAction,
    steering: Vec<Message>,
    v6: MachineView,
    a6: LoopAction,
)
    requires
        v0.phase == Phase::AwaitBatch,
        batch.message is Some,
        d != TurnDecision::End,
        transition(v0, LoopInput::BatchDone(batch), v1, a1),
        transition(v1, LoopInput::Ack, v2, a2),
        transition(v2, (LoopInput::Cancellation { cancelled: false }), v3, a3),
        transition(v3, LoopInput::TurnFinished(Some(d)), v4, a4),
        transition(v4, LoopInput::Ack, v5, a5),
        transition(v5, LoopInput::Steering(steering), v6, a6),
    ensures
        a1 == (LoopAction::Commit { from: v0.committed.len() as usize }),
        v1.committed == v0.committed.push(batch.message->0),
        a2 == LoopAction::CheckCancelled,
        a3 == LoopAction::FinishTurn,
        a4 == LoopAction::Emit(AgentEvent::StepFinish { step_index: v0.step_index }),
        a5 == LoopAction::PollSteering,
        (a6 == LoopAction::PrepareNextTurn) == ((batch.has_calls && !batch.terminate) || steering@.len() > 0),
        a6 != LoopAction::PrepareNextTurn ==> a6 == LoopAction::PollFollowUp,
        v6.committed == v1.committed,
{
}

/// When the next-turn hook has returned, the next step opens and commits
/// the hook's messages followed by the pending steering or follow-up
/// messages (read now when none were pending), before the model is asked.
pub proof fn law_turn_inputs(
    v0: MachineView,
    prepared: Vec<Message>,
    v1: MachineView,
    a1: LoopAction,
    steering: Vec<Message>,
    v2: MachineView,
    a2: LoopAction,
    v3: MachineView,
    a3: LoopAction,
)
    requires
        v0.phase == Phase::AwaitNextTurn,
        transition(v0, LoopInput::NextTurnPrepared(Some(prepared)), v1, a1),
        v0.pending.len() > 0 ==> transition(v1, LoopInput::Ack, v2, a2),
        v0.pending.len() == 0 ==> transition(v1, LoopInput::Steering(steering), v2, a2),
        transition(v2, LoopInput::Ack, v3, a3),
    ensures
        v0.pending.len() > 0 ==> {
            &&& a1 == LoopAction::Emit(AgentEvent::StepStart { step_index: (v0.step_index + 1) as usize })
            &&& a2 == LoopAction::Commit { from: v0.committed.len() as usize }
            &&& v2.committed == v0.committed + prepared@ + v0.pending
            &&& v2.phase == Phase::InputsCommitted
        },
        v0.pending.len() == 0 ==> {
            &&& a1 == LoopAction::PollSteering
            &&& a2 == LoopAction::Emit(AgentEvent::StepStart { step_index: (v0.step_index + 1) as usize })
            &&& a3 == LoopAction::Commit { from: v0.committed.len() as usize }
            &&& v3.committed == v0.committed + prepared@ + steering@
            &&& v3.phase == Phase::InputsCommitted
        },
{
}

/// An abort (a cancelled request, check or hook, or a model call stopped
/// without output) closes the open step with `StepFinish`, then emits
/// `RunAbort`, then the run is done and marked aborted; nothing more is
/// committed. A model call stopped with output commits that output first.
pub proof fn law_abort(
    v0: MachineView,
    i0: LoopInput,
    v1: MachineView,
    a1: LoopAction,
    v2: MachineView,
    a2: LoopAction,
    v3: MachineView,
    a3: LoopAction,
    v4: MachineView,
    a4: LoopAction,
)
    requires
        v0.step_open == in_step(v0.phase),
        v0.phase != Phase::ErrorEmitted,
        match v0.phase {
            Phase::AwaitRequest => i0 == LoopInput::RequestPrepared { cancelled: true },
            Phase::AwaitCancellation => i0 == LoopInput::Cancellation { cancelled: true },
            Phase::AwaitNextTurn => i0 == LoopInput::NextTurnPrepared(None),
            Phase::AwaitDecision => i0 == LoopInput::TurnFinished(None),
            Phase::AwaitStep => i0 is StepAborted,
            _ => false,
        },
        transition(v0, i0, v1, a1),
        transition(v1, LoopInput::Ack, v2, a2),
        transition(v2, LoopInput::Ack, v3, a3),
        transition(v3, LoopInput::Ack, v4, a4),
    ensures
        i0 matches LoopInput::StepAborted(Some(m)) ==> {
            &&& a1 == LoopAction::Commit { from: v0.committed.len() as usize }
            &&& v1.committed == v0.committed.push(m)
            &&& a2 == LoopAction::Emit(AgentEvent::StepFinish { step_index: v0.step_index })
            &&& is_run_abort(a3)
            &&& a4 == LoopAction::Done
            &&& v4.aborted
            &&& v4.phase == Phase::Finished
            &&& v4.committed == v1.committed
        },
        !(i0 matches LoopInput::StepAborted(Some(_))) && v0.step_open ==> {
            &&& a1 == LoopAction::Emit(AgentEvent::StepFinish { step_index: v0.step_index })
            &&& is_run_abort(a2)
            &&& a3 == LoopAction::Done
            &&& v3.aborted
            &&& v3.phase == Phase::Finished
            &&& v3.committed == v0.committed
        },
        !(i0 matches LoopInput::StepAborted(Some(_))) && !v0.step_open ==> {
            &&& is_run_abort(a1)
            &&& a2 == LoopAction::Done
            &&& v2.aborted
            &&& v2.phase == Phase::Finished
            &&& v2.committed == v0.committed
        },
{
}

/// A model call that failed for good emits `RunError` with the error's
/// text, commits nothing, and then the run is done, failed with that error.
pub proof fn law_failure(v0: MachineView, e: ModelError, v1: MachineView, a1: LoopAction, v2: MachineView, a2: LoopAction)
    requires
        v0.phase == Phase::AwaitStep,
        transition(v0, LoopInput::StepFailed(e), v1, a1),
        transition(v1, LoopInput::Ack, v2, a2),
    ensures
        a1 matches LoopAction::Emit(AgentEvent::RunError { error_text }) && error_text@ == e.spec_text(),
        a2 == LoopAction::Done,
        v2.phase == Phase::Finished,
        v2.error == Some(AgentError::Model(e)),
        v2.aborted == v0.aborted,
        v2.committed == v0.committed,
        v2.completed == v0.completed,
{
}

/// A run reaches its end through exactly one terminal event: `RunFinish`
/// (for a finished run), `RunAbort` (for an aborted one) or `RunError` (for
/// a failed one); after it, `Done` is the only action.
pub proof fn law_terminal_events(v: MachineView, i: LoopInput, w: MachineView, a: LoopAction)
    requires
        transition(v, i, w, a),
    ensures
        w.phase == Phase::FinishEmitted && v.phase != Phase::FinishEmitted ==> a == LoopAction::EmitRunFinish,
        w.phase == Phase::AbortEmitted && v.phase != Phase::AbortEmitted ==> is_run_abort(a),
        w.phase == Phase::ErrorEmitted && v.phase != Phase::ErrorEmitted ==> a matches LoopAction::Emit(AgentEvent::RunError { .. }),
        a == LoopAction::EmitRunFinish ==> w.phase == Phase::FinishEmitted,
        is_run_abort(a) ==> w.phase == Phase::AbortEmitted,
        a matches LoopAction::Emit(AgentEvent::RunError { .. }) ==> w.phase == Phase::ErrorEmitted,
        a == LoopAction::Done && v.phase != Phase::Finished ==> {
            &&& w.phase == Phase::Finished
            &&& (v.phase == Phase::FinishEmitted && w.aborted == v.aborted && w.error == v.error)
                || (v.phase == Phase::AbortEmitted && w.aborted)
                || (v.phase == Phase::ErrorEmitted && w.error == v.error)
        },
        v.phase == Phase::Finished ==> a == LoopAction::Done && w == v,
{
}

/// A run's moves: `views[i]` goes with `inputs[i]` to `views[i + 1]`,
/// doing `actions[i]`.
pub open spec fn is_trace(views: Seq<MachineView>, inputs: Seq<LoopInput>, actions: Seq<LoopAction>) -> bool {
    &&& views.len() == actions.len() + 1
    &&& inputs.len() == actions.len()
    &&& forall|i: int| #![trigger actions[i]] 0 <= i < actions.len() ==> transition(views[i], inputs[i], views[i + 1], actions[i])
}

/// A view a run starts from.
pub open spec fn is_start(v: MachineView) -> bool {
    &&& v.phase == Phase::Init
    &&& !v.aborted
    &&& v.error is None
    &&& v.started == 0
    &&& !v.step_open
}

/// The events that end a run.
pub open spec fn is_terminal_event(a: LoopAction) -> bool {
    ||| a == LoopAction::EmitRunFinish
    ||| a matches LoopAction::Emit(AgentEvent::RunAbort { .. })
    ||| a matches LoopAction::Emit(AgentEvent::RunError { .. })
}

/// The phases after the terminal event.
pub open spec fn terminal_phase(p: Phase) -> bool {
    ||| p == Phase::FinishEmitted
    ||| p == Phase::AbortEmitted
    ||| p == Phase::ErrorEmitted
    ||| p == Phase::Finished
}

/// The terminal event agrees with how the run ends: `RunFinish` with a run
/// neither aborted nor failed, `RunAbort` with an aborted one (once
/// finished), `RunError` with a failed one; and with the phase right after it.
pub open spec fn ends_as(a: LoopAction, v: MachineView) -> bool {
    &&& a == LoopAction::EmitRunFinish ==> !v.aborted && v.error is None
    &&& a matches LoopAction::Emit(AgentEvent::RunAbort { .. }) ==> v.error is None
        && (v.aborted <==> v.phase == Phase::Finished)
    &&& a matches LoopAction::Emit(AgentEvent::RunError { .. }) ==> !v.aborted && v.error is Some
    &&& v.phase == Phase::FinishEmitted ==> a == LoopAction::EmitRunFinish
    &&& v.phase == Phase::AbortEmitted ==> (a matches LoopAction::Emit(AgentEvent::RunAbort { .. }))
    &&& v.phase == Phase::ErrorEmitted ==> (a matches LoopAction::Emit(AgentEvent::RunError { .. }))
}

/// What holds after the first `n` moves of a run.
pub open spec fn trace_invariant(views: Seq<MachineView>, actions: Seq<LoopAction>, n: int) -> bool {
    &&& views[n].run_id == views[0].run_id
    &&& n > 0 ==> actions[0] == LoopAction::Emit(AgentEvent::RunStart { run_id: views[0].run_id, message_id: None, message_metadata: None })
    &&& !terminal_phase(views[n].phase) ==> {
        &&& !views[n].aborted
        &&& views[n].error is None
        &&& forall|k: int| 0 <= k < n ==> !is_terminal_event(#[trigger] actions[k])
    }
    &&& terminal_phase(views[n].phase) ==> exists|j: int| 0 <= j < n && #[trigger] is_terminal_event(actions[j])
        && (forall|k: int| 0 <= k < n && k != j ==> !is_terminal_event(#[trigger] actions[k]))
        && (forall|k: int| j < k < n ==> #[trigger] actions[k] == LoopAction::Done)
        && ends_as(actions[j], views[n])
    &&& views[n].started > 0 ==> exists|k: int| 0 <= k < n
        && #[trigger] actions[k] == LoopAction::Emit(AgentEvent::StepStart { step_index: views[n].step_index })
    &&& (in_step(views[n].phase) || views[n].step_open) ==> views[n].started > 0
    &&& forall|j: int| 0 <= j < n && (#[trigger] actions[j] matches LoopAction::Emit(AgentEvent::StepFinish { .. })) ==>
        exists|k: int| 0 <= k < j && #[trigger] actions[k] == LoopAction::Emit(AgentEvent::StepStart { step_index: actions[j]->Emit_0->StepFinish_step_index })
}

proof fn lemma_trace_invariant(views: Seq<MachineView>, inputs: Seq<LoopInput>, actions: Seq<LoopAction>, n: int)
    requires
        is_trace(views, inputs, actions),
        is_start(views[0]),
        0 <= n <= actions.len(),
    ensures
        trace_invariant(views, actions, n),
    decreases n,
{
    if n > 0 {
        lemma_trace_invariant(views, inputs, actions, n - 1);
        let m = n - 1;
        let v = views[m];
        let w = views[n];
        let a = actions[m];
        assert(transition(v, inputs[m], w, a));
        assert(w.run_id == v.run_id);
        if terminal_phase(v.phase) {
            let j = choose|j: int| 0 <= j < m && #[trigger] is_terminal_event(actions[j])
                && (forall|k: int| 0 <= k < m && k != j ==> !is_terminal_event(#[trigger] actions[k]))
                && (forall|k: int| j < k < m ==> #[trigger] actions[k] == LoopAction::Done)
                && ends_as(actions[j], views[m]);
            assert(a == LoopAction::Done);
            assert(terminal_phase(w.phase));
            assert(ends_as(actions[j], w));
            assert forall|k: int| 0 <= k < n && k != j implies !is_terminal_event(#[trigger] actions[k]) by {
                if k == m {
                    assert(actions[k] == LoopAction::Done);
                }
            }
            assert forall|k: int| j < k < n implies #[trigger] actions[k] == LoopAction::Done by {
                if k == m {
                    assert(actions[k] == a);
                }
            }
        } else if terminal_phase(w.phase) {
            assert(is_terminal_event(a));
            assert(ends_as(a, w));
            assert forall|k: int| 0 <= k < n && k != m implies !is_terminal_event(#[trigger] actions[k]) by {}
        } else {
            assert(!is_terminal_event(a));
            assert forall|k: int| 0 <= k < n implies !is_terminal_event(#[trigger] actions[k]) by {
                if k == m {
                    assert(actions[k] == a);
                }
            }
        }
        if w.started > 0 {
            if a == (LoopAction::Emit(AgentEvent::StepStart { step_index: w.step_index })) {
                assert(actions[m] == LoopAction::Emit(AgentEvent::StepStart { step_index: w.step_index }));
            } else {
                assert(w.started == v.started && w.step_index == v.step_index);
                let k = choose|k: int| 0 <= k < m
                    && #[trigger] actions[k] == LoopAction::Emit(AgentEvent::StepStart { step_index: views[m].step_index });
                assert(actions[k] == LoopAction::Emit(AgentEvent::StepStart { step_index: w.step_index }));
            }
        }
        assert forall|j: int| 0 <= j < n && (#[trigger] actions[j] matches LoopAction::Emit(AgentEvent::StepFinish { .. })) implies
            exists|k: int| 0 <= k < j && #[trigger] actions[k] == LoopAction::Emit(AgentEvent::StepStart { step_index: actions[j]->Emit_0->StepFinish_step_index }) by {
            if j == m {
                assert(a->Emit_0->StepFinish_step_index == v.step_index);
                assert(v.started > 0);
                let k = choose|k: int| 0 <= k < m
                    && #[trigger] actions[k] == LoopAction::Emit(AgentEvent::StepStart { step_index: views[m].step_index });
                assert(actions[k] == LoopAction::Emit(AgentEvent::StepStart { step_index: actions[j]->Emit_0->StepFinish_step_index }));
            }
        }
    }
}

/// Over a whole run that reached its end: the first event is `RunStart`
/// with the run's id, which never changes; exactly one terminal event is
/// emitted (`RunFinish`, `RunAbort` or `RunError`), only `Done` follows it,
/// and it agrees with how the run ended; every `StepFinish` is preceded by
/// the `StepStart` of the same index.
pub proof fn law_run_trace(views: Seq<MachineView>, inputs: Seq<LoopInput>, actions: Seq<LoopAction>)
    requires
        is_trace(views, inputs, actions),
        is_start(views[0]),
        views.last().phase == Phase::Finished,
    ensures
        actions.len() > 0,
        actions[0] == LoopAction::Emit(AgentEvent::RunStart { run_id: views[0].run_id, message_id: None, message_metadata: None }),
        views.last().run_id == views[0].run_id,
        exists|j: int| 0 <= j < actions.len() && #[trigger] is_terminal_event(actions[j])
            && (forall|k: int| 0 <= k < actions.len() && k != j ==> !is_terminal_event(#[trigger] actions[k]))
            && (forall|k: int| j < k < actions.len() ==> #[trigger] actions[k] == LoopAction::Done)
            && ends_as(actions[j], views.last()),
        forall|j: int| 0 <= j < actions.len() && (#[trigger] actions[j] matches LoopAction::Emit(AgentEvent::StepFinish { .. })) ==>
            exists|k: int| 0 <= k < j && #[trigger] actions[k] == LoopAction::Emit(AgentEvent::StepStart { step_index: actions[j]->Emit_0->StepFinish_step_index }),
{
    lemma_trace_invariant(views, inputs, actions, actions.len() as int);
    assert(views.last() == views[actions.len() as int]);
}

/// Whether `total + usage` fits, count by count.
fn usage_fits(total: &Usage, usage: &Usage) -> (b: bool)
    ensures
        b == usage_sum_fits(*total, *usage),
{
    count_fits_exec(total.input_tokens.total, usage.input_tokens.total)
    && count_fits_exec(total.input_tokens.no_cache, usage.input_tokens.no_cache)
    && count_fits_exec(total.input_tokens.cache_read, usage.input_tokens.cache_read)
    && count_fits_exec(total.input_tokens.cache_write, usage.input_tokens.cache_write)
    && count_fits_exec(total.output_tokens.total, usage.output_tokens.total)
    && count_fits_exec(total.output_tokens.text, usage.output_tokens.text)
    && count_fits_exec(total.output_tokens.reasoning, usage.output_tokens.reasoning)
}

fn count_fits_exec(total: Option<u64>, value: Option<u64>) -> (b: bool)
    ensures
        b == crate::usage::count_fits(crate::usage::count_plus(total, value)),
{
    match value {
        None => true,
        Some(v) => {
            let t: u64 = match total {
                Some(t) => t,
                None => 0,
            };
            t <= u64::MAX - v
        },
    }
}

} // verus!

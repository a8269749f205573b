//! The state an agent keeps between and during runs.

use vstd::prelude::*;
use vstd::string::StringExecFns;
use crate::config::{QueueMode, ToolExecutionMode};
use crate::error::AgentError;
use crate::event::AgentEvent;
use crate::keyed::Keyed;
use crate::message::{same_messages, Message};
use std::collections::VecDeque;

verus! {

/// How many messages an injection point takes from a queue of `len`.
pub open spec fn take_count(mode: QueueMode, len: nat) -> nat {
    match mode {
        QueueMode::All => len,
        QueueMode::OneAtATime => if len == 0 { 0 } else { 1 },
    }
}

/// The messages an injection point takes from a queue: the oldest
/// `take_count` of them, in order.
pub open spec fn next_injection(queued: Seq<Message>, mode: QueueMode) -> Seq<Message> {
    queued.take(take_count(mode, queued.len()) as int)
}

/// The messages that stay queued after an injection point.
pub open spec fn after_injection(queued: Seq<Message>, mode: QueueMode) -> Seq<Message> {
    queued.skip(take_count(mode, queued.len()) as int)
}

/// A first-in first-out queue of messages with its taking mode.
pub struct PendingQueue {
    messages: VecDeque<Message>,
    mode: QueueMode,
}

impl PendingQueue {
    /// The queued messages, oldest first.
    pub closed spec fn view(self) -> Seq<Message> {
        self.messages@
    }

    /// The taking mode.
    pub closed spec fn spec_mode(self) -> QueueMode {
        self.mode
    }

    /// The taking mode.
    pub fn mode(&self) -> (m: QueueMode)
        ensures
            m == self.spec_mode(),
    {
        self.mode
    }

    /// Sets the taking mode.
    pub fn set_mode(&mut self, mode: QueueMode)
        ensures
            final(self).view() == old(self).view(),
            final(self).spec_mode() == mode,
    {
        self.mode = mode;
    }

    /// An empty queue with this mode.
    pub fn new(mode: QueueMode) -> (q: PendingQueue)
        ensures
            q.view().len() == 0,
            q.spec_mode() == mode,
    {
        PendingQueue { messages: VecDeque::new(), mode }
    }

    /// Queues a message last.
    pub fn push(&mut self, message: Message)
        ensures
            final(self).view() == old(self).view().push(message),
            final(self).spec_mode() == old(self).spec_mode(),
    {
        self.messages.push_back(message);
    }

    /// Whether nothing is queued.
    pub fn is_empty(&self) -> (b: bool)
        ensures
            b == (self.view().len() == 0),
    {
        self.messages.len() == 0
    }

    /// The messages the next injection point would take, without taking them.
    pub fn peek(&self) -> (r: Vec<Message>)
        ensures
            same_messages(r@, next_injection(self.view(), self.spec_mode())),
    {
        let count: usize = match self.mode {
            QueueMode::All => self.messages.len(),
            QueueMode::OneAtATime => if self.messages.len() == 0 { 0 } else { 1 },
        };
        let mut r: Vec<Message> = Vec::new();
        let mut i: usize = 0;
        while i < count
            invariant
                count == take_count(self.spec_mode(), self.view().len()),
                count <= self.messages@.len(),
                i <= count,
                r@.len() == i,
                forall|k: int| 0 <= k < i ==> #[trigger] crate::message::same_message(r@[k], self.messages@[k]),
            decreases count - i,
        {
            r.push(self.messages[i].duplicate());
            i = i + 1;
        }
        r
    }

    /// Takes the messages of an injection point: every queued message, or
    /// only the oldest one, by mode. The rest stays queued in order.
    pub fn drain(&mut self) -> (r: Vec<Message>)
        ensures
            r@ == next_injection(old(self).view(), old(self).spec_mode()),
            final(self).view() == after_injection(old(self).view(), old(self).spec_mode()),
            final(self).spec_mode() == old(self).spec_mode(),
    {
        let count: usize = match self.mode {
            QueueMode::All => self.messages.len(),
            QueueMode::OneAtATime => if self.messages.len() == 0 { 0 } else { 1 },
        };
        let ghost q = self.messages@;
        let mut r: Vec<Message> = Vec::new();
        let mut i: usize = 0;
        while i < count
            invariant
                count == take_count(old(self).spec_mode(), q.len()),
                count <= q.len(),
                i <= count,
                r@ == q.take(i as int),
                self.messages@ == q.skip(i as int),
                self.mode == old(self).mode,
            decreases count - i,
        {
            let m = self.messages.pop_front();
            match m {
                Some(m) => {
                    r.push(m);
                },
                None => {},
            }
            proof {
                assert(r@ =~= q.take(i + 1));
                assert(self.messages@ =~= q.skip(i + 1));
            }
            i = i + 1;
        }
        r
    }

    /// Drops every queued message.
    pub fn clear(&mut self)
        ensures
            final(self).view().len() == 0,
            final(self).spec_mode() == old(self).spec_mode(),
    {
        self.messages.clear();
    }
}

/// What an injection point takes and what stays queued make up the queue,
/// in order: taking loses and reorders nothing.
pub proof fn lemma_drain_splits_queue(queued: Seq<Message>, mode: QueueMode)
    ensures
        next_injection(queued, mode) + after_injection(queued, mode) == queued,
        mode == QueueMode::All ==> next_injection(queued, mode) == queued,
        mode == QueueMode::OneAtATime ==> next_injection(queued, mode).len() == (if queued.len() == 0 { 0int } else { 1int }),
        queued.len() > 0 ==> next_injection(queued, mode).len() >= 1 && next_injection(queued, mode)[0] == queued[0],
{
    assert(queued.take(queued.len() as int) =~= queued);
    assert(queued.take(take_count(mode, queued.len()) as int) + queued.skip(take_count(mode, queued.len()) as int) =~= queued);
}

/// How a `continue` proceeds when it may start.
pub enum ContinuePlan {
    /// Continue from the transcript as it is.
    FromTranscript,
    /// Start with these queued messages; `true` when they are steering
    /// messages (the first steering read of the run is then skipped).
    WithQueued(Vec<Message>, bool),
}

/// The agent's state: transcript, queues, run state and the approvals the
/// current run waits on. `S` is the sending half of an approval channel,
/// `C` the handle that aborts the current run.
pub struct SessionState<S, C> {
    system_prompt: Option<String>,
    messages: Vec<Message>,
    steering: PendingQueue,
    follow_up: PendingQueue,
    tool_execution: ToolExecutionMode,
    active: Option<C>,
    pending_tool_calls: Vec<String>,
    approvals: Keyed<S>,
    last_error: Option<String>,
}

/// No string occurs twice (by content).
pub open spec fn distinct_texts(s: Seq<String>) -> bool {
    forall|i: int, j: int| 0 <= i < j < s.len() ==> s[i]@ != s[j]@
}

/// The contents of a sequence of strings.
pub open spec fn texts(s: Seq<String>) -> Seq<Seq<char>> {
    s.map_values(|x: String| x@)
}

impl<S, C> SessionState<S, C> {
    /// The transcript.
    pub closed spec fn transcript(self) -> Seq<Message> {
        self.messages@
    }

    /// The queued steering messages.
    pub closed spec fn steering_queue(self) -> Seq<Message> {
        self.steering.view()
    }

    /// The queued follow-up messages.
    pub closed spec fn follow_up_queue(self) -> Seq<Message> {
        self.follow_up.view()
    }

    pub closed spec fn spec_steering_mode(self) -> QueueMode {
        self.steering.spec_mode()
    }

    pub closed spec fn spec_follow_up_mode(self) -> QueueMode {
        self.follow_up.spec_mode()
    }

    pub closed spec fn spec_system_prompt(self) -> Option<String> {
        self.system_prompt
    }

    pub closed spec fn spec_tool_execution(self) -> ToolExecutionMode {
        self.tool_execution
    }

    /// Whether a run is in progress.
    pub open spec fn running(self) -> bool {
        self.spec_active() is Some
    }

    /// The abort handle of the current run.
    pub closed spec fn spec_active(self) -> Option<C> {
        self.active
    }

    /// The ids of the tool calls whose input is out and whose result is not.
    pub closed spec fn pending_calls(self) -> Seq<Seq<char>> {
        texts(self.pending_tool_calls@)
    }

    /// The ids of the approval requests waiting for an answer.
    pub closed spec fn approval_ids(self) -> Seq<Seq<char>> {
        self.approvals.key_seq()
    }

    /// The approval channel registered for `id`, if any.
    pub closed spec fn approval_for(self, id: Seq<char>) -> Option<S> {
        self.approvals.get_spec(id)
    }

    /// The error text of the last failed run.
    pub closed spec fn spec_last_error(self) -> Option<String> {
        self.last_error
    }

    /// No pending call id and no approval id occurs twice.
    pub closed spec fn wf(self) -> bool {
        &&& distinct_texts(self.pending_tool_calls@)
        &&& self.approvals.wf()
    }

    /// A new, idle state.
    pub fn new(
        system_prompt: Option<String>,
        messages: Vec<Message>,
        steering_mode: QueueMode,
        follow_up_mode: QueueMode,
        tool_execution: ToolExecutionMode,
    ) -> (s: Self)
        ensures
            s.wf(),
            s.spec_system_prompt() == system_prompt,
            s.transcript() == messages@,
            s.steering_queue().len() == 0,
            s.follow_up_queue().len() == 0,
            s.spec_steering_mode() == steering_mode,
            s.spec_follow_up_mode() == follow_up_mode,
            s.spec_tool_execution() == tool_execution,
            !s.running(),
            s.pending_calls().len() == 0,
            s.approval_ids().len() == 0,
            s.spec_last_error() is None,
    {
        let s = SessionState {
            system_prompt,
            messages,
            steering: PendingQueue::new(steering_mode),
            follow_up: PendingQueue::new(follow_up_mode),
            tool_execution,
            active: None,
            pending_tool_calls: Vec::new(),
            approvals: Keyed::new(),
            last_error: None,
        };
        proof {
            assert(s.approvals.key_seq() =~= Seq::<Seq<char>>::empty());
        }
        s
    }
}

/// The queues, modes, transcript and settings of two states agree.
pub open spec fn same_conversation<S, C>(a: SessionState<S, C>, b: SessionState<S, C>) -> bool {
    &&& a.transcript() == b.transcript()
    &&& a.steering_queue() == b.steering_queue()
    &&& a.follow_up_queue() == b.follow_up_queue()
    &&& a.spec_steering_mode() == b.spec_steering_mode()
    &&& a.spec_follow_up_mode() == b.spec_follow_up_mode()
    &&& a.spec_system_prompt() == b.spec_system_prompt()
    &&& a.spec_tool_execution() == b.spec_tool_execution()
}

/// The run state of two states agrees.
pub open spec fn same_run_state<S, C>(a: SessionState<S, C>, b: SessionState<S, C>) -> bool {
    &&& a.spec_active() == b.spec_active()
    &&& a.pending_calls() == b.pending_calls()
    &&& a.approval_ids() == b.approval_ids()
    &&& forall|id: Seq<char>| #[trigger] a.approval_for(id) == b.approval_for(id)
    &&& a.spec_last_error() == b.spec_last_error()
}

/// What a `continue` takes: `None` to continue from the transcript, else the
/// queued messages it starts with and whether they are steering messages.
pub open spec fn continue_matches<S, C>(before: SessionState<S, C>, after: SessionState<S, C>, r: Result<ContinuePlan, AgentError>) -> bool {
    if before.running() {
        r == Err::<ContinuePlan, AgentError>(AgentError::Busy) && after == before
    } else if before.transcript().len() == 0 {
        r == Err::<ContinuePlan, AgentError>(AgentError::NoMessages) && after == before
    } else if !(before.transcript().last() is Assistant) {
        r matches Ok(ContinuePlan::FromTranscript) && after == before
    } else if before.steering_queue().len() > 0 {
        let n = take_count(before.spec_steering_mode(), before.steering_queue().len());
        &&& r matches Ok(ContinuePlan::WithQueued(m, true))
        &&& r->Ok_0->WithQueued_0@ == before.steering_queue().take(n as int)
        &&& after.steering_queue() == before.steering_queue().skip(n as int)
        &&& after.follow_up_queue() == before.follow_up_queue()
    } else if before.follow_up_queue().len() > 0 {
        let n = take_count(before.spec_follow_up_mode(), before.follow_up_queue().len());
        &&& r matches Ok(ContinuePlan::WithQueued(m, false))
        &&& r->Ok_0->WithQueued_0@ == before.follow_up_queue().take(n as int)
        &&& after.follow_up_queue() == before.follow_up_queue().skip(n as int)
        &&& after.steering_queue() == before.steering_queue()
    } else {
        &&& r == Err::<ContinuePlan, AgentError>(AgentError::CannotContinueFromAssistant)
        &&& after.steering_queue() == before.steering_queue()
        &&& after.follow_up_queue() == before.follow_up_queue()
        &&& after.transcript() == before.transcript()
        &&& !after.running()
        &&& after.spec_last_error() == before.spec_last_error()
    }
}

impl<S, C> SessionState<S, C> {
    /// The system prompt.
    pub fn system_prompt(&self) -> (r: &Option<String>)
        ensures
            *r == self.spec_system_prompt(),
    {
        &self.system_prompt
    }

    /// Sets the system prompt.
    pub fn set_system_prompt(&mut self, prompt: Option<String>)
        requires
            old(self).wf(),
        ensures
            final(self).wf(),
            final(self).spec_system_prompt() == prompt,
            final(self).transcript() == old(self).transcript(),
            same_run_state(*final(self), *old(self)),
    {
        self.system_prompt = prompt;
    }

    /// How a tool batch runs.
    pub fn tool_execution(&self) -> (r: ToolExecutionMode)
        ensures
            r == self.spec_tool_execution(),
    {
        self.tool_execution
    }

    /// Sets how a tool batch runs.
    pub fn set_tool_execution(&mut self, mode: ToolExecutionMode)
        requires
            old(self).wf(),
        ensures
            final(self).wf(),
            final(self).spec_tool_execution() == mode,
            final(self).transcript() == old(self).transcript(),
            same_run_state(*final(self), *old(self)),
    {
        self.tool_execution = mode;
    }

    /// The transcript.
    pub fn messages(&self) -> (r: &Vec<Message>)
        ensures
            r@ == self.transcript(),
    {
        &self.messages
    }

    /// Replaces the transcript.
    pub fn set_messages(&mut self, messages: Vec<Message>)
        requires
            old(self).wf(),
        ensures
            final(self).wf(),
            final(self).transcript() == messages@,
            final(self).steering_queue() == old(self).steering_queue(),
            final(self).follow_up_queue() == old(self).follow_up_queue(),
            same_run_state(*final(self), *old(self)),
    {
        self.messages = messages;
    }

    /// Appends a message a run wrote to the transcript.
    pub fn push_message(&mut self, message: Message)
        requires
            old(self).wf(),
        ensures
            final(self).wf(),
            final(self).transcript() == old(self).transcript().push(message),
            final(self).steering_queue() == old(self).steering_queue(),
            final(self).follow_up_queue() == old(self).follow_up_queue(),
            same_run_state(*final(self), *old(self)),
    {
        self.messages.push(message);
    }

    /// Queues a steering message.
    pub fn steer(&mut self, message: Message)
        requires
            old(self).wf(),
        ensures
            final(self).wf(),
            final(self).steering_queue() == old(self).steering_queue().push(message),
            final(self).follow_up_queue() == old(self).follow_up_queue(),
            final(self).spec_steering_mode() == old(self).spec_steering_mode(),
            final(self).transcript() == old(self).transcript(),
            same_run_state(*final(self), *old(self)),
    {
        self.steering.push(message);
    }

    /// Queues a follow-up message.
    pub fn follow_up(&mut self, message: Message)
        requires
            old(self).wf(),
        ensures
            final(self).wf(),
            final(self).follow_up_queue() == old(self).follow_up_queue().push(message),
            final(self).steering_queue() == old(self).steering_queue(),
            final(self).spec_follow_up_mode() == old(self).spec_follow_up_mode(),
            final(self).transcript() == old(self).transcript(),
            same_run_state(*final(self), *old(self)),
    {
        self.follow_up.push(message);
    }

    /// How steering messages are taken.
    pub fn steering_mode(&self) -> (m: QueueMode)
        ensures
            m == self.spec_steering_mode(),
    {
        self.steering.mode()
    }

    /// Sets how steering messages are taken.
    pub fn set_steering_mode(&mut self, mode: QueueMode)
        requires
            old(self).wf(),
        ensures
            final(self).wf(),
            final(self).spec_steering_mode() == mode,
            final(self).steering_queue() == old(self).steering_queue(),
            final(self).follow_up_queue() == old(self).follow_up_queue(),
            final(self).spec_follow_up_mode() == old(self).spec_follow_up_mode(),
            same_run_state(*final(self), *old(self)),
    {
        self.steering.set_mode(mode);
    }

    /// How follow-up messages are taken.
    pub fn follow_up_mode(&self) -> (m: QueueMode)
        ensures
            m == self.spec_follow_up_mode(),
    {
        self.follow_up.mode()
    }

    /// Sets how follow-up messages are taken.
    pub fn set_follow_up_mode(&mut self, mode: QueueMode)
        requires
            old(self).wf(),
        ensures
            final(self).wf(),
            final(self).spec_follow_up_mode() == mode,
            final(self).steering_queue() == old(self).steering_queue(),
            final(self).follow_up_queue() == old(self).follow_up_queue(),
            final(self).spec_steering_mode() == old(self).spec_steering_mode(),
            same_run_state(*final(self), *old(self)),
    {
        self.follow_up.set_mode(mode);
    }

    /// Whether any message is queued.
    pub fn has_queued_messages(&self) -> (b: bool)
        ensures
            b == (self.steering_queue().len() > 0 || self.follow_up_queue().len() > 0),
    {
        !self.steering.is_empty() || !self.follow_up.is_empty()
    }

    /// The messages the next injection point would take (steering first),
    /// without taking them.
    pub fn peek_queued_messages(&self) -> (r: Vec<Message>)
        ensures
            self.steering_queue().len() > 0 ==> same_messages(r@, self.steering_queue().take(
                take_count(self.spec_steering_mode(), self.steering_queue().len()) as int)),
            self.steering_queue().len() == 0 ==> same_messages(r@, self.follow_up_queue().take(
                take_count(self.spec_follow_up_mode(), self.follow_up_queue().len()) as int)),
    {
        let steering = self.steering.peek();
        if steering.len() == 0 {
            proof {
                assert(self.steering_queue().len() == 0);
            }
            self.follow_up.peek()
        } else {
            steering
        }
    }

    /// Drops the queued steering messages.
    pub fn clear_steering_queue(&mut self)
        requires
            old(self).wf(),
        ensures
            final(self).wf(),
            final(self).steering_queue().len() == 0,
            final(self).follow_up_queue() == old(self).follow_up_queue(),
            final(self).transcript() == old(self).transcript(),
            same_run_state(*final(self), *old(self)),
    {
        self.steering.clear();
    }

    /// Drops the queued follow-up messages.
    pub fn clear_follow_up_queue(&mut self)
        requires
            old(self).wf(),
        ensures
            final(self).wf(),
            final(self).follow_up_queue().len() == 0,
            final(self).steering_queue() == old(self).steering_queue(),
            final(self).transcript() == old(self).transcript(),
            same_run_state(*final(self), *old(self)),
    {
        self.follow_up.clear();
    }

    /// Drops every queued message.
    pub fn clear_queues(&mut self)
        requires
            old(self).wf(),
        ensures
            final(self).wf(),
            final(self).steering_queue().len() == 0,
            final(self).follow_up_queue().len() == 0,
            final(self).transcript() == old(self).transcript(),
            same_run_state(*final(self), *old(self)),
    {
        self.steering.clear();
        self.follow_up.clear();
    }

    /// Takes the steering messages of an injection point; none when this
    /// read is to be skipped (the run started with the steering messages).
    pub fn poll_steering(&mut self, skip: bool) -> (r: Vec<Message>)
        requires
            old(self).wf(),
        ensures
            final(self).wf(),
            skip ==> r@.len() == 0 && *final(self) == *old(self),
            !skip ==> {
                let n = take_count(old(self).spec_steering_mode(), old(self).steering_queue().len());
                &&& r@ == old(self).steering_queue().take(n as int)
                &&& final(self).steering_queue() == old(self).steering_queue().skip(n as int)
            },
            final(self).follow_up_queue() == old(self).follow_up_queue(),
            final(self).transcript() == old(self).transcript(),
            same_run_state(*final(self), *old(self)),
    {
        if skip {
            Vec::new()
        } else {
            self.steering.drain()
        }
    }

    /// Takes the follow-up messages of an injection point.
    pub fn poll_follow_up(&mut self) -> (r: Vec<Message>)
        requires
            old(self).wf(),
        ensures
            final(self).wf(),
            ({
                let n = take_count(old(self).spec_follow_up_mode(), old(self).follow_up_queue().len());
                &&& r@ == old(self).follow_up_queue().take(n as int)
                &&& final(self).follow_up_queue() == old(self).follow_up_queue().skip(n as int)
            }),
            final(self).steering_queue() == old(self).steering_queue(),
            final(self).transcript() == old(self).transcript(),
            same_run_state(*final(self), *old(self)),
    {
        self.follow_up.drain()
    }

    /// Whether a run is in progress.
    pub fn is_running(&self) -> (b: bool)
        ensures
            b == self.running(),
    {
        self.active.is_some()
    }

    /// The abort handle of the current run.
    pub fn active(&self) -> (r: &Option<C>)
        ensures
            *r == self.spec_active(),
    {
        &self.active
    }

    /// The error text of the last failed run.
    pub fn last_error(&self) -> (r: &Option<String>)
        ensures
            *r == self.spec_last_error(),
    {
        &self.last_error
    }

    /// The ids of the tool calls whose input is out and whose result is not.
    pub fn pending_tool_calls(&self) -> (r: &Vec<String>)
        ensures
            texts(r@) == self.pending_calls(),
    {
        &self.pending_tool_calls
    }

    /// Decides how a `continue` starts: `Busy` during a run, `NoMessages`
    /// on an empty transcript; after a non-assistant message it continues
    /// from the transcript; after an assistant message it starts with the
    /// queued steering messages, else the queued follow-up messages, else it
    /// fails with `CannotContinueFromAssistant`.
    pub fn continue_plan(&mut self) -> (r: Result<ContinuePlan, AgentError>)
        requires
            old(self).wf(),
        ensures
            final(self).wf(),
            continue_matches(*old(self), *final(self), r),
            final(self).transcript() == old(self).transcript(),
            same_run_state(*final(self), *old(self)),
    {
        if self.active.is_some() {
            return Err(AgentError::Busy);
        }
        let n = self.messages.len();
        if n == 0 {
            return Err(AgentError::NoMessages);
        }
        if !self.messages[n - 1].is_assistant() {
            return Ok(ContinuePlan::FromTranscript);
        }
        let steering = self.steering.drain();
        if steering.len() > 0 {
            return Ok(ContinuePlan::WithQueued(steering, true));
        }
        proof {
            assert(old(self).steering_queue().skip(0) =~= old(self).steering_queue());
        }
        let follow_up = self.follow_up.drain();
        if follow_up.len() == 0 {
            proof {
                assert(old(self).follow_up_queue().len() == 0);
                assert(self.follow_up_queue() =~= old(self).follow_up_queue());
            }
            return Err(AgentError::CannotContinueFromAssistant);
        }
        Ok(ContinuePlan::WithQueued(follow_up, false))
    }

    /// Marks a run as started with its abort handle: `Busy` when one is in
    /// progress; else the pending calls and the last error are cleared.
    pub fn begin_run(&mut self, cancel: C) -> (r: Result<(), AgentError>)
        requires
            old(self).wf(),
        ensures
            final(self).wf(),
            old(self).running() ==> r == Err::<(), AgentError>(AgentError::Busy) && *final(self) == *old(self),
            !old(self).running() ==> {
                &&& r is Ok
                &&& final(self).running()
                &&& final(self).spec_active() == Some(cancel)
                &&& final(self).pending_calls().len() == 0
                &&& final(self).spec_last_error() is None
                &&& final(self).approval_ids() == old(self).approval_ids()
            },
            same_conversation(*final(self), *old(self)),
    {
        if self.active.is_some() {
            return Err(AgentError::Busy);
        }
        self.active = Some(cancel);
        self.pending_tool_calls = Vec::new();
        self.last_error = None;
        proof {
            assert(texts(self.pending_tool_calls@) =~= Seq::<Seq<char>>::empty());
        }
        Ok(())
    }

    /// Clears the transcript, the queues, the pending calls and the last
    /// error; `Busy` (and nothing changes) during a run.
    pub fn reset(&mut self) -> (r: Result<(), AgentError>)
        requires
            old(self).wf(),
        ensures
            final(self).wf(),
            old(self).running() ==> r == Err::<(), AgentError>(AgentError::Busy) && *final(self) == *old(self),
            !old(self).running() ==> {
                &&& r is Ok
                &&& final(self).transcript().len() == 0
                &&& final(self).steering_queue().len() == 0
                &&& final(self).follow_up_queue().len() == 0
                &&& final(self).pending_calls().len() == 0
                &&& final(self).spec_last_error() is None
                &&& !final(self).running()
                &&& final(self).spec_steering_mode() == old(self).spec_steering_mode()
                &&& final(self).spec_follow_up_mode() == old(self).spec_follow_up_mode()
                &&& final(self).spec_system_prompt() == old(self).spec_system_prompt()
            },
    {
        if self.active.is_some() {
            return Err(AgentError::Busy);
        }
        self.messages.clear();
        self.steering.clear();
        self.follow_up.clear();
        self.pending_tool_calls.clear();
        self.last_error = None;
        proof {
            assert(texts(self.pending_tool_calls@) =~= Seq::<Seq<char>>::empty());
        }
        Ok(())
    }

    /// Ends the current run: no run, no pending call, no pending approval.
    pub fn finish_run(&mut self)
        requires
            old(self).wf(),
        ensures
            final(self).wf(),
            !final(self).running(),
            final(self).pending_calls().len() == 0,
            final(self).approval_ids().len() == 0,
            forall|id: Seq<char>| #[trigger] final(self).approval_for(id) is None,
            final(self).spec_last_error() == old(self).spec_last_error(),
            same_conversation(*final(self), *old(self)),
    {
        self.active = None;
        self.pending_tool_calls.clear();
        self.approvals.clear();
        proof {
            assert(texts(self.pending_tool_calls@) =~= Seq::<Seq<char>>::empty());
            assert(self.approvals.key_seq() =~= Seq::<Seq<char>>::empty());
        }
    }
}

/// The index of this text.
fn find_text(v: &Vec<String>, id: &str) -> (r: Option<usize>)
    ensures
        match r {
            Some(k) => k < v@.len() && v@[k as int]@ == id@,
            None => forall|i: int| 0 <= i < v@.len() ==> #[trigger] v@[i]@ != id@,
        },
{
    let key = String::from_str(id);
    let mut i: usize = 0;
    while i < v.len()
        invariant
            i <= v.len(),
            key@ == id@,
            forall|j: int| 0 <= j < i ==> #[trigger] v@[j]@ != id@,
        decreases v.len() - i,
    {
        if v[i] == key {
            return Some(i);
        }
        i = i + 1;
    }
    None
}

/// How an event changes the pending calls and the last error: an available
/// input adds its call (once), a final result, a denial or an input error
/// removes it, a run error is remembered.
pub open spec fn observe_matches<S, C>(before: SessionState<S, C>, after: SessionState<S, C>, event: AgentEvent) -> bool {
    let p = before.pending_calls();
    let q = after.pending_calls();
    let settled = |id: String| {
        &&& !q.contains(id@)
        &&& (p.contains(id@) ==> exists|k: int| 0 <= k < p.len() && p[k] == id@ && q == p.remove(k))
        &&& (!p.contains(id@) ==> q == p)
    };
    match event {
        AgentEvent::ToolInputAvailable { tool_call_id, .. } => {
            &&& (p.contains(tool_call_id@) ==> q == p)
            &&& (!p.contains(tool_call_id@) ==> q == p.push(tool_call_id@))
            &&& after.spec_last_error() == before.spec_last_error()
        },
        AgentEvent::ToolInputError { tool_call_id, .. } => settled(tool_call_id)
            && after.spec_last_error() == before.spec_last_error(),
        AgentEvent::ToolOutputError { tool_call_id, .. } => settled(tool_call_id)
            && after.spec_last_error() == before.spec_last_error(),
        AgentEvent::ToolOutputDenied { tool_call_id, .. } => settled(tool_call_id)
            && after.spec_last_error() == before.spec_last_error(),
        AgentEvent::ToolOutputAvailable { tool_call_id, preliminary, .. } => if preliminary {
            q == p && after.spec_last_error() == before.spec_last_error()
        } else {
            settled(tool_call_id) && after.spec_last_error() == before.spec_last_error()
        },
        AgentEvent::RunError { error_text } => q == p && after.spec_last_error() == Some(error_text),
        _ => q == p && after.spec_last_error() == before.spec_last_error(),
    }
}

/// A call is pending from its input to its final result: its input adds it;
/// its final result (available, not preliminary), output error, denial or
/// input error removes it; a preliminary result keeps the pending calls as
/// they are; and no event touches the other calls.
pub proof fn law_pending_calls_follow_results<S, C>(before: SessionState<S, C>, after: SessionState<S, C>, event: AgentEvent)
    requires
        observe_matches(before, after, event),
    ensures
        event is ToolInputAvailable ==> after.pending_calls().contains(event->ToolInputAvailable_tool_call_id@),
        (event is ToolOutputAvailable && !event->ToolOutputAvailable_preliminary)
            ==> !after.pending_calls().contains(event->ToolOutputAvailable_tool_call_id@),
        (event is ToolOutputAvailable && event->ToolOutputAvailable_preliminary)
            ==> after.pending_calls() == before.pending_calls(),
        event is ToolOutputError ==> !after.pending_calls().contains(event->ToolOutputError_tool_call_id@),
        event is ToolOutputDenied ==> !after.pending_calls().contains(event->ToolOutputDenied_tool_call_id@),
        event is ToolInputError ==> !after.pending_calls().contains(event->ToolInputError_tool_call_id@),
        forall|x: Seq<char>| #![trigger after.pending_calls().contains(x)] x != event_call_id(event)
            ==> (after.pending_calls().contains(x) <==> before.pending_calls().contains(x)),
{
    let p = before.pending_calls();
    let q = after.pending_calls();
    let id = event_call_id(event);
    if p.contains(id) && q != p && !(event is ToolInputAvailable) {
        let k = choose|k: int| 0 <= k < p.len() && p[k] == id && q == p.remove(k);
        assert forall|x: Seq<char>| x != id implies (q.contains(x) <==> p.contains(x)) by {
            if p.contains(x) {
                let i = choose|i: int| 0 <= i < p.len() && p[i] == x;
                if i < k {
                    assert(q[i] == x);
                } else {
                    assert(i != k);
                    assert(q[i - 1] == x);
                }
            }
        }
    }
    if event is ToolInputAvailable && !p.contains(id) {
        assert(q[p.len() as int] == id);
        assert forall|x: Seq<char>| x != id implies (q.contains(x) <==> p.contains(x)) by {
            if q.contains(x) {
                let i = choose|i: int| 0 <= i < q.len() && q[i] == x;
                assert(i < p.len());
                assert(p[i] == x);
            }
            if p.contains(x) {
                let i = choose|i: int| 0 <= i < p.len() && p[i] == x;
                assert(q[i] == x);
            }
        }
    }
}

/// The call id an event is about (empty for other events).
pub open spec fn event_call_id(event: AgentEvent) -> Seq<char> {
    match event {
        AgentEvent::ToolInputAvailable { tool_call_id, .. } => tool_call_id@,
        AgentEvent::ToolInputError { tool_call_id, .. } => tool_call_id@,
        AgentEvent::ToolOutputAvailable { tool_call_id, .. } => tool_call_id@,
        AgentEvent::ToolOutputError { tool_call_id, .. } => tool_call_id@,
        AgentEvent::ToolOutputDenied { tool_call_id, .. } => tool_call_id@,
        _ => Seq::empty(),
    }
}

impl<S, C> SessionState<S, C> {
    fn note_pending(&mut self, id: &String)
        requires
            old(self).wf(),
        ensures
            final(self).wf(),
            old(self).pending_calls().contains(id@) ==> final(self).pending_calls() == old(self).pending_calls(),
            !old(self).pending_calls().contains(id@) ==> final(self).pending_calls() == old(self).pending_calls().push(id@),
            final(self).spec_last_error() == old(self).spec_last_error(),
            final(self).spec_active() == old(self).spec_active(),
            final(self).approvals == old(self).approvals,
            same_conversation(*final(self), *old(self)),
    {
        match find_text(&self.pending_tool_calls, id.as_str()) {
            Some(k) => {
                proof {
                    assert(texts(self.pending_tool_calls@)[k as int] == id@);
                }
            },
            None => {
                proof {
                    assert(!texts(self.pending_tool_calls@).contains(id@)) by {
                        if texts(self.pending_tool_calls@).contains(id@) {
                            let j = choose|j: int| 0 <= j < texts(self.pending_tool_calls@).len() && texts(self.pending_tool_calls@)[j] == id@;
                            assert(self.pending_tool_calls@[j]@ == id@);
                        }
                    }
                }
                self.pending_tool_calls.push(id.clone());
                proof {
                    assert(texts(self.pending_tool_calls@) =~= texts(old(self).pending_tool_calls@).push(id@));
                }
            },
        }
    }

    fn settle_pending(&mut self, id: &String)
        requires
            old(self).wf(),
        ensures
            final(self).wf(),
            !final(self).pending_calls().contains(id@),
            old(self).pending_calls().contains(id@) ==> exists|k: int| 0 <= k < old(self).pending_calls().len()
                && old(self).pending_calls()[k] == id@ && final(self).pending_calls() == old(self).pending_calls().remove(k),
            !old(self).pending_calls().contains(id@) ==> final(self).pending_calls() == old(self).pending_calls(),
            final(self).spec_last_error() == old(self).spec_last_error(),
            final(self).spec_active() == old(self).spec_active(),
            final(self).approvals == old(self).approvals,
            same_conversation(*final(self), *old(self)),
    {
        let ghost p = texts(self.pending_tool_calls@);
        match find_text(&self.pending_tool_calls, id.as_str()) {
            Some(k) => {
                self.pending_tool_calls.remove(k);
                proof {
                    let q = texts(self.pending_tool_calls@);
                    assert(q =~= p.remove(k as int));
                    assert(p[k as int] == id@);
                    assert forall|i: int, j: int| 0 <= i < j < self.pending_tool_calls@.len()
                        implies self.pending_tool_calls@[i]@ != self.pending_tool_calls@[j]@ by {
                        let i2 = if i < k { i } else { i + 1 };
                        let j2 = if j < k { j } else { j + 1 };
                        assert(self.pending_tool_calls@[i] == old(self).pending_tool_calls@[i2]);
                        assert(self.pending_tool_calls@[j] == old(self).pending_tool_calls@[j2]);
                    }
                    if q.contains(id@) {
                        let j = choose|j: int| 0 <= j < q.len() && q[j] == id@;
                        let j2 = if j < k { j } else { j + 1 };
                        assert(self.pending_tool_calls@[j] == old(self).pending_tool_calls@[j2]);
                    }
                }
            },
            None => {
                proof {
                    if p.contains(id@) {
                        let j = choose|j: int| 0 <= j < p.len() && p[j] == id@;
                        assert(old(self).pending_tool_calls@[j]@ == id@);
                    }
                }
            },
        }
    }

    /// Tracks the run: pending tool calls and the last run error.
    pub fn observe(&mut self, event: &AgentEvent)
        requires
            old(self).wf(),
        ensures
            final(self).wf(),
            observe_matches(*old(self), *final(self), *event),
            final(self).spec_active() == old(self).spec_active(),
            final(self).approval_ids() == old(self).approval_ids(),
            forall|id: Seq<char>| #[trigger] final(self).approval_for(id) == old(self).approval_for(id),
            same_conversation(*final(self), *old(self)),
    {
        match event {
            AgentEvent::ToolInputAvailable { tool_call_id, .. } => self.note_pending(tool_call_id),
            AgentEvent::ToolInputError { tool_call_id, .. } => self.settle_pending(tool_call_id),
            AgentEvent::ToolOutputError { tool_call_id, .. } => self.settle_pending(tool_call_id),
            AgentEvent::ToolOutputDenied { tool_call_id, .. } => self.settle_pending(tool_call_id),
            AgentEvent::ToolOutputAvailable { tool_call_id, preliminary, .. } => {
                if !*preliminary {
                    self.settle_pending(tool_call_id);
                }
            },
            AgentEvent::RunError { error_text } => {
                self.last_error = Some(error_text.clone());
            },
            _ => {},
        }
    }

    /// Registers the answer channel of an approval request (replacing one
    /// registered under the same id).
    pub fn register_approval(&mut self, id: String, sender: S)
        requires
            old(self).wf(),
        ensures
            final(self).wf(),
            final(self).approval_for(id@) == Some(sender),
            forall|x: Seq<char>| x != id@ ==> #[trigger] final(self).approval_for(x) == old(self).approval_for(x),
            final(self).approval_ids().contains(id@),
            final(self).pending_calls() == old(self).pending_calls(),
            final(self).spec_active() == old(self).spec_active(),
            final(self).spec_last_error() == old(self).spec_last_error(),
            same_conversation(*final(self), *old(self)),
    {
        self.approvals.insert(id, sender);
    }

    /// Takes the answer channel registered for `id`: the one registered, or
    /// none; afterwards none is registered for `id`.
    pub fn take_approval(&mut self, id: &str) -> (r: Option<S>)
        requires
            old(self).wf(),
        ensures
            final(self).wf(),
            r == old(self).approval_for(id@),
            final(self).approval_for(id@) is None,
            forall|x: Seq<char>| x != id@ ==> #[trigger] final(self).approval_for(x) == old(self).approval_for(x),
            final(self).pending_calls() == old(self).pending_calls(),
            final(self).spec_active() == old(self).spec_active(),
            final(self).spec_last_error() == old(self).spec_last_error(),
            same_conversation(*final(self), *old(self)),
    {
        self.approvals.remove(id)
    }

    /// Takes the answer channel of the approval request `id`, or reports
    /// `ApprovalNotFound` (already answered, expired, or unknown id).
    pub fn respond_target(&mut self, id: &str) -> (r: Result<S, AgentError>)
        requires
            old(self).wf(),
        ensures
            final(self).wf(),
            match old(self).approval_for(id@) {
                Some(s) => r == Ok::<S, AgentError>(s),
                None => r matches Err(AgentError::ApprovalNotFound(x)) && x@ == id@,
            },
            final(self).approval_for(id@) is None,
            forall|x: Seq<char>| x != id@ ==> #[trigger] final(self).approval_for(x) == old(self).approval_for(x),
            same_conversation(*final(self), *old(self)),
    {
        match self.take_approval(id) {
            Some(s) => Ok(s),
            None => Err(AgentError::ApprovalNotFound(String::from_str(id))),
        }
    }

    /// The ids of the approval requests waiting for an answer.
    pub fn pending_approvals(&self) -> (r: Vec<String>)
        ensures
            texts(r@) == self.approval_ids(),
    {
        self.approvals.keys()
    }
}

} // verus!

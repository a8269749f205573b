//! How queued messages are taken, how a tool batch runs, and what a hook
//! decides at the end of a turn.

use vstd::prelude::*;

verus! {

/// How steering and follow-up messages are taken at an injection point.
#[derive(Clone, Copy, Debug, PartialEq, Eq, Structural)]
pub enum QueueMode {
    /// Take every queued message at once.
    All,
    /// Take only the oldest queued message.
    OneAtATime,
}

impl Default for QueueMode {
    /// One message at a time.
    fn default() -> (r: QueueMode)
        ensures
            r == QueueMode::OneAtATime,
    {
        QueueMode::OneAtATime
    }
}

/// How the tool calls of one assistant message run.
#[derive(Clone, Copy, Debug, PartialEq, Eq, Structural)]
pub enum ToolExecutionMode {
    /// Prepared one by one, then executed concurrently; results keep call order.
    Parallel,
    /// Prepared, executed and settled one by one.
    Sequential,
}

impl Default for ToolExecutionMode {
    /// Parallel execution.
    fn default() -> (r: ToolExecutionMode)
        ensures
            r == ToolExecutionMode::Parallel,
    {
        ToolExecutionMode::Parallel
    }
}

/// What the end-of-turn hook decides.
#[derive(Clone, Copy, Debug, PartialEq, Eq, Structural)]
pub enum TurnDecision {
    /// Continue when there are tool results or queued messages, else end.
    Default,
    /// Make at least one more model request.
    Continue,
    /// End the run now, without reading queued messages.
    End,
}

impl Default for TurnDecision {
    /// The ordinary schedule.
    fn default() -> (r: TurnDecision)
        ensures
            r == TurnDecision::Default,
    {
        TurnDecision::Default
    }
}

} // verus!

//! What policy hooks decide: about one tool call, and at the end of a turn.

use vstd::prelude::*;
use crate::message::{FinishReason, Message, Usage};

verus! {

/// The decision of the before-tool-call hook.
#[derive(Clone, Debug, PartialEq, Eq)]
pub enum ToolCallDecision {
    /// Go ahead (the tool's own approval requirement still applies).
    Allow,
    /// Do not execute; the model gets an `execution_denied` result.
    Deny { reason: Option<String>, terminate: bool },
    /// Ask a human first. `descriptor` is JSON text describing the request.
    RequireApproval { reason: Option<String>, descriptor: Option<String> },
}

impl ToolCallDecision {
    /// Refuse for the given reason, without asking to end the batch.
    pub fn deny(reason: String) -> (d: ToolCallDecision)
        ensures
            d == (ToolCallDecision::Deny { reason: Some(reason), terminate: false }),
    {
        ToolCallDecision::Deny { reason: Some(reason), terminate: false }
    }

    /// Ask a human for the given reason.
    pub fn require_approval(reason: String) -> (d: ToolCallDecision)
        ensures
            d == (ToolCallDecision::RequireApproval { reason: Some(reason), descriptor: None }),
    {
        ToolCallDecision::RequireApproval { reason: Some(reason), descriptor: None }
    }
}

impl Default for ToolCallDecision {
    /// Allow.
    fn default() -> (d: ToolCallDecision)
        ensures
            d == ToolCallDecision::Allow,
    {
        ToolCallDecision::Allow
    }
}

/// A summary of a finished turn.
#[derive(Clone, Debug, PartialEq, Eq)]
pub struct TurnInfo {
    /// Index of the turn, from 0.
    pub step_index: usize,
    /// The assistant message of the turn.
    pub assistant: Message,
    /// The tool message of the turn, if it had tool calls.
    pub tool_results: Option<Message>,
    pub finish_reason: FinishReason,
    pub usage: Usage,
}

/// Hooks that change nothing.
#[derive(Clone, Copy, Debug, Default)]
pub struct NoopHooks;

} // verus!

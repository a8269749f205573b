//! Human approval of tool calls: the request the loop raises and the answer.

use vstd::prelude::*;

verus! {

/// A tool call waiting for a human decision.
#[derive(Clone, Debug, PartialEq, Eq)]
pub struct ApprovalRequest {
    pub approval_id: String,
    pub tool_call_id: String,
    pub tool_name: String,
    /// The tool input (JSON text).
    pub input: String,
    /// Whether the provider executes the tool.
    pub provider_executed: bool,
}

/// The answer to an approval request.
#[derive(Clone, Debug, PartialEq, Eq)]
pub struct ApprovalDecision {
    pub approved: bool,
    /// A note, or the reason of a refusal.
    pub reason: Option<String>,
}

impl ApprovalDecision {
    /// Approve, without a note.
    pub fn approve() -> (d: ApprovalDecision)
        ensures
            d.approved,
            d.reason is None,
    {
        ApprovalDecision { approved: true, reason: None }
    }

    /// Refuse, for the given reason.
    pub fn deny(reason: String) -> (d: ApprovalDecision)
        ensures
            !d.approved,
            d.reason == Some(reason),
    {
        ApprovalDecision { approved: false, reason: Some(reason) }
    }
}

} // verus!

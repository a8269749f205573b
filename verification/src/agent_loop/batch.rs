//! The tool batch of one assistant message: which calls run locally, how
//! the batch runs, what each preparation decides, and the tool message it
//! produces.

use vstd::prelude::*;
use vstd::string::StringExecFns;
use crate::agent_loop::machine::ToolBatch;
use crate::agent_loop::step::{approval_request_for, first_call_with_id};
use crate::config::ToolExecutionMode;
use crate::context::{find_tool_index, is_first_named, tool_input_text};
use crate::event::{output_event_matches, tool_output_event, AgentEvent};
use crate::hooks::ToolCallDecision;
use crate::host::{ApprovalDecision, ApprovalRequest};
use crate::message::{copy_opt, Message, ToolPart, ToolResultOutput};
use crate::stream::OutputContent;
use crate::tool::error::ToolError;
use crate::tool::types::{ToolOutcome, ToolSpec};

verus! {

/// A tool call to execute locally.
#[derive(Clone, Debug, PartialEq, Eq)]
pub struct LocalCall {
    pub tool_call_id: String,
    pub tool_name: String,
    /// The raw input text the model produced.
    pub raw_input: String,
}

/// The local call a response piece stands for, if it is one.
pub open spec fn local_call_of(c: OutputContent) -> Option<LocalCall> {
    match c {
        OutputContent::ToolCall { tool_call_id, tool_name, input, provider_executed, .. } =>
            if provider_executed {
                None
            } else {
                Some(LocalCall { tool_call_id, tool_name, raw_input: input })
            },
        _ => None,
    }
}

/// The local calls of a response, in order.
pub open spec fn local_calls_of(s: Seq<OutputContent>) -> Seq<LocalCall>
    decreases s.len(),
{
    if s.len() == 0 {
        Seq::empty()
    } else {
        match local_call_of(s.last()) {
            Some(c) => local_calls_of(s.drop_last()).push(c),
            None => local_calls_of(s.drop_last()),
        }
    }
}

/// The local tool calls of a response (those the provider does not execute).
pub fn local_calls(content: &Vec<OutputContent>) -> (r: Vec<LocalCall>)
    ensures
        r@ == local_calls_of(content@),
{
    let mut r: Vec<LocalCall> = Vec::new();
    let mut i: usize = 0;
    while i < content.len()
        invariant
            i <= content.len(),
            r@ == local_calls_of(content@.take(i as int)),
        decreases content.len() - i,
    {
        proof {
            assert(content@.take(i + 1).drop_last() == content@.take(i as int));
            assert(content@.take(i + 1).last() == content@[i as int]);
        }
        match &content[i] {
            OutputContent::ToolCall { tool_call_id, tool_name, input, provider_executed, .. } => {
                if !*provider_executed {
                    r.push(LocalCall { tool_call_id: tool_call_id.clone(), tool_name: tool_name.clone(), raw_input: input.clone() });
                }
            },
            _ => {},
        }
        i = i + 1;
    }
    proof {
        assert(content@.take(content.len() as int) == content@);
    }
    r
}

/// The (approval id, tool call id) pairs of the provider-side approval
/// requests of a response, in order.
pub open spec fn approval_ids_of(s: Seq<OutputContent>) -> Seq<(Seq<char>, Seq<char>)>
    decreases s.len(),
{
    if s.len() == 0 {
        Seq::empty()
    } else {
        match s.last() {
            OutputContent::ToolApprovalRequest { approval_id, tool_call_id, .. } =>
                approval_ids_of(s.drop_last()).push((approval_id@, tool_call_id@)),
            _ => approval_ids_of(s.drop_last()),
        }
    }
}

/// `r` is the approval request of a provider-side approval of `content`.
pub open spec fn is_approval_request_for(content: Seq<OutputContent>, approval_id: Seq<char>, tool_call_id: Seq<char>, r: ApprovalRequest) -> bool {
    &&& r.approval_id@ == approval_id
    &&& r.tool_call_id@ == tool_call_id
    &&& r.provider_executed
    &&& exists|found: Option<usize>| #[trigger] first_call_with_id(content, tool_call_id, found) && match found {
        Some(i) => r.tool_name == content[i as int]->ToolCall_tool_name
            && tool_input_text(content[i as int]->ToolCall_input@, r.input@),
        None => r.tool_name@ == Seq::<char>::empty() && r.input@ == "null"@,
    }
}

/// The approval requests the provider raised in a response, in order.
pub fn provider_approvals(content: &Vec<OutputContent>) -> (r: Vec<ApprovalRequest>)
    ensures
        r@.len() == approval_ids_of(content@).len(),
        forall|k: int| 0 <= k < r@.len() ==> is_approval_request_for(content@,
            approval_ids_of(content@)[k].0, approval_ids_of(content@)[k].1, #[trigger] r@[k]),
{
    let mut r: Vec<ApprovalRequest> = Vec::new();
    let mut i: usize = 0;
    while i < content.len()
        invariant
            i <= content.len(),
            r@.len() == approval_ids_of(content@.take(i as int)).len(),
            forall|k: int| 0 <= k < r@.len() ==> is_approval_request_for(content@,
                approval_ids_of(content@.take(i as int))[k].0, approval_ids_of(content@.take(i as int))[k].1, #[trigger] r@[k]),
        decreases content.len() - i,
    {
        proof {
            assert(content@.take(i + 1).drop_last() == content@.take(i as int));
            assert(content@.take(i + 1).last() == content@[i as int]);
        }
        match &content[i] {
            OutputContent::ToolApprovalRequest { approval_id, tool_call_id, .. } => {
                let req = approval_request_for(content, approval_id.as_str(), tool_call_id.as_str());
                r.push(req);
            },
            _ => {},
        }
        i = i + 1;
    }
    proof {
        assert(content@.take(content.len() as int) == content@);
    }
    r
}

/// Whether some call names a local tool whose own mode is sequential.
pub open spec fn some_tool_sequential(calls: Seq<LocalCall>, tools: Seq<ToolSpec>) -> bool {
    exists|k: int, t: usize| 0 <= k < calls.len()
        && #[trigger] is_first_named(tools, calls[k].tool_name@, Some(t))
        && tools[t as int].execution_mode == Some(ToolExecutionMode::Sequential)
}

/// At most one index is the first one with a given name.
proof fn lemma_first_named_unique(tools: Seq<ToolSpec>, name: Seq<char>, a: Option<usize>, b: usize)
    requires
        is_first_named(tools, name, a),
        is_first_named(tools, name, Some(b)),
    ensures
        a == Some(b),
{
    match a {
        Some(x) => {
            if x < b {
                assert(tools[x as int].name@ == name);
            } else if b < x {
                assert(tools[b as int].name@ == name);
            }
        },
        None => {
            assert(tools[b as int].name@ == name);
        },
    }
}

/// Whether the batch runs one call after the other: the configured mode is
/// sequential, or some called tool asks for it.
pub fn is_sequential(calls: &Vec<LocalCall>, mode: ToolExecutionMode, tools: &Vec<ToolSpec>) -> (b: bool)
    ensures
        b == (mode == ToolExecutionMode::Sequential || some_tool_sequential(calls@, tools@)),
{
    if mode == ToolExecutionMode::Sequential {
        return true;
    }
    let mut k: usize = 0;
    while k < calls.len()
        invariant
            k <= calls.len(),
            forall|kk: int, t: usize| 0 <= kk < k
                && #[trigger] is_first_named(tools@, calls@[kk].tool_name@, Some(t))
                ==> tools@[t as int].execution_mode != Some(ToolExecutionMode::Sequential),
        decreases calls.len() - k,
    {
        let found = find_tool_index(tools, calls[k].tool_name.as_str());
        match found {
            Some(t) => {
                match tools[t].execution_mode {
                    Some(ToolExecutionMode::Sequential) => {
                        proof {
                            assert(is_first_named(tools@, calls@[k as int].tool_name@, Some(t)));
                        }
                        return true;
                    },
                    _ => {},
                }
            },
            None => {},
        }
        proof {
            assert forall|t: usize| #[trigger] is_first_named(tools@, calls@[k as int].tool_name@, Some(t))
                implies tools@[t as int].execution_mode != Some(ToolExecutionMode::Sequential) by {
                lemma_first_named_unique(tools@, calls@[k as int].tool_name@, found, t);
            }
        }
        k = k + 1;
    }
    false
}

/// How a batch runs.
#[derive(Clone, Copy, Debug, PartialEq, Eq)]
pub enum BatchKind {
    /// No local call and no provider approval: nothing to do.
    Empty,
    /// The response hit the length limit: no call is executed.
    Truncated,
    /// Prepared, executed and settled one by one.
    Sequential,
    /// Prepared one by one, then executed concurrently.
    Parallel,
}

/// The plan of a batch.
pub struct BatchPlan {
    pub calls: Vec<LocalCall>,
    pub approvals: Vec<ApprovalRequest>,
    pub kind: BatchKind,
}

/// Plans the batch of a response.
pub fn plan_batch(content: &Vec<OutputContent>, truncated: bool, mode: ToolExecutionMode, tools: &Vec<ToolSpec>) -> (p: BatchPlan)
    ensures
        p.calls@ == local_calls_of(content@),
        p.approvals@.len() == approval_ids_of(content@).len(),
        forall|k: int| 0 <= k < p.approvals@.len() ==> is_approval_request_for(content@,
            approval_ids_of(content@)[k].0, approval_ids_of(content@)[k].1, #[trigger] p.approvals@[k]),
        (p.kind == BatchKind::Empty) == (p.calls@.len() == 0 && p.approvals@.len() == 0),
        p.kind != BatchKind::Empty ==> (p.kind == BatchKind::Truncated) == truncated,
        p.kind != BatchKind::Empty && !truncated ==> ((p.kind == BatchKind::Sequential)
            == (mode == ToolExecutionMode::Sequential || some_tool_sequential(p.calls@, tools@))),
{
    let calls = local_calls(content);
    let approvals = provider_approvals(content);
    let kind = if calls.len() == 0 && approvals.len() == 0 {
        BatchKind::Empty
    } else if truncated {
        BatchKind::Truncated
    } else if is_sequential(&calls, mode, tools) {
        BatchKind::Sequential
    } else {
        BatchKind::Parallel
    };
    BatchPlan { calls, approvals, kind }
}

/// The batch result when there is nothing to do.
pub fn empty_batch() -> (b: ToolBatch)
    ensures
        b == (ToolBatch { message: None, has_calls: false, terminate: false }),
{
    ToolBatch { message: None, has_calls: false, terminate: false }
}

pub open spec fn truncated_text(tool_name: Seq<char>) -> Seq<char> {
    "工具 "@ + tool_name + " 未执行：模型输出达到长度上限，入参可能被截断，请重新发起完整的调用"@
}

/// The result of a call that is not executed because the response was cut
/// at the length limit.
pub fn truncated_outcome(call: &LocalCall) -> (o: ToolOutcome)
    ensures
        o.output is ErrorText,
        o.output->ErrorText_value@ == truncated_text(call.tool_name@),
        o.output->ErrorText_provider_options is None,
        !o.terminate,
{
    let text = String::from_str("工具 ")
        .concat(call.tool_name.as_str())
        .concat(" 未执行：模型输出达到长度上限，入参可能被截断，请重新发起完整的调用");
    ToolOutcome::error(text)
}

/// The text of the result that pairs a call with an abort.
pub open spec fn aborted_text() -> Seq<char> {
    "操作已中止"@
}

/// The result given to a call when the run is aborted before it settles.
pub fn aborted_outcome() -> (o: ToolOutcome)
    ensures
        o.output is ErrorText,
        o.output->ErrorText_value@ == aborted_text(),
        o.output->ErrorText_provider_options is None,
        !o.terminate,
{
    ToolOutcome::error(String::from_str("操作已中止"))
}

/// What preparing a call leads to.
#[derive(Clone, Debug, PartialEq, Eq)]
pub enum PreparePlan {
    /// Execute the call.
    Proceed,
    /// Ask a human first.
    Ask { reason: Option<String>, descriptor: Option<String> },
    /// Do not execute: settle with this result.
    Settle(ToolOutcome),
}

/// What the before-call decision leads to: `Allow` asks a human only when
/// the tool requires it for this input; `RequireApproval` always asks;
/// `Deny` settles with a refusal (keeping its `terminate` wish).
pub fn prepare_plan(decision: ToolCallDecision, tool_needs_approval: bool) -> (p: PreparePlan)
    ensures
        match decision {
            ToolCallDecision::Allow => if tool_needs_approval {
                p == (PreparePlan::Ask { reason: None, descriptor: None })
            } else {
                p == PreparePlan::Proceed
            },
            ToolCallDecision::RequireApproval { reason, descriptor } => p == (PreparePlan::Ask { reason, descriptor }),
            ToolCallDecision::Deny { reason, terminate } => p == PreparePlan::Settle(ToolOutcome {
                output: ToolResultOutput::ExecutionDenied { reason, provider_options: None },
                terminate,
            }),
        },
{
    match decision {
        ToolCallDecision::Allow => if tool_needs_approval {
            PreparePlan::Ask { reason: None, descriptor: None }
        } else {
            PreparePlan::Proceed
        },
        ToolCallDecision::RequireApproval { reason, descriptor } => PreparePlan::Ask { reason, descriptor },
        ToolCallDecision::Deny { reason, terminate } =>
            PreparePlan::Settle(ToolOutcome::new(ToolResultOutput::denied(reason)).with_terminate(terminate)),
    }
}

/// The result of an answered approval: none when approved (execute), a
/// refusal with the given reason otherwise.
pub fn approval_outcome(decision: ApprovalDecision) -> (o: Option<ToolOutcome>)
    ensures
        decision.approved ==> o is None,
        !decision.approved ==> o == Some(ToolOutcome {
            output: ToolResultOutput::ExecutionDenied { reason: decision.reason, provider_options: None },
            terminate: false,
        }),
{
    if decision.approved {
        None
    } else {
        Some(ToolOutcome::new(ToolResultOutput::denied(decision.reason)))
    }
}

/// The approval request of a local call.
pub fn local_approval_request(approval_id: String, call: &LocalCall, input: String) -> (r: ApprovalRequest)
    ensures
        r == (ApprovalRequest {
            approval_id,
            tool_call_id: call.tool_call_id,
            tool_name: call.tool_name,
            input,
            provider_executed: false,
        }),
{
    ApprovalRequest {
        approval_id,
        tool_call_id: call.tool_call_id.clone(),
        tool_name: call.tool_name.clone(),
        input,
        provider_executed: false,
    }
}

/// The event reporting the answer to an approval request.
pub fn approval_response_event(approval_id: String, decision: &ApprovalDecision, provider_executed: bool) -> (e: AgentEvent)
    ensures
        e == (AgentEvent::ToolApprovalResponse {
            approval_id,
            approved: decision.approved,
            reason: decision.reason,
            provider_executed,
            provider_metadata: None,
        }),
{
    AgentEvent::ToolApprovalResponse {
        approval_id,
        approved: decision.approved,
        reason: copy_opt(&decision.reason),
        provider_executed,
        provider_metadata: None,
    }
}

/// The answer to a provider-side approval request: the event reporting it
/// and the tool-message part carrying it back to the model.
pub fn provider_approval_answer(approval_id: String, decision: ApprovalDecision) -> (r: (AgentEvent, ToolPart))
    ensures
        r.0 == (AgentEvent::ToolApprovalResponse {
            approval_id,
            approved: decision.approved,
            reason: decision.reason,
            provider_executed: true,
            provider_metadata: None,
        }),
        r.1 == (ToolPart::ToolApprovalResponse {
            approval_id,
            approved: decision.approved,
            reason: decision.reason,
            provider_options: None,
        }),
{
    let event = approval_response_event(approval_id.clone(), &decision, true);
    let part = ToolPart::ToolApprovalResponse {
        approval_id,
        approved: decision.approved,
        reason: decision.reason,
        provider_options: None,
    };
    (event, part)
}

/// The event that settles a call with its final result.
pub fn settle_event(call: &LocalCall, outcome: &ToolOutcome) -> (e: AgentEvent)
    ensures
        output_event_matches(e, call.tool_call_id, outcome.output, false, false, None),
{
    tool_output_event(call.tool_call_id.clone(), outcome.output.duplicate(), false, false, None)
}

/// The event reporting an intermediate result of a running call.
pub fn progress_event(call: &LocalCall, update: ToolResultOutput) -> (e: AgentEvent)
    ensures
        e == (AgentEvent::ToolOutputAvailable {
            tool_call_id: call.tool_call_id,
            output: update,
            preliminary: true,
            dynamic: false,
            provider_executed: false,
            tool_metadata: None,
            provider_metadata: None,
        }),
{
    tool_output_event(call.tool_call_id.clone(), update, true, false, None)
}

/// The result of an execution: a failure becomes a text error.
pub fn execution_outcome(result: Result<ToolOutcome, ToolError>) -> (o: ToolOutcome)
    ensures
        match result {
            Ok(outcome) => o == outcome,
            Err(e) => o.output is ErrorText && o.output->ErrorText_value@ == e.spec_text()
                && o.output->ErrorText_provider_options is None && !o.terminate,
        },
{
    match result {
        Ok(outcome) => outcome,
        Err(e) => ToolOutcome::error(e.text()),
    }
}

/// Whether every outcome asks to end the run (and there is one at least).
pub open spec fn all_terminate(outcomes: Seq<ToolOutcome>) -> bool {
    outcomes.len() > 0 && forall|k: int| 0 <= k < outcomes.len() ==> #[trigger] outcomes[k].terminate
}

/// The tool-message part of a call's result.
pub open spec fn result_part(call: LocalCall, outcome: ToolOutcome) -> ToolPart {
    ToolPart::ToolResult {
        tool_call_id: call.tool_call_id,
        tool_name: call.tool_name,
        output: outcome.output,
        provider_options: None,
    }
}

/// The tool-message part of call `k` of a batch: its outcome's result, or
/// the abort result when no outcome came back for it.
pub open spec fn part_for(calls: Seq<LocalCall>, outcomes: Seq<ToolOutcome>, k: int, part: ToolPart) -> bool {
    if k < outcomes.len() {
        part == result_part(calls[k], outcomes[k])
    } else {
        &&& part is ToolResult
        &&& part->ToolResult_tool_call_id == calls[k].tool_call_id
        &&& part->ToolResult_tool_name == calls[k].tool_name
        &&& part->ToolResult_output is ErrorText
        &&& part->ToolResult_output->ErrorText_value@ == aborted_text()
        &&& part->ToolResult_output->ErrorText_provider_options is None
        &&& part->ToolResult_provider_options is None
    }
}

/// Whether a batch asks to end the run: it has calls, and every call's
/// outcome came back and asks so.
pub open spec fn batch_terminates(calls: Seq<LocalCall>, outcomes: Seq<ToolOutcome>) -> bool {
    &&& calls.len() > 0
    &&& outcomes.len() >= calls.len()
    &&& forall|k: int| 0 <= k < calls.len() ==> #[trigger] outcomes[k].terminate
}

/// The batch result: exactly one result part per call, in call order (a
/// call whose outcome did not come back gets the abort result; outcomes
/// beyond the calls are ignored), then the answers to provider approvals;
/// the run is asked to end only when every call's outcome asks so.
pub fn finish_batch(calls: &Vec<LocalCall>, outcomes: Vec<ToolOutcome>, approval_parts: Vec<ToolPart>) -> (b: ToolBatch)
    ensures
        b.has_calls,
        b.terminate == batch_terminates(calls@, outcomes@),
        calls@.len() == outcomes@.len() ==> b.terminate == all_terminate(outcomes@),
        b.message is Some,
        b.message->0 is Tool,
        b.message->0->Tool_content@.len() == calls@.len() + approval_parts@.len(),
        forall|k: int| 0 <= k < calls@.len() ==> part_for(calls@, outcomes@, k, #[trigger] b.message->0->Tool_content@[k]),
        b.message->0->Tool_content@.subrange(calls@.len() as int, b.message->0->Tool_content@.len() as int)
            == approval_parts@,
{
    let ghost all = outcomes@;
    let mut parts: Vec<ToolPart> = Vec::new();
    let n = calls.len();
    let mut terminate = n > 0;
    let mut rest = outcomes;
    let mut i: usize = 0;
    while i < n
        invariant
            n == calls@.len(),
            i <= n,
            i <= all.len() ==> rest@ == all.subrange(i as int, all.len() as int),
            i > all.len() ==> rest@.len() == 0,
            parts@.len() == i,
            forall|k: int| 0 <= k < i ==> part_for(calls@, all, k, #[trigger] parts@[k]),
            terminate == (n > 0 && i <= all.len() && forall|k: int| 0 <= k < i ==> #[trigger] all[k].terminate),
        decreases n - i,
    {
        let had = rest.len() > 0;
        let o = if had {
            let o = rest.remove(0);
            proof {
                assert(o == all[i as int]);
                assert(all.subrange(i + 1, all.len() as int) == all.subrange(i as int, all.len() as int).drop_first());
            }
            o
        } else {
            aborted_outcome()
        };
        terminate = terminate && had && o.terminate;
        let c = &calls[i];
        let ghost before = parts@;
        parts.push(ToolPart::ToolResult {
            tool_call_id: c.tool_call_id.clone(),
            tool_name: c.tool_name.clone(),
            output: o.output,
            provider_options: None,
        });
        proof {
            assert forall|k: int| 0 <= k < i + 1 implies part_for(calls@, all, k, #[trigger] parts@[k]) by {
                if k < i {
                    assert(parts@[k] == before[k]);
                }
            }
        }
        i = i + 1;
    }
    let ghost before = parts@;
    let mut extra = approval_parts;
    let ghost ap = extra@;
    parts.append(&mut extra);
    proof {
        assert(parts@.subrange(n as int, parts@.len() as int) =~= ap);
        assert forall|k: int| 0 <= k < n implies part_for(calls@, all, k, #[trigger] parts@[k]) by {
            assert(parts@[k] == before[k]);
        }
    }
    ToolBatch { message: Some(Message::tool(parts)), has_calls: true, terminate }
}

/// The outcomes of a batch whose response was cut at the length limit: one
/// not-executed result per call, in call order.
pub fn truncated_outcomes(calls: &Vec<LocalCall>) -> (r: Vec<ToolOutcome>)
    ensures
        r@.len() == calls@.len(),
        forall|k: int| 0 <= k < calls@.len() ==> {
            &&& #[trigger] r@[k].output is ErrorText
            &&& r@[k].output->ErrorText_value@ == truncated_text(calls@[k].tool_name@)
            &&& r@[k].output->ErrorText_provider_options is None
            &&& !r@[k].terminate
        },
{
    let mut r: Vec<ToolOutcome> = Vec::new();
    let mut i: usize = 0;
    while i < calls.len()
        invariant
            i <= calls@.len(),
            r@.len() == i,
            forall|k: int| 0 <= k < i ==> {
                &&& #[trigger] r@[k].output is ErrorText
                &&& r@[k].output->ErrorText_value@ == truncated_text(calls@[k].tool_name@)
                &&& r@[k].output->ErrorText_provider_options is None
                &&& !r@[k].terminate
            },
        decreases calls@.len() - i,
    {
        r.push(truncated_outcome(&calls[i]));
        i = i + 1;
    }
    r
}

} // verus!

//! The decisions of one model request: whether the response is usable,
//! whether a failure is retried, what an interrupted response keeps, and
//! the events for tool calls whose input is complete.

use vstd::prelude::*;
use vstd::string::StringExecFns;
use crate::context::{parse_tool_input, tool_input_text};
use crate::event::AgentEvent;
use crate::host::ApprovalRequest;
use crate::message::{copy_opt, Message, UnifiedFinishReason};
use crate::stream::{standalone_parts, GenerateResult, ModelError, OutputContent};

verus! {

/// Whether a finished stream is a usable response: a stream that ended
/// without a finish reason is a (retryable) stream error, an `error` finish
/// reason is a failure carrying the provider's text.
pub open spec fn finish_check(result: GenerateResult, r: Result<GenerateResult, ModelError>) -> bool {
    match result.finish_reason.unified {
        UnifiedFinishReason::Unknown => r matches Err(ModelError::StreamError { message }) && message@ == "模型流未正常收尾"@,
        UnifiedFinishReason::Error => r matches Err(ModelError::Other(m)) && m@ == match result.finish_reason.raw {
            Some(raw) => raw@,
            None => "模型生成失败"@,
        },
        _ => r == Ok::<GenerateResult, ModelError>(result),
    }
}

/// A finished stream is the response itself, unchanged, whenever the model
/// finished for a reason: it stopped, hit the length limit, was filtered,
/// asked for tools, or gave another reason. Only a stream that never
/// finished (`Unknown`) or finished in error (`Error`) is a failed attempt,
/// and a failed attempt is never a response.
pub proof fn law_finished_streams_are_responses(result: GenerateResult, r: Result<GenerateResult, ModelError>)
    requires
        finish_check(result, r),
    ensures
        (result.finish_reason.unified == UnifiedFinishReason::Stop
            || result.finish_reason.unified == UnifiedFinishReason::Length
            || result.finish_reason.unified == UnifiedFinishReason::ContentFilter
            || result.finish_reason.unified == UnifiedFinishReason::ToolCalls
            || result.finish_reason.unified == UnifiedFinishReason::Other) ==> r == Ok::<GenerateResult, ModelError>(result),
        (result.finish_reason.unified == UnifiedFinishReason::Unknown
            || result.finish_reason.unified == UnifiedFinishReason::Error) ==> r is Err,
        result.finish_reason.unified == UnifiedFinishReason::Unknown ==> (r is Err && r->Err_0 is StreamError),
        result.finish_reason.unified == UnifiedFinishReason::Error ==> (r is Err && r->Err_0 is Other),
{
}

/// Turns an aggregated stream into a response, or the error it stands for.
pub fn check_finish(result: GenerateResult) -> (r: Result<GenerateResult, ModelError>)
    ensures
        finish_check(result, r),
{
    match result.finish_reason.unified {
        UnifiedFinishReason::Unknown => Err(ModelError::StreamError { message: String::from_str("模型流未正常收尾") }),
        UnifiedFinishReason::Error => {
            let text = match &result.finish_reason.raw {
                Some(raw) => raw.clone(),
                None => String::from_str("模型生成失败"),
            };
            Err(ModelError::Other(text))
        },
        _ => Ok(result),
    }
}

/// The attempt number of the next retry, or `None` when the failure is final:
/// not retryable, or `max_retries` retries already made.
pub fn next_attempt(error: &ModelError, attempt: u32, max_retries: u32) -> (r: Option<u32>)
    ensures
        r is None <==> (!error.spec_retryable() || attempt >= max_retries),
        r matches Some(n) ==> n == attempt + 1,
{
    if !error.is_retryable() || attempt >= max_retries {
        None
    } else {
        Some(attempt + 1)
    }
}

/// The event announcing a retry of this step.
pub fn retry_event(step_index: usize, error: &ModelError) -> (e: AgentEvent)
    ensures
        e is StepRetry,
        e->StepRetry_step_index == step_index,
        e->StepRetry_reason is Some,
        e->StepRetry_reason->0@ == error.spec_text(),
{
    AgentEvent::StepRetry { step_index, reason: Some(error.text()) }
}

/// What an interrupted response keeps: its text, reasoning and files, as an
/// assistant message; `None` when there is none of these.
pub fn partial_assistant(result: GenerateResult) -> (r: Option<Message>)
    ensures
        standalone_parts(result.content@).len() == 0 ==> r is None,
        standalone_parts(result.content@).len() > 0 ==> {
            &&& r is Some
            &&& r->0 is Assistant
            &&& r->0->Assistant_content@ == standalone_parts(result.content@)
            &&& r->0->Assistant_provider_options == result.provider_metadata
        },
{
    let GenerateResult { content, provider_metadata, .. } = result;
    let ghost all = content@;
    let mut rest = content;
    let mut parts: Vec<crate::message::AssistantPart> = Vec::new();
    let n = rest.len();
    let mut i: usize = 0;
    while i < n
        invariant
            n == all.len(),
            i <= n,
            rest@ == all.subrange(i as int, n as int),
            parts@ == standalone_parts(all.take(i as int)),
        decreases n - i,
    {
        let c = rest.remove(0);
        proof {
            assert(c == all[i as int]);
            assert(all.take(i + 1).drop_last() == all.take(i as int));
            assert(all.subrange(i + 1, n as int) == all.subrange(i as int, n as int).drop_first());
        }
        let keep = match &c {
            OutputContent::Text { .. } | OutputContent::Reasoning { .. } | OutputContent::File { .. }
            | OutputContent::ReasoningFile { .. } => true,
            _ => false,
        };
        if keep {
            match c.into_assistant_part() {
                Some(p) => parts.push(p),
                None => {},
            }
        }
        i = i + 1;
    }
    proof {
        assert(all.take(n as int) == all);
    }
    if parts.len() == 0 {
        None
    } else {
        Some(Message::Assistant { content: parts, provider_options: provider_metadata })
    }
}

/// The index of the first tool call with this id in a response.
pub open spec fn first_call_with_id(content: Seq<OutputContent>, id: Seq<char>, r: Option<usize>) -> bool {
    match r {
        Some(i) => i < content.len() && content[i as int] is ToolCall
            && content[i as int]->ToolCall_tool_call_id@ == id
            && forall|j: int| 0 <= j < i ==> !(#[trigger] content[j] is ToolCall && content[j]->ToolCall_tool_call_id@ == id),
        None => forall|j: int| 0 <= j < content.len() ==> !(#[trigger] content[j] is ToolCall && content[j]->ToolCall_tool_call_id@ == id),
    }
}

/// Finds the first tool call with this id.
pub fn find_call(content: &Vec<OutputContent>, tool_call_id: &str) -> (r: Option<usize>)
    ensures
        first_call_with_id(content@, tool_call_id@, r),
{
    let key = String::from_str(tool_call_id);
    let mut i: usize = 0;
    while i < content.len()
        invariant
            i <= content.len(),
            key@ == tool_call_id@,
            forall|j: int| 0 <= j < i ==> !(#[trigger] content@[j] is ToolCall && content@[j]->ToolCall_tool_call_id@ == tool_call_id@),
        decreases content.len() - i,
    {
        match &content[i] {
            OutputContent::ToolCall { tool_call_id: id, .. } => {
                if *id == key {
                    return Some(i);
                }
            },
            _ => {},
        }
        i = i + 1;
    }
    None
}

/// Records `id` as announced; `false` when it already was. No id is recorded twice.
pub fn mark_announced(announced: &mut Vec<String>, id: &str) -> (fresh: bool)
    requires
        forall|i: int, j: int| 0 <= i < j < old(announced)@.len() ==> old(announced)@[i]@ != old(announced)@[j]@,
    ensures
        fresh == !(exists|i: int| 0 <= i < old(announced)@.len() && #[trigger] old(announced)@[i]@ == id@),
        fresh ==> final(announced)@.len() == old(announced)@.len() + 1
            && final(announced)@.subrange(0, old(announced)@.len() as int) == old(announced)@
            && final(announced)@.last()@ == id@,
        !fresh ==> final(announced)@ == old(announced)@,
        forall|i: int, j: int| 0 <= i < j < final(announced)@.len() ==> final(announced)@[i]@ != final(announced)@[j]@,
{
    let key = String::from_str(id);
    let mut i: usize = 0;
    while i < announced.len()
        invariant
            i <= announced.len(),
            announced@ == old(announced)@,
            forall|a: int, b: int| 0 <= a < b < old(announced)@.len() ==> old(announced)@[a]@ != old(announced)@[b]@,
            key@ == id@,
            forall|j: int| 0 <= j < i ==> #[trigger] announced@[j]@ != id@,
        decreases announced.len() - i,
    {
        if announced[i] == key {
            return false;
        }
        i = i + 1;
    }
    announced.push(key);
    proof {
        assert(announced@.subrange(0, old(announced)@.len() as int) =~= old(announced)@);
    }
    true
}

/// The event for a provider-executed call whose input is complete: the
/// input is the call's raw input as JSON text.
pub open spec fn is_provider_input_event(call: OutputContent, e: AgentEvent) -> bool {
    &&& e is ToolInputAvailable
    &&& e->ToolInputAvailable_tool_call_id == call->ToolCall_tool_call_id
    &&& e->ToolInputAvailable_tool_name == call->ToolCall_tool_name
    &&& tool_input_text(call->ToolCall_input@, e->ToolInputAvailable_input@)
    &&& e->ToolInputAvailable_dynamic == call->ToolCall_dynamic
    &&& e->ToolInputAvailable_provider_executed
    &&& e->ToolInputAvailable_title is None
    &&& e->ToolInputAvailable_tool_metadata is None
    &&& e->ToolInputAvailable_provider_metadata == call->ToolCall_provider_metadata
}

/// The event for a local call whose input is complete, from the check of
/// its input: available with the checked input and the tool's title, or an
/// input error with the raw input.
pub open spec fn local_event(call: OutputContent, checked: Result<(Option<String>, String), String>) -> AgentEvent {
    match checked {
        Ok((title, value)) => AgentEvent::ToolInputAvailable {
            tool_call_id: call->ToolCall_tool_call_id,
            tool_name: call->ToolCall_tool_name,
            input: value,
            dynamic: call->ToolCall_dynamic,
            provider_executed: false,
            title,
            tool_metadata: None,
            provider_metadata: call->ToolCall_provider_metadata,
        },
        Err(error_text) => AgentEvent::ToolInputError {
            tool_call_id: call->ToolCall_tool_call_id,
            tool_name: call->ToolCall_tool_name,
            input: call->ToolCall_input,
            error_text,
            dynamic: call->ToolCall_dynamic,
            provider_executed: false,
            title: None,
            tool_metadata: None,
            provider_metadata: call->ToolCall_provider_metadata,
        },
    }
}

/// The event for a provider-executed tool call whose input is complete.
pub fn provider_input_event(call: &OutputContent) -> (e: AgentEvent)
    requires
        call is ToolCall,
    ensures
        is_provider_input_event(*call, e),
{
    match call {
        OutputContent::ToolCall { tool_call_id, tool_name, input, dynamic, provider_metadata, .. } =>
            AgentEvent::ToolInputAvailable {
                tool_call_id: tool_call_id.clone(),
                tool_name: tool_name.clone(),
                input: parse_tool_input(input.as_str()),
                dynamic: *dynamic,
                provider_executed: true,
                title: None,
                tool_metadata: None,
                provider_metadata: copy_opt(provider_metadata),
            },
        _ => AgentEvent::RunAbort { reason: None },
    }
}

/// The event for a local tool call whose input is complete: available with
/// the checked input and the tool's title, or an input error with the raw input.
pub fn local_input_event(call: &OutputContent, checked: Result<(Option<String>, String), String>) -> (e: AgentEvent)
    requires
        call is ToolCall,
    ensures
        e == local_event(*call, checked),
{
    match call {
        OutputContent::ToolCall { tool_call_id, tool_name, input, dynamic, provider_metadata, .. } => match checked {
            Ok((title, value)) => AgentEvent::ToolInputAvailable {
                tool_call_id: tool_call_id.clone(),
                tool_name: tool_name.clone(),
                input: value,
                dynamic: *dynamic,
                provider_executed: false,
                title,
                tool_metadata: None,
                provider_metadata: copy_opt(provider_metadata),
            },
            Err(error_text) => AgentEvent::ToolInputError {
                tool_call_id: tool_call_id.clone(),
                tool_name: tool_name.clone(),
                input: input.clone(),
                error_text,
                dynamic: *dynamic,
                provider_executed: false,
                title: None,
                tool_metadata: None,
                provider_metadata: copy_opt(provider_metadata),
            },
        },
        _ => AgentEvent::RunAbort { reason: None },
    }
}

/// Whether `id` is among the announced ids.
pub open spec fn was_announced(announced: Seq<String>, id: Seq<char>) -> bool {
    exists|i: int| 0 <= i < announced.len() && #[trigger] announced[i]@ == id
}

/// What announcing the input of the tool call `tool_call_id` gives, once per
/// model request: nothing when no call has that id or it was announced
/// already; otherwise the id is recorded and the event is the provider's
/// input event, or the local one built from `checked`, the check of a local
/// call's input (which the caller makes with the tool).
pub fn announce(
    content: &Vec<OutputContent>,
    announced: &mut Vec<String>,
    tool_call_id: &str,
    checked: Option<Result<(Option<String>, String), String>>,
) -> (r: Option<AgentEvent>)
    requires
        forall|i: int, j: int| 0 <= i < j < old(announced)@.len() ==> old(announced)@[i]@ != old(announced)@[j]@,
        forall|k: int| #![trigger content@[k]] first_call_with_id(content@, tool_call_id@, Some(k as usize))
            && 0 <= k < content@.len() && !content@[k]->ToolCall_provider_executed ==> checked is Some,
    ensures
        forall|i: int, j: int| 0 <= i < j < final(announced)@.len() ==> final(announced)@[i]@ != final(announced)@[j]@,
        exists|found: Option<usize>| #[trigger] first_call_with_id(content@, tool_call_id@, found) && match found {
            None => r is None && final(announced)@ == old(announced)@,
            Some(i) => if was_announced(old(announced)@, tool_call_id@) {
                r is None && final(announced)@ == old(announced)@
            } else {
                &&& final(announced)@.len() == old(announced)@.len() + 1
                &&& final(announced)@.drop_last() == old(announced)@
                &&& final(announced)@.last()@ == tool_call_id@
                &&& if content@[i as int]->ToolCall_provider_executed {
                    r matches Some(e) && is_provider_input_event(content@[i as int], e)
                } else {
                    checked matches Some(c) && r == Some(local_event(content@[i as int], c))
                }
            },
        },
{
    let found = find_call(content, tool_call_id);
    match found {
        None => None,
        Some(i) => {
            let fresh = mark_announced(announced, tool_call_id);
            if !fresh {
                return None;
            }
            proof {
                assert(announced@.drop_last() =~= old(announced)@);
            }
            let call = &content[i];
            match call {
                OutputContent::ToolCall { provider_executed, .. } => {
                    if *provider_executed {
                        Some(provider_input_event(call))
                    } else {
                        match checked {
                            Some(c) => Some(local_input_event(call, c)),
                            None => None,
                        }
                    }
                },
                _ => None,
            }
        },
    }
}

/// The approval request of a provider-side approval: the tool name and
/// input come from the first tool call with that id (empty name and `null`
/// input when there is none).
pub fn approval_request_for(content: &Vec<OutputContent>, approval_id: &str, tool_call_id: &str) -> (r: ApprovalRequest)
    ensures
        r.approval_id@ == approval_id@,
        r.tool_call_id@ == tool_call_id@,
        r.provider_executed,
        exists|found: Option<usize>| #[trigger] first_call_with_id(content@, tool_call_id@, found) && match found {
            Some(i) => r.tool_name == content@[i as int]->ToolCall_tool_name
                && tool_input_text(content@[i as int]->ToolCall_input@, r.input@),
            None => r.tool_name@ == Seq::<char>::empty() && r.input@ == "null"@,
        },
{
    let found = find_call(content, tool_call_id);
    let (tool_name, input) = match found {
        Some(i) => match &content[i] {
            OutputContent::ToolCall { tool_name, input, .. } => (tool_name.clone(), parse_tool_input(input.as_str())),
            _ => (String::new(), String::from_str("null")),
        },
        None => (String::new(), String::from_str("null")),
    };
    ApprovalRequest {
        approval_id: String::from_str(approval_id),
        tool_call_id: String::from_str(tool_call_id),
        tool_name,
        input,
        provider_executed: true,
    }
}

/// The event that raises an approval request.
pub fn approval_request_event(request: &ApprovalRequest, reason: Option<String>, descriptor: Option<String>) -> (e: AgentEvent)
    ensures
        e == (AgentEvent::ToolApprovalRequest {
            approval_id: request.approval_id,
            tool_call_id: request.tool_call_id,
            tool_name: request.tool_name,
            input: request.input,
            approval_descriptor: descriptor,
            reason,
            is_automatic: None,
            signature: None,
        }),
{
    AgentEvent::ToolApprovalRequest {
        approval_id: request.approval_id.clone(),
        tool_call_id: request.tool_call_id.clone(),
        tool_name: request.tool_name.clone(),
        input: request.input.clone(),
        approval_descriptor: descriptor,
        reason,
        is_automatic: None,
        signature: None,
    }
}

} // verus!

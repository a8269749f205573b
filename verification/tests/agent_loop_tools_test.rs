//! Tool batches: lookup and validation, decisions, approvals, truncation,
//! termination, ordering, progress, aborts and provider approvals.

use zach_agent::agent_loop::batch::{
    aborted_outcome, approval_outcome, approval_response_event, execution_outcome, finish_batch,
    local_approval_request, local_calls, plan_batch, prepare_plan, progress_event, provider_approval_answer,
    provider_approvals, settle_event, truncated_outcome, truncated_outcomes, BatchKind, LocalCall, PreparePlan,
};
use zach_agent::agent_loop::step::{
    announce, approval_request_event, check_finish, find_call, local_input_event, mark_announced, next_attempt,
    partial_assistant, provider_input_event, retry_event,
};
use zach_agent::context::{build_prompt, parse_tool_input, validate_call};
use zach_agent::message::{FinishReason, Message, ToolPart, ToolResultOutput, UnifiedFinishReason, Usage};
use zach_agent::stream::{GenerateResult, ModelError, OutputContent};
use zach_agent::{
    AgentEvent, ApprovalDecision, ToolCallDecision, ToolError, ToolExecutionMode, ToolOutcome, ToolSpec,
};

fn spec(name: &str, mode: Option<ToolExecutionMode>) -> ToolSpec {
    ToolSpec { name: name.into(), title: None, execution_mode: mode }
}

fn call(id: &str, name: &str, input: &str, provider_executed: bool) -> OutputContent {
    OutputContent::ToolCall {
        tool_call_id: id.into(),
        tool_name: name.into(),
        input: input.into(),
        provider_executed,
        dynamic: false,
        provider_metadata: None,
    }
}

fn local(id: &str, name: &str) -> LocalCall {
    LocalCall { tool_call_id: id.into(), tool_name: name.into(), raw_input: "{}".into() }
}

#[test]
fn batch_unknown_tools_and_malformed_input_report_input_errors() {
    let tools = vec![spec("echo", None)];
    for (name, input, expected) in [("missing", "{}", "不存在"), ("echo", "{bad", "合法 JSON")] {
        let err = validate_call(&tools, name, input).unwrap_err();
        assert!(err.contains(expected), "{err}");
        let event = local_input_event(&call("c1", name, input, false), Err(err));
        assert!(matches!(event, AgentEvent::ToolInputError { input: raw, .. } if raw == input));
    }
    assert_eq!(validate_call(&tools, "echo", "  ").unwrap(), (0, "{}".to_string()));
    assert_eq!(validate_call(&tools, "echo", " {\"x\":1} ").unwrap(), (0, "{\"x\":1}".to_string()));
    assert_eq!(validate_call(&tools, "missing", "{}").unwrap_err(), "工具 missing 不存在");
}

#[test]
fn batch_failing_tools_emit_output_errors() {
    let outcome = execution_outcome(Err(ToolError::failed("炸了".into())));
    assert_eq!(outcome.output, ToolResultOutput::error_text("炸了".into()));
    let event = settle_event(&local("c1", "boom"), &outcome);
    assert!(matches!(event, AgentEvent::ToolOutputError { error_text, .. } if error_text == "炸了"));

    let invalid = execution_outcome(Err(ToolError::invalid_input("缺字段".into())));
    assert_eq!(invalid.output, ToolResultOutput::error_text("工具入参无效: 缺字段".into()));
    let fine = execution_outcome(Ok(ToolOutcome::text("ok".into())));
    assert_eq!(fine, ToolOutcome::text("ok".into()));
}

#[test]
fn batch_before_hook_can_deny_and_after_hook_can_rewrite() {
    let plan = prepare_plan(ToolCallDecision::deny("禁止".into()), false);
    let PreparePlan::Settle(outcome) = plan else { panic!("应直接得出结果") };
    assert_eq!(outcome.output, ToolResultOutput::denied(Some("禁止".into())));
    assert!(!outcome.terminate);
    let event = settle_event(&local("c1", "echo"), &outcome);
    assert_eq!(event, AgentEvent::ToolOutputDenied { tool_call_id: "c1".into(), reason: Some("禁止".into()) });

    let terminating = prepare_plan(ToolCallDecision::Deny { reason: None, terminate: true }, true);
    assert!(matches!(terminating, PreparePlan::Settle(ToolOutcome { terminate: true, .. })));
    assert_eq!(prepare_plan(ToolCallDecision::Allow, false), PreparePlan::Proceed);
}

#[test]
fn batch_approval_is_requested_and_honored() {
    assert_eq!(
        prepare_plan(ToolCallDecision::Allow, true),
        PreparePlan::Ask { reason: None, descriptor: None }
    );
    assert_eq!(approval_outcome(ApprovalDecision::approve()), None);
    assert_eq!(
        approval_outcome(ApprovalDecision::deny("不批".into())),
        Some(ToolOutcome::new(ToolResultOutput::denied(Some("不批".into()))))
    );

    let plan = prepare_plan(ToolCallDecision::require_approval("高风险".into()), false);
    let PreparePlan::Ask { reason, descriptor } = plan else { panic!("应请求审批") };
    let request = local_approval_request("approval_1".into(), &local("c1", "guarded"), "{\"p\":1}".into());
    assert!(!request.provider_executed);
    let event = approval_request_event(&request, reason, descriptor);
    assert!(matches!(&event, AgentEvent::ToolApprovalRequest { reason: Some(r), input, .. } if r == "高风险" && input == "{\"p\":1}"));

    let response = approval_response_event("approval_1".into(), &ApprovalDecision::approve(), false);
    assert_eq!(
        response,
        AgentEvent::ToolApprovalResponse {
            approval_id: "approval_1".into(),
            approved: true,
            reason: None,
            provider_executed: false,
            provider_metadata: None
        }
    );
}

#[test]
fn batch_truncated_responses_do_not_execute_tools() {
    let content = vec![call("c1", "guarded", "{\"p\":", false)];
    let plan = plan_batch(&content, true, ToolExecutionMode::Parallel, &vec![spec("guarded", None)]);
    assert_eq!(plan.kind, BatchKind::Truncated);
    let outcome = truncated_outcome(&plan.calls[0]);
    assert!(matches!(&outcome.output, ToolResultOutput::ErrorText { value, .. } if value.contains("长度上限") && value.contains("guarded")));
}

#[test]
fn batch_terminates_only_when_every_tool_asks_to() {
    let calls = vec![local("a", "stop"), local("b", "stop")];
    let all = finish_batch(
        &calls,
        vec![ToolOutcome::text("好".into()).with_terminate(true), ToolOutcome::text("好".into()).with_terminate(true)],
        vec![],
    );
    assert!(all.terminate && all.has_calls);
    let mixed = finish_batch(
        &calls,
        vec![ToolOutcome::text("好".into()).with_terminate(true), ToolOutcome::text("继续".into())],
        vec![],
    );
    assert!(!mixed.terminate);
    let none = finish_batch(&vec![], vec![], vec![]);
    assert!(!none.terminate);
}

#[test]
fn batch_parallel_tools_run_concurrently_but_results_keep_source_order() {
    let content = vec![call("a", "slow", "{}", false), call("b", "fast", "{}", false)];
    let tools = vec![spec("slow", None), spec("fast", None)];
    let plan = plan_batch(&content, false, ToolExecutionMode::Parallel, &tools);
    assert_eq!(plan.kind, BatchKind::Parallel);
    let batch = finish_batch(
        &plan.calls,
        vec![ToolOutcome::text("slow".into()), ToolOutcome::text("fast".into())],
        vec![],
    );
    let Some(Message::Tool { content }) = batch.message else { panic!("应为工具消息") };
    assert!(matches!(&content[0], ToolPart::ToolResult { tool_call_id, .. } if tool_call_id == "a"));
    assert!(matches!(&content[1], ToolPart::ToolResult { tool_call_id, .. } if tool_call_id == "b"));
}

#[test]
fn batch_sequential_mode_runs_tools_one_by_one() {
    let content = vec![call("a", "slow", "{}", false), call("b", "fast", "{}", false)];
    let tools = vec![spec("slow", None), spec("fast", None)];
    let plan = plan_batch(&content, false, ToolExecutionMode::Sequential, &tools);
    assert_eq!(plan.kind, BatchKind::Sequential);
    let tools = vec![spec("slow", None), spec("fast", Some(ToolExecutionMode::Sequential))];
    let plan = plan_batch(&content, false, ToolExecutionMode::Parallel, &tools);
    assert_eq!(plan.kind, BatchKind::Sequential);
    let plan = plan_batch(&vec![], false, ToolExecutionMode::Parallel, &tools);
    assert_eq!(plan.kind, BatchKind::Empty);
}

#[test]
fn batch_progress_reports_become_preliminary_outputs() {
    let event = progress_event(&local("c1", "work"), ToolResultOutput::text("50%".into()));
    assert!(matches!(event, AgentEvent::ToolOutputAvailable { preliminary: true, output: ToolResultOutput::Text { value, .. }, .. } if value == "50%"));
}

#[test]
fn batch_abort_during_tool_execution_pairs_every_call_with_a_result() {
    assert_eq!(aborted_outcome(), ToolOutcome::error("操作已中止".into()));
    let calls = vec![local("c1", "hang")];
    let batch = finish_batch(&calls, vec![aborted_outcome()], vec![]);
    let Some(Message::Tool { content }) = batch.message else { panic!("应为工具消息") };
    assert_eq!(content.len(), 1);
}

#[test]
fn batch_provider_approval_requests_are_answered_in_the_next_request() {
    let content = vec![
        call("p1", "web_search", "{\"q\":\"rust\"}", true),
        OutputContent::ToolApprovalRequest { approval_id: "a1".into(), tool_call_id: "p1".into(), provider_metadata: None },
    ];
    assert!(local_calls(&content).is_empty());
    let approvals = provider_approvals(&content);
    assert_eq!(approvals.len(), 1);
    assert_eq!(approvals[0].tool_name, "web_search");
    assert_eq!(approvals[0].input, "{\"q\":\"rust\"}");
    assert!(approvals[0].provider_executed);

    let available = provider_input_event(&content[0]);
    assert!(matches!(available, AgentEvent::ToolInputAvailable { provider_executed: true, .. }));

    let (event, part) = provider_approval_answer("a1".into(), ApprovalDecision::approve());
    assert!(matches!(event, AgentEvent::ToolApprovalResponse { provider_executed: true, approved: true, .. }));
    assert!(matches!(&part, ToolPart::ToolApprovalResponse { approval_id, approved: true, .. } if approval_id == "a1"));

    let plan = plan_batch(&content, false, ToolExecutionMode::Parallel, &vec![]);
    assert_eq!(plan.kind, BatchKind::Parallel);
    let batch = finish_batch(&plan.calls, vec![], vec![part]);
    assert!(batch.has_calls);
    let Some(Message::Tool { content }) = batch.message else { panic!("应为工具消息") };
    assert!(matches!(&content[0], ToolPart::ToolApprovalResponse { approval_id, .. } if approval_id == "a1"));

    let missing = zach_agent::agent_loop::step::approval_request_for(&content_without_call(), "a2", "zz");
    assert_eq!(missing.tool_name, "");
    assert_eq!(missing.input, "null");
}

fn content_without_call() -> Vec<OutputContent> {
    vec![OutputContent::Text { text: "t".into(), provider_metadata: None }]
}

#[test]
fn provider_inputs_are_read_as_json_or_kept_as_text() {
    assert_eq!(parse_tool_input("  "), "{}");
    assert_eq!(parse_tool_input(" [1, 2] "), "[1, 2]");
    assert_eq!(parse_tool_input("not json"), "\"not json\"");
}

#[test]
fn each_tool_call_is_announced_once() {
    let mut announced = Vec::new();
    assert!(mark_announced(&mut announced, "c1"));
    assert!(!mark_announced(&mut announced, "c1"));
    assert!(mark_announced(&mut announced, "c2"));
    assert_eq!(announced, ["c1", "c2"]);

    let content = vec![call("c1", "a", "{}", false), call("c1", "b", "{}", false)];
    assert_eq!(find_call(&content, "c1"), Some(0));
    assert_eq!(find_call(&content, "c9"), None);

    let ok = local_input_event(&content[0], Ok((Some("标题".into()), "{}".into())));
    assert!(matches!(ok, AgentEvent::ToolInputAvailable { title: Some(t), provider_executed: false, .. } if t == "标题"));
}

#[test]
fn announcing_emits_one_event_per_call() {
    let content = vec![call("c1", "echo", "{bad", false), call("p1", "web_search", "{\"q\":1}", true)];
    let mut announced = Vec::new();
    let first = announce(&content, &mut announced, "c1", Some(Err("工具入参不是合法 JSON".into())));
    assert_eq!(
        first,
        Some(AgentEvent::ToolInputError {
            tool_call_id: "c1".into(),
            tool_name: "echo".into(),
            input: "{bad".into(),
            error_text: "工具入参不是合法 JSON".into(),
            dynamic: false,
            provider_executed: false,
            title: None,
            tool_metadata: None,
            provider_metadata: None,
        })
    );
    assert_eq!(announce(&content, &mut announced, "c1", Some(Err("again".into()))), None);
    let provider = announce(&content, &mut announced, "p1", None);
    assert!(matches!(provider, Some(AgentEvent::ToolInputAvailable { provider_executed: true, input, .. }) if input == "{\"q\":1}"));
    assert_eq!(announce(&content, &mut announced, "missing", None), None);
    assert_eq!(announced, ["c1", "p1"]);
}

fn result(unified: UnifiedFinishReason, raw: Option<&str>) -> GenerateResult {
    GenerateResult {
        content: vec![
            OutputContent::Text { text: "部分".into(), provider_metadata: None },
            call("c1", "x", "{", false),
        ],
        finish_reason: FinishReason { unified, raw: raw.map(String::from) },
        usage: Usage::default(),
        provider_metadata: None,
    }
}

#[test]
fn unfinished_and_failed_streams_become_errors() {
    assert_eq!(
        check_finish(result(UnifiedFinishReason::Unknown, None)).unwrap_err(),
        ModelError::StreamError { message: "模型流未正常收尾".into() }
    );
    assert_eq!(
        check_finish(result(UnifiedFinishReason::Error, Some("overloaded"))).unwrap_err(),
        ModelError::Other("overloaded".into())
    );
    assert_eq!(
        check_finish(result(UnifiedFinishReason::Error, None)).unwrap_err(),
        ModelError::Other("模型生成失败".into())
    );
    assert!(check_finish(result(UnifiedFinishReason::Stop, None)).is_ok());
}

#[test]
fn retries_stop_at_the_policy_limit() {
    let busy = ModelError::RateLimit("慢点".into());
    assert_eq!(next_attempt(&busy, 0, 2), Some(1));
    assert_eq!(next_attempt(&busy, 1, 2), Some(2));
    assert_eq!(next_attempt(&busy, 2, 2), None);
    assert_eq!(next_attempt(&ModelError::Authentication("无效".into()), 0, 2), None);
    assert_eq!(next_attempt(&ModelError::StreamError { message: "断开".into() }, 0, 1), Some(1));
    let event = retry_event(3, &busy);
    assert!(matches!(event, AgentEvent::StepRetry { step_index: 3, reason: Some(r) } if r.contains("慢点")));
}

#[test]
fn an_interrupted_response_keeps_only_standalone_content() {
    let kept = partial_assistant(result(UnifiedFinishReason::Unknown, None)).unwrap();
    assert_eq!(kept, Message::assistant("部分"));
    let only_call = GenerateResult {
        content: vec![call("c1", "x", "{", false)],
        finish_reason: FinishReason::stop(),
        usage: Usage::default(),
        provider_metadata: None,
    };
    assert_eq!(partial_assistant(only_call), None);
}

#[test]
fn the_system_prompt_leads_the_request() {
    let prompt = build_prompt(&Some("你是助手".into()), vec![Message::user("你好")]);
    assert_eq!(prompt, vec![Message::system("你是助手"), Message::user("你好")]);
    let prompt = build_prompt(&Some(String::new()), vec![Message::user("你好")]);
    assert_eq!(prompt, vec![Message::user("你好")]);
    let prompt = build_prompt(&None, vec![]);
    assert!(prompt.is_empty());
}

#[test]
fn a_call_without_an_outcome_gets_the_abort_result() {
    let calls = vec![local("a", "one"), local("b", "two")];
    let batch = finish_batch(&calls, vec![ToolOutcome::text("好".into()).with_terminate(true)], vec![]);
    assert!(!batch.terminate);
    let Some(Message::Tool { content }) = batch.message else { panic!("应为工具消息") };
    assert_eq!(content.len(), 2);
    assert_eq!(
        content[1],
        ToolPart::ToolResult {
            tool_call_id: "b".into(),
            tool_name: "two".into(),
            output: ToolResultOutput::error_text("操作已中止".into()),
            provider_options: None,
        }
    );
}

#[test]
fn truncated_batches_give_one_refusal_per_call() {
    let calls = vec![local("a", "one"), local("b", "two")];
    let outcomes = truncated_outcomes(&calls);
    assert_eq!(outcomes.len(), 2);
    assert!(matches!(&outcomes[1].output, ToolResultOutput::ErrorText { value, .. } if value.contains("two") && value.contains("长度上限")));
}

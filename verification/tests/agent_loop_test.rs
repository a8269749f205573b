//! The scheduling of a run, driven step by step with scripted answers.

use std::collections::VecDeque;
use zach_agent::agent_loop::machine::check_continuable;
use zach_agent::message::{FinishReason, Message, ToolPart, ToolResultOutput, UnifiedFinishReason, Usage};
use zach_agent::stream::{GenerateResult, ModelError, OutputContent};
use zach_agent::{AgentError, AgentEvent, LoopAction, LoopInput, LoopMachine, RunOutput, ToolBatch, TurnDecision};

enum Answer {
    Done(GenerateResult),
    Aborted(Option<Message>),
    Failed(ModelError),
}

struct Sim {
    steering: VecDeque<Vec<Message>>,
    follow_up: VecDeque<Vec<Message>>,
    answers: VecDeque<Answer>,
    decisions: VecDeque<TurnDecision>,
    cancel_request_at_step: Option<usize>,
    events: Vec<AgentEvent>,
    host_messages: Vec<Message>,
    model_calls: usize,
    /// The committed messages at each model request.
    requests: Vec<Vec<Message>>,
}

impl Sim {
    fn new(answers: Vec<Answer>) -> Sim {
        Sim {
            steering: VecDeque::new(),
            follow_up: VecDeque::new(),
            answers: answers.into(),
            decisions: VecDeque::new(),
            cancel_request_at_step: None,
            events: Vec::new(),
            host_messages: Vec::new(),
            model_calls: 0,
            requests: Vec::new(),
        }
    }

    fn kinds(&self) -> Vec<&'static str> {
        self.events.iter().map(kind).collect()
    }
}

fn kind(e: &AgentEvent) -> &'static str {
    match e {
        AgentEvent::RunStart { .. } => "run-start",
        AgentEvent::RunFinish { .. } => "run-finish",
        AgentEvent::RunAbort { .. } => "run-abort",
        AgentEvent::RunError { .. } => "run-error",
        AgentEvent::StepStart { .. } => "step-start",
        AgentEvent::StepFinish { .. } => "step-finish",
        AgentEvent::StepRetry { .. } => "step-retry",
        _ => "other",
    }
}

fn text_result(text: &str) -> GenerateResult {
    GenerateResult {
        content: vec![OutputContent::Text { text: text.into(), provider_metadata: None }],
        finish_reason: FinishReason::stop(),
        usage: Usage::simple(10, 5),
        provider_metadata: None,
    }
}

fn call_result(id: &str, name: &str, input: &str) -> GenerateResult {
    GenerateResult {
        content: vec![OutputContent::ToolCall {
            tool_call_id: id.into(),
            tool_name: name.into(),
            input: input.into(),
            provider_executed: false,
            dynamic: false,
            provider_metadata: None,
        }],
        finish_reason: FinishReason { unified: UnifiedFinishReason::ToolCalls, raw: None },
        usage: Usage::simple(10, 5),
        provider_metadata: None,
    }
}

/// Runs the machine to its end, answering each action from the script.
fn drive(prompts: Vec<Message>, sim: &mut Sim) -> Result<RunOutput, AgentError> {
    let mut m = LoopMachine::new("run_1".into(), prompts);
    let mut input = LoopInput::Start;
    loop {
        assert!(m.accepts(&input));
        let action = m.next(input);
        input = match action {
            LoopAction::Emit(e) => {
                sim.events.push(e);
                LoopInput::Ack
            }
            LoopAction::Commit { from } => {
                for msg in &m.committed_messages()[from..] {
                    sim.host_messages.push(msg.clone());
                }
                LoopInput::Ack
            }
            LoopAction::PollSteering => LoopInput::Steering(sim.steering.pop_front().unwrap_or_default()),
            LoopAction::PollFollowUp => LoopInput::FollowUp(sim.follow_up.pop_front().unwrap_or_default()),
            LoopAction::PrepareNextTurn => LoopInput::NextTurnPrepared(Some(Vec::new())),
            LoopAction::PrepareRequest => LoopInput::RequestPrepared {
                cancelled: sim.cancel_request_at_step == Some(sim.model_calls),
            },
            LoopAction::RunStep { .. } => {
                sim.model_calls += 1;
                sim.requests.push(m.committed_messages().clone());
                match sim.answers.pop_front() {
                    Some(Answer::Done(r)) => LoopInput::StepCompleted(r),
                    Some(Answer::Aborted(p)) => LoopInput::StepAborted(p),
                    Some(Answer::Failed(e)) => LoopInput::StepFailed(e),
                    None => LoopInput::StepCompleted(text_result("（脚本已耗尽）")),
                }
            }
            LoopAction::RunToolBatch { truncated } => {
                let calls: Vec<(String, String)> = m
                    .step_content()
                    .iter()
                    .filter_map(|c| match c {
                        OutputContent::ToolCall { tool_call_id, tool_name, .. } => Some((tool_call_id.clone(), tool_name.clone())),
                        _ => None,
                    })
                    .collect();
                if calls.is_empty() {
                    LoopInput::BatchDone(ToolBatch { message: None, has_calls: false, terminate: false })
                } else {
                    let parts = calls
                        .into_iter()
                        .map(|(id, name)| ToolPart::ToolResult {
                            tool_call_id: id,
                            tool_name: name,
                            output: if truncated {
                                ToolResultOutput::error_text("截断".into())
                            } else {
                                ToolResultOutput::json("{}".into())
                            },
                            provider_options: None,
                        })
                        .collect();
                    LoopInput::BatchDone(ToolBatch { message: Some(Message::tool(parts)), has_calls: true, terminate: false })
                }
            }
            LoopAction::CheckCancelled => LoopInput::Cancellation { cancelled: false },
            LoopAction::FinishTurn => {
                LoopInput::TurnFinished(Some(sim.decisions.pop_front().unwrap_or(TurnDecision::Default)))
            }
            LoopAction::EmitRunFinish => {
                sim.events.push(AgentEvent::RunFinish { finish_reason: m.finish_reason().clone(), message_metadata: None });
                LoopInput::Ack
            }
            LoopAction::Done => return m.into_output(),
        };
    }
}

#[test]
fn machine_text_reply_emits_full_lifecycle() {
    let mut sim = Sim::new(vec![Answer::Done(text_result("你好呀"))]);
    let output = drive(vec![Message::user("你好")], &mut sim).unwrap();
    assert_eq!(sim.kinds(), ["run-start", "step-start", "step-finish", "run-finish"]);
    assert_eq!(output.messages, vec![Message::user("你好"), Message::assistant("你好呀")]);
    assert_eq!(sim.host_messages, output.messages);
    assert_eq!(output.steps, 1);
    assert!(!output.aborted);
    assert_eq!(output.usage.input_tokens.total, Some(10));
    assert_eq!(output.run_id, "run_1");
    assert_eq!(output.finish_reason, Some(FinishReason::stop()));
    assert_eq!(sim.requests, vec![vec![Message::user("你好")]]);
}

#[test]
fn machine_tool_results_feed_the_next_turn() {
    let mut sim = Sim::new(vec![Answer::Done(call_result("c1", "echo", r#"{"x":1}"#)), Answer::Done(text_result("完成"))]);
    let output = drive(vec![Message::user("你好")], &mut sim).unwrap();
    assert_eq!(sim.model_calls, 2);
    assert_eq!(output.steps, 2);
    assert_eq!(output.messages.len(), 4);
    let tool_message = Message::tool(vec![ToolPart::ToolResult {
        tool_call_id: "c1".into(),
        tool_name: "echo".into(),
        output: ToolResultOutput::json("{}".into()),
        provider_options: None,
    }]);
    assert_eq!(output.messages[2], tool_message);
    assert_eq!(sim.requests[1].last(), Some(&tool_message));
    assert_eq!(sim.requests[1], output.messages[..3].to_vec());
    assert_eq!(output.usage.input_tokens.total, Some(20));
    assert_eq!(output.usage.output_tokens.total, Some(10));
    assert!(sim.events.contains(&AgentEvent::StepStart { step_index: 1 }));
    assert!(sim.events.contains(&AgentEvent::StepFinish { step_index: 1 }));
}

#[test]
fn machine_steering_messages_are_injected_between_turns() {
    let mut sim = Sim::new(vec![Answer::Done(text_result("一")), Answer::Done(text_result("二"))]);
    sim.steering.extend([vec![], vec![Message::user("插队")]]);
    let output = drive(vec![Message::user("你好")], &mut sim).unwrap();
    assert_eq!(sim.model_calls, 2);
    assert_eq!(output.messages[2], Message::user("插队"));
    assert_eq!(sim.requests[1].last(), Some(&Message::user("插队")));
    assert_eq!(sim.kinds(), ["run-start", "step-start", "step-finish", "step-start", "step-finish", "run-finish"]);
}

#[test]
fn machine_follow_up_messages_continue_a_finished_run() {
    let mut sim = Sim::new(vec![Answer::Done(text_result("一")), Answer::Done(text_result("二"))]);
    sim.follow_up.push_back(vec![Message::user("追加")]);
    let output = drive(vec![Message::user("你好")], &mut sim).unwrap();
    assert_eq!(sim.model_calls, 2);
    assert_eq!(output.messages[2], Message::user("追加"));
    assert_eq!(output.messages.len(), 4);
    assert_eq!(sim.requests[1].last(), Some(&Message::user("追加")));
}

#[test]
fn machine_fatal_failures_emit_run_error_without_committing_the_step() {
    let mut sim = Sim::new(vec![Answer::Failed(ModelError::Authentication("无效".into()))]);
    let error = drive(vec![Message::user("你好")], &mut sim).unwrap_err();
    assert!(matches!(error, AgentError::Model(ModelError::Authentication(_))));
    assert_eq!(sim.kinds().last(), Some(&"run-error"));
    assert_eq!(sim.host_messages, vec![Message::user("你好")]);
    assert!(matches!(sim.events.last(), Some(AgentEvent::RunError { error_text }) if error_text.contains("鉴权失败")));
}

#[test]
fn machine_abort_mid_stream_keeps_generated_text() {
    let mut sim = Sim::new(vec![Answer::Aborted(Some(Message::assistant("部分")))]);
    let output = drive(vec![Message::user("你好")], &mut sim).unwrap();
    assert!(output.aborted);
    assert_eq!(output.messages.last(), Some(&Message::assistant("部分")));
    let kinds = sim.kinds();
    assert_eq!(kinds[kinds.len() - 2..], ["step-finish", "run-abort"]);
    assert_eq!(output.steps, 0);
}

#[test]
fn abort_before_the_request_closes_the_step() {
    let mut sim = Sim::new(vec![]);
    sim.cancel_request_at_step = Some(0);
    let output = drive(vec![Message::user("你好")], &mut sim).unwrap();
    assert!(output.aborted);
    assert_eq!(sim.kinds(), ["run-start", "step-start", "step-finish", "run-abort"]);
    assert_eq!(sim.model_calls, 0);
}

#[test]
fn machine_finish_turn_can_end_or_force_another_turn() {
    let mut sim = Sim::new(vec![Answer::Done(call_result("c1", "echo", "{}"))]);
    sim.decisions.push_back(TurnDecision::End);
    let output = drive(vec![Message::user("你好")], &mut sim).unwrap();
    assert_eq!(sim.model_calls, 1);
    assert_eq!(output.messages.len(), 3);
    assert_eq!(sim.kinds().last(), Some(&"run-finish"));

    let mut sim = Sim::new(vec![Answer::Done(text_result("一")), Answer::Done(text_result("二"))]);
    sim.decisions.push_back(TurnDecision::Continue);
    let output = drive(vec![Message::user("你好")], &mut sim).unwrap();
    assert_eq!(sim.model_calls, 2);
    assert_eq!(output.steps, 2);
    assert_eq!(output.messages[0], Message::user("你好"));
}

#[test]
fn machine_continue_requires_a_non_assistant_tail() {
    assert_eq!(check_continuable(&vec![]), Err(AgentError::NoMessages));
    assert_eq!(
        check_continuable(&vec![Message::user("问"), Message::assistant("答")]),
        Err(AgentError::CannotContinueFromAssistant)
    );
    assert_eq!(check_continuable(&vec![Message::user("问")]), Ok(()));

    let mut sim = Sim::new(vec![Answer::Done(text_result("继续"))]);
    let output = drive(vec![], &mut sim).unwrap();
    assert_eq!(output.messages, vec![Message::assistant("继续")]);
}

#[test]
fn unexpected_inputs_are_not_accepted() {
    let m = LoopMachine::new("r".into(), vec![]);
    assert!(!m.accepts(&LoopInput::Ack));
    assert!(m.accepts(&LoopInput::Start));
}

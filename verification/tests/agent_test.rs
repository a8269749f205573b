//! The agent's state: busy guard, reset, queues, continue, pending calls,
//! approvals and errors.

use zach_agent::agent::state::ContinuePlan;
use zach_agent::message::{Message, ToolResultOutput};
use zach_agent::{AgentError, AgentEvent, PendingQueue, QueueMode, SessionState, ToolExecutionMode};

type State = SessionState<u32, &'static str>;

fn state() -> State {
    SessionState::new(Some("你是助手".into()), vec![], QueueMode::OneAtATime, QueueMode::OneAtATime, ToolExecutionMode::Parallel)
}

#[test]
fn session_transcript_accumulates_across_runs() {
    let mut s = state();
    s.begin_run("run1").unwrap();
    s.push_message(Message::user("第一问"));
    s.push_message(Message::assistant("一"));
    s.finish_run();
    s.begin_run("run2").unwrap();
    s.push_message(Message::user("第二问"));
    s.push_message(Message::assistant("二"));
    s.finish_run();
    assert_eq!(
        *s.messages(),
        vec![Message::user("第一问"), Message::assistant("一"), Message::user("第二问"), Message::assistant("二")]
    );
    assert!(!s.is_running());
}

#[test]
fn session_busy_agent_rejects_new_runs_until_aborted() {
    let mut s = state();
    s.push_message(Message::user("你好"));
    s.begin_run("token").unwrap();
    assert!(s.is_running());
    assert_eq!(s.active(), &Some("token"));
    assert_eq!(s.begin_run("other"), Err(AgentError::Busy));
    assert!(matches!(s.continue_plan(), Err(AgentError::Busy)));
    assert_eq!(s.reset(), Err(AgentError::Busy));
    assert_eq!(s.messages().len(), 1);

    s.finish_run();
    assert!(!s.is_running());
    s.reset().unwrap();
    assert!(s.messages().is_empty());
}

#[test]
fn session_queue_mode_controls_how_many_messages_each_injection_takes() {
    for (mode, expected) in [(QueueMode::OneAtATime, 1), (QueueMode::All, 2)] {
        let mut s = state();
        s.set_steering_mode(mode);
        s.steer(Message::user("甲"));
        s.steer(Message::user("乙"));
        assert_eq!(s.peek_queued_messages().len(), expected);
        let taken = s.poll_steering(false);
        assert_eq!(taken.len(), expected);
        assert_eq!(taken[0], Message::user("甲"));
        assert_eq!(s.has_queued_messages(), expected == 1);
    }
}

#[test]
fn peek_prefers_steering_and_does_not_consume() {
    let mut s = state();
    s.follow_up(Message::user("追加"));
    assert_eq!(s.peek_queued_messages(), vec![Message::user("追加")]);
    s.steer(Message::user("插队"));
    assert_eq!(s.peek_queued_messages(), vec![Message::user("插队")]);
    assert!(s.has_queued_messages());
    assert!(s.poll_steering(true).is_empty());
    assert_eq!(s.poll_steering(false), vec![Message::user("插队")]);
    assert_eq!(s.poll_follow_up(), vec![Message::user("追加")]);
    assert!(!s.has_queued_messages());
    s.steer(Message::user("x"));
    s.follow_up(Message::user("y"));
    s.clear_queues();
    assert!(!s.has_queued_messages());
}

#[test]
fn pending_queue_is_first_in_first_out() {
    let mut q = PendingQueue::new(QueueMode::OneAtATime);
    assert!(q.is_empty());
    q.push(Message::user("1"));
    q.push(Message::user("2"));
    assert_eq!(q.drain(), vec![Message::user("1")]);
    q.set_mode(QueueMode::All);
    assert_eq!(q.mode(), QueueMode::All);
    q.push(Message::user("3"));
    assert_eq!(q.peek(), vec![Message::user("2"), Message::user("3")]);
    assert_eq!(q.drain(), vec![Message::user("2"), Message::user("3")]);
    assert!(q.drain().is_empty());
}

#[test]
fn session_continue_run_retries_after_failure_and_drains_queues_after_replies() {
    let mut s = state();
    assert!(matches!(s.continue_plan(), Err(AgentError::NoMessages)));
    s.push_message(Message::user("你好"));
    assert!(matches!(s.continue_plan(), Ok(ContinuePlan::FromTranscript)));
    s.push_message(Message::assistant("恢复了"));
    assert!(matches!(s.continue_plan(), Err(AgentError::CannotContinueFromAssistant)));
    s.follow_up(Message::user("再补充一点"));
    match s.continue_plan() {
        Ok(ContinuePlan::WithQueued(messages, false)) => assert_eq!(messages, vec![Message::user("再补充一点")]),
        _ => panic!("应取出追加消息"),
    }
    s.steer(Message::user("插队"));
    s.follow_up(Message::user("追加"));
    match s.continue_plan() {
        Ok(ContinuePlan::WithQueued(messages, true)) => assert_eq!(messages, vec![Message::user("插队")]),
        _ => panic!("应优先取出插队消息"),
    }
    assert!(s.has_queued_messages());
}

#[test]
fn pending_tool_calls_follow_the_events() {
    let mut s = state();
    s.begin_run("t").unwrap();
    let available = AgentEvent::ToolInputAvailable {
        tool_call_id: "c1".into(),
        tool_name: "probe".into(),
        input: "{}".into(),
        dynamic: false,
        provider_executed: false,
        title: None,
        tool_metadata: None,
        provider_metadata: None,
    };
    s.observe(&available);
    s.observe(&available);
    assert_eq!(*s.pending_tool_calls(), ["c1"]);
    s.observe(&AgentEvent::ToolOutputAvailable {
        tool_call_id: "c1".into(),
        output: ToolResultOutput::text("50%".into()),
        preliminary: true,
        dynamic: false,
        provider_executed: false,
        tool_metadata: None,
        provider_metadata: None,
    });
    assert_eq!(*s.pending_tool_calls(), ["c1"]);
    s.observe(&AgentEvent::ToolOutputDenied { tool_call_id: "c1".into(), reason: None });
    assert!(s.pending_tool_calls().is_empty());

    s.observe(&AgentEvent::RunError { error_text: "鉴权失败: 过期".into() });
    assert!(s.last_error().as_ref().unwrap().contains("鉴权失败"));
    s.finish_run();
    s.begin_run("t2").unwrap();
    assert!(s.last_error().is_none());
}

#[test]
fn session_approvals_are_answered_through_the_agent_handle() {
    let mut s = state();
    assert!(matches!(s.respond_target("nope"), Err(AgentError::ApprovalNotFound(id)) if id == "nope"));
    s.begin_run("t").unwrap();
    s.register_approval("approval_1".into(), 7);
    assert_eq!(s.pending_approvals(), ["approval_1"]);
    s.register_approval("approval_1".into(), 8);
    assert_eq!(s.pending_approvals(), ["approval_1"]);
    s.register_approval("approval_2".into(), 9);
    assert_eq!(s.respond_target("approval_1"), Ok(8));
    assert_eq!(s.pending_approvals(), ["approval_2"]);
    assert!(matches!(s.respond_target("approval_1"), Err(AgentError::ApprovalNotFound(_))));
    assert_eq!(s.take_approval("approval_2"), Some(9));
    s.register_approval("approval_3".into(), 1);
    s.finish_run();
    assert!(s.pending_approvals().is_empty());
}

#[test]
fn settings_are_kept() {
    let mut s = state();
    assert_eq!(s.system_prompt(), &Some("你是助手".to_string()));
    s.set_system_prompt(None);
    assert_eq!(s.system_prompt(), &None);
    s.set_tool_execution(ToolExecutionMode::Sequential);
    assert_eq!(s.tool_execution(), ToolExecutionMode::Sequential);
    s.set_follow_up_mode(QueueMode::All);
    assert_eq!(s.follow_up_mode(), QueueMode::All);
    assert_eq!(s.steering_mode(), QueueMode::OneAtATime);
    s.set_messages(vec![Message::user("a")]);
    assert_eq!(s.messages().len(), 1);
    s.steer(Message::user("x"));
    s.clear_steering_queue();
    s.follow_up(Message::user("y"));
    s.clear_follow_up_queue();
    assert!(!s.has_queued_messages());
}

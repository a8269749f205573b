//! Usage sums, error texts and message constructors.

use zach_agent::message::{Message, Usage};
use zach_agent::stream::ModelError;
use zach_agent::usage::{add, add_usage};
use zach_agent::{AgentError, ApprovalDecision};

#[test]
fn usage_adds_count_by_count() {
    let mut total = Usage::empty();
    add_usage(&mut total, &Usage::simple(10, 5));
    add_usage(&mut total, &Usage::simple(10, 5));
    assert_eq!(total.input_tokens.total, Some(20));
    assert_eq!(total.output_tokens.total, Some(10));
    assert_eq!(total.input_tokens.cache_read, None);

    let mut count = None;
    add(&mut count, None);
    assert_eq!(count, None);
    add(&mut count, Some(3));
    assert_eq!(count, Some(3));
    add(&mut count, Some(4));
    assert_eq!(count, Some(7));
}

#[test]
fn errors_describe_themselves() {
    assert_eq!(AgentError::NoMessages.text(), "没有可继续的消息");
    assert_eq!(AgentError::ApprovalNotFound("a1".into()).text(), "找不到待审批请求: a1");
    assert_eq!(
        AgentError::Model(ModelError::Authentication("过期".into())).text(),
        "底层模型或解析器错误: 鉴权失败: 过期"
    );
    assert!(ModelError::RateLimit("x".into()).is_retryable());
    assert!(!ModelError::Authentication("x".into()).is_retryable());
    assert_eq!(ModelError::Other("raw".into()).text(), "raw");
}

#[test]
fn approval_decisions() {
    let yes = ApprovalDecision::approve();
    assert!(yes.approved && yes.reason.is_none());
    let no = ApprovalDecision::deny("不批".into());
    assert!(!no.approved);
    assert_eq!(no.reason.as_deref(), Some("不批"));
}

#[test]
fn message_constructors() {
    assert!(Message::assistant("a").is_assistant());
    assert!(!Message::user("u").is_assistant());
    assert!(matches!(Message::system("s"), Message::System { content } if content == "s"));
    let copy = Message::user("u").duplicate();
    assert_eq!(copy, Message::user("u"));
}

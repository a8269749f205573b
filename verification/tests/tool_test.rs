//! Tool results, tool errors and closure-backed executors.

use zach_agent::message::ToolResultOutput;
use zach_agent::{AsyncFnExecutor, SyncFnExecutor, ToolError, ToolOutcome};

#[test]
fn outcome_error_flag_follows_output_variant() {
    assert!(ToolOutcome::error("失败".into()).is_error());
    assert!(!ToolOutcome::json("{}".into()).is_error());
    assert!(ToolOutcome::text("ok".into()).with_terminate(true).terminate);
    assert!(ToolOutcome::new(ToolResultOutput::ErrorJson { value: "{}".into(), provider_options: None }).is_error());
    assert!(!ToolOutcome::new(ToolResultOutput::denied(None)).is_error());
}

#[test]
fn tool_errors_describe_themselves() {
    let invalid = ToolError::invalid_input("缺少字段 a".into());
    assert_eq!(invalid, ToolError::InvalidInput("缺少字段 a".into()));
    assert_eq!(invalid.text(), "工具入参无效: 缺少字段 a");
    let failed = ToolError::failed("炸了".into());
    assert_eq!(failed.text(), "炸了");
}

#[test]
fn executors_hold_their_closures() {
    let sync = SyncFnExecutor::new(|x: i32| x + 1);
    assert_eq!((sync.handler())(1), 2);
    let asynchronous = AsyncFnExecutor::new(|x: i32| x * 2);
    assert_eq!((asynchronous.handler())(4), 8);
}

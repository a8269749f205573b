//! Errors of the agent runtime.

use vstd::prelude::*;
use vstd::string::StringExecFns;
use crate::stream::ModelError;

verus! {

/// An error of an agent run or of a call on the agent.
#[derive(Clone, Debug, PartialEq, Eq)]
pub enum AgentError {
    /// The model failed (retries exhausted, or not retryable).
    Model(ModelError),
    /// A run is in progress; no new run and no reset may start.
    Busy,
    /// The transcript is empty; there is nothing to continue.
    NoMessages,
    /// The transcript ends with an assistant message and nothing is queued.
    CannotContinueFromAssistant,
    /// No pending approval request has this id.
    ApprovalNotFound(String),
    /// An internal failure.
    Internal(String),
    /// No tool of this name is registered.
    ToolNotFound(String),
    /// A tool could not be executed: its name and the reason.
    ToolExecutionFailed(String, String),
}

impl AgentError {
    pub open spec fn spec_text(self) -> Seq<char> {
        match self {
            AgentError::Model(e) => "底层模型或解析器错误: "@ + e.spec_text(),
            AgentError::Busy => "Agent 正在运行中，请使用 steer/follow_up 排队消息，或等待当前运行结束"@,
            AgentError::NoMessages => "没有可继续的消息"@,
            AgentError::CannotContinueFromAssistant => "最后一条消息是助手消息，无法继续"@,
            AgentError::ApprovalNotFound(id) => "找不到待审批请求: "@ + id@,
            AgentError::Internal(m) => "Agent 内部错误: "@ + m@,
            AgentError::ToolNotFound(name) => "找不到工具: "@ + name@,
            AgentError::ToolExecutionFailed(name, m) => "工具 "@ + name@ + " 执行失败: "@ + m@,
        }
    }

    /// The human-readable description.
    pub fn text(&self) -> (s: String)
        ensures
            s@ == self.spec_text(),
    {
        match self {
            AgentError::Model(e) => String::from_str("底层模型或解析器错误: ").concat(e.text().as_str()),
            AgentError::Busy => String::from_str("Agent 正在运行中，请使用 steer/follow_up 排队消息，或等待当前运行结束"),
            AgentError::NoMessages => String::from_str("没有可继续的消息"),
            AgentError::CannotContinueFromAssistant => String::from_str("最后一条消息是助手消息，无法继续"),
            AgentError::ApprovalNotFound(id) => String::from_str("找不到待审批请求: ").concat(id.as_str()),
            AgentError::Internal(m) => String::from_str("Agent 内部错误: ").concat(m.as_str()),
            AgentError::ToolNotFound(name) => String::from_str("找不到工具: ").concat(name.as_str()),
            AgentError::ToolExecutionFailed(name, m) =>
                String::from_str("工具 ").concat(name.as_str()).concat(" 执行失败: ").concat(m.as_str()),
        }
    }
}

} // verus!

//! Agent runtime: the data model of a conversation with a language model,
//! the mapping from model stream parts to runtime events, the scheduling
//! state machine of the agent loop, tool-batch planning, the per-agent
//! session state and the tool registry bookkeeping.

pub mod json;
pub mod keyed;
pub mod message;
pub mod stream;
pub mod event;
pub mod config;
pub mod error;
pub mod host;
pub mod usage;
pub mod hooks;
pub mod agent_loop;
pub mod tool;
pub mod context;
pub mod agent;

pub use agent::state::{PendingQueue, SessionState};
pub use agent_loop::machine::{LoopAction, LoopInput, LoopMachine, RunOutput, ToolBatch};
pub use config::{QueueMode, ToolExecutionMode, TurnDecision};
pub use error::AgentError;
pub use event::AgentEvent;
pub use hooks::{NoopHooks, ToolCallDecision, TurnInfo};
pub use host::{ApprovalDecision, ApprovalRequest};
pub use tool::error::ToolError;
pub use tool::executor::{AsyncFnExecutor, SyncFnExecutor};
pub use tool::registry::{AsyncDeferredLoader, DeferredToolMeta, ToolRegistry};
pub use tool::types::{FunctionTool, ProviderTool, ToolDefinition, ToolOutcome, ToolSpec};

//! The stateful agent: its transcript, its message queues, whether a run is
//! in progress, and the tool calls and approvals the current run waits on.

pub mod state;

//! The agent loop: one turn is one model response plus the execution of its
//! tool calls. The loop goes on while a turn produced tool results, while
//! steering messages are queued or while a hook asks to continue; when it
//! would end, queued follow-up messages start another turn.

pub mod machine;
pub mod step;
pub mod batch;

//! Errors of tool input validation and execution.

use vstd::prelude::*;
use vstd::string::StringExecFns;

verus! {

/// A tool's input was invalid, or its execution failed. The loop hands the
/// error back to the model as a text error; it does not end the run.
#[derive(Clone, Debug, PartialEq, Eq)]
pub enum ToolError {
    /// The input does not meet the tool's contract.
    InvalidInput(String),
    /// The execution failed.
    Failed(String),
}

impl ToolError {
    /// An invalid-input error.
    pub fn invalid_input(message: String) -> (e: ToolError)
        ensures
            e == ToolError::InvalidInput(message),
    {
        ToolError::InvalidInput(message)
    }

    /// An execution failure.
    pub fn failed(message: String) -> (e: ToolError)
        ensures
            e == ToolError::Failed(message),
    {
        ToolError::Failed(message)
    }

    pub open spec fn spec_text(self) -> Seq<char> {
        match self {
            ToolError::InvalidInput(m) => "工具入参无效: "@ + m@,
            ToolError::Failed(m) => m@,
        }
    }

    /// The human-readable description.
    pub fn text(&self) -> (s: String)
        ensures
            s@ == self.spec_text(),
    {
        match self {
            ToolError::InvalidInput(m) => String::from_str("工具入参无效: ").concat(m.as_str()),
            ToolError::Failed(m) => m.clone(),
        }
    }
}

} // verus!

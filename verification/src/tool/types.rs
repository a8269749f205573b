//! Tool declarations, tool results, and what the loop reads of a local tool.

use vstd::prelude::*;
use vstd::string::StringExecFns;
use crate::config::ToolExecutionMode;
use crate::message::{copy_opt, ToolResultOutput};

verus! {

/// A function tool as declared to the model; `input_schema` is JSON text.
#[derive(Clone, Debug, PartialEq, Eq)]
pub struct FunctionTool {
    pub name: String,
    pub description: Option<String>,
    pub input_schema: String,
}

impl FunctionTool {
    /// A declaration with a name and an input schema, without description.
    pub fn new(name: &str, input_schema: String) -> (t: FunctionTool)
        ensures
            t.name@ == name@,
            t.description is None,
            t.input_schema == input_schema,
    {
        FunctionTool { name: String::from_str(name), description: None, input_schema }
    }

    /// Sets the description.
    pub fn with_description(self, description: &str) -> (t: FunctionTool)
        ensures
            t.name == self.name,
            t.input_schema == self.input_schema,
            t.description is Some,
            t.description->0@ == description@,
    {
        FunctionTool { description: Some(String::from_str(description)), ..self }
    }

    /// An exact copy.
    pub fn duplicate(&self) -> (t: FunctionTool)
        ensures
            t == *self,
    {
        FunctionTool {
            name: self.name.clone(),
            description: copy_opt(&self.description),
            input_schema: self.input_schema.clone(),
        }
    }
}

/// A provider-native tool: declared only, executed by the provider.
#[derive(Clone, Debug, PartialEq, Eq)]
pub struct ProviderTool {
    pub id: String,
    pub name: String,
    /// JSON text.
    pub args: String,
}

impl ProviderTool {
    /// A provider tool declaration.
    pub fn new(id: &str, name: &str, args: String) -> (t: ProviderTool)
        ensures
            t.id@ == id@,
            t.name@ == name@,
            t.args == args,
    {
        ProviderTool { id: String::from_str(id), name: String::from_str(name), args }
    }

    /// An exact copy.
    pub fn duplicate(&self) -> (t: ProviderTool)
        ensures
            t == *self,
    {
        ProviderTool { id: self.id.clone(), name: self.name.clone(), args: self.args.clone() }
    }
}

/// A tool declaration of a request.
#[derive(Clone, Debug, PartialEq, Eq)]
pub enum ToolDefinition {
    Function(FunctionTool),
    Provider(ProviderTool),
}

impl ToolDefinition {
    /// The declared name.
    pub fn name(&self) -> (r: &String)
        ensures
            *r == match *self {
                ToolDefinition::Function(f) => f.name,
                ToolDefinition::Provider(p) => p.name,
            },
    {
        match self {
            ToolDefinition::Function(f) => &f.name,
            ToolDefinition::Provider(p) => &p.name,
        }
    }

    /// Whether the provider executes this tool.
    pub fn is_provider(&self) -> (b: bool)
        ensures
            b == (*self is Provider),
    {
        match self {
            ToolDefinition::Provider(_) => true,
            _ => false,
        }
    }
}

/// What the loop reads of a local tool: its name, its display title and
/// its own execution mode.
#[derive(Clone, Debug, PartialEq, Eq)]
pub struct ToolSpec {
    pub name: String,
    pub title: Option<String>,
    pub execution_mode: Option<ToolExecutionMode>,
}

/// The result of a tool execution.
#[derive(Clone, Debug, PartialEq, Eq)]
pub struct ToolOutcome {
    /// The payload handed back to the model.
    pub output: ToolResultOutput,
    /// Asks to end the run after this batch; honoured only when every
    /// result of the batch asks so.
    pub terminate: bool,
}

impl ToolOutcome {
    /// An outcome with any payload.
    pub fn new(output: ToolResultOutput) -> (o: ToolOutcome)
        ensures
            o == (ToolOutcome { output, terminate: false }),
    {
        ToolOutcome { output, terminate: false }
    }

    /// A text result.
    pub fn text(text: String) -> (o: ToolOutcome)
        ensures
            o == (ToolOutcome { output: ToolResultOutput::Text { value: text, provider_options: None }, terminate: false }),
    {
        ToolOutcome::new(ToolResultOutput::text(text))
    }

    /// A JSON result (`value` is JSON text).
    pub fn json(value: String) -> (o: ToolOutcome)
        ensures
            o == (ToolOutcome { output: ToolResultOutput::Json { value, provider_options: None }, terminate: false }),
    {
        ToolOutcome::new(ToolResultOutput::json(value))
    }

    /// A text error.
    pub fn error(text: String) -> (o: ToolOutcome)
        ensures
            o == (ToolOutcome { output: ToolResultOutput::ErrorText { value: text, provider_options: None }, terminate: false }),
    {
        ToolOutcome::new(ToolResultOutput::error_text(text))
    }

    /// Sets whether to end the run after this batch.
    pub fn with_terminate(self, terminate: bool) -> (o: ToolOutcome)
        ensures
            o == (ToolOutcome { output: self.output, terminate }),
    {
        ToolOutcome { terminate, ..self }
    }

    /// Whether the payload is an error.
    pub fn is_error(&self) -> (b: bool)
        ensures
            b == (self.output is ErrorText || self.output is ErrorJson),
    {
        match self.output {
            ToolResultOutput::ErrorText { .. } | ToolResultOutput::ErrorJson { .. } => true,
            _ => false,
        }
    }
}

impl From<ToolResultOutput> for ToolOutcome {
    /// An outcome with this payload, not asking to end the run.
    fn from(output: ToolResultOutput) -> (o: ToolOutcome) {
        ToolOutcome { output, terminate: false }
    }
}

impl vstd::std_specs::convert::FromSpecImpl<ToolResultOutput> for ToolOutcome {
    open spec fn obeys_from_spec() -> bool {
        true
    }

    open spec fn from_spec(output: ToolResultOutput) -> ToolOutcome {
        ToolOutcome { output, terminate: false }
    }
}

} // verus!

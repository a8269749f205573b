//! The conversation data the runtime reads and writes: messages and their
//! parts, tool results, model stream parts, aggregated model output, usage,
//! finish reasons, tool declarations and model errors.
//!
//! JSON payloads (tool inputs, results, metadata) are held as JSON text.

use vstd::prelude::*;
use vstd::string::StringExecFns;

verus! {

/// File content: a reference by URL, or inline base64 data.
#[derive(Clone, Debug, PartialEq, Eq)]
pub enum FileData {
    Url { url: String },
    Base64 { data: String },
}

impl FileData {
    /// A file referenced by URL.
    pub fn from_url(url: &str) -> (r: FileData)
        ensures
            r == (FileData::Url { url: r->url }),
            r->url@ == url@,
    {
        FileData::Url { url: String::from_str(url) }
    }

    /// An exact copy.
    pub fn duplicate(&self) -> (r: FileData)
        ensures
            r == *self,
    {
        match self {
            FileData::Url { url } => FileData::Url { url: url.clone() },
            FileData::Base64 { data } => FileData::Base64 { data: data.clone() },
        }
    }
}

/// Copies an optional string exactly.
pub fn copy_opt(o: &Option<String>) -> (r: Option<String>)
    ensures
        r == *o,
{
    match o {
        Some(s) => Some(s.clone()),
        None => None,
    }
}

/// A cited source.
#[derive(Clone, Debug, PartialEq, Eq)]
pub enum SourceContent {
    Url { id: String, url: String, title: Option<String>, provider_metadata: Option<String> },
    Document {
        id: String,
        media_type: String,
        title: String,
        filename: Option<String>,
        provider_metadata: Option<String>,
    },
}

impl SourceContent {
    /// An exact copy.
    pub fn duplicate(&self) -> (r: SourceContent)
        ensures
            r == *self,
    {
        match self {
            SourceContent::Url { id, url, title, provider_metadata } => SourceContent::Url {
                id: id.clone(),
                url: url.clone(),
                title: copy_opt(title),
                provider_metadata: copy_opt(provider_metadata),
            },
            SourceContent::Document { id, media_type, title, filename, provider_metadata } => SourceContent::Document {
                id: id.clone(),
                media_type: media_type.clone(),
                title: title.clone(),
                filename: copy_opt(filename),
                provider_metadata: copy_opt(provider_metadata),
            },
        }
    }
}

/// The normalised reason why the model stopped.
#[derive(Clone, Copy, Debug, PartialEq, Eq)]
pub enum UnifiedFinishReason {
    Stop,
    Length,
    ContentFilter,
    ToolCalls,
    Error,
    Other,
    Unknown,
}

/// Why the model stopped: the normalised reason and the provider's own text.
#[derive(Clone, Debug, PartialEq, Eq)]
pub struct FinishReason {
    pub unified: UnifiedFinishReason,
    pub raw: Option<String>,
}

impl FinishReason {
    /// A normal stop.
    pub fn stop() -> (r: FinishReason)
        ensures
            r.unified == UnifiedFinishReason::Stop,
            r.raw is None,
    {
        FinishReason { unified: UnifiedFinishReason::Stop, raw: None }
    }

    /// An exact copy.
    pub fn duplicate(&self) -> (r: FinishReason)
        ensures
            r == *self,
    {
        FinishReason { unified: self.unified, raw: copy_opt(&self.raw) }
    }
}

/// Input token counts.
#[derive(Clone, Copy, Debug, PartialEq, Eq, Default)]
pub struct InputTokens {
    pub total: Option<u64>,
    pub no_cache: Option<u64>,
    pub cache_read: Option<u64>,
    pub cache_write: Option<u64>,
}

/// Output token counts.
#[derive(Clone, Copy, Debug, PartialEq, Eq, Default)]
pub struct OutputTokens {
    pub total: Option<u64>,
    pub text: Option<u64>,
    pub reasoning: Option<u64>,
}

/// Token usage of one or more model calls.
#[derive(Clone, Copy, Debug, PartialEq, Eq, Default)]
pub struct Usage {
    pub input_tokens: InputTokens,
    pub output_tokens: OutputTokens,
}

impl Usage {
    /// No counts at all.
    pub fn empty() -> (r: Usage)
        ensures
            r == Usage::spec_empty(),
    {
        Usage {
            input_tokens: InputTokens { total: None, no_cache: None, cache_read: None, cache_write: None },
            output_tokens: OutputTokens { total: None, text: None, reasoning: None },
        }
    }

    pub open spec fn spec_empty() -> Usage {
        Usage {
            input_tokens: InputTokens { total: None, no_cache: None, cache_read: None, cache_write: None },
            output_tokens: OutputTokens { total: None, text: None, reasoning: None },
        }
    }

    /// `input` input tokens and `output` output tokens, totals only.
    pub fn simple(input: u64, output: u64) -> (r: Usage)
        ensures
            r.input_tokens.total == Some(input),
            r.output_tokens.total == Some(output),
            r.input_tokens.no_cache is None,
            r.input_tokens.cache_read is None,
            r.input_tokens.cache_write is None,
            r.output_tokens.text is None,
            r.output_tokens.reasoning is None,
    {
        Usage {
            input_tokens: InputTokens { total: Some(input), no_cache: None, cache_read: None, cache_write: None },
            output_tokens: OutputTokens { total: Some(output), text: None, reasoning: None },
        }
    }
}

/// The result payload of a tool call, as handed back to the model.
#[derive(Clone, Debug, PartialEq, Eq)]
pub enum ToolResultOutput {
    Text { value: String, provider_options: Option<String> },
    Json { value: String, provider_options: Option<String> },
    ErrorText { value: String, provider_options: Option<String> },
    ErrorJson { value: String, provider_options: Option<String> },
    ExecutionDenied { reason: Option<String>, provider_options: Option<String> },
}

impl ToolResultOutput {
    /// A text result.
    pub fn text(value: String) -> (r: ToolResultOutput)
        ensures
            r == (ToolResultOutput::Text { value, provider_options: None }),
    {
        ToolResultOutput::Text { value, provider_options: None }
    }

    /// A JSON result (`value` is JSON text).
    pub fn json(value: String) -> (r: ToolResultOutput)
        ensures
            r == (ToolResultOutput::Json { value, provider_options: None }),
    {
        ToolResultOutput::Json { value, provider_options: None }
    }

    /// A text error.
    pub fn error_text(value: String) -> (r: ToolResultOutput)
        ensures
            r == (ToolResultOutput::ErrorText { value, provider_options: None }),
    {
        ToolResultOutput::ErrorText { value, provider_options: None }
    }

    /// A refusal to execute.
    pub fn denied(reason: Option<String>) -> (r: ToolResultOutput)
        ensures
            r == (ToolResultOutput::ExecutionDenied { reason, provider_options: None }),
    {
        ToolResultOutput::ExecutionDenied { reason, provider_options: None }
    }

    /// An exact copy.
    pub fn duplicate(&self) -> (r: ToolResultOutput)
        ensures
            r == *self,
    {
        match self {
            ToolResultOutput::Text { value, provider_options } =>
                ToolResultOutput::Text { value: value.clone(), provider_options: copy_opt(provider_options) },
            ToolResultOutput::Json { value, provider_options } =>
                ToolResultOutput::Json { value: value.clone(), provider_options: copy_opt(provider_options) },
            ToolResultOutput::ErrorText { value, provider_options } =>
                ToolResultOutput::ErrorText { value: value.clone(), provider_options: copy_opt(provider_options) },
            ToolResultOutput::ErrorJson { value, provider_options } =>
                ToolResultOutput::ErrorJson { value: value.clone(), provider_options: copy_opt(provider_options) },
            ToolResultOutput::ExecutionDenied { reason, provider_options } =>
                ToolResultOutput::ExecutionDenied { reason: copy_opt(reason), provider_options: copy_opt(provider_options) },
        }
    }
}

/// A part of a user message.
#[derive(Clone, Debug, PartialEq, Eq)]
pub enum UserPart {
    Text { text: String },
    File { media_type: String, data: FileData },
}

/// A part of an assistant message.
#[derive(Clone, Debug, PartialEq, Eq)]
pub enum AssistantPart {
    Text { text: String, provider_options: Option<String> },
    Reasoning { text: String, provider_options: Option<String> },
    File { media_type: String, data: FileData, provider_options: Option<String> },
    ReasoningFile { media_type: String, data: FileData, provider_options: Option<String> },
    ToolCall {
        tool_call_id: String,
        tool_name: String,
        input: String,
        provider_executed: bool,
        provider_options: Option<String>,
    },
    ToolResult {
        tool_call_id: String,
        tool_name: String,
        output: ToolResultOutput,
        provider_options: Option<String>,
    },
    ToolApprovalRequest { approval_id: String, tool_call_id: String, provider_options: Option<String> },
}

/// A part of a tool message.
#[derive(Clone, Debug, PartialEq, Eq)]
pub enum ToolPart {
    ToolResult {
        tool_call_id: String,
        tool_name: String,
        output: ToolResultOutput,
        provider_options: Option<String>,
    },
    ToolApprovalResponse {
        approval_id: String,
        approved: bool,
        reason: Option<String>,
        provider_options: Option<String>,
    },
}

/// One message of the conversation.
#[derive(Clone, Debug, PartialEq, Eq)]
pub enum Message {
    System { content: String },
    User { content: Vec<UserPart> },
    Assistant { content: Vec<AssistantPart>, provider_options: Option<String> },
    Tool { content: Vec<ToolPart> },
}

impl UserPart {
    /// An exact copy.
    pub fn duplicate(&self) -> (r: UserPart)
        ensures
            r == *self,
    {
        match self {
            UserPart::Text { text } => UserPart::Text { text: text.clone() },
            UserPart::File { media_type, data } => UserPart::File { media_type: media_type.clone(), data: data.duplicate() },
        }
    }
}

impl AssistantPart {
    /// An exact copy.
    pub fn duplicate(&self) -> (r: AssistantPart)
        ensures
            r == *self,
    {
        match self {
            AssistantPart::Text { text, provider_options } =>
                AssistantPart::Text { text: text.clone(), provider_options: copy_opt(provider_options) },
            AssistantPart::Reasoning { text, provider_options } =>
                AssistantPart::Reasoning { text: text.clone(), provider_options: copy_opt(provider_options) },
            AssistantPart::File { media_type, data, provider_options } =>
                AssistantPart::File { media_type: media_type.clone(), data: data.duplicate(), provider_options: copy_opt(provider_options) },
            AssistantPart::ReasoningFile { media_type, data, provider_options } =>
                AssistantPart::ReasoningFile { media_type: media_type.clone(), data: data.duplicate(), provider_options: copy_opt(provider_options) },
            AssistantPart::ToolCall { tool_call_id, tool_name, input, provider_executed, provider_options } =>
                AssistantPart::ToolCall {
                    tool_call_id: tool_call_id.clone(),
                    tool_name: tool_name.clone(),
                    input: input.clone(),
                    provider_executed: *provider_executed,
                    provider_options: copy_opt(provider_options),
                },
            AssistantPart::ToolResult { tool_call_id, tool_name, output, provider_options } =>
                AssistantPart::ToolResult {
                    tool_call_id: tool_call_id.clone(),
                    tool_name: tool_name.clone(),
                    output: output.duplicate(),
                    provider_options: copy_opt(provider_options),
                },
            AssistantPart::ToolApprovalRequest { approval_id, tool_call_id, provider_options } =>
                AssistantPart::ToolApprovalRequest {
                    approval_id: approval_id.clone(),
                    tool_call_id: tool_call_id.clone(),
                    provider_options: copy_opt(provider_options),
                },
        }
    }
}

impl ToolPart {
    /// An exact copy.
    pub fn duplicate(&self) -> (r: ToolPart)
        ensures
            r == *self,
    {
        match self {
            ToolPart::ToolResult { tool_call_id, tool_name, output, provider_options } => ToolPart::ToolResult {
                tool_call_id: tool_call_id.clone(),
                tool_name: tool_name.clone(),
                output: output.duplicate(),
                provider_options: copy_opt(provider_options),
            },
            ToolPart::ToolApprovalResponse { approval_id, approved, reason, provider_options } => ToolPart::ToolApprovalResponse {
                approval_id: approval_id.clone(),
                approved: *approved,
                reason: copy_opt(reason),
                provider_options: copy_opt(provider_options),
            },
        }
    }
}

fn copy_user_parts(v: &Vec<UserPart>) -> (r: Vec<UserPart>)
    ensures
        r@ == v@,
{
    let mut r: Vec<UserPart> = Vec::new();
    let mut i: usize = 0;
    while i < v.len()
        invariant
            i <= v.len(),
            r@ == v@.take(i as int),
        decreases v.len() - i,
    {
        r.push(v[i].duplicate());
        proof {
            assert(v@.take(i + 1) == v@.take(i as int).push(v@[i as int]));
        }
        i = i + 1;
    }
    proof {
        assert(v@.take(v.len() as int) == v@);
    }
    r
}

fn copy_assistant_parts(v: &Vec<AssistantPart>) -> (r: Vec<AssistantPart>)
    ensures
        r@ == v@,
{
    let mut r: Vec<AssistantPart> = Vec::new();
    let mut i: usize = 0;
    while i < v.len()
        invariant
            i <= v.len(),
            r@ == v@.take(i as int),
        decreases v.len() - i,
    {
        r.push(v[i].duplicate());
        proof {
            assert(v@.take(i + 1) == v@.take(i as int).push(v@[i as int]));
        }
        i = i + 1;
    }
    proof {
        assert(v@.take(v.len() as int) == v@);
    }
    r
}

fn copy_tool_parts(v: &Vec<ToolPart>) -> (r: Vec<ToolPart>)
    ensures
        r@ == v@,
{
    let mut r: Vec<ToolPart> = Vec::new();
    let mut i: usize = 0;
    while i < v.len()
        invariant
            i <= v.len(),
            r@ == v@.take(i as int),
        decreases v.len() - i,
    {
        r.push(v[i].duplicate());
        proof {
            assert(v@.take(i + 1) == v@.take(i as int).push(v@[i as int]));
        }
        i = i + 1;
    }
    proof {
        assert(v@.take(v.len() as int) == v@);
    }
    r
}

/// Two messages hold the same content (vectors compared by their contents).
pub open spec fn same_message(a: Message, b: Message) -> bool {
    match (a, b) {
        (Message::System { content: x }, Message::System { content: y }) => x == y,
        (Message::User { content: x }, Message::User { content: y }) => x@ == y@,
        (Message::Assistant { content: x, provider_options: p }, Message::Assistant { content: y, provider_options: q }) =>
            x@ == y@ && p == q,
        (Message::Tool { content: x }, Message::Tool { content: y }) => x@ == y@,
        _ => false,
    }
}

/// Two sequences of messages hold the same messages, in order.
pub open spec fn same_messages(a: Seq<Message>, b: Seq<Message>) -> bool {
    a.len() == b.len() && forall|i: int| 0 <= i < a.len() ==> #[trigger] same_message(a[i], b[i])
}

impl Message {
    /// A copy with the same content.
    pub fn duplicate(&self) -> (r: Message)
        ensures
            same_message(r, *self),
    {
        match self {
            Message::System { content } => Message::System { content: content.clone() },
            Message::User { content } => Message::User { content: copy_user_parts(content) },
            Message::Assistant { content, provider_options } =>
                Message::Assistant { content: copy_assistant_parts(content), provider_options: copy_opt(provider_options) },
            Message::Tool { content } => Message::Tool { content: copy_tool_parts(content) },
        }
    }

    /// A system message.
    pub fn system(text: &str) -> (m: Message)
        ensures
            m is System,
            m->System_content@ == text@,
    {
        Message::System { content: String::from_str(text) }
    }

    /// A user message with one text part.
    pub fn user(text: &str) -> (m: Message)
        ensures
            m is User,
            m->User_content@.len() == 1,
            m->User_content@[0] is Text,
            m->User_content@[0]->Text_text@ == text@,
    {
        let mut content: Vec<UserPart> = Vec::new();
        content.push(UserPart::Text { text: String::from_str(text) });
        Message::User { content }
    }

    /// An assistant message with one text part.
    pub fn assistant(text: &str) -> (m: Message)
        ensures
            m is Assistant,
            m->Assistant_content@.len() == 1,
            m->Assistant_content@[0] is Text,
            m->Assistant_content@[0]->Text_text@ == text@,
            m->Assistant_content@[0]->Text_provider_options is None,
            m->Assistant_provider_options is None,
    {
        let mut content: Vec<AssistantPart> = Vec::new();
        content.push(AssistantPart::Text { text: String::from_str(text), provider_options: None });
        Message::Assistant { content, provider_options: None }
    }

    /// A tool message with the given parts.
    pub fn tool(parts: Vec<ToolPart>) -> (m: Message)
        ensures
            m == (Message::Tool { content: parts }),
    {
        Message::Tool { content: parts }
    }

    /// Whether this is an assistant message.
    pub fn is_assistant(&self) -> (b: bool)
        ensures
            b == (*self is Assistant),
    {
        match self {
            Message::Assistant { .. } => true,
            _ => false,
        }
    }
}

} // verus!

//! What a model produces: stream parts while it streams, the aggregated
//! output when it is done, and the errors it can fail with.

use vstd::prelude::*;
use vstd::string::StringExecFns;
use crate::message::{copy_opt, AssistantPart, FileData, FinishReason, Message, SourceContent, ToolResultOutput, Usage};

verus! {

/// One part of a model's output stream.
#[derive(Clone, Debug, PartialEq, Eq)]
pub enum StreamPart {
    StreamStart { warnings: Vec<String> },
    ResponseMetadata { metadata: String },
    TextStart { id: String, provider_metadata: Option<String> },
    TextDelta { id: String, delta: String, provider_metadata: Option<String> },
    TextEnd { id: String, provider_metadata: Option<String> },
    ReasoningStart { id: String, provider_metadata: Option<String> },
    ReasoningDelta { id: String, delta: String, provider_metadata: Option<String> },
    ReasoningEnd { id: String, provider_metadata: Option<String> },
    ToolInputStart {
        id: String,
        tool_name: String,
        provider_executed: bool,
        dynamic: bool,
        title: Option<String>,
        provider_metadata: Option<String>,
    },
    ToolInputDelta { id: String, delta: String, provider_metadata: Option<String> },
    ToolInputEnd { id: String, provider_metadata: Option<String> },
    ToolCall {
        tool_call_id: String,
        tool_name: String,
        input: String,
        provider_executed: bool,
        dynamic: bool,
        provider_metadata: Option<String>,
    },
    ToolResult {
        tool_call_id: String,
        tool_name: String,
        result: String,
        is_error: bool,
        preliminary: bool,
        dynamic: bool,
        provider_metadata: Option<String>,
    },
    ToolApprovalRequest { approval_id: String, tool_call_id: String, provider_metadata: Option<String> },
    File { media_type: String, data: FileData, provider_metadata: Option<String> },
    ReasoningFile { media_type: String, data: FileData, provider_metadata: Option<String> },
    Source { source: SourceContent },
    Custom { kind: String, data: String, provider_metadata: Option<String> },
    Error { message: String, raw: Option<String> },
    Raw { raw_value: String },
    Finish { usage: Usage, finish_reason: FinishReason, provider_metadata: Option<String> },
}

/// One piece of a model's aggregated output.
#[derive(Clone, Debug, PartialEq, Eq)]
pub enum OutputContent {
    Text { text: String, provider_metadata: Option<String> },
    Reasoning { text: String, provider_metadata: Option<String> },
    File { media_type: String, data: FileData, provider_metadata: Option<String> },
    ReasoningFile { media_type: String, data: FileData, provider_metadata: Option<String> },
    ToolCall {
        tool_call_id: String,
        tool_name: String,
        input: String,
        provider_executed: bool,
        dynamic: bool,
        provider_metadata: Option<String>,
    },
    ToolResult {
        tool_call_id: String,
        tool_name: String,
        output: ToolResultOutput,
        provider_metadata: Option<String>,
    },
    ToolApprovalRequest { approval_id: String, tool_call_id: String, provider_metadata: Option<String> },
    Source { source: SourceContent },
}

/// The assistant-message part that an output piece becomes (sources become none).
pub open spec fn assistant_part_of(c: OutputContent) -> Option<AssistantPart> {
    match c {
        OutputContent::Text { text, provider_metadata } =>
            Some(AssistantPart::Text { text, provider_options: provider_metadata }),
        OutputContent::Reasoning { text, provider_metadata } =>
            Some(AssistantPart::Reasoning { text, provider_options: provider_metadata }),
        OutputContent::File { media_type, data, provider_metadata } =>
            Some(AssistantPart::File { media_type, data, provider_options: provider_metadata }),
        OutputContent::ReasoningFile { media_type, data, provider_metadata } =>
            Some(AssistantPart::ReasoningFile { media_type, data, provider_options: provider_metadata }),
        OutputContent::ToolCall { tool_call_id, tool_name, input, provider_executed, dynamic, provider_metadata } =>
            Some(AssistantPart::ToolCall { tool_call_id, tool_name, input, provider_executed, provider_options: provider_metadata }),
        OutputContent::ToolResult { tool_call_id, tool_name, output, provider_metadata } =>
            Some(AssistantPart::ToolResult { tool_call_id, tool_name, output, provider_options: provider_metadata }),
        OutputContent::ToolApprovalRequest { approval_id, tool_call_id, provider_metadata } =>
            Some(AssistantPart::ToolApprovalRequest { approval_id, tool_call_id, provider_options: provider_metadata }),
        OutputContent::Source { .. } => None,
    }
}

/// The parts, in order, of the pieces that have one.
pub open spec fn assistant_parts(s: Seq<OutputContent>) -> Seq<AssistantPart>
    decreases s.len(),
{
    if s.len() == 0 {
        Seq::empty()
    } else {
        let prev = assistant_parts(s.drop_last());
        match assistant_part_of(s.last()) {
            Some(p) => prev.push(p),
            None => prev,
        }
    }
}

/// Whether a piece is generated content that stands on its own (text,
/// reasoning or a file): what an interrupted response keeps.
pub open spec fn is_standalone(c: OutputContent) -> bool {
    ||| c is Text
    ||| c is Reasoning
    ||| c is File
    ||| c is ReasoningFile
}

/// The parts, in order, of the standalone pieces.
pub open spec fn standalone_parts(s: Seq<OutputContent>) -> Seq<AssistantPart>
    decreases s.len(),
{
    if s.len() == 0 {
        Seq::empty()
    } else {
        let prev = standalone_parts(s.drop_last());
        if is_standalone(s.last()) {
            prev.push(assistant_part_of(s.last())->0)
        } else {
            prev
        }
    }
}

/// What an interrupted response keeps is exactly its text, reasoning, file
/// and reasoning-file pieces, in their order, each as the assistant part of
/// the same kind with the same payload; tool calls, tool results, approval
/// requests and sources are dropped.
pub proof fn law_interrupted_response_keeps_generated_content(s: Seq<OutputContent>)
    ensures
        standalone_parts(s) == s.filter_map(|c: OutputContent| match c {
            OutputContent::Text { text, provider_metadata } =>
                Some(AssistantPart::Text { text, provider_options: provider_metadata }),
            OutputContent::Reasoning { text, provider_metadata } =>
                Some(AssistantPart::Reasoning { text, provider_options: provider_metadata }),
            OutputContent::File { media_type, data, provider_metadata } =>
                Some(AssistantPart::File { media_type, data, provider_options: provider_metadata }),
            OutputContent::ReasoningFile { media_type, data, provider_metadata } =>
                Some(AssistantPart::ReasoningFile { media_type, data, provider_options: provider_metadata }),
            _ => None::<AssistantPart>,
        }),
    decreases s.len(),
{
    if s.len() > 0 {
        law_interrupted_response_keeps_generated_content(s.drop_last());
        let prev = s.drop_last().filter_map(|c: OutputContent| match c {
            OutputContent::Text { text, provider_metadata } =>
                Some(AssistantPart::Text { text, provider_options: provider_metadata }),
            OutputContent::Reasoning { text, provider_metadata } =>
                Some(AssistantPart::Reasoning { text, provider_options: provider_metadata }),
            OutputContent::File { media_type, data, provider_metadata } =>
                Some(AssistantPart::File { media_type, data, provider_options: provider_metadata }),
            OutputContent::ReasoningFile { media_type, data, provider_metadata } =>
                Some(AssistantPart::ReasoningFile { media_type, data, provider_options: provider_metadata }),
            _ => None::<AssistantPart>,
        });
        assert(standalone_parts(s.drop_last()) == prev);
        if is_standalone(s.last()) {
            assert(prev.push(assistant_part_of(s.last())->0) =~= prev + seq![assistant_part_of(s.last())->0]);
        }
    }
}

impl OutputContent {
    /// An exact copy.
    pub fn duplicate(&self) -> (r: OutputContent)
        ensures
            r == *self,
    {
        match self {
            OutputContent::Text { text, provider_metadata } =>
                OutputContent::Text { text: text.clone(), provider_metadata: copy_opt(provider_metadata) },
            OutputContent::Reasoning { text, provider_metadata } =>
                OutputContent::Reasoning { text: text.clone(), provider_metadata: copy_opt(provider_metadata) },
            OutputContent::File { media_type, data, provider_metadata } =>
                OutputContent::File { media_type: media_type.clone(), data: data.duplicate(), provider_metadata: copy_opt(provider_metadata) },
            OutputContent::ReasoningFile { media_type, data, provider_metadata } =>
                OutputContent::ReasoningFile { media_type: media_type.clone(), data: data.duplicate(), provider_metadata: copy_opt(provider_metadata) },
            OutputContent::ToolCall { tool_call_id, tool_name, input, provider_executed, dynamic, provider_metadata } =>
                OutputContent::ToolCall {
                    tool_call_id: tool_call_id.clone(),
                    tool_name: tool_name.clone(),
                    input: input.clone(),
                    provider_executed: *provider_executed,
                    dynamic: *dynamic,
                    provider_metadata: copy_opt(provider_metadata),
                },
            OutputContent::ToolResult { tool_call_id, tool_name, output, provider_metadata } =>
                OutputContent::ToolResult {
                    tool_call_id: tool_call_id.clone(),
                    tool_name: tool_name.clone(),
                    output: output.duplicate(),
                    provider_metadata: copy_opt(provider_metadata),
                },
            OutputContent::ToolApprovalRequest { approval_id, tool_call_id, provider_metadata } =>
                OutputContent::ToolApprovalRequest {
                    approval_id: approval_id.clone(),
                    tool_call_id: tool_call_id.clone(),
                    provider_metadata: copy_opt(provider_metadata),
                },
            OutputContent::Source { source } => OutputContent::Source { source: source.duplicate() },
        }
    }

    /// The assistant-message part this piece becomes; sources become none.
    pub fn into_assistant_part(self) -> (r: Option<AssistantPart>)
        ensures
            r == assistant_part_of(self),
    {
        match self {
            OutputContent::Text { text, provider_metadata } =>
                Some(AssistantPart::Text { text, provider_options: provider_metadata }),
            OutputContent::Reasoning { text, provider_metadata } =>
                Some(AssistantPart::Reasoning { text, provider_options: provider_metadata }),
            OutputContent::File { media_type, data, provider_metadata } =>
                Some(AssistantPart::File { media_type, data, provider_options: provider_metadata }),
            OutputContent::ReasoningFile { media_type, data, provider_metadata } =>
                Some(AssistantPart::ReasoningFile { media_type, data, provider_options: provider_metadata }),
            OutputContent::ToolCall { tool_call_id, tool_name, input, provider_executed, dynamic, provider_metadata } =>
                Some(AssistantPart::ToolCall { tool_call_id, tool_name, input, provider_executed, provider_options: provider_metadata }),
            OutputContent::ToolResult { tool_call_id, tool_name, output, provider_metadata } =>
                Some(AssistantPart::ToolResult { tool_call_id, tool_name, output, provider_options: provider_metadata }),
            OutputContent::ToolApprovalRequest { approval_id, tool_call_id, provider_metadata } =>
                Some(AssistantPart::ToolApprovalRequest { approval_id, tool_call_id, provider_options: provider_metadata }),
            OutputContent::Source { .. } => None,
        }
    }
}

/// Copies a sequence of output pieces exactly.
pub fn copy_content(v: &Vec<OutputContent>) -> (r: Vec<OutputContent>)
    ensures
        r@ == v@,
{
    let mut r: Vec<OutputContent> = Vec::new();
    let mut i: usize = 0;
    while i < v.len()
        invariant
            i <= v.len(),
            r@ == v@.take(i as int),
        decreases v.len() - i,
    {
        r.push(v[i].duplicate());
        proof {
            assert(v@.take(i + 1) == v@.take(i as int).push(v@[i as int]));
        }
        i = i + 1;
    }
    proof {
        assert(v@.take(v.len() as int) == v@);
    }
    r
}

/// A model's aggregated output for one request.
#[derive(Clone, Debug, PartialEq, Eq)]
pub struct GenerateResult {
    pub content: Vec<OutputContent>,
    pub finish_reason: FinishReason,
    pub usage: Usage,
    pub provider_metadata: Option<String>,
}

impl GenerateResult {
    /// The assistant message holding this output.
    pub fn into_assistant_message(self) -> (m: Message)
        ensures
            m is Assistant,
            m->Assistant_content@ == assistant_parts(self.content@),
            m->Assistant_provider_options == self.provider_metadata,
    {
        let GenerateResult { content, provider_metadata, .. } = self;
        let mut parts: Vec<AssistantPart> = Vec::new();
        let mut rest = content;
        let ghost all = rest@;
        let mut i: usize = 0;
        let n = rest.len();
        while i < n
            invariant
                n == all.len(),
                i <= n,
                rest@ == all.subrange(i as int, n as int),
                parts@ == assistant_parts(all.take(i as int)),
            decreases n - i,
        {
            let c = rest.remove(0);
            proof {
                assert(c == all[i as int]);
                assert(all.take(i + 1).drop_last() == all.take(i as int));
                assert(all.subrange(i + 1, n as int) == all.subrange(i as int, n as int).drop_first());
            }
            match c.into_assistant_part() {
                Some(p) => parts.push(p),
                None => {},
            }
            i = i + 1;
        }
        proof {
            assert(all.take(n as int) == all);
        }
        Message::Assistant { content: parts, provider_options: provider_metadata }
    }
}

/// A failed model request.
#[derive(Clone, Debug, PartialEq, Eq)]
pub enum ModelError {
    RateLimit(String),
    Authentication(String),
    InvalidRequest(String),
    Network(String),
    StreamError { message: String },
    Unsupported(String),
    Other(String),
}

impl ModelError {
    /// Whether a new attempt may succeed.
    pub open spec fn spec_retryable(self) -> bool {
        self is RateLimit || self is Network || self is StreamError
    }

    /// Whether a new attempt may succeed: rate limits, network and stream failures.
    pub fn is_retryable(&self) -> (b: bool)
        ensures
            b == self.spec_retryable(),
    {
        match self {
            ModelError::RateLimit(_) | ModelError::Network(_) | ModelError::StreamError { .. } => true,
            _ => false,
        }
    }

    pub open spec fn spec_text(self) -> Seq<char> {
        match self {
            ModelError::RateLimit(m) => "请求过于频繁: "@ + m@,
            ModelError::Authentication(m) => "鉴权失败: "@ + m@,
            ModelError::InvalidRequest(m) => "请求无效: "@ + m@,
            ModelError::Network(m) => "网络错误: "@ + m@,
            ModelError::StreamError { message } => "流式响应错误: "@ + message@,
            ModelError::Unsupported(m) => "不支持的操作: "@ + m@,
            ModelError::Other(m) => m@,
        }
    }

    /// The human-readable description.
    pub fn text(&self) -> (s: String)
        ensures
            s@ == self.spec_text(),
    {
        match self {
            ModelError::RateLimit(m) => String::from_str("请求过于频繁: ").concat(m.as_str()),
            ModelError::Authentication(m) => String::from_str("鉴权失败: ").concat(m.as_str()),
            ModelError::InvalidRequest(m) => String::from_str("请求无效: ").concat(m.as_str()),
            ModelError::Network(m) => String::from_str("网络错误: ").concat(m.as_str()),
            ModelError::StreamError { message } => String::from_str("流式响应错误: ").concat(message.as_str()),
            ModelError::Unsupported(m) => String::from_str("不支持的操作: ").concat(m.as_str()),
            ModelError::Other(m) => m.clone(),
        }
    }
}

} // verus!

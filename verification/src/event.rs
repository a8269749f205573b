//! Runtime events, and how model stream parts and tool results map to them.

use vstd::prelude::*;
use vstd::string::StringExecFns;
use crate::json::{compact, json_as_string, json_compact_form, json_string_literal, quote, string_value_of};
use crate::message::{copy_opt, FileData, FinishReason, SourceContent, ToolResultOutput};
use crate::stream::StreamPart;

verus! {

/// A semantic event of an agent run. JSON payloads are JSON text.
#[derive(Clone, Debug, PartialEq, Eq)]
pub enum AgentEvent {
    RunStart { run_id: String, message_id: Option<String>, message_metadata: Option<String> },
    RunFinish { finish_reason: Option<FinishReason>, message_metadata: Option<String> },
    RunAbort { reason: Option<String> },
    RunError { error_text: String },
    StepStart { step_index: usize },
    StepFinish { step_index: usize },
    StepRetry { step_index: usize, reason: Option<String> },
    TextStart { id: String, provider_metadata: Option<String> },
    TextDelta { id: String, delta: String, provider_metadata: Option<String> },
    TextFinish { id: String, provider_metadata: Option<String> },
    ReasoningStart { id: String, provider_metadata: Option<String> },
    ReasoningDelta { id: String, delta: String, provider_metadata: Option<String> },
    ReasoningFinish { id: String, provider_metadata: Option<String> },
    ReasoningFile {
        media_type: String,
        url: Option<String>,
        data: Option<FileData>,
        provider_metadata: Option<String>,
    },
    ToolInputStart {
        tool_call_id: String,
        tool_name: String,
        dynamic: bool,
        provider_executed: bool,
        title: Option<String>,
        tool_metadata: Option<String>,
        provider_metadata: Option<String>,
    },
    ToolInputDelta { tool_call_id: String, input_text_delta: String },
    ToolInputAvailable {
        tool_call_id: String,
        tool_name: String,
        input: String,
        dynamic: bool,
        provider_executed: bool,
        title: Option<String>,
        tool_metadata: Option<String>,
        provider_metadata: Option<String>,
    },
    ToolInputError {
        tool_call_id: String,
        tool_name: String,
        input: String,
        error_text: String,
        dynamic: bool,
        provider_executed: bool,
        title: Option<String>,
        tool_metadata: Option<String>,
        provider_metadata: Option<String>,
    },
    ToolOutputAvailable {
        tool_call_id: String,
        output: ToolResultOutput,
        preliminary: bool,
        dynamic: bool,
        provider_executed: bool,
        tool_metadata: Option<String>,
        provider_metadata: Option<String>,
    },
    ToolOutputError {
        tool_call_id: String,
        error_text: String,
        dynamic: bool,
        provider_executed: bool,
        tool_metadata: Option<String>,
        provider_metadata: Option<String>,
    },
    ToolOutputDenied { tool_call_id: String, reason: Option<String> },
    ToolApprovalRequest {
        approval_id: String,
        tool_call_id: String,
        tool_name: String,
        input: String,
        approval_descriptor: Option<String>,
        reason: Option<String>,
        is_automatic: Option<bool>,
        signature: Option<String>,
    },
    ToolApprovalResponse {
        approval_id: String,
        approved: bool,
        reason: Option<String>,
        provider_executed: bool,
        provider_metadata: Option<String>,
    },
    SourceUrl { source_id: String, url: String, title: Option<String>, provider_metadata: Option<String> },
    SourceDocument {
        source_id: String,
        media_type: String,
        title: String,
        filename: Option<String>,
        provider_metadata: Option<String>,
    },
    FileAttachment {
        media_type: String,
        url: Option<String>,
        data: Option<FileData>,
        provider_metadata: Option<String>,
    },
    MessageMetadata { message_metadata: String },
    CustomData { channel: String, id: Option<String>, data: String, transient: bool },
    Custom { kind: String, data: String, provider_metadata: Option<String> },
}

/// `items` joined by `,` (no separator before the first).
pub open spec fn joined(items: Seq<Seq<char>>) -> Seq<char>
    decreases items.len(),
{
    if items.len() == 0 {
        Seq::empty()
    } else if items.len() == 1 {
        items[0]
    } else {
        joined(items.drop_last()) + ","@ + items.last()
    }
}

/// The JSON array text whose elements are the given JSON texts.
pub open spec fn json_array_text(items: Seq<Seq<char>>) -> Seq<char> {
    "["@ + joined(items) + "]"@
}

/// The views of a sequence of strings.
pub open spec fn views(s: Seq<String>) -> Seq<Seq<char>> {
    s.map_values(|x: String| x@)
}

/// The JSON object text `{"response":<metadata>}`.
pub open spec fn response_metadata_text(metadata: Seq<char>) -> Seq<char> {
    "{\"response\":"@ + metadata + "}"@
}

/// The JSON object text `{"message":<quoted message>,"raw":<raw or null>}`.
pub open spec fn stream_error_text(message: Seq<char>, raw: Option<String>) -> Seq<char> {
    let raw_text = match raw {
        Some(r) => r@,
        None => "null"@,
    };
    "{\"message\":"@ + json_string_literal(message) + ",\"raw\":"@ + raw_text + "}"@
}

/// The compact form of a JSON text; a text that does not parse stays as it is.
pub open spec fn compact_or_raw(text: Seq<char>) -> Seq<char> {
    match json_compact_form(text) {
        Some(c) => c,
        None => text,
    }
}

/// How a provider-side tool result becomes a result payload: a JSON string
/// becomes text, anything else stays JSON; `is_error` picks the error forms.
pub open spec fn is_provider_output(o: ToolResultOutput, is_error: bool, result: Seq<char>) -> bool {
    match json_as_string(result) {
        Some(text) => if is_error {
            o is ErrorText && o->ErrorText_value@ == text && o->ErrorText_provider_options is None
        } else {
            o is Text && o->Text_value@ == text && o->Text_provider_options is None
        },
        None => if is_error {
            o is ErrorJson && o->ErrorJson_value@ == result && o->ErrorJson_provider_options is None
        } else {
            o is Json && o->Json_value@ == result && o->Json_provider_options is None
        },
    }
}

/// The event for a tool result: a final error payload gives `ToolOutputError`
/// (a JSON error printed compactly), a final refusal gives `ToolOutputDenied`,
/// anything else (and every preliminary result) gives `ToolOutputAvailable`.
pub open spec fn output_event_matches(
    e: AgentEvent,
    tool_call_id: String,
    output: ToolResultOutput,
    preliminary: bool,
    provider_executed: bool,
    provider_metadata: Option<String>,
) -> bool {
    if !preliminary && output is ErrorText {
        e == AgentEvent::ToolOutputError {
            tool_call_id,
            error_text: output->ErrorText_value,
            dynamic: false,
            provider_executed,
            tool_metadata: None,
            provider_metadata,
        }
    } else if !preliminary && output is ErrorJson {
        &&& e is ToolOutputError
        &&& e->ToolOutputError_tool_call_id == tool_call_id
        &&& e->ToolOutputError_error_text@ == compact_or_raw(output->ErrorJson_value@)
        &&& !e->ToolOutputError_dynamic
        &&& e->ToolOutputError_provider_executed == provider_executed
        &&& e->ToolOutputError_tool_metadata is None
        &&& e->ToolOutputError_provider_metadata == provider_metadata
    } else if !preliminary && output is ExecutionDenied {
        e == AgentEvent::ToolOutputDenied { tool_call_id, reason: output->ExecutionDenied_reason }
    } else {
        e == AgentEvent::ToolOutputAvailable {
            tool_call_id,
            output,
            preliminary,
            dynamic: false,
            provider_executed,
            tool_metadata: None,
            provider_metadata,
        }
    }
}

/// Chooses the tool-output event by payload: error → `ToolOutputError`,
/// refusal → `ToolOutputDenied`, else `ToolOutputAvailable`. Preliminary
/// results are always `ToolOutputAvailable`.
pub fn tool_output_event(
    tool_call_id: String,
    output: ToolResultOutput,
    preliminary: bool,
    provider_executed: bool,
    provider_metadata: Option<String>,
) -> (e: AgentEvent)
    ensures
        output_event_matches(e, tool_call_id, output, preliminary, provider_executed, provider_metadata),
{
    if !preliminary {
        match &output {
            ToolResultOutput::ErrorText { value, .. } => {
                return tool_error(tool_call_id, value.clone(), provider_executed, provider_metadata);
            },
            ToolResultOutput::ErrorJson { value, .. } => {
                let text = match compact(value.as_str()) {
                    Some(c) => c,
                    None => value.clone(),
                };
                return tool_error(tool_call_id, text, provider_executed, provider_metadata);
            },
            ToolResultOutput::ExecutionDenied { reason, .. } => {
                return AgentEvent::ToolOutputDenied { tool_call_id, reason: copy_opt(reason) };
            },
            _ => {},
        }
    }
    AgentEvent::ToolOutputAvailable {
        tool_call_id,
        output,
        preliminary,
        dynamic: false,
        provider_executed,
        tool_metadata: None,
        provider_metadata,
    }
}

fn tool_error(
    tool_call_id: String,
    error_text: String,
    provider_executed: bool,
    provider_metadata: Option<String>,
) -> (e: AgentEvent)
    ensures
        e == (AgentEvent::ToolOutputError {
            tool_call_id,
            error_text,
            dynamic: false,
            provider_executed,
            tool_metadata: None,
            provider_metadata,
        }),
{
    AgentEvent::ToolOutputError {
        tool_call_id,
        error_text,
        dynamic: false,
        provider_executed,
        tool_metadata: None,
        provider_metadata,
    }
}

/// The payload of a provider-side tool result.
fn provider_result_output(is_error: bool, result: &String) -> (r: ToolResultOutput)
    ensures
        is_provider_output(r, is_error, result@),
{
    match string_value_of(result.as_str()) {
        Some(text) => if is_error {
            ToolResultOutput::error_text(text)
        } else {
            ToolResultOutput::text(text)
        },
        None => if is_error {
            ToolResultOutput::ErrorJson { value: result.clone(), provider_options: None }
        } else {
            ToolResultOutput::json(result.clone())
        },
    }
}

/// A URL reference goes to the `url` slot, inline data to the `data` slot.
fn split_file(data: &FileData) -> (r: (Option<String>, Option<FileData>))
    ensures
        match *data {
            FileData::Url { url } => r == (Some(url), None::<FileData>),
            _ => r == (None::<String>, Some(*data)),
        },
{
    match data {
        FileData::Url { url } => (Some(url.clone()), None),
        other => (None, Some(other.duplicate())),
    }
}

/// `items` joined by `,`.
fn join_texts(items: &Vec<String>) -> (r: String)
    ensures
        r@ == joined(views(items@)),
{
    let mut r = String::new();
    let mut i: usize = 0;
    while i < items.len()
        invariant
            i <= items.len(),
            r@ == joined(views(items@.take(i as int))),
        decreases items.len() - i,
    {
        proof {
            assert(views(items@.take(i + 1)).drop_last() == views(items@.take(i as int)));
            assert(views(items@.take(i + 1)).last() == items@[i as int]@);
        }
        if i > 0 {
            r.append(",");
        }
        r.append(items[i].as_str());
        proof {
            if i == 0 {
                assert(views(items@.take(1)).len() == 1);
            }
        }
        i = i + 1;
    }
    proof {
        assert(items@.take(items.len() as int) == items@);
    }
    r
}

/// The event a stream part maps to. Tool-call completion and approval
/// requests need context and map to none here, as do the finish part and a
/// stream start without warnings.
pub open spec fn mapped_event_matches(part: StreamPart, e: Option<AgentEvent>) -> bool {
    match part {
        StreamPart::StreamStart { warnings } =>
            if warnings@.len() > 0 {
                &&& e is Some
                &&& e->0 is Custom
                &&& e->0->Custom_kind@ == "model.warnings"@
                &&& e->0->Custom_data@ == json_array_text(views(warnings@))
                &&& e->0->Custom_provider_metadata is None
            } else {
                e is None
            },
        StreamPart::ResponseMetadata { metadata } => {
            &&& e is Some
            &&& e->0 is MessageMetadata
            &&& e->0->MessageMetadata_message_metadata@ == response_metadata_text(metadata@)
        },
        StreamPart::TextStart { id, provider_metadata } =>
            e == Some(AgentEvent::TextStart { id, provider_metadata }),
        StreamPart::TextDelta { id, delta, provider_metadata } =>
            e == Some(AgentEvent::TextDelta { id, delta, provider_metadata }),
        StreamPart::TextEnd { id, provider_metadata } =>
            e == Some(AgentEvent::TextFinish { id, provider_metadata }),
        StreamPart::ReasoningStart { id, provider_metadata } =>
            e == Some(AgentEvent::ReasoningStart { id, provider_metadata }),
        StreamPart::ReasoningDelta { id, delta, provider_metadata } =>
            e == Some(AgentEvent::ReasoningDelta { id, delta, provider_metadata }),
        StreamPart::ReasoningEnd { id, provider_metadata } =>
            e == Some(AgentEvent::ReasoningFinish { id, provider_metadata }),
        StreamPart::ToolInputStart { id, tool_name, provider_executed, dynamic, title, provider_metadata } =>
            e == Some(AgentEvent::ToolInputStart {
                tool_call_id: id,
                tool_name,
                dynamic,
                provider_executed,
                title,
                tool_metadata: None,
                provider_metadata,
            }),
        StreamPart::ToolInputDelta { id, delta, .. } =>
            e == Some(AgentEvent::ToolInputDelta { tool_call_id: id, input_text_delta: delta }),
        StreamPart::ToolResult { tool_call_id, result, is_error, preliminary, provider_metadata, .. } => {
            &&& e is Some
            &&& exists|o: ToolResultOutput|
                is_provider_output(o, is_error, result@)
                && #[trigger] output_event_matches(e->0, tool_call_id, o, preliminary, true, provider_metadata)
        },
        StreamPart::File { media_type, data, provider_metadata } => {
            let (url, d) = file_slots(data);
            e == Some(AgentEvent::FileAttachment { media_type, url, data: d, provider_metadata })
        },
        StreamPart::ReasoningFile { media_type, data, provider_metadata } => {
            let (url, d) = file_slots(data);
            e == Some(AgentEvent::ReasoningFile { media_type, url, data: d, provider_metadata })
        },
        StreamPart::Source { source } => match source {
            SourceContent::Url { id, url, title, provider_metadata } =>
                e == Some(AgentEvent::SourceUrl { source_id: id, url, title, provider_metadata }),
            SourceContent::Document { id, media_type, title, filename, provider_metadata } =>
                e == Some(AgentEvent::SourceDocument { source_id: id, media_type, title, filename, provider_metadata }),
        },
        StreamPart::Custom { kind, data, provider_metadata } =>
            e == Some(AgentEvent::Custom { kind, data, provider_metadata }),
        StreamPart::Error { message, raw } => {
            &&& e is Some
            &&& e->0 is Custom
            &&& e->0->Custom_kind@ == "model.stream_error"@
            &&& e->0->Custom_data@ == stream_error_text(message@, raw)
            &&& e->0->Custom_provider_metadata is None
        },
        StreamPart::Raw { raw_value } => {
            &&& e is Some
            &&& e->0 is Custom
            &&& e->0->Custom_kind@ == "model.raw"@
            &&& e->0->Custom_data == raw_value
            &&& e->0->Custom_provider_metadata is None
        },
        StreamPart::ToolInputEnd { .. } => e is None,
        StreamPart::ToolCall { .. } => e is None,
        StreamPart::ToolApprovalRequest { .. } => e is None,
        StreamPart::Finish { .. } => e is None,
    }
}

/// The URL slot and data slot a file goes to.
pub open spec fn file_slots(data: FileData) -> (Option<String>, Option<FileData>) {
    match data {
        FileData::Url { url } => (Some(url), None),
        _ => (None, Some(data)),
    }
}

/// Text and reasoning stream parts keep their kind: a text part becomes the
/// text event of the same stage and a reasoning part the reasoning event of
/// the same stage, with the same id, delta and metadata; so reasoning never
/// reaches the host as answer text, nor text as reasoning. Files keep their
/// kind too.
pub proof fn law_text_and_reasoning_keep_their_kind(part: StreamPart, e: Option<AgentEvent>)
    requires
        mapped_event_matches(part, e),
    ensures
        part is TextStart ==> (e == Some(AgentEvent::TextStart {
            id: part->TextStart_id,
            provider_metadata: part->TextStart_provider_metadata,
        })),
        part is TextDelta ==> (e == Some(AgentEvent::TextDelta {
            id: part->TextDelta_id,
            delta: part->TextDelta_delta,
            provider_metadata: part->TextDelta_provider_metadata,
        })),
        part is TextEnd ==> (e == Some(AgentEvent::TextFinish {
            id: part->TextEnd_id,
            provider_metadata: part->TextEnd_provider_metadata,
        })),
        part is ReasoningStart ==> (e == Some(AgentEvent::ReasoningStart {
            id: part->ReasoningStart_id,
            provider_metadata: part->ReasoningStart_provider_metadata,
        })),
        part is ReasoningDelta ==> (e == Some(AgentEvent::ReasoningDelta {
            id: part->ReasoningDelta_id,
            delta: part->ReasoningDelta_delta,
            provider_metadata: part->ReasoningDelta_provider_metadata,
        })),
        part is ReasoningEnd ==> (e == Some(AgentEvent::ReasoningFinish {
            id: part->ReasoningEnd_id,
            provider_metadata: part->ReasoningEnd_provider_metadata,
        })),
        (part is ReasoningDelta || part is ReasoningStart || part is ReasoningEnd) ==> (e is Some
            && !(e->0 is TextStart || e->0 is TextDelta || e->0 is TextFinish)),
        (part is TextDelta || part is TextStart || part is TextEnd) ==> (e is Some
            && !(e->0 is ReasoningStart || e->0 is ReasoningDelta || e->0 is ReasoningFinish)),
        part is File ==> (e is Some && e->0 is FileAttachment
            && e->0->FileAttachment_media_type == part->File_media_type),
        part is ReasoningFile ==> (e is Some && e->0 is ReasoningFile
            && e->0->ReasoningFile_media_type == part->ReasoningFile_media_type),
{
}

/// Maps one model stream part to a runtime event.
///
/// Returns `None` for parts the loop handles with context: `ToolInputEnd`
/// and `ToolCall` (the input is validated first), `ToolApprovalRequest`
/// (the tool name and input are filled in), `Finish`, and a `StreamStart`
/// without warnings.
pub fn map_stream_part(part: &StreamPart) -> (e: Option<AgentEvent>)
    ensures
        mapped_event_matches(*part, e),
{
    match part {
        StreamPart::StreamStart { warnings } => {
            if warnings.len() == 0 {
                return None;
            }
            let body = join_texts(warnings);
            let data = String::from_str("[").concat(body.as_str()).concat("]");
            Some(AgentEvent::Custom { kind: String::from_str("model.warnings"), data, provider_metadata: None })
        },
        StreamPart::ResponseMetadata { metadata } => {
            let text = String::from_str("{\"response\":").concat(metadata.as_str()).concat("}");
            Some(AgentEvent::MessageMetadata { message_metadata: text })
        },
        StreamPart::TextStart { id, provider_metadata } =>
            Some(AgentEvent::TextStart { id: id.clone(), provider_metadata: copy_opt(provider_metadata) }),
        StreamPart::TextDelta { id, delta, provider_metadata } =>
            Some(AgentEvent::TextDelta { id: id.clone(), delta: delta.clone(), provider_metadata: copy_opt(provider_metadata) }),
        StreamPart::TextEnd { id, provider_metadata } =>
            Some(AgentEvent::TextFinish { id: id.clone(), provider_metadata: copy_opt(provider_metadata) }),
        StreamPart::ReasoningStart { id, provider_metadata } =>
            Some(AgentEvent::ReasoningStart { id: id.clone(), provider_metadata: copy_opt(provider_metadata) }),
        StreamPart::ReasoningDelta { id, delta, provider_metadata } =>
            Some(AgentEvent::ReasoningDelta { id: id.clone(), delta: delta.clone(), provider_metadata: copy_opt(provider_metadata) }),
        StreamPart::ReasoningEnd { id, provider_metadata } =>
            Some(AgentEvent::ReasoningFinish { id: id.clone(), provider_metadata: copy_opt(provider_metadata) }),
        StreamPart::ToolInputStart { id, tool_name, provider_executed, dynamic, title, provider_metadata } =>
            Some(AgentEvent::ToolInputStart {
                tool_call_id: id.clone(),
                tool_name: tool_name.clone(),
                dynamic: *dynamic,
                provider_executed: *provider_executed,
                title: copy_opt(title),
                tool_metadata: None,
                provider_metadata: copy_opt(provider_metadata),
            }),
        StreamPart::ToolInputDelta { id, delta, .. } =>
            Some(AgentEvent::ToolInputDelta { tool_call_id: id.clone(), input_text_delta: delta.clone() }),
        StreamPart::ToolResult { tool_call_id, result, is_error, preliminary, provider_metadata, .. } => {
            let output = provider_result_output(*is_error, result);
            let e = tool_output_event(tool_call_id.clone(), output, *preliminary, true, copy_opt(provider_metadata));
            Some(e)
        },
        StreamPart::File { media_type, data, provider_metadata } => {
            let (url, d) = split_file(data);
            Some(AgentEvent::FileAttachment { media_type: media_type.clone(), url, data: d, provider_metadata: copy_opt(provider_metadata) })
        },
        StreamPart::ReasoningFile { media_type, data, provider_metadata } => {
            let (url, d) = split_file(data);
            Some(AgentEvent::ReasoningFile { media_type: media_type.clone(), url, data: d, provider_metadata: copy_opt(provider_metadata) })
        },
        StreamPart::Source { source } => match source {
            SourceContent::Url { id, url, title, provider_metadata } =>
                Some(AgentEvent::SourceUrl {
                    source_id: id.clone(),
                    url: url.clone(),
                    title: copy_opt(title),
                    provider_metadata: copy_opt(provider_metadata),
                }),
            SourceContent::Document { id, media_type, title, filename, provider_metadata } =>
                Some(AgentEvent::SourceDocument {
                    source_id: id.clone(),
                    media_type: media_type.clone(),
                    title: title.clone(),
                    filename: copy_opt(filename),
                    provider_metadata: copy_opt(provider_metadata),
                }),
        },
        StreamPart::Custom { kind, data, provider_metadata } =>
            Some(AgentEvent::Custom { kind: kind.clone(), data: data.clone(), provider_metadata: copy_opt(provider_metadata) }),
        StreamPart::Error { message, raw } => {
            let raw_text = match raw {
                Some(r) => r.clone(),
                None => String::from_str("null"),
            };
            let data = String::from_str("{\"message\":")
                .concat(quote(message.as_str()).as_str())
                .concat(",\"raw\":")
                .concat(raw_text.as_str())
                .concat("}");
            Some(AgentEvent::Custom { kind: String::from_str("model.stream_error"), data, provider_metadata: None })
        },
        StreamPart::Raw { raw_value } =>
            Some(AgentEvent::Custom { kind: String::from_str("model.raw"), data: raw_value.clone(), provider_metadata: None }),
        StreamPart::ToolInputEnd { .. } => None,
        StreamPart::ToolCall { .. } => None,
        StreamPart::ToolApprovalRequest { .. } => None,
        StreamPart::Finish { .. } => None,
    }
}

} // verus!

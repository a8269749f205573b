//! What a request is built from: the tool declarations, the prompt, and the
//! lookup and input validation of local tools.

use vstd::prelude::*;
use vstd::string::{StrSliceExecFns, StringExecFns};
use crate::json::{is_trim_of, json_parse_error, json_string_literal, parse_error_of, quote, trim_text};
use crate::message::Message;
use crate::tool::types::{FunctionTool, ProviderTool, ToolDefinition, ToolSpec};

verus! {

/// `r` is the index of the first tool named `name`, or none when no tool is.
pub open spec fn is_first_named(tools: Seq<ToolSpec>, name: Seq<char>, r: Option<usize>) -> bool {
    match r {
        Some(i) => i < tools.len() && tools[i as int].name@ == name
            && forall|j: int| 0 <= j < i ==> #[trigger] tools[j].name@ != name,
        None => forall|j: int| 0 <= j < tools.len() ==> #[trigger] tools[j].name@ != name,
    }
}

/// Finds the first local tool with this name.
pub fn find_tool_index(tools: &Vec<ToolSpec>, name: &str) -> (r: Option<usize>)
    ensures
        is_first_named(tools@, name@, r),
{
    let key = String::from_str(name);
    let mut i: usize = 0;
    while i < tools.len()
        invariant
            i <= tools.len(),
            key@ == name@,
            forall|j: int| 0 <= j < i ==> #[trigger] tools@[j].name@ != name@,
        decreases tools.len() - i,
    {
        if tools[i].name == key {
            return Some(i);
        }
        i = i + 1;
    }
    None
}

/// The declarations of a request: the local tools as functions, then the
/// provider tools.
pub open spec fn declarations(functions: Seq<FunctionTool>, providers: Seq<ProviderTool>) -> Seq<ToolDefinition> {
    functions.map_values(|f: FunctionTool| ToolDefinition::Function(f))
        + providers.map_values(|p: ProviderTool| ToolDefinition::Provider(p))
}

/// The tool declarations of a request; `None` when there is no tool at all.
pub fn tool_definitions(functions: &Vec<FunctionTool>, providers: &Vec<ProviderTool>) -> (r: Option<Vec<ToolDefinition>>)
    ensures
        (r is None) == (functions@.len() == 0 && providers@.len() == 0),
        r matches Some(v) ==> v@ == declarations(functions@, providers@),
{
    let mut v: Vec<ToolDefinition> = Vec::new();
    let mut i: usize = 0;
    while i < functions.len()
        invariant
            i <= functions.len(),
            v@ == functions@.take(i as int).map_values(|f: FunctionTool| ToolDefinition::Function(f)),
        decreases functions.len() - i,
    {
        v.push(ToolDefinition::Function(functions[i].duplicate()));
        proof {
            assert(functions@.take(i + 1) == functions@.take(i as int).push(functions@[i as int]));
            assert(functions@.take(i + 1).map_values(|f: FunctionTool| ToolDefinition::Function(f))
                =~= functions@.take(i as int).map_values(|f: FunctionTool| ToolDefinition::Function(f)).push(ToolDefinition::Function(functions@[i as int])));
        }
        i = i + 1;
    }
    let mut j: usize = 0;
    while j < providers.len()
        invariant
            i == functions.len(),
            j <= providers.len(),
            v@ == functions@.map_values(|f: FunctionTool| ToolDefinition::Function(f))
                + providers@.take(j as int).map_values(|p: ProviderTool| ToolDefinition::Provider(p)),
        decreases providers.len() - j,
    {
        proof {
            assert(functions@.take(i as int) == functions@);
        }
        v.push(ToolDefinition::Provider(providers[j].duplicate()));
        proof {
            assert(providers@.take(j + 1) == providers@.take(j as int).push(providers@[j as int]));
            assert(providers@.take(j + 1).map_values(|p: ProviderTool| ToolDefinition::Provider(p))
                =~= providers@.take(j as int).map_values(|p: ProviderTool| ToolDefinition::Provider(p)).push(ToolDefinition::Provider(providers@[j as int])));
        }
        j = j + 1;
    }
    proof {
        assert(functions@.take(functions@.len() as int) == functions@);
        assert(providers@.take(providers@.len() as int) == providers@);
    }
    if v.len() == 0 {
        None
    } else {
        Some(v)
    }
}

/// The prompt of a request: the system prompt first (when there is a
/// non-empty one), then the messages.
pub fn build_prompt(system_prompt: &Option<String>, messages: Vec<Message>) -> (r: Vec<Message>)
    ensures
        match *system_prompt {
            Some(s) => if s@.len() > 0 {
                &&& r@.len() == messages@.len() + 1
                &&& r@[0] is System
                &&& r@[0]->System_content@ == s@
                &&& r@.subrange(1, r@.len() as int) == messages@
            } else {
                r@ == messages@
            },
            None => r@ == messages@,
        },
{
    match system_prompt {
        Some(s) => {
            if s.as_str().unicode_len() == 0 {
                return messages;
            }
            let mut r: Vec<Message> = Vec::new();
            r.push(Message::System { content: s.clone() });
            let mut rest = messages;
            let ghost m = rest@;
            r.append(&mut rest);
            proof {
                assert(r@.subrange(1, r@.len() as int) =~= m);
            }
            r
        },
        None => messages,
    }
}

/// The tool input text that a raw model input stands for: `{}` when it is
/// blank, the trimmed text when that is one JSON value, else the raw text as
/// a JSON string.
pub open spec fn tool_input_text(raw: Seq<char>, r: Seq<char>) -> bool {
    exists|t: Seq<char>| #[trigger] is_trim_of(raw, t) && {
        if t.len() == 0 {
            r == "{}"@
        } else if json_parse_error(t) is None {
            r == t
        } else {
            r == json_string_literal(raw)
        }
    }
}

/// The tool input of a provider-executed call, as JSON text.
pub fn parse_tool_input(raw: &str) -> (r: String)
    ensures
        tool_input_text(raw@, r@),
{
    let t = trim_text(raw);
    if t.unicode_len() == 0 {
        String::from_str("{}")
    } else {
        match parse_error_of(t) {
            None => String::from_str(t),
            Some(_) => quote(raw),
        }
    }
}

/// The outcome of looking up a local tool and reading its raw input: the
/// tool's index and the input's JSON text, or the error text.
pub open spec fn validation_matches(tools: Seq<ToolSpec>, tool_name: Seq<char>, raw: Seq<char>, r: Result<(usize, Seq<char>), Seq<char>>) -> bool {
    exists|found: Option<usize>| #[trigger] is_first_named(tools, tool_name, found) && match found {
        None => r == Err::<(usize, Seq<char>), Seq<char>>("工具 "@ + tool_name + " 不存在"@),
        Some(i) => exists|t: Seq<char>| #[trigger] is_trim_of(raw, t) && {
            if t.len() == 0 {
                r == Ok::<(usize, Seq<char>), Seq<char>>((i, "{}"@))
            } else {
                match json_parse_error(t) {
                    None => r == Ok::<(usize, Seq<char>), Seq<char>>((i, t)),
                    Some(e) => r == Err::<(usize, Seq<char>), Seq<char>>("工具入参不是合法 JSON: "@ + e),
                }
            }
        },
    }
}

/// The view of a validation result.
pub open spec fn validation_view(r: Result<(usize, String), String>) -> Result<(usize, Seq<char>), Seq<char>> {
    match r {
        Ok((i, v)) => Ok((i, v@)),
        Err(e) => Err(e@),
    }
}

/// Looks up the local tool and reads its raw input: a blank input stands
/// for `{}`; anything else must be one JSON value.
pub fn validate_call(tools: &Vec<ToolSpec>, tool_name: &str, raw_input: &str) -> (r: Result<(usize, String), String>)
    ensures
        validation_matches(tools@, tool_name@, raw_input@, validation_view(r)),
{
    let found = find_tool_index(tools, tool_name);
    match found {
        None => Err(String::from_str("工具 ").concat(tool_name).concat(" 不存在")),
        Some(i) => {
            let t = trim_text(raw_input);
            if t.unicode_len() == 0 {
                Ok((i, String::from_str("{}")))
            } else {
                match parse_error_of(t) {
                    None => Ok((i, String::from_str(t))),
                    Some(e) => Err(String::from_str("工具入参不是合法 JSON: ").concat(e.as_str())),
                }
            }
        },
    }
}

} // verus!

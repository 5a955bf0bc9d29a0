//! The tool-specific formatter's decisions.
//!
//! One physical Needle model, many logical agents: each tool gets its own
//! formatter, an engine bound to that tool's complete schema and any
//! tool-provided instructions. The reasoning model issues a semantic
//! request ("find the file abc.exe"); the formatter turns the engine's
//! answer into a validated, structured [`ToolCall`].

use vstd::prelude::*;
use crate::error::{noema_error_text, NoemaError};
use crate::json::{json_text, JsonModel};
use crate::needle::FunctionCall;
use crate::text::{push_str, str_eq, string_of};
use crate::tools::{arguments_valid, schema_object, tool_error_text, ToolCall, ToolError, ToolSchema};

verus! {

/// The system turn every formatter starts from.
pub open spec fn formatter_prompt_text() -> Seq<char> {
    "You are the Noema tool formatter.\nConvert the requested operation into the tool call schema bound to this session. Produce exactly one call. Use only values evidenced in the request; omit optional fields with no evidence. If the request cannot be served by the bound tool, refuse with no call."@
}

/// The system turn of a formatter: the formatter prompt, then the tool's
/// own instructions after a blank line when it has any.
pub open spec fn formatter_system_text(instructions: Option<Seq<char>>) -> Seq<char> {
    match instructions {
        Some(i) => formatter_prompt_text() + "\n\n"@ + i,
        None => formatter_prompt_text(),
    }
}

/// The system turn of a formatter with the given tool instructions.
pub fn formatter_system_prompt(instructions: Option<&str>) -> (s: String)
    ensures
        s@ == formatter_system_text(match instructions {
            Some(i) => Some(i@),
            None => None,
        }),
{
    let mut s = string_of(
        "You are the Noema tool formatter.\nConvert the requested operation into the tool call schema bound to this session. Produce exactly one call. Use only values evidenced in the request; omit optional fields with no evidence. If the request cannot be served by the bound tool, refuse with no call.",
    );
    if let Some(text) = instructions {
        push_str(&mut s, "\n\n");
        push_str(&mut s, text);
    }
    s
}

/// The engine binds a JSON array of tools: a formatter's engine binds the
/// array holding its one tool.
pub fn formatter_tools_json(schema: &ToolSchema) -> (s: String)
    ensures
        s@ == json_text(JsonModel::Array(seq![schema_object(schema.name@, schema.description@, schema.parameters@)])),
{
    let mut s = String::new();
    s.push('[');
    let body = schema.needle_json();
    push_str(&mut s, body.as_str());
    s.push(']');
    proof {
        let items = seq![schema_object(schema.name@, schema.description@, schema.parameters@)];
        assert(crate::json::items_text(items) == json_text(items[0]));
        assert(s@ =~= seq!['['] + crate::json::items_text(items) + seq![']']);
    }
    s
}

/// The error when the formatter refuses a request.
pub open spec fn refused_text(request: Seq<char>, tool: Seq<char>) -> Seq<char> {
    "the tool formatter refused '"@ + request + "' for tool '"@ + tool + "'"@
}

/// The error when the formatter calls another tool.
pub open spec fn wrong_tool_text(called: Seq<char>, tool: Seq<char>) -> Seq<char> {
    "the tool formatter produced a call for '"@ + called + "', expected '"@ + tool + "'"@
}

/// The error when the formatter's confidence is below its threshold,
/// given the text comparing the two.
pub open spec fn uncertain_call_text(comparison: Seq<char>, tool: Seq<char>) -> Seq<char> {
    "low confidence ("@ + comparison + "): uncertain call for '"@ + tool + "'"@
}

/// Turns the engine's answer into a call of the formatter's tool. A
/// refusal (no call), a call of another tool, and a call below the
/// confidence threshold (`comparison` compares the two) are errors; so are
/// arguments that the tool's schema rejects. Otherwise the call carries the
/// engine's arguments.
pub fn format_decision(
    tool_name: &str,
    request: &str,
    first_call: Option<&FunctionCall>,
    confident: bool,
    comparison: &str,
    schema: &ToolSchema,
) -> (r: Result<ToolCall, NoemaError>)
    ensures
        first_call is None ==> (r matches Err(NoemaError::Tool(t)) && t@ == refused_text(request@, tool_name@)),
        first_call is Some && first_call->0.name@ != tool_name@ ==> (r matches Err(NoemaError::Tool(t)) && t@
            == wrong_tool_text(first_call->0.name@, tool_name@)),
        first_call is Some && first_call->0.name@ == tool_name@ && !confident ==> (r matches Err(
            NoemaError::Tool(t),
        ) && t@ == uncertain_call_text(comparison@, tool_name@)),
        first_call is Some && first_call->0.name@ == tool_name@ && confident ==> (r is Ok <==> arguments_valid(
            schema.parameters@,
            first_call->0.arguments@,
        )),
        r matches Ok(c) ==> first_call is Some && c.tool@ == first_call->0.name@ && c.arguments@
            == first_call->0.arguments@,
        r matches Err(e) ==> e is Tool,
{
    let call = match first_call {
        Some(c) => c,
        None => {
            let mut t = string_of("the tool formatter refused '");
            push_str(&mut t, request);
            push_str(&mut t, "' for tool '");
            push_str(&mut t, tool_name);
            push_str(&mut t, "'");
            return Err(NoemaError::Tool(t));
        },
    };
    if !str_eq(call.name.as_str(), tool_name) {
        let mut t = string_of("the tool formatter produced a call for '");
        push_str(&mut t, call.name.as_str());
        push_str(&mut t, "', expected '");
        push_str(&mut t, tool_name);
        push_str(&mut t, "'");
        return Err(NoemaError::Tool(t));
    }
    if !confident {
        let mut t = string_of("low confidence (");
        push_str(&mut t, comparison);
        push_str(&mut t, "): uncertain call for '");
        push_str(&mut t, tool_name);
        push_str(&mut t, "'");
        return Err(NoemaError::Tool(t));
    }
    let formatted = ToolCall::with_arguments(call.name.as_str(), call.arguments.duplicate());
    match schema.validate_arguments(&formatted.arguments) {
        Ok(()) => Ok(formatted),
        Err(error) => Err(NoemaError::from_tool_error(error)),
    }
}

} // verus!

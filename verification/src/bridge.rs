//! The Needle → Gemma confidence bridge: five stub tools, their registry,
//! and the bridge's decisions.
//!
//! Every user message goes to the Needle engine first. When the engine is
//! confident it calls one of the registered tools, the tool runs and the
//! call is the outcome; when confidence is low or the engine refuses, the
//! same message goes to the reasoning model.

use vstd::prelude::*;
use crate::error::NoemaError;
use crate::json::{
    lemma_items_model_all, lemma_members_model_all, items_model, members_model, model_get, JsonModel, JsonValue,
};
use crate::model::{ContentPart, Message};
use crate::needle::FunctionCall;
use crate::registry::{has_name, tool_name, RegisteredTool, ToolRegistry};
use crate::risk::RiskLevel;
use crate::text::{push_str, string_of};
use crate::tools::{ToolCall, ToolMetadata, ToolResult, ToolSchema};

verus! {

/// The schema of one string parameter: its type and description.
pub open spec fn string_property(p: (Seq<char>, Seq<char>)) -> (Seq<char>, JsonModel) {
    (p.0, JsonModel::Object(seq![("type"@, JsonModel::Str("string"@)), ("description"@, JsonModel::Str(p.1))]))
}

/// The parameter schema of a tool whose parameters are all strings: the
/// object type, the properties in order, and the required names.
pub open spec fn string_parameters_model(props: Seq<(Seq<char>, Seq<char>)>, required: Seq<Seq<char>>) -> JsonModel {
    JsonModel::Object(
        seq![
            ("type"@, JsonModel::Str("object"@)),
            ("properties"@, JsonModel::Object(props.map_values(|p: (Seq<char>, Seq<char>)| string_property(p)))),
            ("required"@, JsonModel::Array(required.map_values(|r: Seq<char>| JsonModel::Str(r)))),
        ],
    )
}

/// Builds the parameter schema of a tool whose parameters are all strings.
pub fn string_parameters(props: Vec<(&str, &str)>, required: Vec<&str>) -> (v: JsonValue)
    ensures
        v@ == string_parameters_model(
            props@.map_values(|p: (&str, &str)| (p.0@, p.1@)),
            required@.map_values(|r: &str| r@),
        ),
{
    let ghost pv = props@.map_values(|p: (&str, &str)| (p.0@, p.1@));
    let mut properties: Vec<(String, JsonValue)> = Vec::new();
    let mut i: usize = 0;
    while i < props.len()
        invariant
            i <= props@.len(),
            pv == props@.map_values(|p: (&str, &str)| (p.0@, p.1@)),
            properties@.len() == i,
            forall|j: int| 0 <= j < i ==> ((#[trigger] properties@[j]).0@, value_of(properties@[j].1)) == string_property(pv[j]),
        decreases props.len() - i,
    {
        let (name, description) = props[i];
        let mut fields: Vec<(String, JsonValue)> = Vec::new();
        fields.push((string_of("type"), JsonValue::string("string")));
        fields.push((string_of("description"), JsonValue::string(description)));
        proof {
            lemma_members_model_all(fields@);
            assert(members_model(fields@) =~= seq![
                ("type"@, JsonModel::Str("string"@)),
                ("description"@, JsonModel::Str(description@)),
            ]);
        }
        properties.push((string_of(name), JsonValue::Object(fields)));
        i += 1;
    }
    let mut names: Vec<JsonValue> = Vec::new();
    let mut k: usize = 0;
    while k < required.len()
        invariant
            k <= required@.len(),
            names@.len() == k,
            forall|j: int| 0 <= j < k ==> (#[trigger] names@[j])@ == JsonModel::Str(required@[j]@),
        decreases required.len() - k,
    {
        names.push(JsonValue::string(required[k]));
        k += 1;
    }
    let mut members: Vec<(String, JsonValue)> = Vec::new();
    members.push((string_of("type"), JsonValue::string("object")));
    let ghost props_model = pv.map_values(|p: (Seq<char>, Seq<char>)| string_property(p));
    let ghost names_model = required@.map_values(|r: &str| r@).map_values(|r: Seq<char>| JsonModel::Str(r));
    proof {
        lemma_members_model_all(properties@);
        assert(members_model(properties@) =~= props_model);
        lemma_items_model_all(names@);
        assert(items_model(names@) =~= names_model);
    }
    let props_value = JsonValue::Object(properties);
    let names_value = JsonValue::Array(names);
    assert(props_value@ == JsonModel::Object(props_model));
    assert(names_value@ == JsonModel::Array(names_model));
    members.push((string_of("properties"), props_value));
    members.push((string_of("required"), names_value));
    proof {
        lemma_members_model_all(members@);
        assert(members_model(members@) =~= seq![
            ("type"@, JsonModel::Str("object"@)),
            ("properties"@, JsonModel::Object(props_model)),
            ("required"@, JsonModel::Array(names_model)),
        ]);
    }
    let v = JsonValue::Object(members);
    v
}

fn one_property(name: &'static str, description: &'static str) -> (v: Vec<(&'static str, &'static str)>)
    ensures
        v@ == seq![(name, description)],
{
    let mut v = Vec::new();
    v.push((name, description));
    v
}

fn two_properties(a: (&'static str, &'static str), b: (&'static str, &'static str)) -> (v: Vec<(&'static str, &'static str)>)
    ensures
        v@ == seq![a, b],
{
    let mut v = Vec::new();
    v.push(a);
    v.push(b);
    v
}

fn one_name(name: &'static str) -> (v: Vec<&'static str>)
    ensures
        v@ == seq![name],
{
    let mut v = Vec::new();
    v.push(name);
    v
}

fn two_names(a: &'static str, b: &'static str) -> (v: Vec<&'static str>)
    ensures
        v@ == seq![a, b],
{
    let mut v = Vec::new();
    v.push(a);
    v.push(b);
    v
}

/// The model of a JSON value.
pub open spec fn value_of(v: JsonValue) -> JsonModel {
    v@
}

/// The string stored under `key` in a JSON object, if it is a string.
pub open spec fn string_argument_of(arguments: JsonModel, key: Seq<char>) -> Option<Seq<char>> {
    match model_get(arguments, key) {
        Some(JsonModel::Str(s)) => Some(s),
        _ => None,
    }
}

/// The string stored under `key`, or `fallback` when the arguments hold no
/// string there.
pub fn string_argument(arguments: &JsonValue, key: &str, fallback: &str) -> (s: String)
    ensures
        s@ == match string_argument_of(arguments@, key@) {
            Some(v) => v,
            None => fallback@,
        },
{
    match arguments.get(key) {
        Some(JsonValue::Str(v)) => v.clone(),
        _ => string_of(fallback),
    }
}

/// The metadata every stub tool shares: its name and description, the
/// bridge crate, and no risk.
pub open spec fn stub_metadata(m: ToolMetadata, name: Seq<char>, description: Seq<char>) -> bool {
    m.name@ == name && m.crate_name@ == "noema-bridge"@ && m.description@ == description && m.risk
        == RiskLevel::NoRisk
}

fn stub_tool_metadata(name: &str, description: &str) -> (m: ToolMetadata)
    ensures
        stub_metadata(m, name@, description@),
{
    ToolMetadata {
        name: string_of(name),
        crate_name: string_of("noema-bridge"),
        description: string_of(description),
        risk: RiskLevel::NoRisk,
    }
}

/// A search tool stub.
#[derive(Debug, Clone, Copy)]
pub struct SearchTool;

impl SearchTool {
    /// `search`: search for information.
    pub fn metadata(&self) -> (m: ToolMetadata)
        ensures
            stub_metadata(m, "search"@, "Search for information"@),
    {
        stub_tool_metadata("search", "Search for information")
    }

    /// One required string parameter, `query`.
    pub fn schema(&self) -> (s: ToolSchema)
        ensures
            s.name@ == "search"@,
            s.description@ == "Search for information"@,
            s.parameters@ == string_parameters_model(seq![("query"@, "The search query"@)], seq!["query"@]),
    {
        let parameters = string_parameters(one_property("query", "The search query"), one_name("query"));
        proof {
            assert(seq![("query", "The search query")].map_values(|p: (&str, &str)| (p.0@, p.1@)) =~= seq![
                ("query"@, "The search query"@),
            ]);
            assert(seq!["query"].map_values(|r: &str| r@) =~= seq!["query"@]);
        }
        ToolSchema { name: string_of("search"), description: string_of("Search for information"), parameters }
    }

    /// `Search results for '<query>': [stub data]` (`unknown` without a
    /// query).
    pub fn run(&self, call: &ToolCall) -> (r: ToolResult)
        ensures
            r.success,
            r.data is None,
            r.text@ == "Search results for '"@ + arg_or(call.arguments@, "query"@, "unknown"@) + "': [stub data]"@,
    {
        let query = string_argument(&call.arguments, "query", "unknown");
        let mut text = string_of("Search results for '");
        push_str(&mut text, query.as_str());
        push_str(&mut text, "': [stub data]");
        ToolResult { success: true, text, data: None }
    }
}

/// The string argument under `key`, or `fallback`.
pub open spec fn arg_or(arguments: JsonModel, key: Seq<char>, fallback: Seq<char>) -> Seq<char> {
    match string_argument_of(arguments, key) {
        Some(v) => v,
        None => fallback,
    }
}

/// A calculate tool stub.
#[derive(Debug, Clone, Copy)]
pub struct CalculateTool;

impl CalculateTool {
    /// `calculate`: perform a calculation.
    pub fn metadata(&self) -> (m: ToolMetadata)
        ensures
            stub_metadata(m, "calculate"@, "Perform a calculation"@),
    {
        stub_tool_metadata("calculate", "Perform a calculation")
    }

    /// One required string parameter, `expression`.
    pub fn schema(&self) -> (s: ToolSchema)
        ensures
            s.name@ == "calculate"@,
            s.description@ == "Perform a calculation"@,
            s.parameters@ == string_parameters_model(
                seq![("expression"@, "The mathematical expression"@)],
                seq!["expression"@],
            ),
    {
        let parameters = string_parameters(one_property("expression", "The mathematical expression"), one_name("expression"));
        proof {
            assert(seq![("expression", "The mathematical expression")].map_values(
                |p: (&str, &str)| (p.0@, p.1@),
            ) =~= seq![("expression"@, "The mathematical expression"@)]);
            assert(seq!["expression"].map_values(|r: &str| r@) =~= seq!["expression"@]);
        }
        ToolSchema { name: string_of("calculate"), description: string_of("Perform a calculation"), parameters }
    }

    /// `Result of '<expression>': 42 (stub)` (`unknown` without an
    /// expression).
    pub fn run(&self, call: &ToolCall) -> (r: ToolResult)
        ensures
            r.success,
            r.data is None,
            r.text@ == "Result of '"@ + arg_or(call.arguments@, "expression"@, "unknown"@) + "': 42 (stub)"@,
    {
        let expr = string_argument(&call.arguments, "expression", "unknown");
        let mut text = string_of("Result of '");
        push_str(&mut text, expr.as_str());
        push_str(&mut text, "': 42 (stub)");
        ToolResult { success: true, text, data: None }
    }
}

/// A translate tool stub.
#[derive(Debug, Clone, Copy)]
pub struct TranslateTool;

impl TranslateTool {
    /// `translate`: translate text between languages.
    pub fn metadata(&self) -> (m: ToolMetadata)
        ensures
            stub_metadata(m, "translate"@, "Translate text between languages"@),
    {
        stub_tool_metadata("translate", "Translate text between languages")
    }

    /// Two required string parameters, `text` and `target_language`.
    pub fn schema(&self) -> (s: ToolSchema)
        ensures
            s.name@ == "translate"@,
            s.description@ == "Translate text between languages"@,
            s.parameters@ == string_parameters_model(
                seq![("text"@, "The text to translate"@), ("target_language"@, "Target language code"@)],
                seq!["text"@, "target_language"@],
            ),
    {
        let parameters = string_parameters(
            two_properties(("text", "The text to translate"), ("target_language", "Target language code")),
            two_names("text", "target_language"),
        );
        proof {
            assert(seq![("text", "The text to translate"), ("target_language", "Target language code")].map_values(
                |p: (&str, &str)| (p.0@, p.1@),
            ) =~= seq![("text"@, "The text to translate"@), ("target_language"@, "Target language code"@)]);
            assert(seq!["text", "target_language"].map_values(|r: &str| r@) =~= seq!["text"@, "target_language"@]);
        }
        ToolSchema {
            name: string_of("translate"),
            description: string_of("Translate text between languages"),
            parameters,
        }
    }

    /// `Translation to <lang>: '<text>' (stub)` (`xx` without a language,
    /// `unknown` without a text).
    pub fn run(&self, call: &ToolCall) -> (r: ToolResult)
        ensures
            r.success,
            r.data is None,
            r.text@ == "Translation to "@ + arg_or(call.arguments@, "target_language"@, "xx"@) + ": '"@ + arg_or(
                call.arguments@,
                "text"@,
                "unknown"@,
            ) + "' (stub)"@,
    {
        let source = string_argument(&call.arguments, "text", "unknown");
        let lang = string_argument(&call.arguments, "target_language", "xx");
        let mut text = string_of("Translation to ");
        push_str(&mut text, lang.as_str());
        push_str(&mut text, ": '");
        push_str(&mut text, source.as_str());
        push_str(&mut text, "' (stub)");
        ToolResult { success: true, text, data: None }
    }
}

/// A summarize tool stub.
#[derive(Debug, Clone, Copy)]
pub struct SummarizeTool;

impl SummarizeTool {
    /// `summarize`: summarize text.
    pub fn metadata(&self) -> (m: ToolMetadata)
        ensures
            stub_metadata(m, "summarize"@, "Summarize text"@),
    {
        stub_tool_metadata("summarize", "Summarize text")
    }

    /// One required string parameter, `text`.
    pub fn schema(&self) -> (s: ToolSchema)
        ensures
            s.name@ == "summarize"@,
            s.description@ == "Summarize text"@,
            s.parameters@ == string_parameters_model(seq![("text"@, "The text to summarize"@)], seq!["text"@]),
    {
        let parameters = string_parameters(one_property("text", "The text to summarize"), one_name("text"));
        proof {
            assert(seq![("text", "The text to summarize")].map_values(|p: (&str, &str)| (p.0@, p.1@)) =~= seq![
                ("text"@, "The text to summarize"@),
            ]);
            assert(seq!["text"].map_values(|r: &str| r@) =~= seq!["text"@]);
        }
        ToolSchema { name: string_of("summarize"), description: string_of("Summarize text"), parameters }
    }

    /// `Summary: <text>... (stub)` (`unknown` without a text).
    pub fn run(&self, call: &ToolCall) -> (r: ToolResult)
        ensures
            r.success,
            r.data is None,
            r.text@ == "Summary: "@ + arg_or(call.arguments@, "text"@, "unknown"@) + "... (stub)"@,
    {
        let source = string_argument(&call.arguments, "text", "unknown");
        let mut text = string_of("Summary: ");
        push_str(&mut text, source.as_str());
        push_str(&mut text, "... (stub)");
        ToolResult { success: true, text, data: None }
    }
}

/// A navigate tool stub.
#[derive(Debug, Clone, Copy)]
pub struct NavigateTool;

impl NavigateTool {
    /// `navigate`: navigate to a location or URL.
    pub fn metadata(&self) -> (m: ToolMetadata)
        ensures
            stub_metadata(m, "navigate"@, "Navigate to a location or URL"@),
    {
        stub_tool_metadata("navigate", "Navigate to a location or URL")
    }

    /// One required string parameter, `destination`.
    pub fn schema(&self) -> (s: ToolSchema)
        ensures
            s.name@ == "navigate"@,
            s.description@ == "Navigate to a location or URL"@,
            s.parameters@ == string_parameters_model(
                seq![("destination"@, "The destination URL or location"@)],
                seq!["destination"@],
            ),
    {
        let parameters = string_parameters(one_property("destination", "The destination URL or location"), one_name("destination"));
        proof {
            assert(seq![("destination", "The destination URL or location")].map_values(
                |p: (&str, &str)| (p.0@, p.1@),
            ) =~= seq![("destination"@, "The destination URL or location"@)]);
            assert(seq!["destination"].map_values(|r: &str| r@) =~= seq!["destination"@]);
        }
        ToolSchema {
            name: string_of("navigate"),
            description: string_of("Navigate to a location or URL"),
            parameters,
        }
    }

    /// `Navigated to: <destination> (stub)` (`unknown` without a
    /// destination).
    pub fn run(&self, call: &ToolCall) -> (r: ToolResult)
        ensures
            r.success,
            r.data is None,
            r.text@ == "Navigated to: "@ + arg_or(call.arguments@, "destination"@, "unknown"@) + " (stub)"@,
    {
        let dest = string_argument(&call.arguments, "destination", "unknown");
        let mut text = string_of("Navigated to: ");
        push_str(&mut text, dest.as_str());
        push_str(&mut text, " (stub)");
        ToolResult { success: true, text, data: None }
    }
}

/// The names of the stub tools.
pub open spec fn stub_names() -> Seq<Seq<char>> {
    seq!["search"@, "calculate"@, "translate"@, "summarize"@, "navigate"@]
}

/// Inserting a tool adds exactly its name to the names present.
proof fn lemma_insert_names(s: Seq<RegisteredTool>, k: int, t: RegisteredTool, n: Seq<char>)
    requires
        0 <= k <= s.len(),
    ensures
        has_name(s.insert(k, t), n) <==> (has_name(s, n) || tool_name(t) == n),
{
    let u = s.insert(k, t);
    if has_name(s, n) {
        let i = choose|i: int| 0 <= i < s.len() && #[trigger] tool_name(s[i]) == n;
        if i < k {
            assert(u[i] == s[i]);
        } else {
            assert(u[i + 1] == s[i]);
        }
    }
    if tool_name(t) == n {
        assert(u[k] == t);
    }
    if has_name(u, n) {
        let i = choose|i: int| 0 <= i < u.len() && #[trigger] tool_name(u[i]) == n;
        if i < k {
            assert(u[i] == s[i]);
        } else if i > k {
            assert(u[i] == s[i - 1]);
        }
    }
}

/// Registers a tool whose name is not registered yet.
/// Every tool is a bridge stub: from `noema-bridge`, with no risk.
pub open spec fn all_stubs(s: Seq<RegisteredTool>) -> bool {
    forall|i: int| 0 <= i < s.len() ==> #[trigger] s[i].metadata.crate_name@ == "noema-bridge"@
        && s[i].metadata.risk == RiskLevel::NoRisk
}

fn register_new(registry: &mut ToolRegistry, tool: RegisteredTool)
    requires
        !has_name(old(registry).tools(), tool_name(tool)),
    ensures
        final(registry).tools().len() == old(registry).tools().len() + 1,
        forall|n: Seq<char>| has_name(final(registry).tools(), n) <==> (has_name(old(registry).tools(), n)
            || tool_name(tool) == n),
        all_stubs(old(registry).tools()) && tool.metadata.crate_name@ == "noema-bridge"@ && tool.metadata.risk
            == RiskLevel::NoRisk ==> all_stubs(final(registry).tools()),
{
    let ghost before = registry.tools();
    let ghost name = tool_name(tool);
    let ghost t = tool;
    let _ = registry.register(tool);
    proof {
        let k = crate::registry::rank_of(before, name) as int;
        crate::registry::lemma_rank_bound(before, name);
        assert forall|n: Seq<char>| has_name(registry.tools(), n) <==> (has_name(before, n) || name == n) by {
            lemma_insert_names(before, k, t, n);
        }
        if all_stubs(before) && t.metadata.crate_name@ == "noema-bridge"@ && t.metadata.risk == RiskLevel::NoRisk {
            let u = registry.tools();
            assert(u == before.insert(k, t));
            assert forall|i: int| 0 <= i < u.len() implies #[trigger] u[i].metadata.crate_name@ == "noema-bridge"@
                && u[i].metadata.risk == RiskLevel::NoRisk by {
                if i < k {
                    assert(u[i] == before[i]);
                    assert(before[i].metadata.crate_name@ == "noema-bridge"@);
                } else if i > k {
                    assert(u[i] == before[i - 1]);
                    assert(before[i - 1].metadata.crate_name@ == "noema-bridge"@);
                } else {
                    assert(u[i] == t);
                }
            }
            assert(all_stubs(u));
        }
    }
}

/// A registry with the five stub tools registered, each from
/// `noema-bridge` with no risk.
pub fn stub_registry() -> (r: ToolRegistry)
    ensures
        r.tools().len() == 5,
        all_stubs(r.tools()),
        forall|n: Seq<char>| has_name(r.tools(), n) <==> stub_names().contains(n),
{
    proof {
        reveal_strlit("search");
        reveal_strlit("calculate");
        reveal_strlit("translate");
        reveal_strlit("summarize");
        reveal_strlit("navigate");
        assert("search"@[0] == 's' && "calculate"@[0] == 'c' && "translate"@[0] == 't');
        assert("summarize"@[0] == 's' && "navigate"@[0] == 'n');
        assert("search"@.len() == 6 && "summarize"@.len() == 9);
    }
    let mut registry = ToolRegistry::new();
    register_new(&mut registry, RegisteredTool::new(SearchTool.metadata(), SearchTool.schema()));
    register_new(&mut registry, RegisteredTool::new(CalculateTool.metadata(), CalculateTool.schema()));
    register_new(&mut registry, RegisteredTool::new(TranslateTool.metadata(), TranslateTool.schema()));
    register_new(&mut registry, RegisteredTool::new(SummarizeTool.metadata(), SummarizeTool.schema()));
    register_new(&mut registry, RegisteredTool::new(NavigateTool.metadata(), NavigateTool.schema()));
    proof {
        assert forall|n: Seq<char>| has_name(registry.tools(), n) <==> stub_names().contains(n) by {
            if n == "search"@ {
                assert(stub_names()[0] == n);
            } else if n == "calculate"@ {
                assert(stub_names()[1] == n);
            } else if n == "translate"@ {
                assert(stub_names()[2] == n);
            } else if n == "summarize"@ {
                assert(stub_names()[3] == n);
            } else if n == "navigate"@ {
                assert(stub_names()[4] == n);
            }
        }
    }
    registry
}

/// What the bridge does with the engine's answer.
#[derive(Debug)]
pub enum BridgeStep {
    /// Run this call of a registered tool; the call is the outcome.
    RunTool(ToolCall),
    /// Send the message to the reasoning model.
    Escalate,
}

/// The text the engine reads: the message's first part, when it is text
/// (anything else goes straight to the reasoning model).
pub fn bridge_text(message: &Message) -> (r: Option<String>)
    ensures
        message.content@.len() > 0 && message.content@[0] is Text ==> (r matches Some(t) && message.content@[0]
            matches ContentPart::Text(u) && t@ == u@),
        !(message.content@.len() > 0 && message.content@[0] is Text) ==> r is None,
{
    if message.content.len() == 0 {
        return None;
    }
    match &message.content[0] {
        ContentPart::Text(t) => Some(t.clone()),
        _ => None,
    }
}

/// Decides the bridge's step: a confident call of a registered tool runs
/// that tool with the call's arguments; anything else (no call, low
/// confidence, an unregistered tool) escalates.
pub fn bridge_decision(tools: &ToolRegistry, first_call: Option<&FunctionCall>, confident: bool) -> (r: BridgeStep)
    ensures
        first_call is Some && confident && has_name(tools.tools(), first_call->0.name@) ==> (r matches BridgeStep::RunTool(
            c,
        ) && c.tool@ == first_call->0.name@ && c.arguments@ == first_call->0.arguments@),
        !(first_call is Some && confident && has_name(tools.tools(), first_call->0.name@)) ==> r is Escalate,
{
    match first_call {
        Some(call) => {
            if confident && tools.get(call.name.as_str()).is_some() {
                BridgeStep::RunTool(ToolCall::with_arguments(call.name.as_str(), call.arguments.duplicate()))
            } else {
                BridgeStep::Escalate
            }
        },
        None => BridgeStep::Escalate,
    }
}

/// The error when the bridge must escalate without a reasoning model.
pub open spec fn no_gemma_text() -> Seq<char> {
    "no Gemma model registered for bridge escalation; use .with_gemma()"@
}

/// Escalation needs a reasoning model.
pub fn bridge_escalation(has_gemma: bool) -> (r: Result<(), NoemaError>)
    ensures
        has_gemma ==> r is Ok,
        !has_gemma ==> (r matches Err(NoemaError::Model(t)) && t@ == no_gemma_text()),
{
    if has_gemma {
        Ok(())
    } else {
        Err(NoemaError::Model(string_of("no Gemma model registered for bridge escalation; use .with_gemma()")))
    }
}

} // verus!

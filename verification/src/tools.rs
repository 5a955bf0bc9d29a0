//! The tool contract's data: errors, metadata, schemas, calls and results.
//!
//! A tool exposes three views, each for a different consumer:
//!
//! * [`ToolMetadata`] / [`ToolSummary`] — execution-facing and
//!   Gemma-facing metadata (the summary carries no schema and no risk).
//! * [`ToolSchema`] — the full schema the tool-specific Needle agent binds
//!   to.
//! * [`RiskLevel`] — the risk its calls pose, evaluated by Noema.

use vstd::prelude::*;
use crate::json::{
    is_object_model, json_text, lemma_members_model_all, members_model, model_get, model_has_key,
    string_items, empty_parameters_model, JsonModel, JsonValue,
};
use crate::risk::RiskLevel;
use crate::text::{push_str, string_of};

verus! {

/// Errors produced by tool registration, validation, and execution.
#[derive(Debug)]
pub enum ToolError {
    /// No tool with this name is registered.
    NotFound(String),
    /// A tool with this name is already registered.
    Duplicate(String),
    /// A tool call failed validation (unknown tool, wrong argument shape).
    InvalidCall(String),
    /// The tool execution itself failed.
    Execution(String),
}

/// The display text of a tool error.
pub open spec fn tool_error_text(e: ToolError) -> Seq<char> {
    match e {
        ToolError::NotFound(s) => "tool not found: "@ + s@,
        ToolError::Duplicate(s) => "tool already registered: "@ + s@,
        ToolError::InvalidCall(s) => "invalid tool call: "@ + s@,
        ToolError::Execution(s) => "tool execution failed: "@ + s@,
    }
}

impl ToolError {
    /// The display text of the error: its category followed by its detail.
    pub fn message(&self) -> (m: String)
        ensures
            m@ == tool_error_text(*self),
    {
        let mut m = String::new();
        match self {
            ToolError::NotFound(s) => {
                push_str(&mut m, "tool not found: ");
                push_str(&mut m, s.as_str());
            },
            ToolError::Duplicate(s) => {
                push_str(&mut m, "tool already registered: ");
                push_str(&mut m, s.as_str());
            },
            ToolError::InvalidCall(s) => {
                push_str(&mut m, "invalid tool call: ");
                push_str(&mut m, s.as_str());
            },
            ToolError::Execution(s) => {
                push_str(&mut m, "tool execution failed: ");
                push_str(&mut m, s.as_str());
            },
        }
        m
    }
}

/// Execution-facing metadata for a registered tool.
#[derive(Debug, Clone, PartialEq, Eq)]
pub struct ToolMetadata {
    /// The tool name, e.g. `search_files`. Unique within a registry.
    pub name: String,
    /// The crate that provides the tool, e.g. `noema-filesearch`.
    pub crate_name: String,
    /// A short human description of what the tool does.
    pub description: String,
    /// The risk this tool's calls pose; evaluated by Noema.
    pub risk: RiskLevel,
}

/// The lightweight, Gemma-facing view of a tool: name, owning crate, and a
/// one-line description — never the schema and never the risk.
#[derive(Debug, Clone, PartialEq, Eq)]
pub struct ToolSummary {
    /// The tool name.
    pub name: String,
    /// The crate that provides the tool.
    pub crate_name: String,
    /// A one-line description of the capability.
    pub description: String,
}

impl<'a> From<&'a ToolMetadata> for ToolSummary {
    fn from(metadata: &'a ToolMetadata) -> (s: Self) {
        ToolSummary {
            name: metadata.name.clone(),
            crate_name: metadata.crate_name.clone(),
            description: metadata.description.clone(),
        }
    }
}

impl<'a> vstd::std_specs::convert::FromSpecImpl<&'a ToolMetadata> for ToolSummary {
    open spec fn obeys_from_spec() -> bool {
        true
    }

    open spec fn from_spec(metadata: &'a ToolMetadata) -> Self {
        ToolSummary {
            name: metadata.name,
            crate_name: metadata.crate_name,
            description: metadata.description,
        }
    }
}

impl ToolMetadata {
    /// The Gemma-facing summary of this metadata.
    pub fn summary(&self) -> (s: ToolSummary)
        ensures
            s.name@ == self.name@,
            s.crate_name@ == self.crate_name@,
            s.description@ == self.description@,
    {
        ToolSummary::from(self)
    }

    /// A copy of this metadata.
    pub fn duplicate(&self) -> (m: ToolMetadata)
        ensures
            m == *self,
    {
        ToolMetadata {
            name: self.name.clone(),
            crate_name: self.crate_name.clone(),
            description: self.description.clone(),
            risk: self.risk,
        }
    }
}

/// The schema of a single tool call.
///
/// `parameters` is a JSON Schema object (type `object` with `properties`
/// and optionally `required`). The engine form of the schema puts the
/// `name` key first: the Needle engine's schema parser is key-order
/// sensitive, so `name` must precede `description`.
#[derive(Debug)]
pub struct ToolSchema {
    /// The tool name. Unique within a registry.
    pub name: String,
    /// A short human description of what the tool does.
    pub description: String,
    /// The JSON Schema object describing the tool's parameters.
    pub parameters: JsonValue,
}

/// The names listed under `required` in a parameter schema: the string
/// items of that array, in order (none when it is absent or not an array).
pub open spec fn required_names(parameters: JsonModel) -> Seq<Seq<char>> {
    match model_get(parameters, "required"@) {
        Some(JsonModel::Array(items)) => string_items(items),
        _ => Seq::empty(),
    }
}

/// The property names declared under `properties`, in order (none when it
/// is absent or not an object).
pub open spec fn property_names(parameters: JsonModel) -> Seq<Seq<char>> {
    match model_get(parameters, "properties"@) {
        Some(JsonModel::Object(members)) => members.map_values(|m: (Seq<char>, JsonModel)| m.0),
        _ => Seq::empty(),
    }
}

/// The engine-form object of a schema: `name`, then `description`, then
/// `parameters`.
pub open spec fn schema_object(name: Seq<char>, description: Seq<char>, parameters: JsonModel) -> JsonModel {
    JsonModel::Object(
        seq![
            ("name"@, JsonModel::Str(name)),
            ("description"@, JsonModel::Str(description)),
            ("parameters"@, parameters),
        ],
    )
}

/// The message for arguments that are not an object.
pub open spec fn not_object_text(tool: Seq<char>) -> Seq<char> {
    "arguments for '"@ + tool + "' must be a JSON object"@
}

/// The message for a missing required parameter.
pub open spec fn missing_parameter_text(parameter: Seq<char>, tool: Seq<char>) -> Seq<char> {
    "missing required parameter '"@ + parameter + "' for tool '"@ + tool + "'"@
}

/// The message of the first problem with a call's arguments: not an
/// object, or the first required parameter they lack.
pub open spec fn argument_problem_text(parameters: JsonModel, tool: Seq<char>, arguments: JsonModel) -> Seq<char> {
    if !is_object_model(arguments) {
        not_object_text(tool)
    } else {
        missing_parameter_text(required_names(parameters)[first_missing(required_names(parameters), arguments)], tool)
    }
}

/// The position of the first required name the arguments lack (the length
/// when none is missing).
pub open spec fn first_missing(required: Seq<Seq<char>>, arguments: JsonModel) -> int
    decreases required.len(),
{
    if required.len() == 0 {
        0
    } else if !model_has_key(arguments, required[0]) {
        0
    } else {
        1 + first_missing(required.drop_first(), arguments)
    }
}

/// Whether arguments satisfy a schema: they form an object holding every
/// required parameter.
pub open spec fn arguments_valid(parameters: JsonModel, arguments: JsonModel) -> bool {
    &&& is_object_model(arguments)
    &&& forall|k: int|
        0 <= k < required_names(parameters).len() ==> model_has_key(
            arguments,
            #[trigger] required_names(parameters)[k],
        )
}

/// `first_missing` lands on a missing name, or at the end when all are
/// present.
pub proof fn lemma_first_missing(required: Seq<Seq<char>>, arguments: JsonModel)
    ensures
        0 <= first_missing(required, arguments) <= required.len(),
        forall|k: int|
            0 <= k < first_missing(required, arguments) ==> model_has_key(
                arguments,
                #[trigger] required[k],
            ),
        first_missing(required, arguments) < required.len() ==> !model_has_key(
            arguments,
            required[first_missing(required, arguments)],
        ),
    decreases required.len(),
{
    if required.len() > 0 && model_has_key(arguments, required[0]) {
        lemma_first_missing(required.drop_first(), arguments);
        assert forall|k: int| 0 <= k < first_missing(required, arguments) implies model_has_key(
            arguments,
            #[trigger] required[k],
        ) by {
            if k > 0 {
                assert(required[k] == required.drop_first()[k - 1]);
            }
        }
    }
}

impl ToolSchema {
    /// A schema with an empty parameter object
    /// (`{"type":"object","properties":{}}`).
    pub fn new(name: &str, description: &str) -> (s: ToolSchema)
        ensures
            s.name@ == name@,
            s.description@ == description@,
            s.parameters@ == empty_parameters_model(),
    {
        ToolSchema {
            name: string_of(name),
            description: string_of(description),
            parameters: JsonValue::empty_parameters(),
        }
    }

    /// A copy of this schema.
    pub fn duplicate(&self) -> (s: ToolSchema)
        ensures
            s.name == self.name,
            s.description == self.description,
            s.parameters@ == self.parameters@,
    {
        ToolSchema {
            name: self.name.clone(),
            description: self.description.clone(),
            parameters: self.parameters.duplicate(),
        }
    }

    /// The parameter names the schema marks as required, in order.
    pub fn required(&self) -> (r: Vec<String>)
        ensures
            r@.map_values(|s: String| s@) == required_names(self.parameters@),
    {
        match self.parameters.get("required") {
            Some(v) => v.string_items(),
            None => {
                let r: Vec<String> = Vec::new();
                assert(r@.map_values(|s: String| s@) =~= Seq::empty());
                r
            },
        }
    }

    /// The declared property names, in insertion order.
    pub fn properties(&self) -> (r: Vec<String>)
        ensures
            r@.map_values(|s: String| s@) == property_names(self.parameters@),
    {
        match self.parameters.get("properties") {
            Some(v) => v.keys(),
            None => {
                let r: Vec<String> = Vec::new();
                assert(r@.map_values(|s: String| s@) =~= Seq::empty());
                r
            },
        }
    }

    /// The engine-form object of this schema: `name` first, then
    /// `description`, then `parameters`.
    pub fn engine_object(&self) -> (v: JsonValue)
        ensures
            v@ == schema_object(self.name@, self.description@, self.parameters@),
    {
        let mut members: Vec<(String, JsonValue)> = Vec::new();
        members.push((string_of("name"), JsonValue::Str(self.name.clone())));
        members.push((string_of("description"), JsonValue::Str(self.description.clone())));
        members.push((string_of("parameters"), self.parameters.duplicate()));
        proof {
            lemma_members_model_all(members@);
            assert(members_model(members@) =~= schema_object(
                self.name@,
                self.description@,
                self.parameters@,
            )->Object_0);
        }
        JsonValue::Object(members)
    }

    /// The engine-form schema JSON: `name` first, then `description`, then
    /// `parameters`, written compactly.
    pub fn needle_json(&self) -> (s: String)
        ensures
            s@ == json_text(schema_object(self.name@, self.description@, self.parameters@)),
    {
        self.engine_object().to_json_text()
    }

    /// Lightweight schema validation: arguments must be an object, and every
    /// required parameter must be present. The first problem found is
    /// reported.
    pub fn validate_arguments(&self, arguments: &JsonValue) -> (r: Result<(), ToolError>)
        ensures
            r is Ok <==> arguments_valid(self.parameters@, arguments@),
            r matches Err(e) ==> (e matches ToolError::InvalidCall(m) && m@ == argument_problem_text(
                self.parameters@,
                self.name@,
                arguments@,
            )),
            !is_object_model(arguments@) ==> (r matches Err(ToolError::InvalidCall(m)) && m@
                == not_object_text(self.name@)),
            is_object_model(arguments@) && r is Err ==> (r matches Err(ToolError::InvalidCall(m))
                && m@ == missing_parameter_text(
                required_names(self.parameters@)[first_missing(
                    required_names(self.parameters@),
                    arguments@,
                )],
                self.name@,
            )),
    {
        if !arguments.is_object() {
            let mut m = String::new();
            push_str(&mut m, "arguments for '");
            push_str(&mut m, self.name.as_str());
            push_str(&mut m, "' must be a JSON object");
            return Err(ToolError::InvalidCall(m));
        }
        let required = self.required();
        let ghost names = required_names(self.parameters@);
        assert(names.len() == required@.len()) by {
            assert(required@.map_values(|s: String| s@).len() == required@.len());
        }
        proof { lemma_first_missing(names, arguments@); }
        let mut i: usize = 0;
        while i < required.len()
            invariant
                i <= required@.len(),
                required@.map_values(|s: String| s@) == names,
                names.len() == required@.len(),
                names == required_names(self.parameters@),
                is_object_model(arguments@),
                forall|k: int| 0 <= k < i ==> model_has_key(arguments@, #[trigger] names[k]),
            decreases required.len() - i,
        {
            assert(required@.map_values(|s: String| s@)[i as int] == required@[i as int]@);
            assert(names[i as int] == required@[i as int]@);
            if !arguments.has_key(required[i].as_str()) {
                proof {
                    lemma_first_missing_is(names, arguments@, i as int);
                }
                let mut m = String::new();
                push_str(&mut m, "missing required parameter '");
                push_str(&mut m, required[i].as_str());
                push_str(&mut m, "' for tool '");
                push_str(&mut m, self.name.as_str());
                push_str(&mut m, "'");
                return Err(ToolError::InvalidCall(m));
            }
            i += 1;
        }
        Ok(())
    }
}

/// When the first `i` names are present and name `i` is not, the first
/// missing position is `i`.
pub proof fn lemma_first_missing_is(required: Seq<Seq<char>>, arguments: JsonModel, i: int)
    requires
        0 <= i < required.len(),
        !model_has_key(arguments, required[i]),
        forall|k: int| 0 <= k < i ==> model_has_key(arguments, #[trigger] required[k]),
    ensures
        first_missing(required, arguments) == i,
    decreases i,
{
    if i > 0 {
        assert(model_has_key(arguments, required[0]));
        assert forall|k: int| 0 <= k < i - 1 implies model_has_key(
            arguments,
            #[trigger] required.drop_first()[k],
        ) by {
            assert(required.drop_first()[k] == required[k + 1]);
        }
        lemma_first_missing_is(required.drop_first(), arguments, i - 1);
    }
}

/// A structured tool call ready for validation and execution.
#[derive(Debug)]
pub struct ToolCall {
    /// The registered tool name.
    pub tool: String,
    /// The call arguments, as a JSON object.
    pub arguments: JsonValue,
}

impl ToolCall {
    /// A call with empty arguments (`{}`).
    pub fn new(tool: &str) -> (c: ToolCall)
        ensures
            c.tool@ == tool@,
            c.arguments@ == JsonModel::Object(Seq::empty()),
    {
        ToolCall { tool: string_of(tool), arguments: JsonValue::empty_object() }
    }

    /// A call with the given argument value.
    pub fn with_arguments(tool: &str, arguments: JsonValue) -> (c: ToolCall)
        ensures
            c.tool@ == tool@,
            c.arguments == arguments,
    {
        ToolCall { tool: string_of(tool), arguments }
    }

    /// A copy of this call.
    pub fn duplicate(&self) -> (c: ToolCall)
        ensures
            c.tool == self.tool,
            c.arguments@ == self.arguments@,
    {
        ToolCall { tool: self.tool.clone(), arguments: self.arguments.duplicate() }
    }
}

/// The result of executing a tool call: a text summary for the reasoning
/// model plus optional structured data.
#[derive(Debug)]
pub struct ToolResult {
    /// Whether the call succeeded. Failures carry a message in `text`.
    pub success: bool,
    /// A text summary of the outcome.
    pub text: String,
    /// Optional structured data produced by the tool.
    pub data: Option<JsonValue>,
}

impl ToolResult {
    /// A successful result with only a text summary.
    pub fn ok(text: &str) -> (r: ToolResult)
        ensures
            r.success,
            r.text@ == text@,
            r.data is None,
    {
        ToolResult { success: true, text: string_of(text), data: None }
    }

    /// A successful result with a text summary and structured data.
    pub fn ok_with_data(text: &str, data: JsonValue) -> (r: ToolResult)
        ensures
            r.success,
            r.text@ == text@,
            r.data == Some(data),
    {
        ToolResult { success: true, text: string_of(text), data: Some(data) }
    }

    /// A failed result.
    pub fn failure(message: &str) -> (r: ToolResult)
        ensures
            !r.success,
            r.text@ == message@,
            r.data is None,
    {
        ToolResult { success: false, text: string_of(message), data: None }
    }
}

} // verus!

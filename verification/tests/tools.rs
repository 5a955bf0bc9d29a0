use noema::json::JsonValue;
use noema::registry::{RegisteredTool, ToolRegistry};
use noema::risk::RiskLevel;
use noema::tools::{ToolCall, ToolError, ToolMetadata, ToolResult, ToolSchema, ToolSummary};

fn s(text: &str) -> JsonValue {
    JsonValue::Str(text.to_string())
}

fn obj(members: Vec<(&str, JsonValue)>) -> JsonValue {
    JsonValue::Object(members.into_iter().map(|(k, v)| (k.to_string(), v)).collect())
}

fn search_schema() -> ToolSchema {
    ToolSchema {
        name: "search_files".into(),
        description: "Search for files on the local system".into(),
        parameters: obj(vec![
            ("type", s("object")),
            (
                "properties",
                obj(vec![
                    ("query", obj(vec![("type", s("string")), ("description", s("what to look for"))])),
                    ("path", obj(vec![("type", s("string")), ("description", s("where to look"))])),
                ]),
            ),
            ("required", JsonValue::Array(vec![s("query")])),
        ]),
    }
}

fn echo_tool(name: &str, risk: RiskLevel) -> RegisteredTool {
    RegisteredTool::new(
        ToolMetadata {
            name: name.into(),
            crate_name: "noema-test".into(),
            description: "Echoes its message argument".into(),
            risk,
        },
        ToolSchema {
            name: name.into(),
            description: "Echoes its message argument".into(),
            parameters: obj(vec![
                ("type", s("object")),
                ("properties", obj(vec![("message", obj(vec![("type", s("string"))]))])),
                ("required", JsonValue::Array(vec![s("message")])),
            ]),
        },
    )
}

fn sample_registry() -> ToolRegistry {
    let mut registry = ToolRegistry::new();
    registry.register(echo_tool("echo", RiskLevel::NoRisk)).expect("register echo");
    registry.register(echo_tool("delete", RiskLevel::Critical)).expect("register delete");
    registry
}

#[test]
fn tool_errors_display_their_category() {
    assert!(ToolError::NotFound("x".into()).message().contains("not found"));
    assert!(ToolError::Duplicate("x".into()).message().contains("already registered"));
    assert!(ToolError::InvalidCall("x".into()).message().contains("invalid"));
    assert!(ToolError::Execution("x".into()).message().contains("failed"));
}

#[test]
fn summary_derives_from_metadata_without_risk() {
    let metadata = ToolMetadata {
        name: "delete_file".into(),
        crate_name: "noema-filesearch".into(),
        description: "Delete a file".into(),
        risk: RiskLevel::High,
    };
    let summary = ToolSummary::from(&metadata);
    assert_eq!(summary.name, "delete_file");
    assert_eq!(summary.crate_name, "noema-filesearch");
    assert_eq!(summary.description, "Delete a file");
}

#[test]
fn risk_levels_are_ordered() {
    assert!(RiskLevel::NoRisk < RiskLevel::Low);
    assert!(RiskLevel::Low < RiskLevel::Medium);
    assert!(RiskLevel::Medium < RiskLevel::High);
    assert!(RiskLevel::High < RiskLevel::Critical);
}

#[test]
fn risk_levels_have_lower_case_names() {
    assert_eq!(RiskLevel::NoRisk.as_str(), "none");
    assert_eq!(RiskLevel::High.as_str(), "high");
    assert_eq!(RiskLevel::Critical.as_str(), "critical");
    assert_eq!(RiskLevel::default(), RiskLevel::NoRisk);
    assert!(RiskLevel::High.at_least(RiskLevel::Medium));
    assert!(!RiskLevel::Low.at_least(RiskLevel::Medium));
}

#[test]
fn required_and_properties_are_read_from_the_schema() {
    let schema = search_schema();
    assert_eq!(schema.required(), vec!["query"]);
    assert_eq!(schema.properties(), vec!["query", "path"]);
}

#[test]
fn needle_json_puts_name_first() {
    let json = search_schema().needle_json();
    assert!(json.starts_with("{\"name\":\"search_files\""), "expected name first, got: {json}");
    let parsed: serde_json::Value = serde_json::from_str(&json).expect("valid JSON");
    assert_eq!(parsed["name"], "search_files");
    assert_eq!(parsed["parameters"]["type"], "object");
}

#[test]
fn validation_enforces_required_parameters() {
    let schema = search_schema();
    schema.validate_arguments(&obj(vec![("query", s("abc.exe"))])).expect("valid call");
    let err = schema.validate_arguments(&obj(vec![("path", s("/tmp"))])).expect_err("missing required query");
    assert!(err.message().contains("query"));
    let err = schema
        .validate_arguments(&JsonValue::Array(vec![JsonValue::Number("1".into()), JsonValue::Number("2".into())]))
        .expect_err("non-object arguments");
    assert!(err.message().contains("object"));
}

#[test]
fn validation_messages_are_exact() {
    let schema = search_schema();
    let err = schema.validate_arguments(&obj(vec![])).expect_err("missing");
    assert_eq!(err.message(), "invalid tool call: missing required parameter 'query' for tool 'search_files'");
    let err = schema.validate_arguments(&s("x")).expect_err("not an object");
    assert_eq!(err.message(), "invalid tool call: arguments for 'search_files' must be a JSON object");
}

#[test]
fn empty_schema_accepts_empty_arguments() {
    let schema = ToolSchema::new("ping", "No-op");
    schema.validate_arguments(&obj(vec![])).expect("no required parameters");
    schema.validate_arguments(&obj(vec![("extra", JsonValue::Bool(true))])).expect("extra keys are fine");
    assert_eq!(schema.needle_json(), "{\"name\":\"ping\",\"description\":\"No-op\",\"parameters\":{\"type\":\"object\",\"properties\":{}}}");
}

#[test]
fn calls_carry_tool_and_arguments() {
    let call = ToolCall::with_arguments("notes", obj(vec![("id", JsonValue::Number("3".into()))]));
    assert_eq!(call.tool, "notes");
    assert_eq!(call.arguments.get("id").map(|v| v.to_json_text()), Some("3".to_string()));
    assert_eq!(ToolCall::new("ping").arguments.to_json_text(), "{}");
}

#[test]
fn results_distinguish_success_and_failure() {
    let data = JsonValue::Array(vec![
        JsonValue::Number("1".into()),
        JsonValue::Number("2".into()),
        JsonValue::Number("3".into()),
    ]);
    let ok = ToolResult::ok_with_data("3 notes", data);
    assert!(ok.success);
    assert_eq!(ok.data.map(|d| d.to_json_text()), Some("[1,2,3]".to_string()));
    let err = ToolResult::failure("permission denied");
    assert!(!err.success);
    assert!(err.text.contains("permission denied"));
}

#[test]
fn registration_rejects_duplicates() {
    let mut registry = sample_registry();
    let err = registry.register(echo_tool("echo", RiskLevel::NoRisk)).expect_err("duplicate name");
    assert!(matches!(err, ToolError::Duplicate(_)));
    assert_eq!(registry.len(), 2);
}

#[test]
fn extend_merges_without_collisions() {
    let mut a = sample_registry();
    let mut b = ToolRegistry::new();
    b.register(echo_tool("extra", RiskLevel::Low)).expect("register");
    a.extend(&b).expect("merge");
    assert_eq!(a.names(), vec!["delete", "echo", "extra"]);
    assert!(a.get("extra").is_some());
}

#[test]
fn extend_with_a_collision_changes_nothing() {
    let mut a = sample_registry();
    let mut b = ToolRegistry::new();
    b.register(echo_tool("zzz", RiskLevel::Low)).expect("register");
    b.register(echo_tool("echo", RiskLevel::Low)).expect("register");
    assert!(matches!(a.extend(&b), Err(ToolError::Duplicate(_))));
    assert_eq!(a.names(), vec!["delete", "echo"]);
}

#[test]
fn gemma_summaries_never_contain_schemas() {
    let registry = sample_registry();
    let section = registry.gemma_tool_section();
    assert!(section.contains("echo"));
    assert!(section.contains("crate: noema-test"));
    assert!(!section.contains("parameters"));
    assert!(!section.contains("required"));
    assert!(!section.contains("properties"));
}

#[test]
fn gemma_section_lists_tools_in_name_order() {
    let registry = sample_registry();
    assert_eq!(
        registry.gemma_tool_section(),
        "Available tools:\n  delete\n    crate: noema-test\n    description: Echoes its message argument\n  echo\n    crate: noema-test\n    description: Echoes its message argument\n"
    );
    let summaries = registry.gemma_summaries();
    assert_eq!(summaries.len(), 2);
    assert_eq!(summaries[0].name, "delete");
}

#[test]
fn empty_registry_produces_empty_section_and_array() {
    let registry = ToolRegistry::new();
    assert!(registry.gemma_tool_section().is_empty());
    assert_eq!(registry.needle_tools_json(), "[]");
    assert!(registry.is_empty());
}

#[test]
fn needle_json_puts_name_before_description() {
    let registry = sample_registry();
    let json = registry.needle_tools_json();
    let first_tool = json.split('{').nth(1).unwrap_or_default();
    let name_pos = first_tool.find("\"name\"").expect("name key");
    let description_pos = first_tool.find("\"description\"").expect("description key");
    assert!(name_pos < description_pos, "expected \"name\" before \"description\", got: {first_tool}");
    let parsed: serde_json::Value = serde_json::from_str(&json).expect("valid JSON array");
    assert_eq!(parsed.as_array().map(|a| a.len()), Some(2));
}

#[test]
fn single_tool_needle_json_is_the_engine_format() {
    let registry = sample_registry();
    let json = registry.tool_needle_json("echo").expect("tool json");
    assert!(json.starts_with("{\"name\":\"echo\""));
    assert!(matches!(registry.tool_needle_json("nope"), Err(ToolError::NotFound(_))));
}

#[test]
fn calls_are_validated_against_the_registry() {
    let registry = sample_registry();
    registry.validate_call(&ToolCall::with_arguments("echo", obj(vec![("message", s("hi"))]))).expect("valid");
    assert!(matches!(
        registry.validate_call(&ToolCall::with_arguments("echo", obj(vec![]))),
        Err(ToolError::InvalidCall(_))
    ));
    assert!(matches!(registry.validate_call(&ToolCall::new("nope")), Err(ToolError::NotFound(_))));
}

#[test]
fn json_strings_are_escaped_like_serde_json() {
    let value = obj(vec![("k", s("a\"b\\c\nd\u{1}"))]);
    let text = value.to_json_text();
    let parsed: serde_json::Value = serde_json::from_str(&text).expect("valid JSON");
    assert_eq!(parsed["k"], "a\"b\\c\nd\u{1}");
    assert_eq!(text, "{\"k\":\"a\\\"b\\\\c\\nd\\u0001\"}");
}

#[test]
fn iteration_follows_name_order() {
    let mut registry = ToolRegistry::new();
    for name in ["zeta", "alpha", "mid"] {
        let metadata = ToolMetadata {
            name: name.to_string(),
            crate_name: "noema-test".to_string(),
            description: "test".to_string(),
            risk: RiskLevel::Low,
        };
        registry.register(RegisteredTool::new(metadata, ToolSchema::new(name, "test"))).unwrap();
    }
    let names: Vec<&str> = registry.iter().iter().map(|t| t.metadata.name.as_str()).collect();
    assert_eq!(names, vec!["alpha", "mid", "zeta"]);
}

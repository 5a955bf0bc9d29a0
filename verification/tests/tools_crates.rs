use noema::bridge::{
    bridge_decision, bridge_escalation, bridge_text, stub_registry, BridgeStep, CalculateTool, NavigateTool, SearchTool,
    SummarizeTool, TranslateTool,
};
use noema::filesearch::{contains, entry_step, search_needle, walk_enters, EntryStep, Filesearch, MAX_RESULTS, TOOL_NAME};
use noema::json::JsonValue;
use noema::model::{ContentPart, Message, Role};
use noema::needle::FunctionCall;
use noema::risk::RiskLevel;
use noema::tools::{ToolCall, ToolError};

fn args(members: Vec<(&str, &str)>) -> JsonValue {
    JsonValue::Object(members.into_iter().map(|(k, v)| (k.to_string(), JsonValue::Str(v.to_string()))).collect())
}

#[test]
fn stub_registry_has_tools() {
    let registry = stub_registry();
    assert_eq!(registry.names().len(), 5);
}

#[test]
fn stub_registry_has_five_tools() {
    let registry = stub_registry();
    assert_eq!(registry.names().len(), 5);
    assert!(registry.get("search").is_some());
    assert!(registry.get("calculate").is_some());
    assert!(registry.get("translate").is_some());
    assert!(registry.get("summarize").is_some());
    assert!(registry.get("navigate").is_some());
}

#[test]
fn search_tool_executes() {
    let call = ToolCall::with_arguments("search", args(vec![("query", "rust")]));
    let result = SearchTool.run(&call);
    assert!(result.success);
    assert!(result.text.contains("rust"));
    assert_eq!(result.text, "Search results for 'rust': [stub data]");
}

#[test]
fn calculate_tool_executes() {
    let call = ToolCall::with_arguments("calculate", args(vec![("expression", "2+2")]));
    let result = CalculateTool.run(&call);
    assert!(result.success);
    assert!(result.text.contains("2+2"));
}

#[test]
fn stub_tools_fall_back_without_arguments() {
    let empty = ToolCall::new("x");
    assert_eq!(SearchTool.run(&empty).text, "Search results for 'unknown': [stub data]");
    assert_eq!(TranslateTool.run(&empty).text, "Translation to xx: 'unknown' (stub)");
    assert_eq!(SummarizeTool.run(&empty).text, "Summary: unknown... (stub)");
    assert_eq!(NavigateTool.run(&empty).text, "Navigated to: unknown (stub)");
    let call = ToolCall::with_arguments("translate", args(vec![("text", "hola"), ("target_language", "en")]));
    assert_eq!(TranslateTool.run(&call).text, "Translation to en: 'hola' (stub)");
}

#[test]
fn stub_schemas_require_their_parameters() {
    assert_eq!(SearchTool.schema().required(), vec!["query"]);
    assert_eq!(TranslateTool.schema().required(), vec!["text", "target_language"]);
    assert_eq!(NavigateTool.metadata().risk, RiskLevel::NoRisk);
    assert_eq!(
        SummarizeTool.schema().needle_json(),
        "{\"name\":\"summarize\",\"description\":\"Summarize text\",\"parameters\":{\"type\":\"object\",\"properties\":{\"text\":{\"type\":\"string\",\"description\":\"The text to summarize\"}},\"required\":[\"text\"]}}"
    );
}

#[test]
fn confident_calls_of_registered_tools_run() {
    let registry = stub_registry();
    let call = FunctionCall { name: "search".into(), arguments: args(vec![("query", "docs")]) };
    match bridge_decision(&registry, Some(&call), true) {
        BridgeStep::RunTool(c) => assert_eq!(c.tool, "search"),
        other => panic!("unexpected {other:?}"),
    }
    assert!(matches!(bridge_decision(&registry, Some(&call), false), BridgeStep::Escalate));
    let unknown = FunctionCall { name: "fly".into(), arguments: args(vec![]) };
    assert!(matches!(bridge_decision(&registry, Some(&unknown), true), BridgeStep::Escalate));
    assert!(matches!(bridge_decision(&registry, None, true), BridgeStep::Escalate));
}

#[test]
fn bridge_reads_the_first_text_part() {
    assert_eq!(bridge_text(&Message::text(Role::User, "hi")), Some("hi".to_string()));
    let image_first = Message::new(Role::User, vec![ContentPart::image(vec![1], "image/png"), ContentPart::text("x")]);
    assert_eq!(bridge_text(&image_first), None);
    assert!(bridge_escalation(true).is_ok());
    assert!(bridge_escalation(false).unwrap_err().message().contains("with_gemma"));
}

#[test]
fn filesearch_declares_its_contract() {
    let tool = Filesearch;
    assert_eq!(tool.metadata().name, TOOL_NAME);
    assert_eq!(tool.metadata().risk, RiskLevel::Low);
    assert_eq!(tool.schema().required(), vec!["query"]);
    assert_eq!(tool.schema().properties(), vec!["query", "path"]);
}

#[test]
fn execute_requires_a_query() {
    let err = Filesearch::query_of(&args(vec![("path", "/tmp")])).expect_err("missing query");
    assert!(matches!(err, ToolError::InvalidCall(_)));
    assert!(Filesearch::query_of(&args(vec![("query", "   ")])).is_err());
    assert_eq!(Filesearch::query_of(&args(vec![("query", " notes ")])).ok(), Some("notes".to_string()));
    assert_eq!(Filesearch::root_of(&args(vec![("path", " ")])), None);
    assert_eq!(Filesearch::root_of(&args(vec![("path", "/tmp")])), Some("/tmp".to_string()));
}

#[test]
fn execute_reports_no_matches_without_error() {
    let result = Filesearch::report("zzz", "/tmp/x", vec![]);
    assert!(result.success);
    assert!(result.text.contains("no files matching"));
    assert_eq!(result.text, "no files matching 'zzz' were found under /tmp/x");
}

#[test]
fn execute_returns_paths_and_structured_data() {
    let result = Filesearch::report("notes", "/d", vec!["/d/notes.txt".into(), "/d/Notes.md".into()]);
    assert!(result.success);
    assert_eq!(result.text, "found 2 files matching 'notes' under /d:\n- /d/notes.txt\n- /d/Notes.md");
    let data = result.data.expect("structured data").to_json_text();
    assert_eq!(data, "{\"query\":\"notes\",\"root\":\"/d\",\"files\":[\"/d/notes.txt\",\"/d/Notes.md\"]}");
    let one = Filesearch::report("a", "/d", vec!["/d/a".into()]);
    assert_eq!(one.text, "found 1 file matching 'a' under /d:\n- /d/a");
}

#[test]
fn the_walk_is_bounded_and_case_insensitive() {
    assert!(walk_enters(0, 0));
    assert!(walk_enters(8, 24));
    assert!(!walk_enters(9, 0));
    assert!(!walk_enters(0, MAX_RESULTS));
    let needle = search_needle("Notes");
    assert_eq!(needle, "notes");
    assert_eq!(entry_step(0, false, "Study-NOTES.md", &needle), EntryStep::Match);
    assert_eq!(entry_step(0, false, "other.md", &needle), EntryStep::Ignore);
    assert_eq!(entry_step(0, true, "target", &needle), EntryStep::Skip);
    assert_eq!(entry_step(0, true, ".git", &needle), EntryStep::Skip);
    assert_eq!(entry_step(0, true, "docs", &needle), EntryStep::Descend);
    assert_eq!(entry_step(MAX_RESULTS, false, "notes", &needle), EntryStep::Stop);
    assert!(contains("abcabd", "abd"));
    assert!(contains("abc", ""));
    assert!(!contains("ab", "abc"));
}

use noema::actions::{router_system_prompt, route_decision, today, ActionRegistry, ActionSpec};
use noema::calendar::{civil_from_days, iso_date_of_days};
use noema::error::NoemaError;
use noema::formatting::{format_decision, formatter_system_prompt, formatter_tools_json};
use noema::json::JsonValue;
use noema::needle::FunctionCall;
use noema::route::Route;
use noema::tools::ToolSchema;

fn call(name: &str) -> FunctionCall {
    FunctionCall { name: name.into(), arguments: JsonValue::Object(vec![]) }
}

#[test]
fn default_registry_covers_the_plan_actions() {
    let registry = ActionRegistry::default();
    assert!(registry.ids_are_unique());
    for id in ["open_flashcards", "show_notes", "open_pdfs", "go_to_settings", "start_revision", "open_last_document"] {
        assert!(registry.get(id).is_some(), "missing action {id}");
    }
}

#[test]
fn duplicate_ids_are_detected() {
    let registry = ActionRegistry::new(vec![
        ActionSpec { id: "a", description: "first" },
        ActionSpec { id: "b", description: "second" },
        ActionSpec { id: "a", description: "third" },
    ]);
    assert!(!registry.ids_are_unique());
    assert_eq!(registry.get("a").map(|a| a.description), Some("first"));
    assert_eq!(registry.actions().len(), 3);
}

#[test]
fn tools_json_is_a_valid_needle_schema_array() {
    let registry = ActionRegistry::default();
    let json = registry.tools_json();
    let tools: Vec<serde_json::Value> = serde_json::from_str(&json).expect("valid JSON array");
    assert_eq!(tools.len(), registry.actions().len());
    let first = &tools[0];
    assert!(first["name"].is_string());
    assert!(first["description"].is_string());
    assert_eq!(first["parameters"]["type"], "object");
}

#[test]
fn tools_json_puts_name_before_description() {
    let registry = ActionRegistry::default();
    let json = registry.tools_json();
    let first_tool = json.split('{').nth(1).unwrap_or_default();
    let name_pos = first_tool.find("\"name\"").expect("name key");
    let description_pos = first_tool.find("\"description\"").expect("description key");
    assert!(name_pos < description_pos, "expected \"name\" before \"description\", got: {first_tool}");
    assert!(json.starts_with(
        "[{\"name\":\"open_flashcards\",\"description\":\"Navigate to the user's flashcards\",\"parameters\":{\"type\":\"object\",\"properties\":{}}}"
    ));
}

#[test]
fn registered_action_becomes_routed_action() {
    let registry = ActionRegistry::default();
    match route_decision(&registry, Some(&call("open_flashcards")), true, "Some(0.9) < 0.6") {
        Route::Action(action) => assert_eq!(action.id, "open_flashcards"),
        other => panic!("expected action, got {other:?}"),
    }
}

#[test]
fn low_confidence_call_escalates() {
    let registry = ActionRegistry::default();
    match route_decision(&registry, Some(&call("go_to_settings")), false, "Some(0.53) < 0.6") {
        Route::Escalate { reason } => {
            assert_eq!(reason, "low confidence (Some(0.53) < 0.6): uncertain about go_to_settings")
        },
        other => panic!("sub-threshold calls must escalate, got {other:?}"),
    }
    // Lowering the threshold to 0.4 makes the same 0.53 call confident: it acts.
    let confident = 0.53f32 >= 0.4f32;
    match route_decision(&registry, Some(&call("go_to_settings")), confident, "Some(0.53) < 0.4") {
        Route::Action(action) => assert_eq!(action.id, "go_to_settings"),
        other => panic!("a call above a lowered threshold must act, got {other:?}"),
    }
}

#[test]
fn refusal_escalates() {
    let registry = ActionRegistry::default();
    match route_decision(&registry, None, true, "") {
        Route::Escalate { reason } => assert_eq!(reason, "no registered action matches the request"),
        other => panic!("unexpected {other:?}"),
    }
}

#[test]
fn unregistered_tool_name_escalates() {
    let registry = ActionRegistry::default();
    assert!(matches!(route_decision(&registry, Some(&call("delete_all_files")), true, ""), Route::Escalate { .. }));
}

#[test]
fn router_system_turn_carries_the_date() {
    assert_eq!(router_system_prompt("2026-08-20"), "You are the Noema application router.\ndate: 2026-08-20\nlocale: en");
}

#[test]
fn civil_dates_count_from_the_epoch() {
    assert_eq!(civil_from_days(0), (1970, 1, 1));
    assert_eq!(civil_from_days(31), (1970, 2, 1));
    assert_eq!(civil_from_days(59), (1970, 3, 1));
    assert_eq!(civil_from_days(365), (1971, 1, 1));
    assert_eq!(civil_from_days(789), (1972, 2, 29));
    assert_eq!(civil_from_days(11_016), (2000, 2, 29));
    assert_eq!(civil_from_days(20_685), (2026, 8, 20));
    assert_eq!(iso_date_of_days(20_685), "2026-08-20");
    assert_eq!(iso_date_of_days(0), "1970-01-01");
}

#[test]
fn today_is_a_date() {
    let date = today();
    assert_eq!(date.len(), 10);
    assert_eq!(&date[4..5], "-");
    assert_eq!(&date[7..8], "-");
    assert!(date.as_str() >= "2024-01-01");
}

fn search_schema() -> ToolSchema {
    ToolSchema {
        name: "search_files".into(),
        description: "Search for files".into(),
        parameters: JsonValue::Object(vec![
            ("type".into(), JsonValue::Str("object".into())),
            ("properties".into(), JsonValue::Object(vec![])),
            ("required".into(), JsonValue::Array(vec![JsonValue::Str("query".into())])),
        ]),
    }
}

#[test]
fn semantic_request_becomes_a_validated_call() {
    let schema = search_schema();
    let engine_call = FunctionCall {
        name: "search_files".into(),
        arguments: JsonValue::Object(vec![("query".into(), JsonValue::Str("abc.exe".into()))]),
    };
    let formatted = format_decision("search_files", "find abc.exe", Some(&engine_call), true, "", &schema).expect("call");
    assert_eq!(formatted.tool, "search_files");
    assert_eq!(formatted.arguments.to_json_text(), "{\"query\":\"abc.exe\"}");
}

#[test]
fn refusal_is_an_error() {
    let error = format_decision("search_files", "sing", None, true, "", &search_schema()).expect_err("refused");
    assert_eq!(error.message(), "tool error: the tool formatter refused 'sing' for tool 'search_files'");
}

#[test]
fn wrong_tool_name_is_an_error() {
    let error = format_decision("search_files", "x", Some(&call("delete")), true, "", &search_schema()).expect_err("wrong tool");
    assert_eq!(error.message(), "tool error: the tool formatter produced a call for 'delete', expected 'search_files'");
}

#[test]
fn low_confidence_is_an_error() {
    let error = format_decision("search_files", "x", Some(&call("search_files")), false, "0.06 < 0.15", &search_schema())
        .expect_err("uncertain");
    assert!(matches!(error, NoemaError::Tool(_)));
    assert_eq!(error.message(), "tool error: low confidence (0.06 < 0.15): uncertain call for 'search_files'");
}

#[test]
fn missing_required_arguments_fail_validation() {
    let error = format_decision("search_files", "x", Some(&call("search_files")), true, "", &search_schema())
        .expect_err("missing query");
    assert!(error.message().contains("query"));
}

#[test]
fn formatter_prompt_appends_tool_instructions() {
    let base = formatter_system_prompt(None);
    assert!(base.starts_with("You are the Noema tool formatter.\nConvert the requested operation"));
    assert!(base.ends_with("refuse with no call."));
    assert_eq!(formatter_system_prompt(Some("Be exact.")), format!("{base}\n\nBe exact."));
    let json = formatter_tools_json(&ToolSchema::new("ping", "No-op"));
    assert_eq!(json, "[{\"name\":\"ping\",\"description\":\"No-op\",\"parameters\":{\"type\":\"object\",\"properties\":{}}}]");
}

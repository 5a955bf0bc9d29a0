use noema::needle::{static_bind_step, EngineSlot};
use noema::needle::{
    binary_name, bind_step, lib_name, platform_tag, BindStep, EngineSettings, FunctionCall, NeedleError, NeedleResponse,
};
use noema::json::JsonValue;

#[test]
fn settings_build() {
    let settings = EngineSettings::new(r#"[]"#).with_system("date: 2026-08-20");
    assert_eq!(settings.system.as_deref(), Some("date: 2026-08-20"));
    assert_eq!(settings.tools_json, "[]");
    assert_eq!(settings.buffer_size, 1 << 16);
}

#[test]
fn settings_builders_set_one_field_each() {
    let settings = EngineSettings::new("[]").with_tool_index("/tmp/index").with_weights("/tmp/w.cact").with_buffer_size(128);
    assert_eq!(settings.tool_index_path.as_deref(), Some("/tmp/index"));
    assert_eq!(settings.weights.as_deref(), Some("/tmp/w.cact"));
    assert_eq!(settings.buffer_size, 128);
    assert!(settings.system.is_none());
}

#[test]
fn error_errors_display_their_category() {
    assert!(NeedleError::InitFailed(-1).message().contains("needle_init"));
    assert!(NeedleError::CompleteFailed(-3).message().contains("needle_complete"));
    assert!(NeedleError::EngineNotFound("nope".into()).message().contains("NEEDLE_LIB_PATH"));
}

#[test]
fn error_codes_are_written_in_decimal() {
    assert_eq!(NeedleError::InitFailed(-1).message(), "needle_init failed with code -1");
    assert_eq!(NeedleError::LoadFailed(12).message(), "needle_load failed with code 12");
    assert_eq!(NeedleError::CompleteFailed(i32::MIN).message(), "needle_complete failed with code -2147483648");
    assert_eq!(NeedleError::MissingSymbol("needle_init".into()).message(), "needle engine library is missing required symbol `needle_init`");
    let io = NeedleError::from(std::io::Error::new(std::io::ErrorKind::Other, "disk on fire"));
    assert_eq!(io.message(), "io error: disk on fire");
}

#[test]
fn result_flows() {
    fn fail() -> Result<(), NeedleError> {
        Err(NeedleError::InitFailed(-2))
    }
    assert!(fail().is_err());
}

#[test]
fn lib_name_is_platform_specific() {
    assert_eq!(lib_name("windows"), "libneedle.dll");
    assert_eq!(lib_name("macos"), "libneedle.dylib");
    assert_eq!(lib_name("linux"), "libneedle.so");
    assert_eq!(binary_name("windows"), "needle.exe");
    assert_eq!(binary_name("linux"), "needle");
    assert!(!platform_tag("linux", "x86_64").is_empty());
}

#[test]
fn platform_tags_name_os_and_arch() {
    assert_eq!(platform_tag("windows", "x86_64"), "windows-x86_64");
    assert_eq!(platform_tag("windows", "aarch64"), "windows-arm64");
    assert_eq!(platform_tag("linux", "aarch64"), "linux-arm64");
    assert_eq!(platform_tag("linux", "arm"), "linux-armv7");
    assert_eq!(platform_tag("macos", "aarch64"), "macos-arm64");
    assert_eq!(platform_tag("macos", "x86_64"), "macos-x86_64");
    assert_eq!(platform_tag("freebsd", "riscv64"), "linux-x86_64");
}

fn call_response(name: &str) -> NeedleResponse {
    NeedleResponse {
        response_type: "call".into(),
        function_calls: vec![FunctionCall { name: name.into(), arguments: JsonValue::Object(vec![]) }],
        ..Default::default()
    }
}

#[test]
fn missing_fields_default() {
    let response = NeedleResponse { response_type: "call".into(), ..Default::default() };
    assert!(response.is_refusal());
    assert_eq!(response.success, None);
    assert!(response.validation.is_none());
}

#[test]
fn envelopes_classify_their_turn() {
    let call = call_response("set_lights");
    assert!(call.is_call());
    assert!(!call.is_respond());
    assert!(!call.is_refusal());
    assert_eq!(call.calls()[0].name, "set_lights");
    assert!(call.calls()[0].arguments_map().is_some());
    let respond = NeedleResponse { response_type: "respond".into(), ..Default::default() };
    assert!(respond.is_respond());
    assert!(!respond.is_refusal());
}

#[test]
fn binding_respects_loaded_weights() {
    assert!(matches!(bind_step(true, None, Some("/w")), Ok(BindStep::AlreadyBound)));
    assert!(matches!(bind_step(false, None, None), Ok(BindStep::Init { load_weights: None })));
    match bind_step(false, Some("/w"), None) {
        Ok(BindStep::Init { load_weights: Some(w) }) => assert_eq!(w, "/w"),
        other => panic!("unexpected {other:?}"),
    }
    match bind_step(false, None, Some("/loaded")) {
        Err(NeedleError::WeightsConflict(l)) => assert_eq!(l, "/loaded"),
        other => panic!("unexpected {other:?}"),
    }
    assert!(matches!(bind_step(false, Some("/a"), Some("/b")), Err(NeedleError::WeightsConflict(_))));
    assert!(matches!(bind_step(false, Some("/a"), Some("/a")), Ok(BindStep::Init { load_weights: Some(_) })));
}

#[test]
fn static_engine_binds_by_the_tools_it_holds() {
    assert!(matches!(static_bind_step(Some("[]"), "[]", None, Some("w.cact")), Ok(BindStep::AlreadyBound)));
    assert!(matches!(static_bind_step(Some("[1]"), "[]", None, None), Ok(BindStep::Init { load_weights: None })));
    assert!(matches!(static_bind_step(None, "[]", None, Some("w.cact")), Err(NeedleError::WeightsConflict(s)) if s == "w.cact"));
    assert!(matches!(static_bind_step(None, "[]", Some("a.cact"), Some("b.cact")), Err(NeedleError::WeightsConflict(s)) if s == "b.cact"));
    assert!(matches!(static_bind_step(None, "[]", Some("a.cact"), None), Ok(BindStep::Init { load_weights: Some(w) }) if w == "a.cact"));
}

#[test]
fn weights_compare_as_paths() {
    assert!(matches!(bind_step(false, Some("w//tuned.cact"), Some("w/tuned.cact")), Ok(BindStep::Init { load_weights: Some(w) }) if w == "w//tuned.cact"));
    assert!(matches!(bind_step(false, Some("w/other.cact"), Some("w/tuned.cact")), Err(NeedleError::WeightsConflict(s)) if s == "w/tuned.cact"));
}

#[test]
fn engine_slot_records_binding_and_weights() {
    let mut slot = EngineSlot::new();
    assert!(matches!(slot.step(1, None), Ok(BindStep::Init { load_weights: None })));
    assert!(matches!(slot.initialised(1, -2), Err(NeedleError::InitFailed(-2))));
    assert!(matches!(slot.step(1, None), Ok(BindStep::Init { .. })));
    assert!(slot.initialised(1, 0).is_ok());
    assert!(matches!(slot.step(1, Some("w.cact")), Ok(BindStep::AlreadyBound)));
    assert!(matches!(slot.step(2, Some("w.cact")), Ok(BindStep::Init { load_weights: Some(w) }) if w == "w.cact"));
    assert!(matches!(slot.loaded("w.cact", 5), Err(NeedleError::LoadFailed(5))));
    assert!(slot.loaded("w.cact", 0).is_ok());
    assert!(matches!(slot.step(2, None), Err(NeedleError::WeightsConflict(s)) if s == "w.cact"));
}

use noema::config::{logging_setup, LogLevel, LoggingSetup, NoemaConfig};
use noema::error::NoemaError;
use noema::escalation::{EscalationDecision, EscalationPolicy};
use noema::metrics::{MetricsCollector, MetricsSnapshot};
use noema::model::{ContentPart, EscalationRequest, Message, ModelChunk, Role, Usage};
use noema::tools::ToolError;

#[test]
fn defaults_are_sane() {
    let config = NoemaConfig::default();
    assert!(!config.gemma.enabled);
    assert!(!config.needle.enabled);
    assert!(!config.cloud.enabled);
    assert!(!config.offline_mode);
    assert_eq!(config.logging.level, LogLevel::Info);
    assert_eq!(config.streaming.event_capacity, 1024);
    assert!(config.limits.max_agent_iterations > 0);
    assert!(config.risk.require_approval_above.is_some());
}

#[test]
fn offline_mode_and_cloud_escalation_are_independent_fields() {
    let mut config = NoemaConfig::default();
    config.offline_mode = true;
    // Even if cloud is configured on, offline mode wins at runtime.
    config.cloud.enabled = true;
    assert!(config.cloud.enabled && config.offline_mode);
}

#[test]
fn log_levels_map_to_tracing() {
    assert!(LogLevel::Off.as_tracing_level().is_none());
    assert_eq!(LogLevel::Error.as_tracing_level(), Some(tracing::Level::ERROR));
    assert_eq!(LogLevel::Trace.as_tracing_level(), Some(tracing::Level::TRACE));
}

#[test]
fn every_log_level_maps_to_its_namesake() {
    assert_eq!(LogLevel::Warn.as_tracing_level(), Some(tracing::Level::WARN));
    assert_eq!(LogLevel::Info.as_tracing_level(), Some(tracing::Level::INFO));
    assert_eq!(LogLevel::Debug.as_tracing_level(), Some(tracing::Level::DEBUG));
    assert_eq!(LogLevel::default(), LogLevel::Info);
}

#[test]
fn only_the_first_logging_setup_takes_effect() {
    assert_eq!(logging_setup(false, LogLevel::Debug), LoggingSetup::Install(LogLevel::Debug));
    assert_eq!(logging_setup(false, LogLevel::Off), LoggingSetup::LeaveUninitialized);
    assert_eq!(logging_setup(true, LogLevel::Debug), LoggingSetup::AlreadyInitialized);
}

#[test]
fn errors_display_their_category() {
    assert!(NoemaError::Model("boom".into()).message().contains("model"));
    assert!(NoemaError::Needle("boom".into()).message().contains("needle"));
    assert!(NoemaError::Router("boom".into()).message().contains("router"));
    assert!(NoemaError::Tool("boom".into()).message().contains("tool"));
    assert!(NoemaError::Memory("boom".into()).message().contains("memory"));
    assert!(NoemaError::Approval("boom".into()).message().contains("approval"));
    assert!(NoemaError::Context("boom".into()).message().contains("context"));
    assert!(NoemaError::Escalation("boom".into()).message().contains("escalation"));
    assert!(NoemaError::Session("boom".into()).message().contains("session"));
    assert!(NoemaError::Configuration("boom".into()).message().contains("configuration"));
}

#[test]
fn session_error_flows_through_result() {
    fn fail() -> Result<(), NoemaError> {
        Err(NoemaError::Session("gone".into()))
    }
    assert!(fail().is_err());
    assert!(fail().unwrap_err().is_session());
}

#[test]
fn tool_errors_become_tool_errors() {
    let error: NoemaError = ToolError::NotFound("x".into()).into();
    assert_eq!(error.message(), "tool error: tool not found: x");
    assert!(matches!(NoemaError::from_tool_error(ToolError::Execution("e".into())), NoemaError::Tool(_)));
}

#[test]
fn defaults_escalate_locally_and_never_to_cloud() {
    let policy = EscalationPolicy::default();
    let request = EscalationRequest::new("low confidence", vec![]);
    assert_eq!(policy.decide(&request), EscalationDecision::Local);
    assert!(!policy.allow_cloud);
}

#[test]
fn from_config_reads_cloud_and_offline_settings() {
    let mut config = NoemaConfig::default();
    config.cloud.enabled = true;
    config.cloud.preferred_provider = Some("gemini".into());
    config.cloud.maximum_latency_ms = Some(5_000);
    config.offline_mode = true;

    let policy = EscalationPolicy::from_config(&config);
    assert!(policy.allow_cloud);
    assert!(policy.offline_only);
    assert_eq!(policy.preferred_provider.as_deref(), Some("gemini"));
    assert_eq!(policy.maximum_latency_ms, Some(5_000));
}

#[test]
fn offline_mode_denies_cloud() {
    let policy = EscalationPolicy { allow_local: false, allow_cloud: true, offline_only: true, ..EscalationPolicy::default() };
    let request = EscalationRequest::new("low confidence", vec![]);
    assert_eq!(policy.decide(&request), EscalationDecision::Denied);
}

#[test]
fn cloud_is_chosen_only_when_local_is_disabled() {
    let policy = EscalationPolicy { allow_local: false, allow_cloud: true, ..EscalationPolicy::default() };
    let request = EscalationRequest::new("low confidence", vec![]);
    assert_eq!(policy.decide(&request), EscalationDecision::Cloud);
}

#[test]
fn everything_denied_when_no_target_is_allowed() {
    let policy = EscalationPolicy { allow_local: false, allow_cloud: false, ..EscalationPolicy::default() };
    let request = EscalationRequest::new("low confidence", vec![]);
    assert_eq!(policy.decide(&request), EscalationDecision::Denied);
}

#[test]
fn model_metrics_accumulate_per_model() {
    let mut collector = MetricsCollector::new();
    collector.record_model_turn("gemma", 10, Some(Usage { input_tokens: 5, output_tokens: 3 }));
    collector.record_model_turn("gemma", 20, Some(Usage::default()));
    collector.record_model_turn("needle", 4, Some(Usage { input_tokens: 1, output_tokens: 1 }));

    let snapshot = collector.snapshot();
    let gemma = snapshot.model("gemma").expect("gemma");
    assert_eq!(gemma.turns, 2);
    assert_eq!(gemma.input_tokens, 5);
    assert_eq!(gemma.output_tokens, 3);
    assert_eq!(gemma.latency_ms, 30);
    assert_eq!(gemma.total_tokens(), 8);

    let needle = snapshot.model("needle").expect("needle");
    assert_eq!(needle.turns, 1);
    assert_eq!(snapshot.total_model_turns(), 3);
    assert_eq!(snapshot.total_input_tokens(), 6);
    assert_eq!(snapshot.total_output_tokens(), 4);
    assert_eq!(snapshot.total_model_latency_ms(), 34);
}

#[test]
fn turns_without_usage_do_not_touch_token_totals() {
    let mut collector = MetricsCollector::new();
    collector.record_model_turn("gemma", 7, None);
    let snapshot = collector.snapshot();
    let gemma = snapshot.model("gemma").expect("gemma");
    assert_eq!(gemma.turns, 1);
    assert_eq!(gemma.input_tokens, 0);
    assert_eq!(gemma.output_tokens, 0);
    assert_eq!(gemma.latency_ms, 7);
}

#[test]
fn tool_metrics_count_calls_and_failures() {
    let mut collector = MetricsCollector::new();
    collector.record_tool_call("search_files", 3, true);
    collector.record_tool_call("search_files", 9, false);
    collector.record_tool_call("delete_file", 2, true);

    let snapshot = collector.snapshot();
    let search = snapshot.tool("search_files").expect("search");
    assert_eq!(search.calls, 2);
    assert_eq!(search.failures, 1);
    assert_eq!(search.latency_ms, 12);
    assert!(!search.all_succeeded());

    let delete = snapshot.tool("delete_file").expect("delete");
    assert!(delete.all_succeeded());
    assert_eq!(snapshot.total_tool_calls(), 3);
    assert_eq!(snapshot.total_tool_failures(), 1);
    assert_eq!(snapshot.total_tool_latency_ms(), 14);
}

#[test]
fn escalation_metrics_track_local_and_cloud() {
    let mut collector = MetricsCollector::new();
    collector.record_escalation(None, None);
    collector.record_escalation(Some("openai"), Some(250));
    collector.record_escalation(Some("openai"), Some(150));

    let snapshot = collector.snapshot();
    assert_eq!(snapshot.escalation.escalations, 3);
    assert_eq!(snapshot.escalation.cloud_escalations, 2);
    assert_eq!(snapshot.escalation.latency_ms, 400);
    assert_eq!(snapshot.cloud_escalations(), 2);
}

#[test]
fn snapshot_carries_no_content() {
    let mut collector = MetricsCollector::new();
    collector.record_model_turn("gemma", 5, None);
    let snapshot = collector.snapshot();
    assert_eq!(snapshot.models.len(), 1);
    assert_eq!(snapshot.models[0].0, "gemma");
    assert!(snapshot.tools.is_empty());
}

#[test]
fn reset_clears_everything() {
    let mut collector = MetricsCollector::new();
    collector.record_model_turn("gemma", 5, None);
    collector.reset();
    assert!(collector.snapshot().is_empty());
    assert!(MetricsSnapshot::empty().is_empty());
}

#[test]
fn text_message_builds() {
    let message = Message::text(Role::User, "hello");
    assert_eq!(message.role, Role::User);
    assert_eq!(message.content, vec![ContentPart::Text("hello".into())]);
}

#[test]
fn multimodal_message_preserves_order() {
    let message = Message::new(
        Role::User,
        vec![
            ContentPart::text("explain this"),
            ContentPart::image(vec![1, 2, 3], "image/png"),
            ContentPart::audio(vec![4, 5], "audio/wav"),
        ],
    );
    assert_eq!(message.content.len(), 3);
    assert!(matches!(message.content[1], ContentPart::Image(_)));
    assert!(matches!(message.content[2], ContentPart::Audio(_)));
}

#[test]
fn usage_totals() {
    let usage = Usage { input_tokens: 10, output_tokens: 5 };
    assert_eq!(usage.total(), 15);
}

#[test]
fn escalation_request_carries_context() {
    let request = EscalationRequest::new("needs bigger reasoning", vec![Message::text(Role::User, "hard problem")]);
    assert_eq!(request.context.len(), 1);
    assert_eq!(request.reason, "needs bigger reasoning");
    assert_eq!(ModelChunk::new("Hel").delta, "Hel");
}

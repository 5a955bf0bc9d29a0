use noema::error::NoemaError;
use noema::escalation::EscalationPolicy;
use noema::json::JsonValue;
use noema::model::{ContentPart, EscalationRequest, Message, ModelChunk, Role, Usage};
use noema::registry::{RegisteredTool, ToolRegistry};
use noema::risk::RiskLevel;
use noema::route::{ModelAnswer, Route, RoutedAction, SendOutcome};
use noema::session::{
    check_formatted_call, check_tool_call, choose_formatter, close_registered_session, close_session_state,
    plain_user_text, tool_outcome, FormatterChoice, ModelReply, SendFlow, SendPhase, SendStep, SessionEvent,
    SessionState,
};
use noema::tools::{ToolCall, ToolError, ToolMetadata, ToolResult, ToolSchema};

fn names(events: &[SessionEvent]) -> Vec<String> {
    events
        .iter()
        .map(|e| match e {
            SessionEvent::ModelStarted { model } => format!("ModelStarted({model})"),
            SessionEvent::ModelDelta { delta } => format!("ModelDelta({delta})"),
            SessionEvent::Error { error } => format!("Error({error})"),
            other => format!("{other:?}"),
        })
        .collect()
}

fn done_error(step: SendStep) -> NoemaError {
    match step {
        SendStep::Done(Err(e)) => e,
        other => panic!("expected an error, got {other:?}"),
    }
}

#[test]
fn send_rejects_when_closed() {
    let (_, events, step) = SendFlow::begin(SessionState::Closed, "s-1", Some("echo"), false, Message::text(Role::User, "hi"));
    assert!(events.is_empty());
    let error = done_error(step);
    assert!(matches!(error, NoemaError::Session(_)));
    assert_eq!(error.message(), "session error: session s-1 is closed");
}

#[test]
fn send_requires_a_registered_model() {
    let (_, events, step) = SendFlow::begin(SessionState::Active, "s-1", None, false, Message::text(Role::User, "hi"));
    assert!(events.is_empty());
    let error = done_error(step);
    assert!(matches!(error, NoemaError::Model(_)));
    assert!(error.message().contains("with_model"));
}

#[test]
fn send_returns_echo_and_emits_events() {
    let (mut flow, events, step) = SendFlow::begin(SessionState::Active, "s-1", Some("echo"), false, Message::text(Role::User, "ping"));
    assert_eq!(names(&events), vec!["UserMessageReceived", "ModelStarted(echo)"]);
    assert!(matches!(step, SendStep::Generate));
    let (events, step) = flow.on_model(Ok(ModelReply::Text { content: "ping".into(), usage: None }));
    assert_eq!(names(&events), vec!["ModelDelta(ping)", "ModelCompleted"]);
    match step {
        SendStep::Done(Ok(SendOutcome::Model(ModelAnswer::Text { content, usage }))) => {
            assert_eq!(content, "ping");
            assert_eq!(usage, None);
        },
        other => panic!("unexpected {other:?}"),
    }
}

#[test]
fn streaming_response_is_drained_and_streamed_as_events() {
    let (mut flow, _, _) = SendFlow::begin(SessionState::Active, "s-1", Some("echo"), false, Message::text(Role::User, "x"));
    let (events, step) = flow.on_model(Ok(ModelReply::Stream));
    assert!(events.is_empty());
    assert!(matches!(step, SendStep::NextChunk));
    for delta in ["Hel", "", "lo"] {
        let (events, step) = flow.on_chunk(Some(Ok(ModelChunk::new(delta))));
        assert!(matches!(step, SendStep::NextChunk));
        assert_eq!(events.len(), if delta.is_empty() { 0 } else { 1 });
    }
    let (events, step) = flow.on_chunk(None);
    assert_eq!(names(&events), vec!["ModelCompleted"]);
    match step {
        SendStep::Done(Ok(SendOutcome::Model(ModelAnswer::Text { content, usage }))) => {
            assert_eq!(content, "Hello");
            assert!(usage.is_none());
        },
        other => panic!("unexpected {other:?}"),
    }
    assert_eq!(flow.current_phase(), SendPhase::Finished);
}

#[test]
fn a_failing_chunk_is_published_and_ends_the_send() {
    let (mut flow, _, _) = SendFlow::begin(SessionState::Active, "s-1", Some("echo"), false, Message::text(Role::User, "x"));
    let _ = flow.on_model(Ok(ModelReply::Stream));
    let (events, step) = flow.on_chunk(Some(Err(NoemaError::Model("cut".into()))));
    assert_eq!(names(&events), vec!["Error(model error: cut)"]);
    assert!(matches!(done_error(step), NoemaError::Model(_)));
}

#[test]
fn escalation_response_is_surfaced() {
    let (mut flow, _, _) = SendFlow::begin(SessionState::Active, "s-1", Some("echo"), false, Message::text(Role::User, "x"));
    let (events, step) = flow.on_model(Ok(ModelReply::Escalate(EscalationRequest::new("too hard", vec![]))));
    assert!(events.is_empty());
    match step {
        SendStep::Done(Ok(SendOutcome::Model(ModelAnswer::Escalate(request)))) => assert_eq!(request.reason, "too hard"),
        other => panic!("unexpected {other:?}"),
    }
}

#[test]
fn router_handles_plain_text_without_the_model() {
    let (mut flow, events, step) =
        SendFlow::begin(SessionState::Active, "s-1", Some("echo"), true, Message::text(Role::User, "open my flashcards"));
    assert_eq!(names(&events), vec!["UserMessageReceived", "RoutingStarted"]);
    match step {
        SendStep::Route(text) => assert_eq!(text, "open my flashcards"),
        other => panic!("unexpected {other:?}"),
    }
    let (events, step) = flow.on_route(Ok(Route::Action(RoutedAction::new("open_flashcards"))), &EscalationPolicy::default());
    assert_eq!(names(&events), vec!["RoutingCompleted"]);
    match step {
        SendStep::Done(Ok(outcome)) => {
            assert!(outcome.is_routed());
            assert_eq!(outcome.into_routed().map(|a| a.id), Some("open_flashcards".to_string()));
        },
        other => panic!("unexpected {other:?}"),
    }
}

#[test]
fn router_escalation_reaches_the_model() {
    let (mut flow, _, _) = SendFlow::begin(SessionState::Active, "s-1", Some("echo"), true, Message::text(Role::User, "why?"));
    let (events, step) = flow.on_route(Ok(Route::Escalate { reason: "question".into() }), &EscalationPolicy::default());
    assert_eq!(names(&events), vec!["RoutingEscalated", "EscalationStarted", "ModelStarted(echo)"]);
    assert!(matches!(step, SendStep::Generate));
    let (events, _) = flow.on_model(Ok(ModelReply::Text { content: String::new(), usage: Some(Usage::default()) }));
    assert_eq!(names(&events), vec!["ModelCompleted", "EscalationCompleted"]);
}

#[test]
fn multimodal_messages_skip_routing() {
    let message = Message::new(Role::User, vec![ContentPart::text("what is this"), ContentPart::image(vec![1], "image/png")]);
    let (_, events, step) = SendFlow::begin(SessionState::Active, "s-1", Some("echo"), true, message);
    assert_eq!(names(&events), vec!["UserMessageReceived", "ModelStarted(echo)"]);
    assert!(matches!(step, SendStep::Generate));
    assert!(plain_user_text(&Message::text(Role::Assistant, "hi")).is_none());
    assert_eq!(plain_user_text(&Message::text(Role::User, "hi")), Some("hi".to_string()));
}

#[test]
fn router_failure_escalates_with_error_event() {
    let (mut flow, _, _) = SendFlow::begin(SessionState::Active, "s-1", Some("echo"), true, Message::text(Role::User, "x"));
    let (events, step) = flow.on_route(Err(NoemaError::Router("engine down".into())), &EscalationPolicy::default());
    assert_eq!(
        names(&events),
        vec!["RoutingEscalated", "Error(router error: engine down)", "EscalationStarted", "ModelStarted(echo)"]
    );
    assert!(matches!(step, SendStep::Generate));
}

#[test]
fn denied_escalation_policy_errors() {
    let policy = EscalationPolicy { allow_local: false, allow_cloud: false, ..EscalationPolicy::default() };
    let (mut flow, _, _) = SendFlow::begin(SessionState::Active, "s-1", Some("echo"), true, Message::text(Role::User, "x"));
    let (events, step) = flow.on_route(Ok(Route::Escalate { reason: "question".into() }), &policy);
    assert_eq!(names(&events), vec!["RoutingEscalated", "Error(escalation denied by policy: question)"]);
    let error = done_error(step);
    assert_eq!(error.message(), "escalation error: escalation denied by policy: question");
}

#[test]
fn cloud_escalation_requires_a_provider() {
    let policy = EscalationPolicy { allow_local: false, allow_cloud: true, ..EscalationPolicy::default() };
    let (mut flow, _, _) = SendFlow::begin(SessionState::Active, "s-1", Some("echo"), true, Message::text(Role::User, "x"));
    let (events, step) = flow.on_route(Ok(Route::Escalate { reason: "question".into() }), &policy);
    assert_eq!(names(&events), vec!["RoutingEscalated"]);
    assert!(matches!(done_error(step), NoemaError::Escalation(_)));
}

#[test]
fn session_starts_active_and_closes_once() {
    let mut state = SessionState::Active;
    assert!(matches!(close_session_state(&mut state, "s-1"), Ok(SessionEvent::SessionCompleted)));
    assert_eq!(state, SessionState::Closed);
    let error = close_session_state(&mut state, "s-1").expect_err("second close");
    assert_eq!(error.message(), "session error: session s-1 is already closed");
}

#[test]
fn close_unknown_session_fails() {
    assert!(matches!(close_registered_session(None, "s-9"), Err(NoemaError::Session(_))));
    assert!(matches!(close_registered_session(Some(SessionState::Active), "s-1"), Ok(SessionEvent::SessionCompleted)));
    assert!(matches!(close_registered_session(Some(SessionState::Closed), "s-1"), Err(NoemaError::Session(_))));
}

fn echo_registry() -> ToolRegistry {
    let mut registry = ToolRegistry::new();
    let parameters = JsonValue::Object(vec![
        ("type".into(), JsonValue::Str("object".into())),
        ("properties".into(), JsonValue::Object(vec![])),
        ("required".into(), JsonValue::Array(vec![JsonValue::Str("message".into())])),
    ]);
    registry
        .register(RegisteredTool::new(
            ToolMetadata { name: "echo".into(), crate_name: "noema-test".into(), description: "Echo".into(), risk: RiskLevel::NoRisk },
            ToolSchema { name: "echo".into(), description: "Echo".into(), parameters },
        ))
        .expect("register");
    registry
}

#[test]
fn execute_tool_requires_registration_and_validation() {
    let call = ToolCall::with_arguments("echo", JsonValue::Object(vec![("message".into(), JsonValue::Str("hi".into()))]));
    assert!(matches!(check_tool_call(None, &call), Err(NoemaError::Tool(_))));
    let registry = echo_registry();
    check_tool_call(Some(&registry), &call).expect("valid call");
    assert!(matches!(check_tool_call(Some(&registry), &ToolCall::new("echo")), Err(NoemaError::Tool(_))));
    let error = check_tool_call(Some(&registry), &ToolCall::new("nope")).expect_err("unknown");
    assert_eq!(error.message(), "tool error: tool not found: nope");
}

#[test]
fn execute_tool_runs_and_emits_events() {
    let (event, result) = tool_outcome(Ok(ToolResult::ok("done")));
    assert!(matches!(event, SessionEvent::ToolCompleted));
    assert_eq!(result.map(|r| r.text).ok(), Some("done".to_string()));
    let (event, result) = tool_outcome(Err(ToolError::Execution("boom".into())));
    assert!(matches!(event, SessionEvent::ToolFailed));
    assert_eq!(result.err().map(|e| e.message()), Some("tool error: tool execution failed: boom".to_string()));
}

#[test]
fn format_tool_requires_a_formatter() {
    assert_eq!(choose_formatter(true, true).ok(), Some(FormatterChoice::ForTool));
    assert_eq!(choose_formatter(false, true).ok(), Some(FormatterChoice::Default));
    let error = choose_formatter(false, false).expect_err("no formatter");
    assert!(error.message().contains("with_tool_formatter"));
}

#[test]
fn format_tool_uses_the_registered_formatter() {
    let registry = echo_registry();
    let call = ToolCall::with_arguments("echo", JsonValue::Object(vec![("message".into(), JsonValue::Str("hi".into()))]));
    let checked = check_formatted_call(Some(&registry), call).expect("valid");
    assert_eq!(checked.tool, "echo");
    assert!(check_formatted_call(Some(&registry), ToolCall::new("echo")).is_err());
    assert!(check_formatted_call(None, ToolCall::new("anything")).is_ok());
}

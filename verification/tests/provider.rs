use noema::error::NoemaError;
use noema::model::{ContentPart, Message, ModelChunk, Role, Usage};
use noema::provider::{
    build_chat_body, classify_sse_bytes, classify_sse_line, completion_reply, parts_text, provider_error, role_str,
    stream_delta, take_line, OpenAICompatibleProvider, ProviderFailure, SseLine,
};
use noema::session::ModelReply;

#[test]
fn multimodal_parts_become_placeholders() {
    let parts = vec![
        ContentPart::text("see "),
        ContentPart::image(vec![1, 2, 3], "image/png"),
        ContentPart::audio(vec![4, 5], "audio/wav"),
    ];
    assert_eq!(parts_text(&parts), "see [image content][audio content]");
}

#[test]
fn body_builds_system_and_messages_in_order() {
    let messages = vec![Message::text(Role::User, "hello")];
    let body = build_chat_body("m", Some("be brief"), &messages, Some(64), true);
    assert_eq!(body.messages[0].role, "system");
    assert_eq!(body.messages[0].content, "be brief");
    assert_eq!(body.messages[1].role, "user");
    assert_eq!(body.messages[1].content, "hello");
    assert!(body.stream);
    assert_eq!(body.include_usage, Some(true));
    assert_eq!(body.max_tokens, Some(64));
    let plain = build_chat_body("m", None, &messages, None, false);
    assert_eq!(plain.messages.len(), 1);
    assert_eq!(plain.include_usage, None);
}

#[test]
fn roles_use_the_protocol_names() {
    assert_eq!(role_str(Role::System), "system");
    assert_eq!(role_str(Role::User), "user");
    assert_eq!(role_str(Role::Assistant), "assistant");
    assert_eq!(role_str(Role::Tool), "tool");
}

#[test]
fn provider_is_configured_with_model_url_and_key() {
    let provider = OpenAICompatibleProvider::new("openai", "gpt-4o", "https://api.openai.com/v1", Some("sk-...".into()));
    assert_eq!(provider.id(), "openai");
    assert_eq!(provider.model(), "gpt-4o");
    assert_eq!(provider.api_key(), Some("sk-..."));
    assert!(!provider.streaming());
    assert_eq!(provider.endpoint(), "https://api.openai.com/v1/chat/completions");
    let provider = provider.with_streaming(true).with_timeout(std::time::Duration::from_secs(3));
    assert!(provider.streaming());
    assert_eq!(provider.timeout(), Some(std::time::Duration::from_secs(3)));
}

#[test]
fn endpoint_drops_trailing_slashes() {
    let provider = OpenAICompatibleProvider::new("local", "m", "http://127.0.0.1:8080//", None);
    assert_eq!(provider.endpoint(), "http://127.0.0.1:8080/chat/completions");
    assert_eq!(provider.api_key(), None);
    assert_eq!(provider.base_url(), "http://127.0.0.1:8080//");
}

#[test]
fn stream_lines_are_framed_at_newlines() {
    let mut buffer = b"data: a\ndata: b\npart".to_vec();
    assert_eq!(take_line(&mut buffer), Some(b"data: a\n".to_vec()));
    assert_eq!(take_line(&mut buffer), Some(b"data: b\n".to_vec()));
    assert_eq!(take_line(&mut buffer), None);
    assert_eq!(buffer, b"part".to_vec());
}

#[test]
fn stream_lines_are_classified() {
    assert!(matches!(classify_sse_line("\n"), SseLine::Skip));
    assert!(matches!(classify_sse_line(": keep-alive\n"), SseLine::Skip));
    assert!(matches!(classify_sse_line("event: ping\n"), SseLine::Skip));
    assert!(matches!(classify_sse_line("data: [DONE]\n"), SseLine::Done));
    match classify_sse_line("  data:  {\"x\":1} \r\n") {
        SseLine::Payload(p) => assert_eq!(p, "{\"x\":1}"),
        other => panic!("unexpected {other:?}"),
    }
    match classify_sse_bytes(b"data: caf\xc3\xa9\n") {
        SseLine::Payload(p) => assert_eq!(p, "caf\u{e9}"),
        other => panic!("unexpected {other:?}"),
    }
}

#[test]
fn empty_deltas_are_not_chunks() {
    assert_eq!(stream_delta(Some("Hel".into())), Some(ModelChunk::new("Hel")));
    assert_eq!(stream_delta(Some(String::new())), None);
    assert_eq!(stream_delta(None), None);
}

#[test]
fn non_streaming_completion_parses_text_and_usage() {
    match completion_reply(Some("hello world".into()), Some(Usage { input_tokens: 10, output_tokens: 5 })) {
        ModelReply::Text { content, usage } => {
            assert_eq!(content, "hello world");
            assert_eq!(usage.map(|u| u.total()), Some(15));
        },
        other => panic!("unexpected {other:?}"),
    }
    assert!(matches!(completion_reply(None, None), ModelReply::Text { content, .. } if content.is_empty()));
}

#[test]
fn error_status_surfaces_the_provider_message() {
    let error = provider_error(
        "openai",
        ProviderFailure::Status { status: "401 Unauthorized".into(), detail: "bad key".into() },
    );
    assert!(matches!(error, NoemaError::Model(_)));
    assert!(error.message().contains("401"));
    assert_eq!(error.message(), "model error: provider 'openai' returned 401 Unauthorized: bad key");
}

#[test]
fn cancellation_aborts_the_request() {
    let error = provider_error("openai", ProviderFailure::Cancelled);
    assert!(error.message().contains("cancelled"));
    assert_eq!(error.message(), "model error: cloud completion cancelled (provider 'openai')");
}

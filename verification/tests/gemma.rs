use noema::error::NoemaError;
use noema::gemma::{committed_reply, current_turn, gemma_turn, output_cap, role_text, DrainStep, GemmaDrain, GemmaStreamEvent, GemmaTurn};
use noema::model::{ContentPart, Message, Role};

#[test]
fn plain_text_user_message() {
    let message = Message::text(Role::User, "hello");
    let turn = gemma_turn(&message).expect("map");
    assert_eq!(turn, GemmaTurn::UserText("hello".to_string()));
}

#[test]
fn multimodal_user_message_carries_blobs() {
    let message = Message::new(
        Role::User,
        vec![
            ContentPart::text("describe"),
            ContentPart::image(vec![1, 2, 3], "image/png"),
            ContentPart::audio(vec![4, 5], "audio/wav"),
        ],
    );
    let turn = gemma_turn(&message).expect("map");
    match turn {
        GemmaTurn::UserParts(parts) => {
            assert_eq!(parts.len(), 3);
            assert!(matches!(&parts[0], ContentPart::Text(t) if t == "describe"));
            assert!(matches!(&parts[1], ContentPart::Image(i) if i.bytes == vec![1, 2, 3] && i.mime == "image/png"));
            assert!(matches!(&parts[2], ContentPart::Audio(a) if a.bytes == vec![4, 5] && a.mime == "audio/wav"));
        }
        other => panic!("expected parts, got {other:?}"),
    }
}

#[test]
fn assistant_and_system_map_to_roles() {
    let assistant = gemma_turn(&Message::text(Role::Assistant, "hi")).expect("map");
    assert_eq!(assistant, GemmaTurn::Model("hi".to_string()));
    let system = gemma_turn(&Message::text(Role::System, "be brief")).expect("map");
    assert_eq!(system, GemmaTurn::System("be brief".to_string()));
}

#[test]
fn binary_content_in_non_user_role_fails() {
    let message = Message::new(Role::Assistant, vec![ContentPart::image(vec![1], "image/png")]);
    assert!(gemma_turn(&message).is_err());
}

#[test]
fn non_user_text_parts_are_joined() {
    let parts = vec![ContentPart::text("ab"), ContentPart::text("cd")];
    assert_eq!(role_text(Role::Tool, &parts).unwrap(), "abcd");
    let turn = gemma_turn(&Message::new(Role::Tool, parts)).unwrap();
    assert_eq!(turn, GemmaTurn::Tool("abcd".to_string()));
    assert_eq!(role_text(Role::System, &Vec::new()).unwrap(), "");
}

#[test]
fn binary_refusal_names_role_and_first_binary_kind() {
    let parts = vec![
        ContentPart::text("x"),
        ContentPart::audio(vec![9], "audio/wav"),
        ContentPart::image(vec![1], "image/png"),
    ];
    match role_text(Role::System, &parts) {
        Err(NoemaError::Model(m)) => assert_eq!(
            m,
            "System messages cannot carry binary content parts (audio); images and audio are supported for user turns"
        ),
        other => panic!("expected a refusal, got {other:?}"),
    }
}

#[test]
fn single_binary_user_part_is_sent_as_parts() {
    let message = Message::new(Role::User, vec![ContentPart::image(vec![7], "image/png")]);
    assert!(matches!(gemma_turn(&message).unwrap(), GemmaTurn::UserParts(p) if p.len() == 1));
}

fn chunk(delta: Option<&str>, is_final: bool) -> GemmaStreamEvent {
    GemmaStreamEvent::Chunk { error: None, delta: delta.map(str::to_string), is_final }
}

#[test]
fn drain_forwards_nonempty_deltas_until_the_last_chunk() {
    let mut drain = GemmaDrain::new();
    assert!(matches!(drain.on_event(false, chunk(Some("Hel"), false)), DrainStep::Send(c) if c.delta == "Hel"));
    assert!(matches!(drain.on_sent(true), DrainStep::Next));
    assert!(matches!(drain.on_event(false, chunk(Some(""), true)), DrainStep::Next));
    assert!(matches!(drain.on_event(false, chunk(None, false)), DrainStep::Next));
    assert!(matches!(drain.on_event(false, chunk(Some("lo \n"), true)), DrainStep::Send(c) if c.delta == "lo \n"));
    assert!(matches!(drain.on_sent(true), DrainStep::Stop { cancel_process: false }));
    assert_eq!(drain.forwarded(), "Hello \n");
    assert!(!drain.cancelled());
    assert_eq!(committed_reply(drain.forwarded(), drain.cancelled()), Some("Hello".to_string()));
}

#[test]
fn drain_stops_on_cancellation_errors_and_a_gone_consumer() {
    let mut drain = GemmaDrain::new();
    match drain.on_event(true, chunk(Some("x"), false)) {
        DrainStep::Fail { error: NoemaError::Model(m), cancel_process: true } => assert_eq!(m, "gemma generation cancelled"),
        other => panic!("unexpected {other:?}"),
    }
    assert!(drain.cancelled());
    assert_eq!(committed_reply("partial", true), None);

    let mut drain = GemmaDrain::new();
    match drain.on_event(false, GemmaStreamEvent::StartFailed("-3".to_string())) {
        DrainStep::Fail { error: NoemaError::Model(m), cancel_process: false } => assert_eq!(m, "gemma stream failed to start: -3"),
        other => panic!("unexpected {other:?}"),
    }

    let mut drain = GemmaDrain::new();
    let event = GemmaStreamEvent::Chunk { error: Some("oom".to_string()), delta: Some("a".to_string()), is_final: false };
    match drain.on_event(false, event) {
        DrainStep::Fail { error: NoemaError::Model(m), cancel_process: false } => assert_eq!(m, "gemma stream error: oom"),
        other => panic!("unexpected {other:?}"),
    }

    let mut drain = GemmaDrain::new();
    assert!(matches!(drain.on_event(false, chunk(Some("a"), false)), DrainStep::Send(_)));
    assert!(matches!(drain.on_sent(false), DrainStep::Stop { cancel_process: true }));
    assert!(matches!(GemmaDrain::new().on_event(false, chunk(None, true)), DrainStep::Stop { cancel_process: false }));
    assert_eq!(committed_reply("", false), None);
}

#[test]
fn the_current_turn_is_the_last_message() {
    match current_turn(&Vec::new()) {
        Err(NoemaError::Model(m)) => assert_eq!(m, "Gemma request carried no messages"),
        other => panic!("unexpected {other:?}"),
    }
    let messages = vec![Message::text(Role::User, "first"), Message::text(Role::Assistant, "second")];
    assert_eq!(current_turn(&messages).unwrap(), GemmaTurn::Model("second".to_string()));
    assert_eq!(output_cap(None), None);
    assert_eq!(output_cap(Some(512)), Some(512));
    assert_eq!(output_cap(Some(u32::MAX)), Some(i32::MAX));
}

use noema::model::{ContentPart, Message, Role, Usage};
use noema::rig::{
    completion_text, escalation_request_error, image_mime_type, is_binary_mime, last_user_message, map_user_content,
    mime_of_audio, mime_of_image, noema_to_rig, request_messages, rig_to_noema, source_bytes, source_text, text_of,
    token_cap, usage_totals, AssistantItem, AudioMedia, ChatEntry, ContentSource, ImageMedia, NoemaCompletionModel,
    StubProvider, UserItem,
};
use std::sync::Arc;

#[test]
fn user_text_round_trips() {
    let rig = ChatEntry::User(vec![UserItem::Text("hello".into())]);
    let noema = rig_to_noema(&rig).expect("map");
    assert_eq!(noema.role, Role::User);
    assert_eq!(noema.content, vec![ContentPart::text("hello")]);
    match noema_to_rig(&noema) {
        ChatEntry::User(items) => assert!(matches!(&items[..], [UserItem::Text(t)] if t == "hello")),
        other => panic!("unexpected {other:?}"),
    }
}

#[test]
fn system_and_assistant_map_to_roles() {
    let system = rig_to_noema(&ChatEntry::System("be brief".into())).expect("map");
    assert_eq!(system.role, Role::System);
    let assistant = rig_to_noema(&ChatEntry::Assistant(vec![AssistantItem::Text("hi".into())])).expect("map");
    assert_eq!(assistant.role, Role::Assistant);
    assert_eq!(assistant.content, vec![ContentPart::text("hi")]);
}

#[test]
fn tool_result_renders_as_text() {
    let rig = ChatEntry::User(vec![UserItem::ToolResult { name: "search".into(), texts: vec!["a".into(), "b".into()] }]);
    let noema = rig_to_noema(&rig).expect("map");
    assert_eq!(noema.content, vec![ContentPart::text("[tool result: search]\na\nb")]);
}

#[test]
fn image_source_bytes_decode() {
    let rig = ChatEntry::User(vec![UserItem::Image { data: ContentSource::Raw(vec![1, 2, 3]), media: Some(ImageMedia::Png) }]);
    let noema = rig_to_noema(&rig).expect("map");
    assert_eq!(noema.content, vec![ContentPart::image(vec![1, 2, 3], "image/png")]);
}

#[test]
fn base64_image_decodes() {
    let part = map_user_content(&UserItem::Image { data: ContentSource::Base64("AQID".into()), media: None }).expect("map");
    assert_eq!(part, ContentPart::image(vec![1, 2, 3], "application/octet-stream"));
    let error = map_user_content(&UserItem::Image { data: ContentSource::Base64("!!".into()), media: None }).expect_err("bad");
    assert!(error.starts_with("invalid base64 content: "));
    assert!(rig_to_noema(&ChatEntry::User(vec![UserItem::Audio { data: ContentSource::Base64("!!".into()), media: None }])).is_err());
}

#[test]
fn document_renders_as_source_text() {
    let part = map_user_content(&UserItem::Document { data: ContentSource::Text("fn main() {}".into()) }).expect("map");
    assert_eq!(part, ContentPart::text("fn main() {}"));
    assert_eq!(source_text(&ContentSource::Raw(vec![0; 12])), "12 bytes");
    assert_eq!(source_text(&ContentSource::Base64("AQID".into())), "4 base64 bytes");
    assert_eq!(source_text(&ContentSource::Unknown), "<unknown>");
    let video = map_user_content(&UserItem::Video { data: ContentSource::Url("http://v".into()) }).expect("map");
    assert_eq!(video, ContentPart::text("[video: http://v]"));
    assert_eq!(source_bytes(&ContentSource::Url("ab".into())).ok(), Some(b"ab".to_vec()));
}

#[test]
fn assistant_tool_call_renders_as_json() {
    let rig = ChatEntry::Assistant(vec![AssistantItem::ToolCall { name: "search".into(), arguments: "{\"q\":1}".into() }]);
    let noema = rig_to_noema(&rig).expect("map");
    assert_eq!(noema.content, vec![ContentPart::text("[tool call: search({\"q\":1})]")]);
}

#[test]
fn last_user_message_finds_most_recent_user_turn() {
    let history = vec![
        ChatEntry::User(vec![UserItem::Text("first".into())]),
        ChatEntry::Assistant(vec![AssistantItem::Text("reply".into())]),
        ChatEntry::User(vec![UserItem::Text("second".into())]),
        ChatEntry::Assistant(vec![AssistantItem::Text("reply".into())]),
    ];
    assert_eq!(last_user_message(&history), Some(2));
    assert_eq!(last_user_message(&vec![ChatEntry::System("s".into())]), None);
    let latest = request_messages(false, &history).expect("latest");
    assert_eq!(latest.len(), 1);
    assert_eq!(latest[0].content, vec![ContentPart::text("second")]);
    let all = request_messages(true, &history).expect("all");
    assert_eq!(all.len(), 4);
    let error = request_messages(false, &vec![ChatEntry::System("s".into())]).expect_err("no user");
    assert_eq!(error, "rig request carried no user message");
}

#[test]
fn document_media_type_is_code() {
    assert_eq!(mime_of_image(ImageMedia::Svg), "image/svg+xml");
    assert_eq!(mime_of_image(ImageMedia::Jpeg), "image/jpeg");
    assert_eq!(mime_of_audio(AudioMedia::Mp3), "audio/mpeg");
    assert_eq!(mime_of_audio(AudioMedia::Pcm16), "audio/l16");
    assert_eq!(image_mime_type("image/webp"), Some(ImageMedia::Webp));
    assert_eq!(image_mime_type("image/bmp"), None);
    assert!(is_binary_mime("image/png"));
    assert!(!is_binary_mime("image/svg+xml"));
}

#[test]
fn noema_messages_render_in_rig_vocabulary() {
    let tool = Message::new(Role::Tool, vec![ContentPart::text("42"), ContentPart::audio(vec![1], "audio/wav")]);
    assert_eq!(text_of(&tool.content), "42\n<audio>");
    match noema_to_rig(&tool) {
        ChatEntry::User(items) => match &items[..] {
            [UserItem::ToolResult { name, texts }] => {
                assert_eq!(name, "tool");
                assert_eq!(texts, &vec!["42\n<audio>".to_string()]);
            },
            other => panic!("unexpected {other:?}"),
        },
        other => panic!("unexpected {other:?}"),
    }
    let svg = Message::new(Role::Assistant, vec![ContentPart::image(b"<svg/>".to_vec(), "image/svg+xml")]);
    match noema_to_rig(&svg) {
        ChatEntry::Assistant(items) => match &items[..] {
            [AssistantItem::Image { data: ContentSource::Text(t), media }] => {
                assert_eq!(t, "<svg/>");
                assert_eq!(*media, Some(ImageMedia::Svg));
            },
            other => panic!("unexpected {other:?}"),
        },
        other => panic!("unexpected {other:?}"),
    }
    match noema_to_rig(&Message::text(Role::System, "be brief")) {
        ChatEntry::System(t) => assert_eq!(t, "be brief"),
        other => panic!("unexpected {other:?}"),
    }
}

#[test]
fn completion_model_adapter_is_configurable() {
    let model = NoemaCompletionModel::new(Arc::new(5u8), "gemma-4");
    assert_eq!(model.provider(), "gemma-4");
    assert!(!model.full_history());
    let model = model.with_provider("local").send_full_history(true);
    assert_eq!(model.provider(), "local");
    assert!(model.full_history());
    assert_eq!(**model.model(), 5);
}

#[test]
fn stub_provider_reports_canned_text_and_usage() {
    let stub = StubProvider::new("stub", "forty-two");
    assert_eq!(stub.response(), "forty-two");
    assert_eq!(stub.usage(), None);
    let stub = stub.with_usage(Usage { input_tokens: 5, output_tokens: 2 });
    assert_eq!(usage_totals(stub.usage()), (5, 2, 7));
    assert_eq!(usage_totals(None), (0, 0, 0));
    assert_eq!(completion_text(String::new()), None);
    assert_eq!(completion_text("pong".into()), Some("pong".to_string()));
    assert_eq!(escalation_request_error("too hard"), "model requested escalation: too hard");
    assert_eq!(token_cap(10), 10);
    assert_eq!(token_cap(u64::MAX), u32::MAX);
}

#[test]
fn text_and_raster_images_survive_a_trip_through_rig() {
    let message = Message::new(
        Role::User,
        vec![ContentPart::text("look"), ContentPart::image(vec![1, 2, 3], "image/png"), ContentPart::text("twice")],
    );
    let back = rig_to_noema(&noema_to_rig(&message)).expect("map back");
    assert_eq!(back, message);

    // Audio loses its MIME type on the way.
    let audio = Message::new(Role::User, vec![ContentPart::audio(vec![4], "audio/wav")]);
    let back = rig_to_noema(&noema_to_rig(&audio)).expect("map back");
    assert_eq!(back.content, vec![ContentPart::audio(vec![4], "application/octet-stream")]);
}

#[test]
fn default_forwards_only_the_latest_user_message() {
    let history = vec![
        ChatEntry::User(vec![UserItem::Text("old prompt".into())]),
        ChatEntry::Assistant(vec![AssistantItem::Text("reply".into())]),
        ChatEntry::User(vec![UserItem::Text("latest prompt".into())]),
    ];
    let messages = request_messages(false, &history).expect("latest user message");
    assert_eq!(messages, vec![Message::text(Role::User, "latest prompt")]);
}

//! Completion-model adapters in the vocabulary of the rig agent framework,
//! and the conversions between rig's chat messages and this crate's
//! messages.
//!
//! rig's messages are modelled here by [`ChatEntry`]: the application layer
//! converts rig's own types to and from it one for one, and every decision
//! of the conversion (which parts pass, which become text, how binary
//! sources are read) is made here.

use vstd::prelude::*;
use crate::decimal::{decimal, push_decimal};
use crate::model::{parts_model, AudioData, ContentPart, ImageData, Message, PartModel, Role, Usage};
use crate::provider::{decode_lossy, utf8_lossy};
use crate::text::{chars_of, push_str, str_eq, string_of};

verus! {

/// A rig completion model backed by a model of this crate.
#[derive(Debug)]
pub struct NoemaCompletionModel<M: ?Sized> {
    model: std::sync::Arc<M>,
    provider: String,
    send_full_history: bool,
}

impl<M: ?Sized> NoemaCompletionModel<M> {
    /// The model behind the adapter.
    pub closed spec fn spec_model(&self) -> std::sync::Arc<M> {
        self.model
    }

    /// The provider name reported in rig responses.
    pub closed spec fn spec_provider(&self) -> Seq<char> {
        self.provider@
    }

    /// Whether each turn forwards the whole chat history.
    pub closed spec fn sends_full_history(&self) -> bool {
        self.send_full_history
    }

    /// Wraps a model whose own id is `model_id`: rig responses name that id
    /// as their provider (until [`Self::with_provider`] overrides it), and
    /// only the latest user message is forwarded each turn (the model keeps
    /// its own context).
    pub fn new(model: std::sync::Arc<M>, model_id: &str) -> (m: Self)
        ensures
            m.spec_model() == model,
            m.spec_provider() == model_id@,
            !m.sends_full_history(),
    {
        NoemaCompletionModel { model, provider: string_of(model_id), send_full_history: false }
    }

    /// Overrides the provider name reported in rig responses.
    pub fn with_provider(self, provider: &str) -> (m: Self)
        ensures
            m.spec_provider() == provider@,
            m.spec_model() == self.spec_model(),
            m.sends_full_history() == self.sends_full_history(),
    {
        NoemaCompletionModel { provider: string_of(provider), ..self }
    }

    /// Sets whether the whole chat history is forwarded each turn (for
    /// stateless backends).
    pub fn send_full_history(self, enabled: bool) -> (m: Self)
        ensures
            m.sends_full_history() == enabled,
            m.spec_model() == self.spec_model(),
            m.spec_provider() == self.spec_provider(),
    {
        NoemaCompletionModel { send_full_history: enabled, ..self }
    }

    /// The model behind the adapter.
    pub fn model(&self) -> (r: &std::sync::Arc<M>)
        ensures
            *r == self.spec_model(),
    {
        &self.model
    }

    /// The provider name reported in rig responses.
    pub fn provider(&self) -> (r: &str)
        ensures
            r@ == self.spec_provider(),
    {
        self.provider.as_str()
    }

    /// Whether each turn forwards the whole chat history.
    pub fn full_history(&self) -> (b: bool)
        ensures
            b == self.sends_full_history(),
    {
        self.send_full_history
    }
}

/// A rig provider that always answers with a canned response, for tests,
/// examples, and development without a real model.
#[derive(Debug, Clone)]
pub struct StubProvider {
    model: String,
    response: String,
    usage: Option<Usage>,
}

impl StubProvider {
    /// The model name.
    pub closed spec fn spec_model(&self) -> Seq<char> {
        self.model@
    }

    /// The canned response.
    pub closed spec fn spec_response(&self) -> Seq<char> {
        self.response@
    }

    /// The usage reported with every completion.
    pub closed spec fn spec_usage(&self) -> Option<Usage> {
        self.usage
    }

    /// A stub for the given model name that always answers `response`,
    /// reporting no usage.
    pub fn new(model: &str, response: &str) -> (s: StubProvider)
        ensures
            s.spec_model() == model@,
            s.spec_response() == response@,
            s.spec_usage() is None,
    {
        StubProvider { model: string_of(model), response: string_of(response), usage: None }
    }

    /// Attaches token usage to every completion.
    pub fn with_usage(self, usage: Usage) -> (s: StubProvider)
        ensures
            s.spec_usage() == Some(usage),
            s.spec_model() == self.spec_model(),
            s.spec_response() == self.spec_response(),
    {
        StubProvider { usage: Some(usage), ..self }
    }

    /// The model name.
    pub fn model(&self) -> (r: &str)
        ensures
            r@ == self.spec_model(),
    {
        self.model.as_str()
    }

    /// The canned response.
    pub fn response(&self) -> (r: &str)
        ensures
            r@ == self.spec_response(),
    {
        self.response.as_str()
    }

    /// The usage reported with every completion.
    pub fn usage(&self) -> (u: Option<Usage>)
        ensures
            u == self.spec_usage(),
    {
        self.usage
    }
}

/// rig's usage record of a turn: input, output, and total tokens (all zero
/// when the model reported none).
pub open spec fn usage_record(usage: Option<Usage>) -> (u64, u64, u64) {
    match usage {
        Some(u) => (u.input_tokens, u.output_tokens, (u.input_tokens + u.output_tokens) as u64),
        None => (0, 0, 0),
    }
}

/// rig's usage record of a turn (its total must fit in a `u64`, as the
/// addition requires).
pub fn usage_totals(usage: Option<Usage>) -> (r: (u64, u64, u64))
    requires
        usage matches Some(u) ==> u.input_tokens + u.output_tokens <= u64::MAX,
    ensures
        r == usage_record(usage),
{
    match usage {
        Some(u) => (u.input_tokens, u.output_tokens, u.total()),
        None => (0, 0, 0),
    }
}

/// The completion's choice: the text, unless it is empty.
pub fn completion_text(text: String) -> (r: Option<String>)
    ensures
        text@.len() > 0 ==> r == Some(text),
        text@.len() == 0 ==> r is None,
{
    if text.as_str().is_empty() {
        None
    } else {
        Some(text)
    }
}

/// The error text of a model that asked to escalate while serving rig.
pub open spec fn escalation_request_text(reason: Seq<char>) -> Seq<char> {
    "model requested escalation: "@ + reason
}

/// The error text of a model that asked to escalate while serving rig.
pub fn escalation_request_error(reason: &str) -> (t: String)
    ensures
        t@ == escalation_request_text(reason@),
{
    let mut t = string_of("model requested escalation: ");
    push_str(&mut t, reason);
    t
}

/// rig asks for a `u64` token cap; models take a `u32` one: larger caps
/// saturate.
pub fn token_cap(requested: u64) -> (cap: u32)
    ensures
        cap == (if requested <= u32::MAX { requested } else { u32::MAX as u64 }),
{
    if requested <= 4294967295u64 {
        requested as u32
    } else {
        4294967295u32
    }
}

/// The media types of images rig knows.
#[derive(Debug, Clone, Copy, PartialEq, Eq, Structural)]
pub enum ImageMedia {
    Jpeg,
    Png,
    Gif,
    Webp,
    Heic,
    Heif,
    Svg,
}

/// The media types of audio rig knows.
#[derive(Debug, Clone, Copy, PartialEq, Eq, Structural)]
pub enum AudioMedia {
    Wav,
    Mp3,
    Aiff,
    Aac,
    Ogg,
    Flac,
    M4a,
    Pcm16,
    Pcm24,
}

/// The MIME type of an image media type.
pub open spec fn image_mime_text(m: ImageMedia) -> Seq<char> {
    "image/"@ + match m {
        ImageMedia::Jpeg => "jpeg"@,
        ImageMedia::Png => "png"@,
        ImageMedia::Gif => "gif"@,
        ImageMedia::Webp => "webp"@,
        ImageMedia::Heic => "heic"@,
        ImageMedia::Heif => "heif"@,
        ImageMedia::Svg => "svg+xml"@,
    }
}

/// The MIME type of an audio media type.
pub open spec fn audio_mime_text(m: AudioMedia) -> Seq<char> {
    "audio/"@ + match m {
        AudioMedia::Wav => "wav"@,
        AudioMedia::Mp3 => "mpeg"@,
        AudioMedia::Aiff => "aiff"@,
        AudioMedia::Aac => "aac"@,
        AudioMedia::Ogg => "ogg"@,
        AudioMedia::Flac => "flac"@,
        AudioMedia::M4a => "mp4"@,
        AudioMedia::Pcm16 => "l16"@,
        AudioMedia::Pcm24 => "l24"@,
    }
}

/// The MIME type of an image media type.
pub fn mime_of_image(m: ImageMedia) -> (s: String)
    ensures
        s@ == image_mime_text(m),
{
    let mut s = string_of("image/");
    push_str(
        &mut s,
        match m {
            ImageMedia::Jpeg => "jpeg",
            ImageMedia::Png => "png",
            ImageMedia::Gif => "gif",
            ImageMedia::Webp => "webp",
            ImageMedia::Heic => "heic",
            ImageMedia::Heif => "heif",
            ImageMedia::Svg => "svg+xml",
        },
    );
    s
}

/// The MIME type of an audio media type.
pub fn mime_of_audio(m: AudioMedia) -> (s: String)
    ensures
        s@ == audio_mime_text(m),
{
    let mut s = string_of("audio/");
    push_str(
        &mut s,
        match m {
            AudioMedia::Wav => "wav",
            AudioMedia::Mp3 => "mpeg",
            AudioMedia::Aiff => "aiff",
            AudioMedia::Aac => "aac",
            AudioMedia::Ogg => "ogg",
            AudioMedia::Flac => "flac",
            AudioMedia::M4a => "mp4",
            AudioMedia::Pcm16 => "l16",
            AudioMedia::Pcm24 => "l24",
        },
    );
    s
}

/// The image media type of a MIME type, when rig has one.
pub open spec fn image_media_of(mime: Seq<char>) -> Option<ImageMedia> {
    if mime == "image/jpeg"@ {
        Some(ImageMedia::Jpeg)
    } else if mime == "image/png"@ {
        Some(ImageMedia::Png)
    } else if mime == "image/gif"@ {
        Some(ImageMedia::Gif)
    } else if mime == "image/webp"@ {
        Some(ImageMedia::Webp)
    } else if mime == "image/heic"@ {
        Some(ImageMedia::Heic)
    } else if mime == "image/heif"@ {
        Some(ImageMedia::Heif)
    } else if mime == "image/svg+xml"@ {
        Some(ImageMedia::Svg)
    } else {
        None
    }
}

/// The image media type of a MIME type, when rig has one.
pub fn image_mime_type(mime: &str) -> (r: Option<ImageMedia>)
    ensures
        r == image_media_of(mime@),
{
    if str_eq(mime, "image/jpeg") {
        Some(ImageMedia::Jpeg)
    } else if str_eq(mime, "image/png") {
        Some(ImageMedia::Png)
    } else if str_eq(mime, "image/gif") {
        Some(ImageMedia::Gif)
    } else if str_eq(mime, "image/webp") {
        Some(ImageMedia::Webp)
    } else if str_eq(mime, "image/heic") {
        Some(ImageMedia::Heic)
    } else if str_eq(mime, "image/heif") {
        Some(ImageMedia::Heif)
    } else if str_eq(mime, "image/svg+xml") {
        Some(ImageMedia::Svg)
    } else {
        None
    }
}

/// Whether images of a MIME type travel as raw bytes: the binary raster
/// formats.
pub open spec fn binary_mime(mime: Seq<char>) -> bool {
    mime == "image/png"@ || mime == "image/jpeg"@ || mime == "image/gif"@ || mime == "image/webp"@ || mime
        == "image/heic"@ || mime == "image/heif"@
}

/// Whether images of a MIME type travel as raw bytes.
pub fn is_binary_mime(mime: &str) -> (b: bool)
    ensures
        b == binary_mime(mime@),
{
    str_eq(mime, "image/png") || str_eq(mime, "image/jpeg") || str_eq(mime, "image/gif") || str_eq(
        mime,
        "image/webp",
    ) || str_eq(mime, "image/heic") || str_eq(mime, "image/heif")
}

/// Where the bytes of a rig content block come from.
#[derive(Debug)]
pub enum ContentSource {
    /// A URL or URI.
    Url(String),
    /// Base64-encoded bytes.
    Base64(String),
    /// Raw bytes.
    Raw(Vec<u8>),
    /// A string.
    Text(String),
    /// A provider's file id.
    FileId(String),
    /// Nothing.
    Unknown,
}

/// One block of a rig user message.
#[derive(Debug)]
pub enum UserItem {
    /// Text.
    Text(String),
    /// The result of a tool call: the tool's name and its text blocks.
    ToolResult {
        /// The tool's name.
        name: String,
        /// The result's text blocks, in order.
        texts: Vec<String>,
    },
    /// An image.
    Image {
        /// Its bytes.
        data: ContentSource,
        /// Its media type, when given.
        media: Option<ImageMedia>,
    },
    /// An audio clip.
    Audio {
        /// Its bytes.
        data: ContentSource,
        /// Its media type, when given.
        media: Option<AudioMedia>,
    },
    /// A video.
    Video {
        /// Its bytes.
        data: ContentSource,
    },
    /// A document.
    Document {
        /// Its bytes.
        data: ContentSource,
    },
}

/// One block of a rig assistant message.
#[derive(Debug)]
pub enum AssistantItem {
    /// Text.
    Text(String),
    /// A tool call: the function's name and its arguments as JSON text.
    ToolCall {
        /// The function's name.
        name: String,
        /// The arguments, as JSON text.
        arguments: String,
    },
    /// Reasoning, as its display text.
    Reasoning(String),
    /// An image.
    Image {
        /// Its bytes.
        data: ContentSource,
        /// Its media type, when given.
        media: Option<ImageMedia>,
    },
}

/// A rig chat message.
#[derive(Debug)]
pub enum ChatEntry {
    /// A system message.
    System(String),
    /// A user message.
    User(Vec<UserItem>),
    /// An assistant message.
    Assistant(Vec<AssistantItem>),
}

/// The bytes of Base64 text in the standard alphabet (`None` when it does
/// not decode).
pub uninterp spec fn base64_decoded(text: Seq<char>) -> Option<Seq<u8>>;

/// `base64::engine::general_purpose::STANDARD.decode`: the decoded bytes,
/// named [`base64_decoded`] of the text; a failure's text is the decoder's
/// own message, which is not stated here.
#[verifier::external_body]
fn base64_decode(encoded: &str) -> (r: Result<Vec<u8>, String>)
    ensures
        r is Ok <==> base64_decoded(encoded@) is Some,
        r matches Ok(b) ==> Some(b@) == base64_decoded(encoded@),
{
    base64::Engine::decode(&base64::engine::general_purpose::STANDARD, encoded).map_err(|e| e.to_string())
}

/// The bytes of a content source: raw bytes as they are, Base64 decoded,
/// and the text of URLs, file ids, and strings in UTF-8 (`None` when
/// Base64 does not decode).
pub open spec fn source_bytes_of(src: ContentSource) -> Option<Seq<u8>> {
    match src {
        ContentSource::Raw(b) => Some(b@),
        ContentSource::Base64(e) => base64_decoded(e@),
        ContentSource::Url(s) => Some(vstd::utf8::encode_utf8(s@)),
        ContentSource::FileId(s) => Some(vstd::utf8::encode_utf8(s@)),
        ContentSource::Text(s) => Some(vstd::utf8::encode_utf8(s@)),
        ContentSource::Unknown => Some(Seq::empty()),
    }
}

/// The prefix of the error for content that does not decode.
pub open spec fn invalid_base64_prefix() -> Seq<char> {
    "invalid base64 content: "@
}

fn copy_slice(b: &[u8]) -> (v: Vec<u8>)
    ensures
        v@ == b@,
{
    let mut v: Vec<u8> = Vec::new();
    let mut i: usize = 0;
    while i < b.len()
        invariant
            i <= b@.len(),
            v@ == b@.subrange(0, i as int),
        decreases b.len() - i,
    {
        v.push(b[i]);
        i += 1;
        assert(v@ =~= b@.subrange(0, i as int));
    }
    assert(v@ =~= b@);
    v
}

/// The bytes of a content source.
pub fn source_bytes(src: &ContentSource) -> (r: Result<Vec<u8>, String>)
    ensures
        r is Ok <==> source_bytes_of(*src) is Some,
        r matches Ok(b) ==> Some(b@) == source_bytes_of(*src),
        r matches Err(t) ==> t@.len() >= invalid_base64_prefix().len() && t@.subrange(
            0,
            invalid_base64_prefix().len() as int,
        ) == invalid_base64_prefix(),
{
    match src {
        ContentSource::Raw(b) => Ok(copy_slice(b.as_slice())),
        ContentSource::Base64(e) => match base64_decode(e.as_str()) {
            Ok(b) => Ok(b),
            Err(detail) => {
                let mut t = string_of("invalid base64 content: ");
                let ghost head = t@;
                push_str(&mut t, detail.as_str());
                assert(t@.subrange(0, head.len() as int) =~= head);
                Err(t)
            },
        },
        ContentSource::Url(s) => Ok(copy_slice(s.as_str().as_bytes())),
        ContentSource::FileId(s) => Ok(copy_slice(s.as_str().as_bytes())),
        ContentSource::Text(s) => Ok(copy_slice(s.as_str().as_bytes())),
        ContentSource::Unknown => Ok(Vec::new()),
    }
}

/// A text rendering of a content source that cannot travel as bytes.
pub open spec fn source_text_of(src: ContentSource) -> Seq<char> {
    match src {
        ContentSource::Raw(b) => decimal(b@.len()) + " bytes"@,
        ContentSource::Base64(e) => decimal(vstd::utf8::encode_utf8(e@).len()) + " base64 bytes"@,
        ContentSource::Url(s) => s@,
        ContentSource::FileId(s) => s@,
        ContentSource::Text(s) => s@,
        ContentSource::Unknown => "<unknown>"@,
    }
}

/// A text rendering of a content source.
pub fn source_text(src: &ContentSource) -> (t: String)
    ensures
        t@ == source_text_of(*src),
{
    match src {
        ContentSource::Raw(b) => {
            let mut t = String::new();
            push_decimal(&mut t, b.len() as u64);
            push_str(&mut t, " bytes");
            assert(t@ =~= decimal(b@.len()) + " bytes"@);
            t
        },
        ContentSource::Base64(e) => {
            let mut t = String::new();
            push_decimal(&mut t, e.as_str().as_bytes().len() as u64);
            push_str(&mut t, " base64 bytes");
            assert(t@ =~= decimal(vstd::utf8::encode_utf8(e@).len()) + " base64 bytes"@);
            t
        },
        ContentSource::Url(s) => s.clone(),
        ContentSource::FileId(s) => s.clone(),
        ContentSource::Text(s) => s.clone(),
        ContentSource::Unknown => string_of("<unknown>"),
    }
}

/// Texts joined with newlines between them.
pub open spec fn joined_lines(texts: Seq<Seq<char>>) -> Seq<char>
    decreases texts.len(),
{
    if texts.len() == 0 {
        Seq::empty()
    } else if texts.len() == 1 {
        texts[0]
    } else {
        joined_lines(texts.drop_last()) + "\n"@ + texts.last()
    }
}

fn join_lines(texts: &Vec<String>) -> (t: String)
    ensures
        t@ == joined_lines(texts@.map_values(|s: String| s@)),
{
    let ghost tv = texts@.map_values(|s: String| s@);
    let mut t = String::new();
    let mut i: usize = 0;
    while i < texts.len()
        invariant
            i <= texts@.len(),
            tv == texts@.map_values(|s: String| s@),
            t@ == joined_lines(tv.subrange(0, i as int)),
        decreases texts.len() - i,
    {
        proof {
            assert(tv.subrange(0, i + 1).drop_last() =~= tv.subrange(0, i as int));
        }
        if i > 0 {
            push_str(&mut t, "\n");
        }
        push_str(&mut t, texts[i].as_str());
        i += 1;
        proof {
            if i == 1 {
                assert(t@ =~= joined_lines(tv.subrange(0, 1)));
            }
        }
    }
    assert(tv.subrange(0, tv.len() as int) =~= tv);
    t
}

/// The MIME type rig's media type gives an image, or the generic binary
/// type without one.
pub open spec fn image_mime_or_default(media: Option<ImageMedia>) -> Seq<char> {
    match media {
        Some(m) => image_mime_text(m),
        None => "application/octet-stream"@,
    }
}

/// The MIME type rig's media type gives an audio clip, or the generic
/// binary type without one.
pub open spec fn audio_mime_or_default(media: Option<AudioMedia>) -> Seq<char> {
    match media {
        Some(m) => audio_mime_text(m),
        None => "application/octet-stream"@,
    }
}

/// The part a user block becomes (`None` when its bytes do not decode):
/// text as it is; a tool result as a headed text of its text blocks;
/// images and audio with their bytes and MIME type; a video as a note;
/// a document as the text of its source.
pub open spec fn user_part_of(item: UserItem) -> Option<PartModel> {
    match item {
        UserItem::Text(t) => Some(PartModel::Text(t@)),
        UserItem::ToolResult { name, texts } => Some(
            PartModel::Text(
                "[tool result: "@ + name@ + "]\n"@ + joined_lines(texts@.map_values(|s: String| s@)),
            ),
        ),
        UserItem::Image { data, media } => match source_bytes_of(data) {
            Some(b) => Some(PartModel::Image(b, image_mime_or_default(media))),
            None => None,
        },
        UserItem::Audio { data, media } => match source_bytes_of(data) {
            Some(b) => Some(PartModel::Audio(b, audio_mime_or_default(media))),
            None => None,
        },
        UserItem::Video { data } => Some(PartModel::Text("[video: "@ + source_text_of(data) + "]"@)),
        UserItem::Document { data } => Some(PartModel::Text(source_text_of(data))),
    }
}

/// The part an assistant block becomes (`None` when its bytes do not
/// decode): text and reasoning as text, a tool call as a note, an image
/// with its bytes and MIME type.
pub open spec fn assistant_part_of(item: AssistantItem) -> Option<PartModel> {
    match item {
        AssistantItem::Text(t) => Some(PartModel::Text(t@)),
        AssistantItem::ToolCall { name, arguments } => Some(
            PartModel::Text("[tool call: "@ + name@ + "("@ + arguments@ + ")]"@),
        ),
        AssistantItem::Reasoning(t) => Some(PartModel::Text(t@)),
        AssistantItem::Image { data, media } => match source_bytes_of(data) {
            Some(b) => Some(PartModel::Image(b, image_mime_or_default(media))),
            None => None,
        },
    }
}

fn image_part(data: &ContentSource, media: Option<ImageMedia>) -> (r: Result<ContentPart, String>)
    ensures
        r is Ok <==> source_bytes_of(*data) is Some,
        r matches Ok(p) ==> Some(p@) == (match source_bytes_of(*data) {
            Some(b) => Some(PartModel::Image(b, image_mime_or_default(media))),
            None => None,
        }),
        r matches Err(t) ==> t@.len() >= invalid_base64_prefix().len() && t@.subrange(
            0,
            invalid_base64_prefix().len() as int,
        ) == invalid_base64_prefix(),
{
    let bytes = source_bytes(data)?;
    let mime = match media {
        Some(m) => mime_of_image(m),
        None => string_of("application/octet-stream"),
    };
    Ok(ContentPart::Image(ImageData { bytes, mime }))
}

/// The part a user block becomes.
pub fn map_user_content(item: &UserItem) -> (r: Result<ContentPart, String>)
    ensures
        r is Ok <==> user_part_of(*item) is Some,
        r matches Ok(p) ==> Some(p@) == user_part_of(*item),
        r matches Err(t) ==> t@.len() >= invalid_base64_prefix().len() && t@.subrange(
            0,
            invalid_base64_prefix().len() as int,
        ) == invalid_base64_prefix(),
{
    match item {
        UserItem::Text(t) => Ok(ContentPart::Text(t.clone())),
        UserItem::ToolResult { name, texts } => {
            let mut t = string_of("[tool result: ");
            push_str(&mut t, name.as_str());
            push_str(&mut t, "]\n");
            let body = join_lines(texts);
            push_str(&mut t, body.as_str());
            Ok(ContentPart::Text(t))
        },
        UserItem::Image { data, media } => image_part(data, *media),
        UserItem::Audio { data, media } => {
            let bytes = source_bytes(data)?;
            let mime = match media {
                Some(m) => mime_of_audio(*m),
                None => string_of("application/octet-stream"),
            };
            Ok(ContentPart::Audio(AudioData { bytes, mime }))
        },
        UserItem::Video { data } => {
            let mut t = string_of("[video: ");
            let body = source_text(data);
            push_str(&mut t, body.as_str());
            push_str(&mut t, "]");
            Ok(ContentPart::Text(t))
        },
        UserItem::Document { data } => Ok(ContentPart::Text(source_text(data))),
    }
}

/// The part an assistant block becomes.
pub fn map_assistant_content(item: &AssistantItem) -> (r: Result<ContentPart, String>)
    ensures
        r is Ok <==> assistant_part_of(*item) is Some,
        r matches Ok(p) ==> Some(p@) == assistant_part_of(*item),
        r matches Err(t) ==> t@.len() >= invalid_base64_prefix().len() && t@.subrange(
            0,
            invalid_base64_prefix().len() as int,
        ) == invalid_base64_prefix(),
{
    match item {
        AssistantItem::Text(t) => Ok(ContentPart::Text(t.clone())),
        AssistantItem::ToolCall { name, arguments } => {
            let mut t = string_of("[tool call: ");
            push_str(&mut t, name.as_str());
            push_str(&mut t, "(");
            push_str(&mut t, arguments.as_str());
            push_str(&mut t, ")]");
            Ok(ContentPart::Text(t))
        },
        AssistantItem::Reasoning(t) => Ok(ContentPart::Text(t.clone())),
        AssistantItem::Image { data, media } => image_part(data, *media),
    }
}

/// The parts a list of user blocks becomes, when every block maps.
pub open spec fn user_parts_of(items: Seq<UserItem>) -> Option<Seq<PartModel>>
    decreases items.len(),
{
    if items.len() == 0 {
        Some(Seq::empty())
    } else {
        match (user_parts_of(items.drop_last()), user_part_of(items.last())) {
            (Some(ps), Some(p)) => Some(ps.push(p)),
            _ => None,
        }
    }
}

/// The parts a list of assistant blocks becomes, when every block maps.
pub open spec fn assistant_parts_of(items: Seq<AssistantItem>) -> Option<Seq<PartModel>>
    decreases items.len(),
{
    if items.len() == 0 {
        Some(Seq::empty())
    } else {
        match (assistant_parts_of(items.drop_last()), assistant_part_of(items.last())) {
            (Some(ps), Some(p)) => Some(ps.push(p)),
            _ => None,
        }
    }
}

/// The role and parts a rig message becomes (`None` when a block's bytes
/// do not decode): a system message as one text part, user and assistant
/// messages block by block.
pub open spec fn entry_message_of(entry: ChatEntry) -> Option<(Role, Seq<PartModel>)> {
    match entry {
        ChatEntry::System(t) => Some((Role::System, seq![PartModel::Text(t@)])),
        ChatEntry::User(items) => match user_parts_of(items@) {
            Some(ps) => Some((Role::User, ps)),
            None => None,
        },
        ChatEntry::Assistant(items) => match assistant_parts_of(items@) {
            Some(ps) => Some((Role::Assistant, ps)),
            None => None,
        },
    }
}

/// Whether a part comes back unchanged from a trip through rig: text does,
/// and so do images in the binary raster formats (other images travel as
/// text, and audio loses its MIME type).
pub open spec fn survives_rig(p: ContentPart) -> bool {
    p is Text || (p matches ContentPart::Image(img) && binary_mime(img.mime@))
}

proof fn lemma_part_round_trip(item: UserItem, part: ContentPart)
    requires
        user_item_for(item, part),
        survives_rig(part),
    ensures
        user_part_of(item) == Some(part@),
{
    if let ContentPart::Image(img) = part {
        let mime = img.mime@;
        reveal_strlit("image/");
        reveal_strlit("png");
        reveal_strlit("jpeg");
        reveal_strlit("gif");
        reveal_strlit("webp");
        reveal_strlit("heic");
        reveal_strlit("heif");
        reveal_strlit("image/png");
        reveal_strlit("image/jpeg");
        reveal_strlit("image/gif");
        reveal_strlit("image/webp");
        reveal_strlit("image/heic");
        reveal_strlit("image/heif");
        assert("image/"@ + "png"@ =~= "image/png"@);
        assert("image/"@ + "jpeg"@ =~= "image/jpeg"@);
        assert("image/"@ + "gif"@ =~= "image/gif"@);
        assert("image/"@ + "webp"@ =~= "image/webp"@);
        assert("image/"@ + "heic"@ =~= "image/heic"@);
        assert("image/"@ + "heif"@ =~= "image/heif"@);
        assert(image_mime_or_default(image_media_of(mime)) == mime);
    }
}

proof fn lemma_parts_round_trip(items: Seq<UserItem>, parts: Seq<ContentPart>)
    requires
        items.len() == parts.len(),
        forall|i: int| 0 <= i < parts.len() ==> user_item_for(#[trigger] items[i], parts[i]),
        forall|i: int| 0 <= i < parts.len() ==> survives_rig(#[trigger] parts[i]),
    ensures
        user_parts_of(items) == Some(parts_model(parts)),
    decreases items.len(),
{
    if items.len() > 0 {
        let n = items.len() - 1;
        lemma_parts_round_trip(items.drop_last(), parts.drop_last());
        assert(user_item_for(items[n as int], parts[n as int]));
        assert(survives_rig(parts[n as int]));
        lemma_part_round_trip(items.last(), parts.last());
        assert(parts_model(parts) =~= parts_model(parts.drop_last()).push(parts.last()@));
    } else {
        assert(parts_model(parts) =~= Seq::<PartModel>::empty());
    }
}

/// A user message whose parts are text, or images in the binary raster
/// formats, comes back unchanged from a trip through rig: the rig message
/// that [`noema_to_rig`] makes of it (block by block, as its `ensures`
/// states) converts back to the same role and parts.
pub proof fn law_user_message_round_trip(entry: ChatEntry, parts: Seq<ContentPart>)
    requires
        entry matches ChatEntry::User(items) && items@.len() == parts.len() && forall|i: int|
            0 <= i < parts.len() ==> user_item_for(#[trigger] items@[i], parts[i]),
        forall|i: int| 0 <= i < parts.len() ==> survives_rig(#[trigger] parts[i]),
    ensures
        entry_message_of(entry) == Some((Role::User, parts_model(parts))),
{
    if let ChatEntry::User(items) = entry {
        lemma_parts_round_trip(items@, parts);
    }
}

proof fn lemma_assistant_text_parts_round_trip(items: Seq<AssistantItem>, parts: Seq<ContentPart>)
    requires
        items.len() == parts.len(),
        forall|i: int| 0 <= i < parts.len() ==> (#[trigger] parts[i]) is Text,
        forall|i: int|
            0 <= i < parts.len() ==> (#[trigger] items[i] matches AssistantItem::Text(u) && u@ == parts[i]->Text_0@),
    ensures
        assistant_parts_of(items) == Some(parts_model(parts)),
    decreases items.len(),
{
    if items.len() > 0 {
        let n = items.len() - 1;
        assert(items.drop_last().len() == parts.drop_last().len());
        assert forall|i: int| 0 <= i < parts.drop_last().len() implies (#[trigger] parts.drop_last()[i]) is Text by {
            assert(parts.drop_last()[i] == parts[i]);
        }
        assert forall|i: int| 0 <= i < parts.drop_last().len() implies (#[trigger] items.drop_last()[i] matches AssistantItem::Text(u)
            && u@ == parts.drop_last()[i]->Text_0@) by {
            assert(items.drop_last()[i] == items[i]);
            assert(parts.drop_last()[i] == parts[i]);
        }
        lemma_assistant_text_parts_round_trip(items.drop_last(), parts.drop_last());
        assert(parts[n as int] is Text);
        assert(items[n as int] matches AssistantItem::Text(u) && u@ == parts[n as int]->Text_0@);
        assert(parts_model(parts) =~= parts_model(parts.drop_last()).push(parts.last()@));
    } else {
        assert(parts_model(parts) =~= Seq::<PartModel>::empty());
    }
}

/// Assistant text stays assistant text: for an assistant message made only
/// of text parts, the rig message that [`noema_to_rig`] makes of it (block
/// by block, as its `ensures` states) is a list of text blocks with the
/// same texts, and it converts back to the same role and parts.
pub proof fn law_assistant_text_round_trip(entry: ChatEntry, parts: Seq<ContentPart>)
    requires
        entry matches ChatEntry::Assistant(items) && items@.len() == parts.len() && forall|i: int|
            0 <= i < parts.len() ==> assistant_item_for(#[trigger] items@[i], parts[i]),
        forall|i: int| 0 <= i < parts.len() ==> (#[trigger] parts[i]) is Text,
    ensures
        entry matches ChatEntry::Assistant(items) && forall|i: int|
            0 <= i < parts.len() ==> (#[trigger] items@[i] matches AssistantItem::Text(u) && u@ == parts[i]->Text_0@),
        entry_message_of(entry) == Some((Role::Assistant, parts_model(parts))),
{
    if let ChatEntry::Assistant(items) = entry {
        assert forall|i: int| 0 <= i < parts.len() implies (#[trigger] items@[i] matches AssistantItem::Text(u) && u@
            == parts[i]->Text_0@) by {
            assert(assistant_item_for(items@[i], parts[i]));
            assert(parts[i] is Text);
        }
        lemma_assistant_text_parts_round_trip(items@, parts);
    }
}

/// Once a prefix fails to map, every longer prefix fails too.
proof fn lemma_user_parts_fail(items: Seq<UserItem>, i: int)
    requires
        0 <= i <= items.len(),
        user_parts_of(items.subrange(0, i)) is None,
    ensures
        user_parts_of(items) is None,
    decreases items.len() - i,
{
    if i < items.len() {
        assert(items.subrange(0, i + 1).drop_last() =~= items.subrange(0, i));
        lemma_user_parts_fail(items, i + 1);
    } else {
        assert(items.subrange(0, i) =~= items);
    }
}

/// Once a prefix fails to map, every longer prefix fails too.
proof fn lemma_assistant_parts_fail(items: Seq<AssistantItem>, i: int)
    requires
        0 <= i <= items.len(),
        assistant_parts_of(items.subrange(0, i)) is None,
    ensures
        assistant_parts_of(items) is None,
    decreases items.len() - i,
{
    if i < items.len() {
        assert(items.subrange(0, i + 1).drop_last() =~= items.subrange(0, i));
        lemma_assistant_parts_fail(items, i + 1);
    } else {
        assert(items.subrange(0, i) =~= items);
    }
}

/// Converts a rig message into this crate's message.
pub fn rig_to_noema(entry: &ChatEntry) -> (r: Result<Message, String>)
    ensures
        r is Ok <==> entry_message_of(*entry) is Some,
        r matches Ok(m) ==> entry_message_of(*entry) == Some((m.role, parts_model(m.content@))),
        r matches Err(t) ==> t@.len() >= invalid_base64_prefix().len() && t@.subrange(
            0,
            invalid_base64_prefix().len() as int,
        ) == invalid_base64_prefix(),
{
    match entry {
        ChatEntry::System(t) => {
            let m = Message::text(Role::System, t.as_str());
            assert(parts_model(m.content@) =~= seq![PartModel::Text(t@)]);
            Ok(m)
        },
        ChatEntry::User(items) => {
            let mut parts: Vec<ContentPart> = Vec::new();
            let mut i: usize = 0;
            while i < items.len()
                invariant
                    i <= items@.len(),
                    user_parts_of(items@.subrange(0, i as int)) == Some(parts_model(parts@)),
                    *entry == ChatEntry::User(*items),
                decreases items.len() - i,
            {
                proof {
                    assert(items@.subrange(0, i + 1).drop_last() =~= items@.subrange(0, i as int));
                }
                match map_user_content(&items[i]) {
                    Ok(p) => {
                        parts.push(p);
                        assert(parts_model(parts@) =~= parts_model(parts@.drop_last()).push(p@));
                    },
                    Err(t) => {
                        proof {
                            assert(items@.subrange(0, i + 1).last() == items@[i as int]);
                            assert(user_parts_of(items@.subrange(0, i + 1)) is None);
                            lemma_user_parts_fail(items@, i + 1);
                            assert(*entry == ChatEntry::User(*items));
                            assert(entry_message_of(*entry) is None);
                        }
                        return Err(t);
                    },
                }
                i += 1;
            }
            assert(items@.subrange(0, items@.len() as int) =~= items@);
            Ok(Message::new(Role::User, parts))
        },
        ChatEntry::Assistant(items) => {
            let mut parts: Vec<ContentPart> = Vec::new();
            let mut i: usize = 0;
            while i < items.len()
                invariant
                    i <= items@.len(),
                    assistant_parts_of(items@.subrange(0, i as int)) == Some(parts_model(parts@)),
                    *entry == ChatEntry::Assistant(*items),
                decreases items.len() - i,
            {
                proof {
                    assert(items@.subrange(0, i + 1).drop_last() =~= items@.subrange(0, i as int));
                }
                match map_assistant_content(&items[i]) {
                    Ok(p) => {
                        parts.push(p);
                        assert(parts_model(parts@) =~= parts_model(parts@.drop_last()).push(p@));
                    },
                    Err(t) => {
                        proof {
                            assert(items@.subrange(0, i + 1).last() == items@[i as int]);
                            assert(assistant_parts_of(items@.subrange(0, i + 1)) is None);
                            lemma_assistant_parts_fail(items@, i + 1);
                            assert(*entry == ChatEntry::Assistant(*items));
                            assert(entry_message_of(*entry) is None);
                        }
                        return Err(t);
                    },
                }
                i += 1;
            }
            assert(items@.subrange(0, items@.len() as int) =~= items@);
            Ok(Message::new(Role::Assistant, parts))
        },
    }
}

/// How a part reads in a flattened message: text as it is, images and
/// audio as placeholders.
pub open spec fn part_placeholder_text(p: ContentPart) -> Seq<char> {
    match p {
        ContentPart::Text(t) => t@,
        ContentPart::Image(_) => "<image>"@,
        ContentPart::Audio(_) => "<audio>"@,
    }
}

/// The text of a message: its parts' texts joined with newlines.
pub open spec fn text_of_parts(parts: Seq<ContentPart>) -> Seq<char> {
    joined_lines(parts.map_values(|p: ContentPart| part_placeholder_text(p)))
}

/// The text of a message: its parts' texts joined with newlines, images
/// and audio as placeholders.
pub fn text_of(parts: &[ContentPart]) -> (t: String)
    ensures
        t@ == text_of_parts(parts@),
{
    let mut texts: Vec<String> = Vec::new();
    let mut i: usize = 0;
    while i < parts.len()
        invariant
            i <= parts@.len(),
            texts@.len() == i,
            forall|j: int| 0 <= j < i ==> (#[trigger] texts@[j])@ == part_placeholder_text(parts@[j]),
        decreases parts.len() - i,
    {
        let t = match &parts[i] {
            ContentPart::Text(t) => t.clone(),
            ContentPart::Image(_) => string_of("<image>"),
            ContentPart::Audio(_) => string_of("<audio>"),
        };
        texts.push(t);
        i += 1;
    }
    assert(texts@.map_values(|s: String| s@) =~= parts@.map_values(|p: ContentPart| part_placeholder_text(p)));
    join_lines(&texts)
}

/// How an image travels to rig: the binary raster formats as raw bytes,
/// anything else as text; with rig's media type for its MIME type.
pub open spec fn rig_image_for(data: ContentSource, media: Option<ImageMedia>, img: ImageData) -> bool {
    &&& if binary_mime(img.mime@) {
        data matches ContentSource::Raw(b) && b@ == img.bytes@
    } else {
        data matches ContentSource::Text(s) && s@ == utf8_lossy(img.bytes@)
    }
    &&& media == image_media_of(img.mime@)
}

/// The rig user block a part becomes.
pub open spec fn user_item_for(item: UserItem, part: ContentPart) -> bool {
    match part {
        ContentPart::Text(t) => item matches UserItem::Text(u) && u@ == t@,
        ContentPart::Image(img) => item matches UserItem::Image { data, media } && rig_image_for(data, media, img),
        ContentPart::Audio(a) => item matches UserItem::Audio { data, media } && media is None && (data matches ContentSource::Raw(
            b,
        ) && b@ == a.bytes@),
    }
}

/// The rig assistant block a part becomes (rig has no assistant audio: it
/// becomes a placeholder text).
pub open spec fn assistant_item_for(item: AssistantItem, part: ContentPart) -> bool {
    match part {
        ContentPart::Text(t) => item matches AssistantItem::Text(u) && u@ == t@,
        ContentPart::Image(img) => item matches AssistantItem::Image { data, media } && rig_image_for(
            data,
            media,
            img,
        ),
        ContentPart::Audio(_) => item matches AssistantItem::Text(u) && u@ == "<audio>"@,
    }
}

fn rig_image(img: &ImageData) -> (r: (ContentSource, Option<ImageMedia>))
    ensures
        rig_image_for(r.0, r.1, *img),
{
    let data = if is_binary_mime(img.mime.as_str()) {
        ContentSource::Raw(copy_slice(img.bytes.as_slice()))
    } else {
        ContentSource::Text(decode_lossy(img.bytes.as_slice()))
    };
    (data, image_mime_type(img.mime.as_str()))
}

/// Converts a message of this crate into rig's vocabulary: a system
/// message as its text; user and assistant messages part by part; a tool
/// message as a user message carrying one tool result (named `tool`) with
/// the message's text.
pub fn noema_to_rig(message: &Message) -> (e: ChatEntry)
    ensures
        message.role == Role::System ==> (e matches ChatEntry::System(t) && t@ == text_of_parts(message.content@)),
        message.role == Role::User ==> (e matches ChatEntry::User(items) && items@.len() == message.content@.len()
            && forall|i: int| 0 <= i < items@.len() ==> user_item_for(#[trigger] items@[i], message.content@[i])),
        message.role == Role::Assistant ==> (e matches ChatEntry::Assistant(items) && items@.len()
            == message.content@.len() && forall|i: int|
            0 <= i < items@.len() ==> assistant_item_for(#[trigger] items@[i], message.content@[i])),
        message.role == Role::Assistant ==> (e matches ChatEntry::Assistant(items) && forall|i: int|
            0 <= i < items@.len() && (#[trigger] message.content@[i]) is Text ==> (items@[i] matches AssistantItem::Text(
                u,
            ) && u@ == message.content@[i]->Text_0@)),
        message.role == Role::Tool ==> (e matches ChatEntry::User(items) && items@.len() == 1 && (items@[0] matches UserItem::ToolResult {
            name,
            texts,
        } && name@ == "tool"@ && texts@.len() == 1 && texts@[0]@ == text_of_parts(message.content@))),
{
    let parts = &message.content;
    match message.role {
        Role::System => ChatEntry::System(text_of(parts.as_slice())),
        Role::Assistant => {
            let mut items: Vec<AssistantItem> = Vec::new();
            let mut i: usize = 0;
            while i < parts.len()
                invariant
                    i <= parts@.len(),
                    items@.len() == i,
                    forall|j: int| 0 <= j < i ==> assistant_item_for(#[trigger] items@[j], parts@[j]),
                decreases parts.len() - i,
            {
                let item = match &parts[i] {
                    ContentPart::Text(t) => AssistantItem::Text(t.clone()),
                    ContentPart::Image(img) => {
                        let (data, media) = rig_image(img);
                        AssistantItem::Image { data, media }
                    },
                    ContentPart::Audio(_) => AssistantItem::Text(string_of("<audio>")),
                };
                items.push(item);
                i += 1;
            }
            ChatEntry::Assistant(items)
        },
        Role::User => {
            let mut items: Vec<UserItem> = Vec::new();
            let mut i: usize = 0;
            while i < parts.len()
                invariant
                    i <= parts@.len(),
                    items@.len() == i,
                    forall|j: int| 0 <= j < i ==> user_item_for(#[trigger] items@[j], parts@[j]),
                decreases parts.len() - i,
            {
                let item = match &parts[i] {
                    ContentPart::Text(t) => UserItem::Text(t.clone()),
                    ContentPart::Image(img) => {
                        let (data, media) = rig_image(img);
                        UserItem::Image { data, media }
                    },
                    ContentPart::Audio(a) => UserItem::Audio {
                        data: ContentSource::Raw(copy_slice(a.bytes.as_slice())),
                        media: None,
                    },
                };
                items.push(item);
                i += 1;
            }
            ChatEntry::User(items)
        },
        Role::Tool => {
            let mut texts: Vec<String> = Vec::new();
            texts.push(text_of(parts.as_slice()));
            let mut items: Vec<UserItem> = Vec::new();
            items.push(UserItem::ToolResult { name: string_of("tool"), texts });
            ChatEntry::User(items)
        },
    }
}

/// The position of the last user message of a chat history, if any.
pub fn last_user_message(entries: &Vec<ChatEntry>) -> (r: Option<usize>)
    ensures
        r matches Some(i) ==> i < entries@.len() && entries@[i as int] is User && forall|j: int|
            i < j < entries@.len() ==> !(#[trigger] entries@[j] is User),
        r is None ==> forall|j: int| 0 <= j < entries@.len() ==> !(#[trigger] entries@[j] is User),
{
    let mut k: usize = entries.len();
    while k > 0
        invariant
            k <= entries@.len(),
            forall|j: int| k <= j < entries@.len() ==> !(#[trigger] entries@[j] is User),
        decreases k,
    {
        match &entries[k - 1] {
            ChatEntry::User(_) => {
                return Some(k - 1);
            },
            _ => {},
        }
        k -= 1;
    }
    None
}

/// The error when a rig request carries no user message.
pub open spec fn no_user_message_text() -> Seq<char> {
    "rig request carried no user message"@
}

/// The messages a rig request sends to a model: the whole history when
/// the adapter forwards it, otherwise only the latest user message (a
/// request without one is an error). A block that does not decode fails
/// the request.
pub fn request_messages(full_history: bool, history: &Vec<ChatEntry>) -> (r: Result<Vec<Message>, String>)
    ensures
        full_history ==> (r is Ok <==> forall|i: int| 0 <= i < history@.len() ==> (#[trigger] entry_message_of(history@[i])) is Some),
        full_history && r is Ok ==> (r matches Ok(ms) && ms@.len() == history@.len() && forall|i: int|
            0 <= i < ms@.len() ==> entry_message_of(#[trigger] history@[i]) == Some((ms@[i].role, parts_model(ms@[i].content@)))),
        !full_history && (forall|j: int| 0 <= j < history@.len() ==> !(#[trigger] history@[j] is User)) ==> (r matches Err(t) && t@ == no_user_message_text()),
        r is Err && r->Err_0@ != no_user_message_text() ==> r->Err_0@.len() >= invalid_base64_prefix().len()
            && r->Err_0@.subrange(0, invalid_base64_prefix().len() as int) == invalid_base64_prefix(),
        !full_history && r is Ok ==> (r matches Ok(ms) && ms@.len() == 1 && exists|i: int|
            0 <= i < history@.len() && #[trigger] history@[i] is User && (forall|j: int| i < j < history@.len() ==> !(#[trigger] history@[j] is User))
                && entry_message_of(history@[i]) == Some((ms@[0].role, parts_model(ms@[0].content@)))),
        !full_history ==> forall|i: int|
            0 <= i < history@.len() && #[trigger] history@[i] is User && (forall|j: int| i < j < history@.len() ==> !(#[trigger] history@[j] is User))
                ==> {
                &&& (r is Ok <==> entry_message_of(history@[i]) is Some)
                &&& r matches Ok(ms) ==> ms@.len() == 1 && entry_message_of(history@[i]) == Some((ms@[0].role, parts_model(ms@[0].content@)))
            },
{
    proof {
        reveal_strlit("rig request carried no user message");
        reveal_strlit("invalid base64 content: ");
    }
    if full_history {
        let mut out: Vec<Message> = Vec::new();
        let mut i: usize = 0;
        while i < history.len()
            invariant
                full_history,
                i <= history@.len(),
                out@.len() == i,
                forall|j: int| 0 <= j < i ==> entry_message_of(#[trigger] history@[j]) == Some((out@[j].role, parts_model(out@[j].content@))),
            decreases history.len() - i,
        {
            match rig_to_noema(&history[i]) {
                Ok(m) => out.push(m),
                Err(t) => {
                    proof {
                        reveal_strlit("rig request carried no user message");
                        reveal_strlit("invalid base64 content: ");
                        assert(entry_message_of(history@[i as int]) is None);
                        assert(t@.subrange(0, 24) != no_user_message_text()) by {
                            assert(t@.subrange(0, 24) == invalid_base64_prefix());
                            assert(invalid_base64_prefix()[0] != no_user_message_text()[0]);
                        }
                    }
                    return Err(t);
                },
            }
            i += 1;
        }
        Ok(out)
    } else {
        match last_user_message(history) {
            Some(i) => match rig_to_noema(&history[i]) {
                Ok(m) => {
                    let mut out: Vec<Message> = Vec::new();
                    out.push(m);
                    Ok(out)
                },
                Err(t) => {
                    proof {
                        assert(t@ != no_user_message_text()) by {
                            assert(t@.subrange(0, 24) == invalid_base64_prefix());
                            assert(invalid_base64_prefix()[0] != no_user_message_text()[0]);
                            assert(t@[0] == t@.subrange(0, 24)[0]);
                        }
                    }
                    Err(t)
                },
            },
            None => Err(string_of("rig request carried no user message")),
        }
    }
}

} // verus!

//! The wire-level logic of a cloud provider speaking the OpenAI-compatible
//! chat-completions protocol (Gemini through its compatible endpoint,
//! OpenAI, LocalAI, Ollama, vLLM, ...).
//!
//! A provider is configured with a model name, a base URL, and an optional
//! API key. This module builds what goes on the wire (the endpoint, the
//! chat messages), frames the server-sent events of a streaming response
//! into lines and classifies them, and phrases the provider's failures; the
//! HTTP exchange itself runs in the application layer.

use vstd::prelude::*;
use crate::error::{noema_error_text, NoemaError};
use crate::model::{ContentPart, Message, ModelChunk, Role, Usage};
use crate::session::ModelReply;
use crate::text::{chars_of, push_str, str_eq, string_from_chars, string_of, trim, trimmed};

verus! {

#[verifier::external_type_specification]
#[verifier::external_body]
pub struct ExHttpClient(reqwest::Client);

/// `reqwest::Client::new`: a client with the default configuration.
/// Nothing is claimed of it (an opaque handle). With only the `json` and
/// `stream` features enabled, the builder has no TLS or resolver setup that
/// could fail, so the call returns.
#[verifier::external_body]
fn new_http_client() -> reqwest::Client {
    reqwest::Client::new()
}

/// `Clone` for `reqwest::Client`: a handle sharing the same connection
/// pool. Nothing is claimed of it.
pub assume_specification[ <reqwest::Client as Clone>::clone ](client: &reqwest::Client) -> reqwest::Client;

/// A provider speaking the OpenAI-compatible chat-completions protocol.
#[derive(Debug, Clone)]
pub struct OpenAICompatibleProvider {
    id: String,
    model: String,
    base_url: String,
    api_key: Option<String>,
    streaming: bool,
    timeout: Option<std::time::Duration>,
    client: reqwest::Client,
}

/// The characters of `s` without its trailing `/` characters (as
/// `trim_end_matches('/')` returns them).
pub open spec fn without_trailing_slashes(s: Seq<char>) -> Seq<char>
    decreases s.len(),
{
    if s.len() > 0 && s.last() == '/' {
        without_trailing_slashes(s.drop_last())
    } else {
        s
    }
}

/// The chat-completions endpoint under a base URL.
pub open spec fn endpoint_of(base_url: Seq<char>) -> Seq<char> {
    without_trailing_slashes(base_url) + "/chat/completions"@
}

impl OpenAICompatibleProvider {
    /// The provider's id (what an escalation policy's preferred provider
    /// names).
    pub closed spec fn spec_id(&self) -> Seq<char> {
        self.id@
    }

    /// The model name.
    pub closed spec fn spec_model(&self) -> Seq<char> {
        self.model@
    }

    /// The base URL.
    pub closed spec fn spec_base_url(&self) -> Seq<char> {
        self.base_url@
    }

    /// The API key, when one is configured.
    pub closed spec fn spec_api_key(&self) -> Option<Seq<char>> {
        match self.api_key {
            Some(k) => Some(k@),
            None => None,
        }
    }

    /// Whether completions stream.
    pub closed spec fn spec_streaming(&self) -> bool {
        self.streaming
    }

    /// The cap on a whole completion, when one is set.
    pub closed spec fn spec_timeout(&self) -> Option<std::time::Duration> {
        self.timeout
    }

    /// A provider for the given id, model name, base URL, and API key (`None`
    /// for endpoints that need no authentication); not streaming and
    /// without a timeout.
    pub fn new(id: &str, model: &str, base_url: &str, api_key: Option<String>) -> (p: OpenAICompatibleProvider)
        ensures
            p.spec_id() == id@,
            p.spec_model() == model@,
            p.spec_base_url() == base_url@,
            p.spec_api_key() == (match api_key {
                Some(k) => Some(k@),
                None => None::<Seq<char>>,
            }),
            !p.spec_streaming(),
            p.spec_timeout() is None,
    {
        OpenAICompatibleProvider {
            id: string_of(id),
            model: string_of(model),
            base_url: string_of(base_url),
            api_key,
            streaming: false,
            timeout: None,
            client: new_http_client(),
        }
    }

    /// Streams completions when `true`.
    pub fn with_streaming(self, streaming: bool) -> (p: OpenAICompatibleProvider)
        ensures
            p.spec_streaming() == streaming,
            p.spec_id() == self.spec_id(),
            p.spec_model() == self.spec_model(),
            p.spec_base_url() == self.spec_base_url(),
            p.spec_api_key() == self.spec_api_key(),
            p.spec_timeout() == self.spec_timeout(),
    {
        OpenAICompatibleProvider { streaming, ..self }
    }

    /// Caps each whole completion at the given duration.
    pub fn with_timeout(self, timeout: std::time::Duration) -> (p: OpenAICompatibleProvider)
        ensures
            p.spec_timeout() == Some(timeout),
            p.spec_streaming() == self.spec_streaming(),
            p.spec_id() == self.spec_id(),
            p.spec_model() == self.spec_model(),
            p.spec_base_url() == self.spec_base_url(),
            p.spec_api_key() == self.spec_api_key(),
    {
        OpenAICompatibleProvider { timeout: Some(timeout), ..self }
    }

    /// The provider's id.
    pub fn id(&self) -> (r: &str)
        ensures
            r@ == self.spec_id(),
    {
        self.id.as_str()
    }

    /// The model name served by this provider.
    pub fn model(&self) -> (r: &str)
        ensures
            r@ == self.spec_model(),
    {
        self.model.as_str()
    }

    /// The provider's base URL.
    pub fn base_url(&self) -> (r: &str)
        ensures
            r@ == self.spec_base_url(),
    {
        self.base_url.as_str()
    }

    /// The API key, when one is configured.
    pub fn api_key(&self) -> (r: Option<&str>)
        ensures
            r is Some <==> self.spec_api_key() is Some,
            r matches Some(k) ==> k@ == self.spec_api_key()->0,
    {
        match &self.api_key {
            Some(k) => Some(k.as_str()),
            None => None,
        }
    }

    /// Whether completions stream.
    pub fn streaming(&self) -> (b: bool)
        ensures
            b == self.spec_streaming(),
    {
        self.streaming
    }

    /// The cap on a whole completion, when one is set.
    pub fn timeout(&self) -> (t: Option<std::time::Duration>)
        ensures
            t == self.spec_timeout(),
    {
        self.timeout
    }

    /// The HTTP client requests go through.
    pub closed spec fn spec_client(&self) -> reqwest::Client {
        self.client
    }

    /// The HTTP client requests go through.
    pub fn client(&self) -> (c: &reqwest::Client)
        ensures
            *c == self.spec_client(),
    {
        &self.client
    }

    /// The chat-completions endpoint: the base URL without trailing
    /// slashes, then `/chat/completions`.
    pub fn endpoint(&self) -> (e: String)
        ensures
            e@ == endpoint_of(self.spec_base_url()),
    {
        let cs = chars_of(self.base_url.as_str());
        let mut n = cs.len();
        proof {
            assert(cs@.subrange(0, n as int) =~= cs@);
        }
        while n > 0 && cs[n - 1] == '/'
            invariant
                n <= cs@.len(),
                cs@ == self.base_url@,
                without_trailing_slashes(cs@.subrange(0, n as int)) == without_trailing_slashes(self.base_url@),
            decreases n,
        {
            assert(cs@.subrange(0, n as int).drop_last() =~= cs@.subrange(0, n - 1));
            n -= 1;
        }
        let mut e = string_from_chars(&cs, 0, n);
        push_str(&mut e, "/chat/completions");
        e
    }
}

/// The protocol's name for a role.
pub open spec fn role_name(role: Role) -> Seq<char> {
    match role {
        Role::System => "system"@,
        Role::User => "user"@,
        Role::Assistant => "assistant"@,
        Role::Tool => "tool"@,
    }
}

/// The protocol's name for a role.
pub fn role_str(role: Role) -> (s: &'static str)
    ensures
        s@ == role_name(role),
{
    match role {
        Role::System => "system",
        Role::User => "user",
        Role::Assistant => "assistant",
        Role::Tool => "tool",
    }
}

/// The wire text of one content part: text as it is, other parts as
/// placeholders.
pub open spec fn part_text(p: ContentPart) -> Seq<char> {
    match p {
        ContentPart::Text(t) => t@,
        ContentPart::Image(_) => "[image content]"@,
        ContentPart::Audio(_) => "[audio content]"@,
    }
}

/// The wire text of content parts: their texts concatenated in order.
pub open spec fn parts_wire_text(parts: Seq<ContentPart>) -> Seq<char>
    decreases parts.len(),
{
    if parts.len() == 0 {
        Seq::empty()
    } else {
        parts_wire_text(parts.drop_last()) + part_text(parts.last())
    }
}

/// Flattens multimodal content to text for the wire; images and audio
/// become placeholders.
pub fn parts_text(parts: &[ContentPart]) -> (s: String)
    ensures
        s@ == parts_wire_text(parts@),
{
    let mut s = String::new();
    let mut i: usize = 0;
    while i < parts.len()
        invariant
            i <= parts@.len(),
            s@ == parts_wire_text(parts@.subrange(0, i as int)),
        decreases parts.len() - i,
    {
        proof {
            assert(parts@.subrange(0, i + 1).drop_last() =~= parts@.subrange(0, i as int));
        }
        match &parts[i] {
            ContentPart::Text(t) => push_str(&mut s, t.as_str()),
            ContentPart::Image(_) => push_str(&mut s, "[image content]"),
            ContentPart::Audio(_) => push_str(&mut s, "[audio content]"),
        }
        i += 1;
    }
    assert(parts@.subrange(0, parts@.len() as int) =~= parts@);
    s
}

/// One chat message on the wire.
#[derive(Debug, Clone)]
pub struct ChatMessage {
    /// The protocol's role name.
    pub role: String,
    /// The message text.
    pub content: String,
}

/// The request body of a chat completion (the sampling temperature and
/// nucleus probability, floating-point numbers, are added by the
/// application layer).
#[derive(Debug, Clone)]
pub struct ChatBody {
    /// The model name.
    pub model: String,
    /// The messages, in order.
    pub messages: Vec<ChatMessage>,
    /// Whether the response streams.
    pub stream: bool,
    /// The cap on output tokens, when set.
    pub max_tokens: Option<u32>,
    /// When streaming, the request for usage in the final chunk.
    pub include_usage: Option<bool>,
}

/// The wire messages of a request: the system instructions first when
/// present, then every message with its role name and wire text.
pub open spec fn wire_messages(system: Option<Seq<char>>, messages: Seq<Message>) -> Seq<(Seq<char>, Seq<char>)> {
    let head = match system {
        Some(s) => seq![("system"@, s)],
        None => Seq::empty(),
    };
    head + messages.map_values(|m: Message| (role_name(m.role), parts_wire_text(m.content@)))
}

/// How many wire messages come before the request's own: one for the
/// system instructions when present.
pub open spec fn system_offset(system: Option<Seq<char>>) -> int {
    if system is Some {
        1
    } else {
        0
    }
}

/// Every message of a request goes on the wire, once and in order, after
/// the system instructions when there are any: the wire carries one entry
/// more than the request when there is a system text and as many otherwise,
/// and the request's message `i` travels as entry `i` (after the system
/// entry) with its role name and its wire text.
pub proof fn law_wire_messages_keep_every_message(system: Option<Seq<char>>, messages: Seq<Message>)
    ensures
        wire_messages(system, messages).len() == system_offset(system) + messages.len(),
        system matches Some(s) ==> wire_messages(system, messages)[0] == ("system"@, s),
        forall|i: int|
            0 <= i < messages.len() ==> wire_messages(system, messages)[system_offset(system) + i] == (
                role_name((#[trigger] messages[i]).role),
                parts_wire_text(messages[i].content@),
            ),
{
}

/// The role names and texts of chat messages.
pub open spec fn chat_view(s: Seq<ChatMessage>) -> Seq<(Seq<char>, Seq<char>)> {
    s.map_values(|m: ChatMessage| (m.role@, m.content@))
}

/// Builds the request body: the messages as [`wire_messages`] gives them,
/// the streaming flag, the output-token cap, and (when streaming) the
/// request for usage in the final chunk.
pub fn build_chat_body(
    model: &str,
    system: Option<&str>,
    messages: &Vec<Message>,
    max_tokens: Option<u32>,
    streaming: bool,
) -> (b: ChatBody)
    ensures
        b.model@ == model@,
        chat_view(b.messages@) == wire_messages(
            match system {
                Some(s) => Some(s@),
                None => None,
            },
            messages@,
        ),
        b.messages@.len() == (if system is Some { 1int } else { 0int }) + messages@.len(),
        system matches Some(t) ==> b.messages@[0].role@ == "system"@ && b.messages@[0].content@ == t@,
        forall|i: int|
            0 <= i < messages@.len() ==> {
                &&& b.messages@[(if system is Some { 1int } else { 0int }) + i].role@ == role_name(
                    (#[trigger] messages@[i]).role,
                )
                &&& b.messages@[(if system is Some { 1int } else { 0int }) + i].content@ == parts_wire_text(
                    messages@[i].content@,
                )
            },
        b.stream == streaming,
        b.max_tokens == max_tokens,
        b.include_usage == (if streaming {
            Some(true)
        } else {
            None
        }),
{
    let ghost sys = match system {
        Some(s) => Some(s@),
        None => None::<Seq<char>>,
    };
    let mut out: Vec<ChatMessage> = Vec::new();
    if let Some(s) = system {
        out.push(ChatMessage { role: string_of("system"), content: string_of(s) });
    }
    let ghost head = chat_view(out@);
    assert(head =~= match sys {
        Some(s) => seq![("system"@, s)],
        None => Seq::<(Seq<char>, Seq<char>)>::empty(),
    });
    let mut i: usize = 0;
    while i < messages.len()
        invariant
            i <= messages@.len(),
            chat_view(out@) =~= head + messages@.subrange(0, i as int).map_values(
                |m: Message| (role_name(m.role), parts_wire_text(m.content@)),
            ),
        decreases messages.len() - i,
    {
        let m = &messages[i];
        let ghost prev = chat_view(out@);
        let msg = ChatMessage { role: string_of(role_str(m.role)), content: parts_text(m.content.as_slice()) };
        out.push(msg);
        proof {
            let f = |m: Message| (role_name(m.role), parts_wire_text(m.content@));
            assert(chat_view(out@) =~= prev.push(f(messages@[i as int])));
            assert(messages@.subrange(0, i + 1).map_values(f) =~= messages@.subrange(0, i as int).map_values(
                f,
            ).push(f(messages@[i as int])));
        }
        i += 1;
    }
    assert(messages@.subrange(0, messages@.len() as int) =~= messages@);
    proof {
        law_wire_messages_keep_every_message(sys, messages@);
        let k: int = if system is Some { 1int } else { 0int };
        assert(system_offset(sys) == k);
        assert(out@.len() == chat_view(out@).len());
        assert forall|i: int| 0 <= i < messages@.len() implies {
            &&& out@[k + i].role@ == role_name((#[trigger] messages@[i]).role)
            &&& out@[k + i].content@ == parts_wire_text(messages@[i].content@)
        } by {
            assert(chat_view(out@)[k + i] == (out@[k + i].role@, out@[k + i].content@));
        }
        if system is Some {
            assert(chat_view(out@)[0] == (out@[0].role@, out@[0].content@));
        }
    }
    ChatBody {
        model: string_of(model),
        messages: out,
        stream: streaming,
        max_tokens,
        include_usage: if streaming {
            Some(true)
        } else {
            None
        },
    }
}

/// Takes the first complete line (through its `\n`) off a buffer of
/// received bytes; a trailing partial line stays for the next read.
pub fn take_line(buffer: &mut Vec<u8>) -> (line: Option<Vec<u8>>)
    ensures
        (forall|j: int| 0 <= j < old(buffer)@.len() ==> old(buffer)@[j] != 10u8) <==> line is None,
        line is None ==> final(buffer)@ == old(buffer)@,
        line matches Some(l) ==> {
            &&& l@.len() > 0
            &&& l@.last() == 10u8
            &&& forall|j: int| 0 <= j < l@.len() - 1 ==> l@[j] != 10u8
            &&& old(buffer)@ == l@ + final(buffer)@
        },
{
    let mut pos: usize = 0;
    while pos < buffer.len() && buffer[pos] != 10u8
        invariant
            pos <= buffer@.len(),
            forall|j: int| 0 <= j < pos ==> buffer@[j] != 10u8,
        decreases buffer.len() - pos,
    {
        pos += 1;
    }
    if pos == buffer.len() {
        return None;
    }
    let mut line: Vec<u8> = Vec::new();
    let mut rest: Vec<u8> = Vec::new();
    let mut i: usize = 0;
    while i < buffer.len()
        invariant
            pos < buffer@.len(),
            i <= buffer@.len(),
            i <= pos + 1 ==> line@ == buffer@.subrange(0, i as int) && rest@.len() == 0,
            i > pos + 1 ==> line@ == buffer@.subrange(0, pos + 1) && rest@ == buffer@.subrange(pos + 1, i as int),
        decreases buffer.len() - i,
    {
        if i <= pos {
            line.push(buffer[i]);
        } else {
            rest.push(buffer[i]);
        }
        i += 1;
        assert(i <= pos + 1 ==> line@ =~= buffer@.subrange(0, i as int));
        assert(i > pos + 1 ==> rest@ =~= buffer@.subrange(pos + 1, i as int));
    }
    proof {
        assert(old(buffer)@ =~= line@ + rest@);
    }
    *buffer = rest;
    Some(line)
}

/// The text of received bytes as `String::from_utf8_lossy` decodes them
/// (invalid sequences become U+FFFD).
pub uninterp spec fn utf8_lossy(bytes: Seq<u8>) -> Seq<char>;

/// `String::from_utf8_lossy`: decodes bytes as UTF-8, replacing invalid
/// sequences with U+FFFD. The result is named [`utf8_lossy`] of the bytes.
#[verifier::external_body]
pub(crate) fn decode_lossy(bytes: &[u8]) -> (s: String)
    ensures
        s@ == utf8_lossy(bytes@),
{
    String::from_utf8_lossy(bytes).into_owned()
}

/// What one line of a server-sent-event stream carries.
#[derive(Debug)]
pub enum SseLine {
    /// Nothing to act on: a blank line, a comment (`:`), or a field other
    /// than `data`.
    Skip,
    /// The end marker `data: [DONE]`.
    Done,
    /// The payload of a `data:` line, trimmed.
    Payload(String),
}

/// What a line of text carries: the trimmed line is skipped when empty,
/// a comment, or not a `data:` field; otherwise its trimmed payload is the
/// end marker `[DONE]` or a payload.
pub open spec fn sse_line_kind(line: Seq<char>) -> Option<Seq<char>> {
    let t = trimmed(line);
    if t.len() == 0 || t[0] == ':' || t.len() < 5 || t.take(5) != "data:"@ {
        None
    } else {
        Some(trimmed(t.skip(5)))
    }
}

/// Classifies a line of a server-sent-event stream.
pub fn classify_sse_line(line: &str) -> (r: SseLine)
    ensures
        sse_line_kind(line@) is None ==> r is Skip,
        sse_line_kind(line@) == Some("[DONE]"@) ==> r is Done,
        sse_line_kind(line@) is Some && sse_line_kind(line@) != Some("[DONE]"@) ==> (r matches SseLine::Payload(q)
            && q@ == sse_line_kind(line@)->0),
{
    proof {
        reveal_strlit("data:");
    }
    let t = trim(line);
    let cs = chars_of(t.as_str());
    if cs.len() == 0 || cs[0] == ':' || cs.len() < 5 {
        return SseLine::Skip;
    }
    if !(cs[0] == 'd' && cs[1] == 'a' && cs[2] == 't' && cs[3] == 'a' && cs[4] == ':') {
        proof {
            if t@.take(5) == "data:"@ {
                assert(t@.take(5)[0] == t@[0] && t@.take(5)[1] == t@[1] && t@.take(5)[2] == t@[2]);
                assert(t@.take(5)[3] == t@[3] && t@.take(5)[4] == t@[4]);
                assert("data:"@[0] == 'd' && "data:"@[1] == 'a' && "data:"@[2] == 't');
                assert("data:"@[3] == 'a' && "data:"@[4] == ':');
                assert(false);
            }
        }
        return SseLine::Skip;
    }
    proof {
        assert(t@.take(5) =~= "data:"@);
    }
    let rest = string_from_chars(&cs, 5, cs.len());
    assert(rest@ =~= t@.skip(5));
    let payload = trim(rest.as_str());
    if str_eq(payload.as_str(), "[DONE]") {
        SseLine::Done
    } else {
        SseLine::Payload(payload)
    }
}

/// Classifies a received line of bytes: decodes it, then classifies the
/// text.
pub fn classify_sse_bytes(line: &[u8]) -> (r: SseLine)
    ensures
        sse_line_kind(utf8_lossy(line@)) is None ==> r is Skip,
        sse_line_kind(utf8_lossy(line@)) == Some("[DONE]"@) ==> r is Done,
        sse_line_kind(utf8_lossy(line@)) is Some && sse_line_kind(utf8_lossy(line@)) != Some("[DONE]"@) ==> (r matches SseLine::Payload(q)
            && q@ == sse_line_kind(utf8_lossy(line@))->0),
{
    let text = decode_lossy(line);
    classify_sse_line(text.as_str())
}

/// A content delta of a stream becomes a chunk when it carries text.
pub fn stream_delta(delta: Option<String>) -> (c: Option<ModelChunk>)
    ensures
        delta is Some && delta->0@.len() > 0 ==> (c matches Some(k) && k.delta == delta->0),
        !(delta is Some && delta->0@.len() > 0) ==> c is None,
{
    match delta {
        Some(d) => {
            if d.as_str().is_empty() {
                None
            } else {
                Some(ModelChunk { delta: d })
            }
        },
        None => None,
    }
}

/// A complete (non-streaming) answer: the first choice's text (empty when
/// there is none) and the reported usage.
pub fn completion_reply(first_content: Option<String>, usage: Option<Usage>) -> (r: ModelReply)
    ensures
        r matches ModelReply::Text { content, usage: u } && u == usage && content@ == (match first_content {
            Some(c) => c@,
            None => Seq::empty(),
        }),
{
    let content = match first_content {
        Some(c) => c,
        None => String::new(),
    };
    ModelReply::Text { content, usage }
}

/// How a provider call failed.
#[derive(Debug)]
pub enum ProviderFailure {
    /// The session cancelled the completion.
    Cancelled,
    /// The request could not be sent; the detail is the transport's error.
    RequestFailed(String),
    /// The response body could not be read.
    ReadFailed(String),
    /// The provider answered with an error status.
    Status {
        /// The status, e.g. `401 Unauthorized`.
        status: String,
        /// The response body.
        detail: String,
    },
    /// The response body was not the expected JSON.
    InvalidJson(String),
    /// The response stream broke off.
    StreamFailed(String),
}

/// The text of a provider failure.
pub open spec fn provider_failure_text(id: Seq<char>, f: ProviderFailure) -> Seq<char> {
    match f {
        ProviderFailure::Cancelled => "cloud completion cancelled (provider '"@ + id + "')"@,
        ProviderFailure::RequestFailed(d) => "provider '"@ + id + "' request failed: "@ + d@,
        ProviderFailure::ReadFailed(d) => "provider '"@ + id + "' read failed: "@ + d@,
        ProviderFailure::Status { status, detail } => "provider '"@ + id + "' returned "@ + status@ + ": "@
            + detail@,
        ProviderFailure::InvalidJson(d) => "provider '"@ + id + "' returned invalid JSON: "@ + d@,
        ProviderFailure::StreamFailed(d) => "provider '"@ + id + "' stream failed: "@ + d@,
    }
}

/// The model error a provider failure becomes.
pub fn provider_error(id: &str, failure: ProviderFailure) -> (e: NoemaError)
    ensures
        e matches NoemaError::Model(t) && t@ == provider_failure_text(id@, failure),
{
    let mut t = String::new();
    match &failure {
        ProviderFailure::Cancelled => {
            push_str(&mut t, "cloud completion cancelled (provider '");
            push_str(&mut t, id);
            push_str(&mut t, "')");
        },
        ProviderFailure::RequestFailed(d) => {
            push_str(&mut t, "provider '");
            push_str(&mut t, id);
            push_str(&mut t, "' request failed: ");
            push_str(&mut t, d.as_str());
        },
        ProviderFailure::ReadFailed(d) => {
            push_str(&mut t, "provider '");
            push_str(&mut t, id);
            push_str(&mut t, "' read failed: ");
            push_str(&mut t, d.as_str());
        },
        ProviderFailure::Status { status, detail } => {
            push_str(&mut t, "provider '");
            push_str(&mut t, id);
            push_str(&mut t, "' returned ");
            push_str(&mut t, status.as_str());
            push_str(&mut t, ": ");
            push_str(&mut t, detail.as_str());
        },
        ProviderFailure::InvalidJson(d) => {
            push_str(&mut t, "provider '");
            push_str(&mut t, id);
            push_str(&mut t, "' returned invalid JSON: ");
            push_str(&mut t, d.as_str());
        },
        ProviderFailure::StreamFailed(d) => {
            push_str(&mut t, "provider '");
            push_str(&mut t, id);
            push_str(&mut t, "' stream failed: ");
            push_str(&mut t, d.as_str());
        },
    }
    NoemaError::Model(t)
}

} // verus!

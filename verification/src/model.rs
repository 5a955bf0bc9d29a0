//! Model abstractions: messages, content parts, usage, and escalation
//! requests — the data every model backend speaks.

use vstd::prelude::*;
use crate::text::string_of;

verus! {

/// Who produced a [`Message`].
#[derive(Debug, Clone, Copy, PartialEq, Eq, Structural, Hash)]
pub enum Role {
    /// System instructions.
    System,
    /// The user.
    User,
    /// The assistant (model).
    Assistant,
    /// A message produced by a tool.
    Tool,
}

/// Binary image content.
#[derive(Debug, Clone, PartialEq)]
pub struct ImageData {
    /// The raw image bytes.
    pub bytes: Vec<u8>,
    /// The MIME type, e.g. `image/png`.
    pub mime: String,
}

/// Binary audio content.
#[derive(Debug, Clone, PartialEq)]
pub struct AudioData {
    /// The raw audio bytes.
    pub bytes: Vec<u8>,
    /// The MIME type, e.g. `audio/wav`.
    pub mime: String,
}

/// A single ordered part of a message's content.
#[derive(Debug, Clone, PartialEq)]
pub enum ContentPart {
    /// Plain text.
    Text(String),
    /// An image.
    Image(ImageData),
    /// An audio clip.
    Audio(AudioData),
}

/// The model of a content part: its kind, bytes, and MIME type or text.
pub enum PartModel {
    Text(Seq<char>),
    Image(Seq<u8>, Seq<char>),
    Audio(Seq<u8>, Seq<char>),
}

impl View for ContentPart {
    type V = PartModel;

    open spec fn view(&self) -> PartModel {
        match self {
            ContentPart::Text(t) => PartModel::Text(t@),
            ContentPart::Image(i) => PartModel::Image(i.bytes@, i.mime@),
            ContentPart::Audio(a) => PartModel::Audio(a.bytes@, a.mime@),
        }
    }
}

/// The models of a sequence of parts.
pub open spec fn parts_model(parts: Seq<ContentPart>) -> Seq<PartModel> {
    parts.map_values(|p: ContentPart| p@)
}

impl ContentPart {
    /// A text content part.
    pub fn text(content: &str) -> (p: ContentPart)
        ensures
            p matches ContentPart::Text(t) && t@ == content@,
    {
        ContentPart::Text(string_of(content))
    }

    /// An image content part.
    pub fn image(bytes: Vec<u8>, mime: &str) -> (p: ContentPart)
        ensures
            p matches ContentPart::Image(i) && i.bytes == bytes && i.mime@ == mime@,
    {
        ContentPart::Image(ImageData { bytes, mime: string_of(mime) })
    }

    /// An audio content part.
    pub fn audio(bytes: Vec<u8>, mime: &str) -> (p: ContentPart)
        ensures
            p matches ContentPart::Audio(a) && a.bytes == bytes && a.mime@ == mime@,
    {
        ContentPart::Audio(AudioData { bytes, mime: string_of(mime) })
    }

    /// A copy of this part.
    pub fn duplicate(&self) -> (p: ContentPart)
        ensures
            p@ == self@,
    {
        match self {
            ContentPart::Text(t) => ContentPart::Text(t.clone()),
            ContentPart::Image(i) => ContentPart::Image(ImageData { bytes: copy_bytes(&i.bytes), mime: i.mime.clone() }),
            ContentPart::Audio(a) => ContentPart::Audio(AudioData { bytes: copy_bytes(&a.bytes), mime: a.mime.clone() }),
        }
    }
}

/// A copy of a byte vector.
pub fn copy_bytes(v: &Vec<u8>) -> (r: Vec<u8>)
    ensures
        r@ == v@,
{
    let mut r: Vec<u8> = Vec::new();
    let mut i: usize = 0;
    while i < v.len()
        invariant
            i <= v@.len(),
            r@ == v@.subrange(0, i as int),
        decreases v.len() - i,
    {
        r.push(v[i]);
        i += 1;
        assert(r@ =~= v@.subrange(0, i as int));
    }
    assert(r@ =~= v@);
    r
}

/// A message with ordered, potentially multimodal content.
#[derive(Debug, Clone, PartialEq)]
pub struct Message {
    /// The speaker.
    pub role: Role,
    /// The content parts, in order.
    pub content: Vec<ContentPart>,
}

impl Message {
    /// A message with the given content parts.
    pub fn new(role: Role, content: Vec<ContentPart>) -> (m: Message)
        ensures
            m.role == role,
            m.content == content,
    {
        Message { role, content }
    }

    /// A plain-text message: one text part.
    pub fn text(role: Role, content: &str) -> (m: Message)
        ensures
            m.role == role,
            m.content@.len() == 1,
            m.content@[0] matches ContentPart::Text(t) && t@ == content@,
    {
        let mut parts: Vec<ContentPart> = Vec::new();
        parts.push(ContentPart::text(content));
        Message { role, content: parts }
    }

    /// A copy of this message.
    pub fn duplicate(&self) -> (m: Message)
        ensures
            m.role == self.role,
            parts_model(m.content@) == parts_model(self.content@),
    {
        let mut parts: Vec<ContentPart> = Vec::new();
        let mut i: usize = 0;
        while i < self.content.len()
            invariant
                i <= self.content@.len(),
                parts@.len() == i,
                forall|j: int| 0 <= j < i ==> (#[trigger] parts@[j])@ == self.content@[j]@,
            decreases self.content.len() - i,
        {
            parts.push(self.content[i].duplicate());
            i += 1;
        }
        assert(parts_model(parts@) =~= parts_model(self.content@));
        Message { role: self.role, content: parts }
    }
}

/// Token usage metadata reported by a model.
#[derive(Debug, Clone, Copy, PartialEq, Eq, Structural)]
pub struct Usage {
    /// Input (prompt) tokens.
    pub input_tokens: u64,
    /// Output (completion) tokens.
    pub output_tokens: u64,
}

impl Default for Usage {
    fn default() -> (u: Self)
        ensures
            u.input_tokens == 0,
            u.output_tokens == 0,
    {
        Usage { input_tokens: 0, output_tokens: 0 }
    }
}

impl Usage {
    /// Total tokens consumed. (The sum must fit in a `u64`, as it must for
    /// the addition itself.)
    pub fn total(&self) -> (t: u64)
        requires
            self.input_tokens + self.output_tokens <= u64::MAX,
        ensures
            t == self.input_tokens + self.output_tokens,
    {
        self.input_tokens + self.output_tokens
    }
}

/// A structured request to escalate to a larger model: why, and the
/// context the larger model should see.
#[derive(Debug, Clone, PartialEq)]
pub struct EscalationRequest {
    /// Why escalation is needed.
    pub reason: String,
    /// The context the larger model should see.
    pub context: Vec<Message>,
}

impl EscalationRequest {
    /// An escalation request with the given reason and context.
    pub fn new(reason: &str, context: Vec<Message>) -> (r: EscalationRequest)
        ensures
            r.reason@ == reason@,
            r.context == context,
    {
        EscalationRequest { reason: string_of(reason), context }
    }
}

/// A chunk of a streaming response: the text delta it carries.
#[derive(Debug, Clone, PartialEq)]
pub struct ModelChunk {
    /// The text delta.
    pub delta: String,
}

impl ModelChunk {
    /// A chunk carrying the given text delta.
    pub fn new(delta: &str) -> (c: ModelChunk)
        ensures
            c.delta@ == delta@,
    {
        ModelChunk { delta: string_of(delta) }
    }
}

} // verus!

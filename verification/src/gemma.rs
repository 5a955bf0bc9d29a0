//! How a message of this crate becomes a turn of the on-device Gemma
//! engine: which role it takes, whether it is sent as plain text or as
//! ordered parts, and which messages the engine cannot take; and how the
//! engine's token stream is read back: which events are forwarded, which
//! end the turn, and what the conversation keeps of a finished turn.

use vstd::prelude::*;
use crate::error::NoemaError;
use crate::filesearch::{trim_end, trimmed_end};
use crate::model::{parts_model, ContentPart, Message, ModelChunk, PartModel, Role};
use crate::text::{push_str, string_of};

verus! {

/// A message as the Gemma engine takes it.
#[derive(Debug, Clone, PartialEq)]
pub enum GemmaTurn {
    /// A user turn of exactly one text part.
    UserText(String),
    /// A user turn sent as its ordered parts (text, images, audio).
    UserParts(Vec<ContentPart>),
    /// A model (assistant) turn.
    Model(String),
    /// System instructions.
    System(String),
    /// A tool message.
    Tool(String),
}

/// The text of a message that is exactly one text part.
pub open spec fn single_text(parts: Seq<PartModel>) -> Option<Seq<char>> {
    if parts.len() == 1 && parts[0] is Text {
        Some(parts[0]->Text_0)
    } else {
        None
    }
}

/// The text parts of `parts`, concatenated in order (other parts add
/// nothing).
pub open spec fn joined_text(parts: Seq<PartModel>) -> Seq<char>
    decreases parts.len(),
{
    if parts.len() == 0 {
        Seq::empty()
    } else {
        joined_text(parts.drop_last()) + match parts.last() {
            PartModel::Text(t) => t,
            _ => Seq::empty(),
        }
    }
}

/// Whether every part is text.
pub open spec fn all_text(parts: Seq<PartModel>) -> bool {
    forall|i: int| 0 <= i < parts.len() ==> (#[trigger] parts[i]) is Text
}

/// The index of the first part that is not text (the length when there
/// is none).
pub open spec fn first_binary(parts: Seq<PartModel>) -> int
    decreases parts.len(),
{
    if parts.len() == 0 {
        0
    } else if !(parts[0] is Text) {
        0
    } else {
        1 + first_binary(parts.drop_first())
    }
}

/// How a role is named in messages.
pub open spec fn role_name(role: Role) -> Seq<char> {
    match role {
        Role::System => "System"@,
        Role::User => "User"@,
        Role::Assistant => "Assistant"@,
        Role::Tool => "Tool"@,
    }
}

/// How a binary part is named in messages.
pub open spec fn part_kind(p: PartModel) -> Seq<char> {
    match p {
        PartModel::Image(_, _) => "image"@,
        PartModel::Audio(_, _) => "audio"@,
        PartModel::Text(_) => "text"@,
    }
}

/// The refusal of a non-user message that carries a binary part.
pub open spec fn binary_refusal(role: Role, p: PartModel) -> Seq<char> {
    role_name(role) + " messages cannot carry binary content parts ("@ + part_kind(p)
        + "); images and audio are supported for user turns"@
}

/// The text a non-user turn carries, or its refusal.
pub open spec fn role_text_model(role: Role, parts: Seq<PartModel>) -> Result<Seq<char>, Seq<char>> {
    if single_text(parts) is Some {
        Ok(single_text(parts)->Some_0)
    } else if all_text(parts) {
        Ok(joined_text(parts))
    } else {
        Err(binary_refusal(role, parts[first_binary(parts)]))
    }
}

proof fn lemma_first_binary(parts: Seq<PartModel>)
    ensures
        0 <= first_binary(parts) <= parts.len(),
        forall|i: int| 0 <= i < first_binary(parts) ==> (#[trigger] parts[i]) is Text,
        first_binary(parts) < parts.len() ==> !(parts[first_binary(parts)] is Text),
    decreases parts.len(),
{
    if parts.len() > 0 && parts[0] is Text {
        let rest = parts.drop_first();
        lemma_first_binary(rest);
        assert forall|i: int| 0 <= i < first_binary(parts) implies (#[trigger] parts[i]) is Text by {
            if i > 0 {
                assert(parts[i] == rest[i - 1]);
            }
        }
        if first_binary(parts) < parts.len() {
            assert(parts[first_binary(parts)] == rest[first_binary(rest)]);
        }
    }
}

/// The text a non-user message carries: its one text part, or all its text
/// parts joined; a binary part is refused, naming the role and the first
/// binary part's kind.
pub fn role_text(role: Role, parts: &Vec<ContentPart>) -> (r: Result<String, NoemaError>)
    ensures
        match role_text_model(role, parts_model(parts@)) {
            Ok(t) => r matches Ok(s) && s@ == t,
            Err(e) => r matches Err(NoemaError::Model(s)) && s@ == e,
        },
{
    let ghost m = parts_model(parts@);
    if parts.len() == 1 {
        if let ContentPart::Text(t) = &parts[0] {
            return Ok(t.clone());
        }
    }
    let mut text = String::new();
    let mut i: usize = 0;
    while i < parts.len()
        invariant
            m == parts_model(parts@),
            i <= parts@.len(),
            forall|j: int| 0 <= j < i ==> (#[trigger] m[j]) is Text,
            text@ == joined_text(m.subrange(0, i as int)),
        decreases parts.len() - i,
    {
        assert(m.subrange(0, i as int + 1).drop_last() =~= m.subrange(0, i as int));
        match &parts[i] {
            ContentPart::Text(t) => {
                push_str(&mut text, t.as_str());
            },
            _ => {
                proof {
                    lemma_first_binary(m);
                    assert(!all_text(m));
                    if first_binary(m) < i {
                        assert(m[first_binary(m)] is Text);
                    }
                    if first_binary(m) > i {
                        assert(m[i as int] is Text);
                    }
                }
                let mut msg = String::new();
                push_str(&mut msg, role_label(role));
                push_str(&mut msg, " messages cannot carry binary content parts (");
                let kind = match &parts[i] {
                    ContentPart::Image(_) => "image",
                    ContentPart::Audio(_) => "audio",
                    ContentPart::Text(_) => "text",
                };
                push_str(&mut msg, kind);
                push_str(&mut msg, "); images and audio are supported for user turns");
                proof {
                    reveal_strlit("image");
                    reveal_strlit("audio");
                    reveal_strlit("text");
                }
                return Err(NoemaError::Model(msg));
            },
        }
        i += 1;
    }
    assert(m.subrange(0, i as int) =~= m);
    Ok(text)
}

/// The name of a role in messages.
fn role_label(role: Role) -> (s: &'static str)
    ensures
        s@ == role_name(role),
{
    match role {
        Role::System => "System",
        Role::User => "User",
        Role::Assistant => "Assistant",
        Role::Tool => "Tool",
    }
}

/// The Gemma turn for a message: a user message of one text part is sent
/// as text and any other user message as its parts; other roles carry
/// text only (see [`role_text`]).
pub fn gemma_turn(message: &Message) -> (r: Result<GemmaTurn, NoemaError>)
    ensures
        message.role == Role::User ==> match single_text(parts_model(message.content@)) {
            Some(t) => r matches Ok(GemmaTurn::UserText(s)) && s@ == t,
            None => r matches Ok(GemmaTurn::UserParts(ps)) && parts_model(ps@) == parts_model(message.content@),
        },
        message.role != Role::User ==> match role_text_model(message.role, parts_model(message.content@)) {
            Ok(t) => match message.role {
                Role::Assistant => r matches Ok(GemmaTurn::Model(s)) && s@ == t,
                Role::System => r matches Ok(GemmaTurn::System(s)) && s@ == t,
                _ => r matches Ok(GemmaTurn::Tool(s)) && s@ == t,
            },
            Err(e) => r matches Err(NoemaError::Model(s)) && s@ == e,
        },
{
    match message.role {
        Role::User => {
            if message.content.len() == 1 {
                if let ContentPart::Text(t) = &message.content[0] {
                    return Ok(GemmaTurn::UserText(t.clone()));
                }
            }
            let copy = message.duplicate();
            Ok(GemmaTurn::UserParts(copy.content))
        },
        Role::Assistant => match role_text(Role::Assistant, &message.content) {
            Ok(t) => Ok(GemmaTurn::Model(t)),
            Err(e) => Err(e),
        },
        Role::System => match role_text(Role::System, &message.content) {
            Ok(t) => Ok(GemmaTurn::System(t)),
            Err(e) => Err(e),
        },
        Role::Tool => match role_text(Role::Tool, &message.content) {
            Ok(t) => Ok(GemmaTurn::Tool(t)),
            Err(e) => Err(e),
        },
    }
}

/// The refusal of a request without messages.
pub open spec fn no_messages_text() -> Seq<char> {
    "Gemma request carried no messages"@
}

/// The turn for a request: its last message, as [`gemma_turn`] maps it; a
/// request without messages is refused.
pub fn current_turn(messages: &Vec<Message>) -> (r: Result<GemmaTurn, NoemaError>)
    ensures
        messages@.len() == 0 ==> (r matches Err(NoemaError::Model(t)) && t@ == no_messages_text()),
        messages@.len() > 0 ==> {
            let m = messages@.last();
            &&& m.role == Role::User && single_text(parts_model(m.content@)) is Some ==> (r matches Ok(
                GemmaTurn::UserText(s),
            ) && s@ == single_text(parts_model(m.content@))->0)
            &&& m.role == Role::User && single_text(parts_model(m.content@)) is None ==> (r matches Ok(
                GemmaTurn::UserParts(ps),
            ) && parts_model(ps@) == parts_model(m.content@))
            &&& m.role != Role::User ==> match role_text_model(m.role, parts_model(m.content@)) {
                Ok(t) => match m.role {
                    Role::Assistant => r matches Ok(GemmaTurn::Model(s)) && s@ == t,
                    Role::System => r matches Ok(GemmaTurn::System(s)) && s@ == t,
                    _ => r matches Ok(GemmaTurn::Tool(s)) && s@ == t,
                },
                Err(e) => r matches Err(NoemaError::Model(s)) && s@ == e,
            }
        },
{
    if messages.len() == 0 {
        return Err(NoemaError::Model(string_of("Gemma request carried no messages")));
    }
    gemma_turn(&messages[messages.len() - 1])
}

/// The engine takes a turn's output cap as an `i32`: larger caps saturate.
pub fn output_cap(max_tokens: Option<u32>) -> (cap: Option<i32>)
    ensures
        max_tokens is None ==> cap is None,
        max_tokens matches Some(m) ==> cap == Some((if m <= i32::MAX { m as int } else { i32::MAX as int }) as i32),
{
    match max_tokens {
        Some(m) => if m <= 2147483647u32 {
            Some(m as i32)
        } else {
            Some(2147483647i32)
        },
        None => None,
    }
}

/// An event of the engine's token stream, as the reader sees it.
#[derive(Debug)]
pub enum GemmaStreamEvent {
    /// The stream failed to start; the engine's code, as text.
    StartFailed(String),
    /// A chunk of the stream.
    Chunk {
        /// The error the chunk reports, if any.
        error: Option<String>,
        /// The text the chunk carries, if any.
        delta: Option<String>,
        /// Whether the chunk is the stream's last.
        is_final: bool,
    },
}

/// What the reader of the stream does next.
#[derive(Debug)]
pub enum DrainStep {
    /// Read the next event (the end of the stream ends the turn).
    Next,
    /// Hand this chunk to the consumer and report with
    /// [`GemmaDrain::on_sent`].
    Send(ModelChunk),
    /// Hand this error to the consumer and stop, after stopping the
    /// engine's generation when `cancel_process` is set.
    Fail {
        /// The error for the consumer.
        error: NoemaError,
        /// Whether the engine's generation is stopped first.
        cancel_process: bool,
    },
    /// Stop, after stopping the engine's generation when `cancel_process`
    /// is set.
    Stop {
        /// Whether the engine's generation is stopped first.
        cancel_process: bool,
    },
}

/// The error of a turn stopped by its cancellation token.
pub open spec fn gemma_cancelled_text() -> Seq<char> {
    "gemma generation cancelled"@
}

/// The error of a stream that failed to start.
pub open spec fn start_failed_text(code: Seq<char>) -> Seq<char> {
    "gemma stream failed to start: "@ + code
}

/// The error of a chunk that reports one.
pub open spec fn stream_error_text(error: Seq<char>) -> Seq<char> {
    "gemma stream error: "@ + error
}

/// The reading of one turn's token stream: the text forwarded so far,
/// whether the turn was cancelled, and whether reading is over.
#[derive(Debug)]
pub struct GemmaDrain {
    full: String,
    cancelled: bool,
    finished: bool,
    last: bool,
}

impl GemmaDrain {
    /// The text forwarded so far.
    pub closed spec fn text(&self) -> Seq<char> {
        self.full@
    }

    /// Whether the turn was cancelled.
    pub closed spec fn was_cancelled(&self) -> bool {
        self.cancelled
    }

    /// Whether reading is over.
    pub closed spec fn is_finished(&self) -> bool {
        self.finished
    }

    /// Whether the chunk being sent is the stream's last.
    pub closed spec fn sending_last(&self) -> bool {
        self.last
    }

    /// A reading that has forwarded nothing yet.
    pub fn new() -> (d: GemmaDrain)
        ensures
            d.text().len() == 0,
            !d.was_cancelled(),
            !d.is_finished(),
    {
        GemmaDrain { full: String::new(), cancelled: false, finished: false, last: false }
    }

    /// Handles the next event, given whether the turn's token was
    /// cancelled before it. A cancelled turn stops the engine and fails;
    /// a failed start or a chunk's error fails; a non-empty text is
    /// forwarded (and kept); an empty text is skipped; a last chunk
    /// without text ends the reading.
    pub fn on_event(&mut self, cancelled: bool, event: GemmaStreamEvent) -> (r: DrainStep)
        requires
            !old(self).is_finished(),
        ensures
            cancelled ==> (r matches DrainStep::Fail { error: NoemaError::Model(t), cancel_process: true } && t@
                == gemma_cancelled_text()) && final(self).was_cancelled() && final(self).is_finished()
                && final(self).text() == old(self).text(),
            !cancelled ==> final(self).was_cancelled() == old(self).was_cancelled(),
            event matches GemmaStreamEvent::StartFailed(code) ==> (!cancelled ==> (r matches DrainStep::Fail {
                error: NoemaError::Model(t),
                cancel_process: false,
            } && t@ == start_failed_text(code@)) && final(self).is_finished() && final(self).text() == old(self).text()),
            event matches GemmaStreamEvent::Chunk { error: Some(e), .. } ==> (!cancelled ==> (r matches DrainStep::Fail {
                error: NoemaError::Model(t),
                cancel_process: false,
            } && t@ == stream_error_text(e@)) && final(self).is_finished() && final(self).text() == old(self).text()),
            event matches GemmaStreamEvent::Chunk { error: None, delta: Some(d), is_final } ==> (!cancelled ==> if d@.len()
                > 0 {
                &&& r matches DrainStep::Send(c) && c.delta@ == d@
                &&& final(self).text() == old(self).text() + d@
                &&& !final(self).is_finished()
                &&& final(self).sending_last() == is_final
            } else {
                r is Next && final(self).text() == old(self).text() && !final(self).is_finished()
            }),
            event matches GemmaStreamEvent::Chunk { error: None, delta: None, is_final } ==> (!cancelled ==> final(self).text()
                == old(self).text() && if is_final {
                r matches DrainStep::Stop { cancel_process: false } && final(self).is_finished()
            } else {
                r is Next && !final(self).is_finished()
            }),
    {
        if cancelled {
            self.cancelled = true;
            self.finished = true;
            return DrainStep::Fail {
                error: NoemaError::Model(string_of("gemma generation cancelled")),
                cancel_process: true,
            };
        }
        match event {
            GemmaStreamEvent::StartFailed(code) => {
                self.finished = true;
                let mut t = string_of("gemma stream failed to start: ");
                push_str(&mut t, code.as_str());
                DrainStep::Fail { error: NoemaError::Model(t), cancel_process: false }
            },
            GemmaStreamEvent::Chunk { error, delta, is_final } => match error {
                Some(e) => {
                    self.finished = true;
                    let mut t = string_of("gemma stream error: ");
                    push_str(&mut t, e.as_str());
                    DrainStep::Fail { error: NoemaError::Model(t), cancel_process: false }
                },
                None => match delta {
                    Some(d) => {
                        if d.as_str().is_empty() {
                            DrainStep::Next
                        } else {
                            push_str(&mut self.full, d.as_str());
                            self.last = is_final;
                            DrainStep::Send(ModelChunk { delta: d })
                        }
                    },
                    None => {
                        if is_final {
                            self.finished = true;
                            DrainStep::Stop { cancel_process: false }
                        } else {
                            DrainStep::Next
                        }
                    },
                },
            },
        }
    }

    /// Handles the outcome of handing a chunk to the consumer: a consumer
    /// that is gone stops the engine and the reading; otherwise the
    /// reading ends after the last chunk and goes on after any other.
    pub fn on_sent(&mut self, delivered: bool) -> (r: DrainStep)
        requires
            !old(self).is_finished(),
        ensures
            final(self).text() == old(self).text(),
            final(self).was_cancelled() == old(self).was_cancelled(),
            !delivered ==> (r matches DrainStep::Stop { cancel_process: true }) && final(self).is_finished(),
            delivered && old(self).sending_last() ==> (r matches DrainStep::Stop { cancel_process: false })
                && final(self).is_finished(),
            delivered && !old(self).sending_last() ==> r is Next && !final(self).is_finished(),
    {
        if !delivered {
            self.finished = true;
            DrainStep::Stop { cancel_process: true }
        } else if self.last {
            self.finished = true;
            DrainStep::Stop { cancel_process: false }
        } else {
            DrainStep::Next
        }
    }

    /// The text forwarded so far.
    pub fn forwarded(&self) -> (t: &str)
        ensures
            t@ == self.text(),
    {
        self.full.as_str()
    }

    /// Whether the turn was cancelled.
    pub fn cancelled(&self) -> (b: bool)
        ensures
            b == self.was_cancelled(),
    {
        self.cancelled
    }
}

/// What the conversation keeps of a finished turn: the model's reply
/// without trailing whitespace, unless the turn was cancelled or produced
/// nothing (then the turn is not kept).
pub fn committed_reply(full: &str, cancelled: bool) -> (r: Option<String>)
    ensures
        !cancelled && full@.len() > 0 ==> (r matches Some(t) && t@ == trimmed_end(full@)),
        cancelled || full@.len() == 0 ==> r is None,
{
    if cancelled || full.is_empty() {
        None
    } else {
        Some(trim_end(full))
    }
}

} // verus!

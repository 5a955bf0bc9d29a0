//! Ephemeral sessions: their lifecycle, the events they publish, and the
//! decisions of a send.
//!
//! A send alternates outside work (asking the router, running the model,
//! reading a stream) with decisions. [`SendFlow`] holds the decisions: the
//! caller performs each [`SendStep`] it asks for and hands the outcome back,
//! and the flow answers with the events to publish and the next step.

use vstd::prelude::*;
use crate::error::{noema_error_text, NoemaError};
use crate::escalation::{escalation_target, EscalationDecision, EscalationPolicy};
use crate::model::{parts_model, ContentPart, EscalationRequest, Message, ModelChunk, PartModel, Role, Usage};
use crate::registry::{has_name, tool_name, RegisteredTool, ToolRegistry};
use crate::route::{ModelAnswer, Route, SendOutcome};
use crate::text::{push_str, string_of};
use crate::tools::{arguments_valid, tool_error_text, ToolCall, ToolError, ToolResult};

verus! {

/// The lifecycle state of a session.
#[derive(Debug, Clone, Copy, PartialEq, Eq, Structural)]
pub enum SessionState {
    /// The session is open and accepting work.
    Active,
    /// The session has been closed and must not accept further work.
    Closed,
}

/// The events a session publishes (the event bus adds the session id).
#[derive(Debug)]
pub enum SessionEvent {
    /// A session was created.
    SessionStarted,
    /// A session was closed.
    SessionCompleted,
    /// A user message arrived.
    UserMessageReceived,
    /// The router started on a request.
    RoutingStarted,
    /// The router handled the request.
    RoutingCompleted,
    /// The router escalated the request.
    RoutingEscalated,
    /// An escalation started.
    EscalationStarted,
    /// An escalation completed.
    EscalationCompleted,
    /// The model started generating.
    ModelStarted {
        /// The model's id.
        model: String,
    },
    /// The model produced text.
    ModelDelta {
        /// The new text.
        delta: String,
    },
    /// The model finished.
    ModelCompleted,
    /// A tool started.
    ToolStarted,
    /// A tool finished.
    ToolCompleted,
    /// A tool failed.
    ToolFailed,
    /// Something failed.
    Error {
        /// The error's display text.
        error: String,
    },
}

/// An event with its text taken by characters.
pub enum EventView {
    SessionStarted,
    SessionCompleted,
    UserMessageReceived,
    RoutingStarted,
    RoutingCompleted,
    RoutingEscalated,
    EscalationStarted,
    EscalationCompleted,
    ModelStarted(Seq<char>),
    ModelDelta(Seq<char>),
    ModelCompleted,
    ToolStarted,
    ToolCompleted,
    ToolFailed,
    Error(Seq<char>),
}

impl View for SessionEvent {
    type V = EventView;

    open spec fn view(&self) -> EventView {
        match self {
            SessionEvent::SessionStarted => EventView::SessionStarted,
            SessionEvent::SessionCompleted => EventView::SessionCompleted,
            SessionEvent::UserMessageReceived => EventView::UserMessageReceived,
            SessionEvent::RoutingStarted => EventView::RoutingStarted,
            SessionEvent::RoutingCompleted => EventView::RoutingCompleted,
            SessionEvent::RoutingEscalated => EventView::RoutingEscalated,
            SessionEvent::EscalationStarted => EventView::EscalationStarted,
            SessionEvent::EscalationCompleted => EventView::EscalationCompleted,
            SessionEvent::ModelStarted { model } => EventView::ModelStarted(model@),
            SessionEvent::ModelDelta { delta } => EventView::ModelDelta(delta@),
            SessionEvent::ModelCompleted => EventView::ModelCompleted,
            SessionEvent::ToolStarted => EventView::ToolStarted,
            SessionEvent::ToolCompleted => EventView::ToolCompleted,
            SessionEvent::ToolFailed => EventView::ToolFailed,
            SessionEvent::Error { error } => EventView::Error(error@),
        }
    }
}

/// The views of a sequence of events.
pub open spec fn events_view(s: Seq<SessionEvent>) -> Seq<EventView> {
    s.map_values(|e: SessionEvent| e@)
}

/// The text of a message when it is a plain-text user turn: a user message
/// made of exactly one text part.
pub open spec fn plain_text_of(m: Message) -> Option<Seq<char>> {
    if m.role == Role::User && m.content@.len() == 1 {
        match m.content@[0] {
            ContentPart::Text(t) => Some(t@),
            _ => None,
        }
    } else {
        None
    }
}

/// The message text when a message is a plain-text user turn, `None`
/// otherwise (multimodal messages and non-user roles skip routing).
pub fn plain_user_text(message: &Message) -> (r: Option<String>)
    ensures
        r is Some <==> plain_text_of(*message) is Some,
        r matches Some(t) ==> t@ == plain_text_of(*message)->0,
{
    if message.role != Role::User || message.content.len() != 1 {
        return None;
    }
    match &message.content[0] {
        ContentPart::Text(text) => Some(text.clone()),
        _ => None,
    }
}

/// The text of the error a closed session gives to a send.
pub open spec fn closed_text(session_id: Seq<char>) -> Seq<char> {
    "session "@ + session_id + " is closed"@
}

/// The text of the error a send gives when no model is registered.
pub open spec fn no_model_text() -> Seq<char> {
    "no model registered with this runtime; use Noema::builder().with_model(..)"@
}

/// The text of the error a cloud escalation gives.
pub open spec fn cloud_escalation_text() -> Seq<char> {
    "cloud escalation requires a registered provider (cloud milestone)"@
}

/// The text of the error a denied escalation gives.
pub open spec fn denied_text(reason: Seq<char>) -> Seq<char> {
    "escalation denied by policy: "@ + reason
}

/// The escalation reason of a failed router.
pub open spec fn router_failed_text(error: NoemaError) -> Seq<char> {
    "router failed: "@ + noema_error_text(error)
}

/// Where a send stands.
#[derive(Debug, Clone, Copy, PartialEq, Eq, Structural)]
pub enum SendPhase {
    /// Waiting for the router's reply.
    Routing,
    /// Waiting for the model's reply.
    Generating,
    /// Reading the model's stream.
    Streaming,
    /// The send is over.
    Finished,
}

/// What the caller of a send does next.
#[derive(Debug)]
pub enum SendStep {
    /// Offer this text to the router and hand its reply to
    /// [`SendFlow::on_route`].
    Route(String),
    /// Run the model on the message and hand its reply to
    /// [`SendFlow::on_model`].
    Generate,
    /// Read the next chunk of the model's stream and hand it to
    /// [`SendFlow::on_chunk`].
    NextChunk,
    /// The send is over, with this outcome.
    Done(Result<SendOutcome, NoemaError>),
}

/// A model's reply, with a stream standing for the chunks the caller reads.
#[derive(Debug)]
pub enum ModelReply {
    /// A complete text response.
    Text {
        /// The full generated text.
        content: String,
        /// Usage metadata, when the backend reports it.
        usage: Option<Usage>,
    },
    /// A stream of chunks, read with [`SendStep::NextChunk`].
    Stream,
    /// The model requests escalation to a larger model.
    Escalate(EscalationRequest),
}

/// The decisions of one send.
#[derive(Debug)]
pub struct SendFlow {
    message: Message,
    model_id: String,
    escalated: bool,
    content: String,
    phase: SendPhase,
}

/// Whether a step ends the send with an error of the given category and
/// text.
pub open spec fn fails_with(step: SendStep, text: Seq<char>) -> bool {
    step matches SendStep::Done(Err(e)) && noema_error_text(e) == text
}

impl SendFlow {
    /// Where the send stands.
    pub closed spec fn phase(&self) -> SendPhase {
        self.phase
    }

    /// Whether the request went through an escalation.
    pub closed spec fn escalated(&self) -> bool {
        self.escalated
    }

    /// The text read from the model's stream so far.
    pub closed spec fn content(&self) -> Seq<char> {
        self.content@
    }

    /// The id of the model that answers.
    pub closed spec fn model_id(&self) -> Seq<char> {
        self.model_id@
    }

    /// The message being sent.
    pub closed spec fn message(&self) -> Message {
        self.message
    }

    /// The message being sent, for the model request.
    pub fn request_message(&self) -> (m: &Message)
        ensures
            *m == self.message(),
    {
        &self.message
    }

    /// Where the send stands.
    pub fn current_phase(&self) -> (p: SendPhase)
        ensures
            p == self.phase(),
    {
        self.phase
    }

    /// Starts a send. A closed session refuses it, and so does a session
    /// without a model; otherwise the user message is announced, and a
    /// plain-text user message goes to the router first when there is one,
    /// while anything else goes straight to the model.
    pub fn begin(
        state: SessionState,
        session_id: &str,
        model_id: Option<&str>,
        has_router: bool,
        message: Message,
    ) -> (r: (SendFlow, Vec<SessionEvent>, SendStep))
        ensures
            state == SessionState::Closed ==> r.1@.len() == 0 && fails_with(r.2, "session error: "@ + closed_text(session_id@))
                && r.0.phase() == SendPhase::Finished,
            state == SessionState::Active && model_id is None ==> r.1@.len() == 0 && fails_with(r.2, "model error: "@ + no_model_text())
                && r.0.phase() == SendPhase::Finished,
            state == SessionState::Active && model_id is Some ==> r.0.message() == message && r.0.model_id() == model_id->0@
                && !r.0.escalated() && r.0.content().len() == 0 && if has_router && plain_text_of(message) is Some {
                &&& r.0.phase() == SendPhase::Routing
                &&& r.2 matches SendStep::Route(t) && t@ == plain_text_of(message)->0
                &&& events_view(r.1@) == seq![EventView::UserMessageReceived, EventView::RoutingStarted]
            } else {
                &&& r.0.phase() == SendPhase::Generating
                &&& r.2 is Generate
                &&& events_view(r.1@) == seq![EventView::UserMessageReceived, EventView::ModelStarted(model_id->0@)]
            },
    {
        let mut events: Vec<SessionEvent> = Vec::new();
        let model = match model_id {
            Some(m) => string_of(m),
            None => String::new(),
        };
        if state == SessionState::Closed {
            let mut text = String::new();
            push_str(&mut text, "session ");
            push_str(&mut text, session_id);
            push_str(&mut text, " is closed");
            let flow = SendFlow { message, model_id: model, escalated: false, content: String::new(), phase: SendPhase::Finished };
            return (flow, events, SendStep::Done(Err(NoemaError::Session(text))));
        }
        if model_id.is_none() {
            let text = string_of("no model registered with this runtime; use Noema::builder().with_model(..)");
            let flow = SendFlow { message, model_id: model, escalated: false, content: String::new(), phase: SendPhase::Finished };
            return (flow, events, SendStep::Done(Err(NoemaError::Model(text))));
        }
        events.push(SessionEvent::UserMessageReceived);
        let routed = if has_router {
            plain_user_text(&message)
        } else {
            None
        };
        match routed {
            Some(text) => {
                events.push(SessionEvent::RoutingStarted);
                assert(events_view(events@) =~= seq![EventView::UserMessageReceived, EventView::RoutingStarted]);
                let flow = SendFlow { message, model_id: model, escalated: false, content: String::new(), phase: SendPhase::Routing };
                (flow, events, SendStep::Route(text))
            },
            None => {
                events.push(SessionEvent::ModelStarted { model: model.clone() });
                assert(events_view(events@) =~= seq![EventView::UserMessageReceived, EventView::ModelStarted(model@)]);
                let flow = SendFlow { message, model_id: model, escalated: false, content: String::new(), phase: SendPhase::Generating };
                (flow, events, SendStep::Generate)
            },
        }
    }

    /// Handles the router's reply. A handled request ends the send with the
    /// routed action; an escalation (or a router failure, which escalates
    /// with the failure as its reason) goes through the escalation policy:
    /// local escalation runs the model, cloud escalation is an error (no
    /// provider is wired), and a denied escalation is an error that is also
    /// published.
    pub fn on_route(&mut self, reply: Result<Route, NoemaError>, policy: &EscalationPolicy) -> (r: (
        Vec<SessionEvent>,
        SendStep,
    ))
        requires
            old(self).phase() == SendPhase::Routing,
        ensures
            final(self).message() == old(self).message(),
            final(self).model_id() == old(self).model_id(),
            final(self).content() == old(self).content(),
            reply matches Ok(Route::Action(a)) ==> {
                &&& events_view(r.0@) == seq![EventView::RoutingCompleted]
                &&& r.1 == SendStep::Done(Ok(SendOutcome::Routed(a)))
                &&& final(self).phase() == SendPhase::Finished
            },
            !(reply matches Ok(Route::Action(_))) ==> {
                let reason = match reply {
                    Ok(Route::Escalate { reason }) => reason@,
                    Err(e) => router_failed_text(e),
                    _ => Seq::empty(),
                };
                let head = match reply {
                    Err(e) => seq![EventView::RoutingEscalated, EventView::Error(noema_error_text(e))],
                    _ => seq![EventView::RoutingEscalated],
                };
                match escalation_target(policy.allow_local, policy.allow_cloud, policy.offline_only) {
                    EscalationDecision::Local => {
                        &&& events_view(r.0@) == head + seq![
                            EventView::EscalationStarted,
                            EventView::ModelStarted(old(self).model_id()),
                        ]
                        &&& r.1 is Generate
                        &&& final(self).phase() == SendPhase::Generating
                        &&& final(self).escalated()
                    },
                    EscalationDecision::Cloud => {
                        &&& events_view(r.0@) == head
                        &&& fails_with(r.1, "escalation error: "@ + cloud_escalation_text())
                        &&& final(self).phase() == SendPhase::Finished
                    },
                    EscalationDecision::Denied => {
                        &&& events_view(r.0@) == head + seq![EventView::Error(denied_text(reason))]
                        &&& fails_with(r.1, "escalation error: "@ + denied_text(reason))
                        &&& final(self).phase() == SendPhase::Finished
                    },
                }
            },
    {
        let mut events: Vec<SessionEvent> = Vec::new();
        let reason = match reply {
            Ok(Route::Action(action)) => {
                events.push(SessionEvent::RoutingCompleted);
                assert(events_view(events@) =~= seq![EventView::RoutingCompleted]);
                self.phase = SendPhase::Finished;
                return (events, SendStep::Done(Ok(SendOutcome::Routed(action))));
            },
            Ok(Route::Escalate { reason }) => {
                events.push(SessionEvent::RoutingEscalated);
                reason
            },
            Err(error) => {
                let text = error.message();
                events.push(SessionEvent::RoutingEscalated);
                events.push(SessionEvent::Error { error: text.clone() });
                let mut reason = string_of("router failed: ");
                push_str(&mut reason, text.as_str());
                reason
            },
        };
        let ghost head = events_view(events@);
        let request = EscalationRequest::new(reason.as_str(), vec![self.message.duplicate()]);
        match policy.decide(&request) {
            EscalationDecision::Local => {
                events.push(SessionEvent::EscalationStarted);
                events.push(SessionEvent::ModelStarted { model: self.model_id.clone() });
                assert(events_view(events@) =~= head + seq![
                    EventView::EscalationStarted,
                    EventView::ModelStarted(self.model_id@),
                ]);
                self.escalated = true;
                self.phase = SendPhase::Generating;
                (events, SendStep::Generate)
            },
            EscalationDecision::Cloud => {
                self.phase = SendPhase::Finished;
                let text = string_of("cloud escalation requires a registered provider (cloud milestone)");
                (events, SendStep::Done(Err(NoemaError::Escalation(text))))
            },
            EscalationDecision::Denied => {
                let mut text = string_of("escalation denied by policy: ");
                push_str(&mut text, reason.as_str());
                events.push(SessionEvent::Error { error: text.clone() });
                assert(events_view(events@) =~= head + seq![EventView::Error(text@)]);
                self.phase = SendPhase::Finished;
                (events, SendStep::Done(Err(NoemaError::Escalation(text))))
            },
        }
    }

    /// Handles the model's reply. A failure ends the send with it; a
    /// complete text is published (when not empty) and completes the
    /// send; a stream is read chunk by chunk; an escalation request is
    /// handed to the caller.
    pub fn on_model(&mut self, reply: Result<ModelReply, NoemaError>) -> (r: (Vec<SessionEvent>, SendStep))
        requires
            old(self).phase() == SendPhase::Generating,
        ensures
            final(self).message() == old(self).message(),
            final(self).model_id() == old(self).model_id(),
            final(self).escalated() == old(self).escalated(),
            final(self).content() == old(self).content(),
            reply matches Err(e) ==> r.0@.len() == 0 && r.1 == SendStep::Done(Err(e)) && final(self).phase()
                == SendPhase::Finished,
            reply matches Ok(ModelReply::Text { content, usage }) ==> {
                &&& events_view(r.0@) == (if content@.len() > 0 {
                    seq![EventView::ModelDelta(content@)]
                } else {
                    Seq::empty()
                }) + seq![EventView::ModelCompleted] + completion_events(old(self).escalated())
                &&& r.1 matches SendStep::Done(Ok(SendOutcome::Model(ModelAnswer::Text { content: c, usage: u })))
                    && c@ == content@ && u == usage
                &&& final(self).phase() == SendPhase::Finished
            },
            reply matches Ok(ModelReply::Stream) ==> r.0@.len() == 0 && r.1 is NextChunk && final(self).phase()
                == SendPhase::Streaming,
            reply matches Ok(ModelReply::Escalate(q)) ==> {
                &&& events_view(r.0@) == completion_events(old(self).escalated())
                &&& r.1 == SendStep::Done(Ok(SendOutcome::Model(ModelAnswer::Escalate(q))))
                &&& final(self).phase() == SendPhase::Finished
            },
    {
        let mut events: Vec<SessionEvent> = Vec::new();
        match reply {
            Err(error) => {
                self.phase = SendPhase::Finished;
                (events, SendStep::Done(Err(error)))
            },
            Ok(ModelReply::Text { content, usage }) => {
                if !content.as_str().is_empty() {
                    events.push(SessionEvent::ModelDelta { delta: content.clone() });
                }
                events.push(SessionEvent::ModelCompleted);
                if self.escalated {
                    events.push(SessionEvent::EscalationCompleted);
                }
                proof {
                    let front = if content@.len() > 0 {
                        seq![EventView::ModelDelta(content@)]
                    } else {
                        Seq::empty()
                    };
                    assert(events_view(events@) =~= front + seq![EventView::ModelCompleted] + completion_events(
                        self.escalated,
                    ));
                }
                self.phase = SendPhase::Finished;
                (events, SendStep::Done(Ok(SendOutcome::Model(ModelAnswer::Text { content, usage }))))
            },
            Ok(ModelReply::Stream) => {
                self.phase = SendPhase::Streaming;
                (events, SendStep::NextChunk)
            },
            Ok(ModelReply::Escalate(request)) => {
                if self.escalated {
                    events.push(SessionEvent::EscalationCompleted);
                }
                assert(events_view(events@) =~= completion_events(self.escalated));
                self.phase = SendPhase::Finished;
                (events, SendStep::Done(Ok(SendOutcome::Model(ModelAnswer::Escalate(request)))))
            },
        }
    }

    /// Handles the next item of the model's stream: a chunk's text is
    /// accumulated and published (when not empty), a failing chunk is
    /// published and ends the send with its error, and the end of the
    /// stream completes the send with the accumulated text and no usage.
    pub fn on_chunk(&mut self, chunk: Option<Result<ModelChunk, NoemaError>>) -> (r: (Vec<SessionEvent>, SendStep))
        requires
            old(self).phase() == SendPhase::Streaming,
        ensures
            final(self).message() == old(self).message(),
            final(self).model_id() == old(self).model_id(),
            final(self).escalated() == old(self).escalated(),
            chunk matches Some(Ok(c)) ==> {
                &&& final(self).content() == old(self).content() + c.delta@
                &&& events_view(r.0@) == (if c.delta@.len() > 0 {
                    seq![EventView::ModelDelta(c.delta@)]
                } else {
                    Seq::empty()
                })
                &&& r.1 is NextChunk
                &&& final(self).phase() == SendPhase::Streaming
            },
            chunk matches Some(Err(e)) ==> {
                &&& events_view(r.0@) == seq![EventView::Error(noema_error_text(e))]
                &&& r.1 == SendStep::Done(Err(e))
                &&& final(self).phase() == SendPhase::Finished
            },
            chunk is None ==> {
                &&& events_view(r.0@) == seq![EventView::ModelCompleted] + completion_events(old(self).escalated())
                &&& r.1 matches SendStep::Done(Ok(SendOutcome::Model(ModelAnswer::Text { content: c, usage: u })))
                    && c@ == old(self).content() && u is None
                &&& final(self).phase() == SendPhase::Finished
            },
    {
        let mut events: Vec<SessionEvent> = Vec::new();
        match chunk {
            Some(Ok(c)) => {
                if !c.delta.as_str().is_empty() {
                    push_str(&mut self.content, c.delta.as_str());
                    events.push(SessionEvent::ModelDelta { delta: c.delta });
                    assert(events_view(events@) =~= seq![EventView::ModelDelta(c.delta@)]);
                } else {
                    assert(self.content@ =~= old(self).content@ + c.delta@);
                    assert(events_view(events@) =~= Seq::<EventView>::empty());
                }
                (events, SendStep::NextChunk)
            },
            Some(Err(error)) => {
                events.push(SessionEvent::Error { error: error.message() });
                assert(events_view(events@) =~= seq![EventView::Error(noema_error_text(error))]);
                self.phase = SendPhase::Finished;
                (events, SendStep::Done(Err(error)))
            },
            None => {
                events.push(SessionEvent::ModelCompleted);
                if self.escalated {
                    events.push(SessionEvent::EscalationCompleted);
                }
                assert(events_view(events@) =~= seq![EventView::ModelCompleted] + completion_events(self.escalated));
                self.phase = SendPhase::Finished;
                let content = self.content.clone();
                (events, SendStep::Done(Ok(SendOutcome::Model(ModelAnswer::Text { content, usage: None }))))
            },
        }
    }
}

/// The events that close a model turn: an escalation completes when the
/// turn ran under one.
pub open spec fn completion_events(escalated: bool) -> Seq<EventView> {
    if escalated {
        seq![EventView::EscalationCompleted]
    } else {
        Seq::empty()
    }
}

/// The text of the error a second close gives.
pub open spec fn already_closed_text(session_id: Seq<char>) -> Seq<char> {
    "session "@ + session_id + " is already closed"@
}

/// Closes a session: an active session becomes closed and publishes its
/// completion; closing a closed session is an error and changes nothing.
pub fn close_session_state(state: &mut SessionState, session_id: &str) -> (r: Result<SessionEvent, NoemaError>)
    ensures
        *old(state) == SessionState::Active ==> *final(state) == SessionState::Closed && r matches Ok(
            SessionEvent::SessionCompleted,
        ),
        *old(state) == SessionState::Closed ==> *final(state) == SessionState::Closed && (r matches Err(
            NoemaError::Session(t),
        ) && t@ == already_closed_text(session_id@)),
{
    if *state == SessionState::Closed {
        let mut text = string_of("session ");
        push_str(&mut text, session_id);
        push_str(&mut text, " is already closed");
        return Err(NoemaError::Session(text));
    }
    *state = SessionState::Closed;
    Ok(SessionEvent::SessionCompleted)
}

/// The text of the error for closing a session the runtime does not know.
pub open spec fn unknown_session_text(session_id: Seq<char>) -> Seq<char> {
    "no such session: "@ + session_id
}

/// Closes a session of the runtime, given the state it has registered for
/// the id (`None` when the id is unknown): an unknown id and a closed
/// session are errors; an active session publishes its completion (and the
/// caller marks it closed).
pub fn close_registered_session(state: Option<SessionState>, session_id: &str) -> (r: Result<
    SessionEvent,
    NoemaError,
>)
    ensures
        state is None ==> (r matches Err(NoemaError::Session(t)) && t@ == unknown_session_text(session_id@)),
        state == Some(SessionState::Active) ==> r matches Ok(SessionEvent::SessionCompleted),
        state == Some(SessionState::Closed) ==> (r matches Err(NoemaError::Session(t)) && t@ == already_closed_text(
            session_id@,
        )),
{
    match state {
        None => {
            let mut text = string_of("no such session: ");
            push_str(&mut text, session_id);
            Err(NoemaError::Session(text))
        },
        Some(s) => {
            let mut current = s;
            close_session_state(&mut current, session_id)
        },
    }
}

/// Closing succeeds exactly once: after any close the session is closed,
/// and a closed session refuses every further close and every send.
pub proof fn law_close_once(state: SessionState)
    ensures
        close_next(state) == SessionState::Closed,
        !close_succeeds(close_next(state)),
        close_succeeds(state) <==> state == SessionState::Active,
{
}

/// Whether closing a session in this state succeeds.
pub open spec fn close_succeeds(state: SessionState) -> bool {
    state == SessionState::Active
}

/// The state after a close.
pub open spec fn close_next(state: SessionState) -> SessionState {
    SessionState::Closed
}

/// Whether a registry accepts a call: the tool is registered and the
/// arguments satisfy its schema.
pub open spec fn call_accepted(tools: Seq<RegisteredTool>, call: ToolCall) -> bool {
    exists|i: int|
        0 <= i < tools.len() && tool_name(#[trigger] tools[i]) == call.tool@ && arguments_valid(
            tools[i].schema.parameters@,
            call.arguments@,
        )
}

/// The text of the error for executing a tool without a registry.
pub open spec fn no_tools_text() -> Seq<char> {
    "no tools registered with this runtime"@
}

/// Checks a tool call before it runs: there must be a registry, and the
/// registry must accept the call. A refused call is a tool error carrying
/// the registry's refusal.
pub fn check_tool_call(tools: Option<&ToolRegistry>, call: &ToolCall) -> (r: Result<(), NoemaError>)
    ensures
        tools is None ==> (r matches Err(NoemaError::Tool(t)) && t@ == no_tools_text()),
        tools matches Some(reg) ==> (r is Ok <==> has_name(reg.tools(), call.tool@) && call_accepted(
            reg.tools(),
            *call,
        )),
        tools matches Some(reg) && !has_name(reg.tools(), call.tool@) ==> (r matches Err(NoemaError::Tool(t))
            && t@ == tool_error_text(ToolError::NotFound(call.tool))),
        r matches Err(e) ==> e is Tool,
{
    match tools {
        None => Err(NoemaError::Tool(string_of("no tools registered with this runtime"))),
        Some(reg) => match reg.validate_call(call) {
            Ok(()) => Ok(()),
            Err(error) => Err(NoemaError::from_tool_error(error)),
        },
    }
}

/// What a finished tool execution publishes and returns: success
/// publishes the tool's completion and returns its result; failure
/// publishes the tool's failure and returns a tool error with the failure's
/// text.
pub fn tool_outcome(result: Result<ToolResult, ToolError>) -> (r: (SessionEvent, Result<ToolResult, NoemaError>))
    ensures
        result matches Ok(v) ==> r.0 is ToolCompleted && r.1 == Ok::<ToolResult, NoemaError>(v),
        result matches Err(e) ==> r.0 is ToolFailed && (r.1 matches Err(NoemaError::Tool(t)) && t@
            == tool_error_text(e)),
{
    match result {
        Ok(value) => (SessionEvent::ToolCompleted, Ok(value)),
        Err(error) => (SessionEvent::ToolFailed, Err(NoemaError::from_tool_error(error))),
    }
}

/// Which formatter turns a semantic tool request into a call.
#[derive(Debug, Clone, Copy, PartialEq, Eq, Structural)]
pub enum FormatterChoice {
    /// The formatter registered for this tool.
    ForTool,
    /// The default formatter.
    Default,
}

/// The text of the error for formatting without any formatter.
pub open spec fn no_formatter_text() -> Seq<char> {
    "no tool formatter registered; use Noema::builder().with_tool_formatter(..) or .with_tool_formatter_for(..)"@
}

/// Picks the formatter for a tool: one registered for the tool wins, then
/// the default one; with neither, formatting is an error.
pub fn choose_formatter(has_tool_formatter: bool, has_default: bool) -> (r: Result<FormatterChoice, NoemaError>)
    ensures
        has_tool_formatter ==> r == Ok::<FormatterChoice, NoemaError>(FormatterChoice::ForTool),
        !has_tool_formatter && has_default ==> r == Ok::<FormatterChoice, NoemaError>(FormatterChoice::Default),
        !has_tool_formatter && !has_default ==> (r matches Err(NoemaError::Tool(t)) && t@ == no_formatter_text()),
{
    if has_tool_formatter {
        Ok(FormatterChoice::ForTool)
    } else if has_default {
        Ok(FormatterChoice::Default)
    } else {
        Err(NoemaError::Tool(
            string_of(
                "no tool formatter registered; use Noema::builder().with_tool_formatter(..) or .with_tool_formatter_for(..)",
            ),
        ))
    }
}

/// Checks a formatted call against the registry, when there is one: the
/// call is returned when the registry accepts it (or there is no
/// registry), and the refusal becomes a tool error otherwise.
pub fn check_formatted_call(tools: Option<&ToolRegistry>, call: ToolCall) -> (r: Result<ToolCall, NoemaError>)
    ensures
        tools is None ==> r == Ok::<ToolCall, NoemaError>(call),
        tools matches Some(reg) ==> (r is Ok <==> has_name(reg.tools(), call.tool@) && call_accepted(
            reg.tools(),
            call,
        )),
        r is Ok ==> r == Ok::<ToolCall, NoemaError>(call),
        r matches Err(e) ==> e is Tool,
{
    match tools {
        None => Ok(call),
        Some(reg) => match reg.validate_call(&call) {
            Ok(()) => Ok(call),
            Err(error) => Err(NoemaError::from_tool_error(error)),
        },
    }
}

} // verus!

//! Initial text routing: the outcome of routing a request, and what a
//! send produced.
//!
//! Plain-text user requests are routed before any reasoning model runs: a
//! lightweight router decides whether the request is a simple application
//! action ("open my flashcards", "go to settings") or whether it needs the
//! full model. Handled requests never invoke the reasoning model;
//! everything else escalates to it.

use vstd::prelude::*;
use crate::json::{JsonModel, JsonValue};
use crate::model::{EscalationRequest, Usage};
use crate::text::string_of;

verus! {

/// A simple application action produced by the initial text router. The
/// id names an entry of the application's action registry; the arguments
/// carry what the router extracted (an empty object for parameterless
/// actions). The router's confidence, a floating-point score, is kept by
/// the application layer.
#[derive(Debug)]
pub struct RoutedAction {
    /// The registry id of the action, e.g. `open_flashcards`.
    pub id: String,
    /// Structured arguments for the action.
    pub arguments: JsonValue,
}

impl RoutedAction {
    /// A routed action with the given id and no arguments.
    pub fn new(id: &str) -> (a: RoutedAction)
        ensures
            a.id@ == id@,
            a.arguments@ == JsonModel::Object(Seq::empty()),
    {
        RoutedAction { id: string_of(id), arguments: JsonValue::empty_object() }
    }
}

/// The outcome of routing a request.
#[derive(Debug)]
pub enum Route {
    /// The request maps to a simple application action.
    Action(RoutedAction),
    /// The request needs the reasoning model.
    Escalate {
        /// Why the router could not handle it.
        reason: String,
    },
}

/// A complete answer of the reasoning model.
#[derive(Debug)]
pub enum ModelAnswer {
    /// A complete text response.
    Text {
        /// The full generated text.
        content: String,
        /// Usage metadata, when the backend reports it.
        usage: Option<Usage>,
    },
    /// The model requests escalation to a larger model.
    Escalate(EscalationRequest),
}

/// What a send produced: either the router handled the request (the
/// reasoning model never ran), or the model answered it.
#[derive(Debug)]
pub enum SendOutcome {
    /// The request was routed to a simple application action.
    Routed(RoutedAction),
    /// The request went to the reasoning model, which answered.
    Model(ModelAnswer),
}

impl SendOutcome {
    /// The model answer, when the model produced this outcome.
    pub fn into_model(self) -> (r: Option<ModelAnswer>)
        ensures
            self matches SendOutcome::Model(a) ==> r == Some(a),
            self is Routed ==> r is None,
    {
        match self {
            SendOutcome::Routed(_) => None,
            SendOutcome::Model(answer) => Some(answer),
        }
    }

    /// The routed action, when the router handled the request.
    pub fn into_routed(self) -> (r: Option<RoutedAction>)
        ensures
            self matches SendOutcome::Routed(a) ==> r == Some(a),
            self is Model ==> r is None,
    {
        match self {
            SendOutcome::Routed(action) => Some(action),
            SendOutcome::Model(_) => None,
        }
    }

    /// Whether the router handled the request without the model.
    pub fn is_routed(&self) -> (b: bool)
        ensures
            b == (*self is Routed),
    {
        match self {
            SendOutcome::Routed(_) => true,
            SendOutcome::Model(_) => false,
        }
    }
}

} // verus!

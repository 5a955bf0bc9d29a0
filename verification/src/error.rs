//! Error categories, one per major system of the runtime.

use vstd::prelude::*;
use crate::text::push_str;
use crate::tools::{tool_error_text, ToolError};

verus! {

/// Errors, one category per major system. Each carries enough detail for
/// logging and debugging.
#[derive(Debug)]
pub enum NoemaError {
    /// A failure inside a model backend (Gemma, cloud, or other).
    Model(String),
    /// A failure in the Needle integration or its output.
    Needle(String),
    /// A failure in the initial text router.
    Router(String),
    /// A failure during tool execution.
    Tool(String),
    /// A failure in the memory integration.
    Memory(String),
    /// A failure in the human approval flow.
    Approval(String),
    /// A failure while assembling or optimizing context.
    Context(String),
    /// A failure during model escalation.
    Escalation(String),
    /// A failure tied to session lifecycle or state.
    Session(String),
    /// Invalid or unsupported configuration.
    Configuration(String),
}

/// The category prefix and detail of an error.
pub open spec fn noema_error_parts(e: NoemaError) -> (Seq<char>, Seq<char>) {
    match e {
        NoemaError::Model(s) => ("model error: "@, s@),
        NoemaError::Needle(s) => ("needle error: "@, s@),
        NoemaError::Router(s) => ("router error: "@, s@),
        NoemaError::Tool(s) => ("tool error: "@, s@),
        NoemaError::Memory(s) => ("memory error: "@, s@),
        NoemaError::Approval(s) => ("approval error: "@, s@),
        NoemaError::Context(s) => ("context error: "@, s@),
        NoemaError::Escalation(s) => ("escalation error: "@, s@),
        NoemaError::Session(s) => ("session error: "@, s@),
        NoemaError::Configuration(s) => ("configuration error: "@, s@),
    }
}

/// The display text of an error: its category, then its detail.
pub open spec fn noema_error_text(e: NoemaError) -> Seq<char> {
    noema_error_parts(e).0 + noema_error_parts(e).1
}

impl NoemaError {
    /// The display text of the error: its category, then its detail.
    pub fn message(&self) -> (m: String)
        ensures
            m@ == noema_error_text(*self),
    {
        let mut m = String::new();
        let (prefix, detail) = match self {
            NoemaError::Model(s) => ("model error: ", s),
            NoemaError::Needle(s) => ("needle error: ", s),
            NoemaError::Router(s) => ("router error: ", s),
            NoemaError::Tool(s) => ("tool error: ", s),
            NoemaError::Memory(s) => ("memory error: ", s),
            NoemaError::Approval(s) => ("approval error: ", s),
            NoemaError::Context(s) => ("context error: ", s),
            NoemaError::Escalation(s) => ("escalation error: ", s),
            NoemaError::Session(s) => ("session error: ", s),
            NoemaError::Configuration(s) => ("configuration error: ", s),
        };
        push_str(&mut m, prefix);
        push_str(&mut m, detail.as_str());
        m
    }

    /// Whether this is a session error.
    pub fn is_session(&self) -> (b: bool)
        ensures
            b == (*self is Session),
    {
        match self {
            NoemaError::Session(_) => true,
            _ => false,
        }
    }
}

impl NoemaError {
    /// The error a failed tool operation becomes: a tool error whose
    /// detail is the tool error's display text.
    pub fn from_tool_error(error: ToolError) -> (e: NoemaError)
        ensures
            e matches NoemaError::Tool(s) && s@ == tool_error_text(error),
    {
        NoemaError::Tool(error.message())
    }
}

impl From<ToolError> for NoemaError {
    /// See [`NoemaError::from_tool_error`].
    fn from(error: ToolError) -> (e: Self) {
        NoemaError::from_tool_error(error)
    }
}

/// What `from` returns is stated by [`NoemaError::from_tool_error`]: a
/// `Tool` error whose text is the tool error's display text. A string is
/// not determined here by its characters alone, so `from` is not claimed to
/// return this particular value.
impl vstd::std_specs::convert::FromSpecImpl<ToolError> for NoemaError {
    open spec fn obeys_from_spec() -> bool {
        false
    }

    open spec fn from_spec(error: ToolError) -> NoemaError {
        NoemaError::Tool(choose|s: String| s@ == tool_error_text(error))
    }
}

} // verus!

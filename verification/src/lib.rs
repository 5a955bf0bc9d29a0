//! Noema: the agent layer of Agora, as a verified library.
//!
//! The modules hold the logic of the runtime: tool schemas and the tool
//! registry, the risk-gated approval flow, escalation and configuration,
//! metrics, the session state machine, the text router and the tool
//! formatter decisions, and the wire-level helpers of the cloud provider.

pub mod text;
pub mod json;
pub mod hex;
pub mod decimal;
pub mod calendar;
pub mod risk;
pub mod tools;
pub mod registry;
pub mod approval;
pub mod approval_store;
pub mod model;
pub mod metrics;
pub mod config;
pub mod error;
pub mod escalation;
pub mod route;
pub mod session;
pub mod needle;
pub mod actions;
pub mod formatting;
pub mod provider;
pub mod bridge;
pub mod filesearch;
pub mod rig;
pub mod gemma;

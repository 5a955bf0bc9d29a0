//! Escalation policy.
//!
//! When the initial text router escalates a request (a low-confidence
//! route, a refusal, or a request no simple action matches), the runtime
//! consults an [`EscalationPolicy`] to decide where the request goes next:
//! the local reasoning model, a cloud provider, or nowhere. The offline
//! rule always wins: data never leaves the machine when it is set.
//!
//! The default policy escalates to the local reasoning model and never
//! touches the cloud.

use vstd::prelude::*;
use crate::config::NoemaConfig;
use crate::model::EscalationRequest;

verus! {

/// Where the runtime should send an escalated request.
#[derive(Debug, Clone, Copy, PartialEq, Eq, Structural)]
pub enum EscalationDecision {
    /// Run the local reasoning model.
    Local,
    /// Send the request to a cloud provider.
    Cloud,
    /// Escalation is not permitted under the current policy; the request
    /// cannot be completed.
    Denied,
}

/// Configuration governing what happens when the router escalates (the
/// cost ceiling, a floating-point amount, is kept by the application
/// layer).
#[derive(Debug, Clone, PartialEq)]
pub struct EscalationPolicy {
    /// Escalate to the local reasoning model when the router is uncertain.
    pub allow_local: bool,
    /// Escalate to a cloud provider; always overridden by
    /// [`Self::offline_only`].
    pub allow_cloud: bool,
    /// The preferred provider id when cloud escalation is allowed; `None`
    /// lets the runtime pick.
    pub preferred_provider: Option<String>,
    /// Maximum accepted latency per cloud escalation, in milliseconds.
    pub maximum_latency_ms: Option<u64>,
    /// When true, data never leaves the machine: cloud escalation is denied
    /// regardless of every other setting.
    pub offline_only: bool,
}

/// Where a policy with these switches sends an escalated request.
pub open spec fn escalation_target(allow_local: bool, allow_cloud: bool, offline_only: bool) -> EscalationDecision {
    if allow_local {
        EscalationDecision::Local
    } else if allow_cloud && !offline_only {
        EscalationDecision::Cloud
    } else {
        EscalationDecision::Denied
    }
}

impl Default for EscalationPolicy {
    /// Escalate to the local model, never the cloud.
    fn default() -> (p: Self)
        ensures
            p.allow_local,
            !p.allow_cloud,
            p.preferred_provider is None,
            p.maximum_latency_ms is None,
            !p.offline_only,
    {
        EscalationPolicy {
            allow_local: true,
            allow_cloud: false,
            preferred_provider: None,
            maximum_latency_ms: None,
            offline_only: false,
        }
    }
}

fn copy_text(s: &Option<String>) -> (r: Option<String>)
    ensures
        r is Some <==> s is Some,
        r matches Some(t) ==> t@ == s->0@,
{
    match s {
        Some(t) => Some(t.clone()),
        None => None,
    }
}

impl EscalationPolicy {
    /// Builds a policy from a runtime configuration: local escalation is
    /// always allowed, the cloud settings come from the cloud section, and
    /// offline mode forces [`Self::offline_only`].
    pub fn from_config(config: &NoemaConfig) -> (p: EscalationPolicy)
        ensures
            p.allow_local,
            p.allow_cloud == config.cloud.enabled,
            p.preferred_provider is Some <==> config.cloud.preferred_provider is Some,
            p.preferred_provider matches Some(t) ==> t@ == config.cloud.preferred_provider->0@,
            p.maximum_latency_ms == config.cloud.maximum_latency_ms,
            p.offline_only == config.offline_mode,
    {
        EscalationPolicy {
            allow_local: true,
            allow_cloud: config.cloud.enabled,
            preferred_provider: copy_text(&config.cloud.preferred_provider),
            maximum_latency_ms: config.cloud.maximum_latency_ms,
            offline_only: config.offline_mode,
        }
    }

    /// Decides where an escalated request goes: locally by default; to the
    /// cloud only when local escalation is disabled and cloud escalation is
    /// permitted and not offline; denied when neither target is permitted.
    pub fn decide(&self, _request: &EscalationRequest) -> (d: EscalationDecision)
        ensures
            d == escalation_target(self.allow_local, self.allow_cloud, self.offline_only),
    {
        if self.allow_local {
            EscalationDecision::Local
        } else if self.allow_cloud && !self.offline_only {
            EscalationDecision::Cloud
        } else {
            EscalationDecision::Denied
        }
    }
}

/// Offline mode always wins: an offline policy never sends a request to
/// the cloud, whatever its other switches.
pub proof fn law_offline_never_cloud(allow_local: bool, allow_cloud: bool)
    ensures
        escalation_target(allow_local, allow_cloud, true) != EscalationDecision::Cloud,
{
}

/// The cloud is chosen only when local escalation is disabled and cloud
/// escalation is allowed; a request is denied only when no target is
/// permitted.
pub proof fn law_cloud_only_without_local(allow_local: bool, allow_cloud: bool, offline_only: bool)
    ensures
        escalation_target(allow_local, allow_cloud, offline_only) == EscalationDecision::Cloud <==> !allow_local
            && allow_cloud && !offline_only,
        escalation_target(allow_local, allow_cloud, offline_only) == EscalationDecision::Denied <==> !allow_local
            && (!allow_cloud || offline_only),
{
}

/// A policy built from a configuration allows local escalation, so it
/// sends every escalated request to the local model.
pub proof fn law_config_policy_escalates_locally(config: NoemaConfig)
    ensures
        escalation_target(true, config.cloud.enabled, config.offline_mode) == EscalationDecision::Local,
{
}

} // verus!

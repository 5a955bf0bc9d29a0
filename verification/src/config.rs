//! Strongly typed runtime configuration.
//!
//! Every section has a default; construct a [`NoemaConfig`] with
//! `NoemaConfig::default()` and override what you need. Model paths are
//! held as text.

use vstd::prelude::*;
use crate::approval::{timeout_in_range, ApprovalPolicy};
use crate::risk::RiskLevel;

verus! {

#[verifier::external_type_specification]
#[verifier::external_body]
pub struct ExTracingLevel(tracing::Level);

/// Logging verbosity, from fully silent to maximally verbose.
#[derive(Debug, Clone, Copy, PartialEq, Eq, Structural, Hash)]
pub enum LogLevel {
    /// No logging at all.
    Off,
    /// Errors only.
    Error,
    /// Warnings and errors.
    Warn,
    /// Informational messages and above.
    Info,
    /// Debugging messages and above.
    Debug,
    /// Everything.
    Trace,
}

impl Default for LogLevel {
    fn default() -> (l: Self)
        ensures
            l == LogLevel::Info,
    {
        LogLevel::Info
    }
}

/// The five verbosity levels of `tracing`, from least to most verbose.
#[derive(Debug, Clone, Copy, PartialEq, Eq, Structural, Hash)]
pub enum TracingLevel {
    /// `tracing::Level::ERROR`.
    Error,
    /// `tracing::Level::WARN`.
    Warn,
    /// `tracing::Level::INFO`.
    Info,
    /// `tracing::Level::DEBUG`.
    Debug,
    /// `tracing::Level::TRACE`.
    Trace,
}

/// The `tracing::Level` constant of a level (an opaque value here).
pub uninterp spec fn tracing_level_of(level: TracingLevel) -> tracing::Level;

/// The `tracing::Level::ERROR` constant, named [`tracing_level_of`] of
/// [`TracingLevel::Error`].
#[verifier::external_body]
fn tracing_error() -> (l: tracing::Level)
    ensures
        l == tracing_level_of(TracingLevel::Error),
{
    tracing::Level::ERROR
}

/// The `tracing::Level::WARN` constant, named [`tracing_level_of`] of
/// [`TracingLevel::Warn`].
#[verifier::external_body]
fn tracing_warn() -> (l: tracing::Level)
    ensures
        l == tracing_level_of(TracingLevel::Warn),
{
    tracing::Level::WARN
}

/// The `tracing::Level::INFO` constant, named [`tracing_level_of`] of
/// [`TracingLevel::Info`].
#[verifier::external_body]
fn tracing_info() -> (l: tracing::Level)
    ensures
        l == tracing_level_of(TracingLevel::Info),
{
    tracing::Level::INFO
}

/// The `tracing::Level::DEBUG` constant, named [`tracing_level_of`] of
/// [`TracingLevel::Debug`].
#[verifier::external_body]
fn tracing_debug() -> (l: tracing::Level)
    ensures
        l == tracing_level_of(TracingLevel::Debug),
{
    tracing::Level::DEBUG
}

/// The `tracing::Level::TRACE` constant, named [`tracing_level_of`] of
/// [`TracingLevel::Trace`].
#[verifier::external_body]
fn tracing_trace() -> (l: tracing::Level)
    ensures
        l == tracing_level_of(TracingLevel::Trace),
{
    tracing::Level::TRACE
}

/// The `tracing` level a log level names (`None` for `Off`).
pub open spec fn tracing_level_name(level: LogLevel) -> Option<TracingLevel> {
    match level {
        LogLevel::Off => None,
        LogLevel::Error => Some(TracingLevel::Error),
        LogLevel::Warn => Some(TracingLevel::Warn),
        LogLevel::Info => Some(TracingLevel::Info),
        LogLevel::Debug => Some(TracingLevel::Debug),
        LogLevel::Trace => Some(TracingLevel::Trace),
    }
}

impl LogLevel {
    /// Maps to the `tracing` level of the same name, or `None` for
    /// [`Off`](Self::Off).
    pub fn as_tracing_level(&self) -> (r: Option<tracing::Level>)
        ensures
            r == match tracing_level_name(*self) {
                Some(t) => Some(tracing_level_of(t)),
                None => None,
            },
    {
        match self {
            LogLevel::Off => None,
            LogLevel::Error => Some(tracing_error()),
            LogLevel::Warn => Some(tracing_warn()),
            LogLevel::Info => Some(tracing_info()),
            LogLevel::Debug => Some(tracing_debug()),
            LogLevel::Trace => Some(tracing_trace()),
        }
    }
}

/// What a request to set up logging does.
#[derive(Debug, Clone, Copy, PartialEq, Eq, Structural)]
pub enum LoggingSetup {
    /// Logging was set up before: the request is ignored.
    AlreadyInitialized,
    /// The level is [`LogLevel::Off`]: logging stays uninitialized, which
    /// makes every log call a no-op.
    LeaveUninitialized,
    /// Install the global subscriber at this level.
    Install(LogLevel),
}

/// Decides what a request to set up logging at `level` does: only the
/// first request takes effect, and `Off` installs nothing.
pub fn logging_setup(already_initialized: bool, level: LogLevel) -> (s: LoggingSetup)
    ensures
        s == (if already_initialized {
            LoggingSetup::AlreadyInitialized
        } else if level == LogLevel::Off {
            LoggingSetup::LeaveUninitialized
        } else {
            LoggingSetup::Install(level)
        }),
{
    if already_initialized {
        LoggingSetup::AlreadyInitialized
    } else if level == LogLevel::Off {
        LoggingSetup::LeaveUninitialized
    } else {
        LoggingSetup::Install(level)
    }
}

/// Gemma configuration.
#[derive(Debug, Clone, PartialEq)]
pub struct GemmaConfig {
    /// Whether the local Gemma model is enabled.
    pub enabled: bool,
    /// Path to the Gemma model artifacts.
    pub model_path: Option<String>,
}

impl Default for GemmaConfig {
    fn default() -> (c: Self)
        ensures
            !c.enabled,
            c.model_path is None,
    {
        GemmaConfig { enabled: false, model_path: None }
    }
}

/// Needle configuration.
#[derive(Debug, Clone, PartialEq)]
pub struct NeedleConfig {
    /// Whether the local Needle model is enabled.
    pub enabled: bool,
    /// Path to the Needle model artifacts.
    pub model_path: Option<String>,
}

impl Default for NeedleConfig {
    fn default() -> (c: Self)
        ensures
            !c.enabled,
            c.model_path is None,
    {
        NeedleConfig { enabled: false, model_path: None }
    }
}

/// Cloud escalation configuration (the cost ceiling, a floating-point
/// amount, is kept by the application layer).
#[derive(Debug, Clone, PartialEq)]
pub struct CloudConfig {
    /// Whether cloud escalation is permitted at all.
    pub enabled: bool,
    /// The preferred provider id (e.g. `gemini`, `openai`).
    pub preferred_provider: Option<String>,
    /// Maximum allowed latency per escalation, in milliseconds.
    pub maximum_latency_ms: Option<u64>,
}

impl Default for CloudConfig {
    fn default() -> (c: Self)
        ensures
            !c.enabled,
            c.preferred_provider is None,
            c.maximum_latency_ms is None,
    {
        CloudConfig { enabled: false, preferred_provider: None, maximum_latency_ms: None }
    }
}

/// Memory configuration.
#[derive(Debug, Clone, Copy, PartialEq, Eq)]
pub struct MemoryConfig {
    /// Whether memory retrieval and writing are enabled.
    pub enabled: bool,
}

impl Default for MemoryConfig {
    fn default() -> (c: Self)
        ensures
            !c.enabled,
    {
        MemoryConfig { enabled: false }
    }
}

/// Tool-set configuration.
#[derive(Debug, Clone, Copy, PartialEq, Eq)]
pub struct ToolsConfig {
    /// Whether tools are enabled at all.
    pub enabled: bool,
    /// Whether the default tool set is included.
    pub include_default_set: bool,
}

impl Default for ToolsConfig {
    fn default() -> (c: Self)
        ensures
            c.enabled,
            c.include_default_set,
    {
        ToolsConfig { enabled: true, include_default_set: true }
    }
}

/// Risk-policy configuration.
#[derive(Debug, Clone, Copy, PartialEq, Eq)]
pub struct RiskConfig {
    /// Tool calls at or above this level require human approval; `None`
    /// means risk alone never requires approval.
    pub require_approval_above: Option<RiskLevel>,
}

impl Default for RiskConfig {
    fn default() -> (c: Self)
        ensures
            c.require_approval_above == Some(RiskLevel::High),
    {
        RiskConfig { require_approval_above: Some(RiskLevel::High) }
    }
}

/// Approval-policy configuration.
#[derive(Debug, Clone, Copy, PartialEq, Eq)]
pub struct ApprovalConfig {
    /// Whether the human-approval flow is enabled at all.
    pub enabled: bool,
    /// How long a pending approval stays valid, in seconds; `None` means
    /// approvals never expire.
    pub timeout_seconds: Option<u64>,
}

impl Default for ApprovalConfig {
    fn default() -> (c: Self)
        ensures
            c.enabled,
            c.timeout_seconds == Some(300u64),
    {
        ApprovalConfig { enabled: true, timeout_seconds: Some(300) }
    }
}

/// Resource limits that prevent runaway agent loops.
#[derive(Debug, Clone, Copy, PartialEq, Eq)]
pub struct LimitsConfig {
    /// Maximum agent-loop iterations per user request.
    pub max_agent_iterations: usize,
    /// Maximum tool calls per user request.
    pub max_tool_calls: usize,
    /// Maximum tool-call depth (nested calls).
    pub max_tool_call_depth: usize,
    /// Maximum context size in tokens.
    pub max_context_tokens: usize,
    /// Maximum response length in tokens.
    pub max_response_tokens: usize,
    /// Maximum tool execution time, in seconds.
    pub max_tool_execution_seconds: u64,
    /// Maximum cloud escalations per user request.
    pub max_cloud_escalations: usize,
    /// Maximum concurrently executing tools.
    pub max_concurrent_tools: usize,
}

impl Default for LimitsConfig {
    fn default() -> (c: Self)
        ensures
            c.max_agent_iterations == 20,
            c.max_tool_calls == 50,
            c.max_tool_call_depth == 4,
            c.max_context_tokens == 8192,
            c.max_response_tokens == 2048,
            c.max_tool_execution_seconds == 120,
            c.max_cloud_escalations == 3,
            c.max_concurrent_tools == 4,
    {
        LimitsConfig {
            max_agent_iterations: 20,
            max_tool_calls: 50,
            max_tool_call_depth: 4,
            max_context_tokens: 8192,
            max_response_tokens: 2048,
            max_tool_execution_seconds: 120,
            max_cloud_escalations: 3,
            max_concurrent_tools: 4,
        }
    }
}

/// Logging configuration.
#[derive(Debug, Clone, Copy, PartialEq, Eq)]
pub struct LoggingConfig {
    /// The global verbosity level.
    pub level: LogLevel,
}

impl Default for LoggingConfig {
    fn default() -> (c: Self)
        ensures
            c.level == LogLevel::Info,
    {
        LoggingConfig { level: LogLevel::Info }
    }
}

/// Streaming / event configuration.
#[derive(Debug, Clone, Copy, PartialEq, Eq)]
pub struct StreamingConfig {
    /// Whether streaming is enabled.
    pub enabled: bool,
    /// Capacity of the event bus channel per runtime.
    pub event_capacity: usize,
}

impl Default for StreamingConfig {
    fn default() -> (c: Self)
        ensures
            c.enabled,
            c.event_capacity == 1024,
    {
        StreamingConfig { enabled: true, event_capacity: 1024 }
    }
}

/// The complete typed configuration for a runtime.
#[derive(Debug, Clone, PartialEq)]
pub struct NoemaConfig {
    /// Gemma configuration.
    pub gemma: GemmaConfig,
    /// Needle configuration.
    pub needle: NeedleConfig,
    /// Cloud escalation configuration.
    pub cloud: CloudConfig,
    /// Memory configuration.
    pub memory: MemoryConfig,
    /// Tool-set configuration.
    pub tools: ToolsConfig,
    /// Risk-policy configuration.
    pub risk: RiskConfig,
    /// Approval-policy configuration.
    pub approval: ApprovalConfig,
    /// Resource limits that prevent runaway agent loops.
    pub limits: LimitsConfig,
    /// Logging configuration.
    pub logging: LoggingConfig,
    /// Streaming / event configuration.
    pub streaming: StreamingConfig,
    /// When true, no data ever leaves the machine: cloud escalation is
    /// disabled regardless of other settings.
    pub offline_mode: bool,
}

impl Default for NoemaConfig {
    fn default() -> (c: Self)
        ensures
            !c.gemma.enabled && c.gemma.model_path is None,
            !c.needle.enabled && c.needle.model_path is None,
            !c.cloud.enabled && c.cloud.preferred_provider is None && c.cloud.maximum_latency_ms is None,
            !c.memory.enabled,
            c.tools == (ToolsConfig { enabled: true, include_default_set: true }),
            c.risk.require_approval_above == Some(RiskLevel::High),
            c.approval == (ApprovalConfig { enabled: true, timeout_seconds: Some(300) }),
            c.limits == (LimitsConfig {
                max_agent_iterations: 20,
                max_tool_calls: 50,
                max_tool_call_depth: 4,
                max_context_tokens: 8192,
                max_response_tokens: 2048,
                max_tool_execution_seconds: 120,
                max_cloud_escalations: 3,
                max_concurrent_tools: 4,
            }),
            c.logging.level == LogLevel::Info,
            c.streaming == (StreamingConfig { enabled: true, event_capacity: 1024 }),
            !c.offline_mode,
    {
        NoemaConfig {
            gemma: GemmaConfig::default(),
            needle: NeedleConfig::default(),
            cloud: CloudConfig::default(),
            memory: MemoryConfig::default(),
            tools: ToolsConfig::default(),
            risk: RiskConfig::default(),
            approval: ApprovalConfig::default(),
            limits: LimitsConfig::default(),
            logging: LoggingConfig::default(),
            streaming: StreamingConfig::default(),
            offline_mode: false,
        }
    }
}

/// Builds the approval policy from a runtime configuration: a disabled
/// approval flow never pauses execution (no threshold, no timeout);
/// otherwise the threshold comes from the risk section and the timeout
/// from the approval section.
pub fn approval_policy_from_config(config: &NoemaConfig) -> (p: ApprovalPolicy)
    ensures
        !config.approval.enabled ==> p.require_approval_above is None && p.timeout_nanos is None,
        config.approval.enabled ==> p.require_approval_above == config.risk.require_approval_above
            && p.timeout_nanos == match config.approval.timeout_seconds {
                Some(t) => Some((t * 1_000_000_000) as u128),
                None => None::<u128>,
            },
        timeout_in_range(p.timeout_nanos),
{
    if !config.approval.enabled {
        return ApprovalPolicy { require_approval_above: None, timeout_nanos: None };
    }
    let timeout_nanos = match config.approval.timeout_seconds {
        Some(t) => {
            assert(t * 1_000_000_000 <= u64::MAX * 1_000_000_000) by (nonlinear_arith)
                requires t <= u64::MAX;
            Some((t as u128) * 1_000_000_000u128)
        },
        None => None,
    };
    ApprovalPolicy { require_approval_above: config.risk.require_approval_above, timeout_nanos }
}

} // verus!

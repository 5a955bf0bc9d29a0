//! Observability: content-free, aggregate metrics for a runtime.
//!
//! Every model turn, tool call, and escalation is recorded by a
//! [`MetricsCollector`] and surfaced as a [`MetricsSnapshot`]. Metrics
//! carry identifiers, counts, latencies, and token totals — never message
//! content.

use vstd::prelude::*;
use crate::model::Usage;
use crate::text::{str_eq, string_of};

verus! {

/// Per-model aggregate metrics.
#[derive(Debug, Clone, Copy, PartialEq, Eq, Structural)]
pub struct ModelMetrics {
    /// Model turns completed.
    pub turns: u64,
    /// Input tokens reported across turns.
    pub input_tokens: u64,
    /// Output tokens reported across turns.
    pub output_tokens: u64,
    /// Total latency across turns, in milliseconds.
    pub latency_ms: u64,
}

impl Default for ModelMetrics {
    fn default() -> (m: Self)
        ensures
            m == (ModelMetrics { turns: 0, input_tokens: 0, output_tokens: 0, latency_ms: 0 }),
    {
        ModelMetrics { turns: 0, input_tokens: 0, output_tokens: 0, latency_ms: 0 }
    }
}

impl ModelMetrics {
    /// Total tokens reported for this model.
    pub fn total_tokens(&self) -> (t: u64)
        requires
            self.input_tokens + self.output_tokens <= u64::MAX,
        ensures
            t == self.input_tokens + self.output_tokens,
    {
        self.input_tokens + self.output_tokens
    }
}

/// Per-tool aggregate metrics.
#[derive(Debug, Clone, Copy, PartialEq, Eq, Structural)]
pub struct ToolMetrics {
    /// Tool calls executed.
    pub calls: u64,
    /// Tool calls that failed.
    pub failures: u64,
    /// Total execution latency, in milliseconds.
    pub latency_ms: u64,
}

impl Default for ToolMetrics {
    fn default() -> (m: Self)
        ensures
            m == (ToolMetrics { calls: 0, failures: 0, latency_ms: 0 }),
    {
        ToolMetrics { calls: 0, failures: 0, latency_ms: 0 }
    }
}

impl ToolMetrics {
    /// Whether every call so far succeeded.
    pub fn all_succeeded(&self) -> (b: bool)
        ensures
            b == (self.failures == 0),
    {
        self.failures == 0
    }
}

/// Aggregate escalation metrics.
#[derive(Debug, Clone, Copy, PartialEq, Eq, Structural)]
pub struct EscalationMetrics {
    /// Escalations started (local and cloud).
    pub escalations: u64,
    /// Escalations that ran a cloud provider.
    pub cloud_escalations: u64,
    /// Total cloud-provider latency, in milliseconds.
    pub latency_ms: u64,
}

impl Default for EscalationMetrics {
    fn default() -> (m: Self)
        ensures
            m == (EscalationMetrics { escalations: 0, cloud_escalations: 0, latency_ms: 0 }),
    {
        EscalationMetrics { escalations: 0, cloud_escalations: 0, latency_ms: 0 }
    }
}

/// A counter of a model entry.
#[derive(Debug, Clone, Copy, PartialEq, Eq, Structural)]
pub enum ModelCounter {
    /// Model turns.
    Turns,
    /// Input tokens.
    InputTokens,
    /// Output tokens.
    OutputTokens,
    /// Latency, in milliseconds.
    LatencyMs,
}

/// A counter of a tool entry.
#[derive(Debug, Clone, Copy, PartialEq, Eq, Structural)]
pub enum ToolCounter {
    /// Calls.
    Calls,
    /// Failed calls.
    Failures,
    /// Latency, in milliseconds.
    LatencyMs,
}

/// The value of one counter of a model entry.
pub open spec fn model_counter(m: ModelMetrics, c: ModelCounter) -> u64 {
    match c {
        ModelCounter::Turns => m.turns,
        ModelCounter::InputTokens => m.input_tokens,
        ModelCounter::OutputTokens => m.output_tokens,
        ModelCounter::LatencyMs => m.latency_ms,
    }
}

/// The value of one counter of a tool entry.
pub open spec fn tool_counter(t: ToolMetrics, c: ToolCounter) -> u64 {
    match c {
        ToolCounter::Calls => t.calls,
        ToolCounter::Failures => t.failures,
        ToolCounter::LatencyMs => t.latency_ms,
    }
}

fn model_counter_value(m: ModelMetrics, c: ModelCounter) -> (v: u64)
    ensures
        v == model_counter(m, c),
{
    match c {
        ModelCounter::Turns => m.turns,
        ModelCounter::InputTokens => m.input_tokens,
        ModelCounter::OutputTokens => m.output_tokens,
        ModelCounter::LatencyMs => m.latency_ms,
    }
}

fn tool_counter_value(t: ToolMetrics, c: ToolCounter) -> (v: u64)
    ensures
        v == tool_counter(t, c),
{
    match c {
        ToolCounter::Calls => t.calls,
        ToolCounter::Failures => t.failures,
        ToolCounter::LatencyMs => t.latency_ms,
    }
}

/// Keyed entries, each key taken by its characters.
pub open spec fn entries_view<V>(s: Seq<(String, V)>) -> Seq<(Seq<char>, V)> {
    Seq::new(s.len(), |i: int| (s[i].0@, s[i].1))
}

/// The sum of one counter over the model entries.
pub open spec fn sum_models(s: Seq<(Seq<char>, ModelMetrics)>, c: ModelCounter) -> int
    decreases s.len(),
{
    if s.len() == 0 {
        0
    } else {
        sum_models(s.drop_last(), c) + model_counter(s.last().1, c)
    }
}

/// The sum of one counter over the tool entries.
pub open spec fn sum_tools(s: Seq<(Seq<char>, ToolMetrics)>, c: ToolCounter) -> int
    decreases s.len(),
{
    if s.len() == 0 {
        0
    } else {
        sum_tools(s.drop_last(), c) + tool_counter(s.last().1, c)
    }
}

/// The position of the first entry with this key, or the number of
/// entries when none has it.
pub open spec fn key_index<V>(s: Seq<(Seq<char>, V)>, key: Seq<char>) -> int
    decreases s.len(),
{
    if s.len() == 0 {
        0
    } else if s[0].0 == key {
        0
    } else {
        1 + key_index(s.drop_first(), key)
    }
}

/// No key has two entries.
pub open spec fn unique_keys<V>(s: Seq<(Seq<char>, V)>) -> bool {
    forall|i: int, j: int| 0 <= i < j < s.len() ==> (#[trigger] s[i]).0 != (#[trigger] s[j]).0
}

/// The entries after the entry for `key` becomes `v`: replaced in place
/// when the key has an entry, appended otherwise.
pub open spec fn upsert<V>(s: Seq<(Seq<char>, V)>, key: Seq<char>, v: V) -> Seq<(Seq<char>, V)> {
    let i = key_index(s, key);
    if i < s.len() {
        s.update(i, (key, v))
    } else {
        s.push((key, v))
    }
}

/// The all-zero model entry.
pub open spec fn zero_model() -> ModelMetrics {
    ModelMetrics { turns: 0, input_tokens: 0, output_tokens: 0, latency_ms: 0 }
}

/// The all-zero tool entry.
pub open spec fn zero_tool() -> ToolMetrics {
    ToolMetrics { calls: 0, failures: 0, latency_ms: 0 }
}

/// The entry for a model (all zero when it has none).
pub open spec fn model_entry(s: Seq<(Seq<char>, ModelMetrics)>, model: Seq<char>) -> ModelMetrics {
    let i = key_index(s, model);
    if i < s.len() {
        s[i].1
    } else {
        zero_model()
    }
}

/// The entry for a tool (all zero when it has none).
pub open spec fn tool_entry(s: Seq<(Seq<char>, ToolMetrics)>, tool: Seq<char>) -> ToolMetrics {
    let i = key_index(s, tool);
    if i < s.len() {
        s[i].1
    } else {
        zero_tool()
    }
}

/// A model entry after one more turn: one more turn, the latency added,
/// and the usage tokens added when reported.
pub open spec fn bump_model(m: ModelMetrics, latency_ms: u64, usage: Option<Usage>) -> ModelMetrics {
    ModelMetrics {
        turns: (m.turns + 1) as u64,
        latency_ms: (m.latency_ms + latency_ms) as u64,
        input_tokens: match usage {
            Some(u) => (m.input_tokens + u.input_tokens) as u64,
            None => m.input_tokens,
        },
        output_tokens: match usage {
            Some(u) => (m.output_tokens + u.output_tokens) as u64,
            None => m.output_tokens,
        },
    }
}

/// A tool entry after one more call: one more call, one more failure when
/// it failed, and the latency added.
pub open spec fn bump_tool(t: ToolMetrics, latency_ms: u64, success: bool) -> ToolMetrics {
    ToolMetrics {
        calls: (t.calls + 1) as u64,
        failures: if success { t.failures } else { (t.failures + 1) as u64 },
        latency_ms: (t.latency_ms + latency_ms) as u64,
    }
}

/// Recording a model turn keeps every counter of its entry within `u64`.
pub open spec fn model_turn_fits(
    s: Seq<(Seq<char>, ModelMetrics)>,
    model: Seq<char>,
    latency_ms: u64,
    usage: Option<Usage>,
) -> bool {
    let m = model_entry(s, model);
    &&& m.turns + 1 <= u64::MAX
    &&& m.latency_ms + latency_ms <= u64::MAX
    &&& match usage {
        Some(u) => m.input_tokens + u.input_tokens <= u64::MAX && m.output_tokens + u.output_tokens
            <= u64::MAX,
        None => true,
    }
}

/// Recording a tool call keeps every counter of its entry within `u64`
/// (the failure count grows only for a failed call).
pub open spec fn tool_call_fits(s: Seq<(Seq<char>, ToolMetrics)>, tool: Seq<char>, latency_ms: u64, success: bool) -> bool {
    let t = tool_entry(s, tool);
    &&& t.calls + 1 <= u64::MAX
    &&& !success ==> t.failures + 1 <= u64::MAX
    &&& t.latency_ms + latency_ms <= u64::MAX
}

/// No tool has failed more often than it was called.
pub open spec fn failures_within_calls(s: Seq<(Seq<char>, ToolMetrics)>) -> bool {
    forall|i: int| 0 <= i < s.len() ==> (#[trigger] s[i]).1.failures <= s[i].1.calls
}

/// Recording a tool call keeps every tool's failures within its calls.
pub proof fn law_failures_within_calls(
    s: Seq<(Seq<char>, ToolMetrics)>,
    key: Seq<char>,
    latency_ms: u64,
    success: bool,
)
    requires
        failures_within_calls(s),
        tool_call_fits(s, key, latency_ms, success),
    ensures
        failures_within_calls(upsert(s, key, bump_tool(tool_entry(s, key), latency_ms, success))),
{
    lemma_key_index_bound(s, key);
    let i = key_index(s, key);
    let v = bump_tool(tool_entry(s, key), latency_ms, success);
    let t = upsert(s, key, v);
    if i < s.len() {
        assert(s[i].1.failures <= s[i].1.calls);
    }
    assert forall|j: int| 0 <= j < t.len() implies (#[trigger] t[j]).1.failures <= t[j].1.calls by {
        if j < s.len() && j != i {
            assert(t[j] == s[j]);
        }
    }
}

/// The key index is a position, and it lands on a matching entry or past
/// every entry, none of which matches.
pub proof fn lemma_key_index_bound<V>(s: Seq<(Seq<char>, V)>, key: Seq<char>)
    ensures
        0 <= key_index(s, key) <= s.len(),
        key_index(s, key) < s.len() ==> s[key_index(s, key)].0 == key,
        forall|j: int| 0 <= j < key_index(s, key) ==> (#[trigger] s[j]).0 != key,
    decreases s.len(),
{
    if s.len() > 0 && s[0].0 != key {
        lemma_key_index_bound(s.drop_first(), key);
        assert forall|j: int| 0 <= j < key_index(s, key) implies (#[trigger] s[j]).0 != key by {
            if j > 0 {
                assert(s[j] == s.drop_first()[j - 1]);
            }
        }
    }
}

/// When the first `i` keys differ from `key` and key `i` matches (or `i`
/// is the number of entries), the key index is `i`.
pub proof fn lemma_key_index_is<V>(s: Seq<(Seq<char>, V)>, key: Seq<char>, i: int)
    requires
        0 <= i <= s.len(),
        forall|j: int| 0 <= j < i ==> (#[trigger] s[j]).0 != key,
        i < s.len() ==> s[i].0 == key,
    ensures
        key_index(s, key) == i,
    decreases i,
{
    if i > 0 {
        assert(s[0].0 != key);
        assert forall|j: int| 0 <= j < i - 1 implies (#[trigger] s.drop_first()[j]).0 != key by {
            assert(s.drop_first()[j] == s[j + 1]);
        }
        if i < s.len() {
            assert(s.drop_first()[i - 1] == s[i]);
        }
        lemma_key_index_is(s.drop_first(), key, i - 1);
    }
}

/// Replacing entry `i` changes the sum by the difference of the counters.
proof fn lemma_sum_models_update(
    s: Seq<(Seq<char>, ModelMetrics)>,
    i: int,
    v: (Seq<char>, ModelMetrics),
    c: ModelCounter,
)
    requires
        0 <= i < s.len(),
    ensures
        sum_models(s.update(i, v), c) == sum_models(s, c) - model_counter(s[i].1, c) + model_counter(v.1, c),
    decreases s.len(),
{
    if i < s.len() - 1 {
        assert(s.update(i, v).drop_last() =~= s.drop_last().update(i, v));
        lemma_sum_models_update(s.drop_last(), i, v, c);
    } else {
        assert(s.update(i, v).drop_last() =~= s.drop_last());
    }
}

/// Replacing entry `i` changes the sum by the difference of the counters.
proof fn lemma_sum_tools_update(
    s: Seq<(Seq<char>, ToolMetrics)>,
    i: int,
    v: (Seq<char>, ToolMetrics),
    c: ToolCounter,
)
    requires
        0 <= i < s.len(),
    ensures
        sum_tools(s.update(i, v), c) == sum_tools(s, c) - tool_counter(s[i].1, c) + tool_counter(v.1, c),
    decreases s.len(),
{
    if i < s.len() - 1 {
        assert(s.update(i, v).drop_last() =~= s.drop_last().update(i, v));
        lemma_sum_tools_update(s.drop_last(), i, v, c);
    } else {
        assert(s.update(i, v).drop_last() =~= s.drop_last());
    }
}

/// A prefix's sum never exceeds the whole sum.
proof fn lemma_sum_models_prefix(s: Seq<(Seq<char>, ModelMetrics)>, k: int, c: ModelCounter)
    requires
        0 <= k <= s.len(),
    ensures
        sum_models(s.subrange(0, k), c) <= sum_models(s, c),
    decreases s.len(),
{
    if k < s.len() {
        assert(s.drop_last().subrange(0, k) =~= s.subrange(0, k));
        lemma_sum_models_prefix(s.drop_last(), k, c);
    } else {
        assert(s.subrange(0, k) =~= s);
    }
}

/// A prefix's sum never exceeds the whole sum.
proof fn lemma_sum_tools_prefix(s: Seq<(Seq<char>, ToolMetrics)>, k: int, c: ToolCounter)
    requires
        0 <= k <= s.len(),
    ensures
        sum_tools(s.subrange(0, k), c) <= sum_tools(s, c),
    decreases s.len(),
{
    if k < s.len() {
        assert(s.drop_last().subrange(0, k) =~= s.subrange(0, k));
        lemma_sum_tools_prefix(s.drop_last(), k, c);
    } else {
        assert(s.subrange(0, k) =~= s);
    }
}

/// The position of the entry for a key, or the number of entries.
fn find_key<V>(s: &Vec<(String, V)>, key: &str) -> (i: usize)
    ensures
        i == key_index(entries_view(s@), key@),
{
    let ghost e = entries_view(s@);
    let mut i: usize = 0;
    while i < s.len()
        invariant
            i <= s@.len(),
            e == entries_view(s@),
            forall|j: int| 0 <= j < i ==> (#[trigger] e[j]).0 != key@,
        decreases s.len() - i,
    {
        if str_eq(s[i].0.as_str(), key) {
            proof {
                lemma_key_index_is(e, key@, i as int);
            }
            return i;
        }
        i += 1;
    }
    proof {
        lemma_key_index_is(e, key@, i as int);
    }
    i
}

/// The sum of one counter over the model entries.
fn total_models(s: &Vec<(String, ModelMetrics)>, c: ModelCounter) -> (t: u64)
    requires
        sum_models(entries_view(s@), c) <= u64::MAX,
    ensures
        t == sum_models(entries_view(s@), c),
{
    let ghost e = entries_view(s@);
    let mut total: u64 = 0;
    let mut i: usize = 0;
    while i < s.len()
        invariant
            i <= s@.len(),
            e == entries_view(s@),
            total == sum_models(e.subrange(0, i as int), c),
            sum_models(e, c) <= u64::MAX,
        decreases s.len() - i,
    {
        proof {
            assert(e.subrange(0, i + 1).drop_last() =~= e.subrange(0, i as int));
            lemma_sum_models_prefix(e, i + 1, c);
        }
        total = total + model_counter_value(s[i].1, c);
        i += 1;
    }
    assert(e.subrange(0, e.len() as int) =~= e);
    total
}

/// The sum of one counter over the tool entries.
fn total_tools(s: &Vec<(String, ToolMetrics)>, c: ToolCounter) -> (t: u64)
    requires
        sum_tools(entries_view(s@), c) <= u64::MAX,
    ensures
        t == sum_tools(entries_view(s@), c),
{
    let ghost e = entries_view(s@);
    let mut total: u64 = 0;
    let mut i: usize = 0;
    while i < s.len()
        invariant
            i <= s@.len(),
            e == entries_view(s@),
            total == sum_tools(e.subrange(0, i as int), c),
            sum_tools(e, c) <= u64::MAX,
        decreases s.len() - i,
    {
        proof {
            assert(e.subrange(0, i + 1).drop_last() =~= e.subrange(0, i as int));
            lemma_sum_tools_prefix(e, i + 1, c);
        }
        total = total + tool_counter_value(s[i].1, c);
        i += 1;
    }
    assert(e.subrange(0, e.len() as int) =~= e);
    total
}

/// A point-in-time snapshot of a runtime's metrics. Models and tools are
/// keyed by their ids and names, one entry per key, in the order in which
/// they were first recorded; the escalation section is runtime-wide.
#[derive(Debug, Clone)]
pub struct MetricsSnapshot {
    /// Per-model metrics, keyed by model id.
    pub models: Vec<(String, ModelMetrics)>,
    /// Per-tool metrics, keyed by tool name.
    pub tools: Vec<(String, ToolMetrics)>,
    /// Runtime-wide escalation metrics.
    pub escalation: EscalationMetrics,
}

impl MetricsSnapshot {
    /// The model entries, keyed by the characters of the model id.
    pub open spec fn model_entries(&self) -> Seq<(Seq<char>, ModelMetrics)> {
        entries_view(self.models@)
    }

    /// The tool entries, keyed by the characters of the tool name.
    pub open spec fn tool_entries(&self) -> Seq<(Seq<char>, ToolMetrics)> {
        entries_view(self.tools@)
    }

    /// A snapshot with no entries and zero escalations.
    pub fn empty() -> (s: MetricsSnapshot)
        ensures
            s.models@.len() == 0,
            s.tools@.len() == 0,
            s.escalation == (EscalationMetrics { escalations: 0, cloud_escalations: 0, latency_ms: 0 }),
    {
        MetricsSnapshot { models: Vec::new(), tools: Vec::new(), escalation: EscalationMetrics::default() }
    }

    /// Whether the snapshot holds no entry and no escalation.
    pub fn is_empty(&self) -> (b: bool)
        ensures
            b == (self.models@.len() == 0 && self.tools@.len() == 0 && self.escalation == zero_escalation()),
    {
        self.models.len() == 0 && self.tools.len() == 0 && self.escalation.escalations == 0
            && self.escalation.cloud_escalations == 0 && self.escalation.latency_ms == 0
    }

    /// The metrics of the model with this id, if it has an entry.
    pub fn model(&self, id: &str) -> (r: Option<ModelMetrics>)
        ensures
            r is Some <==> key_index(self.model_entries(), id@) < self.models@.len(),
            r matches Some(m) ==> m == model_entry(self.model_entries(), id@),
    {
        let i = find_key(&self.models, id);
        proof {
            lemma_key_index_bound(self.model_entries(), id@);
        }
        if i < self.models.len() {
            Some(self.models[i].1)
        } else {
            None
        }
    }

    /// The metrics of the tool with this name, if it has an entry.
    pub fn tool(&self, name: &str) -> (r: Option<ToolMetrics>)
        ensures
            r is Some <==> key_index(self.tool_entries(), name@) < self.tools@.len(),
            r matches Some(t) ==> t == tool_entry(self.tool_entries(), name@),
    {
        let i = find_key(&self.tools, name);
        proof {
            lemma_key_index_bound(self.tool_entries(), name@);
        }
        if i < self.tools.len() {
            Some(self.tools[i].1)
        } else {
            None
        }
    }

    /// Model turns across every model.
    pub fn total_model_turns(&self) -> (t: u64)
        requires
            sum_models(self.model_entries(), ModelCounter::Turns) <= u64::MAX,
        ensures
            t == sum_models(self.model_entries(), ModelCounter::Turns),
    {
        total_models(&self.models, ModelCounter::Turns)
    }

    /// Input tokens across every model.
    pub fn total_input_tokens(&self) -> (t: u64)
        requires
            sum_models(self.model_entries(), ModelCounter::InputTokens) <= u64::MAX,
        ensures
            t == sum_models(self.model_entries(), ModelCounter::InputTokens),
    {
        total_models(&self.models, ModelCounter::InputTokens)
    }

    /// Output tokens across every model.
    pub fn total_output_tokens(&self) -> (t: u64)
        requires
            sum_models(self.model_entries(), ModelCounter::OutputTokens) <= u64::MAX,
        ensures
            t == sum_models(self.model_entries(), ModelCounter::OutputTokens),
    {
        total_models(&self.models, ModelCounter::OutputTokens)
    }

    /// Model latency across every model, in milliseconds.
    pub fn total_model_latency_ms(&self) -> (t: u64)
        requires
            sum_models(self.model_entries(), ModelCounter::LatencyMs) <= u64::MAX,
        ensures
            t == sum_models(self.model_entries(), ModelCounter::LatencyMs),
    {
        total_models(&self.models, ModelCounter::LatencyMs)
    }

    /// Tool calls across every tool.
    pub fn total_tool_calls(&self) -> (t: u64)
        requires
            sum_tools(self.tool_entries(), ToolCounter::Calls) <= u64::MAX,
        ensures
            t == sum_tools(self.tool_entries(), ToolCounter::Calls),
    {
        total_tools(&self.tools, ToolCounter::Calls)
    }

    /// Failed tool calls across every tool.
    pub fn total_tool_failures(&self) -> (t: u64)
        requires
            sum_tools(self.tool_entries(), ToolCounter::Failures) <= u64::MAX,
        ensures
            t == sum_tools(self.tool_entries(), ToolCounter::Failures),
    {
        total_tools(&self.tools, ToolCounter::Failures)
    }

    /// Tool latency across every tool, in milliseconds.
    pub fn total_tool_latency_ms(&self) -> (t: u64)
        requires
            sum_tools(self.tool_entries(), ToolCounter::LatencyMs) <= u64::MAX,
        ensures
            t == sum_tools(self.tool_entries(), ToolCounter::LatencyMs),
    {
        total_tools(&self.tools, ToolCounter::LatencyMs)
    }

    /// Escalations that ran a cloud provider.
    pub fn cloud_escalations(&self) -> (n: u64)
        ensures
            n == self.escalation.cloud_escalations,
    {
        self.escalation.cloud_escalations
    }
}

/// Zero escalations.
pub open spec fn zero_escalation() -> EscalationMetrics {
    EscalationMetrics { escalations: 0, cloud_escalations: 0, latency_ms: 0 }
}

/// Collects content-free metrics for one runtime.
#[derive(Debug)]
pub struct MetricsCollector {
    inner: MetricsSnapshot,
}

impl MetricsCollector {
    /// No model and no tool has two entries, and no tool has failed more
    /// often than it was called.
    #[verifier::type_invariant]
    spec fn keys_unique(&self) -> bool {
        &&& unique_keys(entries_view(self.inner.models@))
        &&& unique_keys(entries_view(self.inner.tools@))
        &&& failures_within_calls(entries_view(self.inner.tools@))
    }

    /// The model entries collected so far.
    pub closed spec fn models(&self) -> Seq<(Seq<char>, ModelMetrics)> {
        entries_view(self.inner.models@)
    }

    /// The tool entries collected so far.
    pub closed spec fn tools(&self) -> Seq<(Seq<char>, ToolMetrics)> {
        entries_view(self.inner.tools@)
    }

    /// The escalation metrics collected so far.
    pub closed spec fn escalation(&self) -> EscalationMetrics {
        self.inner.escalation
    }

    /// A fresh, empty collector.
    pub fn new() -> (c: MetricsCollector)
        ensures
            c.models().len() == 0,
            c.tools().len() == 0,
            c.escalation() == zero_escalation(),
    {
        MetricsCollector { inner: MetricsSnapshot::empty() }
    }

    /// Records one completed model turn: the model's entry (created when
    /// missing) gains one turn and the latency, and the usage tokens when
    /// they are reported; nothing else changes.
    pub fn record_model_turn(&mut self, model: &str, latency_ms: u64, usage: Option<Usage>)
        requires
            model_turn_fits(old(self).models(), model@, latency_ms, usage),
        ensures
            final(self).models() == upsert(
                old(self).models(),
                model@,
                bump_model(model_entry(old(self).models(), model@), latency_ms, usage),
            ),
            final(self).tools() == old(self).tools(),
            final(self).escalation() == old(self).escalation(),
    {
        proof {
            use_type_invariant(&*self);
        }
        let ghost e = entries_view(self.inner.models@);
        let i = find_key(&self.inner.models, model);
        proof {
            lemma_key_index_bound(e, model@);
        }
        let mut models: Vec<(String, ModelMetrics)> = Vec::new();
        std::mem::swap(&mut models, &mut self.inner.models);
        let m = if i < models.len() {
            models[i].1
        } else {
            ModelMetrics::default()
        };
        let bumped = ModelMetrics {
            turns: m.turns + 1,
            latency_ms: m.latency_ms + latency_ms,
            input_tokens: match usage {
                Some(u) => m.input_tokens + u.input_tokens,
                None => m.input_tokens,
            },
            output_tokens: match usage {
                Some(u) => m.output_tokens + u.output_tokens,
                None => m.output_tokens,
            },
        };
        let key = string_of(model);
        if i < models.len() {
            models.set(i, (key, bumped));
        } else {
            models.push((key, bumped));
        }
        proof {
            let t = entries_view(models@);
            assert(t =~= upsert(e, model@, bumped));
            assert forall|a: int, b: int| 0 <= a < b < t.len() implies (#[trigger] t[a]).0 != (
            #[trigger] t[b]).0 by {
                if b < e.len() && a != i && b != i {
                    assert(t[a] == e[a] && t[b] == e[b]);
                } else if a == i {
                    assert(t[b] == e[b]);
                } else {
                    assert(t[a] == e[a]);
                }
            }
        }
        self.inner.models = models;
    }

    /// Records one executed tool call: the tool's entry (created when
    /// missing) gains one call and the latency, and one failure when the
    /// call failed; nothing else changes.
    pub fn record_tool_call(&mut self, tool: &str, latency_ms: u64, success: bool)
        requires
            tool_call_fits(old(self).tools(), tool@, latency_ms, success),
        ensures
            final(self).tools() == upsert(
                old(self).tools(),
                tool@,
                bump_tool(tool_entry(old(self).tools(), tool@), latency_ms, success),
            ),
            final(self).models() == old(self).models(),
            final(self).escalation() == old(self).escalation(),
    {
        proof {
            use_type_invariant(&*self);
        }
        let ghost e = entries_view(self.inner.tools@);
        let i = find_key(&self.inner.tools, tool);
        proof {
            lemma_key_index_bound(e, tool@);
        }
        let mut tools: Vec<(String, ToolMetrics)> = Vec::new();
        std::mem::swap(&mut tools, &mut self.inner.tools);
        let m = if i < tools.len() {
            tools[i].1
        } else {
            ToolMetrics::default()
        };
        let bumped = ToolMetrics {
            calls: m.calls + 1,
            failures: if success {
                m.failures
            } else {
                m.failures + 1
            },
            latency_ms: m.latency_ms + latency_ms,
        };
        let key = string_of(tool);
        if i < tools.len() {
            tools.set(i, (key, bumped));
        } else {
            tools.push((key, bumped));
        }
        proof {
            let t = entries_view(tools@);
            assert(t =~= upsert(e, tool@, bumped));
            law_failures_within_calls(e, tool@, latency_ms, success);
            assert forall|a: int, b: int| 0 <= a < b < t.len() implies (#[trigger] t[a]).0 != (
            #[trigger] t[b]).0 by {
                if b < e.len() && a != i && b != i {
                    assert(t[a] == e[a] && t[b] == e[b]);
                } else if a == i {
                    assert(t[b] == e[b]);
                } else {
                    assert(t[a] == e[a]);
                }
            }
        }
        self.inner.tools = tools;
    }

    /// Records one escalation. `provider` is `None` for a local
    /// escalation, which counts as an escalation but not as a cloud one;
    /// `latency_ms`, when present, is added to the escalation latency.
    pub fn record_escalation(&mut self, provider: Option<&str>, latency_ms: Option<u64>)
        requires
            old(self).escalation().escalations + 1 <= u64::MAX,
            provider is Some ==> old(self).escalation().cloud_escalations + 1 <= u64::MAX,
            latency_ms matches Some(l) ==> old(self).escalation().latency_ms + l <= u64::MAX,
        ensures
            final(self).escalation().escalations == old(self).escalation().escalations + 1,
            final(self).escalation().cloud_escalations == old(self).escalation().cloud_escalations + if provider is Some {
                1int
            } else {
                0int
            },
            final(self).escalation().latency_ms == old(self).escalation().latency_ms + match latency_ms {
                Some(l) => l as int,
                None => 0int,
            },
            final(self).models() == old(self).models(),
            final(self).tools() == old(self).tools(),
    {
        proof {
            use_type_invariant(&*self);
        }
        let e = self.inner.escalation;
        self.inner.escalation =
        EscalationMetrics {
            escalations: e.escalations + 1,
            cloud_escalations: if provider.is_some() {
                e.cloud_escalations + 1
            } else {
                e.cloud_escalations
            },
            latency_ms: match latency_ms {
                Some(l) => e.latency_ms + l,
                None => e.latency_ms,
            },
        };
    }

    /// A point-in-time copy of the collected metrics.
    pub fn snapshot(&self) -> (s: MetricsSnapshot)
        ensures
            s.model_entries() == self.models(),
            s.tool_entries() == self.tools(),
            s.escalation == self.escalation(),
            unique_keys(s.model_entries()),
            unique_keys(s.tool_entries()),
            failures_within_calls(s.tool_entries()),
    {
        proof {
            use_type_invariant(self);
        }
        let mut models: Vec<(String, ModelMetrics)> = Vec::new();
        let mut i: usize = 0;
        while i < self.inner.models.len()
            invariant
                i <= self.inner.models@.len(),
                models@.len() == i,
                entries_view(models@) =~= entries_view(self.inner.models@).subrange(0, i as int),
            decreases self.inner.models.len() - i,
        {
            let name = self.inner.models[i].0.clone();
            let ghost before = models@;
            models.push((name, self.inner.models[i].1));
            proof {
                assert(models@[i as int].0@ == self.inner.models@[i as int].0@);
                assert forall|j: int| 0 <= j < i implies models@[j] == before[j] by {}
            }
            i += 1;
            assert(entries_view(models@) =~= entries_view(self.inner.models@).subrange(0, i as int));
        }
        let mut tools: Vec<(String, ToolMetrics)> = Vec::new();
        let mut k: usize = 0;
        while k < self.inner.tools.len()
            invariant
                k <= self.inner.tools@.len(),
                tools@.len() == k,
                entries_view(tools@) =~= entries_view(self.inner.tools@).subrange(0, k as int),
            decreases self.inner.tools.len() - k,
        {
            let name = self.inner.tools[k].0.clone();
            let ghost before = tools@;
            tools.push((name, self.inner.tools[k].1));
            proof {
                assert(tools@[k as int].0@ == self.inner.tools@[k as int].0@);
                assert forall|j: int| 0 <= j < k implies tools@[j] == before[j] by {}
            }
            k += 1;
            assert(entries_view(tools@) =~= entries_view(self.inner.tools@).subrange(0, k as int));
        }
        assert(entries_view(models@) =~= entries_view(self.inner.models@));
        assert(entries_view(tools@) =~= entries_view(self.inner.tools@));
        MetricsSnapshot { models, tools, escalation: self.inner.escalation }
    }

    /// Clears every accumulated metric.
    pub fn reset(&mut self)
        ensures
            final(self).models().len() == 0,
            final(self).tools().len() == 0,
            final(self).escalation() == zero_escalation(),
    {
        self.inner = MetricsSnapshot::empty();
    }
}

/// After the entry for `key` becomes `v`, looking `key` up finds `v`, and
/// looking up any other key finds what it found before.
pub proof fn law_upsert_lookup<V>(s: Seq<(Seq<char>, V)>, key: Seq<char>, v: V, other: Seq<char>)
    requires
        other != key,
    ensures
        key_index(upsert(s, key, v), key) < upsert(s, key, v).len(),
        upsert(s, key, v)[key_index(upsert(s, key, v), key)].1 == v,
        key_index(upsert(s, key, v), other) < upsert(s, key, v).len() <==> key_index(s, other) < s.len(),
        key_index(s, other) < s.len() ==> key_index(upsert(s, key, v), other) == key_index(s, other),
        unique_keys(s) ==> unique_keys(upsert(s, key, v)),
{
    let t = upsert(s, key, v);
    let i = key_index(s, key);
    lemma_key_index_bound(s, key);
    lemma_key_index_bound(s, other);
    let o = key_index(s, other);
    if i < s.len() {
        assert forall|j: int| 0 <= j < i implies (#[trigger] t[j]).0 != key by {
            assert(t[j] == s[j]);
        }
        lemma_key_index_is(t, key, i);
        assert forall|j: int| 0 <= j < o implies (#[trigger] t[j]).0 != other by {
            if j != i {
                assert(t[j] == s[j]);
            }
        }
        if o < s.len() {
            assert(t[o] == s[o]);
        }
        lemma_key_index_is(t, other, o);
    } else {
        assert forall|j: int| 0 <= j < i implies (#[trigger] t[j]).0 != key by {
            assert(t[j] == s[j]);
        }
        lemma_key_index_is(t, key, i);
        if o < s.len() {
            assert forall|j: int| 0 <= j < o implies (#[trigger] t[j]).0 != other by {
                assert(t[j] == s[j]);
            }
            assert(t[o] == s[o]);
            lemma_key_index_is(t, other, o);
        } else {
            assert forall|j: int| 0 <= j < t.len() implies (#[trigger] t[j]).0 != other by {
                if j < s.len() {
                    assert(t[j] == s[j]);
                }
            }
            lemma_key_index_is(t, other, t.len() as int);
        }
    }
    if unique_keys(s) {
        assert forall|a: int, b: int| 0 <= a < b < t.len() implies (#[trigger] t[a]).0 != (#[trigger] t[b]).0 by {
            if a != i && b != i {
                assert(t[a] == s[a]);
                if b < s.len() {
                    assert(t[b] == s[b]);
                }
            } else if a == i {
                assert(t[b] == s[b]);
            } else {
                assert(t[a] == s[a]);
            }
        }
    }
}

/// Recording a model turn adds exactly one turn, the latency, and the
/// reported usage tokens to the totals over every model.
pub proof fn law_model_turn_totals(
    s: Seq<(Seq<char>, ModelMetrics)>,
    key: Seq<char>,
    latency_ms: u64,
    usage: Option<Usage>,
)
    requires
        model_turn_fits(s, key, latency_ms, usage),
    ensures
        ({
            let t = upsert(s, key, bump_model(model_entry(s, key), latency_ms, usage));
            &&& sum_models(t, ModelCounter::Turns) == sum_models(s, ModelCounter::Turns) + 1
            &&& sum_models(t, ModelCounter::LatencyMs) == sum_models(s, ModelCounter::LatencyMs) + latency_ms
            &&& sum_models(t, ModelCounter::InputTokens) == sum_models(s, ModelCounter::InputTokens)
                + match usage {
                Some(u) => u.input_tokens as int,
                None => 0,
            }
            &&& sum_models(t, ModelCounter::OutputTokens) == sum_models(s, ModelCounter::OutputTokens)
                + match usage {
                Some(u) => u.output_tokens as int,
                None => 0,
            }
        }),
{
    let i = key_index(s, key);
    lemma_key_index_bound(s, key);
    let v = bump_model(model_entry(s, key), latency_ms, usage);
    let t = upsert(s, key, v);
    if i < s.len() {
        lemma_sum_models_update(s, i, (key, v), ModelCounter::Turns);
        lemma_sum_models_update(s, i, (key, v), ModelCounter::LatencyMs);
        lemma_sum_models_update(s, i, (key, v), ModelCounter::InputTokens);
        lemma_sum_models_update(s, i, (key, v), ModelCounter::OutputTokens);
    } else {
        assert(t.drop_last() =~= s);
    }
}

/// Recording a tool call adds exactly one call and the latency to the
/// totals over every tool, and one failure exactly when the call failed.
pub proof fn law_tool_call_totals(s: Seq<(Seq<char>, ToolMetrics)>, key: Seq<char>, latency_ms: u64, success: bool)
    requires
        tool_call_fits(s, key, latency_ms, success),
    ensures
        ({
            let t = upsert(s, key, bump_tool(tool_entry(s, key), latency_ms, success));
            &&& sum_tools(t, ToolCounter::Calls) == sum_tools(s, ToolCounter::Calls) + 1
            &&& sum_tools(t, ToolCounter::LatencyMs) == sum_tools(s, ToolCounter::LatencyMs) + latency_ms
            &&& sum_tools(t, ToolCounter::Failures) == sum_tools(s, ToolCounter::Failures) + if success {
                0int
            } else {
                1int
            }
        }),
{
    let i = key_index(s, key);
    lemma_key_index_bound(s, key);
    let v = bump_tool(tool_entry(s, key), latency_ms, success);
    let t = upsert(s, key, v);
    if i < s.len() {
        lemma_sum_tools_update(s, i, (key, v), ToolCounter::Calls);
        lemma_sum_tools_update(s, i, (key, v), ToolCounter::LatencyMs);
        lemma_sum_tools_update(s, i, (key, v), ToolCounter::Failures);
    } else {
        assert(t.drop_last() =~= s);
    }
}

} // verus!

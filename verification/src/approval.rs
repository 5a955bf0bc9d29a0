//! Human approval: the risk policy, approval ids, requests, and decisions.
//!
//! Tools declare a [`RiskLevel`]; the [`ApprovalPolicy`] decides which
//! calls must pause for a human. A paused call becomes an
//! [`ApprovalRequest`] held in an
//! [`ApprovalStore`](crate::approval_store::ApprovalStore); the frontend
//! answers with [`ApprovalDecision::Approved`] or
//! [`ApprovalDecision::Rejected`]. [`RiskLevel::Critical`] always requires
//! approval.

use vstd::prelude::*;
use crate::hex::{hex_padded, push_hex_padded};
use crate::json::{JsonModel, JsonValue};
use crate::risk::{risk_rank, RiskLevel};
use crate::text::{push_str, string_of};

verus! {

/// Errors produced by the approval lifecycle.
#[derive(Debug)]
pub enum ApprovalError {
    /// No pending approval with this id.
    NotFound(String),
    /// The approval was already decided (approved, rejected, or expired).
    AlreadyDecided(String),
    /// The approval expired before a decision was made.
    Expired(String),
    /// The approval channel closed unexpectedly (the waiter vanished).
    Dropped(String),
}

/// The display text of an approval error.
pub open spec fn approval_error_text(e: ApprovalError) -> Seq<char> {
    match e {
        ApprovalError::NotFound(s) => "no such approval request: "@ + s@,
        ApprovalError::AlreadyDecided(s) => "approval request "@ + s@ + " was already decided"@,
        ApprovalError::Expired(s) => "approval request "@ + s@ + " expired"@,
        ApprovalError::Dropped(s) => "approval request "@ + s@ + " lost its waiter"@,
    }
}

impl ApprovalError {
    /// The display text of the error.
    pub fn message(&self) -> (m: String)
        ensures
            m@ == approval_error_text(*self),
    {
        let mut m = String::new();
        match self {
            ApprovalError::NotFound(s) => {
                push_str(&mut m, "no such approval request: ");
                push_str(&mut m, s.as_str());
            },
            ApprovalError::AlreadyDecided(s) => {
                push_str(&mut m, "approval request ");
                push_str(&mut m, s.as_str());
                push_str(&mut m, " was already decided");
            },
            ApprovalError::Expired(s) => {
                push_str(&mut m, "approval request ");
                push_str(&mut m, s.as_str());
                push_str(&mut m, " expired");
            },
            ApprovalError::Dropped(s) => {
                push_str(&mut m, "approval request ");
                push_str(&mut m, s.as_str());
                push_str(&mut m, " lost its waiter");
            },
        }
        m
    }
}

/// The policy gating tool execution on human approval.
#[derive(Debug, Clone, Copy, PartialEq, Eq)]
pub struct ApprovalPolicy {
    /// Calls at or above this risk level require approval. `None` disables
    /// risk-based approval; [`RiskLevel::Critical`] always requires
    /// approval regardless.
    pub require_approval_above: Option<RiskLevel>,
    /// How long a pending approval stays valid, in nanoseconds (at most
    /// [`MAX_TIMEOUT_NANOS`], the longest `Duration`). `None` means
    /// approvals never expire.
    pub timeout_nanos: Option<u128>,
}

/// The longest timeout, in nanoseconds: the longest `std::time::Duration`.
pub const MAX_TIMEOUT_NANOS: u128 = 18_446_744_073_709_551_615_999_999_999u128;

/// Whether a call at `risk` must pause for approval under a threshold.
pub open spec fn needs_approval(threshold: Option<RiskLevel>, risk: RiskLevel) -> bool {
    risk == RiskLevel::Critical || match threshold {
        Some(t) => risk_rank(risk) >= risk_rank(t),
        None => false,
    }
}

impl Default for ApprovalPolicy {
    /// Approval at `High` and above, expiring after five minutes.
    fn default() -> (p: Self)
        ensures
            p.require_approval_above == Some(RiskLevel::High),
            p.timeout_nanos == Some(300_000_000_000u128),
    {
        ApprovalPolicy { require_approval_above: Some(RiskLevel::High), timeout_nanos: Some(300_000_000_000u128) }
    }
}

impl ApprovalPolicy {
    /// Whether a call at the given risk level must pause for approval.
    pub fn requires_approval(&self, risk: RiskLevel) -> (b: bool)
        ensures
            b == needs_approval(self.require_approval_above, risk),
    {
        match risk {
            RiskLevel::Critical => true,
            _ => match self.require_approval_above {
                Some(threshold) => risk.at_least(threshold),
                None => false,
            },
        }
    }
}

/// Critical calls always pause for approval, whatever the threshold.
pub proof fn law_critical_always_requires_approval(threshold: Option<RiskLevel>)
    ensures
        needs_approval(threshold, RiskLevel::Critical),
{
}

/// Approval is monotone in risk: if a call at some level pauses, every call
/// at a higher level pauses too.
pub proof fn law_approval_monotone(threshold: Option<RiskLevel>, low: RiskLevel, high: RiskLevel)
    requires
        risk_rank(low) <= risk_rank(high),
        needs_approval(threshold, low),
    ensures
        needs_approval(threshold, high),
{
}

/// Without a threshold only critical calls pause.
pub proof fn law_no_threshold_only_critical(risk: RiskLevel)
    ensures
        needs_approval(None, risk) <==> risk == RiskLevel::Critical,
{
}

/// A unique identifier for a pending approval.
#[derive(Debug, Clone, PartialEq, Eq, Hash)]
pub struct ApprovalId(String);

/// The text of an id built from a clock reading and a sequence number: the
/// nanoseconds in hex padded to 20 digits, then the sequence number in hex
/// padded to 16 digits.
pub open spec fn approval_id_text(nanos: nat, counter: nat) -> Seq<char> {
    hex_padded(nanos, 20) + hex_padded(counter, 16)
}

impl ApprovalId {
    /// The view of an id: its text.
    pub closed spec fn text(&self) -> Seq<char> {
        self.0@
    }

    /// The id for a clock reading (nanoseconds since the Unix epoch) and a
    /// process-wide sequence number.
    pub fn from_parts(nanos: u128, counter: u64) -> (id: ApprovalId)
        ensures
            id.text() == approval_id_text(nanos as nat, counter as nat),
    {
        let mut s = String::new();
        push_hex_padded(&mut s, nanos, 20);
        push_hex_padded(&mut s, counter as u128, 16);
        ApprovalId(s)
    }

    /// Generates a new id from the current time and the caller's
    /// process-wide sequence number `counter` (a clock that reads before
    /// the epoch counts as zero).
    pub fn generate(counter: u64) -> (id: ApprovalId)
        ensures
            exists|nanos: u128| id.text() == approval_id_text(nanos as nat, counter as nat),
    {
        let nanos = match elapsed_since_epoch(system_now()) {
            Some(d) => duration_nanos(d),
            None => 0,
        };
        ApprovalId::from_parts(nanos, counter)
    }

    /// The raw string form of the id.
    pub fn as_str(&self) -> (s: &str)
        ensures
            s@ == self.text(),
    {
        self.0.as_str()
    }

    /// The id as an owned string.
    pub fn to_text(&self) -> (s: String)
        ensures
            s@ == self.text(),
    {
        self.0.clone()
    }

    /// An id with the given text (for ids echoed back by the frontend).
    pub fn from_text(text: &str) -> (id: ApprovalId)
        ensures
            id.text() == text@,
    {
        ApprovalId(string_of(text))
    }
}

/// Ids built with different sequence numbers differ, whatever the clock
/// readings: the last 16 characters of an id spell its sequence number.
pub proof fn law_ids_with_distinct_counters_differ(n1: nat, c1: nat, n2: nat, c2: nat)
    requires
        c1 < crate::hex::pow16(16),
        c2 < crate::hex::pow16(16),
        c1 != c2,
    ensures
        approval_id_text(n1, c1) != approval_id_text(n2, c2),
{
    crate::hex::lemma_hex_padded_len(c1, 16);
    crate::hex::lemma_hex_padded_len(c2, 16);
    crate::hex::lemma_hex_value_padded(c1, 16);
    crate::hex::lemma_hex_value_padded(c2, 16);
    let a = approval_id_text(n1, c1);
    let b = approval_id_text(n2, c2);
    let p1 = hex_padded(n1, 20);
    let p2 = hex_padded(n2, 20);
    if a == b {
        assert(a.subrange(p1.len() as int, a.len() as int) =~= hex_padded(c1, 16));
        assert(b.subrange(p2.len() as int, b.len() as int) =~= hex_padded(c2, 16));
        assert(p1.len() == p2.len());
    }
}

/// An id built from a clock reading below `16^20` nanoseconds (some 38
/// million years after the epoch) is 36 lower-case hex digits: 20 for the
/// reading, then 16 for the sequence number.
pub proof fn law_id_is_36_hex_digits(nanos: nat, counter: nat)
    requires
        nanos < crate::hex::pow16(20),
        counter < crate::hex::pow16(16),
    ensures
        approval_id_text(nanos, counter).len() == 36,
        forall|i: int| 0 <= i < 36 ==> crate::hex::is_hex_char(#[trigger] approval_id_text(nanos, counter)[i]),
{
    crate::hex::lemma_hex_padded_len(nanos, 20);
    crate::hex::lemma_hex_padded_len(counter, 16);
    crate::hex::lemma_hex_padded_is_hex(nanos, 20);
    crate::hex::lemma_hex_padded_is_hex(counter, 16);
    let a = hex_padded(nanos, 20);
    let b = hex_padded(counter, 16);
    assert forall|i: int| 0 <= i < 36 implies crate::hex::is_hex_char(#[trigger] approval_id_text(nanos, counter)[i]) by {
        if i < 20 {
            assert((a + b)[i] == a[i]);
        } else {
            assert((a + b)[i] == b[i - 20]);
        }
    }
}

#[verifier::external_type_specification]
#[verifier::external_body]
pub struct ExSystemTime(std::time::SystemTime);

/// `SystemTime::now`: the current wall-clock time. Nothing is claimed of
/// the reading.
#[verifier::external_body]
pub(crate) fn system_now() -> std::time::SystemTime {
    std::time::SystemTime::now()
}

/// `SystemTime::duration_since(UNIX_EPOCH)`: the time elapsed since the
/// Unix epoch, `None` when the reading is earlier than the epoch. Nothing
/// is claimed of the value.
#[verifier::external_body]
pub(crate) fn elapsed_since_epoch(t: std::time::SystemTime) -> Option<std::time::Duration> {
    t.duration_since(std::time::UNIX_EPOCH).ok()
}

/// `Duration::as_nanos`: the whole nanoseconds of a duration. Nothing is
/// claimed, since the duration is opaque here.
#[verifier::external_body]
fn duration_nanos(d: std::time::Duration) -> u128 {
    d.as_nanos()
}

/// The current time in nanoseconds since the Unix epoch (zero when the
/// clock reads earlier than the epoch).
pub fn now_nanos() -> u128 {
    match elapsed_since_epoch(system_now()) {
        Some(d) => duration_nanos(d),
        None => 0,
    }
}

/// The lifecycle state of a human approval request.
#[derive(Debug, Clone, Copy, PartialEq, Eq, Structural, Hash)]
pub enum ApprovalStatus {
    /// Waiting for a human decision.
    Pending,
    /// Approved; the tool call may execute.
    Approved,
    /// Rejected; the tool call is cancelled.
    Rejected,
    /// Expired before a decision was made.
    Expired,
}

/// The human's answer to a pending approval.
#[derive(Debug, Clone, Copy, PartialEq, Eq, Structural)]
pub enum ApprovalDecision {
    /// The tool call may execute.
    Approved,
    /// The tool call is cancelled.
    Rejected,
}

/// The complete proposal the frontend must review.
#[derive(Debug)]
pub struct ApprovalRequest {
    /// Unique id; the frontend echoes it back to approve or reject.
    pub id: ApprovalId,
    /// The session that requested the call.
    pub session_id: String,
    /// The tool name.
    pub tool: String,
    /// A short description of what the tool does.
    pub description: String,
    /// The proposed arguments.
    pub arguments: JsonValue,
    /// The tool's risk level, by name.
    pub risk: String,
    /// When the request was created, in nanoseconds since the Unix epoch.
    pub created_at_nanos: u128,
    /// When the request expires, in nanoseconds since the Unix epoch, if
    /// it does.
    pub expires_at_nanos: Option<u128>,
}

/// Two requests carry the same proposal (same id, session, tool,
/// description, arguments, risk, and times).
pub open spec fn same_request(a: ApprovalRequest, b: ApprovalRequest) -> bool {
    &&& a.id == b.id
    &&& a.session_id@ == b.session_id@
    &&& a.tool@ == b.tool@
    &&& a.description@ == b.description@
    &&& a.arguments@ == b.arguments@
    &&& a.risk@ == b.risk@
    &&& a.created_at_nanos == b.created_at_nanos
    &&& a.expires_at_nanos == b.expires_at_nanos
}

/// An optional time as a natural number.
pub open spec fn as_nat(o: Option<u128>) -> Option<nat> {
    match o {
        Some(e) => Some(e as nat),
        None => None,
    }
}

/// When a request created at `created` with the given timeout (in
/// nanoseconds) expires.
pub open spec fn expiry(created: nat, timeout_nanos: Option<u128>) -> Option<nat> {
    match timeout_nanos {
        Some(t) => Some(created + (t as nat)),
        None => None,
    }
}

/// Whether a timeout is one a `Duration` can hold.
pub open spec fn timeout_in_range(timeout_nanos: Option<u128>) -> bool {
    timeout_nanos matches Some(t) ==> t <= MAX_TIMEOUT_NANOS
}

/// Whether a request has expired at time `now` (nanoseconds since the
/// Unix epoch): it has an expiry and `now` has reached it.
pub open spec fn expired_at(r: ApprovalRequest, now: u128) -> bool {
    match r.expires_at_nanos {
        Some(e) => now >= e,
        None => false,
    }
}

impl ApprovalRequest {
    /// Builds the request for a call at the given time: the id comes from
    /// `created_at_nanos` and the process-wide sequence number `counter`;
    /// `timeout_nanos` sets the expiry (`None` never expires).
    pub fn at(
        created_at_nanos: u128,
        counter: u64,
        session_id: &str,
        tool: &str,
        description: &str,
        arguments: JsonValue,
        risk: &str,
        timeout_nanos: Option<u128>,
    ) -> (r: ApprovalRequest)
        requires
            timeout_in_range(timeout_nanos),
            created_at_nanos + MAX_TIMEOUT_NANOS <= u128::MAX,
        ensures
            r.id.text() == approval_id_text(created_at_nanos as nat, counter as nat),
            r.session_id@ == session_id@,
            r.tool@ == tool@,
            r.description@ == description@,
            r.arguments == arguments,
            r.risk@ == risk@,
            r.created_at_nanos == created_at_nanos,
            as_nat(r.expires_at_nanos) == expiry(created_at_nanos as nat, timeout_nanos),
    {
        let expires_at_nanos = match timeout_nanos {
            Some(t) => Some(created_at_nanos + t),
            None => None,
        };
        ApprovalRequest {
            id: ApprovalId::from_parts(created_at_nanos, counter),
            session_id: string_of(session_id),
            tool: string_of(tool),
            description: string_of(description),
            arguments,
            risk: string_of(risk),
            created_at_nanos,
            expires_at_nanos,
        }
    }

    /// Builds a new request for the given call, session, and risk, created
    /// now. `counter` is the process-wide sequence number for its id;
    /// `timeout_nanos` sets the expiry (`None` never expires).
    pub fn new(
        session_id: &str,
        tool: &str,
        description: &str,
        arguments: JsonValue,
        risk: &str,
        timeout_nanos: Option<u128>,
        counter: u64,
    ) -> (r: ApprovalRequest)
        requires
            timeout_in_range(timeout_nanos),
        ensures
            r.session_id@ == session_id@,
            r.tool@ == tool@,
            r.description@ == description@,
            r.arguments == arguments,
            r.risk@ == risk@,
            r.id.text() == approval_id_text(r.created_at_nanos as nat, counter as nat),
            as_nat(r.expires_at_nanos) == expiry(r.created_at_nanos as nat, timeout_nanos),
    {
        let now = now_nanos();
        let limit: u128 = u128::MAX - MAX_TIMEOUT_NANOS;
        let created = if now <= limit { now } else { limit };
        ApprovalRequest::at(created, counter, session_id, tool, description, arguments, risk, timeout_nanos)
    }

    /// Whether the request has expired at time `now_nanos`.
    pub fn is_expired_at(&self, now_nanos: u128) -> (b: bool)
        ensures
            b == match self.expires_at_nanos {
                Some(e) => now_nanos >= e,
                None => false,
            },
    {
        match self.expires_at_nanos {
            Some(e) => now_nanos >= e,
            None => false,
        }
    }

    /// Whether the request has expired now: the expiry test at the clock's
    /// reading (which nothing here predicts), so never for a request
    /// without an expiry.
    pub fn is_expired(&self) -> (b: bool)
        ensures
            exists|now: u128| b == #[trigger] expired_at(*self, now),
            self.expires_at_nanos is None ==> !b,
    {
        let now = now_nanos();
        let b = self.is_expired_at(now);
        assert(b == expired_at(*self, now));
        b
    }

    /// A copy of this request.
    pub fn duplicate(&self) -> (r: ApprovalRequest)
        ensures
            same_request(r, *self),
    {
        ApprovalRequest {
            id: ApprovalId(self.id.0.clone()),
            session_id: self.session_id.clone(),
            tool: self.tool.clone(),
            description: self.description.clone(),
            arguments: self.arguments.duplicate(),
            risk: self.risk.clone(),
            created_at_nanos: self.created_at_nanos,
            expires_at_nanos: self.expires_at_nanos,
        }
    }
}

} // verus!

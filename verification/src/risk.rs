//! Tool risk levels.
//!
//! Risk is declared in each tool's metadata and evaluated by Noema — never
//! by the frontend and never by the model.

use vstd::prelude::*;

verus! {

/// The risk a tool call poses to the system or the user.
///
/// The ordering is significant: `None < Low < Medium < High < Critical`.
#[derive(Debug, Clone, Copy, PartialEq, Eq, Structural, PartialOrd, Ord, Hash)]
pub enum RiskLevel {
    /// No risk; no approval required.
    NoRisk,
    /// Minimal, reversible risk.
    Low,
    /// Moderate risk; may warrant approval depending on policy.
    Medium,
    /// Significant, possibly irreversible risk.
    High,
    /// Severe risk; always requires human approval.
    Critical,
}

/// The position of a level in the order `None < Low < Medium < High <
/// Critical`.
pub open spec fn risk_rank(r: RiskLevel) -> nat {
    match r {
        RiskLevel::NoRisk => 0,
        RiskLevel::Low => 1,
        RiskLevel::Medium => 2,
        RiskLevel::High => 3,
        RiskLevel::Critical => 4,
    }
}

/// The lower-case name of a level, as it is serialized and displayed.
pub open spec fn risk_name(r: RiskLevel) -> Seq<char> {
    match r {
        RiskLevel::NoRisk => "none"@,
        RiskLevel::Low => "low"@,
        RiskLevel::Medium => "medium"@,
        RiskLevel::High => "high"@,
        RiskLevel::Critical => "critical"@,
    }
}

impl Default for RiskLevel {
    fn default() -> (r: Self)
        ensures
            r == RiskLevel::NoRisk,
    {
        RiskLevel::NoRisk
    }
}

impl RiskLevel {
    /// The level's position in the risk order (`None` is 0, `Critical` 4).
    pub fn rank(&self) -> (n: u8)
        ensures
            n as nat == risk_rank(*self),
    {
        match self {
            RiskLevel::NoRisk => 0,
            RiskLevel::Low => 1,
            RiskLevel::Medium => 2,
            RiskLevel::High => 3,
            RiskLevel::Critical => 4,
        }
    }

    /// Whether this level is at or above `other` in the risk order.
    pub fn at_least(&self, other: RiskLevel) -> (b: bool)
        ensures
            b == (risk_rank(*self) >= risk_rank(other)),
    {
        self.rank() >= other.rank()
    }

    /// The lower-case name of the level (`"none"`, `"low"`, `"medium"`,
    /// `"high"`, `"critical"`).
    pub fn as_str(&self) -> (s: &'static str)
        ensures
            s@ == risk_name(*self),
    {
        proof {
            reveal_strlit("none");
            reveal_strlit("low");
            reveal_strlit("medium");
            reveal_strlit("high");
            reveal_strlit("critical");
        }
        match self {
            RiskLevel::NoRisk => "none",
            RiskLevel::Low => "low",
            RiskLevel::Medium => "medium",
            RiskLevel::High => "high",
            RiskLevel::Critical => "critical",
        }
    }
}

/// The rank order is a strict total order on the five levels: distinct
/// levels have distinct ranks.
pub proof fn law_risk_rank_injective(a: RiskLevel, b: RiskLevel)
    ensures
        risk_rank(a) == risk_rank(b) <==> a == b,
{
}

} // verus!

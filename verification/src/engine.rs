//! Core vocabulary of the agent engine that the gateway reasons about.
use vstd::prelude::*;
use vstd::string::*;

verus! {

/// How much an agent may do without asking a human.
#[derive(Debug, Clone, Copy, PartialEq, Eq, Structural)]
pub enum AutonomyTier {
    /// All tool calls are denied.
    Locked,
    /// Every tool call needs interactive approval.
    Leash,
    /// Tool calls run within the granted capabilities.
    Trust,
    /// Tool calls run freely.
    Free,
}

/// Display name of a tier.
pub open spec fn tier_name(t: AutonomyTier) -> Seq<char> {
    match t {
        AutonomyTier::Locked => "Locked"@,
        AutonomyTier::Leash => "Leash"@,
        AutonomyTier::Trust => "Trust"@,
        AutonomyTier::Free => "Free"@,
    }
}

impl AutonomyTier {
    /// Display name of the tier, as `to_string()` writes it.
    pub fn name(&self) -> (s: String)
        ensures
            s@ == tier_name(*self),
    {
        match self {
            AutonomyTier::Locked => "Locked".to_owned(),
            AutonomyTier::Leash => "Leash".to_owned(),
            AutonomyTier::Trust => "Trust".to_owned(),
            AutonomyTier::Free => "Free".to_owned(),
        }
    }

    /// The tier lets an agent run without an interactive approver.
    pub open spec fn is_autonomous(self) -> bool {
        self == AutonomyTier::Trust || self == AutonomyTier::Free
    }
}

} // verus!

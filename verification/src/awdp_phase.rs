//! AWD-Plus phase state machine: Pending → Break → PreparingFix → Fix → Ended.

use vstd::prelude::*;

use crate::text::{cat, owned};

verus! {

/// Phase of an AWD-Plus run.
#[derive(Debug, Clone, Copy, PartialEq, Eq, Structural)]
pub enum AwdpPhase {
    Pending,
    Break,
    PreparingFix,
    Fix,
    Ended,
}

/// Position of a phase on the line Pending(0) … Ended(4).
pub open spec fn rank(p: AwdpPhase) -> int {
    match p {
        AwdpPhase::Pending => 0,
        AwdpPhase::Break => 1,
        AwdpPhase::PreparingFix => 2,
        AwdpPhase::Fix => 3,
        AwdpPhase::Ended => 4,
    }
}

/// The allowed transitions: launch, break expiry, pristine reconcile done, last cutoff.
pub open spec fn transition_allowed(from: AwdpPhase, to: AwdpPhase) -> bool {
    match (from, to) {
        (AwdpPhase::Pending, AwdpPhase::Break) => true,
        (AwdpPhase::Break, AwdpPhase::PreparingFix) => true,
        (AwdpPhase::PreparingFix, AwdpPhase::Fix) => true,
        (AwdpPhase::Fix, AwdpPhase::Ended) => true,
        _ => false,
    }
}

/// Debug name of a phase.
pub open spec fn phase_name(p: AwdpPhase) -> Seq<char> {
    match p {
        AwdpPhase::Pending => "Pending"@,
        AwdpPhase::Break => "Break"@,
        AwdpPhase::PreparingFix => "PreparingFix"@,
        AwdpPhase::Fix => "Fix"@,
        AwdpPhase::Ended => "Ended"@,
    }
}

/// Message of a refused transition.
pub open spec fn transition_error(from: AwdpPhase, to: AwdpPhase) -> Seq<char> {
    "Invalid AWDP phase transition: "@ + phase_name(from) + " -> "@ + phase_name(to)
}

/// Debug name of a phase.
pub fn phase_name_of(p: AwdpPhase) -> (s: &'static str)
    ensures
        s@ == phase_name(p),
{
    match p {
        AwdpPhase::Pending => "Pending",
        AwdpPhase::Break => "Break",
        AwdpPhase::PreparingFix => "PreparingFix",
        AwdpPhase::Fix => "Fix",
        AwdpPhase::Ended => "Ended",
    }
}

/// Phase queries and the transition gate of an AWD-Plus run.
pub trait AwdpPhaseExt {
    /// The phase is one of the running ones.
    fn is_active(&self) -> bool;

    /// The phase is final.
    fn is_terminal(&self) -> bool;

    /// `Ok` when the run may move from this phase to `target`, else the reason.
    fn can_transition_to(&self, target: AwdpPhase) -> Result<(), String>;
}

impl AwdpPhaseExt for AwdpPhase {
    /// Break, PreparingFix and Fix are the active phases.
    fn is_active(&self) -> (b: bool)
        ensures
            b == (0 < rank(*self) < 4),
    {
        matches!(self, AwdpPhase::Break | AwdpPhase::PreparingFix | AwdpPhase::Fix)
    }

    /// Ended is the only terminal phase.
    fn is_terminal(&self) -> (b: bool)
        ensures
            b == (*self == AwdpPhase::Ended),
    {
        matches!(self, AwdpPhase::Ended)
    }

    /// Only the next phase on the line may follow.
    fn can_transition_to(&self, target: AwdpPhase) -> (r: Result<(), String>)
        ensures
            r is Ok <==> transition_allowed(*self, target),
            r matches Err(m) ==> m@ == transition_error(*self, target),
    {
        let ok = match (self, &target) {
            (AwdpPhase::Pending, AwdpPhase::Break) => true,
            (AwdpPhase::Break, AwdpPhase::PreparingFix) => true,
            (AwdpPhase::PreparingFix, AwdpPhase::Fix) => true,
            (AwdpPhase::Fix, AwdpPhase::Ended) => true,
            _ => false,
        };
        if ok {
            Ok(())
        } else {
            let m = cat(owned("Invalid AWDP phase transition: "), phase_name_of(*self));
            let m = cat(cat(m, " -> "), phase_name_of(target));
            Err(m)
        }
    }
}

/// The machine is linear: every allowed transition moves exactly one step
/// forward, so no phase is skipped and none is revisited.
pub proof fn law_transitions_step_forward(from: AwdpPhase, to: AwdpPhase)
    ensures
        transition_allowed(from, to) <==> rank(to) == rank(from) + 1,
{
}

/// Ended has no successor.
pub proof fn law_ended_is_final(to: AwdpPhase)
    ensures
        !transition_allowed(AwdpPhase::Ended, to),
{
}

/// Each phase has at most one successor.
pub proof fn law_successor_unique(from: AwdpPhase, a: AwdpPhase, b: AwdpPhase)
    requires
        transition_allowed(from, a),
        transition_allowed(from, b),
    ensures
        a == b,
{
}

} // verus!

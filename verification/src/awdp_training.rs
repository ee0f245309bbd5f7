//! Practice runs of AWD-Plus driven by the player: moving a practice run
//! between Break and Fix by hand, and the bookkeeping of a run's writeup.

use vstd::prelude::*;

use crate::awdp_phase::{phase_name, phase_name_of, AwdpPhase};
use crate::error::AwdpError;
use crate::text::{cat, debug_str, owned, str_debug, text_eq};

verus! {

/// The phase a player asks for: `break` or `fix`.
pub struct SetPhaseForm {
    pub phase: String,
}

/// What a manual phase request does to a practice run.
#[derive(Debug, Clone, Copy, PartialEq, Eq, Structural)]
pub enum PhaseChange {
    /// The run is already in the requested phase.
    Unchanged,
    /// Break → Fix: the instances are reset to pristine and fixing starts.
    BreakToFix,
    /// Fix → Break: the fix session is undone and a fresh timeline is built.
    FixToBreak,
}


/// Decides a player's manual phase request on a run: only practice runs
/// accept it; `fix` from Break starts fixing, `break` from Fix goes back, the
/// current phase is a no-op, anything else is refused.
pub fn plan_set_phase(is_practice_run: bool, form: &SetPhaseForm, current: AwdpPhase) -> (r: Result<PhaseChange, AwdpError>)
    ensures
        !is_practice_run ==> (r matches Err(AwdpError::InvalidState(m)) && m@ == "手动控制阶段仅练习模式可用"@),
        is_practice_run && form.phase@ == "fix"@ ==> match current {
            AwdpPhase::Fix => r == Ok::<PhaseChange, AwdpError>(PhaseChange::Unchanged),
            AwdpPhase::Break => r == Ok::<PhaseChange, AwdpError>(PhaseChange::BreakToFix),
            _ => (r matches Err(AwdpError::InvalidState(m)) && m@ == "当前阶段 "@ + phase_name(current) + " 不能直接进入 Fix"@),
        },
        is_practice_run && form.phase@ == "break"@ ==> match current {
            AwdpPhase::Break => r == Ok::<PhaseChange, AwdpError>(PhaseChange::Unchanged),
            AwdpPhase::Fix => r == Ok::<PhaseChange, AwdpError>(PhaseChange::FixToBreak),
            _ => (r matches Err(AwdpError::InvalidState(m)) && m@ == "当前阶段 "@ + phase_name(current) + " 不能回到 Break"@),
        },
        is_practice_run && form.phase@ != "fix"@ && form.phase@ != "break"@ ==> (r matches Err(AwdpError::Validation(m))
            && m@ == "phase 只能是 break 或 fix（got "@ + str_debug(form.phase@) + "）"@),
{
    proof {
        reveal_strlit("fix");
        reveal_strlit("break");
        assert("fix"@.len() != "break"@.len());
    }
    if !is_practice_run {
        return Err(AwdpError::InvalidState(owned("手动控制阶段仅练习模式可用")));
    }
    let target = form.phase.as_str();
    if text_eq(target, "fix") {
        match current {
            AwdpPhase::Fix => Ok(PhaseChange::Unchanged),
            AwdpPhase::Break => Ok(PhaseChange::BreakToFix),
            other => {
                let m = cat(cat(owned("当前阶段 "), phase_name_of(other)), " 不能直接进入 Fix");
                Err(AwdpError::InvalidState(m))
            },
        }
    } else if text_eq(target, "break") {
        match current {
            AwdpPhase::Break => Ok(PhaseChange::Unchanged),
            AwdpPhase::Fix => Ok(PhaseChange::FixToBreak),
            other => {
                let m = cat(cat(owned("当前阶段 "), phase_name_of(other)), " 不能回到 Break");
                Err(AwdpError::InvalidState(m))
            },
        }
    } else {
        let d = debug_str(target);
        let m = cat(cat(owned("phase 只能是 break 或 fix（got "), d.as_str()), "）");
        Err(AwdpError::Validation(m))
    }
}

/// A player's writeup of a run.
pub struct SaveAwdpRunWriteupForm {
    pub content: String,
}

/// Audit action of saving a writeup: `UPDATE` when the run had one, else `CREATE`.
pub fn writeup_action(existed: bool) -> (a: &'static str)
    ensures
        existed ==> a@ == "UPDATE"@,
        !existed ==> a@ == "CREATE"@,
{
    if existed {
        "UPDATE"
    } else {
        "CREATE"
    }
}

} // verus!

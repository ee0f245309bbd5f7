//! AWD event lifecycle: statuses and phases, which statuses keep firewall
//! policy, and the decisions behind deploy / start / pause / resume / finish.

use vstd::prelude::*;

use crate::error::AwdError;
use crate::text::{cat, owned};

verus! {

/// Lifecycle status of an AWD event.
#[derive(Debug, Clone, Copy, PartialEq, Eq, Structural)]
pub enum AwdEventStatus {
    Draft,
    Configuring,
    Deploying,
    Deployed,
    DeployFailed,
    Prechecking,
    Verified,
    VerificationFailed,
    Running,
    Paused,
    NetworkError,
    StartBlocked,
    Finished,
    Archived,
}

/// Network phase of a running AWD event.
#[derive(Debug, Clone, Copy, PartialEq, Eq, Structural)]
pub enum AwdPhase {
    Hardening,
    Attack,
    Pause,
}

/// `{:?}` of a status: its variant name.
pub open spec fn status_name(s: AwdEventStatus) -> Seq<char> {
    match s {
        AwdEventStatus::Draft => "Draft"@,
        AwdEventStatus::Configuring => "Configuring"@,
        AwdEventStatus::Deploying => "Deploying"@,
        AwdEventStatus::Deployed => "Deployed"@,
        AwdEventStatus::DeployFailed => "DeployFailed"@,
        AwdEventStatus::Prechecking => "Prechecking"@,
        AwdEventStatus::Verified => "Verified"@,
        AwdEventStatus::VerificationFailed => "VerificationFailed"@,
        AwdEventStatus::Running => "Running"@,
        AwdEventStatus::Paused => "Paused"@,
        AwdEventStatus::NetworkError => "NetworkError"@,
        AwdEventStatus::StartBlocked => "StartBlocked"@,
        AwdEventStatus::Finished => "Finished"@,
        AwdEventStatus::Archived => "Archived"@,
    }
}

/// The variant name of a status (its `{:?}` text).
pub fn status_name_of(s: AwdEventStatus) -> (t: &'static str)
    ensures
        t@ == status_name(s),
{
    match s {
        AwdEventStatus::Draft => "Draft",
        AwdEventStatus::Configuring => "Configuring",
        AwdEventStatus::Deploying => "Deploying",
        AwdEventStatus::Deployed => "Deployed",
        AwdEventStatus::DeployFailed => "DeployFailed",
        AwdEventStatus::Prechecking => "Prechecking",
        AwdEventStatus::Verified => "Verified",
        AwdEventStatus::VerificationFailed => "VerificationFailed",
        AwdEventStatus::Running => "Running",
        AwdEventStatus::Paused => "Paused",
        AwdEventStatus::NetworkError => "NetworkError",
        AwdEventStatus::StartBlocked => "StartBlocked",
        AwdEventStatus::Finished => "Finished",
        AwdEventStatus::Archived => "Archived",
    }
}

/// Statuses of an event that is set up but not started: it may still be
/// reconfigured, deployed again or prechecked (Draft, Configuring, Deployed,
/// Verified, DeployFailed).
pub open spec fn is_configurable_spec(s: AwdEventStatus) -> bool {
    s == AwdEventStatus::Draft || s == AwdEventStatus::Configuring || s == AwdEventStatus::Deployed
        || s == AwdEventStatus::Verified || s == AwdEventStatus::DeployFailed
}

/// Statuses whose addressing may still be edited (Draft, Configuring).
pub open spec fn network_editable_spec(s: AwdEventStatus) -> bool {
    s == AwdEventStatus::Draft || s == AwdEventStatus::Configuring
}

/// Statuses of an event that is under way (rounds tick).
pub open spec fn is_active_spec(s: AwdEventStatus) -> bool {
    s == AwdEventStatus::Running || s == AwdEventStatus::Paused
}

/// Statuses whose event keeps managed runtime / network resources and so stays
/// in the global firewall desired state.
pub open spec fn in_desired_set(s: AwdEventStatus) -> bool {
    match s {
        AwdEventStatus::Deploying | AwdEventStatus::Deployed | AwdEventStatus::Prechecking
        | AwdEventStatus::Verified | AwdEventStatus::Running | AwdEventStatus::Paused
        | AwdEventStatus::NetworkError | AwdEventStatus::StartBlocked | AwdEventStatus::DeployFailed => true,
        _ => false,
    }
}

impl AwdEventStatus {
    /// The event is set up but not started (see [`is_configurable_spec`]).
    pub fn is_configurable(&self) -> (b: bool)
        ensures
            b == is_configurable_spec(*self),
    {
        matches!(
            self,
            AwdEventStatus::Draft | AwdEventStatus::Configuring | AwdEventStatus::Deployed | AwdEventStatus::Verified
                | AwdEventStatus::DeployFailed
        )
    }

    /// The event is under way (Running / Paused).
    pub fn is_active(&self) -> (b: bool)
        ensures
            b == is_active_spec(*self),
    {
        matches!(self, AwdEventStatus::Running | AwdEventStatus::Paused)
    }
}

/// Whether an event in `status` belongs to the firewall desired set: it still
/// holds managed runtime or network resources and is not fully archived.
pub fn in_firewall_desired_set(status: &AwdEventStatus) -> (b: bool)
    ensures
        b == in_desired_set(*status),
{
    matches!(
        status,
        AwdEventStatus::Deploying | AwdEventStatus::Deployed | AwdEventStatus::Prechecking
            | AwdEventStatus::Verified | AwdEventStatus::Running | AwdEventStatus::Paused
            | AwdEventStatus::NetworkError | AwdEventStatus::StartBlocked | AwdEventStatus::DeployFailed
    )
}

/// Network addressing may be changed only in Draft / Configuring.
pub fn assert_network_editable(status: &AwdEventStatus) -> (r: Result<(), AwdError>)
    ensures
        network_editable_spec(*status) <==> r is Ok,
        !network_editable_spec(*status) ==> (r matches Err(AwdError::NetworkLocked(m))
            && m@ == "network addressing locked in status "@ + status_name(*status) + "（仅 Draft/Configuring 可改）"@),
{
    match status {
        AwdEventStatus::Draft | AwdEventStatus::Configuring => Ok(()),
        other => {
            let m = cat(cat(owned("network addressing locked in status "), status_name_of(*other)), "（仅 Draft/Configuring 可改）");
            Err(AwdError::NetworkLocked(m))
        },
    }
}

/// Deploy gate: allowed from a configurable status or while (re)deploying.
/// `Ok(true)` when the event must first move to Deploying.
pub fn plan_deploy(status: AwdEventStatus) -> (r: Result<bool, AwdError>)
    ensures
        (is_configurable_spec(status) || status == AwdEventStatus::Deploying || status == AwdEventStatus::Deployed)
            <==> r is Ok,
        r matches Ok(t) ==> t == (status != AwdEventStatus::Deploying),
        r is Err ==> (r matches Err(AwdError::InvalidState(m)) && m@ == "Cannot deploy event in "@ + status_name(status) + " status"@),
{
    if !status.is_configurable() && status != AwdEventStatus::Deploying && status != AwdEventStatus::Deployed {
        let m = cat(cat(owned("Cannot deploy event in "), status_name_of(status)), " status");
        return Err(AwdError::InvalidState(m));
    }
    Ok(status != AwdEventStatus::Deploying)
}

/// Status to record when a deploy attempt failed: DeployFailed only while
/// still Deploying (a concurrent newer status is left alone).
pub fn status_after_failed_deploy(current: AwdEventStatus) -> (r: Option<AwdEventStatus>)
    ensures
        current == AwdEventStatus::Deploying ==> r == Some(AwdEventStatus::DeployFailed),
        current != AwdEventStatus::Deploying ==> r is None,
{
    if current == AwdEventStatus::Deploying {
        Some(AwdEventStatus::DeployFailed)
    } else {
        None
    }
}

/// What starting an event writes: Running in Hardening, round 1 ending after one round.
pub struct StartPlan {
    pub status: AwdEventStatus,
    pub phase: AwdPhase,
    pub round_number: i32,
    pub round_end_nanos: i64,
}

/// Nanoseconds per second.
pub open spec fn nanos(secs: int) -> int {
    secs * 1_000_000_000
}

/// Start gate and plan: the event must be Verified with a recorded precheck pass.
pub fn plan_start(status: AwdEventStatus, verified: bool, now_nanos: i64, round_duration_secs: i32) -> (r: Result<
    StartPlan,
    AwdError,
>)
    requires
        i64::MIN <= now_nanos + nanos(round_duration_secs as int) <= i64::MAX,
    ensures
        (status == AwdEventStatus::Verified && verified) <==> r is Ok,
        status != AwdEventStatus::Verified ==> (r matches Err(AwdError::InvalidState(m))
            && m@ == "Cannot start event in "@ + status_name(status) + " status. Must be verified."@),
        status == AwdEventStatus::Verified && !verified ==> (r matches Err(AwdError::InvalidState(m))
            && m@ == "Cannot start event: precheck has not passed (no verified_at)"@),
        r matches Ok(p) ==> p.status == AwdEventStatus::Running && p.phase == AwdPhase::Hardening
            && p.round_number == 1 && p.round_end_nanos == now_nanos + nanos(round_duration_secs as int),
{
    if status != AwdEventStatus::Verified {
        let m = cat(cat(owned("Cannot start event in "), status_name_of(status)), " status. Must be verified.");
        return Err(AwdError::InvalidState(m));
    }
    if !verified {
        return Err(AwdError::InvalidState(owned("Cannot start event: precheck has not passed (no verified_at)")));
    }
    Ok(StartPlan {
        status: AwdEventStatus::Running,
        phase: AwdPhase::Hardening,
        round_number: 1,
        round_end_nanos: now_nanos + round_duration_secs as i64 * 1_000_000_000,
    })
}

/// What pausing writes: Paused, the phase to come back to, and the whole
/// seconds left in the active round (0 without one, never negative).
pub struct PausePlan {
    pub status: AwdEventStatus,
    pub phase: AwdPhase,
    pub paused_phase: AwdPhase,
    pub remaining_secs: i32,
}

/// Whole seconds from `now` to `end`, truncated, floored at 0 (then narrowed to `i32`).
pub open spec fn remaining_secs_spec(end_nanos: i64, now_nanos: i64) -> i32 {
    if end_nanos - now_nanos <= 0 {
        0
    } else {
        ((end_nanos - now_nanos) / 1_000_000_000) as i32
    }
}

/// Pause gate and plan: only a Running event pauses.
pub fn plan_pause(status: AwdEventStatus, phase: AwdPhase, active_round_end_nanos: Option<i64>, now_nanos: i64) -> (r:
    Result<PausePlan, AwdError>)
    ensures
        (status == AwdEventStatus::Running) <==> r is Ok,
        r is Err ==> (r matches Err(AwdError::InvalidState(m)) && m@ == "Can only pause a running event"@),
        r matches Ok(p) ==> p.status == AwdEventStatus::Paused && p.phase == AwdPhase::Pause && p.paused_phase == phase
            && p.remaining_secs == match active_round_end_nanos {
            Some(end) => remaining_secs_spec(end, now_nanos),
            None => 0i32,
        },
{
    if status != AwdEventStatus::Running {
        return Err(AwdError::InvalidState(owned("Can only pause a running event")));
    }
    let remaining: i32 = match active_round_end_nanos {
        Some(end) => {
            let diff: i128 = end as i128 - now_nanos as i128;
            if diff <= 0 {
                0
            } else {
                let secs: i128 = diff / 1_000_000_000;
                #[verifier::truncate]
                (secs as i32)
            }
        },
        None => 0,
    };
    Ok(PausePlan { status: AwdEventStatus::Paused, phase: AwdPhase::Pause, paused_phase: phase, remaining_secs: remaining })
}

/// What resuming writes: Running in the phase saved at pause (Hardening when
/// none was saved) and, for an open round, its new end.
pub struct ResumePlan {
    pub status: AwdEventStatus,
    pub phase: AwdPhase,
    pub round_end_nanos: Option<i64>,
}

/// New end of the resumed round: its saved remaining seconds (or a full round) from now.
pub open spec fn resumed_end(round_remaining: Option<i32>, round_duration_secs: i32, now_nanos: i64) -> int {
    match round_remaining {
        Some(r) => now_nanos + nanos(r as int),
        None => now_nanos + nanos(round_duration_secs as int),
    }
}

/// Resume gate and plan: only a Paused event resumes. `active_round` is the
/// saved remaining seconds of the active round, if there is an active round.
pub fn plan_resume(
    status: AwdEventStatus,
    paused_phase: Option<AwdPhase>,
    active_round: Option<Option<i32>>,
    round_duration_secs: i32,
    now_nanos: i64,
) -> (r: Result<ResumePlan, AwdError>)
    requires
        active_round matches Some(rr) ==> i64::MIN <= resumed_end(rr, round_duration_secs, now_nanos) <= i64::MAX,
    ensures
        (status == AwdEventStatus::Paused) <==> r is Ok,
        r is Err ==> (r matches Err(AwdError::InvalidState(m)) && m@ == "Can only resume a paused event"@),
        r matches Ok(p) ==> p.status == AwdEventStatus::Running && p.phase == resume_phase(paused_phase)
            && match active_round {
            Some(rr) => p.round_end_nanos == Some(resumed_end(rr, round_duration_secs, now_nanos) as i64),
            None => p.round_end_nanos is None,
        },
{
    if status != AwdEventStatus::Paused {
        return Err(AwdError::InvalidState(owned("Can only resume a paused event")));
    }
    let end = match active_round {
        Some(rr) => {
            let remaining = match rr {
                Some(r) => r,
                None => round_duration_secs,
            };
            Some(now_nanos + remaining as i64 * 1_000_000_000)
        },
        None => None,
    };
    let phase = match paused_phase {
        Some(p) => p,
        None => AwdPhase::Hardening,
    };
    Ok(ResumePlan { status: AwdEventStatus::Running, phase, round_end_nanos: end })
}

/// Finish gate: only a Running or Paused event finishes.
pub fn plan_finish(status: AwdEventStatus) -> (r: Result<AwdEventStatus, AwdError>)
    ensures
        is_active_spec(status) <==> r is Ok,
        r matches Ok(s) ==> s == AwdEventStatus::Finished,
        r is Err ==> (r matches Err(AwdError::InvalidState(m))
            && m@ == "Can only finish a running or paused event"@),
{
    if !status.is_active() {
        return Err(AwdError::InvalidState(owned("Can only finish a running or paused event")));
    }
    Ok(AwdEventStatus::Finished)
}

/// What archiving does with an event.
#[derive(Debug, Clone, Copy, PartialEq, Eq, Structural)]
pub enum ArchiveStep {
    /// Already archived: nothing to do.
    AlreadyArchived,
    /// Finished: its runtime resources are released and it becomes Archived.
    Archive,
}

/// Archive gate: only a Finished event is archived; archiving twice is a no-op.
pub fn plan_archive(status: AwdEventStatus) -> (r: Result<ArchiveStep, AwdError>)
    ensures
        status == AwdEventStatus::Archived ==> r == Ok::<ArchiveStep, AwdError>(ArchiveStep::AlreadyArchived),
        status == AwdEventStatus::Finished ==> r == Ok::<ArchiveStep, AwdError>(ArchiveStep::Archive),
        status != AwdEventStatus::Archived && status != AwdEventStatus::Finished ==> (r matches Err(
            AwdError::InvalidState(m),
        ) && m@ == "Can only archive a finished event"@),
{
    if status == AwdEventStatus::Archived {
        return Ok(ArchiveStep::AlreadyArchived);
    }
    if status != AwdEventStatus::Finished {
        return Err(AwdError::InvalidState(owned("Can only archive a finished event")));
    }
    Ok(ArchiveStep::Archive)
}

/// The container a stop or remove addresses: its id when known, else its name.
pub fn container_target<'a>(container_id: Option<&'a str>, container_name: &'a str) -> (t: &'a str)
    ensures
        t@ == (match container_id {
            Some(id) => id@,
            None => container_name@,
        }),
{
    match container_id {
        Some(id) => id,
        None => container_name,
    }
}

/// A ban is lifted only through the event it belongs to.
pub fn ban_in_event(ban_event_id: u128, event_id: u128) -> (r: Result<(), AwdError>)
    ensures
        ban_event_id == event_id <==> r is Ok,
        r is Err ==> (r matches Err(AwdError::Forbidden(m)) && m@ == "Ban belongs to another event"@),
{
    if ban_event_id != event_id {
        return Err(AwdError::Forbidden(owned("Ban belongs to another event")));
    }
    Ok(())
}

/// Lifting a ban needs the team's active ban.
pub fn require_active_ban<T>(ban: Option<T>) -> (r: Result<T, AwdError>)
    ensures
        match ban {
            Some(b) => r == Ok::<T, AwdError>(b),
            None => r matches Err(AwdError::NotFound(m)) && m@ == "No active ban found"@,
        },
{
    match ban {
        Some(b) => Ok(b),
        None => Err(AwdError::NotFound(owned("No active ban found"))),
    }
}

/// A WireGuard peer is issued only for a team with a configured network.
pub fn require_team_network<T>(net: Option<T>) -> (r: Result<T, AwdError>)
    ensures
        match net {
            Some(n) => r == Ok::<T, AwdError>(n),
            None => r matches Err(AwdError::NotFound(m)) && m@ == "Team network not configured"@,
        },
{
    match net {
        Some(n) => Ok(n),
        None => Err(AwdError::NotFound(owned("Team network not configured"))),
    }
}

/// Phase an event resumes in: the one saved at pause, Hardening when none was saved.
pub open spec fn resume_phase(paused_phase: Option<AwdPhase>) -> AwdPhase {
    match paused_phase {
        Some(ph) => ph,
        None => AwdPhase::Hardening,
    }
}

/// Pausing and then resuming brings the event back to the phase it was paused
/// in, and the resumed round has the time that was left at the pause (whole
/// seconds: the truncated sub-second part is the only loss).
pub proof fn law_pause_resume_restores_round(
    phase: AwdPhase,
    end_nanos: i64,
    pause_now: i64,
    resume_now: i64,
    round_duration_secs: i32,
)
    requires
        pause_now < end_nanos,
        end_nanos - pause_now < nanos(i32::MAX as int),
    ensures
        resume_phase(Some(phase)) == phase,
        ({
            let rem = remaining_secs_spec(end_nanos, pause_now);
            let left = resumed_end(Some(rem), round_duration_secs, resume_now) - resume_now;
            left <= end_nanos - pause_now < left + 1_000_000_000
        }),
{
    let d = end_nanos - pause_now;
    vstd::arithmetic::div_mod::lemma_fundamental_div_mod(d as int, 1_000_000_000);
    assert(d / 1_000_000_000 <= i32::MAX);
}

} // verus!

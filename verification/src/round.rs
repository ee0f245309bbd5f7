//! Round lifecycle of a running AWD event: which round starts next and in
//! which phase, the Active → Grace → Completed steps, what a restart
//! reschedules, and the score of judge tasks that timed out.

use vstd::prelude::*;

use crate::awd_event::{status_name, status_name_of, AwdEventStatus, AwdPhase};
use crate::error::AwdError;
use crate::text::{ascii_lower, cat, contains_text, has_substring, owned, to_ascii_lower, uuid_string, uuid_text};

verus! {

/// Status of a round.
#[derive(Debug, Clone, Copy, PartialEq, Eq, Structural)]
pub enum RoundStatus {
    Active,
    Grace,
    Paused,
    Completed,
}

/// Number of the round to start: the scheduled one when it is at least 1,
/// else the one after the latest round (1 for the first).
pub open spec fn next_round_number(expected: Option<i32>, latest: Option<i32>) -> int {
    match expected {
        Some(n) if n >= 1 => n as int,
        _ => match latest {
            Some(l) => l + 1,
            None => 1,
        },
    }
}

/// Phase of a round: the first round hardens, every later one attacks.
pub open spec fn round_phase_spec(n: int) -> AwdPhase {
    if n == 1 {
        AwdPhase::Hardening
    } else {
        AwdPhase::Attack
    }
}

/// Round number and phase of a round start; only a Running event starts rounds.
pub fn plan_round_start(status: AwdEventStatus, expected: Option<i32>, latest: Option<i32>) -> (r: Result<(i32, AwdPhase), AwdError>)
    requires
        latest matches Some(l) ==> l < i32::MAX,
    ensures
        status == AwdEventStatus::Running <==> r is Ok,
        r is Err ==> (r matches Err(AwdError::InvalidState(m)) && m@ == "Cannot start round in "@ + status_name(status) + " status"@),
        r matches Ok((n, p)) ==> n == next_round_number(expected, latest) && p == round_phase_spec(n as int),
{
    if status != AwdEventStatus::Running {
        let m = cat(cat(owned("Cannot start round in "), status_name_of(status)), " status");
        return Err(AwdError::InvalidState(m));
    }
    let n = match expected {
        Some(e) if e >= 1 => e,
        _ => match latest {
            Some(l) => l + 1,
            None => 1,
        },
    };
    let phase = if n == 1 {
        AwdPhase::Hardening
    } else {
        AwdPhase::Attack
    };
    Ok((n, phase))
}

/// A phase as round and network-policy notifications name it: its variant
/// name in lower case.
pub fn phase_text(phase: AwdPhase) -> (t: &'static str)
    ensures
        t@ == (match phase {
            AwdPhase::Hardening => "hardening"@,
            AwdPhase::Attack => "attack"@,
            AwdPhase::Pause => "pause"@,
        }),
{
    match phase {
        AwdPhase::Hardening => "hardening",
        AwdPhase::Attack => "attack",
        AwdPhase::Pause => "pause",
    }
}

/// What a round-end or grace-end task does with the round it names.
#[derive(Debug, Clone, Copy, PartialEq, Eq, Structural)]
pub enum RoundStep {
    /// The round is not in the expected status (a retried task): nothing to do.
    Skip,
    /// Move the round on.
    Advance,
}

/// Round end (Active → Grace): a round of another event is refused, a round
/// no longer Active is skipped.
pub fn plan_round_end(round_event: u128, event_id: u128, status: RoundStatus) -> (r: Result<RoundStep, AwdError>)
    ensures
        round_event != event_id ==> (r matches Err(AwdError::Forbidden(m)) && m@ == "Round belongs to another event"@),
        round_event == event_id && status == RoundStatus::Active ==> r == Ok::<RoundStep, AwdError>(RoundStep::Advance),
        round_event == event_id && status != RoundStatus::Active ==> r == Ok::<RoundStep, AwdError>(RoundStep::Skip),
{
    if round_event != event_id {
        return Err(AwdError::Forbidden(owned("Round belongs to another event")));
    }
    if status != RoundStatus::Active {
        return Ok(RoundStep::Skip);
    }
    Ok(RoundStep::Advance)
}

/// Grace end (Grace → Completed): like a round end, for a round in Grace;
/// when it advances, the next round is scheduled only while the event runs.
pub fn plan_grace_end(round_event: u128, event_id: u128, status: RoundStatus, round_number: i32, event_status: AwdEventStatus) -> (r: Result<(RoundStep, Option<i32>), AwdError>)
    requires
        round_number < i32::MAX,
    ensures
        round_event != event_id ==> (r matches Err(AwdError::Forbidden(m)) && m@ == "Round belongs to another event"@),
        round_event == event_id && status != RoundStatus::Grace ==> r == Ok::<(RoundStep, Option<i32>), AwdError>((RoundStep::Skip, None)),
        round_event == event_id && status == RoundStatus::Grace ==> r == Ok::<(RoundStep, Option<i32>), AwdError>((
            RoundStep::Advance,
            if event_status == AwdEventStatus::Running { Some((round_number + 1) as i32) } else { None },
        )),
{
    if round_event != event_id {
        return Err(AwdError::Forbidden(owned("Round belongs to another event")));
    }
    if status != RoundStatus::Grace {
        return Ok((RoundStep::Skip, None));
    }
    let next = if event_status == AwdEventStatus::Running {
        Some(round_number + 1)
    } else {
        None
    };
    Ok((RoundStep::Advance, next))
}

/// End of a round or of its grace period: `secs` seconds after `now` (ns).
pub fn seconds_after(now_nanos: i64, secs: i32) -> (t: i64)
    requires
        i64::MIN <= now_nanos + secs * 1_000_000_000 <= i64::MAX,
    ensures
        t == now_nanos + secs * 1_000_000_000,
{
    now_nanos + (secs as i64) * 1_000_000_000
}

/// Kind of a scheduled round task.
#[derive(Debug, Clone, Copy, PartialEq, Eq, Structural)]
pub enum RoundTask {
    RoundStart,
    RoundEnd,
    GraceEnd,
}

/// The task a restart recreates for the event's current round, with its due
/// time: an Active round without a pending end task gets one at its scheduled
/// end; a Grace round with a grace end and no pending grace-end task gets one
/// then; a paused or finished round gets nothing.
pub open spec fn restore_task(status: RoundStatus, scheduled_end: i64, grace_ends_at: Option<i64>, end_pending: bool, grace_end_pending: bool) -> Option<(RoundTask, i64)> {
    match status {
        RoundStatus::Active => if !end_pending { Some((RoundTask::RoundEnd, scheduled_end)) } else { None },
        RoundStatus::Grace => match grace_ends_at {
            Some(g) => if !grace_end_pending { Some((RoundTask::GraceEnd, g)) } else { None },
            None => None,
        },
        _ => None,
    }
}

/// The task to recreate after a restart, if any (see [`restore_task`]).
pub fn plan_restore(status: RoundStatus, scheduled_end: i64, grace_ends_at: Option<i64>, end_pending: bool, grace_end_pending: bool) -> (r: Option<(RoundTask, i64)>)
    ensures
        r == restore_task(status, scheduled_end, grace_ends_at, end_pending, grace_end_pending),
{
    match status {
        RoundStatus::Active => if !end_pending { Some((RoundTask::RoundEnd, scheduled_end)) } else { None },
        RoundStatus::Grace => match grace_ends_at {
            Some(g) => if !grace_end_pending { Some((RoundTask::GraceEnd, g)) } else { None },
            None => None,
        },
        _ => None,
    }
}

/// Score change of a timed-out judge task: its template's down points taken
/// off (nothing when the template is gone).
pub fn judge_timeout_delta(down_points: Option<i64>) -> (d: i64)
    requires
        down_points != Some(i64::MIN),
    ensures
        d == -(match down_points { Some(p) => p as int, None => 0 }),
{
    match down_points {
        Some(p) => -p,
        None => 0,
    }
}

/// Idempotency key of a judge-timeout penalty: `judge-timeout:{task id}`.
pub fn judge_timeout_key(task_id: u128) -> (s: String)
    ensures
        s@ == "judge-timeout:"@ + uuid_text(task_id),
{
    let id = uuid_string(task_id);
    cat(owned("judge-timeout:"), id.as_str())
}

/// A score write that failed only because the same penalty was already
/// written (a retried task): the lowercased error mentions `23505` or `duplicate`.
pub open spec fn duplicate_key_text(msg: Seq<char>) -> bool {
    has_substring(ascii_lower(msg), "23505"@) || has_substring(ascii_lower(msg), "duplicate"@)
}

/// Whether a failed penalty write was only a repeat of an earlier one.
pub fn is_duplicate_key(msg: &str) -> (b: bool)
    ensures
        b == duplicate_key_text(msg@),
{
    let l = to_ascii_lower(msg);
    contains_text(l.as_str(), "23505") || contains_text(l.as_str(), "duplicate")
}

/// Law: rounds alternate as the round log promises: round 1 of an event is
/// a hardening round and every later round an attack round; a round start
/// without a scheduled number continues after the latest round.
pub proof fn law_round_numbering(latest: i32)
    requires
        latest >= 1,
    ensures
        next_round_number(None, None) == 1,
        round_phase_spec(next_round_number(None, None)) == AwdPhase::Hardening,
        next_round_number(None, Some(latest)) == latest + 1,
        round_phase_spec(next_round_number(None, Some(latest))) == AwdPhase::Attack,
{
}

} // verus!

//! The phase timeline of an AWD-Plus run: guarded phase moves with their
//! timestamps, and the practice-mode controls (launch, end, go back to
//! Break). Instants are Unix nanoseconds.

use vstd::prelude::*;

use crate::awdp_phase::{phase_name, phase_name_of, transition_allowed, transition_error, AwdpPhase, AwdpPhaseExt};
use crate::error::AwdpError;
use crate::text::{cat, owned};

verus! {

/// The phase and timeline columns of a run.
#[derive(Debug, Clone, Copy, PartialEq, Eq, Structural)]
pub struct AwdpRunState {
    pub phase: AwdpPhase,
    /// A practice run (bound to one game box); competition runs have none.
    pub is_practice: bool,
    pub break_duration_secs: i32,
    pub started_at: Option<i64>,
    pub break_ends_at: Option<i64>,
    pub fix_started_at: Option<i64>,
    pub fix_ends_at: Option<i64>,
    pub finished_at: Option<i64>,
    pub current_round: i32,
    pub next_action_at: Option<i64>,
    pub updated_at: i64,
}

/// Timestamps and progress written together with a phase move (absent fields stay).
#[derive(Debug, Clone, Copy, PartialEq, Eq, Structural)]
pub struct PhaseTransitionPatch {
    pub started_at: Option<i64>,
    pub break_ends_at: Option<i64>,
    pub fix_started_at: Option<i64>,
    pub fix_ends_at: Option<i64>,
    pub finished_at: Option<i64>,
    pub current_round: Option<i32>,
    pub next_action_at: Option<i64>,
}

/// A present value, else the stored one.
pub open spec fn keep<T>(new: Option<T>, old: Option<T>) -> Option<T> {
    match new {
        Some(v) => Some(v),
        None => old,
    }
}

/// The run after a phase move to `target` with `patch` at `now`.
pub open spec fn moved(run: AwdpRunState, target: AwdpPhase, patch: PhaseTransitionPatch, now: i64) -> AwdpRunState {
    AwdpRunState {
        phase: target,
        started_at: keep(patch.started_at, run.started_at),
        break_ends_at: keep(patch.break_ends_at, run.break_ends_at),
        fix_started_at: keep(patch.fix_started_at, run.fix_started_at),
        fix_ends_at: keep(patch.fix_ends_at, run.fix_ends_at),
        finished_at: keep(patch.finished_at, run.finished_at),
        current_round: match patch.current_round { Some(v) => v, None => run.current_round },
        next_action_at: keep(patch.next_action_at, run.next_action_at),
        updated_at: now,
        ..run
    }
}

fn keep_i64(new: Option<i64>, old: Option<i64>) -> (r: Option<i64>)
    ensures
        r == keep(new, old),
{
    match new {
        Some(v) => Some(v),
        None => old,
    }
}

/// A guarded phase move: `expected → target` must be an allowed transition,
/// and the run must still be in `expected` (a concurrent move is refused);
/// the patch's fields are written with the new phase.
pub fn transition_run(run: &mut AwdpRunState, expected: AwdpPhase, target: AwdpPhase, patch: &PhaseTransitionPatch, now: i64) -> (r: Result<(), AwdpError>)
    ensures
        !transition_allowed(expected, target) ==> (r matches Err(AwdpError::InvalidState(m)) && m@ == transition_error(expected, target)),
        transition_allowed(expected, target) && old(run).phase != expected ==> (r matches Err(AwdpError::Conflict(m))
            && m@ == "concurrent AWDP phase transition: current="@ + phase_name(old(run).phase) + " expected="@
            + phase_name(expected)),
        r is Err ==> *final(run) == *old(run),
        r is Ok <==> transition_allowed(expected, target) && old(run).phase == expected,
        r is Ok ==> *final(run) == moved(*old(run), target, *patch, now),
{
    match expected.can_transition_to(target) {
        Ok(()) => {},
        Err(m) => return Err(AwdpError::InvalidState(m)),
    }
    if run.phase != expected {
        let m = cat(cat(owned("concurrent AWDP phase transition: current="), phase_name_of(run.phase)), " expected=");
        return Err(AwdpError::Conflict(cat(m, phase_name_of(expected))));
    }
    run.phase = target;
    run.started_at = keep_i64(patch.started_at, run.started_at);
    run.break_ends_at = keep_i64(patch.break_ends_at, run.break_ends_at);
    run.fix_started_at = keep_i64(patch.fix_started_at, run.fix_started_at);
    run.fix_ends_at = keep_i64(patch.fix_ends_at, run.fix_ends_at);
    run.finished_at = keep_i64(patch.finished_at, run.finished_at);
    run.current_round = match patch.current_round {
        Some(v) => v,
        None => run.current_round,
    };
    run.next_action_at = keep_i64(patch.next_action_at, run.next_action_at);
    run.updated_at = now;
    Ok(())
}

/// A fresh Break starting at `now`: the fix session is undone, the Break
/// lasts its configured duration, and the next tick is due at its end
/// (none when `frozen`).
pub open spec fn fresh_break(run: AwdpRunState, now: i64, frozen: bool) -> AwdpRunState {
    let ends = (now + run.break_duration_secs * 1_000_000_000) as i64;
    AwdpRunState {
        phase: AwdpPhase::Break,
        started_at: Some(now),
        break_ends_at: Some(ends),
        fix_started_at: None,
        fix_ends_at: None,
        finished_at: None,
        current_round: 0,
        next_action_at: if frozen { None } else { Some(ends) },
        updated_at: now,
        ..run
    }
}

fn reset_to_break(run: &mut AwdpRunState, now: i64, frozen: bool)
    requires
        i64::MIN <= now + old(run).break_duration_secs * 1_000_000_000 <= i64::MAX,
    ensures
        *final(run) == fresh_break(*old(run), now, frozen),
{
    let ends = now + (run.break_duration_secs as i64) * 1_000_000_000;
    run.phase = AwdpPhase::Break;
    run.started_at = Some(now);
    run.break_ends_at = Some(ends);
    run.fix_started_at = None;
    run.fix_ends_at = None;
    run.finished_at = None;
    run.current_round = 0;
    run.next_action_at = if frozen { None } else { Some(ends) };
    run.updated_at = now;
}

/// Practice Fix → Break: only practice runs, and only from Fix (a run in
/// another phase was moved concurrently); the run restarts Break at `now`.
pub fn transition_fix_to_break(run: &mut AwdpRunState, now: i64) -> (r: Result<(), AwdpError>)
    requires
        i64::MIN <= now + old(run).break_duration_secs * 1_000_000_000 <= i64::MAX,
    ensures
        !old(run).is_practice ==> (r matches Err(AwdpError::InvalidState(m)) && m@ == "只有练习 run 支持手动回到 Break"@),
        old(run).is_practice && old(run).phase != AwdpPhase::Fix ==> (r matches Err(AwdpError::Conflict(m))
            && m@ == "concurrent AWDP phase transition: current="@ + phase_name(old(run).phase) + " expected=Fix"@),
        r is Err ==> *final(run) == *old(run),
        r is Ok <==> old(run).is_practice && old(run).phase == AwdpPhase::Fix,
        r is Ok ==> *final(run) == fresh_break(*old(run), now, false),
{
    if !run.is_practice {
        return Err(AwdpError::InvalidState(owned("只有练习 run 支持手动回到 Break")));
    }
    if run.phase != AwdpPhase::Fix {
        let m = cat(cat(owned("concurrent AWDP phase transition: current="), phase_name_of(run.phase)), " expected=Fix");
        return Err(AwdpError::Conflict(m));
    }
    reset_to_break(run, now, false);
    Ok(())
}

/// Practice launch (Pending → Break, which starts the clock); a run already
/// launched is left as it is (`Ok(false)`).
pub fn launch_practice_run(run: &mut AwdpRunState, now: i64) -> (r: Result<bool, AwdpError>)
    requires
        i64::MIN <= now + old(run).break_duration_secs * 1_000_000_000 <= i64::MAX,
    ensures
        !old(run).is_practice ==> (r matches Err(AwdpError::InvalidState(m)) && m@ == "只有练习 run 支持 Launch"@),
        old(run).is_practice && old(run).phase != AwdpPhase::Pending ==> r == Ok::<bool, AwdpError>(false),
        r matches Ok(false) || r is Err ==> *final(run) == *old(run),
        old(run).is_practice && old(run).phase == AwdpPhase::Pending ==> r == Ok::<bool, AwdpError>(true) && *final(run) == (AwdpRunState {
            phase: AwdpPhase::Break,
            started_at: Some(now),
            break_ends_at: Some((now + old(run).break_duration_secs * 1_000_000_000) as i64),
            next_action_at: Some((now + old(run).break_duration_secs * 1_000_000_000) as i64),
            updated_at: now,
            ..*old(run)
        }),
{
    if !run.is_practice {
        return Err(AwdpError::InvalidState(owned("只有练习 run 支持 Launch")));
    }
    if run.phase != AwdpPhase::Pending {
        return Ok(false);
    }
    let ends = now + (run.break_duration_secs as i64) * 1_000_000_000;
    run.phase = AwdpPhase::Break;
    run.started_at = Some(now);
    run.break_ends_at = Some(ends);
    run.next_action_at = Some(ends);
    run.updated_at = now;
    Ok(true)
}

/// Practice end: the run becomes Ended (history is kept); ending an ended run
/// changes nothing (`Ok(false)`).
pub fn end_practice_session(run: &mut AwdpRunState, now: i64) -> (r: Result<bool, AwdpError>)
    ensures
        !old(run).is_practice ==> (r matches Err(AwdpError::InvalidState(m)) && m@ == "只有练习 run 支持 End"@),
        old(run).is_practice && old(run).phase == AwdpPhase::Ended ==> r == Ok::<bool, AwdpError>(false),
        r matches Ok(false) || r is Err ==> *final(run) == *old(run),
        old(run).is_practice && old(run).phase != AwdpPhase::Ended ==> r == Ok::<bool, AwdpError>(true) && *final(run) == (AwdpRunState {
            phase: AwdpPhase::Ended,
            finished_at: Some(now),
            next_action_at: None,
            updated_at: now,
            ..*old(run)
        }),
{
    if !run.is_practice {
        return Err(AwdpError::InvalidState(owned("只有练习 run 支持 End")));
    }
    if run.phase == AwdpPhase::Ended {
        return Ok(false);
    }
    run.phase = AwdpPhase::Ended;
    run.finished_at = Some(now);
    run.next_action_at = None;
    run.updated_at = now;
    Ok(true)
}

/// Practice restart from scratch: only practice runs in Break or Fix; the run
/// gets a fresh Break (`frozen`: the clock does not run until started again).
pub fn rewind_practice_to_break(run: &mut AwdpRunState, frozen: bool, now: i64) -> (r: Result<(), AwdpError>)
    requires
        i64::MIN <= now + old(run).break_duration_secs * 1_000_000_000 <= i64::MAX,
    ensures
        !old(run).is_practice ==> (r matches Err(AwdpError::InvalidState(m)) && m@ == "只有练习 run 支持手动开始/结束"@),
        old(run).is_practice && !(old(run).phase == AwdpPhase::Break || old(run).phase == AwdpPhase::Fix) ==> (r matches Err(AwdpError::InvalidState(m))
            && m@ == "只有 Break/Fix 阶段的练习 run 支持开始/结束（当前 "@ + phase_name(old(run).phase) + "）"@),
        r is Err ==> *final(run) == *old(run),
        r is Ok <==> old(run).is_practice && (old(run).phase == AwdpPhase::Break || old(run).phase == AwdpPhase::Fix),
        r is Ok ==> *final(run) == fresh_break(*old(run), now, frozen),
{
    if !run.is_practice {
        return Err(AwdpError::InvalidState(owned("只有练习 run 支持手动开始/结束")));
    }
    if !(run.phase == AwdpPhase::Break || run.phase == AwdpPhase::Fix) {
        let m = cat(cat(owned("只有 Break/Fix 阶段的练习 run 支持开始/结束（当前 "), phase_name_of(run.phase)), "）");
        return Err(AwdpError::InvalidState(m));
    }
    reset_to_break(run, now, frozen);
    Ok(())
}

/// Law: every accepted phase move follows the linear machine (the new phase
/// is the one after the old), so no run skips or revisits a phase through
/// [`transition_run`].
pub proof fn law_moves_follow_the_machine(run: AwdpRunState, expected: AwdpPhase, target: AwdpPhase, patch: PhaseTransitionPatch, now: i64)
    requires
        transition_allowed(expected, target),
        run.phase == expected,
    ensures
        moved(run, target, patch, now).phase == target,
        crate::awdp_phase::rank(moved(run, target, patch, now).phase) == crate::awdp_phase::rank(run.phase) + 1,
{
}

/// Law: going back to Break erases the whole fix session: whichever phase the
/// practice run was in, the result is the same fresh Break, keeping only the
/// run's identity and configuration.
pub proof fn law_rewind_erases_fix_session(a: AwdpRunState, b: AwdpRunState, now: i64, frozen: bool)
    requires
        a.is_practice == b.is_practice,
        a.break_duration_secs == b.break_duration_secs,
    ensures
        fresh_break(a, now, frozen) == fresh_break(b, now, frozen),
{
}


/// The timeline shown in a player's overview of an AWD-Plus event.
#[derive(Debug, Clone, Copy, PartialEq, Eq, Structural)]
pub struct OverviewTimeline {
    pub phase: AwdpPhase,
    pub total_rounds: i32,
    pub started_at: Option<i64>,
    pub break_ends_at: Option<i64>,
    pub fix_started_at: Option<i64>,
    pub fix_ends_at: Option<i64>,
    pub finished_at: Option<i64>,
    pub current_round: i32,
    pub next_action_at: Option<i64>,
}

/// The overview timeline: the displayed run's phase and instants (Pending,
/// round 0 and no instants before a run exists) and the configured number of
/// fix rounds.
pub fn overview_timeline(run: Option<AwdpRunState>, config: &crate::awdp_config::AwdpConfig) -> (t: OverviewTimeline)
    requires
        config.fix_round_interval_secs != 0,
        !(config.fix_duration_secs == i32::MIN && config.fix_round_interval_secs == -1),
    ensures
        t.total_rounds == crate::awdp_timing::trunc_div(config.fix_duration_secs as int, config.fix_round_interval_secs as int),
        run is None ==> t.phase == AwdpPhase::Pending && t.current_round == 0 && t.started_at is None
            && t.break_ends_at is None && t.fix_started_at is None && t.fix_ends_at is None && t.finished_at is None
            && t.next_action_at is None,
        run matches Some(r) ==> t.phase == r.phase && t.current_round == r.current_round && t.started_at == r.started_at
            && t.break_ends_at == r.break_ends_at && t.fix_started_at == r.fix_started_at && t.fix_ends_at == r.fix_ends_at
            && t.finished_at == r.finished_at && t.next_action_at == r.next_action_at,
{
    let total = config.total_rounds();
    match run {
        None => OverviewTimeline {
            phase: AwdpPhase::Pending,
            total_rounds: total,
            started_at: None,
            break_ends_at: None,
            fix_started_at: None,
            fix_ends_at: None,
            finished_at: None,
            current_round: 0,
            next_action_at: None,
        },
        Some(r) => OverviewTimeline {
            phase: r.phase,
            total_rounds: total,
            started_at: r.started_at,
            break_ends_at: r.break_ends_at,
            fix_started_at: r.fix_started_at,
            fix_ends_at: r.fix_ends_at,
            finished_at: r.finished_at,
            current_round: r.current_round,
            next_action_at: r.next_action_at,
        },
    }
}

/// A game box's source code is offered only while the displayed run is in Fix.
pub fn source_code_visible(run_phase: Option<AwdpPhase>) -> (b: bool)
    ensures
        b == (run_phase == Some(AwdpPhase::Fix)),
{
    match run_phase {
        Some(AwdpPhase::Fix) => true,
        _ => false,
    }
}

/// A game box of the event as the player's overview lists it.
#[derive(Debug, Clone, PartialEq, Eq)]
pub struct OverviewBox {
    pub id: u128,
    pub gamebox_id: u128,
    pub name: String,
    pub category: String,
    pub enabled: bool,
    pub hidden: bool,
    /// The game box's source-code directory (in the output: the one shown).
    pub source_code_dir: Option<String>,
}

/// A listed game box as shown: its source-code directory only while the
/// displayed run is in Fix.
pub open spec fn shown_box(run_phase: Option<AwdpPhase>, b: OverviewBox) -> OverviewBox {
    OverviewBox {
        id: b.id,
        gamebox_id: b.gamebox_id,
        name: b.name,
        category: b.category,
        enabled: b.enabled,
        hidden: b.hidden,
        source_code_dir: if run_phase == Some(AwdpPhase::Fix) {
            b.source_code_dir
        } else {
            None
        },
    }
}

/// The overview's game boxes: the event's boxes in order, hidden ones left
/// out, each shown as `shown_box` says.
pub open spec fn overview_spec(run_phase: Option<AwdpPhase>, boxes: Seq<OverviewBox>) -> Seq<OverviewBox>
    decreases boxes.len(),
{
    if boxes.len() == 0 {
        Seq::empty()
    } else {
        let rest = overview_spec(run_phase, boxes.drop_last());
        if boxes.last().hidden {
            rest
        } else {
            rest.push(shown_box(run_phase, boxes.last()))
        }
    }
}

/// The game boxes of a player's overview: hidden boxes are skipped and source
/// directories are offered only in Fix (`run_phase` is the displayed run's
/// phase, `None` before a run exists).
pub fn overview_gameboxes(run_phase: Option<AwdpPhase>, boxes: &[OverviewBox]) -> (r: Vec<OverviewBox>)
    ensures
        r@ == overview_spec(run_phase, boxes@),
{
    let visible = source_code_visible(run_phase);
    let mut out: Vec<OverviewBox> = Vec::new();
    let mut i: usize = 0;
    while i < boxes.len()
        invariant
            0 <= i <= boxes@.len(),
            visible == (run_phase == Some(AwdpPhase::Fix)),
            out@ == overview_spec(run_phase, boxes@.subrange(0, i as int)),
        decreases boxes@.len() - i,
    {
        let b = &boxes[i];
        proof {
            assert(boxes@.subrange(0, i as int + 1).drop_last() =~= boxes@.subrange(0, i as int));
            assert(boxes@.subrange(0, i as int + 1).last() == boxes@[i as int]);
        }
        if !b.hidden {
            let dir = if visible {
                match &b.source_code_dir {
                    Some(d) => Some(d.clone()),
                    None => None,
                }
            } else {
                None
            };
            out.push(
                OverviewBox {
                    id: b.id,
                    gamebox_id: b.gamebox_id,
                    name: b.name.clone(),
                    category: b.category.clone(),
                    enabled: b.enabled,
                    hidden: b.hidden,
                    source_code_dir: dir,
                },
            );
        }
        i = i + 1;
    }
    assert(boxes@.subrange(0, boxes@.len() as int) =~= boxes@);
    out
}

/// The subject's score in the overview: its total in the displayed run, or 0
/// before a run exists (`run_total` is `None` then).
pub fn overview_score(run_total: Option<i64>) -> (s: i64)
    ensures
        s == match run_total {
            Some(t) => t,
            None => 0,
        },
{
    match run_total {
        Some(t) => t,
        None => 0,
    }
}

} // verus!

//! Access rules of the AWD-Plus player, training and admin endpoints: who
//! may act on a run or an instance, in which phase, what a catalog query asks
//! for, and the admin phase moves. Instants are Unix nanoseconds.

use vstd::prelude::*;

use crate::awdp_phase::{phase_name, phase_name_of, AwdpPhase};
use crate::awdp_run::PhaseTransitionPatch;
use crate::error::AwdpError;
use crate::lines::{trim, trim_spec};
use crate::text::{ascii_lower, cat, owned, text_eq, to_ascii_lower, uuid_string, uuid_text};

verus! {

/// A training run is acted on only by its owner.
pub fn require_run_owner(owner_user_id: Option<u128>, user_id: u128) -> (r: Result<(), AwdpError>)
    ensures
        owner_user_id == Some(user_id) <==> r is Ok,
        r is Err ==> (r matches Err(AwdpError::Forbidden(m)) && m@ == "该训练 run 不属于你"@),
{
    if owner_user_id != Some(user_id) {
        return Err(AwdpError::Forbidden(owned("该训练 run 不属于你")));
    }
    Ok(())
}

/// A launched run that has not ended (not Pending, not Ended).
pub open spec fn in_session(phase: AwdpPhase) -> bool {
    phase != AwdpPhase::Pending && phase != AwdpPhase::Ended
}

/// Starting a practice run: only once launched and before it ended, and only
/// a practice run (one bound to a game box, which is returned).
pub fn practice_start_gate(phase: AwdpPhase, gamebox_id: Option<u128>) -> (r: Result<u128, AwdpError>)
    ensures
        !in_session(phase) ==> (r matches Err(AwdpError::InvalidState(m))
            && m@ == "只有 Break/Fix 阶段的练习 run 可以开始（当前 "@ + phase_name(phase) + "）"@),
        in_session(phase) && gamebox_id is None ==> (r matches Err(AwdpError::InvalidState(m))
            && m@ == "只有练习 run 支持手动开始"@),
        in_session(phase) ==> match gamebox_id {
            Some(g) => r == Ok::<u128, AwdpError>(g),
            None => r is Err,
        },
{
    if phase == AwdpPhase::Pending || phase == AwdpPhase::Ended {
        let m = cat(cat(owned("只有 Break/Fix 阶段的练习 run 可以开始（当前 "), phase_name_of(phase)), "）");
        return Err(AwdpError::InvalidState(m));
    }
    match gamebox_id {
        Some(g) => Ok(g),
        None => Err(AwdpError::InvalidState(owned("只有练习 run 支持手动开始"))),
    }
}

/// Ending a practice run: only a practice run, only once launched and before it ended.
pub fn practice_end_gate(phase: AwdpPhase, gamebox_id: Option<u128>) -> (r: Result<(), AwdpError>)
    ensures
        gamebox_id is None ==> (r matches Err(AwdpError::InvalidState(m)) && m@ == "只有练习 run 支持手动结束"@),
        gamebox_id is Some && !in_session(phase) ==> (r matches Err(AwdpError::InvalidState(m))
            && m@ == "只有 Break/Fix 阶段的练习 run 可以结束（当前 "@ + phase_name(phase) + "）"@),
        r is Ok <==> gamebox_id is Some && in_session(phase),
{
    if gamebox_id.is_none() {
        return Err(AwdpError::InvalidState(owned("只有练习 run 支持手动结束")));
    }
    if phase == AwdpPhase::Pending || phase == AwdpPhase::Ended {
        let m = cat(cat(owned("只有 Break/Fix 阶段的练习 run 可以结束（当前 "), phase_name_of(phase)), "）");
        return Err(AwdpError::InvalidState(m));
    }
    Ok(())
}

/// Downloading a training run's source: only in Fix, and only for the run's own game box.
pub fn practice_source_gate(phase: AwdpPhase, run_gamebox_id: Option<u128>, gamebox_id: u128) -> (r: Result<(), AwdpError>)
    ensures
        phase != AwdpPhase::Fix ==> (r matches Err(AwdpError::InvalidState(m)) && m@ == "source.zip 仅在 Fix 阶段可下载"@),
        phase == AwdpPhase::Fix && run_gamebox_id != Some(gamebox_id) ==> (r matches Err(AwdpError::Validation(m))
            && m@ == "gamebox 不属于该训练 run"@),
        r is Ok <==> phase == AwdpPhase::Fix && run_gamebox_id == Some(gamebox_id),
{
    if phase != AwdpPhase::Fix {
        return Err(AwdpError::InvalidState(owned("source.zip 仅在 Fix 阶段可下载")));
    }
    if run_gamebox_id != Some(gamebox_id) {
        return Err(AwdpError::Validation(owned("gamebox 不属于该训练 run")));
    }
    Ok(())
}

/// Downloading a competition game box's source: only in Fix.
pub fn competition_source_gate(phase: AwdpPhase) -> (r: Result<(), AwdpError>)
    ensures
        phase == AwdpPhase::Fix <==> r is Ok,
        r is Err ==> (r matches Err(AwdpError::InvalidState(m)) && m@ == "source.tar.gz 仅在 Fix 阶段可下载"@),
{
    if phase != AwdpPhase::Fix {
        return Err(AwdpError::InvalidState(owned("source.tar.gz 仅在 Fix 阶段可下载")));
    }
    Ok(())
}

/// The source archive a download hands out.
#[derive(Debug, Clone, Copy, PartialEq, Eq, Structural)]
pub enum SourceArchive {
    /// `source.zip` of a training run.
    Zip,
    /// `source.tar.gz` of a competition.
    TarGz,
}

/// The storage key of a game box's source archive; a game box without one has
/// no AWD-Plus capability.
pub fn source_artifact_key(key: Option<String>, archive: SourceArchive) -> (r: Result<String, AwdpError>)
    ensures
        match key {
            Some(k) => r matches Ok(x) && x@ == k@,
            None => r matches Err(AwdpError::NotFound(m)) && m@ == (match archive {
                SourceArchive::Zip => "该 GameBox 没有 source.zip 产物（无 [awdp] capability）"@,
                SourceArchive::TarGz => "该 GameBox 没有 source.tar.gz 产物（无 [awdp] capability）"@,
            }),
        },
{
    match key {
        Some(k) => Ok(k),
        None => match archive {
            SourceArchive::Zip => Err(AwdpError::NotFound(owned("该 GameBox 没有 source.zip 产物（无 [awdp] capability）"))),
            SourceArchive::TarGz => Err(AwdpError::NotFound(owned("该 GameBox 没有 source.tar.gz 产物（无 [awdp] capability）"))),
        },
    }
}

/// The event is an AWD-Plus event.
pub fn require_awdp_event(is_awdp: bool) -> (r: Result<(), AwdpError>)
    ensures
        is_awdp <==> r is Ok,
        r is Err ==> (r matches Err(AwdpError::Validation(m)) && m@ == "not an AWDP event"@),
{
    if !is_awdp {
        return Err(AwdpError::Validation(owned("not an AWDP event")));
    }
    Ok(())
}

/// A player action needs the event's run to have started.
pub fn require_started<T>(run: Option<T>) -> (r: Result<T, AwdpError>)
    ensures
        match run {
            Some(x) => r == Ok::<T, AwdpError>(x),
            None => r matches Err(AwdpError::InvalidState(m)) && m@ == "AWDP 事件尚未开始"@,
        },
{
    match run {
        Some(x) => Ok(x),
        None => Err(AwdpError::InvalidState(owned("AWDP 事件尚未开始"))),
    }
}

/// An admin phase move needs the event's active run.
pub fn require_active_run<T>(run: Option<T>) -> (r: Result<T, AwdpError>)
    ensures
        match run {
            Some(x) => r == Ok::<T, AwdpError>(x),
            None => r matches Err(AwdpError::InvalidState(m)) && m@ == "AWDP 事件尚未启动（无 active run）"@,
        },
{
    match run {
        Some(x) => Ok(x),
        None => Err(AwdpError::InvalidState(owned("AWDP 事件尚未启动（无 active run）"))),
    }
}

/// An instance action needs the subject's instance to exist.
pub fn require_instance<T>(view: Option<T>) -> (r: Result<T, AwdpError>)
    ensures
        match view {
            Some(x) => r == Ok::<T, AwdpError>(x),
            None => r matches Err(AwdpError::NotFound(m)) && m@ == "instance not started"@,
        },
{
    match view {
        Some(x) => Ok(x),
        None => Err(AwdpError::NotFound(owned("instance not started"))),
    }
}

/// Who acts in an event: a user (individual events) or a team (team events).
#[derive(Debug, Clone, Copy, PartialEq, Eq, Structural)]
pub struct Subject {
    pub user_id: Option<u128>,
    pub team_id: Option<u128>,
}

/// The subject of a user in an event: the user itself in an individual
/// event; in a team event the user's team, which it must have.
pub fn resolve_subject(team_mode: bool, user_id: u128, membership_team: Option<u128>) -> (r: Result<Subject, AwdpError>)
    ensures
        !team_mode ==> r == Ok::<Subject, AwdpError>(Subject { user_id: Some(user_id), team_id: None }),
        team_mode ==> match membership_team {
            Some(t) => r == Ok::<Subject, AwdpError>(Subject { user_id: None, team_id: Some(t) }),
            None => r matches Err(AwdpError::Forbidden(m)) && m@ == "you are not in any team for this event"@,
        },
{
    if team_mode {
        match membership_team {
            Some(t) => Ok(Subject { user_id: None, team_id: Some(t) }),
            None => Err(AwdpError::Forbidden(owned("you are not in any team for this event"))),
        }
    } else {
        Ok(Subject { user_id: Some(user_id), team_id: None })
    }
}

/// The subject owns an instance: a user subject its user-owned instances, a
/// team subject its team-owned ones; a malformed subject owns nothing.
pub open spec fn owns(s: Subject, owner_user_id: Option<u128>, owner_team_id: Option<u128>) -> bool {
    match (s.user_id, s.team_id) {
        (Some(u), None) => owner_user_id == Some(u),
        (None, Some(t)) => owner_team_id == Some(t),
        _ => false,
    }
}

/// Whether an evaluation of an instance is shown to the subject.
pub fn subject_owns(s: Subject, owner_user_id: Option<u128>, owner_team_id: Option<u128>) -> (b: bool)
    ensures
        b == owns(s, owner_user_id, owner_team_id),
{
    match (s.user_id, s.team_id) {
        (Some(u), None) => owner_user_id == Some(u),
        (None, Some(t)) => owner_team_id == Some(t),
        _ => false,
    }
}

/// A catalog query lists game boxes unless it asks for a capability other than `awdp`.
pub fn catalog_lists(capability: Option<&str>) -> (b: bool)
    ensures
        b == (match capability {
            Some(c) => c@ == "awdp"@,
            None => true,
        }),
{
    match capability {
        Some(c) => text_eq(c, "awdp"),
        None => true,
    }
}

/// The `solved` filter value asks for solved game boxes: trimmed and
/// lowercased, one of `true`, `1`, `yes`, `y`, `是`.
pub open spec fn solved_wanted(v: Seq<char>) -> bool {
    let w = ascii_lower(trim_spec(v));
    w == "true"@ || w == "1"@ || w == "yes"@ || w == "y"@ || w == "是"@
}

/// Reads the `solved` catalog filter.
pub fn wants_solved(v: &str) -> (b: bool)
    ensures
        b == solved_wanted(v@),
{
    let t = trim(v);
    let w = to_ascii_lower(t.as_str());
    let s = w.as_str();
    text_eq(s, "true") || text_eq(s, "1") || text_eq(s, "yes") || text_eq(s, "y") || text_eq(s, "是")
}

/// Audit text of a saved writeup: created or updated, with the run.
pub fn writeup_log_text(existed: bool, run_id: u128) -> (s: String)
    ensures
        s@ == (if existed { "更新"@ } else { "创建"@ }) + " AWDP Run "@ + uuid_text(run_id) + " 的 Writeup"@,
{
    let verb = if existed { "更新" } else { "创建" };
    let id = uuid_string(run_id);
    cat(cat(cat(owned(verb), " AWDP Run "), id.as_str()), " 的 Writeup")
}

/// First chunk of an event stream, sent on connect.
pub const STREAM_CONNECTED: &'static str = ": connected\n\n";

/// One server-sent event carrying a JSON payload.
pub fn sse_data_frame(json: &str) -> (s: String)
    ensures
        s@ == "data: "@ + json@ + "\n\n"@,
{
    cat(cat(owned("data: "), json), "\n\n")
}

/// The admin start of a competition run still Pending: Break starts now and
/// its end is the next action.
pub fn competition_break_patch(now: i64, break_duration_secs: i32) -> (p: PhaseTransitionPatch)
    requires
        i64::MIN <= now + break_duration_secs * 1_000_000_000 <= i64::MAX,
    ensures
        p == (PhaseTransitionPatch {
            started_at: Some(now),
            break_ends_at: Some((now + break_duration_secs * 1_000_000_000) as i64),
            fix_started_at: None,
            fix_ends_at: None,
            finished_at: None,
            current_round: None,
            next_action_at: Some((now + break_duration_secs * 1_000_000_000) as i64),
        }),
{
    let ends = now + break_duration_secs as i64 * 1_000_000_000;
    PhaseTransitionPatch {
        started_at: Some(now),
        break_ends_at: Some(ends),
        fix_started_at: None,
        fix_ends_at: None,
        finished_at: None,
        current_round: None,
        next_action_at: Some(ends),
    }
}

/// The admin finish (Fix → Ended): only the finish time is written.
pub fn competition_finish_patch(now: i64) -> (p: PhaseTransitionPatch)
    ensures
        p == (PhaseTransitionPatch {
            started_at: None,
            break_ends_at: None,
            fix_started_at: None,
            fix_ends_at: None,
            finished_at: Some(now),
            current_round: None,
            next_action_at: None,
        }),
{
    PhaseTransitionPatch {
        started_at: None,
        break_ends_at: None,
        fix_started_at: None,
        fix_ends_at: None,
        finished_at: Some(now),
        current_round: None,
        next_action_at: None,
    }
}

/// Sum of the first `n` totals.
pub open spec fn sum_prefix(totals: Seq<i64>, n: int) -> int
    decreases n,
{
    if n <= 0 {
        0
    } else {
        sum_prefix(totals, n - 1) + totals[n - 1]
    }
}

/// Every partial sum of the totals fits in `i64`.
pub open spec fn sums_fit(totals: Seq<i64>) -> bool {
    forall|n: int| 0 <= n <= totals.len() ==> i64::MIN <= #[trigger] sum_prefix(totals, n) <= i64::MAX
}

/// Score sum of a run for the admin overview: the subjects' totals added up.
pub fn score_sum(totals: &[i64]) -> (s: i64)
    requires
        sums_fit(totals@),
    ensures
        s == sum_prefix(totals@, totals@.len() as int),
{
    let mut acc: i64 = 0;
    let mut i: usize = 0;
    while i < totals.len()
        invariant
            i <= totals@.len(),
            sums_fit(totals@),
            acc == sum_prefix(totals@, i as int),
        decreases totals@.len() - i,
    {
        assert(i64::MIN <= sum_prefix(totals@, i + 1) <= i64::MAX);
        acc = acc + totals[i];
        i = i + 1;
    }
    acc
}

/// System key of the virtual practice event.
pub const PRACTICE_EVENT_SYSTEM_KEY: &'static str = "awdp-practice";

/// The practice judge is configured only on the virtual practice event (an
/// AWD-Plus event with the practice system key).
pub fn practice_judge_event_gate(is_awdp: bool, system_key: Option<&str>) -> (r: Result<(), AwdpError>)
    ensures
        !is_awdp ==> (r matches Err(AwdpError::Validation(m)) && m@ == "not an AWDP event"@),
        is_awdp && !(system_key matches Some(k) && k@ == PRACTICE_EVENT_SYSTEM_KEY@) ==> (r matches Err(
            AwdpError::Validation(m),
        ) && m@ == "练习 Judge 仅可在 AWDPlusPractice 虚拟赛事配置"@),
        r is Ok <==> is_awdp && (system_key matches Some(k) && k@ == PRACTICE_EVENT_SYSTEM_KEY@),
{
    if !is_awdp {
        return Err(AwdpError::Validation(owned("not an AWDP event")));
    }
    let practice = match system_key {
        Some(k) => text_eq(k, PRACTICE_EVENT_SYSTEM_KEY),
        None => false,
    };
    if !practice {
        return Err(AwdpError::Validation(owned("练习 Judge 仅可在 AWDPlusPractice 虚拟赛事配置")));
    }
    Ok(())
}

} // verus!

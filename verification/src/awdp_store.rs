//! Decisions of the AWD-Plus record stores: whose rows a query reads, how a
//! failed insert is resolved, the write-back of an instance's runtime state,
//! patch bookkeeping, new runs and the optimistic configuration update.
//! Instants are Unix nanoseconds.

use vstd::prelude::*;

use crate::awdp_config::{config_error, patch_error, patched, AwdpConfig, AwdpConfigPatch};
use crate::awdp_phase::AwdpPhase;
use crate::error::AwdpError;
use crate::gamebox::BUILD_STATUS_READY;
use crate::text::{cat, contains_text, debug_str, has_substring, owned, str_debug, text_eq, uuid_string, uuid_text};

verus! {

/// The single subject a participant query is about.
#[derive(Debug, Clone, Copy, PartialEq, Eq, Structural)]
pub enum Owner {
    User(u128),
    Team(u128),
}

/// Exactly one of a user and a team must be given.
pub fn owner_of(user_id: Option<u128>, team_id: Option<u128>) -> (r: Result<Owner, AwdpError>)
    ensures
        match (user_id, team_id) {
            (Some(u), None) => r == Ok::<Owner, AwdpError>(Owner::User(u)),
            (None, Some(t)) => r == Ok::<Owner, AwdpError>(Owner::Team(t)),
            _ => r matches Err(AwdpError::Internal(m)) && m@ == "exactly-one owner required"@,
        },
{
    match (user_id, team_id) {
        (Some(u), None) => Ok(Owner::User(u)),
        (None, Some(t)) => Ok(Owner::Team(t)),
        _ => Err(AwdpError::Internal(owned("exactly-one owner required"))),
    }
}

/// A failed break insert: a clash on a per-subject unique index means the
/// break was already recorded (`Ok(false)`); anything else is a database error.
/// `exec_text` is the driver's message when the failure is an execution error.
pub fn break_insert_failure(exec_text: Option<&str>, text: String) -> (r: Result<bool, AwdpError>)
    ensures
        (exec_text matches Some(x) && (has_substring(x@, "awdp_breaks_user_uidx"@) || has_substring(
            x@,
            "awdp_breaks_team_uidx"@,
        ))) ==> r == Ok::<bool, AwdpError>(false),
        !(exec_text matches Some(x) && (has_substring(x@, "awdp_breaks_user_uidx"@) || has_substring(
            x@,
            "awdp_breaks_team_uidx"@,
        ))) ==> (r matches Err(AwdpError::Database(m)) && m@ == text@),
{
    match exec_text {
        Some(x) => {
            if contains_text(x, "awdp_breaks_user_uidx") || contains_text(x, "awdp_breaks_team_uidx") {
                return Ok(false);
            }
        },
        None => {},
    }
    Err(AwdpError::Database(text))
}

/// A failed instance insert: a clash on an instance unique index is the
/// subject's second live instance of the game box.
pub fn instance_insert_failure(exec_text: Option<&str>, text: String) -> (e: AwdpError)
    ensures
        (exec_text matches Some(x) && has_substring(x@, "awdp_instances_"@)) ==> (e matches AwdpError::Conflict(m)
            && m@ == "该 GameBox 已有一个进行中的实例（subject × gamebox 唯一）"@),
        !(exec_text matches Some(x) && has_substring(x@, "awdp_instances_"@)) ==> (e matches AwdpError::Database(m)
            && m@ == text@),
{
    match exec_text {
        Some(x) => {
            if contains_text(x, "awdp_instances_") {
                return AwdpError::Conflict(owned("该 GameBox 已有一个进行中的实例（subject × gamebox 唯一）"));
            }
        },
        None => {},
    }
    AwdpError::Database(text)
}

/// A failed mount of a game box on an event: the mount's unique index means
/// it is mounted already.
pub fn mount_insert_failure(exec_text: Option<&str>, text: String) -> (e: AwdpError)
    ensures
        (exec_text matches Some(x) && has_substring(x@, "awdp_event_gameboxes_unique"@)) ==> (e matches AwdpError::Conflict(m)
            && m@ == "该 GameBox 已挂载到本赛事"@),
        !(exec_text matches Some(x) && has_substring(x@, "awdp_event_gameboxes_unique"@)) ==> (e matches AwdpError::Database(m)
            && m@ == text@),
{
    match exec_text {
        Some(x) => {
            if contains_text(x, "awdp_event_gameboxes_unique") {
                return AwdpError::Conflict(owned("该 GameBox 已挂载到本赛事"));
            }
        },
        None => {},
    }
    AwdpError::Database(text)
}

/// A failed score-ledger insert: a clash on the idempotency key means the
/// score was written before (`Ok(false)`: no double scoring).
pub fn score_insert_failure(text: String) -> (r: Result<bool, AwdpError>)
    ensures
        has_substring(text@, "awdp_score_events_idempotency_key_uidx"@) ==> r == Ok::<bool, AwdpError>(false),
        !has_substring(text@, "awdp_score_events_idempotency_key_uidx"@) ==> (r matches Err(AwdpError::Database(m))
            && m@ == text@),
{
    if contains_text(text.as_str(), "awdp_score_events_idempotency_key_uidx") {
        Ok(false)
    } else {
        Err(AwdpError::Database(text))
    }
}

/// The failure text reports a clash on the one-active-run-per-scope index.
pub open spec fn active_run_clash(text: Seq<char>) -> bool {
    has_substring(text, "awdp_runs_event_active_uidx"@)
}

/// A failed practice-run insert: the user already trains this game box.
pub fn practice_run_insert_failure(text: String) -> (e: AwdpError)
    ensures
        active_run_clash(text@) ==> (e matches AwdpError::Conflict(m) && m@ == "该 GameBox 已有一个进行中的训练 run"@),
        !active_run_clash(text@) ==> (e matches AwdpError::Database(m) && m@ == text@),
{
    if contains_text(text.as_str(), "awdp_runs_event_active_uidx") {
        AwdpError::Conflict(owned("该 GameBox 已有一个进行中的训练 run"))
    } else {
        AwdpError::Database(text)
    }
}

/// A failed competition-run insert lost the race to a concurrent start: the
/// active run is read back instead.
pub fn competition_run_raced(text: &str) -> (b: bool)
    ensures
        b == active_run_clash(text@),
{
    contains_text(text, "awdp_runs_event_active_uidx")
}

/// A failed official-evaluation insert that met the one-per-(round, instance)
/// index: the existing evaluation is read back instead.
pub fn official_evaluation_raced(text: &str) -> (b: bool)
    ensures
        b == has_substring(text@, "awdp_evaluations_official_uidx"@),
{
    contains_text(text, "awdp_evaluations_official_uidx")
}

/// Who may own an instance of a run: a practice run only a user, a
/// competition run some subject.
pub fn instance_scope_gate(practice: bool, owner_user_id: Option<u128>, owner_team_id: Option<u128>) -> (r: Result<(), AwdpError>)
    ensures
        practice && owner_team_id is Some ==> (r matches Err(AwdpError::Validation(m))
            && m@ == "practice run 只支持 individual 主体"@),
        !practice && owner_user_id is None && owner_team_id is None ==> (r matches Err(AwdpError::Internal(m))
            && m@ == "competition instance 必须指定主体"@),
        r is Ok <==> !(practice && owner_team_id is Some) && !(!practice && owner_user_id is None && owner_team_id is None),
{
    if practice && owner_team_id.is_some() {
        return Err(AwdpError::Validation(owned("practice run 只支持 individual 主体")));
    }
    if !practice && owner_user_id.is_none() && owner_team_id.is_none() {
        return Err(AwdpError::Internal(owned("competition instance 必须指定主体")));
    }
    Ok(())
}

/// The runtime columns of an instance.
pub struct InstanceRuntime {
    pub runtime_state: String,
    pub container_id: Option<String>,
    pub runtime_generation: i64,
    pub started_at: Option<i64>,
    pub stopped_at: Option<i64>,
    pub updated_at: i64,
}

/// Writes back an instance's runtime state after a container operation: the
/// state and generation always, the container id when one is given; entering
/// `running` stamps the start, entering `stopped` the stop.
pub fn apply_runtime_state(
    inst: &mut InstanceRuntime,
    runtime_state: &str,
    container_id: Option<&str>,
    generation: i64,
    now: i64,
)
    ensures
        final(inst).runtime_state@ == runtime_state@,
        final(inst).runtime_generation == generation,
        match container_id {
            Some(c) => final(inst).container_id matches Some(x) && x@ == c@,
            None => final(inst).container_id == old(inst).container_id,
        },
        final(inst).started_at == (if runtime_state@ == "running"@ { Some(now) } else { old(inst).started_at }),
        final(inst).stopped_at == (if runtime_state@ != "running"@ && runtime_state@ == "stopped"@ {
            Some(now)
        } else {
            old(inst).stopped_at
        }),
        final(inst).updated_at == now,
{
    inst.runtime_state = owned(runtime_state);
    match container_id {
        Some(c) => {
            inst.container_id = Some(owned(c));
        },
        None => {},
    }
    inst.runtime_generation = generation;
    if text_eq(runtime_state, "running") {
        inst.started_at = Some(now);
    } else if text_eq(runtime_state, "stopped") {
        inst.stopped_at = Some(now);
    }
    inst.updated_at = now;
}

/// Final status of an applied patch: `applied` when the script exited 0, else `failed`.
pub fn patch_final_status(ok: bool) -> (s: &'static str)
    ensures
        s@ == (if ok { "applied"@ } else { "failed"@ }),
{
    if ok {
        "applied"
    } else {
        "failed"
    }
}

/// Error message written on a patch left `applying` by a crash.
pub const STALE_APPLYING_MESSAGE: &'static str = "stale applying recovered（平台崩溃/重启；不能证明容器修改完整，需重新上传）";

/// A patch still `applying` that started before the stale bound is recovered
/// as failed (never assumed applied).
pub fn is_stale_applying(status: &str, apply_started_at: Option<i64>, stale_before: i64) -> (b: bool)
    ensures
        b == (status@ == "applying"@ && (apply_started_at matches Some(t) && t < stale_before)),
{
    text_eq(status, "applying") && match apply_started_at {
        Some(t) => t < stale_before,
        None => false,
    }
}

/// A patch counts for a fix round when it was applied by the round's cutoff.
pub fn applied_by_cutoff(status: &str, applied_at: Option<i64>, cutoff: i64) -> (b: bool)
    ensures
        b == (status@ == "applied"@ && (applied_at matches Some(t) && t <= cutoff)),
{
    text_eq(status, "applied") && match applied_at {
        Some(t) => t <= cutoff,
        None => false,
    }
}

/// A run is due for the tick when its next action is at or before `now` and it has not ended.
pub fn run_is_due(next_action_at: Option<i64>, phase: AwdpPhase, now: i64) -> (b: bool)
    ensures
        b == (next_action_at matches Some(t) && t <= now && phase != AwdpPhase::Ended),
{
    match next_action_at {
        Some(t) => t <= now && phase != AwdpPhase::Ended,
        None => false,
    }
}

fn member(v: &[u128], x: u128) -> (b: bool)
    ensures
        b == v@.contains(x),
{
    let mut i: usize = 0;
    while i < v.len()
        invariant
            i <= v@.len(),
            forall|k: int| 0 <= k < i ==> v@[k] != x,
        decreases v@.len() - i,
    {
        if v[i] == x {
            assert(v@[i as int] == x);
            return true;
        }
        i = i + 1;
    }
    false
}

/// The candidates, in order, that are not in `used`.
pub open spec fn unused(candidates: Seq<u128>, used: Seq<u128>) -> Seq<u128>
    decreases candidates.len(),
{
    if candidates.len() == 0 {
        Seq::empty()
    } else {
        let rest = unused(candidates.drop_last(), used);
        if used.contains(candidates.last()) {
            rest
        } else {
            rest.push(candidates.last())
        }
    }
}

proof fn lemma_unused_members(c: Seq<u128>, used: Seq<u128>, x: u128)
    requires
        unused(c, used).contains(x),
    ensures
        c.contains(x),
        !used.contains(x),
    decreases c.len(),
{
    let rest = unused(c.drop_last(), used);
    if rest.contains(x) {
        lemma_unused_members(c.drop_last(), used, x);
        let i = choose|i: int| 0 <= i < c.drop_last().len() && c.drop_last()[i] == x;
        assert(c[i] == x);
    } else {
        assert(x == c.last());
        assert(c[c.len() - 1] == x);
    }
}

/// Law: an event is started only once: no event picked for a new run already
/// has one, and every picked event is a candidate.
pub proof fn law_unstarted_never_has_run(candidates: Seq<u128>, used: Seq<u128>, n: int, x: u128)
    requires
        0 <= n <= unused(candidates, used).len(),
        unused(candidates, used).take(n).contains(x),
    ensures
        candidates.contains(x),
        !used.contains(x),
{
    let i = choose|i: int| 0 <= i < n && unused(candidates, used).take(n)[i] == x;
    assert(unused(candidates, used)[i] == x);
    lemma_unused_members(candidates, used, x);
}

/// Events that should start but have no run yet: the candidates (due AWD-Plus
/// events, earliest start first) without any run, at most `limit` of them.
pub fn pick_unstarted(candidates: &[u128], used: &[u128], limit: u64) -> (r: Vec<u128>)
    ensures
        r@ == unused(candidates@, used@).take(
            if limit < unused(candidates@, used@).len() { limit as int } else { unused(candidates@, used@).len() as int },
        ),
{
    let mut out: Vec<u128> = Vec::new();
    let mut i: usize = 0;
    proof {
        assert(candidates@.subrange(0, 0) =~= Seq::<u128>::empty());
        assert(unused(candidates@.subrange(0, 0), used@) =~= Seq::<u128>::empty());
    }
    while i < candidates.len() && (out.len() as u64) < limit
        invariant
            i <= candidates@.len(),
            out@ == unused(candidates@.subrange(0, i as int), used@),
            out@.len() <= limit,
        decreases candidates@.len() - i,
    {
        let c = candidates[i];
        proof {
            assert(candidates@.subrange(0, i + 1).drop_last() =~= candidates@.subrange(0, i as int));
        }
        if !member(used, c) {
            out.push(c);
        }
        i = i + 1;
    }
    proof {
        lemma_unused_prefix(candidates@, used@, i as int);
        let whole = unused(candidates@, used@);
        if i == candidates.len() {
            assert(candidates@.subrange(0, i as int) =~= candidates@);
            assert(whole.take(whole.len() as int) =~= whole);
        } else {
            assert(out@.len() == limit);
        }
    }
    out
}

proof fn lemma_unused_prefix(c: Seq<u128>, used: Seq<u128>, i: int)
    requires
        0 <= i <= c.len(),
    ensures
        unused(c.subrange(0, i), used).len() <= unused(c, used).len(),
        unused(c.subrange(0, i), used) == unused(c, used).take(unused(c.subrange(0, i), used).len() as int),
    decreases c.len() - i,
{
    if i < c.len() {
        lemma_unused_prefix(c, used, i + 1);
        let pre = c.subrange(0, i);
        assert(c.subrange(0, i + 1).drop_last() =~= pre);
        let a = unused(pre, used);
        let b = unused(c.subrange(0, i + 1), used);
        let whole = unused(c, used);
        assert(b.take(a.len() as int) =~= a);
        assert(whole.take(a.len() as int) =~= whole.take(b.len() as int).take(a.len() as int));
    } else {
        assert(c.subrange(0, i) =~= c);
        assert(unused(c, used).take(unused(c, used).len() as int) =~= unused(c, used));
    }
}

/// `Debug` of an optional text: `Some("…")` (the text as `str` renders it) or `None`.
pub open spec fn opt_text_debug(v: Option<Seq<char>>) -> Seq<char> {
    match v {
        Some(t) => "Some("@ + str_debug(t) + ")"@,
        None => "None"@,
    }
}

/// Whether a game box may be mounted on an AWD-Plus event: its build must be
/// ready and it must carry the source artifact (the full AWD-Plus capability).
pub fn mount_gate(gamebox_id: u128, build_status: Option<&str>, has_awdp_artifact: bool, safe_name: &str) -> (r: Result<(), AwdpError>)
    ensures
        !(build_status matches Some(b) && b@ == BUILD_STATUS_READY@) ==> (r matches Err(AwdpError::Validation(m))
            && m@ == "GameBox "@ + uuid_text(gamebox_id) + " is not ready (status="@ + opt_text_debug(
            match build_status {
                Some(b) => Some(b@),
                None => None,
            },
        ) + "); AWDP 要求完整 [awdp] capability"@),
        (build_status matches Some(b) && b@ == BUILD_STATUS_READY@) && !has_awdp_artifact ==> (r matches Err(
            AwdpError::Validation(m),
        ) && m@ == "GameBox "@ + safe_name@ + " 没有 [awdp] capability（缺少 source.zip 产物），不能用于 AWDP"@),
        r is Ok <==> (build_status matches Some(b) && b@ == BUILD_STATUS_READY@) && has_awdp_artifact,
{
    let ready = match build_status {
        Some(b) => text_eq(b, BUILD_STATUS_READY),
        None => false,
    };
    if !ready {
        let id = uuid_string(gamebox_id);
        let shown = match build_status {
            Some(b) => {
                let d = debug_str(b);
                cat(cat(owned("Some("), d.as_str()), ")")
            },
            None => owned("None"),
        };
        let m = cat(cat(cat(owned("GameBox "), id.as_str()), " is not ready (status="), shown.as_str());
        return Err(AwdpError::Validation(cat(m, "); AWDP 要求完整 [awdp] capability")));
    }
    if !has_awdp_artifact {
        let m = cat(cat(owned("GameBox "), safe_name), " 没有 [awdp] capability（缺少 source.zip 产物），不能用于 AWDP");
        return Err(AwdpError::Validation(m));
    }
    Ok(())
}

/// Whether a mounted game box is offered and shown.
#[derive(Debug, Clone, Copy, PartialEq, Eq, Structural)]
pub struct MountFlags {
    pub enabled: bool,
    pub hidden: bool,
    pub updated_at: i64,
}

/// Sets a mount's `enabled` flag, and its `hidden` flag when one is given.
pub fn apply_mount_flags(flags: &mut MountFlags, enabled: bool, hidden: Option<bool>, now: i64)
    ensures
        *final(flags) == (MountFlags {
            enabled,
            hidden: match hidden {
                Some(h) => h,
                None => old(flags).hidden,
            },
            updated_at: now,
        }),
{
    flags.enabled = enabled;
    match hidden {
        Some(h) => {
            flags.hidden = h;
        },
        None => {},
    }
    flags.updated_at = now;
}

/// The row of a new run: it starts Pending, at round 0, with the
/// configuration frozen in and its round count.
#[derive(Debug, Clone, Copy, PartialEq, Eq, Structural)]
pub struct NewRun {
    pub phase: AwdpPhase,
    pub gamebox_id: Option<u128>,
    pub owner_user_id: Option<u128>,
    pub config: AwdpConfig,
    pub current_round: i32,
    pub total_rounds: i32,
    pub next_action_at: Option<i64>,
}

/// Number of fix rounds of a valid configuration.
pub open spec fn round_count(c: AwdpConfig) -> int {
    c.fix_duration_secs / c.fix_round_interval_secs
}

/// A practice run of a user on a game box: not launched, so no next action
/// (the tick leaves it alone until the player starts it).
pub fn new_practice_run(config: &AwdpConfig, gamebox_id: u128, owner_user_id: u128) -> (r: Result<NewRun, AwdpError>)
    ensures
        config_error(*config) is None <==> r is Ok,
        config_error(*config) matches Some(m) ==> (r matches Err(AwdpError::Validation(x)) && x@ == m),
        r matches Ok(run) ==> run == (NewRun {
            phase: AwdpPhase::Pending,
            gamebox_id: Some(gamebox_id),
            owner_user_id: Some(owner_user_id),
            config: *config,
            current_round: 0,
            total_rounds: round_count(*config) as i32,
            next_action_at: None,
        }),
{
    match config.validate() {
        Ok(()) => {},
        Err(e) => return Err(e),
    }
    let total = config.total_rounds();
    Ok(NewRun {
        phase: AwdpPhase::Pending,
        gamebox_id: Some(gamebox_id),
        owner_user_id: Some(owner_user_id),
        config: *config,
        current_round: 0,
        total_rounds: total,
        next_action_at: None,
    })
}

/// How a competition start proceeds.
#[derive(Debug, Clone, Copy, PartialEq, Eq, Structural)]
pub enum CompetitionRunStart {
    /// The event already has an active run: it is returned as it is.
    ReuseActive,
    /// A new run is created.
    Create,
}

/// Gate of a competition start: a valid configuration; an active run is
/// reused; an event whose run has ended is not started again.
pub fn competition_run_gate(config: &AwdpConfig, has_active_run: bool, any_run_ended: bool) -> (r: Result<CompetitionRunStart, AwdpError>)
    ensures
        config_error(*config) matches Some(m) ==> (r matches Err(AwdpError::Validation(x)) && x@ == m),
        config_error(*config) is None && has_active_run ==> r == Ok::<CompetitionRunStart, AwdpError>(CompetitionRunStart::ReuseActive),
        config_error(*config) is None && !has_active_run && any_run_ended ==> (r matches Err(AwdpError::InvalidState(m))
            && m@ == "该事件已经结束，不能重新启动"@),
        config_error(*config) is None && !has_active_run && !any_run_ended ==> r == Ok::<CompetitionRunStart, AwdpError>(CompetitionRunStart::Create),
{
    match config.validate() {
        Ok(()) => {},
        Err(e) => return Err(e),
    }
    if has_active_run {
        return Ok(CompetitionRunStart::ReuseActive);
    }
    if any_run_ended {
        return Err(AwdpError::InvalidState(owned("该事件已经结束，不能重新启动")));
    }
    Ok(CompetitionRunStart::Create)
}

/// The competition run of an event (configuration already checked): its
/// first action is due at the event's start.
pub fn new_competition_run(config: &AwdpConfig, start_time: i64) -> (run: NewRun)
    requires
        config_error(*config) is None,
    ensures
        run == (NewRun {
            phase: AwdpPhase::Pending,
            gamebox_id: None,
            owner_user_id: None,
            config: *config,
            current_round: 0,
            total_rounds: round_count(*config) as i32,
            next_action_at: Some(start_time),
        }),
{
    let total = config.total_rounds();
    NewRun {
        phase: AwdpPhase::Pending,
        gamebox_id: None,
        owner_user_id: None,
        config: *config,
        current_round: 0,
        total_rounds: total,
        next_action_at: Some(start_time),
    }
}

/// A configuration change must pass its field checks and carry the
/// optimistic-lock token; the token is returned.
pub fn check_config_patch(patch: &AwdpConfigPatch) -> (r: Result<i64, AwdpError>)
    ensures
        patch_error(*patch) matches Some(m) ==> (r matches Err(AwdpError::Validation(x)) && x@ == m),
        patch_error(*patch) is None && patch.expected_updated_at is None ==> (r matches Err(AwdpError::Validation(x))
            && x@ == "expected_updated_at is required for config update"@),
        patch_error(*patch) is None ==> match patch.expected_updated_at {
            Some(t) => r == Ok::<i64, AwdpError>(t),
            None => r is Err,
        },
{
    match patch.validate() {
        Ok(()) => {},
        Err(e) => return Err(e),
    }
    match patch.expected_updated_at {
        Some(t) => Ok(t),
        None => Err(AwdpError::Validation(owned("expected_updated_at is required for config update"))),
    }
}

/// The stored configuration of an AWD-Plus event.
#[derive(Debug, Clone, Copy, PartialEq, Eq, Structural)]
pub struct AwdpEventRow {
    pub config: AwdpConfig,
    pub configuration_generation: i64,
    pub updated_at: i64,
}

/// What a configuration update writes: the new configuration, the next
/// generation, and the event's new end (start + Break + Fix).
#[derive(Debug, Clone, Copy, PartialEq, Eq, Structural)]
pub struct ConfigUpdate {
    pub config: AwdpConfig,
    pub configuration_generation: i64,
    pub end_time: i64,
}

/// Nanoseconds per second.
pub open spec fn secs(n: int) -> int {
    n * 1_000_000_000
}

/// An optimistic configuration update of a checked patch: only on an AWD-Plus
/// event, only before it has an active run, only against the row the caller
/// read (`expected`), and only to a valid configuration.
pub fn plan_config_update(
    event_id: u128,
    patch: &AwdpConfigPatch,
    expected: i64,
    is_awdp_event: bool,
    current: &AwdpEventRow,
    has_active_run: bool,
    start_time: i64,
) -> (r: Result<ConfigUpdate, AwdpError>)
    requires
        current.configuration_generation < i64::MAX,
        is_awdp_event && !has_active_run && expected == current.updated_at && config_error(
            patched(*patch, current.config),
        ) is None ==> start_time + secs(patched(*patch, current.config).break_duration_secs as int) + secs(
            patched(*patch, current.config).fix_duration_secs as int,
        ) <= i64::MAX,
    ensures
        !is_awdp_event ==> (r matches Err(AwdpError::Validation(m)) && m@ == "event "@ + uuid_text(event_id)
            + " is not an AWDP event"@),
        is_awdp_event && has_active_run ==> (r matches Err(AwdpError::InvalidState(m))
            && m@ == "AWDP config is locked (event has an active run)"@),
        is_awdp_event && !has_active_run && expected != current.updated_at ==> (r matches Err(AwdpError::Conflict(m))
            && m@ == "concurrent awdp config update (expected_updated_at mismatch)"@),
        is_awdp_event && !has_active_run && expected == current.updated_at ==> match config_error(
            patched(*patch, current.config),
        ) {
            Some(m) => r matches Err(AwdpError::Validation(x)) && x@ == m,
            None => r == Ok::<ConfigUpdate, AwdpError>(ConfigUpdate {
                config: patched(*patch, current.config),
                configuration_generation: (current.configuration_generation + 1) as i64,
                end_time: (start_time + secs(patched(*patch, current.config).break_duration_secs as int)
                    + secs(patched(*patch, current.config).fix_duration_secs as int)) as i64,
            }),
        },
{
    if !is_awdp_event {
        let id = uuid_string(event_id);
        let m = cat(cat(owned("event "), id.as_str()), " is not an AWDP event");
        return Err(AwdpError::Validation(m));
    }
    if has_active_run {
        return Err(AwdpError::InvalidState(owned("AWDP config is locked (event has an active run)")));
    }
    if expected != current.updated_at {
        return Err(AwdpError::Conflict(owned("concurrent awdp config update (expected_updated_at mismatch)")));
    }
    let next = patch.apply_to(&current.config);
    match next.validate() {
        Ok(()) => {},
        Err(e) => return Err(e),
    }
    let end = start_time + next.break_duration_secs as i64 * 1_000_000_000 + next.fix_duration_secs as i64 * 1_000_000_000;
    Ok(ConfigUpdate { config: next, configuration_generation: current.configuration_generation + 1, end_time: end })
}

} // verus!

//! Judge batches of the AWD engine: which (team, template) pairs get a judge
//! task in a round, the per-task dispatch parameters, the JudgeServer batch
//! endpoint and the bounded error body kept from a rejected dispatch.

use vstd::prelude::*;
use vstd::string::*;

use crate::error::AwdError;
use crate::lines::{trim, trim_spec};
use crate::text::{cat, owned, to_chars, from_chars, sub_chars, uuid_string, uuid_text};

verus! {

/// Status written on a judge batch.
#[derive(Debug, Clone, Copy, PartialEq, Eq, Structural)]
pub enum JudgeBatchStatus {
    Running,
    Completed,
}

/// Stored text of a batch status.
pub open spec fn batch_status_text(s: JudgeBatchStatus) -> Seq<char> {
    match s {
        JudgeBatchStatus::Running => "running"@,
        JudgeBatchStatus::Completed => "completed"@,
    }
}

impl JudgeBatchStatus {
    /// The stored text: `running` / `completed`.
    pub fn as_str(self) -> (s: &'static str)
        ensures
            s@ == batch_status_text(self),
    {
        match self {
            JudgeBatchStatus::Running => "running",
            JudgeBatchStatus::Completed => "completed",
        }
    }
}

/// Status of one judge task.
#[derive(Debug, Clone, Copy, PartialEq, Eq, Structural)]
pub enum JudgeTaskStatus {
    Pending,
    SkippedResetting,
    Running,
    JudgeTimeout,
}

/// Lifecycle status of a game-box instance.
#[derive(Debug, Clone, Copy, PartialEq, Eq, Structural)]
pub enum GameboxStatus {
    Pending,
    Creating,
    Ready,
    Running,
    Resetting,
    ResetFailed,
    StartFailed,
    Missing,
}

/// A game-box instance as the batch planner sees it.
#[derive(Debug, Clone, Copy, PartialEq, Eq, Structural)]
pub struct JudgeInstance {
    pub id: u128,
    pub team_id: u128,
    pub template_id: u128,
    pub status: GameboxStatus,
}

/// One judge task to create.
#[derive(Debug, Clone, Copy, PartialEq, Eq, Structural)]
pub struct PlannedJudgeTask {
    pub team_id: u128,
    pub template_id: u128,
    pub instance_id: u128,
    pub status: JudgeTaskStatus,
}

/// The first instance of `team` for `template`, in list order.
pub open spec fn first_instance(insts: Seq<JudgeInstance>, team: u128, template: u128) -> Option<JudgeInstance>
    decreases insts.len(),
{
    if insts.len() == 0 {
        None
    } else if insts[0].team_id == team && insts[0].template_id == template {
        Some(insts[0])
    } else {
        first_instance(insts.drop_first(), team, template)
    }
}

/// The task for one instance: skipped while it is resetting or not yet created.
pub open spec fn task_for(inst: JudgeInstance) -> PlannedJudgeTask {
    PlannedJudgeTask {
        team_id: inst.team_id,
        template_id: inst.template_id,
        instance_id: inst.id,
        status: if inst.status == GameboxStatus::Resetting || inst.status == GameboxStatus::Pending {
            JudgeTaskStatus::SkippedResetting
        } else {
            JudgeTaskStatus::Pending
        },
    }
}

/// Tasks of one team, template by template; templates without an instance give none.
pub open spec fn team_tasks(team: u128, templates: Seq<u128>, insts: Seq<JudgeInstance>) -> Seq<PlannedJudgeTask>
    decreases templates.len(),
{
    if templates.len() == 0 {
        Seq::empty()
    } else {
        let before = team_tasks(team, templates.drop_last(), insts);
        match first_instance(insts, team, templates.last()) {
            Some(inst) => before.push(task_for(inst)),
            None => before,
        }
    }
}

/// Tasks of a round, team by team; banned teams give none.
pub open spec fn round_tasks(teams: Seq<u128>, banned: Seq<u128>, templates: Seq<u128>, insts: Seq<JudgeInstance>) -> Seq<PlannedJudgeTask>
    decreases teams.len(),
{
    if teams.len() == 0 {
        Seq::empty()
    } else {
        let before = round_tasks(teams.drop_last(), banned, templates, insts);
        if banned.contains(teams.last()) {
            before
        } else {
            before + team_tasks(teams.last(), templates, insts)
        }
    }
}

/// A planned task judges an instance given to the planner, of the task's own
/// team and template; it is skipped exactly when that instance is resetting
/// or not yet created, and pending otherwise.
pub open spec fn judged_as_planned(t: PlannedJudgeTask, insts: Seq<JudgeInstance>) -> bool {
    exists|j: int|
        0 <= j < insts.len() && #[trigger] insts[j].id == t.instance_id && insts[j].team_id == t.team_id
            && insts[j].template_id == t.template_id && (t.status == JudgeTaskStatus::SkippedResetting <==> (
        insts[j].status == GameboxStatus::Resetting || insts[j].status == GameboxStatus::Pending)) && (t.status
            == JudgeTaskStatus::SkippedResetting || t.status == JudgeTaskStatus::Pending)
}

/// The instance found for a team and template is one of the given instances,
/// of that team and template.
pub proof fn lemma_first_instance_given(insts: Seq<JudgeInstance>, team: u128, template: u128)
    ensures
        first_instance(insts, team, template) matches Some(x) ==> exists|j: int|
            0 <= j < insts.len() && #[trigger] insts[j] == x && x.team_id == team && x.template_id == template,
    decreases insts.len(),
{
    if insts.len() > 0 {
        lemma_first_instance_given(insts.drop_first(), team, template);
        if let Some(x) = first_instance(insts, team, template) {
            if insts[0].team_id == team && insts[0].template_id == template {
                assert(insts[0] == x);
            } else {
                let j = choose|j: int| 0 <= j < insts.drop_first().len() && #[trigger] insts.drop_first()[j] == x
                    && x.team_id == team && x.template_id == template;
                assert(insts[j + 1] == x);
            }
        }
    }
}

/// Every task of one team is judged as planned and belongs to that team.
pub proof fn lemma_team_tasks_planned(team: u128, templates: Seq<u128>, insts: Seq<JudgeInstance>)
    ensures
        forall|k: int| 0 <= k < team_tasks(team, templates, insts).len() ==> judged_as_planned(
            #[trigger] team_tasks(team, templates, insts)[k],
            insts,
        ) && team_tasks(team, templates, insts)[k].team_id == team,
    decreases templates.len(),
{
    if templates.len() > 0 {
        lemma_team_tasks_planned(team, templates.drop_last(), insts);
        lemma_first_instance_given(insts, team, templates.last());
        let before = team_tasks(team, templates.drop_last(), insts);
        let all = team_tasks(team, templates, insts);
        if let Some(inst) = first_instance(insts, team, templates.last()) {
            let j = choose|j: int| 0 <= j < insts.len() && #[trigger] insts[j] == inst && inst.team_id == team
                && inst.template_id == templates.last();
            assert(all == before.push(task_for(inst)));
            assert forall|k: int| 0 <= k < all.len() implies judged_as_planned(#[trigger] all[k], insts)
                && all[k].team_id == team by {
                if k < before.len() {
                    assert(all[k] == before[k]);
                } else {
                    assert(all[k] == task_for(inst));
                    assert(insts[j].id == all[k].instance_id);
                }
            }
        }
    }
}

/// Every task of a round judges an instance as planned (skipped exactly for
/// a resetting or not yet created instance), for a team of the round that is
/// not banned.
pub proof fn lemma_round_tasks_planned(teams: Seq<u128>, banned: Seq<u128>, templates: Seq<u128>, insts: Seq<JudgeInstance>)
    ensures
        forall|k: int| 0 <= k < round_tasks(teams, banned, templates, insts).len() ==> judged_as_planned(
            #[trigger] round_tasks(teams, banned, templates, insts)[k],
            insts,
        ) && teams.contains(round_tasks(teams, banned, templates, insts)[k].team_id) && !banned.contains(
            round_tasks(teams, banned, templates, insts)[k].team_id,
        ),
    decreases teams.len(),
{
    if teams.len() > 0 {
        lemma_round_tasks_planned(teams.drop_last(), banned, templates, insts);
        let before = round_tasks(teams.drop_last(), banned, templates, insts);
        let all = round_tasks(teams, banned, templates, insts);
        let last = teams.last();
        assert(teams[teams.len() - 1] == last);
        assert forall|k: int| 0 <= k < before.len() implies teams.contains(#[trigger] before[k].team_id) by {
            let x = before[k].team_id;
            assert(teams.drop_last().contains(x));
            let m = choose|m: int| 0 <= m < teams.drop_last().len() && teams.drop_last()[m] == x;
            assert(teams[m] == x);
        }
        if !banned.contains(last) {
            lemma_team_tasks_planned(last, templates, insts);
            let mine = team_tasks(last, templates, insts);
            assert forall|k: int| 0 <= k < all.len() implies judged_as_planned(#[trigger] all[k], insts)
                && teams.contains(all[k].team_id) && !banned.contains(all[k].team_id) by {
                if k < before.len() {
                    assert(all[k] == before[k]);
                } else {
                    assert(all[k] == mine[k - before.len()]);
                }
            }
        } else {
            assert forall|k: int| 0 <= k < all.len() implies judged_as_planned(#[trigger] all[k], insts)
                && teams.contains(all[k].team_id) && !banned.contains(all[k].team_id) by {
                assert(all[k] == before[k]);
            }
        }
    }
}

/// Some given instance belongs to the team and the template.
pub open spec fn has_instance(insts: Seq<JudgeInstance>, team: u128, template: u128) -> bool {
    exists|j: int| 0 <= j < insts.len() && #[trigger] insts[j].team_id == team && insts[j].template_id == template
}

/// Some planned task is for the team and the template.
pub open spec fn has_task(tasks: Seq<PlannedJudgeTask>, team: u128, template: u128) -> bool {
    exists|k: int| 0 <= k < tasks.len() && #[trigger] tasks[k].team_id == team && tasks[k].template_id == template
}

proof fn lemma_first_instance_found(insts: Seq<JudgeInstance>, team: u128, template: u128)
    ensures
        has_instance(insts, team, template) ==> first_instance(insts, team, template) is Some,
    decreases insts.len(),
{
    if insts.len() > 0 {
        lemma_first_instance_found(insts.drop_first(), team, template);
        if has_instance(insts, team, template) && !(insts[0].team_id == team && insts[0].template_id == template) {
            let j = choose|j: int| 0 <= j < insts.len() && #[trigger] insts[j].team_id == team
                && insts[j].template_id == template;
            assert(insts.drop_first()[j - 1] == insts[j]);
        }
    }
}

proof fn lemma_team_tasks_cover(team: u128, templates: Seq<u128>, insts: Seq<JudgeInstance>)
    ensures
        forall|b: int| 0 <= b < templates.len() && has_instance(insts, team, #[trigger] templates[b]) ==> has_task(
            team_tasks(team, templates, insts),
            team,
            templates[b],
        ),
    decreases templates.len(),
{
    if templates.len() > 0 {
        lemma_team_tasks_cover(team, templates.drop_last(), insts);
        let before = team_tasks(team, templates.drop_last(), insts);
        let all = team_tasks(team, templates, insts);
        lemma_first_instance_given(insts, team, templates.last());
        lemma_first_instance_found(insts, team, templates.last());
        assert forall|b: int| 0 <= b < templates.len() && has_instance(insts, team, #[trigger] templates[b]) implies has_task(
            all,
            team,
            templates[b],
        ) by {
            if b < templates.len() - 1 {
                assert(templates.drop_last()[b] == templates[b]);
                let k = choose|k: int| 0 <= k < before.len() && #[trigger] before[k].team_id == team
                    && before[k].template_id == templates[b];
                if let Some(inst) = first_instance(insts, team, templates.last()) {
                    assert(all == before.push(task_for(inst)));
                    assert(all[k] == before[k]);
                } else {
                    assert(all == before);
                }
            } else {
                let inst = first_instance(insts, team, templates.last())->0;
                assert(all == before.push(task_for(inst)));
                assert(all[before.len() as int].team_id == team);
            }
        }
    }
}

/// Every team of the round that is not banned gets a task for every template
/// it has an instance of: no box that exists goes unjudged.
pub proof fn lemma_round_tasks_cover(teams: Seq<u128>, banned: Seq<u128>, templates: Seq<u128>, insts: Seq<JudgeInstance>)
    ensures
        forall|a: int, b: int|
            0 <= a < teams.len() && 0 <= b < templates.len() && !banned.contains(#[trigger] teams[a]) && has_instance(
                insts,
                teams[a],
                #[trigger] templates[b],
            ) ==> has_task(round_tasks(teams, banned, templates, insts), teams[a], templates[b]),
    decreases teams.len(),
{
    if teams.len() > 0 {
        lemma_round_tasks_cover(teams.drop_last(), banned, templates, insts);
        let before = round_tasks(teams.drop_last(), banned, templates, insts);
        let all = round_tasks(teams, banned, templates, insts);
        let last = teams.last();
        lemma_team_tasks_cover(last, templates, insts);
        assert forall|a: int, b: int|
            0 <= a < teams.len() && 0 <= b < templates.len() && !banned.contains(#[trigger] teams[a]) && has_instance(
                insts,
                teams[a],
                #[trigger] templates[b],
            ) implies has_task(all, teams[a], templates[b]) by {
            if a < teams.len() - 1 {
                assert(teams.drop_last()[a] == teams[a]);
                let k = choose|k: int| 0 <= k < before.len() && #[trigger] before[k].team_id == teams[a]
                    && before[k].template_id == templates[b];
                if banned.contains(last) {
                    assert(all == before);
                } else {
                    assert(all[k] == before[k]);
                }
            } else {
                let mine = team_tasks(last, templates, insts);
                assert(all == before + mine);
                let k = choose|k: int| 0 <= k < mine.len() && #[trigger] mine[k].team_id == last
                    && mine[k].template_id == templates[b];
                assert(all[before.len() + k] == mine[k]);
            }
        }
    }
}

fn find_instance(insts: &[JudgeInstance], team: u128, template: u128) -> (r: Option<JudgeInstance>)
    ensures
        r == first_instance(insts@, team, template),
{
    let mut i: usize = 0;
    assert(insts@.subrange(0, insts@.len() as int) =~= insts@);
    while i < insts.len()
        invariant
            i <= insts@.len(),
            first_instance(insts@, team, template) == first_instance(insts@.subrange(i as int, insts@.len() as int), team, template),
        decreases insts@.len() - i,
    {
        let x = insts[i];
        assert(insts@.subrange(i as int, insts@.len() as int).drop_first() =~= insts@.subrange(i + 1, insts@.len() as int));
        if x.team_id == team && x.template_id == template {
            return Some(x);
        }
        i = i + 1;
    }
    None
}

fn member(v: &[u128], x: u128) -> (b: bool)
    ensures
        b == v@.contains(x),
{
    let mut i: usize = 0;
    while i < v.len()
        invariant
            i <= v@.len(),
            forall|k: int| 0 <= k < i ==> v@[k] != x,
        decreases v@.len() - i,
    {
        if v[i] == x {
            assert(v@[i as int] == x);
            return true;
        }
        i = i + 1;
    }
    false
}

/// The judge tasks of a round and the batch's task count (templates × teams).
/// A round of an event without templates is refused.
pub fn plan_judge_tasks(
    teams: &[u128],
    banned: &[u128],
    templates: &[u128],
    instances: &[JudgeInstance],
) -> (r: Result<(Vec<PlannedJudgeTask>, u64), AwdError>)
    requires
        templates@.len() * teams@.len() <= u64::MAX,
    ensures
        templates@.len() == 0 <==> r is Err,
        r is Err ==> (r matches Err(AwdError::Validation(m)) && m@ == "No templates for event"@),
        r matches Ok((tasks, count)) ==> tasks@ == round_tasks(teams@, banned@, templates@, instances@)
            && count == templates@.len() * teams@.len(),
        r matches Ok((tasks, _)) ==> forall|k: int| 0 <= k < tasks@.len() ==> judged_as_planned(
            #[trigger] tasks@[k],
            instances@,
        ) && teams@.contains(tasks@[k].team_id) && !banned@.contains(tasks@[k].team_id),
        r matches Ok((tasks, _)) ==> forall|a: int, b: int|
            0 <= a < teams@.len() && 0 <= b < templates@.len() && !banned@.contains(#[trigger] teams@[a])
                && has_instance(instances@, teams@[a], #[trigger] templates@[b]) ==> has_task(tasks@, teams@[a], templates@[b]),
{
    proof {
        lemma_round_tasks_planned(teams@, banned@, templates@, instances@);
        lemma_round_tasks_cover(teams@, banned@, templates@, instances@);
    }
    if templates.len() == 0 {
        return Err(AwdError::Validation(owned("No templates for event")));
    }
    let count = (templates.len() as u64) * (teams.len() as u64);
    let mut out: Vec<PlannedJudgeTask> = Vec::new();
    let mut i: usize = 0;
    while i < teams.len()
        invariant
            i <= teams@.len(),
            out@ == round_tasks(teams@.subrange(0, i as int), banned@, templates@, instances@),
        decreases teams@.len() - i,
    {
        let team = teams[i];
        proof {
            assert(teams@.subrange(0, i + 1).drop_last() =~= teams@.subrange(0, i as int));
        }
        if !member(banned, team) {
            let mut j: usize = 0;
            let ghost base = out@;
            while j < templates.len()
                invariant
                    i < teams@.len(),
                    team == teams@[i as int],
                    j <= templates@.len(),
                    base == round_tasks(teams@.subrange(0, i as int), banned@, templates@, instances@),
                    out@ == base + team_tasks(team, templates@.subrange(0, j as int), instances@),
                decreases templates@.len() - j,
            {
                let tpl = templates[j];
                proof {
                    assert(templates@.subrange(0, j + 1).drop_last() =~= templates@.subrange(0, j as int));
                }
                match find_instance(instances, team, tpl) {
                    Some(inst) => {
                        let status = if inst.status == GameboxStatus::Resetting || inst.status == GameboxStatus::Pending {
                            JudgeTaskStatus::SkippedResetting
                        } else {
                            JudgeTaskStatus::Pending
                        };
                        out.push(PlannedJudgeTask { team_id: inst.team_id, template_id: inst.template_id, instance_id: inst.id, status });
                        proof {
                            assert(out@ =~= base + team_tasks(team, templates@.subrange(0, j + 1), instances@));
                        }
                    },
                    None => {},
                }
                j = j + 1;
            }
            proof {
                assert(templates@.subrange(0, j as int) =~= templates@);
            }
        }
        i = i + 1;
    }
    proof {
        assert(teams@.subrange(0, i as int) =~= teams@);
    }
    Ok((out, count))
}

/// Idempotency key of a judge callback: `judge:{event}:{round}:{team}:{instance}`.
pub open spec fn callback_key_text(event_id: u128, round_id: u128, team_id: u128, instance_id: u128) -> Seq<char> {
    "judge:"@ + uuid_text(event_id) + ":"@ + uuid_text(round_id) + ":"@ + uuid_text(team_id) + ":"@ + uuid_text(instance_id)
}

/// The idempotency key of a judge callback.
pub fn judge_callback_key(event_id: u128, round_id: u128, team_id: u128, instance_id: u128) -> (s: String)
    ensures
        s@ == callback_key_text(event_id, round_id, team_id, instance_id),
{
    let e = uuid_string(event_id);
    let r = uuid_string(round_id);
    let t = uuid_string(team_id);
    let i = uuid_string(instance_id);
    let s = cat(owned("judge:"), e.as_str());
    let s = cat(cat(s, ":"), r.as_str());
    let s = cat(cat(s, ":"), t.as_str());
    cat(cat(s, ":"), i.as_str())
}

/// Deadline of a round's judge tasks: the task timeout plus the grace period after `now` (ns).
pub fn judge_deadline(now_nanos: i64, timeout_secs: i32, grace_secs: i32) -> (d: i64)
    requires
        i64::MIN <= now_nanos + (timeout_secs + grace_secs) * 1_000_000_000 <= i64::MAX,
    ensures
        d == now_nanos + (timeout_secs + grace_secs) * 1_000_000_000,
{
    let secs = timeout_secs as i64 + grace_secs as i64;
    now_nanos + secs * 1_000_000_000
}

/// The text is blank: only whitespace.
pub open spec fn blank(s: Seq<char>) -> bool {
    trim_spec(s).len() == 0
}

/// What a pending task is dispatched with, from its template: the judge
/// script (present and not blank) and the timeout (the template's own, else
/// the event default; it must be positive).
pub open spec fn dispatch_params_ok(script: Option<Seq<char>>, template_timeout: Option<i32>, default_timeout: i32) -> bool {
    &&& script matches Some(s) && !blank(s)
    &&& (match template_timeout { Some(t) => t, None => default_timeout }) > 0
}

/// Script and timeout of a pending task; `Validation` when the template has
/// no usable script or no positive timeout.
pub fn dispatch_params(template_id: u128, script: Option<&str>, template_timeout: Option<i32>, default_timeout: i32) -> (r: Result<(String, u64), AwdError>)
    ensures
        dispatch_params_ok(match script { Some(s) => Some(s@), None => None }, template_timeout, default_timeout) <==> r is Ok,
        r matches Ok((s, t)) ==> Some(s@) == (match script { Some(x) => Some(x@), None => None })
            && t == (match template_timeout { Some(v) => v, None => default_timeout }),
        r is Err ==> (r matches Err(AwdError::Validation(m)) && m@ == "Template "@ + uuid_text(template_id) + (if script matches Some(x) && !blank(x@) {
            " has an invalid judge timeout"@
        } else {
            " has no judge script content"@
        })),
{
    let id = uuid_string(template_id);
    let content = match script {
        Some(s) => {
            let t = trim(s);
            if t.as_str().is_empty() {
                None
            } else {
                Some(s)
            }
        },
        None => None,
    };
    let content = match content {
        Some(c) => c,
        None => {
            let m = cat(cat(owned("Template "), id.as_str()), " has no judge script content");
            return Err(AwdError::Validation(m));
        },
    };
    let timeout = match template_timeout {
        Some(t) => t,
        None => default_timeout,
    };
    if timeout <= 0 {
        let m = cat(cat(owned("Template "), id.as_str()), " has an invalid judge timeout");
        return Err(AwdError::Validation(m));
    }
    Ok((owned(content), timeout as u64))
}

/// The text without trailing `/` characters (`trim_end_matches('/')`).
pub open spec fn strip_slashes(s: Seq<char>) -> Seq<char>
    decreases s.len(),
{
    if s.len() > 0 && s.last() == '/' {
        strip_slashes(s.drop_last())
    } else {
        s
    }
}

/// The text ends with `suffix`.
pub open spec fn ends_with(s: Seq<char>, suffix: Seq<char>) -> bool {
    s.len() >= suffix.len() && s.subrange(s.len() - suffix.len(), s.len() as int) == suffix
}

/// The batch endpoint for a JudgeServer URL: the URL trimmed, without
/// trailing slashes, with `/batch` added unless it already ends so.
pub open spec fn batch_endpoint_text(base: Seq<char>) -> Seq<char> {
    let t = strip_slashes(trim_spec(base));
    if ends_with(t, "/batch"@) {
        t
    } else {
        t + "/batch"@
    }
}

/// The JudgeServer batch endpoint; a blank URL (after trimming and dropping
/// trailing slashes) is refused.
pub fn judge_batch_endpoint(base_url: &str) -> (r: Result<String, AwdError>)
    ensures
        strip_slashes(trim_spec(base_url@)).len() == 0 <==> r is Err,
        r is Err ==> (r matches Err(AwdError::Validation(m)) && m@ == "JudgeServer URL is empty"@),
        r matches Ok(s) ==> s@ == batch_endpoint_text(base_url@),
{
    proof {
        reveal_strlit("/batch");
    }
    let t = trim(base_url);
    let cs = to_chars(t.as_str());
    let mut n: usize = cs.len();
    assert(cs@.subrange(0, n as int) =~= t@);
    while n > 0 && cs[n - 1] == '/'
        invariant
            n <= cs@.len(),
            cs@ == t@,
            strip_slashes(t@) == strip_slashes(cs@.subrange(0, n as int)),
        decreases n,
    {
        assert(cs@.subrange(0, n as int).drop_last() =~= cs@.subrange(0, n - 1));
        n = n - 1;
    }
    let ghost stripped = cs@.subrange(0, n as int);
    assert(strip_slashes(stripped) == stripped);
    if n == 0 {
        return Err(AwdError::Validation(owned("JudgeServer URL is empty")));
    }
    let base = from_chars(sub_chars(cs.as_slice(), 0, n).as_slice());
    let suffix = ['/', 'b', 'a', 't', 'c', 'h'];
    let mut ends = n >= 6;
    if ends {
        let mut k: usize = 0;
        while k < 6
            invariant
                n >= 6,
                n <= cs@.len(),
                k <= 6,
                suffix@ == "/batch"@,
                ends == (forall|m: int| 0 <= m < k ==> cs@[n - 6 + m] == suffix@[m]),
            decreases 6 - k,
        {
            ends = ends && cs[n - 6 + k] == suffix[k];
            k = k + 1;
        }
        proof {
            if ends {
                assert(stripped.subrange(n - 6, n as int) =~= "/batch"@);
            } else {
                let m = choose|m: int| 0 <= m < 6 && cs@[n - 6 + m] != suffix@[m];
                assert(stripped.subrange(n - 6, n as int)[m] != "/batch"@[m]);
            }
        }
    }
    if ends {
        Ok(base)
    } else {
        Ok(cat(base, "/batch"))
    }
}

/// Where a rejected dispatch's error body is cut, in bytes: the whole body up
/// to 512 bytes, else the first character boundary at or after byte 512.
pub open spec fn body_cut_ok(bytes: Seq<u8>, cut: int) -> bool {
    if bytes.len() <= 512 {
        cut == bytes.len()
    } else {
        &&& 512 <= cut <= bytes.len()
        &&& vstd::utf8::is_char_boundary(bytes, cut)
        &&& forall|j: int| 512 <= j < cut ==> !vstd::utf8::is_char_boundary(bytes, j)
    }
}

/// The error body kept for a log message: its first ~512 bytes, never
/// splitting a character.
pub fn limit_error_body(body: &str) -> (r: &str)
    ensures
        r.spec_bytes() == body.spec_bytes().subrange(0, r.spec_bytes().len() as int),
        body_cut_ok(body.spec_bytes(), r.spec_bytes().len() as int),
{
    let n = body.as_bytes().len();
    if n <= 512 {
        assert(body.spec_bytes().subrange(0, n as int) =~= body.spec_bytes());
        return body;
    }
    proof {
        vstd::utf8::encode_utf8_valid_utf8(body@);
        vstd::utf8::is_char_boundary_start_end_of_seq(body.spec_bytes());
    }
    let mut i: usize = 512;
    while !body.is_char_boundary(i)
        invariant
            n == body.spec_bytes().len(),
            n > 512,
            512 <= i <= n,
            vstd::utf8::valid_utf8(body.spec_bytes()),
            vstd::utf8::is_char_boundary(body.spec_bytes(), n as int),
            forall|j: int| 512 <= j < i ==> !vstd::utf8::is_char_boundary(body.spec_bytes(), j),
        decreases n - i,
    {
        i = i + 1;
    }
    let (head, _) = body.split_at(i);
    head
}

/// `l` is the error body kept of `body` (see [`limit_error_body`]).
pub open spec fn limited_body(body: Seq<char>, l: Seq<char>) -> bool {
    &&& vstd::utf8::encode_utf8(l) == vstd::utf8::encode_utf8(body).subrange(0, vstd::utf8::encode_utf8(l).len() as int)
    &&& body_cut_ok(vstd::utf8::encode_utf8(body), vstd::utf8::encode_utf8(l).len() as int)
}

/// A batch is only dispatched with a JudgeServer token that is not blank.
pub fn require_internal_token(token: &str) -> (r: Result<(), AwdError>)
    ensures
        !blank(token@) <==> r is Ok,
        r is Err ==> (r matches Err(AwdError::Validation(m)) && m@ == "JudgeServer internal token is empty"@),
{
    let t = trim(token);
    if t.as_str().is_empty() {
        return Err(AwdError::Validation(owned("JudgeServer internal token is empty")));
    }
    Ok(())
}

/// A task of a batch as the dispatcher reads it. `terminal` is the store's
/// own verdict on whether the task's status ends it.
#[derive(Debug, Clone, Copy, PartialEq, Eq, Structural)]
pub struct BatchTask {
    pub id: u128,
    pub status: JudgeTaskStatus,
    pub terminal: bool,
}

/// What dispatching a batch does next.
#[derive(Debug, Clone, PartialEq, Eq)]
pub enum BatchNext {
    /// Send these pending tasks (ids in batch order) to the JudgeServer.
    Dispatch(Vec<u128>),
    /// Nothing is pending and every task has ended: mark the batch completed.
    Complete,
    /// Nothing is pending but some task is still under way.
    Wait,
}

/// Ids of the batch's Pending tasks, in order.
pub open spec fn pending_ids(tasks: Seq<BatchTask>) -> Seq<u128>
    decreases tasks.len(),
{
    if tasks.len() == 0 {
        Seq::empty()
    } else {
        let rest = pending_ids(tasks.drop_last());
        if tasks.last().status == JudgeTaskStatus::Pending {
            rest.push(tasks.last().id)
        } else {
            rest
        }
    }
}

/// Every task of the batch has ended.
pub open spec fn all_ended(tasks: Seq<BatchTask>) -> bool {
    forall|i: int| 0 <= i < tasks.len() ==> #[trigger] tasks[i].terminal
}

/// The dispatcher's decision on a batch: its Pending tasks are dispatched;
/// with none pending the batch is completed once every task has ended, and
/// otherwise left as it is.
pub fn batch_next(tasks: &[BatchTask]) -> (r: BatchNext)
    ensures
        match r {
            BatchNext::Dispatch(ids) => ids@ == pending_ids(tasks@) && ids@.len() > 0,
            BatchNext::Complete => pending_ids(tasks@).len() == 0 && all_ended(tasks@),
            BatchNext::Wait => pending_ids(tasks@).len() == 0 && !all_ended(tasks@),
        },
{
    let mut ids: Vec<u128> = Vec::new();
    let mut ended = true;
    let mut i: usize = 0;
    while i < tasks.len()
        invariant
            0 <= i <= tasks@.len(),
            ids@ == pending_ids(tasks@.subrange(0, i as int)),
            ended == all_ended(tasks@.subrange(0, i as int)),
        decreases tasks@.len() - i,
    {
        proof {
            assert(tasks@.subrange(0, i as int + 1).drop_last() =~= tasks@.subrange(0, i as int));
            assert(tasks@.subrange(0, i as int + 1).last() == tasks@[i as int]);
        }
        let t = tasks[i];
        if t.status == JudgeTaskStatus::Pending {
            ids.push(t.id);
        }
        proof {
            let pre = tasks@.subrange(0, i as int);
            let nxt = tasks@.subrange(0, i as int + 1);
            if all_ended(nxt) {
                assert(nxt[i as int].terminal);
                assert forall|j: int| 0 <= j < pre.len() implies #[trigger] pre[j].terminal by {
                    assert(pre[j] == nxt[j]);
                }
            }
            if all_ended(pre) && t.terminal {
                assert forall|j: int| 0 <= j < nxt.len() implies #[trigger] nxt[j].terminal by {
                    if j < i {
                        assert(pre[j] == nxt[j]);
                    }
                }
            }
        }
        ended = ended && t.terminal;
        i = i + 1;
    }
    assert(tasks@.subrange(0, tasks@.len() as int) =~= tasks@);
    if ids.len() > 0 {
        BatchNext::Dispatch(ids)
    } else if ended {
        BatchNext::Complete
    } else {
        BatchNext::Wait
    }
}

/// What a batch dispatch makes of the JudgeServer's reply: a non-success
/// status is refused with the status and the start of the body; otherwise the
/// reply must parse (`accepted`, or the parse error) and accept the batch.
pub fn dispatch_reply(status_ok: bool, status_text: &str, body: &str, accepted: Result<bool, String>) -> (r: Result<(), AwdError>)
    ensures
        !status_ok ==> (r matches Err(AwdError::Network(m)) && exists|l: Seq<char>|
            limited_body(body@, l) && m@ == "JudgeServer rejected batch with HTTP "@ + status_text@ + ": "@ + l),
        status_ok ==> match accepted {
            Err(e) => r matches Err(AwdError::Network(m)) && m@ == "Invalid JudgeServer response: "@ + e@,
            Ok(false) => r matches Err(AwdError::Network(m)) && m@ == "JudgeServer did not accept the batch"@,
            Ok(true) => r is Ok,
        },
{
    if !status_ok {
        let l = limit_error_body(body);
        let m = cat(cat(cat(owned("JudgeServer rejected batch with HTTP "), status_text), ": "), l);
        assert(limited_body(body@, l@));
        return Err(AwdError::Network(m));
    }
    match accepted {
        Err(e) => Err(AwdError::Network(cat(owned("Invalid JudgeServer response: "), e.as_str()))),
        Ok(false) => Err(AwdError::Network(owned("JudgeServer did not accept the batch"))),
        Ok(true) => Ok(()),
    }
}

/// The sealed JudgeServer token of an event for a round's dispatch: the
/// ciphertext, then the nonce, must be stored (`NotFound` otherwise).
pub fn round_token_parts(has_ciphertext: bool, has_nonce: bool) -> (r: Result<(), AwdError>)
    ensures
        !has_ciphertext ==> (r matches Err(AwdError::NotFound(m)) && m@ == "JudgeServer token not configured"@),
        has_ciphertext && !has_nonce ==> (r matches Err(AwdError::NotFound(m))
            && m@ == "JudgeServer token nonce not configured"@),
        r is Ok <==> has_ciphertext && has_nonce,
{
    if !has_ciphertext {
        return Err(AwdError::NotFound(owned("JudgeServer token not configured")));
    }
    if !has_nonce {
        return Err(AwdError::NotFound(owned("JudgeServer token nonce not configured")));
    }
    Ok(())
}

/// The JudgeServer base URL of an event: its address on port 8082.
pub fn judgeserver_url(judgeserver_ip: &str) -> (u: String)
    ensures
        u@ == "http://"@ + judgeserver_ip@ + ":8082"@,
{
    cat(cat(owned("http://"), judgeserver_ip), ":8082")
}

} // verus!

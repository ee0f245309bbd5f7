//! Fix rounds of an AWD-Plus run: which round rows a run gets, which
//! instances a due round evaluates, when a round counts as completed, and how
//! a racing insert is resolved.

use vstd::prelude::*;

use crate::awdp_timing::{div_i32, round_windows, trunc_div, window_spec, RoundWindow};
use crate::error::AwdpError;
use crate::text::{contains_text, has_substring, owned};

verus! {

/// The windows of the fix timeline whose sequence has no row yet, in order.
pub open spec fn missing_windows(all: Seq<RoundWindow>, existing: Seq<i32>) -> Seq<RoundWindow>
    decreases all.len(),
{
    if all.len() == 0 {
        Seq::empty()
    } else {
        let before = missing_windows(all.drop_last(), existing);
        if existing.contains(all.last().sequence) { before } else { before.push(all.last()) }
    }
}

fn has_i32(v: &[i32], x: i32) -> (b: bool)
    ensures
        b == v@.contains(x),
{
    let mut i: usize = 0;
    while i < v.len()
        invariant
            i <= v@.len(),
            forall|k: int| 0 <= k < i ==> v@[k] != x,
        decreases v@.len() - i,
    {
        if v[i] == x {
            assert(v@[i as int] == x);
            return true;
        }
        i = i + 1;
    }
    false
}

/// The fix timeline: `count` back-to-back windows of `interval` from `start`
/// (none for a count that is not positive).
pub open spec fn fix_windows(start: i64, interval: i64, count: int) -> Seq<RoundWindow> {
    Seq::new(
        if count > 0 { count as nat } else { 0 },
        |k: int| {
            let s = window_spec(start, interval, k);
            RoundWindow { sequence: s.0 as i32, starts_at: s.1 as i64, cutoff_at: s.2 as i64 }
        },
    )
}

/// The round rows a run in Fix still needs: the run's fix windows (fix
/// duration ÷ interval of them, truncated) that have no row yet. A run
/// without a fix start cannot have rounds.
pub fn plan_fix_rounds(fix_started_at: Option<i64>, fix_duration_secs: i32, fix_round_interval_secs: i32, existing: &[i32]) -> (r: Result<Vec<RoundWindow>, AwdpError>)
    requires
        fix_round_interval_secs != 0,
        !(fix_duration_secs == i32::MIN && fix_round_interval_secs == -1),
        fix_started_at is Some && trunc_div(fix_duration_secs as int, fix_round_interval_secs as int) > 0 ==> {
            &&& i64::MIN <= fix_started_at->Some_0 + fix_round_interval_secs * 1_000_000_000 * trunc_div(fix_duration_secs as int, fix_round_interval_secs as int) <= i64::MAX
            &&& i64::MIN <= fix_round_interval_secs * 1_000_000_000 * trunc_div(fix_duration_secs as int, fix_round_interval_secs as int) <= i64::MAX
        },
    ensures
        fix_started_at is None <==> r is Err,
        r is Err ==> (r matches Err(AwdpError::InvalidState(m)) && m@ == "fix_started_at is not set"@),
        r matches Ok(v) ==> v@ == missing_windows(
            fix_windows(
                fix_started_at->Some_0,
                (fix_round_interval_secs * 1_000_000_000) as i64,
                trunc_div(fix_duration_secs as int, fix_round_interval_secs as int),
            ),
            existing@,
        ),
{
    let start = match fix_started_at {
        Some(s) => s,
        None => return Err(AwdpError::InvalidState(owned("fix_started_at is not set"))),
    };
    let count = div_i32(fix_duration_secs, fix_round_interval_secs);
    let interval = (fix_round_interval_secs as i64) * 1_000_000_000;
    let all = round_windows(start, interval, count);
    assert(all@ =~= fix_windows(start, interval, count as int));
    let mut out: Vec<RoundWindow> = Vec::new();
    let mut i: usize = 0;
    while i < all.len()
        invariant
            i <= all@.len(),
            out@ == missing_windows(all@.subrange(0, i as int), existing@),
        decreases all@.len() - i,
    {
        let w = all[i];
        proof {
            assert(all@.subrange(0, i + 1).drop_last() =~= all@.subrange(0, i as int));
        }
        if !has_i32(existing, w.sequence) {
            out.push(w);
        }
        i = i + 1;
    }
    assert(all@.subrange(0, i as int) =~= all@);
    Ok(out)
}

/// An instance of the run as a due round sees it.
#[derive(Debug, Clone, Copy, PartialEq, Eq, Structural)]
pub struct RoundCandidate {
    pub instance_id: u128,
    /// The instance was never started (its runtime state is still pending).
    pub never_started: bool,
}

/// The instances a due round evaluates, in order: every started instance
/// that has no official evaluation in this round yet.
pub open spec fn round_targets(cands: Seq<RoundCandidate>, evaluated: Seq<u128>) -> Seq<u128>
    decreases cands.len(),
{
    if cands.len() == 0 {
        Seq::empty()
    } else {
        let before = round_targets(cands.drop_last(), evaluated);
        let c = cands.last();
        if c.never_started || evaluated.contains(c.instance_id) { before } else { before.push(c.instance_id) }
    }
}

fn has_u128(v: &[u128], x: u128) -> (b: bool)
    ensures
        b == v@.contains(x),
{
    let mut i: usize = 0;
    while i < v.len()
        invariant
            i <= v@.len(),
            forall|k: int| 0 <= k < i ==> v@[k] != x,
        decreases v@.len() - i,
    {
        if v[i] == x {
            assert(v@[i as int] == x);
            return true;
        }
        i = i + 1;
    }
    false
}

/// Materialisation of a due round: a round that is no longer pending was
/// handled by a concurrent tick (`None`: nothing to do); otherwise the
/// instances to evaluate (their number is the round's expected count).
pub fn plan_round_materialization(round_pending: bool, candidates: &[RoundCandidate], evaluated: &[u128]) -> (r: Option<Vec<u128>>)
    ensures
        !round_pending ==> r is None,
        round_pending ==> (r matches Some(v) && v@ == round_targets(candidates@, evaluated@)),
{
    if !round_pending {
        return None;
    }
    let mut out: Vec<u128> = Vec::new();
    let mut i: usize = 0;
    while i < candidates.len()
        invariant
            i <= candidates@.len(),
            out@ == round_targets(candidates@.subrange(0, i as int), evaluated@),
        decreases candidates@.len() - i,
    {
        let c = candidates[i];
        proof {
            assert(candidates@.subrange(0, i + 1).drop_last() =~= candidates@.subrange(0, i as int));
        }
        if !c.never_started && !has_u128(evaluated, c.instance_id) {
            out.push(c.instance_id);
        }
        i = i + 1;
    }
    assert(candidates@.subrange(0, i as int) =~= candidates@);
    Some(out)
}

/// A round counts as completed when all its evaluations are final and, if
/// it recorded how many it expected (more than zero), exactly that many
/// exist; without such a count at least one must exist.
pub open spec fn round_completed(expected: Option<i32>, actual: nat, unfinished: nat) -> bool {
    match expected {
        Some(e) if e > 0 => actual == e && unfinished == 0,
        _ => actual > 0 && unfinished == 0,
    }
}

/// Whether an evaluating round is completed.
pub fn round_complete(expected_eval_count: Option<i32>, actual: usize, unfinished: usize) -> (b: bool)
    ensures
        b == round_completed(expected_eval_count, actual as nat, unfinished as nat),
{
    match expected_eval_count {
        Some(e) if e > 0 => actual == e as usize && unfinished == 0,
        _ => actual > 0 && unfinished == 0,
    }
}

/// Law: a round with no evaluations is never completed, and neither is one
/// with an evaluation still pending or running.
pub proof fn law_no_empty_or_unfinished_completion(expected: Option<i32>, actual: nat, unfinished: nat)
    ensures
        round_completed(expected, 0, unfinished) == false,
        unfinished > 0 ==> !round_completed(expected, actual, unfinished),
{
}

/// How a failed evaluation insert is resolved.
#[derive(Debug, Clone, Copy, PartialEq, Eq, Structural)]
pub enum InsertConflict {
    /// Another writer inserted the same (round, instance) first: roll back and
    /// redo the whole materialisation once.
    Retry,
    /// Any other failure, or a repeat after the retry: give up.
    Fail,
}

/// A unique-index clash on the official evaluations is retried once; any
/// other insert failure is final.
pub fn insert_conflict(message: &str, retried: bool) -> (c: InsertConflict)
    ensures
        c == (if has_substring(message@, "awdp_evaluations_official_uidx"@) && !retried { InsertConflict::Retry } else { InsertConflict::Fail }),
{
    if contains_text(message, "awdp_evaluations_official_uidx") && !retried {
        InsertConflict::Retry
    } else {
        InsertConflict::Fail
    }
}

} // verus!

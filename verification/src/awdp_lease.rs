//! Pull-and-lease bookkeeping of AWD-Plus evaluations: stale-lease recovery,
//! claims, heartbeats, lease-checked results and infrastructure-failure
//! release. Only lease tokens' SHA-256 hashes are stored.

use rand::RngCore;
use vstd::prelude::*;
use vstd::string::StringSliceAdditionalSpecFns;

use crate::digest::{sha256, sha256_of};
use crate::error::AwdpError;
use crate::text::{cat, dec, hex_encode, hex_lower, owned, u64_decimal};

verus! {

/// Status of an evaluation.
#[derive(Debug, Clone, Copy, PartialEq, Eq, Structural)]
pub enum AwdpEvaluationStatus {
    Pending,
    Running,
    /// The platform gave up (attempts exhausted); never blamed on the player.
    PlatformError,
    /// A judged terminal outcome, by its code in the store.
    Outcome(u8),
}

/// Lease and result columns of one evaluation (instants in Unix nanoseconds).
pub struct EvaluationLease {
    pub status: AwdpEvaluationStatus,
    pub attempt_count: i32,
    pub claimed_by: Option<String>,
    pub lease_token_hash: Option<String>,
    pub claimed_at: Option<i64>,
    pub heartbeat_at: Option<i64>,
    pub lease_expires_at: Option<i64>,
    pub started_at: Option<i64>,
    pub finished_at: Option<i64>,
    pub updated_at: i64,
    pub healthcheck_result: Option<String>,
    pub judge_result: Option<String>,
    pub exploit_result: Option<String>,
    pub stdout_limited: Option<String>,
    pub stderr_limited: Option<String>,
}

/// Text view of an optional string.
pub open spec fn opt_text(o: Option<String>) -> Option<Seq<char>> {
    match o {
        Some(s) => Some(s@),
        None => None,
    }
}

/// Mathematical view of an evaluation's lease and result columns.
pub struct LeaseView {
    pub status: AwdpEvaluationStatus,
    pub attempt_count: i32,
    pub claimed_by: Option<Seq<char>>,
    pub lease_token_hash: Option<Seq<char>>,
    pub claimed_at: Option<i64>,
    pub heartbeat_at: Option<i64>,
    pub lease_expires_at: Option<i64>,
    pub started_at: Option<i64>,
    pub finished_at: Option<i64>,
    pub updated_at: i64,
    pub healthcheck_result: Option<Seq<char>>,
    pub judge_result: Option<Seq<char>>,
    pub exploit_result: Option<Seq<char>>,
    pub stdout_limited: Option<Seq<char>>,
    pub stderr_limited: Option<Seq<char>>,
}

impl View for EvaluationLease {
    type V = LeaseView;

    open spec fn view(&self) -> LeaseView {
        LeaseView {
            status: self.status,
            attempt_count: self.attempt_count,
            claimed_by: opt_text(self.claimed_by),
            lease_token_hash: opt_text(self.lease_token_hash),
            claimed_at: self.claimed_at,
            heartbeat_at: self.heartbeat_at,
            lease_expires_at: self.lease_expires_at,
            started_at: self.started_at,
            finished_at: self.finished_at,
            updated_at: self.updated_at,
            healthcheck_result: opt_text(self.healthcheck_result),
            judge_result: opt_text(self.judge_result),
            exploit_result: opt_text(self.exploit_result),
            stdout_limited: opt_text(self.stdout_limited),
            stderr_limited: opt_text(self.stderr_limited),
        }
    }
}

/// Hash under which a lease token is stored: hex SHA-256 of its UTF-8 bytes.
pub open spec fn token_hash_text(token: Seq<char>) -> Seq<char> {
    hex_lower(sha256_of(vstd::utf8::encode_utf8(token)))
}

/// SHA-256 hash (hex) of a lease token.
pub fn lease_token_hash(token: &str) -> (h: String)
    ensures
        h@ == token_hash_text(token@),
        h@.len() == 64,
{
    let d = sha256(token.as_bytes());
    hex_encode(d.as_slice())
}

/// `rand::rngs::OsRng` filling 32 bytes from the operating system's generator.
#[verifier::external_body]
fn os_random_32() -> (b: Vec<u8>)
    ensures
        b@.len() == 32,
{
    let mut buf = [0u8; 32];
    rand::rngs::OsRng.fill_bytes(&mut buf);
    buf.to_vec()
}

/// A fresh random lease token: 32 random bytes in hex (64 digits).
pub fn new_lease_token() -> (t: String)
    ensures
        t@.len() == 64,
        exists|bytes: Seq<u8>| bytes.len() == 32 && t@ == hex_lower(bytes),
{
    let b = os_random_32();
    let t = hex_encode(b.as_slice());
    assert(b@.len() == 32 && t@ == hex_lower(b@));
    t
}

/// Lease columns cleared (the evaluation is no longer held by any worker).
pub open spec fn lease_cleared(v: LeaseView) -> bool {
    &&& v.claimed_by is None
    &&& v.claimed_at is None
    &&& v.heartbeat_at is None
    &&& v.lease_expires_at is None
    &&& v.lease_token_hash is None
}

/// A running evaluation whose lease ran out (or never had one) before `now`.
pub open spec fn is_stale(v: LeaseView, now: i64) -> bool {
    v.status == AwdpEvaluationStatus::Running && match v.lease_expires_at {
        None => true,
        Some(t) => t < now,
    }
}

fn clear_lease(row: &mut EvaluationLease, now: i64)
    ensures
        lease_cleared(final(row)@),
        final(row)@.updated_at == now,
        final(row)@.status == old(row)@.status,
        final(row)@.attempt_count == old(row)@.attempt_count,
        final(row)@.started_at == old(row)@.started_at,
        final(row)@.finished_at == old(row)@.finished_at,
        final(row)@.healthcheck_result == old(row)@.healthcheck_result,
        final(row)@.judge_result == old(row)@.judge_result,
        final(row)@.exploit_result == old(row)@.exploit_result,
        final(row)@.stdout_limited == old(row)@.stdout_limited,
        final(row)@.stderr_limited == old(row)@.stderr_limited,
{
    row.claimed_by = None;
    row.claimed_at = None;
    row.heartbeat_at = None;
    row.lease_expires_at = None;
    row.lease_token_hash = None;
    row.updated_at = now;
}

/// Recovery of a stale running evaluation: back to Pending for another try,
/// or PlatformError once `max_attempts` is reached; the lease is dropped.
/// Returns whether the row was stale (otherwise it is left untouched).
pub fn recover_stale_running(row: &mut EvaluationLease, max_attempts: i32, now: i64) -> (stale: bool)
    ensures
        stale == is_stale(old(row)@, now),
        !stale ==> final(row)@ == old(row)@,
        stale ==> {
            &&& lease_cleared(final(row)@)
            &&& final(row)@.updated_at == now
            &&& final(row)@.attempt_count == old(row)@.attempt_count
            &&& if old(row)@.attempt_count >= max_attempts {
                final(row)@.status == AwdpEvaluationStatus::PlatformError && final(row)@.finished_at == Some(now)
            } else {
                final(row)@.status == AwdpEvaluationStatus::Pending && final(row)@.finished_at == old(row)@.finished_at
            }
        },
{
    let stale = row.status == AwdpEvaluationStatus::Running && match row.lease_expires_at {
        None => true,
        Some(t) => t < now,
    };
    if !stale {
        return false;
    }
    if row.attempt_count >= max_attempts {
        row.status = AwdpEvaluationStatus::PlatformError;
        row.finished_at = Some(now);
    } else {
        row.status = AwdpEvaluationStatus::Pending;
    }
    clear_lease(row, now);
    true
}

/// The row a claim leaves behind.
pub open spec fn claimed(v: LeaseView, worker_id: Seq<char>, token: Seq<char>, lease_nanos: i64, now: i64) -> LeaseView {
    LeaseView {
        status: AwdpEvaluationStatus::Running,
        started_at: Some(now),
        attempt_count: (v.attempt_count + 1) as i32,
        claimed_by: Some(worker_id),
        claimed_at: Some(now),
        heartbeat_at: Some(now),
        lease_expires_at: Some((now + lease_nanos) as i64),
        lease_token_hash: Some(token_hash_text(token)),
        updated_at: now,
        ..v
    }
}

/// Claims a pending evaluation for `worker_id` under the lease `token`: it runs,
/// its attempt count grows by one, and the lease lasts `lease_nanos`.
/// Returns the attempt number of this claim.
pub fn claim(row: &mut EvaluationLease, worker_id: &str, token: &str, lease_nanos: i64, now: i64) -> (attempt: i32)
    requires
        old(row)@.attempt_count < i32::MAX,
        i64::MIN <= now + lease_nanos <= i64::MAX,
    ensures
        attempt == old(row)@.attempt_count + 1,
        final(row)@ == claimed(old(row)@, worker_id@, token@, lease_nanos, now),
{
    let attempt = row.attempt_count + 1;
    row.status = AwdpEvaluationStatus::Running;
    row.started_at = Some(now);
    row.attempt_count = attempt;
    row.claimed_by = Some(owned(worker_id));
    row.claimed_at = Some(now);
    row.heartbeat_at = Some(now);
    row.lease_expires_at = Some(now + lease_nanos);
    row.lease_token_hash = Some(lease_token_hash(token));
    row.updated_at = now;
    attempt
}

/// Outcome of a heartbeat.
#[derive(Debug, Clone, Copy, PartialEq, Eq, Structural)]
pub enum HeartbeatOutcome {
    /// The lease is valid and was extended.
    Extended,
    /// No valid lease (token, worker or status mismatch, or lease expired).
    NoLease,
}

/// `worker_id` holds the running evaluation's lease under `token`.
pub open spec fn holds_lease(v: LeaseView, worker_id: Seq<char>, token: Seq<char>) -> bool {
    v.status == AwdpEvaluationStatus::Running && v.claimed_by == Some(worker_id) && v.lease_token_hash == Some(
        token_hash_text(token),
    )
}

/// The lease expires strictly after `now`.
pub open spec fn lease_live(v: LeaseView, now: i64) -> bool {
    match v.lease_expires_at {
        Some(t) => t > now,
        None => false,
    }
}

fn same_opt_text(a: &Option<String>, b: &str) -> (r: bool)
    ensures
        r == (opt_text(*a) == Some(b@)),
{
    match a {
        Some(s) => {
            let t = owned(b);
            *s == t
        },
        None => false,
    }
}

fn holds(row: &EvaluationLease, worker_id: &str, token: &str) -> (r: bool)
    ensures
        r == holds_lease(row@, worker_id@, token@),
{
    if row.status != AwdpEvaluationStatus::Running {
        return false;
    }
    if !same_opt_text(&row.claimed_by, worker_id) {
        return false;
    }
    let h = lease_token_hash(token);
    same_opt_text(&row.lease_token_hash, h.as_str())
}

/// Extends a valid, unexpired lease to `now + lease_nanos`.
pub fn heartbeat(row: &mut EvaluationLease, worker_id: &str, token: &str, lease_nanos: i64, now: i64) -> (r:
    HeartbeatOutcome)
    requires
        i64::MIN <= now + lease_nanos <= i64::MAX,
    ensures
        (r == HeartbeatOutcome::Extended) <==> (holds_lease(old(row)@, worker_id@, token@) && lease_live(old(row)@, now)),
        r == HeartbeatOutcome::NoLease ==> final(row)@ == old(row)@,
        r == HeartbeatOutcome::Extended ==> final(row)@ == (LeaseView {
            heartbeat_at: Some(now),
            lease_expires_at: Some((now + lease_nanos) as i64),
            updated_at: now,
            ..old(row)@
        }),
{
    let valid = holds(row, worker_id, token) && match row.lease_expires_at {
        Some(t) => t > now,
        None => false,
    };
    if !valid {
        return HeartbeatOutcome::NoLease;
    }
    row.heartbeat_at = Some(now);
    row.lease_expires_at = Some(now + lease_nanos);
    row.updated_at = now;
    HeartbeatOutcome::Extended
}

/// Outcome of writing a result.
#[derive(Debug, Clone, Copy, PartialEq, Eq, Structural)]
pub enum FinishOutcome {
    /// The result was written (or the retry / failure recorded).
    Written,
    /// A stale worker's late result (lease invalid or attempt mismatch): refused,
    /// never overwriting a newer attempt.
    StaleRejected,
}

/// The result written by a lease-checked finish.
pub struct JobResult {
    pub status: AwdpEvaluationStatus,
    pub healthcheck_result: Option<String>,
    pub judge_result: Option<String>,
    pub exploit_result: Option<String>,
    pub stdout_limited: Option<String>,
    pub stderr_limited: Option<String>,
}

/// A present new value, else the stored one.
pub open spec fn keep_or(new: Option<String>, old: Option<Seq<char>>) -> Option<Seq<char>> {
    match new {
        Some(s) => Some(s@),
        None => old,
    }
}

/// A finish is accepted: `worker_id` holds the lease under `token`, the attempt
/// matches and the lease has not expired.
pub open spec fn finish_accepted(v: LeaseView, worker_id: Seq<char>, token: Seq<char>, attempt: i32, now: i64) -> bool {
    holds_lease(v, worker_id, token) && v.attempt_count == attempt && match v.lease_expires_at {
        Some(t) => t >= now,
        None => false,
    }
}

fn take_or(new: Option<String>, slot: &mut Option<String>)
    ensures
        opt_text(*final(slot)) == keep_or(new, opt_text(*old(slot))),
{
    if let Some(v) = new {
        *slot = Some(v);
    }
}

/// Writes a terminal result if the lease is still the worker's; a stale
/// result leaves the evaluation untouched. A written result releases the lease.
pub fn finish_with_lease(
    row: &mut EvaluationLease,
    worker_id: &str,
    token: &str,
    attempt: i32,
    result: JobResult,
    now: i64,
) -> (r: FinishOutcome)
    ensures
        (r == FinishOutcome::Written) <==> finish_accepted(old(row)@, worker_id@, token@, attempt, now),
        r == FinishOutcome::StaleRejected ==> final(row)@ == old(row)@,
        r == FinishOutcome::Written ==> {
            &&& final(row)@.status == result.status
            &&& lease_cleared(final(row)@)
            &&& final(row)@.finished_at == Some(now)
            &&& final(row)@.updated_at == now
            &&& final(row)@.attempt_count == old(row)@.attempt_count
            &&& final(row)@.started_at == old(row)@.started_at
            &&& final(row)@.healthcheck_result == keep_or(result.healthcheck_result, old(row)@.healthcheck_result)
            &&& final(row)@.judge_result == keep_or(result.judge_result, old(row)@.judge_result)
            &&& final(row)@.exploit_result == keep_or(result.exploit_result, old(row)@.exploit_result)
            &&& final(row)@.stdout_limited == keep_or(result.stdout_limited, old(row)@.stdout_limited)
            &&& final(row)@.stderr_limited == keep_or(result.stderr_limited, old(row)@.stderr_limited)
        },
{
    let valid = holds(row, worker_id, token) && row.attempt_count == attempt && match row.lease_expires_at {
        Some(t) => t >= now,
        None => false,
    };
    if !valid {
        return FinishOutcome::StaleRejected;
    }
    row.status = result.status;
    take_or(result.healthcheck_result, &mut row.healthcheck_result);
    take_or(result.judge_result, &mut row.judge_result);
    take_or(result.exploit_result, &mut row.exploit_result);
    take_or(result.stdout_limited, &mut row.stdout_limited);
    take_or(result.stderr_limited, &mut row.stderr_limited);
    row.finished_at = Some(now);
    clear_lease(row, now);
    FinishOutcome::Written
}

/// `index` falls between two characters of the UTF-8 text `bytes` (or at an end).
pub open spec fn is_char_boundary(bytes: Seq<u8>, index: int) -> bool {
    vstd::utf8::valid_utf8(bytes) && vstd::utf8::is_char_boundary(bytes, index)
}

/// `detail` cut to `max` bytes, with a note of its full byte length.
pub open spec fn truncated_text(s: Seq<char>, bytes: Seq<u8>, max: nat, r: Seq<char>) -> bool {
    if bytes.len() <= max {
        r == s
    } else {
        exists|p: Seq<char>|
            vstd::utf8::encode_utf8(p) == bytes.subrange(0, max as int) && r == p + "…("@ + dec(bytes.len()) + " bytes)"@
    }
}

/// The text unchanged when it has at most `max` UTF-8 bytes, else its first
/// `max` bytes followed by `…(N bytes)`.
pub fn truncate_str(s: &str, max: usize) -> (r: String)
    requires
        s.spec_bytes().len() > max ==> is_char_boundary(s.spec_bytes(), max as int),
    ensures
        truncated_text(s@, s.spec_bytes(), max as nat, r@),
{
    let n = s.as_bytes().len();
    if n <= max {
        return owned(s);
    }
    proof {
        vstd::utf8::encode_utf8_valid_utf8(s@);
    }
    let (head, _) = s.split_at(max);
    proof {
        vstd::utf8::encode_utf8_decode_utf8(head@);
        assert(vstd::utf8::encode_utf8(head@) == head.spec_bytes());
    }
    let len_text = u64_decimal(n as u64);
    cat(cat(cat(owned(head), "…("), len_text.as_str()), " bytes)")
}

/// Handles an infrastructure failure reported by the lease holder (never
/// blamed on the player): below `max_attempts` the evaluation goes back to
/// Pending for another claim, with the detail kept (cut to 64 KiB); at the
/// limit it ends as PlatformError. A stale report changes nothing.
pub fn release_or_fail(
    row: &mut EvaluationLease,
    worker_id: &str,
    token: &str,
    attempt: i32,
    max_attempts: i32,
    detail: &str,
    now: i64,
) -> (r: FinishOutcome)
    requires
        detail.spec_bytes().len() > 65536 ==> is_char_boundary(detail.spec_bytes(), 65536),
    ensures
        (r == FinishOutcome::Written) <==> (holds_lease(old(row)@, worker_id@, token@) && old(row)@.attempt_count == attempt),
        r == FinishOutcome::StaleRejected ==> final(row)@ == old(row)@,
        r == FinishOutcome::Written ==> {
            &&& lease_cleared(final(row)@)
            &&& final(row)@.updated_at == now
            &&& final(row)@.attempt_count == old(row)@.attempt_count
            &&& if attempt >= max_attempts {
                &&& final(row)@.status == AwdpEvaluationStatus::PlatformError
                &&& final(row)@.finished_at == Some(now)
                &&& final(row)@.stdout_limited == old(row)@.stdout_limited
            } else {
                &&& final(row)@.status == AwdpEvaluationStatus::Pending
                &&& final(row)@.finished_at == old(row)@.finished_at
                &&& final(row)@.stdout_limited matches Some(o) && truncated_text(detail@, detail.spec_bytes(), 65536, o)
            }
        },
{
    let valid = holds(row, worker_id, token) && row.attempt_count == attempt;
    if !valid {
        return FinishOutcome::StaleRejected;
    }
    if attempt >= max_attempts {
        row.status = AwdpEvaluationStatus::PlatformError;
        row.finished_at = Some(now);
    } else {
        row.status = AwdpEvaluationStatus::Pending;
        row.stdout_limited = Some(truncate_str(detail, 64 * 1024));
    }
    clear_lease(row, now);
    FinishOutcome::Written
}

/// A claim followed by a finish with the claim's token and attempt, by the same
/// worker, at any moment up to the lease expiry, is accepted.
pub proof fn law_claim_then_finish_accepted(
    v: LeaseView,
    worker_id: Seq<char>,
    token: Seq<char>,
    lease_nanos: i64,
    now: i64,
    later: i64,
)
    requires
        v.attempt_count < i32::MAX,
        i64::MIN <= now + lease_nanos <= i64::MAX,
        later <= now + lease_nanos,
    ensures
        finish_accepted(
            claimed(v, worker_id, token, lease_nanos, now),
            worker_id,
            token,
            (v.attempt_count + 1) as i32,
            later,
        ),
{
}

/// Once a claim's attempt is superseded (the evaluation was claimed again), a
/// late result carrying the old attempt number is refused.
pub proof fn law_superseded_attempt_rejected(
    v: LeaseView,
    worker_id: Seq<char>,
    token: Seq<char>,
    new_worker: Seq<char>,
    new_token: Seq<char>,
    lease_nanos: i64,
    now: i64,
    later: i64,
)
    requires
        v.attempt_count < i32::MAX,
        i64::MIN <= now + lease_nanos <= i64::MAX,
    ensures
        !finish_accepted(claimed(v, new_worker, new_token, lease_nanos, now), worker_id, token, v.attempt_count, later),
{
}


/// A job handed to a worker: the lease token in clear (kept only in the
/// worker's memory, never stored) and the attempt number of this claim.
pub struct ClaimedJob {
    pub evaluation_id: u128,
    pub lease_token: String,
    pub attempt: i32,
}

/// Claims a pending evaluation for `worker_id` under a fresh random token.
pub fn claim_job(evaluation_id: u128, row: &mut EvaluationLease, worker_id: &str, lease_nanos: i64, now: i64) -> (job: ClaimedJob)
    requires
        old(row)@.attempt_count < i32::MAX,
        i64::MIN <= now + lease_nanos <= i64::MAX,
    ensures
        job.evaluation_id == evaluation_id,
        job.attempt == old(row)@.attempt_count + 1,
        job.lease_token@.len() == 64,
        final(row)@ == claimed(old(row)@, worker_id@, job.lease_token@, lease_nanos, now),
{
    let token = new_lease_token();
    let attempt = claim(row, worker_id, token.as_str(), lease_nanos, now);
    ClaimedJob { evaluation_id, lease_token: token, attempt }
}

/// A claim request names its worker and asks for 1 to 64 jobs.
pub fn validate_claim_request(worker_id: &str, capacity: u64) -> (r: Result<(), String>)
    ensures
        crate::lines::trim_spec(worker_id@).len() == 0 ==> (r matches Err(m) && m@ == "worker_id is required"@),
        crate::lines::trim_spec(worker_id@).len() != 0 && !(1 <= capacity <= 64) ==> (r matches Err(m) && m@ == "capacity must be in [1, 64]"@),
        crate::lines::trim_spec(worker_id@).len() != 0 && 1 <= capacity <= 64 ==> r is Ok,
{
    let t = crate::lines::trim(worker_id);
    if t.as_str().is_empty() {
        return Err(owned("worker_id is required"));
    }
    if capacity == 0 || capacity > 64 {
        return Err(owned("capacity must be in [1, 64]"));
    }
    Ok(())
}

/// The JudgeServer's heartbeat answer: a lost lease is a conflict.
pub fn heartbeat_reply(outcome: HeartbeatOutcome) -> (r: Result<(), AwdpError>)
    ensures
        outcome == HeartbeatOutcome::Extended ==> r is Ok,
        outcome == HeartbeatOutcome::NoLease ==> (r matches Err(AwdpError::Conflict(m))
            && m@ == "no valid lease for evaluation"@),
{
    match outcome {
        HeartbeatOutcome::Extended => Ok(()),
        HeartbeatOutcome::NoLease => Err(AwdpError::Conflict(owned("no valid lease for evaluation"))),
    }
}

} // verus!

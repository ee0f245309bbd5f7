//! Flag submissions of the AWD engine: the score changes one accepted
//! submission makes and how a failed insert is told apart from a duplicate.

use vstd::prelude::*;

use crate::error::AwdError;
use crate::text::{cat, contains_text, has_substring, owned};

verus! {

/// Result of an accepted flag submission.
#[derive(Debug, Clone, Copy, PartialEq, Eq, Structural)]
pub struct SubmissionResult {
    pub attack_score_delta: i64,
    pub victim_loss_delta: i64,
    pub first_bonus_delta: i64,
    pub was_first_blood: bool,
}

/// The result of an accepted submission: the attack and loss points as
/// configured, and the first-blood bonus only when this submission won it.
pub fn submission_result(break_points: i64, loss_points: i64, first_bonus: i64, was_first_blood: bool) -> (r: SubmissionResult)
    ensures
        r.attack_score_delta == break_points,
        r.victim_loss_delta == loss_points,
        r.first_bonus_delta == (if was_first_blood { first_bonus } else { 0 }),
        r.was_first_blood == was_first_blood,
{
    SubmissionResult {
        attack_score_delta: break_points,
        victim_loss_delta: loss_points,
        first_bonus_delta: if was_first_blood { first_bonus } else { 0 },
        was_first_blood,
    }
}

/// Score change recorded for the victim team: the loss points taken off.
pub fn victim_loss_delta(loss_points: i64) -> (d: i64)
    requires
        loss_points != i64::MIN,
    ensures
        d == -loss_points,
{
    -loss_points
}

/// A database error text that reports a unique-key violation.
pub open spec fn duplicate_text(msg: Seq<char>) -> bool {
    has_substring(msg, "duplicate"@) || has_substring(msg, "unique"@)
}

/// Whether a database error reports a unique-key violation.
pub fn is_duplicate_error(msg: &str) -> (b: bool)
    ensures
        b == duplicate_text(msg@),
{
    contains_text(msg, "duplicate") || contains_text(msg, "unique")
}

/// Maps a failed insert: a unique-key violation becomes `Conflict` with the
/// given message, anything else a `Database` error carrying the original text.
pub fn insert_error(msg: String, conflict_message: &str) -> (e: AwdError)
    ensures
        duplicate_text(msg@) ==> (e matches AwdError::Conflict(m) && m@ == conflict_message@),
        !duplicate_text(msg@) ==> (e matches AwdError::Database(m) && m@ == msg@),
{
    if is_duplicate_error(msg.as_str()) {
        AwdError::Conflict(owned(conflict_message))
    } else {
        AwdError::Database(msg)
    }
}

/// A team that already submitted this target's flag in this round is refused.
pub fn check_not_submitted(already_submitted: bool) -> (r: Result<(), AwdError>)
    ensures
        already_submitted <==> r is Err,
        r is Err ==> (r matches Err(AwdError::Conflict(m))
            && m@ == "Already submitted this flag for this target this round"@),
{
    if already_submitted {
        Err(AwdError::Conflict(owned("Already submitted this flag for this target this round")))
    } else {
        Ok(())
    }
}

/// A failed submission insert: a unique-key violation is a concurrent repeat.
pub fn submission_insert_failure(msg: String) -> (e: AwdError)
    ensures
        duplicate_text(msg@) ==> (e matches AwdError::Conflict(m) && m@ == "Already submitted (concurrent request)"@),
        !duplicate_text(msg@) ==> (e matches AwdError::Database(m) && m@ == msg@),
{
    insert_error(msg, "Already submitted (concurrent request)")
}

/// A failed attack-score insert: a unique-key violation means it was scored already.
pub fn attack_insert_failure(msg: String) -> (e: AwdError)
    ensures
        duplicate_text(msg@) ==> (e matches AwdError::Conflict(m) && m@ == "Attack already scored"@),
        !duplicate_text(msg@) ==> (e matches AwdError::Database(m) && m@ == msg@),
{
    insert_error(msg, "Attack already scored")
}

/// A later write of a submission that failed.
#[derive(Debug, Clone, Copy, PartialEq, Eq, Structural)]
pub enum SubmissionStep {
    /// The victim's loss.
    VictimLoss,
    /// The first-blood bonus.
    FirstBlood,
    /// The transaction as a whole.
    Transaction,
}

/// The database error reported when a later write of a submission failed.
pub fn submission_step_failure(step: SubmissionStep, cause: &str) -> (e: AwdError)
    ensures
        e matches AwdError::Database(m) && m@ == (match step {
            SubmissionStep::VictimLoss => "Victim loss scoring failed: "@,
            SubmissionStep::FirstBlood => "First blood bonus write failed: "@,
            SubmissionStep::Transaction => "Transaction failed: "@,
        }) + cause@,
{
    let head = match step {
        SubmissionStep::VictimLoss => "Victim loss scoring failed: ",
        SubmissionStep::FirstBlood => "First blood bonus write failed: ",
        SubmissionStep::Transaction => "Transaction failed: ",
    };
    AwdError::Database(cat(owned(head), cause))
}

/// How each write of a submission's transaction went, in order: the lookup
/// of an earlier submission (whether one exists), the submission insert, the
/// attack-score insert, the victim-loss insert, and the first-blood write
/// (whether this submission won the bonus). A write after a failed one is
/// never made, and its entry is not read.
pub struct SubmissionWrites {
    pub has_submission: Result<bool, String>,
    pub submission_insert: Result<(), String>,
    pub attack_insert: Result<(), String>,
    pub loss_insert: Result<(), String>,
    pub first_blood: Result<bool, String>,
}

/// What an accepted submission records and announces: its result, the score
/// written for the victim, and the `(new_total, delta)` of the score-changed
/// event published after commit (the break points as both: no running total
/// is read).
pub struct SubmissionOutcome {
    pub result: SubmissionResult,
    pub victim_score_delta: i64,
    pub published: (i64, i64),
}

/// A whole flag submission from the outcome of its writes: an earlier
/// submission is refused, a failed write stops it with that write's error,
/// and otherwise the attacker gains the break points, the victim loses the
/// loss points, the first-blood bonus goes to this submission only when it
/// won it, and the score-changed event carries the break points.
pub fn submission_outcome(writes: &SubmissionWrites, break_points: i64, loss_points: i64, first_bonus: i64) -> (r: Result<
    SubmissionOutcome,
    AwdError,
>)
    requires
        loss_points != i64::MIN,
    ensures
        match writes.has_submission {
            Err(e) => r matches Err(AwdError::Database(m)) && m@ == e@,
            Ok(true) => r matches Err(AwdError::Conflict(m)) && m@ == "Already submitted this flag for this target this round"@,
            Ok(false) => match writes.submission_insert {
                Err(e) => (duplicate_text(e@) ==> (r matches Err(AwdError::Conflict(m)) && m@
                    == "Already submitted (concurrent request)"@)) && (!duplicate_text(e@) ==> (r matches Err(
                    AwdError::Database(m),
                ) && m@ == e@)),
                Ok(_) => match writes.attack_insert {
                    Err(e) => (duplicate_text(e@) ==> (r matches Err(AwdError::Conflict(m)) && m@ == "Attack already scored"@))
                        && (!duplicate_text(e@) ==> (r matches Err(AwdError::Database(m)) && m@ == e@)),
                    Ok(_) => match writes.loss_insert {
                        Err(e) => r matches Err(AwdError::Database(m)) && m@ == "Victim loss scoring failed: "@ + e@,
                        Ok(_) => match writes.first_blood {
                            Err(e) => r matches Err(AwdError::Database(m)) && m@ == "First blood bonus write failed: "@ + e@,
                            Ok(won) => r matches Ok(o) && o.result == (SubmissionResult {
                                attack_score_delta: break_points,
                                victim_loss_delta: loss_points,
                                first_bonus_delta: if won { first_bonus } else { 0 },
                                was_first_blood: won,
                            }) && o.victim_score_delta == -loss_points && o.published == (break_points, break_points),
                        },
                    },
                },
            },
        },
{
    match &writes.has_submission {
        Err(e) => return Err(AwdError::Database(owned(e.as_str()))),
        Ok(already) => {
            match check_not_submitted(*already) {
                Ok(()) => {},
                Err(e) => return Err(e),
            }
        },
    }
    match &writes.submission_insert {
        Err(e) => return Err(submission_insert_failure(owned(e.as_str()))),
        Ok(_) => {},
    }
    match &writes.attack_insert {
        Err(e) => return Err(attack_insert_failure(owned(e.as_str()))),
        Ok(_) => {},
    }
    match &writes.loss_insert {
        Err(e) => return Err(submission_step_failure(SubmissionStep::VictimLoss, e.as_str())),
        Ok(_) => {},
    }
    match &writes.first_blood {
        Err(e) => Err(submission_step_failure(SubmissionStep::FirstBlood, e.as_str())),
        Ok(won) => {
            let result = submission_result(break_points, loss_points, first_bonus, *won);
            Ok(SubmissionOutcome {
                result,
                victim_score_delta: victim_loss_delta(loss_points),
                published: (break_points, break_points),
            })
        },
    }
}

} // verus!

//! AWD-Plus run configuration: defaults, validation, partial patches and the
//! derived round count.

use vstd::prelude::*;

use crate::awdp_timing::{div_i32, trunc_div};
use crate::error::AwdpError;
use crate::text::{cat, dec_int, i64_decimal, owned};

verus! {

pub const DEFAULT_BREAK_DURATION_SECS: i32 = 3600;

pub const DEFAULT_FIX_DURATION_SECS: i32 = 3600;

pub const DEFAULT_FIX_ROUND_INTERVAL_SECS: i32 = 600;

pub const DEFAULT_BREAK_SCORE: i64 = 1000;

pub const DEFAULT_FIX_ROUND_SCORE: i64 = 150;

/// Timing and scoring configuration of an AWD-Plus event (or a run's frozen copy).
#[derive(Debug, Clone, Copy, PartialEq, Eq, Structural)]
pub struct AwdpConfig {
    pub break_duration_secs: i32,
    pub fix_duration_secs: i32,
    pub fix_round_interval_secs: i32,
    pub break_score: i64,
    pub fix_round_score: i64,
}

/// The configuration snapshot columns of a run, frozen at run start.
#[derive(Debug, Clone, Copy, PartialEq, Eq, Structural)]
pub struct RunConfigSnapshot {
    pub break_duration_secs: i32,
    pub fix_duration_secs: i32,
    pub fix_round_interval_secs: i32,
    pub break_score: i64,
    pub fix_round_score: i64,
}

/// The message of the first violated rule, if any: positive durations,
/// non-negative scores, fix duration a multiple of the round interval.
pub open spec fn config_error(c: AwdpConfig) -> Option<Seq<char>> {
    if c.break_duration_secs <= 0 {
        Some("break_duration_secs must be > 0"@)
    } else if c.fix_duration_secs <= 0 {
        Some("fix_duration_secs must be > 0"@)
    } else if c.fix_round_interval_secs <= 0 {
        Some("fix_round_interval_secs must be > 0"@)
    } else if c.break_score < 0 || c.fix_round_score < 0 {
        Some("break_score and fix_round_score must be >= 0"@)
    } else if c.fix_duration_secs % c.fix_round_interval_secs != 0 {
        Some(
            "fix_duration_secs ("@ + dec_int(c.fix_duration_secs as int) + ") must be divisible by fix_round_interval_secs ("@
                + dec_int(c.fix_round_interval_secs as int) + ")"@,
        )
    } else {
        None
    }
}

/// The outcome `Result<(), Validation(message)>` for an optional message.
pub open spec fn validation_outcome(e: Option<Seq<char>>, r: Result<(), AwdpError>) -> bool {
    match e {
        None => r is Ok,
        Some(m) => r matches Err(AwdpError::Validation(s)) && s@ == m,
    }
}

impl Default for AwdpConfig {
    fn default() -> (c: AwdpConfig)
        ensures
            c == (AwdpConfig {
                break_duration_secs: 3600,
                fix_duration_secs: 3600,
                fix_round_interval_secs: 600,
                break_score: 1000,
                fix_round_score: 150,
            }),
    {
        AwdpConfig {
            break_duration_secs: DEFAULT_BREAK_DURATION_SECS,
            fix_duration_secs: DEFAULT_FIX_DURATION_SECS,
            fix_round_interval_secs: DEFAULT_FIX_ROUND_INTERVAL_SECS,
            break_score: DEFAULT_BREAK_SCORE,
            fix_round_score: DEFAULT_FIX_ROUND_SCORE,
        }
    }
}

impl AwdpConfig {
    /// The configuration frozen into a run.
    pub fn from_run(run: &RunConfigSnapshot) -> (c: AwdpConfig)
        ensures
            c.break_duration_secs == run.break_duration_secs,
            c.fix_duration_secs == run.fix_duration_secs,
            c.fix_round_interval_secs == run.fix_round_interval_secs,
            c.break_score == run.break_score,
            c.fix_round_score == run.fix_round_score,
    {
        AwdpConfig {
            break_duration_secs: run.break_duration_secs,
            fix_duration_secs: run.fix_duration_secs,
            fix_round_interval_secs: run.fix_round_interval_secs,
            break_score: run.break_score,
            fix_round_score: run.fix_round_score,
        }
    }

    /// Checks every duration and score rule; the first violation is reported.
    pub fn validate(&self) -> (r: Result<(), AwdpError>)
        ensures
            validation_outcome(config_error(*self), r),
    {
        if self.break_duration_secs <= 0 {
            return Err(AwdpError::Validation(owned("break_duration_secs must be > 0")));
        }
        if self.fix_duration_secs <= 0 {
            return Err(AwdpError::Validation(owned("fix_duration_secs must be > 0")));
        }
        if self.fix_round_interval_secs <= 0 {
            return Err(AwdpError::Validation(owned("fix_round_interval_secs must be > 0")));
        }
        if self.break_score < 0 || self.fix_round_score < 0 {
            return Err(AwdpError::Validation(owned("break_score and fix_round_score must be >= 0")));
        }
        if self.fix_duration_secs % self.fix_round_interval_secs != 0 {
            let a = i64_decimal(self.fix_duration_secs as i64);
            let b = i64_decimal(self.fix_round_interval_secs as i64);
            let m = cat(cat(owned("fix_duration_secs ("), a.as_str()), ") must be divisible by fix_round_interval_secs (");
            let m = cat(cat(m, b.as_str()), ")");
            return Err(AwdpError::Validation(m));
        }
        Ok(())
    }

    /// Number of fix rounds: fix duration over round interval.
    pub fn total_rounds(&self) -> (r: i32)
        requires
            self.fix_round_interval_secs != 0,
            !(self.fix_duration_secs == i32::MIN && self.fix_round_interval_secs == -1),
        ensures
            r == trunc_div(self.fix_duration_secs as int, self.fix_round_interval_secs as int),
    {
        div_i32(self.fix_duration_secs, self.fix_round_interval_secs)
    }
}

/// A valid configuration splits the fix phase into at least one whole round,
/// and the rounds exactly tile it.
pub proof fn law_valid_config_rounds_tile_fix(c: AwdpConfig)
    requires
        config_error(c) is None,
    ensures
        trunc_div(c.fix_duration_secs as int, c.fix_round_interval_secs as int) >= 1,
        trunc_div(c.fix_duration_secs as int, c.fix_round_interval_secs as int) * c.fix_round_interval_secs
            == c.fix_duration_secs,
{
    let f = c.fix_duration_secs as int;
    let i = c.fix_round_interval_secs as int;
    vstd::arithmetic::div_mod::lemma_fundamental_div_mod(f, i);
    assert(f / i * i == f) by (nonlinear_arith)
        requires
            f == i * (f / i) + f % i,
            f % i == 0,
    ;
    assert(f / i >= 1) by (nonlinear_arith)
        requires
            f / i * i == f,
            f > 0,
            i > 0,
    ;
}

/// A configuration change: each field absent keeps the current value.
#[derive(Debug, Clone, Copy, PartialEq, Eq, Structural)]
pub struct AwdpConfigPatch {
    /// Optimistic-lock token: the `updated_at` (Unix nanoseconds) the caller last read.
    pub expected_updated_at: Option<i64>,
    pub break_duration_secs: Option<i32>,
    pub fix_duration_secs: Option<i32>,
    pub fix_round_interval_secs: Option<i32>,
    pub break_score: Option<i64>,
    pub fix_round_score: Option<i64>,
}

impl Default for AwdpConfigPatch {
    fn default() -> (p: AwdpConfigPatch)
        ensures
            p == (AwdpConfigPatch {
                expected_updated_at: None,
                break_duration_secs: None,
                fix_duration_secs: None,
                fix_round_interval_secs: None,
                break_score: None,
                fix_round_score: None,
            }),
    {
        AwdpConfigPatch {
            expected_updated_at: None,
            break_duration_secs: None,
            fix_duration_secs: None,
            fix_round_interval_secs: None,
            break_score: None,
            fix_round_score: None,
        }
    }
}

/// A present duration that is not positive.
pub open spec fn bad_duration(v: Option<i32>) -> bool {
    v matches Some(x) && x <= 0
}

/// A present score that is negative.
pub open spec fn bad_score(v: Option<i64>) -> bool {
    v matches Some(x) && x < 0
}

/// The message of the first out-of-range field of a patch, if any.
pub open spec fn patch_error(p: AwdpConfigPatch) -> Option<Seq<char>> {
    if bad_duration(p.break_duration_secs) {
        Some("break_duration_secs must be > 0"@)
    } else if bad_duration(p.fix_duration_secs) {
        Some("fix_duration_secs must be > 0"@)
    } else if bad_duration(p.fix_round_interval_secs) {
        Some("fix_round_interval_secs must be > 0"@)
    } else if bad_score(p.break_score) {
        Some("break_score must be >= 0"@)
    } else if bad_score(p.fix_round_score) {
        Some("fix_round_score must be >= 0"@)
    } else {
        None
    }
}

/// A present value, else the current one.
pub open spec fn or_keep<T>(v: Option<T>, base: T) -> T {
    match v {
        Some(x) => x,
        None => base,
    }
}

/// The configuration after a patch.
pub open spec fn patched(p: AwdpConfigPatch, base: AwdpConfig) -> AwdpConfig {
    AwdpConfig {
        break_duration_secs: or_keep(p.break_duration_secs, base.break_duration_secs),
        fix_duration_secs: or_keep(p.fix_duration_secs, base.fix_duration_secs),
        fix_round_interval_secs: or_keep(p.fix_round_interval_secs, base.fix_round_interval_secs),
        break_score: or_keep(p.break_score, base.break_score),
        fix_round_score: or_keep(p.fix_round_score, base.fix_round_score),
    }
}

impl AwdpConfigPatch {
    /// Per-field range checks (the combined rules are checked on the merged config).
    pub fn validate(&self) -> (r: Result<(), AwdpError>)
        ensures
            validation_outcome(patch_error(*self), r),
    {
        if let Some(v) = self.break_duration_secs {
            if v <= 0 {
                return Err(AwdpError::Validation(owned("break_duration_secs must be > 0")));
            }
        }
        if let Some(v) = self.fix_duration_secs {
            if v <= 0 {
                return Err(AwdpError::Validation(owned("fix_duration_secs must be > 0")));
            }
        }
        if let Some(v) = self.fix_round_interval_secs {
            if v <= 0 {
                return Err(AwdpError::Validation(owned("fix_round_interval_secs must be > 0")));
            }
        }
        if let Some(v) = self.break_score {
            if v < 0 {
                return Err(AwdpError::Validation(owned("break_score must be >= 0")));
            }
        }
        if let Some(v) = self.fix_round_score {
            if v < 0 {
                return Err(AwdpError::Validation(owned("fix_round_score must be >= 0")));
            }
        }
        Ok(())
    }

    /// The configuration with the patch applied (not validated).
    pub fn apply_to(&self, base: &AwdpConfig) -> (c: AwdpConfig)
        ensures
            c == patched(*self, *base),
    {
        AwdpConfig {
            break_duration_secs: match self.break_duration_secs {
                Some(v) => v,
                None => base.break_duration_secs,
            },
            fix_duration_secs: match self.fix_duration_secs {
                Some(v) => v,
                None => base.fix_duration_secs,
            },
            fix_round_interval_secs: match self.fix_round_interval_secs {
                Some(v) => v,
                None => base.fix_round_interval_secs,
            },
            break_score: match self.break_score {
                Some(v) => v,
                None => base.break_score,
            },
            fix_round_score: match self.fix_round_score {
                Some(v) => v,
                None => base.fix_round_score,
            },
        }
    }
}

/// An empty patch changes nothing, and applying the same patch twice is the
/// same as applying it once.
pub proof fn law_patch_identity_and_idempotence(p: AwdpConfigPatch, base: AwdpConfig)
    ensures
        patched(
            AwdpConfigPatch {
                expected_updated_at: p.expected_updated_at,
                break_duration_secs: None,
                fix_duration_secs: None,
                fix_round_interval_secs: None,
                break_score: None,
                fix_round_score: None,
            },
            base,
        ) == base,
        patched(p, patched(p, base)) == patched(p, base),
{
}

/// A patch that passes its own checks, applied to a valid configuration,
/// gives positive durations and non-negative scores; only divisibility can
/// still fail.
pub proof fn law_valid_patch_keeps_ranges(p: AwdpConfigPatch, base: AwdpConfig)
    requires
        patch_error(p) is None,
        config_error(base) is None,
    ensures
        config_error(patched(p, base)) is None || patched(p, base).fix_duration_secs
            % patched(p, base).fix_round_interval_secs != 0,
{
}

} // verus!

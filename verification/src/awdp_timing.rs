//! AWD-Plus fix-round timeline: round count and the window of every round.

use vstd::prelude::*;

verus! {

/// Integer division rounding toward zero (Rust's `/` on signed integers).
pub open spec fn trunc_div(a: int, b: int) -> int {
    if a >= 0 {
        if b > 0 {
            a / b
        } else {
            -(a / (-b))
        }
    } else {
        if b > 0 {
            -((-a) / b)
        } else {
            (-a) / (-b)
        }
    }
}

/// `a / b` on `i32`, rounding toward zero.
pub fn div_i32(a: i32, b: i32) -> (r: i32)
    requires
        b != 0,
        !(a == i32::MIN && b == -1),
    ensures
        r == trunc_div(a as int, b as int),
{
    let a64 = a as i64;
    let b64 = b as i64;
    proof {
        let ai = a as int;
        let bi = b as int;
        if ai >= 0 && bi > 0 {
            assert(ai / bi <= ai) by (nonlinear_arith)
                requires
                    ai >= 0,
                    bi > 0,
            ;
        }
        if ai >= 0 && bi < 0 {
            assert(ai / (-bi) <= ai) by (nonlinear_arith)
                requires
                    ai >= 0,
                    bi < 0,
            ;
        }
        if ai < 0 && bi > 0 {
            assert((-ai) / bi <= -ai) by (nonlinear_arith)
                requires
                    ai < 0,
                    bi > 0,
            ;
        }
        if ai < 0 && bi < 0 {
            if bi == -1 {
                assert((-ai) / (-bi) == -ai) by (nonlinear_arith)
                    requires
                        bi == -1,
                ;
            } else {
                assert((-ai) / (-bi) <= (-ai) / 2) by (nonlinear_arith)
                    requires
                        ai < 0,
                        bi <= -2,
                ;
            }
        }
    }
    let q: i64 = if a64 >= 0 {
        if b64 > 0 {
            a64 / b64
        } else {
            -(a64 / (-b64))
        }
    } else {
        if b64 > 0 {
            -((-a64) / b64)
        } else {
            (-a64) / (-b64)
        }
    };
    q as i32
}

/// Number of fix rounds: fix duration over round interval.
pub fn total_rounds(fix_duration_secs: i32, fix_round_interval_secs: i32) -> (r: i32)
    requires
        fix_round_interval_secs != 0,
        !(fix_duration_secs == i32::MIN && fix_round_interval_secs == -1),
    ensures
        r == trunc_div(fix_duration_secs as int, fix_round_interval_secs as int),
{
    div_i32(fix_duration_secs, fix_round_interval_secs)
}

/// The time window of one fix round (instants in Unix nanoseconds).
#[derive(Debug, Clone, Copy, PartialEq, Eq, Structural)]
pub struct RoundWindow {
    pub sequence: i32,
    pub starts_at: i64,
    pub cutoff_at: i64,
}

/// Window `k` (0-based) of the timeline: round `k + 1` from `start + k·interval`
/// to `start + (k + 1)·interval`.
pub open spec fn window_spec(fix_start: i64, interval: i64, k: int) -> (int, int, int) {
    (k + 1, fix_start + interval * k, fix_start + interval * (k + 1))
}

/// All fix-round windows: round 1 opens at the fix start, round `n` closes at
/// `fix_start + n·interval`, and the windows are back to back.
pub fn round_windows(fix_start: i64, interval: i64, count: i32) -> (w: Vec<RoundWindow>)
    requires
        count > 0 ==> i64::MIN <= fix_start + interval * count <= i64::MAX,
        count > 0 ==> i64::MIN <= interval * count <= i64::MAX,
    ensures
        w@.len() == if count > 0 { count as int } else { 0 },
        forall|k: int|
            0 <= k < w@.len() ==> {
                let s = #[trigger] window_spec(fix_start, interval, k);
                &&& w@[k].sequence == s.0
                &&& w@[k].starts_at == s.1
                &&& w@[k].cutoff_at == s.2
            },
{
    let mut w: Vec<RoundWindow> = Vec::new();
    if count <= 0 {
        return w;
    }
    let mut i: i64 = 1;
    while i <= count as i64
        invariant
            1 <= i <= count + 1,
            count > 0,
            i64::MIN <= fix_start + interval * count <= i64::MAX,
            i64::MIN <= interval * count <= i64::MAX,
            w@.len() == i - 1,
            forall|k: int|
                0 <= k < w@.len() ==> {
                    let s = #[trigger] window_spec(fix_start, interval, k);
                    &&& w@[k].sequence == s.0
                    &&& w@[k].starts_at == s.1
                    &&& w@[k].cutoff_at == s.2
                },
        decreases count - i + 1,
    {
        proof {
            assert(0 <= interval * (i - 1) <= interval * count || interval * count <= interval * (i - 1) <= 0)
                by (nonlinear_arith)
                requires
                    1 <= i <= count,
            ;
            assert(0 <= interval * i <= interval * count || interval * count <= interval * i <= 0) by (nonlinear_arith)
                requires
                    1 <= i <= count,
            ;
            assert(0 <= fix_start + interval * (i - 1) - fix_start <= interval * count || interval * count <= interval * (
            i - 1) <= 0);
        }
        let off_start = interval * (i - 1);
        let off_end = interval * i;
        proof {
            assert(fix_start + off_start <= i64::MAX && fix_start + off_start >= i64::MIN) by (nonlinear_arith)
                requires
                    0 <= off_start <= interval * count || interval * count <= off_start <= 0,
                    i64::MIN <= fix_start + interval * count <= i64::MAX,
                    i64::MIN <= fix_start <= i64::MAX,
            ;
            assert(fix_start + off_end <= i64::MAX && fix_start + off_end >= i64::MIN) by (nonlinear_arith)
                requires
                    0 <= off_end <= interval * count || interval * count <= off_end <= 0,
                    i64::MIN <= fix_start + interval * count <= i64::MAX,
                    i64::MIN <= fix_start <= i64::MAX,
            ;
        }
        w.push(RoundWindow { sequence: i as i32, starts_at: fix_start + off_start, cutoff_at: fix_start + off_end });
        i = i + 1;
    }
    w
}

/// Consecutive rounds are back to back, and the last one closes `count`
/// intervals after the fix start.
pub proof fn law_windows_tile_fix(fix_start: i64, interval: i64, count: int, k: int)
    requires
        0 <= k,
        k + 1 < count,
    ensures
        window_spec(fix_start, interval, k).2 == window_spec(fix_start, interval, k + 1).1,
        window_spec(fix_start, interval, count - 1).2 == fix_start + interval * count,
        window_spec(fix_start, interval, 0).1 == fix_start,
{
}

} // verus!

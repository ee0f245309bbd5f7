//! Game-box resets: who may reset, whether a reset is free, the penalty of
//! an extra reset, and the bookkeeping values a reset writes.

use vstd::prelude::*;

use crate::error::AwdError;
use crate::text::{cat, owned, uuid_string, uuid_text};

verus! {

/// Who asked for a reset.
#[derive(Debug, Clone, Copy, PartialEq, Eq, Structural)]
pub enum ResetActor {
    /// A player of the owning team.
    Player { user_id: u128, team_id: u128 },
    /// An administrator; with `charge_team` the reset counts against the team.
    Admin { admin_id: u128, charge_team: bool },
}

impl ResetActor {
    /// The user recorded as the requester.
    pub fn requester_id(&self) -> (id: u128)
        ensures
            id == (match *self {
                ResetActor::Player { user_id, .. } => user_id,
                ResetActor::Admin { admin_id, .. } => admin_id,
            }),
    {
        match self {
            ResetActor::Player { user_id, .. } => *user_id,
            ResetActor::Admin { admin_id, .. } => *admin_id,
        }
    }
}

/// Why a reset is refused, checked in this order: the event is not under
/// way, a player asks for another team's box, the team is banned, the box is
/// still inside its reset protection window.
pub open spec fn reset_refusal(event_active: bool, actor: ResetActor, instance_team: u128, team_banned: bool, protection_until: Option<i64>, now: i64) -> Option<Seq<char>> {
    if !event_active {
        Some("Event is not running"@)
    } else if actor matches ResetActor::Player { team_id, .. } && team_id != instance_team {
        Some("This GameBox does not belong to your team"@)
    } else if team_banned {
        Some("Team is banned"@)
    } else if protection_until matches Some(t) && t > now {
        Some("Reset is in protection window; wait for it to expire"@)
    } else {
        None
    }
}

/// The actor may touch the box: an administrator any box, a player only a
/// box of their own team.
pub open spec fn may_reset(actor: ResetActor, instance_team: u128) -> bool {
    match actor {
        ResetActor::Player { team_id, .. } => team_id == instance_team,
        ResetActor::Admin { .. } => true,
    }
}

/// A reset goes through exactly when the event is under way, the actor may
/// touch the box, the team is not banned and the box is past its protection
/// window, for players and administrators alike; a box still inside its
/// window (otherwise admissible) is refused with the protection message.
pub proof fn lemma_reset_gate(
    event_active: bool,
    actor: ResetActor,
    instance_team: u128,
    team_banned: bool,
    protection_until: Option<i64>,
    now: i64,
)
    ensures
        reset_refusal(event_active, actor, instance_team, team_banned, protection_until, now) is None <==> (event_active
            && may_reset(actor, instance_team) && !team_banned && !(protection_until matches Some(t) && t > now)),
        event_active && may_reset(actor, instance_team) && !team_banned && (protection_until matches Some(t) && t > now)
            ==> reset_refusal(event_active, actor, instance_team, team_banned, protection_until, now) == Some(
            "Reset is in protection window; wait for it to expire"@,
        ),
{
}

/// Gate of a reset; on success the team that is charged (the box's owner).
/// Refusals are `Forbidden` with the reason of [`reset_refusal`].
pub fn authorize_reset(
    event_active: bool,
    actor: &ResetActor,
    instance_team: u128,
    team_banned: bool,
    protection_until: Option<i64>,
    now: i64,
) -> (r: Result<u128, AwdError>)
    ensures
        match reset_refusal(event_active, *actor, instance_team, team_banned, protection_until, now) {
            None => r == Ok::<u128, AwdError>(instance_team),
            Some(m) => r matches Err(e) && e matches AwdError::Forbidden(x) && x@ == m,
        },
        r is Ok <==> (event_active && may_reset(*actor, instance_team) && !team_banned && !(protection_until matches Some(
            t,
        ) && t > now)),
        r matches Ok(team) ==> team == instance_team,
        event_active && may_reset(*actor, instance_team) && !team_banned && (protection_until matches Some(t) && t > now)
            ==> (r matches Err(AwdError::Forbidden(x)) && x@ == "Reset is in protection window; wait for it to expire"@),
{
    proof {
        lemma_reset_gate(event_active, *actor, instance_team, team_banned, protection_until, now);
    }
    if !event_active {
        return Err(AwdError::Forbidden(owned("Event is not running")));
    }
    let team = match actor {
        ResetActor::Player { team_id, .. } => {
            if *team_id != instance_team {
                return Err(AwdError::Forbidden(owned("This GameBox does not belong to your team")));
            }
            *team_id
        },
        ResetActor::Admin { .. } => instance_team,
    };
    if team_banned {
        return Err(AwdError::Forbidden(owned("Team is banned")));
    }
    let in_protection = match protection_until {
        Some(t) => t > now,
        None => false,
    };
    if in_protection {
        return Err(AwdError::Forbidden(owned("Reset is in protection window; wait for it to expire")));
    }
    Ok(team)
}

/// A reset is free while the team has used fewer resets than its free
/// allowance; an administrator's reset that does not charge the team is always free.
pub open spec fn free_reset(actor: ResetActor, used: i64, free_count: i32) -> bool {
    match actor {
        ResetActor::Player { .. } => used < free_count,
        ResetActor::Admin { charge_team, .. } => !charge_team || used < free_count,
    }
}

/// Whether this reset is free.
pub fn reset_is_free(actor: &ResetActor, used: i64, free_count: i32) -> (b: bool)
    ensures
        b == free_reset(*actor, used, free_count),
{
    match actor {
        ResetActor::Player { .. } => used < free_count as i64,
        ResetActor::Admin { charge_team, .. } => !*charge_team || used < free_count as i64,
    }
}

/// Score change of a reset once its box is rebuilt: none when free, else the
/// extra-reset penalty taken off.
pub fn reset_penalty_delta(is_free: bool, extra_reset_penalty: i64) -> (d: Option<i64>)
    requires
        extra_reset_penalty != i64::MIN,
    ensures
        is_free ==> d is None,
        !is_free ==> d == Some((-extra_reset_penalty) as i64),
{
    if is_free {
        None
    } else {
        Some(-extra_reset_penalty)
    }
}

/// Idempotency key of a reset penalty: `reset:{reset id}`.
pub fn reset_penalty_key(reset_id: u128) -> (s: String)
    ensures
        s@ == "reset:"@ + uuid_text(reset_id),
{
    let id = uuid_string(reset_id);
    cat(owned("reset:"), id.as_str())
}

/// End of the protection window that starts with a reset (ns).
pub fn protection_until(now_nanos: i64, reset_protection_secs: i32) -> (t: i64)
    requires
        i64::MIN <= now_nanos + reset_protection_secs * 1_000_000_000 <= i64::MAX,
    ensures
        t == now_nanos + reset_protection_secs * 1_000_000_000,
{
    now_nanos + (reset_protection_secs as i64) * 1_000_000_000
}

/// A rebuilt box keeps its identity and moves to the next runtime generation.
pub fn next_runtime_generation(current: i64) -> (g: i64)
    requires
        current < i64::MAX,
    ensures
        g == current + 1,
{
    current + 1
}

/// Law: once a team has used up its free resets, a player's reset and a
/// charged administrator reset both cost the extra-reset penalty, while an
/// uncharged administrator reset never does.
pub proof fn law_reset_charging(user: u128, team: u128, admin: u128, used: i64, free_count: i32)
    requires
        used >= free_count,
    ensures
        !free_reset(ResetActor::Player { user_id: user, team_id: team }, used, free_count),
        !free_reset(ResetActor::Admin { admin_id: admin, charge_team: true }, used, free_count),
        free_reset(ResetActor::Admin { admin_id: admin, charge_team: false }, used, free_count),
{
}

} // verus!

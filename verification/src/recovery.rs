//! Recovery of a running AWD event after a restart: what happens to each
//! recorded game-box instance given the containers the runtime still has.

use vstd::prelude::*;

use crate::judge::GameboxStatus;
use crate::precheck_probe::{last_named, LiveContainer};
use crate::text::owned;

verus! {

/// What recovery does with one instance.
#[derive(Debug, PartialEq, Eq)]
pub enum InstanceRecovery {
    /// Its container runs under another id: record that id, status Ready.
    Adopt(String),
    /// Its container runs under the recorded id: nothing to write.
    Keep,
    /// Its container is gone or stopped while the instance should run: mark it missing.
    MarkMissing,
    /// Its container is gone or stopped and the instance is not meant to run.
    Ignore,
}

/// Statuses of an instance that is meant to have a running container.
pub open spec fn expects_container(s: GameboxStatus) -> bool {
    s == GameboxStatus::Ready || s == GameboxStatus::Running || s == GameboxStatus::Creating || s == GameboxStatus::Pending
}

fn text_eq(a: &str, b: &str) -> (r: bool)
    ensures
        r == (a@ == b@),
{
    let x = crate::text::to_chars(a);
    let y = crate::text::to_chars(b);
    if x.len() != y.len() {
        return false;
    }
    let mut i: usize = 0;
    while i < x.len()
        invariant
            x@ == a@,
            y@ == b@,
            x@.len() == y@.len(),
            i <= x@.len(),
            forall|k: int| 0 <= k < i ==> x@[k] == y@[k],
        decreases x@.len() - i,
    {
        if x[i] != y[i] {
            return false;
        }
        i = i + 1;
    }
    assert(x@ =~= y@);
    true
}

/// Recovery of one instance: the runtime's container of that name (the last
/// listed one) decides; a running one is adopted (or kept when the recorded
/// id matches), otherwise an instance meant to run is marked missing.
pub fn recover_instance(live: &[LiveContainer], container_name: &str, recorded_id: Option<&str>, status: GameboxStatus) -> (r: InstanceRecovery)
    ensures
        match last_named(live@, container_name@) {
            Some(c) if c.running => if recorded_id matches Some(id) && id@ == c.container_id@ {
                r == InstanceRecovery::Keep
            } else {
                r matches InstanceRecovery::Adopt(id) && id@ == c.container_id@
            },
            _ => if expects_container(status) { r == InstanceRecovery::MarkMissing } else { r == InstanceRecovery::Ignore },
        },
{
    let found = crate::precheck_probe::find_last_named(live, container_name);
    match found {
        Some(k) if live[k].running => {
            let c = &live[k];
            let same = match recorded_id {
                Some(id) => text_eq(id, c.container_id.as_str()),
                None => false,
            };
            if same {
                InstanceRecovery::Keep
            } else {
                InstanceRecovery::Adopt(owned(c.container_id.as_str()))
            }
        },
        _ => {
            if matches!(status, GameboxStatus::Ready | GameboxStatus::Running | GameboxStatus::Creating | GameboxStatus::Pending) {
                InstanceRecovery::MarkMissing
            } else {
                InstanceRecovery::Ignore
            }
        },
    }
}

/// Whether the instance counts as recovered (adopted, kept or marked missing).
pub fn counts_as_recovered(r: &InstanceRecovery) -> (b: bool)
    ensures
        b == !(*r matches InstanceRecovery::Ignore),
{
    !matches!(r, InstanceRecovery::Ignore)
}

} // verus!

//! A precheck run as a whole: the network and status gates, the stored-data
//! findings, then each probe's findings in run order, and the verdict with
//! the event status and the configuration revision it records.

use vstd::prelude::*;

use crate::awd_event::{is_configurable_spec, status_name, AwdEventStatus};
use crate::digest::sha256_of;
use crate::error::AwdError;
use crate::precheck::{
    compute_revision, event_network_fault, finding_texts, firewall_findings, firewall_structure_findings,
    plan_precheck_entry, precheck_outcome, revision_input, static_findings, static_precheck_findings,
    validate_event_network, EventNetworkRecord, PrecheckStatus,
};
use crate::precheck_probe::CheckReport;
use crate::text::{cat, hex_lower, owned};

verus! {

/// What the runtime showed during a run, in the order the checks run.
pub struct PrecheckProbes {
    /// Listing the event's instances (or why it failed).
    pub instance_lookup: Result<(), String>,
    pub containers: CheckReport,
    pub ssh: CheckReport,
    pub wireguard: CheckReport,
    /// The firewall inspection: table present, its listing, the revision it
    /// carries; or why it could not be inspected.
    pub firewall: Result<(bool, String, Option<u64>), String>,
    /// The revision the stored network settings call for.
    pub desired_revision: u64,
    /// The network-matrix check, or why the desired state could not be built.
    pub matrix: Result<CheckReport, String>,
}

/// The verdict of a run.
pub struct PrecheckVerdict {
    pub errors: Vec<(String, String)>,
    pub notes: Vec<(String, String)>,
    pub status: PrecheckStatus,
    /// The status the event moves to from Prechecking.
    pub event_status: AwdEventStatus,
    /// The configuration revision recorded with Verified; none on failure.
    pub verified_revision: Option<String>,
}

/// Errors of a failed instance listing.
pub open spec fn lookup_errors(lookup: Result<(), String>) -> Seq<(Seq<char>, Seq<char>)> {
    match lookup {
        Ok(_) => Seq::empty(),
        Err(e) => seq![("gamebox"@, "find_instances_by_event: "@ + e@)],
    }
}

/// Errors of the firewall check: a failed inspection, or the structure findings.
pub open spec fn firewall_errors(inspect: Result<(bool, String, Option<u64>), String>, desired: u64) -> Seq<
    (Seq<char>, Seq<char>),
> {
    match inspect {
        Err(e) => seq![("firewall"@, "inspect failed: "@ + e@)],
        Ok((table, raw, observed)) => firewall_findings(table, raw@, observed, desired),
    }
}

/// Errors of the network-matrix check.
pub open spec fn matrix_errors(m: Result<CheckReport, String>) -> Seq<(Seq<char>, Seq<char>)> {
    match m {
        Ok(r) => finding_texts(r.errors@),
        Err(e) => seq![("network_matrix"@, "build_desired_state: "@ + e@)],
    }
}

/// Notes of the network-matrix check.
pub open spec fn matrix_notes(m: Result<CheckReport, String>) -> Seq<(Seq<char>, Seq<char>)> {
    match m {
        Ok(r) => finding_texts(r.notes@),
        Err(_) => Seq::empty(),
    }
}

/// All errors of a run, in check order.
pub open spec fn run_errors(net: EventNetworkRecord, teams: nat, gameboxes: nat, docker_tracked: bool, p: PrecheckProbes) -> Seq<
    (Seq<char>, Seq<char>),
> {
    static_findings(event_network_fault(net), teams, gameboxes, docker_tracked) + lookup_errors(p.instance_lookup)
        + finding_texts(p.containers.errors@) + finding_texts(p.ssh.errors@) + finding_texts(p.wireguard.errors@)
        + firewall_errors(p.firewall, p.desired_revision) + matrix_errors(p.matrix)
}

/// All notes of a run, in check order.
pub open spec fn run_notes(p: PrecheckProbes) -> Seq<(Seq<char>, Seq<char>)> {
    finding_texts(p.containers.notes@) + finding_texts(p.ssh.notes@) + finding_texts(p.wireguard.notes@)
        + matrix_notes(p.matrix)
}

fn append_findings(v: &mut Vec<(String, String)>, src: &Vec<(String, String)>)
    ensures
        finding_texts(final(v)@) == finding_texts(old(v)@) + finding_texts(src@),
{
    let ghost start = finding_texts(v@);
    let mut i: usize = 0;
    while i < src.len()
        invariant
            i <= src@.len(),
            finding_texts(v@) == start + finding_texts(src@.subrange(0, i as int)),
        decreases src@.len() - i,
    {
        let ghost before = v@;
        v.push((owned(src[i].0.as_str()), owned(src[i].1.as_str())));
        assert(finding_texts(v@) =~= finding_texts(before).push((src@[i as int].0@, src@[i as int].1@)));
        assert(finding_texts(src@.subrange(0, i as int + 1)) =~= finding_texts(src@.subrange(0, i as int)).push(
            (src@[i as int].0@, src@[i as int].1@),
        ));
        i = i + 1;
    }
    assert(src@.subrange(0, src@.len() as int) =~= src@);
}

fn push_one(v: &mut Vec<(String, String)>, component: &str, message: String)
    ensures
        finding_texts(final(v)@) == finding_texts(old(v)@) + seq![(component@, message@)],
{
    let ghost before = v@;
    v.push((owned(component), message));
    assert(finding_texts(v@) =~= finding_texts(before) + seq![(component@, message@)]);
}

/// A passing run saw the firewall table with exactly the desired revision:
/// a missing table, a failed inspection or another revision each fail it.
pub proof fn lemma_pass_needs_current_firewall(
    net: EventNetworkRecord,
    teams: nat,
    gameboxes: nat,
    docker_tracked: bool,
    p: PrecheckProbes,
)
    requires
        run_errors(net, teams, gameboxes, docker_tracked, p).len() == 0,
    ensures
        p.firewall matches Ok((table, _, observed)) && table && observed == Some(p.desired_revision),
        teams > 0,
        gameboxes > 0,
        docker_tracked,
        event_network_fault(net) is None,
{
    let f = firewall_errors(p.firewall, p.desired_revision);
    assert(f.len() == 0);
    let s = static_findings(event_network_fault(net), teams, gameboxes, docker_tracked);
    assert(s.len() == 0);
}

/// A precheck run from start to verdict. The event must have a network
/// allocation (checked first) and a status from which a precheck may start;
/// then the stored-data findings and each probe's findings are collected in
/// check order. No error means Passed, the event becomes Verified and the
/// configuration revision is recorded; any error means Failed and
/// VerificationFailed.
pub fn finish_precheck(
    status: AwdEventStatus,
    net: &Option<EventNetworkRecord>,
    team_count: usize,
    gamebox_count: usize,
    docker_tracked: bool,
    probes: &PrecheckProbes,
) -> (r: Result<PrecheckVerdict, AwdError>)
    ensures
        net is None ==> (r matches Err(AwdError::NotFound(m)) && m@ == "event network not allocated；请先在赛事网络页分配"@),
        net is Some && !(is_configurable_spec(status) || status == AwdEventStatus::Prechecking) ==> (r matches Err(
            AwdError::InvalidState(m),
        ) && m@ == "Cannot precheck in "@ + status_name(status) + " status"@),
        (net is Some && (is_configurable_spec(status) || status == AwdEventStatus::Prechecking)) <==> r is Ok,
        r matches Ok(v) ==> net matches Some(n) && {
            &&& finding_texts(v.errors@) == run_errors(*n, team_count as nat, gamebox_count as nat, docker_tracked, *probes)
            &&& finding_texts(v.notes@) == run_notes(*probes)
            &&& v.errors@.len() == 0 ==> (v.status == PrecheckStatus::Passed && v.event_status == AwdEventStatus::Verified
                && (v.verified_revision matches Some(rev) && rev@ == hex_lower(sha256_of(revision_input(*n)))))
            &&& v.errors@.len() != 0 ==> (v.status == PrecheckStatus::Failed && v.event_status
                == AwdEventStatus::VerificationFailed && v.verified_revision is None)
        },
{
    let n = match net {
        Some(n) => n,
        None => return Err(AwdError::NotFound(owned("event network not allocated；请先在赛事网络页分配"))),
    };
    match plan_precheck_entry(status) {
        Ok(_) => {},
        Err(e) => return Err(e),
    }
    let config = validate_event_network(n);
    let mut errors = static_precheck_findings(&config, team_count, gamebox_count, docker_tracked);
    assert(match config {
        Ok(_) => None,
        Err(m) => Some(m@),
    } == event_network_fault(*n));
    match &probes.instance_lookup {
        Ok(_) => {
            assert(finding_texts(errors@) + lookup_errors(probes.instance_lookup) =~= finding_texts(errors@));
        },
        Err(e) => {
            push_one(&mut errors, "gamebox", cat(owned("find_instances_by_event: "), e.as_str()));
        },
    }
    append_findings(&mut errors, &probes.containers.errors);
    append_findings(&mut errors, &probes.ssh.errors);
    append_findings(&mut errors, &probes.wireguard.errors);
    match &probes.firewall {
        Err(e) => {
            push_one(&mut errors, "firewall", cat(owned("inspect failed: "), e.as_str()));
        },
        Ok((table, raw, observed)) => {
            let f = firewall_structure_findings(*table, raw.as_str(), *observed, probes.desired_revision);
            append_findings(&mut errors, &f);
        },
    }
    let mut notes: Vec<(String, String)> = Vec::new();
    assert(finding_texts(notes@) =~= Seq::<(Seq<char>, Seq<char>)>::empty());
    append_findings(&mut notes, &probes.containers.notes);
    append_findings(&mut notes, &probes.ssh.notes);
    append_findings(&mut notes, &probes.wireguard.notes);
    match &probes.matrix {
        Err(e) => {
            push_one(&mut errors, "network_matrix", cat(owned("build_desired_state: "), e.as_str()));
            assert(finding_texts(notes@) + matrix_notes(probes.matrix) =~= finding_texts(notes@));
        },
        Ok(m) => {
            append_findings(&mut errors, &m.errors);
            append_findings(&mut notes, &m.notes);
        },
    }
    assert(finding_texts(errors@) =~= run_errors(*n, team_count as nat, gamebox_count as nat, docker_tracked, *probes));
    assert(finding_texts(notes@) =~= run_notes(*probes));
    assert(errors@.len() == finding_texts(errors@).len());
    let (st, ev) = precheck_outcome(&errors);
    let verified_revision = if errors.len() == 0 {
        Some(compute_revision(n))
    } else {
        None
    };
    Ok(PrecheckVerdict { errors, notes, status: st, event_status: ev, verified_revision })
}

} // verus!

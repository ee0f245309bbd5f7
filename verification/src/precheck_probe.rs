//! Precheck findings computed from what the container runtime reports: the
//! service containers and every game-box instance must be running, and the
//! SSH probe's gate, argument list and verdict per instance.

use vstd::prelude::*;

use crate::precheck::{finding_texts, ssh_probe_enabled};
use crate::text::{cat, contains_text, dec_int, has_substring, i64_decimal, owned};

verus! {

/// Errors (they fail the run) and notes (informational) of one check.
pub struct CheckReport {
    pub errors: Vec<(String, String)>,
    pub notes: Vec<(String, String)>,
}

/// A report as texts: (errors, notes).
pub type ReportText = (Seq<(Seq<char>, Seq<char>)>, Seq<(Seq<char>, Seq<char>)>);

/// The text view of a report.
pub open spec fn report_text(r: CheckReport) -> ReportText {
    (finding_texts(r.errors@), finding_texts(r.notes@))
}

/// A container the runtime lists for the event.
pub struct LiveContainer {
    pub container_name: String,
    pub container_id: String,
    pub running: bool,
    pub status: String,
}

/// What inspecting an instance's container gave.
pub enum Inspect {
    /// Inspected and running, under this container id.
    Running(String),
    /// Inspected but not running, with this status.
    Stopped(String),
    /// Inspection failed with this error.
    Failed(String),
}

/// A game-box instance row with the inspection of its recorded container
/// (`None` when no container id is recorded).
pub struct InstanceProbe {
    pub container_name: String,
    pub probe: Option<(String, Inspect)>,
}

/// The first listed container whose name mentions `kind`.
pub open spec fn first_matching(live: Seq<LiveContainer>, kind: Seq<char>) -> Option<LiveContainer>
    decreases live.len(),
{
    if live.len() == 0 {
        None
    } else if has_substring(live[0].container_name@, kind) {
        Some(live[0])
    } else {
        first_matching(live.drop_first(), kind)
    }
}

/// The last listed container with exactly this name (a name lookup keeps the last one).
pub open spec fn last_named(live: Seq<LiveContainer>, name: Seq<char>) -> Option<LiveContainer>
    decreases live.len(),
{
    if live.len() == 0 {
        None
    } else if live.last().container_name@ == name {
        Some(live.last())
    } else {
        last_named(live.drop_last(), name)
    }
}

/// Adds an error (`true`) or a note (`false`).
pub open spec fn with_finding(r: ReportText, is_error: bool, component: Seq<char>, message: Seq<char>) -> ReportText {
    if is_error { (r.0.push((component, message)), r.1) } else { (r.0, r.1.push((component, message))) }
}

/// The finding about a service container kind.
pub open spec fn kind_finding(r: ReportText, live: Seq<LiveContainer>, kind: Seq<char>) -> ReportText {
    let component = kind + "_container"@;
    match first_matching(live, kind) {
        Some(c) => if c.running {
            with_finding(r, false, component, "running: "@ + c.container_id@)
        } else {
            with_finding(r, true, component, "container "@ + c.container_name@ + " not running (status: "@ + c.status@ + ")"@)
        },
        None => with_finding(r, true, component, "no container matching '"@ + kind + "'"@),
    }
}

/// The finding about one instance.
pub open spec fn instance_finding(r: ReportText, live: Seq<LiveContainer>, inst: InstanceProbe) -> ReportText {
    let name = inst.container_name@;
    match inst.probe {
        None => with_finding(r, true, "gamebox"@, name + ": no current_container_id in DB"@),
        Some((cid, Inspect::Running(id))) => with_finding(r, false, "gamebox:"@ + name, "running: "@ + id@),
        Some((cid, Inspect::Stopped(status))) => with_finding(r, true, "gamebox"@, name + ": container not running (status: "@ + status@ + ")"@),
        Some((cid, Inspect::Failed(e))) => match last_named(live, name) {
            Some(c) => if c.running {
                with_finding(r, false, "gamebox:"@ + name, "running (by name): "@ + c.container_id@)
            } else {
                with_finding(r, true, "gamebox"@, name + ": container not running (status: "@ + c.status@ + ")"@)
            },
            None => with_finding(r, true, "gamebox"@, name + ": inspect_container("@ + cid@ + ") failed: "@ + e@),
        },
    }
}

/// Findings of all instances, in order, after `base`.
pub open spec fn instance_findings(base: ReportText, live: Seq<LiveContainer>, insts: Seq<InstanceProbe>) -> ReportText
    decreases insts.len(),
{
    if insts.len() == 0 {
        base
    } else {
        instance_finding(instance_findings(base, live, insts.drop_last()), live, insts.last())
    }
}

/// The container check: when the runtime cannot list the event's containers
/// that alone is reported; otherwise the FlagServer and JudgeServer
/// containers, a note when there is no instance, then every instance.
pub open spec fn container_report(live: Result<Seq<LiveContainer>, Seq<char>>, insts: Seq<InstanceProbe>) -> ReportText {
    match live {
        Err(e) => (seq![("docker"@, "list_event_containers: "@ + e)], Seq::empty()),
        Ok(l) => {
            let a = kind_finding((Seq::empty(), Seq::empty()), l, "flagserver"@);
            let b = kind_finding(a, l, "judgeserver"@);
            let c = if insts.len() == 0 { with_finding(b, false, "gamebox"@, "no GameBox instances"@) } else { b };
            instance_findings(c, l, insts)
        },
    }
}

fn push_entry(r: &mut CheckReport, is_error: bool, component: String, message: String)
    ensures
        report_text(*final(r)) == with_finding(report_text(*old(r)), is_error, component@, message@),
{
    let ghost before = report_text(*r);
    if is_error {
        r.errors.push((component, message));
        assert(finding_texts(r.errors@) =~= before.0.push((component@, message@)));
    } else {
        r.notes.push((component, message));
        assert(finding_texts(r.notes@) =~= before.1.push((component@, message@)));
    }
}

fn find_kind(live: &[LiveContainer], kind: &str) -> (r: Option<usize>)
    ensures
        match first_matching(live@, kind@) {
            None => r is None,
            Some(c) => r matches Some(i) && i < live@.len() && live@[i as int] == c,
        },
{
    let mut i: usize = 0;
    assert(live@.subrange(0, live@.len() as int) =~= live@);
    while i < live.len()
        invariant
            i <= live@.len(),
            first_matching(live@, kind@) == first_matching(live@.subrange(i as int, live@.len() as int), kind@),
        decreases live@.len() - i,
    {
        assert(live@.subrange(i as int, live@.len() as int).drop_first() =~= live@.subrange(i + 1, live@.len() as int));
        if contains_text(live[i].container_name.as_str(), kind) {
            return Some(i);
        }
        i = i + 1;
    }
    None
}

fn same_text(a: &str, b: &str) -> (r: bool)
    ensures
        r == (a@ == b@),
{
    let x = crate::text::to_chars(a);
    let y = crate::text::to_chars(b);
    if x.len() != y.len() {
        return false;
    }
    let mut i: usize = 0;
    while i < x.len()
        invariant
            x@ == a@,
            y@ == b@,
            x@.len() == y@.len(),
            i <= x@.len(),
            forall|k: int| 0 <= k < i ==> x@[k] == y@[k],
        decreases x@.len() - i,
    {
        if x[i] != y[i] {
            return false;
        }
        i = i + 1;
    }
    assert(x@ =~= y@);
    true
}

pub(crate) fn find_last_named(live: &[LiveContainer], name: &str) -> (r: Option<usize>)
    ensures
        match last_named(live@, name@) {
            None => r is None,
            Some(c) => r matches Some(i) && i < live@.len() && live@[i as int] == c,
        },
{
    let mut i: usize = live.len();
    assert(live@.subrange(0, live@.len() as int) =~= live@);
    while i > 0
        invariant
            i <= live@.len(),
            last_named(live@, name@) == last_named(live@.subrange(0, i as int), name@),
        decreases i,
    {
        assert(live@.subrange(0, i as int).drop_last() =~= live@.subrange(0, i - 1));
        if same_text(live[i - 1].container_name.as_str(), name) {
            return Some(i - 1);
        }
        i = i - 1;
    }
    None
}

fn add_kind(r: &mut CheckReport, live: &[LiveContainer], kind: &str)
    ensures
        report_text(*final(r)) == kind_finding(report_text(*old(r)), live@, kind@),
{
    let component = cat(owned(kind), "_container");
    match find_kind(live, kind) {
        Some(i) => {
            let c = &live[i];
            if c.running {
                push_entry(r, false, component, cat(owned("running: "), c.container_id.as_str()));
            } else {
                let m = cat(cat(owned("container "), c.container_name.as_str()), " not running (status: ");
                push_entry(r, true, component, cat(cat(m, c.status.as_str()), ")"));
            }
        },
        None => {
            let m = cat(cat(owned("no container matching '"), kind), "'");
            push_entry(r, true, component, m);
        },
    }
}

fn add_instance(r: &mut CheckReport, live: &[LiveContainer], inst: &InstanceProbe)
    ensures
        report_text(*final(r)) == instance_finding(report_text(*old(r)), live@, *inst),
{
    let name = inst.container_name.as_str();
    match &inst.probe {
        None => push_entry(r, true, owned("gamebox"), cat(owned(name), ": no current_container_id in DB")),
        Some((cid, Inspect::Running(id))) => {
            push_entry(r, false, cat(owned("gamebox:"), name), cat(owned("running: "), id.as_str()))
        },
        Some((cid, Inspect::Stopped(status))) => {
            let m = cat(cat(owned(name), ": container not running (status: "), status.as_str());
            push_entry(r, true, owned("gamebox"), cat(m, ")"))
        },
        Some((cid, Inspect::Failed(e))) => match find_last_named(live, name) {
            Some(i) => {
                let c = &live[i];
                if c.running {
                    push_entry(r, false, cat(owned("gamebox:"), name), cat(owned("running (by name): "), c.container_id.as_str()))
                } else {
                    let m = cat(cat(owned(name), ": container not running (status: "), c.status.as_str());
                    push_entry(r, true, owned("gamebox"), cat(m, ")"))
                }
            },
            None => {
                let m = cat(cat(owned(name), ": inspect_container("), cid.as_str());
                let m = cat(cat(m, ") failed: "), e.as_str());
                push_entry(r, true, owned("gamebox"), m)
            },
        },
    }
}

/// The container check of a precheck run from the runtime's answers: the
/// event's container list (or why it could not be listed) and each
/// instance's inspection.
pub fn check_containers(live: &Result<Vec<LiveContainer>, String>, instances: &[InstanceProbe]) -> (r: CheckReport)
    ensures
        report_text(r) == container_report(
            match live { Ok(v) => Ok(v@), Err(e) => Err(e@) },
            instances@,
        ),
{
    let mut r = CheckReport { errors: Vec::new(), notes: Vec::new() };
    assert(report_text(r) =~= (Seq::<(Seq<char>, Seq<char>)>::empty(), Seq::<(Seq<char>, Seq<char>)>::empty()));
    let l = match live {
        Err(e) => {
            push_entry(&mut r, true, owned("docker"), cat(owned("list_event_containers: "), e.as_str()));
            assert(report_text(r).0 =~= seq![("docker"@, "list_event_containers: "@ + e@)]);
            return r;
        },
        Ok(l) => l,
    };
    add_kind(&mut r, l.as_slice(), "flagserver");
    add_kind(&mut r, l.as_slice(), "judgeserver");
    if instances.len() == 0 {
        push_entry(&mut r, false, owned("gamebox"), owned("no GameBox instances"));
    }
    let ghost base = report_text(r);
    let mut i: usize = 0;
    while i < instances.len()
        invariant
            i <= instances@.len(),
            report_text(r) == instance_findings(base, l@, instances@.subrange(0, i as int)),
        decreases instances@.len() - i,
    {
        proof {
            assert(instances@.subrange(0, i + 1).drop_last() =~= instances@.subrange(0, i as int));
        }
        add_instance(&mut r, l.as_slice(), &instances[i]);
        i = i + 1;
    }
    assert(instances@.subrange(0, i as int) =~= instances@);
    r
}


/// The SSH probe is skipped, with a note, when it is not enabled, when the
/// runtime lists no container or there is no instance, or when the runtime
/// cannot be reached; `None`: probe every instance.
pub open spec fn ssh_skip(enabled: bool, listing: Result<nat, Seq<char>>, instances: nat) -> Option<Seq<char>> {
    if !enabled {
        Some("SSH 探测未启用（设置 FLOATCTF_PRECHECK_SSH=1 开启；默认 note-only）"@)
    } else {
        match listing {
            Ok(n) => if n == 0 || instances == 0 { Some("无容器，跳过 SSH 探测"@) } else { None },
            Err(e) => Some("Docker 不可达，跳过 SSH 探测："@ + e),
        }
    }
}

/// Whether (and why) the SSH probe is skipped: the switch value, the size of
/// the runtime's container list (or why it failed) and the instance count.
pub fn ssh_probe_skip(env: Option<&str>, listing: &Result<usize, String>, instance_count: usize) -> (r: Option<String>)
    ensures
        match ssh_skip(
            env matches Some(v) && v@ == "1"@,
            match listing { Ok(n) => Ok(*n as nat), Err(e) => Err(e@) },
            instance_count as nat,
        ) {
            None => r is None,
            Some(m) => r matches Some(x) && x@ == m,
        },
{
    if !ssh_probe_enabled(env) {
        return Some(owned("SSH 探测未启用（设置 FLOATCTF_PRECHECK_SSH=1 开启；默认 note-only）"));
    }
    match listing {
        Ok(n) => if *n == 0 || instance_count == 0 {
            Some(owned("无容器，跳过 SSH 探测"))
        } else {
            None
        },
        Err(e) => Some(cat(owned("Docker 不可达，跳过 SSH 探测："), e.as_str())),
    }
}

/// `ssh -o BatchMode=yes -o ConnectTimeout=3 -o StrictHostKeyChecking=no root@{ip} true`:
/// a connectivity probe that never prompts for a password.
pub fn ssh_probe_args(gamebox_ip: &str) -> (v: Vec<String>)
    ensures
        crate::lines::texts(v@) == seq!["-o"@, "BatchMode=yes"@, "-o"@, "ConnectTimeout=3"@, "-o"@,
            "StrictHostKeyChecking=no"@, "root@"@ + gamebox_ip@, "true"@],
{
    let mut v: Vec<String> = Vec::new();
    v.push(owned("-o"));
    v.push(owned("BatchMode=yes"));
    v.push(owned("-o"));
    v.push(owned("ConnectTimeout=3"));
    v.push(owned("-o"));
    v.push(owned("StrictHostKeyChecking=no"));
    v.push(cat(owned("root@"), gamebox_ip));
    v.push(owned("true"));
    assert(crate::lines::texts(v@) =~= seq!["-o"@, "BatchMode=yes"@, "-o"@, "ConnectTimeout=3"@, "-o"@,
        "StrictHostKeyChecking=no"@, "root@"@ + gamebox_ip@, "true"@]);
    v
}

/// How probing one instance went.
pub enum SshStep {
    /// The team has no network row.
    NoNetwork,
    /// Loading the team network failed.
    NetworkLookupFailed(String),
    /// The stored SSH password could not be decrypted.
    DecryptFailed(String),
    /// `ssh` could not be run.
    RunFailed(String),
    /// `ssh` ran and exited with this code and error output.
    Exited(i32, String),
}

/// The finding of one instance's probe: reachable is a note, anything else an error.
pub open spec fn ssh_finding_text(name: Seq<char>, team: Seq<char>, ip: Seq<char>, step: SshStep) -> (bool, Seq<char>, Seq<char>) {
    match step {
        SshStep::NoNetwork => (true, "ssh"@, name + ": no awd_team_networks row for team "@ + team),
        SshStep::NetworkLookupFailed(e) => (true, "ssh"@, "load team network: "@ + e@),
        SshStep::DecryptFailed(e) => (true, "ssh"@, name + ": ssh_password 解密失败: "@ + e@),
        SshStep::RunFailed(e) => (true, "ssh"@, name + " ("@ + ip + "): 无法执行 ssh: "@ + e@),
        SshStep::Exited(code, err) => if code == 0 {
            (false, "ssh:"@ + name, ip + ": ssh 可达"@)
        } else {
            (true, "ssh"@, name + " ("@ + ip + "): ssh 探测失败 (exit "@ + dec_int(code as int) + "): "@ + crate::lines::trim_spec(err@))
        },
    }
}

/// The finding of one instance's SSH probe: (is an error, component, message).
pub fn ssh_finding(container_name: &str, team_id: &str, gamebox_ip: &str, step: &SshStep) -> (r: (bool, String, String))
    ensures
        (r.0, r.1@, r.2@) == ssh_finding_text(container_name@, team_id@, gamebox_ip@, *step),
{
    match step {
        SshStep::NoNetwork => (true, owned("ssh"), cat(cat(owned(container_name), ": no awd_team_networks row for team "), team_id)),
        SshStep::NetworkLookupFailed(e) => (true, owned("ssh"), cat(owned("load team network: "), e.as_str())),
        SshStep::DecryptFailed(e) => (true, owned("ssh"), cat(cat(owned(container_name), ": ssh_password 解密失败: "), e.as_str())),
        SshStep::RunFailed(e) => {
            let m = cat(cat(cat(owned(container_name), " ("), gamebox_ip), "): 无法执行 ssh: ");
            (true, owned("ssh"), cat(m, e.as_str()))
        },
        SshStep::Exited(code, err) => {
            if *code == 0 {
                (false, cat(owned("ssh:"), container_name), cat(owned(gamebox_ip), ": ssh 可达"))
            } else {
                let c = i64_decimal(*code as i64);
                let t = crate::lines::trim(err.as_str());
                let m = cat(cat(cat(owned(container_name), " ("), gamebox_ip), "): ssh 探测失败 (exit ");
                let m = cat(cat(cat(m, c.as_str()), "): "), t.as_str());
                (true, owned("ssh"), m)
            }
        },
    }
}

/// The WireGuard check: an inspection failure stops it; otherwise the
/// runtime's notes, then the active peer count (a failed count stops it),
/// then an error when the interface is down.
pub open spec fn wireguard_report(inspect: Result<(bool, Seq<Seq<char>>), Seq<char>>, peers: Result<nat, Seq<char>>) -> ReportText {
    match inspect {
        Err(e) => (seq![("wireguard"@, "inspect failed: "@ + e)], Seq::empty()),
        Ok((up, notes)) => {
            let n = notes.map_values(|t: Seq<char>| ("wireguard"@, t));
            match peers {
                Err(e) => (seq![("wireguard"@, "find_active_peers_by_event: "@ + e)], n),
                Ok(p) => {
                    let n2 = n.push(("wireguard"@, "active_peers="@ + crate::text::dec(p)));
                    if !up {
                        (seq![("wireguard"@, "WireGuard 接口未 up（host inspect 未观测到接口 / 网络不可用）"@)], n2)
                    } else {
                        (Seq::empty(), n2)
                    }
                },
            }
        },
    }
}

/// The WireGuard check of a precheck run from the runtime's inspection
/// (interface up, its notes) and the number of active peers.
pub fn check_wireguard(inspect: &Result<(bool, Vec<String>), String>, peers: &Result<usize, String>) -> (r: CheckReport)
    ensures
        report_text(r) == wireguard_report(
            match inspect { Ok((up, notes)) => Ok((*up, crate::lines::texts(notes@))), Err(e) => Err(e@) },
            match peers { Ok(p) => Ok(*p as nat), Err(e) => Err(e@) },
        ),
{
    let mut r = CheckReport { errors: Vec::new(), notes: Vec::new() };
    assert(report_text(r) =~= (Seq::<(Seq<char>, Seq<char>)>::empty(), Seq::<(Seq<char>, Seq<char>)>::empty()));
    let (up, notes) = match inspect {
        Err(e) => {
            push_entry(&mut r, true, owned("wireguard"), cat(owned("inspect failed: "), e.as_str()));
            assert(report_text(r).0 =~= seq![("wireguard"@, "inspect failed: "@ + e@)]);
            return r;
        },
        Ok((up, notes)) => (*up, notes),
    };
    let mut i: usize = 0;
    while i < notes.len()
        invariant
            i <= notes@.len(),
            report_text(r).0 == Seq::<(Seq<char>, Seq<char>)>::empty(),
            report_text(r).1 == crate::lines::texts(notes@).subrange(0, i as int).map_values(|t: Seq<char>| ("wireguard"@, t)),
        decreases notes@.len() - i,
    {
        push_entry(&mut r, false, owned("wireguard"), owned(notes[i].as_str()));
        i = i + 1;
        assert(report_text(r).1 =~= crate::lines::texts(notes@).subrange(0, i as int).map_values(|t: Seq<char>| ("wireguard"@, t)));
    }
    assert(crate::lines::texts(notes@).subrange(0, i as int) =~= crate::lines::texts(notes@));
    let p = match peers {
        Err(e) => {
            push_entry(&mut r, true, owned("wireguard"), cat(owned("find_active_peers_by_event: "), e.as_str()));
            assert(report_text(r).0 =~= seq![("wireguard"@, "find_active_peers_by_event: "@ + e@)]);
            return r;
        },
        Ok(p) => *p,
    };
    let pt = crate::text::u64_decimal(p as u64);
    push_entry(&mut r, false, owned("wireguard"), cat(owned("active_peers="), pt.as_str()));
    if !up {
        push_entry(&mut r, true, owned("wireguard"), owned("WireGuard 接口未 up（host inspect 未观测到接口 / 网络不可用）"));
        assert(report_text(r).0 =~= seq![("wireguard"@, "WireGuard 接口未 up（host inspect 未观测到接口 / 网络不可用）"@)]);
    }
    r
}

/// Texts joined with `; `.
pub open spec fn join_semicolon(v: Seq<Seq<char>>) -> Seq<char>
    decreases v.len(),
{
    if v.len() == 0 {
        Seq::empty()
    } else if v.len() == 1 {
        v[0]
    } else {
        join_semicolon(v.drop_last()) + "; "@ + v.last()
    }
}

/// The network matrix check from the firewall runtime's verification: the
/// revision verified, not verified (with its notes), or the verification failed.
pub fn check_network_matrix(verify: &Result<(bool, Vec<String>), String>, revision: u64) -> (r: CheckReport)
    ensures
        report_text(r) == match verify {
            Ok((true, _)) => (Seq::empty(), seq![("network_matrix"@, "desired-state verify 通过（revision "@ + crate::text::dec(revision as nat) + "）"@)]),
            Ok((false, notes)) => (seq![("network_matrix"@, "verify 失败: "@ + join_semicolon(crate::lines::texts(notes@)))], Seq::empty()),
            Err(e) => (seq![("network_matrix"@, "verify error: "@ + e@)], Seq::<(Seq<char>, Seq<char>)>::empty()),
        },
{
    let mut r = CheckReport { errors: Vec::new(), notes: Vec::new() };
    assert(report_text(r) =~= (Seq::<(Seq<char>, Seq<char>)>::empty(), Seq::<(Seq<char>, Seq<char>)>::empty()));
    match verify {
        Ok((true, _)) => {
            let rev = crate::text::u64_decimal(revision);
            let m = cat(cat(owned("desired-state verify 通过（revision "), rev.as_str()), "）");
            push_entry(&mut r, false, owned("network_matrix"), m);
            assert(report_text(r).1 =~= seq![("network_matrix"@, "desired-state verify 通过（revision "@ + crate::text::dec(revision as nat) + "）"@)]);
        },
        Ok((false, notes)) => {
            let mut joined = String::new();
            let mut i: usize = 0;
            while i < notes.len()
                invariant
                    i <= notes@.len(),
                    joined@ == join_semicolon(crate::lines::texts(notes@).subrange(0, i as int)),
                decreases notes@.len() - i,
            {
                let ghost prev = crate::lines::texts(notes@).subrange(0, i as int);
                assert(crate::lines::texts(notes@).subrange(0, i + 1).drop_last() =~= prev);
                if i == 0 {
                    joined = owned(notes[i].as_str());
                    assert(crate::lines::texts(notes@).subrange(0, 1) =~= seq![notes@[0]@]);
                } else {
                    joined = cat(cat(joined, "; "), notes[i].as_str());
                }
                i = i + 1;
            }
            assert(crate::lines::texts(notes@).subrange(0, i as int) =~= crate::lines::texts(notes@));
            push_entry(&mut r, true, owned("network_matrix"), cat(owned("verify 失败: "), joined.as_str()));
            assert(report_text(r).0 =~= seq![("network_matrix"@, "verify 失败: "@ + join_semicolon(crate::lines::texts(notes@)))]);
        },
        Err(e) => {
            push_entry(&mut r, true, owned("network_matrix"), cat(owned("verify error: "), e.as_str()));
            assert(report_text(r).0 =~= seq![("network_matrix"@, "verify error: "@ + e@)]);
        },
    }
    r
}

} // verus!

//! Pre-flight verification of a deployed AWD event: the structural check of
//! its network addressing, the configuration revision stored on success,
//! the entry into Prechecking, the errors found in what the runtime shows,
//! and the outcome of a run.

use vstd::prelude::*;
use vstd::string::*;

use crate::awd_event::{is_configurable_spec, status_name, status_name_of, AwdEventStatus};
use crate::cidr::{cidr_parse_spec, ipv4_text, ipv4_to_string, Ipv4Cidr};
use crate::digest::{sha256, sha256_of};
use crate::error::AwdError;
use crate::text::{append_bytes, cat, contains_text, dec, has_substring, hex_encode, hex_lower, owned, u64_decimal};

verus! {

/// Status of a precheck run.
#[derive(Debug, Clone, Copy, PartialEq, Eq, Structural)]
pub enum PrecheckStatus {
    Running,
    Passed,
    Failed,
}

/// A run passes exactly when no check found an error.
pub fn evaluate_precheck(errors: &[(String, String)]) -> (passed: bool)
    ensures
        passed == (errors@.len() == 0),
{
    errors.len() == 0
}

/// The observed firewall revision matches only when it is known and equal.
pub fn revision_matches(observed: Option<u64>, expected: u64) -> (b: bool)
    ensures
        b == (observed == Some(expected)),
{
    match observed {
        Some(o) => o == expected,
        None => false,
    }
}

/// The SSH probe runs only when its switch is set to exactly `1`.
pub fn ssh_probe_enabled(env: Option<&str>) -> (b: bool)
    ensures
        b == (env matches Some(v) && v@ == "1"@),
{
    proof {
        reveal_strlit("1");
    }
    match env {
        None => false,
        Some(v) => {
            let cs = crate::text::to_chars(v);
            let r = cs.len() == 1 && cs[0] == '1';
            proof {
                if r {
                    assert(v@ =~= "1"@);
                }
            }
            r
        },
    }
}

/// An `inet` column value: an address with its prefix length.
#[derive(Debug, Clone, Copy, PartialEq, Eq, Structural)]
pub struct InetAddr {
    pub ip: u32,
    pub prefix: u8,
}

/// Text of an `inet` value: `address/prefix`.
pub open spec fn inet_text(a: InetAddr) -> Seq<char> {
    ipv4_text(a.ip) + seq!['/'] + dec(a.prefix as nat)
}

fn inet_to_string(a: &InetAddr) -> (s: String)
    ensures
        s@ == inet_text(*a),
{
    let mut s = ipv4_to_string(a.ip);
    crate::text::push_char(&mut s, '/');
    let p = u64_decimal(a.prefix as u64);
    cat(s, p.as_str())
}

/// The stored addressing of one event's network.
pub struct EventNetworkRecord {
    pub gamebox_cidr: String,
    pub wireguard_cidr: String,
    pub infrastructure_subnet: String,
    pub flagserver_ip: InetAddr,
    pub judgeserver_ip: InetAddr,
    pub wireguard_interface_name: String,
}

/// Faults found once both CIDRs parsed: overlap, a too narrow game-box
/// CIDR, then the infrastructure subnet and what must lie inside it.
pub open spec fn placement_fault(net: EventNetworkRecord, g: Ipv4Cidr, w: Ipv4Cidr) -> Option<Seq<char>> {
    let gb = net.gamebox_cidr@;
    let infra = net.infrastructure_subnet@;
    let name_len = vstd::utf8::encode_utf8(net.wireguard_interface_name@).len();
    if g.meets(w) {
        Some("gamebox_cidr and wireguard_cidr overlap"@)
    } else if g.prefix_len > 16 {
        Some("gamebox_cidr must be /16 or smaller, got /"@ + dec(g.prefix_len as nat))
    } else {
        match cidr_parse_spec(infra) {
            None => Some("Invalid infrastructure_subnet: "@ + ("invalid CIDR: "@ + infra)),
            Some(i) => {
                if !g.has(i.network as int) {
                    Some("infrastructure_subnet "@ + infra + " 不在 gamebox_cidr "@ + gb + " 内"@)
                } else if !i.has(net.flagserver_ip.ip as int) {
                    Some("flagserver_ip "@ + inet_text(net.flagserver_ip) + " 不在 infrastructure_subnet "@ + infra + " 内"@)
                } else if !i.has(net.judgeserver_ip.ip as int) {
                    Some("judgeserver_ip "@ + inet_text(net.judgeserver_ip) + " 不在 infrastructure_subnet "@ + infra + " 内"@)
                } else if net.flagserver_ip == net.judgeserver_ip {
                    Some("flagserver_ip and judgeserver_ip must be different"@)
                } else if name_len > 15 {
                    Some("wireguard_interface_name too long: "@ + dec(name_len) + " (max 15)"@)
                } else {
                    None
                }
            },
        }
    }
}

/// The first structural fault of an event network, as its message; `None`
/// when it is sound: both CIDRs parse and are disjoint, the game-box CIDR is
/// /16 or wider, the infrastructure subnet parses and starts inside the
/// game-box CIDR, both service addresses lie in the infrastructure subnet and
/// differ, and the WireGuard interface name has at most 15 bytes.
pub open spec fn event_network_fault(net: EventNetworkRecord) -> Option<Seq<char>> {
    let gb = net.gamebox_cidr@;
    let wg = net.wireguard_cidr@;
    match cidr_parse_spec(gb) {
        None => Some("Invalid gamebox_cidr: "@ + ("invalid CIDR: "@ + gb)),
        Some(g) => match cidr_parse_spec(wg) {
            None => Some("Invalid wireguard_cidr: "@ + ("invalid CIDR: "@ + wg)),
            Some(w) => placement_fault(net, g, w),
        },
    }
}

/// A network is structurally sound exactly when both blocks parse and are disjoint, the
/// game-box block is /16 or wider, the infrastructure subnet parses and starts
/// inside the game-box block, the FlagServer and the JudgeServer both lie in
/// the infrastructure subnet and differ, and the interface name fits 15 bytes.
pub proof fn lemma_sound_network_placement(net: EventNetworkRecord)
    ensures
        event_network_fault(net) is None <==> {
            &&& cidr_parse_spec(net.gamebox_cidr@) matches Some(g) && (cidr_parse_spec(net.wireguard_cidr@) matches Some(w)
                && !g.meets(w) && g.prefix_len <= 16 && (cidr_parse_spec(net.infrastructure_subnet@) matches Some(i)
                && g.has(i.network as int) && i.has(net.flagserver_ip.ip as int) && i.has(net.judgeserver_ip.ip as int)))
            &&& net.flagserver_ip != net.judgeserver_ip
            &&& vstd::utf8::encode_utf8(net.wireguard_interface_name@).len() <= 15
        },
{
}

/// Structural check of an event network; the error is the first fault found.
pub fn validate_event_network(net: &EventNetworkRecord) -> (r: Result<(), String>)
    ensures
        match event_network_fault(*net) {
            None => r is Ok,
            Some(m) => r matches Err(e) && e@ == m,
        },
        r is Ok ==> (cidr_parse_spec(net.infrastructure_subnet@) matches Some(i) && i.has(net.flagserver_ip.ip as int)
            && i.has(net.judgeserver_ip.ip as int)),
        r is Ok ==> net.flagserver_ip != net.judgeserver_ip,
{
    proof {
        lemma_sound_network_placement(*net);
    }
    let gb = match Ipv4Cidr::parse(net.gamebox_cidr.as_str()) {
        Ok(c) => c,
        Err(e) => return Err(cat(owned("Invalid gamebox_cidr: "), e.as_str())),
    };
    let wg = match Ipv4Cidr::parse(net.wireguard_cidr.as_str()) {
        Ok(c) => c,
        Err(e) => return Err(cat(owned("Invalid wireguard_cidr: "), e.as_str())),
    };
    if gb.overlaps(&wg) {
        return Err(owned("gamebox_cidr and wireguard_cidr overlap"));
    }
    if gb.prefix_len > 16 {
        let p = u64_decimal(gb.prefix_len as u64);
        return Err(cat(owned("gamebox_cidr must be /16 or smaller, got /"), p.as_str()));
    }
    let infra = match Ipv4Cidr::parse(net.infrastructure_subnet.as_str()) {
        Ok(c) => c,
        Err(e) => return Err(cat(owned("Invalid infrastructure_subnet: "), e.as_str())),
    };
    if !gb.contains(infra.network) {
        let m = cat(owned("infrastructure_subnet "), net.infrastructure_subnet.as_str());
        let m = cat(m, " 不在 gamebox_cidr ");
        let m = cat(m, net.gamebox_cidr.as_str());
        return Err(cat(m, " 内"));
    }
    if !infra.contains(net.flagserver_ip.ip) {
        let t = inet_to_string(&net.flagserver_ip);
        let m = cat(owned("flagserver_ip "), t.as_str());
        let m = cat(m, " 不在 infrastructure_subnet ");
        let m = cat(m, net.infrastructure_subnet.as_str());
        return Err(cat(m, " 内"));
    }
    if !infra.contains(net.judgeserver_ip.ip) {
        let t = inet_to_string(&net.judgeserver_ip);
        let m = cat(owned("judgeserver_ip "), t.as_str());
        let m = cat(m, " 不在 infrastructure_subnet ");
        let m = cat(m, net.infrastructure_subnet.as_str());
        return Err(cat(m, " 内"));
    }
    if net.flagserver_ip == net.judgeserver_ip {
        return Err(owned("flagserver_ip and judgeserver_ip must be different"));
    }
    let name_len = net.wireguard_interface_name.as_str().as_bytes().len();
    if name_len > 15 {
        let n = u64_decimal(name_len as u64);
        let m = cat(owned("wireguard_interface_name too long: "), n.as_str());
        return Err(cat(m, " (max 15)"));
    }
    Ok(())
}

/// The bytes hashed into a configuration revision: the game-box CIDR, the
/// WireGuard CIDR, the interface name, the infrastructure subnet and the two
/// service addresses, as text, one after another.
pub open spec fn revision_input(net: EventNetworkRecord) -> Seq<u8> {
    vstd::utf8::encode_utf8(net.gamebox_cidr@) + vstd::utf8::encode_utf8(net.wireguard_cidr@)
        + vstd::utf8::encode_utf8(net.wireguard_interface_name@)
        + vstd::utf8::encode_utf8(net.infrastructure_subnet@)
        + vstd::utf8::encode_utf8(ipv4_text(net.flagserver_ip.ip))
        + vstd::utf8::encode_utf8(ipv4_text(net.judgeserver_ip.ip))
}

/// Configuration revision recorded when a precheck passes: lowercase hex of
/// the SHA-256 of [`revision_input`].
pub fn compute_revision(net: &EventNetworkRecord) -> (r: String)
    ensures
        r@ == hex_lower(sha256_of(revision_input(*net))),
{
    let mut data: Vec<u8> = Vec::new();
    append_bytes(&mut data, net.gamebox_cidr.as_str());
    append_bytes(&mut data, net.wireguard_cidr.as_str());
    append_bytes(&mut data, net.wireguard_interface_name.as_str());
    append_bytes(&mut data, net.infrastructure_subnet.as_str());
    let fs = ipv4_to_string(net.flagserver_ip.ip);
    append_bytes(&mut data, fs.as_str());
    let js = ipv4_to_string(net.judgeserver_ip.ip);
    append_bytes(&mut data, js.as_str());
    let digest = sha256(data.as_slice());
    hex_encode(digest.as_slice())
}

/// The status transitions that bring an event into Prechecking: none when it
/// is already there, Verified goes back through Configuring, any other
/// admitted status moves directly.
pub open spec fn precheck_entry(status: AwdEventStatus) -> Seq<(AwdEventStatus, AwdEventStatus)> {
    match status {
        AwdEventStatus::Prechecking => Seq::empty(),
        AwdEventStatus::Verified => seq![
            (AwdEventStatus::Verified, AwdEventStatus::Configuring),
            (AwdEventStatus::Configuring, AwdEventStatus::Prechecking),
        ],
        other => seq![(other, AwdEventStatus::Prechecking)],
    }
}

/// Gate into a precheck: allowed from a configurable status or when already
/// Prechecking; on success, the transitions to perform in order.
pub fn plan_precheck_entry(status: AwdEventStatus) -> (r: Result<Vec<(AwdEventStatus, AwdEventStatus)>, AwdError>)
    ensures
        (is_configurable_spec(status) || status == AwdEventStatus::Prechecking) <==> r is Ok,
        r matches Ok(steps) ==> steps@ == precheck_entry(status),
        r is Err ==> (r matches Err(AwdError::InvalidState(m)) && m@ == "Cannot precheck in "@ + status_name(status) + " status"@),
{
    if !status.is_configurable() && status != AwdEventStatus::Prechecking {
        let m = cat(cat(owned("Cannot precheck in "), status_name_of(status)), " status");
        return Err(AwdError::InvalidState(m));
    }
    let mut steps: Vec<(AwdEventStatus, AwdEventStatus)> = Vec::new();
    match status {
        AwdEventStatus::Prechecking => {},
        AwdEventStatus::Verified => {
            steps.push((AwdEventStatus::Verified, AwdEventStatus::Configuring));
            steps.push((AwdEventStatus::Configuring, AwdEventStatus::Prechecking));
        },
        other => {
            steps.push((other, AwdEventStatus::Prechecking));
        },
    }
    assert(steps@ =~= precheck_entry(status));
    Ok(steps)
}

/// Verdict of a finished run and the event status it leads to (from
/// Prechecking): Passed → Verified, Failed → VerificationFailed.
pub fn precheck_outcome(errors: &[(String, String)]) -> (r: (PrecheckStatus, AwdEventStatus))
    ensures
        errors@.len() == 0 ==> r == (PrecheckStatus::Passed, AwdEventStatus::Verified),
        errors@.len() != 0 ==> r == (PrecheckStatus::Failed, AwdEventStatus::VerificationFailed),
{
    if evaluate_precheck(errors) {
        (PrecheckStatus::Passed, AwdEventStatus::Verified)
    } else {
        (PrecheckStatus::Failed, AwdEventStatus::VerificationFailed)
    }
}

/// A (component, message) pair of spec text.
pub open spec fn finding(component: Seq<char>, message: Seq<char>) -> (Seq<char>, Seq<char>) {
    (component, message)
}

/// The texts of a list of findings.
pub open spec fn finding_texts(v: Seq<(String, String)>) -> Seq<(Seq<char>, Seq<char>)> {
    v.map_values(|f: (String, String)| (f.0@, f.1@))
}

/// Findings of the checks that need only stored data, in order: the network
/// structure, registered teams, configured game boxes, the tracked Docker network.
pub open spec fn static_findings(config: Option<Seq<char>>, teams: nat, gameboxes: nat, docker_tracked: bool) -> Seq<(Seq<char>, Seq<char>)> {
    let a: Seq<(Seq<char>, Seq<char>)> = match config {
        Some(m) => seq![finding("config"@, m)],
        None => Seq::empty(),
    };
    let b = if teams == 0 { a.push(finding("teams"@, "No teams registered for this event"@)) } else { a };
    let c = if gameboxes == 0 { b.push(finding("gameboxes"@, "No EventGameBox configured"@)) } else { b };
    if !docker_tracked { c.push(finding("docker"@, "Docker network not yet created"@)) } else { c }
}

fn push_finding(v: &mut Vec<(String, String)>, component: &str, message: String)
    ensures
        finding_texts(final(v)@) == finding_texts(old(v)@).push((component@, message@)),
{
    v.push((owned(component), message));
    assert(finding_texts(v@) =~= finding_texts(old(v)@).push((component@, message@)));
}

/// Errors of the stored-data checks of a precheck run.
pub fn static_precheck_findings(
    config: &Result<(), String>,
    team_count: usize,
    gamebox_count: usize,
    docker_tracked: bool,
) -> (v: Vec<(String, String)>)
    ensures
        finding_texts(v@) == static_findings(
            match config { Ok(_) => None, Err(m) => Some(m@) },
            team_count as nat,
            gamebox_count as nat,
            docker_tracked,
        ),
{
    let mut v: Vec<(String, String)> = Vec::new();
    assert(finding_texts(v@) =~= Seq::empty());
    match config {
        Ok(_) => {},
        Err(m) => push_finding(&mut v, "config", m.clone()),
    }
    if team_count == 0 {
        push_finding(&mut v, "teams", owned("No teams registered for this event"));
    }
    if gamebox_count == 0 {
        push_finding(&mut v, "gameboxes", owned("No EventGameBox configured"));
    }
    if !docker_tracked {
        push_finding(&mut v, "docker", owned("Docker network not yet created"));
    }
    v
}

/// `Option<u64>` as `{:?}` prints it.
pub open spec fn opt_u64_debug(o: Option<u64>) -> Seq<char> {
    match o {
        Some(v) => "Some("@ + dec(v as nat) + ")"@,
        None => "None"@,
    }
}

/// Errors of the firewall structure check against the observed table: a
/// missing table stops there; otherwise the base chain, the forward hook and
/// the revision are checked in turn.
pub open spec fn firewall_findings(table_exists: bool, raw: Seq<char>, observed: Option<u64>, desired: u64) -> Seq<(Seq<char>, Seq<char>)> {
    if !table_exists {
        seq![finding("firewall"@, "table inet floatctf_awd 不存在（Noop runtime 或从未 reconcile）"@)]
    } else {
        let a: Seq<(Seq<char>, Seq<char>)> = if !has_substring(raw, "chain awd_forward"@) {
            seq![finding("firewall"@, "base chain 'awd_forward' 缺失"@)]
        } else {
            Seq::empty()
        };
        let b = if !has_substring(raw, "hook forward"@) { a.push(finding("firewall"@, "forward hook 声明缺失"@)) } else { a };
        if observed != Some(desired) {
            b.push(finding("firewall"@, "revision 不匹配: observed="@ + opt_u64_debug(observed) + " desired="@ + dec(desired as nat)))
        } else {
            b
        }
    }
}

fn opt_u64_to_string(o: Option<u64>) -> (s: String)
    ensures
        s@ == opt_u64_debug(o),
{
    match o {
        Some(v) => {
            let d = u64_decimal(v);
            cat(cat(owned("Some("), d.as_str()), ")")
        },
        None => owned("None"),
    }
}

/// Errors of the firewall structure check; the Noop runtime (no table) never passes.
pub fn firewall_structure_findings(table_exists: bool, raw_output: &str, observed: Option<u64>, desired: u64) -> (v: Vec<(String, String)>)
    ensures
        finding_texts(v@) == firewall_findings(table_exists, raw_output@, observed, desired),
{
    let mut v: Vec<(String, String)> = Vec::new();
    assert(finding_texts(v@) =~= Seq::empty());
    if !table_exists {
        push_finding(&mut v, "firewall", owned("table inet floatctf_awd 不存在（Noop runtime 或从未 reconcile）"));
        return v;
    }
    if !contains_text(raw_output, "chain awd_forward") {
        push_finding(&mut v, "firewall", owned("base chain 'awd_forward' 缺失"));
    }
    if !contains_text(raw_output, "hook forward") {
        push_finding(&mut v, "firewall", owned("forward hook 声明缺失"));
    }
    if !revision_matches(observed, desired) {
        let o = opt_u64_to_string(observed);
        let d = u64_decimal(desired);
        let m = cat(cat(cat(owned("revision 不匹配: observed="), o.as_str()), " desired="), d.as_str());
        push_finding(&mut v, "firewall", m);
    }
    v
}

/// A precheck needs the event's network allocation (checked before the status).
pub fn require_event_network<T>(net: Option<T>) -> (r: Result<T, AwdError>)
    ensures
        match net {
            Some(n) => r == Ok::<T, AwdError>(n),
            None => r matches Err(AwdError::NotFound(m)) && m@ == "event network not allocated；请先在赛事网络页分配"@,
        },
{
    match net {
        Some(n) => Ok(n),
        None => Err(AwdError::NotFound(owned("event network not allocated；请先在赛事网络页分配"))),
    }
}

} // verus!

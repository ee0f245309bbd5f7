//! Event-level address planning for AWD events: cross-event overlap checks,
//! platform pools of event blocks, WireGuard listen ports and the structural
//! check of an event network.

use vstd::prelude::*;

use vstd::arithmetic::power2::{lemma_pow2_adds, lemma_pow2_pos, pow2};

use crate::cidr::{Ipv4Cidr, cidr_parse_spec, ipv4_parse_spec, parse_ipv4, block_len};
use crate::error::{awd_error_message, AwdError};
use crate::text::{cat, dec, owned, to_uppercase, u64_decimal, uppercase_of, uuid_string};

verus! {

/// Addressing of another AWD event (its two event-wide blocks).
pub struct EventCidrs {
    pub event_id: u128,
    pub gamebox_cidr: String,
    pub wireguard_cidr: String,
}

/// Per-team blocks already handed out by another AWD event.
pub struct TeamNetwork {
    pub event_id: u128,
    pub gamebox_subnet: String,
    pub wireguard_subnet: String,
}

/// Outcome class of a validation.
pub enum Verdict {
    Pass,
    Invalid,
    Conflict,
}

/// The event's own blocks or service addresses collide with another event's blocks.
pub open spec fn event_clash(gb: Ipv4Cidr, wg: Ipv4Cidr, fs: u32, js: u32, ogb: Ipv4Cidr, owg: Ipv4Cidr) -> bool {
    gb.meets(ogb) || gb.meets(owg) || wg.meets(ogb) || wg.meets(owg) || ogb.has(fs as int) || owg.has(fs as int)
        || ogb.has(js as int) || owg.has(js as int)
}

/// A service address lies in another event's team block.
pub open spec fn team_clash(fs: u32, js: u32, ngb: Ipv4Cidr, nwg: Ipv4Cidr) -> bool {
    ngb.has(fs as int) || nwg.has(fs as int) || ngb.has(js as int) || nwg.has(js as int)
}

/// First problem met walking the other events in order.
pub open spec fn events_verdict(events: Seq<EventCidrs>, gb: Ipv4Cidr, wg: Ipv4Cidr, fs: u32, js: u32) -> Verdict
    decreases events.len(),
{
    if events.len() == 0 {
        Verdict::Pass
    } else {
        let e = events[0];
        match (cidr_parse_spec(e.gamebox_cidr@), cidr_parse_spec(e.wireguard_cidr@)) {
            (Some(ogb), Some(owg)) => if event_clash(gb, wg, fs, js, ogb, owg) {
                Verdict::Conflict
            } else {
                events_verdict(events.drop_first(), gb, wg, fs, js)
            },
            _ => Verdict::Invalid,
        }
    }
}

/// First problem met walking the other events' team blocks in order.
pub open spec fn teams_verdict(nets: Seq<TeamNetwork>, fs: u32, js: u32) -> Verdict
    decreases nets.len(),
{
    if nets.len() == 0 {
        Verdict::Pass
    } else {
        let n = nets[0];
        match (cidr_parse_spec(n.gamebox_subnet@), cidr_parse_spec(n.wireguard_subnet@)) {
            (Some(ngb), Some(nwg)) => if team_clash(fs, js, ngb, nwg) {
                Verdict::Conflict
            } else {
                teams_verdict(nets.drop_first(), fs, js)
            },
            _ => Verdict::Invalid,
        }
    }
}

/// Verdict of the cross-event check: own values must parse; then other events,
/// then other events' team blocks, each in order, first problem wins.
pub open spec fn cross_event_verdict(
    events: Seq<EventCidrs>,
    nets: Seq<TeamNetwork>,
    gamebox_cidr: Seq<char>,
    wireguard_cidr: Seq<char>,
    flagserver_ip: Seq<char>,
    judgeserver_ip: Seq<char>,
) -> Verdict {
    match (
        cidr_parse_spec(gamebox_cidr),
        cidr_parse_spec(wireguard_cidr),
        ipv4_parse_spec(flagserver_ip),
        ipv4_parse_spec(judgeserver_ip),
    ) {
        (Some(gb), Some(wg), Some(fs), Some(js)) => match events_verdict(events, gb, wg, fs, js) {
            Verdict::Pass => teams_verdict(nets, fs, js),
            v => v,
        },
        _ => Verdict::Invalid,
    }
}

/// Message of an address that does not parse as a block.
pub open spec fn bad_cidr_text(name: Seq<char>, cidr: Seq<char>) -> Seq<char> {
    name + " ("@ + cidr + ") invalid: "@ + "invalid CIDR: "@ + cidr
}

/// Message of an address that does not parse as an IPv4 address.
pub open spec fn bad_ip_text(name: Seq<char>, ip: Seq<char>) -> Seq<char> {
    name + " ("@ + ip + ") invalid: invalid IPv4 address syntax"@
}

/// Message of a clash of `what` (with value `value`) with another event's blocks.
pub open spec fn other_event_message(what: Seq<char>, value: Seq<char>, verb: Seq<char>, other: EventCidrs) -> Seq<char> {
    what + " "@ + value + verb + crate::text::uuid_text(other.event_id) + " (gamebox "@ + other.gamebox_cidr@
        + " / wireguard "@ + other.wireguard_cidr@ + ")"@
}

/// Message of the first problem met walking the other events (empty when none).
pub open spec fn events_message(
    events: Seq<EventCidrs>,
    gb: Ipv4Cidr,
    wg: Ipv4Cidr,
    fs: u32,
    js: u32,
    texts: (Seq<char>, Seq<char>, Seq<char>, Seq<char>),
) -> Seq<char>
    decreases events.len(),
{
    if events.len() == 0 {
        Seq::empty()
    } else {
        let e = events[0];
        match cidr_parse_spec(e.gamebox_cidr@) {
            None => bad_cidr_text("other gamebox_cidr"@, e.gamebox_cidr@),
            Some(ogb) => match cidr_parse_spec(e.wireguard_cidr@) {
                None => bad_cidr_text("other wireguard_cidr"@, e.wireguard_cidr@),
                Some(owg) => if gb.meets(ogb) || gb.meets(owg) {
                    other_event_message("gamebox_cidr"@, texts.0, " overlaps other event "@, e)
                } else if wg.meets(ogb) || wg.meets(owg) {
                    other_event_message("wireguard_cidr"@, texts.1, " overlaps other event "@, e)
                } else if ogb.has(fs as int) || owg.has(fs as int) {
                    other_event_message("flagserver_ip"@, texts.2, " falls inside other event "@, e)
                } else if ogb.has(js as int) || owg.has(js as int) {
                    other_event_message("judgeserver_ip"@, texts.3, " falls inside other event "@, e)
                } else {
                    events_message(events.drop_first(), gb, wg, fs, js, texts)
                },
            },
        }
    }
}

/// Message of the first problem met walking the other events' team blocks (empty when none).
pub open spec fn teams_message(nets: Seq<TeamNetwork>, fs: u32, js: u32, fs_text: Seq<char>, js_text: Seq<char>) -> Seq<char>
    decreases nets.len(),
{
    if nets.len() == 0 {
        Seq::empty()
    } else {
        let n = nets[0];
        match cidr_parse_spec(n.gamebox_subnet@) {
            None => bad_cidr_text("other team gamebox_subnet"@, n.gamebox_subnet@),
            Some(ngb) => match cidr_parse_spec(n.wireguard_subnet@) {
                None => bad_cidr_text("other team wireguard_subnet"@, n.wireguard_subnet@),
                Some(nwg) => if team_clash(fs, js, ngb, nwg) {
                    (if ngb.has(fs as int) || nwg.has(fs as int) {
                        "flagserver_ip "@ + fs_text
                    } else {
                        "judgeserver_ip "@ + js_text
                    }) + " falls inside other team subnet "@ + n.gamebox_subnet@ + " of event "@
                        + crate::text::uuid_text(n.event_id)
                } else {
                    teams_message(nets.drop_first(), fs, js, fs_text, js_text)
                },
            },
        }
    }
}

/// Message of a refused cross-event check (meaningful where the verdict is not a pass).
pub open spec fn cross_event_message(
    events: Seq<EventCidrs>,
    nets: Seq<TeamNetwork>,
    gamebox_cidr: Seq<char>,
    wireguard_cidr: Seq<char>,
    flagserver_ip: Seq<char>,
    judgeserver_ip: Seq<char>,
) -> Seq<char> {
    match cidr_parse_spec(gamebox_cidr) {
        None => bad_cidr_text("gamebox_cidr"@, gamebox_cidr),
        Some(gb) => match cidr_parse_spec(wireguard_cidr) {
            None => bad_cidr_text("wireguard_cidr"@, wireguard_cidr),
            Some(wg) => match ipv4_parse_spec(flagserver_ip) {
                None => bad_ip_text("flagserver_ip"@, flagserver_ip),
                Some(fs) => match ipv4_parse_spec(judgeserver_ip) {
                    None => bad_ip_text("judgeserver_ip"@, judgeserver_ip),
                    Some(js) => if events_verdict(events, gb, wg, fs, js) != Verdict::Pass {
                        events_message(events, gb, wg, fs, js, (gamebox_cidr, wireguard_cidr, flagserver_ip, judgeserver_ip))
                    } else {
                        teams_message(nets, fs, js, flagserver_ip, judgeserver_ip)
                    },
                },
            },
        },
    }
}

/// The error kind a verdict is reported with.
pub open spec fn verdict_matches(v: Verdict, r: Result<(), AwdError>) -> bool {
    match v {
        Verdict::Pass => r is Ok,
        Verdict::Invalid => r matches Err(AwdError::Validation(_)),
        Verdict::Conflict => r matches Err(AwdError::Conflict(_)),
    }
}

fn parse_cidr(cidr: &str, name: &str) -> (r: Result<Ipv4Cidr, AwdError>)
    ensures
        match cidr_parse_spec(cidr@) {
            Some(c) => r == Ok::<Ipv4Cidr, AwdError>(c),
            None => r matches Err(AwdError::Validation(m)) && m@ == bad_cidr_text(name@, cidr@),
        },
        r matches Ok(c) ==> c.wf(),
{
    match Ipv4Cidr::parse(cidr) {
        Ok(c) => Ok(c),
        Err(e) => {
            let m = cat(cat(cat(cat(owned(name), " ("), cidr), ") invalid: "), e.as_str());
            Err(AwdError::Validation(m))
        },
    }
}

fn parse_ip(ip: &str, name: &str) -> (r: Result<u32, AwdError>)
    ensures
        match ipv4_parse_spec(ip@) {
            Some(a) => r == Ok::<u32, AwdError>(a),
            None => r matches Err(AwdError::Validation(m)) && m@ == bad_ip_text(name@, ip@),
        },
{
    match parse_ipv4(ip) {
        Some(a) => Ok(a),
        None => {
            let m = cat(cat(cat(owned(name), " ("), ip), ") invalid: invalid IPv4 address syntax");
            Err(AwdError::Validation(m))
        },
    }
}

fn other_event_text(what: &str, value: &str, verb: &str, other: &EventCidrs) -> (m: String)
    ensures
        m@ == other_event_message(what@, value@, verb@, *other),
{
    let id = uuid_string(other.event_id);
    let m = cat(cat(cat(cat(owned(what), " "), value), verb), id.as_str());
    let m = cat(cat(cat(m, " (gamebox "), other.gamebox_cidr.as_str()), " / wireguard ");
    cat(cat(m, other.wireguard_cidr.as_str()), ")")
}

/// Rejects an event whose blocks or service addresses collide with other events.
///
/// `events` and `networks` describe the *other* events only. The event's own
/// gamebox / WireGuard blocks must not overlap any other event's blocks, and its
/// FlagServer / JudgeServer addresses must not fall inside any other event's
/// blocks or already-allocated team blocks.
#[verifier::loop_isolation(false)]
pub fn validate_no_cross_event_overlap(
    events: &[EventCidrs],
    networks: &[TeamNetwork],
    gamebox_cidr: &str,
    wireguard_cidr: &str,
    flagserver_ip: &str,
    judgeserver_ip: &str,
) -> (r: Result<(), AwdError>)
    ensures
        verdict_matches(
            cross_event_verdict(events@, networks@, gamebox_cidr@, wireguard_cidr@, flagserver_ip@, judgeserver_ip@),
            r,
        ),
        r matches Err(e) ==> awd_error_message(e) == cross_event_message(
            events@,
            networks@,
            gamebox_cidr@,
            wireguard_cidr@,
            flagserver_ip@,
            judgeserver_ip@,
        ),
{
    let gb = parse_cidr(gamebox_cidr, "gamebox_cidr")?;
    let wg = parse_cidr(wireguard_cidr, "wireguard_cidr")?;
    let fs_ip = parse_ip(flagserver_ip, "flagserver_ip")?;
    let js_ip = parse_ip(judgeserver_ip, "judgeserver_ip")?;

    let mut i: usize = 0;
    assert(events@.skip(0) =~= events@);
    while i < events.len()
        invariant
            0 <= i <= events@.len(),
            gb.wf(),
            wg.wf(),
            events_verdict(events@, gb, wg, fs_ip, js_ip) == events_verdict(events@.skip(i as int), gb, wg, fs_ip, js_ip),
            events_message(events@, gb, wg, fs_ip, js_ip, (gamebox_cidr@, wireguard_cidr@, flagserver_ip@, judgeserver_ip@))
                == events_message(events@.skip(i as int), gb, wg, fs_ip, js_ip, (gamebox_cidr@, wireguard_cidr@, flagserver_ip@, judgeserver_ip@)),
        decreases events@.len() - i,
    {
        let other = &events[i];
        assert(events@.skip(i as int)[0] == events@[i as int]);
        assert(events@.skip(i as int).drop_first() =~= events@.skip(i as int + 1));
        let other_gb = parse_cidr(other.gamebox_cidr.as_str(), "other gamebox_cidr")?;
        let other_wg = parse_cidr(other.wireguard_cidr.as_str(), "other wireguard_cidr")?;

        if gb.overlaps(&other_gb) || gb.overlaps(&other_wg) {
            return Err(AwdError::Conflict(other_event_text("gamebox_cidr", gamebox_cidr, " overlaps other event ", other)));
        }
        if wg.overlaps(&other_gb) || wg.overlaps(&other_wg) {
            return Err(AwdError::Conflict(other_event_text("wireguard_cidr", wireguard_cidr, " overlaps other event ", other)));
        }
        if other_gb.contains(fs_ip) || other_wg.contains(fs_ip) {
            return Err(AwdError::Conflict(other_event_text("flagserver_ip", flagserver_ip, " falls inside other event ", other)));
        }
        if other_gb.contains(js_ip) || other_wg.contains(js_ip) {
            return Err(AwdError::Conflict(other_event_text("judgeserver_ip", judgeserver_ip, " falls inside other event ", other)));
        }
        i = i + 1;
    }
    assert(events@.skip(i as int).len() == 0);

    let mut j: usize = 0;
    assert(networks@.skip(0) =~= networks@);
    while j < networks.len()
        invariant
            0 <= j <= networks@.len(),
            teams_verdict(networks@, fs_ip, js_ip) == teams_verdict(networks@.skip(j as int), fs_ip, js_ip),
            teams_message(networks@, fs_ip, js_ip, flagserver_ip@, judgeserver_ip@)
                == teams_message(networks@.skip(j as int), fs_ip, js_ip, flagserver_ip@, judgeserver_ip@),
        decreases networks@.len() - j,
    {
        let net = &networks[j];
        assert(networks@.skip(j as int)[0] == networks@[j as int]);
        assert(networks@.skip(j as int).drop_first() =~= networks@.skip(j as int + 1));
        let net_gb = parse_cidr(net.gamebox_subnet.as_str(), "other team gamebox_subnet")?;
        let net_wg = parse_cidr(net.wireguard_subnet.as_str(), "other team wireguard_subnet")?;
        if net_gb.contains(fs_ip) || net_wg.contains(fs_ip) || net_gb.contains(js_ip) || net_wg.contains(js_ip) {
            let which = if net_gb.contains(fs_ip) || net_wg.contains(fs_ip) {
                cat(owned("flagserver_ip "), flagserver_ip)
            } else {
                cat(owned("judgeserver_ip "), judgeserver_ip)
            };
            let id = uuid_string(net.event_id);
            let m = cat(cat(cat(cat(which, " falls inside other team subnet "), net.gamebox_subnet.as_str()), " of event "), id.as_str());
            return Err(AwdError::Conflict(m));
        }
        j = j + 1;
    }
    assert(networks@.skip(j as int).len() == 0);
    Ok(())
}

/// A platform address pool carved into event-level blocks, each carved into team blocks.
pub struct NetworkPool {
    pub pool: Ipv4Cidr,
    pub event_prefix: u8,
    pub team_prefix: u8,
}

impl NetworkPool {
    /// The pool is well formed and the prefixes nest: pool ≤ event ≤ team ≤ 32,
    /// with fewer than 2^32 event blocks.
    pub open spec fn wf(self) -> bool {
        &&& self.pool.wf()
        &&& self.pool.prefix_len <= self.event_prefix <= self.team_prefix <= 32
        &&& self.event_prefix - self.pool.prefix_len < 32
    }

    /// Number of event blocks.
    pub open spec fn capacity(self) -> nat {
        pow2((self.event_prefix - self.pool.prefix_len) as nat)
    }

    /// Event block `k`.
    pub open spec fn event_block(self, k: nat) -> Ipv4Cidr {
        Ipv4Cidr { network: (self.pool.network + k * block_len(self.event_prefix as nat)) as u32, prefix_len: self.event_prefix }
    }

    /// A pool with nested prefixes (pool ≤ event ≤ team ≤ 32).
    pub fn new(pool: Ipv4Cidr, event_prefix: u8, team_prefix: u8) -> (r: Result<NetworkPool, AwdError>)
        requires
            pool.wf(),
        ensures
            match r {
                Ok(p) => p.pool == pool && p.event_prefix == event_prefix && p.team_prefix == team_prefix && p.wf(),
                Err(e) => e is Validation && !(pool.prefix_len <= event_prefix <= team_prefix <= 32
                    && event_prefix - pool.prefix_len < 32),
            },
            r matches Err(AwdError::Validation(m)) ==> m@ == "network pool prefixes must satisfy pool <= event <= team <= 32"@,
    {
        if !(pool.prefix_len <= event_prefix && event_prefix <= team_prefix && team_prefix <= 32)
            || event_prefix - pool.prefix_len >= 32 {
            return Err(AwdError::Validation(owned("network pool prefixes must satisfy pool <= event <= team <= 32")));
        }
        Ok(NetworkPool { pool, event_prefix, team_prefix })
    }

    /// Number of event blocks in the pool.
    pub fn event_capacity(&self) -> (n: u64)
        requires
            self.wf(),
        ensures
            n == self.capacity(),
    {
        proof {
            vstd::bits::lemma_u64_pow2_no_overflow((self.event_prefix - self.pool.prefix_len) as nat);
            vstd::bits::lemma_u64_shl_is_mul(1, (self.event_prefix - self.pool.prefix_len) as u64);
        }
        1u64 << ((self.event_prefix - self.pool.prefix_len) as u64)
    }

    /// Event block `i`, if the pool has that many.
    pub fn nth_event_subnet(&self, i: u64) -> (r: Option<Ipv4Cidr>)
        requires
            self.wf(),
        ensures
            i < self.capacity() ==> r == Some(self.event_block(i as nat)) && self.event_block(i as nat).wf(),
            i >= self.capacity() ==> r is None,
    {
        let r = self.pool.nth_subnet(self.event_prefix, i);
        proof {
            let p = self.pool.prefix_len as nat;
            let m = self.event_prefix as nat;
            lemma_pow2_adds((32 - m) as nat, (m - p) as nat);
            lemma_pow2_pos((32 - m) as nat);
            vstd::arithmetic::mul::lemma_mul_is_commutative(pow2((32 - m) as nat) as int, pow2((m - p) as nat) as int);
            assert(self.pool.size() == self.capacity() * block_len(m));
            if i < self.capacity() {
                assert(i * block_len(m) < self.pool.size()) by (nonlinear_arith)
                    requires
                        i < self.capacity(),
                        self.pool.size() == self.capacity() * block_len(m),
                        block_len(m) >= 1,
                ;
            } else {
                assert(i * block_len(m) >= self.pool.size()) by (nonlinear_arith)
                    requires
                        i >= self.capacity(),
                        self.pool.size() == self.capacity() * block_len(m),
                        block_len(m) >= 1,
                ;
            }
        }
        r
    }
}

/// One active address allocation of an event (a gamebox or WireGuard block).
pub struct NetworkAllocation {
    pub event_id: u128,
    pub cidr: String,
}

/// Some active allocation parses and overlaps `c` (unparsable ones are ignored).
pub open spec fn allocation_taken(active: Seq<NetworkAllocation>, c: Ipv4Cidr) -> bool {
    exists|j: int|
        0 <= j < active.len() && (#[trigger] cidr_parse_spec(active[j].cidr@) matches Some(a) && a.meets(c))
}

fn is_taken(active: &[NetworkAllocation], c: &Ipv4Cidr) -> (b: bool)
    requires
        c.wf(),
    ensures
        b == allocation_taken(active@, *c),
{
    let mut j: usize = 0;
    while j < active.len()
        invariant
            0 <= j <= active@.len(),
            c.wf(),
            forall|k: int|
                0 <= k < j ==> !(#[trigger] cidr_parse_spec(active@[k].cidr@) matches Some(a) && a.meets(*c)),
        decreases active@.len() - j,
    {
        match Ipv4Cidr::parse(active[j].cidr.as_str()) {
            Ok(a) => {
                if a.overlaps(c) {
                    return true;
                }
            },
            Err(_) => {},
        }
        j = j + 1;
    }
    false
}

/// Message of an exhausted pool: its label, the pool and how many blocks it has.
pub open spec fn pool_exhausted_text(pool: NetworkPool, label: Seq<char>) -> Seq<char> {
    "AWD_"@ + uppercase_of(label) + "_POOL_EXHAUSTED: "@ + label + " 地址池 "@ + crate::cidr::cidr_text(pool.pool)
        + " 已无空闲 event 子网（容量 "@ + dec(pool.capacity()) + "）"@
}

/// The first event block of the pool that no active allocation overlaps;
/// `PoolExhausted` when every block is taken.
pub fn first_free_event_subnet(pool: &NetworkPool, active: &[NetworkAllocation], label: &str) -> (r: Result<
    Ipv4Cidr,
    AwdError,
>)
    requires
        pool.wf(),
    ensures
        match r {
            Ok(c) => exists|k: nat|
                {
                    &&& k < pool.capacity()
                    &&& c == #[trigger] pool.event_block(k)
                    &&& !allocation_taken(active@, c)
                    &&& forall|j: nat| j < k ==> allocation_taken(active@, #[trigger] pool.event_block(j))
                },
            Err(e) => e is PoolExhausted && forall|k: nat|
                k < pool.capacity() ==> allocation_taken(active@, #[trigger] pool.event_block(k)),
        },
        r matches Err(AwdError::PoolExhausted(m)) ==> m@ == pool_exhausted_text(*pool, label@),
{
    let capacity = pool.event_capacity();
    let mut i: u64 = 0;
    while i < capacity
        invariant
            pool.wf(),
            capacity == pool.capacity(),
            i <= capacity,
            forall|j: nat| j < i ==> allocation_taken(active@, #[trigger] pool.event_block(j)),
        decreases capacity - i,
    {
        let candidate = pool.nth_event_subnet(i).unwrap();
        if !is_taken(active, &candidate) {
            return Ok(candidate);
        }
        i = i + 1;
    }
    let upper = to_uppercase(label);
    let pool_text = pool.pool.to_string();
    let cap_text = u64_decimal(capacity);
    let m = cat(cat(cat(owned("AWD_"), upper.as_str()), "_POOL_EXHAUSTED: "), label);
    let m = cat(cat(cat(m, " 地址池 "), pool_text.as_str()), " 已无空闲 event 子网（容量 ");
    let m = cat(cat(m, cap_text.as_str()), "）");
    Err(AwdError::PoolExhausted(m))
}

/// An inclusive range of WireGuard listen ports.
pub struct WireGuardPortRange {
    pub min: u16,
    pub max: u16,
}

impl WireGuardPortRange {
    /// A non-empty range of non-zero ports.
    pub fn new(min: u16, max: u16) -> (r: Result<WireGuardPortRange, AwdError>)
        ensures
            match r {
                Ok(p) => p.min == min && p.max == max && 0 < min <= max,
                Err(e) => e is Validation && !(0 < min <= max),
            },
            r matches Err(AwdError::Validation(m)) ==> m@ == "WireGuard port range must be non-empty and above 0"@,
    {
        if min == 0 || min > max {
            return Err(AwdError::Validation(owned("WireGuard port range must be non-empty and above 0")));
        }
        Ok(WireGuardPortRange { min, max })
    }
}

/// The lowest port of the range that is not in use; `PoolExhausted` when all are.
pub fn allocate_port(range: WireGuardPortRange, used: &[i32]) -> (r: Result<i32, AwdError>)
    ensures
        match r {
            Ok(p) => range.min <= p <= range.max && !used@.contains(p) && forall|q: i32|
                range.min <= q < p ==> #[trigger] used@.contains(q),
            Err(e) => e is PoolExhausted && forall|q: i32| range.min <= q <= range.max ==> #[trigger] used@.contains(q),
        },
        r matches Err(AwdError::PoolExhausted(m)) ==> m@ == "AWD_WG_PORT_POOL_EXHAUSTED: WG 端口池 "@
            + dec(range.min as nat) + "-"@ + dec(range.max as nat) + " 已无空闲端口"@,
{
    let mut p: u32 = range.min as u32;
    while p <= range.max as u32
        invariant
            range.min <= p,
            p == range.min || p <= range.max as u32 + 1,
            forall|q: i32| range.min <= q < p ==> #[trigger] used@.contains(q),
        decreases range.max as u32 + 1 - p,
    {
        let mut found = false;
        let mut j: usize = 0;
        while j < used.len()
            invariant
                0 <= j <= used@.len(),
                found == exists|k: int| 0 <= k < j && used@[k] == p as i32,
            decreases used@.len() - j,
        {
            if used[j] == p as i32 {
                found = true;
            }
            j = j + 1;
        }
        if !found {
            return Ok(p as i32);
        }
        p = p + 1;
    }
    let lo = u64_decimal(range.min as u64);
    let hi = u64_decimal(range.max as u64);
    let m = cat(cat(cat(owned("AWD_WG_PORT_POOL_EXHAUSTED: WG 端口池 "), lo.as_str()), "-"), hi.as_str());
    Err(AwdError::PoolExhausted(cat(m, " 已无空闲端口")))
}

/// Message of an overlap with another event's block.
pub open spec fn overlap_text(other: Ipv4Cidr, other_event: u128) -> Seq<char> {
    "AWD_NETWORK_OVERLAP: 与 Event "@ + crate::text::uuid_text(other_event) + " 的 "@
        + crate::cidr::cidr_text(other) + " 冲突"@
}

/// The overlap error naming the other event and its block.
pub fn overlap_error(other: &Ipv4Cidr, other_event: u128) -> (e: AwdError)
    ensures
        e matches AwdError::NetworkOverlap(m) && m@ == overlap_text(*other, other_event),
{
    let id = uuid_string(other_event);
    let text = other.to_string();
    let m = cat(cat(cat(cat(owned("AWD_NETWORK_OVERLAP: 与 Event "), id.as_str()), " 的 "), text.as_str()), " 冲突");
    AwdError::NetworkOverlap(m)
}

} // verus!

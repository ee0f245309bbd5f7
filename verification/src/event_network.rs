//! Allocation of an AWD event's network: the gates on an existing
//! allocation, automatic allocation from the platform pools and the checks
//! of a manual allocation.

use vstd::prelude::*;

use crate::awd_network::{
    allocate_port, allocation_taken, first_free_event_subnet, overlap_error, overlap_text, pool_exhausted_text, NetworkAllocation, NetworkPool,
    WireGuardPortRange,
};
use crate::cidr::{cidr_parse_spec, cidr_text, Ipv4Cidr};
use crate::error::{awd_error_message, AwdError};
use crate::text::{cat, dec, dec_int, i64_decimal, owned, u64_decimal};

verus! {

/// A manual allocation asked for by an administrator: both blocks, and
/// optionally the WireGuard listen port.
pub struct ManualNetworkRequest {
    pub gamebox_cidr: String,
    pub wireguard_cidr: String,
    pub wireguard_listen_port: Option<i32>,
}

/// `c` is the first event block of `pool` that no active allocation overlaps.
pub open spec fn first_free(pool: NetworkPool, active: Seq<NetworkAllocation>, c: Ipv4Cidr) -> bool {
    exists|k: nat|
        {
            &&& k < pool.capacity()
            &&& c == #[trigger] pool.event_block(k)
            &&& !allocation_taken(active, c)
            &&& forall|j: nat| j < k ==> allocation_taken(active, #[trigger] pool.event_block(j))
        }
}

/// Every event block of `pool` is taken.
pub open spec fn pool_full(pool: NetworkPool, active: Seq<NetworkAllocation>) -> bool {
    forall|k: nat| k < pool.capacity() ==> allocation_taken(active, #[trigger] pool.event_block(k))
}

/// `p` is the lowest port of the range that is not in use.
pub open spec fn lowest_free_port(range: WireGuardPortRange, used: Seq<i32>, p: i32) -> bool {
    range.min <= p <= range.max && !used.contains(p) && forall|q: i32| range.min <= q < p ==> #[trigger] used.contains(q)
}

/// Every port of the range is in use.
pub open spec fn ports_full(range: WireGuardPortRange, used: Seq<i32>) -> bool {
    forall|q: i32| range.min <= q <= range.max ==> #[trigger] used.contains(q)
}

/// Gate of an automatic allocation on the event's current one: none → allocate
/// (`Ok(false)`); an unlocked one is returned as it is (`Ok(true)`); a locked
/// one is refused.
pub fn automatic_allocation_gate(existing_locked: Option<bool>) -> (r: Result<bool, AwdError>)
    ensures
        existing_locked is None ==> r == Ok::<bool, AwdError>(false),
        existing_locked == Some(false) ==> r == Ok::<bool, AwdError>(true),
        existing_locked == Some(true) ==> (r matches Err(AwdError::NetworkLocked(m))
            && m@ == "network already locked after deploy"@),
{
    match existing_locked {
        None => Ok(false),
        Some(false) => Ok(true),
        Some(true) => Err(AwdError::NetworkLocked(owned("network already locked after deploy"))),
    }
}

/// A manual allocation needs an event without an allocation.
pub fn manual_allocation_gate(already_allocated: bool) -> (r: Result<(), AwdError>)
    ensures
        already_allocated <==> r is Err,
        r is Err ==> (r matches Err(AwdError::Conflict(m)) && m@ == "event network already allocated；请用 reallocate"@),
{
    if already_allocated {
        Err(AwdError::Conflict(owned("event network already allocated；请用 reallocate")))
    } else {
        Ok(())
    }
}

/// A reallocation needs an unlocked allocation.
pub fn reallocation_gate(locked: bool) -> (r: Result<(), AwdError>)
    ensures
        locked <==> r is Err,
        r is Err ==> (r matches Err(AwdError::NetworkLocked(m)) && m@ == "network locked after deploy；不可 reallocate"@),
{
    if locked {
        Err(AwdError::NetworkLocked(owned("network locked after deploy；不可 reallocate")))
    } else {
        Ok(())
    }
}

/// Automatic allocation: the first free game-box block, the first free
/// WireGuard block and the lowest free listen port.
pub fn plan_automatic_allocation(
    gamebox_pool: &NetworkPool,
    wireguard_pool: &NetworkPool,
    active: &[NetworkAllocation],
    used_ports: &[i32],
    port_range: WireGuardPortRange,
) -> (r: Result<(Ipv4Cidr, Ipv4Cidr, i32), AwdError>)
    requires
        gamebox_pool.wf(),
        wireguard_pool.wf(),
    ensures
        r matches Ok((g, w, p)) ==> first_free(*gamebox_pool, active@, g) && first_free(*wireguard_pool, active@, w)
            && lowest_free_port(port_range, used_ports@, p),
        r is Err ==> r matches Err(AwdError::PoolExhausted(_)),
        r is Err <==> (pool_full(*gamebox_pool, active@) || pool_full(*wireguard_pool, active@) || ports_full(port_range, used_ports@)),
        r matches Err(AwdError::PoolExhausted(m)) ==> m@ == (if pool_full(*gamebox_pool, active@) {
            pool_exhausted_text(*gamebox_pool, "gamebox"@)
        } else if pool_full(*wireguard_pool, active@) {
            pool_exhausted_text(*wireguard_pool, "wireguard"@)
        } else {
            "AWD_WG_PORT_POOL_EXHAUSTED: WG 端口池 "@ + dec(port_range.min as nat) + "-"@
                + dec(port_range.max as nat) + " 已无空闲端口"@
        }),
{
    let g = first_free_event_subnet(gamebox_pool, active, "gamebox")?;
    proof {
        assert(!pool_full(*gamebox_pool, active@));
    }
    let w = match first_free_event_subnet(wireguard_pool, active, "wireguard") {
        Ok(w) => w,
        Err(e) => return Err(e),
    };
    proof {
        assert(!pool_full(*wireguard_pool, active@));
    }
    let p = match allocate_port(port_range, used_ports) {
        Ok(p) => p,
        Err(e) => return Err(e),
    };
    proof {
        if ports_full(port_range, used_ports@) {
            assert(used_ports@.contains(p));
        }
    }
    Ok((g, w, p))
}

/// Outcome of the active-allocation scan of a manual allocation.
pub enum ActiveScan {
    Clear,
    Unparsable,
    Overlap,
}

/// The first active allocation that is unparsable or overlaps one of the two blocks decides.
pub open spec fn scan_active(active: Seq<NetworkAllocation>, g: Ipv4Cidr, w: Ipv4Cidr) -> ActiveScan
    decreases active.len(),
{
    if active.len() == 0 {
        ActiveScan::Clear
    } else {
        match cidr_parse_spec(active[0].cidr@) {
            None => ActiveScan::Unparsable,
            Some(a) => if a.meets(g) || a.meets(w) {
                ActiveScan::Overlap
            } else {
                scan_active(active.drop_first(), g, w)
            },
        }
    }
}

/// A clear scan means every active allocation parses and is disjoint from
/// both blocks.
pub proof fn lemma_clear_scan_disjoint(active: Seq<NetworkAllocation>, g: Ipv4Cidr, w: Ipv4Cidr)
    requires
        scan_active(active, g, w) == ActiveScan::Clear,
    ensures
        forall|i: int| 0 <= i < active.len() ==> (cidr_parse_spec(#[trigger] active[i].cidr@) matches Some(a)
            && !a.meets(g) && !a.meets(w)),
    decreases active.len(),
{
    if active.len() > 0 {
        lemma_clear_scan_disjoint(active.drop_first(), g, w);
        assert forall|i: int| 0 <= i < active.len() implies (cidr_parse_spec(#[trigger] active[i].cidr@) matches Some(a)
            && !a.meets(g) && !a.meets(w)) by {
            if i > 0 {
                assert(active[i] == active.drop_first()[i - 1]);
            }
        }
    }
}

/// The blocks a manual allocation accepts are the requested ones, disjoint
/// from each other and from every active allocation (which all parse), and
/// the game-box block is at least as wide as a team block.
pub proof fn lemma_manual_blocks_disjoint(req: ManualNetworkRequest, active: Seq<NetworkAllocation>, team_prefix: u8)
    ensures
        manual_blocks(req, active, team_prefix) matches Ok((g, w)) ==> {
            &&& cidr_parse_spec(req.gamebox_cidr@) == Some(g)
            &&& cidr_parse_spec(req.wireguard_cidr@) == Some(w)
            &&& !g.meets(w)
            &&& g.prefix_len <= team_prefix
            &&& forall|i: int| 0 <= i < active.len() ==> (cidr_parse_spec(#[trigger] active[i].cidr@) matches Some(a)
                && !a.meets(g) && !a.meets(w))
        },
{
    if let Ok((g, w)) = manual_blocks(req, active, team_prefix) {
        lemma_clear_scan_disjoint(active, g, w);
    }
}

/// Message of the scan's deciding allocation: the parse error of an unreadable
/// one, or the overlap with the first that meets a block.
pub open spec fn scan_message(active: Seq<NetworkAllocation>, g: Ipv4Cidr, w: Ipv4Cidr) -> Seq<char>
    decreases active.len(),
{
    if active.len() == 0 {
        Seq::empty()
    } else {
        match cidr_parse_spec(active[0].cidr@) {
            None => "invalid CIDR: "@ + active[0].cidr@,
            Some(a) => if a.meets(g) || a.meets(w) {
                overlap_text(a, active[0].event_id)
            } else {
                scan_message(active.drop_first(), g, w)
            },
        }
    }
}

/// Message of a refused pair of blocks (meaningful where [`manual_blocks`] refuses them).
pub open spec fn manual_block_message(req: ManualNetworkRequest, active: Seq<NetworkAllocation>, team_prefix: u8) -> Seq<char> {
    match (cidr_parse_spec(req.gamebox_cidr@), cidr_parse_spec(req.wireguard_cidr@)) {
        (None, _) => "invalid CIDR: "@ + req.gamebox_cidr@,
        (Some(_), None) => "invalid CIDR: "@ + req.wireguard_cidr@,
        (Some(g), Some(w)) => if g.meets(w) {
            "gamebox "@ + cidr_text(g) + " 与 wireguard "@ + cidr_text(w) + " 重叠"@
        } else if scan_active(active, g, w) != ActiveScan::Clear {
            scan_message(active, g, w)
        } else {
            "manual gamebox_cidr /"@ + dec(g.prefix_len as nat) + " 不可小于 team prefix /"@ + dec(team_prefix as nat)
                + "（infra 派生需要）"@
        },
    }
}

/// Why the blocks of a manual allocation are refused.
pub enum BlockFault {
    /// A block does not parse, an active allocation is unreadable, or the
    /// game-box block is narrower than a team block (`Validation`).
    Invalid,
    /// The blocks overlap each other or an active allocation (`NetworkOverlap`).
    Overlap,
}

/// The blocks of a manual allocation, or why they are refused, checked in order.
pub open spec fn manual_blocks(req: ManualNetworkRequest, active: Seq<NetworkAllocation>, team_prefix: u8) -> Result<(Ipv4Cidr, Ipv4Cidr), BlockFault> {
    match (cidr_parse_spec(req.gamebox_cidr@), cidr_parse_spec(req.wireguard_cidr@)) {
        (Some(g), Some(w)) => if g.meets(w) {
            Err(BlockFault::Overlap)
        } else {
            match scan_active(active, g, w) {
                ActiveScan::Unparsable => Err(BlockFault::Invalid),
                ActiveScan::Overlap => Err(BlockFault::Overlap),
                ActiveScan::Clear => if g.prefix_len > team_prefix {
                    Err(BlockFault::Invalid)
                } else {
                    Ok((g, w))
                },
            }
        },
        _ => Err(BlockFault::Invalid),
    }
}

/// The error reports the fault.
pub open spec fn reports(e: AwdError, f: BlockFault) -> bool {
    match f {
        BlockFault::Invalid => e is Validation,
        BlockFault::Overlap => e is NetworkOverlap,
    }
}

fn scan(active: &[NetworkAllocation], g: &Ipv4Cidr, w: &Ipv4Cidr) -> (r: Result<(), AwdError>)
    requires
        g.wf(),
        w.wf(),
    ensures
        scan_active(active@, *g, *w) == ActiveScan::Clear <==> r is Ok,
        scan_active(active@, *g, *w) == ActiveScan::Unparsable ==> r matches Err(AwdError::Validation(_)),
        scan_active(active@, *g, *w) == ActiveScan::Overlap ==> r matches Err(AwdError::NetworkOverlap(_)),
        r matches Err(e) ==> awd_error_message(e) == scan_message(active@, *g, *w),
{
    let mut i: usize = 0;
    assert(active@.subrange(0, active@.len() as int) =~= active@);
    while i < active.len()
        invariant
            g.wf(),
            w.wf(),
            i <= active@.len(),
            scan_active(active@, *g, *w) == scan_active(active@.subrange(i as int, active@.len() as int), *g, *w),
            scan_message(active@, *g, *w) == scan_message(active@.subrange(i as int, active@.len() as int), *g, *w),
        decreases active@.len() - i,
    {
        assert(active@.subrange(i as int, active@.len() as int).drop_first() =~= active@.subrange(i + 1, active@.len() as int));
        match Ipv4Cidr::parse(active[i].cidr.as_str()) {
            Err(e) => return Err(AwdError::Validation(e)),
            Ok(other) => {
                if other.overlaps(g) || other.overlaps(w) {
                    return Err(overlap_error(&other, active[i].event_id));
                }
            },
        }
        i = i + 1;
    }
    Ok(())
}

/// A manual allocation: both blocks must parse and be disjoint, overlap no
/// active allocation (nor may an active one be unreadable), and the game-box
/// block must be at least as wide as a team block; a requested port must lie
/// in the platform range and be free, else the lowest free port is taken.
pub fn plan_manual_allocation(
    req: &ManualNetworkRequest,
    active: &[NetworkAllocation],
    used_ports: &[i32],
    team_prefix: u8,
    port_min: u16,
    port_max: u16,
) -> (r: Result<(Ipv4Cidr, Ipv4Cidr, i32), AwdError>)
    ensures
        r matches Ok((g, w, _)) ==> {
            &&& cidr_parse_spec(req.gamebox_cidr@) == Some(g)
            &&& cidr_parse_spec(req.wireguard_cidr@) == Some(w)
            &&& !g.meets(w)
            &&& forall|i: int| 0 <= i < active@.len() ==> (cidr_parse_spec(#[trigger] active@[i].cidr@) matches Some(a)
                && !a.meets(g) && !a.meets(w))
        },
        match manual_blocks(*req, active@, team_prefix) {
            Err(f) => r matches Err(x) && reports(x, f) && awd_error_message(x) == manual_block_message(*req, active@, team_prefix),
            Ok((g, w)) => {
                let range = WireGuardPortRange { min: port_min, max: port_max };
                if !(0 < port_min <= port_max) {
                    r matches Err(AwdError::Validation(m)) && m@ == "WireGuard port range must be non-empty and above 0"@
                } else {
                    match req.wireguard_listen_port {
                        Some(p) => if !(port_min <= (p as u16) <= port_max) {
                            r matches Err(AwdError::Validation(m)) && m@ == "wg port "@ + dec_int(p as int) + " 不在平台端口池 "@
                                + dec(port_min as nat) + "-"@ + dec(port_max as nat) + " 内"@
                        } else if used_ports@.contains(p) {
                            r matches Err(AwdError::Conflict(m)) && m@ == "wg port "@ + dec_int(p as int) + " 已被其他 Event 占用"@
                        } else {
                            r == Ok::<(Ipv4Cidr, Ipv4Cidr, i32), AwdError>((g, w, p))
                        },
                        None => match r {
                            Ok((g2, w2, q)) => g2 == g && w2 == w && lowest_free_port(range, used_ports@, q),
                            Err(e) => e is PoolExhausted && ports_full(range, used_ports@) && awd_error_message(e)
                                == "AWD_WG_PORT_POOL_EXHAUSTED: WG 端口池 "@ + dec(port_min as nat) + "-"@
                                + dec(port_max as nat) + " 已无空闲端口"@,
                        },
                    }
                }
            },
        },
{
    proof {
        lemma_manual_blocks_disjoint(*req, active@, team_prefix);
    }
    let g = match Ipv4Cidr::parse(req.gamebox_cidr.as_str()) {
        Ok(c) => c,
        Err(e) => return Err(AwdError::Validation(e)),
    };
    let w = match Ipv4Cidr::parse(req.wireguard_cidr.as_str()) {
        Ok(c) => c,
        Err(e) => return Err(AwdError::Validation(e)),
    };
    if g.overlaps(&w) {
        let gt = g.to_string();
        let wt = w.to_string();
        let m = cat(cat(cat(cat(owned("gamebox "), gt.as_str()), " 与 wireguard "), wt.as_str()), " 重叠");
        return Err(AwdError::NetworkOverlap(m));
    }
    scan(active, &g, &w)?;
    if g.prefix_len > team_prefix {
        let a = u64_decimal(g.prefix_len as u64);
        let b = u64_decimal(team_prefix as u64);
        let m = cat(cat(cat(cat(owned("manual gamebox_cidr /"), a.as_str()), " 不可小于 team prefix /"), b.as_str()), "（infra 派生需要）");
        return Err(AwdError::Validation(m));
    }
    let range = WireGuardPortRange::new(port_min, port_max)?;
    let port = match req.wireguard_listen_port {
        Some(p) => {
            #[verifier::truncate]
            let q = p as u16;
            if !(range.min <= q && q <= range.max) {
                let pt = i64_decimal(p as i64);
                let lo = u64_decimal(range.min as u64);
                let hi = u64_decimal(range.max as u64);
                let m = cat(cat(cat(owned("wg port "), pt.as_str()), " 不在平台端口池 "), lo.as_str());
                let m = cat(cat(cat(m, "-"), hi.as_str()), " 内");
                return Err(AwdError::Validation(m));
            }
            let mut taken = false;
            let mut j: usize = 0;
            while j < used_ports.len()
                invariant
                    j <= used_ports@.len(),
                    taken == exists|k: int| 0 <= k < j && used_ports@[k] == p,
                decreases used_ports@.len() - j,
            {
                if used_ports[j] == p {
                    taken = true;
                }
                j = j + 1;
            }
            if taken {
                let pt = i64_decimal(p as i64);
                let m = cat(cat(owned("wg port "), pt.as_str()), " 已被其他 Event 占用");
                return Err(AwdError::Conflict(m));
            }
            p
        },
        None => allocate_port(range, used_ports)?,
    };
    Ok((g, w, port))
}

} // verus!

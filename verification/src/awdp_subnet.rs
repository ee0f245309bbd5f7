//! Per-event AWD-Plus data networks: picking a free block from the platform
//! pool, the dynamic instance pool and the JudgeServer address of a block.

use vstd::arithmetic::power2::{lemma_pow2_adds, lemma_pow2_pos, pow2};
use vstd::prelude::*;

use crate::cidr::{Ipv4Cidr, block_len, block_size};
use crate::error::AwdpError;
use crate::text::{contains_text, has_substring, owned};

verus! {

/// Some block of `taken` shares an address with `c`.
pub open spec fn clashes(taken: Seq<Ipv4Cidr>, c: Ipv4Cidr) -> bool {
    exists|j: int| 0 <= j < taken.len() && #[trigger] taken[j].meets(c)
}

/// Block `k` of prefix `m` inside `pool`.
pub open spec fn pool_block(pool: Ipv4Cidr, m: nat, k: nat) -> Ipv4Cidr {
    Ipv4Cidr { network: (pool.network + k * block_len(m)) as u32, prefix_len: m as u8 }
}

/// Number of blocks of prefix `m` inside `pool`.
pub open spec fn pool_blocks(pool: Ipv4Cidr, m: nat) -> nat {
    pow2((m - pool.prefix_len) as nat)
}

/// Block `k` is used by an existing event network or by a network Docker still has.
pub open spec fn block_used(pool: Ipv4Cidr, m: nat, k: nat, existing: Seq<Ipv4Cidr>, docker: Seq<Ipv4Cidr>) -> bool {
    clashes(existing, pool_block(pool, m, k)) || clashes(docker, pool_block(pool, m, k))
}

fn any_meets(taken: &[Ipv4Cidr], c: &Ipv4Cidr) -> (b: bool)
    requires
        c.wf(),
        forall|j: int| 0 <= j < taken@.len() ==> (#[trigger] taken@[j]).wf(),
    ensures
        b == clashes(taken@, *c),
{
    let mut j: usize = 0;
    while j < taken.len()
        invariant
            0 <= j <= taken@.len(),
            c.wf(),
            forall|k: int| 0 <= k < taken@.len() ==> (#[trigger] taken@[k]).wf(),
            forall|k: int| 0 <= k < j ==> !(#[trigger] taken@[k]).meets(*c),
        decreases taken@.len() - j,
    {
        if taken[j].overlaps(c) {
            return true;
        }
        j = j + 1;
    }
    false
}

/// The first block of prefix `event_netmask` in `pool` that overlaps neither an
/// existing event network nor a Docker network still present; `None` for a
/// prefix shorter than the pool's or longer than 32, or when every block is used.
pub fn pick_subnet(
    pool: &Ipv4Cidr,
    event_netmask: u8,
    existing: &[Ipv4Cidr],
    docker_subnets: &[Ipv4Cidr],
) -> (r: Option<Ipv4Cidr>)
    requires
        pool.wf(),
        forall|j: int| 0 <= j < existing@.len() ==> (#[trigger] existing@[j]).wf(),
        forall|j: int| 0 <= j < docker_subnets@.len() ==> (#[trigger] docker_subnets@[j]).wf(),
        pool.prefix_len <= event_netmask <= 32 ==> 0 < event_netmask && event_netmask - pool.prefix_len < 32,
    ensures
        !(pool.prefix_len <= event_netmask <= 32) ==> r is None,
        pool.prefix_len <= event_netmask <= 32 ==> match r {
            Some(c) => exists|k: nat|
                {
                    &&& k < pool_blocks(*pool, event_netmask as nat)
                    &&& c == #[trigger] pool_block(*pool, event_netmask as nat, k)
                    &&& !block_used(*pool, event_netmask as nat, k, existing@, docker_subnets@)
                    &&& forall|j: nat| j < k ==> #[trigger] block_used(*pool, event_netmask as nat, j, existing@, docker_subnets@)
                },
            None => forall|k: nat|
                k < pool_blocks(*pool, event_netmask as nat) ==> #[trigger] block_used(
                    *pool,
                    event_netmask as nat,
                    k,
                    existing@,
                    docker_subnets@,
                ),
        },
{
    if event_netmask < pool.prefix_len || event_netmask > 32 {
        return None;
    }
    let m = event_netmask;
    let count: u64 = 1u64 << ((m - pool.prefix_len) as u64);
    proof {
        vstd::bits::lemma_u64_pow2_no_overflow((m - pool.prefix_len) as nat);
        vstd::bits::lemma_u64_shl_is_mul(1, (m - pool.prefix_len) as u64);
    }
    let mut i: u64 = 0;
    while i < count
        invariant
            pool.wf(),
            pool.prefix_len <= m <= 32,
            m == event_netmask,
            count == pool_blocks(*pool, m as nat),
            i <= count,
            forall|j: int| 0 <= j < existing@.len() ==> (#[trigger] existing@[j]).wf(),
            forall|j: int| 0 <= j < docker_subnets@.len() ==> (#[trigger] docker_subnets@[j]).wf(),
            forall|j: nat| j < i ==> #[trigger] block_used(*pool, m as nat, j, existing@, docker_subnets@),
        decreases count - i,
    {
        let cand = pool.nth_subnet(m, i);
        proof {
            lemma_block_count(pool.prefix_len as nat, m as nat);
            assert(i * block_len(m as nat) < pool.size()) by (nonlinear_arith)
                requires
                    i < pow2((m - pool.prefix_len) as nat),
                    pool.size() == pow2((m - pool.prefix_len) as nat) * block_len(m as nat),
                    block_len(m as nat) >= 1,
            ;
        }
        let cand = cand.unwrap();
        assert(cand == pool_block(*pool, m as nat, i as nat));
        let used = any_meets(existing, &cand) || any_meets(docker_subnets, &cand);
        if !used {
            return Some(cand);
        }
        i = i + 1;
    }
    None
}

proof fn lemma_block_count(p: nat, m: nat)
    requires
        p <= m <= 32,
    ensures
        block_len(p) == pow2((m - p) as nat) * block_len(m),
        block_len(m) >= 1,
{
    lemma_pow2_adds((32 - m) as nat, (m - p) as nat);
    lemma_pow2_pos((32 - m) as nat);
    vstd::arithmetic::mul::lemma_mul_is_commutative(pow2((32 - m) as nat) as int, pow2((m - p) as nat) as int);
}

/// The upper half of a block (e.g. a /24 gives its `.128/25`): where instances
/// get dynamic addresses.
pub fn dynamic_pool_for(subnet: &Ipv4Cidr) -> (pool: Ipv4Cidr)
    requires
        subnet.wf(),
        subnet.prefix_len < 32,
    ensures
        pool.prefix_len == subnet.prefix_len + 1,
        pool.network == subnet.network + block_len((subnet.prefix_len + 1) as nat),
        pool.wf(),
{
    let half = block_size(subnet.prefix_len + 1);
    let r = subnet.nth_subnet(subnet.prefix_len + 1, 1);
    proof {
        lemma_block_count(subnet.prefix_len as nat, (subnet.prefix_len + 1) as nat);
        vstd::arithmetic::power2::lemma2_to64();
    }
    r.unwrap()
}

/// Fixed JudgeServer address of a block: the third address (network + 2,
/// after the gateway), or the network address of a block too small for it.
pub fn judge_ip_for(subnet: &Ipv4Cidr) -> (ip: Ipv4Cidr)
    requires
        subnet.wf(),
    ensures
        ip.prefix_len == 32,
        ip.network == if 2 < subnet.size() { subnet.network + 2 } else { subnet.network as int },
{
    let size = block_size(subnet.prefix_len);
    proof {
        crate::cidr::lemma_block_fits(subnet.network as nat, subnet.prefix_len as nat);
    }
    let ip = if 2 < size {
        (subnet.network as u64 + 2) as u32
    } else {
        subnet.network
    };
    Ipv4Cidr { network: ip, prefix_len: 32 }
}

/// The JudgeServer address lies inside its block but outside the block's
/// dynamic pool (for blocks of prefix at most 29; a /30 puts it at the pool's
/// first address).
pub proof fn law_judge_outside_dynamic_pool(subnet: Ipv4Cidr)
    requires
        subnet.wf(),
        subnet.prefix_len <= 29,
    ensures
        subnet.has(subnet.network + 2),
        subnet.network + 2 < subnet.network + block_len((subnet.prefix_len + 1) as nat),
{
    let p = subnet.prefix_len as nat;
    lemma_block_count(p, p + 1);
    lemma_pow2_adds(2, (32 - p - 3) as nat);
    lemma_pow2_pos((32 - p - 3) as nat);
    vstd::arithmetic::power2::lemma2_to64();
    assert(block_len(p + 1) >= 4) by (nonlinear_arith)
        requires
            block_len(p + 1) == pow2(2) * pow2((32 - p - 3) as nat),
            pow2(2) == 4,
            pow2((32 - p - 3) as nat) >= 1,
    ;
}

/// Status of an allocated event network whose Docker network is not created yet.
pub const STATUS_ALLOCATED: &'static str = "allocated";
/// Status once its Docker network exists.
pub const STATUS_DEPLOYED: &'static str = "deployed";
/// Status once it was cleaned up (the block returns to the pool).
pub const STATUS_RELEASED: &'static str = "released";

/// The block picked for a new event network; none left is an internal error.
pub fn allocation_block(picked: Option<Ipv4Cidr>) -> (r: Result<Ipv4Cidr, AwdpError>)
    ensures
        match picked {
            Some(c) => r == Ok::<Ipv4Cidr, AwdpError>(c),
            None => r matches Err(AwdpError::Internal(m)) && m@ == "awdp event network pool exhausted"@,
        },
{
    match picked {
        Some(c) => Ok(c),
        None => Err(AwdpError::Internal(owned("awdp event network pool exhausted"))),
    }
}

/// A failed network insert that lost a concurrent allocation: the winner is read back.
pub fn network_insert_raced(text: &str) -> (b: bool)
    ensures
        b == has_substring(text@, "duplicate key"@),
{
    contains_text(text, "duplicate key")
}

} // verus!

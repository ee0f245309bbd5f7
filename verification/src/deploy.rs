//! Deployment planning of an AWD event: resource names, the per-team /24
//! address plan, where each game box sits in its team subnet, the service
//! containers' environment, the WireGuard server address and the generated
//! SSH passwords.

use vstd::prelude::*;

use crate::cidr::{block_len, cidr_parse_spec, ipv4_text, ipv4_to_string, Ipv4Cidr};
use crate::error::AwdError;
use crate::judge::GameboxStatus;
use crate::text::{cat, dec, from_chars, hex128, owned, sub_chars, to_chars, u64_decimal, uuid_string, uuid_text};

verus! {

/// The first `n` characters of an id's hyphenated text (`n <= 8`: hex digits only).
pub open spec fn id_head(id: u128, n: int) -> Seq<char> {
    hex128(id).subrange(0, n)
}

fn uuid_head(id: u128, n: usize) -> (s: String)
    requires
        n <= 8,
    ensures
        s@ == id_head(id, n as int),
        s@ == uuid_text(id).subrange(0, n as int),
{
    let t = uuid_string(id);
    let cs = to_chars(t.as_str());
    let head = sub_chars(cs.as_slice(), 0, n);
    assert(head@ =~= hex128(id).subrange(0, n as int));
    from_chars(head.as_slice())
}

/// Name of an event's service container: `fctf-{kind}-{first 8 hex digits}`.
pub fn infra_container_name(kind: &str, event_id: u128) -> (s: String)
    ensures
        s@ == "fctf-"@ + kind@ + "-"@ + id_head(event_id, 8),
{
    let h = uuid_head(event_id, 8);
    cat(cat(cat(owned("fctf-"), kind), "-"), h.as_str())
}

/// Name of a team's game-box container:
/// `fctf-{event 8}-t{template 4}-team{team 4}` (leading hex digits of each id).
pub fn gamebox_container_name(event_id: u128, template_id: u128, team_id: u128) -> (s: String)
    ensures
        s@ == "fctf-"@ + id_head(event_id, 8) + "-t"@ + id_head(template_id, 4) + "-team"@ + id_head(team_id, 4),
{
    let e = uuid_head(event_id, 8);
    let t = uuid_head(template_id, 4);
    let m = uuid_head(team_id, 4);
    let s = cat(cat(owned("fctf-"), e.as_str()), "-t");
    cat(cat(cat(s, t.as_str()), "-team"), m.as_str())
}

/// The event's Docker network name: the stored one, else `fctf-awd-{first 8 hex digits}`.
pub fn docker_network_name(stored: Option<&str>, event_id: u128) -> (s: String)
    ensures
        stored matches Some(n) ==> s@ == n@,
        stored is None ==> s@ == "fctf-awd-"@ + id_head(event_id, 8),
{
    match stored {
        Some(n) => owned(n),
        None => {
            let h = uuid_head(event_id, 8);
            cat(owned("fctf-awd-"), h.as_str())
        },
    }
}

/// The stored Docker network is kept only when both its id and name are
/// recorded and the runtime still reports it.
pub fn reuse_docker_network(has_id: bool, has_name: bool, still_exists: bool) -> (b: bool)
    ensures
        b == (has_id && has_name && still_exists),
{
    has_id && has_name && still_exists
}

/// A service container is (re)created unless it is both recorded and running.
pub fn infra_needs_create(recorded: bool, running: bool) -> (b: bool)
    ensures
        b == !(recorded && running),
{
    !(recorded && running)
}

/// A service container needs its internal token: both the sealed bytes and
/// the nonce must be stored, else the deploy stops with `InvalidState`.
pub fn require_token_parts(kind: &str, has_ciphertext: bool, has_nonce: bool) -> (r: Result<(), AwdError>)
    ensures
        (has_ciphertext && has_nonce) <==> r is Ok,
        r matches Err(e) ==> e matches AwdError::InvalidState(m) && m@ == kind@ + " token not configured"@,
{
    if has_ciphertext && has_nonce {
        Ok(())
    } else {
        Err(AwdError::InvalidState(cat(owned(kind), " token not configured")))
    }
}

/// Environment of a service container: its event, its internal token and the listen address.
pub open spec fn infra_env(event_id: u128, token: Seq<char>) -> Seq<Seq<char>> {
    seq!["EVENT_ID="@ + uuid_text(event_id), "INTERNAL_TOKEN="@ + token, "LISTEN_ADDR=0.0.0.0:8080"@]
}

/// The environment lines of a service container.
pub fn infra_container_env(event_id: u128, token: &str) -> (v: Vec<String>)
    ensures
        v@.map_values(|s: String| s@) == infra_env(event_id, token@),
{
    let id = uuid_string(event_id);
    let mut v: Vec<String> = Vec::new();
    v.push(cat(owned("EVENT_ID="), id.as_str()));
    v.push(cat(owned("INTERNAL_TOKEN="), token));
    v.push(owned("LISTEN_ADDR=0.0.0.0:8080"));
    assert(v@.map_values(|s: String| s@) =~= infra_env(event_id, token@));
    v
}

/// CPU share (millicores) of a service container.
pub const INFRA_CPU_MILLIS: i64 = 500;
/// Memory limit of a service container: 256 MiB.
pub const INFRA_MEMORY_BYTES: i64 = 268435456;

/// `extra_hosts` of a game box: the flag and judge servers by name.
pub fn gamebox_extra_hosts(flagserver_ip: u32, judgeserver_ip: u32) -> (v: Vec<String>)
    ensures
        v@.map_values(|s: String| s@) == seq!["flagserver:"@ + ipv4_text(flagserver_ip), "judgeserver:"@ + ipv4_text(judgeserver_ip)],
{
    let f = ipv4_to_string(flagserver_ip);
    let j = ipv4_to_string(judgeserver_ip);
    let mut v: Vec<String> = Vec::new();
    v.push(cat(owned("flagserver:"), f.as_str()));
    v.push(cat(owned("judgeserver:"), j.as_str()));
    assert(v@.map_values(|s: String| s@) =~= seq!["flagserver:"@ + ipv4_text(flagserver_ip), "judgeserver:"@ + ipv4_text(judgeserver_ip)]);
    v
}

/// A recorded game-box instance is left alone when it has a container and
/// is ready, running or being created; otherwise its container is (re)built.
pub fn instance_needs_create(has_container: bool, status: GameboxStatus) -> (b: bool)
    ensures
        b == !(has_container && (status == GameboxStatus::Ready || status == GameboxStatus::Running
            || status == GameboxStatus::Creating)),
{
    !(has_container && matches!(status, GameboxStatus::Ready | GameboxStatus::Running | GameboxStatus::Creating))
}

/// The `k`-th /24 of a block (in address order).
pub open spec fn slash24(c: Ipv4Cidr, k: nat) -> Ipv4Cidr {
    Ipv4Cidr { network: (c.network + k * 256) as u32, prefix_len: 24 }
}

/// Number of /24 blocks in a block that can be cut into /24s (prefix at most 24).
pub open spec fn slash24_count(c: Ipv4Cidr) -> nat {
    vstd::arithmetic::power2::pow2((24 - c.prefix_len) as nat)
}

/// The address plan of a deploy: team `i` (in team order) gets the `i`-th
/// /24 of the game-box CIDR and the `i`-th /24 of the WireGuard CIDR.
pub open spec fn team_plan(gb: Ipv4Cidr, wg: Ipv4Cidr, n: nat) -> Seq<(Ipv4Cidr, Ipv4Cidr)> {
    Seq::new(n, |i: int| (slash24(gb, i as nat), slash24(wg, i as nat)))
}

proof fn lemma_block_len_24()
    ensures
        block_len(24) == 256,
{
    vstd::arithmetic::power2::lemma2_to64();
}

proof fn lemma_slash24_count(c: Ipv4Cidr)
    requires
        c.prefix_len <= 24,
    ensures
        c.size() == 256 * slash24_count(c),
{
    vstd::arithmetic::power2::lemma2_to64();
    vstd::arithmetic::power2::lemma_pow2_adds(8, (24 - c.prefix_len) as nat);
    assert((8 + (24 - c.prefix_len)) as nat == (32 - c.prefix_len) as nat);
}

/// Address plan of a deploy: both CIDRs must be cut into /24s (a prefix of
/// at most 24) and hold one /24 per team.
pub fn plan_team_subnets(gamebox_cidr: &Ipv4Cidr, wireguard_cidr: &Ipv4Cidr, team_count: usize) -> (r: Result<Vec<(Ipv4Cidr, Ipv4Cidr)>, AwdError>)
    requires
        gamebox_cidr.wf(),
        wireguard_cidr.wf(),
    ensures
        (gamebox_cidr.prefix_len <= 24 && wireguard_cidr.prefix_len <= 24
            && team_count <= slash24_count(*gamebox_cidr) && team_count <= slash24_count(*wireguard_cidr)) <==> r is Ok,
        r matches Ok(plan) ==> plan@ == team_plan(*gamebox_cidr, *wireguard_cidr, team_count as nat),
        gamebox_cidr.prefix_len > 24 ==> (r matches Err(AwdError::Validation(m))
            && m@ == "gamebox_cidr must be broader than /24"@),
        gamebox_cidr.prefix_len <= 24 && wireguard_cidr.prefix_len > 24 ==> (r matches Err(AwdError::Validation(m))
            && m@ == "wireguard_cidr must be broader than /24"@),
        gamebox_cidr.prefix_len <= 24 && wireguard_cidr.prefix_len <= 24 && r is Err ==> (r matches Err(AwdError::Network(m))
            && m@ == (if slash24_count(*gamebox_cidr) <= slash24_count(*wireguard_cidr) {
                "Insufficient gamebox /24s for team index "@ + dec(slash24_count(*gamebox_cidr))
            } else {
                "Insufficient wireguard /24s for team index "@ + dec(slash24_count(*wireguard_cidr))
            })),
{
    proof {
        lemma_block_len_24();
    }
    if gamebox_cidr.prefix_len > 24 {
        return Err(AwdError::Validation(owned("gamebox_cidr must be broader than /24")));
    }
    if wireguard_cidr.prefix_len > 24 {
        return Err(AwdError::Validation(owned("wireguard_cidr must be broader than /24")));
    }
    proof {
        lemma_slash24_count(*gamebox_cidr);
        lemma_slash24_count(*wireguard_cidr);
    }
    let mut plan: Vec<(Ipv4Cidr, Ipv4Cidr)> = Vec::new();
    let mut i: usize = 0;
    while i < team_count
        invariant
            gamebox_cidr.wf(),
            wireguard_cidr.wf(),
            gamebox_cidr.prefix_len <= 24,
            wireguard_cidr.prefix_len <= 24,
            block_len(24) == 256,
            gamebox_cidr.size() == 256 * slash24_count(*gamebox_cidr),
            wireguard_cidr.size() == 256 * slash24_count(*wireguard_cidr),
            i <= team_count,
            i <= slash24_count(*gamebox_cidr),
            i <= slash24_count(*wireguard_cidr),
            plan@ == team_plan(*gamebox_cidr, *wireguard_cidr, i as nat),
        decreases team_count - i,
    {
        let g = gamebox_cidr.nth_subnet(24, i as u64);
        let w = wireguard_cidr.nth_subnet(24, i as u64);
        match (g, w) {
            (Some(gn), Some(wn)) => {
                plan.push((gn, wn));
                proof {
                    assert(plan@ =~= team_plan(*gamebox_cidr, *wireguard_cidr, (i + 1) as nat));
                }
            },
            (None, _) => {
                let idx = u64_decimal(i as u64);
                return Err(AwdError::Network(cat(owned("Insufficient gamebox /24s for team index "), idx.as_str())));
            },
            (_, None) => {
                let idx = u64_decimal(i as u64);
                return Err(AwdError::Network(cat(owned("Insufficient wireguard /24s for team index "), idx.as_str())));
            },
        }
        i = i + 1;
    }
    Ok(plan)
}


/// Law: in a deploy's address plan no two teams share an address (neither in
/// the game-box nor in the WireGuard range), and every team /24 lies inside
/// the event's CIDR.
pub proof fn law_team_subnets_disjoint(gb: Ipv4Cidr, wg: Ipv4Cidr, n: nat, i: int, j: int)
    requires
        gb.wf(),
        wg.wf(),
        gb.prefix_len <= 24,
        wg.prefix_len <= 24,
        n <= slash24_count(gb),
        n <= slash24_count(wg),
        0 <= i < n,
        0 <= j < n,
        i != j,
    ensures
        !team_plan(gb, wg, n)[i].0.meets(team_plan(gb, wg, n)[j].0),
        !team_plan(gb, wg, n)[i].1.meets(team_plan(gb, wg, n)[j].1),
        gb.network <= team_plan(gb, wg, n)[i].0.network,
        team_plan(gb, wg, n)[i].0.network + 256 <= gb.network + gb.size(),
        wg.network <= team_plan(gb, wg, n)[i].1.network,
        team_plan(gb, wg, n)[i].1.network + 256 <= wg.network + wg.size(),
{
    lemma_block_len_24();
    lemma_slash24_count(gb);
    lemma_slash24_count(wg);
    crate::cidr::lemma_block_fits(gb.network as nat, gb.prefix_len as nat);
    crate::cidr::lemma_block_fits(wg.network as nat, wg.prefix_len as nat);
    assert(i * 256 + 256 <= gb.size());
    assert(j * 256 + 256 <= gb.size());
    assert(i * 256 + 256 <= wg.size());
    assert(j * 256 + 256 <= wg.size());
}


/// `rand::Rng::gen_range(0..bound)` on the thread-local generator: some
/// index below `bound` (which one is left to chance).
#[verifier::external_body]
fn random_below(bound: usize) -> (r: usize)
    requires
        bound > 0,
    ensures
        r < bound,
{
    rand::Rng::gen_range(&mut rand::thread_rng(), 0..bound)
}

/// Characters of generated SSH passwords (no look-alike characters).
pub const PASSWORD_CHARSET: &'static str = "ABCDEFGHJKLMNPQRSTUVWXYZabcdefghijkmnopqrstuvwxyz23456789";

/// The password spelled by indices into [`PASSWORD_CHARSET`].
pub fn password_from_indices(idx: &[usize]) -> (p: String)
    requires
        forall|i: int| 0 <= i < idx@.len() ==> #[trigger] idx@[i] < PASSWORD_CHARSET@.len(),
    ensures
        p@.len() == idx@.len(),
        forall|i: int| 0 <= i < idx@.len() ==> #[trigger] p@[i] == PASSWORD_CHARSET@[idx@[i] as int],
{
    let cs = to_chars(PASSWORD_CHARSET);
    let mut out: Vec<char> = Vec::new();
    let mut i: usize = 0;
    while i < idx.len()
        invariant
            cs@ == PASSWORD_CHARSET@,
            forall|k: int| 0 <= k < idx@.len() ==> #[trigger] idx@[k] < PASSWORD_CHARSET@.len(),
            i <= idx@.len(),
            out@.len() == i,
            forall|k: int| 0 <= k < i ==> #[trigger] out@[k] == PASSWORD_CHARSET@[idx@[k] as int],
        decreases idx@.len() - i,
    {
        let k = idx[i];
        assert(k < PASSWORD_CHARSET@.len());
        out.push(cs[k]);
        i = i + 1;
    }
    from_chars(out.as_slice())
}

/// A random SSH password of `len` characters, each drawn from [`PASSWORD_CHARSET`].
pub fn random_password(len: usize) -> (p: String)
    ensures
        p@.len() == len,
        forall|i: int| 0 <= i < len ==> PASSWORD_CHARSET@.contains(#[trigger] p@[i]),
{
    proof {
        reveal_strlit("ABCDEFGHJKLMNPQRSTUVWXYZabcdefghijkmnopqrstuvwxyz23456789");
    }
    let n: usize = 57;
    assert(PASSWORD_CHARSET@.len() == n);
    let mut idx: Vec<usize> = Vec::new();
    let mut i: usize = 0;
    while i < len
        invariant
            PASSWORD_CHARSET@.len() == n,
            n == 57,
            i <= len,
            idx@.len() == i,
            forall|k: int| 0 <= k < i ==> #[trigger] idx@[k] < PASSWORD_CHARSET@.len(),
        decreases len - i,
    {
        idx.push(random_below(n));
        i = i + 1;
    }
    let p = password_from_indices(idx.as_slice());
    assert forall|i: int| 0 <= i < len implies PASSWORD_CHARSET@.contains(#[trigger] p@[i]) by {
        assert(p@[i] == PASSWORD_CHARSET@[idx@[i] as int]);
    }
    p
}

/// The field after the first `/` (up to the next `/`), as `split('/').nth(1)` gives it.
pub open spec fn second_field(s: Seq<char>) -> Option<Seq<char>> {
    match crate::cidr::first_index_of(s, '/') {
        None => None,
        Some(i) => {
            let rest = s.subrange(i + 1, s.len() as int);
            match crate::cidr::first_index_of(rest, '/') {
                None => Some(rest),
                Some(j) => Some(rest.subrange(0, j)),
            }
        },
    }
}

/// Address of the WireGuard server interface: the first host of the
/// WireGuard CIDR (`10.1.0.1` when there is none), with the CIDR's prefix
/// text (`16` when there is none).
pub open spec fn server_address_text(wireguard_cidr: Seq<char>) -> Seq<char> {
    let host = match cidr_parse_spec(wireguard_cidr) {
        Some(c) => if 2 < c.size() { ipv4_text((c.network + 1) as u32) } else { "10.1.0.1"@ },
        None => "10.1.0.1"@,
    };
    let prefix = match second_field(wireguard_cidr) {
        Some(p) => p,
        None => "16"@,
    };
    host + "/"@ + prefix
}

/// The WireGuard server interface address of an event.
pub fn wireguard_server_address(wireguard_cidr: &str) -> (s: String)
    ensures
        s@ == server_address_text(wireguard_cidr@),
{
    let host = match Ipv4Cidr::parse(wireguard_cidr) {
        Ok(c) => match c.nth_host(0) {
            Some(ip) => ipv4_to_string(ip),
            None => owned("10.1.0.1"),
        },
        Err(_) => owned("10.1.0.1"),
    };
    let cs = to_chars(wireguard_cidr);
    let n = cs.len();
    let prefix = match crate::cidr::find_char(cs.as_slice(), '/') {
        None => {
            assert(crate::cidr::first_index_of(wireguard_cidr@, '/') is None);
            owned("16")
        },
        Some(i) => {
            assert(crate::cidr::first_index_of(wireguard_cidr@, '/') == Some(i as int));
            let rest = sub_chars(cs.as_slice(), i + 1, n);
            match crate::cidr::find_char(rest.as_slice(), '/') {
                None => {
                    assert(crate::cidr::first_index_of(rest@, '/') is None);
                    from_chars(rest.as_slice())
                },
                Some(j) => {
                    assert(crate::cidr::first_index_of(rest@, '/') == Some(j as int));
                    from_chars(sub_chars(rest.as_slice(), 0, j).as_slice())
                },
            }
        },
    };
    cat(cat(host, "/"), prefix.as_str())
}


/// Address of a team's game box for the template at `template_index` (in
/// template order): host `template_index + 1` of the team subnet (the first
/// host is left free); `Network` when the subnet has no such host.
pub fn gamebox_host_ip(team_subnet: &Ipv4Cidr, template_index: u32) -> (r: Result<u32, AwdError>)
    requires
        team_subnet.wf(),
        template_index < u32::MAX,
    ensures
        1 + (template_index + 1) + 1 < team_subnet.size() ==> r == Ok::<u32, AwdError>((team_subnet.network + 2 + template_index) as u32),
        1 + (template_index + 1) + 1 >= team_subnet.size() ==> (r matches Err(AwdError::Network(m)) && m@ == "no host IP in team subnet"@),
{
    match team_subnet.nth_host(template_index + 1) {
        Some(ip) => Ok(ip),
        None => Err(AwdError::Network(owned("no host IP in team subnet"))),
    }
}

} // verus!

//! WireGuard peers of an AWD event: the client configuration handed to a
//! player and the allocation of peer addresses in a team's WireGuard subnet.

use vstd::prelude::*;

use crate::cidr::{ipv4_text, ipv4_to_string, Ipv4Cidr};
use crate::error::AwdError;
use crate::text::{cat, dec, owned, u64_decimal};

verus! {

/// The client configuration file of a WireGuard peer.
pub open spec fn client_config_text(
    peer_ip: Seq<char>,
    peer_private_key: Seq<char>,
    server_public_key: Seq<char>,
    server_endpoint: Seq<char>,
    server_port: u16,
    gamebox_cidr: Seq<char>,
    team_wg_subnet: Seq<char>,
) -> Seq<char> {
    "[Interface]\nAddress = "@ + peer_ip + "/32\nPrivateKey = "@ + peer_private_key
        + "\n\n[Peer]\nPublicKey = "@ + server_public_key + "\nEndpoint = "@ + server_endpoint + ":"@
        + dec(server_port as nat) + "\nAllowedIPs = "@ + gamebox_cidr + ", "@ + team_wg_subnet
        + "\nPersistentKeepalive = 25\n"@
}

/// The WireGuard client configuration of a peer: its /32 address and key,
/// the server's key and endpoint, routes to the game-box range and the team's
/// WireGuard subnet, and a 25 s keepalive.
pub fn build_client_config(
    peer_ip: &str,
    peer_private_key: &str,
    server_public_key: &str,
    server_endpoint: &str,
    server_port: u16,
    gamebox_cidr: &str,
    team_wg_subnet: &str,
) -> (s: String)
    ensures
        s@ == client_config_text(peer_ip@, peer_private_key@, server_public_key@, server_endpoint@, server_port,
            gamebox_cidr@, team_wg_subnet@),
{
    let port = u64_decimal(server_port as u64);
    let s = cat(owned("[Interface]\nAddress = "), peer_ip);
    let s = cat(cat(s, "/32\nPrivateKey = "), peer_private_key);
    let s = cat(cat(s, "\n\n[Peer]\nPublicKey = "), server_public_key);
    let s = cat(cat(s, "\nEndpoint = "), server_endpoint);
    let s = cat(cat(s, ":"), port.as_str());
    let s = cat(cat(s, "\nAllowedIPs = "), gamebox_cidr);
    let s = cat(cat(s, ", "), team_wg_subnet);
    cat(s, "\nPersistentKeepalive = 25\n")
}

/// `{:?}` of a block: `Ipv4Cidr { network: a.b.c.d, prefix_len: p }`.
pub open spec fn cidr_debug(c: Ipv4Cidr) -> Seq<char> {
    "Ipv4Cidr { network: "@ + ipv4_text(c.network) + ", prefix_len: "@ + dec(c.prefix_len as nat) + " }"@
}

/// Next peer address of a team: host `next_host` of its WireGuard subnet as
/// a /32, with the following host index; `Network` once the subnet is used up.
pub fn allocate_peer_ip(wireguard_subnet: &Ipv4Cidr, next_host: u32) -> (r: Result<(String, u32), AwdError>)
    requires
        wireguard_subnet.wf(),
    ensures
        (1 + next_host + 1 < wireguard_subnet.size()) <==> r is Ok,
        r matches Ok((ip, next)) ==> ip@ == ipv4_text((wireguard_subnet.network + 1 + next_host) as u32) + "/32"@
            && next == next_host + 1,
        r matches Err(e) ==> e matches AwdError::Network(m) && m@ == "WireGuard subnet "@ + cidr_debug(*wireguard_subnet)
            + " exhausted at host index "@ + dec(next_host as nat),
{
    match wireguard_subnet.nth_host(next_host) {
        Some(ip) => {
            proof {
                crate::cidr::lemma_block_fits(wireguard_subnet.network as nat, wireguard_subnet.prefix_len as nat);
            }
            let t = ipv4_to_string(ip);
            Ok((cat(t, "/32"), next_host + 1))
        },
        None => {
            let net = ipv4_to_string(wireguard_subnet.network);
            let p = u64_decimal(wireguard_subnet.prefix_len as u64);
            let n = u64_decimal(next_host as u64);
            let m = cat(cat(owned("WireGuard subnet "), "Ipv4Cidr { network: "), net.as_str());
            let m = cat(cat(cat(m, ", prefix_len: "), p.as_str()), " }");
            let m = cat(cat(m, " exhausted at host index "), n.as_str());
            Err(AwdError::Network(m))
        },
    }
}


/// A new peer of a team: its /32 address from the team's stored WireGuard
/// subnet and host counter, with the counter's next value (`Validation` when
/// the stored subnet does not parse, `Network` when it is used up).
pub fn allocate_team_peer_ip(wireguard_subnet: &str, next_wireguard_host: i32) -> (r: Result<(String, i32), AwdError>)
    ensures
        match crate::cidr::cidr_parse_spec(wireguard_subnet@) {
            None => r matches Err(AwdError::Validation(m)) && m@ == "invalid CIDR: "@ + wireguard_subnet@,
            Some(c) => {
                let n = next_wireguard_host as u32;
                if 1 + n + 1 < c.size() {
                    r matches Ok((ip, next)) && ip@ == ipv4_text((c.network + 1 + n) as u32) + "/32"@ && next == (n + 1) as i32
                } else {
                    r matches Err(AwdError::Network(m)) && m@ == "WireGuard subnet "@ + cidr_debug(c)
                        + " exhausted at host index "@ + dec(n as nat)
                }
            },
        },
{
    let subnet = match Ipv4Cidr::parse(wireguard_subnet) {
        Ok(c) => c,
        Err(e) => return Err(AwdError::Validation(e)),
    };
    #[verifier::truncate]
    let n = next_wireguard_host as u32;
    let (ip, next) = allocate_peer_ip(&subnet, n)?;
    #[verifier::truncate]
    let next_i = next as i32;
    Ok((ip, next_i))
}

/// An existing peer of the user is handed out again only while it is active.
pub fn reuse_existing_peer(existing_active: Option<bool>) -> (b: bool)
    ensures
        b == (existing_active == Some(true)),
{
    match existing_active {
        Some(active) => active,
        None => false,
    }
}

} // verus!

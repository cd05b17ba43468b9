//! Checks that the service makes before it stores peers and keypairs.
use vstd::prelude::*;

use crate::ipv4::{
    in_network, ipv4_text, lemma_canonical_address, network_address, Ipv4Address,
};

verus! {

/// `ipaddress::IPAddress::parse` of the text `"{address}/{prefix}"`, then `network()` and
/// `to_s()`. In the crate's source (0.1.3) such a text, with `prefix` written as a
/// decimal number, parses exactly when `prefix` lies in `0..=32`; `network()` shifts the
/// host bits out and back in, which clears them; `to_s()` writes the four octets in
/// decimal, joined by dots. The contract claims that text, and failure for other
/// prefixes.
#[verifier::external_body]
fn network_text_of(address: Ipv4Address, prefix: i32) -> (r: Option<String>)
    ensures
        r is Some <==> 0 <= prefix <= 32,
        r matches Some(t) ==> t@ == ipv4_text(network_address(address, prefix as int)),
{
    let cidr = format!("{}.{}.{}.{}/{}", address.0, address.1, address.2, address.3, prefix);
    match ipaddress::IPAddress::parse(cidr) {
        Ok(ip) => Some(ip.network().to_s()),
        Err(_) => None,
    }
}

/// Validates if an ip address is in the given network or not: whether clearing the
/// host bits of `ip_address` under the prefix `subnetmask` (CIDR format) gives exactly
/// `ip_network`.
pub fn is_ip_in_network(ip_network: Ipv4Address, subnetmask: i32, ip_address: Ipv4Address) -> (r:
    bool)
    requires
        0 <= subnetmask <= 32,
    ensures
        r == in_network(ip_network, subnetmask as int, ip_address),
{
    match network_text_of(ip_address, subnetmask) {
        Some(text) => {
            let network = Ipv4Address::parse(text.as_str());
            proof {
                lemma_canonical_address(text@, network_address(ip_address, subnetmask as int));
            }
            match network {
                Some(n) => n == ip_network,
                None => false,
            }
        },
        None => false,
    }
}

/// Whether `ids` holds `id`.
pub fn contains_id(ids: &Vec<i32>, id: i32) -> (r: bool)
    ensures
        r == ids@.contains(id),
{
    let mut i: usize = 0;
    while i < ids.len()
        invariant
            i <= ids.len(),
            forall|k: int| 0 <= k < i ==> ids@[k] != id,
        decreases ids.len() - i,
    {
        if ids[i] == id {
            assert(ids@[i as int] == id);
            return true;
        }
        i = i + 1;
    }
    false
}

/// Verifies if the given id of a `Keypair` is already used by another `Client` or
/// `Server`: whether it is among the keypair ids of the clients or of the servers.
pub fn is_keypair_used(client_keypair_ids: &Vec<i32>, server_keypair_ids: &Vec<i32>, keypair_id: i32) -> (r: bool)
    ensures
        r == (client_keypair_ids@.contains(keypair_id) || server_keypair_ids@.contains(
            keypair_id,
        )),
{
    contains_id(client_keypair_ids, keypair_id) || contains_id(server_keypair_ids, keypair_id)
}

} // verus!

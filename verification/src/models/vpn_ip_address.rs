//! Module that holds everything that is necessary for the `VpnIpAddress`
use vstd::prelude::*;

verus! {

/// A [`VpnIpAddress`] that is insertable into the database
#[derive(Debug)]
pub struct NewVpnIpAddress<'a> {
    pub vpn_network_id: i32,
    pub ip_address: &'a str,
}

/// A `VpnIpAddress` represents a unique ip address that is associated with a `VpnNetwork`
#[derive(Debug)]
pub struct VpnIpAddress {
    pub id: i32,
    pub vpn_network_id: i32,
    pub ip_address: String,
}

impl<'a> NewVpnIpAddress<'a> {
    /// The record that stores `ip_address` in the vpn network `vpn_network_id`.
    pub fn new(vpn_network_id: i32, ip_address: &'a str) -> (r: NewVpnIpAddress<'a>)
        ensures
            r.vpn_network_id == vpn_network_id,
            r.ip_address@ == ip_address@,
    {
        NewVpnIpAddress { vpn_network_id, ip_address }
    }
}

} // verus!

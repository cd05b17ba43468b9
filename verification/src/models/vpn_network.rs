//! Module that holds everything that is necessary for the `VpnNetwork`
use vstd::prelude::*;

use crate::text::{push_signed_decimal, signed_text};

verus! {

/// A vpn network as it is stored.
#[derive(Debug)]
pub struct VpnNetwork {
    /// The id
    pub id: i32,
    /// A unique name
    pub name: String,
    /// An optional description
    pub description: Option<String>,
    /// The ip_network that the object represents
    pub ip_network: String,
    /// The subnetmask of the ip_network in CIDR format
    pub subnetmask: i32,
    /// The port where the vpn server is listening on
    pub listen_port: i32,
    /// The name of the interface (e.g. wg0)
    pub interface_name: String,
}

/// A vpn network that is insertable into the database.
pub struct NewVpnNetwork<'a> {
    pub name: &'a str,
    pub description: Option<&'a str>,
    pub ip_network: &'a str,
    pub subnetmask: i32,
    pub listen_port: i32,
    pub interface_name: &'a str,
}

/// Input type for creating or updating a vpn network.
pub struct InputVpnNetwork {
    /// A unique name
    pub name: String,
    /// An optional description
    pub description: Option<String>,
    /// The ip_network that the object represents
    pub ip_network: String,
    /// The subnetmask of the ip_network in CIDR format (24 where the request gives none)
    pub subnetmask: i32,
    /// The port where the vpn server is listening on
    pub listen_port: i32,
    /// The name of the interface (e.g. wg0)
    pub interface_name: String,
}

/// The error of an update or a deletion whose record does not exist.
#[derive(Clone, Copy, Debug, PartialEq, Eq, Structural)]
pub enum RecordError {
    /// No dns server has the id.
    DnsServerNotFound(i32),
    /// No vpn network has the id.
    VpnNetworkNotFound(i32),
}

/// The text of the error that the service reports.
pub open spec fn record_error_message(e: RecordError) -> Seq<char> {
    match e {
        RecordError::DnsServerNotFound(id) => "DNS Server with id "@ + signed_text(id as int)
            + " not found"@,
        RecordError::VpnNetworkNotFound(id) => "VPN Network with id "@ + signed_text(id as int)
            + " not found"@,
    }
}

impl RecordError {
    /// The text of the error that the service reports, such as
    /// `VPN Network with id 4 not found`.
    pub fn message(&self) -> (r: String)
        ensures
            r@ == record_error_message(*self),
    {
        let (mut r, id) = match self {
            RecordError::DnsServerNotFound(id) => (String::from_str("DNS Server with id "), *id),
            RecordError::VpnNetworkNotFound(id) => (String::from_str("VPN Network with id "), *id),
        };
        push_signed_decimal(&mut r, id);
        r.append(" not found");
        r
    }
}

/// The optional text, borrowed.
pub fn borrow_optional(text: &Option<String>) -> (r: Option<&str>)
    ensures
        r is Some <==> text is Some,
        r matches Some(t) ==> t@ == text->0@,
{
    match text {
        Some(t) => Some(t.as_str()),
        None => None,
    }
}

/// A copy of the optional text.
pub fn clone_optional(text: &Option<String>) -> (r: Option<String>)
    ensures
        r == *text,
{
    match text {
        Some(t) => Some(t.clone()),
        None => None,
    }
}

impl<'a> NewVpnNetwork<'a> {
    /// The record that creating a vpn network from `vpn_network` inserts.
    pub fn from_input(vpn_network: &'a InputVpnNetwork) -> (r: NewVpnNetwork<'a>)
        ensures
            r.name@ == vpn_network.name@,
            r.description is Some <==> vpn_network.description is Some,
            r.description matches Some(d) ==> d@ == vpn_network.description->0@,
            r.ip_network@ == vpn_network.ip_network@,
            r.subnetmask == vpn_network.subnetmask,
            r.listen_port == vpn_network.listen_port,
            r.interface_name@ == vpn_network.interface_name@,
    {
        NewVpnNetwork {
            name: vpn_network.name.as_str(),
            description: borrow_optional(&vpn_network.description),
            ip_network: vpn_network.ip_network.as_str(),
            subnetmask: vpn_network.subnetmask,
            listen_port: vpn_network.listen_port,
            interface_name: vpn_network.interface_name.as_str(),
        }
    }
}

/// The vpn network that replaces `net` when it is updated with `vpn_network`: the id of
/// `net` with every other attribute taken from `vpn_network`.
pub open spec fn replaced_vpn_network(net: VpnNetwork, vpn_network: InputVpnNetwork) -> VpnNetwork {
    VpnNetwork {
        id: net.id,
        name: vpn_network.name,
        description: vpn_network.description,
        ip_network: vpn_network.ip_network,
        subnetmask: vpn_network.subnetmask,
        listen_port: vpn_network.listen_port,
        interface_name: vpn_network.interface_name,
    }
}

/// Updates a vpn network: given the stored network that `net_id` found (if any), the
/// record to write, or the error that no network has the id.
pub fn update_vpn_network(found: Option<VpnNetwork>, net_id: i32, vpn_network: &InputVpnNetwork) -> (r:
    Result<VpnNetwork, RecordError>)
    ensures
        found matches Some(net) ==> r == Ok::<VpnNetwork, RecordError>(
            replaced_vpn_network(net, *vpn_network),
        ),
        found is None ==> r == Err::<VpnNetwork, RecordError>(
            RecordError::VpnNetworkNotFound(net_id),
        ),
{
    match found {
        Some(net) => Ok(
            VpnNetwork {
                id: net.id,
                name: vpn_network.name.clone(),
                description: clone_optional(&vpn_network.description),
                ip_network: vpn_network.ip_network.clone(),
                subnetmask: vpn_network.subnetmask,
                listen_port: vpn_network.listen_port,
                interface_name: vpn_network.interface_name.clone(),
            },
        ),
        None => Err(RecordError::VpnNetworkNotFound(net_id)),
    }
}

/// Deletes a vpn network: given the stored network that `net_id` found (if any), the
/// network to delete, or the error that no network has the id.
pub fn delete_vpn_network(found: Option<VpnNetwork>, net_id: i32) -> (r: Result<
    VpnNetwork,
    RecordError,
>)
    ensures
        found matches Some(net) ==> r == Ok::<VpnNetwork, RecordError>(net),
        found is None ==> r == Err::<VpnNetwork, RecordError>(
            RecordError::VpnNetworkNotFound(net_id),
        ),
{
    match found {
        Some(net) => Ok(net),
        None => Err(RecordError::VpnNetworkNotFound(net_id)),
    }
}


/// An update writes the input's attributes as they are (a missing description clears
/// the stored one) and keeps the stored id.
pub proof fn lemma_replaced_vpn_network_fields(net: VpnNetwork, vpn_network: InputVpnNetwork)
    ensures
        replaced_vpn_network(net, vpn_network).id == net.id,
        replaced_vpn_network(net, vpn_network).name == vpn_network.name,
        replaced_vpn_network(net, vpn_network).description == vpn_network.description,
        replaced_vpn_network(net, vpn_network).ip_network == vpn_network.ip_network,
        replaced_vpn_network(net, vpn_network).subnetmask == vpn_network.subnetmask,
        replaced_vpn_network(net, vpn_network).listen_port == vpn_network.listen_port,
        replaced_vpn_network(net, vpn_network).interface_name == vpn_network.interface_name,
{
}

} // verus!

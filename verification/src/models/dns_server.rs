//! Module that holds everything that is necessary for the `DnsServer`
use vstd::prelude::*;

use crate::models::vpn_network::{borrow_optional, clone_optional, RecordError};

verus! {

/// A [`DnsServer`] that is insertable into the database
pub struct NewDnsServer<'a> {
    pub name: &'a str,
    pub description: Option<&'a str>,
    pub ip_address: &'a str,
}

/// Input type for creating a new DnsServer
pub struct InputDnsServer {
    pub name: String,
    pub description: Option<String>,
    pub ip_address: String,
}

/// A DnsServer that is used by the Client
#[derive(Debug)]
pub struct DnsServer {
    pub id: i32,
    pub name: String,
    pub description: Option<String>,
    pub ip_address: String,
}

/// The dns server that replaces `server` when it is updated with `dns_server`: the id of
/// `server` with every other attribute taken from `dns_server`.
pub open spec fn replaced_dns_server(server: DnsServer, dns_server: InputDnsServer) -> DnsServer {
    DnsServer {
        id: server.id,
        name: dns_server.name,
        description: dns_server.description,
        ip_address: dns_server.ip_address,
    }
}

impl<'a> NewDnsServer<'a> {
    /// The record that creating a [`DnsServer`] from `dns_server` inserts.
    pub fn from_input(dns_server: &'a InputDnsServer) -> (r: NewDnsServer<'a>)
        ensures
            r.name@ == dns_server.name@,
            r.description is Some <==> dns_server.description is Some,
            r.description matches Some(d) ==> d@ == dns_server.description->0@,
            r.ip_address@ == dns_server.ip_address@,
    {
        NewDnsServer {
            name: dns_server.name.as_str(),
            description: borrow_optional(&dns_server.description),
            ip_address: dns_server.ip_address.as_str(),
        }
    }
}

impl DnsServer {
    /// Updates a [`DnsServer`]: given the stored server that `server_id` found (if any),
    /// the record to write, or the error that no dns server has the id.
    pub fn update(found: Option<DnsServer>, server_id: i32, dns_server: &InputDnsServer) -> (r:
        Result<DnsServer, RecordError>)
        ensures
            found matches Some(server) ==> r == Ok::<DnsServer, RecordError>(
                replaced_dns_server(server, *dns_server),
            ),
            found is None ==> r == Err::<DnsServer, RecordError>(
                RecordError::DnsServerNotFound(server_id),
            ),
    {
        match found {
            Some(server) => Ok(
                DnsServer {
                    id: server.id,
                    name: dns_server.name.clone(),
                    description: clone_optional(&dns_server.description),
                    ip_address: dns_server.ip_address.clone(),
                },
            ),
            None => Err(RecordError::DnsServerNotFound(server_id)),
        }
    }

    /// Deletes the [`DnsServer`] with the given id: given the stored server that
    /// `server_id` found (if any), the server to delete, or the error that no dns server
    /// has the id.
    pub fn delete(found: Option<DnsServer>, server_id: i32) -> (r: Result<DnsServer, RecordError>)
        ensures
            found matches Some(server) ==> r == Ok::<DnsServer, RecordError>(server),
            found is None ==> r == Err::<DnsServer, RecordError>(
                RecordError::DnsServerNotFound(server_id),
            ),
    {
        match found {
            Some(server) => Ok(server),
            None => Err(RecordError::DnsServerNotFound(server_id)),
        }
    }
}


/// An update writes the input's attributes as they are (a missing description clears
/// the stored one) and keeps the stored id.
pub proof fn lemma_replaced_dns_server_fields(server: DnsServer, dns_server: InputDnsServer)
    ensures
        replaced_dns_server(server, dns_server).id == server.id,
        replaced_dns_server(server, dns_server).name == dns_server.name,
        replaced_dns_server(server, dns_server).description == dns_server.description,
        replaced_dns_server(server, dns_server).ip_address == dns_server.ip_address,
{
}

} // verus!

//! The registration of a new peer, a client or a server, as a state machine: each step
//! names the record to look up or to write, and the answer decides the next step. The
//! caller runs the lookups and writes against the database.
use vstd::prelude::*;

use crate::ipv4::{canonical_address, in_network, ipv4_text, Ipv4Address};
use crate::models::vpn_network::VpnNetwork;
use crate::text::{push_signed_decimal, signed_text};
use crate::validate::is_ip_in_network;

verus! {

/// Whether the new peer is a client or a server.
#[derive(Clone, Copy, Debug, PartialEq, Eq, Structural)]
pub enum PeerKind {
    Client,
    Server,
}

/// What the registration of a new peer checks and reserves.
pub struct PeerRequest {
    /// A client or a server.
    pub kind: PeerKind,
    /// The dns server that the peer uses (looked up for clients only).
    pub dns_server_id: i32,
    /// The keypair that the peer uses.
    pub keypair_id: i32,
    /// The vpn network that the peer joins.
    pub vpn_network_id: i32,
    /// The address of the peer in the vpn network.
    pub ip_address: String,
}

/// Where a registration stands.
#[derive(Clone, Copy, Debug, PartialEq, Eq, Structural)]
pub enum CreationStep {
    /// Waiting for the lookup of the dns server.
    DnsServerLookup,
    /// Waiting for the lookup of the keypair.
    KeypairLookup,
    /// Waiting for the lookup of the vpn network.
    VpnNetworkLookup,
    /// Waiting for the address to be stored.
    AddressReservation,
    /// Nothing more to do: the peer is to be inserted, or the registration failed.
    Finished,
}

/// The answer to the last action.
pub enum CreationEvent {
    /// Whether the dns server exists.
    DnsServerFound(bool),
    /// Whether the keypair exists.
    KeypairFound(bool),
    /// The vpn network, where it exists.
    VpnNetworkFound(Option<VpnNetwork>),
    /// The id of the stored address, or the text of the database's error.
    AddressReserved(Result<i32, String>),
}

/// Why a registration failed.
pub enum CreationError {
    /// No dns server has the id.
    DnsServerNotFound(i32),
    /// No keypair has the id.
    KeypairNotFound(i32),
    /// No vpn network has the id.
    VpnNetworkNotFound(i32),
    /// The address lies outside the network.
    AddressOutOfRange { ip_address: String, ip_network: String, subnetmask: i32 },
    /// The address could not be stored; the text of the database's error.
    AddressTaken { kind: PeerKind, cause: String },
}

/// What the caller is to do next.
pub enum CreationAction {
    /// Look up the dns server with the id.
    LookUpDnsServer(i32),
    /// Look up the keypair with the id.
    LookUpKeypair(i32),
    /// Look up the vpn network with the id.
    LookUpVpnNetwork(i32),
    /// Store the address in the vpn network.
    ReserveAddress { vpn_network_id: i32, ip_address: String },
    /// Insert the peer with the stored address.
    InsertPeer { vpn_ip_address_id: i32 },
    /// Give up with the error.
    Fail(CreationError),
}

/// The text of the error that the service reports.
pub open spec fn creation_error_message(e: CreationError) -> Seq<char> {
    match e {
        CreationError::DnsServerNotFound(id) => "DNS Server with id "@ + signed_text(id as int)
            + " not found for client"@,
        CreationError::KeypairNotFound(id) => "Keypair with id "@ + signed_text(id as int)
            + " not found for client"@,
        CreationError::VpnNetworkNotFound(id) => "VPN network with id "@ + signed_text(id as int)
            + " not found for client"@,
        CreationError::AddressOutOfRange { ip_address, ip_network, subnetmask } => "IP address "@
            + ip_address@ + " is not in range of network "@ + ip_network@ + "/"@ + signed_text(
            subnetmask as int,
        ),
        CreationError::AddressTaken { kind, cause } => "Could not create "@ + (match kind {
            PeerKind::Client => "client"@,
            PeerKind::Server => "server"@,
        }) + ". Maybe this IP address is already taken? (Error: "@ + cause@ + ")"@,
    }
}

impl CreationError {
    /// The text of the error that the service reports, such as
    /// `Keypair with id 3 not found for client`.
    pub fn message(&self) -> (r: String)
        ensures
            r@ == creation_error_message(*self),
    {
        match self {
            CreationError::DnsServerNotFound(id) => {
                let mut r = String::from_str("DNS Server with id ");
                push_signed_decimal(&mut r, *id);
                r.append(" not found for client");
                r
            },
            CreationError::KeypairNotFound(id) => {
                let mut r = String::from_str("Keypair with id ");
                push_signed_decimal(&mut r, *id);
                r.append(" not found for client");
                r
            },
            CreationError::VpnNetworkNotFound(id) => {
                let mut r = String::from_str("VPN network with id ");
                push_signed_decimal(&mut r, *id);
                r.append(" not found for client");
                r
            },
            CreationError::AddressOutOfRange { ip_address, ip_network, subnetmask } => {
                let mut r = String::from_str("IP address ");
                r.append(ip_address.as_str());
                r.append(" is not in range of network ");
                r.append(ip_network.as_str());
                r.append("/");
                push_signed_decimal(&mut r, *subnetmask);
                r
            },
            CreationError::AddressTaken { kind, cause } => {
                let mut r = String::from_str("Could not create ");
                match kind {
                    PeerKind::Client => r.append("client"),
                    PeerKind::Server => r.append("server"),
                }
                r.append(". Maybe this IP address is already taken? (Error: ");
                r.append(cause.as_str());
                r.append(")");
                r
            },
        }
    }
}

/// Whether the registration accepts `event` at `step`: the answer to the lookup or
/// write that the step waits for. A vpn network must hold a network address in
/// dotted-quad form and a prefix length in `0..=32`, and the requested address must be in
/// dotted-quad form: the service stops on anything else.
pub open spec fn accepts(req: PeerRequest, step: CreationStep, event: CreationEvent) -> bool {
    match (step, event) {
        (CreationStep::DnsServerLookup, CreationEvent::DnsServerFound(_)) => true,
        (CreationStep::KeypairLookup, CreationEvent::KeypairFound(_)) => true,
        (CreationStep::VpnNetworkLookup, CreationEvent::VpnNetworkFound(found)) => match found {
            Some(net) => {
                &&& canonical_address(net.ip_network@) is Some
                &&& 0 <= net.subnetmask <= 32
                &&& canonical_address(req.ip_address@) is Some
            },
            None => true,
        },
        (CreationStep::AddressReservation, CreationEvent::AddressReserved(_)) => true,
        _ => false,
    }
}

/// Whether the requested address lies in `net`.
pub open spec fn request_in_network(req: PeerRequest, net: VpnNetwork) -> bool {
    in_network(
        canonical_address(net.ip_network@)->0,
        net.subnetmask as int,
        canonical_address(req.ip_address@)->0,
    )
}

/// The first step and action of a registration.
pub open spec fn first_move(req: PeerRequest) -> (CreationStep, CreationAction) {
    match req.kind {
        PeerKind::Client => (
            CreationStep::DnsServerLookup,
            CreationAction::LookUpDnsServer(req.dns_server_id),
        ),
        PeerKind::Server => (CreationStep::KeypairLookup, CreationAction::LookUpKeypair(req.keypair_id)),
    }
}

/// The next step and action after `event` at `step` (where the registration accepts it):
/// a missing dns server, keypair or network, an address outside the network, or an
/// address that could not be stored ends the registration with its error; otherwise the
/// next lookup, the reservation of the address, or the insertion of the peer follows.
pub open spec fn next_move(req: PeerRequest, step: CreationStep, event: CreationEvent) -> (
    CreationStep,
    CreationAction,
) {
    match event {
        CreationEvent::DnsServerFound(true) => (
            CreationStep::KeypairLookup,
            CreationAction::LookUpKeypair(req.keypair_id),
        ),
        CreationEvent::DnsServerFound(false) => (
            CreationStep::Finished,
            CreationAction::Fail(CreationError::DnsServerNotFound(req.dns_server_id)),
        ),
        CreationEvent::KeypairFound(true) => (
            CreationStep::VpnNetworkLookup,
            CreationAction::LookUpVpnNetwork(req.vpn_network_id),
        ),
        CreationEvent::KeypairFound(false) => (
            CreationStep::Finished,
            CreationAction::Fail(CreationError::KeypairNotFound(req.keypair_id)),
        ),
        CreationEvent::VpnNetworkFound(Some(net)) => if request_in_network(req, net) {
            (
                CreationStep::AddressReservation,
                CreationAction::ReserveAddress {
                    vpn_network_id: req.vpn_network_id,
                    ip_address: req.ip_address,
                },
            )
        } else {
            (
                CreationStep::Finished,
                CreationAction::Fail(
                    CreationError::AddressOutOfRange {
                        ip_address: req.ip_address,
                        ip_network: net.ip_network,
                        subnetmask: net.subnetmask,
                    },
                ),
            )
        },
        CreationEvent::VpnNetworkFound(None) => (
            CreationStep::Finished,
            CreationAction::Fail(CreationError::VpnNetworkNotFound(req.vpn_network_id)),
        ),
        CreationEvent::AddressReserved(Ok(id)) => (
            CreationStep::Finished,
            CreationAction::InsertPeer { vpn_ip_address_id: id },
        ),
        CreationEvent::AddressReserved(Err(cause)) => (
            CreationStep::Finished,
            CreationAction::Fail(CreationError::AddressTaken { kind: req.kind, cause }),
        ),
    }
}

/// A registration in progress.
pub struct PeerCreation {
    pub request: PeerRequest,
    pub step: CreationStep,
}

impl PeerCreation {
    /// Starts the registration of `request`; the first action is the lookup of the dns
    /// server for a client, of the keypair for a server.
    pub fn start(request: PeerRequest) -> (r: (PeerCreation, CreationAction))
        ensures
            r.0.request == request,
            (r.0.step, r.1) == first_move(request),
    {
        match request.kind {
            PeerKind::Client => {
                let id = request.dns_server_id;
                (
                    PeerCreation { request, step: CreationStep::DnsServerLookup },
                    CreationAction::LookUpDnsServer(id),
                )
            },
            PeerKind::Server => {
                let id = request.keypair_id;
                (
                    PeerCreation { request, step: CreationStep::KeypairLookup },
                    CreationAction::LookUpKeypair(id),
                )
            },
        }
    }

    /// Whether the registration is over.
    pub fn is_finished(&self) -> (r: bool)
        ensures
            r == (self.step == CreationStep::Finished),
    {
        self.step == CreationStep::Finished
    }

    /// Takes the answer to the last action and gives the next action.
    pub fn advance(&mut self, event: CreationEvent) -> (r: CreationAction)
        requires
            accepts(old(self).request, old(self).step, event),
        ensures
            final(self).request == old(self).request,
            (final(self).step, r) == next_move(old(self).request, old(self).step, event),
    {
        match event {
            CreationEvent::DnsServerFound(found) => {
                if found {
                    self.step = CreationStep::KeypairLookup;
                    CreationAction::LookUpKeypair(self.request.keypair_id)
                } else {
                    self.step = CreationStep::Finished;
                    CreationAction::Fail(CreationError::DnsServerNotFound(self.request.dns_server_id))
                }
            },
            CreationEvent::KeypairFound(found) => {
                if found {
                    self.step = CreationStep::VpnNetworkLookup;
                    CreationAction::LookUpVpnNetwork(self.request.vpn_network_id)
                } else {
                    self.step = CreationStep::Finished;
                    CreationAction::Fail(CreationError::KeypairNotFound(self.request.keypair_id))
                }
            },
            CreationEvent::VpnNetworkFound(found) => match found {
                Some(net) => {
                    let network = Ipv4Address::parse(net.ip_network.as_str());
                    let address = Ipv4Address::parse(self.request.ip_address.as_str());
                    match (network, address) {
                        (Some(network), Some(address)) => {
                            if is_ip_in_network(network, net.subnetmask, address) {
                                self.step = CreationStep::AddressReservation;
                                CreationAction::ReserveAddress {
                                    vpn_network_id: self.request.vpn_network_id,
                                    ip_address: self.request.ip_address.clone(),
                                }
                            } else {
                                self.step = CreationStep::Finished;
                                CreationAction::Fail(
                                    CreationError::AddressOutOfRange {
                                        ip_address: self.request.ip_address.clone(),
                                        ip_network: net.ip_network,
                                        subnetmask: net.subnetmask,
                                    },
                                )
                            }
                        },
                        _ => {
                            // excluded by `accepts`
                            self.step = CreationStep::Finished;
                            CreationAction::Fail(
                                CreationError::VpnNetworkNotFound(self.request.vpn_network_id),
                            )
                        },
                    }
                },
                None => {
                    self.step = CreationStep::Finished;
                    CreationAction::Fail(CreationError::VpnNetworkNotFound(self.request.vpn_network_id))
                },
            },
            CreationEvent::AddressReserved(reserved) => match reserved {
                Ok(id) => {
                    self.step = CreationStep::Finished;
                    CreationAction::InsertPeer { vpn_ip_address_id: id }
                },
                Err(cause) => {
                    self.step = CreationStep::Finished;
                    CreationAction::Fail(CreationError::AddressTaken { kind: self.request.kind, cause })
                },
            },
        }
    }
}

/// The step and the last action after the answers `events`, from the start.
pub open spec fn run(req: PeerRequest, events: Seq<CreationEvent>) -> (CreationStep, CreationAction)
    decreases events.len(),
{
    if events.len() == 0 {
        first_move(req)
    } else {
        next_move(req, run(req, events.drop_last()).0, events.last())
    }
}

/// Whether each of the answers `events` was accepted where it came.
pub open spec fn accepted_run(req: PeerRequest, events: Seq<CreationEvent>) -> bool
    decreases events.len(),
{
    events.len() == 0 || (accepted_run(req, events.drop_last()) && accepts(
        req,
        run(req, events.drop_last()).0,
        events.last(),
    ))
}

/// Each step of a registration is reached in one way only.
proof fn lemma_step_origin(req: PeerRequest, events: Seq<CreationEvent>)
    requires
        accepted_run(req, events),
    ensures
        run(req, events).0 == CreationStep::DnsServerLookup ==> events.len() == 0 && req.kind
            == PeerKind::Client,
        run(req, events).0 == CreationStep::KeypairLookup ==> (events.len() == 0 && req.kind
            == PeerKind::Server) || (events.len() > 0 && events.last()
            == CreationEvent::DnsServerFound(true) && run(req, events.drop_last()).0
            == CreationStep::DnsServerLookup),
        run(req, events).0 == CreationStep::VpnNetworkLookup ==> events.len() > 0 && events.last()
            == CreationEvent::KeypairFound(true) && run(req, events.drop_last()).0
            == CreationStep::KeypairLookup,
        run(req, events).0 == CreationStep::AddressReservation ==> events.len() > 0 && (
        events.last() matches CreationEvent::VpnNetworkFound(Some(net)) && request_in_network(
            req,
            net,
        )) && run(req, events.drop_last()).0 == CreationStep::VpnNetworkLookup,
{
    if events.len() > 0 {
        let prev = run(req, events.drop_last()).0;
        assert(accepts(req, prev, events.last()));
    }
}

/// A peer is inserted only after every check passed, in order: for a client its dns
/// server was found, then (for clients and servers) its keypair, then its vpn network,
/// whose range holds the requested address, and then the address was stored. The
/// insertion uses the id of the stored address.
pub proof fn lemma_peer_inserted_only_after_checks(req: PeerRequest, events: Seq<CreationEvent>)
    requires
        accepted_run(req, events),
        run(req, events).1 is InsertPeer,
    ensures
        req.kind == PeerKind::Client ==> events.len() == 4 && events[0]
            == CreationEvent::DnsServerFound(true) && events[1] == CreationEvent::KeypairFound(
            true,
        ) && (events[2] matches CreationEvent::VpnNetworkFound(Some(net)) && request_in_network(
            req,
            net,
        )) && (events[3] matches CreationEvent::AddressReserved(Ok(id)) && run(req, events).1
            == CreationAction::InsertPeer { vpn_ip_address_id: id }),
        req.kind == PeerKind::Server ==> events.len() == 3 && events[0]
            == CreationEvent::KeypairFound(true) && (events[1] matches CreationEvent::VpnNetworkFound(
            Some(net),
        ) && request_in_network(req, net)) && (events[2] matches CreationEvent::AddressReserved(
            Ok(id),
        ) && run(req, events).1 == CreationAction::InsertPeer { vpn_ip_address_id: id }),
{
    assert(events.len() > 0);
    let e3 = events.drop_last();
    assert(accepted_run(req, e3));
    assert(accepts(req, run(req, e3).0, events.last()));
    assert(run(req, e3).0 == CreationStep::AddressReservation);
    lemma_step_origin(req, e3);
    let e2 = e3.drop_last();
    assert(accepted_run(req, e2));
    lemma_step_origin(req, e2);
    let e1 = e2.drop_last();
    assert(accepted_run(req, e1));
    lemma_step_origin(req, e1);
    if req.kind == PeerKind::Client {
        let e0 = e1.drop_last();
        assert(accepted_run(req, e0));
        lemma_step_origin(req, e0);
        assert(events.len() == 4);
        assert(events[0] == e1.last());
        assert(events[1] == e2.last());
        assert(events[2] == e3.last());
    } else {
        assert(events.len() == 3);
        assert(events[0] == e2.last());
        assert(events[1] == e3.last());
    }
}


/// The range check decides the vpn-network step on the network's own prefix alone: a
/// found network whose range holds the requested address leads to the reservation of
/// that address in that network, and one whose range does not hold it ends the
/// registration with the error that names the address, the network and its prefix.
pub proof fn lemma_range_check(req: PeerRequest, net: VpnNetwork)
    requires
        canonical_address(net.ip_network@) is Some,
        canonical_address(req.ip_address@) is Some,
    ensures
        in_network(
            canonical_address(net.ip_network@)->0,
            net.subnetmask as int,
            canonical_address(req.ip_address@)->0,
        ) ==> next_move(req, CreationStep::VpnNetworkLookup, CreationEvent::VpnNetworkFound(Some(net)))
            == (
            CreationStep::AddressReservation,
            CreationAction::ReserveAddress {
                vpn_network_id: req.vpn_network_id,
                ip_address: req.ip_address,
            },
        ),
        !in_network(
            canonical_address(net.ip_network@)->0,
            net.subnetmask as int,
            canonical_address(req.ip_address@)->0,
        ) ==> next_move(req, CreationStep::VpnNetworkLookup, CreationEvent::VpnNetworkFound(Some(net)))
            == (
            CreationStep::Finished,
            CreationAction::Fail(
                CreationError::AddressOutOfRange {
                    ip_address: req.ip_address,
                    ip_network: net.ip_network,
                    subnetmask: net.subnetmask,
                },
            ),
        ),
{
}

/// What each answer leads to: a client's registration starts with the lookup of its
/// dns server and a server's with the lookup of its keypair; a found dns server leads to
/// the keypair, a found keypair to the vpn network, and a stored address to the
/// insertion of the peer with the address's id; a missing dns server, keypair or network,
/// or an address that could not be stored, ends the registration with the error that
/// names the missing record's id (or the peer's kind and the database's text).
pub proof fn lemma_registration_answers(req: PeerRequest, step: CreationStep, id: i32, cause: String)
    ensures
        req.kind == PeerKind::Client ==> first_move(req) == (
            CreationStep::DnsServerLookup,
            CreationAction::LookUpDnsServer(req.dns_server_id),
        ),
        req.kind == PeerKind::Server ==> first_move(req) == (
            CreationStep::KeypairLookup,
            CreationAction::LookUpKeypair(req.keypair_id),
        ),
        next_move(req, step, CreationEvent::DnsServerFound(true)) == (
            CreationStep::KeypairLookup,
            CreationAction::LookUpKeypair(req.keypair_id),
        ),
        next_move(req, step, CreationEvent::DnsServerFound(false)) == (
            CreationStep::Finished,
            CreationAction::Fail(CreationError::DnsServerNotFound(req.dns_server_id)),
        ),
        next_move(req, step, CreationEvent::KeypairFound(true)) == (
            CreationStep::VpnNetworkLookup,
            CreationAction::LookUpVpnNetwork(req.vpn_network_id),
        ),
        next_move(req, step, CreationEvent::KeypairFound(false)) == (
            CreationStep::Finished,
            CreationAction::Fail(CreationError::KeypairNotFound(req.keypair_id)),
        ),
        next_move(req, step, CreationEvent::VpnNetworkFound(None)) == (
            CreationStep::Finished,
            CreationAction::Fail(CreationError::VpnNetworkNotFound(req.vpn_network_id)),
        ),
        next_move(req, step, CreationEvent::AddressReserved(Ok(id))) == (
            CreationStep::Finished,
            CreationAction::InsertPeer { vpn_ip_address_id: id },
        ),
        next_move(req, step, CreationEvent::AddressReserved(Err(cause))) == (
            CreationStep::Finished,
            CreationAction::Fail(CreationError::AddressTaken { kind: req.kind, cause }),
        ),
{
}

} // verus!

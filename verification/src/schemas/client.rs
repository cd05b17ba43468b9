//! Module that holds everything that is necessary for the `Client`
use vstd::prelude::*;

use crate::models::server::address_with_prefix;
use crate::models::vpn_network::{clone_optional, VpnNetwork};
use crate::registration::{first_move, CreationAction, PeerCreation, PeerKind, PeerRequest};
use crate::render::{handlebars_rendering, list_texts, pair_texts, render_template, Fields, RenderOutcome};
use crate::text::{push_signed_decimal, signed_text};

verus! {

/// The WireGuard configuration of a client, as a handlebars template.
pub const CLIENT_CONFIG: &'static str = "[Interface]
PrivateKey = {{clientPrivateKey}}
Address = {{clientIp}}
DNS = {{dnsServerIp}}

[Peer]
PublicKey = {{serverPublicKey}}
AllowedIPs = 0.0.0.0/0
Endpoint = {{endpoint}}
PersistentKeepalive = {{keepalive}}";

/// A client as it is stored.
#[derive(Debug)]
pub struct QueryableClient {
    pub id: i32,
    pub name: String,
    pub description: Option<String>,
    pub keepalive_interval: i32,
    pub dns_server_id: i32,
    pub keypair_id: i32,
    pub vpn_ip_address_id: i32,
}

/// A client of a vpn network.
#[derive(Debug)]
pub struct Client {
    /// The id
    pub id: i32,
    /// A unique name
    pub name: String,
    /// An optional description
    pub description: Option<String>,
    /// The interval in seconds where the client should reconnect to the server
    pub keepalive_interval: i32,
}

impl From<QueryableClient> for Client {
    fn from(client: QueryableClient) -> (r: Client) {
        Client {
            id: client.id,
            name: client.name,
            description: client.description,
            keepalive_interval: client.keepalive_interval,
        }
    }
}

impl vstd::std_specs::convert::FromSpecImpl<QueryableClient> for Client {
    open spec fn obeys_from_spec() -> bool {
        true
    }

    open spec fn from_spec(client: QueryableClient) -> Client {
        Client {
            id: client.id,
            name: client.name,
            description: client.description,
            keepalive_interval: client.keepalive_interval,
        }
    }
}

/// Input type for a new client
pub struct InputClient {
    /// The name of the client
    pub name: String,
    /// An optional description for the client
    pub description: Option<String>,
    /// The ip address of the client in the vpn network
    pub ip_address: String,
    /// The vpn network of that the client should be a part of
    pub vpn_network_id: i32,
    /// The interval in seconds where the client should reconnect to the server (25
    /// where the request gives none)
    pub keepalive_interval: i32,
    /// The id of the dns server that should be used by the client
    pub dns_server_id: i32,
    /// The id of the keypair that should be used by the client
    pub keypair_id: i32,
}

/// A client that is insertable into the database.
#[derive(Debug)]
pub struct InsertableClient {
    pub name: String,
    pub description: Option<String>,
    pub keepalive_interval: i32,
    pub dns_server_id: i32,
    pub keypair_id: i32,
    pub vpn_ip_address_id: i32,
}

/// What the registration of the client `client` checks and reserves.
pub open spec fn client_request(client: InputClient) -> PeerRequest {
    PeerRequest {
        kind: PeerKind::Client,
        dns_server_id: client.dns_server_id,
        keypair_id: client.keypair_id,
        vpn_network_id: client.vpn_network_id,
        ip_address: client.ip_address,
    }
}

/// The record of the client `client` whose address was stored with the id
/// `vpn_ip_address_id`.
pub open spec fn insertable_client(client: InputClient, vpn_ip_address_id: i32) -> InsertableClient {
    InsertableClient {
        name: client.name,
        description: client.description,
        keepalive_interval: client.keepalive_interval,
        dns_server_id: client.dns_server_id,
        keypair_id: client.keypair_id,
        vpn_ip_address_id,
    }
}

impl InputClient {
    /// What the registration of this client checks and reserves.
    pub fn creation_request(&self) -> (r: PeerRequest)
        ensures
            r == client_request(*self),
    {
        PeerRequest {
            kind: PeerKind::Client,
            dns_server_id: self.dns_server_id,
            keypair_id: self.keypair_id,
            vpn_network_id: self.vpn_network_id,
            ip_address: self.ip_address.clone(),
        }
    }
}

impl InsertableClient {
    /// The record that inserts `client` with the stored address `vpn_ip_address_id`.
    pub fn new(client: &InputClient, vpn_ip_address_id: i32) -> (r: InsertableClient)
        ensures
            r == insertable_client(*client, vpn_ip_address_id),
    {
        InsertableClient {
            name: client.name.clone(),
            description: clone_optional(&client.description),
            keepalive_interval: client.keepalive_interval,
            dns_server_id: client.dns_server_id,
            keypair_id: client.keypair_id,
            vpn_ip_address_id,
        }
    }
}

/// Creates a new client: starts its registration, which checks that the dns server,
/// the keypair and the vpn network exist and that the address lies in the network, then
/// stores the address; the client itself is inserted with [`InsertableClient::new`].
pub fn create_client(client: &InputClient) -> (r: (PeerCreation, CreationAction))
    ensures
        r.0.request == client_request(*client),
        (r.0.step, r.1) == first_move(client_request(*client)),
{
    PeerCreation::start(client.creation_request())
}

/// The records that the configuration of a client is made of.
pub struct ClientConfigParts {
    /// The public key of the server of the client's network.
    pub server_public_key: String,
    /// The address or name under which clients reach that server.
    pub server_external_ip_address: String,
    /// The port of the client's vpn network.
    pub listen_port: i32,
    /// The prefix length of the client's vpn network.
    pub subnetmask: i32,
    /// The private key of the client.
    pub client_private_key: String,
    /// The address of the client's dns server.
    pub dns_server_ip: String,
    /// The address of the client in its vpn network.
    pub client_ip: String,
}

/// What the configuration of a client takes from the server of its vpn network.
pub struct ClientConfigServer {
    /// The public key of the server's keypair.
    pub public_key: String,
    /// The address or name under which clients reach the server.
    pub external_ip_address: String,
}

/// The parts of a client's configuration, from the server of its network, the network,
/// its private key, its dns server's address and its own address.
pub open spec fn client_config_parts(
    server: ClientConfigServer,
    vpn_network: VpnNetwork,
    client_private_key: String,
    dns_server_ip: String,
    client_ip: String,
) -> ClientConfigParts {
    ClientConfigParts {
        server_public_key: server.public_key,
        server_external_ip_address: server.external_ip_address,
        listen_port: vpn_network.listen_port,
        subnetmask: vpn_network.subnetmask,
        client_private_key,
        dns_server_ip,
        client_ip,
    }
}

/// The values that fill the client's configuration template, by name.
pub open spec fn client_config_values(client: Client, parts: ClientConfigParts) -> Fields {
    seq![
        ("serverPublicKey"@, parts.server_public_key@),
        ("endpoint"@, parts.server_external_ip_address@ + ":"@ + signed_text(parts.listen_port as int)),
        ("clientPrivateKey"@, parts.client_private_key@),
        ("dnsServerIp"@, parts.dns_server_ip@),
        ("clientIp"@, address_with_prefix(parts.client_ip@, parts.subnetmask)),
        ("keepalive"@, signed_text(client.keepalive_interval as int)),
    ]
}

impl Client {
    /// The values that fill the configuration template of this client.
    pub fn config_values(&self, parts: &ClientConfigParts) -> (r: Vec<(String, String)>)
        ensures
            pair_texts(r@) == client_config_values(*self, *parts),
    {
        let mut endpoint = parts.server_external_ip_address.clone();
        endpoint.append(":");
        push_signed_decimal(&mut endpoint, parts.listen_port);
        let mut client_ip = parts.client_ip.clone();
        client_ip.append("/");
        push_signed_decimal(&mut client_ip, parts.subnetmask);
        let mut keepalive = String::new();
        push_signed_decimal(&mut keepalive, self.keepalive_interval);
        let mut r: Vec<(String, String)> = Vec::new();
        r.push((String::from_str("serverPublicKey"), parts.server_public_key.clone()));
        r.push((String::from_str("endpoint"), endpoint));
        r.push((String::from_str("clientPrivateKey"), parts.client_private_key.clone()));
        r.push((String::from_str("dnsServerIp"), parts.dns_server_ip.clone()));
        r.push((String::from_str("clientIp"), client_ip));
        r.push((String::from_str("keepalive"), keepalive));
        assert(pair_texts(r@) =~= client_config_values(*self, *parts));
        r
    }

    /// [`CLIENT_CONFIG`] rendered with the values of [`Client::config_values`] (a missing
    /// value renders as nothing), or the text of the rendering error.
    pub fn render_config(&self, parts: &ClientConfigParts) -> (r: Result<String, String>)
        ensures
            r matches Ok(t) ==> handlebars_rendering(CLIENT_CONFIG@, false, client_config_values(*self, *parts), Seq::empty()) == RenderOutcome::Ok(t@),
            r matches Err(e) ==> handlebars_rendering(CLIENT_CONFIG@, false, client_config_values(*self, *parts), Seq::empty()) == RenderOutcome::Err(e@),
    {
        let values = self.config_values(parts);
        let lists: Vec<(String, Vec<Vec<(String, String)>>)> = Vec::new();
        let r = render_template(CLIENT_CONFIG, false, &values, &lists);
        assert(list_texts(lists@) =~= Seq::empty());
        r
    }

    /// A wireguard configuration for the client, from what was found of the server of
    /// its vpn network, of the network, of its keypair's private key, of its dns server's
    /// address and of its own address: `None` where any of them is missing; otherwise
    /// [`Client::render_config`] of the parts they make up.
    pub fn config(
        &self,
        server: Option<ClientConfigServer>,
        vpn_network: Option<VpnNetwork>,
        client_private_key: Option<String>,
        dns_server_ip: Option<String>,
        client_ip: Option<String>,
    ) -> (r: Option<Result<String, String>>)
        ensures
            r is None <==> (server is None || vpn_network is None || client_private_key is None
                || dns_server_ip is None || client_ip is None),
            r matches Some(rendered) ==> {
                let parts = client_config_parts(server->0, vpn_network->0, client_private_key->0, dns_server_ip->0, client_ip->0);
                &&& rendered matches Ok(t) ==> handlebars_rendering(CLIENT_CONFIG@, false, client_config_values(*self, parts), Seq::empty()) == RenderOutcome::Ok(t@)
                &&& rendered matches Err(e) ==> handlebars_rendering(CLIENT_CONFIG@, false, client_config_values(*self, parts), Seq::empty()) == RenderOutcome::Err(e@)
            },
    {
        match (server, vpn_network, client_private_key, dns_server_ip, client_ip) {
            (Some(server), Some(network), Some(key), Some(dns), Some(ip)) => {
                let parts = ClientConfigParts {
                    server_public_key: server.public_key,
                    server_external_ip_address: server.external_ip_address,
                    listen_port: network.listen_port,
                    subnetmask: network.subnetmask,
                    client_private_key: key,
                    dns_server_ip: dns,
                    client_ip: ip,
                };
                Some(self.render_config(&parts))
            },
            _ => None,
        }
    }
}


/// The record of a new client takes each attribute from the input field of the same
/// name, and the stored address's id as given.
pub proof fn lemma_insertable_client_fields(client: InputClient, vpn_ip_address_id: i32)
    ensures
        insertable_client(client, vpn_ip_address_id).name == client.name,
        insertable_client(client, vpn_ip_address_id).description == client.description,
        insertable_client(client, vpn_ip_address_id).keepalive_interval == client.keepalive_interval,
        insertable_client(client, vpn_ip_address_id).dns_server_id == client.dns_server_id,
        insertable_client(client, vpn_ip_address_id).keypair_id == client.keypair_id,
        insertable_client(client, vpn_ip_address_id).vpn_ip_address_id == vpn_ip_address_id,
{
}

} // verus!

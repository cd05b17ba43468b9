//! Module that holds everything that is necessary for the `Server`
use vstd::prelude::*;

use crate::models::vpn_network::{clone_optional, VpnNetwork};
use crate::registration::{first_move, CreationAction, PeerCreation, PeerKind, PeerRequest};
use crate::render::{handlebars_rendering, list_texts, pair_texts, render_template, FieldLists, Fields, RenderOutcome};
use crate::text::{push_signed_decimal, signed_text};

verus! {

/// The WireGuard configuration of a server, as a handlebars template.
pub const SERVER_CONFIG: &'static str = "# Server configuration
[Interface]
Address = {{server_address}}
ListenPort = {{listen_port}}
PrivateKey = {{server_private_key}}

# Clients
{{#each clients}}
## {{name}}
[Peer]
PublicKey = {{public_key}}
AllowedIps = {{ip_address}}/32
{{/each}}
";

/// Input type for a new Server
pub struct InputServer {
    pub name: String,
    pub description: Option<String>,
    /// The interface where all traffic should be forwarded to
    pub forward_interface: Option<String>,
    /// The ip address or FQDN that is used by the client to connect to the server
    pub external_ip_address: String,
    /// The id of the keypair that should be used by the server
    pub keypair_id: i32,
    /// The ip address that the server should have in the vpn network
    pub ip_address: String,
    /// The id of the vpn network which the server should be associated with
    pub vpn_network_id: i32,
}

/// A `Server` that is insertable into the database
#[derive(Debug)]
pub struct InsertableServer {
    pub name: String,
    pub description: Option<String>,
    pub forward_interface: Option<String>,
    pub external_ip_address: String,
    pub keypair_id: i32,
    pub vpn_ip_address_id: i32,
}

/// A server as it is stored.
#[derive(Debug)]
pub struct QueryableServer {
    pub id: i32,
    pub name: String,
    pub description: Option<String>,
    pub forward_interface: Option<String>,
    pub external_ip_address: String,
    pub keypair_id: i32,
    pub vpn_ip_address_id: i32,
}

/// Represents the configuration for a server
pub struct ServerConfig {
    pub server_address: String,
    pub listen_port: i32,
    pub server_private_key: String,
    pub clients: Vec<ClientServerConfig>,
}

/// Represents a client that is used for the configuration of the server
#[derive(Debug)]
pub struct ClientServerConfig {
    pub name: String,
    pub public_key: String,
    pub ip_address: String,
}

/// A server is part of the `VpnNetwork` and the endpoint for the `Client`s
#[derive(Debug)]
pub struct Server {
    pub id: i32,
    pub name: String,
    pub description: Option<String>,
    /// The interface where all traffic should be forwarded to
    pub forward_interface: Option<String>,
    /// The ip address or FQDN that is used by the client to connect to the server
    pub external_ip_address: String,
}

impl From<QueryableServer> for Server {
    fn from(server: QueryableServer) -> (r: Server) {
        Server {
            id: server.id,
            name: server.name,
            description: server.description,
            forward_interface: server.forward_interface,
            external_ip_address: server.external_ip_address,
        }
    }
}

impl vstd::std_specs::convert::FromSpecImpl<QueryableServer> for Server {
    open spec fn obeys_from_spec() -> bool {
        true
    }

    open spec fn from_spec(server: QueryableServer) -> Server {
        Server {
            id: server.id,
            name: server.name,
            description: server.description,
            forward_interface: server.forward_interface,
            external_ip_address: server.external_ip_address,
        }
    }
}

/// What the registration of the server `server` checks and reserves.
pub open spec fn server_request(server: InputServer) -> PeerRequest {
    PeerRequest {
        kind: PeerKind::Server,
        dns_server_id: 0,
        keypair_id: server.keypair_id,
        vpn_network_id: server.vpn_network_id,
        ip_address: server.ip_address,
    }
}

impl InputServer {
    /// What the registration of this server checks and reserves (servers use no dns
    /// server; its id is left at 0).
    pub fn creation_request(&self) -> (r: PeerRequest)
        ensures
            r == server_request(*self),
    {
        PeerRequest {
            kind: PeerKind::Server,
            dns_server_id: 0,
            keypair_id: self.keypair_id,
            vpn_network_id: self.vpn_network_id,
            ip_address: self.ip_address.clone(),
        }
    }
}

/// The record of the server `server` whose address was stored with the id
/// `vpn_ip_address_id`.
pub open spec fn insertable_server(server: InputServer, vpn_ip_address_id: i32) -> InsertableServer {
    InsertableServer {
        name: server.name,
        description: server.description,
        forward_interface: server.forward_interface,
        external_ip_address: server.external_ip_address,
        keypair_id: server.keypair_id,
        vpn_ip_address_id,
    }
}

impl InsertableServer {
    /// The record that inserts `server` with the stored address `vpn_ip_address_id`.
    pub fn new(server: &InputServer, vpn_ip_address_id: i32) -> (r: InsertableServer)
        ensures
            r == insertable_server(*server, vpn_ip_address_id),
    {
        InsertableServer {
            name: server.name.clone(),
            description: clone_optional(&server.description),
            forward_interface: clone_optional(&server.forward_interface),
            external_ip_address: server.external_ip_address.clone(),
            keypair_id: server.keypair_id,
            vpn_ip_address_id,
        }
    }
}

impl Server {
    /// Creates a new [`Server`]: starts its registration, which checks that the keypair
    /// and the vpn network exist and that the address lies in the network, then stores
    /// the address; the peer itself is inserted with [`InsertableServer::new`].
    pub fn create(server: &InputServer) -> (r: (PeerCreation, CreationAction))
        ensures
            r.0.request == server_request(*server),
            (r.0.step, r.1) == first_move(server_request(*server)),
    {
        PeerCreation::start(server.creation_request())
    }
}

/// The address of a server in the configuration: its address, a slash, and the prefix
/// length of its network.
pub open spec fn address_with_prefix(ip_address: Seq<char>, subnetmask: i32) -> Seq<char> {
    ip_address + "/"@ + signed_text(subnetmask as int)
}

impl ServerConfig {
    /// The configuration of the server with the address `ip_address` in `vpn_network`,
    /// the private key `server_private_key`, and the clients `clients`.
    pub fn new(
        ip_address: &str,
        vpn_network: &VpnNetwork,
        server_private_key: String,
        clients: Vec<ClientServerConfig>,
    ) -> (r: ServerConfig)
        ensures
            r.server_address@ == address_with_prefix(ip_address@, vpn_network.subnetmask),
            r.listen_port == vpn_network.listen_port,
            r.server_private_key == server_private_key,
            r.clients == clients,
    {
        let mut server_address = String::from_str(ip_address);
        server_address.append("/");
        push_signed_decimal(&mut server_address, vpn_network.subnetmask);
        ServerConfig {
            server_address,
            listen_port: vpn_network.listen_port,
            server_private_key,
            clients,
        }
    }
}

/// The values that fill the server's configuration template, by name.
pub open spec fn server_config_values(server_address: Seq<char>, listen_port: i32, server_private_key: Seq<char>) -> Fields {
    seq![
        ("server_address"@, server_address),
        ("listen_port"@, signed_text(listen_port as int)),
        ("server_private_key"@, server_private_key),
    ]
}

/// The values of a client in the server's configuration, by name.
pub open spec fn client_entry_values(client: ClientServerConfig) -> Fields {
    seq![("name"@, client.name@), ("public_key"@, client.public_key@), ("ip_address"@, client.ip_address@)]
}

/// The list of clients that the server's configuration template repeats over.
pub open spec fn server_config_lists(clients: Seq<ClientServerConfig>) -> FieldLists {
    seq![("clients"@, clients.map_values(|c: ClientServerConfig| client_entry_values(c)))]
}

impl ClientServerConfig {
    /// The values of this client in the server's configuration.
    pub fn entry_values(&self) -> (r: Vec<(String, String)>)
        ensures
            pair_texts(r@) == client_entry_values(*self),
    {
        let mut r: Vec<(String, String)> = Vec::new();
        r.push((String::from_str("name"), self.name.clone()));
        r.push((String::from_str("public_key"), self.public_key.clone()));
        r.push((String::from_str("ip_address"), self.ip_address.clone()));
        assert(pair_texts(r@) =~= client_entry_values(*self));
        r
    }
}

impl ServerConfig {
    /// The values that fill the configuration template of the server.
    pub fn values(&self) -> (r: Vec<(String, String)>)
        ensures
            pair_texts(r@) == server_config_values(self.server_address@, self.listen_port, self.server_private_key@),
    {
        let mut listen_port = String::new();
        push_signed_decimal(&mut listen_port, self.listen_port);
        let mut r: Vec<(String, String)> = Vec::new();
        r.push((String::from_str("server_address"), self.server_address.clone()));
        r.push((String::from_str("listen_port"), listen_port));
        r.push((String::from_str("server_private_key"), self.server_private_key.clone()));
        assert(pair_texts(r@) =~= server_config_values(self.server_address@, self.listen_port, self.server_private_key@));
        r
    }

    /// The list of clients that the configuration template of the server repeats over.
    pub fn lists(&self) -> (r: Vec<(String, Vec<Vec<(String, String)>>)>)
        ensures
            list_texts(r@) == server_config_lists(self.clients@),
    {
        let mut entries: Vec<Vec<(String, String)>> = Vec::new();
        let mut i: usize = 0;
        while i < self.clients.len()
            invariant
                i <= self.clients.len(),
                entries.len() == i,
                forall|k: int|
                    0 <= k < i ==> pair_texts(#[trigger] entries@[k]@) == client_entry_values(
                        self.clients@[k],
                    ),
            decreases self.clients.len() - i,
        {
            let entry = self.clients[i].entry_values();
            entries.push(entry);
            i = i + 1;
        }
        let mut r: Vec<(String, Vec<Vec<(String, String)>>)> = Vec::new();
        r.push((String::from_str("clients"), entries));
        assert(list_texts(r@)[0].1 =~= server_config_lists(self.clients@)[0].1);
        assert(list_texts(r@) =~= server_config_lists(self.clients@));
        r
    }
}

impl Server {
    /// A wireguard configuration for the server with the address `ip_address` in
    /// `vpn_network` and the private key `server_private_key`: `None` where the clients
    /// of the network could not be listed; otherwise [`SERVER_CONFIG`] rendered in strict
    /// mode with the server's values (its address with the network's prefix length, the
    /// network's port, its key) and its clients, or the text of the rendering error.
    pub fn config(
        &self,
        ip_address: &str,
        vpn_network: &VpnNetwork,
        server_private_key: String,
        clients: Option<Vec<ClientServerConfig>>,
    ) -> (r: Option<Result<String, String>>)
        ensures
            r is None <==> clients is None,
            clients matches Some(cs) ==> (r->0 matches Ok(t) ==> handlebars_rendering(SERVER_CONFIG@, true, server_config_values(address_with_prefix(ip_address@, vpn_network.subnetmask), vpn_network.listen_port, server_private_key@), server_config_lists(cs@)) == RenderOutcome::Ok(t@)),
            clients matches Some(cs) ==> (r->0 matches Err(e) ==> handlebars_rendering(SERVER_CONFIG@, true, server_config_values(address_with_prefix(ip_address@, vpn_network.subnetmask), vpn_network.listen_port, server_private_key@), server_config_lists(cs@)) == RenderOutcome::Err(e@)),
    {
        match clients {
            None => None,
            Some(cs) => {
                let config = ServerConfig::new(ip_address, vpn_network, server_private_key, cs);
                let values = config.values();
                let lists = config.lists();
                Some(render_template(SERVER_CONFIG, true, &values, &lists))
            },
        }
    }
}


/// The record of a new server takes each attribute from the input field of the same
/// name, and the stored address's id as given.
pub proof fn lemma_insertable_server_fields(server: InputServer, vpn_ip_address_id: i32)
    ensures
        insertable_server(server, vpn_ip_address_id).name == server.name,
        insertable_server(server, vpn_ip_address_id).description == server.description,
        insertable_server(server, vpn_ip_address_id).forward_interface == server.forward_interface,
        insertable_server(server, vpn_ip_address_id).external_ip_address == server.external_ip_address,
        insertable_server(server, vpn_ip_address_id).keypair_id == server.keypair_id,
        insertable_server(server, vpn_ip_address_id).vpn_ip_address_id == vpn_ip_address_id,
{
}

/// The list that the server's template repeats over is named `clients` and holds one
/// record per client, in order: its name, its public key and its address.
pub proof fn lemma_server_config_lists(clients: Seq<ClientServerConfig>)
    ensures
        server_config_lists(clients).len() == 1,
        server_config_lists(clients)[0].0 == "clients"@,
        server_config_lists(clients)[0].1.len() == clients.len(),
        forall|k: int|
            0 <= k < clients.len() ==> #[trigger] server_config_lists(clients)[0].1[k] == seq![
                ("name"@, clients[k].name@),
                ("public_key"@, clients[k].public_key@),
                ("ip_address"@, clients[k].ip_address@),
            ],
{
}

} // verus!

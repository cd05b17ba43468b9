use vpn_api::crypto::{Claims, SecretKey};
use vpn_api::models::allowed_ips::{AllowedIP, NewAllowedIp};
use vpn_api::models::dns_server::{DnsServer, InputDnsServer, NewDnsServer};
use vpn_api::models::login;
use vpn_api::models::server::{ClientServerConfig, QueryableServer, Server, ServerConfig};
use vpn_api::models::unused_keypairs;
use vpn_api::models::user::{check_password, JwtUser, LoginError, User};
use vpn_api::models::vpn_ip_address::NewVpnIpAddress;
use vpn_api::models::vpn_network::{
    delete_vpn_network, update_vpn_network, InputVpnNetwork, NewVpnNetwork, RecordError, VpnNetwork,
};
use vpn_api::schemas::client::{Client, ClientConfigParts, ClientConfigServer, QueryableClient};
use vpn_api::schemas::keypair::{strip_line_breaks, Keypair};
use vpn_api::token::{get_token_from_headers, Token};

fn stored_network() -> VpnNetwork {
    VpnNetwork {
        id: 4,
        name: "old".to_string(),
        description: Some("old description".to_string()),
        ip_network: "10.0.0.0".to_string(),
        subnetmask: 24,
        listen_port: 51820,
        interface_name: "wg0".to_string(),
    }
}

fn network_input() -> InputVpnNetwork {
    InputVpnNetwork {
        name: "new".to_string(),
        description: None,
        ip_network: "10.1.0.0".to_string(),
        subnetmask: 16,
        listen_port: 51821,
        interface_name: "wg1".to_string(),
    }
}

#[test]
fn update_vpn_network_keeps_the_id() {
    let updated = update_vpn_network(Some(stored_network()), 4, &network_input()).unwrap();
    assert_eq!(updated.id, 4);
    assert_eq!(updated.name, "new");
    assert_eq!(updated.description, None);
    assert_eq!(updated.ip_network, "10.1.0.0");
    assert_eq!(updated.subnetmask, 16);
    assert_eq!(updated.listen_port, 51821);
    assert_eq!(updated.interface_name, "wg1");
}

#[test]
fn update_missing_vpn_network() {
    let e = update_vpn_network(None, 17, &network_input()).unwrap_err();
    assert_eq!(e, RecordError::VpnNetworkNotFound(17));
    assert_eq!(e.message(), "VPN Network with id 17 not found");
}

#[test]
fn delete_vpn_network_decision() {
    assert_eq!(delete_vpn_network(Some(stored_network()), 4).unwrap().name, "old");
    assert_eq!(
        delete_vpn_network(None, 2).unwrap_err().message(),
        "VPN Network with id 2 not found"
    );
}

#[test]
fn new_vpn_network_record() {
    let input = network_input();
    let record = NewVpnNetwork::from_input(&input);
    assert_eq!(record.name, "new");
    assert_eq!(record.description, None);
    assert_eq!(record.ip_network, "10.1.0.0");
    assert_eq!(record.subnetmask, 16);
    assert_eq!(record.listen_port, 51821);
    assert_eq!(record.interface_name, "wg1");
}

#[test]
fn dns_server_update_and_delete() {
    let stored = DnsServer {
        id: 2,
        name: "a".to_string(),
        description: None,
        ip_address: "1.1.1.1".to_string(),
    };
    let input = InputDnsServer {
        name: "b".to_string(),
        description: Some("quad nine".to_string()),
        ip_address: "9.9.9.9".to_string(),
    };
    let updated = DnsServer::update(Some(stored), 2, &input).unwrap();
    assert_eq!(updated.id, 2);
    assert_eq!(updated.name, "b");
    assert_eq!(updated.description.as_deref(), Some("quad nine"));
    assert_eq!(updated.ip_address, "9.9.9.9");
    let e = DnsServer::update(None, 8, &input).unwrap_err();
    assert_eq!(e.message(), "DNS Server with id 8 not found");
    assert_eq!(DnsServer::delete(None, 3).unwrap_err(), RecordError::DnsServerNotFound(3));
    let record = NewDnsServer::from_input(&input);
    assert_eq!(record.name, "b");
    assert_eq!(record.description, Some("quad nine"));
    assert_eq!(record.ip_address, "9.9.9.9");
}

#[test]
fn allowed_ip_lookup_keys() {
    assert_eq!(AllowedIP::lookup_key("10.0.0.0/16"), ("10.0.0.0".to_string(), 16));
    assert_eq!(AllowedIP::lookup_key("10.0.0.0"), ("10.0.0.0".to_string(), 24));
    assert_eq!(AllowedIP::lookup_key("10.0.0.0/x"), ("10.0.0.0".to_string(), 24));
    assert_eq!(AllowedIP::lookup_key("10.0.0.0/8/9"), ("10.0.0.0".to_string(), 8));
    assert_eq!(AllowedIP::lookup_key("10.0.0.0/"), ("10.0.0.0".to_string(), 24));
    assert_eq!(AllowedIP::lookup_key(""), ("".to_string(), 24));
}

#[test]
fn allowed_ip_creation_keys() {
    assert!(AllowedIP::is_creatable("192.168.1.0/24"));
    assert!(AllowedIP::is_creatable("192.168.1.0"));
    assert!(!AllowedIP::is_creatable("192.168.1.0/-1"));
    assert!(!AllowedIP::is_creatable("192.168.1.0/abc"));
    assert_eq!(AllowedIP::creation_key("192.168.1.0/28"), ("192.168.1.0".to_string(), 28));
    assert_eq!(AllowedIP::creation_key("192.168.1.0"), ("192.168.1.0".to_string(), 24));
    let record = NewAllowedIp::new("192.168.1.0", 28);
    assert_eq!(record.ip, "192.168.1.0");
    assert_eq!(record.subnetmask, 28);
}

#[test]
fn created_allowed_ip_is_found_again() {
    for text in ["10.8.0.0/16", "10.8.0.0", "10.8.0.0/+7", "10.8.0.0/0032"] {
        let (address, subnetmask) = AllowedIP::creation_key(text);
        let stored = NewAllowedIp::new(&address, subnetmask);
        let (lookup_address, lookup_subnetmask) = AllowedIP::lookup_key(text);
        assert_eq!(stored.ip, lookup_address);
        assert_eq!(stored.subnetmask, lookup_subnetmask);
    }
    // a prefix beyond i32::MAX is stored wrapped and looked up under the default
    let (address, subnetmask) = AllowedIP::creation_key("10.8.0.0/4294967295");
    assert_eq!(NewAllowedIp::new(&address, subnetmask).subnetmask, -1);
    assert_eq!(AllowedIP::lookup_key("10.8.0.0/4294967295").1, 24);
}

#[test]
fn vpn_ip_address_record() {
    let record = NewVpnIpAddress::new(3, "10.0.0.5");
    assert_eq!(record.vpn_network_id, 3);
    assert_eq!(record.ip_address, "10.0.0.5");
}

fn keypair(id: i32) -> Keypair {
    Keypair { id, public_key: format!("pub{id}"), private_key: format!("priv{id}") }
}

#[test]
fn unused_keypairs_filters_used_ids() {
    let all = vec![keypair(1), keypair(2), keypair(3), keypair(4)];
    let unused = unused_keypairs(&all, &vec![1], &vec![3, 9]);
    let ids: Vec<i32> = unused.iter().map(|k| k.id).collect();
    assert_eq!(ids, vec![2, 4]);
    assert_eq!(unused[0].public_key, "pub2");
    assert_eq!(unused[1].private_key, "priv4");
    assert!(unused_keypairs(&vec![], &vec![], &vec![]).is_empty());
}

#[test]
fn strip_key_line_breaks() {
    assert_eq!(strip_line_breaks("aGVsbG8=\n"), "aGVsbG8=");
    assert_eq!(strip_line_breaks("a\nb\n\nc"), "abc");
    assert_eq!(strip_line_breaks(""), "");
    let once = strip_line_breaks("x\ny\n");
    assert_eq!(strip_line_breaks(&once), once);
    assert!(!once.contains('\n'));
    assert_eq!(strip_line_breaks("no breaks"), "no breaks");
}

#[test]
fn from_queryable_records() {
    let server = Server::from(QueryableServer {
        id: 1,
        name: "gw".to_string(),
        description: None,
        forward_interface: Some("eth0".to_string()),
        external_ip_address: "1.2.3.4".to_string(),
        keypair_id: 5,
        vpn_ip_address_id: 6,
    });
    assert_eq!(server.id, 1);
    assert_eq!(server.forward_interface.as_deref(), Some("eth0"));
    let client = Client::from(QueryableClient {
        id: 2,
        name: "phone".to_string(),
        description: Some("d".to_string()),
        keepalive_interval: 30,
        dns_server_id: 1,
        keypair_id: 2,
        vpn_ip_address_id: 3,
    });
    assert_eq!(client.name, "phone");
    assert_eq!(client.keepalive_interval, 30);
    let jwt = JwtUser::from(User { id: 7, username: "admin".to_string(), password: "x".to_string() });
    assert_eq!(jwt.id, 7);
    assert_eq!(jwt.username, "admin");
}

#[test]
fn client_configuration_text() {
    let client = Client { id: 1, name: "laptop".to_string(), description: None, keepalive_interval: 25 };
    let parts = ClientConfigParts {
        server_public_key: "SERVERPUB=".to_string(),
        server_external_ip_address: "vpn.example.org".to_string(),
        listen_port: 51820,
        subnetmask: 24,
        client_private_key: "CLIENT+PRIV/=".to_string(),
        dns_server_ip: "10.0.0.53".to_string(),
        client_ip: "10.0.0.7".to_string(),
    };
    let config = client.render_config(&parts).unwrap();
    assert_eq!(
        config,
        "[Interface]\nPrivateKey = CLIENT+PRIV/=\nAddress = 10.0.0.7/24\nDNS = 10.0.0.53\n\n[Peer]\nPublicKey = SERVERPUB=\nAllowedIPs = 0.0.0.0/0\nEndpoint = vpn.example.org:51820\nPersistentKeepalive = 25"
    );
}

#[test]
fn client_configuration_from_found_records() {
    let client = Client { id: 1, name: "laptop".to_string(), description: None, keepalive_interval: 25 };
    let server = || {
        Some(ClientConfigServer {
            public_key: "SERVERPUB=".to_string(),
            external_ip_address: "vpn.example.org".to_string(),
        })
    };
    let key = || Some("CLIENT+PRIV/=".to_string());
    let dns = || Some("10.0.0.53".to_string());
    let ip = || Some("10.0.0.7".to_string());
    let config = client.config(server(), Some(stored_network()), key(), dns(), ip()).unwrap().unwrap();
    assert_eq!(
        config,
        "[Interface]\nPrivateKey = CLIENT+PRIV/=\nAddress = 10.0.0.7/24\nDNS = 10.0.0.53\n\n[Peer]\nPublicKey = SERVERPUB=\nAllowedIPs = 0.0.0.0/0\nEndpoint = vpn.example.org:51820\nPersistentKeepalive = 25"
    );
    // the network has no server
    assert!(client.config(None, Some(stored_network()), key(), dns(), ip()).is_none());
    assert!(client.config(server(), None, key(), dns(), ip()).is_none());
    assert!(client.config(server(), Some(stored_network()), None, dns(), ip()).is_none());
    assert!(client.config(server(), Some(stored_network()), key(), None, ip()).is_none());
    assert!(client.config(server(), Some(stored_network()), key(), dns(), None).is_none());
}

#[test]
fn server_configuration_values() {
    let config = ServerConfig::new(
        "10.0.0.1",
        &stored_network(),
        "PRIV".to_string(),
        vec![ClientServerConfig {
            name: "laptop".to_string(),
            public_key: "PUB".to_string(),
            ip_address: "10.0.0.7".to_string(),
        }],
    );
    assert_eq!(config.server_address, "10.0.0.1/24");
    assert_eq!(config.listen_port, 51820);
    assert_eq!(config.server_private_key, "PRIV");
    assert_eq!(config.clients.len(), 1);
}

#[test]
fn server_configuration_rendering() {
    let server = Server {
        id: 1,
        name: "gateway".to_string(),
        description: None,
        forward_interface: Some("eth0".to_string()),
        external_ip_address: "vpn.example.org".to_string(),
    };
    let clients = vec![
        ClientServerConfig {
            name: "laptop".to_string(),
            public_key: "PUB1".to_string(),
            ip_address: "10.0.0.7".to_string(),
        },
        ClientServerConfig {
            name: "phone".to_string(),
            public_key: "PUB2".to_string(),
            ip_address: "10.0.0.8".to_string(),
        },
    ];
    let config = server
        .config("10.0.0.1", &stored_network(), "PRIV".to_string(), Some(clients))
        .unwrap()
        .unwrap();
    assert_eq!(
        config,
        "# Server configuration\n[Interface]\nAddress = 10.0.0.1/24\nListenPort = 51820\nPrivateKey = PRIV\n\n# Clients\n## laptop\n[Peer]\nPublicKey = PUB1\nAllowedIps = 10.0.0.7/32\n## phone\n[Peer]\nPublicKey = PUB2\nAllowedIps = 10.0.0.8/32\n"
    );
    let empty = server
        .config("10.0.0.1", &stored_network(), "PRIV".to_string(), Some(Vec::new()))
        .unwrap()
        .unwrap();
    assert_eq!(
        empty,
        "# Server configuration\n[Interface]\nAddress = 10.0.0.1/24\nListenPort = 51820\nPrivateKey = PRIV\n\n# Clients\n"
    );
    assert!(server.config("10.0.0.1", &stored_network(), "PRIV".to_string(), None).is_none());
}

#[test]
fn password_checks() {
    let hash = bcrypt::hash("hunter2", 4).unwrap();
    let user = User { id: 42, username: "admin".to_string(), password: hash };
    assert!(check_password(&user, "hunter2").is_ok());
    assert!(matches!(check_password(&user, "wrong"), Err(LoginError::WrongCredentials)));
    assert_eq!(
        check_password(&user, "wrong").unwrap_err().message(),
        "Wrong username or password"
    );
    let broken = User { id: 1, username: "b".to_string(), password: "not a hash".to_string() };
    match check_password(&broken, "x") {
        Err(LoginError::Hash(text)) => assert!(!text.is_empty()),
        _ => panic!("a malformed hash cannot be checked"),
    }
}

#[test]
fn login_issues_claims() {
    let hash = bcrypt::hash("pw", 4).unwrap();
    let user = User { id: -5, username: "root".to_string(), password: hash.clone() };
    let before = chrono::Utc::now().timestamp();
    let claims = login(user, "pw").unwrap();
    let after = chrono::Utc::now().timestamp();
    assert_eq!(claims.sub, "-5");
    assert_eq!(claims.user.id, -5);
    assert_eq!(claims.user.username, "root");
    assert!(claims.exp as i64 >= before + 3600 && claims.exp as i64 <= after + 3600);
    let user = User { id: 1, username: "root".to_string(), password: hash };
    assert!(matches!(login(user, "nope"), Err(LoginError::WrongCredentials)));
}

#[test]
fn claims_at_a_given_time() {
    let user = JwtUser { id: 3, username: "u".to_string() };
    let claims = Claims::issued_at(&user, 1_000_000);
    assert_eq!(claims.sub, "3");
    assert_eq!(claims.exp, 1_003_600);
    assert_eq!(claims.user.username, "u");
    let now = Claims::new(&user);
    assert!(now.exp > 1_600_000_000);
}

#[test]
fn secret_key_text() {
    assert_eq!(SecretKey("s3cr3t".to_string()).to_string(), "s3cr3t");
}

#[test]
fn tokens_from_headers() {
    let token: Token = get_token_from_headers(Some("abc".to_string()));
    assert_eq!(token.get_token().map(|t| t.as_str()), Some("abc"));
    assert!(get_token_from_headers(None).get_token().is_none());
}

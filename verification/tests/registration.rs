use vpn_api::models::server::{InputServer, InsertableServer, Server};
use vpn_api::models::vpn_network::VpnNetwork;
use vpn_api::registration::{CreationAction, CreationError, CreationEvent, CreationStep, PeerKind};
use vpn_api::schemas::client::{create_client, InputClient, InsertableClient};
use vpn_api::schemas::server::create_server;

fn network(ip_network: &str, subnetmask: i32) -> VpnNetwork {
    VpnNetwork {
        id: 3,
        name: "office".to_string(),
        description: None,
        ip_network: ip_network.to_string(),
        subnetmask,
        listen_port: 51820,
        interface_name: "wg0".to_string(),
    }
}

fn client_input(ip: &str) -> InputClient {
    InputClient {
        name: "laptop".to_string(),
        description: Some("work".to_string()),
        ip_address: ip.to_string(),
        vpn_network_id: 3,
        keepalive_interval: 25,
        dns_server_id: 5,
        keypair_id: 9,
    }
}

fn server_input(ip: &str) -> InputServer {
    InputServer {
        name: "gateway".to_string(),
        description: None,
        forward_interface: Some("eth0".to_string()),
        external_ip_address: "vpn.example.org".to_string(),
        keypair_id: 2,
        ip_address: ip.to_string(),
        vpn_network_id: 3,
    }
}

fn failure_message(action: CreationAction) -> String {
    match action {
        CreationAction::Fail(e) => e.message(),
        _ => panic!("expected a failure"),
    }
}

#[test]
fn client_registration_succeeds() {
    let input = client_input("10.8.0.7");
    let (mut creation, action) = create_client(&input);
    assert!(matches!(action, CreationAction::LookUpDnsServer(5)));
    let action = creation.advance(CreationEvent::DnsServerFound(true));
    assert!(matches!(action, CreationAction::LookUpKeypair(9)));
    let action = creation.advance(CreationEvent::KeypairFound(true));
    assert!(matches!(action, CreationAction::LookUpVpnNetwork(3)));
    let action = creation.advance(CreationEvent::VpnNetworkFound(Some(network("10.8.0.0", 24))));
    match action {
        CreationAction::ReserveAddress { vpn_network_id, ip_address } => {
            assert_eq!(vpn_network_id, 3);
            assert_eq!(ip_address, "10.8.0.7");
        }
        _ => panic!("expected the reservation"),
    }
    assert!(!creation.is_finished());
    let action = creation.advance(CreationEvent::AddressReserved(Ok(44)));
    assert!(matches!(action, CreationAction::InsertPeer { vpn_ip_address_id: 44 }));
    assert!(creation.is_finished());
    assert_eq!(creation.step, CreationStep::Finished);
    let record = InsertableClient::new(&input, 44);
    assert_eq!(record.name, "laptop");
    assert_eq!(record.description.as_deref(), Some("work"));
    assert_eq!(record.keepalive_interval, 25);
    assert_eq!(record.dns_server_id, 5);
    assert_eq!(record.keypair_id, 9);
    assert_eq!(record.vpn_ip_address_id, 44);
}

#[test]
fn client_without_dns_server() {
    let (mut creation, _) = create_client(&client_input("10.8.0.7"));
    let action = creation.advance(CreationEvent::DnsServerFound(false));
    assert_eq!(failure_message(action), "DNS Server with id 5 not found for client");
    assert!(creation.is_finished());
}

#[test]
fn client_without_keypair() {
    let (mut creation, _) = create_client(&client_input("10.8.0.7"));
    creation.advance(CreationEvent::DnsServerFound(true));
    let action = creation.advance(CreationEvent::KeypairFound(false));
    assert_eq!(failure_message(action), "Keypair with id 9 not found for client");
}

#[test]
fn client_without_network() {
    let (mut creation, _) = create_client(&client_input("10.8.0.7"));
    creation.advance(CreationEvent::DnsServerFound(true));
    creation.advance(CreationEvent::KeypairFound(true));
    let action = creation.advance(CreationEvent::VpnNetworkFound(None));
    assert_eq!(failure_message(action), "VPN network with id 3 not found for client");
}

#[test]
fn client_outside_network() {
    let (mut creation, _) = create_client(&client_input("10.9.0.7"));
    creation.advance(CreationEvent::DnsServerFound(true));
    creation.advance(CreationEvent::KeypairFound(true));
    let action = creation.advance(CreationEvent::VpnNetworkFound(Some(network("10.8.0.0", 24))));
    assert_eq!(failure_message(action), "IP address 10.9.0.7 is not in range of network 10.8.0.0/24");
    assert!(creation.is_finished());
}

#[test]
fn client_address_taken() {
    let (mut creation, _) = create_client(&client_input("10.8.0.7"));
    creation.advance(CreationEvent::DnsServerFound(true));
    creation.advance(CreationEvent::KeypairFound(true));
    creation.advance(CreationEvent::VpnNetworkFound(Some(network("10.8.0.0", 16))));
    let action = creation.advance(CreationEvent::AddressReserved(Err("duplicate key".to_string())));
    assert_eq!(
        failure_message(action),
        "Could not create client. Maybe this IP address is already taken? (Error: duplicate key)"
    );
}

#[test]
fn server_registration_skips_dns() {
    let input = server_input("10.8.0.1");
    let (mut creation, action) = create_server(&input);
    assert!(matches!(action, CreationAction::LookUpKeypair(2)));
    assert_eq!(creation.request.kind, PeerKind::Server);
    let action = creation.advance(CreationEvent::KeypairFound(true));
    assert!(matches!(action, CreationAction::LookUpVpnNetwork(3)));
    let action = creation.advance(CreationEvent::VpnNetworkFound(Some(network("10.8.0.0", 24))));
    assert!(matches!(action, CreationAction::ReserveAddress { vpn_network_id: 3, .. }));
    let action = creation.advance(CreationEvent::AddressReserved(Ok(12)));
    assert!(matches!(action, CreationAction::InsertPeer { vpn_ip_address_id: 12 }));
    let record = InsertableServer::new(&input, 12);
    assert_eq!(record.external_ip_address, "vpn.example.org");
    assert_eq!(record.forward_interface.as_deref(), Some("eth0"));
    assert_eq!(record.keypair_id, 2);
    assert_eq!(record.vpn_ip_address_id, 12);
}

#[test]
fn server_address_taken_names_server() {
    let (mut creation, _) = Server::create(&server_input("10.8.0.1"));
    creation.advance(CreationEvent::KeypairFound(true));
    creation.advance(CreationEvent::VpnNetworkFound(Some(network("10.8.0.0", 24))));
    let action = creation.advance(CreationEvent::AddressReserved(Err("taken".to_string())));
    assert_eq!(
        failure_message(action),
        "Could not create server. Maybe this IP address is already taken? (Error: taken)"
    );
}

#[test]
fn error_messages() {
    let e = CreationError::AddressOutOfRange {
        ip_address: "1.2.3.4".to_string(),
        ip_network: "10.0.0.0".to_string(),
        subnetmask: 8,
    };
    assert_eq!(e.message(), "IP address 1.2.3.4 is not in range of network 10.0.0.0/8");
    assert_eq!(CreationError::KeypairNotFound(-3).message(), "Keypair with id -3 not found for client");
}

use vpn_api::ipv4::Ipv4Address;
use vpn_api::validate::{contains_id, is_ip_in_network, is_keypair_used};

#[test]
fn test_is_ip_in_network() {
    assert!(is_ip_in_network(
        "192.168.0.0".parse().unwrap(),
        24,
        "192.168.0.2".parse().unwrap()
    ));
    assert_eq!(
        is_ip_in_network(
            "192.168.0.0".parse().unwrap(),
            24,
            "192.168.50.2".parse().unwrap()
        ),
        false
    );
}

#[test]
fn network_must_be_the_network_address() {
    // 192.168.0.2 is in 192.168.0.0/24, but not "in" 192.168.0.1/24: the host bits of
    // the network are compared too.
    let ip = Ipv4Address::new(192, 168, 0, 2);
    assert!(!is_ip_in_network(Ipv4Address::new(192, 168, 0, 1), 24, ip));
}

#[test]
fn prefix_zero_and_thirty_two() {
    let ip = Ipv4Address::new(10, 20, 30, 40);
    assert!(is_ip_in_network(Ipv4Address::new(0, 0, 0, 0), 0, ip));
    assert!(!is_ip_in_network(Ipv4Address::new(10, 0, 0, 0), 0, ip));
    assert!(is_ip_in_network(ip, 32, ip));
    assert!(!is_ip_in_network(Ipv4Address::new(10, 20, 30, 41), 32, ip));
}

#[test]
fn prefix_inside_an_octet() {
    // 172.16.0.0/12 holds 172.16.0.0 to 172.31.255.255
    let net = Ipv4Address::new(172, 16, 0, 0);
    assert!(is_ip_in_network(net, 12, Ipv4Address::new(172, 31, 255, 255)));
    assert!(!is_ip_in_network(net, 12, Ipv4Address::new(172, 32, 0, 0)));
    assert!(is_ip_in_network(Ipv4Address::new(10, 0, 0, 128), 25, Ipv4Address::new(10, 0, 0, 200)));
    assert!(!is_ip_in_network(Ipv4Address::new(10, 0, 0, 0), 25, Ipv4Address::new(10, 0, 0, 200)));
}

#[test]
fn keypair_usage() {
    let clients = vec![1, 4];
    let servers = vec![7];
    assert!(is_keypair_used(&clients, &servers, 4));
    assert!(is_keypair_used(&clients, &servers, 7));
    assert!(!is_keypair_used(&clients, &servers, 2));
    assert!(!is_keypair_used(&vec![], &vec![], 1));
    assert!(contains_id(&vec![3, 5], 5));
    assert!(!contains_id(&vec![3, 5], 4));
}

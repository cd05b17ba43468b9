use vpn_api::ipv4::{AddressParseError, Ipv4Address};

#[test]
fn parse_dotted_quad() {
    assert_eq!(Ipv4Address::parse("192.168.0.1"), Some(Ipv4Address::new(192, 168, 0, 1)));
    assert_eq!(Ipv4Address::parse("0.0.0.0"), Some(Ipv4Address::new(0, 0, 0, 0)));
    assert_eq!(Ipv4Address::parse("255.255.255.255"), Some(Ipv4Address::new(255, 255, 255, 255)));
    assert_eq!(Ipv4Address::parse("10.0.100.7"), Some(Ipv4Address::new(10, 0, 100, 7)));
}

#[test]
fn parse_refuses_other_texts() {
    for text in [
        "", "1.2.3", "1.2.3.4.5", "256.1.1.1", "1.2.3.256", "01.2.3.4", "1.2.3.04", "1..3.4",
        "1.2.3.", ".1.2.3", " 1.2.3.4", "1.2.3.4 ", "a.b.c.d", "1.2.3.4/24", "::1", "+1.2.3.4",
        "1000.2.3.4", "00.0.0.0",
    ] {
        assert_eq!(Ipv4Address::parse(text), None, "{text}");
    }
}

#[test]
fn text_of_address() {
    assert_eq!(Ipv4Address::new(192, 168, 0, 10).to_text(), "192.168.0.10");
    assert_eq!(Ipv4Address::new(0, 0, 0, 0).to_text(), "0.0.0.0");
    assert_eq!(Ipv4Address::new(255, 1, 20, 100).to_text(), "255.1.20.100");
}

#[test]
fn text_roundtrip() {
    for a in [0u8, 1, 9, 10, 99, 100, 199, 200, 255] {
        for b in [0u8, 7, 64, 255] {
            let addr = Ipv4Address::new(a, b, b, a);
            assert_eq!(Ipv4Address::parse(&addr.to_text()), Some(addr));
        }
    }
}

#[test]
fn from_str_uses_the_parser() {
    let a: Result<Ipv4Address, AddressParseError> = "172.16.5.4".parse();
    assert_eq!(a, Ok(Ipv4Address::new(172, 16, 5, 4)));
    let b: Result<Ipv4Address, AddressParseError> = "172.16.5".parse();
    assert_eq!(b, Err(AddressParseError));
}

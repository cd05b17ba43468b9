//! IPv4 addresses: their dotted-quad text, its parser, and network prefixes.
use vstd::prelude::*;

use crate::text::{
    capped_digits_value, chars_of, decimal_text, digits_value, find_char, find_from,
    is_digit_run, lemma_decimal_text, lemma_find_from, magnitude_cap, push_char,
    push_decimal,
};

verus! {

/// An IPv4 address, by its four octets, most significant first.
#[derive(Clone, Copy, Debug, PartialEq, Eq, Structural)]
pub struct Ipv4Address(pub u8, pub u8, pub u8, pub u8);

/// The error of a text that is no IPv4 address in dotted-quad form.
#[derive(Clone, Copy, Debug, PartialEq, Eq, Structural)]
pub struct AddressParseError;

/// The dotted-quad text of `a`: four decimal octets without leading zeros, joined by dots.
pub open spec fn ipv4_text(a: Ipv4Address) -> Seq<char> {
    decimal_text(a.0 as nat) + seq!['.'] + decimal_text(a.1 as nat) + seq!['.']
        + decimal_text(a.2 as nat) + seq!['.'] + decimal_text(a.3 as nat)
}

/// The octet that the run of characters `t` denotes, where it denotes one.
pub open spec fn octet_of(t: Seq<char>) -> Option<u8> {
    if is_digit_run(t) && digits_value(t) <= 255 {
        Some(digits_value(t) as u8)
    } else {
        None
    }
}

/// Reads `s` as four runs of digits separated by the first three dots, each worth at
/// most 255; leading zeros are read here and refused by [`canonical_address`].
pub open spec fn dotted_octets(s: Seq<char>) -> Option<Ipv4Address> {
    match find_from(s, '.', 0) {
        None => None,
        Some(d1) => match find_from(s, '.', d1 + 1) {
            None => None,
            Some(d2) => match find_from(s, '.', d2 + 1) {
                None => None,
                Some(d3) => match (
                    octet_of(s.subrange(0, d1)),
                    octet_of(s.subrange(d1 + 1, d2)),
                    octet_of(s.subrange(d2 + 1, d3)),
                    octet_of(s.subrange(d3 + 1, s.len() as int)),
                ) {
                    (Some(a), Some(b), Some(c), Some(d)) => Some(Ipv4Address(a, b, c, d)),
                    _ => None,
                },
            },
        },
    }
}

/// The address whose dotted-quad text is exactly `s`, if there is one.
pub open spec fn canonical_address(s: Seq<char>) -> Option<Ipv4Address> {
    match dotted_octets(s) {
        Some(a) => if ipv4_text(a) == s { Some(a) } else { None },
        None => None,
    }
}

/// The 32-bit number of the address.
pub open spec fn address_bits(a: Ipv4Address) -> u32 {
    ((a.0 as u32) << 24u32) | ((a.1 as u32) << 16u32) | ((a.2 as u32) << 8u32) | (a.3 as u32)
}

/// The address of a 32-bit number.
pub open spec fn address_of_bits(v: u32) -> Ipv4Address {
    Ipv4Address((v >> 24u32) as u8, (v >> 16u32) as u8, (v >> 8u32) as u8, v as u8)
}

/// The netmask of a prefix length: the `p` most significant bits set (`p` in `0..=32`).
pub open spec fn prefix_mask(p: int) -> u32 {
    if p <= 0 {
        0
    } else if p >= 32 {
        0xffff_ffffu32
    } else {
        0xffff_ffffu32 << ((32 - p) as u32)
    }
}

/// The network address of `a` under a prefix of `p` bits: its host bits cleared.
pub open spec fn network_address(a: Ipv4Address, p: int) -> Ipv4Address {
    address_of_bits(address_bits(a) & prefix_mask(p))
}

/// Whether `a` lies in the network `network/p`, that is, whether clearing the host
/// bits of `a` gives exactly `network`.
pub open spec fn in_network(network: Ipv4Address, p: int, a: Ipv4Address) -> bool {
    network_address(a, p) == network
}

/// An address and its 32-bit number determine each other.
pub proof fn lemma_address_bits_roundtrip(a: Ipv4Address, v: u32)
    ensures
        address_of_bits(address_bits(a)) == a,
        address_bits(address_of_bits(v)) == v,
{
    let (x0, x1, x2, x3) = (a.0, a.1, a.2, a.3);
    assert(((((x0 as u32) << 24u32) | ((x1 as u32) << 16u32) | ((x2 as u32) << 8u32) | (
    x3 as u32)) >> 24u32) as u8 == x0) by (bit_vector);
    assert(((((x0 as u32) << 24u32) | ((x1 as u32) << 16u32) | ((x2 as u32) << 8u32) | (
    x3 as u32)) >> 16u32) as u8 == x1) by (bit_vector);
    assert(((((x0 as u32) << 24u32) | ((x1 as u32) << 16u32) | ((x2 as u32) << 8u32) | (
    x3 as u32)) >> 8u32) as u8 == x2) by (bit_vector);
    assert((((x0 as u32) << 24u32) | ((x1 as u32) << 16u32) | ((x2 as u32) << 8u32) | (
    x3 as u32)) as u8 == x3) by (bit_vector);
    assert(((((v >> 24u32) as u8) as u32) << 24u32) | ((((v >> 16u32) as u8) as u32) << 16u32)
        | ((((v >> 8u32) as u8) as u32) << 8u32) | ((v as u8) as u32) == v) by (bit_vector);
}

/// What membership in a network means at its ends and for the network itself: a
/// network that holds any address has its host bits cleared (so one written with host
/// bits set holds no address at all); under a prefix of 32 bits a network holds exactly
/// its own address; under a prefix of 0 bits only `0.0.0.0` is a network, and it holds
/// every address.
pub proof fn lemma_in_network(network: Ipv4Address, p: int, a: Ipv4Address)
    requires
        0 <= p <= 32,
    ensures
        in_network(network, p, a) ==> in_network(network, p, network),
        in_network(network, 32, a) <==> a == network,
        in_network(network, 0, a) <==> network == Ipv4Address(0, 0, 0, 0),
{
    let v = address_bits(a);
    let m = prefix_mask(p);
    lemma_address_bits_roundtrip(a, v & m);
    lemma_address_bits_roundtrip(network, v & m);
    assert((v & m) & m == v & m) by (bit_vector);
    assert(v & 0xffff_ffffu32 == v) by (bit_vector);
    assert(v & 0u32 == 0u32) by (bit_vector);
    let zero: u32 = 0;
    assert((zero >> 24u32) as u8 == 0 && (zero >> 16u32) as u8 == 0 && (zero >> 8u32) as u8
        == 0 && zero as u8 == 0) by (bit_vector)
        requires
            zero == 0,
    ;
    assert(address_of_bits(0) == Ipv4Address(0, 0, 0, 0));
}

/// Membership under the prefixes that end on an octet: an address lies in `n/8`, `n/16`
/// or `n/24` exactly when its first one, two or three octets are those of `n` and the
/// remaining octets of `n` are zero.
pub proof fn lemma_in_network_octets(n: Ipv4Address, a: Ipv4Address)
    ensures
        in_network(n, 8, a) <==> (a.0 == n.0 && n.1 == 0 && n.2 == 0 && n.3 == 0),
        in_network(n, 16, a) <==> (a.0 == n.0 && a.1 == n.1 && n.2 == 0 && n.3 == 0),
        in_network(n, 24, a) <==> (a.0 == n.0 && a.1 == n.1 && a.2 == n.2 && n.3 == 0),
{
    let (x0, x1, x2, x3) = (a.0, a.1, a.2, a.3);
    assert(prefix_mask(8) == 0xff00_0000u32) by {
        assert(0xffff_ffffu32 << 24u32 == 0xff00_0000u32) by (bit_vector);
    }
    assert(prefix_mask(16) == 0xffff_0000u32) by {
        assert(0xffff_ffffu32 << 16u32 == 0xffff_0000u32) by (bit_vector);
    }
    assert(prefix_mask(24) == 0xffff_ff00u32) by {
        assert(0xffff_ffffu32 << 8u32 == 0xffff_ff00u32) by (bit_vector);
    }
    let v = address_bits(a);
    assert(v == ((x0 as u32) << 24u32) | ((x1 as u32) << 16u32) | ((x2 as u32) << 8u32) | (x3 as u32));
    assert({
        let w = (((x0 as u32) << 24u32) | ((x1 as u32) << 16u32) | ((x2 as u32) << 8u32) | (x3 as u32)) & 0xff00_0000u32;
        (w >> 24u32) as u8 == x0 && (w >> 16u32) as u8 == 0 && (w >> 8u32) as u8 == 0 && w as u8 == 0
    }) by (bit_vector);
    assert({
        let w = (((x0 as u32) << 24u32) | ((x1 as u32) << 16u32) | ((x2 as u32) << 8u32) | (x3 as u32)) & 0xffff_0000u32;
        (w >> 24u32) as u8 == x0 && (w >> 16u32) as u8 == x1 && (w >> 8u32) as u8 == 0 && w as u8 == 0
    }) by (bit_vector);
    assert({
        let w = (((x0 as u32) << 24u32) | ((x1 as u32) << 16u32) | ((x2 as u32) << 8u32) | (x3 as u32)) & 0xffff_ff00u32;
        (w >> 24u32) as u8 == x0 && (w >> 16u32) as u8 == x1 && (w >> 8u32) as u8 == x2 && w as u8 == 0
    }) by (bit_vector);
    assert(network_address(a, 8) == Ipv4Address(x0, 0, 0, 0));
    assert(network_address(a, 16) == Ipv4Address(x0, x1, 0, 0));
    assert(network_address(a, 24) == Ipv4Address(x0, x1, x2, 0));
}

/// The dotted-quad text of an address reads back as that address: the layout of the
/// text puts its dots after each octet's digits.
pub proof fn lemma_dotted_octets_of_text(a: Ipv4Address)
    ensures
        dotted_octets(ipv4_text(a)) == Some(a),
        canonical_address(ipv4_text(a)) == Some(a),
{
    let t0 = decimal_text(a.0 as nat);
    let t1 = decimal_text(a.1 as nat);
    let t2 = decimal_text(a.2 as nat);
    let t3 = decimal_text(a.3 as nat);
    lemma_decimal_text(a.0 as nat);
    lemma_decimal_text(a.1 as nat);
    lemma_decimal_text(a.2 as nat);
    lemma_decimal_text(a.3 as nat);
    let s = ipv4_text(a);
    let d1 = t0.len() as int;
    let d2 = d1 + 1 + t1.len();
    let d3 = d2 + 1 + t2.len();
    assert(s.len() == d3 + 1 + t3.len());
    assert(s[d1] == '.');
    assert(s[d2] == '.');
    assert(s[d3] == '.');
    assert(s.subrange(0, d1) =~= t0);
    assert(s.subrange(d1 + 1, d2) =~= t1);
    assert(s.subrange(d2 + 1, d3) =~= t2);
    assert(s.subrange(d3 + 1, s.len() as int) =~= t3);
    assert forall|k: int| 0 <= k < d1 implies s[k] != '.' by {
        assert(s[k] == t0[k]);
        assert(crate::text::is_digit(t0[k]));
    }
    assert forall|k: int| d1 + 1 <= k < d2 implies s[k] != '.' by {
        assert(s[k] == t1[k - d1 - 1]);
        assert(crate::text::is_digit(t1[k - d1 - 1]));
    }
    assert forall|k: int| d2 + 1 <= k < d3 implies s[k] != '.' by {
        assert(s[k] == t2[k - d2 - 1]);
        assert(crate::text::is_digit(t2[k - d2 - 1]));
    }
    lemma_find_from(s, '.', 0, d1);
    lemma_find_from(s, '.', d1 + 1, d2);
    lemma_find_from(s, '.', d2 + 1, d3);
}

/// The dotted-quad text is unambiguous: [`canonical_address`] finds an address exactly
/// for the texts of addresses, and then the address of that text.
pub proof fn lemma_canonical_address(s: Seq<char>, a: Ipv4Address)
    ensures
        canonical_address(s) == Some(a) <==> s == ipv4_text(a),
{
    lemma_dotted_octets_of_text(a);
}

/// The octet that `chars[start..end]` denotes, if it denotes one.
fn octet_at(chars: &Vec<char>, start: usize, end: usize) -> (r: Option<u8>)
    requires
        start <= end <= chars.len(),
    ensures
        r == octet_of(chars@.subrange(start as int, end as int)),
{
    if start == end {
        return None;
    }
    match capped_digits_value(chars, start, end) {
        None => None,
        Some(m) => {
            if m <= 255 {
                Some(m as u8)
            } else {
                None
            }
        },
    }
}

impl Ipv4Address {
    /// The address with the four given octets.
    pub fn new(a: u8, b: u8, c: u8, d: u8) -> (r: Ipv4Address)
        ensures
            r == Ipv4Address(a, b, c, d),
    {
        Ipv4Address(a, b, c, d)
    }

    /// Appends the dotted-quad text of the address to `out`.
    pub fn push_text(&self, out: &mut String)
        ensures
            final(out)@ == old(out)@ + ipv4_text(*self),
    {
        push_decimal(out, self.0 as u32);
        push_char(out, '.');
        push_decimal(out, self.1 as u32);
        push_char(out, '.');
        push_decimal(out, self.2 as u32);
        push_char(out, '.');
        push_decimal(out, self.3 as u32);
        assert(out@ =~= old(out)@ + ipv4_text(*self));
    }

    /// The dotted-quad text of the address, such as `192.168.0.1`.
    pub fn to_text(&self) -> (r: String)
        ensures
            r@ == ipv4_text(*self),
    {
        let mut r = String::new();
        self.push_text(&mut r);
        assert(r@ =~= ipv4_text(*self));
        r
    }

    /// Reads an address in dotted-quad form: four decimal octets of at most 255 without
    /// leading zeros, joined by dots. Exactly the texts of addresses are accepted.
    pub fn parse(s: &str) -> (r: Option<Ipv4Address>)
        ensures
            r == canonical_address(s@),
            r matches Some(a) ==> s@ == ipv4_text(a),
            r is None ==> forall|a: Ipv4Address| s@ != #[trigger] ipv4_text(a),
    {
        let chars = chars_of(s);
        let ghost sv = s@;
        proof {
            assert forall|a: Ipv4Address| canonical_address(sv) is None implies sv
                != #[trigger] ipv4_text(a) by {
                lemma_dotted_octets_of_text(a);
            }
        }
        let d1 = match find_char(&chars, '.', 0) {
            Some(i) => i,
            None => return None,
        };
        let d2 = match find_char(&chars, '.', d1 + 1) {
            Some(i) => i,
            None => return None,
        };
        let d3 = match find_char(&chars, '.', d2 + 1) {
            Some(i) => i,
            None => return None,
        };
        let o0 = octet_at(&chars, 0, d1);
        let o1 = octet_at(&chars, d1 + 1, d2);
        let o2 = octet_at(&chars, d2 + 1, d3);
        let o3 = octet_at(&chars, d3 + 1, chars.len());
        match (o0, o1, o2, o3) {
            (Some(a), Some(b), Some(c), Some(d)) => {
                let candidate = Ipv4Address(a, b, c, d);
                let text = candidate.to_text();
                let original = s.to_owned();
                if text == original {
                    Some(candidate)
                } else {
                    None
                }
            },
            _ => None,
        }
    }
}

impl core::str::FromStr for Ipv4Address {
    type Err = AddressParseError;

    /// Reads an address in dotted-quad form, as [`Ipv4Address::parse`] does: the address
    /// whose text is exactly `s`, or [`AddressParseError`] where there is none.
    fn from_str(s: &str) -> (r: Result<Ipv4Address, AddressParseError>)
        ensures
            r matches Ok(a) ==> canonical_address(s@) == Some(a) && s@ == ipv4_text(a),
            r is Err <==> canonical_address(s@) is None,
            r is Err ==> forall|a: Ipv4Address| s@ != #[trigger] ipv4_text(a),
    {
        match Ipv4Address::parse(s) {
            Some(a) => Ok(a),
            None => Err(AddressParseError),
        }
    }
}

} // verus!

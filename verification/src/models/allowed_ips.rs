//! The addresses that a client may reach through the vpn (WireGuard's `AllowedIPs`).
use vstd::prelude::*;

use crate::text::{
    chars_of, find_char, find_from, i32_from_text, lemma_find_from, parse_i32, parse_u32,
    string_of_chars,
    u32_from_text,
};

verus! {

/// An address that a client is allowed to reach.
pub struct InputAllowedIpAddress {
    /// The id of the client that should be associated with the address
    pub client_id: i32,
    pub ip_address: String,
}

/// An allowed address as it is stored: an address and a prefix length.
#[derive(Debug)]
pub struct AllowedIP {
    pub id: i32,
    pub ip: String,
    pub subnetmask: i32,
}

/// An allowed address that is insertable into the database.
#[derive(Debug)]
pub struct NewAllowedIp<'a> {
    pub ip: &'a str,
    pub subnetmask: i32,
}

/// The prefix length that an allowed address without one gets.
pub open spec fn default_subnetmask() -> int {
    24
}

/// Where the segment of `s` that starts at `from` ends: at the next `/`, or at the end.
pub open spec fn segment_end(s: Seq<char>, from: int) -> int {
    match find_from(s, '/', from) {
        Some(i) => i,
        None => s.len() as int,
    }
}

/// The text before the first `/` of `s` (all of `s` where it has none): the first item
/// of `s.split('/')`.
pub open spec fn address_part(s: Seq<char>) -> Seq<char> {
    s.subrange(0, segment_end(s, 0))
}

/// The text between the first `/` of `s` and the next one (or the end): the second item
/// of `s.split('/')`, where there is one.
pub open spec fn prefix_part(s: Seq<char>) -> Option<Seq<char>> {
    match find_from(s, '/', 0) {
        Some(i) => Some(s.subrange(i + 1, segment_end(s, i + 1))),
        None => None,
    }
}

/// The prefix length under which an allowed address `s` is looked up: the prefix part
/// read as an `i32`, or 24 where it is missing or no such number.
pub open spec fn lookup_subnetmask(s: Seq<char>) -> i32 {
    match prefix_part(s) {
        Some(t) => match i32_from_text(t) {
            Some(v) => v,
            None => default_subnetmask() as i32,
        },
        None => default_subnetmask() as i32,
    }
}

/// Whether an allowed address `s` can be created: its prefix part, where it has one,
/// is a `u32`.
pub open spec fn creatable(s: Seq<char>) -> bool {
    match prefix_part(s) {
        Some(t) => u32_from_text(t) is Some,
        None => true,
    }
}

/// The prefix length with which an allowed address `s` is created: the prefix part read
/// as a `u32`, or 24 where it is missing.
pub open spec fn creation_subnetmask(s: Seq<char>) -> u32 {
    match prefix_part(s) {
        Some(t) => u32_from_text(t)->0,
        None => default_subnetmask() as u32,
    }
}

/// An allowed address that is created from a text is found again by that text: its
/// address is the text's address part, and the prefix length stored with it (a `u32`
/// stored as an `i32`) is the one under which the text is looked up, wherever that length
/// fits in an `i32`.
pub proof fn lemma_created_allowed_ip_is_found(s: Seq<char>)
    requires
        creatable(s),
        creation_subnetmask(s) <= i32::MAX,
    ensures
        lookup_subnetmask(s) == creation_subnetmask(s) as i32,
{
}

/// The two segments of `ip_address` split at `/`: the address, and the prefix text
/// where there is one.
fn split_address(ip_address: &str) -> (r: (String, Option<String>))
    ensures
        r.0@ == address_part(ip_address@),
        r.1 is Some <==> prefix_part(ip_address@) is Some,
        r.1 matches Some(t) ==> prefix_part(ip_address@) == Some(t@),
{
    let chars = chars_of(ip_address);
    match find_char(&chars, '/', 0) {
        None => (string_of_chars(&chars, 0, chars.len()), None),
        Some(i) => {
            let end = match find_char(&chars, '/', i + 1) {
                Some(j) => j,
                None => chars.len(),
            };
            (string_of_chars(&chars, 0, i), Some(string_of_chars(&chars, i + 1, end)))
        },
    }
}

impl AllowedIP {
    /// The address and the prefix length under which the allowed address `ip_address`
    /// (in CIDR format) is looked up. If no subnetmask is given, or it is no number, 24
    /// is used.
    pub fn lookup_key(ip_address: &str) -> (r: (String, i32))
        ensures
            r.0@ == address_part(ip_address@),
            r.1 == lookup_subnetmask(ip_address@),
    {
        let (address, prefix) = split_address(ip_address);
        let subnetmask = match prefix {
            Some(t) => match parse_i32(t.as_str()) {
                Some(v) => v,
                None => 24,
            },
            None => 24,
        };
        (address, subnetmask)
    }

    /// The address and the prefix length with which the allowed address `ip` (in CIDR
    /// format) is created. If no subnetmask is given, 24 is used.
    pub fn creation_key(ip: &str) -> (r: (String, u32))
        requires
            creatable(ip@),
        ensures
            r.0@ == address_part(ip@),
            r.1 == creation_subnetmask(ip@),
    {
        let (address, prefix) = split_address(ip);
        let subnetmask = match prefix {
            Some(t) => match parse_u32(t.as_str()) {
                Some(v) => v,
                None => 24,
            },
            None => 24,
        };
        (address, subnetmask)
    }

    /// Whether the allowed address `ip` can be created: the text after its first `/`,
    /// where it has one, is a `u32`.
    pub fn is_creatable(ip: &str) -> (r: bool)
        ensures
            r == creatable(ip@),
    {
        let (_, prefix) = split_address(ip);
        match prefix {
            Some(t) => parse_u32(t.as_str()).is_some(),
            None => true,
        }
    }
}

impl<'a> NewAllowedIp<'a> {
    /// The record that stores the allowed address `ip` with the prefix length
    /// `subnetmask`, which is stored as an `i32`.
    pub fn new(ip: &'a str, subnetmask: u32) -> (r: NewAllowedIp<'a>)
        ensures
            r.ip@ == ip@,
            r.subnetmask == subnetmask as i32,
    {
        NewAllowedIp { ip, subnetmask: subnetmask as i32 }
    }
}


/// An allowed address written with a prefix: where `s[i]` is the first `/` and `s[j]` the
/// next one (or `j` the end), the address is `s[..i]` and the prefix text is
/// `s[i + 1..j]`. It is looked up under that text read as an `i32` (24 where it is no
/// such number), and it can be created exactly where the text is a `u32`, with that
/// number as its prefix length.
pub proof fn lemma_cidr_with_prefix(s: Seq<char>, i: int, j: int)
    requires
        0 <= i < j <= s.len(),
        s[i] == '/',
        forall|k: int| 0 <= k < i ==> s[k] != '/',
        forall|k: int| i < k < j ==> s[k] != '/',
        j == s.len() || s[j] == '/',
    ensures
        address_part(s) == s.subrange(0, i),
        prefix_part(s) == Some(s.subrange(i + 1, j)),
        i32_from_text(s.subrange(i + 1, j)) matches Some(v) ==> lookup_subnetmask(s) == v,
        i32_from_text(s.subrange(i + 1, j)) is None ==> lookup_subnetmask(s) == 24,
        creatable(s) <==> u32_from_text(s.subrange(i + 1, j)) is Some,
        u32_from_text(s.subrange(i + 1, j)) matches Some(v) ==> creation_subnetmask(s) == v,
{
    lemma_find_from(s, '/', 0, i);
    lemma_find_from(s, '/', i + 1, j);
}

/// An allowed address written without a prefix is looked up and created with the whole
/// text as its address and 24 as its prefix length.
pub proof fn lemma_cidr_without_prefix(s: Seq<char>)
    requires
        forall|k: int| 0 <= k < s.len() ==> s[k] != '/',
    ensures
        address_part(s) == s,
        prefix_part(s) is None,
        lookup_subnetmask(s) == 24,
        creatable(s),
        creation_subnetmask(s) == 24,
{
    lemma_find_from(s, '/', 0, s.len() as int);
    assert(s.subrange(0, s.len() as int) =~= s);
}

} // verus!

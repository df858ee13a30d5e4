//! The text of addresses and prefixes.

use vstd::prelude::*;

use crate::net::{IpAddr, IpNet};
use crate::text::decimal_text;

verus! {

/// The dotted decimal text of an IPv4 address.
pub open spec fn ipv4_text(address: u32) -> Seq<char> {
    decimal_text(address as int / 0x100_0000) + "."@ + decimal_text(
        address as int / 0x1_0000 % 0x100,
    ) + "."@ + decimal_text(address as int / 0x100 % 0x100) + "."@ + decimal_text(
        address as int % 0x100,
    )
}

/// What `ipnet::IpNet` reads from a text: whether the prefix is an IPv6 one,
/// the number of its address and its length.
pub uninterp spec fn parsed_prefix(text: Seq<char>) -> Option<(bool, u128, u8)>;

/// What `ipnet::IpNet` writes for a prefix.
pub uninterp spec fn displayed_prefix(ipv6: bool, address: u128, prefix_len: u8) -> Seq<char>;

/// What the standard library writes for an IPv6 address.
pub uninterp spec fn displayed_ipv6(address: u128) -> Seq<char>;

/// A prefix as plain values.
pub open spec fn prefix_parts(net: IpNet) -> (bool, u128, u8) {
    match net.addr {
        IpAddr::V4(address) => (false, address as u128, net.prefix_len),
        IpAddr::V6(address) => (true, address, net.prefix_len),
    }
}

/// The text of a prefix.
pub open spec fn prefix_text(net: IpNet) -> Seq<char> {
    let (ipv6, address, prefix_len) = prefix_parts(net);
    displayed_prefix(ipv6, address, prefix_len)
}

/// Whether a prefix is what a text says.
pub open spec fn reads_as(text: Seq<char>, net: IpNet) -> bool {
    parsed_prefix(text) == Some(prefix_parts(net))
}

/// Writes a prefix with the `Display` of `ipnet::Ipv4Net` and
/// `ipnet::Ipv6Net`: the address, a slash and the length. The text is a fixed
/// function of the prefix, it is spelled out for IPv4, and the `FromStr` of
/// `ipnet::IpNet` reads the prefix back from it. Which text an IPv6 address
/// has is not claimed.
#[verifier::external_body]
pub(crate) fn format_prefix(net: &IpNet) -> (r: String)
    requires
        net.wf(),
    ensures
        r@ == displayed_prefix(
            prefix_parts(*net).0,
            prefix_parts(*net).1,
            prefix_parts(*net).2,
        ),
        parsed_prefix(r@) == Some(prefix_parts(*net)),
        net.addr matches IpAddr::V4(address) ==> r@ == ipv4_text(address) + "/"@ + decimal_text(
            net.prefix_len as int,
        ),
{
    match net.addr {
        IpAddr::V4(address) => ipnet::Ipv4Net::new(address.into(), net.prefix_len).unwrap().to_string(),
        IpAddr::V6(address) => ipnet::Ipv6Net::new(address.into(), net.prefix_len).unwrap().to_string(),
    }
}

/// Reads a prefix with the `FromStr` of `ipnet::IpNet`. Whether there is one,
/// and which, is a fixed function of the text; its length is one of its
/// family.
#[verifier::external_body]
pub(crate) fn parse_prefix(text: &str) -> (r: Option<IpNet>)
    ensures
        r is Some == parsed_prefix(text@) is Some,
        r matches Some(net) ==> net.wf() && parsed_prefix(text@) == Some(prefix_parts(net)),
{
    match text.parse::<ipnet::IpNet>() {
        Ok(ipnet::IpNet::V4(net)) => Some(
            IpNet { addr: IpAddr::V4(net.addr().into()), prefix_len: net.prefix_len() },
        ),
        Ok(ipnet::IpNet::V6(net)) => Some(
            IpNet { addr: IpAddr::V6(net.addr().into()), prefix_len: net.prefix_len() },
        ),
        Err(_) => None,
    }
}

/// The text of an address.
pub open spec fn address_text(address: IpAddr) -> Seq<char> {
    match address {
        IpAddr::V4(number) => ipv4_text(number),
        IpAddr::V6(number) => displayed_ipv6(number),
    }
}

/// Writes an address with the standard library's `Display`, by way of
/// `ipnet::Ipv4Net::addr` and `ipnet::Ipv6Net::addr`: dotted decimal for IPv4,
/// and a fixed text for every IPv6 address, of which nothing else is claimed.
#[verifier::external_body]
pub(crate) fn format_address(address: &IpAddr) -> (r: String)
    ensures
        address matches IpAddr::V4(number) ==> r@ == ipv4_text(*number),
        address matches IpAddr::V6(number) ==> r@ == displayed_ipv6(*number),
{
    match address {
        IpAddr::V4(number) => ipnet::Ipv4Net::new((*number).into(), 32).unwrap().addr().to_string(),
        IpAddr::V6(number) => ipnet::Ipv6Net::new((*number).into(), 128).unwrap().addr().to_string(),
    }
}

/// Different prefixes have different texts.
pub proof fn lemma_text_names_prefix(a: IpNet, b: IpNet)
    requires
        reads_as(prefix_text(a), a),
        reads_as(prefix_text(b), b),
        prefix_text(a) == prefix_text(b),
    ensures
        a == b,
{
}

} // verus!

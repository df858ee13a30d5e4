//! Overlay addresses of the local node, and the commands that set up the host
//! around the TUN interface.

use vstd::prelude::*;

use crate::config::V2RuntimeConfig;
use crate::connection::big_endian_value;
use crate::dataplane::TUN_REGULAR_INPUT_BYTES;
use crate::digest::{blake3_digest, blake3_hash};
use crate::identity::EndpointId;
use crate::net::{IpAddr, IpNet};

pub mod kernel;
pub mod laws;
pub mod masquerade;

verus! {

/// Memory that `fq_codel` may hold on the TUN interface: twice the bounded
/// merge window of the reader. The kernel's own default would keep seconds of
/// stale data once the reader applies backpressure.
pub const TUN_FQ_CODEL_MEMORY_BYTES: usize = TUN_REGULAR_INPUT_BYTES * 2;

/// Packets that `fq_codel` may hold on the TUN interface.
pub const TUN_FQ_CODEL_PACKET_LIMIT: usize = 1024;

/// The kernel's main routing table.
pub const MAIN_TABLE: u32 = 254;

/// How often a stale rule is removed at most.
pub const RULE_REMOVAL_LIMIT: u32 = 32;

/// What the IPv6 overlay address of an endpoint is derived from.
pub open spec fn overlay_input(network_id: Seq<char>, endpoint: Seq<u8>) -> Seq<u8> {
    vstd::utf8::encode_utf8(network_id) + endpoint
}

/// The IPv6 overlay address of a digest: its first sixteen bytes, of which the
/// first is replaced by `0xfd`.
pub open spec fn overlay_ipv6_of(digest: Seq<u8>) -> int {
    big_endian_value(seq![0xfdu8] + digest.subrange(1, 16))
}

/// The value of a run of bytes stays within its width.
proof fn lemma_value_bound(bytes: Seq<u8>)
    ensures
        0 <= big_endian_value(bytes) < vstd::arithmetic::power2::pow2(8 * bytes.len()),
    decreases bytes.len(),
{
    if bytes.len() == 0 {
        vstd::arithmetic::power2::lemma2_to64();
    } else {
        let rest = bytes.drop_last();
        lemma_value_bound(rest);
        vstd::arithmetic::power2::lemma_pow2_adds(8 * rest.len(), 8);
        vstd::arithmetic::power2::lemma2_to64();
        let p = vstd::arithmetic::power2::pow2(8 * rest.len());
        let q = vstd::arithmetic::power2::pow2(8 * bytes.len());
        assert(8 * rest.len() + 8 == 8 * bytes.len());
        assert(q == p * 256);
        let v = big_endian_value(rest);
        assert(v * 256 + 255 < p * 256) by (nonlinear_arith)
            requires
                v + 1 <= p,
        ;
    }
}

/// The number that a few bytes spell, highest first.
fn value_of(bytes: &Vec<u8>) -> (r: u128)
    requires
        bytes@.len() <= 16,
    ensures
        r == big_endian_value(bytes@),
{
    let mut value: u128 = 0;
    let mut index: usize = 0;
    assert(bytes@.take(0).len() == 0);
    while index < bytes.len()
        invariant
            index <= bytes@.len() <= 16,
            value == big_endian_value(bytes@.take(index as int)),
        decreases bytes@.len() - index,
    {
        proof {
            let longer = bytes@.take(index + 1);
            assert(longer.drop_last() =~= bytes@.take(index as int));
            lemma_value_bound(longer);
            lemma_pow2_at_most_128(8 * longer.len());
        }
        value = value * 256 + bytes[index] as u128;
        index = index + 1;
    }
    assert(bytes@.take(index as int) =~= bytes@);
    value
}

/// Up to sixteen bytes fit in 128 bits.
proof fn lemma_pow2_at_most_128(bits: nat)
    requires
        bits <= 128,
    ensures
        vstd::arithmetic::power2::pow2(bits) <= 0x1_0000_0000_0000_0000_0000_0000_0000_0000int,
{
    vstd::arithmetic::power2::lemma2_to64();
    vstd::arithmetic::power2::lemma_pow2_adds(64, 64);
    assert(0x1_0000_0000_0000_0000int * 0x1_0000_0000_0000_0000int
        == 0x1_0000_0000_0000_0000_0000_0000_0000_0000int) by (nonlinear_arith);
    if bits < 128 {
        vstd::arithmetic::power2::lemma_pow2_strictly_increases(bits, 128);
    }
}

/// The IPv6 overlay address of a digest.
pub fn overlay_ipv6_from_digest(digest: &[u8; 32]) -> (r: u128)
    ensures
        r == overlay_ipv6_of(digest@),
{
    let mut octets: Vec<u8> = Vec::new();
    octets.push(0xfd);
    let mut index: usize = 1;
    while index < 16
        invariant
            1 <= index <= 16,
            octets@ == seq![0xfdu8] + digest@.subrange(1, index as int),
        decreases 16 - index,
    {
        octets.push(digest[index]);
        index = index + 1;
        assert(octets@ =~= seq![0xfdu8] + digest@.subrange(1, index as int));
    }
    value_of(&octets)
}

/// The IPv6 overlay address of an endpoint in a network.
pub fn derived_overlay_address(network_id: &str, endpoint_id: &EndpointId) -> (r: IpAddr)
    ensures
        r == IpAddr::V6(
            overlay_ipv6_of(blake3_digest(overlay_input(network_id@, endpoint_id@))) as u128,
        ),
{
    let mut input: Vec<u8> = Vec::new();
    input.extend_from_slice(network_id.as_bytes());
    input.extend_from_slice(endpoint_id.bytes.as_slice());
    assert(input@ =~= overlay_input(network_id@, endpoint_id@));
    let digest: [u8; 32] = blake3_hash(input.as_slice());
    IpAddr::V6(overlay_ipv6_from_digest(&digest))
}

/// Separates the IPv4 derivation from others: `ironet-v2-overlay-ipv4`.
pub open spec fn overlay_ipv4_domain() -> Seq<u8> {
    seq![
        105u8, 114, 111, 110, 101, 116, 45, 118, 50, 45, 111, 118, 101, 114, 108, 97, 121, 45, 105,
        112, 118, 52,
    ]
}

/// The eight bytes of a number, highest first.
pub open spec fn big_endian_u64(n: u64) -> Seq<u8> {
    seq![
        (n / 0x100_0000_0000_0000) as u8,
        (n / 0x1_0000_0000_0000 % 0x100) as u8,
        (n / 0x100_0000_0000 % 0x100) as u8,
        (n / 0x1_0000_0000 % 0x100) as u8,
        (n / 0x100_0000 % 0x100) as u8,
        (n / 0x1_0000 % 0x100) as u8,
        (n / 0x100 % 0x100) as u8,
        (n % 0x100) as u8,
    ]
}

/// What the IPv4 overlay address of an endpoint is derived from.
pub open spec fn overlay_ipv4_input(network_id: Seq<char>, endpoint: Seq<u8>) -> Seq<u8> {
    let network = vstd::utf8::encode_utf8(network_id);
    overlay_ipv4_domain() + big_endian_u64(network.len() as u64) + network + endpoint
}

/// The IPv4 overlay address of a digest: a host of `100.64.0.0/10`, the shared
/// address space, named by 22 bits of the digest.
pub open spec fn overlay_ipv4_of(digest: Seq<u8>) -> int {
    0x6440_0000 + big_endian_value(digest.take(4)) % 0x40_0000
}

/// The IPv4 overlay address of a digest.
pub fn overlay_ipv4_from_digest(digest: &[u8; 32]) -> (r: u32)
    ensures
        r == overlay_ipv4_of(digest@),
{
    let mut octets: Vec<u8> = Vec::new();
    let mut index: usize = 0;
    while index < 4
        invariant
            index <= 4,
            octets@ == digest@.take(index as int),
        decreases 4 - index,
    {
        octets.push(digest[index]);
        index = index + 1;
        assert(octets@ =~= digest@.take(index as int));
    }
    let host: u128 = value_of(&octets) % 0x40_0000;
    0x6440_0000 + host as u32
}

/// The IPv4 overlay address of an endpoint in a network. A host prefix is
/// installed, so nothing is broadcast.
pub fn derived_overlay_ipv4_address(network_id: &str, endpoint_id: &EndpointId) -> (r: IpAddr)
    ensures
        r == IpAddr::V4(
            overlay_ipv4_of(blake3_digest(overlay_ipv4_input(network_id@, endpoint_id@))) as u32,
        ),
{
    let mut input: Vec<u8> = vec![
        105u8, 114, 111, 110, 101, 116, 45, 118, 50, 45, 111, 118, 101, 114, 108, 97, 121, 45, 105,
        112, 118, 52,
    ];
    let length: u64 = network_id.as_bytes().len() as u64;
    input.push((length / 0x100_0000_0000_0000) as u8);
    input.push((length / 0x1_0000_0000_0000 % 0x100) as u8);
    input.push((length / 0x100_0000_0000 % 0x100) as u8);
    input.push((length / 0x1_0000_0000 % 0x100) as u8);
    input.push((length / 0x100_0000 % 0x100) as u8);
    input.push((length / 0x1_0000 % 0x100) as u8);
    input.push((length / 0x100 % 0x100) as u8);
    input.push((length % 0x100) as u8);
    assert(input@ =~= overlay_ipv4_domain() + big_endian_u64(length));
    input.extend_from_slice(network_id.as_bytes());
    input.extend_from_slice(endpoint_id.bytes.as_slice());
    assert(input@ =~= overlay_ipv4_input(network_id@, endpoint_id@));
    let digest: [u8; 32] = blake3_hash(input.as_slice());
    IpAddr::V4(overlay_ipv4_from_digest(&digest))
}

/// Every derived IPv4 address lies in `100.64.0.0/10`.
pub proof fn lemma_derived_ipv4_is_shared_space(digest: Seq<u8>)
    requires
        digest.len() == 32,
    ensures
        (IpNet { addr: IpAddr::V4(0x6440_0000), prefix_len: 10 }).holds(
            IpAddr::V4(overlay_ipv4_of(digest) as u32),
        ),
{
    lemma_value_bound(digest.take(4));
    vstd::arithmetic::power2::lemma2_to64();
    let address = overlay_ipv4_of(digest);
    assert(0x6440_0000 <= address < 0x6480_0000);
    assert((IpNet { addr: IpAddr::V4(0x6440_0000), prefix_len: 10 }).size() == 0x40_0000);
    assert(address / 0x40_0000 == 0x6440_0000int / 0x40_0000);
}

/// Every derived IPv6 address lies in `fd00::/8`.
pub proof fn lemma_derived_ipv6_is_unique_local(digest: Seq<u8>)
    requires
        digest.len() == 32,
    ensures
        (IpNet { addr: IpAddr::V6(0xfd00_0000_0000_0000_0000_0000_0000_0000), prefix_len: 8 }).holds(
            IpAddr::V6(overlay_ipv6_of(digest) as u128),
        ),
{
    let bytes = seq![0xfdu8] + digest.subrange(1, 16);
    lemma_leading_byte(bytes);
    let low = bytes.skip(1);
    lemma_value_bound(low);
    lemma_value_bound(bytes);
    lemma_pow2_at_most_128(128);
    let p = vstd::arithmetic::power2::pow2(120) as int;
    assert(8 * low.len() == 120);
    assert(p == 0x1_00_0000_0000_0000_0000_0000_0000_0000int) by {
        vstd::arithmetic::power2::lemma2_to64();
        vstd::arithmetic::power2::lemma_pow2_adds(32, 24);
        assert(0x1_0000_0000int * 0x100_0000int == 0x100_0000_0000_0000int) by (nonlinear_arith);
        vstd::arithmetic::power2::lemma_pow2_adds(64, 56);
        assert(0x1_0000_0000_0000_0000int * 0x100_0000_0000_0000int
            == 0x1_00_0000_0000_0000_0000_0000_0000_0000int) by (nonlinear_arith);
    }
    let address = overlay_ipv6_of(digest);
    assert(address == 0xfd * p + big_endian_value(low));
    let net = IpNet {
        addr: IpAddr::V6(0xfd00_0000_0000_0000_0000_0000_0000_0000),
        prefix_len: 8,
    };
    assert(net.size() == p);
    assert(address / p == 0xfd) by (nonlinear_arith)
        requires
            address == 0xfd * p + big_endian_value(low),
            0 <= big_endian_value(low) < p,
            p > 0,
    ;
    assert(0xfd00_0000_0000_0000_0000_0000_0000_0000int / p == 0xfd) by (nonlinear_arith)
        requires
            p == 0x1_00_0000_0000_0000_0000_0000_0000_0000int,
    ;
}

/// The first byte weighs most.
proof fn lemma_leading_byte(bytes: Seq<u8>)
    requires
        bytes.len() > 0,
    ensures
        big_endian_value(bytes) == bytes[0] * vstd::arithmetic::power2::pow2(
            (8 * (bytes.len() - 1)) as nat,
        ) + big_endian_value(bytes.skip(1)),
    decreases bytes.len(),
{
    vstd::arithmetic::power2::lemma2_to64();
    if bytes.len() == 1 {
        assert(bytes.drop_last().len() == 0);
        assert(bytes.skip(1).len() == 0);
        assert(big_endian_value(bytes.drop_last()) == 0);
        let one = vstd::arithmetic::power2::pow2(0);
        assert(bytes[0] * one == bytes[0]) by (nonlinear_arith)
            requires
                one == 1,
        ;
    } else {
        let rest = bytes.drop_last();
        lemma_leading_byte(rest);
        assert(rest.skip(1) =~= bytes.skip(1).drop_last());
        assert(bytes.skip(1).last() == bytes.last());
        let k = (8 * (rest.len() - 1)) as nat;
        vstd::arithmetic::power2::lemma_pow2_adds(k, 8);
        let p = vstd::arithmetic::power2::pow2(k);
        assert(bytes[0] * p * 256 == bytes[0] * (p * 256)) by (nonlinear_arith);
        assert((bytes[0] * p + big_endian_value(rest.skip(1))) * 256 == bytes[0] * p * 256
            + big_endian_value(rest.skip(1)) * 256) by (nonlinear_arith);
        assert((8 * (bytes.len() - 1)) as nat == k + 8);
        let q = vstd::arithmetic::power2::pow2(k + 8);
        assert(bytes[0] * q == bytes[0] * p * 256) by (nonlinear_arith)
            requires
                q == p * 256,
        ;
        assert(rest[0] == bytes[0]);
    }
}

/// The first address of a family.
pub open spec fn first_of_family(addresses: Seq<IpNet>, ipv6: bool) -> Option<IpAddr>
    decreases addresses.len(),
{
    if addresses.len() == 0 {
        None
    } else if addresses[0].addr.is_ipv6() == ipv6 {
        Some(addresses[0].addr)
    } else {
        first_of_family(addresses.skip(1), ipv6)
    }
}

/// The first address of a family.
pub fn find_family(addresses: &Vec<IpNet>, ipv6: bool) -> (r: Option<IpAddr>)
    ensures
        r == first_of_family(addresses@, ipv6),
{
    let mut index: usize = 0;
    assert(addresses@.skip(0) =~= addresses@);
    while index < addresses.len()
        invariant
            index <= addresses@.len(),
            first_of_family(addresses@, ipv6) == first_of_family(addresses@.skip(index as int), ipv6),
        decreases addresses@.len() - index,
    {
        proof {
            assert(addresses@.skip(index as int)[0] == addresses@[index as int]);
            assert(addresses@.skip(index as int).skip(1) =~= addresses@.skip(index + 1));
        }
        if addresses[index].addr.is_ipv6() == ipv6 {
            return Some(addresses[index].addr);
        }
        index = index + 1;
    }
    None
}

/// The overlay addresses of the local node, IPv4 first: the configured ones,
/// or the derived one where a family has none.
pub fn local_overlay_addresses(config: &V2RuntimeConfig, endpoint_id: &EndpointId) -> (r: (
    IpAddr,
    IpAddr,
))
    ensures
        r.0 == match first_of_family(config.node_addresses@, false) {
            Some(address) => address,
            None => IpAddr::V4(
                overlay_ipv4_of(
                    blake3_digest(overlay_ipv4_input(config.network_id@, endpoint_id@)),
                ) as u32,
            ),
        },
        r.1 == match first_of_family(config.node_addresses@, true) {
            Some(address) => address,
            None => IpAddr::V6(
                overlay_ipv6_of(
                    blake3_digest(overlay_input(config.network_id@, endpoint_id@)),
                ) as u128,
            ),
        },
{
    let ipv4: IpAddr = match find_family(&config.node_addresses, false) {
        Some(address) => address,
        None => derived_overlay_ipv4_address(config.network_id.as_str(), endpoint_id),
    };
    let ipv6: IpAddr = match find_family(&config.node_addresses, true) {
        Some(address) => address,
        None => derived_overlay_address(config.network_id.as_str(), endpoint_id),
    };
    (ipv4, ipv6)
}

} // verus!

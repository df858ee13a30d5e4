//! What one adjacency shows of its network and path.

use vstd::prelude::*;
use vstd::string::StringExecFns;

use crate::bytes::copy_range;
use crate::digest::{blake3_digest, blake3_hash, hex_encode, hex_text};
use crate::net::{is_multicast_number, IpAddr, SocketAddr};
use crate::num::clamp_int;
use crate::text::{decimal, decimal_text};
use crate::time::Duration;

verus! {

/// What the ticket partition of a network is derived from.
pub open spec fn ticket_partition_input(network_id: Seq<u8>) -> Seq<u8> {
    ticket_partition_domain() + network_id
}

/// Separates this derivation from others: `ironet-v2/ticket-partition` and a
/// zero byte.
pub open spec fn ticket_partition_domain() -> Seq<u8> {
    seq![
        105u8,
        114,
        111,
        110,
        101,
        116,
        45,
        118,
        50,
        47,
        116,
        105,
        99,
        107,
        101,
        116,
        45,
        112,
        97,
        114,
        116,
        105,
        116,
        105,
        111,
        110,
        0,
    ]
}

/// The label under which session tickets of a network are kept.
pub open spec fn partition_label(
    network_digest: Seq<u8>,
    cover_profile: u32,
    quic_version: u32,
) -> Seq<char> {
    hex_text(network_digest.take(8)) + ":"@ + decimal_text(cover_profile as int) + ":"@
        + decimal_text(quic_version as int)
}

/// The label under which session tickets of a network are kept. It names the
/// network only by a digest.
pub fn ticket_partition_label(network_id: &str, cover_profile: u32, quic_version: u32) -> (r:
    String)
    ensures
        r@ == partition_label(
            blake3_digest(ticket_partition_input(vstd::utf8::encode_utf8(network_id@))),
            cover_profile,
            quic_version,
        ),
{
    let mut input: Vec<u8> = vec![
        105u8,
        114,
        111,
        110,
        101,
        116,
        45,
        118,
        50,
        47,
        116,
        105,
        99,
        107,
        101,
        116,
        45,
        112,
        97,
        114,
        116,
        105,
        116,
        105,
        111,
        110,
        0,
    ];
    assert(input@ =~= ticket_partition_domain());
    input.extend_from_slice(network_id.as_bytes());
    assert(input@ =~= ticket_partition_input(vstd::utf8::encode_utf8(network_id@)));
    let digest: [u8; 32] = blake3_hash(input.as_slice());
    label_from_digest(&digest, cover_profile, quic_version)
}

/// The label of a network whose digest is given.
pub fn label_from_digest(digest: &[u8; 32], cover_profile: u32, quic_version: u32) -> (r: String)
    ensures
        r@ == partition_label(digest@, cover_profile, quic_version),
{
    let mut head: Vec<u8> = Vec::new();
    head.extend_from_slice(digest.as_slice());
    let short: Vec<u8> = copy_range(&head, 0, 8);
    assert(short@ =~= digest@.take(8));
    let mut label: String = hex_encode(short.as_slice());
    label.append(":");
    label.append(decimal(cover_profile as u64).as_str());
    label.append(":");
    label.append(decimal(quic_version as u64).as_str());
    label
}

/// Labels of one network differ wherever their profile or version does.
pub proof fn lemma_label_separates_profiles_and_versions(
    digest: Seq<u8>,
    cover_profile: u32,
    quic_version: u32,
    other_profile: u32,
    other_version: u32,
)
    requires
        digest.len() == 32,
        partition_label(digest, cover_profile, quic_version) == partition_label(
            digest,
            other_profile,
            other_version,
        ),
    ensures
        cover_profile == other_profile,
        quic_version == other_version,
{
    reveal_strlit(":");
    let a = decimal_text(cover_profile as int);
    let b = decimal_text(quic_version as int);
    let c = decimal_text(other_profile as int);
    let d = decimal_text(other_version as int);
    let head = hex_text(digest.take(8));
    let left = partition_label(digest, cover_profile, quic_version);
    let right = partition_label(digest, other_profile, other_version);
    lemma_decimal_has_only_digits(cover_profile as int);
    lemma_decimal_has_only_digits(other_profile as int);
    let n = head.len() as int;
    assert(left[n + 1 + a.len()] == ':');
    assert(right[n + 1 + c.len()] == ':');
    if a.len() < c.len() {
        assert(right[n + 1 + a.len()] == c[a.len() as int]);
    } else if c.len() < a.len() {
        assert(left[n + 1 + c.len()] == a[c.len() as int]);
    }
    assert(a =~= c) by {
        assert forall|i: int| 0 <= i < a.len() implies a[i] == c[i] by {
            assert(left[n + 1 + i] == a[i]);
            assert(right[n + 1 + i] == c[i]);
        }
    }
    assert(left.len() == right.len());
    assert(b =~= d) by {
        assert forall|i: int| 0 <= i < b.len() implies b[i] == d[i] by {
            assert(left[n + 2 + a.len() + i] == b[i]);
            assert(right[n + 2 + a.len() + i] == d[i]);
        }
    }
    crate::text::lemma_decimal_is_injective(cover_profile as int, other_profile as int);
    crate::text::lemma_decimal_is_injective(quic_version as int, other_version as int);
}

/// A decimal holds no colon.
proof fn lemma_decimal_has_only_digits(n: int)
    requires
        0 <= n,
    ensures
        forall|i: int| 0 <= i < decimal_text(n).len() ==> #[trigger] decimal_text(n)[i] != ':',
    decreases n,
{
    if n >= 10 {
        lemma_decimal_has_only_digits(n / 10);
        let shorter = decimal_text(n / 10);
        assert forall|i: int| 0 <= i < decimal_text(n).len() implies #[trigger] decimal_text(n)[i]
            != ':' by {
            if i < shorter.len() {
                assert(decimal_text(n)[i] == shorter[i]);
            }
        }
    }
}

/// What a path of a connection shows.
#[derive(Clone, Copy, Debug, PartialEq, Eq, Structural)]
pub struct PathViewV2 {
    pub selected: bool,
    /// The local address, where the path runs over IP and it is known.
    pub local_address: Option<IpAddr>,
    pub rtt: Duration,
}

/// Whether a path gives an address that a peer can dial.
pub open spec fn is_dialable_path(path: PathViewV2) -> bool {
    path.selected && match path.local_address {
        Some(address) => !address.is_unspecified() && !is_multicast_number(address),
        None => false,
    }
}

/// The dialable addresses of a run of paths, in order.
pub open spec fn dialable_addresses(paths: Seq<PathViewV2>, port: u16) -> Seq<SocketAddr>
    decreases paths.len(),
{
    if paths.len() == 0 {
        Seq::empty()
    } else {
        let before = dialable_addresses(paths.drop_last(), port);
        if is_dialable_path(paths.last()) {
            before.push(SocketAddr::new(paths.last().local_address->0, port))
        } else {
            before
        }
    }
}

/// The addresses under which the selected paths of a connection reach this
/// node; none without a port.
pub fn selected_direct_addresses(paths: &Vec<PathViewV2>, port: u16) -> (r: Vec<SocketAddr>)
    ensures
        r@ == if port == 0 {
            Seq::empty()
        } else {
            dialable_addresses(paths@, port)
        },
{
    let mut addresses: Vec<SocketAddr> = Vec::new();
    if port == 0 {
        assert(addresses@ =~= Seq::empty());
        return addresses;
    }
    let mut index: usize = 0;
    assert(paths@.take(0).len() == 0);
    while index < paths.len()
        invariant
            index <= paths@.len(),
            addresses@ == dialable_addresses(paths@.take(index as int), port),
        decreases paths@.len() - index,
    {
        let path: PathViewV2 = paths[index];
        proof {
            assert(paths@.take(index + 1).drop_last() =~= paths@.take(index as int));
            assert(paths@.take(index + 1).last() == path);
        }
        if path.selected {
            if let Some(address) = path.local_address {
                if !address.is_unspecified() && !address.is_multicast() {
                    addresses.push(SocketAddr::new(address, port));
                }
            }
        }
        index = index + 1;
    }
    assert(paths@.take(index as int) =~= paths@);
    addresses
}

/// The first selected path.
pub open spec fn first_selected(paths: Seq<PathViewV2>) -> Option<PathViewV2>
    decreases paths.len(),
{
    if paths.len() == 0 {
        None
    } else if paths[0].selected {
        Some(paths[0])
    } else {
        first_selected(paths.drop_first())
    }
}

/// The cost of the selected path: its RTT in microseconds, at least one; one
/// where no path is selected.
pub fn selected_path_cost(paths: &Vec<PathViewV2>) -> (r: u32)
    ensures
        r == match first_selected(paths@) {
            Some(path) => clamp_int(path.rtt.micros(), 1, u32::MAX as int),
            None => 1,
        },
{
    let mut index: usize = 0;
    assert(paths@.skip(0) =~= paths@);
    while index < paths.len()
        invariant
            index <= paths@.len(),
            first_selected(paths@) == first_selected(paths@.skip(index as int)),
        decreases paths@.len() - index,
    {
        if paths[index].selected {
            let micros: u128 = paths[index].rtt.as_micros();
            if micros < 1 {
                return 1;
            }
            if micros > u32::MAX as u128 {
                return u32::MAX;
            }
            return micros as u32;
        }
        assert(paths@.skip(index as int).drop_first() =~= paths@.skip(index + 1));
        index = index + 1;
    }
    1
}

/// The domain of the ticket partition is the text `ironet-v2/ticket-partition`
/// and a zero byte.
pub proof fn lemma_ticket_partition_domain_text(network_id: Seq<u8>)
    ensures
        ({
            let name = "ironet-v2/ticket-partition"@;
            let input = ticket_partition_input(network_id);
            &&& name.len() == 26
            &&& input.len() == 27 + network_id.len()
            &&& forall|i: int| 0 <= i < 26 ==> #[trigger] input[i] as int == name[i] as int
            &&& input[26] == 0
            &&& input.skip(27) == network_id
        }),
{
    reveal_strlit("ironet-v2/ticket-partition");
    assert(ticket_partition_input(network_id).skip(27) =~= network_id);
}

/// The label begins with the first eight bytes of the digest in lower-case
/// hexadecimal, and names the profile and then the version, each behind a colon.
pub proof fn lemma_label_spells_its_parts(digest: Seq<u8>, cover_profile: u32, quic_version: u32)
    requires
        digest.len() >= 8,
    ensures
        ({
            let label = partition_label(digest, cover_profile, quic_version);
            let profile = decimal_text(cover_profile as int);
            let version = decimal_text(quic_version as int);
            &&& label.len() == 18 + profile.len() + version.len()
            &&& forall|i: int|
                0 <= i < 8 ==> {
                    let high = digest[i] as int / 16;
                    let low = digest[i] as int % 16;
                    &&& #[trigger] label[2 * i] as int == high + if high < 10 { 48int } else { 87 }
                    &&& label[2 * i + 1] as int == low + if low < 10 { 48int } else { 87 }
                }
            &&& label[16] == ':'
            &&& label.subrange(17, 17 + profile.len() as int) == profile
            &&& label[17 + profile.len() as int] == ':'
            &&& label.skip(18 + profile.len() as int) == version
        }),
{
    reveal_strlit(":");
    let label = partition_label(digest, cover_profile, quic_version);
    let profile = decimal_text(cover_profile as int);
    let version = decimal_text(quic_version as int);
    let head = hex_text(digest.take(8));
    assert(label.subrange(17, 17 + profile.len() as int) =~= profile);
    assert(label.skip(18 + profile.len() as int) =~= version);
    assert forall|i: int| 0 <= i < 8 implies {
        let high = digest[i] as int / 16;
        let low = digest[i] as int % 16;
        &&& #[trigger] label[2 * i] as int == high + if high < 10 { 48int } else { 87 }
        &&& label[2 * i + 1] as int == low + if low < 10 { 48int } else { 87 }
    } by {
        assert(label[2 * i] == head[2 * i]);
        assert(label[2 * i + 1] == head[2 * i + 1]);
        assert((2 * i) / 2 == i && (2 * i) % 2 == 0);
        assert((2 * i + 1) / 2 == i && (2 * i + 1) % 2 == 1);
    }
}

/// A further path adds its local address, under the given port, where it is
/// selected and its address can be dialed, and adds nothing else.
pub proof fn lemma_dialable_paths(paths: Seq<PathViewV2>, path: PathViewV2, port: u16)
    ensures
        dialable_addresses(Seq::empty(), port).len() == 0,
        !path.selected || path.local_address is None ==> dialable_addresses(paths.push(path), port)
            == dialable_addresses(paths, port),
        path.local_address matches Some(IpAddr::V4(bits)) ==> (path.selected
            ==> dialable_addresses(paths.push(path), port) == if bits == 0 || 0xe000_0000 <= bits
            <= 0xefff_ffff {
            dialable_addresses(paths, port)
        } else {
            dialable_addresses(paths, port).push(
                SocketAddr { ip: IpAddr::V4(bits), port, flowinfo: 0, scope_id: 0 },
            )
        }),
        path.local_address matches Some(IpAddr::V6(bits)) ==> (path.selected
            ==> dialable_addresses(paths.push(path), port) == if bits == 0 || bits
            >= 0xff00_0000_0000_0000_0000_0000_0000_0000 {
            dialable_addresses(paths, port)
        } else {
            dialable_addresses(paths, port).push(
                SocketAddr { ip: IpAddr::V6(bits), port, flowinfo: 0, scope_id: 0 },
            )
        }),
{
    assert(paths.push(path).drop_last() =~= paths);
    assert(paths.push(path).last() == path);
}

/// The path that counts is the selected one that comes first.
pub proof fn lemma_first_selected_path(paths: Seq<PathViewV2>, at: int)
    requires
        0 <= at <= paths.len(),
        forall|i: int| 0 <= i < at ==> !(#[trigger] paths[i]).selected,
    ensures
        at < paths.len() && paths[at].selected ==> first_selected(paths) == Some(paths[at]),
        at == paths.len() ==> first_selected(paths) is None,
    decreases at,
{
    if at > 0 {
        assert(!paths[0].selected);
        let rest = paths.drop_first();
        assert forall|i: int| 0 <= i < at - 1 implies !(#[trigger] rest[i]).selected by {
            assert(rest[i] == paths[i + 1]);
        }
        lemma_first_selected_path(rest, at - 1);
    }
}

} // verus!

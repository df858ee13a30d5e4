//! Which peers a node dials and accepts, and under which cover name.

use vstd::prelude::*;

use crate::config::{ConfigErrorV2, V2PeerConfig, V2RuntimeConfig};
use crate::digest::{blake3_digest, blake3_hash};
use crate::identity::EndpointId;
use crate::net::{IpAddr, SocketAddr};
use crate::peers::{
    lemma_dialable_by_any_entry, lemma_dialable_model, lemma_each_peer_stands_once, merge_peers, merged,
    merged_peer, merged_peers, peer_ids, peer_model, peer_models, PeerModel,
};
use crate::routing::AdjacencyIdV2;
use crate::sort::{
    byte_key, is_sorted, key_le, keys, lemma_key_antisymmetric, lemma_key_total,
    lemma_map_keeps_multiset, lemma_sorted_keys_are_unique, sorted, SortKey,
};
use crate::text::{contains_text, lemma_text_key_is_injective, text_key, texts, Name};
use crate::time::Duration;

verus! {

/// How long the node that does not own a dial waits before it dials anyway.
pub const FALLBACK_DIAL_DELAY_MILLIS: u64 = 750;

/// The first wait between two dials, and the wait after a failed hello.
pub const FIRST_RETRY_DELAY_MILLIS: u64 = 200;

/// The longest wait between two dials.
pub const LAST_RETRY_DELAY_MILLIS: u64 = 3_000;

/// Whether one identity is below another.
pub open spec fn identity_lt(a: Seq<u8>, b: Seq<u8>) -> bool {
    key_le(byte_key(a), byte_key(b)) && a != b
}

/// Whether the local node owns the dial: the lower identity does.
pub fn mesh_should_dial(local: &EndpointId, remote: &EndpointId) -> (r: bool)
    ensures
        r == identity_lt(local@, remote@),
{
    local.at_most(remote) && !local.same(remote)
}

/// Of two different nodes exactly one owns the dial; no node dials itself.
pub proof fn lemma_exactly_one_side_dials(a: Seq<u8>, b: Seq<u8>)
    ensures
        a != b ==> identity_lt(a, b) != identity_lt(b, a),
        a == b ==> !identity_lt(a, b),
{
    lemma_key_total(byte_key(a), byte_key(b));
    if identity_lt(a, b) && identity_lt(b, a) {
        lemma_key_antisymmetric(byte_key(a), byte_key(b));
        crate::identity::lemma_identity_order_is_injective(a, b);
    }
}

/// The two identities of an adjacency, lower first.
pub open spec fn ordered_pair(local: Seq<u8>, remote: Seq<u8>) -> (Seq<u8>, Seq<u8>) {
    if identity_lt(local, remote) {
        (local, remote)
    } else {
        (remote, local)
    }
}

/// Separates the cover-name derivation from others:
/// `ironet-v2/live-media-sni` and a zero byte.
pub open spec fn cover_domain() -> Seq<u8> {
    seq![
        105u8, 114, 111, 110, 101, 116, 45, 118, 50, 47, 108, 105, 118, 101, 45, 109, 101, 100, 105,
        97, 45, 115, 110, 105, 0,
    ]
}

/// The four bytes of a number, highest first.
pub open spec fn big_endian(n: u32) -> Seq<u8> {
    seq![
        (n / 0x100_0000) as u8,
        (n / 0x1_0000 % 0x100) as u8,
        (n / 0x100 % 0x100) as u8,
        (n % 0x100) as u8,
    ]
}

/// The number that bytes spell, highest first.
pub open spec fn big_endian_value(bytes: Seq<u8>) -> int
    decreases bytes.len(),
{
    if bytes.len() == 0 {
        0
    } else {
        big_endian_value(bytes.drop_last()) * 256 + bytes.last()
    }
}

/// What the cover name of an adjacency is derived from.
pub open spec fn cover_input(
    network_id: Seq<char>,
    local: Seq<u8>,
    remote: Seq<u8>,
    generation: u32,
) -> Seq<u8> {
    let pair = ordered_pair(local, remote);
    cover_domain() + vstd::utf8::encode_utf8(network_id) + seq![0u8] + pair.0 + pair.1 + big_endian(
        generation,
    )
}

/// The place in the pool that an adjacency draws, before it is cut to the
/// pool's length.
pub open spec fn cover_draw(
    network_id: Seq<char>,
    local: Seq<u8>,
    remote: Seq<u8>,
    generation: u32,
) -> int {
    big_endian_value(blake3_digest(cover_input(network_id, local, remote, generation)).take(8))
}

/// The names that may be drawn: the preferred ones of the pool, or the whole
/// pool where none is preferred or no preferred one is in it.
pub open spec fn eligible(pool: Seq<Seq<char>>, preferred: Set<Seq<char>>) -> Seq<Seq<char>> {
    let chosen = pool.filter(|name: Seq<char>| preferred.contains(name));
    if chosen.len() == 0 {
        pool
    } else {
        chosen
    }
}

/// Names in the order of their bytes.
pub open spec fn is_canonical(names: Seq<Seq<char>>, canonical: Seq<Seq<char>>) -> bool {
    &&& canonical.to_multiset() == names.to_multiset()
    &&& is_sorted(canonical.map_values(|name: Seq<char>| text_key(name)))
}

/// The names in the order of their bytes.
pub open spec fn canonical_names(names: Seq<Seq<char>>) -> Seq<Seq<char>> {
    choose|canonical: Seq<Seq<char>>| is_canonical(names, canonical)
}

/// The cover name that an adjacency draws. The draw is cut to the machine's
/// word before it is cut to the number of names.
pub open spec fn drawn_name(pool: Seq<Seq<char>>, preferred: Set<Seq<char>>, draw: int) -> Seq<
    char,
> {
    let names = eligible(pool, preferred);
    canonical_names(names)[(draw as usize) as int % names.len() as int]
}

/// Only one order of names is canonical.
pub proof fn lemma_canonical_names_are_unique(
    names: Seq<Seq<char>>,
    a: Seq<Seq<char>>,
    b: Seq<Seq<char>>,
)
    requires
        is_canonical(names, a),
        is_canonical(names, b),
    ensures
        a == b,
{
    let key = |name: Seq<char>| text_key(name);
    let left = a.map_values(key);
    let right = b.map_values(key);
    lemma_map_keeps_multiset(a, b, key);
    lemma_sorted_keys_are_unique(left, right);
    assert(left.len() == a.len());
    assert(right.len() == b.len());
    assert forall|i: int| 0 <= i < a.len() implies a[i] == b[i] by {
        assert(left[i] == text_key(a[i]));
        assert(right[i] == text_key(b[i]));
        lemma_text_key_is_injective(a[i], b[i]);
    }
    assert(a =~= b);
}

/// Copies of the names, in order of their bytes.
fn canonical_copies(names: &Vec<String>) -> (r: Vec<Name>)
    ensures
        is_canonical(texts(names@), r@.map_values(|name: Name| name.text@)),
        r@.len() == names@.len(),
{
    let mut copies: Vec<Name> = Vec::new();
    let mut index: usize = 0;
    while index < names.len()
        invariant
            index <= names@.len(),
            copies@.len() == index,
            forall|i: int| 0 <= i < index ==> (#[trigger] copies@[i]).text@ == names@[i]@,
        decreases names@.len() - index,
    {
        copies.push(Name { text: names[index].clone() });
        index = index + 1;
    }
    let ghost all = copies@;
    let r: Vec<Name> = sorted(copies);
    proof {
        broadcast use vstd::seq_lib::group_to_multiset_ensures;

        let of = |name: Name| name.text@;
        assert(all.map_values(of) =~= texts(names@));
        lemma_map_keeps_multiset(r@, all, of);
        assert(r@.map_values(of).map_values(|name: Seq<char>| text_key(name)) =~= keys(r@));
    }
    r
}

/// Copies of the preferred names of a pool.
fn preferred_copies(pool: &Vec<String>, preferred: &Vec<String>) -> (r: Vec<String>)
    ensures
        texts(r@) == texts(pool@).filter(
            |name: Seq<char>| texts(preferred@).to_set().contains(name),
        ),
{
    let mut chosen: Vec<String> = Vec::new();
    let mut index: usize = 0;
    let ghost keep = |name: Seq<char>| texts(preferred@).to_set().contains(name);
    let ghost all = texts(pool@);
    proof {
        reveal(Seq::filter);
        assert(texts(chosen@) =~= all.take(0).filter(keep));
    }
    while index < pool.len()
        invariant
            index <= pool@.len(),
            all == texts(pool@),
            keep == (|name: Seq<char>| texts(preferred@).to_set().contains(name)),
            texts(chosen@) == all.take(index as int).filter(keep),
        decreases pool@.len() - index,
    {
        proof {
            reveal(Seq::filter);
            assert(all.take(index + 1).drop_last() =~= all.take(index as int));
            assert(all.take(index + 1).last() == pool@[index as int]@);
        }
        let ghost before = chosen@;
        if contains_text(preferred, pool[index].as_str()) {
            chosen.push(pool[index].clone());
            assert(texts(chosen@) =~= texts(before).push(pool@[index as int]@));
        }
        index = index + 1;
    }
    assert(all.take(index as int) =~= all);
    chosen
}

/// Draw a cover name: the place `draw`, cut to the number of eligible names,
/// among those names in the order of their bytes.
pub fn draw_cover_name(pool: &Vec<String>, preferred: &Vec<String>, draw: u64) -> (r: Result<
    String,
    ConfigErrorV2,
>)
    ensures
        pool@.len() == 0 ==> r == Err::<String, ConfigErrorV2>(ConfigErrorV2::EmptyCoverPool),
        pool@.len() > 0 ==> (r matches Ok(name) && name@ == drawn_name(
            texts(pool@),
            texts(preferred@).to_set(),
            draw as int,
        )),
{
    if pool.len() == 0 {
        return Err(ConfigErrorV2::EmptyCoverPool);
    }
    let chosen: Vec<String> = preferred_copies(pool, preferred);
    let ghost names = eligible(texts(pool@), texts(preferred@).to_set());
    assert(texts(chosen@).len() == chosen@.len());
    let canonical: Vec<Name> = if chosen.len() == 0 {
        canonical_copies(pool)
    } else {
        canonical_copies(&chosen)
    };
    let ghost ordered = canonical@.map_values(|name: Name| name.text@);
    assert(is_canonical(names, ordered));
    proof {
        lemma_canonical_names_are_unique(names, ordered, canonical_names(names));
    }
    let count: usize = canonical.len();
    let slot: usize = (draw as usize) % count;
    assert(ordered[slot as int] == canonical@[slot as int].text@);
    Ok(canonical[slot].text.clone())
}

/// The number that eight bytes spell, highest first.
fn value_of_first_eight(bytes: &[u8; 32]) -> (r: u64)
    ensures
        r == big_endian_value(bytes@.take(8)),
{
    let mut value: u64 = 0;
    let mut index: usize = 0;
    let ghost limits = seq![
        1int,
        0x100,
        0x1_0000,
        0x100_0000,
        0x1_0000_0000,
        0x100_0000_0000,
        0x1_0000_0000_0000,
        0x100_0000_0000_0000,
        0x1_0000_0000_0000_0000,
    ];
    while index < 8
        invariant
            index <= 8,
            limits == seq![
                1int,
                0x100,
                0x1_0000,
                0x100_0000,
                0x1_0000_0000,
                0x100_0000_0000,
                0x1_0000_0000_0000,
                0x100_0000_0000_0000,
                0x1_0000_0000_0000_0000,
            ],
            value < limits[index as int],
            value == big_endian_value(bytes@.take(index as int)),
        decreases 8 - index,
    {
        proof {
            assert(bytes@.take(index + 1).drop_last() =~= bytes@.take(index as int));
            assert(limits[index + 1] == limits[index as int] * 256);
        }
        value = value * 256 + bytes[index] as u64;
        index = index + 1;
    }
    value
}

/// The bytes that the cover name of an adjacency is derived from.
fn cover_bytes(network_id: &str, local: &EndpointId, remote: &EndpointId, generation: u32) -> (r:
    Vec<u8>)
    ensures
        r@ == cover_input(network_id@, local@, remote@, generation),
{
    let mut input: Vec<u8> = vec![
        105u8, 114, 111, 110, 101, 116, 45, 118, 50, 47, 108, 105, 118, 101, 45, 109, 101, 100, 105,
        97, 45, 115, 110, 105, 0,
    ];
    assert(input@ =~= cover_domain());
    input.extend_from_slice(network_id.as_bytes());
    input.push(0);
    if mesh_should_dial(local, remote) {
        input.extend_from_slice(local.bytes.as_slice());
        input.extend_from_slice(remote.bytes.as_slice());
    } else {
        input.extend_from_slice(remote.bytes.as_slice());
        input.extend_from_slice(local.bytes.as_slice());
    }
    input.push((generation / 0x100_0000) as u8);
    input.push((generation / 0x1_0000 % 0x100) as u8);
    input.push((generation / 0x100 % 0x100) as u8);
    input.push((generation % 0x100) as u8);
    assert(input@ =~= cover_input(network_id@, local@, remote@, generation));
    input
}

/// The cover name of an adjacency, drawn from the preferred names of the pool,
/// or from the whole pool where none of it is preferred.
pub fn select_cover_sni_with_preference(
    pool: &Vec<String>,
    preferred: &Vec<String>,
    network_id: &str,
    local: &EndpointId,
    remote: &EndpointId,
    generation: u32,
) -> (r: Result<String, ConfigErrorV2>)
    ensures
        pool@.len() == 0 ==> r == Err::<String, ConfigErrorV2>(ConfigErrorV2::EmptyCoverPool),
        pool@.len() > 0 ==> (r matches Ok(name) && name@ == drawn_name(
            texts(pool@),
            texts(preferred@).to_set(),
            cover_draw(network_id@, local@, remote@, generation),
        )),
{
    let input: Vec<u8> = cover_bytes(network_id, local, remote, generation);
    let digest: [u8; 32] = blake3_hash(input.as_slice());
    draw_cover_name(pool, preferred, value_of_first_eight(&digest))
}

/// The cover name of an adjacency, drawn from the whole pool.
pub fn select_cover_sni(
    pool: &Vec<String>,
    network_id: &str,
    local: &EndpointId,
    remote: &EndpointId,
    generation: u32,
) -> (r: Result<String, ConfigErrorV2>)
    ensures
        pool@.len() == 0 ==> r == Err::<String, ConfigErrorV2>(ConfigErrorV2::EmptyCoverPool),
        pool@.len() > 0 ==> (r matches Ok(name) && name@ == drawn_name(
            texts(pool@),
            Set::empty(),
            cover_draw(network_id@, local@, remote@, generation),
        )),
{
    let none: Vec<String> = Vec::new();
    assert(texts(none@).to_set() =~= Set::empty());
    select_cover_sni_with_preference(pool, &none, network_id, local, remote, generation)
}

/// Some resolved address is a direct address of the peer.
pub open spec fn resolves_to_peer(resolved: Seq<IpAddr>, direct: Seq<SocketAddr>) -> bool {
    exists|i: int, j: int|
        0 <= i < resolved.len() && 0 <= j < direct.len() && #[trigger] resolved[i] == (
        #[trigger] direct[j]).ip
}

/// Whether some resolved address is a direct address of the peer.
fn check_resolved(resolved: &Vec<IpAddr>, direct: &Vec<SocketAddr>) -> (r: bool)
    ensures
        r == resolves_to_peer(resolved@, direct@),
{
    let mut left: usize = 0;
    while left < resolved.len()
        invariant
            left <= resolved@.len(),
            forall|i: int, j: int|
                0 <= i < left && 0 <= j < direct@.len() ==> #[trigger] resolved@[i] != (
                #[trigger] direct@[j]).ip,
        decreases resolved@.len() - left,
    {
        let mut right: usize = 0;
        while right < direct.len()
            invariant
                left < resolved@.len(),
                right <= direct@.len(),
                forall|j: int| 0 <= j < right ==> resolved@[left as int] != (#[trigger] direct@[j]).ip,
            decreases direct@.len() - right,
        {
            if resolved[left] == direct[right].ip {
                assert(resolved@[left as int] == direct@[right as int].ip);
                return true;
            }
            right = right + 1;
        }
        left = left + 1;
    }
    false
}

/// The names of the pool that resolved to a direct address of the peer. A name
/// whose lookup failed or took too long has no result.
pub open spec fn matching_names(
    pool: Seq<String>,
    lookups: Seq<Option<Vec<IpAddr>>>,
    direct: Seq<SocketAddr>,
) -> Set<Seq<char>> {
    Set::new(
        |name: Seq<char>|
            exists|i: int|
                0 <= i < pool.len() && i < lookups.len() && #[trigger] pool[i]@ == name
                    && lookups[i] is Some && resolves_to_peer(lookups[i]->0@, direct),
    )
}

/// The cover name for a peer. Where the peer has direct addresses, the names
/// that resolved to one of them are preferred; `lookups` holds what each name
/// of the pool resolved to.
pub fn select_cover_sni_for_peer(
    pool: &Vec<String>,
    lookups: &Vec<Option<Vec<IpAddr>>>,
    network_id: &str,
    local: &EndpointId,
    remote: &EndpointId,
    generation: u32,
    direct_addresses: &Vec<SocketAddr>,
) -> (r: Result<String, ConfigErrorV2>)
    ensures
        pool@.len() == 0 ==> r == Err::<String, ConfigErrorV2>(ConfigErrorV2::EmptyCoverPool),
        pool@.len() > 0 ==> (r matches Ok(name) && name@ == drawn_name(
            texts(pool@),
            matching_names(pool@, lookups@, direct_addresses@),
            cover_draw(network_id@, local@, remote@, generation),
        )),
{
    if direct_addresses.len() == 0 {
        assert(matching_names(pool@, lookups@, direct_addresses@) =~= Set::empty());
        return select_cover_sni(pool, network_id, local, remote, generation);
    }
    let mut preferred: Vec<String> = Vec::new();
    let mut index: usize = 0;
    assert(texts(preferred@).to_set() =~= matching_names(
        pool@.take(0),
        lookups@,
        direct_addresses@,
    ));
    while index < pool.len() && index < lookups.len()
        invariant
            index <= pool@.len(),
            index <= lookups@.len(),
            texts(preferred@).to_set() == matching_names(
                pool@.take(index as int),
                lookups@,
                direct_addresses@,
            ),
        decreases pool@.len() - index,
    {
        let ghost before = preferred@;
        let matched: bool = match &lookups[index] {
            Some(resolved) => check_resolved(resolved, direct_addresses),
            None => false,
        };
        if matched {
            preferred.push(pool[index].clone());
            assert(preferred@.take(before.len() as int) =~= before);
        }
        proof {
            lemma_matching_grows(
                pool@,
                lookups@,
                direct_addresses@,
                index as int,
                before,
                preferred@,
                matched,
            );
        }
        index = index + 1;
    }
    proof {
        assert(matching_names(pool@.take(index as int), lookups@, direct_addresses@)
            =~= matching_names(pool@, lookups@, direct_addresses@)) by {
            assert forall|name: Seq<char>|
                matching_names(pool@.take(index as int), lookups@, direct_addresses@).contains(name)
                    == matching_names(pool@, lookups@, direct_addresses@).contains(name) by {
                if matching_names(pool@, lookups@, direct_addresses@).contains(name) {
                    let i = choose|i: int|
                        0 <= i < pool@.len() && i < lookups@.len() && #[trigger] pool@[i]@ == name
                            && lookups@[i] is Some && resolves_to_peer(
                            lookups@[i]->0@,
                            direct_addresses@,
                        );
                    assert(pool@.take(index as int)[i]@ == name);
                }
                if matching_names(
                    pool@.take(index as int),
                    lookups@,
                    direct_addresses@,
                ).contains(name) {
                    let i = choose|i: int|
                        0 <= i < pool@.take(index as int).len() && i < lookups@.len()
                            && #[trigger] pool@.take(index as int)[i]@ == name
                            && lookups@[i] is Some && resolves_to_peer(
                            lookups@[i]->0@,
                            direct_addresses@,
                        );
                    assert(pool@[i]@ == name);
                }
            }
        }
    }
    select_cover_sni_with_preference(pool, &preferred, network_id, local, remote, generation)
}

/// One more name of the pool.
proof fn lemma_matching_grows(
    pool: Seq<String>,
    lookups: Seq<Option<Vec<IpAddr>>>,
    direct: Seq<SocketAddr>,
    index: int,
    before: Seq<String>,
    after: Seq<String>,
    matched: bool,
)
    requires
        0 <= index < pool.len(),
        index < lookups.len(),
        texts(before).to_set() == matching_names(pool.take(index), lookups, direct),
        matched == (lookups[index] is Some && resolves_to_peer(lookups[index]->0@, direct)),
        matched ==> after.len() == before.len() + 1 && after.take(before.len() as int) == before
            && after.last()@ == pool[index]@,
        !matched ==> after == before,
    ensures
        texts(after).to_set() == matching_names(pool.take(index + 1), lookups, direct),
{
    let small = pool.take(index);
    let large = pool.take(index + 1);
    assert forall|name: Seq<char>| texts(after).to_set().contains(name) == matching_names(
        large,
        lookups,
        direct,
    ).contains(name) by {
        if matched {
            assert(texts(after) =~= texts(before).push(pool[index]@)) by {
                assert forall|i: int| 0 <= i < before.len() implies after[i] == before[i] by {
                    assert(after.take(before.len() as int)[i] == before[i]);
                }
            }
        }
        assert(texts(before).to_set().contains(name) == matching_names(
            small,
            lookups,
            direct,
        ).contains(name));
        if texts(after).contains(name) {
            if matched && name == pool[index]@ {
                assert(large[index]@ == name);
            } else {
                let k = choose|k: int| 0 <= k < texts(after).len() && texts(after)[k] == name;
                assert(texts(before)[k] == name);
                assert(texts(before).contains(name));
                let i = choose|i: int|
                    0 <= i < small.len() && i < lookups.len() && #[trigger] small[i]@ == name
                        && lookups[i] is Some && resolves_to_peer(lookups[i]->0@, direct);
                assert(large[i]@ == name);
            }
        }
        if matching_names(large, lookups, direct).contains(name) {
            let i = choose|i: int|
                0 <= i < large.len() && i < lookups.len() && #[trigger] large[i]@ == name
                    && lookups[i] is Some && resolves_to_peer(lookups[i]->0@, direct);
            if i < index {
                assert(small[i]@ == name);
                assert(texts(before).contains(name));
                let k = choose|k: int| 0 <= k < texts(before).len() && texts(before)[k] == name;
                assert(texts(after)[k] == name);
            } else {
                assert(texts(after)[after.len() - 1] == name);
            }
        }
    }
    assert(texts(after).to_set() =~= matching_names(large, lookups, direct));
}

/// Both ends of an adjacency draw the same cover name.
pub proof fn lemma_cover_name_is_symmetric(
    network_id: Seq<char>,
    a: Seq<u8>,
    b: Seq<u8>,
    generation: u32,
)
    ensures
        cover_draw(network_id, a, b, generation) == cover_draw(network_id, b, a, generation),
{
    lemma_exactly_one_side_dials(a, b);
    assert(ordered_pair(a, b) == ordered_pair(b, a));
}

/// The cover name is one of the pool, and a preferred one where the pool has
/// any.
pub proof fn lemma_cover_name_is_eligible(
    pool: Seq<Seq<char>>,
    preferred: Set<Seq<char>>,
    draw: int,
)
    requires
        pool.len() > 0,
    ensures
        pool.contains(drawn_name(pool, preferred, draw)),
        (exists|name: Seq<char>| #[trigger] pool.contains(name) && preferred.contains(name))
            ==> preferred.contains(drawn_name(pool, preferred, draw)),
{
    broadcast use vstd::seq_lib::group_to_multiset_ensures;

    let keep = |name: Seq<char>| preferred.contains(name);
    let names = eligible(pool, preferred);
    let canonical = canonical_names(names);
    lemma_canonical_names_exist(names);
    assert(canonical.len() == canonical.to_multiset().len());
    assert(names.len() == names.to_multiset().len());
    let at = (draw as usize) as int % names.len() as int;
    let drawn = canonical[at];
    assert(canonical.contains(drawn));
    assert(names.to_multiset().contains(drawn));
    assert(names.contains(drawn));
    lemma_filter_counts(pool, keep, drawn);
    if pool.filter(keep).len() > 0 {
        assert(pool.filter(keep).contains(drawn));
        assert(pool.filter(keep).to_multiset().count(drawn) > 0);
        assert(pool.to_multiset().count(drawn) > 0);
        assert(pool.contains(drawn));
    } else if exists|name: Seq<char>| #[trigger] pool.contains(name) && preferred.contains(name) {
        let name = choose|name: Seq<char>| #[trigger] pool.contains(name) && preferred.contains(name);
        lemma_filter_counts(pool, keep, name);
        assert(pool.to_multiset().count(name) > 0);
        assert(pool.filter(keep).contains(name));
    }
}

/// The order of the pool does not matter.
pub proof fn lemma_cover_name_ignores_pool_order(
    pool: Seq<Seq<char>>,
    other: Seq<Seq<char>>,
    preferred: Set<Seq<char>>,
    draw: int,
)
    requires
        pool.to_multiset() == other.to_multiset(),
    ensures
        drawn_name(pool, preferred, draw) == drawn_name(other, preferred, draw),
{
    broadcast use vstd::seq_lib::group_to_multiset_ensures;

    let keep = |name: Seq<char>| preferred.contains(name);
    assert forall|name: Seq<char>|
        pool.filter(keep).to_multiset().count(name) == other.filter(keep).to_multiset().count(
            name,
        ) by {
        lemma_filter_counts(pool, keep, name);
        lemma_filter_counts(other, keep, name);
    }
    assert(pool.filter(keep).to_multiset() =~= other.filter(keep).to_multiset());
    let a = eligible(pool, preferred);
    let b = eligible(other, preferred);
    assert(pool.filter(keep).len() == pool.filter(keep).to_multiset().len());
    assert(other.filter(keep).len() == other.filter(keep).to_multiset().len());
    assert(a.to_multiset() == b.to_multiset());
    assert(a.len() == a.to_multiset().len());
    assert(b.len() == b.to_multiset().len());
    lemma_canonical_names_exist(a);
    lemma_canonical_names_exist(b);
    lemma_canonical_names_are_unique(a, canonical_names(a), canonical_names(b));
}

/// Preferred names that are not in the pool do not matter.
pub proof fn lemma_unmatched_preference_is_none(
    pool: Seq<Seq<char>>,
    preferred: Set<Seq<char>>,
    draw: int,
)
    requires
        forall|name: Seq<char>| pool.contains(name) ==> !#[trigger] preferred.contains(name),
    ensures
        drawn_name(pool, preferred, draw) == drawn_name(pool, Set::empty(), draw),
{
    broadcast use vstd::seq_lib::group_to_multiset_ensures;

    let keep = |name: Seq<char>| preferred.contains(name);
    let none = |name: Seq<char>| Set::<Seq<char>>::empty().contains(name);
    if pool.filter(keep).len() > 0 {
        let name = pool.filter(keep)[0];
        lemma_filter_counts(pool, keep, name);
        assert(pool.filter(keep).contains(name));
        assert(pool.filter(keep).to_multiset().count(name) > 0);
        assert(pool.contains(name));
    }
    if pool.filter(none).len() > 0 {
        let name = pool.filter(none)[0];
        lemma_filter_counts(pool, none, name);
        assert(pool.filter(none).contains(name));
        assert(pool.filter(none).to_multiset().count(name) > 0);
    }
}

/// How often a value is left by a filter.
proof fn lemma_filter_counts(s: Seq<Seq<char>>, keep: spec_fn(Seq<char>) -> bool, x: Seq<char>)
    ensures
        s.filter(keep).to_multiset().count(x) == if keep(x) {
            s.to_multiset().count(x)
        } else {
            0
        },
    decreases s.len(),
{
    broadcast use vstd::seq_lib::group_to_multiset_ensures;

    reveal(Seq::filter);
    if s.len() == 0 {
        assert(s.to_multiset().len() == 0);
    } else {
        let rest = s.drop_last();
        lemma_filter_counts(rest, keep, x);
        assert(s =~= rest.push(s.last()));
    }
}

/// Names can be put in the order of their bytes.
proof fn lemma_canonical_names_exist(names: Seq<Seq<char>>)
    ensures
        is_canonical(names, canonical_names(names)),
{
    let leq = |a: Seq<char>, b: Seq<char>| key_le(text_key(a), text_key(b));
    lemma_text_order(leq);
    let canonical = names.sort_by(leq);
    names.lemma_sort_by_ensures(leq);
    let ks = canonical.map_values(|name: Seq<char>| text_key(name));
    assert forall|i: int, j: int| 0 <= i <= j < ks.len() implies key_le(ks[i], ks[j]) by {
        if i < j {
            assert(leq(canonical[i], canonical[j]));
        } else {
            crate::sort::lemma_key_reflexive(ks[i]);
        }
    }
    assert(is_canonical(names, canonical));
}

/// The order of bytes is total.
proof fn lemma_text_order(leq: spec_fn(Seq<char>, Seq<char>) -> bool)
    requires
        leq == (|a: Seq<char>, b: Seq<char>| key_le(text_key(a), text_key(b))),
    ensures
        vstd::relations::total_ordering(leq),
{
    assert forall|x: Seq<char>| #[trigger] leq(x, x) by {
        crate::sort::lemma_key_reflexive(text_key(x));
    }
    assert forall|x: Seq<char>, y: Seq<char>| #[trigger] leq(x, y) && #[trigger] leq(y, x) implies x
        == y by {
        lemma_key_antisymmetric(text_key(x), text_key(y));
        lemma_text_key_is_injective(x, y);
    }
    assert forall|x: Seq<char>, y: Seq<char>, z: Seq<char>| #[trigger]
        leq(x, y) && #[trigger] leq(y, z) implies leq(x, z) by {
        crate::sort::lemma_key_transitive(text_key(x), text_key(y), text_key(z));
    }
    assert forall|x: Seq<char>, y: Seq<char>| #[trigger] leq(x, y) || #[trigger] leq(y, x) by {
        lemma_key_total(text_key(x), text_key(y));
    }
}

/// The sockets to bind. An unspecified address binds one socket of each
/// family, since a lone one cannot reach the other; both share the port.
pub fn endpoint_bind_addresses(bind: SocketAddr) -> (r: Vec<SocketAddr>)
    ensures
        r@ == if bind.ip.is_unspecified() {
            seq![
                SocketAddr::new(IpAddr::V4(0), bind.port),
                SocketAddr::new(IpAddr::V6(0), bind.port),
            ]
        } else {
            seq![bind]
        },
{
    let mut addresses: Vec<SocketAddr> = Vec::new();
    if bind.ip.is_unspecified() {
        addresses.push(SocketAddr::new(IpAddr::V4(0), bind.port));
        addresses.push(SocketAddr::new(IpAddr::V6(0), bind.port));
    } else {
        addresses.push(bind);
    }
    addresses
}

/// One dial to start: to which peer, named by its place among the merged peers,
/// and after which delay.
#[derive(Clone, Copy, Debug, PartialEq, Eq, Structural)]
pub struct DialV2 {
    pub peer: usize,
    pub delay: Option<Duration>,
}

/// How long a node waits before it dials a peer whose dial it does not own.
pub open spec fn fallback_delay(local: Seq<u8>, remote: Seq<u8>) -> Option<Duration> {
    if identity_lt(local, remote) {
        None
    } else {
        Some(Duration { nanos: 750_000_000 })
    }
}

/// The dials to start, in the order of the peers: one to each peer that can be
/// dialed.
pub open spec fn dials(peers: Seq<PeerModel>, local: Seq<u8>) -> Seq<DialV2>
    decreases peers.len(),
{
    if peers.len() == 0 {
        Seq::empty()
    } else {
        let rest = dials(peers.drop_last(), local);
        if peers.last().is_dialable() {
            rest.push(
                DialV2 {
                    peer: (peers.len() - 1) as usize,
                    delay: fallback_delay(local, peers.last().id),
                },
            )
        } else {
            rest
        }
    }
}

/// The dials to start, one for each merged peer that can be dialed. Normally the
/// lower identity owns the dial; a delayed one from the other side makes a
/// bootstrap robust where only that side has a usable locator.
pub fn dial_plan(peers: &Vec<V2PeerConfig>, local: &EndpointId) -> (r: Vec<DialV2>)
    ensures
        r@ == dials(merged_peers(peers@), local@),
{
    let merged_list: Vec<V2PeerConfig> = merge_peers(peers);
    let ghost models = peer_models(merged_list@);
    let mut plan: Vec<DialV2> = Vec::new();
    let mut index: usize = 0;
    assert(models.take(0).len() == 0);
    while index < merged_list.len()
        invariant
            index <= merged_list@.len(),
            models == peer_models(merged_list@),
            plan@ == dials(models.take(index as int), local@),
        decreases merged_list@.len() - index,
    {
        let peer: &V2PeerConfig = &merged_list[index];
        proof {
            assert(models.take(index + 1).drop_last() =~= models.take(index as int));
            assert(models.take(index + 1).last() == peer_model(*peer));
            lemma_dialable_model(*peer);
        }
        if peer.is_dialable() {
            let delay: Option<Duration> = if mesh_should_dial(local, &peer.endpoint_id) {
                None
            } else {
                Some(Duration::from_millis(FALLBACK_DIAL_DELAY_MILLIS))
            };
            plan.push(DialV2 { peer: index, delay });
        }
        index = index + 1;
    }
    assert(models.take(index as int) =~= models);
    plan
}

/// A dialable peer is dialed once and no other peer is dialed: the dials name
/// different peers, in order.
pub proof fn lemma_each_dialable_peer_is_dialed_once(peers: Seq<PeerModel>, local: Seq<u8>)
    requires
        peers.len() <= usize::MAX,
    ensures
        forall|i: int, j: int|
            0 <= i < j < dials(peers, local).len() ==> (#[trigger] dials(peers, local)[i]).peer < (
            #[trigger] dials(peers, local)[j]).peer,
        forall|i: int|
            0 <= i < dials(peers, local).len() ==> (#[trigger] dials(peers, local)[i]).peer
                < peers.len() && peers[dials(peers, local)[i].peer as int].is_dialable(),
        forall|at: int|
            0 <= at < peers.len() && (#[trigger] peers[at]).is_dialable() ==> exists|i: int|
                0 <= i < dials(peers, local).len() && (#[trigger] dials(peers, local)[i]).peer
                    == at,
    decreases peers.len(),
{
    if peers.len() > 0 {
        let rest = peers.drop_last();
        let before = dials(rest, local);
        let after = dials(peers, local);
        lemma_each_dialable_peer_is_dialed_once(rest, local);
        assert forall|i: int| 0 <= i < after.len() implies (#[trigger] after[i]).peer < peers.len()
            && peers[after[i].peer as int].is_dialable() by {
            if i < before.len() {
                assert(after[i] == before[i]);
                assert(rest[before[i].peer as int] == peers[before[i].peer as int]);
            }
        }
        assert forall|i: int, j: int| 0 <= i < j < after.len() implies (#[trigger] after[i]).peer < (
        #[trigger] after[j]).peer by {
            assert(after[i] == before[i]);
            if j < before.len() {
                assert(after[j] == before[j]);
            }
        }
        assert forall|at: int| 0 <= at < peers.len() && (
        #[trigger] peers[at]).is_dialable() implies exists|i: int|
            0 <= i < after.len() && (#[trigger] after[i]).peer == at by {
            if at < rest.len() {
                assert(rest[at].is_dialable());
                let i = choose|i: int| 0 <= i < before.len() && (#[trigger] before[i]).peer == at;
                assert(after[i].peer == at);
            } else {
                assert(after[before.len() as int].peer == at);
            }
        }
    }
}

/// The wait after the next failed dial: twice the last one, at most three
/// seconds.
pub fn next_retry_delay(delay: Duration) -> (r: Duration)
    ensures
        r.nanos == if delay.nanos * 2 < 3_000_000_000 {
            delay.nanos * 2
        } else {
            3_000_000_000
        },
{
    delay.saturating_mul(2).at_most(Duration::from_millis(LAST_RETRY_DELAY_MILLIS))
}

/// The wait before the second dial.
pub fn first_retry_delay() -> (r: Duration)
    ensures
        r.nanos == 200_000_000,
{
    Duration::from_millis(FIRST_RETRY_DELAY_MILLIS)
}

/// What to do with an incoming connection.
#[derive(Clone, Copy, Debug, PartialEq, Eq, Structural)]
pub enum IncomingV2 {
    /// Close it: the peer is unknown, or the local node owns the dial.
    Unexpected,
    /// Negotiate a session.
    Negotiate,
}

/// Whether an incoming connection of a peer is expected: the peer is
/// configured, and the local node does not dial it first.
pub open spec fn expects(peers: Seq<PeerModel>, local: Seq<u8>, remote: Seq<u8>) -> bool {
    exists|i: int|
        0 <= i < peers.len() && (#[trigger] peers[i]).id == remote && !(peers[i].is_dialable()
            && identity_lt(local, remote))
}

/// What to do with an incoming connection of a peer, by the merged peers.
pub fn incoming_connection(
    peers: &Vec<V2PeerConfig>,
    local: &EndpointId,
    remote: &EndpointId,
) -> (r: IncomingV2)
    ensures
        r == if expects(merged_peers(peers@), local@, remote@) {
            IncomingV2::Negotiate
        } else {
            IncomingV2::Unexpected
        },
{
    let owned: bool = mesh_should_dial(local, remote);
    let merged_list: Vec<V2PeerConfig> = merge_peers(peers);
    let ghost models = peer_models(merged_list@);
    let mut index: usize = 0;
    while index < merged_list.len()
        invariant
            index <= merged_list@.len(),
            models == peer_models(merged_list@),
            models == merged_peers(peers@),
            owned == identity_lt(local@, remote@),
            forall|i: int|
                0 <= i < index && (#[trigger] models[i]).id == remote@ ==> models[i].is_dialable()
                    && owned,
        decreases merged_list@.len() - index,
    {
        let peer: &V2PeerConfig = &merged_list[index];
        proof {
            assert(models[index as int] == peer_model(*peer));
            lemma_dialable_model(*peer);
        }
        if peer.endpoint_id.same(remote) && !(peer.is_dialable() && owned) {
            return IncomingV2::Negotiate;
        }
        index = index + 1;
    }
    IncomingV2::Unexpected
}

/// Whether some entry of a peer can be dialed.
pub open spec fn has_dialable_entry(peers: Seq<PeerModel>, id: Seq<u8>) -> bool {
    exists|i: int| 0 <= i < peers.len() && (#[trigger] peers[i]).id == id && peers[i].is_dialable()
}

/// An incoming connection of a peer with a locator is expected where the local
/// node does not own the dial.
proof fn lemma_expects_unowned(peers: Seq<PeerModel>, local: Seq<u8>, remote: Seq<u8>)
    requires
        has_dialable_entry(peers, remote),
    ensures
        expects(merged(peers), local, remote) == !identity_lt(local, remote),
{
    let list = merged(peers);
    lemma_each_peer_stands_once(peers);
    lemma_dialable_by_any_entry(peers, remote);
    assert forall|j: int| 0 <= j < list.len() && (#[trigger] list[j]).id
        == remote implies list[j].is_dialable() by {
        assert(list[j] == merged_peer(peers, peer_ids(peers)[j]));
    }
    let i = choose|i: int|
        0 <= i < peers.len() && (#[trigger] peers[i]).id == remote && peers[i].is_dialable();
    let j = choose|j: int| 0 <= j < list.len() && (#[trigger] list[j]).id == peers[i].id;
    assert(list[j].id == remote);
}

/// Where two nodes configure each other with locators, in one entry or in
/// several, exactly one of the two directions is accepted.
pub proof fn lemma_one_direction_is_accepted(
    a_peers: Seq<PeerModel>,
    b_peers: Seq<PeerModel>,
    a: Seq<u8>,
    b: Seq<u8>,
)
    requires
        a != b,
        has_dialable_entry(a_peers, b),
        has_dialable_entry(b_peers, a),
    ensures
        expects(merged(a_peers), a, b) != expects(merged(b_peers), b, a),
{
    lemma_exactly_one_side_dials(a, b);
    lemma_expects_unowned(a_peers, a, b);
    lemma_expects_unowned(b_peers, b, a);
}

/// An authenticated session with a peer. Path migration stays inside the one
/// connection that `connection` names; a peer never has parallel sessions.
#[derive(Clone, Copy, Debug)]
pub struct PeerSessionV2 {
    pub id: AdjacencyIdV2,
    pub remote_id: EndpointId,
    pub connection: u64,
}

impl SortKey for PeerSessionV2 {
    open spec fn key(&self) -> Seq<int> {
        byte_key(self.remote_id@)
    }

    fn at_most(&self, other: &Self) -> (r: bool) {
        self.remote_id.at_most(&other.remote_id)
    }
}

/// The sessions that were established, one per peer.
#[derive(Debug)]
pub struct PeerSessionsV2 {
    pub sessions: Vec<PeerSessionV2>,
}

impl PeerSessionsV2 {
    /// No peer has two sessions.
    pub open spec fn wf(&self) -> bool {
        forall|i: int, j: int|
            0 <= i < j < self.sessions@.len() ==> (#[trigger] self.sessions@[i]).remote_id@ != (
            #[trigger] self.sessions@[j]).remote_id@
    }

    /// The sessions by peer.
    pub open spec fn by_peer(&self) -> Map<Seq<u8>, PeerSessionV2> {
        Map::new(
            |peer: Seq<u8>|
                exists|i: int|
                    0 <= i < self.sessions@.len() && (
                    #[trigger] self.sessions@[i]).remote_id@ == peer,
            |peer: Seq<u8>|
                self.sessions@[choose|i: int|
                    0 <= i < self.sessions@.len() && (
                    #[trigger] self.sessions@[i]).remote_id@ == peer],
        )
    }

    /// No sessions.
    pub fn new() -> (r: PeerSessionsV2)
        ensures
            r.wf(),
            r.sessions@.len() == 0,
            r.by_peer() == Map::<Seq<u8>, PeerSessionV2>::empty(),
    {
        let r: PeerSessionsV2 = PeerSessionsV2 { sessions: Vec::new() };
        assert(r.by_peer() =~= Map::empty());
        r
    }

    /// Keep a session. The session that the peer had before is handed back, to
    /// be closed.
    pub fn insert(&mut self, session: PeerSessionV2) -> (r: Option<PeerSessionV2>)
        requires
            old(self).wf(),
        ensures
            final(self).wf(),
            final(self).by_peer() == old(self).by_peer().insert(session.remote_id@, session),
            r == (if old(self).by_peer().contains_key(session.remote_id@) {
                Some(old(self).by_peer()[session.remote_id@])
            } else {
                None
            }),
            final(self).sessions@.len() == old(self).sessions@.len() + if r is Some {
                0int
            } else {
                1int
            },
    {
        let ghost before = *self;
        let mut index: usize = 0;
        while index < self.sessions.len()
            invariant
                *self == before,
                before == *old(self),
                before.wf(),
                index <= self.sessions@.len(),
                forall|i: int|
                    0 <= i < index ==> (#[trigger] self.sessions@[i]).remote_id@
                        != session.remote_id@,
            decreases self.sessions@.len() - index,
        {
            if self.sessions[index].remote_id.same(&session.remote_id) {
                let previous: PeerSessionV2 = self.sessions[index];
                self.sessions.set(index, session);
                proof {
                    lemma_replaced(before, *self, session, index as int);
                }
                return Some(previous);
            }
            index = index + 1;
        }
        self.sessions.push(session);
        proof {
            lemma_appended(before, *self, session);
        }
        None
    }

    /// Whether there are as many sessions as merged peers.
    pub fn is_complete(&self, peers: &Vec<V2PeerConfig>) -> (r: bool)
        ensures
            r == (self.sessions@.len() >= merged_peers(peers@).len()),
    {
        self.sessions.len() >= merge_peers(peers).len()
    }

    /// The sessions in the order of their peers.
    pub fn into_sorted(self) -> (r: Vec<PeerSessionV2>)
        requires
            self.wf(),
        ensures
            r@.to_multiset() == self.sessions@.to_multiset(),
            is_sorted(keys(r@)),
            r@.len() == self.sessions@.len(),
    {
        sorted(self.sessions)
    }
}

/// The session of each place.
proof fn lemma_session_at(sessions: PeerSessionsV2, at: int)
    requires
        sessions.wf(),
        0 <= at < sessions.sessions@.len(),
    ensures
        sessions.by_peer().contains_key(sessions.sessions@[at].remote_id@),
        sessions.by_peer()[sessions.sessions@[at].remote_id@] == sessions.sessions@[at],
{
    let peer = sessions.sessions@[at].remote_id@;
    let i = choose|i: int|
        0 <= i < sessions.sessions@.len() && (#[trigger] sessions.sessions@[i]).remote_id@ == peer;
    if i < at {
        assert(sessions.sessions@[i].remote_id@ != sessions.sessions@[at].remote_id@);
    }
    if at < i {
        assert(sessions.sessions@[at].remote_id@ != sessions.sessions@[i].remote_id@);
    }
}

/// One session takes the place of another of the same peer.
proof fn lemma_replaced(
    before: PeerSessionsV2,
    after: PeerSessionsV2,
    session: PeerSessionV2,
    at: int,
)
    requires
        before.wf(),
        0 <= at < before.sessions@.len(),
        before.sessions@[at].remote_id@ == session.remote_id@,
        after.sessions@ == before.sessions@.update(at, session),
    ensures
        after.wf(),
        after.by_peer() == before.by_peer().insert(session.remote_id@, session),
        before.by_peer().contains_key(session.remote_id@),
        before.by_peer()[session.remote_id@] == before.sessions@[at],
{
    assert forall|i: int| 0 <= i < after.sessions@.len() implies (
    #[trigger] after.sessions@[i]).remote_id@ == before.sessions@[i].remote_id@ by {}
    lemma_session_at(before, at);
    lemma_session_at(after, at);
    let expected = before.by_peer().insert(session.remote_id@, session);
    assert forall|peer: Seq<u8>| after.by_peer().contains_key(peer) == expected.contains_key(
        peer,
    ) by {
        if after.by_peer().contains_key(peer) {
            let i = choose|i: int|
                0 <= i < after.sessions@.len() && (#[trigger] after.sessions@[i]).remote_id@
                    == peer;
            assert(before.sessions@[i].remote_id@ == peer);
        }
        if before.by_peer().contains_key(peer) {
            let i = choose|i: int|
                0 <= i < before.sessions@.len() && (#[trigger] before.sessions@[i]).remote_id@
                    == peer;
            assert(after.sessions@[i].remote_id@ == peer);
        }
    }
    assert forall|peer: Seq<u8>| after.by_peer().contains_key(peer) implies after.by_peer()[peer]
        == expected[peer] by {
        let i = choose|i: int|
            0 <= i < after.sessions@.len() && (#[trigger] after.sessions@[i]).remote_id@ == peer;
        lemma_session_at(after, i);
        lemma_session_at(before, i);
    }
    assert(after.by_peer() =~= expected);
}

/// A session of a new peer is put behind the others.
proof fn lemma_appended(before: PeerSessionsV2, after: PeerSessionsV2, session: PeerSessionV2)
    requires
        before.wf(),
        forall|i: int|
            0 <= i < before.sessions@.len() ==> (#[trigger] before.sessions@[i]).remote_id@
                != session.remote_id@,
        after.sessions@ == before.sessions@.push(session),
    ensures
        after.wf(),
        after.by_peer() == before.by_peer().insert(session.remote_id@, session),
        !before.by_peer().contains_key(session.remote_id@),
{
    let count = before.sessions@.len() as int;
    assert forall|i: int, j: int| 0 <= i < j < after.sessions@.len() implies (
    #[trigger] after.sessions@[i]).remote_id@ != (#[trigger] after.sessions@[j]).remote_id@ by {
        assert(after.sessions@[i] == before.sessions@[i]);
        if j < count {
            assert(after.sessions@[j] == before.sessions@[j]);
        }
    }
    lemma_session_at(after, count);
    let expected = before.by_peer().insert(session.remote_id@, session);
    assert forall|peer: Seq<u8>| after.by_peer().contains_key(peer) == expected.contains_key(
        peer,
    ) by {
        if after.by_peer().contains_key(peer) {
            let i = choose|i: int|
                0 <= i < after.sessions@.len() && (#[trigger] after.sessions@[i]).remote_id@
                    == peer;
            if i < count {
                assert(before.sessions@[i].remote_id@ == peer);
            }
        }
        if before.by_peer().contains_key(peer) {
            let i = choose|i: int|
                0 <= i < before.sessions@.len() && (#[trigger] before.sessions@[i]).remote_id@
                    == peer;
            assert(after.sessions@[i].remote_id@ == peer);
        }
    }
    assert forall|peer: Seq<u8>| after.by_peer().contains_key(peer) implies after.by_peer()[peer]
        == expected[peer] by {
        let i = choose|i: int|
            0 <= i < after.sessions@.len() && (#[trigger] after.sessions@[i]).remote_id@ == peer;
        lemma_session_at(after, i);
        if i < count {
            lemma_session_at(before, i);
        }
    }
    assert(after.by_peer() =~= expected);
}

/// What a connection carries.
#[derive(Clone, Copy, Debug, PartialEq, Eq, Structural)]
pub enum ConnectionRole {
    Data,
}

/// The wire limits of a session.
#[derive(Clone, Copy, Debug, PartialEq, Eq, Structural)]
pub struct WireLimitsV2 {
    pub max_datagram_size: u16,
    pub max_control_size: u32,
    pub max_train_size: u32,
    pub max_record_size: u32,
    pub max_cells_per_train: u16,
    pub max_active_trains: u16,
}

/// What a session is negotiated from.
#[derive(Debug)]
pub struct SessionPolicyV2 {
    pub network_id: String,
    pub local_id: EndpointId,
    pub remote_id: EndpointId,
    pub role: ConnectionRole,
    pub expected_remote_role: Option<ConnectionRole>,
    pub limits: WireLimitsV2,
    pub cover_profile_id: u32,
}

/// What a session with a peer is negotiated from. The datagram limit is the
/// ceiling of the cell codec, not a guess of the path's MTU: every train is cut
/// to the live maximum of its path.
pub fn session_policy(config: &V2RuntimeConfig, local_id: EndpointId, remote_id: EndpointId) -> (r:
    SessionPolicyV2)
    ensures
        r.network_id@ == config.network_id@,
        r.local_id == local_id,
        r.remote_id == remote_id,
        r.role == ConnectionRole::Data,
        r.expected_remote_role == Some(ConnectionRole::Data),
        r.limits == (WireLimitsV2 {
            max_datagram_size: u16::MAX,
            max_control_size: 1_048_576,
            max_train_size: 65_536,
            max_record_size: 65_535,
            max_cells_per_train: 256,
            max_active_trains: 1024,
        }),
        r.cover_profile_id == config.cover_profile_id,
{
    SessionPolicyV2 {
        network_id: config.network_id.clone(),
        local_id,
        remote_id,
        role: ConnectionRole::Data,
        expected_remote_role: Some(ConnectionRole::Data),
        limits: WireLimitsV2 {
            max_datagram_size: u16::MAX,
            max_control_size: 1024 * 1024,
            max_train_size: 64 * 1024,
            max_record_size: u16::MAX as u32,
            max_cells_per_train: 256,
            max_active_trains: 1024,
        },
        cover_profile_id: config.cover_profile_id,
    }
}

/// The first byte in which two identities differ decides: the node with the
/// lower one dials at once, and the other waits for three quarters of a second.
pub proof fn lemma_lower_identity_dials_at_once(a: Seq<u8>, b: Seq<u8>, at: int)
    requires
        0 <= at < a.len(),
        at < b.len(),
        forall|i: int| 0 <= i < at ==> #[trigger] a[i] == b[i],
        a[at] < b[at],
    ensures
        fallback_delay(a, b) is None,
        fallback_delay(b, a) matches Some(delay) && delay.nanos == 750_000_000,
        ordered_pair(a, b) == (a, b),
        ordered_pair(b, a) == (a, b),
{
    lemma_first_difference_decides(byte_key(a), byte_key(b), at);
}

proof fn lemma_first_difference_decides(a: Seq<int>, b: Seq<int>, at: int)
    requires
        0 <= at < a.len(),
        at < b.len(),
        forall|i: int| 0 <= i < at ==> #[trigger] a[i] == b[i],
        a[at] < b[at],
    ensures
        key_le(a, b),
        !key_le(b, a),
    decreases at,
{
    if at > 0 {
        assert(a[0] == b[0]);
        let x = a.drop_first();
        let y = b.drop_first();
        assert forall|i: int| 0 <= i < at - 1 implies #[trigger] x[i] == y[i] by {
            assert(a[i + 1] == b[i + 1]);
        }
        lemma_first_difference_decides(x, y, at - 1);
    }
}

/// The cover input is the text `ironet-v2/live-media-sni`, a zero byte, the
/// network's identifier, a zero byte, the lower identity, the higher identity
/// and the generation, its high byte first.
pub proof fn lemma_cover_input_layout(
    network_id: Seq<char>,
    lower: Seq<u8>,
    higher: Seq<u8>,
    generation: u32,
    at: int,
)
    requires
        0 <= at < lower.len(),
        at < higher.len(),
        forall|i: int| 0 <= i < at ==> #[trigger] lower[i] == higher[i],
        lower[at] < higher[at],
    ensures
        ({
            let name = "ironet-v2/live-media-sni"@;
            let id = vstd::utf8::encode_utf8(network_id);
            let input = cover_input(network_id, lower, higher, generation);
            let first = 26 + id.len() as int;
            let second = first + lower.len() as int;
            let last = second + higher.len() as int;
            &&& name.len() == 24
            &&& input.len() == last + 4
            &&& forall|i: int| 0 <= i < 24 ==> #[trigger] input[i] as int == name[i] as int
            &&& input[24] == 0
            &&& input.subrange(25, 25 + id.len() as int) == id
            &&& input[25 + id.len() as int] == 0
            &&& input.subrange(first, second) == lower
            &&& input.subrange(second, last) == higher
            &&& input[last] == generation / 0x100_0000
            &&& input[last + 1] == generation / 0x1_0000 % 0x100
            &&& input[last + 2] == generation / 0x100 % 0x100
            &&& input[last + 3] == generation % 0x100
        }),
{
    reveal_strlit("ironet-v2/live-media-sni");
    lemma_lower_identity_dials_at_once(lower, higher, at);
    let id = vstd::utf8::encode_utf8(network_id);
    let input = cover_input(network_id, lower, higher, generation);
    let first = 26 + id.len() as int;
    let second = first + lower.len() as int;
    let last = second + higher.len() as int;
    assert(input.subrange(25, 25 + id.len() as int) =~= id);
    assert(input.subrange(first, second) =~= lower);
    assert(input.subrange(second, last) =~= higher);
    assert(generation / 0x100_0000 < 256);
    assert(input[last] == big_endian(generation)[0]);
    assert(input[last + 1] == big_endian(generation)[1]);
    assert(input[last + 2] == big_endian(generation)[2]);
    assert(input[last + 3] == big_endian(generation)[3]);
}

/// Two bytes read as a number weigh the first one two hundred and fifty-six
/// times as much as the second, and four bytes give back the number that they
/// were written from.
pub proof fn lemma_high_byte_comes_first(high: u8, low: u8, n: u32)
    ensures
        big_endian_value(seq![high, low]) == high * 256 + low,
        big_endian_value(big_endian(n)) == n,
{
    reveal_with_fuel(big_endian_value, 5);
    let two = seq![high, low];
    assert(two.drop_last() =~= seq![high]);
    assert(seq![high].drop_last() =~= Seq::<u8>::empty());
    let four = big_endian(n);
    let a = four.drop_last();
    let b = a.drop_last();
    let c = b.drop_last();
    assert(c.drop_last().len() == 0);
    assert(n / 0x100_0000 < 256);
    assert(four.last() == n % 0x100 && a.last() == n / 0x100 % 0x100 && b.last() == n / 0x1_0000
        % 0x100 && c.last() == n / 0x100_0000);
}

/// A further peer is dialed exactly where it has an address or a relay key. It
/// is dialed at once by the node with the lower identity, and after three
/// quarters of a second by the other.
pub proof fn lemma_every_dialable_peer_gets_its_dial(
    peers: Seq<PeerModel>,
    peer: PeerModel,
    local: Seq<u8>,
)
    ensures
        dials(Seq::empty(), local).len() == 0,
        peer.derp_public_key is None && (forall|address: SocketAddr|
            !peer.addresses.contains(address)) ==> dials(peers.push(peer), local) == dials(
            peers,
            local,
        ),
        peer.derp_public_key is Some || (exists|address: SocketAddr|
            peer.addresses.contains(address)) ==> ({
            let all = dials(peers.push(peer), local);
            &&& all.drop_last() == dials(peers, local)
            &&& all.last().peer == peers.len() as usize
            &&& all.last().delay is None <==> identity_lt(local, peer.id)
            &&& all.last().delay matches Some(delay) ==> delay.nanos == 750_000_000
        }),
{
    assert(peers.push(peer).drop_last() =~= peers);
    assert(peers.push(peer).last() == peer);
    if peer.is_dialable() {
        assert(dials(peers.push(peer), local).drop_last() =~= dials(peers, local));
    }
}

/// A node accepts a peer that it knows, unless it can dial that peer and owns
/// the dial; it accepts no stranger.
pub proof fn lemma_known_peers_are_accepted(
    peers: Seq<PeerModel>,
    local: Seq<u8>,
    remote: Seq<u8>,
    at: int,
)
    ensures
        0 <= at < peers.len() && peers[at].id == remote && !identity_lt(local, remote) ==> expects(
            peers,
            local,
            remote,
        ),
        0 <= at < peers.len() && peers[at].id == remote && peers[at].derp_public_key is None && (
        forall|address: SocketAddr| !peers[at].addresses.contains(address)) ==> expects(
            peers,
            local,
            remote,
        ),
        (forall|i: int| 0 <= i < peers.len() ==> (#[trigger] peers[i]).id != remote) ==> !expects(
            peers,
            local,
            remote,
        ),
        (forall|i: int|
            0 <= i < peers.len() && (#[trigger] peers[i]).id == remote
                ==> peers[i].derp_public_key is Some) && identity_lt(local, remote) ==> !expects(
            peers,
            local,
            remote,
        ),
{
}

/// A name is preferred exactly when the lookup made for it gave an address of
/// one of the peer's sockets.
pub proof fn lemma_names_of_the_peer_are_preferred(
    pool: Seq<String>,
    lookups: Seq<Option<Vec<IpAddr>>>,
    direct: Seq<SocketAddr>,
    at: int,
    found: int,
    socket: int,
)
    requires
        0 <= at < pool.len(),
        at < lookups.len(),
    ensures
        (lookups[at] matches Some(addresses) && 0 <= found < addresses@.len() && 0 <= socket
            < direct.len() && addresses@[found] == direct[socket].ip) ==> matching_names(
            pool,
            lookups,
            direct,
        ).contains(pool[at]@),
        (forall|i: int|
            0 <= i < pool.len() && i < lookups.len() && (#[trigger] pool[i])@ == pool[at]@
                ==> lookups[i] is None) ==> !matching_names(pool, lookups, direct).contains(
            pool[at]@,
        ),
        direct.len() == 0 ==> !matching_names(pool, lookups, direct).contains(pool[at]@),
{
    if let Some(addresses) = lookups[at] {
        if 0 <= found < addresses@.len() && 0 <= socket < direct.len() && addresses@[found]
            == direct[socket].ip {
            assert(resolves_to_peer(addresses@, direct));
            assert(pool[at]@ == pool[at]@);
        }
    }
}

/// Where some name of the pool is preferred, only preferred names are drawn
/// from; where none is, the whole pool is. The draw picks by its remainder.
pub proof fn lemma_draw_picks_among_the_preferred(
    pool: Seq<Seq<char>>,
    preferred: Set<Seq<char>>,
    draw: u64,
)
    requires
        pool.len() > 0,
        draw <= usize::MAX,
    ensures
        (forall|i: int| 0 <= i < pool.len() ==> !preferred.contains(#[trigger] pool[i]))
            ==> drawn_name(pool, preferred, draw as int) == canonical_names(
            pool,
        )[draw as int % pool.len() as int],
        (forall|i: int| 0 <= i < pool.len() ==> preferred.contains(#[trigger] pool[i]))
            ==> drawn_name(pool, preferred, draw as int) == canonical_names(
            pool,
        )[draw as int % pool.len() as int],
        forall|name: Seq<char>|
            eligible(pool, preferred).contains(name) ==> #[trigger] pool.contains(name),
{
    let pick = |name: Seq<char>| preferred.contains(name);
    let chosen = pool.filter(pick);
    if forall|i: int| 0 <= i < pool.len() ==> !preferred.contains(#[trigger] pool[i]) {
        if chosen.len() > 0 {
            pool.lemma_filter_pred(pick, 0);
            assert(chosen.contains(chosen[0]));
            pool.lemma_filter_contains_rev(pick, chosen[0]);
        }
    }
    if forall|i: int| 0 <= i < pool.len() ==> preferred.contains(#[trigger] pool[i]) {
        lemma_filter_keeps_all(pool, pick);
    }
    assert forall|name: Seq<char>| eligible(pool, preferred).contains(name) implies
        #[trigger] pool.contains(name) by {
        if chosen.len() > 0 {
            pool.lemma_filter_contains_rev(pick, name);
        }
    }
}

proof fn lemma_filter_keeps_all(pool: Seq<Seq<char>>, pick: spec_fn(Seq<char>) -> bool)
    requires
        forall|i: int| 0 <= i < pool.len() ==> pick(#[trigger] pool[i]),
    ensures
        pool.filter(pick) == pool,
    decreases pool.len(),
{
    reveal(Seq::filter);
    if pool.len() > 0 {
        lemma_filter_keeps_all(pool.drop_last(), pick);
        assert(pool.drop_last().push(pool.last()) =~= pool);
    }
}

/// A peer has a session exactly where one of the kept sessions is with it, and
/// it is that one.
pub proof fn lemma_session_of_a_peer(sessions: PeerSessionsV2, peer: Seq<u8>, at: int)
    requires
        sessions.wf(),
    ensures
        0 <= at < sessions.sessions@.len() && sessions.sessions@[at].remote_id@ == peer
            ==> sessions.by_peer().contains_key(peer) && sessions.by_peer()[peer]
            == sessions.sessions@[at],
        (forall|i: int|
            0 <= i < sessions.sessions@.len() ==> (#[trigger] sessions.sessions@[i]).remote_id@
                != peer) ==> !sessions.by_peer().contains_key(peer),
{
    if 0 <= at < sessions.sessions@.len() && sessions.sessions@[at].remote_id@ == peer {
        lemma_session_at(sessions, at);
    }
}

} // verus!

//! What a node says of itself, and what follows from what others say.

use vstd::prelude::*;

use crate::config::{copy_all, extend_with};
use crate::identity::EndpointId;
use crate::link::{
    dialable_addresses, first_selected, selected_direct_addresses, selected_path_cost, PathViewV2,
};
use crate::net::{IpAddr, IpNet, SocketAddr};
use crate::num::{clamp_int, min_int};
use crate::routing::AdjacencyIdV2;
use crate::sort::{
    is_strictly_sorted, keys, lemma_distinct_values, lemma_distinct_values_are_unique,
    sorted_distinct,
};

verus! {

/// Seconds that a presence lasts.
pub const PRESENCE_LEASE_SECS: u64 = 180;

/// Seconds between two renewals.
pub const PRESENCE_REFRESH_SECS: u64 = 60;

/// A link that a node announces.
#[derive(Clone, Copy, Debug)]
pub struct PresenceLinkV2 {
    pub peer: EndpointId,
    pub cost: u32,
    pub healthy: bool,
    pub maximum_datagram_size: u16,
}

/// What a node announces of itself.
#[derive(Debug)]
pub struct PresenceBodyV2 {
    pub owner: EndpointId,
    pub sequence: u64,
    pub issued_unix_secs: u64,
    pub expires_unix_secs: u64,
    pub direct_addresses: Vec<SocketAddr>,
    pub node_addresses: Vec<IpNet>,
    pub prefixes: Vec<IpNet>,
    pub links: Vec<PresenceLinkV2>,
    pub transit_enabled: bool,
}

/// What an adjacency shows.
#[derive(Debug)]
pub struct AdjacencyViewV2 {
    pub remote_id: EndpointId,
    pub paths: Vec<PathViewV2>,
    /// The largest datagram that the connection takes now, where it knows.
    pub live_datagram_size: Option<usize>,
    pub negotiated_datagram_size: u16,
    pub closed: bool,
}

/// The direct addresses that the adjacencies show, in order.
pub open spec fn shown_addresses(adjacencies: Seq<AdjacencyViewV2>, port: u16) -> Seq<SocketAddr>
    decreases adjacencies.len(),
{
    if adjacencies.len() == 0 || port == 0 {
        Seq::empty()
    } else {
        shown_addresses(adjacencies.drop_last(), port) + dialable_addresses(
            adjacencies.last().paths@,
            port,
        )
    }
}

/// All direct addresses: those that the adjacencies show and the bound one,
/// where it is a specific one.
pub open spec fn all_direct(adjacencies: Seq<AdjacencyViewV2>, bind: SocketAddr) -> Seq<SocketAddr> {
    let shown = shown_addresses(adjacencies, bind.port);
    if bind.port != 0 && !bind.ip.is_unspecified() {
        shown.push(bind)
    } else {
        shown
    }
}

/// Whether a list holds the first of the direct addresses, each once and in
/// order.
pub open spec fn is_direct_list(
    list: Seq<SocketAddr>,
    adjacencies: Seq<AdjacencyViewV2>,
    bind: SocketAddr,
    limit: usize,
) -> bool {
    exists|whole: Seq<SocketAddr>|
        #![trigger is_strictly_sorted(keys(whole))]
        is_strictly_sorted(keys(whole)) && whole.to_set() == all_direct(adjacencies, bind).to_set()
            && list == whole.take(min_int(limit as int, whole.len() as int))
}

/// The direct addresses to announce, at most `limit`.
pub fn announced_addresses(
    adjacencies: &Vec<AdjacencyViewV2>,
    bind: SocketAddr,
    limit: usize,
) -> (r: Vec<SocketAddr>)
    ensures
        is_direct_list(r@, adjacencies@, bind, limit),
{
    let mut addresses: Vec<SocketAddr> = Vec::new();
    let mut index: usize = 0;
    assert(adjacencies@.take(0).len() == 0);
    assert(addresses@ =~= shown_addresses(adjacencies@.take(0), bind.port));
    while index < adjacencies.len()
        invariant
            index <= adjacencies@.len(),
            addresses@ == shown_addresses(adjacencies@.take(index as int), bind.port),
        decreases adjacencies@.len() - index,
    {
        let shown: Vec<SocketAddr> = selected_direct_addresses(&adjacencies[index].paths, bind.port);
        extend_with(&mut addresses, &shown);
        proof {
            assert(adjacencies@.take(index + 1).drop_last() =~= adjacencies@.take(index as int));
            assert(adjacencies@.take(index + 1).last() == adjacencies@[index as int]);
            assert(addresses@ =~= shown_addresses(adjacencies@.take(index + 1), bind.port));
        }
        index = index + 1;
    }
    assert(adjacencies@.take(index as int) =~= adjacencies@);
    if bind.port != 0 && !bind.ip.is_unspecified() {
        addresses.push(bind);
    }
    let ghost all = addresses@;
    let mut ordered: Vec<SocketAddr> = sorted_distinct(addresses);
    let ghost whole = ordered@;
    proof {
        crate::net::lemma_endpoint_keys();
        lemma_distinct_values(all, whole);
    }
    if ordered.len() > limit {
        ordered.truncate(limit);
    }
    assert(ordered@ =~= whole.take(min_int(limit as int, whole.len() as int)));
    ordered
}

/// The announced addresses are fixed by what the adjacencies show.
pub proof fn lemma_announced_addresses_are_unique(
    a: Seq<SocketAddr>,
    b: Seq<SocketAddr>,
    adjacencies: Seq<AdjacencyViewV2>,
    bind: SocketAddr,
    limit: usize,
)
    requires
        is_direct_list(a, adjacencies, bind, limit),
        is_direct_list(b, adjacencies, bind, limit),
    ensures
        a == b,
{
    let all = all_direct(adjacencies, bind);
    let first = choose|whole: Seq<SocketAddr>|
        #![trigger is_strictly_sorted(keys(whole))]
        is_strictly_sorted(keys(whole)) && whole.to_set() == all.to_set() && a == whole.take(
            min_int(limit as int, whole.len() as int),
        );
    let second = choose|whole: Seq<SocketAddr>|
        #![trigger is_strictly_sorted(keys(whole))]
        is_strictly_sorted(keys(whole)) && whole.to_set() == all.to_set() && b == whole.take(
            min_int(limit as int, whole.len() as int),
        );
    lemma_distinct_values_are_unique(first, second);
}

/// The datagram size that a link announces: the live one within what was
/// negotiated.
pub open spec fn link_size(adjacency: AdjacencyViewV2) -> u16 {
    match adjacency.live_datagram_size {
        Some(live) => min_int(live as int, adjacency.negotiated_datagram_size as int) as u16,
        None => adjacency.negotiated_datagram_size,
    }
}

/// The first adjacency with a peer.
pub open spec fn adjacency_of(adjacencies: Seq<AdjacencyViewV2>, peer: Seq<u8>) -> Option<
    AdjacencyViewV2,
>
    decreases adjacencies.len(),
{
    if adjacencies.len() == 0 {
        None
    } else if adjacencies[0].remote_id@ == peer {
        Some(adjacencies[0])
    } else {
        adjacency_of(adjacencies.drop_first(), peer)
    }
}

/// A link after a refresh: health and datagram size follow the connection, the
/// cost stays. Transport quality belongs to the tuner of the direction; a cost
/// that followed every noisy round-trip sample would invalidate route labels
/// that are otherwise the same.
pub open spec fn refreshed_link(link: PresenceLinkV2, adjacencies: Seq<AdjacencyViewV2>) ->
    PresenceLinkV2 {
    match adjacency_of(adjacencies, link.peer@) {
        Some(adjacency) => PresenceLinkV2 {
            healthy: !adjacency.closed,
            maximum_datagram_size: link_size(adjacency),
            ..link
        },
        None => link,
    }
}

/// The first adjacency with a peer.
fn find_adjacency(adjacencies: &Vec<AdjacencyViewV2>, peer: &EndpointId) -> (r: Option<usize>)
    ensures
        match r {
            Some(at) => at < adjacencies@.len() && adjacency_of(adjacencies@, peer@) == Some(
                adjacencies@[at as int],
            ),
            None => adjacency_of(adjacencies@, peer@) is None,
        },
{
    let mut index: usize = 0;
    assert(adjacencies@.skip(0) =~= adjacencies@);
    while index < adjacencies.len()
        invariant
            index <= adjacencies@.len(),
            adjacency_of(adjacencies@, peer@) == adjacency_of(
                adjacencies@.skip(index as int),
                peer@,
            ),
        decreases adjacencies@.len() - index,
    {
        proof {
            assert(adjacencies@.skip(index as int)[0] == adjacencies@[index as int]);
            assert(adjacencies@.skip(index as int).drop_first() =~= adjacencies@.skip(index + 1));
        }
        if adjacencies[index].remote_id.same(peer) {
            return Some(index);
        }
        index = index + 1;
    }
    None
}

/// The datagram size that a link announces.
fn announced_size(adjacency: &AdjacencyViewV2) -> (r: u16)
    ensures
        r == link_size(*adjacency),
{
    match adjacency.live_datagram_size {
        Some(live) => if live < adjacency.negotiated_datagram_size as usize {
            live as u16
        } else {
            adjacency.negotiated_datagram_size
        },
        None => adjacency.negotiated_datagram_size,
    }
}

/// Whether two runs of addresses are the same.
fn same_addresses(a: &Vec<SocketAddr>, b: &Vec<SocketAddr>) -> (r: bool)
    ensures
        r == (a@ == b@),
{
    if a.len() != b.len() {
        return false;
    }
    let mut index: usize = 0;
    while index < a.len()
        invariant
            a@.len() == b@.len(),
            index <= a@.len(),
            forall|i: int| 0 <= i < index ==> a@[i] == b@[i],
        decreases a@.len() - index,
    {
        if a[index] != b[index] {
            assert(a@[index as int] != b@[index as int]);
            return false;
        }
        index = index + 1;
    }
    assert(a@ =~= b@);
    true
}

/// Bring the announcement up to date with the live paths, and tell whether
/// anything changed.
pub fn refresh_local_presence_paths(
    body: &mut PresenceBodyV2,
    adjacencies: &Vec<AdjacencyViewV2>,
    bind: SocketAddr,
    limit: usize,
) -> (r: bool)
    ensures
        is_direct_list(final(body).direct_addresses@, adjacencies@, bind, limit),
        final(body).links@.len() == old(body).links@.len(),
        forall|i: int|
            0 <= i < old(body).links@.len() ==> #[trigger] final(body).links@[i] == refreshed_link(
                old(body).links@[i],
                adjacencies@,
            ),
        final(body).owner == old(body).owner,
        final(body).sequence == old(body).sequence,
        final(body).issued_unix_secs == old(body).issued_unix_secs,
        final(body).expires_unix_secs == old(body).expires_unix_secs,
        final(body).node_addresses == old(body).node_addresses,
        final(body).prefixes == old(body).prefixes,
        final(body).transit_enabled == old(body).transit_enabled,
        r == (final(body).direct_addresses@ != old(body).direct_addresses@ || exists|i: int|
            0 <= i < old(body).links@.len() && #[trigger] final(body).links@[i]
                != old(body).links@[i]),
{
    let ghost before = *body;
    let direct: Vec<SocketAddr> = announced_addresses(adjacencies, bind, limit);
    let mut changed: bool = !same_addresses(&body.direct_addresses, &direct);
    let ghost moved = changed;
    body.direct_addresses = direct;
    let count: usize = body.links.len();
    let mut index: usize = 0;
    while index < count
        invariant
            before == *old(body),
            count == before.links@.len(),
            body.links@.len() == count,
            index <= count,
            is_direct_list(body.direct_addresses@, adjacencies@, bind, limit),
            moved == (body.direct_addresses@ != before.direct_addresses@),
            forall|i: int|
                0 <= i < index ==> #[trigger] body.links@[i] == refreshed_link(
                    before.links@[i],
                    adjacencies@,
                ),
            forall|i: int| index <= i < count ==> #[trigger] body.links@[i] == before.links@[i],
            body.owner == before.owner,
            body.sequence == before.sequence,
            body.issued_unix_secs == before.issued_unix_secs,
            body.expires_unix_secs == before.expires_unix_secs,
            body.node_addresses == before.node_addresses,
            body.prefixes == before.prefixes,
            body.transit_enabled == before.transit_enabled,
            changed == (moved || exists|i: int|
                0 <= i < index && #[trigger] body.links@[i] != before.links@[i]),
        decreases count - index,
    {
        let link: PresenceLinkV2 = body.links[index];
        let ghost earlier = body.links@;
        if let Some(at) = find_adjacency(adjacencies, &link.peer) {
            let next: PresenceLinkV2 = PresenceLinkV2 {
                peer: link.peer,
                cost: link.cost,
                healthy: !adjacencies[at].closed,
                maximum_datagram_size: announced_size(&adjacencies[at]),
            };
            let differs: bool = next.healthy != link.healthy || next.maximum_datagram_size
                != link.maximum_datagram_size;
            assert(differs == (next != link));
            body.links.set(index, next);
            proof {
                assert(next == refreshed_link(link, adjacencies@));
                lemma_change_seen(before.links@, earlier, body.links@, index as int, moved);
            }
            changed = changed || differs;
        } else {
            proof {
                lemma_change_seen(before.links@, earlier, body.links@, index as int, moved);
            }
        }
        index = index + 1;
    }
    changed
}

/// One more link.
proof fn lemma_change_seen(
    before: Seq<PresenceLinkV2>,
    earlier: Seq<PresenceLinkV2>,
    after: Seq<PresenceLinkV2>,
    index: int,
    moved: bool,
)
    requires
        before.len() == earlier.len(),
        after.len() == earlier.len(),
        0 <= index < after.len(),
        forall|i: int| 0 <= i < after.len() && i != index ==> after[i] == earlier[i],
    ensures
        (exists|i: int| 0 <= i < index + 1 && #[trigger] after[i] != before[i]) == ((exists|i: int|
            0 <= i < index && #[trigger] earlier[i] != before[i]) || after[index] != before[index]),
{
    if exists|i: int| 0 <= i < index && #[trigger] earlier[i] != before[i] {
        let i = choose|i: int| 0 <= i < index && #[trigger] earlier[i] != before[i];
        assert(after[i] != before[i]);
    }
    if exists|i: int| 0 <= i < index + 1 && #[trigger] after[i] != before[i] {
        let i = choose|i: int| 0 <= i < index + 1 && #[trigger] after[i] != before[i];
        if i < index {
            assert(earlier[i] != before[i]);
        }
    }
}

/// The first announcement of a node. Every link starts at what was negotiated:
/// a connection often shows a conservative floor right after its hello, and a
/// real reduction is reported at once.
pub fn initial_presence(
    owner: EndpointId,
    now: u64,
    adjacencies: &Vec<AdjacencyViewV2>,
    bind: SocketAddr,
    limit: usize,
    local_v4: IpAddr,
    local_v6: IpAddr,
    advertised_routes: &Vec<IpNet>,
    transit_enabled: bool,
) -> (r: PresenceBodyV2)
    ensures
        r.owner == owner,
        r.sequence == 1,
        r.issued_unix_secs == now,
        r.expires_unix_secs == min_int(now + PRESENCE_LEASE_SECS, u64::MAX as int),
        is_direct_list(r.direct_addresses@, adjacencies@, bind, limit),
        r.node_addresses@ == seq![
            IpNet { addr: local_v4, prefix_len: local_v4.width() },
            IpNet { addr: local_v6, prefix_len: local_v6.width() },
        ],
        r.prefixes@ == advertised_routes@,
        r.links@.len() == adjacencies@.len(),
        forall|i: int|
            0 <= i < adjacencies@.len() ==> #[trigger] r.links@[i] == (PresenceLinkV2 {
                peer: adjacencies@[i].remote_id,
                cost: match first_selected(adjacencies@[i].paths@) {
                    Some(path) => clamp_int(path.rtt.micros(), 1, u32::MAX as int) as u32,
                    None => 1,
                },
                healthy: true,
                maximum_datagram_size: adjacencies@[i].negotiated_datagram_size,
            }),
        r.transit_enabled == transit_enabled,
{
    let mut links: Vec<PresenceLinkV2> = Vec::new();
    let mut index: usize = 0;
    while index < adjacencies.len()
        invariant
            index <= adjacencies@.len(),
            links@.len() == index,
            forall|i: int|
                0 <= i < index ==> #[trigger] links@[i] == (PresenceLinkV2 {
                    peer: adjacencies@[i].remote_id,
                    cost: match first_selected(adjacencies@[i].paths@) {
                        Some(path) => clamp_int(path.rtt.micros(), 1, u32::MAX as int) as u32,
                        None => 1,
                    },
                    healthy: true,
                    maximum_datagram_size: adjacencies@[i].negotiated_datagram_size,
                }),
        decreases adjacencies@.len() - index,
    {
        links.push(
            PresenceLinkV2 {
                peer: adjacencies[index].remote_id,
                cost: selected_path_cost(&adjacencies[index].paths),
                healthy: true,
                maximum_datagram_size: adjacencies[index].negotiated_datagram_size,
            },
        );
        index = index + 1;
    }
    let mut node_addresses: Vec<IpNet> = Vec::new();
    node_addresses.push(IpNet::host(local_v4));
    node_addresses.push(IpNet::host(local_v6));
    PresenceBodyV2 {
        owner,
        sequence: 1,
        issued_unix_secs: now,
        expires_unix_secs: now.saturating_add(PRESENCE_LEASE_SECS),
        direct_addresses: announced_addresses(adjacencies, bind, limit),
        node_addresses,
        prefixes: copy_all(advertised_routes),
        links,
        transit_enabled,
    }
}

/// Why a presence cannot be published.
#[derive(Clone, Copy, Debug, PartialEq, Eq, Structural)]
pub enum PresenceErrorV2 {
    /// There is no further sequence number.
    SequenceOverflow,
    /// There is no further generation.
    GenerationOverflow,
    /// There is no further route epoch.
    RouteEpochExhausted,
}

/// Renew the announcement for another lease.
pub fn renew_presence(body: &mut PresenceBodyV2, now: u64) -> (r: Result<(), PresenceErrorV2>)
    ensures
        old(body).sequence == u64::MAX ==> r == Err::<(), PresenceErrorV2>(
            PresenceErrorV2::SequenceOverflow,
        ) && *final(body) == *old(body),
        old(body).sequence < u64::MAX ==> r == Ok::<(), PresenceErrorV2>(()) && *final(body) == (
        PresenceBodyV2 {
            sequence: (old(body).sequence + 1) as u64,
            issued_unix_secs: now,
            expires_unix_secs: min_int(now + PRESENCE_LEASE_SECS, u64::MAX as int) as u64,
            ..*old(body)
        }),
{
    match body.sequence.checked_add(1) {
        Some(sequence) => {
            body.sequence = sequence;
            body.issued_unix_secs = now;
            body.expires_unix_secs = now.saturating_add(PRESENCE_LEASE_SECS);
            Ok(())
        },
        None => Err(PresenceErrorV2::SequenceOverflow),
    }
}

/// What a presence changed in the directory.
#[derive(Clone, Copy, Debug, PartialEq, Eq, Structural)]
pub enum PresenceUpdateV2 {
    /// A new owner.
    Inserted,
    /// The same announcement for another lease.
    Renewed,
    /// Another announcement of a known owner.
    Replaced,
    /// Known already.
    Duplicate,
    /// Older than what is known.
    Stale,
}

/// What to do after a presence was inserted.
#[derive(Clone, Copy, Debug, PartialEq, Eq, Structural)]
pub enum PresenceStepV2 {
    /// Nothing.
    Ignore,
    /// Publish the directory; routes stay.
    PublishDirectory,
    /// Compile and publish a new topology.
    Recompile { generation: u64, route_epoch: u32 },
}

/// Whether a presence is passed on.
pub open spec fn is_gossip(update: PresenceUpdateV2) -> bool {
    !(update is Duplicate) && !(update is Stale)
}

/// The adjacencies to pass a presence on to: all but the one it came from.
pub open spec fn gossip_targets(adjacencies: Seq<AdjacencyIdV2>, incoming: Option<AdjacencyIdV2>) ->
    Seq<AdjacencyIdV2>
    decreases adjacencies.len(),
{
    if adjacencies.len() == 0 {
        Seq::empty()
    } else {
        let rest = gossip_targets(adjacencies.drop_last(), incoming);
        if incoming == Some(adjacencies.last()) {
            rest
        } else {
            rest.push(adjacencies.last())
        }
    }
}

/// The adjacencies to pass a presence on to.
pub fn presence_gossip(
    update: PresenceUpdateV2,
    incoming: Option<AdjacencyIdV2>,
    adjacencies: &Vec<AdjacencyIdV2>,
) -> (r: Vec<AdjacencyIdV2>)
    ensures
        r@ == if is_gossip(update) {
            gossip_targets(adjacencies@, incoming)
        } else {
            Seq::empty()
        },
{
    let mut targets: Vec<AdjacencyIdV2> = Vec::new();
    assert(targets@ =~= Seq::empty());
    match update {
        PresenceUpdateV2::Duplicate | PresenceUpdateV2::Stale => return targets,
        _ => {},
    }
    let mut index: usize = 0;
    assert(adjacencies@.take(0).len() == 0);
    while index < adjacencies.len()
        invariant
            index <= adjacencies@.len(),
            targets@ == gossip_targets(adjacencies@.take(index as int), incoming),
        decreases adjacencies@.len() - index,
    {
        proof {
            assert(adjacencies@.take(index + 1).drop_last() =~= adjacencies@.take(index as int));
            assert(adjacencies@.take(index + 1).last() == adjacencies@[index as int]);
        }
        let adjacency: AdjacencyIdV2 = adjacencies[index];
        let came_from: bool = match incoming {
            Some(from) => from == adjacency,
            None => false,
        };
        if !came_from {
            targets.push(adjacency);
        }
        index = index + 1;
    }
    assert(adjacencies@.take(index as int) =~= adjacencies@);
    targets
}

/// What to do after a presence was inserted, and the next generation. A
/// renewed lease does not change any route.
pub fn mesh_presence_step(update: PresenceUpdateV2, generation: &mut u64) -> (r: Result<
    PresenceStepV2,
    PresenceErrorV2,
>)
    ensures
        match update {
            PresenceUpdateV2::Duplicate | PresenceUpdateV2::Stale => r == Ok::<
                PresenceStepV2,
                PresenceErrorV2,
            >(PresenceStepV2::Ignore) && *final(generation) == *old(generation),
            PresenceUpdateV2::Renewed => r == Ok::<PresenceStepV2, PresenceErrorV2>(
                PresenceStepV2::PublishDirectory,
            ) && *final(generation) == *old(generation),
            _ => if *old(generation) == u64::MAX {
                r == Err::<PresenceStepV2, PresenceErrorV2>(PresenceErrorV2::GenerationOverflow)
                    && *final(generation) == *old(generation)
            } else if *old(generation) + 1 > u32::MAX {
                r == Err::<PresenceStepV2, PresenceErrorV2>(PresenceErrorV2::RouteEpochExhausted)
                    && *final(generation) == *old(generation) + 1
            } else {
                r == Ok::<PresenceStepV2, PresenceErrorV2>(
                    PresenceStepV2::Recompile {
                        generation: (*old(generation) + 1) as u64,
                        route_epoch: (*old(generation) + 1) as u32,
                    },
                ) && *final(generation) == *old(generation) + 1
            },
        },
{
    match update {
        PresenceUpdateV2::Duplicate | PresenceUpdateV2::Stale => Ok(PresenceStepV2::Ignore),
        PresenceUpdateV2::Renewed => Ok(PresenceStepV2::PublishDirectory),
        _ => {
            let next: u64 = match generation.checked_add(1) {
                Some(next) => next,
                None => return Err(PresenceErrorV2::GenerationOverflow),
            };
            *generation = next;
            if next > u32::MAX as u64 {
                return Err(PresenceErrorV2::RouteEpochExhausted);
            }
            Ok(PresenceStepV2::Recompile { generation: next, route_epoch: next as u32 })
        },
    }
}

/// The generation after another, which is never zero or one again.
pub open spec fn next_generation(generation: u64) -> u64 {
    if generation == u64::MAX || generation == 0 {
        2
    } else {
        (generation + 1) as u64
    }
}

/// The route epoch of a generation: its low 32 bits where it does not fit, and
/// never zero.
pub open spec fn wrapped_epoch(generation: u64) -> u32 {
    if generation <= u32::MAX {
        generation as u32
    } else if generation % 0x1_0000_0000 == 0 {
        1
    } else {
        (generation % 0x1_0000_0000) as u32
    }
}

/// What to do after a presence was inserted at a node with one peer, and the
/// next generation, which wraps.
pub fn peer_presence_step(update: PresenceUpdateV2, generation: &mut u64) -> (r: PresenceStepV2)
    ensures
        match update {
            PresenceUpdateV2::Duplicate | PresenceUpdateV2::Stale => r == PresenceStepV2::Ignore
                && *final(generation) == *old(generation),
            PresenceUpdateV2::Renewed => r == PresenceStepV2::PublishDirectory
                && *final(generation) == *old(generation),
            _ => *final(generation) == next_generation(*old(generation)) && r
                == (PresenceStepV2::Recompile {
                generation: next_generation(*old(generation)),
                route_epoch: wrapped_epoch(next_generation(*old(generation))),
            }),
        },
{
    match update {
        PresenceUpdateV2::Duplicate | PresenceUpdateV2::Stale => PresenceStepV2::Ignore,
        PresenceUpdateV2::Renewed => PresenceStepV2::PublishDirectory,
        _ => {
            let mut next: u64 = generation.wrapping_add(1);
            if next < 2 {
                next = 2;
            }
            *generation = next;
            let route_epoch: u32 = if next <= u32::MAX as u64 {
                next as u32
            } else {
                let low: u32 = (next % 0x1_0000_0000) as u32;
                if low == 0 {
                    1
                } else {
                    low
                }
            };
            PresenceStepV2::Recompile { generation: next, route_epoch }
        },
    }
}

/// What other nodes announce.
#[derive(Debug)]
pub struct PresenceRecordV2 {
    pub owner: EndpointId,
    pub node_addresses: Vec<IpNet>,
    pub prefixes: Vec<IpNet>,
}

/// The addresses and prefixes of the other nodes, in order.
pub open spec fn announced_prefixes(records: Seq<PresenceRecordV2>, local: Seq<u8>) -> Seq<IpNet>
    decreases records.len(),
{
    if records.len() == 0 {
        Seq::empty()
    } else {
        let rest = announced_prefixes(records.drop_last(), local);
        if records.last().owner@ == local {
            rest
        } else {
            rest + records.last().node_addresses@ + records.last().prefixes@
        }
    }
}

/// The prefixes that the other nodes announce, each once and in order.
pub fn learned_prefixes(records: &Vec<PresenceRecordV2>, local_id: &EndpointId) -> (r: Vec<IpNet>)
    ensures
        is_strictly_sorted(keys(r@)),
        r@.to_set() == announced_prefixes(records@, local_id@).to_set(),
{
    let mut prefixes: Vec<IpNet> = Vec::new();
    let mut index: usize = 0;
    assert(records@.take(0).len() == 0);
    assert(prefixes@ =~= announced_prefixes(records@.take(0), local_id@));
    while index < records.len()
        invariant
            index <= records@.len(),
            prefixes@ == announced_prefixes(records@.take(index as int), local_id@),
        decreases records@.len() - index,
    {
        proof {
            assert(records@.take(index + 1).drop_last() =~= records@.take(index as int));
            assert(records@.take(index + 1).last() == records@[index as int]);
        }
        if !records[index].owner.same(local_id) {
            extend_with(&mut prefixes, &records[index].node_addresses);
            extend_with(&mut prefixes, &records[index].prefixes);
        }
        index = index + 1;
    }
    assert(records@.take(index as int) =~= records@);
    let ghost all = prefixes@;
    let r: Vec<IpNet> = sorted_distinct(prefixes);
    proof {
        crate::net::lemma_block_keys();
        lemma_distinct_values(all, r@);
    }
    r
}

/// A presence is never passed back to where it came from, and it is passed on
/// to every other adjacency.
pub proof fn lemma_gossip_skips_only_its_source(
    adjacencies: Seq<AdjacencyIdV2>,
    incoming: Option<AdjacencyIdV2>,
    adjacency: AdjacencyIdV2,
)
    ensures
        gossip_targets(adjacencies, incoming).contains(adjacency) == (adjacencies.contains(
            adjacency,
        ) && incoming != Some(adjacency)),
    decreases adjacencies.len(),
{
    if adjacencies.len() > 0 {
        let before = adjacencies.drop_last();
        let last = adjacencies.last();
        lemma_gossip_skips_only_its_source(before, incoming, adjacency);
        let rest = gossip_targets(before, incoming);
        assert(adjacencies =~= before.push(last));
        crate::sort::lemma_contains_push(before, last, adjacency);
        crate::sort::lemma_contains_push(rest, last, adjacency);
    }
}

/// Every recompiled topology has a later generation than the one before, and a
/// route epoch that is not zero.
pub proof fn lemma_generations_advance(generation: u64)
    requires
        1 <= generation < u64::MAX,
    ensures
        next_generation(generation) > generation,
        wrapped_epoch(next_generation(generation)) > 0,
{
}

} // verus!

//! Which PacketTrain belongs to which trace probe.

use vstd::prelude::*;

use crate::digest::hex_text;
use crate::identity::{is_endpoint_key, EndpointId};
use crate::net::{IpAddr, IpNet};
use crate::routing::{AdjacencyIdV2, ResolvedRouteV2, RouteLabelV2};
use crate::text::{decimal, decimal_text, same_text};
use crate::time::Instant;

verus! {

/// How long a train stays correlated, in nanoseconds.
pub const TRACE_TRAIN_REGISTRATION_TTL_NANOS: u128 = 120_000_000_000;

/// Trains that are correlated at once.
pub const MAX_TRACE_TRAIN_REGISTRATIONS: usize = 4_096;

/// What a trace probe carries.
#[derive(Clone, Copy, Debug, PartialEq, Eq, Structural)]
pub struct TraceProbeTag {
    pub request_id: u64,
    pub target: IpAddr,
}

/// A train that carries a trace probe.
#[derive(Clone, Copy, Debug, PartialEq, Eq, Structural)]
pub struct PendingTraceTrainV2 {
    pub route_epoch: u32,
    pub route_label: u32,
    pub train_id: u64,
    pub request_id: u64,
    pub target: IpAddr,
    pub registered_at: Instant,
}

/// A report that a Cell ran out of hops.
#[derive(Clone, Copy, Debug)]
pub struct OamTtlExpiredV2 {
    pub snapshot_generation: u64,
    pub route_epoch: u32,
    pub route_label: RouteLabelV2,
    pub train_id: u64,
    pub cell_sequence: u16,
    pub ingress_hop_limit: u8,
    pub traversed_hops: u8,
    pub incoming: AdjacencyIdV2,
    pub reporter: [u8; 32],
}

/// What is known of a node of the mesh.
#[derive(Debug)]
pub struct MeshNodeStatus {
    pub endpoint_id: String,
    pub node_addresses: Vec<IpNet>,
}

/// What a node says of itself.
#[derive(Debug)]
pub struct NodeInfo {
    pub name: String,
    pub description: Option<String>,
    /// Further facts, in the order of their names.
    pub metadata: Vec<(String, String)>,
}

/// A hop that a trace found.
#[derive(Debug)]
pub struct OverlayTraceOamEvent {
    pub request_id: u64,
    pub reporter_address: IpAddr,
    pub reporter: NodeInfo,
}

/// What a hop event says.
#[verifier::ext_equal]
pub ghost struct TraceEventModel {
    pub request_id: u64,
    pub reporter_address: IpAddr,
    pub name: Seq<char>,
    pub description: Option<Seq<char>>,
    pub metadata: Seq<(Seq<char>, Seq<char>)>,
}

impl OverlayTraceOamEvent {
    /// What the event says.
    pub open spec fn model(&self) -> TraceEventModel {
        TraceEventModel {
            request_id: self.request_id,
            reporter_address: self.reporter_address,
            name: self.reporter.name@,
            description: match self.reporter.description {
                Some(text) => Some(text@),
                None => None,
            },
            metadata: self.reporter.metadata@.map_values(
                |entry: (String, String)| (entry.0@, entry.1@),
            ),
        }
    }
}

/// The trains that carry trace probes, in the order of their registration.
#[derive(Debug)]
pub struct TraceTrainsV2 {
    pub pending: Vec<PendingTraceTrainV2>,
}

impl Default for TraceTrainsV2 {
    /// No trains.
    fn default() -> (r: TraceTrainsV2)
        ensures
            r.pending@.len() == 0,
    {
        TraceTrainsV2 { pending: Vec::new() }
    }
}

/// Whether a registration still counts.
pub open spec fn is_fresh(train: PendingTraceTrainV2, now: Instant) -> bool {
    now.since(train.registered_at) < TRACE_TRAIN_REGISTRATION_TTL_NANOS
}

/// Whether a registration is that of a train.
pub open spec fn is_train(train: PendingTraceTrainV2, epoch: u32, label: u32, id: u64) -> bool {
    train.route_epoch == epoch && train.route_label == label && train.train_id == id
}

/// The registrations that still count.
pub open spec fn fresh_trains(pending: Seq<PendingTraceTrainV2>, now: Instant) -> Seq<
    PendingTraceTrainV2,
>
    decreases pending.len(),
{
    if pending.len() == 0 {
        pending
    } else {
        let rest = fresh_trains(pending.drop_last(), now);
        if is_fresh(pending.last(), now) {
            rest.push(pending.last())
        } else {
            rest
        }
    }
}

/// The registrations of other trains.
pub open spec fn other_trains(
    pending: Seq<PendingTraceTrainV2>,
    epoch: u32,
    label: u32,
    id: u64,
) -> Seq<PendingTraceTrainV2>
    decreases pending.len(),
{
    if pending.len() == 0 {
        pending
    } else {
        let rest = other_trains(pending.drop_last(), epoch, label, id);
        if is_train(pending.last(), epoch, label, id) {
            rest
        } else {
            rest.push(pending.last())
        }
    }
}

/// The registrations of other requests.
pub open spec fn other_requests(pending: Seq<PendingTraceTrainV2>, request_id: u64) -> Seq<
    PendingTraceTrainV2,
>
    decreases pending.len(),
{
    if pending.len() == 0 {
        pending
    } else {
        let rest = other_requests(pending.drop_last(), request_id);
        if pending.last().request_id == request_id {
            rest
        } else {
            rest.push(pending.last())
        }
    }
}

/// The place of the oldest registration, the first of them.
pub open spec fn oldest(pending: Seq<PendingTraceTrainV2>) -> int
    decreases pending.len(),
{
    if pending.len() <= 1 {
        0
    } else {
        let earlier = oldest(pending.drop_last());
        if pending.last().registered_at.nanos < pending[earlier].registered_at.nanos {
            pending.len() - 1
        } else {
            earlier
        }
    }
}

/// The registrations without the oldest, where there is no room.
pub open spec fn with_room(pending: Seq<PendingTraceTrainV2>) -> Seq<PendingTraceTrainV2> {
    if pending.len() >= MAX_TRACE_TRAIN_REGISTRATIONS {
        pending.remove(oldest(pending))
    } else {
        pending
    }
}

/// The registrations after one more train.
pub open spec fn registered(
    pending: Seq<PendingTraceTrainV2>,
    route: ResolvedRouteV2,
    train_id: u64,
    tag: TraceProbeTag,
    now: Instant,
) -> Seq<PendingTraceTrainV2> {
    other_trains(
        with_room(fresh_trains(pending, now)),
        route.route_epoch,
        route.route_label.0,
        train_id,
    ).push(
        PendingTraceTrainV2 {
            route_epoch: route.route_epoch,
            route_label: route.route_label.0,
            train_id,
            request_id: tag.request_id,
            target: tag.target,
            registered_at: now,
        },
    )
}

/// The registration of a train.
pub open spec fn find_train(
    pending: Seq<PendingTraceTrainV2>,
    epoch: u32,
    label: u32,
    id: u64,
) -> Option<PendingTraceTrainV2>
    decreases pending.len(),
{
    if pending.len() == 0 {
        None
    } else if is_train(pending[0], epoch, label, id) {
        Some(pending[0])
    } else {
        find_train(pending.drop_first(), epoch, label, id)
    }
}

/// The addresses of the node of that name.
pub open spec fn node_of(nodes: Seq<MeshNodeStatus>, name: Seq<char>) -> Option<Seq<IpNet>>
    decreases nodes.len(),
{
    if nodes.len() == 0 {
        None
    } else if nodes[0].endpoint_id@ == name {
        Some(nodes[0].node_addresses@)
    } else {
        node_of(nodes.drop_first(), name)
    }
}

/// What a report that a train ran out of hops tells a trace.
pub open spec fn ttl_event(
    pending: Seq<PendingTraceTrainV2>,
    oam: OamTtlExpiredV2,
    nodes: Seq<MeshNodeStatus>,
    now: Instant,
) -> Option<TraceEventModel> {
    match find_train(pending, oam.route_epoch, oam.route_label.0, oam.train_id) {
        None => None,
        Some(train) => if !is_fresh(train, now) || !is_endpoint_key(oam.reporter@) {
            None
        } else {
            match node_of(nodes, hex_text(oam.reporter@)) {
                None => None,
                Some(addresses) => match crate::host_network::first_of_family(
                    addresses,
                    train.target.is_ipv6(),
                ) {
                    None => None,
                    Some(reporter_address) => Some(
                        TraceEventModel {
                            request_id: train.request_id,
                            reporter_address,
                            name: hex_text(oam.reporter@),
                            description: Some("V2 overlay transit node"@),
                            metadata: seq![
                                ("endpoint_id"@, hex_text(oam.reporter@)),
                                ("overlay_hops"@, decimal_text(oam.traversed_hops as int)),
                            ],
                        },
                    ),
                },
            }
        },
    }
}

/// What a report leaves of the registrations: a known train retires its whole
/// request.
pub open spec fn after_report(pending: Seq<PendingTraceTrainV2>, oam: OamTtlExpiredV2) -> Seq<
    PendingTraceTrainV2,
> {
    match find_train(pending, oam.route_epoch, oam.route_label.0, oam.train_id) {
        None => pending,
        Some(train) => other_requests(
            other_trains(pending, oam.route_epoch, oam.route_label.0, oam.train_id),
            train.request_id,
        ),
    }
}

/// The registrations that still count.
fn keep_fresh(pending: &Vec<PendingTraceTrainV2>, now: Instant) -> (r: Vec<PendingTraceTrainV2>)
    ensures
        r@ == fresh_trains(pending@, now),
{
    let mut kept: Vec<PendingTraceTrainV2> = Vec::new();
    let mut index: usize = 0;
    assert(pending@.take(0).len() == 0);
    assert(kept@ =~= fresh_trains(pending@.take(0), now));
    while index < pending.len()
        invariant
            index <= pending@.len(),
            kept@ == fresh_trains(pending@.take(index as int), now),
        decreases pending@.len() - index,
    {
        proof {
            assert(pending@.take(index + 1).drop_last() =~= pending@.take(index as int));
            assert(pending@.take(index + 1).last() == pending@[index as int]);
        }
        let train: PendingTraceTrainV2 = pending[index];
        if now.saturating_duration_since(train.registered_at).nanos
            < TRACE_TRAIN_REGISTRATION_TTL_NANOS {
            kept.push(train);
        }
        index = index + 1;
    }
    assert(pending@.take(index as int) =~= pending@);
    kept
}

/// The registrations of other trains.
fn keep_other_trains(pending: &Vec<PendingTraceTrainV2>, epoch: u32, label: u32, id: u64) -> (r:
    Vec<PendingTraceTrainV2>)
    ensures
        r@ == other_trains(pending@, epoch, label, id),
{
    let mut kept: Vec<PendingTraceTrainV2> = Vec::new();
    let mut index: usize = 0;
    assert(pending@.take(0).len() == 0);
    assert(kept@ =~= other_trains(pending@.take(0), epoch, label, id));
    while index < pending.len()
        invariant
            index <= pending@.len(),
            kept@ == other_trains(pending@.take(index as int), epoch, label, id),
        decreases pending@.len() - index,
    {
        proof {
            assert(pending@.take(index + 1).drop_last() =~= pending@.take(index as int));
            assert(pending@.take(index + 1).last() == pending@[index as int]);
        }
        let train: PendingTraceTrainV2 = pending[index];
        if train.route_epoch != epoch || train.route_label != label || train.train_id != id {
            kept.push(train);
        }
        index = index + 1;
    }
    assert(pending@.take(index as int) =~= pending@);
    kept
}

/// The registrations of other requests.
fn keep_other_requests(pending: &Vec<PendingTraceTrainV2>, request_id: u64) -> (r: Vec<
    PendingTraceTrainV2,
>)
    ensures
        r@ == other_requests(pending@, request_id),
{
    let mut kept: Vec<PendingTraceTrainV2> = Vec::new();
    let mut index: usize = 0;
    assert(pending@.take(0).len() == 0);
    assert(kept@ =~= other_requests(pending@.take(0), request_id));
    while index < pending.len()
        invariant
            index <= pending@.len(),
            kept@ == other_requests(pending@.take(index as int), request_id),
        decreases pending@.len() - index,
    {
        proof {
            assert(pending@.take(index + 1).drop_last() =~= pending@.take(index as int));
            assert(pending@.take(index + 1).last() == pending@[index as int]);
        }
        if pending[index].request_id != request_id {
            kept.push(pending[index]);
        }
        index = index + 1;
    }
    assert(pending@.take(index as int) =~= pending@);
    kept
}

/// The place of the oldest registration.
fn find_oldest(pending: &Vec<PendingTraceTrainV2>) -> (r: usize)
    requires
        pending@.len() > 0,
    ensures
        r == oldest(pending@),
        r < pending@.len(),
{
    let mut best: usize = 0;
    let mut index: usize = 1;
    while index < pending.len()
        invariant
            1 <= index <= pending@.len(),
            best < index,
            best == oldest(pending@.take(index as int)),
        decreases pending@.len() - index,
    {
        proof {
            assert(pending@.take(index + 1).drop_last() =~= pending@.take(index as int));
            assert(pending@.take(index + 1).last() == pending@[index as int]);
        }
        if pending[index].registered_at.nanos < pending[best].registered_at.nanos {
            best = index;
        }
        index = index + 1;
    }
    assert(pending@.take(index as int) =~= pending@);
    best
}

/// The oldest registration is one of them, and none is older.
pub proof fn lemma_oldest_is_oldest(pending: Seq<PendingTraceTrainV2>)
    requires
        pending.len() > 0,
    ensures
        0 <= oldest(pending) < pending.len(),
        forall|i: int|
            0 <= i < pending.len() ==> pending[oldest(pending)].registered_at.nanos <= (
            #[trigger] pending[i]).registered_at.nanos,
    decreases pending.len(),
{
    if pending.len() > 1 {
        let rest = pending.drop_last();
        lemma_oldest_is_oldest(rest);
        assert forall|i: int| 0 <= i < pending.len() implies pending[oldest(
            pending,
        )].registered_at.nanos <= (#[trigger] pending[i]).registered_at.nanos by {
            if i < rest.len() {
                assert(rest[i] == pending[i]);
                assert(rest[oldest(rest)].registered_at.nanos <= rest[i].registered_at.nanos);
            }
        }
    }
}

/// The name of a node, and its addresses.
fn find_node(nodes: &Vec<MeshNodeStatus>, name: &str) -> (r: Option<usize>)
    ensures
        match r {
            Some(at) => at < nodes@.len() && node_of(nodes@, name@) == Some(
                nodes@[at as int].node_addresses@,
            ),
            None => node_of(nodes@, name@) is None,
        },
{
    let mut index: usize = 0;
    assert(nodes@.skip(0) =~= nodes@);
    while index < nodes.len()
        invariant
            index <= nodes@.len(),
            node_of(nodes@, name@) == node_of(nodes@.skip(index as int), name@),
        decreases nodes@.len() - index,
    {
        proof {
            assert(nodes@.skip(index as int)[0] == nodes@[index as int]);
            assert(nodes@.skip(index as int).drop_first() =~= nodes@.skip(index + 1));
        }
        if same_text(nodes[index].endpoint_id.as_str(), name) {
            return Some(index);
        }
        index = index + 1;
    }
    None
}

impl TraceTrainsV2 {
    /// Correlate a train with a trace probe. Registrations that ran out are
    /// dropped, and the oldest one where there is no room.
    pub fn register_trace_train(
        &mut self,
        route: ResolvedRouteV2,
        train_id: u64,
        tag: TraceProbeTag,
        now: Instant,
    )
        ensures
            final(self).pending@ == registered(old(self).pending@, route, train_id, tag, now),
    {
        let mut kept: Vec<PendingTraceTrainV2> = keep_fresh(&self.pending, now);
        if kept.len() >= MAX_TRACE_TRAIN_REGISTRATIONS {
            let at: usize = find_oldest(&kept);
            kept.remove(at);
        }
        let mut kept: Vec<PendingTraceTrainV2> = keep_other_trains(
            &kept,
            route.route_epoch,
            route.route_label.0,
            train_id,
        );
        kept.push(
            PendingTraceTrainV2 {
                route_epoch: route.route_epoch,
                route_label: route.route_label.0,
                train_id,
                request_id: tag.request_id,
                target: tag.target,
                registered_at: now,
            },
        );
        self.pending = kept;
    }

    /// The registration of a train.
    fn find(&self, epoch: u32, label: u32, id: u64) -> (r: Option<PendingTraceTrainV2>)
        ensures
            r == find_train(self.pending@, epoch, label, id),
    {
        let mut index: usize = 0;
        let ghost all = self.pending@;
        assert(all.skip(0) =~= all);
        while index < self.pending.len()
            invariant
                all == self.pending@,
                index <= all.len(),
                find_train(all, epoch, label, id) == find_train(
                    all.skip(index as int),
                    epoch,
                    label,
                    id,
                ),
            decreases all.len() - index,
        {
            proof {
                assert(all.skip(index as int)[0] == all[index as int]);
                assert(all.skip(index as int).drop_first() =~= all.skip(index + 1));
            }
            let train: PendingTraceTrainV2 = self.pending[index];
            if train.route_epoch == epoch && train.route_label == label && train.train_id == id {
                return Some(train);
            }
            index = index + 1;
        }
        None
    }

    /// Take an authenticated report that a train ran out of hops. The first
    /// report of a request retires all its trains; it becomes an event where
    /// the registration still counts and the reporter is a known node with an
    /// address of the probed family.
    pub fn publish_ttl_expired(
        &mut self,
        oam: &OamTtlExpiredV2,
        nodes: &Vec<MeshNodeStatus>,
        now: Instant,
    ) -> (r: Option<OverlayTraceOamEvent>)
        ensures
            final(self).pending@ == after_report(old(self).pending@, *oam),
            match r {
                Some(event) => ttl_event(old(self).pending@, *oam, nodes@, now) == Some(
                    event.model(),
                ),
                None => ttl_event(old(self).pending@, *oam, nodes@, now) is None,
            },
    {
        let train: PendingTraceTrainV2 = match self.find(
            oam.route_epoch,
            oam.route_label.0,
            oam.train_id,
        ) {
            Some(train) => train,
            None => return None,
        };
        let rest: Vec<PendingTraceTrainV2> = keep_other_trains(
            &self.pending,
            oam.route_epoch,
            oam.route_label.0,
            oam.train_id,
        );
        self.pending = keep_other_requests(&rest, train.request_id);
        if now.saturating_duration_since(train.registered_at).nanos
            >= TRACE_TRAIN_REGISTRATION_TTL_NANOS {
            return None;
        }
        let reporter: EndpointId = match EndpointId::from_bytes(&oam.reporter) {
            Ok(reporter) => reporter,
            Err(_) => return None,
        };
        let name: String = reporter.to_text();
        let at: usize = match find_node(nodes, name.as_str()) {
            Some(at) => at,
            None => return None,
        };
        let reporter_address: IpAddr = match crate::host_network::find_family(
            &nodes[at].node_addresses,
            train.target.is_ipv6(),
        ) {
            Some(address) => address,
            None => return None,
        };
        let mut metadata: Vec<(String, String)> = Vec::new();
        metadata.push(("endpoint_id".to_owned(), name.as_str().to_owned()));
        metadata.push(("overlay_hops".to_owned(), decimal(oam.traversed_hops as u64)));
        let event: OverlayTraceOamEvent = OverlayTraceOamEvent {
            request_id: train.request_id,
            reporter_address,
            reporter: NodeInfo {
                name,
                description: Some("V2 overlay transit node".to_owned()),
                metadata,
            },
        };
        assert(event.model().metadata =~= seq![
            ("endpoint_id"@, hex_text(oam.reporter@)),
            ("overlay_hops"@, decimal_text(oam.traversed_hops as int)),
        ]);
        Some(event)
    }
}

/// There are never more registrations than there is room for.
pub proof fn lemma_registrations_stay_bounded(
    pending: Seq<PendingTraceTrainV2>,
    route: ResolvedRouteV2,
    train_id: u64,
    tag: TraceProbeTag,
    now: Instant,
)
    requires
        pending.len() <= MAX_TRACE_TRAIN_REGISTRATIONS,
    ensures
        registered(pending, route, train_id, tag, now).len() <= MAX_TRACE_TRAIN_REGISTRATIONS,
{
    let fresh = fresh_trains(pending, now);
    lemma_fresh_is_fewer(pending, now);
    let room = with_room(fresh);
    if fresh.len() > 0 {
        lemma_oldest_is_oldest(fresh);
    }
    lemma_others_are_fewer(room, route.route_epoch, route.route_label.0, train_id);
}

/// What still counts is no more than what there was.
proof fn lemma_fresh_is_fewer(pending: Seq<PendingTraceTrainV2>, now: Instant)
    ensures
        fresh_trains(pending, now).len() <= pending.len(),
    decreases pending.len(),
{
    if pending.len() > 0 {
        lemma_fresh_is_fewer(pending.drop_last(), now);
    }
}

/// Other trains are no more than all.
proof fn lemma_others_are_fewer(
    pending: Seq<PendingTraceTrainV2>,
    epoch: u32,
    label: u32,
    id: u64,
)
    ensures
        other_trains(pending, epoch, label, id).len() <= pending.len(),
    decreases pending.len(),
{
    if pending.len() > 0 {
        lemma_others_are_fewer(pending.drop_last(), epoch, label, id);
    }
}

/// A report leaves no registration of its request behind.
pub proof fn lemma_report_retires_the_request(
    pending: Seq<PendingTraceTrainV2>,
    oam: OamTtlExpiredV2,
)
    ensures
        match find_train(pending, oam.route_epoch, oam.route_label.0, oam.train_id) {
            Some(train) => forall|i: int|
                0 <= i < after_report(pending, oam).len() ==> (#[trigger] after_report(
                    pending,
                    oam,
                )[i]).request_id != train.request_id,
            None => after_report(pending, oam) == pending,
        },
{
    if let Some(train) = find_train(pending, oam.route_epoch, oam.route_label.0, oam.train_id) {
        lemma_request_is_gone(
            other_trains(pending, oam.route_epoch, oam.route_label.0, oam.train_id),
            train.request_id,
        );
    }
}

/// No registration of the request is left.
proof fn lemma_request_is_gone(pending: Seq<PendingTraceTrainV2>, request_id: u64)
    ensures
        forall|i: int|
            0 <= i < other_requests(pending, request_id).len() ==> (#[trigger] other_requests(
                pending,
                request_id,
            )[i]).request_id != request_id,
    decreases pending.len(),
{
    if pending.len() > 0 {
        lemma_request_is_gone(pending.drop_last(), request_id);
    }
}

/// A hop answers a probe when the train that ran out is one that was registered
/// in the last two minutes and the reporter is a known node with an address of
/// the target's family. The answer carries the request, that address and how
/// many hops the train had made; without any of these there is no answer.
pub proof fn lemma_expired_probe_is_answered(
    pending: Seq<PendingTraceTrainV2>,
    oam: OamTtlExpiredV2,
    nodes: Seq<MeshNodeStatus>,
    now: Instant,
    train: PendingTraceTrainV2,
    node: int,
    place: int,
)
    requires
        find_train(pending, oam.route_epoch, oam.route_label.0, oam.train_id) == Some(train),
        is_endpoint_key(oam.reporter@),
        0 <= node < nodes.len(),
        nodes[node].endpoint_id@ == hex_text(oam.reporter@),
        forall|i: int|
            0 <= i < node ==> (#[trigger] nodes[i]).endpoint_id@ != hex_text(oam.reporter@),
        0 <= place < nodes[node].node_addresses@.len(),
        (nodes[node].node_addresses@[place].addr is V6) == (train.target is V6),
        forall|i: int|
            0 <= i < place ==> ((#[trigger] nodes[node].node_addresses@[i]).addr is V6) != (
            train.target is V6),
    ensures
        now.since(train.registered_at) >= 120_000_000_000 ==> ttl_event(
            pending,
            oam,
            nodes,
            now,
        ) is None,
        now.since(train.registered_at) < 120_000_000_000 ==> (ttl_event(
            pending,
            oam,
            nodes,
            now,
        ) matches Some(event) && {
            &&& event.request_id == train.request_id
            &&& event.reporter_address == nodes[node].node_addresses@[place].addr
            &&& event.name == hex_text(oam.reporter@)
            &&& event.metadata.len() == 2
            &&& event.metadata[0] == ("endpoint_id"@, hex_text(oam.reporter@))
            &&& event.metadata[1] == ("overlay_hops"@, decimal_text(oam.traversed_hops as int))
            &&& event.description == Some("V2 overlay transit node"@)
        }),
{
    lemma_first_node_of_its_name(nodes, hex_text(oam.reporter@), node);
    let addresses = nodes[node].node_addresses@;
    let ipv6 = train.target is V6;
    crate::host_network::laws::lemma_first_address_has_its_family(addresses, ipv6);
    if let Some(address) = crate::host_network::first_of_family(addresses, ipv6) {
        let i = choose|i: int|
            0 <= i < addresses.len() && (#[trigger] addresses[i]).addr == address && (address is V6)
                == ipv6 && forall|j: int|
                0 <= j < i ==> ((#[trigger] addresses[j]).addr is V6) != ipv6;
        if i < place {
            assert((addresses[i].addr is V6) != ipv6);
        }
        if i > place {
            assert((addresses[place].addr is V6) != ipv6);
        }
    } else {
        assert((addresses[place].addr is V6) != ipv6);
    }
}

/// The node of a name is the first one that has it.
pub proof fn lemma_first_node_of_its_name(nodes: Seq<MeshNodeStatus>, name: Seq<char>, at: int)
    requires
        0 <= at <= nodes.len(),
        forall|i: int| 0 <= i < at ==> (#[trigger] nodes[i]).endpoint_id@ != name,
    ensures
        at == nodes.len() ==> node_of(nodes, name) is None,
        at < nodes.len() && nodes[at].endpoint_id@ == name ==> node_of(nodes, name) == Some(
            nodes[at].node_addresses@,
        ),
    decreases at,
{
    if at > 0 {
        assert(nodes[0].endpoint_id@ != name);
        let rest = nodes.drop_first();
        assert forall|i: int| 0 <= i < at - 1 implies (#[trigger] rest[i]).endpoint_id@ != name by {
            assert(rest[i] == nodes[i + 1]);
        }
        lemma_first_node_of_its_name(rest, name, at - 1);
    }
}

/// A report of a train that is not registered, or from a reporter that is no
/// node, answers nothing.
pub proof fn lemma_unknown_reports_answer_nothing(
    pending: Seq<PendingTraceTrainV2>,
    oam: OamTtlExpiredV2,
    nodes: Seq<MeshNodeStatus>,
    now: Instant,
)
    ensures
        find_train(pending, oam.route_epoch, oam.route_label.0, oam.train_id) is None ==> ttl_event(
            pending,
            oam,
            nodes,
            now,
        ) is None,
        !is_endpoint_key(oam.reporter@) ==> ttl_event(pending, oam, nodes, now) is None,
        (forall|i: int|
            0 <= i < nodes.len() ==> (#[trigger] nodes[i]).endpoint_id@ != hex_text(oam.reporter@))
            ==> ttl_event(pending, oam, nodes, now) is None,
{
    if forall|i: int|
        0 <= i < nodes.len() ==> (#[trigger] nodes[i]).endpoint_id@ != hex_text(oam.reporter@) {
        lemma_first_node_of_its_name(nodes, hex_text(oam.reporter@), nodes.len() as int);
    }
}

} // verus!

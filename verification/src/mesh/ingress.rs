//! How TUN records find their route and become PacketTrains of an adjacency.

use std::collections::VecDeque;

use vstd::prelude::*;

use super::pmtu::{limited, RoutePmtuConstraintsV2};
use super::trace::TraceProbeTag;
use crate::dataplane::ingress::{
    collect_permits, find_probe, first_probe, held_permits, is_numbered, is_recent,
    numbered_records, seen_recently, EncodedRecordV2, IngressErrorV2, TrainItemV2, TrainRecordV2,
    TunIngressBatchV2,
};
use crate::dataplane::{
    drain_tun_ingress_batch, is_batch_length, GsoObservationV2, TunIngressRecordV2, MAX_CLASSIFIERS,
    TX_ADMISSION_BATCH_BYTES, TX_LATENCY_ADMISSION_HIGH_WATER_BYTES,
};
use crate::grouping::{
    add_to_group, added, grouped, groups_view, lemma_grouping_is_a_partition, position,
    values_of_key, Group,
};
use crate::net::{flow_key, flow_of, is_multicast_number, FlowKey, PacketInfo};
use crate::queue::into_queue;
use crate::routing::{is_live, AdjacencyIdV2, ResolvedRouteV2, TrafficClass, TrainKeyV2};
use crate::time::Duration;
use crate::tuning::AutoTuneBoundsV2;

verus! {

/// The route that a flow keeps.
#[derive(Clone, Copy, Debug, PartialEq, Eq, Structural)]
pub struct MeshFlowV2 {
    pub key: FlowKey,
    pub last_seen: Duration,
    /// The snapshot that the route came from.
    pub snapshot_generation: u64,
    /// The route as the snapshot has it.
    pub leased_route: ResolvedRouteV2,
    /// The route under the path-MTU constraints.
    pub effective_route: ResolvedRouteV2,
    /// The constraints that were last applied.
    pub path_mtu_generation: u64,
}

/// A packet from the TUN interface, with what is known of it.
#[derive(Debug)]
pub struct MeshPacketV2 {
    pub info: PacketInfo,
    pub packet_len: usize,
    pub flow_id: u64,
    /// The hops that the packet may still take.
    pub hop_limit: u8,
    pub class: TrafficClass,
    pub trace_probe: Option<TraceProbeTag>,
    pub reader_gso: GsoObservationV2,
    /// Bytes of the ingress budget that the packet holds; zero for none.
    pub permits: usize,
    /// What the current snapshot knows of the destination.
    pub route: Option<ResolvedRouteV2>,
    /// The encoded record; none where its offload metadata is invalid.
    pub record: Option<EncodedRecordV2>,
}

/// Where a flow stands; negative where it is not known.
pub open spec fn mesh_flow_place(flows: Seq<MeshFlowV2>, key: FlowKey) -> int
    decreases flows.len(),
{
    if flows.len() == 0 {
        -1
    } else if flows.last().key == key {
        flows.len() - 1
    } else {
        mesh_flow_place(flows.drop_last(), key)
    }
}

/// A new flow on a route.
pub open spec fn new_flow(
    key: FlowKey,
    now: Duration,
    snapshot_generation: u64,
    route: ResolvedRouteV2,
    constraints: RoutePmtuConstraintsV2,
) -> MeshFlowV2 {
    MeshFlowV2 {
        key,
        last_seen: now,
        snapshot_generation,
        leased_route: route,
        effective_route: limited(constraints.values@, route),
        path_mtu_generation: constraints.generation,
    }
}

/// A flow after a packet, given what the snapshot knows. A newer snapshot
/// replaces the route, or ends the flow where it knows none; newer constraints
/// are applied to the route that is kept.
pub open spec fn flow_after(
    flow: MeshFlowV2,
    now: Duration,
    snapshot_generation: u64,
    route: Option<ResolvedRouteV2>,
    constraints: RoutePmtuConstraintsV2,
) -> Option<MeshFlowV2> {
    if flow.snapshot_generation != snapshot_generation {
        match route {
            Some(found) => Some(
                new_flow(flow.key, now, snapshot_generation, found, constraints),
            ),
            None => None,
        }
    } else if flow.path_mtu_generation != constraints.generation {
        Some(
            MeshFlowV2 {
                last_seen: now,
                effective_route: limited(constraints.values@, flow.leased_route),
                path_mtu_generation: constraints.generation,
                ..flow
            },
        )
    } else {
        Some(MeshFlowV2 { last_seen: now, ..flow })
    }
}

/// The flows after a packet, and the route that it takes.
pub open spec fn routed(
    flows: Seq<MeshFlowV2>,
    key: FlowKey,
    now: Duration,
    snapshot_generation: u64,
    route: Option<ResolvedRouteV2>,
    constraints: RoutePmtuConstraintsV2,
) -> (Seq<MeshFlowV2>, Option<ResolvedRouteV2>) {
    let at = mesh_flow_place(flows, key);
    if at >= 0 {
        match flow_after(flows[at], now, snapshot_generation, route, constraints) {
            Some(flow) => (flows.update(at, flow), Some(flow.effective_route)),
            None => (flows.remove(at), None),
        }
    } else {
        match route {
            Some(found) => {
                let flow = new_flow(key, now, snapshot_generation, found, constraints);
                (flows.push(flow), Some(flow.effective_route))
            },
            None => (flows, None),
        }
    }
}

/// Whether a packet with these headers and hops left is forwarded at all.
pub open spec fn may_forward(info: PacketInfo, hop_limit: u8) -> bool {
    !is_multicast_number(info.destination) && hop_limit != 0
}

/// Whether a packet is forwarded at all.
pub open spec fn is_forwardable(packet: MeshPacketV2) -> bool {
    may_forward(packet.info, packet.hop_limit)
}

/// What the counters of an adjacency take from a packet.
#[derive(Clone, Copy, Debug, PartialEq, Eq, Structural)]
pub struct IngressSampleV2 {
    pub packet_len: usize,
    pub gso: GsoObservationV2,
}

/// The packets that go to adjacencies, and what they carry.
#[derive(Debug)]
pub struct MeshIngressV2 {
    pub flows: Vec<MeshFlowV2>,
    pub trains: Vec<Group<TrainKeyV2, TrainItemV2>>,
    pub samples: Vec<Group<AdjacencyIdV2, IngressSampleV2>>,
}

/// The packets that go to adjacencies, over sequences.
#[verifier::ext_equal]
pub ghost struct MeshIngressModel {
    pub flows: Seq<MeshFlowV2>,
    pub trains: Seq<(TrainKeyV2, Seq<TrainItemV2>)>,
    pub samples: Seq<(AdjacencyIdV2, Seq<IngressSampleV2>)>,
}

/// The record of a packet.
pub open spec fn packet_item(packet: MeshPacketV2, record: EncodedRecordV2) -> TrainItemV2 {
    TrainItemV2 {
        metadata: record.metadata,
        data: record.data,
        trace_probe: packet.trace_probe,
        permits: packet.permits,
    }
}

/// The batch with one more packet that has a route. It is dropped where it has
/// invalid offload metadata or no live writer.
pub open spec fn taken(
    state: MeshIngressModel,
    packet: MeshPacketV2,
    route: ResolvedRouteV2,
    live: Seq<AdjacencyIdV2>,
) -> MeshIngressModel {
    match packet.record {
        Some(record) => if live.contains(route.adjacency) {
            MeshIngressModel {
                trains: added(
                    state.trains,
                    TrainKeyV2 {
                        route,
                        flow_id: packet.flow_id,
                        class: packet.class,
                        overlay_hop_limit: packet.hop_limit,
                    },
                    packet_item(packet, record),
                ),
                samples: added(
                    state.samples,
                    route.adjacency,
                    IngressSampleV2 {
                        packet_len: packet.packet_len,
                        gso: record.gso.plus(packet.reader_gso),
                    },
                ),
                ..state
            }
        } else {
            state
        },
        None => state,
    }
}

/// The batch with one more packet. It is dropped where it may not be
/// forwarded, has no route, has invalid offload metadata or no live writer; a
/// drop behind the route still counts as activity of the flow.
pub open spec fn dispatched(
    state: MeshIngressModel,
    packet: MeshPacketV2,
    now: Duration,
    snapshot_generation: u64,
    constraints: RoutePmtuConstraintsV2,
    live: Seq<AdjacencyIdV2>,
) -> MeshIngressModel {
    if !is_forwardable(packet) {
        state
    } else {
        let (flows, route) = routed(
            state.flows,
            flow_of(packet.info),
            now,
            snapshot_generation,
            packet.route,
            constraints,
        );
        let moved = MeshIngressModel { flows, ..state };
        match route {
            Some(route) => taken(moved, packet, route, live),
            None => moved,
        }
    }
}

/// A train for an adjacency.
#[derive(Debug)]
pub struct MeshTrainV2 {
    pub key: TrainKeyV2,
    /// Whether it goes to the priority lane of its adjacency.
    pub priority: bool,
    pub records: Vec<TrainRecordV2>,
    pub trace_probe: Option<TraceProbeTag>,
    pub ingress_permits: Vec<usize>,
}

/// Whether a train carries a group: all its records in order, its first probe,
/// and every permit.
pub open spec fn carries_group(
    train: MeshTrainV2,
    group: (TrainKeyV2, Seq<TrainItemV2>),
    priority: bool,
) -> bool {
    &&& train.key == group.0
    &&& train.priority == priority
    &&& group.1.len() <= u16::MAX
    &&& train.records@.len() == group.1.len()
    &&& forall|i: int|
        0 <= i < group.1.len() ==> is_numbered(#[trigger] train.records@[i], group.1[i], i)
    &&& train.trace_probe == first_probe(group.1)
    &&& train.ingress_permits@ == held_permits(group.1)
}

/// Whether the trains of a batch carry its groups; a group that cannot be
/// numbered fails the batch.
pub open spec fn is_batch_result(
    groups: Seq<(TrainKeyV2, Seq<TrainItemV2>)>,
    result: Result<Vec<MeshTrainV2>, IngressErrorV2>,
    priority: bool,
) -> bool {
    if exists|i: int| 0 <= i < groups.len() && (#[trigger] groups[i]).1.len() > u16::MAX {
        result matches Err(error) && error == IngressErrorV2::TooManyRecords
    } else {
        result matches Ok(trains) && trains@.len() == groups.len() && forall|i: int|
            0 <= i < groups.len() ==> carries_group(#[trigger] trains@[i], groups[i], priority)
    }
}

/// The counters of a run of packets.
pub open spec fn sample_total(samples: Seq<IngressSampleV2>) -> TunIngressBatchV2
    decreases samples.len(),
{
    if samples.len() == 0 {
        TunIngressBatchV2::none()
    } else {
        sample_total(samples.drop_last()).plus(
            samples.last().packet_len as int,
            samples.last().gso,
        )
    }
}

/// The counters of an adjacency.
#[derive(Clone, Copy, Debug, PartialEq, Eq, Structural)]
pub struct AdjacencyIngressV2 {
    pub adjacency: AdjacencyIdV2,
    pub batch: TunIngressBatchV2,
}

/// The flows that were seen within the idle time, in order.
pub open spec fn recent_mesh_flows(flows: Seq<MeshFlowV2>, now: Duration) -> Seq<MeshFlowV2>
    decreases flows.len(),
{
    if flows.len() == 0 {
        flows
    } else {
        let rest = recent_mesh_flows(flows.drop_last(), now);
        if is_recent(flows.last().last_seen, now) {
            rest.push(flows.last())
        } else {
            rest
        }
    }
}

/// The counters of a run of packets.
fn total_of(samples: &Vec<IngressSampleV2>) -> (r: TunIngressBatchV2)
    ensures
        r == sample_total(samples@),
{
    let mut batch: TunIngressBatchV2 = TunIngressBatchV2::new();
    let mut index: usize = 0;
    assert(samples@.take(0).len() == 0);
    while index < samples.len()
        invariant
            index <= samples@.len(),
            batch == sample_total(samples@.take(index as int)),
        decreases samples@.len() - index,
    {
        proof {
            assert(samples@.take(index + 1).drop_last() =~= samples@.take(index as int));
            assert(samples@.take(index + 1).last() == samples@[index as int]);
        }
        batch.observe(samples[index].packet_len, samples[index].gso);
        index = index + 1;
    }
    assert(samples@.take(index as int) =~= samples@);
    batch
}

impl MeshIngressV2 {
    /// The batch over sequences.
    pub open spec fn model(&self) -> MeshIngressModel {
        MeshIngressModel {
            flows: self.flows@,
            trains: groups_view(self.trains@),
            samples: groups_view(self.samples@),
        }
    }

    /// No flows and an empty batch.
    pub fn new() -> (r: MeshIngressV2)
        ensures
            r.model() == (MeshIngressModel {
                flows: Seq::empty(),
                trains: Seq::empty(),
                samples: Seq::empty(),
            }),
    {
        let r: MeshIngressV2 = MeshIngressV2 {
            flows: Vec::new(),
            trains: Vec::new(),
            samples: Vec::new(),
        };
        assert(r.model().trains =~= Seq::empty());
        assert(r.model().samples =~= Seq::empty());
        assert(r.model().flows =~= Seq::empty());
        r
    }

    /// Where a flow stands.
    fn find_flow(&self, key: FlowKey) -> (r: Option<usize>)
        ensures
            match r {
                Some(at) => at == mesh_flow_place(self.flows@, key) && at < self.flows@.len(),
                None => mesh_flow_place(self.flows@, key) < 0,
            },
    {
        let ghost all = self.flows@;
        let mut index: usize = self.flows.len();
        assert(all.take(index as int) =~= all);
        while index > 0
            invariant
                all == self.flows@,
                index <= all.len(),
                mesh_flow_place(all, key) == mesh_flow_place(all.take(index as int), key),
            decreases index,
        {
            proof {
                assert(all.take(index as int).last() == all[index - 1]);
                assert(all.take(index as int).drop_last() =~= all.take(index - 1));
            }
            index = index - 1;
            if self.flows[index].key == key {
                return Some(index);
            }
        }
        None
    }

    /// The route that a packet of a flow takes.
    pub fn route_flow(
        &mut self,
        key: FlowKey,
        now: Duration,
        snapshot_generation: u64,
        route: Option<ResolvedRouteV2>,
        constraints: &RoutePmtuConstraintsV2,
    ) -> (r: Option<ResolvedRouteV2>)
        ensures
            (final(self).flows@, r) == routed(
                old(self).flows@,
                key,
                now,
                snapshot_generation,
                route,
                *constraints,
            ),
            final(self).trains == old(self).trains,
            final(self).samples == old(self).samples,
    {
        match self.find_flow(key) {
            Some(at) => {
                let mut flow: MeshFlowV2 = self.flows[at];
                proof {
                    lemma_flow_place(self.flows@, key);
                }
                if flow.snapshot_generation != snapshot_generation {
                    let found: ResolvedRouteV2 = match route {
                        Some(found) => found,
                        None => {
                            self.flows.remove(at);
                            return None;
                        },
                    };
                    flow.snapshot_generation = snapshot_generation;
                    flow.leased_route = found;
                    flow.effective_route = constraints.apply(found);
                    flow.path_mtu_generation = constraints.generation();
                }
                if flow.path_mtu_generation != constraints.generation() {
                    flow.effective_route = constraints.apply(flow.leased_route);
                    flow.path_mtu_generation = constraints.generation();
                }
                flow.last_seen = now;
                self.flows.set(at, flow);
                Some(flow.effective_route)
            },
            None => {
                let found: ResolvedRouteV2 = match route {
                    Some(found) => found,
                    None => return None,
                };
                let flow: MeshFlowV2 = MeshFlowV2 {
                    key,
                    last_seen: now,
                    snapshot_generation,
                    leased_route: found,
                    effective_route: constraints.apply(found),
                    path_mtu_generation: constraints.generation(),
                };
                self.flows.push(flow);
                Some(flow.effective_route)
            },
        }
    }

    /// The route that a packet with these headers and hops left takes; none
    /// where it may not be forwarded, which leaves its flow alone, or where
    /// there is no route.
    pub fn route_packet(
        &mut self,
        info: PacketInfo,
        hop_limit: u8,
        now: Duration,
        snapshot_generation: u64,
        route: Option<ResolvedRouteV2>,
        constraints: &RoutePmtuConstraintsV2,
    ) -> (r: Option<ResolvedRouteV2>)
        ensures
            (final(self).flows@, r) == if may_forward(info, hop_limit) {
                routed(
                    old(self).flows@,
                    flow_of(info),
                    now,
                    snapshot_generation,
                    route,
                    *constraints,
                )
            } else {
                (old(self).flows@, None)
            },
            final(self).trains == old(self).trains,
            final(self).samples == old(self).samples,
    {
        if info.destination.is_multicast() || hop_limit == 0 {
            return None;
        }
        self.route_flow(flow_key(info), now, snapshot_generation, route, constraints)
    }

    /// Take one packet that has a route.
    pub fn take_routed(
        &mut self,
        packet: MeshPacketV2,
        route: ResolvedRouteV2,
        live: &Vec<AdjacencyIdV2>,
    )
        ensures
            final(self).model() == taken(old(self).model(), packet, route, live@),
    {
        let record: EncodedRecordV2 = match packet.record {
            Some(record) => record,
            None => return,
        };
        if !is_live(live, route.adjacency) {
            return;
        }
        add_to_group(
            &mut self.samples,
            route.adjacency,
            IngressSampleV2 {
                packet_len: packet.packet_len,
                gso: record.gso.merged(packet.reader_gso),
            },
        );
        add_to_group(
            &mut self.trains,
            TrainKeyV2 {
                route,
                flow_id: packet.flow_id,
                class: packet.class,
                overlay_hop_limit: packet.hop_limit,
            },
            TrainItemV2 {
                metadata: record.metadata,
                data: record.data,
                trace_probe: packet.trace_probe,
                permits: packet.permits,
            },
        );
    }

    /// Take one packet from the TUN interface.
    pub fn dispatch(
        &mut self,
        packet: MeshPacketV2,
        now: Duration,
        snapshot_generation: u64,
        constraints: &RoutePmtuConstraintsV2,
        live: &Vec<AdjacencyIdV2>,
    )
        ensures
            final(self).model() == dispatched(
                old(self).model(),
                packet,
                now,
                snapshot_generation,
                *constraints,
                live@,
            ),
    {
        let route: Option<ResolvedRouteV2> = self.route_packet(
            packet.info,
            packet.hop_limit,
            now,
            snapshot_generation,
            packet.route,
            constraints,
        );
        if let Some(route) = route {
            self.take_routed(packet, route, live);
        }
    }

    /// The trains of the batch, one per group, and the counters of each
    /// adjacency. The flows are kept for the next batch.
    pub fn finish_batch(self, priority: bool) -> (r: (
        Vec<MeshFlowV2>,
        Result<Vec<MeshTrainV2>, IngressErrorV2>,
        Vec<AdjacencyIngressV2>,
    ))
        ensures
            r.0@ == self.model().flows,
            is_batch_result(self.model().trains, r.1, priority),
            r.2@.len() == self.model().samples.len(),
            forall|i: int|
                0 <= i < r.2@.len() ==> (#[trigger] r.2@[i]).adjacency == self.model().samples[i].0
                    && r.2@[i].batch == sample_total(self.model().samples[i].1),
    {
        let ghost samples = groups_view(self.samples@);
        let mut counters: Vec<AdjacencyIngressV2> = Vec::new();
        let mut index: usize = 0;
        while index < self.samples.len()
            invariant
                samples == groups_view(self.samples@),
                index <= self.samples@.len(),
                counters@.len() == index,
                forall|i: int|
                    0 <= i < index ==> (#[trigger] counters@[i]).adjacency == samples[i].0
                        && counters@[i].batch == sample_total(samples[i].1),
            decreases self.samples@.len() - index,
        {
            assert(samples[index as int] == (
                self.samples@[index as int].key,
                self.samples@[index as int].items@,
            ));
            counters.push(
                AdjacencyIngressV2 {
                    adjacency: self.samples[index].key,
                    batch: total_of(&self.samples[index].items),
                },
            );
            index = index + 1;
        }
        let flows: Vec<MeshFlowV2> = self.flows;
        let trains = build_trains(self.trains, priority);
        (flows, trains, counters)
    }

    /// Forget idle flows once there are too many.
    pub fn expire_flows(&mut self, now: Duration)
        ensures
            final(self).flows@ == if old(self).flows@.len() > MAX_CLASSIFIERS {
                recent_mesh_flows(old(self).flows@, now)
            } else {
                old(self).flows@
            },
            final(self).trains == old(self).trains,
            final(self).samples == old(self).samples,
    {
        if self.flows.len() <= MAX_CLASSIFIERS {
            return;
        }
        let ghost all = self.flows@;
        let mut kept: Vec<MeshFlowV2> = Vec::new();
        let mut index: usize = 0;
        assert(all.take(0).len() == 0);
        assert(kept@ =~= recent_mesh_flows(all.take(0), now));
        while index < self.flows.len()
            invariant
                all == self.flows@,
                index <= all.len(),
                kept@ == recent_mesh_flows(all.take(index as int), now),
            decreases all.len() - index,
        {
            proof {
                assert(all.take(index + 1).drop_last() =~= all.take(index as int));
                assert(all.take(index + 1).last() == all[index as int]);
            }
            if seen_recently(self.flows[index].last_seen, now) {
                kept.push(self.flows[index]);
            }
            index = index + 1;
        }
        assert(all.take(index as int) =~= all);
        self.flows = kept;
    }
}

/// The trains of a batch, one per group.
fn build_trains(groups: Vec<Group<TrainKeyV2, TrainItemV2>>, priority: bool) -> (r: Result<
    Vec<MeshTrainV2>,
    IngressErrorV2,
>)
    ensures
        is_batch_result(groups_view(groups@), r, priority),
{
    let ghost views = groups_view(groups@);
    let ghost all = groups@;
    let mut rest: VecDeque<Group<TrainKeyV2, TrainItemV2>> = into_queue(groups);
    let mut trains: Vec<MeshTrainV2> = Vec::new();
    assert(all.skip(0) =~= all);
    while rest.len() > 0
        invariant
            views == groups_view(all),
            views == groups_view(groups@),
            trains@.len() <= all.len(),
            rest@ == all.skip(trains@.len() as int),
            forall|i: int|
                0 <= i < trains@.len() ==> carries_group(#[trigger] trains@[i], views[i], priority),
        decreases rest@.len(),
    {
        let ghost done = trains@.len() as int;
        if let Some(group) = rest.pop_front() {
            proof {
                assert(group == all[done]);
                assert(views[done] == (group.key, group.items@));
                assert(rest@ =~= all.skip(done + 1));
            }
            let key: TrainKeyV2 = group.key;
            let trace_probe: Option<TraceProbeTag> = find_probe(&group.items);
            let ingress_permits: Vec<usize> = collect_permits(&group.items);
            match numbered_records(group.items) {
                Ok(records) => {
                    trains.push(
                        MeshTrainV2 { key, priority, records, trace_probe, ingress_permits },
                    );
                },
                Err(error) => {
                    assert(views[done].1.len() > u16::MAX);
                    return Err(error);
                },
            }
        }
    }
    proof {
        assert(views.len() == all.len());
        assert forall|i: int| 0 <= i < views.len() implies (
        #[trigger] views[i]).1.len() <= u16::MAX by {
            assert(carries_group(trains@[i], views[i], priority));
        }
    }
    Ok(trains)
}

/// A flow's place holds the flow.
pub proof fn lemma_flow_place(flows: Seq<MeshFlowV2>, key: FlowKey)
    ensures
        -1 <= mesh_flow_place(flows, key) < flows.len(),
        mesh_flow_place(flows, key) >= 0 ==> flows[mesh_flow_place(flows, key)].key == key,
        mesh_flow_place(flows, key) < 0 ==> forall|i: int|
            0 <= i < flows.len() ==> (#[trigger] flows[i]).key != key,
    decreases flows.len(),
{
    if flows.len() > 0 && flows.last().key != key {
        lemma_flow_place(flows.drop_last(), key);
        assert forall|i: int|
            mesh_flow_place(flows, key) < 0 && 0 <= i < flows.len() implies (
        #[trigger] flows[i]).key != key by {
            if i < flows.len() - 1 {
                assert(flows.drop_last()[i] == flows[i]);
            }
        }
    }
}

/// The next batch for the dispatcher of a lane: as many records as one receive
/// batch, within the bytes that the lane admits at once.
pub fn next_lane_batch(pending: &mut VecDeque<TunIngressRecordV2>, priority: bool) -> (r: Vec<
    TunIngressRecordV2,
>)
    ensures
        is_batch_length(
            old(pending)@,
            64,
            if priority {
                TX_LATENCY_ADMISSION_HIGH_WATER_BYTES as int
            } else {
                TX_ADMISSION_BATCH_BYTES as int
            },
            r@.len() as int,
        ),
        r@ == old(pending)@.take(r@.len() as int),
        final(pending)@ == old(pending)@.skip(r@.len() as int),
{
    let bound: usize = if priority {
        TX_LATENCY_ADMISSION_HIGH_WATER_BYTES
    } else {
        TX_ADMISSION_BATCH_BYTES
    };
    drain_tun_ingress_batch(pending, AutoTuneBoundsV2::default().maximum_receive_batch, bound)
}

/// A packet that is forwarded never takes a larger datagram than its route and
/// the path allow.
pub proof fn lemma_routed_within_constraints(
    flows: Seq<MeshFlowV2>,
    key: FlowKey,
    now: Duration,
    snapshot_generation: u64,
    route: Option<ResolvedRouteV2>,
    constraints: RoutePmtuConstraintsV2,
)
    requires
        forall|i: int|
            0 <= i < flows.len() && (#[trigger] flows[i]).path_mtu_generation
                == constraints.generation ==> flows[i].effective_route == limited(
                constraints.values@,
                flows[i].leased_route,
            ),
    ensures
        ({
            let (after, taken) = routed(
                flows,
                key,
                now,
                snapshot_generation,
                route,
                constraints,
            );
            &&& taken matches Some(used) ==> exists|leased: ResolvedRouteV2|
                used == #[trigger] limited(constraints.values@, leased)
            &&& forall|i: int|
                0 <= i < after.len() && (#[trigger] after[i]).path_mtu_generation
                    == constraints.generation ==> after[i].effective_route == limited(
                    constraints.values@,
                    after[i].leased_route,
                )
        }),
{
    let (after, taken) = routed(flows, key, now, snapshot_generation, route, constraints);
    lemma_flow_place(flows, key);
    let at = mesh_flow_place(flows, key);
    assert forall|i: int|
        0 <= i < after.len() && (#[trigger] after[i]).path_mtu_generation
            == constraints.generation implies after[i].effective_route == limited(
        constraints.values@,
        after[i].leased_route,
    ) by {
        if at >= 0 && taken is None {
            if i < at {
                assert(after[i] == flows[i]);
            } else {
                assert(after[i] == flows[i + 1]);
            }
        } else if at >= 0 && i == at {
            assert(flows[at].path_mtu_generation == constraints.generation ==> true);
        } else if i < flows.len() {
            assert(after[i] == flows[i]);
        }
    }
    if taken is Some {
        let place = if at >= 0 {
            at
        } else {
            flows.len() as int
        };
        assert(after[place].path_mtu_generation == constraints.generation);
        assert(taken->0 == limited(constraints.values@, after[place].leased_route));
    }
}

/// A flow keeps its route while snapshot and constraints stay the same.
pub proof fn lemma_flow_keeps_its_route(
    flows: Seq<MeshFlowV2>,
    key: FlowKey,
    now: Duration,
    later: Duration,
    snapshot_generation: u64,
    route: Option<ResolvedRouteV2>,
    other: Option<ResolvedRouteV2>,
    constraints: RoutePmtuConstraintsV2,
)
    ensures
        ({
            let (after, first) = routed(flows, key, now, snapshot_generation, route, constraints);
            first is Some ==> routed(
                after,
                key,
                later,
                snapshot_generation,
                other,
                constraints,
            ).1 == first
        }),
{
    lemma_flow_place(flows, key);
    let (after, first) = routed(flows, key, now, snapshot_generation, route, constraints);
    if first is Some {
        let at = mesh_flow_place(flows, key);
        lemma_flow_place(after, key);
        let place = if at >= 0 {
            at
        } else {
            flows.len() as int
        };
        lemma_place_after(flows, key, after, place);
    }
}

/// The flow that a packet touched is found at its place again.
proof fn lemma_place_after(
    flows: Seq<MeshFlowV2>,
    key: FlowKey,
    after: Seq<MeshFlowV2>,
    place: int,
)
    requires
        place == (if mesh_flow_place(flows, key) >= 0 {
            mesh_flow_place(flows, key)
        } else {
            flows.len() as int
        }),
        after.len() == (if place < flows.len() {
            flows.len()
        } else {
            flows.len() + 1
        }),
        0 <= place < after.len(),
        after[place].key == key,
        forall|i: int| 0 <= i < flows.len() && i != place ==> #[trigger] after[i] == flows[i],
    ensures
        mesh_flow_place(after, key) == place,
    decreases after.len(),
{
    if place < flows.len() {
        lemma_flow_place(flows, key);
        if flows.last().key == key {
            assert(place == flows.len() - 1);
        } else {
            assert(place < flows.len() - 1) by {
                lemma_flow_place(flows.drop_last(), key);
            }
            assert(after.last() == flows.last());
            let shorter = after.drop_last();
            assert forall|i: int| 0 <= i < flows.drop_last().len() && i != place implies
                #[trigger] shorter[i] == flows.drop_last()[i] by {
                assert(after[i] == flows[i]);
            }
            lemma_place_after(flows.drop_last(), key, shorter, place);
        }
    }
}

/// The train and the record that a packet comes to, where it is not dropped.
pub open spec fn train_entry(
    flows: Seq<MeshFlowV2>,
    packet: MeshPacketV2,
    now: Duration,
    snapshot_generation: u64,
    constraints: RoutePmtuConstraintsV2,
    live: Seq<AdjacencyIdV2>,
) -> Option<(TrainKeyV2, TrainItemV2)> {
    let route = routed(
        flows,
        flow_of(packet.info),
        now,
        snapshot_generation,
        packet.route,
        constraints,
    ).1;
    match (route, packet.record) {
        (Some(route), Some(record)) => if is_forwardable(packet) && live.contains(
            route.adjacency,
        ) {
            Some(
                (
                    TrainKeyV2 {
                        route,
                        flow_id: packet.flow_id,
                        class: packet.class,
                        overlay_hop_limit: packet.hop_limit,
                    },
                    packet_item(packet, record),
                ),
            )
        } else {
            None
        },
        _ => None,
    }
}

/// The batch after a run of packets.
pub open spec fn dispatched_all(
    state: MeshIngressModel,
    packets: Seq<MeshPacketV2>,
    now: Duration,
    snapshot_generation: u64,
    constraints: RoutePmtuConstraintsV2,
    live: Seq<AdjacencyIdV2>,
) -> MeshIngressModel
    decreases packets.len(),
{
    if packets.len() == 0 {
        state
    } else {
        dispatched(
            dispatched_all(
                state,
                packets.drop_last(),
                now,
                snapshot_generation,
                constraints,
                live,
            ),
            packets.last(),
            now,
            snapshot_generation,
            constraints,
            live,
        )
    }
}

/// The records that a run of packets comes to, each with its train, in order.
pub open spec fn train_entries(
    state: MeshIngressModel,
    packets: Seq<MeshPacketV2>,
    now: Duration,
    snapshot_generation: u64,
    constraints: RoutePmtuConstraintsV2,
    live: Seq<AdjacencyIdV2>,
) -> Seq<(TrainKeyV2, TrainItemV2)>
    decreases packets.len(),
{
    if packets.len() == 0 {
        Seq::empty()
    } else {
        let rest = train_entries(
            state,
            packets.drop_last(),
            now,
            snapshot_generation,
            constraints,
            live,
        );
        let before = dispatched_all(
            state,
            packets.drop_last(),
            now,
            snapshot_generation,
            constraints,
            live,
        );
        match train_entry(
            before.flows,
            packets.last(),
            now,
            snapshot_generation,
            constraints,
            live,
        ) {
            Some(entry) => rest.push(entry),
            None => rest,
        }
    }
}

/// The trains of an empty batch are those of the packets that came since.
proof fn lemma_trains_follow_the_packets(
    state: MeshIngressModel,
    packets: Seq<MeshPacketV2>,
    now: Duration,
    snapshot_generation: u64,
    constraints: RoutePmtuConstraintsV2,
    live: Seq<AdjacencyIdV2>,
)
    requires
        state.trains.len() == 0,
    ensures
        dispatched_all(state, packets, now, snapshot_generation, constraints, live).trains
            == grouped(
            train_entries(state, packets, now, snapshot_generation, constraints, live),
        ),
    decreases packets.len(),
{
    if packets.len() == 0 {
        assert(state.trains =~= Seq::empty());
    } else {
        let earlier = packets.drop_last();
        lemma_trains_follow_the_packets(
            state,
            earlier,
            now,
            snapshot_generation,
            constraints,
            live,
        );
        let rest = train_entries(state, earlier, now, snapshot_generation, constraints, live);
        let before = dispatched_all(
            state,
            earlier,
            now,
            snapshot_generation,
            constraints,
            live,
        );
        if let Some(entry) = train_entry(
            before.flows,
            packets.last(),
            now,
            snapshot_generation,
            constraints,
            live,
        ) {
            assert(rest.push(entry).drop_last() =~= rest);
        }
    }
}

/// A batch carries every packet that is not dropped once, and the records of a
/// train in the order in which its packets came.
pub proof fn lemma_trains_keep_every_packet_in_order(
    state: MeshIngressModel,
    packets: Seq<MeshPacketV2>,
    now: Duration,
    snapshot_generation: u64,
    constraints: RoutePmtuConstraintsV2,
    live: Seq<AdjacencyIdV2>,
)
    requires
        state.trains.len() == 0,
    ensures
        ({
            let trains = dispatched_all(
                state,
                packets,
                now,
                snapshot_generation,
                constraints,
                live,
            ).trains;
            let entries = train_entries(
                state,
                packets,
                now,
                snapshot_generation,
                constraints,
                live,
            );
            &&& forall|i: int, j: int|
                #![trigger trains[i], trains[j]]
                0 <= i < j < trains.len() ==> trains[i].0 != trains[j].0
            &&& forall|i: int|
                0 <= i < trains.len() ==> (#[trigger] trains[i]).1 == values_of_key(
                    entries,
                    trains[i].0,
                )
            &&& forall|e: int|
                0 <= e < entries.len() ==> position(trains, (#[trigger] entries[e]).0) >= 0
        }),
{
    lemma_trains_follow_the_packets(state, packets, now, snapshot_generation, constraints, live);
    lemma_grouping_is_a_partition(
        train_entries(state, packets, now, snapshot_generation, constraints, live),
    );
}

/// A batch becomes one train per group, in order: under the group's key and on
/// the batch's lane, with its records numbered from one, its first probe and the
/// permits that its records hold. A group that cannot be numbered fails the
/// whole batch.
pub proof fn lemma_batch_becomes_its_trains(
    groups: Seq<(TrainKeyV2, Seq<TrainItemV2>)>,
    result: Result<Vec<MeshTrainV2>, IngressErrorV2>,
    priority: bool,
    at: int,
    place: int,
)
    requires
        is_batch_result(groups, result, priority),
        0 <= at < groups.len(),
    ensures
        groups[at].1.len() > 65_535 ==> (result matches Err(error) && error
            == IngressErrorV2::TooManyRecords),
        (forall|i: int| 0 <= i < groups.len() ==> (#[trigger] groups[i]).1.len() <= 65_535)
            ==> result is Ok,
        result matches Ok(trains) ==> {
            &&& trains@.len() == groups.len()
            &&& trains@[at].key == groups[at].0
            &&& trains@[at].priority == priority
            &&& trains@[at].records@.len() == groups[at].1.len()
            &&& trains@[at].trace_probe == first_probe(groups[at].1)
            &&& trains@[at].ingress_permits@ == held_permits(groups[at].1)
            &&& 0 <= place < groups[at].1.len() ==> trains@[at].records@[place].record_id == place + 1
                && trains@[at].records@[place].metadata == groups[at].1[place].metadata
                && trains@[at].records@[place].data == groups[at].1[place].data
        },
{
    if let Ok(trains) = result {
        assert(carries_group(trains@[at], groups[at], priority));
        if 0 <= place < groups[at].1.len() {
            assert(is_numbered(trains@[at].records@[place], groups[at].1[place], place));
        }
    }
}

/// The samples of a batch add up packet by packet.
pub proof fn lemma_samples_add_up(samples: Seq<IngressSampleV2>, sample: IngressSampleV2)
    ensures
        sample_total(Seq::empty()).packets == 0 && sample_total(Seq::empty()).bytes == 0,
        ({
            let before = sample_total(samples);
            let after = sample_total(samples.push(sample));
            &&& before.packets < u64::MAX ==> after.packets == before.packets + 1
            &&& before.bytes + sample.packet_len <= u64::MAX ==> after.bytes == before.bytes
                + sample.packet_len
            &&& before.gso.input_bytes + sample.gso.input_bytes <= u64::MAX
                ==> after.gso.input_bytes == before.gso.input_bytes + sample.gso.input_bytes
            &&& before.gso.preserved_bytes + sample.gso.preserved_bytes <= u64::MAX
                ==> after.gso.preserved_bytes == before.gso.preserved_bytes
                + sample.gso.preserved_bytes
            &&& before.gso.fallback_splits + sample.gso.fallback_splits <= u64::MAX
                ==> after.gso.fallback_splits == before.gso.fallback_splits
                + sample.gso.fallback_splits
        }),
{
    assert(samples.push(sample).drop_last() =~= samples);
    assert(samples.push(sample).last() == sample);
}

} // verus!

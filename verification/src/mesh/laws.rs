//! What the mesh does with flows, reports, probes and transit traffic, case by
//! case.

use vstd::prelude::*;

use super::ingress::{
    dispatched, lemma_flow_place, mesh_flow_place, recent_mesh_flows, routed, MeshFlowV2,
    MeshIngressModel, MeshPacketV2,
};
use super::pmtu::{constrained, limited, route_key, RoutePmtuConstraintsV2};
use super::presence::{
    adjacency_of, announced_prefixes, gossip_targets, is_gossip, next_generation, refreshed_link,
    wrapped_epoch, AdjacencyViewV2, PresenceLinkV2, PresenceRecordV2, PresenceUpdateV2,
};
use super::relay::{
    report_error, request_action, response_action, reverse_adjacency, CellHeaderV2, RelayErrorV2,
    RepairRequestActionV2, RepairResponseActionV2,
};
use super::trace::{
    find_train, fresh_trains, lemma_oldest_is_oldest, oldest, other_requests,
    other_trains, registered, with_room, PendingTraceTrainV2, TraceProbeTag,
};
use super::transit::{transited, MeshDatagramResultV2, TransitModel};
use crate::grouping::position;
use crate::net::{FlowKey, IpNet};
use crate::routing::{
    label_lookup, AdjacencyIdV2, LabelActionV2, LabelTableV2, ResolvedRouteV2,
    RouteLabelV2, TrainKeyV2,
};
use crate::time::{Duration, Instant};

verus! {

/// No two flows have the same key.
pub open spec fn flows_are_distinct(flows: Seq<MeshFlowV2>) -> bool {
    forall|i: int, j: int|
        0 <= i < flows.len() && 0 <= j < flows.len() && i != j ==> (#[trigger] flows[i]).key != (
        #[trigger] flows[j]).key
}

/// A known flow stands where its key stands.
pub proof fn lemma_known_flow_is_found(flows: Seq<MeshFlowV2>, at: int)
    requires
        flows_are_distinct(flows),
        0 <= at < flows.len(),
    ensures
        mesh_flow_place(flows, flows[at].key) == at,
{
    lemma_flow_place(flows, flows[at].key);
}

/// A known flow that meets a snapshot of another generation takes the route of
/// that snapshot, under the path-MTU constraints, and keeps it; no other flow
/// changes.
pub proof fn lemma_new_snapshot_moves_the_flow(
    flows: Seq<MeshFlowV2>,
    at: int,
    now: Duration,
    snapshot_generation: u64,
    found: ResolvedRouteV2,
    constraints: RoutePmtuConstraintsV2,
)
    requires
        flows_are_distinct(flows),
        0 <= at < flows.len(),
        flows[at].snapshot_generation != snapshot_generation,
    ensures
        ({
            let (after, used) = routed(
                flows,
                flows[at].key,
                now,
                snapshot_generation,
                Some(found),
                constraints,
            );
            &&& used == Some(limited(constraints.values@, found))
            &&& used matches Some(route) && route.adjacency == found.adjacency && route.route_label
                == found.route_label && route.route_epoch == found.route_epoch
                && route.maximum_datagram_size <= found.maximum_datagram_size
            &&& after.len() == flows.len()
            &&& after[at].key == flows[at].key
            &&& after[at].leased_route == found
            &&& Some(after[at].effective_route) == used
            &&& after[at].snapshot_generation == snapshot_generation
            &&& after[at].path_mtu_generation == constraints.generation
            &&& after[at].last_seen == now
            &&& forall|i: int|
                0 <= i < flows.len() && i != at ==> #[trigger] after[i] == flows[i]
        }),
{
    lemma_known_flow_is_found(flows, at);
}

/// A known flow that meets a snapshot of another generation without a route is
/// forgotten, and its packet goes nowhere.
pub proof fn lemma_lost_route_ends_the_flow(
    flows: Seq<MeshFlowV2>,
    at: int,
    now: Duration,
    snapshot_generation: u64,
    constraints: RoutePmtuConstraintsV2,
)
    requires
        flows_are_distinct(flows),
        0 <= at < flows.len(),
        flows[at].snapshot_generation != snapshot_generation,
    ensures
        ({
            let (after, used) = routed(
                flows,
                flows[at].key,
                now,
                snapshot_generation,
                None,
                constraints,
            );
            &&& used is None
            &&& after.len() == flows.len() - 1
            &&& forall|i: int| 0 <= i < after.len() ==> (#[trigger] after[i]).key != flows[at].key
        }),
{
    lemma_known_flow_is_found(flows, at);
}

/// Under the snapshot that it came from, a known flow keeps the adjacency, label
/// and epoch of its route whatever the snapshot would offer now, and newer
/// constraints are applied to the route as the snapshot had it.
pub proof fn lemma_same_snapshot_keeps_the_route(
    flows: Seq<MeshFlowV2>,
    at: int,
    now: Duration,
    offered: Option<ResolvedRouteV2>,
    constraints: RoutePmtuConstraintsV2,
)
    requires
        flows_are_distinct(flows),
        0 <= at < flows.len(),
    ensures
        ({
            let flow = flows[at];
            let (after, used) = routed(
                flows,
                flow.key,
                now,
                flow.snapshot_generation,
                offered,
                constraints,
            );
            &&& after.len() == flows.len()
            &&& after[at].leased_route == flow.leased_route
            &&& after[at].snapshot_generation == flow.snapshot_generation
            &&& after[at].last_seen == now
            &&& after[at].path_mtu_generation == constraints.generation
            &&& used == Some(after[at].effective_route)
            &&& flow.path_mtu_generation == constraints.generation ==> used == Some(
                flow.effective_route,
            )
            &&& flow.path_mtu_generation != constraints.generation ==> used == Some(
                limited(constraints.values@, flow.leased_route),
            )
        }),
{
    lemma_known_flow_is_found(flows, at);
}

/// An unknown flow takes the snapshot's route under the constraints and is
/// remembered behind the others; without a route nothing is remembered.
pub proof fn lemma_new_flow_takes_the_snapshot_route(
    flows: Seq<MeshFlowV2>,
    key: FlowKey,
    now: Duration,
    snapshot_generation: u64,
    offered: Option<ResolvedRouteV2>,
    constraints: RoutePmtuConstraintsV2,
)
    requires
        forall|i: int| 0 <= i < flows.len() ==> (#[trigger] flows[i]).key != key,
    ensures
        ({
            let (after, used) = routed(
                flows,
                key,
                now,
                snapshot_generation,
                offered,
                constraints,
            );
            &&& offered is None ==> used is None && after == flows
            &&& offered matches Some(found) ==> {
                &&& used == Some(limited(constraints.values@, found))
                &&& after.len() == flows.len() + 1
                &&& after.take(flows.len() as int) == flows
                &&& after.last().key == key
                &&& after.last().leased_route == found
                &&& after.last().effective_route == limited(constraints.values@, found)
                &&& after.last().snapshot_generation == snapshot_generation
                &&& after.last().path_mtu_generation == constraints.generation
                &&& after.last().last_seen == now
            }
        }),
{
    lemma_flow_place(flows, key);
    if offered is Some {
        let (after, used) = routed(flows, key, now, snapshot_generation, offered, constraints);
        assert(after.take(flows.len() as int) =~= flows);
    }
}

/// Routing a packet never makes two flows of one key.
pub proof fn lemma_flows_stay_distinct(
    flows: Seq<MeshFlowV2>,
    key: FlowKey,
    now: Duration,
    snapshot_generation: u64,
    offered: Option<ResolvedRouteV2>,
    constraints: RoutePmtuConstraintsV2,
)
    requires
        flows_are_distinct(flows),
    ensures
        flows_are_distinct(
            routed(flows, key, now, snapshot_generation, offered, constraints).0,
        ),
{
    lemma_flow_place(flows, key);
}

/// The datagram limit of a route is the smaller of its own and the one reported
/// for its epoch and label.
pub proof fn lemma_limit_is_the_smaller(values: Map<u64, u16>, route: ResolvedRouteV2)
    ensures
        ({
            let key = (route.route_epoch * 0x1_0000_0000 + route.route_label.0) as u64;
            let size = limited(values, route).maximum_datagram_size;
            &&& !values.contains_key(key) ==> limited(values, route) == route
            &&& values.contains_key(key) && values[key] < route.maximum_datagram_size ==> size
                == values[key]
            &&& values.contains_key(key) && values[key] >= route.maximum_datagram_size ==> size
                == route.maximum_datagram_size
        }),
{
}

/// A report for a route limits it to exactly the smallest size reported so far,
/// while fewer than 4,096 routes are limited.
pub proof fn lemma_smallest_report_counts(
    values: Map<u64, u16>,
    route: ResolvedRouteV2,
    maximum: u16,
)
    requires
        values.dom().len() < 4_096,
    ensures
        ({
            let key = (route.route_epoch * 0x1_0000_0000 + route.route_label.0) as u64;
            let after = constrained(values, route_key(route.route_epoch, route.route_label.0), maximum);
            &&& after.contains_key(key)
            &&& !values.contains_key(key) ==> after[key] == maximum
            &&& values.contains_key(key) && maximum < values[key] ==> after[key] == maximum
            &&& values.contains_key(key) && maximum >= values[key] ==> after[key] == values[key]
            &&& forall|other: u64|
                other != key ==> (#[trigger] after.contains_key(other) == values.contains_key(other))
            &&& forall|other: u64|
                other != key && values.contains_key(other) ==> #[trigger] after[other]
                    == values[other]
        }),
{
}

/// A packet without hops left or to a multicast destination changes nothing.
pub proof fn lemma_spent_packets_change_nothing(
    state: MeshIngressModel,
    packet: MeshPacketV2,
    now: Duration,
    snapshot_generation: u64,
    constraints: RoutePmtuConstraintsV2,
    live: Seq<AdjacencyIdV2>,
)
    requires
        packet.hop_limit == 0 || crate::net::is_multicast_number(packet.info.destination),
    ensures
        dispatched(state, packet, now, snapshot_generation, constraints, live) == state,
{
}

/// A forwardable packet with valid metadata and a live writer ends up as the
/// last record of the train that has exactly its route, flow, class and hops,
/// and is counted with its length for the adjacency of that route.
pub proof fn lemma_packet_joins_its_train(
    state: MeshIngressModel,
    packet: MeshPacketV2,
    now: Duration,
    snapshot_generation: u64,
    constraints: RoutePmtuConstraintsV2,
    live: Seq<AdjacencyIdV2>,
)
    requires
        packet.hop_limit != 0,
        !crate::net::is_multicast_number(packet.info.destination),
        packet.record is Some,
    ensures
        ({
            let after = dispatched(state, packet, now, snapshot_generation, constraints, live);
            let used = routed(
                state.flows,
                crate::net::flow_of(packet.info),
                now,
                snapshot_generation,
                packet.route,
                constraints,
            ).1;
            let record = packet.record.unwrap();
            &&& used is None ==> after.trains == state.trains && after.samples == state.samples
            &&& used matches Some(route) ==> (!live.contains(route.adjacency) ==> after.trains
                == state.trains && after.samples == state.samples)
            &&& used matches Some(route) ==> (live.contains(route.adjacency) ==> {
                &&& exists|i: int| #![trigger after.trains[i]]
                    0 <= i < after.trains.len() && after.trains[i].0.route == route
                        && after.trains[i].0.flow_id == packet.flow_id && after.trains[i].0.class
                        == packet.class && after.trains[i].0.overlay_hop_limit == packet.hop_limit
                        && after.trains[i].1.len() > 0 && after.trains[i].1.last().data
                        == record.data && after.trains[i].1.last().metadata == record.metadata
                        && after.trains[i].1.last().permits == packet.permits
                        && after.trains[i].1.last().trace_probe == packet.trace_probe
                &&& exists|i: int| #![trigger after.samples[i]]
                    0 <= i < after.samples.len() && after.samples[i].0 == route.adjacency
                        && after.samples[i].1.len() > 0 && after.samples[i].1.last().packet_len
                        == packet.packet_len
            })
        }),
{
    let after = dispatched(state, packet, now, snapshot_generation, constraints, live);
    let used = routed(
        state.flows,
        crate::net::flow_of(packet.info),
        now,
        snapshot_generation,
        packet.route,
        constraints,
    ).1;
    if let Some(route) = used {
        if live.contains(route.adjacency) {
            let key = TrainKeyV2 {
                route,
                flow_id: packet.flow_id,
                class: packet.class,
                overlay_hop_limit: packet.hop_limit,
            };
            crate::grouping::lemma_position(state.trains, key);
            crate::grouping::lemma_position(state.samples, route.adjacency);
            let i = if position(state.trains, key) >= 0 {
                position(state.trains, key)
            } else {
                state.trains.len() as int
            };
            let j = if position(state.samples, route.adjacency) >= 0 {
                position(state.samples, route.adjacency)
            } else {
                state.samples.len() as int
            };
            assert(after.trains[i].0 == key);
            assert(after.samples[j].0 == route.adjacency);
        }
    }
}

/// Expiry keeps exactly the flows seen in the last minute, in order.
pub proof fn lemma_idle_flows_are_forgotten(flows: Seq<MeshFlowV2>, now: Duration)
    ensures
        forall|flow: MeshFlowV2|
            #![trigger recent_mesh_flows(flows, now).contains(flow)]
            recent_mesh_flows(flows, now).contains(flow) <==> flows.contains(flow) && now.nanos
                < flow.last_seen.nanos + 60_000_000_000,
    decreases flows.len(),
{
    if flows.len() > 0 {
        let rest = flows.drop_last();
        lemma_idle_flows_are_forgotten(rest, now);
        assert forall|flow: MeshFlowV2|
            #![trigger recent_mesh_flows(flows, now).contains(flow)]
            recent_mesh_flows(flows, now).contains(flow) <==> flows.contains(flow) && now.nanos
                < flow.last_seen.nanos + 60_000_000_000 by {
            let kept = recent_mesh_flows(rest, now);
            assert(kept.contains(flow) <==> rest.contains(flow) && now.nanos
                < flow.last_seen.nanos + 60_000_000_000);
            assert(flows =~= rest.push(flows.last()));
            lemma_push_contains(rest, flows.last(), flow);
            lemma_push_contains(kept, flows.last(), flow);
        }
    }
}

/// A sequence with one more value contains that value and what it contained.
proof fn lemma_push_contains<T>(values: Seq<T>, last: T, wanted: T)
    ensures
        values.push(last).contains(wanted) <==> values.contains(wanted) || wanted == last,
{
    let all = values.push(last);
    if values.contains(wanted) {
        let i = choose|i: int| 0 <= i < values.len() && values[i] == wanted;
        assert(all[i] == wanted);
    }
    if wanted == last {
        assert(all[values.len() as int] == wanted);
    }
    if all.contains(wanted) && wanted != last {
        let i = choose|i: int| 0 <= i < all.len() && all[i] == wanted;
        assert(values[i] == wanted);
    }
}

/// A transit label hands reports about its Cells back to where they come from,
/// and only those that arrive from where the Cells go; a local or unknown label
/// hands on nothing.
pub proof fn lemma_reports_travel_against_the_label(
    labels: LabelTableV2,
    route_epoch: u32,
    route_label: RouteLabelV2,
    arrived_from: AdjacencyIdV2,
)
    ensures
        ({
            let action = label_lookup(labels.labels@, route_epoch, route_label);
            let back = reverse_adjacency(action, arrived_from);
            &&& action matches Some(LabelActionV2::Forward { expected_ingress, next_hop })
                ==> (back == if next_hop == arrived_from {
                Some(expected_ingress)
            } else {
                None
            })
            &&& action matches Some(LabelActionV2::Local { .. }) ==> back is None
            &&& action is None ==> back is None
        }),
{
}

/// A repair request is answered where its train started, relayed towards the
/// source where it arrived from the train's next hop, and dropped otherwise; a
/// repair response travels the other way.
pub proof fn lemma_repair_follows_the_label(
    expected_ingress: AdjacencyIdV2,
    next_hop: AdjacencyIdV2,
    arrived_from: AdjacencyIdV2,
)
    ensures
        ({
            let forward = Some(LabelActionV2::Forward { expected_ingress, next_hop });
            let local = Some(LabelActionV2::Local { expected_ingress });
            &&& request_action(None, arrived_from) == RepairRequestActionV2::Respond(arrived_from)
            &&& arrived_from == next_hop ==> request_action(forward, arrived_from)
                == RepairRequestActionV2::Relay(expected_ingress)
            &&& arrived_from != next_hop ==> request_action(forward, arrived_from)
                == RepairRequestActionV2::Misdirected
            &&& request_action(local, arrived_from) == RepairRequestActionV2::Misdirected
            &&& response_action(None, arrived_from) == RepairResponseActionV2::Misdirected
            &&& arrived_from == expected_ingress ==> response_action(forward, arrived_from)
                == RepairResponseActionV2::Relay(next_hop)
            &&& arrived_from != expected_ingress ==> response_action(forward, arrived_from)
                == RepairResponseActionV2::Misdirected
            &&& arrived_from == expected_ingress ==> response_action(local, arrived_from)
                == RepairResponseActionV2::Deliver
            &&& arrived_from != expected_ingress ==> response_action(local, arrived_from)
                == RepairResponseActionV2::Misdirected
        }),
{
}

/// A datagram moves exactly the part of the batch that it is for: cover bytes,
/// malformed datagrams and gated Cells are counted, delivered records and
/// forwarded Cells are kept in order, and an expired Cell leaves no trace.
pub proof fn lemma_datagram_moves_its_own_part(batch: TransitModel, datagram: MeshDatagramResultV2)
    requires
        batch.cover_rx_bytes < 0x8000_0000_0000_0000,
        batch.protocol_errors < 0x8000_0000_0000_0000,
        batch.route_gate_drops < 0x8000_0000_0000_0000,
    ensures
        ({
            let after = transited(batch, datagram);
            &&& datagram matches MeshDatagramResultV2::Cover { length } ==> (length
                < 0x8000_0000_0000_0000 ==> after.cover_rx_bytes == batch.cover_rx_bytes + length)
            &&& !(datagram is Cover) ==> after.cover_rx_bytes == batch.cover_rx_bytes
            &&& datagram is Malformed ==> after.protocol_errors == batch.protocol_errors + 1
            &&& !(datagram is Malformed) ==> after.protocol_errors == batch.protocol_errors
            &&& datagram is Dropped ==> after.route_gate_drops == batch.route_gate_drops + 1
            &&& !(datagram is Dropped) ==> after.route_gate_drops == batch.route_gate_drops
            &&& datagram matches MeshDatagramResultV2::Local { records } ==> after.local
                == batch.local + records@
            &&& !(datagram is Local) ==> after.local == batch.local
            &&& !(datagram is Forward) ==> after.forwarded == batch.forwarded
            &&& datagram matches MeshDatagramResultV2::Forward { key, cell } ==> exists|i: int|
                #![trigger after.forwarded[i]]
                0 <= i < after.forwarded.len() && after.forwarded[i].0 == key
                    && after.forwarded[i].1.len() > 0 && after.forwarded[i].1.last() == cell
        }),
{
    if let MeshDatagramResultV2::Forward { key, cell } = datagram {
        crate::grouping::lemma_position(batch.forwarded, key);
        let at = position(batch.forwarded, key);
        let i = if at >= 0 {
            at
        } else {
            batch.forwarded.len() as int
        };
        let after = transited(batch, datagram);
        assert(after.forwarded[i].0 == key);
    }
}

/// A report that cannot be sent names the first reason: a size beyond sixteen
/// bits, label zero, or a label that leads nowhere back.
pub proof fn lemma_unsendable_reports_say_why(
    header: CellHeaderV2,
    observed: usize,
    maximum: usize,
    outgoing: AdjacencyIdV2,
    labels: LabelTableV2,
)
    ensures
        ({
            let error = report_error(header, observed, maximum, outgoing, labels);
            &&& observed > 65_535 ==> error == Some(RelayErrorV2::ObservedSize)
            &&& observed <= 65_535 && maximum > 65_535 ==> error == Some(RelayErrorV2::MaximumSize)
            &&& observed <= 65_535 && maximum <= 65_535 && header.route_label == 0 ==> error
                == Some(RelayErrorV2::ZeroLabel)
            &&& error is None ==> (label_lookup(
                labels.labels@,
                header.session_epoch,
                RouteLabelV2(header.route_label),
            ) matches Some(LabelActionV2::Forward { next_hop, .. }) && next_hop == outgoing)
            &&& observed <= 65_535 && maximum <= 65_535 && header.route_label != 0 && error is Some
                ==> error == Some(RelayErrorV2::NoReverseAction)
        }),
{
}

/// A link follows its adjacency: healthy while open, and as wide as the smaller
/// of what was negotiated and what is live; its peer and cost stay, and a link
/// without adjacency stays whole.
pub proof fn lemma_links_follow_their_adjacency(
    link: PresenceLinkV2,
    adjacencies: Seq<AdjacencyViewV2>,
)
    ensures
        ({
            let after = refreshed_link(link, adjacencies);
            &&& after.peer == link.peer
            &&& after.cost == link.cost
            &&& adjacency_of(adjacencies, link.peer@) is None ==> after == link
            &&& adjacency_of(adjacencies, link.peer@) matches Some(adjacency) ==> {
                &&& after.healthy == !adjacency.closed
                &&& after.maximum_datagram_size <= adjacency.negotiated_datagram_size
                &&& adjacency.live_datagram_size is None ==> after.maximum_datagram_size
                    == adjacency.negotiated_datagram_size
                &&& adjacency.live_datagram_size matches Some(live) ==> {
                    &&& live < adjacency.negotiated_datagram_size ==> after.maximum_datagram_size
                        == live
                    &&& live >= adjacency.negotiated_datagram_size ==> after.maximum_datagram_size
                        == adjacency.negotiated_datagram_size
                }
            }
        }),
{
}

/// What is found for a peer is an adjacency to that peer; nothing is found only
/// where there is none.
pub proof fn lemma_adjacency_is_to_its_peer(adjacencies: Seq<AdjacencyViewV2>, peer: Seq<u8>)
    ensures
        adjacency_of(adjacencies, peer) matches Some(found) ==> found.remote_id@ == peer
            && adjacencies.contains(found),
        adjacency_of(adjacencies, peer) is None ==> forall|i: int|
            0 <= i < adjacencies.len() ==> (#[trigger] adjacencies[i]).remote_id@ != peer,
    decreases adjacencies.len(),
{
    if adjacencies.len() > 0 {
        let rest = adjacencies.drop_first();
        if adjacencies[0].remote_id@ == peer {
            assert(adjacencies.contains(adjacencies[0]));
        } else {
            lemma_adjacency_is_to_its_peer(rest, peer);
            if let Some(found) = adjacency_of(rest, peer) {
                let i = choose|i: int| 0 <= i < rest.len() && rest[i] == found;
                assert(adjacencies[i + 1] == found);
            } else {
                assert forall|i: int| 0 <= i < adjacencies.len() implies (
                #[trigger] adjacencies[i]).remote_id@ != peer by {
                    if i > 0 {
                        assert(rest[i - 1] == adjacencies[i]);
                    }
                }
            }
        }
    }
}

/// News is passed on, and what is known already is not.
pub proof fn lemma_only_news_is_gossip(update: PresenceUpdateV2)
    ensures
        update is Duplicate || update is Stale ==> !is_gossip(update),
        !(update is Duplicate) && !(update is Stale) ==> is_gossip(update),
{
}

/// Gossip goes to every adjacency but the one that it came from.
pub proof fn lemma_gossip_goes_everywhere_else(
    adjacencies: Seq<AdjacencyIdV2>,
    incoming: Option<AdjacencyIdV2>,
)
    ensures
        forall|adjacency: AdjacencyIdV2|
            #![trigger gossip_targets(adjacencies, incoming).contains(adjacency)]
            gossip_targets(adjacencies, incoming).contains(adjacency) <==> adjacencies.contains(
                adjacency,
            ) && incoming != Some(adjacency),
    decreases adjacencies.len(),
{
    if adjacencies.len() > 0 {
        let rest = adjacencies.drop_last();
        lemma_gossip_goes_everywhere_else(rest, incoming);
        let kept = gossip_targets(rest, incoming);
        assert(adjacencies =~= rest.push(adjacencies.last()));
        assert forall|adjacency: AdjacencyIdV2|
            #![trigger gossip_targets(adjacencies, incoming).contains(adjacency)]
            gossip_targets(adjacencies, incoming).contains(adjacency) <==> adjacencies.contains(
                adjacency,
            ) && incoming != Some(adjacency) by {
            assert(kept.contains(adjacency) <==> rest.contains(adjacency) && incoming != Some(
                adjacency,
            ));
            lemma_push_contains(rest, adjacencies.last(), adjacency);
            lemma_push_contains(kept, adjacencies.last(), adjacency);
        }
    }
}

/// A peer learns exactly what others announce: an address or prefix of a record
/// that is not its own.
pub proof fn lemma_own_prefixes_are_not_learned(
    records: Seq<PresenceRecordV2>,
    local: Seq<u8>,
    prefix: IpNet,
)
    ensures
        announced_prefixes(records, local).contains(prefix) <==> exists|i: int|
            0 <= i < records.len() && (#[trigger] records[i]).owner@ != local && (
            records[i].node_addresses@.contains(prefix) || records[i].prefixes@.contains(prefix)),
    decreases records.len(),
{
    if records.len() > 0 {
        let rest = records.drop_last();
        let last = records.last();
        lemma_own_prefixes_are_not_learned(rest, local, prefix);
        let before = announced_prefixes(rest, local);
        lemma_concat_contains(before, last.node_addresses@, prefix);
        lemma_concat_contains(before + last.node_addresses@, last.prefixes@, prefix);
        if announced_prefixes(records, local).contains(prefix) {
            if before.contains(prefix) {
                let i = choose|i: int|
                    0 <= i < rest.len() && (#[trigger] rest[i]).owner@ != local && (
                    rest[i].node_addresses@.contains(prefix) || rest[i].prefixes@.contains(prefix));
                assert(records[i] == rest[i]);
            } else {
                assert(records[records.len() - 1] == last);
            }
        }
        if exists|i: int|
            0 <= i < records.len() && (#[trigger] records[i]).owner@ != local && (
            records[i].node_addresses@.contains(prefix) || records[i].prefixes@.contains(prefix)) {
            let i = choose|i: int|
                0 <= i < records.len() && (#[trigger] records[i]).owner@ != local && (
                records[i].node_addresses@.contains(prefix) || records[i].prefixes@.contains(
                    prefix,
                ));
            if i < rest.len() {
                assert(rest[i] == records[i]);
            }
        }
    }
}

/// A concatenation contains what its parts contain.
proof fn lemma_concat_contains<T>(front: Seq<T>, back: Seq<T>, wanted: T)
    ensures
        (front + back).contains(wanted) <==> front.contains(wanted) || back.contains(wanted),
{
    let all = front + back;
    if front.contains(wanted) {
        let i = choose|i: int| 0 <= i < front.len() && front[i] == wanted;
        assert(all[i] == wanted);
    }
    if back.contains(wanted) {
        let i = choose|i: int| 0 <= i < back.len() && back[i] == wanted;
        assert(all[front.len() + i] == wanted);
    }
    if all.contains(wanted) {
        let i = choose|i: int| 0 <= i < all.len() && all[i] == wanted;
        if i < front.len() {
            assert(front[i] == wanted);
        } else {
            assert(back[i - front.len()] == wanted);
        }
    }
}

/// A generation below the largest is followed by the next one, never by zero or
/// one; its epoch is the generation itself while it fits, and never zero.
pub proof fn lemma_generations_and_epochs_move_on(generation: u64)
    ensures
        0 < generation < u64::MAX ==> next_generation(generation) == generation + 1,
        next_generation(generation) >= 2,
        generation == 0 || generation == u64::MAX ==> next_generation(generation) == 2,
        wrapped_epoch(next_generation(generation)) != 0,
        generation <= 0xffff_ffff ==> wrapped_epoch(generation) == generation,
        generation > 0xffff_ffff ==> wrapped_epoch(generation) == 1 || wrapped_epoch(generation)
            == generation % 0x1_0000_0000,
{
}

/// What is found has the wanted epoch, label and train, and is pending; nothing
/// is found only where no such train is pending.
pub proof fn lemma_found_train_is_the_wanted_one(
    pending: Seq<PendingTraceTrainV2>,
    epoch: u32,
    label: u32,
    id: u64,
)
    ensures
        find_train(pending, epoch, label, id) matches Some(train) ==> train.route_epoch == epoch
            && train.route_label == label && train.train_id == id && pending.contains(train),
        find_train(pending, epoch, label, id) is None ==> forall|i: int|
            0 <= i < pending.len() ==> (#[trigger] pending[i]).route_epoch != epoch
                || pending[i].route_label != label || pending[i].train_id != id,
    decreases pending.len(),
{
    if pending.len() > 0 {
        let rest = pending.drop_first();
        lemma_found_train_is_the_wanted_one(rest, epoch, label, id);
        assert(pending.contains(pending[0]));
        if let Some(train) = find_train(rest, epoch, label, id) {
            let i = choose|i: int| 0 <= i < rest.len() && rest[i] == train;
            assert(pending[i + 1] == train);
        }
        assert forall|i: int|
            find_train(pending, epoch, label, id) is None && 0 <= i < pending.len() implies (
        #[trigger] pending[i]).route_epoch != epoch || pending[i].route_label != label
            || pending[i].train_id != id by {
            if i > 0 {
                assert(rest[i - 1] == pending[i]);
            }
        }
    }
}

/// Exactly the trains registered in the last two minutes are fresh.
pub proof fn lemma_fresh_trains_are_two_minutes_young(
    pending: Seq<PendingTraceTrainV2>,
    now: Instant,
    train: PendingTraceTrainV2,
)
    ensures
        fresh_trains(pending, now).contains(train) <==> pending.contains(train) && now.nanos
            < train.registered_at.nanos + 120_000_000_000,
    decreases pending.len(),
{
    if pending.len() > 0 {
        let rest = pending.drop_last();
        lemma_fresh_trains_are_two_minutes_young(rest, now, train);
        assert(pending =~= rest.push(pending.last()));
        lemma_push_contains(rest, pending.last(), train);
        lemma_push_contains(fresh_trains(rest, now), pending.last(), train);
    }
}

/// Removing a train removes exactly the registrations of its epoch, label and
/// number.
pub proof fn lemma_other_trains_are_kept(
    pending: Seq<PendingTraceTrainV2>,
    epoch: u32,
    label: u32,
    id: u64,
    train: PendingTraceTrainV2,
)
    ensures
        other_trains(pending, epoch, label, id).contains(train) <==> pending.contains(train) && (
        train.route_epoch != epoch || train.route_label != label || train.train_id != id),
    decreases pending.len(),
{
    if pending.len() > 0 {
        let rest = pending.drop_last();
        lemma_other_trains_are_kept(rest, epoch, label, id, train);
        assert(pending =~= rest.push(pending.last()));
        lemma_push_contains(rest, pending.last(), train);
        lemma_push_contains(other_trains(rest, epoch, label, id), pending.last(), train);
    }
}

/// Removing a request removes exactly its registrations.
pub proof fn lemma_other_requests_are_kept(
    pending: Seq<PendingTraceTrainV2>,
    request_id: u64,
    train: PendingTraceTrainV2,
)
    ensures
        other_requests(pending, request_id).contains(train) <==> pending.contains(train)
            && train.request_id != request_id,
    decreases pending.len(),
{
    if pending.len() > 0 {
        let rest = pending.drop_last();
        lemma_other_requests_are_kept(rest, request_id, train);
        assert(pending =~= rest.push(pending.last()));
        lemma_push_contains(rest, pending.last(), train);
        lemma_push_contains(other_requests(rest, request_id), pending.last(), train);
    }
}

/// A registration can be found under its epoch, label and train, with the
/// request and target of its tag and the time of now, and every other fresh one
/// stays while there is room.
pub proof fn lemma_registration_can_be_found(
    pending: Seq<PendingTraceTrainV2>,
    route: ResolvedRouteV2,
    train_id: u64,
    tag: TraceProbeTag,
    now: Instant,
)
    ensures
        ({
            let after = registered(pending, route, train_id, tag, now);
            find_train(after, route.route_epoch, route.route_label.0, train_id) matches Some(found)
                && found.request_id == tag.request_id && found.target == tag.target
                && found.registered_at == now
        }),
        pending.len() < 4_096 ==> forall|other: PendingTraceTrainV2|
            #![trigger registered(pending, route, train_id, tag, now).contains(other)]
            pending.contains(other) && now.nanos < other.registered_at.nanos + 120_000_000_000 && (
            other.route_epoch != route.route_epoch || other.route_label != route.route_label.0
                || other.train_id != train_id) ==> registered(
                pending,
                route,
                train_id,
                tag,
                now,
            ).contains(other),
{
    let epoch = route.route_epoch;
    let label = route.route_label.0;
    let after = registered(pending, route, train_id, tag, now);
    let fresh = fresh_trains(pending, now);
    let roomy = with_room(fresh);
    let others = other_trains(roomy, epoch, label, train_id);
    lemma_found_train_is_the_wanted_one(after, epoch, label, train_id);
    let last = after.last();
    assert(after =~= others.push(last));
    assert(after[after.len() - 1] == last);
    let found = find_train(after, epoch, label, train_id).unwrap();
    lemma_push_contains(others, last, found);
    lemma_other_trains_are_kept(roomy, epoch, label, train_id, found);
    if pending.len() < 4_096 {
        lemma_fresh_trains_are_fewer(pending, now);
        assert forall|other: PendingTraceTrainV2|
            #![trigger after.contains(other)]
            pending.contains(other) && now.nanos < other.registered_at.nanos + 120_000_000_000 && (
            other.route_epoch != epoch || other.route_label != label || other.train_id
                != train_id) implies after.contains(other) by {
            lemma_fresh_trains_are_two_minutes_young(pending, now, other);
            lemma_other_trains_are_kept(roomy, epoch, label, train_id, other);
            lemma_push_contains(others, last, other);
        }
    }
}

/// Freshness only removes.
proof fn lemma_fresh_trains_are_fewer(pending: Seq<PendingTraceTrainV2>, now: Instant)
    ensures
        fresh_trains(pending, now).len() <= pending.len(),
    decreases pending.len(),
{
    if pending.len() > 0 {
        lemma_fresh_trains_are_fewer(pending.drop_last(), now);
    }
}

/// Room is made by dropping a single registration that no other is older than,
/// and only among 4,096.
pub proof fn lemma_room_costs_the_oldest(pending: Seq<PendingTraceTrainV2>)
    ensures
        pending.len() < 4_096 ==> with_room(pending) == pending,
        pending.len() >= 4_096 ==> exists|at: int| #![trigger pending[at]]
            0 <= at < pending.len() && with_room(pending) == pending.remove(at) && forall|i: int|
            0 <= i < pending.len() ==> pending[at].registered_at.nanos <= (
            #[trigger] pending[i]).registered_at.nanos,
{
    if pending.len() >= 4_096 {
        lemma_oldest_is_oldest(pending);
        let at = oldest(pending);
        assert(with_room(pending) == pending.remove(at));
    }
}

} // verus!

use std::collections::VecDeque;

use ironet::config::V2PeerConfig;
use ironet::dataplane::ingress::{
    flow_id, flow_id_from_hash, EncodedRecordV2, FlowTableV2, IngressErrorV2, PeerIngressV2,
    PeerPacketV2, PeerTrainKeyV2,
};
use ironet::dataplane::rx::{
    next_feedback_sequence, receive_budget_change, split_reassembled, CompletedRecordV2,
    PeerDatagramV2, PeerRxBatchV2, PeerRxErrorV2, ReceiveBudgetV2,
};
use ironet::dataplane::tx::{SendProgressV2, TxLoopV2, TxPollV2};
use ironet::dataplane::{
    ingress_ready_order, GsoObservationV2, IngressReadyOrderV2, PrioritySendTurnV2,
    SchedulerDepth, TunIngressRecordV2,
};
use ironet::identity::EndpointId;
use ironet::link::{
    label_from_digest, selected_direct_addresses, selected_path_cost, ticket_partition_label,
    PathViewV2,
};
use ironet::mesh::ingress::{next_lane_batch, MeshIngressV2, MeshPacketV2};
use ironet::mesh::pmtu::RoutePmtuConstraintsV2;
use ironet::mesh::presence::{
    initial_presence, learned_prefixes, mesh_presence_step, peer_presence_step, presence_gossip,
    refresh_local_presence_paths, renew_presence, AdjacencyViewV2, PresenceErrorV2,
    PresenceRecordV2, PresenceStepV2, PresenceUpdateV2,
};
use ironet::mesh::relay::{
    header_incoming_adjacency, path_mtu_report, relay_oam_reverse, repair_request_action,
    repair_response_action, CellHeaderV2, RelayErrorV2, RepairRequestActionV2,
    RepairResponseActionV2,
};
use ironet::mesh::startup::{
    check_adjacencies, check_mesh_peers, mesh_member_limit, MeshStartErrorV2,
};
use ironet::mesh::trace::{MeshNodeStatus, OamTtlExpiredV2, TraceProbeTag, TraceTrainsV2};
use ironet::mesh::transit::{MeshDatagramResultV2, TransitBatchV2, TransitErrorV2};
use ironet::net::{FlowKey, IpAddr, IpNet, PacketInfo, SocketAddr};
use ironet::routing::{
    AdjacencyIdV2, ForwardKeyV2, LabelActionV2, LabelRouteV2, LabelTableV2, ResolvedRouteV2,
    RouteLabelV2, TrafficClass,
};
use ironet::time::{Duration, Instant};
use ironet::tuning::{AutoTuneBoundsV2, TuneDecisionV2};

fn id(byte: u8) -> EndpointId {
    let key = iroh_base::SecretKey::from_bytes(&[byte; 32]).public();
    EndpointId::from_bytes(key.as_bytes()).unwrap()
}

fn v4(a: u8, b: u8, c: u8, d: u8) -> IpAddr {
    IpAddr::V4(u32::from_be_bytes([a, b, c, d]))
}

fn adjacency(number: u32) -> AdjacencyIdV2 {
    AdjacencyIdV2::new(number).unwrap()
}

fn label(number: u32) -> RouteLabelV2 {
    RouteLabelV2::new(number).unwrap()
}

fn route() -> ResolvedRouteV2 {
    ResolvedRouteV2 {
        adjacency: adjacency(1),
        route_label: label(7),
        route_epoch: 9,
        maximum_datagram_size: 1_382,
    }
}

/// The first of the polled events that is ready.
fn first_ready(order: &[TxPollV2], ready: &[TxPollV2]) -> Option<TxPollV2> {
    order.iter().copied().find(|event| ready.contains(event))
}

#[test]
fn fresh_transmitter_owes_no_cover() {
    let tx = TxLoopV2::new(Instant { nanos: 7 });
    assert!(tx.applied.is_none());
    assert_eq!(tx.receive_batch, 8);
    assert_eq!(tx.shaper.tokens, 0);
    assert_eq!(tx.shaper.bytes_per_second, 0);
    assert_eq!(tx.shaper.updated_at, Instant { nanos: 7 });
    assert!(!tx.shaper.active());
    assert_eq!(tx.arbiter.next(), PrioritySendTurnV2::PriorityAdmission);
    assert!(tx.deferred.is_empty());
}

#[test]
fn priority_turn_polls_a_ready_send_before_regular_ingress() {
    assert_eq!(
        ingress_ready_order(false, PrioritySendTurnV2::PriorityAdmission),
        IngressReadyOrderV2::PriorityThenSendThenRegular
    );
    let tx = TxLoopV2::new(Instant { nanos: 0 });
    let order = tx.poll_order(true, SchedulerDepth::default(), 512 * 1024, false);
    assert_eq!(
        first_ready(&order, &[TxPollV2::Regular, TxPollV2::Send]),
        Some(TxPollV2::Send)
    );
    assert_eq!(first_ready(&order, &[TxPollV2::Regular]), Some(TxPollV2::Regular));
}

#[test]
fn priority_turn_polls_a_ready_send_before_regular_command() {
    assert_eq!(
        ingress_ready_order(false, PrioritySendTurnV2::PriorityAdmission),
        IngressReadyOrderV2::PriorityThenSendThenRegular
    );
    let tx = TxLoopV2::new(Instant { nanos: 0 });
    let order = tx.poll_order(true, SchedulerDepth::default(), 512 * 1024, true);
    assert_eq!(
        first_ready(&order, &[TxPollV2::Regular, TxPollV2::Send, TxPollV2::Control]),
        Some(TxPollV2::Send)
    );
    assert_eq!(
        first_ready(&order, &[TxPollV2::Control, TxPollV2::Regular]),
        Some(TxPollV2::Regular)
    );
}

#[test]
fn transmitter_alternates_defers_and_counts() {
    let mut tx = TxLoopV2::new(Instant { nanos: 0 });
    let deep = SchedulerDepth { bulk_bytes: 600 * 1024, ..SchedulerDepth::default() };
    let order = tx.poll_order(true, deep, 512 * 1024, false);
    assert!(!order.contains(&TxPollV2::Regular));
    tx.priority_admitted();
    let order = tx.poll_order(true, SchedulerDepth::default(), 512 * 1024, false);
    assert_eq!(
        first_ready(&order, &[TxPollV2::Priority, TxPollV2::Send]),
        Some(TxPollV2::Send)
    );
    let record = |byte: u8| TunIngressRecordV2::priority(vec![byte; 100], info(false));
    tx.defer(vec![record(1), record(2), record(3)]);
    assert!(tx.next_deferred_batch(deep, 512 * 1024).is_none());
    let batch = tx.next_deferred_batch(SchedulerDepth::default(), 512 * 1024).unwrap();
    assert!(!batch.is_empty());
    assert_eq!(batch[0].bytes, vec![1; 100]);
    let progress = SendProgressV2 {
        class: Some(TrafficClass::Bulk),
        bytes: 1_200,
        cover_padding_bytes: 0,
        dropped_bytes: 5,
        dropped_datagrams: 1,
    };
    tx.sent(Some(progress), true);
    assert_eq!(tx.counters.real_tx_bytes, 1_200);
    assert_eq!(tx.counters.pmtu_drop_bytes, 5);
    let decision = TuneDecisionV2::conservative(1, AutoTuneBoundsV2::default());
    assert!(tx.tuning_changed(Some(decision), Instant { nanos: 1 }));
    assert!(!tx.tuning_changed(Some(decision), Instant { nanos: 2 }));
    assert!(!tx.tuning_changed(None, Instant { nanos: 3 }));
}

#[test]
fn ttl_oam_is_correlated_to_the_originating_trace_train() {
    let reporter = id(62);
    let nodes = vec![MeshNodeStatus {
        endpoint_id: reporter.to_text(),
        node_addresses: vec![IpNet { addr: v4(21, 0, 0, 7), prefix_len: 32 }],
    }];
    let route = route();
    let mut trains = TraceTrainsV2::default();
    let now = Instant { nanos: 1_000_000_000 };
    trains.register_trace_train(
        route,
        11,
        TraceProbeTag {
            request_id: 17,
            target: v4(21, 0, 0, 9),
        },
        now,
    );
    let oam = OamTtlExpiredV2 {
        snapshot_generation: 1,
        route_epoch: route.route_epoch,
        route_label: route.route_label,
        train_id: 11,
        cell_sequence: 0,
        ingress_hop_limit: 1,
        traversed_hops: 1,
        incoming: adjacency(1),
        reporter: reporter.bytes,
    };
    let event = trains.publish_ttl_expired(&oam, &nodes, now).unwrap();
    assert_eq!(event.request_id, 17);
    assert_eq!(event.reporter_address, v4(21, 0, 0, 7));
    assert_eq!(event.reporter.name, reporter.to_text());
    assert_eq!(event.reporter.description.as_deref(), Some("V2 overlay transit node"));
    assert_eq!(
        event.reporter.metadata,
        [
            ("endpoint_id".to_owned(), reporter.to_text()),
            ("overlay_hops".to_owned(), "1".to_owned()),
        ]
    );
    assert!(
        trains.pending.is_empty(),
        "completed trace correlation must not leak pending state"
    );
    assert!(trains.publish_ttl_expired(&oam, &nodes, now).is_none());
}

#[test]
fn path_mtu_constraints_only_reduce_the_matching_compiled_route() {
    let mut constraints = RoutePmtuConstraintsV2::default();
    let route = route();
    constraints.constrain(9, route.route_label, 1_200);
    constraints.constrain(9, route.route_label, 1_300);
    assert_eq!(constraints.apply(route).maximum_datagram_size, 1_200);

    let mut next_epoch = route;
    next_epoch.route_epoch = 10;
    assert_eq!(constraints.apply(next_epoch).maximum_datagram_size, 1_382);
}

fn labels() -> LabelTableV2 {
    LabelTableV2 {
        generation: 1,
        labels: vec![
            LabelRouteV2 {
                route_label: label(7),
                route_epoch: 9,
                action: LabelActionV2::Forward {
                    expected_ingress: adjacency(1),
                    next_hop: adjacency(2),
                },
            },
            LabelRouteV2 {
                route_label: label(8),
                route_epoch: 9,
                action: LabelActionV2::Local { expected_ingress: adjacency(2) },
            },
        ],
    }
}

#[test]
fn path_oam_uses_the_compiled_reverse_label_action() {
    let incoming = adjacency(1);
    let outgoing = adjacency(2);
    assert_eq!(relay_oam_reverse(9, label(7), outgoing, &labels()), Some(incoming));
    assert_eq!(relay_oam_reverse(9, label(7), incoming, &labels()), None);
    assert_eq!(relay_oam_reverse(10, label(7), outgoing, &labels()), None);
}

#[test]
fn relays_follow_the_label_in_both_directions() {
    assert_eq!(header_incoming_adjacency(7, 9, adjacency(2), &labels()), Ok(adjacency(1)));
    assert_eq!(
        header_incoming_adjacency(0, 9, adjacency(2), &labels()),
        Err(RelayErrorV2::ZeroLabel)
    );
    assert_eq!(
        header_incoming_adjacency(7, 9, adjacency(3), &labels()),
        Err(RelayErrorV2::NoReverseAction)
    );
    let header = CellHeaderV2 { session_epoch: 9, route_label: 7, train_id: 5, cell_sequence: 3 };
    let report = path_mtu_report(header, 1_400, 1_200, adjacency(2), &labels(), [4; 32]).unwrap();
    assert_eq!(report.incoming, adjacency(1));
    assert_eq!(report.maximum_datagram_size, 1_200);
    assert_eq!(report.train_id, 5);
    assert_eq!(
        path_mtu_report(header, 70_000, 1_200, adjacency(2), &labels(), [4; 32]).unwrap_err(),
        RelayErrorV2::ObservedSize
    );
    assert_eq!(
        path_mtu_report(header, 1_400, 70_000, adjacency(2), &labels(), [4; 32]).unwrap_err(),
        RelayErrorV2::MaximumSize
    );
    assert_eq!(
        repair_request_action(9, 7, adjacency(2), &labels()),
        Ok(RepairRequestActionV2::Relay(adjacency(1)))
    );
    assert_eq!(
        repair_request_action(9, 6, adjacency(2), &labels()),
        Ok(RepairRequestActionV2::Respond(adjacency(2)))
    );
    assert_eq!(
        repair_request_action(9, 7, adjacency(1), &labels()),
        Ok(RepairRequestActionV2::Misdirected)
    );
    assert_eq!(
        repair_response_action(9, 7, adjacency(1), &labels()),
        Ok(RepairResponseActionV2::Relay(adjacency(2)))
    );
    assert_eq!(
        repair_response_action(9, 8, adjacency(2), &labels()),
        Ok(RepairResponseActionV2::Deliver)
    );
}

#[test]
fn ticket_partition_is_stable_and_hides_network_name() {
    let first = ticket_partition_label("private-network-name", 7, 1);
    assert_eq!(first, ticket_partition_label("private-network-name", 7, 1));
    assert_ne!(first, ticket_partition_label("other-network", 7, 1));
    assert_ne!(first, ticket_partition_label("private-network-name", 8, 1));
    assert!(!first.contains("private-network-name"));
    assert!(first.ends_with(":7:1"));
    assert_eq!(first.len(), 20);
}

#[test]
fn partition_label_spells_a_digest() {
    let mut digest = [0_u8; 32];
    digest[0] = 0xab;
    digest[7] = 0x0c;
    assert_eq!(label_from_digest(&digest, 12, 345), "ab0000000000000c:12:345");
}

#[test]
fn link_figures_come_from_the_selected_paths() {
    let path = |selected: bool, local_address: Option<IpAddr>, millis: u64| PathViewV2 {
        selected,
        local_address,
        rtt: Duration::from_millis(millis),
    };
    let paths = vec![
        path(false, Some(v4(192, 0, 2, 1)), 1),
        path(true, Some(v4(192, 0, 2, 2)), 3),
        path(true, Some(v4(0, 0, 0, 0)), 4),
        path(true, None, 5),
    ];
    assert_eq!(
        selected_direct_addresses(&paths, 4000),
        [SocketAddr::new(v4(192, 0, 2, 2), 4000)]
    );
    assert!(selected_direct_addresses(&paths, 0).is_empty());
    assert_eq!(selected_path_cost(&paths), 3_000);
    assert_eq!(selected_path_cost(&Vec::new()), 1);
}

#[test]
fn mesh_needs_peers_other_than_itself() {
    let member = |byte: u8| V2PeerConfig {
        endpoint_id: id(byte),
        addresses: Vec::new(),
        derp_public_key: None,
    };
    let peers = vec![member(2), member(3)];
    assert_eq!(check_mesh_peers(&peers, &id(1)), Ok(()));
    assert_eq!(check_mesh_peers(&peers, &id(3)), Err(MeshStartErrorV2::LocalPeer));
    assert_eq!(check_adjacencies(0), Err(MeshStartErrorV2::NoAdjacency));
    assert_eq!(check_adjacencies(2), Ok(()));
    assert_eq!(mesh_member_limit(&peers), 3);
    assert_eq!(mesh_member_limit(&vec![member(2), member(3), member(2)]), 3);
}

fn adjacency_view(byte: u8, closed: bool) -> AdjacencyViewV2 {
    AdjacencyViewV2 {
        remote_id: id(byte),
        paths: vec![PathViewV2 {
            selected: true,
            local_address: Some(v4(192, 0, 2, byte)),
            rtt: Duration::from_millis(u64::from(byte)),
        }],
        live_datagram_size: Some(1_100),
        negotiated_datagram_size: 1_382,
        closed,
    }
}

#[test]
fn presence_follows_its_adjacencies() {
    let bind = SocketAddr::new(IpAddr::V6(0), 4000);
    let adjacencies = vec![adjacency_view(3, false), adjacency_view(2, false)];
    let mut body = initial_presence(
        id(1),
        1_000,
        &adjacencies,
        bind,
        8,
        v4(21, 0, 0, 1),
        IpAddr::V6(1),
        &vec![IpNet { addr: v4(10, 8, 0, 0), prefix_len: 16 }],
        true,
    );
    assert_eq!(body.sequence, 1);
    assert_eq!(body.expires_unix_secs, 1_180);
    assert_eq!(
        body.direct_addresses,
        [
            SocketAddr::new(v4(192, 0, 2, 2), 4000),
            SocketAddr::new(v4(192, 0, 2, 3), 4000),
        ]
    );
    assert_eq!(body.links.len(), 2);
    assert_eq!(body.links[0].maximum_datagram_size, 1_382);
    assert_eq!(body.links[0].cost, 3_000);
    let changed = vec![adjacency_view(3, true), adjacency_view(2, false)];
    assert!(refresh_local_presence_paths(&mut body, &changed, bind, 1));
    assert!(!body.links[0].healthy);
    assert_eq!(body.direct_addresses.len(), 1);
    renew_presence(&mut body, 1_060).unwrap();
    assert_eq!(body.sequence, 2);
    assert_eq!(body.expires_unix_secs, 1_240);
    body.sequence = u64::MAX;
    assert_eq!(renew_presence(&mut body, 2_000), Err(PresenceErrorV2::SequenceOverflow));
}

#[test]
fn presence_updates_gossip_and_recompile() {
    let all = vec![adjacency(1), adjacency(2), adjacency(3)];
    assert_eq!(
        presence_gossip(PresenceUpdateV2::Inserted, Some(adjacency(2)), &all),
        [adjacency(1), adjacency(3)]
    );
    assert!(presence_gossip(PresenceUpdateV2::Stale, None, &all).is_empty());
    let mut generation = 1;
    assert_eq!(
        mesh_presence_step(PresenceUpdateV2::Replaced, &mut generation),
        Ok(PresenceStepV2::Recompile { generation: 2, route_epoch: 2 })
    );
    assert_eq!(
        mesh_presence_step(PresenceUpdateV2::Renewed, &mut generation),
        Ok(PresenceStepV2::PublishDirectory)
    );
    assert_eq!(
        mesh_presence_step(PresenceUpdateV2::Duplicate, &mut generation),
        Ok(PresenceStepV2::Ignore)
    );
    let mut last = u64::from(u32::MAX);
    assert_eq!(
        mesh_presence_step(PresenceUpdateV2::Inserted, &mut last),
        Err(PresenceErrorV2::RouteEpochExhausted)
    );
    let mut end = u64::MAX;
    assert_eq!(
        mesh_presence_step(PresenceUpdateV2::Inserted, &mut end),
        Err(PresenceErrorV2::GenerationOverflow)
    );
    assert_eq!(
        peer_presence_step(PresenceUpdateV2::Inserted, &mut end),
        PresenceStepV2::Recompile { generation: 2, route_epoch: 2 }
    );
    let mut wide = u64::from(u32::MAX);
    assert_eq!(
        peer_presence_step(PresenceUpdateV2::Inserted, &mut wide),
        PresenceStepV2::Recompile { generation: 1 << 32, route_epoch: 1 }
    );
}

#[test]
fn learned_prefixes_are_distinct_and_foreign() {
    let net = |third: u8| IpNet { addr: v4(10, 0, third, 0), prefix_len: 24 };
    let record = |byte: u8, prefixes: Vec<IpNet>| PresenceRecordV2 {
        owner: id(byte),
        node_addresses: vec![IpNet { addr: v4(21, 0, 0, byte), prefix_len: 32 }],
        prefixes,
    };
    let learned = learned_prefixes(
        &vec![record(1, vec![net(9)]), record(2, vec![net(4), net(3)]), record(3, vec![net(3)])],
        &id(1),
    );
    assert_eq!(
        learned,
        [
            net(3),
            net(4),
            IpNet { addr: v4(21, 0, 0, 2), prefix_len: 32 },
            IpNet { addr: v4(21, 0, 0, 3), prefix_len: 32 },
        ]
    );
}

fn completed(metadata: Vec<u8>, total_len: usize) -> CompletedRecordV2 {
    CompletedRecordV2 { metadata, total_len, fragments: vec![vec![0; total_len]] }
}

#[test]
fn received_datagrams_are_counted_kept_or_refused() {
    let mut batch = PeerRxBatchV2 {
        records: Vec::new(),
        cover_rx_bytes: 0,
        protocol_errors: 0,
        route_gate_drops: 0,
    };
    batch.receive(PeerDatagramV2::Cover { length: 40 }).unwrap();
    batch.receive(PeerDatagramV2::Malformed).unwrap();
    batch.receive(PeerDatagramV2::Dropped).unwrap();
    batch
        .receive(PeerDatagramV2::Local { records: vec![completed(Vec::new(), 10), completed(vec![1], 5)] })
        .unwrap();
    assert_eq!(batch.receive(PeerDatagramV2::Transit), Err(PeerRxErrorV2::TransitCell));
    assert_eq!(batch.receive(PeerDatagramV2::TtlExpired), Err(PeerRxErrorV2::TransitTtl));
    assert_eq!(batch.cover_rx_bytes, 40);
    assert_eq!(batch.protocol_errors, 1);
    assert_eq!(batch.route_gate_drops, 1);
    let write = split_reassembled(batch.records);
    assert_eq!(write.ordinary.len(), 1);
    assert_eq!(write.offloaded.len(), 1);
    assert_eq!(write.packets, 2);
    assert_eq!(write.bytes, 15);
    assert_eq!(next_feedback_sequence(u64::MAX), 1);
    assert_eq!(next_feedback_sequence(4), 5);
    let current = ReceiveBudgetV2 {
        reassembly_budget_bytes: 10,
        active_train_budget: 4,
        buffered_bytes: 8,
    };
    let change = receive_budget_change(
        current,
        ReceiveBudgetV2 { active_train_budget: 5, buffered_bytes: 0, ..current },
    );
    assert_eq!(change.reassembly, Some((10, 5)));
    assert_eq!(change.buffered, None);
    let change = receive_budget_change(current, ReceiveBudgetV2 { buffered_bytes: 9, ..current });
    assert_eq!(change.reassembly, None);
    assert_eq!(change.buffered, Some(9));
}

#[test]
fn transit_cells_are_grouped_by_their_train() {
    let key = |train_id: u64, next_hop: u32| ForwardKeyV2 {
        next_hop: adjacency(next_hop),
        class: TrafficClass::Bulk,
        session_epoch: 1,
        route_label: 7,
        train_id,
    };
    let live = vec![adjacency(1), adjacency(2)];
    let mut batch = TransitBatchV2::new(0, 0, 0);
    for (train, cell) in [(1, 10), (2, 20), (1, 11)] {
        let sent = batch
            .receive(MeshDatagramResultV2::Forward { key: key(train, 2), cell: vec![cell] }, &live)
            .unwrap();
        assert!(sent.is_none());
    }
    let report = batch
        .receive(
            MeshDatagramResultV2::TtlExpired { incoming: adjacency(1), report: vec![9] },
            &live,
        )
        .unwrap()
        .unwrap();
    assert_eq!(report.adjacency, adjacency(1));
    assert_eq!(
        batch
            .receive(
                MeshDatagramResultV2::TtlExpired { incoming: adjacency(5), report: vec![9] },
                &live,
            )
            .unwrap_err(),
        TransitErrorV2::ReverseDisconnected
    );
    batch.receive(MeshDatagramResultV2::Cover { length: 3 }, &live).unwrap();
    assert_eq!(batch.cover_rx_bytes, 3);
    let (sends, local) = batch.forward(&live).unwrap();
    assert!(local.is_empty());
    assert_eq!(sends.len(), 2);
    assert_eq!(sends[0].cells, [vec![10], vec![11]]);
    assert_eq!(sends[1].cells, [vec![20]]);
    let mut gone = TransitBatchV2::new(0, 0, 0);
    gone.receive(MeshDatagramResultV2::Forward { key: key(1, 7), cell: vec![1] }, &live)
        .unwrap();
    assert_eq!(gone.forward(&live).unwrap_err(), TransitErrorV2::NextHopDisconnected);
}

fn info(latency_protected: bool) -> PacketInfo {
    PacketInfo {
        source: v4(192, 0, 2, 1),
        destination: v4(198, 51, 100, 2),
        protocol: 6,
        source_port: Some(40_000),
        destination_port: Some(5_201),
        length: 90,
        latency_protected,
    }
}

fn record(byte: u8) -> EncodedRecordV2 {
    EncodedRecordV2 { metadata: Vec::new(), data: vec![byte], gso: GsoObservationV2::default() }
}

#[test]
fn mesh_ingress_groups_packets_by_route_flow_and_class() {
    let constraints = RoutePmtuConstraintsV2::default();
    let live = vec![adjacency(1)];
    let mut ingress = MeshIngressV2::new();
    let packet = |byte: u8, class: TrafficClass| MeshPacketV2 {
        info: info(false),
        packet_len: 100,
        flow_id: 5,
        hop_limit: 64,
        class,
        trace_probe: None,
        reader_gso: GsoObservationV2::default(),
        permits: 100,
        route: Some(route()),
        record: Some(record(byte)),
    };
    let now = Duration::from_secs(1);
    ingress.dispatch(packet(1, TrafficClass::Bulk), now, 1, &constraints, &live);
    ingress.dispatch(packet(2, TrafficClass::Latency), now, 1, &constraints, &live);
    ingress.dispatch(packet(3, TrafficClass::Bulk), now, 1, &constraints, &live);
    let (flows, trains, counters) = ingress.finish_batch(false);
    assert_eq!(flows.len(), 1);
    let trains = trains.unwrap();
    assert_eq!(trains.len(), 2);
    assert_eq!(trains[0].records.len(), 2);
    assert_eq!(trains[0].records[1].record_id, 2);
    assert_eq!(trains[0].records[1].data, [3]);
    assert_eq!(trains[0].ingress_permits, [100, 100]);
    assert!(!trains[0].priority);
    assert_eq!(counters.len(), 1);
    assert_eq!(counters[0].batch.packets, 3);
    assert_eq!(counters[0].batch.bytes, 300);
}

#[test]
fn packets_that_are_not_forwarded_leave_no_flow() {
    let constraints = RoutePmtuConstraintsV2::default();
    let live = vec![adjacency(1)];
    let mut ingress = MeshIngressV2::new();
    let now = Duration::from_secs(1);
    let multicast = PacketInfo { destination: v4(224, 0, 0, 5), ..info(false) };
    let mut offer = |info: PacketInfo, hop_limit: u8, route: Option<ResolvedRouteV2>| {
        ingress.route_packet(info, hop_limit, now, 1, route, &constraints)
    };
    assert_eq!(offer(multicast, 64, Some(route())), None);
    assert_eq!(offer(info(false), 0, Some(route())), None);
    assert_eq!(offer(info(false), 64, None), None);
    assert_eq!(offer(info(false), 1, Some(route())), Some(route()));
    assert_eq!(ingress.flows.len(), 1);
    let packet = MeshPacketV2 {
        info: info(false),
        packet_len: 100,
        flow_id: 5,
        hop_limit: 1,
        class: TrafficClass::Bulk,
        trace_probe: None,
        reader_gso: GsoObservationV2::default(),
        permits: 100,
        route: None,
        record: Some(record(1)),
    };
    ingress.take_routed(packet, route(), &live);
    let (_, trains, counters) = ingress.finish_batch(false);
    assert_eq!(trains.unwrap()[0].key.route, route());
    assert_eq!(counters[0].batch.packets, 1);
}

#[test]
fn flow_leases_follow_the_snapshot_and_the_constraints() {
    let mut constraints = RoutePmtuConstraintsV2::default();
    let mut ingress = MeshIngressV2::new();
    let key = FlowKey {
        source: v4(192, 0, 2, 1),
        destination: v4(198, 51, 100, 2),
        protocol: 6,
        source_port: None,
        destination_port: None,
    };
    let now = Duration::from_secs(1);
    assert_eq!(ingress.route_flow(key, now, 1, None, &constraints), None);
    assert_eq!(ingress.route_flow(key, now, 1, Some(route()), &constraints), Some(route()));
    constraints.constrain(9, label(7), 1_200);
    let constrained = ResolvedRouteV2 { maximum_datagram_size: 1_200, ..route() };
    assert_eq!(ingress.route_flow(key, now, 1, Some(route()), &constraints), Some(constrained));
}

#[test]
fn priority_lane_batches_are_taken_in_order() {
    let mut pending: VecDeque<TunIngressRecordV2> = (0..3)
        .map(|byte| TunIngressRecordV2::priority(vec![byte; 10], info(true)))
        .collect();
    let batch = next_lane_batch(&mut pending, true);
    assert!(!batch.is_empty());
    assert_eq!(batch[0].bytes, vec![0; 10]);
    assert_eq!(batch.len() + pending.len(), 3);
}

#[test]
fn peer_ingress_numbers_the_records_of_each_train() {
    let key = |flow: u64| PeerTrainKeyV2 {
        flow_id: flow,
        class: TrafficClass::Bulk,
        overlay_hop_limit: 64,
    };
    let mut ingress = PeerIngressV2::new();
    for (flow, byte) in [(1, 1), (2, 2), (1, 3)] {
        ingress.take_packet(PeerPacketV2 {
            key: key(flow),
            packet_len: 10,
            reader_gso: GsoObservationV2::default(),
            record: Some(record(byte)),
        });
    }
    ingress.take_packet(PeerPacketV2 {
        key: key(3),
        packet_len: 10,
        reader_gso: GsoObservationV2::default(),
        record: None,
    });
    let trains: Result<_, IngressErrorV2> = ingress.into_trains();
    let trains = trains.unwrap();
    assert_eq!(trains.len(), 2);
    assert_eq!(trains[0].records.len(), 2);
    assert_eq!(trains[0].records[0].record_id, 1);
    assert_eq!(trains[0].records[1].data, [3]);
}

#[test]
fn flows_have_stable_numbers_and_expire() {
    let key = |port: u16| FlowKey {
        source: v4(192, 0, 2, 1),
        destination: v4(198, 51, 100, 2),
        protocol: 6,
        source_port: Some(port),
        destination_port: Some(443),
    };
    assert_eq!(flow_id(key(1)), flow_id(key(1)));
    assert_ne!(flow_id(key(1)), flow_id(key(2)));
    assert_eq!(flow_id_from_hash(0), 1);
    assert_eq!(flow_id_from_hash(9), 9);
    let mut table = FlowTableV2 { flows: Vec::new() };
    assert!(table.touch(key(1), Duration::from_secs(1)));
    assert!(!table.touch(key(1), Duration::from_secs(2)));
    assert!(table.touch(key(2), Duration::from_secs(2)));
}

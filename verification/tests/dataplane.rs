use std::collections::VecDeque;

use ironet::dataplane::ingress::TunIngressBatchV2;
use ironet::dataplane::tun::{
    inherit_aggregate_latency_class, normalized_tun_gso_header, should_split_tun_gso_record,
    tun_gso_fallback_observation, tun_record_exceeds_mtu, TunAdmissionErrorV2, TunLanesV2,
    TunReadOutcomeV2, TunSegmentV2, VirtioNetHdr, RAW_TUN_BYTES, SPLIT_SLOTS,
    VIRTIO_NET_HDR_GSO_ECN, VIRTIO_NET_HDR_GSO_NONE, VIRTIO_NET_HDR_GSO_TCPV4,
    VIRTIO_NET_HDR_GSO_TCPV6, VIRTIO_NET_HDR_GSO_UDP_L4, VIRTIO_NET_HDR_LEN,
};
use ironet::dataplane::{
    adaptive_repair_minimum_age, admission_headroom, admission_saturated, drain_tun_ingress_batch,
    effective_tx_tuning, ingress_ready_order, repair_minimum_age_for_rtt, retune_required,
    tx_admission_high_water, CoverShaperV2, GsoObservationV2, IngressReadyOrderV2,
    PrioritySendArbiterV2, PrioritySendTurnV2, SchedulerDepth, SchedulerLimits,
    TunIngressRecordV2, MAX_SENDS_BETWEEN_PRIORITY_ADMISSIONS, TUN_REGULAR_INPUT_BYTES,
    TX_ADMISSION_BATCH_BYTES, TX_APPLICATION_ADMISSION_HIGH_WATER_BYTES,
    TX_BULK_ADMISSION_HIGH_WATER_BYTES, TX_LATENCY_ADMISSION_HIGH_WATER_BYTES,
};
use ironet::net::{IpAddr, PacketInfo};
use ironet::time::{Duration, Instant};
use ironet::tuning::{
    AutoTuneBoundsV2, CoverTrafficProfileV2, RepairWaitPolicyV2, TuneDecisionV2,
};

fn v4(a: u8, b: u8, c: u8, d: u8) -> IpAddr {
    IpAddr::V4(u32::from_be_bytes([a, b, c, d]))
}

fn test_packet_info() -> PacketInfo {
    PacketInfo {
        source: v4(192, 0, 2, 1),
        destination: v4(198, 51, 100, 2),
        protocol: 6,
        source_port: Some(40_000),
        destination_port: Some(5201),
        length: 90,
        latency_protected: false,
    }
}

/// What the headers of a TCP packet over IPv4 say; a FIN is latency traffic.
fn inspect(packet: &[u8]) -> PacketInfo {
    PacketInfo {
        source: v4(packet[12], packet[13], packet[14], packet[15]),
        destination: v4(packet[16], packet[17], packet[18], packet[19]),
        protocol: packet[9],
        source_port: Some(u16::from_be_bytes([packet[20], packet[21]])),
        destination_port: Some(u16::from_be_bytes([packet[22], packet[23]])),
        length: packet.len(),
        latency_protected: packet[33] & 0x01 != 0,
    }
}

#[test]
fn ordinary_tun_merge_budget_is_globally_byte_bounded() {
    assert_eq!(TUN_REGULAR_INPUT_BYTES, 512 * 1024);
}

#[test]
fn header_constants_are_those_of_the_tun_driver() {
    assert_eq!(VIRTIO_NET_HDR_LEN, tun_rs::VIRTIO_NET_HDR_LEN);
    assert_eq!(SPLIT_SLOTS, tun_rs::IDEAL_BATCH_SIZE);
    assert_eq!(VIRTIO_NET_HDR_GSO_TCPV4, tun_rs::VIRTIO_NET_HDR_GSO_TCPV4);
    assert_eq!(VIRTIO_NET_HDR_GSO_TCPV6, tun_rs::VIRTIO_NET_HDR_GSO_TCPV6);
    assert_eq!(VIRTIO_NET_HDR_GSO_UDP_L4, tun_rs::VIRTIO_NET_HDR_GSO_UDP_L4);
}

#[test]
fn tun_gso_split_is_bounded_by_mtu_and_admission_pressure() {
    const MTU: u16 = 32 * 1024;
    let at_mtu = VIRTIO_NET_HDR_LEN + usize::from(MTU);
    let tcpv4 = tun_rs::VIRTIO_NET_HDR_GSO_TCPV4;

    assert!(!tun_record_exceeds_mtu(at_mtu, MTU));
    assert!(tun_record_exceeds_mtu(at_mtu + 1, MTU));
    assert!(!should_split_tun_gso_record(at_mtu, MTU, tcpv4, false));
    assert!(should_split_tun_gso_record(at_mtu + 1, MTU, tcpv4, false));
    assert!(should_split_tun_gso_record(at_mtu, MTU, tcpv4, true));
    assert!(!should_split_tun_gso_record(
        at_mtu + 1,
        MTU,
        VIRTIO_NET_HDR_GSO_NONE,
        false
    ));
    assert!(!should_split_tun_gso_record(
        at_mtu,
        MTU,
        VIRTIO_NET_HDR_GSO_NONE,
        true
    ));
}

fn tcpv4_gso_packet(payload_len: usize, tcp_flags: u8) -> Vec<u8> {
    const IP_HEADER_LEN: usize = 20;
    const TCP_HEADER_LEN: usize = 20;
    let packet_len = IP_HEADER_LEN + TCP_HEADER_LEN + payload_len;
    let mut packet = vec![0_u8; packet_len];
    packet[0] = 0x45;
    packet[2..4].copy_from_slice(&(packet_len as u16).to_be_bytes());
    packet[8] = 64;
    packet[9] = 6;
    packet[12..16].copy_from_slice(&[192, 0, 2, 1]);
    packet[16..20].copy_from_slice(&[198, 51, 100, 2]);
    packet[20..22].copy_from_slice(&40_000_u16.to_be_bytes());
    packet[22..24].copy_from_slice(&5_201_u16.to_be_bytes());
    packet[32] = 5 << 4;
    packet[33] = tcp_flags;
    packet
}

#[test]
fn ecn_tcp_gso_is_normalized_split_and_kept_in_one_lane() {
    const TCP_FIN_ACK: u8 = 0x11;
    let mut packet = tcpv4_gso_packet(3_000, TCP_FIN_ACK);
    let aggregate_info = inspect(&packet);
    assert!(aggregate_info.latency_protected);

    let header = VirtioNetHdr {
        flags: 1,
        gso_type: VIRTIO_NET_HDR_GSO_TCPV4 | VIRTIO_NET_HDR_GSO_ECN,
        hdr_len: 40,
        gso_size: 1_200,
        csum_start: 20,
        csum_offset: 16,
    };
    let normalized = normalized_tun_gso_header(header).unwrap();
    assert_eq!(normalized.gso_type, VIRTIO_NET_HDR_GSO_TCPV4);

    let mut outputs = vec![vec![0_u8; 1_500]; 4];
    let mut sizes = vec![0_usize; outputs.len()];
    let segments = tun_rs::gso_split(
        &mut packet,
        tun_rs::VirtioNetHdr {
            flags: normalized.flags,
            gso_type: normalized.gso_type,
            hdr_len: normalized.hdr_len,
            gso_size: normalized.gso_size,
            csum_start: normalized.csum_start,
            csum_offset: normalized.csum_offset,
        },
        &mut outputs,
        &mut sizes,
        0,
        false,
    )
    .unwrap();
    assert_eq!(segments, 3);

    let independently_classified = outputs
        .iter()
        .zip(&sizes)
        .take(segments)
        .map(|(packet, &len)| inspect(&packet[..len]))
        .collect::<Vec<_>>();
    assert!(!independently_classified[0].latency_protected);
    assert!(independently_classified[segments - 1].latency_protected);
    assert!(independently_classified
        .into_iter()
        .map(|info| inherit_aggregate_latency_class(info, aggregate_info.latency_protected))
        .all(|info| info.latency_protected));
}

fn raw_aggregate(header: VirtioNetHdr, packet: Vec<u8>) -> Vec<u8> {
    let mut raw = vec![header.flags, header.gso_type];
    raw.extend_from_slice(&header.hdr_len.to_ne_bytes());
    raw.extend_from_slice(&header.gso_size.to_ne_bytes());
    raw.extend_from_slice(&header.csum_start.to_ne_bytes());
    raw.extend_from_slice(&header.csum_offset.to_ne_bytes());
    raw.extend_from_slice(&packet);
    raw
}

#[test]
fn oversized_aggregate_is_split_into_raw_records_with_its_payload_in_order() {
    let mut packet = tcpv4_gso_packet(3_000, 0x10);
    for (index, byte) in packet[40..].iter_mut().enumerate() {
        *byte = (index % 251) as u8;
    }
    let payload = packet[40..].to_vec();
    let info = inspect(&packet);
    let raw = raw_aggregate(
        VirtioNetHdr {
            flags: 1,
            gso_type: VIRTIO_NET_HDR_GSO_TCPV4 | VIRTIO_NET_HDR_GSO_ECN,
            hdr_len: 40,
            gso_size: 1_200,
            csum_start: 20,
            csum_offset: 16,
        },
        packet,
    );
    let mut lanes = TunLanesV2::new(8, 1 << 20);
    let outcome = lanes.read_record(raw, info, 1_280).unwrap();
    let (records, gso, latency_protected) = match outcome {
        TunReadOutcomeV2::Split { records, gso, latency_protected } => {
            (records, gso, latency_protected)
        }
        other => panic!("{other:?}"),
    };
    assert!(!latency_protected);
    assert_eq!(gso, tun_gso_fallback_observation(3_040));
    assert_eq!(records.len(), 3);
    let lengths: Vec<usize> = records.iter().map(Vec::len).collect();
    assert_eq!(lengths, [1_250, 1_250, 650]);
    let joined: Vec<u8> = records
        .iter()
        .flat_map(|record| record[VIRTIO_NET_HDR_LEN + 40..].to_vec())
        .collect();
    assert_eq!(joined, payload);
    assert!(records
        .iter()
        .all(|record| record[..VIRTIO_NET_HDR_LEN].iter().all(|byte| *byte == 0)));
    assert_eq!(lanes.counters.tun_tx_packets, 1);
    assert_eq!(lanes.regular.len(), 0);

    let segments: VecDeque<TunSegmentV2> = records
        .into_iter()
        .map(|record| TunSegmentV2 {
            info: Some(inspect(&record[VIRTIO_NET_HDR_LEN..])),
            record,
        })
        .collect();
    let left = lanes.admit_segments(segments, latency_protected, gso).unwrap();
    assert_eq!(left, GsoObservationV2::default());
    assert_eq!(lanes.regular.len(), 3);
    assert_eq!(lanes.regular[0].gso, gso);
    assert_eq!(lanes.regular[1].gso, GsoObservationV2::default());
    assert_eq!(lanes.counters.tun_tx_packets, 4);
}

#[test]
fn short_and_unreadable_records_are_told_apart() {
    let mut lanes = TunLanesV2::new(1, 4_096);
    assert!(matches!(
        lanes.read_record(vec![0; VIRTIO_NET_HDR_LEN], test_packet_info(), 1_280),
        Ok(TunReadOutcomeV2::Truncated)
    ));
    let mut unknown = vec![0; VIRTIO_NET_HDR_LEN + 2_000];
    unknown[1] = 0x7f;
    assert!(matches!(
        lanes.read_record(unknown, test_packet_info(), 1_280),
        Ok(TunReadOutcomeV2::UnknownGsoType { gso_type: 0x7f })
    ));
    assert_eq!(lanes.counters.protocol_datagram_errors, 1);
    let mut broken = vec![0; VIRTIO_NET_HDR_LEN + 2_000];
    broken[1] = VIRTIO_NET_HDR_GSO_TCPV4;
    assert!(matches!(
        lanes.read_record(broken, test_packet_info(), 1_280),
        Ok(TunReadOutcomeV2::SplitFailed { gso_type: VIRTIO_NET_HDR_GSO_TCPV4 })
    ));
    assert_eq!(lanes.counters.protocol_datagram_errors, 2);
    assert!(matches!(
        lanes.read_record(vec![0; 200], test_packet_info(), 1_280),
        Ok(TunReadOutcomeV2::Whole { admitted: true })
    ));
    assert!(matches!(
        lanes.read_record(vec![0; 200], test_packet_info(), 1_280),
        Ok(TunReadOutcomeV2::Whole { admitted: false })
    ));
    lanes.regular_open = false;
    assert_eq!(
        lanes.try_admit_regular_tun_record(vec![0; 10], test_packet_info()),
        Err(TunAdmissionErrorV2::TxStopped)
    );
}

#[test]
fn unsupported_gso_type_is_rejected_and_counted_once() {
    let header = VirtioNetHdr {
        gso_type: 0x7f,
        ..VirtioNetHdr::default()
    };
    assert!(normalized_tun_gso_header(header).is_none());
    assert_eq!(
        normalized_tun_gso_header(VirtioNetHdr {
            gso_type: VIRTIO_NET_HDR_GSO_TCPV6 | VIRTIO_NET_HDR_GSO_ECN,
            ..VirtioNetHdr::default()
        })
        .unwrap()
        .gso_type,
        VIRTIO_NET_HDR_GSO_TCPV6
    );

    let mut lanes = TunLanesV2::new(1, 100);
    lanes.record_invalid();
    assert_eq!(lanes.counters.protocol_datagram_errors, 1);
}

#[test]
fn reader_gso_split_metrics_fill_the_pre_admission_observation_gap() {
    let observation = tun_gso_fallback_observation(60_000);
    let record = TunIngressRecordV2::priority(Vec::new(), test_packet_info())
        .with_gso_observation(observation);
    let mut batch = TunIngressBatchV2::new();
    batch.observe(1_200, record.gso);
    assert_eq!(batch.gso.input_bytes, 60_000);
    assert_eq!(batch.gso.preserved_bytes, 0);
    assert_eq!(batch.gso.fallback_splits, 1);
}

#[test]
fn split_gso_observation_follows_the_first_successful_regular_admission() {
    let mut lanes = TunLanesV2::new(1, 100);
    lanes.budget = 0;
    let observation = tun_gso_fallback_observation(60_000);

    assert!(!lanes
        .try_admit_regular_tun_record_observed(vec![1; 100], test_packet_info(), observation)
        .unwrap());
    lanes.budget = 100;
    assert!(lanes
        .try_admit_regular_tun_record_observed(vec![2; 100], test_packet_info(), observation)
        .unwrap());
    assert_eq!(lanes.regular.pop_front().unwrap().gso, observation);
}

#[test]
fn merge_burst_budget_does_not_raise_per_adjacency_scheduler_watermarks() {
    assert_eq!(TUN_REGULAR_INPUT_BYTES, 512 * 1024);
    assert_eq!(TX_BULK_ADMISSION_HIGH_WATER_BYTES, 512 * 1024);
    assert_eq!(TX_APPLICATION_ADMISSION_HIGH_WATER_BYTES, 512 * 1024);
}

#[test]
fn repair_wait_policy_scales_the_adaptive_minimum_age() {
    let host_default = RepairWaitPolicyV2::HostDefault.to_metrics_code();
    assert_eq!(
        adaptive_repair_minimum_age(200_000, host_default),
        Duration::from_millis(200)
    );
    assert_eq!(
        adaptive_repair_minimum_age(200_000, RepairWaitPolicyV2::Eager.to_metrics_code()),
        Duration::from_millis(100)
    );
    assert_eq!(
        adaptive_repair_minimum_age(200_000, RepairWaitPolicyV2::AfterFecWindow.to_metrics_code()),
        Duration::from_millis(200)
    );
    assert_eq!(
        adaptive_repair_minimum_age(200_000, RepairWaitPolicyV2::Patient.to_metrics_code()),
        Duration::from_millis(400)
    );
    // Patient is capped so Repair stays responsive after migration.
    assert_eq!(
        adaptive_repair_minimum_age(1_000_000, RepairWaitPolicyV2::Patient.to_metrics_code()),
        Duration::from_secs(2)
    );
    // Unknown codes degrade to the host default.
    assert_eq!(
        adaptive_repair_minimum_age(1_000_000, 99),
        Duration::from_secs(1)
    );
}

#[test]
fn admission_batch_preserves_records_and_obeys_both_bounds() {
    let mut pending = VecDeque::from([
        TunIngressRecordV2::priority(vec![1; 100], test_packet_info()),
        TunIngressRecordV2::priority(vec![2; 100], test_packet_info()),
        TunIngressRecordV2::priority(vec![3; 100], test_packet_info()),
    ]);
    let first = drain_tun_ingress_batch(&mut pending, 8, 210);
    assert_eq!(first.len(), 2);
    assert_eq!(
        first.iter().map(TunIngressRecordV2::len).sum::<usize>(),
        200
    );
    assert_eq!(pending.len(), 1);

    let second = drain_tun_ingress_batch(&mut pending, 1, 0);
    assert_eq!(second.len(), 1, "the head record must always make progress");
    assert!(pending.is_empty());
}

#[test]
fn tun_ingress_byte_budget_is_held_until_dispatch_consumes_records() {
    let mut lanes = TunLanesV2::new(2, 200);
    lanes
        .try_admit_regular_tun_record(vec![1; 100], test_packet_info())
        .unwrap();
    lanes
        .try_admit_regular_tun_record(vec![2; 100], test_packet_info())
        .unwrap();
    assert_eq!(lanes.budget, 0);
    assert!(!lanes.regular_ready(1));

    let first = drain_tun_ingress_batch(&mut lanes.regular, 1, 100);
    assert_eq!(first.len(), 1);
    assert_eq!(lanes.budget, 0);
    assert_eq!(lanes.regular.len(), 1);

    lanes.release(&first[0]);
    assert_eq!(lanes.budget, 100);
    let second = drain_tun_ingress_batch(&mut lanes.regular, 1, 100);
    assert_eq!(second.len(), 1);
    assert_eq!(lanes.budget, 100);
    lanes.release(&second[0]);
    assert_eq!(lanes.budget, 200);
}

#[test]
fn regular_tun_admission_sheds_overload_without_blocking_priority_reads() {
    let mut lanes = TunLanesV2::new(1, 100);
    lanes.budget = 0;
    lanes
        .try_admit_regular_tun_record(vec![1; 100], test_packet_info())
        .unwrap();
    assert!(lanes.regular.is_empty());
    assert_eq!(lanes.counters.tun_admission_drop_records, 1);
    assert_eq!(lanes.counters.tun_admission_drop_bytes, 100);
    let urgent = PacketInfo { latency_protected: true, ..test_packet_info() };
    assert!(matches!(
        lanes.read_record(vec![0; 100], urgent, 1_280),
        Ok(TunReadOutcomeV2::Whole { admitted: true })
    ));
    assert_eq!(lanes.priority.len(), 1);

    lanes.budget = 100;
    lanes
        .try_admit_regular_tun_record(vec![2; 100], test_packet_info())
        .unwrap();
    let admitted = lanes.regular.pop_front().unwrap();
    assert_eq!(lanes.budget, 0);
    lanes.release(&admitted);
    assert_eq!(lanes.budget, 100);
}

#[test]
fn priority_ready_race_forces_a_send_after_each_priority_admission() {
    let mut arbiter = PrioritySendArbiterV2::default();
    for _ in 0..8 {
        assert_eq!(arbiter.next(), PrioritySendTurnV2::PriorityAdmission);
        arbiter.admitted_priority();
        assert_eq!(arbiter.next(), PrioritySendTurnV2::Send);
        for _ in 0..MAX_SENDS_BETWEEN_PRIORITY_ADMISSIONS {
            arbiter.completed_send();
        }
    }
}

#[test]
fn send_ready_race_forces_a_priority_admission_after_a_bounded_send_burst() {
    let mut arbiter = PrioritySendArbiterV2::default();
    arbiter.admitted_priority();
    let sends_before_boundary = MAX_SENDS_BETWEEN_PRIORITY_ADMISSIONS.saturating_sub(1);
    for _ in 0..sends_before_boundary {
        assert_eq!(arbiter.next(), PrioritySendTurnV2::Send);
        arbiter.completed_send();
    }
    assert_eq!(arbiter.next(), PrioritySendTurnV2::Send);
    arbiter.completed_send();
    assert_eq!(arbiter.next(), PrioritySendTurnV2::PriorityAdmission);
}

#[test]
fn ingress_ready_order_preserves_priority_and_regular_ready_races() {
    assert_eq!(
        ingress_ready_order(true, PrioritySendTurnV2::PriorityAdmission),
        IngressReadyOrderV2::PriorityThenSend
    );
    assert_eq!(
        ingress_ready_order(true, PrioritySendTurnV2::Send),
        IngressReadyOrderV2::SendThenPriority
    );
    assert_eq!(
        ingress_ready_order(false, PrioritySendTurnV2::PriorityAdmission),
        IngressReadyOrderV2::PriorityThenSendThenRegular
    );
    assert_eq!(
        ingress_ready_order(false, PrioritySendTurnV2::Send),
        IngressReadyOrderV2::SendThenPriorityThenRegular
    );
}

#[test]
fn repair_grace_tracks_rtt_with_conservative_bounds() {
    assert_eq!(
        repair_minimum_age_for_rtt(Duration::from_millis(1)),
        Duration::from_millis(50)
    );
    assert_eq!(
        repair_minimum_age_for_rtt(Duration::from_millis(13)),
        Duration::from_millis(104)
    );
    assert_eq!(
        repair_minimum_age_for_rtt(Duration::from_secs(1)),
        Duration::from_secs(1)
    );
}

#[test]
fn mixed_scheduler_depth_respects_the_shared_application_watermark() {
    let application_headroom = SchedulerLimits::default()
        .application_bytes
        .saturating_sub(TX_APPLICATION_ADMISSION_HIGH_WATER_BYTES);
    let maximum_fec_expanded_batch = TX_ADMISSION_BATCH_BYTES
        .saturating_add(RAW_TUN_BYTES)
        .saturating_mul(3)
        / 2;
    assert!(
        application_headroom >= maximum_fec_expanded_batch.saturating_add(64 * 1024),
        "shared headroom must cover one overshooting GSO record, strongest automatic FEC, and Cell envelopes"
    );

    let mixed = SchedulerDepth {
        bulk_bytes: TX_BULK_ADMISSION_HIGH_WATER_BYTES - 64 * 1024,
        latency_bytes: 96 * 1024,
        ..SchedulerDepth::default()
    };
    assert!(
        mixed.bulk_bytes < TX_BULK_ADMISSION_HIGH_WATER_BYTES
            && mixed.latency_bytes < TX_LATENCY_ADMISSION_HIGH_WATER_BYTES
    );
    assert!(
        admission_saturated(mixed, TX_APPLICATION_ADMISSION_HIGH_WATER_BYTES),
        "the shared queue must retain room for one complete TUN admission burst"
    );

    let latency_watermark = SchedulerDepth {
        bulk_bytes: TX_APPLICATION_ADMISSION_HIGH_WATER_BYTES
            - TX_LATENCY_ADMISSION_HIGH_WATER_BYTES
            - 1,
        latency_bytes: TX_LATENCY_ADMISSION_HIGH_WATER_BYTES,
        ..SchedulerDepth::default()
    };
    assert!(admission_saturated(
        latency_watermark,
        TX_APPLICATION_ADMISSION_HIGH_WATER_BYTES
    ));

    let below_all_watermarks = SchedulerDepth {
        bulk_bytes: 256 * 1024,
        latency_bytes: 64 * 1024,
        ..SchedulerDepth::default()
    };
    assert!(!admission_saturated(
        below_all_watermarks,
        TX_APPLICATION_ADMISSION_HIGH_WATER_BYTES
    ));
    assert!(admission_saturated(below_all_watermarks, 256 * 1024));
    assert_eq!(admission_headroom(mixed, TX_APPLICATION_ADMISSION_HIGH_WATER_BYTES), 0);
    assert_eq!(admission_headroom(SchedulerDepth::default(), 1_000), 1_000);
}

#[test]
fn admission_watermark_follows_the_transport_buffer_inside_its_bounds() {
    assert_eq!(tx_admission_high_water(0), TX_ADMISSION_BATCH_BYTES);
    assert_eq!(tx_admission_high_water(usize::MAX), TX_APPLICATION_ADMISSION_HIGH_WATER_BYTES);
    let between = (TX_ADMISSION_BATCH_BYTES + TX_APPLICATION_ADMISSION_HIGH_WATER_BYTES) / 2;
    assert_eq!(tx_admission_high_water(between), between);
}

#[test]
fn cover_padding_follows_its_budget() {
    let start = Instant { nanos: 0 };
    let mut shaper = CoverShaperV2::new(start);
    assert!(!shaper.active());
    let mut decision = TuneDecisionV2::conservative(1, AutoTuneBoundsV2::default());
    decision.cover_profile = CoverTrafficProfileV2::LiveBroadcast;
    decision.cover_padding_bytes_per_second = 100_000;
    shaper.update(decision, start);
    assert!(shaper.active());
    assert!(!shaper.padding_due(1_000, start));
    let later = Instant { nanos: 20_000_000 };
    assert!(shaper.padding_due(1_000, later));
    assert_eq!(shaper.padding_accepted(1_000), 1_000);
    assert_eq!(shaper.tokens, 1_000);
    let much_later = Instant { nanos: 900_000_000_000 };
    assert!(!shaper.padding_due(10_001, much_later));
    assert_eq!(shaper.tokens, 10_000);
}

#[test]
fn retuning_follows_the_transmit_settings_only() {
    let decision = TuneDecisionV2::conservative(1, AutoTuneBoundsV2::default());
    assert!(retune_required(None, decision));
    let mut other = decision;
    other.path_epoch = 9;
    assert!(!retune_required(Some(decision), other));
    other.bulk_quantum_cells = decision.bulk_quantum_cells + 1;
    assert!(retune_required(Some(decision), other));
    assert_eq!(
        effective_tx_tuning(other).bulk_quantum_cells,
        decision.bulk_quantum_cells + 1
    );
}

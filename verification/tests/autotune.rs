use ironet::autotune::controller::Bbr3Tunables;
use ironet::autotune::diagnostics::{emit_periodic_status, PeriodicStatus, StatusDeltaV2, StatusTelemetryV2};
use ironet::autotune::feedback::{
    counter_delta, rate_per_second, ratio_per_million, ratio_per_thousand, ratio_scaled_u64,
    RemoteFeedbackCountersV2, RemoteFeedbackWindowV2, REMOTE_FEEDBACK_TTL_MILLIS,
};
use ironet::autotune::force::{
    forced_action, parse_autotune_force, ForceErrorV2, ForceFieldV2, ForceMemberV2, ForceNumberV2,
    ForceValueV2,
};
use ironet::autotune::reload::{
    changed_component, is_external_wasm_policy_path, learner_mode, non_wasm_live_slot,
    report_fault, select_live_policy, FaultReportV1, LearnerModeV2, LivePolicyV2,
    PolicyPersistenceV1, PolicyReloadStateV1, PolicySourceV2, ReloadActionV1, ReloadResultV1,
    WarmupActionV1,
};
use ironet::autotune::session::{EdgeReasonV2, TunerSessionV2};
use ironet::autotune::window::{
    minimum_rtt, path_endpoint_identity, path_reliability, route_capacity_bps, selected_path_sample, ConnectionCountersV2,
    ControllerSnapshotV2, PathRemoteV2, PathSampleV2, QueueFiguresV2, SampleCountersV2,
};
use ironet::config::{AutotuneMode, DerpPublicKey};
use ironet::cpu::{process_cpu_ticks, ticks_per_second, CpuSampler};
use ironet::fec::FecGeometryV2;
use ironet::net::{IpAddr, SocketAddr};
use ironet::policy::api::BbrEffectiveV1;
use ironet::time::{Duration, Instant, MAX_NANOS};
use ironet::tuning::{
    Bbr3PresetV2, Bbr3ProposalV2, CoverTrafficProfileV2, ForcedActionV2, PathReliability,
};

fn at(millis: u64) -> Instant {
    Instant { nanos: u128::from(millis) * 1_000_000 }
}

#[test]
fn remote_feedback_rates_expire_as_one_window() {
    let started = at(5_000);
    let mut counters = RemoteFeedbackCountersV2::default();
    let mut window = RemoteFeedbackWindowV2::capture(counters, started);
    counters.remote_fec_parity_rx = 10;
    counters.remote_fec_recovered_cells = 5;
    counters.remote_delivered_payload_bytes = 8_000;
    counters.data_cell_tx_datagrams = 100;
    counters.remote_missing_cells = 1;
    counters.remote_loss_run_1 = 1;
    counters.remote_repair_completed_requests = 7;
    counters.remote_feedback_sequence = 1;

    let fresh = window.sample(counters, started.after(Duration::from_secs(1)));
    assert_eq!(fresh.sequence, 1);
    assert_eq!(fresh.fec_recovery_per_mille, 500);
    assert_eq!(fresh.receiver_goodput_bytes_per_second, 8_000);
    assert!(fresh.residual_loss_ppm > 0);
    assert_eq!(fresh.repair_completed_requests, 7);

    let stale = window.sample(
        counters,
        started
            .after(Duration::from_secs(1))
            .after(Duration::from_millis(REMOTE_FEEDBACK_TTL_MILLIS)),
    );
    assert_eq!(stale.sequence, 1);
    assert_eq!(stale.fec_recovery_per_mille, 0);
    assert_eq!(stale.receiver_goodput_bytes_per_second, 0);
    assert_eq!(stale.residual_loss_ppm, 0);
    assert_eq!(stale.repair_completed_requests, 7);
}

#[test]
fn loss_ratio_is_bounded_and_handles_no_sample() {
    assert_eq!(ratio_per_million(0, 0), 0);
    assert_eq!(ratio_per_million(1, 100), 10_000);
    assert_eq!(ratio_per_million(u64::MAX, 1), 1_000_000);
    assert_eq!(ratio_per_thousand(3, 100), 30);
    assert_eq!(ratio_per_thousand(1, 0), 0);
    assert_eq!(ratio_scaled_u64(17, 4, 1_000), 4_250);
    assert_eq!(ratio_scaled_u64(1, 0, 1_000_000), 0);
    assert_eq!(ratio_scaled_u64(u64::MAX, 1, u64::MAX), u64::MAX);
    assert_eq!(rate_per_second(1_000, Duration::from_millis(500)), 2_000);
    assert_eq!(rate_per_second(1, Duration::zero()), 0);
    assert_eq!(counter_delta(120, 100), 20);
    assert_eq!(counter_delta(7, 100), 7);
}

#[test]
fn autotune_force_parser_is_strict_and_distinguishes_fec_off() {
    let forced = parse_autotune_force(
        r#"{"bbr_preset":"lossy-radio","fec":"8+1","train_target_bytes":32768,"bulk_quantum_cells":2,"cover_profile":"live-broadcast","cover_overhead_per_mille":30}"#,
    )
    .unwrap();
    assert_eq!(forced.bbr_preset, Some(Bbr3PresetV2::LossyRadio));
    assert_eq!(
        forced.fec,
        Some(Some(FecGeometryV2 {
            data_cells: 8,
            parity_cells: 1,
        }))
    );
    assert_eq!(forced.train_target_bytes, Some(32 * 1024));
    assert_eq!(forced.bulk_quantum_cells, Some(2));
    assert_eq!(
        forced.cover_profile,
        Some(CoverTrafficProfileV2::LiveBroadcast)
    );
    assert_eq!(forced.cover_overhead_per_mille, Some(30));

    assert_eq!(
        parse_autotune_force(r#"{"fec":null}"#).unwrap().fec,
        Some(None)
    );
    assert!(parse_autotune_force("{}").is_err());
    assert!(parse_autotune_force(r#"{"unknown":1}"#).is_err());
    assert!(parse_autotune_force(r#"{"fec":"2+2"}"#).is_err());
    assert!(parse_autotune_force(r#"{"bbr_preset":"unknown"}"#).is_err());
}

#[test]
fn every_override_fault_has_its_error() {
    let refused = |text: &str| parse_autotune_force(text).unwrap_err();
    assert_eq!(refused("{"), ForceErrorV2::InvalidJson);
    assert_eq!(refused("[1]"), ForceErrorV2::NotAnObject);
    assert_eq!(refused(r#"{"fec":null,"colour":1}"#), ForceErrorV2::UnknownField);
    assert_eq!(refused(r#"{"cover_profile":7}"#), ForceErrorV2::CoverProfileNotText);
    assert_eq!(refused(r#"{"cover_profile":"loud"}"#), ForceErrorV2::CoverProfileUnknown);
    assert_eq!(
        refused(r#"{"cover_overhead_per_mille":-1}"#),
        ForceErrorV2::NotAnInteger(ForceNumberV2::CoverOverheadPerMille)
    );
    assert_eq!(
        refused(r#"{"cover_overhead_per_mille":65536}"#),
        ForceErrorV2::TooLarge(ForceNumberV2::CoverOverheadPerMille)
    );
    assert_eq!(refused(r#"{"bbr_preset":7}"#), ForceErrorV2::BbrPresetUnknown);
    assert_eq!(refused(r#"{"fec":"8"}"#), ForceErrorV2::FecForm);
    assert_eq!(refused(r#"{"fec":"x+1"}"#), ForceErrorV2::FecDataCount);
    assert_eq!(refused(r#"{"fec":"8+"}"#), ForceErrorV2::FecParityCount);
    assert_eq!(refused(r#"{"fec":true}"#), ForceErrorV2::FecNotAnObject);
    assert_eq!(
        refused(r#"{"fec":{"data_cells":8,"rows":1}}"#),
        ForceErrorV2::FecUnknownField
    );
    assert_eq!(
        refused(r#"{"fec":{"data_cells":8}}"#),
        ForceErrorV2::FecCountMissing(ForceNumberV2::ParityCells)
    );
    assert_eq!(
        refused(r#"{"fec":{"data_cells":"8","parity_cells":1}}"#),
        ForceErrorV2::NotAnInteger(ForceNumberV2::DataCells)
    );
    assert_eq!(refused(r#"{"fec":"0+1"}"#), ForceErrorV2::FecGeometry);
    assert_eq!(refused(r#"{"fec":"4+3"}"#), ForceErrorV2::FecOverhead);
    assert_eq!(
        refused(r#"{"train_target_bytes":1.5}"#),
        ForceErrorV2::NotAnInteger(ForceNumberV2::TrainTargetBytes)
    );
    assert_eq!(
        refused(r#"{"bulk_quantum_cells":null}"#),
        ForceErrorV2::NotAnInteger(ForceNumberV2::BulkQuantumCells)
    );
    assert_eq!(refused(r#"{"bbr_preset":null}"#), ForceErrorV2::NoOverride);
}

#[test]
fn override_values_have_several_spellings() {
    let fec = |text: &str| parse_autotune_force(text).unwrap().fec;
    let eight_two = Some(Some(FecGeometryV2 { data_cells: 8, parity_cells: 2 }));
    assert_eq!(fec(r#"{"fec":"8+2"}"#), eight_two);
    assert_eq!(fec(r#"{"fec":"8++2"}"#), eight_two);
    assert_eq!(fec(r#"{"fec":{"parity_cells":2,"data_cells":8}}"#), eight_two);
    assert_eq!(fec(r#"{"fec":"off"}"#), Some(None));
    assert_eq!(fec(r#"{"cover_profile":"idle"}"#), None);
    assert_eq!(
        parse_autotune_force(r#"{"bbr_preset":{"low-rtt-host":null}}"#).unwrap().bbr_preset,
        Some(Bbr3PresetV2::LowRttHost)
    );
}

#[test]
fn override_fields_are_decided_without_a_document() {
    let field = |name: &str, value: ForceValueV2| ForceFieldV2 { name: name.to_owned(), value };
    let forced = forced_action(&vec![
        field("cover_profile", ForceValueV2::Text("generic-h3-bulk".to_owned())),
        field("bbr_preset", ForceValueV2::Null),
        field(
            "fec",
            ForceValueV2::Object(vec![
                ForceMemberV2 { name: "data_cells".to_owned(), unsigned: Some(16), null: false },
                ForceMemberV2 { name: "parity_cells".to_owned(), unsigned: Some(1), null: false },
            ]),
        ),
        field("bulk_quantum_cells", ForceValueV2::Unsigned(3)),
    ])
    .unwrap();
    assert_eq!(
        forced,
        ForcedActionV2 {
            cover_profile: Some(CoverTrafficProfileV2::GenericH3Bulk),
            fec: Some(Some(FecGeometryV2 { data_cells: 16, parity_cells: 1 })),
            bulk_quantum_cells: Some(3),
            ..ForcedActionV2::default()
        }
    );
    assert_eq!(
        forced_action(&vec![field("fec", ForceValueV2::Other)]),
        Err(ForceErrorV2::FecNotAnObject)
    );
}

#[test]
fn derp_and_iroh_relay_paths_are_reliable_for_fec_tuning() {
    let derp = PathRemoteV2::Derp {
        region_id: 7,
        public_key: DerpPublicKey { bytes: [9; 32] },
    };
    let ip = |port: u16| {
        PathRemoteV2::Ip(SocketAddr::new(IpAddr::V4(u32::from_be_bytes([192, 0, 2, 1])), port))
    };
    assert_eq!(
        path_reliability(false, &derp),
        PathReliability::ReliableRelay
    );
    assert_eq!(
        path_reliability(false, &ip(443)),
        PathReliability::Datagram
    );
    assert_eq!(
        path_reliability(true, &ip(443)),
        PathReliability::ReliableRelay
    );
    assert_eq!(
        path_endpoint_identity(&ip(443)),
        path_endpoint_identity(&ip(5443))
    );
    assert_ne!(
        path_endpoint_identity(&ip(443)),
        path_endpoint_identity(&derp)
    );
    assert_eq!(path_endpoint_identity(&ip(443)), "ip:192.0.2.1");
    assert!(path_endpoint_identity(&derp).starts_with("derp:7:0909"));
    let wide = PathRemoteV2::Ip(SocketAddr::new(IpAddr::V6((0xfd << 120) | 1), 1));
    assert_eq!(path_endpoint_identity(&wide), "ip:fd00::1");
}

#[test]
fn cpu_stat_parser_is_available_on_linux() {
    let stat = "4242 (ironet) S 1 4242 4242 0 -1 4194560 1 0 0 0 17 5 0 0 20 0 9 0 1 1 1 1\n";
    assert!(process_cpu_ticks(stat).is_some());
    assert_eq!(process_cpu_ticks(stat), Some(22));
    let odd = "7 (a) b) (c) R 1 2 3 4 5 6 7 8 9 10 100 23 0\n";
    assert_eq!(process_cpu_ticks(odd), Some(123));
    assert_eq!(process_cpu_ticks("7 ironet R 1 2"), None);
    assert_eq!(process_cpu_ticks("7 (ironet) R 1 2 3"), None);
    assert_eq!(process_cpu_ticks("7 (x) R 1 2 3 4 5 6 7 8 9 10 -1 23 0\n"), None);
    let most = format!("7 (x) R 1 2 3 4 5 6 7 8 9 10 {} 23 0\n", u64::MAX);
    assert_eq!(process_cpu_ticks(&most), Some(u64::MAX));
    let over = "7 (x) R 1 2 3 4 5 6 7 8 9 10 18446744073709551616 23 0\n";
    assert_eq!(process_cpu_ticks(over), None);
}

#[test]
fn cpu_share_is_exact_and_bounded() {
    assert_eq!(ticks_per_second(Some(" 250\n")), 250);
    assert_eq!(ticks_per_second(Some("fast")), 100);
    assert_eq!(ticks_per_second(None), 100);
    let mut sampler = CpuSampler::new(Some(100), at(0), Some("100\n"));
    assert_eq!(sampler.sample(Some(125), at(1_000)), 250);
    assert_eq!(sampler.sample(Some(900), at(2_000)), 1_000);
    assert_eq!(sampler.sample(Some(800), at(3_000)), 0);
    assert_eq!(sampler.sample(None, at(4_000)), 0);
    assert_eq!(sampler.sample(Some(900), at(5_000)), 0);
    assert_eq!(sampler.sample(Some(901), at(5_000)), 1_000);
    let mut stopped = CpuSampler::new(Some(1), at(0), Some("0"));
    assert_eq!(stopped.sample(Some(1), at(1_000)), 1_000);
}

#[test]
fn policy_selection_knows_components_by_their_path() {
    assert!(is_external_wasm_policy_path("/etc/ironet/policy.wasm"));
    assert!(is_external_wasm_policy_path("/etc/ironet/policy.WaSm/./"));
    assert!(!is_external_wasm_policy_path("policy.wasm"));
    assert!(!is_external_wasm_policy_path("/etc/ironet/.wasm"));
    assert!(!is_external_wasm_policy_path("/etc/ironet/policy.wasm.json"));
    assert!(!is_external_wasm_policy_path("/etc/ironet/wasm"));
    assert!(!is_external_wasm_policy_path("/"));
    assert!(!is_external_wasm_policy_path(""));
    assert_eq!(
        non_wasm_live_slot("builtin"),
        (LivePolicyV2::Builtin, PolicySourceV2::Configured)
    );
    assert_eq!(
        select_live_policy("native", false),
        (LivePolicyV2::Native, PolicySourceV2::Configured)
    );
    assert_eq!(
        select_live_policy("typo", true),
        (LivePolicyV2::Native, PolicySourceV2::Native)
    );
    assert_eq!(
        select_live_policy("/p.wasm", true),
        (LivePolicyV2::Component, PolicySourceV2::Configured)
    );
    assert_eq!(
        select_live_policy("/p.wasm", false),
        (LivePolicyV2::Builtin, PolicySourceV2::Builtin)
    );
    assert_eq!(learner_mode(AutotuneMode::On, false), LearnerModeV2::On);
    assert_eq!(learner_mode(AutotuneMode::Shadow, false), LearnerModeV2::Shadow);
    assert_eq!(learner_mode(AutotuneMode::Off, false), LearnerModeV2::Off);
    assert_eq!(learner_mode(AutotuneMode::On, true), LearnerModeV2::Off);
}

#[test]
fn changed_component_takes_over_after_five_healthy_ticks() {
    let mut reload = PolicyReloadStateV1::new(None, None, None);
    let digest = changed_component(&None, b"component").unwrap();
    assert_eq!(digest, *blake3::hash(b"component").as_bytes());
    assert_eq!(changed_component(&Some(digest), b"component"), None);
    assert!(changed_component(&Some(digest), b"component 2").is_some());
    assert!(reload.begin_live_scan());
    assert!(!reload.begin_live_scan());
    assert_eq!(
        reload.finish_live(ReloadResultV1::Changed(digest)),
        ReloadActionV1::TakeUp
    );
    for _ in 0..4 {
        assert_eq!(reload.observe_warmup(false), WarmupActionV1::Observe);
    }
    assert_eq!(reload.observe_warmup(false), WarmupActionV1::Promote);
    assert_eq!(reload.observe_warmup(false), WarmupActionV1::Nothing);
    assert_eq!(reload.live_seen_hash, Some(digest));
}

#[test]
fn faulty_candidate_is_dropped_and_its_fault_reported_once() {
    let mut reload = PolicyReloadStateV1::new(None, None, Some("old".to_owned()));
    assert!(reload.begin_live_scan());
    reload.finish_live(ReloadResultV1::Changed([1; 32]));
    assert_eq!(reload.observe_warmup(false), WarmupActionV1::Observe);
    assert_eq!(reload.observe_warmup(true), WarmupActionV1::Abort);
    let failed = || ReloadResultV1::Failed("bad signature".to_owned());
    assert!(reload.begin_live_scan());
    assert_eq!(reload.finish_live(failed()), ReloadActionV1::ReportFault);
    assert!(reload.begin_live_scan());
    assert_eq!(reload.finish_live(failed()), ReloadActionV1::Nothing);
    assert!(reload.begin_shadow_scan());
    assert_eq!(
        reload.finish_shadow(ReloadResultV1::Failed("old".to_owned())),
        ReloadActionV1::Nothing
    );
    assert!(reload.begin_shadow_scan());
    assert_eq!(
        reload.finish_shadow(ReloadResultV1::Changed([2; 32])),
        ReloadActionV1::TakeUp
    );
    assert!(reload.begin_shadow_scan());
    assert_eq!(reload.finish_shadow(ReloadResultV1::Unchanged), ReloadActionV1::Nothing);
    for due in [false, false, false, false, true, false] {
        reload.advance();
        assert_eq!(reload.scan_due(), due);
    }
    assert!(!reload.begin_shadow_scan());
}

#[test]
fn learned_state_is_written_when_it_changed_and_is_due() {
    let mut persistence = PolicyPersistenceV1::new(Some(Duration::from_secs(30)), at(0));
    assert!(!persistence.flush_if_due(true, at(29_999)));
    assert!(persistence.flush_if_due(true, at(30_000)));
    assert!(!persistence.flush_if_due(false, at(30_000)));
    assert!(persistence.flush(true));
    assert!(!persistence.flush(false));
    persistence.mark_flushed(at(30_000));
    assert!(!persistence.flush_if_due(true, at(31_000)));
    let memoryless = PolicyPersistenceV1::new(None, at(0));
    assert!(!memoryless.flush(true));
    assert!(!memoryless.flush_if_due(true, at(u64::MAX / 2_000_000)));
    let mut last = None;
    assert_eq!(report_fault(&mut last, None), FaultReportV1::Nothing);
    assert_eq!(report_fault(&mut last, Some(3)), FaultReportV1::Fault);
    assert_eq!(report_fault(&mut last, Some(3)), FaultReportV1::Nothing);
    assert_eq!(report_fault(&mut last, Some(4)), FaultReportV1::Fault);
    assert_eq!(report_fault(&mut last, None), FaultReportV1::Recovered);
}

fn snapshot() -> ControllerSnapshotV2 {
    ControllerSnapshotV2 {
        state: 3,
        bw: 1_000_000,
        max_bw: 2_000_000,
        min_rtt: Duration::from_millis(10),
        inflight_longterm: 77,
        guard_transitions: 5,
        app_limited_in_round: true,
        params_generation: 4,
    }
}

fn endpoint(octets: [u8; 4], port: u16) -> PathRemoteV2 {
    PathRemoteV2::Ip(SocketAddr::new(IpAddr::V4(u32::from_be_bytes(octets)), port))
}

fn path(octets: [u8; 4]) -> PathSampleV2 {
    PathSampleV2 {
        selected: true,
        is_relay: false,
        remote: endpoint(octets, 443),
        rtt: Duration::from_millis(13),
        congestion_window_bytes: 64_000,
        pacing_rate_bytes_per_second: Some(500_000),
        send_quantum_bytes: None,
        policer_pacing_transitions: 0,
        snapshot: Some(snapshot()),
    }
}

fn connection(scale: u64) -> ConnectionCountersV2 {
    ConnectionCountersV2 {
        udp_tx_datagrams: 100 * scale,
        udp_tx_bytes: 100_000 * scale,
        udp_rx_datagrams: 40 * scale,
        udp_rx_bytes: 20_000 * scale,
        lost_packets: scale,
    }
}

fn counters(scale: u64) -> SampleCountersV2 {
    SampleCountersV2 {
        real_bytes: 90_000 * scale,
        tun_ingress_records: 60 * scale,
        tun_ingress_bytes: 84_000 * scale,
        gso_input_bytes: 42_000 * scale,
        reassembly_pressure_evictions: 2 * scale,
        train_build_bytes: 10_000 * scale,
        bulk_preemptions: 4 * scale,
        bulk_preemption_delay_micros: 100 * scale,
    }
}

fn queues() -> QueueFiguresV2 {
    QueueFiguresV2 {
        train_queue_bytes: 11,
        latency_queue_bytes: 0,
        latency_served: true,
        latency_sojourn_p50_micros: 1,
        latency_sojourn_p95_micros: 2,
        latency_sojourn_p99_micros: 3,
        cpu_utilization_per_mille: 4_000,
    }
}

fn session() -> TunerSessionV2 {
    TunerSessionV2::new(
        connection(0),
        counters(0),
        RemoteFeedbackCountersV2::default(),
        0,
        0,
        at(0),
    )
}

#[test]
fn full_sample_turns_counters_into_telemetry() {
    let mut session = session();
    let tunables = Some(Bbr3Tunables { generation: 9, ..Bbr3Tunables::default() });
    let tick = session.observe(
        at(2_000),
        connection(1),
        &path([192, 0, 2, 1]),
        tunables,
        6,
        counters(1),
        queues(),
        RemoteFeedbackCountersV2::default(),
    );
    let telemetry = tick.tick.telemetry;
    assert_eq!(telemetry.path_epoch, 1);
    assert_eq!(telemetry.reliability, PathReliability::Datagram);
    assert_eq!(telemetry.queue_delay, Duration::from_millis(3));
    assert_eq!(telemetry.loss_ppm, 10_000);
    assert_eq!(telemetry.delivery_rate_bytes_per_second, 50_000);
    assert_eq!(telemetry.receive_rate_bytes_per_second, 10_000);
    assert_eq!(telemetry.packets_per_second, 100);
    assert_eq!(telemetry.tun_ingress_bytes_per_second, 42_000);
    assert_eq!(telemetry.average_record_bytes, 1_400);
    assert_eq!(telemetry.gso_ingress_ratio_ppm, 500_000);
    assert_eq!(telemetry.bulk_preemption_delay_average_micros, 25);
    assert_eq!(telemetry.reassembly_pressure_evictions, 2);
    assert_eq!(telemetry.real_traffic_bytes_per_second, 45_000);
    assert_eq!(telemetry.train_build_bytes_per_second, 5_000);
    assert_eq!(telemetry.cpu_utilization_per_mille, 1_000);
    assert!(telemetry.latency_queue_recently_nonempty);
    assert_eq!(telemetry.controller_pacing_rate_bytes_per_second, 500_000);
    assert_eq!(telemetry.controller_send_quantum_bytes, 0);
    assert_eq!(telemetry.controller_guard_transitions_delta, 0);
    assert_eq!(telemetry.controller_tunables_generation, 9);
    assert_eq!(telemetry.controller_clamped_writes, 6);
    assert_eq!(tick.tick.route_capacity_bps, 16_000_000);
    assert_eq!(tick.tick.repair_minimum_age_micros, 104_000);
    assert!(!tick.tick.migrated);
    assert_eq!(session.window.identity, "ip:192.0.2.1");
}

#[test]
fn migration_starts_another_path_and_missed_samples_are_counted() {
    let mut session = session();
    let observe = |session: &mut TunerSessionV2, seconds: u64, view: &PathSampleV2| {
        session.observe(
            at(seconds * 1_000),
            connection(seconds),
            view,
            None,
            0,
            counters(seconds),
            queues(),
            RemoteFeedbackCountersV2::default(),
        )
    };
    let mut view = path([192, 0, 2, 1]);
    observe(&mut session, 1, &view);
    view.snapshot = Some(ControllerSnapshotV2 { guard_transitions: 8, ..snapshot() });
    let tick = observe(&mut session, 2, &view);
    assert_eq!(tick.tick.telemetry.controller_guard_transitions_delta, 3);
    let warnings: Vec<bool> = (3..=22)
        .map(|second| session.miss(at(second * 1_000), connection(second), counters(second)))
        .collect();
    assert_eq!(warnings.iter().filter(|warned| **warned).count(), 3);
    assert!(warnings[0] && warnings[9] && warnings[19]);
    let moved = path([198, 51, 100, 2]);
    let tick = observe(&mut session, 23, &moved);
    assert!(tick.tick.migrated);
    assert_eq!(tick.tick.recovered_failures, 20);
    assert_eq!(tick.tick.telemetry.path_epoch, 2);
    assert_eq!(tick.tick.telemetry.controller_guard_transitions_delta, 0);
    assert_eq!(session.window.failures, 0);
}

#[test]
fn rebinding_a_port_is_no_migration() {
    let mut session = session();
    let observe = |session: &mut TunerSessionV2, seconds: u64, view: &PathSampleV2| {
        session.observe(
            at(seconds * 1_000),
            connection(seconds),
            view,
            None,
            0,
            counters(seconds),
            queues(),
            RemoteFeedbackCountersV2::default(),
        )
    };
    let mut view = path([192, 0, 2, 1]);
    assert!(!observe(&mut session, 1, &view).tick.migrated);
    view.remote = endpoint([192, 0, 2, 1], 5_443);
    let tick = observe(&mut session, 2, &view);
    assert!(!tick.tick.migrated);
    assert_eq!(tick.tick.telemetry.path_epoch, 1);
    view.remote = PathRemoteV2::Derp {
        region_id: 7,
        public_key: DerpPublicKey { bytes: [9; 32] },
    };
    let tick = observe(&mut session, 3, &view);
    assert!(tick.tick.migrated);
    assert_eq!(tick.tick.telemetry.path_epoch, 2);
    assert_eq!(tick.tick.telemetry.reliability, PathReliability::ReliableRelay);
}

#[test]
fn fast_clock_publishes_on_the_sampled_path_only() {
    let mut session = session();
    let view = path([192, 0, 2, 1]);
    let mut tunables = Some(Bbr3Tunables::default());
    assert_eq!(session.edge(Some(&view), &mut tunables, 100_000, 1_000_000), None);
    assert_eq!(session.probe.bulk_service_counter, 0);
    session.observe(
        at(1_000),
        connection(1),
        &view,
        tunables,
        0,
        counters(1),
        queues(),
        RemoteFeedbackCountersV2::default(),
    );
    session.probe.probe_pending = true;
    session.probe.bulk_active = false;
    let mut absent = None;
    assert_eq!(session.edge(Some(&view), &mut absent, 1_000, 0), None);
    assert!(session.probe.probe_pending);
    let before = tunables.unwrap();
    assert_eq!(
        session.edge(Some(&view), &mut tunables, 2_000, 0),
        Some(EdgeReasonV2::BulkServiceReactivation)
    );
    let after = tunables.unwrap();
    assert_eq!(after.generation, before.generation + 1);
    assert_eq!(after.capacity_probe_generation, before.capacity_probe_generation + 1);
    assert_eq!(session.edge(None, &mut tunables, 9_000, 0), None);
    assert_eq!(session.edge(Some(&path([203, 0, 113, 9])), &mut tunables, 9_000, 0), None);
    assert_eq!(tunables.unwrap(), after);
}

#[test]
fn published_decision_reaches_the_tunables_once() {
    let mut session = session();
    let view = path([192, 0, 2, 1]);
    let mut tunables = Some(Bbr3Tunables::default());
    let tick = session.observe(
        at(1_000),
        connection(1),
        &view,
        tunables,
        0,
        counters(1),
        queues(),
        RemoteFeedbackCountersV2::default(),
    );
    let mut effective = BbrEffectiveV1::from_proposal(&Bbr3ProposalV2::shared_conservative());
    let outcome = session.publish(
        tick.tick.telemetry,
        view.congestion_window_bytes,
        &mut effective,
        &mut tunables,
        true,
    );
    assert!(outcome.probe_requested);
    assert_eq!(outcome.adaptive_cwnd_floor_bytes, session.floor.held_bytes);
    let first = tunables.unwrap();
    assert_eq!(first.capacity_probe_generation, 1);
    let again = session.publish(
        tick.tick.telemetry,
        view.congestion_window_bytes,
        &mut effective,
        &mut tunables,
        false,
    );
    assert!(!again.probe_requested);
    assert_eq!(tunables.unwrap().capacity_probe_generation, 1);
    let mut capped = effective;
    capped.pacing_cap_bytes_per_second = 1_000;
    session.publish(tick.tick.telemetry, 0, &mut capped, &mut tunables, false);
    let released = session.publish(tick.tick.telemetry, 0, &mut effective, &mut tunables, false);
    assert!(released.probe_requested);
    assert_eq!(tunables.unwrap().capacity_probe_generation, 2);
}

#[test]
fn selected_path_and_its_figures_come_from_the_first_selected_one() {
    let mut paths = vec![path([192, 0, 2, 1]), path([192, 0, 2, 2]), path([192, 0, 2, 3])];
    paths[0].selected = false;
    assert_eq!(selected_path_sample(&paths).unwrap().remote, endpoint([192, 0, 2, 2], 443));
    paths.truncate(1);
    assert!(selected_path_sample(&paths).is_none());
    assert_eq!(route_capacity_bps(None, Some(3)), 24);
    assert_eq!(route_capacity_bps(None, None), 0);
    assert_eq!(
        route_capacity_bps(Some(ControllerSnapshotV2 { bw: 0, max_bw: 0, ..snapshot() }), Some(5)),
        40
    );
    let rtt = Duration::from_millis(13);
    let unmeasured = ControllerSnapshotV2 { min_rtt: Duration { nanos: MAX_NANOS }, ..snapshot() };
    assert_eq!(minimum_rtt(Some(unmeasured), rtt), rtt);
    assert_eq!(minimum_rtt(None, rtt), rtt);
    assert_eq!(minimum_rtt(Some(snapshot()), rtt), Duration::from_millis(10));
}

#[test]
fn operator_status_comes_every_tenth_sample() {
    let delta = StatusDeltaV2 {
        repair_request_bytes: 10,
        repair_response_bytes: 20,
        tun_ingress_bytes: 10_000,
        tun_ingress_records: 8,
        cover_bytes: 30,
        real_bytes: 1_000,
        fec_bytes: 125,
        data_cell_bytes: 1_000,
        bulk_service_bytes: 300,
        latency_service_bytes: 100,
    };
    let telemetry = StatusTelemetryV2 {
        latency_queue_sojourn_p95_micros: 900,
        bulk_fairness_ppm: 990_000,
        quic_udp_payload_tx_bytes: 4_000,
        real_record_tx_bytes: 3_000,
        quic_transport_residual_tx_bytes: 200,
        protocol_datagram_errors: 1,
        route_gate_drops: 2,
    };
    assert_eq!(emit_periodic_status(9, delta, telemetry, Duration::from_secs(10)), None);
    assert_eq!(
        emit_periodic_status(20, delta, telemetry, Duration::from_secs(10)),
        Some(PeriodicStatus {
            repair_tx_bytes: 30,
            tun_ingress_bytes_per_second: 1_000,
            actual_cover_overhead_per_mille: 30,
            actual_fec_wire_overhead_per_mille: 125,
            bulk_service_share_ppm: 750_000,
            average_record_bytes: 1_250,
            telemetry,
        })
    );
}

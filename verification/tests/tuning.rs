use ironet::fec::FecGeometryV2;
use ironet::policy::api::{ClampFieldV1, ClampReasonV1, EffectiveActionV1, HostLimitsV1};
use ironet::policy::guardrails::{GuardrailContextV1, GuardrailsV1};
use ironet::time::{Duration, Instant};
use ironet::tuning::filter::TelemetryFilterV1;
use ironet::tuning::native::NativePolicyV1;
use ironet::tuning::tuner::AutoTunerV2;
use ironet::tuning::{
    classify_cover_profile, ewma, rates_track_within_ten_percent, repair_cache_target_bytes,
    AutoTuneBoundsV2, Bbr3PresetV2, CoverTrafficProfileV2, ForcedActionV2, PathReliability,
    PathTelemetryV2, TuneDecisionV2, TuneReasonV2, BULK_QUANTUM_BACKLOG_BYTES,
    INITIAL_SEND_BUFFER_BYTES_V2, RECEIVE_PRESSURE_HOLD_SAMPLES,
};

fn sample(epoch: u64) -> PathTelemetryV2 {
    PathTelemetryV2 {
        path_epoch: epoch,
        reliability: PathReliability::Datagram,
        rtt: Duration::from_millis(30),
        min_rtt: Duration::from_millis(25),
        queue_delay: Duration::from_millis(1),
        loss_ppm: 100,
        burst_loss_cells: 0,
        reorder_ppm: 0,
        receiver_goodput_bytes_per_second: 20 * 1024 * 1024,
        residual_loss_ppm: 0,
        latency_sojourn_p95_micros: 0,
        latency_sojourn_p50_micros: 0,
        latency_sojourn_p99_micros: 0,
        latency_queue_recently_nonempty: false,
        delivery_rate_bytes_per_second: 20 * 1024 * 1024,
        controller_pacing_rate_bytes_per_second: 0,
        controller_send_quantum_bytes: 0,
        controller_state: 0,
        controller_bw_bytes_per_second: 0,
        controller_inflight_longterm_bytes: 0,
        controller_guard_transitions_delta: 0,
        controller_app_limited: false,
        controller_tunables_generation: 0,
        controller_params_generation: 0,
        controller_clamped_writes: 0,
        receive_rate_bytes_per_second: 128 * 1024,
        packets_per_second: 20_000,
        tun_ingress_bytes_per_second: 20 * 1024 * 1024,
        average_record_bytes: 1_500,
        gso_ingress_ratio_ppm: 0,
        packet_train_queue_bytes: 128 * 1024,
        latency_queue_bytes: 0,
        reassembly_pressure_evictions: 0,
        remote_expired_stripes_delta: 0,
        train_build_bytes_per_second: 0,
        bulk_preemption_delay_average_micros: 0,
        cpu_utilization_per_mille: 500,
        wasted_parity_per_mille: 0,
        fec_recovery_per_mille: 0,
        repair_hit_per_mille: 0,
        repair_completed_requests: 0,
        repair_response_latency: Duration::zero(),
        real_traffic_bytes_per_second: 20 * 1024 * 1024,
    }
}

#[test]
fn forced_application_action_is_exact_inside_guardrails() {
    let mut tuner = AutoTunerV2::new(AutoTuneBoundsV2::default(), 1);
    let mut telemetry = sample(1);
    telemetry.packet_train_queue_bytes = 0;
    let forced = ForcedActionV2 {
        bbr_preset: None,
        fec: Some(Some(FecGeometryV2 {
            data_cells: 8,
            parity_cells: 1,
        })),
        train_target_bytes: Some(64 * 1024),
        bulk_quantum_cells: Some(4),
        cover_profile: Some(CoverTrafficProfileV2::GenericH3Bulk),
        cover_overhead_per_mille: Some(50),
    };

    let decision = tuner.observe_forced(telemetry, forced);
    assert_eq!(decision.fec, forced.fec.unwrap());
    assert_eq!(decision.train_target_bytes, 64 * 1024);
    assert_eq!(decision.bulk_quantum_cells, 4);
    assert_eq!(decision.cover_profile, CoverTrafficProfileV2::GenericH3Bulk);
    assert_eq!(decision.cover_overhead_per_mille, 50);
    assert_eq!(
        decision.cover_padding_bytes_per_second,
        telemetry.real_traffic_bytes_per_second * 50 / 1_000
    );
}

#[test]
fn forced_bbr_preset_is_exact_at_the_experiment_boundary() {
    let mut tuner = AutoTunerV2::new(AutoTuneBoundsV2::default(), 1);
    let mut telemetry = sample(1);
    telemetry.controller_bw_bytes_per_second = 10_000_000;
    let decision = tuner.observe_forced(
        telemetry,
        ForcedActionV2 {
            bbr_preset: Some(Bbr3PresetV2::Policer),
            ..ForcedActionV2::default()
        },
    );
    assert_eq!(decision.bbr.preset, Bbr3PresetV2::Policer);
    assert_eq!(decision.bbr.pacing_cap_bytes_per_second, 9_700_000);
}

#[test]
fn forced_action_cannot_cross_emergency_reliable_or_latency_guards() {
    let force_off_and_burst = ForcedActionV2 {
        fec: Some(None),
        bulk_quantum_cells: Some(4),
        ..ForcedActionV2::default()
    };
    let mut emergency = sample(1);
    emergency.loss_ppm = 50_000;
    emergency.burst_loss_cells = 3;
    emergency.latency_queue_bytes = 1;
    let mut tuner = AutoTunerV2::new(AutoTuneBoundsV2::default(), 1);
    let decision = tuner.observe_forced(emergency, force_off_and_burst);
    assert!(
        decision.fec.is_some(),
        "emergency FEC must win over force-off"
    );
    assert_eq!(decision.bulk_quantum_cells, 1);

    let mut reliable = sample(1);
    reliable.reliability = PathReliability::ReliableRelay;
    let mut tuner = AutoTunerV2::new(AutoTuneBoundsV2::default(), 1);
    let decision = tuner.observe_forced(
        reliable,
        ForcedActionV2 {
            fec: Some(Some(FecGeometryV2 {
                data_cells: 4,
                parity_cells: 2,
            })),
            ..ForcedActionV2::default()
        },
    );
    assert_eq!(decision.fec, None);
}

#[test]
fn learned_action_reuses_guardrails_without_advancing_sample_clock() {
    let mut telemetry = sample(1);
    telemetry.loss_ppm = 50_000;
    telemetry.burst_loss_cells = 3;
    telemetry.latency_queue_bytes = 1;
    let mut tuner = AutoTunerV2::new(AutoTuneBoundsV2::default(), 1);
    let baseline = tuner.observe(telemetry);
    assert!(baseline.fec.is_some());
    let constrained = tuner.constrain_action(
        telemetry,
        baseline,
        ForcedActionV2 {
            fec: Some(None),
            bulk_quantum_cells: Some(4),
            ..ForcedActionV2::default()
        },
    );
    assert_eq!(constrained.sample_count, baseline.sample_count);
    assert_eq!(constrained.fec, baseline.fec);
    assert_eq!(constrained.bulk_quantum_cells, 1);
    assert_ne!(constrained.repair_cache_bytes, 0);

    let mut cpu_limited = sample(2);
    cpu_limited.cpu_utilization_per_mille = 950;
    let mut tuner = AutoTunerV2::new(AutoTuneBoundsV2::default(), 2);
    let baseline = tuner.observe(cpu_limited);
    let constrained = tuner.constrain_action(
        cpu_limited,
        baseline,
        ForcedActionV2 {
            train_target_bytes: Some(64 * 1024),
            bulk_quantum_cells: Some(4),
            ..ForcedActionV2::default()
        },
    );
    assert!(constrained.train_target_bytes <= baseline.train_target_bytes);
    assert!(constrained.bulk_quantum_cells <= baseline.bulk_quantum_cells);
}

#[test]
fn receive_pressure_grows_and_holds_bounded_memory_without_configuration() {
    let mut tuner = AutoTunerV2::new(AutoTuneBoundsV2::default(), 1);
    let mut telemetry = sample(1);
    assert_eq!(
        tuner.observe(telemetry).receive_buffer_bytes,
        8 * 1024 * 1024
    );

    telemetry.reassembly_pressure_evictions = 1;
    assert_eq!(
        tuner.observe(telemetry).receive_buffer_bytes,
        16 * 1024 * 1024
    );

    telemetry.reassembly_pressure_evictions = 0;
    for _ in 0..RECEIVE_PRESSURE_HOLD_SAMPLES - 1 {
        assert_eq!(
            tuner.observe(telemetry).receive_buffer_bytes,
            16 * 1024 * 1024
        );
    }
    assert_eq!(
        tuner.observe(telemetry).receive_buffer_bytes,
        16 * 1024 * 1024 - 512 * 1024
    );
}

#[test]
fn live_media_profile_is_selected_from_directional_rate_without_configuration() {
    assert_eq!(classify_cover_profile(0, 0), CoverTrafficProfileV2::Idle);
    assert_eq!(
        classify_cover_profile(20 * 1024 * 1024, 256 * 1024),
        CoverTrafficProfileV2::LiveBroadcast
    );
    assert_eq!(
        classify_cover_profile(20 * 1024 * 1024, 10 * 1024 * 1024),
        CoverTrafficProfileV2::InteractiveVideo
    );
    assert_eq!(
        classify_cover_profile(64 * 1024, 10 * 1024 * 1024),
        CoverTrafficProfileV2::GenericH3Bulk
    );
}

#[test]
fn nonblocking_tun_drain_adapts_to_record_geometry_without_waiting() {
    let mut telemetry = sample(1);
    telemetry.packets_per_second = 200_000;
    telemetry.cpu_utilization_per_mille = 200;
    let mut tuner = AutoTunerV2::new(AutoTuneBoundsV2::default(), 1);
    let decision = tuner.observe(telemetry);
    assert_eq!(decision.receive_batch, 64);

    telemetry.average_record_bytes = 60 * 1024;
    telemetry.gso_ingress_ratio_ppm = 1_000_000;
    let decision = AutoTunerV2::new(AutoTuneBoundsV2::default(), 1).observe(telemetry);
    assert_eq!(decision.receive_batch, 8);

    telemetry.tun_ingress_bytes_per_second = 0;
    let decision = AutoTunerV2::new(AutoTuneBoundsV2::default(), 1).observe(telemetry);
    assert_eq!(decision.receive_batch, 64);
}

#[test]
fn queue_inflated_tracking_band_detects_short_rtt_policer() {
    let mut filter = TelemetryFilterV1::new(AutoTuneBoundsV2::default());
    let mut telemetry = sample(1);
    telemetry.min_rtt = Duration::from_micros(4_044);
    telemetry.rtt = Duration::from_micros(16_542);
    telemetry.queue_delay = Duration::from_micros(12_497);
    telemetry.loss_ppm = 40_523;
    telemetry.controller_state = 3;
    telemetry.controller_bw_bytes_per_second = 11_674_318;
    telemetry.delivery_rate_bytes_per_second = 12_587_250;

    let filtered = filter.update(telemetry, 8 * 1024 * 1024);
    assert!(filtered.rtt_micros > 10_000);
    assert!(filtered.raw_queue_inflated());
    assert!(filtered.policer_limited());
}

#[test]
fn rate_matched_deep_wifi_does_not_match_policer_tracking_band() {
    let mut filter = TelemetryFilterV1::new(AutoTuneBoundsV2::default());
    let mut telemetry = sample(1);
    telemetry.min_rtt = Duration::from_micros(5_725);
    telemetry.rtt = Duration::from_micros(92_054);
    telemetry.queue_delay = Duration::from_micros(86_329);
    telemetry.loss_ppm = 26_424;
    telemetry.controller_state = 4;
    telemetry.controller_bw_bytes_per_second = 9 * 1024 * 1024;
    telemetry.delivery_rate_bytes_per_second = 9 * 1024 * 1024;

    let filtered = filter.update(telemetry, 8 * 1024 * 1024);
    assert!(filtered.raw_queue_inflated());
    assert!(!filtered.policer_limited());
}

#[test]
fn retired_policer_loss_does_not_relatch_clean_tracking_traffic() {
    let mut filter = TelemetryFilterV1::new(AutoTuneBoundsV2::default());
    let mut telemetry = sample(1);
    telemetry.min_rtt = Duration::from_millis(4);
    telemetry.rtt = Duration::from_millis(16);
    telemetry.queue_delay = Duration::from_millis(12);
    telemetry.loss_ppm = 40_000;
    telemetry.controller_state = 3;
    telemetry.controller_bw_bytes_per_second = 9 * 1024 * 1024;
    telemetry.delivery_rate_bytes_per_second = 9 * 1024 * 1024;
    assert!(filter.update(telemetry, 8 * 1024 * 1024).policer_limited());

    telemetry.loss_ppm = 0;
    telemetry.real_traffic_bytes_per_second = 0;
    telemetry.tun_ingress_bytes_per_second = 0;
    telemetry.packet_train_queue_bytes = 0;
    assert!(filter.update(telemetry, 8 * 1024 * 1024).policer_limited());
    let retired = filter.update(telemetry, 8 * 1024 * 1024);
    assert!(!retired.policer_limited());
    assert_eq!(retired.loss_ppm, 0);
    assert_eq!(retired.protection_samples, 0);

    telemetry.real_traffic_bytes_per_second = 20 * 1024 * 1024;
    telemetry.tun_ingress_bytes_per_second = 20 * 1024 * 1024;
    telemetry.packet_train_queue_bytes = 128 * 1024;
    let clean = filter.update(telemetry, 8 * 1024 * 1024);
    assert_eq!(clean.loss_ppm, 0);
    assert!(!clean.policer_limited());
}

#[test]
fn rate_tracking_band_has_inclusive_ten_percent_boundaries() {
    assert!(rates_track_within_ten_percent(10_000, 11_000));
    assert!(!rates_track_within_ten_percent(10_000, 11_001));
    assert!(rates_track_within_ten_percent(11_000, 10_000));
    assert!(!rates_track_within_ten_percent(11_001, 10_000));
    assert!(!rates_track_within_ten_percent(0, 10_000));
    assert!(!rates_track_within_ten_percent(10_000, 0));
    assert!(rates_track_within_ten_percent(u64::MAX, u64::MAX));
}

#[test]
fn unqueued_policer_keeps_accepting_model_far_above_delivery_in_startup() {
    let mut filter = TelemetryFilterV1::new(AutoTuneBoundsV2::default());
    let mut telemetry = sample(1);
    telemetry.min_rtt = Duration::from_millis(4);
    telemetry.rtt = Duration::from_millis(5);
    telemetry.queue_delay = Duration::from_millis(1);
    telemetry.loss_ppm = 20_000;
    telemetry.controller_state = 0;
    telemetry.controller_bw_bytes_per_second = 14_332_836;
    telemetry.delivery_rate_bytes_per_second = 8_718_812;

    let filtered = filter.update(telemetry, 8 * 1024 * 1024);
    assert!(!filtered.raw_queue_inflated());
    assert!(filtered.policer_limited());
}

#[test]
fn short_rtt_deep_queue_is_not_a_policer_but_still_suppresses_fec() {
    let mut filter = TelemetryFilterV1::new(AutoTuneBoundsV2::default());
    let mut telemetry = sample(1);
    telemetry.min_rtt = Duration::from_millis(5);
    telemetry.rtt = Duration::from_millis(12);
    telemetry.queue_delay = Duration::from_millis(7);
    telemetry.loss_ppm = 80_000;
    telemetry.burst_loss_cells = 4;
    let filtered = filter.update(telemetry, 8 * 1024 * 1024);
    assert!(filtered.raw_queue_inflated());
    assert!(!filtered.policer_limited());
    let candidate = NativePolicyV1.propose(&filtered, &HostLimitsV1::default());
    let fec = candidate.fec.expect("deep-queue FEC-off candidate");
    assert_eq!(fec.enabled, Some(false));
}

#[test]
fn short_rtt_policer_activation_latches_across_clean_pacing_samples() {
    let mut filter = TelemetryFilterV1::new(AutoTuneBoundsV2::default());
    let mut telemetry = sample(1);
    telemetry.min_rtt = Duration::from_millis(4);
    telemetry.rtt = Duration::from_millis(5);
    telemetry.queue_delay = Duration::from_millis(1);
    telemetry.controller_bw_bytes_per_second = 25 * 1024 * 1024;

    // The first credible lossy sample caps immediately. Later clean
    // samples prove pacing works without releasing the latch.
    for loss_ppm in [17_942, 0, 0, 0, 0, 0, 65_479, 5_313, 0, 0, 0] {
        telemetry.loss_ppm = loss_ppm;
        let filtered = filter.update(telemetry, 8 * 1024 * 1024);
        assert!(
            filtered.policer_limited(),
            "loss={loss_ppm}, filtered={filtered:?}"
        );
        assert_eq!(filtered.classify(), TuneReasonV2::Congested);
    }

    telemetry.loss_ppm = 0;
    telemetry.real_traffic_bytes_per_second = 0;
    telemetry.tun_ingress_bytes_per_second = 0;
    telemetry.packet_train_queue_bytes = 0;
    assert!(filter.update(telemetry, 8 * 1024 * 1024).policer_limited());
    assert!(!filter.update(telemetry, 8 * 1024 * 1024).policer_limited());

    // Reset is authoritative even if the preceding activation was pinned.
    telemetry.real_traffic_bytes_per_second = 20 * 1024 * 1024;
    telemetry.tun_ingress_bytes_per_second = 20 * 1024 * 1024;
    telemetry.packet_train_queue_bytes = 128 * 1024;
    telemetry.loss_ppm = 80_000;
    assert!(filter.update(telemetry, 8 * 1024 * 1024).policer_limited());
    filter.reset();
    telemetry.loss_ppm = 0;
    assert!(!filter.view(telemetry).policer_limited());
}

#[test]
fn short_rtt_policer_holds_entry_estimate_without_publishing_external_cap() {
    let mut filter = TelemetryFilterV1::new(AutoTuneBoundsV2::default());
    let mut telemetry = sample(1);
    telemetry.min_rtt = Duration::from_millis(4);
    telemetry.rtt = Duration::from_millis(5);
    telemetry.queue_delay = Duration::from_millis(1);
    telemetry.loss_ppm = 20_000;
    telemetry.controller_bw_bytes_per_second = 10 * 1024 * 1024;
    telemetry.delivery_rate_bytes_per_second = 8 * 1024 * 1024;
    let held_cap = 10 * 1024 * 1024 * 950 / 1_000;

    let filtered = filter.update(telemetry, 8 * 1024 * 1024);
    assert!(filtered.policer_limited());
    assert_eq!(
        filtered.short_rtt_policer_pacing_cap_bytes_per_second,
        Some(held_cap)
    );
    let candidate = NativePolicyV1.propose(&filtered, &HostLimitsV1::default());
    let fec = candidate.fec.expect("short-RTT policer FEC-off candidate");
    assert_eq!(fec.enabled, Some(false));
    let bbr = candidate.bbr.expect("short-RTT policer candidate");
    assert_eq!(bbr.pacing_cap_bytes_per_second, Some(0));
    assert_eq!(bbr.loss_is_congestion, Some(false));

    // Once entered, neither later loss nor a collapsed controller/delivery
    // estimate may feed a shaped result back into the episode cap.
    telemetry.loss_ppm = 1_405;
    telemetry.controller_bw_bytes_per_second = 2 * 1024 * 1024;
    telemetry.delivery_rate_bytes_per_second = 2 * 1024 * 1024;
    let filtered = filter.update(telemetry, 8 * 1024 * 1024);
    assert!(filtered.policer_limited());
    assert_eq!(
        filtered.short_rtt_policer_pacing_cap_bytes_per_second,
        Some(held_cap)
    );
    let candidate = NativePolicyV1.propose(&filtered, &HostLimitsV1::default());
    let fec = candidate
        .fec
        .expect("held low-loss short-RTT policer FEC-off candidate");
    assert_eq!(fec.enabled, Some(false));
    let bbr = candidate.bbr.expect("held short-RTT policer candidate");
    assert_eq!(bbr.pacing_cap_bytes_per_second, Some(0));
    assert_eq!(bbr.loss_is_congestion, Some(false));

    // Severe loss and receiver evidence remain inside the same constrained
    // wire budget and therefore cannot turn parity back on.
    telemetry.loss_ppm = 80_000;
    telemetry.residual_loss_ppm = 5_000;
    telemetry.remote_expired_stripes_delta = 1;
    let filtered = filter.update(telemetry, 8 * 1024 * 1024);
    assert_eq!(
        filtered.short_rtt_policer_pacing_cap_bytes_per_second,
        Some(held_cap)
    );
    let candidate = NativePolicyV1.propose(&filtered, &HostLimitsV1::default());
    let fec = candidate.fec.expect("receiver-evidence FEC-off candidate");
    assert_eq!(fec.enabled, Some(false));
    let bbr = candidate.bbr.expect("fixed-cap policer candidate");
    assert_eq!(bbr.pacing_cap_bytes_per_second, Some(0));
    assert_eq!(bbr.loss_is_congestion, Some(false));

    // Two truly idle samples retire both the classifier and its held cap.
    telemetry.real_traffic_bytes_per_second = 0;
    telemetry.tun_ingress_bytes_per_second = 0;
    telemetry.packet_train_queue_bytes = 0;
    let filtered = filter.update(telemetry, 8 * 1024 * 1024);
    assert!(filtered.policer_limited());
    assert_eq!(
        filtered.short_rtt_policer_pacing_cap_bytes_per_second,
        Some(held_cap)
    );
    let filtered = filter.update(telemetry, 8 * 1024 * 1024);
    assert!(!filtered.policer_limited());
    assert_eq!(filtered.short_rtt_policer_pacing_cap_bytes_per_second, None);

    // A path/filter reset also cannot carry the former policer cap.
    filter.reset();
    assert_eq!(
        filter
            .view(telemetry)
            .short_rtt_policer_pacing_cap_bytes_per_second,
        None
    );

    // A missing or lagging model cannot latch below delivery the same
    // sample already proved. Once the model catches up, entry is
    // immediate and captures the normal discounted model cap.
    telemetry.real_traffic_bytes_per_second = 20 * 1024 * 1024;
    telemetry.tun_ingress_bytes_per_second = 20 * 1024 * 1024;
    telemetry.packet_train_queue_bytes = 128 * 1024;
    telemetry.loss_ppm = 20_000;
    telemetry.delivery_rate_bytes_per_second = 5 * 1024 * 1024;
    telemetry.controller_bw_bytes_per_second = 0;
    let filtered = filter.update(telemetry, 8 * 1024 * 1024);
    assert!(!filtered.policer_limited());
    assert_eq!(filtered.short_rtt_policer_pacing_cap_bytes_per_second, None);
    telemetry.controller_bw_bytes_per_second = 4 * 1024 * 1024;
    assert!(!filter.update(telemetry, 8 * 1024 * 1024).policer_limited());
    telemetry.controller_bw_bytes_per_second = 7 * 1024 * 1024;
    assert!(
        !filter.update(telemetry, 8 * 1024 * 1024).policer_limited(),
        "a model above delivery but below the 8 MiB/s policer floor stays LossyRadio"
    );
    telemetry.controller_bw_bytes_per_second = 9 * 1024 * 1024;
    let filtered = filter.update(telemetry, 8 * 1024 * 1024);
    assert!(filtered.policer_limited());
    let bbr = NativePolicyV1
        .propose(&filtered, &HostLimitsV1::default())
        .bbr
        .expect("credible-model short-RTT policer candidate");
    assert_eq!(bbr.pacing_cap_bytes_per_second, Some(0));
    assert_eq!(bbr.loss_is_congestion, Some(false));
}

#[test]
fn short_rtt_policer_entry_uses_clean_peak_and_ignores_lossy_delivery() {
    let mut filter = TelemetryFilterV1::new(AutoTuneBoundsV2::default());
    let mut telemetry = sample(1);
    telemetry.min_rtt = Duration::from_millis(4);
    telemetry.rtt = Duration::from_millis(5);
    telemetry.queue_delay = Duration::from_millis(1);
    telemetry.loss_ppm = 0;
    telemetry.controller_bw_bytes_per_second = 14_400_000;
    telemetry.delivery_rate_bytes_per_second = 13_150_000;
    assert!(!filter.update(telemetry, 8 * 1024 * 1024).policer_limited());

    // Gate20/22 report a model peak above the clean wire peak, followed
    // by a roughly 7 MB/s lossy entry interval. The entry interval must
    // retain the preceding clean evidence rather than becoming the cap.
    telemetry.loss_ppm = 20_000;
    telemetry.delivery_rate_bytes_per_second = 7_000_000;
    let clean_peak_cap = 13_150_000;

    let filtered = filter.update(telemetry, 8 * 1024 * 1024);
    assert!(filtered.policer_limited());
    assert_eq!(
        filtered.short_rtt_policer_pacing_cap_bytes_per_second,
        Some(clean_peak_cap),
        "the recent clean peak should ceiling the optimistic controller model"
    );

    telemetry.loss_ppm = 0;
    telemetry.controller_bw_bytes_per_second = 2 * 1024 * 1024;
    telemetry.delivery_rate_bytes_per_second = 2 * 1024 * 1024;
    let held = filter.update(telemetry, 8 * 1024 * 1024);
    assert_eq!(
        held.short_rtt_policer_pacing_cap_bytes_per_second,
        Some(clean_peak_cap),
        "later low delivery must not ratchet the fixed entry cap"
    );

    // A ramp sample at only 90% of the discounted model is still not
    // credible clean capacity evidence and must not freeze the whole
    // policer activation below the later steady payload rate.
    let mut startup_filter = TelemetryFilterV1::new(AutoTuneBoundsV2::default());
    telemetry.loss_ppm = 0;
    telemetry.controller_bw_bytes_per_second = 15_100_000;
    let startup_model_cap = 15_100_000 * 950 / 1_000;
    telemetry.delivery_rate_bytes_per_second = startup_model_cap * 90 / 100;
    startup_filter.update(telemetry, 8 * 1024 * 1024);
    telemetry.loss_ppm = 20_000;
    telemetry.delivery_rate_bytes_per_second = 7_000_000;
    let filtered = startup_filter.update(telemetry, 8 * 1024 * 1024);
    assert_eq!(
        filtered.short_rtt_policer_pacing_cap_bytes_per_second,
        Some(startup_model_cap),
        "clean evidence below 95% of the model cap must be ignored"
    );
}

#[test]
fn short_rtt_policer_clean_peak_rolls_and_idle_or_reset_clears_it() {
    fn short_sample() -> PathTelemetryV2 {
        let mut telemetry = sample(1);
        telemetry.min_rtt = Duration::from_millis(4);
        telemetry.rtt = Duration::from_millis(5);
        telemetry.queue_delay = Duration::from_millis(1);
        telemetry.loss_ppm = 0;
        telemetry.controller_bw_bytes_per_second = 15_200_000;
        telemetry
    }

    let mut filter = TelemetryFilterV1::new(AutoTuneBoundsV2::default());
    let mut telemetry = short_sample();
    // Six observations prove that the peak is over the most recent five,
    // not the maximum seen over the entire activation.
    for delivery in [
        20_000_000, 10_000_000, 11_000_000, 12_000_000, 13_000_000, 14_000_000,
    ] {
        telemetry.delivery_rate_bytes_per_second = delivery;
        filter.update(telemetry, 8 * 1024 * 1024);
    }
    telemetry.loss_ppm = 20_000;
    telemetry.delivery_rate_bytes_per_second = 7_000_000;
    let filtered = filter.update(telemetry, 8 * 1024 * 1024);
    assert_eq!(
        filtered.short_rtt_policer_pacing_cap_bytes_per_second,
        Some(14_000_000)
    );

    // A true idle tick clears the clean-capacity window immediately,
    // independently of the classifier's two-tick inactive hold.
    let mut idle_filter = TelemetryFilterV1::new(AutoTuneBoundsV2::default());
    telemetry = short_sample();
    telemetry.delivery_rate_bytes_per_second = 12_000_000;
    idle_filter.update(telemetry, 8 * 1024 * 1024);
    telemetry.real_traffic_bytes_per_second = 0;
    telemetry.tun_ingress_bytes_per_second = 0;
    telemetry.packet_train_queue_bytes = 0;
    idle_filter.update(telemetry, 8 * 1024 * 1024);
    telemetry.real_traffic_bytes_per_second = 20 * 1024 * 1024;
    telemetry.tun_ingress_bytes_per_second = 20 * 1024 * 1024;
    telemetry.packet_train_queue_bytes = 128 * 1024;
    telemetry.loss_ppm = 20_000;
    telemetry.controller_bw_bytes_per_second = 20_000_000;
    assert_eq!(
        idle_filter
            .update(telemetry, 8 * 1024 * 1024)
            .short_rtt_policer_pacing_cap_bytes_per_second,
        Some(20_000_000 * 950 / 1_000),
        "idle must force the no-clean-evidence model fallback"
    );

    let mut reset_filter = TelemetryFilterV1::new(AutoTuneBoundsV2::default());
    telemetry = short_sample();
    telemetry.delivery_rate_bytes_per_second = 12_000_000;
    reset_filter.update(telemetry, 8 * 1024 * 1024);
    reset_filter.reset();
    telemetry.loss_ppm = 20_000;
    telemetry.controller_bw_bytes_per_second = 20_000_000;
    telemetry.delivery_rate_bytes_per_second = 7_000_000;
    assert_eq!(
        reset_filter
            .update(telemetry, 8 * 1024 * 1024)
            .short_rtt_policer_pacing_cap_bytes_per_second,
        Some(20_000_000 * 950 / 1_000),
        "path/filter reset must discard the former clean peak"
    );

    let mut no_delivery = TelemetryFilterV1::new(AutoTuneBoundsV2::default());
    telemetry = short_sample();
    telemetry.loss_ppm = 20_000;
    telemetry.controller_bw_bytes_per_second = 10 * 1024 * 1024;
    telemetry.delivery_rate_bytes_per_second = 0;
    let fallback = no_delivery.update(telemetry, 8 * 1024 * 1024);
    assert_eq!(
        fallback.short_rtt_policer_pacing_cap_bytes_per_second,
        Some(10 * 1024 * 1024 * 950 / 1_000),
        "zero delivery retains the controller-margin fallback"
    );
}

#[test]
fn short_rtt_policer_entry_rejects_home_loss_spikes_and_high_rtt_loss() {
    let mut home = TelemetryFilterV1::new(AutoTuneBoundsV2::default());
    let mut telemetry = sample(1);
    telemetry.min_rtt = Duration::from_millis(17);
    telemetry.rtt = Duration::from_millis(19);
    telemetry.queue_delay = Duration::from_millis(2);
    for loss_ppm in [0, 4_415, 2_680, 1_486, 1_087, 0, 647, 2_761, 10_582] {
        telemetry.loss_ppm = loss_ppm;
        assert!(!home.update(telemetry, 8 * 1024 * 1024).policer_limited());
    }

    let mut high_rtt = TelemetryFilterV1::new(AutoTuneBoundsV2::default());
    telemetry.min_rtt = Duration::from_millis(8);
    telemetry.rtt = Duration::from_millis(45);
    telemetry.queue_delay = Duration::from_millis(37);
    telemetry.loss_ppm = 80_000;
    for _ in 0..4 {
        assert!(
            !high_rtt
                .update(telemetry, 8 * 1024 * 1024)
                .policer_limited()
        );
    }
}

#[test]
fn short_rtt_policer_entry_requires_both_filtered_rtts_at_most_ten_ms() {
    let mut telemetry = sample(1);
    telemetry.queue_delay = Duration::zero();
    telemetry.loss_ppm = 80_000;
    telemetry.controller_bw_bytes_per_second = 25 * 1024 * 1024;

    telemetry.min_rtt = Duration::from_millis(10);
    telemetry.rtt = Duration::from_millis(10);
    let mut boundary = TelemetryFilterV1::new(AutoTuneBoundsV2::default());
    assert!(
        boundary
            .update(telemetry, 8 * 1024 * 1024)
            .policer_limited()
    );

    telemetry.min_rtt = Duration::from_micros(10_001);
    telemetry.rtt = Duration::from_micros(10_001);
    let mut wifi = TelemetryFilterV1::new(AutoTuneBoundsV2::default());
    assert!(!wifi.update(telemetry, 8 * 1024 * 1024).policer_limited());
}

#[test]
fn short_rtt_congestion_candidate_uses_raw_one_percent_loss_boundary() {
    let limits = HostLimitsV1::default();

    let mut below_filter = TelemetryFilterV1::new(AutoTuneBoundsV2::default());
    let mut below = sample(1);
    below.min_rtt = Duration::from_millis(10);
    below.rtt = Duration::from_millis(11);
    below.queue_delay = Duration::from_millis(1);
    below.loss_ppm = 9_999;
    below.burst_loss_cells = 3;
    let filtered = below_filter.update(below, 8 * 1024 * 1024);
    assert_eq!(filtered.loss_ppm, 9_999);
    let fec = NativePolicyV1
        .propose(&filtered, &limits)
        .fec
        .expect("sub-boundary burst FEC candidate");
    assert_eq!(fec.enabled, Some(true));
    assert_eq!((fec.data_cells, fec.parity_cells), (Some(8), Some(1)));

    let mut boundary_filter = TelemetryFilterV1::new(AutoTuneBoundsV2::default());
    let mut boundary = below;
    boundary.loss_ppm = 10_000;
    boundary.burst_loss_cells = 0;
    let filtered = boundary_filter.update(boundary, 8 * 1024 * 1024);
    assert_eq!(filtered.loss_ppm, 10_000);
    let fec = NativePolicyV1
        .propose(&filtered, &limits)
        .fec
        .expect("raw-boundary FEC-off candidate");
    assert_eq!(fec.enabled, Some(false));
}

#[test]
fn short_rtt_congestion_candidate_uses_retained_filtered_loss_boundary() {
    let limits = HostLimitsV1::default();
    let mut filter = TelemetryFilterV1::new(AutoTuneBoundsV2::default());
    let mut telemetry = sample(1);
    telemetry.min_rtt = Duration::from_millis(10);
    telemetry.rtt = Duration::from_millis(11);
    telemetry.queue_delay = Duration::from_millis(1);
    telemetry.loss_ppm = 11_000;
    filter.update(telemetry, 8 * 1024 * 1024);

    telemetry.loss_ppm = 9_999;
    let filtered = filter.update(telemetry, 8 * 1024 * 1024);
    assert_eq!(filtered.raw.loss_ppm, 9_999);
    assert!(filtered.loss_ppm >= 10_000);
    let fec = NativePolicyV1
        .propose(&filtered, &limits)
        .fec
        .expect("filtered-boundary FEC-off candidate");
    assert_eq!(fec.enabled, Some(false));
}

#[test]
fn wan_loss_above_one_percent_retains_fec_protection() {
    let mut filter = TelemetryFilterV1::new(AutoTuneBoundsV2::default());
    let mut telemetry = sample(1);
    telemetry.min_rtt = Duration::from_millis(85);
    telemetry.rtt = Duration::from_millis(90);
    telemetry.queue_delay = Duration::from_millis(5);
    telemetry.loss_ppm = 20_000;

    let filtered = filter.update(telemetry, 8 * 1024 * 1024);
    let fec = NativePolicyV1
        .propose(&filtered, &HostLimitsV1::default())
        .fec
        .expect("WAN loss FEC candidate");
    assert_eq!(fec.enabled, Some(true));
    assert_eq!((fec.data_cells, fec.parity_cells), (Some(6), Some(2)));
}

#[test]
fn low_random_loss_keeps_fec_off_for_ordinary_policer_cpu_and_relay_paths() {
    let mut filter = TelemetryFilterV1::new(AutoTuneBoundsV2::default());
    let mut telemetry = sample(1);
    telemetry.min_rtt = Duration::from_millis(20);
    telemetry.rtt = Duration::from_millis(50);
    telemetry.queue_delay = Duration::from_millis(30);
    telemetry.loss_ppm = 9_999;
    telemetry.burst_loss_cells = 2;
    telemetry.residual_loss_ppm = 1_000;
    telemetry.remote_expired_stripes_delta = 1;

    let filtered = filter.update(telemetry, 8 * 1024 * 1024);
    assert!(!filtered.protection_emergency());
    let fec = NativePolicyV1
        .propose(&filtered, &HostLimitsV1::default())
        .fec
        .expect("ordinary low-random-loss FEC-off candidate");
    assert_eq!(fec.enabled, Some(false));

    // A short-RTT policer remains FEC-off after pacing turns the live
    // sample clean; its payload cap already reserves physical wire
    // overhead, and parity would consume that constrained payload budget.
    let mut policer = TelemetryFilterV1::new(AutoTuneBoundsV2::default());
    telemetry.min_rtt = Duration::from_millis(4);
    telemetry.rtt = Duration::from_millis(5);
    telemetry.queue_delay = Duration::from_millis(1);
    telemetry.controller_bw_bytes_per_second = 10 * 1024 * 1024;
    telemetry.burst_loss_cells = 0;
    telemetry.residual_loss_ppm = 0;
    telemetry.remote_expired_stripes_delta = 0;
    telemetry.loss_ppm = 20_000;
    telemetry.delivery_rate_bytes_per_second = 8 * 1024 * 1024;
    policer.update(telemetry, 8 * 1024 * 1024);
    telemetry.loss_ppm = 0;
    policer.update(telemetry, 8 * 1024 * 1024);
    let filtered = policer.update(telemetry, 8 * 1024 * 1024);
    assert!(filtered.policer_limited());
    assert!(filtered.loss_ppm < 10_000);
    let fec = NativePolicyV1
        .propose(&filtered, &HostLimitsV1::default())
        .fec
        .expect("policer FEC-off candidate");
    assert_eq!(fec.enabled, Some(false));

    telemetry.min_rtt = Duration::from_millis(20);
    telemetry.rtt = Duration::from_millis(50);
    telemetry.queue_delay = Duration::from_millis(30);
    telemetry.loss_ppm = 9_999;
    telemetry.cpu_utilization_per_mille = 950;
    let decision = AutoTunerV2::new(AutoTuneBoundsV2::default(), 1).observe(telemetry);
    assert_eq!(decision.fec, None, "CPU host guardrail suppresses FEC");

    telemetry.cpu_utilization_per_mille = 0;
    telemetry.reliability = PathReliability::ReliableRelay;
    let decision = AutoTunerV2::new(AutoTuneBoundsV2::default(), 1).observe(telemetry);
    assert_eq!(decision.fec, None, "reliable host guardrail suppresses FEC");
}

#[test]
fn policer_receiver_gap_evidence_does_not_amplify_the_constrained_wire() {
    for (residual_loss_ppm, expired_stripes) in [(5_000, 0), (0, 1)] {
        let start = Instant { nanos: 1_000_000_000 };
        let mut tuner = AutoTunerV2::new(AutoTuneBoundsV2::default(), 1);
        let mut telemetry = sample(1);
        telemetry.min_rtt = Duration::from_millis(4);
        telemetry.rtt = Duration::from_millis(5);
        telemetry.queue_delay = Duration::from_millis(1);
        telemetry.loss_ppm = 20_000;
        telemetry.controller_bw_bytes_per_second = 10 * 1024 * 1024;
        telemetry.delivery_rate_bytes_per_second = 8 * 1024 * 1024;
        let entered = tuner.observe_at(telemetry, start);
        assert_eq!(entered.bbr.pacing_cap_bytes_per_second, 0);
        assert_eq!(entered.fec, None);

        // Receiver gaps produced by the original overshoot are not
        // independent loss evidence: parity would consume the same fixed
        // policer budget and perpetuate those gaps.
        telemetry.loss_ppm = 0;
        telemetry.residual_loss_ppm = residual_loss_ppm;
        telemetry.remote_expired_stripes_delta = expired_stripes;
        let mut decision = entered;
        for offset in 1..=3 {
            decision = tuner.observe_at(telemetry, start.after(Duration::from_secs(offset)));
        }
        assert_eq!(decision.fec, None);
        assert_eq!(decision.bbr.pacing_cap_bytes_per_second, 0);
        assert!(!decision.bbr.loss_is_congestion);
    }
}

#[test]
fn active_zero_loss_keeps_fec_off_even_with_receiver_gap_evidence() {
    let start = Instant { nanos: 1_000_000_000 };
    let mut tuner = AutoTunerV2::new(AutoTuneBoundsV2::default(), 1);
    let mut telemetry = sample(1);
    telemetry.loss_ppm = 0;
    telemetry.residual_loss_ppm = 1_000;
    telemetry.remote_expired_stripes_delta = 1;

    for offset in 0..=4 {
        let decision = tuner.observe_at(telemetry, start.after(Duration::from_secs(offset)));
        assert_eq!(decision.reason, TuneReasonV2::HealthyLowLoss);
        assert_eq!(decision.fec, None);
    }
}

#[test]
fn congested_path_does_not_spend_its_wire_budget_on_parity() {
    let mut telemetry = sample(1);
    telemetry.min_rtt = Duration::from_millis(20);
    telemetry.rtt = Duration::from_millis(50);
    telemetry.queue_delay = Duration::from_millis(30);
    telemetry.loss_ppm = 80_000;
    telemetry.burst_loss_cells = 4;

    let mut filter = TelemetryFilterV1::new(AutoTuneBoundsV2::default());
    let filtered = filter.update(telemetry, 8 * 1024 * 1024);
    assert!(filtered.congested());
    let fec = NativePolicyV1
        .propose(&filtered, &HostLimitsV1::default())
        .fec
        .expect("congested FEC-off candidate");
    assert_eq!(fec.enabled, Some(false));
}

#[test]
fn congestion_suppresses_fec_even_at_the_protection_emergency_threshold() {
    let mut filter = TelemetryFilterV1::new(AutoTuneBoundsV2::default());
    let mut telemetry = sample(1);
    telemetry.min_rtt = Duration::from_millis(20);
    telemetry.rtt = Duration::from_millis(50);
    telemetry.queue_delay = Duration::from_millis(30);
    telemetry.loss_ppm = 10_000;

    let filtered = filter.update(telemetry, 8 * 1024 * 1024);
    assert!(filtered.protection_emergency());
    let fec = NativePolicyV1
        .propose(&filtered, &HostLimitsV1::default())
        .fec
        .expect("one-percent congested FEC-off candidate");
    assert_eq!(fec.enabled, Some(false));

    let mut burst_filter = TelemetryFilterV1::new(AutoTuneBoundsV2::default());
    telemetry.loss_ppm = 3_000;
    telemetry.burst_loss_cells = 3;
    let burst = burst_filter.update(telemetry, 8 * 1024 * 1024);
    assert!(burst.protection_emergency());
    let fec = NativePolicyV1
        .propose(&burst, &HostLimitsV1::default())
        .fec
        .expect("three-cell-burst congested FEC-off candidate");
    assert_eq!(fec.enabled, Some(false));
}

#[test]
fn high_rtt_jitter_does_not_suppress_loss_protection() {
    let mut tuner = AutoTunerV2::new(AutoTuneBoundsV2::default(), 1);
    let mut telemetry = sample(1);
    telemetry.min_rtt = Duration::from_millis(85);
    telemetry.rtt = Duration::from_millis(93);
    telemetry.queue_delay = Duration::from_millis(8);
    telemetry.loss_ppm = 80_000;
    telemetry.burst_loss_cells = 4;

    let decision = tuner.observe(telemetry);
    assert_eq!(decision.reason, TuneReasonV2::BurstLoss);
    assert_eq!(
        decision.fec,
        Some(FecGeometryV2 {
            data_cells: 4,
            parity_cells: 4,
        })
    );
    assert!((16 * 1024 * 1024..=32 * 1024 * 1024).contains(&decision.repair_cache_bytes));
}

#[test]
fn fec_hysteresis_never_emits_protected_cells_with_zero_repair_cache() {
    let start = Instant { nanos: 1_000_000_000 };
    let mut tuner = AutoTunerV2::new(AutoTuneBoundsV2::default(), 1);
    let mut telemetry = sample(1);
    telemetry.loss_ppm = 80_000;
    telemetry.burst_loss_cells = 4;
    let enabled = tuner.observe_at(telemetry, start);
    assert!(enabled.fec.is_some());
    assert!(enabled.repair_cache_bytes > 0);

    telemetry.loss_ppm = 0;
    telemetry.burst_loss_cells = 0;
    let settling = tuner.observe_at(telemetry, start.after(Duration::from_millis(100)));
    assert!(
        settling.fec.is_some(),
        "FEC transition should still be held"
    );
    assert!(
        settling.repair_cache_bytes > 0,
        "the held FEC geometry must retain its dependent Repair cache"
    );
}

#[test]
fn reliable_relay_disables_fec_and_shrinks_repair_cache() {
    let mut tuner = AutoTunerV2::new(AutoTuneBoundsV2::default(), 1);
    let mut telemetry = sample(1);
    telemetry.reliability = PathReliability::ReliableRelay;
    telemetry.loss_ppm = 100_000;
    telemetry.burst_loss_cells = 5;
    let decision = tuner.observe(telemetry);
    assert_eq!(decision.fec, None);
    assert_eq!(decision.reason, TuneReasonV2::ReliablePath);
    assert_eq!(decision.repair_cache_bytes, 1024 * 1024);
}

#[test]
fn repair_cache_covers_high_rtt_request_response_horizon() {
    let geometry = Some(FecGeometryV2 {
        data_cells: 4,
        parity_cells: 2,
    });
    assert_eq!(
        repair_cache_target_bytes(
            PathReliability::Datagram,
            geometry,
            85_000,
            6_250_000,
            6_250_000,
        ),
        16 * 1024 * 1024
    );
    assert_eq!(
        repair_cache_target_bytes(
            PathReliability::Datagram,
            geometry,
            180_000,
            62_500_000,
            62_500_000,
        ),
        32 * 1024 * 1024
    );
}

#[test]
fn first_loss_sample_installs_sparse_fec_without_waiting_for_inner_rto() {
    let start = Instant { nanos: 1_000_000_000 };
    let mut tuner = AutoTunerV2::new(AutoTuneBoundsV2::default(), 1);
    let mut telemetry = sample(1);
    telemetry.min_rtt = Duration::from_millis(18);
    telemetry.rtt = Duration::from_millis(20);
    telemetry.loss_ppm = 10_000;
    assert_eq!(
        tuner.observe_at(telemetry, start).fec,
        Some(FecGeometryV2 {
            data_cells: 8,
            parity_cells: 1
        })
    );
}

#[test]
fn idle_probe_loss_does_not_prearm_fec_or_policer_state() {
    let start = Instant { nanos: 1_000_000_000 };
    let mut tuner = AutoTunerV2::new(AutoTuneBoundsV2::default(), 1);
    let mut telemetry = sample(1);
    telemetry.min_rtt = Duration::from_millis(8);
    telemetry.rtt = Duration::from_millis(9);
    telemetry.loss_ppm = 9_999;
    telemetry.controller_bw_bytes_per_second = 16 * 1024 * 1024;
    telemetry.packets_per_second = 8;
    telemetry.real_traffic_bytes_per_second = 0;
    telemetry.tun_ingress_bytes_per_second = 0;
    telemetry.packet_train_queue_bytes = 0;

    for offset in 0..5 {
        let decision = tuner.observe_at(telemetry, start.after(Duration::from_secs(offset)));
        assert_eq!(decision.fec, None);
        assert_eq!(decision.reason, TuneReasonV2::HealthyLowLoss);
    }
    assert_eq!(tuner.smoothed.loss_ppm, 0);
}

#[test]
fn saturated_loss_stall_arms_protection_below_normal_traffic_floor() {
    let start = Instant { nanos: 1_000_000_000 };
    let mut tuner = AutoTunerV2::new(AutoTuneBoundsV2::default(), 1);
    let mut telemetry = sample(1);
    telemetry.min_rtt = Duration::from_millis(80);
    telemetry.rtt = Duration::from_millis(85);
    telemetry.loss_ppm = 100_000;
    telemetry.real_traffic_bytes_per_second = 32 * 1024;
    telemetry.packets_per_second = 64;
    telemetry.packet_train_queue_bytes = 256 * 1024;

    let decision = tuner.observe_at(telemetry, start);
    assert_eq!(decision.reason, TuneReasonV2::RandomLoss);
    assert!(decision.fec.is_some());
}

#[test]
fn unqueued_shallow_policer_keeps_fec_and_external_cap_off() {
    let start = Instant { nanos: 1_000_000_000 };
    let mut tuner = AutoTunerV2::new(AutoTuneBoundsV2::default(), 1);
    let mut telemetry = sample(1);
    telemetry.min_rtt = Duration::from_millis(5);
    telemetry.rtt = Duration::from_millis(6);
    telemetry.queue_delay = Duration::from_millis(1);
    telemetry.loss_ppm = 200_000;
    telemetry.controller_bw_bytes_per_second = 10 * 1024 * 1024;
    telemetry.delivery_rate_bytes_per_second = 8 * 1024 * 1024;

    for offset in 0..5 {
        let decision = tuner.observe_at(telemetry, start.after(Duration::from_secs(offset)));
        assert_eq!(decision.reason, TuneReasonV2::Congested);
        assert_eq!(decision.fec, None);
        assert_eq!(decision.bbr.pacing_cap_bytes_per_second, 0);
    }
}

#[test]
fn receiver_feedback_reduces_medium_loss_redundancy() {
    let start = Instant { nanos: 1_000_000_000 };
    let mut tuner = AutoTunerV2::new(AutoTuneBoundsV2::default(), 1);
    let mut telemetry = sample(1);
    telemetry.min_rtt = Duration::from_millis(85);
    telemetry.rtt = Duration::from_millis(90);
    telemetry.queue_delay = Duration::from_millis(5);
    telemetry.loss_ppm = 15_000;
    telemetry.burst_loss_cells = 2;
    for offset in 0..=3 {
        tuner.observe_at(telemetry, start.after(Duration::from_secs(offset)));
    }
    assert_eq!(
        tuner.current().fec,
        Some(FecGeometryV2 {
            data_cells: 6,
            parity_cells: 2
        })
    );

    telemetry.wasted_parity_per_mille = 950;
    telemetry.fec_recovery_per_mille = 50;
    for offset in 4..=7 {
        tuner.observe_at(telemetry, start.after(Duration::from_secs(offset)));
    }
    assert_eq!(
        tuner.current().fec,
        Some(FecGeometryV2 {
            data_cells: 6,
            parity_cells: 1
        })
    );

    telemetry.repair_hit_per_mille = 1_000;
    telemetry.repair_response_latency = Duration::from_millis(150);
    for offset in 8..=13 {
        telemetry.repair_completed_requests += 1;
        tuner.observe_at(telemetry, start.after(Duration::from_secs(offset)));
    }
    assert_eq!(
        tuner.current().fec,
        Some(FecGeometryV2 {
            data_cells: 8,
            parity_cells: 1
        }),
        "proven fast Repair should thin medium-loss parity without disabling protection"
    );
}

#[test]
fn five_percent_high_rtt_loss_keeps_dense_fec_despite_repair_feedback() {
    let start = Instant { nanos: 1_000_000_000 };
    let mut tuner = AutoTunerV2::new(AutoTuneBoundsV2::default(), 1);
    let mut telemetry = sample(1);
    telemetry.min_rtt = Duration::from_millis(85);
    telemetry.rtt = Duration::from_millis(90);
    telemetry.queue_delay = Duration::from_millis(5);
    telemetry.loss_ppm = 50_000;
    telemetry.burst_loss_cells = 4;
    assert_eq!(
        tuner.observe_at(telemetry, start).fec,
        Some(FecGeometryV2 {
            data_cells: 4,
            parity_cells: 2
        })
    );

    telemetry.wasted_parity_per_mille = 995;
    telemetry.fec_recovery_per_mille = 5;
    telemetry.repair_hit_per_mille = 1_000;
    telemetry.repair_response_latency = Duration::from_millis(25);
    let mut decision = tuner.current();
    for offset in 1..=4 {
        telemetry.repair_completed_requests += 4;
        decision = tuner.observe_at(telemetry, start.after(Duration::from_secs(offset)));
    }
    assert_eq!(
        decision.fec,
        Some(FecGeometryV2 {
            data_cells: 4,
            parity_cells: 2
        }),
        "severe correlated loss must not thin protection from survivor-biased Repair feedback"
    );
    assert!(decision.repair_cache_bytes > 0);
}

#[test]
fn short_feedback_severe_loss_keeps_bounded_eight_plus_one_fec() {
    let mut tuner = AutoTunerV2::new(AutoTuneBoundsV2::default(), 1);
    let mut telemetry = sample(1);
    telemetry.min_rtt = Duration::from_millis(45);
    telemetry.rtt = Duration::from_millis(50);
    telemetry.queue_delay = Duration::from_millis(5);
    telemetry.loss_ppm = 100_000;
    telemetry.burst_loss_cells = 4;

    let decision = tuner.observe(telemetry);
    assert_eq!(decision.reason, TuneReasonV2::BurstLoss);
    assert_eq!(
        decision.fec,
        Some(FecGeometryV2 {
            data_cells: 8,
            parity_cells: 1,
        })
    );
}

#[test]
fn latched_short_rtt_policer_keeps_fec_off_across_a_live_deep_queue() {
    let start = Instant { nanos: 1_000_000_000 };
    let mut tuner = AutoTunerV2::new(AutoTuneBoundsV2::default(), 1);
    let mut telemetry = sample(1);
    telemetry.min_rtt = Duration::from_millis(5);
    telemetry.rtt = Duration::from_millis(6);
    telemetry.queue_delay = Duration::from_millis(1);
    telemetry.loss_ppm = 80_000;
    telemetry.burst_loss_cells = 4;
    telemetry.controller_bw_bytes_per_second = 25 * 1024 * 1024;
    assert_eq!(tuner.observe_at(telemetry, start).fec, None);

    // The classifier remains activation-latched across a later live deep
    // queue; its wire-overhead reservation and FEC suppression are
    // independent of Repair's survivor-biased evidence.
    telemetry.rtt = Duration::from_millis(12);
    telemetry.queue_delay = Duration::from_millis(7);
    telemetry.wasted_parity_per_mille = 1_000;
    telemetry.fec_recovery_per_mille = 0;
    telemetry.repair_hit_per_mille = 1_000;
    telemetry.repair_response_latency = Duration::from_millis(20);
    let mut decision = tuner.current();
    for offset in 1..=10 {
        telemetry.repair_completed_requests += 4;
        decision = tuner.observe_at(telemetry, start.after(Duration::from_secs(offset)));
    }
    assert_eq!(decision.fec, None);
    assert_eq!(decision.reason, TuneReasonV2::Congested);
}

#[test]
fn path_change_resets_repair_effectiveness_confidence() {
    let start = Instant { nanos: 1_000_000_000 };
    let mut tuner = AutoTunerV2::new(AutoTuneBoundsV2::default(), 1);
    let mut telemetry = sample(1);
    telemetry.loss_ppm = 5_000;
    telemetry.wasted_parity_per_mille = 950;
    telemetry.repair_hit_per_mille = 1_000;
    telemetry.repair_response_latency = Duration::from_millis(10);
    for offset in 0..=4 {
        telemetry.repair_completed_requests = offset;
        tuner.observe_at(telemetry, start.after(Duration::from_secs(offset)));
    }
    assert!(tuner.smoothed.repair_observations >= 3);

    telemetry.path_epoch = 2;
    let decision = tuner.observe_at(telemetry, start.after(Duration::from_secs(5)));
    assert_eq!(decision.path_epoch, 2);
    assert_eq!(tuner.smoothed.repair_observations, 0);
}

#[test]
fn path_change_resets_to_conservative_cold_start() {
    let start = Instant { nanos: 1_000_000_000 };
    let mut tuner = AutoTunerV2::new(AutoTuneBoundsV2::default(), 1);
    let mut telemetry = sample(1);
    telemetry.delivery_rate_bytes_per_second = 200 * 1024 * 1024;
    for offset in 1..=4 {
        tuner.observe_at(telemetry, start.after(Duration::from_secs(offset)));
    }
    assert!(tuner.current().train_target_bytes > 16 * 1024);
    telemetry.path_epoch = 2;
    telemetry.delivery_rate_bytes_per_second = 0;
    let decision = tuner.observe_at(telemetry, start.after(Duration::from_secs(5)));
    assert_eq!(decision.path_epoch, 2);
    assert_eq!(decision.train_target_bytes, 8 * 1024);
}

#[test]
fn missing_telemetry_resets_every_adaptive_output_without_changing_epoch() {
    let mut tuner = AutoTunerV2::new(AutoTuneBoundsV2::default(), 7);
    let mut telemetry = sample(7);
    telemetry.delivery_rate_bytes_per_second = 200 * 1024 * 1024;
    for _ in 0..4 {
        tuner.observe(telemetry);
    }
    assert!(tuner.current().train_target_bytes > 16 * 1024);

    let decision = tuner.fallback_for_missing_telemetry();
    assert_eq!(decision.reason, TuneReasonV2::TelemetryUnavailable);
    assert_eq!(decision.path_epoch, 7);
    assert_eq!(decision.sample_count, 0);
    assert_eq!(decision.train_target_bytes, 16 * 1024);
    assert_eq!(decision.bulk_quantum_cells, 1);
    assert_eq!(decision.fec, None);
    assert_eq!(decision.cover_profile, CoverTrafficProfileV2::Idle);
    assert_eq!(decision.cover_padding_bytes_per_second, 0);
}

#[test]
fn congestion_zeroes_cover_and_minimizes_bulk_quantum() {
    let mut tuner = AutoTunerV2::new(AutoTuneBoundsV2::default(), 1);
    let mut telemetry = sample(1);
    telemetry.rtt = Duration::from_millis(60);
    telemetry.queue_delay = Duration::from_millis(30);
    telemetry.latency_queue_bytes = 1024;
    let decision = tuner.observe(telemetry);
    assert_eq!(decision.reason, TuneReasonV2::Congested);
    assert_eq!(decision.bulk_quantum_cells, 1);
    assert_eq!(decision.cover_overhead_per_mille, 0);

    let mut cpu_limited = sample(1);
    cpu_limited.cpu_utilization_per_mille = 1_000;
    let decision = AutoTunerV2::new(AutoTuneBoundsV2::default(), 1).observe(cpu_limited);
    assert_eq!(decision.reason, TuneReasonV2::CpuLimited);
    assert_eq!(decision.cover_overhead_per_mille, 0);
    assert_eq!(decision.cover_padding_bytes_per_second, 0);
}

#[test]
fn congestion_loss_disables_parity_to_avoid_wire_load_amplification() {
    let start = Instant { nanos: 1_000_000_000 };
    let mut tuner = AutoTunerV2::new(AutoTuneBoundsV2::default(), 1);
    let mut telemetry = sample(1);
    telemetry.rtt = Duration::from_millis(60);
    telemetry.queue_delay = Duration::from_millis(30);
    telemetry.loss_ppm = 100_000;
    telemetry.burst_loss_cells = 4;
    let mut decision = tuner.observe_at(telemetry, start);
    for seconds in 1..=4 {
        decision = tuner.observe_at(telemetry, start.after(Duration::from_secs(seconds)));
    }
    assert_eq!(decision.reason, TuneReasonV2::Congested);
    assert_eq!(decision.fec, None);
    assert_eq!(decision.repair_cache_bytes, 0);
}

#[test]
fn severe_fec_is_disabled_immediately_when_live_evidence_proves_congestion() {
    let start = Instant { nanos: 1_000_000_000 };
    let mut tuner = AutoTunerV2::new(AutoTuneBoundsV2::default(), 1);
    let mut loss = sample(1);
    loss.loss_ppm = 100_000;
    loss.burst_loss_cells = 4;
    let enabled = tuner.observe_at(loss, start);
    assert!(enabled.fec.is_some());

    let mut congested = loss;
    congested.queue_delay = Duration::from_millis(30);
    congested.rtt = Duration::from_millis(60);
    congested.min_rtt = Duration::from_millis(20);
    let disabled = tuner.observe_at(congested, start.after(Duration::from_secs(1)));
    assert_eq!(disabled.reason, TuneReasonV2::Congested);
    assert_eq!(disabled.fec, None);
    assert_eq!(disabled.repair_cache_bytes, 0);
}

#[test]
fn bulk_only_congestion_keeps_a_batchable_bounded_quantum() {
    let mut tuner = AutoTunerV2::new(AutoTuneBoundsV2::default(), 1);
    let mut telemetry = sample(1);
    telemetry.rtt = Duration::from_millis(60);
    telemetry.queue_delay = Duration::from_millis(30);
    telemetry.latency_queue_bytes = 0;
    let decision = tuner.observe(telemetry);
    assert_eq!(decision.reason, TuneReasonV2::Congested);
    assert_eq!(decision.bulk_quantum_cells, 8);
}

#[test]
fn native_bulk_quantum_requires_backlog_and_latency_queue_still_wins() {
    let mut backlog = sample(1);
    backlog.packet_train_queue_bytes = BULK_QUANTUM_BACKLOG_BYTES;
    let decision = AutoTunerV2::new(AutoTuneBoundsV2::default(), 1).observe(backlog);
    assert_eq!(decision.bulk_quantum_cells, 8);

    // TUN/real traffic can lead the packet-train queue snapshot and does
    // not alone justify expanding the first userspace submission.
    let mut active = sample(1);
    active.packet_train_queue_bytes = 0;
    active.delivery_rate_bytes_per_second = 100 * 1024 * 1024;
    active.real_traffic_bytes_per_second = 100 * 1024 * 1024;
    active.tun_ingress_bytes_per_second = 100 * 1024 * 1024;
    active.cpu_utilization_per_mille = 1_000;
    let decision = AutoTunerV2::new(AutoTuneBoundsV2::default(), 1).observe(active);
    assert_eq!(decision.bulk_quantum_cells, 2);

    // A rate estimate and CPU pressure without actual outgoing activity
    // do not justify the larger userspace submission.
    let mut rate_only = active;
    rate_only.real_traffic_bytes_per_second = 0;
    rate_only.tun_ingress_bytes_per_second = 0;
    let decision = AutoTunerV2::new(AutoTuneBoundsV2::default(), 1).observe(rate_only);
    assert_eq!(decision.bulk_quantum_cells, 2);

    let mut idle = sample(1);
    idle.packet_train_queue_bytes = 0;
    idle.delivery_rate_bytes_per_second = 0;
    idle.real_traffic_bytes_per_second = 0;
    idle.tun_ingress_bytes_per_second = 0;
    let decision = AutoTunerV2::new(AutoTuneBoundsV2::default(), 1).observe(idle);
    assert_eq!(decision.bulk_quantum_cells, 2);

    let mut latency_queued = backlog;
    latency_queued.latency_queue_bytes = 1;
    let decision = AutoTunerV2::new(AutoTuneBoundsV2::default(), 1).observe(latency_queued);
    assert_eq!(decision.bulk_quantum_cells, 1);
}

#[test]
fn low_rtt_cpu_limited_bulk_grows_native_admission_window() {
    let mut tuner = AutoTunerV2::new(AutoTuneBoundsV2::default(), 1);
    let mut telemetry = sample(1);
    telemetry.rtt = Duration::from_micros(50);
    telemetry.min_rtt = Duration::from_micros(40);
    telemetry.queue_delay = Duration::from_micros(10);
    telemetry.delivery_rate_bytes_per_second = 300 * 1024 * 1024;
    telemetry.real_traffic_bytes_per_second = telemetry.delivery_rate_bytes_per_second;
    telemetry.packets_per_second = 220_000;
    telemetry.packet_train_queue_bytes = 1024 * 1024;
    telemetry.cpu_utilization_per_mille = 1_000;

    let mut decision = tuner.observe(telemetry);
    for _ in 0..8 {
        decision = tuner.observe(telemetry);
    }
    assert_eq!(decision.reason, TuneReasonV2::CpuLimited);
    assert!(decision.send_buffer_bytes >= 2 * 1024 * 1024);

    telemetry.latency_queue_bytes = 1;
    let reduced = tuner.observe(telemetry);
    assert!(reduced.send_buffer_bytes < decision.send_buffer_bytes);
}

#[test]
fn asymmetric_capacity_sizes_outgoing_and_incoming_windows_independently() {
    fn settle(mut telemetry: PathTelemetryV2) -> TuneDecisionV2 {
        telemetry.rtt = Duration::from_millis(105);
        telemetry.min_rtt = Duration::from_millis(100);
        telemetry.queue_delay = Duration::from_millis(5);
        telemetry.cpu_utilization_per_mille = 200;
        let mut tuner = AutoTunerV2::new(AutoTuneBoundsV2::default(), 1);
        let mut decision = tuner.observe(telemetry);
        for _ in 0..80 {
            decision = tuner.observe(telemetry);
        }
        decision
    }

    let mut symmetric_slow = sample(1);
    symmetric_slow.delivery_rate_bytes_per_second = 12_500_000;
    symmetric_slow.receive_rate_bytes_per_second = 12_500_000;
    let symmetric_slow = settle(symmetric_slow);

    let mut fast_downlink = sample(1);
    fast_downlink.delivery_rate_bytes_per_second = 12_500_000;
    fast_downlink.receive_rate_bytes_per_second = 125_000_000;
    let fast_downlink = settle(fast_downlink);

    assert_eq!(
        fast_downlink.send_buffer_bytes, symmetric_slow.send_buffer_bytes,
        "incoming downlink capacity must not inflate uplink admission"
    );
    assert!(fast_downlink.receive_buffer_bytes > symmetric_slow.receive_buffer_bytes);
    assert_eq!(fast_downlink.receive_buffer_bytes, 25_000_000);

    let mut fast_uplink = sample(1);
    fast_uplink.delivery_rate_bytes_per_second = 125_000_000;
    fast_uplink.receive_rate_bytes_per_second = 12_500_000;
    let fast_uplink = settle(fast_uplink);
    assert!(fast_uplink.send_buffer_bytes > fast_downlink.send_buffer_bytes);
    assert_eq!(
        fast_uplink.receive_buffer_bytes, symmetric_slow.receive_buffer_bytes,
        "outgoing uplink capacity must not inflate the receive window"
    );
}

#[test]
fn cold_start_and_admission_floor_are_512_kib() {
    let bounds = AutoTuneBoundsV2::default();
    assert_eq!(bounds.minimum_socket_buffer_bytes, 512 * 1024);
    assert_eq!(INITIAL_SEND_BUFFER_BYTES_V2, 512 * 1024);
    assert_eq!(AutoTunerV2::new(bounds, 1).current().bulk_quantum_cells, 1);
    assert_eq!(
        AutoTunerV2::new(bounds, 1).current().send_buffer_bytes,
        512 * 1024
    );
}

#[test]
fn queue_inflated_rtt_does_not_inflate_quic_admission_buffer() {
    let mut tuner = AutoTunerV2::new(AutoTuneBoundsV2::default(), 1);
    let mut telemetry = sample(1);
    telemetry.delivery_rate_bytes_per_second = 1_500_000;
    telemetry.real_traffic_bytes_per_second = telemetry.delivery_rate_bytes_per_second;
    telemetry.min_rtt = Duration::from_millis(12);
    telemetry.rtt = Duration::from_millis(220);
    telemetry.queue_delay = telemetry.rtt.saturating_sub(telemetry.min_rtt);
    telemetry.packet_train_queue_bytes = 6 * 1024 * 1024;
    telemetry.latency_queue_bytes = 0;
    telemetry.cpu_utilization_per_mille = 200;

    let decision = tuner.observe(telemetry);
    assert_eq!(decision.reason, TuneReasonV2::Congested);
    assert_eq!(decision.send_buffer_bytes, 512 * 1024);

    // Raising only the queue-inflated RTT must not feed back into the
    // native DATAGRAM admission target.
    telemetry.rtt = Duration::from_secs(2);
    let inflated = tuner.observe(telemetry);
    assert_eq!(inflated.send_buffer_bytes, decision.send_buffer_bytes);
}

#[test]
fn native_rule_candidate_is_only_smoothed_on_a_healthy_path_and_guarded_under_pressure() {

    let start = Instant { nanos: 1_000_000_000 };
    let mut tuner = AutoTunerV2::new(AutoTuneBoundsV2::default(), 1);
    let mut telemetry = sample(1);
    telemetry.packet_train_queue_bytes = 0;
    for offset in 0..=5 {
        let decision = tuner.observe_at(telemetry, start.after(Duration::from_secs(offset)));
        // The rule set is the host baseline: on a healthy path only the
        // transition controller holds its values back, never a guardrail.
        assert!(
            tuner
                .last_clamp_report()
                .entries
                .iter()
                .all(|entry| entry.reason == ClampReasonV1::TransitionHold),
            "{:?}",
            tuner.last_clamp_report()
        );
        assert_eq!(decision.cover_overhead_per_mille, 30);
    }
    assert_eq!(
        tuner.current_effective().to_tune_decision(),
        tuner.current()
    );

    // Queued Bulk is a host guardrail on the rule's nominal cover
    // proposal, not part of the rule itself.
    telemetry.packet_train_queue_bytes = 128 * 1024;
    let decision = tuner.observe_at(telemetry, start.after(Duration::from_secs(6)));
    assert_eq!(decision.cover_overhead_per_mille, 0);
    assert!(tuner.last_clamp_report().entries.iter().any(|entry| {
        entry.field == ClampFieldV1::CoverOverheadPerMille
            && entry.requested == 30
            && entry.effective == 0
            && entry.reason == ClampReasonV1::QueuePressure
    }));
}

#[test]
fn forced_override_clamps_are_reported() {

    let mut tuner = AutoTunerV2::new(AutoTuneBoundsV2::default(), 1);
    let mut telemetry = sample(1);
    telemetry.packet_train_queue_bytes = 0;
    let decision = tuner.observe_forced(
        telemetry,
        ForcedActionV2 {
            cover_profile: Some(CoverTrafficProfileV2::GenericH3Bulk),
            cover_overhead_per_mille: Some(200),
            train_target_bytes: Some(1024 * 1024),
            ..ForcedActionV2::default()
        },
    );
    assert_eq!(decision.cover_overhead_per_mille, 50);
    assert_eq!(decision.train_target_bytes, 64 * 1024);
    let report = tuner.last_clamp_report();
    assert!(report.entries.iter().any(|entry| {
        entry.field == ClampFieldV1::CoverOverheadPerMille
            && entry.requested == 200
            && entry.effective == 50
            && entry.reason == ClampReasonV1::AboveCap
    }));
    assert!(report.entries.iter().any(|entry| {
        entry.field == ClampFieldV1::SchedulerTrainTargetBytes
            && entry.reason == ClampReasonV1::AboveCap
    }));
}

#[test]
fn constrain_action_is_one_guardrail_pass_over_the_filtered_sample() {

    let mut tuner = AutoTunerV2::new(AutoTuneBoundsV2::default(), 1);
    let mut telemetry = sample(1);
    telemetry.loss_ppm = 20_000;
    telemetry.burst_loss_cells = 2;
    telemetry.cpu_utilization_per_mille = 950;
    let baseline = tuner.observe(telemetry);
    let action = ForcedActionV2 {
        fec: Some(Some(FecGeometryV2 {
            data_cells: 4,
            parity_cells: 2,
        })),
        train_target_bytes: Some(64 * 1024),
        bulk_quantum_cells: Some(4),
        cover_overhead_per_mille: Some(50),
        ..ForcedActionV2::default()
    };
    let through_tuner = tuner.constrain_action(telemetry, baseline, action);

    let filtered = tuner.smoothed.view(telemetry);
    let ctx = GuardrailContextV1::from_filtered(&filtered);
    assert!(ctx.cpu_emergency && ctx.cpu_limited);
    let (direct, report) = GuardrailsV1::from_bounds(&AutoTuneBoundsV2::default()).apply(
        &action.to_candidate(telemetry.controller_bw_bytes_per_second),
        &EffectiveActionV1::from_tune_decision(&baseline),
        &ctx,
    );
    assert_eq!(direct.to_tune_decision(), through_tuner);
    assert!(!report.is_empty());
    assert_eq!(through_tuner.fec, None, "CPU pressure suppresses parity");
    assert!(through_tuner.train_target_bytes <= baseline.train_target_bytes);
    assert_eq!(through_tuner.cover_overhead_per_mille, 0);
}

#[test]
fn average_lies_between_history_and_sample() {
    assert_eq!(ewma(0, 9, 1, 8), 9);
    assert_eq!(ewma(80, 160, 1, 8), 90);
    assert_eq!(ewma(160, 80, 1, 8), 150);
    let large = u64::MAX / 4;
    assert_eq!(ewma(large, 4, 1, 4), (large * 3 + 4) / 4);
    assert_eq!(ewma(3, u64::MAX, 1, 1), u64::MAX);
}

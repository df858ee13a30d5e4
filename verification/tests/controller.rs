use ironet::autotune::controller::{
    apply_bbr3_effective, cwnd_floor_for_rate, finalize_bbr3_effective, measured_cwnd_floor,
    publish_bbr3_effective, quantize_adaptive_cwnd_floor, AdaptiveCwndFloorModeV2,
    AdaptiveCwndFloorStateV2, Bbr3Tunables,
};
use ironet::policy::api::{BbrEffectiveV1, LOW_RTT_CWND_FLOOR_BYTES};
use ironet::time::Duration;
use ironet::tuning::{Bbr3PresetV2, Bbr3ProposalV2, PathReliability, PathTelemetryV2};

fn sample(epoch: u64) -> PathTelemetryV2 {
    PathTelemetryV2 {
        path_epoch: epoch,
        reliability: PathReliability::Datagram,
        rtt: Duration::from_millis(30),
        min_rtt: Duration::from_millis(25),
        queue_delay: Duration::from_millis(1),
        loss_ppm: 100,
        burst_loss_cells: 0,
        reorder_ppm: 0,
        receiver_goodput_bytes_per_second: 20 * 1024 * 1024,
        residual_loss_ppm: 0,
        latency_sojourn_p95_micros: 0,
        latency_sojourn_p50_micros: 0,
        latency_sojourn_p99_micros: 0,
        latency_queue_recently_nonempty: false,
        delivery_rate_bytes_per_second: 20 * 1024 * 1024,
        controller_pacing_rate_bytes_per_second: 0,
        controller_send_quantum_bytes: 0,
        controller_state: 0,
        controller_bw_bytes_per_second: 0,
        controller_inflight_longterm_bytes: 0,
        controller_guard_transitions_delta: 0,
        controller_app_limited: false,
        controller_tunables_generation: 0,
        controller_params_generation: 0,
        controller_clamped_writes: 0,
        receive_rate_bytes_per_second: 128 * 1024,
        packets_per_second: 20_000,
        tun_ingress_bytes_per_second: 20 * 1024 * 1024,
        average_record_bytes: 1_500,
        gso_ingress_ratio_ppm: 0,
        packet_train_queue_bytes: 128 * 1024,
        latency_queue_bytes: 0,
        reassembly_pressure_evictions: 0,
        remote_expired_stripes_delta: 0,
        train_build_bytes_per_second: 0,
        bulk_preemption_delay_average_micros: 0,
        cpu_utilization_per_mille: 500,
        wasted_parity_per_mille: 0,
        fec_recovery_per_mille: 0,
        repair_hit_per_mille: 0,
        repair_completed_requests: 0,
        repair_response_latency: Duration::zero(),
        real_traffic_bytes_per_second: 20 * 1024 * 1024,
    }
}

/// Raw snapshot of every shared controller tunable.
fn tunables_snapshot(tunables: &Bbr3Tunables) -> [u64; 20] {
    [
        u64::from(
            tunables.probe_bw_up_pacing_gain_milli,
        ),
        u64::from(
            tunables.probe_bw_down_pacing_gain_milli,
        ),
        u64::from(tunables.cruise_pacing_gain_milli),
        u64::from(tunables.default_cwnd_gain_milli),
        u64::from(tunables.probe_bw_up_cwnd_gain_milli),
        u64::from(tunables.headroom_milli),
        u64::from(tunables.beta_milli),
        u64::from(tunables.loss_thresh_milli),
        u64::from(tunables.loss_is_congestion),
        u64::from(
            tunables.queue_delay_guard_inflation_milli,
        ),
        tunables.queue_delay_guard_slack_micros,
        tunables.probe_rtt_interval_millis,
        tunables.probe_rtt_duration_millis,
        u64::from(tunables.probe_rtt_cwnd_gain_milli),
        tunables.min_probe_wait_millis,
        tunables.max_added_probe_wait_millis,
        tunables.pacing_rate_cap_bytes_per_second,
        tunables.cwnd_floor_bytes,
        tunables.cwnd_cap_bytes,
        tunables.startup_bw_hint_bytes_per_second,
    ]
}

fn effective_tunables_snapshot(effective: &BbrEffectiveV1) -> [u64; 20] {
    [
        u64::from(effective.probe_bw_up_pacing_gain_milli),
        u64::from(effective.probe_bw_down_pacing_gain_milli),
        u64::from(effective.cruise_pacing_gain_milli),
        u64::from(effective.default_cwnd_gain_milli),
        u64::from(effective.probe_bw_up_cwnd_gain_milli),
        u64::from(effective.headroom_milli),
        u64::from(effective.beta_milli),
        u64::from(effective.loss_threshold_milli),
        u64::from(effective.loss_is_congestion),
        u64::from(effective.queue_guard_inflation_milli),
        effective.queue_guard_slack_micros,
        effective.probe_rtt_interval_millis,
        effective.probe_rtt_duration_millis,
        u64::from(effective.probe_rtt_cwnd_gain_milli),
        effective.min_probe_wait_millis,
        effective.max_added_probe_wait_millis,
        effective.pacing_cap_bytes_per_second,
        effective.cwnd_floor_bytes,
        effective.cwnd_cap_bytes,
        effective.startup_bw_hint_bytes_per_second,
    ]
}

fn queued_adaptive_floor_telemetry() -> PathTelemetryV2 {
    let mut telemetry = sample(1);
    telemetry.controller_app_limited = false;
    telemetry.min_rtt = Duration::from_millis(20);
    telemetry.rtt = Duration::from_millis(22);
    telemetry.queue_delay = Duration::from_millis(2);
    telemetry.packet_train_queue_bytes = 256 * 1024;
    telemetry.tun_ingress_bytes_per_second = 4_000_000;
    telemetry.delivery_rate_bytes_per_second = 4_200_000;
    telemetry.real_traffic_bytes_per_second = 3_800_000;
    telemetry
}

#[test]
fn capacity_probe_request_is_published_even_when_policy_tunables_are_unchanged() {
    let proposal = Bbr3ProposalV2::for_preset(Bbr3PresetV2::LossyRadio, 0);
    let effective = BbrEffectiveV1::from_proposal(&proposal);
    let mut tunables = Bbr3Tunables::default();
    assert!(apply_bbr3_effective(&mut tunables, &effective));
    let before = tunables.generation;

    assert!(publish_bbr3_effective(&mut tunables, &effective, true));

    assert_eq!(
        tunables.capacity_probe_generation,
        1
    );
    assert_eq!(tunables.generation, before + 1);
}

#[test]
fn finalization_respects_cwnd_cap_and_preserves_low_rtt_preset_floor() {
    let proposal = Bbr3ProposalV2::for_preset(Bbr3PresetV2::LossyRadio, 0);
    let mut capped = BbrEffectiveV1::from_proposal(&proposal);
    capped.cwnd_cap_bytes = 128 * 1024;
    assert_eq!(
        finalize_bbr3_effective(queued_adaptive_floor_telemetry(), 96 * 1024, &mut capped),
        208 * 1024
    );
    assert_eq!(capped.cwnd_floor_bytes, capped.cwnd_cap_bytes);
    assert!(capped.cwnd_cap_bytes != 0);

    let mut capped_tunables = Bbr3Tunables::default();
    assert!(apply_bbr3_effective(&mut capped_tunables, &capped));
    assert_eq!(
        tunables_snapshot(&capped_tunables),
        effective_tunables_snapshot(&capped)
    );

    let low_rtt = Bbr3ProposalV2::for_preset(Bbr3PresetV2::LowRttHost, 0);
    let mut low_rtt_effective = BbrEffectiveV1::from_proposal(&low_rtt);
    let mut no_adaptive_telemetry = queued_adaptive_floor_telemetry();
    no_adaptive_telemetry.reliability = PathReliability::ReliableRelay;
    let adaptive_floor =
        finalize_bbr3_effective(no_adaptive_telemetry, 96 * 1024, &mut low_rtt_effective);
    assert_eq!(adaptive_floor, 0);
    assert_eq!(low_rtt_effective.cwnd_floor_bytes, LOW_RTT_CWND_FLOOR_BYTES);

    let mut low_rtt_tunables = Bbr3Tunables::default();
    assert!(apply_bbr3_effective(&mut low_rtt_tunables, &low_rtt_effective));
    assert_eq!(
        tunables_snapshot(&low_rtt_tunables),
        effective_tunables_snapshot(&low_rtt_effective)
    );
}

#[test]
fn queued_demand_sets_a_quantized_bdp_cwnd_floor_without_operator_input() {
    let mut telemetry = queued_adaptive_floor_telemetry();
    let proposal = Bbr3ProposalV2::for_preset(Bbr3PresetV2::LossyRadio, 0);
    let mut effective = BbrEffectiveV1::from_proposal(&proposal);

    let floor = finalize_bbr3_effective(telemetry, 96 * 1024, &mut effective);
    assert_eq!(floor, 208 * 1024);
    assert_eq!(effective.cwnd_floor_bytes, floor);
    let mut tunables = Bbr3Tunables::default();
    assert!(apply_bbr3_effective(&mut tunables, &effective));
    assert_eq!(
        tunables.cwnd_floor_bytes,
        208 * 1024
    );

    telemetry.queue_delay = Duration::from_millis(11);
    let mut queue_delayed = BbrEffectiveV1::from_proposal(&proposal);
    assert_eq!(
        finalize_bbr3_effective(telemetry, 96 * 1024, &mut queue_delayed),
        208 * 1024
    );
    assert_eq!(queue_delayed.cwnd_floor_bytes, 208 * 1024);
    telemetry.queue_delay = Duration::from_millis(2);
    telemetry.packet_train_queue_bytes = 0;
    let mut queue_empty = BbrEffectiveV1::from_proposal(&proposal);
    assert_eq!(
        finalize_bbr3_effective(telemetry, 96 * 1024, &mut queue_empty),
        0
    );
    assert_eq!(queue_empty.cwnd_floor_bytes, 0);
}

#[test]
fn adaptive_floor_tracks_measured_bdp_after_probe_overshoot_without_toggling() {
    let mut telemetry = queued_adaptive_floor_telemetry();
    let proposal = Bbr3ProposalV2::for_preset(Bbr3PresetV2::LossyRadio, 0);
    let effective = BbrEffectiveV1::from_proposal(&proposal);
    let mut state = AdaptiveCwndFloorStateV2::default();

    let probe = state.update(telemetry, &effective, 512 * 1024);
    assert_eq!(probe, 1024 * 1024);
    assert_eq!(state.mode, AdaptiveCwndFloorModeV2::Probe);

    telemetry.queue_delay = Duration::from_millis(11);
    telemetry.rtt = telemetry.min_rtt.saturating_add(telemetry.queue_delay);
    let settled = state.update(telemetry, &effective, probe);
    assert_eq!(settled, 208 * 1024);
    assert_eq!(state.mode, AdaptiveCwndFloorModeV2::Track);

    // The large probe drained one producer batch. Active rate evidence
    // keeps the measured floor instead of recreating the old 0/high
    // alternation.
    telemetry.queue_delay = Duration::from_millis(2);
    telemetry.rtt = telemetry.min_rtt.saturating_add(telemetry.queue_delay);
    telemetry.packet_train_queue_bytes = 0;
    assert_eq!(state.update(telemetry, &effective, settled), settled);
}

#[test]
fn adaptive_floor_tracks_an_already_modeled_bdp_without_doubling_cwnd() {
    let mut telemetry = queued_adaptive_floor_telemetry();
    telemetry.controller_state = 3; // ProbeBW Cruise.
    telemetry.controller_bw_bytes_per_second = telemetry.delivery_rate_bytes_per_second;
    let proposal = Bbr3ProposalV2::for_preset(Bbr3PresetV2::LossyRadio, 0);
    let effective = BbrEffectiveV1::from_proposal(&proposal);
    let mut state = AdaptiveCwndFloorStateV2::default();
    let modeled = cwnd_floor_for_rate(
        telemetry.delivery_rate_bytes_per_second,
        telemetry.min_rtt,
        &effective,
    );
    let current_cwnd = modeled * 15 / 16;

    let floor = state.update(telemetry, &effective, current_cwnd);

    assert_eq!(floor, modeled);
    assert_eq!(state.mode, AdaptiveCwndFloorModeV2::Track);
    assert!(floor < current_cwnd * 2);
}

#[test]
fn startup_with_self_demand_probes_even_when_cwnd_matches_the_current_model() {
    let mut telemetry = queued_adaptive_floor_telemetry();
    telemetry.controller_state = 0; // Startup.
    telemetry.controller_bw_bytes_per_second = telemetry.delivery_rate_bytes_per_second;
    let proposal = Bbr3ProposalV2::for_preset(Bbr3PresetV2::LossyRadio, 0);
    let effective = BbrEffectiveV1::from_proposal(&proposal);
    let mut state = AdaptiveCwndFloorStateV2::default();
    let modeled = cwnd_floor_for_rate(
        telemetry.delivery_rate_bytes_per_second,
        telemetry.min_rtt,
        &effective,
    );
    let current_cwnd = modeled * 15 / 16;
    let expected_probe = quantize_adaptive_cwnd_floor(current_cwnd * 2);

    let floor = state.update(telemetry, &effective, current_cwnd);

    assert!(floor >= expected_probe);
    assert_eq!(state.mode, AdaptiveCwndFloorModeV2::Probe);
}

#[test]
fn startup_with_inflated_queue_tracks_the_measured_floor() {
    let mut telemetry = queued_adaptive_floor_telemetry();
    telemetry.controller_state = 0; // Startup.
    telemetry.controller_bw_bytes_per_second = telemetry.delivery_rate_bytes_per_second;
    telemetry.queue_delay = Duration::from_millis(11);
    telemetry.rtt = telemetry.min_rtt.saturating_add(telemetry.queue_delay);
    let proposal = Bbr3ProposalV2::for_preset(Bbr3PresetV2::LossyRadio, 0);
    let effective = BbrEffectiveV1::from_proposal(&proposal);
    let mut state = AdaptiveCwndFloorStateV2::default();
    let measured = measured_cwnd_floor(telemetry, &effective);

    let floor = state.update(telemetry, &effective, 512 * 1024);

    assert_eq!(floor, measured);
    assert_eq!(state.mode, AdaptiveCwndFloorModeV2::Track);
}

#[test]
fn adaptive_floor_still_probes_when_cwnd_is_below_a_valid_model() {
    let mut telemetry = queued_adaptive_floor_telemetry();
    telemetry.tun_ingress_bytes_per_second = 128 * 1024;
    telemetry.delivery_rate_bytes_per_second = 128 * 1024;
    telemetry.real_traffic_bytes_per_second = 128 * 1024;
    telemetry.controller_bw_bytes_per_second = 4_200_000;
    let proposal = Bbr3ProposalV2::for_preset(Bbr3PresetV2::LossyRadio, 0);
    let effective = BbrEffectiveV1::from_proposal(&proposal);
    let mut state = AdaptiveCwndFloorStateV2::default();

    assert_eq!(state.update(telemetry, &effective, 48 * 1024), 96 * 1024);
    assert_eq!(state.mode, AdaptiveCwndFloorModeV2::Probe);
}

#[test]
fn tracked_adaptive_floor_bounds_growth_and_clears_on_invalid_evidence() {
    let mut telemetry = queued_adaptive_floor_telemetry();
    let proposal = Bbr3ProposalV2::for_preset(Bbr3PresetV2::LossyRadio, 0);
    let effective = BbrEffectiveV1::from_proposal(&proposal);
    let mut state = AdaptiveCwndFloorStateV2 {
        mode: AdaptiveCwndFloorModeV2::Track,
        path_epoch: telemetry.path_epoch,
        held_bytes: 208 * 1024,
        ..AdaptiveCwndFloorStateV2::default()
    };
    telemetry.tun_ingress_bytes_per_second *= 4;
    telemetry.delivery_rate_bytes_per_second *= 4;
    telemetry.real_traffic_bytes_per_second *= 4;
    assert_eq!(state.update(telemetry, &effective, 208 * 1024), 272 * 1024);

    telemetry.tun_ingress_bytes_per_second = 0;
    telemetry.delivery_rate_bytes_per_second = 0;
    telemetry.real_traffic_bytes_per_second = 0;
    telemetry.packet_train_queue_bytes = 0;
    assert_eq!(state.update(telemetry, &effective, 208 * 1024), 272 * 1024);
    assert_eq!(state.update(telemetry, &effective, 208 * 1024), 0);

    telemetry.tun_ingress_bytes_per_second = 4 * 1024 * 1024;
    telemetry.delivery_rate_bytes_per_second = 4 * 1024 * 1024;
    telemetry.real_traffic_bytes_per_second = 4 * 1024 * 1024;
    telemetry.packet_train_queue_bytes = 256 * 1024;
    assert_ne!(state.update(telemetry, &effective, 48 * 1024), 0);
    telemetry.controller_app_limited = true;
    assert_eq!(state.update(telemetry, &effective, 208 * 1024), 0);
    assert_eq!(state.mode, AdaptiveCwndFloorModeV2::Probe);

    telemetry.controller_app_limited = false;
    telemetry.path_epoch += 1;
    let reprobe = state.update(telemetry, &effective, 48 * 1024);
    assert!(reprobe >= 96 * 1024);
    assert_eq!(state.path_epoch, telemetry.path_epoch);

    let mut policer = effective;
    policer.loss_is_congestion = true;
    assert_eq!(state.update(telemetry, &policer, reprobe), 0);
}

#[test]
fn queued_loss_limited_startup_probes_above_measured_bdp() {
    let mut telemetry = sample(1);
    telemetry.controller_app_limited = false;
    telemetry.min_rtt = Duration::from_millis(20);
    telemetry.rtt = Duration::from_millis(22);
    telemetry.queue_delay = Duration::from_millis(2);
    telemetry.packet_train_queue_bytes = 256 * 1024;
    telemetry.tun_ingress_bytes_per_second = 128 * 1024;
    telemetry.delivery_rate_bytes_per_second = 128 * 1024;
    telemetry.real_traffic_bytes_per_second = 128 * 1024;
    let proposal = Bbr3ProposalV2::for_preset(Bbr3PresetV2::LossyRadio, 0);
    let mut effective = BbrEffectiveV1::from_proposal(&proposal);

    assert_eq!(
        finalize_bbr3_effective(telemetry, 48 * 1024, &mut effective),
        96 * 1024
    );
    assert_eq!(effective.cwnd_floor_bytes, 96 * 1024);
}

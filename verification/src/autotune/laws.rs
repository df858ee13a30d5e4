//! What probing, sampling, remote reports, the window floor and overrides must
//! do, case by case.

use vstd::prelude::*;

use super::capacity_probe::{CapacityProbeStateV2, InitialBulkProbeV2};
use super::controller::{
    combined_floor, floor_for_rate, floor_forbidden, floor_queue_inflated, measured_floor,
    model_serves_demand, quantized, AdaptiveCwndFloorModeV2, AdaptiveCwndFloorStateV2,
    Bbr3Tunables,
};
use super::diagnostics::{status_figures, StatusDeltaV2, StatusTelemetryV2};
use super::feedback::{
    bounded_ratio, counter_growth, loss_runs, quotient_or_zero, rate_over, rates_of,
    weighted_loss_cells, RemoteFeedbackCountersV2, RemoteFeedbackRatesV2, RemoteFeedbackWindowV2,
};
use super::force::{
    forced_fec, guarded_geometry, lookup, number_of, FieldModel, ForceErrorV2, ForceNumberV2,
    ValueModel,
};
use super::reload::{
    is_component_path, live_policy, load_action, name_start, path_end, LivePolicyV2,
    LiveReloadPhaseV1, PolicySourceV2, ReloadActionV1, ReloadModel, WarmupActionV1,
};
use super::session::{
    edge_owed, edge_seen, probed, tunables_published, EdgeReasonV2, SessionModel,
};
use super::window::{
    above, minimum_rtt_of, reliability_of, route_capacity, ConnectionCountersV2,
    ControllerSnapshotV2, PathRemoteV2, PathSampleV2, QueueFiguresV2, SampleCountersV2,
    WindowModel,
};
use crate::fec::FecGeometryV2;
use crate::policy::api::BbrEffectiveV1;
use crate::time::{Duration, Instant};
use crate::tuning::{PathReliability, PathTelemetryV2};

verus! {

/// A ratio is the scaled quotient, cut off at the scale; nothing over nothing is
/// zero.
pub proof fn lemma_ratio_is_the_scaled_quotient(part: u64, whole: u64, scale: int)
    requires
        part <= 1_000_000_000_000,
        1 <= scale <= 1_000_000,
    ensures
        whole == 0 ==> bounded_ratio(part as int, whole as int, scale) == 0,
        whole != 0 && part >= whole ==> bounded_ratio(part as int, whole as int, scale) == scale,
        whole != 0 && part < whole ==> bounded_ratio(part as int, whole as int, scale) == part
            * scale / (whole as int),
{
    if whole != 0 {
        let p = part as int;
        let w = whole as int;
        let scaled = p * scale;
        assert(0 <= scaled <= 1_000_000_000_000 * 1_000_000) by (nonlinear_arith)
            requires
                0 <= p <= 1_000_000_000_000,
                1 <= scale <= 1_000_000,
                scaled == p * scale,
        ;
        if p >= w {
            assert(scaled / w >= scale) by (nonlinear_arith)
                requires
                    scaled == p * scale,
                    p >= w,
                    w >= 1,
                    scale >= 1,
            ;
        } else {
            assert(scaled / w <= scale) by (nonlinear_arith)
                requires
                    scaled == p * scale,
                    0 <= p < w,
                    scale >= 1,
            ;
        }
    }
}

/// A rate is the growth per second, and zero over no time.
pub proof fn lemma_rate_is_growth_per_second(value: u64, nanos: int)
    requires
        nanos >= 0,
        value <= 1_000_000_000,
    ensures
        nanos == 0 ==> rate_over(value as int, nanos) == 0,
        nanos > 0 ==> rate_over(value as int, nanos) == value * 1_000_000_000 / nanos,
{
    if nanos > 0 {
        let top = value * 1_000_000_000;
        assert(0 <= top / nanos <= top) by (nonlinear_arith)
            requires
                top >= 0,
                nanos >= 1,
        ;
    }
}

/// A counter that fell was restarted: its growth is what it counted since.
pub proof fn lemma_restarted_counters_count_from_zero(current: u64, previous: u64)
    ensures
        current >= previous ==> counter_growth(current, previous) == current - previous,
        current < previous ==> counter_growth(current, previous) == current,
        current >= previous ==> above(current, previous) == current - previous,
        current < previous ==> above(current, previous) == 0,
        forall|n: u64, d: u64|
            d != 0 ==> #[trigger] quotient_or_zero(n, d) == n / d,
        forall|n: u64| #[trigger] quotient_or_zero(n, 0) == 0,
{
}

/// What a report of the peer says of the path: shares of the parity that was
/// received, of the Cells that were asked for and of the Cells that were sent,
/// the mean repair latency, and goodput over the time since the last report.
pub proof fn lemma_report_becomes_rates(
    current: RemoteFeedbackCountersV2,
    delta: RemoteFeedbackCountersV2,
    nanos: int,
)
    ensures
        ({
            let rates = rates_of(current, delta, nanos);
            let parity = delta.remote_fec_parity_rx as int;
            let cells = delta.data_cell_tx_datagrams as int;
            let asked = delta.remote_repair_completed_requested_cells as int;
            &&& rates.sequence == current.remote_feedback_sequence
            &&& rates.repair_completed_requests == current.remote_repair_completed_requests
            &&& rates.expired_stripes_delta == delta.remote_expired_trains
            &&& rates.wasted_parity_per_mille == bounded_ratio(
                delta.remote_fec_wasted_parity as int,
                parity,
                1_000,
            )
            &&& rates.fec_recovery_per_mille == bounded_ratio(
                delta.remote_fec_recovered_cells as int,
                parity,
                1_000,
            )
            &&& rates.repair_hit_per_mille == bounded_ratio(
                delta.remote_repair_received_cells as int,
                asked,
                1_000,
            )
            &&& rates.reorder_ppm == bounded_ratio(
                delta.remote_reorder_cells as int,
                cells,
                1_000_000,
            )
            &&& rates.residual_loss_ppm == bounded_ratio(
                delta.remote_missing_cells as int,
                cells,
                1_000_000,
            )
            &&& delta.remote_repair_completed_requests != 0 ==> rates.repair_response_latency.nanos
                == delta.remote_repair_latency_micros / delta.remote_repair_completed_requests
                * 1_000
            &&& delta.remote_repair_completed_requests == 0 ==> rates.repair_response_latency.nanos
                == 0
            &&& nanos > 0 ==> rates.receiver_goodput_bytes_per_second == rate_over(
                delta.remote_delivered_payload_bytes as int,
                nanos,
            )
        }),
{
    super::feedback::lemma_ratio_is_bounded(
        delta.remote_fec_wasted_parity as int,
        delta.remote_fec_parity_rx as int,
        1_000,
    );
    super::feedback::lemma_ratio_is_bounded(
        delta.remote_fec_recovered_cells as int,
        delta.remote_fec_parity_rx as int,
        1_000,
    );
    super::feedback::lemma_ratio_is_bounded(
        delta.remote_repair_received_cells as int,
        delta.remote_repair_completed_requested_cells as int,
        1_000,
    );
    super::feedback::lemma_ratio_is_bounded(
        delta.remote_reorder_cells as int,
        delta.data_cell_tx_datagrams as int,
        1_000_000,
    );
    super::feedback::lemma_ratio_is_bounded(
        delta.remote_missing_cells as int,
        delta.data_cell_tx_datagrams as int,
        1_000_000,
    );
    let bytes = delta.remote_delivered_payload_bytes as int;
    if nanos > 0 {
        assert(bytes * 1_000_000_000 / nanos >= 0) by (nonlinear_arith)
            requires
                bytes >= 0,
                nanos > 0,
        ;
    }
}

/// The mean loss run weighs runs of one, two, three to four and more as one,
/// two, four and five Cells.
pub proof fn lemma_loss_runs_are_weighed(
    current: RemoteFeedbackCountersV2,
    delta: RemoteFeedbackCountersV2,
    nanos: int,
)
    requires
        delta.remote_loss_run_1 <= 1_000_000_000,
        delta.remote_loss_run_2 <= 1_000_000_000,
        delta.remote_loss_run_3_4 <= 1_000_000_000,
        delta.remote_loss_run_5_plus <= 1_000_000_000,
    ensures
        ({
            let one = delta.remote_loss_run_1 as int;
            let two = delta.remote_loss_run_2 as int;
            let four = delta.remote_loss_run_3_4 as int;
            let more = delta.remote_loss_run_5_plus as int;
            let runs = one + two + four + more;
            let burst = rates_of(current, delta, nanos).burst_loss_cells;
            &&& runs == 0 ==> burst == 0
            &&& runs > 0 ==> burst == (one + 2 * two + 4 * four + 5 * more) / runs
        }),
{
    let runs = loss_runs(delta) as int;
    let cells = weighted_loss_cells(delta) as int;
    if runs > 0 {
        assert(0 <= cells / runs <= 5) by (nonlinear_arith)
            requires
                0 <= cells <= 5 * runs,
                runs > 0,
        ;
    }
}

/// A new report replaces the rates and stands for three seconds; the same report
/// keeps them, without counting its expiries again, until those are over and
/// then says nothing.
pub proof fn lemma_report_stands_for_three_seconds(
    window: RemoteFeedbackWindowV2,
    current: RemoteFeedbackCountersV2,
    now: Instant,
)
    requires
        now.nanos <= 1_000_000_000_000_000_000_000,
    ensures
        ({
            let after = window.sampled(current, now);
            let repeated = current.remote_feedback_sequence
                == window.previous.remote_feedback_sequence;
            &&& !repeated ==> after.previous == current && after.previous_at == now
                && after.expires_at.nanos == now.nanos + 3_000_000_000 && after.rates.sequence
                == current.remote_feedback_sequence
            &&& repeated && now.nanos < window.expires_at.nanos ==> {
                &&& after.rates.residual_loss_ppm == window.rates.residual_loss_ppm
                &&& after.rates.burst_loss_cells == window.rates.burst_loss_cells
                &&& after.rates.receiver_goodput_bytes_per_second
                    == window.rates.receiver_goodput_bytes_per_second
                &&& after.rates.expired_stripes_delta == 0
                &&& after.expires_at == window.expires_at
                &&& after.previous == window.previous
            }
            &&& repeated && now.nanos >= window.expires_at.nanos ==> {
                &&& after.rates.residual_loss_ppm == 0
                &&& after.rates.reorder_ppm == 0
                &&& after.rates.burst_loss_cells == 0
                &&& after.rates.receiver_goodput_bytes_per_second == 0
                &&& after.rates.wasted_parity_per_mille == 0
                &&& after.rates.fec_recovery_per_mille == 0
                &&& after.rates.repair_hit_per_mille == 0
                &&& after.rates.repair_response_latency.nanos == 0
                &&& after.rates.expired_stripes_delta == 0
                &&& after.rates.sequence == window.rates.sequence
                &&& after.rates.repair_completed_requests
                    == window.rates.repair_completed_requests
            }
        }),
{
}

/// A relay of either kind is reliable, and any other path carries datagrams.
pub proof fn lemma_relays_are_reliable(is_relay: bool, remote: PathRemoteV2)
    ensures
        is_relay || remote is Derp ==> reliability_of(is_relay, remote)
            == PathReliability::ReliableRelay,
        !is_relay && !(remote is Derp) ==> reliability_of(is_relay, remote)
            == PathReliability::Datagram,
{
}

/// The minimum RTT is the controller's where it knows one, and the RTT
/// otherwise.
pub proof fn lemma_minimum_rtt_is_the_controllers(
    snapshot: ControllerSnapshotV2,
    rtt: Duration,
)
    ensures
        minimum_rtt_of(None, rtt) == rtt,
        snapshot.min_rtt.nanos == 0 ==> minimum_rtt_of(Some(snapshot), rtt) == rtt,
        0 < snapshot.min_rtt.nanos < 1_000_000_000_000_000_000 ==> minimum_rtt_of(
            Some(snapshot),
            rtt,
        ) == snapshot.min_rtt,
{
}

/// The capacity of a route in bits per second is eight times the larger
/// bandwidth of the controller, or its pacing rate where it has measured none.
pub proof fn lemma_capacity_is_the_larger_bandwidth(
    snapshot: ControllerSnapshotV2,
    pacing: Option<u64>,
)
    requires
        snapshot.bw <= 1_000_000_000_000,
        snapshot.max_bw <= 1_000_000_000_000,
        pacing matches Some(rate) ==> rate <= 1_000_000_000_000,
    ensures
        snapshot.bw >= snapshot.max_bw && snapshot.bw > 0 ==> route_capacity(Some(snapshot), pacing)
            == 8 * snapshot.bw,
        snapshot.bw < snapshot.max_bw ==> route_capacity(Some(snapshot), pacing) == 8
            * snapshot.max_bw,
        snapshot.bw == 0 && snapshot.max_bw == 0 ==> route_capacity(Some(snapshot), pacing)
            == route_capacity(None, pacing),
        pacing matches Some(rate) ==> route_capacity(None, pacing) == 8 * rate,
        pacing is None ==> route_capacity(None, pacing) == 0,
{
}

/// What a sample says of the path, measured from the sample before it.
pub proof fn lemma_sample_measures_the_interval(
    window: WindowModel,
    now: Instant,
    current: ConnectionCountersV2,
    path: PathSampleV2,
    tunables: Option<Bbr3Tunables>,
    clamped_writes: u64,
    counters: SampleCountersV2,
    queues: QueueFiguresV2,
    remote: RemoteFeedbackRatesV2,
)
    requires
        now.nanos > window.previous_sample_at.nanos,
        current.udp_tx_datagrams >= window.previous.udp_tx_datagrams,
        current.udp_rx_datagrams >= window.previous.udp_rx_datagrams,
        current.lost_packets >= window.previous.lost_packets,
        current.udp_tx_bytes >= window.previous.udp_tx_bytes,
        current.udp_rx_bytes >= window.previous.udp_rx_bytes,
        counters.tun_ingress_bytes >= window.sample_counters.tun_ingress_bytes,
        counters.tun_ingress_records >= window.sample_counters.tun_ingress_records,
        counters.real_bytes >= window.sample_counters.real_bytes,
        counters.reassembly_pressure_evictions
            >= window.sample_counters.reassembly_pressure_evictions,
    ensures
        ({
            let t = window.telemetry(
                now,
                current,
                path,
                tunables,
                clamped_writes,
                counters,
                queues,
                remote,
            );
            let nanos = now.nanos - window.previous_sample_at.nanos;
            let sent = current.udp_tx_datagrams - window.previous.udp_tx_datagrams;
            let received = current.udp_rx_datagrams - window.previous.udp_rx_datagrams;
            let lost = current.lost_packets - window.previous.lost_packets;
            let ingress = counters.tun_ingress_bytes - window.sample_counters.tun_ingress_bytes;
            let records = counters.tun_ingress_records - window.sample_counters.tun_ingress_records;
            &&& t.rtt == path.rtt
            &&& t.queue_delay.nanos == (if path.rtt.nanos >= t.min_rtt.nanos {
                path.rtt.nanos - t.min_rtt.nanos
            } else {
                0
            })
            &&& t.loss_ppm == bounded_ratio(lost, sent, 1_000_000)
            &&& t.delivery_rate_bytes_per_second == rate_over(
                current.udp_tx_bytes - window.previous.udp_tx_bytes,
                nanos,
            )
            &&& t.receive_rate_bytes_per_second == rate_over(
                current.udp_rx_bytes - window.previous.udp_rx_bytes,
                nanos,
            )
            &&& sent >= received ==> t.packets_per_second == sent
            &&& sent < received ==> t.packets_per_second == received
            &&& t.tun_ingress_bytes_per_second == rate_over(ingress, nanos)
            &&& t.real_traffic_bytes_per_second == rate_over(
                counters.real_bytes - window.sample_counters.real_bytes,
                nanos,
            )
            &&& records > 0 ==> t.average_record_bytes == ingress / records
            &&& records == 0 ==> t.average_record_bytes == 0
            &&& t.reassembly_pressure_evictions == counters.reassembly_pressure_evictions
                - window.sample_counters.reassembly_pressure_evictions
            &&& t.packet_train_queue_bytes == queues.train_queue_bytes
            &&& t.latency_queue_bytes == queues.latency_queue_bytes
            &&& queues.cpu_utilization_per_mille <= 1_000 ==> t.cpu_utilization_per_mille
                == queues.cpu_utilization_per_mille
            &&& queues.cpu_utilization_per_mille > 1_000 ==> t.cpu_utilization_per_mille == 1_000
            &&& t.burst_loss_cells == remote.burst_loss_cells
            &&& t.residual_loss_ppm == remote.residual_loss_ppm
            &&& t.reorder_ppm == remote.reorder_ppm
            &&& t.wasted_parity_per_mille == remote.wasted_parity_per_mille
            &&& t.fec_recovery_per_mille == remote.fec_recovery_per_mille
            &&& t.repair_hit_per_mille == remote.repair_hit_per_mille
            &&& t.repair_completed_requests == remote.repair_completed_requests
            &&& t.repair_response_latency == remote.repair_response_latency
            &&& t.receiver_goodput_bytes_per_second == remote.receiver_goodput_bytes_per_second
            &&& t.remote_expired_stripes_delta == remote.expired_stripes_delta
            &&& path.is_relay ==> t.reliability == PathReliability::ReliableRelay
            &&& path.snapshot matches Some(snapshot) ==> t.controller_state == snapshot.state
                && t.controller_bw_bytes_per_second == snapshot.bw && t.controller_app_limited
                == snapshot.app_limited_in_round
            &&& path.pacing_rate_bytes_per_second matches Some(rate)
                ==> t.controller_pacing_rate_bytes_per_second == rate
        }),
{
    let nanos = now.nanos - window.previous_sample_at.nanos;
    super::feedback::lemma_ratio_is_bounded(
        current.lost_packets - window.previous.lost_packets,
        current.udp_tx_datagrams - window.previous.udp_tx_datagrams,
        1_000_000,
    );
    lemma_rate_fits(current.udp_tx_bytes - window.previous.udp_tx_bytes, nanos);
    lemma_rate_fits(current.udp_rx_bytes - window.previous.udp_rx_bytes, nanos);
    lemma_rate_fits(
        counters.tun_ingress_bytes - window.sample_counters.tun_ingress_bytes,
        nanos,
    );
    lemma_rate_fits(counters.real_bytes - window.sample_counters.real_bytes, nanos);
}

/// A rate fits in sixty-four bits.
proof fn lemma_rate_fits(value: int, nanos: int)
    requires
        value >= 0,
        nanos > 0,
    ensures
        0 <= rate_over(value, nanos) <= u64::MAX,
{
    assert(value * 1_000_000_000 / nanos >= 0) by (nonlinear_arith)
        requires
            value >= 0,
            nanos > 0,
    ;
}

/// The next sample measures from this one, and a missed one from it too, which
/// is counted.
pub proof fn lemma_intervals_follow_each_other(
    window: WindowModel,
    now: Instant,
    current: ConnectionCountersV2,
    path: PathSampleV2,
    counters: SampleCountersV2,
)
    ensures
        ({
            let after = window.sampled(now, current, path, counters);
            let missed = window.missed(now, current, counters);
            &&& after.previous == current
            &&& after.previous_sample_at == now
            &&& after.sample_counters == counters
            &&& after.failures == 0
            &&& missed.previous == current
            &&& missed.previous_sample_at == now
            &&& missed.sample_counters == counters
            &&& window.failures < u64::MAX ==> missed.failures == window.failures + 1
            &&& missed.epoch == window.epoch
            &&& missed.identity == window.identity
        }),
{
}

/// A floor is rounded up to 16 KiB and never exceeds 8 MiB.
pub proof fn lemma_floor_is_a_multiple(bytes: int)
    requires
        0 <= bytes,
    ensures
        bytes > 8_388_608 ==> quantized(bytes) == 8_388_608,
        bytes <= 8_388_608 ==> bytes <= quantized(bytes) < bytes + 16_384,
        quantized(bytes) % 16_384 == 0,
{
}

/// The floor for a rate is its bandwidth-delay product times the window gain,
/// rounded up to 16 KiB, up to 8 MiB.
pub proof fn lemma_floor_follows_the_product(rate: u64, min_rtt: Duration, gain_milli: u32)
    requires
        rate <= 1_000_000_000_000,
        min_rtt.nanos <= 1_000_000_000_000,
        gain_milli <= 100_000,
    ensures
        ({
            let bdp = rate * (min_rtt.nanos as int / 1_000) / 1_000_000;
            let wanted = (bdp * gain_milli + 999) / 1_000;
            let floor = floor_for_rate(rate as int, min_rtt, gain_milli as int);
            &&& wanted <= 8_388_608 ==> wanted <= floor < wanted + 16_384
            &&& wanted > 8_388_608 ==> floor == 8_388_608
            &&& floor % 16_384 == 0
        }),
{
    let r = rate as int;
    let m = min_rtt.nanos as int / 1_000;
    let product = r * m;
    assert(0 <= product <= 1_000_000_000_000 * 1_000_000_000) by (nonlinear_arith)
        requires
            0 <= r <= 1_000_000_000_000,
            0 <= m <= 1_000_000_000,
            product == r * m,
    ;
    let bdp = product / 1_000_000;
    let g = gain_milli as int;
    let scaled = bdp * g;
    assert(0 <= scaled <= 1_000_000_000_000_000 * 100_000) by (nonlinear_arith)
        requires
            0 <= bdp <= 1_000_000_000_000_000,
            0 <= g <= 100_000,
            scaled == bdp * g,
    ;
}

/// No floor is held on a relay, where loss is congestion, where the application
/// limits the controller, under CPU pressure or without a minimum RTT; nor after
/// two samples without any demand.
pub proof fn lemma_floor_needs_its_ground(
    state: AdaptiveCwndFloorStateV2,
    t: PathTelemetryV2,
    effective: BbrEffectiveV1,
    window: u64,
)
    ensures
        ({
            let after = state.updated(t, effective, window);
            let forbidden = t.reliability == PathReliability::ReliableRelay
                || effective.loss_is_congestion || t.controller_app_limited
                || t.cpu_utilization_per_mille >= 900 || t.min_rtt.nanos == 0;
            let silent = t.tun_ingress_bytes_per_second == 0 && t.delivery_rate_bytes_per_second
                == 0 && t.real_traffic_bytes_per_second == 0 && t.packet_train_queue_bytes == 0;
            &&& forbidden ==> after.held_bytes == 0 && after.mode == AdaptiveCwndFloorModeV2::Probe
                && after.inactive_ticks == 0 && after.path_epoch == t.path_epoch
            &&& !forbidden && silent && state.path_epoch == t.path_epoch && state.inactive_ticks
                >= 1 ==> after.held_bytes == 0 && after.mode == AdaptiveCwndFloorModeV2::Probe
            &&& !forbidden && silent && state.path_epoch == t.path_epoch && state.inactive_ticks
                == 0 ==> after.held_bytes == state.held_bytes && after.inactive_ticks == 1
                && after.mode == state.mode
            &&& !forbidden && silent && state.path_epoch != t.path_epoch ==> after.held_bytes == 0
            &&& !forbidden && !silent ==> after.inactive_ticks == 0
        }),
{
}

/// A probing floor tracks once a queue stands or the model serves the demand:
/// from the measured product, or from the larger of it and the model's. Behind a
/// backlog of 128 KiB it asks for twice the window; otherwise it keeps what it
/// holds.
pub proof fn lemma_probing_floor_by_cases(
    state: AdaptiveCwndFloorStateV2,
    t: PathTelemetryV2,
    effective: BbrEffectiveV1,
    window: u64,
)
    requires
        !floor_forbidden(t, effective),
        t.tun_ingress_bytes_per_second != 0 || t.packet_train_queue_bytes != 0,
        state.mode == AdaptiveCwndFloorModeV2::Probe,
        state.path_epoch == t.path_epoch,
        window <= 1_000_000_000_000,
    ensures
        ({
            let after = state.updated(t, effective, window);
            let gain = effective.default_cwnd_gain_milli as int;
            let measured = measured_floor(t, gain);
            let modeled = floor_for_rate(
                t.controller_bw_bytes_per_second as int,
                t.min_rtt,
                gain,
            );
            let queued = t.queue_delay.nanos > 5_000_000 && t.queue_delay.nanos
                > t.min_rtt.nanos as int / 2;
            let demand = t.tun_ingress_bytes_per_second <= t.controller_bw_bytes_per_second
                && t.delivery_rate_bytes_per_second <= t.controller_bw_bytes_per_second
                && t.real_traffic_bytes_per_second <= t.controller_bw_bytes_per_second;
            let served = t.controller_state != 0 && t.packet_train_queue_bytes >= 131_072
                && modeled != 0 && 3 * modeled <= 4 * window <= 5 * modeled && demand;
            let doubled = if window < 16_384 {
                quantized(32_768)
            } else {
                quantized(2 * window)
            };
            &&& queued ==> after.mode == AdaptiveCwndFloorModeV2::Track && after.held_bytes
                == measured
            &&& !queued && served ==> after.mode == AdaptiveCwndFloorModeV2::Track && (
            after.held_bytes == measured || after.held_bytes == modeled) && after.held_bytes
                >= measured && after.held_bytes >= modeled
            &&& !queued && !served && t.packet_train_queue_bytes >= 131_072 ==> after.mode
                == AdaptiveCwndFloorModeV2::Probe && after.held_bytes >= measured
                && after.held_bytes >= doubled && (after.held_bytes == measured
                || after.held_bytes == doubled)
            &&& !queued && t.packet_train_queue_bytes < 131_072 ==> after.mode
                == AdaptiveCwndFloorModeV2::Probe && (state.held_bytes == 0 ==> after.held_bytes
                == 0) && after.held_bytes >= state.held_bytes
        }),
{
    let gain = effective.default_cwnd_gain_milli as int;
    lemma_floor_range(t.spec_demand_rate() as int, t.min_rtt, gain);
    lemma_floor_range(t.controller_bw_bytes_per_second as int, t.min_rtt, gain);
}

/// Every floor lies between zero and 8 MiB.
proof fn lemma_floor_range(rate: int, min_rtt: Duration, gain_milli: int)
    requires
        rate >= 0,
        gain_milli >= 0,
    ensures
        0 <= floor_for_rate(rate, min_rtt, gain_milli) <= 8_388_608,
        floor_for_rate(rate, min_rtt, gain_milli) % 16_384 == 0,
{
    let micros = min_rtt.micros();
    assert(rate * micros >= 0) by (nonlinear_arith)
        requires
            rate >= 0,
            micros >= 0,
    ;
    let product = rate * micros;
    let cut = if product <= u128::MAX {
        product
    } else {
        u128::MAX as int
    };
    let bdp = cut / 1_000_000;
    assert(bdp * gain_milli >= 0) by (nonlinear_arith)
        requires
            bdp >= 0,
            gain_milli >= 0,
    ;
}

/// A tracking floor moves to the measured product by at most a quarter per
/// sample, and behind a queue only downwards.
pub proof fn lemma_tracking_floor_by_cases(
    state: AdaptiveCwndFloorStateV2,
    t: PathTelemetryV2,
    effective: BbrEffectiveV1,
    window: u64,
)
    requires
        !floor_forbidden(t, effective),
        t.tun_ingress_bytes_per_second != 0 || t.packet_train_queue_bytes != 0,
        state.mode == AdaptiveCwndFloorModeV2::Track,
        state.path_epoch == t.path_epoch,
        state.held_bytes <= 8_388_608,
    ensures
        ({
            let after = state.updated(t, effective, window);
            let measured = measured_floor(t, effective.default_cwnd_gain_milli as int);
            let held = state.held_bytes;
            let queued = t.queue_delay.nanos > 5_000_000 && t.queue_delay.nanos
                > t.min_rtt.nanos as int / 2;
            &&& after.mode == AdaptiveCwndFloorModeV2::Track
            &&& queued && measured <= held ==> after.held_bytes == measured
            &&& queued && measured > held ==> after.held_bytes == held
            &&& !queued && 4 * measured > 5 * held + 65_536 ==> 4 * after.held_bytes <= 5 * held
                + 65_536 && after.held_bytes >= held
            &&& !queued && 4 * measured < 3 * held - 65_536 ==> 4 * after.held_bytes >= 3 * held
                - 4 && 4 * after.held_bytes <= 3 * held + 65_536
            &&& !queued && 3 * held <= 4 * measured <= 5 * held ==> after.held_bytes == measured
        }),
{
    lemma_floor_range(
        t.spec_demand_rate() as int,
        t.min_rtt,
        effective.default_cwnd_gain_milli as int,
    );
}

/// The floor in effect is the larger of the preset's and the adaptive one, but
/// never above a cap.
pub proof fn lemma_floors_combine(effective: BbrEffectiveV1, adaptive: int)
    requires
        adaptive >= 0,
    ensures
        effective.cwnd_cap_bytes == 0 && adaptive >= effective.cwnd_floor_bytes ==> combined_floor(
            effective,
            adaptive,
        ) == adaptive,
        effective.cwnd_cap_bytes == 0 && adaptive < effective.cwnd_floor_bytes ==> combined_floor(
            effective,
            adaptive,
        ) == effective.cwnd_floor_bytes,
        effective.cwnd_cap_bytes != 0 ==> combined_floor(effective, adaptive)
            <= effective.cwnd_cap_bytes,
        effective.cwnd_cap_bytes != 0 && adaptive <= effective.cwnd_cap_bytes
            && effective.cwnd_floor_bytes <= effective.cwnd_cap_bytes && adaptive
            >= effective.cwnd_floor_bytes ==> combined_floor(effective, adaptive) == adaptive,
{
}

/// Writing the settings puts each into its own tunable; the generation moves on
/// where anything changed and only there, and no probe is asked for.
pub proof fn lemma_settings_reach_their_tunables(
    tunables: Bbr3Tunables,
    effective: BbrEffectiveV1,
)
    requires
        tunables.generation < u64::MAX,
    ensures
        ({
            let after = tunables.written(effective);
            &&& after.probe_bw_up_pacing_gain_milli == effective.probe_bw_up_pacing_gain_milli
            &&& after.probe_bw_down_pacing_gain_milli == effective.probe_bw_down_pacing_gain_milli
            &&& after.cruise_pacing_gain_milli == effective.cruise_pacing_gain_milli
            &&& after.default_cwnd_gain_milli == effective.default_cwnd_gain_milli
            &&& after.probe_bw_up_cwnd_gain_milli == effective.probe_bw_up_cwnd_gain_milli
            &&& after.probe_rtt_cwnd_gain_milli == effective.probe_rtt_cwnd_gain_milli
            &&& after.headroom_milli == effective.headroom_milli
            &&& after.beta_milli == effective.beta_milli
            &&& after.loss_thresh_milli == effective.loss_threshold_milli
            &&& after.loss_is_congestion == effective.loss_is_congestion
            &&& after.queue_delay_guard_inflation_milli == effective.queue_guard_inflation_milli
            &&& after.queue_delay_guard_slack_micros == effective.queue_guard_slack_micros
            &&& after.probe_rtt_interval_millis == effective.probe_rtt_interval_millis
            &&& after.probe_rtt_duration_millis == effective.probe_rtt_duration_millis
            &&& after.min_probe_wait_millis == effective.min_probe_wait_millis
            &&& after.max_added_probe_wait_millis == effective.max_added_probe_wait_millis
            &&& after.pacing_rate_cap_bytes_per_second == effective.pacing_cap_bytes_per_second
            &&& after.cwnd_floor_bytes == effective.cwnd_floor_bytes
            &&& after.cwnd_cap_bytes == effective.cwnd_cap_bytes
            &&& after.startup_bw_hint_bytes_per_second
                == effective.startup_bw_hint_bytes_per_second
            &&& after.capacity_probe_generation == tunables.capacity_probe_generation
            &&& after.generation == tunables.generation || after.generation == tunables.generation
                + 1
            &&& tunables.headroom_milli != effective.headroom_milli
                || tunables.cwnd_floor_bytes != effective.cwnd_floor_bytes
                || tunables.probe_bw_up_pacing_gain_milli
                != effective.probe_bw_up_pacing_gain_milli
                || tunables.default_cwnd_gain_milli != effective.default_cwnd_gain_milli
                || tunables.pacing_rate_cap_bytes_per_second
                != effective.pacing_cap_bytes_per_second || tunables.loss_is_congestion
                != effective.loss_is_congestion ==> after.generation == tunables.generation + 1
            &&& after.written(effective).generation == after.generation
        }),
{
}

/// A request for a probe moves both generations on; a publication without one
/// leaves the probe's alone.
pub proof fn lemma_requests_move_the_generations(
    tunables: Bbr3Tunables,
    effective: BbrEffectiveV1,
    requested: bool,
)
    requires
        tunables.generation < u64::MAX,
        tunables.capacity_probe_generation < u64::MAX,
    ensures
        probed(tunables).capacity_probe_generation == tunables.capacity_probe_generation + 1,
        probed(tunables).generation == tunables.generation + 1,
        probed(tunables).cwnd_floor_bytes == tunables.cwnd_floor_bytes,
        requested ==> tunables_published(tunables, effective, requested).capacity_probe_generation
            == tunables.capacity_probe_generation + 1,
        requested ==> tunables_published(tunables, effective, requested).generation
            == tunables.generation + 1,
        !requested ==> tunables_published(tunables, effective, requested)
            == tunables.written(effective),
{
}

/// Growth of the service counter is noted, resets the idle count, and while the
/// first decision is open is summed up with its edges. The first growth on an
/// idle path opens activity, asks for a probe where idleness was verified or a
/// probe is owed, and otherwise lets the first decision wait for a sample.
pub proof fn lemma_service_opens_activity(probe: CapacityProbeStateV2, counter: u64)
    requires
        probe.initial_bulk_serviced_bytes <= 1_000_000_000_000,
        probe.initial_bulk_service_edges < 255,
        counter <= 1_000_000_000_000,
    ensures
        ({
            let (after, requested) = probe.serviced(counter);
            let grown = counter > probe.bulk_service_counter;
            let open = probe.initial_bulk_probe != InitialBulkProbeV2::Consumed;
            &&& after.bulk_service_counter == counter
            &&& !grown ==> !requested && after == (CapacityProbeStateV2 {
                bulk_service_counter: counter,
                ..probe
            })
            &&& grown ==> after.bulk_active && after.bulk_service_since_tick
                && after.bulk_idle_ticks == 0 && !after.bulk_idle_verified
            &&& grown && open ==> after.initial_bulk_serviced_bytes
                == probe.initial_bulk_serviced_bytes + counter - probe.bulk_service_counter
                && after.initial_bulk_service_edges == probe.initial_bulk_service_edges + 1
            &&& grown && !open ==> after.initial_bulk_serviced_bytes
                == probe.initial_bulk_serviced_bytes && after.initial_bulk_service_edges
                == probe.initial_bulk_service_edges
            &&& grown && probe.bulk_active ==> !requested && after.initial_bulk_probe
                == probe.initial_bulk_probe && after.probe_pending == probe.probe_pending
            &&& grown && !probe.bulk_active ==> requested == (probe.bulk_idle_verified
                || probe.probe_pending) && !after.probe_pending
            &&& grown && !probe.bulk_active && !requested && probe.initial_bulk_probe
                == InitialBulkProbeV2::AwaitingEdge ==> after.initial_bulk_probe
                == InitialBulkProbeV2::AwaitingSampleBoundary
        }),
{
}

/// Growth of the admission counter is noted and, while the first decision is
/// open, summed up with its edges; it opens nothing by itself.
pub proof fn lemma_admission_is_summed_up(probe: CapacityProbeStateV2, counter: u64)
    requires
        probe.initial_bulk_admitted_bytes <= 1_000_000_000_000,
        probe.initial_bulk_admission_edges < 255,
        counter <= 1_000_000_000_000,
    ensures
        ({
            let after = probe.admitted(counter);
            let grown = counter > probe.bulk_admission_counter;
            let open = probe.initial_bulk_probe != InitialBulkProbeV2::Consumed;
            &&& after.bulk_admission_counter == counter
            &&& after.bulk_active == probe.bulk_active
            &&& after.probe_pending == probe.probe_pending
            &&& after.initial_bulk_probe == probe.initial_bulk_probe
            &&& grown ==> after.bulk_admission_since_tick
            &&& !grown ==> after.bulk_admission_since_tick == probe.bulk_admission_since_tick
            &&& grown && open ==> after.initial_bulk_admitted_bytes
                == probe.initial_bulk_admitted_bytes + counter - probe.bulk_admission_counter
                && after.initial_bulk_admission_edges == probe.initial_bulk_admission_edges + 1
            &&& !grown || !open ==> after.initial_bulk_admitted_bytes
                == probe.initial_bulk_admitted_bytes && after.initial_bulk_admission_edges
                == probe.initial_bulk_admission_edges
        }),
{
}

/// The first decision fires once at least 16 KiB in at least two steps were
/// served, or admitted, outside startup and outside a policer episode, and never
/// twice.
pub proof fn lemma_first_decision_needs_sustained_bulk(
    probe: CapacityProbeStateV2,
    controller_state: u8,
    policer: bool,
)
    ensures
        probe.initial_bulk_fires(controller_state, policer) == (probe.initial_bulk_probe
            != InitialBulkProbeV2::Consumed && controller_state != 0 && !policer && ((
        probe.initial_bulk_service_edges >= 2 && probe.initial_bulk_serviced_bytes >= 16_384) || (
        probe.initial_bulk_admission_edges >= 2 && probe.initial_bulk_admitted_bytes >= 16_384))),
{
}

/// A tick without Bulk on an active path counts towards idleness: two such ticks
/// verify it, five in a policer episode. A tick with Bulk starts the count over.
pub proof fn lemma_idleness_takes_two_ticks(
    probe: CapacityProbeStateV2,
    t: PathTelemetryV2,
    policer: bool,
)
    requires
        probe.path_epoch == t.path_epoch,
        probe.path_epoch != 0,
        probe.bulk_active,
        probe.bulk_idle_ticks < 100,
    ensures
        ({
            let (after, requested) = probe.updated(t, policer);
            let moved = probe.bulk_admission_since_tick || probe.bulk_service_since_tick
                || t.packet_train_queue_bytes >= 131_072;
            let needed: int = if policer {
                5
            } else {
                2
            };
            &&& !after.bulk_service_since_tick
            &&& !after.bulk_admission_since_tick
            &&& moved ==> after.bulk_active && after.bulk_idle_ticks == 0
                && !after.bulk_idle_verified
            &&& !moved ==> !requested
            &&& !moved && probe.bulk_idle_ticks + 1 < needed ==> after.bulk_active
                && after.bulk_idle_ticks == probe.bulk_idle_ticks + 1
            &&& !moved && probe.bulk_idle_ticks + 1 >= needed ==> !after.bulk_active
                && after.bulk_idle_verified && after.bulk_idle_ticks == 0
        }),
{
}

/// A tick with Bulk on an inactive path opens activity and asks for a probe
/// where idleness was verified or one is owed.
pub proof fn lemma_bulk_reopens_activity(
    probe: CapacityProbeStateV2,
    t: PathTelemetryV2,
    policer: bool,
)
    requires
        probe.path_epoch == t.path_epoch,
        probe.path_epoch != 0,
        !probe.bulk_active,
        probe.initial_bulk_probe == InitialBulkProbeV2::Consumed,
    ensures
        ({
            let (after, requested) = probe.updated(t, policer);
            let moved = probe.bulk_admission_since_tick || probe.bulk_service_since_tick;
            &&& moved ==> after.bulk_active && !after.probe_pending && !after.bulk_idle_verified
                && requested == (probe.bulk_idle_verified || probe.probe_pending)
            &&& !moved ==> !requested && !after.bulk_active && after.bulk_idle_verified
                == probe.bulk_idle_verified && after.probe_pending == probe.probe_pending
        }),
{
}

/// The first decision spans a whole sample: opened in the middle of one, it is
/// taken at the end of the next, where that sample is safe and demand exceeds
/// the pacing rate in either of the two, and it is spent either way.
pub proof fn lemma_first_decision_spans_a_sample(
    probe: CapacityProbeStateV2,
    t: PathTelemetryV2,
    policer: bool,
)
    requires
        probe.path_epoch == t.path_epoch,
        probe.path_epoch != 0,
        probe.bulk_active,
        probe.bulk_service_since_tick,
    ensures
        ({
            let (after, requested) = probe.updated(t, policer);
            let safe = !policer && t.controller_state != 0 && t.loss_ppm == 0
                && t.residual_loss_ppm == 0 && t.burst_loss_cells == 0;
            let demand = t.tun_ingress_bytes_per_second
                > t.controller_pacing_rate_bytes_per_second;
            &&& probe.initial_bulk_probe == InitialBulkProbeV2::AwaitingSampleBoundary ==> {
                &&& !requested
                &&& after.initial_bulk_probe == InitialBulkProbeV2::AwaitingCompleteTick
                &&& after.initial_clean_demand_seen == (safe && demand)
                &&& after.initial_sample_incomplete
            }
            &&& probe.initial_bulk_probe == InitialBulkProbeV2::AwaitingCompleteTick ==> {
                &&& requested == (safe && (probe.initial_clean_demand_seen || demand))
                &&& after.initial_bulk_probe == InitialBulkProbeV2::Consumed
            }
            &&& probe.initial_bulk_probe == InitialBulkProbeV2::Consumed ==> !requested
                && after.initial_bulk_probe == InitialBulkProbeV2::Consumed
        }),
{
}

/// A loss episode opens with one percent of loss, or residual loss, or a burst of
/// three, and ends with a request after two clean samples in a row; a policer
/// episode or a silent tunnel ends it without one.
pub proof fn lemma_loss_episode_by_cases(
    probe: CapacityProbeStateV2,
    t: PathTelemetryV2,
    policer: bool,
)
    requires
        probe.path_epoch == t.path_epoch,
        probe.consecutive_clean_loss_ticks < 100,
    ensures
        ({
            let (after, requested) = probe.loss_observed(t, policer);
            let signal = t.loss_ppm >= 10_000 || t.residual_loss_ppm >= 10_000
                || t.burst_loss_cells >= 3;
            let quiet = policer || t.tun_ingress_bytes_per_second == 0;
            let lossless = t.loss_ppm == 0 && t.residual_loss_ppm == 0;
            &&& quiet ==> !requested && !after.loss_episode && !after.loss_signal_latched
                && after.consecutive_clean_loss_ticks == 0
            &&& !quiet && signal && !probe.loss_signal_latched ==> !requested && after.loss_episode
                && after.loss_signal_latched && after.consecutive_clean_loss_ticks == 0
            &&& !quiet && !(signal && !probe.loss_signal_latched) && !probe.loss_episode
                ==> !requested && !after.loss_episode && after.loss_signal_latched == signal
            &&& !quiet && !signal && probe.loss_episode && !lossless ==> !requested
                && after.loss_episode && after.consecutive_clean_loss_ticks == 0
            &&& !quiet && !signal && probe.loss_episode && lossless
                && probe.consecutive_clean_loss_ticks == 0 ==> !requested && after.loss_episode
                && after.consecutive_clean_loss_ticks == 1
            &&& !quiet && !signal && probe.loss_episode && lossless
                && probe.consecutive_clean_loss_ticks >= 1 ==> requested && !after.loss_episode
                && after.consecutive_clean_loss_ticks == 0
        }),
{
}

/// Another path forgets what was learned, keeps the counters, owes a probe and
/// makes no first decision.
pub proof fn lemma_other_path_owes_a_probe(
    probe: CapacityProbeStateV2,
    t: PathTelemetryV2,
    policer: bool,
)
    requires
        probe.path_epoch != t.path_epoch,
        probe.path_epoch != 0,
    ensures
        ({
            let (after, requested) = probe.updated(t, policer);
            &&& !requested
            &&& after.path_epoch == t.path_epoch
            &&& after.probe_pending
            &&& !after.bulk_active
            &&& !after.bulk_idle_verified
            &&& !after.loss_episode
            &&& after.initial_bulk_probe == InitialBulkProbeV2::Consumed
            &&& after.bulk_service_counter == probe.bulk_service_counter
            &&& after.bulk_admission_counter == probe.bulk_admission_counter
            &&& after.previous_pacing_cap_bytes_per_second is None
        }),
{
}

/// A pacing cap counts as released where an active tunnel had one and has none
/// now.
pub proof fn lemma_released_caps(probe: CapacityProbeStateV2, cap: u64, active: bool)
    ensures
        probe.cap_released(cap, active) == (active && cap == 0
            && probe.previous_pacing_cap_bytes_per_second is Some
            && probe.previous_pacing_cap_bytes_per_second.unwrap() > 0),
{
}

/// An edge is published under the reason of what it saw: renewed service first,
/// then the first decision, which is spent by it. Without a controller to tell
/// it is owed.
pub proof fn lemma_edges_name_their_reason(
    probe: CapacityProbeStateV2,
    path: PathSampleV2,
    service: u64,
    admission: u64,
)
    ensures
        ({
            let (after, reason) = edge_seen(probe, path, service, admission);
            let renewed = service > probe.bulk_service_counter && !probe.bulk_active && (
            probe.bulk_idle_verified || probe.probe_pending);
            &&& renewed ==> reason == Some(EdgeReasonV2::BulkServiceReactivation)
            &&& !renewed ==> reason != Some(EdgeReasonV2::BulkServiceReactivation)
            &&& reason == Some(EdgeReasonV2::InitialBulkDemand) ==> {
                &&& after.initial_bulk_probe == InitialBulkProbeV2::Consumed
                &&& probe.initial_bulk_probe != InitialBulkProbeV2::Consumed
                &&& path.policer_pacing_transitions == 0
                &&& path.snapshot is Some
                &&& path.snapshot.unwrap().state != 0
            }
            &&& after.bulk_service_counter == service
            &&& after.bulk_admission_counter == admission
            &&& edge_owed(after).probe_pending
            &&& !edge_owed(after).bulk_active
        }),
{
}

/// The fast clock acts only on the path that was sampled last, and moves the
/// controller exactly where it names a reason.
pub proof fn lemma_fast_clock_acts_on_its_path(
    session: SessionModel,
    path: Option<PathSampleV2>,
    tunables: Option<Bbr3Tunables>,
    service: u64,
    admission: u64,
)
    ensures
        ({
            let (after, written, reason) = session.edge(path, tunables, service, admission);
            &&& path is None || session.window.identity.len() == 0 ==> after == session && written
                == tunables && reason is None
            &&& reason is None ==> written == tunables
            &&& reason is Some ==> tunables is Some && written == Some(probed(tunables.unwrap()))
            &&& after.window == session.window
            &&& after.remote == session.remote
            &&& after.floor == session.floor
        }),
{
}

/// A full tick asks for a probe where the activity or the loss does; a sample
/// that the first decision began in the middle of says nothing of loss.
pub proof fn lemma_tick_asks_where_either_does(
    session: SessionModel,
    t: PathTelemetryV2,
    policer: bool,
)
    ensures
        ({
            let (after, requested) = session.probe_after(t, policer);
            let bulk = session.probe.updated(t, policer);
            &&& bulk.1 ==> requested
            &&& bulk.0.initial_sample_incomplete ==> after == bulk.0 && requested == bulk.1
            &&& !bulk.0.initial_sample_incomplete ==> (after, requested) == (
                bulk.0.loss_observed(t, policer).0,
                bulk.1 || bulk.0.loss_observed(t, policer).1,
            )
        }),
{
}

/// A publication remembers its pacing cap, keeps the floor up to date and adds a
/// request where the last cap was released by an active tunnel.
pub proof fn lemma_publication_remembers_the_cap(
    session: SessionModel,
    t: PathTelemetryV2,
    window: u64,
    effective: BbrEffectiveV1,
    requested: bool,
)
    ensures
        ({
            let (after, asks) = session.published(t, window, effective, requested);
            let had = session.probe.previous_pacing_cap_bytes_per_second is Some
                && session.probe.previous_pacing_cap_bytes_per_second.unwrap() > 0;
            &&& after.probe.previous_pacing_cap_bytes_per_second == Some(
                effective.pacing_cap_bytes_per_second,
            )
            &&& after.floor == session.floor.updated(t, effective, window)
            &&& requested ==> asks
            &&& !requested && asks ==> had && effective.pacing_cap_bytes_per_second == 0
                && t.tun_ingress_bytes_per_second > 0
            &&& had && effective.pacing_cap_bytes_per_second == 0 && t.tun_ingress_bytes_per_second
                > 0 && !session.probe.initial_sample_incomplete ==> asks
        }),
{
}

/// The figures of a status line: repair bytes both ways, overheads against what
/// they protect, and the share of Bulk in what was served.
pub proof fn lemma_status_figures(delta: StatusDeltaV2, telemetry: StatusTelemetryV2, nanos: int)
    requires
        nanos > 0,
        delta.repair_request_bytes <= 1_000_000_000_000,
        delta.repair_response_bytes <= 1_000_000_000_000,
        delta.bulk_service_bytes <= 1_000_000_000_000,
        delta.latency_service_bytes <= 1_000_000_000_000,
    ensures
        ({
            let status = status_figures(delta, telemetry, nanos);
            &&& status.repair_tx_bytes == delta.repair_request_bytes + delta.repair_response_bytes
            &&& status.actual_cover_overhead_per_mille == bounded_ratio(
                delta.cover_bytes as int,
                delta.real_bytes as int,
                1_000,
            )
            &&& status.actual_fec_wire_overhead_per_mille == bounded_ratio(
                delta.fec_bytes as int,
                delta.data_cell_bytes as int,
                1_000,
            )
            &&& status.bulk_service_share_ppm == bounded_ratio(
                delta.bulk_service_bytes as int,
                delta.bulk_service_bytes + delta.latency_service_bytes,
                1_000_000,
            )
            &&& delta.tun_ingress_records != 0 ==> status.average_record_bytes
                == delta.tun_ingress_bytes / delta.tun_ingress_records
            &&& status.tun_ingress_bytes_per_second == rate_over(
                delta.tun_ingress_bytes as int,
                nanos,
            )
            &&& status.telemetry == telemetry
        }),
{
    super::feedback::lemma_ratio_is_bounded(
        delta.cover_bytes as int,
        delta.real_bytes as int,
        1_000,
    );
    super::feedback::lemma_ratio_is_bounded(
        delta.fec_bytes as int,
        delta.data_cell_bytes as int,
        1_000,
    );
    super::feedback::lemma_ratio_is_bounded(
        delta.bulk_service_bytes as int,
        delta.bulk_service_bytes + delta.latency_service_bytes,
        1_000_000,
    );
    lemma_rate_fits(delta.tun_ingress_bytes as int, nanos);
}

/// A stripe that is forced has a data and a parity Cell, at most 255 Cells, and
/// no more parity than half of its data; the first of these that fails is the
/// error.
pub proof fn lemma_forced_stripes_are_guarded(data: int, parity: int)
    requires
        0 <= data <= 1_000_000,
        0 <= parity <= 1_000_000,
    ensures
        ({
            let result = guarded_geometry(Ok((data, parity)));
            let whole = data >= 1 && parity >= 1 && data + parity <= 255;
            &&& !whole ==> result == Err::<Option<FecGeometryV2>, ForceErrorV2>(
                ForceErrorV2::FecGeometry,
            )
            &&& whole && 2 * parity > data ==> result == Err::<
                Option<FecGeometryV2>,
                ForceErrorV2,
            >(ForceErrorV2::FecOverhead)
            &&& whole && 2 * parity <= data ==> result == Ok::<
                Option<FecGeometryV2>,
                ForceErrorV2,
            >(Some(FecGeometryV2 { data_cells: data as usize, parity_cells: parity as usize }))
        }),
{
}

/// Protection is switched off by null and by the word `off`; a number or a flag
/// is neither.
pub proof fn lemma_protection_off_has_two_forms()
    ensures
        forced_fec(ValueModel::Null) == Ok::<Option<FecGeometryV2>, ForceErrorV2>(None),
        forced_fec(ValueModel::Text("off"@)) == Ok::<Option<FecGeometryV2>, ForceErrorV2>(None),
        forall|n: u64| #[trigger]
            forced_fec(ValueModel::Unsigned(n)) == Err::<Option<FecGeometryV2>, ForceErrorV2>(
                ForceErrorV2::FecNotAnObject,
            ),
        forced_fec(ValueModel::Other) == Err::<Option<FecGeometryV2>, ForceErrorV2>(
            ForceErrorV2::FecNotAnObject,
        ),
{
}

/// A forced number is an unsigned one up to its maximum.
pub proof fn lemma_forced_numbers_are_bounded(
    value: Option<u64>,
    max: int,
    number: ForceNumberV2,
)
    ensures
        value is None ==> number_of(value, max, number) == Err::<u64, ForceErrorV2>(
            ForceErrorV2::NotAnInteger(number),
        ),
        value matches Some(n) ==> (n <= max ==> number_of(value, max, number) == Ok::<
            u64,
            ForceErrorV2,
        >(n)),
        value matches Some(n) ==> (n > max ==> number_of(value, max, number) == Err::<
            u64,
            ForceErrorV2,
        >(ForceErrorV2::TooLarge(number))),
{
}

/// The first field of a name is the one that counts.
pub proof fn lemma_first_field_counts(fields: Seq<FieldModel>, at: int)
    requires
        0 <= at < fields.len(),
        forall|i: int| 0 <= i < at ==> (#[trigger] fields[i]).name != fields[at].name,
    ensures
        lookup(fields, fields[at].name) == Some(fields[at].value),
    decreases at,
{
    if at > 0 {
        assert(fields[0].name != fields[at].name);
        let rest = fields.drop_first();
        assert(rest[at - 1] == fields[at]);
        assert forall|i: int| 0 <= i < at - 1 implies (#[trigger] rest[i]).name
            != rest[at - 1].name by {
            assert(rest[i] == fields[i + 1]);
        }
        lemma_first_field_counts(rest, at - 1);
    }
}

/// A candidate component warms up for five healthy ticks and is then promoted; a
/// fault aborts it at once.
pub proof fn lemma_candidates_warm_up_for_five_ticks(state: ReloadModel, healthy: u64)
    requires
        state.live_phase == (LiveReloadPhaseV1::Warming { healthy_ticks: healthy }),
    ensures
        state.warmed(true).1 == WarmupActionV1::Abort,
        state.warmed(true).0.live_phase == LiveReloadPhaseV1::Idle,
        healthy >= 4 ==> state.warmed(false).1 == WarmupActionV1::Promote
            && state.warmed(false).0.live_phase == LiveReloadPhaseV1::Idle,
        healthy < 4 ==> state.warmed(false).1 == WarmupActionV1::Observe && state.warmed(
            false,
        ).0.live_phase == (LiveReloadPhaseV1::Warming { healthy_ticks: (healthy + 1) as u64 }),
        state.scan_due() == (state.tick % 5 == 0),
{
}

/// A loaded component is taken up under its digest; an unchanged one is not; a
/// fault is reported unless it is the last one over again.
pub proof fn lemma_loads_by_cases(
    state: ReloadModel,
    digest: Seq<u8>,
    message: Seq<char>,
    last: Option<Seq<char>>,
)
    ensures
        load_action(Ok(Some(digest)), last) == ReloadActionV1::TakeUp,
        load_action(Ok(None), last) == ReloadActionV1::Nothing,
        last == Some(message) ==> load_action(Err(message), last) == ReloadActionV1::Nothing,
        last != Some(message) ==> load_action(Err(message), last) == ReloadActionV1::ReportFault,
        state.live_finished(Ok(Some(digest))).live_seen == Some(digest),
        state.live_finished(Ok(Some(digest))).live_phase == (LiveReloadPhaseV1::Warming {
            healthy_ticks: 0,
        }),
        state.live_finished(Ok(None)).live_phase == LiveReloadPhaseV1::Idle,
        state.live_finished(Ok(None)).live_seen == state.live_seen,
        state.live_finished(Err(message)).live_error == Some(message),
        state.live_finished(Err(message)).live_seen == state.live_seen,
        state.live_finished(Err(message)).live_phase == LiveReloadPhaseV1::Idle,
        state.shadow_finished(Ok(Some(digest))).shadow_seen == Some(digest),
        state.shadow_finished(Err(message)).shadow_error == Some(message),
        state.shadow_finished(Ok(Some(digest))).live_seen == state.live_seen,
{
}

/// What a selection runs: a component that was loaded, the built-in policy where
/// it was not, and otherwise the policy of that name or the native one.
pub proof fn lemma_selection_by_cases(selection: Seq<char>, loaded: bool)
    ensures
        is_component_path(selection) && loaded ==> live_policy(selection, loaded) == (
            LivePolicyV2::Component,
            PolicySourceV2::Configured,
        ),
        is_component_path(selection) && !loaded ==> live_policy(selection, loaded) == (
            LivePolicyV2::Builtin,
            PolicySourceV2::Builtin,
        ),
        !is_component_path(selection) && selection == "builtin"@ ==> live_policy(selection, loaded)
            == (LivePolicyV2::Builtin, PolicySourceV2::Configured),
        !is_component_path(selection) && selection == "native"@ ==> live_policy(selection, loaded)
            == (LivePolicyV2::Native, PolicySourceV2::Configured),
        !is_component_path(selection) && selection != "builtin"@ && selection != "native"@
            ==> live_policy(selection, loaded) == (LivePolicyV2::Native, PolicySourceV2::Native),
{
    reveal_strlit("builtin");
    reveal_strlit("native");
    assert("builtin"@.len() != "native"@.len());
}

/// An absolute path to a file with a name before its `.wasm`, in either case, is
/// a component; a relative path is none.
pub proof fn lemma_component_paths(path: Seq<char>)
    ensures
        path.len() == 0 || path[0] != '/' ==> !is_component_path(path),
        is_component_path(path) ==> path.len() > 6,
        path.len() > 6 && path[0] == '/' && path[path.len() - 6] != '/' && path[path.len() - 5]
            == '.' && path[path.len() - 4] == 'w' && path[path.len() - 3] == 'a'
            && path[path.len() - 2] == 's' && path[path.len() - 1] == 'm' ==> is_component_path(
            path,
        ),
{
    let length = path.len() as int;
    lemma_path_end_is_inside(path, length);
    let end = path_end(path, length);
    lemma_name_starts_before(path, end);
    if length > 6 {
        reveal_with_fuel(name_start, 7);
        lemma_name_starts_before(path, length - 6);
    }
}

/// The end of a path lies inside it.
proof fn lemma_path_end_is_inside(path: Seq<char>, end: int)
    requires
        0 <= end <= path.len(),
    ensures
        0 <= path_end(path, end) <= end,
    decreases end,
{
    if end > 0 && path[end - 1] == '/' {
        lemma_path_end_is_inside(path, end - 1);
    } else if end > 1 && path[end - 1] == '.' && path[end - 2] == '/' {
        lemma_path_end_is_inside(path, end - 1);
    }
}

/// A name starts before its end, and behind the leading slash of an absolute
/// path.
proof fn lemma_name_starts_before(path: Seq<char>, end: int)
    requires
        0 <= end <= path.len(),
    ensures
        0 <= name_start(path, end) <= end,
        end > 0 && path[0] == '/' ==> name_start(path, end) >= 1,
    decreases end,
{
    if end > 0 && path[end - 1] != '/' {
        lemma_name_starts_before(path, end - 1);
    }
}

} // verus!

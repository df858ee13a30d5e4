//! BBR effective-action finalization and adaptive congestion-window floor.

use vstd::prelude::*;

use crate::dataplane::TX_ADMISSION_BATCH_BYTES;
use crate::num::{ceil_div, clamp_int, max_int, min_int, sat_u64};
use crate::num::{clamp_u64, div_ceil_u128, div_ceil_u64, saturating_mul_u128, saturating_mul_u64};
use crate::policy::api::BbrEffectiveV1;
use crate::time::Duration;
use crate::tuning::{PathReliability, PathTelemetryV2};

verus! {

/// Step of the adaptive floor.
pub const ADAPTIVE_CWND_FLOOR_QUANTUM_BYTES: u64 = 16_384;

/// Largest adaptive floor.
pub const ADAPTIVE_CWND_FLOOR_MAX_BYTES: u64 = 8_388_608;

/// Milliseconds between two readings of the Bulk edges.
pub const CAPACITY_PROBE_EDGE_INTERVAL_MILLIS: u64 = 50;

/// What the floor currently does.
#[derive(Clone, Copy, Debug, PartialEq, Eq, Structural)]
pub enum AdaptiveCwndFloorModeV2 {
    Probe,
    Track,
}

/// Host-owned hysteresis for the telemetry-driven BBR floor.
///
/// A pure one-sample rule makes a saturated flow alternate between a large
/// floor and zero: the large floor drains the producer queue or briefly
/// raises RTT, which removes the floor on the next one-second sample. Keep a
/// small amount of per-path state so those expected consequences of probing
/// become a transition to measured-BDP tracking instead of an on/off switch.
#[derive(Clone, Copy, Debug, PartialEq, Eq, Structural)]
pub struct AdaptiveCwndFloorStateV2 {
    pub path_epoch: u64,
    pub mode: AdaptiveCwndFloorModeV2,
    pub held_bytes: u64,
    pub inactive_ticks: u8,
}

impl Default for AdaptiveCwndFloorStateV2 {
    fn default() -> (r: AdaptiveCwndFloorStateV2)
        ensures
            r == (AdaptiveCwndFloorStateV2 {
                path_epoch: 0,
                mode: AdaptiveCwndFloorModeV2::Probe,
                held_bytes: 0,
                inactive_ticks: 0,
            }),
    {
        AdaptiveCwndFloorStateV2 {
            path_epoch: 0,
            mode: AdaptiveCwndFloorModeV2::Probe,
            held_bytes: 0,
            inactive_ticks: 0,
        }
    }
}

/// The least multiple of the quantum that covers `bytes`, at most the largest
/// floor.
pub open spec fn quantized(bytes: int) -> int {
    min_int(
        ceil_div(min_int(bytes, ADAPTIVE_CWND_FLOOR_MAX_BYTES as int), 16_384) * 16_384,
        ADAPTIVE_CWND_FLOOR_MAX_BYTES as int,
    )
}

/// The least multiple of the quantum that covers `bytes`, at most the largest
/// floor.
pub fn quantize_adaptive_cwnd_floor(bytes: u64) -> (r: u64)
    ensures
        r == quantized(bytes as int),
{
    let steps: u64 = div_ceil_u64(
        bytes.min(ADAPTIVE_CWND_FLOOR_MAX_BYTES),
        ADAPTIVE_CWND_FLOOR_QUANTUM_BYTES,
    );
    saturating_mul_u64(steps, ADAPTIVE_CWND_FLOOR_QUANTUM_BYTES).min(
        ADAPTIVE_CWND_FLOOR_MAX_BYTES,
    )
}

/// A floor is a multiple of the quantum, covers what it was asked for up to
/// the largest floor, and grows with it.
pub proof fn lemma_floor_is_quantized(bytes: int, more: int)
    requires
        0 <= bytes <= more,
    ensures
        quantized(bytes) % 16_384 == 0,
        min_int(bytes, ADAPTIVE_CWND_FLOOR_MAX_BYTES as int) <= quantized(bytes)
            <= ADAPTIVE_CWND_FLOOR_MAX_BYTES,
        quantized(bytes) <= quantized(more),
        quantized(quantized(bytes)) == quantized(bytes),
{
}

/// The floor of a rate: its propagation BDP scaled by the window gain.
pub open spec fn floor_for_rate(rate: int, min_rtt: Duration, gain_milli: int) -> int {
    let bdp = min_int(rate * min_rtt.micros(), u128::MAX as int) / 1_000_000;
    quantized(
        min_int(
            ceil_div(min_int(bdp * gain_milli, u128::MAX as int), 1_000),
            ADAPTIVE_CWND_FLOOR_MAX_BYTES as int,
        ),
    )
}

/// The floor of a rate: its propagation BDP scaled by the window gain.
pub fn cwnd_floor_for_rate(
    rate_bytes_per_second: u64,
    min_rtt: Duration,
    effective: &BbrEffectiveV1,
) -> (r: u64)
    ensures
        r == floor_for_rate(
            rate_bytes_per_second as int,
            min_rtt,
            effective.default_cwnd_gain_milli as int,
        ),
{
    let bdp: u128 = saturating_mul_u128(rate_bytes_per_second as u128, min_rtt.as_micros())
        / 1_000_000;
    let scaled: u128 = div_ceil_u128(
        saturating_mul_u128(bdp, effective.default_cwnd_gain_milli as u128),
        1_000,
    ).min(ADAPTIVE_CWND_FLOOR_MAX_BYTES as u128);
    quantize_adaptive_cwnd_floor(scaled as u64)
}

/// The floor of the live demand.
pub open spec fn measured_floor(t: PathTelemetryV2, gain_milli: int) -> int {
    floor_for_rate(t.spec_demand_rate() as int, t.min_rtt, gain_milli)
}

/// The floor of the live demand.
pub fn measured_cwnd_floor(telemetry: PathTelemetryV2, effective: &BbrEffectiveV1) -> (r: u64)
    ensures
        r == measured_floor(telemetry, effective.default_cwnd_gain_milli as int),
{
    cwnd_floor_for_rate(telemetry.demand_rate(), telemetry.min_rtt, effective)
}

/// The path or the host owns the window: a reliable underlay, loss treated as
/// congestion, an application-limited controller, a saturated CPU or no
/// propagation estimate.
pub open spec fn floor_forbidden(t: PathTelemetryV2, effective: BbrEffectiveV1) -> bool {
    ||| t.reliability != PathReliability::Datagram
    ||| effective.loss_is_congestion
    ||| t.controller_app_limited
    ||| t.cpu_utilization_per_mille >= 900
    ||| t.min_rtt.nanos == 0
}

/// The live queue delay exceeds the larger of 5 ms and half the propagation
/// RTT.
pub open spec fn floor_queue_inflated(t: PathTelemetryV2) -> bool {
    t.queue_delay.nanos > max_int(5_000_000, t.min_rtt.nanos as int / 2)
}

/// The current window is within a quarter of a nonzero model.
pub open spec fn window_matches_model(window: int, modeled: int) -> bool {
    &&& modeled != 0
    &&& 3 * modeled <= 4 * window <= 5 * modeled
}

/// The controller left Startup with a window that already serves the queued
/// demand.
pub open spec fn model_serves_demand(t: PathTelemetryV2, window: int, modeled: int) -> bool {
    &&& t.controller_state != 0
    &&& t.packet_train_queue_bytes >= TX_ADMISSION_BATCH_BYTES
    &&& window_matches_model(window, modeled)
    &&& t.controller_bw_bytes_per_second >= t.spec_demand_rate()
}

impl AdaptiveCwndFloorStateV2 {
    /// No floor on this path.
    pub open spec fn cleared(path_epoch: u64) -> AdaptiveCwndFloorStateV2 {
        AdaptiveCwndFloorStateV2 {
            path_epoch,
            mode: AdaptiveCwndFloorModeV2::Probe,
            held_bytes: 0,
            inactive_ticks: 0,
        }
    }

    /// The floor after an active sample: probing doubles the window until a
    /// queue or a serving model appears, tracking follows the measured demand
    /// in bounded steps and never grows into a queue.
    pub open spec fn driven(
        self,
        t: PathTelemetryV2,
        gain_milli: int,
        window: int,
    ) -> AdaptiveCwndFloorStateV2 {
        let active = AdaptiveCwndFloorStateV2 { inactive_ticks: 0, ..self };
        let measured = measured_floor(t, gain_milli);
        let modeled = floor_for_rate(
            t.controller_bw_bytes_per_second as int,
            t.min_rtt,
            gain_milli,
        );
        let held = self.held_bytes as int;
        match self.mode {
            AdaptiveCwndFloorModeV2::Probe => if floor_queue_inflated(t) {
                AdaptiveCwndFloorStateV2 {
                    mode: AdaptiveCwndFloorModeV2::Track,
                    held_bytes: measured as u64,
                    ..active
                }
            } else if model_serves_demand(t, window, modeled) {
                AdaptiveCwndFloorStateV2 {
                    mode: AdaptiveCwndFloorModeV2::Track,
                    held_bytes: max_int(measured, modeled) as u64,
                    ..active
                }
            } else if t.packet_train_queue_bytes >= TX_ADMISSION_BATCH_BYTES {
                AdaptiveCwndFloorStateV2 {
                    held_bytes: max_int(
                        measured,
                        quantized(
                            sat_u64(
                                max_int(window, ADAPTIVE_CWND_FLOOR_QUANTUM_BYTES as int) * 2,
                            ),
                        ),
                    ) as u64,
                    ..active
                }
            } else {
                AdaptiveCwndFloorStateV2 {
                    held_bytes: if held == 0 { 0 } else { max_int(held, measured) as u64 },
                    ..active
                }
            },
            AdaptiveCwndFloorModeV2::Track => AdaptiveCwndFloorStateV2 {
                held_bytes: if floor_queue_inflated(t) {
                    min_int(held, measured)
                } else {
                    clamp_int(
                        measured,
                        quantized(sat_u64(held * 3) / 4),
                        quantized(ceil_div(sat_u64(held * 5), 4)),
                    )
                } as u64,
                ..active
            },
        }
    }

    /// The floor after one sample.
    pub open spec fn updated(
        self,
        t: PathTelemetryV2,
        effective: BbrEffectiveV1,
        window: u64,
    ) -> AdaptiveCwndFloorStateV2 {
        let entered = if self.path_epoch != t.path_epoch {
            Self::cleared(t.path_epoch)
        } else {
            self
        };
        if floor_forbidden(t, effective) {
            Self::cleared(t.path_epoch)
        } else if t.spec_demand_rate() == 0 && t.packet_train_queue_bytes == 0 {
            if entered.inactive_ticks >= 1 {
                Self::cleared(t.path_epoch)
            } else {
                AdaptiveCwndFloorStateV2 { inactive_ticks: 1, ..entered }
            }
        } else {
            entered.driven(t, effective.default_cwnd_gain_milli as int, window as int)
        }
    }

    /// Drop the floor.
    pub fn clear(&mut self, path_epoch: u64) -> (r: u64)
        ensures
            *final(self) == Self::cleared(path_epoch),
            r == 0,
    {
        self.path_epoch = path_epoch;
        self.mode = AdaptiveCwndFloorModeV2::Probe;
        self.held_bytes = 0;
        self.inactive_ticks = 0;
        0
    }

    /// Fold one sample in and return the floor.
    pub fn update(
        &mut self,
        telemetry: PathTelemetryV2,
        effective: &BbrEffectiveV1,
        congestion_window_bytes: u64,
    ) -> (r: u64)
        ensures
            *final(self) == old(self).updated(telemetry, *effective, congestion_window_bytes),
            r == final(self).held_bytes,
    {
        if self.path_epoch != telemetry.path_epoch {
            self.clear(telemetry.path_epoch);
        }
        if telemetry.reliability != PathReliability::Datagram || effective.loss_is_congestion
            || telemetry.controller_app_limited || telemetry.cpu_utilization_per_mille >= 900
            || telemetry.min_rtt.is_zero() {
            return self.clear(telemetry.path_epoch);
        }
        if telemetry.demand_rate() == 0 && telemetry.packet_train_queue_bytes == 0 {
            self.inactive_ticks = self.inactive_ticks.saturating_add(1);
            if self.inactive_ticks >= 2 {
                return self.clear(telemetry.path_epoch);
            }
            return self.held_bytes;
        }
        self.drive(telemetry, effective, congestion_window_bytes)
    }

    /// Fold an active sample in and return the floor.
    fn drive(
        &mut self,
        telemetry: PathTelemetryV2,
        effective: &BbrEffectiveV1,
        congestion_window_bytes: u64,
    ) -> (r: u64)
        ensures
            *final(self) == old(self).driven(
                telemetry,
                effective.default_cwnd_gain_milli as int,
                congestion_window_bytes as int,
            ),
            r == final(self).held_bytes,
    {
        self.inactive_ticks = 0;
        let measured: u64 = measured_cwnd_floor(telemetry, effective);
        let modeled: u64 = cwnd_floor_for_rate(
            telemetry.controller_bw_bytes_per_second,
            telemetry.min_rtt,
            effective,
        );
        let queue_budget: Duration = Duration::from_millis(5).at_least(telemetry.min_rtt.div(2));
        let queue_inflated: bool = telemetry.queue_delay.nanos > queue_budget.nanos;
        let producer_queued: bool = telemetry.packet_train_queue_bytes
            >= TX_ADMISSION_BATCH_BYTES as u64;
        let window: u128 = congestion_window_bytes as u128;
        let cwnd_matches_model: bool = modeled != 0 && window * 4 >= modeled as u128 * 3 && window
            * 4 <= modeled as u128 * 5;
        let controller_model_is_serving_demand: bool = telemetry.controller_bw_bytes_per_second
            >= telemetry.demand_rate();
        // Startup is itself an active capacity probe. A model that happens to
        // match its still-growing cwnd must not retire the host floor: the
        // producer backlog is evidence that Startup still needs room to
        // discover capacity. Once Startup has exited, matching model/cwnd
        // evidence is sufficient to switch to bounded BDP tracking.
        let controller_has_exited_startup: bool = telemetry.controller_state != 0;
        let held: u64 = self.held_bytes;
        self.held_bytes = match self.mode {
            AdaptiveCwndFloorModeV2::Probe => if queue_inflated {
                // The probe found the bottleneck. Retire its overshoot, but
                // retain the measured BDP instead of dropping to zero.
                self.mode = AdaptiveCwndFloorModeV2::Track;
                measured
            } else if controller_has_exited_startup && producer_queued && cwnd_matches_model
                && controller_model_is_serving_demand {
                // BBR already has a capacity model and its current cwnd is
                // within one bounded step of that model's BDP. Doubling here
                // is not discovery: it is a host-created overshoot. Track the
                // larger of live demand and the controller model directly.
                self.mode = AdaptiveCwndFloorModeV2::Track;
                measured.max(modeled)
            } else if producer_queued {
                // Recovery from an underfilled model still needs an explicit
                // upward probe; a measured-only floor can be self-limiting.
                let probe: u64 = saturating_mul_u64(
                    congestion_window_bytes.max(ADAPTIVE_CWND_FLOOR_QUANTUM_BYTES),
                    2,
                );
                measured.max(quantize_adaptive_cwnd_floor(probe))
            } else if held == 0 {
                // Draining one admission batch is not proof that producer
                // demand ended. Hold the last probe until the queue returns or
                // all traffic-rate evidence becomes idle.
                0
            } else {
                held.max(measured)
            },
            AdaptiveCwndFloorModeV2::Track => if queue_inflated {
                // Congestion may reduce immediately to the measured target;
                // it must never increase a held floor.
                held.min(measured)
            } else {
                // Smooth rate-estimator noise while retaining bounded upward
                // adaptation after a real capacity increase.
                let lower: u64 = quantize_adaptive_cwnd_floor(saturating_mul_u64(held, 3) / 4);
                let upper: u64 = quantize_adaptive_cwnd_floor(
                    div_ceil_u64(saturating_mul_u64(held, 5), 4),
                );
                proof {
                    lemma_floor_is_quantized(
                        sat_u64(held * 3) / 4,
                        ceil_div(sat_u64(held * 5), 4),
                    );
                }
                clamp_u64(measured, lower, upper)
            },
        };
        self.held_bytes
    }
}

/// The floor that a policy's own floor and the adaptive one combine to, inside
/// an explicit nonzero cap.
pub open spec fn combined_floor(effective: BbrEffectiveV1, adaptive: int) -> int {
    let combined = max_int(effective.cwnd_floor_bytes as int, adaptive);
    if effective.cwnd_cap_bytes == 0 {
        combined
    } else {
        min_int(combined, effective.cwnd_cap_bytes as int)
    }
}

/// Finalize the host-owned, telemetry-dependent BBR floor before publication.
///
/// Policy guardrails already produced every static BBR value. The host adds
/// the live adaptive floor exactly once here, then constrains the combined
/// value to an explicit nonzero cap. The return value remains the
/// telemetry-only addition for the autotune tap; `effective` is the complete
/// value subsequently written to the controller.
pub fn finalize_bbr3_effective_with_state(
    state: &mut AdaptiveCwndFloorStateV2,
    telemetry: PathTelemetryV2,
    congestion_window_bytes: u64,
    effective: &mut BbrEffectiveV1,
) -> (r: u64)
    ensures
        *final(state) == old(state).updated(telemetry, *old(effective), congestion_window_bytes),
        r == final(state).held_bytes,
        *final(effective) == (BbrEffectiveV1 {
            cwnd_floor_bytes: combined_floor(*old(effective), r as int) as u64,
            ..*old(effective)
        }),
{
    let adaptive_cwnd_floor: u64 = state.update(telemetry, effective, congestion_window_bytes);
    let combined: u64 = effective.cwnd_floor_bytes.max(adaptive_cwnd_floor);
    effective.cwnd_floor_bytes = if effective.cwnd_cap_bytes == 0 {
        combined
    } else {
        combined.min(effective.cwnd_cap_bytes)
    };
    adaptive_cwnd_floor
}

/// Finalize the floor of a single sample, without history.
pub fn finalize_bbr3_effective(
    telemetry: PathTelemetryV2,
    congestion_window_bytes: u64,
    effective: &mut BbrEffectiveV1,
) -> (r: u64)
    ensures
        r == AdaptiveCwndFloorStateV2::cleared(0).updated(
            telemetry,
            *old(effective),
            congestion_window_bytes,
        ).held_bytes,
        *final(effective) == (BbrEffectiveV1 {
            cwnd_floor_bytes: combined_floor(*old(effective), r as int) as u64,
            ..*old(effective)
        }),
{
    let mut state = AdaptiveCwndFloorStateV2::default();
    finalize_bbr3_effective_with_state(&mut state, telemetry, congestion_window_bytes, effective)
}

/// Controller tunables as the controller reads them at a packet-timed round
/// boundary, with the generations that announce a change.
#[derive(Clone, Copy, Debug, PartialEq, Eq, Structural)]
pub struct Bbr3Tunables {
    pub probe_bw_up_pacing_gain_milli: u32,
    pub probe_bw_down_pacing_gain_milli: u32,
    pub cruise_pacing_gain_milli: u32,
    pub default_cwnd_gain_milli: u32,
    pub probe_bw_up_cwnd_gain_milli: u32,
    pub headroom_milli: u32,
    pub beta_milli: u32,
    pub loss_thresh_milli: u32,
    pub loss_is_congestion: bool,
    pub queue_delay_guard_inflation_milli: u32,
    pub queue_delay_guard_slack_micros: u64,
    pub probe_rtt_interval_millis: u64,
    pub probe_rtt_duration_millis: u64,
    pub probe_rtt_cwnd_gain_milli: u32,
    pub min_probe_wait_millis: u64,
    pub max_added_probe_wait_millis: u64,
    pub pacing_rate_cap_bytes_per_second: u64,
    pub cwnd_floor_bytes: u64,
    pub cwnd_cap_bytes: u64,
    pub startup_bw_hint_bytes_per_second: u64,
    pub generation: u64,
    pub capacity_probe_generation: u64,
}

impl Default for Bbr3Tunables {
    /// Unwritten tunables: no generation has been published.
    fn default() -> (r: Bbr3Tunables)
        ensures
            r.generation == 0,
            r.capacity_probe_generation == 0,
            r == r.holding(r.values()),
            r.values() == BbrValues::unwritten(),
    {
        Bbr3Tunables {
            probe_bw_up_pacing_gain_milli: 0,
            probe_bw_down_pacing_gain_milli: 0,
            cruise_pacing_gain_milli: 0,
            default_cwnd_gain_milli: 0,
            probe_bw_up_cwnd_gain_milli: 0,
            headroom_milli: 0,
            beta_milli: 0,
            loss_thresh_milli: 0,
            loss_is_congestion: false,
            queue_delay_guard_inflation_milli: 0,
            queue_delay_guard_slack_micros: 0,
            probe_rtt_interval_millis: 0,
            probe_rtt_duration_millis: 0,
            probe_rtt_cwnd_gain_milli: 0,
            min_probe_wait_millis: 0,
            max_added_probe_wait_millis: 0,
            pacing_rate_cap_bytes_per_second: 0,
            cwnd_floor_bytes: 0,
            cwnd_cap_bytes: 0,
            startup_bw_hint_bytes_per_second: 0,
            generation: 0,
            capacity_probe_generation: 0,
        }
    }
}

/// The published settings without their generations.
pub ghost struct BbrValues {
    pub gains: (u32, u32, u32, u32, u32, u32),
    pub headroom_milli: u32,
    pub beta_milli: u32,
    pub loss_threshold_milli: u32,
    pub loss_is_congestion: bool,
    pub queue_guard: (u32, u64),
    pub probe_rtt: (u64, u64),
    pub probe_wait: (u64, u64),
    pub pacing_cap: u64,
    pub cwnd_floor: u64,
    pub cwnd_cap: u64,
    pub startup_hint: u64,
}

impl BbrValues {
    /// Nothing has been written.
    pub open spec fn unwritten() -> BbrValues {
        BbrValues {
            gains: (0, 0, 0, 0, 0, 0),
            headroom_milli: 0,
            beta_milli: 0,
            loss_threshold_milli: 0,
            loss_is_congestion: false,
            queue_guard: (0, 0),
            probe_rtt: (0, 0),
            probe_wait: (0, 0),
            pacing_cap: 0,
            cwnd_floor: 0,
            cwnd_cap: 0,
            startup_hint: 0,
        }
    }
}

/// The settings that an action publishes.
pub open spec fn values_of(effective: BbrEffectiveV1) -> BbrValues {
    BbrValues {
        gains: (
            effective.probe_bw_up_pacing_gain_milli,
            effective.probe_bw_down_pacing_gain_milli,
            effective.cruise_pacing_gain_milli,
            effective.default_cwnd_gain_milli,
            effective.probe_bw_up_cwnd_gain_milli,
            effective.probe_rtt_cwnd_gain_milli,
        ),
        headroom_milli: effective.headroom_milli,
        beta_milli: effective.beta_milli,
        loss_threshold_milli: effective.loss_threshold_milli,
        loss_is_congestion: effective.loss_is_congestion,
        queue_guard: (effective.queue_guard_inflation_milli, effective.queue_guard_slack_micros),
        probe_rtt: (effective.probe_rtt_interval_millis, effective.probe_rtt_duration_millis),
        probe_wait: (effective.min_probe_wait_millis, effective.max_added_probe_wait_millis),
        pacing_cap: effective.pacing_cap_bytes_per_second,
        cwnd_floor: effective.cwnd_floor_bytes,
        cwnd_cap: effective.cwnd_cap_bytes,
        startup_hint: effective.startup_bw_hint_bytes_per_second,
    }
}

/// The next generation.
pub open spec fn next_generation(generation: u64) -> u64 {
    if generation == u64::MAX { 0 } else { (generation + 1) as u64 }
}

/// The next generation.
fn bump(generation: u64) -> (r: u64)
    ensures
        r == next_generation(generation),
{
    if generation == u64::MAX { 0 } else { generation + 1 }
}

impl Bbr3Tunables {
    /// The settings that the controller reads.
    pub open spec fn values(&self) -> BbrValues {
        BbrValues {
            gains: (
                self.probe_bw_up_pacing_gain_milli,
                self.probe_bw_down_pacing_gain_milli,
                self.cruise_pacing_gain_milli,
                self.default_cwnd_gain_milli,
                self.probe_bw_up_cwnd_gain_milli,
                self.probe_rtt_cwnd_gain_milli,
            ),
            headroom_milli: self.headroom_milli,
            beta_milli: self.beta_milli,
            loss_threshold_milli: self.loss_thresh_milli,
            loss_is_congestion: self.loss_is_congestion,
            queue_guard: (
                self.queue_delay_guard_inflation_milli,
                self.queue_delay_guard_slack_micros,
            ),
            probe_rtt: (self.probe_rtt_interval_millis, self.probe_rtt_duration_millis),
            probe_wait: (self.min_probe_wait_millis, self.max_added_probe_wait_millis),
            pacing_cap: self.pacing_rate_cap_bytes_per_second,
            cwnd_floor: self.cwnd_floor_bytes,
            cwnd_cap: self.cwnd_cap_bytes,
            startup_hint: self.startup_bw_hint_bytes_per_second,
        }
    }

    /// These tunables with other settings and the same generations.
    pub open spec fn holding(&self, values: BbrValues) -> Bbr3Tunables {
        Bbr3Tunables {
            probe_bw_up_pacing_gain_milli: values.gains.0,
            probe_bw_down_pacing_gain_milli: values.gains.1,
            cruise_pacing_gain_milli: values.gains.2,
            default_cwnd_gain_milli: values.gains.3,
            probe_bw_up_cwnd_gain_milli: values.gains.4,
            probe_rtt_cwnd_gain_milli: values.gains.5,
            headroom_milli: values.headroom_milli,
            beta_milli: values.beta_milli,
            loss_thresh_milli: values.loss_threshold_milli,
            loss_is_congestion: values.loss_is_congestion,
            queue_delay_guard_inflation_milli: values.queue_guard.0,
            queue_delay_guard_slack_micros: values.queue_guard.1,
            probe_rtt_interval_millis: values.probe_rtt.0,
            probe_rtt_duration_millis: values.probe_rtt.1,
            min_probe_wait_millis: values.probe_wait.0,
            max_added_probe_wait_millis: values.probe_wait.1,
            pacing_rate_cap_bytes_per_second: values.pacing_cap,
            cwnd_floor_bytes: values.cwnd_floor,
            cwnd_cap_bytes: values.cwnd_cap,
            startup_bw_hint_bytes_per_second: values.startup_hint,
            generation: self.generation,
            capacity_probe_generation: self.capacity_probe_generation,
        }
    }

    /// The tunables after an action was written: the generation moves exactly
    /// where a setting did.
    pub open spec fn written(&self, effective: BbrEffectiveV1) -> Bbr3Tunables {
        Bbr3Tunables {
            generation: if self.values() != values_of(effective) {
                next_generation(self.generation)
            } else {
                self.generation
            },
            ..self.holding(values_of(effective))
        }
    }
}

/// Write an already-finalized BBR action onto the controller tunables. The
/// controller re-reads the tunables at the next packet-timed round boundary,
/// so a partially published snapshot never takes effect mid-round. Returns
/// whether any tunable changed (and bumps the generation then).
pub fn apply_bbr3_effective(tunables: &mut Bbr3Tunables, effective: &BbrEffectiveV1) -> (r: bool)
    ensures
        r == (old(tunables).values() != values_of(*effective)),
        *final(tunables) == old(tunables).written(*effective),
{
    let written = Bbr3Tunables {
        probe_bw_up_pacing_gain_milli: effective.probe_bw_up_pacing_gain_milli,
        probe_bw_down_pacing_gain_milli: effective.probe_bw_down_pacing_gain_milli,
        cruise_pacing_gain_milli: effective.cruise_pacing_gain_milli,
        default_cwnd_gain_milli: effective.default_cwnd_gain_milli,
        probe_bw_up_cwnd_gain_milli: effective.probe_bw_up_cwnd_gain_milli,
        headroom_milli: effective.headroom_milli,
        beta_milli: effective.beta_milli,
        loss_thresh_milli: effective.loss_threshold_milli,
        loss_is_congestion: effective.loss_is_congestion,
        queue_delay_guard_inflation_milli: effective.queue_guard_inflation_milli,
        queue_delay_guard_slack_micros: effective.queue_guard_slack_micros,
        probe_rtt_interval_millis: effective.probe_rtt_interval_millis,
        probe_rtt_duration_millis: effective.probe_rtt_duration_millis,
        probe_rtt_cwnd_gain_milli: effective.probe_rtt_cwnd_gain_milli,
        min_probe_wait_millis: effective.min_probe_wait_millis,
        max_added_probe_wait_millis: effective.max_added_probe_wait_millis,
        pacing_rate_cap_bytes_per_second: effective.pacing_cap_bytes_per_second,
        cwnd_floor_bytes: effective.cwnd_floor_bytes,
        cwnd_cap_bytes: effective.cwnd_cap_bytes,
        startup_bw_hint_bytes_per_second: effective.startup_bw_hint_bytes_per_second,
        generation: tunables.generation,
        capacity_probe_generation: tunables.capacity_probe_generation,
    };
    let changed: bool = *tunables != written;
    proof {
        assert(written == tunables.holding(values_of(*effective)));
        assert(*tunables == tunables.holding(tunables.values()));
        assert(changed == (tunables.values() != values_of(*effective)));
    }
    *tunables = written;
    if changed {
        tunables.generation = bump(tunables.generation);
    }
    changed
}

/// Publish one capacity-discovery edge without waiting for a full policy tick.
pub fn publish_capacity_probe(tunables: &mut Bbr3Tunables)
    ensures
        *final(tunables) == (Bbr3Tunables {
            capacity_probe_generation: next_generation(old(tunables).capacity_probe_generation),
            generation: next_generation(old(tunables).generation),
            ..*old(tunables)
        }),
{
    tunables.capacity_probe_generation = bump(tunables.capacity_probe_generation);
    tunables.generation = bump(tunables.generation);
}

/// Publish policy tunables and an optional real-TUN capacity-discovery edge
/// as one controller-visible generation. The dedicated generation is bumped
/// before the release publication so BBR cannot observe a request half-way
/// through the tunable update.
pub fn publish_bbr3_effective(
    tunables: &mut Bbr3Tunables,
    effective: &BbrEffectiveV1,
    request_capacity_probe: bool,
) -> (r: bool)
    ensures
        r == (request_capacity_probe || old(tunables).values() != values_of(*effective)),
        *final(tunables) == (Bbr3Tunables {
            capacity_probe_generation: if request_capacity_probe {
                next_generation(old(tunables).capacity_probe_generation)
            } else {
                old(tunables).capacity_probe_generation
            },
            generation: if r {
                next_generation(old(tunables).generation)
            } else {
                old(tunables).generation
            },
            ..old(tunables).holding(values_of(*effective))
        }),
{
    if request_capacity_probe {
        tunables.capacity_probe_generation = bump(tunables.capacity_probe_generation);
    }
    let changed: bool = apply_bbr3_effective(tunables, effective);
    if request_capacity_probe && !changed {
        // `apply_bbr3_effective` did not publish a generation for the probe.
        // The capacity generation was already incremented above, so only the
        // paired publication remains here.
        tunables.generation = bump(tunables.generation);
    }
    changed || request_capacity_probe
}

/// What was written is what the controller reads, and writing it again changes
/// nothing.
pub proof fn lemma_publication_is_authoritative_and_idempotent(
    tunables: Bbr3Tunables,
    effective: BbrEffectiveV1,
)
    ensures
        tunables.written(effective).values() == values_of(effective),
        tunables.written(effective).written(effective) == tunables.written(effective),
{
}

/// A floor above a nonzero cap is never published, and a floor of the policy
/// is never lowered but by that cap.
pub proof fn lemma_finalized_floor_respects_cap_and_policy(
    effective: BbrEffectiveV1,
    adaptive: int,
)
    requires
        0 <= adaptive <= u64::MAX,
    ensures
        effective.cwnd_cap_bytes != 0 ==> combined_floor(effective, adaptive)
            <= effective.cwnd_cap_bytes,
        effective.cwnd_cap_bytes == 0 || effective.cwnd_floor_bytes <= effective.cwnd_cap_bytes
            ==> combined_floor(effective, adaptive) >= effective.cwnd_floor_bytes,
{
}

/// A state whose held floor is a multiple of the quantum, at most the largest
/// floor.
pub open spec fn floor_is_sound(state: AdaptiveCwndFloorStateV2) -> bool {
    state.held_bytes % 16_384 == 0 && state.held_bytes <= ADAPTIVE_CWND_FLOOR_MAX_BYTES
}

/// Every sample leaves a floor that is a multiple of the quantum and at most
/// the largest one.
pub proof fn lemma_every_floor_is_quantized_and_bounded(
    state: AdaptiveCwndFloorStateV2,
    t: PathTelemetryV2,
    effective: BbrEffectiveV1,
    window: u64,
)
    requires
        floor_is_sound(state),
    ensures
        floor_is_sound(state.updated(t, effective, window)),
{
}

/// Tracking never grows the floor into a queue, and otherwise moves it by at
/// most about a quarter per sample.
pub proof fn lemma_tracking_is_bounded(
    state: AdaptiveCwndFloorStateV2,
    t: PathTelemetryV2,
    effective: BbrEffectiveV1,
    window: u64,
)
    requires
        floor_is_sound(state),
        state.mode == AdaptiveCwndFloorModeV2::Track,
        state.path_epoch == t.path_epoch,
        !floor_forbidden(t, effective),
        t.spec_demand_rate() != 0 || t.packet_train_queue_bytes != 0,
    ensures
        ({
            let next = state.updated(t, effective, window);
            &&& next.mode == AdaptiveCwndFloorModeV2::Track
            &&& floor_queue_inflated(t) ==> next.held_bytes <= state.held_bytes
            &&& !floor_queue_inflated(t) ==> {
                &&& next.held_bytes <= quantized(ceil_div(state.held_bytes * 5, 4))
                &&& next.held_bytes >= quantized(state.held_bytes * 3 / 4)
            }
        }),
{
    lemma_floor_is_quantized(
        state.held_bytes * 3 / 4,
        ceil_div(state.held_bytes * 5, 4),
    );
}

} // verus!

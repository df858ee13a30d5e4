//! Stateful telemetry smoothing.

use vstd::prelude::*;

use crate::num::{clamp_int, clamp_usize, max_int, min_int, sat_u64, sat_usize};
use crate::num::{saturating_mul_u64, saturating_mul_usize};
use crate::tuning::filtered::FilteredTelemetryV1;
use crate::tuning::{
    ewma, ewma_of, has_protection_evidence, micros, micros_of, rates_track,
    rates_track_within_ten_percent, AutoTuneBoundsV2, PathTelemetryV2,
    MINIMUM_SHORT_RTT_POLICER_MODEL_BYTES_PER_SECOND, RECEIVE_PRESSURE_GROWTH_STEP_BYTES,
    RECEIVE_PRESSURE_HOLD_SAMPLES, SHORT_RTT_POLICER_CLEAN_DELIVERY_SAMPLES,
};

verus! {

/// The most recent clean delivery rates of the active direction, as a ring;
/// an unused slot holds zero.
#[derive(Clone, Copy, Debug)]
pub struct CleanDeliveryWindow {
    pub samples: [u64; 5],
    pub next: usize,
}

impl CleanDeliveryWindow {
    /// The write position lies inside the ring.
    pub open spec fn wf(&self) -> bool {
        self.next < SHORT_RTT_POLICER_CLEAN_DELIVERY_SAMPLES
    }

    /// Nothing has been recorded.
    pub open spec fn is_cleared(&self) -> bool {
        &&& self.next == 0
        &&& forall|i: int| 0 <= i < 5 ==> #[trigger] self.samples[i] == 0
    }

    /// The ring after one more rate.
    pub open spec fn recorded(self, delivery_rate: u64) -> CleanDeliveryWindow {
        CleanDeliveryWindow {
            samples: vstd::array::spec_array_update(
                self.samples,
                self.next as int,
                delivery_rate,
            ),
            next: ((self.next + 1) % 5) as usize,
        }
    }

    /// The empty ring.
    pub open spec fn spec_cleared() -> CleanDeliveryWindow {
        CleanDeliveryWindow { samples: [0u64, 0, 0, 0, 0], next: 0 }
    }

    /// The largest recorded rate, zero where there is none.
    pub open spec fn largest(&self) -> int {
        max_int(
            self.samples[0] as int,
            max_int(
                self.samples[1] as int,
                max_int(
                    self.samples[2] as int,
                    max_int(self.samples[3] as int, self.samples[4] as int),
                ),
            ),
        )
    }

    /// The empty ring.
    pub fn cleared() -> (r: CleanDeliveryWindow)
        ensures
            r == CleanDeliveryWindow::spec_cleared(),
            r.wf(),
            r.is_cleared(),
    {
        CleanDeliveryWindow { samples: [0u64, 0, 0, 0, 0], next: 0 }
    }

    /// Overwrite the oldest slot.
    pub fn record(&mut self, delivery_rate: u64)
        requires
            old(self).wf(),
        ensures
            *final(self) == old(self).recorded(delivery_rate),
            final(self).wf(),
    {
        self.samples[self.next] = delivery_rate;
        self.next = (self.next + 1) % 5;
        assert(self.samples@ =~= old(self).samples@.update(
            old(self).next as int,
            delivery_rate,
        ));
    }

    /// The largest recorded rate.
    pub fn peak(&self) -> (r: Option<u64>)
        ensures
            r == (if self.largest() == 0 { None } else { Some(self.largest() as u64) }),
    {
        let peak: u64 = self.samples[0].max(
            self.samples[1].max(self.samples[2].max(self.samples[3].max(self.samples[4]))),
        );
        if peak == 0 { None } else { Some(peak) }
    }
}

/// Stateful telemetry smoothing: EWMAs, min RTT, Repair evidence and the
/// reassembly-pressure hold. It is the only component of the auto-tuner
/// that carries per-sample history about the path itself; everything
/// downstream consumes the [`FilteredTelemetryV1`] snapshot it emits.
#[derive(Clone, Copy, Debug)]
pub struct TelemetryFilterV1 {
    pub bounds: AutoTuneBoundsV2,
    pub samples: u32,
    pub rtt_micros: u64,
    pub min_rtt_micros: u64,
    pub queue_delay_micros: u64,
    pub loss_ppm: u64,
    pub burst_loss_cells: u64,
    pub delivery_rate: u64,
    pub receive_rate: u64,
    pub packets_per_second: u64,
    pub tun_ingress_rate: u64,
    pub average_record_bytes: u64,
    pub gso_ingress_ratio_ppm: u64,
    pub cpu_per_mille: u64,
    pub wasted_parity_per_mille: u64,
    pub recovery_per_mille: u64,
    pub repair_hit_per_mille: u64,
    pub repair_latency_micros: u64,
    pub repair_observations: u64,
    pub last_repair_completed_requests: u64,
    pub repair_counter_initialized: bool,
    pub protection_samples: u64,
    pub short_rtt_policer_limited: bool,
    pub short_rtt_policer_inactive_ticks: u8,
    pub short_rtt_policer_pacing_cap_bytes_per_second: Option<u64>,
    pub clean_delivery: CleanDeliveryWindow,
    pub receive_pressure_floor_bytes: usize,
    pub receive_pressure_hold_samples: u8,
}

/// The floor that reassembly pressure raises: twice the window in effect, or
/// one growth step more where that is larger, inside the bounds.
pub open spec fn pressure_floor(bounds: AutoTuneBoundsV2, current: int) -> int {
    clamp_int(
        max_int(sat_usize(current * 2), sat_usize(current + RECEIVE_PRESSURE_GROWTH_STEP_BYTES)),
        bounds.minimum_receive_buffer_bytes as int,
        bounds.maximum_socket_buffer_bytes as int,
    )
}

/// The pacing cap that a policer episode captures on entry: 95% of the
/// controller model, lowered to a recent clean delivery peak where that peak
/// reaches 95% of it.
pub open spec fn entry_pacing_cap(controller_bw: int, clean_peak: int) -> Option<u64> {
    if controller_bw == 0 {
        None
    } else {
        let model_cap = sat_u64(controller_bw * 950) / 1_000;
        if clean_peak != 0 && clean_peak >= sat_u64(model_cap * 95) / 100 {
            Some(min_int(model_cap, clean_peak) as u64)
        } else {
            Some(model_cap as u64)
        }
    }
}

impl TelemetryFilterV1 {
    /// The clean-delivery ring is well formed.
    pub open spec fn wf(&self) -> bool {
        self.clean_delivery.wf()
    }

    /// The filter without any path history.
    pub open spec fn spec_new(bounds: AutoTuneBoundsV2) -> TelemetryFilterV1 {
        TelemetryFilterV1 {
            bounds,
            samples: 0,
            rtt_micros: 0,
            min_rtt_micros: 0,
            queue_delay_micros: 0,
            loss_ppm: 0,
            burst_loss_cells: 0,
            delivery_rate: 0,
            receive_rate: 0,
            packets_per_second: 0,
            tun_ingress_rate: 0,
            average_record_bytes: 0,
            gso_ingress_ratio_ppm: 0,
            cpu_per_mille: 0,
            wasted_parity_per_mille: 0,
            recovery_per_mille: 0,
            repair_hit_per_mille: 0,
            repair_latency_micros: 0,
            repair_observations: 0,
            last_repair_completed_requests: 0,
            repair_counter_initialized: false,
            protection_samples: 0,
            short_rtt_policer_limited: false,
            short_rtt_policer_inactive_ticks: 0,
            short_rtt_policer_pacing_cap_bytes_per_second: None,
            clean_delivery: CleanDeliveryWindow::spec_cleared(),
            receive_pressure_floor_bytes: 0,
            receive_pressure_hold_samples: 0,
        }
    }

    /// The filter without any path history.
    pub fn new(bounds: AutoTuneBoundsV2) -> (r: TelemetryFilterV1)
        ensures
            r == TelemetryFilterV1::spec_new(bounds),
            r.wf(),
    {
        TelemetryFilterV1 {
            bounds,
            samples: 0,
            rtt_micros: 0,
            min_rtt_micros: 0,
            queue_delay_micros: 0,
            loss_ppm: 0,
            burst_loss_cells: 0,
            delivery_rate: 0,
            receive_rate: 0,
            packets_per_second: 0,
            tun_ingress_rate: 0,
            average_record_bytes: 0,
            gso_ingress_ratio_ppm: 0,
            cpu_per_mille: 0,
            wasted_parity_per_mille: 0,
            recovery_per_mille: 0,
            repair_hit_per_mille: 0,
            repair_latency_micros: 0,
            repair_observations: 0,
            last_repair_completed_requests: 0,
            repair_counter_initialized: false,
            protection_samples: 0,
            short_rtt_policer_limited: false,
            short_rtt_policer_inactive_ticks: 0,
            short_rtt_policer_pacing_cap_bytes_per_second: None,
            clean_delivery: CleanDeliveryWindow::cleared(),
            receive_pressure_floor_bytes: 0,
            receive_pressure_hold_samples: 0,
        }
    }

    /// Forget all path history (path change or missing telemetry).
    pub fn reset(&mut self)
        ensures
            *final(self) == TelemetryFilterV1::spec_new(old(self).bounds),
            final(self).wf(),
    {
        *self = TelemetryFilterV1::new(self.bounds);
    }

    /// Samples folded in since the last reset.
    pub fn sample_count(&self) -> (r: u32)
        ensures
            r == self.samples,
    {
        self.samples
    }

    /// The pressure floor and its hold after one more sample: evictions raise
    /// the floor and restart the hold, every other sample counts the hold down,
    /// and the floor falls with the last one.
    pub open spec fn pressure_folded(self, sample: PathTelemetryV2, current: usize) -> TelemetryFilterV1 {
        if sample.reassembly_pressure_evictions != 0 {
            TelemetryFilterV1 {
                receive_pressure_floor_bytes: pressure_floor(self.bounds, current as int) as usize,
                receive_pressure_hold_samples: RECEIVE_PRESSURE_HOLD_SAMPLES,
                ..self
            }
        } else if self.receive_pressure_hold_samples != 0 {
            TelemetryFilterV1 {
                receive_pressure_floor_bytes: if self.receive_pressure_hold_samples == 1 {
                    0
                } else {
                    self.receive_pressure_floor_bytes
                },
                receive_pressure_hold_samples: (self.receive_pressure_hold_samples - 1) as u8,
                ..self
            }
        } else {
            self
        }
    }

    /// Matched Repair completions since the previous sample; the first sample
    /// only sets the reference.
    pub open spec fn repair_completions(self, sample: PathTelemetryV2) -> int {
        if self.repair_counter_initialized && sample.repair_completed_requests
            >= self.last_repair_completed_requests {
            sample.repair_completed_requests - self.last_repair_completed_requests
        } else {
            0
        }
    }

    /// The averages after one more sample. Loss only moves with protection
    /// evidence, the Repair averages only with new matched completions.
    pub open spec fn smoothed(self, sample: PathTelemetryV2) -> TelemetryFilterV1 {
        let evidence = sample.spec_has_protection_evidence();
        let completions = self.repair_completions(sample);
        let repaired = completions != 0 && sample.repair_response_latency.nanos != 0;
        TelemetryFilterV1 {
            rtt_micros: ewma_of(self.rtt_micros as int, micros_of(sample.rtt), 3, 8) as u64,
            min_rtt_micros: if self.min_rtt_micros == 0 {
                micros_of(sample.min_rtt) as u64
            } else {
                min_int(self.min_rtt_micros as int, micros_of(sample.min_rtt)) as u64
            },
            queue_delay_micros: ewma_of(
                self.queue_delay_micros as int,
                micros_of(sample.queue_delay),
                3,
                8,
            ) as u64,
            protection_samples: if evidence {
                sat_u64(self.protection_samples + 1) as u64
            } else {
                self.protection_samples
            },
            loss_ppm: if evidence {
                ewma_of(self.loss_ppm as int, sample.loss_ppm as int, 3, 8) as u64
            } else {
                self.loss_ppm
            },
            burst_loss_cells: if evidence {
                ewma_of(
                    self.burst_loss_cells as int,
                    sample.burst_loss_cells as int,
                    1,
                    2,
                ) as u64
            } else {
                self.burst_loss_cells
            },
            delivery_rate: ewma_of(
                self.delivery_rate as int,
                sample.delivery_rate_bytes_per_second as int,
                1,
                4,
            ) as u64,
            receive_rate: ewma_of(
                self.receive_rate as int,
                sample.receive_rate_bytes_per_second as int,
                1,
                4,
            ) as u64,
            packets_per_second: ewma_of(
                self.packets_per_second as int,
                sample.packets_per_second as int,
                1,
                4,
            ) as u64,
            tun_ingress_rate: ewma_of(
                self.tun_ingress_rate as int,
                sample.tun_ingress_bytes_per_second as int,
                1,
                4,
            ) as u64,
            average_record_bytes: ewma_of(
                self.average_record_bytes as int,
                sample.average_record_bytes as int,
                1,
                4,
            ) as u64,
            gso_ingress_ratio_ppm: ewma_of(
                self.gso_ingress_ratio_ppm as int,
                sample.gso_ingress_ratio_ppm as int,
                1,
                4,
            ) as u64,
            cpu_per_mille: ewma_of(
                self.cpu_per_mille as int,
                sample.cpu_utilization_per_mille as int,
                1,
                4,
            ) as u64,
            wasted_parity_per_mille: ewma_of(
                self.wasted_parity_per_mille as int,
                sample.wasted_parity_per_mille as int,
                1,
                4,
            ) as u64,
            recovery_per_mille: ewma_of(
                self.recovery_per_mille as int,
                sample.fec_recovery_per_mille as int,
                1,
                4,
            ) as u64,
            repair_hit_per_mille: if repaired {
                ewma_of(
                    self.repair_hit_per_mille as int,
                    sample.repair_hit_per_mille as int,
                    1,
                    4,
                ) as u64
            } else {
                self.repair_hit_per_mille
            },
            repair_latency_micros: if repaired {
                ewma_of(
                    self.repair_latency_micros as int,
                    micros_of(sample.repair_response_latency),
                    1,
                    4,
                ) as u64
            } else {
                self.repair_latency_micros
            },
            repair_observations: if repaired {
                sat_u64(self.repair_observations + completions) as u64
            } else {
                self.repair_observations
            },
            repair_counter_initialized: true,
            last_repair_completed_requests: sample.repair_completed_requests,
            ..self
        }
    }

    /// The clean-delivery ring after one more sample: idleness clears it, a
    /// loss-free delivering sample enters it, a lossy one does not.
    pub open spec fn clean_folded(self, sample: PathTelemetryV2) -> TelemetryFilterV1 {
        if !sample.active_direction() {
            TelemetryFilterV1 { clean_delivery: CleanDeliveryWindow::spec_cleared(), ..self }
        } else if sample.loss_ppm == 0 && sample.delivery_rate_bytes_per_second != 0 {
            TelemetryFilterV1 {
                clean_delivery: self.clean_delivery.recorded(
                    sample.delivery_rate_bytes_per_second,
                ),
                ..self
            }
        } else {
            self
        }
    }

    /// The controller model and the path both look like a shallow policer:
    /// either an unqueued short path whose model is ahead of delivery, or a
    /// short physical path whose model tracks delivery after Startup.
    pub open spec fn credible_shallow_policer(self, sample: PathTelemetryV2) -> bool {
        let in_range = sample.controller_bw_bytes_per_second
            >= MINIMUM_SHORT_RTT_POLICER_MODEL_BYTES_PER_SECOND;
        ||| {
            &&& self.rtt_micros <= 10_000
            &&& self.min_rtt_micros <= 10_000
            &&& in_range
            &&& sample.controller_bw_bytes_per_second >= sample.delivery_rate_bytes_per_second
            &&& !self.spec_view(sample).spec_raw_queue_inflated()
        }
        ||| {
            &&& in_range
            &&& self.min_rtt_micros <= 10_000
            &&& micros_of(sample.min_rtt) <= 10_000
            &&& micros_of(sample.rtt) <= 20_000
            &&& sample.controller_state != 0
            &&& rates_track(
                sample.controller_bw_bytes_per_second as int,
                sample.delivery_rate_bytes_per_second as int,
            )
        }
    }

    /// The sample opens a policer episode: armed evidence, outgoing demand, a
    /// credible shallow policer and at least 1.5% smoothed loss.
    pub open spec fn enters_policer(self, sample: PathTelemetryV2) -> bool {
        &&& self.protection_samples != 0
        &&& (sample.tun_ingress_bytes_per_second != 0 || sample.packet_train_queue_bytes != 0)
        &&& self.credible_shallow_policer(sample)
        &&& self.loss_ppm >= 15_000
    }

    /// The policer latch after one more sample. An episode is held while the
    /// direction is active, released by the second idle sample in a row (which
    /// also forgets its loss evidence), and opened with a fixed pacing cap.
    pub open spec fn policer_folded(self, sample: PathTelemetryV2) -> TelemetryFilterV1 {
        if self.short_rtt_policer_limited {
            if sample.active_direction() {
                TelemetryFilterV1 { short_rtt_policer_inactive_ticks: 0, ..self }
            } else if self.short_rtt_policer_inactive_ticks >= 1 {
                TelemetryFilterV1 {
                    short_rtt_policer_limited: false,
                    short_rtt_policer_inactive_ticks: 0,
                    short_rtt_policer_pacing_cap_bytes_per_second: None,
                    loss_ppm: 0,
                    burst_loss_cells: 0,
                    protection_samples: 0,
                    ..self
                }
            } else {
                TelemetryFilterV1 { short_rtt_policer_inactive_ticks: 1, ..self }
            }
        } else if self.enters_policer(sample) {
            TelemetryFilterV1 {
                short_rtt_policer_limited: true,
                short_rtt_policer_inactive_ticks: 0,
                short_rtt_policer_pacing_cap_bytes_per_second: entry_pacing_cap(
                    sample.controller_bw_bytes_per_second as int,
                    self.clean_delivery.largest(),
                ),
                ..self
            }
        } else {
            TelemetryFilterV1 { short_rtt_policer_inactive_ticks: 0, ..self }
        }
    }

    /// The filter after one more sample.
    pub open spec fn spec_update(self, sample: PathTelemetryV2, current: usize) -> TelemetryFilterV1 {
        let pressed = self.pressure_folded(sample, current);
        let counted = TelemetryFilterV1 {
            samples: min_int(pressed.samples + 1, u32::MAX as int) as u32,
            ..pressed
        };
        counted.smoothed(sample).clean_folded(sample).policer_folded(sample)
    }

    /// Fold one live sample into the filter. `current_receive_buffer_bytes`
    /// is the receive window currently in effect; reassembly pressure raises
    /// a floor relative to it that is then held for a bounded number of
    /// samples without any operator configuration.
    pub fn update(
        &mut self,
        sample: PathTelemetryV2,
        current_receive_buffer_bytes: usize,
    ) -> (r: FilteredTelemetryV1)
        requires
            old(self).wf(),
            sample.reassembly_pressure_evictions != 0 ==> old(
                self,
            ).bounds.minimum_receive_buffer_bytes <= old(self).bounds.maximum_socket_buffer_bytes,
        ensures
            *final(self) == old(self).spec_update(sample, current_receive_buffer_bytes),
            final(self).wf(),
            final(self).bounds == old(self).bounds,
            r == final(self).spec_view(sample),
    {
        self.fold_pressure(sample, current_receive_buffer_bytes);
        self.samples = self.samples.saturating_add(1);
        self.smooth(sample);
        self.fold_clean_delivery(sample);
        self.fold_policer(sample);
        self.view(sample)
    }

    /// Raise, hold or release the receive-pressure floor.
    fn fold_pressure(&mut self, sample: PathTelemetryV2, current_receive_buffer_bytes: usize)
        requires
            sample.reassembly_pressure_evictions != 0 ==> old(
                self,
            ).bounds.minimum_receive_buffer_bytes <= old(self).bounds.maximum_socket_buffer_bytes,
        ensures
            *final(self) == old(self).pressure_folded(sample, current_receive_buffer_bytes),
    {
        if sample.reassembly_pressure_evictions != 0 {
            let grown: usize = saturating_mul_usize(current_receive_buffer_bytes, 2).max(
                current_receive_buffer_bytes.saturating_add(RECEIVE_PRESSURE_GROWTH_STEP_BYTES),
            );
            self.receive_pressure_floor_bytes = clamp_usize(
                grown,
                self.bounds.minimum_receive_buffer_bytes,
                self.bounds.maximum_socket_buffer_bytes,
            );
            self.receive_pressure_hold_samples = RECEIVE_PRESSURE_HOLD_SAMPLES;
        } else if self.receive_pressure_hold_samples != 0 {
            self.receive_pressure_hold_samples = self.receive_pressure_hold_samples - 1;
            if self.receive_pressure_hold_samples == 0 {
                self.receive_pressure_floor_bytes = 0;
            }
        }
    }

    /// Record or clear the clean-delivery evidence.
    fn fold_clean_delivery(&mut self, sample: PathTelemetryV2)
        requires
            old(self).wf(),
        ensures
            *final(self) == old(self).clean_folded(sample),
            final(self).wf(),
    {
        if !sample.active_direction() {
            self.clean_delivery = CleanDeliveryWindow::cleared();
        } else if sample.loss_ppm == 0 && sample.delivery_rate_bytes_per_second != 0 {
            // The lossy entry interval is deliberately not recorded: its low
            // delivery is an effect of the policer, not a new capacity
            // estimate.
            let mut window = self.clean_delivery;
            window.record(sample.delivery_rate_bytes_per_second);
            self.clean_delivery = window;
        }
    }

    /// Advance the short-RTT policer latch.
    fn fold_policer(&mut self, sample: PathTelemetryV2)
        ensures
            *final(self) == old(self).policer_folded(sample),
            final(self).clean_delivery == old(self).clean_delivery,
    {
        let active_direction: bool = sample.active_direction();
        if self.short_rtt_policer_limited {
            if active_direction {
                self.short_rtt_policer_inactive_ticks = 0;
            } else {
                self.short_rtt_policer_inactive_ticks =
                    self.short_rtt_policer_inactive_ticks.saturating_add(1);
                if self.short_rtt_policer_inactive_ticks >= 2 {
                    self.short_rtt_policer_limited = false;
                    self.short_rtt_policer_inactive_ticks = 0;
                    self.short_rtt_policer_pacing_cap_bytes_per_second = None;
                    // The next activation must establish fresh loss evidence;
                    // otherwise the retained EWMA can immediately relatch a
                    // clean flow after this episode has gone idle.
                    self.loss_ppm = 0;
                    self.burst_loss_cells = 0;
                    self.protection_samples = 0;
                }
            }
        } else {
            self.short_rtt_policer_inactive_ticks = 0;
            let short_rtt: bool = self.rtt_micros <= 10_000 && self.min_rtt_micros <= 10_000;
            // A startup controller model can lag throughput the same sample
            // already proved. Do not freeze that stale estimate; wait until a
            // model reaches the shallow-policer operating range and catches
            // up with current delivered payload. Lower-rate random loss stays
            // on the LossyRadio/FEC path instead of pinning a startup cap.
            let model_in_policer_range: bool = sample.controller_bw_bytes_per_second
                >= MINIMUM_SHORT_RTT_POLICER_MODEL_BYTES_PER_SECOND;
            let unqueued_credible_model: bool = model_in_policer_range
                && sample.controller_bw_bytes_per_second >= sample.delivery_rate_bytes_per_second;
            let raw_queue_inflated: bool = self.view(sample).raw_queue_inflated();
            // A shallow policer can inflate the instantaneous queue before
            // the classifier sees enough loss. Once BBR has left Startup, a
            // model tracking delivery within 10% is independent evidence that
            // this is a short physical path rather than deep Wi-Fi queuing.
            let tracking_band_credible_model: bool = model_in_policer_range && self.min_rtt_micros
                <= 10_000 && micros(sample.min_rtt) <= 10_000 && micros(sample.rtt) <= 20_000
                && sample.controller_state != 0 && rates_track_within_ten_percent(
                sample.controller_bw_bytes_per_second,
                sample.delivery_rate_bytes_per_second,
            );
            let credible_shallow_policer: bool = (short_rtt && unqueued_credible_model
                && !raw_queue_inflated) || tracking_band_credible_model;
            self.short_rtt_policer_limited = self.protection_samples != 0 && active_direction && (
            sample.tun_ingress_bytes_per_second != 0 || sample.packet_train_queue_bytes != 0)
                && credible_shallow_policer && self.loss_ppm >= 15_000;
            if self.short_rtt_policer_limited {
                // Reserve 5% below the UDP-payload controller model for
                // physical IP/UDP wire overhead. The bounded two-millisecond
                // send quantum permits this small near-line-rate margin
                // without recreating burst overflow. A credible recent clean
                // delivery peak may lower that cap, but never raise it above
                // the payload rate the path has already proved. Capture this
                // cap once for the active episode so subsequent shaped samples
                // cannot ratchet it downward.
                let model_cap: u64 = saturating_mul_u64(
                    sample.controller_bw_bytes_per_second,
                    950,
                ) / 1_000;
                self.short_rtt_policer_pacing_cap_bytes_per_second =
                if sample.controller_bw_bytes_per_second == 0 {
                    None
                } else {
                    match self.clean_delivery.peak() {
                        Some(clean_cap) => if clean_cap >= saturating_mul_u64(model_cap, 95)
                            / 100 {
                            Some(model_cap.min(clean_cap))
                        } else {
                            Some(model_cap)
                        },
                        None => Some(model_cap),
                    }
                };
            }
        }
    }

    /// The snapshot of the filter paired with `sample`.
    pub open spec fn spec_view(&self, sample: PathTelemetryV2) -> FilteredTelemetryV1 {
        FilteredTelemetryV1 {
            raw: sample,
            sample_count: self.samples,
            rtt_micros: self.rtt_micros,
            min_rtt_micros: self.min_rtt_micros,
            queue_delay_micros: self.queue_delay_micros,
            loss_ppm: self.loss_ppm,
            burst_loss_cells: self.burst_loss_cells,
            delivery_rate_bytes_per_second: self.delivery_rate,
            receive_rate_bytes_per_second: self.receive_rate,
            packets_per_second: self.packets_per_second,
            tun_ingress_bytes_per_second: self.tun_ingress_rate,
            average_record_bytes: self.average_record_bytes,
            gso_ingress_ratio_ppm: self.gso_ingress_ratio_ppm,
            cpu_per_mille: self.cpu_per_mille,
            wasted_parity_per_mille: self.wasted_parity_per_mille,
            recovery_per_mille: self.recovery_per_mille,
            repair_hit_per_mille: self.repair_hit_per_mille,
            repair_latency_micros: self.repair_latency_micros,
            repair_observations: self.repair_observations,
            protection_samples: self.protection_samples,
            short_rtt_policer_limited: self.short_rtt_policer_limited,
            short_rtt_policer_pacing_cap_bytes_per_second:
                self.short_rtt_policer_pacing_cap_bytes_per_second,
            receive_pressure_floor_bytes: self.receive_pressure_floor_bytes,
        }
    }

    /// Non-mutating snapshot of the current filter state paired with
    /// `sample`. Used when a learned action is constrained against an
    /// already-observed sample without advancing the sample clock again.
    pub fn view(&self, sample: PathTelemetryV2) -> (r: FilteredTelemetryV1)
        ensures
            r == self.spec_view(sample),
    {
        FilteredTelemetryV1 {
            raw: sample,
            sample_count: self.samples,
            rtt_micros: self.rtt_micros,
            min_rtt_micros: self.min_rtt_micros,
            queue_delay_micros: self.queue_delay_micros,
            loss_ppm: self.loss_ppm,
            burst_loss_cells: self.burst_loss_cells,
            delivery_rate_bytes_per_second: self.delivery_rate,
            receive_rate_bytes_per_second: self.receive_rate,
            packets_per_second: self.packets_per_second,
            tun_ingress_bytes_per_second: self.tun_ingress_rate,
            average_record_bytes: self.average_record_bytes,
            gso_ingress_ratio_ppm: self.gso_ingress_ratio_ppm,
            cpu_per_mille: self.cpu_per_mille,
            wasted_parity_per_mille: self.wasted_parity_per_mille,
            recovery_per_mille: self.recovery_per_mille,
            repair_hit_per_mille: self.repair_hit_per_mille,
            repair_latency_micros: self.repair_latency_micros,
            repair_observations: self.repair_observations,
            protection_samples: self.protection_samples,
            short_rtt_policer_limited: self.short_rtt_policer_limited,
            short_rtt_policer_pacing_cap_bytes_per_second:
                self.short_rtt_policer_pacing_cap_bytes_per_second,
            receive_pressure_floor_bytes: self.receive_pressure_floor_bytes,
        }
    }

    /// Fold one sample into the averages.
    fn smooth(&mut self, sample: PathTelemetryV2)
        ensures
            *final(self) == old(self).smoothed(sample),
    {
        self.rtt_micros = ewma(self.rtt_micros, micros(sample.rtt), 3, 8);
        self.min_rtt_micros = if self.min_rtt_micros == 0 {
            micros(sample.min_rtt)
        } else {
            self.min_rtt_micros.min(micros(sample.min_rtt))
        };
        self.queue_delay_micros = ewma(self.queue_delay_micros, micros(sample.queue_delay), 3, 8);
        // QUIC keepalives and PMTU probes make an idle interval's loss ratio
        // statistically meaningless: losing one of only a handful of packets
        // would pre-arm FEC at 8+1 before the first real byte arrived. Update
        // protection classifiers only when this outgoing direction has enough
        // real Cells and packets to form a useful sample.
        if has_protection_evidence(sample) {
            self.protection_samples = self.protection_samples.saturating_add(1);
            self.loss_ppm = ewma(self.loss_ppm, sample.loss_ppm as u64, 3, 8);
            self.burst_loss_cells = ewma(
                self.burst_loss_cells,
                sample.burst_loss_cells as u64,
                1,
                2,
            );
        }
        self.delivery_rate = ewma(
            self.delivery_rate,
            sample.delivery_rate_bytes_per_second,
            1,
            4,
        );
        self.receive_rate = ewma(self.receive_rate, sample.receive_rate_bytes_per_second, 1, 4);
        self.packets_per_second = ewma(self.packets_per_second, sample.packets_per_second, 1, 4);
        self.tun_ingress_rate = ewma(
            self.tun_ingress_rate,
            sample.tun_ingress_bytes_per_second,
            1,
            4,
        );
        self.average_record_bytes = ewma(
            self.average_record_bytes,
            sample.average_record_bytes,
            1,
            4,
        );
        self.gso_ingress_ratio_ppm = ewma(
            self.gso_ingress_ratio_ppm,
            sample.gso_ingress_ratio_ppm as u64,
            1,
            4,
        );
        self.cpu_per_mille = ewma(
            self.cpu_per_mille,
            sample.cpu_utilization_per_mille as u64,
            1,
            4,
        );
        self.wasted_parity_per_mille = ewma(
            self.wasted_parity_per_mille,
            sample.wasted_parity_per_mille as u64,
            1,
            4,
        );
        self.recovery_per_mille = ewma(
            self.recovery_per_mille,
            sample.fec_recovery_per_mille as u64,
            1,
            4,
        );
        // A zero completion delta means "no new evidence", not a zero-hit or
        // zero-latency response. Preserve the last EWMA until another matched
        // request completes.
        let completed_delta: u64 = if self.repair_counter_initialized {
            sample.repair_completed_requests.saturating_sub(self.last_repair_completed_requests)
        } else {
            self.repair_counter_initialized = true;
            0
        };
        if completed_delta != 0 && !sample.repair_response_latency.is_zero() {
            self.repair_hit_per_mille = ewma(
                self.repair_hit_per_mille,
                sample.repair_hit_per_mille as u64,
                1,
                4,
            );
            self.repair_latency_micros = ewma(
                self.repair_latency_micros,
                micros(sample.repair_response_latency),
                1,
                4,
            );
            self.repair_observations = self.repair_observations.saturating_add(completed_delta);
        }
        self.last_repair_completed_requests = sample.repair_completed_requests;
    }
}

/// A filter after a run of samples, each paired with the receive window in
/// effect.
pub open spec fn fed(
    filter: TelemetryFilterV1,
    run: Seq<(PathTelemetryV2, usize)>,
) -> TelemetryFilterV1
    decreases run.len(),
{
    if run.len() == 0 {
        filter
    } else {
        fed(filter, run.drop_last()).spec_update(run.last().0, run.last().1)
    }
}

/// A well-formed filter stays well formed, and keeps its bounds, through every
/// run of samples.
pub proof fn lemma_filter_stays_well_formed(
    filter: TelemetryFilterV1,
    run: Seq<(PathTelemetryV2, usize)>,
)
    requires
        filter.wf(),
    ensures
        fed(filter, run).wf(),
        fed(filter, run).bounds == filter.bounds,
    decreases run.len(),
{
    if run.len() > 0 {
        lemma_filter_stays_well_formed(filter, run.drop_last());
    }
}

/// Loss that comes without real traffic, such as that of keepalives and PMTU
/// probes, arms nothing.
pub proof fn lemma_probe_loss_arms_nothing(
    filter: TelemetryFilterV1,
    sample: PathTelemetryV2,
    current: usize,
)
    requires
        !sample.spec_has_protection_evidence(),
        !filter.short_rtt_policer_limited,
    ensures
        ({
            let after = filter.spec_update(sample, current);
            &&& after.loss_ppm == filter.loss_ppm
            &&& after.burst_loss_cells == filter.burst_loss_cells
            &&& after.protection_samples == filter.protection_samples
            &&& filter.protection_samples == 0 ==> !after.short_rtt_policer_limited
        }),
{
}

/// While traffic remains active, a policer episode is held with the pacing cap
/// of its entry, whatever the samples report.
pub proof fn lemma_policer_is_held_while_active(
    filter: TelemetryFilterV1,
    run: Seq<(PathTelemetryV2, usize)>,
)
    requires
        filter.short_rtt_policer_limited,
        forall|i: int| 0 <= i < run.len() ==> (#[trigger] run[i]).0.active_direction(),
    ensures
        fed(filter, run).short_rtt_policer_limited,
        fed(filter, run).short_rtt_policer_pacing_cap_bytes_per_second
            == filter.short_rtt_policer_pacing_cap_bytes_per_second,
    decreases run.len(),
{
    if run.len() > 0 {
        let shorter = run.drop_last();
        assert forall|i: int| 0 <= i < shorter.len() implies (
        #[trigger] shorter[i]).0.active_direction() by {
            assert(shorter[i] == run[i]);
        }
        lemma_policer_is_held_while_active(filter, shorter);
        assert(run[run.len() - 1].0.active_direction());
    }
}

/// Two idle samples in a row end any policer episode, its pacing cap and the
/// loss evidence that opened it; the first of them alone does not.
pub proof fn lemma_two_idle_samples_release_the_policer(
    filter: TelemetryFilterV1,
    first: (PathTelemetryV2, usize),
    second: (PathTelemetryV2, usize),
)
    requires
        filter.short_rtt_policer_limited,
        filter.short_rtt_policer_inactive_ticks == 0,
        !first.0.active_direction(),
        !second.0.active_direction(),
    ensures
        ({
            let held = filter.spec_update(first.0, first.1);
            let released = held.spec_update(second.0, second.1);
            &&& held.short_rtt_policer_limited
            &&& held.short_rtt_policer_pacing_cap_bytes_per_second
                == filter.short_rtt_policer_pacing_cap_bytes_per_second
            &&& !released.short_rtt_policer_limited
            &&& released.short_rtt_policer_pacing_cap_bytes_per_second is None
            &&& released.loss_ppm == 0
            &&& released.burst_loss_cells == 0
            &&& released.protection_samples == 0
        }),
{
}

/// After an episode has ended, samples without loss never open another one.
pub proof fn lemma_retired_policer_does_not_relatch_clean_traffic(
    filter: TelemetryFilterV1,
    run: Seq<(PathTelemetryV2, usize)>,
)
    requires
        !filter.short_rtt_policer_limited,
        filter.loss_ppm == 0,
        forall|i: int| 0 <= i < run.len() ==> (#[trigger] run[i]).0.loss_ppm == 0,
    ensures
        !fed(filter, run).short_rtt_policer_limited,
        fed(filter, run).loss_ppm == 0,
    decreases run.len(),
{
    if run.len() > 0 {
        let shorter = run.drop_last();
        assert forall|i: int| 0 <= i < shorter.len() implies (#[trigger] shorter[i]).0.loss_ppm
            == 0 by {
            assert(shorter[i] == run[i]);
        }
        lemma_retired_policer_does_not_relatch_clean_traffic(filter, shorter);
        assert(run[run.len() - 1].0.loss_ppm == 0);
    }
}

/// Clean delivery evidence may lower the entry cap below 95% of the controller
/// model, but never by more than another twentieth, and never raises it.
pub proof fn lemma_clean_peak_only_lowers_the_entry_cap(controller_bw: int, clean_peak: int)
    requires
        0 < controller_bw <= u64::MAX,
        0 <= clean_peak <= u64::MAX,
    ensures
        ({
            let model_cap = sat_u64(controller_bw * 950) / 1_000;
            entry_pacing_cap(controller_bw, clean_peak) matches Some(cap) && sat_u64(
                model_cap * 95,
            ) / 100 <= cap <= model_cap
        }),
{
}

/// The ring holds the five most recent rates: whatever it held before, five
/// records leave exactly those five in it.
pub proof fn lemma_ring_keeps_the_last_five(
    window: CleanDeliveryWindow,
    a: u64,
    b: u64,
    c: u64,
    d: u64,
    e: u64,
)
    requires
        window.wf(),
    ensures
        window.recorded(a).recorded(b).recorded(c).recorded(d).recorded(e).largest() == max_int(
            max_int(max_int(a as int, b as int), max_int(c as int, d as int)),
            e as int,
        ),
{
    let w1 = window.recorded(a);
    let w2 = w1.recorded(b);
    let w3 = w2.recorded(c);
    let w4 = w3.recorded(d);
    let w5 = w4.recorded(e);
    assert(w5.samples@.len() == 5);
    assert(w1.samples@ =~= window.samples@.update(window.next as int, a));
    assert(w2.samples@ =~= w1.samples@.update(w1.next as int, b));
    assert(w3.samples@ =~= w2.samples@.update(w2.next as int, c));
    assert(w4.samples@ =~= w3.samples@.update(w3.next as int, d));
    assert(w5.samples@ =~= w4.samples@.update(w4.next as int, e));
}

/// A pressure floor lies inside the bounds, and above the window that was
/// under pressure wherever the bounds leave room.
pub proof fn lemma_pressure_floor_grows_inside_the_bounds(bounds: AutoTuneBoundsV2, current: usize)
    requires
        bounds.minimum_receive_buffer_bytes <= bounds.maximum_socket_buffer_bytes,
    ensures
        bounds.minimum_receive_buffer_bytes <= pressure_floor(bounds, current as int)
            <= bounds.maximum_socket_buffer_bytes,
        current < bounds.maximum_socket_buffer_bytes ==> pressure_floor(bounds, current as int)
            > current,
{
}

/// Reassembly pressure holds its floor through exactly nine further samples
/// without evictions, and releases it with the tenth.
pub proof fn lemma_pressure_floor_is_held_and_released(
    filter: TelemetryFilterV1,
    pressed: (PathTelemetryV2, usize),
    run: Seq<(PathTelemetryV2, usize)>,
)
    requires
        pressed.0.reassembly_pressure_evictions != 0,
        run.len() <= RECEIVE_PRESSURE_HOLD_SAMPLES,
        forall|i: int|
            0 <= i < run.len() ==> (#[trigger] run[i]).0.reassembly_pressure_evictions == 0,
    ensures
        ({
            let after = fed(filter.spec_update(pressed.0, pressed.1), run);
            &&& after.receive_pressure_hold_samples == RECEIVE_PRESSURE_HOLD_SAMPLES - run.len()
            &&& after.receive_pressure_floor_bytes == (if run.len()
                < RECEIVE_PRESSURE_HOLD_SAMPLES {
                pressure_floor(filter.bounds, pressed.1 as int) as usize
            } else {
                0
            })
        }),
    decreases run.len(),
{
    if run.len() > 0 {
        let shorter = run.drop_last();
        assert forall|i: int| 0 <= i < shorter.len() implies (
        #[trigger] shorter[i]).0.reassembly_pressure_evictions == 0 by {
            assert(shorter[i] == run[i]);
        }
        lemma_pressure_floor_is_held_and_released(filter, pressed, shorter);
        assert(run[run.len() - 1].0.reassembly_pressure_evictions == 0);
    }
}

} // verus!

//! The filtered view of one telemetry sample and the predicates over it.

use vstd::prelude::*;

use crate::num::max_int;
use crate::tuning::{
    classify_cover_profile, cover_profile_of, has_protection_evidence, micros, micros_of,
    CoverTrafficProfileV2, PathReliability, PathTelemetryV2, TuneReasonV2,
};

verus! {

/// Filtered view of one telemetry sample: the EWMA/min-RTT state of the
/// telemetry filter after folding in `raw`, plus the receive-pressure floor
/// the filter currently holds. The policy, the guardrails and the transition
/// controller only read this snapshot; none of them sees filter internals or
/// mutates path history.
#[derive(Clone, Copy, Debug, PartialEq, Eq, Structural)]
pub struct FilteredTelemetryV1 {
    /// The unfiltered sample this snapshot was produced from. Some host rules
    /// (protection evidence, live loss emergency, queued latency traffic,
    /// cover padding) deliberately act on the live sample, not the EWMA.
    pub raw: PathTelemetryV2,
    /// Samples folded into the filter since the last reset.
    pub sample_count: u32,
    pub rtt_micros: u64,
    pub min_rtt_micros: u64,
    pub queue_delay_micros: u64,
    /// Outgoing loss EWMA; only updated by samples with protection evidence.
    pub loss_ppm: u64,
    pub burst_loss_cells: u64,
    pub delivery_rate_bytes_per_second: u64,
    pub receive_rate_bytes_per_second: u64,
    pub packets_per_second: u64,
    pub tun_ingress_bytes_per_second: u64,
    pub average_record_bytes: u64,
    pub gso_ingress_ratio_ppm: u64,
    pub cpu_per_mille: u64,
    pub wasted_parity_per_mille: u64,
    pub recovery_per_mille: u64,
    pub repair_hit_per_mille: u64,
    pub repair_latency_micros: u64,
    /// Matched Repair completions folded into the hit/latency EWMAs.
    pub repair_observations: u64,
    /// Samples that carried protection evidence since the last filter reset
    /// or retired policer episode.
    pub protection_samples: u64,
    /// Stateful short-RTT policer classification after its enter/hold
    /// hysteresis has been applied by the telemetry filter.
    pub short_rtt_policer_limited: bool,
    /// Pacing cap captured at short-RTT policer entry and held for the active
    /// episode so shaped delivery cannot feed back into its own ceiling.
    pub short_rtt_policer_pacing_cap_bytes_per_second: Option<u64>,
    /// Receive-buffer floor currently held after reassembly pressure; zero
    /// when no pressure hold is active.
    pub receive_pressure_floor_bytes: usize,
}

impl FilteredTelemetryV1 {
    /// The underlay itself retransmits.
    pub open spec fn spec_reliable(&self) -> bool {
        self.raw.reliability == PathReliability::ReliableRelay
    }

    #[verifier::when_used_as_spec(spec_reliable)]
    pub fn reliable(&self) -> (r: bool)
        ensures
            r == self.spec_reliable(),
    {
        self.raw.reliability == PathReliability::ReliableRelay
    }

    /// Smoothed host CPU at or above 90%.
    pub open spec fn spec_cpu_limited(&self) -> bool {
        self.cpu_per_mille >= 900
    }

    /// Smoothed host CPU at or above 90%: protection and cover are
    /// suppressed and the native rules fall back to minimum batching.
    #[verifier::when_used_as_spec(spec_cpu_limited)]
    pub fn cpu_limited(&self) -> (r: bool)
        ensures
            r == self.spec_cpu_limited(),
    {
        self.cpu_per_mille >= 900
    }

    /// Live host CPU at or above 90%.
    pub open spec fn spec_cpu_emergency(&self) -> bool {
        self.raw.cpu_utilization_per_mille >= 900
    }

    /// Live host CPU at or above 90%: a learned action may not raise
    /// scheduler batching above the host baseline.
    #[verifier::when_used_as_spec(spec_cpu_emergency)]
    pub fn cpu_emergency(&self) -> (r: bool)
        ensures
            r == self.spec_cpu_emergency(),
    {
        self.raw.cpu_utilization_per_mille >= 900
    }

    /// The larger of 5 ms and half the learned propagation RTT.
    pub open spec fn spec_queue_delay_budget_micros(&self) -> u64 {
        max_int(5_000, self.min_rtt_micros as int / 2) as u64
    }

    /// Absolute delay alone is not comparable across path classes: 6 ms is a
    /// real queue on Ethernet but ordinary jitter on an 85 ms radio or
    /// cross-carrier path. Require queue delay to exceed the larger of 5 ms
    /// and half the learned propagation RTT. This matches the BBR queue guard
    /// and prevents random-loss WANs from being mislabeled as congested, which
    /// would otherwise disable exactly the FEC/Repair they need.
    #[verifier::when_used_as_spec(spec_queue_delay_budget_micros)]
    pub fn queue_delay_budget_micros(&self) -> (r: u64)
        ensures
            r == self.spec_queue_delay_budget_micros(),
    {
        let floor: u64 = 5_000;
        floor.max(self.min_rtt_micros / 2)
    }

    /// Both the smoothed queue delay and the smoothed RTT exceed the budget.
    pub open spec fn spec_queue_inflated(&self) -> bool {
        let budget = self.spec_queue_delay_budget_micros();
        &&& self.queue_delay_micros > budget
        &&& self.rtt_micros > self.min_rtt_micros + budget
    }

    #[verifier::when_used_as_spec(spec_queue_inflated)]
    pub fn queue_inflated(&self) -> (r: bool)
        ensures
            r == self.spec_queue_inflated(),
    {
        let budget: u64 = self.queue_delay_budget_micros();
        self.queue_delay_micros > budget && self.rtt_micros > self.min_rtt_micros.saturating_add(
            budget,
        )
    }

    /// The live queue delay exceeds the larger of 5 ms and half the live
    /// propagation RTT.
    pub open spec fn spec_raw_queue_inflated(&self) -> bool {
        micros_of(self.raw.queue_delay) > max_int(5_000, micros_of(self.raw.min_rtt) / 2)
    }

    /// Whether the live sample, rather than its EWMA, reports a queue above
    /// the path-relative delay budget. Classification entry and protection
    /// decisions use this to avoid treating a deep Wi-Fi queue as a shallow
    /// token bucket merely because the smoothed RTT has not caught up yet.
    #[verifier::when_used_as_spec(spec_raw_queue_inflated)]
    pub fn raw_queue_inflated(&self) -> (r: bool)
        ensures
            r == self.spec_raw_queue_inflated(),
    {
        let floor: u64 = 5_000;
        let budget: u64 = floor.max(micros(self.raw.min_rtt) / 2);
        micros(self.raw.queue_delay) > budget
    }

    /// The classifier is armed and the application still has work.
    pub open spec fn spec_protection_evidence(&self) -> bool {
        self.protection_samples != 0 && self.raw.active_direction()
    }

    /// A credible sample arms the directional classifier. Once armed, keep
    /// protection stable through a loss-induced goodput collapse while the
    /// application still has any real/queued work; otherwise a threshold
    /// toggles FEC off exactly when a lossy WAN stalls below 64 KiB/s. A
    /// completely idle direction still retires protection.
    #[verifier::when_used_as_spec(spec_protection_evidence)]
    pub fn protection_evidence(&self) -> (r: bool)
        ensures
            r == self.spec_protection_evidence(),
    {
        self.protection_samples != 0 && self.raw.active_direction()
    }

    /// The latched short-RTT policer classification.
    pub open spec fn spec_policer_limited(&self) -> bool {
        self.short_rtt_policer_limited
    }

    /// A shallow token-bucket/policer can drop at line rate without retaining
    /// a queue long enough to inflate RTT. The telemetry filter enters this
    /// state on the first credible active sample at 1.5% smoothed loss and
    /// holds it for the path activation while traffic remains active.
    /// Successful pacing naturally creates clean loss samples, so loss alone
    /// cannot disprove the policer that produced them; two truly idle samples
    /// or a path/filter reset release the latch.
    #[verifier::when_used_as_spec(spec_policer_limited)]
    pub fn policer_limited(&self) -> (r: bool)
        ensures
            r == self.spec_policer_limited(),
    {
        self.short_rtt_policer_limited
    }

    /// The path shows a queue or a policer.
    pub open spec fn spec_congested(&self) -> bool {
        self.spec_queue_inflated() || self.spec_policer_limited()
    }

    #[verifier::when_used_as_spec(spec_congested)]
    pub fn congested(&self) -> (r: bool)
        ensures
            r == self.spec_congested(),
    {
        self.queue_inflated() || self.policer_limited()
    }

    /// Credible live loss of one percent, or a burst of three Cells.
    pub open spec fn spec_protection_emergency(&self) -> bool {
        self.raw.spec_has_protection_evidence() && (self.raw.loss_ppm >= 10_000
            || self.raw.burst_loss_cells >= 3)
    }

    /// The live sample carries protection evidence and crosses the 1%
    /// loss (or three-Cell burst) threshold: protection is installed without
    /// hysteresis and a candidate may not switch it off.
    #[verifier::when_used_as_spec(spec_protection_emergency)]
    pub fn protection_emergency(&self) -> (r: bool)
        ensures
            r == self.spec_protection_emergency(),
    {
        has_protection_evidence(self.raw) && (self.raw.loss_ppm >= 10_000
            || self.raw.burst_loss_cells >= 3)
    }

    /// Latency traffic is queued.
    pub open spec fn spec_latency_queue_active(&self) -> bool {
        self.raw.latency_queue_bytes != 0
    }

    /// Latency traffic is queued: Bulk may not overtake it.
    #[verifier::when_used_as_spec(spec_latency_queue_active)]
    pub fn latency_queue_active(&self) -> (r: bool)
        ensures
            r == self.spec_latency_queue_active(),
    {
        self.raw.latency_queue_bytes != 0
    }

    /// The live sample reported reassembly-pressure evictions.
    pub open spec fn spec_receive_pressure(&self) -> bool {
        self.raw.reassembly_pressure_evictions != 0
    }

    /// The live sample reported reassembly-pressure evictions.
    #[verifier::when_used_as_spec(spec_receive_pressure)]
    pub fn receive_pressure(&self) -> (r: bool)
        ensures
            r == self.spec_receive_pressure(),
    {
        self.raw.reassembly_pressure_evictions != 0
    }

    /// The first matching class, from the underlay down to the loss tiers.
    pub open spec fn spec_classify(&self) -> TuneReasonV2 {
        if self.spec_reliable() {
            TuneReasonV2::ReliablePath
        } else if self.spec_cpu_limited() {
            TuneReasonV2::CpuLimited
        } else if self.spec_congested() {
            TuneReasonV2::Congested
        } else if self.burst_loss_cells >= 2 {
            TuneReasonV2::BurstLoss
        } else if self.loss_ppm >= 1_000 {
            TuneReasonV2::RandomLoss
        } else {
            TuneReasonV2::HealthyLowLoss
        }
    }

    /// Host-authoritative path classification carried on every effective
    /// action.
    #[verifier::when_used_as_spec(spec_classify)]
    pub fn classify(&self) -> (r: TuneReasonV2)
        ensures
            r == self.spec_classify(),
    {
        if self.reliable() {
            TuneReasonV2::ReliablePath
        } else if self.cpu_limited() {
            TuneReasonV2::CpuLimited
        } else if self.congested() {
            TuneReasonV2::Congested
        } else if self.burst_loss_cells >= 2 {
            TuneReasonV2::BurstLoss
        } else if self.loss_ppm >= 1_000 {
            TuneReasonV2::RandomLoss
        } else {
            TuneReasonV2::HealthyLowLoss
        }
    }

    /// Directional cover profile derived from the smoothed TX/RX rates.
    pub open spec fn spec_cover_profile(&self) -> CoverTrafficProfileV2 {
        cover_profile_of(
            self.delivery_rate_bytes_per_second as int,
            self.receive_rate_bytes_per_second as int,
        )
    }

    /// Directional cover profile derived from the smoothed TX/RX rates.
    #[verifier::when_used_as_spec(spec_cover_profile)]
    pub fn cover_profile(&self) -> (r: CoverTrafficProfileV2)
        ensures
            r == self.spec_cover_profile(),
    {
        classify_cover_profile(
            self.delivery_rate_bytes_per_second,
            self.receive_rate_bytes_per_second,
        )
    }
}

} // verus!

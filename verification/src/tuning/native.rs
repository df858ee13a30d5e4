//! The deterministic native rule set and the override candidates.

use vstd::prelude::*;

use crate::fec::FecGeometryV2;
use crate::num::{clamp_int, clamp_u64, clamp_usize, max_int, min_int, sat_u64, sat_usize};
use crate::num::{saturating_mul_u64, u64_from_usize, usize_from_u64};
use crate::policy::api::{
    sat_u16, sat_u32, u16_from_usize, u32_from_usize, u8_from_usize, BbrCandidateV1,
    CandidateActionV1, CoverCandidateV1, FecCandidateV1, HostLimitsV1, RxCandidateV1,
    SchedulerCandidateV1, TxCandidateV1,
};
use crate::tuning::filtered::FilteredTelemetryV1;
use crate::tuning::{
    Bbr3PresetV2, Bbr3ProposalV2, ForcedActionV2, TuneReasonV2, BULK_QUANTUM_BACKLOG_BYTES,
};

verus! {

/// The deterministic native rule set: a pure function from filtered
/// telemetry (plus the host limits that define the action space) to a
/// [`CandidateActionV1`]. It proposes every domain it has an opinion on
/// and leaves host-derived fields (Repair cache, cover padding) unset. The
/// native baseline responds directly to reliable-underlay, CPU and queue
/// evidence; like any other policy output it remains untrusted, and the
/// guardrails independently enforce the authoritative host limits.
#[derive(Clone, Copy, Debug, PartialEq, Eq, Structural)]
pub struct NativePolicyV1;

/// A stripe of `data` and `parity` Cells.
pub open spec fn stripe(data: usize, parity: usize) -> Option<FecGeometryV2> {
    Some(FecGeometryV2 { data_cells: data, parity_cells: parity })
}

/// Matched feedback proves that reliable Repair arrives within its
/// RTT-derived budget: eight RTTs, but at least 200 ms.
pub open spec fn repair_effective(f: FilteredTelemetryV1) -> bool {
    &&& f.repair_observations >= 3
    &&& f.repair_hit_per_mille >= 800
    &&& f.repair_latency_micros != 0
    &&& f.repair_latency_micros <= max_int(sat_u64(f.rtt_micros * 8), 200_000)
}

/// Parity stays off: no evidence or no loss, a short path with one percent of
/// loss, a policer or a queue, or sparse loss below one percent.
pub open spec fn parity_off(f: FilteredTelemetryV1) -> bool {
    ||| !f.protection_evidence()
    ||| f.loss_ppm == 0
    ||| f.min_rtt_micros <= 10_000 && (f.raw.loss_ppm >= 10_000 || f.loss_ppm >= 10_000)
    ||| f.policer_limited()
    ||| f.queue_inflated()
    ||| f.loss_ppm < 10_000 && f.burst_loss_cells < 3
}

/// The protection that the rules propose: denser stripes for more loss, and
/// only one parity Cell in eight on short feedback paths.
pub open spec fn native_fec(f: FilteredTelemetryV1) -> Option<FecGeometryV2> {
    if parity_off(f) {
        None
    } else if f.rtt_micros < 80_000 {
        stripe(8, 1)
    } else if f.loss_ppm >= 80_000 {
        stripe(4, 4)
    } else if f.burst_loss_cells >= 3 || f.loss_ppm >= 30_000 {
        stripe(4, 2)
    } else if !(f.wasted_parity_per_mille > 800 && f.recovery_per_mille < 100) {
        stripe(6, 2)
    } else if repair_effective(f) {
        stripe(8, 1)
    } else {
        stripe(6, 1)
    }
}

/// The train size that the rules propose.
pub open spec fn native_train(f: FilteredTelemetryV1, limits: HostLimitsV1) -> int {
    let floor = limits.train_target_floor_bytes as int;
    let cap = limits.train_target_cap_bytes as int;
    let wanted: int = if f.cpu_limited() || f.congested() {
        16_384
    } else if f.delivery_rate_bytes_per_second >= 52_428_800 && f.raw.packet_train_queue_bytes
        >= 65_536 {
        cap
    } else if f.delivery_rate_bytes_per_second >= 5_242_880 {
        32_768
    } else {
        floor
    };
    clamp_int(wanted, floor, cap)
}

/// The Bulk quantum that the rules propose: large only behind a real backlog.
pub open spec fn native_quantum(f: FilteredTelemetryV1) -> u16 {
    if f.raw.packet_train_queue_bytes >= BULK_QUANTUM_BACKLOG_BYTES { 8 } else { 2 }
}

/// Twice the propagation bandwidth-delay product of a rate.
pub open spec fn double_bdp(rate: int, min_rtt_micros: int) -> int {
    sat_u64(sat_u64(rate * min_rtt_micros) / 1_000_000 * 2)
}

/// The producer-admission window that the rules propose: twice the propagation
/// BDP, or roughly 8 ms of delivery under Bulk-only CPU pressure.
pub open spec fn native_send_buffer(f: FilteredTelemetryV1, limits: HostLimitsV1) -> int {
    let processing_window: int = if f.cpu_limited() && f.raw.latency_queue_bytes == 0
        && f.raw.packet_train_queue_bytes > 0 {
        f.delivery_rate_bytes_per_second as int / 125
    } else {
        0
    };
    clamp_int(
        sat_usize(
            max_int(
                double_bdp(f.delivery_rate_bytes_per_second as int, f.min_rtt_micros as int),
                processing_window,
            ),
        ),
        sat_usize(limits.send_buffer_floor_bytes as int),
        sat_usize(limits.send_buffer_cap_bytes as int),
    )
}

/// The receive window that the rules propose: twice the propagation BDP of the
/// incoming rate, and never below a held pressure floor.
pub open spec fn native_receive_buffer(f: FilteredTelemetryV1, limits: HostLimitsV1) -> int {
    max_int(
        clamp_int(
            sat_usize(double_bdp(f.receive_rate_bytes_per_second as int, f.min_rtt_micros as int)),
            sat_usize(limits.receive_buffer_floor_bytes as int),
            sat_usize(limits.receive_buffer_cap_bytes as int),
        ),
        f.receive_pressure_floor_bytes as int,
    )
}

/// The receive batch that the rules propose: about 512 KiB of records, at most
/// eight super-packets, and the cap while the tunnel is silent.
pub open spec fn native_receive_batch(f: FilteredTelemetryV1, limits: HostLimitsV1) -> int {
    let cap = max_int(limits.receive_batch_cap as int, 1);
    let by_bytes = clamp_int(524_288int / max_int(f.average_record_bytes as int, 1), 1, cap);
    if f.tun_ingress_bytes_per_second == 0 {
        cap
    } else if f.gso_ingress_ratio_ppm >= 500_000 {
        min_int(by_bytes, 8)
    } else {
        by_bytes
    }
}

/// The controller preset that the rules propose.
pub open spec fn native_preset(f: FilteredTelemetryV1) -> Bbr3PresetV2 {
    if f.reliable() {
        Bbr3PresetV2::RelayReliable
    } else if f.min_rtt_micros < 2_000 {
        Bbr3PresetV2::LowRttHost
    } else if f.policer_limited() {
        Bbr3PresetV2::Policer
    } else if f.min_rtt_micros >= 120_000 {
        Bbr3PresetV2::LongFat
    } else if f.classify() == TuneReasonV2::RandomLoss || f.classify() == TuneReasonV2::BurstLoss {
        Bbr3PresetV2::LossyRadio
    } else {
        Bbr3PresetV2::SharedConservative
    }
}

/// The controller settings that the rules propose. A policer brings neither a
/// pacing cap nor loss-as-congestion: the controller's own policer scale and
/// queue guard already adapt the wire rate to the same signal.
pub open spec fn native_bbr(f: FilteredTelemetryV1) -> Bbr3ProposalV2 {
    Bbr3ProposalV2 {
        pacing_cap_bytes_per_second: 0,
        loss_is_congestion: false,
        ..Bbr3ProposalV2::spec_for_preset(native_preset(f), 0)
    }
}

/// A proposal as a candidate.
pub open spec fn bbr_candidate_of(proposal: Bbr3ProposalV2) -> BbrCandidateV1 {
    BbrCandidateV1 {
        preset: Some(proposal.preset),
        probe_bw_up_pacing_gain_milli: Some(proposal.up_gain_milli),
        default_cwnd_gain_milli: Some(proposal.cwnd_gain_milli),
        headroom_milli: Some(proposal.headroom_milli),
        loss_is_congestion: Some(proposal.loss_is_congestion),
        pacing_cap_bytes_per_second: Some(proposal.pacing_cap_bytes_per_second),
    }
}

/// A protection as a candidate.
pub open spec fn fec_candidate_of(geometry: Option<FecGeometryV2>) -> FecCandidateV1 {
    match geometry {
        Some(geometry) => FecCandidateV1 {
            enabled: Some(true),
            data_cells: Some(min_int(geometry.data_cells as int, 255) as u8),
            parity_cells: Some(min_int(geometry.parity_cells as int, 255) as u8),
        },
        None => FecCandidateV1 { enabled: Some(false), data_cells: None, parity_cells: None },
    }
}

/// The whole native proposal.
pub open spec fn native_candidate(f: FilteredTelemetryV1, limits: HostLimitsV1) -> CandidateActionV1 {
    CandidateActionV1 {
        bbr: Some(bbr_candidate_of(native_bbr(f))),
        scheduler: Some(
            SchedulerCandidateV1 {
                train_target_bytes: Some(sat_u32(native_train(f, limits)) as u32),
                bulk_quantum_cells: Some(native_quantum(f)),
            },
        ),
        fec: Some(fec_candidate_of(native_fec(f))),
        tx: Some(TxCandidateV1 { send_buffer_bytes: Some(native_send_buffer(f, limits) as u64) }),
        rx: Some(
            RxCandidateV1 {
                receive_buffer_bytes: Some(native_receive_buffer(f, limits) as u64),
                receive_batch: Some(sat_u16(native_receive_batch(f, limits)) as u16),
            },
        ),
        cover: Some(
            CoverCandidateV1 {
                profile: Some(f.cover_profile()),
                overhead_per_mille: Some(
                    min_int(30, limits.cover_overhead_cap_per_mille as int) as u16,
                ),
            },
        ),
    }
}

/// A proposal as a candidate.
pub fn bbr_candidate(proposal: &Bbr3ProposalV2) -> (r: BbrCandidateV1)
    ensures
        r == bbr_candidate_of(*proposal),
{
    BbrCandidateV1 {
        preset: Some(proposal.preset),
        probe_bw_up_pacing_gain_milli: Some(proposal.up_gain_milli),
        default_cwnd_gain_milli: Some(proposal.cwnd_gain_milli),
        headroom_milli: Some(proposal.headroom_milli),
        loss_is_congestion: Some(proposal.loss_is_congestion),
        pacing_cap_bytes_per_second: Some(proposal.pacing_cap_bytes_per_second),
    }
}

/// A protection as a candidate.
pub fn fec_candidate(geometry: Option<FecGeometryV2>) -> (r: FecCandidateV1)
    ensures
        r == fec_candidate_of(geometry),
{
    match geometry {
        Some(geometry) => FecCandidateV1 {
            enabled: Some(true),
            data_cells: Some(u8_from_usize(geometry.data_cells)),
            parity_cells: Some(u8_from_usize(geometry.parity_cells)),
        },
        None => FecCandidateV1 { enabled: Some(false), data_cells: None, parity_cells: None },
    }
}

impl NativePolicyV1 {
    /// The protection part of the proposal.
    fn propose_fec(&self, filtered: &FilteredTelemetryV1) -> (r: Option<FecGeometryV2>)
        ensures
            r == native_fec(*filtered),
    {
        let raw = &filtered.raw;
        // Repair runs behind authenticated control scheduling and can take
        // several path RTTs even when it is healthy. Requiring <100 ms made
        // sparse 0.1-0.5% loss randomly pin 8+1 FEC depending on whether the
        // first few repairs landed just above or below that cliff. Eight RTTs
        // with a 200 ms floor is still comfortably ahead of an inner TCP RTO
        // while giving stable evidence enough time to retire wasted parity.
        let repair_latency_budget_micros: u64 = saturating_mul_u64(filtered.rtt_micros, 8).max(
            200_000,
        );
        let repair_effective: bool = filtered.repair_observations >= 3
            && filtered.repair_hit_per_mille >= 800 && filtered.repair_latency_micros != 0
            && filtered.repair_latency_micros <= repair_latency_budget_micros;
        let short_rtt_congestion_candidate: bool = filtered.min_rtt_micros <= 10_000 && (
        raw.loss_ppm >= 10_000 || filtered.loss_ppm >= 10_000);
        let low_random_loss: bool = filtered.loss_ppm != 0 && filtered.loss_ppm < 10_000
            && filtered.burst_loss_cells < 3;
        if !filtered.protection_evidence() || filtered.loss_ppm == 0 {
            None
        } else if short_rtt_congestion_candidate {
            // On a very short path, one-percent loss is credible congestion
            // evidence before the controller's bounded policer trial can be
            // confirmed. Parity crosses the same bottleneck and therefore
            // makes that trial slower and less causal; keep it off from the
            // first raw or retained filtered loss sample.
            None
        } else if filtered.policer_limited() || filtered.queue_inflated() {
            // Parity consumes the same constrained wire budget and therefore
            // amplifies congestion loss. In particular, receiver gaps from a
            // shallow-policer overshoot must not create a residual-loss -> FEC
            // feedback loop while BBR settles onto its fixed ceiling.
            None
        } else if low_random_loss {
            // Sparse sub-one-percent loss does not justify a permanent 16+1
            // tax: receiver evidence shows almost every parity Cell is
            // wasted, while QUIC and the inner transport recover the rare
            // miss. Protection resumes at one percent or a three-Cell burst.
            None
        } else if filtered.loss_ppm >= 80_000 {
            Some(
                if filtered.rtt_micros < 80_000 {
                    // A shallow policer can report a large instantaneous loss
                    // percentage without retaining an RTT queue. On such short
                    // feedback paths, dense parity can overdrive the same
                    // bottleneck; one 8+1 stripe plus fast Repair bounds that
                    // feedback loop.
                    FecGeometryV2 { data_cells: 8, parity_cells: 1 }
                } else {
                    // At >=8% sustained loss on a non-congested WAN, the
                    // observed correlated burst tail needs four recovery
                    // symbols. These paths have ample unused wire headroom;
                    // receiver expiry is more costly than the bounded 100%
                    // parity overhead.
                    FecGeometryV2 { data_cells: 4, parity_cells: 4 }
                },
            )
        } else if filtered.burst_loss_cells >= 3 || filtered.loss_ppm >= 30_000 {
            Some(
                if filtered.rtt_micros < 80_000 {
                    FecGeometryV2 { data_cells: 8, parity_cells: 1 }
                } else {
                    // Do not thin severe high-RTT protection in response to
                    // wasted-parity or fast-Repair samples. Under correlated
                    // loss, those signals are biased toward completed stripes;
                    // retaining 4+2 prevents the missing tails from expiring.
                    FecGeometryV2 { data_cells: 4, parity_cells: 2 }
                },
            )
        } else if filtered.rtt_micros < 80_000 {
            Some(FecGeometryV2 { data_cells: 8, parity_cells: 1 })
        } else if filtered.wasted_parity_per_mille > 800 && filtered.recovery_per_mille < 100 {
            if repair_effective {
                // Matched feedback proves reliable Repair arrives within its
                // RTT-derived budget. Spread the remaining single parity
                // symbol over eight data Cells; this preserves immediate
                // recovery for isolated loss while leaving the rare miss to
                // Repair.
                Some(FecGeometryV2 { data_cells: 8, parity_cells: 1 })
            } else {
                // Until Repair is proven, retain the denser six-Cell stripe
                // but halve parity from two symbols to one.
                Some(FecGeometryV2 { data_cells: 6, parity_cells: 1 })
            }
        } else {
            Some(FecGeometryV2 { data_cells: 6, parity_cells: 2 })
        }
    }

    /// The controller part of the proposal.
    fn propose_bbr(&self, filtered: &FilteredTelemetryV1) -> (r: Bbr3ProposalV2)
        ensures
            r == native_bbr(*filtered),
    {
        let reason: TuneReasonV2 = filtered.classify();
        let preset: Bbr3PresetV2 = if filtered.reliable() {
            Bbr3PresetV2::RelayReliable
        } else if filtered.min_rtt_micros < 2_000 {
            Bbr3PresetV2::LowRttHost
        } else if filtered.policer_limited() {
            Bbr3PresetV2::Policer
        } else if filtered.min_rtt_micros >= 120_000 {
            Bbr3PresetV2::LongFat
        } else if reason == TuneReasonV2::RandomLoss || reason == TuneReasonV2::BurstLoss {
            Bbr3PresetV2::LossyRadio
        } else {
            Bbr3PresetV2::SharedConservative
        };
        let mut proposal: Bbr3ProposalV2 = Bbr3ProposalV2::for_preset(preset, 0);
        // Avoid a second feedback controller over the same loss signal. BBR's
        // internal policer scale and shallow-queue guard adapt the wire rate;
        // the filter's fixed entry estimate remains observational state only.
        proposal.pacing_cap_bytes_per_second = 0;
        proposal.loss_is_congestion = false;
        proposal
    }

    /// The candidate of the native rules.
    pub fn propose(&self, filtered: &FilteredTelemetryV1, limits: &HostLimitsV1) -> (r:
        CandidateActionV1)
        requires
            limits.wf(),
        ensures
            r == native_candidate(*filtered, *limits),
    {
        let raw = &filtered.raw;
        let cpu_limited: bool = filtered.cpu_limited();

        let minimum_train: usize = usize_from_u64(limits.train_target_floor_bytes as u64);
        let maximum_train: usize = usize_from_u64(limits.train_target_cap_bytes as u64);
        let wanted_train: usize = if cpu_limited || filtered.congested() {
            16 * 1024
        } else if filtered.delivery_rate_bytes_per_second >= 50 * 1024 * 1024
            && raw.packet_train_queue_bytes >= 64 * 1024 {
            maximum_train
        } else if filtered.delivery_rate_bytes_per_second >= 5 * 1024 * 1024 {
            32 * 1024
        } else {
            minimum_train
        };
        let train_target: usize = clamp_usize(wanted_train, minimum_train, maximum_train);

        // An eight-Cell quantum does not bypass QUIC's cwnd, but it does make
        // one userspace submission larger. Only actual packet-train backlog
        // justifies that batching tradeoff: ingress/rate snapshots can lead
        // the queue and otherwise expand the first burst. Queued latency
        // remains a final one-Cell guardrail.
        let bulk_quantum_cells: u16 = if raw.packet_train_queue_bytes
            >= BULK_QUANTUM_BACKLOG_BYTES {
            8
        } else {
            2
        };

        // Size producer admission from propagation BDP, never from the
        // currently inflated RTT. Using smoothed RTT here made queueing
        // self-reinforcing: a deeper QUIC DATAGRAM queue raised RTT, which in
        // turn requested an even deeper queue. min_rtt is the controller's
        // path baseline and therefore excludes our own queue delay.
        let bdp: u64 = saturating_mul_u64(
            filtered.delivery_rate_bytes_per_second,
            filtered.min_rtt_micros,
        ) / 1_000_000;
        // A pure BDP target collapses to the minimum on very-low-RTT links,
        // even when hundreds of thousands of DATAGRAMs/s are competing for
        // the connection lock. Under Bulk-only CPU pressure retain roughly an
        // 8 ms producer window so the native QUIC admission queue amortizes
        // wakes/locks; queued latency traffic disables this extra window.
        let processing_window: u64 = if cpu_limited && raw.latency_queue_bytes == 0
            && raw.packet_train_queue_bytes > 0 {
            filtered.delivery_rate_bytes_per_second / 125
        } else {
            0
        };
        let send_buffer: usize = clamp_usize(
            usize_from_u64(saturating_mul_u64(bdp, 2).max(processing_window)),
            usize_from_u64(limits.send_buffer_floor_bytes),
            usize_from_u64(limits.send_buffer_cap_bytes),
        );
        // TX and RX capacity are independent. In particular, a 1000/100
        // household path must not size the 1 Gbit/s receive window from its
        // 100 Mbit/s uplink estimate, nor let the downlink inflate producer
        // admission on that uplink. Each endpoint learns its local outgoing
        // and incoming directions separately; no symmetric tier is inferred.
        let receive_bdp: u64 = saturating_mul_u64(
            filtered.receive_rate_bytes_per_second,
            filtered.min_rtt_micros,
        ) / 1_000_000;
        let receive_buffer: usize = clamp_usize(
            usize_from_u64(saturating_mul_u64(receive_bdp, 2)),
            usize_from_u64(limits.receive_buffer_floor_bytes),
            usize_from_u64(limits.receive_buffer_cap_bytes),
        ).max(filtered.receive_pressure_floor_bytes);
        // TUN records are drained without waiting. Bound one aggregation
        // opportunity to roughly eight maximum-size records (512 KiB): small
        // packets still amortize channel wakeups at the negotiated maximum,
        // while GSO super-packets do not create multi-megabyte deferred bursts.
        let maximum_receive_batch: u64 = limits.receive_batch_cap.max(1) as u64;
        let record_bytes: u64 = filtered.average_record_bytes.max(1);
        let batch_by_bytes: u64 = clamp_u64(524_288 / record_bytes, 1, maximum_receive_batch);
        let receive_batch: u64 = if filtered.tun_ingress_bytes_per_second == 0 {
            maximum_receive_batch
        } else if filtered.gso_ingress_ratio_ppm >= 500_000 {
            batch_by_bytes.min(8)
        } else {
            batch_by_bytes
        };
        // Cover suppression under queue, loss, CPU, idle or queued Bulk is a
        // host guardrail; the rule only proposes its nominal overhead.
        let nominal_overhead: u16 = 30;
        let cover_overhead: u16 = nominal_overhead.min(limits.cover_overhead_cap_per_mille);
        let bbr: Bbr3ProposalV2 = self.propose_bbr(filtered);
        let fec: Option<FecGeometryV2> = self.propose_fec(filtered);

        CandidateActionV1 {
            bbr: Some(bbr_candidate(&bbr)),
            scheduler: Some(
                SchedulerCandidateV1 {
                    train_target_bytes: Some(u32_from_usize(train_target)),
                    bulk_quantum_cells: Some(bulk_quantum_cells),
                },
            ),
            fec: Some(fec_candidate(fec)),
            tx: Some(TxCandidateV1 { send_buffer_bytes: Some(u64_from_usize(send_buffer)) }),
            rx: Some(
                RxCandidateV1 {
                    receive_buffer_bytes: Some(u64_from_usize(receive_buffer)),
                    receive_batch: Some(receive_batch as u16),
                },
            ),
            cover: Some(
                CoverCandidateV1 {
                    profile: Some(filtered.cover_profile()),
                    overhead_per_mille: Some(cover_overhead),
                },
            ),
        }
    }
}

/// The candidate that an override stands for: a preset brings its full
/// proposal, and only the given fields are set.
pub open spec fn forced_candidate(forced: ForcedActionV2, controller_bw: u64) -> CandidateActionV1 {
    CandidateActionV1 {
        bbr: match forced.bbr_preset {
            Some(preset) => Some(
                bbr_candidate_of(Bbr3ProposalV2::spec_for_preset(preset, controller_bw)),
            ),
            None => None,
        },
        scheduler: if forced.train_target_bytes is None && forced.bulk_quantum_cells is None {
            None
        } else {
            Some(
                SchedulerCandidateV1 {
                    train_target_bytes: match forced.train_target_bytes {
                        Some(bytes) => Some(sat_u32(bytes as int) as u32),
                        None => None,
                    },
                    bulk_quantum_cells: match forced.bulk_quantum_cells {
                        Some(cells) => Some(sat_u16(cells as int) as u16),
                        None => None,
                    },
                },
            )
        },
        fec: match forced.fec {
            Some(geometry) => Some(fec_candidate_of(geometry)),
            None => None,
        },
        tx: None,
        rx: None,
        cover: if forced.cover_profile is None && forced.cover_overhead_per_mille is None {
            None
        } else {
            Some(
                CoverCandidateV1 {
                    profile: forced.cover_profile,
                    overhead_per_mille: forced.cover_overhead_per_mille,
                },
            )
        },
    }
}

impl ForcedActionV2 {
    /// Express an experiment/learned override as an untrusted candidate.
    /// Only the fields the override sets are filled; `bbr_preset` expands to
    /// the preset's full proposal (the Policer pacing cap is derived from the
    /// live `controller_bw_bytes_per_second`).
    pub fn to_candidate(self, controller_bw_bytes_per_second: u64) -> (r: CandidateActionV1)
        ensures
            r == forced_candidate(self, controller_bw_bytes_per_second),
    {
        let scheduler: Option<SchedulerCandidateV1> = if self.train_target_bytes.is_some()
            || self.bulk_quantum_cells.is_some() {
            Some(
                SchedulerCandidateV1 {
                    train_target_bytes: match self.train_target_bytes {
                        Some(bytes) => Some(u32_from_usize(bytes)),
                        None => None,
                    },
                    bulk_quantum_cells: match self.bulk_quantum_cells {
                        Some(cells) => Some(u16_from_usize(cells)),
                        None => None,
                    },
                },
            )
        } else {
            None
        };
        let cover: Option<CoverCandidateV1> = if self.cover_profile.is_some()
            || self.cover_overhead_per_mille.is_some() {
            Some(
                CoverCandidateV1 {
                    profile: self.cover_profile,
                    overhead_per_mille: self.cover_overhead_per_mille,
                },
            )
        } else {
            None
        };
        CandidateActionV1 {
            bbr: match self.bbr_preset {
                Some(preset) => Some(
                    bbr_candidate(
                        &Bbr3ProposalV2::for_preset(preset, controller_bw_bytes_per_second),
                    ),
                ),
                None => None,
            },
            scheduler,
            fec: match self.fec {
                Some(geometry) => Some(fec_candidate(geometry)),
                None => None,
            },
            tx: None,
            rx: None,
            cover,
        }
    }
}

/// The rules never spend parity on a congested path.
pub proof fn lemma_native_fec_off_under_congestion(f: FilteredTelemetryV1)
    requires
        f.congested(),
    ensures
        native_fec(f) is None,
{
}

/// The rules never spend parity on a completely idle direction, nor before the
/// loss classifier is armed.
pub proof fn lemma_native_fec_needs_evidence(f: FilteredTelemetryV1)
    requires
        !f.protection_evidence(),
    ensures
        native_fec(f) is None,
{
}

/// Every stripe that the rules propose is a valid geometry, and all but the
/// densest tier (loss of at least eight percent on a long path) stay within
/// half of the data in overhead.
pub proof fn lemma_native_fec_is_bounded(f: FilteredTelemetryV1)
    ensures
        native_fec(f) matches Some(geometry) ==> {
            &&& geometry.is_valid()
            &&& geometry.within_half_overhead() || (f.loss_ppm >= 80_000 && f.rtt_micros
                >= 80_000)
        },
{
}

/// On a path with short feedback, every proposed stripe is eight plus one.
pub proof fn lemma_short_feedback_keeps_eight_plus_one(f: FilteredTelemetryV1)
    requires
        f.rtt_micros < 80_000,
    ensures
        native_fec(f) is Some ==> native_fec(f) == stripe(8, 1),
{
}

/// Outgoing capacity does not move the receive window, and incoming capacity
/// does not move the producer window.
pub proof fn lemma_directions_are_sized_independently(
    a: FilteredTelemetryV1,
    b: FilteredTelemetryV1,
    limits: HostLimitsV1,
)
    requires
        a.min_rtt_micros == b.min_rtt_micros,
    ensures
        a.receive_rate_bytes_per_second == b.receive_rate_bytes_per_second
            && a.receive_pressure_floor_bytes == b.receive_pressure_floor_bytes
            ==> native_receive_buffer(a, limits) == native_receive_buffer(b, limits),
        a.delivery_rate_bytes_per_second == b.delivery_rate_bytes_per_second && a.cpu_per_mille
            == b.cpu_per_mille && a.raw.latency_queue_bytes == b.raw.latency_queue_bytes
            && a.raw.packet_train_queue_bytes == b.raw.packet_train_queue_bytes
            ==> native_send_buffer(a, limits) == native_send_buffer(b, limits),
{
}

/// What the rules propose already lies inside the host limits.
pub proof fn lemma_native_proposal_is_inside_the_limits(
    f: FilteredTelemetryV1,
    limits: HostLimitsV1,
)
    requires
        limits.wf(),
    ensures
        limits.train_target_floor_bytes <= native_train(f, limits)
            <= limits.train_target_cap_bytes,
        sat_usize(limits.send_buffer_floor_bytes as int) <= native_send_buffer(f, limits)
            <= limits.send_buffer_cap_bytes,
        f.receive_pressure_floor_bytes <= limits.receive_buffer_cap_bytes ==> sat_usize(
            limits.receive_buffer_floor_bytes as int,
        ) <= native_receive_buffer(f, limits) <= limits.receive_buffer_cap_bytes,
        1 <= native_receive_batch(f, limits) <= max_int(limits.receive_batch_cap as int, 1),
{
}

} // verus!

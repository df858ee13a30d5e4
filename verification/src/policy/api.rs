//! The action space shared by the native rules, learned policies and the host:
//! optional candidates, complete effective actions and clamp reports.

use vstd::prelude::*;

use crate::fec::FecGeometryV2;
use crate::num::{min_int, sat_u64, sat_usize};
use crate::num::{u64_from_usize, usize_from_u64};
use crate::tuning::{
    AutoTuneBoundsV2, Bbr3PresetV2, Bbr3ProposalV2, CoverTrafficProfileV2, RepairWaitPolicyV2,
    TuneDecisionV2, TuneReasonV2,
};

verus! {

/// Congestion-window floor of the host/datacenter preset.
pub const LOW_RTT_CWND_FLOOR_BYTES: u64 = 524_288;

/// Hard limits of the host.
#[derive(Clone, Copy, Debug, PartialEq, Eq, Structural)]
pub struct HostLimitsV1 {
    pub train_target_floor_bytes: u32,
    pub train_target_cap_bytes: u32,
    pub send_buffer_floor_bytes: u64,
    pub send_buffer_cap_bytes: u64,
    pub receive_buffer_floor_bytes: u64,
    pub receive_buffer_cap_bytes: u64,
    pub receive_batch_cap: u16,
    pub cover_overhead_cap_per_mille: u16,
}

/// `x` cut off at the largest `u32`.
pub open spec fn sat_u32(x: int) -> int {
    min_int(x, u32::MAX as int)
}

/// `x` cut off at the largest `u16`.
pub open spec fn sat_u16(x: int) -> int {
    min_int(x, u16::MAX as int)
}

/// `value` as a `u32`, cut off at the largest one.
pub fn u32_from_usize(value: usize) -> (r: u32)
    ensures
        r == sat_u32(value as int),
{
    match u32::try_from(value) {
        Ok(word) => word,
        Err(_) => u32::MAX,
    }
}

/// `value` as a `u16`, cut off at the largest one.
pub fn u16_from_usize(value: usize) -> (r: u16)
    ensures
        r == sat_u16(value as int),
{
    match u16::try_from(value) {
        Ok(word) => word,
        Err(_) => u16::MAX,
    }
}

/// `value` as a `u8`, cut off at the largest one.
pub fn u8_from_usize(value: usize) -> (r: u8)
    ensures
        r == min_int(value as int, 255),
{
    match u8::try_from(value) {
        Ok(word) => word,
        Err(_) => u8::MAX,
    }
}

impl HostLimitsV1 {
    /// Every floor lies below its cap.
    pub open spec fn wf(&self) -> bool {
        &&& self.train_target_floor_bytes <= self.train_target_cap_bytes
        &&& self.send_buffer_floor_bytes <= self.send_buffer_cap_bytes
        &&& self.receive_buffer_floor_bytes <= self.receive_buffer_cap_bytes
    }

    /// The limits that a set of tuner bounds stands for.
    pub open spec fn spec_from_bounds(bounds: AutoTuneBoundsV2) -> HostLimitsV1 {
        HostLimitsV1 {
            train_target_floor_bytes: sat_u32(bounds.minimum_train_bytes as int) as u32,
            train_target_cap_bytes: sat_u32(bounds.maximum_train_bytes as int) as u32,
            send_buffer_floor_bytes: bounds.minimum_socket_buffer_bytes as u64,
            send_buffer_cap_bytes: bounds.maximum_socket_buffer_bytes as u64,
            receive_buffer_floor_bytes: bounds.minimum_receive_buffer_bytes as u64,
            receive_buffer_cap_bytes: bounds.maximum_socket_buffer_bytes as u64,
            receive_batch_cap: sat_u16(bounds.maximum_receive_batch as int) as u16,
            cover_overhead_cap_per_mille: bounds.maximum_cover_overhead_per_mille,
        }
    }

    /// The limits that a set of tuner bounds stands for.
    pub fn from_bounds(bounds: &AutoTuneBoundsV2) -> (r: HostLimitsV1)
        ensures
            r == HostLimitsV1::spec_from_bounds(*bounds),
            bounds.wf() ==> r.wf(),
    {
        HostLimitsV1 {
            train_target_floor_bytes: u32_from_usize(bounds.minimum_train_bytes),
            train_target_cap_bytes: u32_from_usize(bounds.maximum_train_bytes),
            send_buffer_floor_bytes: u64_from_usize(bounds.minimum_socket_buffer_bytes),
            send_buffer_cap_bytes: u64_from_usize(bounds.maximum_socket_buffer_bytes),
            receive_buffer_floor_bytes: u64_from_usize(bounds.minimum_receive_buffer_bytes),
            receive_buffer_cap_bytes: u64_from_usize(bounds.maximum_socket_buffer_bytes),
            receive_batch_cap: u16_from_usize(bounds.maximum_receive_batch),
            cover_overhead_cap_per_mille: bounds.maximum_cover_overhead_per_mille,
        }
    }
}

impl Default for HostLimitsV1 {
    /// The limits of the default tuner bounds.
    fn default() -> (r: HostLimitsV1)
        ensures
            r.wf(),
            r.train_target_floor_bytes == 8 * 1024,
            r.train_target_cap_bytes == 64 * 1024,
            r.send_buffer_floor_bytes == 512 * 1024,
            r.send_buffer_cap_bytes == 32 * 1024 * 1024,
            r.receive_buffer_floor_bytes == 8 * 1024 * 1024,
            r.receive_buffer_cap_bytes == 32 * 1024 * 1024,
            r.receive_batch_cap == 64,
            r.cover_overhead_cap_per_mille == 50,
    {
        HostLimitsV1 {
            train_target_floor_bytes: 8 * 1024,
            train_target_cap_bytes: 64 * 1024,
            send_buffer_floor_bytes: 512 * 1024,
            send_buffer_cap_bytes: 32 * 1024 * 1024,
            receive_buffer_floor_bytes: 8 * 1024 * 1024,
            receive_buffer_cap_bytes: 32 * 1024 * 1024,
            receive_batch_cap: 64,
            cover_overhead_cap_per_mille: 50,
        }
    }
}

/// Congestion-controller part of a candidate. A named preset brings its whole
/// static profile; the other fields then replace single values.
#[derive(Clone, Copy, Debug, PartialEq, Eq, Structural)]
pub struct BbrCandidateV1 {
    pub preset: Option<Bbr3PresetV2>,
    pub probe_bw_up_pacing_gain_milli: Option<u32>,
    pub default_cwnd_gain_milli: Option<u32>,
    pub headroom_milli: Option<u32>,
    pub loss_is_congestion: Option<bool>,
    pub pacing_cap_bytes_per_second: Option<u64>,
}

/// Scheduler part of a candidate.
#[derive(Clone, Copy, Debug, PartialEq, Eq, Structural)]
pub struct SchedulerCandidateV1 {
    pub train_target_bytes: Option<u32>,
    pub bulk_quantum_cells: Option<u16>,
}

/// Protection part of a candidate.
#[derive(Clone, Copy, Debug, PartialEq, Eq, Structural)]
pub struct FecCandidateV1 {
    pub enabled: Option<bool>,
    pub data_cells: Option<u8>,
    pub parity_cells: Option<u8>,
}

/// Outgoing-buffer part of a candidate.
#[derive(Clone, Copy, Debug, PartialEq, Eq, Structural)]
pub struct TxCandidateV1 {
    pub send_buffer_bytes: Option<u64>,
}

/// Incoming-buffer part of a candidate.
#[derive(Clone, Copy, Debug, PartialEq, Eq, Structural)]
pub struct RxCandidateV1 {
    pub receive_buffer_bytes: Option<u64>,
    pub receive_batch: Option<u16>,
}

/// Cover-traffic part of a candidate.
#[derive(Clone, Copy, Debug, PartialEq, Eq, Structural)]
pub struct CoverCandidateV1 {
    pub profile: Option<CoverTrafficProfileV2>,
    pub overhead_per_mille: Option<u16>,
}

/// An untrusted proposal: every domain and every field is optional. Host
/// derived values (Repair cache, cover padding) are not part of it.
#[derive(Clone, Copy, Debug, PartialEq, Eq, Structural)]
pub struct CandidateActionV1 {
    pub bbr: Option<BbrCandidateV1>,
    pub scheduler: Option<SchedulerCandidateV1>,
    pub fec: Option<FecCandidateV1>,
    pub tx: Option<TxCandidateV1>,
    pub rx: Option<RxCandidateV1>,
    pub cover: Option<CoverCandidateV1>,
}

/// Complete congestion-controller settings.
#[derive(Clone, Copy, Debug, PartialEq, Eq, Structural)]
pub struct BbrEffectiveV1 {
    pub preset: Bbr3PresetV2,
    pub probe_bw_up_pacing_gain_milli: u32,
    pub probe_bw_down_pacing_gain_milli: u32,
    pub cruise_pacing_gain_milli: u32,
    pub default_cwnd_gain_milli: u32,
    pub probe_bw_up_cwnd_gain_milli: u32,
    pub headroom_milli: u32,
    pub beta_milli: u32,
    pub loss_threshold_milli: u32,
    pub loss_is_congestion: bool,
    pub queue_guard_inflation_milli: u32,
    pub queue_guard_slack_micros: u64,
    pub probe_rtt_interval_millis: u64,
    pub probe_rtt_duration_millis: u64,
    pub probe_rtt_cwnd_gain_milli: u32,
    pub min_probe_wait_millis: u64,
    pub max_added_probe_wait_millis: u64,
    pub pacing_cap_bytes_per_second: u64,
    pub cwnd_floor_bytes: u64,
    pub cwnd_cap_bytes: u64,
    pub startup_bw_hint_bytes_per_second: u64,
}

impl BbrEffectiveV1 {
    /// The complete settings behind a proposal: the proposal's own values, the
    /// controller defaults elsewhere, and the window floor of the host preset.
    pub open spec fn spec_from_proposal(proposal: Bbr3ProposalV2) -> BbrEffectiveV1 {
        BbrEffectiveV1 {
            preset: proposal.preset,
            probe_bw_up_pacing_gain_milli: proposal.up_gain_milli,
            probe_bw_down_pacing_gain_milli: 900,
            cruise_pacing_gain_milli: 1_000,
            default_cwnd_gain_milli: proposal.cwnd_gain_milli,
            probe_bw_up_cwnd_gain_milli: 2_250,
            headroom_milli: proposal.headroom_milli,
            beta_milli: 700,
            loss_threshold_milli: 20,
            loss_is_congestion: proposal.loss_is_congestion,
            queue_guard_inflation_milli: 500,
            queue_guard_slack_micros: 5_000,
            probe_rtt_interval_millis: 5_000,
            probe_rtt_duration_millis: 200,
            probe_rtt_cwnd_gain_milli: 500,
            min_probe_wait_millis: 2_000,
            max_added_probe_wait_millis: 1_000,
            pacing_cap_bytes_per_second: proposal.pacing_cap_bytes_per_second,
            cwnd_floor_bytes: if proposal.preset == Bbr3PresetV2::LowRttHost {
                LOW_RTT_CWND_FLOOR_BYTES
            } else {
                0
            },
            cwnd_cap_bytes: 0,
            startup_bw_hint_bytes_per_second: 0,
        }
    }

    /// The complete settings behind a proposal.
    pub fn from_proposal(proposal: &Bbr3ProposalV2) -> (r: BbrEffectiveV1)
        ensures
            r == BbrEffectiveV1::spec_from_proposal(*proposal),
    {
        BbrEffectiveV1 {
            preset: proposal.preset,
            probe_bw_up_pacing_gain_milli: proposal.up_gain_milli,
            probe_bw_down_pacing_gain_milli: 900,
            cruise_pacing_gain_milli: 1_000,
            default_cwnd_gain_milli: proposal.cwnd_gain_milli,
            probe_bw_up_cwnd_gain_milli: 2_250,
            headroom_milli: proposal.headroom_milli,
            beta_milli: 700,
            loss_threshold_milli: 20,
            loss_is_congestion: proposal.loss_is_congestion,
            queue_guard_inflation_milli: 500,
            queue_guard_slack_micros: 5_000,
            probe_rtt_interval_millis: 5_000,
            probe_rtt_duration_millis: 200,
            probe_rtt_cwnd_gain_milli: 500,
            min_probe_wait_millis: 2_000,
            max_added_probe_wait_millis: 1_000,
            pacing_cap_bytes_per_second: proposal.pacing_cap_bytes_per_second,
            cwnd_floor_bytes: if proposal.preset == Bbr3PresetV2::LowRttHost {
                LOW_RTT_CWND_FLOOR_BYTES
            } else {
                0
            },
            cwnd_cap_bytes: 0,
            startup_bw_hint_bytes_per_second: 0,
        }
    }

    /// The proposal that these settings carry.
    pub open spec fn spec_to_proposal(&self) -> Bbr3ProposalV2 {
        Bbr3ProposalV2 {
            preset: self.preset,
            up_gain_milli: self.probe_bw_up_pacing_gain_milli,
            headroom_milli: self.headroom_milli,
            cwnd_gain_milli: self.default_cwnd_gain_milli,
            pacing_cap_bytes_per_second: self.pacing_cap_bytes_per_second,
            loss_is_congestion: self.loss_is_congestion,
        }
    }

    /// The proposal that these settings carry.
    pub fn to_proposal(&self) -> (r: Bbr3ProposalV2)
        ensures
            r == self.spec_to_proposal(),
    {
        Bbr3ProposalV2 {
            preset: self.preset,
            up_gain_milli: self.probe_bw_up_pacing_gain_milli,
            headroom_milli: self.headroom_milli,
            cwnd_gain_milli: self.default_cwnd_gain_milli,
            pacing_cap_bytes_per_second: self.pacing_cap_bytes_per_second,
            loss_is_congestion: self.loss_is_congestion,
        }
    }
}

/// Effective scheduler batching.
#[derive(Clone, Copy, Debug, PartialEq, Eq, Structural)]
pub struct SchedulerEffectiveV1 {
    pub train_target_bytes: u32,
    pub bulk_quantum_cells: u16,
}

/// Effective Repair settings.
#[derive(Clone, Copy, Debug, PartialEq, Eq, Structural)]
pub struct RepairEffectiveV1 {
    pub cache_bytes: u64,
    pub retention_millis: u32,
    pub wait_policy: RepairWaitPolicyV2,
}

/// Effective incoming buffers.
#[derive(Clone, Copy, Debug, PartialEq, Eq, Structural)]
pub struct RxEffectiveV1 {
    pub receive_buffer_bytes: u64,
    pub receive_batch: u16,
    pub reassembly_budget_bytes: u64,
    pub active_train_budget: u16,
}

/// Effective cover traffic.
#[derive(Clone, Copy, Debug, PartialEq, Eq, Structural)]
pub struct CoverEffectiveV1 {
    pub profile: CoverTrafficProfileV2,
    pub overhead_per_mille: u16,
    pub padding_bytes_per_second: u64,
}

/// The complete action in effect.
#[derive(Clone, Copy, Debug, PartialEq, Eq, Structural)]
pub struct EffectiveActionV1 {
    pub reason: TuneReasonV2,
    pub path_epoch: u64,
    pub sample_count: u32,
    pub bbr: BbrEffectiveV1,
    pub scheduler: SchedulerEffectiveV1,
    pub fec: Option<FecGeometryV2>,
    pub repair: RepairEffectiveV1,
    pub send_buffer_bytes: u64,
    pub rx: RxEffectiveV1,
    pub cover: CoverEffectiveV1,
}

impl EffectiveActionV1 {
    /// The action that a decision stands for; counts wider than their field
    /// are cut off.
    pub open spec fn spec_from_tune_decision(decision: TuneDecisionV2) -> EffectiveActionV1 {
        EffectiveActionV1 {
            reason: decision.reason,
            path_epoch: decision.path_epoch,
            sample_count: decision.sample_count,
            bbr: BbrEffectiveV1::spec_from_proposal(decision.bbr),
            scheduler: SchedulerEffectiveV1 {
                train_target_bytes: sat_u32(decision.train_target_bytes as int) as u32,
                bulk_quantum_cells: sat_u16(decision.bulk_quantum_cells as int) as u16,
            },
            fec: decision.fec,
            repair: RepairEffectiveV1 {
                cache_bytes: decision.repair_cache_bytes as u64,
                retention_millis: decision.repair_retention_millis,
                wait_policy: decision.repair_wait_policy,
            },
            send_buffer_bytes: decision.send_buffer_bytes as u64,
            rx: RxEffectiveV1 {
                receive_buffer_bytes: decision.receive_buffer_bytes as u64,
                receive_batch: sat_u16(decision.receive_batch as int) as u16,
                reassembly_budget_bytes: decision.reassembly_budget_bytes as u64,
                active_train_budget: decision.active_train_budget,
            },
            cover: CoverEffectiveV1 {
                profile: decision.cover_profile,
                overhead_per_mille: decision.cover_overhead_per_mille,
                padding_bytes_per_second: decision.cover_padding_bytes_per_second,
            },
        }
    }

    /// The action that a decision stands for.
    pub fn from_tune_decision(decision: &TuneDecisionV2) -> (r: EffectiveActionV1)
        ensures
            r == EffectiveActionV1::spec_from_tune_decision(*decision),
    {
        EffectiveActionV1 {
            reason: decision.reason,
            path_epoch: decision.path_epoch,
            sample_count: decision.sample_count,
            bbr: BbrEffectiveV1::from_proposal(&decision.bbr),
            scheduler: SchedulerEffectiveV1 {
                train_target_bytes: u32_from_usize(decision.train_target_bytes),
                bulk_quantum_cells: u16_from_usize(decision.bulk_quantum_cells),
            },
            fec: decision.fec,
            repair: RepairEffectiveV1 {
                cache_bytes: u64_from_usize(decision.repair_cache_bytes),
                retention_millis: decision.repair_retention_millis,
                wait_policy: decision.repair_wait_policy,
            },
            send_buffer_bytes: u64_from_usize(decision.send_buffer_bytes),
            rx: RxEffectiveV1 {
                receive_buffer_bytes: u64_from_usize(decision.receive_buffer_bytes),
                receive_batch: u16_from_usize(decision.receive_batch),
                reassembly_budget_bytes: u64_from_usize(decision.reassembly_budget_bytes),
                active_train_budget: decision.active_train_budget,
            },
            cover: CoverEffectiveV1 {
                profile: decision.cover_profile,
                overhead_per_mille: decision.cover_overhead_per_mille,
                padding_bytes_per_second: decision.cover_padding_bytes_per_second,
            },
        }
    }

    /// The decision that the dataplane applies for this action.
    pub open spec fn spec_to_tune_decision(&self) -> TuneDecisionV2 {
        TuneDecisionV2 {
            reason: self.reason,
            path_epoch: self.path_epoch,
            sample_count: self.sample_count,
            train_target_bytes: self.scheduler.train_target_bytes as usize,
            bulk_quantum_cells: self.scheduler.bulk_quantum_cells as usize,
            fec: self.fec,
            repair_cache_bytes: sat_usize(self.repair.cache_bytes as int) as usize,
            repair_retention_millis: self.repair.retention_millis,
            repair_wait_policy: self.repair.wait_policy,
            send_buffer_bytes: sat_usize(self.send_buffer_bytes as int) as usize,
            receive_buffer_bytes: sat_usize(self.rx.receive_buffer_bytes as int) as usize,
            reassembly_budget_bytes: sat_usize(self.rx.reassembly_budget_bytes as int) as usize,
            active_train_budget: self.rx.active_train_budget,
            receive_batch: self.rx.receive_batch as usize,
            cover_profile: self.cover.profile,
            cover_overhead_per_mille: self.cover.overhead_per_mille,
            cover_padding_bytes_per_second: self.cover.padding_bytes_per_second,
            bbr: self.bbr.spec_to_proposal(),
        }
    }

    /// The decision that the dataplane applies for this action.
    pub fn to_tune_decision(&self) -> (r: TuneDecisionV2)
        ensures
            r == self.spec_to_tune_decision(),
    {
        TuneDecisionV2 {
            reason: self.reason,
            path_epoch: self.path_epoch,
            sample_count: self.sample_count,
            train_target_bytes: self.scheduler.train_target_bytes as usize,
            bulk_quantum_cells: self.scheduler.bulk_quantum_cells as usize,
            fec: self.fec,
            repair_cache_bytes: usize_from_u64(self.repair.cache_bytes),
            repair_retention_millis: self.repair.retention_millis,
            repair_wait_policy: self.repair.wait_policy,
            send_buffer_bytes: usize_from_u64(self.send_buffer_bytes),
            receive_buffer_bytes: usize_from_u64(self.rx.receive_buffer_bytes),
            reassembly_budget_bytes: usize_from_u64(self.rx.reassembly_budget_bytes),
            active_train_budget: self.rx.active_train_budget,
            receive_batch: self.rx.receive_batch as usize,
            cover_profile: self.cover.profile,
            cover_overhead_per_mille: self.cover.overhead_per_mille,
            cover_padding_bytes_per_second: self.cover.padding_bytes_per_second,
            bbr: self.bbr.to_proposal(),
        }
    }
}

/// A decision whose counts fit their fields survives the way through its
/// action and back unchanged.
pub proof fn lemma_decision_round_trips(decision: TuneDecisionV2)
    requires
        decision.train_target_bytes <= u32::MAX,
        decision.bulk_quantum_cells <= u16::MAX,
        decision.receive_batch <= u16::MAX,
    ensures
        EffectiveActionV1::spec_from_tune_decision(decision).spec_to_tune_decision() == decision,
{
}

/// The value of an optional field, or the base's where it is unset.
pub open spec fn or_base<T>(field: Option<T>, base: T) -> T {
    match field {
        Some(value) => value,
        None => base,
    }
}

impl BbrCandidateV1 {
    /// The candidate that names nothing.
    pub open spec fn nothing() -> BbrCandidateV1 {
        BbrCandidateV1 {
            preset: None,
            probe_bw_up_pacing_gain_milli: None,
            default_cwnd_gain_milli: None,
            headroom_milli: None,
            loss_is_congestion: None,
            pacing_cap_bytes_per_second: None,
        }
    }

    /// A named preset starts from its own static profile, otherwise the base
    /// does; the given fields then replace single values.
    pub open spec fn spec_apply_over(&self, base: BbrEffectiveV1) -> BbrEffectiveV1 {
        let start = match self.preset {
            Some(preset) => BbrEffectiveV1::spec_from_proposal(
                Bbr3ProposalV2::spec_for_preset(preset, 0),
            ),
            None => base,
        };
        BbrEffectiveV1 {
            probe_bw_up_pacing_gain_milli: or_base(
                self.probe_bw_up_pacing_gain_milli,
                start.probe_bw_up_pacing_gain_milli,
            ),
            default_cwnd_gain_milli: or_base(
                self.default_cwnd_gain_milli,
                start.default_cwnd_gain_milli,
            ),
            headroom_milli: or_base(self.headroom_milli, start.headroom_milli),
            loss_is_congestion: or_base(self.loss_is_congestion, start.loss_is_congestion),
            pacing_cap_bytes_per_second: or_base(
                self.pacing_cap_bytes_per_second,
                start.pacing_cap_bytes_per_second,
            ),
            ..start
        }
    }

    /// This candidate over `base`.
    pub fn apply_over(&self, base: &BbrEffectiveV1) -> (r: BbrEffectiveV1)
        ensures
            r == self.spec_apply_over(*base),
    {
        let mut out: BbrEffectiveV1 = match self.preset {
            Some(preset) => BbrEffectiveV1::from_proposal(&Bbr3ProposalV2::for_preset(preset, 0)),
            None => *base,
        };
        if let Some(gain) = self.probe_bw_up_pacing_gain_milli {
            out.probe_bw_up_pacing_gain_milli = gain;
        }
        if let Some(gain) = self.default_cwnd_gain_milli {
            out.default_cwnd_gain_milli = gain;
        }
        if let Some(headroom) = self.headroom_milli {
            out.headroom_milli = headroom;
        }
        if let Some(loss) = self.loss_is_congestion {
            out.loss_is_congestion = loss;
        }
        if let Some(cap) = self.pacing_cap_bytes_per_second {
            out.pacing_cap_bytes_per_second = cap;
        }
        out
    }
}

impl FecCandidateV1 {
    /// The geometry that the candidate asks for over `base`: off where it says
    /// so, its own counts where it names both, the base otherwise.
    pub open spec fn spec_apply_over(&self, base: Option<FecGeometryV2>) -> Option<FecGeometryV2> {
        if self.enabled == Some(false) {
            None
        } else {
            match (self.data_cells, self.parity_cells) {
                (Some(data), Some(parity)) => Some(
                    FecGeometryV2 { data_cells: data as usize, parity_cells: parity as usize },
                ),
                _ => base,
            }
        }
    }

    /// This candidate over `base`.
    pub fn apply_over(&self, base: Option<FecGeometryV2>) -> (r: Option<FecGeometryV2>)
        ensures
            r == self.spec_apply_over(base),
    {
        if let Some(enabled) = self.enabled {
            if !enabled {
                return None;
            }
        }
        if let Some(data) = self.data_cells {
            if let Some(parity) = self.parity_cells {
                return Some(
                    FecGeometryV2 { data_cells: data as usize, parity_cells: parity as usize },
                );
            }
        }
        base
    }
}

impl CandidateActionV1 {
    /// The candidate's values over `base`, unset fields taken from it.
    pub open spec fn spec_apply_over(&self, base: EffectiveActionV1) -> EffectiveActionV1 {
        EffectiveActionV1 {
            bbr: match self.bbr {
                Some(bbr) => bbr.spec_apply_over(base.bbr),
                None => base.bbr,
            },
            scheduler: match self.scheduler {
                Some(scheduler) => SchedulerEffectiveV1 {
                    train_target_bytes: or_base(
                        scheduler.train_target_bytes,
                        base.scheduler.train_target_bytes,
                    ),
                    bulk_quantum_cells: or_base(
                        scheduler.bulk_quantum_cells,
                        base.scheduler.bulk_quantum_cells,
                    ),
                },
                None => base.scheduler,
            },
            fec: match self.fec {
                Some(fec) => fec.spec_apply_over(base.fec),
                None => base.fec,
            },
            send_buffer_bytes: match self.tx {
                Some(tx) => or_base(tx.send_buffer_bytes, base.send_buffer_bytes),
                None => base.send_buffer_bytes,
            },
            rx: match self.rx {
                Some(rx) => RxEffectiveV1 {
                    receive_buffer_bytes: or_base(
                        rx.receive_buffer_bytes,
                        base.rx.receive_buffer_bytes,
                    ),
                    receive_batch: or_base(rx.receive_batch, base.rx.receive_batch),
                    ..base.rx
                },
                None => base.rx,
            },
            cover: match self.cover {
                Some(cover) => CoverEffectiveV1 {
                    profile: or_base(cover.profile, base.cover.profile),
                    overhead_per_mille: or_base(
                        cover.overhead_per_mille,
                        base.cover.overhead_per_mille,
                    ),
                    ..base.cover
                },
                None => base.cover,
            },
            ..base
        }
    }

    /// The candidate's values over `base`, unset fields taken from it.
    pub fn apply_over(&self, base: &EffectiveActionV1) -> (r: EffectiveActionV1)
        ensures
            r == self.spec_apply_over(*base),
    {
        let mut out: EffectiveActionV1 = *base;
        if let Some(bbr) = self.bbr {
            out.bbr = bbr.apply_over(&base.bbr);
        }
        if let Some(scheduler) = self.scheduler {
            if let Some(bytes) = scheduler.train_target_bytes {
                out.scheduler.train_target_bytes = bytes;
            }
            if let Some(cells) = scheduler.bulk_quantum_cells {
                out.scheduler.bulk_quantum_cells = cells;
            }
        }
        if let Some(fec) = self.fec {
            out.fec = fec.apply_over(base.fec);
        }
        if let Some(tx) = self.tx {
            if let Some(bytes) = tx.send_buffer_bytes {
                out.send_buffer_bytes = bytes;
            }
        }
        if let Some(rx) = self.rx {
            if let Some(bytes) = rx.receive_buffer_bytes {
                out.rx.receive_buffer_bytes = bytes;
            }
            if let Some(batch) = rx.receive_batch {
                out.rx.receive_batch = batch;
            }
        }
        if let Some(cover) = self.cover {
            if let Some(profile) = cover.profile {
                out.cover.profile = profile;
            }
            if let Some(overhead) = cover.overhead_per_mille {
                out.cover.overhead_per_mille = overhead;
            }
        }
        out
    }
}

/// The field that a clamp entry speaks of.
#[derive(Clone, Copy, Debug, PartialEq, Eq, Structural)]
pub enum ClampFieldV1 {
    SchedulerTrainTargetBytes,
    SchedulerBulkQuantumCells,
    FecGeometry,
    TxSendBufferBytes,
    RxReceiveBufferBytes,
    RxReceiveBatch,
    CoverOverheadPerMille,
}

/// Why a requested value was not taken over.
#[derive(Clone, Copy, Debug, PartialEq, Eq, Structural)]
pub enum ClampReasonV1 {
    BelowFloor,
    AboveCap,
    CpuPressure,
    QueuePressure,
    LossPressure,
    LatencyQueue,
    Idle,
    ReliablePath,
    ProtectionEmergency,
    InvalidGeometry,
    TransitionHold,
}

/// One requested value and what became of it.
#[derive(Clone, Copy, Debug, PartialEq, Eq, Structural)]
pub struct ClampEntryV1 {
    pub field: ClampFieldV1,
    pub requested: u64,
    pub effective: u64,
    pub reason: ClampReasonV1,
}

/// Every clamp and hold of one derivation, in the order they were applied.
#[derive(Debug)]
pub struct ClampReportV1 {
    pub entries: Vec<ClampEntryV1>,
}

impl Default for ClampReportV1 {
    fn default() -> (r: ClampReportV1)
        ensures
            r.entries@ == Seq::<ClampEntryV1>::empty(),
    {
        ClampReportV1 { entries: Vec::new() }
    }
}

/// The entries that one field leaves behind: none where the requested value
/// was taken over, one otherwise.
pub open spec fn clamp_entry(
    field: ClampFieldV1,
    requested: u64,
    effective: u64,
    reason: ClampReasonV1,
) -> Seq<ClampEntryV1> {
    if requested == effective {
        Seq::empty()
    } else {
        seq![ClampEntryV1 { field, requested, effective, reason }]
    }
}

impl ClampReportV1 {
    /// Nothing was clamped or held.
    pub fn is_empty(&self) -> (r: bool)
        ensures
            r == (self.entries@.len() == 0),
    {
        self.entries.len() == 0
    }

    /// Record a field whose requested value was not taken over.
    pub fn record(
        &mut self,
        field: ClampFieldV1,
        requested: u64,
        effective: u64,
        reason: ClampReasonV1,
    )
        ensures
            final(self).entries@ == old(self).entries@ + clamp_entry(
                field,
                requested,
                effective,
                reason,
            ),
    {
        if requested != effective {
            self.entries.push(ClampEntryV1 { field, requested, effective, reason });
        }
        assert(self.entries@ =~= old(self).entries@ + clamp_entry(
            field,
            requested,
            effective,
            reason,
        ));
    }

    /// Append the entries of another report.
    pub fn extend(&mut self, other: &ClampReportV1)
        ensures
            final(self).entries@ == old(self).entries@ + other.entries@,
    {
        let mut index: usize = 0;
        while index < other.entries.len()
            invariant
                index <= other.entries@.len(),
                self.entries@ == old(self).entries@ + other.entries@.take(index as int),
            decreases other.entries@.len() - index,
        {
            self.entries.push(other.entries[index]);
            proof {
                assert(other.entries@.take(index as int + 1) =~= other.entries@.take(
                    index as int,
                ).push(other.entries@[index as int]));
            }
            index = index + 1;
        }
        assert(other.entries@.take(index as int) =~= other.entries@);
    }
}

/// A geometry as one number for a report: zero for none.
pub open spec fn geometry_code(fec: Option<FecGeometryV2>) -> u64 {
    match fec {
        Some(geometry) => sat_u64(
            sat_u64(geometry.data_cells * 1_000) + geometry.parity_cells,
        ) as u64,
        None => 0,
    }
}

/// A geometry as one number for a report.
pub fn encode_geometry(fec: Option<FecGeometryV2>) -> (r: u64)
    ensures
        r == geometry_code(fec),
{
    match fec {
        Some(geometry) => crate::num::saturating_mul_u64(
            u64_from_usize(geometry.data_cells),
            1_000,
        ).saturating_add(u64_from_usize(geometry.parity_cells)),
        None => 0,
    }
}

} // verus!

//! Automatic transport tuning: telemetry, decisions and the pipeline between
//! them.

use vstd::prelude::*;

use crate::fec::FecGeometryV2;
use crate::num::{clamp_int, clamp_usize, max_int, min_int, sat_u64};
use crate::num::{saturating_mul_u64, u64_from_u128};
use crate::time::Duration;

pub mod filter;
pub mod filtered;
pub mod laws;
pub mod native;
pub mod tuner;

verus! {

/// Least growth of the receive window under reassembly pressure.
pub const RECEIVE_PRESSURE_GROWTH_STEP_BYTES: usize = 8_388_608;

/// Samples for which a pressure floor is held.
pub const RECEIVE_PRESSURE_HOLD_SAMPLES: u8 = 10;

/// Clean delivery rates remembered for the policer entry estimate.
pub const SHORT_RTT_POLICER_CLEAN_DELIVERY_SAMPLES: usize = 5;

/// Producer-admission window of a cold start.
pub const INITIAL_SEND_BUFFER_BYTES_V2: usize = 524_288;

/// Host default Repair cache retention, in milliseconds, when a decision
/// leaves `repair_retention_millis` at zero.
pub const REPAIR_CACHE_DEFAULT_TTL_MILLIS_V2: u32 = 2_000;

/// Real traffic that makes a loss ratio meaningful.
pub const MINIMUM_PROTECTION_TRAFFIC_BYTES_PER_SECOND: u64 = 65_536;

/// Packets that make a loss ratio meaningful.
pub const MINIMUM_PROTECTION_PACKETS_PER_SECOND: u64 = 128;

/// A saturated producer can be throttled below the ordinary evidence floors
/// by the very loss that protection is meant to recover from. A real Bulk
/// backlog distinguishes that state from idle keepalive/PMTU probe loss.
pub const MINIMUM_BACKLOG_PROTECTION_BYTES: u64 = 65_536;

/// Packets that make a loss ratio meaningful beside a backlog.
pub const MINIMUM_BACKLOG_PROTECTION_PACKETS_PER_SECOND: u64 = 32;

/// Controller model at which a short path can be a shallow policer.
pub const MINIMUM_SHORT_RTT_POLICER_MODEL_BYTES_PER_SECOND: u64 = 8_388_608;

/// Backlog that justifies the large Bulk quantum.
pub const BULK_QUANTUM_BACKLOG_BYTES: u64 = 131_072;

/// Whether the underlay itself retransmits.
#[derive(Clone, Copy, Debug, PartialEq, Eq, Structural)]
pub enum PathReliability {
    Datagram,
    ReliableRelay,
}

/// One live sample of a path.
#[derive(Clone, Copy, Debug, PartialEq, Eq, Structural)]
pub struct PathTelemetryV2 {
    pub path_epoch: u64,
    pub reliability: PathReliability,
    pub rtt: Duration,
    pub min_rtt: Duration,
    pub queue_delay: Duration,
    pub loss_ppm: u32,
    pub burst_loss_cells: u16,
    pub reorder_ppm: u32,
    /// Payload bytes delivered by the remote receiver per second. This is the
    /// end-to-end goodput reward and intentionally excludes FEC/Repair/cover.
    pub receiver_goodput_bytes_per_second: u64,
    /// Remote receiver gaps that remained when PacketTrains closed.
    pub residual_loss_ppm: u32,
    /// Local semantic-latency queue p95 over the latest telemetry interval.
    pub latency_sojourn_p95_micros: u64,
    pub latency_sojourn_p50_micros: u64,
    pub latency_sojourn_p99_micros: u64,
    /// The latency lane was queued or served during the latest interval.
    pub latency_queue_recently_nonempty: bool,
    /// Locally transmitted QUIC wire rate. All TX scheduling, FEC and
    /// producer-admission decisions are derived from this direction only.
    pub delivery_rate_bytes_per_second: u64,
    pub controller_pacing_rate_bytes_per_second: u64,
    pub controller_send_quantum_bytes: u64,
    pub controller_state: u8,
    pub controller_bw_bytes_per_second: u64,
    pub controller_inflight_longterm_bytes: u64,
    pub controller_guard_transitions_delta: u64,
    pub controller_app_limited: bool,
    pub controller_tunables_generation: u64,
    pub controller_params_generation: u64,
    pub controller_clamped_writes: u64,
    /// Locally received QUIC wire rate. This direction may have a completely
    /// different capacity and is used for RX memory/coalescing decisions.
    pub receive_rate_bytes_per_second: u64,
    pub packets_per_second: u64,
    pub tun_ingress_bytes_per_second: u64,
    pub average_record_bytes: u64,
    pub gso_ingress_ratio_ppm: u32,
    pub packet_train_queue_bytes: u64,
    pub latency_queue_bytes: u64,
    /// Incomplete PacketTrains evicted by the local receiver since the prior
    /// telemetry sample because its aggregate byte budget was exhausted.
    pub reassembly_pressure_evictions: u64,
    pub remote_expired_stripes_delta: u64,
    pub train_build_bytes_per_second: u64,
    pub bulk_preemption_delay_average_micros: u64,
    pub cpu_utilization_per_mille: u16,
    pub wasted_parity_per_mille: u16,
    pub fec_recovery_per_mille: u16,
    pub repair_hit_per_mille: u16,
    /// Cumulative matched Repair responses observed for this path epoch.
    pub repair_completed_requests: u64,
    /// Mean request-to-response latency for responses completed in the latest
    /// feedback interval. Zero means that interval had no completed request.
    pub repair_response_latency: Duration,
    pub real_traffic_bytes_per_second: u64,
}

impl PathTelemetryV2 {
    /// This outgoing direction carried enough real Cells and packets for its
    /// loss ratio to be a useful sample.
    pub open spec fn spec_has_protection_evidence(&self) -> bool {
        ||| {
            &&& self.real_traffic_bytes_per_second >= MINIMUM_PROTECTION_TRAFFIC_BYTES_PER_SECOND
            &&& self.packets_per_second >= MINIMUM_PROTECTION_PACKETS_PER_SECOND
        }
        ||| {
            &&& self.packet_train_queue_bytes >= MINIMUM_BACKLOG_PROTECTION_BYTES
            &&& self.packets_per_second >= MINIMUM_BACKLOG_PROTECTION_PACKETS_PER_SECOND
        }
    }

    /// The application has real or queued work in this direction.
    pub open spec fn spec_active_direction(&self) -> bool {
        ||| self.real_traffic_bytes_per_second != 0
        ||| self.tun_ingress_bytes_per_second != 0
        ||| self.packet_train_queue_bytes != 0
    }

    /// The application has real or queued work in this direction.
    #[verifier::when_used_as_spec(spec_active_direction)]
    pub fn active_direction(&self) -> (r: bool)
        ensures
            r == self.spec_active_direction(),
    {
        self.real_traffic_bytes_per_second != 0 || self.tun_ingress_bytes_per_second != 0
            || self.packet_train_queue_bytes != 0
    }

    /// The largest of the offered, transmitted and real traffic rates.
    pub open spec fn spec_demand_rate(&self) -> u64 {
        max_int(
            max_int(
                self.tun_ingress_bytes_per_second as int,
                self.delivery_rate_bytes_per_second as int,
            ),
            self.real_traffic_bytes_per_second as int,
        ) as u64
    }

    /// The largest of the offered, transmitted and real traffic rates.
    #[verifier::when_used_as_spec(spec_demand_rate)]
    pub fn demand_rate(&self) -> (r: u64)
        ensures
            r == self.spec_demand_rate(),
    {
        self.tun_ingress_bytes_per_second.max(self.delivery_rate_bytes_per_second).max(
            self.real_traffic_bytes_per_second,
        )
    }
}

/// Whether `sample` carries enough traffic for its loss ratio to count.
pub fn has_protection_evidence(sample: PathTelemetryV2) -> (r: bool)
    ensures
        r == sample.spec_has_protection_evidence(),
{
    (sample.real_traffic_bytes_per_second >= MINIMUM_PROTECTION_TRAFFIC_BYTES_PER_SECOND
        && sample.packets_per_second >= MINIMUM_PROTECTION_PACKETS_PER_SECOND)
        || (sample.packet_train_queue_bytes >= MINIMUM_BACKLOG_PROTECTION_BYTES
        && sample.packets_per_second >= MINIMUM_BACKLOG_PROTECTION_PACKETS_PER_SECOND)
}

/// Both rates are nonzero and neither exceeds the other by more than ten
/// percent.
pub open spec fn rates_track(left: int, right: int) -> bool {
    &&& left != 0
    &&& right != 0
    &&& 11 * left >= 10 * right
    &&& 11 * right >= 10 * left
}

/// Both rates are nonzero and neither exceeds the other by more than ten
/// percent.
pub fn rates_track_within_ten_percent(left: u64, right: u64) -> (r: bool)
    ensures
        r == rates_track(left as int, right as int),
{
    if left == 0 || right == 0 {
        return false;
    }
    let wide_left: u128 = left as u128;
    let wide_right: u128 = right as u128;
    wide_left * 1_100 >= wide_right * 1_000 && wide_right * 1_100 >= wide_left * 1_000
}

/// Tracking within ten percent does not depend on which rate comes first.
pub proof fn lemma_rate_tracking_is_symmetric(left: int, right: int)
    ensures
        rates_track(left, right) == rates_track(right, left),
{
}

/// Action space of the tuner.
#[derive(Clone, Copy, Debug, PartialEq, Eq, Structural)]
pub struct AutoTuneBoundsV2 {
    pub minimum_train_bytes: usize,
    pub maximum_train_bytes: usize,
    pub minimum_socket_buffer_bytes: usize,
    pub minimum_receive_buffer_bytes: usize,
    pub maximum_socket_buffer_bytes: usize,
    pub maximum_receive_batch: usize,
    pub maximum_cover_overhead_per_mille: u16,
}

impl AutoTuneBoundsV2 {
    /// Every lower bound lies below its upper bound.
    pub open spec fn wf(&self) -> bool {
        &&& self.minimum_train_bytes <= self.maximum_train_bytes
        &&& self.minimum_socket_buffer_bytes <= self.maximum_socket_buffer_bytes
        &&& self.minimum_receive_buffer_bytes <= self.maximum_socket_buffer_bytes
    }
}

impl Default for AutoTuneBoundsV2 {
    fn default() -> (r: AutoTuneBoundsV2)
        ensures
            r.wf(),
            r.minimum_train_bytes == 8 * 1024,
            r.maximum_train_bytes == 64 * 1024,
            r.minimum_socket_buffer_bytes == 512 * 1024,
            r.minimum_receive_buffer_bytes == 8 * 1024 * 1024,
            r.maximum_socket_buffer_bytes == 32 * 1024 * 1024,
            r.maximum_receive_batch == 64,
            r.maximum_cover_overhead_per_mille == 50,
    {
        AutoTuneBoundsV2 {
            minimum_train_bytes: 8 * 1024,
            maximum_train_bytes: 64 * 1024,
            // Bulk retains enough staged work to amortize connection-driver
            // wakes. Semantic latency uses a separate strict QUIC admission
            // lane and therefore does not wait behind this ordinary buffer.
            minimum_socket_buffer_bytes: 512 * 1024,
            // RX reassembly can have several interleaved PacketTrains per TUN
            // queue before QUIC delivers their end Cells. Keep the cold-start
            // floor independent from the much smaller TX admission floor.
            minimum_receive_buffer_bytes: 8 * 1024 * 1024,
            maximum_socket_buffer_bytes: 32 * 1024 * 1024,
            maximum_receive_batch: 64,
            maximum_cover_overhead_per_mille: 50,
        }
    }
}

/// Path classification behind a decision.
#[derive(Clone, Copy, Debug, PartialEq, Eq, Structural)]
pub enum TuneReasonV2 {
    ColdStart,
    TelemetryUnavailable,
    PathChanged,
    HealthyLowLoss,
    RandomLoss,
    BurstLoss,
    Congested,
    CpuLimited,
    ReliablePath,
}

/// Shape of cover traffic.
#[derive(Clone, Copy, Debug, PartialEq, Eq, Structural)]
pub enum CoverTrafficProfileV2 {
    Idle,
    LiveBroadcast,
    InteractiveVideo,
    GenericH3Bulk,
}

/// Named congestion-controller settings.
#[derive(Clone, Copy, Debug, PartialEq, Eq, Structural)]
pub enum Bbr3PresetV2 {
    SharedConservative,
    PrivateAggressive,
    LossyRadio,
    Policer,
    LongFat,
    RelayReliable,
    LowRttHost,
}

/// Congestion-controller part of a decision.
#[derive(Clone, Copy, Debug, PartialEq, Eq, Structural)]
pub struct Bbr3ProposalV2 {
    pub preset: Bbr3PresetV2,
    pub up_gain_milli: u32,
    pub headroom_milli: u32,
    pub cwnd_gain_milli: u32,
    pub pacing_cap_bytes_per_second: u64,
    pub loss_is_congestion: bool,
}

/// The settings that a preset stands for: gains in thousandths, a pacing cap
/// (zero for none) and whether loss counts as congestion.
pub open spec fn preset_settings(preset: Bbr3PresetV2, controller_bw: int) -> (int, int, int, int, bool) {
    match preset {
        Bbr3PresetV2::SharedConservative => (1_150, 250, 2_000, 0, false),
        Bbr3PresetV2::PrivateAggressive => (1_350, 100, 2_500, 0, false),
        Bbr3PresetV2::LossyRadio => (1_250, 150, 2_500, 0, false),
        Bbr3PresetV2::Policer => (1_100, 250, 2_000, sat_u64(controller_bw * 970) / 1_000, true),
        Bbr3PresetV2::LongFat => (1_250, 150, 3_000, 0, false),
        Bbr3PresetV2::RelayReliable => (1_100, 300, 1_500, 0, false),
        Bbr3PresetV2::LowRttHost => (1_350, 100, 2_500, 0, false),
    }
}

impl Bbr3ProposalV2 {
    /// The proposal carries exactly these settings.
    pub open spec fn has_settings(&self, settings: (int, int, int, int, bool)) -> bool {
        &&& self.up_gain_milli == settings.0
        &&& self.headroom_milli == settings.1
        &&& self.cwnd_gain_milli == settings.2
        &&& self.pacing_cap_bytes_per_second == settings.3
        &&& self.loss_is_congestion == settings.4
    }

    /// The proposal that a preset stands for.
    pub open spec fn spec_for_preset(preset: Bbr3PresetV2, controller_bw: u64) -> Bbr3ProposalV2 {
        let settings = preset_settings(preset, controller_bw as int);
        Bbr3ProposalV2 {
            preset,
            up_gain_milli: settings.0 as u32,
            headroom_milli: settings.1 as u32,
            cwnd_gain_milli: settings.2 as u32,
            pacing_cap_bytes_per_second: settings.3 as u64,
            loss_is_congestion: settings.4,
        }
    }

    /// The default settings of a path that others share.
    pub fn shared_conservative() -> (r: Bbr3ProposalV2)
        ensures
            r == Bbr3ProposalV2::spec_for_preset(Bbr3PresetV2::SharedConservative, 0),
    {
        Bbr3ProposalV2 {
            preset: Bbr3PresetV2::SharedConservative,
            up_gain_milli: 1_150,
            headroom_milli: 250,
            cwnd_gain_milli: 2_000,
            pacing_cap_bytes_per_second: 0,
            loss_is_congestion: false,
        }
    }

    /// The proposal that a preset stands for. Only the Policer reads the
    /// controller bandwidth: it keeps a small margin below it, because the
    /// estimate can include token-burst samples.
    pub fn for_preset(preset: Bbr3PresetV2, controller_bw: u64) -> (r: Bbr3ProposalV2)
        ensures
            r.preset == preset,
            r.has_settings(preset_settings(preset, controller_bw as int)),
            r == Bbr3ProposalV2::spec_for_preset(preset, controller_bw),
    {
        let (up, headroom, cwnd, cap, loss): (u32, u32, u32, u64, bool) = match preset {
            Bbr3PresetV2::SharedConservative => (1_150, 250, 2_000, 0, false),
            Bbr3PresetV2::PrivateAggressive => (1_350, 100, 2_500, 0, false),
            Bbr3PresetV2::LossyRadio => (1_250, 150, 2_500, 0, false),
            Bbr3PresetV2::Policer => (
                1_100,
                250,
                2_000,
                saturating_mul_u64(controller_bw, 970) / 1_000,
                true,
            ),
            Bbr3PresetV2::LongFat => (1_250, 150, 3_000, 0, false),
            Bbr3PresetV2::RelayReliable => (1_100, 300, 1_500, 0, false),
            Bbr3PresetV2::LowRttHost => (1_350, 100, 2_500, 0, false),
        };
        Bbr3ProposalV2 {
            preset,
            up_gain_milli: up,
            headroom_milli: headroom,
            cwnd_gain_milli: cwnd,
            pacing_cap_bytes_per_second: cap,
            loss_is_congestion: loss,
        }
    }
}

/// When the receiver requests Repair for a gap; `HostDefault` keeps the
/// RTT-derived host wait.
#[derive(Clone, Copy, Debug, PartialEq, Eq, Structural)]
pub enum RepairWaitPolicyV2 {
    /// Host baseline behaviour (RTT-derived wait).
    HostDefault,
    /// Request as soon as a gap is detected (half the host wait).
    Eager,
    /// Wait for the FEC stripe to close before requesting (the host wait).
    AfterFecWindow,
    /// Wait an extra RTT for late reordering before requesting (double the
    /// host wait).
    Patient,
}

impl Default for RepairWaitPolicyV2 {
    fn default() -> (r: RepairWaitPolicyV2)
        ensures
            r == RepairWaitPolicyV2::HostDefault,
    {
        RepairWaitPolicyV2::HostDefault
    }
}

impl RepairWaitPolicyV2 {
    /// Compact encoding for the shared metrics.
    pub open spec fn spec_to_metrics_code(self) -> u8 {
        match self {
            RepairWaitPolicyV2::HostDefault => 0,
            RepairWaitPolicyV2::Eager => 1,
            RepairWaitPolicyV2::AfterFecWindow => 2,
            RepairWaitPolicyV2::Patient => 3,
        }
    }

    /// The policy that a code stands for; unknown codes degrade to the host
    /// default.
    pub open spec fn spec_from_metrics_code(code: u8) -> RepairWaitPolicyV2 {
        if code == 1 {
            RepairWaitPolicyV2::Eager
        } else if code == 2 {
            RepairWaitPolicyV2::AfterFecWindow
        } else if code == 3 {
            RepairWaitPolicyV2::Patient
        } else {
            RepairWaitPolicyV2::HostDefault
        }
    }

    /// Compact encoding for the shared metrics.
    pub fn to_metrics_code(self) -> (r: u8)
        ensures
            r == self.spec_to_metrics_code(),
    {
        match self {
            RepairWaitPolicyV2::HostDefault => 0,
            RepairWaitPolicyV2::Eager => 1,
            RepairWaitPolicyV2::AfterFecWindow => 2,
            RepairWaitPolicyV2::Patient => 3,
        }
    }

    /// Inverse of [`Self::to_metrics_code`]; unknown codes degrade to the
    /// host default.
    pub fn from_metrics_code(code: u8) -> (r: RepairWaitPolicyV2)
        ensures
            r == RepairWaitPolicyV2::spec_from_metrics_code(code),
    {
        match code {
            1 => RepairWaitPolicyV2::Eager,
            2 => RepairWaitPolicyV2::AfterFecWindow,
            3 => RepairWaitPolicyV2::Patient,
            _ => RepairWaitPolicyV2::HostDefault,
        }
    }
}

/// Decoding the code of a policy gives the policy back.
pub proof fn lemma_repair_wait_code_round_trips(policy: RepairWaitPolicyV2)
    ensures
        RepairWaitPolicyV2::spec_from_metrics_code(policy.spec_to_metrics_code()) == policy,
{
}

/// A code that no policy has stands for the host default.
pub proof fn lemma_unknown_repair_wait_code_is_host_default(code: u8)
    requires
        forall|policy: RepairWaitPolicyV2| #[trigger] policy.spec_to_metrics_code() != code,
    ensures
        RepairWaitPolicyV2::spec_from_metrics_code(code) == RepairWaitPolicyV2::HostDefault,
{
    assert(RepairWaitPolicyV2::Eager.spec_to_metrics_code() != code);
    assert(RepairWaitPolicyV2::AfterFecWindow.spec_to_metrics_code() != code);
    assert(RepairWaitPolicyV2::Patient.spec_to_metrics_code() != code);
}

/// What the dataplane applies.
#[derive(Clone, Copy, Debug, PartialEq, Eq, Structural)]
pub struct TuneDecisionV2 {
    pub reason: TuneReasonV2,
    pub path_epoch: u64,
    pub sample_count: u32,
    pub train_target_bytes: usize,
    pub bulk_quantum_cells: usize,
    pub fec: Option<FecGeometryV2>,
    pub repair_cache_bytes: usize,
    /// How long transmitted Cells stay repairable (0 = host default).
    pub repair_retention_millis: u32,
    /// When the receiver requests Repair for a gap.
    pub repair_wait_policy: RepairWaitPolicyV2,
    /// Local outgoing producer-admission window.
    pub send_buffer_bytes: usize,
    /// Local incoming reassembly window, independently sized from RX rate.
    pub receive_buffer_bytes: usize,
    /// Aggregate reassembly byte budget (0 = follow `receive_buffer_bytes`).
    pub reassembly_budget_bytes: usize,
    /// Maximum concurrently open PacketTrains (0 = negotiated wire limit).
    pub active_train_budget: u16,
    pub receive_batch: usize,
    pub cover_profile: CoverTrafficProfileV2,
    pub cover_overhead_per_mille: u16,
    pub cover_padding_bytes_per_second: u64,
    pub bbr: Bbr3ProposalV2,
}

/// Experiment-only application-layer action override. Every field is
/// optional, and `fec = Some(None)` explicitly requests FEC off. Overrides
/// are applied after the baseline policy and smoothing, then constrained by
/// the same runtime guardrails; they cannot enable protection on a reliable
/// relay/CPU-limited path, suppress emergency protection, exceed geometry or
/// cover bounds, or let Bulk overtake queued latency traffic.
#[derive(Clone, Copy, Debug, PartialEq, Eq, Structural)]
pub struct ForcedActionV2 {
    pub bbr_preset: Option<Bbr3PresetV2>,
    pub fec: Option<Option<FecGeometryV2>>,
    pub train_target_bytes: Option<usize>,
    pub bulk_quantum_cells: Option<usize>,
    pub cover_profile: Option<CoverTrafficProfileV2>,
    pub cover_overhead_per_mille: Option<u16>,
}

impl ForcedActionV2 {
    /// The action that overrides nothing.
    pub open spec fn nothing() -> ForcedActionV2 {
        ForcedActionV2 {
            bbr_preset: None,
            fec: None,
            train_target_bytes: None,
            bulk_quantum_cells: None,
            cover_profile: None,
            cover_overhead_per_mille: None,
        }
    }
}

impl Default for ForcedActionV2 {
    fn default() -> (r: ForcedActionV2)
        ensures
            r == ForcedActionV2::nothing(),
    {
        ForcedActionV2 {
            bbr_preset: None,
            fec: None,
            train_target_bytes: None,
            bulk_quantum_cells: None,
            cover_profile: None,
            cover_overhead_per_mille: None,
        }
    }
}

impl TuneDecisionV2 {
    /// The cold-start decision of a path: shared settings, no protection and
    /// the smallest windows that the bounds allow.
    pub open spec fn spec_conservative(epoch: u64, bounds: AutoTuneBoundsV2) -> TuneDecisionV2 {
        TuneDecisionV2 {
            reason: TuneReasonV2::ColdStart,
            path_epoch: epoch,
            sample_count: 0,
            train_target_bytes: 16_384,
            bulk_quantum_cells: 1,
            fec: None,
            repair_cache_bytes: 2_097_152,
            repair_retention_millis: 0,
            repair_wait_policy: RepairWaitPolicyV2::HostDefault,
            send_buffer_bytes: clamp_int(
                INITIAL_SEND_BUFFER_BYTES_V2 as int,
                bounds.minimum_socket_buffer_bytes as int,
                bounds.maximum_socket_buffer_bytes as int,
            ) as usize,
            receive_buffer_bytes: bounds.minimum_receive_buffer_bytes,
            reassembly_budget_bytes: 0,
            active_train_budget: 0,
            receive_batch: max_int(bounds.maximum_receive_batch as int, 1) as usize,
            cover_profile: CoverTrafficProfileV2::Idle,
            cover_overhead_per_mille: 0,
            cover_padding_bytes_per_second: 0,
            bbr: Bbr3ProposalV2::spec_for_preset(Bbr3PresetV2::SharedConservative, 0),
        }
    }

    /// The cold-start decision of a path.
    pub fn conservative(epoch: u64, bounds: AutoTuneBoundsV2) -> (r: TuneDecisionV2)
        requires
            bounds.minimum_socket_buffer_bytes <= bounds.maximum_socket_buffer_bytes,
        ensures
            r == TuneDecisionV2::spec_conservative(epoch, bounds),
    {
        TuneDecisionV2 {
            reason: TuneReasonV2::ColdStart,
            path_epoch: epoch,
            sample_count: 0,
            train_target_bytes: 16 * 1024,
            bulk_quantum_cells: 1,
            fec: None,
            repair_cache_bytes: 2 * 1024 * 1024,
            repair_retention_millis: 0,
            repair_wait_policy: RepairWaitPolicyV2::HostDefault,
            // Start large enough to avoid an artificial cold-start lock/wake
            // bottleneck on a fast local path. The first trustworthy sample
            // may shrink this immediately to the min-RTT BDP target.
            send_buffer_bytes: clamp_usize(
                INITIAL_SEND_BUFFER_BYTES_V2,
                bounds.minimum_socket_buffer_bytes,
                bounds.maximum_socket_buffer_bytes,
            ),
            receive_buffer_bytes: bounds.minimum_receive_buffer_bytes,
            reassembly_budget_bytes: 0,
            active_train_budget: 0,
            receive_batch: bounds.maximum_receive_batch.max(1),
            cover_profile: CoverTrafficProfileV2::Idle,
            cover_overhead_per_mille: 0,
            cover_padding_bytes_per_second: 0,
            bbr: Bbr3ProposalV2::shared_conservative(),
        }
    }
}

/// Bytes of transmitted Cells to keep repairable.
///
/// A missing Cell is detected only after the receiver has waited for the
/// remainder of its stripe, then a reliable request/response must make another
/// round trip. Roughly ten propagation RTTs of the larger observed/offered TX
/// rate are kept, with an RTT tier as a cold/collapsed-rate floor and a byte
/// cap that bounds memory.
pub open spec fn repair_cache_target(
    reliability: PathReliability,
    protected: bool,
    rtt_micros: int,
    delivery_rate: int,
    offered_rate: int,
) -> int {
    if reliability == PathReliability::ReliableRelay {
        1_048_576
    } else if !protected {
        0
    } else {
        let rate = max_int(delivery_rate, offered_rate);
        let rate_target = sat_u64(sat_u64(rate * rtt_micros) * 10) / 1_000_000;
        let rtt_floor: int = if rtt_micros >= 150_000 {
            25_165_824
        } else if rtt_micros >= 80_000 {
            16_777_216
        } else {
            4_194_304
        };
        min_int(max_int(rate_target, rtt_floor), 33_554_432)
    }
}

/// Bytes of transmitted Cells to keep repairable.
pub fn repair_cache_target_bytes(
    reliability: PathReliability,
    fec: Option<FecGeometryV2>,
    rtt_micros: u64,
    delivery_rate: u64,
    offered_rate: u64,
) -> (r: usize)
    ensures
        r == repair_cache_target(
            reliability,
            fec is Some,
            rtt_micros as int,
            delivery_rate as int,
            offered_rate as int,
        ),
{
    if reliability == PathReliability::ReliableRelay {
        1_048_576
    } else if fec.is_none() {
        0
    } else {
        let rate: u64 = delivery_rate.max(offered_rate);
        let rate_target: u64 = saturating_mul_u64(saturating_mul_u64(rate, rtt_micros), 10)
            / 1_000_000;
        let rtt_floor: u64 = if rtt_micros >= 150_000 {
            25_165_824
        } else if rtt_micros >= 80_000 {
            16_777_216
        } else {
            4_194_304
        };
        let target: u64 = rate_target.max(rtt_floor).min(33_554_432);
        target as usize
    }
}

/// Protection and its Repair cache belong together: a protected datagram path
/// keeps between 4 MiB and 32 MiB, an unprotected one keeps nothing.
pub proof fn lemma_repair_cache_follows_protection(
    protected: bool,
    rtt_micros: int,
    delivery_rate: int,
    offered_rate: int,
)
    requires
        rtt_micros >= 0,
        delivery_rate >= 0,
        offered_rate >= 0,
    ensures
        protected ==> 4_194_304 <= repair_cache_target(
            PathReliability::Datagram,
            protected,
            rtt_micros,
            delivery_rate,
            offered_rate,
        ) <= 33_554_432,
        !protected ==> repair_cache_target(
            PathReliability::Datagram,
            protected,
            rtt_micros,
            delivery_rate,
            offered_rate,
        ) == 0,
{
}

/// Rate from which a direction counts as active for cover traffic.
pub const COVER_ACTIVE_RATE: u64 = 131_072;

/// Cover profile of a pair of directional rates: idle below the active rate,
/// a broadcast where the outgoing side dominates four to one, a call where
/// both sides are active, a download otherwise.
pub open spec fn cover_profile_of(tx: int, rx: int) -> CoverTrafficProfileV2 {
    if tx < COVER_ACTIVE_RATE && rx < COVER_ACTIVE_RATE {
        CoverTrafficProfileV2::Idle
    } else if tx >= COVER_ACTIVE_RATE && tx >= sat_u64(rx * 4) {
        CoverTrafficProfileV2::LiveBroadcast
    } else if tx >= COVER_ACTIVE_RATE && rx >= COVER_ACTIVE_RATE {
        CoverTrafficProfileV2::InteractiveVideo
    } else {
        CoverTrafficProfileV2::GenericH3Bulk
    }
}

/// Cover profile of a pair of directional rates.
pub fn classify_cover_profile(tx_bytes_per_second: u64, rx_bytes_per_second: u64) -> (r:
    CoverTrafficProfileV2)
    ensures
        r == cover_profile_of(tx_bytes_per_second as int, rx_bytes_per_second as int),
{
    if tx_bytes_per_second.max(rx_bytes_per_second) < COVER_ACTIVE_RATE {
        CoverTrafficProfileV2::Idle
    } else if tx_bytes_per_second >= COVER_ACTIVE_RATE && tx_bytes_per_second
        >= saturating_mul_u64(rx_bytes_per_second, 4) {
        CoverTrafficProfileV2::LiveBroadcast
    } else if tx_bytes_per_second >= COVER_ACTIVE_RATE && rx_bytes_per_second
        >= COVER_ACTIVE_RATE {
        CoverTrafficProfileV2::InteractiveVideo
    } else {
        CoverTrafficProfileV2::GenericH3Bulk
    }
}

/// Exponentially weighted average: a zero history takes the sample over,
/// otherwise the sample enters with weight `numerator / denominator`.
pub open spec fn ewma_of(current: int, sample: int, numerator: int, denominator: int) -> int {
    if current == 0 {
        sample
    } else {
        sat_u64(sat_u64(current * (denominator - numerator)) + sat_u64(sample * numerator))
            / denominator
    }
}

/// Exponentially weighted average of a history and a sample.
pub fn ewma(current: u64, sample: u64, numerator: u64, denominator: u64) -> (r: u64)
    requires
        0 < numerator <= denominator,
    ensures
        r == ewma_of(current as int, sample as int, numerator as int, denominator as int),
{
    if current == 0 {
        sample
    } else {
        saturating_mul_u64(current, denominator - numerator).saturating_add(
            saturating_mul_u64(sample, numerator),
        ) / denominator
    }
}

/// Where the weighted sum fits a word the average lies between history and
/// sample.
pub proof fn lemma_ewma_stays_between(current: int, sample: int, numerator: int, denominator: int)
    requires
        0 <= current,
        0 <= sample,
        0 < numerator <= denominator,
        current > 0 ==> current * (denominator - numerator) + sample * numerator <= u64::MAX,
    ensures
        min_int(current, sample) <= ewma_of(current, sample, numerator, denominator) <= max_int(
            current,
            sample,
        ),
{
    if current > 0 {
        let lo = min_int(current, sample);
        let hi = max_int(current, sample);
        let a = current * (denominator - numerator);
        let b = sample * numerator;
        assert(0 <= a && 0 <= b) by (nonlinear_arith)
            requires
                a == current * (denominator - numerator),
                b == sample * numerator,
                0 < current,
                0 <= sample,
                0 < numerator <= denominator,
        ;
        assert(lo * denominator <= a + b <= hi * denominator) by (nonlinear_arith)
            requires
                a == current * (denominator - numerator),
                b == sample * numerator,
                lo <= current <= hi,
                lo <= sample <= hi,
                0 < numerator <= denominator,
        ;
        assert(lo <= (a + b) / denominator <= hi) by (nonlinear_arith)
            requires
                lo * denominator <= a + b <= hi * denominator,
                0 < denominator,
        ;
    }
}

/// Whole microseconds of a span, cut off at the largest word.
pub open spec fn micros_of(duration: Duration) -> int {
    sat_u64(duration.micros())
}

/// Whole microseconds of a span, cut off at the largest word.
pub fn micros(duration: Duration) -> (r: u64)
    ensures
        r == micros_of(duration),
{
    u64_from_u128(duration.as_micros())
}

} // verus!

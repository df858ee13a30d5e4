//! What an observation must lead to, case by case: the laws that tie raw
//! telemetry to the settings in effect.

use vstd::prelude::*;

use crate::fec::FecGeometryV2;
use crate::policy::api::{BbrCandidateV1, EffectiveActionV1, HostLimitsV1};
use crate::policy::guardrails::{GuardrailContextV1, GuardrailsV1};
use crate::time::Instant;
use crate::tuning::filter::TelemetryFilterV1;
use crate::tuning::filtered::FilteredTelemetryV1;
use crate::tuning::native::{forced_candidate, native_candidate, native_receive_batch};
use crate::tuning::tuner::{conservative_action, TunerState};
use crate::tuning::{
    AutoTuneBoundsV2, Bbr3PresetV2, CoverTrafficProfileV2, ForcedActionV2, PathReliability,
    PathTelemetryV2, TuneDecisionV2, TuneReasonV2,
};

verus! {

/// A candidate that sets every controller field: the preset, the upward gain,
/// the headroom and the window gain, without a pacing cap and without taking
/// loss for congestion.
pub open spec fn uncapped(preset: Bbr3PresetV2, up: u32, headroom: u32, cwnd: u32) -> Option<
    BbrCandidateV1,
> {
    Some(
        BbrCandidateV1 {
            preset: Some(preset),
            probe_bw_up_pacing_gain_milli: Some(up),
            default_cwnd_gain_milli: Some(cwnd),
            headroom_milli: Some(headroom),
            loss_is_congestion: Some(false),
            pacing_cap_bytes_per_second: Some(0),
        },
    )
}

/// The controller settings in effect: the preset, the upward gain, the headroom
/// and the window gain, without a pacing cap and without taking loss for
/// congestion.
pub open spec fn runs(
    action: EffectiveActionV1,
    preset: Bbr3PresetV2,
    up: u32,
    headroom: u32,
    cwnd: u32,
) -> bool {
    let decision = action.spec_to_tune_decision();
    &&& action.bbr.preset == preset
    &&& action.bbr.probe_bw_up_pacing_gain_milli == up
    &&& action.bbr.headroom_milli == headroom
    &&& action.bbr.default_cwnd_gain_milli == cwnd
    &&& action.bbr.pacing_cap_bytes_per_second == 0
    &&& !action.bbr.loss_is_congestion
    &&& decision.bbr.preset == preset
    &&& decision.bbr.up_gain_milli == up
    &&& decision.bbr.headroom_milli == headroom
    &&& decision.bbr.cwnd_gain_milli == cwnd
    &&& decision.bbr.pacing_cap_bytes_per_second == 0
    &&& !decision.bbr.loss_is_congestion
}

/// A relay that delivers everything gets the calm settings, whatever else the
/// telemetry says.
pub proof fn lemma_reliable_relays_are_paced_calmly(f: FilteredTelemetryV1, limits: HostLimitsV1)
    requires
        f.raw.reliability == PathReliability::ReliableRelay,
    ensures
        native_candidate(f, limits).bbr == uncapped(Bbr3PresetV2::RelayReliable, 1_100, 300, 1_500),
{
}

/// A datagram path below 2 ms gets the settings of a near host, even inside a
/// policer episode.
pub proof fn lemma_near_hosts_get_near_host_settings(f: FilteredTelemetryV1, limits: HostLimitsV1)
    requires
        f.raw.reliability == PathReliability::Datagram,
        f.min_rtt_micros < 2_000,
    ensures
        native_candidate(f, limits).bbr == uncapped(Bbr3PresetV2::LowRttHost, 1_350, 100, 2_500),
{
}

/// A datagram path of at least 120 ms outside a policer episode gets the
/// settings of a long fat pipe.
pub proof fn lemma_long_paths_get_long_fat_settings(f: FilteredTelemetryV1, limits: HostLimitsV1)
    requires
        f.raw.reliability == PathReliability::Datagram,
        f.min_rtt_micros >= 120_000,
        !f.short_rtt_policer_limited,
    ensures
        native_candidate(f, limits).bbr == uncapped(Bbr3PresetV2::LongFat, 1_250, 150, 3_000),
{
}

/// A datagram path of at least 2 ms inside a policer episode gets the policer's
/// gains, but neither its pacing cap nor its view of loss.
pub proof fn lemma_policed_paths_get_policer_gains(f: FilteredTelemetryV1, limits: HostLimitsV1)
    requires
        f.raw.reliability == PathReliability::Datagram,
        f.min_rtt_micros >= 2_000,
        f.short_rtt_policer_limited,
    ensures
        native_candidate(f, limits).bbr == uncapped(Bbr3PresetV2::Policer, 1_100, 250, 2_000),
{
}

/// A queue stands in front of the path: the smoothed queueing delay exceeds
/// 5 ms and half the minimum RTT, and the smoothed RTT exceeds the minimum by
/// as much.
pub open spec fn queue_stands(f: FilteredTelemetryV1) -> bool {
    &&& f.queue_delay_micros > 5_000
    &&& f.queue_delay_micros > f.min_rtt_micros as int / 2
    &&& f.rtt_micros > f.min_rtt_micros + 5_000
    &&& f.rtt_micros > f.min_rtt_micros + f.min_rtt_micros as int / 2
}

/// Between 2 ms and 120 ms, outside a policer episode, loss without a standing
/// queue and without CPU pressure is a radio's; anything else is shared
/// conservatively.
pub proof fn lemma_middle_paths_split_by_loss(f: FilteredTelemetryV1, limits: HostLimitsV1)
    requires
        f.raw.reliability == PathReliability::Datagram,
        2_000 <= f.min_rtt_micros < 120_000,
        !f.short_rtt_policer_limited,
    ensures
        f.cpu_per_mille < 900 && !queue_stands(f) && (f.loss_ppm >= 1_000 || f.burst_loss_cells
            >= 2) ==> native_candidate(f, limits).bbr == uncapped(
            Bbr3PresetV2::LossyRadio,
            1_250,
            150,
            2_500,
        ),
        f.cpu_per_mille >= 900 || queue_stands(f) || (f.loss_ppm < 1_000 && f.burst_loss_cells < 2)
            ==> native_candidate(f, limits).bbr == uncapped(
            Bbr3PresetV2::SharedConservative,
            1_150,
            250,
            2_000,
        ),
{
}

/// One datagram sample whose minimum RTT lies below 2 ms puts the controller on
/// the near-host settings, whatever was learned before.
pub proof fn lemma_one_near_sample_sets_the_controller(
    state: TunerState,
    sample: PathTelemetryV2,
    now: Instant,
)
    requires
        sample.reliability == PathReliability::Datagram,
        sample.min_rtt.nanos < 2_000_000,
    ensures
        runs(
            state.observed(sample, now, None).current,
            Bbr3PresetV2::LowRttHost,
            1_350,
            100,
            2_500,
        ),
        state.observed(sample, now, None).current.bbr.cwnd_floor_bytes == 524_288,
{
}

/// A datagram path on which no sample was ever below 120 ms and no policer
/// episode is open runs on the long-fat settings, from the first sample on.
pub proof fn lemma_long_samples_set_the_controller(
    state: TunerState,
    sample: PathTelemetryV2,
    now: Instant,
)
    requires
        sample.reliability == PathReliability::Datagram,
        sample.min_rtt.nanos >= 120_000_000,
        sample.path_epoch != state.epoch || {
            &&& !state.smoothed.short_rtt_policer_limited
            &&& state.smoothed.min_rtt_micros == 0 || state.smoothed.min_rtt_micros >= 120_000
        },
    ensures
        runs(state.observed(sample, now, None).current, Bbr3PresetV2::LongFat, 1_250, 150, 3_000),
        state.observed(sample, now, None).current.bbr.cwnd_floor_bytes == 0,
{
}

/// The controller settings after any observation follow from the smoothed
/// memory that it leaves behind.
pub proof fn lemma_memory_sets_the_controller(
    state: TunerState,
    sample: PathTelemetryV2,
    now: Instant,
)
    ensures
        ({
            let after = state.observed(sample, now, None);
            let m = after.smoothed;
            let queued = m.queue_delay_micros > 5_000 && m.queue_delay_micros
                > m.min_rtt_micros as int / 2 && m.rtt_micros > m.min_rtt_micros + 5_000
                && m.rtt_micros > m.min_rtt_micros + m.min_rtt_micros as int / 2;
            let lossy = m.loss_ppm >= 1_000 || m.burst_loss_cells >= 2;
            let radio = lossy && m.cpu_per_mille < 900 && !queued;
            &&& sample.reliability == PathReliability::ReliableRelay ==> runs(
                after.current,
                Bbr3PresetV2::RelayReliable,
                1_100,
                300,
                1_500,
            )
            &&& sample.reliability == PathReliability::Datagram && m.min_rtt_micros >= 2_000
                && m.short_rtt_policer_limited ==> runs(
                after.current,
                Bbr3PresetV2::Policer,
                1_100,
                250,
                2_000,
            )
            &&& sample.reliability == PathReliability::Datagram && 2_000 <= m.min_rtt_micros
                < 120_000 && !m.short_rtt_policer_limited && radio ==> runs(
                after.current,
                Bbr3PresetV2::LossyRadio,
                1_250,
                150,
                2_500,
            )
            &&& sample.reliability == PathReliability::Datagram && 2_000 <= m.min_rtt_micros
                < 120_000 && !m.short_rtt_policer_limited && !radio ==> runs(
                after.current,
                Bbr3PresetV2::SharedConservative,
                1_150,
                250,
                2_000,
            )
        }),
{
}

/// The reason of a decision names the first pressure in force: a reliable relay,
/// the CPU, a queue or policer, bursts, loss, and otherwise health.
pub proof fn lemma_reason_names_the_first_pressure(
    state: TunerState,
    sample: PathTelemetryV2,
    now: Instant,
    forced: Option<ForcedActionV2>,
)
    ensures
        ({
            let after = state.observed(sample, now, forced);
            let m = after.smoothed;
            let queued = m.queue_delay_micros > 5_000 && m.queue_delay_micros
                > m.min_rtt_micros as int / 2 && m.rtt_micros > m.min_rtt_micros + 5_000
                && m.rtt_micros > m.min_rtt_micros + m.min_rtt_micros as int / 2;
            let relay = sample.reliability == PathReliability::ReliableRelay;
            let busy = m.cpu_per_mille >= 900;
            let jammed = queued || m.short_rtt_policer_limited;
            let reason = after.current.reason;
            &&& relay ==> reason == TuneReasonV2::ReliablePath
            &&& !relay && busy ==> reason == TuneReasonV2::CpuLimited
            &&& !relay && !busy && jammed ==> reason == TuneReasonV2::Congested
            &&& !relay && !busy && !jammed && m.burst_loss_cells >= 2 ==> reason
                == TuneReasonV2::BurstLoss
            &&& !relay && !busy && !jammed && m.burst_loss_cells < 2 && m.loss_ppm >= 1_000
                ==> reason == TuneReasonV2::RandomLoss
            &&& !relay && !busy && !jammed && m.burst_loss_cells < 2 && m.loss_ppm < 1_000
                ==> reason == TuneReasonV2::HealthyLowLoss
        }),
{
}

/// Loss is worth protecting against: enough real traffic, or a backlog, stands
/// behind a measurement of at least one percent or of a burst of three Cells.
pub open spec fn loss_is_live(sample: PathTelemetryV2) -> bool {
    &&& (sample.real_traffic_bytes_per_second >= 65_536 && sample.packets_per_second >= 128)
        || (sample.packet_train_queue_bytes >= 65_536 && sample.packets_per_second >= 32)
    &&& sample.loss_ppm >= 10_000 || sample.burst_loss_cells >= 3
}

/// The path may carry parity: a datagram path without CPU pressure, standing
/// queue or policer episode.
pub open spec fn parity_may_stand(sample: PathTelemetryV2, m: TelemetryFilterV1) -> bool {
    &&& sample.reliability == PathReliability::Datagram
    &&& m.cpu_per_mille < 900
    &&& !m.short_rtt_policer_limited
    &&& !(m.queue_delay_micros > 5_000 && m.queue_delay_micros > m.min_rtt_micros as int / 2
        && m.rtt_micros > m.min_rtt_micros + 5_000 && m.rtt_micros > m.min_rtt_micros
        + m.min_rtt_micros as int / 2)
}

/// The smoothed loss earns parity: at least one percent or bursts of three
/// Cells, on traffic that flows, but not one percent on a path below 10 ms.
pub open spec fn parity_is_earned(sample: PathTelemetryV2, m: TelemetryFilterV1) -> bool {
    &&& m.protection_samples != 0
    &&& sample.real_traffic_bytes_per_second != 0 || sample.tun_ingress_bytes_per_second != 0
        || sample.packet_train_queue_bytes != 0
    &&& m.loss_ppm != 0
    &&& m.loss_ppm >= 10_000 || m.burst_loss_cells >= 3
    &&& m.min_rtt_micros > 10_000 || (m.loss_ppm < 10_000 && sample.loss_ppm < 10_000)
}

/// Live loss on a path that may carry parity installs the protection of its
/// tier at once: one Cell in eight on a short feedback path; else four for four
/// from eight percent, two for four from three percent or bursts of three, and
/// two for six below, thinned to one where parity was mostly wasted.
pub proof fn lemma_live_loss_is_protected_at_once(
    state: TunerState,
    sample: PathTelemetryV2,
    now: Instant,
)
    requires
        loss_is_live(sample),
        parity_may_stand(sample, state.observed(sample, now, None).smoothed),
    ensures
        ({
            let after = state.observed(sample, now, None);
            let m = after.smoothed;
            let fec = after.current.fec;
            let wasted = m.wasted_parity_per_mille > 800 && m.recovery_per_mille < 100;
            let repaired = m.repair_observations >= 3 && m.repair_hit_per_mille >= 800
                && m.repair_latency_micros != 0 && (m.repair_latency_micros <= 200_000
                || m.repair_latency_micros <= m.rtt_micros * 8);
            let earned = parity_is_earned(sample, m);
            let thin = m.loss_ppm < 30_000 && m.burst_loss_cells < 3;
            &&& !earned ==> fec is None
            &&& earned && m.rtt_micros < 80_000 ==> fec == Some(
                FecGeometryV2 { data_cells: 8, parity_cells: 1 },
            )
            &&& earned && m.rtt_micros >= 80_000 && m.loss_ppm >= 80_000 ==> fec == Some(
                FecGeometryV2 { data_cells: 4, parity_cells: 4 },
            )
            &&& earned && m.rtt_micros >= 80_000 && m.loss_ppm < 80_000 && !thin ==> fec == Some(
                FecGeometryV2 { data_cells: 4, parity_cells: 2 },
            )
            &&& earned && m.rtt_micros >= 80_000 && thin && !wasted ==> fec == Some(
                FecGeometryV2 { data_cells: 6, parity_cells: 2 },
            )
            &&& earned && m.rtt_micros >= 80_000 && thin && wasted && repaired ==> fec == Some(
                FecGeometryV2 { data_cells: 8, parity_cells: 1 },
            )
            &&& earned && m.rtt_micros >= 80_000 && thin && wasted && !repaired ==> fec == Some(
                FecGeometryV2 { data_cells: 6, parity_cells: 1 },
            )
        }),
{
}

/// Without live loss, on a path that may carry parity, the protection in effect
/// is kept for two seconds after its last change.
pub proof fn lemma_protection_is_held_for_two_seconds(
    state: TunerState,
    sample: PathTelemetryV2,
    now: Instant,
)
    requires
        sample.path_epoch == state.epoch,
        !loss_is_live(sample),
        parity_may_stand(sample, state.observed(sample, now, None).smoothed),
        now.nanos < state.transition.fec_changed_at.nanos + 2_000_000_000,
        state.current.fec matches Some(g) ==> g.is_valid(),
    ensures
        state.observed(sample, now, None).current.fec == state.current.fec,
        state.observed(sample, now, None).transition.fec_changed_at
            == state.transition.fec_changed_at,
{
}

/// Once two seconds have passed, a path whose loss no longer earns parity drops
/// it, and the hold starts anew.
pub proof fn lemma_unearned_protection_ends_after_the_hold(
    state: TunerState,
    sample: PathTelemetryV2,
    now: Instant,
)
    requires
        sample.path_epoch == state.epoch,
        !parity_is_earned(sample, state.observed(sample, now, None).smoothed),
        now.nanos >= state.transition.fec_changed_at.nanos + 2_000_000_000,
    ensures
        state.observed(sample, now, None).current.fec is None,
        state.current.fec is Some ==> state.observed(sample, now, None).transition.fec_changed_at
            == now,
{
}

/// Where parity may not stand there is none after the very next observation,
/// forced or not.
pub proof fn lemma_parity_falls_with_its_ground(
    state: TunerState,
    sample: PathTelemetryV2,
    now: Instant,
    forced: Option<ForcedActionV2>,
)
    requires
        !parity_may_stand(sample, state.observed(sample, now, forced).smoothed),
    ensures
        state.observed(sample, now, forced).current.fec is None,
        sample.reliability == PathReliability::Datagram ==> state.observed(
            sample,
            now,
            forced,
        ).current.repair.cache_bytes == 0,
{
}

/// The train size in effect: 16 KiB under CPU pressure, behind a standing queue
/// or in a policer episode; else the cap above 50 MiB/s with a backlog of 64 KiB,
/// 32 KiB above 5 MiB/s, and the floor below; always inside the limits.
pub proof fn lemma_train_size_follows_the_load(
    state: TunerState,
    sample: PathTelemetryV2,
    now: Instant,
)
    requires
        state.guardrails.limits.train_target_floor_bytes
            <= state.guardrails.limits.train_target_cap_bytes,
    ensures
        ({
            let after = state.observed(sample, now, None);
            let m = after.smoothed;
            let floor = state.guardrails.limits.train_target_floor_bytes;
            let cap = state.guardrails.limits.train_target_cap_bytes;
            let train = after.current.scheduler.train_target_bytes;
            let queued = m.queue_delay_micros > 5_000 && m.queue_delay_micros
                > m.min_rtt_micros as int / 2 && m.rtt_micros > m.min_rtt_micros + 5_000
                && m.rtt_micros > m.min_rtt_micros + m.min_rtt_micros as int / 2;
            let pressed = m.cpu_per_mille >= 900 || queued || m.short_rtt_policer_limited;
            &&& floor <= train <= cap
            &&& pressed && floor <= 16_384 <= cap ==> train == 16_384
            &&& pressed && floor > 16_384 ==> train == floor
            &&& !pressed && m.delivery_rate >= 52_428_800 && sample.packet_train_queue_bytes
                >= 65_536 ==> train == cap
            &&& !pressed && m.delivery_rate >= 52_428_800 && sample.packet_train_queue_bytes
                < 65_536 && floor <= 32_768 <= cap ==> train == 32_768
            &&& !pressed && 5_242_880 <= m.delivery_rate < 52_428_800 && floor <= 32_768 <= cap
                ==> train == 32_768
            &&& !pressed && m.delivery_rate < 5_242_880 ==> train == floor
        }),
{
}

/// Bulk gets one Cell while latency traffic waits, eight behind a backlog of
/// 128 KiB, and two otherwise.
pub proof fn lemma_quantum_follows_the_queues(
    state: TunerState,
    sample: PathTelemetryV2,
    now: Instant,
)
    ensures
        ({
            let quantum = state.observed(
                sample,
                now,
                None,
            ).current.scheduler.bulk_quantum_cells;
            &&& sample.latency_queue_bytes != 0 ==> quantum == 1
            &&& sample.latency_queue_bytes == 0 && sample.packet_train_queue_bytes >= 131_072
                ==> quantum == 8
            &&& sample.latency_queue_bytes == 0 && sample.packet_train_queue_bytes < 131_072
                ==> quantum == 2
        }),
{
}

/// The send window moves by at most 512 KiB per observation towards twice the
/// bandwidth-delay product, or towards 8 ms of delivery where that is more and
/// only Bulk waits behind a busy CPU.
pub proof fn lemma_send_window_steps_towards_its_target(
    state: TunerState,
    sample: PathTelemetryV2,
    now: Instant,
)
    requires
        sample.path_epoch == state.epoch,
        state.guardrails.limits.send_buffer_cap_bytes <= u32::MAX,
        state.guardrails.limits.send_buffer_floor_bytes <= state.current.send_buffer_bytes
            <= state.guardrails.limits.send_buffer_cap_bytes,
        state.observed(sample, now, None).smoothed.delivery_rate <= 1_000_000_000_000,
        state.observed(sample, now, None).smoothed.min_rtt_micros <= 10_000_000,
    ensures
        ({
            let after = state.observed(sample, now, None);
            let m = after.smoothed;
            let floor = state.guardrails.limits.send_buffer_floor_bytes as int;
            let cap = state.guardrails.limits.send_buffer_cap_bytes as int;
            let bdp = m.delivery_rate * m.min_rtt_micros / 1_000_000;
            let bulk_only = m.cpu_per_mille >= 900 && sample.latency_queue_bytes == 0
                && sample.packet_train_queue_bytes > 0;
            let window = if bulk_only && m.delivery_rate as int / 125 > 2 * bdp {
                m.delivery_rate as int / 125
            } else {
                2 * bdp
            };
            let target = if window < floor {
                floor
            } else if window > cap {
                cap
            } else {
                window
            };
            let before = state.current.send_buffer_bytes;
            let sent = after.current.send_buffer_bytes;
            &&& target > before + 524_288 ==> sent == before + 524_288
            &&& target < before - 524_288 ==> sent == before - 524_288
            &&& before - 524_288 <= target <= before + 524_288 ==> sent == target
        }),
{
    let after = state.observed(sample, now, None);
    let rate = after.smoothed.delivery_rate as int;
    let rtt = after.smoothed.min_rtt_micros as int;
    assert(0 <= rate * rtt <= 1_000_000_000_000 * 10_000_000) by (nonlinear_arith)
        requires
            0 <= rate <= 1_000_000_000_000,
            0 <= rtt <= 10_000_000,
    ;
}

/// Without a held pressure floor, the receive window moves by at most 512 KiB
/// per observation towards twice the bandwidth-delay product of the incoming
/// direction.
pub proof fn lemma_receive_window_steps_towards_its_target(
    state: TunerState,
    sample: PathTelemetryV2,
    now: Instant,
)
    requires
        sample.path_epoch == state.epoch,
        sample.reassembly_pressure_evictions == 0,
        state.observed(sample, now, None).smoothed.receive_pressure_floor_bytes == 0,
        state.guardrails.limits.receive_buffer_cap_bytes <= u32::MAX,
        state.guardrails.limits.receive_buffer_floor_bytes <= state.current.rx.receive_buffer_bytes
            <= state.guardrails.limits.receive_buffer_cap_bytes,
        state.observed(sample, now, None).smoothed.receive_rate <= 1_000_000_000_000,
        state.observed(sample, now, None).smoothed.min_rtt_micros <= 10_000_000,
    ensures
        ({
            let after = state.observed(sample, now, None);
            let m = after.smoothed;
            let floor = state.guardrails.limits.receive_buffer_floor_bytes as int;
            let cap = state.guardrails.limits.receive_buffer_cap_bytes as int;
            let window = 2 * (m.receive_rate * m.min_rtt_micros / 1_000_000);
            let target = if window < floor {
                floor
            } else if window > cap {
                cap
            } else {
                window
            };
            let before = state.current.rx.receive_buffer_bytes;
            let held = after.current.rx.receive_buffer_bytes;
            &&& target > before + 524_288 ==> held == before + 524_288
            &&& target < before - 524_288 ==> held == before - 524_288
            &&& before - 524_288 <= target <= before + 524_288 ==> held == target
        }),
{
    let after = state.observed(sample, now, None);
    let rate = after.smoothed.receive_rate as int;
    let rtt = after.smoothed.min_rtt_micros as int;
    assert(0 <= rate * rtt <= 1_000_000_000_000 * 10_000_000) by (nonlinear_arith)
        requires
            0 <= rate <= 1_000_000_000_000,
            0 <= rtt <= 10_000_000,
    ;
}

/// Reassembly evictions raise the receive window at once to at least twice its
/// size and to at least 8 MiB more, up to the cap.
pub proof fn lemma_evictions_raise_the_receive_window(
    state: TunerState,
    sample: PathTelemetryV2,
    now: Instant,
)
    requires
        state.wf(),
        sample.path_epoch == state.epoch,
        sample.reassembly_pressure_evictions != 0,
        state.bounds.maximum_socket_buffer_bytes <= u32::MAX,
        state.current.rx.receive_buffer_bytes <= state.bounds.maximum_socket_buffer_bytes,
    ensures
        ({
            let after = state.observed(sample, now, None);
            let cap = state.bounds.maximum_socket_buffer_bytes;
            let before = state.current.rx.receive_buffer_bytes;
            let held = after.current.rx.receive_buffer_bytes;
            &&& held == cap || held >= 2 * before
            &&& held == cap || held >= before + 8_388_608
            &&& held <= cap
            &&& after.smoothed.receive_pressure_hold_samples == 10
        }),
{
}

/// A pressure floor is held for ten samples without evictions and falls with
/// the tenth.
pub proof fn lemma_pressure_floor_falls_with_its_hold(
    filter: TelemetryFilterV1,
    sample: PathTelemetryV2,
    current: usize,
)
    requires
        sample.reassembly_pressure_evictions == 0,
    ensures
        ({
            let after = filter.spec_update(sample, current);
            let hold = filter.receive_pressure_hold_samples;
            &&& hold > 1 ==> after.receive_pressure_floor_bytes
                == filter.receive_pressure_floor_bytes && after.receive_pressure_hold_samples
                == hold - 1
            &&& hold == 1 ==> after.receive_pressure_floor_bytes == 0
                && after.receive_pressure_hold_samples == 0
            &&& hold == 0 ==> after.receive_pressure_floor_bytes
                == filter.receive_pressure_floor_bytes && after.receive_pressure_hold_samples == 0
        }),
{
}

/// The receive batch holds about 512 KiB of records: the quotient inside one
/// and the cap, at most eight where half of the ingress is super-packets, and
/// the cap while the tunnel is silent.
pub proof fn lemma_receive_batch_holds_half_a_mebibyte(
    state: TunerState,
    sample: PathTelemetryV2,
    now: Instant,
)
    requires
        state.guardrails.limits.receive_batch_cap >= 1,
    ensures
        ({
            let after = state.observed(sample, now, None);
            let m = after.smoothed;
            let cap = state.guardrails.limits.receive_batch_cap;
            let batch = after.current.rx.receive_batch;
            let records = if m.average_record_bytes == 0 {
                524_288int
            } else {
                524_288int / m.average_record_bytes as int
            };
            let filled = if records < 1 {
                1int
            } else if records > cap {
                cap as int
            } else {
                records
            };
            &&& m.tun_ingress_rate == 0 ==> batch == cap
            &&& m.tun_ingress_rate != 0 && m.gso_ingress_ratio_ppm < 500_000 ==> batch == filled
            &&& m.tun_ingress_rate != 0 && m.gso_ingress_ratio_ppm >= 500_000 && filled <= 8
                ==> batch == filled
            &&& m.tun_ingress_rate != 0 && m.gso_ingress_ratio_ppm >= 500_000 && filled > 8
                ==> batch == 8
        }),
{
    let after = state.observed(sample, now, None);
    let m = after.smoothed;
    let entered = state.entered(sample, now);
    let f = entered.filtered(sample);
    let size = if m.average_record_bytes == 0 { 1int } else { m.average_record_bytes as int };
    assert(0 <= 524_288int / size <= 524_288) by (nonlinear_arith)
        requires
            size > 0,
    ;
    assert(f.average_record_bytes == m.average_record_bytes);
    let batch = native_receive_batch(f, state.guardrails.limits);
    assert(1 <= batch <= state.guardrails.limits.receive_batch_cap);
    assert(after.current.rx.receive_batch == batch);
}

/// Cover traffic adds 30 thousandths of the real traffic, or the cap where that
/// is less, on a path that is active, lossless and free of queues and pressure.
/// It is silent wherever one of these fails.
pub proof fn lemma_cover_runs_only_on_quiet_paths(
    state: TunerState,
    sample: PathTelemetryV2,
    now: Instant,
)
    ensures
        ({
            let after = state.observed(sample, now, None);
            let m = after.smoothed;
            let cover = after.current.cover;
            let cap = state.guardrails.limits.cover_overhead_cap_per_mille;
            let queued = m.queue_delay_micros > 5_000 && m.queue_delay_micros
                > m.min_rtt_micros as int / 2 && m.rtt_micros > m.min_rtt_micros + 5_000
                && m.rtt_micros > m.min_rtt_micros + m.min_rtt_micros as int / 2;
            let quiet = !queued && !m.short_rtt_policer_limited && sample.packet_train_queue_bytes
                == 0 && sample.latency_queue_bytes == 0 && m.cpu_per_mille < 900 && m.loss_ppm
                < 1_000 && m.burst_loss_cells < 2;
            let active = m.delivery_rate >= 131_072 || m.receive_rate >= 131_072;
            let carried = sample.real_traffic_bytes_per_second;
            &&& !quiet || !active || carried == 0 ==> cover.overhead_per_mille == 0
                && cover.padding_bytes_per_second == 0
            &&& quiet && active && carried != 0 && cap >= 30 ==> cover.overhead_per_mille == 30
            &&& quiet && active && carried != 0 && cap < 30 ==> cover.overhead_per_mille == cap
            &&& carried * 30 <= u64::MAX ==> cover.padding_bytes_per_second == carried
                * cover.overhead_per_mille / 1_000
        }),
{
    let after = state.observed(sample, now, None);
    let carried = sample.real_traffic_bytes_per_second as int;
    let overhead = after.current.cover.overhead_per_mille as int;
    assert(overhead <= 30);
    assert(0 <= carried * overhead <= carried * 30) by (nonlinear_arith)
        requires
            0 <= overhead <= 30,
            0 <= carried,
    ;
    assert(overhead == 0 ==> carried * overhead == 0) by (nonlinear_arith);
}

/// The cover profile names the traffic: idle below 128 KiB/s both ways, a
/// broadcast where the sending side carries four times the other, video where
/// both are active, and bulk otherwise.
pub proof fn lemma_cover_profile_names_the_traffic(
    state: TunerState,
    sample: PathTelemetryV2,
    now: Instant,
)
    requires
        state.observed(sample, now, None).smoothed.receive_rate <= u64::MAX / 4,
    ensures
        ({
            let after = state.observed(sample, now, None);
            let tx = after.smoothed.delivery_rate;
            let rx = after.smoothed.receive_rate;
            let profile = after.current.cover.profile;
            &&& tx < 131_072 && rx < 131_072 ==> profile == CoverTrafficProfileV2::Idle
            &&& tx >= 131_072 && tx >= 4 * rx ==> profile == CoverTrafficProfileV2::LiveBroadcast
            &&& tx >= 131_072 && rx >= 131_072 && tx < 4 * rx ==> profile
                == CoverTrafficProfileV2::InteractiveVideo
            &&& tx < 131_072 && rx >= 131_072 ==> profile == CoverTrafficProfileV2::GenericH3Bulk
        }),
{
}

/// A protected datagram path keeps ten round trips of traffic repairable, at
/// least 24 MiB from 150 ms, 16 MiB from 80 ms and 4 MiB below, and never more
/// than 32 MiB. A reliable relay keeps 1 MiB.
pub proof fn lemma_repair_cache_covers_ten_round_trips(
    state: TunerState,
    sample: PathTelemetryV2,
    now: Instant,
    forced: Option<ForcedActionV2>,
)
    requires
        state.observed(sample, now, forced).smoothed.delivery_rate <= 10_000_000_000,
        state.observed(sample, now, forced).smoothed.tun_ingress_rate <= 10_000_000_000,
        state.observed(sample, now, forced).smoothed.rtt_micros <= 60_000_000,
    ensures
        ({
            let after = state.observed(sample, now, forced);
            let m = after.smoothed;
            let cache = after.current.repair.cache_bytes;
            let rate = if m.delivery_rate >= m.tun_ingress_rate {
                m.delivery_rate as int
            } else {
                m.tun_ingress_rate as int
            };
            let trips = 10 * (rate * m.rtt_micros) / 1_000_000;
            let floor: int = if m.rtt_micros >= 150_000 {
                25_165_824
            } else if m.rtt_micros >= 80_000 {
                16_777_216
            } else {
                4_194_304
            };
            let relay = sample.reliability == PathReliability::ReliableRelay;
            let protected = after.current.fec is Some;
            &&& relay ==> cache == 1_048_576
            &&& !relay && !protected ==> cache == 0
            &&& !relay && protected && trips <= floor ==> cache == floor
            &&& !relay && protected && floor < trips <= 33_554_432 ==> cache == trips
            &&& !relay && protected && trips > 33_554_432 ==> cache == 33_554_432
        }),
{
    let m = state.observed(sample, now, forced).smoothed;
    let rate = if m.delivery_rate >= m.tun_ingress_rate {
        m.delivery_rate as int
    } else {
        m.tun_ingress_rate as int
    };
    let rtt = m.rtt_micros as int;
    assert(0 <= rate * rtt <= 10_000_000_000 * 60_000_000) by (nonlinear_arith)
        requires
            0 <= rate <= 10_000_000_000,
            0 <= rtt <= 60_000_000,
    ;
}

/// Every observation folds the sample into the averages: three eighths of it
/// for the RTT and the queueing delay, a quarter for the rates, the record size,
/// the super-packet share, the CPU and the parity figures, and the whole of it
/// where nothing was known. The minimum RTT only falls.
pub proof fn lemma_samples_are_averaged_in(
    filter: TelemetryFilterV1,
    sample: PathTelemetryV2,
    current: usize,
)
    requires
        filter.rtt_micros <= 1_000_000_000_000_000,
        filter.queue_delay_micros <= 1_000_000_000_000_000,
        filter.delivery_rate <= 1_000_000_000_000_000,
        filter.receive_rate <= 1_000_000_000_000_000,
        filter.packets_per_second <= 1_000_000_000_000_000,
        filter.tun_ingress_rate <= 1_000_000_000_000_000,
        filter.average_record_bytes <= 1_000_000_000_000_000,
        filter.gso_ingress_ratio_ppm <= 1_000_000_000_000_000,
        filter.cpu_per_mille <= 1_000_000_000_000_000,
        filter.wasted_parity_per_mille <= 1_000_000_000_000_000,
        filter.recovery_per_mille <= 1_000_000_000_000_000,
        sample.rtt.nanos <= 1_000_000_000_000_000,
        sample.min_rtt.nanos <= 1_000_000_000_000_000,
        sample.queue_delay.nanos <= 1_000_000_000_000_000,
        sample.delivery_rate_bytes_per_second <= 1_000_000_000_000_000,
        sample.receive_rate_bytes_per_second <= 1_000_000_000_000_000,
        sample.packets_per_second <= 1_000_000_000_000_000,
        sample.tun_ingress_bytes_per_second <= 1_000_000_000_000_000,
        sample.average_record_bytes <= 1_000_000_000_000_000,
    ensures
        ({
            let after = filter.spec_update(sample, current);
            let rtt = sample.rtt.nanos as int / 1_000;
            let min_rtt = sample.min_rtt.nanos as int / 1_000;
            let delay = sample.queue_delay.nanos as int / 1_000;
            &&& after.rtt_micros == (if filter.rtt_micros == 0 {
                rtt
            } else {
                (5 * filter.rtt_micros + 3 * rtt) / 8
            })
            &&& after.queue_delay_micros == (if filter.queue_delay_micros == 0 {
                delay
            } else {
                (5 * filter.queue_delay_micros + 3 * delay) / 8
            })
            &&& filter.min_rtt_micros == 0 || min_rtt <= filter.min_rtt_micros
                ==> after.min_rtt_micros == min_rtt
            &&& filter.min_rtt_micros != 0 && min_rtt > filter.min_rtt_micros
                ==> after.min_rtt_micros == filter.min_rtt_micros
            &&& after.delivery_rate == quarter(
                filter.delivery_rate,
                sample.delivery_rate_bytes_per_second as int,
            )
            &&& after.receive_rate == quarter(
                filter.receive_rate,
                sample.receive_rate_bytes_per_second as int,
            )
            &&& after.packets_per_second == quarter(
                filter.packets_per_second,
                sample.packets_per_second as int,
            )
            &&& after.tun_ingress_rate == quarter(
                filter.tun_ingress_rate,
                sample.tun_ingress_bytes_per_second as int,
            )
            &&& after.average_record_bytes == quarter(
                filter.average_record_bytes,
                sample.average_record_bytes as int,
            )
            &&& after.gso_ingress_ratio_ppm == quarter(
                filter.gso_ingress_ratio_ppm,
                sample.gso_ingress_ratio_ppm as int,
            )
            &&& after.cpu_per_mille == quarter(
                filter.cpu_per_mille,
                sample.cpu_utilization_per_mille as int,
            )
            &&& after.wasted_parity_per_mille == quarter(
                filter.wasted_parity_per_mille,
                sample.wasted_parity_per_mille as int,
            )
            &&& after.recovery_per_mille == quarter(
                filter.recovery_per_mille,
                sample.fec_recovery_per_mille as int,
            )
            &&& filter.samples < u32::MAX ==> after.samples == filter.samples + 1
        }),
{
}

/// A quarter of a new value folded into an average, or all of it where there
/// was none.
pub open spec fn quarter(average: u64, value: int) -> int {
    if average == 0 { value } else { (3 * average + value) / 4 }
}

/// Loss counts only where enough traffic stands behind it: three eighths of a
/// measured loss and half of a measured burst are folded in, one more protection
/// sample is counted, and nothing of the kind happens otherwise.
pub proof fn lemma_loss_needs_traffic_behind_it(
    filter: TelemetryFilterV1,
    sample: PathTelemetryV2,
    current: usize,
)
    requires
        !filter.short_rtt_policer_limited,
        filter.loss_ppm <= 1_000_000_000_000_000,
        filter.burst_loss_cells <= 1_000_000_000_000_000,
        filter.protection_samples < u64::MAX,
    ensures
        ({
            let after = filter.spec_update(sample, current);
            let credible = (sample.real_traffic_bytes_per_second >= 65_536
                && sample.packets_per_second >= 128) || (sample.packet_train_queue_bytes >= 65_536
                && sample.packets_per_second >= 32);
            &&& !credible ==> after.loss_ppm == filter.loss_ppm && after.burst_loss_cells
                == filter.burst_loss_cells && after.protection_samples == filter.protection_samples
            &&& credible ==> after.protection_samples == filter.protection_samples + 1
            &&& credible ==> after.loss_ppm == (if filter.loss_ppm == 0 {
                sample.loss_ppm as int
            } else {
                (5 * filter.loss_ppm + 3 * sample.loss_ppm) / 8
            })
            &&& credible ==> after.burst_loss_cells == (if filter.burst_loss_cells == 0 {
                sample.burst_loss_cells as int
            } else {
                (filter.burst_loss_cells + sample.burst_loss_cells) / 2
            })
        }),
{
}

/// A policer episode opens only on a path of at most 10 ms with a modelled
/// bandwidth of at least 8 MiB/s, smoothed loss of at least 1.5 percent, and
/// traffic that wants to leave. Its pacing cap is 95 percent of the model, or
/// less where clean deliveries peaked at less.
pub proof fn lemma_policer_opens_on_short_lossy_paths(
    filter: TelemetryFilterV1,
    sample: PathTelemetryV2,
    current: usize,
)
    requires
        !filter.short_rtt_policer_limited,
        filter.spec_update(sample, current).short_rtt_policer_limited,
        sample.controller_bw_bytes_per_second <= 1_000_000_000_000_000,
    ensures
        ({
            let after = filter.spec_update(sample, current);
            &&& after.min_rtt_micros <= 10_000
            &&& after.loss_ppm >= 15_000
            &&& after.protection_samples != 0
            &&& sample.controller_bw_bytes_per_second >= 8_388_608
            &&& sample.tun_ingress_bytes_per_second != 0 || sample.packet_train_queue_bytes != 0
            &&& after.short_rtt_policer_pacing_cap_bytes_per_second matches Some(cap)
                && cap <= sample.controller_bw_bytes_per_second * 950 / 1_000
                && cap >= (sample.controller_bw_bytes_per_second * 950 / 1_000) * 95 / 100
            &&& after.short_rtt_policer_inactive_ticks == 0
        }),
{
}

/// A short lossy path whose modelled bandwidth of at least 8 MiB/s covers the
/// delivery, without a queue, opens a policer episode.
pub proof fn lemma_short_lossy_paths_open_a_policer(
    filter: TelemetryFilterV1,
    sample: PathTelemetryV2,
    current: usize,
)
    requires
        !filter.short_rtt_policer_limited,
        sample.controller_bw_bytes_per_second >= 8_388_608,
        sample.controller_bw_bytes_per_second >= sample.delivery_rate_bytes_per_second,
        sample.queue_delay.nanos <= 5_000_000,
        sample.tun_ingress_bytes_per_second != 0 || sample.packet_train_queue_bytes != 0,
        filter.spec_update(sample, current).rtt_micros <= 10_000,
        filter.spec_update(sample, current).min_rtt_micros <= 10_000,
        filter.spec_update(sample, current).loss_ppm >= 15_000,
        filter.spec_update(sample, current).protection_samples != 0,
    ensures
        filter.spec_update(sample, current).short_rtt_policer_limited,
{
}

/// A sample of another path starts from nothing: the averages hold that sample
/// alone, no episode or pressure is remembered unless it opens here, and the
/// protection hold starts now.
pub proof fn lemma_new_path_starts_from_its_first_sample(
    state: TunerState,
    sample: PathTelemetryV2,
    now: Instant,
    forced: Option<ForcedActionV2>,
)
    requires
        sample.path_epoch != state.epoch,
        sample.rtt.nanos <= 1_000_000_000_000_000,
        sample.min_rtt.nanos <= 1_000_000_000_000_000,
    ensures
        ({
            let after = state.observed(sample, now, forced);
            &&& after.epoch == sample.path_epoch
            &&& after.current.path_epoch == sample.path_epoch
            &&& after.current.sample_count == 1
            &&& after.smoothed.samples == 1
            &&& after.smoothed.rtt_micros == sample.rtt.nanos as int / 1_000
            &&& after.smoothed.min_rtt_micros == sample.min_rtt.nanos as int / 1_000
            &&& after.smoothed.delivery_rate == sample.delivery_rate_bytes_per_second
            &&& after.smoothed.receive_rate == sample.receive_rate_bytes_per_second
            &&& after.smoothed.cpu_per_mille == sample.cpu_utilization_per_mille
            &&& after.smoothed.repair_observations == 0
            &&& sample.loss_ppm < 15_000 ==> !after.smoothed.short_rtt_policer_limited
            &&& sample.reassembly_pressure_evictions == 0
                ==> after.smoothed.receive_pressure_floor_bytes == 0
            &&& after.transition.fec_changed_at == now
        }),
{
}

/// A cold-started path sends small trains one Cell at a time, unprotected and
/// without cover, with shared conservative controller settings, the largest
/// receive batch and windows inside the bounds.
pub proof fn lemma_cold_start_is_conservative(
    epoch: u64,
    bounds: AutoTuneBoundsV2,
    reason: TuneReasonV2,
)
    requires
        bounds.minimum_socket_buffer_bytes <= bounds.maximum_socket_buffer_bytes,
        1 <= bounds.maximum_receive_batch <= u16::MAX,
    ensures
        ({
            let cold = conservative_action(epoch, bounds, reason);
            &&& cold.reason == reason
            &&& cold.path_epoch == epoch
            &&& cold.sample_count == 0
            &&& cold.scheduler.train_target_bytes == 16_384
            &&& cold.scheduler.bulk_quantum_cells == 1
            &&& cold.fec is None
            &&& cold.repair.cache_bytes == 2_097_152
            &&& cold.repair.retention_millis == 0
            &&& cold.rx.receive_buffer_bytes == bounds.minimum_receive_buffer_bytes
            &&& cold.rx.receive_batch == bounds.maximum_receive_batch
            &&& cold.rx.reassembly_budget_bytes == 0
            &&& cold.rx.active_train_budget == 0
            &&& cold.cover.profile == CoverTrafficProfileV2::Idle
            &&& cold.cover.overhead_per_mille == 0
            &&& cold.cover.padding_bytes_per_second == 0
            &&& runs(cold, Bbr3PresetV2::SharedConservative, 1_150, 250, 2_000)
            &&& bounds.minimum_socket_buffer_bytes <= cold.send_buffer_bytes
                <= bounds.maximum_socket_buffer_bytes
            &&& bounds.minimum_socket_buffer_bytes <= 524_288
                <= bounds.maximum_socket_buffer_bytes ==> cold.send_buffer_bytes == 524_288
        }),
{
}

/// A forced preset brings its full settings: only the policer caps the pacing,
/// at 97 percent of the modelled bandwidth, and takes loss for congestion.
pub proof fn lemma_forced_preset_brings_its_settings(
    state: TunerState,
    sample: PathTelemetryV2,
    now: Instant,
    forced: ForcedActionV2,
    preset: Bbr3PresetV2,
)
    requires
        forced.bbr_preset == Some(preset),
        sample.controller_bw_bytes_per_second <= 1_000_000_000_000_000,
    ensures
        ({
            let after = state.observed(sample, now, Some(forced)).current;
            &&& preset == Bbr3PresetV2::SharedConservative ==> runs(after, preset, 1_150, 250, 2_000)
            &&& preset == Bbr3PresetV2::PrivateAggressive ==> runs(after, preset, 1_350, 100, 2_500)
            &&& preset == Bbr3PresetV2::LossyRadio ==> runs(after, preset, 1_250, 150, 2_500)
            &&& preset == Bbr3PresetV2::LongFat ==> runs(after, preset, 1_250, 150, 3_000)
            &&& preset == Bbr3PresetV2::RelayReliable ==> runs(after, preset, 1_100, 300, 1_500)
            &&& preset == Bbr3PresetV2::LowRttHost ==> runs(after, preset, 1_350, 100, 2_500)
            &&& preset == Bbr3PresetV2::Policer ==> {
                &&& after.bbr.preset == preset
                &&& after.bbr.probe_bw_up_pacing_gain_milli == 1_100
                &&& after.bbr.headroom_milli == 250
                &&& after.bbr.default_cwnd_gain_milli == 2_000
                &&& after.bbr.pacing_cap_bytes_per_second == sample.controller_bw_bytes_per_second
                    * 970 / 1_000
                &&& after.bbr.loss_is_congestion
            }
            &&& after.bbr.cwnd_floor_bytes == (if preset == Bbr3PresetV2::LowRttHost {
                524_288int
            } else {
                0
            })
        }),
{
}

/// Whatever preset runs, the rest of the controller keeps the host's values.
pub proof fn lemma_controller_keeps_host_values(
    state: TunerState,
    sample: PathTelemetryV2,
    now: Instant,
    forced: Option<ForcedActionV2>,
)
    ensures
        ({
            let bbr = state.observed(sample, now, forced).current.bbr;
            &&& bbr.probe_bw_down_pacing_gain_milli == 900
            &&& bbr.cruise_pacing_gain_milli == 1_000
            &&& bbr.probe_bw_up_cwnd_gain_milli == 2_250
            &&& bbr.beta_milli == 700
            &&& bbr.loss_threshold_milli == 20
            &&& bbr.queue_guard_inflation_milli == 500
            &&& bbr.queue_guard_slack_micros == 5_000
            &&& bbr.probe_rtt_interval_millis == 5_000
            &&& bbr.probe_rtt_duration_millis == 200
            &&& bbr.probe_rtt_cwnd_gain_milli == 500
            &&& bbr.min_probe_wait_millis == 2_000
            &&& bbr.max_added_probe_wait_millis == 1_000
            &&& bbr.cwnd_cap_bytes == 0
            &&& bbr.startup_bw_hint_bytes_per_second == 0
        }),
{
}

/// A forced train size and quantum take effect where no limit and no queued
/// latency traffic stands against them, and what is not forced stays with the
/// rules.
pub proof fn lemma_forced_scheduler_takes_effect(
    state: TunerState,
    sample: PathTelemetryV2,
    now: Instant,
    forced: ForcedActionV2,
)
    requires
        state.guardrails.limits.train_target_floor_bytes
            <= state.guardrails.limits.train_target_cap_bytes,
        state.guardrails.limits.send_buffer_floor_bytes
            <= state.guardrails.limits.send_buffer_cap_bytes,
        state.guardrails.limits.receive_buffer_floor_bytes
            <= state.guardrails.limits.receive_buffer_cap_bytes,
    ensures
        ({
            let after = state.observed(sample, now, Some(forced)).current;
            let ruled = state.observed(sample, now, None).current;
            let floor = state.guardrails.limits.train_target_floor_bytes;
            let cap = state.guardrails.limits.train_target_cap_bytes;
            &&& forced.train_target_bytes matches Some(bytes) ==> {
                &&& floor <= bytes <= cap ==> after.scheduler.train_target_bytes == bytes
                &&& bytes < floor ==> after.scheduler.train_target_bytes == floor
                &&& bytes > cap ==> after.scheduler.train_target_bytes == cap
            }
            &&& forced.train_target_bytes is None ==> after.scheduler.train_target_bytes
                == ruled.scheduler.train_target_bytes
            &&& forced.bulk_quantum_cells matches Some(cells) ==> {
                &&& sample.latency_queue_bytes != 0 ==> after.scheduler.bulk_quantum_cells == 1
                &&& sample.latency_queue_bytes == 0 && 1 <= cells <= u16::MAX
                    ==> after.scheduler.bulk_quantum_cells == cells
                &&& cells == 0 ==> after.scheduler.bulk_quantum_cells == 1
            }
            &&& forced.bulk_quantum_cells is None ==> after.scheduler.bulk_quantum_cells
                == ruled.scheduler.bulk_quantum_cells
            &&& forced.bbr_preset is None ==> after.bbr == ruled.bbr
            &&& forced.fec is None ==> after.fec == ruled.fec
            &&& after.send_buffer_bytes == ruled.send_buffer_bytes
            &&& after.rx == ruled.rx
        }),
{
}

/// A learned action never touches the controller settings of its baseline.
pub proof fn lemma_learned_action_keeps_the_controller(
    guardrails: GuardrailsV1,
    ctx: GuardrailContextV1,
    baseline: TuneDecisionV2,
    action: ForcedActionV2,
    controller_bw: u64,
)
    requires
        action.bbr_preset is None,
    ensures
        guardrails.constrained(
            forced_candidate(action, controller_bw).spec_apply_over(
                EffectiveActionV1::spec_from_tune_decision(baseline),
            ),
            EffectiveActionV1::spec_from_tune_decision(baseline),
            ctx,
        ).spec_to_tune_decision().bbr == baseline.bbr,
{
}

} // verus!

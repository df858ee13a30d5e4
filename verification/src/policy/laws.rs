//! What the guardrails, the transitions and the action formats must do, case by
//! case.

use vstd::prelude::*;

use super::api::{
    clamp_entry, geometry_code, BbrCandidateV1, CandidateActionV1, ClampEntryV1, ClampFieldV1,
    ClampReasonV1, EffectiveActionV1, FecCandidateV1, HostLimitsV1,
};
use super::guardrails::{
    bounded, permitted_cover, permitted_fec, permitted_quantum, permitted_train, GuardrailContextV1,
    GuardrailsV1,
};
use super::transition::{TransitionContextV1, TransitionControllerV1};
use crate::fec::FecGeometryV2;
use crate::num::max_int;
use crate::time::Instant;
use crate::tuning::filtered::FilteredTelemetryV1;
use crate::tuning::{AutoTuneBoundsV2, PathReliability, TuneDecisionV2};

verus! {

/// A candidate's own fields win and every other field stays with the base,
/// domain by domain. The host's own fields are never a candidate's to set.
pub proof fn lemma_candidate_changes_only_what_it_names(
    candidate: CandidateActionV1,
    base: EffectiveActionV1,
)
    ensures
        ({
            let after = candidate.spec_apply_over(base);
            &&& after.reason == base.reason
            &&& after.path_epoch == base.path_epoch
            &&& after.sample_count == base.sample_count
            &&& after.repair == base.repair
            &&& after.rx.reassembly_budget_bytes == base.rx.reassembly_budget_bytes
            &&& after.rx.active_train_budget == base.rx.active_train_budget
            &&& after.cover.padding_bytes_per_second == base.cover.padding_bytes_per_second
            &&& candidate.bbr is None ==> after.bbr == base.bbr
            &&& candidate.scheduler is None ==> after.scheduler == base.scheduler
            &&& candidate.fec is None ==> after.fec == base.fec
            &&& candidate.tx is None ==> after.send_buffer_bytes == base.send_buffer_bytes
            &&& candidate.rx is None ==> after.rx == base.rx
            &&& candidate.cover is None ==> after.cover == base.cover
            &&& candidate.scheduler matches Some(scheduler) ==> {
                &&& scheduler.train_target_bytes matches Some(bytes)
                    ==> after.scheduler.train_target_bytes == bytes
                &&& scheduler.train_target_bytes is None ==> after.scheduler.train_target_bytes
                    == base.scheduler.train_target_bytes
                &&& scheduler.bulk_quantum_cells matches Some(cells)
                    ==> after.scheduler.bulk_quantum_cells == cells
                &&& scheduler.bulk_quantum_cells is None ==> after.scheduler.bulk_quantum_cells
                    == base.scheduler.bulk_quantum_cells
            }
            &&& candidate.tx matches Some(tx) ==> {
                &&& tx.send_buffer_bytes matches Some(bytes) ==> after.send_buffer_bytes == bytes
                &&& tx.send_buffer_bytes is None ==> after.send_buffer_bytes
                    == base.send_buffer_bytes
            }
            &&& candidate.rx matches Some(rx) ==> {
                &&& rx.receive_buffer_bytes matches Some(bytes) ==> after.rx.receive_buffer_bytes
                    == bytes
                &&& rx.receive_buffer_bytes is None ==> after.rx.receive_buffer_bytes
                    == base.rx.receive_buffer_bytes
                &&& rx.receive_batch matches Some(batch) ==> after.rx.receive_batch == batch
                &&& rx.receive_batch is None ==> after.rx.receive_batch == base.rx.receive_batch
            }
            &&& candidate.cover matches Some(cover) ==> {
                &&& cover.profile matches Some(profile) ==> after.cover.profile == profile
                &&& cover.profile is None ==> after.cover.profile == base.cover.profile
                &&& cover.overhead_per_mille matches Some(overhead)
                    ==> after.cover.overhead_per_mille == overhead
                &&& cover.overhead_per_mille is None ==> after.cover.overhead_per_mille
                    == base.cover.overhead_per_mille
            }
        }),
{
}

/// A protection candidate switches off, names a whole stripe, or keeps the base.
pub proof fn lemma_protection_candidate_is_whole(
    candidate: FecCandidateV1,
    base: Option<FecGeometryV2>,
)
    ensures
        ({
            let after = candidate.spec_apply_over(base);
            &&& candidate.enabled == Some(false) ==> after is None
            &&& candidate.enabled != Some(false) && candidate.data_cells is Some
                && candidate.parity_cells is Some ==> after == Some(
                FecGeometryV2 {
                    data_cells: candidate.data_cells.unwrap() as usize,
                    parity_cells: candidate.parity_cells.unwrap() as usize,
                },
            )
            &&& candidate.enabled != Some(false) && (candidate.data_cells is None
                || candidate.parity_cells is None) ==> after == base
        }),
{
}

/// Without a preset a controller candidate moves single fields of the base.
pub proof fn lemma_controller_candidate_moves_single_fields(
    candidate: BbrCandidateV1,
    base: EffectiveActionV1,
)
    requires
        candidate.preset is None,
    ensures
        ({
            let after = candidate.spec_apply_over(base.bbr);
            &&& after.preset == base.bbr.preset
            &&& after.cwnd_floor_bytes == base.bbr.cwnd_floor_bytes
            &&& after.beta_milli == base.bbr.beta_milli
            &&& candidate.probe_bw_up_pacing_gain_milli matches Some(gain)
                ==> after.probe_bw_up_pacing_gain_milli == gain
            &&& candidate.probe_bw_up_pacing_gain_milli is None
                ==> after.probe_bw_up_pacing_gain_milli == base.bbr.probe_bw_up_pacing_gain_milli
            &&& candidate.default_cwnd_gain_milli matches Some(gain)
                ==> after.default_cwnd_gain_milli == gain
            &&& candidate.default_cwnd_gain_milli is None ==> after.default_cwnd_gain_milli
                == base.bbr.default_cwnd_gain_milli
            &&& candidate.headroom_milli matches Some(room) ==> after.headroom_milli == room
            &&& candidate.headroom_milli is None ==> after.headroom_milli == base.bbr.headroom_milli
            &&& candidate.loss_is_congestion matches Some(loss) ==> after.loss_is_congestion == loss
            &&& candidate.loss_is_congestion is None ==> after.loss_is_congestion
                == base.bbr.loss_is_congestion
            &&& candidate.pacing_cap_bytes_per_second matches Some(cap)
                ==> after.pacing_cap_bytes_per_second == cap
            &&& candidate.pacing_cap_bytes_per_second is None ==> after.pacing_cap_bytes_per_second
                == base.bbr.pacing_cap_bytes_per_second
        }),
{
}

/// A decision and its action name the same values.
pub proof fn lemma_decision_names_the_action(action: EffectiveActionV1)
    requires
        action.send_buffer_bytes <= u32::MAX,
        action.rx.receive_buffer_bytes <= u32::MAX,
        action.rx.reassembly_budget_bytes <= u32::MAX,
        action.repair.cache_bytes <= u32::MAX,
    ensures
        ({
            let decision = action.spec_to_tune_decision();
            &&& decision.reason == action.reason
            &&& decision.path_epoch == action.path_epoch
            &&& decision.sample_count == action.sample_count
            &&& decision.train_target_bytes == action.scheduler.train_target_bytes
            &&& decision.bulk_quantum_cells == action.scheduler.bulk_quantum_cells
            &&& decision.fec == action.fec
            &&& decision.repair_cache_bytes == action.repair.cache_bytes
            &&& decision.repair_retention_millis == action.repair.retention_millis
            &&& decision.repair_wait_policy == action.repair.wait_policy
            &&& decision.send_buffer_bytes == action.send_buffer_bytes
            &&& decision.receive_buffer_bytes == action.rx.receive_buffer_bytes
            &&& decision.reassembly_budget_bytes == action.rx.reassembly_budget_bytes
            &&& decision.active_train_budget == action.rx.active_train_budget
            &&& decision.receive_batch == action.rx.receive_batch
            &&& decision.cover_profile == action.cover.profile
            &&& decision.cover_overhead_per_mille == action.cover.overhead_per_mille
            &&& decision.cover_padding_bytes_per_second == action.cover.padding_bytes_per_second
        }),
{
}

/// The bounds become the limits field by field, cut off where the limit is
/// narrower.
pub proof fn lemma_limits_are_the_bounds(bounds: AutoTuneBoundsV2)
    requires
        bounds.maximum_train_bytes <= u32::MAX,
        bounds.minimum_train_bytes <= u32::MAX,
        bounds.maximum_receive_batch <= u16::MAX,
    ensures
        ({
            let limits = HostLimitsV1::spec_from_bounds(bounds);
            &&& limits.train_target_floor_bytes == bounds.minimum_train_bytes
            &&& limits.train_target_cap_bytes == bounds.maximum_train_bytes
            &&& limits.send_buffer_floor_bytes == bounds.minimum_socket_buffer_bytes
            &&& limits.send_buffer_cap_bytes == bounds.maximum_socket_buffer_bytes
            &&& limits.receive_buffer_floor_bytes == bounds.minimum_receive_buffer_bytes
            &&& limits.receive_buffer_cap_bytes == bounds.maximum_socket_buffer_bytes
            &&& limits.receive_batch_cap == bounds.maximum_receive_batch
            &&& limits.cover_overhead_cap_per_mille == bounds.maximum_cover_overhead_per_mille
        }),
{
}

/// A requested protection stands as it is where the path allows parity and the
/// stripe is one; a broken stripe, or switching off under live loss, falls back
/// to the base.
pub proof fn lemma_requested_protection_stands(
    guardrails: GuardrailsV1,
    requested: EffectiveActionV1,
    base: EffectiveActionV1,
    ctx: GuardrailContextV1,
)
    requires
        ctx.reliability == PathReliability::Datagram,
        !ctx.cpu_limited,
        !ctx.congested,
    ensures
        ({
            let fec = guardrails.constrained(requested, base, ctx).fec;
            &&& requested.fec matches Some(stripe) ==> (stripe.is_valid() ==> fec == requested.fec)
            &&& requested.fec matches Some(stripe) ==> (!stripe.is_valid() ==> fec == base.fec)
            &&& requested.fec is None && !ctx.protection_emergency ==> fec is None
            &&& requested.fec is None && ctx.protection_emergency ==> fec == base.fec
        }),
{
}

/// Inside the limits, without pressure, nothing of a request is moved, and what
/// lies outside is moved to the nearest limit.
pub proof fn lemma_requests_are_moved_to_the_nearest_limit(
    guardrails: GuardrailsV1,
    requested: EffectiveActionV1,
    base: EffectiveActionV1,
    ctx: GuardrailContextV1,
)
    requires
        guardrails.wf(),
        !ctx.cpu_emergency,
        guardrails.limits.receive_batch_cap >= 1,
    ensures
        ({
            let out = guardrails.constrained(requested, base, ctx);
            let l = guardrails.limits;
            let train = requested.scheduler.train_target_bytes;
            let send = requested.send_buffer_bytes;
            let receive = requested.rx.receive_buffer_bytes;
            let batch = requested.rx.receive_batch;
            &&& train < l.train_target_floor_bytes ==> out.scheduler.train_target_bytes
                == l.train_target_floor_bytes
            &&& train > l.train_target_cap_bytes ==> out.scheduler.train_target_bytes
                == l.train_target_cap_bytes
            &&& l.train_target_floor_bytes <= train <= l.train_target_cap_bytes
                ==> out.scheduler.train_target_bytes == train
            &&& send < l.send_buffer_floor_bytes ==> out.send_buffer_bytes
                == l.send_buffer_floor_bytes
            &&& send > l.send_buffer_cap_bytes ==> out.send_buffer_bytes == l.send_buffer_cap_bytes
            &&& l.send_buffer_floor_bytes <= send <= l.send_buffer_cap_bytes
                ==> out.send_buffer_bytes == send
            &&& receive < l.receive_buffer_floor_bytes ==> out.rx.receive_buffer_bytes
                == l.receive_buffer_floor_bytes
            &&& receive > l.receive_buffer_cap_bytes ==> out.rx.receive_buffer_bytes
                == l.receive_buffer_cap_bytes
            &&& l.receive_buffer_floor_bytes <= receive <= l.receive_buffer_cap_bytes
                ==> out.rx.receive_buffer_bytes == receive
            &&& batch == 0 ==> out.rx.receive_batch == 1
            &&& batch > l.receive_batch_cap ==> out.rx.receive_batch == l.receive_batch_cap
            &&& 1 <= batch <= l.receive_batch_cap ==> out.rx.receive_batch == batch
            &&& out.bbr == requested.bbr
            &&& out.rx.reassembly_budget_bytes == requested.rx.reassembly_budget_bytes
            &&& out.rx.active_train_budget == requested.rx.active_train_budget
            &&& out.repair.retention_millis == requested.repair.retention_millis
            &&& out.repair.wait_policy == requested.repair.wait_policy
            &&& out.cover.profile == requested.cover.profile
            &&& out.reason == requested.reason
            &&& !ctx.latency_queue_active && requested.scheduler.bulk_quantum_cells >= 1
                ==> out.scheduler.bulk_quantum_cells == requested.scheduler.bulk_quantum_cells
            &&& !ctx.latency_queue_active && requested.scheduler.bulk_quantum_cells == 0
                ==> out.scheduler.bulk_quantum_cells == 1
        }),
{
}

/// While the CPU is saturated, a request above the base is brought down to it.
pub proof fn lemma_saturated_cpu_brings_batching_down(
    guardrails: GuardrailsV1,
    requested: EffectiveActionV1,
    base: EffectiveActionV1,
    ctx: GuardrailContextV1,
)
    requires
        guardrails.wf(),
        ctx.cpu_emergency,
        guardrails.limits.train_target_floor_bytes <= base.scheduler.train_target_bytes
            <= guardrails.limits.train_target_cap_bytes,
        base.scheduler.bulk_quantum_cells >= 1,
    ensures
        ({
            let out = guardrails.constrained(requested, base, ctx);
            &&& requested.scheduler.train_target_bytes >= base.scheduler.train_target_bytes
                ==> out.scheduler.train_target_bytes == base.scheduler.train_target_bytes
            &&& requested.scheduler.bulk_quantum_cells >= base.scheduler.bulk_quantum_cells
                && !ctx.latency_queue_active ==> out.scheduler.bulk_quantum_cells
                == base.scheduler.bulk_quantum_cells
        }),
{
}

/// The live facts of a sample, in its own numbers.
pub proof fn lemma_context_reads_the_sample(f: FilteredTelemetryV1)
    ensures
        ({
            let ctx = GuardrailContextV1::spec_from_filtered(f);
            let moves = TransitionContextV1::spec_from_filtered(f);
            let queued = f.queue_delay_micros > 5_000 && f.queue_delay_micros
                > f.min_rtt_micros as int / 2 && f.rtt_micros > f.min_rtt_micros + 5_000
                && f.rtt_micros > f.min_rtt_micros + f.min_rtt_micros as int / 2;
            let credible = (f.raw.real_traffic_bytes_per_second >= 65_536
                && f.raw.packets_per_second >= 128) || (f.raw.packet_train_queue_bytes >= 65_536
                && f.raw.packets_per_second >= 32);
            let live = credible && (f.raw.loss_ppm >= 10_000 || f.raw.burst_loss_cells >= 3);
            &&& ctx.reliability == f.raw.reliability
            &&& ctx.cpu_limited == (f.cpu_per_mille >= 900)
            &&& ctx.cpu_emergency == (f.raw.cpu_utilization_per_mille >= 900)
            &&& ctx.congested == (queued || f.short_rtt_policer_limited)
            &&& ctx.protection_emergency == live
            &&& ctx.latency_queue_active == (f.raw.latency_queue_bytes != 0)
            &&& ctx.bulk_queued == (f.raw.packet_train_queue_bytes != 0)
            &&& ctx.lossy == (f.loss_ppm >= 1_000 || f.burst_loss_cells >= 2)
            &&& ctx.rtt_micros == f.rtt_micros
            &&& ctx.delivery_rate_bytes_per_second == f.delivery_rate_bytes_per_second
            &&& ctx.offered_rate_bytes_per_second == f.tun_ingress_bytes_per_second
            &&& ctx.real_traffic_bytes_per_second == f.raw.real_traffic_bytes_per_second
            &&& moves.protection_emergency == live
            &&& moves.protection_forbidden == (f.raw.reliability == PathReliability::ReliableRelay
                || f.cpu_per_mille >= 900 || queued || f.short_rtt_policer_limited)
            &&& moves.receive_pressure == (f.raw.reassembly_pressure_evictions != 0)
        }),
{
}

/// A report holds an entry for exactly the fields that were moved, with the
/// requested and the effective value.
pub proof fn lemma_reports_name_what_was_moved(
    guardrails: GuardrailsV1,
    requested: EffectiveActionV1,
    base: EffectiveActionV1,
    ctx: GuardrailContextV1,
)
    ensures
        ({
            let out = guardrails.constrained(requested, base, ctx);
            let report = guardrails.constrained_clamps(requested, base, ctx);
            &&& forall|i: int|
                0 <= i < report.len() ==> (#[trigger] report[i]).requested != report[i].effective
            &&& forall|i: int|
                0 <= i < report.len() && (#[trigger] report[i]).field
                    == ClampFieldV1::SchedulerTrainTargetBytes ==> report[i].requested
                    == requested.scheduler.train_target_bytes && report[i].effective
                    == out.scheduler.train_target_bytes
            &&& forall|i: int|
                0 <= i < report.len() && (#[trigger] report[i]).field
                    == ClampFieldV1::SchedulerBulkQuantumCells ==> report[i].requested
                    == requested.scheduler.bulk_quantum_cells && report[i].effective
                    == out.scheduler.bulk_quantum_cells
            &&& forall|i: int|
                0 <= i < report.len() && (#[trigger] report[i]).field
                    == ClampFieldV1::TxSendBufferBytes ==> report[i].requested
                    == requested.send_buffer_bytes && report[i].effective == out.send_buffer_bytes
            &&& forall|i: int|
                0 <= i < report.len() && (#[trigger] report[i]).field
                    == ClampFieldV1::RxReceiveBufferBytes ==> report[i].requested
                    == requested.rx.receive_buffer_bytes && report[i].effective
                    == out.rx.receive_buffer_bytes
            &&& forall|i: int|
                0 <= i < report.len() && (#[trigger] report[i]).field
                    == ClampFieldV1::RxReceiveBatch ==> report[i].requested
                    == requested.rx.receive_batch && report[i].effective == out.rx.receive_batch
            &&& forall|i: int|
                0 <= i < report.len() && (#[trigger] report[i]).field
                    == ClampFieldV1::CoverOverheadPerMille ==> report[i].requested
                    == requested.cover.overhead_per_mille && report[i].effective
                    == out.cover.overhead_per_mille
        }),
{
}

/// The reasons in a report: pressure on the protection names the reliable path,
/// the CPU or the queue in this order; a limit names its side; queued latency
/// traffic and a saturated CPU name themselves.
pub proof fn lemma_reports_name_the_reason(
    guardrails: GuardrailsV1,
    requested: EffectiveActionV1,
    base: EffectiveActionV1,
    ctx: GuardrailContextV1,
    at: int,
)
    requires
        guardrails.wf(),
        0 <= at < guardrails.constrained_clamps(requested, base, ctx).len(),
    ensures
        ({
            let entry = guardrails.constrained_clamps(requested, base, ctx)[at];
            &&& entry.field == ClampFieldV1::FecGeometry && ctx.reliability
                == PathReliability::ReliableRelay ==> entry.reason == ClampReasonV1::ReliablePath
            &&& entry.field == ClampFieldV1::FecGeometry && ctx.reliability
                == PathReliability::Datagram && ctx.cpu_limited ==> entry.reason
                == ClampReasonV1::CpuPressure
            &&& entry.field == ClampFieldV1::FecGeometry && ctx.reliability
                == PathReliability::Datagram && !ctx.cpu_limited && ctx.congested ==> entry.reason
                == ClampReasonV1::QueuePressure
            &&& entry.field == ClampFieldV1::FecGeometry && ctx.reliability
                == PathReliability::Datagram && !ctx.cpu_limited && !ctx.congested
                && requested.fec is None ==> entry.reason == ClampReasonV1::ProtectionEmergency
            &&& entry.field == ClampFieldV1::FecGeometry && ctx.reliability
                == PathReliability::Datagram && !ctx.cpu_limited && !ctx.congested
                && requested.fec is Some ==> entry.reason == ClampReasonV1::InvalidGeometry
            &&& entry.field == ClampFieldV1::SchedulerBulkQuantumCells && ctx.latency_queue_active
                ==> entry.reason == ClampReasonV1::LatencyQueue
            &&& entry.field == ClampFieldV1::TxSendBufferBytes || entry.field
                == ClampFieldV1::RxReceiveBufferBytes || entry.field
                == ClampFieldV1::RxReceiveBatch ==> entry.reason == (if entry.requested
                > entry.effective {
                ClampReasonV1::AboveCap
            } else {
                ClampReasonV1::BelowFloor
            })
            &&& entry.field == ClampFieldV1::CoverOverheadPerMille && (ctx.congested
                || ctx.bulk_queued || ctx.latency_queue_active) ==> entry.reason
                == ClampReasonV1::QueuePressure
            &&& entry.field == ClampFieldV1::CoverOverheadPerMille && !(ctx.congested
                || ctx.bulk_queued || ctx.latency_queue_active) && ctx.cpu_limited ==> entry.reason
                == ClampReasonV1::CpuPressure
            &&& entry.field == ClampFieldV1::CoverOverheadPerMille && !(ctx.congested
                || ctx.bulk_queued || ctx.latency_queue_active) && !ctx.cpu_limited && ctx.lossy
                ==> entry.reason == ClampReasonV1::LossPressure
        }),
{
    let l = guardrails.limits;
    let out = guardrails.constrained(requested, base, ctx);
    let train = clamp_entry(
        ClampFieldV1::SchedulerTrainTargetBytes,
        requested.scheduler.train_target_bytes as u64,
        out.scheduler.train_target_bytes as u64,
        permitted_train(
            requested.scheduler.train_target_bytes,
            base.scheduler.train_target_bytes,
            l,
            ctx,
        ).1,
    );
    let quantum = clamp_entry(
        ClampFieldV1::SchedulerBulkQuantumCells,
        requested.scheduler.bulk_quantum_cells as u64,
        out.scheduler.bulk_quantum_cells as u64,
        permitted_quantum(
            requested.scheduler.bulk_quantum_cells,
            base.scheduler.bulk_quantum_cells,
            ctx,
        ).1,
    );
    let fec = clamp_entry(
        ClampFieldV1::FecGeometry,
        geometry_code(requested.fec),
        geometry_code(out.fec),
        permitted_fec(requested.fec, base.fec, ctx).1,
    );
    let send = clamp_entry(
        ClampFieldV1::TxSendBufferBytes,
        requested.send_buffer_bytes,
        out.send_buffer_bytes,
        bounded(
            requested.send_buffer_bytes,
            l.send_buffer_floor_bytes,
            l.send_buffer_cap_bytes,
        ).1,
    );
    let receive = clamp_entry(
        ClampFieldV1::RxReceiveBufferBytes,
        requested.rx.receive_buffer_bytes,
        out.rx.receive_buffer_bytes,
        bounded(
            requested.rx.receive_buffer_bytes,
            l.receive_buffer_floor_bytes,
            l.receive_buffer_cap_bytes,
        ).1,
    );
    let batch = clamp_entry(
        ClampFieldV1::RxReceiveBatch,
        requested.rx.receive_batch as u64,
        out.rx.receive_batch as u64,
        bounded(
            requested.rx.receive_batch as u64,
            1,
            max_int(l.receive_batch_cap as int, 1) as u64,
        ).1,
    );
    let cover = clamp_entry(
        ClampFieldV1::CoverOverheadPerMille,
        requested.cover.overhead_per_mille as u64,
        out.cover.overhead_per_mille as u64,
        permitted_cover(
            requested.cover.overhead_per_mille,
            requested.cover.profile,
            l.cover_overhead_cap_per_mille,
            ctx,
        ).1,
    );
    let report = train + quantum + fec + send + receive + batch + cover;
    assert(report == guardrails.constrained_clamps(requested, base, ctx));
    let entry = report[at];
    let a = train.len();
    let b = a + quantum.len();
    let c = b + fec.len();
    let d = c + send.len();
    let e = d + receive.len();
    let f = e + batch.len();
    if at < a {
        assert(entry == train[at]);
    } else if at < b {
        assert(entry == quantum[at - a]);
    } else if at < c {
        assert(entry == fec[at - b]);
    } else if at < d {
        assert(entry == send[at - c]);
    } else if at < e {
        assert(entry == receive[at - d]);
    } else if at < f {
        assert(entry == batch[at - e]);
    } else {
        assert(entry == cover[at - f]);
    }
}

/// The code of a stripe is a thousand times its data Cells plus its parity
/// Cells, and zero for none.
pub proof fn lemma_stripe_code(stripe: FecGeometryV2)
    requires
        stripe.data_cells <= 1_000_000,
        stripe.parity_cells <= 1_000_000,
    ensures
        geometry_code(Some(stripe)) == 1_000 * stripe.data_cells + stripe.parity_cells,
        geometry_code(None) == 0,
{
}

/// A move is recorded once with its values and reason, and a value that stayed
/// is not recorded.
pub proof fn lemma_only_moves_are_recorded(
    field: ClampFieldV1,
    requested: u64,
    effective: u64,
    reason: ClampReasonV1,
)
    ensures
        requested == effective ==> clamp_entry(field, requested, effective, reason).len() == 0,
        requested != effective ==> clamp_entry(field, requested, effective, reason) == seq![
            ClampEntryV1 { field, requested, effective, reason },
        ],
{
}

/// A buffer moves towards its target by at most 512 KiB per observation, and
/// reassembly pressure raises the receive window at once; nothing else of the
/// action is smoothed.
pub proof fn lemma_buffers_move_in_steps(
    controller: TransitionControllerV1,
    native: EffectiveActionV1,
    previous: EffectiveActionV1,
    now: Instant,
    ctx: TransitionContextV1,
)
    ensures
        ({
            let out = controller.smoothed(native, previous, now, ctx);
            let from = previous.send_buffer_bytes;
            let to = native.send_buffer_bytes;
            let was = previous.rx.receive_buffer_bytes;
            let want = native.rx.receive_buffer_bytes;
            &&& to > from + 524_288 ==> out.send_buffer_bytes == from + 524_288
            &&& to < from - 524_288 ==> out.send_buffer_bytes == from - 524_288
            &&& from - 524_288 <= to <= from + 524_288 ==> out.send_buffer_bytes == to
            &&& ctx.receive_pressure && want > was ==> out.rx.receive_buffer_bytes == want
            &&& !ctx.receive_pressure && want > was + 524_288 ==> out.rx.receive_buffer_bytes == was
                + 524_288
            &&& want < was - 524_288 ==> out.rx.receive_buffer_bytes == was - 524_288
            &&& was - 524_288 <= want <= was + 524_288 ==> out.rx.receive_buffer_bytes == want
            &&& out.scheduler == native.scheduler
            &&& out.bbr == native.bbr
            &&& out.cover == native.cover
            &&& out.repair == native.repair
            &&& out.rx.receive_batch == native.rx.receive_batch
        }),
{
}

/// A change of protection waits two seconds after the last one, except under
/// live loss and where protection must go.
pub proof fn lemma_protection_waits_two_seconds(
    controller: TransitionControllerV1,
    native: EffectiveActionV1,
    previous: EffectiveActionV1,
    now: Instant,
    ctx: TransitionContextV1,
)
    ensures
        ({
            let out = controller.smoothed(native, previous, now, ctx);
            let waited = now.nanos >= controller.fec_changed_at.nanos + 2_000_000_000;
            let at_once = ctx.protection_emergency || (native.fec is None
                && ctx.protection_forbidden);
            &&& waited || at_once ==> out.fec == native.fec
            &&& !waited && !at_once ==> out.fec == previous.fec
        }),
{
}

/// A whole decision survives becoming an action.
pub proof fn lemma_action_names_the_decision(decision: TuneDecisionV2)
    requires
        decision.train_target_bytes <= u32::MAX,
        decision.bulk_quantum_cells <= u16::MAX,
        decision.receive_batch <= u16::MAX,
    ensures
        ({
            let action = EffectiveActionV1::spec_from_tune_decision(decision);
            &&& action.scheduler.train_target_bytes == decision.train_target_bytes
            &&& action.scheduler.bulk_quantum_cells == decision.bulk_quantum_cells
            &&& action.fec == decision.fec
            &&& action.send_buffer_bytes == decision.send_buffer_bytes
            &&& action.rx.receive_buffer_bytes == decision.receive_buffer_bytes
            &&& action.rx.receive_batch == decision.receive_batch
            &&& action.cover.overhead_per_mille == decision.cover_overhead_per_mille
            &&& action.bbr.preset == decision.bbr.preset
            &&& action.bbr.probe_bw_up_pacing_gain_milli == decision.bbr.up_gain_milli
            &&& action.bbr.headroom_milli == decision.bbr.headroom_milli
            &&& action.bbr.default_cwnd_gain_milli == decision.bbr.cwnd_gain_milli
            &&& action.bbr.pacing_cap_bytes_per_second == decision.bbr.pacing_cap_bytes_per_second
            &&& action.bbr.loss_is_congestion == decision.bbr.loss_is_congestion
        }),
{
}

} // verus!

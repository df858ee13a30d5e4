//! Host guardrails: the absolute and path-relative limits that every action
//! passes before it reaches the dataplane.

use vstd::prelude::*;

use crate::fec::FecGeometryV2;
use crate::num::{clamp_int, max_int, min_int, sat_u64};
use crate::num::{clamp_u64, saturating_mul_u64, u64_from_usize};
use crate::policy::api::{
    clamp_entry, encode_geometry, geometry_code, CandidateActionV1, ClampEntryV1, ClampFieldV1,
    ClampReasonV1, ClampReportV1, CoverEffectiveV1, EffectiveActionV1, HostLimitsV1,
    RepairEffectiveV1, RxEffectiveV1, SchedulerEffectiveV1,
};
use crate::tuning::filtered::FilteredTelemetryV1;
use crate::tuning::{
    repair_cache_target, repair_cache_target_bytes, AutoTuneBoundsV2, CoverTrafficProfileV2,
    PathReliability,
};

verus! {

/// The live facts that the guardrails read.
#[derive(Clone, Copy, Debug, PartialEq, Eq, Structural)]
pub struct GuardrailContextV1 {
    pub reliability: PathReliability,
    pub cpu_limited: bool,
    pub cpu_emergency: bool,
    pub congested: bool,
    pub protection_emergency: bool,
    pub latency_queue_active: bool,
    /// Packet trains are queued in front of the wire.
    pub bulk_queued: bool,
    /// Smoothed loss of at least 0.1%, or bursts of at least two Cells.
    pub lossy: bool,
    pub rtt_micros: u64,
    pub delivery_rate_bytes_per_second: u64,
    pub offered_rate_bytes_per_second: u64,
    pub real_traffic_bytes_per_second: u64,
}

impl GuardrailContextV1 {
    /// The facts of one filtered sample.
    pub open spec fn spec_from_filtered(filtered: FilteredTelemetryV1) -> GuardrailContextV1 {
        GuardrailContextV1 {
            reliability: filtered.raw.reliability,
            cpu_limited: filtered.spec_cpu_limited(),
            cpu_emergency: filtered.spec_cpu_emergency(),
            congested: filtered.spec_congested(),
            protection_emergency: filtered.spec_protection_emergency(),
            latency_queue_active: filtered.spec_latency_queue_active(),
            bulk_queued: filtered.raw.packet_train_queue_bytes != 0,
            lossy: filtered.loss_ppm >= 1_000 || filtered.burst_loss_cells >= 2,
            rtt_micros: filtered.rtt_micros,
            delivery_rate_bytes_per_second: filtered.delivery_rate_bytes_per_second,
            offered_rate_bytes_per_second: filtered.tun_ingress_bytes_per_second,
            real_traffic_bytes_per_second: filtered.raw.real_traffic_bytes_per_second,
        }
    }

    /// The facts of one filtered sample.
    pub fn from_filtered(filtered: &FilteredTelemetryV1) -> (r: GuardrailContextV1)
        ensures
            r == GuardrailContextV1::spec_from_filtered(*filtered),
    {
        GuardrailContextV1 {
            reliability: filtered.raw.reliability,
            cpu_limited: filtered.cpu_limited(),
            cpu_emergency: filtered.cpu_emergency(),
            congested: filtered.congested(),
            protection_emergency: filtered.protection_emergency(),
            latency_queue_active: filtered.latency_queue_active(),
            bulk_queued: filtered.raw.packet_train_queue_bytes != 0,
            lossy: filtered.loss_ppm >= 1_000 || filtered.burst_loss_cells >= 2,
            rtt_micros: filtered.rtt_micros,
            delivery_rate_bytes_per_second: filtered.delivery_rate_bytes_per_second,
            offered_rate_bytes_per_second: filtered.tun_ingress_bytes_per_second,
            real_traffic_bytes_per_second: filtered.raw.real_traffic_bytes_per_second,
        }
    }
}

/// A value inside `floor..=cap`, with the reason where it was moved.
pub open spec fn bounded(requested: u64, floor: u64, cap: u64) -> (u64, ClampReasonV1) {
    (
        clamp_int(requested as int, floor as int, cap as int) as u64,
        if requested > cap { ClampReasonV1::AboveCap } else { ClampReasonV1::BelowFloor },
    )
}

/// A value inside `floor..=cap`, with the reason where it was moved.
fn bound(requested: u64, floor: u64, cap: u64) -> (r: (u64, ClampReasonV1))
    requires
        floor <= cap,
    ensures
        r == bounded(requested, floor, cap),
{
    (
        clamp_u64(requested, floor, cap),
        if requested > cap { ClampReasonV1::AboveCap } else { ClampReasonV1::BelowFloor },
    )
}

/// The protection that a request may have on this path: none on a reliable,
/// CPU-limited or congested one; the base where live loss forbids switching it
/// off or the geometry is not a stripe; the request otherwise.
pub open spec fn permitted_fec(
    requested: Option<FecGeometryV2>,
    base: Option<FecGeometryV2>,
    ctx: GuardrailContextV1,
) -> (Option<FecGeometryV2>, ClampReasonV1) {
    if ctx.reliability == PathReliability::ReliableRelay {
        (None, ClampReasonV1::ReliablePath)
    } else if ctx.cpu_limited {
        (None, ClampReasonV1::CpuPressure)
    } else if ctx.congested {
        (None, ClampReasonV1::QueuePressure)
    } else {
        match requested {
            None => if ctx.protection_emergency {
                (base, ClampReasonV1::ProtectionEmergency)
            } else {
                (None, ClampReasonV1::ProtectionEmergency)
            },
            Some(geometry) => if geometry.is_valid() {
                (requested, ClampReasonV1::InvalidGeometry)
            } else {
                (base, ClampReasonV1::InvalidGeometry)
            },
        }
    }
}

/// The protection that a request may have on this path.
fn permit_fec(
    requested: Option<FecGeometryV2>,
    base: Option<FecGeometryV2>,
    ctx: &GuardrailContextV1,
) -> (r: (Option<FecGeometryV2>, ClampReasonV1))
    ensures
        r == permitted_fec(requested, base, *ctx),
{
    if ctx.reliability == PathReliability::ReliableRelay {
        (None, ClampReasonV1::ReliablePath)
    } else if ctx.cpu_limited {
        (None, ClampReasonV1::CpuPressure)
    } else if ctx.congested {
        (None, ClampReasonV1::QueuePressure)
    } else {
        match requested {
            None => if ctx.protection_emergency {
                (base, ClampReasonV1::ProtectionEmergency)
            } else {
                (None, ClampReasonV1::ProtectionEmergency)
            },
            Some(geometry) => if geometry.is_valid() {
                (requested, ClampReasonV1::InvalidGeometry)
            } else {
                (base, ClampReasonV1::InvalidGeometry)
            },
        }
    }
}

/// Why cover traffic is suppressed on this path, if it is.
pub open spec fn cover_suppression(
    profile: CoverTrafficProfileV2,
    ctx: GuardrailContextV1,
) -> Option<ClampReasonV1> {
    if ctx.congested || ctx.bulk_queued || ctx.latency_queue_active {
        Some(ClampReasonV1::QueuePressure)
    } else if ctx.cpu_limited {
        Some(ClampReasonV1::CpuPressure)
    } else if ctx.lossy {
        Some(ClampReasonV1::LossPressure)
    } else if profile == CoverTrafficProfileV2::Idle || ctx.real_traffic_bytes_per_second == 0 {
        Some(ClampReasonV1::Idle)
    } else {
        None
    }
}

/// Why cover traffic is suppressed on this path, if it is.
fn suppress_cover(profile: CoverTrafficProfileV2, ctx: &GuardrailContextV1) -> (r: Option<
    ClampReasonV1,
>)
    ensures
        r == cover_suppression(profile, *ctx),
{
    if ctx.congested || ctx.bulk_queued || ctx.latency_queue_active {
        Some(ClampReasonV1::QueuePressure)
    } else if ctx.cpu_limited {
        Some(ClampReasonV1::CpuPressure)
    } else if ctx.lossy {
        Some(ClampReasonV1::LossPressure)
    } else if profile == CoverTrafficProfileV2::Idle || ctx.real_traffic_bytes_per_second == 0 {
        Some(ClampReasonV1::Idle)
    } else {
        None
    }
}

/// The cover overhead that a request may have on this path.
pub open spec fn permitted_cover(
    requested: u16,
    profile: CoverTrafficProfileV2,
    cap: u16,
    ctx: GuardrailContextV1,
) -> (u16, ClampReasonV1) {
    match cover_suppression(profile, ctx) {
        Some(reason) => (0, reason),
        None => (min_int(requested as int, cap as int) as u16, ClampReasonV1::AboveCap),
    }
}

/// Padding that an overhead in thousandths adds to the real traffic.
pub open spec fn cover_padding(real_traffic: int, overhead_per_mille: int) -> int {
    sat_u64(real_traffic * overhead_per_mille) / 1_000
}

/// A request, but not above the base while the CPU is saturated.
pub open spec fn cpu_wanted(requested: int, base: int, ctx: GuardrailContextV1) -> int {
    if ctx.cpu_emergency { min_int(requested, base) } else { requested }
}

/// The train size that a request may have: not above the base while the CPU is
/// saturated, and inside the limits.
pub open spec fn permitted_train(
    requested: u32,
    base: u32,
    limits: HostLimitsV1,
    ctx: GuardrailContextV1,
) -> (u32, ClampReasonV1) {
    let wanted = cpu_wanted(requested as int, base as int, ctx) as u64;
    let (inside, reason) = bounded(
        wanted,
        limits.train_target_floor_bytes as u64,
        limits.train_target_cap_bytes as u64,
    );
    (inside as u32, if wanted < requested { ClampReasonV1::CpuPressure } else { reason })
}

/// The Bulk quantum that a request may have: one Cell while latency traffic is
/// queued, not above the base while the CPU is saturated, never zero.
pub open spec fn permitted_quantum(requested: u16, base: u16, ctx: GuardrailContextV1) -> (
    u16,
    ClampReasonV1,
) {
    if ctx.latency_queue_active {
        (1, ClampReasonV1::LatencyQueue)
    } else {
        let wanted = cpu_wanted(requested as int, base as int, ctx);
        (
            max_int(wanted, 1) as u16,
            if wanted < requested {
                ClampReasonV1::CpuPressure
            } else {
                ClampReasonV1::BelowFloor
            },
        )
    }
}

/// The host's guardrails.
#[derive(Clone, Copy, Debug, PartialEq, Eq, Structural)]
pub struct GuardrailsV1 {
    pub limits: HostLimitsV1,
}

impl GuardrailsV1 {
    /// Every floor lies below its cap.
    pub open spec fn wf(&self) -> bool {
        self.limits.wf()
    }

    /// The guardrails of a set of tuner bounds.
    pub fn from_bounds(bounds: &AutoTuneBoundsV2) -> (r: GuardrailsV1)
        ensures
            r.limits == HostLimitsV1::spec_from_bounds(*bounds),
            bounds.wf() ==> r.wf(),
    {
        GuardrailsV1 { limits: HostLimitsV1::from_bounds(bounds) }
    }

    /// The limits in force.
    pub fn limits(&self) -> (r: &HostLimitsV1)
        ensures
            *r == self.limits,
    {
        &self.limits
    }

    /// `requested` moved inside the guardrails, with relative limits measured
    /// against `base`. The Repair cache and the cover padding follow from the
    /// protection and the overhead that remain.
    pub open spec fn constrained(
        &self,
        requested: EffectiveActionV1,
        base: EffectiveActionV1,
        ctx: GuardrailContextV1,
    ) -> EffectiveActionV1 {
        let fec = permitted_fec(requested.fec, base.fec, ctx).0;
        let overhead = permitted_cover(
            requested.cover.overhead_per_mille,
            requested.cover.profile,
            self.limits.cover_overhead_cap_per_mille,
            ctx,
        ).0;
        EffectiveActionV1 {
            scheduler: SchedulerEffectiveV1 {
                train_target_bytes: permitted_train(
                    requested.scheduler.train_target_bytes,
                    base.scheduler.train_target_bytes,
                    self.limits,
                    ctx,
                ).0,
                bulk_quantum_cells: permitted_quantum(
                    requested.scheduler.bulk_quantum_cells,
                    base.scheduler.bulk_quantum_cells,
                    ctx,
                ).0,
            },
            fec,
            repair: RepairEffectiveV1 {
                cache_bytes: repair_cache_target(
                    ctx.reliability,
                    fec is Some,
                    ctx.rtt_micros as int,
                    ctx.delivery_rate_bytes_per_second as int,
                    ctx.offered_rate_bytes_per_second as int,
                ) as u64,
                ..requested.repair
            },
            send_buffer_bytes: bounded(
                requested.send_buffer_bytes,
                self.limits.send_buffer_floor_bytes,
                self.limits.send_buffer_cap_bytes,
            ).0,
            rx: RxEffectiveV1 {
                receive_buffer_bytes: bounded(
                    requested.rx.receive_buffer_bytes,
                    self.limits.receive_buffer_floor_bytes,
                    self.limits.receive_buffer_cap_bytes,
                ).0,
                receive_batch: bounded(
                    requested.rx.receive_batch as u64,
                    1,
                    max_int(self.limits.receive_batch_cap as int, 1) as u64,
                ).0 as u16,
                ..requested.rx
            },
            cover: CoverEffectiveV1 {
                overhead_per_mille: overhead,
                padding_bytes_per_second: cover_padding(
                    ctx.real_traffic_bytes_per_second as int,
                    overhead as int,
                ) as u64,
                ..requested.cover
            },
            ..requested
        }
    }

    /// The entries that moving `requested` inside the guardrails leaves
    /// behind, field by field.
    pub open spec fn constrained_clamps(
        &self,
        requested: EffectiveActionV1,
        base: EffectiveActionV1,
        ctx: GuardrailContextV1,
    ) -> Seq<ClampEntryV1> {
        let out = self.constrained(requested, base, ctx);
        clamp_entry(
            ClampFieldV1::SchedulerTrainTargetBytes,
            requested.scheduler.train_target_bytes as u64,
            out.scheduler.train_target_bytes as u64,
            permitted_train(
                requested.scheduler.train_target_bytes,
                base.scheduler.train_target_bytes,
                self.limits,
                ctx,
            ).1,
        ) + clamp_entry(
            ClampFieldV1::SchedulerBulkQuantumCells,
            requested.scheduler.bulk_quantum_cells as u64,
            out.scheduler.bulk_quantum_cells as u64,
            permitted_quantum(
                requested.scheduler.bulk_quantum_cells,
                base.scheduler.bulk_quantum_cells,
                ctx,
            ).1,
        ) + clamp_entry(
            ClampFieldV1::FecGeometry,
            geometry_code(requested.fec),
            geometry_code(out.fec),
            permitted_fec(requested.fec, base.fec, ctx).1,
        ) + clamp_entry(
            ClampFieldV1::TxSendBufferBytes,
            requested.send_buffer_bytes,
            out.send_buffer_bytes,
            bounded(
                requested.send_buffer_bytes,
                self.limits.send_buffer_floor_bytes,
                self.limits.send_buffer_cap_bytes,
            ).1,
        ) + clamp_entry(
            ClampFieldV1::RxReceiveBufferBytes,
            requested.rx.receive_buffer_bytes,
            out.rx.receive_buffer_bytes,
            bounded(
                requested.rx.receive_buffer_bytes,
                self.limits.receive_buffer_floor_bytes,
                self.limits.receive_buffer_cap_bytes,
            ).1,
        ) + clamp_entry(
            ClampFieldV1::RxReceiveBatch,
            requested.rx.receive_batch as u64,
            out.rx.receive_batch as u64,
            bounded(
                requested.rx.receive_batch as u64,
                1,
                max_int(self.limits.receive_batch_cap as int, 1) as u64,
            ).1,
        ) + clamp_entry(
            ClampFieldV1::CoverOverheadPerMille,
            requested.cover.overhead_per_mille as u64,
            out.cover.overhead_per_mille as u64,
            permitted_cover(
                requested.cover.overhead_per_mille,
                requested.cover.profile,
                self.limits.cover_overhead_cap_per_mille,
                ctx,
            ).1,
        )
    }

    /// Move `requested` inside the guardrails.
    fn constrain(
        &self,
        requested: &EffectiveActionV1,
        base: &EffectiveActionV1,
        ctx: &GuardrailContextV1,
    ) -> (r: (EffectiveActionV1, ClampReportV1))
        requires
            self.wf(),
        ensures
            r.0 == self.constrained(*requested, *base, *ctx),
            r.1.entries@ == self.constrained_clamps(*requested, *base, *ctx),
    {
        let mut out: EffectiveActionV1 = *requested;
        let mut report = ClampReportV1::default();

        let wanted_train: u32 = if ctx.cpu_emergency {
            requested.scheduler.train_target_bytes.min(base.scheduler.train_target_bytes)
        } else {
            requested.scheduler.train_target_bytes
        };
        let (inside, reason) = bound(
            wanted_train as u64,
            self.limits.train_target_floor_bytes as u64,
            self.limits.train_target_cap_bytes as u64,
        );
        let train: u32 = inside as u32;
        let train_reason: ClampReasonV1 = if wanted_train < requested.scheduler.train_target_bytes {
            ClampReasonV1::CpuPressure
        } else {
            reason
        };
        report.record(
            ClampFieldV1::SchedulerTrainTargetBytes,
            requested.scheduler.train_target_bytes as u64,
            train as u64,
            train_reason,
        );
        out.scheduler.train_target_bytes = train;

        let wanted_quantum: u16 = if ctx.cpu_emergency {
            requested.scheduler.bulk_quantum_cells.min(base.scheduler.bulk_quantum_cells)
        } else {
            requested.scheduler.bulk_quantum_cells
        };
        let (quantum, quantum_reason): (u16, ClampReasonV1) = if ctx.latency_queue_active {
            (1, ClampReasonV1::LatencyQueue)
        } else if wanted_quantum < requested.scheduler.bulk_quantum_cells {
            (wanted_quantum.max(1), ClampReasonV1::CpuPressure)
        } else {
            (wanted_quantum.max(1), ClampReasonV1::BelowFloor)
        };
        report.record(
            ClampFieldV1::SchedulerBulkQuantumCells,
            requested.scheduler.bulk_quantum_cells as u64,
            quantum as u64,
            quantum_reason,
        );
        out.scheduler.bulk_quantum_cells = quantum;

        let (fec, fec_reason) = permit_fec(requested.fec, base.fec, ctx);
        report.record(
            ClampFieldV1::FecGeometry,
            encode_geometry(requested.fec),
            encode_geometry(fec),
            fec_reason,
        );
        out.fec = fec;
        out.repair.cache_bytes = u64_from_usize(
            repair_cache_target_bytes(
                ctx.reliability,
                fec,
                ctx.rtt_micros,
                ctx.delivery_rate_bytes_per_second,
                ctx.offered_rate_bytes_per_second,
            ),
        );

        let (send, send_reason) = bound(
            requested.send_buffer_bytes,
            self.limits.send_buffer_floor_bytes,
            self.limits.send_buffer_cap_bytes,
        );
        report.record(
            ClampFieldV1::TxSendBufferBytes,
            requested.send_buffer_bytes,
            send,
            send_reason,
        );
        out.send_buffer_bytes = send;

        let (receive, receive_reason) = bound(
            requested.rx.receive_buffer_bytes,
            self.limits.receive_buffer_floor_bytes,
            self.limits.receive_buffer_cap_bytes,
        );
        report.record(
            ClampFieldV1::RxReceiveBufferBytes,
            requested.rx.receive_buffer_bytes,
            receive,
            receive_reason,
        );
        out.rx.receive_buffer_bytes = receive;

        let (batch, batch_reason) = bound(
            requested.rx.receive_batch as u64,
            1,
            self.limits.receive_batch_cap.max(1) as u64,
        );
        report.record(
            ClampFieldV1::RxReceiveBatch,
            requested.rx.receive_batch as u64,
            batch,
            batch_reason,
        );
        out.rx.receive_batch = batch as u16;

        let (overhead, cover_reason): (u16, ClampReasonV1) = match suppress_cover(
            requested.cover.profile,
            ctx,
        ) {
            Some(reason) => (0, reason),
            None => (
                requested.cover.overhead_per_mille.min(self.limits.cover_overhead_cap_per_mille),
                ClampReasonV1::AboveCap,
            ),
        };
        report.record(
            ClampFieldV1::CoverOverheadPerMille,
            requested.cover.overhead_per_mille as u64,
            overhead as u64,
            cover_reason,
        );
        out.cover.overhead_per_mille = overhead;
        out.cover.padding_bytes_per_second = saturating_mul_u64(
            ctx.real_traffic_bytes_per_second,
            overhead as u64,
        ) / 1_000;
        assert(report.entries@ =~= self.constrained_clamps(*requested, *base, *ctx));
        (out, report)
    }

    /// Constrain an untrusted candidate over `base`.
    pub fn apply(
        &self,
        candidate: &CandidateActionV1,
        base: &EffectiveActionV1,
        ctx: &GuardrailContextV1,
    ) -> (r: (EffectiveActionV1, ClampReportV1))
        requires
            self.wf(),
        ensures
            r.0 == self.constrained(candidate.spec_apply_over(*base), *base, *ctx),
            r.1.entries@ == self.constrained_clamps(
                candidate.spec_apply_over(*base),
                *base,
                *ctx,
            ),
    {
        let requested = candidate.apply_over(base);
        self.constrain(&requested, base, ctx)
    }

    /// Constrain a complete action against itself: the relative limits are
    /// identities and the absolute ones bind.
    pub fn reapply(&self, effective: &EffectiveActionV1, ctx: &GuardrailContextV1) -> (r: (
        EffectiveActionV1,
        ClampReportV1,
    ))
        requires
            self.wf(),
        ensures
            r.0 == self.constrained(*effective, *effective, *ctx),
            r.1.entries@ == self.constrained_clamps(*effective, *effective, *ctx),
    {
        self.constrain(effective, effective, ctx)
    }
}

impl EffectiveActionV1 {
    /// The action lies inside the host limits, and its protection is a stripe.
    pub open spec fn inside(&self, limits: HostLimitsV1) -> bool {
        &&& limits.train_target_floor_bytes <= self.scheduler.train_target_bytes
            <= limits.train_target_cap_bytes
        &&& self.scheduler.bulk_quantum_cells >= 1
        &&& self.fec matches Some(geometry) ==> geometry.is_valid()
        &&& limits.send_buffer_floor_bytes <= self.send_buffer_bytes
            <= limits.send_buffer_cap_bytes
        &&& limits.receive_buffer_floor_bytes <= self.rx.receive_buffer_bytes
            <= limits.receive_buffer_cap_bytes
        &&& 1 <= self.rx.receive_batch <= max_int(limits.receive_batch_cap as int, 1)
        &&& self.cover.overhead_per_mille <= limits.cover_overhead_cap_per_mille
    }
}

/// Whatever was requested, the outcome lies inside the host limits.
pub proof fn lemma_guardrails_bound_every_action(
    guardrails: GuardrailsV1,
    requested: EffectiveActionV1,
    base: EffectiveActionV1,
    ctx: GuardrailContextV1,
)
    requires
        guardrails.wf(),
        base.fec matches Some(geometry) ==> geometry.is_valid(),
    ensures
        guardrails.constrained(requested, base, ctx).inside(guardrails.limits),
{
}

/// A reliable, CPU-limited or congested path carries no parity.
pub proof fn lemma_guardrails_forbid_protection(
    guardrails: GuardrailsV1,
    requested: EffectiveActionV1,
    base: EffectiveActionV1,
    ctx: GuardrailContextV1,
)
    requires
        ctx.reliability == PathReliability::ReliableRelay || ctx.cpu_limited || ctx.congested,
    ensures
        guardrails.constrained(requested, base, ctx).fec is None,
{
}

/// Under live loss a request cannot switch off the protection of the base.
pub proof fn lemma_emergency_protection_cannot_be_switched_off(
    guardrails: GuardrailsV1,
    requested: EffectiveActionV1,
    base: EffectiveActionV1,
    ctx: GuardrailContextV1,
)
    requires
        ctx.protection_emergency,
        ctx.reliability == PathReliability::Datagram,
        !ctx.cpu_limited,
        !ctx.congested,
        base.fec is Some,
    ensures
        guardrails.constrained(requested, base, ctx).fec is Some,
        requested.fec is None ==> guardrails.constrained(requested, base, ctx).fec == base.fec,
{
}

/// Bulk never overtakes queued latency traffic.
pub proof fn lemma_queued_latency_keeps_bulk_at_one_cell(
    guardrails: GuardrailsV1,
    requested: EffectiveActionV1,
    base: EffectiveActionV1,
    ctx: GuardrailContextV1,
)
    requires
        ctx.latency_queue_active,
    ensures
        guardrails.constrained(requested, base, ctx).scheduler.bulk_quantum_cells == 1,
{
}

/// While the CPU is saturated, a request does not raise scheduler batching
/// above a base that lies inside the limits.
pub proof fn lemma_cpu_emergency_does_not_raise_batching(
    guardrails: GuardrailsV1,
    requested: EffectiveActionV1,
    base: EffectiveActionV1,
    ctx: GuardrailContextV1,
)
    requires
        guardrails.wf(),
        base.inside(guardrails.limits),
        ctx.cpu_emergency,
    ensures
        guardrails.constrained(requested, base, ctx).scheduler.train_target_bytes
            <= base.scheduler.train_target_bytes,
        guardrails.constrained(requested, base, ctx).scheduler.bulk_quantum_cells
            <= base.scheduler.bulk_quantum_cells,
{
}

/// A datagram path keeps a Repair cache exactly while it is protected.
pub proof fn lemma_repair_cache_exists_with_protection(
    guardrails: GuardrailsV1,
    requested: EffectiveActionV1,
    base: EffectiveActionV1,
    ctx: GuardrailContextV1,
)
    requires
        ctx.reliability == PathReliability::Datagram,
    ensures
        ({
            let out = guardrails.constrained(requested, base, ctx);
            (out.repair.cache_bytes != 0) == (out.fec is Some)
        }),
{
    let out = guardrails.constrained(requested, base, ctx);
    crate::tuning::lemma_repair_cache_follows_protection(
        out.fec is Some,
        ctx.rtt_micros as int,
        ctx.delivery_rate_bytes_per_second as int,
        ctx.offered_rate_bytes_per_second as int,
    );
}

/// A second pass over an action that already passed changes nothing and
/// reports nothing.
pub proof fn lemma_guardrails_are_idempotent(
    guardrails: GuardrailsV1,
    requested: EffectiveActionV1,
    base: EffectiveActionV1,
    ctx: GuardrailContextV1,
)
    requires
        guardrails.wf(),
        base.fec matches Some(geometry) ==> geometry.is_valid(),
    ensures
        ({
            let once = guardrails.constrained(requested, base, ctx);
            &&& guardrails.constrained(once, once, ctx) == once
            &&& guardrails.constrained_clamps(once, once, ctx) == Seq::<ClampEntryV1>::empty()
        }),
{
    let once = guardrails.constrained(requested, base, ctx);
    assert(guardrails.constrained(once, once, ctx) == once);
    assert(guardrails.constrained_clamps(once, once, ctx) =~= Seq::<ClampEntryV1>::empty());
}

} // verus!

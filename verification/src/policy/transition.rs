//! The transition controller: hysteresis for protection and bounded steps for
//! the buffers of the native rules.

use vstd::prelude::*;

use crate::fec::FecGeometryV2;
use crate::num::{max_int, min_int};
use crate::policy::api::{
    clamp_entry, encode_geometry, geometry_code, ClampEntryV1, ClampFieldV1, ClampReasonV1,
    ClampReportV1, EffectiveActionV1, RxEffectiveV1,
};
use crate::time::Instant;
use crate::tuning::filtered::FilteredTelemetryV1;

verus! {

/// Nanoseconds for which a protection geometry is kept before an ordinary
/// change.
pub const FEC_HOLD_NANOS: u128 = 2_000_000_000;

/// Bytes by which a buffer moves per observation.
pub const BUFFER_STEP_BYTES: u64 = 524_288;

/// The live facts that the transitions read.
#[derive(Clone, Copy, Debug, PartialEq, Eq, Structural)]
pub struct TransitionContextV1 {
    /// Live loss that installs protection without hysteresis.
    pub protection_emergency: bool,
    /// Evidence that switches protection off without hysteresis.
    pub protection_forbidden: bool,
    /// Reassembly evictions that raise the receive window at once.
    pub receive_pressure: bool,
}

impl TransitionContextV1 {
    /// The facts of one filtered sample.
    pub open spec fn spec_from_filtered(filtered: FilteredTelemetryV1) -> TransitionContextV1 {
        TransitionContextV1 {
            protection_emergency: filtered.spec_protection_emergency(),
            protection_forbidden: filtered.spec_reliable() || filtered.spec_cpu_limited()
                || filtered.spec_congested(),
            receive_pressure: filtered.spec_receive_pressure(),
        }
    }

    /// The facts of one filtered sample.
    pub fn from_filtered(filtered: &FilteredTelemetryV1) -> (r: TransitionContextV1)
        ensures
            r == TransitionContextV1::spec_from_filtered(*filtered),
    {
        TransitionContextV1 {
            protection_emergency: filtered.protection_emergency(),
            protection_forbidden: filtered.reliable() || filtered.cpu_limited()
                || filtered.congested(),
            receive_pressure: filtered.receive_pressure(),
        }
    }
}

/// `previous` moved towards `target` by at most one step.
pub open spec fn stepped(previous: int, target: int) -> int {
    if target > previous {
        min_int(target, previous + BUFFER_STEP_BYTES)
    } else {
        max_int(target, previous - BUFFER_STEP_BYTES)
    }
}

/// `previous` moved towards `target` by at most one step.
fn step(previous: u64, target: u64) -> (r: u64)
    ensures
        r == stepped(previous as int, target as int),
{
    if target > previous {
        target.min(previous.saturating_add(BUFFER_STEP_BYTES))
    } else {
        target.max(previous.saturating_sub(BUFFER_STEP_BYTES))
    }
}

/// Hysteresis state: when the protection geometry last changed.
#[derive(Clone, Copy, Debug, PartialEq, Eq, Structural)]
pub struct TransitionControllerV1 {
    pub fec_changed_at: Instant,
}

impl TransitionControllerV1 {
    /// A controller whose hold starts at `now`.
    pub fn new(now: Instant) -> (r: TransitionControllerV1)
        ensures
            r.fec_changed_at == now,
    {
        TransitionControllerV1 { fec_changed_at: now }
    }

    /// Restart the hold at `now`.
    pub fn reset(&mut self, now: Instant)
        ensures
            final(self).fec_changed_at == now,
    {
        self.fec_changed_at = now;
    }

    /// A change of protection passes at once under live loss, where protection
    /// must go, or once the geometry has been kept long enough.
    pub open spec fn fec_released(
        &self,
        target: Option<FecGeometryV2>,
        now: Instant,
        ctx: TransitionContextV1,
    ) -> bool {
        ||| ctx.protection_emergency
        ||| target is None && ctx.protection_forbidden
        ||| now.since(self.fec_changed_at) >= FEC_HOLD_NANOS
    }

    /// The protection in effect after one observation.
    pub open spec fn settled_fec(
        &self,
        target: Option<FecGeometryV2>,
        previous: Option<FecGeometryV2>,
        now: Instant,
        ctx: TransitionContextV1,
    ) -> Option<FecGeometryV2> {
        if self.fec_released(target, now, ctx) { target } else { previous }
    }

    /// The receive window after one observation: pressure raises it at once.
    pub open spec fn settled_receive(
        target: int,
        previous: int,
        ctx: TransitionContextV1,
    ) -> int {
        if ctx.receive_pressure && target > previous { target } else { stepped(previous, target) }
    }

    /// The native action with its transitions smoothed.
    pub open spec fn smoothed(
        &self,
        native: EffectiveActionV1,
        previous: EffectiveActionV1,
        now: Instant,
        ctx: TransitionContextV1,
    ) -> EffectiveActionV1 {
        EffectiveActionV1 {
            fec: self.settled_fec(native.fec, previous.fec, now, ctx),
            send_buffer_bytes: stepped(
                previous.send_buffer_bytes as int,
                native.send_buffer_bytes as int,
            ) as u64,
            rx: RxEffectiveV1 {
                receive_buffer_bytes: Self::settled_receive(
                    native.rx.receive_buffer_bytes as int,
                    previous.rx.receive_buffer_bytes as int,
                    ctx,
                ) as u64,
                ..native.rx
            },
            ..native
        }
    }

    /// The holds that smoothing leaves behind.
    pub open spec fn smoothed_holds(
        &self,
        native: EffectiveActionV1,
        previous: EffectiveActionV1,
        now: Instant,
        ctx: TransitionContextV1,
    ) -> Seq<ClampEntryV1> {
        let out = self.smoothed(native, previous, now, ctx);
        clamp_entry(
            ClampFieldV1::FecGeometry,
            geometry_code(native.fec),
            geometry_code(out.fec),
            ClampReasonV1::TransitionHold,
        ) + clamp_entry(
            ClampFieldV1::TxSendBufferBytes,
            native.send_buffer_bytes,
            out.send_buffer_bytes,
            ClampReasonV1::TransitionHold,
        ) + clamp_entry(
            ClampFieldV1::RxReceiveBufferBytes,
            native.rx.receive_buffer_bytes,
            out.rx.receive_buffer_bytes,
            ClampReasonV1::TransitionHold,
        )
    }

    /// Smooth the transitions from `previous` to `native`.
    pub fn smooth(
        &mut self,
        native: &EffectiveActionV1,
        previous: &EffectiveActionV1,
        now: Instant,
        ctx: &TransitionContextV1,
    ) -> (r: (EffectiveActionV1, ClampReportV1))
        ensures
            r.0 == old(self).smoothed(*native, *previous, now, *ctx),
            r.1.entries@ == old(self).smoothed_holds(*native, *previous, now, *ctx),
            final(self).fec_changed_at == (if r.0.fec != previous.fec {
                now
            } else {
                old(self).fec_changed_at
            }),
    {
        let mut out: EffectiveActionV1 = *native;
        let mut report = ClampReportV1::default();
        let released: bool = ctx.protection_emergency || (native.fec.is_none()
            && ctx.protection_forbidden) || now.saturating_duration_since(
            self.fec_changed_at,
        ).nanos >= FEC_HOLD_NANOS;
        if !released {
            out.fec = previous.fec;
        }
        if out.fec != previous.fec {
            self.fec_changed_at = now;
        }
        report.record(
            ClampFieldV1::FecGeometry,
            encode_geometry(native.fec),
            encode_geometry(out.fec),
            ClampReasonV1::TransitionHold,
        );
        out.send_buffer_bytes = step(previous.send_buffer_bytes, native.send_buffer_bytes);
        report.record(
            ClampFieldV1::TxSendBufferBytes,
            native.send_buffer_bytes,
            out.send_buffer_bytes,
            ClampReasonV1::TransitionHold,
        );
        out.rx.receive_buffer_bytes = if ctx.receive_pressure && native.rx.receive_buffer_bytes
            > previous.rx.receive_buffer_bytes {
            native.rx.receive_buffer_bytes
        } else {
            step(previous.rx.receive_buffer_bytes, native.rx.receive_buffer_bytes)
        };
        report.record(
            ClampFieldV1::RxReceiveBufferBytes,
            native.rx.receive_buffer_bytes,
            out.rx.receive_buffer_bytes,
            ClampReasonV1::TransitionHold,
        );
        assert(report.entries@ =~= old(self).smoothed_holds(*native, *previous, now, *ctx));
        (out, report)
    }
}

/// Steps never leave the range between the value in effect and its target,
/// and a constant target is reached after finitely many of them.
pub proof fn lemma_steps_converge(previous: int, target: int)
    requires
        0 <= previous,
        0 <= target,
    ensures
        min_int(previous, target) <= stepped(previous, target) <= max_int(previous, target),
        previous != target ==> {
            let left = if previous > target { previous - target } else { target - previous };
            let next = stepped(previous, target);
            let remaining = if next > target { next - target } else { target - next };
            remaining == max_int(left - BUFFER_STEP_BYTES, 0)
        },
        previous == target ==> stepped(previous, target) == target,
{
}

/// What a transition held back is reported, field by field: what was asked,
/// what stands, and that it was held. What was not held is not reported.
pub proof fn lemma_held_fields_are_reported(
    controller: TransitionControllerV1,
    native: EffectiveActionV1,
    previous: EffectiveActionV1,
    now: Instant,
    ctx: TransitionContextV1,
)
    ensures
        ({
            let out = controller.smoothed(native, previous, now, ctx);
            let held = controller.smoothed_holds(native, previous, now, ctx);
            let stripe = geometry_code(native.fec) != geometry_code(out.fec);
            let send = native.send_buffer_bytes != out.send_buffer_bytes;
            let receive = native.rx.receive_buffer_bytes != out.rx.receive_buffer_bytes;
            &&& held.len() == (if stripe { 1int } else { 0 }) + (if send { 1int } else { 0 }) + (
            if receive { 1int } else { 0 })
            &&& stripe ==> held[0] == (ClampEntryV1 {
                field: ClampFieldV1::FecGeometry,
                requested: geometry_code(native.fec),
                effective: geometry_code(out.fec),
                reason: ClampReasonV1::TransitionHold,
            })
            &&& send ==> held[if stripe { 1int } else { 0 }] == (ClampEntryV1 {
                field: ClampFieldV1::TxSendBufferBytes,
                requested: native.send_buffer_bytes,
                effective: out.send_buffer_bytes,
                reason: ClampReasonV1::TransitionHold,
            })
            &&& receive ==> held.last() == (ClampEntryV1 {
                field: ClampFieldV1::RxReceiveBufferBytes,
                requested: native.rx.receive_buffer_bytes,
                effective: out.rx.receive_buffer_bytes,
                reason: ClampReasonV1::TransitionHold,
            })
        }),
{
}

} // verus!

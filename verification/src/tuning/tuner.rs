//! The auto-tuner: composition of filter, native rules, guardrails and
//! transitions.

use vstd::prelude::*;

use crate::num::{min_int, sat_usize, usize_from_u64};
use crate::policy::api::{
    CandidateActionV1, ClampEntryV1, ClampReportV1, EffectiveActionV1, HostLimitsV1,
};
use crate::policy::guardrails::{
    cover_suppression, lemma_emergency_protection_cannot_be_switched_off,
    lemma_guardrails_bound_every_action, GuardrailContextV1, GuardrailsV1,
};
use crate::policy::transition::{TransitionContextV1, TransitionControllerV1};
use crate::time::{Instant, MonotonicClock};
use crate::tuning::filter::TelemetryFilterV1;
use crate::tuning::filtered::FilteredTelemetryV1;
use crate::tuning::native::{forced_candidate, native_candidate, NativePolicyV1};
use crate::tuning::{
    AutoTuneBoundsV2, Bbr3ProposalV2, ForcedActionV2, PathTelemetryV2, TuneDecisionV2,
    TuneReasonV2,
};

verus! {

/// Thin composition of the auto-tune pipeline:
///
/// ```text
/// raw telemetry
/// -> TelemetryFilterV1        (EWMA, min RTT, Repair evidence, pressure hold)
/// -> NativePolicyV1           (rule candidate)
/// -> GuardrailsV1             (host hard limits)
/// -> TransitionControllerV1   (FEC hysteresis, buffer steps)
/// -> [forced override, through GuardrailsV1]
/// -> GuardrailsV1 final pass
/// -> EffectiveActionV1 -> TuneDecisionV2
/// ```
///
/// An explicit [`ForcedActionV2`] enters the same pipeline as an untrusted
/// candidate; by contract its values are exact inside the guardrails, so it
/// is merged after the transition controller (which only smooths the native
/// rule's proposal) and before the final guardrail pass.
#[derive(Debug)]
pub struct AutoTunerV2 {
    pub bounds: AutoTuneBoundsV2,
    pub epoch: u64,
    pub smoothed: TelemetryFilterV1,
    pub policy: NativePolicyV1,
    pub guardrails: GuardrailsV1,
    pub transition: TransitionControllerV1,
    pub current: EffectiveActionV1,
    pub last_clamps: ClampReportV1,
    pub clock: MonotonicClock,
}

/// What the tuner remembers between observations.
pub ghost struct TunerState {
    pub bounds: AutoTuneBoundsV2,
    pub epoch: u64,
    pub smoothed: TelemetryFilterV1,
    pub guardrails: GuardrailsV1,
    pub transition: TransitionControllerV1,
    pub current: EffectiveActionV1,
}

/// The cold-start action of a path with the given reason.
pub open spec fn conservative_action(
    epoch: u64,
    bounds: AutoTuneBoundsV2,
    reason: TuneReasonV2,
) -> EffectiveActionV1 {
    EffectiveActionV1::spec_from_tune_decision(
        TuneDecisionV2 { reason, ..TuneDecisionV2::spec_conservative(epoch, bounds) },
    )
}

impl TunerState {
    /// Bounds, filter and guardrails agree.
    pub open spec fn wf(self) -> bool {
        &&& self.bounds.wf()
        &&& self.smoothed.wf()
        &&& self.smoothed.bounds == self.bounds
        &&& self.guardrails.limits == HostLimitsV1::spec_from_bounds(self.bounds)
    }

    /// The state from which a sample is observed: a sample of another path
    /// epoch first forgets everything learned.
    pub open spec fn entered(self, sample: PathTelemetryV2, now: Instant) -> TunerState {
        if sample.path_epoch != self.epoch {
            TunerState {
                epoch: sample.path_epoch,
                smoothed: TelemetryFilterV1::spec_new(self.smoothed.bounds),
                transition: TransitionControllerV1 { fec_changed_at: now },
                current: conservative_action(
                    sample.path_epoch,
                    self.bounds,
                    TuneReasonV2::PathChanged,
                ),
                ..self
            }
        } else {
            self
        }
    }

    /// The filter after the sample.
    pub open spec fn filter_after(self, sample: PathTelemetryV2) -> TelemetryFilterV1 {
        self.smoothed.spec_update(
            sample,
            sat_usize(self.current.rx.receive_buffer_bytes as int) as usize,
        )
    }

    /// The filtered view of the sample.
    pub open spec fn filtered(self, sample: PathTelemetryV2) -> FilteredTelemetryV1 {
        self.filter_after(sample).spec_view(sample)
    }

    /// The native rules' action over the one in effect, before guardrails.
    pub open spec fn native_request(self, sample: PathTelemetryV2) -> EffectiveActionV1 {
        let candidate = native_candidate(self.filtered(sample), self.guardrails.limits);
        candidate.spec_apply_over(candidate.spec_apply_over(self.current))
    }

    /// The base that relative guardrails of the native pass measure against.
    pub open spec fn native_base(self, sample: PathTelemetryV2) -> EffectiveActionV1 {
        native_candidate(self.filtered(sample), self.guardrails.limits).spec_apply_over(
            self.current,
        )
    }

    /// The native rules' action inside the guardrails.
    pub open spec fn native(self, sample: PathTelemetryV2) -> EffectiveActionV1 {
        let filtered = self.filtered(sample);
        EffectiveActionV1 {
            reason: filtered.spec_classify(),
            path_epoch: self.epoch,
            sample_count: filtered.sample_count,
            ..self.guardrails.constrained(
                self.native_request(sample),
                self.native_base(sample),
                GuardrailContextV1::spec_from_filtered(filtered),
            )
        }
    }

    /// The native action after its transitions.
    pub open spec fn settled(self, sample: PathTelemetryV2, now: Instant) -> EffectiveActionV1 {
        self.transition.smoothed(
            self.native(sample),
            self.current,
            now,
            TransitionContextV1::spec_from_filtered(self.filtered(sample)),
        )
    }

    /// The facts that an override is constrained against: the relative
    /// CPU-emergency clamp is reserved for learned actions.
    pub open spec fn experiment_context(self, sample: PathTelemetryV2) -> GuardrailContextV1 {
        GuardrailContextV1 {
            cpu_emergency: false,
            ..GuardrailContextV1::spec_from_filtered(self.filtered(sample))
        }
    }

    /// The settled action with an override laid over it.
    pub open spec fn overridden(
        self,
        sample: PathTelemetryV2,
        now: Instant,
        forced: Option<ForcedActionV2>,
    ) -> EffectiveActionV1 {
        match forced {
            Some(forced) => self.guardrails.constrained(
                forced_candidate(
                    forced,
                    sample.controller_bw_bytes_per_second,
                ).spec_apply_over(self.settled(sample, now)),
                self.settled(sample, now),
                self.experiment_context(sample),
            ),
            None => self.settled(sample, now),
        }
    }

    /// The action that takes effect.
    pub open spec fn effective(
        self,
        sample: PathTelemetryV2,
        now: Instant,
        forced: Option<ForcedActionV2>,
    ) -> EffectiveActionV1 {
        let action = self.overridden(sample, now, forced);
        self.guardrails.constrained(
            action,
            action,
            GuardrailContextV1::spec_from_filtered(self.filtered(sample)),
        )
    }

    /// Every clamp and hold on the way to the effective action.
    pub open spec fn clamps(
        self,
        sample: PathTelemetryV2,
        now: Instant,
        forced: Option<ForcedActionV2>,
    ) -> Seq<ClampEntryV1> {
        let filtered = self.filtered(sample);
        let ctx = GuardrailContextV1::spec_from_filtered(filtered);
        let forced_clamps = match forced {
            Some(forced) => self.guardrails.constrained_clamps(
                forced_candidate(
                    forced,
                    sample.controller_bw_bytes_per_second,
                ).spec_apply_over(self.settled(sample, now)),
                self.settled(sample, now),
                self.experiment_context(sample),
            ),
            None => Seq::empty(),
        };
        let action = self.overridden(sample, now, forced);
        self.guardrails.constrained_clamps(
            self.native_request(sample),
            self.native_base(sample),
            ctx,
        ) + self.transition.smoothed_holds(
            self.native(sample),
            self.current,
            now,
            TransitionContextV1::spec_from_filtered(filtered),
        ) + forced_clamps + self.guardrails.constrained_clamps(action, action, ctx)
    }

    /// The state after one observation of an entered path.
    pub open spec fn advanced(
        self,
        sample: PathTelemetryV2,
        now: Instant,
        forced: Option<ForcedActionV2>,
    ) -> TunerState {
        TunerState {
            smoothed: self.filter_after(sample),
            transition: if self.settled(sample, now).fec != self.current.fec {
                TransitionControllerV1 { fec_changed_at: now }
            } else {
                self.transition
            },
            current: self.effective(sample, now, forced),
            ..self
        }
    }

    /// The state after one observation.
    pub open spec fn observed(
        self,
        sample: PathTelemetryV2,
        now: Instant,
        forced: Option<ForcedActionV2>,
    ) -> TunerState {
        self.entered(sample, now).advanced(sample, now, forced)
    }
}

impl AutoTunerV2 {
    /// What the tuner remembers.
    pub open spec fn state(&self) -> TunerState {
        TunerState {
            bounds: self.bounds,
            epoch: self.epoch,
            smoothed: self.smoothed,
            guardrails: self.guardrails,
            transition: self.transition,
            current: self.current,
        }
    }

    /// Bounds, filter and guardrails agree.
    pub open spec fn wf(&self) -> bool {
        self.state().wf()
    }

    /// A cold-started tuner for a path.
    pub fn new(bounds: AutoTuneBoundsV2, path_epoch: u64) -> (r: AutoTunerV2)
        requires
            bounds.wf(),
        ensures
            r.wf(),
            r.bounds == bounds,
            r.epoch == path_epoch,
            r.smoothed == TelemetryFilterV1::spec_new(bounds),
            r.current == conservative_action(path_epoch, bounds, TuneReasonV2::ColdStart),
            r.last_clamps.entries@ == Seq::<ClampEntryV1>::empty(),
    {
        let clock = MonotonicClock::start();
        let started: Instant = clock.now();
        AutoTunerV2 {
            bounds,
            epoch: path_epoch,
            smoothed: TelemetryFilterV1::new(bounds),
            policy: NativePolicyV1,
            guardrails: GuardrailsV1::from_bounds(&bounds),
            transition: TransitionControllerV1::new(started),
            current: Self::conservative(path_epoch, bounds, TuneReasonV2::ColdStart),
            last_clamps: ClampReportV1::default(),
            clock,
        }
    }

    /// The cold-start action of a path with the given reason.
    fn conservative(epoch: u64, bounds: AutoTuneBoundsV2, reason: TuneReasonV2) -> (r:
        EffectiveActionV1)
        requires
            bounds.wf(),
        ensures
            r == conservative_action(epoch, bounds, reason),
    {
        let mut decision: TuneDecisionV2 = TuneDecisionV2::conservative(epoch, bounds);
        decision.reason = reason;
        EffectiveActionV1::from_tune_decision(&decision)
    }

    /// Observe a sample at the present time.
    pub fn observe(&mut self, sample: PathTelemetryV2) -> (r: TuneDecisionV2)
        requires
            old(self).wf(),
        ensures
            final(self).wf(),
            exists|now: Instant|
                final(self).state() == #[trigger] old(self).state().observed(sample, now, None)
                    && final(self).last_clamps.entries@ == old(self).state().entered(
                    sample,
                    now,
                ).clamps(sample, now, None),
            r == final(self).current.spec_to_tune_decision(),
    {
        let now: Instant = self.clock.now();
        self.observe_at_with_force(sample, now, None)
    }

    /// Observe a sample at the present time under an override.
    pub fn observe_forced(&mut self, sample: PathTelemetryV2, forced: ForcedActionV2) -> (r:
        TuneDecisionV2)
        requires
            old(self).wf(),
        ensures
            final(self).wf(),
            exists|now: Instant|
                final(self).state() == #[trigger] old(self).state().observed(
                    sample,
                    now,
                    Some(forced),
                ) && final(self).last_clamps.entries@ == old(self).state().entered(
                    sample,
                    now,
                ).clamps(sample, now, Some(forced)),
            r == final(self).current.spec_to_tune_decision(),
    {
        let now: Instant = self.clock.now();
        self.observe_at_with_force(sample, now, Some(forced))
    }

    /// Observe a sample at a given time.
    pub fn observe_at(&mut self, sample: PathTelemetryV2, now: Instant) -> (r: TuneDecisionV2)
        requires
            old(self).wf(),
        ensures
            final(self).wf(),
            final(self).state() == old(self).state().observed(sample, now, None),
            final(self).last_clamps.entries@ == old(self).state().entered(sample, now).clamps(
                sample,
                now,
                None,
            ),
            r == final(self).current.spec_to_tune_decision(),
    {
        self.observe_at_with_force(sample, now, None)
    }

    /// Observe a sample at a given time, with an optional override.
    pub fn observe_at_with_force(
        &mut self,
        sample: PathTelemetryV2,
        now: Instant,
        forced: Option<ForcedActionV2>,
    ) -> (r: TuneDecisionV2)
        requires
            old(self).wf(),
        ensures
            final(self).wf(),
            final(self).state() == old(self).state().observed(sample, now, forced),
            final(self).last_clamps.entries@ == old(self).state().entered(sample, now).clamps(
                sample,
                now,
                forced,
            ),
            r == final(self).current.spec_to_tune_decision(),
    {
        if sample.path_epoch != self.epoch {
            self.epoch = sample.path_epoch;
            self.smoothed.reset();
            self.transition.reset(now);
            self.current = Self::conservative(
                self.epoch,
                self.bounds,
                TuneReasonV2::PathChanged,
            );
        }
        let ghost entered = self.state();
        proof {
            assert(entered == old(self).state().entered(sample, now));
        }
        let previous: EffectiveActionV1 = self.current;
        let mut clamps = ClampReportV1::default();

        // raw -> filtered telemetry.
        let filtered: FilteredTelemetryV1 = self.smoothed.update(
            sample,
            usize_from_u64(previous.rx.receive_buffer_bytes),
        );
        let ctx: GuardrailContextV1 = GuardrailContextV1::from_filtered(&filtered);

        // Native candidate. The rule set is the host baseline of this tick, so
        // it is constrained against its own values over the previous effective
        // action: the relative guardrails ("not above the baseline") are
        // identities here and the absolute ones bind.
        let candidate: CandidateActionV1 = self.policy.propose(
            &filtered,
            self.guardrails.limits(),
        );
        let native_base: EffectiveActionV1 = candidate.apply_over(&previous);

        // Guardrails.
        let (guarded, native_report) = self.guardrails.apply(&candidate, &native_base, &ctx);
        clamps.extend(&native_report);
        let mut native: EffectiveActionV1 = guarded;
        native.reason = filtered.classify();
        native.path_epoch = self.epoch;
        native.sample_count = filtered.sample_count;

        // Transition controller.
        let transition_ctx: TransitionContextV1 = TransitionContextV1::from_filtered(&filtered);
        let (settled, hold_report) = self.transition.smooth(
            &native,
            &previous,
            now,
            &transition_ctx,
        );
        clamps.extend(&hold_report);

        // Forced experiment override as a candidate over the smoothed
        // baseline. The override is exact inside the absolute guardrails; the
        // relative CPU-emergency clamp against the rule baseline is reserved
        // for learned actions (`constrain_action`).
        let overridden: EffectiveActionV1 = match forced {
            Some(forced) => {
                let mut experiment_ctx: GuardrailContextV1 = ctx;
                experiment_ctx.cpu_emergency = false;
                let (overridden, report) = self.guardrails.apply(
                    &forced.to_candidate(sample.controller_bw_bytes_per_second),
                    &settled,
                    &experiment_ctx,
                );
                clamps.extend(&report);
                overridden
            },
            None => settled,
        };

        // Final guardrail pass -> effective.
        let (effective, final_report) = self.guardrails.reapply(&overridden, &ctx);
        clamps.extend(&final_report);
        self.last_clamps = clamps;
        self.current = effective;
        proof {
            assert(self.last_clamps.entries@ =~= entered.clamps(sample, now, forced));
            assert(self.state() == entered.advanced(sample, now, forced));
        }
        self.current.to_tune_decision()
    }

    /// The latest decision.
    pub fn current(&self) -> (r: TuneDecisionV2)
        ensures
            r == self.current.spec_to_tune_decision(),
    {
        self.current.to_tune_decision()
    }

    /// The latest effective action.
    pub fn current_effective(&self) -> (r: &EffectiveActionV1)
        ensures
            *r == self.current,
    {
        &self.current
    }

    /// Every clamp and hold applied while deriving the latest effective
    /// action (native pass, transition, forced override and final pass).
    pub fn last_clamp_report(&self) -> (r: &ClampReportV1)
        ensures
            *r == self.last_clamps,
    {
        &self.last_clamps
    }

    /// Host limits this tuner enforces.
    pub fn limits(&self) -> (r: &HostLimitsV1)
        ensures
            *r == self.guardrails.limits,
    {
        self.guardrails.limits()
    }

    /// Drop all learned state when the runtime cannot obtain a trustworthy
    /// path sample. The logical path epoch is deliberately retained: a
    /// transient gap while QUIC validates or migrates a path must not look
    /// like a topology change to the dataplane.
    pub fn fallback_for_missing_telemetry(&mut self) -> (r: TuneDecisionV2)
        requires
            old(self).wf(),
        ensures
            final(self).wf(),
            final(self).bounds == old(self).bounds,
            final(self).epoch == old(self).epoch,
            final(self).guardrails == old(self).guardrails,
            final(self).smoothed == TelemetryFilterV1::spec_new(old(self).bounds),
            final(self).current == conservative_action(
                old(self).epoch,
                old(self).bounds,
                TuneReasonV2::TelemetryUnavailable,
            ),
            final(self).last_clamps.entries@ == Seq::<ClampEntryV1>::empty(),
            r == final(self).current.spec_to_tune_decision(),
    {
        self.smoothed.reset();
        let now: Instant = self.clock.now();
        self.transition.reset(now);
        self.current = Self::conservative(
            self.epoch,
            self.bounds,
            TuneReasonV2::TelemetryUnavailable,
        );
        self.last_clamps = ClampReportV1::default();
        self.current.to_tune_decision()
    }

    /// Guardrail context of the last observation paired with `sample`, i.e.
    /// the live facts a learned/guest candidate is constrained against
    /// without advancing the sample clock again.
    pub fn guardrail_context(&self, sample: PathTelemetryV2) -> (r: GuardrailContextV1)
        ensures
            r == GuardrailContextV1::spec_from_filtered(self.smoothed.spec_view(sample)),
    {
        GuardrailContextV1::from_filtered(&self.smoothed.view(sample))
    }

    /// Constrain an untrusted candidate (learned action, policy guest) over
    /// `base` with this tuner's guardrails and the filtered view of
    /// `sample`: one guardrail pass, no transition smoothing, no clock
    /// advance.
    pub fn constrain_candidate(
        &self,
        sample: PathTelemetryV2,
        candidate: &CandidateActionV1,
        base: &EffectiveActionV1,
    ) -> (r: (EffectiveActionV1, ClampReportV1))
        requires
            self.wf(),
        ensures
            r.0 == self.guardrails.constrained(
                candidate.spec_apply_over(*base),
                *base,
                GuardrailContextV1::spec_from_filtered(self.smoothed.spec_view(sample)),
            ),
            r.1.entries@ == self.guardrails.constrained_clamps(
                candidate.spec_apply_over(*base),
                *base,
                GuardrailContextV1::spec_from_filtered(self.smoothed.spec_view(sample)),
            ),
    {
        let ctx: GuardrailContextV1 = self.guardrail_context(sample);
        self.guardrails.apply(candidate, base, &ctx)
    }

    /// Apply a learned application action to an already-observed rule
    /// baseline without advancing the sample clock a second time. This is the
    /// single guardrail boundary shared by fixed-action experiments and the
    /// online learner: one guardrail pass over the filtered telemetry of the
    /// last observation. The BBR arm of a learned action is materialised by
    /// the caller on `baseline`; `bbr_preset` is not consulted here.
    pub fn constrain_action(
        &self,
        sample: PathTelemetryV2,
        baseline: TuneDecisionV2,
        action: ForcedActionV2,
    ) -> (r: TuneDecisionV2)
        requires
            self.wf(),
        ensures
            ({
                let base = EffectiveActionV1::spec_from_tune_decision(baseline);
                let candidate = forced_candidate(
                    ForcedActionV2 { bbr_preset: None, ..action },
                    sample.controller_bw_bytes_per_second,
                );
                r == self.guardrails.constrained(
                    candidate.spec_apply_over(base),
                    base,
                    GuardrailContextV1::spec_from_filtered(self.smoothed.spec_view(sample)),
                ).spec_to_tune_decision()
            }),
    {
        let filtered: FilteredTelemetryV1 = self.smoothed.view(sample);
        let ctx: GuardrailContextV1 = GuardrailContextV1::from_filtered(&filtered);
        let base: EffectiveActionV1 = EffectiveActionV1::from_tune_decision(&baseline);
        let mut application: ForcedActionV2 = action;
        application.bbr_preset = None;
        let candidate: CandidateActionV1 = application.to_candidate(
            sample.controller_bw_bytes_per_second,
        );
        let (effective, _report) = self.guardrails.apply(&candidate, &base, &ctx);
        effective.to_tune_decision()
    }
}

/// The protection of the action in effect, if any, is a stripe.
pub open spec fn protection_is_valid(action: EffectiveActionV1) -> bool {
    action.fec matches Some(geometry) ==> geometry.is_valid()
}

/// Whatever was observed or forced, the action in effect lies inside the host
/// limits.
pub proof fn lemma_every_observation_stays_inside_the_limits(
    state: TunerState,
    sample: PathTelemetryV2,
    now: Instant,
    forced: Option<ForcedActionV2>,
)
    requires
        state.wf(),
        protection_is_valid(state.current),
    ensures
        state.observed(sample, now, forced).current.inside(state.guardrails.limits),
        state.observed(sample, now, forced).wf(),
{
    let entered = state.entered(sample, now);
    let ctx = GuardrailContextV1::spec_from_filtered(entered.filtered(sample));
    let candidate = native_candidate(entered.filtered(sample), entered.guardrails.limits);
    crate::tuning::native::lemma_native_fec_is_bounded(entered.filtered(sample));
    assert(protection_is_valid(entered.native_base(sample)));
    lemma_guardrails_bound_every_action(
        entered.guardrails,
        entered.native_request(sample),
        entered.native_base(sample),
        ctx,
    );
    assert(protection_is_valid(entered.native(sample)));
    assert(protection_is_valid(entered.settled(sample, now)));
    match forced {
        Some(force) => {
            lemma_guardrails_bound_every_action(
                entered.guardrails,
                forced_candidate(
                    force,
                    sample.controller_bw_bytes_per_second,
                ).spec_apply_over(entered.settled(sample, now)),
                entered.settled(sample, now),
                entered.experiment_context(sample),
            );
        },
        None => {},
    }
    let action = entered.overridden(sample, now, forced);
    assert(protection_is_valid(action));
    lemma_guardrails_bound_every_action(entered.guardrails, action, action, ctx);
}

/// Every decision carries the epoch of its sample, the class of the filtered
/// path and the number of samples since the path was entered.
pub proof fn lemma_decision_names_its_sample(
    state: TunerState,
    sample: PathTelemetryV2,
    now: Instant,
    forced: Option<ForcedActionV2>,
)
    requires
        state.wf(),
    ensures
        ({
            let entered = state.entered(sample, now);
            let decision = state.observed(sample, now, forced).current.spec_to_tune_decision();
            &&& decision.path_epoch == sample.path_epoch
            &&& decision.reason == entered.filtered(sample).spec_classify()
            &&& decision.sample_count == min_int(entered.smoothed.samples + 1, u32::MAX as int)
        }),
{
}

/// The first sample of another path is observed as if by a tuner that never
/// saw the old one.
pub proof fn lemma_path_change_forgets_the_old_path(
    used: TunerState,
    fresh: TunerState,
    sample: PathTelemetryV2,
    now: Instant,
    forced: Option<ForcedActionV2>,
)
    requires
        used.wf(),
        fresh.wf(),
        used.bounds == fresh.bounds,
        sample.path_epoch != used.epoch,
        sample.path_epoch != fresh.epoch,
    ensures
        used.observed(sample, now, forced) == fresh.observed(sample, now, forced),
{
    assert(used.entered(sample, now) == fresh.entered(sample, now));
}

/// A reliable, CPU-limited or congested path carries no parity, whatever is
/// forced.
pub proof fn lemma_no_parity_where_it_is_forbidden(
    state: TunerState,
    sample: PathTelemetryV2,
    now: Instant,
    forced: Option<ForcedActionV2>,
)
    requires
        state.wf(),
        ({
            let filtered = state.entered(sample, now).filtered(sample);
            filtered.reliable() || filtered.cpu_limited() || filtered.congested()
        }),
    ensures
        state.observed(sample, now, forced).current.fec is None,
{
}

/// Live loss on a protected path cannot be answered by forcing protection off.
pub proof fn lemma_forced_off_loses_against_live_loss(
    state: TunerState,
    sample: PathTelemetryV2,
    now: Instant,
    forced: ForcedActionV2,
)
    requires
        state.wf(),
        protection_is_valid(state.current),
        ({
            let entered = state.entered(sample, now);
            let filtered = entered.filtered(sample);
            &&& filtered.protection_emergency()
            &&& !filtered.reliable()
            &&& !filtered.cpu_limited()
            &&& !filtered.congested()
            &&& entered.settled(sample, now).fec is Some
        }),
    ensures
        state.observed(sample, now, Some(forced)).current.fec is Some,
{
    lemma_every_observation_stays_inside_the_limits(state, sample, now, Some(forced));
    let entered = state.entered(sample, now);
    lemma_emergency_protection_cannot_be_switched_off(
        entered.guardrails,
        forced_candidate(
            forced,
            sample.controller_bw_bytes_per_second,
        ).spec_apply_over(entered.settled(sample, now)),
        entered.settled(sample, now),
        entered.experiment_context(sample),
    );
    let action = entered.overridden(sample, now, Some(forced));
    lemma_emergency_protection_cannot_be_switched_off(
        entered.guardrails,
        action,
        action,
        GuardrailContextV1::spec_from_filtered(entered.filtered(sample)),
    );
}

/// Forced values are exact wherever no guardrail forbids them.
pub proof fn lemma_forced_values_are_exact_inside_the_guardrails(
    state: TunerState,
    sample: PathTelemetryV2,
    now: Instant,
    forced: ForcedActionV2,
)
    requires
        state.wf(),
    ensures
        ({
            let entered = state.entered(sample, now);
            let filtered = entered.filtered(sample);
            let limits = state.guardrails.limits;
            let decision = state.observed(
                sample,
                now,
                Some(forced),
            ).current.spec_to_tune_decision();
            &&& forced.train_target_bytes matches Some(bytes) ==> (
            limits.train_target_floor_bytes <= bytes <= limits.train_target_cap_bytes
                ==> decision.train_target_bytes == bytes)
            &&& forced.bulk_quantum_cells matches Some(cells) ==> (1 <= cells <= u16::MAX
                && !filtered.latency_queue_active() ==> decision.bulk_quantum_cells == cells)
            &&& forced.fec matches Some(Some(geometry)) ==> (geometry.is_valid()
                && !filtered.reliable() && !filtered.cpu_limited() && !filtered.congested()
                ==> decision.fec == Some(geometry))
            &&& forced.cover_profile matches Some(profile) ==> decision.cover_profile == profile
            &&& forced.cover_overhead_per_mille matches Some(overhead) ==> (overhead
                <= limits.cover_overhead_cap_per_mille && cover_suppression(
                decision.cover_profile,
                GuardrailContextV1::spec_from_filtered(filtered),
            ) is None ==> decision.cover_overhead_per_mille == overhead)
            &&& forced.bbr_preset matches Some(preset) ==> decision.bbr
                == Bbr3ProposalV2::spec_for_preset(preset, sample.controller_bw_bytes_per_second)
        }),
{
}

} // verus!

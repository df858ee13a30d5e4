//! The tuning session of one connection: its telemetry window, the report of
//! the remote peer, the congestion-window floor and the capacity probe, driven
//! by two clocks. The fast one looks for Bulk edges; the slow one takes a full
//! sample, and after the policy has decided publishes the outcome.

use vstd::prelude::*;

use crate::autotune::capacity_probe::{
    controller_policer_episode_active, fast_capacity_probe_path_matches, CapacityProbeStateV2,
    InitialBulkProbeV2,
};
use crate::autotune::controller::{
    combined_floor, finalize_bbr3_effective_with_state, next_generation, publish_bbr3_effective,
    publish_capacity_probe, values_of, AdaptiveCwndFloorStateV2, Bbr3Tunables,
};
use crate::autotune::feedback::{
    RemoteFeedbackCountersV2, RemoteFeedbackRatesV2, RemoteFeedbackWindowV2,
};
use crate::autotune::window::{
    locator_text, path_endpoint_identity, route_capacity, ConnectionCountersV2, PathSampleV2,
    PathTelemetryWindowV2, PathTickV2, QueueFiguresV2, SampleCountersV2, WindowModel,
};
use crate::num::clamp_int;
use crate::policy::api::BbrEffectiveV1;
use crate::time::Instant;
use crate::tuning::PathTelemetryV2;

verus! {

/// Why the fast clock asks for capacity discovery.
#[derive(Clone, Copy, Debug, PartialEq, Eq, Structural)]
pub enum EdgeReasonV2 {
    /// Bulk service came back after a verified idle time.
    BulkServiceReactivation,
    /// Sustained Bulk demand met a controller that has left its startup.
    InitialBulkDemand,
}

/// What the slow clock found.
#[derive(Clone, Copy, Debug, PartialEq, Eq, Structural)]
pub struct SessionTickV2 {
    pub tick: PathTickV2,
    /// Bulk demand or a recovered loss episode asks for capacity discovery.
    pub probe_requested: bool,
}

/// What was published after the policy decided.
#[derive(Clone, Copy, Debug, PartialEq, Eq, Structural)]
pub struct SessionOutcomeV2 {
    /// The floor that telemetry added to the policy's own.
    pub adaptive_cwnd_floor_bytes: u64,
    /// Capacity discovery was asked for.
    pub probe_requested: bool,
}

/// The tuning session of one connection.
#[derive(Debug)]
pub struct TunerSessionV2 {
    pub window: PathTelemetryWindowV2,
    pub remote: RemoteFeedbackWindowV2,
    pub floor: AdaptiveCwndFloorStateV2,
    pub probe: CapacityProbeStateV2,
}

/// The tuning session over plain values.
#[verifier::ext_equal]
pub ghost struct SessionModel {
    pub window: WindowModel,
    pub remote: RemoteFeedbackWindowV2,
    pub floor: AdaptiveCwndFloorStateV2,
    pub probe: CapacityProbeStateV2,
}

/// The state that a controller reports.
pub open spec fn controller_state_of(path: PathSampleV2) -> u8 {
    match path.snapshot {
        Some(snapshot) => snapshot.state,
        None => 0,
    }
}

/// The detector after the fast clock looked at a path, and why it asks for
/// discovery.
pub open spec fn edge_seen(
    probe: CapacityProbeStateV2,
    path: PathSampleV2,
    service: u64,
    admission: u64,
) -> (CapacityProbeStateV2, Option<EdgeReasonV2>) {
    let serviced = probe.serviced(service);
    let admitted = serviced.0.admitted(admission);
    if serviced.1 {
        (admitted, Some(EdgeReasonV2::BulkServiceReactivation))
    } else if admitted.initial_bulk_fires(
        controller_state_of(path),
        controller_policer_episode_active(path.policer_pacing_transitions),
    ) {
        (
            CapacityProbeStateV2 {
                initial_bulk_probe: InitialBulkProbeV2::Consumed,
                initial_clean_demand_seen: false,
                initial_sample_incomplete: false,
                ..admitted
            },
            Some(EdgeReasonV2::InitialBulkDemand),
        )
    } else {
        (admitted, None)
    }
}

/// The detector after a request found nothing to publish it on: the request
/// is still owed.
pub open spec fn edge_owed(probe: CapacityProbeStateV2) -> CapacityProbeStateV2 {
    CapacityProbeStateV2 {
        bulk_active: false,
        bulk_idle_ticks: 0,
        bulk_idle_verified: false,
        bulk_service_since_tick: false,
        probe_pending: true,
        ..probe
    }
}

/// Tunables with one discovery request more.
pub open spec fn probed(tunables: Bbr3Tunables) -> Bbr3Tunables {
    Bbr3Tunables {
        capacity_probe_generation: next_generation(tunables.capacity_probe_generation),
        generation: next_generation(tunables.generation),
        ..tunables
    }
}

impl SessionModel {
    /// Whether the fast clock may look at a path: it is the one that the last
    /// full sample stood on.
    pub open spec fn edge_matches(self, path: Option<PathSampleV2>) -> bool {
        match path {
            Some(path) => self.window.identity.len() != 0 && self.window.identity
                == locator_text(path.remote),
            None => false,
        }
    }

    /// The session, the tunables and the published reason after the fast
    /// clock.
    pub open spec fn edge(
        self,
        path: Option<PathSampleV2>,
        tunables: Option<Bbr3Tunables>,
        service: u64,
        admission: u64,
    ) -> (SessionModel, Option<Bbr3Tunables>, Option<EdgeReasonV2>) {
        if !self.edge_matches(path) {
            (self, tunables, None)
        } else {
            let seen = edge_seen(self.probe, path->0, service, admission);
            match (seen.1, tunables) {
                (None, _) => (SessionModel { probe: seen.0, ..self }, tunables, None),
                (Some(reason), Some(tunables)) => (
                    SessionModel { probe: seen.0, ..self },
                    Some(probed(tunables)),
                    Some(reason),
                ),
                (Some(_), None) => (
                    SessionModel { probe: edge_owed(seen.0), ..self },
                    None,
                    None,
                ),
            }
        }
    }

    /// The telemetry of a full sample.
    pub open spec fn telemetry(
        self,
        now: Instant,
        current: ConnectionCountersV2,
        path: PathSampleV2,
        tunables: Option<Bbr3Tunables>,
        clamped_writes: u64,
        counters: SampleCountersV2,
        queues: QueueFiguresV2,
        reports: RemoteFeedbackCountersV2,
    ) -> PathTelemetryV2 {
        self.window.telemetry(
            now,
            current,
            path,
            tunables,
            clamped_writes,
            counters,
            queues,
            self.remote.sampled(reports, now).rates,
        )
    }

    /// The detector after a full sample, and whether it asks for discovery.
    pub open spec fn probe_after(self, telemetry: PathTelemetryV2, policer: bool) -> (
        CapacityProbeStateV2,
        bool,
    ) {
        let bulk = self.probe.updated(telemetry, policer);
        let loss = if bulk.0.initial_sample_incomplete {
            (bulk.0, false)
        } else {
            bulk.0.loss_observed(telemetry, policer)
        };
        (loss.0, bulk.1 || loss.1)
    }

    /// The session after the policy's decision was published, and whether
    /// discovery is asked for.
    pub open spec fn published(
        self,
        telemetry: PathTelemetryV2,
        congestion_window_bytes: u64,
        effective: BbrEffectiveV1,
        requested: bool,
    ) -> (SessionModel, bool) {
        let cap = effective.pacing_cap_bytes_per_second;
        let released = !self.probe.initial_sample_incomplete && self.probe.cap_released(
            cap,
            telemetry.tun_ingress_bytes_per_second > 0,
        );
        (
            SessionModel {
                floor: self.floor.updated(telemetry, effective, congestion_window_bytes),
                probe: CapacityProbeStateV2 {
                    previous_pacing_cap_bytes_per_second: Some(cap),
                    ..self.probe
                },
                ..self
            },
            requested || released,
        )
    }
}

/// Tunables after a decision was published with or without a discovery
/// request.
pub open spec fn tunables_published(
    tunables: Bbr3Tunables,
    effective: BbrEffectiveV1,
    requested: bool,
) -> Bbr3Tunables {
    Bbr3Tunables {
        capacity_probe_generation: if requested {
            next_generation(tunables.capacity_probe_generation)
        } else {
            tunables.capacity_probe_generation
        },
        generation: if requested || tunables.values() != values_of(effective) {
            next_generation(tunables.generation)
        } else {
            tunables.generation
        },
        ..tunables.holding(values_of(effective))
    }
}

impl TunerSessionV2 {
    /// The session over plain values.
    pub open spec fn model(&self) -> SessionModel {
        SessionModel {
            window: self.window.model(),
            remote: self.remote,
            floor: self.floor,
            probe: self.probe,
        }
    }

    /// Start from the counters as they stand.
    pub fn new(
        current: ConnectionCountersV2,
        counters: SampleCountersV2,
        reports: RemoteFeedbackCountersV2,
        service: u64,
        admission: u64,
        now: Instant,
    ) -> (r: TunerSessionV2)
        ensures
            r.model() == (SessionModel {
                window: WindowModel {
                    previous: current,
                    previous_sample_at: now,
                    sample_counters: counters,
                    identity: Seq::empty(),
                    epoch: 1,
                    previous_guard_transitions: 0,
                    failures: 0,
                },
                remote: RemoteFeedbackWindowV2 {
                    previous: reports,
                    previous_at: now,
                    rates: RemoteFeedbackRatesV2::quiet(reports.remote_feedback_sequence, 0),
                    expires_at: now,
                },
                floor: AdaptiveCwndFloorStateV2::cleared(0),
                probe: CapacityProbeStateV2 {
                    path_epoch: 1,
                    bulk_service_counter: service,
                    bulk_admission_counter: admission,
                    ..CapacityProbeStateV2::initial()
                },
            }),
    {
        let window: PathTelemetryWindowV2 = PathTelemetryWindowV2::capture(current, counters, now);
        let mut probe: CapacityProbeStateV2 = CapacityProbeStateV2::default();
        probe.initialize_bulk_service_counter(window.epoch, service);
        probe.initialize_bulk_admission_counter(admission);
        TunerSessionV2 {
            window,
            remote: RemoteFeedbackWindowV2::capture(reports, now),
            floor: AdaptiveCwndFloorStateV2::default(),
            probe,
        }
    }

    /// The fast clock: look for a Bulk edge on the path of the last full
    /// sample and publish a discovery request on its tunables. Where they are
    /// absent for a moment the request is kept for the next full sample.
    pub fn edge(
        &mut self,
        path: Option<&PathSampleV2>,
        tunables: &mut Option<Bbr3Tunables>,
        service: u64,
        admission: u64,
    ) -> (r: Option<EdgeReasonV2>)
        ensures
            (final(self).model(), *final(tunables), r) == old(self).model().edge(
                match path {
                    Some(path) => Some(*path),
                    None => None,
                },
                *old(tunables),
                service,
                admission,
            ),
    {
        let path: &PathSampleV2 = match path {
            Some(path) => path,
            None => {
                return None;
            },
        };
        let identity: String = path_endpoint_identity(&path.remote);
        if !fast_capacity_probe_path_matches(self.window.identity.as_str(), identity.as_str()) {
            return None;
        }
        let reactivated: bool = self.probe.update_bulk_service_counter(service);
        self.probe.update_bulk_admission_counter(admission);
        let reason: EdgeReasonV2 = if reactivated {
            EdgeReasonV2::BulkServiceReactivation
        } else {
            let state: u8 = match path.snapshot {
                Some(snapshot) => snapshot.state,
                None => 0,
            };
            let policer: bool = controller_policer_episode_active(path.policer_pacing_transitions);
            if !self.probe.sustained_initial_bulk_requires_probe(state, policer) {
                return None;
            }
            EdgeReasonV2::InitialBulkDemand
        };
        match *tunables {
            Some(before) => {
                let mut after: Bbr3Tunables = before;
                publish_capacity_probe(&mut after);
                *tunables = Some(after);
                Some(reason)
            },
            None => {
                self.probe.cancel_bulk_service_edge();
                None
            },
        }
    }

    /// The slow clock without a selected path. Says whether the miss is worth
    /// a warning.
    pub fn miss(
        &mut self,
        now: Instant,
        current: ConnectionCountersV2,
        counters: SampleCountersV2,
    ) -> (r: bool)
        ensures
            final(self).model() == (SessionModel {
                window: old(self).model().window.missed(now, current, counters),
                ..old(self).model()
            }),
            r == (final(self).window.failures == 1 || final(self).window.failures % 10 == 0),
    {
        self.window.miss(now, current, counters)
    }

    /// The slow clock: take a full sample of the selected path.
    pub fn observe(
        &mut self,
        now: Instant,
        current: ConnectionCountersV2,
        path: &PathSampleV2,
        tunables: Option<Bbr3Tunables>,
        clamped_writes: u64,
        counters: SampleCountersV2,
        queues: QueueFiguresV2,
        reports: RemoteFeedbackCountersV2,
    ) -> (r: SessionTickV2)
        ensures
            r.tick.telemetry == old(self).model().telemetry(
                now,
                current,
                *path,
                tunables,
                clamped_writes,
                counters,
                queues,
                reports,
            ),
            r.tick.route_capacity_bps == route_capacity(
                path.snapshot,
                path.pacing_rate_bytes_per_second,
            ),
            r.tick.repair_minimum_age_micros == clamp_int(
                path.rtt.nanos * 8,
                50_000_000,
                1_000_000_000,
            ) / 1_000,
            r.tick.migrated == old(self).model().window.migrates(locator_text(path.remote)),
            r.tick.recovered_failures == old(self).window.failures,
            final(self).model() == (SessionModel {
                window: old(self).model().window.sampled(
                    now,
                    current,
                    *path,
                    counters,
                ),
                remote: old(self).remote.sampled(reports, now),
                probe: old(self).model().probe_after(
                    r.tick.telemetry,
                    controller_policer_episode_active(path.policer_pacing_transitions),
                ).0,
                floor: old(self).floor,
            }),
            r.probe_requested == old(self).model().probe_after(
                r.tick.telemetry,
                controller_policer_episode_active(path.policer_pacing_transitions),
            ).1,
    {
        let rates: RemoteFeedbackRatesV2 = self.remote.sample(reports, now);
        let tick: PathTickV2 = self.window.sample(
            now,
            current,
            path,
            tunables,
            clamped_writes,
            counters,
            queues,
            rates,
        );
        let policer: bool = controller_policer_episode_active(path.policer_pacing_transitions);
        let bulk: bool = self.probe.update(tick.telemetry, policer);
        let loss: bool = self.probe.update_loss_episode_if_complete(tick.telemetry, policer);
        SessionTickV2 { tick, probe_requested: bulk || loss }
    }

    /// After the policy decided: add the live floor to its controller action,
    /// and publish it with the discovery requests of this sample. The three
    /// detectors consume prohibited edges at their source, so any of them may
    /// ask.
    pub fn publish(
        &mut self,
        telemetry: PathTelemetryV2,
        congestion_window_bytes: u64,
        effective: &mut BbrEffectiveV1,
        tunables: &mut Option<Bbr3Tunables>,
        requested: bool,
    ) -> (r: SessionOutcomeV2)
        ensures
            (final(self).model(), r.probe_requested) == old(self).model().published(
                telemetry,
                congestion_window_bytes,
                *old(effective),
                requested,
            ),
            r.adaptive_cwnd_floor_bytes == final(self).floor.held_bytes,
            *final(effective) == (BbrEffectiveV1 {
                cwnd_floor_bytes: combined_floor(
                    *old(effective),
                    r.adaptive_cwnd_floor_bytes as int,
                ) as u64,
                ..*old(effective)
            }),
            *final(tunables) == match *old(tunables) {
                Some(tunables) => Some(
                    tunables_published(tunables, *final(effective), r.probe_requested),
                ),
                None => None,
            },
    {
        let adaptive_cwnd_floor_bytes: u64 = finalize_bbr3_effective_with_state(
            &mut self.floor,
            telemetry,
            congestion_window_bytes,
            effective,
        );
        let released: bool = self.probe.update_pacing_cap_if_complete(
            effective.pacing_cap_bytes_per_second,
            telemetry.tun_ingress_bytes_per_second > 0,
        );
        let probe_requested: bool = requested || released;
        if let Some(before) = *tunables {
            let mut after: Bbr3Tunables = before;
            publish_bbr3_effective(&mut after, effective, probe_requested);
            *tunables = Some(after);
        }
        SessionOutcomeV2 { adaptive_cwnd_floor_bytes, probe_requested }
    }
}

/// The fast clock touches nothing before the first full sample and nothing of
/// a path that the session has not sampled.
pub proof fn lemma_fast_clock_leaves_other_paths_alone(
    session: SessionModel,
    path: PathSampleV2,
    tunables: Option<Bbr3Tunables>,
    service: u64,
    admission: u64,
)
    requires
        session.window.identity.len() == 0 || session.window.identity != locator_text(path.remote),
    ensures
        session.edge(Some(path), tunables, service, admission) == (
            session,
            tunables,
            None::<EdgeReasonV2>,
        ),
{
}

/// A discovery request that found no tunables is not lost: the session owes
/// it, and the next Bulk service on that path publishes it.
pub proof fn lemma_unpublished_edge_is_still_owed(
    session: SessionModel,
    path: PathSampleV2,
    tunables: Bbr3Tunables,
    service: u64,
    admission: u64,
    more: u64,
)
    requires
        session.edge_matches(Some(path)),
        edge_seen(session.probe, path, service, admission).1 is Some,
        more > service,
        session.probe.bulk_service_counter <= service,
    ensures
        session.edge(Some(path), None, service, admission).0.edge(
            Some(path),
            Some(tunables),
            more,
            admission,
        ).2 == Some(EdgeReasonV2::BulkServiceReactivation),
{
}

/// A published discovery request always moves both generations, so that the
/// controller cannot miss it.
pub proof fn lemma_published_request_is_visible(
    tunables: Bbr3Tunables,
    effective: BbrEffectiveV1,
)
    ensures
        probed(tunables).generation != tunables.generation,
        probed(tunables).capacity_probe_generation != tunables.capacity_probe_generation,
        tunables_published(tunables, effective, true).generation != tunables.generation,
        tunables_published(tunables, effective, true).capacity_probe_generation
            != tunables.capacity_probe_generation,
        tunables_published(tunables, effective, false).capacity_probe_generation
            == tunables.capacity_probe_generation,
{
}

} // verus!

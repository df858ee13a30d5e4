//! Bulk-service and loss-edge state machine for BBR capacity discovery.

use vstd::prelude::*;

use crate::dataplane::TX_ADMISSION_BATCH_BYTES;
use crate::num::{min_int, sat_u64};
use crate::text::same_text;
use crate::tuning::PathTelemetryV2;

verus! {

/// Bytes that make initial Bulk demand sustained: an eighth of an admission
/// batch.
pub const MIN_SUSTAINED_BULK_BYTES: u64 = 16_384;

/// Edge samples that make initial Bulk demand sustained.
pub const MIN_SUSTAINED_BULK_EDGES: u8 = 2;

/// Loss that opens a loss episode.
pub const LOSS_EPISODE_THRESHOLD_PPM: u32 = 10_000;

/// Where the one-shot decision of the initial Bulk epoch stands.
#[derive(Clone, Copy, Debug, PartialEq, Eq, Structural)]
pub enum InitialBulkProbeV2 {
    /// No initial Bulk service has reached either edge detector yet.
    AwaitingEdge,
    /// The first Bulk edge was observed inside the current telemetry window.
    /// Cross the next sample boundary without publishing from that partial
    /// interval. A hard-safe pressure observation may be retained for the
    /// complete interval's one-shot decision.
    AwaitingSampleBoundary,
    /// The edge is now aligned to a sample boundary; the following tick is
    /// the first complete post-edge interval and may make the decision.
    AwaitingCompleteTick,
    /// The initial epoch's one-shot decision has been consumed.
    Consumed,
}

/// Per-connection edge detector for serviced Bulk traffic.
///
/// Control and latency traffic never increment the Bulk service counter, so
/// this cross-layer signal can request capacity discovery without asking BBR
/// to infer application semantics from ACK timing.
#[derive(Clone, Copy, Debug, PartialEq, Eq, Structural)]
pub struct CapacityProbeStateV2 {
    pub path_epoch: u64,
    pub bulk_service_counter: u64,
    /// Cumulative bytes admitted to the classified Bulk scheduler lane. This
    /// is deliberately distinct from post-send service: it is the direct
    /// application-demand edge needed when a stale controller model cannot
    /// transmit enough data to create a service edge yet.
    pub bulk_admission_counter: u64,
    /// A classifier-confirmed Bulk admission was observed since the last
    /// full telemetry tick. This must not be inferred from total TUN ingress:
    /// control and latency flows share that counter and would consume the
    /// one-shot Bulk discovery epoch before the application transfer began.
    pub bulk_admission_since_tick: bool,
    pub bulk_active: bool,
    pub bulk_idle_ticks: u8,
    pub bulk_idle_verified: bool,
    pub bulk_service_since_tick: bool,
    /// Bytes serviced from the first Bulk epoch before its first telemetry
    /// boundary. This is direct demand evidence, unlike a connection's
    /// control-plane delivery model.
    pub initial_bulk_serviced_bytes: u64,
    /// Number of lightweight edge samples that contributed to
    /// `initial_bulk_serviced_bytes`.
    pub initial_bulk_service_edges: u8,
    /// Classifier-confirmed Bulk demand collected before the first capacity
    /// probe. This is a separate evidence source from service bytes, so it
    /// can break a loss-induced startup lock without treating control or
    /// latency traffic as Bulk.
    pub initial_bulk_admitted_bytes: u64,
    pub initial_bulk_admission_edges: u8,
    /// An explicit path reset, or a fast edge that could not be published,
    /// still owes the controller one capacity-discovery request. Initial
    /// connection traffic is deliberately not represented by this flag.
    pub probe_pending: bool,
    pub initial_bulk_probe: InitialBulkProbeV2,
    /// A partial initial-Bulk interval showed clean demand above the current
    /// controller pacing rate. It is evidence only: publication still waits
    /// for a complete, currently safe interval.
    pub initial_clean_demand_seen: bool,
    /// Set by `update` when this tick only establishes the initial Bulk
    /// sample boundary. Other edge detectors must ignore the same partial
    /// telemetry window so it cannot seed a later duplicate restart.
    pub initial_sample_incomplete: bool,
    pub previous_pacing_cap_bytes_per_second: Option<u64>,
    pub loss_episode: bool,
    pub loss_signal_latched: bool,
    pub consecutive_clean_loss_ticks: u8,
}

/// The episode marker: the controller's one-way transition counter has moved.
pub open spec fn spec_controller_policer_episode_active(transitions: u64) -> bool {
    transitions != 0
}

/// Whether the controller confirmed a policer episode. A fixed absolute
/// ceiling can be active at a 1.0 multiplicative scale, so the one-way
/// transition counter is the episode marker.
#[verifier::when_used_as_spec(spec_controller_policer_episode_active)]
pub fn controller_policer_episode_active(policer_pacing_transitions: u64) -> (r: bool)
    ensures
        r == spec_controller_policer_episode_active(policer_pacing_transitions),
{
    policer_pacing_transitions != 0
}

/// The sample shows neither Startup, nor loss, nor a policer episode.
pub open spec fn initial_sample_safe(t: PathTelemetryV2, policer: bool) -> bool {
    &&& !policer
    &&& t.controller_state != 0
    &&& t.loss_ppm == 0
    &&& t.residual_loss_ppm == 0
    &&& t.burst_loss_cells == 0
}

/// A safe sample whose demand exceeds the controller's pacing rate.
pub open spec fn initial_demand_safe(t: PathTelemetryV2, policer: bool) -> bool {
    &&& initial_sample_safe(t, policer)
    &&& t.tun_ingress_bytes_per_second > t.controller_pacing_rate_bytes_per_second
}

/// A safe sample with present or remembered demand above the pacing rate.
pub open spec fn initial_probe_safe(t: PathTelemetryV2, policer: bool, seen: bool) -> bool {
    &&& initial_sample_safe(t, policer)
    &&& seen || t.tun_ingress_bytes_per_second > t.controller_pacing_rate_bytes_per_second
}

/// Whether the sample shows neither Startup, nor loss, nor a policer episode.
pub fn initial_bulk_sample_is_safe(
    telemetry: PathTelemetryV2,
    controller_policer_episode_active: bool,
) -> (r: bool)
    ensures
        r == initial_sample_safe(telemetry, controller_policer_episode_active),
{
    !controller_policer_episode_active && telemetry.controller_state != 0 && telemetry.loss_ppm
        == 0 && telemetry.residual_loss_ppm == 0 && telemetry.burst_loss_cells == 0
}

/// Whether a safe sample's demand exceeds the controller's pacing rate.
pub fn initial_bulk_clean_demand_is_safe(
    telemetry: PathTelemetryV2,
    controller_policer_episode_active: bool,
) -> (r: bool)
    ensures
        r == initial_demand_safe(telemetry, controller_policer_episode_active),
{
    initial_bulk_sample_is_safe(telemetry, controller_policer_episode_active)
        && telemetry.tun_ingress_bytes_per_second
        > telemetry.controller_pacing_rate_bytes_per_second
}

/// Whether a complete interval may publish the initial probe.
pub fn initial_bulk_capacity_probe_is_safe(
    telemetry: PathTelemetryV2,
    controller_policer_episode_active: bool,
    initial_clean_demand_seen: bool,
) -> (r: bool)
    ensures
        r == initial_probe_safe(
            telemetry,
            controller_policer_episode_active,
            initial_clean_demand_seen,
        ),
{
    initial_bulk_sample_is_safe(telemetry, controller_policer_episode_active) && (
    initial_clean_demand_seen || telemetry.tun_ingress_bytes_per_second
        > telemetry.controller_pacing_rate_bytes_per_second)
}

/// Whether a fast edge may touch the selected path's tunables. Before the
/// first complete sample there is no path-owned state to publish. During
/// migration, let the normal tick advance the path epoch and reset the state
/// before any edge can touch the new path's tunables.
pub fn fast_capacity_probe_path_matches(current_identity: &str, selected_identity: &str) -> (r:
    bool)
    ensures
        r == (current_identity@.len() != 0 && current_identity@ == selected_identity@),
{
    current_identity.unicode_len() != 0 && same_text(current_identity, selected_identity)
}

impl CapacityProbeStateV2 {
    /// A detector that has seen nothing.
    pub open spec fn initial() -> CapacityProbeStateV2 {
        CapacityProbeStateV2 {
            path_epoch: 0,
            bulk_service_counter: 0,
            bulk_admission_counter: 0,
            bulk_admission_since_tick: false,
            bulk_active: false,
            bulk_idle_ticks: 0,
            bulk_idle_verified: false,
            bulk_service_since_tick: false,
            initial_bulk_serviced_bytes: 0,
            initial_bulk_service_edges: 0,
            initial_bulk_admitted_bytes: 0,
            initial_bulk_admission_edges: 0,
            probe_pending: false,
            initial_bulk_probe: InitialBulkProbeV2::AwaitingEdge,
            initial_clean_demand_seen: false,
            initial_sample_incomplete: false,
            previous_pacing_cap_bytes_per_second: None,
            loss_episode: false,
            loss_signal_latched: false,
            consecutive_clean_loss_ticks: 0,
        }
    }

    /// The detector after a path reset: counters survive, the initial decision
    /// is spent and one discovery request is owed.
    pub open spec fn reset_to(self, path_epoch: u64) -> CapacityProbeStateV2 {
        CapacityProbeStateV2 {
            path_epoch,
            bulk_service_counter: self.bulk_service_counter,
            bulk_admission_counter: self.bulk_admission_counter,
            probe_pending: true,
            initial_bulk_probe: InitialBulkProbeV2::Consumed,
            ..CapacityProbeStateV2::initial()
        }
    }

    /// The detector and its request after one reading of the service counter.
    pub open spec fn serviced(self, counter: u64) -> (CapacityProbeStateV2, bool) {
        if counter <= self.bulk_service_counter {
            (CapacityProbeStateV2 { bulk_service_counter: counter, ..self }, false)
        } else {
            let open = self.initial_bulk_probe != InitialBulkProbeV2::Consumed;
            let counted = CapacityProbeStateV2 {
                bulk_service_counter: counter,
                bulk_service_since_tick: true,
                initial_bulk_serviced_bytes: if open {
                    sat_u64(
                        self.initial_bulk_serviced_bytes + (counter - self.bulk_service_counter),
                    ) as u64
                } else {
                    self.initial_bulk_serviced_bytes
                },
                initial_bulk_service_edges: if open {
                    min_int(self.initial_bulk_service_edges + 1, 255) as u8
                } else {
                    self.initial_bulk_service_edges
                },
                bulk_idle_ticks: 0,
                bulk_idle_verified: false,
                ..self
            };
            if self.bulk_active {
                (counted, false)
            } else {
                let requested = self.bulk_idle_verified || self.probe_pending;
                (
                    CapacityProbeStateV2 {
                        initial_bulk_probe: if !requested && self.initial_bulk_probe
                            == InitialBulkProbeV2::AwaitingEdge {
                            InitialBulkProbeV2::AwaitingSampleBoundary
                        } else {
                            self.initial_bulk_probe
                        },
                        bulk_active: true,
                        probe_pending: false,
                        ..counted
                    },
                    requested,
                )
            }
        }
    }

    /// The detector after one reading of the admission counter.
    pub open spec fn admitted(self, counter: u64) -> CapacityProbeStateV2 {
        if counter <= self.bulk_admission_counter {
            CapacityProbeStateV2 { bulk_admission_counter: counter, ..self }
        } else if self.initial_bulk_probe == InitialBulkProbeV2::Consumed {
            CapacityProbeStateV2 {
                bulk_admission_counter: counter,
                bulk_admission_since_tick: true,
                ..self
            }
        } else {
            CapacityProbeStateV2 {
                bulk_admission_counter: counter,
                bulk_admission_since_tick: true,
                initial_bulk_admitted_bytes: sat_u64(
                    self.initial_bulk_admitted_bytes + (counter - self.bulk_admission_counter),
                ) as u64,
                initial_bulk_admission_edges: min_int(
                    self.initial_bulk_admission_edges + 1,
                    255,
                ) as u8,
                ..self
            }
        }
    }

    /// Initial demand, serviced or admitted, is sustained.
    pub open spec fn sustained_initial_bulk(self) -> bool {
        ||| {
            &&& self.initial_bulk_service_edges >= MIN_SUSTAINED_BULK_EDGES
            &&& self.initial_bulk_serviced_bytes >= MIN_SUSTAINED_BULK_BYTES
        }
        ||| {
            &&& self.initial_bulk_admission_edges >= MIN_SUSTAINED_BULK_EDGES
            &&& self.initial_bulk_admitted_bytes >= MIN_SUSTAINED_BULK_BYTES
        }
    }

    /// Sustained initial demand may spend the one-shot decision now.
    pub open spec fn initial_bulk_fires(self, controller_state: u8, policer: bool) -> bool {
        &&& self.initial_bulk_probe != InitialBulkProbeV2::Consumed
        &&& controller_state != 0
        &&& !policer
        &&& self.sustained_initial_bulk()
    }

    /// The detector as the full tick finds it on this path.
    pub open spec fn on_path(self, path_epoch: u64) -> CapacityProbeStateV2 {
        let opened = CapacityProbeStateV2 { initial_sample_incomplete: false, ..self };
        if self.path_epoch == 0 {
            CapacityProbeStateV2 { path_epoch, ..opened }
        } else if self.path_epoch != path_epoch {
            opened.reset_to(path_epoch)
        } else {
            opened
        }
    }

    /// Bulk was admitted or serviced since the last tick, or an established
    /// epoch still has a producer backlog.
    pub open spec fn bulk_activity(self, t: PathTelemetryV2) -> bool {
        ||| self.bulk_admission_since_tick
        ||| self.bulk_service_since_tick
        ||| self.bulk_active && t.packet_train_queue_bytes >= TX_ADMISSION_BATCH_BYTES as u64
    }

    /// The initial decision moves one stage: a boundary tick keeps only safe
    /// demand evidence, the complete tick spends the decision.
    pub open spec fn initial_advanced(self, t: PathTelemetryV2, policer: bool) -> CapacityProbeStateV2 {
        let taken = CapacityProbeStateV2 {
            bulk_service_since_tick: false,
            bulk_admission_since_tick: false,
            ..self
        };
        match self.initial_bulk_probe {
            InitialBulkProbeV2::AwaitingSampleBoundary => CapacityProbeStateV2 {
                initial_clean_demand_seen: initial_demand_safe(t, policer),
                initial_bulk_probe: InitialBulkProbeV2::AwaitingCompleteTick,
                initial_sample_incomplete: true,
                ..taken
            },
            InitialBulkProbeV2::AwaitingCompleteTick => CapacityProbeStateV2 {
                initial_bulk_probe: InitialBulkProbeV2::Consumed,
                initial_clean_demand_seen: false,
                ..taken
            },
            _ => taken,
        }
    }

    /// The detector and its request after a full tick that already stands on
    /// its path.
    pub open spec fn ticked(self, t: PathTelemetryV2, policer: bool) -> (CapacityProbeStateV2, bool) {
        let next = self.initial_advanced(t, policer);
        let complete = self.initial_bulk_probe == InitialBulkProbeV2::AwaitingCompleteTick;
        let decided = complete && initial_probe_safe(t, policer, self.initial_clean_demand_seen);
        if self.bulk_activity(t) {
            if self.bulk_active {
                (
                    CapacityProbeStateV2 {
                        bulk_idle_ticks: 0,
                        bulk_idle_verified: false,
                        ..next
                    },
                    decided,
                )
            } else {
                let first = self.initial_bulk_probe == InitialBulkProbeV2::AwaitingEdge;
                let opened = if first {
                    CapacityProbeStateV2 {
                        initial_clean_demand_seen: initial_demand_safe(t, policer),
                        initial_bulk_probe: InitialBulkProbeV2::AwaitingCompleteTick,
                        initial_sample_incomplete: true,
                        ..next
                    }
                } else {
                    next
                };
                (
                    CapacityProbeStateV2 {
                        bulk_active: true,
                        bulk_idle_verified: false,
                        probe_pending: false,
                        ..opened
                    },
                    self.bulk_idle_verified || self.probe_pending || decided,
                )
            }
        } else if self.bulk_active {
            let horizon: int = if policer { 5 } else { 2 };
            let idle = min_int(self.bulk_idle_ticks + 1, 255);
            if idle >= horizon {
                (
                    CapacityProbeStateV2 {
                        bulk_active: false,
                        bulk_idle_ticks: 0,
                        bulk_idle_verified: true,
                        ..next
                    },
                    false,
                )
            } else {
                (CapacityProbeStateV2 { bulk_idle_ticks: idle as u8, ..next }, false)
            }
        } else {
            (next, false)
        }
    }

    /// The detector and its request after a full tick.
    pub open spec fn updated(self, t: PathTelemetryV2, policer: bool) -> (CapacityProbeStateV2, bool) {
        self.on_path(t.path_epoch).ticked(t, policer)
    }

    /// The detector without a loss episode.
    pub open spec fn loss_cleared(self) -> CapacityProbeStateV2 {
        CapacityProbeStateV2 {
            loss_episode: false,
            loss_signal_latched: false,
            consecutive_clean_loss_ticks: 0,
            ..self
        }
    }

    /// The sample opens a loss episode.
    pub open spec fn loss_signal(t: PathTelemetryV2) -> bool {
        ||| t.loss_ppm >= LOSS_EPISODE_THRESHOLD_PPM
        ||| t.residual_loss_ppm >= LOSS_EPISODE_THRESHOLD_PPM
        ||| t.burst_loss_cells >= 3
    }

    /// The detector and its recovery request after one sample of the loss
    /// edge: the second clean sample in a row ends an episode and asks for
    /// discovery.
    pub open spec fn loss_observed(self, t: PathTelemetryV2, policer: bool) -> (
        CapacityProbeStateV2,
        bool,
    ) {
        let signal = Self::loss_signal(t);
        if t.path_epoch != self.path_epoch {
            (self.reset_to(t.path_epoch), false)
        } else if policer || t.tun_ingress_bytes_per_second == 0 {
            (self.loss_cleared(), false)
        } else if signal && !self.loss_signal_latched {
            (
                CapacityProbeStateV2 {
                    loss_signal_latched: true,
                    loss_episode: true,
                    consecutive_clean_loss_ticks: 0,
                    ..self
                },
                false,
            )
        } else {
            let latched = CapacityProbeStateV2 { loss_signal_latched: signal, ..self };
            let clean = min_int(self.consecutive_clean_loss_ticks + 1, 255);
            if !self.loss_episode {
                (latched, false)
            } else if t.loss_ppm != 0 || t.residual_loss_ppm != 0 {
                (CapacityProbeStateV2 { consecutive_clean_loss_ticks: 0, ..latched }, false)
            } else if clean < 2 {
                (
                    CapacityProbeStateV2 { consecutive_clean_loss_ticks: clean as u8, ..latched },
                    false,
                )
            } else {
                (
                    CapacityProbeStateV2 {
                        loss_episode: false,
                        consecutive_clean_loss_ticks: 0,
                        ..latched
                    },
                    true,
                )
            }
        }
    }

    /// An active tunnel's pacing cap has just been released.
    pub open spec fn cap_released(self, cap: u64, tun_active: bool) -> bool {
        tun_active && cap == 0 && (self.previous_pacing_cap_bytes_per_second matches Some(previous)
            && previous > 0)
    }

    /// Start counting Bulk service on a path.
    pub fn initialize_bulk_service_counter(&mut self, path_epoch: u64, counter: u64)
        ensures
            *final(self) == (CapacityProbeStateV2 {
                path_epoch,
                bulk_service_counter: counter,
                initial_bulk_probe: InitialBulkProbeV2::AwaitingEdge,
                initial_clean_demand_seen: false,
                initial_sample_incomplete: false,
                initial_bulk_serviced_bytes: 0,
                initial_bulk_service_edges: 0,
                ..*old(self)
            }),
    {
        self.path_epoch = path_epoch;
        self.bulk_service_counter = counter;
        self.initial_bulk_probe = InitialBulkProbeV2::AwaitingEdge;
        self.initial_clean_demand_seen = false;
        self.initial_sample_incomplete = false;
        self.initial_bulk_serviced_bytes = 0;
        self.initial_bulk_service_edges = 0;
    }

    /// Start counting Bulk admission.
    pub fn initialize_bulk_admission_counter(&mut self, counter: u64)
        ensures
            *final(self) == (CapacityProbeStateV2 {
                bulk_admission_counter: counter,
                bulk_admission_since_tick: false,
                initial_bulk_admitted_bytes: 0,
                initial_bulk_admission_edges: 0,
                ..*old(self)
            }),
    {
        self.bulk_admission_counter = counter;
        self.bulk_admission_since_tick = false;
        self.initial_bulk_admitted_bytes = 0;
        self.initial_bulk_admission_edges = 0;
    }

    /// Forget the old path; counters survive and one request is owed.
    pub fn reset_for_path(&mut self, path_epoch: u64)
        ensures
            *final(self) == old(self).reset_to(path_epoch),
    {
        let bulk_service_counter: u64 = self.bulk_service_counter;
        let bulk_admission_counter: u64 = self.bulk_admission_counter;
        *self = CapacityProbeStateV2::default();
        self.path_epoch = path_epoch;
        self.bulk_service_counter = bulk_service_counter;
        self.bulk_admission_counter = bulk_admission_counter;
        self.probe_pending = true;
        self.initial_bulk_probe = InitialBulkProbeV2::Consumed;
    }

    /// Observe the cumulative Bulk service byte counter on the lightweight
    /// edge tick. Initial Bulk traffic only marks a one-shot decision pending:
    /// the complete one-second telemetry sample decides whether native Startup
    /// underestimated clean demand without racing shallow-policer
    /// classification. A later increase requests discovery only after the
    /// ordinary telemetry path has verified a complete idle horizon (or an
    /// explicit path reset left a request pending).
    pub fn update_bulk_service_counter(&mut self, counter: u64) -> (r: bool)
        ensures
            (*final(self), r) == old(self).serviced(counter),
    {
        let serviced_bytes: u64 = counter.saturating_sub(self.bulk_service_counter);
        self.bulk_service_counter = counter;
        if serviced_bytes == 0 {
            return false;
        }
        self.bulk_service_since_tick = true;
        if self.initial_bulk_probe != InitialBulkProbeV2::Consumed {
            self.initial_bulk_serviced_bytes =
                self.initial_bulk_serviced_bytes.saturating_add(serviced_bytes);
            self.initial_bulk_service_edges = self.initial_bulk_service_edges.saturating_add(1);
        }
        if self.bulk_active {
            // Sustained service is positive application-epoch evidence even
            // if ingress accounting momentarily lags. It must cancel any
            // partial idle horizon rather than allowing a false re-edge.
            self.bulk_idle_ticks = 0;
            self.bulk_idle_verified = false;
            return false;
        }
        let request_capacity_probe: bool = self.bulk_idle_verified || self.probe_pending;
        if !request_capacity_probe && self.initial_bulk_probe == InitialBulkProbeV2::AwaitingEdge {
            self.initial_bulk_probe = InitialBulkProbeV2::AwaitingSampleBoundary;
        }
        self.bulk_active = true;
        self.bulk_idle_ticks = 0;
        self.bulk_idle_verified = false;
        self.probe_pending = false;
        // Whether this was the initial epoch or a verified reactivation, the
        // edge has been consumed. A later backlog observation belongs to the
        // same epoch and must not restart Startup again.
        request_capacity_probe
    }

    /// Observe classified Bulk admission independently of post-send service.
    /// A backlog behind a cold or loss-reduced congestion window can otherwise
    /// wait several RTTs before its first service byte, which is too late for
    /// a one-shot initial capacity discovery decision.
    pub fn update_bulk_admission_counter(&mut self, counter: u64)
        ensures
            *final(self) == old(self).admitted(counter),
    {
        let admitted_bytes: u64 = counter.saturating_sub(self.bulk_admission_counter);
        self.bulk_admission_counter = counter;
        if admitted_bytes == 0 {
            return ;
        }
        self.bulk_admission_since_tick = true;
        if self.initial_bulk_probe == InitialBulkProbeV2::Consumed {
            return ;
        }
        self.initial_bulk_admitted_bytes =
            self.initial_bulk_admitted_bytes.saturating_add(admitted_bytes);
        self.initial_bulk_admission_edges = self.initial_bulk_admission_edges.saturating_add(1);
    }

    /// Request discovery as soon as a connection that already left native
    /// Startup has either admitted or serviced sustained TUN Bulk traffic.
    /// Waiting for post-send service or the next one-second telemetry tick
    /// would make this edge depend on a loss-free interval. On an asymmetric
    /// or radio upload the stale control-plane model can prevent that first
    /// send and permanently strand BBR at a low rate.
    ///
    /// The byte-and-edge threshold rejects a one-packet transfer. Native
    /// Startup and a confirmed policer episode retain ownership of their own
    /// discovery, so this remains one semantic Bulk-epoch restart rather than
    /// a second congestion response.
    pub fn sustained_initial_bulk_requires_probe(
        &mut self,
        controller_state: u8,
        controller_policer_episode_active: bool,
    ) -> (r: bool)
        ensures
            r == old(self).initial_bulk_fires(
                controller_state,
                controller_policer_episode_active,
            ),
            *final(self) == (if r {
                CapacityProbeStateV2 {
                    initial_bulk_probe: InitialBulkProbeV2::Consumed,
                    initial_clean_demand_seen: false,
                    initial_sample_incomplete: false,
                    ..*old(self)
                }
            } else {
                *old(self)
            }),
    {
        let sustained_service: bool = self.initial_bulk_service_edges >= MIN_SUSTAINED_BULK_EDGES
            && self.initial_bulk_serviced_bytes >= MIN_SUSTAINED_BULK_BYTES;
        let sustained_admission: bool = self.initial_bulk_admission_edges
            >= MIN_SUSTAINED_BULK_EDGES && self.initial_bulk_admitted_bytes
            >= MIN_SUSTAINED_BULK_BYTES;
        if self.initial_bulk_probe == InitialBulkProbeV2::Consumed || controller_state == 0
            || controller_policer_episode_active || !(sustained_service || sustained_admission) {
            return false;
        }
        self.initial_bulk_probe = InitialBulkProbeV2::Consumed;
        self.initial_clean_demand_seen = false;
        self.initial_sample_incomplete = false;
        true
    }

    /// Take back a fast edge that found no controller tunables. The explicit
    /// request is kept for the normal telemetry path without pretending idle
    /// was verified.
    pub fn cancel_bulk_service_edge(&mut self)
        ensures
            *final(self) == (CapacityProbeStateV2 {
                bulk_active: false,
                bulk_idle_ticks: 0,
                bulk_idle_verified: false,
                bulk_service_since_tick: false,
                probe_pending: true,
                ..*old(self)
            }),
    {
        self.bulk_active = false;
        self.bulk_idle_ticks = 0;
        self.bulk_idle_verified = false;
        self.bulk_service_since_tick = false;
        self.probe_pending = true;
    }

    /// Fold one full telemetry tick in and say whether capacity discovery is
    /// requested.
    pub fn update(
        &mut self,
        telemetry: PathTelemetryV2,
        controller_policer_episode_active: bool,
    ) -> (r: bool)
        ensures
            (*final(self), r) == old(self).updated(telemetry, controller_policer_episode_active),
    {
        self.enter_path(telemetry.path_epoch);
        self.tick(telemetry, controller_policer_episode_active)
    }

    /// Stand on the sample's path before the tick is folded in.
    fn enter_path(&mut self, path_epoch: u64)
        ensures
            *final(self) == old(self).on_path(path_epoch),
    {
        self.initial_sample_incomplete = false;
        if self.path_epoch == 0 {
            // The first observed path is connection initialization, not a
            // path migration. Its native controller Startup is sufficient.
            self.path_epoch = path_epoch;
        } else if self.path_epoch != path_epoch {
            self.reset_for_path(path_epoch);
        }
    }

    /// Move the initial decision one stage and take the tick's Bulk flags.
    fn advance_initial(&mut self, telemetry: PathTelemetryV2, policer: bool)
        ensures
            *final(self) == old(self).initial_advanced(telemetry, policer),
    {
        self.bulk_service_since_tick = false;
        self.bulk_admission_since_tick = false;
        match self.initial_bulk_probe {
            InitialBulkProbeV2::AwaitingSampleBoundary => {
                // This sample may contain almost a full second from before the
                // fast edge. Never publish from it, but retain a hard-safe
                // clean pressure observation so a rate fall in the next full
                // interval does not erase evidence that native Startup
                // under-estimated the initial demand.
                self.initial_clean_demand_seen = initial_bulk_clean_demand_is_safe(
                    telemetry,
                    policer,
                );
                self.initial_bulk_probe = InitialBulkProbeV2::AwaitingCompleteTick;
                self.initial_sample_incomplete = true;
            },
            InitialBulkProbeV2::AwaitingCompleteTick => {
                // Exactly one complete telemetry interval may decide the
                // initial epoch. A later clean sample must never resurrect a
                // decision suppressed by Startup, loss, or a policer
                // transition.
                self.initial_bulk_probe = InitialBulkProbeV2::Consumed;
                self.initial_clean_demand_seen = false;
            },
            _ => {},
        }
    }

    /// Fold the tick of the current path in.
    fn tick(&mut self, telemetry: PathTelemetryV2, policer: bool) -> (r: bool)
        ensures
            (*final(self), r) == old(self).ticked(telemetry, policer),
    {
        let producer_backlogged: bool = telemetry.packet_train_queue_bytes
            >= TX_ADMISSION_BATCH_BYTES as u64;
        // A retained controller-internal queue keeps an established Bulk
        // epoch active, but cannot create an application epoch by itself.
        // Both edge counters are classified at the scheduler boundary, so
        // latency/control TUN ingress cannot contaminate Bulk state.
        let bulk_activity: bool = self.bulk_admission_since_tick || self.bulk_service_since_tick
            || (self.bulk_active && producer_backlogged);
        let initial_probe_state: InitialBulkProbeV2 = self.initial_bulk_probe;
        let decided: bool = initial_probe_state == InitialBulkProbeV2::AwaitingCompleteTick
            && initial_bulk_capacity_probe_is_safe(
            telemetry,
            policer,
            self.initial_clean_demand_seen,
        );
        self.advance_initial(telemetry, policer);
        if bulk_activity {
            if self.bulk_active {
                // A renewed Bulk byte or retained admission backlog belongs to
                // the current epoch; a one-tick producer lull must not rearm a
                // second capacity probe.
                self.bulk_idle_ticks = 0;
                self.bulk_idle_verified = false;
                return decided;
            }
            if initial_probe_state == InitialBulkProbeV2::AwaitingEdge {
                // Without a preceding fast edge this is still the first
                // boundary at which initial Bulk is known to be active. The
                // following interval is the first one allowed to publish.
                self.initial_clean_demand_seen = initial_bulk_clean_demand_is_safe(
                    telemetry,
                    policer,
                );
                self.initial_bulk_probe = InitialBulkProbeV2::AwaitingCompleteTick;
                self.initial_sample_incomplete = true;
            }
            let request_capacity_probe: bool = self.bulk_idle_verified || self.probe_pending
                || decided;
            self.bulk_active = true;
            self.bulk_idle_verified = false;
            self.probe_pending = false;
            return request_capacity_probe;
        }
        if self.bulk_active {
            self.bulk_idle_ticks = self.bulk_idle_ticks.saturating_add(1);
            let horizon: u8 = if policer { 5 } else { 2 };
            if self.bulk_idle_ticks >= horizon {
                self.bulk_active = false;
                self.bulk_idle_ticks = 0;
                self.bulk_idle_verified = true;
            }
        }
        false
    }

    /// Fold one sample of the loss edge in and say whether its recovery asks
    /// for discovery.
    pub fn update_loss_episode(
        &mut self,
        telemetry: PathTelemetryV2,
        controller_policer_episode_active: bool,
    ) -> (r: bool)
        ensures
            (*final(self), r) == old(self).loss_observed(
                telemetry,
                controller_policer_episode_active,
            ),
    {
        if telemetry.path_epoch != self.path_epoch {
            self.reset_for_path(telemetry.path_epoch);
            return false;
        }
        // A controller-confirmed shallow-policer episode is expected to turn
        // a lossy probe into clean delivery. Treating those clean ticks as a
        // recovery edge would restart Startup, discard the fixed ceiling and
        // recreate the same loss. A true idle/new-Bulk epoch is still handled
        // by `update`/the fast Bulk service edge, and a path change resets all
        // state above.
        if controller_policer_episode_active {
            self.loss_episode = false;
            self.loss_signal_latched = false;
            self.consecutive_clean_loss_ticks = 0;
            return false;
        }
        if telemetry.tun_ingress_bytes_per_second == 0 {
            self.loss_episode = false;
            self.loss_signal_latched = false;
            self.consecutive_clean_loss_ticks = 0;
            return false;
        }
        let episode_signal: bool = telemetry.loss_ppm >= LOSS_EPISODE_THRESHOLD_PPM
            || telemetry.residual_loss_ppm >= LOSS_EPISODE_THRESHOLD_PPM
            || telemetry.burst_loss_cells >= 3;
        if !episode_signal {
            self.loss_signal_latched = false;
        } else if !self.loss_signal_latched {
            self.loss_signal_latched = true;
            self.loss_episode = true;
            self.consecutive_clean_loss_ticks = 0;
            return false;
        }
        if !self.loss_episode {
            return false;
        }
        if telemetry.loss_ppm != 0 || telemetry.residual_loss_ppm != 0 {
            self.consecutive_clean_loss_ticks = 0;
            return false;
        }
        self.consecutive_clean_loss_ticks = self.consecutive_clean_loss_ticks.saturating_add(1);
        if self.consecutive_clean_loss_ticks < 2 {
            return false;
        }
        self.loss_episode = false;
        self.consecutive_clean_loss_ticks = 0;
        true
    }

    /// As [`Self::update_loss_episode`], but blind to a partial initial
    /// interval.
    pub fn update_loss_episode_if_complete(
        &mut self,
        telemetry: PathTelemetryV2,
        controller_policer_episode_active: bool,
    ) -> (r: bool)
        ensures
            (*final(self), r) == (if old(self).initial_sample_incomplete {
                (*old(self), false)
            } else {
                old(self).loss_observed(telemetry, controller_policer_episode_active)
            }),
    {
        !self.initial_sample_incomplete && self.update_loss_episode(
            telemetry,
            controller_policer_episode_active,
        )
    }

    /// Remember the pacing cap and say whether an active tunnel's cap was just
    /// released.
    pub fn update_pacing_cap(&mut self, pacing_cap_bytes_per_second: u64, tun_active: bool) -> (r:
        bool)
        ensures
            r == old(self).cap_released(pacing_cap_bytes_per_second, tun_active),
            *final(self) == (CapacityProbeStateV2 {
                previous_pacing_cap_bytes_per_second: Some(pacing_cap_bytes_per_second),
                ..*old(self)
            }),
    {
        let was_capped: bool = match self.previous_pacing_cap_bytes_per_second {
            Some(previous) => previous > 0,
            None => false,
        };
        let released: bool = tun_active && was_capped && pacing_cap_bytes_per_second == 0;
        self.previous_pacing_cap_bytes_per_second = Some(pacing_cap_bytes_per_second);
        released
    }

    /// As [`Self::update_pacing_cap`], but a transition inside a partial
    /// initial interval is only remembered: otherwise a release that happened
    /// in this interval would be reported one tick late, after the complete
    /// initial-Bulk sample has already made its own one-shot decision.
    pub fn update_pacing_cap_if_complete(
        &mut self,
        pacing_cap_bytes_per_second: u64,
        tun_active: bool,
    ) -> (r: bool)
        ensures
            r == (!old(self).initial_sample_incomplete && old(self).cap_released(
                pacing_cap_bytes_per_second,
                tun_active,
            )),
            *final(self) == (CapacityProbeStateV2 {
                previous_pacing_cap_bytes_per_second: Some(pacing_cap_bytes_per_second),
                ..*old(self)
            }),
    {
        if self.initial_sample_incomplete {
            self.previous_pacing_cap_bytes_per_second = Some(pacing_cap_bytes_per_second);
            return false;
        }
        self.update_pacing_cap(pacing_cap_bytes_per_second, tun_active)
    }
}

impl Default for CapacityProbeStateV2 {
    fn default() -> (r: CapacityProbeStateV2)
        ensures
            r == CapacityProbeStateV2::initial(),
    {
        CapacityProbeStateV2 {
            path_epoch: 0,
            bulk_service_counter: 0,
            bulk_admission_counter: 0,
            bulk_admission_since_tick: false,
            bulk_active: false,
            bulk_idle_ticks: 0,
            bulk_idle_verified: false,
            bulk_service_since_tick: false,
            initial_bulk_serviced_bytes: 0,
            initial_bulk_service_edges: 0,
            initial_bulk_admitted_bytes: 0,
            initial_bulk_admission_edges: 0,
            probe_pending: false,
            initial_bulk_probe: InitialBulkProbeV2::AwaitingEdge,
            initial_clean_demand_seen: false,
            initial_sample_incomplete: false,
            previous_pacing_cap_bytes_per_second: None,
            loss_episode: false,
            loss_signal_latched: false,
            consecutive_clean_loss_ticks: 0,
        }
    }
}

/// The initial decision is one-shot: once spent, no later tick on the same
/// path asks for discovery until an idle horizon is verified, and the decision
/// stays spent.
pub proof fn lemma_spent_decision_is_never_resurrected(
    state: CapacityProbeStateV2,
    t: PathTelemetryV2,
    policer: bool,
)
    requires
        state.initial_bulk_probe == InitialBulkProbeV2::Consumed,
        state.path_epoch == t.path_epoch,
        state.path_epoch != 0,
        !state.bulk_idle_verified,
        !state.probe_pending,
    ensures
        !state.updated(t, policer).1,
        state.updated(t, policer).0.initial_bulk_probe == InitialBulkProbeV2::Consumed,
        !state.updated(t, policer).0.probe_pending,
        forall|counter: u64| !(#[trigger] state.serviced(counter)).1,
        forall|controller_state: u8, episode: bool|
            !(#[trigger] state.initial_bulk_fires(controller_state, episode)),
{
}

/// A controller-internal backlog alone never opens a Bulk epoch, and neither
/// does unclassified tunnel traffic: without admitted or serviced Bulk an
/// inactive detector asks for nothing and stays inactive.
pub proof fn lemma_only_classified_bulk_opens_an_epoch(
    state: CapacityProbeStateV2,
    t: PathTelemetryV2,
    policer: bool,
)
    requires
        !state.bulk_active,
        !state.bulk_admission_since_tick,
        !state.bulk_service_since_tick,
    ensures
        !state.updated(t, policer).1,
        !state.updated(t, policer).0.bulk_active,
        state.path_epoch == t.path_epoch && state.initial_bulk_probe
            == InitialBulkProbeV2::AwaitingEdge ==> state.updated(t, policer).0.initial_bulk_probe
            == InitialBulkProbeV2::AwaitingEdge,
{
}

/// An active epoch on its path asks for discovery at most once: only through
/// the complete interval of the initial decision.
pub proof fn lemma_active_epoch_asks_only_for_the_initial_decision(
    state: CapacityProbeStateV2,
    t: PathTelemetryV2,
    policer: bool,
)
    requires
        state.bulk_active,
        state.path_epoch == t.path_epoch,
        state.updated(t, policer).1,
    ensures
        state.initial_bulk_probe == InitialBulkProbeV2::AwaitingCompleteTick,
        state.updated(t, policer).0.initial_bulk_probe == InitialBulkProbeV2::Consumed,
        initial_sample_safe(t, policer),
{
}

/// Startup, loss and a policer episode each suppress the initial decision for
/// good: the complete interval spends it without a request.
pub proof fn lemma_unsafe_complete_interval_spends_the_decision_silently(
    state: CapacityProbeStateV2,
    t: PathTelemetryV2,
    policer: bool,
)
    requires
        state.initial_bulk_probe == InitialBulkProbeV2::AwaitingCompleteTick,
        state.path_epoch == t.path_epoch,
        state.bulk_active,
        !initial_sample_safe(t, policer),
    ensures
        !state.updated(t, policer).1,
        state.updated(t, policer).0.initial_bulk_probe == InitialBulkProbeV2::Consumed,
{
}

/// The interval that only aligns the initial decision asks for nothing itself
/// and hides its samples from the loss and cap edges.
pub proof fn lemma_partial_interval_is_ignored_by_the_other_edges(
    state: CapacityProbeStateV2,
    t: PathTelemetryV2,
    policer: bool,
)
    requires
        state.initial_bulk_probe == InitialBulkProbeV2::AwaitingSampleBoundary,
        state.path_epoch == t.path_epoch,
        state.bulk_active,
    ensures
        !state.updated(t, policer).1,
        state.updated(t, policer).0.initial_sample_incomplete,
{
}

/// Idle ticks needed to verify an idle horizon.
pub open spec fn idle_horizon(policer: bool) -> int {
    if policer { 5 } else { 2 }
}

/// The state after a run of full ticks.
pub open spec fn ticked_through(
    state: CapacityProbeStateV2,
    run: Seq<PathTelemetryV2>,
    policer: bool,
) -> CapacityProbeStateV2
    decreases run.len(),
{
    if run.len() == 0 {
        state
    } else {
        ticked_through(state, run.drop_last(), policer).updated(run.last(), policer).0
    }
}

/// The tick shows no Bulk of its own: no backlog that would hold the epoch.
pub open spec fn idle_tick(state: CapacityProbeStateV2, t: PathTelemetryV2) -> bool {
    &&& t.path_epoch == state.path_epoch
    &&& t.packet_train_queue_bytes < (TX_ADMISSION_BATCH_BYTES as u64)
}

/// An active epoch survives every idle run shorter than the horizon and is
/// verified idle exactly by the tick that completes it: two ticks, or five
/// while a policer episode is confirmed.
pub proof fn lemma_idle_is_verified_by_a_complete_horizon(
    state: CapacityProbeStateV2,
    run: Seq<PathTelemetryV2>,
    policer: bool,
)
    requires
        state.bulk_active,
        state.path_epoch != 0,
        state.bulk_idle_ticks == 0,
        !state.bulk_idle_verified,
        !state.bulk_admission_since_tick,
        !state.bulk_service_since_tick,
        run.len() <= idle_horizon(policer),
        forall|i: int| 0 <= i < run.len() ==> idle_tick(state, #[trigger] run[i]),
    ensures
        ({
            let after = ticked_through(state, run, policer);
            &&& after.path_epoch == state.path_epoch
            &&& !after.bulk_admission_since_tick
            &&& !after.bulk_service_since_tick
            &&& run.len() < idle_horizon(policer) ==> after.bulk_active && !after.bulk_idle_verified
                && after.bulk_idle_ticks == run.len()
            &&& run.len() == idle_horizon(policer) ==> !after.bulk_active
                && after.bulk_idle_verified && after.bulk_idle_ticks == 0
        }),
    decreases run.len(),
{
    if run.len() > 0 {
        let shorter = run.drop_last();
        assert forall|i: int| 0 <= i < shorter.len() implies idle_tick(
            state,
            #[trigger] shorter[i],
        ) by {
            assert(shorter[i] == run[i]);
        }
        lemma_idle_is_verified_by_a_complete_horizon(state, shorter, policer);
        assert(idle_tick(state, run[run.len() - 1]));
    }
}

/// After a verified idle horizon the next Bulk byte asks for discovery exactly
/// once.
pub proof fn lemma_verified_idle_rearms_exactly_one_request(
    state: CapacityProbeStateV2,
    counter: u64,
    later: u64,
)
    requires
        state.bulk_idle_verified,
        !state.bulk_active,
        state.bulk_service_counter < counter,
    ensures
        state.serviced(counter).1,
        !state.serviced(counter).0.serviced(later).1,
        !state.serviced(counter).0.bulk_idle_verified,
{
}

/// A fast edge that could not be published is owed: the next Bulk byte asks
/// again, without any verified idle.
pub proof fn lemma_cancelled_edge_is_still_owed(
    state: CapacityProbeStateV2,
    counter: u64,
    later: u64,
)
    requires
        state.bulk_service_counter < counter < later,
    ensures
        ({
            let cancelled = CapacityProbeStateV2 {
                bulk_active: false,
                bulk_idle_ticks: 0,
                bulk_idle_verified: false,
                bulk_service_since_tick: false,
                probe_pending: true,
                ..state.serviced(counter).0
            };
            &&& cancelled.serviced(later).1
            &&& !cancelled.serviced(later).0.probe_pending
        }),
{
}

/// A loss episode asks for at most one recovery probe, and only after two
/// clean samples in a row.
pub proof fn lemma_loss_recovery_needs_two_clean_samples(
    state: CapacityProbeStateV2,
    t: PathTelemetryV2,
    policer: bool,
)
    requires
        state.loss_observed(t, policer).1,
    ensures
        state.loss_episode,
        state.consecutive_clean_loss_ticks >= 1,
        t.loss_ppm == 0 && t.residual_loss_ppm == 0,
        !policer,
        t.tun_ingress_bytes_per_second != 0,
        t.path_epoch == state.path_epoch,
        !state.loss_observed(t, policer).0.loss_episode,
        forall|next: PathTelemetryV2, episode: bool|
            !(#[trigger] state.loss_observed(t, policer).0.loss_observed(next, episode)).1,
{
}

} // verus!

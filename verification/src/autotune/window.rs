//! The telemetry window of one connection: what its counters, its selected
//! path and its controller say over one sampling interval.

use vstd::prelude::*;
use vstd::string::StringExecFns;

use crate::autotune::controller::Bbr3Tunables;
use crate::autotune::feedback::{
    average, bounded_ratio, counter_delta, counter_growth, quotient_or_zero, rate_over,
    rate_per_second, ratio_per_million, RemoteFeedbackRatesV2,
};
use crate::config::DerpPublicKey;
use crate::dataplane::repair_minimum_age_for_rtt;
use crate::digest::{hex_encode, hex_text};
use crate::net::SocketAddr;
use crate::num::{clamp_int, min_int, sat_u64, saturating_mul_u64, u64_from_u128};
use crate::prefix::{address_text, format_address};
use crate::text::{decimal, decimal_text, same_text};
use crate::time::{Duration, Instant, MAX_NANOS};
use crate::tuning::{PathReliability, PathTelemetryV2};

verus! {

/// Cumulative counters of a connection.
#[derive(Clone, Copy, Debug, PartialEq, Eq, Structural)]
pub struct ConnectionCountersV2 {
    pub udp_tx_datagrams: u64,
    pub udp_tx_bytes: u64,
    pub udp_rx_datagrams: u64,
    pub udp_rx_bytes: u64,
    pub lost_packets: u64,
}

/// What the congestion controller reports of itself.
#[derive(Clone, Copy, Debug, PartialEq, Eq, Structural)]
pub struct ControllerSnapshotV2 {
    pub state: u8,
    pub bw: u64,
    pub max_bw: u64,
    pub min_rtt: Duration,
    pub inflight_longterm: u64,
    pub guard_transitions: u64,
    pub app_limited_in_round: bool,
    pub params_generation: u64,
}

/// One path of a connection.
#[derive(Debug)]
pub struct PathSampleV2 {
    pub selected: bool,
    /// The path goes through a relay of the transport.
    pub is_relay: bool,
    pub remote: PathRemoteV2,
    pub rtt: Duration,
    pub congestion_window_bytes: u64,
    pub pacing_rate_bytes_per_second: Option<u64>,
    pub send_quantum_bytes: Option<u64>,
    pub policer_pacing_transitions: u64,
    pub snapshot: Option<ControllerSnapshotV2>,
}

/// Where a path leads.
#[derive(Clone, Copy, Debug, PartialEq, Eq)]
pub enum PathRemoteV2 {
    /// An IP endpoint.
    Ip(SocketAddr),
    /// A peer behind an overlay relay of a region.
    Derp { region_id: u16, public_key: DerpPublicKey },
    /// Another transport.
    Other,
}

/// Whether a path leads through an overlay relay.
pub open spec fn is_derp(remote: PathRemoteV2) -> bool {
    remote is Derp
}

/// The network locator that a path leads to. The port of an IP endpoint is
/// not part of it: a peer that rebinds its socket stays where it is.
pub open spec fn locator_text(remote: PathRemoteV2) -> Seq<char> {
    match remote {
        PathRemoteV2::Ip(endpoint) => "ip:"@ + address_text(endpoint.ip),
        PathRemoteV2::Derp { region_id, public_key } => "derp:"@ + decimal_text(
            region_id as int,
        ) + ":"@ + hex_text(public_key@),
        PathRemoteV2::Other => "other"@,
    }
}

/// The network locator that a path leads to.
pub fn path_endpoint_identity(remote: &PathRemoteV2) -> (r: String)
    ensures
        r@ == locator_text(*remote),
{
    match remote {
        PathRemoteV2::Ip(endpoint) => {
            let mut text: String = "ip:".to_owned();
            let address: String = format_address(&endpoint.ip);
            text.append(address.as_str());
            text
        },
        PathRemoteV2::Derp { region_id, public_key } => {
            let mut text: String = "derp:".to_owned();
            let region: String = decimal(*region_id as u64);
            let key: String = hex_encode(public_key.bytes.as_slice());
            text.append(region.as_str());
            text.append(":");
            text.append(key.as_str());
            text
        },
        PathRemoteV2::Other => "other".to_owned(),
    }
}

/// A peer that moves to another port keeps its locator, and no IP endpoint
/// shares one with a relayed peer.
pub proof fn lemma_locator_ignores_the_port(
    endpoint: SocketAddr,
    other: SocketAddr,
    relayed: PathRemoteV2,
)
    requires
        endpoint.ip == other.ip,
        is_derp(relayed),
    ensures
        locator_text(PathRemoteV2::Ip(endpoint)) == locator_text(PathRemoteV2::Ip(other)),
        locator_text(PathRemoteV2::Ip(endpoint)) != locator_text(relayed),
{
    reveal_strlit("ip:");
    reveal_strlit("derp:");
    assert(locator_text(PathRemoteV2::Ip(endpoint))[0] == 'i');
    assert(locator_text(relayed)[0] == 'd');
}

/// Whether a path delivers by itself: a relay of either kind does, and needs
/// no protection on top.
pub open spec fn reliability_of(is_relay: bool, remote: PathRemoteV2) -> PathReliability {
    if is_relay || is_derp(remote) {
        PathReliability::ReliableRelay
    } else {
        PathReliability::Datagram
    }
}

/// Whether a path delivers by itself.
pub fn path_reliability(is_iroh_relay: bool, remote: &PathRemoteV2) -> (r: PathReliability)
    ensures
        r == reliability_of(is_iroh_relay, *remote),
{
    match remote {
        PathRemoteV2::Derp { region_id: _, public_key: _ } => PathReliability::ReliableRelay,
        _ => if is_iroh_relay {
            PathReliability::ReliableRelay
        } else {
            PathReliability::Datagram
        },
    }
}

/// The first selected path.
pub open spec fn first_selected(paths: Seq<PathSampleV2>, from: int) -> Option<int>
    decreases paths.len() - from,
{
    if from < 0 || from >= paths.len() {
        None
    } else if paths[from].selected {
        Some(from)
    } else {
        first_selected(paths, from + 1)
    }
}

/// The first selected path, where one is selected.
pub fn selected_path_sample(paths: &Vec<PathSampleV2>) -> (r: Option<&PathSampleV2>)
    ensures
        r is Some == first_selected(paths@, 0) is Some,
        r matches Some(path) ==> *path == paths@[first_selected(paths@, 0)->0],
{
    let mut index: usize = 0;
    while index < paths.len()
        invariant
            index <= paths@.len(),
            first_selected(paths@, 0) == first_selected(paths@, index as int),
        decreases paths@.len() - index,
    {
        if paths[index].selected {
            return Some(&paths[index]);
        }
        index = index + 1;
    }
    None
}

/// The capacity that a path is advertised with: what the controller measured,
/// else what it paces at.
pub open spec fn route_capacity(
    snapshot: Option<ControllerSnapshotV2>,
    pacing: Option<u64>,
) -> int {
    let measured = match snapshot {
        Some(snapshot) => if snapshot.bw >= snapshot.max_bw {
            snapshot.bw as int
        } else {
            snapshot.max_bw as int
        },
        None => 0,
    };
    let rate = if measured != 0 {
        measured
    } else {
        match pacing {
            Some(rate) => rate as int,
            None => 0,
        }
    };
    sat_u64(rate * 8)
}

/// The capacity that a path is advertised with, in bits per second.
pub fn route_capacity_bps(snapshot: Option<ControllerSnapshotV2>, pacing: Option<u64>) -> (r: u64)
    ensures
        r == route_capacity(snapshot, pacing),
{
    let measured: u64 = match snapshot {
        Some(snapshot) => if snapshot.bw >= snapshot.max_bw {
            snapshot.bw
        } else {
            snapshot.max_bw
        },
        None => 0,
    };
    let rate: u64 = if measured != 0 {
        measured
    } else {
        match pacing {
            Some(rate) => rate,
            None => 0,
        }
    };
    saturating_mul_u64(rate, 8)
}

/// The shortest round trip that the controller knows, else the current one. A
/// controller that has measured none reports nothing or the longest span.
pub open spec fn minimum_rtt_of(snapshot: Option<ControllerSnapshotV2>, rtt: Duration) -> Duration {
    match snapshot {
        Some(snapshot) => if snapshot.min_rtt.nanos == 0 || snapshot.min_rtt.nanos == MAX_NANOS {
            rtt
        } else {
            snapshot.min_rtt
        },
        None => rtt,
    }
}

/// The shortest round trip that the controller knows, else the current one.
pub fn minimum_rtt(snapshot: Option<ControllerSnapshotV2>, rtt: Duration) -> (r: Duration)
    ensures
        r == minimum_rtt_of(snapshot, rtt),
{
    match snapshot {
        Some(snapshot) => if snapshot.min_rtt.nanos == 0 || snapshot.min_rtt.nanos == MAX_NANOS {
            rtt
        } else {
            snapshot.min_rtt
        },
        None => rtt,
    }
}

/// Cumulative counters of the dataplane that a sample reads.
#[derive(Clone, Copy, Debug, PartialEq, Eq, Structural)]
pub struct SampleCountersV2 {
    pub real_bytes: u64,
    pub tun_ingress_records: u64,
    pub tun_ingress_bytes: u64,
    pub gso_input_bytes: u64,
    pub reassembly_pressure_evictions: u64,
    pub train_build_bytes: u64,
    pub bulk_preemptions: u64,
    pub bulk_preemption_delay_micros: u64,
}

/// The part of a counter above an earlier reading.
pub open spec fn above(current: u64, previous: u64) -> u64 {
    if current >= previous {
        (current - previous) as u64
    } else {
        0
    }
}

impl SampleCountersV2 {
    /// The growth of every counter; one that went backwards has not grown.
    pub open spec fn since(self, previous: SampleCountersV2) -> SampleCountersV2 {
        SampleCountersV2 {
            real_bytes: above(self.real_bytes, previous.real_bytes),
            tun_ingress_records: above(self.tun_ingress_records, previous.tun_ingress_records),
            tun_ingress_bytes: above(self.tun_ingress_bytes, previous.tun_ingress_bytes),
            gso_input_bytes: above(self.gso_input_bytes, previous.gso_input_bytes),
            reassembly_pressure_evictions: above(
                self.reassembly_pressure_evictions,
                previous.reassembly_pressure_evictions,
            ),
            train_build_bytes: above(self.train_build_bytes, previous.train_build_bytes),
            bulk_preemptions: above(self.bulk_preemptions, previous.bulk_preemptions),
            bulk_preemption_delay_micros: above(
                self.bulk_preemption_delay_micros,
                previous.bulk_preemption_delay_micros,
            ),
        }
    }

    /// The growth of every counter.
    pub fn saturating_delta(&self, previous: SampleCountersV2) -> (r: SampleCountersV2)
        ensures
            r == self.since(previous),
    {
        SampleCountersV2 {
            real_bytes: self.real_bytes.saturating_sub(previous.real_bytes),
            tun_ingress_records: self.tun_ingress_records.saturating_sub(
                previous.tun_ingress_records,
            ),
            tun_ingress_bytes: self.tun_ingress_bytes.saturating_sub(previous.tun_ingress_bytes),
            gso_input_bytes: self.gso_input_bytes.saturating_sub(previous.gso_input_bytes),
            reassembly_pressure_evictions: self.reassembly_pressure_evictions.saturating_sub(
                previous.reassembly_pressure_evictions,
            ),
            train_build_bytes: self.train_build_bytes.saturating_sub(previous.train_build_bytes),
            bulk_preemptions: self.bulk_preemptions.saturating_sub(previous.bulk_preemptions),
            bulk_preemption_delay_micros: self.bulk_preemption_delay_micros.saturating_sub(
                previous.bulk_preemption_delay_micros,
            ),
        }
    }
}

/// What the dataplane shows at the sampling point.
#[derive(Clone, Copy, Debug, PartialEq, Eq, Structural)]
pub struct QueueFiguresV2 {
    pub train_queue_bytes: u64,
    pub latency_queue_bytes: u64,
    /// The latency lane was served in the interval.
    pub latency_served: bool,
    pub latency_sojourn_p50_micros: u64,
    pub latency_sojourn_p95_micros: u64,
    pub latency_sojourn_p99_micros: u64,
    pub cpu_utilization_per_mille: u64,
}

/// What one sample leads to besides the telemetry.
#[derive(Clone, Copy, Debug, PartialEq, Eq, Structural)]
pub struct PathTickV2 {
    pub telemetry: PathTelemetryV2,
    pub route_capacity_bps: u64,
    pub repair_minimum_age_micros: u64,
    /// The connection moved to another network locator.
    pub migrated: bool,
    /// Samples that were missed before this one.
    pub recovered_failures: u64,
}

/// The telemetry window of one connection.
#[derive(Debug)]
pub struct PathTelemetryWindowV2 {
    pub previous: ConnectionCountersV2,
    pub previous_sample_at: Instant,
    pub sample_counters: SampleCountersV2,
    pub identity: String,
    pub epoch: u64,
    pub previous_guard_transitions: u64,
    pub failures: u64,
}

/// The telemetry window over plain values.
#[verifier::ext_equal]
pub ghost struct WindowModel {
    pub previous: ConnectionCountersV2,
    pub previous_sample_at: Instant,
    pub sample_counters: SampleCountersV2,
    pub identity: Seq<char>,
    pub epoch: u64,
    pub previous_guard_transitions: u64,
    pub failures: u64,
}

/// Guard transitions that a controller reports.
pub open spec fn guard_transitions_of(snapshot: Option<ControllerSnapshotV2>) -> u64 {
    match snapshot {
        Some(snapshot) => snapshot.guard_transitions,
        None => 0,
    }
}

/// The number of the next path: never zero.
pub open spec fn next_epoch(epoch: u64) -> u64 {
    if epoch == u64::MAX {
        1
    } else {
        (epoch + 1) as u64
    }
}

/// A number, or zero.
pub open spec fn or_zero(value: Option<u64>) -> u64 {
    match value {
        Some(value) => value,
        None => 0,
    }
}

impl WindowModel {
    /// Whether a sample comes from another network locator than the last one.
    pub open spec fn migrates(self, identity: Seq<char>) -> bool {
        identity != self.identity && self.identity.len() > 0
    }

    /// The path number under which a sample counts.
    pub open spec fn epoch_for(self, identity: Seq<char>) -> u64 {
        if self.migrates(identity) {
            next_epoch(self.epoch)
        } else {
            self.epoch
        }
    }

    /// The guard transitions that a sample counts from: a new locator starts
    /// over.
    pub open spec fn guard_base(
        self,
        identity: Seq<char>,
        snapshot: Option<ControllerSnapshotV2>,
    ) -> u64 {
        if identity != self.identity {
            guard_transitions_of(snapshot)
        } else {
            self.previous_guard_transitions
        }
    }

    /// The window after a sample.
    pub open spec fn sampled(
        self,
        now: Instant,
        current: ConnectionCountersV2,
        path: PathSampleV2,
        counters: SampleCountersV2,
    ) -> WindowModel {
        let identity = locator_text(path.remote);
        WindowModel {
            previous: current,
            previous_sample_at: now,
            sample_counters: counters,
            identity,
            epoch: self.epoch_for(identity),
            previous_guard_transitions: guard_transitions_of(path.snapshot),
            failures: 0,
        }
    }

    /// The window after a sample that found no path.
    pub open spec fn missed(
        self,
        now: Instant,
        current: ConnectionCountersV2,
        counters: SampleCountersV2,
    ) -> WindowModel {
        WindowModel {
            previous: current,
            previous_sample_at: now,
            sample_counters: counters,
            failures: sat_u64(self.failures + 1) as u64,
            ..self
        }
    }

    /// The telemetry of a sample.
    pub open spec fn telemetry(
        self,
        now: Instant,
        current: ConnectionCountersV2,
        path: PathSampleV2,
        tunables: Option<Bbr3Tunables>,
        clamped_writes: u64,
        counters: SampleCountersV2,
        queues: QueueFiguresV2,
        remote: RemoteFeedbackRatesV2,
    ) -> PathTelemetryV2 {
        let identity = locator_text(path.remote);
        let nanos = now.since(self.previous_sample_at);
        let delta = counters.since(self.sample_counters);
        let sent = counter_growth(current.udp_tx_datagrams, self.previous.udp_tx_datagrams);
        let received = counter_growth(current.udp_rx_datagrams, self.previous.udp_rx_datagrams);
        let lost = counter_growth(current.lost_packets, self.previous.lost_packets);
        let min_rtt = minimum_rtt_of(path.snapshot, path.rtt);
        PathTelemetryV2 {
            path_epoch: self.epoch_for(identity),
            reliability: reliability_of(path.is_relay, path.remote),
            rtt: path.rtt,
            min_rtt,
            queue_delay: Duration {
                nanos: if path.rtt.nanos >= min_rtt.nanos {
                    (path.rtt.nanos - min_rtt.nanos) as u128
                } else {
                    0
                },
            },
            loss_ppm: bounded_ratio(lost as int, sent as int, 1_000_000) as u32,
            burst_loss_cells: remote.burst_loss_cells,
            reorder_ppm: remote.reorder_ppm,
            receiver_goodput_bytes_per_second: remote.receiver_goodput_bytes_per_second,
            residual_loss_ppm: remote.residual_loss_ppm,
            latency_sojourn_p95_micros: queues.latency_sojourn_p95_micros,
            latency_sojourn_p50_micros: queues.latency_sojourn_p50_micros,
            latency_sojourn_p99_micros: queues.latency_sojourn_p99_micros,
            latency_queue_recently_nonempty: queues.latency_queue_bytes != 0
                || queues.latency_served,
            delivery_rate_bytes_per_second: rate_over(
                counter_growth(current.udp_tx_bytes, self.previous.udp_tx_bytes) as int,
                nanos,
            ) as u64,
            controller_pacing_rate_bytes_per_second: or_zero(path.pacing_rate_bytes_per_second),
            controller_send_quantum_bytes: or_zero(path.send_quantum_bytes),
            controller_state: match path.snapshot {
                Some(snapshot) => snapshot.state,
                None => 0,
            },
            controller_bw_bytes_per_second: match path.snapshot {
                Some(snapshot) => snapshot.bw,
                None => 0,
            },
            controller_inflight_longterm_bytes: match path.snapshot {
                Some(snapshot) => snapshot.inflight_longterm,
                None => 0,
            },
            controller_guard_transitions_delta: above(
                guard_transitions_of(path.snapshot),
                self.guard_base(identity, path.snapshot),
            ),
            controller_app_limited: match path.snapshot {
                Some(snapshot) => snapshot.app_limited_in_round,
                None => false,
            },
            controller_tunables_generation: match tunables {
                Some(tunables) => tunables.generation,
                None => 0,
            },
            controller_params_generation: match path.snapshot {
                Some(snapshot) => snapshot.params_generation,
                None => 0,
            },
            controller_clamped_writes: match tunables {
                Some(_) => clamped_writes,
                None => 0,
            },
            receive_rate_bytes_per_second: rate_over(
                counter_growth(current.udp_rx_bytes, self.previous.udp_rx_bytes) as int,
                nanos,
            ) as u64,
            packets_per_second: if sent >= received {
                sent
            } else {
                received
            },
            tun_ingress_bytes_per_second: rate_over(delta.tun_ingress_bytes as int, nanos) as u64,
            average_record_bytes: quotient_or_zero(
                delta.tun_ingress_bytes,
                delta.tun_ingress_records,
            ),
            gso_ingress_ratio_ppm: bounded_ratio(
                delta.gso_input_bytes as int,
                delta.tun_ingress_bytes as int,
                1_000_000,
            ) as u32,
            packet_train_queue_bytes: queues.train_queue_bytes,
            latency_queue_bytes: queues.latency_queue_bytes,
            reassembly_pressure_evictions: delta.reassembly_pressure_evictions,
            remote_expired_stripes_delta: remote.expired_stripes_delta,
            train_build_bytes_per_second: rate_over(delta.train_build_bytes as int, nanos) as u64,
            bulk_preemption_delay_average_micros: quotient_or_zero(
                delta.bulk_preemption_delay_micros,
                delta.bulk_preemptions,
            ),
            cpu_utilization_per_mille: min_int(
                queues.cpu_utilization_per_mille as int,
                1_000,
            ) as u16,
            wasted_parity_per_mille: remote.wasted_parity_per_mille,
            fec_recovery_per_mille: remote.fec_recovery_per_mille,
            repair_hit_per_mille: remote.repair_hit_per_mille,
            repair_completed_requests: remote.repair_completed_requests,
            repair_response_latency: remote.repair_response_latency,
            real_traffic_bytes_per_second: rate_over(delta.real_bytes as int, nanos) as u64,
        }
    }
}

impl PathTelemetryWindowV2 {
    /// The window over plain values.
    pub open spec fn model(&self) -> WindowModel {
        WindowModel {
            previous: self.previous,
            previous_sample_at: self.previous_sample_at,
            sample_counters: self.sample_counters,
            identity: self.identity@,
            epoch: self.epoch,
            previous_guard_transitions: self.previous_guard_transitions,
            failures: self.failures,
        }
    }

    /// Start from the counters as they stand, on no path yet.
    pub fn capture(
        current: ConnectionCountersV2,
        counters: SampleCountersV2,
        now: Instant,
    ) -> (r: PathTelemetryWindowV2)
        ensures
            r.model() == (WindowModel {
                previous: current,
                previous_sample_at: now,
                sample_counters: counters,
                identity: Seq::empty(),
                epoch: 1,
                previous_guard_transitions: 0,
                failures: 0,
            }),
    {
        proof {
            reveal_strlit("");
        }
        let identity: String = "".to_owned();
        assert(identity@ =~= Seq::empty());
        PathTelemetryWindowV2 {
            previous: current,
            previous_sample_at: now,
            sample_counters: counters,
            identity,
            epoch: 1,
            previous_guard_transitions: 0,
            failures: 0,
        }
    }

    /// A sample found no path. Says whether the miss is worth a warning: the
    /// first one in a row and every tenth.
    pub fn miss(
        &mut self,
        now: Instant,
        current: ConnectionCountersV2,
        counters: SampleCountersV2,
    ) -> (r: bool)
        ensures
            final(self).model() == old(self).model().missed(now, current, counters),
            r == (final(self).failures == 1 || final(self).failures % 10 == 0),
    {
        self.failures = self.failures.saturating_add(1);
        self.previous = current;
        self.previous_sample_at = now;
        self.sample_counters = counters;
        self.failures == 1 || self.failures % 10 == 0
    }

    /// Fold one sample of the selected path in.
    ///
    /// The datagram counter already counts every attempt, also those that were
    /// later declared lost, so the loss ratio is taken over it alone. Receive
    /// coalescing follows the busier direction.
    pub fn sample(
        &mut self,
        now: Instant,
        current: ConnectionCountersV2,
        path: &PathSampleV2,
        tunables: Option<Bbr3Tunables>,
        clamped_writes: u64,
        counters: SampleCountersV2,
        queues: QueueFiguresV2,
        remote: RemoteFeedbackRatesV2,
    ) -> (r: PathTickV2)
        ensures
            final(self).model() == old(self).model().sampled(
                now,
                current,
                *path,
                counters,
            ),
            r == (PathTickV2 {
                telemetry: old(self).model().telemetry(
                    now,
                    current,
                    *path,
                    tunables,
                    clamped_writes,
                    counters,
                    queues,
                    remote,
                ),
                route_capacity_bps: route_capacity(
                    path.snapshot,
                    path.pacing_rate_bytes_per_second,
                ) as u64,
                repair_minimum_age_micros: (clamp_int(
                    path.rtt.nanos * 8,
                    50_000_000,
                    1_000_000_000,
                ) / 1_000) as u64,
                migrated: old(self).model().migrates(locator_text(path.remote)),
                recovered_failures: old(self).failures,
            }),
    {
        let ghost before = self.model();
        let recovered_failures: u64 = self.failures;
        self.failures = 0;
        let elapsed: Duration = now.saturating_duration_since(self.previous_sample_at);
        let guard_transitions: u64 = match path.snapshot {
            Some(snapshot) => snapshot.guard_transitions,
            None => 0,
        };
        let identity: String = path_endpoint_identity(&path.remote);
        let mut migrated: bool = false;
        if !same_text(identity.as_str(), self.identity.as_str()) {
            proof {
                reveal_strlit("");
            }
            migrated = !same_text(self.identity.as_str(), "");
            proof {
                if self.identity@.len() == 0 {
                    assert(self.identity@ =~= ""@);
                }
            }
            self.identity = identity;
            if migrated {
                self.epoch = if self.epoch == u64::MAX { 1 } else { self.epoch + 1 };
            }
            self.previous_guard_transitions = guard_transitions;
        }
        let min_rtt: Duration = minimum_rtt(path.snapshot, path.rtt);
        let sent_packets: u64 = counter_delta(
            current.udp_tx_datagrams,
            self.previous.udp_tx_datagrams,
        );
        let received_packets: u64 = counter_delta(
            current.udp_rx_datagrams,
            self.previous.udp_rx_datagrams,
        );
        let lost_packets: u64 = counter_delta(current.lost_packets, self.previous.lost_packets);
        let sent_bytes: u64 = counter_delta(current.udp_tx_bytes, self.previous.udp_tx_bytes);
        let received_bytes: u64 = counter_delta(current.udp_rx_bytes, self.previous.udp_rx_bytes);
        let delta: SampleCountersV2 = counters.saturating_delta(self.sample_counters);
        let guard_transitions_delta: u64 = guard_transitions.saturating_sub(
            self.previous_guard_transitions,
        );
        self.previous_guard_transitions = guard_transitions;
        let telemetry: PathTelemetryV2 = PathTelemetryV2 {
            path_epoch: self.epoch,
            reliability: path_reliability(path.is_relay, &path.remote),
            rtt: path.rtt,
            min_rtt,
            queue_delay: path.rtt.saturating_sub(min_rtt),
            loss_ppm: ratio_per_million(lost_packets, sent_packets),
            burst_loss_cells: remote.burst_loss_cells,
            reorder_ppm: remote.reorder_ppm,
            receiver_goodput_bytes_per_second: remote.receiver_goodput_bytes_per_second,
            residual_loss_ppm: remote.residual_loss_ppm,
            latency_sojourn_p95_micros: queues.latency_sojourn_p95_micros,
            latency_sojourn_p50_micros: queues.latency_sojourn_p50_micros,
            latency_sojourn_p99_micros: queues.latency_sojourn_p99_micros,
            latency_queue_recently_nonempty: queues.latency_queue_bytes != 0
                || queues.latency_served,
            delivery_rate_bytes_per_second: rate_per_second(sent_bytes, elapsed),
            controller_pacing_rate_bytes_per_second: match path.pacing_rate_bytes_per_second {
                Some(rate) => rate,
                None => 0,
            },
            controller_send_quantum_bytes: match path.send_quantum_bytes {
                Some(quantum) => quantum,
                None => 0,
            },
            controller_state: match path.snapshot {
                Some(snapshot) => snapshot.state,
                None => 0,
            },
            controller_bw_bytes_per_second: match path.snapshot {
                Some(snapshot) => snapshot.bw,
                None => 0,
            },
            controller_inflight_longterm_bytes: match path.snapshot {
                Some(snapshot) => snapshot.inflight_longterm,
                None => 0,
            },
            controller_guard_transitions_delta: guard_transitions_delta,
            controller_app_limited: match path.snapshot {
                Some(snapshot) => snapshot.app_limited_in_round,
                None => false,
            },
            controller_tunables_generation: match tunables {
                Some(tunables) => tunables.generation,
                None => 0,
            },
            controller_params_generation: match path.snapshot {
                Some(snapshot) => snapshot.params_generation,
                None => 0,
            },
            controller_clamped_writes: match tunables {
                Some(_) => clamped_writes,
                None => 0,
            },
            receive_rate_bytes_per_second: rate_per_second(received_bytes, elapsed),
            packets_per_second: if sent_packets >= received_packets {
                sent_packets
            } else {
                received_packets
            },
            tun_ingress_bytes_per_second: rate_per_second(delta.tun_ingress_bytes, elapsed),
            average_record_bytes: average(delta.tun_ingress_bytes, delta.tun_ingress_records),
            gso_ingress_ratio_ppm: ratio_per_million(
                delta.gso_input_bytes,
                delta.tun_ingress_bytes,
            ),
            packet_train_queue_bytes: queues.train_queue_bytes,
            latency_queue_bytes: queues.latency_queue_bytes,
            reassembly_pressure_evictions: delta.reassembly_pressure_evictions,
            remote_expired_stripes_delta: remote.expired_stripes_delta,
            train_build_bytes_per_second: rate_per_second(delta.train_build_bytes, elapsed),
            bulk_preemption_delay_average_micros: average(
                delta.bulk_preemption_delay_micros,
                delta.bulk_preemptions,
            ),
            cpu_utilization_per_mille: queues.cpu_utilization_per_mille.min(1_000) as u16,
            wasted_parity_per_mille: remote.wasted_parity_per_mille,
            fec_recovery_per_mille: remote.fec_recovery_per_mille,
            repair_hit_per_mille: remote.repair_hit_per_mille,
            repair_completed_requests: remote.repair_completed_requests,
            repair_response_latency: remote.repair_response_latency,
            real_traffic_bytes_per_second: rate_per_second(delta.real_bytes, elapsed),
        };
        self.previous = current;
        self.previous_sample_at = now;
        self.sample_counters = counters;
        PathTickV2 {
            telemetry,
            route_capacity_bps: route_capacity_bps(
                path.snapshot,
                path.pacing_rate_bytes_per_second,
            ),
            repair_minimum_age_micros: u64_from_u128(
                repair_minimum_age_for_rtt(path.rtt).as_micros(),
            ),
            migrated,
            recovered_failures,
        }
    }
}

/// A connection that stays on one network locator keeps its path number, and
/// one that moves gets another that is not zero.
pub proof fn lemma_epoch_follows_the_locator(window: WindowModel, identity: Seq<char>)
    ensures
        window.epoch_for(window.identity) == window.epoch,
        window.migrates(identity) ==> window.epoch_for(identity) != window.epoch,
        window.migrates(identity) ==> window.epoch_for(identity) != 0,
        !window.migrates(identity) ==> window.epoch_for(identity) == window.epoch,
{
}

/// A peer that rebinds its socket does not migrate: where the sampled path and
/// the next one lead to one IP address, whatever the ports, the connection keeps
/// its path number.
pub proof fn lemma_rebinding_a_port_is_no_migration(
    window: WindowModel,
    now: Instant,
    current: ConnectionCountersV2,
    path: PathSampleV2,
    counters: SampleCountersV2,
    next: PathSampleV2,
)
    requires
        path.remote is Ip,
        next.remote is Ip,
        path.remote->Ip_0.ip == next.remote->Ip_0.ip,
    ensures
        ({
            let sampled = window.sampled(now, current, path, counters);
            &&& !sampled.migrates(locator_text(next.remote))
            &&& sampled.epoch_for(locator_text(next.remote)) == sampled.epoch
        }),
{
}

/// A connection that leaves an IP address for a relay, or a relay for an IP
/// address, migrates.
pub proof fn lemma_changing_to_a_relay_is_a_migration(
    window: WindowModel,
    now: Instant,
    current: ConnectionCountersV2,
    path: PathSampleV2,
    counters: SampleCountersV2,
    next: PathSampleV2,
)
    requires
        (path.remote is Ip && is_derp(next.remote)) || (is_derp(path.remote) && next.remote is Ip),
    ensures
        window.sampled(now, current, path, counters).migrates(locator_text(next.remote)),
{
    if path.remote is Ip {
        let endpoint = path.remote->Ip_0;
        lemma_locator_ignores_the_port(endpoint, endpoint, next.remote);
        reveal_strlit("ip:");
        assert(locator_text(path.remote).len() > 0);
    } else {
        let endpoint = next.remote->Ip_0;
        lemma_locator_ignores_the_port(endpoint, endpoint, path.remote);
        reveal_strlit("derp:");
        assert(locator_text(path.remote).len() > 0);
    }
}

/// The first path of a connection is no migration.
pub proof fn lemma_first_path_is_no_migration(window: WindowModel, identity: Seq<char>)
    requires
        window.identity.len() == 0,
    ensures
        !window.migrates(identity),
        window.epoch_for(identity) == window.epoch,
{
}

/// Moving to another locator reports no guard transitions of the old path.
pub proof fn lemma_migration_starts_the_guard_over(
    window: WindowModel,
    identity: Seq<char>,
    snapshot: Option<ControllerSnapshotV2>,
)
    requires
        identity != window.identity,
    ensures
        above(guard_transitions_of(snapshot), window.guard_base(identity, snapshot)) == 0,
{
}

} // verus!

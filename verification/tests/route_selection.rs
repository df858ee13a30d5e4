use ironet::net::IpAddr;
use ironet::route_selection::quality::{RouteDeliveryFeedbackV2, RouteQualityTableV2};
use ironet::route_selection::{
    bytes_for_duration, transfer_time, FlowRouteLeaseV2, RouteLeaseErrorV2, RouteQualityV2,
};
use ironet::routing::{AdjacencyIdV2, ResolvedRouteV2, RouteLabelV2, RoutingIdErrorV2};
use ironet::time::{Duration, Instant, MonotonicClock};

const DIRECT_CAPACITY_BPS: u64 = 1_000_000;
const TRANSIT_CAPACITY_BPS: u64 = 100_000_000;

fn direct_latency() -> Duration {
    Duration::from_millis(1)
}

fn transit_latency() -> Duration {
    Duration::from_millis(50)
}

fn destination() -> IpAddr {
    IpAddr::V4(u32::from_be_bytes([11, 6, 1, 48]))
}

fn route(adjacency: u32, label: u32) -> ResolvedRouteV2 {
    ResolvedRouteV2 {
        adjacency: AdjacencyIdV2::new(adjacency).unwrap(),
        route_label: RouteLabelV2::new(label).unwrap(),
        route_epoch: 7,
        maximum_datagram_size: 1_382,
    }
}

#[derive(Debug, Clone, Copy)]
struct TestTopology {
    direct: ResolvedRouteV2,
    transit: ResolvedRouteV2,
}

impl TestTopology {
    fn new() -> Self {
        Self {
            direct: route(13, 1),
            transit: route(12, 2),
        }
    }

    fn routes(self, include_transit: bool) -> Vec<(ResolvedRouteV2, Duration)> {
        let mut routes = vec![(self.direct, direct_latency())];
        if include_transit {
            routes.push((self.transit, transit_latency()));
        }
        routes
    }

    fn lease(self) -> FlowRouteLeaseV2 {
        FlowRouteLeaseV2::resolve(1, destination(), &self.routes(true)).unwrap()
    }
}

#[derive(Debug)]
struct PathState {
    route: ResolvedRouteV2,
    latency: Duration,
    capacity_bps: u64,
    queued_bytes: u64,
    last_completion: Duration,
}

impl PathState {
    fn new(route: ResolvedRouteV2, latency: Duration, capacity_bps: u64) -> Self {
        Self {
            route,
            latency,
            capacity_bps,
            queued_bytes: 0,
            last_completion: Duration::zero(),
        }
    }

    fn advance(&mut self, elapsed: Duration) {
        self.queued_bytes = self
            .queued_bytes
            .saturating_sub(bytes_for_duration(self.capacity_bps / 8, elapsed));
    }

    fn enqueue(&mut self, now: Duration, bytes: usize) {
        self.queued_bytes = self.queued_bytes.saturating_add(bytes as u64);
        self.last_completion = now
            .saturating_add(self.latency)
            .saturating_add(transfer_time(self.queued_bytes, self.capacity_bps));
    }
}

#[derive(Debug)]
struct EvaluationReport {
    completion: Duration,
    direct_only_completion: Duration,
    switches: u64,
    direct_bytes: u64,
    transit_bytes: u64,
}

fn simulate_bulk(total_bytes: u64) -> EvaluationReport {
    const PACKET_BYTES: usize = 16 * 1024;
    let step = Duration::from_millis(10);

    let topology = TestTopology::new();
    let mut lease = topology.lease();
    let mut direct = PathState::new(topology.direct, direct_latency(), DIRECT_CAPACITY_BPS);
    let mut transit = PathState::new(topology.transit, transit_latency(), TRANSIT_CAPACITY_BPS);
    let mut now = Duration::zero();
    let mut submitted = 0_u64;
    let mut switches = 0_u64;
    let mut previous = lease.route();
    let mut direct_bytes = 0_u64;
    let mut transit_bytes = 0_u64;

    while submitted < total_bytes {
        if !now.is_zero() {
            direct.advance(step);
            transit.advance(step);
        }
        let packet_bytes = (total_bytes - submitted).min(PACKET_BYTES as u64) as usize;
        let direct_queue = direct.queued_bytes;
        let transit_queue = transit.queued_bytes;
        let selected = lease.select(now, packet_bytes, |route| {
            if route == topology.direct {
                RouteQualityV2 {
                    capacity_bits_per_second: DIRECT_CAPACITY_BPS,
                    queued_bytes: direct_queue,
                }
            } else {
                RouteQualityV2 {
                    capacity_bits_per_second: TRANSIT_CAPACITY_BPS,
                    queued_bytes: transit_queue,
                }
            }
        });
        if selected != previous {
            switches += 1;
            previous = selected;
        }
        if selected == direct.route {
            direct.enqueue(now, packet_bytes);
            direct_bytes += packet_bytes as u64;
        } else {
            transit.enqueue(now, packet_bytes);
            transit_bytes += packet_bytes as u64;
        }
        submitted += packet_bytes as u64;
        now = now.saturating_add(step);
    }

    EvaluationReport {
        completion: direct.last_completion.max(transit.last_completion),
        direct_only_completion: direct_latency()
            .saturating_add(transfer_time(total_bytes, DIRECT_CAPACITY_BPS)),
        switches,
        direct_bytes,
        transit_bytes,
    }
}

#[test]
fn sustained_flow_moves_from_low_latency_direct_to_high_capacity_transit() {
    let topology = TestTopology::new();
    let direct = topology.direct;
    let transit = topology.transit;
    let mut lease = topology.lease();
    assert_eq!(lease.candidate_count(), 2);

    let quality = |route: ResolvedRouteV2| RouteQualityV2 {
        capacity_bits_per_second: if route == direct {
            1_000_000
        } else {
            100_000_000
        },
        queued_bytes: 0,
    };
    assert_eq!(lease.select(Duration::zero(), 100, quality), direct);
    for tick in 1..=20 {
        lease.select(Duration::from_millis(tick * 100), 128 * 1024, quality);
    }
    assert_eq!(lease.route(), transit);
}

#[test]
fn destination_feedback_caps_first_hop_capacity_and_rejects_replay() {
    let mut table = RouteQualityTableV2::default();
    let route = route(12, 2);
    let started = Instant { nanos: 5_000_000_000 };
    let after = |seconds: u64| started.after(Duration::from_secs(seconds));
    table.observe_at(
        RouteDeliveryFeedbackV2 {
            sequence: 4,
            route_epoch: route.route_epoch,
            route_label: route.route_label,
            delivered_payload_bytes: 6_250_000,
            interval_micros: 1_000_000,
        },
        started,
    );
    assert_eq!(
        table.effective_capacity_bps_at(route, 100_000_000, started),
        50_000_000
    );

    table.observe_at(
        RouteDeliveryFeedbackV2 {
            sequence: 3,
            route_epoch: route.route_epoch,
            route_label: route.route_label,
            delivered_payload_bytes: 1,
            interval_micros: 1_000_000,
        },
        after(1),
    );
    assert_eq!(
        table.effective_capacity_bps_at(route, 100_000_000, started),
        50_000_000
    );

    table.observe_at(
        RouteDeliveryFeedbackV2 {
            sequence: 5,
            route_epoch: route.route_epoch,
            route_label: route.route_label,
            delivered_payload_bytes: 1_250_000,
            interval_micros: 1_000_000,
        },
        after(1),
    );
    assert_eq!(
        table.effective_capacity_bps_at(route, 100_000_000, after(31)),
        10_000_000
    );
}

#[test]
fn capacity_is_read_at_the_current_time_of_a_clock() {
    let clock = MonotonicClock::start();
    let mut table = RouteQualityTableV2::default();
    let route = route(12, 2);
    table.observe(
        RouteDeliveryFeedbackV2 {
            sequence: 1,
            route_epoch: route.route_epoch,
            route_label: route.route_label,
            delivered_payload_bytes: 6_250_000,
            interval_micros: 1_000_000,
        },
        &clock,
    );
    assert_eq!(table.effective_capacity_bps(route, 100_000_000, &clock), 50_000_000);
    let mut elsewhere = route;
    elsewhere.route_epoch = 8;
    assert_eq!(table.effective_capacity_bps(elsewhere, 100_000_000, &clock), 100_000_000);
    assert!(clock.now() <= clock.now());
}

#[test]
fn short_flows_keep_the_low_latency_direct_route() {
    let topology = TestTopology::new();
    for bytes in [256, 512, 1_024, 2_048, 4_096] {
        let mut lease = topology.lease();
        let selected = lease.select(Duration::zero(), bytes, |route| RouteQualityV2 {
            capacity_bits_per_second: if route == topology.direct {
                DIRECT_CAPACITY_BPS
            } else {
                TRANSIT_CAPACITY_BPS
            },
            queued_bytes: 0,
        });
        assert_eq!(
            selected, topology.direct,
            "{bytes}-byte short flow moved to transit"
        );
    }
}

#[test]
fn bulk_completion_beats_direct_only_without_oscillation() {
    let report = simulate_bulk(16 * 1024 * 1024);
    let improvement =
        1.0 - report.completion.nanos as f64 / report.direct_only_completion.nanos as f64;
    let improvement_percent = improvement * 100.0;
    println!("A/B/C bulk evaluation: {report:?}, improvement={improvement_percent:.1}%");

    assert!(
        improvement >= 0.20,
        "Bulk completion improvement was only {improvement_percent:.1}%"
    );
    assert_eq!(report.switches, 1, "Bulk route oscillated");
    assert!(report.direct_bytes > 0, "Bulk skipped direct-route startup");
    assert!(
        report.transit_bytes > report.direct_bytes,
        "Bulk did not move most bytes to transit"
    );
}

#[test]
fn sub_lease_congestion_burst_does_not_trigger_migration() {
    let topology = TestTopology::new();
    let mut lease = topology.lease();
    let quality = |route| RouteQualityV2 {
        capacity_bits_per_second: if route == topology.direct {
            DIRECT_CAPACITY_BPS
        } else {
            TRANSIT_CAPACITY_BPS
        },
        queued_bytes: if route == topology.direct {
            4 * 1024 * 1024
        } else {
            0
        },
    };

    assert_eq!(
        lease.select(Duration::zero(), 64, |_| RouteQualityV2 {
            capacity_bits_per_second: DIRECT_CAPACITY_BPS,
            queued_bytes: 0,
        }),
        topology.direct
    );
    for millis in [10, 20, 40, 80] {
        assert_eq!(
            lease.select(Duration::from_millis(millis), 128 * 1024, quality),
            topology.direct
        );
    }
    assert_eq!(
        lease.select(Duration::from_millis(1_100), 64, |route| RouteQualityV2 {
            capacity_bits_per_second: if route == topology.direct {
                DIRECT_CAPACITY_BPS
            } else {
                TRANSIT_CAPACITY_BPS
            },
            queued_bytes: 0,
        }),
        topology.direct
    );
}

#[test]
fn alternating_capacity_noise_does_not_cause_route_flapping() {
    let topology = TestTopology::new();
    let mut lease = topology.lease();
    let mut previous = lease.route();
    let mut switches = 0_u64;

    for tick in 0..=6_000_u64 {
        let now = Duration::from_millis(tick * 100);
        let direct_is_faster = (tick / 10) % 2 == 0;
        let selected = lease.select(now, 1024 * 1024, |route| RouteQualityV2 {
            capacity_bits_per_second: match (route == topology.direct, direct_is_faster) {
                (true, true) | (false, false) => 52_000_000,
                _ => 48_000_000,
            },
            queued_bytes: 0,
        });
        if selected != previous {
            switches += 1;
            previous = selected;
        }
    }

    assert!(
        switches <= 2,
        "measurement noise caused {switches} switches in ten minutes"
    );
}

#[test]
fn failed_transit_candidate_is_removed_immediately_on_snapshot_refresh() {
    let topology = TestTopology::new();
    let mut lease = topology.lease();
    for tick in 0..=30 {
        lease.select(Duration::from_millis(tick * 100), 128 * 1024, |route| {
            RouteQualityV2 {
                capacity_bits_per_second: if route == topology.direct {
                    DIRECT_CAPACITY_BPS
                } else {
                    TRANSIT_CAPACITY_BPS
                },
                queued_bytes: 0,
            }
        });
    }
    assert_eq!(lease.route(), topology.transit);

    assert!(lease.refresh(2, &topology.routes(false)).unwrap());
    assert_eq!(lease.route(), topology.direct);
    assert_eq!(lease.candidate_count(), 1);
    assert_eq!(lease.snapshot_generation(), 2);
    assert!(!lease.refresh(2, &topology.routes(true)).unwrap());
    assert_eq!(lease.candidate_count(), 1);
}

#[test]
fn lease_without_a_route_is_refused() {
    assert_eq!(
        FlowRouteLeaseV2::resolve(1, destination(), &Vec::new()).unwrap_err(),
        RouteLeaseErrorV2::NoCandidates
    );
    assert_eq!(AdjacencyIdV2::new(0), Err(RoutingIdErrorV2::ZeroAdjacency));
    assert_eq!(RouteLabelV2::new(0), Err(RoutingIdErrorV2::ZeroLabel));
}

#[test]
fn many_candidates_spill_and_keep_their_order() {
    let routes: Vec<(ResolvedRouteV2, Duration)> = (1..=9)
        .map(|label| (route(20, label), Duration::from_millis(u64::from(label))))
        .collect();
    let mut lease = FlowRouteLeaseV2::resolve(1, destination(), &routes).unwrap();
    assert_eq!(lease.candidate_count(), 9);
    assert_eq!(lease.route(), routes[0].0);
    let qualities = vec![RouteQualityV2 { capacity_bits_per_second: 1_000_000, queued_bytes: 0 }; 9];
    assert_eq!(lease.select_among(Duration::zero(), 100, &qualities), routes[0].0);
}

#[test]
fn transfer_figures_are_exact() {
    assert_eq!(bytes_for_duration(1_000, Duration::from_millis(2_500)), 2_500);
    assert_eq!(transfer_time(125, 1_000), Duration::from_secs(1));
    assert_eq!(transfer_time(1, 3_000), Duration::from_nanos(2_666_667));
    assert_eq!(transfer_time(0, 0), Duration::zero());
}

//! What a flow's route lease weighs, and when it moves the flow.

use vstd::prelude::*;

use super::quality::{
    not_reached, pruned, QualityTable, RouteCapacitySampleV2, RouteDeliveryFeedbackV2,
};
use super::{moved_bytes, transfer_nanos, FlowRouteLeaseV2, RouteQualityV2};
use crate::num::{ceil_div, sat_u64};
use crate::routing::ResolvedRouteV2;
use crate::time::{Duration, Instant, MAX_NANOS};

verus! {

/// Nanoseconds, rounded up, in which a capacity in bits per second carries the
/// bytes; an unknown capacity counts as ten megabits.
pub open spec fn drain_nanos(bytes: int, capacity: u64) -> int {
    let bits_per_second: int = if capacity == 0 {
        10_000_000
    } else {
        capacity as int
    };
    (bytes * 8_000_000_000 + bits_per_second - 1) / bits_per_second
}

/// The drain time is exact to one nanosecond.
pub proof fn lemma_drain_time_is_exact(bytes: int, capacity: u64)
    requires
        0 <= bytes,
    ensures
        ({
            let bits_per_second: int = if capacity == 0 {
                10_000_000
            } else {
                capacity as int
            };
            let drain = drain_nanos(bytes, capacity);
            &&& drain >= 0
            &&& drain * bits_per_second >= bytes * 8_000_000_000
            &&& (drain - 1) * bits_per_second < bytes * 8_000_000_000
        }),
{
    let rate: int = if capacity == 0 {
        10_000_000
    } else {
        capacity as int
    };
    let top = bytes * 8_000_000_000 + rate - 1;
    let drain = top / rate;
    vstd::arithmetic::div_mod::lemma_fundamental_div_mod(top, rate);
    assert(0 <= top % rate < rate) by (nonlinear_arith)
        requires
            rate > 0,
    ;
    assert(rate * drain == drain * rate) by (nonlinear_arith);
    assert((drain - 1) * rate == drain * rate - rate) by (nonlinear_arith);
    assert(drain >= 0) by (nonlinear_arith)
        requires
            top >= 0,
            rate > 0,
            drain == top / rate,
    ;
}

/// The drain time of up to two gigabytes fits in the score unchanged.
proof fn lemma_transfer_is_drain(bytes: int, capacity: u64)
    requires
        0 <= bytes <= 2_000_000_000,
    ensures
        ({
            let rate: int = if capacity == 0 {
                10_000_000
            } else {
                capacity as int
            };
            transfer_nanos(bytes, rate) == drain_nanos(bytes, capacity)
        }),
        0 <= drain_nanos(bytes, capacity) <= 16_000_000_000_000_000_000,
{
    let rate: int = if capacity == 0 {
        10_000_000
    } else {
        capacity as int
    };
    lemma_drain_time_is_exact(bytes, capacity);
    let drain = drain_nanos(bytes, capacity);
    let bits = bytes * 8_000_000_000;
    if bytes == 0 {
        assert((rate - 1) / rate == 0) by (nonlinear_arith)
            requires
                rate > 0,
        ;
    } else {
        assert(drain <= bits) by (nonlinear_arith)
            requires
                (drain - 1) * rate < bits,
                rate >= 1,
                drain >= 0,
                bits >= 1,
        ;
    }
}

/// The score of a route is its startup latency, the time in which its capacity
/// carries the flow's pressure and the bytes queued on it together, and 25 ms
/// for a route other than the current one.
pub proof fn lemma_score_adds_latency_backlog_and_penalty(
    lease: FlowRouteLeaseV2,
    index: int,
    quality: RouteQualityV2,
)
    requires
        lease.wf(),
        0 <= index < lease.routes().len(),
        lease.pressure_bytes + quality.queued_bytes <= 2_000_000_000,
        lease.routes()[index].1.nanos <= 1_000_000_000_000_000_000,
    ensures
        ({
            let (route, latency) = lease.routes()[index];
            let current = lease.routes()[lease.selected as int].0;
            let backlog = lease.pressure_bytes + quality.queued_bytes;
            let drain = drain_nanos(backlog, quality.capacity_bits_per_second);
            &&& route == current ==> lease.score(index, quality) == latency.nanos + drain
            &&& route != current ==> lease.score(index, quality) == latency.nanos + drain
                + 25_000_000
        }),
{
    lemma_transfer_is_drain(
        lease.pressure_bytes + quality.queued_bytes,
        quality.capacity_bits_per_second,
    );
}

/// No score is below the startup latency of its route, and more bytes queued at
/// the same capacity never make a route look better.
pub proof fn lemma_score_never_falls_with_the_queue(
    lease: FlowRouteLeaseV2,
    index: int,
    lighter: RouteQualityV2,
    heavier: RouteQualityV2,
)
    requires
        lease.wf(),
        0 <= index < lease.routes().len(),
        lease.routes()[index].1.nanos <= MAX_NANOS,
        lighter.capacity_bits_per_second == heavier.capacity_bits_per_second,
        lighter.queued_bytes <= heavier.queued_bytes,
    ensures
        lease.routes()[index].1.nanos <= lease.score(index, lighter),
        lease.score(index, lighter) <= lease.score(index, heavier),
{
    let rate: int = if lighter.capacity_bits_per_second == 0 {
        10_000_000
    } else {
        lighter.capacity_bits_per_second as int
    };
    let less = sat_u64(lease.pressure_bytes + lighter.queued_bytes);
    let more = sat_u64(lease.pressure_bytes + heavier.queued_bytes);
    assert(0 <= ceil_div(less * 8_000_000_000, rate) <= ceil_div(more * 8_000_000_000, rate))
        by {
        let a = less * 8_000_000_000 + rate - 1;
        let b = more * 8_000_000_000 + rate - 1;
        assert(0 <= a / rate <= b / rate) by (nonlinear_arith)
            requires
                0 <= a <= b,
                rate > 0,
        ;
    }
}

/// The score strictly grows with the queue: a backlog longer by at least the
/// bytes that the capacity carries in a nanosecond scores worse.
pub proof fn lemma_score_grows_with_the_queue(
    lease: FlowRouteLeaseV2,
    index: int,
    lighter: RouteQualityV2,
    heavier: RouteQualityV2,
)
    requires
        lease.wf(),
        0 <= index < lease.routes().len(),
        lease.routes()[index].1.nanos <= 1_000_000_000_000_000_000,
        lease.pressure_bytes + heavier.queued_bytes <= 2_000_000_000,
        lighter.capacity_bits_per_second == heavier.capacity_bits_per_second,
        lighter.queued_bytes < heavier.queued_bytes,
        heavier.capacity_bits_per_second <= (heavier.queued_bytes - lighter.queued_bytes)
            * 8_000_000_000,
    ensures
        lease.score(index, lighter) < lease.score(index, heavier),
{
    lemma_score_adds_latency_backlog_and_penalty(lease, index, lighter);
    lemma_score_adds_latency_backlog_and_penalty(lease, index, heavier);
    let less = lease.pressure_bytes + lighter.queued_bytes;
    let more = lease.pressure_bytes + heavier.queued_bytes;
    let capacity = lighter.capacity_bits_per_second;
    lemma_drain_time_is_exact(less, capacity);
    lemma_drain_time_is_exact(more, capacity);
    let rate: int = if capacity == 0 {
        10_000_000
    } else {
        capacity as int
    };
    let short = drain_nanos(less, capacity);
    let long = drain_nanos(more, capacity);
    assert(more * 8_000_000_000 - less * 8_000_000_000 >= rate);
    assert(short < long) by (nonlinear_arith)
        requires
            (short - 1) * rate < less * 8_000_000_000,
            long * rate >= more * 8_000_000_000,
            more * 8_000_000_000 - less * 8_000_000_000 >= rate,
            rate > 0,
    ;
}

/// Every lease follows the same policy: evaluated once a second, forgotten after
/// two idle seconds, 25 ms and a twentieth against moving, two confirmations,
/// 256 KiB drained per second, 256 bytes of a packet free, at most 64 MiB of
/// pressure, and ten megabits for an unknown capacity.
pub proof fn lemma_policy_is_the_standard_one(lease: FlowRouteLeaseV2)
    requires
        lease.wf(),
    ensures
        lease.policy.lease.nanos == 1_000_000_000,
        lease.policy.idle_reset.nanos == 2_000_000_000,
        lease.policy.switch_penalty.nanos == 25_000_000,
        lease.policy.switch_gain_divisor == 20,
        lease.policy.switch_confirmations == 2,
        lease.policy.pressure_drain_bytes_per_second == 262_144,
        lease.policy.packet_allowance_bytes == 256,
        lease.policy.maximum_pressure_bytes == 67_108_864,
        lease.policy.unknown_capacity_bps == 10_000_000,
{
}

/// A packet adds its bytes beyond the first 256 to what is left of the pressure:
/// 256 KiB drain in every second since the last packet, and all of it after two
/// idle seconds, which also ends the lease. At most 64 MiB remain.
pub proof fn lemma_packets_press_and_time_drains(
    lease: FlowRouteLeaseV2,
    now: Duration,
    packet_len: int,
)
    requires
        lease.wf(),
        0 <= packet_len <= 1_000_000,
        lease.pressure_bytes <= 67_108_864,
    ensures
        ({
            let idle = match lease.updated_at {
                Some(updated) => if now.nanos > updated.nanos {
                    now.nanos - updated.nanos
                } else {
                    0
                },
                None => 0,
            };
            let after = lease.pressed(now, packet_len);
            let drained = 262_144 * idle / 1_000_000_000;
            let left = if idle >= 2_000_000_000 || drained >= lease.pressure_bytes {
                0
            } else {
                lease.pressure_bytes - drained
            };
            let added = if packet_len > 256 {
                packet_len - 256
            } else {
                0
            };
            &&& left + added <= 67_108_864 ==> after.pressure_bytes == left + added
            &&& left + added > 67_108_864 ==> after.pressure_bytes == 67_108_864
            &&& idle >= 2_000_000_000 ==> after.lease_until.nanos == 0
            &&& idle < 2_000_000_000 ==> after.lease_until == lease.lease_until
            &&& after.updated_at == Some(now)
            &&& after.selected == lease.selected
            &&& after.routes() == lease.routes()
        }),
{
    let idle = lease.idle_nanos(now);
    if idle < 2_000_000_000 {
        assert(moved_bytes(262_144, idle) == 262_144 * idle / 1_000_000_000);
    }
}

/// The flow is worth moving: even with 25 ms and a twentieth of the current
/// route's backlog against it, the other route is faster than the bytes queued
/// on the current one alone would drain.
pub open spec fn backlog_outweighs(
    lease: FlowRouteLeaseV2,
    qualities: Seq<RouteQualityV2>,
    other: int,
    pressure: u64,
) -> bool {
    let here = qualities[lease.selected as int];
    let there = qualities[other];
    20 * (lease.routes()[other].1.nanos + drain_nanos(
        pressure + there.queued_bytes,
        there.capacity_bits_per_second,
    ) + 25_000_000) < 19 * drain_nanos(
        here.queued_bytes as int,
        here.capacity_bits_per_second,
    )
}

/// One evaluation of such a flow between two routes marks the other route, and
/// moves the flow to it where it was marked before.
proof fn lemma_backlog_is_noticed(
    lease: FlowRouteLeaseV2,
    other: usize,
    now: Duration,
    packet_len: int,
    qualities: Seq<RouteQualityV2>,
    next: FlowRouteLeaseV2,
)
    requires
        lease.wf(),
        lease.routes().len() == 2,
        other < 2,
        other != lease.selected,
        lease.routes()[0].0 != lease.routes()[1].0,
        lease.routes()[0].1.nanos <= 1_000_000_000_000_000_000,
        lease.routes()[1].1.nanos <= 1_000_000_000_000_000_000,
        qualities.len() == 2,
        qualities[0].queued_bytes <= 1_000_000_000,
        qualities[1].queued_bytes <= 1_000_000_000,
        0 <= packet_len,
        lease.lease_until.nanos <= now.nanos,
        lease.offered(now, packet_len, qualities, next),
        backlog_outweighs(lease, qualities, other as int, next.pressure_bytes),
    ensures
        next.routes() == lease.routes(),
        next.policy == lease.policy,
        lease.pending_selection is None && lease.pending_confirmations == 0 ==> {
            &&& next.selected == lease.selected
            &&& next.pending_selection == Some(other)
            &&& next.pending_confirmations == 1
            &&& next.lease_until.nanos <= now.nanos + 1_000_000_000
        },
        lease.pending_selection == Some(other) && lease.pending_confirmations == 1 ==> {
            &&& next.selected == other
            &&& next.pending_selection is None
        },
{
    let pressed = lease.pressed(now, packet_len);
    let best = choose|best: usize| #[trigger]
        pressed.is_best(qualities, best) && next == pressed.evaluated(now, qualities, best);
    let here = lease.selected as int;
    assert(next.pressure_bytes == pressed.pressure_bytes);
    assert(pressed.pressure_bytes <= 67_108_864);
    lemma_score_adds_latency_backlog_and_penalty(pressed, here, qualities[here]);
    lemma_score_adds_latency_backlog_and_penalty(pressed, other as int, qualities[other as int]);
    let quality = qualities[here];
    let capacity = quality.capacity_bits_per_second;
    let queued = quality.queued_bytes as int;
    let backlog = pressed.pressure_bytes + quality.queued_bytes;
    assert(drain_nanos(queued, capacity) <= drain_nanos(backlog, capacity)) by {
        let rate: int = if capacity == 0 {
            10_000_000
        } else {
            capacity as int
        };
        let a = queued * 8_000_000_000 + rate - 1;
        let b = backlog * 8_000_000_000 + rate - 1;
        assert(a / rate <= b / rate) by (nonlinear_arith)
            requires
                a <= b,
                rate > 0,
        ;
    }
    let current = pressed.score(here, quality);
    let candidate = pressed.score(other as int, qualities[other as int]);
    assert(20 * candidate < 19 * current);
    assert(best == other);
}

/// A flow whose current route has a backlog that takes longer to drain than the
/// other route's latency, traffic, penalty and required gain is moved to the
/// other route by two evaluations that lie at least a second apart.
pub proof fn lemma_backlog_moves_the_flow(
    lease: FlowRouteLeaseV2,
    other: usize,
    first_at: Duration,
    first_len: int,
    first: Seq<RouteQualityV2>,
    marked: FlowRouteLeaseV2,
    second_at: Duration,
    second_len: int,
    second: Seq<RouteQualityV2>,
    moved: FlowRouteLeaseV2,
)
    requires
        lease.wf(),
        lease.routes().len() == 2,
        other < 2,
        other != lease.selected,
        lease.routes()[0].0 != lease.routes()[1].0,
        lease.routes()[0].1.nanos <= 1_000_000_000_000_000_000,
        lease.routes()[1].1.nanos <= 1_000_000_000_000_000_000,
        lease.pending_selection is None,
        lease.pending_confirmations == 0,
        first.len() == 2,
        first[0].queued_bytes <= 1_000_000_000,
        first[1].queued_bytes <= 1_000_000_000,
        second.len() == 2,
        second[0].queued_bytes <= 1_000_000_000,
        second[1].queued_bytes <= 1_000_000_000,
        0 <= first_len,
        0 <= second_len,
        lease.lease_until.nanos <= first_at.nanos,
        first_at.nanos + 1_000_000_000 <= second_at.nanos,
        lease.offered(first_at, first_len, first, marked),
        marked.offered(second_at, second_len, second, moved),
        backlog_outweighs(lease, first, other as int, marked.pressure_bytes),
        backlog_outweighs(lease, second, other as int, moved.pressure_bytes),
    ensures
        marked.selected == lease.selected,
        moved.selected == other,
        moved.spec_route() == lease.routes()[other as int].0,
{
    lemma_backlog_is_noticed(lease, other, first_at, first_len, first, marked);
    assert(marked.routes() == lease.routes());
    assert(marked.wf());
    lemma_backlog_is_noticed(marked, other, second_at, second_len, second, moved);
}

/// The best route has no score above any other and stands before all routes of
/// the same score.
pub proof fn lemma_best_route_is_least_and_first(
    lease: FlowRouteLeaseV2,
    qualities: Seq<RouteQualityV2>,
    best: usize,
    index: int,
)
    requires
        lease.is_best(qualities, best),
        0 <= index < lease.routes().len(),
    ensures
        best < lease.routes().len(),
        lease.score(best as int, qualities[best as int]) <= lease.score(index, qualities[index]),
        index < best ==> lease.score(best as int, qualities[best as int]) < lease.score(
            index,
            qualities[index],
        ),
{
    let rival = lease.score(index, qualities[index]);
}

/// A flow moves only where the new route is better than the current one by more
/// than a twentieth of the current score.
pub proof fn lemma_small_gains_do_not_move_the_flow(
    lease: FlowRouteLeaseV2,
    now: Duration,
    packet_len: int,
    qualities: Seq<RouteQualityV2>,
    next: FlowRouteLeaseV2,
)
    requires
        lease.wf(),
        lease.offered(now, packet_len, qualities, next),
        next.selected != lease.selected,
    ensures
        ({
            let pressed = lease.pressed(now, packet_len);
            let current = pressed.score(lease.selected as int, qualities[lease.selected as int]);
            let chosen = pressed.score(next.selected as int, qualities[next.selected as int]);
            &&& current - chosen > current / 20
            &&& lease.pending_selection == Some(next.selected)
            &&& now.nanos >= pressed.lease_until.nanos
        }),
{
    let pressed = lease.pressed(now, packet_len);
    let best = choose|best: usize| #[trigger]
        pressed.is_best(qualities, best) && next == pressed.evaluated(now, qualities, best);
}

/// A delivery report counts as its bits per second: eight million times the
/// bytes over the microseconds, or zero for an empty interval.
pub proof fn lemma_delivery_rate_is_bits_per_second(feedback: RouteDeliveryFeedbackV2)
    requires
        feedback.delivered_payload_bytes <= 1_000_000_000_000,
    ensures
        feedback.interval_micros == 0 ==> feedback.delivery_rate_bps() == 0,
        feedback.interval_micros != 0 ==> feedback.delivery_rate_bps()
            == feedback.delivered_payload_bytes * 8_000_000 / (feedback.interval_micros as int),
{
    if feedback.interval_micros != 0 {
        let bits = feedback.delivered_payload_bytes * 8_000_000;
        let span = feedback.interval_micros as int;
        assert(0 <= bits / span <= bits) by (nonlinear_arith)
            requires
                bits >= 0,
                span >= 1,
        ;
    }
}

/// The first report of a route caps it: the route is worth the smaller of its
/// first hop and the reported rate for the next thirty seconds, and the first
/// hop again after that. Reports of another epoch drop those of the old one.
pub proof fn lemma_first_report_caps_the_route(
    table: QualityTable,
    feedback: RouteDeliveryFeedbackV2,
    now: Instant,
    route: ResolvedRouteV2,
    first_hop_bps: u64,
    later: Instant,
)
    requires
        feedback.sequence > 0,
        table.active_epoch != feedback.route_epoch || !table.windows.dom().contains(
            feedback.route_label.0,
        ),
        route.route_epoch == feedback.route_epoch,
        route.route_label == feedback.route_label,
        first_hop_bps > 0,
        feedback.interval_micros > 0,
        feedback.delivered_payload_bytes <= 1_000_000_000_000,
        feedback.delivered_payload_bytes * 8_000_000 >= feedback.interval_micros,
    ensures
        ({
            let after = table.observed(feedback, now);
            let rate = feedback.delivered_payload_bytes * 8_000_000 / (
            feedback.interval_micros as int);
            let worth = after.effective(route, first_hop_bps, later);
            &&& after.active_epoch == feedback.route_epoch
            &&& later.nanos <= now.nanos + 30_000_000_000 && rate < first_hop_bps ==> worth == rate
            &&& later.nanos <= now.nanos + 30_000_000_000 && rate >= first_hop_bps ==> worth
                == first_hop_bps
            &&& later.nanos > now.nanos + 30_000_000_000 ==> worth == first_hop_bps
        }),
{
    lemma_delivery_rate_is_bits_per_second(feedback);
    let after = table.observed(feedback, now);
    let rate = feedback.delivery_rate_bps();
    let bits = feedback.delivered_payload_bytes * 8_000_000;
    let span = feedback.interval_micros as int;
    assert(bits / span >= 1) by (nonlinear_arith)
        requires
            bits >= span,
            span >= 1,
    ;
    let window = after.windows[feedback.route_label.0];
    let sample = RouteCapacitySampleV2 { capacity_bps: rate, observed_at: now };
    assert(pruned(Seq::empty(), now) =~= Seq::<RouteCapacitySampleV2>::empty());
    assert(not_reached(Seq::empty(), rate) =~= Seq::<RouteCapacitySampleV2>::empty());
    assert(window.maxima =~= seq![sample]);
    assert(window.maxima.drop_first() =~= Seq::<RouteCapacitySampleV2>::empty());
    assert(pruned(window.maxima.drop_first(), later) =~= Seq::<RouteCapacitySampleV2>::empty());
}

/// A report says nothing about routes of other epochs, and nothing about other
/// labels of its own epoch while the table has room.
pub proof fn lemma_reports_stay_with_their_route(
    table: QualityTable,
    feedback: RouteDeliveryFeedbackV2,
    now: Instant,
    route: ResolvedRouteV2,
    first_hop_bps: u64,
    later: Instant,
)
    requires
        first_hop_bps > 0,
    ensures
        route.route_epoch != feedback.route_epoch ==> table.observed(feedback, now).effective(
            route,
            first_hop_bps,
            later,
        ) == first_hop_bps,
        route.route_epoch == feedback.route_epoch && table.active_epoch == feedback.route_epoch
            && route.route_label != feedback.route_label && table.windows.len() < 65_536
            ==> table.observed(feedback, now).effective(route, first_hop_bps, later)
            == table.effective(route, first_hop_bps, later),
{
}

} // verus!

//! Per-flow route leases and measured route quality.

pub mod laws;
pub mod quality;

use vstd::prelude::*;

use crate::net::IpAddr;
use crate::num::{ceil_div, max_int, min_int, sat_u64, u64_from_u128, u64_from_usize};
use crate::num::{div_ceil_u128, saturating_mul_u128};
use crate::routing::ResolvedRouteV2;
use crate::time::{Duration, MAX_NANOS};

verus! {

/// How a flow weighs its routes.
#[derive(Clone, Copy, Debug, PartialEq, Eq, Structural)]
pub struct RouteSelectionPolicyV2 {
    pub lease: Duration,
    pub idle_reset: Duration,
    pub switch_penalty: Duration,
    pub switch_gain_divisor: u32,
    pub switch_confirmations: u8,
    pub pressure_drain_bytes_per_second: u64,
    pub packet_allowance_bytes: usize,
    pub maximum_pressure_bytes: u64,
    pub unknown_capacity_bps: u64,
}

impl RouteSelectionPolicyV2 {
    /// The built-in weights.
    pub open spec fn standard() -> RouteSelectionPolicyV2 {
        RouteSelectionPolicyV2 {
            lease: Duration { nanos: 1_000_000_000 },
            idle_reset: Duration { nanos: 2_000_000_000 },
            switch_penalty: Duration { nanos: 25_000_000 },
            switch_gain_divisor: 20,
            switch_confirmations: 2,
            pressure_drain_bytes_per_second: 262_144,
            packet_allowance_bytes: 256,
            maximum_pressure_bytes: 67_108_864,
            unknown_capacity_bps: 10_000_000,
        }
    }
}

impl Default for RouteSelectionPolicyV2 {
    fn default() -> (r: RouteSelectionPolicyV2)
        ensures
            r == RouteSelectionPolicyV2::standard(),
    {
        RouteSelectionPolicyV2 {
            lease: Duration::from_secs(1),
            idle_reset: Duration::from_secs(2),
            switch_penalty: Duration::from_millis(25),
            switch_gain_divisor: 20,
            switch_confirmations: 2,
            pressure_drain_bytes_per_second: 262_144,
            packet_allowance_bytes: 256,
            maximum_pressure_bytes: 67_108_864,
            unknown_capacity_bps: 10_000_000,
        }
    }
}

/// What is known of a route right now.
#[derive(Clone, Copy, Debug, PartialEq, Eq, Structural)]
pub struct RouteQualityV2 {
    pub capacity_bits_per_second: u64,
    pub queued_bytes: u64,
}

impl Default for RouteQualityV2 {
    fn default() -> (r: RouteQualityV2)
        ensures
            r == (RouteQualityV2 { capacity_bits_per_second: 0, queued_bytes: 0 }),
    {
        RouteQualityV2 { capacity_bits_per_second: 0, queued_bytes: 0 }
    }
}

/// Routes to one destination, the preferred one first, in a `SmallVec` that
/// keeps up to four in place.
#[verifier::external_body]
#[derive(Debug)]
pub struct RouteCandidatesV2 {
    inner: smallvec::SmallVec<[(ResolvedRouteV2, Duration); 4]>,
}

/// The routes that a candidate list holds, in order, each with its startup
/// latency.
pub uninterp spec fn candidate_routes(candidates: RouteCandidatesV2) -> Seq<
    (ResolvedRouteV2, Duration),
>;

impl RouteCandidatesV2 {
    /// An empty list, from `SmallVec::new`.
    #[verifier::external_body]
    fn new() -> (r: RouteCandidatesV2)
        ensures
            candidate_routes(r) == Seq::<(ResolvedRouteV2, Duration)>::empty(),
    {
        RouteCandidatesV2 { inner: smallvec::SmallVec::new() }
    }

    /// `SmallVec::push` puts an item behind the others.
    #[verifier::external_body]
    fn push(&mut self, route: ResolvedRouteV2, startup_latency: Duration)
        ensures
            candidate_routes(*final(self)) == candidate_routes(*old(self)).push(
                (route, startup_latency),
            ),
    {
        self.inner.push((route, startup_latency))
    }

    /// `SmallVec::len` counts the items.
    #[verifier::external_body]
    fn len(&self) -> (r: usize)
        ensures
            r == candidate_routes(*self).len(),
    {
        self.inner.len()
    }

    /// The item at an index, through `SmallVec`'s slice, which panics past the
    /// end.
    #[verifier::external_body]
    fn get(&self, index: usize) -> (r: (ResolvedRouteV2, Duration))
        requires
            index < candidate_routes(*self).len(),
        ensures
            r == candidate_routes(*self)[index as int],
    {
        self.inner[index]
    }
}

/// Collect routes in order.
fn collect_candidates(routes: &Vec<(ResolvedRouteV2, Duration)>) -> (r: RouteCandidatesV2)
    ensures
        candidate_routes(r) == routes@,
{
    let mut candidates = RouteCandidatesV2::new();
    let mut index: usize = 0;
    while index < routes.len()
        invariant
            index <= routes@.len(),
            candidate_routes(candidates) == routes@.take(index as int),
        decreases routes.len() - index,
    {
        candidates.push(routes[index].0, routes[index].1);
        index = index + 1;
        assert(routes@.take(index as int) =~= routes@.take(index - 1).push(
            routes@[index - 1],
        ));
    }
    assert(routes@.take(index as int) =~= routes@);
    candidates
}

/// Why a flow has no route.
#[derive(Clone, Copy, Debug, PartialEq, Eq, Structural)]
pub enum RouteLeaseErrorV2 {
    /// The snapshot knows no route to the destination.
    NoCandidates,
}

/// The route that a flow keeps for a while, and the evidence for another.
#[derive(Debug)]
pub struct FlowRouteLeaseV2 {
    pub policy: RouteSelectionPolicyV2,
    pub snapshot_generation: u64,
    pub destination: IpAddr,
    pub candidates: RouteCandidatesV2,
    pub selected: usize,
    pub pending_selection: Option<usize>,
    pub pending_confirmations: u8,
    pub lease_until: Duration,
    pub pressure_bytes: u64,
    pub updated_at: Option<Duration>,
}

/// Bytes that a rate moves in a time.
pub open spec fn moved_bytes(bytes_per_second: int, nanos: int) -> int {
    sat_u64(min_int(bytes_per_second * nanos, u128::MAX as int) / 1_000_000_000)
}

/// Bytes that a rate moves in a time.
pub fn bytes_for_duration(bytes_per_second: u64, duration: Duration) -> (r: u64)
    ensures
        r == moved_bytes(bytes_per_second as int, duration.nanos as int),
{
    u64_from_u128(saturating_mul_u128(bytes_per_second as u128, duration.nanos) / 1_000_000_000)
}

/// Nanoseconds that bytes take at a capacity, rounded up; an unknown capacity
/// counts as one bit per second.
pub open spec fn transfer_nanos(bytes: int, capacity_bits_per_second: int) -> int {
    if bytes == 0 {
        0
    } else {
        sat_u64(ceil_div(bytes * 8_000_000_000, max_int(capacity_bits_per_second, 1)))
    }
}

/// Time that bytes take at a capacity, rounded up; an unknown capacity counts
/// as one bit per second.
pub fn transfer_time(bytes: u64, capacity_bits_per_second: u64) -> (r: Duration)
    ensures
        r.nanos == transfer_nanos(bytes as int, capacity_bits_per_second as int),
{
    if bytes == 0 {
        return Duration::zero();
    }
    let bits: u128 = bytes as u128 * 8 * 1_000_000_000;
    let nanos: u128 = div_ceil_u128(bits, capacity_bits_per_second.max(1) as u128);
    Duration::from_nanos(u64_from_u128(nanos))
}

impl FlowRouteLeaseV2 {
    /// The routes that the flow may take.
    pub open spec fn routes(&self) -> Seq<(ResolvedRouteV2, Duration)> {
        candidate_routes(self.candidates)
    }

    /// The lease names one of its routes.
    pub open spec fn wf(&self) -> bool {
        &&& self.selected < self.routes().len()
        &&& self.policy == RouteSelectionPolicyV2::standard()
    }

    /// The route that the flow takes.
    pub open spec fn spec_route(&self) -> ResolvedRouteV2 {
        self.routes()[self.selected as int].0
    }

    /// Time since the flow last sent.
    pub open spec fn idle_nanos(&self, now: Duration) -> int {
        match self.updated_at {
            Some(updated) => max_int(now.nanos - updated.nanos, 0),
            None => 0,
        }
    }

    /// The flow after it offered one packet: its pressure drains with time,
    /// grows with what exceeds the allowance, and is forgotten after a pause.
    pub open spec fn pressed(self, now: Duration, packet_len: int) -> FlowRouteLeaseV2 {
        let idle = self.idle_nanos(now);
        let reset = idle >= self.policy.idle_reset.nanos;
        let drained = if reset {
            0
        } else {
            max_int(
                self.pressure_bytes - moved_bytes(
                    self.policy.pressure_drain_bytes_per_second as int,
                    idle,
                ),
                0,
            )
        };
        FlowRouteLeaseV2 {
            pressure_bytes: min_int(
                sat_u64(
                    drained + max_int(packet_len - self.policy.packet_allowance_bytes, 0),
                ),
                self.policy.maximum_pressure_bytes as int,
            ) as u64,
            lease_until: if reset {
                Duration { nanos: 0 }
            } else {
                self.lease_until
            },
            updated_at: Some(now),
            ..self
        }
    }

    /// Nanoseconds until the offered pressure is delivered over a route.
    pub open spec fn score(&self, index: int, quality: RouteQualityV2) -> int {
        let (route, startup_latency) = self.routes()[index];
        let capacity = if quality.capacity_bits_per_second == 0 {
            self.policy.unknown_capacity_bps
        } else {
            quality.capacity_bits_per_second
        };
        let penalty = if route == self.spec_route() {
            0
        } else {
            self.policy.switch_penalty.nanos as int
        };
        min_int(
            min_int(
                startup_latency.nanos + transfer_nanos(
                    sat_u64(self.pressure_bytes + quality.queued_bytes),
                    capacity as int,
                ),
                MAX_NANOS as int,
            ) + penalty,
            MAX_NANOS as int,
        )
    }

    /// The first of the routes with the least score.
    pub open spec fn is_best(&self, qualities: Seq<RouteQualityV2>, best: usize) -> bool {
        &&& best < self.routes().len()
        &&& forall|i: int|
            0 <= i < self.routes().len() ==> self.score(best as int, qualities[best as int]) <= (
            #[trigger] self.score(i, qualities[i]))
        &&& forall|i: int|
            0 <= i < best ==> self.score(best as int, qualities[best as int]) < (#[trigger] self.score(
                i,
                qualities[i],
            ))
    }

    /// Whether another route is better by more than the required part.
    pub open spec fn gains(&self, qualities: Seq<RouteQualityV2>, best: usize) -> bool {
        let current = self.score(self.selected as int, qualities[self.selected as int]);
        &&& best != self.selected
        &&& current - self.score(best as int, qualities[best as int]) > current
            / self.policy.switch_gain_divisor as int
    }

    /// The lease after an evaluation found that best route: a gain has to be
    /// confirmed before the flow moves, and the next evaluation waits for the
    /// lease.
    pub open spec fn evaluated(
        self,
        now: Duration,
        qualities: Seq<RouteQualityV2>,
        best: usize,
    ) -> FlowRouteLeaseV2 {
        let confirmations = if self.pending_selection == Some(best) {
            min_int(self.pending_confirmations + 1, u8::MAX as int)
        } else {
            1
        };
        let renewed = FlowRouteLeaseV2 {
            lease_until: Duration {
                nanos: min_int(now.nanos + self.policy.lease.nanos, MAX_NANOS as int) as u128,
            },
            ..self
        };
        if !self.gains(qualities, best) {
            FlowRouteLeaseV2 { pending_selection: None, pending_confirmations: 0, ..renewed }
        } else if confirmations >= self.policy.switch_confirmations {
            FlowRouteLeaseV2 {
                selected: best,
                pending_selection: None,
                pending_confirmations: 0,
                ..renewed
            }
        } else {
            FlowRouteLeaseV2 {
                pending_selection: Some(best),
                pending_confirmations: confirmations as u8,
                ..renewed
            }
        }
    }

    /// What one packet makes of the lease, given the routes' qualities.
    pub open spec fn offered(
        self,
        now: Duration,
        packet_len: int,
        qualities: Seq<RouteQualityV2>,
        next: FlowRouteLeaseV2,
    ) -> bool {
        let pressed = self.pressed(now, packet_len);
        if now.nanos < pressed.lease_until.nanos {
            next == pressed
        } else {
            exists|best: usize| #[trigger]
                pressed.is_best(qualities, best) && next == pressed.evaluated(now, qualities, best)
        }
    }

    /// A lease on the first of the routes that a snapshot knows.
    pub fn resolve(
        snapshot_generation: u64,
        destination: IpAddr,
        routes: &Vec<(ResolvedRouteV2, Duration)>,
    ) -> (r: Result<FlowRouteLeaseV2, RouteLeaseErrorV2>)
        ensures
            r is Err == (routes@.len() == 0),
            r matches Err(error) ==> error == RouteLeaseErrorV2::NoCandidates,
            r matches Ok(lease) ==> {
                &&& lease.wf()
                &&& lease.routes() == routes@
                &&& lease.snapshot_generation == snapshot_generation
                &&& lease.destination == destination
                &&& lease.selected == 0
                &&& lease.pending_selection is None
                &&& lease.pending_confirmations == 0
                &&& lease.lease_until.nanos == 0
                &&& lease.pressure_bytes == 0
                &&& lease.updated_at is None
            },
    {
        if routes.len() == 0 {
            return Err(RouteLeaseErrorV2::NoCandidates);
        }
        Ok(
            FlowRouteLeaseV2 {
                policy: RouteSelectionPolicyV2::default(),
                snapshot_generation,
                destination,
                candidates: collect_candidates(routes),
                selected: 0,
                pending_selection: None,
                pending_confirmations: 0,
                lease_until: Duration::zero(),
                pressure_bytes: 0,
                updated_at: None,
            },
        )
    }

    /// The route that the flow takes.
    #[verifier::when_used_as_spec(spec_route)]
    pub fn route(&self) -> (r: ResolvedRouteV2)
        requires
            self.wf(),
        ensures
            r == self.spec_route(),
    {
        self.candidates.get(self.selected).0
    }

    /// How many routes the flow may take.
    pub fn candidate_count(&self) -> (r: usize)
        ensures
            r == self.routes().len(),
    {
        self.candidates.len()
    }

    /// The snapshot that the routes came from.
    pub fn snapshot_generation(&self) -> (r: u64)
        ensures
            r == self.snapshot_generation,
    {
        self.snapshot_generation
    }

    /// Offer one packet and return the route that it takes.
    pub fn select(
        &mut self,
        now: Duration,
        packet_len: usize,
        quality: impl Fn(ResolvedRouteV2) -> RouteQualityV2,
    ) -> (r: ResolvedRouteV2)
        requires
            old(self).wf(),
            forall|route: ResolvedRouteV2| call_requires(quality, (route,)),
        ensures
            final(self).wf(),
            final(self).routes() == old(self).routes(),
            r == final(self).route(),
            now.nanos < old(self).pressed(now, packet_len as int).lease_until.nanos
                ==> *final(self) == old(self).pressed(now, packet_len as int),
            now.nanos >= old(self).pressed(now, packet_len as int).lease_until.nanos ==> exists|
                qualities: Seq<RouteQualityV2>,
            |
                {
                    &&& qualities.len() == old(self).routes().len()
                    &&& forall|i: int|
                        0 <= i < qualities.len() ==> call_ensures(
                            quality,
                            (old(self).routes()[i].0,),
                            #[trigger] qualities[i],
                        )
                    &&& #[trigger] old(self).offered(
                        now,
                        packet_len as int,
                        qualities,
                        *final(self),
                    )
                },
    {
        self.press(now, packet_len);
        if now.nanos < self.lease_until.nanos {
            return self.route();
        }
        let count: usize = self.candidates.len();
        let mut qualities: Vec<RouteQualityV2> = Vec::new();
        let mut index: usize = 0;
        while index < count
            invariant
                index <= count,
                count == self.routes().len(),
                self.routes() == old(self).routes(),
                *self == old(self).pressed(now, packet_len as int),
                qualities@.len() == index,
                forall|route: ResolvedRouteV2| call_requires(quality, (route,)),
                forall|i: int|
                    0 <= i < index ==> call_ensures(
                        quality,
                        (old(self).routes()[i].0,),
                        #[trigger] qualities@[i],
                    ),
            decreases count - index,
        {
            qualities.push(quality(self.candidates.get(index).0));
            index = index + 1;
        }
        self.evaluate(now, &qualities);
        assert(old(self).offered(now, packet_len as int, qualities@, *self));
        self.route()
    }

    /// Offer one packet, given what is known of each route.
    pub fn select_among(
        &mut self,
        now: Duration,
        packet_len: usize,
        qualities: &Vec<RouteQualityV2>,
    ) -> (r: ResolvedRouteV2)
        requires
            old(self).wf(),
            qualities@.len() == old(self).routes().len(),
        ensures
            final(self).wf(),
            old(self).offered(now, packet_len as int, qualities@, *final(self)),
            r == final(self).route(),
    {
        self.press(now, packet_len);
        if now.nanos >= self.lease_until.nanos {
            self.evaluate(now, qualities);
        }
        self.route()
    }

    /// Account for one packet.
    fn press(&mut self, now: Duration, packet_len: usize)
        requires
            old(self).wf(),
        ensures
            *final(self) == old(self).pressed(now, packet_len as int),
            final(self).wf(),
    {
        let elapsed: Duration = match self.updated_at {
            Some(updated) => now.saturating_sub(updated),
            None => Duration::zero(),
        };
        if elapsed.nanos >= self.policy.idle_reset.nanos {
            self.pressure_bytes = 0;
            self.lease_until = Duration::zero();
        } else {
            self.pressure_bytes = self.pressure_bytes.saturating_sub(
                bytes_for_duration(self.policy.pressure_drain_bytes_per_second, elapsed),
            );
        }
        self.pressure_bytes = self.pressure_bytes.saturating_add(
            u64_from_usize(packet_len.saturating_sub(self.policy.packet_allowance_bytes)),
        ).min(self.policy.maximum_pressure_bytes);
        self.updated_at = Some(now);
    }

    /// Time until the offered pressure is delivered over a route.
    fn score_of(&self, index: usize, quality: RouteQualityV2) -> (r: Duration)
        requires
            self.wf(),
            index < self.routes().len(),
        ensures
            r.nanos == self.score(index as int, quality),
    {
        let (route, startup_latency): (ResolvedRouteV2, Duration) = self.candidates.get(index);
        let capacity: u64 = if quality.capacity_bits_per_second == 0 {
            self.policy.unknown_capacity_bps
        } else {
            quality.capacity_bits_per_second
        };
        let switch_penalty: Duration = if route == self.route() {
            Duration::zero()
        } else {
            self.policy.switch_penalty
        };
        startup_latency.saturating_add(
            transfer_time(self.pressure_bytes.saturating_add(quality.queued_bytes), capacity),
        ).saturating_add(switch_penalty)
    }

    /// The first of the routes with the least score.
    fn best_route(&self, qualities: &Vec<RouteQualityV2>) -> (r: usize)
        requires
            self.wf(),
            qualities@.len() == self.routes().len(),
        ensures
            self.is_best(qualities@, r),
    {
        let count: usize = self.candidates.len();
        let mut best: usize = 0;
        let mut best_score: Duration = self.score_of(0, qualities[0]);
        let mut index: usize = 1;
        while index < count
            invariant
                self.wf(),
                count == self.routes().len(),
                qualities@.len() == count,
                1 <= index <= count,
                best < index,
                best_score.nanos == self.score(best as int, qualities@[best as int]),
                forall|i: int|
                    0 <= i < index ==> best_score.nanos <= (#[trigger] self.score(
                        i,
                        qualities@[i],
                    )),
                forall|i: int|
                    0 <= i < best ==> best_score.nanos < (#[trigger] self.score(i, qualities@[i])),
            decreases count - index,
        {
            let score: Duration = self.score_of(index, qualities[index]);
            if score.nanos < best_score.nanos {
                best = index;
                best_score = score;
            }
            index = index + 1;
        }
        best
    }

    /// Weigh the routes and renew the lease.
    fn evaluate(&mut self, now: Duration, qualities: &Vec<RouteQualityV2>)
        requires
            old(self).wf(),
            qualities@.len() == old(self).routes().len(),
        ensures
            final(self).wf(),
            final(self).routes() == old(self).routes(),
            exists|best: usize| #[trigger]
                old(self).is_best(qualities@, best) && *final(self) == old(self).evaluated(
                    now,
                    qualities@,
                    best,
                ),
    {
        let best: usize = self.best_route(qualities);
        let current_score: Duration = self.score_of(self.selected, qualities[self.selected]);
        let best_score: Duration = self.score_of(best, qualities[best]);
        let minimum_gain: Duration = current_score.div(self.policy.switch_gain_divisor);
        let has_material_gain: bool = best != self.selected && current_score.saturating_sub(
            best_score,
        ).nanos > minimum_gain.nanos;
        if has_material_gain {
            if self.pending_selection == Some(best) {
                self.pending_confirmations = self.pending_confirmations.saturating_add(1);
            } else {
                self.pending_selection = Some(best);
                self.pending_confirmations = 1;
            }
            if self.pending_confirmations >= self.policy.switch_confirmations {
                self.selected = best;
                self.clear_pending_selection();
            }
        } else {
            self.clear_pending_selection();
        }
        self.lease_until = now.saturating_add(self.policy.lease);
        assert(old(self).is_best(qualities@, best));
    }

    /// Take over the routes of a newer snapshot, starting from its first one.
    /// The same generation changes nothing; where the newer one knows no
    /// route, none is left.
    pub fn refresh(
        &mut self,
        snapshot_generation: u64,
        routes: &Vec<(ResolvedRouteV2, Duration)>,
    ) -> (r: Result<bool, RouteLeaseErrorV2>)
        ensures
            snapshot_generation == old(self).snapshot_generation ==> {
                &&& r == Ok::<bool, RouteLeaseErrorV2>(false)
                &&& *final(self) == *old(self)
            },
            snapshot_generation != old(self).snapshot_generation ==> {
                &&& final(self).routes() == routes@
                &&& if routes@.len() == 0 {
                    &&& r == Err::<bool, RouteLeaseErrorV2>(RouteLeaseErrorV2::NoCandidates)
                    &&& *final(self) == (FlowRouteLeaseV2 {
                        candidates: final(self).candidates,
                        ..*old(self)
                    })
                } else {
                    &&& r == Ok::<bool, RouteLeaseErrorV2>(true)
                    &&& *final(self) == (FlowRouteLeaseV2 {
                        candidates: final(self).candidates,
                        selected: 0,
                        pending_selection: None,
                        pending_confirmations: 0,
                        lease_until: Duration { nanos: 0 },
                        snapshot_generation,
                        ..*old(self)
                    })
                }
            },
    {
        if snapshot_generation == self.snapshot_generation {
            return Ok(false);
        }
        self.candidates = collect_candidates(routes);
        if routes.len() == 0 {
            return Err(RouteLeaseErrorV2::NoCandidates);
        }
        self.selected = 0;
        self.clear_pending_selection();
        self.lease_until = Duration::zero();
        self.snapshot_generation = snapshot_generation;
        Ok(true)
    }

    /// Forget the evidence for another route.
    fn clear_pending_selection(&mut self)
        ensures
            *final(self) == (FlowRouteLeaseV2 {
                pending_selection: None,
                pending_confirmations: 0,
                ..*old(self)
            }),
    {
        self.pending_selection = None;
        self.pending_confirmations = 0;
    }
}

/// While the lease runs, no congestion burst moves the flow.
pub proof fn lemma_no_switch_inside_the_lease(
    lease: FlowRouteLeaseV2,
    now: Duration,
    packet_len: int,
    qualities: Seq<RouteQualityV2>,
    next: FlowRouteLeaseV2,
)
    requires
        lease.wf(),
        lease.offered(now, packet_len, qualities, next),
        now.nanos < lease.lease_until.nanos,
        lease.idle_nanos(now) < lease.policy.idle_reset.nanos,
    ensures
        next.selected == lease.selected,
        next.pending_selection == lease.pending_selection,
        next.lease_until == lease.lease_until,
{
}

/// A flow moves only to a route that two evaluations in a row found better by
/// more than a twentieth.
pub proof fn lemma_switch_needs_two_confirmed_gains(
    lease: FlowRouteLeaseV2,
    now: Duration,
    packet_len: int,
    qualities: Seq<RouteQualityV2>,
    next: FlowRouteLeaseV2,
)
    requires
        lease.wf(),
        lease.offered(now, packet_len, qualities, next),
        next.selected != lease.selected,
    ensures
        lease.pending_selection == Some(next.selected),
        lease.pending_confirmations >= 1,
        lease.pressed(now, packet_len).is_best(qualities, next.selected),
        lease.pressed(now, packet_len).gains(qualities, next.selected),
        next.pending_selection is None,
{
    let pressed = lease.pressed(now, packet_len);
    let best = choose|best: usize| #[trigger]
        pressed.is_best(qualities, best) && next == pressed.evaluated(now, qualities, best);
}

/// After an evaluation the next one waits for a whole lease.
pub proof fn lemma_evaluations_are_a_lease_apart(
    lease: FlowRouteLeaseV2,
    now: Duration,
    packet_len: int,
    qualities: Seq<RouteQualityV2>,
    next: FlowRouteLeaseV2,
)
    requires
        lease.wf(),
        lease.offered(now, packet_len, qualities, next),
        now.nanos >= lease.pressed(now, packet_len).lease_until.nanos,
    ensures
        next.lease_until.nanos == min_int(now.nanos + 1_000_000_000, MAX_NANOS as int),
{
}

/// The offered pressure never exceeds its bound.
pub proof fn lemma_pressure_is_bounded(lease: FlowRouteLeaseV2, now: Duration, packet_len: int)
    requires
        lease.wf(),
        packet_len >= 0,
    ensures
        lease.pressed(now, packet_len).pressure_bytes <= 67_108_864,
{
}

} // verus!

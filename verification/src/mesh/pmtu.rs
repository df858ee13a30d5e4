//! Datagram limits that the path reported for compiled routes.

use std::collections::HashMap;

use vstd::prelude::*;

use crate::num::min_int;
use crate::routing::{ResolvedRouteV2, RouteLabelV2};

verus! {

/// Constraints kept before all are dropped.
pub const MAX_PATH_MTU_CONSTRAINTS: usize = 4_096;

/// The number under which a route is kept.
pub open spec fn route_key(route_epoch: u32, route_label: u32) -> u64 {
    (route_epoch * 0x1_0000_0000 + route_label) as u64
}

/// The number under which a route is kept.
fn pack_route(route_epoch: u32, route_label: u32) -> (r: u64)
    ensures
        r == route_key(route_epoch, route_label),
{
    route_epoch as u64 * 0x1_0000_0000 + route_label as u64
}

/// Different routes have different numbers.
pub proof fn lemma_route_key_is_injective(e1: u32, l1: u32, e2: u32, l2: u32)
    ensures
        route_key(e1, l1) == route_key(e2, l2) <==> e1 == e2 && l1 == l2,
{
}

/// Datagram limits that the path reported, by compiled route.
#[derive(Debug)]
pub struct RoutePmtuConstraintsV2 {
    pub values: HashMap<u64, u16>,
    pub generation: u64,
}

impl Default for RoutePmtuConstraintsV2 {
    /// No constraints.
    fn default() -> (r: RoutePmtuConstraintsV2)
        ensures
            r.values@ == Map::<u64, u16>::empty(),
            r.generation == 0,
    {
        RoutePmtuConstraintsV2 { values: HashMap::new(), generation: 0 }
    }
}

/// The constraints with one more report. A report that is no tighter than what
/// is known changes nothing; a full table is dropped before it takes another.
pub open spec fn constrained(values: Map<u64, u16>, key: u64, maximum: u16) -> Map<u64, u16> {
    if values.contains_key(key) && values[key] <= maximum {
        values
    } else if values.dom().len() >= MAX_PATH_MTU_CONSTRAINTS {
        Map::<u64, u16>::empty().insert(key, maximum)
    } else {
        values.insert(key, maximum)
    }
}

/// A route under the constraints.
pub open spec fn limited(values: Map<u64, u16>, route: ResolvedRouteV2) -> ResolvedRouteV2 {
    let key = route_key(route.route_epoch, route.route_label.0);
    if values.contains_key(key) {
        ResolvedRouteV2 {
            maximum_datagram_size: min_int(
                route.maximum_datagram_size as int,
                values[key] as int,
            ) as u16,
            ..route
        }
    } else {
        route
    }
}

impl RoutePmtuConstraintsV2 {
    /// Take a report of the path: no datagram of the route may be larger.
    pub fn constrain(&mut self, route_epoch: u32, route_label: RouteLabelV2, maximum: u16)
        ensures
            final(self).values@ == constrained(
                old(self).values@,
                route_key(route_epoch, route_label.0),
                maximum,
            ),
            final(self).generation == if old(self).values@.contains_key(
                route_key(route_epoch, route_label.0),
            ) && old(self).values@[route_key(route_epoch, route_label.0)] <= maximum {
                old(self).generation as int
            } else if old(self).generation == u64::MAX {
                0
            } else {
                old(self).generation + 1
            },
    {
        broadcast use vstd::std_specs::hash::group_hash_axioms;

        let key: u64 = pack_route(route_epoch, route_label.0);
        if let Some(existing) = self.values.get(&key) {
            if *existing <= maximum {
                return;
            }
        }
        if self.values.len() >= MAX_PATH_MTU_CONSTRAINTS {
            self.values = HashMap::new();
        }
        self.values.insert(key, maximum);
        self.generation = self.generation.wrapping_add(1);
    }

    /// How often the constraints changed.
    pub fn generation(&self) -> (r: u64)
        ensures
            r == self.generation,
    {
        self.generation
    }

    /// A route under the constraints.
    pub fn apply(&self, route: ResolvedRouteV2) -> (r: ResolvedRouteV2)
        ensures
            r == limited(self.values@, route),
    {
        broadcast use vstd::std_specs::hash::group_hash_axioms;

        let mut limited_route: ResolvedRouteV2 = route;
        if let Some(maximum) = self.values.get(&pack_route(route.route_epoch, route.route_label.0)) {
            if *maximum < limited_route.maximum_datagram_size {
                limited_route.maximum_datagram_size = *maximum;
            }
        }
        limited_route
    }
}

/// Constraints only ever reduce a route's datagram size and touch nothing else
/// of it.
pub proof fn lemma_constraints_only_reduce(values: Map<u64, u16>, route: ResolvedRouteV2)
    ensures
        limited(values, route).maximum_datagram_size <= route.maximum_datagram_size,
        limited(values, route).adjacency == route.adjacency,
        limited(values, route).route_label == route.route_label,
        limited(values, route).route_epoch == route.route_epoch,
{
}

/// A reported route is limited from then on, and a looser report afterwards
/// does not widen it.
pub proof fn lemma_reported_route_is_limited(
    values: Map<u64, u16>,
    route: ResolvedRouteV2,
    maximum: u16,
    later: u16,
)
    ensures
        ({
            let key = route_key(route.route_epoch, route.route_label.0);
            let once = constrained(values, key, maximum);
            &&& limited(once, route).maximum_datagram_size <= maximum
            &&& limited(constrained(once, key, later), route).maximum_datagram_size <= limited(
                once,
                route,
            ).maximum_datagram_size
        }),
{
}

/// A report leaves every other route as it was, unless the table was full: then
/// other limits are forgotten, never made up.
pub proof fn lemma_other_routes_are_kept(
    values: Map<u64, u16>,
    route_epoch: u32,
    route_label: u32,
    maximum: u16,
    other: ResolvedRouteV2,
)
    requires
        other.route_epoch != route_epoch || other.route_label.0 != route_label,
    ensures
        ({
            let after = constrained(values, route_key(route_epoch, route_label), maximum);
            ||| limited(after, other) == limited(values, other)
            ||| (values.dom().len() >= MAX_PATH_MTU_CONSTRAINTS && limited(after, other) == other)
        }),
{
    lemma_route_key_is_injective(
        other.route_epoch,
        other.route_label.0,
        route_epoch,
        route_label,
    );
}

/// The table stays bounded.
pub proof fn lemma_constraints_stay_bounded(values: Map<u64, u16>, key: u64, maximum: u16)
    requires
        values.dom().finite(),
        values.dom().len() <= MAX_PATH_MTU_CONSTRAINTS,
    ensures
        constrained(values, key, maximum).dom().finite(),
        constrained(values, key, maximum).dom().len() <= MAX_PATH_MTU_CONSTRAINTS,
{
    if values.contains_key(key) {
        assert(values.insert(key, maximum).dom() =~= values.dom());
    } else {
        assert(values.insert(key, maximum).dom() =~= values.dom().insert(key));
    }
    let one = Map::<u64, u16>::empty().insert(key, maximum);
    assert(one.dom() =~= Set::<u64>::empty().insert(key));
}

} // verus!

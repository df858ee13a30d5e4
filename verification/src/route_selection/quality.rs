//! Measured end-to-end capacity of routes.

use std::collections::HashMap;
use std::collections::VecDeque;

use vstd::prelude::*;

use crate::num::{min_int, sat_u64, u64_from_u128};
use crate::routing::{ResolvedRouteV2, RouteLabelV2, MAX_ROUTE_LABELS};
use crate::time::{Duration, Instant, MonotonicClock};

verus! {

broadcast use vstd::std_specs::hash::group_hash_axioms;

/// Seconds for which a delivery sample speaks for its route.
pub const ROUTE_CAPACITY_WINDOW_SECS: u64 = 30;

/// Samples kept of one route.
pub const MAX_ROUTE_CAPACITY_SAMPLES: usize = 64;

/// What the destination of a route reports to have received.
#[derive(Clone, Copy, Debug, PartialEq, Eq, Structural)]
pub struct RouteDeliveryFeedbackV2 {
    pub sequence: u64,
    pub route_epoch: u32,
    pub route_label: RouteLabelV2,
    pub delivered_payload_bytes: u64,
    pub interval_micros: u64,
}

impl RouteDeliveryFeedbackV2 {
    /// Bits per second that were delivered; none over no time.
    pub open spec fn spec_delivery_rate_bps(&self) -> u64 {
        if self.interval_micros == 0 {
            0
        } else {
            sat_u64(self.delivered_payload_bytes * 8_000_000 / (self.interval_micros as int)) as u64
        }
    }

    /// Bits per second that were delivered; none over no time.
    #[verifier::when_used_as_spec(spec_delivery_rate_bps)]
    pub fn delivery_rate_bps(&self) -> (r: u64)
        ensures
            r == self.spec_delivery_rate_bps(),
    {
        if self.interval_micros == 0 {
            return 0;
        }
        let bits: u128 = self.delivered_payload_bytes as u128 * 8_000_000;
        u64_from_u128(bits / self.interval_micros as u128)
    }
}

/// One delivery sample.
#[derive(Clone, Copy, Debug, PartialEq, Eq, Structural)]
pub struct RouteCapacitySampleV2 {
    pub capacity_bps: u64,
    pub observed_at: Instant,
}

/// The recent samples of one route that no later one has exceeded.
#[derive(Debug)]
pub struct RouteCapacityWindowV2 {
    pub last_sequence: u64,
    pub maxima: VecDeque<RouteCapacitySampleV2>,
}

/// A window over a mathematical sequence.
#[verifier::ext_equal]
pub ghost struct CapacityWindow {
    pub last_sequence: u64,
    pub maxima: Seq<RouteCapacitySampleV2>,
}

/// The samples that still speak for the route.
pub open spec fn pruned(samples: Seq<RouteCapacitySampleV2>, now: Instant) -> Seq<
    RouteCapacitySampleV2,
>
    decreases samples.len(),
{
    if samples.len() > 0 && now.since(samples[0].observed_at) > 30_000_000_000 {
        pruned(samples.drop_first(), now)
    } else {
        samples
    }
}

/// The samples that a capacity does not reach.
pub open spec fn not_reached(samples: Seq<RouteCapacitySampleV2>, capacity_bps: u64) -> Seq<
    RouteCapacitySampleV2,
>
    decreases samples.len(),
{
    if samples.len() > 0 && samples.last().capacity_bps <= capacity_bps {
        not_reached(samples.drop_last(), capacity_bps)
    } else {
        samples
    }
}

/// The last samples that are kept.
pub open spec fn latest(samples: Seq<RouteCapacitySampleV2>) -> Seq<RouteCapacitySampleV2> {
    if samples.len() > MAX_ROUTE_CAPACITY_SAMPLES {
        samples.skip(samples.len() - MAX_ROUTE_CAPACITY_SAMPLES)
    } else {
        samples
    }
}

impl CapacityWindow {
    /// No sample has come.
    pub open spec fn empty() -> CapacityWindow {
        CapacityWindow { last_sequence: 0, maxima: Seq::empty() }
    }

    /// The window after a report; one that is no newer changes nothing.
    pub open spec fn reported(self, sequence: u64, capacity_bps: u64, now: Instant) -> CapacityWindow {
        if sequence <= self.last_sequence {
            self
        } else {
            CapacityWindow {
                last_sequence: sequence,
                maxima: latest(
                    not_reached(pruned(self.maxima, now), capacity_bps).push(
                        RouteCapacitySampleV2 { capacity_bps, observed_at: now },
                    ),
                ),
            }
        }
    }

    /// The largest recent capacity; zero where none is known.
    pub open spec fn capacity(self, now: Instant) -> u64 {
        let recent = pruned(self.maxima, now);
        if recent.len() == 0 {
            0
        } else {
            recent[0].capacity_bps
        }
    }

    /// Every sample exceeds the later ones.
    pub open spec fn is_decreasing(self) -> bool {
        forall|i: int, j: int|
            0 <= i < j < self.maxima.len() ==> self.maxima[i].capacity_bps
                > self.maxima[j].capacity_bps
    }
}

/// Drop the samples that no longer speak for the route.
pub fn prune_capacity_samples(samples: &mut VecDeque<RouteCapacitySampleV2>, now: Instant)
    ensures
        final(samples)@ == pruned(old(samples)@, now),
{
    let window: Duration = Duration::from_secs(ROUTE_CAPACITY_WINDOW_SECS);
    loop
        invariant_except_break
            window.nanos == 30_000_000_000,
            pruned(samples@, now) == pruned(old(samples)@, now),
        ensures
            samples@ == pruned(old(samples)@, now),
        decreases samples@.len(),
    {
        if samples.len() == 0 {
            break;
        }
        let age: Duration = now.saturating_duration_since(samples[0].observed_at);
        if age.nanos <= window.nanos {
            break;
        }
        let ghost before = samples@;
        samples.pop_front();
        assert(samples@ =~= before.drop_first());
    }
}

impl RouteCapacityWindowV2 {
    /// The window over a mathematical sequence.
    pub open spec fn model(&self) -> CapacityWindow {
        CapacityWindow { last_sequence: self.last_sequence, maxima: self.maxima@ }
    }

    /// No sample has come.
    fn new() -> (r: RouteCapacityWindowV2)
        ensures
            r.model() == CapacityWindow::empty(),
    {
        let r = RouteCapacityWindowV2 { last_sequence: 0, maxima: VecDeque::new() };
        assert(r.maxima@ =~= Seq::empty());
        r
    }

    /// Fold a report in.
    fn report(&mut self, sequence: u64, capacity_bps: u64, now: Instant)
        ensures
            final(self).model() == old(self).model().reported(sequence, capacity_bps, now),
    {
        if sequence <= self.last_sequence {
            return;
        }
        self.last_sequence = sequence;
        prune_capacity_samples(&mut self.maxima, now);
        let ghost recent = self.maxima@;
        loop
            invariant_except_break
                not_reached(self.maxima@, capacity_bps) == not_reached(recent, capacity_bps),
                self.last_sequence == sequence,
            ensures
                self.maxima@ == not_reached(recent, capacity_bps),
                self.last_sequence == sequence,
            decreases self.maxima@.len(),
        {
            let count: usize = self.maxima.len();
            if count == 0 {
                break;
            }
            if self.maxima[count - 1].capacity_bps > capacity_bps {
                break;
            }
            let ghost before = self.maxima@;
            self.maxima.pop_back();
            assert(self.maxima@ =~= before.drop_last());
        }
        self.maxima.push_back(RouteCapacitySampleV2 { capacity_bps, observed_at: now });
        let ghost all = self.maxima@;
        let ghost mut dropped: int = 0;
        proof {
            assert(all.skip(0) =~= all);
        }
        while self.maxima.len() > MAX_ROUTE_CAPACITY_SAMPLES
            invariant
                0 <= dropped <= all.len(),
                self.maxima@ == all.skip(dropped),
                self.last_sequence == sequence,
                dropped > 0 ==> all.len() - dropped >= MAX_ROUTE_CAPACITY_SAMPLES,
            decreases self.maxima@.len(),
        {
            self.maxima.pop_front();
            proof {
                dropped = dropped + 1;
                assert(self.maxima@ =~= all.skip(dropped));
            }
        }
        assert(self.maxima@ =~= latest(all));
    }
}

/// The measured capacities of the routes of one epoch.
#[derive(Debug)]
pub struct RouteQualityTableV2 {
    pub active_epoch: u32,
    pub samples: HashMap<u32, RouteCapacityWindowV2>,
}

/// A table over a mathematical map.
#[verifier::ext_equal]
pub ghost struct QualityTable {
    pub active_epoch: u32,
    pub windows: Map<u32, CapacityWindow>,
}

impl QualityTable {
    /// The table after a report: another epoch forgets all routes, and a full
    /// table makes room by forgetting them too.
    pub open spec fn observed(self, feedback: RouteDeliveryFeedbackV2, now: Instant) -> QualityTable {
        let label = feedback.route_label.0;
        let of_epoch = if self.active_epoch != feedback.route_epoch {
            Map::empty()
        } else {
            self.windows
        };
        let roomy = if of_epoch.len() >= MAX_ROUTE_LABELS && !of_epoch.dom().contains(label) {
            Map::empty()
        } else {
            of_epoch
        };
        let window = if roomy.dom().contains(label) {
            roomy[label]
        } else {
            CapacityWindow::empty()
        };
        QualityTable {
            active_epoch: feedback.route_epoch,
            windows: roomy.insert(
                label,
                window.reported(feedback.sequence, feedback.delivery_rate_bps(), now),
            ),
        }
    }

    /// The end-to-end capacity of a route; zero where none is known.
    pub open spec fn end_to_end(self, route: ResolvedRouteV2, now: Instant) -> u64 {
        if self.active_epoch == route.route_epoch && self.windows.dom().contains(
            route.route_label.0,
        ) {
            self.windows[route.route_label.0].capacity(now)
        } else {
            0
        }
    }

    /// The capacity of a route: what its first hop and its destination both
    /// allow, as far as either is known.
    pub open spec fn effective(self, route: ResolvedRouteV2, first_hop_bps: u64, now: Instant) -> u64 {
        let end_to_end = self.end_to_end(route, now);
        if first_hop_bps == 0 {
            end_to_end
        } else if end_to_end == 0 {
            first_hop_bps
        } else {
            min_int(first_hop_bps as int, end_to_end as int) as u64
        }
    }

    /// The table after a route was looked up.
    pub open spec fn looked_up(self, route: ResolvedRouteV2, now: Instant) -> QualityTable {
        let label = route.route_label.0;
        if self.active_epoch == route.route_epoch && self.windows.dom().contains(label) {
            QualityTable {
                windows: self.windows.insert(
                    label,
                    CapacityWindow {
                        maxima: pruned(self.windows[label].maxima, now),
                        ..self.windows[label]
                    },
                ),
                ..self
            }
        } else {
            self
        }
    }
}

impl Default for RouteQualityTableV2 {
    fn default() -> (r: RouteQualityTableV2)
        ensures
            r.model() == (QualityTable { active_epoch: 0, windows: Map::empty() }),
    {
        let r = RouteQualityTableV2 { active_epoch: 0, samples: HashMap::new() };
        assert(r.model().windows =~= Map::empty());
        r
    }
}

impl RouteQualityTableV2 {
    /// The table over a mathematical map.
    pub open spec fn model(&self) -> QualityTable {
        QualityTable {
            active_epoch: self.active_epoch,
            windows: self.samples@.map_values(|window: RouteCapacityWindowV2| window.model()),
        }
    }

    /// Fold a report in at the current time. Which time that is the clock
    /// decides.
    pub fn observe(&mut self, feedback: RouteDeliveryFeedbackV2, clock: &MonotonicClock)
        ensures
            exists|now: Instant|
                final(self).model() == #[trigger] old(self).model().observed(feedback, now),
    {
        let now: Instant = clock.now();
        self.observe_at(feedback, now);
    }

    /// The capacity of a route at the current time. Which time that is the
    /// clock decides.
    pub fn effective_capacity_bps(
        &mut self,
        route: ResolvedRouteV2,
        first_hop_bps: u64,
        clock: &MonotonicClock,
    ) -> (r: u64)
        ensures
            exists|now: Instant|
                r == old(self).model().effective(route, first_hop_bps, now) && final(self).model()
                    == #[trigger] old(self).model().looked_up(route, now),
    {
        let now: Instant = clock.now();
        let capacity: u64 = self.effective_capacity_bps_at(route, first_hop_bps, now);
        assert(self.model() == old(self).model().looked_up(route, now));
        capacity
    }

    /// Fold a destination's report in.
    pub fn observe_at(&mut self, feedback: RouteDeliveryFeedbackV2, now: Instant)
        ensures
            final(self).model() == old(self).model().observed(feedback, now),
    {
        let label: u32 = feedback.route_label.0;
        if self.active_epoch != feedback.route_epoch {
            self.active_epoch = feedback.route_epoch;
            self.samples.clear();
            assert(self.model().windows =~= Map::empty());
        }
        let ghost of_epoch = self.model().windows;
        proof {
            assert(of_epoch.dom() =~= self.samples@.dom());
        }
        if self.samples.len() >= MAX_ROUTE_LABELS && !self.samples.contains_key(&label) {
            self.samples.clear();
            assert(self.model().windows =~= Map::empty());
        }
        let ghost roomy = self.model().windows;
        let mut window: RouteCapacityWindowV2 = match self.samples.remove(&label) {
            Some(window) => window,
            None => RouteCapacityWindowV2::new(),
        };
        window.report(feedback.sequence, feedback.delivery_rate_bps(), now);
        self.samples.insert(label, window);
        assert(self.model().windows =~= old(self).model().observed(feedback, now).windows);
    }

    /// The capacity of a route whose first hop has that capacity.
    pub fn effective_capacity_bps_at(
        &mut self,
        route: ResolvedRouteV2,
        first_hop_bps: u64,
        now: Instant,
    ) -> (r: u64)
        ensures
            r == old(self).model().effective(route, first_hop_bps, now),
            final(self).model() == old(self).model().looked_up(route, now),
    {
        if self.active_epoch != route.route_epoch {
            return first_hop_bps;
        }
        let label: u32 = route.route_label.0;
        let end_to_end_bps: u64 = match self.samples.remove(&label) {
            Some(known) => {
                let mut window: RouteCapacityWindowV2 = known;
                prune_capacity_samples(&mut window.maxima, now);
                let capacity: u64 = if window.maxima.len() == 0 {
                    0
                } else {
                    window.maxima[0].capacity_bps
                };
                self.samples.insert(label, window);
                capacity
            },
            None => 0,
        };
        assert(self.model().windows =~= old(self).model().looked_up(route, now).windows);
        if first_hop_bps == 0 {
            end_to_end_bps
        } else if end_to_end_bps == 0 {
            first_hop_bps
        } else {
            first_hop_bps.min(end_to_end_bps)
        }
    }
}

/// Pruning keeps a suffix.
proof fn lemma_pruned_is_suffix(samples: Seq<RouteCapacitySampleV2>, now: Instant)
    ensures
        pruned(samples, now).len() <= samples.len(),
        pruned(samples, now) == samples.skip(samples.len() - pruned(samples, now).len()),
    decreases samples.len(),
{
    if samples.len() > 0 && now.since(samples[0].observed_at) > 30_000_000_000 {
        lemma_pruned_is_suffix(samples.drop_first(), now);
        assert(pruned(samples, now) =~= samples.skip(samples.len() - pruned(samples, now).len()));
    } else {
        assert(samples.skip(0) =~= samples);
    }
}

/// What a capacity does not reach is a prefix, and all it reaches is gone.
proof fn lemma_not_reached_is_prefix(samples: Seq<RouteCapacitySampleV2>, capacity_bps: u64)
    ensures
        not_reached(samples, capacity_bps).len() <= samples.len(),
        not_reached(samples, capacity_bps) == samples.take(
            not_reached(samples, capacity_bps).len() as int,
        ),
        not_reached(samples, capacity_bps).len() > 0 ==> not_reached(
            samples,
            capacity_bps,
        ).last().capacity_bps > capacity_bps,
    decreases samples.len(),
{
    if samples.len() > 0 && samples.last().capacity_bps <= capacity_bps {
        lemma_not_reached_is_prefix(samples.drop_last(), capacity_bps);
        assert(not_reached(samples, capacity_bps) =~= samples.take(
            not_reached(samples, capacity_bps).len() as int,
        ));
    } else {
        assert(samples.take(samples.len() as int) =~= samples);
    }
}

/// A report keeps the window decreasing, so its front is the largest recent
/// capacity.
pub proof fn lemma_window_front_is_the_recent_maximum(
    window: CapacityWindow,
    sequence: u64,
    capacity_bps: u64,
    now: Instant,
)
    requires
        window.is_decreasing(),
    ensures
        window.reported(sequence, capacity_bps, now).is_decreasing(),
        forall|i: int|
            0 <= i < pruned(window.maxima, now).len() ==> window.capacity(now) >= (
            #[trigger] pruned(window.maxima, now)[i]).capacity_bps,
        sequence > window.last_sequence && window.maxima.len() < MAX_ROUTE_CAPACITY_SAMPLES
            ==> window.reported(sequence, capacity_bps, now).capacity(now) == if window.capacity(
            now,
        ) > capacity_bps {
            window.capacity(now)
        } else {
            capacity_bps
        },
{
    let recent = pruned(window.maxima, now);
    lemma_pruned_is_suffix(window.maxima, now);
    let kept = not_reached(recent, capacity_bps);
    lemma_not_reached_is_prefix(recent, capacity_bps);
    let pushed = kept.push(RouteCapacitySampleV2 { capacity_bps, observed_at: now });
    assert forall|i: int, j: int| 0 <= i < j < recent.len() implies recent[i].capacity_bps
        > recent[j].capacity_bps by {
        let base = window.maxima.len() - recent.len();
        assert(recent[i] == window.maxima[base + i]);
        assert(recent[j] == window.maxima[base + j]);
    }
    assert forall|i: int, j: int| 0 <= i < j < pushed.len() implies pushed[i].capacity_bps
        > pushed[j].capacity_bps by {
        if j < kept.len() {
            assert(kept[i] == recent[i] && kept[j] == recent[j]);
        } else {
            let last = kept.len() - 1;
            assert(kept[i] == recent[i] && kept[last] == recent[last]);
        }
    }
    if sequence > window.last_sequence {
        let after = window.reported(sequence, capacity_bps, now);
        if pushed.len() > MAX_ROUTE_CAPACITY_SAMPLES {
            let base = pushed.len() - MAX_ROUTE_CAPACITY_SAMPLES;
            assert forall|i: int, j: int| 0 <= i < j < after.maxima.len() implies
                after.maxima[i].capacity_bps > after.maxima[j].capacity_bps by {
                assert(after.maxima[i] == pushed[base + i]);
                assert(after.maxima[j] == pushed[base + j]);
            }
        }
        if kept.len() > 0 {
            assert(kept[0] == recent[0]);
        } else if recent.len() > 0 {
            lemma_reached_everything(recent, capacity_bps);
        }
        if window.maxima.len() < MAX_ROUTE_CAPACITY_SAMPLES {
            assert(after.maxima == pushed);
            lemma_pruned_front_is_recent(window.maxima, now);
            assert(pruned(pushed, now) == pushed);
        }
    }
}

/// Where nothing is left, everything was reached.
proof fn lemma_reached_everything(samples: Seq<RouteCapacitySampleV2>, capacity_bps: u64)
    requires
        not_reached(samples, capacity_bps).len() == 0,
    ensures
        forall|i: int|
            0 <= i < samples.len() ==> (#[trigger] samples[i]).capacity_bps <= capacity_bps,
    decreases samples.len(),
{
    if samples.len() > 0 {
        lemma_reached_everything(samples.drop_last(), capacity_bps);
        assert forall|i: int| 0 <= i < samples.len() implies (#[trigger] samples[i]).capacity_bps
            <= capacity_bps by {
            if i < samples.len() - 1 {
                assert(samples.drop_last()[i] == samples[i]);
            }
        }
    }
}

/// The front of the pruned samples is recent.
proof fn lemma_pruned_front_is_recent(samples: Seq<RouteCapacitySampleV2>, now: Instant)
    ensures
        pruned(samples, now).len() > 0 ==> now.since(pruned(samples, now)[0].observed_at)
            <= 30_000_000_000,
    decreases samples.len(),
{
    if samples.len() > 0 && now.since(samples[0].observed_at) > 30_000_000_000 {
        lemma_pruned_front_is_recent(samples.drop_first(), now);
    }
}

/// A replayed or reordered report changes no capacity.
pub proof fn lemma_replayed_report_is_ignored(
    table: QualityTable,
    feedback: RouteDeliveryFeedbackV2,
    now: Instant,
    route: ResolvedRouteV2,
    first_hop_bps: u64,
    later: Instant,
)
    requires
        table.active_epoch == feedback.route_epoch,
        table.windows.dom().contains(feedback.route_label.0),
        feedback.sequence <= table.windows[feedback.route_label.0].last_sequence,
    ensures
        table.observed(feedback, now).effective(route, first_hop_bps, later) == table.effective(
            route,
            first_hop_bps,
            later,
        ),
{
}

/// The destination's report never raises a route above its first hop.
pub proof fn lemma_feedback_only_caps_the_first_hop(
    table: QualityTable,
    route: ResolvedRouteV2,
    first_hop_bps: u64,
    now: Instant,
)
    requires
        first_hop_bps > 0,
    ensures
        table.effective(route, first_hop_bps, now) <= first_hop_bps,
        table.active_epoch != route.route_epoch ==> table.effective(route, first_hop_bps, now)
            == first_hop_bps,
{
}

/// Looking up a route forgets nothing of any other route, nor anything at all
/// where the route belongs to another epoch.
pub proof fn lemma_lookup_touches_its_route_alone(
    table: QualityTable,
    route: ResolvedRouteV2,
    now: Instant,
    label: u32,
)
    ensures
        table.looked_up(route, now).active_epoch == table.active_epoch,
        table.active_epoch != route.route_epoch ==> table.looked_up(route, now) == table,
        label != route.route_label.0 ==> table.looked_up(route, now).windows.dom().contains(label)
            == table.windows.dom().contains(label),
        label != route.route_label.0 && table.windows.dom().contains(label) ==> table.looked_up(
            route,
            now,
        ).windows[label] == table.windows[label],
        table.windows.dom().contains(route.route_label.0) ==> table.looked_up(
            route,
            now,
        ).windows.dom().contains(route.route_label.0),
{
}

} // verus!

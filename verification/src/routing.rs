//! Compiled overlay routes, labels and what a node does with a label.

use vstd::prelude::*;

use crate::grouping::GroupKey;

verus! {

/// Labels that one snapshot may hold.
pub const MAX_ROUTE_LABELS: usize = 65_536;

/// Why an identifier is refused.
#[derive(Clone, Copy, Debug, PartialEq, Eq, Structural)]
pub enum RoutingIdErrorV2 {
    /// Zero names no adjacency.
    ZeroAdjacency,
    /// Zero names no label.
    ZeroLabel,
}

/// One direct peer session of this node.
#[derive(Clone, Copy, Debug, PartialEq, Eq, PartialOrd, Ord, Hash, Structural)]
pub struct AdjacencyIdV2(pub u32);

impl AdjacencyIdV2 {
    /// The adjacency of that number; zero is refused.
    pub fn new(value: u32) -> (r: Result<AdjacencyIdV2, RoutingIdErrorV2>)
        ensures
            r == if value == 0 {
                Err::<AdjacencyIdV2, RoutingIdErrorV2>(RoutingIdErrorV2::ZeroAdjacency)
            } else {
                Ok(AdjacencyIdV2(value))
            },
    {
        if value == 0 {
            Err(RoutingIdErrorV2::ZeroAdjacency)
        } else {
            Ok(AdjacencyIdV2(value))
        }
    }
}

/// The label that a compiled route carries on the wire.
#[derive(Clone, Copy, Debug, PartialEq, Eq, PartialOrd, Ord, Hash, Structural)]
pub struct RouteLabelV2(pub u32);

impl RouteLabelV2 {
    /// The label of that number; zero is refused.
    pub fn new(value: u32) -> (r: Result<RouteLabelV2, RoutingIdErrorV2>)
        ensures
            r == if value == 0 {
                Err::<RouteLabelV2, RoutingIdErrorV2>(RoutingIdErrorV2::ZeroLabel)
            } else {
                Ok(RouteLabelV2(value))
            },
    {
        if value == 0 {
            Err(RoutingIdErrorV2::ZeroLabel)
        } else {
            Ok(RouteLabelV2(value))
        }
    }
}

/// A route as the transmitter uses it.
#[derive(Clone, Copy, Debug, PartialEq, Eq, Hash, Structural)]
pub struct ResolvedRouteV2 {
    pub adjacency: AdjacencyIdV2,
    pub route_label: RouteLabelV2,
    pub route_epoch: u32,
    pub maximum_datagram_size: u16,
}

/// What a node does with a labelled Cell.
#[derive(Clone, Copy, Debug, PartialEq, Eq, Structural)]
pub enum LabelActionV2 {
    /// Pass it on, if it came from where it should.
    Forward { expected_ingress: AdjacencyIdV2, next_hop: AdjacencyIdV2 },
    /// Deliver it here, if it came from where it should.
    Local { expected_ingress: AdjacencyIdV2 },
}

/// Service class of a Cell.
#[derive(Clone, Copy, Debug, PartialEq, Eq, PartialOrd, Ord, Hash, Structural)]
pub enum TrafficClass {
    Latency,
    Bulk,
}

/// What the records of one PacketTrain have in common. A Cell has one fixed
/// routing shim: grouping by ingress IP hop limit makes its overlay budget the
/// exact hop limit of every contained record instead of weakening it to a
/// train-wide default.
#[derive(Clone, Copy, Debug, PartialEq, Eq, Structural)]
pub struct TrainKeyV2 {
    pub route: ResolvedRouteV2,
    pub flow_id: u64,
    pub class: TrafficClass,
    pub overlay_hop_limit: u8,
}

impl GroupKey for TrainKeyV2 {
    fn same(&self, other: &Self) -> (r: bool) {
        *self == *other
    }
}

/// What the Cells of one transit batch have in common.
#[derive(Clone, Copy, Debug, PartialEq, Eq, Structural)]
pub struct ForwardKeyV2 {
    pub next_hop: AdjacencyIdV2,
    pub class: TrafficClass,
    pub session_epoch: u32,
    pub route_label: u32,
    pub train_id: u64,
}

impl GroupKey for ForwardKeyV2 {
    fn same(&self, other: &Self) -> (r: bool) {
        *self == *other
    }
}

impl GroupKey for AdjacencyIdV2 {
    fn same(&self, other: &Self) -> (r: bool) {
        *self == *other
    }
}

/// What a node does with one label of one epoch.
#[derive(Clone, Copy, Debug, PartialEq, Eq, Structural)]
pub struct LabelRouteV2 {
    pub route_label: RouteLabelV2,
    pub route_epoch: u32,
    pub action: LabelActionV2,
}

/// The labels that a compiled snapshot knows.
#[derive(Debug)]
pub struct LabelTableV2 {
    pub generation: u64,
    pub labels: Vec<LabelRouteV2>,
}

/// What a run of labels says of one label: the first entry counts.
pub open spec fn label_lookup(
    labels: Seq<LabelRouteV2>,
    route_epoch: u32,
    route_label: RouteLabelV2,
) -> Option<LabelActionV2>
    decreases labels.len(),
{
    if labels.len() == 0 {
        None
    } else if labels[0].route_epoch == route_epoch && labels[0].route_label == route_label {
        Some(labels[0].action)
    } else {
        label_lookup(labels.drop_first(), route_epoch, route_label)
    }
}

impl LabelTableV2 {
    /// What the node does with a label of an epoch.
    pub fn label_action(&self, route_epoch: u32, route_label: RouteLabelV2) -> (r: Option<
        LabelActionV2,
    >)
        ensures
            r == label_lookup(self.labels@, route_epoch, route_label),
    {
        let mut index: usize = 0;
        let ghost all = self.labels@;
        assert(all.skip(0) =~= all);
        while index < self.labels.len()
            invariant
                all == self.labels@,
                index <= all.len(),
                label_lookup(all, route_epoch, route_label) == label_lookup(
                    all.skip(index as int),
                    route_epoch,
                    route_label,
                ),
            decreases all.len() - index,
        {
            proof {
                assert(all.skip(index as int)[0] == all[index as int]);
                assert(all.skip(index as int).drop_first() =~= all.skip(index + 1));
            }
            let entry: LabelRouteV2 = self.labels[index];
            if entry.route_epoch == route_epoch && entry.route_label == route_label {
                return Some(entry.action);
            }
            index = index + 1;
        }
        None
    }
}

/// Whether an adjacency is among the live ones.
pub fn is_live(live: &Vec<AdjacencyIdV2>, adjacency: AdjacencyIdV2) -> (r: bool)
    ensures
        r == live@.contains(adjacency),
{
    let mut index: usize = 0;
    while index < live.len()
        invariant
            index <= live@.len(),
            forall|i: int| 0 <= i < index ==> live@[i] != adjacency,
        decreases live@.len() - index,
    {
        if live[index] == adjacency {
            assert(live@[index as int] == adjacency);
            return true;
        }
        index = index + 1;
    }
    false
}

/// A label leads where the first entry of its epoch and label says, and nowhere
/// where no entry has both.
pub proof fn lemma_label_needs_its_epoch(
    labels: Seq<LabelRouteV2>,
    route_epoch: u32,
    route_label: RouteLabelV2,
    at: int,
)
    requires
        0 <= at <= labels.len(),
        forall|i: int|
            0 <= i < at ==> !((#[trigger] labels[i]).route_epoch == route_epoch
                && labels[i].route_label == route_label),
    ensures
        at == labels.len() ==> label_lookup(labels, route_epoch, route_label) is None,
        at < labels.len() && labels[at].route_epoch == route_epoch && labels[at].route_label
            == route_label ==> label_lookup(labels, route_epoch, route_label) == Some(
            labels[at].action,
        ),
    decreases at,
{
    if at > 0 {
        assert(!(labels[0].route_epoch == route_epoch && labels[0].route_label == route_label));
        let rest = labels.drop_first();
        assert forall|i: int| 0 <= i < at - 1 implies !((#[trigger] rest[i]).route_epoch
            == route_epoch && rest[i].route_label == route_label) by {
            assert(rest[i] == labels[i + 1]);
        }
        lemma_label_needs_its_epoch(rest, route_epoch, route_label, at - 1);
    }
}

} // verus!

//! What a mesh node does with a batch of datagrams.

use std::collections::VecDeque;

use vstd::prelude::*;

use crate::dataplane::rx::{count_up, wrapped, CompletedRecordV2};
use crate::grouping::{
    add_to_group, added, grouped, groups_view, lemma_grouping_is_a_partition, position,
    values_of_key, Group,
};
use crate::queue::into_queue;
use crate::routing::{is_live, AdjacencyIdV2, ForwardKeyV2};

verus! {

/// What came of one datagram of an adjacency.
#[derive(Debug)]
pub enum MeshDatagramResultV2 {
    /// Cover padding of that many bytes.
    Cover { length: usize },
    /// Malformed cover padding, Cell route, route epoch or payload.
    Malformed,
    /// A local Cell that completed some records.
    Local { records: Vec<CompletedRecordV2> },
    /// A Cell to pass on.
    Forward { key: ForwardKeyV2, cell: Vec<u8> },
    /// A Cell to pass on that ran out of hops, and the encoded report of it.
    TtlExpired { incoming: AdjacencyIdV2, report: Vec<u8> },
    /// The route-label gate dropped the Cell.
    Dropped,
}

/// Why a batch cannot be carried out.
#[derive(Clone, Copy, Debug, PartialEq, Eq, Structural)]
pub enum TransitErrorV2 {
    /// The adjacency that a report goes back to is gone.
    ReverseDisconnected,
    /// The adjacency that Cells go on to is gone.
    NextHopDisconnected,
}

/// A control record for an adjacency.
#[derive(Debug)]
pub struct ControlSendV2 {
    pub adjacency: AdjacencyIdV2,
    pub record: Vec<u8>,
}

/// Cells for an adjacency.
#[derive(Debug)]
pub struct ForwardSendV2 {
    pub adjacency: AdjacencyIdV2,
    pub flow_id: u64,
    pub cells: Vec<Vec<u8>>,
}

/// What a batch of datagrams came to so far.
#[derive(Debug)]
pub struct TransitBatchV2 {
    pub local: Vec<CompletedRecordV2>,
    pub forwarded: Vec<Group<ForwardKeyV2, Vec<u8>>>,
    pub cover_rx_bytes: u64,
    pub protocol_errors: u64,
    pub route_gate_drops: u64,
}

/// What a batch of datagrams came to so far, over sequences.
#[verifier::ext_equal]
pub ghost struct TransitModel {
    pub local: Seq<CompletedRecordV2>,
    pub forwarded: Seq<(ForwardKeyV2, Seq<Vec<u8>>)>,
    pub cover_rx_bytes: u64,
    pub protocol_errors: u64,
    pub route_gate_drops: u64,
}

/// The batch with one more datagram. Cells of one train for one next hop are
/// kept together and in order.
pub open spec fn transited(batch: TransitModel, datagram: MeshDatagramResultV2) -> TransitModel {
    match datagram {
        MeshDatagramResultV2::Cover { length } => TransitModel {
            cover_rx_bytes: wrapped(batch.cover_rx_bytes, length as int),
            ..batch
        },
        MeshDatagramResultV2::Malformed => TransitModel {
            protocol_errors: wrapped(batch.protocol_errors, 1),
            ..batch
        },
        MeshDatagramResultV2::Local { records } => TransitModel {
            local: batch.local + records@,
            ..batch
        },
        MeshDatagramResultV2::Forward { key, cell } => TransitModel {
            forwarded: added(batch.forwarded, key, cell),
            ..batch
        },
        MeshDatagramResultV2::TtlExpired { .. } => batch,
        MeshDatagramResultV2::Dropped => TransitModel {
            route_gate_drops: wrapped(batch.route_gate_drops, 1),
            ..batch
        },
    }
}

/// The flow under which the Cells of a train are scheduled; zero is not a flow.
pub open spec fn transit_flow(train_id: u64) -> u64 {
    if train_id == 0 {
        1
    } else {
        train_id
    }
}

/// Whether a send carries a group of Cells.
pub open spec fn carries(send: ForwardSendV2, group: (ForwardKeyV2, Seq<Vec<u8>>)) -> bool {
    &&& send.adjacency == group.0.next_hop
    &&& send.flow_id == transit_flow(group.0.train_id)
    &&& send.cells@ == group.1
}

impl TransitBatchV2 {
    /// The batch over sequences.
    pub open spec fn model(&self) -> TransitModel {
        TransitModel {
            local: self.local@,
            forwarded: groups_view(self.forwarded@),
            cover_rx_bytes: self.cover_rx_bytes,
            protocol_errors: self.protocol_errors,
            route_gate_drops: self.route_gate_drops,
        }
    }

    /// An empty batch on top of the adjacency's counters.
    pub fn new(cover_rx_bytes: u64, protocol_errors: u64, route_gate_drops: u64) -> (r:
        TransitBatchV2)
        ensures
            r.model() == (TransitModel {
                local: Seq::empty(),
                forwarded: Seq::empty(),
                cover_rx_bytes,
                protocol_errors,
                route_gate_drops,
            }),
    {
        let r: TransitBatchV2 = TransitBatchV2 {
            local: Vec::new(),
            forwarded: Vec::new(),
            cover_rx_bytes,
            protocol_errors,
            route_gate_drops,
        };
        assert(groups_view(r.forwarded@) =~= Seq::empty());
        r
    }

    /// Take one datagram, and hand out the control record to send now. A
    /// report goes back to where the Cell came from.
    pub fn receive(&mut self, datagram: MeshDatagramResultV2, live: &Vec<AdjacencyIdV2>) -> (r:
        Result<Option<ControlSendV2>, TransitErrorV2>)
        ensures
            final(self).model() == transited(old(self).model(), datagram),
            match datagram {
                MeshDatagramResultV2::TtlExpired { incoming, report } => if live@.contains(incoming) {
                    r matches Ok(Some(send)) && send.adjacency == incoming && send.record == report
                } else {
                    r matches Err(error) && error == TransitErrorV2::ReverseDisconnected
                },
                _ => r matches Ok(None),
            },
    {
        match datagram {
            MeshDatagramResultV2::Cover { length } => {
                self.cover_rx_bytes = count_up(self.cover_rx_bytes, length as u64);
                Ok(None)
            },
            MeshDatagramResultV2::Malformed => {
                self.protocol_errors = count_up(self.protocol_errors, 1);
                Ok(None)
            },
            MeshDatagramResultV2::Local { records } => {
                let mut more: Vec<CompletedRecordV2> = records;
                self.local.append(&mut more);
                Ok(None)
            },
            MeshDatagramResultV2::Forward { key, cell } => {
                add_to_group(&mut self.forwarded, key, cell);
                Ok(None)
            },
            MeshDatagramResultV2::TtlExpired { incoming, report } => {
                if is_live(live, incoming) {
                    Ok(Some(ControlSendV2 { adjacency: incoming, record: report }))
                } else {
                    Err(TransitErrorV2::ReverseDisconnected)
                }
            },
            MeshDatagramResultV2::Dropped => {
                self.route_gate_drops = count_up(self.route_gate_drops, 1);
                Ok(None)
            },
        }
    }

    /// The Cells to pass on, one send per group. It fails where a next hop is
    /// gone.
    pub fn forward(self, live: &Vec<AdjacencyIdV2>) -> (r: Result<
        (Vec<ForwardSendV2>, Vec<CompletedRecordV2>),
        TransitErrorV2,
    >)
        ensures
            ({
                let groups = self.model().forwarded;
                if forall|i: int|
                    0 <= i < groups.len() ==> live@.contains((#[trigger] groups[i]).0.next_hop) {
                    r matches Ok(output) && output.1@ == self.model().local && output.0@.len()
                        == groups.len() && forall|i: int|
                        0 <= i < groups.len() ==> carries(#[trigger] output.0@[i], groups[i])
                } else {
                    r matches Err(error) && error == TransitErrorV2::NextHopDisconnected
                }
            }),
    {
        let ghost groups = groups_view(self.forwarded@);
        let ghost all = self.forwarded@;
        let local: Vec<CompletedRecordV2> = self.local;
        let mut rest: VecDeque<Group<ForwardKeyV2, Vec<u8>>> = into_queue(self.forwarded);
        let mut sends: Vec<ForwardSendV2> = Vec::new();
        assert(all.skip(0) =~= all);
        while rest.len() > 0
            invariant
                groups == groups_view(all),
                groups == self.model().forwarded,
                sends@.len() <= all.len(),
                rest@ == all.skip(sends@.len() as int),
                forall|i: int|
                    0 <= i < sends@.len() ==> carries(#[trigger] sends@[i], groups[i])
                        && live@.contains(groups[i].0.next_hop),
            decreases rest@.len(),
        {
            let ghost done = sends@.len() as int;
            if let Some(group) = rest.pop_front() {
                proof {
                    assert(group == all[done]);
                    assert(groups[done] == (group.key, group.items@));
                    assert(rest@ =~= all.skip(done + 1));
                }
                let key: ForwardKeyV2 = group.key;
                if !is_live(live, key.next_hop) {
                    assert(!live@.contains(groups[done].0.next_hop));
                    return Err(TransitErrorV2::NextHopDisconnected);
                }
                sends.push(
                    ForwardSendV2 {
                        adjacency: key.next_hop,
                        flow_id: if key.train_id == 0 {
                            1
                        } else {
                            key.train_id
                        },
                        cells: group.items,
                    },
                );
            }
        }
        proof {
            assert(groups.len() == all.len());
            assert forall|i: int| 0 <= i < groups.len() implies live@.contains(
                (#[trigger] groups[i]).0.next_hop,
            ) by {
                assert(carries(sends@[i], groups[i]));
            }
        }
        Ok((sends, local))
    }
}

/// The batch after a run of datagrams.
pub open spec fn transited_all(
    batch: TransitModel,
    datagrams: Seq<MeshDatagramResultV2>,
) -> TransitModel
    decreases datagrams.len(),
{
    if datagrams.len() == 0 {
        batch
    } else {
        transited(transited_all(batch, datagrams.drop_last()), datagrams.last())
    }
}

/// The Cells to pass on among some datagrams, in order.
pub open spec fn transit_cells(datagrams: Seq<MeshDatagramResultV2>) -> Seq<
    (ForwardKeyV2, Vec<u8>),
>
    decreases datagrams.len(),
{
    if datagrams.len() == 0 {
        Seq::empty()
    } else {
        let rest = transit_cells(datagrams.drop_last());
        match datagrams.last() {
            MeshDatagramResultV2::Forward { key, cell } => rest.push((key, cell)),
            _ => rest,
        }
    }
}

/// The groups of an empty batch are those of the Cells that came since.
proof fn lemma_groups_follow_the_cells(
    batch: TransitModel,
    datagrams: Seq<MeshDatagramResultV2>,
)
    requires
        batch.forwarded.len() == 0,
    ensures
        transited_all(batch, datagrams).forwarded == grouped(transit_cells(datagrams)),
    decreases datagrams.len(),
{
    if datagrams.len() == 0 {
        assert(batch.forwarded =~= Seq::empty());
    } else {
        lemma_groups_follow_the_cells(batch, datagrams.drop_last());
        let rest = transit_cells(datagrams.drop_last());
        if let MeshDatagramResultV2::Forward { key, cell } = datagrams.last() {
            assert(rest.push((key, cell)).drop_last() =~= rest);
        }
    }
}

/// A batch passes every Cell on once, to its next hop and in the order in
/// which the Cells of its train came.
pub proof fn lemma_transit_keeps_every_cell_in_order(
    batch: TransitModel,
    datagrams: Seq<MeshDatagramResultV2>,
)
    requires
        batch.forwarded.len() == 0,
    ensures
        ({
            let groups = transited_all(batch, datagrams).forwarded;
            let cells = transit_cells(datagrams);
            &&& forall|i: int, j: int|
                #![trigger groups[i], groups[j]]
                0 <= i < j < groups.len() ==> groups[i].0 != groups[j].0
            &&& forall|i: int|
                0 <= i < groups.len() ==> (#[trigger] groups[i]).1 == values_of_key(
                    cells,
                    groups[i].0,
                )
            &&& forall|e: int|
                0 <= e < cells.len() ==> position(groups, (#[trigger] cells[e]).0) >= 0
        }),
{
    lemma_groups_follow_the_cells(batch, datagrams);
    lemma_grouping_is_a_partition(transit_cells(datagrams));
}

/// A forwarded group leaves for its next hop with its Cells as they came, under
/// its train's number as the flow, where zero counts as one.
pub proof fn lemma_group_leaves_for_its_next_hop(
    send: ForwardSendV2,
    group: (ForwardKeyV2, Seq<Vec<u8>>),
)
    requires
        carries(send, group),
    ensures
        send.adjacency == group.0.next_hop,
        send.cells@ == group.1,
        group.0.train_id > 0 ==> send.flow_id == group.0.train_id,
        group.0.train_id == 0 ==> send.flow_id == 1,
{
}

} // verus!

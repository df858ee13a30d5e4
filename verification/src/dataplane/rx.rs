//! What the receiver does with datagrams, budgets and reassembled records.

use std::collections::VecDeque;

use vstd::prelude::*;

use crate::num::sat_u64;
use crate::queue::into_queue;

verus! {

/// A counter after some more, as it wraps.
pub open spec fn wrapped(counter: u64, more: int) -> u64 {
    ((counter + more) % 0x1_0000_0000_0000_0000) as u64
}

/// Count some more; the counter wraps.
pub fn count_up(counter: u64, more: u64) -> (r: u64)
    ensures
        r == wrapped(counter, more as int),
{
    counter.wrapping_add(more)
}

/// The sequence number of the next feedback: it wraps past zero.
pub fn next_feedback_sequence(sequence: u64) -> (r: u64)
    ensures
        r == if sequence == u64::MAX {
            1
        } else {
            sequence + 1
        },
        r >= 1,
{
    let next: u64 = sequence.wrapping_add(1);
    if next == 0 {
        1
    } else {
        next
    }
}

/// What a receiver holds and what telemetry asks it to hold.
#[derive(Clone, Copy, Debug, PartialEq, Eq, Structural)]
pub struct ReceiveBudgetV2 {
    pub reassembly_budget_bytes: usize,
    pub active_train_budget: usize,
    pub buffered_bytes: usize,
}

/// What to change at a receiver.
#[derive(Clone, Copy, Debug, PartialEq, Eq)]
pub struct ReceiveBudgetChangeV2 {
    /// The new reassembly budget, in bytes and trains.
    pub reassembly: Option<(usize, usize)>,
    /// The new bound on buffered bytes.
    pub buffered: Option<usize>,
}

/// What to change at a receiver so that it follows its targets. A target of
/// zero buffered bytes is not set yet.
pub fn receive_budget_change(current: ReceiveBudgetV2, target: ReceiveBudgetV2) -> (r:
    ReceiveBudgetChangeV2)
    ensures
        r.reassembly == if target.reassembly_budget_bytes != current.reassembly_budget_bytes
            || target.active_train_budget != current.active_train_budget {
            Some((target.reassembly_budget_bytes, target.active_train_budget))
        } else {
            None
        },
        r.buffered == if target.buffered_bytes != 0 && target.buffered_bytes
            != current.buffered_bytes {
            Some(target.buffered_bytes)
        } else {
            None
        },
{
    ReceiveBudgetChangeV2 {
        reassembly: if target.reassembly_budget_bytes != current.reassembly_budget_bytes
            || target.active_train_budget != current.active_train_budget {
            Some((target.reassembly_budget_bytes, target.active_train_budget))
        } else {
            None
        },
        buffered: if target.buffered_bytes != 0 && target.buffered_bytes != current.buffered_bytes {
            Some(target.buffered_bytes)
        } else {
            None
        },
    }
}

/// A receiver after a change.
pub open spec fn changed_budget(current: ReceiveBudgetV2, change: ReceiveBudgetChangeV2) ->
    ReceiveBudgetV2 {
    ReceiveBudgetV2 {
        reassembly_budget_bytes: match change.reassembly {
            Some(budget) => budget.0,
            None => current.reassembly_budget_bytes,
        },
        active_train_budget: match change.reassembly {
            Some(budget) => budget.1,
            None => current.active_train_budget,
        },
        buffered_bytes: match change.buffered {
            Some(bytes) => bytes,
            None => current.buffered_bytes,
        },
    }
}

/// A record that all fragments of arrived.
#[derive(Debug)]
pub struct CompletedRecordV2 {
    pub metadata: Vec<u8>,
    pub total_len: usize,
    pub fragments: Vec<Vec<u8>>,
}

/// Bytes of a run of records.
pub open spec fn record_bytes(records: Seq<CompletedRecordV2>) -> int
    decreases records.len(),
{
    if records.len() == 0 {
        0
    } else {
        record_bytes(records.drop_last()) + records.last().total_len
    }
}

/// The records of a run that carry offload metadata, or those that do not.
pub open spec fn with_metadata(records: Seq<CompletedRecordV2>, offloaded: bool) -> Seq<
    CompletedRecordV2,
>
    decreases records.len(),
{
    if records.len() == 0 {
        Seq::empty()
    } else {
        let rest = with_metadata(records.drop_last(), offloaded);
        if (records.last().metadata@.len() > 0) == offloaded {
            rest.push(records.last())
        } else {
            rest
        }
    }
}

/// Reassembled records, parted by how they are written to the TUN interface.
#[derive(Debug)]
pub struct TunWriteV2 {
    pub ordinary: Vec<CompletedRecordV2>,
    pub offloaded: Vec<CompletedRecordV2>,
    pub packets: u64,
    pub bytes: u64,
}

/// Part reassembled records: those without offload metadata are written in one
/// batch, the others one by one behind a restored header.
pub fn split_reassembled(records: Vec<CompletedRecordV2>) -> (r: TunWriteV2)
    ensures
        r.ordinary@ == with_metadata(records@, false),
        r.offloaded@ == with_metadata(records@, true),
        r.packets == records@.len(),
        r.bytes == sat_u64(record_bytes(records@)),
{
    let ghost all = records@;
    let packets: u64 = records.len() as u64;
    let mut rest: VecDeque<CompletedRecordV2> = into_queue(records);
    let mut ordinary: Vec<CompletedRecordV2> = Vec::new();
    let mut offloaded: Vec<CompletedRecordV2> = Vec::new();
    let mut bytes: u64 = 0;
    let ghost mut done: int = 0;
    proof {
        assert(all.take(0).len() == 0);
        assert(ordinary@ =~= with_metadata(all.take(0), false));
        assert(offloaded@ =~= with_metadata(all.take(0), true));
        assert(all.skip(0) =~= all);
    }
    while rest.len() > 0
        invariant
            0 <= done <= all.len(),
            rest@ == all.skip(done),
            ordinary@ == with_metadata(all.take(done), false),
            offloaded@ == with_metadata(all.take(done), true),
            bytes == sat_u64(record_bytes(all.take(done))),
            record_bytes(all.take(done)) >= 0,
        decreases rest@.len(),
    {
        if let Some(record) = rest.pop_front() {
            proof {
                assert(record == all[done]);
                assert(all.take(done + 1).drop_last() =~= all.take(done));
                assert(all.take(done + 1).last() == record);
                assert(rest@ =~= all.skip(done + 1));
            }
            bytes = bytes.saturating_add(record.total_len as u64);
            if record.metadata.len() == 0 {
                ordinary.push(record);
            } else {
                offloaded.push(record);
            }
            proof {
                done = done + 1;
            }
        }
    }
    assert(all.take(done) =~= all);
    TunWriteV2 { ordinary, offloaded, packets, bytes }
}

/// Every record is written exactly once, in one of the two ways.
pub proof fn lemma_split_keeps_every_record(
    records: Seq<CompletedRecordV2>,
    record: CompletedRecordV2,
)
    ensures
        with_metadata(records, false).len() + with_metadata(records, true).len() == records.len(),
        records.contains(record) == (with_metadata(records, false).contains(record)
            || with_metadata(records, true).contains(record)),
    decreases records.len(),
{
    if records.len() > 0 {
        let rest = records.drop_last();
        let last = records.last();
        lemma_split_keeps_every_record(rest, record);
        assert(records =~= rest.push(last));
        crate::sort::lemma_contains_push(rest, last, record);
        crate::sort::lemma_contains_push(with_metadata(rest, false), last, record);
        crate::sort::lemma_contains_push(with_metadata(rest, true), last, record);
    }
}

/// Once a receiver follows its targets nothing is left to change, unless no
/// target for buffered bytes is set yet.
pub proof fn lemma_budget_change_converges(
    current: ReceiveBudgetV2,
    target: ReceiveBudgetV2,
    change: ReceiveBudgetChangeV2,
)
    requires
        change.reassembly == (if target.reassembly_budget_bytes != current.reassembly_budget_bytes
            || target.active_train_budget != current.active_train_budget {
            Some((target.reassembly_budget_bytes, target.active_train_budget))
        } else {
            None
        }),
        change.buffered == (if target.buffered_bytes != 0 && target.buffered_bytes
            != current.buffered_bytes {
            Some(target.buffered_bytes)
        } else {
            None
        }),
    ensures
        changed_budget(current, change) == (ReceiveBudgetV2 {
            buffered_bytes: if target.buffered_bytes == 0 {
                current.buffered_bytes
            } else {
                target.buffered_bytes
            },
            ..target
        }),
{
}

/// What came of one datagram of a connection with a single peer.
#[derive(Debug)]
pub enum PeerDatagramV2 {
    /// Cover padding of that many bytes.
    Cover { length: usize },
    /// Malformed cover padding, Cell route or payload.
    Malformed,
    /// A local Cell that completed some records.
    Local { records: Vec<CompletedRecordV2> },
    /// The route-label gate dropped the Cell.
    Dropped,
    /// A Cell for another node.
    Transit,
    /// A Cell for another node that ran out of hops.
    TtlExpired,
}

/// What a node with a single peer refuses.
#[derive(Clone, Copy, Debug, PartialEq, Eq, Structural)]
pub enum PeerRxErrorV2 {
    /// A Cell for another node.
    TransitCell,
    /// A Cell for another node that ran out of hops.
    TransitTtl,
}

/// What a batch of datagrams came to.
#[derive(Debug)]
pub struct PeerRxBatchV2 {
    pub records: Vec<CompletedRecordV2>,
    pub cover_rx_bytes: u64,
    pub protocol_errors: u64,
    pub route_gate_drops: u64,
}

/// What a batch of datagrams came to, over sequences.
#[verifier::ext_equal]
pub ghost struct PeerRxModel {
    pub records: Seq<CompletedRecordV2>,
    pub cover_rx_bytes: u64,
    pub protocol_errors: u64,
    pub route_gate_drops: u64,
}

/// The batch with one more datagram, or why it is refused.
pub open spec fn peer_received(batch: PeerRxModel, datagram: PeerDatagramV2) -> Result<
    PeerRxModel,
    PeerRxErrorV2,
> {
    match datagram {
        PeerDatagramV2::Cover { length } => Ok(
            PeerRxModel { cover_rx_bytes: wrapped(batch.cover_rx_bytes, length as int), ..batch },
        ),
        PeerDatagramV2::Malformed => Ok(
            PeerRxModel { protocol_errors: wrapped(batch.protocol_errors, 1), ..batch },
        ),
        PeerDatagramV2::Local { records } => Ok(
            PeerRxModel { records: batch.records + records@, ..batch },
        ),
        PeerDatagramV2::Dropped => Ok(
            PeerRxModel { route_gate_drops: wrapped(batch.route_gate_drops, 1), ..batch },
        ),
        PeerDatagramV2::Transit => Err(PeerRxErrorV2::TransitCell),
        PeerDatagramV2::TtlExpired => Err(PeerRxErrorV2::TransitTtl),
    }
}

impl PeerRxBatchV2 {
    /// The batch over sequences.
    pub open spec fn model(&self) -> PeerRxModel {
        PeerRxModel {
            records: self.records@,
            cover_rx_bytes: self.cover_rx_bytes,
            protocol_errors: self.protocol_errors,
            route_gate_drops: self.route_gate_drops,
        }
    }

    /// Take one datagram. A malformed one is counted and skipped; a node with a
    /// single peer takes no transit.
    pub fn receive(&mut self, datagram: PeerDatagramV2) -> (r: Result<(), PeerRxErrorV2>)
        ensures
            match peer_received(old(self).model(), datagram) {
                Ok(batch) => r == Ok::<(), PeerRxErrorV2>(()) && final(self).model() == batch,
                Err(error) => r == Err::<(), PeerRxErrorV2>(error) && *final(self) == *old(self),
            },
    {
        match datagram {
            PeerDatagramV2::Cover { length } => {
                self.cover_rx_bytes = count_up(self.cover_rx_bytes, length as u64);
                Ok(())
            },
            PeerDatagramV2::Malformed => {
                self.protocol_errors = count_up(self.protocol_errors, 1);
                Ok(())
            },
            PeerDatagramV2::Local { records } => {
                let mut more: Vec<CompletedRecordV2> = records;
                self.records.append(&mut more);
                Ok(())
            },
            PeerDatagramV2::Dropped => {
                self.route_gate_drops = count_up(self.route_gate_drops, 1);
                Ok(())
            },
            PeerDatagramV2::Transit => Err(PeerRxErrorV2::TransitCell),
            PeerDatagramV2::TtlExpired => Err(PeerRxErrorV2::TransitTtl),
        }
    }
}

} // verus!

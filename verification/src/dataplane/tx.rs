//! What the transmitter polls, and what it does with each event.

use std::collections::VecDeque;

use vstd::prelude::*;

use super::rx::{count_up, wrapped};
use super::{
    admission_headroom, admission_saturated, drain_tun_ingress_batch, ingress_ready_order,
    is_batch_length, is_saturated, retune_required, CoverShaperV2, EffectiveTuneV2,
    IngressReadyOrderV2, PrioritySendArbiterV2, PrioritySendTurnV2, SchedulerDepth,
    TunIngressRecordV2, MAX_SENDS_BETWEEN_PRIORITY_ADMISSIONS, TX_ADMISSION_BATCH_BYTES,
};
use crate::num::{max_int, min_int, sat_usize};
use crate::queue::into_queue;
use crate::routing::TrafficClass;
use crate::time::Instant;
use crate::tuning::{CoverTrafficProfileV2, TuneDecisionV2};

verus! {

/// Records that one receive burst takes before a decision says otherwise.
pub const INITIAL_RECEIVE_BATCH: usize = 8;

/// What the transmitter waits for.
#[derive(Clone, Copy, Debug, PartialEq, Eq, Structural)]
pub enum TxPollV2 {
    Tuning,
    Priority,
    Send,
    Regular,
    Control,
}

/// What is polled while something is queued, first to last. The first that is
/// ready wins.
pub open spec fn busy_order(saturated: bool, turn: PrioritySendTurnV2) -> Seq<TxPollV2> {
    let first = if turn == PrioritySendTurnV2::PriorityAdmission {
        seq![TxPollV2::Tuning, TxPollV2::Priority, TxPollV2::Send]
    } else {
        seq![TxPollV2::Tuning, TxPollV2::Send, TxPollV2::Priority]
    };
    if saturated {
        first
    } else {
        first.push(TxPollV2::Regular)
    }
}

/// What is polled, first to last.
pub open spec fn poll_sequence(
    pending: bool,
    deferred: bool,
    saturated: bool,
    turn: PrioritySendTurnV2,
    control: bool,
) -> Seq<TxPollV2> {
    let order = if pending && saturated {
        busy_order(true, turn)
    } else if pending || deferred {
        busy_order(false, turn)
    } else {
        seq![TxPollV2::Priority, TxPollV2::Tuning, TxPollV2::Regular]
    };
    if control {
        order.push(TxPollV2::Control)
    } else {
        order
    }
}

/// What a scheduler send did.
#[derive(Clone, Copy, Debug, PartialEq, Eq, Structural)]
pub struct SendProgressV2 {
    /// The class of the sent traffic; cover padding has none.
    pub class: Option<TrafficClass>,
    pub bytes: usize,
    pub cover_padding_bytes: usize,
    pub dropped_bytes: usize,
    pub dropped_datagrams: usize,
}

/// Counters and gauges of a transmitter.
#[derive(Clone, Copy, Debug, PartialEq, Eq, Structural)]
pub struct TxCountersV2 {
    pub real_tx_bytes: u64,
    pub cover_tx_bytes: u64,
    pub pmtu_drop_bytes: u64,
    pub pmtu_drop_datagrams: u64,
    pub train_queue_bytes: u64,
    pub latency_queue_bytes: u64,
}

impl TxCountersV2 {
    /// The counters after a send.
    pub open spec fn after_send(self, progress: SendProgressV2) -> TxCountersV2 {
        TxCountersV2 {
            real_tx_bytes: if progress.class is Some {
                wrapped(self.real_tx_bytes, progress.bytes as int)
            } else {
                self.real_tx_bytes
            },
            cover_tx_bytes: wrapped(self.cover_tx_bytes, progress.cover_padding_bytes as int),
            pmtu_drop_bytes: wrapped(self.pmtu_drop_bytes, progress.dropped_bytes as int),
            pmtu_drop_datagrams: wrapped(
                self.pmtu_drop_datagrams,
                progress.dropped_datagrams as int,
            ),
            ..self
        }
    }
}

/// What a transmitter keeps between events.
#[derive(Debug)]
pub struct TxLoopV2 {
    pub applied: Option<TuneDecisionV2>,
    pub receive_batch: usize,
    pub shaper: CoverShaperV2,
    pub arbiter: PrioritySendArbiterV2,
    pub counters: TxCountersV2,
    pub deferred: VecDeque<TunIngressRecordV2>,
}

/// What a transmitter keeps between events, over sequences.
#[verifier::ext_equal]
pub ghost struct TxLoopModel {
    pub applied: Option<TuneDecisionV2>,
    pub receive_batch: usize,
    pub shaper: CoverShaperV2,
    pub arbiter: PrioritySendArbiterV2,
    pub counters: TxCountersV2,
    pub deferred: Seq<TunIngressRecordV2>,
}

/// Whether a decision changes what the transmitter acts on.
pub open spec fn retunes(applied: Option<TuneDecisionV2>, decision: TuneDecisionV2) -> bool {
    match applied {
        Some(current) => EffectiveTuneV2::of(current) != EffectiveTuneV2::of(decision),
        None => true,
    }
}

/// The transmitter after a decision was published.
pub open spec fn tuned(state: TxLoopModel, decision: Option<TuneDecisionV2>, now: Instant) ->
    TxLoopModel {
    match decision {
        None => state,
        Some(decision) => {
            let batched = TxLoopModel { receive_batch: decision.receive_batch, ..state };
            if retunes(state.applied, decision) {
                TxLoopModel {
                    applied: Some(decision),
                    shaper: state.shaper.retuned(decision, now),
                    ..batched
                }
            } else {
                batched
            }
        },
    }
}

/// The transmitter after a send.
pub open spec fn after_send(state: TxLoopModel, progress: Option<SendProgressV2>) -> TxLoopModel {
    let counted = TxLoopModel {
        arbiter: PrioritySendArbiterV2 {
            sends_since_priority: min_int(
                state.arbiter.sends_since_priority + 1,
                u8::MAX as int,
            ) as u8,
        },
        ..state
    };
    match progress {
        Some(progress) => TxLoopModel { counters: state.counters.after_send(progress), ..counted },
        None => counted,
    }
}

impl TxLoopV2 {
    /// The transmitter over sequences.
    pub open spec fn model(&self) -> TxLoopModel {
        TxLoopModel {
            applied: self.applied,
            receive_batch: self.receive_batch,
            shaper: self.shaper,
            arbiter: self.arbiter,
            counters: self.counters,
            deferred: self.deferred@,
        }
    }

    /// A transmitter that nothing was decided for yet.
    pub fn new(now: Instant) -> (r: TxLoopV2)
        ensures
            r.model() == (TxLoopModel {
                applied: None,
                receive_batch: INITIAL_RECEIVE_BATCH,
                shaper: CoverShaperV2 {
                    profile: CoverTrafficProfileV2::Idle,
                    bytes_per_second: 0,
                    tokens: 0,
                    updated_at: now,
                },
                arbiter: PrioritySendArbiterV2 {
                    sends_since_priority: MAX_SENDS_BETWEEN_PRIORITY_ADMISSIONS,
                },
                counters: TxCountersV2 {
                    real_tx_bytes: 0,
                    cover_tx_bytes: 0,
                    pmtu_drop_bytes: 0,
                    pmtu_drop_datagrams: 0,
                    train_queue_bytes: 0,
                    latency_queue_bytes: 0,
                },
                deferred: Seq::empty(),
            }),
            r.shaper.wf(),
            !r.shaper.active(),
            r.arbiter.next() == PrioritySendTurnV2::PriorityAdmission,
    {
        TxLoopV2 {
            applied: None,
            receive_batch: INITIAL_RECEIVE_BATCH,
            shaper: CoverShaperV2::new(now),
            arbiter: PrioritySendArbiterV2::default(),
            counters: TxCountersV2 {
                real_tx_bytes: 0,
                cover_tx_bytes: 0,
                pmtu_drop_bytes: 0,
                pmtu_drop_datagrams: 0,
                train_queue_bytes: 0,
                latency_queue_bytes: 0,
            },
            deferred: VecDeque::new(),
        }
    }

    /// What to poll next, first to last. A saturated scheduler polls no regular
    /// ingress; an idle one waits for priority ingress first. `control` tells
    /// whether a control channel is polled behind everything else.
    pub fn poll_order(
        &self,
        pending: bool,
        depth: SchedulerDepth,
        high_water: usize,
        control: bool,
    ) -> (r: Vec<TxPollV2>)
        ensures
            r@ == poll_sequence(
                pending,
                self.deferred@.len() > 0,
                is_saturated(depth, high_water),
                self.arbiter.next(),
                control,
            ),
    {
        let mut order: Vec<TxPollV2> = Vec::new();
        let saturated: bool = admission_saturated(depth, high_water);
        let turn: PrioritySendTurnV2 = self.arbiter.next();
        if pending && saturated {
            order.push(TxPollV2::Tuning);
            match ingress_ready_order(true, turn) {
                IngressReadyOrderV2::PriorityThenSend => {
                    order.push(TxPollV2::Priority);
                    order.push(TxPollV2::Send);
                },
                _ => {
                    order.push(TxPollV2::Send);
                    order.push(TxPollV2::Priority);
                },
            }
        } else if pending || self.deferred.len() > 0 {
            order.push(TxPollV2::Tuning);
            match ingress_ready_order(false, turn) {
                IngressReadyOrderV2::PriorityThenSendThenRegular => {
                    order.push(TxPollV2::Priority);
                    order.push(TxPollV2::Send);
                },
                _ => {
                    order.push(TxPollV2::Send);
                    order.push(TxPollV2::Priority);
                },
            }
            order.push(TxPollV2::Regular);
        } else {
            order.push(TxPollV2::Priority);
            order.push(TxPollV2::Tuning);
            order.push(TxPollV2::Regular);
        }
        if control {
            order.push(TxPollV2::Control);
        }
        assert(order@ =~= poll_sequence(
            pending,
            self.deferred@.len() > 0,
            is_saturated(depth, high_water),
            self.arbiter.next(),
            control,
        ));
        order
    }

    /// The next bounded batch of deferred records, where there are some and the
    /// scheduler takes them. One burst stays one aggregation opportunity, and
    /// its bytes do not overshoot the watermark by more than its first record.
    pub fn next_deferred_batch(&mut self, depth: SchedulerDepth, high_water: usize) -> (r: Option<
        Vec<TunIngressRecordV2>,
    >)
        ensures
            is_saturated(depth, high_water) || old(self).deferred@.len() == 0 ==> r is None
                && final(self).model() == old(self).model(),
            !is_saturated(depth, high_water) && old(self).deferred@.len() > 0 ==> {
                &&& r is Some
                &&& is_batch_length(
                    old(self).deferred@,
                    old(self).receive_batch as int,
                    min_int(
                        max_int(high_water - sat_usize(depth.bulk_bytes + depth.latency_bytes), 0),
                        TX_ADMISSION_BATCH_BYTES as int,
                    ),
                    r->0@.len() as int,
                )
                &&& r->0@ == old(self).deferred@.take(r->0@.len() as int)
                &&& final(self).model() == (TxLoopModel {
                    deferred: old(self).deferred@.skip(r->0@.len() as int),
                    ..old(self).model()
                })
            },
    {
        if admission_saturated(depth, high_water) || self.deferred.len() == 0 {
            return None;
        }
        let available: usize = admission_headroom(depth, high_water);
        Some(drain_tun_ingress_batch(&mut self.deferred, self.receive_batch, available))
    }

    /// Keep a burst of regular records until the scheduler takes them.
    pub fn defer(&mut self, batch: Vec<TunIngressRecordV2>)
        ensures
            final(self).model() == (TxLoopModel {
                deferred: old(self).deferred@ + batch@,
                ..old(self).model()
            }),
    {
        let ghost before = self.deferred@;
        let mut more: VecDeque<TunIngressRecordV2> = into_queue(batch);
        let ghost all = more@;
        let ghost mut done: int = 0;
        assert(self.deferred@ =~= before + all.take(0));
        assert(more@ =~= all.skip(0));
        while more.len() > 0
            invariant
                0 <= done <= all.len(),
                before == old(self).deferred@,
                more@ == all.skip(done),
                self.model() == (TxLoopModel {
                    deferred: before + all.take(done),
                    ..old(self).model()
                }),
            decreases more@.len(),
        {
            if let Some(record) = more.pop_front() {
                self.deferred.push_back(record);
                proof {
                    assert(record == all[done]);
                    assert(more@ =~= all.skip(done + 1));
                    assert(self.deferred@ =~= before + all.take(done + 1));
                    done = done + 1;
                }
            }
        }
        assert(all.take(done) =~= all);
    }

    /// A priority record or command was admitted.
    pub fn priority_admitted(&mut self)
        ensures
            final(self).model() == (TxLoopModel {
                arbiter: PrioritySendArbiterV2 { sends_since_priority: 0 },
                ..old(self).model()
            }),
    {
        self.arbiter.admitted_priority();
    }

    /// Take over a published decision, and tell whether the scheduler has to be
    /// retuned.
    pub fn tuning_changed(&mut self, decision: Option<TuneDecisionV2>, now: Instant) -> (r: bool)
        ensures
            final(self).model() == tuned(old(self).model(), decision, now),
            r == (decision is Some && retunes(old(self).applied, decision->0)),
            old(self).shaper.wf() ==> final(self).shaper.wf(),
    {
        match decision {
            None => false,
            Some(decision) => {
                self.receive_batch = decision.receive_batch;
                if !retune_required(self.applied, decision) {
                    return false;
                }
                self.shaper.update(decision, now);
                self.applied = Some(decision);
                true
            },
        }
    }

    /// Account for a send, and tell whether cover padding may follow: real
    /// traffic went out and nothing waits.
    pub fn sent(&mut self, progress: Option<SendProgressV2>, pending: bool) -> (r: bool)
        ensures
            final(self).model() == after_send(old(self).model(), progress),
            r == (progress is Some && (progress->0).class is Some && !pending && old(
                self,
            ).deferred@.len() == 0),
    {
        self.arbiter.completed_send();
        match progress {
            None => false,
            Some(progress) => {
                let sent_real: bool = progress.class.is_some();
                if sent_real {
                    self.counters.real_tx_bytes =
                    count_up(self.counters.real_tx_bytes, progress.bytes as u64);
                }
                self.counters.cover_tx_bytes =
                count_up(self.counters.cover_tx_bytes, progress.cover_padding_bytes as u64);
                self.counters.pmtu_drop_bytes =
                count_up(self.counters.pmtu_drop_bytes, progress.dropped_bytes as u64);
                self.counters.pmtu_drop_datagrams =
                count_up(self.counters.pmtu_drop_datagrams, progress.dropped_datagrams as u64);
                sent_real && !pending && self.deferred.len() == 0
            },
        }
    }

    /// Publish the queue depth.
    pub fn observe_depth(&mut self, depth: SchedulerDepth)
        requires
            depth.bulk_bytes + depth.latency_bytes <= usize::MAX,
        ensures
            final(self).model() == (TxLoopModel {
                counters: TxCountersV2 {
                    train_queue_bytes: (depth.bulk_bytes + depth.latency_bytes) as u64,
                    latency_queue_bytes: depth.latency_bytes as u64,
                    ..old(self).counters
                },
                ..old(self).model()
            }),
    {
        self.counters.train_queue_bytes = (depth.bulk_bytes + depth.latency_bytes) as u64;
        self.counters.latency_queue_bytes = depth.latency_bytes as u64;
    }
}

/// Whatever the state, priority ingress and tuning are polled, a saturated
/// scheduler that has something to send polls no regular ingress, and regular
/// ingress never comes before priority ingress.
pub proof fn lemma_polling_is_fair(
    pending: bool,
    deferred: bool,
    saturated: bool,
    turn: PrioritySendTurnV2,
    control: bool,
)
    ensures
        ({
            let order = poll_sequence(pending, deferred, saturated, turn, control);
            &&& order.contains(TxPollV2::Priority)
            &&& order.contains(TxPollV2::Tuning)
            &&& pending ==> order.contains(TxPollV2::Send)
            &&& order.contains(TxPollV2::Regular) == !(pending && saturated)
            &&& forall|i: int, j: int|
                0 <= i < order.len() && 0 <= j < order.len() && #[trigger] order[i]
                    == TxPollV2::Priority && #[trigger] order[j] == TxPollV2::Regular ==> i < j
        }),
{
    let order = poll_sequence(pending, deferred, saturated, turn, control);
    assert(order[0] == TxPollV2::Tuning || order[1] == TxPollV2::Tuning);
    assert(order[0] == TxPollV2::Priority || order[1] == TxPollV2::Priority || order[2]
        == TxPollV2::Priority);
    if pending {
        assert(order[1] == TxPollV2::Send || order[2] == TxPollV2::Send);
    }
    if pending && !saturated || !pending && deferred {
        assert(order[3] == TxPollV2::Regular);
    }
    if !pending && !deferred {
        assert(order[2] == TxPollV2::Regular);
    }
}

/// A decision that the transmitter already acts on changes at most the burst
/// size.
pub proof fn lemma_same_decision_does_not_retune(
    state: TxLoopModel,
    decision: TuneDecisionV2,
    now: Instant,
    later: Instant,
)
    ensures
        ({
            let once = tuned(state, Some(decision), now);
            tuned(once, Some(decision), later) == once
        }),
{
}

} // verus!

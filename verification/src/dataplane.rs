//! Dataplane admission, timing and batching rules.

pub mod ingress;
pub mod laws;
pub mod route_sync;
pub mod rx;
pub mod tun;
pub mod tx;

use std::collections::VecDeque;

use vstd::prelude::*;

use crate::fec::FecGeometryV2;
use crate::net::PacketInfo;
use crate::num::{clamp_int, clamp_usize, max_int, min_int, sat_u64, sat_usize};
use crate::num::{saturating_mul_u128, u64_from_u128, u64_from_usize};
use crate::time::{Duration, Instant};
use crate::tuning::{CoverTrafficProfileV2, RepairWaitPolicyV2, TuneDecisionV2};

verus! {

/// Shared ordinary-ingress merge budget used by TUN setup and host fq_codel
/// sizing. It is a global byte bound before route dispatch; each adjacency
/// still admits at most 512 KiB into its latency-sensitive scheduler, so this
/// merge boundary does not deepen the paced path queue.
pub const TUN_REGULAR_INPUT_BYTES: usize = 524_288;

/// Records of the regular TUN lane.
pub const TUN_INPUT_SLOTS: usize = 64;

/// Records of the priority TUN lane.
pub const TUN_PRIORITY_INPUT_SLOTS: usize = 128;

/// Bulk bytes at which the scheduler takes no more.
pub const TX_BULK_ADMISSION_HIGH_WATER_BYTES: usize = 524_288;

/// Latency bytes at which the scheduler takes no more.
pub const TX_LATENCY_ADMISSION_HIGH_WATER_BYTES: usize = 131_072;

/// Keep each adjacency's ordinary scheduler admission shallow enough that an
/// inner TCP sender observes the real path rather than the upstream merge
/// burst budget. The hard scheduler limits remain larger for control and
/// repair safety; this is the normal producer watermark, with a separately
/// driven strict-priority path.
pub const TX_APPLICATION_ADMISSION_HIGH_WATER_BYTES: usize = 524_288;

/// Bytes of one admission batch.
pub const TX_ADMISSION_BATCH_BYTES: usize = 131_072;

/// Flow classifiers kept before idle ones are dropped.
pub const MAX_CLASSIFIERS: usize = 65_536;

/// Seconds after which an unused flow classifier is idle.
pub const CLASSIFIER_IDLE_SECS: u64 = 60;

/// Bounds the number of scheduler sends that may overtake a ready strict
/// priority admission. One send is enough to make progress for a preceding
/// TUN batch, while a longer burst would make the reserved ICMP/ACK lane wait
/// behind a full paced quantum sequence on shallow paths.
pub const MAX_SENDS_BETWEEN_PRIORITY_ADMISSIONS: u8 = 1;

/// Who goes first when both are ready.
#[derive(Clone, Copy, Debug, PartialEq, Eq, Structural)]
pub enum PrioritySendTurnV2 {
    PriorityAdmission,
    Send,
}

/// Alternates strict-priority admissions with bounded send bursts.
#[derive(Clone, Copy, Debug, PartialEq, Eq, Structural)]
pub struct PrioritySendArbiterV2 {
    pub sends_since_priority: u8,
}

impl Default for PrioritySendArbiterV2 {
    fn default() -> (r: PrioritySendArbiterV2)
        ensures
            r.sends_since_priority == MAX_SENDS_BETWEEN_PRIORITY_ADMISSIONS,
            r.next() == PrioritySendTurnV2::PriorityAdmission,
    {
        PrioritySendArbiterV2 { sends_since_priority: MAX_SENDS_BETWEEN_PRIORITY_ADMISSIONS }
    }
}

impl PrioritySendArbiterV2 {
    /// Priority goes first once the send burst is used up.
    pub open spec fn spec_next(&self) -> PrioritySendTurnV2 {
        if self.sends_since_priority >= MAX_SENDS_BETWEEN_PRIORITY_ADMISSIONS {
            PrioritySendTurnV2::PriorityAdmission
        } else {
            PrioritySendTurnV2::Send
        }
    }

    /// Priority goes first once the send burst is used up.
    #[verifier::when_used_as_spec(spec_next)]
    pub fn next(&self) -> (r: PrioritySendTurnV2)
        ensures
            r == self.spec_next(),
    {
        if self.sends_since_priority >= MAX_SENDS_BETWEEN_PRIORITY_ADMISSIONS {
            PrioritySendTurnV2::PriorityAdmission
        } else {
            PrioritySendTurnV2::Send
        }
    }

    /// A priority record was admitted: a new send burst begins.
    pub fn admitted_priority(&mut self)
        ensures
            final(self).sends_since_priority == 0,
    {
        self.sends_since_priority = 0;
    }

    /// One scheduler send completed.
    pub fn completed_send(&mut self)
        ensures
            final(self).sends_since_priority == min_int(
                old(self).sends_since_priority + 1,
                u8::MAX as int,
            ),
    {
        self.sends_since_priority = self.sends_since_priority.saturating_add(1);
    }

    /// The arbiter after `sends` completed sends.
    pub open spec fn after_sends(self, sends: nat) -> PrioritySendArbiterV2
        decreases sends,
    {
        if sends == 0 {
            self
        } else {
            let before = self.after_sends((sends - 1) as nat);
            PrioritySendArbiterV2 {
                sends_since_priority: min_int(
                    before.sends_since_priority + 1,
                    u8::MAX as int,
                ) as u8,
            }
        }
    }
}

/// The arbiter right after a priority admission.
pub open spec fn just_admitted() -> PrioritySendArbiterV2 {
    PrioritySendArbiterV2 { sends_since_priority: 0 }
}

/// After a priority admission a send goes first; once the bounded burst has
/// gone out, priority goes first and stays first until it is admitted.
pub proof fn lemma_priority_and_send_both_make_progress(sends: nat)
    ensures
        (just_admitted().after_sends(sends).next() == PrioritySendTurnV2::PriorityAdmission) == (
        sends >= MAX_SENDS_BETWEEN_PRIORITY_ADMISSIONS),
{
    lemma_sends_are_counted(sends);
}

/// Sends after an admission are counted one by one.
proof fn lemma_sends_are_counted(sends: nat)
    ensures
        just_admitted().after_sends(sends).sends_since_priority == min_int(
            sends as int,
            u8::MAX as int,
        ),
    decreases sends,
{
    if sends > 0 {
        lemma_sends_are_counted((sends - 1) as nat);
    }
}

/// The first ready ingress future wins because the TX loops poll in a fixed
/// order. Keep this order as data so the single-peer and mesh loops retain the
/// same ready-race contract.
#[derive(Clone, Copy, Debug, PartialEq, Eq, Structural)]
pub enum IngressReadyOrderV2 {
    PriorityThenSend,
    SendThenPriority,
    PriorityThenSendThenRegular,
    SendThenPriorityThenRegular,
}

impl IngressReadyOrderV2 {
    /// Whether regular ingress is polled at all.
    pub open spec fn polls_regular(self) -> bool {
        self == IngressReadyOrderV2::PriorityThenSendThenRegular || self
            == IngressReadyOrderV2::SendThenPriorityThenRegular
    }

    /// Whether priority ingress is polled before the scheduler send.
    pub open spec fn priority_first(self) -> bool {
        self == IngressReadyOrderV2::PriorityThenSend || self
            == IngressReadyOrderV2::PriorityThenSendThenRegular
    }
}

/// The polling order: a saturated scheduler takes no regular ingress, and
/// regular ingress never overtakes the other two.
pub fn ingress_ready_order(saturated: bool, priority_turn: PrioritySendTurnV2) -> (r:
    IngressReadyOrderV2)
    ensures
        r.polls_regular() == !saturated,
        r.priority_first() == (priority_turn == PrioritySendTurnV2::PriorityAdmission),
{
    match (saturated, priority_turn) {
        (true, PrioritySendTurnV2::PriorityAdmission) => IngressReadyOrderV2::PriorityThenSend,
        (true, PrioritySendTurnV2::Send) => IngressReadyOrderV2::SendThenPriority,
        (
            false,
            PrioritySendTurnV2::PriorityAdmission,
        ) => IngressReadyOrderV2::PriorityThenSendThenRegular,
        (false, PrioritySendTurnV2::Send) => IngressReadyOrderV2::SendThenPriorityThenRegular,
    }
}

/// What one aggregate contributed to the segmentation counters.
#[derive(Clone, Copy, Debug, PartialEq, Eq, Structural)]
pub struct GsoObservationV2 {
    pub input_bytes: u64,
    pub preserved_bytes: u64,
    pub fallback_splits: u64,
}

impl Default for GsoObservationV2 {
    fn default() -> (r: GsoObservationV2)
        ensures
            r == GsoObservationV2::none(),
    {
        GsoObservationV2 { input_bytes: 0, preserved_bytes: 0, fallback_splits: 0 }
    }
}

impl GsoObservationV2 {
    /// Nothing was observed.
    pub open spec fn none() -> GsoObservationV2 {
        GsoObservationV2 { input_bytes: 0, preserved_bytes: 0, fallback_splits: 0 }
    }

    /// The sum of two observations, each count cut off at the largest one.
    pub open spec fn plus(self, other: GsoObservationV2) -> GsoObservationV2 {
        GsoObservationV2 {
            input_bytes: sat_u64(self.input_bytes + other.input_bytes) as u64,
            preserved_bytes: sat_u64(self.preserved_bytes + other.preserved_bytes) as u64,
            fallback_splits: sat_u64(self.fallback_splits + other.fallback_splits) as u64,
        }
    }

    /// The sum of two observations, each count cut off at the largest one.
    pub fn merged(self, other: GsoObservationV2) -> (r: GsoObservationV2)
        ensures
            r == self.plus(other),
    {
        GsoObservationV2 {
            input_bytes: self.input_bytes.saturating_add(other.input_bytes),
            preserved_bytes: self.preserved_bytes.saturating_add(other.preserved_bytes),
            fallback_splits: self.fallback_splits.saturating_add(other.fallback_splits),
        }
    }
}

/// A raw TUN record plus its byte-budget ownership. Slot-bounded channels are
/// insufficient here because one slot may hold either a 60-byte ACK or a
/// 65-KiB GSO record. The permits stay attached until the dispatcher actually
/// consumes the record, making the admission edge byte-bounded without a
/// second queue-length state machine. A one-shot GSO observation follows the
/// first admitted segment so mesh routing can charge the original aggregate
/// to the selected adjacency.
#[derive(Clone, Debug)]
pub struct TunIngressRecordV2 {
    pub bytes: Vec<u8>,
    pub info: PacketInfo,
    pub gso: GsoObservationV2,
    /// Budget bytes that this record holds.
    pub permits: usize,
}

impl TunIngressRecordV2 {
    /// A priority record holds no budget.
    pub fn priority(bytes: Vec<u8>, info: PacketInfo) -> (r: TunIngressRecordV2)
        ensures
            r == (TunIngressRecordV2 {
                bytes,
                info,
                gso: GsoObservationV2::none(),
                permits: 0,
            }),
    {
        TunIngressRecordV2 { bytes, info, gso: GsoObservationV2::default(), permits: 0 }
    }

    /// A regular record holds the budget it was admitted with.
    pub fn regular(bytes: Vec<u8>, info: PacketInfo, permits: usize) -> (r: TunIngressRecordV2)
        ensures
            r == (TunIngressRecordV2 { bytes, info, gso: GsoObservationV2::none(), permits }),
    {
        TunIngressRecordV2 { bytes, info, gso: GsoObservationV2::default(), permits }
    }

    /// The same record with another observation.
    pub fn with_gso_observation(self, gso: GsoObservationV2) -> (r: TunIngressRecordV2)
        ensures
            r == (TunIngressRecordV2 { gso, ..self }),
    {
        TunIngressRecordV2 { bytes: self.bytes, info: self.info, gso, permits: self.permits }
    }

    /// Bytes of the record.
    pub open spec fn spec_len(&self) -> usize {
        self.bytes.len()
    }

    /// Bytes of the record.
    #[verifier::when_used_as_spec(spec_len)]
    pub fn len(&self) -> (r: usize)
        ensures
            r == self.spec_len(),
    {
        self.bytes.len()
    }
}

/// Bytes of a run of records.
pub open spec fn total_bytes(records: Seq<TunIngressRecordV2>) -> int
    decreases records.len(),
{
    if records.len() == 0 {
        0
    } else {
        total_bytes(records.drop_last()) + records.last().bytes.len()
    }
}

/// How many records one batch takes: the longest run from the front within
/// both bounds, but never none where one may be taken.
pub open spec fn is_batch_length(
    pending: Seq<TunIngressRecordV2>,
    maximum_records: int,
    maximum_bytes: int,
    taken: int,
) -> bool {
    &&& 0 <= taken <= pending.len()
    &&& taken <= maximum_records
    &&& taken > 1 ==> sat_usize(total_bytes(pending.take(taken))) <= maximum_bytes
    &&& {
        ||| taken == pending.len()
        ||| taken == maximum_records
        ||| taken > 0 && sat_usize(total_bytes(pending.take(taken + 1))) > maximum_bytes
    }
}

/// Take one bounded batch from the front. The head record always makes
/// progress, whatever its size.
pub fn drain_tun_ingress_batch(
    pending: &mut VecDeque<TunIngressRecordV2>,
    maximum_records: usize,
    maximum_bytes: usize,
) -> (r: Vec<TunIngressRecordV2>)
    ensures
        is_batch_length(
            old(pending)@,
            maximum_records as int,
            maximum_bytes as int,
            r@.len() as int,
        ),
        r@ == old(pending)@.take(r@.len() as int),
        final(pending)@ == old(pending)@.skip(r@.len() as int),
{
    let mut output: Vec<TunIngressRecordV2> = Vec::new();
    let mut bytes: usize = 0;
    assert(pending@.skip(0) =~= pending@);
    while output.len() < maximum_records
        invariant_except_break
            output.len() <= maximum_records,
            output@.len() <= old(pending)@.len(),
            output@ == old(pending)@.take(output@.len() as int),
            pending@ == old(pending)@.skip(output@.len() as int),
            bytes == sat_usize(total_bytes(output@)),
            total_bytes(output@) >= 0,
            output@.len() > 1 ==> bytes <= maximum_bytes,
        ensures
            is_batch_length(
                old(pending)@,
                maximum_records as int,
                maximum_bytes as int,
                output@.len() as int,
            ),
            output@ == old(pending)@.take(output@.len() as int),
            pending@ == old(pending)@.skip(output@.len() as int),
        decreases maximum_records - output.len(),
    {
        if pending.len() == 0 {
            break;
        }
        let next_len: usize = pending[0].len();
        proof {
            let n = output@.len() as int;
            assert(pending@[0] == old(pending)@[n]);
            assert(old(pending)@.take(n + 1).drop_last() =~= old(pending)@.take(n));
        }
        if output.len() != 0 && bytes.saturating_add(next_len) > maximum_bytes {
            break;
        }
        match pending.pop_front() {
            Some(next) => {
                bytes = bytes.saturating_add(next.len());
                output.push(next);
                proof {
                    let n = output@.len() as int;
                    assert(output@ =~= old(pending)@.take(n));
                    assert(pending@ =~= old(pending)@.skip(n));
                    assert(output@.drop_last() =~= old(pending)@.take(n - 1));
                }
            },
            None => {
                break;
            },
        }
    }
    output
}

/// Draining in batches neither loses, repeats nor reorders a record, and a
/// batch that may take one record never takes none.
pub proof fn lemma_batches_preserve_records_and_head_progress(
    pending: Seq<TunIngressRecordV2>,
    maximum_records: int,
    maximum_bytes: int,
    taken: int,
)
    requires
        is_batch_length(pending, maximum_records, maximum_bytes, taken),
    ensures
        pending.take(taken) + pending.skip(taken) == pending,
        maximum_records > 0 && pending.len() > 0 ==> taken >= 1,
{
    assert(pending.take(taken) + pending.skip(taken) =~= pending);
}

/// Automatically derived cover-traffic budget of one adjacency.
#[derive(Clone, Copy, Debug, PartialEq, Eq, Structural)]
pub struct CoverShaperV2 {
    pub profile: CoverTrafficProfileV2,
    pub bytes_per_second: u64,
    pub tokens: u64,
    pub updated_at: Instant,
}

impl CoverShaperV2 {
    /// At most 100 ms of the automatically derived budget may accumulate;
    /// this prevents a low-rate flow from later emitting a cover burst.
    pub open spec fn token_bound(bytes_per_second: u64) -> int {
        max_int(bytes_per_second as int / 10, 2_048)
    }

    /// The shaper never holds more than its bound.
    pub open spec fn wf(&self) -> bool {
        self.tokens <= Self::token_bound(self.bytes_per_second)
    }

    /// Whether the shaper may emit cover at all.
    pub open spec fn spec_active(&self) -> bool {
        self.bytes_per_second != 0 && self.profile != CoverTrafficProfileV2::Idle
    }

    /// The shaper after time has passed.
    pub open spec fn refilled(self, now: Instant) -> CoverShaperV2 {
        CoverShaperV2 {
            tokens: if self.bytes_per_second == 0 {
                self.tokens
            } else {
                min_int(
                    sat_u64(
                        self.tokens + sat_u64(
                            min_int(
                                self.bytes_per_second * now.since(self.updated_at),
                                u128::MAX as int,
                            ) / 1_000_000_000,
                        ),
                    ),
                    Self::token_bound(self.bytes_per_second),
                ) as u64
            },
            updated_at: now,
            ..self
        }
    }

    /// The shaper under a new decision.
    pub open spec fn retuned(self, decision: TuneDecisionV2, now: Instant) -> CoverShaperV2 {
        let refilled = self.refilled(now);
        let rate = decision.cover_padding_bytes_per_second;
        CoverShaperV2 {
            profile: decision.cover_profile,
            bytes_per_second: rate,
            tokens: if rate == 0 || decision.cover_profile == CoverTrafficProfileV2::Idle {
                0
            } else {
                min_int(refilled.tokens as int, Self::token_bound(rate)) as u64
            },
            updated_at: now,
        }
    }

    /// An idle shaper.
    pub fn new(now: Instant) -> (r: CoverShaperV2)
        ensures
            r == (CoverShaperV2 {
                profile: CoverTrafficProfileV2::Idle,
                bytes_per_second: 0,
                tokens: 0,
                updated_at: now,
            }),
            r.wf(),
    {
        CoverShaperV2 {
            profile: CoverTrafficProfileV2::Idle,
            bytes_per_second: 0,
            tokens: 0,
            updated_at: now,
        }
    }

    /// Whether the shaper may emit cover at all.
    #[verifier::when_used_as_spec(spec_active)]
    pub fn active(&self) -> (r: bool)
        ensures
            r == self.spec_active(),
    {
        self.bytes_per_second != 0 && self.profile != CoverTrafficProfileV2::Idle
    }

    /// Take over a new decision.
    pub fn update(&mut self, decision: TuneDecisionV2, now: Instant)
        ensures
            *final(self) == old(self).retuned(decision, now),
            final(self).wf(),
    {
        self.refill(now);
        self.profile = decision.cover_profile;
        self.bytes_per_second = decision.cover_padding_bytes_per_second;
        if self.bytes_per_second == 0 || self.profile == CoverTrafficProfileV2::Idle {
            self.tokens = 0;
        } else {
            self.tokens = self.tokens.min(self.maximum_tokens());
        }
    }

    /// Whether a padding of `target` bytes is due after real traffic went out.
    /// An inactive shaper does not even account for the time that passed.
    pub fn padding_due(&mut self, target: usize, now: Instant) -> (r: bool)
        ensures
            *final(self) == if old(self).active() {
                old(self).refilled(now)
            } else {
                *old(self)
            },
            r == (old(self).active() && final(self).tokens >= target),
    {
        if !self.active() {
            return false;
        }
        self.refill(now);
        self.tokens >= u64_from_usize(target)
    }

    /// Charge a padding that the scheduler accepted.
    pub fn padding_accepted(&mut self, target: usize) -> (r: usize)
        requires
            old(self).tokens >= target,
        ensures
            *final(self) == (CoverShaperV2 {
                tokens: (old(self).tokens - target) as u64,
                ..*old(self)
            }),
            r == target,
            old(self).wf() ==> final(self).wf(),
    {
        self.tokens = self.tokens - target as u64;
        target
    }

    /// Account for the time that passed.
    fn refill(&mut self, now: Instant)
        ensures
            *final(self) == old(self).refilled(now),
    {
        let elapsed: Duration = now.saturating_duration_since(self.updated_at);
        self.updated_at = now;
        if self.bytes_per_second == 0 {
            return;
        }
        let added: u128 = saturating_mul_u128(self.bytes_per_second as u128, elapsed.nanos)
            / 1_000_000_000;
        self.tokens = self.tokens.saturating_add(u64_from_u128(added)).min(self.maximum_tokens());
    }

    /// The most that may accumulate.
    fn maximum_tokens(&self) -> (r: u64)
        ensures
            r == Self::token_bound(self.bytes_per_second),
    {
        (self.bytes_per_second / 10).max(2_048)
    }
}

/// However long a flow was silent, the next cover burst is bounded by a tenth
/// of a second of budget, and no interval adds more than its own share.
pub proof fn lemma_cover_burst_is_bounded(shaper: CoverShaperV2, now: Instant)
    requires
        shaper.wf(),
    ensures
        shaper.refilled(now).wf(),
        shaper.refilled(now).tokens <= shaper.tokens + shaper.bytes_per_second * now.since(
            shaper.updated_at,
        ) / 1_000_000_000,
{
    let grown = shaper.bytes_per_second * now.since(shaper.updated_at);
    assert(grown >= 0) by (nonlinear_arith)
        requires
            grown == shaper.bytes_per_second * now.since(shaper.updated_at),
            now.since(shaper.updated_at) >= 0,
    ;
}

/// Queued bytes of a scheduler.
#[derive(Clone, Copy, Debug, PartialEq, Eq, Structural)]
pub struct SchedulerDepth {
    pub bulk_bytes: usize,
    pub latency_bytes: usize,
    pub control_bytes: usize,
}

impl Default for SchedulerDepth {
    fn default() -> (r: SchedulerDepth)
        ensures
            r == (SchedulerDepth { bulk_bytes: 0, latency_bytes: 0, control_bytes: 0 }),
    {
        SchedulerDepth { bulk_bytes: 0, latency_bytes: 0, control_bytes: 0 }
    }
}

/// Hard memory limits of a scheduler.
#[derive(Clone, Copy, Debug, PartialEq, Eq, Structural)]
pub struct SchedulerLimits {
    pub application_bytes: usize,
}

impl Default for SchedulerLimits {
    /// Room above the producer watermark for one overshooting GSO record at the
    /// strongest automatic FEC, with its Cell envelopes.
    fn default() -> (r: SchedulerLimits)
        ensures
            r.application_bytes == 1_048_576,
    {
        SchedulerLimits { application_bytes: 1_048_576 }
    }
}

/// The producer watermark of an adjacency whose transport buffers at most
/// `datagram_send_buffer_limit` bytes.
pub fn tx_admission_high_water(datagram_send_buffer_limit: usize) -> (r: usize)
    ensures
        r == clamp_int(
            datagram_send_buffer_limit as int,
            TX_ADMISSION_BATCH_BYTES as int,
            TX_APPLICATION_ADMISSION_HIGH_WATER_BYTES as int,
        ),
{
    clamp_usize(
        datagram_send_buffer_limit,
        TX_ADMISSION_BATCH_BYTES,
        TX_APPLICATION_ADMISSION_HIGH_WATER_BYTES,
    )
}

/// The scheduler takes no more regular records.
pub open spec fn is_saturated(depth: SchedulerDepth, high_water: usize) -> bool {
    ||| depth.bulk_bytes >= min_int(TX_BULK_ADMISSION_HIGH_WATER_BYTES as int, high_water as int)
    ||| depth.latency_bytes >= min_int(
        TX_LATENCY_ADMISSION_HIGH_WATER_BYTES as int,
        high_water as int,
    )
    ||| sat_usize(depth.bulk_bytes + depth.latency_bytes) >= high_water
}

/// The scheduler takes no more regular records.
pub fn admission_saturated(depth: SchedulerDepth, application_high_water: usize) -> (r: bool)
    ensures
        r == is_saturated(depth, application_high_water),
{
    depth.bulk_bytes >= TX_BULK_ADMISSION_HIGH_WATER_BYTES.min(application_high_water)
        || depth.latency_bytes >= TX_LATENCY_ADMISSION_HIGH_WATER_BYTES.min(
        application_high_water,
    ) || depth.bulk_bytes.saturating_add(depth.latency_bytes) >= application_high_water
}

/// More queued bytes never make room, and a lower watermark never does.
pub proof fn lemma_saturation_is_monotone(
    depth: SchedulerDepth,
    deeper: SchedulerDepth,
    high_water: usize,
    lower: usize,
)
    requires
        depth.bulk_bytes <= deeper.bulk_bytes,
        depth.latency_bytes <= deeper.latency_bytes,
        lower <= high_water,
        is_saturated(depth, high_water),
    ensures
        is_saturated(deeper, lower),
{
}

/// Bytes that a regular batch may add below the watermark.
pub fn admission_headroom(depth: SchedulerDepth, high_water: usize) -> (r: usize)
    ensures
        r == min_int(
            max_int(high_water - sat_usize(depth.bulk_bytes + depth.latency_bytes), 0),
            TX_ADMISSION_BATCH_BYTES as int,
        ),
{
    high_water.saturating_sub(depth.bulk_bytes.saturating_add(depth.latency_bytes)).min(
        TX_ADMISSION_BATCH_BYTES,
    )
}

/// QUIC DATAGRAM delivery, PacketTrain scheduling and a shallow policer can
/// reorder Cells across several scheduler/ACK rounds even on a 3-6 ms path. A
/// 10 ms floor would treat that harmless delay as loss and send reliable
/// responses into the same bottleneck. Eight RTTs with a 50 ms floor still
/// beats the inner TCP RTO, while forward progress restarts this grace period
/// and the ceiling keeps Repair useful after migration.
pub fn repair_minimum_age_for_rtt(rtt: Duration) -> (r: Duration)
    ensures
        r.nanos == clamp_int(rtt.nanos * 8, 50_000_000, 1_000_000_000),
{
    rtt.saturating_mul(8).at_least(Duration::from_millis(50)).at_most(Duration::from_secs(1))
}

/// The wait before a gap is repaired under a policy.
pub open spec fn repair_wait(base_nanos: int, policy: RepairWaitPolicyV2) -> int {
    match policy {
        RepairWaitPolicyV2::Eager => base_nanos / 2,
        RepairWaitPolicyV2::Patient => min_int(base_nanos * 2, 2_000_000_000),
        RepairWaitPolicyV2::HostDefault | RepairWaitPolicyV2::AfterFecWindow => base_nanos,
    }
}

/// The wait that a policy asks for, given what telemetry last measured.
pub fn adaptive_repair_minimum_age(
    repair_minimum_age_micros: u64,
    repair_wait_policy_code: u8,
) -> (r: Duration)
    ensures
        r.nanos == repair_wait(
            if repair_minimum_age_micros == 0 {
                100_000_000
            } else {
                repair_minimum_age_micros * 1_000
            },
            RepairWaitPolicyV2::spec_from_metrics_code(repair_wait_policy_code),
        ),
{
    let base: Duration = if repair_minimum_age_micros == 0 {
        Duration::from_millis(100)
    } else {
        Duration::from_micros(repair_minimum_age_micros)
    };
    match RepairWaitPolicyV2::from_metrics_code(repair_wait_policy_code) {
        RepairWaitPolicyV2::Eager => base.div(2),
        // Doubling the RTT-derived wait adds roughly one RTT of reorder
        // tolerance; the ceiling keeps Repair responsive after migration.
        RepairWaitPolicyV2::Patient => base.saturating_mul(2).at_most(Duration::from_secs(2)),
        RepairWaitPolicyV2::HostDefault | RepairWaitPolicyV2::AfterFecWindow => base,
    }
}

/// The part of a decision that the transmitter acts on.
#[derive(Clone, Copy, Debug, PartialEq, Eq, Structural)]
pub struct EffectiveTuneV2 {
    pub train_target_bytes: usize,
    pub bulk_quantum_cells: usize,
    pub fec: Option<FecGeometryV2>,
    pub repair_cache_bytes: usize,
    pub repair_retention_millis: u32,
    pub send_buffer_bytes: usize,
    pub receive_batch: usize,
    pub cover_profile: CoverTrafficProfileV2,
    pub cover_overhead_per_mille: u16,
    pub cover_padding_bytes_per_second: u64,
}

impl EffectiveTuneV2 {
    /// The part of `decision` that the transmitter acts on.
    pub open spec fn of(decision: TuneDecisionV2) -> EffectiveTuneV2 {
        EffectiveTuneV2 {
            train_target_bytes: decision.train_target_bytes,
            bulk_quantum_cells: decision.bulk_quantum_cells,
            fec: decision.fec,
            repair_cache_bytes: decision.repair_cache_bytes,
            repair_retention_millis: decision.repair_retention_millis,
            send_buffer_bytes: decision.send_buffer_bytes,
            receive_batch: decision.receive_batch,
            cover_profile: decision.cover_profile,
            cover_overhead_per_mille: decision.cover_overhead_per_mille,
            cover_padding_bytes_per_second: decision.cover_padding_bytes_per_second,
        }
    }
}

/// The part of `decision` that the transmitter acts on.
pub fn effective_tx_tuning(decision: TuneDecisionV2) -> (r: EffectiveTuneV2)
    ensures
        r == EffectiveTuneV2::of(decision),
{
    EffectiveTuneV2 {
        train_target_bytes: decision.train_target_bytes,
        bulk_quantum_cells: decision.bulk_quantum_cells,
        fec: decision.fec,
        repair_cache_bytes: decision.repair_cache_bytes,
        repair_retention_millis: decision.repair_retention_millis,
        send_buffer_bytes: decision.send_buffer_bytes,
        receive_batch: decision.receive_batch,
        cover_profile: decision.cover_profile,
        cover_overhead_per_mille: decision.cover_overhead_per_mille,
        cover_padding_bytes_per_second: decision.cover_padding_bytes_per_second,
    }
}

/// Whether the transmitter has to be retuned.
pub fn retune_required(applied: Option<TuneDecisionV2>, decision: TuneDecisionV2) -> (r: bool)
    ensures
        r == match applied {
            Some(current) => EffectiveTuneV2::of(current) != EffectiveTuneV2::of(decision),
            None => true,
        },
{
    match applied {
        Some(current) => effective_tx_tuning(current) != effective_tx_tuning(decision),
        None => true,
    }
}

} // verus!

//! What admission, polling, cover shaping and reception must do, case by case.

use vstd::prelude::*;

use super::ingress::{
    first_probe, flow_place, held_permits, is_numbered, recent_flows, touched, FlowSeenV2,
    TrainItemV2, TrainRecordV2, TunIngressBatchV2,
};
use super::route_sync::{prefixes_outside, sync_commands};
use super::rx::{
    peer_received, record_bytes, with_metadata, wrapped, CompletedRecordV2, PeerDatagramV2,
    PeerRxErrorV2, PeerRxModel,
};
use super::tun::{
    base_gso_type, exceeds_mtu, fallback_observation, headerless, is_known_gso_type, must_split,
    TunAdmissionErrorV2, TunLanesState, TunSegmentV2,
};
use super::tx::{after_send, poll_sequence, retunes, tuned, SendProgressV2, TxLoopModel, TxPollV2};
use super::{
    is_batch_length, is_saturated, repair_wait, total_bytes, CoverShaperV2, GsoObservationV2,
    PrioritySendArbiterV2, PrioritySendTurnV2, SchedulerDepth, TunIngressRecordV2,
};
use crate::host_network::kernel::{
    delete_route_in_command, replace_route_command, KernelRoutePolicyV2,
};
use crate::net::{FlowKey, IpNet, PacketInfo};
use crate::time::{Duration, Instant};
use crate::tuning::{CoverTrafficProfileV2, RepairWaitPolicyV2, TuneDecisionV2};

verus! {

/// One send may pass before priority traffic gets its turn.
pub proof fn lemma_priority_follows_every_send(arbiter: PrioritySendArbiterV2)
    ensures
        arbiter.sends_since_priority == 0 ==> arbiter.next() == PrioritySendTurnV2::Send,
        arbiter.sends_since_priority >= 1 ==> arbiter.next()
            == PrioritySendTurnV2::PriorityAdmission,
{
}

/// Admission is saturated from 512 KiB of Bulk, from 128 KiB of latency traffic,
/// and from the watermark in either or both together; below all of these it is
/// not.
pub proof fn lemma_saturation_has_three_marks(depth: SchedulerDepth, high_water: usize)
    requires
        depth.bulk_bytes + depth.latency_bytes <= usize::MAX,
    ensures
        depth.bulk_bytes >= 524_288 ==> is_saturated(depth, high_water),
        depth.latency_bytes >= 131_072 ==> is_saturated(depth, high_water),
        depth.bulk_bytes + depth.latency_bytes >= high_water ==> is_saturated(depth, high_water),
        depth.bulk_bytes < 524_288 && depth.latency_bytes < 131_072 && depth.bulk_bytes
            + depth.latency_bytes < high_water ==> !is_saturated(depth, high_water),
{
}

/// A batch stops only where nothing is left, where it is full, or where the next
/// record would exceed its bytes; a single record may be larger than those.
pub proof fn lemma_batches_stop_only_where_they_must(
    pending: Seq<TunIngressRecordV2>,
    maximum_records: int,
    maximum_bytes: int,
    taken: int,
)
    requires
        is_batch_length(pending, maximum_records, maximum_bytes, taken),
        total_bytes(pending) <= usize::MAX,
    ensures
        0 <= taken <= pending.len(),
        taken <= maximum_records,
        taken > 1 ==> total_bytes(pending.take(taken)) <= maximum_bytes,
        pending.len() > 0 && maximum_records > 0 ==> taken > 0,
        taken < pending.len() && taken < maximum_records ==> total_bytes(pending.take(taken + 1))
            > maximum_bytes,
{
    lemma_prefix_bytes(pending, taken);
    if taken < pending.len() {
        lemma_prefix_bytes(pending, taken + 1);
    }
}

/// A prefix holds no more bytes than the whole.
proof fn lemma_prefix_bytes(records: Seq<TunIngressRecordV2>, count: int)
    requires
        0 <= count <= records.len(),
    ensures
        0 <= total_bytes(records.take(count)) <= total_bytes(records),
    decreases records.len(),
{
    if count == records.len() {
        assert(records.take(count) =~= records);
        if records.len() > 0 {
            lemma_prefix_bytes(records.drop_last(), records.len() - 1);
            assert(records.drop_last().take(records.len() - 1) =~= records.drop_last());
        }
    } else {
        lemma_prefix_bytes(records.drop_last(), count);
        assert(records.drop_last().take(count) =~= records.take(count));
    }
}

/// The bytes of a run grow by each record's own.
pub proof fn lemma_bytes_add_up(records: Seq<TunIngressRecordV2>, record: TunIngressRecordV2)
    ensures
        total_bytes(records.push(record)) == total_bytes(records) + record.bytes@.len(),
        total_bytes(Seq::<TunIngressRecordV2>::empty()) == 0,
{
    assert(records.push(record).drop_last() =~= records);
}

/// An eager gap waits half its base, a patient one twice, but at most two
/// seconds, and every other one the base itself.
pub proof fn lemma_repair_waits_by_policy(base_nanos: int)
    requires
        base_nanos >= 0,
    ensures
        repair_wait(base_nanos, RepairWaitPolicyV2::Eager) == base_nanos / 2,
        2 * base_nanos <= 2_000_000_000 ==> repair_wait(base_nanos, RepairWaitPolicyV2::Patient)
            == 2 * base_nanos,
        2 * base_nanos > 2_000_000_000 ==> repair_wait(base_nanos, RepairWaitPolicyV2::Patient)
            == 2_000_000_000,
        repair_wait(base_nanos, RepairWaitPolicyV2::HostDefault) == base_nanos,
        repair_wait(base_nanos, RepairWaitPolicyV2::AfterFecWindow) == base_nanos,
        RepairWaitPolicyV2::spec_from_metrics_code(1) == RepairWaitPolicyV2::Eager,
        RepairWaitPolicyV2::spec_from_metrics_code(2) == RepairWaitPolicyV2::AfterFecWindow,
        RepairWaitPolicyV2::spec_from_metrics_code(3) == RepairWaitPolicyV2::Patient,
        forall|code: u8|
            code == 0 || code > 3 ==> #[trigger] RepairWaitPolicyV2::spec_from_metrics_code(code)
                == RepairWaitPolicyV2::HostDefault,
{
}

/// Cover tokens grow with time at the padding rate and stop at a tenth of a
/// second's worth, but not below 2,048; without a rate they do not grow.
pub proof fn lemma_cover_tokens_follow_the_rate(shaper: CoverShaperV2, now: Instant)
    requires
        shaper.bytes_per_second <= 1_000_000_000_000,
        shaper.tokens <= 1_000_000_000_000,
        now.since(shaper.updated_at) <= 1_000_000_000_000_000,
    ensures
        ({
            let after = shaper.refilled(now);
            let elapsed = if now.nanos >= shaper.updated_at.nanos {
                now.nanos - shaper.updated_at.nanos
            } else {
                0
            };
            let earned = shaper.bytes_per_second * elapsed / 1_000_000_000;
            let bound: int = if shaper.bytes_per_second as int / 10 >= 2_048 {
                shaper.bytes_per_second as int / 10
            } else {
                2_048
            };
            &&& after.updated_at == now
            &&& after.bytes_per_second == shaper.bytes_per_second
            &&& after.profile == shaper.profile
            &&& shaper.bytes_per_second == 0 ==> after.tokens == shaper.tokens
            &&& shaper.bytes_per_second != 0 && shaper.tokens + earned <= bound ==> after.tokens
                == shaper.tokens + earned
            &&& shaper.bytes_per_second != 0 && shaper.tokens + earned > bound ==> after.tokens
                == bound
        }),
{
    let rate = shaper.bytes_per_second as int;
    let elapsed = now.since(shaper.updated_at);
    assert(0 <= rate * elapsed <= 1_000_000_000_000 * 1_000_000_000_000_000) by (nonlinear_arith)
        requires
            0 <= rate <= 1_000_000_000_000,
            0 <= elapsed <= 1_000_000_000_000_000,
    ;
}

/// A decision sets profile and rate of the cover; an idle profile or no rate
/// drops every token, and a lower rate drops those beyond its bound.
pub proof fn lemma_cover_follows_the_decision(
    shaper: CoverShaperV2,
    decision: TuneDecisionV2,
    now: Instant,
)
    ensures
        ({
            let after = shaper.retuned(decision, now);
            let rate = decision.cover_padding_bytes_per_second;
            &&& after.profile == decision.cover_profile
            &&& after.bytes_per_second == rate
            &&& after.updated_at == now
            &&& rate == 0 || decision.cover_profile == CoverTrafficProfileV2::Idle ==> after.tokens
                == 0
            &&& after.tokens <= 2_048 || after.tokens <= rate as int / 10
            &&& after.active() == (rate != 0 && decision.cover_profile
                != CoverTrafficProfileV2::Idle)
        }),
{
}

/// The order in which a busy loop polls: tuning first, then priority ingress
/// before or behind sending as its turn is, then regular ingress unless a
/// saturated scheduler has something to send; an idle loop takes priority
/// ingress first. Control comes last.
pub proof fn lemma_polls_come_in_order(
    pending: bool,
    deferred: bool,
    saturated: bool,
    turn: PrioritySendTurnV2,
    control: bool,
)
    ensures
        ({
            let order = poll_sequence(pending, deferred, saturated, turn, control);
            let busy = pending || deferred;
            let first = turn == PrioritySendTurnV2::PriorityAdmission;
            let t = TxPollV2::Tuning;
            let p = TxPollV2::Priority;
            let s = TxPollV2::Send;
            let r = TxPollV2::Regular;
            let c = TxPollV2::Control;
            &&& !busy && !control ==> order == seq![p, t, r]
            &&& !busy && control ==> order == seq![p, t, r, c]
            &&& pending && saturated && first && !control ==> order == seq![t, p, s]
            &&& pending && saturated && first && control ==> order == seq![t, p, s, c]
            &&& pending && saturated && !first && !control ==> order == seq![t, s, p]
            &&& pending && saturated && !first && control ==> order == seq![t, s, p, c]
            &&& busy && !(pending && saturated) && first && !control ==> order == seq![t, p, s, r]
            &&& busy && !(pending && saturated) && first && control ==> order == seq![
                t,
                p,
                s,
                r,
                c,
            ]
            &&& busy && !(pending && saturated) && !first && !control ==> order == seq![t, s, p, r]
            &&& busy && !(pending && saturated) && !first && control ==> order == seq![
                t,
                s,
                p,
                r,
                c,
            ]
        }),
{
    let order = poll_sequence(pending, deferred, saturated, turn, control);
}

/// A send counts for the arbiter, and for each counter exactly its own share:
/// payload only where real traffic left.
pub proof fn lemma_sends_are_counted_apart(state: TxLoopModel, progress: SendProgressV2)
    requires
        state.counters.real_tx_bytes < 0x8000_0000_0000_0000,
        state.counters.cover_tx_bytes < 0x8000_0000_0000_0000,
        state.counters.pmtu_drop_bytes < 0x8000_0000_0000_0000,
        state.counters.pmtu_drop_datagrams < 0x8000_0000_0000_0000,
        progress.bytes < 0x8000_0000_0000_0000,
        progress.cover_padding_bytes < 0x8000_0000_0000_0000,
        progress.dropped_bytes < 0x8000_0000_0000_0000,
        progress.dropped_datagrams < 0x8000_0000_0000_0000,
    ensures
        ({
            let after = after_send(state, Some(progress));
            &&& state.arbiter.sends_since_priority < 255 ==> after.arbiter.sends_since_priority
                == state.arbiter.sends_since_priority + 1
            &&& progress.class is Some ==> after.counters.real_tx_bytes
                == state.counters.real_tx_bytes + progress.bytes
            &&& progress.class is None ==> after.counters.real_tx_bytes
                == state.counters.real_tx_bytes
            &&& after.counters.cover_tx_bytes == state.counters.cover_tx_bytes
                + progress.cover_padding_bytes
            &&& after.counters.pmtu_drop_bytes == state.counters.pmtu_drop_bytes
                + progress.dropped_bytes
            &&& after.counters.pmtu_drop_datagrams == state.counters.pmtu_drop_datagrams
                + progress.dropped_datagrams
            &&& after.deferred == state.deferred
            &&& after.applied == state.applied
            &&& after.receive_batch == state.receive_batch
            &&& after_send(state, None).counters == state.counters
        }),
{
}

/// A decision retunes the scheduler where any field that it applies differs from
/// the decision in effect; the receive batch is taken over either way.
pub proof fn lemma_retuning_follows_the_applied_fields(
    state: TxLoopModel,
    decision: TuneDecisionV2,
    now: Instant,
)
    ensures
        ({
            let after = tuned(state, Some(decision), now);
            &&& after.receive_batch == decision.receive_batch
            &&& state.applied is None ==> after.applied == Some(decision)
            &&& tuned(state, None, now) == state
            &&& state.applied matches Some(current) ==> {
                let same = current.train_target_bytes == decision.train_target_bytes
                    && current.bulk_quantum_cells == decision.bulk_quantum_cells && current.fec
                    == decision.fec && current.repair_cache_bytes == decision.repair_cache_bytes
                    && current.repair_retention_millis == decision.repair_retention_millis
                    && current.send_buffer_bytes == decision.send_buffer_bytes
                    && current.receive_batch == decision.receive_batch && current.cover_profile
                    == decision.cover_profile && current.cover_overhead_per_mille
                    == decision.cover_overhead_per_mille && current.cover_padding_bytes_per_second
                    == decision.cover_padding_bytes_per_second;
                &&& retunes(state.applied, decision) == !same
                &&& same ==> after.applied == state.applied && after.shaper == state.shaper
                &&& !same ==> after.applied == Some(decision) && after.shaper.profile
                    == decision.cover_profile && after.shaper.bytes_per_second
                    == decision.cover_padding_bytes_per_second
            }
        }),
{
}

/// A record exceeds the MTU where its packet, without the ten bytes of header
/// in front, is longer than it.
pub proof fn lemma_mtu_counts_the_packet_alone(record_len: int, tun_mtu: u16)
    ensures
        exceeds_mtu(record_len, tun_mtu) == (record_len > tun_mtu + 10),
{
}

/// Only an aggregate is split, and only where regular admission is overloaded or
/// it exceeds the MTU.
pub proof fn lemma_only_aggregates_are_split(
    record_len: int,
    tun_mtu: u16,
    gso_type: u8,
    overloaded: bool,
)
    ensures
        gso_type == 0 ==> !must_split(record_len, tun_mtu, gso_type, overloaded),
        gso_type != 0 && overloaded ==> must_split(record_len, tun_mtu, gso_type, overloaded),
        gso_type != 0 && record_len > tun_mtu + 10 ==> must_split(
            record_len,
            tun_mtu,
            gso_type,
            overloaded,
        ),
        !overloaded && record_len <= tun_mtu + 10 ==> !must_split(
            record_len,
            tun_mtu,
            gso_type,
            overloaded,
        ),
{
}

/// The known aggregates are none, TCP over IPv4 or IPv6 and UDP; the top bit of a
/// type says nothing of that.
pub proof fn lemma_known_aggregates(gso_type: u8)
    ensures
        is_known_gso_type(gso_type) == (gso_type == 0 || gso_type == 1 || gso_type == 4 || gso_type
            == 5),
        gso_type < 128 ==> base_gso_type(gso_type) == gso_type,
        gso_type >= 128 ==> base_gso_type(gso_type) == gso_type - 128,
{
}

/// A split counts all bytes of its input as one fallback and preserves none.
pub proof fn lemma_split_is_one_fallback(input_bytes: int)
    requires
        0 <= input_bytes <= u64::MAX,
    ensures
        fallback_observation(input_bytes).input_bytes == input_bytes,
        fallback_observation(input_bytes).preserved_bytes == 0,
        fallback_observation(input_bytes).fallback_splits == 1,
{
}

/// A segment's record is ten zero bytes and the packet.
pub proof fn lemma_segment_has_an_empty_header(packet: Seq<u8>)
    ensures
        headerless(packet).len() == 10 + packet.len(),
        forall|i: int| 0 <= i < 10 ==> #[trigger] headerless(packet)[i] == 0,
        headerless(packet).skip(10) == packet,
{
    assert(headerless(packet).skip(10) =~= packet);
}

/// A regular record is admitted exactly where the budget holds its bytes, the
/// lane is open and has a slot: it then stands last in the lane, holds its
/// length of the budget and is not counted as dropped. Without budget or slot it
/// is shed and counted; a closed lane and a record beyond 32 bits are errors.
pub proof fn lemma_regular_admission_by_cases(
    lanes: TunLanesState,
    bytes: Vec<u8>,
    info: PacketInfo,
    gso: GsoObservationV2,
)
    requires
        lanes.counters.tun_admission_drop_records < 0x8000_0000_0000_0000,
        lanes.counters.tun_admission_drop_bytes < 0x8000_0000_0000_0000,
    ensures
        ({
            let (after, result) = lanes.regular_outcome(bytes, info, gso);
            let length = bytes@.len() as int;
            let short = length <= 0xffff_ffff;
            let funded = lanes.budget >= length;
            let roomy = lanes.regular.len() < lanes.regular_capacity;
            &&& !short ==> result == Err::<bool, TunAdmissionErrorV2>(
                TunAdmissionErrorV2::RecordTooLong,
            ) && after == lanes
            &&& short && funded && !lanes.regular_open ==> result == Err::<
                bool,
                TunAdmissionErrorV2,
            >(TunAdmissionErrorV2::TxStopped) && after == lanes
            &&& short && (!funded || (lanes.regular_open && !roomy)) ==> {
                &&& result == Ok::<bool, TunAdmissionErrorV2>(false)
                &&& after.regular == lanes.regular
                &&& after.budget == lanes.budget
                &&& after.counters.tun_admission_drop_records
                    == lanes.counters.tun_admission_drop_records + 1
                &&& after.counters.tun_admission_drop_bytes
                    == lanes.counters.tun_admission_drop_bytes + length
            }
            &&& short && funded && lanes.regular_open && roomy ==> {
                &&& result == Ok::<bool, TunAdmissionErrorV2>(true)
                &&& after.regular.len() == lanes.regular.len() + 1
                &&& after.regular.drop_last() == lanes.regular
                &&& after.regular.last().bytes == bytes
                &&& after.regular.last().info == info
                &&& after.regular.last().gso == gso
                &&& after.regular.last().permits == length
                &&& after.budget == lanes.budget - length
                &&& after.counters == lanes.counters
            }
            &&& after.priority == lanes.priority
        }),
{
    let (after, result) = lanes.regular_outcome(bytes, info, gso);
    if result == Ok::<bool, TunAdmissionErrorV2>(true) {
        assert(after.regular.drop_last() =~= lanes.regular);
    }
}

/// A latency-protected record goes to the priority lane whatever the budget, and
/// any other to regular admission.
pub proof fn lemma_lanes_follow_the_protection(
    lanes: TunLanesState,
    bytes: Vec<u8>,
    info: PacketInfo,
)
    ensures
        ({
            let (after, result) = lanes.whole_outcome(bytes, info);
            &&& info.latency_protected ==> {
                &&& result == Ok::<bool, TunAdmissionErrorV2>(true)
                &&& after.priority.len() == lanes.priority.len() + 1
                &&& after.priority.last().bytes == bytes
                &&& after.priority.last().info == info
                &&& after.priority.last().permits == 0
                &&& after.regular == lanes.regular
                &&& after.budget == lanes.budget
                &&& after.counters == lanes.counters
            }
            &&& !info.latency_protected ==> after.priority == lanes.priority && (after, result)
                == lanes.regular_outcome(
                bytes,
                info,
                GsoObservationV2 { input_bytes: 0, preserved_bytes: 0, fallback_splits: 0 },
            )
        }),
{
}

/// A segment that is a packet is counted as read and takes the lane of its
/// aggregate, with the aggregate's observation on the first that is admitted; a
/// segment that is none changes nothing.
pub proof fn lemma_segments_follow_their_aggregate(
    lanes: TunLanesState,
    segment: TunSegmentV2,
    latency_protected: bool,
    gso: GsoObservationV2,
)
    requires
        lanes.counters.tun_tx_packets < 0x8000_0000_0000_0000,
    ensures
        ({
            let (after, result) = lanes.segment_outcome(segment, latency_protected, gso);
            &&& segment.info is None ==> after == lanes && result == Ok::<
                GsoObservationV2,
                TunAdmissionErrorV2,
            >(gso)
            &&& segment.info is Some ==> after.counters.tun_tx_packets
                == lanes.counters.tun_tx_packets + 1
            &&& segment.info is Some && latency_protected ==> {
                &&& after.priority.len() == lanes.priority.len() + 1
                &&& after.priority.last().bytes == segment.record
                &&& after.priority.last().gso == gso
                &&& after.priority.last().info.latency_protected
                &&& after.regular == lanes.regular
                &&& result matches Ok(rest) && rest.input_bytes == 0 && rest.fallback_splits == 0
            }
            &&& segment.info is Some && !latency_protected && after.regular.len()
                > lanes.regular.len() ==> {
                &&& after.regular.last().bytes == segment.record
                &&& after.regular.last().gso == gso
                &&& !after.regular.last().info.latency_protected
                &&& result matches Ok(rest) && rest.input_bytes == 0 && rest.fallback_splits == 0
            }
        }),
{
}

/// The permits that a train holds are those of its records that hold any.
pub proof fn lemma_permits_of_a_train(items: Seq<TrainItemV2>, item: TrainItemV2)
    ensures
        item.permits > 0 ==> held_permits(items.push(item)) == held_permits(items).push(
            item.permits,
        ),
        item.permits == 0 ==> held_permits(items.push(item)) == held_permits(items),
        held_permits(Seq::<TrainItemV2>::empty()).len() == 0,
{
    assert(items.push(item).drop_last() =~= items);
}

/// A train carries the probe of its first record that has one.
pub proof fn lemma_first_probe_is_first(items: Seq<TrainItemV2>, at: int)
    requires
        0 <= at < items.len(),
        items[at].trace_probe is Some,
        forall|i: int| 0 <= i < at ==> (#[trigger] items[i]).trace_probe is None,
    ensures
        first_probe(items) == items[at].trace_probe,
    decreases at,
{
    if at > 0 {
        assert(items[0].trace_probe is None);
        let rest = items.drop_first();
        assert(rest[at - 1] == items[at]);
        assert forall|i: int| 0 <= i < at - 1 implies (#[trigger] rest[i]).trace_probe is None by {
            assert(rest[i] == items[i + 1]);
        }
        lemma_first_probe_is_first(rest, at - 1);
    }
}

/// Records of a train are numbered from one.
pub proof fn lemma_records_count_from_one(record: TrainRecordV2, item: TrainItemV2, place: int)
    requires
        is_numbered(record, item, place),
    ensures
        record.record_id == place + 1,
        record.data == item.data,
        record.metadata == item.metadata,
{
}

/// A packet adds one to the packets and its length to the bytes of a batch.
pub proof fn lemma_ingress_counts_packets_and_bytes(
    batch: TunIngressBatchV2,
    packet_len: int,
    gso: GsoObservationV2,
)
    requires
        batch.packets < u64::MAX,
        0 <= packet_len,
        batch.bytes + packet_len <= u64::MAX,
        batch.gso.input_bytes + gso.input_bytes <= u64::MAX,
        batch.gso.preserved_bytes + gso.preserved_bytes <= u64::MAX,
        batch.gso.fallback_splits + gso.fallback_splits <= u64::MAX,
    ensures
        ({
            let after = batch.plus(packet_len, gso);
            &&& after.packets == batch.packets + 1
            &&& after.bytes == batch.bytes + packet_len
            &&& after.gso.input_bytes == batch.gso.input_bytes + gso.input_bytes
            &&& after.gso.preserved_bytes == batch.gso.preserved_bytes + gso.preserved_bytes
            &&& after.gso.fallback_splits == batch.gso.fallback_splits + gso.fallback_splits
        }),
{
}

/// A touched flow is known as seen now, once, and no other flow changes.
pub proof fn lemma_touched_flow_is_seen_now(flows: Seq<FlowSeenV2>, key: FlowKey, now: Duration)
    ensures
        ({
            let after = touched(flows, key, now);
            let at = flow_place(flows, key);
            &&& at < 0 ==> after.len() == flows.len() + 1 && after.last().key == key
                && after.last().last_seen == now && after.drop_last() == flows
            &&& at >= 0 ==> after.len() == flows.len() && flows[at].key == key && after[at].key
                == key && after[at].last_seen == now
            &&& at >= 0 ==> forall|i: int|
                0 <= i < flows.len() && i != at ==> #[trigger] after[i] == flows[i]
            &&& at < 0 ==> forall|i: int|
                0 <= i < flows.len() ==> (#[trigger] flows[i]).key != key
        }),
{
    lemma_known_place(flows, key);
    if flow_place(flows, key) < 0 {
        assert(touched(flows, key, now).drop_last() =~= flows);
    }
}

/// A place holds its key, and no place means that the key is not there.
proof fn lemma_known_place(flows: Seq<FlowSeenV2>, key: FlowKey)
    ensures
        -1 <= flow_place(flows, key) < flows.len(),
        flow_place(flows, key) >= 0 ==> flows[flow_place(flows, key)].key == key,
        flow_place(flows, key) < 0 ==> forall|i: int|
            0 <= i < flows.len() ==> (#[trigger] flows[i]).key != key,
    decreases flows.len(),
{
    if flows.len() > 0 && flows.last().key != key {
        lemma_known_place(flows.drop_last(), key);
        assert forall|i: int|
            flow_place(flows, key) < 0 && 0 <= i < flows.len() implies (
        #[trigger] flows[i]).key != key by {
            if i < flows.len() - 1 {
                assert(flows.drop_last()[i] == flows[i]);
            }
        }
    }
}

/// Expiry keeps the last flow exactly where it was seen within a minute, and
/// treats the flows before it alike.
pub proof fn lemma_idle_classifiers_expire(
    flows: Seq<FlowSeenV2>,
    flow: FlowSeenV2,
    now: Duration,
)
    ensures
        now.nanos < flow.last_seen.nanos + 60_000_000_000 ==> recent_flows(flows.push(flow), now)
            == recent_flows(flows, now).push(flow),
        now.nanos >= flow.last_seen.nanos + 60_000_000_000 ==> recent_flows(flows.push(flow), now)
            == recent_flows(flows, now),
        recent_flows(Seq::<FlowSeenV2>::empty(), now).len() == 0,
{
    assert(flows.push(flow).drop_last() =~= flows);
}

/// Completed records with metadata are offloaded writes and the others ordinary
/// ones, each in order, and every byte of a record counts.
pub proof fn lemma_metadata_decides_the_write(
    records: Seq<CompletedRecordV2>,
    record: CompletedRecordV2,
)
    ensures
        record.metadata@.len() > 0 ==> with_metadata(records.push(record), true) == with_metadata(
            records,
            true,
        ).push(record) && with_metadata(records.push(record), false) == with_metadata(
            records,
            false,
        ),
        record.metadata@.len() == 0 ==> with_metadata(records.push(record), false)
            == with_metadata(records, false).push(record) && with_metadata(
            records.push(record),
            true,
        ) == with_metadata(records, true),
        record_bytes(records.push(record)) == record_bytes(records) + record.total_len,
{
    assert(records.push(record).drop_last() =~= records);
}

/// A datagram of the peer moves exactly its own part of the batch; transit
/// traffic is an error here.
pub proof fn lemma_peer_datagram_moves_its_own_part(batch: PeerRxModel, datagram: PeerDatagramV2)
    requires
        batch.cover_rx_bytes < 0x8000_0000_0000_0000,
        batch.protocol_errors < 0x8000_0000_0000_0000,
        batch.route_gate_drops < 0x8000_0000_0000_0000,
    ensures
        ({
            let result = peer_received(batch, datagram);
            &&& datagram is Transit ==> result == Err::<PeerRxModel, PeerRxErrorV2>(
                PeerRxErrorV2::TransitCell,
            )
            &&& datagram is TtlExpired ==> result == Err::<PeerRxModel, PeerRxErrorV2>(
                PeerRxErrorV2::TransitTtl,
            )
            &&& !(datagram is Transit) && !(datagram is TtlExpired) ==> result is Ok
            &&& result matches Ok(after) ==> {
                &&& datagram matches PeerDatagramV2::Cover { length } ==> (length
                    < 0x8000_0000_0000_0000 ==> after.cover_rx_bytes == batch.cover_rx_bytes
                    + length)
                &&& !(datagram is Cover) ==> after.cover_rx_bytes == batch.cover_rx_bytes
                &&& datagram is Malformed ==> after.protocol_errors == batch.protocol_errors + 1
                &&& !(datagram is Malformed) ==> after.protocol_errors == batch.protocol_errors
                &&& datagram is Dropped ==> after.route_gate_drops == batch.route_gate_drops + 1
                &&& !(datagram is Dropped) ==> after.route_gate_drops == batch.route_gate_drops
                &&& datagram matches PeerDatagramV2::Local { records } ==> after.records
                    == batch.records + records@
                &&& !(datagram is Local) ==> after.records == batch.records
            }
        }),
{
}

/// Counters add up and start over after the largest value.
pub proof fn lemma_counters_wrap(counter: u64, more: u64)
    ensures
        counter + more <= u64::MAX ==> wrapped(counter, more as int) == counter + more,
        counter + more > u64::MAX ==> wrapped(counter, more as int) == counter + more
            - 0x1_0000_0000_0000_0000,
{
}

/// Synchronising deletes each installed prefix that is no longer desired from
/// the policy's table, and then installs every desired one in order.
pub proof fn lemma_sync_deletes_before_it_installs(
    policy: KernelRoutePolicyV2,
    installed: Seq<IpNet>,
    desired: Seq<IpNet>,
)
    ensures
        ({
            let plan = sync_commands(policy, installed, desired);
            let gone = prefixes_outside(installed, desired);
            &&& plan.len() == gone.len() + desired.len()
            &&& forall|i: int|
                0 <= i < gone.len() ==> plan[i] == delete_route_in_command(
                    #[trigger] gone[i],
                    policy.table,
                )
            &&& forall|k: int|
                0 <= k < desired.len() ==> plan[gone.len() + k] == replace_route_command(
                    policy,
                    #[trigger] desired[k],
                )
        }),
{
}

/// Exactly the installed prefixes that are not desired are deleted.
pub proof fn lemma_only_undesired_prefixes_are_deleted(
    installed: Seq<IpNet>,
    desired: Seq<IpNet>,
    prefix: IpNet,
)
    ensures
        prefixes_outside(installed, desired).contains(prefix) <==> installed.contains(prefix)
            && !desired.contains(prefix),
    decreases installed.len(),
{
    if installed.len() > 0 {
        let rest = installed.drop_last();
        let last = installed.last();
        lemma_only_undesired_prefixes_are_deleted(rest, desired, prefix);
        let kept = prefixes_outside(rest, desired);
        assert(installed =~= rest.push(last));
        broadcast use vstd::seq_lib::lemma_seq_contains_after_push;

        assert(rest.push(last).contains(prefix) <==> rest.contains(prefix) || prefix == last);
        assert(kept.push(last).contains(prefix) <==> kept.contains(prefix) || prefix == last);
    }
}

} // verus!

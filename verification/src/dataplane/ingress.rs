//! How TUN records become PacketTrains of one peer.

use std::collections::VecDeque;
use std::hash::{Hash, Hasher};

use vstd::prelude::*;

use super::{GsoObservationV2, CLASSIFIER_IDLE_SECS, MAX_CLASSIFIERS};
use crate::grouping::{add_to_group, added, groups_view, Group, GroupKey};
use crate::mesh::trace::TraceProbeTag;
use crate::net::{FlowKey, IpAddr};
use crate::num::{max_int, sat_u64};
use crate::queue::into_queue;
use crate::routing::TrafficClass;
use crate::time::Duration;

verus! {

/// A TUN record as a train carries it, and its share of the counters.
#[derive(Debug)]
pub struct EncodedRecordV2 {
    pub metadata: Vec<u8>,
    pub data: Vec<u8>,
    pub gso: GsoObservationV2,
}

/// A record of a train before it is numbered.
#[derive(Debug)]
pub struct TrainItemV2 {
    pub metadata: Vec<u8>,
    pub data: Vec<u8>,
    pub trace_probe: Option<TraceProbeTag>,
    /// Bytes of the ingress budget that the record holds; zero for none.
    pub permits: usize,
}

/// A numbered record of a train.
#[derive(Debug)]
pub struct TrainRecordV2 {
    pub record_id: u16,
    pub metadata: Vec<u8>,
    pub data: Vec<u8>,
}

/// Why a batch cannot be sent.
#[derive(Clone, Copy, Debug, PartialEq, Eq, Structural)]
pub enum IngressErrorV2 {
    /// A train has more records than can be numbered.
    TooManyRecords,
}

/// What a batch added to the ingress counters.
#[derive(Clone, Copy, Debug, PartialEq, Eq, Structural)]
pub struct TunIngressBatchV2 {
    pub packets: u64,
    pub bytes: u64,
    pub gso: GsoObservationV2,
}

impl TunIngressBatchV2 {
    /// Nothing.
    pub open spec fn none() -> TunIngressBatchV2 {
        TunIngressBatchV2 { packets: 0, bytes: 0, gso: GsoObservationV2::none() }
    }

    /// One more packet.
    pub open spec fn plus(self, packet_len: int, gso: GsoObservationV2) -> TunIngressBatchV2 {
        TunIngressBatchV2 {
            packets: sat_u64(self.packets + 1) as u64,
            bytes: sat_u64(self.bytes + packet_len) as u64,
            gso: self.gso.plus(gso),
        }
    }

    /// Nothing.
    pub fn new() -> (r: TunIngressBatchV2)
        ensures
            r == TunIngressBatchV2::none(),
    {
        TunIngressBatchV2 { packets: 0, bytes: 0, gso: GsoObservationV2::default() }
    }

    /// Count one more packet.
    pub fn observe(&mut self, packet_len: usize, gso: GsoObservationV2)
        ensures
            *final(self) == old(self).plus(packet_len as int, gso),
    {
        self.packets = self.packets.saturating_add(1);
        self.bytes = self.bytes.saturating_add(packet_len as u64);
        self.gso = self.gso.merged(gso);
    }
}

/// Whether a numbered record is the record at a place, counted from one.
pub open spec fn is_numbered(record: TrainRecordV2, item: TrainItemV2, place: int) -> bool {
    &&& record.record_id == place + 1
    &&& record.metadata == item.metadata
    &&& record.data == item.data
}

/// The first probe of a run of records.
pub open spec fn first_probe(items: Seq<TrainItemV2>) -> Option<TraceProbeTag>
    decreases items.len(),
{
    if items.len() == 0 {
        None
    } else if items[0].trace_probe is Some {
        items[0].trace_probe
    } else {
        first_probe(items.drop_first())
    }
}

/// The permits that a run of records holds, in order.
pub open spec fn held_permits(items: Seq<TrainItemV2>) -> Seq<usize>
    decreases items.len(),
{
    if items.len() == 0 {
        Seq::empty()
    } else {
        let rest = held_permits(items.drop_last());
        if items.last().permits > 0 {
            rest.push(items.last().permits)
        } else {
            rest
        }
    }
}

/// The first probe of a run of records.
pub fn find_probe(items: &Vec<TrainItemV2>) -> (r: Option<TraceProbeTag>)
    ensures
        r == first_probe(items@),
{
    let mut index: usize = 0;
    assert(items@.skip(0) =~= items@);
    while index < items.len()
        invariant
            index <= items@.len(),
            first_probe(items@) == first_probe(items@.skip(index as int)),
        decreases items@.len() - index,
    {
        proof {
            assert(items@.skip(index as int)[0] == items@[index as int]);
            assert(items@.skip(index as int).drop_first() =~= items@.skip(index + 1));
        }
        if items[index].trace_probe.is_some() {
            return items[index].trace_probe;
        }
        index = index + 1;
    }
    None
}

/// The permits that a run of records holds, in order.
pub fn collect_permits(items: &Vec<TrainItemV2>) -> (r: Vec<usize>)
    ensures
        r@ == held_permits(items@),
{
    let mut permits: Vec<usize> = Vec::new();
    let mut index: usize = 0;
    assert(items@.take(0).len() == 0);
    while index < items.len()
        invariant
            index <= items@.len(),
            permits@ == held_permits(items@.take(index as int)),
        decreases items@.len() - index,
    {
        proof {
            assert(items@.take(index + 1).drop_last() =~= items@.take(index as int));
            assert(items@.take(index + 1).last() == items@[index as int]);
        }
        if items[index].permits > 0 {
            permits.push(items[index].permits);
        }
        index = index + 1;
    }
    assert(items@.take(index as int) =~= items@);
    permits
}

/// Number the records of a train from one.
pub fn numbered_records(items: Vec<TrainItemV2>) -> (r: Result<Vec<TrainRecordV2>, IngressErrorV2>)
    ensures
        items@.len() > u16::MAX ==> (r matches Err(error) && error
            == IngressErrorV2::TooManyRecords),
        items@.len() <= u16::MAX ==> (r matches Ok(records) && records@.len() == items@.len()
            && forall|i: int|
            0 <= i < items@.len() ==> is_numbered(#[trigger] records@[i], items@[i], i)),
{
    if items.len() > u16::MAX as usize {
        return Err(IngressErrorV2::TooManyRecords);
    }
    let ghost all = items@;
    let mut rest: VecDeque<TrainItemV2> = into_queue(items);
    let mut records: Vec<TrainRecordV2> = Vec::new();
    assert(all.skip(0) =~= all);
    while rest.len() > 0
        invariant
            all.len() <= u16::MAX,
            records@.len() <= all.len(),
            rest@ == all.skip(records@.len() as int),
            forall|i: int|
                0 <= i < records@.len() ==> is_numbered(#[trigger] records@[i], all[i], i),
        decreases rest@.len(),
    {
        let ghost done = records@.len() as int;
        let record_id: u16 = (records.len() + 1) as u16;
        if let Some(item) = rest.pop_front() {
            proof {
                assert(item == all[done]);
                assert(rest@ =~= all.skip(done + 1));
            }
            records.push(TrainRecordV2 { record_id, metadata: item.metadata, data: item.data });
        }
    }
    Ok(records)
}

/// What the records of a train of a node with one peer have in common. Grouping
/// by hop limit makes the overlay budget of a Cell the exact hop limit of every
/// record in it.
#[derive(Clone, Copy, Debug, PartialEq, Eq, Structural)]
pub struct PeerTrainKeyV2 {
    pub flow_id: u64,
    pub class: TrafficClass,
    pub overlay_hop_limit: u8,
}

impl GroupKey for PeerTrainKeyV2 {
    fn same(&self, other: &Self) -> (r: bool) {
        *self == *other
    }
}

/// A packet from the TUN interface, as it was classified and encoded.
#[derive(Debug)]
pub struct PeerPacketV2 {
    pub key: PeerTrainKeyV2,
    pub packet_len: usize,
    pub reader_gso: GsoObservationV2,
    /// The encoded record; none where its offload metadata is invalid.
    pub record: Option<EncodedRecordV2>,
}

/// A train to hand to the scheduler.
#[derive(Debug)]
pub struct PeerTrainV2 {
    pub key: PeerTrainKeyV2,
    pub records: Vec<TrainRecordV2>,
}

/// What a batch of packets came to so far.
#[derive(Debug)]
pub struct PeerIngressV2 {
    pub trains: Vec<Group<PeerTrainKeyV2, TrainItemV2>>,
    pub ingress: TunIngressBatchV2,
}

/// The record of an encoded packet, without probe and permits.
pub open spec fn plain_item(record: EncodedRecordV2) -> TrainItemV2 {
    TrainItemV2 {
        metadata: record.metadata,
        data: record.data,
        trace_probe: None,
        permits: 0,
    }
}

impl PeerIngressV2 {
    /// An empty batch.
    pub fn new() -> (r: PeerIngressV2)
        ensures
            groups_view(r.trains@) == Seq::<(PeerTrainKeyV2, Seq<TrainItemV2>)>::empty(),
            r.ingress == TunIngressBatchV2::none(),
    {
        let r: PeerIngressV2 = PeerIngressV2 {
            trains: Vec::new(),
            ingress: TunIngressBatchV2::new(),
        };
        assert(groups_view(r.trains@) =~= Seq::empty());
        r
    }

    /// Take one packet. A packet without hops left, or with invalid offload
    /// metadata, is dropped.
    pub fn take_packet(&mut self, packet: PeerPacketV2)
        ensures
            packet.key.overlay_hop_limit == 0 || packet.record is None ==> final(self).trains
                == old(self).trains && final(self).ingress == old(self).ingress,
            packet.key.overlay_hop_limit != 0 ==> (packet.record matches Some(record) ==> {
                &&& groups_view(final(self).trains@) == added(
                    groups_view(old(self).trains@),
                    packet.key,
                    plain_item(record),
                )
                &&& final(self).ingress == old(self).ingress.plus(
                    packet.packet_len as int,
                    record.gso.plus(packet.reader_gso),
                )
            }),
    {
        if packet.key.overlay_hop_limit == 0 {
            return;
        }
        match packet.record {
            None => {},
            Some(record) => {
                self.ingress.observe(packet.packet_len, record.gso.merged(packet.reader_gso));
                add_to_group(
                    &mut self.trains,
                    packet.key,
                    TrainItemV2 {
                        metadata: record.metadata,
                        data: record.data,
                        trace_probe: None,
                        permits: 0,
                    },
                );
            },
        }
    }

    /// The trains to hand to the scheduler.
    pub fn into_trains(self) -> (r: Result<Vec<PeerTrainV2>, IngressErrorV2>)
        ensures
            ({
                let groups = groups_view(self.trains@);
                if exists|i: int|
                    0 <= i < groups.len() && (#[trigger] groups[i]).1.len() > u16::MAX {
                    r matches Err(error) && error == IngressErrorV2::TooManyRecords
                } else {
                    r matches Ok(trains) && trains@.len() == groups.len() && forall|i: int|
                        0 <= i < groups.len() ==> is_train_of(#[trigger] trains@[i], groups[i])
                }
            }),
    {
        let ghost groups = groups_view(self.trains@);
        let ghost all = self.trains@;
        let mut rest: VecDeque<Group<PeerTrainKeyV2, TrainItemV2>> = into_queue(self.trains);
        let mut trains: Vec<PeerTrainV2> = Vec::new();
        assert(all.skip(0) =~= all);
        while rest.len() > 0
            invariant
                groups == groups_view(all),
                groups == groups_view(self.trains@),
                trains@.len() <= all.len(),
                rest@ == all.skip(trains@.len() as int),
                forall|i: int|
                    0 <= i < trains@.len() ==> is_train_of(#[trigger] trains@[i], groups[i]),
            decreases rest@.len(),
        {
            let ghost done = trains@.len() as int;
            if let Some(group) = rest.pop_front() {
                proof {
                    assert(group == all[done]);
                    assert(groups[done] == (group.key, group.items@));
                    assert(rest@ =~= all.skip(done + 1));
                }
                let key: PeerTrainKeyV2 = group.key;
                match numbered_records(group.items) {
                    Ok(records) => {
                        trains.push(PeerTrainV2 { key, records });
                    },
                    Err(error) => {
                        assert(groups[done].1.len() > u16::MAX);
                        return Err(error);
                    },
                }
            }
        }
        proof {
            assert(groups.len() == all.len());
            assert forall|i: int| 0 <= i < groups.len() implies (
            #[trigger] groups[i]).1.len() <= u16::MAX by {
                assert(is_train_of(trains@[i], groups[i]));
            }
        }
        Ok(trains)
    }
}

/// Whether a train carries the records of a group, numbered in order.
pub open spec fn is_train_of(train: PeerTrainV2, group: (PeerTrainKeyV2, Seq<TrainItemV2>)) -> bool {
    &&& train.key == group.0
    &&& group.1.len() <= u16::MAX
    &&& train.records@.len() == group.1.len()
    &&& forall|i: int|
        0 <= i < group.1.len() ==> is_numbered(#[trigger] train.records@[i], group.1[i], i)
}

/// The hash that `rustc_hash::FxHasher` gives a flow on a machine with words of
/// `word_bits` bits. The word size is an argument because the hasher's state is
/// one machine word.
pub uninterp spec fn fx_hash(
    source_v6: bool,
    source: u128,
    destination_v6: bool,
    destination: u128,
    protocol: u8,
    source_port: Option<u16>,
    destination_port: Option<u16>,
    word_bits: u32,
) -> u64;

/// Hashes the parts of a flow with `rustc_hash::FxHasher`. The hasher starts
/// from zero and has no seed, so the hash follows from the parts and the
/// machine's word size.
#[verifier::external_body]
fn hash_flow(
    source_v6: bool,
    source: u128,
    destination_v6: bool,
    destination: u128,
    protocol: u8,
    source_port: Option<u16>,
    destination_port: Option<u16>,
) -> (r: u64)
    ensures
        r == fx_hash(
            source_v6,
            source,
            destination_v6,
            destination,
            protocol,
            source_port,
            destination_port,
            usize::BITS,
        ),
{
    let mut hasher = rustc_hash::FxHasher::default();
    (source_v6, source, destination_v6, destination, protocol, source_port, destination_port)
        .hash(&mut hasher);
    hasher.finish()
}

/// The address as a number.
pub open spec fn address_number(address: IpAddr) -> u128 {
    match address {
        IpAddr::V4(bits) => bits as u128,
        IpAddr::V6(bits) => bits,
    }
}

/// The address as a number.
fn address_bits(address: IpAddr) -> (r: u128)
    ensures
        r == address_number(address),
{
    match address {
        IpAddr::V4(bits) => bits as u128,
        IpAddr::V6(bits) => bits,
    }
}

/// The number under which a flow is scheduled: its hash, and one where that is
/// zero.
pub open spec fn flow_number(key: FlowKey) -> u64 {
    let hash = fx_hash(
        key.source is V6,
        address_number(key.source),
        key.destination is V6,
        address_number(key.destination),
        key.protocol,
        key.source_port,
        key.destination_port,
        usize::BITS,
    );
    if hash == 0 {
        1
    } else {
        hash
    }
}

/// The flow number of a hash: zero is not a flow.
pub fn flow_id_from_hash(hash: u64) -> (r: u64)
    ensures
        r == if hash == 0 {
            1
        } else {
            hash
        },
{
    if hash == 0 {
        1
    } else {
        hash
    }
}

/// The number under which a flow is scheduled, which is never zero. Equal flows
/// have equal numbers.
pub fn flow_id(key: FlowKey) -> (r: u64)
    ensures
        r == flow_number(key),
        r >= 1,
{
    flow_id_from_hash(
        hash_flow(
            key.source.is_ipv6(),
            address_bits(key.source),
            key.destination.is_ipv6(),
            address_bits(key.destination),
            key.protocol,
            key.source_port,
            key.destination_port,
        ),
    )
}

/// When a flow was last seen.
#[derive(Clone, Copy, Debug, PartialEq, Eq, Structural)]
pub struct FlowSeenV2 {
    pub key: FlowKey,
    pub last_seen: Duration,
}

/// Whether a flow was seen within the idle time.
pub open spec fn is_recent(last_seen: Duration, now: Duration) -> bool {
    max_int(now.nanos - last_seen.nanos, 0) < CLASSIFIER_IDLE_SECS * 1_000_000_000
}

/// Whether a flow was seen within the idle time.
pub fn seen_recently(last_seen: Duration, now: Duration) -> (r: bool)
    ensures
        r == is_recent(last_seen, now),
{
    now.saturating_sub(last_seen).nanos < Duration::from_secs(CLASSIFIER_IDLE_SECS).nanos
}

/// The flows that were seen within the idle time, in order.
pub open spec fn recent_flows(flows: Seq<FlowSeenV2>, now: Duration) -> Seq<FlowSeenV2>
    decreases flows.len(),
{
    if flows.len() == 0 {
        flows
    } else {
        let rest = recent_flows(flows.drop_last(), now);
        if is_recent(flows.last().last_seen, now) {
            rest.push(flows.last())
        } else {
            rest
        }
    }
}

/// Where a flow stands; negative where it is not known.
pub open spec fn flow_place(flows: Seq<FlowSeenV2>, key: FlowKey) -> int
    decreases flows.len(),
{
    if flows.len() == 0 {
        -1
    } else if flows.last().key == key {
        flows.len() - 1
    } else {
        flow_place(flows.drop_last(), key)
    }
}

/// The flows after a packet of one of them.
pub open spec fn touched(flows: Seq<FlowSeenV2>, key: FlowKey, now: Duration) -> Seq<FlowSeenV2> {
    let at = flow_place(flows, key);
    if at >= 0 {
        flows.update(at, FlowSeenV2 { key, last_seen: now })
    } else {
        flows.push(FlowSeenV2 { key, last_seen: now })
    }
}

/// The flows that a transmitter classifies.
#[derive(Debug)]
pub struct FlowTableV2 {
    pub flows: Vec<FlowSeenV2>,
}

impl FlowTableV2 {
    /// Note a packet of a flow, and tell whether the flow is new.
    pub fn touch(&mut self, key: FlowKey, now: Duration) -> (r: bool)
        ensures
            final(self).flows@ == touched(old(self).flows@, key, now),
            r == (flow_place(old(self).flows@, key) < 0),
    {
        let ghost all = self.flows@;
        let mut index: usize = self.flows.len();
        assert(all.take(index as int) =~= all);
        while index > 0
            invariant
                all == self.flows@,
                all == old(self).flows@,
                index <= all.len(),
                flow_place(all, key) == flow_place(all.take(index as int), key),
            decreases index,
        {
            proof {
                assert(all.take(index as int).last() == all[index - 1]);
                assert(all.take(index as int).drop_last() =~= all.take(index - 1));
            }
            index = index - 1;
            if self.flows[index].key == key {
                self.flows.set(index, FlowSeenV2 { key, last_seen: now });
                return false;
            }
        }
        self.flows.push(FlowSeenV2 { key, last_seen: now });
        true
    }

    /// Forget idle flows once there are too many.
    pub fn expire(&mut self, now: Duration)
        ensures
            final(self).flows@ == if old(self).flows@.len() > MAX_CLASSIFIERS {
                recent_flows(old(self).flows@, now)
            } else {
                old(self).flows@
            },
    {
        if self.flows.len() <= MAX_CLASSIFIERS {
            return;
        }
        let ghost all = self.flows@;
        let mut kept: Vec<FlowSeenV2> = Vec::new();
        let mut index: usize = 0;
        assert(all.take(0).len() == 0);
        assert(kept@ =~= recent_flows(all.take(0), now));
        while index < self.flows.len()
            invariant
                all == self.flows@,
                index <= all.len(),
                kept@ == recent_flows(all.take(index as int), now),
            decreases all.len() - index,
        {
            proof {
                assert(all.take(index + 1).drop_last() =~= all.take(index as int));
                assert(all.take(index + 1).last() == all[index as int]);
            }
            if seen_recently(self.flows[index].last_seen, now) {
                kept.push(self.flows[index]);
            }
            index = index + 1;
        }
        assert(all.take(index as int) =~= all);
        self.flows = kept;
    }
}

/// A flow's number is the hash of its two addresses, each with its family, its
/// protocol and its two ports, source before destination. It is never zero: a
/// hash of zero counts as one.
pub proof fn lemma_flow_number_hashes_the_flow(key: FlowKey, source: u32, destination: u32)
    ensures
        flow_number(key) != 0,
        key.source == IpAddr::V4(source) && key.destination == IpAddr::V4(destination) ==> {
            let hash = fx_hash(
                false,
                source as u128,
                false,
                destination as u128,
                key.protocol,
                key.source_port,
                key.destination_port,
                usize::BITS,
            );
            flow_number(key) == if hash == 0 { 1 } else { hash }
        },
        key.source matches IpAddr::V6(from) ==> (key.destination matches IpAddr::V6(to) ==> {
            let hash = fx_hash(
                true,
                from,
                true,
                to,
                key.protocol,
                key.source_port,
                key.destination_port,
                usize::BITS,
            );
            flow_number(key) == if hash == 0 { 1 } else { hash }
        }),
{
}

/// A record that was not probed carries no probe and holds no permits.
pub proof fn lemma_plain_record_is_carried_as_it_is(record: EncodedRecordV2)
    ensures
        plain_item(record).metadata == record.metadata,
        plain_item(record).data == record.data,
        plain_item(record).trace_probe is None,
        plain_item(record).permits == 0,
{
}

/// A train carries its group: under the group's key, record by record, numbered
/// from one.
pub proof fn lemma_train_carries_its_group(
    train: PeerTrainV2,
    group: (PeerTrainKeyV2, Seq<TrainItemV2>),
    place: int,
)
    requires
        is_train_of(train, group),
        0 <= place < group.1.len(),
    ensures
        train.key.flow_id == group.0.flow_id && train.key.class == group.0.class
            && train.key.overlay_hop_limit == group.0.overlay_hop_limit,
        train.records@.len() == group.1.len() <= 65_535,
        train.records@[place].record_id == place + 1,
        train.records@[place].metadata == group.1[place].metadata,
        train.records@[place].data == group.1[place].data,
{
    assert(is_numbered(train.records@[place], group.1[place], place));
}

} // verus!

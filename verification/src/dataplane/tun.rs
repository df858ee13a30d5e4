//! TUN ingress: bounded admission, segmentation of aggregates and lane choice.

use std::collections::VecDeque;

use vstd::prelude::*;

use crate::bytes::copy_range;
use crate::dataplane::rx::{count_up, wrapped};
use crate::dataplane::{GsoObservationV2, TunIngressRecordV2};
use crate::net::PacketInfo;
use crate::num::{ceil_div, min_int, sat_u64, u64_from_usize};

verus! {

/// Bytes of the virtio header in front of every raw TUN record.
pub const VIRTIO_NET_HDR_LEN: usize = 10;

/// Bytes of the longest raw TUN record.
pub const RAW_TUN_BYTES: usize = 65_545;

/// Segments that one aggregate may be split into.
pub const SPLIT_SLOTS: usize = 128;

/// Not an aggregate.
pub const VIRTIO_NET_HDR_GSO_NONE: u8 = 0;

/// A TCP aggregate over IPv4.
pub const VIRTIO_NET_HDR_GSO_TCPV4: u8 = 1;

/// A TCP aggregate over IPv6.
pub const VIRTIO_NET_HDR_GSO_TCPV6: u8 = 4;

/// A UDP aggregate.
pub const VIRTIO_NET_HDR_GSO_UDP_L4: u8 = 5;

/// Set on a TCP aggregate that carries congestion notification.
pub const VIRTIO_NET_HDR_GSO_ECN: u8 = 128;

/// The virtio header of a raw TUN record.
#[derive(Clone, Copy, Debug, PartialEq, Eq, Structural)]
pub struct VirtioNetHdr {
    pub flags: u8,
    pub gso_type: u8,
    pub hdr_len: u16,
    pub gso_size: u16,
    pub csum_start: u16,
    pub csum_offset: u16,
}

impl Default for VirtioNetHdr {
    fn default() -> (r: VirtioNetHdr)
        ensures
            r == (VirtioNetHdr {
                flags: 0,
                gso_type: 0,
                hdr_len: 0,
                gso_size: 0,
                csum_start: 0,
                csum_offset: 0,
            }),
    {
        VirtioNetHdr {
            flags: 0,
            gso_type: 0,
            hdr_len: 0,
            gso_size: 0,
            csum_start: 0,
            csum_offset: 0,
        }
    }
}

/// The 16-bit word that two adjacent bytes hold, the low one first or the high
/// one first.
pub open spec fn word_of(first: u8, second: u8, low_first: bool) -> int {
    if low_first {
        first + 256 * second
    } else {
        256 * first + second
    }
}

/// Whether the first ten bytes hold a header, all words in one byte order.
pub open spec fn holds_header(bytes: Seq<u8>, header: VirtioNetHdr, low_first: bool) -> bool {
    &&& bytes.len() >= VIRTIO_NET_HDR_LEN
    &&& header.flags == bytes[0]
    &&& header.gso_type == bytes[1]
    &&& header.hdr_len == word_of(bytes[2], bytes[3], low_first)
    &&& header.gso_size == word_of(bytes[4], bytes[5], low_first)
    &&& header.csum_start == word_of(bytes[6], bytes[7], low_first)
    &&& header.csum_offset == word_of(bytes[8], bytes[9], low_first)
}

/// A header that the first bytes of a record stand for on some machine.
pub open spec fn decodes_to(raw: Seq<u8>, header: VirtioNetHdr) -> bool {
    holds_header(raw, header, true) || holds_header(raw, header, false)
}

/// Decodes with `tun_rs::VirtioNetHdr::decode`, which copies the first ten
/// bytes into the header's fields and fails on fewer. Its words are in the
/// byte order of the machine, and no clause says which that is.
#[verifier::external_body]
fn decode_virtio_header(bytes: &[u8]) -> (r: Option<VirtioNetHdr>)
    ensures
        r is Some == (bytes@.len() >= VIRTIO_NET_HDR_LEN),
        r matches Some(header) ==> decodes_to(bytes@, header),
{
    match tun_rs::VirtioNetHdr::decode(bytes) {
        Ok(header) => Some(VirtioNetHdr {
            flags: header.flags,
            gso_type: header.gso_type,
            hdr_len: header.hdr_len,
            gso_size: header.gso_size,
            csum_start: header.csum_start,
            csum_offset: header.csum_offset,
        }),
        Err(_) => None,
    }
}

/// The segments that `tun_rs::gso_split` cuts an aggregate into with that many
/// output slots of that length and that offset; `None` where it fails.
pub uninterp spec fn gso_segments(
    packet: Seq<u8>,
    gso_type: u8,
    hdr_len: u16,
    gso_size: u16,
    csum_start: u16,
    csum_offset: u16,
    slots: nat,
    slot_len: nat,
    offset: nat,
    ipv6: bool,
) -> Option<Seq<Seq<u8>>>;

/// The payload that the segment at `index` carries.
pub open spec fn segment_payload(packet: Seq<u8>, hdr_len: int, gso_size: int, index: int) -> Seq<
    u8,
> {
    packet.subrange(
        hdr_len + index * gso_size,
        min_int(hdr_len + (index + 1) * gso_size, packet.len() as int),
    )
}

/// An output slot of that length holds a segment of that size behind the
/// offset.
pub open spec fn slot_holds(
    slot: Seq<u8>,
    size: usize,
    slot_len: int,
    offset: int,
    segment: Seq<u8>,
) -> bool {
    &&& slot.len() == slot_len
    &&& offset + size <= slot_len
    &&& slot.subrange(offset, offset + size) == segment
}

/// Splits with `tun_rs::gso_split` into fresh zeroed slots. On success the
/// first slots hold the segments behind `offset`, with their lengths in the
/// second list; each segment repeats the aggregate's headers, rewritten, and
/// carries the next `gso_size` payload bytes. What the rewritten headers hold
/// is left to the name. The slots stay small enough to be allocated.
#[verifier::external_body]
fn split_gso(
    packet: &mut Vec<u8>,
    header: VirtioNetHdr,
    slots: usize,
    slot_len: usize,
    offset: usize,
    ipv6: bool,
) -> (r: Option<(Vec<Vec<u8>>, Vec<usize>, usize)>)
    requires
        slots <= SPLIT_SLOTS,
        slot_len <= RAW_TUN_BYTES,
    ensures
        final(packet)@ == old(packet)@,
        r is Some == gso_segments(
            old(packet)@,
            header.gso_type,
            header.hdr_len,
            header.gso_size,
            header.csum_start,
            header.csum_offset,
            slots as nat,
            slot_len as nat,
            offset as nat,
            ipv6,
        ) is Some,
        r matches Some((buffers, sizes, count)) ==> {
            let segments = gso_segments(
                old(packet)@,
                header.gso_type,
                header.hdr_len,
                header.gso_size,
                header.csum_start,
                header.csum_offset,
                slots as nat,
                slot_len as nat,
                offset as nat,
                ipv6,
            )->0;
            let hdr_len = header.hdr_len as int;
            &&& header.gso_size > 0
            &&& hdr_len <= old(packet)@.len()
            &&& buffers@.len() == slots
            &&& sizes@.len() == slots
            &&& count == segments.len()
            &&& count <= slots
            &&& count == ceil_div(old(packet)@.len() - hdr_len, header.gso_size as int)
            &&& forall|i: int|
                0 <= i < count ==> {
                    &&& slot_holds(
                        (#[trigger] buffers@[i])@,
                        sizes@[i],
                        slot_len as int,
                        offset as int,
                        segments[i],
                    )
                    &&& segments[i].len() >= hdr_len
                    &&& segments[i].skip(hdr_len) == segment_payload(
                        old(packet)@,
                        hdr_len,
                        header.gso_size as int,
                        i,
                    )
                }
        },
{
    let mut buffers = vec![vec![0u8; slot_len]; slots];
    let mut sizes = vec![0usize; slots];
    let header = tun_rs::VirtioNetHdr {
        flags: header.flags,
        gso_type: header.gso_type,
        hdr_len: header.hdr_len,
        gso_size: header.gso_size,
        csum_start: header.csum_start,
        csum_offset: header.csum_offset,
    };
    match tun_rs::gso_split(packet, header, &mut buffers, &mut sizes, offset, ipv6) {
        Ok(count) => Some((buffers, sizes, count)),
        Err(_) => None,
    }
}

/// Whether a record is longer than its virtio header and one MTU.
pub open spec fn exceeds_mtu(record_len: int, tun_mtu: u16) -> bool {
    record_len - VIRTIO_NET_HDR_LEN > tun_mtu
}

/// Whether a record is longer than its virtio header and one MTU.
pub fn tun_record_exceeds_mtu(record_len: usize, tun_mtu: u16) -> (r: bool)
    ensures
        r == exceeds_mtu(record_len as int, tun_mtu),
{
    record_len.saturating_sub(VIRTIO_NET_HDR_LEN) > tun_mtu as usize
}

/// The aggregate type without the congestion-notification bit.
pub open spec fn base_gso_type(gso_type: u8) -> u8 {
    if gso_type >= 128 {
        (gso_type - 128) as u8
    } else {
        gso_type
    }
}

/// Whether the segmentation algorithm is known.
pub open spec fn is_known_gso_type(base: u8) -> bool {
    base == VIRTIO_NET_HDR_GSO_NONE || base == VIRTIO_NET_HDR_GSO_TCPV4 || base
        == VIRTIO_NET_HDR_GSO_TCPV6 || base == VIRTIO_NET_HDR_GSO_UDP_L4
}

/// The ECN bit is virtio metadata rather than a distinct segmentation
/// algorithm, so validate the base type and remove the bit before splitting.
pub fn normalized_tun_gso_header(header: VirtioNetHdr) -> (r: Option<VirtioNetHdr>)
    ensures
        r == if is_known_gso_type(base_gso_type(header.gso_type)) {
            Some(VirtioNetHdr { gso_type: base_gso_type(header.gso_type), ..header })
        } else {
            None
        },
{
    let mut normalized: VirtioNetHdr = header;
    let base_type: u8 = if header.gso_type >= VIRTIO_NET_HDR_GSO_ECN {
        header.gso_type - VIRTIO_NET_HDR_GSO_ECN
    } else {
        header.gso_type
    };
    if base_type != VIRTIO_NET_HDR_GSO_NONE && base_type != VIRTIO_NET_HDR_GSO_TCPV4 && base_type
        != VIRTIO_NET_HDR_GSO_TCPV6 && base_type != VIRTIO_NET_HDR_GSO_UDP_L4 {
        return None;
    }
    normalized.gso_type = base_type;
    Some(normalized)
}

/// Removing the bit is masking it out.
pub proof fn lemma_base_type_masks_the_ecn_bit(gso_type: u8)
    ensures
        base_gso_type(gso_type) == gso_type & !VIRTIO_NET_HDR_GSO_ECN,
{
    assert(gso_type >= 128 ==> gso_type - 128 == gso_type & !128u8) by (bit_vector);
    assert(gso_type < 128 ==> gso_type == gso_type & !128u8) by (bit_vector);
}

/// All segments from one aggregate use one FIFO lane. In particular,
/// segmentation clears FIN on non-final TCP segments; reclassifying them
/// independently would let the final priority FIN overtake its payload.
pub fn inherit_aggregate_latency_class(
    segment: PacketInfo,
    aggregate_latency_protected: bool,
) -> (r: PacketInfo)
    ensures
        r == (PacketInfo { latency_protected: aggregate_latency_protected, ..segment }),
{
    let mut inherited: PacketInfo = segment;
    inherited.latency_protected = aggregate_latency_protected;
    inherited
}

/// One aggregate fell back to segmentation.
pub open spec fn fallback_observation(input_bytes: int) -> GsoObservationV2 {
    GsoObservationV2 {
        input_bytes: sat_u64(input_bytes) as u64,
        preserved_bytes: 0,
        fallback_splits: 1,
    }
}

/// One aggregate fell back to segmentation.
pub fn tun_gso_fallback_observation(input_bytes: usize) -> (r: GsoObservationV2)
    ensures
        r == fallback_observation(input_bytes as int),
{
    GsoObservationV2 {
        input_bytes: u64_from_usize(input_bytes),
        preserved_bytes: 0,
        fallback_splits: 1,
    }
}

/// An aggregate is split where it would break the MTU bound or find no room.
pub open spec fn must_split(
    record_len: int,
    tun_mtu: u16,
    gso_type: u8,
    regular_admission_overloaded: bool,
) -> bool {
    gso_type != VIRTIO_NET_HDR_GSO_NONE && (regular_admission_overloaded || exceeds_mtu(
        record_len,
        tun_mtu,
    ))
}

/// An aggregate is split where it would break the MTU bound or find no room.
pub fn should_split_tun_gso_record(
    record_len: usize,
    tun_mtu: u16,
    gso_type: u8,
    regular_admission_overloaded: bool,
) -> (r: bool)
    ensures
        r == must_split(record_len as int, tun_mtu, gso_type, regular_admission_overloaded),
{
    gso_type != VIRTIO_NET_HDR_GSO_NONE && (regular_admission_overloaded || tun_record_exceeds_mtu(
        record_len,
        tun_mtu,
    ))
}

/// What happened to ingress since the start.
#[derive(Clone, Copy, Debug, PartialEq, Eq, Structural)]
pub struct TunIngressCountersV2 {
    pub tun_tx_packets: u64,
    pub tun_admission_drop_records: u64,
    pub tun_admission_drop_bytes: u64,
    pub protocol_datagram_errors: u64,
}

impl TunIngressCountersV2 {
    /// One more packet was read.
    pub open spec fn packet_read(self) -> TunIngressCountersV2 {
        TunIngressCountersV2 { tun_tx_packets: wrapped(self.tun_tx_packets, 1), ..self }
    }

    /// A regular record was shed.
    pub open spec fn shed(self, bytes: int) -> TunIngressCountersV2 {
        TunIngressCountersV2 {
            tun_admission_drop_records: wrapped(self.tun_admission_drop_records, 1),
            tun_admission_drop_bytes: wrapped(self.tun_admission_drop_bytes, bytes),
            ..self
        }
    }

    /// A record was malformed.
    pub open spec fn malformed(self) -> TunIngressCountersV2 {
        TunIngressCountersV2 {
            protocol_datagram_errors: wrapped(self.protocol_datagram_errors, 1),
            ..self
        }
    }
}

/// The two ingress lanes with the byte budget of the regular one.
#[derive(Debug)]
pub struct TunLanesV2 {
    pub regular: VecDeque<TunIngressRecordV2>,
    /// Records that the regular lane holds at most.
    pub regular_capacity: usize,
    /// Whether anything still consumes the regular lane.
    pub regular_open: bool,
    pub priority: VecDeque<TunIngressRecordV2>,
    /// Budget bytes that no record holds.
    pub budget: usize,
    pub counters: TunIngressCountersV2,
}

/// The lanes over mathematical sequences.
#[verifier::ext_equal]
pub ghost struct TunLanesState {
    pub regular: Seq<TunIngressRecordV2>,
    pub regular_capacity: int,
    pub regular_open: bool,
    pub priority: Seq<TunIngressRecordV2>,
    pub budget: int,
    pub counters: TunIngressCountersV2,
}

/// Why the reader stops.
#[derive(Clone, Copy, Debug, PartialEq, Eq, Structural)]
pub enum TunAdmissionErrorV2 {
    /// A record is too long to be budgeted.
    RecordTooLong,
    /// Nothing consumes the regular lane any more.
    TxStopped,
}

/// Budget bytes that a run of records holds.
pub open spec fn held_budget(records: Seq<TunIngressRecordV2>) -> int
    decreases records.len(),
{
    if records.len() == 0 {
        0
    } else {
        held_budget(records.drop_last()) + records.last().permits
    }
}

impl TunLanesState {
    /// Whether a regular record of that length finds a slot and budget.
    pub open spec fn ready(self, length: int) -> bool {
        self.regular.len() < self.regular_capacity && self.budget >= length
    }

    /// A priority record is queued.
    pub open spec fn with_priority(self, record: TunIngressRecordV2) -> TunLanesState {
        TunLanesState { priority: self.priority.push(record), ..self }
    }

    /// What becomes of a regular record: it is queued with its budget, shed
    /// where budget or slots are lacking, and an error where it is too long or
    /// nobody consumes the lane.
    pub open spec fn regular_outcome(
        self,
        bytes: Vec<u8>,
        info: PacketInfo,
        gso: GsoObservationV2,
    ) -> (TunLanesState, Result<bool, TunAdmissionErrorV2>) {
        let length = bytes@.len() as int;
        if length > u32::MAX {
            (self, Err(TunAdmissionErrorV2::RecordTooLong))
        } else if self.budget < length {
            (TunLanesState { counters: self.counters.shed(length), ..self }, Ok(false))
        } else if !self.regular_open {
            (self, Err(TunAdmissionErrorV2::TxStopped))
        } else if self.regular.len() >= self.regular_capacity {
            (TunLanesState { counters: self.counters.shed(length), ..self }, Ok(false))
        } else {
            (
                TunLanesState {
                    regular: self.regular.push(
                        TunIngressRecordV2 { bytes, info, gso, permits: length as usize },
                    ),
                    budget: self.budget - length,
                    ..self
                },
                Ok(true),
            )
        }
    }

    /// What becomes of a record that is not split.
    pub open spec fn whole_outcome(
        self,
        bytes: Vec<u8>,
        info: PacketInfo,
    ) -> (TunLanesState, Result<bool, TunAdmissionErrorV2>) {
        if info.latency_protected {
            (
                self.with_priority(
                    TunIngressRecordV2 { bytes, info, gso: GsoObservationV2::none(), permits: 0 },
                ),
                Ok(true),
            )
        } else {
            self.regular_outcome(bytes, info, GsoObservationV2::none())
        }
    }

    /// What becomes of the next segment of an aggregate, with the observation
    /// that the following ones still have to carry.
    pub open spec fn segment_outcome(
        self,
        segment: TunSegmentV2,
        latency_protected: bool,
        gso: GsoObservationV2,
    ) -> (TunLanesState, Result<GsoObservationV2, TunAdmissionErrorV2>) {
        match segment.info {
            None => (self, Ok(gso)),
            Some(parsed) => {
                let info = PacketInfo { latency_protected, ..parsed };
                let read = TunLanesState { counters: self.counters.packet_read(), ..self };
                if latency_protected {
                    (
                        read.with_priority(
                            TunIngressRecordV2 { bytes: segment.record, info, gso, permits: 0 },
                        ),
                        Ok(GsoObservationV2::none()),
                    )
                } else {
                    let (next, admitted) = read.regular_outcome(segment.record, info, gso);
                    (
                        next,
                        match admitted {
                            Ok(true) => Ok(GsoObservationV2::none()),
                            Ok(false) => Ok(gso),
                            Err(error) => Err(error),
                        },
                    )
                }
            },
        }
    }

    /// What becomes of all segments, in order; the first error ends the run.
    pub open spec fn segments_outcome(
        self,
        segments: Seq<TunSegmentV2>,
        latency_protected: bool,
        gso: GsoObservationV2,
    ) -> (TunLanesState, Result<GsoObservationV2, TunAdmissionErrorV2>)
        decreases segments.len(),
    {
        if segments.len() == 0 {
            (self, Ok(gso))
        } else {
            let (before, carried) = self.segments_outcome(
                segments.drop_last(),
                latency_protected,
                gso,
            );
            match carried {
                Ok(rest) => before.segment_outcome(segments.last(), latency_protected, rest),
                Err(error) => (before, Err(error)),
            }
        }
    }
}

/// One segment of a split aggregate, with what its headers say where they can
/// be read.
#[derive(Clone, Debug)]
pub struct TunSegmentV2 {
    pub record: Vec<u8>,
    pub info: Option<PacketInfo>,
}

/// What becomes of a raw TUN record.
#[derive(Clone, Debug)]
pub enum TunReadOutcomeV2 {
    /// Too short to hold a packet.
    Truncated,
    /// Admitted as it is, or shed.
    Whole { admitted: bool },
    /// The aggregate type is unknown.
    UnknownGsoType { gso_type: u8 },
    /// The aggregate could not be split.
    SplitFailed { gso_type: u8 },
    /// The aggregate's segments, each a raw record with an empty header, and
    /// the observation that goes with the first admitted one.
    Split { records: Vec<Vec<u8>>, gso: GsoObservationV2, latency_protected: bool },
}

impl TunLanesV2 {
    /// The lanes over mathematical sequences.
    pub open spec fn state(&self) -> TunLanesState {
        TunLanesState {
            regular: self.regular@,
            regular_capacity: self.regular_capacity as int,
            regular_open: self.regular_open,
            priority: self.priority@,
            budget: self.budget as int,
            counters: self.counters,
        }
    }

    /// Empty lanes.
    pub fn new(regular_capacity: usize, budget: usize) -> (r: TunLanesV2)
        ensures
            r.regular@.len() == 0,
            r.priority@.len() == 0,
            r.regular_capacity == regular_capacity,
            r.regular_open,
            r.budget == budget,
            r.counters == (TunIngressCountersV2 {
                tun_tx_packets: 0,
                tun_admission_drop_records: 0,
                tun_admission_drop_bytes: 0,
                protocol_datagram_errors: 0,
            }),
    {
        TunLanesV2 {
            regular: VecDeque::new(),
            regular_capacity,
            regular_open: true,
            priority: VecDeque::new(),
            budget,
            counters: TunIngressCountersV2 {
                tun_tx_packets: 0,
                tun_admission_drop_records: 0,
                tun_admission_drop_bytes: 0,
                protocol_datagram_errors: 0,
            },
        }
    }

    /// Whether a regular record of that length finds a slot and budget.
    pub fn regular_ready(&self, length: usize) -> (r: bool)
        ensures
            r == self.state().ready(length as int),
    {
        self.regular.len() < self.regular_capacity && self.budget >= length
    }

    /// A malformed record was counted.
    pub fn record_invalid(&mut self) -> (r: u64)
        ensures
            final(self).state() == (TunLanesState {
                counters: old(self).counters.malformed(),
                ..old(self).state()
            }),
            r == final(self).counters.protocol_datagram_errors,
    {
        self.counters.protocol_datagram_errors = count_up(self.counters.protocol_datagram_errors, 1);
        self.counters.protocol_datagram_errors
    }

    /// A regular record was shed at the admission edge.
    fn record_tun_admission_drop(&mut self, bytes: usize)
        ensures
            final(self).state() == (TunLanesState {
                counters: old(self).counters.shed(bytes as int),
                ..old(self).state()
            }),
    {
        self.counters.tun_admission_drop_records = count_up(
            self.counters.tun_admission_drop_records,
            1,
        );
        self.counters.tun_admission_drop_bytes = count_up(
            self.counters.tun_admission_drop_bytes,
            bytes as u64,
        );
    }

    /// Queue a regular record with its budget, or shed it.
    pub fn try_admit_regular_tun_record(
        &mut self,
        record: Vec<u8>,
        info: PacketInfo,
    ) -> (r: Result<bool, TunAdmissionErrorV2>)
        ensures
            (final(self).state(), r) == old(self).state().regular_outcome(
                record,
                info,
                GsoObservationV2::none(),
            ),
    {
        self.try_admit_regular_tun_record_observed(record, info, GsoObservationV2::default())
    }

    /// Queue a regular record with its budget and an observation, or shed it.
    pub fn try_admit_regular_tun_record_observed(
        &mut self,
        record: Vec<u8>,
        info: PacketInfo,
        gso: GsoObservationV2,
    ) -> (r: Result<bool, TunAdmissionErrorV2>)
        ensures
            (final(self).state(), r) == old(self).state().regular_outcome(record, info, gso),
    {
        let length: usize = record.len();
        if length > u32::MAX as usize {
            return Err(TunAdmissionErrorV2::RecordTooLong);
        }
        if self.budget < length {
            self.record_tun_admission_drop(length);
            return Ok(false);
        }
        if !self.regular_open {
            return Err(TunAdmissionErrorV2::TxStopped);
        }
        if self.regular.len() >= self.regular_capacity {
            self.record_tun_admission_drop(length);
            return Ok(false);
        }
        self.budget = self.budget - length;
        self.regular.push_back(
            TunIngressRecordV2::regular(record, info, length).with_gso_observation(gso),
        );
        Ok(true)
    }

    /// A consumed record gives its budget back.
    pub fn release(&mut self, record: &TunIngressRecordV2)
        requires
            old(self).budget + record.permits <= usize::MAX,
        ensures
            final(self).state() == (TunLanesState {
                budget: old(self).budget + record.permits,
                ..old(self).state()
            }),
    {
        self.budget = self.budget + record.permits;
    }

    /// Admit a record that is not split.
    fn admit_whole(&mut self, raw: Vec<u8>, info: PacketInfo) -> (r: Result<
        bool,
        TunAdmissionErrorV2,
    >)
        ensures
            (final(self).state(), r) == old(self).state().whole_outcome(raw, info),
    {
        if info.latency_protected {
            self.priority.push_back(TunIngressRecordV2::priority(raw, info));
            Ok(true)
        } else {
            self.try_admit_regular_tun_record(raw, info)
        }
    }

    /// Read hard latency traffic into a reserved ingress lane and ordinary
    /// traffic into the byte-bounded one.
    ///
    /// The common path neither decodes nor rewrites the virtio header. The TUN
    /// MTU bounds ordinary records, while the kernel may still hand out a
    /// larger aggregate for amortized reads; only those aggregates need
    /// software segmentation. Admission overload must not stop reading the
    /// TUN: doing so moves the queue into the opaque kernel ring and leaves
    /// ICMP, ACKs and FINs behind seconds of stale bulk data. If this is a
    /// large aggregate, split it before controlled tail shedding.
    /// Independently, split an aggregate larger than the MTU even without
    /// admission pressure: preserving that failure domain would undo the MTU
    /// bound after one lost Cell.
    pub fn read_record(
        &mut self,
        raw: Vec<u8>,
        info: PacketInfo,
        tun_mtu: u16,
    ) -> (r: Result<TunReadOutcomeV2, TunAdmissionErrorV2>)
        ensures
            ({
                let before = old(self).state();
                let length = raw@.len() as int;
                let read = TunLanesState { counters: before.counters.packet_read(), ..before };
                let ready = before.ready(length);
                let after = final(self).state();
                if length <= VIRTIO_NET_HDR_LEN {
                    after == before && r matches Ok(TunReadOutcomeV2::Truncated)
                } else if !exceeds_mtu(length, tun_mtu) && (info.latency_protected || ready) {
                    whole_result(read, raw, info, after, r)
                } else {
                    let base = base_gso_type(raw@[1]);
                    if !is_known_gso_type(base) {
                        &&& after == TunLanesState { counters: read.counters.malformed(), ..read }
                        &&& r matches Ok(TunReadOutcomeV2::UnknownGsoType { gso_type })
                        &&& gso_type == raw@[1]
                    } else if !must_split(
                        length,
                        tun_mtu,
                        base,
                        !info.latency_protected && !ready,
                    ) {
                        whole_result(read, raw, info, after, r)
                    } else {
                        split_result(read, raw@, info.latency_protected, after, r)
                    }
                }
            }),
    {
        let length: usize = raw.len();
        if length <= VIRTIO_NET_HDR_LEN {
            return Ok(TunReadOutcomeV2::Truncated);
        }
        self.counters.tun_tx_packets = count_up(self.counters.tun_tx_packets, 1);
        let ghost read = self.state();
        let regular_admission_ready: bool = self.regular_ready(length);
        let oversized: bool = tun_record_exceeds_mtu(length, tun_mtu);
        if !oversized && (info.latency_protected || regular_admission_ready) {
            return match self.admit_whole(raw, info) {
                Ok(admitted) => Ok(TunReadOutcomeV2::Whole { admitted }),
                Err(error) => Err(error),
            };
        }
        let header: VirtioNetHdr = match decode_virtio_header(raw.as_slice()) {
            Some(header) => header,
            None => return Ok(TunReadOutcomeV2::Truncated),
        };
        let split_header: VirtioNetHdr = match normalized_tun_gso_header(header) {
            Some(normalized) => normalized,
            None => {
                self.record_invalid();
                return Ok(TunReadOutcomeV2::UnknownGsoType { gso_type: header.gso_type });
            },
        };
        if !should_split_tun_gso_record(
            length,
            tun_mtu,
            split_header.gso_type,
            !info.latency_protected && !regular_admission_ready,
        ) {
            return match self.admit_whole(raw, info) {
                Ok(admitted) => Ok(TunReadOutcomeV2::Whole { admitted }),
                Err(error) => Err(error),
            };
        }
        proof {
            assert(decodes_to(raw@, header));
            assert(segments_of(raw@, split_header) == segments_of(raw@, header));
        }
        match split_tun_record(&raw, split_header) {
            Some(records) => {
                let gso: GsoObservationV2 = tun_gso_fallback_observation(
                    length - VIRTIO_NET_HDR_LEN,
                );
                Ok(
                    TunReadOutcomeV2::Split {
                        records,
                        gso,
                        latency_protected: info.latency_protected,
                    },
                )
            },
            None => {
                self.record_invalid();
                Ok(TunReadOutcomeV2::SplitFailed { gso_type: split_header.gso_type })
            },
        }
    }

    /// Admit the segments of one aggregate in order. They all take the lane of
    /// the aggregate; the observation goes with the first one that is
    /// admitted, and is returned where none was.
    pub fn admit_segments(
        &mut self,
        segments: VecDeque<TunSegmentV2>,
        latency_protected: bool,
        gso: GsoObservationV2,
    ) -> (r: Result<GsoObservationV2, TunAdmissionErrorV2>)
        ensures
            (final(self).state(), r) == old(self).state().segments_outcome(
                segments@,
                latency_protected,
                gso,
            ),
    {
        let mut remaining: VecDeque<TunSegmentV2> = segments;
        let mut carried: GsoObservationV2 = gso;
        let ghost all = segments@;
        let ghost start = self.state();
        let ghost mut done: int = 0;
        proof {
            assert(all.take(0).len() == 0);
            assert(all.skip(0) =~= all);
        }
        loop
            invariant_except_break
                0 <= done <= all.len(),
                remaining@ == all.skip(done),
                (self.state(), Ok::<GsoObservationV2, TunAdmissionErrorV2>(carried))
                    == start.segments_outcome(all.take(done), latency_protected, gso),
                start == old(self).state(),
                all == segments@,
            ensures
                (self.state(), Ok::<GsoObservationV2, TunAdmissionErrorV2>(carried))
                    == start.segments_outcome(all, latency_protected, gso),
                start == old(self).state(),
                all == segments@,
            decreases all.len() - done,
        {
            let segment: TunSegmentV2 = match remaining.pop_front() {
                Some(segment) => segment,
                None => {
                    proof {
                        assert(all.take(done) =~= all);
                    }
                    break;
                },
            };
            proof {
                assert(segment == all[done]);
                assert(all.take(done + 1).drop_last() =~= all.take(done));
                assert(all.take(done + 1).last() == segment);
                assert(remaining@ =~= all.skip(done + 1));
            }
            if let Some(parsed) = segment.info {
                let info: PacketInfo = inherit_aggregate_latency_class(parsed, latency_protected);
                self.counters.tun_tx_packets = count_up(self.counters.tun_tx_packets, 1);
                if latency_protected {
                    self.priority.push_back(
                        TunIngressRecordV2::priority(segment.record, info).with_gso_observation(
                            carried,
                        ),
                    );
                    carried = GsoObservationV2::default();
                } else {
                    match self.try_admit_regular_tun_record_observed(
                        segment.record,
                        info,
                        carried,
                    ) {
                        Ok(true) => {
                            carried = GsoObservationV2::default();
                        },
                        Ok(false) => {},
                        Err(error) => {
                            proof {
                                lemma_error_ends_the_run(
                                    start,
                                    all,
                                    done + 1,
                                    latency_protected,
                                    gso,
                                );
                            }
                            return Err(error);
                        },
                    }
                }
            }
            proof {
                done = done + 1;
            }
        }
        Ok(carried)
    }
}

/// Where a prefix of the segments ends in an error, the whole run does.
proof fn lemma_error_ends_the_run(
    lanes: TunLanesState,
    segments: Seq<TunSegmentV2>,
    count: int,
    latency_protected: bool,
    gso: GsoObservationV2,
)
    requires
        0 <= count <= segments.len(),
        lanes.segments_outcome(segments.take(count), latency_protected, gso).1 is Err,
    ensures
        lanes.segments_outcome(segments, latency_protected, gso) == lanes.segments_outcome(
            segments.take(count),
            latency_protected,
            gso,
        ),
    decreases segments.len(),
{
    if count == segments.len() {
        assert(segments.take(count) =~= segments);
    } else {
        assert(segments.drop_last().take(count) =~= segments.take(count));
        lemma_error_ends_the_run(lanes, segments.drop_last(), count, latency_protected, gso);
    }
}

/// The segments of a raw record under a header of its.
pub open spec fn segments_of(raw: Seq<u8>, header: VirtioNetHdr) -> Option<Seq<Seq<u8>>> {
    let packet = raw.skip(VIRTIO_NET_HDR_LEN as int);
    gso_segments(
        packet,
        base_gso_type(header.gso_type),
        header.hdr_len,
        header.gso_size,
        header.csum_start,
        header.csum_offset,
        SPLIT_SLOTS as nat,
        RAW_TUN_BYTES as nat,
        VIRTIO_NET_HDR_LEN as nat,
        packet[0] as int / 16 == 6,
    )
}

/// A raw record with an empty virtio header.
pub open spec fn headerless(packet: Seq<u8>) -> Seq<u8> {
    Seq::new(VIRTIO_NET_HDR_LEN as nat, |i: int| 0u8) + packet
}

/// The result of reading a record that is admitted or shed as it is.
pub open spec fn whole_result(
    read: TunLanesState,
    raw: Vec<u8>,
    info: PacketInfo,
    after: TunLanesState,
    result: Result<TunReadOutcomeV2, TunAdmissionErrorV2>,
) -> bool {
    let (state, outcome) = read.whole_outcome(raw, info);
    &&& after == state
    &&& match outcome {
        Ok(admitted) => result == Ok::<TunReadOutcomeV2, TunAdmissionErrorV2>(
            TunReadOutcomeV2::Whole { admitted },
        ),
        Err(error) => result == Err::<TunReadOutcomeV2, TunAdmissionErrorV2>(error),
    }
}

/// The result of reading an aggregate that has to be split: either it cannot
/// be split and is counted as malformed, or its segments come out in order
/// with one observation of the whole aggregate.
pub open spec fn split_result(
    read: TunLanesState,
    raw: Seq<u8>,
    latency: bool,
    after: TunLanesState,
    result: Result<TunReadOutcomeV2, TunAdmissionErrorV2>,
) -> bool {
    exists|header: VirtioNetHdr| #[trigger]
        decodes_to(raw, header) && match segments_of(raw, header) {
            None => {
                &&& after == TunLanesState { counters: read.counters.malformed(), ..read }
                &&& result == Ok::<TunReadOutcomeV2, TunAdmissionErrorV2>(
                    TunReadOutcomeV2::SplitFailed { gso_type: base_gso_type(raw[1]) },
                )
            },
            Some(segments) => {
                &&& after == read
                &&& result matches Ok(TunReadOutcomeV2::Split { records, gso, latency_protected })
                &&& latency_protected == latency
                &&& gso == fallback_observation(raw.len() - VIRTIO_NET_HDR_LEN)
                &&& records@.len() == segments.len()
                &&& forall|i: int|
                    0 <= i < segments.len() ==> (#[trigger] records@[i])@ == headerless(segments[i])
            },
        }
}

/// The segments of a raw record as raw records with empty headers.
fn split_tun_record(raw: &Vec<u8>, header: VirtioNetHdr) -> (r: Option<Vec<Vec<u8>>>)
    requires
        raw@.len() > VIRTIO_NET_HDR_LEN,
        base_gso_type(header.gso_type) == header.gso_type,
    ensures
        r is Some == segments_of(raw@, header) is Some,
        r matches Some(records) ==> {
            let segments = segments_of(raw@, header)->0;
            &&& records@.len() == segments.len()
            &&& forall|i: int|
                0 <= i < segments.len() ==> (#[trigger] records@[i])@ == headerless(segments[i])
        },
{
    let mut packet: Vec<u8> = copy_range(raw, VIRTIO_NET_HDR_LEN, raw.len());
    assert(packet@ =~= raw@.skip(VIRTIO_NET_HDR_LEN as int));
    let ipv6: bool = packet[0] / 16 == 6;
    let (buffers, sizes, count): (Vec<Vec<u8>>, Vec<usize>, usize) = match split_gso(
        &mut packet,
        header,
        SPLIT_SLOTS,
        RAW_TUN_BYTES,
        VIRTIO_NET_HDR_LEN,
        ipv6,
    ) {
        Some(split) => split,
        None => return None,
    };
    let ghost segments = segments_of(raw@, header)->0;
    proof {
        assert(ipv6 == (raw@.skip(VIRTIO_NET_HDR_LEN as int)[0] as int / 16 == 6));
        assert(count == segments.len());
    }
    let mut records: Vec<Vec<u8>> = Vec::new();
    let mut index: usize = 0;
    while index < count
        invariant
            index <= count,
            count == segments.len(),
            count <= buffers@.len(),
            count <= sizes@.len(),
            records@.len() == index,
            forall|i: int|
                0 <= i < count ==> slot_holds(
                    (#[trigger] buffers@[i])@,
                    sizes@[i],
                    RAW_TUN_BYTES as int,
                    VIRTIO_NET_HDR_LEN as int,
                    segments[i],
                ),
            forall|i: int|
                0 <= i < index ==> (#[trigger] records@[i])@ == headerless(segments[i]),
        decreases count - index,
    {
        let mut record: Vec<u8> = vec![0u8; VIRTIO_NET_HDR_LEN];
        let size: usize = sizes[index];
        let ghost slot = buffers@[index as int]@;
        assert(slot_holds(
            slot,
            size,
            RAW_TUN_BYTES as int,
            VIRTIO_NET_HDR_LEN as int,
            segments[index as int],
        ));
        assert(VIRTIO_NET_HDR_LEN + size <= RAW_TUN_BYTES);
        let mut segment: Vec<u8> = copy_range(
            &buffers[index],
            VIRTIO_NET_HDR_LEN,
            VIRTIO_NET_HDR_LEN + size,
        );
        assert(segment@ == segments[index as int]);
        record.append(&mut segment);
        assert(record@ =~= headerless(segments[index as int]));
        records.push(record);
        index = index + 1;
    }
    Some(records)
}

/// A queued record holds exactly the budget it was admitted with, and a shed
/// one holds none: the budget in hand and in the queue stays the same.
pub proof fn lemma_admission_conserves_the_byte_budget(
    lanes: TunLanesState,
    bytes: Vec<u8>,
    info: PacketInfo,
    gso: GsoObservationV2,
)
    ensures
        ({
            let (after, _) = lanes.regular_outcome(bytes, info, gso);
            after.budget + held_budget(after.regular) == lanes.budget + held_budget(lanes.regular)
        }),
{
    let (after, admitted) = lanes.regular_outcome(bytes, info, gso);
    if after.regular.len() > lanes.regular.len() {
        assert(after.regular.drop_last() =~= lanes.regular);
    }
}

/// Records were appended to a lane; the first one carries the observation and
/// the others none, and what is left of it is returned.
pub open spec fn appended_with_one_observation(
    before: Seq<TunIngressRecordV2>,
    after: Seq<TunIngressRecordV2>,
    gso: GsoObservationV2,
    rest: Result<GsoObservationV2, TunAdmissionErrorV2>,
) -> bool {
    &&& before.is_prefix_of(after)
    &&& forall|j: int|
        before.len() <= j < after.len() ==> (#[trigger] after[j]).gso == if j == before.len() {
            gso
        } else {
            GsoObservationV2::none()
        }
    &&& rest matches Ok(carried) ==> carried == if after.len() == before.len() {
        gso
    } else {
        GsoObservationV2::none()
    }
}

/// The segments of one aggregate all take one lane, in order, and the
/// observation goes with the first one that is admitted and no other.
pub proof fn lemma_aggregate_keeps_one_lane_and_one_observation(
    lanes: TunLanesState,
    segments: Seq<TunSegmentV2>,
    latency_protected: bool,
    gso: GsoObservationV2,
)
    ensures
        ({
            let (after, rest) = lanes.segments_outcome(segments, latency_protected, gso);
            if latency_protected {
                &&& after.regular == lanes.regular
                &&& appended_with_one_observation(lanes.priority, after.priority, gso, rest)
            } else {
                &&& after.priority == lanes.priority
                &&& appended_with_one_observation(lanes.regular, after.regular, gso, rest)
            }
        }),
    decreases segments.len(),
{
    if segments.len() > 0 {
        lemma_aggregate_keeps_one_lane_and_one_observation(
            lanes,
            segments.drop_last(),
            latency_protected,
            gso,
        );
    }
}

/// Priority reads never depend on the regular lane's load.
pub proof fn lemma_priority_admission_ignores_overload(
    lanes: TunLanesState,
    bytes: Vec<u8>,
    info: PacketInfo,
)
    requires
        info.latency_protected,
    ensures
        lanes.whole_outcome(bytes, info).1 == Ok::<bool, TunAdmissionErrorV2>(true),
        lanes.whole_outcome(bytes, info).0.priority.len() == lanes.priority.len() + 1,
        lanes.whole_outcome(bytes, info).0.budget == lanes.budget,
{
}

/// The header of a raw record stands in its first ten bytes: flags and type as
/// single bytes, and four words of two bytes each, all in one byte order.
pub proof fn lemma_header_stands_in_ten_bytes(raw: Seq<u8>, header: VirtioNetHdr)
    requires
        decodes_to(raw, header),
    ensures
        raw.len() >= 10,
        header.flags == raw[0],
        header.gso_type == raw[1],
        (header.hdr_len == raw[2] + 256 * raw[3] && header.gso_size == raw[4] + 256 * raw[5]
            && header.csum_start == raw[6] + 256 * raw[7] && header.csum_offset == raw[8] + 256
            * raw[9]) || (header.hdr_len == 256 * raw[2] + raw[3] && header.gso_size == 256 * raw[4]
            + raw[5] && header.csum_start == 256 * raw[6] + raw[7] && header.csum_offset == 256
            * raw[8] + raw[9]),
{
}

/// A packet that stays whole goes to the priority lane when it is protected for
/// latency, and is otherwise admitted or shed as a regular one.
pub proof fn lemma_whole_packet_takes_its_lane(
    read: TunLanesState,
    raw: Vec<u8>,
    info: PacketInfo,
    after: TunLanesState,
    result: Result<TunReadOutcomeV2, TunAdmissionErrorV2>,
)
    requires
        whole_result(read, raw, info, after, result),
    ensures
        info.latency_protected ==> {
            &&& result matches Ok(TunReadOutcomeV2::Whole { admitted }) && admitted
            &&& after.priority.len() == read.priority.len() + 1
            &&& after.priority.last().bytes == raw
            &&& after.priority.last().info == info
            &&& after.priority.last().permits == 0
            &&& after.regular == read.regular
            &&& after.budget == read.budget
        },
        !info.latency_protected ==> after.priority == read.priority,
{
}

/// An aggregate that cannot be split is counted as malformed and changes no
/// lane. One that can be split changes nothing, and hands out its segments as
/// raw records with ten zero bytes in front, and the whole packet's length as
/// what was read.
pub proof fn lemma_split_hands_out_the_segments(
    read: TunLanesState,
    raw: Seq<u8>,
    latency: bool,
    after: TunLanesState,
    result: Result<TunReadOutcomeV2, TunAdmissionErrorV2>,
)
    requires
        split_result(read, raw, latency, after, result),
        raw.len() <= usize::MAX,
    ensures
        result is Ok,
        after.priority == read.priority && after.regular == read.regular && after.budget
            == read.budget,
        result->Ok_0 is Split || result->Ok_0 is SplitFailed,
        result->Ok_0 is Split ==> after == read,
        result matches Ok(TunReadOutcomeV2::Split { records, gso, latency_protected }) ==> {
            &&& latency_protected == latency
            &&& gso.input_bytes == raw.len() - 10
            &&& gso.preserved_bytes == 0
            &&& gso.fallback_splits == 1
            &&& forall|i: int, j: int|
                0 <= i < records@.len() && 0 <= j < 10 ==> #[trigger] records@[i]@.len() >= 10
                    && #[trigger] records@[i]@[j] == 0
        },
        result matches Ok(TunReadOutcomeV2::SplitFailed { gso_type }) ==> {
            &&& raw[1] < 128 ==> gso_type == raw[1]
            &&& raw[1] >= 128 ==> gso_type == raw[1] - 128
            &&& after.counters.protocol_datagram_errors == if read.counters.protocol_datagram_errors
                == u64::MAX {
                0
            } else {
                read.counters.protocol_datagram_errors + 1
            }
        },
{
}

} // verus!

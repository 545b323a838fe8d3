//! Decoding of the ARM SMMUv3 virtual events that a vEVENTQ delivers.
//!
//! A read of a vEVENTQ returns a sequence of `iommufd_vevent_header`s, each
//! followed by an `iommu_vevent_arm_smmuv3` record unless the header carries
//! `IOMMU_VEVENTQ_FLAG_LOST_EVENTS`.
use vstd::prelude::*;
use vstd::bytes::{
    lemma_auto_spec_u32_to_from_le_bytes, lemma_auto_spec_u64_to_from_le_bytes, spec_u32_from_le_bytes,
    spec_u32_to_le_bytes, spec_u64_from_le_bytes, spec_u64_to_le_bytes, u32_from_le_bytes,
    u64_from_le_bytes,
};
use vstd::slice::slice_subrange;
use crate::uapi::{
    spec_veventq_flag_lost_events, spec_vevent_arm_smmuv3_size, spec_vevent_header_size,
    vevent_arm_smmuv3_size, vevent_header_size, veventq_flag_lost_events,
};

verus! {

/// Byte order of the host, in which the kernel lays out the queue's
/// fields.
#[derive(Clone, Copy, Debug, PartialEq, Eq, Structural)]
pub enum HostByteOrder {
    Little,
    Big,
}

/// `struct iommufd_vevent_header`.
#[derive(Clone, Copy, Debug, PartialEq, Eq, Structural)]
pub struct IommufdVeventHeader {
    pub flags: u32,
    pub sequence: u32,
}

/// `struct iommu_vevent_arm_smmuv3`: a 256-bit ARM SMMUv3 event record.
#[derive(Clone, Copy, Debug, PartialEq, Eq)]
pub struct IommuVeventArmSmmuv3 {
    pub evt: [u64; 4],
}

/// A decoded ARM SMMUv3 virtual event. The record is absent for a
/// LOST_EVENTS marker.
pub type ArmSmmuv3VEvent = (IommufdVeventHeader, Option<IommuVeventArmSmmuv3>);

/// The `u32` that four bytes hold in the given byte order.
pub open spec fn spec_u32_from_bytes(s: Seq<u8>, order: HostByteOrder) -> u32 {
    match order {
        HostByteOrder::Little => spec_u32_from_le_bytes(s),
        HostByteOrder::Big => spec_u32_from_le_bytes(s.reverse()),
    }
}

/// The `u64` that eight bytes hold in the given byte order.
pub open spec fn spec_u64_from_bytes(s: Seq<u8>, order: HostByteOrder) -> u64 {
    match order {
        HostByteOrder::Little => spec_u64_from_le_bytes(s),
        HostByteOrder::Big => spec_u64_from_le_bytes(s.reverse()),
    }
}

/// The header that the first eight bytes of `s` hold.
pub open spec fn spec_vevent_header(s: Seq<u8>, order: HostByteOrder) -> IommufdVeventHeader {
    IommufdVeventHeader {
        flags: spec_u32_from_bytes(s.subrange(0, 4), order),
        sequence: spec_u32_from_bytes(s.subrange(4, 8), order),
    }
}

/// The record that the first 32 bytes of `s` hold.
pub open spec fn spec_vevent_arm_smmuv3(s: Seq<u8>, order: HostByteOrder) -> IommuVeventArmSmmuv3 {
    IommuVeventArmSmmuv3 {
        evt: [
            spec_u64_from_bytes(s.subrange(0, 8), order),
            spec_u64_from_bytes(s.subrange(8, 16), order),
            spec_u64_from_bytes(s.subrange(16, 24), order),
            spec_u64_from_bytes(s.subrange(24, 32), order),
        ],
    }
}

/// Whether a header marks lost events, with no record after it.
pub open spec fn spec_is_lost_events(header: IommufdVeventHeader) -> bool {
    header.flags & spec_veventq_flag_lost_events() != 0
}

/// The events that a read of `bytes` from a vEVENTQ carries: headers, each
/// followed by a record unless it marks lost events. Decoding stops at the
/// first header or record that the bytes hold only in part.
pub open spec fn spec_decode_vevents(bytes: Seq<u8>, order: HostByteOrder) -> Seq<ArmSmmuv3VEvent>
    decreases bytes.len(),
{
    let hdr = spec_vevent_header_size() as int;
    let rec = spec_vevent_arm_smmuv3_size() as int;
    if bytes.len() < hdr {
        Seq::empty()
    } else {
        let header = spec_vevent_header(bytes.take(hdr), order);
        let rest = bytes.skip(hdr);
        if spec_is_lost_events(header) {
            seq![(header, None::<IommuVeventArmSmmuv3>)] + spec_decode_vevents(rest, order)
        } else if rest.len() < rec {
            Seq::empty()
        } else {
            seq![(header, Some(spec_vevent_arm_smmuv3(rest.take(rec), order)))]
                + spec_decode_vevents(rest.skip(rec), order)
        }
    }
}

/// The four bytes that hold `x` in the given byte order.
pub open spec fn spec_u32_to_bytes(x: u32, order: HostByteOrder) -> Seq<u8> {
    match order {
        HostByteOrder::Little => spec_u32_to_le_bytes(x),
        HostByteOrder::Big => spec_u32_to_le_bytes(x).reverse(),
    }
}

/// The eight bytes that hold `x` in the given byte order.
pub open spec fn spec_u64_to_bytes(x: u64, order: HostByteOrder) -> Seq<u8> {
    match order {
        HostByteOrder::Little => spec_u64_to_le_bytes(x),
        HostByteOrder::Big => spec_u64_to_le_bytes(x).reverse(),
    }
}

/// The bytes of an event as the kernel queues it: the header, then the
/// record if there is one.
pub open spec fn spec_vevent_bytes(e: ArmSmmuv3VEvent, order: HostByteOrder) -> Seq<u8> {
    let header = spec_u32_to_bytes(e.0.flags, order) + spec_u32_to_bytes(e.0.sequence, order);
    match e.1 {
        None => header,
        Some(r) => header + spec_u64_to_bytes(r.evt[0], order) + spec_u64_to_bytes(r.evt[1], order)
            + spec_u64_to_bytes(r.evt[2], order) + spec_u64_to_bytes(r.evt[3], order),
    }
}

/// The bytes of a queue that holds the given events in order.
pub open spec fn spec_encode_vevents(events: Seq<ArmSmmuv3VEvent>, order: HostByteOrder) -> Seq<u8>
    decreases events.len(),
{
    if events.len() == 0 {
        Seq::empty()
    } else {
        spec_vevent_bytes(events[0], order) + spec_encode_vevents(events.drop_first(), order)
    }
}

/// Whether an event is one that the kernel queues: a record follows the
/// header exactly when the header does not mark lost events.
pub open spec fn spec_vevent_well_formed(e: ArmSmmuv3VEvent) -> bool {
    spec_is_lost_events(e.0) <==> e.1 is None
}

proof fn lemma_u32_bytes_roundtrip(x: u32, order: HostByteOrder)
    ensures
        spec_u32_to_bytes(x, order).len() == 4,
        spec_u32_from_bytes(spec_u32_to_bytes(x, order), order) == x,
{
    lemma_auto_spec_u32_to_from_le_bytes();
    let le = spec_u32_to_le_bytes(x);
    assert(le.len() == 4);
    assert(le.reverse().reverse() =~= le);
}

proof fn lemma_u64_bytes_roundtrip(x: u64, order: HostByteOrder)
    ensures
        spec_u64_to_bytes(x, order).len() == 8,
        spec_u64_from_bytes(spec_u64_to_bytes(x, order), order) == x,
{
    lemma_auto_spec_u64_to_from_le_bytes();
    let le = spec_u64_to_le_bytes(x);
    assert(le.len() == 8);
    assert(le.reverse().reverse() =~= le);
}

/// Decoding the bytes of a queue that holds well-formed events gives back
/// those events, and then whatever the bytes after them decode to: a
/// vEVENTQ read is decoded event by event, with nothing lost or invented.
pub proof fn lemma_decode_encoded_vevents(
    events: Seq<ArmSmmuv3VEvent>,
    tail: Seq<u8>,
    order: HostByteOrder,
)
    requires
        forall|i: int| 0 <= i < events.len() ==> spec_vevent_well_formed(#[trigger] events[i]),
    ensures
        spec_decode_vevents(spec_encode_vevents(events, order) + tail, order) == events
            + spec_decode_vevents(tail, order),
    decreases events.len(),
{
    if events.len() == 0 {
        assert(spec_encode_vevents(events, order) + tail =~= tail);
        assert(events + spec_decode_vevents(tail, order) =~= spec_decode_vevents(tail, order));
    } else {
        let e = events[0];
        let rest = events.drop_first();
        assert(spec_vevent_well_formed(e));
        assert forall|i: int| 0 <= i < rest.len() implies spec_vevent_well_formed(
            #[trigger] rest[i],
        ) by {
            assert(rest[i] == events[i + 1]);
        }
        lemma_decode_encoded_vevents(rest, tail, order);
        let after = spec_encode_vevents(rest, order) + tail;
        let fl = spec_u32_to_bytes(e.0.flags, order);
        let sq = spec_u32_to_bytes(e.0.sequence, order);
        lemma_u32_bytes_roundtrip(e.0.flags, order);
        lemma_u32_bytes_roundtrip(e.0.sequence, order);
        let hb = fl + sq;
        let bytes = spec_encode_vevents(events, order) + tail;
        assert(hb.subrange(0, 4) =~= fl);
        assert(hb.subrange(4, 8) =~= sq);
        assert(spec_vevent_header(hb, order) == e.0);
        match e.1 {
            None => {
                assert(bytes =~= hb + after);
                assert(bytes.take(8) =~= hb);
                assert(bytes.skip(8) =~= after);
                assert(spec_decode_vevents(bytes, order) =~= seq![e] + spec_decode_vevents(
                    after,
                    order,
                ));
                assert(events =~= seq![e] + rest);
            },
            Some(r) => {
                let w0 = spec_u64_to_bytes(r.evt[0], order);
                let w1 = spec_u64_to_bytes(r.evt[1], order);
                let w2 = spec_u64_to_bytes(r.evt[2], order);
                let w3 = spec_u64_to_bytes(r.evt[3], order);
                lemma_u64_bytes_roundtrip(r.evt[0], order);
                lemma_u64_bytes_roundtrip(r.evt[1], order);
                lemma_u64_bytes_roundtrip(r.evt[2], order);
                lemma_u64_bytes_roundtrip(r.evt[3], order);
                let rb = w0 + w1 + w2 + w3;
                assert(rb.subrange(0, 8) =~= w0);
                assert(rb.subrange(8, 16) =~= w1);
                assert(rb.subrange(16, 24) =~= w2);
                assert(rb.subrange(24, 32) =~= w3);
                let decoded = spec_vevent_arm_smmuv3(rb, order);
                assert(decoded.evt =~= r.evt);
                assert(decoded == r);
                assert(spec_vevent_bytes(e, order) =~= hb + rb);
                assert(bytes =~= hb + (rb + after));
                assert(bytes.take(8) =~= hb);
                assert(bytes.skip(8) =~= rb + after);
                assert((rb + after).take(32) =~= rb);
                assert((rb + after).skip(32) =~= after);
                assert(spec_decode_vevents(bytes, order) =~= seq![e] + spec_decode_vevents(
                    after,
                    order,
                ));
                assert(events =~= seq![e] + rest);
            },
        }
    }
}

/// A read that ends inside the last event (a partial header, or a header
/// without LOST_EVENTS whose record is cut short) decodes to exactly the
/// complete events before it.
pub proof fn lemma_decode_drops_truncated_event(
    events: Seq<ArmSmmuv3VEvent>,
    tail: Seq<u8>,
    order: HostByteOrder,
)
    requires
        forall|i: int| 0 <= i < events.len() ==> spec_vevent_well_formed(#[trigger] events[i]),
        tail.len() < 8 || (!spec_is_lost_events(spec_vevent_header(tail, order)) && tail.len()
            < 40),
    ensures
        spec_decode_vevents(spec_encode_vevents(events, order) + tail, order) == events,
{
    lemma_decode_encoded_vevents(events, tail, order);
    if tail.len() >= 8 {
        assert(tail.take(8).subrange(0, 4) =~= tail.subrange(0, 4));
        assert(tail.take(8).subrange(4, 8) =~= tail.subrange(4, 8));
        assert(spec_vevent_header(tail.take(8), order) == spec_vevent_header(tail, order));
    }
    assert(spec_decode_vevents(tail, order) =~= Seq::empty());
    assert(events + Seq::<ArmSmmuv3VEvent>::empty() =~= events);
}

fn read_u32(bytes: &[u8], off: usize, order: HostByteOrder) -> (r: u32)
    requires
        off + 4 <= bytes.len(),
    ensures
        r == spec_u32_from_bytes(bytes@.subrange(off as int, off + 4), order),
{
    let s = slice_subrange(bytes, off, off + 4);
    match order {
        HostByteOrder::Little => u32_from_le_bytes(s),
        HostByteOrder::Big => {
            let v: Vec<u8> = vec![s[3], s[2], s[1], s[0]];
            assert(v@ =~= s@.reverse());
            u32_from_le_bytes(v.as_slice())
        },
    }
}

fn read_u64(bytes: &[u8], off: usize, order: HostByteOrder) -> (r: u64)
    requires
        off + 8 <= bytes.len(),
    ensures
        r == spec_u64_from_bytes(bytes@.subrange(off as int, off + 8), order),
{
    let s = slice_subrange(bytes, off, off + 8);
    match order {
        HostByteOrder::Little => u64_from_le_bytes(s),
        HostByteOrder::Big => {
            let v: Vec<u8> = vec![s[7], s[6], s[5], s[4], s[3], s[2], s[1], s[0]];
            assert(v@ =~= s@.reverse());
            u64_from_le_bytes(v.as_slice())
        },
    }
}

fn read_vevent_header(bytes: &[u8], off: usize, order: HostByteOrder) -> (r: IommufdVeventHeader)
    requires
        off + 8 <= bytes.len(),
    ensures
        r == spec_vevent_header(bytes@.subrange(off as int, off + 8), order),
{
    let flags = read_u32(bytes, off, order);
    let sequence = read_u32(bytes, off + 4, order);
    proof {
        let s = bytes@.subrange(off as int, off + 8);
        assert(s.subrange(0, 4) =~= bytes@.subrange(off as int, off + 4));
        assert(s.subrange(4, 8) =~= bytes@.subrange(off + 4, off + 8));
    }
    IommufdVeventHeader { flags, sequence }
}

fn read_vevent_arm_smmuv3(bytes: &[u8], off: usize, order: HostByteOrder) -> (r: IommuVeventArmSmmuv3)
    requires
        off + 32 <= bytes.len(),
    ensures
        r == spec_vevent_arm_smmuv3(bytes@.subrange(off as int, off + 32), order),
{
    let e0 = read_u64(bytes, off, order);
    let e1 = read_u64(bytes, off + 8, order);
    let e2 = read_u64(bytes, off + 16, order);
    let e3 = read_u64(bytes, off + 24, order);
    proof {
        let s = bytes@.subrange(off as int, off + 32);
        assert(s.subrange(0, 8) =~= bytes@.subrange(off as int, off + 8));
        assert(s.subrange(8, 16) =~= bytes@.subrange(off + 8, off + 16));
        assert(s.subrange(16, 24) =~= bytes@.subrange(off + 16, off + 24));
        assert(s.subrange(24, 32) =~= bytes@.subrange(off + 24, off + 32));
    }
    IommuVeventArmSmmuv3 { evt: [e0, e1, e2, e3] }
}

/// Decodes the ARM SMMUv3 vEVENTs that one read of a vEVENTQ returned.
///
/// The bytes are a sequence of headers, each followed by an event record
/// unless it carries `LOST_EVENTS`; a header or record that the bytes hold
/// only in part ends the decoding.
pub fn decode_arm_smmuv3_events(bytes: &[u8], order: HostByteOrder) -> (events: Vec<
    ArmSmmuv3VEvent,
>)
    ensures
        events@ == spec_decode_vevents(bytes@, order),
{
    let hdr = vevent_header_size();
    let rec = vevent_arm_smmuv3_size();
    let lost = veventq_flag_lost_events();
    let n = bytes.len();
    let mut events: Vec<ArmSmmuv3VEvent> = Vec::new();
    let mut off: usize = 0;
    assert(bytes@.skip(0) =~= bytes@);
    while n - off >= hdr
        invariant
            off <= n,
            n == bytes@.len(),
            hdr == 8,
            rec == 32,
            lost == spec_veventq_flag_lost_events(),
            spec_decode_vevents(bytes@, order) =~= events@ + spec_decode_vevents(
                bytes@.skip(off as int),
                order,
            ),
        decreases n - off,
    {
        let ghost cur = bytes@.skip(off as int);
        let ghost before = events@;
        let header = read_vevent_header(bytes, off, order);
        proof {
            assert(cur.take(8) =~= bytes@.subrange(off as int, off + 8));
            assert(cur.skip(8) =~= bytes@.skip(off + 8));
        }
        off = off + hdr;
        if header.flags & lost != 0 {
            events.push((header, None));
            assert(events@ + spec_decode_vevents(bytes@.skip(off as int), order) =~= before + (
            seq![(header, None::<IommuVeventArmSmmuv3>)] + spec_decode_vevents(
                bytes@.skip(off as int),
                order,
            )));
            continue;
        }
        if n - off < rec {
            // A record that the read returned only in part ends the batch.
            assert(events@ + spec_decode_vevents(cur, order) =~= events@);
            return events;
        }
        let evt = read_vevent_arm_smmuv3(bytes, off, order);
        proof {
            let rest = bytes@.skip(off as int);
            assert(rest.take(32) =~= bytes@.subrange(off as int, off + 32));
            assert(rest.skip(32) =~= bytes@.skip(off + 32));
        }
        off = off + rec;
        events.push((header, Some(evt)));
        assert(events@ + spec_decode_vevents(bytes@.skip(off as int), order) =~= before + (
        seq![(header, Some(evt))] + spec_decode_vevents(bytes@.skip(off as int), order)));
    }
    assert(events@ + spec_decode_vevents(bytes@.skip(off as int), order) =~= events@);
    events
}

} // verus!

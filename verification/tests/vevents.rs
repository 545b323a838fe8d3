use iommufd_ioctls::{
    decode_arm_smmuv3_events, HostByteOrder, IommuVeventArmSmmuv3, IommufdVeventHeader,
};

fn header_le(flags: u32, sequence: u32) -> Vec<u8> {
    let mut v = flags.to_le_bytes().to_vec();
    v.extend_from_slice(&sequence.to_le_bytes());
    v
}

fn record_le(evt: [u64; 4]) -> Vec<u8> {
    evt.iter().flat_map(|w| w.to_le_bytes()).collect()
}

fn header_be(flags: u32, sequence: u32) -> Vec<u8> {
    let mut v = flags.to_be_bytes().to_vec();
    v.extend_from_slice(&sequence.to_be_bytes());
    v
}

fn record_be(evt: [u64; 4]) -> Vec<u8> {
    evt.iter().flat_map(|w| w.to_be_bytes()).collect()
}

const EVT0: [u64; 4] = [0x0000_0001_0000_0010, 0x2, 0xdead_beef_0000_1000, 0x4];
const EVT1: [u64; 4] = [0x0000_0005_0000_0013, 0x6, 0x7, 0x8];

#[test]
fn decodes_events_in_order() {
    let mut bytes = header_le(0, 0);
    bytes.extend(record_le(EVT0));
    bytes.extend(header_le(0, 1));
    bytes.extend(record_le(EVT1));
    let events = decode_arm_smmuv3_events(&bytes, HostByteOrder::Little);
    assert_eq!(
        events,
        vec![
            (IommufdVeventHeader { flags: 0, sequence: 0 }, Some(IommuVeventArmSmmuv3 { evt: EVT0 })),
            (IommufdVeventHeader { flags: 0, sequence: 1 }, Some(IommuVeventArmSmmuv3 { evt: EVT1 })),
        ]
    );
}

#[test]
fn lost_events_header_has_no_record() {
    let mut bytes = header_le(0, 3);
    bytes.extend(record_le(EVT0));
    bytes.extend(header_le(1, 4));
    let events = decode_arm_smmuv3_events(&bytes, HostByteOrder::Little);
    assert_eq!(
        events,
        vec![
            (IommufdVeventHeader { flags: 0, sequence: 3 }, Some(IommuVeventArmSmmuv3 { evt: EVT0 })),
            (IommufdVeventHeader { flags: 1, sequence: 4 }, None),
        ]
    );
}

#[test]
fn lost_events_marker_then_more_events() {
    let mut bytes = header_le(1, 4);
    bytes.extend(header_le(2, 6));
    bytes.extend(record_le(EVT1));
    let events = decode_arm_smmuv3_events(&bytes, HostByteOrder::Little);
    // Flag bit 1 is not LOST_EVENTS: a record follows.
    assert_eq!(
        events,
        vec![
            (IommufdVeventHeader { flags: 1, sequence: 4 }, None),
            (IommufdVeventHeader { flags: 2, sequence: 6 }, Some(IommuVeventArmSmmuv3 { evt: EVT1 })),
        ]
    );
}

#[test]
fn truncated_record_ends_the_batch() {
    let mut bytes = header_le(0, 0);
    bytes.extend(record_le(EVT0));
    bytes.extend(header_le(0, 1));
    bytes.extend(&record_le(EVT1)[..31]);
    let events = decode_arm_smmuv3_events(&bytes, HostByteOrder::Little);
    assert_eq!(
        events,
        vec![(IommufdVeventHeader { flags: 0, sequence: 0 }, Some(IommuVeventArmSmmuv3 { evt: EVT0 }))]
    );
}

#[test]
fn partial_header_is_ignored() {
    let mut bytes = header_le(1, 9);
    bytes.extend(&header_le(0, 10)[..7]);
    let events = decode_arm_smmuv3_events(&bytes, HostByteOrder::Little);
    assert_eq!(events, vec![(IommufdVeventHeader { flags: 1, sequence: 9 }, None)]);
}

#[test]
fn empty_read_has_no_events() {
    assert!(decode_arm_smmuv3_events(&[], HostByteOrder::Little).is_empty());
    assert!(decode_arm_smmuv3_events(&[1, 2, 3, 4, 5, 6, 7], HostByteOrder::Big).is_empty());
}

#[test]
fn decodes_big_endian_hosts() {
    let mut bytes = header_be(0, 0x0102_0304);
    bytes.extend(record_be(EVT0));
    bytes.extend(header_be(1, 5));
    let events = decode_arm_smmuv3_events(&bytes, HostByteOrder::Big);
    assert_eq!(
        events,
        vec![
            (
                IommufdVeventHeader { flags: 0, sequence: 0x0102_0304 },
                Some(IommuVeventArmSmmuv3 { evt: EVT0 })
            ),
            (IommufdVeventHeader { flags: 1, sequence: 5 }, None),
        ]
    );
    // The same bytes read as little-endian give other values.
    let le = decode_arm_smmuv3_events(&bytes, HostByteOrder::Little);
    assert_eq!(le[0].0.sequence, 0x0403_0201);
}

#[test]
fn decodes_from_any_alignment() {
    let mut bytes = vec![0xffu8]; // the queue need not be aligned in the buffer
    bytes.extend(header_le(0, 42));
    bytes.extend(record_le(EVT1));
    let events = decode_arm_smmuv3_events(&bytes[1..], HostByteOrder::Little);
    assert_eq!(
        events,
        vec![(IommufdVeventHeader { flags: 0, sequence: 42 }, Some(IommuVeventArmSmmuv3 { evt: EVT1 }))]
    );
}

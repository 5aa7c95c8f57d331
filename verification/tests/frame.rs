use cerberus::frame::{BusFrame, ExtendedId, FrameCreateError, Id, StandardId};

#[test]
fn standard_id_accepts_eleven_bits() {
    assert_eq!(StandardId::new(0).map(|id| id.as_raw()), Some(0));
    assert_eq!(StandardId::new(0x502).map(|id| id.as_raw()), Some(0x502));
    assert_eq!(StandardId::new(0x7FF).map(|id| id.as_raw()), Some(0x7FF));
}

#[test]
fn standard_id_rejects_twelve_bits() {
    assert_eq!(StandardId::new(0x800), None);
    assert_eq!(StandardId::new(u16::MAX), None);
}

#[test]
fn extended_id_accepts_twenty_nine_bits() {
    assert_eq!(ExtendedId::new(0x1FFF_FFFF).map(|id| id.as_raw()), Some(0x1FFF_FFFF));
    assert_eq!(ExtendedId::new(0x2000_0000), None);
}

#[test]
fn extended_id_base_part_is_top_eleven_bits() {
    let id = ExtendedId::new(0x1FFF_FFFF).unwrap();
    assert_eq!(id.standard_id().as_raw(), 0x7FF);
    let id = ExtendedId::new(0x416 << 18 | 0x3_1234).unwrap();
    assert_eq!(id.standard_id().as_raw(), 0x416);
    let id = ExtendedId::new(0x3_FFFF).unwrap();
    assert_eq!(id.standard_id().as_raw(), 0);
}

#[test]
fn frame_keeps_identifier_and_payload() {
    let id = Id::Standard(StandardId::new(0x123).unwrap());
    let frame = BusFrame::new_data(id, &[1, 2, 3]).unwrap();
    assert_eq!(frame.id(), id);
    assert_eq!(frame.data(), &[1, 2, 3]);
    assert_eq!(frame.len(), 3);
}

#[test]
fn frame_holds_zero_to_eight_bytes() {
    let id = StandardId::new(0x1).unwrap();
    assert_eq!(BusFrame::new_standard(id, &[]).unwrap().len(), 0);
    assert_eq!(BusFrame::new_standard(id, &[0; 8]).unwrap().len(), 8);
}

#[test]
fn frame_rejects_nine_bytes() {
    let id = StandardId::new(0x1).unwrap();
    assert_eq!(BusFrame::new_standard(id, &[0; 9]), Err(FrameCreateError::InvalidDataLength));
    assert_eq!(
        BusFrame::new_data(Id::Standard(id), &[0; 64]),
        Err(FrameCreateError::InvalidDataLength)
    );
}

#[test]
fn frame_clone_is_equal() {
    let id = Id::Extended(ExtendedId::new(0x1234_5678).unwrap());
    let frame = BusFrame::new_data(id, &[9, 8, 7, 6]).unwrap();
    let copy = frame.clone();
    assert_eq!(copy, frame);
    assert_eq!(copy.data(), &[9, 8, 7, 6]);
}

#[test]
fn frame_priority_is_identifier_or_base_part() {
    let standard = BusFrame::new_standard(StandardId::new(0x502).unwrap(), &[]).unwrap();
    assert_eq!(standard.priority(), 0x502);
    let extended =
        BusFrame::new_data(Id::Extended(ExtendedId::new(0x156 << 18).unwrap()), &[]).unwrap();
    assert_eq!(extended.priority(), 0x156);
}

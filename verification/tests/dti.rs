use cerberus::can_handler::DTI_RPM_MSG_ID;
use cerberus::dti::{decode_erpm, on_frame, speed_mph, POLE_PAIRS};
use cerberus::frame::{BusFrame, ExtendedId, Id, StandardId};

fn telemetry(data: &[u8]) -> BusFrame {
    BusFrame::new_standard(StandardId::new(DTI_RPM_MSG_ID).unwrap(), data).unwrap()
}

#[test]
fn erpm_is_big_endian_and_signed() {
    assert_eq!(decode_erpm(&[0x00, 0x00, 0xB7, 0x98]), 47000);
    assert_eq!(decode_erpm(&[0xFF, 0xFF, 0x48, 0x68]), -47000);
    assert_eq!(decode_erpm(&[0x7F, 0xFF, 0xFF, 0xFF]), i32::MAX);
    assert_eq!(decode_erpm(&[0x80, 0x00, 0x00, 0x00]), i32::MIN);
    assert_eq!(decode_erpm(&[0xFF, 0xFF, 0xFF, 0xFF]), -1);
    assert_eq!(decode_erpm(&[0x12, 0x34, 0x56, 0x78]), i32::from_be_bytes([0x12, 0x34, 0x56, 0x78]));
}

#[test]
fn erpm_reads_only_the_first_four_bytes() {
    assert_eq!(decode_erpm(&[0x00, 0x00, 0xB7, 0x98, 0xAA, 0xBB, 0xCC, 0xDD]), 47000);
}

#[test]
fn erpm_counts_missing_bytes_as_zero() {
    assert_eq!(decode_erpm(&[]), 0);
    assert_eq!(decode_erpm(&[0x01]), 0x0100_0000);
    assert_eq!(decode_erpm(&[0x00, 0x00, 0xB7]), 0xB700);
}

#[test]
fn speed_for_47000_erpm_is_61_mph() {
    assert_eq!(POLE_PAIRS, 10);
    assert_eq!(speed_mph(47000), 61);
    let mph = (47000 / 10) as f32 / (47.0f32 / 13.0) * 60.0 * (16.0f32 / 63360.0)
        * core::f32::consts::PI;
    assert_eq!(speed_mph(47000), mph as i32);
}

#[test]
fn speed_is_rounded_towards_zero() {
    assert_eq!(speed_mph(0), 0);
    assert_eq!(speed_mph(9), 0);
    assert_eq!(speed_mph(-9), 0);
    assert_eq!(speed_mph(759), 0);
    assert_eq!(speed_mph(760), 1);
    assert_eq!(speed_mph(-760), -1);
    assert_eq!(speed_mph(-47000), -61);
}

#[test]
fn speed_at_the_ends_of_the_range() {
    assert_eq!(speed_mph(i32::MAX), 2_827_361);
    assert_eq!(speed_mph(i32::MIN), -2_827_361);
}

#[test]
fn telemetry_frame_publishes_speed() {
    assert_eq!(on_frame(&telemetry(&[0x00, 0x00, 0xB7, 0x98])), Some(61));
    assert_eq!(on_frame(&telemetry(&[0x00, 0x00, 0xB7, 0x98, 1, 2, 3, 4])), Some(61));
    assert_eq!(on_frame(&telemetry(&[0x01])), Some(22088));
}

#[test]
fn unrelated_frames_publish_nothing() {
    let other = BusFrame::new_standard(StandardId::new(0x156).unwrap(), &[0, 0, 0xB7, 0x98]);
    assert_eq!(on_frame(&other.unwrap()), None);
    let extended = BusFrame::new_data(
        Id::Extended(ExtendedId::new(0x416).unwrap()),
        &[0, 0, 0xB7, 0x98],
    );
    assert_eq!(on_frame(&extended.unwrap()), None);
}

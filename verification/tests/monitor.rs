use cerberus::frame::{Id, StandardId};
use cerberus::monitor::{
    fuse_bytes, fuse_frame, lv_sense_frame, CtrlExpander, PinWrite, RegisterWrite,
    CTRL_EXPANDER_I2C_ADDR, RTDS_SOUND_TIME_MS,
};
use cerberus::pca9539::{Bank, Pin, RegisterType};
use cerberus::PduCommand;

fn output(bank: Bank, pin: Pin, state: bool) -> Option<PinWrite> {
    Some(PinWrite { reg: RegisterType::OutputLevel, bank, pin, state })
}

#[test]
fn setup_writes_levels_then_directions() {
    assert_eq!(CTRL_EXPANDER_I2C_ADDR, 0x76);
    assert_eq!(
        CtrlExpander::initial_setup(),
        [
            RegisterWrite { reg: RegisterType::OutputLevel, bank: Bank::Bank0, data: 0b0000_0010 },
            RegisterWrite { reg: RegisterType::OutputLevel, bank: Bank::Bank1, data: 0b0000_0010 },
            RegisterWrite { reg: RegisterType::Direction, bank: Bank::Bank0, data: 0b1111_0000 },
            RegisterWrite { reg: RegisterType::Direction, bank: Bank::Bank1, data: 0b0111_1111 },
        ]
    );
}

#[test]
fn commands_switch_their_pins() {
    let mut handler = CtrlExpander::new(0);
    for state in [true, false] {
        assert_eq!(
            handler.on_command(PduCommand::WritePump(state), 5),
            output(Bank::Bank0, Pin::P00, state)
        );
        assert_eq!(
            handler.on_command(PduCommand::WriteFault(state), 5),
            output(Bank::Bank0, Pin::P01, state)
        );
        assert_eq!(
            handler.on_command(PduCommand::WriteBrakelight(state), 5),
            output(Bank::Bank0, Pin::P02, state)
        );
    }
    assert!(!handler.is_sounding());
}

#[test]
fn sound_command_starts_the_sound_and_sets_no_pin() {
    let mut handler = CtrlExpander::new(0);
    assert_eq!(handler.on_command(PduCommand::SoundRtds, 1000), None);
    assert!(handler.is_sounding());
}

#[test]
fn sound_ends_after_its_time() {
    let mut handler = CtrlExpander::new(0);
    assert_eq!(handler.on_tsms_tick(50_000), None);
    handler.on_command(PduCommand::SoundRtds, 1000);
    assert_eq!(handler.on_tsms_tick(1100), None);
    assert_eq!(handler.on_tsms_tick(1000 + RTDS_SOUND_TIME_MS), None);
    assert!(handler.is_sounding());
    assert_eq!(
        handler.on_tsms_tick(1000 + RTDS_SOUND_TIME_MS + 1),
        output(Bank::Bank1, Pin::P07, false)
    );
    assert!(!handler.is_sounding());
    assert_eq!(handler.on_tsms_tick(1000 + 2 * RTDS_SOUND_TIME_MS), None);
}

#[test]
fn sound_command_during_the_sound_restarts_its_time() {
    let mut handler = CtrlExpander::new(0);
    handler.on_command(PduCommand::SoundRtds, 1000);
    handler.on_command(PduCommand::SoundRtds, 2000);
    assert_eq!(handler.on_tsms_tick(3000), None);
    assert_eq!(handler.on_tsms_tick(3751), output(Bank::Bank1, Pin::P07, false));
}

#[test]
fn steady_sense_is_published_after_six_agreeing_readings() {
    let mut handler = CtrlExpander::new(0);
    let mut published = Vec::new();
    for _ in 0..20 {
        published.push(handler.on_tsms_sample(false));
    }
    let expected: Vec<Option<bool>> = (0..20)
        .map(|i| if i == 6 || i == 12 || i == 18 { Some(false) } else { None })
        .collect();
    assert_eq!(published, expected);
}

#[test]
fn changed_sense_is_not_published_at_once() {
    let mut handler = CtrlExpander::new(0);
    assert_eq!(handler.on_tsms_sample(true), None);
    let mut published = Vec::new();
    for _ in 0..7 {
        published.push(handler.on_tsms_sample(true));
    }
    assert_eq!(published, vec![None, None, None, None, None, None, Some(true)]);
}

#[test]
fn flickering_sense_is_never_published() {
    let mut handler = CtrlExpander::new(0);
    let mut level = true;
    for _ in 0..100 {
        assert_eq!(handler.on_tsms_sample(level), None);
        level = !level;
    }
}

#[test]
fn fuse_report_reads_bank_zero_from_pin_four() {
    assert_eq!(fuse_bytes(0b0001_0000, 0), [0b1000_0000, 0]);
    assert_eq!(fuse_bytes(0b0010_0000, 0), [0b0100_0000, 0]);
    assert_eq!(fuse_bytes(0b0100_0000, 0), [0b0010_0000, 0]);
    assert_eq!(fuse_bytes(0b1000_0000, 0), [0b0001_0000, 0]);
    assert_eq!(fuse_bytes(0b0000_1111, 0), [0, 0]);
}

#[test]
fn fuse_report_reads_bank_one_up_to_pin_four() {
    assert_eq!(fuse_bytes(0, 0b0000_0001), [0b0000_1000, 0]);
    assert_eq!(fuse_bytes(0, 0b0000_0010), [0b0000_0100, 0]);
    assert_eq!(fuse_bytes(0, 0b0000_0100), [0b0000_0010, 0]);
    assert_eq!(fuse_bytes(0, 0b0000_1000), [0b0000_0001, 0]);
    assert_eq!(fuse_bytes(0, 0b0001_0000), [0, 0b1000_0000]);
    assert_eq!(fuse_bytes(0, 0b1110_0000), [0, 0]);
}

#[test]
fn fuse_report_of_all_pins() {
    assert_eq!(fuse_bytes(0xFF, 0xFF), [0xFF, 0x80]);
    assert_eq!(fuse_bytes(0x00, 0x00), [0x00, 0x00]);
    assert_eq!(fuse_bytes(0b1010_0110, 0b0101_0011), [0b0101_1100, 0b1000_0000]);
}

#[test]
fn fuse_frame_carries_the_report() {
    let frame = fuse_frame(0b0001_0000, 0b0001_1000);
    assert_eq!(frame.id(), Id::Standard(StandardId::new(0x111).unwrap()));
    assert_eq!(frame.data(), &[0b1000_0001, 0b1000_0000]);
}

#[test]
fn lv_sense_frame_carries_the_voltage() {
    let frame = lv_sense_frame(0x0001_5E3A);
    assert_eq!(frame.id(), Id::Standard(StandardId::new(0x503).unwrap()));
    assert_eq!(frame.data(), &[0x00, 0x01, 0x5E, 0x3A]);
}

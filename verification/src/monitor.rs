//! The control expander: the outputs that the power distribution commands
//! switch, the sense input of the traction system, and the fuse report.
//!
//! The handler owns an I/O expander. What it decides stands here; reading
//! and writing the expander is the caller's.

use bitfield::Bit;
use vstd::prelude::*;
use crate::encoding::{
    be_bytes_of_u32,
    bit_of,
    lemma_bits_determine_byte,
    lemma_one_bit_changes,
    lemma_zero_has_no_bit,
    u32_to_be_bytes,
    with_bit,
};
use crate::frame::{BusFrame, RawId, StandardId};
use crate::pca9539::{Bank, Pin, RegisterType};
use crate::state_machine::PduCommand;

verus! {

/// Identifier of the low voltage sense broadcast.
pub const LV_SENSE_MSG_ID: u16 = 0x503;

/// Period of the low voltage sense broadcast, in milliseconds.
pub const LV_SENSE_REFRESH_TIME_MS: u64 = 750;

/// Identifier of the fuse report.
pub const FUSE_MSG_ID: u16 = 0x111;

/// How long the ready-to-drive sound lasts, in milliseconds. The sound is
/// ended on a sense tick, so it may last one tick longer.
pub const RTDS_SOUND_TIME_MS: u64 = 1750;

/// I2C address of the control expander.
pub const CTRL_EXPANDER_I2C_ADDR: u8 = 0x76;

/// Period of the traction system sense, in milliseconds.
pub const TSMS_REFRESH_TIME_MS: u64 = 100;

/// Period of the fuse report, in milliseconds.
pub const FUSE_REFRESH_TIME_MS: u64 = 800;

/// Number of equal readings in a row after which the traction system sense
/// is published.
pub const TSMS_DEBOUNCE_COUNT: u8 = 5;

/// One pin of the expander to set.
#[derive(Clone, Copy, Debug, PartialEq, Eq, Structural)]
pub struct PinWrite {
    pub reg: RegisterType,
    pub bank: Bank,
    pub pin: Pin,
    pub state: bool,
}

/// One register of the expander to write.
#[derive(Clone, Copy, Debug, PartialEq, Eq, Structural)]
pub struct RegisterWrite {
    pub reg: RegisterType,
    pub bank: Bank,
    pub data: u8,
}

/// What the handler remembers between events.
pub struct ExpanderState {
    /// The last reading of the traction system sense.
    pub tsms_prev_state: bool,
    /// How many readings have agreed with the one before since the sense
    /// was last published.
    pub tsms_state_count: u8,
    /// The ready-to-drive sound is on.
    pub active_sounding: bool,
    /// When the ready-to-drive sound began, in milliseconds.
    pub rtds_sound_start: u64,
}

impl ExpanderState {
    /// The state at boot, at time `now`.
    pub open spec fn initial(now: u64) -> ExpanderState {
        ExpanderState {
            tsms_prev_state: false,
            tsms_state_count: 0,
            active_sounding: false,
            rtds_sound_start: now,
        }
    }

    /// The ready-to-drive sound has lasted longer than it should at time
    /// `now`.
    pub open spec fn sound_is_over(self, now: u64) -> bool {
        self.active_sounding && now - self.rtds_sound_start > RTDS_SOUND_TIME_MS
    }

    /// The state after the sense tick at time `now`.
    pub open spec fn after_tick(self, now: u64) -> ExpanderState {
        if self.sound_is_over(now) {
            ExpanderState { active_sounding: false, ..self }
        } else {
            self
        }
    }

    /// The reading `state` is published: it agrees with the one before, and
    /// more than five readings have agreed since the last publication.
    pub open spec fn publishes(self, state: bool) -> bool {
        state == self.tsms_prev_state && self.tsms_state_count > TSMS_DEBOUNCE_COUNT
    }

    /// The state after the reading `state` of the traction system sense.
    pub open spec fn after_sample(self, state: bool) -> ExpanderState {
        ExpanderState {
            tsms_prev_state: state,
            tsms_state_count: if state != self.tsms_prev_state {
                self.tsms_state_count
            } else if self.tsms_state_count > TSMS_DEBOUNCE_COUNT {
                1
            } else {
                (self.tsms_state_count + 1) as u8
            },
            ..self
        }
    }

    /// The state after a command at time `now`.
    pub open spec fn after_command(self, command: PduCommand, now: u64) -> ExpanderState {
        match command {
            PduCommand::SoundRtds => ExpanderState {
                active_sounding: true,
                rtds_sound_start: now,
                ..self
            },
            _ => self,
        }
    }
}

/// The pin that ends the ready-to-drive sound.
pub open spec fn sound_off() -> PinWrite {
    PinWrite { reg: RegisterType::OutputLevel, bank: Bank::Bank1, pin: Pin::P07, state: false }
}

/// The pin that a command switches; the sound command switches none.
pub open spec fn pin_for(command: PduCommand) -> Option<PinWrite> {
    match command {
        PduCommand::WritePump(state) => Some(
            PinWrite { reg: RegisterType::OutputLevel, bank: Bank::Bank0, pin: Pin::P00, state },
        ),
        PduCommand::WriteBrakelight(state) => Some(
            PinWrite { reg: RegisterType::OutputLevel, bank: Bank::Bank0, pin: Pin::P02, state },
        ),
        PduCommand::WriteFault(state) => Some(
            PinWrite { reg: RegisterType::OutputLevel, bank: Bank::Bank0, pin: Pin::P01, state },
        ),
        PduCommand::SoundRtds => None,
    }
}

/// The registers to write at boot, in this order: the output levels of
/// both banks, then their directions.
pub open spec fn setup_writes() -> Seq<RegisterWrite> {
    seq![
        RegisterWrite { reg: RegisterType::OutputLevel, bank: Bank::Bank0, data: 0b0000_0010 },
        RegisterWrite { reg: RegisterType::OutputLevel, bank: Bank::Bank1, data: 0b0000_0010 },
        RegisterWrite { reg: RegisterType::Direction, bank: Bank::Bank0, data: 0b1111_0000 },
        RegisterWrite { reg: RegisterType::Direction, bank: Bank::Bank1, data: 0b0111_1111 },
    ]
}

/// The handler of the control expander.
#[derive(Debug)]
pub struct CtrlExpander {
    tsms_prev_state: bool,
    tsms_state_count: u8,
    active_sounding: bool,
    rtds_sound_start: u64,
}

impl View for CtrlExpander {
    type V = ExpanderState;

    closed spec fn view(&self) -> ExpanderState {
        ExpanderState {
            tsms_prev_state: self.tsms_prev_state,
            tsms_state_count: self.tsms_state_count,
            active_sounding: self.active_sounding,
            rtds_sound_start: self.rtds_sound_start,
        }
    }
}

impl CtrlExpander {
    /// The count of agreeing readings never passes six.
    #[verifier::type_invariant]
    pub open spec fn is_valid(self) -> bool {
        self@.tsms_state_count <= TSMS_DEBOUNCE_COUNT + 1
    }

    /// The handler at boot, at time `now`.
    pub fn new(now: u64) -> (handler: CtrlExpander)
        ensures
            handler@ == ExpanderState::initial(now),
    {
        CtrlExpander {
            tsms_prev_state: false,
            tsms_state_count: 0,
            active_sounding: false,
            rtds_sound_start: now,
        }
    }

    /// The registers to write at boot, in order.
    pub fn initial_setup() -> (writes: [RegisterWrite; 4])
        ensures
            writes@ == setup_writes(),
    {
        let writes: [RegisterWrite; 4] = [
            RegisterWrite { reg: RegisterType::OutputLevel, bank: Bank::Bank0, data: 0b0000_0010 },
            RegisterWrite { reg: RegisterType::OutputLevel, bank: Bank::Bank1, data: 0b0000_0010 },
            RegisterWrite { reg: RegisterType::Direction, bank: Bank::Bank0, data: 0b1111_0000 },
            RegisterWrite { reg: RegisterType::Direction, bank: Bank::Bank1, data: 0b0111_1111 },
        ];
        assert(writes@ =~= setup_writes());
        writes
    }

    /// Whether the ready-to-drive sound is on.
    pub fn is_sounding(&self) -> (sounding: bool)
        ensures
            sounding == self@.active_sounding,
    {
        self.active_sounding
    }

    /// The sense tick at time `now`: ends the ready-to-drive sound if its
    /// time is up, and returns the pin to set for that.
    pub fn on_tsms_tick(&mut self, now: u64) -> (write: Option<PinWrite>)
        ensures
            final(self)@ == old(self)@.after_tick(now),
            write == (if old(self)@.sound_is_over(now) {
                Some(sound_off())
            } else {
                None
            }),
    {
        proof {
            use_type_invariant(&*self);
        }
        if self.active_sounding && now > self.rtds_sound_start && now - self.rtds_sound_start
            > RTDS_SOUND_TIME_MS {
            self.active_sounding = false;
            Some(
                PinWrite {
                    reg: RegisterType::OutputLevel,
                    bank: Bank::Bank1,
                    pin: Pin::P07,
                    state: false,
                },
            )
        } else {
            None
        }
    }

    /// Takes in one reading of the traction system sense and returns the
    /// level to publish, if the reading has been steady for long enough.
    pub fn on_tsms_sample(&mut self, state: bool) -> (published: Option<bool>)
        ensures
            final(self)@ == old(self)@.after_sample(state),
            published == (if old(self)@.publishes(state) {
                Some(state)
            } else {
                None
            }),
    {
        proof {
            use_type_invariant(&*self);
        }
        let mut published: Option<bool> = None;
        if state == self.tsms_prev_state {
            let mut count: u8 = self.tsms_state_count;
            if count > TSMS_DEBOUNCE_COUNT {
                published = Some(state);
                count = 0;
            }
            self.tsms_state_count = count + 1;
        }
        self.tsms_prev_state = state;
        published
    }

    /// Takes in one command at time `now` and returns the pin to set for it.
    /// The sound command sets no pin: it starts the time of the sound.
    pub fn on_command(&mut self, command: PduCommand, now: u64) -> (write: Option<PinWrite>)
        ensures
            final(self)@ == old(self)@.after_command(command, now),
            write == pin_for(command),
    {
        proof {
            use_type_invariant(&*self);
        }
        match command {
            PduCommand::WritePump(state) => Some(
                PinWrite {
                    reg: RegisterType::OutputLevel,
                    bank: Bank::Bank0,
                    pin: Pin::P00,
                    state,
                },
            ),
            PduCommand::WriteBrakelight(state) => Some(
                PinWrite {
                    reg: RegisterType::OutputLevel,
                    bank: Bank::Bank0,
                    pin: Pin::P02,
                    state,
                },
            ),
            PduCommand::WriteFault(state) => Some(
                PinWrite {
                    reg: RegisterType::OutputLevel,
                    bank: Bank::Bank0,
                    pin: Pin::P01,
                    state,
                },
            ),
            PduCommand::SoundRtds => {
                self.active_sounding = true;
                self.rtds_sound_start = now;
                None
            },
        }
    }
}

/// Calls `bitfield::Bit::bit` on a byte. The contract says that the call
/// returns the bit at the given place, counted from the least significant
/// one. Places from 8 on are left out: the call shifts by more than the
/// width of a byte there.
#[verifier::external_body]
fn get_bit(x: u8, place: u8) -> (value: bool)
    requires
        place < 8,
    ensures
        value == bit_of(x, place),
{
    x.bit(place as usize)
}

/// Calls `bitfield::Bit::set_bit` on a byte. The contract says that the call
/// sets the bit at the given place to the given value and leaves the other
/// bits alone. Places from 8 on are left out, as for reading.
#[verifier::external_body]
fn set_bit(x: &mut u8, place: u8, value: bool)
    requires
        place < 8,
    ensures
        *final(x) == with_bit(*old(x), place, value),
{
    x.set_bit(place as usize, value);
}

/// Calls `u8::reverse_bits`. The contract says that the bit at each place of
/// the result is the bit at the mirrored place of the argument: the least
/// significant bit becomes the most significant one, and so on.
#[verifier::external_body]
fn reverse_bits(x: u8) -> (reversed: u8)
    ensures
        forall|place: u8|
            place < 8 ==> #[trigger] bit_of(reversed, place) == bit_of(x, (7 - place) as u8),
{
    x.reverse_bits()
}

fn put_bit(target: &mut u8, place: u8, value: bool)
    requires
        place < 8,
    ensures
        forall|other: u8|
            other < 8 ==> #[trigger] bit_of(*final(target), other) == (if other == place {
                value
            } else {
                bit_of(*old(target), other)
            }),
{
    proof {
        lemma_one_bit_changes(*target, place, value);
    }
    set_bit(target, place, value);
}

/// The bit at place `place` of byte `byte` of the fuse report, for the input
/// levels `data_0` of bank 0 and `data_1` of bank 1. The report holds pins 4
/// to 7 of bank 0 and then pins 0 to 4 of bank 1, from the most significant
/// bit of the first byte down; the other bits of the second byte are zero.
pub open spec fn fuse_bit(data_0: u8, data_1: u8, byte: int, place: u8) -> bool {
    if byte == 0 {
        if place >= 4 {
            bit_of(data_0, (11 - place) as u8)
        } else {
            bit_of(data_1, (3 - place) as u8)
        }
    } else {
        place == 7 && bit_of(data_1, 4)
    }
}

/// The payload is the fuse report for the two input levels.
pub open spec fn is_fuse_report(data_0: u8, data_1: u8, payload: Seq<u8>) -> bool {
    &&& payload.len() == 2
    &&& forall|byte: int, place: u8|
        0 <= byte < 2 && place < 8 ==> bit_of(#[trigger] payload[byte], place) == #[trigger] fuse_bit(
            data_0,
            data_1,
            byte,
            place,
        )
}

/// The input levels have one fuse report and no other.
pub proof fn lemma_fuse_report_is_unique(data_0: u8, data_1: u8, a: Seq<u8>, b: Seq<u8>)
    requires
        is_fuse_report(data_0, data_1, a),
        is_fuse_report(data_0, data_1, b),
    ensures
        a == b,
{
    assert forall|byte: int| 0 <= byte < 2 implies a[byte] == b[byte] by {
        assert forall|place: u8| place < 8 implies bit_of(a[byte], place) == bit_of(
            b[byte],
            place,
        ) by {
            assert(bit_of(a[byte], place) == fuse_bit(data_0, data_1, byte, place));
            assert(bit_of(b[byte], place) == fuse_bit(data_0, data_1, byte, place));
        }
        lemma_bits_determine_byte(a[byte], b[byte]);
    }
    assert(a =~= b);
}

/// The two bytes of the fuse report for the input levels of the two banks.
pub fn fuse_bytes(data_0: u8, data_1: u8) -> (bytes: [u8; 2])
    ensures
        is_fuse_report(data_0, data_1, bytes@),
{
    let mut send_data_1: u8 = 0;
    let mut send_data_2: u8 = 0;
    proof {
        assert forall|place: u8| place < 8 implies !#[trigger] bit_of(0u8, place) by {
            lemma_zero_has_no_bit(place);
        }
    }
    put_bit(&mut send_data_1, 0, get_bit(data_0, 4));
    put_bit(&mut send_data_1, 1, get_bit(data_0, 5));
    put_bit(&mut send_data_1, 2, get_bit(data_0, 6));
    put_bit(&mut send_data_1, 3, get_bit(data_0, 7));
    put_bit(&mut send_data_1, 4, get_bit(data_1, 0));
    put_bit(&mut send_data_1, 5, get_bit(data_1, 1));
    put_bit(&mut send_data_1, 6, get_bit(data_1, 2));
    put_bit(&mut send_data_1, 7, get_bit(data_1, 3));
    put_bit(&mut send_data_2, 0, get_bit(data_1, 4));

    let first: u8 = reverse_bits(send_data_1);
    let second: u8 = reverse_bits(send_data_2);
    let bytes: [u8; 2] = [first, second];
    proof {
        assert forall|byte: int, place: u8| 0 <= byte < 2 && place < 8 implies bit_of(
            #[trigger] bytes@[byte],
            place,
        ) == #[trigger] fuse_bit(data_0, data_1, byte, place) by {
            let mirrored: u8 = (7 - place) as u8;
            if byte == 0 {
                assert(bit_of(first, place) == bit_of(send_data_1, mirrored));
            } else {
                assert(bit_of(second, place) == bit_of(send_data_2, mirrored));
            }
        }
    }
    bytes
}

/// Makes the fuse report frame from the input levels of the two banks.
pub fn fuse_frame(data_0: u8, data_1: u8) -> (frame: BusFrame)
    ensures
        frame@.id == RawId::Standard(FUSE_MSG_ID),
        is_fuse_report(data_0, data_1, frame@.payload),
{
    let bytes: [u8; 2] = fuse_bytes(data_0, data_1);
    let id: StandardId = StandardId::new(FUSE_MSG_ID).unwrap();
    BusFrame::new_standard(id, bytes.as_slice()).unwrap()
}

/// Makes the low voltage sense frame from the input voltage.
pub fn lv_sense_frame(v_in: u32) -> (frame: BusFrame)
    ensures
        frame@.id == RawId::Standard(LV_SENSE_MSG_ID),
        frame@.payload == be_bytes_of_u32(v_in),
{
    let bytes: [u8; 4] = u32_to_be_bytes(v_in);
    let id: StandardId = StandardId::new(LV_SENSE_MSG_ID).unwrap();
    BusFrame::new_standard(id, bytes.as_slice()).unwrap()
}

/// The count of agreeing readings stays at six or below, whatever is read.
pub proof fn lemma_debounce_count_bounded(state: ExpanderState, sample: bool)
    requires
        state.tsms_state_count <= TSMS_DEBOUNCE_COUNT + 1,
    ensures
        state.after_sample(sample).tsms_state_count <= TSMS_DEBOUNCE_COUNT + 1,
        state.publishes(sample) ==> state.after_sample(sample).tsms_state_count == 1,
{
}

} // verus!

//! The steering wheel: six buttons, reported in one frame whenever one of
//! them is pressed.

use vstd::prelude::*;
use crate::frame::{BusFrame, RawId, StandardId};

verus! {

/// Identifier of the button report.
pub const SEND_MSG_ID: u16 = 0x680;

/// Number of buttons on the wheel.
pub const BUTTON_COUNT: usize = 6;

/// The payload of the button report: one byte per button, 1 where the
/// button is held down and 0 where it is not.
pub open spec fn button_payload(pressed: Seq<bool>) -> Seq<u8> {
    Seq::new(
        pressed.len(),
        |i: int|
            if pressed[i] {
                1u8
            } else {
                0u8
            },
    )
}

/// Makes the button report from the state of the six buttons.
pub fn button_frame(pressed: &[bool; 6]) -> (frame: BusFrame)
    ensures
        frame@.id == RawId::Standard(SEND_MSG_ID),
        frame@.payload == button_payload(pressed@),
{
    let mut bytes: [u8; 6] = [0u8; 6];
    let mut i: usize = 0;
    while i < BUTTON_COUNT
        invariant
            i <= BUTTON_COUNT,
            forall|j: int| 0 <= j < i ==> bytes@[j] == button_payload(pressed@)[j],
        decreases BUTTON_COUNT - i,
    {
        let value: u8 = if pressed[i] {
            1
        } else {
            0
        };
        bytes[i] = value;
        i += 1;
    }
    assert(bytes@ =~= button_payload(pressed@));
    let id: StandardId = StandardId::new(SEND_MSG_ID).unwrap();
    BusFrame::new_standard(id, bytes.as_slice()).unwrap()
}

} // verus!

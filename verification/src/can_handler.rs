//! The bus router: which identifiers the controller listens to, what it does
//! with a frame that is waiting to go out, and where an inbound frame goes.
//!
//! The router decides; the caller owns the bus and the mailboxes and carries
//! the decisions out.

use vstd::prelude::*;
use crate::frame::{BusFrame, Id, RawId, StandardId};

verus! {

/// Bit rate of the bus in bits per second.
pub const CAN_BITRATE: u32 = 500_000;

/// Number of frames that the outbound queue holds before producers wait.
pub const OUTBOUND_QUEUE_DEPTH: usize = 25;

/// Identifier of the drivetrain's RPM telemetry.
pub const DTI_RPM_MSG_ID: u16 = 0x416;

/// Identifier of the battery management system's liveness frame.
pub const BMS_DCL_MSG_ID: u16 = 0x156;

/// First identifier of the reserved auxiliary bank.
pub const AUX_1_MSG_ID: u16 = 0x1;

/// Second identifier of the reserved auxiliary bank.
pub const AUX_2_MSG_ID: u16 = 0x2;

/// The single-slot mailboxes that inbound frames are delivered to.
#[derive(Clone, Copy, Debug, PartialEq, Eq, Structural)]
pub enum Mailbox {
    /// Liveness frames of the battery management system.
    Bms,
    /// Telemetry frames of the drivetrain.
    Dti,
}

/// Something worth a line in the log. None of these stops the router.
#[derive(Clone, Copy, Debug, PartialEq, Eq, Structural)]
pub enum Diagnostic {
    /// A frame with a standard identifier that no mailbox is kept for.
    IgnoredStandard(u16),
    /// A frame with an extended identifier.
    IgnoredExtended(u32),
    /// The bus reported an error on receive.
    BusError,
    /// The transmit stage dropped a pending frame of lower priority to make
    /// room.
    DequeuedFrame,
}

/// What the router is woken up by.
#[derive(Debug, PartialEq, Eq)]
pub enum BusEvent {
    /// The next frame of the outbound queue.
    Outbound(BusFrame),
    /// The transmit stage has taken a frame; `dequeued` tells whether it
    /// dropped a pending one for it.
    Transmitted { dequeued: bool },
    /// A frame has come in.
    Received(BusFrame),
    /// Receiving failed.
    ReceiveError,
}

/// What the router asks of its caller.
#[derive(Debug, PartialEq, Eq)]
pub enum BusAction {
    /// Write the frame to the bus.
    Transmit(BusFrame),
    /// Put the frame into the mailbox, in place of what was there.
    Deliver(Mailbox, BusFrame),
    /// Log the diagnostic and go on.
    Log(Diagnostic),
    /// Nothing to do.
    Idle,
}

/// The identifiers that the acceptance filter admits.
pub open spec fn accepted_ids() -> Seq<u16> {
    seq![BMS_DCL_MSG_ID, DTI_RPM_MSG_ID, AUX_1_MSG_ID, AUX_2_MSG_ID]
}

/// The mailbox that frames with the given identifier go to, if there is one.
pub open spec fn destination(id: RawId) -> Option<Mailbox> {
    match id {
        RawId::Standard(raw) => if raw == DTI_RPM_MSG_ID {
            Some(Mailbox::Dti)
        } else if raw == BMS_DCL_MSG_ID {
            Some(Mailbox::Bms)
        } else {
            None
        },
        RawId::Extended(_) => None,
    }
}

/// The diagnostic for a frame that goes to no mailbox.
pub open spec fn ignored(id: RawId) -> Diagnostic {
    match id {
        RawId::Standard(raw) => Diagnostic::IgnoredStandard(raw),
        RawId::Extended(raw) => Diagnostic::IgnoredExtended(raw),
    }
}

/// What the router does about an event.
pub open spec fn reaction(event: BusEvent) -> BusAction {
    match event {
        BusEvent::Outbound(frame) => BusAction::Transmit(frame),
        BusEvent::Transmitted { dequeued } => if dequeued {
            BusAction::Log(Diagnostic::DequeuedFrame)
        } else {
            BusAction::Idle
        },
        BusEvent::Received(frame) => match destination(frame@.id) {
            Some(mailbox) => BusAction::Deliver(mailbox, frame),
            None => BusAction::Log(ignored(frame@.id)),
        },
        BusEvent::ReceiveError => BusAction::Log(Diagnostic::BusError),
    }
}

/// The identifiers to program into the acceptance filter, in the order of
/// its slots.
pub fn acceptance_filter() -> (ids: [StandardId; 4])
    ensures
        ids@.len() == accepted_ids().len(),
        forall|i: int| 0 <= i < 4 ==> (#[trigger] ids@[i])@ == accepted_ids()[i],
{
    [
        StandardId::new(BMS_DCL_MSG_ID).unwrap(),
        StandardId::new(DTI_RPM_MSG_ID).unwrap(),
        StandardId::new(AUX_1_MSG_ID).unwrap(),
        StandardId::new(AUX_2_MSG_ID).unwrap(),
    ]
}

/// Finds the mailbox for an identifier.
pub fn route(id: Id) -> (mailbox: Option<Mailbox>)
    ensures
        mailbox == destination(id@),
{
    match id {
        Id::Standard(standard) => {
            let raw: u16 = standard.as_raw();
            if raw == DTI_RPM_MSG_ID {
                Some(Mailbox::Dti)
            } else if raw == BMS_DCL_MSG_ID {
                Some(Mailbox::Bms)
            } else {
                None
            }
        },
        Id::Extended(_) => None,
    }
}

/// Handles one event of the router's loop. An outbound frame is written
/// through at once; an inbound frame is first told apart by its addressing
/// mode and then looked up by its identifier; an error on receive is logged
/// and the loop goes on.
pub fn on_event(event: BusEvent) -> (action: BusAction)
    ensures
        action == reaction(event),
{
    match event {
        BusEvent::Outbound(frame) => BusAction::Transmit(frame),
        BusEvent::Transmitted { dequeued } => {
            if dequeued {
                BusAction::Log(Diagnostic::DequeuedFrame)
            } else {
                BusAction::Idle
            }
        },
        BusEvent::Received(frame) => {
            let id: Id = frame.id();
            match route(id) {
                Some(mailbox) => BusAction::Deliver(mailbox, frame),
                None => match id {
                    Id::Standard(standard) => BusAction::Log(
                        Diagnostic::IgnoredStandard(standard.as_raw()),
                    ),
                    Id::Extended(extended) => BusAction::Log(
                        Diagnostic::IgnoredExtended(extended.as_raw()),
                    ),
                },
            }
        },
        BusEvent::ReceiveError => BusAction::Log(Diagnostic::BusError),
    }
}

/// A frame with an extended identifier is never delivered to a mailbox,
/// whatever the identifier and the payload: it is logged.
pub proof fn lemma_extended_never_delivered(frame: BusFrame)
    requires
        frame@.id is Extended,
    ensures
        destination(frame@.id) is None,
        reaction(BusEvent::Received(frame)) is Log,
        !(reaction(BusEvent::Received(frame)) is Deliver),
{
}

/// Only the telemetry and the liveness identifier have a mailbox, and only
/// identifiers that the acceptance filter admits have one.
pub proof fn lemma_delivered_is_accepted(id: RawId)
    requires
        destination(id) is Some,
    ensures
        id matches RawId::Standard(raw) && accepted_ids().contains(raw) && (raw == DTI_RPM_MSG_ID
            || raw == BMS_DCL_MSG_ID),
{
    assert(accepted_ids()[0] == BMS_DCL_MSG_ID);
    assert(accepted_ids()[1] == DTI_RPM_MSG_ID);
}

/// Whatever the event, the router has an answer, and it never changes a
/// frame that it passes on.
pub proof fn lemma_frames_pass_unchanged(event: BusEvent)
    ensures
        event matches BusEvent::Outbound(frame) ==> reaction(event) == BusAction::Transmit(frame),
        reaction(event) matches BusAction::Deliver(_, delivered) ==> event == BusEvent::Received(
            delivered,
        ),
{
}

} // verus!

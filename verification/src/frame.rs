//! Bus frames: an identifier and up to eight bytes of payload.

use vstd::prelude::*;

verus! {

/// Largest raw value of an 11-bit standard identifier.
pub const STANDARD_ID_MAX: u16 = 0x7FF;

/// Largest raw value of a 29-bit extended identifier.
pub const EXTENDED_ID_MAX: u32 = 0x1FFF_FFFF;

/// Largest number of payload bytes in one frame.
pub const MAX_PAYLOAD: usize = 8;

/// Standard 11-bit identifier (`0..=0x7FF`). A lower value wins arbitration,
/// so the raw value doubles as the transmit priority.
#[derive(Clone, Copy, Debug, PartialEq, Eq, Structural)]
pub struct StandardId {
    raw: u16,
}

impl View for StandardId {
    type V = u16;

    closed spec fn view(&self) -> u16 {
        self.raw
    }
}

impl StandardId {
    /// The raw value fits in eleven bits.
    #[verifier::type_invariant]
    pub open spec fn is_valid(self) -> bool {
        self@ <= STANDARD_ID_MAX
    }

    /// Makes an identifier from a raw value, if it fits in eleven bits.
    pub fn new(raw: u16) -> (id: Option<StandardId>)
        ensures
            match id {
                Some(s) => raw <= STANDARD_ID_MAX && s@ == raw,
                None => raw > STANDARD_ID_MAX,
            },
    {
        if raw <= STANDARD_ID_MAX {
            Some(StandardId { raw })
        } else {
            None
        }
    }

    /// The raw value of the identifier.
    pub fn as_raw(&self) -> (raw: u16)
        ensures
            raw == self@,
            raw <= STANDARD_ID_MAX,
    {
        proof {
            use_type_invariant(self);
        }
        self.raw
    }
}

/// Extended 29-bit identifier (`0..=0x1FFF_FFFF`).
#[derive(Clone, Copy, Debug, PartialEq, Eq, Structural)]
pub struct ExtendedId {
    raw: u32,
}

impl View for ExtendedId {
    type V = u32;

    closed spec fn view(&self) -> u32 {
        self.raw
    }
}

/// The base part of an extended identifier: its eleven most significant bits.
pub open spec fn base_of_extended(raw: u32) -> u16 {
    (raw / 0x4_0000) as u16
}

impl ExtendedId {
    /// The raw value fits in twenty-nine bits.
    #[verifier::type_invariant]
    pub open spec fn is_valid(self) -> bool {
        self@ <= EXTENDED_ID_MAX
    }

    /// Makes an identifier from a raw value, if it fits in twenty-nine bits.
    pub fn new(raw: u32) -> (id: Option<ExtendedId>)
        ensures
            match id {
                Some(e) => raw <= EXTENDED_ID_MAX && e@ == raw,
                None => raw > EXTENDED_ID_MAX,
            },
    {
        if raw <= EXTENDED_ID_MAX {
            Some(ExtendedId { raw })
        } else {
            None
        }
    }

    /// The raw value of the identifier.
    pub fn as_raw(&self) -> (raw: u32)
        ensures
            raw == self@,
            raw <= EXTENDED_ID_MAX,
    {
        proof {
            use_type_invariant(self);
        }
        self.raw
    }

    /// The base part of the identifier, as a standard identifier.
    pub fn standard_id(&self) -> (base: StandardId)
        ensures
            base@ == base_of_extended(self@),
    {
        proof {
            use_type_invariant(self);
        }
        let top: u32 = self.raw / 0x4_0000;
        StandardId { raw: top as u16 }
    }
}

/// An identifier in either addressing mode.
#[derive(Clone, Copy, Debug, PartialEq, Eq, Structural)]
pub enum Id {
    /// Standard 11-bit identifier.
    Standard(StandardId),
    /// Extended 29-bit identifier.
    Extended(ExtendedId),
}

/// An identifier as plain numbers: the addressing mode and the raw value.
pub enum RawId {
    /// Raw value of a standard identifier.
    Standard(u16),
    /// Raw value of an extended identifier.
    Extended(u32),
}

impl View for Id {
    type V = RawId;

    open spec fn view(&self) -> RawId {
        match *self {
            Id::Standard(s) => RawId::Standard(s@),
            Id::Extended(e) => RawId::Extended(e@),
        }
    }
}

/// Why a frame could not be made.
#[derive(Clone, Copy, Debug, PartialEq, Eq, Structural)]
pub enum FrameCreateError {
    /// More than eight bytes of payload were given.
    InvalidDataLength,
}

/// What a frame is: its identifier and its payload.
pub struct FrameContent {
    pub id: RawId,
    pub payload: Seq<u8>,
}

/// A data frame: an identifier and zero to eight bytes of payload. A frame
/// cannot be changed once it is made.
#[derive(Debug, PartialEq, Eq)]
pub struct BusFrame {
    id: Id,
    payload: Vec<u8>,
}

impl View for BusFrame {
    type V = FrameContent;

    closed spec fn view(&self) -> FrameContent {
        FrameContent { id: self.id@, payload: self.payload@ }
    }
}

impl Clone for BusFrame {
    /// A second frame with the same identifier and payload.
    fn clone(&self) -> (copy: BusFrame)
        ensures
            copy@ == self@,
    {
        proof {
            use_type_invariant(self);
        }
        let payload: Vec<u8> = self.payload.clone();
        assert(payload@ == self.payload@);
        BusFrame { id: self.id, payload }
    }
}

impl BusFrame {
    /// The payload holds at most eight bytes.
    #[verifier::type_invariant]
    pub open spec fn is_valid(self) -> bool {
        self@.payload.len() <= MAX_PAYLOAD
    }

    /// Makes a data frame. Fails exactly when `data` is longer than eight
    /// bytes.
    pub fn new_data(id: Id, data: &[u8]) -> (frame: Result<BusFrame, FrameCreateError>)
        ensures
            match frame {
                Ok(f) => data@.len() <= MAX_PAYLOAD && f@.id == id@ && f@.payload == data@,
                Err(e) => data@.len() > MAX_PAYLOAD && e == FrameCreateError::InvalidDataLength,
            },
    {
        if data.len() > MAX_PAYLOAD {
            return Err(FrameCreateError::InvalidDataLength);
        }
        let mut payload: Vec<u8> = Vec::new();
        let mut i: usize = 0;
        while i < data.len()
            invariant
                i <= data@.len(),
                payload@ == data@.subrange(0, i as int),
            decreases data@.len() - i,
        {
            payload.push(data[i]);
            i += 1;
        }
        assert(payload@ == data@);
        Ok(BusFrame { id, payload })
    }

    /// Makes a data frame with a standard identifier. Fails exactly when
    /// `data` is longer than eight bytes.
    pub fn new_standard(id: StandardId, data: &[u8]) -> (frame: Result<BusFrame, FrameCreateError>)
        ensures
            match frame {
                Ok(f) => data@.len() <= MAX_PAYLOAD && f@.id == RawId::Standard(id@)
                    && f@.payload == data@,
                Err(e) => data@.len() > MAX_PAYLOAD && e == FrameCreateError::InvalidDataLength,
            },
    {
        BusFrame::new_data(Id::Standard(id), data)
    }

    /// The identifier of the frame.
    pub fn id(&self) -> (id: Id)
        ensures
            id@ == self@.id,
    {
        self.id
    }

    /// The payload of the frame.
    pub fn data(&self) -> (data: &[u8])
        ensures
            data@ == self@.payload,
            data@.len() <= MAX_PAYLOAD,
    {
        proof {
            use_type_invariant(self);
        }
        self.payload.as_slice()
    }

    /// The number of payload bytes.
    pub fn len(&self) -> (n: usize)
        ensures
            n == self@.payload.len(),
            n <= MAX_PAYLOAD,
    {
        proof {
            use_type_invariant(self);
        }
        self.payload.len()
    }

    /// The priority of the frame on the bus: the raw value of a standard
    /// identifier, or of the base part of an extended one. A lower value is
    /// sent first.
    pub fn priority(&self) -> (p: u16)
        ensures
            p == priority_of(self@.id),
    {
        match self.id {
            Id::Standard(s) => s.as_raw(),
            Id::Extended(e) => e.standard_id().as_raw(),
        }
    }
}

/// The transmit priority that an identifier stands for.
pub open spec fn priority_of(id: RawId) -> u16 {
    match id {
        RawId::Standard(raw) => raw,
        RawId::Extended(raw) => base_of_extended(raw),
    }
}

} // verus!

//! Validated in-memory representation of one CAN bus frame.
use vstd::prelude::*;

verus! {

/// Largest identifier an 11-bit standard frame can carry.
pub const FRAME_STANDARD_MASK: u32 = 0x07FF;

/// Largest identifier a 29-bit extended frame can carry.
pub const FRAME_EXTENDED_MASK: u32 = 0x1FFFFFFF;

/// Largest number of payload bytes a CAN frame can carry.
pub const MAX_FRAME_DLC: usize = 8;

/// Start-of-packet marker on the wire.
pub const FRAME_START: u8 = 0xAA;

/// End-of-packet marker on the wire.
pub const FRAME_END: u8 = 0x55;

/// Whether a frame carries payload bytes or is a remote-transmission request.
#[derive(Debug, PartialEq, Eq, Structural, Clone, Copy)]
pub enum FrameType {
    DataFrame,
    RemoteFrame,
}

/// Addressing mode of a frame's identifier: 11-bit standard or 29-bit extended.
#[derive(Debug, PartialEq, Eq, Structural, Clone, Copy)]
pub enum FrameIdType {
    StandardFrame,
    ExtendedFrame,
}

/// Why a frame could not be built or decoded.
#[derive(Debug, PartialEq, Eq, Structural, Clone, Copy)]
pub enum FrameConstructionError {
    /// More than [`MAX_FRAME_DLC`] payload bytes were supplied.
    TooMuchData,
    /// The identifier exceeds the range of its declared identifier kind.
    FrameIdMismacthFrameIdType,
    /// An inbound byte sequence is not a well-formed data-frame packet.
    MalformedFrame,
}

/// The largest identifier legal for the given identifier kind.
pub open spec fn id_mask(kind: FrameIdType) -> u32 {
    match kind {
        FrameIdType::StandardFrame => FRAME_STANDARD_MASK,
        FrameIdType::ExtendedFrame => FRAME_EXTENDED_MASK,
    }
}

/// One validated CAN frame: identifier, identifier kind, frame kind, and up
/// to eight payload bytes held in a fixed buffer whose unused tail is zero.
pub struct Frame {
    frame_id: u32,
    frame_type: FrameType,
    frame_id_type: FrameIdType,
    data: [u8; 8],
    dlc: u8,
}

impl Frame {
    /// The stored identifier.
    pub closed spec fn spec_id(self) -> u32 {
        self.frame_id
    }

    /// The stored identifier kind.
    pub closed spec fn spec_id_type(self) -> FrameIdType {
        self.frame_id_type
    }

    /// The stored frame kind.
    pub closed spec fn spec_type(self) -> FrameType {
        self.frame_type
    }

    /// The eight bytes of the payload buffer.
    pub closed spec fn spec_payload(self) -> Seq<u8> {
        self.data@
    }

    /// The number of meaningful payload bytes.
    pub closed spec fn spec_dlc(self) -> u8 {
        self.dlc
    }

    /// Cross-field invariant: the payload buffer holds exactly eight bytes,
    /// the data length code never exceeds eight, and the identifier fits the
    /// range of its declared kind.
    pub open spec fn wf(self) -> bool {
        &&& self.spec_payload().len() == 8
        &&& self.spec_dlc() <= 8
        &&& self.spec_id() <= id_mask(self.spec_id_type())
    }

    /// Builds a validated frame. Fails with `TooMuchData` when more than
    /// eight payload bytes are supplied, and with
    /// `FrameIdMismacthFrameIdType` when the identifier exceeds the mask of
    /// its declared kind. On success the payload is copied into the fixed
    /// buffer, right-padded with zero, and the length records the true
    /// payload size.
    pub fn new(
        frame_id: u32,
        frame_id_type: FrameIdType,
        frame_type: FrameType,
        data: &[u8],
    ) -> (r: Result<Frame, FrameConstructionError>)
        ensures
            r is Ok <==> data@.len() <= 8 && frame_id <= id_mask(frame_id_type),
            data@.len() > 8 ==> r == Err::<Frame, FrameConstructionError>(
                FrameConstructionError::TooMuchData,
            ),
            data@.len() <= 8 && frame_id > id_mask(frame_id_type) ==> r == Err::<
                Frame,
                FrameConstructionError,
            >(FrameConstructionError::FrameIdMismacthFrameIdType),
            r matches Ok(f) ==> {
                &&& f.wf()
                &&& f.spec_id() == frame_id
                &&& f.spec_id_type() == frame_id_type
                &&& f.spec_type() == frame_type
                &&& f.spec_dlc() == data@.len()
                &&& f.spec_payload().len() == 8
                &&& (forall|i: int|
                    0 <= i < data@.len() ==> #[trigger] f.spec_payload()[i] == data@[i])
                &&& (forall|i: int| data@.len() <= i < 8 ==> #[trigger] f.spec_payload()[i] == 0)
            },
    {
        if data.len() > MAX_FRAME_DLC {
            return Err(FrameConstructionError::TooMuchData);
        }
        match frame_id_type {
            FrameIdType::StandardFrame => {
                if frame_id > FRAME_STANDARD_MASK {
                    return Err(FrameConstructionError::FrameIdMismacthFrameIdType);
                }
            },
            FrameIdType::ExtendedFrame => {
                if frame_id > FRAME_EXTENDED_MASK {
                    return Err(FrameConstructionError::FrameIdMismacthFrameIdType);
                }
            },
        }
        let mut frame_data: [u8; 8] = [0u8; 8];
        let mut i: usize = 0;
        while i < data.len()
            invariant
                data@.len() <= 8,
                0 <= i <= data@.len(),
                frame_data@.len() == 8,
                forall|j: int| 0 <= j < i ==> #[trigger] frame_data@[j] == data@[j],
                forall|j: int| i <= j < 8 ==> #[trigger] frame_data@[j] == 0,
            decreases data@.len() - i,
        {
            frame_data[i] = data[i];
            i = i + 1;
        }
        Ok(
            Frame {
                frame_id,
                frame_id_type,
                frame_type,
                data: frame_data,
                dlc: data.len() as u8,
            },
        )
    }

    /// The identifier, re-masked against its kind's bitmask at read time.
    /// On a well-formed frame the mask changes nothing.
    pub fn frame_id(&self) -> (r: u32)
        ensures
            r == (self.spec_id() & id_mask(self.spec_id_type())),
            self.wf() ==> r == self.spec_id(),
    {
        proof {
            let id = self.frame_id;
            assert(id <= 0x07FFu32 ==> (id & 0x07FFu32) == id) by (bit_vector);
            assert(id <= 0x1FFFFFFFu32 ==> (id & 0x1FFFFFFFu32) == id) by (bit_vector);
        }
        match self.frame_id_type {
            FrameIdType::ExtendedFrame => self.frame_id & FRAME_EXTENDED_MASK,
            FrameIdType::StandardFrame => self.frame_id & FRAME_STANDARD_MASK,
        }
    }

    /// The frame kind.
    pub fn frame_type(&self) -> (r: FrameType)
        ensures
            r == self.spec_type(),
    {
        self.frame_type
    }

    /// The identifier kind.
    pub fn frame_id_type(&self) -> (r: FrameIdType)
        ensures
            r == self.spec_id_type(),
    {
        self.frame_id_type
    }

    /// The data length code.
    pub fn dlc(&self) -> (r: u8)
        ensures
            r == self.spec_dlc(),
    {
        self.dlc
    }

    /// Immutable view of the eight-byte payload buffer.
    pub fn data(&self) -> (r: &[u8])
        ensures
            r@ == self.spec_payload(),
    {
        self.data.as_slice()
    }

    /// Mutable view of the eight-byte payload buffer, for callers that
    /// update payload bytes in place without rebuilding the frame. The
    /// length is not recomputed; the caller keeps it consistent. The
    /// identifier, kinds and length are untouched, so a well-formed frame
    /// stays well-formed.
    pub fn mut_data(&mut self) -> (r: &mut [u8; 8])
        ensures
            r@ == old(self).spec_payload(),
            final(self).spec_payload() == final(r)@,
            final(self).spec_id() == old(self).spec_id(),
            final(self).spec_id_type() == old(self).spec_id_type(),
            final(self).spec_type() == old(self).spec_type(),
            final(self).spec_dlc() == old(self).spec_dlc(),
            old(self).wf() ==> final(self).wf(),
    {
        &mut self.data
    }
}

} // verus!

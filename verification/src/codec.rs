//! Wire format of one CAN data frame as exchanged with the adapter.
//!
//! A packet is: start marker `0xAA`; one control byte whose top two bits are
//! always set, whose bit 5 selects the identifier width (0 standard, 1
//! extended), whose bit 4 selects the frame kind (0 data, 1 remote) and
//! whose low nibble carries the DLC; the identifier, least-significant byte
//! first, in 2 bytes for a standard frame and 4 for an extended one; exactly
//! DLC payload bytes; and the end marker `0x55`.
use vstd::prelude::*;
use crate::frame::Frame;
use crate::frame::FrameType;
use crate::frame::FrameIdType;
use crate::frame::FrameConstructionError;
use crate::frame::id_mask;
use crate::frame::FRAME_START;
use crate::frame::FRAME_END;
use crate::frame::MAX_FRAME_DLC;
use vstd::slice::slice_subrange;

verus! {

/// Number of identifier bytes on the wire for the given identifier kind.
pub open spec fn id_wire_len(kind: FrameIdType) -> int {
    match kind {
        FrameIdType::StandardFrame => 2,
        FrameIdType::ExtendedFrame => 4,
    }
}

/// Control-byte flag for the identifier kind.
pub open spec fn kind_flag(kind: FrameIdType) -> u8 {
    match kind {
        FrameIdType::StandardFrame => 0x00,
        FrameIdType::ExtendedFrame => 0x20,
    }
}

/// Control-byte flag for the frame kind.
pub open spec fn type_flag(t: FrameType) -> u8 {
    match t {
        FrameType::DataFrame => 0x00,
        FrameType::RemoteFrame => 0x10,
    }
}

/// The control byte: fixed top bits, the two kind flags, and the DLC in the
/// low nibble.
pub open spec fn control_byte(kind: FrameIdType, t: FrameType, dlc: u8) -> u8 {
    (0xC0u8 | kind_flag(kind)) | (type_flag(t) | dlc)
}

/// The identifier field, least-significant byte first, in the width implied
/// by the identifier kind.
pub open spec fn id_bytes(id: u32, kind: FrameIdType) -> Seq<u8> {
    match kind {
        FrameIdType::StandardFrame => seq![(id & 0xFF) as u8, ((id >> 8) & 0xFF) as u8],
        FrameIdType::ExtendedFrame => seq![
            (id & 0xFF) as u8,
            ((id >> 8) & 0xFF) as u8,
            ((id >> 16) & 0xFF) as u8,
            ((id >> 24) & 0xFF) as u8,
        ],
    }
}

/// The full wire encoding of a frame.
pub open spec fn spec_encode(f: Frame) -> Seq<u8> {
    seq![FRAME_START, control_byte(f.spec_id_type(), f.spec_type(), f.spec_dlc())]
        + id_bytes(f.spec_id(), f.spec_id_type()) + f.spec_payload().take(f.spec_dlc() as int)
        + seq![FRAME_END]
}

/// DLC carried in an inbound packet's control byte.
pub open spec fn wire_dlc(b: Seq<u8>) -> u8 {
    b[1] & 0x0F
}

/// Identifier kind carried in an inbound packet's control byte.
pub open spec fn wire_id_type(b: Seq<u8>) -> FrameIdType {
    if b[1] & 0x20 == 0 {
        FrameIdType::StandardFrame
    } else {
        FrameIdType::ExtendedFrame
    }
}

/// Frame kind carried in an inbound packet's control byte.
pub open spec fn wire_frame_type(b: Seq<u8>) -> FrameType {
    if b[1] & 0x10 == 0 {
        FrameType::DataFrame
    } else {
        FrameType::RemoteFrame
    }
}

/// A well-formed inbound packet: correct markers and fixed control bits, a
/// DLC of at most eight, and exactly the length those fields imply.
pub open spec fn wire_well_formed(b: Seq<u8>) -> bool {
    &&& b.len() >= 2
    &&& b[0] == FRAME_START
    &&& b[1] & 0xC0 == 0xC0
    &&& wire_dlc(b) <= 8
    &&& b.len() == 3 + id_wire_len(wire_id_type(b)) + wire_dlc(b)
    &&& b[b.len() - 1] == FRAME_END
}

/// Identifier carried in an inbound packet, least-significant byte first.
pub open spec fn wire_id(b: Seq<u8>) -> u32 {
    match wire_id_type(b) {
        FrameIdType::StandardFrame => (b[2] + b[3] * 0x100) as u32,
        FrameIdType::ExtendedFrame => (b[2] + b[3] * 0x100 + b[4] * 0x10000 + b[5]
            * 0x1000000) as u32,
    }
}

/// Payload bytes carried in an inbound packet.
pub open spec fn wire_payload(b: Seq<u8>) -> Seq<u8> {
    b.subrange(2 + id_wire_len(wire_id_type(b)), 2 + id_wire_len(wire_id_type(b)) + wire_dlc(b))
}

/// Encodes a frame for transmission, exactly as [`spec_encode`] lays the
/// bytes out.
pub fn encode(frame: &Frame) -> (r: Vec<u8>)
    requires
        frame.wf(),
    ensures
        r@ == spec_encode(*frame),
{
    let mut out: Vec<u8> = Vec::new();
    out.push(FRAME_START);
    let dlc: u8 = frame.dlc();
    let flag_kind: u8 = match frame.frame_id_type() {
        FrameIdType::StandardFrame => 0x00,
        FrameIdType::ExtendedFrame => 0x20,
    };
    let flag_type: u8 = match frame.frame_type() {
        FrameType::DataFrame => 0x00,
        FrameType::RemoteFrame => 0x10,
    };
    out.push((0xC0u8 | flag_kind) | (flag_type | dlc));
    let id: u32 = frame.frame_id();
    proof {
        assert(id & 0xFF < 256 && (id >> 8) & 0xFF < 256 && (id >> 16) & 0xFF < 256 && (id >> 24)
            & 0xFF < 256) by (bit_vector);
    }
    match frame.frame_id_type() {
        FrameIdType::StandardFrame => {
            out.push((id & 0xFF) as u8);
            out.push(((id >> 8) & 0xFF) as u8);
        },
        FrameIdType::ExtendedFrame => {
            out.push((id & 0xFF) as u8);
            out.push(((id >> 8) & 0xFF) as u8);
            out.push(((id >> 16) & 0xFF) as u8);
            out.push(((id >> 24) & 0xFF) as u8);
        },
    }
    let ghost head: Seq<u8> = seq![
        FRAME_START,
        control_byte(frame.spec_id_type(), frame.spec_type(), frame.spec_dlc()),
    ] + id_bytes(frame.spec_id(), frame.spec_id_type());
    proof {
        assert(out@ =~= head);
    }
    let payload: &[u8] = frame.data();
    let mut i: usize = 0;
    while i < dlc as usize
        invariant
            dlc <= 8,
            0 <= i <= dlc,
            payload@.len() == 8,
            payload@ == frame.spec_payload(),
            out@ == head + payload@.take(i as int),
        decreases dlc - i,
    {
        out.push(payload[i]);
        proof {
            assert(payload@.take(i as int + 1) =~= payload@.take(i as int) + seq![
                payload@[i as int],
            ]);
            assert(out@ =~= head + payload@.take(i as int + 1));
        }
        i = i + 1;
    }
    out.push(FRAME_END);
    proof {
        assert(out@ =~= spec_encode(*frame));
    }
    out
}

/// Decodes one inbound packet. A malformed packet (wrong markers, DLC above
/// eight, or a length that does not match its fields) fails with
/// `MalformedFrame`; an identifier outside the range of its declared kind
/// propagates the construction error of [`Frame::new`].
pub fn decode(bytes: &[u8]) -> (r: Result<Frame, FrameConstructionError>)
    ensures
        r is Ok <==> wire_well_formed(bytes@) && wire_id(bytes@) <= id_mask(wire_id_type(bytes@)),
        !wire_well_formed(bytes@) ==> r == Err::<Frame, FrameConstructionError>(
            FrameConstructionError::MalformedFrame,
        ),
        wire_well_formed(bytes@) && wire_id(bytes@) > id_mask(wire_id_type(bytes@)) ==> r == Err::<
            Frame,
            FrameConstructionError,
        >(FrameConstructionError::FrameIdMismacthFrameIdType),
        r matches Ok(f) ==> {
            &&& f.wf()
            &&& f.spec_id() == wire_id(bytes@)
            &&& f.spec_id_type() == wire_id_type(bytes@)
            &&& f.spec_type() == wire_frame_type(bytes@)
            &&& f.spec_dlc() == wire_dlc(bytes@)
            &&& f.spec_payload().len() == 8
            &&& (forall|i: int|
                0 <= i < wire_dlc(bytes@) ==> #[trigger] f.spec_payload()[i] == wire_payload(
                    bytes@,
                )[i])
            &&& (forall|i: int| wire_dlc(bytes@) <= i < 8 ==> #[trigger] f.spec_payload()[i] == 0)
        },
{
    if bytes.len() < 2 {
        return Err(FrameConstructionError::MalformedFrame);
    }
    if bytes[0] != FRAME_START {
        return Err(FrameConstructionError::MalformedFrame);
    }
    let control: u8 = bytes[1];
    if control & 0xC0 != 0xC0 {
        return Err(FrameConstructionError::MalformedFrame);
    }
    let dlc: u8 = control & 0x0F;
    proof {
        assert(control & 0x0F < 16) by (bit_vector);
    }
    if dlc as usize > MAX_FRAME_DLC {
        return Err(FrameConstructionError::MalformedFrame);
    }
    let extended: bool = control & 0x20 != 0;
    let id_len: usize = if extended {
        4
    } else {
        2
    };
    let expected_len: usize = 3 + id_len + dlc as usize;
    if bytes.len() != expected_len {
        return Err(FrameConstructionError::MalformedFrame);
    }
    if bytes[expected_len - 1] != FRAME_END {
        return Err(FrameConstructionError::MalformedFrame);
    }
    let id: u32 = if extended {
        (bytes[2] as u32) + (bytes[3] as u32) * 0x100 + (bytes[4] as u32) * 0x10000 + (
        bytes[5] as u32) * 0x1000000
    } else {
        (bytes[2] as u32) + (bytes[3] as u32) * 0x100
    };
    let id_type: FrameIdType = if extended {
        FrameIdType::ExtendedFrame
    } else {
        FrameIdType::StandardFrame
    };
    let frame_type: FrameType = if control & 0x10 != 0 {
        FrameType::RemoteFrame
    } else {
        FrameType::DataFrame
    };
    let payload: &[u8] = slice_subrange(bytes, 2 + id_len, 2 + id_len + dlc as usize);
    Frame::new(id, id_type, frame_type, payload)
}

/// Round trip: the encoding of any well-formed frame is itself a well-formed
/// packet, and every field a decoder reads back from it — identifier,
/// identifier kind, frame kind, DLC, and the meaningful payload bytes — is
/// the field the frame was built with.
pub proof fn lemma_encode_decode_roundtrip(f: Frame)
    requires
        f.wf(),
    ensures
        wire_well_formed(spec_encode(f)),
        wire_id_type(spec_encode(f)) == f.spec_id_type(),
        wire_frame_type(spec_encode(f)) == f.spec_type(),
        wire_dlc(spec_encode(f)) == f.spec_dlc(),
        wire_id(spec_encode(f)) == f.spec_id(),
        wire_id(spec_encode(f)) <= id_mask(wire_id_type(spec_encode(f))),
        wire_payload(spec_encode(f)) == f.spec_payload().take(f.spec_dlc() as int),
{
    let b = spec_encode(f);
    let d = f.spec_dlc();
    let kf = kind_flag(f.spec_id_type());
    let tf = type_flag(f.spec_type());
    let c = control_byte(f.spec_id_type(), f.spec_type(), d);
    let id = f.spec_id();
    let idb = id_bytes(id, f.spec_id_type());
    let pl = f.spec_payload().take(d as int);
    assert(b[0] == FRAME_START);
    assert(b[1] == c);
    assert(((0xC0u8 | kf) | (tf | d)) & 0xC0 == 0xC0 && ((0xC0u8 | kf) | (tf | d)) & 0x0F == d
        && ((0xC0u8 | kf) | (tf | d)) & 0x20 == kf && ((0xC0u8 | kf) | (tf | d)) & 0x10 == tf)
        by (bit_vector)
        requires
            d <= 8,
            kf == 0x00u8 || kf == 0x20u8,
            tf == 0x00u8 || tf == 0x10u8,
    ;
    assert(wire_dlc(b) == d);
    assert(wire_id_type(b) == f.spec_id_type());
    assert(wire_frame_type(b) == f.spec_type());
    assert(b.len() == 3 + id_wire_len(f.spec_id_type()) + d);
    assert(b[b.len() - 1] == FRAME_END);
    assert(wire_well_formed(b));
    assert(id & 0xFF < 256 && (id >> 8) & 0xFF < 256 && (id >> 16) & 0xFF < 256 && (id >> 24)
        & 0xFF < 256) by (bit_vector);
    match f.spec_id_type() {
        FrameIdType::StandardFrame => {
            assert(b[2] == (id & 0xFF) as u8 && b[3] == ((id >> 8) & 0xFF) as u8);
            assert((id & 0xFF) + ((id >> 8) & 0xFF) * 0x100 == id) by (bit_vector)
                requires
                    id <= 0x7FFu32,
            ;
            assert(wire_id(b) == id);
        },
        FrameIdType::ExtendedFrame => {
            assert(b[2] == (id & 0xFF) as u8 && b[3] == ((id >> 8) & 0xFF) as u8 && b[4] == ((id
                >> 16) & 0xFF) as u8 && b[5] == ((id >> 24) & 0xFF) as u8);
            assert((id & 0xFF) + ((id >> 8) & 0xFF) * 0x100 + ((id >> 16) & 0xFF) * 0x10000 + ((id
                >> 24) & 0xFF) * 0x1000000 == id) by (bit_vector);
            assert(wire_id(b) == id);
        },
    }
    assert(wire_payload(b) =~= pl);
}

} // verus!

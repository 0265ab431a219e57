use serial_can::codec::decode;
use serial_can::codec::encode;
use serial_can::frame::Frame;
use serial_can::frame::FrameConstructionError;
use serial_can::frame::FrameIdType;
use serial_can::frame::FrameType;

#[test]
fn standard_data_frame_wire_layout() {
    let frame = Frame::new(0x123, FrameIdType::StandardFrame, FrameType::DataFrame, &[0xDE, 0xAD])
        .expect("valid frame");
    let bytes = encode(&frame);
    // control byte 0xC2: fixed top bits, standard, data, DLC 2;
    // identifier 0x123 least-significant byte first
    assert_eq!(bytes, vec![0xAA, 0xC2, 0x23, 0x01, 0xDE, 0xAD, 0x55]);
}

#[test]
fn extended_data_frame_wire_layout() {
    let frame = Frame::new(
        0x11223344,
        FrameIdType::ExtendedFrame,
        FrameType::DataFrame,
        &[1, 2, 3, 4, 5, 6, 7, 8],
    )
    .expect("valid frame");
    let bytes = encode(&frame);
    assert_eq!(
        bytes,
        vec![0xAA, 0xE8, 0x44, 0x33, 0x22, 0x11, 1, 2, 3, 4, 5, 6, 7, 8, 0x55]
    );
}

#[test]
fn remote_frame_wire_layout() {
    let frame = Frame::new(0x7FF, FrameIdType::StandardFrame, FrameType::RemoteFrame, &[])
        .expect("valid frame");
    let bytes = encode(&frame);
    // control byte 0xD0: fixed top bits, standard, remote, DLC 0
    assert_eq!(bytes, vec![0xAA, 0xD0, 0xFF, 0x07, 0x55]);
}

#[test]
fn round_trip_standard_frame() {
    let frame = Frame::new(0x2A5, FrameIdType::StandardFrame, FrameType::DataFrame, &[9, 8, 7])
        .expect("valid frame");
    let bytes = encode(&frame);
    let back = decode(&bytes).expect("the encoding decodes");
    assert_eq!(back.frame_id(), frame.frame_id());
    assert_eq!(back.frame_id_type(), frame.frame_id_type());
    assert_eq!(back.frame_type(), frame.frame_type());
    assert_eq!(back.dlc(), frame.dlc());
    assert_eq!(back.data(), frame.data());
}

#[test]
fn round_trip_extended_remote_frame() {
    let frame = Frame::new(
        0x1FFFFFFF,
        FrameIdType::ExtendedFrame,
        FrameType::RemoteFrame,
        &[0xAB],
    )
    .expect("valid frame");
    let bytes = encode(&frame);
    let back = decode(&bytes).expect("the encoding decodes");
    assert_eq!(back.frame_id(), 0x1FFFFFFF);
    assert_eq!(back.frame_id_type(), FrameIdType::ExtendedFrame);
    assert_eq!(back.frame_type(), FrameType::RemoteFrame);
    assert_eq!(back.dlc(), 1);
    assert_eq!(back.data(), frame.data());
}

#[test]
fn missing_end_marker_is_malformed() {
    let frame = Frame::new(0x123, FrameIdType::StandardFrame, FrameType::DataFrame, &[0xDE, 0xAD])
        .expect("valid frame");
    let mut bytes = encode(&frame);
    let last = bytes.len() - 1;
    bytes[last] = 0x00;
    assert_eq!(decode(&bytes).err(), Some(FrameConstructionError::MalformedFrame));
}

#[test]
fn truncated_packets_are_malformed() {
    let frame = Frame::new(0x123, FrameIdType::StandardFrame, FrameType::DataFrame, &[0xDE, 0xAD])
        .expect("valid frame");
    let bytes = encode(&frame);
    for len in 0..bytes.len() {
        assert_eq!(
            decode(&bytes[..len]).err(),
            Some(FrameConstructionError::MalformedFrame)
        );
    }
}

#[test]
fn wrong_start_marker_is_malformed() {
    assert_eq!(
        decode(&[0xAB, 0xC2, 0x23, 0x01, 0xDE, 0xAD, 0x55]).err(),
        Some(FrameConstructionError::MalformedFrame)
    );
}

#[test]
fn dlc_above_eight_is_malformed() {
    // control byte 0xC9 claims DLC 9
    let bytes = [0xAA, 0xC9, 0x23, 0x01, 1, 2, 3, 4, 5, 6, 7, 8, 9, 0x55];
    assert_eq!(decode(&bytes).err(), Some(FrameConstructionError::MalformedFrame));
}

#[test]
fn out_of_range_identifier_is_propagated() {
    // a standard-width identifier field carrying 0x800, one past the mask
    let bytes = [0xAA, 0xC0, 0x00, 0x08, 0x55];
    assert_eq!(
        decode(&bytes).err(),
        Some(FrameConstructionError::FrameIdMismacthFrameIdType)
    );
}

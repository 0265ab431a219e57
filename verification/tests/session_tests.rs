use serial_can::codec::encode;
use serial_can::config::Baudrate;
use serial_can::config::ConfigCommand;
use serial_can::config::OperationMode;
use serial_can::frame::Frame;
use serial_can::frame::FrameIdType;
use serial_can::frame::FrameType;
use serial_can::session::AdapterSession;
use serial_can::session::SessionError;
use serial_can::session::SessionState;
use serial_can::status::StatusCommand;

fn status_response(flags: u8, rx: u8, tx: u8) -> Vec<u8> {
    let mut bytes = vec![0u8; 20];
    bytes[0] = 0xAA;
    bytes[1] = 0x55;
    bytes[2] = 0x04;
    bytes[3] = flags;
    bytes[4] = rx;
    bytes[5] = tx;
    let sum: u16 = bytes[2..19].iter().map(|b| *b as u16).sum();
    bytes[19] = (sum & 0xFF) as u8;
    bytes
}

#[test]
fn send_in_closed_state_fails() {
    let frame = Frame::new(1, FrameIdType::StandardFrame, FrameType::DataFrame, &[1])
        .expect("valid frame");
    let session = AdapterSession::new();
    assert_eq!(session.state(), SessionState::Closed);
    assert_eq!(session.send(&frame), Err(SessionError::InvalidState));
}

#[test]
fn full_session_flow() {
    let mut session = AdapterSession::new();
    assert_eq!(session.rx_error_count(), 0);
    assert_eq!(session.tx_error_count(), 0);

    // opening hands back the configuration packet
    let packet = session
        .open_request(Baudrate::Baud125k, OperationMode::Normal)
        .expect("open from closed");
    assert_eq!(
        packet,
        ConfigCommand::new(Baudrate::Baud125k, OperationMode::Normal).encode()
    );
    assert_eq!(session.state(), SessionState::Configuring);

    // a successful configuration write makes the session ready
    session.open_result(true).expect("configuration written");
    assert_eq!(session.state(), SessionState::Ready);

    // sending hands back the frame's wire encoding
    let frame = Frame::new(0x123, FrameIdType::StandardFrame, FrameType::DataFrame, &[1, 2])
        .expect("valid frame");
    let sent = session.send(&frame).expect("send while ready");
    assert_eq!(sent, encode(&frame));

    // polling status hands back the query and consumes the response
    let query = session.poll_status_request().expect("poll while ready");
    assert_eq!(query, StatusCommand::new().encode());
    let report = session
        .poll_status_response(&status_response(0x00, 3, 9))
        .expect("well-formed response");
    assert_eq!(report.rx_errors, 3);
    assert_eq!(report.tx_errors, 9);
    assert_eq!(session.rx_error_count(), 3);
    assert_eq!(session.tx_error_count(), 9);

    // closing is idempotent and keeps the counters
    session.close();
    assert_eq!(session.state(), SessionState::Closed);
    session.close();
    assert_eq!(session.state(), SessionState::Closed);
    assert_eq!(session.rx_error_count(), 3);
    assert_eq!(session.tx_error_count(), 9);
    assert_eq!(session.send(&frame), Err(SessionError::InvalidState));
}

#[test]
fn failed_configuration_write_closes_the_session() {
    let mut session = AdapterSession::new();
    session
        .open_request(Baudrate::Baud500k, OperationMode::Silent)
        .expect("open from closed");
    assert_eq!(
        session.open_result(false),
        Err(SessionError::TransportUnavailable)
    );
    assert_eq!(session.state(), SessionState::Closed);
}

#[test]
fn open_twice_is_refused() {
    let mut session = AdapterSession::new();
    session
        .open_request(Baudrate::Baud125k, OperationMode::Normal)
        .expect("open from closed");
    assert_eq!(
        session.open_request(Baudrate::Baud125k, OperationMode::Normal).err(),
        Some(SessionError::InvalidState)
    );
}

#[test]
fn short_status_read_is_not_fatal() {
    let mut session = AdapterSession::new();
    session
        .open_request(Baudrate::Baud125k, OperationMode::Normal)
        .expect("open from closed");
    session.open_result(true).expect("configuration written");
    let partial = [0xAAu8, 0x55, 0x04];
    assert_eq!(
        session.poll_status_response(&partial),
        Err(SessionError::StatusUnavailable)
    );
    // the session stays ready and the counters are untouched
    assert_eq!(session.state(), SessionState::Ready);
    assert_eq!(session.rx_error_count(), 0);
    assert_eq!(session.tx_error_count(), 0);
}

#[test]
fn status_poll_in_closed_state_fails() {
    let mut session = AdapterSession::new();
    assert_eq!(
        session.poll_status_request().err(),
        Some(SessionError::InvalidState)
    );
    assert_eq!(
        session.poll_status_response(&status_response(0, 1, 2)),
        Err(SessionError::InvalidState)
    );
}

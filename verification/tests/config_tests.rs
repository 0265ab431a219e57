use serial_can::config::Baudrate;
use serial_can::config::ConfigCommand;
use serial_can::config::OperationMode;

#[test]
fn config_packet_for_baud125k_normal() {
    let command = ConfigCommand::new(Baudrate::Baud125k, OperationMode::Normal);
    let bytes = command.encode();
    // checksum: 0x12 + 0x07 + 0x02 + 0x00 + 0x01 = 0x1C
    assert_eq!(
        bytes,
        vec![
            0xAA, 0x55, 0x12, 0x07, 0x02, 0x00, 0x00, 0x00, 0x00, 0x00, 0x00, 0x00, 0x00, 0x00,
            0x01, 0x00, 0x00, 0x00, 0x00, 0x1C,
        ]
    );
}

#[test]
fn config_packet_for_baud1000k_loopback_and_silent() {
    let command = ConfigCommand::new(Baudrate::Baud1000k, OperationMode::LoopbackAndSilent);
    let bytes = command.encode();
    // checksum: 0x12 + 0x01 + 0x02 + 0x03 + 0x01 = 0x19
    assert_eq!(bytes.len(), 20);
    assert_eq!(bytes[3], 0x01);
    assert_eq!(bytes[13], 0x03);
    assert_eq!(bytes[19], 0x19);
}

#[test]
fn baud_rate_codes() {
    assert_eq!(u8::from(Baudrate::Baud1000k), 0x01);
    assert_eq!(u8::from(Baudrate::Baud800k), 0x02);
    assert_eq!(u8::from(Baudrate::Baud500k), 0x03);
    assert_eq!(u8::from(Baudrate::Baud400k), 0x04);
    assert_eq!(u8::from(Baudrate::Baud250k), 0x05);
    assert_eq!(u8::from(Baudrate::Baud200k), 0x06);
    assert_eq!(u8::from(Baudrate::Baud125k), 0x07);
    assert_eq!(u8::from(Baudrate::Baud100k), 0x08);
    assert_eq!(u8::from(Baudrate::Baud50k), 0x09);
    assert_eq!(u8::from(Baudrate::Baud20k), 0x0A);
    assert_eq!(u8::from(Baudrate::Baud10k), 0x0B);
    assert_eq!(u8::from(Baudrate::Baud5k), 0x0C);
}

#[test]
fn operation_mode_codes() {
    assert_eq!(u8::from(OperationMode::Normal), 0x00);
    assert_eq!(u8::from(OperationMode::Loopback), 0x01);
    assert_eq!(u8::from(OperationMode::Silent), 0x02);
    assert_eq!(u8::from(OperationMode::LoopbackAndSilent), 0x03);
}

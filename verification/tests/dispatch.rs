use nsrt::dispatch::payload_count;
use nsrt::{Command, Exchange, NsrtError, ACK, NSRT};
use std::io::{Error, ErrorKind};

#[test]
fn send_command_is_the_packet() {
    assert_eq!(
        NSRT::send_command(Command::ReadLevel, 0, 4),
        vec![0x10, 0x00, 0x00, 0x80, 0, 0, 0, 0, 4, 0, 0, 0]
    );
    assert_eq!(
        NSRT::send_command(Command::WriteUserID, 7, 32),
        vec![0x36, 0x00, 0x00, 0x00, 7, 0, 0, 0, 32, 0, 0, 0]
    );
}

#[test]
fn read_is_a_packet_and_a_reply() {
    let exchange = NSRT::send_command_and_read(Command::ReadDOC, 0, 8);
    assert_eq!(
        exchange,
        Exchange {
            packet: vec![0x34, 0x00, 0x00, 0x80, 0, 0, 0, 0, 8, 0, 0, 0],
            payload: None,
            reply_len: 8,
        }
    );
}

#[test]
fn write_is_a_packet_a_payload_and_one_byte_back() {
    let exchange = NSRT::send_command_with_data(Command::WriteFS, 0, &[0x80, 0xbb]).unwrap();
    assert_eq!(
        exchange,
        Exchange {
            packet: vec![0x21, 0x00, 0x00, 0x00, 0, 0, 0, 0, 2, 0, 0, 0],
            payload: Some(vec![0x80, 0xbb]),
            reply_len: 1,
        }
    );
}

#[test]
fn payload_is_not_part_of_the_packet() {
    let data = [1u8, 2, 3, 4, 5];
    let exchange = NSRT::send_command_with_data(Command::WriteTau, 0, &data).unwrap();
    assert_eq!(exchange.packet.len(), 12);
    assert_eq!(exchange.packet[8..], [5, 0, 0, 0]);
    assert_eq!(exchange.payload, Some(data.to_vec()));
}

#[test]
fn empty_write_still_has_a_payload() {
    let exchange = NSRT::send_command_with_data(Command::WriteUserID, 0, &[]).unwrap();
    assert_eq!(exchange.packet[8..], [0, 0, 0, 0]);
    assert_eq!(exchange.payload, Some(Vec::new()));
    assert_eq!(exchange.reply_len, 1);
}

#[test]
fn raw_write_takes_a_bare_opcode() {
    let exchange = NSRT::raw_write_with_ack(0x0000_0036, 0, &[1]).unwrap();
    assert_eq!(
        exchange,
        Exchange {
            packet: vec![0x36, 0x00, 0x00, 0x00, 0, 0, 0, 0, 1, 0, 0, 0],
            payload: Some(vec![1]),
            reply_len: 1,
        }
    );
    let named = NSRT::send_command_with_data(Command::WriteUserID, 0, &[1]).unwrap();
    assert_eq!(exchange, named);
    let unnamed = NSRT::raw_write_with_ack(0x1234_5678, 9, &[1, 2]).unwrap();
    assert_eq!(unnamed.packet, vec![0x78, 0x56, 0x34, 0x12, 9, 0, 0, 0, 2, 0, 0, 0]);
}

#[test]
fn payload_count_fits_32_bits() {
    assert!(matches!(payload_count(0), Ok(0)));
    assert!(matches!(payload_count(32), Ok(32)));
    assert!(matches!(payload_count(u32::MAX as usize), Ok(u32::MAX)));
}

#[test]
fn payload_count_refuses_what_does_not_fit() {
    if usize::BITS > 32 {
        let too_long = (u32::MAX as usize).wrapping_add(1);
        match payload_count(too_long) {
            Err(NsrtError::InvalidParameter(why)) => assert_eq!(why, "Data too large for command"),
            other => panic!("{:?}", other),
        }
        assert!(matches!(payload_count(usize::MAX), Err(NsrtError::InvalidParameter(_))));
    }
}

#[test]
fn ack_byte_is_success() {
    assert_eq!(ACK, 0x06);
    assert!(matches!(NSRT::acknowledge(Ok(vec![0x06])), Ok(())));
}

#[test]
fn nak_byte_is_not_acknowledged() {
    assert!(matches!(NSRT::acknowledge(Ok(vec![0x15])), Err(NsrtError::NoAcknowledge)));
}

#[test]
fn any_other_byte_is_not_acknowledged() {
    for byte in 0u8..=255 {
        let result = NSRT::acknowledge(Ok(vec![byte]));
        if byte == 0x06 {
            assert!(result.is_ok());
        } else {
            assert!(matches!(result, Err(NsrtError::NoAcknowledge)));
        }
    }
}

#[test]
fn no_byte_is_not_acknowledged() {
    assert!(matches!(NSRT::acknowledge(Ok(Vec::new())), Err(NsrtError::NoAcknowledge)));
}

#[test]
fn ack_timeout_is_the_io_error() {
    let timeout = Error::new(ErrorKind::TimedOut, "no answer");
    match NSRT::acknowledge(Err(timeout)) {
        Err(NsrtError::IoError(error)) => {
            assert_eq!(error.kind(), ErrorKind::TimedOut);
            assert_eq!(error.to_string(), "no answer");
        }
        other => panic!("{:?}", other),
    }
}

#[test]
fn failed_write_is_the_io_error() {
    let broken = Error::new(ErrorKind::BrokenPipe, "unplugged");
    match NSRT::acknowledge(Err(broken)) {
        Err(NsrtError::IoError(error)) => assert_eq!(error.kind(), ErrorKind::BrokenPipe),
        other => panic!("{:?}", other),
    }
}

use nsrt::discovery::{find_instrument, matches_instrument, BAUD_RATE, PID, TIMEOUT_MS, VID};
use nsrt::{
    Exchange, NsrtError, Phase, SamplingFrequency, SerialPortInfo, SerialPortType, UsbPortInfo,
    Weighting, NSRT,
};
use std::io::{Error, ErrorKind};

fn port(name: &str, port_type: SerialPortType) -> SerialPortInfo {
    SerialPortInfo { port_name: name.to_string(), port_type }
}

fn instrument(name: &str) -> SerialPortInfo {
    port(name, SerialPortType::UsbPort(UsbPortInfo { vid: 2649, pid: 323 }))
}

fn opened() -> NSRT {
    NSRT::open(Ok(vec![instrument("/dev/ttyACM0")])).unwrap().complete(Ok(())).unwrap().0
}

fn ack() -> Result<Vec<u8>, Error> {
    Ok(vec![0x06])
}

fn tau(seconds: f32) -> Result<Vec<u8>, Error> {
    Ok(seconds.to_le_bytes().to_vec())
}

#[test]
fn port_settings() {
    assert_eq!(VID, 2649);
    assert_eq!(PID, 323);
    assert_eq!(BAUD_RATE, 9600);
    assert_eq!(TIMEOUT_MS, 1000);
}

#[test]
fn open_without_ports_is_no_device() {
    assert!(matches!(NSRT::open(Ok(Vec::new())), Err(NsrtError::NoDevice)));
}

#[test]
fn open_without_a_matching_port_is_no_device() {
    let ports = vec![
        port("/dev/ttyS0", SerialPortType::PciPort),
        port("/dev/rfcomm0", SerialPortType::BluetoothPort),
        port("/dev/ttyX", SerialPortType::Unknown),
        port("/dev/ttyUSB0", SerialPortType::UsbPort(UsbPortInfo { vid: 0x0403, pid: 0x6001 })),
        port("/dev/ttyUSB1", SerialPortType::UsbPort(UsbPortInfo { vid: 2649, pid: 324 })),
        port("/dev/ttyUSB2", SerialPortType::UsbPort(UsbPortInfo { vid: 2650, pid: 323 })),
        port("/dev/ttyUSB3", SerialPortType::UsbPort(UsbPortInfo { vid: 323, pid: 2649 })),
    ];
    assert_eq!(find_instrument(&ports), None);
    assert!(matches!(NSRT::open(Ok(ports)), Err(NsrtError::NoDevice)));
}

#[test]
fn open_takes_the_matching_port() {
    let ports = vec![
        port("/dev/ttyS0", SerialPortType::PciPort),
        port("/dev/ttyUSB0", SerialPortType::UsbPort(UsbPortInfo { vid: 0x0403, pid: 0x6001 })),
        instrument("/dev/ttyACM3"),
        port("/dev/ttyX", SerialPortType::Unknown),
    ];
    assert_eq!(find_instrument(&ports), Some(2));
    let opening = NSRT::open(Ok(ports)).unwrap();
    assert_eq!(opening.port_name(), "/dev/ttyACM3");
    assert_eq!(opening.baud_rate(), 9600);
    assert_eq!(opening.timeout_ms(), 1000);
    let (nsrt, handle) = opening.complete(Ok("the open port")).unwrap();
    assert_eq!(handle, "the open port");
    assert_eq!(nsrt.port_name(), "/dev/ttyACM3");
    assert_eq!(nsrt.phase(), Phase::Open);
}

#[test]
fn open_takes_the_first_of_several() {
    let ports = vec![
        port("COM1", SerialPortType::Unknown),
        instrument("COM7"),
        instrument("COM4"),
        instrument("COM9"),
    ];
    assert_eq!(find_instrument(&ports), Some(1));
    assert_eq!(NSRT::open(Ok(ports)).unwrap().port_name(), "COM7");
}

#[test]
fn open_fails_as_the_listing_does() {
    let failure = serialport::Error::new(serialport::ErrorKind::Unknown, "no bus");
    match NSRT::open(Err(failure)) {
        Err(NsrtError::SerialError(error)) => {
            assert_eq!(error.kind(), serialport::ErrorKind::Unknown);
            assert_eq!(error.description, "no bus");
        }
        other => panic!("{:?}", other),
    }
}

#[test]
fn open_fails_as_the_port_does() {
    let opening = NSRT::open(Ok(vec![instrument("/dev/ttyACM0")])).unwrap();
    let busy = serialport::Error::new(serialport::ErrorKind::NoDevice, "Device or resource busy");
    match opening.complete::<()>(Err(busy)) {
        Err(NsrtError::SerialError(error)) => {
            assert_eq!(error.kind(), serialport::ErrorKind::NoDevice);
            assert_eq!(error.description, "Device or resource busy");
        }
        other => panic!("{:?}", other),
    }
}

#[test]
fn instrument_is_told_by_both_ids() {
    assert!(matches_instrument(&instrument("a")));
    assert!(!matches_instrument(&port(
        "b",
        SerialPortType::UsbPort(UsbPortInfo { vid: 2649, pid: 0 })
    )));
    assert!(!matches_instrument(&port(
        "c",
        SerialPortType::UsbPort(UsbPortInfo { vid: 0, pid: 323 })
    )));
    assert!(!matches_instrument(&port("d", SerialPortType::PciPort)));
}

#[test]
fn weighting_is_written_as_one_byte() {
    for (weighting, code) in [(Weighting::C, 0u8), (Weighting::A, 1), (Weighting::Z, 2)] {
        let pending = opened().weighting(weighting);
        assert_eq!(
            pending.exchange(),
            &Exchange {
                packet: vec![0x20, 0x00, 0x00, 0x00, 0, 0, 0, 0, 1, 0, 0, 0],
                payload: Some(vec![code]),
                reply_len: 1,
            }
        );
    }
}

#[test]
fn sampling_frequency_is_written_as_hertz() {
    let pending = opened().sampling_frequency(SamplingFrequency::Freq48kHz);
    assert_eq!(
        pending.exchange(),
        &Exchange {
            packet: vec![0x21, 0x00, 0x00, 0x00, 0, 0, 0, 0, 2, 0, 0, 0],
            payload: Some(vec![0x80, 0xbb]),
            reply_len: 1,
        }
    );
    let pending = opened().sampling_frequency(SamplingFrequency::Freq32kHz);
    assert_eq!(pending.exchange().payload, Some(32000u16.to_le_bytes().to_vec()));
}

#[test]
fn time_constant_is_written_as_a_float() {
    let pending = opened().time_constant(0.125f32.to_bits());
    assert_eq!(
        pending.exchange(),
        &Exchange {
            packet: vec![0x22, 0x00, 0x00, 0x00, 0, 0, 0, 0, 4, 0, 0, 0],
            payload: Some(vec![0x00, 0x00, 0x00, 0x3e]),
            reply_len: 1,
        }
    );
    let pending = opened().time_constant(1.0f32.to_bits());
    assert_eq!(pending.exchange().payload, Some(1.0f32.to_le_bytes().to_vec()));
}

#[test]
fn user_id_is_written_with_its_nul() {
    let pending = opened().write_user_id("lab").unwrap();
    assert_eq!(
        pending.exchange(),
        &Exchange {
            packet: vec![0x36, 0x00, 0x00, 0x00, 0, 0, 0, 0, 4, 0, 0, 0],
            payload: Some(vec![b'l', b'a', b'b', 0]),
            reply_len: 1,
        }
    );
}

#[test]
fn user_id_of_31_characters_is_written() {
    let id = "0123456789012345678901234567890";
    assert_eq!(id.len(), 31);
    let pending = opened().write_user_id(id).unwrap();
    let payload = pending.exchange().payload.clone().unwrap();
    assert_eq!(payload.len(), 32);
    assert_eq!(&payload[..31], id.as_bytes());
    assert_eq!(payload[31], 0);
    assert_eq!(pending.exchange().packet[8..], [32, 0, 0, 0]);
    let nsrt = pending.complete(ack()).unwrap();
    assert_eq!(nsrt.phase(), Phase::Open);
}

#[test]
fn user_id_of_32_characters_is_refused_before_any_exchange() {
    let id = "01234567890123456789012345678901";
    assert_eq!(id.len(), 32);
    match opened().write_user_id(id) {
        Err(NsrtError::InvalidParameter(why)) => assert_eq!(why, "User ID too long"),
        other => panic!("{:?}", other),
    }
}

#[test]
fn user_id_calls_for_no_wait() {
    let nsrt = opened().apply().complete(tau(0.5)).unwrap().settled();
    assert_eq!(nsrt.phase(), Phase::Ready);
    let nsrt = nsrt.write_user_id("bench").unwrap().complete(ack()).unwrap();
    assert_eq!(nsrt.phase(), Phase::Ready);
}

#[test]
fn acknowledged_write_gives_the_session_back() {
    let nsrt = opened().weighting(Weighting::A).complete(ack()).unwrap();
    assert_eq!(nsrt.phase(), Phase::Configuring);
    assert_eq!(nsrt.port_name(), "/dev/ttyACM0");
}

#[test]
fn write_that_is_not_acknowledged_fails() {
    assert!(matches!(
        opened().weighting(Weighting::A).complete(Ok(vec![0x15])),
        Err(NsrtError::NoAcknowledge)
    ));
    assert!(matches!(
        opened().sampling_frequency(SamplingFrequency::Freq32kHz).complete(Ok(vec![0x00])),
        Err(NsrtError::NoAcknowledge)
    ));
    assert!(matches!(
        opened().time_constant(0).complete(Ok(Vec::new())),
        Err(NsrtError::NoAcknowledge)
    ));
}

#[test]
fn write_that_times_out_fails_with_the_io_error() {
    let timeout = Error::new(ErrorKind::TimedOut, "no ack");
    match opened().weighting(Weighting::Z).complete(Err(timeout)) {
        Err(NsrtError::IoError(error)) => assert_eq!(error.kind(), ErrorKind::TimedOut),
        other => panic!("{:?}", other),
    }
}

#[test]
fn apply_reads_the_time_constant_back() {
    let pending = opened().apply();
    assert_eq!(
        pending.exchange(),
        &Exchange {
            packet: vec![0x22, 0x00, 0x00, 0x80, 0, 0, 0, 0, 4, 0, 0, 0],
            payload: None,
            reply_len: 4,
        }
    );
    let nsrt = pending.complete(tau(0.5)).unwrap();
    assert_eq!(nsrt.phase(), Phase::Settling(5_000_000_000));
}

#[test]
fn apply_waits_a_second_at_least() {
    let nsrt = opened().apply().complete(tau(0.05)).unwrap();
    assert_eq!(nsrt.phase(), Phase::Settling(1_000_000_000));
    let nsrt = opened().apply().complete(tau(0.3)).unwrap();
    match nsrt.phase() {
        Phase::Settling(nanos) => assert!(nanos >= 1_000_000_000),
        other => panic!("{:?}", other),
    }
}

#[test]
fn apply_fails_as_the_read_does() {
    assert!(matches!(
        opened().apply().complete(Ok(vec![0, 0, 0])),
        Err(NsrtError::InvalidResponse)
    ));
    let timeout = Error::new(ErrorKind::TimedOut, "no answer");
    assert!(matches!(opened().apply().complete(Err(timeout)), Err(NsrtError::IoError(_))));
}

#[test]
fn apply_does_not_take_an_ack_for_an_answer() {
    assert!(matches!(opened().apply().complete(ack()), Err(NsrtError::InvalidResponse)));
}

#[test]
fn settled_ends_the_wait() {
    let nsrt = opened().apply().complete(tau(0.3)).unwrap();
    assert_eq!(nsrt.settled().phase(), Phase::Ready);
}

#[test]
fn settled_without_a_wait_changes_nothing() {
    assert_eq!(opened().settled().phase(), Phase::Open);
    let nsrt = opened().weighting(Weighting::C).complete(ack()).unwrap();
    assert_eq!(nsrt.settled().phase(), Phase::Configuring);
}

#[test]
fn chained_changes_are_two_writes_and_one_wait() {
    let mut writes = 0;
    let mut reads = 0;
    let mut waits = Vec::new();

    let nsrt = opened();
    let pending = nsrt.weighting(Weighting::A);
    if pending.exchange().payload.is_some() {
        writes += 1;
    } else {
        reads += 1;
    }
    let nsrt = pending.complete(ack()).unwrap();
    if let Phase::Settling(nanos) = nsrt.phase() {
        waits.push(nanos);
    }
    assert_eq!(nsrt.phase(), Phase::Configuring);

    let pending = nsrt.sampling_frequency(SamplingFrequency::Freq48kHz);
    if pending.exchange().payload.is_some() {
        writes += 1;
    } else {
        reads += 1;
    }
    let nsrt = pending.complete(ack()).unwrap();
    if let Phase::Settling(nanos) = nsrt.phase() {
        waits.push(nanos);
    }
    assert_eq!(nsrt.phase(), Phase::Configuring);

    let pending = nsrt.apply();
    if pending.exchange().payload.is_some() {
        writes += 1;
    } else {
        reads += 1;
    }
    let nsrt = pending.complete(tau(0.5)).unwrap();
    if let Phase::Settling(nanos) = nsrt.phase() {
        waits.push(nanos);
    }
    let nsrt = nsrt.settled();
    if let Phase::Settling(nanos) = nsrt.phase() {
        waits.push(nanos);
    }

    assert_eq!(writes, 2);
    assert_eq!(reads, 1);
    assert_eq!(waits, vec![5_000_000_000]);
    assert_eq!(nsrt.phase(), Phase::Ready);
}

#[test]
fn three_chained_changes_still_wait_once() {
    let nsrt = opened()
        .weighting(Weighting::A)
        .complete(ack())
        .unwrap()
        .time_constant(1.0f32.to_bits())
        .complete(ack())
        .unwrap()
        .sampling_frequency(SamplingFrequency::Freq48kHz)
        .complete(ack())
        .unwrap();
    assert_eq!(nsrt.phase(), Phase::Configuring);
    let nsrt = nsrt.apply().complete(tau(1.0)).unwrap();
    assert_eq!(nsrt.phase(), Phase::Settling(10_000_000_000));
    assert_eq!(nsrt.settled().phase(), Phase::Ready);
}

#[test]
fn apply_without_changes_settles_too() {
    let nsrt = opened().apply().complete(tau(0.25)).unwrap();
    assert_eq!(nsrt.phase(), Phase::Settling(2_500_000_000));
    assert_eq!(nsrt.settled().phase(), Phase::Ready);
}

#[test]
fn change_after_settling_calls_for_a_new_wait() {
    let nsrt = opened().apply().complete(tau(0.3)).unwrap().settled();
    let nsrt = nsrt.weighting(Weighting::Z).complete(ack()).unwrap();
    assert_eq!(nsrt.phase(), Phase::Configuring);
}

#[test]
fn weighting_without_skip_wait_has_the_time_constant_read_back() {
    let pending = opened().write_weighting(Weighting::A, false);
    assert_eq!(pending.exchange(), opened().weighting(Weighting::A).exchange());
    let nsrt = pending.complete(ack()).unwrap();
    assert_eq!(nsrt.phase(), Phase::Applying);
    let nsrt = nsrt.apply().complete(tau(0.5)).unwrap();
    assert_eq!(nsrt.phase(), Phase::Settling(5_000_000_000));
    assert_eq!(nsrt.settled().phase(), Phase::Ready);
}

#[test]
fn sampling_frequency_without_skip_wait_has_the_time_constant_read_back() {
    let nsrt = opened()
        .write_sampling_frequency(SamplingFrequency::Freq32kHz, false)
        .complete(ack())
        .unwrap();
    assert_eq!(nsrt.phase(), Phase::Applying);
}

#[test]
fn time_constant_without_skip_wait_waits_for_the_new_one() {
    let nsrt = opened().write_time_constant(0.5f32.to_bits(), false).complete(ack()).unwrap();
    assert_eq!(nsrt.phase(), Phase::Settling(5_000_000_000));
    assert_eq!(nsrt.settled().phase(), Phase::Ready);
    let nsrt = opened().write_time_constant(0.0625f32.to_bits(), false).complete(ack()).unwrap();
    assert_eq!(nsrt.phase(), Phase::Settling(1_000_000_000));
}

#[test]
fn skip_wait_puts_the_wait_off() {
    let nsrt = opened().write_weighting(Weighting::A, true).complete(ack()).unwrap();
    assert_eq!(nsrt.phase(), Phase::Configuring);
    let nsrt = opened()
        .write_sampling_frequency(SamplingFrequency::Freq48kHz, true)
        .complete(ack())
        .unwrap();
    assert_eq!(nsrt.phase(), Phase::Configuring);
    let nsrt = opened().write_time_constant(0.5f32.to_bits(), true).complete(ack()).unwrap();
    assert_eq!(nsrt.phase(), Phase::Configuring);
}

#[test]
fn failed_write_without_skip_wait_calls_for_nothing() {
    assert!(matches!(
        opened().write_time_constant(0.5f32.to_bits(), false).complete(Ok(vec![0x15])),
        Err(NsrtError::NoAcknowledge)
    ));
}

#[test]
fn errors_come_from_the_outside_ones() {
    let io = Error::new(ErrorKind::TimedOut, "late");
    assert!(matches!(NsrtError::from(io), NsrtError::IoError(_)));
    let serial = serialport::Error::new(serialport::ErrorKind::NoDevice, "gone");
    match NsrtError::from(serial) {
        NsrtError::SerialError(error) => {
            assert_eq!(error.kind(), serialport::ErrorKind::NoDevice);
            assert_eq!(error.description, "gone");
        }
        other => panic!("{:?}", other),
    }
    let utf8 = std::str::from_utf8(&[0xff]).unwrap_err();
    assert!(matches!(NsrtError::from(utf8), NsrtError::Utf8Error(_)));
}

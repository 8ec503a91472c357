use am2320::{
    combine_bytes, crc16, decode_frame, Action, Error, Event, Measurement, ReadSequence,
    DEVICE_I2C_ADDR, RESULT_DELAY_US, WAKE_DELAY_US,
};

const GOOD_FRAME: [u8; 8] = [0x03, 0x04, 0x02, 0x36, 0x00, 0xDB, 0x50, 0x05];

/// A bus and clock that record what they are asked to do.
struct SimBus {
    wake_acked: bool,
    command_acked: bool,
    response: Option<[u8; 8]>,
    writes: Vec<(u8, Vec<u8>)>,
    reads: Vec<u8>,
    delays: Vec<u16>,
}

impl SimBus {
    fn new(response: Option<[u8; 8]>) -> SimBus {
        SimBus {
            wake_acked: false,
            command_acked: true,
            response,
            writes: Vec::new(),
            reads: Vec::new(),
            delays: Vec::new(),
        }
    }

    fn run(&mut self) -> Result<Measurement, Error> {
        let mut seq = ReadSequence::new();
        loop {
            let event = match seq.action() {
                Action::Write { address, payload } => {
                    let acked = if self.writes.is_empty() { self.wake_acked } else { self.command_acked };
                    self.writes.push((address, payload));
                    if acked {
                        Event::Written
                    } else {
                        Event::WriteFailed
                    }
                }
                Action::Delay { us } => {
                    self.delays.push(us);
                    Event::Waited
                }
                Action::Read { address } => {
                    self.reads.push(address);
                    match self.response {
                        Some(frame) => Event::Received(frame),
                        None => Event::ReadFailed,
                    }
                }
                Action::Done(r) => return r,
            };
            seq.advance(event);
        }
    }
}

#[test]
fn test_crc16() {
    assert_eq!(crc16(&[]), 0xFFFF);
    assert_eq!(crc16(&[0x03, 0x04, 0x02, 0x36, 0x0, 0xDB]), 0x0550);
}

#[test]
fn test_combine_bytes() {
    assert_eq!(combine_bytes(0, 0), 0);
    assert_eq!(combine_bytes(0xC5, 0x01), 0xC501);
}

#[test]
fn crc16_of_single_byte() {
    // 0xFFFF ^ 0x01 = 0xFFFE, then eight shifts.
    assert_eq!(crc16(&[0x01]), 0x807E);
    assert_eq!(crc16(&[0x00]), 0x40BF);
}

#[test]
fn crc16_of_check_string() {
    assert_eq!(crc16(b"123456789"), 0x4B37);
}

#[test]
fn combine_bytes_all_pairs() {
    for h in 0..=255u8 {
        for l in 0..=255u8 {
            assert_eq!(combine_bytes(h, l) as u32, h as u32 * 256 + l as u32);
        }
    }
}

#[test]
fn decode_good_frame() {
    let m = decode_frame(&GOOD_FRAME).unwrap();
    assert_eq!(m.humidity_tenths, 566);
    assert_eq!(m.temperature_tenths, 219);
    assert_eq!(m.humidity_tenths as f64 / 10.0, 56.6);
    assert_eq!(m.temperature_tenths as f64 / 10.0, 21.9);
}

#[test]
fn decode_wrong_function_code() {
    let mut f = GOOD_FRAME;
    f[0] = 0x02;
    assert_eq!(decode_frame(&f), Err(Error::SensorError));
}

#[test]
fn decode_wrong_data_length() {
    let mut f = GOOD_FRAME;
    f[1] = 0x02;
    assert_eq!(decode_frame(&f), Err(Error::SensorError));
}

#[test]
fn decode_swapped_checksum() {
    let mut f = GOOD_FRAME;
    f.swap(6, 7);
    assert_eq!(decode_frame(&f), Err(Error::SensorError));
}

#[test]
fn decode_corrupted_data_byte() {
    let mut f = GOOD_FRAME;
    f[3] = 0x37;
    assert_eq!(decode_frame(&f), Err(Error::SensorError));
}

#[test]
fn decode_sign_bit_is_not_decoded() {
    let mut f = [0x03, 0x04, 0x01, 0x00, 0x80, 0x65, 0x00, 0x00];
    let crc = crc16(&f[0..6]);
    f[6] = (crc & 0xFF) as u8;
    f[7] = (crc >> 8) as u8;
    let m = decode_frame(&f).unwrap();
    assert_eq!(m.humidity_tenths, 256);
    assert_eq!(m.temperature_tenths, 0x8065);
}

#[test]
fn read_good_frame() {
    let mut bus = SimBus::new(Some(GOOD_FRAME));
    let r = bus.run();
    assert_eq!(r, Ok(Measurement { temperature_tenths: 219, humidity_tenths: 566 }));
    let m = r.unwrap();
    assert_eq!(m.humidity_tenths as f64 / 10.0, 56.6);
    assert_eq!(m.temperature_tenths as f64 / 10.0, 21.9);
}

#[test]
fn read_issues_protocol_in_order() {
    let mut bus = SimBus::new(Some(GOOD_FRAME));
    bus.run().unwrap();
    assert_eq!(
        bus.writes,
        vec![(0x5C, vec![0x00]), (0x5C, vec![0x03, 0x00, 0x04])]
    );
    assert_eq!(bus.delays, vec![900, 1600]);
    assert_eq!(bus.reads, vec![0x5C]);
    assert_eq!(DEVICE_I2C_ADDR, 0x5C);
}

#[test]
fn read_blocks_long_enough() {
    let mut bus = SimBus::new(Some(GOOD_FRAME));
    bus.run().unwrap();
    let total: u32 = bus.delays.iter().map(|d| *d as u32).sum();
    assert!(total >= 2300);
    assert_eq!(total, WAKE_DELAY_US as u32 + RESULT_DELAY_US as u32);
    assert!((800..=3000).contains(&WAKE_DELAY_US));
    assert!(RESULT_DELAY_US >= 1500);
}

#[test]
fn read_ignores_wake_acknowledge() {
    let mut bus = SimBus::new(Some(GOOD_FRAME));
    bus.wake_acked = true;
    assert_eq!(bus.run(), Ok(Measurement { temperature_tenths: 219, humidity_tenths: 566 }));
}

#[test]
fn read_wrong_function_code() {
    let mut f = GOOD_FRAME;
    f[0] = 0x02;
    let mut bus = SimBus::new(Some(f));
    assert_eq!(bus.run(), Err(Error::SensorError));
}

#[test]
fn read_swapped_checksum() {
    let mut f = GOOD_FRAME;
    f.swap(6, 7);
    let mut bus = SimBus::new(Some(f));
    assert_eq!(bus.run(), Err(Error::SensorError));
}

#[test]
fn read_bus_read_failure() {
    let mut bus = SimBus::new(None);
    assert_eq!(bus.run(), Err(Error::ReadError));
    assert_eq!(bus.reads.len(), 1);
}

#[test]
fn read_command_write_failure() {
    let mut bus = SimBus::new(Some(GOOD_FRAME));
    bus.command_acked = false;
    assert_eq!(bus.run(), Err(Error::WriteError));
    assert_eq!(bus.delays, vec![900]);
    assert!(bus.reads.is_empty());
}

#[test]
fn finished_sequence_stays_finished() {
    let mut seq = ReadSequence::new();
    seq.advance(Event::WriteFailed);
    seq.advance(Event::Waited);
    seq.advance(Event::WriteFailed);
    for _ in 0..3 {
        match seq.action() {
            Action::Done(r) => assert_eq!(r, Err(Error::WriteError)),
            other => panic!("unexpected action {:?}", other),
        }
        seq.advance(Event::Received(GOOD_FRAME));
    }
}

#[test]
fn mismatched_outcome_counts_as_failure() {
    let mut seq = ReadSequence::new();
    seq.advance(Event::Written);
    seq.advance(Event::Waited);
    seq.advance(Event::Written);
    seq.advance(Event::Waited);
    seq.advance(Event::Written);
    match seq.action() {
        Action::Done(r) => assert_eq!(r, Err(Error::ReadError)),
        other => panic!("unexpected action {:?}", other),
    }
}

//! A driver for the AM2320 temperature and humidity sensor.
//!
//! The sensor answers a Modbus-like "read holding registers" request over
//! I2C. This crate holds the protocol itself: the CRC-16/Modbus checksum,
//! the validation and decoding of the eight-byte response frame, and the
//! order of bus transactions and delays that one measurement takes, as a
//! state machine that the caller drives with its own bus and clock.
pub mod crc;
pub mod driver;
pub mod frame;
pub mod sequence;

pub use crc::crc16;
pub use driver::Am2320;
pub use frame::{combine_bytes, decode_frame, Error, Measurement};
pub use sequence::{
    Action, Event, ReadSequence, Request, Stage, DEVICE_I2C_ADDR, RESULT_DELAY_US, WAKE_DELAY_US,
};

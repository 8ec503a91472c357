use vstd::prelude::*;
use vstd::slice::slice_subrange;

use crate::crc::{crc16, crc16_of};

verus! {

/// The Modbus function code that a good response starts with ("read
/// holding registers").
pub const FUNCTION_CODE: u8 = 0x03;

/// The number of data bytes that a good response announces: two registers
/// of two bytes each, humidity then temperature.
pub const DATA_LEN: u8 = 0x04;

/// Ways in which reading a measurement can fail.
#[derive(Debug, Clone, Copy, PartialEq, Eq, Structural)]
pub enum Error {
    /// The read command could not be written to the sensor.
    WriteError,
    /// The response could not be read from the sensor.
    ReadError,
    /// The sensor answered with a frame that is out of spec: a wrong header
    /// or a checksum that does not match.
    SensorError,
}

/// One measurement, in the sensor's own units: tenths of a degree Celsius
/// and tenths of a percent of relative humidity.
///
/// The temperature register is taken as unsigned. The sensor marks a
/// reading below zero by setting the register's highest bit; that bit is
/// not decoded here, so such a reading comes out as a large positive value.
#[derive(Debug, Clone, Copy, PartialEq, Eq, Structural)]
pub struct Measurement {
    /// Temperature in tenths of a degree Celsius.
    pub temperature_tenths: u16,
    /// Relative humidity in tenths of a percent.
    pub humidity_tenths: u16,
}

/// The unsigned 16-bit value whose most significant byte is `msb` and whose
/// least significant byte is `lsb`.
pub open spec fn word(msb: u8, lsb: u8) -> int {
    msb as int * 256 + lsb as int
}

/// Combines two bytes, most significant first, into a 16-bit value.
pub fn combine_bytes(msb: u8, lsb: u8) -> (r: u16)
    ensures
        r as int == word(msb, lsb),
{
    let r = ((msb as u16) << 8u16) | lsb as u16;
    assert(((msb as u16) << 8u16) | lsb as u16 == msb as u16 * 256 + lsb as u16) by (bit_vector);
    r
}

/// The frame starts with the expected function code and data length.
pub open spec fn header_ok(f: Seq<u8>) -> bool {
    f[0] == FUNCTION_CODE && f[1] == DATA_LEN
}

/// The checksum of the first six bytes equals the one carried in the last
/// two, which come low byte first.
pub open spec fn checksum_ok(f: Seq<u8>) -> bool {
    crc16_of(f.take(6)) as int == word(f[7], f[6])
}

/// What an eight-byte response frame stands for: the measurement it
/// carries, or a sensor error when its header or checksum is wrong.
pub open spec fn frame_result(f: Seq<u8>) -> Result<Measurement, Error> {
    if header_ok(f) && checksum_ok(f) {
        Ok(
            Measurement {
                temperature_tenths: word(f[4], f[5]) as u16,
                humidity_tenths: word(f[2], f[3]) as u16,
            },
        )
    } else {
        Err(Error::SensorError)
    }
}

/// Validates an eight-byte response frame and decodes the measurement in it.
///
/// Layout: function code, data length, humidity (two bytes, most
/// significant first), temperature (likewise), then the CRC-16/Modbus of
/// the first six bytes, least significant byte first.
pub fn decode_frame(frame: &[u8; 8]) -> (r: Result<Measurement, Error>)
    ensures
        r == frame_result(frame@),
{
    if frame[0] != FUNCTION_CODE || frame[1] != DATA_LEN {
        return Err(Error::SensorError);
    }
    let crc = crc16(slice_subrange(frame.as_slice(), 0, 6));
    assert(frame@.subrange(0, 6) == frame@.take(6));
    if crc != combine_bytes(frame[7], frame[6]) {
        return Err(Error::SensorError);
    }
    let temperature = combine_bytes(frame[4], frame[5]);
    let humidity = combine_bytes(frame[2], frame[3]);
    Ok(Measurement { temperature_tenths: temperature, humidity_tenths: humidity })
}

} // verus!

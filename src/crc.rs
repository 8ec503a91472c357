use vstd::prelude::*;

verus! {

/// The CRC-16/Modbus polynomial, bit-reversed.
pub const CRC_POLY: u16 = 0xA001;

/// One shift of the register: shift right by one bit, folding in the
/// polynomial when the bit shifted out was set.
pub open spec fn crc_shift(c: u16) -> u16 {
    if c & 1 == 1 {
        (c >> 1) ^ CRC_POLY
    } else {
        c >> 1
    }
}

/// The register after `n` shifts.
pub open spec fn crc_shifts(c: u16, n: nat) -> u16
    decreases n,
{
    if n == 0 {
        c
    } else {
        crc_shift(crc_shifts(c, (n - 1) as nat))
    }
}

/// The register after one byte: the byte goes into the low half, then eight
/// shifts follow.
pub open spec fn crc_step(c: u16, b: u8) -> u16 {
    crc_shifts(c ^ (b as u16), 8)
}

/// CRC-16/Modbus of a byte sequence: the register starts at 0xFFFF and takes
/// the bytes in order.
pub open spec fn crc16_of(s: Seq<u8>) -> u16
    decreases s.len(),
{
    if s.len() == 0 {
        0xFFFF
    } else {
        crc_step(crc16_of(s.drop_last()), s.last())
    }
}

/// Computes the CRC-16/Modbus checksum of `data`.
pub fn crc16(data: &[u8]) -> (r: u16)
    ensures
        r == crc16_of(data@),
{
    let mut crc: u16 = 0xFFFF;
    let mut k: usize = 0;
    while k < data.len()
        invariant
            k <= data@.len(),
            crc == crc16_of(data@.take(k as int)),
        decreases data@.len() - k,
    {
        let start = crc;
        crc ^= data[k] as u16;
        let mut i: u32 = 0;
        while i < 8
            invariant
                i <= 8,
                crc == crc_shifts(start ^ (data@[k as int] as u16), i as nat),
            decreases 8 - i,
        {
            if (crc & 0x0001) == 0x0001 {
                crc >>= 1;
                crc ^= CRC_POLY;
            } else {
                crc >>= 1;
            }
            i += 1;
        }
        assert(data@.take(k + 1).drop_last() == data@.take(k as int));
        k += 1;
    }
    assert(data@.take(k as int) == data@);
    crc
}

} // verus!

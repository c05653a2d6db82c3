//! CRC-16/MODBUS over byte frames, as the motor's RS-485 protocol uses it.

use vstd::prelude::*;

verus! {

/// One shift round of the CRC: shift right, xor the polynomial if the low
/// bit was set.
pub open spec fn crc16_shift(crc: u16) -> u16 {
    if crc & 1 == 0 {
        crc >> 1
    } else {
        (crc >> 1) ^ 0xA001
    }
}

/// `n` shift rounds applied to `crc`.
pub open spec fn crc16_rounds(crc: u16, n: nat) -> u16
    decreases n,
{
    if n == 0 {
        crc
    } else {
        crc16_rounds(crc16_shift(crc), (n - 1) as nat)
    }
}

/// CRC register after absorbing `bytes`, starting from `crc`.
pub open spec fn crc16_acc(crc: u16, bytes: Seq<u8>) -> u16
    decreases bytes.len(),
{
    if bytes.len() == 0 {
        crc
    } else {
        crc16_acc(crc16_rounds(crc ^ (bytes[0] as u16), 8), bytes.drop_first())
    }
}

/// CRC-16/MODBUS of a byte sequence.
pub open spec fn crc16(bytes: Seq<u8>) -> u16 {
    crc16_acc(0xFFFF, bytes)
}

/// Compute the CRC-16/MODBUS of the first `data_length` bytes of `frame`
/// (of the whole frame where it is shorter than that).
pub fn calc_crc16(frame: &[u8], data_length: u8) -> (r: u16)
    ensures
        r == crc16(frame@.take(vstd::math::min(data_length as int, frame@.len() as int))),
{
    let len: usize = if (data_length as usize) < frame.len() {
        data_length as usize
    } else {
        frame.len()
    };
    let ghost taken = frame@.take(len as int);
    let mut crc: u16 = 0xffff;
    let mut i: usize = 0;
    proof {
        assert(taken.skip(0) =~= taken);
    }
    while i < len
        invariant
            i <= len,
            len <= frame@.len(),
            taken == frame@.take(len as int),
            crc16_acc(crc, taken.skip(i as int)) == crc16(taken),
        decreases len - i,
    {
        proof {
            assert(taken.skip(i as int)[0] == frame@[i as int]);
        }
        crc = crc ^ (frame[i] as u16);
        let mut j: usize = 0;
        let ghost entering = crc;
        while j < 8
            invariant
                j <= 8,
                crc16_rounds(crc, (8 - j) as nat) == crc16_rounds(entering, 8),
            decreases 8 - j,
        {
            if (crc & 0x0001) == 0 {
                crc = crc >> 1;
            } else {
                crc = (crc >> 1) ^ 0xA001;
            }
            j += 1;
        }
        proof {
            assert(crc == crc16_rounds(entering, 8));
            assert(taken.skip(i as int).drop_first() =~= taken.skip(i as int + 1));
        }
        i += 1;
    }
    proof {
        assert(taken.skip(len as int) =~= Seq::<u8>::empty());
    }
    crc
}

} // verus!

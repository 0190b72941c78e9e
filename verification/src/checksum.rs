//! The checksum engine: a 16-bit cyclic redundancy checksum over byte
//! sequences, using the bit-reversed polynomial `0xA001` (reversed `0x8005`)
//! and the seed `0xFFFF`.  This is the standard CRC-16 used by Modbus RTU;
//! the frame codec is its only in-crate client.
use vstd::prelude::*;

verus! {

/// One shift round: shift the accumulator right by one bit and, if the bit
/// shifted out was set, fold the polynomial back in.
pub open spec fn crc16_shift(c: u16) -> u16 {
    if c & 1 == 1 {
        (c >> 1) ^ 0xA001
    } else {
        c >> 1
    }
}

/// `n` shift rounds applied to `c`.
pub open spec fn crc16_rounds(c: u16, n: nat) -> u16
    decreases n,
{
    if n == 0 {
        c
    } else {
        crc16_shift(crc16_rounds(c, (n - 1) as nat))
    }
}

/// Folding one input byte into the accumulator: XOR it into the low byte,
/// then run eight shift rounds.
pub open spec fn crc16_update(c: u16, b: u8) -> u16 {
    crc16_rounds(c ^ (b as u16), 8)
}

/// The checksum of a byte sequence: the seed `0xFFFF` with every byte of `s`
/// folded in, left to right.
pub open spec fn crc16(s: Seq<u8>) -> u16
    decreases s.len(),
{
    if s.len() == 0 {
        0xFFFF
    } else {
        crc16_update(crc16(s.drop_last()), s.last())
    }
}

/// The checksum of the empty sequence is the seed, unchanged through zero
/// iterations.
pub proof fn lemma_crc16_empty()
    ensures
        crc16(Seq::<u8>::empty()) == 0xFFFF,
{
}

/// Computes the CRC-16 of `data`.  The result is a function of the byte
/// values alone — deterministic, and independent of where the bytes live.
pub fn calculate_crc16(data: &[u8]) -> (crc: u16)
    ensures
        crc == crc16(data@),
{
    let mut crc: u16 = 0xFFFF;
    let mut i: usize = 0;
    while i < data.len()
        invariant
            i <= data@.len(),
            crc == crc16(data@.subrange(0, i as int)),
        decreases data@.len() - i,
    {
        let byte = data[i];
        let mut c: u16 = crc ^ (byte as u16);
        let ghost c0 = c;
        let mut j: usize = 0;
        while j < 8
            invariant
                j <= 8,
                c == crc16_rounds(c0, j as nat),
            decreases 8 - j,
        {
            if c & 1 == 1 {
                c = (c >> 1) ^ 0xA001;
            } else {
                c = c >> 1;
            }
            j = j + 1;
        }
        proof {
            let pre = data@.subrange(0, i as int);
            let cur = data@.subrange(0, i + 1);
            assert(cur.drop_last() =~= pre);
            assert(cur.last() == data@[i as int]);
        }
        crc = c;
        i = i + 1;
    }
    proof {
        assert(data@.subrange(0, data@.len() as int) =~= data@);
    }
    crc
}

} // verus!

//! CRC-16 checksums used by the gimbal frame formats.
//!
//! Two variants of the CCITT polynomial 0x1021 are in use:
//! - the reflected variant (input and output bit-reversed, init 0x496c,
//!   no final xor), computed here least-significant-bit first with the
//!   reversed polynomial 0x8408 and the bit-reversed init value 0x3692;
//! - the plain most-significant-bit-first variant with init 0 and a final
//!   xor of 0x25b1, used by the crane-style gimbals.

use vstd::prelude::*;

verus! {

/// One bit round of the reflected CRC: shift right, folding the
/// reversed polynomial 0x8408 in when the low bit falls out.
pub open spec fn crc16_lsb_bit(crc: u16) -> u16 {
    if crc & 1 == 1 {
        (crc >> 1) ^ 0x8408
    } else {
        crc >> 1
    }
}

/// `n` bit rounds of the reflected CRC.
pub open spec fn crc16_lsb_bits(crc: u16, n: nat) -> u16
    decreases n,
{
    if n == 0 {
        crc
    } else {
        crc16_lsb_bit(crc16_lsb_bits(crc, (n - 1) as nat))
    }
}

/// Feeding one byte into the reflected CRC.
pub open spec fn crc16_lsb_byte(crc: u16, b: u8) -> u16 {
    crc16_lsb_bits(crc ^ (b as u16), 8)
}

/// The register after feeding `data` into the reflected CRC, starting
/// from the bit-reversed init value of 0x496c.
pub open spec fn ronin_crc_state(data: Seq<u8>) -> u16
    decreases data.len(),
{
    if data.len() == 0 {
        0x3692
    } else {
        crc16_lsb_byte(ronin_crc_state(data.drop_last()), data.last())
    }
}

/// The checksum of the Ronin frame format: CRC-16 with polynomial 0x1021,
/// init 0x496c, reflected input and output, no final xor.
pub open spec fn ronin_crc(data: Seq<u8>) -> u16 {
    ronin_crc_state(data)
}

/// One bit round of the plain CRC: shift left, folding the polynomial
/// 0x1021 in when the high bit falls out.
pub open spec fn crc16_msb_bit(crc: u16) -> u16 {
    if crc & 0x8000 == 0x8000 {
        (crc << 1) ^ 0x1021
    } else {
        crc << 1
    }
}

/// `n` bit rounds of the plain CRC.
pub open spec fn crc16_msb_bits(crc: u16, n: nat) -> u16
    decreases n,
{
    if n == 0 {
        crc
    } else {
        crc16_msb_bit(crc16_msb_bits(crc, (n - 1) as nat))
    }
}

/// Feeding one byte into the plain CRC.
pub open spec fn crc16_msb_byte(crc: u16, b: u8) -> u16 {
    crc16_msb_bits(crc ^ ((b as u16) << 8), 8)
}

/// The register after feeding `data` into the plain CRC, starting from 0.
pub open spec fn crane_crc_state(data: Seq<u8>) -> u16
    decreases data.len(),
{
    if data.len() == 0 {
        0
    } else {
        crc16_msb_byte(crane_crc_state(data.drop_last()), data.last())
    }
}

/// The checksum of the crane frame format: CRC-16 with polynomial 0x1021,
/// init 0, no reflection, final xor 0x25b1.
pub open spec fn crane_crc(data: Seq<u8>) -> u16 {
    crane_crc_state(data) ^ 0x25b1
}

/// Computes the Ronin-variant checksum of `data`.
pub fn ronin_checksum(data: &[u8]) -> (r: u16)
    ensures
        r == ronin_crc(data@),
{
    let mut crc: u16 = 0x3692;
    let mut i: usize = 0;
    while i < data.len()
        invariant
            i <= data.len(),
            crc == ronin_crc_state(data@.subrange(0, i as int)),
        decreases data.len() - i,
    {
        let ghost prev = crc;
        crc = crc ^ (data[i] as u16);
        let mut k: usize = 0;
        while k < 8
            invariant
                k <= 8,
                crc == crc16_lsb_bits(prev ^ (data@[i as int] as u16), k as nat),
            decreases 8 - k,
        {
            if crc & 1 == 1 {
                crc = (crc >> 1) ^ 0x8408;
            } else {
                crc = crc >> 1;
            }
            k = k + 1;
        }
        i = i + 1;
        proof {
            let pre = data@.subrange(0, i as int);
            assert(pre.drop_last() =~= data@.subrange(0, i - 1));
            assert(pre.last() == data@[i - 1]);
        }
    }
    proof {
        assert(data@.subrange(0, data@.len() as int) =~= data@);
    }
    crc
}

/// Computes the crane-variant checksum of `data`.
pub fn crane_checksum(data: &[u8]) -> (r: u16)
    ensures
        r == crane_crc(data@),
{
    let mut crc: u16 = 0;
    let mut i: usize = 0;
    while i < data.len()
        invariant
            i <= data.len(),
            crc == crane_crc_state(data@.subrange(0, i as int)),
        decreases data.len() - i,
    {
        let ghost prev = crc;
        crc = crc ^ ((data[i] as u16) << 8);
        let mut k: usize = 0;
        while k < 8
            invariant
                k <= 8,
                crc == crc16_msb_bits(prev ^ ((data@[i as int] as u16) << 8), k as nat),
            decreases 8 - k,
        {
            if crc & 0x8000 == 0x8000 {
                crc = (crc << 1) ^ 0x1021;
            } else {
                crc = crc << 1;
            }
            k = k + 1;
        }
        i = i + 1;
        proof {
            let pre = data@.subrange(0, i as int);
            assert(pre.drop_last() =~= data@.subrange(0, i - 1));
            assert(pre.last() == data@[i - 1]);
        }
    }
    proof {
        assert(data@.subrange(0, data@.len() as int) =~= data@);
    }
    crc ^ 0x25b1
}

} // verus!

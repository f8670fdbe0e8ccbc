//! Bit-level decoders for the payloads of EEG, motion and optical packets.
//!
//! Every decoder returns raw integer counts; the physical scale of EEG counts
//! is given by `EegResolution::scale_factor`.
use vstd::prelude::*;
use crate::device::EegResolution;

verus! {

/// A 16-bit big-endian two's-complement value.
pub open spec fn be16_signed(hi: u8, lo: u8) -> int {
    let v = hi * 256 + lo;
    if v >= 0x8000 {
        v - 0x10000
    } else {
        v
    }
}

/// A 24-bit big-endian two's-complement value.
pub open spec fn be24_signed(b0: u8, b1: u8, b2: u8) -> int {
    let v = b0 * 65536 + b1 * 256 + b2;
    if v >= 0x80_0000 {
        v - 0x100_0000
    } else {
        v
    }
}

/// The `j`-th 12-bit raw value packed in `data`: each byte triplet
/// `b0 b1 b2` holds `b0:b1.hi` and then `b1.lo:b2`.
pub open spec fn eeg_raw(data: Seq<u8>, j: int) -> int {
    let t = 3 * (j / 2);
    if j % 2 == 0 {
        data[t] * 16 + data[t + 1] / 16
    } else {
        (data[t + 1] % 16) * 256 + data[t + 2]
    }
}

/// The EEG samples of a payload, as counts relative to the zero offset.
/// Bytes after the last complete triplet are ignored.
pub open spec fn eeg_decode(data: Seq<u8>, resolution: EegResolution) -> Seq<i32> {
    Seq::new(
        ((data.len() / 3) * 2) as nat,
        |j: int| (eeg_raw(data, j) - resolution.spec_offset()) as i32,
    )
}

/// The optical readings of a payload: one signed 24-bit value per
/// complete byte triplet.
pub open spec fn ppg_decode(data: Seq<u8>) -> Seq<i32> {
    Seq::new(
        data.len() / 3,
        |j: int| be24_signed(data[3 * j], data[3 * j + 1], data[3 * j + 2]) as i32,
    )
}

/// A three-axis motion reading in raw counts.
#[derive(Clone, Copy, Debug, PartialEq, Eq, Structural)]
pub struct MotionVector {
    pub x: i32,
    pub y: i32,
    pub z: i32,
}

impl MotionVector {
    pub open spec fn spec_zero() -> MotionVector {
        MotionVector { x: 0, y: 0, z: 0 }
    }

    /// The vector with all three axes at zero.
    pub fn zero() -> (r: MotionVector)
        ensures
            r == MotionVector::spec_zero(),
    {
        MotionVector { x: 0, y: 0, z: 0 }
    }
}

/// The motion reading stored at byte offset `at`: three 16-bit values.
pub open spec fn motion_at(data: Seq<u8>, at: int) -> MotionVector {
    MotionVector {
        x: be16_signed(data[at], data[at + 1]) as i32,
        y: be16_signed(data[at + 2], data[at + 3]) as i32,
        z: be16_signed(data[at + 4], data[at + 5]) as i32,
    }
}

/// Reads a signed 16-bit big-endian value from the first two bytes.
pub fn cast_16bit_to_int32(data: &[u8]) -> (r: i32)
    requires
        data@.len() >= 2,
    ensures
        r == be16_signed(data@[0], data@[1]),
{
    let hi = data[0];
    let lo = data[1];
    let val: u16 = ((hi as u16) << 8) | (lo as u16);
    assert(val == hi * 256 + lo) by (bit_vector)
        requires
            val == ((hi as u16) << 8) | (lo as u16),
    ;
    assert((val & 0x8000 != 0) == (val >= 0x8000)) by (bit_vector);
    if val & 0x8000 != 0 {
        (val as i32) - 0x10000
    } else {
        val as i32
    }
}

/// Reads a signed 24-bit big-endian value from the first three bytes.
pub fn cast_24bit_to_int32(data: &[u8]) -> (r: i32)
    requires
        data@.len() >= 3,
    ensures
        r == be24_signed(data@[0], data@[1], data@[2]),
{
    let b0 = data[0];
    let b1 = data[1];
    let b2 = data[2];
    let val: u32 = ((b0 as u32) << 16) | ((b1 as u32) << 8) | (b2 as u32);
    assert(val == b0 * 65536 + b1 * 256 + b2) by (bit_vector)
        requires
            val == ((b0 as u32) << 16) | ((b1 as u32) << 8) | (b2 as u32),
    ;
    assert(val < 0x100_0000 ==> ((val & 0x80_0000 != 0) == (val >= 0x80_0000))) by (bit_vector);
    if val & 0x80_0000 != 0 {
        (val as i32) - 0x100_0000
    } else {
        val as i32
    }
}

/// Unpacks the 12-bit EEG values of `data`, two per byte triplet, and
/// subtracts the zero offset of `resolution`.
pub fn parse_eeg_samples(data: &[u8], resolution: EegResolution) -> (r: Vec<i32>)
    ensures
        r@ == eeg_decode(data@, resolution),
{
    let offset = resolution.offset();
    let len = data.len();
    let n = len / 3;
    let mut samples: Vec<i32> = Vec::with_capacity(12);
    let mut k: usize = 0;
    while k < n
        invariant
            len == data@.len(),
            n == len / 3,
            k <= n,
            offset == resolution.spec_offset(),
            samples@.len() == 2 * k,
            forall|j: int| 0 <= j < 2 * k ==> samples@[j] == (eeg_raw(data@, j) - offset) as i32,
        decreases n - k,
    {
        assert(3 * k + 3 <= len) by (nonlinear_arith)
            requires
                k < n,
                n == len / 3,
        ;
        let i = 3 * k;
        let b0 = data[i];
        let b1 = data[i + 1];
        let b2 = data[i + 2];
        let val1: u16 = ((b0 as u16) << 4) | ((b1 >> 4) as u16);
        let val2: u16 = (((b1 & 0x0F) as u16) << 8) | (b2 as u16);
        assert(val1 == b0 * 16 + b1 / 16) by (bit_vector)
            requires
                val1 == ((b0 as u16) << 4) | ((b1 >> 4) as u16),
        ;
        assert(val2 == (b1 % 16) * 256 + b2) by (bit_vector)
            requires
                val2 == (((b1 & 0x0F) as u16) << 8) | (b2 as u16),
        ;
        proof {
            let j0 = 2 * k as int;
            assert(eeg_raw(data@, j0) == val1);
            assert(eeg_raw(data@, j0 + 1) == val2);
        }
        samples.push(val1 as i32 - offset);
        samples.push(val2 as i32 - offset);
        k = k + 1;
    }
    assert(samples@ =~= eeg_decode(data@, resolution));
    samples
}

/// Reads the signed 24-bit optical readings of `data`, one per byte triplet.
pub fn parse_ppg_samples(data: &[u8]) -> (r: Vec<i32>)
    ensures
        r@ == ppg_decode(data@),
{
    let len = data.len();
    let n = len / 3;
    let mut samples: Vec<i32> = Vec::with_capacity(6);
    let mut k: usize = 0;
    while k < n
        invariant
            len == data@.len(),
            n == len / 3,
            k <= n,
            samples@.len() == k,
            forall|j: int| 0 <= j < k ==> samples@[j] == ppg_decode(data@)[j],
        decreases n - k,
    {
        assert(3 * k + 3 <= len) by (nonlinear_arith)
            requires
                k < n,
                n == len / 3,
        ;
        let triplet = vstd::slice::slice_subrange(data, 3 * k, 3 * k + 3);
        let val = cast_24bit_to_int32(triplet);
        samples.push(val);
        k = k + 1;
    }
    assert(samples@ =~= ppg_decode(data@));
    samples
}

/// Decodes a motion packet. The packet holds three readings at byte
/// offsets 2, 8 and 14; they are read in turn and each overwrites the
/// previous, so the last one is the result.
pub fn parse_motion_samples(data: &[u8]) -> (r: MotionVector)
    requires
        data@.len() >= 20,
    ensures
        r == motion_at(data@, 14),
{
    let mut latest = MotionVector::zero();
    let mut i: usize = 0;
    while i < 3
        invariant
            i <= 3,
            data@.len() >= 20,
            i > 0 ==> latest == motion_at(data@, 2 + 6 * (i - 1)),
        decreases 3 - i,
    {
        let at = 2 + i * 6;
        let x = cast_16bit_to_int32(vstd::slice::slice_subrange(data, at, at + 2));
        let y = cast_16bit_to_int32(vstd::slice::slice_subrange(data, at + 2, at + 4));
        let z = cast_16bit_to_int32(vstd::slice::slice_subrange(data, at + 4, at + 6));
        latest = MotionVector { x, y, z };
        i = i + 1;
    }
    latest
}

} // verus!

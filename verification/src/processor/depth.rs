//! The integer stages of depth decoding: the table that widens 11-bit
//! samples, and the unpacking of one sample from a depth packet.
//!
//! A depth packet holds ten sub-images of 298496 bytes. A sub-image holds
//! 424 rows of 352 little-endian 16-bit words, and a row holds 512 samples
//! of 11 bits. The lower half of the image comes first, top row first, then
//! the upper half, bottom row first. Within a row the samples are
//! interleaved in four groups of 128.
use vstd::prelude::*;

use crate::wire::{le_u32, read_u32};
use crate::{DEPTH_HEIGHT, DEPTH_WIDTH, LUT_SIZE};

verus! {

/// Bytes of one sub-image.
pub const SUB_IMAGE_SIZE: usize = 298496;

/// Sub-images of one depth packet.
pub const SUB_IMAGES: usize = 10;

/// Bytes of one row of a sub-image.
pub const ROW_SIZE: usize = 704;

/// The value that stands for a saturated sample.
pub const SATURATED: i16 = 32767;

/// The step of the table at entry `x`: 1 up to entry 255, then twice as
/// much from each multiple of 128 on.
pub open spec fn step(x: int) -> int {
    if x < 256 {
        1
    } else if x < 384 {
        2
    } else if x < 512 {
        4
    } else if x < 640 {
        8
    } else if x < 768 {
        16
    } else if x < 896 {
        32
    } else {
        64
    }
}

/// The sum of the steps of the entries before `x`.
pub open spec fn ramp(x: int) -> int
    decreases x,
{
    if x <= 0 {
        0
    } else {
        ramp(x - 1) + step(x - 1)
    }
}

/// Entry `k` of the table that widens an 11-bit sample to 16 bits: the ramp
/// for the first 1024 entries, the largest value at entry 1024, and the
/// negated ramp after it.
pub open spec fn lut_entry(k: int) -> i16 {
    if k < 1024 {
        ramp(k) as i16
    } else if k == 1024 {
        SATURATED
    } else {
        (-ramp(k - 1024)) as i16
    }
}

/// The table that widens 11-bit samples.
pub open spec fn lookup_table() -> Seq<i16> {
    Seq::new(LUT_SIZE as nat, |k: int| lut_entry(k))
}

/// The ramp is linear between the multiples of 128.
pub proof fn lemma_ramp(x: int)
    requires
        0 <= x <= 1024,
    ensures
        ramp(x) == if x < 256 {
            x
        } else if x < 384 {
            256 + 2 * (x - 256)
        } else if x < 512 {
            512 + 4 * (x - 384)
        } else if x < 640 {
            1024 + 8 * (x - 512)
        } else if x < 768 {
            2048 + 16 * (x - 640)
        } else if x < 896 {
            4096 + 32 * (x - 768)
        } else {
            8192 + 64 * (x - 896)
        },
        0 <= ramp(x) <= 16384,
    decreases x,
{
    if x > 0 {
        lemma_ramp(x - 1);
    }
}

/// Only entry 1024 of the table holds the value that stands for a saturated
/// sample, and entry 0 holds 0.
pub proof fn lemma_saturated_entry(k: int)
    requires
        0 <= k < LUT_SIZE,
    ensures
        lut_entry(k) == SATURATED <==> k == 1024,
        lut_entry(0) == 0,
{
    if k < 1024 {
        lemma_ramp(k);
    } else if k > 1024 {
        lemma_ramp(k - 1024);
    }
    lemma_ramp(0);
}

/// Builds the table that widens 11-bit samples.
pub fn build_lookup_table() -> (lut: Vec<i16>)
    ensures
        lut@ == lookup_table(),
{
    let mut lut: Vec<i16> = vec![0i16; LUT_SIZE];
    let mut y: i16 = 0;
    let mut x: usize = 0;
    while x < 1024
        invariant
            x <= 1024,
            lut@.len() == LUT_SIZE,
            y == ramp(x as int),
            forall|k: int| 0 <= k < x ==> lut@[k] == lut_entry(k),
            forall|k: int| 1024 < k < 1024 + x ==> lut@[k] == lut_entry(k),
        decreases 1024 - x,
    {
        proof {
            lemma_ramp(x as int);
            lemma_ramp(x + 1);
        }
        let inc: i16 = if x < 256 {
            1
        } else if x < 384 {
            2
        } else if x < 512 {
            4
        } else if x < 640 {
            8
        } else if x < 768 {
            16
        } else if x < 896 {
            32
        } else {
            64
        };
        lut[x] = y;
        lut[1024 + x] = -y;
        y = y + inc;
        x += 1;
    }
    lut[1024] = SATURATED;
    lut
}

/// The row of a sub-image that holds row `y` of the image.
pub open spec fn packed_row(y: int) -> int {
    if y < 212 {
        y + 212
    } else {
        423 - y
    }
}

/// The bit of a row at which the sample of column `x` starts.
pub open spec fn sample_bit(x: int) -> int {
    (x / 4 + (x % 4) * 128) * 11
}

/// The byte of a depth packet at which the word starts that holds the first
/// bit of the sample of pixel (`x`, `y`) in sub-image `sub`.
pub open spec fn sample_byte(sub: int, x: int, y: int) -> int {
    SUB_IMAGE_SIZE * sub + ROW_SIZE * packed_row(y) + 2 * (sample_bit(x) / 16)
}

/// The pixel has no sample of its own: the first and the last column, and
/// what lies below the image.
pub open spec fn is_unsampled(x: int, y: int) -> bool {
    x < 1 || 510 < x || 423 < y
}

/// The 11-bit sample of pixel (`x`, `y`) in sub-image `sub` of the depth
/// packet `data`: eleven bits from the start of the sample on, the lowest
/// first, in the row read as little-endian words.
pub open spec fn packed_sample(data: Seq<u8>, sub: int, x: int, y: int) -> u32 {
    (le_u32(data, sample_byte(sub, x, y)) >> ((sample_bit(x) % 16) as u32)) & 0x7ff
}

/// What pixel (`x`, `y`) measures in sub-image `sub` of the depth packet
/// `data`: its sample widened by the table `lut`, and the first entry of
/// the table where the pixel has no sample.
pub open spec fn pixel_measurement(lut: Seq<i16>, data: Seq<u8>, sub: int, x: int, y: int) -> i16 {
    if is_unsampled(x, y) {
        lut[0]
    } else {
        lut[packed_sample(data, sub, x, y) as int]
    }
}

/// Unpacks what pixel (`x`, `y`) measures in sub-image `sub` of the depth
/// packet `data` and widens it by the table `lut`.
pub fn decode_pixel_measurement(lut: &[i16], data: &[u8], sub: usize, x: usize, y: usize) -> (m:
    i16)
    requires
        lut@.len() == LUT_SIZE,
        sub < SUB_IMAGES,
        data@.len() >= SUB_IMAGE_SIZE * (sub + 1),
    ensures
        m == pixel_measurement(lut@, data@, sub as int, x as int, y as int),
{
    if x < 1 || 510 < x || 423 < y {
        return lut[0];
    }
    let bit: usize = (x / 4 + (x % 4) * 128) * 11;
    let row: usize = if y < 212 {
        y + 212
    } else {
        423 - y
    };
    let at: usize = SUB_IMAGE_SIZE * sub + ROW_SIZE * row + 2 * (bit / 16);
    let shift: u32 = (bit % 16) as u32;
    let words: u32 = read_u32(data, at);
    let sample: u32 = (words >> shift) & 0x7ff;
    assert(sample < 2048) by (bit_vector)
        requires
            sample == (words >> shift) & 0x7ff,
    ;
    lut[sample as usize]
}

/// A depth packet of zero bytes measures the first entry of the table at
/// every pixel of every sub-image: 0 with the table that
/// [`build_lookup_table`] builds.
pub proof fn lemma_zero_packet_measures_zero(data: Seq<u8>, sub: int, x: int, y: int)
    requires
        0 <= sub < SUB_IMAGES,
        0 <= x < DEPTH_WIDTH,
        0 <= y < DEPTH_HEIGHT,
        data.len() == SUB_IMAGE_SIZE * SUB_IMAGES,
        forall|i: int| 0 <= i < data.len() ==> data[i] == 0,
    ensures
        pixel_measurement(lookup_table(), data, sub, x, y) == 0,
{
    lemma_ramp(0);
    if !is_unsampled(x, y) {
        let shift = (sample_bit(x) % 16) as u32;
        assert((0u32 >> shift) & 0x7ff == 0) by (bit_vector);
    }
}

/// A pixel measures the value that stands for saturation if and only if it
/// has a sample and the sample is 1024.
pub proof fn lemma_saturated_measurement(data: Seq<u8>, sub: int, x: int, y: int)
    ensures
        pixel_measurement(lookup_table(), data, sub, x, y) == SATURATED <==> !is_unsampled(x, y)
            && packed_sample(data, sub, x, y) == 1024,
{
    lemma_saturated_entry(0);
    if !is_unsampled(x, y) {
        let words = le_u32(data, sample_byte(sub, x, y));
        let shift = (sample_bit(x) % 16) as u32;
        let sample = packed_sample(data, sub, x, y);
        assert(sample < 2048) by (bit_vector)
            requires
                sample == (words >> shift) & 0x7ff,
        ;
        lemma_saturated_entry(sample as int);
    }
}

/// Bit `n` of `data`, counted from the lowest bit of the first byte.
pub open spec fn bit_at(data: Seq<u8>, n: int) -> bool {
    (data[n / 8] >> ((n % 8) as u8)) & 1 == 1
}

/// The bit of a depth packet at which the sample of pixel (`x`, `y`) in
/// sub-image `sub` starts.
pub open spec fn sample_start(sub: int, x: int, y: int) -> int {
    8 * (SUB_IMAGE_SIZE * sub + ROW_SIZE * packed_row(y)) + sample_bit(x)
}

proof fn lemma_bits_of_word(b0: u8, b1: u8, b2: u8, b3: u8, shift: u32, i: u32)
    by (bit_vector)
    requires
        shift < 16,
        i < 11,
    ensures
        ({
            let word: u32 = (b0 as u32) | ((b1 as u32) << 8) | ((b2 as u32) << 16) | ((b3 as u32)
                << 24);
            let n: u32 = (shift + i) as u32;
            let byte: u8 = if n < 8 {
                b0
            } else if n < 16 {
                b1
            } else if n < 24 {
                b2
            } else {
                b3
            };
            ((((word >> shift) & 0x7ff) >> i) & 1 == 1) == ((byte >> ((n % 8) as u8)) & 1 == 1)
        }),
{
}

proof fn lemma_word_of_bytes(b0: u8, b1: u8, b2: u8, b3: u8)
    by (bit_vector)
    ensures
        (b0 as u32) | ((b1 as u32) << 8) | ((b2 as u32) << 16) | ((b3 as u32) << 24) == b0 as u32
            + 256 * (b1 as u32) + 65536 * (b2 as u32) + 16777216 * (b3 as u32),
{
}

/// Bit `i` of the sample of a pixel is bit `i` of the packet counted from
/// where the sample starts: a sample is eleven bits in a row.
pub proof fn lemma_sample_bits(data: Seq<u8>, sub: int, x: int, y: int, i: int)
    requires
        0 <= sub < SUB_IMAGES,
        1 <= x <= 510,
        0 <= y <= 423,
        0 <= i < 11,
        data.len() >= SUB_IMAGE_SIZE * (sub + 1),
    ensures
        ((packed_sample(data, sub, x, y) >> (i as u32)) & 1 == 1) == bit_at(
            data,
            sample_start(sub, x, y) + i,
        ),
{
    let at = sample_byte(sub, x, y);
    let shift = sample_bit(x) % 16;
    let b0 = data[at];
    let b1 = data[at + 1];
    let b2 = data[at + 2];
    let b3 = data[at + 3];
    lemma_word_of_bytes(b0, b1, b2, b3);
    lemma_bits_of_word(b0, b1, b2, b3, shift as u32, i as u32);
}

/// The samples of two columns of a row share no bit.
pub proof fn lemma_samples_apart(x1: int, x2: int)
    requires
        0 <= x1 < x2 < DEPTH_WIDTH,
    ensures
        sample_bit(x1) + 11 <= sample_bit(x2) || sample_bit(x2) + 11 <= sample_bit(x1),
        0 <= sample_bit(x1) <= 8 * ROW_SIZE - 11,
{
}

/// What the three samples of one modulation frequency say of a pixel.
#[derive(Debug, Clone, Copy, PartialEq, Eq)]
pub enum Measurement {
    /// The pixel lies where the sensor sees nothing.
    Invalid,
    /// One of the three samples is saturated.
    Saturated,
    /// The three samples can be demodulated.
    Valid,
}

/// Tells what the three samples `m0`, `m1`, `m2` of one modulation
/// frequency say of a pixel. `in_view` tells whether the Z table holds a
/// positive distance for the pixel.
pub fn classify_measurement(in_view: bool, m0: i16, m1: i16, m2: i16) -> (kind: Measurement)
    ensures
        kind == if !in_view {
            Measurement::Invalid
        } else if m0 == SATURATED || m1 == SATURATED || m2 == SATURATED {
            Measurement::Saturated
        } else {
            Measurement::Valid
        },
{
    if !in_view {
        Measurement::Invalid
    } else if m0 == SATURATED || m1 == SATURATED || m2 == SATURATED {
        Measurement::Saturated
    } else {
        Measurement::Valid
    }
}

/// The pixel lies on the border of the image, where the filters pass it
/// through.
pub fn is_border(x: usize, y: usize) -> (border: bool)
    ensures
        border == (x < 1 || y < 1 || x > 510 || y > 422),
{
    x < 1 || y < 1 || x > 510 || y > 422
}

/// Where the value of pixel (`x`, `y`) goes in the finished image, which is
/// the decoded image turned upside down.
pub fn output_index(x: usize, y: usize) -> (index: usize)
    requires
        x < DEPTH_WIDTH,
        y < DEPTH_HEIGHT,
    ensures
        index == x + (DEPTH_HEIGHT - 1 - y) * DEPTH_WIDTH,
        index < DEPTH_WIDTH * DEPTH_HEIGHT,
{
    x + (DEPTH_HEIGHT - 1 - y) * DEPTH_WIDTH
}

} // verus!

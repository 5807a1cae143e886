//! The uniform block shared with the fragment program, and its memory image.
//!
//! The block is six consecutive single-precision numbers: the pointer position,
//! the surface resolution, the elapsed time and one number of padding. Pointer
//! and resolution are in pixels; a fragment program normalises them itself.

use crate::binary32::Binary32;
use vstd::prelude::*;

verus! {

/// Number of 32-bit words in the uniform block.
pub const UNIFORM_WORDS: usize = 6;

/// Size of the uniform block in bytes.
pub const UNIFORM_BYTES: usize = 24;

/// A pair of single-precision numbers, laid out as the shading language lays
/// out a two-component vector.
#[derive(Clone, Copy, Debug, PartialEq, Eq, Structural)]
pub struct Vec2 {
    pub x: Binary32,
    pub y: Binary32,
}

/// The values that every invocation of the fragment program reads.
#[derive(Clone, Copy, Debug, PartialEq, Eq, Structural)]
pub struct Uniforms {
    /// Last reported pointer position, in surface pixels.
    pub mouse: Vec2,
    /// Size of the surface, in pixels.
    pub resolution: Vec2,
    /// Seconds since the start of the run.
    pub time: Binary32,
    /// Layout only; the fragment program does not declare it.
    pub padding: Binary32,
}

/// Byte `index` (0 the least significant) of a 32-bit word.
pub open spec fn word_byte(word: u32, index: int) -> u8 {
    if index == 0 {
        (word % 0x100) as u8
    } else if index == 1 {
        ((word / 0x100) % 0x100) as u8
    } else if index == 2 {
        ((word / 0x1_0000) % 0x100) as u8
    } else {
        (word / 0x100_0000) as u8
    }
}

/// The words one after the other, each with its least significant byte first.
pub open spec fn little_endian_image(words: Seq<u32>) -> Seq<u8> {
    Seq::new(4 * words.len(), |i: int| word_byte(words[i / 4], i % 4))
}

/// The words one after the other, each with its most significant byte first.
pub open spec fn big_endian_image(words: Seq<u32>) -> Seq<u8> {
    Seq::new(4 * words.len(), |i: int| word_byte(words[i / 4], 3 - i % 4))
}

/// True when `bytes` is how a machine holds `words` in memory: word after
/// word without gaps, each word in the byte order of the machine, which is one
/// of the two.
pub open spec fn is_memory_image(bytes: Seq<u8>, words: Seq<u32>) -> bool {
    bytes == little_endian_image(words) || bytes == big_endian_image(words)
}

/// Calls `bytemuck::bytes_of` on the array and copies the slice it returns.
/// `bytes_of` reinterprets the array's memory as bytes, so the result has the
/// array's 24 bytes in memory order. Trusted: that this memory is the six
/// words in sequence, each in the byte order of the machine.
#[verifier::external_body]
fn memory_image(words: &[u32; UNIFORM_WORDS]) -> (bytes: Vec<u8>)
    ensures
        is_memory_image(bytes@, words@),
{
    bytemuck::bytes_of(words).to_vec()
}

impl Uniforms {
    /// The block at the start of a run on a surface of the given size: pointer
    /// at the origin, time zero.
    pub open spec fn initial(width: u32, height: u32) -> Uniforms {
        Uniforms {
            mouse: Vec2 { x: Binary32::zero(), y: Binary32::zero() },
            resolution: Vec2 { x: Binary32::of_u32(width), y: Binary32::of_u32(height) },
            time: Binary32::zero(),
            padding: Binary32::zero(),
        }
    }

    /// The block as six words, in the order of its memory layout: mouse at
    /// byte 0, resolution at byte 8, time at byte 16, padding at byte 20.
    pub open spec fn words(self) -> Seq<u32> {
        seq![
            self.mouse.x.bits,
            self.mouse.y.bits,
            self.resolution.x.bits,
            self.resolution.y.bits,
            self.time.bits,
            self.padding.bits,
        ]
    }

    /// Builds the block for the start of a run.
    pub fn new(width: u32, height: u32) -> (u: Uniforms)
        ensures
            u == Uniforms::initial(width, height),
    {
        Uniforms {
            mouse: Vec2 { x: Binary32::new_zero(), y: Binary32::new_zero() },
            resolution: Vec2 { x: Binary32::from_u32(width), y: Binary32::from_u32(height) },
            time: Binary32::new_zero(),
            padding: Binary32::new_zero(),
        }
    }

    /// The block as an array of words in layout order.
    pub fn to_words(&self) -> (w: [u32; UNIFORM_WORDS])
        ensures
            w@ == self.words(),
    {
        let w: [u32; UNIFORM_WORDS] = [
            self.mouse.x.bits,
            self.mouse.y.bits,
            self.resolution.x.bits,
            self.resolution.y.bits,
            self.time.bits,
            self.padding.bits,
        ];
        assert(w@ =~= self.words());
        w
    }

    /// The bytes to copy into the uniform buffer: the memory image of the six
    /// words, 24 bytes without gaps.
    pub fn to_bytes(&self) -> (bytes: Vec<u8>)
        ensures
            is_memory_image(bytes@, self.words()),
            bytes@.len() == UNIFORM_BYTES,
    {
        let w: [u32; UNIFORM_WORDS] = self.to_words();
        memory_image(&w)
    }
}

} // verus!

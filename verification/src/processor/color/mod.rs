//! Color images.
use vstd::prelude::*;

pub mod zune;

pub use zune::ZuneColorProcessor;

use crate::packet::ColorPacket;
use crate::processor::{ProcessTrait, ProcessorTrait};

verus! {

/// How the bytes of a pixel are to be read.
#[derive(Debug, Clone, Copy, PartialEq, Eq)]
pub enum ColorSpace {
    RGB,
    RGBA,
    YCbCr,
    BGR,
    BGRA,
    Unknown,
}

impl ColorSpace {
    /// Bytes of one pixel.
    pub open spec fn spec_bytes_per_pixel(&self) -> usize {
        match self {
            ColorSpace::YCbCr | ColorSpace::RGB | ColorSpace::BGR => 3,
            ColorSpace::BGRA | ColorSpace::RGBA => 4,
            ColorSpace::Unknown => 0,
        }
    }

    /// Bytes of one pixel; 0 where that is not known.
    #[verifier::when_used_as_spec(spec_bytes_per_pixel)]
    pub fn bytes_per_pixel(&self) -> (bytes: usize)
        ensures
            bytes == self.spec_bytes_per_pixel(),
    {
        match self {
            ColorSpace::YCbCr | ColorSpace::RGB | ColorSpace::BGR => 3,
            ColorSpace::BGRA | ColorSpace::RGBA => 4,
            ColorSpace::Unknown => 0,
        }
    }

    /// Whether a pixel has an alpha channel.
    pub fn has_alpha(&self) -> (alpha: bool)
        ensures
            alpha == (*self == ColorSpace::RGBA || *self == ColorSpace::BGRA),
    {
        matches!(self, ColorSpace::RGBA | ColorSpace::BGRA)
    }

    /// The byte of a pixel that holds the alpha channel, where it has one.
    pub fn alpha_position(&self) -> (position: Option<usize>)
        ensures
            position == if *self == ColorSpace::RGBA || *self == ColorSpace::BGRA {
                Some(3usize)
            } else {
                None
            },
    {
        match self {
            ColorSpace::RGBA => Some(3),
            ColorSpace::BGRA => Some(3),
            _ => None,
        }
    }
}

/// A decoded color image with what its packet told of it. `exposure`,
/// `gain` and `gamma` are IEEE-754 single-precision bit patterns.
#[derive(Debug, Clone)]
pub struct ColorFrame {
    pub color_space: ColorSpace,
    pub width: usize,
    pub height: usize,
    pub buffer: Vec<u8>,
    pub sequence: u32,
    pub timestamp: u32,
    pub exposure: u32,
    pub gain: u32,
    pub gamma: u32,
}

/// A [`ColorFrame`] as plain values.
pub struct ColorFrameView {
    pub color_space: ColorSpace,
    pub width: usize,
    pub height: usize,
    pub buffer: Seq<u8>,
    pub sequence: u32,
    pub timestamp: u32,
    pub exposure: u32,
    pub gain: u32,
    pub gamma: u32,
}

impl View for ColorFrame {
    type V = ColorFrameView;

    open spec fn view(&self) -> ColorFrameView {
        ColorFrameView {
            color_space: self.color_space,
            width: self.width,
            height: self.height,
            buffer: self.buffer@,
            sequence: self.sequence,
            timestamp: self.timestamp,
            exposure: self.exposure,
            gain: self.gain,
            gamma: self.gamma,
        }
    }
}

/// What a decoder made of a JPEG image.
#[derive(Debug, Clone)]
pub struct DecodedImage {
    pub color_space: ColorSpace,
    pub width: usize,
    pub height: usize,
    pub buffer: Vec<u8>,
}

/// Puts the decoded image together with what its packet told of it.
pub fn make_frame(
    sequence: u32,
    timestamp: u32,
    exposure: u32,
    gain: u32,
    gamma: u32,
    decoded: DecodedImage,
) -> (frame: ColorFrame)
    ensures
        frame@ == (ColorFrameView {
            color_space: decoded.color_space,
            width: decoded.width,
            height: decoded.height,
            buffer: decoded.buffer@,
            sequence,
            timestamp,
            exposure,
            gain,
            gamma,
        }),
{
    ColorFrame {
        color_space: decoded.color_space,
        width: decoded.width,
        height: decoded.height,
        buffer: decoded.buffer,
        sequence,
        timestamp,
        exposure,
        gain,
        gamma,
    }
}

impl ProcessTrait for ColorPacket {
    fn process<O, P: ProcessorTrait<Self, O>>(self, processor: &P) -> (output: Result<
        O,
        crate::Error,
    >) {
        processor.process(self)
    }
}

} // verus!

//! Decoding of color packets with the `zune-jpeg` decoder.
use vstd::prelude::*;
use zune_jpeg::errors::DecodeErrors;
use zune_jpeg::zune_core::colorspace::ColorSpace as ZuneSpace;
use zune_jpeg::zune_core::options::DecoderOptions;
use zune_jpeg::JpegDecoder;

use crate::error::Error;
use crate::packet::{ColorPacket, ColorPacketView};
use crate::processor::color::{ColorFrame, ColorSpace, DecodedImage, make_frame};
use crate::processor::ProcessorTrait;
use crate::{COLOR_HEIGHT, COLOR_WIDTH};

verus! {

/// The color spaces of `zune-core`.
#[verifier::external_type_specification]
#[verifier::external_body]
pub struct ExZuneSpace(ZuneSpace);

/// The errors of `zune-jpeg`.
#[verifier::external_type_specification]
#[verifier::external_body]
pub struct ExDecodeErrors(DecodeErrors);

/// The color space of `zune-core` that stands for `color_space`. Trusted;
/// nothing is claimed of the result.
#[verifier::external_body]
fn into_zune(color_space: ColorSpace) -> ZuneSpace {
    match color_space {
        ColorSpace::RGB => ZuneSpace::RGB,
        ColorSpace::RGBA => ZuneSpace::RGBA,
        ColorSpace::YCbCr => ZuneSpace::YCbCr,
        ColorSpace::BGR => ZuneSpace::BGR,
        ColorSpace::BGRA => ZuneSpace::BGRA,
        ColorSpace::Unknown => ZuneSpace::Unknown,
    }
}

/// The color space that stands for `value` of `zune-core`; `Unknown` for
/// one that has no counterpart. Trusted; nothing is claimed of the result.
#[verifier::external_body]
fn from_zune(value: ZuneSpace) -> ColorSpace {
    match value {
        ZuneSpace::RGB => ColorSpace::RGB,
        ZuneSpace::RGBA => ColorSpace::RGBA,
        ZuneSpace::YCbCr => ColorSpace::YCbCr,
        ZuneSpace::BGR => ColorSpace::BGR,
        ZuneSpace::BGRA => ColorSpace::BGRA,
        _ => ColorSpace::Unknown,
    }
}

/// What `zune-jpeg` made of a JPEG image: the pixels, the width, the height
/// and the color space of the pixels.
pub struct ZuneImage {
    pub buffer: Vec<u8>,
    pub width: usize,
    pub height: usize,
    pub color_space: ZuneSpace,
}

/// What the decoder is asked: the image, the color space to decode into,
/// and the largest image that it may decode.
pub struct DecodeRequest {
    pub jpeg: Vec<u8>,
    pub color_space: ColorSpace,
    pub max_width: usize,
    pub max_height: usize,
}

/// Calls `JpegDecoder::decode` of `zune-jpeg` on the image of `request`,
/// with the fast options, the limits of `request` on width and height, and
/// the color space of `request` as the one asked for. Trusted: the decoder
/// returns; and an image that it hands out is within the limits. The
/// decoder may hand out another color space than the one asked for. It is
/// not asked for pixels of the unknown color space, which have no bytes,
/// nor for images larger than the color image of the sensor: it counts the
/// blocks of an image in 16 bits, which the largest images overflow.
#[verifier::external_body]
fn decode(request: DecodeRequest) -> (decoded: Result<ZuneImage, DecodeErrors>)
    requires
        request.color_space != ColorSpace::Unknown,
        request.max_width <= COLOR_WIDTH,
        request.max_height <= COLOR_HEIGHT,
    ensures
        decoded matches Ok(image) ==> image.width <= request.max_width && image.height
            <= request.max_height,
{
    let limits = DecoderOptions::new_fast()
        .set_max_height(request.max_height)
        .set_max_width(request.max_width);
    let mut decoder = JpegDecoder::new(request.jpeg);
    decoder.set_options(limits.jpeg_set_out_colorspace(into_zune(request.color_space)));
    let buffer = decoder.decode()?;
    let (width, height) = decoder.dimensions().expect("Expected dimensions");
    let color_space = decoder.get_output_colorspace().expect("Expected colorspace");
    Ok(ZuneImage { buffer, width, height, color_space })
}

/// The error of `zune-jpeg` in words, as its `Debug` gives them. Trusted;
/// nothing is claimed of the words.
#[verifier::external_body]
fn describe(error: &DecodeErrors) -> String {
    format!("{:?}", error)
}

/// ZuneJpeg color processor
pub struct ZuneColorProcessor(pub ColorSpace);

impl ZuneColorProcessor {
    /// A processor that asks the decoder for pixels in `colorspace`.
    pub fn new(colorspace: ColorSpace) -> (processor: Self)
        ensures
            processor.0 == colorspace,
    {
        Self(colorspace)
    }

    /// What the decoder is asked for the image `jpeg_buffer`: that image,
    /// in the color space of the processor, and no larger than the color
    /// image of the sensor.
    pub fn request(&self, jpeg_buffer: Vec<u8>) -> (request: DecodeRequest)
        ensures
            request.jpeg == jpeg_buffer,
            request.color_space == self.0,
            request.max_width == COLOR_WIDTH,
            request.max_height == COLOR_HEIGHT,
    {
        DecodeRequest {
            jpeg: jpeg_buffer,
            color_space: self.0,
            max_width: COLOR_WIDTH,
            max_height: COLOR_HEIGHT,
        }
    }
}

/// `frame` carries what `packet` told of its image, and an image no larger
/// than the color image of the sensor.
pub open spec fn is_frame_of(packet: ColorPacketView, frame: ColorFrame) -> bool {
    &&& frame.sequence == packet.sequence
    &&& frame.timestamp == packet.timestamp
    &&& frame.exposure == packet.exposure
    &&& frame.gain == packet.gain
    &&& frame.gamma == packet.gamma
    &&& frame.width <= COLOR_WIDTH
    &&& frame.height <= COLOR_HEIGHT
}

impl ProcessorTrait<ColorPacket, ColorFrame> for ZuneColorProcessor {
    /// A processor of the unknown color space makes no frame. A frame that
    /// comes out carries what the packet told of its image; a failure is a
    /// failure of processing.
    open spec fn yields(&self, input: ColorPacket, outcome: Result<ColorFrame, Error>) -> bool {
        match outcome {
            Ok(frame) => self.0 != ColorSpace::Unknown && is_frame_of(input@, frame),
            Err(error) => error is Processing,
        }
    }

    /// Decodes the image of `input`. Whether the decoder can decode it is
    /// the decoder's to say; where it cannot, its words come back as the
    /// error. Nothing can be decoded into the unknown color space.
    fn process(&self, input: ColorPacket) -> (output: Result<ColorFrame, Error>) {
        if let ColorSpace::Unknown = self.0 {
            return Err(Error::Processing("Unknown is not supported by ZuneJpeg".to_owned()));
        }
        let sequence = input.sequence;
        let timestamp = input.timestamp;
        let exposure = input.exposure;
        let gain = input.gain;
        let gamma = input.gamma;
        match decode(self.request(input.jpeg_buffer)) {
            Ok(image) => Ok(
                make_frame(
                    sequence,
                    timestamp,
                    exposure,
                    gain,
                    gamma,
                    DecodedImage {
                        color_space: from_zune(image.color_space),
                        width: image.width,
                        height: image.height,
                        buffer: image.buffer,
                    },
                ),
            ),
            Err(error) => Err(Error::Processing(describe(&error))),
        }
    }
}

} // verus!

//! The packets that the stream parsers hand out.
use vstd::prelude::*;

pub mod parser;

verus! {

/// One depth frame as it came off the wire: ten sub-images of packed samples.
#[derive(Debug, Clone)]
pub struct DepthPacket {
    pub sequence: u32,
    pub timestamp: u32,
    /// Depth data.
    pub buffer: Vec<u8>,
}

/// What a [`DepthPacket`] holds, as plain values.
pub struct DepthPacketView {
    pub sequence: u32,
    pub timestamp: u32,
    pub buffer: Seq<u8>,
}

impl View for DepthPacket {
    type V = DepthPacketView;

    open spec fn view(&self) -> DepthPacketView {
        DepthPacketView {
            sequence: self.sequence,
            timestamp: self.timestamp,
            buffer: self.buffer@,
        }
    }
}

/// One color frame as it came off the wire: a JPEG image and the camera's
/// settings when it was taken. `exposure`, `gain` and `gamma` are IEEE-754
/// single-precision bit patterns, carried as they were received.
#[derive(Debug, Clone)]
pub struct ColorPacket {
    pub sequence: u32,
    pub timestamp: u32,
    pub exposure: u32,
    pub gain: u32,
    pub gamma: u32,
    /// JPEG data.
    pub jpeg_buffer: Vec<u8>,
}

/// What a [`ColorPacket`] holds, as plain values.
pub struct ColorPacketView {
    pub sequence: u32,
    pub timestamp: u32,
    pub exposure: u32,
    pub gain: u32,
    pub gamma: u32,
    pub jpeg_buffer: Seq<u8>,
}

impl View for ColorPacket {
    type V = ColorPacketView;

    open spec fn view(&self) -> ColorPacketView {
        ColorPacketView {
            sequence: self.sequence,
            timestamp: self.timestamp,
            exposure: self.exposure,
            gain: self.gain,
            gamma: self.gamma,
            jpeg_buffer: self.jpeg_buffer@,
        }
    }
}

} // verus!

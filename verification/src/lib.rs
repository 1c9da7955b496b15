//! Host-side protocol and framing logic for the Kinect v2 sensor.
//!
//! The crate holds the parts of a driver that decide and compute: the wire
//! codecs, the command transaction rules, the stream reassembly, the device
//! lifecycle and the integer stages of depth decoding. Every function carries
//! a contract over a mathematical model of its data. Moving bytes over USB and
//! floating-point image formation are left to the caller.
use vstd::prelude::*;

pub mod command;
pub mod data;
pub mod device;
pub mod error;
pub mod packet;
pub mod processor;
pub mod settings;
pub mod sync;
pub mod wire;

pub use device::{Device, DeviceEnumerator, DeviceInfo};
pub use error::{Error, ErrorView, TransportFailure};
pub use sync::PacketSync;

verus! {

/// Width of the depth image in pixels.
pub const DEPTH_WIDTH: usize = 512;

/// Height of the depth image in pixels.
pub const DEPTH_HEIGHT: usize = 424;

/// Number of pixels of the depth image.
pub const DEPTH_SIZE: usize = 217088;

/// Width of the color image in pixels.
pub const COLOR_WIDTH: usize = 1920;

/// Height of the color image in pixels.
pub const COLOR_HEIGHT: usize = 1080;

/// Number of pixels of the color image.
pub const COLOR_SIZE: usize = 2073600;

/// Number of entries of the table that widens 11-bit samples.
pub const LUT_SIZE: usize = 2048;

} // verus!

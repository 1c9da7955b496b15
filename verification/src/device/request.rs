//! What the driver asks the caller to do on the bus.
use vstd::prelude::*;

use crate::command::{Command, CommandView};

verus! {

/// Whom a control request addresses.
#[derive(Debug, Clone, Copy, PartialEq, Eq)]
pub enum Recipient {
    Device,
    Interface,
}

/// One thing to do on the bus.
#[derive(Debug, Clone)]
pub enum Request {
    /// Select the configuration.
    SetConfiguration(u8),
    /// Claim the interface.
    ClaimInterface(u8),
    /// Send a standard control-out request on the control endpoint.
    Control { recipient: Recipient, request: u8, value: u16, index: u16, data: Vec<u8> },
    /// Select the alternate setting of the interface.
    AltSetting { interface: u8, setting: u8 },
    /// Run the transaction of the command.
    Execute(Command),
    /// Wait.
    Sleep { millis: u32 },
}

/// A [`Request`] as plain values.
pub enum RequestView {
    SetConfiguration(u8),
    ClaimInterface(u8),
    Control { recipient: Recipient, request: u8, value: u16, index: u16, data: Seq<u8> },
    AltSetting { interface: u8, setting: u8 },
    Execute(CommandView),
    Sleep { millis: u32 },
}

impl View for Request {
    type V = RequestView;

    open spec fn view(&self) -> RequestView {
        match *self {
            Request::SetConfiguration(value) => RequestView::SetConfiguration(value),
            Request::ClaimInterface(interface) => RequestView::ClaimInterface(interface),
            Request::Control { recipient, request, value, index, data } => RequestView::Control {
                recipient,
                request,
                value,
                index,
                data: data@,
            },
            Request::AltSetting { interface, setting } => RequestView::AltSetting {
                interface,
                setting,
            },
            Request::Execute(command) => RequestView::Execute(command@),
            Request::Sleep { millis } => RequestView::Sleep { millis },
        }
    }
}

/// The interface of commands and color stream.
pub const CONTROL_AND_COLOR_INTERFACE: u8 = 0;

/// The interface of the infrared stream.
pub const IR_INTERFACE: u8 = 1;

/// The standard request that sets the isochronous delay.
pub const SET_ISOCH_DELAY: u8 = 0x31;

/// The standard request that sets the exit latencies of the power states.
pub const REQUEST_SET_SEL: u8 = 0x30;

/// The standard request that sets a feature.
pub const REQUEST_SET_FEATURE: u8 = 0x03;

/// The feature that lets the link enter power state U1.
pub const U1_ENABLE: u16 = 48;

/// The feature that lets the link enter power state U2.
pub const U2_ENABLE: u16 = 49;

/// The feature that suspends a function.
pub const FUNCTION_SUSPEND: u16 = 0;

/// The isochronous delay that the device is told, in nanoseconds.
pub const ISOCH_DELAY: u16 = 40;

/// A control request without data.
pub open spec fn control(recipient: Recipient, request: u8, value: u16, index: u16) -> RequestView {
    RequestView::Control { recipient, request, value, index, data: Seq::empty() }
}

/// The request that tells the device the isochronous delay.
pub open spec fn isoch_delay() -> RequestView {
    control(Recipient::Device, SET_ISOCH_DELAY, ISOCH_DELAY, 0)
}

/// The request that tells the device the exit latencies of the power
/// states: `55 00 55 00 00 00`.
pub open spec fn system_exit_latencies() -> RequestView {
    RequestView::Control {
        recipient: Recipient::Device,
        request: REQUEST_SET_SEL,
        value: 0,
        index: 0,
        data: seq![0x55u8, 0u8, 0x55u8, 0u8, 0u8, 0u8],
    }
}

/// The request that sets a feature of the device.
pub open spec fn device_feature(feature: u16) -> RequestView {
    control(Recipient::Device, REQUEST_SET_FEATURE, feature, 0)
}

/// The request that switches the transfer of video on or off: the function
/// is suspended, with remote wake, while no video is wanted.
pub open spec fn video_transfer(enabled: bool) -> RequestView {
    control(
        Recipient::Interface,
        REQUEST_SET_FEATURE,
        FUNCTION_SUSPEND,
        if enabled {
            0
        } else {
            0x300
        },
    )
}

/// The request that switches the infrared stream on or off.
pub open spec fn ir_state(enabled: bool) -> RequestView {
    RequestView::AltSetting {
        interface: IR_INTERFACE,
        setting: if enabled {
            1
        } else {
            0
        },
    }
}

/// A control request without data.
pub fn control_request(recipient: Recipient, request: u8, value: u16, index: u16) -> (made:
    Request)
    ensures
        made@ == control(recipient, request, value, index),
{
    let data: Vec<u8> = Vec::new();
    Request::Control { recipient, request, value, index, data }
}

/// The request that tells the device the isochronous delay.
pub fn isoch_delay_request() -> (made: Request)
    ensures
        made@ == isoch_delay(),
{
    control_request(Recipient::Device, SET_ISOCH_DELAY, ISOCH_DELAY, 0)
}

/// The request that tells the device the exit latencies.
pub fn system_exit_latencies_request() -> (made: Request)
    ensures
        made@ == system_exit_latencies(),
{
    let data: Vec<u8> = vec![0x55u8, 0u8, 0x55u8, 0u8, 0u8, 0u8];
    Request::Control {
        recipient: Recipient::Device,
        request: REQUEST_SET_SEL,
        value: 0,
        index: 0,
        data,
    }
}

/// The request that sets a feature of the device.
pub fn device_feature_request(feature: u16) -> (made: Request)
    ensures
        made@ == device_feature(feature),
{
    control_request(Recipient::Device, REQUEST_SET_FEATURE, feature, 0)
}

/// The request that switches the transfer of video on or off.
pub fn video_transfer_request(enabled: bool) -> (made: Request)
    ensures
        made@ == video_transfer(enabled),
{
    let low_power_suspend: u16 = if enabled {
        0
    } else {
        1
    };
    let function_remote_wake: u16 = if enabled {
        0
    } else {
        2
    };
    control_request(
        Recipient::Interface,
        REQUEST_SET_FEATURE,
        FUNCTION_SUSPEND,
        (low_power_suspend + function_remote_wake) * 256,
    )
}

/// The request that switches the infrared stream on or off.
pub fn ir_state_request(enabled: bool) -> (made: Request)
    ensures
        made@ == ir_state(enabled),
{
    Request::AltSetting {
        interface: IR_INTERFACE,
        setting: if enabled {
            1
        } else {
            0
        },
    }
}

} // verus!

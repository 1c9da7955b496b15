//! The commands that the driver sends.
use vstd::prelude::*;

use crate::command::{Command, CommandView};
use crate::settings::{ColorSettingCommandType, LedSettings, LedSettingsView, clamped_level};

verus! {

pub const KINECT_CMD_READ_FIRMWARE_VERSIONS: u32 = 0x02;

pub const KINECT_CMD_INIT_STREAMS: u32 = 0x09;

pub const KINECT_CMD_READ_HARDWARE_INFO: u32 = 0x14;

pub const KINECT_CMD_READ_STATUS: u32 = 0x16;

pub const KINECT_CMD_READ_DATA_PAGE: u32 = 0x22;

pub const KINECT_CMD_SET_STREAMING: u32 = 0x2b;

pub const KINECT_CMD_SET_MODE: u32 = 0x4b;

pub const KINECT_CMD_RGB_SETTING: u32 = 0x3e;

pub const KINECT_CMD_STOP: u32 = 0x0a;

pub const KINECT_CMD_SHUTDOWN: u32 = 0x00;

/// Most bytes of a data page.
pub const DATA_PAGE_SIZE: u32 = 0x1C0000;

/// Fewest bytes of the page that holds the serial number.
pub const SERIAL_NUMBER_RESPONSE_SIZE: u32 = 0x80;

/// Bytes of the page that holds the P0 tables.
pub const P0_TABLES_RESPONSE_SIZE: u32 = 1302572;

/// Bytes of the page that holds the parameters of the depth camera.
pub const DEPTH_PARAMS_RESPONSE_SIZE: u32 = 92;

/// Bytes of the page that holds the parameters of the color camera.
pub const RGB_PARAMS_RESPONSE_SIZE: u32 = 12981;

/// Bytes of the answer to a change of one setting of the color camera.
pub const COLOR_SETTING_RESPONSE_SIZE: u32 = 16;

/// A command that takes a sequence number.
pub open spec fn sequenced(
    command_id: u32,
    max_response_length: u32,
    min_response_length: u32,
    parameters: Seq<u32>,
) -> CommandView {
    CommandView {
        command_id,
        max_response_length,
        min_response_length,
        has_sequence: true,
        parameters,
    }
}

/// The word that stands for a switch: 1 for on, 0 for off.
pub open spec fn switch_word(enabled: bool) -> u32 {
    if enabled {
        1
    } else {
        0
    }
}

fn switch(enabled: bool) -> (word: u32)
    ensures
        word == switch_word(enabled),
{
    if enabled {
        1
    } else {
        0
    }
}

fn one(a: u32) -> (parameters: Vec<u32>)
    ensures
        parameters@ == seq![a],
{
    let parameters = vec![a];
    parameters
}

fn four(a: u32, b: u32, c: u32, d: u32) -> (parameters: Vec<u32>)
    ensures
        parameters@ == seq![a, b, c, d],
{
    let parameters = vec![a, b, c, d];
    parameters
}

fn none() -> (parameters: Vec<u32>)
    ensures
        parameters@ == Seq::<u32>::empty(),
{
    Vec::new()
}

/// Asks for the versions of the firmware: 0x200 bytes.
pub fn read_firware_versions_command() -> (command: Command)
    ensures
        command@ == sequenced(KINECT_CMD_READ_FIRMWARE_VERSIONS, 0x200, 0x200, Seq::empty()),
{
    Command::new(KINECT_CMD_READ_FIRMWARE_VERSIONS, 0x200, 0x200, true, none())
}

/// Asks for the description of the hardware: 0x5c bytes.
pub fn read_hardware_info_command() -> (command: Command)
    ensures
        command@ == sequenced(KINECT_CMD_READ_HARDWARE_INFO, 0x5c, 0x5c, Seq::empty()),
{
    Command::new(KINECT_CMD_READ_HARDWARE_INFO, 0x5c, 0x5c, true, none())
}

/// Prepares the streams.
pub fn init_streams_command() -> (command: Command)
    ensures
        command@ == sequenced(KINECT_CMD_INIT_STREAMS, 0, 0, Seq::empty()),
{
    Command::new(KINECT_CMD_INIT_STREAMS, 0, 0, true, none())
}

/// Asks for data page 1, the serial number: 0x80 bytes or more.
pub fn read_serial_number_command() -> (command: Command)
    ensures
        command@ == sequenced(
            KINECT_CMD_READ_DATA_PAGE,
            DATA_PAGE_SIZE,
            SERIAL_NUMBER_RESPONSE_SIZE,
            seq![0x01u32],
        ),
{
    Command::new(
        KINECT_CMD_READ_DATA_PAGE,
        DATA_PAGE_SIZE,
        SERIAL_NUMBER_RESPONSE_SIZE,
        true,
        one(0x01u32),
    )
}

/// Asks for data page 2, the P0 tables.
pub fn read_p0_tables_command() -> (command: Command)
    ensures
        command@ == sequenced(
            KINECT_CMD_READ_DATA_PAGE,
            DATA_PAGE_SIZE,
            P0_TABLES_RESPONSE_SIZE,
            seq![0x02u32],
        ),
{
    Command::new(
        KINECT_CMD_READ_DATA_PAGE,
        DATA_PAGE_SIZE,
        P0_TABLES_RESPONSE_SIZE,
        true,
        one(0x02u32),
    )
}

/// Asks for data page 3, the parameters of the depth camera.
pub fn read_depth_params_command() -> (command: Command)
    ensures
        command@ == sequenced(
            KINECT_CMD_READ_DATA_PAGE,
            DATA_PAGE_SIZE,
            DEPTH_PARAMS_RESPONSE_SIZE,
            seq![0x03u32],
        ),
{
    Command::new(
        KINECT_CMD_READ_DATA_PAGE,
        DATA_PAGE_SIZE,
        DEPTH_PARAMS_RESPONSE_SIZE,
        true,
        one(0x03u32),
    )
}

/// Asks for data page 4, the parameters of the color camera.
pub fn read_rgb_params_command() -> (command: Command)
    ensures
        command@ == sequenced(
            KINECT_CMD_READ_DATA_PAGE,
            DATA_PAGE_SIZE,
            RGB_PARAMS_RESPONSE_SIZE,
            seq![0x04u32],
        ),
{
    Command::new(
        KINECT_CMD_READ_DATA_PAGE,
        DATA_PAGE_SIZE,
        RGB_PARAMS_RESPONSE_SIZE,
        true,
        one(0x04u32),
    )
}

/// Asks for the status word `status`: 4 bytes.
pub fn read_status_command(status: u32) -> (command: Command)
    ensures
        command@ == sequenced(KINECT_CMD_READ_STATUS, 0x04, 0x04, seq![status]),
{
    Command::new(KINECT_CMD_READ_STATUS, 0x04, 0x04, true, one(status))
}

/// Switches the streams on or off.
pub fn set_stream_state_command(enabled: bool) -> (command: Command)
    ensures
        command@ == sequenced(KINECT_CMD_SET_STREAMING, 0, 0, seq![switch_word(enabled)]),
{
    Command::new(KINECT_CMD_SET_STREAMING, 0, 0, true, one(switch(enabled)))
}

/// Stops the sensor.
pub fn stop_command() -> (command: Command)
    ensures
        command@ == sequenced(KINECT_CMD_STOP, 0, 0, Seq::empty()),
{
    Command::new(KINECT_CMD_STOP, 0, 0, true, none())
}

/// Shuts the sensor down.
pub fn shutdown_command() -> (command: Command)
    ensures
        command@ == sequenced(KINECT_CMD_SHUTDOWN, 0, 0, Seq::empty()),
{
    Command::new(KINECT_CMD_SHUTDOWN, 0, 0, true, none())
}

/// Sets the mode of the sensor.
pub fn set_mode_command(enabled: bool, mode: u32) -> (command: Command)
    ensures
        command@ == sequenced(
            KINECT_CMD_SET_MODE,
            0,
            0,
            seq![switch_word(enabled), mode, 0u32, 0u32],
        ),
{
    Command::new(KINECT_CMD_SET_MODE, 0, 0, true, four(switch(enabled), mode, 0u32, 0u32))
}

/// Reads or changes one setting of the color camera. The command takes no
/// sequence number.
pub fn color_setting_command(command: ColorSettingCommandType, value: u32) -> (result: Command)
    ensures
        result@ == (CommandView {
            command_id: KINECT_CMD_RGB_SETTING,
            max_response_length: COLOR_SETTING_RESPONSE_SIZE,
            min_response_length: COLOR_SETTING_RESPONSE_SIZE,
            has_sequence: false,
            parameters: seq![1u32, 0u32, command.spec_code(), value],
        }),
{
    Command::new(
        KINECT_CMD_RGB_SETTING,
        COLOR_SETTING_RESPONSE_SIZE,
        COLOR_SETTING_RESPONSE_SIZE,
        false,
        four(1u32, 0u32, command.code(), value),
    )
}

/// The four parameters that tell the sensor the state of one LED: the LED in
/// the low half of the first word and the mode in its high half; the start
/// level in the low half of the second word and the stop level in its high
/// half, neither above 1000; the low 32 bits of the interval in
/// milliseconds; zero.
pub open spec fn led_parameters(settings: LedSettingsView) -> Seq<u32> {
    seq![
        (settings.id.spec_code() + 0x10000 * settings.mode.spec_code()) as u32,
        (clamped_level(settings.start_level) + 0x10000 * clamped_level(settings.stop_level)) as u32,
        (settings.interval % 0x1_0000_0000) as u32,
        0u32,
    ]
}

/// Sets the state of one LED. The command takes no sequence number.
pub fn led_setting_command(led_settings: LedSettings) -> (command: Command)
    ensures
        command@ == (CommandView {
            command_id: KINECT_CMD_SET_MODE,
            max_response_length: 0,
            min_response_length: 0,
            has_sequence: false,
            parameters: led_parameters(led_settings@),
        }),
{
    let led: u32 = led_settings.id().code() as u32 + 0x10000 * (led_settings.mode().code() as u32);
    let levels: u32 = led_settings.start_level() as u32 + 0x10000 * (
    led_settings.stop_level() as u32);
    let interval: u32 = (led_settings.interval() % 0x1_0000_0000) as u32;
    let parameters = four(led, levels, interval, 0u32);
    Command::new(KINECT_CMD_SET_MODE, 0, 0, false, parameters)
}

} // verus!

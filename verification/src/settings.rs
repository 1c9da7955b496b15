//! Settings of the LEDs, the color camera and the transfers.
use vstd::prelude::*;

verus! {

/// The settings of the color camera that a command can read or change.
#[derive(Debug, Clone, Copy, PartialEq, Eq)]
pub enum ColorSettingCommandType {
    SetExposureMode,
    SetIntegrationTime,
    GetIntegrationTime,
    SetWhiteBalanceMode,
    SetReChannelGain,
    SetGreenChannelGain,
    SetBlueChannelGain,
    GetRedChannelGain,
    GetGreenChannelGain,
    GetBlueChannelGain,
    SetExposureTimeMs,
    GetExposureTimeMs,
    SetDigitalGain,
    GetDigitalGain,
    SetAnalogGain,
    GetAnalogGain,
    SetExposureCompensation,
    GetExposureCompensation,
    SetAcs,
    GetAcs,
    SetExposureMeteringMode,
    SetExposureMeteringZones,
    SetExposureMeteringZone0Weight,
    SetExposureMeteringZone1Weight,
    SetExposureMeteringZone2Weight,
    SetExposureMeteringZone3Weight,
    SetExposureMeteringZone4Weight,
    SetExposureMeteringZone5Weight,
    SetExposureMeteringZone6Weight,
    SetExposureMeteringZone7Weight,
    SetExposureMeteringZone8Weight,
    SetExposureMeteringZone9Weight,
    SetExposureMeteringZone10Weight,
    SetExposureMeteringZone11Weight,
    SetExposureMeteringZone12Weight,
    SetExposureMeteringZone13Weight,
    SetExposureMeteringZone14Weight,
    SetExposureMeteringZone15Weight,
    SetExposureMeteringZone16Weight,
    SetExposureMeteringZone17Weight,
    SetExposureMeteringZone18Weight,
    SetExposureMeteringZone19Weight,
    SetExposureMeteringZone20Weight,
    SetExposureMeteringZone21Weight,
    SetExposureMeteringZone22Weight,
    SetExposureMeteringZone23Weight,
    SetExposureMeteringZone24Weight,
    SetExposureMeteringZone25Weight,
    SetExposureMeteringZone26Weight,
    SetExposureMeteringZone27Weight,
    SetExposureMeteringZone28Weight,
    SetExposureMeteringZone29Weight,
    SetExposureMeteringZone30Weight,
    SetExposureMeteringZone31Weight,
    SetExposureMeteringZone32Weight,
    SetExposureMeteringZone33Weight,
    SetExposureMeteringZone34Weight,
    SetExposureMeteringZone35Weight,
    SetExposureMeteringZone36Weight,
    SetExposureMeteringZone37Weight,
    SetExposureMeteringZone38Weight,
    SetExposureMeteringZone39Weight,
    SetExposureMeteringZone40Weight,
    SetExposureMeteringZone41Weight,
    SetExposureMeteringZone42Weight,
    SetExposureMeteringZone43Weight,
    SetExposureMeteringZone44Weight,
    SetExposureMeteringZone45Weight,
    SetExposureMeteringZone46Weight,
    SetExposureMeteringZone47Weight,
    SetMaxAnalogGainCap,
    SetMaxDigitalGainCap,
    SetFlickerFreeFrequency,
    GetExposureMode,
    GetWhiteBalanceMode,
    SetFrameRate,
    GetFrameRate,
}

impl ColorSettingCommandType {
    /// The number that stands for the setting on the wire.
    pub open spec fn spec_code(self) -> u32 {
        match self {
            ColorSettingCommandType::SetExposureMode => 0,
            ColorSettingCommandType::SetIntegrationTime => 1,
            ColorSettingCommandType::GetIntegrationTime => 2,
            ColorSettingCommandType::SetWhiteBalanceMode => 10,
            ColorSettingCommandType::SetReChannelGain => 11,
            ColorSettingCommandType::SetGreenChannelGain => 12,
            ColorSettingCommandType::SetBlueChannelGain => 13,
            ColorSettingCommandType::GetRedChannelGain => 14,
            ColorSettingCommandType::GetGreenChannelGain => 15,
            ColorSettingCommandType::GetBlueChannelGain => 16,
            ColorSettingCommandType::SetExposureTimeMs => 17,
            ColorSettingCommandType::GetExposureTimeMs => 18,
            ColorSettingCommandType::SetDigitalGain => 19,
            ColorSettingCommandType::GetDigitalGain => 20,
            ColorSettingCommandType::SetAnalogGain => 21,
            ColorSettingCommandType::GetAnalogGain => 22,
            ColorSettingCommandType::SetExposureCompensation => 23,
            ColorSettingCommandType::GetExposureCompensation => 24,
            ColorSettingCommandType::SetAcs => 25,
            ColorSettingCommandType::GetAcs => 26,
            ColorSettingCommandType::SetExposureMeteringMode => 27,
            ColorSettingCommandType::SetExposureMeteringZones => 28,
            ColorSettingCommandType::SetExposureMeteringZone0Weight => 29,
            ColorSettingCommandType::SetExposureMeteringZone1Weight => 30,
            ColorSettingCommandType::SetExposureMeteringZone2Weight => 31,
            ColorSettingCommandType::SetExposureMeteringZone3Weight => 32,
            ColorSettingCommandType::SetExposureMeteringZone4Weight => 33,
            ColorSettingCommandType::SetExposureMeteringZone5Weight => 34,
            ColorSettingCommandType::SetExposureMeteringZone6Weight => 35,
            ColorSettingCommandType::SetExposureMeteringZone7Weight => 36,
            ColorSettingCommandType::SetExposureMeteringZone8Weight => 37,
            ColorSettingCommandType::SetExposureMeteringZone9Weight => 38,
            ColorSettingCommandType::SetExposureMeteringZone10Weight => 39,
            ColorSettingCommandType::SetExposureMeteringZone11Weight => 40,
            ColorSettingCommandType::SetExposureMeteringZone12Weight => 41,
            ColorSettingCommandType::SetExposureMeteringZone13Weight => 42,
            ColorSettingCommandType::SetExposureMeteringZone14Weight => 43,
            ColorSettingCommandType::SetExposureMeteringZone15Weight => 44,
            ColorSettingCommandType::SetExposureMeteringZone16Weight => 45,
            ColorSettingCommandType::SetExposureMeteringZone17Weight => 46,
            ColorSettingCommandType::SetExposureMeteringZone18Weight => 47,
            ColorSettingCommandType::SetExposureMeteringZone19Weight => 48,
            ColorSettingCommandType::SetExposureMeteringZone20Weight => 49,
            ColorSettingCommandType::SetExposureMeteringZone21Weight => 50,
            ColorSettingCommandType::SetExposureMeteringZone22Weight => 51,
            ColorSettingCommandType::SetExposureMeteringZone23Weight => 52,
            ColorSettingCommandType::SetExposureMeteringZone24Weight => 53,
            ColorSettingCommandType::SetExposureMeteringZone25Weight => 54,
            ColorSettingCommandType::SetExposureMeteringZone26Weight => 55,
            ColorSettingCommandType::SetExposureMeteringZone27Weight => 56,
            ColorSettingCommandType::SetExposureMeteringZone28Weight => 57,
            ColorSettingCommandType::SetExposureMeteringZone29Weight => 58,
            ColorSettingCommandType::SetExposureMeteringZone30Weight => 59,
            ColorSettingCommandType::SetExposureMeteringZone31Weight => 60,
            ColorSettingCommandType::SetExposureMeteringZone32Weight => 61,
            ColorSettingCommandType::SetExposureMeteringZone33Weight => 62,
            ColorSettingCommandType::SetExposureMeteringZone34Weight => 63,
            ColorSettingCommandType::SetExposureMeteringZone35Weight => 64,
            ColorSettingCommandType::SetExposureMeteringZone36Weight => 65,
            ColorSettingCommandType::SetExposureMeteringZone37Weight => 66,
            ColorSettingCommandType::SetExposureMeteringZone38Weight => 67,
            ColorSettingCommandType::SetExposureMeteringZone39Weight => 68,
            ColorSettingCommandType::SetExposureMeteringZone40Weight => 69,
            ColorSettingCommandType::SetExposureMeteringZone41Weight => 70,
            ColorSettingCommandType::SetExposureMeteringZone42Weight => 71,
            ColorSettingCommandType::SetExposureMeteringZone43Weight => 72,
            ColorSettingCommandType::SetExposureMeteringZone44Weight => 73,
            ColorSettingCommandType::SetExposureMeteringZone45Weight => 74,
            ColorSettingCommandType::SetExposureMeteringZone46Weight => 75,
            ColorSettingCommandType::SetExposureMeteringZone47Weight => 76,
            ColorSettingCommandType::SetMaxAnalogGainCap => 77,
            ColorSettingCommandType::SetMaxDigitalGainCap => 78,
            ColorSettingCommandType::SetFlickerFreeFrequency => 79,
            ColorSettingCommandType::GetExposureMode => 80,
            ColorSettingCommandType::GetWhiteBalanceMode => 81,
            ColorSettingCommandType::SetFrameRate => 82,
            ColorSettingCommandType::GetFrameRate => 83,
        }
    }

    /// The number that stands for the setting on the wire.
    #[verifier::when_used_as_spec(spec_code)]
    pub fn code(self) -> (code: u32)
        ensures
            code == self.spec_code(),
    {
        match self {
            ColorSettingCommandType::SetExposureMode => 0,
            ColorSettingCommandType::SetIntegrationTime => 1,
            ColorSettingCommandType::GetIntegrationTime => 2,
            ColorSettingCommandType::SetWhiteBalanceMode => 10,
            ColorSettingCommandType::SetReChannelGain => 11,
            ColorSettingCommandType::SetGreenChannelGain => 12,
            ColorSettingCommandType::SetBlueChannelGain => 13,
            ColorSettingCommandType::GetRedChannelGain => 14,
            ColorSettingCommandType::GetGreenChannelGain => 15,
            ColorSettingCommandType::GetBlueChannelGain => 16,
            ColorSettingCommandType::SetExposureTimeMs => 17,
            ColorSettingCommandType::GetExposureTimeMs => 18,
            ColorSettingCommandType::SetDigitalGain => 19,
            ColorSettingCommandType::GetDigitalGain => 20,
            ColorSettingCommandType::SetAnalogGain => 21,
            ColorSettingCommandType::GetAnalogGain => 22,
            ColorSettingCommandType::SetExposureCompensation => 23,
            ColorSettingCommandType::GetExposureCompensation => 24,
            ColorSettingCommandType::SetAcs => 25,
            ColorSettingCommandType::GetAcs => 26,
            ColorSettingCommandType::SetExposureMeteringMode => 27,
            ColorSettingCommandType::SetExposureMeteringZones => 28,
            ColorSettingCommandType::SetExposureMeteringZone0Weight => 29,
            ColorSettingCommandType::SetExposureMeteringZone1Weight => 30,
            ColorSettingCommandType::SetExposureMeteringZone2Weight => 31,
            ColorSettingCommandType::SetExposureMeteringZone3Weight => 32,
            ColorSettingCommandType::SetExposureMeteringZone4Weight => 33,
            ColorSettingCommandType::SetExposureMeteringZone5Weight => 34,
            ColorSettingCommandType::SetExposureMeteringZone6Weight => 35,
            ColorSettingCommandType::SetExposureMeteringZone7Weight => 36,
            ColorSettingCommandType::SetExposureMeteringZone8Weight => 37,
            ColorSettingCommandType::SetExposureMeteringZone9Weight => 38,
            ColorSettingCommandType::SetExposureMeteringZone10Weight => 39,
            ColorSettingCommandType::SetExposureMeteringZone11Weight => 40,
            ColorSettingCommandType::SetExposureMeteringZone12Weight => 41,
            ColorSettingCommandType::SetExposureMeteringZone13Weight => 42,
            ColorSettingCommandType::SetExposureMeteringZone14Weight => 43,
            ColorSettingCommandType::SetExposureMeteringZone15Weight => 44,
            ColorSettingCommandType::SetExposureMeteringZone16Weight => 45,
            ColorSettingCommandType::SetExposureMeteringZone17Weight => 46,
            ColorSettingCommandType::SetExposureMeteringZone18Weight => 47,
            ColorSettingCommandType::SetExposureMeteringZone19Weight => 48,
            ColorSettingCommandType::SetExposureMeteringZone20Weight => 49,
            ColorSettingCommandType::SetExposureMeteringZone21Weight => 50,
            ColorSettingCommandType::SetExposureMeteringZone22Weight => 51,
            ColorSettingCommandType::SetExposureMeteringZone23Weight => 52,
            ColorSettingCommandType::SetExposureMeteringZone24Weight => 53,
            ColorSettingCommandType::SetExposureMeteringZone25Weight => 54,
            ColorSettingCommandType::SetExposureMeteringZone26Weight => 55,
            ColorSettingCommandType::SetExposureMeteringZone27Weight => 56,
            ColorSettingCommandType::SetExposureMeteringZone28Weight => 57,
            ColorSettingCommandType::SetExposureMeteringZone29Weight => 58,
            ColorSettingCommandType::SetExposureMeteringZone30Weight => 59,
            ColorSettingCommandType::SetExposureMeteringZone31Weight => 60,
            ColorSettingCommandType::SetExposureMeteringZone32Weight => 61,
            ColorSettingCommandType::SetExposureMeteringZone33Weight => 62,
            ColorSettingCommandType::SetExposureMeteringZone34Weight => 63,
            ColorSettingCommandType::SetExposureMeteringZone35Weight => 64,
            ColorSettingCommandType::SetExposureMeteringZone36Weight => 65,
            ColorSettingCommandType::SetExposureMeteringZone37Weight => 66,
            ColorSettingCommandType::SetExposureMeteringZone38Weight => 67,
            ColorSettingCommandType::SetExposureMeteringZone39Weight => 68,
            ColorSettingCommandType::SetExposureMeteringZone40Weight => 69,
            ColorSettingCommandType::SetExposureMeteringZone41Weight => 70,
            ColorSettingCommandType::SetExposureMeteringZone42Weight => 71,
            ColorSettingCommandType::SetExposureMeteringZone43Weight => 72,
            ColorSettingCommandType::SetExposureMeteringZone44Weight => 73,
            ColorSettingCommandType::SetExposureMeteringZone45Weight => 74,
            ColorSettingCommandType::SetExposureMeteringZone46Weight => 75,
            ColorSettingCommandType::SetExposureMeteringZone47Weight => 76,
            ColorSettingCommandType::SetMaxAnalogGainCap => 77,
            ColorSettingCommandType::SetMaxDigitalGainCap => 78,
            ColorSettingCommandType::SetFlickerFreeFrequency => 79,
            ColorSettingCommandType::GetExposureMode => 80,
            ColorSettingCommandType::GetWhiteBalanceMode => 81,
            ColorSettingCommandType::SetFrameRate => 82,
            ColorSettingCommandType::GetFrameRate => 83,
        }
    }
}

/// The two LEDs of the sensor.
#[derive(Debug, Clone, Copy, PartialEq, Eq)]
pub enum LedId {
    Primary,
    Secondary,
}

impl LedId {
    /// The number that stands for the LED on the wire.
    pub open spec fn spec_code(self) -> u16 {
        match self {
            LedId::Primary => 0,
            LedId::Secondary => 1,
        }
    }

    /// The number that stands for the LED on the wire.
    #[verifier::when_used_as_spec(spec_code)]
    pub fn code(self) -> (code: u16)
        ensures
            code == self.spec_code(),
    {
        match self {
            LedId::Primary => 0,
            LedId::Secondary => 1,
        }
    }
}

/// How an LED is lit.
#[derive(Debug, Clone, Copy, PartialEq, Eq)]
pub enum LedMode {
    Constant,
    /// Blink between start level, stop level every interval
    Blink,
}

impl LedMode {
    /// The number that stands for the mode on the wire.
    pub open spec fn spec_code(self) -> u16 {
        match self {
            LedMode::Constant => 0,
            LedMode::Blink => 1,
        }
    }

    /// The number that stands for the mode on the wire.
    #[verifier::when_used_as_spec(spec_code)]
    pub fn code(self) -> (code: u16)
        ensures
            code == self.spec_code(),
    {
        match self {
            LedMode::Constant => 0,
            LedMode::Blink => 1,
        }
    }
}

/// Brightest level of an LED.
pub const MAX_LEVEL: u16 = 1000;

/// `level`, or the brightest level where `level` lies above it.
pub open spec fn clamped_level(level: u16) -> u16 {
    if level > MAX_LEVEL {
        MAX_LEVEL
    } else {
        level
    }
}

/// The state that one LED is to take.
#[derive(Debug, Clone, Copy)]
pub struct LedSettings {
    id: LedId,
    mode: LedMode,
    /// LED intensity [0, 1000]
    start_level: u16,
    /// LED intensity [0, 1000]
    stop_level: u16,
    /// Blink interval in milliseconds
    interval: u128,
}

/// What an [`LedSettings`] was made with.
pub struct LedSettingsView {
    pub id: LedId,
    pub mode: LedMode,
    pub start_level: u16,
    pub stop_level: u16,
    pub interval: u128,
}

impl View for LedSettings {
    type V = LedSettingsView;

    closed spec fn view(&self) -> LedSettingsView {
        LedSettingsView {
            id: self.id,
            mode: self.mode,
            start_level: self.start_level,
            stop_level: self.stop_level,
            interval: self.interval,
        }
    }
}

impl LedSettings {
    /// Constant mode
    ///
    /// # Arguments
    ///
    /// * `id` - LED id
    /// * `level` - LED intensity [0, 1000]
    pub fn constant(id: LedId, level: u16) -> (settings: Self)
        ensures
            settings@ == (LedSettingsView {
                id,
                mode: LedMode::Constant,
                start_level: level,
                stop_level: 0,
                interval: 0,
            }),
    {
        Self { id, mode: LedMode::Constant, start_level: level, stop_level: 0, interval: 0 }
    }

    /// Blink mode
    ///
    /// # Arguments
    ///
    /// * `id` - LED id
    /// * `start_level` - LED intensity [0, 1000]
    /// * `stop_level` - LED intensity [0, 1000]
    /// * `interval` - Blink interval in milliseconds
    pub fn blink(id: LedId, start_level: u16, stop_level: u16, interval: u128) -> (settings: Self)
        ensures
            settings@ == (LedSettingsView {
                id,
                mode: LedMode::Blink,
                start_level,
                stop_level,
                interval,
            }),
    {
        Self { id, mode: LedMode::Blink, start_level, stop_level, interval }
    }

    /// The LED that the settings are for.
    pub fn id(&self) -> (id: LedId)
        ensures
            id == self@.id,
    {
        self.id
    }

    /// How the LED is lit.
    pub fn mode(&self) -> (mode: LedMode)
        ensures
            mode == self@.mode,
    {
        self.mode
    }

    /// The level at the start of an interval, at most 1000.
    pub fn start_level(&self) -> (level: u16)
        ensures
            level == clamped_level(self@.start_level),
    {
        if self.start_level > MAX_LEVEL {
            MAX_LEVEL
        } else {
            self.start_level
        }
    }

    /// The level at the end of an interval, at most 1000.
    pub fn stop_level(&self) -> (level: u16)
        ensures
            level == clamped_level(self@.stop_level),
    {
        if self.stop_level > MAX_LEVEL {
            MAX_LEVEL
        } else {
            self.stop_level
        }
    }

    /// The blink interval in milliseconds.
    pub fn interval(&self) -> (interval: u128)
        ensures
            interval == self@.interval,
    {
        self.interval
    }
}

/// The hosts whose transfer sizes differ.
#[derive(Debug, Clone, Copy, PartialEq, Eq)]
pub enum Host {
    MacOs,
    Windows,
    Other,
}

/// Sizes and numbers of the transfers that carry the two streams.
#[derive(Debug, Clone, Copy, PartialEq, Eq)]
pub struct PacketParams {
    pub max_iso_packet_size: u16,
    pub color_transfer_size: usize,
    pub color_num_transfers: usize,
    pub ir_packets_per_transfer: i32,
    pub ir_num_transfers: usize,
}

impl PacketParams {
    /// The parameters that suit `host`. The size of an isochronous packet is
    /// 0 until the device has told it.
    pub open spec fn for_host_spec(host: Host) -> Self {
        match host {
            Host::MacOs => PacketParams {
                max_iso_packet_size: 0,
                color_transfer_size: 0x4000,
                color_num_transfers: 20,
                ir_packets_per_transfer: 128,
                ir_num_transfers: 4,
            },
            Host::Windows => PacketParams {
                max_iso_packet_size: 0,
                color_transfer_size: 1048576,
                color_num_transfers: 3,
                ir_packets_per_transfer: 64,
                ir_num_transfers: 8,
            },
            Host::Other => PacketParams {
                max_iso_packet_size: 0,
                color_transfer_size: 0x4000,
                color_num_transfers: 20,
                ir_packets_per_transfer: 8,
                ir_num_transfers: 60,
            },
        }
    }

    /// The parameters that suit `host`. The size of an isochronous packet is
    /// 0 until the device has told it.
    #[verifier::when_used_as_spec(for_host_spec)]
    pub fn for_host(host: Host) -> (params: Self)
        ensures
            params == Self::for_host_spec(host),
    {
        match host {
            Host::MacOs => PacketParams {
                max_iso_packet_size: 0,
                color_transfer_size: 0x4000,
                color_num_transfers: 20,
                ir_packets_per_transfer: 128,
                ir_num_transfers: 4,
            },
            Host::Windows => PacketParams {
                max_iso_packet_size: 0,
                color_transfer_size: 1048576,
                color_num_transfers: 3,
                ir_packets_per_transfer: 64,
                ir_num_transfers: 8,
            },
            Host::Other => PacketParams {
                max_iso_packet_size: 0,
                color_transfer_size: 0x4000,
                color_num_transfers: 20,
                ir_packets_per_transfer: 8,
                ir_num_transfers: 60,
            },
        }
    }
}

impl Default for PacketParams {
    /// The parameters of a host that is neither macOS nor Windows.
    fn default() -> (params: Self)
        ensures
            params == (PacketParams {
                max_iso_packet_size: 0,
                color_transfer_size: 0x4000,
                color_num_transfers: 20,
                ir_packets_per_transfer: 8,
                ir_num_transfers: 60,
            }),
    {
        PacketParams::for_host(Host::Other)
    }
}

} // verus!

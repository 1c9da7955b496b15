//! A device that is open: what it holds, and the procedures that start,
//! stop and close it.
use vstd::prelude::*;
use vstd::slice::{slice_subrange, slice_to_vec};

use crate::command::commands::{
    COLOR_SETTING_RESPONSE_SIZE, DATA_PAGE_SIZE, DEPTH_PARAMS_RESPONSE_SIZE,
    KINECT_CMD_INIT_STREAMS, KINECT_CMD_READ_DATA_PAGE, KINECT_CMD_READ_STATUS,
    KINECT_CMD_RGB_SETTING, KINECT_CMD_SET_MODE, KINECT_CMD_SET_STREAMING,
    KINECT_CMD_SHUTDOWN, KINECT_CMD_STOP, P0_TABLES_RESPONSE_SIZE, RGB_PARAMS_RESPONSE_SIZE,
    SERIAL_NUMBER_RESPONSE_SIZE,
    led_parameters, sequenced, switch_word,
};
use crate::command::response::{
    ColorSettingResponse, DepthParamsResponse, P0TablesResponse, RgbParamsResponse, p0_table,
};
use crate::command::transaction::{
    Action, ActionView, CommandTransactionView, Exchange, ExchangeView, Phase, assigned,
    following,
};
use crate::command::{
    Command, CommandTransaction, CommandView, HEADER_SIZE, color_setting_command, command_bytes,
    init_streams_command, led_setting_command, read_depth_params_command,
    read_p0_tables_command, read_rgb_params_command, read_serial_number_command,
    read_status_command, set_mode_command, set_stream_state_command, shutdown_command,
    stop_command,
};
use crate::data::{ColorParams, IrParams, P0Tables, P0TablesView, zeros};
use crate::device::request::{
    CONTROL_AND_COLOR_INTERFACE, IR_INTERFACE, U1_ENABLE, U2_ENABLE, device_feature,
    device_feature_request, ir_state, ir_state_request, isoch_delay, isoch_delay_request,
    system_exit_latencies, system_exit_latencies_request, video_transfer,
    video_transfer_request,
};
use crate::device::{Closed, Device, DeviceId, DeviceInfo, Request, RequestView};
use crate::error::{Error, ErrorView, TransportFailure};
use crate::packet::parser::color;
use crate::packet::parser::depth;
use crate::packet::parser::{ColorStreamParser, DepthStreamParser};
use crate::packet::{ColorPacket, ColorPacketView, DepthPacket, DepthPacketView};
use crate::settings::{ColorSettingCommandType, Host, LedSettings, PacketParams};
use crate::wire::{le_u16, le_u32, read_u16, read_u32};

verus! {

/// The endpoint that answers commands.
pub const CONTROL_IN_ENDPOINT: u8 = 0x81;

/// The endpoint that takes commands.
pub const CONTROL_OUT_ENDPOINT: u8 = 0x02;

/// The endpoint of the color stream.
pub const COLOR_IN_ENDPOINT: u8 = 0x83;

/// The endpoint of the infrared stream.
pub const IR_IN_ENDPOINT: u8 = 0x84;

/// The type of a SuperSpeed endpoint companion descriptor.
pub const DT_SS_ENDPOINT_COMPANION: u8 = 0x30;

/// Fewest bytes per service interval that the infrared endpoint must carry.
pub const MIN_ISO_PACKET_SIZE: u16 = 0x8400;

/// The configuration that the driver works with.
pub const CONFIGURATION: u8 = 1;

/// The mode word that the sensor is set to before it streams and before
/// it stops.
pub const STREAMING_MODE: u32 = 0x00640064;

/// The status word that tells whether the sensor is ready to stream.
pub const READY_STATUS: u32 = 0x090000;

/// Most times that the status is asked for before the start is given up.
pub const MAX_POLLS: u32 = 50;

/// Milliseconds between two questions for the status.
pub const POLL_INTERVAL: u32 = 100;

/// One endpoint of the device as its configuration descriptor shows it.
#[derive(Debug, Clone)]
pub struct EndpointEntry {
    /// The configuration that the endpoint belongs to.
    pub configuration_value: u8,
    /// The alternate setting that the endpoint belongs to.
    pub alternate_setting: u8,
    pub address: u8,
    /// Whether the endpoint carries isochronous transfers.
    pub isochronous: bool,
    /// The descriptors that follow the endpoint's own, each as its bytes.
    pub descriptors: Vec<Vec<u8>>,
}

/// `extra` begins with a whole descriptor: its first byte, the length of
/// the descriptor, is at least 2 and no more than what is there.
pub open spec fn begins_with_descriptor(extra: Seq<u8>) -> bool {
    extra.len() >= 2 && 2 <= extra[0] <= extra.len()
}

/// The descriptors that `extra` holds, one behind the other, each as long
/// as its first byte says. What follows the last whole descriptor is left
/// out.
pub open spec fn descriptors_of(extra: Seq<u8>) -> Seq<Seq<u8>>
    decreases extra.len(),
{
    if begins_with_descriptor(extra) {
        seq![extra.subrange(0, extra[0] as int)] + descriptors_of(
            extra.subrange(extra[0] as int, extra.len() as int),
        )
    } else {
        Seq::empty()
    }
}

/// The byte strings of `found` as plain values.
pub open spec fn byte_strings(found: Seq<Vec<u8>>) -> Seq<Seq<u8>> {
    found.map_values(|bytes: Vec<u8>| bytes@)
}

/// Cuts the bytes that follow an endpoint descriptor into the descriptors
/// that they hold.
pub fn split_descriptors(extra: &[u8]) -> (found: Vec<Vec<u8>>)
    ensures
        byte_strings(found@) == descriptors_of(extra@),
{
    let mut found: Vec<Vec<u8>> = Vec::new();
    let mut at: usize = 0;
    assert(extra@.subrange(0, extra@.len() as int) =~= extra@);
    while extra.len() - at >= 2 && extra[at] >= 2 && extra[at] as usize <= extra.len() - at
        invariant
            at <= extra@.len(),
            descriptors_of(extra@) == byte_strings(found@) + descriptors_of(
                extra@.subrange(at as int, extra@.len() as int),
            ),
        decreases extra@.len() - at,
    {
        let length: usize = extra[at] as usize;
        let ghost rest = extra@.subrange(at as int, extra@.len() as int);
        let ghost before = byte_strings(found@);
        let descriptor = slice_to_vec(slice_subrange(extra, at, at + length));
        proof {
            assert(rest[0] == extra@[at as int]);
            assert(rest.subrange(0, length as int) =~= descriptor@);
            assert(rest.subrange(length as int, rest.len() as int) =~= extra@.subrange(
                at + length,
                extra@.len() as int,
            ));
        }
        found.push(descriptor);
        assert(byte_strings(found@) =~= before + seq![descriptor@]);
        at += length;
    }
    proof {
        let rest = extra@.subrange(at as int, extra@.len() as int);
        if rest.len() >= 2 {
            assert(rest[0] == extra@[at as int]);
        }
        assert(descriptors_of(rest) =~= Seq::<Seq<u8>>::empty());
        assert(byte_strings(found@) + Seq::<Seq<u8>>::empty() =~= byte_strings(found@));
    }
    found
}

/// `descriptor` is a SuperSpeed endpoint companion that is long enough to
/// hold the bytes per interval.
pub open spec fn is_companion(descriptor: Seq<u8>) -> bool {
    descriptor.len() >= 6 && descriptor[1] == DT_SS_ENDPOINT_COMPANION
}

/// The bytes per interval that the first companion among `descriptors`
/// gives: its bytes 4 and 5.
pub open spec fn companion_size(descriptors: Seq<Vec<u8>>) -> Option<u16>
    decreases descriptors.len(),
{
    if descriptors.len() == 0 {
        None
    } else if is_companion(descriptors[0]@) {
        Some(le_u16(descriptors[0]@, 4))
    } else {
        companion_size(descriptors.drop_first())
    }
}

/// `entry` is the isochronous endpoint that is looked for.
pub open spec fn is_wanted(
    entry: EndpointEntry,
    configuration_value: u8,
    alternate_setting: u8,
    address: u8,
) -> bool {
    &&& entry.configuration_value == configuration_value
    &&& entry.alternate_setting == alternate_setting
    &&& entry.address == address
    &&& entry.isochronous
}

/// The bytes per interval of the first of `endpoints` that is the
/// isochronous endpoint looked for and has a companion.
pub open spec fn max_iso_packet_size(
    endpoints: Seq<EndpointEntry>,
    configuration_value: u8,
    alternate_setting: u8,
    address: u8,
) -> Option<u16>
    decreases endpoints.len(),
{
    if endpoints.len() == 0 {
        None
    } else if is_wanted(endpoints[0], configuration_value, alternate_setting, address)
        && companion_size(endpoints[0].descriptors@) is Some {
        companion_size(endpoints[0].descriptors@)
    } else {
        max_iso_packet_size(
            endpoints.drop_first(),
            configuration_value,
            alternate_setting,
            address,
        )
    }
}

fn find_companion_size(descriptors: &Vec<Vec<u8>>) -> (size: Option<u16>)
    ensures
        size == companion_size(descriptors@),
{
    let mut i: usize = 0;
    assert(descriptors@.subrange(0, descriptors@.len() as int) =~= descriptors@);
    while i < descriptors.len()
        invariant
            i <= descriptors@.len(),
            companion_size(descriptors@) == companion_size(
                descriptors@.subrange(i as int, descriptors@.len() as int),
            ),
        decreases descriptors@.len() - i,
    {
        let buffer = &descriptors[i];
        let ghost rest = descriptors@.subrange(i as int, descriptors@.len() as int);
        assert(rest.drop_first() =~= descriptors@.subrange(i + 1, descriptors@.len() as int));
        if buffer.len() >= 6 && buffer[1] == DT_SS_ENDPOINT_COMPANION {
            return Some(read_u16(buffer.as_slice(), 4));
        }
        i += 1;
    }
    None
}

/// Looks up how many bytes per service interval an isochronous endpoint
/// carries, in its SuperSpeed endpoint companion descriptor.
pub fn get_max_iso_packet_size(
    endpoints: &Vec<EndpointEntry>,
    configuration_value: u8,
    alternate_setting_index: u8,
    endpoint_address: u8,
) -> (size: Option<u16>)
    ensures
        size == max_iso_packet_size(
            endpoints@,
            configuration_value,
            alternate_setting_index,
            endpoint_address,
        ),
{
    let mut i: usize = 0;
    assert(endpoints@.subrange(0, endpoints@.len() as int) =~= endpoints@);
    while i < endpoints.len()
        invariant
            i <= endpoints@.len(),
            max_iso_packet_size(
                endpoints@,
                configuration_value,
                alternate_setting_index,
                endpoint_address,
            ) == max_iso_packet_size(
                endpoints@.subrange(i as int, endpoints@.len() as int),
                configuration_value,
                alternate_setting_index,
                endpoint_address,
            ),
        decreases endpoints@.len() - i,
    {
        let entry = &endpoints[i];
        let ghost rest = endpoints@.subrange(i as int, endpoints@.len() as int);
        assert(rest.drop_first() =~= endpoints@.subrange(i + 1, endpoints@.len() as int));
        if entry.configuration_value == configuration_value && entry.alternate_setting
            == alternate_setting_index && entry.address == endpoint_address
            && entry.isochronous {
            let size = find_companion_size(&entry.descriptors);
            if size.is_some() {
                return size;
            }
        }
        i += 1;
    }
    None
}

/// Where the start of the device stands: the request whose outcome is
/// awaited.
#[derive(Debug, Clone, Copy, PartialEq, Eq)]
pub enum Stage {
    /// No start is under way.
    Idle,
    VideoOn,
    Serial,
    DepthParams,
    ColorParams,
    P0Tables,
    ModeOn,
    ModeOff,
    /// The status was asked for, for the `polls`-th time.
    Status { polls: u32 },
    /// The driver waits after the `polls`-th answer.
    Pause { polls: u32 },
    InitStreams,
    IrOn,
    Streaming,
}

/// What a procedure wants next.
#[derive(Debug)]
pub enum Step {
    /// Carry out the request and resume with what the device answered.
    Ask(Request),
    /// The procedure is over.
    Done,
    /// The procedure failed.
    Failed(Error),
}

/// A [`Step`] as plain values.
pub enum StepView {
    Ask(RequestView),
    Done,
    Failed(ErrorView),
}

impl View for Step {
    type V = StepView;

    open spec fn view(&self) -> StepView {
        match *self {
            Step::Ask(request) => StepView::Ask(request@),
            Step::Done => StepView::Done,
            Step::Failed(error) => StepView::Failed(error@),
        }
    }
}

/// What an opened device holds, as plain values.
pub struct OpenedView {
    pub device_info: Closed,
    pub transaction: CommandTransactionView,
    pub color_params: ColorParams,
    pub ir_params: IrParams,
    pub p0_tables: P0TablesView,
    pub packet_params: PacketParams,
    /// What the parser of the color stream holds.
    pub color_memory: Seq<u8>,
    /// What the parser of the depth stream holds.
    pub depth_state: depth::DepthParserState,
    pub stage: Stage,
    pub running: bool,
}

/// The state of a device that is open: the counter of its commands, its
/// calibration, the parsers of its streams, and whether it streams.
pub struct Opened {
    command_transaction: CommandTransaction,
    device_info: Closed,
    color_params: ColorParams,
    ir_params: IrParams,
    p0_tables: P0Tables,
    packet_params: PacketParams,
    color_stream_parser: ColorStreamParser,
    depth_stream_parser: DepthStreamParser,
    stage: Stage,
    running: bool,
}

impl View for Opened {
    type V = OpenedView;

    closed spec fn view(&self) -> OpenedView {
        OpenedView {
            device_info: self.device_info,
            transaction: self.command_transaction@,
            color_params: self.color_params,
            ir_params: self.ir_params,
            p0_tables: self.p0_tables@,
            packet_params: self.packet_params,
            color_memory: self.color_stream_parser@,
            depth_state: self.depth_stream_parser@,
            stage: self.stage,
            running: self.running,
        }
    }
}

impl View for Device<Opened> {
    type V = OpenedView;

    open spec fn view(&self) -> OpenedView {
        self.inner@
    }
}

/// The result of a call of `String::from_utf8_lossy`: the text that the
/// bytes spell in UTF-8, with a replacement character for each run of bytes
/// that spells nothing.
pub uninterp spec fn utf8_lossy(bytes: Seq<u8>) -> Seq<char>;

/// Calls `String::from_utf8_lossy` and takes the text as a `String`.
/// Trusted: the text is a function of the bytes alone.
#[verifier::external_body]
fn from_utf8_lossy(bytes: &Vec<u8>) -> (text: String)
    ensures
        text@ == utf8_lossy(bytes@),
{
    String::from_utf8_lossy(bytes).into_owned()
}

/// `bytes` without the zero bytes.
pub open spec fn without_zeros(bytes: Seq<u8>) -> Seq<u8> {
    bytes.filter(|byte: u8| byte != 0)
}

/// Takes the zero bytes out of `bytes`.
pub fn strip_zeros(bytes: &[u8]) -> (kept: Vec<u8>)
    ensures
        kept@ == without_zeros(bytes@),
{
    let mut kept: Vec<u8> = Vec::new();
    let mut i: usize = 0;
    assert(kept@ =~= without_zeros(bytes@.take(0))) by {
        reveal(Seq::filter);
    }
    while i < bytes.len()
        invariant
            i <= bytes@.len(),
            kept@ == without_zeros(bytes@.take(i as int)),
        decreases bytes@.len() - i,
    {
        proof {
            let more = bytes@.take(i + 1);
            assert(more.drop_last() =~= bytes@.take(i as int));
            reveal(Seq::filter);
        }
        if bytes[i] != 0 {
            kept.push(bytes[i]);
        }
        i += 1;
    }
    assert(bytes@.take(i as int) =~= bytes@);
    kept
}

/// The serial number that the device answered with: the text of the page
/// without its zero bytes.
pub fn serial_number_of(buffer: &[u8]) -> (serial_number: String)
    ensures
        serial_number@ == utf8_lossy(without_zeros(buffer@)),
{
    let kept = strip_zeros(buffer);
    from_utf8_lossy(&kept)
}

/// Holds the serial number of the device protocol against the one that the
/// bus reported.
pub fn check_serial_number(protocol: String, bus: &String) -> (verdict: Result<(), Error>)
    ensures
        protocol@ == bus@ <==> verdict is Ok,
        verdict matches Err(error) ==> error@ == ErrorView::SerialNumber(protocol@, bus@),
{
    if protocol != *bus {
        Err(Error::SerialNumber(protocol, bus.clone()))
    } else {
        Ok(())
    }
}

/// The command that reads a data page.
pub open spec fn read_page(page: u32, max: u32, min: u32) -> RequestView {
    RequestView::Execute(sequenced(KINECT_CMD_READ_DATA_PAGE, max, min, seq![page]))
}

/// The command that sets the mode.
pub open spec fn set_mode(enabled: bool, mode: u32) -> RequestView {
    RequestView::Execute(
        sequenced(KINECT_CMD_SET_MODE, 0, 0, seq![switch_word(enabled), mode, 0u32, 0u32]),
    )
}

/// The command that asks whether the sensor is ready to stream.
pub open spec fn read_ready() -> RequestView {
    RequestView::Execute(sequenced(KINECT_CMD_READ_STATUS, 4, 4, seq![READY_STATUS]))
}

/// The command that switches the streams on or off.
pub open spec fn set_streaming(enabled: bool) -> RequestView {
    RequestView::Execute(sequenced(KINECT_CMD_SET_STREAMING, 0, 0, seq![switch_word(enabled)]))
}

/// A command without parameters and without response.
pub open spec fn bare(command_id: u32) -> RequestView {
    RequestView::Execute(sequenced(command_id, 0, 0, Seq::empty()))
}

/// `state` at another stage of the start, with the request that the stage
/// begins with.
pub open spec fn ask(state: OpenedView, stage: Stage, request: RequestView) -> (
    OpenedView,
    StepView,
) {
    (OpenedView { stage, ..state }, StepView::Ask(request))
}

/// The start given up.
pub open spec fn fail(state: OpenedView, error: ErrorView) -> (OpenedView, StepView) {
    (OpenedView { stage: Stage::Idle, ..state }, StepView::Failed(error))
}

/// The number of the poll after poll `polls`.
pub open spec fn following_poll(polls: u32) -> u32 {
    if polls < MAX_POLLS {
        (polls + 1) as u32
    } else {
        MAX_POLLS
    }
}

/// How a start begins: nothing to do for a device that streams; else the
/// transfer of video is switched on.
pub open spec fn started(state: OpenedView) -> (OpenedView, StepView) {
    if state.running {
        (state, StepView::Done)
    } else {
        ask(state, Stage::VideoOn, video_transfer(true))
    }
}

/// How a start goes on once the device has answered `response` to the
/// request of the stage it stands at.
///
/// In order: the serial number of the device protocol is read and held
/// against the one of the bus; the parameters of the depth camera, those of
/// the color camera and the P0 tables are read; the mode is set and reset;
/// the status is asked for until its low bit is set, every 100 ms and at
/// most 50 times; the streams are prepared, the infrared stream is switched
/// on, the streams are started. Only then the device runs.
pub open spec fn resumed(state: OpenedView, response: Seq<u8>) -> (OpenedView, StepView) {
    match state.stage {
        Stage::Idle => (state, StepView::Done),
        Stage::VideoOn => ask(
            state,
            Stage::Serial,
            read_page(1, DATA_PAGE_SIZE, SERIAL_NUMBER_RESPONSE_SIZE),
        ),
        Stage::Serial => {
            let protocol = utf8_lossy(without_zeros(response));
            if protocol != state.device_info.serial_number@ {
                fail(state, ErrorView::SerialNumber(protocol, state.device_info.serial_number@))
            } else {
                ask(
                    state,
                    Stage::DepthParams,
                    read_page(3, DATA_PAGE_SIZE, DEPTH_PARAMS_RESPONSE_SIZE),
                )
            }
        },
        Stage::DepthParams => {
            if response.len() < DepthParamsResponse::SIZE {
                fail(state, ErrorView::UnalignedRead("DepthParamsResponse"))
            } else {
                ask(
                    OpenedView {
                        ir_params: IrParams::of(DepthParamsResponse::of(response)),
                        ..state
                    },
                    Stage::ColorParams,
                    read_page(4, DATA_PAGE_SIZE, RGB_PARAMS_RESPONSE_SIZE),
                )
            }
        },
        Stage::ColorParams => {
            if response.len() < RgbParamsResponse::SIZE {
                fail(state, ErrorView::UnalignedRead("RgbParamsResponse"))
            } else {
                ask(
                    OpenedView {
                        color_params: ColorParams::of(RgbParamsResponse::of(response)),
                        ..state
                    },
                    Stage::P0Tables,
                    read_page(2, DATA_PAGE_SIZE, P0_TABLES_RESPONSE_SIZE),
                )
            }
        },
        Stage::P0Tables => {
            if response.len() < P0TablesResponse::SIZE {
                fail(state, ErrorView::UnalignedRead("P0TablesResponse"))
            } else {
                ask(
                    OpenedView {
                        p0_tables: P0TablesView {
                            p0_table0: p0_table(response, 0),
                            p0_table1: p0_table(response, 1),
                            p0_table2: p0_table(response, 2),
                        },
                        ..state
                    },
                    Stage::ModeOn,
                    set_mode(true, STREAMING_MODE),
                )
            }
        },
        Stage::ModeOn => ask(state, Stage::ModeOff, set_mode(false, 0)),
        Stage::ModeOff => ask(state, Stage::Status { polls: 1 }, read_ready()),
        Stage::Status { polls } => {
            if response.len() < 4 {
                fail(state, ErrorView::Receive(response.len() as usize, 4))
            } else if le_u32(response, 0) % 2 == 1 {
                ask(state, Stage::InitStreams, bare(KINECT_CMD_INIT_STREAMS))
            } else if polls >= MAX_POLLS {
                fail(state, ErrorView::Transport(TransportFailure::Timeout))
            } else {
                ask(state, Stage::Pause { polls }, RequestView::Sleep { millis: POLL_INTERVAL })
            }
        },
        Stage::Pause { polls } => ask(
            state,
            Stage::Status { polls: following_poll(polls) },
            read_ready(),
        ),
        Stage::InitStreams => ask(state, Stage::IrOn, ir_state(true)),
        Stage::IrOn => ask(state, Stage::Streaming, set_streaming(true)),
        Stage::Streaming => (
            OpenedView { stage: Stage::Idle, running: true, ..state },
            StepView::Done,
        ),
    }
}

/// What is asked of a device that is opened, in order. The configuration
/// is selected unless it is the active one; both interfaces are claimed; the
/// isochronous delay and the exit latencies are set; the infrared stream is
/// switched off; the power states U1 and U2 are allowed; the transfer of
/// video is switched off.
pub open spec fn open_plan(active_configuration: u8) -> Seq<RequestView> {
    let setup = seq![
        RequestView::ClaimInterface(CONTROL_AND_COLOR_INTERFACE),
        RequestView::ClaimInterface(IR_INTERFACE),
        isoch_delay(),
        system_exit_latencies(),
        ir_state(false),
        device_feature(U1_ENABLE),
        device_feature(U2_ENABLE),
        video_transfer(false),
    ];
    if active_configuration != CONFIGURATION {
        seq![RequestView::SetConfiguration(CONFIGURATION)] + setup
    } else {
        setup
    }
}

/// What is asked of a device that stops streaming, in order.
pub open spec fn stop_plan() -> Seq<RequestView> {
    seq![
        ir_state(false),
        set_mode(true, STREAMING_MODE),
        set_mode(false, 0),
        bare(KINECT_CMD_STOP),
        set_streaming(false),
        set_mode(true, 0),
        set_mode(false, 0),
        set_mode(true, 0),
        set_mode(false, 0),
        video_transfer(false),
    ]
}

/// What is asked of a device that is shut down after it has stopped, in
/// order.
pub open spec fn shutdown_plan() -> Seq<RequestView> {
    seq![set_mode(true, STREAMING_MODE), set_mode(false, 0), bare(KINECT_CMD_SHUTDOWN)]
}

/// The requests of `plan` as plain values.
pub open spec fn plan_view(plan: Seq<Request>) -> Seq<RequestView> {
    plan.map_values(|request: Request| request@)
}

/// The commands of `plan` as plain values.
pub open spec fn commands_view(plan: Seq<Command>) -> Seq<CommandView> {
    plan.map_values(|command: Command| command@)
}

/// A command that changes one setting of the color camera.
pub open spec fn color_setting(setting: ColorSettingCommandType, value: u32) -> CommandView {
    CommandView {
        command_id: KINECT_CMD_RGB_SETTING,
        max_response_length: COLOR_SETTING_RESPONSE_SIZE,
        min_response_length: COLOR_SETTING_RESPONSE_SIZE,
        has_sequence: false,
        parameters: seq![1u32, 0u32, setting.spec_code(), value],
    }
}

/// What the parser of the color stream holds, and the last packet that
/// came out, after each of `transfers` went in, in turn.
pub open spec fn color_fed(memory: Seq<u8>, transfers: Seq<Vec<u8>>) -> (
    Seq<u8>,
    Option<ColorPacketView>,
)
    decreases transfers.len(),
{
    if transfers.len() == 0 {
        (memory, None)
    } else {
        let before = color_fed(memory, transfers.drop_last());
        let packet = color::packet_after(before.0, transfers.last()@);
        (
            color::memory_after(before.0, transfers.last()@),
            if packet is Some {
                packet
            } else {
                before.1
            },
        )
    }
}

/// The state of the parser of the depth stream, and the last frame that
/// came out, after each of `transfers` went in, in turn.
pub open spec fn depth_fed(state: depth::DepthParserState, transfers: Seq<Vec<u8>>) -> (
    depth::DepthParserState,
    Option<DepthPacketView>,
)
    decreases transfers.len(),
{
    if transfers.len() == 0 {
        (state, None)
    } else {
        let before = depth_fed(state, transfers.drop_last());
        let packet = depth::packet_after(before.0, transfers.last()@);
        (
            depth::state_after(before.0, transfers.last()@),
            if packet is Some {
                packet
            } else {
                before.1
            },
        )
    }
}

impl Device<Closed> {
    /// What is to be asked of the device to open it, in order, given the
    /// configuration that is active.
    pub fn open_plan(&self, active_configuration: u8) -> (plan: Vec<Request>)
        ensures
            plan_view(plan@) == open_plan(active_configuration),
    {
        let mut plan: Vec<Request> = Vec::new();
        if active_configuration != CONFIGURATION {
            plan.push(Request::SetConfiguration(CONFIGURATION));
        }
        plan.push(Request::ClaimInterface(CONTROL_AND_COLOR_INTERFACE));
        plan.push(Request::ClaimInterface(IR_INTERFACE));
        plan.push(isoch_delay_request());
        plan.push(system_exit_latencies_request());
        plan.push(ir_state_request(false));
        plan.push(device_feature_request(U1_ENABLE));
        plan.push(device_feature_request(U2_ENABLE));
        plan.push(video_transfer_request(false));
        plan
    }

    /// Open the device, once what [`Device::open_plan`] asks is done.
    ///
    /// `max_iso_packet_size` is what the descriptors tell of the infrared
    /// endpoint; see [`get_max_iso_packet_size`]. The device is refused
    /// where that is unknown or less than 0x8400. An opened device does not
    /// run; its calibration is all zeros until it is started.
    pub fn open(self, host: Host, max_iso_packet_size: Option<u16>) -> (opened: Result<
        Device<Opened>,
        Error,
    >)
        ensures
            match opened {
                Ok(device) => {
                    &&& max_iso_packet_size matches Some(size)
                    &&& size >= MIN_ISO_PACKET_SIZE
                    &&& device@ == (OpenedView {
                        device_info: self.inner,
                        transaction: CommandTransactionView {
                            in_endpoint: CONTROL_IN_ENDPOINT,
                            out_endpoint: CONTROL_OUT_ENDPOINT,
                            sequence: 0,
                        },
                        color_params: ColorParams::zero(),
                        ir_params: IrParams::zero(),
                        p0_tables: P0TablesView {
                            p0_table0: zeros(217088),
                            p0_table1: zeros(217088),
                            p0_table2: zeros(217088),
                        },
                        packet_params: PacketParams {
                            max_iso_packet_size: size,
                            ..PacketParams::for_host_spec(host)
                        },
                        color_memory: Seq::empty(),
                        depth_state: depth::initial_state(),
                        stage: Stage::Idle,
                        running: false,
                    })
                },
                Err(error) => {
                    let size = match max_iso_packet_size {
                        Some(size) => size,
                        None => 0,
                    };
                    &&& size < MIN_ISO_PACKET_SIZE
                    &&& error == Error::MaxIsoPacket(IR_IN_ENDPOINT, size, MIN_ISO_PACKET_SIZE)
                },
            },
    {
        let size = match max_iso_packet_size {
            Some(size) => size,
            None => 0,
        };
        if size < MIN_ISO_PACKET_SIZE {
            return Err(Error::MaxIsoPacket(IR_IN_ENDPOINT, size, MIN_ISO_PACKET_SIZE));
        }
        let mut packet_params = PacketParams::for_host(host);
        packet_params.max_iso_packet_size = size;
        Ok(
            Device {
                inner: Opened {
                    command_transaction: CommandTransaction::new(
                        CONTROL_IN_ENDPOINT,
                        CONTROL_OUT_ENDPOINT,
                    ),
                    device_info: self.inner,
                    color_params: ColorParams::default(),
                    ir_params: IrParams::default(),
                    p0_tables: P0Tables::default(),
                    packet_params,
                    color_stream_parser: ColorStreamParser::new(),
                    depth_stream_parser: DepthStreamParser::new(),
                    stage: Stage::Idle,
                    running: false,
                },
            },
        )
    }
}

impl DeviceInfo for Device<Opened> {
    open spec fn device_id(&self) -> DeviceId {
        DeviceId { bus: self@.device_info.bus, address: self@.device_info.address }
    }

    fn id(&self) -> (id: DeviceId) {
        DeviceId { bus: self.inner.device_info.bus, address: self.inner.device_info.address }
    }
}

fn ask_command(command: Command) -> (request: Request)
    ensures
        request@ == RequestView::Execute(command@),
{
    Request::Execute(command)
}

impl Device<Opened> {
    /// Whether the device streams.
    pub fn running(&self) -> (running: bool)
        ensures
            running == self@.running,
    {
        self.inner.running
    }

    /// Where the start of the device stands.
    pub fn stage(&self) -> (stage: Stage)
        ensures
            stage == self@.stage,
    {
        self.inner.stage
    }

    /// Get color parameters.
    pub fn get_color_params(&self) -> (params: &ColorParams)
        ensures
            *params == self@.color_params,
    {
        &self.inner.color_params
    }

    /// Get depth parameters.
    pub fn get_ir_params(&self) -> (params: &IrParams)
        ensures
            *params == self@.ir_params,
    {
        &self.inner.ir_params
    }

    /// Get p0 tables.
    pub fn get_p0_tables(&self) -> (tables: &P0Tables)
        ensures
            tables@ == self@.p0_tables,
    {
        &self.inner.p0_tables
    }

    /// The sizes and numbers of the transfers of the two streams.
    pub fn packet_params(&self) -> (params: PacketParams)
        ensures
            params == self@.packet_params,
    {
        self.inner.packet_params
    }

    /// Starts the transaction of `command` with the next sequence number of
    /// the session.
    pub fn transact(&mut self, command: &Command) -> (started: (Exchange, Action))
        ensures
            final(self)@ == (OpenedView {
                transaction: CommandTransactionView {
                    sequence: if command@.has_sequence {
                        following(old(self)@.transaction.sequence)
                    } else {
                        old(self)@.transaction.sequence
                    },
                    ..old(self)@.transaction
                },
                ..old(self)@
            }),
            started.0@ == (ExchangeView {
                phase: Phase::Sending,
                in_endpoint: old(self)@.transaction.in_endpoint,
                out_endpoint: old(self)@.transaction.out_endpoint,
                sequence: assigned(old(self)@.transaction.sequence, command@.has_sequence),
                size: (HEADER_SIZE + 4 * command@.parameters.len()) as usize,
                max_response_length: command@.max_response_length,
                min_response_length: command@.min_response_length,
                response: Seq::empty(),
            }),
            started.1@ == (ActionView::Write {
                endpoint: old(self)@.transaction.out_endpoint,
                bytes: command_bytes(
                    assigned(old(self)@.transaction.sequence, command@.has_sequence),
                    command@.max_response_length,
                    command@.command_id,
                    command@.parameters,
                ),
            }),
    {
        self.inner.command_transaction.begin(command)
    }

    /// Start data processing with both color and depth streams. Gives the
    /// first request of the start; each answer goes to [`Device::resume`].
    /// A device that runs has nothing to start.
    pub fn start(&mut self) -> (step: Step)
        ensures
            (final(self)@, step@) == started(old(self)@),
    {
        if self.inner.running {
            return Step::Done;
        }
        self.inner.stage = Stage::VideoOn;
        Step::Ask(video_transfer_request(true))
    }

    fn ask(&mut self, stage: Stage, request: Request) -> (step: Step)
        ensures
            (final(self)@, step@) == ask(old(self)@, stage, request@),
    {
        self.inner.stage = stage;
        Step::Ask(request)
    }

    fn fail(&mut self, error: Error) -> (step: Step)
        ensures
            (final(self)@, step@) == fail(old(self)@, error@),
    {
        self.inner.stage = Stage::Idle;
        Step::Failed(error)
    }

    /// Goes on with the start once the request that was asked is carried
    /// out. `response` is what the device answered to a command, and empty
    /// after any other request.
    pub fn resume(&mut self, response: Vec<u8>) -> (step: Step)
        ensures
            (final(self)@, step@) == resumed(old(self)@, response@),
    {
        match self.inner.stage {
            Stage::Idle => Step::Done,
            Stage::VideoOn => self.ask(Stage::Serial, ask_command(read_serial_number_command())),
            Stage::Serial => {
                let protocol = serial_number_of(response.as_slice());
                match check_serial_number(protocol, &self.inner.device_info.serial_number) {
                    Err(error) => self.fail(error),
                    Ok(_) => self.ask(Stage::DepthParams, ask_command(read_depth_params_command())),
                }
            },
            Stage::DepthParams => match IrParams::try_from(response.as_slice()) {
                Err(error) => self.fail(error),
                Ok(params) => {
                    self.inner.ir_params = params;
                    self.ask(Stage::ColorParams, ask_command(read_rgb_params_command()))
                },
            },
            Stage::ColorParams => match ColorParams::try_from(response.as_slice()) {
                Err(error) => self.fail(error),
                Ok(params) => {
                    self.inner.color_params = params;
                    self.ask(Stage::P0Tables, ask_command(read_p0_tables_command()))
                },
            },
            Stage::P0Tables => match P0Tables::try_from(response.as_slice()) {
                Err(error) => self.fail(error),
                Ok(tables) => {
                    self.inner.p0_tables = tables;
                    self.ask(Stage::ModeOn, ask_command(set_mode_command(true, STREAMING_MODE)))
                },
            },
            Stage::ModeOn => self.ask(Stage::ModeOff, ask_command(set_mode_command(false, 0))),
            Stage::ModeOff => self.ask(
                Stage::Status { polls: 1 },
                ask_command(read_status_command(READY_STATUS)),
            ),
            Stage::Status { polls } => {
                if response.len() < 4 {
                    self.fail(Error::Receive(response.len(), 4))
                } else if read_u32(response.as_slice(), 0) % 2 == 1 {
                    self.ask(Stage::InitStreams, ask_command(init_streams_command()))
                } else if polls >= MAX_POLLS {
                    self.fail(Error::Transport(TransportFailure::Timeout))
                } else {
                    self.ask(Stage::Pause { polls }, Request::Sleep { millis: POLL_INTERVAL })
                }
            },
            Stage::Pause { polls } => {
                let next = if polls < MAX_POLLS {
                    polls + 1
                } else {
                    MAX_POLLS
                };
                self.ask(Stage::Status { polls: next }, ask_command(read_status_command(READY_STATUS)))
            },
            Stage::InitStreams => self.ask(Stage::IrOn, ir_state_request(true)),
            Stage::IrOn => self.ask(Stage::Streaming, ask_command(set_stream_state_command(true))),
            Stage::Streaming => {
                self.inner.stage = Stage::Idle;
                self.inner.running = true;
                Step::Done
            },
        }
    }

    /// Stop data processing. Gives what is to be asked of the device, in
    /// order. A device that does not run is asked nothing.
    pub fn stop(&mut self) -> (plan: Vec<Request>)
        ensures
            final(self)@ == (OpenedView { running: false, ..old(self)@ }),
            plan_view(plan@) == if old(self)@.running {
                stop_plan()
            } else {
                Seq::empty()
            },
    {
        let mut plan: Vec<Request> = Vec::new();
        if !self.inner.running {
            return plan;
        }
        self.inner.running = false;
        plan.push(ir_state_request(false));
        plan.push(ask_command(set_mode_command(true, STREAMING_MODE)));
        plan.push(ask_command(set_mode_command(false, 0)));
        plan.push(ask_command(stop_command()));
        plan.push(ask_command(set_stream_state_command(false)));
        plan.push(ask_command(set_mode_command(true, 0)));
        plan.push(ask_command(set_mode_command(false, 0)));
        plan.push(ask_command(set_mode_command(true, 0)));
        plan.push(ask_command(set_mode_command(false, 0)));
        plan.push(video_transfer_request(false));
        plan
    }

    /// Shut down the device. Gives what is to be asked of the device, in
    /// order: what stops it, where it runs, then what shuts it down. Once
    /// that is done the device can be closed.
    pub fn shut_down(&mut self) -> (plan: Vec<Request>)
        ensures
            final(self)@ == (OpenedView { running: false, ..old(self)@ }),
            plan_view(plan@) == if old(self)@.running {
                stop_plan() + shutdown_plan()
            } else {
                shutdown_plan()
            },
    {
        let mut plan = self.stop();
        plan.push(ask_command(set_mode_command(true, STREAMING_MODE)));
        plan.push(ask_command(set_mode_command(false, 0)));
        plan.push(ask_command(shutdown_command()));
        assert(Seq::<RequestView>::empty() + shutdown_plan() =~= shutdown_plan());
        plan
    }

    /// Close the device: gives back what the bus told of it.
    pub fn close(self) -> (closed: Device<Closed>)
        ensures
            closed.inner == self@.device_info,
    {
        Device { inner: self.inner.device_info }
    }

    /// Takes in the transfers of the color stream that completed, in the
    /// order in which they did. Returns the last packet that they
    /// complete, if any. Fails, and takes nothing in, unless the device
    /// runs.
    pub fn poll_color_packet(&mut self, transfers: Vec<Vec<u8>>) -> (packet: Result<
        Option<ColorPacket>,
        Error,
    >)
        ensures
            old(self)@.running <==> packet is Ok,
            packet matches Err(error) ==> error == Error::OnlyWhileRunning("Reading color frame")
                && final(self)@ == old(self)@,
            packet matches Ok(found) ==> {
                &&& final(self)@ == (OpenedView {
                    color_memory: color_fed(old(self)@.color_memory, transfers@).0,
                    ..old(self)@
                })
                &&& match found {
                    Some(p) => color_fed(old(self)@.color_memory, transfers@).1 == Some(p@),
                    None => color_fed(old(self)@.color_memory, transfers@).1 is None,
                }
            },
    {
        if !self.inner.running {
            return Err(Error::OnlyWhileRunning("Reading color frame"));
        }
        let mut transfers = transfers;
        let ghost all = transfers@;
        let ghost memory = self@.color_memory;
        let mut result: Option<ColorPacket> = None;
        let mut fed: usize = 0;
        let count = transfers.len();
        while fed < count
            invariant
                fed <= count == all.len(),
                transfers@ == all.subrange(fed as int, all.len() as int),
                self@ == (OpenedView {
                    color_memory: color_fed(memory, all.take(fed as int)).0,
                    ..old(self)@
                }),
                match result {
                    Some(p) => color_fed(memory, all.take(fed as int)).1 == Some(p@),
                    None => color_fed(memory, all.take(fed as int)).1 is None,
                },
            decreases count - fed,
        {
            let buffer = transfers.remove(0);
            proof {
                let more = all.take(fed + 1);
                assert(more.drop_last() =~= all.take(fed as int));
            }
            if let Some(packet) = self.inner.color_stream_parser.parse(buffer) {
                result = Some(packet);
            }
            fed += 1;
        }
        Ok(result)
    }

    /// Takes in the isochronous packets of the depth stream that
    /// completed, in the order in which they did. Returns the last frame
    /// that they complete, if any. Fails, and takes nothing in, unless the
    /// device runs.
    pub fn poll_depth_packet(&mut self, transfers: Vec<Vec<u8>>) -> (packet: Result<
        Option<DepthPacket>,
        Error,
    >)
        ensures
            old(self)@.running <==> packet is Ok,
            packet matches Err(error) ==> error == Error::OnlyWhileRunning("Reading depth frame")
                && final(self)@ == old(self)@,
            packet matches Ok(found) ==> {
                &&& final(self)@ == (OpenedView {
                    depth_state: depth_fed(old(self)@.depth_state, transfers@).0,
                    ..old(self)@
                })
                &&& match found {
                    Some(p) => depth_fed(old(self)@.depth_state, transfers@).1 == Some(p@),
                    None => depth_fed(old(self)@.depth_state, transfers@).1 is None,
                }
            },
    {
        if !self.inner.running {
            return Err(Error::OnlyWhileRunning("Reading depth frame"));
        }
        let mut transfers = transfers;
        let ghost all = transfers@;
        let ghost state = self@.depth_state;
        let mut result: Option<DepthPacket> = None;
        let mut fed: usize = 0;
        let count = transfers.len();
        while fed < count
            invariant
                fed <= count == all.len(),
                transfers@ == all.subrange(fed as int, all.len() as int),
                self@ == (OpenedView {
                    depth_state: depth_fed(state, all.take(fed as int)).0,
                    ..old(self)@
                }),
                match result {
                    Some(p) => depth_fed(state, all.take(fed as int)).1 == Some(p@),
                    None => depth_fed(state, all.take(fed as int)).1 is None,
                },
            decreases count - fed,
        {
            let buffer = transfers.remove(0);
            proof {
                let more = all.take(fed + 1);
                assert(more.drop_last() =~= all.take(fed as int));
            }
            if let Some(packet) = self.inner.depth_stream_parser.parse(buffer) {
                result = Some(packet);
            }
            fed += 1;
        }
        Ok(result)
    }

    fn exposure_plan(&self, name: &'static str, mode: u32, settings: Vec<Command>) -> (plan:
        Result<Vec<Command>, Error>)
        ensures
            self@.running <==> plan is Ok,
            plan matches Err(error) ==> error == Error::OnlyWhileRunning(name),
            plan matches Ok(commands) ==> commands_view(commands@) == seq![
                color_setting(ColorSettingCommandType::SetAcs, 0),
                color_setting(ColorSettingCommandType::SetExposureMode, mode),
            ] + commands_view(settings@),
    {
        if !self.inner.running {
            return Err(Error::OnlyWhileRunning(name));
        }
        let mut settings = settings;
        let mut plan: Vec<Command> = Vec::new();
        plan.push(color_setting_command(ColorSettingCommandType::SetAcs, 0));
        plan.push(color_setting_command(ColorSettingCommandType::SetExposureMode, mode));
        plan.append(&mut settings);
        Ok(plan)
    }

    /// Sets the color camera to fully automatic exposure setting. Gives
    /// the commands to send, in order. Fails unless the device runs.
    ///
    /// # Arguments
    ///
    /// * `exposure_compensation` - Exposure compensation in the range
    ///   [-2.0, 2.0], as its single-precision bit pattern. A negative value
    ///   gives an underexposed image, a positive one an overexposed image.
    pub fn set_color_auto_exposure(&self, exposure_compensation: u32) -> (plan: Result<
        Vec<Command>,
        Error,
    >)
        ensures
            self@.running <==> plan is Ok,
            plan matches Err(error) ==> error == Error::OnlyWhileRunning("Setting auto exposure"),
            plan matches Ok(commands) ==> commands_view(commands@) == seq![
                color_setting(ColorSettingCommandType::SetAcs, 0),
                color_setting(ColorSettingCommandType::SetExposureMode, 0),
                color_setting(
                    ColorSettingCommandType::SetExposureCompensation,
                    exposure_compensation,
                ),
            ],
    {
        let mut settings: Vec<Command> = Vec::new();
        settings.push(
            color_setting_command(
                ColorSettingCommandType::SetExposureCompensation,
                exposure_compensation,
            ),
        );
        self.exposure_plan("Setting auto exposure", 0, settings)
    }

    /// Sets a flicker-free exposure time of the color camera. Gives the
    /// commands to send, in order. Fails unless the device runs.
    ///
    /// # Arguments
    ///
    /// * `pseudo_exposure_time` - Pseudo-exposure time in milliseconds, in
    ///   the range (0.0, 66.0], as its single-precision bit pattern.
    pub fn set_color_semi_auto_exposure(&self, pseudo_exposure_time: u32) -> (plan: Result<
        Vec<Command>,
        Error,
    >)
        ensures
            self@.running <==> plan is Ok,
            plan matches Err(error) ==> error == Error::OnlyWhileRunning(
                "Setting semi-auto exposure",
            ),
            plan matches Ok(commands) ==> commands_view(commands@) == seq![
                color_setting(ColorSettingCommandType::SetAcs, 0),
                color_setting(ColorSettingCommandType::SetExposureMode, 3),
                color_setting(ColorSettingCommandType::SetExposureTimeMs, pseudo_exposure_time),
            ],
    {
        let mut settings: Vec<Command> = Vec::new();
        settings.push(
            color_setting_command(ColorSettingCommandType::SetExposureTimeMs, pseudo_exposure_time),
        );
        self.exposure_plan("Setting semi-auto exposure", 3, settings)
    }

    /// Manually set true exposure time and analog gain of the color
    /// camera. Gives the commands to send, in order. Fails unless the
    /// device runs.
    ///
    /// # Arguments
    ///
    /// * `integration_time` - True shutter time in milliseconds, in the
    ///   range (0.0, 66.0], as its single-precision bit pattern.
    /// * `analog_gain` - Analog gain in the range [1.0, 4.0], as its
    ///   single-precision bit pattern.
    pub fn set_color_manual_exposure(&self, integration_time: u32, analog_gain: u32) -> (plan:
        Result<Vec<Command>, Error>)
        ensures
            self@.running <==> plan is Ok,
            plan matches Err(error) ==> error == Error::OnlyWhileRunning(
                "Setting manual exposure",
            ),
            plan matches Ok(commands) ==> commands_view(commands@) == seq![
                color_setting(ColorSettingCommandType::SetAcs, 0),
                color_setting(ColorSettingCommandType::SetExposureMode, 4),
                color_setting(ColorSettingCommandType::SetIntegrationTime, integration_time),
                color_setting(ColorSettingCommandType::SetAnalogGain, analog_gain),
            ],
    {
        let mut settings: Vec<Command> = Vec::new();
        settings.push(
            color_setting_command(ColorSettingCommandType::SetIntegrationTime, integration_time),
        );
        settings.push(color_setting_command(ColorSettingCommandType::SetAnalogGain, analog_gain));
        self.exposure_plan("Setting manual exposure", 4, settings)
    }

    /// Set an individual setting value of the color camera: gives the
    /// command to send.
    pub fn set_color_setting(&self, command: ColorSettingCommandType, value: u32) -> (made:
        Command)
        ensures
            made@ == color_setting(command, value),
    {
        color_setting_command(command, value)
    }

    /// Get an individual setting value of the color camera: gives the
    /// command to send. [`read_color_setting`] reads the value from what
    /// the device answers.
    pub fn get_color_setting(&self, command: ColorSettingCommandType) -> (made: Command)
        ensures
            made@ == color_setting(command, 0),
    {
        color_setting_command(command, 0)
    }

    /// Set the settings of a Kinect LED: gives the command to send.
    ///
    /// # Arguments
    ///
    /// * `led_settings` - Settings for a single LED.
    pub fn set_led_status(&self, led_settings: LedSettings) -> (made: Command)
        ensures
            made@ == (CommandView {
                command_id: KINECT_CMD_SET_MODE,
                max_response_length: 0,
                min_response_length: 0,
                has_sequence: false,
                parameters: led_parameters(led_settings@),
            }),
    {
        led_setting_command(led_settings)
    }
}

/// Reads the value of a setting of the color camera from what the device
/// answered. Fails where the answer is shorter than it has to be.
pub fn read_color_setting(response: &[u8]) -> (value: Result<u32, Error>)
    ensures
        response@.len() >= ColorSettingResponse::SIZE ==> value == Ok::<u32, Error>(
            le_u32(response@, 12),
        ),
        response@.len() < ColorSettingResponse::SIZE ==> value == Err::<u32, Error>(
            Error::UnalignedRead("ColorSettingResponse"),
        ),
{
    match ColorSettingResponse::read_unaligned(response) {
        Ok(raw) => Ok(raw.data),
        Err(error) => Err(error),
    }
}

/// A start that is carried through ends with the device running, and only
/// the last answer of the start makes it run: at every other stage the
/// device runs after the answer if and only if it ran before.
pub proof fn lemma_runs_only_after_streaming(state: OpenedView, response: Seq<u8>)
    ensures
        state.stage == Stage::Streaming ==> resumed(state, response).0.running
            && resumed(state, response).1 == StepView::Done,
        state.stage != Stage::Streaming ==> resumed(state, response).0.running == state.running,
{
}

/// The calibration changes only while a start reads it: no answer at any
/// other stage touches the parameters or the tables.
pub proof fn lemma_calibration_set_by_start(state: OpenedView, response: Seq<u8>)
    ensures
        state.stage != Stage::DepthParams ==> resumed(state, response).0.ir_params
            == state.ir_params,
        state.stage != Stage::ColorParams ==> resumed(state, response).0.color_params
            == state.color_params,
        state.stage != Stage::P0Tables ==> resumed(state, response).0.p0_tables
            == state.p0_tables,
{
}

/// A start asks for the status at most 50 times: the poll after the
/// fiftieth unready answer is not asked, the start fails.
pub proof fn lemma_status_polls_are_bounded(state: OpenedView, response: Seq<u8>, polls: u32)
    requires
        state.stage == (Stage::Status { polls }),
        polls >= MAX_POLLS,
        response.len() >= 4,
        le_u32(response, 0) % 2 != 1,
    ensures
        resumed(state, response).1 == StepView::Failed(
            ErrorView::Transport(TransportFailure::Timeout),
        ),
        resumed(state, response).0.stage == Stage::Idle,
{
}

/// Most answers that a start at `stage` still takes in.
pub open spec fn answers_left(stage: Stage) -> nat {
    match stage {
        Stage::Idle => 0,
        Stage::Streaming => 1,
        Stage::IrOn => 2,
        Stage::InitStreams => 3,
        Stage::Status { polls } => if polls < MAX_POLLS {
            (4 + 2 * (MAX_POLLS - polls)) as nat
        } else {
            4
        },
        Stage::Pause { polls } => if polls < MAX_POLLS {
            (3 + 2 * (MAX_POLLS - polls)) as nat
        } else {
            5
        },
        Stage::ModeOff => 104,
        Stage::ModeOn => 105,
        Stage::P0Tables => 106,
        Stage::ColorParams => 107,
        Stage::DepthParams => 108,
        Stage::Serial => 109,
        Stage::VideoOn => 110,
    }
}

/// Every answer brings a start nearer to its end, whatever the device
/// answers: a start is over, done or failed, after 110 answers at most.
pub proof fn lemma_start_ends(state: OpenedView, response: Seq<u8>)
    requires
        state.stage != Stage::Idle,
    ensures
        answers_left(resumed(state, response).0.stage) < answers_left(state.stage),
        resumed(state, response).1 is Ask <==> resumed(state, response).0.stage != Stage::Idle,
{
}

} // verus!

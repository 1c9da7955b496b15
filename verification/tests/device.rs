use kinect_one::command::{
    init_streams_command, read_depth_params_command, read_p0_tables_command,
    read_rgb_params_command, read_serial_number_command, read_status_command, set_mode_command,
    set_stream_state_command, shutdown_command, stop_command, Command,
};
use kinect_one::device::opened::{
    check_serial_number, get_max_iso_packet_size, read_color_setting, serial_number_of,
    split_descriptors, strip_zeros, EndpointEntry, Stage, Step,
};
use kinect_one::device::{
    Closed, Device, DeviceEnumerator, DeviceId, DeviceInfo, Opened, Recipient, Request,
};
use kinect_one::settings::{ColorSettingCommandType, Host, LedId, LedSettings};
use kinect_one::{Error, TransportFailure};

fn entry(address: u8, vendor_id: u16, product_id: u16) -> Closed {
    Closed { bus: 2, address, vendor_id, product_id, serial_number: "012345".to_string() }
}

fn opened() -> Device<Opened> {
    DeviceEnumerator::from(entry(4, 0x045e, 0x02d8)).open(Host::Other, Some(0x8400)).unwrap()
}

fn same(request: &Request, command: &Command) -> bool {
    match request {
        Request::Execute(asked) => {
            asked.as_bytes(1) == command.as_bytes(1)
                && asked.has_sequence() == command.has_sequence()
                && asked.min_response_length() == command.min_response_length()
        }
        _ => false,
    }
}

fn asked(step: Step) -> Request {
    match step {
        Step::Ask(request) => request,
        other => panic!("expected a request, got {:?}", other),
    }
}

fn control(request: &Request) -> (Recipient, u8, u16, u16, Vec<u8>) {
    match request {
        Request::Control { recipient, request, value, index, data } => {
            (*recipient, *request, *value, *index, data.clone())
        }
        other => panic!("expected a control request, got {:?}", other),
    }
}

fn depth_page() -> Vec<u8> {
    let mut page = Vec::new();
    for value in [365.0f32, 365.0, 0.0, 255.5, 211.5, 0.0, 0.0, 0.0, 0.0, 0.0] {
        page.extend(value.to_le_bytes());
    }
    page.resize(92, 0);
    page
}

fn color_page() -> Vec<u8> {
    let mut page = vec![1u8];
    page.extend(1081.37f32.to_le_bytes());
    page.resize(12981, 0);
    page
}

fn p0_page() -> Vec<u8> {
    let mut page = vec![0u8; 1302572];
    page[34] = 0x9a;
    page[35] = 0x2c;
    page
}

fn serial_page(serial: &str) -> Vec<u8> {
    let mut page = serial.as_bytes().to_vec();
    page.resize(0x80, 0);
    page
}

fn start_up_to_status(device: &mut Device<Opened>) -> Request {
    let request = asked(device.start());
    assert_eq!(
        control(&request),
        (Recipient::Interface, 0x03, 0, 0, vec![])
    );
    assert!(same(&asked(device.resume(vec![])), &read_serial_number_command()));
    assert!(same(&asked(device.resume(serial_page("012345"))), &read_depth_params_command()));
    assert!(same(&asked(device.resume(depth_page())), &read_rgb_params_command()));
    assert!(same(&asked(device.resume(color_page())), &read_p0_tables_command()));
    assert!(same(&asked(device.resume(p0_page())), &set_mode_command(true, 0x00640064)));
    assert!(same(&asked(device.resume(vec![])), &set_mode_command(false, 0)));
    asked(device.resume(vec![]))
}

#[test]
fn enumerate_keeps_the_kinects_in_order() {
    let found = vec![
        entry(1, 0x1234, 0x02d8),
        entry(2, 0x045e, 0x02d8),
        entry(3, 0x045e, 0x0001),
        entry(4, 0x045e, 0x02c4),
        entry(5, 0x045e, 0x02d8),
    ];
    let devices = DeviceEnumerator::enumerate(found);
    let addresses: Vec<u8> = devices.iter().map(|device| device.id().address).collect();
    assert_eq!(addresses, vec![2, 4, 5]);
    assert_eq!(devices[0].id(), DeviceId { bus: 2, address: 2 });
    assert_eq!(devices[1].inner.serial_number, "012345");
}

#[test]
fn open_default_takes_the_first_kinect() {
    let found = vec![entry(1, 1, 1), entry(9, 0x045e, 0x02c4), entry(3, 0x045e, 0x02d8)];
    assert_eq!(DeviceEnumerator::open_default(found).unwrap().id().address, 9);
}

#[test]
fn open_default_without_kinect_fails() {
    let found = vec![entry(1, 1, 1), entry(2, 0x045e, 0x1111)];
    assert_eq!(DeviceEnumerator::open_default(found).err(), Some(Error::NoDevice));
    assert_eq!(DeviceEnumerator::open_default(vec![]).err(), Some(Error::NoDevice));
}

#[test]
fn open_plan_sets_the_device_up() {
    let device = DeviceEnumerator::from(entry(4, 0x045e, 0x02d8));
    let plan = device.open_plan(1);
    assert_eq!(plan.len(), 8);
    assert!(matches!(plan[0], Request::ClaimInterface(0)));
    assert!(matches!(plan[1], Request::ClaimInterface(1)));
    assert_eq!(control(&plan[2]), (Recipient::Device, 0x31, 40, 0, vec![]));
    assert_eq!(control(&plan[3]), (Recipient::Device, 0x30, 0, 0, vec![0x55, 0, 0x55, 0, 0, 0]));
    assert!(matches!(plan[4], Request::AltSetting { interface: 1, setting: 0 }));
    assert_eq!(control(&plan[5]), (Recipient::Device, 0x03, 48, 0, vec![]));
    assert_eq!(control(&plan[6]), (Recipient::Device, 0x03, 49, 0, vec![]));
    assert_eq!(control(&plan[7]), (Recipient::Interface, 0x03, 0, 0x300, vec![]));
}

#[test]
fn open_plan_selects_configuration_one_when_another_is_active() {
    let device = DeviceEnumerator::from(entry(4, 0x045e, 0x02d8));
    let plan = device.open_plan(0);
    assert_eq!(plan.len(), 9);
    assert!(matches!(plan[0], Request::SetConfiguration(1)));
    assert!(matches!(plan[1], Request::ClaimInterface(0)));
}

#[test]
fn open_refuses_a_small_iso_packet() {
    for (size, reported) in [(None, 0), (Some(0), 0), (Some(0x83ff), 0x83ff)] {
        let device = DeviceEnumerator::from(entry(4, 0x045e, 0x02d8));
        assert_eq!(
            device.open(Host::Other, size).err(),
            Some(Error::MaxIsoPacket(0x84, reported, 0x8400))
        );
    }
}

#[test]
fn opened_device_does_not_run() {
    let device = opened();
    assert!(!device.running());
    assert_eq!(device.stage(), Stage::Idle);
    assert_eq!(device.id(), DeviceId { bus: 2, address: 4 });
    assert_eq!(device.packet_params().max_iso_packet_size, 0x8400);
    assert_eq!(device.packet_params().ir_num_transfers, 60);
    assert_eq!(device.get_ir_params().fx, 0);
    assert_eq!(device.get_color_params().fx, 0);
    assert!(device.get_p0_tables().p0_table0().iter().all(|value| *value == 0));
    let windows = DeviceEnumerator::from(entry(4, 0x045e, 0x02d8))
        .open(Host::Windows, Some(0x9000))
        .unwrap();
    assert_eq!(windows.packet_params().color_transfer_size, 1048576);
    assert_eq!(windows.packet_params().max_iso_packet_size, 0x9000);
}

#[test]
fn max_iso_packet_size_is_read_from_the_companion() {
    let wanted = EndpointEntry {
        configuration_value: 1,
        alternate_setting: 1,
        address: 0x84,
        isochronous: true,
        descriptors: vec![vec![6, 0x25, 0, 0, 1, 2], vec![6, 0x30, 0, 0], vec![6, 0x30, 5, 0, 0x00, 0x84]],
    };
    let other = |configuration_value, alternate_setting, address, isochronous| EndpointEntry {
        configuration_value,
        alternate_setting,
        address,
        isochronous,
        descriptors: vec![vec![6, 0x30, 0, 0, 0x11, 0x11]],
    };
    let endpoints = vec![
        other(2, 1, 0x84, true),
        other(1, 0, 0x84, true),
        other(1, 1, 0x83, true),
        other(1, 1, 0x84, false),
        EndpointEntry { descriptors: vec![], ..other(1, 1, 0x84, true) },
        wanted,
        EndpointEntry { descriptors: vec![vec![6, 0x30, 0, 0, 0x22, 0x22]], ..other(1, 1, 0x84, true) },
    ];
    assert_eq!(get_max_iso_packet_size(&endpoints, 1, 1, 0x84), Some(0x8400));
    assert_eq!(get_max_iso_packet_size(&endpoints, 1, 0, 0x84), Some(0x1111));
    assert_eq!(get_max_iso_packet_size(&endpoints, 3, 1, 0x84), None);
    assert_eq!(get_max_iso_packet_size(&vec![], 1, 1, 0x84), None);
}

#[test]
fn start_runs_the_whole_procedure() {
    let mut device = opened();
    let status = start_up_to_status(&mut device);
    assert!(same(&status, &read_status_command(0x090000)));
    assert!(!device.running());
    assert!(same(&asked(device.resume(vec![1, 0, 0, 0])), &init_streams_command()));
    assert!(matches!(
        asked(device.resume(vec![])),
        Request::AltSetting { interface: 1, setting: 1 }
    ));
    assert!(same(&asked(device.resume(vec![])), &set_stream_state_command(true)));
    assert!(!device.running());
    assert!(matches!(device.resume(vec![]), Step::Done));
    assert!(device.running());
    assert_eq!(device.stage(), Stage::Idle);
    assert_eq!(f32::from_bits(device.get_ir_params().fx), 365.0);
    assert_eq!(f32::from_bits(device.get_ir_params().cy), 211.5);
    assert_eq!(f32::from_bits(device.get_color_params().fy), 1081.37);
    assert_eq!(device.get_p0_tables().p0_table0()[0], 0x2c9a);
    assert!(matches!(device.start(), Step::Done));
    assert!(matches!(device.resume(vec![]), Step::Done));
}

#[test]
fn start_waits_until_the_status_is_ready() {
    let mut device = opened();
    start_up_to_status(&mut device);
    for poll in 1..50 {
        assert_eq!(device.stage(), Stage::Status { polls: poll });
        let pause = asked(device.resume(vec![0xfe, 0xff, 0xff, 0xff]));
        assert!(matches!(pause, Request::Sleep { millis: 100 }));
        assert!(same(&asked(device.resume(vec![])), &read_status_command(0x090000)));
    }
    assert!(same(&asked(device.resume(vec![3, 0, 0, 0])), &init_streams_command()));
}

#[test]
fn start_gives_up_after_fifty_polls() {
    let mut device = opened();
    start_up_to_status(&mut device);
    for _ in 1..50 {
        asked(device.resume(vec![0, 0, 0, 0]));
        asked(device.resume(vec![]));
    }
    match device.resume(vec![0, 0, 0, 0]) {
        Step::Failed(error) => assert_eq!(error, Error::Transport(TransportFailure::Timeout)),
        other => panic!("expected a failure, got {:?}", other),
    }
    assert!(!device.running());
    assert_eq!(device.stage(), Stage::Idle);
}

#[test]
fn start_fails_on_a_short_status() {
    let mut device = opened();
    start_up_to_status(&mut device);
    match device.resume(vec![1, 0, 0]) {
        Step::Failed(error) => assert_eq!(error, Error::Receive(3, 4)),
        other => panic!("expected a failure, got {:?}", other),
    }
}

#[test]
fn start_fails_on_another_serial_number() {
    let mut device = opened();
    asked(device.start());
    asked(device.resume(vec![]));
    match device.resume(serial_page("543210")) {
        Step::Failed(error) => assert_eq!(
            error,
            Error::SerialNumber("543210".to_string(), "012345".to_string())
        ),
        other => panic!("expected a failure, got {:?}", other),
    }
    assert!(!device.running());
    assert_eq!(device.stage(), Stage::Idle);
}

#[test]
fn start_fails_on_short_calibration() {
    let pages: [(usize, &str); 3] =
        [(0, "DepthParamsResponse"), (1, "RgbParamsResponse"), (2, "P0TablesResponse")];
    for (short, name) in pages {
        let mut device = opened();
        asked(device.start());
        asked(device.resume(vec![]));
        asked(device.resume(serial_page("012345")));
        let mut step = None;
        for (i, mut page) in [depth_page(), color_page(), p0_page()].into_iter().enumerate() {
            if i == short {
                page.pop();
                step = Some(device.resume(page));
                break;
            }
            asked(device.resume(page));
        }
        match step {
            Some(Step::Failed(error)) => assert_eq!(error, Error::UnalignedRead(name)),
            other => panic!("expected a failure, got {:?}", other),
        }
        assert!(!device.running());
    }
}

fn running() -> Device<Opened> {
    let mut device = opened();
    start_up_to_status(&mut device);
    for response in [vec![1, 0, 0, 0], vec![], vec![], vec![]] {
        device.resume(response);
    }
    assert!(device.running());
    device
}

#[test]
fn stop_undoes_the_start() {
    let mut device = running();
    let plan = device.stop();
    assert!(!device.running());
    assert_eq!(plan.len(), 10);
    assert!(matches!(plan[0], Request::AltSetting { interface: 1, setting: 0 }));
    assert!(same(&plan[1], &set_mode_command(true, 0x00640064)));
    assert!(same(&plan[2], &set_mode_command(false, 0)));
    assert!(same(&plan[3], &stop_command()));
    assert!(same(&plan[4], &set_stream_state_command(false)));
    assert!(same(&plan[5], &set_mode_command(true, 0)));
    assert!(same(&plan[6], &set_mode_command(false, 0)));
    assert!(same(&plan[7], &set_mode_command(true, 0)));
    assert!(same(&plan[8], &set_mode_command(false, 0)));
    assert_eq!(control(&plan[9]), (Recipient::Interface, 0x03, 0, 0x300, vec![]));
    assert!(device.stop().is_empty());
}

#[test]
fn stop_of_a_stopped_device_asks_nothing() {
    let mut device = opened();
    assert!(device.stop().is_empty());
    assert!(!device.running());
}

#[test]
fn shut_down_stops_a_running_device_first() {
    let mut device = running();
    let plan = device.shut_down();
    assert!(!device.running());
    assert_eq!(plan.len(), 13);
    assert!(matches!(plan[0], Request::AltSetting { interface: 1, setting: 0 }));
    assert!(same(&plan[3], &stop_command()));
    assert_eq!(control(&plan[9]), (Recipient::Interface, 0x03, 0, 0x300, vec![]));
    assert!(same(&plan[10], &set_mode_command(true, 0x00640064)));
    assert!(same(&plan[11], &set_mode_command(false, 0)));
    assert!(same(&plan[12], &shutdown_command()));
    let closed = device.close();
    assert_eq!(closed.id(), DeviceId { bus: 2, address: 4 });
}

#[test]
fn shut_down_of_a_stopped_device_only_shuts_down() {
    let mut device = opened();
    let plan = device.shut_down();
    assert_eq!(plan.len(), 3);
    assert!(same(&plan[0], &set_mode_command(true, 0x00640064)));
    assert!(same(&plan[1], &set_mode_command(false, 0)));
    assert!(same(&plan[2], &shutdown_command()));
    assert_eq!(device.close().inner, entry(4, 0x045e, 0x02d8));
}

#[test]
fn polls_fail_unless_the_device_runs() {
    let mut device = opened();
    assert_eq!(
        device.poll_color_packet(vec![vec![1, 2, 3]]).err(),
        Some(Error::OnlyWhileRunning("Reading color frame"))
    );
    assert_eq!(
        device.poll_depth_packet(vec![vec![1, 2, 3]]).err(),
        Some(Error::OnlyWhileRunning("Reading depth frame"))
    );
}

fn color_packet(sequence: u32) -> Vec<u8> {
    let mut bytes = Vec::new();
    bytes.extend(sequence.to_le_bytes());
    bytes.extend(0x42424242u32.to_le_bytes());
    bytes.extend([0xff, 0xd8, 1, 2, 3, 0xff, 0xd9]);
    bytes.push(0xa5);
    let size = (bytes.len() + 56) as u32;
    for word in [0x39393939, sequence, 0, 0, 0, 5, 0, 0, 0x42424242, size, 0, 0, 0, 0] {
        bytes.extend(word.to_le_bytes());
    }
    bytes
}

#[test]
fn color_poll_returns_the_last_packet() {
    let mut device = running();
    let first = color_packet(1);
    let second = color_packet(2);
    let third = color_packet(3);
    let transfers = vec![
        first[..10].to_vec(),
        first[10..].to_vec(),
        second.clone(),
        third[..20].to_vec(),
    ];
    let packet = device.poll_color_packet(transfers).unwrap().expect("a packet");
    assert_eq!(packet.sequence, 2);
    assert_eq!(packet.jpeg_buffer, vec![0xff, 0xd8, 1, 2, 3, 0xff, 0xd9]);
    assert_eq!(device.poll_color_packet(vec![]).unwrap().map(|p| p.sequence), None);
    let packet = device.poll_color_packet(vec![third[20..].to_vec()]).unwrap();
    assert_eq!(packet.map(|p| p.sequence), Some(3));
}

#[test]
fn depth_poll_returns_the_last_frame() {
    let mut device = running();
    let mut transfers = Vec::new();
    for (sequence, count) in [(1u32, 10u32), (2, 10), (3, 1)] {
        for subsequence in 0..count {
            let mut bytes = vec![sequence as u8; 298496];
            for word in [0, 0, 9, sequence, subsequence, 298496] {
                bytes.extend(word.to_le_bytes());
            }
            bytes.extend(vec![0u8; 128]);
            transfers.push(bytes);
        }
    }
    let packet = device.poll_depth_packet(transfers).unwrap().expect("a frame");
    assert_eq!(packet.sequence, 2);
    assert!(packet.buffer.iter().all(|byte| *byte == 2));
}

#[test]
fn exposure_settings_need_a_running_device() {
    let device = opened();
    assert_eq!(
        device.set_color_auto_exposure(0).err(),
        Some(Error::OnlyWhileRunning("Setting auto exposure"))
    );
    assert_eq!(
        device.set_color_semi_auto_exposure(0).err(),
        Some(Error::OnlyWhileRunning("Setting semi-auto exposure"))
    );
    assert_eq!(
        device.set_color_manual_exposure(0, 0).err(),
        Some(Error::OnlyWhileRunning("Setting manual exposure"))
    );
}

fn settings(plan: &[Command]) -> Vec<Vec<u8>> {
    plan.iter().map(|command| command.as_bytes(0)[20..].to_vec()).collect()
}

fn setting(code: u32, value: u32) -> Vec<u8> {
    [1u32, 0, code, value].iter().flat_map(|word| word.to_le_bytes()).collect()
}

#[test]
fn exposure_settings_are_rows_of_single_settings() {
    let device = running();
    let auto = device.set_color_auto_exposure(1.5f32.to_bits()).unwrap();
    assert_eq!(
        settings(&auto),
        vec![setting(25, 0), setting(0, 0), setting(23, 1.5f32.to_bits())]
    );
    let semi = device.set_color_semi_auto_exposure(16.0f32.to_bits()).unwrap();
    assert_eq!(
        settings(&semi),
        vec![setting(25, 0), setting(0, 3), setting(17, 16.0f32.to_bits())]
    );
    let manual = device.set_color_manual_exposure(8.0f32.to_bits(), 2.0f32.to_bits()).unwrap();
    assert_eq!(
        settings(&manual),
        vec![
            setting(25, 0),
            setting(0, 4),
            setting(1, 8.0f32.to_bits()),
            setting(21, 2.0f32.to_bits())
        ]
    );
    assert!(auto.iter().all(|command| command.command_id() == 0x3e && !command.has_sequence()));
}

#[test]
fn single_settings_and_leds_need_no_running_device() {
    let device = opened();
    let set = device.set_color_setting(ColorSettingCommandType::SetDigitalGain, 7);
    assert_eq!(settings(&[set]), vec![setting(19, 7)]);
    let get = device.get_color_setting(ColorSettingCommandType::GetDigitalGain);
    assert_eq!(settings(&[get]), vec![setting(20, 0)]);
    let led = device.set_led_status(LedSettings::blink(LedId::Primary, 250, 0, 1000));
    assert_eq!(led.as_bytes(0)[20..24], 0x00010000u32.to_le_bytes());
    assert_eq!(led.as_bytes(0)[24..28], 250u32.to_le_bytes());
}

#[test]
fn color_setting_value_is_read_from_the_answer() {
    let mut answer = vec![0u8; 12];
    answer.extend(99u32.to_le_bytes());
    assert_eq!(read_color_setting(&answer), Ok(99));
    assert_eq!(
        read_color_setting(&answer[..12]),
        Err(Error::UnalignedRead("ColorSettingResponse"))
    );
}

#[test]
fn transact_counts_the_sequence_of_the_device() {
    let mut device = opened();
    let (first, _) = device.transact(&set_mode_command(true, 0));
    let (second, _) = device.transact(&set_mode_command(false, 0));
    assert_eq!((first.sequence(), second.sequence()), (1, 2));
}

#[test]
fn serial_number_is_the_text_without_zero_bytes() {
    assert_eq!(strip_zeros(&[0, b'a', 0, 0, b'b', 0]), vec![b'a', b'b']);
    assert_eq!(strip_zeros(&[]), Vec::<u8>::new());
    assert_eq!(serial_number_of(&serial_page("003726334247")), "003726334247");
    assert_eq!(serial_number_of(&[b'A', 0, 0xff, b'B']), "A\u{fffd}B");
}

#[test]
fn serial_numbers_are_held_against_each_other() {
    assert_eq!(check_serial_number("abc".to_string(), &"abc".to_string()), Ok(()));
    assert_eq!(
        check_serial_number("abc".to_string(), &"abd".to_string()),
        Err(Error::SerialNumber("abc".to_string(), "abd".to_string()))
    );
}

#[test]
fn extra_bytes_are_cut_into_descriptors() {
    let extra = [6, 0x30, 0, 0, 0x00, 0x84, 3, 0x25, 9, 2, 1];
    assert_eq!(
        split_descriptors(&extra),
        vec![vec![6, 0x30, 0, 0, 0x00, 0x84], vec![3, 0x25, 9], vec![2, 1]]
    );
    assert_eq!(split_descriptors(&[]), Vec::<Vec<u8>>::new());
    assert_eq!(split_descriptors(&[2]), Vec::<Vec<u8>>::new());
    assert_eq!(split_descriptors(&[1, 7, 7]), Vec::<Vec<u8>>::new());
    assert_eq!(split_descriptors(&[0, 7, 7]), Vec::<Vec<u8>>::new());
    assert_eq!(split_descriptors(&[3, 1, 2, 5, 0]), vec![vec![3, 1, 2]]);
    assert_eq!(split_descriptors(&[2, 1, 4, 0, 0]), vec![vec![2, 1]]);
}

#[test]
fn companion_is_found_in_the_extra_bytes_of_the_endpoint() {
    let endpoints = vec![EndpointEntry {
        configuration_value: 1,
        alternate_setting: 1,
        address: 0x84,
        isochronous: true,
        descriptors: split_descriptors(&[4, 0x25, 0, 0, 6, 0x30, 2, 0, 0x00, 0x84]),
    }];
    assert_eq!(get_max_iso_packet_size(&endpoints, 1, 1, 0x84), Some(0x8400));
}

#[test]
fn start_asks_for_the_whole_serial_number_page() {
    let mut device = opened();
    asked(device.start());
    match asked(device.resume(vec![])) {
        Request::Execute(command) => {
            assert_eq!(command.command_id(), 0x22);
            assert_eq!(command.max_response_length(), 0x1c0000);
            assert_eq!(command.min_response_length(), 0x80);
        }
        other => panic!("expected a command, got {:?}", other),
    }
}

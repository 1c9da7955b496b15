use kinect_one::settings::{Host, LedId, LedMode, LedSettings, PacketParams};

#[test]
fn constant_led_keeps_its_level() {
    let settings = LedSettings::constant(LedId::Secondary, 600);
    assert_eq!(settings.id(), LedId::Secondary);
    assert_eq!(settings.mode(), LedMode::Constant);
    assert_eq!(settings.start_level(), 600);
    assert_eq!(settings.stop_level(), 0);
    assert_eq!(settings.interval(), 0);
}

#[test]
fn blinking_led_keeps_what_it_was_made_with() {
    let settings = LedSettings::blink(LedId::Primary, 250, 10, 1000);
    assert_eq!(settings.id(), LedId::Primary);
    assert_eq!(settings.mode(), LedMode::Blink);
    assert_eq!(settings.start_level(), 250);
    assert_eq!(settings.stop_level(), 10);
    assert_eq!(settings.interval(), 1000);
}

#[test]
fn led_levels_stop_at_one_thousand() {
    let settings = LedSettings::blink(LedId::Primary, 1001, u16::MAX, 1);
    assert_eq!(settings.start_level(), 1000);
    assert_eq!(settings.stop_level(), 1000);
    assert_eq!(LedSettings::constant(LedId::Primary, 1000).start_level(), 1000);
    assert_eq!(LedSettings::constant(LedId::Primary, 0).start_level(), 0);
}

#[test]
fn led_codes() {
    assert_eq!(LedId::Primary.code(), 0);
    assert_eq!(LedId::Secondary.code(), 1);
    assert_eq!(LedMode::Constant.code(), 0);
    assert_eq!(LedMode::Blink.code(), 1);
}

#[test]
fn packet_params_by_host() {
    let other = PacketParams::for_host(Host::Other);
    assert_eq!(other, PacketParams::default());
    assert_eq!(
        other,
        PacketParams {
            max_iso_packet_size: 0,
            color_transfer_size: 0x4000,
            color_num_transfers: 20,
            ir_packets_per_transfer: 8,
            ir_num_transfers: 60,
        }
    );
    let mac = PacketParams::for_host(Host::MacOs);
    assert_eq!((mac.ir_packets_per_transfer, mac.ir_num_transfers), (128, 4));
    assert_eq!((mac.color_transfer_size, mac.color_num_transfers), (0x4000, 20));
    let windows = PacketParams::for_host(Host::Windows);
    assert_eq!((windows.ir_packets_per_transfer, windows.ir_num_transfers), (64, 8));
    assert_eq!((windows.color_transfer_size, windows.color_num_transfers), (1048576, 3));
}

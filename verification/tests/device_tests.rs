use sensor_tools::battery::{build_battery_report, BatteryReading, BatteryServer, BatteryState};
use sensor_tools::bluetooth::{
    build_scan_report, AdapterScan, BlePeripheral, BluetoothServer, ScanOutcome,
    SCAN_WINDOW_SECONDS,
};
use sensor_tools::display::{format_displays, DisplayEntry, DisplayServer};
use sensor_tools::network::{count_active, has_loopback, AddressInfo, InterfaceInfo, NetworkServer};
use sensor_tools::usb::{build_usb_report, push_id, UsbDevice, UsbServer};

fn some(s: &str) -> Option<String> {
    Some(String::from(s))
}

#[test]
fn usb_identifiers_have_four_hex_digits() {
    let mut out = String::new();
    for id in [0u16, 0xa, 0x1d6b, 0xffff, 0x0100] {
        push_id(&mut out, id);
        out.push(' ');
    }
    assert_eq!(out, "0000 000a 1d6b ffff 0100 ");
    for id in [1u16, 15, 16, 255, 256, 4095, 4096, 65535] {
        let mut out = String::new();
        push_id(&mut out, id);
        assert_eq!(out, format!("{:04x}", id));
    }
}

#[test]
fn usb_report_of_two_devices() {
    let server = UsbServer::new();
    let devices = vec![
        UsbDevice {
            manufacturer: some("Logitech"),
            product: some("USB Receiver"),
            serial: some("ABC123"),
            vendor_id: 0x046d,
            product_id: 0xc52b,
            bus_number: 1,
            device_address: 4,
        },
        UsbDevice {
            manufacturer: some(""),
            product: None,
            serial: None,
            vendor_id: 0x1d6b,
            product_id: 0x0002,
            bus_number: 2,
            device_address: 255,
        },
    ];
    assert_eq!(
        server.get_usb_devices(&devices),
        "USB Devices:\n\n1. USB Receiver\n   Manufacturer: Logitech\n   Vendor ID: 046d, Product ID: c52b\n   Serial: ABC123\n   Bus: 1, Device: 4\n\n2. Device 1d6b:0002\n   Vendor ID: 1d6b, Product ID: 0002\n   Bus: 2, Device: 255\n\nTotal: 2 USB devices\n"
    );
}

#[test]
fn usb_report_of_nothing() {
    assert_eq!(build_usb_report(&vec![]), "USB Devices:\n\nNo USB devices found.\n");
}

#[test]
fn usb_device_with_an_empty_product_name_goes_by_its_identifiers() {
    let devices = vec![UsbDevice {
        manufacturer: None,
        product: some(""),
        serial: some(""),
        vendor_id: 1,
        product_id: 0xabcd,
        bus_number: 0,
        device_address: 0,
    }];
    assert_eq!(
        build_usb_report(&devices),
        "USB Devices:\n\n1. Device 0001:abcd\n   Vendor ID: 0001, Product ID: abcd\n   Bus: 0, Device: 0\n\nTotal: 1 USB devices\n"
    );
}

fn display(name: &str, friendly: &str) -> DisplayEntry {
    DisplayEntry {
        name: String::from(name),
        friendly_name: String::from(friendly),
        is_primary: false,
        width: 1920,
        height: 1080,
        x: 0,
        y: 0,
        width_mm: 0,
        height_mm: 0,
        diagonal_inches: String::from("0.0"),
        refresh: None,
        scale: None,
        rotation: None,
    }
}

#[test]
fn display_report_in_full() {
    let server = DisplayServer::new();
    let mut main = display("DP-1", "Dell U2720Q");
    main.is_primary = true;
    main.width = 3840;
    main.height = 2160;
    main.width_mm = 597;
    main.height_mm = 336;
    main.diagonal_inches = String::from("27.0");
    main.refresh = some("60");
    main.scale = some("150");
    main.rotation = Some(90);
    let mut side = display("HDMI-1", "");
    side.x = -1920;
    side.y = 120;
    side.width_mm = 500;
    let displays = vec![main, side];
    let with = "Display Information:\n\nDisplay 1: Dell U2720Q (primary)\n  Resolution: 3840x2160\n  Position: (0, 0)\n  Physical: 597mm x 336mm (~27.0\")\n  Refresh: 60Hz\n  Scale: 150%\n  Rotation: 90°\n\nDisplay 2: HDMI-1\n  Resolution: 1920x1080\n  Position: (-1920, 120)\n\nTotal displays: 2\n";
    assert_eq!(server.get_display_info(&displays), with);
    assert_eq!(DisplayServer::format_display_info(&displays), with);
    assert_eq!(format_displays(&displays, true), with);
    assert_eq!(format_displays(&displays, false), with.replace("  Rotation: 90°\n", ""));
}

#[test]
fn display_report_of_nothing() {
    assert_eq!(format_displays(&vec![], true), "Display Information:\n\nNo displays detected.\n");
    assert_eq!(format_displays(&vec![], false), "Display Information:\n\nNo displays detected.\n");
}

#[test]
fn display_with_extreme_position_and_negative_rotation() {
    let mut d = display("X", "");
    d.x = i32::MIN;
    d.y = i32::MAX;
    d.width = u32::MAX;
    d.height = 0;
    d.width_mm = -5;
    d.height_mm = 300;
    d.rotation = Some(-90);
    assert_eq!(
        format_displays(&vec![d], true),
        "Display Information:\n\nDisplay 1: X\n  Resolution: 4294967295x0\n  Position: (-2147483648, 2147483647)\n  Rotation: -90°\n\nTotal displays: 1\n"
    );
}

fn battery() -> BatteryReading {
    BatteryReading {
        charge: String::from("87.5"),
        state: BatteryState::Discharging,
        energy: String::from("43.8"),
        energy_full: String::from("50.0"),
        time_to_full: None,
        time_to_empty: some("125"),
        health: String::from("92.3"),
        temperature: some("31.5"),
    }
}

#[test]
fn battery_states_in_words() {
    assert_eq!(BatteryServer::state_to_string(BatteryState::Charging), "Charging");
    assert_eq!(BatteryServer::state_to_string(BatteryState::Discharging), "Discharging");
    assert_eq!(BatteryServer::state_to_string(BatteryState::Empty), "Empty");
    assert_eq!(BatteryServer::state_to_string(BatteryState::Full), "Full");
    assert_eq!(BatteryServer::state_to_string(BatteryState::Unknown), "Unknown");
}

#[test]
fn battery_report_of_two() {
    let server = BatteryServer::new();
    let mut second = battery();
    second.state = BatteryState::Charging;
    second.time_to_empty = None;
    second.time_to_full = some("30");
    second.temperature = None;
    assert_eq!(
        server.get_battery_status(&vec![battery(), second]),
        "Battery Status:\n\nBattery 1:\n  Charge: 87.5%\n  State: Discharging\n  Energy: 43.8 / 50.0 Wh\n  Time to empty: 125 minutes\n  Health: 92.3%\n  Temperature: 31.5°C\n\nBattery 2:\n  Charge: 87.5%\n  State: Charging\n  Energy: 43.8 / 50.0 Wh\n  Time to full: 30 minutes\n  Health: 92.3%\n\nTotal batteries: 2\n"
    );
}

#[test]
fn battery_report_of_nothing() {
    assert_eq!(
        build_battery_report(&vec![]),
        "Battery Status:\n\nNo batteries detected.\n(This is normal for desktop computers without UPS)\n"
    );
}

fn peripheral(name: Option<&str>, address: Option<&str>, rssi: Option<i16>) -> BlePeripheral {
    BlePeripheral { name: name.map(String::from), address: address.map(String::from), rssi }
}

#[test]
fn scan_report_without_adapters() {
    let server = BluetoothServer::new();
    assert_eq!(server.scan_window_seconds, 3);
    assert_eq!(SCAN_WINDOW_SECONDS, 3);
    assert_eq!(
        server.scan_ble_devices(&vec![]),
        Ok(String::from("Bluetooth Status:\n\nNo Bluetooth adapters found.\n"))
    );
}

#[test]
fn scan_report_of_three_adapters() {
    let adapters = vec![
        AdapterScan {
            info: some("hci0 (usb:v1D6Bp0246d0540)"),
            outcome: ScanOutcome::Found(vec![
                peripheral(Some("Thermo"), Some("AA:BB:CC:DD:EE:FF"), Some(-60)),
                peripheral(None, None, None),
                peripheral(None, Some("11:22:33:44:55:66"), Some(0)),
            ]),
        },
        AdapterScan { info: None, outcome: ScanOutcome::StartFailed(String::from("powered off")) },
        AdapterScan { info: some("hci2"), outcome: ScanOutcome::Found(vec![]) },
    ];
    assert_eq!(
        build_scan_report(&adapters),
        Ok(String::from(
            "Bluetooth Devices:\n\nAdapter: hci0 (usb:v1D6Bp0246d0540)\n\n  1. Thermo (-60dBm)\n     Address: AA:BB:CC:DD:EE:FF\n  2. Unknown\n     Address: ??:??:??:??:??:??\n  3. Unknown (0dBm)\n     Address: 11:22:33:44:55:66\n\n  Total: 3 BLE devices\nAdapter: Unknown adapter\n\n  Could not scan: powered off\nAdapter: hci2\n\n  No BLE devices found nearby.\n"
        ))
    );
}

#[test]
fn scan_fails_where_results_cannot_be_read() {
    let adapters = vec![
        AdapterScan { info: some("hci0"), outcome: ScanOutcome::Found(vec![]) },
        AdapterScan { info: some("hci1"), outcome: ScanOutcome::ListFailed(String::from("gone")) },
        AdapterScan { info: some("hci2"), outcome: ScanOutcome::ListFailed(String::from("later")) },
    ];
    assert_eq!(
        build_scan_report(&adapters),
        Err(String::from("Failed to get peripherals: gone"))
    );
}

#[test]
fn scan_shows_extreme_signal_strengths() {
    let adapters = vec![AdapterScan {
        info: some("a"),
        outcome: ScanOutcome::Found(vec![
            peripheral(Some("lo"), Some("x"), Some(i16::MIN)),
            peripheral(Some("hi"), Some("y"), Some(i16::MAX)),
        ]),
    }];
    assert_eq!(
        build_scan_report(&adapters),
        Ok(String::from(
            "Bluetooth Devices:\n\nAdapter: a\n\n  1. lo (-32768dBm)\n     Address: x\n  2. hi (32767dBm)\n     Address: y\n\n  Total: 2 BLE devices\n"
        ))
    );
}

fn v4(ip: &str, netmask: Option<&str>, loopback: bool) -> AddressInfo {
    AddressInfo::V4 { ip: String::from(ip), netmask: netmask.map(String::from), loopback }
}

fn v6(ip: &str, loopback: bool) -> AddressInfo {
    AddressInfo::V6 { ip: String::from(ip), loopback }
}

fn interfaces() -> Vec<InterfaceInfo> {
    vec![
        InterfaceInfo {
            name: String::from("lo"),
            mac_addr: some("00:00:00:00:00:00"),
            addr: vec![v4("127.0.0.1", Some("255.0.0.0"), true), v6("::1", true)],
        },
        InterfaceInfo {
            name: String::from("eth0"),
            mac_addr: some("aa:bb:cc:dd:ee:ff"),
            addr: vec![
                v4("192.168.1.10", Some("255.255.255.0"), false),
                v6("fe80::a8bb:ccff:fedd:eeff", false),
                v6("2001:db8::1", false),
                v4("10.0.0.1", None, false),
            ],
        },
        InterfaceInfo { name: String::from("wlan0"), mac_addr: some(""), addr: vec![] },
        InterfaceInfo { name: String::from("tun0"), mac_addr: None, addr: vec![v6("fe80::1", false)] },
    ]
}

#[test]
fn network_report_of_four_interfaces() {
    let server = NetworkServer::new();
    let expected = "Network Interfaces:\n\nlo (loopback)\n  IPv4: 127.0.0.1 / 255.0.0.0\n  IPv6: ::1\n\neth0\n  MAC: aa:bb:cc:dd:ee:ff\n  IPv4: 192.168.1.10 / 255.255.255.0\n  IPv6: 2001:db8::1\n  IPv4: 10.0.0.1\n\nwlan0\n\ntun0\n\nTotal interfaces: 4 (3 with addresses)\n";
    assert_eq!(server.get_interfaces(&interfaces()), expected);
    assert_eq!(NetworkServer::format_interfaces(&interfaces()), expected);
}

#[test]
fn network_report_of_nothing() {
    assert_eq!(
        NetworkServer::format_interfaces(&vec![]),
        "Network Interfaces:\n\nNo network interfaces found.\n"
    );
}

#[test]
fn loopback_and_active_interfaces() {
    let all = interfaces();
    assert!(has_loopback(&all[0].addr));
    assert!(!has_loopback(&all[1].addr));
    assert!(!has_loopback(&all[2].addr));
    assert!(has_loopback(&vec![v4("10.0.0.1", None, false), v6("::1", true)]));
    assert_eq!(count_active(&all), 3);
    assert_eq!(count_active(&vec![]), 0);
    assert_eq!(count_active(&all[2..3].to_vec()), 0);
}

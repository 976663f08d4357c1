use rk_m87_sync::error::Error;
use rk_m87_sync::hid::{
    classify_uevent, connect_next, connect_start, detect_device, detect_devices, dongle_status_packet,
    dongle_status_reply_ok, format_packet, hex, hidiocsfeature, manual_candidate, probe_for,
    probe_report, protocol_from_uevent, protocol_in_uppercase, sysparam_reply, sysparam_report, ConnectEvent,
    ConnectStep, DetectedDevice, Probe, SysparamReport,
};
use rk_m87_sync::protocol::{build_output_report, Protocol, CMD_DONGLE_STATUS, CMD_ECHO};

const USB_UEVENT: &str = "DRIVER=hid-generic\nHID_ID=0003:0000258A:000001A2\nHID_NAME=Royal Kludge M87\nHID_PHYS=usb-0000:00:14.0-2/input1\nHID_UNIQ=\nMODALIAS=hid:b0003g0001v0000258Ap000001A2\n";

const DONGLE_UEVENT: &str = "DRIVER=hid-generic\r\nHID_ID=0003:0000258a:00000150\r\nHID_PHYS=usb-0000:00:14.0-3/input1\r\n";

#[test]
fn ioctl_number() {
    assert_eq!(hidiocsfeature(520), 0xC208_4806);
    assert_eq!(hidiocsfeature(0), 0xC000_4806);
}

#[test]
fn hex_is_lower_case_two_digits() {
    assert_eq!(hex(&[0x00, 0x0F, 0xA5, 0xFF]), "000fa5ff");
    assert_eq!(hex(&[]), "");
}

#[test]
fn format_packet_dongle_and_cable() {
    let payload = [0x41u8, 0, 0, 0xEA, 0x07, 0x03, 0x0A, 0x0E, 0x1E, 0x2D, 0x02, 0, 0, 0];
    assert_eq!(
        format_packet(Protocol::Dongle, &payload),
        "Packet: 130b01000e410000ea07030a0e1e2d02000000c7"
    );
    assert_eq!(
        format_packet(Protocol::UsbCable, &payload),
        "Packet: 090b000001000e00410000ea07030a0e1e2d02000000... (520 bytes)"
    );
}

#[test]
fn sysparam_report_by_protocol() {
    let payload = [1u8; 14];
    match sysparam_report(Protocol::Dongle, &payload) {
        SysparamReport::Output(p) => {
            assert_eq!(p[0], 0x13);
            assert_eq!(p[1], 0x0B);
        }
        SysparamReport::Feature(_) => panic!("dongle uses output reports"),
    }
    match sysparam_report(Protocol::UsbCable, &payload) {
        SysparamReport::Feature(b) => {
            assert_eq!(b[0], 0x09);
            assert_eq!(b[6], 14);
        }
        SysparamReport::Output(_) => panic!("cable uses feature reports"),
    }
}

#[test]
fn ping_packets_and_replies() {
    let pkt = dongle_status_packet();
    assert_eq!(pkt, build_output_report(0x13, CMD_DONGLE_STATUS, &[]));
    assert_eq!(&pkt[..5], &[0x13, 0x07, 0x01, 0x00, 0x00]);
    assert_eq!(pkt[19], 0x13 + 0x07 + 0x01);
    let mut resp = [0u8; 20];
    resp[1] = CMD_DONGLE_STATUS;
    assert!(dongle_status_reply_ok(&Some(resp)));
    resp[1] = CMD_DONGLE_STATUS | 0x80;
    assert!(!dongle_status_reply_ok(&Some(resp)));
    assert!(!dongle_status_reply_ok(&None));
    let probe = probe_report(Protocol::UsbCable);
    assert_eq!(&probe[..10], &[0x09, CMD_ECHO, 0, 0, 1, 0, 2, 0, 0xDE, 0xAD]);
}

#[test]
fn sysparam_replies() {
    assert!(matches!(sysparam_reply(&None), Ok(false)));
    let ack = build_output_report(0x13, 0x0B, &[]);
    assert!(matches!(sysparam_reply(&Some(ack)), Ok(true)));
    // wrong checksum
    let mut bad = ack;
    bad[19] = bad[19].wrapping_add(1);
    assert!(matches!(sysparam_reply(&Some(bad)), Ok(false)));
    // not package 0
    let mut later = build_output_report(0x13, 0x0B, &[]);
    later[3] = 1;
    later[19] = later[19].wrapping_add(1);
    assert!(matches!(sysparam_reply(&Some(later)), Ok(false)));
    // another command echoed
    let other = build_output_report(0x13, 0x0A, &[]);
    assert!(matches!(sysparam_reply(&Some(other)), Ok(false)));
    // error bit
    let mut resp = [0u8; 20];
    resp[1] = 0x8B;
    assert!(matches!(sysparam_reply(&Some(resp)), Err(Error::Crc)));
}

#[test]
fn uevent_protocols() {
    assert_eq!(protocol_from_uevent(USB_UEVENT), Some(Protocol::UsbCable));
    // lower-case hex digits are matched after upper-casing
    assert_eq!(protocol_from_uevent(DONGLE_UEVENT), Some(Protocol::Dongle));
    assert_eq!(protocol_from_uevent("HID_ID=0003:0000046D:0000C52B\n"), None);
}

#[test]
fn detect_vendor_interface_only() {
    let d = detect_device("hidraw3", USB_UEVENT).expect("keyboard interface");
    assert_eq!(d.path, "/dev/hidraw3");
    assert_eq!(d.protocol, Protocol::UsbCable);
    // carriage returns before line feeds are dropped
    let d = detect_device("hidraw5", DONGLE_UEVENT).expect("dongle interface");
    assert_eq!(d.protocol, Protocol::Dongle);
    // interface 0 is not the vendor channel
    let input0 = USB_UEVENT.replace("/input1", "/input0");
    assert!(detect_device("hidraw2", &input0).is_none());
    // the key must start the line
    let moved = USB_UEVENT.replace("HID_PHYS=", "X_HID_PHYS=");
    assert!(detect_device("hidraw2", &moved).is_none());
    // a final line without its line feed still counts
    assert!(detect_device("hidraw4", "HID_ID=0003:0000258A:00000150\nHID_PHYS=x/input1").is_some());
}

#[test]
fn detect_devices_sorts_by_name() {
    let entries = vec![
        ("hidraw2".to_string(), USB_UEVENT.to_string()),
        ("hidraw0".to_string(), "HID_ID=0003:0000046D:0000C52B\n".to_string()),
        ("hidraw1".to_string(), DONGLE_UEVENT.to_string()),
    ];
    let found = detect_devices(&entries);
    let got: Vec<(String, Protocol)> = found.into_iter().map(|d| (d.path, d.protocol)).collect();
    assert_eq!(
        got,
        vec![
            ("/dev/hidraw1".to_string(), Protocol::Dongle),
            ("/dev/hidraw2".to_string(), Protocol::UsbCable)
        ]
    );
}

fn candidates() -> Vec<DetectedDevice> {
    vec![
        manual_candidate("/dev/hidraw1".to_string(), None),
        manual_candidate("/dev/hidraw2".to_string(), Some(Protocol::UsbCable)),
    ]
}

#[test]
fn manual_candidate_defaults_to_dongle() {
    let c = candidates();
    assert_eq!(c[0].protocol, Protocol::Dongle);
    assert_eq!(c[1].protocol, Protocol::UsbCable);
}

#[test]
fn connect_steps() {
    let c = candidates();
    assert_eq!(connect_start(0), ConnectStep::NoDevice);
    assert_eq!(connect_start(2), ConnectStep::Open(0));
    assert_eq!(probe_for(Protocol::Dongle, true), Probe::Skip);
    assert_eq!(connect_next(&c, false, 0, ConnectEvent::Opened), ConnectStep::Probe(0, Probe::Ping));
    assert_eq!(connect_next(&c, true, 0, ConnectEvent::Opened), ConnectStep::Accept(0));
    assert_eq!(connect_next(&c, false, 0, ConnectEvent::ProbeFailed), ConnectStep::Open(1));
    assert_eq!(connect_next(&c, false, 1, ConnectEvent::Opened), ConnectStep::Probe(1, Probe::FeatureReport));
    assert_eq!(connect_next(&c, false, 1, ConnectEvent::ProbePassed), ConnectStep::Accept(1));
    assert_eq!(connect_next(&c, false, 1, ConnectEvent::OpenFailed), ConnectStep::NoDevice);
    assert_eq!(connect_next(&c, false, 0, ConnectEvent::OpenDenied), ConnectStep::Denied(0));
}

#[test]
fn uppercase_text_judged() {
    let upper: Vec<char> = "HID_ID=0003:0000258A:00000150\nHID_PHYS=X/INPUT1\n".chars().collect();
    let text: Vec<char> = "hid_id=0003:0000258a:00000150\nHID_PHYS=x/input1\n".chars().collect();
    assert_eq!(protocol_in_uppercase(&upper), Some(Protocol::Dongle));
    assert_eq!(classify_uevent(&upper, &text), Some(Protocol::Dongle));
    // the interface line is read from the text as it is, not upper-cased
    assert_eq!(classify_uevent(&upper, &upper), None);
    let lower: Vec<char> = text.clone();
    assert_eq!(protocol_in_uppercase(&lower), None);
}

#[test]
fn detect_devices_names_with_common_prefix() {
    let entries = vec![
        ("hidraw10".to_string(), USB_UEVENT.to_string()),
        ("hidraw9".to_string(), DONGLE_UEVENT.to_string()),
        ("hidraw1".to_string(), USB_UEVENT.to_string()),
    ];
    let paths: Vec<String> = detect_devices(&entries).into_iter().map(|d| d.path).collect();
    assert_eq!(paths, vec!["/dev/hidraw1", "/dev/hidraw10", "/dev/hidraw9"]);
}

#[test]
fn detect_devices_keeps_given_order_of_equal_names() {
    let entries = vec![
        ("hidraw4".to_string(), USB_UEVENT.to_string()),
        ("hidraw3".to_string(), USB_UEVENT.to_string()),
        ("hidraw4".to_string(), DONGLE_UEVENT.to_string()),
    ];
    let got: Vec<(String, Protocol)> =
        detect_devices(&entries).into_iter().map(|d| (d.path, d.protocol)).collect();
    assert_eq!(
        got,
        vec![
            ("/dev/hidraw3".to_string(), Protocol::UsbCable),
            ("/dev/hidraw4".to_string(), Protocol::UsbCable),
            ("/dev/hidraw4".to_string(), Protocol::Dongle)
        ]
    );
}

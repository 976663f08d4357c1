use rk_m87_sync::protocol::{
    build_feature_report, build_output_report, build_sysparam_payload, crc, known_devices,
    LocalTime, Protocol, CMD_ECHO, CMD_SYSPARAM, VID,
};

/// 2026-03-10 14:30:45, a Tuesday, as the local clock gives it.
fn example_time() -> LocalTime {
    LocalTime { year: 2026, month: 3, day: 10, hour: 14, minute: 30, second: 45, weekday: 2 }
}

/// Verify against PROTOCOL.md example:
/// 2026-03-10 14:30:45 (Tuesday), volume 65%
#[test]
fn test_sysparam_payload() {
    let expected: [u8; 14] = [
        0x41, // volume 65
        0x00, // cpu
        0x00, // mem
        0xEA, // year low (2026 = 0x07EA)
        0x07, // year high
        0x03, // March
        0x0A, // 10th
        0x0E, // 14 hours
        0x1E, // 30 minutes
        0x2D, // 45 seconds
        0x02, // Tuesday (0=Sun)
        0x00, 0x00, 0x00,
    ];

    let now = example_time();
    let payload = build_sysparam_payload(65, &now);
    assert_eq!(payload, expected);
}

#[test]
fn test_output_report_crc() {
    let payload = [0x41u8, 0, 0, 0xEA, 0x07, 0x03, 0x0A, 0x0E, 0x1E, 0x2D, 0x02, 0, 0, 0];
    let pkt = build_output_report(0x13, CMD_SYSPARAM, &payload);

    assert_eq!(pkt[0], 0x13);
    assert_eq!(pkt[1], CMD_SYSPARAM);
    assert_eq!(pkt[2], 0x01);
    assert_eq!(pkt[3], 0x00);
    assert_eq!(pkt[4], 0x0E); // len=14
    assert_eq!(&pkt[5..19], &payload);
    // CRC = sum of bytes 0..18
    let expected_crc: u8 = pkt[..19].iter().map(|&b| b as u16).sum::<u16>() as u8;
    assert_eq!(pkt[19], expected_crc);
}

#[test]
fn test_feature_report_header() {
    let payload = [0x41u8, 0, 0, 0xEA, 0x07, 0x03, 0x0A, 0x0E, 0x1E, 0x2D, 0x02, 0, 0, 0];
    let buf = build_feature_report(0x09, CMD_SYSPARAM, &payload);

    assert_eq!(buf[0], 0x09);
    assert_eq!(buf[1], CMD_SYSPARAM);
    assert_eq!(buf[2], 0x00); // board
    assert_eq!(buf[3], 0x00); // reserved
    assert_eq!(buf[4], 0x01); // numPackages
    assert_eq!(buf[5], 0x00); // packageIndex
    assert_eq!(buf[6], 0x0E); // len low
    assert_eq!(buf[7], 0x00); // len high
    assert_eq!(&buf[8..22], &payload);
    // Rest should be zero
    assert!(buf[22..].iter().all(|&b| b == 0));
}

#[test]
fn test_echo_ping_packet() {
    let payload = [0x0E, 0xDE, 0xAD];
    let pkt = build_output_report(0x13, CMD_ECHO, &payload);

    assert_eq!(pkt[0], 0x13);
    assert_eq!(pkt[1], CMD_ECHO);
    assert_eq!(pkt[4], 0x03); // meta: len=3
    assert_eq!(pkt[5], 0x0E);
    assert_eq!(pkt[6], 0xDE);
    assert_eq!(pkt[7], 0xAD);
}

#[test]
fn example_packet_from_protocol_doc() {
    let payload = build_sysparam_payload(65, &example_time());
    let pkt = build_output_report(Protocol::Dongle.report_id(), CMD_SYSPARAM, &payload);
    let expected_body: [u8; 19] = [
        0x13, 0x0B, 0x01, 0x00, 0x0E, 0x41, 0x00, 0x00, 0xEA, 0x07, 0x03, 0x0A, 0x0E, 0x1E, 0x2D,
        0x02, 0x00, 0x00, 0x00,
    ];
    assert_eq!(&pkt[..19], &expected_body);
    // 0x13+0x0B+1+0x0E+0x41+0xEA+0x07+3+0x0A+0x0E+0x1E+0x2D+2 = 455 = 0x1C7
    assert_eq!(pkt[19], 0xC7);
    assert_eq!(crc(&pkt), 0xC7);
}

#[test]
fn crc_wraps_modulo_256() {
    let mut pkt = [0xFFu8; 20];
    pkt[19] = 0x55; // the checksum byte itself is not summed
    // 19 * 255 = 4845 = 0x12ED
    assert_eq!(crc(&pkt), 0xED);
    assert_eq!(crc(&[0u8; 20]), 0);
}

#[test]
fn output_report_truncates_long_payload() {
    let payload: Vec<u8> = (1..=20).collect();
    let pkt = build_output_report(0x13, CMD_SYSPARAM, &payload);
    // meta gives the number of payload bytes carried: 14 of the 20
    assert_eq!(pkt[4], 0x0E);
    assert_eq!(&pkt[5..19], &payload[..14]);
    let sum: u16 = pkt[..19].iter().map(|&b| b as u16).sum();
    assert_eq!(pkt[19], sum as u8);
}

#[test]
fn output_report_empty_payload() {
    let pkt = build_output_report(0x13, 0x07, &[]);
    assert_eq!(pkt[4], 0);
    assert!(pkt[5..19].iter().all(|&b| b == 0));
    assert_eq!(pkt[19], 0x13 + 0x07 + 0x01);
}

#[test]
fn feature_report_long_payload() {
    let payload: Vec<u8> = (0..600u32).map(|i| (i % 251) as u8 + 1).collect();
    let buf = build_feature_report(0x09, 0x0C, &payload);
    // length 600 = 0x0258, little-endian
    assert_eq!(buf[6], 0x58);
    assert_eq!(buf[7], 0x02);
    assert_eq!(&buf[8..520], &payload[..512]);
}

#[test]
fn sysparam_payload_year_and_truncation() {
    let t = LocalTime { year: 1999, month: 12, day: 31, hour: 23, minute: 59, second: 59, weekday: 5 };
    let p = build_sysparam_payload(100, &t);
    assert_eq!(p[3] as u16 + 256 * p[4] as u16, 1999);
    assert_eq!(&p[5..11], &[12, 31, 23, 59, 59, 5]);
    assert_eq!(&p[11..], &[0, 0, 0]);
    let t = LocalTime { year: 70000, ..t };
    let p = build_sysparam_payload(0, &t);
    // 70000 mod 65536 = 4464 = 0x1170
    assert_eq!((p[3], p[4]), (0x70, 0x11));
}

#[test]
fn protocol_ids_and_labels() {
    assert_eq!(Protocol::Dongle.report_id(), 0x13);
    assert_eq!(Protocol::UsbCable.report_id(), 0x09);
    assert_eq!(Protocol::Dongle.label(), "2.4 GHz dongle");
    assert_eq!(Protocol::UsbCable.label(), "USB cable");
    assert_eq!(VID, 0x258A);
    assert_eq!(known_devices(), vec![(0x0150, Protocol::Dongle), (0x01A2, Protocol::UsbCable)]);
}

//! Packet formats of the keyboard: the 14-byte SysParam payload, the 20-byte
//! output report of the 2.4 GHz dongle and the 520-byte feature report of the
//! USB cable.
use vstd::prelude::*;

verus! {

/// USB vendor id of the keyboard.
pub const VID: u16 = 0x258A;

/// Command id of the echo (liveness) request.
pub const CMD_ECHO: u8 = 0x09;

/// Command id of GetDongleStatus, the dongle's liveness request.
pub const CMD_DONGLE_STATUS: u8 = 0x07;

/// Command id of SetScreenParam, which carries the SysParam payload.
pub const CMD_SYSPARAM: u8 = 0x0B;

/// How the keyboard is attached.
#[derive(Clone, Copy, Debug, PartialEq, Eq, Structural)]
pub enum Protocol {
    /// 2.4 GHz dongle: 20-byte output reports with a checksum.
    Dongle,
    /// USB cable: 520-byte feature reports.
    UsbCable,
}

pub open spec fn spec_report_id(p: Protocol) -> u8 {
    match p {
        Protocol::Dongle => 0x13,
        Protocol::UsbCable => 0x09,
    }
}

impl Protocol {
    pub fn report_id(self) -> (id: u8)
        ensures
            id == spec_report_id(self),
    {
        match self {
            Protocol::Dongle => 0x13,
            Protocol::UsbCable => 0x09,
        }
    }

    pub fn label(self) -> (s: &'static str)
        ensures
            self == Protocol::Dongle ==> s@ == "2.4 GHz dongle"@,
            self == Protocol::UsbCable ==> s@ == "USB cable"@,
    {
        match self {
            Protocol::Dongle => "2.4 GHz dongle",
            Protocol::UsbCable => "USB cable",
        }
    }
}

/// The known USB product ids, in the order in which they are tried.
pub open spec fn spec_known_devices() -> Seq<(u16, Protocol)> {
    seq![(0x0150u16, Protocol::Dongle), (0x01A2u16, Protocol::UsbCable)]
}

/// Known USB PIDs and their protocols.
pub fn known_devices() -> (v: Vec<(u16, Protocol)>)
    ensures
        v@ == spec_known_devices(),
{
    let v = vec![(0x0150u16, Protocol::Dongle), (0x01A2u16, Protocol::UsbCable)];
    assert(v@ =~= spec_known_devices());
    v
}

/// A local calendar date and time of day, each field as plain numbers.
#[derive(Clone, Copy, Debug, PartialEq, Eq, Structural)]
pub struct LocalTime {
    pub year: i32,
    /// 1 to 12.
    pub month: u32,
    /// 1 to 31.
    pub day: u32,
    pub hour: u32,
    pub minute: u32,
    pub second: u32,
    /// Days since Sunday: 0 for Sunday to 6 for Saturday.
    pub weekday: u32,
}

/// The SysParam payload: volume, two unused bytes (CPU and memory), the year as
/// a 16-bit little-endian number, month, day, hour, minute, second, day of the
/// week, and three bytes of padding. Each field is cut to its low byte(s).
pub open spec fn sysparam_payload(volume: u8, t: LocalTime) -> Seq<u8> {
    let year = t.year as u16;
    seq![
        volume,
        0u8,
        0u8,
        (year % 256) as u8,
        (year / 256) as u8,
        (t.month % 256) as u8,
        (t.day % 256) as u8,
        (t.hour % 256) as u8,
        (t.minute % 256) as u8,
        (t.second % 256) as u8,
        (t.weekday % 256) as u8,
        0u8,
        0u8,
        0u8,
    ]
}

/// Build the 14-byte SysParam payload (shared between both protocols).
pub fn build_sysparam_payload(volume: u8, now: &LocalTime) -> (payload: [u8; 14])
    ensures
        payload@ == sysparam_payload(volume, *now),
{
    let year = now.year as u16;
    let dow = now.weekday as u8;
    let mut payload = [0u8;14];
    payload[0] = volume;
    payload[3] = (year & 0xFF) as u8;
    payload[4] = (year >> 8) as u8;
    payload[5] = now.month as u8;
    payload[6] = now.day as u8;
    payload[7] = now.hour as u8;
    payload[8] = now.minute as u8;
    payload[9] = now.second as u8;
    payload[10] = dow;
    proof {
        let (m, d, h, mi, s, w) = (now.month, now.day, now.hour, now.minute, now.second, now.weekday);
        assert((year & 0xFF) as u8 == (year % 256) as u8) by (bit_vector);
        assert((year >> 8) as u8 == (year / 256) as u8) by (bit_vector);
        assert(m as u8 == (m % 256) as u8) by (bit_vector);
        assert(d as u8 == (d % 256) as u8) by (bit_vector);
        assert(h as u8 == (h % 256) as u8) by (bit_vector);
        assert(mi as u8 == (mi % 256) as u8) by (bit_vector);
        assert(s as u8 == (s % 256) as u8) by (bit_vector);
        assert(w as u8 == (w % 256) as u8) by (bit_vector);
        assert(payload@ =~= sysparam_payload(volume, *now));
    }
    payload
}

/// The year is sent as a 16-bit little-endian number: the two year bytes of a
/// payload give back the year modulo 2^16.
pub proof fn law_year_little_endian(volume: u8, t: LocalTime)
    ensures
        sysparam_payload(volume, t)[3] + 256 * sysparam_payload(volume, t)[4] == t.year as u16,
{
}

/// The layout of the SysParam payload: fourteen bytes; the volume, unchanged,
/// in byte 0; zero CPU and memory bytes; month, day, hour, minute, second and
/// day of the week in bytes 5 to 10, each cut to its low byte; zero padding.
pub proof fn law_sysparam_layout(volume: u8, t: LocalTime)
    ensures
        sysparam_payload(volume, t).len() == 14,
        sysparam_payload(volume, t)[0] == volume,
        sysparam_payload(volume, t)[1] == 0,
        sysparam_payload(volume, t)[2] == 0,
        sysparam_payload(volume, t)[5] == t.month % 256,
        sysparam_payload(volume, t)[6] == t.day % 256,
        sysparam_payload(volume, t)[7] == t.hour % 256,
        sysparam_payload(volume, t)[8] == t.minute % 256,
        sysparam_payload(volume, t)[9] == t.second % 256,
        sysparam_payload(volume, t)[10] == t.weekday % 256,
        sysparam_payload(volume, t)[11] == 0,
        sysparam_payload(volume, t)[12] == 0,
        sysparam_payload(volume, t)[13] == 0,
{
}

/// Sum of the bytes of `s`.
pub open spec fn byte_sum(s: Seq<u8>) -> nat
    decreases s.len(),
{
    if s.len() == 0 {
        0
    } else {
        byte_sum(s.drop_last()) + s.last() as nat
    }
}

/// The packet checksum: the sum of bytes 0 to 18, modulo 256.
pub open spec fn checksum(packet: Seq<u8>) -> u8 {
    (byte_sum(packet.take(19)) % 256) as u8
}

/// CRC: sum of bytes 0..19 masked to 8 bits.
pub fn crc(packet: &[u8; 20]) -> (c: u8)
    ensures
        c == checksum(packet@),
{
    let mut sum: u16 = 0;
    let mut i: usize = 0;
    while i < 19
        invariant
            i <= 19,
            packet@.len() == 20,
            sum == byte_sum(packet@.take(i as int)),
            sum <= 255 * i,
        decreases 19 - i,
    {
        assert(packet@.take(i + 1).drop_last() =~= packet@.take(i as int));
        sum = sum + packet[i] as u16;
        i = i + 1;
    }
    proof {
        assert(sum as u8 == (sum % 256) as u8) by (bit_vector);
    }
    sum as u8
}

/// Bytes 0 to 18 of an output report: report id, command id, one package,
/// package index 0, the meta byte (board 0 in the high bits, the number of
/// payload bytes that the packet carries, at most 14, in the low bits), then
/// those payload bytes, zero-padded.
pub open spec fn output_report_body(report_id: u8, cmd_id: u8, payload: Seq<u8>) -> Seq<u8> {
    Seq::new(
        19,
        |i: int|
            if i == 0 {
                report_id
            } else if i == 1 {
                cmd_id
            } else if i == 2 {
                1u8
            } else if i == 3 {
                0u8
            } else if i == 4 {
                (if payload.len() < 14 {
                    payload.len()
                } else {
                    14
                }) as u8
            } else if i - 5 < payload.len() {
                payload[i - 5]
            } else {
                0u8
            },
    )
}

/// A 20-byte output report: the body followed by its checksum.
pub open spec fn output_report(report_id: u8, cmd_id: u8, payload: Seq<u8>) -> Seq<u8> {
    let body = output_report_body(report_id, cmd_id, payload);
    body.push((byte_sum(body) % 256) as u8)
}

/// Build a 20-byte CDev3632 output report packet.
pub fn build_output_report(report_id: u8, cmd_id: u8, payload: &[u8]) -> (pkt: [u8; 20])
    ensures
        pkt@ == output_report(report_id, cmd_id, payload@),
{
    let mut pkt = [0u8;20];
    pkt[0] = report_id;
    pkt[1] = cmd_id;
    pkt[2] = 0x01;
    pkt[3] = 0x00;
    let len = payload.len();
    let n = if len < 14 {
        len
    } else {
        14
    };
    // meta: (board 0 << 4) | the number of payload bytes carried
    pkt[4] = n as u8;
    let mut i: usize = 0;
    while i < n
        invariant
            n <= 14,
            n == if payload@.len() < 14 { payload@.len() } else { 14 },
            i <= n,
            pkt@.len() == 20,
            forall|k: int|
                0 <= k < 19 && k < 5 + i ==> pkt@[k] == output_report_body(
                    report_id,
                    cmd_id,
                    payload@,
                )[k],
            forall|k: int| 5 + i <= k < 20 ==> pkt@[k] == 0,
        decreases n - i,
    {
        pkt[5 + i] = payload[i];
        i = i + 1;
    }
    let ghost body = output_report_body(report_id, cmd_id, payload@);
    assert(pkt@.take(19) =~= body);
    pkt[19] = crc(&pkt);
    assert(pkt@ =~= output_report(report_id, cmd_id, payload@));
    pkt
}

/// Every output report carries a valid checksum in its last byte.
pub proof fn law_output_report_checksum(report_id: u8, cmd_id: u8, payload: Seq<u8>)
    ensures
        output_report(report_id, cmd_id, payload).len() == 20,
        checksum(output_report(report_id, cmd_id, payload)) == output_report(
            report_id,
            cmd_id,
            payload,
        )[19],
{
    let body = output_report_body(report_id, cmd_id, payload);
    assert(output_report(report_id, cmd_id, payload).take(19) =~= body);
}

/// The layout of an output report: twenty bytes; report id, command id, one
/// package, package index 0; the number of payload bytes carried, at most 14;
/// those bytes unchanged; zeros up to byte 18; the checksum in byte 19.
pub proof fn law_output_report_layout(report_id: u8, cmd_id: u8, payload: Seq<u8>)
    ensures
        output_report(report_id, cmd_id, payload).len() == 20,
        output_report(report_id, cmd_id, payload)[0] == report_id,
        output_report(report_id, cmd_id, payload)[1] == cmd_id,
        output_report(report_id, cmd_id, payload)[2] == 1,
        output_report(report_id, cmd_id, payload)[3] == 0,
        payload.len() <= 14 ==> output_report(report_id, cmd_id, payload)[4] == payload.len(),
        payload.len() > 14 ==> output_report(report_id, cmd_id, payload)[4] == 14,
        forall|i: int|
            0 <= i < payload.len() && i < 14 ==> #[trigger] output_report(
                report_id,
                cmd_id,
                payload,
            )[5 + i] == payload[i],
        forall|i: int|
            5 + payload.len() <= i < 19 ==> #[trigger] output_report(report_id, cmd_id, payload)[i]
                == 0,
        output_report(report_id, cmd_id, payload)[19] == checksum(
            output_report(report_id, cmd_id, payload),
        ),
{
    law_output_report_checksum(report_id, cmd_id, payload);
}

/// A 520-byte feature report: report id, command id, board 0, a reserved zero,
/// one package, package index 0, the payload length as 16-bit little-endian
/// (modulo 2^16), then at most 512 payload bytes, zero-padded.
pub open spec fn feature_report(report_id: u8, cmd_id: u8, payload: Seq<u8>) -> Seq<u8> {
    Seq::new(
        520,
        |i: int|
            if i == 0 {
                report_id
            } else if i == 1 {
                cmd_id
            } else if i == 2 || i == 3 || i == 5 {
                0u8
            } else if i == 4 {
                1u8
            } else if i == 6 {
                (payload.len() % 256) as u8
            } else if i == 7 {
                ((payload.len() / 256) % 256) as u8
            } else if i - 8 < payload.len() {
                payload[i - 8]
            } else {
                0u8
            },
    )
}

/// The layout of a feature report: 520 bytes; report id, command id, board 0,
/// a reserved zero, one package, package index 0; the payload length as a
/// 16-bit little-endian number; at most 512 payload bytes unchanged; zeros.
pub proof fn law_feature_report_layout(report_id: u8, cmd_id: u8, payload: Seq<u8>)
    ensures
        feature_report(report_id, cmd_id, payload).len() == 520,
        feature_report(report_id, cmd_id, payload)[0] == report_id,
        feature_report(report_id, cmd_id, payload)[1] == cmd_id,
        feature_report(report_id, cmd_id, payload)[2] == 0,
        feature_report(report_id, cmd_id, payload)[3] == 0,
        feature_report(report_id, cmd_id, payload)[4] == 1,
        feature_report(report_id, cmd_id, payload)[5] == 0,
        feature_report(report_id, cmd_id, payload)[6] + 256 * feature_report(
            report_id,
            cmd_id,
            payload,
        )[7] == payload.len() % 65536,
        forall|i: int|
            0 <= i < payload.len() && i < 512 ==> #[trigger] feature_report(
                report_id,
                cmd_id,
                payload,
            )[8 + i] == payload[i],
        forall|i: int|
            8 + payload.len() <= i < 520 ==> #[trigger] feature_report(report_id, cmd_id, payload)[i]
                == 0,
{
    let n = payload.len();
    assert((n % 256) + 256 * ((n / 256) % 256) == n % 65536) by (nonlinear_arith);
}

/// The volume reaches the keyboard unchanged: it is the first payload byte of
/// the SysParam packet of either connection.
pub proof fn law_volume_in_packet(volume: u8, t: LocalTime)
    ensures
        output_report(0x13, CMD_SYSPARAM, sysparam_payload(volume, t))[5] == volume,
        feature_report(0x09, CMD_SYSPARAM, sysparam_payload(volume, t))[8] == volume,
{
}

/// Build a 520-byte CDevG5KB feature report buffer.
pub fn build_feature_report(report_id: u8, cmd_id: u8, payload: &[u8]) -> (buf: [u8; 520])
    ensures
        buf@ == feature_report(report_id, cmd_id, payload@),
{
    let mut buf = [0u8;520];
    buf[0] = report_id;
    buf[1] = cmd_id;
    buf[2] = 0x00;
    buf[3] = 0x00;
    buf[4] = 0x01;
    buf[5] = 0x00;
    let len = payload.len();
    buf[6] = (len & 0xFF) as u8;
    buf[7] = ((len >> 8) & 0xFF) as u8;
    proof {
        assert((len & 0xFF) as u8 == (len % 256) as u8) by (bit_vector);
        assert(((len >> 8) & 0xFF) as u8 == ((len / 256) % 256) as u8) by (bit_vector);
    }
    let n = if len < 512 {
        len
    } else {
        512
    };
    let mut i: usize = 0;
    while i < n
        invariant
            n == if payload@.len() < 512 { payload@.len() } else { 512 },
            i <= n,
            buf@.len() == 520,
            forall|k: int|
                0 <= k < 8 + i ==> buf@[k] == feature_report(report_id, cmd_id, payload@)[k],
            forall|k: int| 8 + i <= k < 520 ==> buf@[k] == 0,
        decreases n - i,
    {
        buf[8 + i] = payload[i];
        i = i + 1;
    }
    assert(buf@ =~= feature_report(report_id, cmd_id, payload@));
    buf
}

} // verus!

//! Talking to the keyboard over hidraw: which packets go out, how answers are
//! judged, how devices are recognised and which candidate is connected.
use vstd::prelude::*;
use vstd::slice::slice_subrange;

use crate::error::Error;
use crate::protocol::{
    build_feature_report, build_output_report, checksum, crc, feature_report, known_devices, output_report,
    spec_known_devices, spec_report_id, Protocol, CMD_DONGLE_STATUS, CMD_ECHO, CMD_SYSPARAM, VID,
};

verus! {

/// Trait abstracting keyboard HID sends (for testing with mocks).
pub trait KeyboardSink {
    /// Sends a SysParam payload; `Ok(true)` when the keyboard acknowledged it.
    fn send_sysparam(&self, payload: &[u8; 14]) -> Result<bool, Error>;
}

/// The ioctl request number of HIDIOCSFEATURE for a buffer of `size` bytes:
/// direction read and write (3) in bits 30-31, the size from bit 16, the type
/// `'H'` in bits 8-15 and the number 6.
pub fn hidiocsfeature(size: usize) -> (req: u64)
    ensures
        req == (3u64 << 30u64) | ((size as u64) << 16u64) | (0x48u64 << 8u64) | 6u64,
        size < 0x4000 ==> req == 0xC000_4806 + size * 0x10000,
{
    let s = size as u64;
    let ioc_read_write: u64 = 3;
    let ioc_type: u64 = 0x48;
    let req = (ioc_read_write << 30u64) | (s << 16u64) | (ioc_type << 8u64) | 0x06u64;
    proof {
        assert(s < 0x4000 ==> (3u64 << 30u64) | (s << 16u64) | (0x48u64 << 8u64) | 6u64
            == 0xC000_4806 + s * 0x10000) by (bit_vector);
    }
    req
}

/// The lower-case hexadecimal digit of `n < 16`.
pub open spec fn hex_digit_lower(n: nat) -> char {
    if n < 10 {
        (n + 48) as char
    } else {
        (n + 87) as char
    }
}

/// Two lower-case hexadecimal digits per byte, most significant first.
pub open spec fn hex_lower(bytes: Seq<u8>) -> Seq<char>
    decreases bytes.len(),
{
    if bytes.len() == 0 {
        seq![]
    } else {
        hex_lower(bytes.drop_last()) + seq![
            hex_digit_lower(bytes.last() as nat / 16),
            hex_digit_lower(bytes.last() as nat % 16),
        ]
    }
}

/// Each digit is the character of its value: `0` to `9`, then `a` to `f`.
pub proof fn law_hex_digit(n: nat)
    requires
        n < 16,
    ensures
        n < 10 ==> hex_digit_lower(n) as nat == '0' as nat + n,
        n >= 10 ==> hex_digit_lower(n) as nat == 'a' as nat + (n - 10),
{
}

/// One byte is written as two digits, the high half first.
pub proof fn law_hex_byte(b: u8)
    ensures
        hex_lower(seq![b]) == seq![hex_digit_lower(b as nat / 16), hex_digit_lower(b as nat % 16)],
{
    assert(seq![b].drop_last() =~= Seq::<u8>::empty());
    assert(hex_lower(Seq::<u8>::empty()) =~= Seq::<char>::empty());
    assert(Seq::<char>::empty() + seq![
        hex_digit_lower(b as nat / 16),
        hex_digit_lower(b as nat % 16),
    ] =~= seq![hex_digit_lower(b as nat / 16), hex_digit_lower(b as nat % 16)]);
}

/// Bytes are written one after the other: the text of two byte strings in a
/// row is the text of the first followed by the text of the second.
pub proof fn law_hex_concat(a: Seq<u8>, b: Seq<u8>)
    ensures
        hex_lower(a + b) == hex_lower(a) + hex_lower(b),
    decreases b.len(),
{
    if b.len() == 0 {
        assert(a + b =~= a);
        assert(hex_lower(a) + hex_lower(b) =~= hex_lower(a));
    } else {
        law_hex_concat(a, b.drop_last());
        assert((a + b).drop_last() =~= a + b.drop_last());
        assert((a + b).last() == b.last());
        let pair = seq![hex_digit_lower(b.last() as nat / 16), hex_digit_lower(b.last() as nat % 16)];
        assert(hex_lower(a) + hex_lower(b.drop_last()) + pair =~= hex_lower(a) + (hex_lower(
            b.drop_last(),
        ) + pair));
    }
}

/// The hexadecimal text of a byte string has two characters per byte.
pub proof fn law_hex_length(bytes: Seq<u8>)
    ensures
        hex_lower(bytes).len() == 2 * bytes.len(),
    decreases bytes.len(),
{
    if bytes.len() > 0 {
        law_hex_length(bytes.drop_last());
    }
}

fn lower_digit(n: u8) -> (s: &'static str)
    requires
        n < 16,
    ensures
        s@ == seq![hex_digit_lower(n as nat)],
{
    let digits = "0123456789abcdef";
    proof {
        reveal_strlit("0123456789abcdef");
    }
    let s = digits.substring_ascii(n as usize, n as usize + 1);
    assert(s@ =~= seq![hex_digit_lower(n as nat)]);
    s
}

/// Lower-case hexadecimal text of `bytes`, two digits per byte.
pub fn hex(bytes: &[u8]) -> (s: String)
    ensures
        s@ == hex_lower(bytes@),
{
    let mut s = String::new();
    let mut i: usize = 0;
    while i < bytes.len()
        invariant
            i <= bytes@.len(),
            s@ == hex_lower(bytes@.take(i as int)),
        decreases bytes.len() - i,
    {
        let b = bytes[i];
        let hi = b >> 4u8;
        let lo = b & 0x0Fu8;
        proof {
            assert(b >> 4u8 == b / 16) by (bit_vector);
            assert(b & 0x0Fu8 == b % 16) by (bit_vector);
            assert(bytes@.take(i + 1).drop_last() =~= bytes@.take(i as int));
        }
        s.append(lower_digit(hi));
        s.append(lower_digit(lo));
        i = i + 1;
    }
    assert(bytes@.take(bytes@.len() as int) =~= bytes@);
    s
}

/// A SysParam packet, in the form that the connection takes.
pub enum SysparamReport {
    /// A 20-byte output report (dongle).
    Output([u8; 20]),
    /// A 520-byte feature report (USB cable).
    Feature([u8; 520]),
}

/// The packet that carries `payload` over a connection of kind `protocol`.
pub fn sysparam_report(protocol: Protocol, payload: &[u8; 14]) -> (r: SysparamReport)
    ensures
        match protocol {
            Protocol::Dongle => r matches SysparamReport::Output(p) && p@ == output_report(
                0x13,
                CMD_SYSPARAM,
                payload@,
            ),
            Protocol::UsbCable => r matches SysparamReport::Feature(p) && p@ == feature_report(
                0x09,
                CMD_SYSPARAM,
                payload@,
            ),
        },
{
    match protocol {
        Protocol::Dongle => SysparamReport::Output(
            build_output_report(protocol.report_id(), CMD_SYSPARAM, payload.as_slice()),
        ),
        Protocol::UsbCable => SysparamReport::Feature(
            build_feature_report(protocol.report_id(), CMD_SYSPARAM, payload.as_slice()),
        ),
    }
}

/// Text of the SysParam packet for `payload`: the whole output report of the
/// dongle, or the first 22 bytes of the feature report of the USB cable.
pub open spec fn packet_text(protocol: Protocol, payload: Seq<u8>) -> Seq<char> {
    match protocol {
        Protocol::Dongle => "Packet: "@ + hex_lower(output_report(0x13, CMD_SYSPARAM, payload)),
        Protocol::UsbCable => "Packet: "@ + hex_lower(
            feature_report(0x09, CMD_SYSPARAM, payload).take(22),
        ) + "... (520 bytes)"@,
    }
}

/// Format the packet for display (verbose one-shot mode).
pub fn format_packet(protocol: Protocol, payload: &[u8; 14]) -> (s: String)
    ensures
        s@ == packet_text(protocol, payload@),
{
    let mut s = String::from_str("Packet: ");
    match sysparam_report(protocol, payload) {
        SysparamReport::Output(pkt) => {
            let h = hex(pkt.as_slice());
            s.append(h.as_str());
        },
        SysparamReport::Feature(buf) => {
            let head = slice_subrange(buf.as_slice(), 0, 22);
            let h = hex(head);
            s.append(h.as_str());
            s.append("... (520 bytes)");
        },
    }
    s
}

/// The liveness request of the dongle: GetDongleStatus with an empty payload, a
/// plain read that changes nothing on the keyboard.
pub fn dongle_status_packet() -> (pkt: [u8; 20])
    ensures
        pkt@ == output_report(0x13, CMD_DONGLE_STATUS, seq![]),
{
    let payload: [u8; 0] = [];
    let pkt = build_output_report(0x13, CMD_DONGLE_STATUS, payload.as_slice());
    assert(payload@ =~= Seq::<u8>::empty());
    pkt
}

/// Whether the answer to the liveness request shows a live keyboard: any answer
/// without the error bit does.
pub fn dongle_status_reply_ok(resp: &Option<[u8; 20]>) -> (ok: bool)
    ensures
        ok == (resp matches Some(p) && p@[1] & 0x80 == 0),
{
    match resp {
        None => false,
        Some(p) => p[1] & 0x80 == 0,
    }
}

/// The feature report that checks that a USB cable connection accepts reports.
pub fn probe_report(protocol: Protocol) -> (buf: [u8; 520])
    ensures
        buf@ == feature_report(spec_report_id(protocol), CMD_ECHO, seq![0xDEu8, 0xADu8]),
{
    let payload = [0xDEu8, 0xAD];
    let buf = build_feature_report(protocol.report_id(), CMD_ECHO, payload.as_slice());
    assert(payload@ =~= seq![0xDEu8, 0xADu8]);
    buf
}

/// What the dongle's answer to a SysParam packet means: an answer with the
/// error bit is a checksum error; an answer that echoes SetScreenParam as
/// package 0 (the request is a single package) and carries a valid checksum is
/// an acknowledgement; no answer, or any other answer, is a missed
/// acknowledgement.
pub fn sysparam_reply(resp: &Option<[u8; 20]>) -> (r: Result<bool, Error>)
    ensures
        resp is None ==> r matches Ok(false),
        resp matches Some(p) ==> (if p@[1] & 0x80 != 0 {
            r matches Err(Error::Crc)
        } else if p@[1] & 0x7F == CMD_SYSPARAM && p@[3] == 0 && p@[19] == checksum(p@) {
            r matches Ok(true)
        } else {
            r matches Ok(false)
        }),
{
    match resp {
        None => Ok(false),
        Some(p) => if p[1] & 0x80 != 0 {
            Err(Error::Crc)
        } else if p[1] & 0x7F == CMD_SYSPARAM && p[3] == 0 && p[19] == crc(p) {
            Ok(true)
        } else {
            Ok(false)
        },
    }
}

/// What `str::to_uppercase` gives for a text (Unicode upper-case mapping).
pub uninterp spec fn uppercase(s: Seq<char>) -> Seq<char>;

/// Calls `str::to_uppercase`; claims only that the result is a function of the
/// text alone, named `uppercase`.
#[verifier::external_body]
fn to_uppercase(s: &str) -> (r: String)
    ensures
        r@ == uppercase(s@),
{
    s.to_uppercase()
}

/// The characters of `s`, one per element.
fn chars_of(s: &str) -> (v: Vec<char>)
    ensures
        v@ == s@,
{
    let n = s.unicode_len();
    let mut v: Vec<char> = Vec::new();
    let mut i: usize = 0;
    while i < n
        invariant
            n == s@.len(),
            i <= n,
            v@ == s@.take(i as int),
        decreases n - i,
    {
        v.push(s.get_char(i));
        i = i + 1;
    }
    assert(v@ =~= s@);
    v
}

/// `needle` occurs in `hay` at position `i`.
pub open spec fn occurs_at(hay: Seq<char>, needle: Seq<char>, i: int) -> bool {
    0 <= i && i + needle.len() <= hay.len() && hay.subrange(i, i + needle.len()) == needle
}

/// `needle` occurs somewhere in `hay` (the empty text occurs everywhere).
pub open spec fn contains(hay: Seq<char>, needle: Seq<char>) -> bool {
    exists|i: int| #[trigger] occurs_at(hay, needle, i)
}

fn occurs_at_exec(hay: &Vec<char>, needle: &Vec<char>, i: usize) -> (r: bool)
    requires
        i + needle@.len() <= hay@.len(),
    ensures
        r == occurs_at(hay@, needle@, i as int),
{
    let mut k: usize = 0;
    while k < needle.len()
        invariant
            i + needle@.len() <= hay@.len(),
            hay@.len() == hay.len(),
            k <= needle@.len(),
            forall|j: int| 0 <= j < k ==> hay@[i + j] == needle@[j],
        decreases needle.len() - k,
    {
        if hay[i + k] != needle[k] {
            assert(hay@.subrange(i as int, i + needle@.len())[k as int] != needle@[k as int]);
            return false;
        }
        k = k + 1;
    }
    assert(hay@.subrange(i as int, i + needle@.len()) =~= needle@);
    true
}

/// Whether `needle` occurs in `hay`.
fn contains_exec(hay: &Vec<char>, needle: &Vec<char>) -> (r: bool)
    ensures
        r == contains(hay@, needle@),
{
    if needle.len() == 0 {
        assert(hay@.subrange(0, 0) =~= needle@);
        assert(occurs_at(hay@, needle@, 0));
        return true;
    }
    if needle.len() > hay.len() {
        assert forall|j: int| !occurs_at(hay@, needle@, j) by {}
        return false;
    }
    let end = hay.len() - needle.len() + 1;
    let mut i: usize = 0;
    while i < end
        invariant
            end + needle@.len() == hay@.len() + 1,
            i <= end,
            forall|j: int| 0 <= j < i ==> !occurs_at(hay@, needle@, j),
        decreases end - i,
    {
        if occurs_at_exec(hay, needle, i) {
            return true;
        }
        i = i + 1;
    }
    assert forall|j: int| !occurs_at(hay@, needle@, j) by {
        if 0 <= j < end {
        }
    }
    false
}

/// The upper-case hexadecimal digit of `n < 16`.
pub open spec fn hex_digit_upper(n: nat) -> char {
    if n < 10 {
        (n + 48) as char
    } else {
        (n + 55) as char
    }
}

/// The last `width` upper-case hexadecimal digits of `v`, zero-padded.
pub open spec fn hex_upper(v: nat, width: nat) -> Seq<char>
    decreases width,
{
    if width == 0 {
        seq![]
    } else {
        hex_upper(v / 16, (width - 1) as nat).push(hex_digit_upper(v % 16))
    }
}

fn upper_digit(n: u32) -> (c: char)
    requires
        n < 16,
    ensures
        c == hex_digit_upper(n as nat),
{
    let digits = "0123456789ABCDEF";
    proof {
        reveal_strlit("0123456789ABCDEF");
    }
    digits.get_char(n as usize)
}

fn hex_upper_exec(v: u32, width: usize) -> (r: Vec<char>)
    ensures
        r@ == hex_upper(v as nat, width as nat),
    decreases width,
{
    if width == 0 {
        Vec::new()
    } else {
        let mut r = hex_upper_exec(v / 16, width - 1);
        r.push(upper_digit(v % 16));
        r
    }
}

/// The text `VVVVVVVV:PPPPPPPP` that a uevent holds for the keyboard's vendor id
/// and product id `pid`, each as eight upper-case hexadecimal digits.
pub open spec fn device_needle(pid: u16) -> Seq<char> {
    hex_upper(VID as nat, 8) + seq![':'] + hex_upper(pid as nat, 8)
}

fn device_needle_exec(pid: u16) -> (r: Vec<char>)
    ensures
        r@ == device_needle(pid),
{
    let mut r = hex_upper_exec(VID as u32, 8);
    r.push(':');
    let mut p = hex_upper_exec(pid as u32, 8);
    r.append(&mut p);
    r
}

/// The protocol of the first known product whose vendor and product ids occur
/// in `upper`.
pub open spec fn first_known_match(upper: Seq<char>, known: Seq<(u16, Protocol)>) -> Option<
    Protocol,
>
    decreases known.len(),
{
    if known.len() == 0 {
        None
    } else if contains(upper, device_needle(known[0].0)) {
        Some(known[0].1)
    } else {
        first_known_match(upper, known.drop_first())
    }
}

/// The protocol that a uevent text names, if any: the first known product
/// whose ids occur in the upper-cased text.
pub open spec fn uevent_protocol(uevent: Seq<char>) -> Option<Protocol> {
    first_known_match(uppercase(uevent), spec_known_devices())
}

/// The protocol that an upper-cased uevent text names: the first known product
/// whose vendor and product ids occur in it.
pub fn protocol_in_uppercase(upper: &Vec<char>) -> (p: Option<Protocol>)
    ensures
        p == first_known_match(upper@, spec_known_devices()),
{
    let known = known_devices();
    assert(known@.skip(0) =~= known@);
    let mut i: usize = 0;
    while i < known.len()
        invariant
            known@ == spec_known_devices(),
            i <= known@.len(),
            first_known_match(upper@, spec_known_devices()) == first_known_match(
                upper@,
                known@.skip(i as int),
            ),
        decreases known.len() - i,
    {
        let (pid, proto) = known[i];
        let needle = device_needle_exec(pid);
        assert(known@.skip(i as int)[0] == known@[i as int]);
        assert(known@.skip(i as int).drop_first() =~= known@.skip(i + 1));
        if contains_exec(upper, &needle) {
            return Some(proto);
        }
        i = i + 1;
    }
    assert(known@.skip(i as int).len() == 0);
    None
}

/// Look up the protocol named by the uevent text of a hidraw device.
pub fn protocol_from_uevent(uevent: &str) -> (p: Option<Protocol>)
    ensures
        p == uevent_protocol(uevent@),
{
    let upper = to_uppercase(uevent);
    let chars = chars_of(upper.as_str());
    protocol_in_uppercase(&chars)
}

/// `HID_PHYS=`, the key of the line that names a HID interface's physical path.
pub open spec fn hid_phys_key() -> Seq<char> {
    seq!['H', 'I', 'D', '_', 'P', 'H', 'Y', 'S', '=']
}

/// `/input1`, the end of the physical path of interface 1 (the vendor channel).
pub open spec fn input1_suffix() -> Seq<char> {
    seq!['/', 'i', 'n', 'p', 'u', 't', '1']
}

pub open spec fn starts_with(s: Seq<char>, p: Seq<char>) -> bool {
    p.len() <= s.len() && s.take(p.len() as int) == p
}

pub open spec fn ends_with(s: Seq<char>, p: Seq<char>) -> bool {
    p.len() <= s.len() && s.skip(s.len() - p.len()) == p
}

/// `s[a..b]` is a line of `s` as `str::lines` yields it: it starts the text or
/// follows a line feed, holds no line feed, and ends the text or a line feed
/// follows it. A line feed at the very end starts no further line.
pub open spec fn is_line(s: Seq<char>, a: int, b: int) -> bool {
    &&& 0 <= a < s.len()
    &&& a <= b <= s.len()
    &&& (a == 0 || s[a - 1] == '\n')
    &&& forall|k: int| a <= k < b ==> s[k] != '\n'
    &&& (b == s.len() || s[b] == '\n')
}

/// The text of the line `s[a..b]`: a carriage return before its line feed is dropped.
pub open spec fn line_text(s: Seq<char>, a: int, b: int) -> Seq<char> {
    if b < s.len() && a < b && s[b - 1] == '\r' {
        s.subrange(a, b - 1)
    } else {
        s.subrange(a, b)
    }
}

pub open spec fn is_interface_line(t: Seq<char>) -> bool {
    starts_with(t, hid_phys_key()) && ends_with(t, input1_suffix())
}

/// The uevent text names interface 1, the keyboard's vendor configuration channel.
pub open spec fn is_vendor_interface(s: Seq<char>) -> bool {
    exists|a: int, b: int| #[trigger] is_line(s, a, b) && is_interface_line(line_text(s, a, b))
}

fn copy_range(s: &Vec<char>, a: usize, b: usize) -> (r: Vec<char>)
    requires
        a <= b <= s@.len(),
    ensures
        r@ == s@.subrange(a as int, b as int),
{
    let mut r: Vec<char> = Vec::new();
    let mut k = a;
    while k < b
        invariant
            a <= k <= b <= s@.len(),
            r@ == s@.subrange(a as int, k as int),
        decreases b - k,
    {
        r.push(s[k]);
        k = k + 1;
    }
    r
}

fn starts_with_exec(s: &Vec<char>, p: &Vec<char>) -> (r: bool)
    ensures
        r == starts_with(s@, p@),
{
    if p.len() > s.len() {
        return false;
    }
    let mut k: usize = 0;
    while k < p.len()
        invariant
            p@.len() <= s@.len(),
            k <= p@.len(),
            forall|j: int| 0 <= j < k ==> s@[j] == p@[j],
        decreases p.len() - k,
    {
        if s[k] != p[k] {
            assert(s@.take(p@.len() as int)[k as int] != p@[k as int]);
            return false;
        }
        k = k + 1;
    }
    assert(s@.take(p@.len() as int) =~= p@);
    true
}

fn ends_with_exec(s: &Vec<char>, p: &Vec<char>) -> (r: bool)
    ensures
        r == ends_with(s@, p@),
{
    if p.len() > s.len() {
        return false;
    }
    let off = s.len() - p.len();
    let mut k: usize = 0;
    while k < p.len()
        invariant
            off + p@.len() == s@.len(),
            s@.len() == s.len(),
            k <= p@.len(),
            forall|j: int| 0 <= j < k ==> s@[off + j] == p@[j],
        decreases p.len() - k,
    {
        if s[off + k] != p[k] {
            assert(s@.skip(off as int)[k as int] != p@[k as int]);
            return false;
        }
        k = k + 1;
    }
    assert(s@.skip(off as int) =~= p@);
    true
}

/// Whether a uevent text names interface 1, the keyboard's vendor channel.
pub fn names_vendor_interface(s: &Vec<char>) -> (r: bool)
    ensures
        r == is_vendor_interface(s@),
{
    let key = vec!['H', 'I', 'D', '_', 'P', 'H', 'Y', 'S', '='];
    let suffix = vec!['/', 'i', 'n', 'p', 'u', 't', '1'];
    assert(key@ =~= hid_phys_key());
    assert(suffix@ =~= input1_suffix());
    let mut a: usize = 0;
    while a < s.len()
        invariant
            key@ == hid_phys_key(),
            suffix@ == input1_suffix(),
            a <= s@.len(),
            a == 0 || s@[a - 1] == '\n',
            forall|x: int, y: int|
                #[trigger] is_line(s@, x, y) && x < a ==> !is_interface_line(line_text(s@, x, y)),
        decreases s.len() - a,
    {
        let mut b = a;
        while b < s.len() && s[b] != '\n'
            invariant
                a <= b <= s@.len(),
                forall|k: int| a <= k < b ==> s@[k] != '\n',
            decreases s.len() - b,
        {
            b = b + 1;
        }
        assert(is_line(s@, a as int, b as int));
        let text = if b < s.len() && a < b && s[b - 1] == '\r' {
            copy_range(s, a, b - 1)
        } else {
            copy_range(s, a, b)
        };
        assert(text@ == line_text(s@, a as int, b as int));
        if starts_with_exec(&text, &key) && ends_with_exec(&text, &suffix) {
            return true;
        }
        assert forall|x: int, y: int| #[trigger] is_line(s@, x, y) && x <= b implies !is_interface_line(
            line_text(s@, x, y),
        ) by {
            if x >= a {
                if x > a {
                    assert(s@[x - 1] != '\n');
                }
                if y < b {
                    assert(s@[y] != '\n');
                }
                if y > b {
                    assert(s@[b as int] == '\n');
                }
            }
        }
        if b == s.len() {
            assert forall|x: int, y: int| #[trigger] is_line(s@, x, y) implies !is_interface_line(
                line_text(s@, x, y),
            ) by {}
            return false;
        }
        a = b + 1;
    }
    false
}

/// A hidraw device that belongs to the keyboard.
pub struct DetectedDevice {
    /// Path of the device node, such as `/dev/hidraw3`.
    pub path: String,
    pub protocol: Protocol,
}

impl View for DetectedDevice {
    type V = (Seq<char>, Protocol);

    open spec fn view(&self) -> (Seq<char>, Protocol) {
        (self.path@, self.protocol)
    }
}

/// The protocol of a hidraw device, given its uevent text `text` and that text
/// upper-cased, `upper`, if the device is the keyboard's vendor channel: the
/// upper-cased text names the vendor id and a known product id, and the text
/// names interface 1.
pub open spec fn detected_in(upper: Seq<char>, text: Seq<char>) -> Option<Protocol> {
    if !contains(upper, hex_upper(VID as nat, 8)) {
        None
    } else {
        match first_known_match(upper, spec_known_devices()) {
            Some(p) => if is_vendor_interface(text) {
                Some(p)
            } else {
                None
            },
            None => None,
        }
    }
}

proof fn lemma_contains_prefix(hay: Seq<char>, a: Seq<char>, b: Seq<char>)
    requires
        contains(hay, a + b),
    ensures
        contains(hay, a),
{
    let i = choose|i: int| occurs_at(hay, a + b, i);
    assert(hay.subrange(i, i + a.len()) =~= hay.subrange(i, i + (a + b).len()).subrange(
        0,
        a.len() as int,
    ));
    assert((a + b).subrange(0, a.len() as int) =~= a);
    assert(occurs_at(hay, a, i));
}

proof fn lemma_needle_names_vendor(hay: Seq<char>, pid: u16)
    requires
        contains(hay, device_needle(pid)),
    ensures
        contains(hay, hex_upper(VID as nat, 8)),
{
    lemma_contains_prefix(hay, hex_upper(VID as nat, 8) + seq![':'], hex_upper(pid as nat, 8));
    lemma_contains_prefix(hay, hex_upper(VID as nat, 8), seq![':']);
}

/// A hidraw device is taken for the dongle exactly when its upper-cased uevent
/// text names the dongle's vendor and product ids and its text names interface
/// 1; it is taken for the USB cable exactly when the text names the cable's ids,
/// not the dongle's, and interface 1.
pub proof fn law_detection(upper: Seq<char>, text: Seq<char>)
    ensures
        (detected_in(upper, text) == Some(Protocol::Dongle)) <==> (contains(
            upper,
            device_needle(0x0150),
        ) && is_vendor_interface(text)),
        (detected_in(upper, text) == Some(Protocol::UsbCable)) <==> (!contains(
            upper,
            device_needle(0x0150),
        ) && contains(upper, device_needle(0x01A2)) && is_vendor_interface(text)),
{
    let known = spec_known_devices();
    assert(known.drop_first().drop_first().len() == 0);
    reveal_with_fuel(first_known_match, 3);
    if contains(upper, device_needle(0x0150)) {
        lemma_needle_names_vendor(upper, 0x0150);
    }
    if contains(upper, device_needle(0x01A2)) {
        lemma_needle_names_vendor(upper, 0x01A2);
    }
}

/// The protocol of a hidraw device whose uevent text is `uevent`, if that device
/// is the keyboard's vendor channel.
pub open spec fn detected_protocol(uevent: Seq<char>) -> Option<Protocol> {
    detected_in(uppercase(uevent), uevent)
}

/// Judges a uevent text `text`, given also upper-cased as `upper`.
pub fn classify_uevent(upper: &Vec<char>, text: &Vec<char>) -> (p: Option<Protocol>)
    ensures
        p == detected_in(upper@, text@),
{
    let vid = hex_upper_exec(VID as u32, 8);
    if !contains_exec(upper, &vid) {
        return None;
    }
    let proto = match protocol_in_uppercase(upper) {
        Some(p) => p,
        None => return None,
    };
    if !names_vendor_interface(text) {
        return None;
    }
    Some(proto)
}

/// The device node of the hidraw entry `name`.
pub open spec fn device_path(name: Seq<char>) -> Seq<char> {
    "/dev/"@ + name
}

/// Judges the hidraw entry `name` by its uevent text.
pub fn detect_device(name: &str, uevent: &str) -> (d: Option<DetectedDevice>)
    ensures
        d is Some <==> detected_protocol(uevent@) is Some,
        d matches Some(dev) ==> dev@ == (device_path(name@), detected_protocol(uevent@)->0),
{
    let upper_text = to_uppercase(uevent);
    let upper = chars_of(upper_text.as_str());
    let text = chars_of(uevent);
    let proto = match classify_uevent(&upper, &text) {
        Some(p) => p,
        None => return None,
    };
    let mut path = String::from_str("/dev/");
    path.append(name);
    Some(DetectedDevice { path, protocol: proto })
}

/// The devices that a list of hidraw entries (name, uevent text) holds, in
/// the order of the list.
pub open spec fn detected_list(entries: Seq<(Seq<char>, Seq<char>)>) -> Seq<(Seq<char>, Protocol)>
    decreases entries.len(),
{
    if entries.len() == 0 {
        seq![]
    } else {
        let rest = detected_list(entries.drop_last());
        let (name, uevent) = entries.last();
        match detected_protocol(uevent) {
            Some(p) => rest.push((device_path(name), p)),
            None => rest,
        }
    }
}

pub open spec fn entries_view(entries: Seq<(String, String)>) -> Seq<(Seq<char>, Seq<char>)> {
    entries.map_values(|e: (String, String)| (e.0@, e.1@))
}

pub open spec fn devices_view(devices: Seq<DetectedDevice>) -> Seq<(Seq<char>, Protocol)> {
    devices.map_values(|d: DetectedDevice| d@)
}

/// `a` comes before or equals `b` in the order of `String` (character by
/// character, by code point; a prefix comes first).
pub open spec fn text_le(a: Seq<char>, b: Seq<char>) -> bool
    decreases a.len(),
{
    if a.len() == 0 {
        true
    } else if b.len() == 0 {
        false
    } else if a[0] != b[0] {
        (a[0] as int) < (b[0] as int)
    } else {
        text_le(a.drop_first(), b.drop_first())
    }
}

proof fn lemma_text_le_total(a: Seq<char>, b: Seq<char>)
    ensures
        text_le(a, b) || text_le(b, a),
    decreases a.len(),
{
    if a.len() > 0 && b.len() > 0 && a[0] == b[0] {
        lemma_text_le_total(a.drop_first(), b.drop_first());
    }
}

proof fn lemma_text_le_transitive(a: Seq<char>, b: Seq<char>, c: Seq<char>)
    requires
        text_le(a, b),
        text_le(b, c),
    ensures
        text_le(a, c),
    decreases a.len(),
{
    if a.len() > 0 && b.len() > 0 && c.len() > 0 && a[0] == b[0] && b[0] == c[0] {
        lemma_text_le_transitive(a.drop_first(), b.drop_first(), c.drop_first());
    }
}

proof fn lemma_text_le_reflexive(a: Seq<char>)
    ensures
        text_le(a, a),
    decreases a.len(),
{
    if a.len() > 0 {
        lemma_text_le_reflexive(a.drop_first());
    }
}

proof fn lemma_text_le_antisymmetric(a: Seq<char>, b: Seq<char>)
    requires
        text_le(a, b),
        text_le(b, a),
    ensures
        a == b,
    decreases a.len(),
{
    if a.len() > 0 && b.len() > 0 {
        lemma_text_le_antisymmetric(a.drop_first(), b.drop_first());
        assert(a =~= seq![a[0]] + a.drop_first());
        assert(b =~= seq![b[0]] + b.drop_first());
    } else {
        assert(a =~= b);
    }
}

proof fn lemma_text_le_extension(a: Seq<char>, b: Seq<char>)
    ensures
        text_le(a, a + b),
    decreases a.len(),
{
    if a.len() > 0 {
        assert((a + b).drop_first() =~= a.drop_first() + b);
        lemma_text_le_extension(a.drop_first(), b);
    }
}

/// Paths are ordered as `String`s are: a total order, in which a text comes
/// before every longer text that begins with it, and one-character texts are
/// ordered by code point.
pub proof fn law_text_order(a: Seq<char>, b: Seq<char>, c: Seq<char>, x: char, y: char)
    ensures
        text_le(a, a),
        text_le(a, b) || text_le(b, a),
        text_le(a, b) && text_le(b, c) ==> text_le(a, c),
        text_le(a, b) && text_le(b, a) ==> a == b,
        text_le(a, a + b),
        text_le(seq![x], seq![y]) <==> (x as int) <= (y as int),
{
    lemma_text_le_reflexive(a);
    lemma_text_le_total(a, b);
    if text_le(a, b) && text_le(b, c) {
        lemma_text_le_transitive(a, b, c);
    }
    if text_le(a, b) && text_le(b, a) {
        lemma_text_le_antisymmetric(a, b);
    }
    lemma_text_le_extension(a, b);
    assert(seq![x].drop_first() =~= Seq::<char>::empty());
    assert(seq![y].drop_first() =~= Seq::<char>::empty());
    assert(text_le(Seq::<char>::empty(), Seq::<char>::empty()));
}

/// Texts that share a prefix are ordered as what follows the prefix: device
/// paths are ordered as the hidraw names they end with.
pub proof fn law_device_path_order(a: Seq<char>, b: Seq<char>)
    ensures
        text_le(device_path(a), device_path(b)) == text_le(a, b),
{
    let p = "/dev/"@;
    assert forall|n: nat| n <= p.len() implies text_le(p.skip(n as int) + a, p.skip(n as int) + b)
        == text_le(a, b) by {
        lemma_prefix_order(p.skip(n as int), a, b);
    }
    assert(p.skip(0) =~= p);
}

proof fn lemma_prefix_order(p: Seq<char>, a: Seq<char>, b: Seq<char>)
    ensures
        text_le(p + a, p + b) == text_le(a, b),
    decreases p.len(),
{
    if p.len() > 0 {
        assert((p + a).drop_first() =~= p.drop_first() + a);
        assert((p + b).drop_first() =~= p.drop_first() + b);
        lemma_prefix_order(p.drop_first(), a, b);
    } else {
        assert(p + a =~= a);
        assert(p + b =~= b);
    }
}

fn text_le_exec(a: &Vec<char>, b: &Vec<char>) -> (r: bool)
    ensures
        r == text_le(a@, b@),
{
    let mut k: usize = 0;
    assert(a@.skip(0) =~= a@);
    assert(b@.skip(0) =~= b@);
    while k < a.len() && k < b.len()
        invariant
            k <= a@.len(),
            k <= b@.len(),
            text_le(a@, b@) == text_le(a@.skip(k as int), b@.skip(k as int)),
        decreases a.len() - k,
    {
        let x = a[k];
        let y = b[k];
        if x != y {
            return x < y;
        }
        assert(a@.skip(k as int).drop_first() =~= a@.skip(k + 1));
        assert(b@.skip(k as int).drop_first() =~= b@.skip(k + 1));
        k = k + 1;
    }
    k == a.len()
}

/// `s` with `x` inserted before its first element whose path comes strictly
/// after `x`'s, so after every element with an equal path.
pub open spec fn insert_sorted(s: Seq<(Seq<char>, Protocol)>, x: (Seq<char>, Protocol)) -> Seq<
    (Seq<char>, Protocol),
>
    decreases s.len(),
{
    if s.len() == 0 {
        seq![x]
    } else if !text_le(s[0].0, x.0) {
        seq![x] + s
    } else {
        seq![s[0]] + insert_sorted(s.drop_first(), x)
    }
}

/// The stable sort of `s` by path: each element inserted in turn, in the order
/// of `s`, so that elements with equal paths keep their order.
pub open spec fn sorted_by_name(s: Seq<(Seq<char>, Protocol)>) -> Seq<(Seq<char>, Protocol)>
    decreases s.len(),
{
    if s.len() == 0 {
        seq![]
    } else {
        insert_sorted(sorted_by_name(s.drop_last()), s.last())
    }
}

proof fn lemma_insert_sorted_at(s: Seq<(Seq<char>, Protocol)>, x: (Seq<char>, Protocol), k: int)
    requires
        0 <= k <= s.len(),
        forall|j: int| 0 <= j < k ==> text_le(#[trigger] s[j].0, x.0),
        k == s.len() || !text_le(s[k].0, x.0),
    ensures
        insert_sorted(s, x) == s.insert(k, x),
    decreases s.len(),
{
    if s.len() == 0 {
        assert(s.insert(k, x) =~= seq![x]);
    } else if k == 0 {
        assert(s.insert(0, x) =~= seq![x] + s);
    } else {
        let t = s.drop_first();
        assert forall|j: int| 0 <= j < k - 1 implies text_le(#[trigger] t[j].0, x.0) by {
            assert(t[j] == s[j + 1]);
        }
        lemma_insert_sorted_at(t, x, k - 1);
        assert(s.insert(k, x) =~= seq![s[0]] + t.insert(k - 1, x));
    }
}

/// The hidraw names are in ascending order.
pub open spec fn sorted_by_path(devices: Seq<(Seq<char>, Protocol)>) -> bool {
    forall|i: int, j: int| 0 <= i < j < devices.len() ==> text_le(devices[i].0, devices[j].0)
}

/// The keyboard's devices among hidraw entries (name, uevent text), in
/// ascending order of their names (where two names are equal, in the order
/// given): exactly the entries that `detected_list` keeps, stably sorted.
pub fn detect_devices(entries: &Vec<(String, String)>) -> (devices: Vec<DetectedDevice>)
    ensures
        devices_view(devices@) == sorted_by_name(detected_list(entries_view(entries@))),
        sorted_by_path(devices_view(devices@)),
        devices_view(devices@).to_multiset() == detected_list(entries_view(entries@)).to_multiset(),
{
    let mut devices: Vec<DetectedDevice> = Vec::new();
    let mut keys: Vec<Vec<char>> = Vec::new();
    assert(devices_view(devices@) =~= Seq::<(Seq<char>, Protocol)>::empty());
    assert(entries_view(entries@.take(0)) =~= Seq::<(Seq<char>, Seq<char>)>::empty());
    let mut i: usize = 0;
    while i < entries.len()
        invariant
            i <= entries@.len(),
            keys@.len() == devices@.len(),
            forall|j: int| 0 <= j < keys@.len() ==> #[trigger] keys@[j]@ == devices@[j].path@,
            sorted_by_path(devices_view(devices@)),
            devices_view(devices@).to_multiset() == detected_list(
                entries_view(entries@.take(i as int)),
            ).to_multiset(),
            devices_view(devices@) == sorted_by_name(
                detected_list(entries_view(entries@.take(i as int))),
            ),
        decreases entries.len() - i,
    {
        let ghost before = devices@;
        assert(entries_view(entries@.take(i + 1)).drop_last() =~= entries_view(
            entries@.take(i as int),
        ));
        assert(entries_view(entries@.take(i + 1)).last() == (
            entries@[i as int].0@,
            entries@[i as int].1@,
        ));
        let entry = &entries[i];
        match detect_device(entry.0.as_str(), entry.1.as_str()) {
            Some(d) => {
                let key = chars_of(d.path.as_str());
                let mut k: usize = 0;
                while k < keys.len() && text_le_exec(&keys[k], &key)
                    invariant
                        k <= keys@.len(),
                        keys@.len() == devices@.len(),
                        forall|j: int| 0 <= j < k ==> text_le(#[trigger] keys@[j]@, key@),
                    decreases keys.len() - k,
                {
                    k = k + 1;
                }
                proof {
                    assert forall|j: int| k <= j < devices@.len() implies text_le(
                        key@,
                        #[trigger] devices@[j].path@,
                    ) by {
                        lemma_text_le_total(keys@[k as int]@, key@);
                        assert(devices_view(devices@)[k as int].0 == keys@[k as int]@);
                        assert(devices_view(devices@)[j].0 == devices@[j].path@);
                        if j > k {
                            lemma_text_le_transitive(key@, keys@[k as int]@, devices@[j].path@);
                        }
                    }
                }
                let ghost dv = d@;
                let ghost old_keys = keys@;
                devices.insert(k, d);
                keys.insert(k, key);
                proof {
                    assert(devices_view(devices@) =~= devices_view(before).insert(k as int, dv));
                    let prev = detected_list(entries_view(entries@.take(i as int)));
                    assert(detected_list(entries_view(entries@.take(i + 1))) == prev.push(dv));
                    vstd::seq_lib::to_multiset_insert(devices_view(before), k as int, dv);
                    vstd::seq_lib::to_multiset_build(prev, dv);
                    let w = devices_view(before);
                    assert forall|j: int| 0 <= j < k implies text_le(#[trigger] w[j].0, dv.0) by {
                        assert(w[j].0 == old_keys[j]@);
                    }
                    if k < w.len() {
                        assert(w[k as int].0 == old_keys[k as int]@);
                    }
                    lemma_insert_sorted_at(w, dv, k as int);
                    assert(prev.push(dv).drop_last() =~= prev);
                    let v = devices_view(devices@);
                    assert forall|x: int, y: int| 0 <= x < y < v.len() implies text_le(
                        v[x].0,
                        v[y].0,
                    ) by {
                        let w = devices_view(before);
                        if y < k {
                            assert(v[x] == w[x] && v[y] == w[y]);
                        } else if y == k {
                            assert(v[x] == w[x]);
                            assert(w[x].0 == keys@[x]@);
                        } else if x == k {
                            assert(v[y] == w[y - 1]);
                            assert(w[y - 1].0 == before[y - 1].path@);
                        } else if x < k {
                            assert(v[x] == w[x] && v[y] == w[y - 1]);
                        } else {
                            assert(v[x] == w[x - 1] && v[y] == w[y - 1]);
                        }
                    }
                }
            },
            None => {
                assert(detected_list(entries_view(entries@.take(i + 1))) == detected_list(
                    entries_view(entries@.take(i as int)),
                ));
            },
        }
        i = i + 1;
    }
    assert(entries@.take(entries@.len() as int) =~= entries@);
    devices
}

/// The candidate for a device path given by hand: its protocol is the one its
/// uevent names, or the dongle protocol where none is known.
pub fn manual_candidate(path: String, known: Option<Protocol>) -> (d: DetectedDevice)
    ensures
        d.path@ == path@,
        d.protocol == match known {
            Some(p) => p,
            None => Protocol::Dongle,
        },
{
    let protocol = match known {
        Some(p) => p,
        None => Protocol::Dongle,
    };
    DetectedDevice { path, protocol }
}

/// The check that an opened candidate must pass before it is used.
#[derive(Clone, Copy, Debug, PartialEq, Eq, Structural)]
pub enum Probe {
    /// A status request that the keyboard behind the dongle must answer.
    Ping,
    /// A feature report that the USB connection must accept.
    FeatureReport,
    /// No check: a dongle whose ping was switched off.
    Skip,
}

pub open spec fn spec_probe_for(protocol: Protocol, no_ping: bool) -> Probe {
    match protocol {
        Protocol::Dongle => if no_ping {
            Probe::Skip
        } else {
            Probe::Ping
        },
        Protocol::UsbCable => Probe::FeatureReport,
    }
}

/// The ping switch concerns the dongle alone: a USB cable is always checked by
/// its feature report; a ping is chosen exactly for a dongle with pings on, and
/// the check is skipped exactly for a dongle with pings off.
pub proof fn law_probe_for(protocol: Protocol, no_ping: bool)
    ensures
        spec_probe_for(Protocol::UsbCable, no_ping) == Probe::FeatureReport,
        (spec_probe_for(protocol, no_ping) == Probe::Ping) <==> (protocol == Protocol::Dongle
            && !no_ping),
        (spec_probe_for(protocol, no_ping) == Probe::Skip) <==> (protocol == Protocol::Dongle
            && no_ping),
{
}

pub fn probe_for(protocol: Protocol, no_ping: bool) -> (p: Probe)
    ensures
        p == spec_probe_for(protocol, no_ping),
{
    match protocol {
        Protocol::Dongle => if no_ping {
            Probe::Skip
        } else {
            Probe::Ping
        },
        Protocol::UsbCable => Probe::FeatureReport,
    }
}

/// What happened to the candidate being tried.
#[derive(Clone, Copy, Debug, PartialEq, Eq, Structural)]
pub enum ConnectEvent {
    /// Opening it was refused for lack of permission.
    OpenDenied,
    /// Opening it failed otherwise.
    OpenFailed,
    /// It is open.
    Opened,
    /// It passed its probe.
    ProbePassed,
    /// Its probe failed or got no answer.
    ProbeFailed,
}

/// The next thing to do while connecting; candidates are named by their index.
#[derive(Clone, Copy, Debug, PartialEq, Eq, Structural)]
pub enum ConnectStep {
    /// Open this candidate.
    Open(usize),
    /// Run this probe on this (open) candidate.
    Probe(usize, Probe),
    /// Use this (open) candidate.
    Accept(usize),
    /// Stop: this candidate may not be opened by this user.
    Denied(usize),
    /// Stop: no candidate answered.
    NoDevice,
}

pub open spec fn spec_connect_start(n: nat) -> ConnectStep {
    if n == 0 {
        ConnectStep::NoDevice
    } else {
        ConnectStep::Open(0)
    }
}

/// The first step of connecting to one of `n` candidates.
pub fn connect_start(n: usize) -> (step: ConnectStep)
    ensures
        step == spec_connect_start(n as nat),
{
    if n == 0 {
        ConnectStep::NoDevice
    } else {
        ConnectStep::Open(0)
    }
}

/// Every candidate list that is not empty gets tried: the search stops at once
/// with no device exactly when there is no candidate, and otherwise it opens the
/// first candidate, also when there is only one.
pub proof fn law_connect_start(n: nat)
    ensures
        (spec_connect_start(n) == ConnectStep::NoDevice) <==> n == 0,
        n > 0 ==> spec_connect_start(n) == ConnectStep::Open(0),
{
}

/// The step after `event` happened to candidate `at` of `n`, whose protocol is
/// `protocol`.
pub open spec fn spec_connect_next(
    at: usize,
    n: usize,
    protocol: Protocol,
    no_ping: bool,
    event: ConnectEvent,
) -> ConnectStep {
    match event {
        ConnectEvent::OpenDenied => ConnectStep::Denied(at),
        ConnectEvent::OpenFailed | ConnectEvent::ProbeFailed => if at + 1 < n {
            ConnectStep::Open((at + 1) as usize)
        } else {
            ConnectStep::NoDevice
        },
        ConnectEvent::Opened => match spec_probe_for(protocol, no_ping) {
            Probe::Skip => ConnectStep::Accept(at),
            p => ConnectStep::Probe(at, p),
        },
        ConnectEvent::ProbePassed => ConnectStep::Accept(at),
    }
}

/// Decides what follows `event` for candidate `at`: a refused permission stops
/// the search, any other failure moves on to the next candidate, an opened
/// candidate is probed (a dongle only when pings are on), a passed probe
/// accepts the candidate, and running out of candidates means no device.
pub fn connect_next(
    candidates: &Vec<DetectedDevice>,
    no_ping: bool,
    at: usize,
    event: ConnectEvent,
) -> (step: ConnectStep)
    requires
        at < candidates.len(),
    ensures
        step == spec_connect_next(at, candidates.len(), candidates@[at as int].protocol, no_ping, event),
{
    match event {
        ConnectEvent::OpenDenied => ConnectStep::Denied(at),
        ConnectEvent::OpenFailed | ConnectEvent::ProbeFailed => if at + 1 < candidates.len() {
            ConnectStep::Open(at + 1)
        } else {
            ConnectStep::NoDevice
        },
        ConnectEvent::Opened => match probe_for(candidates[at].protocol, no_ping) {
            Probe::Skip => ConnectStep::Accept(at),
            p => ConnectStep::Probe(at, p),
        },
        ConnectEvent::ProbePassed => ConnectStep::Accept(at),
    }
}

/// Connecting always moves forward and ends: a step either ends the search, or
/// probes the same candidate after it opened, or opens the next candidate.
pub proof fn law_connect_moves_forward(
    at: usize,
    n: usize,
    protocol: Protocol,
    no_ping: bool,
    event: ConnectEvent,
)
    requires
        at < n,
    ensures
        match spec_connect_next(at, n, protocol, no_ping, event) {
            ConnectStep::Open(j) => j == at + 1 && j < n,
            ConnectStep::Probe(j, p) => j == at && event == ConnectEvent::Opened && p != Probe::Skip,
            ConnectStep::Accept(j) => j == at,
            ConnectStep::Denied(j) => j == at && event == ConnectEvent::OpenDenied,
            ConnectStep::NoDevice => at + 1 == n,
        },
{
}

/// An opened USB cable is always probed with a feature report, whatever the
/// ping switch says.
pub proof fn law_cable_probed_by_feature_report(at: usize, n: usize, no_ping: bool)
    ensures
        spec_connect_next(at, n, Protocol::UsbCable, no_ping, ConnectEvent::Opened)
            == ConnectStep::Probe(at, Probe::FeatureReport),
{
}

/// A candidate is accepted only once it is open and has passed its probe, or
/// right after it opened when it is a dongle whose ping is switched off.
pub proof fn law_connect_accepts_only_checked(
    at: usize,
    n: usize,
    protocol: Protocol,
    no_ping: bool,
    event: ConnectEvent,
)
    requires
        at < n,
        spec_connect_next(at, n, protocol, no_ping, event) is Accept,
    ensures
        event == ConnectEvent::ProbePassed || (event == ConnectEvent::Opened && protocol
            == Protocol::Dongle && no_ping),
{
}

} // verus!

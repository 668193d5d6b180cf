//! Gamepad reports of the XUSB driver, as its state request returns them.
//!
//! A report is a small header followed by the packet counter and the pad state,
//! all little-endian: packet at byte 2, buttons at 6, the triggers at 8 and 9,
//! and the four stick axes at 10, 12, 14 and 16.

use vstd::prelude::*;
use vstd::slice::slice_to_vec;

verus! {

/// Bytes offered to the driver for one state report.
pub const STATE_OUT_LEN: usize = 64;

/// One gamepad snapshot, with the bytes it was read from.
#[derive(Clone, Debug)]
pub struct XusbReport {
    pub packet: u32,
    pub buttons: u16,
    pub left_trigger: u8,
    pub right_trigger: u8,
    pub thumb_lx: i16,
    pub thumb_ly: i16,
    pub thumb_rx: i16,
    pub thumb_ry: i16,
    /// The bytes that the driver returned.
    pub raw: Vec<u8>,
}

/// The byte at `off`, or zero beyond the end.
pub open spec fn byte_at(raw: Seq<u8>, off: int) -> u8 {
    if 0 <= off < raw.len() {
        raw[off]
    } else {
        0
    }
}

/// The little-endian 16-bit value at `off`, or zero where it does not fit.
pub open spec fn u16_at(raw: Seq<u8>, off: int) -> int {
    if 0 <= off && off + 2 <= raw.len() {
        raw[off] + 256 * raw[off + 1]
    } else {
        0
    }
}

/// The same as a two's-complement value.
pub open spec fn i16_at(raw: Seq<u8>, off: int) -> int {
    let v = u16_at(raw, off);
    if v < 0x8000 {
        v
    } else {
        v - 0x1_0000
    }
}

/// The little-endian 32-bit value at `off`, or zero where it does not fit.
pub open spec fn u32_at(raw: Seq<u8>, off: int) -> int {
    if 0 <= off && off + 4 <= raw.len() {
        u16_at(raw, off) + 0x1_0000 * u16_at(raw, off + 2)
    } else {
        0
    }
}

/// Whether `report` is what the bytes `raw` say.
pub open spec fn report_says(report: XusbReport, raw: Seq<u8>) -> bool {
    &&& report.packet == u32_at(raw, 2)
    &&& report.buttons == u16_at(raw, 6)
    &&& report.left_trigger == byte_at(raw, 8)
    &&& report.right_trigger == byte_at(raw, 9)
    &&& report.thumb_lx == i16_at(raw, 10)
    &&& report.thumb_ly == i16_at(raw, 12)
    &&& report.thumb_rx == i16_at(raw, 14)
    &&& report.thumb_ry == i16_at(raw, 16)
    &&& report.raw@ == raw
}

fn byte_or_zero(raw: &[u8], off: usize) -> (r: u8)
    ensures
        r == byte_at(raw@, off as int),
{
    if off < raw.len() {
        raw[off]
    } else {
        0
    }
}

fn u16_or_zero(raw: &[u8], off: usize) -> (r: u16)
    requires
        off < 0x1000,
    ensures
        r == u16_at(raw@, off as int),
{
    if off + 2 <= raw.len() {
        raw[off] as u16 + 256 * raw[off + 1] as u16
    } else {
        0
    }
}

fn i16_or_zero(raw: &[u8], off: usize) -> (r: i16)
    requires
        off < 0x1000,
    ensures
        r == i16_at(raw@, off as int),
{
    let v: i32 = u16_or_zero(raw, off) as i32;
    if v < 0x8000 {
        v as i16
    } else {
        (v - 0x1_0000) as i16
    }
}

/// Reads the pad state out of a driver report; what does not fit reads as zero.
pub fn parse_report(raw: &[u8]) -> (report: XusbReport)
    ensures
        report_says(report, raw@),
{
    let packet: u32 = if 6 <= raw.len() {
        u16_or_zero(raw, 2) as u32 + 0x1_0000 * u16_or_zero(raw, 4) as u32
    } else {
        0
    };
    XusbReport {
        packet,
        buttons: u16_or_zero(raw, 6),
        left_trigger: byte_or_zero(raw, 8),
        right_trigger: byte_or_zero(raw, 9),
        thumb_lx: i16_or_zero(raw, 10),
        thumb_ly: i16_or_zero(raw, 12),
        thumb_rx: i16_or_zero(raw, 14),
        thumb_ry: i16_or_zero(raw, 16),
        raw: slice_to_vec(raw),
    }
}

/// The request bytes for the pad with LED ordinal `led`.
pub fn state_request(led: u8) -> (bytes: [u8; 3])
    ensures
        bytes@ == seq![1u8, 1u8, led],
{
    let bytes: [u8; 3] = [1, 1, led];
    assert(bytes@ =~= seq![1u8, 1u8, led]);
    bytes
}

/// The report of one state request: none when the request failed or returned
/// no bytes, else what the first `returned` bytes of the buffer say.
pub fn poll(ok: bool, out: &[u8], returned: usize) -> (report: Option<XusbReport>)
    requires
        returned <= out.len(),
    ensures
        report is Some <==> ok && returned > 0,
        report matches Some(r) ==> report_says(r, out@.take(returned as int)),
{
    if !ok || returned == 0 {
        return None;
    }
    let raw = vstd::slice::slice_subrange(out, 0, returned);
    assert(raw@ =~= out@.take(returned as int));
    Some(parse_report(raw))
}

/// The bytes of a full report with the given fields.
pub open spec fn report_bytes(
    status: u8,
    size: u8,
    packet: u32,
    buttons: u16,
    left_trigger: u8,
    right_trigger: u8,
    thumbs: (i16, i16, i16, i16),
) -> Seq<u8> {
    seq![
        status,
        size,
        (packet % 256) as u8,
        (packet / 256 % 256) as u8,
        (packet / 0x1_0000 % 256) as u8,
        (packet / 0x100_0000) as u8,
        (buttons % 256) as u8,
        (buttons / 256) as u8,
        left_trigger,
        right_trigger,
        low_byte(thumbs.0),
        high_byte(thumbs.0),
        low_byte(thumbs.1),
        high_byte(thumbs.1),
        low_byte(thumbs.2),
        high_byte(thumbs.2),
        low_byte(thumbs.3),
        high_byte(thumbs.3),
    ]
}

/// The low byte of an axis value in two's complement.
pub open spec fn low_byte(v: i16) -> u8 {
    (v as int % 256) as u8
}

/// The high byte of an axis value in two's complement.
pub open spec fn high_byte(v: i16) -> u8 {
    (v as int / 256 % 256) as u8
}

/// A report that carries a pad state reads back as that state.
pub proof fn report_reads_back(
    report: XusbReport,
    status: u8,
    size: u8,
    packet: u32,
    buttons: u16,
    left_trigger: u8,
    right_trigger: u8,
    thumbs: (i16, i16, i16, i16),
)
    requires
        report_says(
            report,
            report_bytes(status, size, packet, buttons, left_trigger, right_trigger, thumbs),
        ),
    ensures
        report.packet == packet,
        report.buttons == buttons,
        report.left_trigger == left_trigger,
        report.right_trigger == right_trigger,
        report.thumb_lx == thumbs.0,
        report.thumb_ly == thumbs.1,
        report.thumb_rx == thumbs.2,
        report.thumb_ry == thumbs.3,
{
    let raw = report_bytes(status, size, packet, buttons, left_trigger, right_trigger, thumbs);
    axis_reads_back(raw, 10, thumbs.0);
    axis_reads_back(raw, 12, thumbs.1);
    axis_reads_back(raw, 14, thumbs.2);
    axis_reads_back(raw, 16, thumbs.3);
    assert(packet == packet % 256 + 256 * (packet / 256 % 256) + 0x1_0000 * (packet / 0x1_0000
        % 256) + 0x100_0000 * (packet / 0x100_0000));
}

proof fn axis_reads_back(raw: Seq<u8>, off: int, v: i16)
    requires
        0 <= off,
        off + 2 <= raw.len(),
        raw[off] == low_byte(v),
        raw[off + 1] == high_byte(v),
    ensures
        i16_at(raw, off) == v,
{
}

/// Whether a 16-bit unit fits in `buf` at `off`.
pub open spec fn unit_fits(buf: Seq<u8>, off: int) -> bool {
    0 <= off && off + 1 < buf.len()
}

/// The UTF-16 units of `buf` from byte `off` up to the first zero unit or the
/// end.
pub open spec fn wide_units(buf: Seq<u8>, off: int) -> Seq<u16>
    decreases buf.len() - off,
{
    if unit_fits(buf, off) && u16_at(buf, off) != 0 {
        seq![u16_at(buf, off) as u16] + wide_units(buf, off + 2)
    } else {
        seq![]
    }
}

/// Reads a NUL-terminated UTF-16 string at byte `offset` and ends it with a NUL.
pub fn wide_from_buf(buf: &[u8], offset: usize) -> (out: Vec<u16>)
    ensures
        out@ == wide_units(buf@, offset as int).push(0),
{
    let mut out: Vec<u16> = Vec::new();
    let mut i: usize = offset;
    while i < buf.len() && buf.len() - i >= 2
        invariant_except_break
            out@ + wide_units(buf@, i as int) == wide_units(buf@, offset as int),
        ensures
            out@ == wide_units(buf@, offset as int),
        decreases buf.len() - i,
    {
        let unit: u16 = buf[i] as u16 + 256 * buf[i + 1] as u16;
        if unit == 0 {
            assert(wide_units(buf@, i as int) =~= Seq::<u16>::empty());
            assert(out@ =~= wide_units(buf@, offset as int));
            break;
        }
        let ghost before = out@;
        out.push(unit);
        i += 2;
        assert(out@ + wide_units(buf@, i as int) =~= before + wide_units(buf@, i - 2));
    }
    out.push(0);
    out
}

/// Where each control stands in a report: the buttons at byte 6, the left trigger at 8 and
/// the right at 9, and the axes at 10, 12, 14 and 16, the left stick's before the right's
/// and each stick's X before its Y; low byte first.
pub proof fn controls_stand_at_their_bytes(report: XusbReport, raw: Seq<u8>)
    requires
        report_says(report, raw),
        raw.len() >= 18,
    ensures
        report.buttons == raw[6] + 256 * raw[7],
        report.left_trigger == raw[8],
        report.right_trigger == raw[9],
        report.thumb_lx as int % 65536 == raw[10] + 256 * raw[11],
        report.thumb_ly as int % 65536 == raw[12] + 256 * raw[13],
        report.thumb_rx as int % 65536 == raw[14] + 256 * raw[15],
        report.thumb_ry as int % 65536 == raw[16] + 256 * raw[17],
        report.packet == raw[2] + 256 * raw[3] + 65536 * raw[4] + 16777216 * raw[5],
        report.raw@ == raw,
{
}

/// A report that ends early reads as a pad at rest from there on.
pub proof fn a_short_report_rests(report: XusbReport, raw: Seq<u8>)
    requires
        report_says(report, raw),
        raw.len() < 8,
    ensures
        report.buttons == 0,
        report.left_trigger == 0 && report.right_trigger == 0,
        report.thumb_lx == 0 && report.thumb_ly == 0 && report.thumb_rx == 0 && report.thumb_ry == 0,
{
}

/// A wide text is read unit by unit, low byte first, up to its first zero unit.
pub proof fn wide_text_reads_to_its_end(buf: Seq<u8>, off: int, k: int)
    requires
        0 <= off,
        0 <= k < wide_units(buf, off).len(),
    ensures
        off + 2 * k + 1 < buf.len(),
        wide_units(buf, off)[k] == buf[off + 2 * k] + 256 * buf[off + 2 * k + 1],
        wide_units(buf, off)[k] != 0,
        ({
            let end = off + 2 * wide_units(buf, off).len();
            end + 1 >= buf.len() || buf[end] == 0 && buf[end + 1] == 0
        }),
    decreases buf.len() - off,
{
    let rest = wide_units(buf, off + 2);
    assert(wide_units(buf, off) =~= seq![u16_at(buf, off) as u16] + rest);
    if rest.len() > 0 {
        wide_text_reads_to_its_end(buf, off + 2, if k > 0 { k - 1 } else { 0 });
        if k > 0 {
            assert(wide_units(buf, off)[k] == rest[k - 1]);
        }
    }
}

} // verus!

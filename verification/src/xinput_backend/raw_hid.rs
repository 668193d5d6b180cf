//! Raw HID reports on the poll thread.

use vstd::prelude::*;

use super::types::{PadSample, PollModel, PollState, SecureMsg};
use crate::pad_decode::{LEFT_SHOULDER, PAD_A, PAD_B, PAD_X, PAD_Y, RIGHT_SHOULDER};
use crate::text;
use crate::text::{push_hex4, push_hex_byte, put};

verus! {

/// Report bytes shown in a log line.
pub const HEX_PREVIEW: usize = 16;

/// Held reports that are logged after a pad was opened.
pub const HELD_LOGS: u32 = 4;

/// Raw devices that are listed whoever made them.
pub const LISTED_DEVICES: usize = 12;

pub const SONY_VENDOR: u32 = 0x054c;

pub open spec fn bit_count(mask: u16, bit: u16) -> int {
    if mask & bit != 0 {
        1
    } else {
        0
    }
}

/// How many of the face and shoulder buttons are down.
pub open spec fn face_count(mask: u16) -> int {
    bit_count(mask, PAD_A) + bit_count(mask, PAD_B) + bit_count(mask, PAD_X) + bit_count(mask, PAD_Y)
        + bit_count(mask, LEFT_SHOULDER) + bit_count(mask, RIGHT_SHOULDER)
}

fn count_bit(mask: u16, bit: u16) -> (n: u8)
    ensures
        n == bit_count(mask, bit),
        n <= 1,
{
    if mask & bit != 0 {
        1
    } else {
        0
    }
}

/// Whether more than one face or shoulder button is down: on the sign-in screen
/// such a reading is noise.
pub fn secure_hid_combo_mask(mask: u16) -> (r: bool)
    ensures
        r == (face_count(mask) > 1),
{
    count_bit(mask, PAD_A) + count_bit(mask, PAD_B) + count_bit(mask, PAD_X) + count_bit(mask, PAD_Y)
        + count_bit(mask, LEFT_SHOULDER) + count_bit(mask, RIGHT_SHOULDER) > 1
}

/// The usable bytes of a raw input read: none when the read failed or returned
/// less than a header, else what was written, at most the buffer's capacity.
pub fn raw_input_bytes(read: u32, capacity: usize, header: usize) -> (bytes: Option<usize>)
    ensures
        bytes == ({
            let n = if read < capacity { read as int } else { capacity as int };
            if read == u32::MAX || read == 0 || n < header {
                None::<usize>
            } else {
                Some(n as usize)
            }
        }),
{
    if read == u32::MAX || read == 0 {
        return None;
    }
    let n: usize = if (read as u64) < (capacity as u64) {
        read as usize
    } else {
        capacity
    };
    if n < header {
        None
    } else {
        Some(n)
    }
}

/// Whether a raw device gets a line in the device list.
pub fn should_list_device(listed: usize, vendor_id: u32) -> (r: bool)
    ensures
        r == (listed < LISTED_DEVICES || vendor_id == SONY_VENDOR),
        r <==> listed < 12 || vendor_id == 0x054c,
{
    listed < LISTED_DEVICES || vendor_id == SONY_VENDOR
}

/// The state after a report is noted, before its buttons are looked at. A pad
/// that was just opened starts from nothing pressed.
pub open spec fn noted(s: PollModel, opened: bool, sample: PadSample, report: Seq<u8>) -> PollModel {
    let base = PollModel { last_raw_report: report, last_hid: sample, ..s };
    if opened {
        PollModel {
            prev_buttons: s.prev_buttons.update(0, 0),
            hid_diag_count: 0,
            suppress_until_zero: false,
            ..base
        }
    } else {
        base
    }
}

/// What the buttons of a report do. A reading with several face buttons down is
/// suppressed, and everything after it until all buttons are up.
pub open spec fn after_report(s: PollModel, cur: u16) -> (PollModel, Option<SecureMsg>) {
    let prev = s.prev_buttons[0];
    if prev == cur {
        let counted = cur != 0 && s.hid_diag_count < HELD_LOGS;
        (
            PollModel {
                hid_diag_count: if counted {
                    (s.hid_diag_count + 1) as u32
                } else {
                    s.hid_diag_count
                },
                ..s
            },
            None,
        )
    } else if s.suppress_until_zero {
        if cur == 0 {
            (
                PollModel {
                    suppress_until_zero: false,
                    prev_buttons: s.prev_buttons.update(0, 0),
                    ..s
                },
                None,
            )
        } else {
            (s, None)
        }
    } else if face_count(prev) > 1 || face_count(cur) > 1 {
        (PollModel { suppress_until_zero: cur != 0, ..s }, None)
    } else {
        (
            PollModel { prev_buttons: s.prev_buttons.update(0, cur), ..s },
            Some(SecureMsg::Buttons { slot: 0, prev, cur }),
        )
    }
}

/// Takes in one decoded report. `opened` says that its pad was just opened.
pub fn poll_raw_hid_input(
    state: &mut PollState,
    opened: bool,
    sample: PadSample,
    report: Vec<u8>,
) -> (msg: Option<SecureMsg>)
    ensures
        ({
            let out = after_report(noted(old(state)@, opened, sample, report@), sample.buttons);
            final(state)@ == out.0 && msg == out.1
        }),
{
    let ghost s0 = state@;
    let ghost bytes = report@;
    state.last_raw_report = report;
    if opened {
        state.prev_buttons[0] = 0;
        state.hid_diag_count = 0;
        state.suppress_until_zero = false;
        assert(state.prev_buttons@ =~= s0.prev_buttons.update(0, 0));
    }
    state.last_hid = sample;
    let ghost s1 = state@;
    assert(s1 == noted(s0, opened, sample, bytes));
    let cur: u16 = sample.buttons;
    let prev: u16 = state.prev_buttons[0];
    if prev != cur {
        if state.suppress_until_zero {
            if cur == 0 {
                state.suppress_until_zero = false;
                state.prev_buttons[0] = 0;
                assert(state.prev_buttons@ =~= s1.prev_buttons.update(0, 0));
            }
            return None;
        }
        if secure_hid_combo_mask(prev) || secure_hid_combo_mask(cur) {
            state.suppress_until_zero = cur != 0;
            return None;
        }
        state.prev_buttons[0] = cur;
        assert(state.prev_buttons@ =~= s1.prev_buttons.update(0, cur));
        Some(SecureMsg::Buttons { slot: 0, prev, cur })
    } else {
        if cur != 0 && state.hid_diag_count < HELD_LOGS {
            state.hid_diag_count = state.hid_diag_count + 1;
        }
        None
    }
}

/// What the log says of a report, where it says anything, in the state before the
/// report is taken in.
pub open spec fn report_text(
    s: PollModel,
    opened: bool,
    cur: u16,
    tail: Seq<char>,
) -> Option<Seq<char>> {
    let prev: u16 = if opened { 0 } else { s.prev_buttons[0] };
    let suppressed = !opened && s.suppress_until_zero;
    let logged: u32 = if opened { 0 } else { s.hid_diag_count };
    let change = text::hex4(prev) + " -> 0x"@ + text::hex4(cur) + tail;
    if prev != cur {
        if suppressed {
            Some("HID secure: suppress combo tail 0x"@ + change)
        } else if face_count(prev) > 1 || face_count(cur) > 1 {
            Some("HID secure: suppress noisy combo 0x"@ + change)
        } else {
            Some("HID secure: buttons 0x"@ + change)
        }
    } else if cur != 0 && logged < HELD_LOGS {
        Some("HID secure: held 0x"@ + text::hex4(cur) + tail)
    } else {
        None
    }
}

/// The end of a line on a report: what decoded it, its bytes, and its pad.
pub open spec fn report_tail(source: Seq<char>, raw: Seq<char>, device: Seq<char>) -> Seq<char> {
    " ["@ + source + "] raw="@ + raw + " ("@ + device + ")"@
}

/// `report_text`, computed before the report is taken in.
pub fn report_line(
    state: &PollState,
    opened: bool,
    cur: u16,
    source: &str,
    raw: &str,
    device: &str,
) -> (line: Option<String>)
    ensures
        match line {
            Some(l) => report_text(state@, opened, cur, report_tail(source@, raw@, device@))
                == Some(l@),
            None => report_text(state@, opened, cur, report_tail(source@, raw@, device@)) is None,
        },
{
    let prev: u16 = if opened {
        0
    } else {
        state.prev_buttons[0]
    };
    let logged: u32 = if opened {
        0
    } else {
        state.hid_diag_count
    };
    let mut out: String = String::new();
    if prev != cur {
        if !opened && state.suppress_until_zero {
            put(&mut out, "HID secure: suppress combo tail 0x");
        } else if secure_hid_combo_mask(prev) || secure_hid_combo_mask(cur) {
            put(&mut out, "HID secure: suppress noisy combo 0x");
        } else {
            put(&mut out, "HID secure: buttons 0x");
        }
        push_hex4(&mut out, prev);
        put(&mut out, " -> 0x");
    } else if cur != 0 && logged < HELD_LOGS {
        put(&mut out, "HID secure: held 0x");
    } else {
        return None;
    }
    push_hex4(&mut out, cur);
    put(&mut out, " [");
    put(&mut out, source);
    put(&mut out, "] raw=");
    put(&mut out, raw);
    put(&mut out, " (");
    put(&mut out, device);
    put(&mut out, ")");
    proof {
        let said = report_text(state@, opened, cur, report_tail(source@, raw@, device@));
        assert(out@ =~= said->0);
    }
    Some(out)
}

/// While a noisy combination is being suppressed, nothing is reported before a
/// report shows every button up; that report is silent too, and the next change
/// is reported again.
pub proof fn noise_is_silent_until_released(s: PollModel, cur: u16)
    requires
        s.prev_buttons.len() == 4,
        s.suppress_until_zero,
    ensures
        after_report(s, cur).1 is None,
        cur != 0 ==> after_report(s, cur).0.suppress_until_zero,
        cur == 0 && s.prev_buttons[0] != 0 ==> !after_report(s, cur).0.suppress_until_zero
            && after_report(s, cur).0.prev_buttons[0] == 0,
{
}

/// A button report never tells of more than one face button at once.
pub proof fn reported_changes_are_clean(s: PollModel, cur: u16)
    ensures
        after_report(s, cur).1 matches Some(SecureMsg::Buttons { slot, prev, cur: c }) ==> slot == 0
            && c == cur && prev == s.prev_buttons[0] && face_count(prev) <= 1 && face_count(c) <= 1,
{
}

/// The first `n` bytes in hexadecimal, separated by spaces.
pub open spec fn hex_upto(report: Seq<u8>, n: nat) -> Seq<char>
    decreases n,
{
    if n == 0 {
        seq![]
    } else if n == 1 {
        text::hex_byte(report[0])
    } else {
        hex_upto(report, (n - 1) as nat) + " "@ + text::hex_byte(report[n - 1])
    }
}

/// A short hexadecimal preview of a report.
pub open spec fn report_preview(report: Seq<u8>) -> Seq<char> {
    if report.len() > HEX_PREVIEW {
        hex_upto(report, HEX_PREVIEW as nat) + " ..."@
    } else {
        hex_upto(report, report.len())
    }
}

/// `report_preview`, computed.
pub fn report_hex(report: &[u8]) -> (out: String)
    ensures
        out@ == report_preview(report@),
{
    let mut out: String = String::new();
    let n: usize = if report.len() < HEX_PREVIEW {
        report.len()
    } else {
        HEX_PREVIEW
    };
    let mut i: usize = 0;
    while i < n
        invariant
            i <= n,
            n <= report.len(),
            out@ == hex_upto(report@, i as nat),
        decreases n - i,
    {
        if i > 0 {
            put(&mut out, " ");
        }
        push_hex_byte(&mut out, report[i]);
        i += 1;
        assert(out@ =~= hex_upto(report@, i as nat));
    }
    if report.len() > HEX_PREVIEW {
        put(&mut out, " ...");
    }
    out
}

/// Whether a bit is that of a face or shoulder button.
pub open spec fn is_face_bit(bit: u16) -> bool {
    bit == 0x1000 || bit == 0x2000 || bit == 0x4000 || bit == 0x8000 || bit == 0x0100 || bit
        == 0x0200
}

/// A reading with two different face or shoulder buttons down is never reported, nor is
/// the change away from it.
pub proof fn two_face_buttons_are_noise(s: PollModel, cur: u16, a: u16, b: u16)
    requires
        s.prev_buttons.len() == 4,
        is_face_bit(a) && is_face_bit(b) && a != b,
        cur & a != 0 && cur & b != 0 || s.prev_buttons[0] & a != 0 && s.prev_buttons[0] & b != 0,
    ensures
        after_report(s, cur).1 is None,
{
}

/// Every other change is reported as it is, on the first slot: where neither reading has
/// more than one face or shoulder button down and no noise is being waited out, what was
/// down before and what is down now are told, and kept.
pub proof fn clean_changes_are_reported(s: PollModel, cur: u16)
    requires
        s.prev_buttons.len() == 4,
        !s.suppress_until_zero,
        s.prev_buttons[0] != cur,
        forall|a: u16, b: u16|
            #![trigger is_face_bit(a), is_face_bit(b)]
            is_face_bit(a) && is_face_bit(b) && a != b ==> !(cur & a != 0 && cur & b != 0) && !(
            s.prev_buttons[0] & a != 0 && s.prev_buttons[0] & b != 0),
    ensures
        after_report(s, cur).1 == Some(
            SecureMsg::Buttons { slot: 0, prev: s.prev_buttons[0], cur },
        ),
        after_report(s, cur).0.prev_buttons == s.prev_buttons.update(0, cur),
{
    assert(is_face_bit(0x1000) && is_face_bit(0x2000) && is_face_bit(0x4000) && is_face_bit(0x8000)
        && is_face_bit(0x0100) && is_face_bit(0x0200));
}

/// A report is kept as the last one, and a pad that was just opened starts from nothing
/// pressed and nothing suppressed.
pub proof fn a_report_is_noted(s: PollModel, opened: bool, sample: PadSample, report: Seq<u8>)
    requires
        s.prev_buttons.len() == 4,
    ensures
        noted(s, opened, sample, report).last_hid == sample,
        noted(s, opened, sample, report).last_raw_report == report,
        opened ==> noted(s, opened, sample, report).prev_buttons[0] == 0 && !noted(
            s,
            opened,
            sample,
            report,
        ).suppress_until_zero,
        !opened ==> noted(s, opened, sample, report).prev_buttons == s.prev_buttons,
        forall|j: int|
            1 <= j < 4 ==> #[trigger] noted(s, opened, sample, report).prev_buttons[j]
                == s.prev_buttons[j],
{
}

/// What the log says of a report agrees with what is delivered: a change is called one
/// exactly where it is reported, and with both readings; every other change is called
/// suppressed. A report that changes nothing is mentioned only while something is held.
pub proof fn the_log_agrees_with_what_is_delivered(s: PollModel, cur: u16, tail: Seq<char>)
    requires
        s.prev_buttons.len() == 4,
    ensures
        ({
            let prev = s.prev_buttons[0];
            let said = report_text(s, false, cur, tail);
            let change = text::hex4(prev) + " -> 0x"@ + text::hex4(cur) + tail;
            &&& after_report(s, cur).1 is Some ==> said == Some("HID secure: buttons 0x"@ + change)
            &&& prev != cur && after_report(s, cur).1 is None ==> said == Some(
                "HID secure: suppress combo tail 0x"@ + change,
            ) || said == Some("HID secure: suppress noisy combo 0x"@ + change)
            &&& prev != cur && s.suppress_until_zero ==> said == Some(
                "HID secure: suppress combo tail 0x"@ + change,
            )
            &&& prev == cur && cur == 0 ==> said is None
            &&& prev == cur && said is Some ==> said == Some(
                "HID secure: held 0x"@ + text::hex4(cur) + tail,
            )
        }),
{
}

/// A report's preview shows its bytes in order, separated by blanks: all of up to sixteen,
/// and of a longer report the first sixteen and that there is more.
pub proof fn previews_show_the_first_bytes(report: Seq<u8>, n: nat)
    ensures
        report.len() <= 16 ==> report_preview(report) == hex_upto(report, report.len()),
        report.len() > 16 ==> report_preview(report) == hex_upto(report, 16) + " ..."@,
        hex_upto(report, 1) == text::hex_byte(report[0]),
        n >= 1 ==> hex_upto(report, n + 1) == hex_upto(report, n) + " "@ + text::hex_byte(
            report[n as int],
        ),
{
}

/// A line on a report ends with what decoded it, its bytes and its pad.
pub proof fn lines_end_with_the_pad(source: Seq<char>, raw: Seq<char>, device: Seq<char>)
    ensures
        text::occurs(report_tail(source, raw, device), " ["@ + source + "]"@),
        text::occurs(report_tail(source, raw, device), "raw="@ + raw + " "@),
        text::occurs(report_tail(source, raw, device), "("@ + device + ")"@),
{
    reveal_strlit("] raw=");
    reveal_strlit("]");
    reveal_strlit(" raw=");
    reveal_strlit("raw=");
    reveal_strlit(" (");
    reveal_strlit(" ");
    reveal_strlit("(");
    let t = report_tail(source, raw, device);
    let none = Seq::<char>::empty();
    let m1 = " ["@ + source + "]"@;
    let b1 = " raw="@ + raw + " ("@ + device + ")"@;
    assert(t =~= none + m1 + b1);
    text::the_middle_occurs(none, m1, b1);
    let m2 = "raw="@ + raw + " "@;
    assert(t =~= (" ["@ + source + "] "@) + m2 + ("("@ + device + ")"@)) by {
        reveal_strlit("] ");
    }
    text::the_middle_occurs(" ["@ + source + "] "@, m2, "("@ + device + ")"@);
    let m3 = "("@ + device + ")"@;
    assert(t =~= (" ["@ + source + "] raw="@ + raw + " "@) + m3 + none);
    text::the_middle_occurs(" ["@ + source + "] raw="@ + raw + " "@, m3, none);
}

/// Of a pad that is held without a change four reports are mentioned, and then no more until
/// another pad is opened.
pub proof fn held_pads_are_mentioned_four_times(s: PollModel, cur: u16, tail: Seq<char>)
    requires
        s.prev_buttons.len() == 4,
        s.prev_buttons[0] == cur,
        cur != 0,
    ensures
        report_text(s, false, cur, tail) is Some <==> s.hid_diag_count < 4,
        s.hid_diag_count < 4 ==> after_report(s, cur).0.hid_diag_count == s.hid_diag_count + 1,
        s.hid_diag_count >= 4 ==> after_report(s, cur).0.hid_diag_count == s.hid_diag_count,
        noted(s, true, s.last_hid, s.last_raw_report).hid_diag_count == 0,
{
}

} // verus!

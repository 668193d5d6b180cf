//! What the service log says of the pads, and how often.

use vstd::prelude::*;

use super::types::{
    error_text, SecureError, ERROR_DEVICE_NOT_CONNECTED, ERROR_SUCCESS,
};
use super::xinput_poll::{NO_PAD_MS, SLOT_ERROR_LOG_MS, STATUS_MS};
use super::{buttons_down, types};
use crate::clock;
use crate::clock::is_due;
use crate::pad_decode;
use crate::pad_decode::Button;
use crate::text;
use crate::text::{concat2, decimal_of, push_hex4, put};

verus! {

/// When which line was last written, and the slots that were last seen.
pub struct PadLog {
    pub slot_connected: [bool; 4],
    pub last_status: Option<u64>,
    pub last_no_pad: Option<u64>,
    pub last_slot_err: Option<u64>,
}

/// `PadLog` as a mathematical value.
pub struct PadLogModel {
    pub slot_connected: Seq<bool>,
    pub last_status: Option<u64>,
    pub last_no_pad: Option<u64>,
    pub last_slot_err: Option<u64>,
}

impl View for PadLog {
    type V = PadLogModel;

    open spec fn view(&self) -> PadLogModel {
        PadLogModel {
            slot_connected: self.slot_connected@,
            last_status: self.last_status,
            last_no_pad: self.last_no_pad,
            last_slot_err: self.last_slot_err,
        }
    }
}

/// One slot in the slot report.
pub open spec fn slot_word(connected: bool) -> Seq<char> {
    if connected {
        ":connected"@
    } else {
        ":empty"@
    }
}

/// The first `n` slots in the slot report.
pub open spec fn slot_words(connected: Seq<bool>, n: nat) -> Seq<char>
    decreases n,
{
    if n == 0 {
        seq![]
    } else {
        slot_words(connected, (n - 1) as nat) + (if n > 1 {
            ", "@
        } else {
            seq![]
        }) + text::decimal((n - 1) as nat) + slot_word(connected[n - 1])
    }
}

pub open spec fn slots_text(connected: Seq<bool>) -> Seq<char> {
    "XInput slots ["@ + slot_words(connected, connected.len()) + "]"@
}

/// Whether the slots are reported: they changed, or the last report is old.
pub open spec fn slots_due(log: PadLogModel, connected: Seq<bool>, now: u64) -> bool {
    connected != log.slot_connected || clock::due(log.last_status, now, STATUS_MS)
}

/// Whether a slot's answer is a fault that is reported: no more than one is in a
/// while.
pub open spec fn slot_error_due(log: PadLogModel, err: u32, now: u64) -> bool {
    &&& err != ERROR_SUCCESS && err != ERROR_DEVICE_NOT_CONNECTED
    &&& clock::due(log.last_slot_err, now, SLOT_ERROR_LOG_MS)
}

/// A line, where there is one.
pub open spec fn line_view(line: Option<String>) -> Option<Seq<char>> {
    match line {
        Some(l) => Some(l@),
        None => None,
    }
}

/// A change of buttons in the log: the text up to the buttons that are now held, and
/// those.
pub struct ButtonLog {
    pub head: String,
    pub held: Vec<Button>,
}

pub open spec fn button_head(slot: u32, prev: u16, cur: u16) -> Seq<char> {
    "XInput buttons slot "@ + text::decimal(slot as nat) + ": 0x"@ + text::hex4(prev) + " -> 0x"@
        + text::hex4(cur)
}

/// The line on a change of buttons; none where nothing changed.
pub fn log_button_change(slot: u32, prev: u16, cur: u16) -> (line: Option<ButtonLog>)
    ensures
        line is Some == (prev != cur),
        line matches Some(l) ==> l.head@ == button_head(slot, prev, cur) && l.held@
            == super::down_upto(cur, pad_decode::masked_buttons().len()),
{
    if prev == cur {
        return None;
    }
    let mut head: String = "XInput buttons slot ".to_owned();
    put(&mut head, decimal_of(slot as u64).as_str());
    put(&mut head, ": 0x");
    push_hex4(&mut head, prev);
    put(&mut head, " -> 0x");
    push_hex4(&mut head, cur);
    Some(ButtonLog { head, held: buttons_down(cur) })
}

/// The line on another slot being used; none while the slot stays or there is none.
pub fn log_slot_choice(before: Option<u32>, after: Option<u32>) -> (line: Option<String>)
    ensures
        line_view(line) == (match after {
            Some(slot) if before != after => Some(
                "XInput: using slot "@ + text::decimal(slot as nat),
            ),
            _ => None::<Seq<char>>,
        }),
{
    match after {
        Some(slot) => {
            let same: bool = match before {
                Some(b) => b == slot,
                None => false,
            };
            if same {
                None
            } else {
                Some(concat2("XInput: using slot ", decimal_of(slot as u64).as_str()))
            }
        },
        None => None,
    }
}

impl PadLog {
    /// Nothing written yet.
    pub fn new() -> (log: Self)
        ensures
            log@ == (PadLogModel {
                slot_connected: seq![false, false, false, false],
                last_status: None,
                last_no_pad: None,
                last_slot_err: None,
            }),
    {
        let log = PadLog {
            slot_connected: [false, false, false, false],
            last_status: None,
            last_no_pad: None,
            last_slot_err: None,
        };
        assert(log.slot_connected@ =~= seq![false, false, false, false]);
        log
    }

    /// The slot report: when the slots change, and now and again.
    pub fn log_slots_if_changed(&mut self, connected: &[bool; 4], now: u64) -> (line: Option<
        String,
    >)
        ensures
            line_view(line) == (if slots_due(old(self)@, connected@, now) {
                Some(slots_text(connected@))
            } else {
                None::<Seq<char>>
            }),
            final(self)@ == (PadLogModel {
                slot_connected: connected@,
                last_status: if slots_due(old(self)@, connected@, now) {
                    Some(now)
                } else {
                    old(self).last_status
                },
                ..old(self)@
            }),
    {
        let changed: bool = connected[0] != self.slot_connected[0] || connected[1]
            != self.slot_connected[1] || connected[2] != self.slot_connected[2] || connected[3]
            != self.slot_connected[3];
        assert(!changed ==> connected@ =~= self.slot_connected@);
        if !changed && !is_due(self.last_status, now, STATUS_MS) {
            return None;
        }
        self.last_status = Some(now);
        self.slot_connected = *connected;
        let mut out: String = "XInput slots [".to_owned();
        let ghost head = out@;
        let mut i: usize = 0;
        assert(out@ =~= head + slot_words(connected@, 0));
        while i < 4
            invariant
                i <= 4,
                out@ == head + slot_words(connected@, i as nat),
            decreases 4 - i,
        {
            if i > 0 {
                put(&mut out, ", ");
            }
            put(&mut out, decimal_of(i as u64).as_str());
            if connected[i] {
                put(&mut out, ":connected");
            } else {
                put(&mut out, ":empty");
            }
            i += 1;
            assert(out@ =~= head + slot_words(connected@, i as nat));
        }
        put(&mut out, "]");
        Some(out)
    }

    /// The line on there being no pad, now and again.
    pub fn log_no_controller(&mut self, now: u64) -> (line: Option<String>)
        ensures
            line_view(line) == (if clock::due(old(self).last_no_pad, now, NO_PAD_MS) {
                Some("XInput: no controller connected (retrying)"@)
            } else {
                None::<Seq<char>>
            }),
            final(self)@ == (PadLogModel {
                last_no_pad: if clock::due(old(self).last_no_pad, now, NO_PAD_MS) {
                    Some(now)
                } else {
                    old(self).last_no_pad
                },
                ..old(self)@
            }),
    {
        if is_due(self.last_no_pad, now, NO_PAD_MS) {
            self.last_no_pad = Some(now);
            Some("XInput: no controller connected (retrying)".to_owned())
        } else {
            None
        }
    }

    /// The line on a slot that answers with a fault, once in a while.
    pub fn log_slot_error(&mut self, slot: u32, err: u32, now: u64) -> (line: Option<String>)
        ensures
            line_view(line) == (if slot_error_due(old(self)@, err, now) {
                Some(types::error_text_spec(SecureError::GetState { slot, err }))
            } else {
                None::<Seq<char>>
            }),
            final(self)@ == (PadLogModel {
                last_slot_err: if slot_error_due(old(self)@, err, now) {
                    Some(now)
                } else {
                    old(self).last_slot_err
                },
                ..old(self)@
            }),
    {
        if err != ERROR_SUCCESS && err != ERROR_DEVICE_NOT_CONNECTED && is_due(
            self.last_slot_err,
            now,
            SLOT_ERROR_LOG_MS,
        ) {
            self.last_slot_err = Some(now);
            Some(error_text(SecureError::GetState { slot, err }))
        } else {
            None
        }
    }
}

/// A failing slot cannot flood the log: after one fault is reported, no slot's fault
/// is for a second, and then the next is again.
pub proof fn slot_errors_are_throttled(log: PadLogModel, reported_at: u64, err: u32, now: u64)
    requires
        log.last_slot_err == Some(reported_at),
        now >= reported_at,
        err != ERROR_SUCCESS,
        err != ERROR_DEVICE_NOT_CONNECTED,
    ensures
        slot_error_due(log, err, now) <==> now - reported_at >= SLOT_ERROR_LOG_MS,
{
}

/// The slot report names the four slots in order and says of each whether a pad is in it.
pub proof fn the_report_names_every_slot(connected: Seq<bool>)
    requires
        connected.len() == 4,
    ensures
        slots_text(connected) == "XInput slots ["@ + ("0"@ + slot_word(connected[0]) + ", "@ + "1"@
            + slot_word(connected[1]) + ", "@ + "2"@ + slot_word(connected[2]) + ", "@ + "3"@
            + slot_word(connected[3])) + "]"@,
        forall|i: int|
            0 <= i < 4 ==> slot_word(#[trigger] connected[i]) == if connected[i] {
                ":connected"@
            } else {
                ":empty"@
            },
{
    reveal_with_fuel(slot_words, 5);
    reveal_strlit("0");
    reveal_strlit("1");
    reveal_strlit("2");
    reveal_strlit("3");
    assert(text::decimal(0) =~= "0"@);
    assert(text::decimal(1) =~= "1"@);
    assert(text::decimal(2) =~= "2"@);
    assert(text::decimal(3) =~= "3"@);
    assert(slot_words(connected, 4) =~= "0"@ + slot_word(connected[0]) + ", "@ + "1"@ + slot_word(
        connected[1],
    ) + ", "@ + "2"@ + slot_word(connected[2]) + ", "@ + "3"@ + slot_word(connected[3]));
}

/// A change of the slots is reported at once; the same slots are reported again only
/// half a minute after the last report. An empty slot is no fault.
pub proof fn changes_are_reported_at_once(log: PadLogModel, connected: Seq<bool>, t: u64, now: u64)
    ensures
        connected != log.slot_connected ==> slots_due(log, connected, now),
        connected == log.slot_connected && log.last_status == Some(t) ==> (slots_due(
            log,
            connected,
            now,
        ) <==> now >= t + 30000),
        !slot_error_due(log, 0, now),
        !slot_error_due(log, 1167, now),
{
}

/// A change of buttons is logged with its slot, what was down before and what is down now.
pub proof fn changes_are_logged_from_before_to_now(slot: u32, prev: u16, cur: u16)
    ensures
        button_head(slot, prev, cur) == "XInput buttons slot "@ + text::decimal(slot as nat)
            + ": 0x"@ + text::hex4(prev) + " -> 0x"@ + text::hex4(cur),
{
}

} // verus!

//! Readings, messages and state shared by the poll tick, the raw HID path and
//! the backend.

use vstd::prelude::*;

use crate::pad_decode::ButtonChange;
use crate::text;
use crate::text::{concat3, decimal_of};
use crate::xusb_ioctl::XusbReport;

verus! {

/// XInput user slots.
pub const SLOTS: u32 = 4;

pub const ERROR_SUCCESS: u32 = 0;
pub const ERROR_DEVICE_NOT_CONNECTED: u32 = 1167;
pub const ERROR_EMPTY: u32 = 4306;

pub const XINPUT_KEYSTROKE_KEYDOWN: u16 = 0x0001;
pub const XINPUT_KEYSTROKE_KEYUP: u16 = 0x0002;

pub const VK_PAD_A: u16 = 0x5800;
pub const VK_PAD_B: u16 = 0x5801;
pub const VK_PAD_X: u16 = 0x5802;
pub const VK_PAD_Y: u16 = 0x5803;
pub const VK_PAD_LSHOULDER: u16 = 0x5804;
pub const VK_PAD_RSHOULDER: u16 = 0x5805;
pub const VK_PAD_DPAD_UP: u16 = 0x5810;
pub const VK_PAD_DPAD_DOWN: u16 = 0x5811;
pub const VK_PAD_DPAD_LEFT: u16 = 0x5812;
pub const VK_PAD_DPAD_RIGHT: u16 = 0x5813;

/// Keystroke events taken per slot and poll.
pub const KEYSTROKE_BURST: usize = 16;

/// The pad state of one XInput slot.
#[derive(Clone, Copy, Debug, PartialEq, Eq, Structural)]
pub struct Gamepad {
    pub buttons: u16,
    pub left_trigger: u8,
    pub right_trigger: u8,
    pub thumb_lx: i16,
    pub thumb_ly: i16,
    pub thumb_rx: i16,
    pub thumb_ry: i16,
}

/// Four stick axes as the bit patterns of the reader's single-precision values.
#[derive(Clone, Copy, Debug, PartialEq, Eq, Structural)]
pub struct AxisBits {
    pub lx: u32,
    pub ly: u32,
    pub rx: u32,
    pub ry: u32,
}

/// One decoded HID report.
#[derive(Clone, Copy, Debug, PartialEq, Eq, Structural)]
pub struct PadSample {
    pub buttons: u16,
    pub lt: u8,
    pub rt: u8,
    pub axes: AxisBits,
}

/// Where the stick axes of a message come from.
#[derive(Clone, Copy, Debug, PartialEq, Eq, Structural)]
pub enum Axes {
    /// Both sticks at rest.
    Centered,
    /// The axes of a HID sample, unchanged.
    Sample(AxisBits),
    /// Raw thumb values, zero inside the dead zone.
    Thumbs { lx: i16, ly: i16, rx: i16, ry: i16 },
}

/// One event of the keystroke queue.
#[derive(Clone, Copy, Debug, PartialEq, Eq, Structural)]
pub struct XInputKeystroke {
    pub virtual_key: u16,
    pub flags: u16,
}

/// One attempt to take an event from the keystroke queue.
#[derive(Clone, Copy, Debug, PartialEq, Eq, Structural)]
pub struct KeyReading {
    pub err: u32,
    pub key: XInputKeystroke,
}

/// What one slot answered in a tick.
pub struct SlotReading {
    pub err: u32,
    pub pad: Gamepad,
    /// The keystroke attempts of this slot, in order.
    pub keys: Vec<KeyReading>,
}

/// The first XUSB device that answered in a tick.
pub struct XusbReply {
    pub index: usize,
    pub report: XusbReport,
}

/// Everything that one poll tick reads.
pub struct TickReadings {
    /// Milliseconds.
    pub now: u64,
    /// What each HID reader returned, in reader order.
    pub hid_polls: Vec<Option<PadSample>>,
    /// HID readers still alive after the reads.
    pub hid_readers: usize,
    pub slots: [SlotReading; 4],
    /// XUSB devices open before the reads.
    pub xusb_open: usize,
    pub xusb_reply: Option<XusbReply>,
    /// XUSB devices found disconnected by the reads.
    pub xusb_lost: usize,
}

/// Faults worth a line in the service log.
#[derive(Clone, Copy, Debug, PartialEq, Eq, Structural)]
pub enum SecureError {
    GetState { slot: u32, err: u32 },
    GetKeystroke { slot: u32, err: u32 },
    XusbFreed,
}

/// What the poll thread tells the backend.
#[derive(Clone, Copy, Debug, PartialEq, Eq)]
pub enum SecureMsg {
    /// The thread is attached to the input desktop.
    Ready,
    Slots([bool; 4]),
    Buttons { slot: u32, prev: u16, cur: u16 },
    Trigger(ButtonChange),
    HidActive(bool),
    Axes(Axes),
    NoController,
    Error(SecureError),
    /// A diagnostic dump of the tick is due.
    Probe,
}

/// Suppression of pad input while keys are being injected.
#[derive(Clone, Copy, Debug, PartialEq, Eq, Structural)]
pub struct InjectHold {
    pub active: bool,
    pub ticks: u32,
}

/// The text of a fault.
pub open spec fn error_text_spec(e: SecureError) -> Seq<char> {
    match e {
        SecureError::GetState { slot, err } => "XInputGetState("@ + text::decimal(slot as nat)
            + ") error "@ + text::decimal(err as nat),
        SecureError::GetKeystroke { slot, err } => "XInputGetKeystroke("@ + text::decimal(slot as nat)
            + ") error "@ + text::decimal(err as nat),
        SecureError::XusbFreed => "XUSB: pad disconnected; slot freed"@,
    }
}

/// The log line of a fault.
pub fn error_text(e: SecureError) -> (out: String)
    ensures
        out@ == error_text_spec(e),
{
    match e {
        SecureError::GetState { slot, err } => {
            let head = concat3("XInputGetState(", decimal_of(slot as u64).as_str(), ") error ");
            crate::text::concat2(head.as_str(), decimal_of(err as u64).as_str())
        },
        SecureError::GetKeystroke { slot, err } => {
            let head = concat3("XInputGetKeystroke(", decimal_of(slot as u64).as_str(), ") error ");
            crate::text::concat2(head.as_str(), decimal_of(err as u64).as_str())
        },
        SecureError::XusbFreed => "XUSB: pad disconnected; slot freed".to_owned(),
    }
}

/// The state of the poll thread between ticks.
pub struct PollState {
    pub prev_buttons: [u16; 4],
    pub active_slot: Option<u32>,
    pub connected_prev: [bool; 4],
    pub last_status: Option<u64>,
    pub last_no_pad: Option<u64>,
    pub last_probe_log: Option<u64>,
    pub iter_count: u64,
    pub last_hid: PadSample,
    pub hid_diag_count: u32,
    /// A noisy button combination was seen; ignore changes until all are up.
    pub suppress_until_zero: bool,
    pub keystroke_events: u64,
    pub last_raw_report: Vec<u8>,
    pub last_xusb: Option<XusbReport>,
    pub hid_active_prev: bool,
    pub last_hid_scan: Option<u64>,
    pub last_xusb_scan: Option<u64>,
    pub last_slot_err_log: Option<u64>,
    pub prev_trigger_left: bool,
    pub prev_trigger_right: bool,
}

/// `PollState` as a mathematical value.
pub struct PollModel {
    pub prev_buttons: Seq<u16>,
    pub active_slot: Option<u32>,
    pub connected_prev: Seq<bool>,
    pub last_status: Option<u64>,
    pub last_no_pad: Option<u64>,
    pub last_probe_log: Option<u64>,
    pub iter_count: int,
    pub last_hid: PadSample,
    pub hid_diag_count: u32,
    pub suppress_until_zero: bool,
    pub keystroke_events: int,
    pub last_raw_report: Seq<u8>,
    pub last_xusb: Option<XusbReport>,
    pub hid_active_prev: bool,
    pub last_hid_scan: Option<u64>,
    pub last_xusb_scan: Option<u64>,
    pub last_slot_err_log: Option<u64>,
    pub prev_trigger_left: bool,
    pub prev_trigger_right: bool,
}

impl View for PollState {
    type V = PollModel;

    open spec fn view(&self) -> PollModel {
        PollModel {
            prev_buttons: self.prev_buttons@,
            active_slot: self.active_slot,
            connected_prev: self.connected_prev@,
            last_status: self.last_status,
            last_no_pad: self.last_no_pad,
            last_probe_log: self.last_probe_log,
            iter_count: self.iter_count as int,
            last_hid: self.last_hid,
            hid_diag_count: self.hid_diag_count,
            suppress_until_zero: self.suppress_until_zero,
            keystroke_events: self.keystroke_events as int,
            last_raw_report: self.last_raw_report@,
            last_xusb: self.last_xusb,
            hid_active_prev: self.hid_active_prev,
            last_hid_scan: self.last_hid_scan,
            last_xusb_scan: self.last_xusb_scan,
            last_slot_err_log: self.last_slot_err_log,
            prev_trigger_left: self.prev_trigger_left,
            prev_trigger_right: self.prev_trigger_right,
        }
    }
}

/// A pad at rest.
pub open spec fn neutral_sample() -> PadSample {
    PadSample { buttons: 0, lt: 0, rt: 0, axes: AxisBits { lx: 0, ly: 0, rx: 0, ry: 0 } }
}

/// The state of a poll thread that has not ticked yet.
pub open spec fn fresh_model() -> PollModel {
    PollModel {
        prev_buttons: seq![0u16, 0u16, 0u16, 0u16],
        active_slot: None,
        connected_prev: seq![false, false, false, false],
        last_status: None,
        last_no_pad: None,
        last_probe_log: None,
        iter_count: 0,
        last_hid: neutral_sample(),
        hid_diag_count: 0,
        suppress_until_zero: false,
        keystroke_events: 0,
        last_raw_report: seq![],
        last_xusb: None,
        hid_active_prev: false,
        last_hid_scan: None,
        last_xusb_scan: None,
        last_slot_err_log: None,
        prev_trigger_left: false,
        prev_trigger_right: false,
    }
}

impl PollState {
    /// The slots the state speaks of exist.
    pub open spec fn wf(self) -> bool {
        self.active_slot matches Some(i) ==> i < SLOTS
    }

    pub fn new() -> (s: Self)
        ensures
            s.wf(),
            s@ == fresh_model(),
    {
        let s = PollState {
            prev_buttons: [0, 0, 0, 0],
            active_slot: None,
            connected_prev: [false, false, false, false],
            last_status: None,
            last_no_pad: None,
            last_probe_log: None,
            iter_count: 0,
            last_hid: PadSample {
                buttons: 0,
                lt: 0,
                rt: 0,
                axes: AxisBits { lx: 0, ly: 0, rx: 0, ry: 0 },
            },
            hid_diag_count: 0,
            suppress_until_zero: false,
            keystroke_events: 0,
            last_raw_report: Vec::new(),
            last_xusb: None,
            hid_active_prev: false,
            last_hid_scan: None,
            last_xusb_scan: None,
            last_slot_err_log: None,
            prev_trigger_left: false,
            prev_trigger_right: false,
        };
        assert(s.prev_buttons@ =~= fresh_model().prev_buttons);
        assert(s.connected_prev@ =~= fresh_model().connected_prev);
        assert(s.last_raw_report@ =~= fresh_model().last_raw_report);
        s
    }
}

/// A fault's line says what was asked of which slot, and the number it was answered with.
pub proof fn faults_name_the_slot(slot: u32, err: u32)
    ensures
        error_text_spec(SecureError::GetState { slot, err }) == "XInputGetState("@ + text::decimal(
            slot as nat,
        ) + ") error "@ + text::decimal(err as nat),
        error_text_spec(SecureError::GetKeystroke { slot, err }) == "XInputGetKeystroke("@
            + text::decimal(slot as nat) + ") error "@ + text::decimal(err as nat),
{
}

/// A poll thread starts with nothing pressed on any slot, no pad in use, nothing being
/// suppressed, and nothing looked for or written yet.
pub proof fn a_fresh_thread_has_seen_nothing(slot: int)
    requires
        0 <= slot < 4,
    ensures
        ({
            let s = fresh_model();
            &&& s.prev_buttons.len() == 4 && s.connected_prev.len() == 4
            &&& s.prev_buttons[slot] == 0 && !s.connected_prev[slot]
            &&& s.active_slot is None
            &&& s.last_hid.buttons == 0 && s.last_hid.lt == 0 && s.last_hid.rt == 0
            &&& s.last_hid.axes.lx == 0 && s.last_hid.axes.ly == 0 && s.last_hid.axes.rx == 0
                && s.last_hid.axes.ry == 0
            &&& !s.prev_trigger_left && !s.prev_trigger_right
            &&& !s.suppress_until_zero && !s.hid_active_prev
            &&& s.last_xusb is None && s.last_raw_report.len() == 0
            &&& s.last_status is None && s.last_no_pad is None && s.last_probe_log is None
                && s.last_hid_scan is None && s.last_xusb_scan is None && s.last_slot_err_log is None
        }),
{
}

} // verus!

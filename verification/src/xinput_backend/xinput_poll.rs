//! The poll tick: from one round of device readings to messages.

use vstd::prelude::*;

use super::types::{
    Axes, Gamepad, InjectHold, KeyReading, PadSample, PollModel, PollState, SecureError, SecureMsg,
    SlotReading, TickReadings, XInputKeystroke, ERROR_DEVICE_NOT_CONNECTED, ERROR_EMPTY,
    ERROR_SUCCESS, KEYSTROKE_BURST, SLOTS, VK_PAD_A, VK_PAD_B, VK_PAD_DPAD_DOWN, VK_PAD_DPAD_LEFT,
    VK_PAD_DPAD_RIGHT, VK_PAD_DPAD_UP, VK_PAD_LSHOULDER, VK_PAD_RSHOULDER, VK_PAD_X, VK_PAD_Y,
    XINPUT_KEYSTROKE_KEYDOWN, XINPUT_KEYSTROKE_KEYUP,
};
use crate::clock;
use crate::clock::is_due;
use crate::pad_decode;
use crate::pad_decode::{
    norm_thumb, poll_trigger_edges, ButtonChange, DPAD_DOWN, DPAD_LEFT, DPAD_RIGHT, DPAD_UP,
    LEFT_DEADZONE, LEFT_SHOULDER, PAD_A, PAD_B, PAD_X, PAD_Y, RIGHT_DEADZONE, RIGHT_SHOULDER,
    TRIGGER_PRESS_THRESH,
};
use crate::xusb_ioctl::XusbReport;

verus! {

pub const XUSB_RESCAN_MS: u64 = 1000;
pub const HID_RESCAN_MS: u64 = 150;
pub const SLOT_ERROR_LOG_MS: u64 = 1000;
pub const PROBE_LOG_MS: u64 = 2000;
pub const STATUS_MS: u64 = 30000;
pub const NO_PAD_MS: u64 = 15000;

/// Whether HID readings own slot 0: only while no XUSB pad is open.
pub fn hid_is_authoritative(hid_device_count: usize, xusb_device_count: usize) -> (r: bool)
    ensures
        r == (hid_device_count > 0 && xusb_device_count == 0),
{
    hid_device_count > 0 && xusb_device_count == 0
}

/// The mask bit of a keystroke's virtual key.
pub open spec fn key_mask(vk: u16) -> Option<u16> {
    if vk == VK_PAD_DPAD_UP {
        Some(DPAD_UP)
    } else if vk == VK_PAD_DPAD_DOWN {
        Some(DPAD_DOWN)
    } else if vk == VK_PAD_DPAD_LEFT {
        Some(DPAD_LEFT)
    } else if vk == VK_PAD_DPAD_RIGHT {
        Some(DPAD_RIGHT)
    } else if vk == VK_PAD_A {
        Some(PAD_A)
    } else if vk == VK_PAD_B {
        Some(PAD_B)
    } else if vk == VK_PAD_X {
        Some(PAD_X)
    } else if vk == VK_PAD_Y {
        Some(PAD_Y)
    } else if vk == VK_PAD_LSHOULDER {
        Some(LEFT_SHOULDER)
    } else if vk == VK_PAD_RSHOULDER {
        Some(RIGHT_SHOULDER)
    } else {
        None
    }
}

/// `key_mask`, computed.
pub fn key_to_mask(vk: u16) -> (mask: Option<u16>)
    ensures
        mask == key_mask(vk),
{
    if vk == VK_PAD_DPAD_UP {
        Some(DPAD_UP)
    } else if vk == VK_PAD_DPAD_DOWN {
        Some(DPAD_DOWN)
    } else if vk == VK_PAD_DPAD_LEFT {
        Some(DPAD_LEFT)
    } else if vk == VK_PAD_DPAD_RIGHT {
        Some(DPAD_RIGHT)
    } else if vk == VK_PAD_A {
        Some(PAD_A)
    } else if vk == VK_PAD_B {
        Some(PAD_B)
    } else if vk == VK_PAD_X {
        Some(PAD_X)
    } else if vk == VK_PAD_Y {
        Some(PAD_Y)
    } else if vk == VK_PAD_LSHOULDER {
        Some(LEFT_SHOULDER)
    } else if vk == VK_PAD_RSHOULDER {
        Some(RIGHT_SHOULDER)
    } else {
        None
    }
}

/// The buttons after one keystroke event: its bit set on key-down, then cleared
/// on key-up.
pub open spec fn after_key(prev: u16, key: XInputKeystroke, mask: u16) -> u16 {
    let down = if key.flags & XINPUT_KEYSTROKE_KEYDOWN != 0 {
        prev | mask
    } else {
        prev
    };
    if key.flags & XINPUT_KEYSTROKE_KEYUP != 0 {
        down & !mask
    } else {
        down
    }
}

/// What a run of keystroke attempts does.
pub struct KeyRun {
    pub cur: u16,
    pub events: int,
    pub msgs: Seq<SecureMsg>,
}

/// The effect of taking at most `limit` events: an empty queue ends the run, an
/// error ends it with a fault, an unknown key only counts.
pub open spec fn key_run(slot: u32, prev: u16, keys: Seq<KeyReading>, limit: nat) -> KeyRun
    decreases limit,
{
    if limit == 0 || keys.len() == 0 || keys[0].err == ERROR_EMPTY || keys[0].err
        == ERROR_DEVICE_NOT_CONNECTED {
        KeyRun { cur: prev, events: 0, msgs: seq![] }
    } else if keys[0].err != ERROR_SUCCESS {
        KeyRun {
            cur: prev,
            events: 0,
            msgs: seq![SecureMsg::Error(SecureError::GetKeystroke { slot, err: keys[0].err })],
        }
    } else {
        let cur = match key_mask(keys[0].key.virtual_key) {
            Some(mask) => after_key(prev, keys[0].key, mask),
            None => prev,
        };
        let rest = key_run(slot, cur, keys.drop_first(), (limit - 1) as nat);
        let change = if cur != prev {
            seq![SecureMsg::Buttons { slot, prev, cur }]
        } else {
            seq![]
        };
        KeyRun { cur: rest.cur, events: rest.events + 1, msgs: change + rest.msgs }
    }
}

/// Applies the keystroke attempts of one slot to its button mask and reports
/// every change. Returns how many events were taken.
pub fn secure_poll_keystrokes(
    msgs: &mut Vec<SecureMsg>,
    slot: u32,
    buttons: &mut u16,
    keys: &Vec<KeyReading>,
) -> (events: u64)
    ensures
        ({
            let run = key_run(slot, *old(buttons), keys@, KEYSTROKE_BURST as nat);
            &&& *final(buttons) == run.cur
            &&& events == run.events
            &&& events <= KEYSTROKE_BURST
            &&& final(msgs)@ == old(msgs)@ + run.msgs
        }),
{
    let mut events: u64 = 0;
    let mut i: usize = 0;
    let ghost whole = key_run(slot, *buttons, keys@, KEYSTROKE_BURST as nat);
    assert(keys@.skip(0) =~= keys@);
    assert(msgs@ + key_run(slot, *buttons, keys@.skip(0), KEYSTROKE_BURST as nat).msgs =~= msgs@
        + whole.msgs);
    while i < KEYSTROKE_BURST && i < keys.len()
        invariant_except_break
            i <= KEYSTROKE_BURST,
            i <= keys.len(),
            events == i,
            ({
                let rest = key_run(slot, *buttons, keys@.skip(i as int), (KEYSTROKE_BURST - i) as nat);
                &&& rest.cur == whole.cur
                &&& rest.events + events == whole.events
                &&& msgs@ + rest.msgs == old(msgs)@ + whole.msgs
            }),
        ensures
            *buttons == whole.cur,
            events == whole.events,
            events <= KEYSTROKE_BURST,
            msgs@ == old(msgs)@ + whole.msgs,
        decreases KEYSTROKE_BURST - i,
    {
        let reading = keys[i];
        let ghost here = keys@.skip(i as int);
        let ghost left = (KEYSTROKE_BURST - i) as nat;
        let ghost before = msgs@;
        let ghost prev_ghost = *buttons;
        assert(here.len() > 0 && here[0] == reading);
        if reading.err == ERROR_EMPTY || reading.err == ERROR_DEVICE_NOT_CONNECTED {
            assert(before + key_run(slot, *buttons, here, left).msgs =~= before);
            break;
        }
        if reading.err != ERROR_SUCCESS {
            msgs.push(SecureMsg::Error(SecureError::GetKeystroke { slot, err: reading.err }));
            assert(msgs@ =~= before + key_run(slot, *buttons, here, left).msgs);
            break;
        }
        events += 1;
        let prev: u16 = *buttons;
        if let Some(mask) = key_to_mask(reading.key.virtual_key) {
            let mut cur: u16 = prev;
            if reading.key.flags & XINPUT_KEYSTROKE_KEYDOWN != 0 {
                cur = cur | mask;
            }
            if reading.key.flags & XINPUT_KEYSTROKE_KEYUP != 0 {
                cur = cur & !mask;
            }
            if prev != cur {
                *buttons = cur;
                msgs.push(SecureMsg::Buttons { slot, prev, cur });
            }
        }
        i += 1;
        proof {
            assert(here.drop_first() =~= keys@.skip(i as int));
            let rest = key_run(slot, *buttons, keys@.skip(i as int), (left - 1) as nat);
            assert(before + key_run(slot, prev_ghost, here, left).msgs =~= msgs@ + rest.msgs);
        }
    }
    events
}

/// Whether a sample shows nothing held.
pub open spec fn is_neutral(s: PadSample) -> bool {
    s.buttons == 0 && s.lt == 0 && s.rt == 0
}

/// The sample to keep out of one round of reads: a later sample replaces an
/// earlier one only while that one is neutral.
pub open spec fn freshest(polls: Seq<Option<PadSample>>) -> Option<PadSample>
    decreases polls.len(),
{
    if polls.len() == 0 {
        None
    } else {
        let kept = freshest(polls.drop_last());
        match (polls.last(), kept) {
            (None, _) => kept,
            (Some(_), Some(k)) if !is_neutral(k) => kept,
            (Some(v), _) => Some(v),
        }
    }
}

fn pick_sample(polls: &Vec<Option<PadSample>>) -> (kept: Option<PadSample>)
    ensures
        kept == freshest(polls@),
{
    let mut kept: Option<PadSample> = None;
    let mut i: usize = 0;
    while i < polls.len()
        invariant
            i <= polls.len(),
            kept == freshest(polls@.take(i as int)),
        decreases polls.len() - i,
    {
        if let Some(sample) = polls[i] {
            let replace = match kept {
                None => true,
                Some(k) => k.buttons == 0 && k.lt == 0 && k.rt == 0,
            };
            if replace {
                kept = Some(sample);
            }
        }
        i += 1;
        assert(polls@.take(i as int).drop_last() =~= polls@.take(i - 1));
    }
    assert(polls@.take(polls@.len() as int) =~= polls@);
    kept
}

/// What reading the slots up to some point found.
pub struct SlotScan {
    pub connected: Seq<bool>,
    pub prev_buttons: Seq<u16>,
    pub events: int,
    pub last_err: Option<u64>,
    pub msgs: Seq<SecureMsg>,
}

/// The scan after one more slot. The keystroke queue is only consulted while no
/// XUSB pad is open.
pub open spec fn scan_slot(acc: SlotScan, i: int, reading: SlotReading, now: u64, keys_on: bool) -> SlotScan {
    let ok = reading.err == ERROR_SUCCESS;
    let report = !ok && reading.err != ERROR_DEVICE_NOT_CONNECTED && clock::due(
        acc.last_err,
        now,
        SLOT_ERROR_LOG_MS,
    );
    let fault = if report {
        seq![SecureMsg::Error(SecureError::GetState { slot: i as u32, err: reading.err })]
    } else {
        seq![]
    };
    let run = key_run(i as u32, acc.prev_buttons[i], reading.keys@, KEYSTROKE_BURST as nat);
    SlotScan {
        connected: acc.connected.push(ok),
        prev_buttons: if keys_on {
            acc.prev_buttons.update(i, run.cur)
        } else {
            acc.prev_buttons
        },
        events: if keys_on {
            acc.events + run.events
        } else {
            acc.events
        },
        last_err: if report {
            Some(now)
        } else {
            acc.last_err
        },
        msgs: if keys_on {
            acc.msgs + fault + run.msgs
        } else {
            acc.msgs + fault
        },
    }
}

/// The scan of the first `n` slots.
pub open spec fn scan_slots(s: PollModel, r: TickReadings, n: nat) -> SlotScan
    decreases n,
{
    if n == 0 {
        SlotScan {
            connected: seq![],
            prev_buttons: s.prev_buttons,
            events: 0,
            last_err: s.last_slot_err_log,
            msgs: seq![],
        }
    } else {
        scan_slot(
            scan_slots(s, r, (n - 1) as nat),
            n - 1,
            r.slots@[n - 1],
            r.now,
            r.xusb_open == 0,
        )
    }
}

/// XUSB devices left open after the reads.
pub open spec fn xusb_left(r: TickReadings) -> int {
    r.xusb_open - r.xusb_lost
}

/// Whether the last XUSB device went away in this tick.
pub open spec fn xusb_freed(r: TickReadings) -> bool {
    r.xusb_lost > 0 && xusb_left(r) == 0
}

/// Whether slot 0 belongs to a HID pad.
pub open spec fn hid_owns(r: TickReadings) -> bool {
    r.hid_readers > 0 && xusb_left(r) == 0
}

/// The slots with a pad: those XInput answered for, the answering XUSB device's,
/// and slot 0 while HID owns it.
pub open spec fn connected_now(scanned: Seq<bool>, r: TickReadings) -> Seq<bool> {
    let with_xusb = match r.xusb_reply {
        Some(reply) => if reply.index < SLOTS {
            scanned.update(reply.index as int, true)
        } else {
            scanned
        },
        None => scanned,
    };
    if hid_owns(r) {
        with_xusb.update(0, true)
    } else {
        with_xusb
    }
}

/// The first connected slot at or after `from`.
pub open spec fn first_connected(connected: Seq<bool>, from: int) -> Option<u32>
    decreases connected.len() - from,
{
    if from < 0 || from >= connected.len() {
        None
    } else if connected[from] {
        Some(from as u32)
    } else {
        first_connected(connected, from + 1)
    }
}

/// The slot to read: the active one while it is connected, else the first
/// connected one.
pub open spec fn choose_slot(active: Option<u32>, connected: Seq<bool>) -> Option<u32> {
    match active {
        Some(i) if i < connected.len() && connected[i as int] => active,
        _ => first_connected(connected, 0),
    }
}

/// The first connected slot.
pub fn find_connected(connected: &[bool; 4]) -> (slot: Option<u32>)
    ensures
        slot == first_connected(connected@, 0),
        slot matches Some(i) ==> i < SLOTS && connected@[i as int],
{
    reveal_with_fuel(first_connected, 6);
    if connected[0] {
        Some(0)
    } else if connected[1] {
        Some(1)
    } else if connected[2] {
        Some(2)
    } else if connected[3] {
        Some(3)
    } else {
        None
    }
}

/// The pad state that a report carries.
pub open spec fn report_pad(r: XusbReport) -> Gamepad {
    Gamepad {
        buttons: r.buttons,
        left_trigger: r.left_trigger,
        right_trigger: r.right_trigger,
        thumb_lx: r.thumb_lx,
        thumb_ly: r.thumb_ly,
        thumb_rx: r.thumb_rx,
        thumb_ry: r.thumb_ry,
    }
}

/// A pad at rest.
pub open spec fn neutral_pad() -> Gamepad {
    Gamepad {
        buttons: 0,
        left_trigger: 0,
        right_trigger: 0,
        thumb_lx: 0,
        thumb_ly: 0,
        thumb_rx: 0,
        thumb_ry: 0,
    }
}

/// The pad state to deliver for `slot`: the last XUSB report while a device is
/// open, else what XInput answered, else a pad at rest.
pub open spec fn source_pad(s: PollModel, slot: int, r: TickReadings) -> Gamepad {
    match s.last_xusb {
        Some(rep) if xusb_left(r) > 0 => report_pad(rep),
        _ => if r.slots@[slot].err == ERROR_SUCCESS {
            r.slots@[slot].pad
        } else {
            neutral_pad()
        },
    }
}

/// Whether an axis is outside the left dead zone.
pub open spec fn axis_active(v: i16) -> bool {
    v > LEFT_DEADZONE || v < -LEFT_DEADZONE
}

/// The axes to deliver: the pad's own once its left stick moves, else those of
/// the last HID sample.
pub open spec fn source_axes(pad: Gamepad, hid: PadSample) -> Axes {
    if axis_active(pad.thumb_lx) || axis_active(pad.thumb_ly) {
        Axes::Thumbs {
            lx: pad_decode::past_deadzone(pad.thumb_lx, LEFT_DEADZONE),
            ly: pad_decode::past_deadzone(pad.thumb_ly, LEFT_DEADZONE),
            rx: pad_decode::past_deadzone(pad.thumb_rx, RIGHT_DEADZONE),
            ry: pad_decode::past_deadzone(pad.thumb_ry, RIGHT_DEADZONE),
        }
    } else {
        Axes::Sample(hid.axes)
    }
}

/// The message for a changed button mask, or nothing.
pub open spec fn button_msgs(slot: u32, prev: u16, cur: u16) -> Seq<SecureMsg> {
    if prev != cur {
        seq![SecureMsg::Buttons { slot, prev, cur }]
    } else {
        seq![]
    }
}

pub open spec fn trigger_msgs(changes: Seq<ButtonChange>) -> Seq<SecureMsg> {
    changes.map_values(|c: ButtonChange| SecureMsg::Trigger(c))
}

/// A state and the messages sent so far.
pub struct Delivery {
    pub state: PollModel,
    pub msgs: Seq<SecureMsg>,
}

/// What a tick leaves behind.
pub struct TickOutcome {
    pub state: PollModel,
    pub hold: InjectHold,
    pub msgs: Seq<SecureMsg>,
}

/// Delivers a HID sample on slot 0: buttons, triggers, axes.
pub open spec fn deliver_hid(s: PollModel, msgs: Seq<SecureMsg>) -> Delivery {
    Delivery {
        state: PollModel {
            prev_buttons: s.prev_buttons.update(0, s.last_hid.buttons),
            prev_trigger_left: s.last_hid.lt > TRIGGER_PRESS_THRESH,
            prev_trigger_right: s.last_hid.rt > TRIGGER_PRESS_THRESH,
            ..s
        },
        msgs: msgs + button_msgs(0, s.prev_buttons[0], s.last_hid.buttons) + trigger_msgs(
            pad_decode::trigger_changes(
                s.prev_trigger_left,
                s.prev_trigger_right,
                s.last_hid.lt,
                s.last_hid.rt,
            ),
        ) + seq![SecureMsg::Axes(Axes::Sample(s.last_hid.axes))],
    }
}

/// Delivers a pad state on `slot`: triggers, buttons, axes.
pub open spec fn deliver_pad(s: PollModel, msgs: Seq<SecureMsg>, slot: u32, pad: Gamepad) -> Delivery {
    Delivery {
        state: PollModel {
            prev_buttons: s.prev_buttons.update(slot as int, pad.buttons),
            prev_trigger_left: pad.left_trigger > TRIGGER_PRESS_THRESH,
            prev_trigger_right: pad.right_trigger > TRIGGER_PRESS_THRESH,
            ..s
        },
        msgs: msgs + trigger_msgs(
            pad_decode::trigger_changes(
                s.prev_trigger_left,
                s.prev_trigger_right,
                pad.left_trigger,
                pad.right_trigger,
            ),
        ) + button_msgs(slot, s.prev_buttons[slot as int], pad.buttons) + seq![
            SecureMsg::Axes(source_axes(pad, s.last_hid)),
        ],
    }
}

/// The start of a live tick: a due probe, a due or changed slot report, and the
/// slot to read, or the news that there is none.
pub open spec fn live_start(s: PollModel, msgs: Seq<SecureMsg>, connected: Seq<bool>, now: u64) -> Delivery {
    let probe = s.iter_count == 0 || clock::due(s.last_probe_log, now, PROBE_LOG_MS);
    let status = connected != s.connected_prev || clock::due(s.last_status, now, STATUS_MS);
    let slot = choose_slot(s.active_slot, connected);
    let no_pad = slot is None && clock::due(s.last_no_pad, now, NO_PAD_MS);
    let msgs1 = if probe { msgs.push(SecureMsg::Probe) } else { msgs };
    let msgs2 = if status { msgs1.push(SecureMsg::Slots(slot_flags(connected))) } else { msgs1 };
    Delivery {
        state: PollModel {
            iter_count: s.iter_count + 1,
            last_probe_log: if probe { Some(now) } else { s.last_probe_log },
            last_status: if status { Some(now) } else { s.last_status },
            connected_prev: if status { connected } else { s.connected_prev },
            active_slot: slot,
            last_no_pad: if no_pad { Some(now) } else { s.last_no_pad },
            ..s
        },
        msgs: if no_pad { msgs2.push(SecureMsg::NoController) } else { msgs2 },
    }
}

/// The tick outside an inject hold: `live_start`, then the input of the chosen
/// slot.
pub open spec fn live_outcome(s: PollModel, msgs: Seq<SecureMsg>, connected: Seq<bool>, r: TickReadings) -> Delivery {
    let start = live_start(s, msgs, connected, r.now);
    match start.state.active_slot {
        None => start,
        Some(i) => if hid_owns(r) && i == 0 {
            deliver_hid(start.state, start.msgs)
        } else {
            deliver_pad(start.state, start.msgs, i, source_pad(start.state, i as int, r))
        },
    }
}

/// The four flags as an array.
pub open spec fn slot_flags(connected: Seq<bool>) -> [bool; 4] {
    [connected[0], connected[1], connected[2], connected[3]]
}

/// The release of every held button from slot `from` on.
pub open spec fn release_msgs(prev_buttons: Seq<u16>, from: int) -> Seq<SecureMsg>
    decreases prev_buttons.len() - from,
{
    if from < 0 || from >= prev_buttons.len() {
        seq![]
    } else {
        button_msgs(from as u32, prev_buttons[from], 0) + release_msgs(prev_buttons, from + 1)
    }
}

/// The tick during an inject hold: sticks centred while it lasts; when it runs
/// out, every held button is released and the last XUSB report forgotten.
pub open spec fn held_outcome(s: PollModel, hold: InjectHold, msgs: Seq<SecureMsg>) -> TickOutcome {
    if hold.ticks > 0 {
        TickOutcome {
            state: s,
            hold: InjectHold { active: true, ticks: (hold.ticks - 1) as u32 },
            msgs: msgs.push(SecureMsg::Axes(Axes::Centered)),
        }
    } else {
        TickOutcome {
            state: PollModel {
                last_xusb: None,
                prev_buttons: seq![0u16, 0u16, 0u16, 0u16],
                ..s
            },
            hold: InjectHold { active: false, ticks: 0 },
            msgs: (msgs + release_msgs(s.prev_buttons, 0)).push(SecureMsg::Axes(Axes::Centered)),
        }
    }
}

/// The state after the readings are taken in, before any input is delivered.
pub open spec fn absorbed(s: PollModel, r: TickReadings) -> PollModel {
    let scan = scan_slots(s, r, 4);
    PollModel {
        last_hid: match freshest(r.hid_polls@) {
            Some(sample) => sample,
            None => s.last_hid,
        },
        prev_buttons: scan.prev_buttons,
        keystroke_events: s.keystroke_events + scan.events,
        last_slot_err_log: scan.last_err,
        last_xusb: match r.xusb_reply {
            Some(reply) => Some(reply.report),
            None => if xusb_freed(r) { None } else { s.last_xusb },
        },
        hid_active_prev: hid_owns(r),
        ..s
    }
}

/// The messages of taking the readings in.
pub open spec fn absorb_msgs(s: PollModel, r: TickReadings) -> Seq<SecureMsg> {
    let freed = if xusb_freed(r) {
        seq![SecureMsg::Error(SecureError::XusbFreed)]
    } else {
        seq![]
    };
    let hid = if hid_owns(r) != s.hid_active_prev {
        seq![SecureMsg::HidActive(hid_owns(r))]
    } else {
        seq![]
    };
    scan_slots(s, r, 4).msgs + freed + hid
}

/// What one tick does.
pub open spec fn tick_outcome(s: PollModel, hold: InjectHold, r: TickReadings) -> TickOutcome {
    let s1 = absorbed(s, r);
    let msgs = absorb_msgs(s, r);
    if hold.active {
        held_outcome(s1, hold, msgs)
    } else {
        let live = live_outcome(s1, msgs, connected_now(scan_slots(s, r, 4).connected, r), r);
        TickOutcome { state: live.state, hold, msgs: live.msgs }
    }
}

/// What the debug overlay shows of a tick.
#[derive(Clone, Copy, Debug, PartialEq, Eq, Structural)]
pub struct Detail {
    /// Buttons XInput reports for slot 0.
    pub xinput: u16,
    /// Buttons of the last XUSB report.
    pub xusb: u16,
    pub fingerprint: u32,
    pub hid: PadSample,
}

/// What a tick hands out.
pub struct TickOutput {
    pub messages: Vec<SecureMsg>,
    /// Absent during an inject hold.
    pub detail: Option<Detail>,
}

/// The running fold of the first `n` bytes of a report from byte 7 on, where
/// the pad state begins to differ from the free-running counter.
pub open spec fn fingerprint_upto(raw: Seq<u8>, n: int) -> int
    decreases n,
{
    if n <= 7 {
        0
    } else {
        (fingerprint_upto(raw, n - 1) * 31 + raw[n - 1]) % 0x1_0000_0000
    }
}

/// A number that moves whenever an input byte of the report moves.
pub fn input_fingerprint(raw: &Vec<u8>) -> (r: u32)
    ensures
        r == fingerprint_upto(raw@, raw@.len() as int),
{
    let mut acc: u32 = 0;
    let mut i: usize = 7;
    if raw.len() <= 7 {
        return 0;
    }
    while i < raw.len()
        invariant
            7 <= i <= raw.len(),
            acc == fingerprint_upto(raw@, i as int),
        decreases raw.len() - i,
    {
        acc = acc.wrapping_mul(31).wrapping_add(raw[i] as u32);
        i += 1;
    }
    acc
}

/// What the overlay shows of a tick that reaches the input stage.
pub open spec fn detail_of(s: PollModel, r: TickReadings) -> Detail {
    Detail {
        xinput: if r.slots@[0].err == ERROR_SUCCESS {
            r.slots@[0].pad.buttons
        } else {
            0
        },
        xusb: match s.last_xusb {
            Some(rep) => rep.buttons,
            None => 0,
        },
        fingerprint: match s.last_xusb {
            Some(rep) => fingerprint_upto(rep.raw@, rep.raw@.len() as int) as u32,
            None => 0,
        },
        hid: s.last_hid,
    }
}

fn push_all_triggers(msgs: &mut Vec<SecureMsg>, changes: &Vec<ButtonChange>)
    ensures
        final(msgs)@ == old(msgs)@ + trigger_msgs(changes@),
{
    let mut i: usize = 0;
    assert(msgs@ =~= msgs@ + trigger_msgs(changes@.take(0)));
    while i < changes.len()
        invariant
            i <= changes.len(),
            msgs@ == old(msgs)@ + trigger_msgs(changes@.take(i as int)),
        decreases changes.len() - i,
    {
        msgs.push(SecureMsg::Trigger(changes[i]));
        i += 1;
        assert(old(msgs)@ + trigger_msgs(changes@.take(i as int)) =~= (old(msgs)@ + trigger_msgs(
            changes@.take(i - 1),
        )).push(SecureMsg::Trigger(changes@[i - 1])));
    }
    assert(changes@.take(changes@.len() as int) =~= changes@);
}

fn is_axis_active(v: i16) -> (r: bool)
    ensures
        r == axis_active(v),
{
    v > LEFT_DEADZONE || v < -LEFT_DEADZONE
}

fn axes_for(pad: Gamepad, hid: PadSample) -> (axes: Axes)
    ensures
        axes == source_axes(pad, hid),
{
    if is_axis_active(pad.thumb_lx) || is_axis_active(pad.thumb_ly) {
        Axes::Thumbs {
            lx: norm_thumb(pad.thumb_lx, LEFT_DEADZONE),
            ly: norm_thumb(pad.thumb_ly, LEFT_DEADZONE),
            rx: norm_thumb(pad.thumb_rx, RIGHT_DEADZONE),
            ry: norm_thumb(pad.thumb_ry, RIGHT_DEADZONE),
        }
    } else {
        Axes::Sample(hid.axes)
    }
}

impl PollState {
    /// Whether to look for XUSB pads now: none is open and the last look was a
    /// while ago. A look is recorded.
    pub fn xusb_scan_due(&mut self, open: usize, now: u64) -> (r: bool)
        ensures
            r == (open == 0 && clock::due(old(self).last_xusb_scan, now, XUSB_RESCAN_MS)),
            old(self).last_xusb_scan matches Some(t) ==> (r <==> open == 0 && now >= t + 1000),
            final(self)@ == (PollModel {
                last_xusb_scan: if r { Some(now) } else { old(self).last_xusb_scan },
                ..old(self)@
            }),
    {
        if open == 0 && is_due(self.last_xusb_scan, now, XUSB_RESCAN_MS) {
            self.last_xusb_scan = Some(now);
            true
        } else {
            false
        }
    }

    /// Whether to look for HID pads now: no reader is alive and the last look
    /// was a while ago. A look is recorded.
    pub fn hid_scan_due(&mut self, readers: usize, now: u64) -> (r: bool)
        ensures
            r == (readers == 0 && clock::due(old(self).last_hid_scan, now, HID_RESCAN_MS)),
            old(self).last_hid_scan matches Some(t) ==> (r <==> readers == 0 && now >= t + 150),
            final(self)@ == (PollModel {
                last_hid_scan: if r { Some(now) } else { old(self).last_hid_scan },
                ..old(self)@
            }),
    {
        if readers == 0 && is_due(self.last_hid_scan, now, HID_RESCAN_MS) {
            self.last_hid_scan = Some(now);
            true
        } else {
            false
        }
    }

    /// Reads the slots into the state and returns which are connected.
    fn scan(&mut self, r: &TickReadings, msgs: &mut Vec<SecureMsg>) -> (connected: [bool; 4])
        requires
            old(self).keystroke_events + 64 <= u64::MAX,
        ensures
            ({
                let scan = scan_slots(old(self)@, *r, 4);
                &&& connected@ == scan.connected
                &&& final(msgs)@ == old(msgs)@ + scan.msgs
                &&& final(self)@ == (PollModel {
                    prev_buttons: scan.prev_buttons,
                    keystroke_events: old(self)@.keystroke_events + scan.events,
                    last_slot_err_log: scan.last_err,
                    ..old(self)@
                })
            }),
    {
        let ghost s0 = self@;
        let mut connected: [bool; 4] = [false, false, false, false];
        let mut slot: usize = 0;
        assert(msgs@ =~= msgs@ + scan_slots(s0, *r, 0).msgs);
        assert(connected@.take(0) =~= Seq::<bool>::empty());
        while slot < 4
            invariant
                slot <= 4,
                s0 == old(self)@,
                old(self).keystroke_events + 64 <= u64::MAX,
                self.keystroke_events <= old(self).keystroke_events + 16 * slot,
                connected@.take(slot as int) == scan_slots(s0, *r, slot as nat).connected,
                forall|k: int| slot <= k < 4 ==> !connected@[k],
                msgs@ == old(msgs)@ + scan_slots(s0, *r, slot as nat).msgs,
                self@ == (PollModel {
                    prev_buttons: scan_slots(s0, *r, slot as nat).prev_buttons,
                    keystroke_events: s0.keystroke_events + scan_slots(s0, *r, slot as nat).events,
                    last_slot_err_log: scan_slots(s0, *r, slot as nat).last_err,
                    ..s0
                }),
            decreases 4 - slot,
        {
            let ghost acc = scan_slots(s0, *r, slot as nat);
            let ghost before = msgs@;
            let reading = &r.slots[slot];
            if reading.err == ERROR_SUCCESS {
                connected[slot] = true;
            } else if reading.err != ERROR_DEVICE_NOT_CONNECTED && is_due(
                self.last_slot_err_log,
                r.now,
                SLOT_ERROR_LOG_MS,
            ) {
                self.last_slot_err_log = Some(r.now);
                msgs.push(
                    SecureMsg::Error(SecureError::GetState { slot: slot as u32, err: reading.err }),
                );
            }
            if r.xusb_open == 0 {
                let mut buttons: u16 = self.prev_buttons[slot];
                let events: u64 = secure_poll_keystrokes(
                    msgs,
                    slot as u32,
                    &mut buttons,
                    &reading.keys,
                );
                self.keystroke_events = self.keystroke_events + events;
                self.prev_buttons[slot] = buttons;
            }
            slot += 1;
            proof {
                let next = scan_slots(s0, *r, slot as nat);
                assert(connected@.take(slot as int) =~= next.connected);
                assert(msgs@ =~= old(msgs)@ + next.msgs);
                assert(self.prev_buttons@ =~= next.prev_buttons);
            }
        }
        assert(connected@.take(4) =~= connected@);
        connected
    }
    /// Delivers the last HID sample as slot 0.
    fn send_hid(&mut self, msgs: &mut Vec<SecureMsg>)
        ensures
            ({
                let out = deliver_hid(old(self)@, old(msgs)@);
                final(self)@ == out.state && final(msgs)@ == out.msgs
            }),
    {
        let ghost s0 = self@;
        let prev: u16 = self.prev_buttons[0];
        let buttons: u16 = self.last_hid.buttons;
        if prev != buttons {
            self.prev_buttons[0] = buttons;
            msgs.push(SecureMsg::Buttons { slot: 0, prev, cur: buttons });
        }
        assert(self.prev_buttons@ =~= deliver_hid(s0, old(msgs)@).state.prev_buttons);
        let mut changes: Vec<ButtonChange> = Vec::new();
        poll_trigger_edges(
            &mut self.prev_trigger_left,
            &mut self.prev_trigger_right,
            self.last_hid.lt,
            self.last_hid.rt,
            &mut changes,
        );
        assert(changes@ =~= pad_decode::trigger_changes(
            s0.prev_trigger_left,
            s0.prev_trigger_right,
            s0.last_hid.lt,
            s0.last_hid.rt,
        ));
        push_all_triggers(msgs, &changes);
        msgs.push(SecureMsg::Axes(Axes::Sample(self.last_hid.axes)));
        assert(msgs@ =~= deliver_hid(s0, old(msgs)@).msgs);
    }

    /// Delivers `pad` on `slot`.
    fn send_pad(&mut self, msgs: &mut Vec<SecureMsg>, slot: u32, pad: Gamepad)
        requires
            slot < SLOTS,
        ensures
            ({
                let out = deliver_pad(old(self)@, old(msgs)@, slot, pad);
                final(self)@ == out.state && final(msgs)@ == out.msgs
            }),
    {
        let ghost s0 = self@;
        let mut changes: Vec<ButtonChange> = Vec::new();
        poll_trigger_edges(
            &mut self.prev_trigger_left,
            &mut self.prev_trigger_right,
            pad.left_trigger,
            pad.right_trigger,
            &mut changes,
        );
        assert(changes@ =~= pad_decode::trigger_changes(
            s0.prev_trigger_left,
            s0.prev_trigger_right,
            pad.left_trigger,
            pad.right_trigger,
        ));
        push_all_triggers(msgs, &changes);
        let idx: usize = slot as usize;
        let prev: u16 = self.prev_buttons[idx];
        if prev != pad.buttons {
            self.prev_buttons[idx] = pad.buttons;
            msgs.push(SecureMsg::Buttons { slot, prev, cur: pad.buttons });
        }
        assert(self.prev_buttons@ =~= deliver_pad(
            s0,
            old(msgs)@,
            slot,
            pad,
        ).state.prev_buttons);
        msgs.push(SecureMsg::Axes(axes_for(pad, self.last_hid)));
        assert(msgs@ =~= deliver_pad(s0, old(msgs)@, slot, pad).msgs);
    }

    /// Releases every held button.
    fn release_all(&mut self, msgs: &mut Vec<SecureMsg>)
        ensures
            final(msgs)@ == old(msgs)@ + release_msgs(old(self)@.prev_buttons, 0),
            final(self)@ == (PollModel {
                prev_buttons: seq![0u16, 0u16, 0u16, 0u16],
                ..old(self)@
            }),
    {
        let ghost p0 = self@.prev_buttons;
        let mut slot: usize = 0;
        while slot < 4
            invariant
                slot <= 4,
                p0 == old(self)@.prev_buttons,
                p0.len() == 4,
                forall|k: int| 0 <= k < slot ==> self.prev_buttons@[k] == 0,
                forall|k: int| slot <= k < 4 ==> self.prev_buttons@[k] == p0[k],
                msgs@ + release_msgs(p0, slot as int) == old(msgs)@ + release_msgs(p0, 0),
                self@ == (PollModel { prev_buttons: self@.prev_buttons, ..old(self)@ }),
            decreases 4 - slot,
        {
            let ghost before = msgs@;
            let prev: u16 = self.prev_buttons[slot];
            if prev != 0 {
                self.prev_buttons[slot] = 0;
                msgs.push(SecureMsg::Buttons { slot: slot as u32, prev, cur: 0 });
            }
            slot += 1;
            assert(before + release_msgs(p0, slot - 1) =~= msgs@ + release_msgs(p0, slot as int));
        }
        assert(msgs@ + release_msgs(p0, 4) =~= msgs@);
        assert(self.prev_buttons@ =~= seq![0u16, 0u16, 0u16, 0u16]);
    }

    /// The pad state of XInput's answer for `slot`, at rest where there is none.
    fn answered_pad(reading: &SlotReading) -> (pad: Gamepad)
        ensures
            pad == (if reading.err == ERROR_SUCCESS { reading.pad } else { neutral_pad() }),
    {
        if reading.err == ERROR_SUCCESS {
            reading.pad
        } else {
            Gamepad {
                buttons: 0,
                left_trigger: 0,
                right_trigger: 0,
                thumb_lx: 0,
                thumb_ly: 0,
                thumb_rx: 0,
                thumb_ry: 0,
            }
        }
    }

    /// The debug overlay's view of the tick.
    fn detail(&self, first: &SlotReading) -> (d: Detail)
        ensures
            forall|r: TickReadings| r.slots@[0] == *first ==> d == #[trigger] detail_of(self@, r),
    {
        let pad = Self::answered_pad(first);
        let (xusb, fingerprint): (u16, u32) = match &self.last_xusb {
            Some(rep) => (rep.buttons, input_fingerprint(&rep.raw)),
            None => (0, 0),
        };
        Detail { xinput: pad.buttons, xusb, fingerprint, hid: self.last_hid }
    }
}

/// Whether two rounds of connection flags differ.
fn flags_differ(a: &[bool; 4], b: &[bool; 4]) -> (r: bool)
    ensures
        r == (a@ != b@),
{
    let r = a[0] != b[0] || a[1] != b[1] || a[2] != b[2] || a[3] != b[3];
    if !r {
        assert(a@ =~= b@);
    }
    r
}

/// The readings that are still needed after they were taken in.
struct TickRest {
    now: u64,
    slots: [SlotReading; 4],
    connected: [bool; 4],
    xusb_left: usize,
    hid_authoritative: bool,
}

/// Whether `rest` is what is left of the readings `r`, taken in from state `s`.
spec fn rest_of(rest: TickRest, s: PollModel, r: TickReadings) -> bool {
    &&& rest.now == r.now
    &&& rest.slots == r.slots
    &&& rest.connected@ == connected_now(scan_slots(s, r, 4).connected, r)
    &&& rest.xusb_left == xusb_left(r)
    &&& rest.hid_authoritative == hid_owns(r)
}

/// Takes the readings into the state.
fn take_in(state: &mut PollState, r: TickReadings, msgs: &mut Vec<SecureMsg>) -> (rest: TickRest)
    requires
        old(state).wf(),
        old(state).keystroke_events + 64 <= u64::MAX,
        r.xusb_lost <= r.xusb_open,
        old(msgs)@.len() == 0,
    ensures
        final(state).wf(),
        final(state)@ == absorbed(old(state)@, r),
        final(msgs)@ == absorb_msgs(old(state)@, r),
        rest_of(rest, old(state)@, r),
{
    let ghost s0 = state@;
    if let Some(sample) = pick_sample(&r.hid_polls) {
        state.last_hid = sample;
    }
    proof {
        scan_ignores_hid(s0, state@, r, 4);
    }
    let mut connected = state.scan(&r, msgs);
    if let Some(reply) = &r.xusb_reply {
        if reply.index < 4 {
            connected[reply.index] = true;
        }
    }
    let left: usize = r.xusb_open - r.xusb_lost;
    if r.xusb_lost > 0 && left == 0 {
        state.last_xusb = None;
        msgs.push(SecureMsg::Error(SecureError::XusbFreed));
    }
    let ghost gr = r;
    let hid_authoritative = hid_is_authoritative(r.hid_readers, left);
    if hid_authoritative {
        connected[0] = true;
    }
    if hid_authoritative != state.hid_active_prev {
        state.hid_active_prev = hid_authoritative;
        msgs.push(SecureMsg::HidActive(hid_authoritative));
    }
    assert(msgs@ =~= absorb_msgs(s0, gr));
    assert(connected@ =~= connected_now(scan_slots(s0, gr, 4).connected, gr));
    if let Some(reply) = r.xusb_reply {
        state.last_xusb = Some(reply.report);
    }
    TickRest { now: r.now, slots: r.slots, connected, xusb_left: left, hid_authoritative }
}

/// A tick during an inject hold.
fn held_tick(state: &mut PollState, hold: &mut InjectHold, msgs: &mut Vec<SecureMsg>)
    requires
        old(state).wf(),
        old(hold).active,
    ensures
        final(state).wf(),
        ({
            let t = held_outcome(old(state)@, *old(hold), old(msgs)@);
            &&& final(state)@ == t.state
            &&& *final(hold) == t.hold
            &&& final(msgs)@ == t.msgs
        }),
{
    if hold.ticks > 0 {
        hold.ticks = hold.ticks - 1;
    } else {
        hold.active = false;
        state.last_xusb = None;
        state.release_all(msgs);
    }
    msgs.push(SecureMsg::Axes(Axes::Centered));
}

/// The part of a live tick before any input is delivered.
fn start_live(state: &mut PollState, msgs: &mut Vec<SecureMsg>, connected: &[bool; 4], now: u64)
    requires
        old(state).wf(),
        old(state).iter_count < u64::MAX,
    ensures
        final(state).wf(),
        ({
            let d = live_start(old(state)@, old(msgs)@, connected@, now);
            final(state)@ == d.state && final(msgs)@ == d.msgs
        }),
{
    let ghost s0 = state@;
    state.iter_count = state.iter_count + 1;
    if state.iter_count == 1 || is_due(state.last_probe_log, now, PROBE_LOG_MS) {
        state.last_probe_log = Some(now);
        msgs.push(SecureMsg::Probe);
    }
    if flags_differ(connected, &state.connected_prev) || is_due(state.last_status, now, STATUS_MS) {
        state.last_status = Some(now);
        state.connected_prev = *connected;
        msgs.push(SecureMsg::Slots(*connected));
        assert(*connected =~= slot_flags(connected@));
    }
    let still: bool = match state.active_slot {
        Some(slot) => connected[slot as usize],
        None => false,
    };
    if !still {
        state.active_slot = find_connected(connected);
    }
    assert(state.active_slot == choose_slot(s0.active_slot, connected@));
    if state.active_slot.is_none() && is_due(state.last_no_pad, now, NO_PAD_MS) {
        state.last_no_pad = Some(now);
        msgs.push(SecureMsg::NoController);
    }
}

/// A tick outside an inject hold, once the readings are taken in.
fn live_tick(
    state: &mut PollState,
    msgs: &mut Vec<SecureMsg>,
    rest: TickRest,
    Ghost(r): Ghost<TickReadings>,
    Ghost(connected): Ghost<Seq<bool>>,
)
    requires
        old(state).wf(),
        old(state).iter_count < u64::MAX,
        rest.now == r.now,
        rest.slots == r.slots,
        rest.connected@ == connected,
        rest.xusb_left == xusb_left(r),
        rest.hid_authoritative == hid_owns(r),
    ensures
        final(state).wf(),
        ({
            let t = live_outcome(old(state)@, old(msgs)@, connected, r);
            final(state)@ == t.state && final(msgs)@ == t.msgs
        }),
{
    start_live(state, msgs, &rest.connected, rest.now);
    if let Some(slot) = state.active_slot {
        if rest.hid_authoritative && slot == 0 {
            state.send_hid(msgs);
        } else {
            let pad: Gamepad = match &state.last_xusb {
                Some(rep) if rest.xusb_left > 0 => Gamepad {
                    buttons: rep.buttons,
                    left_trigger: rep.left_trigger,
                    right_trigger: rep.right_trigger,
                    thumb_lx: rep.thumb_lx,
                    thumb_ly: rep.thumb_ly,
                    thumb_rx: rep.thumb_rx,
                    thumb_ry: rep.thumb_ry,
                },
                _ => PollState::answered_pad(&rest.slots[slot as usize]),
            };
            state.send_pad(msgs, slot, pad);
        }
    }
}

/// One tick of the poll thread: takes the readings in and answers with the
/// messages for the backend.
pub fn poll_xinput_tick(state: &mut PollState, hold: &mut InjectHold, r: TickReadings) -> (out:
    TickOutput)
    requires
        old(state).wf(),
        old(state).iter_count < u64::MAX,
        old(state).keystroke_events + 64 <= u64::MAX,
        r.xusb_lost <= r.xusb_open,
    ensures
        final(state).wf(),
        ({
            let t = tick_outcome(old(state)@, *old(hold), r);
            &&& final(state)@ == t.state
            &&& *final(hold) == t.hold
            &&& out.messages@ == t.msgs
        }),
        out.detail == (if old(hold).active {
            None::<Detail>
        } else {
            Some(detail_of(absorbed(old(state)@, r), r))
        }),
{
    let ghost s0 = state@;
    let ghost gr = r;
    let mut msgs: Vec<SecureMsg> = Vec::new();
    let rest = take_in(state, r, &mut msgs);
    if hold.active {
        held_tick(state, hold, &mut msgs);
        return TickOutput { messages: msgs, detail: None };
    }
    let detail = Some(state.detail(&rest.slots[0]));
    assert(gr.slots@[0] == rest.slots@[0]);
    assert(detail == Some(detail_of(absorbed(s0, gr), gr)));
    live_tick(
        state,
        &mut msgs,
        rest,
        Ghost(gr),
        Ghost(connected_now(scan_slots(s0, gr, 4).connected, gr)),
    );
    TickOutput { messages: msgs, detail }
}

proof fn scan_ignores_hid(s: PollModel, t: PollModel, r: TickReadings, n: nat)
    requires
        t == (PollModel { last_hid: t.last_hid, ..s }),
    ensures
        scan_slots(s, r, n) == scan_slots(t, r, n),
    decreases n,
{
    if n > 0 {
        scan_ignores_hid(s, t, r, (n - 1) as nat);
    }
}

} // verus!

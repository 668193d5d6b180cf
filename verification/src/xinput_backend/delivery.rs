//! What a tick delivers, in terms of the readings alone.

use vstd::prelude::*;

use super::types::{
    Axes, Gamepad, InjectHold, KeyReading, PadSample, PollModel, SecureError, SecureMsg,
    SlotReading, TickReadings, XInputKeystroke,
};
use super::xinput_poll;
use super::BackendModel;
use crate::pad_decode;
use crate::pad_decode::{Button, ButtonChange};
use crate::xusb_ioctl::XusbReport;

verus! {

/// Whether a slot has a pad: XInput answered for it, the XUSB device of that number
/// did, or it is the first and belongs to a HID pad.
pub open spec fn answers(r: TickReadings, slot: int) -> bool {
    ||| r.slots@[slot].err == 0
    ||| r.xusb_reply matches Some(reply) && reply.index == slot
    ||| slot == 0 && r.hid_readers > 0 && r.xusb_open == r.xusb_lost
}

/// Whether a pad holds what a report says.
pub open spec fn same_controls(pad: Gamepad, rep: XusbReport) -> bool {
    &&& pad.buttons == rep.buttons
    &&& pad.left_trigger == rep.left_trigger
    &&& pad.right_trigger == rep.right_trigger
    &&& pad.thumb_lx == rep.thumb_lx
    &&& pad.thumb_ly == rep.thumb_ly
    &&& pad.thumb_rx == rep.thumb_rx
    &&& pad.thumb_ry == rep.thumb_ry
}

/// Whether a pad is at rest.
pub open spec fn at_rest(pad: Gamepad) -> bool {
    &&& pad.buttons == 0
    &&& pad.left_trigger == 0 && pad.right_trigger == 0
    &&& pad.thumb_lx == 0 && pad.thumb_ly == 0 && pad.thumb_rx == 0 && pad.thumb_ry == 0
}

/// Whether `pad` is what a tick reads for a slot: while an XUSB device stays open its
/// report of this tick, or else its last one; without any report what XInput answered
/// for the slot; and a pad at rest where it answered nothing.
pub open spec fn reads(s: PollModel, r: TickReadings, slot: int, pad: Gamepad) -> bool {
    let open = r.xusb_open > r.xusb_lost;
    if open && r.xusb_reply is Some {
        same_controls(pad, r.xusb_reply->0.report)
    } else if open && s.last_xusb is Some {
        same_controls(pad, s.last_xusb->0)
    } else if r.slots@[slot].err == 0 {
        pad == r.slots@[slot].pad
    } else {
        at_rest(pad)
    }
}

/// Messages without axes and without triggers.
spec fn quiet(msgs: Seq<SecureMsg>) -> bool {
    forall|k: int|
        0 <= k < msgs.len() ==> !(#[trigger] msgs[k] is Axes) && !(msgs[k] is Trigger)
}

proof fn quiet_keys(slot: u32, prev: u16, keys: Seq<KeyReading>, limit: nat)
    ensures
        quiet(xinput_poll::key_run(slot, prev, keys, limit).msgs),
    decreases limit,
{
    if limit > 0 && keys.len() > 0 && keys[0].err == super::types::ERROR_SUCCESS {
        let cur = match xinput_poll::key_mask(keys[0].key.virtual_key) {
            Some(mask) => xinput_poll::after_key(prev, keys[0].key, mask),
            None => prev,
        };
        quiet_keys(slot, cur, keys.drop_first(), (limit - 1) as nat);
    }
}

proof fn quiet_scan(s: PollModel, r: TickReadings, n: nat)
    requires
        n <= 4,
        s.prev_buttons.len() == 4,
    ensures
        quiet(xinput_poll::scan_slots(s, r, n).msgs),
        xinput_poll::scan_slots(s, r, n).connected.len() == n,
        xinput_poll::scan_slots(s, r, n).prev_buttons.len() == 4,
        forall|j: int|
            0 <= j < n ==> #[trigger] xinput_poll::scan_slots(s, r, n).connected[j] == (
            r.slots@[j].err == 0),
    decreases n,
{
    if n > 0 {
        quiet_scan(s, r, (n - 1) as nat);
        let acc = xinput_poll::scan_slots(s, r, (n - 1) as nat);
        quiet_keys(
            (n - 1) as u32,
            acc.prev_buttons[n - 1],
            r.slots@[n - 1].keys@,
            super::types::KEYSTROKE_BURST as nat,
        );
    }
}

/// What a tick outside a hold starts from.
proof fn start_of_tick(s: PollModel, hold: InjectHold, r: TickReadings)
    requires
        !hold.active,
        s.prev_buttons.len() == 4,
        r.xusb_lost <= r.xusb_open,
    ensures
        ({
            let s1 = xinput_poll::absorbed(s, r);
            let connected = xinput_poll::connected_now(
                xinput_poll::scan_slots(s, r, 4).connected,
                r,
            );
            let start = xinput_poll::live_start(s1, xinput_poll::absorb_msgs(s, r), connected, r.now);
            &&& s1.prev_buttons.len() == 4
            &&& connected.len() == 4
            &&& forall|j: int| 0 <= j < 4 ==> #[trigger] connected[j] == answers(r, j)
            &&& quiet(start.msgs)
            &&& start.state.prev_buttons == s1.prev_buttons
            &&& start.state.last_hid == s1.last_hid
            &&& start.state.last_xusb == s1.last_xusb
            &&& start.state.prev_trigger_left == s.prev_trigger_left
            &&& start.state.prev_trigger_right == s.prev_trigger_right
            &&& xinput_poll::tick_outcome(s, hold, r).state.active_slot == start.state.active_slot
        }),
{
    quiet_scan(s, r, 4);
}

/// The changes of the two triggers among the messages are those of the two readings.
pub open spec fn triggers_reported(
    msgs: Seq<SecureMsg>,
    was_left: bool,
    was_right: bool,
    left: u8,
    right: u8,
) -> bool {
    &&& forall|pressed: bool|
        #[trigger] msgs.contains(
            SecureMsg::Trigger(ButtonChange { button: Button::Lt, pressed }),
        ) <==> was_left != pressed && pressed == (left > 30)
    &&& forall|pressed: bool|
        #[trigger] msgs.contains(
            SecureMsg::Trigger(ButtonChange { button: Button::Rt, pressed }),
        ) <==> was_right != pressed && pressed == (right > 30)
}

proof fn triggers_in_context(
    before: Seq<SecureMsg>,
    after: Seq<SecureMsg>,
    was_left: bool,
    was_right: bool,
    left: u8,
    right: u8,
)
    requires
        quiet(before),
        forall|k: int| 0 <= k < after.len() ==> !(#[trigger] after[k] is Trigger),
    ensures
        triggers_reported(
            before + xinput_poll::trigger_msgs(
                pad_decode::trigger_changes(was_left, was_right, left, right),
            ) + after,
            was_left,
            was_right,
            left,
            right,
        ),
{
    let changes = pad_decode::trigger_changes(was_left, was_right, left, right);
    let mid = xinput_poll::trigger_msgs(changes);
    let all = before + mid + after;
    pad_decode::triggers_follow_their_readings(was_left, was_right, left, right);
    assert forall|c: ButtonChange| #[trigger] all.contains(SecureMsg::Trigger(c))
        <==> changes.contains(c) by {
        if changes.contains(c) {
            let k = choose|k: int| 0 <= k < changes.len() && changes[k] == c;
            assert(mid[k] == SecureMsg::Trigger(c));
            assert(all[before.len() + k] == SecureMsg::Trigger(c));
        }
        if all.contains(SecureMsg::Trigger(c)) {
            let k = choose|k: int| 0 <= k < all.len() && all[k] == SecureMsg::Trigger(c);
            if k < before.len() {
                assert(before[k] == all[k]);
            } else if k < before.len() + mid.len() {
                assert(mid[k - before.len()] == all[k]);
                assert(changes[k - before.len()] == c);
            } else {
                assert(after[k - before.len() - mid.len()] == all[k]);
            }
        }
    }
}

/// The pad of the slot in use is delivered control by control. Its buttons become the
/// slot's, each trigger counts as pressed above 30 of its own reading, and once the left
/// stick is further out than 7849 each axis is delivered as the axis of the same name, or
/// as zero where that is within its stick's dead zone: 7849 left, 8689 right. Until then
/// the axes are those of the last HID sample. Axes come once, as the last message.
pub proof fn pad_is_delivered_control_by_control(
    s: PollModel,
    hold: InjectHold,
    r: TickReadings,
    slot: u32,
    pad: Gamepad,
)
    requires
        !hold.active,
        s.prev_buttons.len() == 4,
        s.active_slot matches Some(a) ==> a < 4,
        r.xusb_lost <= r.xusb_open,
        xinput_poll::tick_outcome(s, hold, r).state.active_slot == Some(slot),
        !(slot == 0 && r.hid_readers > 0 && r.xusb_open == r.xusb_lost),
        reads(s, r, slot as int, pad),
    ensures
        ({
            let t = xinput_poll::tick_outcome(s, hold, r);
            let out = pad.thumb_lx > 7849 || pad.thumb_lx < -7849 || pad.thumb_ly > 7849
                || pad.thumb_ly < -7849;
            &&& slot < 4
            &&& t.state.prev_buttons[slot as int] == pad.buttons
            &&& t.state.prev_trigger_left == (pad.left_trigger > 30)
            &&& t.state.prev_trigger_right == (pad.right_trigger > 30)
            &&& triggers_reported(
                t.msgs,
                s.prev_trigger_left,
                s.prev_trigger_right,
                pad.left_trigger,
                pad.right_trigger,
            )
            &&& t.msgs.len() > 0
            &&& forall|k: int|
                0 <= k < t.msgs.len() - 1 ==> !(#[trigger] t.msgs[k] is Axes)
            &&& out ==> (t.msgs.last() matches SecureMsg::Axes(Axes::Thumbs { lx, ly, rx, ry }) && {
                &&& lx == (if -7849 < pad.thumb_lx < 7849 { 0 } else { pad.thumb_lx })
                &&& ly == (if -7849 < pad.thumb_ly < 7849 { 0 } else { pad.thumb_ly })
                &&& rx == (if -8689 < pad.thumb_rx < 8689 { 0 } else { pad.thumb_rx })
                &&& ry == (if -8689 < pad.thumb_ry < 8689 { 0 } else { pad.thumb_ry })
            })
            &&& !out ==> t.msgs.last() == SecureMsg::Axes(Axes::Sample(t.state.last_hid.axes))
        }),
{
    start_of_tick(s, hold, r);
    let s1 = xinput_poll::absorbed(s, r);
    let connected = xinput_poll::connected_now(xinput_poll::scan_slots(s, r, 4).connected, r);
    let start = xinput_poll::live_start(s1, xinput_poll::absorb_msgs(s, r), connected, r.now);
    super::laws::active_slot_is_sticky(s.active_slot, connected);
    let read = xinput_poll::source_pad(start.state, slot as int, r);
    assert(read == pad);
    let buttons = xinput_poll::button_msgs(slot, start.state.prev_buttons[slot as int], pad.buttons);
    let axes = seq![SecureMsg::Axes(xinput_poll::source_axes(pad, start.state.last_hid))];
    let triggers = xinput_poll::trigger_msgs(
        pad_decode::trigger_changes(
            s.prev_trigger_left,
            s.prev_trigger_right,
            pad.left_trigger,
            pad.right_trigger,
        ),
    );
    let t = xinput_poll::tick_outcome(s, hold, r);
    assert(t.msgs =~= start.msgs + triggers + (buttons + axes));
    triggers_in_context(
        start.msgs,
        buttons + axes,
        s.prev_trigger_left,
        s.prev_trigger_right,
        pad.left_trigger,
        pad.right_trigger,
    );
}

/// A HID pad that owns the first slot is delivered control by control: the buttons of the
/// last sample become the slot's, each trigger counts as pressed above 30 of its own
/// reading, and the axes are the sample's. Axes come once, as the last message.
pub proof fn hid_pad_is_delivered_control_by_control(s: PollModel, hold: InjectHold, r: TickReadings)
    requires
        !hold.active,
        s.prev_buttons.len() == 4,
        s.active_slot matches Some(a) ==> a < 4,
        r.xusb_lost <= r.xusb_open,
        r.hid_readers > 0,
        r.xusb_open == r.xusb_lost,
        s.active_slot is None || s.active_slot == Some(0u32),
    ensures
        ({
            let t = xinput_poll::tick_outcome(s, hold, r);
            let sample = t.state.last_hid;
            &&& t.state.active_slot == Some(0u32)
            &&& t.state.hid_active_prev
            &&& t.state.prev_buttons[0] == sample.buttons
            &&& t.state.prev_trigger_left == (sample.lt > 30)
            &&& t.state.prev_trigger_right == (sample.rt > 30)
            &&& triggers_reported(
                t.msgs,
                s.prev_trigger_left,
                s.prev_trigger_right,
                sample.lt,
                sample.rt,
            )
            &&& t.msgs.len() > 0
            &&& t.msgs.last() == SecureMsg::Axes(Axes::Sample(sample.axes))
            &&& forall|k: int|
                0 <= k < t.msgs.len() - 1 ==> !(#[trigger] t.msgs[k] is Axes)
        }),
{
    start_of_tick(s, hold, r);
    let s1 = xinput_poll::absorbed(s, r);
    let connected = xinput_poll::connected_now(xinput_poll::scan_slots(s, r, 4).connected, r);
    let start = xinput_poll::live_start(s1, xinput_poll::absorb_msgs(s, r), connected, r.now);
    assert(connected[0]);
    super::laws::active_slot_is_sticky(s.active_slot, connected);
    let sample = s1.last_hid;
    let buttons = xinput_poll::button_msgs(0, start.state.prev_buttons[0], sample.buttons);
    let axes = seq![SecureMsg::Axes(Axes::Sample(sample.axes))];
    let triggers = xinput_poll::trigger_msgs(
        pad_decode::trigger_changes(
            s.prev_trigger_left,
            s.prev_trigger_right,
            sample.lt,
            sample.rt,
        ),
    );
    let t = xinput_poll::tick_outcome(s, hold, r);
    assert(t.msgs =~= (start.msgs + buttons) + triggers + axes);
    triggers_in_context(
        start.msgs + buttons,
        axes,
        s.prev_trigger_left,
        s.prev_trigger_right,
        sample.lt,
        sample.rt,
    );
}

/// The slot in use after a tick outside a hold is the one before it while that has a pad,
/// and otherwise the first that has one; a report of the slots says of each whether it
/// has a pad, and comes whenever that differs from the last report.
pub proof fn tick_uses_a_slot_with_a_pad(s: PollModel, hold: InjectHold, r: TickReadings)
    requires
        !hold.active,
        s.prev_buttons.len() == 4,
        s.connected_prev.len() == 4,
        s.active_slot matches Some(a) ==> a < 4,
        r.xusb_lost <= r.xusb_open,
    ensures
        ({
            let t = xinput_poll::tick_outcome(s, hold, r);
            &&& (s.active_slot matches Some(a) && answers(r, a as int)) ==> t.state.active_slot
                == s.active_slot
            &&& !(s.active_slot matches Some(a) && answers(r, a as int)) ==> match t.state.active_slot {
                Some(i) => i < 4 && answers(r, i as int) && forall|j: int|
                    0 <= j < i ==> !#[trigger] answers(r, j),
                None => forall|j: int| 0 <= j < 4 ==> !#[trigger] answers(r, j),
            }
            &&& forall|flags: [bool; 4], j: int|
                #![trigger t.msgs.contains(SecureMsg::Slots(flags)), flags@[j]]
                t.msgs.contains(SecureMsg::Slots(flags)) && 0 <= j < 4 ==> flags@[j] == answers(
                    r,
                    j,
                )
            &&& forall|j: int|
                0 <= j < 4 ==> #[trigger] t.state.connected_prev[j] == (if exists|f: [bool; 4]|
                    #[trigger] t.msgs.contains(SecureMsg::Slots(f)) {
                    answers(r, j)
                } else {
                    s.connected_prev[j]
                })
            &&& (exists|j: int|
                0 <= j < 4 && s.connected_prev[j] != #[trigger] answers(r, j)) ==> exists|
                f: [bool; 4],
            | #[trigger] t.msgs.contains(SecureMsg::Slots(f))
        }),
{
    start_of_tick(s, hold, r);
    let s1 = xinput_poll::absorbed(s, r);
    let m0 = xinput_poll::absorb_msgs(s, r);
    let connected = xinput_poll::connected_now(xinput_poll::scan_slots(s, r, 4).connected, r);
    let start = xinput_poll::live_start(s1, m0, connected, r.now);
    super::laws::active_slot_is_sticky(s.active_slot, connected);
    no_slots_in_scan(s, r, 4);
    let t = xinput_poll::tick_outcome(s, hold, r);
    assert forall|j: int| 0 <= j < 4 implies connected[j] == #[trigger] answers(r, j) by {}
    let status = connected != s.connected_prev || crate::clock::due(
        s.last_status,
        r.now,
        xinput_poll::STATUS_MS,
    );
    let ours = SecureMsg::Slots(xinput_poll::slot_flags(connected));
    slots_of_start(s1, m0, connected, r.now);
    assert forall|f: [bool; 4]| #[trigger] t.msgs.contains(SecureMsg::Slots(f)) <==> status
        && SecureMsg::Slots(f) == ours by {
        slots_of_delivery(s, hold, r, f);
    }
    if status {
        assert(t.msgs.contains(SecureMsg::Slots(xinput_poll::slot_flags(connected))));
    } else {
        assert(connected =~= s.connected_prev);
    }
}

spec fn slotless(msgs: Seq<SecureMsg>) -> bool {
    forall|k: int| 0 <= k < msgs.len() ==> !(#[trigger] msgs[k] is Slots)
}

proof fn no_slots_in_keys(slot: u32, prev: u16, keys: Seq<KeyReading>, limit: nat)
    ensures
        slotless(xinput_poll::key_run(slot, prev, keys, limit).msgs),
    decreases limit,
{
    if limit > 0 && keys.len() > 0 && keys[0].err == super::types::ERROR_SUCCESS {
        let cur = match xinput_poll::key_mask(keys[0].key.virtual_key) {
            Some(mask) => xinput_poll::after_key(prev, keys[0].key, mask),
            None => prev,
        };
        no_slots_in_keys(slot, cur, keys.drop_first(), (limit - 1) as nat);
    }
}

proof fn no_slots_in_scan(s: PollModel, r: TickReadings, n: nat)
    requires
        n <= 4,
    ensures
        slotless(xinput_poll::scan_slots(s, r, n).msgs),
    decreases n,
{
    if n > 0 {
        no_slots_in_scan(s, r, (n - 1) as nat);
        let acc = xinput_poll::scan_slots(s, r, (n - 1) as nat);
        no_slots_in_keys(
            (n - 1) as u32,
            acc.prev_buttons[n - 1],
            r.slots@[n - 1].keys@,
            super::types::KEYSTROKE_BURST as nat,
        );
    }
}

proof fn slots_of_start(s: PollModel, msgs: Seq<SecureMsg>, connected: Seq<bool>, now: u64)
    requires
        slotless(msgs),
    ensures
        ({
            let start = xinput_poll::live_start(s, msgs, connected, now);
            let status = connected != s.connected_prev || crate::clock::due(
                s.last_status,
                now,
                xinput_poll::STATUS_MS,
            );
            let ours = SecureMsg::Slots(xinput_poll::slot_flags(connected));
            &&& status ==> start.msgs.contains(ours)
            &&& forall|k: int|
                0 <= k < start.msgs.len() && #[trigger] start.msgs[k] is Slots ==> status
                    && start.msgs[k] == ours
        }),
{
    let start = xinput_poll::live_start(s, msgs, connected, now);
    let probe = s.iter_count == 0 || crate::clock::due(s.last_probe_log, now, xinput_poll::PROBE_LOG_MS);
    let at = msgs.len() + if probe { 1int } else { 0 };
    let status = connected != s.connected_prev || crate::clock::due(
        s.last_status,
        now,
        xinput_poll::STATUS_MS,
    );
    if status {
        assert(start.msgs[at] == SecureMsg::Slots(xinput_poll::slot_flags(connected)));
    }
    assert forall|k: int| 0 <= k < start.msgs.len() && #[trigger] start.msgs[k] is Slots implies status
        && start.msgs[k] == SecureMsg::Slots(xinput_poll::slot_flags(connected)) by {
        if k < msgs.len() {
            assert(start.msgs[k] == msgs[k]);
        }
    }
}

proof fn slots_of_delivery(s: PollModel, hold: InjectHold, r: TickReadings, f: [bool; 4])
    requires
        !hold.active,
    ensures
        ({
            let s1 = xinput_poll::absorbed(s, r);
            let connected = xinput_poll::connected_now(
                xinput_poll::scan_slots(s, r, 4).connected,
                r,
            );
            let start = xinput_poll::live_start(s1, xinput_poll::absorb_msgs(s, r), connected, r.now);
            xinput_poll::tick_outcome(s, hold, r).msgs.contains(SecureMsg::Slots(f))
                <==> start.msgs.contains(SecureMsg::Slots(f))
        }),
{
    let s1 = xinput_poll::absorbed(s, r);
    let connected = xinput_poll::connected_now(xinput_poll::scan_slots(s, r, 4).connected, r);
    let start = xinput_poll::live_start(s1, xinput_poll::absorb_msgs(s, r), connected, r.now);
    let t = xinput_poll::tick_outcome(s, hold, r);
    let m = SecureMsg::Slots(f);
    assert(t.msgs.len() >= start.msgs.len());
    assert forall|k: int| 0 <= k < start.msgs.len() implies t.msgs[k] == #[trigger] start.msgs[k] by {}
    assert forall|k: int| start.msgs.len() <= k < t.msgs.len() implies !(#[trigger] t.msgs[k] is Slots) by {}
    if start.msgs.contains(m) {
        let k = choose|k: int| 0 <= k < start.msgs.len() && start.msgs[k] == m;
        assert(t.msgs[k] == m);
    }
    if t.msgs.contains(m) {
        let k = choose|k: int| 0 <= k < t.msgs.len() && t.msgs[k] == m;
        assert(start.msgs[k] == m);
    }
}

/// The HID sample after a tick is one of this tick's, or the old one where there is none.
/// Of several it is the first that holds anything.
pub proof fn first_held_sample_is_kept(s: PollModel, hold: InjectHold, r: TickReadings)
    ensures
        ({
            let kept = xinput_poll::tick_outcome(s, hold, r).state.last_hid;
            let polls = r.hid_polls@;
            &&& (forall|j: int| 0 <= j < polls.len() ==> #[trigger] polls[j] is None) ==> kept
                == s.last_hid
            &&& (exists|j: int| 0 <= j < polls.len() && #[trigger] polls[j] is Some)
                ==> exists|k: int|
                0 <= k < polls.len() && #[trigger] polls[k] == Some(kept) && (forall|j: int|
                    0 <= j < k ==> (#[trigger] polls[j] matches Some(v) ==> v.buttons == 0 && v.lt
                        == 0 && v.rt == 0))
            &&& (exists|j: int|
                0 <= j < polls.len() && (#[trigger] polls[j] matches Some(v) && !(v.buttons == 0
                    && v.lt == 0 && v.rt == 0))) ==> !(kept.buttons == 0 && kept.lt == 0 && kept.rt
                == 0)
        }),
{
    sample_of_round(r.hid_polls@);
}

proof fn sample_of_round(polls: Seq<Option<PadSample>>)
    ensures
        match xinput_poll::freshest(polls) {
            None => forall|j: int| 0 <= j < polls.len() ==> #[trigger] polls[j] is None,
            Some(kept) => {
                &&& exists|k: int|
                    0 <= k < polls.len() && #[trigger] polls[k] == Some(kept) && (forall|j: int|
                        0 <= j < k ==> (#[trigger] polls[j] matches Some(v) ==> v.buttons == 0
                            && v.lt == 0 && v.rt == 0))
                &&& kept.buttons == 0 && kept.lt == 0 && kept.rt == 0 ==> forall|j: int|
                    0 <= j < polls.len() ==> (#[trigger] polls[j] matches Some(v) ==> v.buttons == 0
                        && v.lt == 0 && v.rt == 0)
            },
        },
    decreases polls.len(),
{
    if polls.len() > 0 {
        let rest = polls.drop_last();
        sample_of_round(rest);
        assert forall|j: int| 0 <= j < rest.len() implies rest[j] == #[trigger] polls[j] by {}
        if let Some(kept) = xinput_poll::freshest(polls) {
            if xinput_poll::freshest(rest) == Some(kept) && !(polls.last() is Some
                && xinput_poll::is_neutral(kept)) {
                let k = choose|k: int|
                    0 <= k < rest.len() && #[trigger] rest[k] == Some(kept) && (forall|j: int|
                        0 <= j < k ==> (#[trigger] rest[j] matches Some(v) ==> v.buttons == 0
                            && v.lt == 0 && v.rt == 0));
                assert(polls[k] == Some(kept));
            } else {
                assert(polls[polls.len() - 1] == Some(kept));
            }
        }
    }
}

/// Each key of the pad's keystroke queue stands for its own bit, and no other key for
/// any.
pub proof fn keys_stand_for_their_bits(vk: u16)
    ensures
        xinput_poll::key_mask(0x5800) == Some(0x1000u16),
        xinput_poll::key_mask(0x5801) == Some(0x2000u16),
        xinput_poll::key_mask(0x5802) == Some(0x4000u16),
        xinput_poll::key_mask(0x5803) == Some(0x8000u16),
        xinput_poll::key_mask(0x5804) == Some(0x0100u16),
        xinput_poll::key_mask(0x5805) == Some(0x0200u16),
        xinput_poll::key_mask(0x5810) == Some(0x0001u16),
        xinput_poll::key_mask(0x5811) == Some(0x0002u16),
        xinput_poll::key_mask(0x5812) == Some(0x0004u16),
        xinput_poll::key_mask(0x5813) == Some(0x0008u16),
        xinput_poll::key_mask(vk) is Some <==> 0x5800 <= vk <= 0x5805 || 0x5810 <= vk <= 0x5813,
{
}

/// A key that goes down sets its bit and a key that comes up clears it; no other bit
/// changes.
pub proof fn a_key_moves_only_its_bit(prev: u16, key: XInputKeystroke, bit: u16, other: u16)
    requires
        bit & other == 0,
    ensures
        xinput_poll::after_key(prev, key, bit) & other == prev & other,
        key.flags & 2 != 0 ==> xinput_poll::after_key(prev, key, bit) & bit == 0,
        key.flags & 2 == 0 && key.flags & 1 != 0 ==> xinput_poll::after_key(prev, key, bit) & bit
            == bit,
        key.flags & 2 == 0 && key.flags & 1 == 0 ==> xinput_poll::after_key(prev, key, bit) == prev,
{
    assert(bit & other == 0 ==> (prev | bit) & other == prev & other) by (bit_vector);
    assert(bit & other == 0 ==> (prev & !bit) & other == prev & other) by (bit_vector);
    assert(bit & other == 0 ==> ((prev | bit) & !bit) & other == prev & other) by (bit_vector);
    assert((prev & !bit) & bit == 0) by (bit_vector);
    assert(((prev | bit) & !bit) & bit == 0) by (bit_vector);
    assert((prev | bit) & bit == bit) by (bit_vector);
}

/// A run of keystrokes ends at the first attempt that took no event, and takes sixteen
/// events at most; one event is taken for each attempt before that.
pub proof fn keystrokes_are_taken_until_one_fails(slot: u32, prev: u16, keys: Seq<KeyReading>, n: int)
    requires
        0 <= n <= keys.len(),
        forall|j: int| 0 <= j < n ==> (#[trigger] keys[j]).err == 0,
        n < keys.len() ==> keys[n].err != 0,
    ensures
        xinput_poll::key_run(slot, prev, keys, 16).events == (if n < 16 { n } else { 16 }),
{
    events_of_run(slot, prev, keys, n, 16);
}

proof fn events_of_run(slot: u32, prev: u16, keys: Seq<KeyReading>, n: int, limit: nat)
    requires
        0 <= n <= keys.len(),
        forall|j: int| 0 <= j < n ==> (#[trigger] keys[j]).err == 0,
        n < keys.len() ==> keys[n].err != 0,
    ensures
        xinput_poll::key_run(slot, prev, keys, limit).events == (if n < limit { n } else {
            limit as int
        }),
    decreases limit,
{
    if limit > 0 && n > 0 {
        let cur = match xinput_poll::key_mask(keys[0].key.virtual_key) {
            Some(mask) => xinput_poll::after_key(prev, keys[0].key, mask),
            None => prev,
        };
        let rest = keys.drop_first();
        assert forall|j: int| 0 <= j < n - 1 implies (#[trigger] rest[j]).err == 0 by {
            assert(rest[j] == keys[j + 1]);
        }
        events_of_run(slot, cur, rest, n - 1, (limit - 1) as nat);
    }
}

/// Without the helper a poll delivers the pad that XInput answers with, control by
/// control: the one in use while it answers, and otherwise the first that does. Each
/// trigger counts as pressed above 30 of its own reading, and each axis is the pad's of
/// the same name, or zero within its stick's dead zone: 7849 left, 8689 right. The masks
/// of the other slots stay.
pub proof fn direct_poll_delivers_control_by_control(
    b: BackendModel,
    msgs: Seq<SecureMsg>,
    dead: bool,
    slots: Seq<SlotReading>,
    slot: u32,
)
    requires
        !b.secure,
        b.prev_buttons.len() == 4,
        slots.len() == 4,
        b.active_slot matches Some(a) ==> a < 4,
        super::polled(b, msgs, dead, slots).active_slot == Some(slot),
    ensures
        ({
            let p = super::polled(b, msgs, dead, slots);
            let pad = slots[slot as int].pad;
            &&& slot < 4 && slots[slot as int].err == 0
            &&& b.active_slot == Some(slot) || ((b.active_slot matches Some(a) ==> slots[a as int].err
                != 0) && forall|j: int| 0 <= j < slot ==> (#[trigger] slots[j]).err != 0)
            &&& p.prev_trigger_left == (pad.left_trigger > 30)
            &&& p.prev_trigger_right == (pad.right_trigger > 30)
            &&& slots[slot as int].keys@.len() == 0 ==> p.prev_buttons[slot as int] == pad.buttons
            &&& forall|j: int|
                0 <= j < 4 && j != slot ==> #[trigger] p.prev_buttons[j] == b.prev_buttons[j]
            &&& p.axes matches Axes::Thumbs { lx, ly, rx, ry } && {
                &&& lx == (if -7849 < pad.thumb_lx < 7849 { 0 } else { pad.thumb_lx })
                &&& ly == (if -7849 < pad.thumb_ly < 7849 { 0 } else { pad.thumb_ly })
                &&& rx == (if -8689 < pad.thumb_rx < 8689 { 0 } else { pad.thumb_rx })
                &&& ry == (if -8689 < pad.thumb_ry < 8689 { 0 } else { pad.thumb_ry })
            }
        }),
{
    let connected = super::answered(slots);
    super::laws::active_slot_is_sticky(b.active_slot, connected);
    assert forall|j: int| 0 <= j < 4 implies connected[j] == ((#[trigger] slots[j]).err == 0) by {}
}

/// Without the helper and without an answer no pad is in use and the sticks rest.
pub proof fn poll_without_a_pad_rests(
    b: BackendModel,
    msgs: Seq<SecureMsg>,
    dead: bool,
    slots: Seq<SlotReading>,
)
    requires
        !b.secure,
        b.prev_buttons.len() == 4,
        slots.len() == 4,
        b.active_slot matches Some(a) ==> a < 4,
    ensures
        ({
            let p = super::polled(b, msgs, dead, slots);
            &&& p.active_slot is None <==> forall|j: int|
                0 <= j < 4 ==> (#[trigger] slots[j]).err != 0
            &&& p.active_slot is None ==> p.axes == Axes::Centered && p.pending.len() == 0
                && p.prev_buttons == b.prev_buttons
        }),
{
    let connected = super::answered(slots);
    super::laws::active_slot_is_sticky(b.active_slot, connected);
    assert forall|j: int| 0 <= j < 4 implies connected[j] == ((#[trigger] slots[j]).err == 0) by {}
}

/// What the helper says last of the sticks is what the backend shows, and each of its
/// messages moves what it names and nothing else.
pub proof fn helper_messages_are_taken_at_their_word(
    b: BackendModel,
    msgs: Seq<SecureMsg>,
    axes: Axes,
    slot: u32,
    prev: u16,
    cur: u16,
    change: ButtonChange,
)
    requires
        b.prev_buttons.len() == 4,
        slot < 4,
    ensures
        super::after_msgs(b, msgs.push(SecureMsg::Axes(axes))) == (BackendModel {
            axes,
            ..super::after_msgs(b, msgs)
        }),
        ({
            let p = super::after_msg(b, SecureMsg::Buttons { slot, prev, cur });
            &&& p.active_slot == Some(slot)
            &&& p.prev_buttons == b.prev_buttons.update(slot as int, cur)
            &&& p.pending.take(b.pending.len() as int) == b.pending
            &&& p.pending.skip(b.pending.len() as int) == pad_decode::edges_between(prev, cur)
            &&& p.axes == b.axes && p.prev_trigger_left == b.prev_trigger_left
                && p.prev_trigger_right == b.prev_trigger_right
        }),
        ({
            let p = super::after_msg(b, SecureMsg::Trigger(change));
            &&& p.pending == b.pending.push(change)
            &&& p.prev_trigger_left == (if change.button == Button::Lt {
                change.pressed
            } else {
                b.prev_trigger_left
            })
            &&& p.prev_trigger_right == (if change.button == Button::Rt {
                change.pressed
            } else {
                b.prev_trigger_right
            })
            &&& p.prev_buttons == b.prev_buttons && p.axes == b.axes && p.active_slot
                == b.active_slot
        }),
        ({
            let p = super::after_msg(b, SecureMsg::NoController);
            &&& p.active_slot is None && p.axes == Axes::Centered && !p.active_secure_hid
            &&& !p.prev_trigger_left && !p.prev_trigger_right
        }),
        super::after_msg(b, SecureMsg::HidActive(true)).active_slot == Some(0u32),
        super::after_msg(b, SecureMsg::HidActive(true)).active_secure_hid,
        !super::after_msg(b, SecureMsg::HidActive(false)).active_secure_hid,
        super::after_msg(b, SecureMsg::HidActive(false)).active_slot == b.active_slot,
{
    let all = msgs.push(SecureMsg::Axes(axes));
    assert(all.drop_last() =~= msgs);
    let p = super::after_msg(b, SecureMsg::Buttons { slot, prev, cur });
    assert(p.pending.take(b.pending.len() as int) =~= b.pending);
    assert(p.pending.skip(b.pending.len() as int) =~= pad_decode::edges_between(prev, cur));
}

/// The controls that are shown as held are those whose bits are set in the mask of the
/// slot in use, by XInput's numbering of the bits, and the triggers that are pressed.
pub proof fn held_controls_are_those_of_the_bits(b: BackendModel, slot: u32)
    requires
        b.active_slot == Some(slot),
    ensures
        ({
            let held = super::held_controls(b);
            let mask = b.prev_buttons[slot as int];
            &&& held.contains(Button::Up) <==> mask & 0x0001 != 0
            &&& held.contains(Button::Down) <==> mask & 0x0002 != 0
            &&& held.contains(Button::Left) <==> mask & 0x0004 != 0
            &&& held.contains(Button::Right) <==> mask & 0x0008 != 0
            &&& held.contains(Button::Start) <==> mask & 0x0010 != 0
            &&& held.contains(Button::Select) <==> mask & 0x0020 != 0
            &&& held.contains(Button::L3) <==> mask & 0x0040 != 0
            &&& held.contains(Button::R3) <==> mask & 0x0080 != 0
            &&& held.contains(Button::Lb) <==> mask & 0x0100 != 0
            &&& held.contains(Button::Rb) <==> mask & 0x0200 != 0
            &&& held.contains(Button::Guide) <==> mask & 0x0400 != 0
            &&& held.contains(Button::A) <==> mask & 0x1000 != 0
            &&& held.contains(Button::B) <==> mask & 0x2000 != 0
            &&& held.contains(Button::X) <==> mask & 0x4000 != 0
            &&& held.contains(Button::Y) <==> mask & 0x8000 != 0
            &&& held.contains(Button::Lt) <==> b.prev_trigger_left
            &&& held.contains(Button::Rt) <==> b.prev_trigger_right
        }),
{
    let mask = b.prev_buttons[slot as int];
    let n = pad_decode::masked_buttons().len();
    let down = super::down_upto(mask, n);
    let left = if b.prev_trigger_left { seq![Button::Lt] } else { seq![] };
    let right = if b.prev_trigger_right { seq![Button::Rt] } else { seq![] };
    let held = super::held_controls(b);
    pad_decode::buttons_follow_their_bits(0, mask);
    down_of_button(mask, Button::Up, n);
    down_of_button(mask, Button::Down, n);
    down_of_button(mask, Button::Left, n);
    down_of_button(mask, Button::Right, n);
    down_of_button(mask, Button::Start, n);
    down_of_button(mask, Button::Select, n);
    down_of_button(mask, Button::L3, n);
    down_of_button(mask, Button::R3, n);
    down_of_button(mask, Button::Lb, n);
    down_of_button(mask, Button::Rb, n);
    down_of_button(mask, Button::Guide, n);
    down_of_button(mask, Button::A, n);
    down_of_button(mask, Button::B, n);
    down_of_button(mask, Button::X, n);
    down_of_button(mask, Button::Y, n);
    down_of_button(mask, Button::Lt, n);
    down_of_button(mask, Button::Rt, n);
    assert forall|x: Button| #[trigger] held.contains(x) <==> down.contains(x) || left.contains(x)
        || right.contains(x) by {
        if down.contains(x) {
            let k = choose|k: int| 0 <= k < down.len() && down[k] == x;
            assert(held[k] == x);
        }
        if left.contains(x) {
            assert(held[down.len() as int] == x);
        }
        if right.contains(x) {
            assert(held[(down.len() + left.len()) as int] == x);
        }
        if held.contains(x) {
            let k = choose|k: int| 0 <= k < held.len() && held[k] == x;
            if k < down.len() {
                assert(down[k] == x);
            } else if k < down.len() + left.len() {
                assert(left[k - down.len()] == x);
            } else {
                assert(right[k - down.len() - left.len()] == x);
            }
        }
    }
    assert(b.prev_trigger_left ==> left[0] == Button::Lt);
    assert(b.prev_trigger_right ==> right[0] == Button::Rt);
}

proof fn down_of_button(mask: u16, b: Button, n: nat)
    requires
        n <= pad_decode::masked_buttons().len(),
    ensures
        super::down_upto(mask, n).contains(b) <==> (exists|i: int|
            0 <= i < n && #[trigger] pad_decode::masked_buttons()[i] == b) && pad_decode::is_down(
            mask,
            b,
        ),
        n == pad_decode::masked_buttons().len() && pad_decode::is_down(mask, b) ==> super::down_upto(
            mask,
            n,
        ).contains(b),
    decreases n,
{
    if n == pad_decode::masked_buttons().len() {
        pad_decode::covered(b);
    }
    if n > 0 {
        down_of_button(mask, b, (n - 1) as nat);
        let before = super::down_upto(mask, (n - 1) as nat);
        let all = super::down_upto(mask, n);
        let last = pad_decode::masked_buttons()[n - 1];
        if before.contains(b) {
            let k = choose|k: int| 0 <= k < before.len() && before[k] == b;
            assert(all[k] == b);
        }
        if all.contains(b) {
            let k = choose|k: int| 0 <= k < all.len() && all[k] == b;
            if k < before.len() {
                assert(before[k] == b);
            }
        }
        if last == b && pad_decode::is_down(mask, b) {
            assert(all[before.len() as int] == b);
        }
    }
}

/// A hold suppresses the pad for six ticks and for the one that ends it.
pub proof fn a_hold_takes_seven_ticks(s: PollModel, r: TickReadings, ticks: u32)
    requires
        ticks <= 6,
    ensures
        ({
            let t = xinput_poll::tick_outcome(s, InjectHold { active: true, ticks }, r);
            &&& t.hold.active == (ticks > 0)
            &&& ticks > 0 ==> t.hold.ticks == ticks - 1
            &&& t.msgs.len() > 0 && t.msgs.last() == SecureMsg::Axes(Axes::Centered)
            &&& ticks == 0 ==> t.state.last_xusb is None && forall|j: int|
                0 <= j < 4 ==> #[trigger] t.state.prev_buttons[j] == 0
        }),
{
}

/// The pad in use is named by how it is read and by its slot.
pub proof fn pads_are_named_by_their_slot(slot: u32)
    ensures
        super::label_of(true, Some(slot)) == "HID slot 0"@,
        super::label_of(true, None) == "HID slot 0"@,
        super::label_of(false, Some(slot)) == "XInput slot "@ + crate::text::decimal(slot as nat),
        super::label_of(false, None) == "none"@,
{
}

/// The overlay shows the first slot's buttons where that slot has a pad, those of the last
/// XUSB report, and the last HID sample as it is.
pub proof fn the_overlay_shows_what_was_read(s: PollModel, r: TickReadings)
    ensures
        ({
            let d = xinput_poll::detail_of(s, r);
            &&& r.slots@[0].err == 0 ==> d.xinput == r.slots@[0].pad.buttons
            &&& r.slots@[0].err != 0 ==> d.xinput == 0
            &&& (s.last_xusb matches Some(report) ==> d.xusb == report.buttons)
            &&& s.last_xusb is None ==> d.xusb == 0 && d.fingerprint == 0
            &&& d.hid == s.last_hid
        }),
{
}

/// A report's fingerprint leaves out its first seven bytes and takes in every later one, so
/// that a byte that moves at the end moves the fingerprint.
pub proof fn fingerprints_move_with_the_input(raw: Seq<u8>, a: u8, b: u8)
    requires
        raw.len() >= 7,
        a != b,
    ensures
        xinput_poll::fingerprint_upto(raw.push(a), raw.len() as int + 1)
            != xinput_poll::fingerprint_upto(raw.push(b), raw.len() as int + 1),
        raw.len() == 7 ==> xinput_poll::fingerprint_upto(raw, raw.len() as int) == 0
            && xinput_poll::fingerprint_upto(raw.push(a), raw.len() as int + 1) == a,
{
    let n = raw.len() as int;
    same_fingerprint(raw.push(a), raw, n);
    same_fingerprint(raw.push(b), raw, n);
    let f = xinput_poll::fingerprint_upto(raw, n);
    reveal_with_fuel(xinput_poll::fingerprint_upto, 2);
    assert((f * 31 + a) % 0x1_0000_0000 != (f * 31 + b) % 0x1_0000_0000);
}

proof fn same_fingerprint(a: Seq<u8>, b: Seq<u8>, n: int)
    requires
        n <= a.len(),
        n <= b.len(),
        forall|i: int| 0 <= i < n ==> #[trigger] a[i] == b[i],
    ensures
        xinput_poll::fingerprint_upto(a, n) == xinput_poll::fingerprint_upto(b, n),
    decreases n,
{
    if n > 7 {
        same_fingerprint(a, b, n - 1);
    }
}

/// That there is no pad is said only where no slot has one, and then no more than once in
/// fifteen seconds; a probe is due on the first tick and every two seconds, and the slots are
/// told when they change and every thirty seconds.
pub proof fn tidings_come_when_they_are_due(s: PollModel, connected: Seq<bool>, now: u64, t: u64)
    ensures
        ({
            let start = xinput_poll::live_start(s, Seq::empty(), connected, now);
            let slot = xinput_poll::choose_slot(s.active_slot, connected);
            &&& start.msgs.contains(SecureMsg::NoController) ==> slot is None
            &&& slot is None && s.last_no_pad is None ==> start.msgs.contains(
                SecureMsg::NoController,
            )
            &&& slot is None && s.last_no_pad == Some(t) ==> (start.msgs.contains(
                SecureMsg::NoController,
            ) <==> now >= t + 15000)
            &&& s.iter_count == 0 ==> start.msgs.contains(SecureMsg::Probe)
            &&& s.iter_count != 0 && s.last_probe_log == Some(t) ==> (start.msgs.contains(
                SecureMsg::Probe,
            ) <==> now >= t + 2000)
            &&& connected == s.connected_prev && s.last_status == Some(t) && now < t + 30000
                ==> start.state.connected_prev == s.connected_prev && start.state.last_status
                == Some(t)
            &&& connected != s.connected_prev || s.last_status == Some(t) && now >= t + 30000
                ==> start.state.connected_prev == connected && start.state.last_status == Some(now)
            &&& start.state.iter_count == s.iter_count + 1
            &&& start.state.active_slot == slot
        }),
{
    let start = xinput_poll::live_start(s, Seq::empty(), connected, now);
    let n = start.msgs.len() as int;
    if n > 0 {
        let a = start.msgs[0];
        let z = start.msgs[n - 1];
        assert(start.msgs.contains(a) && start.msgs.contains(z));
    }
}

/// A slot without a pad is no fault; any other fault is told with its slot and number, but
/// no more than one in a second.
pub proof fn empty_slots_are_no_fault(
    acc: xinput_poll::SlotScan,
    i: int,
    reading: SlotReading,
    now: u64,
    t: u64,
)
    requires
        0 <= i < 4,
    ensures
        ({
            let after = xinput_poll::scan_slot(acc, i, reading, now, false);
            let fault = SecureMsg::Error(
                SecureError::GetState { slot: i as u32, err: reading.err },
            );
            &&& reading.err == 0 || reading.err == 1167 ==> after.msgs == acc.msgs && after.last_err
                == acc.last_err
            &&& reading.err != 0 && reading.err != 1167 && acc.last_err is None ==> after.msgs
                == acc.msgs.push(fault) && after.last_err == Some(now)
            &&& reading.err != 0 && reading.err != 1167 && acc.last_err == Some(t) && now >= t
                + 1000 ==> after.msgs == acc.msgs.push(fault) && after.last_err == Some(now)
            &&& acc.last_err == Some(t) && now < t + 1000 ==> after.msgs == acc.msgs
                && after.last_err == Some(t)
            &&& after.connected == acc.connected.push(reading.err == 0)
        }),
{
    assert(acc.msgs + Seq::<SecureMsg>::empty() =~= acc.msgs);
    let fault = SecureMsg::Error(SecureError::GetState { slot: i as u32, err: reading.err });
    assert(acc.msgs + seq![fault] =~= acc.msgs.push(fault));
}

/// The last XUSB report is the one that came in, is kept while its device is there, and is
/// forgotten, and said to be, once the last device is gone.
pub proof fn reports_go_with_their_device(s: PollModel, r: TickReadings)
    ensures
        ({
            let after = xinput_poll::absorbed(s, r);
            let gone = r.xusb_lost > 0 && r.xusb_lost == r.xusb_open;
            let freed = SecureMsg::Error(SecureError::XusbFreed);
            &&& (r.xusb_reply matches Some(reply) ==> after.last_xusb == Some(reply.report))
            &&& r.xusb_reply is None && gone ==> after.last_xusb is None
            &&& r.xusb_reply is None && !gone ==> after.last_xusb == s.last_xusb
            &&& gone ==> xinput_poll::absorb_msgs(s, r).contains(freed)
            &&& after.hid_active_prev == (r.hid_readers > 0 && r.xusb_lost == r.xusb_open)
        }),
{
    let before = xinput_poll::scan_slots(s, r, 4).msgs;
    let msgs = xinput_poll::absorb_msgs(s, r);
    if r.xusb_lost > 0 && r.xusb_lost == r.xusb_open {
        assert(msgs[before.len() as int] == SecureMsg::Error(SecureError::XusbFreed));
    }
}

/// A helper that died leaves nothing of its own behind: no HID pad and no trigger held, and
/// the pads are read directly from then on. What it said before still counts.
pub proof fn a_dead_helper_leaves_nothing_held(b: BackendModel, msgs: Seq<SecureMsg>)
    requires
        b.secure,
    ensures
        ({
            let alive = super::synced(b, msgs, false);
            let dead = super::synced(b, msgs, true);
            &&& !dead.secure
            &&& !dead.active_secure_hid && !dead.prev_trigger_left && !dead.prev_trigger_right
            &&& dead.pending == alive.pending && dead.prev_buttons == alive.prev_buttons
            &&& dead.active_slot == alive.active_slot && dead.axes == alive.axes
            &&& alive == super::after_msgs(b, msgs)
        }),
{
}

/// While no XUSB pad is open a slot's keystrokes are taken, sixteen at most; while one is,
/// none are, and the slot's buttons stay.
pub proof fn keystrokes_are_taken_without_xusb(
    acc: xinput_poll::SlotScan,
    i: int,
    reading: SlotReading,
    now: u64,
)
    requires
        0 <= i < 4,
        acc.prev_buttons.len() == 4,
    ensures
        ({
            let run = xinput_poll::key_run(i as u32, acc.prev_buttons[i], reading.keys@, 16);
            let on = xinput_poll::scan_slot(acc, i, reading, now, true);
            let off = xinput_poll::scan_slot(acc, i, reading, now, false);
            &&& on.events == acc.events + run.events
            &&& on.prev_buttons[i] == run.cur
            &&& forall|j: int| 0 <= j < 4 && j != i ==> #[trigger] on.prev_buttons[j]
                == acc.prev_buttons[j]
            &&& off.events == acc.events && off.prev_buttons == acc.prev_buttons
        }),
{
}

/// An empty queue and a pad that is gone end a run of keystrokes silently; any other fault
/// ends it and is told, with its slot and number.
pub proof fn only_real_faults_end_a_run_loudly(
    slot: u32,
    prev: u16,
    keys: Seq<KeyReading>,
    limit: nat,
)
    requires
        keys.len() > 0,
        limit > 0,
    ensures
        ({
            let run = xinput_poll::key_run(slot, prev, keys, limit);
            let err = keys[0].err;
            &&& err == 4306 || err == 1167 ==> run.msgs.len() == 0 && run.cur == prev && run.events
                == 0
            &&& err != 0 && err != 4306 && err != 1167 ==> run.msgs == seq![
                SecureMsg::Error(SecureError::GetKeystroke { slot, err }),
            ] && run.cur == prev && run.events == 0
        }),
{
}

/// News of the slots leaves the HID pad in use only while the first slot stays in use.
pub proof fn hid_pads_are_on_the_first_slot(b: BackendModel, connected: [bool; 4])
    ensures
        ({
            let after = super::after_msg(b, SecureMsg::Slots(connected));
            &&& after.active_secure_hid ==> b.active_secure_hid && after.active_slot == Some(0u32)
            &&& b.active_secure_hid && after.active_slot == Some(0u32) ==> after.active_secure_hid
            &&& after.pending == b.pending && after.prev_buttons == b.prev_buttons
        }),
{
}

} // verus!

//! Properties of the poll tick as a whole.

use vstd::prelude::*;

use super::types::{
    Gamepad, InjectHold, KeyReading, PadSample, PollModel, SecureMsg, SlotReading,
    TickReadings, KEYSTROKE_BURST, SLOTS,
};
use super::xinput_poll;
use crate::pad_decode;
use super::{BackendModel, INJECT_HOLD_WINDOW};
use crate::pad_decode::{Button, ButtonChange, TRIGGER_PRESS_THRESH};

verus! {

/// The button masks after one message.
pub open spec fn replay_one(buttons: Seq<u16>, msg: SecureMsg) -> Seq<u16> {
    match msg {
        SecureMsg::Buttons { slot, prev, cur } => buttons.update(slot as int, cur),
        _ => buttons,
    }
}

/// The button masks after a run of messages.
pub open spec fn replay(buttons: Seq<u16>, msgs: Seq<SecureMsg>) -> Seq<u16>
    decreases msgs.len(),
{
    if msgs.len() == 0 {
        buttons
    } else {
        replay_one(replay(buttons, msgs.drop_last()), msgs.last())
    }
}

/// Whether every button message of the run names an existing slot and the mask
/// that slot has at that point.
pub open spec fn consistent(buttons: Seq<u16>, msgs: Seq<SecureMsg>) -> bool
    decreases msgs.len(),
{
    msgs.len() == 0 || {
        &&& consistent(buttons, msgs.drop_last())
        &&& msgs.last() matches SecureMsg::Buttons { slot, prev, cur } ==> slot < SLOTS && prev != cur
            && replay(buttons, msgs.drop_last())[slot as int] == prev
    }
}

proof fn replay_concat(buttons: Seq<u16>, a: Seq<SecureMsg>, b: Seq<SecureMsg>)
    ensures
        replay(buttons, a + b) == replay(replay(buttons, a), b),
        consistent(buttons, a) && consistent(replay(buttons, a), b) ==> consistent(buttons, a + b),
    decreases b.len(),
{
    if b.len() == 0 {
        assert(a + b =~= a);
    } else {
        assert((a + b).drop_last() =~= a + b.drop_last());
        replay_concat(buttons, a, b.drop_last());
    }
}

/// Messages that carry no button mask.
spec fn silent(msgs: Seq<SecureMsg>) -> bool {
    forall|i: int| 0 <= i < msgs.len() ==> !(#[trigger] msgs[i] is Buttons)
}

proof fn replay_silent(buttons: Seq<u16>, msgs: Seq<SecureMsg>)
    requires
        silent(msgs),
    ensures
        replay(buttons, msgs) == buttons,
        consistent(buttons, msgs),
    decreases msgs.len(),
{
    if msgs.len() > 0 {
        assert(silent(msgs.drop_last()));
        replay_silent(buttons, msgs.drop_last());
    }
}

proof fn replay_single(buttons: Seq<u16>, slot: u32, cur: u16)
    requires
        buttons.len() == 4,
        slot < SLOTS,
    ensures
        replay(buttons, xinput_poll::button_msgs(slot, buttons[slot as int], cur)) == buttons.update(
            slot as int,
            cur,
        ),
        consistent(buttons, xinput_poll::button_msgs(slot, buttons[slot as int], cur)),
{
    let msgs = xinput_poll::button_msgs(slot, buttons[slot as int], cur);
    reveal_with_fuel(replay, 2);
    reveal_with_fuel(consistent, 2);
    if msgs.len() == 0 {
        assert(buttons.update(slot as int, cur) =~= buttons);
    } else {
        assert(msgs.drop_last() =~= Seq::<SecureMsg>::empty());
    }
}

proof fn replay_keys(buttons: Seq<u16>, slot: u32, keys: Seq<KeyReading>, limit: nat)
    requires
        buttons.len() == 4,
        slot < SLOTS,
    ensures
        ({
            let run = xinput_poll::key_run(slot, buttons[slot as int], keys, limit);
            &&& replay(buttons, run.msgs) == buttons.update(slot as int, run.cur)
            &&& consistent(buttons, run.msgs)
        }),
    decreases limit,
{
    let prev = buttons[slot as int];
    let run = xinput_poll::key_run(slot, prev, keys, limit);
    reveal_with_fuel(replay, 2);
    reveal_with_fuel(consistent, 2);
    if limit == 0 || keys.len() == 0 || keys[0].err == super::types::ERROR_EMPTY || keys[0].err
        == super::types::ERROR_DEVICE_NOT_CONNECTED {
        assert(buttons.update(slot as int, prev) =~= buttons);
    } else if keys[0].err != super::types::ERROR_SUCCESS {
        assert(buttons.update(slot as int, prev) =~= buttons);
        replay_silent(buttons, run.msgs);
    } else {
        let cur = match super::xinput_poll::key_mask(keys[0].key.virtual_key) {
            Some(mask) => super::xinput_poll::after_key(prev, keys[0].key, mask),
            None => prev,
        };
        let rest = xinput_poll::key_run(slot, cur, keys.drop_first(), (limit - 1) as nat);
        let next = buttons.update(slot as int, cur);
        replay_single(buttons, slot, cur);
        replay_keys(next, slot, keys.drop_first(), (limit - 1) as nat);
        replay_concat(buttons, xinput_poll::button_msgs(slot, prev, cur), rest.msgs);
        assert(run.msgs == xinput_poll::button_msgs(slot, prev, cur) + rest.msgs);
        assert(next.update(slot as int, rest.cur) =~= buttons.update(slot as int, rest.cur));
    }
}

proof fn replay_scan(s: PollModel, r: TickReadings, n: nat)
    requires
        s.prev_buttons.len() == 4,
        n <= 4,
    ensures
        xinput_poll::scan_slots(s, r, n).prev_buttons.len() == 4,
        replay(s.prev_buttons, xinput_poll::scan_slots(s, r, n).msgs) == xinput_poll::scan_slots(s, r, n).prev_buttons,
        consistent(s.prev_buttons, xinput_poll::scan_slots(s, r, n).msgs),
    decreases n,
{
    if n > 0 {
        replay_scan(s, r, (n - 1) as nat);
        let acc = xinput_poll::scan_slots(s, r, (n - 1) as nat);
        let i = n - 1;
        let reading = r.slots@[i];
        let next = xinput_poll::scan_slots(s, r, n);
        let run = xinput_poll::key_run(i as u32, acc.prev_buttons[i], reading.keys@, KEYSTROKE_BURST as nat);
        let fault = next.msgs.subrange(
            acc.msgs.len() as int,
            next.msgs.len() - (if r.xusb_open == 0 { run.msgs.len() } else { 0 }),
        );
        assert(silent(fault));
        replay_silent(acc.prev_buttons, fault);
        replay_concat(s.prev_buttons, acc.msgs, fault);
        if r.xusb_open == 0 {
            replay_keys(acc.prev_buttons, i as u32, reading.keys@, KEYSTROKE_BURST as nat);
            replay_concat(s.prev_buttons, acc.msgs + fault, run.msgs);
            assert(next.msgs =~= acc.msgs + fault + run.msgs);
        } else {
            assert(next.msgs =~= acc.msgs + fault);
        }
    }
}

proof fn replay_absorb(s: PollModel, r: TickReadings)
    requires
        s.prev_buttons.len() == 4,
    ensures
        xinput_poll::absorbed(s, r).prev_buttons.len() == 4,
        replay(s.prev_buttons, xinput_poll::absorb_msgs(s, r)) == xinput_poll::absorbed(s, r).prev_buttons,
        consistent(s.prev_buttons, xinput_poll::absorb_msgs(s, r)),
{
    replay_scan(s, r, 4);
    let scan = xinput_poll::scan_slots(s, r, 4);
    let all = xinput_poll::absorb_msgs(s, r);
    let tail = all.subrange(scan.msgs.len() as int, all.len() as int);
    assert(silent(tail));
    replay_silent(scan.prev_buttons, tail);
    replay_concat(s.prev_buttons, scan.msgs, tail);
    assert(all =~= scan.msgs + tail);
}

proof fn replay_release(start: Seq<u16>, buttons: Seq<u16>, from: int)
    requires
        start.len() == 4,
        buttons.len() == 4,
        0 <= from <= 4,
        forall|k: int| 0 <= k < from ==> buttons[k] == 0,
        forall|k: int| from <= k < 4 ==> buttons[k] == start[k],
    ensures
        replay(buttons, xinput_poll::release_msgs(start, from)) == seq![0u16, 0u16, 0u16, 0u16],
        consistent(buttons, xinput_poll::release_msgs(start, from)),
    decreases 4 - from,
{
    if from == 4 {
        assert(buttons =~= seq![0u16, 0u16, 0u16, 0u16]);
    } else {
        let next = buttons.update(from, 0);
        replay_single(buttons, from as u32, 0);
        replay_release(start, next, from + 1);
        replay_concat(buttons, xinput_poll::button_msgs(from as u32, start[from], 0), xinput_poll::release_msgs(start, from + 1));
    }
}

proof fn replay_held(s: PollModel, hold: InjectHold, start: Seq<u16>, msgs: Seq<SecureMsg>)
    requires
        s.prev_buttons.len() == 4,
        replay(start, msgs) == s.prev_buttons,
        consistent(start, msgs),
    ensures
        ({
            let t = xinput_poll::held_outcome(s, hold, msgs);
            consistent(start, t.msgs) && replay(start, t.msgs) == t.state.prev_buttons
        }),
{
    let t = xinput_poll::held_outcome(s, hold, msgs);
    let tail = seq![SecureMsg::Axes(super::types::Axes::Centered)];
    replay_silent(t.state.prev_buttons, tail);
    if hold.ticks > 0 {
        replay_concat(start, msgs, tail);
        assert(t.msgs =~= msgs + tail);
    } else {
        let rel = xinput_poll::release_msgs(s.prev_buttons, 0);
        replay_release(s.prev_buttons, s.prev_buttons, 0);
        replay_concat(start, msgs, rel);
        replay_concat(start, msgs + rel, tail);
        assert(t.msgs =~= msgs + rel + tail);
    }
}

proof fn replay_start(s: PollModel, start: Seq<u16>, msgs: Seq<SecureMsg>, connected: Seq<bool>, now: u64)
    requires
        replay(start, msgs) == s.prev_buttons,
        consistent(start, msgs),
    ensures
        ({
            let d = xinput_poll::live_start(s, msgs, connected, now);
            &&& consistent(start, d.msgs)
            &&& replay(start, d.msgs) == d.state.prev_buttons
            &&& d.state.prev_buttons == s.prev_buttons
        }),
{
    let d = xinput_poll::live_start(s, msgs, connected, now);
    let head = d.msgs.subrange(msgs.len() as int, d.msgs.len() as int);
    assert(silent(head));
    replay_silent(s.prev_buttons, head);
    replay_concat(start, msgs, head);
    assert(d.msgs =~= msgs + head);
}

proof fn replay_hid(s: PollModel, start: Seq<u16>, msgs: Seq<SecureMsg>)
    requires
        s.prev_buttons.len() == 4,
        replay(start, msgs) == s.prev_buttons,
        consistent(start, msgs),
    ensures
        ({
            let d = xinput_poll::deliver_hid(s, msgs);
            consistent(start, d.msgs) && replay(start, d.msgs) == d.state.prev_buttons
        }),
{
    let d = xinput_poll::deliver_hid(s, msgs);
    let b = xinput_poll::button_msgs(0, s.prev_buttons[0], s.last_hid.buttons);
    let tail = d.msgs.subrange((msgs.len() + b.len()) as int, d.msgs.len() as int);
    replay_single(s.prev_buttons, 0, s.last_hid.buttons);
    replay_concat(start, msgs, b);
    assert(silent(tail));
    replay_silent(d.state.prev_buttons, tail);
    replay_concat(start, msgs + b, tail);
    assert(d.msgs =~= msgs + b + tail);
}

proof fn replay_pad(s: PollModel, start: Seq<u16>, msgs: Seq<SecureMsg>, slot: u32, pad: Gamepad)
    requires
        slot < SLOTS,
        s.prev_buttons.len() == 4,
        replay(start, msgs) == s.prev_buttons,
        consistent(start, msgs),
    ensures
        ({
            let d = xinput_poll::deliver_pad(s, msgs, slot, pad);
            consistent(start, d.msgs) && replay(start, d.msgs) == d.state.prev_buttons
        }),
{
    let d = xinput_poll::deliver_pad(s, msgs, slot, pad);
    let b = xinput_poll::button_msgs(slot, s.prev_buttons[slot as int], pad.buttons);
    let trig = xinput_poll::trigger_msgs(
        pad_decode::trigger_changes(
            s.prev_trigger_left,
            s.prev_trigger_right,
            pad.left_trigger,
            pad.right_trigger,
        ),
    );
    let tail = d.msgs.subrange((msgs.len() + trig.len() + b.len()) as int, d.msgs.len() as int);
    assert(silent(trig));
    replay_silent(s.prev_buttons, trig);
    replay_concat(start, msgs, trig);
    replay_single(s.prev_buttons, slot, pad.buttons);
    replay_concat(start, msgs + trig, b);
    assert(silent(tail));
    replay_silent(d.state.prev_buttons, tail);
    replay_concat(start, msgs + trig + b, tail);
    assert(d.msgs =~= msgs + trig + b + tail);
}

/// Every button message of a tick starts from the mask the previous message left
/// behind, and together they lead from the old masks to the new ones.
pub proof fn messages_replay_the_buttons(s: PollModel, hold: InjectHold, r: TickReadings)
    requires
        s.prev_buttons.len() == 4,
        s.active_slot matches Some(i) ==> i < SLOTS,
    ensures
        consistent(s.prev_buttons, xinput_poll::tick_outcome(s, hold, r).msgs),
        replay(s.prev_buttons, xinput_poll::tick_outcome(s, hold, r).msgs) == xinput_poll::tick_outcome(
            s,
            hold,
            r,
        ).state.prev_buttons,
{
    replay_absorb(s, r);
    let s1 = xinput_poll::absorbed(s, r);
    let m1 = xinput_poll::absorb_msgs(s, r);
    if hold.active {
        replay_held(s1, hold, s.prev_buttons, m1);
    } else {
        let connected = xinput_poll::connected_now(xinput_poll::scan_slots(s, r, 4).connected, r);
        let start = xinput_poll::live_start(s1, m1, connected, r.now);
        replay_start(s1, s.prev_buttons, m1, connected, r.now);
        scan_length(s, r, 4);
        chosen_slot_exists(s1.active_slot, connected);
        if let Some(i) = start.state.active_slot {
            if xinput_poll::hid_owns(r) && i == 0 {
                replay_hid(start.state, s.prev_buttons, start.msgs);
            } else {
                let pad = xinput_poll::source_pad(start.state, i as int, r);
                replay_pad(start.state, s.prev_buttons, start.msgs, i, pad);
            }
        }
    }
}

proof fn scan_length(s: PollModel, r: TickReadings, n: nat)
    ensures
        xinput_poll::scan_slots(s, r, n).connected.len() == n,
    decreases n,
{
    if n > 0 {
        scan_length(s, r, (n - 1) as nat);
    }
}

proof fn first_connected_exists(connected: Seq<bool>, from: int)
    requires
        connected.len() <= 4,
        0 <= from,
    ensures
        xinput_poll::first_connected(connected, from) matches Some(i) ==> from <= i < connected.len()
            && connected[i as int] && forall|k: int| from <= k < i ==> !connected[k],
        xinput_poll::first_connected(connected, from) is None ==> forall|k: int|
            from <= k < connected.len() ==> !connected[k],
    decreases connected.len() - from,
{
    if from < connected.len() && !connected[from] {
        first_connected_exists(connected, from + 1);
    }
}

proof fn chosen_slot_exists(active: Option<u32>, connected: Seq<bool>)
    ensures
        connected.len() <= 4 ==> (xinput_poll::choose_slot(active, connected) matches Some(i) ==> i
            < connected.len()),
{
    if connected.len() <= 4 {
        first_connected_exists(connected, 0);
    }
}

/// The active slot is kept as long as it is connected; otherwise the lowest
/// connected slot takes over, and there is none only when nothing is connected.
pub proof fn active_slot_is_sticky(active: Option<u32>, connected: Seq<bool>)
    requires
        connected.len() == 4,
    ensures
        active matches Some(i) ==> i < SLOTS && connected[i as int] ==> xinput_poll::choose_slot(
            active,
            connected,
        ) == active,
        xinput_poll::choose_slot(active, connected) matches Some(i) ==> i < SLOTS && connected[i as int] && (
        xinput_poll::choose_slot(active, connected) != active ==> forall|k: int| 0 <= k < i ==> !connected[k]),
        xinput_poll::choose_slot(active, connected) is None <==> forall|k: int| 0 <= k < 4 ==> !connected[k],
{
    first_connected_exists(connected, 0);
}

/// Among the samples of one round, the first that holds anything wins; a neutral
/// one is kept only when every sample is neutral.
pub proof fn held_sample_wins(polls: Seq<Option<PadSample>>)
    ensures
        xinput_poll::freshest(polls) is None <==> forall|i: int| 0 <= i < polls.len() ==> polls[i] is None,
        xinput_poll::freshest(polls) matches Some(s) ==> xinput_poll::is_neutral(s) ==> forall|i: int|
            0 <= i < polls.len() ==> (#[trigger] polls[i] matches Some(v) ==> xinput_poll::is_neutral(v)),
        xinput_poll::freshest(polls) matches Some(s) ==> !xinput_poll::is_neutral(s) ==> exists|i: int|
            0 <= i < polls.len() && #[trigger] polls[i] == Some(s) && forall|k: int|
                0 <= k < i ==> (#[trigger] polls[k] matches Some(v) ==> xinput_poll::is_neutral(v)),
    decreases polls.len(),
{
    if polls.len() > 0 {
        let init = polls.drop_last();
        held_sample_wins(init);
        let n = polls.len() - 1;
        assert forall|i: int| 0 <= i < n implies polls[i] == init[i] by {}
        if let Some(s) = xinput_poll::freshest(polls) {
            if !xinput_poll::is_neutral(s) {
                if xinput_poll::freshest(init) == Some(s) {
                    let i = choose|i: int|
                        0 <= i < init.len() && #[trigger] init[i] == Some(s) && forall|k: int|
                            0 <= k < i ==> (#[trigger] init[k] matches Some(v) ==> xinput_poll::is_neutral(v));
                    assert(polls[i] == Some(s));
                    assert forall|k: int| 0 <= k < i implies (#[trigger] polls[k] matches Some(v)
                        ==> xinput_poll::is_neutral(v)) by {
                        assert(init[k] == polls[k]);
                    }
                } else {
                    assert(polls[n] == Some(s));
                    assert forall|k: int| 0 <= k < n implies (#[trigger] polls[k] matches Some(v)
                        ==> xinput_poll::is_neutral(v)) by {
                        assert(init[k] == polls[k]);
                    }
                }
            } else {
                assert forall|i: int| 0 <= i < polls.len() implies (#[trigger] polls[i] matches Some(
                    v,
                ) ==> xinput_poll::is_neutral(v)) by {
                    if i < n {
                        assert(init[i] == polls[i]);
                    }
                }
            }
        }
        if xinput_poll::freshest(polls) is None {
            assert forall|i: int| 0 <= i < polls.len() implies polls[i] is None by {
                if i < n {
                    assert(init[i] == polls[i]);
                }
            }
        } else {
            if polls[n] is None {
                assert(exists|i: int| 0 <= i < init.len() && init[i] is Some);
                let i = choose|i: int| 0 <= i < init.len() && init[i] is Some;
                assert(polls[i] is Some);
            }
        }
    }
}

/// A HID pad owns slot 0 only while no XUSB device is open: a tick that leaves
/// one open neither marks HID active nor announces it.
pub proof fn hid_never_shadows_xusb(s: PollModel, hold: InjectHold, r: TickReadings)
    requires
        xinput_poll::xusb_left(r) > 0,
    ensures
        !xinput_poll::tick_outcome(s, hold, r).state.hid_active_prev,
        s.hid_active_prev ==> xinput_poll::absorb_msgs(s, r).last() == SecureMsg::HidActive(false),
        forall|i: int|
            0 <= i < xinput_poll::absorb_msgs(s, r).len() ==> #[trigger] xinput_poll::absorb_msgs(s, r)[i] != SecureMsg::HidActive(
                true,
            ),
{
    no_hid_news(s, r, 4);
}

proof fn no_hid_news(s: PollModel, r: TickReadings, n: nat)
    ensures
        forall|i: int|
            0 <= i < xinput_poll::scan_slots(s, r, n).msgs.len() ==> !(#[trigger] xinput_poll::scan_slots(s, r, n).msgs[i] is HidActive),
    decreases n,
{
    if n > 0 {
        no_hid_news(s, r, (n - 1) as nat);
        let acc = xinput_poll::scan_slots(s, r, (n - 1) as nat);
        no_hid_keys(
            (n - 1) as u32,
            acc.prev_buttons[n - 1],
            r.slots@[n - 1].keys@,
            KEYSTROKE_BURST as nat,
        );
    }
}

proof fn no_hid_keys(slot: u32, prev: u16, keys: Seq<KeyReading>, limit: nat)
    ensures
        forall|i: int|
            0 <= i < xinput_poll::key_run(slot, prev, keys, limit).msgs.len() ==> !(#[trigger] xinput_poll::key_run(
                slot,
                prev,
                keys,
                limit,
            ).msgs[i] is HidActive),
    decreases limit,
{
    if limit > 0 && keys.len() > 0 && keys[0].err == super::types::ERROR_SUCCESS {
        let cur = match super::xinput_poll::key_mask(keys[0].key.virtual_key) {
            Some(mask) => super::xinput_poll::after_key(prev, keys[0].key, mask),
            None => prev,
        };
        no_hid_keys(slot, cur, keys.drop_first(), (limit - 1) as nat);
    }
}

/// The hold after one tick.
pub open spec fn next_hold(hold: InjectHold) -> InjectHold {
    if !hold.active {
        hold
    } else if hold.ticks > 0 {
        InjectHold { active: true, ticks: (hold.ticks - 1) as u32 }
    } else {
        InjectHold { active: false, ticks: 0 }
    }
}

/// The hold after `n` ticks.
pub open spec fn hold_after(hold: InjectHold, n: nat) -> InjectHold
    decreases n,
{
    if n == 0 {
        hold
    } else {
        next_hold(hold_after(hold, (n - 1) as nat))
    }
}

/// What a tick does to the hold does not depend on the readings.
pub proof fn tick_advances_the_hold(s: PollModel, hold: InjectHold, r: TickReadings)
    ensures
        xinput_poll::tick_outcome(s, hold, r).hold == next_hold(hold),
{
}

/// A hold covers the ticks of its window and the one after it, then is over.
pub proof fn hold_lasts_its_window(n: nat)
    ensures
        ({
            let hold = hold_after(InjectHold { active: true, ticks: INJECT_HOLD_WINDOW }, n);
            if n <= INJECT_HOLD_WINDOW {
                hold.active && hold.ticks == INJECT_HOLD_WINDOW - n
            } else {
                !hold.active
            }
        }),
    decreases n,
{
    if n > 0 {
        hold_lasts_its_window((n - 1) as nat);
    }
}

/// The tick that ends a hold leaves no button pressed and forgets the last XUSB
/// report; a tick inside it only takes readings in and centres the sticks.
pub proof fn hold_releases_everything(s: PollModel, hold: InjectHold, r: TickReadings)
    requires
        hold.active,
    ensures
        ({
            let t = xinput_poll::tick_outcome(s, hold, r);
            if hold.ticks == 0 {
                &&& t.state.prev_buttons == seq![0u16, 0u16, 0u16, 0u16]
                &&& t.state.last_xusb is None
            } else {
                &&& t.state == xinput_poll::absorbed(s, r)
                &&& t.msgs == xinput_poll::absorb_msgs(s, r).push(
                    SecureMsg::Axes(super::types::Axes::Centered),
                )
            }
        }),
{
}

/// The backend's button masks follow the poll thread's: equal before a tick,
/// they are equal after its messages are taken in.
pub proof fn backend_mirrors_the_helper(
    b: BackendModel,
    s: PollModel,
    hold: InjectHold,
    r: TickReadings,
)
    requires
        s.prev_buttons.len() == 4,
        s.active_slot matches Some(i) ==> i < SLOTS,
        b.prev_buttons == s.prev_buttons,
    ensures
        super::after_msgs(b, xinput_poll::tick_outcome(s, hold, r).msgs).prev_buttons
            == xinput_poll::tick_outcome(s, hold, r).state.prev_buttons,
{
    messages_replay_the_buttons(s, hold, r);
    masks_follow(b, xinput_poll::tick_outcome(s, hold, r).msgs);
}

proof fn masks_follow(b: BackendModel, msgs: Seq<SecureMsg>)
    requires
        consistent(b.prev_buttons, msgs),
    ensures
        super::after_msgs(b, msgs).prev_buttons == replay(b.prev_buttons, msgs),
    decreases msgs.len(),
{
    if msgs.len() > 0 {
        masks_follow(b, msgs.drop_last());
    }
}

/// The controls that are down on a slot, triggers among them.
pub open spec fn inputs_down(b: BackendModel, slot: int) -> Set<Button> {
    Set::new(
        |x: Button|
            {
                ||| pad_decode::is_down(b.prev_buttons[slot], x)
                ||| x == Button::Lt && b.prev_trigger_left
                ||| x == Button::Rt && b.prev_trigger_right
            },
    )
}

/// The changes of a direct read lead exactly from the controls that were down to
/// those that are down.
pub proof fn direct_read_reports_what_changed(b: BackendModel, slots: Seq<SlotReading>, slot: u32)
    requires
        b.prev_buttons.len() == 4,
        slot < SLOTS,
        b.pending.len() == 0,
        xinput_poll::choose_slot(b.active_slot, super::answered(slots)) == Some(slot),
    ensures
        pad_decode::after_changes(
            inputs_down(b, slot as int),
            super::after_read(b, slots).pending,
        ) == inputs_down(super::after_read(b, slots), slot as int),
{
    let i = slot as int;
    let pad = slots[i].pad;
    let prev = b.prev_buttons[i];
    let keys = slots[i].keys@;
    let run = xinput_poll::key_run(slot, pad.buttons, keys, KEYSTROKE_BURST as nat);
    let e = pad_decode::edges_between(prev, pad.buttons);
    let t = pad_decode::trigger_changes(
        b.prev_trigger_left,
        b.prev_trigger_right,
        pad.left_trigger,
        pad.right_trigger,
    );
    let k = super::edges_of(run.msgs);
    let start = inputs_down(b, i);
    let mid = pad_decode::after_changes(start, e);
    let mid2 = pad_decode::after_changes(mid, t);
    pad_decode::edges_replay_over(start, prev, pad.buttons);
    triggers_replay_over(
        mid,
        b.prev_trigger_left,
        b.prev_trigger_right,
        pad.left_trigger,
        pad.right_trigger,
    );
    keys_replay_over(mid2, slot, pad.buttons, keys, KEYSTROKE_BURST as nat);
    pad_decode::changes_compose(start, e, t);
    pad_decode::changes_compose(start, e + t, k);
    assert(super::after_read(b, slots).pending =~= e + t + k);
    assert(pad_decode::after_changes(mid2, k) =~= inputs_down(super::after_read(b, slots), i));
}

proof fn triggers_replay_over(inputs: Set<Button>, was_left: bool, was_right: bool, left: u8, right: u8)
    requires
        inputs.contains(Button::Lt) == was_left,
        inputs.contains(Button::Rt) == was_right,
    ensures
        forall|x: Button|
            #[trigger] pad_decode::after_changes(
                inputs,
                pad_decode::trigger_changes(was_left, was_right, left, right),
            ).contains(x) == (if x == Button::Lt {
                left > TRIGGER_PRESS_THRESH
            } else if x == Button::Rt {
                right > TRIGGER_PRESS_THRESH
            } else {
                inputs.contains(x)
            }),
{
    let l = pad_decode::trigger_change(Button::Lt, was_left, left);
    let r = pad_decode::trigger_change(Button::Rt, was_right, right);
    pad_decode::changes_compose(inputs, l, r);
    reveal_with_fuel(pad_decode::after_changes, 2);
    if l.len() == 1 {
        assert(l.drop_last() =~= Seq::<ButtonChange>::empty());
    }
    if r.len() == 1 {
        assert(r.drop_last() =~= Seq::<ButtonChange>::empty());
    }
}

proof fn edges_of_concat(a: Seq<SecureMsg>, b: Seq<SecureMsg>)
    ensures
        super::edges_of(a + b) == super::edges_of(a) + super::edges_of(b),
    decreases b.len(),
{
    if b.len() == 0 {
        assert(a + b =~= a);
        assert(super::edges_of(a) + super::edges_of(b) =~= super::edges_of(a));
    } else {
        assert((a + b).drop_last() =~= a + b.drop_last());
        edges_of_concat(a, b.drop_last());
        assert(super::edges_of(a + b) =~= super::edges_of(a) + super::edges_of(b));
    }
}

proof fn keys_replay_over(inputs: Set<Button>, slot: u32, prev: u16, keys: Seq<KeyReading>, limit: nat)
    requires
        forall|x: Button|
            pad_decode::mask_of(x) is Some ==> inputs.contains(x) == pad_decode::is_down(prev, x),
    ensures
        ({
            let run = xinput_poll::key_run(slot, prev, keys, limit);
            forall|x: Button|
                #[trigger] pad_decode::after_changes(inputs, super::edges_of(run.msgs)).contains(x)
                    == (if pad_decode::mask_of(x) is Some {
                    pad_decode::is_down(run.cur, x)
                } else {
                    inputs.contains(x)
                })
        }),
    decreases limit,
{
    let run = xinput_poll::key_run(slot, prev, keys, limit);
    reveal_with_fuel(super::edges_of, 2);
    reveal_with_fuel(pad_decode::after_changes, 2);
    if limit == 0 || keys.len() == 0 || keys[0].err != super::types::ERROR_SUCCESS {
        if run.msgs.len() == 1 {
            assert(run.msgs.drop_last() =~= Seq::<SecureMsg>::empty());
        }
        assert(super::edges_of(run.msgs) =~= Seq::<ButtonChange>::empty());
    } else {
        let cur = match xinput_poll::key_mask(keys[0].key.virtual_key) {
            Some(mask) => xinput_poll::after_key(prev, keys[0].key, mask),
            None => prev,
        };
        let change = xinput_poll::button_msgs(slot, prev, cur);
        let rest = xinput_poll::key_run(slot, cur, keys.drop_first(), (limit - 1) as nat);
        let e = pad_decode::edges_between(prev, cur);
        if change.len() == 1 {
            assert(change.drop_last() =~= Seq::<SecureMsg>::empty());
        } else {
            pad_decode::equal_readings_have_no_edges(prev);
        }
        assert(super::edges_of(change) =~= e);
        assert(run.msgs == change + rest.msgs);
        edges_of_concat(change, rest.msgs);
        pad_decode::edges_replay_over(inputs, prev, cur);
        let next = pad_decode::after_changes(inputs, e);
        keys_replay_over(next, slot, cur, keys.drop_first(), (limit - 1) as nat);
        pad_decode::changes_compose(inputs, e, super::edges_of(rest.msgs));
    }
}

/// Once the helper's contribution is cleared, the pad is named after its XInput
/// slot and no trigger counts as held.
pub proof fn cleared_state_forgets_the_helper(b: BackendModel)
    ensures
        super::label_of(super::cleared(b).active_secure_hid, super::cleared(b).active_slot)
            == super::label_of(false, b.active_slot),
        forall|i: int|
            0 <= i < super::held_controls(super::cleared(b)).len() ==> #[trigger] super::held_controls(
                super::cleared(b),
            )[i] != Button::Lt && super::held_controls(super::cleared(b))[i] != Button::Rt,
{
    if let Some(slot) = b.active_slot {
        no_triggers_down(b.prev_buttons[slot as int], pad_decode::masked_buttons().len());
    }
}

proof fn no_triggers_down(mask: u16, n: nat)
    ensures
        forall|i: int|
            0 <= i < super::down_upto(mask, n).len() ==> #[trigger] super::down_upto(mask, n)[i]
                != Button::Lt && super::down_upto(mask, n)[i] != Button::Rt,
    decreases n,
{
    if n > 0 {
        no_triggers_down(mask, (n - 1) as nat);
    }
}

} // verus!

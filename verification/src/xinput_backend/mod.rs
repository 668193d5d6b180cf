//! Gamepad polling: XInput on the user's desktop, and a helper thread with
//! direct HID and XUSB reads on the sign-in desktop.

pub mod delivery;
pub mod identity;
pub mod laws;
pub mod pad_log;
pub mod raw_hid;
pub mod secure_poll;
pub mod types;
pub mod xinput_poll;

use vstd::prelude::*;

use crate::clock;
use crate::clock::is_due;
use crate::pad_decode;
use crate::pad_decode::{
    button_table, edges, norm_thumb, poll_trigger_edges, pressed_in, Button, ButtonChange,
    LEFT_DEADZONE, RIGHT_DEADZONE,
};
use crate::text;
use crate::text::{concat2, decimal_of};
use types::{Axes, InjectHold, SecureMsg, SlotReading, ERROR_SUCCESS, KEYSTROKE_BURST, SLOTS};
use xinput_poll::{find_connected, secure_poll_keystrokes};

verus! {

/// How often the input desktop is looked at.
pub const SECURE_CHECK_MS: u64 = 250;

/// Looks away from the sign-in desktop that are tolerated while the helper runs.
pub const LEAVE_STREAK: u8 = 12;

/// Poll ticks that pad input stays suppressed for after a key was injected.
pub const INJECT_HOLD_WINDOW: u32 = 6;

/// Suppresses pad input for one inject burst.
pub fn begin_inject_hold(hold: &mut InjectHold)
    ensures
        *final(hold) == (InjectHold { active: true, ticks: INJECT_HOLD_WINDOW }),
        final(hold).ticks == 6,
{
    hold.active = true;
    hold.ticks = INJECT_HOLD_WINDOW;
}

/// What to do about the helper thread.
#[derive(Clone, Copy, Debug, PartialEq, Eq, Structural)]
pub enum HelperAction {
    Keep,
    Spawn,
    Stop,
}

/// The gamepad as the controller loop sees it.
pub struct XInputBackend {
    /// The helper thread on the sign-in desktop is running.
    pub secure: bool,
    pub active_slot: Option<u32>,
    pub active_secure_hid: bool,
    pub prev_buttons: [u16; 4],
    pub pending: Vec<ButtonChange>,
    pub prev_trigger_left: bool,
    pub prev_trigger_right: bool,
    pub axes: Axes,
    pub last_secure_check: Option<u64>,
    /// Consecutive looks that did not see the sign-in desktop.
    pub secure_leave_winlogon_streak: u8,
}

/// `XInputBackend` as a mathematical value.
pub struct BackendModel {
    pub secure: bool,
    pub active_slot: Option<u32>,
    pub active_secure_hid: bool,
    pub prev_buttons: Seq<u16>,
    pub pending: Seq<ButtonChange>,
    pub prev_trigger_left: bool,
    pub prev_trigger_right: bool,
    pub axes: Axes,
    pub last_secure_check: Option<u64>,
    pub streak: u8,
}

impl View for XInputBackend {
    type V = BackendModel;

    open spec fn view(&self) -> BackendModel {
        BackendModel {
            secure: self.secure,
            active_slot: self.active_slot,
            active_secure_hid: self.active_secure_hid,
            prev_buttons: self.prev_buttons@,
            pending: self.pending@,
            prev_trigger_left: self.prev_trigger_left,
            prev_trigger_right: self.prev_trigger_right,
            axes: self.axes,
            last_secure_check: self.last_secure_check,
            streak: self.secure_leave_winlogon_streak,
        }
    }
}

/// The state without what the helper thread contributed to it.
pub open spec fn cleared(b: BackendModel) -> BackendModel {
    BackendModel {
        active_secure_hid: false,
        prev_trigger_left: false,
        prev_trigger_right: false,
        ..b
    }
}

/// The state after one message of the helper thread.
pub open spec fn after_msg(b: BackendModel, msg: SecureMsg) -> BackendModel {
    match msg {
        SecureMsg::Slots(connected) => {
            let slot = xinput_poll::choose_slot(b.active_slot, connected@);
            BackendModel {
                active_slot: slot,
                active_secure_hid: b.active_secure_hid && slot == Some(0u32),
                ..b
            }
        },
        SecureMsg::Buttons { slot, prev, cur } => BackendModel {
            active_slot: if slot < SLOTS { Some(slot) } else { b.active_slot },
            prev_buttons: if slot < SLOTS {
                b.prev_buttons.update(slot as int, cur)
            } else {
                b.prev_buttons
            },
            pending: b.pending + pad_decode::edges_between(prev, cur),
            ..b
        },
        SecureMsg::Trigger(edge) => BackendModel {
            prev_trigger_left: if edge.button == Button::Lt {
                edge.pressed
            } else {
                b.prev_trigger_left
            },
            prev_trigger_right: if edge.button == Button::Rt {
                edge.pressed
            } else {
                b.prev_trigger_right
            },
            pending: b.pending.push(edge),
            ..b
        },
        SecureMsg::HidActive(active) => BackendModel {
            active_secure_hid: active,
            active_slot: if active { Some(0) } else { b.active_slot },
            ..b
        },
        SecureMsg::Axes(axes) => BackendModel { axes, ..b },
        SecureMsg::NoController => BackendModel {
            active_slot: None,
            axes: Axes::Centered,
            ..cleared(b)
        },
        SecureMsg::Ready | SecureMsg::Error(_) | SecureMsg::Probe => b,
    }
}

/// The state after a run of messages.
pub open spec fn after_msgs(b: BackendModel, msgs: Seq<SecureMsg>) -> BackendModel
    decreases msgs.len(),
{
    if msgs.len() == 0 {
        b
    } else {
        after_msg(after_msgs(b, msgs.drop_last()), msgs.last())
    }
}

/// The state after everything the helper thread sent, and its death if it died.
pub open spec fn synced(b: BackendModel, msgs: Seq<SecureMsg>, thread_dead: bool) -> BackendModel {
    if !b.secure {
        b
    } else if thread_dead {
        BackendModel { secure: false, ..cleared(after_msgs(b, msgs)) }
    } else {
        after_msgs(b, msgs)
    }
}

/// The edges that the button messages of a run stand for.
pub open spec fn edges_of(msgs: Seq<SecureMsg>) -> Seq<ButtonChange>
    decreases msgs.len(),
{
    if msgs.len() == 0 {
        seq![]
    } else {
        match msgs.last() {
            SecureMsg::Buttons { slot, prev, cur } => edges_of(msgs.drop_last())
                + pad_decode::edges_between(prev, cur),
            _ => edges_of(msgs.drop_last()),
        }
    }
}

/// The connection flags of one round of XInput answers.
pub open spec fn answered(slots: Seq<SlotReading>) -> Seq<bool> {
    slots.map_values(|r: SlotReading| r.err == ERROR_SUCCESS)
}

/// The state after reading XInput directly.
pub open spec fn after_read(b: BackendModel, slots: Seq<SlotReading>) -> BackendModel {
    match xinput_poll::choose_slot(b.active_slot, answered(slots)) {
        None => BackendModel {
            active_slot: None,
            axes: Axes::Centered,
            ..b
        },
        Some(slot) => {
            let pad = slots[slot as int].pad;
            let run = xinput_poll::key_run(
                slot,
                pad.buttons,
                slots[slot as int].keys@,
                KEYSTROKE_BURST as nat,
            );
            BackendModel {
                active_slot: Some(slot),
                prev_buttons: b.prev_buttons.update(slot as int, run.cur),
                pending: b.pending + pad_decode::edges_between(
                    b.prev_buttons[slot as int],
                    pad.buttons,
                ) + pad_decode::trigger_changes(
                    b.prev_trigger_left,
                    b.prev_trigger_right,
                    pad.left_trigger,
                    pad.right_trigger,
                ) + edges_of(run.msgs),
                prev_trigger_left: pad.left_trigger > pad_decode::TRIGGER_PRESS_THRESH,
                prev_trigger_right: pad.right_trigger > pad_decode::TRIGGER_PRESS_THRESH,
                axes: Axes::Thumbs {
                    lx: pad_decode::past_deadzone(pad.thumb_lx, LEFT_DEADZONE),
                    ly: pad_decode::past_deadzone(pad.thumb_ly, LEFT_DEADZONE),
                    rx: pad_decode::past_deadzone(pad.thumb_rx, RIGHT_DEADZONE),
                    ry: pad_decode::past_deadzone(pad.thumb_ry, RIGHT_DEADZONE),
                },
                ..b
            }
        },
    }
}

/// The state after one poll: the helper's messages while it runs, else a direct
/// read.
pub open spec fn polled(b: BackendModel, msgs: Seq<SecureMsg>, thread_dead: bool, slots: Seq<SlotReading>) -> BackendModel {
    let s = synced(BackendModel { pending: seq![], ..b }, msgs, thread_dead);
    if s.secure {
        s
    } else {
        after_read(s, slots)
    }
}

/// The name of the pad in use.
pub open spec fn label_of(active_secure_hid: bool, active_slot: Option<u32>) -> Seq<char> {
    if active_secure_hid {
        "HID slot 0"@
    } else {
        match active_slot {
            Some(i) => "XInput slot "@ + text::decimal(i as nat),
            None => "none"@,
        }
    }
}

/// The masked buttons among the first `n` that are down.
pub open spec fn down_upto(mask: u16, n: nat) -> Seq<Button>
    decreases n,
{
    if n == 0 {
        seq![]
    } else {
        let b = pad_decode::masked_buttons()[n - 1];
        let before = down_upto(mask, (n - 1) as nat);
        if pad_decode::is_down(mask, b) {
            before.push(b)
        } else {
            before
        }
    }
}

/// The controls held on the active pad: masked buttons in reporting order, then
/// the triggers.
pub open spec fn held_controls(b: BackendModel) -> Seq<Button> {
    match b.active_slot {
        None => seq![],
        Some(slot) => {
            let down = down_upto(
                b.prev_buttons[slot as int],
                pad_decode::masked_buttons().len(),
            );
            let left = if b.prev_trigger_left { seq![Button::Lt] } else { seq![] };
            let right = if b.prev_trigger_right { seq![Button::Rt] } else { seq![] };
            down + left + right
        },
    }
}

/// The buttons with a mask bit that are down in the reading `mask`, in reporting
/// order.
pub fn buttons_down(mask: u16) -> (down: Vec<Button>)
    ensures
        down@ == down_upto(mask, pad_decode::masked_buttons().len()),
{
    let mut down: Vec<Button> = Vec::new();
    let table = button_table();
    let mut i: usize = 0;
    while i < table.len()
        invariant
            i <= table.len(),
            table@ == pad_decode::masked_buttons(),
            down@ == down_upto(mask, i as nat),
        decreases table.len() - i,
    {
        if pressed_in(mask, table[i]) {
            down.push(table[i]);
        }
        i += 1;
    }
    down
}

fn extend(out: &mut Vec<ButtonChange>, more: &Vec<ButtonChange>)
    ensures
        final(out)@ == old(out)@ + more@,
{
    let mut i: usize = 0;
    assert(out@ =~= out@ + more@.take(0));
    while i < more.len()
        invariant
            i <= more.len(),
            out@ == old(out)@ + more@.take(i as int),
        decreases more.len() - i,
    {
        out.push(more[i]);
        i += 1;
        assert(more@.take(i as int) =~= more@.take(i - 1).push(more@[i - 1]));
    }
    assert(more@.take(more@.len() as int) =~= more@);
}

impl XInputBackend {
    /// The active slot exists.
    pub open spec fn wf(self) -> bool {
        self.active_slot matches Some(i) ==> i < SLOTS
    }

    pub fn new() -> (b: Self)
        ensures
            b.wf(),
            b@ == (BackendModel {
                secure: false,
                active_slot: None,
                active_secure_hid: false,
                prev_buttons: seq![0u16, 0u16, 0u16, 0u16],
                pending: seq![],
                prev_trigger_left: false,
                prev_trigger_right: false,
                axes: Axes::Centered,
                last_secure_check: None,
                streak: 0,
            }),
    {
        let b = XInputBackend {
            secure: false,
            active_slot: None,
            active_secure_hid: false,
            prev_buttons: [0, 0, 0, 0],
            pending: Vec::new(),
            prev_trigger_left: false,
            prev_trigger_right: false,
            axes: Axes::Centered,
            last_secure_check: None,
            secure_leave_winlogon_streak: 0,
        };
        assert(b.prev_buttons@ =~= seq![0u16, 0u16, 0u16, 0u16]);
        assert(b.pending@ =~= Seq::<ButtonChange>::empty());
        b
    }

    /// Forgets what the helper thread contributed.
    pub fn clear_secure_state(&mut self)
        ensures
            final(self)@ == cleared(old(self)@),
    {
        self.active_secure_hid = false;
        self.prev_trigger_left = false;
        self.prev_trigger_right = false;
    }

    /// Whether to treat the input desktop as the sign-in desktop: it is, or the
    /// helper runs and only a few looks in a row said otherwise.
    pub fn input_is_winlogon(&mut self, winlogon: bool) -> (r: bool)
        ensures
            ({
                let streak: int = if winlogon {
                    0
                } else if old(self).secure_leave_winlogon_streak < u8::MAX {
                    old(self).secure_leave_winlogon_streak + 1
                } else {
                    u8::MAX as int
                };
                &&& final(self)@ == (BackendModel { streak: streak as u8, ..old(self)@ })
                &&& r == (winlogon || old(self).secure && streak < LEAVE_STREAK)
            }),
            winlogon ==> r,
            !winlogon && !old(self).secure ==> !r,
            !winlogon && old(self).secure ==> (r <==> final(self).secure_leave_winlogon_streak < 12),
    {
        if winlogon {
            self.secure_leave_winlogon_streak = 0;
            return true;
        }
        self.secure_leave_winlogon_streak = self.secure_leave_winlogon_streak.saturating_add(1);
        self.secure && self.secure_leave_winlogon_streak < LEAVE_STREAK
    }

    /// Looks at the input desktop from time to time and decides about the helper
    /// thread. On `Spawn` the caller starts it and reports with `helper_started`;
    /// on `Stop` it ends it.
    pub fn check_secure_helper(&mut self, now: u64, winlogon: bool) -> (action: HelperAction)
        requires
            old(self).wf(),
        ensures
            final(self).wf(),
            action == HelperAction::Spawn ==> winlogon && !old(self).secure,
            action == HelperAction::Stop ==> !winlogon && old(self).secure && old(
                self,
            ).secure_leave_winlogon_streak >= 11,
            (old(self).last_secure_check matches Some(t) && now < t + 250) ==> action
                == HelperAction::Keep,
            (old(self).last_secure_check matches Some(t) ==> now >= t + 250) ==> (action
                == HelperAction::Spawn <==> winlogon && !old(self).secure) && (action
                == HelperAction::Stop <==> !winlogon && old(self).secure && old(
                self,
            ).secure_leave_winlogon_streak >= 11),
            ({
                let look = clock::due(old(self).last_secure_check, now, SECURE_CHECK_MS);
                let streak: int = if winlogon {
                    0
                } else if old(self).secure_leave_winlogon_streak < u8::MAX {
                    old(self).secure_leave_winlogon_streak + 1
                } else {
                    u8::MAX as int
                };
                let wanted = winlogon || old(self).secure && streak < LEAVE_STREAK;
                let looked = BackendModel {
                    last_secure_check: Some(now),
                    streak: streak as u8,
                    ..old(self)@
                };
                if !look {
                    action == HelperAction::Keep && final(self)@ == old(self)@
                } else if wanted && !old(self).secure {
                    action == HelperAction::Spawn && final(self)@ == looked
                } else if !wanted && old(self).secure {
                    &&& action == HelperAction::Stop
                    &&& final(self)@ == (BackendModel { secure: false, streak: 0, ..cleared(looked) })
                } else {
                    action == HelperAction::Keep && final(self)@ == looked
                }
            }),
    {
        if !is_due(self.last_secure_check, now, SECURE_CHECK_MS) {
            return HelperAction::Keep;
        }
        self.last_secure_check = Some(now);
        let wanted = self.input_is_winlogon(winlogon);
        if wanted && !self.secure {
            HelperAction::Spawn
        } else if !wanted && self.secure {
            self.secure = false;
            self.clear_secure_state();
            self.secure_leave_winlogon_streak = 0;
            HelperAction::Stop
        } else {
            HelperAction::Keep
        }
    }

    /// Records whether the helper thread came up.
    pub fn helper_started(&mut self, ok: bool)
        ensures
            final(self)@ == (BackendModel { secure: old(self).secure || ok, ..old(self)@ }),
    {
        if ok {
            self.secure = true;
        }
    }

    /// The slot in use: the active one while it is connected, else the first one.
    pub fn slot_in_use(&self, connected: &[bool; 4]) -> (slot: Option<u32>)
        requires
            self.wf(),
        ensures
            slot == xinput_poll::choose_slot(self.active_slot, connected@),
            slot matches Some(i) ==> i < SLOTS && connected@[i as int],
    {
        if let Some(slot) = self.active_slot {
            if connected[slot as usize] {
                return Some(slot);
            }
        }
        find_connected(connected)
    }

    /// Keeps the active slot while it is connected, else takes the first one.
    pub fn pick_active_slot(&mut self, connected: &[bool; 4]) -> (slot: Option<u32>)
        requires
            old(self).wf(),
        ensures
            final(self).wf(),
            slot == xinput_poll::choose_slot(old(self).active_slot, connected@),
            slot matches Some(i) ==> connected@[i as int],
            final(self)@ == (BackendModel { active_slot: slot, ..old(self)@ }),
    {
        self.active_slot = self.slot_in_use(connected);
        self.active_slot
    }

    /// Takes in one message of the helper thread.
    fn take_message(&mut self, msg: SecureMsg)
        requires
            old(self).wf(),
        ensures
            final(self).wf(),
            final(self)@ == after_msg(old(self)@, msg),
    {
        match msg {
            SecureMsg::Slots(connected) => {
                let slot = self.pick_active_slot(&connected);
                if slot != Some(0u32) {
                    self.active_secure_hid = false;
                }
            },
            SecureMsg::Buttons { slot, prev, cur } => {
                if slot < SLOTS {
                    self.active_slot = Some(slot);
                    self.prev_buttons[slot as usize] = cur;
                    assert(self.prev_buttons@ =~= old(self).prev_buttons@.update(slot as int, cur));
                }
                extend(&mut self.pending, &edges(prev, cur));
            },
            SecureMsg::Trigger(edge) => {
                match edge.button {
                    Button::Lt => {
                        self.prev_trigger_left = edge.pressed;
                    },
                    Button::Rt => {
                        self.prev_trigger_right = edge.pressed;
                    },
                    _ => {},
                }
                self.pending.push(edge);
            },
            SecureMsg::HidActive(active) => {
                self.active_secure_hid = active;
                if active {
                    self.active_slot = Some(0);
                }
            },
            SecureMsg::Axes(axes) => {
                self.axes = axes;
            },
            SecureMsg::NoController => {
                self.active_slot = None;
                self.clear_secure_state();
                self.axes = Axes::Centered;
            },
            SecureMsg::Ready | SecureMsg::Error(_) | SecureMsg::Probe => {},
        }
    }

    /// Takes in what the helper thread sent since the last poll, and notes its
    /// death. Returns whether the helper is in charge or said something.
    pub fn sync_secure_helper(&mut self, msgs: &Vec<SecureMsg>, thread_dead: bool) -> (busy: bool)
        requires
            old(self).wf(),
        ensures
            final(self).wf(),
            final(self)@ == synced(old(self)@, msgs@, thread_dead),
            busy == (old(self).secure && (msgs@.len() > 0 || !thread_dead)),
    {
        if !self.secure {
            return false;
        }
        let mut i: usize = 0;
        assert(msgs@.take(0) =~= Seq::<SecureMsg>::empty());
        while i < msgs.len()
            invariant
                i <= msgs.len(),
                self.wf(),
                old(self).secure,
                self@ == after_msgs(old(self)@, msgs@.take(i as int)),
            decreases msgs.len() - i,
        {
            self.take_message(msgs[i]);
            i += 1;
            assert(msgs@.take(i as int).drop_last() =~= msgs@.take(i - 1));
        }
        assert(msgs@.take(msgs@.len() as int) =~= msgs@);
        proof {
            messages_keep_the_helper(old(self)@, msgs@);
        }
        if thread_dead {
            self.secure = false;
            self.clear_secure_state();
        }
        msgs.len() > 0 || self.secure
    }

    /// Reads the pad through XInput.
    fn read_xinput(&mut self, slots: &[SlotReading; 4])
        requires
            old(self).wf(),
        ensures
            final(self).wf(),
            final(self)@ == after_read(old(self)@, slots@),
    {
        let connected: [bool; 4] = [
            slots[0].err == ERROR_SUCCESS,
            slots[1].err == ERROR_SUCCESS,
            slots[2].err == ERROR_SUCCESS,
            slots[3].err == ERROR_SUCCESS,
        ];
        assert(connected@ =~= answered(slots@));
        let slot: u32 = match self.pick_active_slot(&connected) {
            Some(slot) => slot,
            None => {
                self.axes = Axes::Centered;
                return ;
            },
        };
        let idx: usize = slot as usize;
        let pad = slots[idx].pad;
        let prev: u16 = self.prev_buttons[idx];
        extend(&mut self.pending, &edges(prev, pad.buttons));
        poll_trigger_edges(
            &mut self.prev_trigger_left,
            &mut self.prev_trigger_right,
            pad.left_trigger,
            pad.right_trigger,
            &mut self.pending,
        );
        let mut buttons: u16 = pad.buttons;
        let mut changes: Vec<SecureMsg> = Vec::new();
        let _ = secure_poll_keystrokes(&mut changes, slot, &mut buttons, &slots[idx].keys);
        let ghost run = xinput_poll::key_run(
            slot,
            pad.buttons,
            slots@[slot as int].keys@,
            KEYSTROKE_BURST as nat,
        );
        assert(changes@ =~= run.msgs);
        self.take_key_edges(&changes);
        self.prev_buttons[idx] = buttons;
        self.axes = Axes::Thumbs {
            lx: norm_thumb(pad.thumb_lx, LEFT_DEADZONE),
            ly: norm_thumb(pad.thumb_ly, LEFT_DEADZONE),
            rx: norm_thumb(pad.thumb_rx, RIGHT_DEADZONE),
            ry: norm_thumb(pad.thumb_ry, RIGHT_DEADZONE),
        };
        assert(self.prev_buttons@ =~= old(self).prev_buttons@.update(slot as int, run.cur));
        assert(self.pending@ =~= after_read(old(self)@, slots@).pending);
    }

    fn take_key_edges(&mut self, msgs: &Vec<SecureMsg>)
        ensures
            final(self)@ == (BackendModel {
                pending: old(self)@.pending + edges_of(msgs@),
                ..old(self)@
            }),
    {
        let mut i: usize = 0;
        assert(msgs@.take(0) =~= Seq::<SecureMsg>::empty());
        assert(self@.pending + edges_of(msgs@.take(0)) =~= self@.pending);
        while i < msgs.len()
            invariant
                i <= msgs.len(),
                self@ == (BackendModel {
                    pending: old(self)@.pending + edges_of(msgs@.take(i as int)),
                    ..old(self)@
                }),
            decreases msgs.len() - i,
        {
            if let SecureMsg::Buttons { slot, prev, cur } = msgs[i] {
                extend(&mut self.pending, &edges(prev, cur));
            }
            i += 1;
            assert(msgs@.take(i as int).drop_last() =~= msgs@.take(i - 1));
            assert(self@.pending =~= old(self)@.pending + edges_of(msgs@.take(i as int)));
        }
        assert(msgs@.take(msgs@.len() as int) =~= msgs@);
    }

    /// One poll of the pad. While the helper thread runs it owns the buttons;
    /// otherwise XInput is read.
    pub fn poll(&mut self, msgs: &Vec<SecureMsg>, thread_dead: bool, slots: &[SlotReading; 4])
        requires
            old(self).wf(),
        ensures
            final(self).wf(),
            final(self)@ == polled(old(self)@, msgs@, thread_dead, slots@),
    {
        self.pending.clear();
        assert(self@ == (BackendModel { pending: seq![], ..old(self)@ }));
        let _ = self.sync_secure_helper(msgs, thread_dead);
        if !self.secure {
            self.read_xinput(slots);
        }
    }

    /// The changes since the last call; they are handed out once.
    pub fn button_changes(&mut self) -> (out: Vec<ButtonChange>)
        ensures
            out@ == old(self)@.pending,
            final(self)@ == (BackendModel { pending: seq![], ..old(self)@ }),
    {
        let mut out: Vec<ButtonChange> = Vec::new();
        std::mem::swap(&mut out, &mut self.pending);
        assert(self@.pending =~= seq![]);
        out
    }

    /// The stick axes of the last poll.
    pub fn axes(&self) -> (axes: Axes)
        ensures
            axes == self@.axes,
    {
        self.axes
    }

    /// The name of the pad in use.
    pub fn controller_label(&self) -> (label: String)
        ensures
            label@ == label_of(self@.active_secure_hid, self@.active_slot),
    {
        if self.active_secure_hid {
            return "HID slot 0".to_owned();
        }
        match self.active_slot {
            Some(i) => concat2("XInput slot ", decimal_of(i as u64).as_str()),
            None => "none".to_owned(),
        }
    }

    /// The controls held on the active pad, for the live input display.
    pub fn live_input_summary(&self) -> (held: Vec<Button>)
        requires
            self.wf(),
        ensures
            held@ == held_controls(self@),
    {
        let slot: u32 = match self.active_slot {
            Some(slot) => slot,
            None => {
                return Vec::new();
            },
        };
        let mut held: Vec<Button> = buttons_down(self.prev_buttons[slot as usize]);
        if self.prev_trigger_left {
            held.push(Button::Lt);
        }
        if self.prev_trigger_right {
            held.push(Button::Rt);
        }
        assert(held@ =~= held_controls(self@));
        held
    }
}

/// Messages never start or stop the helper.
proof fn messages_keep_the_helper(b: BackendModel, msgs: Seq<SecureMsg>)
    ensures
        after_msgs(b, msgs).secure == b.secure,
    decreases msgs.len(),
{
    if msgs.len() > 0 {
        messages_keep_the_helper(b, msgs.drop_last());
    }
}

} // verus!

//! Gamepad buttons, their XInput bit masks, and the press/release edges between
//! two readings.

use vstd::prelude::*;

verus! {

#[derive(Clone, Copy, Debug, PartialEq, Eq, Structural)]
pub enum Button {
    Up,
    Down,
    Left,
    Right,
    A,
    B,
    X,
    Y,
    Lb,
    Rb,
    Lt,
    Rt,
    Select,
    Start,
    L3,
    R3,
    Guide,
}

/// One button going down or up.
#[derive(Clone, Copy, Debug, PartialEq, Eq, Structural)]
pub struct ButtonChange {
    pub button: Button,
    pub pressed: bool,
}

pub const DPAD_UP: u16 = 0x0001;
pub const DPAD_DOWN: u16 = 0x0002;
pub const DPAD_LEFT: u16 = 0x0004;
pub const DPAD_RIGHT: u16 = 0x0008;
pub const START: u16 = 0x0010;
pub const BACK: u16 = 0x0020;
pub const LEFT_THUMB: u16 = 0x0040;
pub const RIGHT_THUMB: u16 = 0x0080;
pub const LEFT_SHOULDER: u16 = 0x0100;
pub const RIGHT_SHOULDER: u16 = 0x0200;
pub const GUIDE_BUTTON_MASK: u16 = 0x0400;
pub const PAD_A: u16 = 0x1000;
pub const PAD_B: u16 = 0x2000;
pub const PAD_X: u16 = 0x4000;
pub const PAD_Y: u16 = 0x8000;

pub const LEFT_DEADZONE: i16 = 7849;
pub const RIGHT_DEADZONE: i16 = 8689;

/// A trigger counts as pressed above this analog value.
pub const TRIGGER_PRESS_THRESH: u8 = 30;

/// The buttons that have a mask bit, in reporting order.
pub open spec fn masked_buttons() -> Seq<Button> {
    seq![
        Button::Up,
        Button::Down,
        Button::Left,
        Button::Right,
        Button::A,
        Button::B,
        Button::X,
        Button::Y,
        Button::Lb,
        Button::Rb,
        Button::Select,
        Button::Start,
        Button::L3,
        Button::R3,
        Button::Guide,
    ]
}

/// The mask bit of `button`; the analog triggers have none.
pub open spec fn mask_of(button: Button) -> Option<u16> {
    match button {
        Button::Up => Some(DPAD_UP),
        Button::Down => Some(DPAD_DOWN),
        Button::Left => Some(DPAD_LEFT),
        Button::Right => Some(DPAD_RIGHT),
        Button::A => Some(PAD_A),
        Button::B => Some(PAD_B),
        Button::X => Some(PAD_X),
        Button::Y => Some(PAD_Y),
        Button::Lb => Some(LEFT_SHOULDER),
        Button::Rb => Some(RIGHT_SHOULDER),
        Button::Select => Some(BACK),
        Button::Start => Some(START),
        Button::L3 => Some(LEFT_THUMB),
        Button::R3 => Some(RIGHT_THUMB),
        Button::Guide => Some(GUIDE_BUTTON_MASK),
        Button::Lt | Button::Rt => None,
    }
}

/// Whether `button` is down in the reading `mask`.
pub open spec fn is_down(mask: u16, button: Button) -> bool {
    mask_of(button) matches Some(bit) && mask & bit != 0
}

/// The buttons that are down in the reading `mask`.
pub open spec fn held(mask: u16) -> Set<Button> {
    Set::new(|b: Button| is_down(mask, b))
}

/// The changes among the first `n` masked buttons between two readings.
pub open spec fn edges_upto(prev: u16, cur: u16, n: nat) -> Seq<ButtonChange>
    decreases n,
{
    if n == 0 {
        seq![]
    } else {
        let b = masked_buttons()[n - 1];
        let before = edges_upto(prev, cur, (n - 1) as nat);
        if is_down(prev, b) != is_down(cur, b) {
            before.push(ButtonChange { button: b, pressed: is_down(cur, b) })
        } else {
            before
        }
    }
}

/// Every change between two readings, in reporting order.
pub open spec fn edges_between(prev: u16, cur: u16) -> Seq<ButtonChange> {
    edges_upto(prev, cur, masked_buttons().len())
}

/// The XInput mask bit for a button, if it has one.
pub fn button_mask(button: Button) -> (mask: Option<u16>)
    ensures
        mask == mask_of(button),
{
    match button {
        Button::Up => Some(DPAD_UP),
        Button::Down => Some(DPAD_DOWN),
        Button::Left => Some(DPAD_LEFT),
        Button::Right => Some(DPAD_RIGHT),
        Button::A => Some(PAD_A),
        Button::B => Some(PAD_B),
        Button::X => Some(PAD_X),
        Button::Y => Some(PAD_Y),
        Button::Lb => Some(LEFT_SHOULDER),
        Button::Rb => Some(RIGHT_SHOULDER),
        Button::Select => Some(BACK),
        Button::Start => Some(START),
        Button::L3 => Some(LEFT_THUMB),
        Button::R3 => Some(RIGHT_THUMB),
        Button::Guide => Some(GUIDE_BUTTON_MASK),
        Button::Lt | Button::Rt => None,
    }
}

/// `masked_buttons`, as a vector.
pub fn button_table() -> (out: Vec<Button>)
    ensures
        out@ == masked_buttons(),
{
    let out: Vec<Button> = vec![
        Button::Up,
        Button::Down,
        Button::Left,
        Button::Right,
        Button::A,
        Button::B,
        Button::X,
        Button::Y,
        Button::Lb,
        Button::Rb,
        Button::Select,
        Button::Start,
        Button::L3,
        Button::R3,
        Button::Guide,
    ];
    assert(out@ =~= masked_buttons());
    out
}

/// Whether `button` is down in `mask`.
pub fn pressed_in(mask: u16, button: Button) -> (r: bool)
    ensures
        r == is_down(mask, button),
{
    match button_mask(button) {
        Some(bit) => mask & bit != 0,
        None => false,
    }
}

/// The press and release edges between two button readings, in reporting order.
pub fn edges(prev: u16, cur: u16) -> (out: Vec<ButtonChange>)
    ensures
        out@ == edges_between(prev, cur),
{
    let table = button_table();
    let mut out: Vec<ButtonChange> = Vec::new();
    let mut i: usize = 0;
    while i < table.len()
        invariant
            i <= table.len(),
            table@ == masked_buttons(),
            out@ == edges_upto(prev, cur, i as nat),
        decreases table.len() - i,
    {
        let b = table[i];
        let was = pressed_in(prev, b);
        let now = pressed_in(cur, b);
        if was != now {
            out.push(ButtonChange { button: b, pressed: now });
        }
        i += 1;
    }
    out
}

/// The change that a trigger reading makes, given whether it was pressed.
pub open spec fn trigger_change(button: Button, was: bool, value: u8) -> Seq<ButtonChange> {
    let now = value > TRIGGER_PRESS_THRESH;
    if now != was {
        seq![ButtonChange { button, pressed: now }]
    } else {
        seq![]
    }
}

/// The changes that a pair of trigger readings makes: left before right.
pub open spec fn trigger_changes(was_left: bool, was_right: bool, left: u8, right: u8) -> Seq<
    ButtonChange,
> {
    trigger_change(Button::Lt, was_left, left) + trigger_change(Button::Rt, was_right, right)
}

/// Appends the press/release edges of the two analog triggers to `out` and
/// records their new state.
pub fn poll_trigger_edges(
    prev_lt: &mut bool,
    prev_rt: &mut bool,
    left: u8,
    right: u8,
    out: &mut Vec<ButtonChange>,
)
    ensures
        *final(prev_lt) == (left > TRIGGER_PRESS_THRESH),
        *final(prev_rt) == (right > TRIGGER_PRESS_THRESH),
        final(out)@ == old(out)@ + trigger_changes(*old(prev_lt), *old(prev_rt), left, right),
{
    let lt = left > TRIGGER_PRESS_THRESH;
    let rt = right > TRIGGER_PRESS_THRESH;
    if lt != *prev_lt {
        *prev_lt = lt;
        out.push(ButtonChange { button: Button::Lt, pressed: lt });
    }
    if rt != *prev_rt {
        *prev_rt = rt;
        out.push(ButtonChange { button: Button::Rt, pressed: rt });
    }
    assert(out@ =~= old(out)@ + trigger_changes(*old(prev_lt), *old(prev_rt), left, right));
}

/// `buttons` after one change.
pub open spec fn after_change(buttons: Set<Button>, change: ButtonChange) -> Set<Button> {
    if change.pressed {
        buttons.insert(change.button)
    } else {
        buttons.remove(change.button)
    }
}

/// `buttons` after a run of changes.
pub open spec fn after_changes(buttons: Set<Button>, changes: Seq<ButtonChange>) -> Set<Button>
    decreases changes.len(),
{
    if changes.len() == 0 {
        buttons
    } else {
        after_change(after_changes(buttons, changes.drop_last()), changes.last())
    }
}

/// A listener that knows which buttons were down and applies the edges knows
/// which buttons are down now.
pub proof fn edges_replay_the_reading(prev: u16, cur: u16)
    ensures
        after_changes(held(prev), edges_between(prev, cur)) == held(cur),
{
    edges_replay_over(held(prev), prev, cur);
    assert(after_changes(held(prev), edges_between(prev, cur)) =~= held(cur));
}

/// The same for a listener that also tracks controls without a mask bit: those
/// stay as they are.
pub proof fn edges_replay_over(inputs: Set<Button>, prev: u16, cur: u16)
    requires
        forall|b: Button| mask_of(b) is Some ==> inputs.contains(b) == is_down(prev, b),
    ensures
        forall|b: Button|
            #[trigger] after_changes(inputs, edges_between(prev, cur)).contains(b) == (if mask_of(
                b,
            ) is Some {
                is_down(cur, b)
            } else {
                inputs.contains(b)
            }),
{
    replay_upto(inputs, prev, cur, masked_buttons().len());
    assert forall|b: Button|
        #[trigger] after_changes(inputs, edges_between(prev, cur)).contains(b) == (if mask_of(
            b,
        ) is Some {
            is_down(cur, b)
        } else {
            inputs.contains(b)
        }) by {
        covered(b);
    }
}

/// The table lists exactly the buttons with a mask bit.
pub proof fn covered(b: Button)
    ensures
        mask_of(b) is Some <==> exists|i: int|
            0 <= i < masked_buttons().len() && #[trigger] masked_buttons()[i] == b,
{
    let t = masked_buttons();
    assert(t[0] == Button::Up && t[1] == Button::Down && t[2] == Button::Left && t[3]
        == Button::Right && t[4] == Button::A && t[5] == Button::B && t[6] == Button::X && t[7]
        == Button::Y && t[8] == Button::Lb && t[9] == Button::Rb && t[10] == Button::Select && t[11]
        == Button::Start && t[12] == Button::L3 && t[13] == Button::R3 && t[14] == Button::Guide);
}

proof fn replay_upto(inputs: Set<Button>, prev: u16, cur: u16, n: nat)
    requires
        n <= masked_buttons().len(),
        forall|b: Button| mask_of(b) is Some ==> inputs.contains(b) == is_down(prev, b),
    ensures
        forall|b: Button|
            #[trigger] after_changes(inputs, edges_upto(prev, cur, n)).contains(b) == (if exists|
                i: int,
            | 0 <= i < n && #[trigger] masked_buttons()[i] == b {
                is_down(cur, b)
            } else {
                inputs.contains(b)
            }),
    decreases n,
{
    if n > 0 {
        replay_upto(inputs, prev, cur, (n - 1) as nat);
        let before = edges_upto(prev, cur, (n - 1) as nat);
        let all = edges_upto(prev, cur, n);
        let last = masked_buttons()[n - 1];
        covered(last);
        if is_down(prev, last) != is_down(cur, last) {
            assert(all.drop_last() =~= before);
        }
        assert forall|b: Button| #[trigger] after_changes(inputs, all).contains(b) == (if exists|
            i: int,
        | 0 <= i < n && #[trigger] masked_buttons()[i] == b {
            is_down(cur, b)
        } else {
            inputs.contains(b)
        }) by {
            assert(after_changes(inputs, before).contains(b) == (if exists|i: int|
                0 <= i < n - 1 && #[trigger] masked_buttons()[i] == b {
                is_down(cur, b)
            } else {
                inputs.contains(b)
            }));
        }
    }
}

/// A run of changes can be applied piece by piece.
pub proof fn changes_compose(inputs: Set<Button>, a: Seq<ButtonChange>, b: Seq<ButtonChange>)
    ensures
        after_changes(inputs, a + b) == after_changes(after_changes(inputs, a), b),
    decreases b.len(),
{
    if b.len() == 0 {
        assert(a + b =~= a);
    } else {
        assert((a + b).drop_last() =~= a + b.drop_last());
        changes_compose(inputs, a, b.drop_last());
    }
}

/// Two equal readings differ in nothing.
pub proof fn equal_readings_have_no_edges(mask: u16)
    ensures
        edges_between(mask, mask) == Seq::<ButtonChange>::empty(),
{
    no_edges_upto(mask, masked_buttons().len());
}

proof fn no_edges_upto(mask: u16, n: nat)
    ensures
        edges_upto(mask, mask, n) == Seq::<ButtonChange>::empty(),
    decreases n,
{
    if n > 0 {
        no_edges_upto(mask, (n - 1) as nat);
    }
}

/// Going back releases what was pressed and presses what was released, in the
/// same order.
pub proof fn reversed_readings_flip_the_edges(prev: u16, cur: u16)
    ensures
        edges_between(cur, prev) == edges_between(prev, cur).map_values(
            |c: ButtonChange| ButtonChange { button: c.button, pressed: !c.pressed },
        ),
{
    flipped_upto(prev, cur, masked_buttons().len());
}

proof fn flipped_upto(prev: u16, cur: u16, n: nat)
    ensures
        edges_upto(cur, prev, n) == edges_upto(prev, cur, n).map_values(
            |c: ButtonChange| ButtonChange { button: c.button, pressed: !c.pressed },
        ),
    decreases n,
{
    let flip = |c: ButtonChange| ButtonChange { button: c.button, pressed: !c.pressed };
    if n > 0 {
        flipped_upto(prev, cur, (n - 1) as nat);
    }
    assert(edges_upto(cur, prev, n) =~= edges_upto(prev, cur, n).map_values(flip));
}

/// Reading the same trigger values twice reports nothing the second time.
pub proof fn steady_triggers_report_once(was_left: bool, was_right: bool, left: u8, right: u8)
    ensures
        trigger_changes(
            left > TRIGGER_PRESS_THRESH,
            right > TRIGGER_PRESS_THRESH,
            left,
            right,
        ) == Seq::<ButtonChange>::empty(),
        after_changes(
            Set::new(|b: Button| b == Button::Lt && was_left || b == Button::Rt && was_right),
            trigger_changes(was_left, was_right, left, right),
        ) == Set::new(
            |b: Button|
                b == Button::Lt && left > TRIGGER_PRESS_THRESH || b == Button::Rt && right
                    > TRIGGER_PRESS_THRESH,
        ),
{
    let before = Set::new(|b: Button| b == Button::Lt && was_left || b == Button::Rt && was_right);
    let l = trigger_change(Button::Lt, was_left, left);
    let r = trigger_change(Button::Rt, was_right, right);
    reveal_with_fuel(after_changes, 3);
    assert((l + r).len() == l.len() + r.len());
    if r.len() == 1 {
        assert((l + r).drop_last() =~= l);
    } else {
        assert(l + r =~= l);
    }
    if l.len() == 1 {
        assert(l.drop_last() =~= Seq::<ButtonChange>::empty());
    }
    assert(after_changes(before, l + r) =~= Set::new(
        |b: Button|
            b == Button::Lt && left > TRIGGER_PRESS_THRESH || b == Button::Rt && right
                > TRIGGER_PRESS_THRESH,
    ));
    assert(trigger_changes(
        left > TRIGGER_PRESS_THRESH,
        right > TRIGGER_PRESS_THRESH,
        left,
        right,
    ) =~= Seq::<ButtonChange>::empty());
}

/// A stick axis after the dead zone: zero inside it, unchanged outside.
pub open spec fn past_deadzone(value: i16, deadzone: i16) -> i16 {
    if -deadzone < value < deadzone {
        0
    } else {
        value
    }
}

/// A stick axis with readings inside the dead zone set to zero. The caller
/// scales what is left to the unit range.
pub fn norm_thumb(value: i16, deadzone: i16) -> (r: i16)
    requires
        deadzone >= 0,
    ensures
        r == past_deadzone(value, deadzone),
{
    if -deadzone < value && value < deadzone {
        0
    } else {
        value
    }
}

/// Whether a run of changes reports a button exactly where one bit of the reading
/// changed, and as what that bit became.
pub open spec fn reported_by_bit(
    prev: u16,
    cur: u16,
    changes: Seq<ButtonChange>,
    button: Button,
    bit: u16,
) -> bool {
    &&& changes.contains(ButtonChange { button, pressed: true }) <==> prev & bit == 0 && cur & bit
        != 0
    &&& changes.contains(ButtonChange { button, pressed: false }) <==> prev & bit != 0 && cur & bit
        == 0
}

/// Each button is reported for its own bit of the reading, by XInput's numbering of
/// the bits, and the triggers are reported for none.
pub proof fn buttons_follow_their_bits(prev: u16, cur: u16)
    ensures
        reported_by_bit(prev, cur, edges_between(prev, cur), Button::Up, 0x0001),
        reported_by_bit(prev, cur, edges_between(prev, cur), Button::Down, 0x0002),
        reported_by_bit(prev, cur, edges_between(prev, cur), Button::Left, 0x0004),
        reported_by_bit(prev, cur, edges_between(prev, cur), Button::Right, 0x0008),
        reported_by_bit(prev, cur, edges_between(prev, cur), Button::Start, 0x0010),
        reported_by_bit(prev, cur, edges_between(prev, cur), Button::Select, 0x0020),
        reported_by_bit(prev, cur, edges_between(prev, cur), Button::L3, 0x0040),
        reported_by_bit(prev, cur, edges_between(prev, cur), Button::R3, 0x0080),
        reported_by_bit(prev, cur, edges_between(prev, cur), Button::Lb, 0x0100),
        reported_by_bit(prev, cur, edges_between(prev, cur), Button::Rb, 0x0200),
        reported_by_bit(prev, cur, edges_between(prev, cur), Button::Guide, 0x0400),
        reported_by_bit(prev, cur, edges_between(prev, cur), Button::A, 0x1000),
        reported_by_bit(prev, cur, edges_between(prev, cur), Button::B, 0x2000),
        reported_by_bit(prev, cur, edges_between(prev, cur), Button::X, 0x4000),
        reported_by_bit(prev, cur, edges_between(prev, cur), Button::Y, 0x8000),
        forall|c: ButtonChange|
            #[trigger] edges_between(prev, cur).contains(c) ==> c.button != Button::Lt && c.button
                != Button::Rt,
{
    edges_of_button(prev, cur, Button::Up);
    edges_of_button(prev, cur, Button::Down);
    edges_of_button(prev, cur, Button::Left);
    edges_of_button(prev, cur, Button::Right);
    edges_of_button(prev, cur, Button::Start);
    edges_of_button(prev, cur, Button::Select);
    edges_of_button(prev, cur, Button::L3);
    edges_of_button(prev, cur, Button::R3);
    edges_of_button(prev, cur, Button::Lb);
    edges_of_button(prev, cur, Button::Rb);
    edges_of_button(prev, cur, Button::Guide);
    edges_of_button(prev, cur, Button::A);
    edges_of_button(prev, cur, Button::B);
    edges_of_button(prev, cur, Button::X);
    edges_of_button(prev, cur, Button::Y);
    edges_of_button(prev, cur, Button::Lt);
    edges_of_button(prev, cur, Button::Rt);
    assert forall|c: ButtonChange| #[trigger] edges_between(prev, cur).contains(c) implies c.button
        != Button::Lt && c.button != Button::Rt by {
        if c.button == Button::Lt || c.button == Button::Rt {
            assert(c == ButtonChange { button: c.button, pressed: true } || c == ButtonChange {
                button: c.button,
                pressed: false,
            });
        }
    }
}

/// No button is reported twice.
pub proof fn no_button_changes_twice(prev: u16, cur: u16)
    ensures
        forall|i: int, j: int|
            0 <= i < j < edges_between(prev, cur).len() ==> (#[trigger] edges_between(
                prev,
                cur,
            )[i]).button != (#[trigger] edges_between(prev, cur)[j]).button,
{
    distinct_upto(prev, cur, masked_buttons().len());
}

proof fn distinct_upto(prev: u16, cur: u16, n: nat)
    requires
        n <= masked_buttons().len(),
    ensures
        forall|i: int, j: int|
            0 <= i < j < edges_upto(prev, cur, n).len() ==> (#[trigger] edges_upto(
                prev,
                cur,
                n,
            )[i]).button != (#[trigger] edges_upto(prev, cur, n)[j]).button,
        forall|i: int|
            0 <= i < edges_upto(prev, cur, n).len() ==> exists|k: int|
                0 <= k < n && #[trigger] masked_buttons()[k] == (#[trigger] edges_upto(
                    prev,
                    cur,
                    n,
                )[i]).button,
    decreases n,
{
    if n > 0 {
        distinct_upto(prev, cur, (n - 1) as nat);
        let before = edges_upto(prev, cur, (n - 1) as nat);
        let all = edges_upto(prev, cur, n);
        let last = masked_buttons()[n - 1];
        assert forall|k: int| 0 <= k < n - 1 implies #[trigger] masked_buttons()[k] != last by {
            table_is_distinct(k, n - 1);
        }
        assert forall|i: int| 0 <= i < all.len() implies exists|k: int|
            0 <= k < n && #[trigger] masked_buttons()[k] == (#[trigger] all[i]).button by {
            if i < before.len() {
                assert(all[i] == before[i]);
                let k = choose|k: int|
                    0 <= k < n - 1 && #[trigger] masked_buttons()[k] == before[i].button;
                assert(masked_buttons()[k] == all[i].button);
            } else {
                assert(masked_buttons()[n - 1] == all[i].button);
            }
        }
        assert forall|i: int, j: int| 0 <= i < j < all.len() implies (#[trigger] all[i]).button
            != (#[trigger] all[j]).button by {
            assert(all[i] == before[i]);
            if j < before.len() {
                assert(all[j] == before[j]);
            } else {
                assert(all[j].button == last);
            }
        }
    }
}

proof fn table_is_distinct(i: int, j: int)
    requires
        0 <= i < j < masked_buttons().len(),
    ensures
        masked_buttons()[i] != masked_buttons()[j],
{
    let t = masked_buttons();
    assert(t[0] == Button::Up && t[1] == Button::Down && t[2] == Button::Left && t[3]
        == Button::Right && t[4] == Button::A && t[5] == Button::B && t[6] == Button::X && t[7]
        == Button::Y && t[8] == Button::Lb && t[9] == Button::Rb && t[10] == Button::Select && t[11]
        == Button::Start && t[12] == Button::L3 && t[13] == Button::R3 && t[14] == Button::Guide);
}

/// A button is reported exactly where it changed.
proof fn edges_of_button(prev: u16, cur: u16, b: Button)
    ensures
        forall|pressed: bool|
            #[trigger] edges_between(prev, cur).contains(ButtonChange { button: b, pressed })
                <==> is_down(prev, b) != is_down(cur, b) && pressed == is_down(cur, b),
{
    edges_of_button_upto(prev, cur, b, masked_buttons().len());
    covered(b);
}

proof fn edges_of_button_upto(prev: u16, cur: u16, b: Button, n: nat)
    requires
        n <= masked_buttons().len(),
    ensures
        forall|pressed: bool|
            #[trigger] edges_upto(prev, cur, n).contains(ButtonChange { button: b, pressed }) <==> (
            exists|i: int| 0 <= i < n && #[trigger] masked_buttons()[i] == b) && is_down(prev, b)
                != is_down(cur, b) && pressed == is_down(cur, b),
    decreases n,
{
    if n > 0 {
        edges_of_button_upto(prev, cur, b, (n - 1) as nat);
        let before = edges_upto(prev, cur, (n - 1) as nat);
        let all = edges_upto(prev, cur, n);
        let last = masked_buttons()[n - 1];
        assert forall|pressed: bool|
            #[trigger] all.contains(ButtonChange { button: b, pressed }) <==> (exists|i: int|
                0 <= i < n && #[trigger] masked_buttons()[i] == b) && is_down(prev, b) != is_down(
                cur,
                b,
            ) && pressed == is_down(cur, b) by {
            let c = ButtonChange { button: b, pressed };
            if before.contains(c) {
                let k = choose|k: int| 0 <= k < before.len() && before[k] == c;
                assert(all[k] == c);
            }
            if all.contains(c) {
                let k = choose|k: int| 0 <= k < all.len() && all[k] == c;
                if k < before.len() {
                    assert(before[k] == c);
                }
            }
            if last == b && is_down(prev, b) != is_down(cur, b) {
                assert(all[before.len() as int] == ButtonChange {
                    button: b,
                    pressed: is_down(cur, b),
                });
            }
        }
    }
}

/// The left trigger's button follows the left reading alone, the right one's the right
/// reading alone, and each is pressed above 30.
pub proof fn triggers_follow_their_readings(was_left: bool, was_right: bool, left: u8, right: u8)
    ensures
        forall|pressed: bool|
            #[trigger] trigger_changes(was_left, was_right, left, right).contains(
                ButtonChange { button: Button::Lt, pressed },
            ) <==> was_left != pressed && pressed == (left > 30),
        forall|pressed: bool|
            #[trigger] trigger_changes(was_left, was_right, left, right).contains(
                ButtonChange { button: Button::Rt, pressed },
            ) <==> was_right != pressed && pressed == (right > 30),
        forall|c: ButtonChange|
            #[trigger] trigger_changes(was_left, was_right, left, right).contains(c) ==> c.button
                == Button::Lt || c.button == Button::Rt,
{
    let all = trigger_changes(was_left, was_right, left, right);
    let l = trigger_change(Button::Lt, was_left, left);
    let r = trigger_change(Button::Rt, was_right, right);
    assert forall|c: ButtonChange| #[trigger] all.contains(c) <==> l.contains(c) || r.contains(
        c,
    ) by {
        if l.contains(c) {
            let k = choose|k: int| 0 <= k < l.len() && l[k] == c;
            assert(all[k] == c);
        }
        if r.contains(c) {
            let k = choose|k: int| 0 <= k < r.len() && r[k] == c;
            assert(all[l.len() + k] == c);
        }
        if all.contains(c) {
            let k = choose|k: int| 0 <= k < all.len() && all[k] == c;
            if k < l.len() {
                assert(l[k] == c);
            } else {
                assert(r[k - l.len()] == c);
            }
        }
    }
    assert(l.len() == 1 ==> l[0] == ButtonChange { button: Button::Lt, pressed: left > 30 });
    assert(r.len() == 1 ==> r[0] == ButtonChange { button: Button::Rt, pressed: right > 30 });
}

/// A button's place in the order in which changes are told.
pub open spec fn rank(button: Button) -> int {
    match button {
        Button::Up => 0,
        Button::Down => 1,
        Button::Left => 2,
        Button::Right => 3,
        Button::A => 4,
        Button::B => 5,
        Button::X => 6,
        Button::Y => 7,
        Button::Lb => 8,
        Button::Rb => 9,
        Button::Select => 10,
        Button::Start => 11,
        Button::L3 => 12,
        Button::R3 => 13,
        Button::Guide => 14,
        Button::Lt => 15,
        Button::Rt => 16,
    }
}

/// Changes are told in this order: the directions, the face buttons, the shoulders, the
/// middle buttons, the sticks and the guide button; and the left trigger before the right.
pub proof fn changes_are_told_in_order(prev: u16, cur: u16, i: int, j: int)
    ensures
        0 <= i < j < edges_between(prev, cur).len() ==> rank(edges_between(prev, cur)[i].button)
            < rank(edges_between(prev, cur)[j].button),
        forall|was_left: bool, was_right: bool, left: u8, right: u8|
            (#[trigger] trigger_changes(was_left, was_right, left, right)).len() == 2
                ==> trigger_changes(was_left, was_right, left, right)[0].button == Button::Lt
                && trigger_changes(was_left, was_right, left, right)[1].button == Button::Rt,
{
    if 0 <= i < j < edges_between(prev, cur).len() {
        ranks_grow(prev, cur, masked_buttons().len(), i, j);
    }
}

proof fn ranks_grow(prev: u16, cur: u16, n: nat, i: int, j: int)
    requires
        n <= masked_buttons().len(),
        0 <= i <= j < edges_upto(prev, cur, n).len(),
    ensures
        rank(edges_upto(prev, cur, n)[j].button) < n,
        i < j ==> rank(edges_upto(prev, cur, n)[i].button) < rank(
            edges_upto(prev, cur, n)[j].button,
        ),
    decreases n,
{
    if n > 0 {
        let before = edges_upto(prev, cur, (n - 1) as nat);
        let all = edges_upto(prev, cur, n);
        assert(rank(masked_buttons()[n - 1]) == n - 1);
        if j < before.len() {
            ranks_grow(prev, cur, (n - 1) as nat, i, j);
            assert(all[j] == before[j] && all[i] == before[i]);
        } else if i < j {
            ranks_grow(prev, cur, (n - 1) as nat, i, i);
            assert(all[i] == before[i]);
        }
    }
}

} // verus!

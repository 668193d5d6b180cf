//! The settings dialog: its items, where they stand, and what is written when
//! they are applied.

use vstd::prelude::*;

use crate::desktop_window::{WM_DESTROY, WM_TIMER};
use crate::text;
use crate::text::{chars_of, concat3, decimal_of, put, same_str};

verus! {

pub const CLIENT_W: i32 = 744;

pub const CLIENT_H: i32 = 660;

pub const CONTENT_X: i32 = 38;

pub const CONTENT_W: i32 = 470;

pub const CONTENT_TOP: i32 = 50;

pub const RAIL_LABEL_X: i32 = 540;

pub const RAIL_LABEL_W: i32 = 148;

pub const RAIL_ICON_X: i32 = 694;

pub const RAIL_Y: i32 = 62;

pub const RAIL_STEP: i32 = 60;

pub const BTN_X: i32 = 562;

pub const BTN_W: i32 = 166;

pub const BTN_H: i32 = 26;

pub const TIMER_ID: u64 = 31;

pub const TIMER_MS: u32 = 250;

pub const TEXT_DARK: u32 = 0x333333;

pub const TEXT_GREY: u32 = 0xa6a6a6;

pub const ID_OK: usize = 1;

pub const ID_CANCEL: usize = 2;

pub const ID_APPLY: usize = 3;

pub const ID_EDIT_INI: usize = 4;

pub const ID_TAB_BASE: usize = 100;

pub const ID_ITEM_BASE: usize = 200;

pub const TAB_COUNT: usize = 4;

pub const TAB_GENERAL: usize = 0;

pub const TAB_CONTROLLER: usize = 3;

pub const WM_CLOSE: u32 = 0x10;

pub const WM_COMMAND: u32 = 0x111;

pub const WM_HSCROLL: u32 = 0x114;

pub const WM_CTLCOLORBTN: u32 = 0x135;

pub const WM_CTLCOLORSTATIC: u32 = 0x138;

/// The tabs: a name and a symbol each.
pub fn tabs() -> (r: [(&'static str, &'static str); 4])
    ensures
        r@[0].0@ == "General"@ && r@[0].1@ == "\u{E713}"@,
        r@[1].0@ == "Mouse"@ && r@[1].1@ == "\u{E962}"@,
        r@[2].0@ == "Keyboard"@ && r@[2].1@ == "\u{E765}"@,
        r@[3].0@ == "Controller"@ && r@[3].1@ == "\u{E7FC}"@,
{
    [
        ("General", "\u{E713}"),
        ("Mouse", "\u{E962}"),
        ("Keyboard", "\u{E765}"),
        ("Controller", "\u{E7FC}"),
    ]
}

/// What kind of setting an item is.
#[derive(Clone, Copy, Debug)]
pub enum Kind {
    /// A box that writes one of two values.
    Check { key: &'static str, on_val: &'static str, off_val: &'static str },
    /// The box that pauses the pad.
    PausePoll,
    /// A slider that writes its position as a decimal number.
    Slider { key: &'static str, min: u32, max: u32, decimals: u32 },
}

/// An item of the dialog.
#[derive(Clone, Copy, Debug)]
pub struct Item {
    pub tab: usize,
    pub label: &'static str,
    pub kind: Kind,
}

/// A kind, in the contracts.
pub enum KindModel {
    Check { key: Seq<char>, on_val: Seq<char>, off_val: Seq<char> },
    PausePoll,
    Slider { key: Seq<char>, min: u32, max: u32, decimals: u32 },
}

/// An item, in the contracts.
pub struct ItemModel {
    pub tab: usize,
    pub label: Seq<char>,
    pub kind: KindModel,
}

impl View for Kind {
    type V = KindModel;

    open spec fn view(&self) -> KindModel {
        match *self {
            Kind::Check { key, on_val, off_val } => KindModel::Check {
                key: key@,
                on_val: on_val@,
                off_val: off_val@,
            },
            Kind::PausePoll => KindModel::PausePoll,
            Kind::Slider { key, min, max, decimals } => KindModel::Slider {
                key: key@,
                min,
                max,
                decimals,
            },
        }
    }
}

impl View for Item {
    type V = ItemModel;

    open spec fn view(&self) -> ItemModel {
        ItemModel { tab: self.tab, label: self.label@, kind: self.kind@ }
    }
}

pub open spec fn check_model(tab: usize, label: Seq<char>, key: Seq<char>) -> ItemModel {
    ItemModel {
        tab,
        label,
        kind: KindModel::Check { key, on_val: "true"@, off_val: "false"@ },
    }
}

pub open spec fn slider_model(
    tab: usize,
    label: Seq<char>,
    key: Seq<char>,
    min: u32,
    max: u32,
    decimals: u32,
) -> ItemModel {
    ItemModel { tab, label, kind: KindModel::Slider { key, min, max, decimals } }
}

/// A box for a setting that is on or off.
pub fn check(tab: usize, label: &'static str, key: &'static str) -> (i: Item)
    ensures
        i@ == check_model(tab, label@, key@),
{
    Item { tab, label, kind: Kind::Check { key, on_val: "true", off_val: "false" } }
}

/// A slider for a setting with so many decimals.
pub fn slider(
    tab: usize,
    label: &'static str,
    key: &'static str,
    min: u32,
    max: u32,
    decimals: u32,
) -> (i: Item)
    ensures
        i@ == slider_model(tab, label@, key@, min, max, decimals),
{
    Item { tab, label, kind: Kind::Slider { key, min, max, decimals } }
}

/// All items of the dialog, in order.
pub open spec fn item_table() -> Seq<ItemModel> {
    seq![
        check_model(
            0,
            "Enable gamepad cursor (sticks move the mouse, A/B click)"@,
            "cursor_enabled"@,
        ),
        check_model(
            0,
            "Sleep during games (only the Guide button is watched)"@,
            "sleep_on_game"@,
        ),
        check_model(0, "Guide-only in games (legacy)"@, "auto_stop_on_game"@),
        ItemModel { tab: 0, label: "Pause gamepad input"@, kind: KindModel::PausePoll },
        slider_model(1, "Cursor speed"@, "cursor_speed"@, 1, 40, 0),
        slider_model(1, "Cursor acceleration"@, "cursor_accel"@, 10, 50, 1),
        slider_model(1, "Cursor dead zone"@, "cursor_deadzone"@, 0, 90, 2),
        slider_model(1, "Cursor smoothing"@, "cursor_smoothing"@, 0, 90, 2),
        slider_model(1, "Scroll speed"@, "scroll_speed"@, 1, 20, 0),
        slider_model(1, "Scroll acceleration"@, "scroll_accel"@, 10, 50, 1),
        check_model(1, "Natural scrolling (invert scroll direction)"@, "natural_scroll"@),
        ItemModel {
            tab: 2,
            label: "Floating layout (card in the middle instead of a docked bar)"@,
            kind: KindModel::Check { key: "vk_mode"@, on_val: "floating"@, off_val: "docked"@ },
        },
        ItemModel {
            tab: 2,
            label: "Compact size (smaller docked bar)"@,
            kind: KindModel::Check { key: "vk_bar_scale"@, on_val: "0.8"@, off_val: "1.0"@ },
        },
    ]
}

pub open spec fn item_views(items: Seq<Item>) -> Seq<ItemModel> {
    items.map(|_i: int, it: Item| it@)
}

/// `item_table`, computed.
pub fn items() -> (r: Vec<Item>)
    ensures
        item_views(r@) == item_table(),
{
    let mut r: Vec<Item> = Vec::new();
    r.push(
        check(0, "Enable gamepad cursor (sticks move the mouse, A/B click)", "cursor_enabled"),
    );
    r.push(check(0, "Sleep during games (only the Guide button is watched)", "sleep_on_game"));
    r.push(check(0, "Guide-only in games (legacy)", "auto_stop_on_game"));
    r.push(Item { tab: 0, label: "Pause gamepad input", kind: Kind::PausePoll });
    r.push(slider(1, "Cursor speed", "cursor_speed", 1, 40, 0));
    r.push(slider(1, "Cursor acceleration", "cursor_accel", 10, 50, 1));
    r.push(slider(1, "Cursor dead zone", "cursor_deadzone", 0, 90, 2));
    r.push(slider(1, "Cursor smoothing", "cursor_smoothing", 0, 90, 2));
    r.push(slider(1, "Scroll speed", "scroll_speed", 1, 20, 0));
    r.push(slider(1, "Scroll acceleration", "scroll_accel", 10, 50, 1));
    r.push(check(1, "Natural scrolling (invert scroll direction)", "natural_scroll"));
    r.push(
        Item {
            tab: 2,
            label: "Floating layout (card in the middle instead of a docked bar)",
            kind: Kind::Check { key: "vk_mode", on_val: "floating", off_val: "docked" },
        },
    );
    r.push(
        Item {
            tab: 2,
            label: "Compact size (smaller docked bar)",
            kind: Kind::Check { key: "vk_bar_scale", on_val: "0.8", off_val: "1.0" },
        },
    );
    assert(item_views(r@) =~= item_table());
    r
}

/// Every item stands on a tab, and every slider has a range that its control can
/// hold.
pub proof fn items_fit_the_dialog(i: int)
    requires
        0 <= i < item_table().len(),
    ensures
        item_table()[i].tab < TAB_COUNT,
        item_table()[i].kind matches KindModel::Slider { min, max, decimals, .. } ==> min < max && max
            <= 0xffff && decimals <= 2,
{
}

/// A position without its last `n` digits.
pub open spec fn without_last(pos: nat, n: nat) -> nat
    decreases n,
{
    if n == 0 {
        pos
    } else {
        without_last(pos, (n - 1) as nat) / 10
    }
}

/// The last `n` digits of a position.
pub open spec fn last_digits(pos: nat, n: nat) -> Seq<char> {
    Seq::new(n, |i: int| text::digit(without_last(pos, (n - 1 - i) as nat) as int % 10))
}

/// A position as a number with so many decimals.
pub open spec fn fixed(pos: nat, decimals: u32) -> Seq<char> {
    if decimals == 0 {
        text::decimal(pos)
    } else {
        text::decimal(without_last(pos, decimals as nat)) + "."@ + last_digits(
            pos,
            decimals as nat,
        )
    }
}

/// `fixed`, computed.
pub fn slider_text(pos: u32, decimals: u32) -> (out: String)
    ensures
        out@ == fixed(pos as nat, decimals),
{
    let mut digits: Vec<u32> = Vec::new();
    let mut rest: u32 = pos;
    let mut n: u32 = 0;
    while n < decimals
        invariant
            n <= decimals,
            digits@.len() == n,
            rest == without_last(pos as nat, n as nat),
            forall|k: int|
                0 <= k < n ==> #[trigger] digits@[k] == without_last(pos as nat, k as nat) as int
                    % 10,
        decreases decimals - n,
    {
        digits.push(rest % 10);
        rest = rest / 10;
        n += 1;
    }
    let mut out: String = decimal_of(rest as u64);
    if decimals == 0 {
        return out;
    }
    put(&mut out, ".");
    let ghost front = out@;
    let ghost behind = last_digits(pos as nat, decimals as nat);
    assert(out@ =~= front + behind.take(0));
    while n > 0
        invariant
            n <= decimals,
            digits@.len() == decimals,
            behind == last_digits(pos as nat, decimals as nat),
            forall|k: int|
                0 <= k < decimals ==> #[trigger] digits@[k] == without_last(
                    pos as nat,
                    k as nat,
                ) as int % 10,
            out@ == front + behind.take(decimals - n),
        decreases n,
    {
        n -= 1;
        let d: u32 = digits[n as usize];
        put(&mut out, decimal_of(d as u64).as_str());
        assert(text::decimal(d as nat) =~= seq![text::digit(d as int)]);
        assert(front + behind.take(decimals - n) =~= front + behind.take(decimals - n - 1) + seq![
            text::digit(d as int),
        ]);
    }
    assert(behind.take(decimals as int) =~= behind);
    out
}

/// The settings as they are.
#[derive(Clone, Copy, Debug, PartialEq, Eq, Structural)]
pub struct CenterSettings {
    pub cursor_enabled: bool,
    pub sleep_on_game: bool,
    pub auto_stop_on_game: bool,
    pub natural_scroll: bool,
    /// The keyboard floats.
    pub floating: bool,
    /// The docked keyboard is smaller than usual.
    pub compact: bool,
    /// The pad is paused.
    pub paused: bool,
}

/// Whether a box is ticked by the settings.
pub open spec fn ticked(kind: KindModel, s: CenterSettings) -> bool {
    match kind {
        KindModel::PausePoll => s.paused,
        KindModel::Slider { .. } => false,
        KindModel::Check { key, .. } => if key == "cursor_enabled"@ {
            s.cursor_enabled
        } else if key == "sleep_on_game"@ {
            s.sleep_on_game
        } else if key == "auto_stop_on_game"@ {
            s.auto_stop_on_game
        } else if key == "natural_scroll"@ {
            s.natural_scroll
        } else if key == "vk_mode"@ {
            s.floating
        } else if key == "vk_bar_scale"@ {
            s.compact
        } else {
            false
        },
    }
}

/// `ticked`, computed.
pub fn current_tick(item: &Item, s: &CenterSettings) -> (r: bool)
    ensures
        r == ticked(item.kind@, *s),
{
    match item.kind {
        Kind::PausePoll => s.paused,
        Kind::Slider { .. } => false,
        Kind::Check { key, .. } => if same_str(key, "cursor_enabled") {
            s.cursor_enabled
        } else if same_str(key, "sleep_on_game") {
            s.sleep_on_game
        } else if same_str(key, "auto_stop_on_game") {
            s.auto_stop_on_game
        } else if same_str(key, "natural_scroll") {
            s.natural_scroll
        } else if same_str(key, "vk_mode") {
            s.floating
        } else if same_str(key, "vk_bar_scale") {
            s.compact
        } else {
            false
        },
    }
}

/// The state of an item's control.
#[derive(Clone, Copy, Debug, PartialEq, Eq, Structural)]
pub struct Staged {
    pub checked: bool,
    pub pos: u32,
}

/// What applying an item writes.
#[derive(Debug)]
pub enum Edit {
    Setting { key: &'static str, value: String },
    Pause(bool),
}

/// An edit, in the contracts.
pub enum EditModel {
    Setting { key: Seq<char>, value: Seq<char> },
    Pause(bool),
}

impl View for Edit {
    type V = EditModel;

    open spec fn view(&self) -> EditModel {
        match self {
            Edit::Setting { key, value } => EditModel::Setting { key: key@, value: value@ },
            Edit::Pause(p) => EditModel::Pause(*p),
        }
    }
}

/// What an item writes when its control differs from the settings.
pub open spec fn edit_of(kind: KindModel, staged: Staged, current: Staged) -> Option<EditModel> {
    match kind {
        KindModel::Check { key, on_val, off_val } => if staged.checked != current.checked {
            Some(
                EditModel::Setting {
                    key,
                    value: if staged.checked {
                        on_val
                    } else {
                        off_val
                    },
                },
            )
        } else {
            None
        },
        KindModel::PausePoll => if staged.checked != current.checked {
            Some(EditModel::Pause(staged.checked))
        } else {
            None
        },
        KindModel::Slider { key, decimals, .. } => if staged.pos != current.pos {
            Some(EditModel::Setting { key, value: fixed(staged.pos as nat, decimals) })
        } else {
            None
        },
    }
}

/// What the first `n` items write, in order.
pub open spec fn edits_upto(
    items: Seq<ItemModel>,
    staged: Seq<Staged>,
    current: Seq<Staged>,
    n: int,
) -> Seq<EditModel>
    decreases n,
{
    if n <= 0 {
        seq![]
    } else {
        match edit_of(items[n - 1].kind, staged[n - 1], current[n - 1]) {
            Some(e) => edits_upto(items, staged, current, n - 1).push(e),
            None => edits_upto(items, staged, current, n - 1),
        }
    }
}

pub open spec fn edit_views(edits: Seq<Edit>) -> Seq<EditModel> {
    edits.map(|_i: int, e: Edit| e@)
}

fn item_edit(item: &Item, staged: &Staged, current: &Staged) -> (e: Option<Edit>)
    ensures
        match (e, edit_of(item.kind@, *staged, *current)) {
            (Some(a), Some(b)) => a@ == b,
            (None, None) => true,
            _ => false,
        },
{
    match item.kind {
        Kind::Check { key, on_val, off_val } => if staged.checked != current.checked {
            let value: String = if staged.checked {
                on_val.to_owned()
            } else {
                off_val.to_owned()
            };
            Some(Edit::Setting { key, value })
        } else {
            None
        },
        Kind::PausePoll => if staged.checked != current.checked {
            Some(Edit::Pause(staged.checked))
        } else {
            None
        },
        Kind::Slider { key, decimals, .. } => if staged.pos != current.pos {
            Some(Edit::Setting { key, value: slider_text(staged.pos, decimals) })
        } else {
            None
        },
    }
}

/// What applying the dialog writes: every control that differs from the settings,
/// and no other.
pub fn apply(items: &Vec<Item>, staged: &Vec<Staged>, current: &Vec<Staged>) -> (edits: Vec<Edit>)
    requires
        staged@.len() == items@.len(),
        current@.len() == items@.len(),
    ensures
        edit_views(edits@) == edits_upto(
            item_views(items@),
            staged@,
            current@,
            items@.len() as int,
        ),
{
    let mut edits: Vec<Edit> = Vec::new();
    let mut i: usize = 0;
    assert(edit_views(edits@) =~= Seq::<EditModel>::empty());
    while i < items.len()
        invariant
            i <= items.len(),
            staged@.len() == items@.len(),
            current@.len() == items@.len(),
            edit_views(edits@) == edits_upto(item_views(items@), staged@, current@, i as int),
        decreases items.len() - i,
    {
        let ghost before = edits@;
        let e = item_edit(&items[i], &staged[i], &current[i]);
        if let Some(e) = e {
            edits.push(e);
            assert(edit_views(edits@) =~= edit_views(before).push(edits@[before.len() as int]@));
        }
        i += 1;
    }
    edits
}

/// A dialog whose controls all show the settings writes nothing.
pub proof fn unchanged_dialog_writes_nothing(items: Seq<ItemModel>, state: Seq<Staged>, n: int)
    requires
        0 <= n <= items.len(),
    ensures
        edits_upto(items, state, state, n).len() == 0,
    decreases n,
{
    if n > 0 {
        unchanged_dialog_writes_nothing(items, state, n - 1);
    }
}

/// Each item is written at most once, so a dialog of `n` items writes at most `n`
/// settings.
pub proof fn items_are_written_at_most_once(
    items: Seq<ItemModel>,
    staged: Seq<Staged>,
    current: Seq<Staged>,
    n: int,
)
    requires
        0 <= n <= items.len(),
    ensures
        edits_upto(items, staged, current, n).len() <= n,
    decreases n,
{
    if n > 0 {
        items_are_written_at_most_once(items, staged, current, n - 1);
    }
}

/// How much room an item takes.
pub open spec fn step_of(kind: KindModel) -> int {
    if kind is Slider {
        66
    } else {
        40
    }
}

/// Where item `i` starts: below the items before it on its tab.
pub open spec fn top_of(items: Seq<ItemModel>, tab: usize, i: int) -> int
    decreases i,
{
    if i <= 0 {
        CONTENT_TOP as int
    } else if items[i - 1].tab == tab {
        top_of(items, tab, i - 1) + step_of(items[i - 1].kind)
    } else {
        top_of(items, tab, i - 1)
    }
}

proof fn top_is_bounded(items: Seq<ItemModel>, tab: usize, i: int)
    requires
        0 <= i <= items.len(),
    ensures
        CONTENT_TOP <= top_of(items, tab, i) <= CONTENT_TOP + 66 * i,
    decreases i,
{
    if i > 0 {
        top_is_bounded(items, tab, i - 1);
    }
}

/// A control's place in the dialog.
#[derive(Clone, Copy, Debug, PartialEq, Eq, Structural)]
pub struct ControlRect {
    pub x: i32,
    pub y: i32,
    pub w: i32,
    pub h: i32,
}

/// The controls of an item: a slider has a title and a readout beside its bar.
#[derive(Clone, Copy, Debug, PartialEq, Eq, Structural)]
pub struct ItemPlace {
    pub id: usize,
    pub control: ControlRect,
    pub title: Option<ControlRect>,
    pub value: Option<ControlRect>,
}

/// The place of item `i` that starts at `y`.
pub open spec fn place_of(kind: KindModel, i: int, y: int) -> ItemPlace {
    if kind is Slider {
        ItemPlace {
            id: (ID_ITEM_BASE + i) as usize,
            control: ControlRect {
                x: CONTENT_X,
                y: (y + 22) as i32,
                w: (CONTENT_W - 70) as i32,
                h: 30,
            },
            title: Some(ControlRect { x: CONTENT_X, y: y as i32, w: CONTENT_W, h: 20 }),
            value: Some(
                ControlRect {
                    x: (CONTENT_X + CONTENT_W - 60) as i32,
                    y: (y + 27) as i32,
                    w: 60,
                    h: 20,
                },
            ),
        }
    } else {
        ItemPlace {
            id: (ID_ITEM_BASE + i) as usize,
            control: ControlRect { x: CONTENT_X, y: y as i32, w: CONTENT_W, h: 24 },
            title: None,
            value: None,
        }
    }
}

/// Where everything of the dialog stands.
#[derive(Debug)]
pub struct CenterLayout {
    pub items: Vec<ItemPlace>,
    /// The button that opens the settings file, below the general items.
    pub edit: ControlRect,
}

fn step(kind: &Kind) -> (s: i32)
    ensures
        s == step_of(kind@),
{
    if matches!(kind, Kind::Slider { .. }) {
        66
    } else {
        40
    }
}

fn item_place(kind: &Kind, i: usize, y: i32) -> (p: ItemPlace)
    requires
        66 * i <= i32::MAX,
        0 <= y <= i32::MAX - 27,
    ensures
        p == place_of(kind@, i as int, y as int),
{
    if matches!(kind, Kind::Slider { .. }) {
        ItemPlace {
            id: ID_ITEM_BASE + i,
            control: ControlRect { x: CONTENT_X, y: y + 22, w: CONTENT_W - 70, h: 30 },
            title: Some(ControlRect { x: CONTENT_X, y, w: CONTENT_W, h: 20 }),
            value: Some(ControlRect { x: CONTENT_X + CONTENT_W - 60, y: y + 27, w: 60, h: 20 }),
        }
    } else {
        ItemPlace {
            id: ID_ITEM_BASE + i,
            control: ControlRect { x: CONTENT_X, y, w: CONTENT_W, h: 24 },
            title: None,
            value: None,
        }
    }
}

/// Lays the items out, top-down on each tab.
pub fn layout(items: &Vec<Item>) -> (l: CenterLayout)
    requires
        CONTENT_TOP + 66 * items@.len() + 27 <= i32::MAX,
        forall|i: int| 0 <= i < items@.len() ==> (#[trigger] items@[i]).tab < TAB_COUNT,
    ensures
        l.items@ == Seq::new(
            items@.len(),
            |i: int|
                place_of(
                    items@[i].kind@,
                    i,
                    top_of(item_views(items@), items@[i].tab, i),
                ),
        ),
        l.edit == (ControlRect {
            x: CONTENT_X,
            y: (top_of(item_views(items@), TAB_GENERAL, items@.len() as int) + 10) as i32,
            w: 146,
            h: BTN_H,
        }),
{
    let ghost views = item_views(items@);
    let mut next_y: [i32; 4] = [CONTENT_TOP, CONTENT_TOP, CONTENT_TOP, CONTENT_TOP];
    let mut places: Vec<ItemPlace> = Vec::new();
    let mut i: usize = 0;
    while i < items.len()
        invariant
            i <= items.len(),
            CONTENT_TOP + 66 * items@.len() + 27 <= i32::MAX,
            views == item_views(items@),
            forall|k: int| 0 <= k < items@.len() ==> (#[trigger] items@[k]).tab < TAB_COUNT,
            forall|t: int|
                0 <= t < 4 ==> (#[trigger] next_y@[t]) == top_of(views, t as usize, i as int),
            places@ == Seq::new(
                i as nat,
                |k: int| place_of(items@[k].kind@, k, top_of(views, items@[k].tab, k)),
            ),
        decreases items.len() - i,
    {
        let item: Item = items[i];
        let tab: usize = item.tab;
        proof {
            assert(items@[i as int].tab < TAB_COUNT);
            top_is_bounded(views, tab, i as int);
            assert(next_y@[tab as int] == top_of(views, tab, i as int));
            assert(views[i as int].tab == tab && views[i as int].kind == item.kind@);
        }
        let y: i32 = next_y[tab];
        places.push(item_place(&item.kind, i, y));
        let ghost before = next_y@;
        next_y[tab] = y + step(&item.kind);
        i += 1;
        proof {
            assert forall|t: int| 0 <= t < 4 implies (#[trigger] next_y@[t]) == top_of(
                views,
                t as usize,
                i as int,
            ) by {
                assert(before[t] == top_of(views, t as usize, i - 1));
                if t != tab {
                    assert(next_y@[t] == before[t]);
                }
            }
            assert(places@ =~= Seq::new(
                i as nat,
                |k: int| place_of(items@[k].kind@, k, top_of(views, items@[k].tab, k)),
            ));
        }
    }
    proof {
        top_is_bounded(views, TAB_GENERAL, items@.len() as int);
        assert(next_y@[0] == top_of(views, TAB_GENERAL, i as int));
    }
    CenterLayout {
        items: places,
        edit: ControlRect { x: CONTENT_X, y: next_y[0] + 10, w: 146, h: BTN_H },
    }
}

/// Items of one tab never overlap: each starts below the room of those before it.
pub proof fn items_do_not_overlap(items: Seq<ItemModel>, i: int, j: int)
    requires
        0 <= i < j < items.len(),
        items[i].tab == items[j].tab,
    ensures
        top_of(items, items[i].tab, i) + step_of(items[i].kind) <= top_of(items, items[j].tab, j),
    decreases j,
{
    if i < j - 1 {
        let tab = items[i].tab;
        if items[j - 1].tab == tab {
            items_do_not_overlap(items, i, j - 1);
        } else {
            tops_only_grow(items, tab, i + 1, j);
        }
    }
}

proof fn tops_only_grow(items: Seq<ItemModel>, tab: usize, i: int, j: int)
    requires
        0 <= i <= j <= items.len(),
    ensures
        top_of(items, tab, i) <= top_of(items, tab, j),
    decreases j,
{
    if i < j {
        tops_only_grow(items, tab, i, j - 1);
    }
}

/// The dialog as it is fits its window: the general items and the button below
/// them, and every tab's items, end above the dialog's lower edge.
pub proof fn dialog_fits_its_window(tab: usize)
    ensures
        top_of(item_table(), tab, item_table().len() as int) + 10 + BTN_H <= CLIENT_H,
{
    reveal_with_fuel(top_of, 14);
}

/// The places of a tab's name and symbol.
pub fn rail_place(i: usize) -> (r: (ControlRect, ControlRect))
    requires
        i < TAB_COUNT,
    ensures
        r.0 == (ControlRect {
            x: RAIL_LABEL_X,
            y: (RAIL_Y + i * RAIL_STEP) as i32,
            w: RAIL_LABEL_W,
            h: 36,
        }),
        r.1 == (ControlRect {
            x: RAIL_ICON_X,
            y: (RAIL_Y + i * RAIL_STEP + 2) as i32,
            w: 40,
            h: 36,
        }),
        r.0.x == 540 && r.0.y == 62 + 60 * i && r.0.w == 148,
        r.1.x == 694 && r.1.y == 64 + 60 * i,
{
    let y: i32 = RAIL_Y + i as i32 * RAIL_STEP;
    (
        ControlRect { x: RAIL_LABEL_X, y, w: RAIL_LABEL_W, h: 36 },
        ControlRect { x: RAIL_ICON_X, y: y + 2, w: 40, h: 36 },
    )
}

/// The readout of the controller tab.
pub fn live_place() -> (r: ControlRect)
    ensures
        r == (ControlRect { x: CONTENT_X, y: CONTENT_TOP, w: CONTENT_W, h: 140 }),
{
    ControlRect { x: CONTENT_X, y: CONTENT_TOP, w: CONTENT_W, h: 140 }
}

/// A button of the dialog.
#[derive(Clone, Copy, Debug)]
pub struct DialogButton {
    pub id: usize,
    pub label: &'static str,
    pub place: ControlRect,
}

pub open spec fn button_at(y: i32) -> ControlRect {
    ControlRect { x: BTN_X, y, w: BTN_W, h: BTN_H }
}

/// The buttons of the dialog.
pub fn buttons() -> (r: [DialogButton; 3])
    ensures
        r@[0].id == ID_OK && r@[0].label@ == "Ok"@ && r@[0].place == button_at(540),
        r@[1].id == ID_CANCEL && r@[1].label@ == "Cancel"@ && r@[1].place == button_at(576),
        r@[2].id == ID_APPLY && r@[2].label@ == "Apply"@ && r@[2].place == button_at(619),
        r@[0].id == 1 && r@[1].id == 2 && r@[2].id == 3,
        forall|i: int|
            0 <= i < 3 ==> (#[trigger] r@[i]).place.x == 562 && r@[i].place.w == 166
                && r@[i].place.h == 26,
{
    [
        DialogButton {
            id: ID_OK,
            label: "Ok",
            place: ControlRect { x: BTN_X, y: 540, w: BTN_W, h: BTN_H },
        },
        DialogButton {
            id: ID_CANCEL,
            label: "Cancel",
            place: ControlRect { x: BTN_X, y: 576, w: BTN_W, h: BTN_H },
        },
        DialogButton {
            id: ID_APPLY,
            label: "Apply",
            place: ControlRect { x: BTN_X, y: 619, w: BTN_W, h: BTN_H },
        },
    ]
}

/// A slider's range, packed as its control takes it.
pub fn range_lparam(min: u32, max: u32) -> (n: u32)
    requires
        min <= 0xffff,
        max <= 0xffff,
    ensures
        n == min + max * 0x1_0000,
{
    min + max * 0x1_0000
}

/// How far apart a slider's ticks are.
pub fn tick_frequency(min: u32, max: u32) -> (n: u32)
    requires
        min <= max,
    ensures
        n == (if (max - min) / 10 > 1 {
            (max - min) / 10
        } else {
            1
        }),
{
    let n: u32 = (max - min) / 10;
    if n > 1 {
        n
    } else {
        1
    }
}

/// Which parts of the dialog a tab shows.
#[derive(Clone, Copy, Debug, PartialEq, Eq, Structural)]
pub struct TabView {
    pub edit: bool,
    pub live: bool,
}

/// What a tab shows besides its own items: the general one the button for the
/// settings file, the controller one the live readout.
pub fn tab_view(tab: usize) -> (v: TabView)
    ensures
        v == (TabView { edit: tab == TAB_GENERAL, live: tab == TAB_CONTROLLER }),
        v.edit <==> tab == 0,
        v.live <==> tab == 3,
{
    TabView { edit: tab == TAB_GENERAL, live: tab == TAB_CONTROLLER }
}

/// Whether an item is on show.
pub fn item_visible(item: &Item, tab: usize) -> (r: bool)
    ensures
        r == (item.tab == tab),
{
    item.tab == tab
}

/// What the pad reports.
#[derive(Debug)]
pub struct LiveState {
    pub connected: bool,
    pub name: String,
    pub input: String,
    pub detail: String,
}

pub open spec fn or_else(s: Seq<char>, other: Seq<char>) -> Seq<char> {
    if s.len() == 0 {
        other
    } else {
        s
    }
}

/// What the live readout says.
pub open spec fn live_text(s: LiveState) -> Seq<char> {
    if s.connected {
        "Connected: "@ + or_else(s.name@, "controller"@) + "\r\n\r\nLive input: "@ + or_else(
            s.input@,
            "(idle)"@,
        ) + "\r\n\r\n"@ + s.detail@
    } else {
        "No controller connected.\r\n\r\nPlug in or pair a controller and its live button and stick state shows up here."@
    }
}

/// The text for the live readout; none while its tab is not on show.
pub fn refresh_live(tab: usize, s: &LiveState) -> (r: Option<String>)
    ensures
        tab != TAB_CONTROLLER ==> r is None,
        tab == TAB_CONTROLLER ==> (r matches Some(t) && t@ == live_text(*s)),
        r is Some <==> tab == 3,
{
    if tab != TAB_CONTROLLER {
        return None;
    }
    if !s.connected {
        return Some(
            "No controller connected.\r\n\r\nPlug in or pair a controller and its live button and stick state shows up here.".to_owned(),
        );
    }
    let name: &str = if chars_of(s.name.as_str()).len() == 0 {
        "controller"
    } else {
        s.name.as_str()
    };
    let input: &str = if chars_of(s.input.as_str()).len() == 0 {
        "(idle)"
    } else {
        s.input.as_str()
    };
    let mut out = concat3("Connected: ", name, "\r\n\r\nLive input: ");
    put(&mut out, input);
    put(&mut out, "\r\n\r\n");
    put(&mut out, s.detail.as_str());
    Some(out)
}

/// The colour of a text: the selected tab's is dark, the others' grey, and what is
/// not a tab's is black.
pub fn text_color(tab_of_control: Option<usize>, tab: usize) -> (c: u32)
    ensures
        c == (match tab_of_control {
            Some(i) => if i == tab {
                TEXT_DARK
            } else {
                TEXT_GREY
            },
            None => 0,
        }),
        tab_of_control == Some(tab) ==> c == 0x333333,
        (tab_of_control matches Some(i) && i != tab) ==> c == 0xa6a6a6,
{
    match tab_of_control {
        Some(i) => if i == tab {
            TEXT_DARK
        } else {
            TEXT_GREY
        },
        None => 0,
    }
}

/// What a command asks of the dialog.
#[derive(Clone, Copy, Debug, PartialEq, Eq, Structural)]
pub enum CenterCommand {
    ApplyAndClose,
    Close,
    /// Apply, then show the settings as they are.
    Apply,
    EditFile,
    SelectTab(usize),
    Nothing,
}

pub open spec fn command_of(id: usize) -> CenterCommand {
    if id == ID_OK {
        CenterCommand::ApplyAndClose
    } else if id == ID_CANCEL {
        CenterCommand::Close
    } else if id == ID_APPLY {
        CenterCommand::Apply
    } else if id == ID_EDIT_INI {
        CenterCommand::EditFile
    } else if ID_TAB_BASE <= id < ID_TAB_BASE + TAB_COUNT {
        CenterCommand::SelectTab((id - ID_TAB_BASE) as usize)
    } else {
        CenterCommand::Nothing
    }
}

/// What the dialog does with a message.
#[derive(Clone, Copy, Debug, PartialEq, Eq, Structural)]
pub enum CenterWndAction {
    /// Choose the colour of a control.
    Color,
    Command(CenterCommand),
    /// A slider moved: write its readout.
    Scrolled,
    RefreshLive,
    Close,
    Destroyed,
    Default,
}

pub open spec fn center_action(message: u32, wparam: u64) -> CenterWndAction {
    if message == WM_CTLCOLORSTATIC || message == WM_CTLCOLORBTN {
        CenterWndAction::Color
    } else if message == WM_COMMAND {
        CenterWndAction::Command(command_of((wparam % 0x1_0000) as usize))
    } else if message == WM_HSCROLL {
        CenterWndAction::Scrolled
    } else if message == WM_TIMER && wparam == TIMER_ID {
        CenterWndAction::RefreshLive
    } else if message == WM_CLOSE {
        CenterWndAction::Close
    } else if message == WM_DESTROY {
        CenterWndAction::Destroyed
    } else {
        CenterWndAction::Default
    }
}

fn command(id: usize) -> (c: CenterCommand)
    ensures
        c == command_of(id),
{
    if id == ID_OK {
        CenterCommand::ApplyAndClose
    } else if id == ID_CANCEL {
        CenterCommand::Close
    } else if id == ID_APPLY {
        CenterCommand::Apply
    } else if id == ID_EDIT_INI {
        CenterCommand::EditFile
    } else if ID_TAB_BASE <= id && id < ID_TAB_BASE + TAB_COUNT {
        CenterCommand::SelectTab(id - ID_TAB_BASE)
    } else {
        CenterCommand::Nothing
    }
}

/// `center_action`, computed.
pub fn wndproc(message: u32, wparam: u64) -> (a: CenterWndAction)
    ensures
        a == center_action(message, wparam),
{
    if message == WM_CTLCOLORSTATIC || message == WM_CTLCOLORBTN {
        CenterWndAction::Color
    } else if message == WM_COMMAND {
        CenterWndAction::Command(command((wparam % 0x1_0000) as usize))
    } else if message == WM_HSCROLL {
        CenterWndAction::Scrolled
    } else if message == WM_TIMER && wparam == TIMER_ID {
        CenterWndAction::RefreshLive
    } else if message == WM_CLOSE {
        CenterWndAction::Close
    } else if message == WM_DESTROY {
        CenterWndAction::Destroyed
    } else {
        CenterWndAction::Default
    }
}

/// What opening the dialog takes.
#[derive(Clone, Copy, Debug, PartialEq, Eq, Structural)]
pub enum CenterShow {
    /// Bring the window that is there to the front.
    Raise(u64),
    /// Create the window; initialise the common controls first where they were
    /// not yet.
    Create { init_controls: bool },
}

/// The dialog's window, seen from its thread.
#[derive(Clone, Copy, Debug, PartialEq, Eq, Structural)]
pub struct CenterUi {
    pub hwnd: Option<u64>,
    pub tab: usize,
    pub controls_ready: bool,
}

impl CenterUi {
    pub fn new() -> (u: Self)
        ensures
            u == (CenterUi { hwnd: None, tab: 0, controls_ready: false }),
    {
        CenterUi { hwnd: None, tab: 0, controls_ready: false }
    }

    /// Opens the dialog.
    pub fn ui_show(&mut self) -> (s: CenterShow)
        ensures
            match old(self).hwnd {
                Some(h) => s == CenterShow::Raise(h) && *final(self) == *old(self),
                None => s == (CenterShow::Create { init_controls: !old(self).controls_ready })
                    && *final(self) == (CenterUi { controls_ready: true, ..*old(self) }),
            },
    {
        match self.hwnd {
            Some(h) => CenterShow::Raise(h),
            None => {
                let init_controls: bool = !self.controls_ready;
                self.controls_ready = true;
                CenterShow::Create { init_controls }
            },
        }
    }

    /// The window was created: the general tab is on show.
    pub fn created(&mut self, hwnd: u64)
        ensures
            *final(self) == (CenterUi { hwnd: Some(hwnd), tab: TAB_GENERAL, ..*old(self) }),
    {
        self.hwnd = Some(hwnd);
        self.tab = TAB_GENERAL;
    }

    /// Selects a tab of a dialog that is open.
    pub fn select_tab(&mut self, tab: usize)
        ensures
            *final(self) == (if old(self).hwnd is Some {
                CenterUi { tab, ..*old(self) }
            } else {
                *old(self)
            }),
    {
        if self.hwnd.is_some() {
            self.tab = tab;
        }
    }

    /// Closes the dialog: the window to destroy.
    pub fn ui_hide(&mut self) -> (w: Option<u64>)
        ensures
            w == old(self).hwnd,
            *final(self) == (CenterUi { hwnd: None, ..*old(self) }),
    {
        let w: Option<u64> = self.hwnd;
        self.hwnd = None;
        w
    }
}

/// Opening the dialog from anywhere: whether its thread has to be started first,
/// and, once that came to something, whether it is asked to show.
pub fn show(thread: bool, started: bool) -> (r: (bool, bool))
    ensures
        r.0 == !thread,
        r.1 == (thread || started),
{
    (!thread, thread || started)
}

/// Each box shows the setting that it writes.
pub proof fn boxes_show_their_settings(
    key: Seq<char>,
    on_val: Seq<char>,
    off_val: Seq<char>,
    s: CenterSettings,
)
    ensures
        ({
            let t = ticked(KindModel::Check { key, on_val, off_val }, s);
            &&& key == "cursor_enabled"@ ==> t == s.cursor_enabled
            &&& key == "sleep_on_game"@ ==> t == s.sleep_on_game
            &&& key == "auto_stop_on_game"@ ==> t == s.auto_stop_on_game
            &&& key == "natural_scroll"@ ==> t == s.natural_scroll
            &&& key == "vk_mode"@ ==> t == s.floating
            &&& key == "vk_bar_scale"@ ==> t == s.compact
            &&& t ==> s.cursor_enabled || s.sleep_on_game || s.auto_stop_on_game
                || s.natural_scroll || s.floating || s.compact
        }),
        ticked(KindModel::PausePoll, s) == s.paused,
{
    reveal_strlit("cursor_enabled");
    reveal_strlit("sleep_on_game");
    reveal_strlit("auto_stop_on_game");
    reveal_strlit("natural_scroll");
    reveal_strlit("vk_mode");
    reveal_strlit("vk_bar_scale");
    assert("cursor_enabled"@[0] == 'c' && "sleep_on_game"@[0] == 's' && "auto_stop_on_game"@[0]
        == 'a' && "natural_scroll"@[0] == 'n');
    assert("vk_mode"@[0] == 'v' && "vk_bar_scale"@[0] == 'v');
    assert("vk_mode"@.len() == 7 && "vk_bar_scale"@.len() == 12);
}

/// The settings that the dialog offers, with the tab each stands on, the range and the
/// decimals of each slider, and the two values of each box.
pub proof fn the_dialog_offers_these_settings(i: int)
    requires
        0 <= i < item_table().len(),
    ensures
        ({
            let it = item_table()[i];
            &&& item_table().len() == 13
            &&& it.tab == if i < 4 {
                0usize
            } else if i < 11 {
                1
            } else {
                2
            }
            &&& i == 3 <==> it.kind == KindModel::PausePoll
            &&& it.kind is Slider <==> 4 <= i < 10
            &&& (it.kind matches KindModel::Slider { key, min, max, decimals } ==> {
                &&& i == 4 ==> key == "cursor_speed"@ && min == 1 && max == 40 && decimals == 0
                &&& i == 5 ==> key == "cursor_accel"@ && min == 10 && max == 50 && decimals == 1
                &&& i == 6 ==> key == "cursor_deadzone"@ && min == 0 && max == 90 && decimals == 2
                &&& i == 7 ==> key == "cursor_smoothing"@ && min == 0 && max == 90 && decimals == 2
                &&& i == 8 ==> key == "scroll_speed"@ && min == 1 && max == 20 && decimals == 0
                &&& i == 9 ==> key == "scroll_accel"@ && min == 10 && max == 50 && decimals == 1
            })
            &&& (it.kind matches KindModel::Check { key, on_val, off_val } ==> {
                &&& i == 0 ==> key == "cursor_enabled"@
                &&& i == 1 ==> key == "sleep_on_game"@
                &&& i == 2 ==> key == "auto_stop_on_game"@
                &&& i == 10 ==> key == "natural_scroll"@
                &&& i == 11 ==> key == "vk_mode"@ && on_val == "floating"@ && off_val == "docked"@
                &&& i == 12 ==> key == "vk_bar_scale"@ && on_val == "0.8"@ && off_val == "1.0"@
                &&& i < 11 ==> on_val == "true"@ && off_val == "false"@
            })
        }),
{
}

proof fn digits_leave_from_the_end(pos: nat, n: nat)
    requires
        n > 0,
    ensures
        without_last(pos, n) == without_last(pos / 10, (n - 1) as nat),
    decreases n,
{
    reveal_with_fuel(without_last, 2);
    if n > 1 {
        digits_leave_from_the_end(pos, (n - 1) as nat);
    }
}

proof fn parts_make_the_number(pos: nat, n: nat)
    ensures
        text::number_of(text::decimal(without_last(pos, n)) + last_digits(pos, n)) == pos,
    decreases n,
{
    let front = text::decimal(without_last(pos, n));
    if n == 0 {
        text::decimal_stands_for_the_number(pos);
        assert(front + last_digits(pos, n) =~= front);
    } else {
        let m = (n - 1) as nat;
        parts_make_the_number(pos / 10, m);
        digits_leave_from_the_end(pos, n);
        let all = front + last_digits(pos, n);
        assert forall|i: int| 0 <= i < m implies #[trigger] last_digits(pos, n)[i] == last_digits(
            pos / 10,
            m,
        )[i] by {
            digits_leave_from_the_end(pos, (n - 1 - i) as nat);
        }
        assert(all.drop_last() =~= front + last_digits(pos / 10, m));
        assert(without_last(pos, 0) == pos);
        assert(all.last() == text::digit((pos % 10) as int));
        assert(pos == 10 * (pos / 10) + pos % 10);
    }
}

/// A slider's text has so many digits after its point, and without the point it is the
/// slider's position.
pub proof fn slider_text_is_the_position(pos: nat, decimals: u32)
    ensures
        decimals == 0 ==> text::number_of(fixed(pos, decimals)) == pos,
        decimals > 0 ==> {
            let t = fixed(pos, decimals);
            let dot = t.len() - decimals - 1;
            &&& dot > 0
            &&& t[dot] == '.'
            &&& text::number_of(t.take(dot) + t.skip(dot + 1)) == pos
        },
{
    text::decimal_stands_for_the_number(pos);
    if decimals > 0 {
        reveal_strlit(".");
        let n = decimals as nat;
        parts_make_the_number(pos, n);
        text::decimal_stands_for_the_number(without_last(pos, n));
        let front = text::decimal(without_last(pos, n));
        let t = fixed(pos, decimals);
        let dot = t.len() - decimals - 1;
        assert(t.len() == front.len() + 1 + n);
        assert(t[dot] == "."@[0]);
        assert(t.take(dot) =~= front);
        assert(t.skip(dot + 1) =~= last_digits(pos, n));
    }
}

/// A box that was changed writes its value for what it shows now, the pause box pauses where
/// it is ticked, and a slider that was moved writes where it stands.
pub proof fn changed_controls_are_written(kind: KindModel, staged: Staged, current: Staged)
    ensures
        ({
            let e = edit_of(kind, staged, current);
            &&& (kind matches KindModel::Check { key, on_val, off_val } ==> {
                &&& staged.checked && !current.checked ==> e == Some(
                    EditModel::Setting { key, value: on_val },
                )
                &&& !staged.checked && current.checked ==> e == Some(
                    EditModel::Setting { key, value: off_val },
                )
                &&& staged.checked == current.checked ==> e is None
            })
            &&& kind is PausePoll ==> {
                &&& staged.checked && !current.checked ==> e == Some(EditModel::Pause(true))
                &&& !staged.checked && current.checked ==> e == Some(EditModel::Pause(false))
                &&& staged.checked == current.checked ==> e is None
            }
            &&& (kind matches KindModel::Slider { key, decimals, .. } ==> {
                &&& staged.pos != current.pos ==> e == Some(
                    EditModel::Setting { key, value: fixed(staged.pos as nat, decimals) },
                )
                &&& staged.pos == current.pos ==> e is None
            })
        }),
{
}

/// Everything that was changed is written, and nothing else is.
pub proof fn all_changes_are_written(
    items: Seq<ItemModel>,
    staged: Seq<Staged>,
    current: Seq<Staged>,
    n: int,
)
    requires
        0 <= n <= items.len(),
    ensures
        forall|i: int|
            0 <= i < n && (#[trigger] edit_of(items[i].kind, staged[i], current[i])) is Some
                ==> edits_upto(items, staged, current, n).contains(
                edit_of(items[i].kind, staged[i], current[i])->0,
            ),
        forall|e: EditModel| #[trigger]
            edits_upto(items, staged, current, n).contains(e) ==> exists|i: int|
                0 <= i < n && #[trigger] edit_of(items[i].kind, staged[i], current[i]) == Some(e),
    decreases n,
{
    if n > 0 {
        all_changes_are_written(items, staged, current, n - 1);
        let init = edits_upto(items, staged, current, n - 1);
        let all = edits_upto(items, staged, current, n);
        let last = edit_of(items[n - 1].kind, staged[n - 1], current[n - 1]);
        assert forall|i: int|
            0 <= i < n && (#[trigger] edit_of(items[i].kind, staged[i], current[i]))
                is Some implies all.contains(
            edit_of(items[i].kind, staged[i], current[i])->0,
        ) by {
            let e = edit_of(items[i].kind, staged[i], current[i])->0;
            if i == n - 1 {
                assert(all.last() == e);
            } else {
                let k = choose|k: int| 0 <= k < init.len() && init[k] == e;
                assert(all[k] == e);
            }
        }
        assert forall|e: EditModel| #[trigger] all.contains(e) implies exists|i: int|
            0 <= i < n && #[trigger] edit_of(items[i].kind, staged[i], current[i]) == Some(e) by {
            if !init.contains(e) {
                let k = choose|k: int| 0 <= k < all.len() && all[k] == e;
                if k < init.len() {
                    assert(init[k] == e);
                }
                assert(last == Some(e));
            }
        }
    }
}

/// An item's controls stand in the room it has: a slider's title on top, its bar below it,
/// its readout to the right of the bar.
pub proof fn controls_stand_in_their_room(kind: KindModel, i: int, y: int)
    requires
        0 <= i < 1000,
        0 <= y < 100_000,
    ensures
        ({
            let p = place_of(kind, i, y);
            &&& p.id == 200 + i
            &&& p.control.x == 38
            &&& y <= p.control.y && p.control.y + p.control.h <= y + step_of(kind)
            &&& kind is Slider <==> p.title is Some
            &&& kind is Slider <==> p.value is Some
            &&& step_of(kind) == if kind is Slider { 66int } else { 40int }
            &&& !(kind is Slider) ==> p.control.y == y && p.control.w == 470 && p.control.h == 24
            &&& (p.title matches Some(t) ==> t.x == 38 && t.y == y && t.w == 470 && t.h == 20 && t.y
                + t.h <= p.control.y && p.control.w == 400 && p.control.h == 30 && p.control.y == y
                + 22)
            &&& (p.value matches Some(v) ==> v.x == 448 && v.x >= p.control.x + p.control.w && v.x
                + v.w == 508 && v.h == 20 && v.y == y + 27)
        }),
{
}

/// The first item of a tab starts 50 lines down, and an item further by the room of each
/// one before it on its tab alone.
pub proof fn items_start_below_each_other(items: Seq<ItemModel>, tab: usize, i: int)
    requires
        0 <= i,
    ensures
        top_of(items, tab, 0) == 50,
        items[i].tab != tab ==> top_of(items, tab, i + 1) == top_of(items, tab, i),
        items[i].tab == tab && items[i].kind is Slider ==> top_of(items, tab, i + 1) == top_of(
            items,
            tab,
            i,
        ) + 66,
        items[i].tab == tab && !(items[i].kind is Slider) ==> top_of(items, tab, i + 1) == top_of(
            items,
            tab,
            i,
        ) + 40,
{
}

/// What each control of the dialog does, by its number.
pub proof fn commands_have_their_numbers(id: usize)
    ensures
        command_of(id) == CenterCommand::ApplyAndClose <==> id == 1,
        command_of(id) == CenterCommand::Close <==> id == 2,
        command_of(id) == CenterCommand::Apply <==> id == 3,
        command_of(id) == CenterCommand::EditFile <==> id == 4,
        command_of(id) is SelectTab <==> 100 <= id < 104,
        command_of(id) matches CenterCommand::SelectTab(tab) ==> tab + 100 == id,
{
}

/// What the dialog does with each message, by the system's numbers; a command's number is
/// in the low half of its word.
pub proof fn dialog_messages_have_their_actions(message: u32, wparam: u64)
    ensures
        ({
            let a = center_action(message, wparam);
            &&& a == CenterWndAction::Color <==> message == 0x0138 || message == 0x0135
            &&& a is Command <==> message == 0x0111
            &&& (a matches CenterWndAction::Command(c) ==> c == command_of(
                (wparam % 0x1_0000) as usize,
            ))
            &&& a == CenterWndAction::Scrolled <==> message == 0x0114
            &&& a == CenterWndAction::RefreshLive <==> message == 0x0113 && wparam == 31
            &&& a == CenterWndAction::Close <==> message == 0x0010
            &&& a == CenterWndAction::Destroyed <==> message == 0x0002
        }),
{
}

/// The readout names the pad, or calls it a controller, and says what it does, or that it
/// does nothing; without a pad it names none.
pub proof fn the_readout_names_the_pad(s: LiveState)
    ensures
        s.connected && s.name@.len() > 0 && s.input@.len() > 0 ==> live_text(s) == "Connected: "@
            + s.name@ + "\r\n\r\nLive input: "@ + s.input@ + "\r\n\r\n"@ + s.detail@,
        s.connected && s.name@.len() == 0 && s.input@.len() > 0 ==> live_text(s) == "Connected: "@
            + "controller"@ + "\r\n\r\nLive input: "@ + s.input@ + "\r\n\r\n"@ + s.detail@,
        s.connected && s.name@.len() > 0 && s.input@.len() == 0 ==> live_text(s) == "Connected: "@
            + s.name@ + "\r\n\r\nLive input: "@ + "(idle)"@ + "\r\n\r\n"@ + s.detail@,
        s.connected && s.name@.len() == 0 && s.input@.len() == 0 ==> live_text(s) == "Connected: "@
            + "controller"@ + "\r\n\r\nLive input: "@ + "(idle)"@ + "\r\n\r\n"@ + s.detail@,
        !s.connected ==> live_text(s)
            == "No controller connected.\r\n\r\nPlug in or pair a controller and its live button and stick state shows up here."@,
{
}

} // verus!

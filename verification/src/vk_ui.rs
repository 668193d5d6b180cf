//! The keyboard window: what is on its keys, where it stands, and how showing
//! and hiding it proceed.

use vstd::prelude::*;

use crate::desktop_window::{
    DesktopWindowThread, Post, WM_APP_HIDE, WM_APP_REPAINT, WM_APP_SHOW, WM_DESTROY, WM_LBUTTONDOWN,
    WM_MOUSEACTIVATE, WM_PAINT, WM_TIMER, WM_WINDOWPOSCHANGING,
};
use crate::keys::{KeyAction, KeyCell, VK_BACK, VK_RETURN, VK_SPACE};
use crate::monitor;
use crate::monitor::ScreenRect;
use crate::text::same_str;
use crate::vk_renderer;
use crate::vk_renderer::{rgb, VkPalette};

verus! {

/// Brings the window back to the top.
pub const ZORDER_TIMER_ID: u64 = 1;

pub const ZORDER_TIMER_MS: u32 = 200;

/// Draws the next frame.
pub const RENDER_TIMER_ID: u64 = 2;

pub const RENDER_TIMER_MS: u32 = 16;

pub const SHOW_ANIMATION_MS: u64 = 180;

pub const HIDE_ANIMATION_MS: u64 = 130;

/// How long the system's own keyboard is kept away when this one is shown on
/// the input desktop.
pub const SHOW_SUPPRESS_MS: u64 = 10_000;

/// A window is never made lower than this to make room for the keyboard.
pub const MIN_APP_HEIGHT: i64 = 120;

/// The keyboard, docked or floating, is never lower than this.
pub const MIN_DOCK_HEIGHT: i32 = 160;

/// The floating card keeps at least this far from the bottom edge.
pub const MIN_CARD_MARGIN: i32 = 10;

/// The floating card keeps at most this far from the bottom edge.
pub const MAX_CARD_MARGIN: i32 = 48;

/// The colours of the keyboard window, as GDI colours.
#[derive(Clone, Copy, Debug, PartialEq, Eq, Structural)]
pub struct KeyboardPalette {
    pub bg: u32,
    pub key: u32,
    pub accent: u32,
    pub text: u32,
    pub sel_text: u32,
    pub border: u32,
}

/// The colours that the user has chosen.
#[derive(Clone, Copy, Debug, PartialEq, Eq, Structural)]
pub struct KeyboardTheme {
    pub bg: Option<u32>,
    pub key: Option<u32>,
    pub accent: Option<u32>,
    pub text: Option<u32>,
    pub sel_text: Option<u32>,
    pub border: Option<u32>,
}

pub open spec fn or(chosen: Option<u32>, base: u32) -> u32 {
    match chosen {
        Some(c) => c,
        None => base,
    }
}

fn chosen_or(chosen: Option<u32>, base: u32) -> (c: u32)
    ensures
        c == or(chosen, base),
{
    match chosen {
        Some(c) => c,
        None => base,
    }
}

/// The colours before the user's choices.
pub open spec fn base_palette(dark: bool) -> KeyboardPalette {
    if dark {
        KeyboardPalette {
            bg: vk_renderer::gdi(0x1f1f1f),
            key: vk_renderer::gdi(0x2b2b2b),
            accent: vk_renderer::gdi(0x4c7b99),
            text: vk_renderer::gdi(0xffffff),
            sel_text: vk_renderer::gdi(0xffffff),
            border: vk_renderer::gdi(0x34384a),
        }
    } else {
        KeyboardPalette {
            bg: vk_renderer::gdi(0xf3f3f3),
            key: vk_renderer::gdi(0xe9e9e9),
            accent: vk_renderer::gdi(0x0e80c7),
            text: vk_renderer::gdi(0x000000),
            sel_text: vk_renderer::gdi(0xffffff),
            border: vk_renderer::gdi(0xcfcfcf),
        }
    }
}

/// Each colour is the user's where they chose one.
pub open spec fn themed(p: KeyboardPalette, t: KeyboardTheme) -> KeyboardPalette {
    KeyboardPalette {
        bg: or(t.bg, p.bg),
        key: or(t.key, p.key),
        accent: or(t.accent, p.accent),
        text: or(t.text, p.text),
        sel_text: or(t.sel_text, p.sel_text),
        border: or(t.border, p.border),
    }
}

/// The palette of the keyboard window.
pub fn vk_palette(dark: bool, theme: &KeyboardTheme) -> (p: KeyboardPalette)
    ensures
        p == themed(base_palette(dark), *theme),
{
    let base = if dark {
        KeyboardPalette {
            bg: rgb(0x1f1f1f),
            key: rgb(0x2b2b2b),
            accent: rgb(0x4c7b99),
            text: rgb(0xffffff),
            sel_text: rgb(0xffffff),
            border: rgb(0x34384a),
        }
    } else {
        KeyboardPalette {
            bg: rgb(0xf3f3f3),
            key: rgb(0xe9e9e9),
            accent: rgb(0x0e80c7),
            text: rgb(0x000000),
            sel_text: rgb(0xffffff),
            border: rgb(0xcfcfcf),
        }
    };
    KeyboardPalette {
        bg: chosen_or(theme.bg, base.bg),
        key: chosen_or(theme.key, base.key),
        accent: chosen_or(theme.accent, base.accent),
        text: chosen_or(theme.text, base.text),
        sel_text: chosen_or(theme.sel_text, base.sel_text),
        border: chosen_or(theme.border, base.border),
    }
}

/// The colours of a look, each the user's where they chose one. What the user cannot
/// choose stays the look's.
pub fn themed_style(look: VkPalette, theme: &KeyboardTheme) -> (p: VkPalette)
    ensures
        p == (VkPalette {
            bg: or(theme.bg, look.bg),
            key: or(theme.key, look.key),
            accent: or(theme.accent, look.accent),
            text: or(theme.text, look.text),
            sel_text: or(theme.sel_text, look.sel_text),
            border: or(theme.border, look.border),
            ..look
        }),
{
    VkPalette {
        bg: chosen_or(theme.bg, look.bg),
        key: chosen_or(theme.key, look.key),
        accent: chosen_or(theme.accent, look.accent),
        text: chosen_or(theme.text, look.text),
        sel_text: chosen_or(theme.sel_text, look.sel_text),
        border: chosen_or(theme.border, look.border),
        ..look
    }
}

/// Whether the system theme is dark, by the registry's "apps use light theme"
/// value; a missing value counts as dark.
pub fn is_dark_theme(apps_use_light_theme: Option<u32>) -> (r: bool)
    ensures
        r == (apps_use_light_theme is None || apps_use_light_theme == Some(0u32)),
{
    match apps_use_light_theme {
        Some(v) => v == 0,
        None => true,
    }
}

/// The text on a key, and whether it takes the symbol font. The microphone and
/// the space bar carry drawings, not text.
pub open spec fn glyph_of(action: KeyAction, label: Seq<char>) -> (Seq<char>, bool) {
    match action {
        KeyAction::CloseVk => ("\u{2325}"@, true),
        KeyAction::VoiceInput => (""@, false),
        KeyAction::Vk(vk) => if vk == VK_SPACE {
            (""@, false)
        } else {
            (label, false)
        },
        _ => (label, false),
    }
}

/// `glyph_of`, computed.
pub fn key_glyph(key: &KeyCell) -> (r: (String, bool))
    ensures
        (r.0@, r.1) == glyph_of(key.action, key.label@),
{
    match key.action {
        KeyAction::CloseVk => ("\u{2325}".to_owned(), true),
        KeyAction::VoiceInput => ("".to_owned(), false),
        KeyAction::Vk(vk) => if vk == VK_SPACE {
            ("".to_owned(), false)
        } else {
            (key.label.clone(), false)
        },
        _ => (key.label.clone(), false),
    }
}

/// The pad button that fires a key without selecting it first, while the keyboard
/// is open.
pub open spec fn hint_of(action: KeyAction) -> Option<Seq<char>> {
    match action {
        KeyAction::Vk(vk) => if vk == VK_BACK {
            Some("B"@)
        } else if vk == VK_RETURN {
            Some("START"@)
        } else if vk == VK_SPACE {
            Some("Y"@)
        } else {
            None
        },
        KeyAction::Shift => Some("RT"@),
        KeyAction::Symbols => Some("LT"@),
        KeyAction::VoiceInput => Some("R3"@),
        KeyAction::CloseVk => Some("L3"@),
        _ => None,
    }
}

pub open spec fn str_view(s: Option<&'static str>) -> Option<Seq<char>> {
    match s {
        Some(s) => Some(s@),
        None => None,
    }
}

/// `hint_of`, computed.
pub fn key_hint(key: &KeyCell) -> (r: Option<&'static str>)
    ensures
        str_view(r) == hint_of(key.action),
{
    match key.action {
        KeyAction::Vk(vk) => if vk == VK_BACK {
            Some("B")
        } else if vk == VK_RETURN {
            Some("START")
        } else if vk == VK_SPACE {
            Some("Y")
        } else {
            None
        },
        KeyAction::Shift => Some("RT"),
        KeyAction::Symbols => Some("LT"),
        KeyAction::VoiceInput => Some("R3"),
        KeyAction::CloseVk => Some("L3"),
        _ => None,
    }
}

/// Which desktop the keyboard window goes to.
#[derive(Clone, Copy, Debug, PartialEq, Eq, Structural)]
pub enum VkAttach {
    /// The one that the thread is on.
    Current,
    /// The one that receives input.
    Input,
}

pub open spec fn attach_code(attach: VkAttach) -> i64 {
    match attach {
        VkAttach::Current => 0,
        VkAttach::Input => 1,
    }
}

pub open spec fn attach_of(lparam: i64) -> VkAttach {
    if lparam == 1 {
        VkAttach::Input
    } else {
        VkAttach::Current
    }
}

/// The number that stands for an attachment in a message.
pub fn attach_lparam(attach: VkAttach) -> (n: i64)
    ensures
        n == attach_code(attach),
{
    match attach {
        VkAttach::Current => 0,
        VkAttach::Input => 1,
    }
}

/// The attachment that a message asks for.
pub fn attach_from_lparam(lparam: i64) -> (a: VkAttach)
    ensures
        a == attach_of(lparam),
{
    if lparam == 1 {
        VkAttach::Input
    } else {
        VkAttach::Current
    }
}

/// An attachment survives the trip through a message.
pub proof fn attach_round_trips(attach: VkAttach)
    ensures
        attach_of(attach_code(attach)) == attach,
{
}

/// Attaches the calling thread, given what attaching to the input desktop came
/// to; nothing is attached for the current desktop.
pub fn try_attach_for_window(attach: VkAttach, attached: Result<(), String>) -> (r: Result<
    (),
    String,
>)
    ensures
        r == (match attach {
            VkAttach::Current => Ok::<(), String>(()),
            VkAttach::Input => attached,
        }),
{
    match attach {
        VkAttach::Current => Ok(()),
        VkAttach::Input => attached,
    }
}

/// A window that was shrunk to make room, with the place it had.
#[derive(Clone, Copy, Debug, PartialEq, Eq, Structural)]
pub struct Reserved {
    pub app: u64,
    pub rect: ScreenRect,
}

/// A window's new place.
#[derive(Clone, Copy, Debug, PartialEq, Eq, Structural)]
pub struct Placement {
    pub x: i32,
    pub y: i32,
    pub width: i64,
    pub height: i64,
}

/// Windows that are left alone: the keyboard itself, the shell and the sign-in
/// screen.
pub open spec fn keeps_its_size(class: Seq<char>) -> bool {
    ||| class == "WarmupXboxVkWindow"@
    ||| class == "Shell_TrayWnd"@
    ||| class == "Shell_SecondaryTrayWnd"@
    ||| class == "Progman"@
    ||| class == "WorkerW"@
    ||| class == "Windows.UI.Core.CoreWindow"@
    ||| class == "LogonUI"@
    ||| class == "LogonUI Logon Window"@
}

fn is_left_alone(class: &str) -> (r: bool)
    ensures
        r == keeps_its_size(class@),
{
    same_str(class, "WarmupXboxVkWindow") || same_str(class, "Shell_TrayWnd") || same_str(
        class,
        "Shell_SecondaryTrayWnd",
    ) || same_str(class, "Progman") || same_str(class, "WorkerW") || same_str(
        class,
        "Windows.UI.Core.CoreWindow",
    ) || same_str(class, "LogonUI") || same_str(class, "LogonUI Logon Window")
}

/// Whether a window reaches below the top of the keyboard and may be shrunk.
pub open spec fn makes_room(app: u64, class: Seq<char>, rect: Option<ScreenRect>, dock_top: i32) -> bool {
    app != 0 && !keeps_its_size(class) && (rect matches Some(r) && r.bottom > dock_top)
}

/// The place of a window whose bottom is moved up to the keyboard.
pub open spec fn shrunk(rect: ScreenRect, dock_top: i32) -> Placement {
    Placement {
        x: rect.left,
        y: rect.top,
        width: monitor::width(rect) as i64,
        height: monitor::max(dock_top - rect.top, MIN_APP_HEIGHT as int) as i64,
    }
}

/// The place that a window had.
pub open spec fn whole(rect: ScreenRect) -> Placement {
    Placement {
        x: rect.left,
        y: rect.top,
        width: monitor::width(rect) as i64,
        height: monitor::height(rect) as i64,
    }
}

/// Makes room for the keyboard: where to move the window that had the focus, and
/// what to remember of it.
pub fn reserve_app_space(
    app: u64,
    class: &str,
    rect: Option<ScreenRect>,
    dock_top: i32,
) -> (r: Option<(Reserved, Placement)>)
    ensures
        r is Some <==> makes_room(app, class@, rect, dock_top),
        r matches Some((reserved, place)) ==> rect == Some(reserved.rect) && reserved.app == app
            && place == shrunk(reserved.rect, dock_top),
{
    if app == 0 || is_left_alone(class) {
        return None;
    }
    match rect {
        Some(r) => if r.bottom <= dock_top {
            None
        } else {
            let room: i64 = dock_top as i64 - r.top as i64;
            let height: i64 = if room > MIN_APP_HEIGHT {
                room
            } else {
                MIN_APP_HEIGHT
            };
            Some(
                (
                    Reserved { app, rect: r },
                    Placement {
                        x: r.left,
                        y: r.top,
                        width: r.right as i64 - r.left as i64,
                        height,
                    },
                ),
            )
        },
        None => None,
    }
}

/// Gives a window back the place it had before it made room.
pub fn restore_app_space(saved: Option<Reserved>) -> (r: Option<(u64, Placement)>)
    ensures
        r == (match saved {
            Some(s) => Some((s.app, whole(s.rect))),
            None => None,
        }),
{
    match saved {
        Some(s) => Some(
            (
                s.app,
                Placement {
                    x: s.rect.left,
                    y: s.rect.top,
                    width: s.rect.right as i64 - s.rect.left as i64,
                    height: s.rect.bottom as i64 - s.rect.top as i64,
                },
            ),
        ),
        None => None,
    }
}

/// A window that made room gets back its old place, and while it makes room it
/// keeps its corner and its width and ends above the keyboard unless that would
/// make it too low.
pub proof fn room_is_given_back(app: u64, class: Seq<char>, rect: ScreenRect, dock_top: i32)
    requires
        makes_room(app, class, Some(rect), dock_top),
    ensures
        shrunk(rect, dock_top).x == whole(rect).x,
        shrunk(rect, dock_top).y == whole(rect).y,
        shrunk(rect, dock_top).width == whole(rect).width,
        dock_top - rect.top >= MIN_APP_HEIGHT ==> rect.top + shrunk(rect, dock_top).height
            == dock_top,
        whole(rect).height == rect.bottom - rect.top,
{
}

/// The height of the docked keyboard: 384 lines of a 1080 line monitor, to the
/// nearest line, but at least the minimum and at most the whole monitor.
pub open spec fn dock_height(full_h: int) -> int {
    let scaled = (2 * full_h * 384 + 1080) / 2160;
    if scaled < MIN_DOCK_HEIGHT {
        MIN_DOCK_HEIGHT as int
    } else if scaled > full_h {
        full_h
    } else {
        scaled
    }
}

/// The place of the docked keyboard: the whole width of the monitor, along its
/// bottom edge.
pub fn docked_rect(m: ScreenRect) -> (p: Placement)
    requires
        m.bottom - m.top >= MIN_DOCK_HEIGHT,
    ensures
        p.x == m.left,
        p.height == dock_height(monitor::height(m)),
        p.y + p.height == m.bottom,
        p.width == monitor::max(monitor::width(m), 1),
{
    let full_w: i64 = m.right as i64 - m.left as i64;
    let width: i64 = if full_w > 1 {
        full_w
    } else {
        1
    };
    let full_h: i64 = m.bottom as i64 - m.top as i64;
    let scaled: i64 = (2 * full_h * 384 + 1080) / 2160;
    let height: i64 = if scaled < MIN_DOCK_HEIGHT as i64 {
        MIN_DOCK_HEIGHT as i64
    } else if scaled > full_h {
        full_h
    } else {
        scaled
    };
    Placement { x: m.left, y: (m.bottom as i64 - height) as i32, width, height }
}

/// The docked keyboard lies on its monitor.
pub proof fn dock_stays_on_its_monitor(full_h: int)
    requires
        full_h >= MIN_DOCK_HEIGHT,
    ensures
        MIN_DOCK_HEIGHT <= dock_height(full_h) <= full_h,
        full_h == 1080 ==> dock_height(full_h) == 384,
{
}

/// The gap under the floating card: 15 thousandths of the monitor's height, to the
/// nearest line, but between 10 and 48 lines.
pub open spec fn card_margin(full_h: int) -> int {
    let scaled = (2 * full_h * 15 + 1000) / 2000;
    if scaled < MIN_CARD_MARGIN {
        MIN_CARD_MARGIN as int
    } else if scaled > MAX_CARD_MARGIN {
        MAX_CARD_MARGIN as int
    } else {
        scaled
    }
}

/// The height of the floating card that wants to be `card_h` lines high.
pub open spec fn card_height(card_h: int, full_h: int) -> int {
    if card_h < MIN_DOCK_HEIGHT {
        MIN_DOCK_HEIGHT as int
    } else if card_h > full_h {
        full_h
    } else {
        card_h
    }
}

/// The width of the floating card that wants to be `card_w` pixels wide.
pub open spec fn card_width(card_w: int, full_w: int) -> int {
    if card_w > full_w {
        full_w
    } else {
        card_w
    }
}

/// The place of the floating card that wraps keys of the given size: in the middle
/// of the monitor's width, close to its bottom edge.
pub fn floating_rect(m: ScreenRect, card_w: u32, card_h: u32) -> (p: Placement)
    requires
        m.bottom - m.top >= MIN_DOCK_HEIGHT,
        m.top - MAX_CARD_MARGIN >= i32::MIN,
    ensures
        p.width == card_width(card_w as int, monitor::max(monitor::width(m), 1)),
        p.height == card_height(card_h as int, monitor::height(m)),
        p.x == m.left + (monitor::max(monitor::width(m), 1) - p.width) / 2,
        p.y == m.bottom - p.height - card_margin(monitor::height(m)),
{
    let full_w: i64 = if m.right as i64 - m.left as i64 > 1 {
        m.right as i64 - m.left as i64
    } else {
        1
    };
    let full_h: i64 = m.bottom as i64 - m.top as i64;
    let width: i64 = if card_w as i64 > full_w {
        full_w
    } else {
        card_w as i64
    };
    let height: i64 = if (card_h as i64) < MIN_DOCK_HEIGHT as i64 {
        MIN_DOCK_HEIGHT as i64
    } else if card_h as i64 > full_h {
        full_h
    } else {
        card_h as i64
    };
    let scaled: i64 = (2 * full_h * 15 + 1000) / 2000;
    let margin: i64 = if scaled < MIN_CARD_MARGIN as i64 {
        MIN_CARD_MARGIN as i64
    } else if scaled > MAX_CARD_MARGIN as i64 {
        MAX_CARD_MARGIN as i64
    } else {
        scaled
    };
    Placement {
        x: (m.left as i64 + (full_w - width) / 2) as i32,
        y: (m.bottom as i64 - height - margin) as i32,
        width,
        height,
    }
}

/// The floating card is as far from the left edge of its monitor as from the right
/// one, to the pixel, and never as wide or as high as to leave it at its sides or at
/// its bottom.
pub proof fn card_is_centred(card_w: int, card_h: int, full_w: int, full_h: int)
    requires
        card_w >= 0,
        full_w >= 1,
        full_h >= MIN_DOCK_HEIGHT,
    ensures
        ({
            let w = card_width(card_w, full_w);
            let left = (full_w - w) / 2;
            &&& 0 <= left
            &&& 0 <= (full_w - left - w) - left <= 1
        }),
        MIN_DOCK_HEIGHT <= card_height(card_h, full_h) <= full_h,
        MIN_CARD_MARGIN <= card_margin(full_h) <= MAX_CARD_MARGIN,
{
}

/// Where a mouse message's packed coordinates point.
pub fn mouse_point(lparam: u64) -> (p: (i32, i32))
    ensures
        p.0 == lparam % 0x1_0000,
        p.1 == lparam / 0x1_0000 % 0x1_0000,
{
    ((lparam % 0x1_0000) as i32, (lparam / 0x1_0000 % 0x1_0000) as i32)
}

/// What a timer asks of the window.
#[derive(Clone, Copy, Debug, PartialEq, Eq, Structural)]
pub enum TimerAction {
    /// Bring the window to the top and keep the system's keyboard away.
    Raise,
    Render,
    Nothing,
}

pub open spec fn timer_action(id: u64) -> TimerAction {
    if id == ZORDER_TIMER_ID {
        TimerAction::Raise
    } else if id == RENDER_TIMER_ID {
        TimerAction::Render
    } else {
        TimerAction::Nothing
    }
}

/// `timer_action`, computed.
pub fn on_timer(id: u64) -> (a: TimerAction)
    ensures
        a == timer_action(id),
{
    if id == ZORDER_TIMER_ID {
        TimerAction::Raise
    } else if id == RENDER_TIMER_ID {
        TimerAction::Render
    } else {
        TimerAction::Nothing
    }
}

/// What the window does with a message.
#[derive(Clone, Copy, Debug, PartialEq, Eq, Structural)]
pub enum WndAction {
    Paint,
    Click { x: i32, y: i32 },
    /// Refuse to become the active window.
    StayInactive,
    Timer(TimerAction),
    /// The window is about to move: keep it topmost, unless the order of windows
    /// stays as it is.
    Moving { topmost: bool },
    Destroyed,
    Default,
}

/// The flag of a move that leaves the order of windows alone.
pub const SWP_NOZORDER: u32 = 0x4;

pub open spec fn keeps_order(flags: u32) -> bool {
    flags / SWP_NOZORDER % 2 == 1
}

pub open spec fn wnd_action(message: u32, wparam: u64, lparam: u64, moving: Option<u32>) -> WndAction {
    if message == WM_PAINT {
        WndAction::Paint
    } else if message == WM_LBUTTONDOWN {
        WndAction::Click {
            x: (lparam % 0x1_0000) as i32,
            y: (lparam / 0x1_0000 % 0x1_0000) as i32,
        }
    } else if message == WM_MOUSEACTIVATE {
        WndAction::StayInactive
    } else if message == WM_TIMER {
        WndAction::Timer(timer_action(wparam))
    } else if message == WM_WINDOWPOSCHANGING {
        WndAction::Moving { topmost: moving matches Some(flags) && !keeps_order(flags) }
    } else if message == WM_DESTROY {
        WndAction::Destroyed
    } else {
        WndAction::Default
    }
}

/// `wnd_action`, computed. `moving` holds the flags of the move that a message
/// announces.
pub fn vk_wndproc(message: u32, wparam: u64, lparam: u64, moving: Option<u32>) -> (a: WndAction)
    ensures
        a == wnd_action(message, wparam, lparam, moving),
{
    if message == WM_PAINT {
        WndAction::Paint
    } else if message == WM_LBUTTONDOWN {
        let (x, y) = mouse_point(lparam);
        WndAction::Click { x, y }
    } else if message == WM_MOUSEACTIVATE {
        WndAction::StayInactive
    } else if message == WM_TIMER {
        WndAction::Timer(on_timer(wparam))
    } else if message == WM_WINDOWPOSCHANGING {
        let topmost: bool = match moving {
            Some(flags) => flags / SWP_NOZORDER % 2 != 1,
            None => false,
        };
        WndAction::Moving { topmost }
    } else if message == WM_DESTROY {
        WndAction::Destroyed
    } else {
        WndAction::Default
    }
}

/// The state of the keyboard window and of its thread.
#[derive(Clone, Copy, Debug, PartialEq, Eq, Structural)]
pub struct VkUi {
    /// The window that frames are drawn on.
    pub hwnd: Option<u64>,
    /// A renderer is bound to that window.
    pub renderer: bool,
    pub reserved: Option<Reserved>,
    pub visible: bool,
    /// The window's thread; zero before it is ready.
    pub thread_id: u32,
    /// The last window created, for others to find; zero once it is hidden.
    pub vk_hwnd: u64,
}

/// How a show begins.
#[derive(Clone, Copy, Debug, PartialEq, Eq, Structural)]
pub struct ShowStart {
    /// Keep the system's keyboard away for so long.
    pub suppress_ms: Option<u64>,
    /// The window from before, to be destroyed first.
    pub destroy: Option<u64>,
}

/// What to do once a window was asked for.
#[derive(Clone, Copy, Debug, PartialEq, Eq, Structural)]
pub enum ShowNext {
    /// There is no window.
    GiveUp,
    /// Bind a renderer to the window.
    CreateRenderer(u64),
    /// No renderer could be bound: destroy the window.
    Destroy(u64),
    /// Place the window, make room for it, and draw it.
    Place(u64),
}

/// What hiding the window takes.
#[derive(Clone, Copy, Debug, PartialEq, Eq, Structural)]
pub struct HideStep {
    /// Slide this window out and destroy it.
    pub window: u64,
    /// Then give this window its place back.
    pub restore: Option<Reserved>,
}

impl VkUi {
    /// Drawing needs a window, and a window that is drawn on has its renderer.
    pub open spec fn wf(self) -> bool {
        self.renderer == self.hwnd is Some
    }

    /// The state once a window is gone.
    pub open spec fn without(self, hwnd: u64) -> VkUi {
        if self.hwnd == Some(hwnd) {
            VkUi { hwnd: None, renderer: false, visible: false, ..self }
        } else {
            VkUi { visible: false, ..self }
        }
    }

    /// The state once a show has begun: the window from before is given up.
    pub open spec fn begun(self) -> VkUi {
        match self.hwnd {
            Some(h) => self.without(h),
            None => self,
        }
    }

    /// What hiding takes; nothing when there is no window.
    pub open spec fn hide_step(self) -> Option<HideStep> {
        match self.hwnd {
            Some(h) => Some(HideStep { window: h, restore: self.reserved }),
            None => None,
        }
    }

    /// The state once the window is hidden.
    pub open spec fn hidden(self) -> VkUi {
        match self.hwnd {
            Some(_) => VkUi {
                hwnd: None,
                renderer: false,
                reserved: None,
                visible: false,
                thread_id: self.thread_id,
                vk_hwnd: 0,
            },
            None => self,
        }
    }

    /// No window yet.
    pub fn new() -> (u: Self)
        ensures
            u == (VkUi {
                hwnd: None,
                renderer: false,
                reserved: None,
                visible: false,
                thread_id: 0,
                vk_hwnd: 0,
            }),
            u.wf(),
    {
        VkUi {
            hwnd: None,
            renderer: false,
            reserved: None,
            visible: false,
            thread_id: 0,
            vk_hwnd: 0,
        }
    }

    pub fn is_vk_visible(&self) -> (r: bool)
        ensures
            r == self.visible,
    {
        self.visible
    }

    /// The window's thread is ready for messages.
    pub fn on_ready(&mut self, thread_id: u32)
        ensures
            *final(self) == (VkUi { thread_id, ..*old(self) }),
    {
        self.thread_id = thread_id;
    }

    pub open spec fn to_thread(self, message: u32, lparam: i64) -> Option<Post> {
        if self.thread_id == 0 {
            None
        } else {
            Some(Post { thread_id: self.thread_id, message, lparam })
        }
    }

    fn post(&self, message: u32, lparam: i64) -> (p: Option<Post>)
        ensures
            p == self.to_thread(message, lparam),
    {
        if self.thread_id == 0 {
            None
        } else {
            Some(Post { thread_id: self.thread_id, message, lparam })
        }
    }

    /// Asks for a new frame.
    pub fn request_repaint(&self) -> (p: Option<Post>)
        ensures
            p == self.to_thread(WM_APP_REPAINT, 0),
    {
        self.post(WM_APP_REPAINT, 0)
    }

    /// Asks for the window to be hidden.
    pub fn request_hide(&self) -> (p: Option<Post>)
        ensures
            p == self.to_thread(WM_APP_HIDE, 0),
    {
        self.post(WM_APP_HIDE, 0)
    }

    /// Reports whether a held direction moved the selection, and asks for a new
    /// frame if it did.
    pub fn tick_dpad_hold(&self, moved: bool) -> (r: (bool, Option<Post>))
        ensures
            r.0 == moved,
            r.1 == (if moved {
                self.to_thread(WM_APP_REPAINT, 0)
            } else {
                None
            }),
    {
        if moved {
            (true, self.request_repaint())
        } else {
            (false, None)
        }
    }

    /// The input desktop changed: a visible keyboard is shown again, on it.
    pub fn on_desktop_switch(&self) -> (p: Option<Post>)
        ensures
            p == (if self.visible {
                self.to_thread(WM_APP_SHOW, attach_code(VkAttach::Input))
            } else {
                None
            }),
    {
        if self.visible {
            self.post(WM_APP_SHOW, attach_lparam(VkAttach::Input))
        } else {
            None
        }
    }

    /// Another window came to the front: a visible keyboard is drawn again, on
    /// top, and the system's keyboard is kept away.
    pub fn on_foreground(&self) -> (p: Option<Post>)
        ensures
            p == (if self.visible {
                self.to_thread(WM_APP_REPAINT, 0)
            } else {
                None
            }),
    {
        if self.visible {
            self.post(WM_APP_REPAINT, 0)
        } else {
            None
        }
    }

    /// A window is gone.
    pub fn on_destroyed(&mut self, hwnd: u64)
        ensures
            *final(self) == old(self).without(hwnd),
            old(self).wf() ==> final(self).wf(),
    {
        if self.hwnd == Some(hwnd) {
            self.hwnd = None;
            self.renderer = false;
        }
        self.visible = false;
    }

    /// Begins a show: the window from before is given up.
    pub fn ui_show(&mut self, attach: VkAttach) -> (start: ShowStart)
        requires
            old(self).wf(),
        ensures
            start.suppress_ms == (match attach {
                VkAttach::Input => Some(SHOW_SUPPRESS_MS),
                VkAttach::Current => None,
            }),
            start.suppress_ms matches Some(ms) ==> ms == 10_000,
            start.destroy == old(self).hwnd,
            *final(self) == old(self).begun(),
            final(self).hwnd is None,
            final(self).wf(),
    {
        let suppress_ms: Option<u64> = match attach {
            VkAttach::Input => Some(SHOW_SUPPRESS_MS),
            VkAttach::Current => None,
        };
        let destroy: Option<u64> = self.hwnd;
        if let Some(h) = destroy {
            self.on_destroyed(h);
        }
        ShowStart { suppress_ms, destroy }
    }

    /// The window of a show was created, or not.
    pub fn window_created(&mut self, created: Option<u64>) -> (next: ShowNext)
        ensures
            match created {
                Some(h) => next == ShowNext::CreateRenderer(h) && *final(self) == (VkUi {
                    vk_hwnd: h,
                    ..*old(self)
                }),
                None => next == ShowNext::GiveUp && *final(self) == (VkUi {
                    visible: false,
                    ..*old(self)
                }),
            },
    {
        match created {
            Some(h) => {
                self.vk_hwnd = h;
                ShowNext::CreateRenderer(h)
            },
            None => {
                self.visible = false;
                ShowNext::GiveUp
            },
        }
    }

    /// A renderer was bound to the window of a show, or not.
    pub fn renderer_created(&mut self, hwnd: u64, bound: bool) -> (next: ShowNext)
        ensures
            if bound {
                next == ShowNext::Place(hwnd) && *final(self) == (VkUi {
                    hwnd: Some(hwnd),
                    renderer: true,
                    ..*old(self)
                })
            } else {
                next == ShowNext::Destroy(hwnd) && *final(self) == old(self).without(hwnd)
            },
            old(self).wf() ==> final(self).wf(),
    {
        if bound {
            self.hwnd = Some(hwnd);
            self.renderer = true;
            ShowNext::Place(hwnd)
        } else {
            self.on_destroyed(hwnd);
            ShowNext::Destroy(hwnd)
        }
    }

    /// The window of a show was placed: remember who made room, and whether the
    /// system really shows the window.
    pub fn placed(&mut self, reserved: Option<Reserved>, visible: bool)
        ensures
            *final(self) == (VkUi { reserved, visible, ..*old(self) }),
    {
        self.reserved = reserved;
        self.visible = visible;
    }

    /// The window to bring to the top and draw, if there is one.
    pub fn ui_repaint(&self) -> (w: Option<u64>)
        ensures
            w == self.hwnd,
    {
        self.hwnd
    }

    /// Whether a frame can be drawn, and on which window.
    pub fn render_target(&self) -> (w: Option<u64>)
        ensures
            w == (if self.renderer {
                self.hwnd
            } else {
                None
            }),
            self.wf() ==> w == self.hwnd,
    {
        if self.renderer {
            self.hwnd
        } else {
            None
        }
    }

    /// Hides the window, if there is one.
    pub fn ui_hide(&mut self) -> (step: Option<HideStep>)
        requires
            old(self).wf(),
        ensures
            step == old(self).hide_step(),
            *final(self) == old(self).hidden(),
            final(self).wf(),
    {
        match self.hwnd {
            None => None,
            Some(h) => {
                let restore: Option<Reserved> = self.reserved;
                self.reserved = None;
                self.on_destroyed(h);
                self.vk_hwnd = 0;
                self.visible = false;
                Some(HideStep { window: h, restore })
            },
        }
    }
}

/// The state after a show that succeeds.
pub open spec fn shown(u: VkUi, hwnd: u64, reserved: Option<Reserved>, visible: bool) -> VkUi {
    VkUi { hwnd: Some(hwnd), renderer: true, reserved, visible, vk_hwnd: hwnd, ..u.begun() }
}

/// Hiding what was shown gives the window that made room its place back, and
/// leaves nothing on the screen, whatever was there before.
pub proof fn hiding_undoes_showing(
    u: VkUi,
    hwnd: u64,
    reserved: Option<Reserved>,
    visible: bool,
)
    requires
        u.wf(),
    ensures
        shown(u, hwnd, reserved, visible).wf(),
        shown(u, hwnd, reserved, visible).hide_step() == Some(
            HideStep { window: hwnd, restore: reserved },
        ),
        shown(u, hwnd, reserved, visible).hidden() == (VkUi {
            hwnd: None,
            renderer: false,
            reserved: None,
            visible: false,
            thread_id: u.thread_id,
            vk_hwnd: 0,
        }),
{
}

/// Whether waiting for the keyboard to appear is over, and with what answer;
/// `None` means to look again a little later.
pub fn wait_until_visible(now: u64, deadline: u64, visible: bool) -> (r: Option<bool>)
    ensures
        r == (if visible {
            Some(true)
        } else if now < deadline {
            None
        } else {
            Some(false)
        }),
{
    if visible {
        Some(true)
    } else if now < deadline {
        None
    } else {
        Some(false)
    }
}

/// The thread behind the keyboard window.
#[derive(Clone, Copy, Debug, PartialEq, Eq, Structural)]
pub struct VkUiThread {
    pub handle: DesktopWindowThread,
}

impl VkUiThread {
    /// Asks for the keyboard to be shown.
    pub fn show_window(&self, attach: VkAttach) -> (p: Post)
        ensures
            p == (Post {
                thread_id: self.handle.thread_id,
                message: WM_APP_SHOW,
                lparam: attach_code(attach),
            }),
    {
        self.handle.show_window(attach_lparam(attach))
    }

    /// Asks for the keyboard to be hidden.
    pub fn hide_window(&self) -> (p: Post)
        ensures
            p == (Post { thread_id: self.handle.thread_id, message: WM_APP_HIDE, lparam: 0 }),
    {
        self.handle.hide_window()
    }
}

/// The window's colours, their blue in the highest byte, and above each the user's own
/// choice.
pub proof fn chosen_colours_win(dark: bool, theme: KeyboardTheme)
    ensures
        ({
            let p = themed(base_palette(dark), theme);
            &&& theme.bg matches Some(c) ==> p.bg == c
            &&& theme.key matches Some(c) ==> p.key == c
            &&& theme.accent matches Some(c) ==> p.accent == c
            &&& theme.text matches Some(c) ==> p.text == c
            &&& theme.sel_text matches Some(c) ==> p.sel_text == c
            &&& theme.border matches Some(c) ==> p.border == c
            &&& theme.bg is None ==> p.bg == if dark { 0x1f1f1fu32 } else { 0xf3f3f3 }
            &&& theme.key is None ==> p.key == if dark { 0x2b2b2bu32 } else { 0xe9e9e9 }
            &&& theme.accent is None ==> p.accent == if dark { 0x997b4cu32 } else { 0xc7800e }
            &&& theme.text is None ==> p.text == if dark { 0xffffffu32 } else { 0x000000 }
            &&& theme.sel_text is None ==> p.sel_text == 0xffffff
            &&& theme.border is None ==> p.border == if dark { 0x4a3834u32 } else { 0xcfcfcf }
        }),
{
    window_colours();
}

proof fn window_colours()
    ensures
        vk_renderer::gdi(0x1f1f1f) == 0x1f1f1f,
        vk_renderer::gdi(0x2b2b2b) == 0x2b2b2b,
        vk_renderer::gdi(0x4c7b99) == 0x997b4c,
        vk_renderer::gdi(0xffffff) == 0xffffff,
        vk_renderer::gdi(0x34384a) == 0x4a3834,
        vk_renderer::gdi(0xf3f3f3) == 0xf3f3f3,
        vk_renderer::gdi(0xe9e9e9) == 0xe9e9e9,
        vk_renderer::gdi(0x0e80c7) == 0xc7800e,
        vk_renderer::gdi(0x000000) == 0x000000,
        vk_renderer::gdi(0xcfcfcf) == 0xcfcfcf,
{
}

/// A key carries its own label, but for the microphone and the space bar, which carry
/// drawings, and the key that closes the keyboard, which carries a symbol.
pub proof fn keys_carry_their_labels(action: KeyAction, label: Seq<char>)
    ensures
        action != KeyAction::CloseVk && action != KeyAction::VoiceInput && action != KeyAction::Vk(
            0x20,
        ) ==> glyph_of(action, label) == (label, false),
        action == KeyAction::VoiceInput || action == KeyAction::Vk(0x20) ==> glyph_of(
            action,
            label,
        ).0.len() == 0,
        glyph_of(action, label).1 <==> action == KeyAction::CloseVk,
        action == KeyAction::CloseVk ==> glyph_of(action, label).0 == seq!['\u{2325}'],
{
    reveal_strlit("");
    reveal_strlit("\u{2325}");
    assert("\u{2325}"@ =~= seq!['\u{2325}']);
}

/// Each key that a pad button fires names that button, no other key names one, and no
/// button fires two keys.
pub proof fn buttons_fire_one_key(action: KeyAction, other: KeyAction)
    ensures
        action == KeyAction::Vk(0x08) ==> hint_of(action) == Some(seq!['B']),
        action == KeyAction::Vk(0x0d) ==> hint_of(action) == Some(seq!['S', 'T', 'A', 'R', 'T']),
        action == KeyAction::Vk(0x20) ==> hint_of(action) == Some(seq!['Y']),
        action == KeyAction::Shift ==> hint_of(action) == Some(seq!['R', 'T']),
        action == KeyAction::Symbols ==> hint_of(action) == Some(seq!['L', 'T']),
        action == KeyAction::VoiceInput ==> hint_of(action) == Some(seq!['R', '3']),
        action == KeyAction::CloseVk ==> hint_of(action) == Some(seq!['L', '3']),
        hint_of(action) is Some ==> action == KeyAction::Vk(0x08) || action == KeyAction::Vk(0x0d)
            || action == KeyAction::Vk(0x20) || action == KeyAction::Shift || action
            == KeyAction::Symbols || action == KeyAction::VoiceInput || action
            == KeyAction::CloseVk,
        hint_of(action) is Some && hint_of(action) == hint_of(other) ==> action == other,
{
    reveal_strlit("B");
    reveal_strlit("START");
    reveal_strlit("Y");
    reveal_strlit("RT");
    reveal_strlit("LT");
    reveal_strlit("R3");
    reveal_strlit("L3");
    assert("B"@ =~= seq!['B'] && "Y"@ =~= seq!['Y'] && "START"@ =~= seq!['S', 'T', 'A', 'R', 'T']);
    assert("RT"@ =~= seq!['R', 'T'] && "LT"@ =~= seq!['L', 'T']);
    assert("R3"@ =~= seq!['R', '3'] && "L3"@ =~= seq!['L', '3']);
    assert("B"@[0] == 'B' && "Y"@[0] == 'Y' && "START"@.len() == 5);
    assert("RT"@[0] == 'R' && "LT"@[0] == 'L' && "R3"@[0] == 'R' && "L3"@[0] == 'L');
    assert("RT"@[1] == 'T' && "LT"@[1] == 'T' && "R3"@[1] == '3' && "L3"@[1] == '3');
}

/// In a message 1 stands for the input desktop, and every other number for the current one.
pub proof fn one_stands_for_the_input_desktop(lparam: i64)
    ensures
        attach_of(lparam) == VkAttach::Input <==> lparam == 1,
        attach_code(VkAttach::Input) == 1,
        attach_code(VkAttach::Current) == 0,
{
}

/// A window makes room exactly where there is one, it reaches below the keyboard's top, and
/// it is not one of the shell's, of the sign-in screen's or the keyboard itself.
pub proof fn only_covered_programs_make_room(
    app: u64,
    class: Seq<char>,
    rect: Option<ScreenRect>,
    dock_top: i32,
)
    ensures
        class == "WarmupXboxVkWindow"@ || class == "Shell_TrayWnd"@ || class
            == "Shell_SecondaryTrayWnd"@ || class == "Progman"@ || class == "WorkerW"@ || class
            == "Windows.UI.Core.CoreWindow"@ || class == "LogonUI"@ || class
            == "LogonUI Logon Window"@ ==> !makes_room(app, class, rect, dock_top),
        app == 0 || rect is None ==> !makes_room(app, class, rect, dock_top),
        rect matches Some(r) ==> r.bottom <= dock_top ==> !makes_room(app, class, rect, dock_top),
        (rect matches Some(r) && r.bottom > dock_top) && app != 0 && class
            != "WarmupXboxVkWindow"@ && class != "Shell_TrayWnd"@ && class
            != "Shell_SecondaryTrayWnd"@ && class != "Progman"@ && class != "WorkerW"@ && class
            != "Windows.UI.Core.CoreWindow"@ && class != "LogonUI"@ && class
            != "LogonUI Logon Window"@ ==> makes_room(app, class, rect, dock_top),
{
}

/// A window that makes room ends at the keyboard's top but keeps at least 120 lines; given
/// back, it has its old corner, width and height.
pub proof fn windows_end_at_the_keyboard(rect: ScreenRect, dock_top: i32)
    ensures
        shrunk(rect, dock_top).height >= 120,
        shrunk(rect, dock_top).height > 120 ==> rect.top + shrunk(rect, dock_top).height == dock_top,
        dock_top - rect.top >= 120 ==> rect.top + shrunk(rect, dock_top).height == dock_top,
        shrunk(rect, dock_top).x == rect.left,
        shrunk(rect, dock_top).y == rect.top,
        shrunk(rect, dock_top).width == rect.right - rect.left,
        whole(rect) == (Placement {
            x: rect.left,
            y: rect.top,
            width: (rect.right - rect.left) as i64,
            height: (rect.bottom - rect.top) as i64,
        }),
{
}

/// The docked keyboard is 384 of 1080 lines of its monitor high, to the nearest line, and
/// never lower than 160.
pub proof fn docks_scale_with_the_monitor(full_h: int)
    requires
        full_h >= 160,
    ensures
        dock_height(full_h) >= 160,
        dock_height(full_h) <= full_h,
        dock_height(full_h) > 160 ==> -1080 <= 2 * (dock_height(full_h) * 1080 - full_h * 384)
            <= 1080,
        full_h * 384 >= 160 * 1080 ==> -1080 <= 2 * (dock_height(full_h) * 1080 - full_h * 384)
            <= 1080,
{
}

/// The gap under the floating card is 15 thousandths of the monitor's height, to the
/// nearest line, between 10 and 48 lines; the card is as wide and as high as it wants to be
/// where there is room, and never lower than 160 lines.
pub proof fn cards_scale_with_the_monitor(card_w: int, card_h: int, full_w: int, full_h: int)
    requires
        full_h >= 160,
    ensures
        10 <= card_margin(full_h) <= 48,
        10 < card_margin(full_h) < 48 ==> -1000 <= 2 * (card_margin(full_h) * 1000 - full_h * 15)
            <= 1000,
        full_h * 15 >= 48000 ==> card_margin(full_h) == 48,
        full_h * 15 <= 10000 ==> card_margin(full_h) == 10,
        160 <= card_h <= full_h ==> card_height(card_h, full_h) == card_h,
        card_h < 160 ==> card_height(card_h, full_h) == 160,
        card_h > full_h ==> card_height(card_h, full_h) == full_h,
        card_w <= full_w ==> card_width(card_w, full_w) == card_w,
        card_w > full_w ==> card_width(card_w, full_w) == full_w,
{
}

/// What the window does with each message, by the system's numbers; a click is where the
/// low half of the coordinates' word is its column and the high half its line.
pub proof fn messages_have_their_actions(message: u32, wparam: u64, lparam: u64, moving: Option<u32>)
    ensures
        ({
            let a = wnd_action(message, wparam, lparam, moving);
            &&& a == WndAction::Paint <==> message == 0x000f
            &&& a is Click <==> message == 0x0201
            &&& a == WndAction::StayInactive <==> message == 0x0021
            &&& a is Timer <==> message == 0x0113
            &&& a is Moving <==> message == 0x0046
            &&& a == WndAction::Destroyed <==> message == 0x0002
            &&& (a matches WndAction::Click { x, y } ==> x + 0x1_0000 * y == lparam % 0x1_0000_0000)
            &&& (a matches WndAction::Click { x, y } ==> 0 <= x < 0x1_0000)
            &&& message == 0x0113 && wparam == 1 ==> a == WndAction::Timer(TimerAction::Raise)
            &&& message == 0x0113 && wparam == 2 ==> a == WndAction::Timer(TimerAction::Render)
            &&& message == 0x0113 && wparam != 1 && wparam != 2 ==> a == WndAction::Timer(
                TimerAction::Nothing,
            )
            &&& (a matches WndAction::Moving { topmost } ==> topmost == (moving matches Some(flags)
                && flags & 0x4 == 0))
        }),
{
    if let Some(flags) = moving {
        assert(flags & 0x4 == 0 <==> flags / 4 % 2 != 1) by (bit_vector);
    }
}

/// A window that goes is not drawn on any more and nothing is visible; another window keeps
/// its renderer, and whoever made room still has to get its place back.
pub proof fn a_window_that_goes_is_forgotten(u: VkUi, hwnd: u64)
    requires
        u.wf(),
    ensures
        !u.without(hwnd).visible,
        u.without(hwnd).hwnd != Some(hwnd),
        u.hwnd != Some(hwnd) ==> u.without(hwnd).hwnd == u.hwnd && u.without(hwnd).renderer
            == u.renderer,
        u.without(hwnd).reserved == u.reserved,
        u.without(hwnd).thread_id == u.thread_id,
        u.without(hwnd).vk_hwnd == u.vk_hwnd,
        u.without(hwnd).wf(),
        u.begun().hwnd is None,
        u.begun().reserved == u.reserved,
        u.hwnd is None ==> u.begun() == u && u.hidden() == u && u.hide_step() is None,
{
}

/// Messages go to the window's thread as they are, and nowhere before it is ready.
pub proof fn messages_wait_for_the_thread(u: VkUi, message: u32, lparam: i64)
    ensures
        u.to_thread(message, lparam) is None <==> u.thread_id == 0,
        u.to_thread(message, lparam) matches Some(p) ==> p == (Post {
            thread_id: u.thread_id,
            message,
            lparam,
        }),
{
}

} // verus!

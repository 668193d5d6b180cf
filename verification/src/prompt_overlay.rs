//! The prompt on the sign-in screen and the dictation overlay: what they show,
//! where, and how they change from one picture to the next.

use vstd::prelude::*;

use crate::clock;
use crate::clock::{elapsed_since, is_due};
use crate::desktop_window::{WM_DESTROY, WM_NCHITTEST, WM_PAINT, WM_TIMER};
use crate::monitor;
use crate::surface::Surface;
use crate::text;
use crate::text::{chars_of, contains_str, lower_chars, same_ignoring_case, same_str, trim};
use crate::vk_renderer;
use crate::vk_renderer::{playstation_name, ControllerArt, VoicePhase};
use crate::vk_ui;
use crate::vk_ui::KeyboardTheme;

verus! {

/// The canvas of the prompt and of the card that grows out of it.
pub const PANEL_W: i32 = 720;

pub const PANEL_H: i32 = 420;

/// Between the canvas and the bottom of the monitor.
pub const MARGIN_BOTTOM: i32 = 72;

pub const VOICE_W: i32 = 420;

pub const VOICE_H: i32 = 104;

pub const REPAINT_TIMER_ID: u64 = 12;

pub const REPAINT_TIMER_MS: u32 = 16;

pub const TICK_INTERVAL_MS: u64 = 250;

/// How long the card of a pad that was just connected stays.
pub const CONNECTED_VISUAL_MS: u64 = 2400;

pub const MORPH_MS: u64 = 420;

/// The demonstration on the user's desktop repeats after so long.
pub const DEBUG_REPLAY_PERIOD_MS: u64 = 6500;

pub const DEBUG_REPLAY_CONNECT_AT_MS: u64 = 1500;

pub const PROMPT_PREFIX: &'static str = "Press ";

pub const PROMPT_SUFFIX: &'static str = " for keyboard";

pub const NO_PAD_PROMPT: &'static str = "Connect controller";

/// What a pad is called when nothing is known of it.
pub const GENERIC_PAD: &'static str = "Xbox Wireless Controller";

pub const DEFAULT_BG: u32 = 0x141414;

pub const DEFAULT_BORDER: u32 = 0x997b4c;

pub const DEFAULT_TEXT: u32 = 0xffffff;

/// The window style that lets clicks through.
pub const WS_EX_TRANSPARENT: u32 = 0x20;

/// What the overlay shows.
#[derive(Clone, Copy, Debug, PartialEq, Eq, Structural)]
pub enum PromptVisual {
    /// A pad is connected: how to open the keyboard.
    Ready,
    NoPad,
    /// The card of a pad that was just connected.
    Connected,
    /// The microphone is open.
    Listening,
    /// Recording has stopped.
    Transcribing,
    /// The keyboard is open during dictation: the border alone.
    VoiceBorder,
    /// Dictation is starting.
    Starting,
}

/// The two windows that visuals live in.
#[derive(Clone, Copy, Debug, PartialEq, Eq, Structural)]
pub enum PromptThreadKind {
    Prompt,
    Voice,
}

pub open spec fn lparam_of(v: PromptVisual) -> i64 {
    match v {
        PromptVisual::Ready => 1,
        PromptVisual::NoPad => 2,
        PromptVisual::Connected => 3,
        PromptVisual::Listening => 4,
        PromptVisual::Transcribing => 5,
        PromptVisual::Starting => 6,
        PromptVisual::VoiceBorder => 7,
    }
}

pub open spec fn visual_of(lparam: i64) -> PromptVisual {
    if lparam == 2 {
        PromptVisual::NoPad
    } else if lparam == 3 {
        PromptVisual::Connected
    } else if lparam == 4 {
        PromptVisual::Listening
    } else if lparam == 5 {
        PromptVisual::Transcribing
    } else if lparam == 6 {
        PromptVisual::Starting
    } else if lparam == 7 {
        PromptVisual::VoiceBorder
    } else {
        PromptVisual::Ready
    }
}

/// A visual survives the trip through a message.
pub proof fn visual_round_trips(v: PromptVisual)
    ensures
        visual_of(lparam_of(v)) == v,
{
}

pub open spec fn phase_of(v: PromptVisual) -> Option<VoicePhase> {
    match v {
        PromptVisual::Starting => Some(VoicePhase::Starting),
        PromptVisual::Listening | PromptVisual::VoiceBorder => Some(VoicePhase::Listening),
        PromptVisual::Transcribing => Some(VoicePhase::Transcribing),
        _ => None,
    }
}

pub open spec fn is_voice(v: PromptVisual) -> bool {
    phase_of(v) is Some
}

pub open spec fn visual_of_phase(phase: Seq<char>) -> PromptVisual {
    if phase == "transcribing"@ {
        PromptVisual::Transcribing
    } else if phase == "starting"@ {
        PromptVisual::Starting
    } else {
        PromptVisual::Listening
    }
}

impl PromptVisual {
    /// The number that stands for the visual in a message.
    pub fn as_lparam(self) -> (n: i64)
        ensures
            n == lparam_of(self),
    {
        match self {
            PromptVisual::Ready => 1,
            PromptVisual::NoPad => 2,
            PromptVisual::Connected => 3,
            PromptVisual::Listening => 4,
            PromptVisual::Transcribing => 5,
            PromptVisual::Starting => 6,
            PromptVisual::VoiceBorder => 7,
        }
    }

    /// The visual that a message asks for.
    pub fn from_lparam(lparam: i64) -> (v: Self)
        ensures
            v == visual_of(lparam),
    {
        match lparam {
            2 => PromptVisual::NoPad,
            3 => PromptVisual::Connected,
            4 => PromptVisual::Listening,
            5 => PromptVisual::Transcribing,
            6 => PromptVisual::Starting,
            7 => PromptVisual::VoiceBorder,
            _ => PromptVisual::Ready,
        }
    }

    /// The phase of dictation that a visual stands for.
    pub fn voice_phase(self) -> (p: Option<VoicePhase>)
        ensures
            p == phase_of(self),
    {
        match self {
            PromptVisual::Starting => Some(VoicePhase::Starting),
            PromptVisual::Listening | PromptVisual::VoiceBorder => Some(VoicePhase::Listening),
            PromptVisual::Transcribing => Some(VoicePhase::Transcribing),
            _ => None,
        }
    }

    /// The visual for a phase that the helper reports; an unknown phase counts as
    /// listening.
    pub fn from_voice_phase(phase: &str) -> (v: Self)
        ensures
            v == visual_of_phase(phase@),
    {
        if same_str(phase, "transcribing") {
            PromptVisual::Transcribing
        } else if same_str(phase, "starting") {
            PromptVisual::Starting
        } else {
            PromptVisual::Listening
        }
    }
}

pub fn visual_is_voice(v: PromptVisual) -> (r: bool)
    ensures
        r == is_voice(v),
{
    v.voice_phase().is_some()
}

/// Whether two visuals are phases of one dictation, which keep their window.
pub fn same_voice_pill(from: PromptVisual, to: PromptVisual) -> (r: bool)
    ensures
        r == (is_voice(from) && is_voice(to)),
{
    visual_is_voice(from) && visual_is_voice(to)
}

pub open spec fn kind_of(v: PromptVisual) -> PromptThreadKind {
    if is_voice(v) {
        PromptThreadKind::Voice
    } else {
        PromptThreadKind::Prompt
    }
}

pub fn thread_kind_for_visual(v: PromptVisual) -> (k: PromptThreadKind)
    ensures
        k == kind_of(v),
{
    if visual_is_voice(v) {
        PromptThreadKind::Voice
    } else {
        PromptThreadKind::Prompt
    }
}

pub open spec fn morphs(from: PromptVisual, to: PromptVisual) -> bool {
    &&& from != to
    &&& !is_voice(from)
    &&& !is_voice(to)
    &&& from == PromptVisual::Connected || to == PromptVisual::Connected
}

/// Whether one visual flows into the other: only between the pill and the card.
pub fn can_morph_between(from: PromptVisual, to: PromptVisual) -> (r: bool)
    ensures
        r == morphs(from, to),
{
    from != to && !visual_is_voice(from) && !visual_is_voice(to) && (matches!(
        from,
        PromptVisual::Connected
    ) || matches!(to, PromptVisual::Connected))
}

/// Dictation takes the whole screen.
pub fn fullscreen_border(v: PromptVisual) -> (r: bool)
    ensures
        r == is_voice(v),
{
    visual_is_voice(v)
}

/// Dictation never flows into a prompt, nor a prompt into dictation, and they
/// never share a window's thread; phases of dictation always do.
pub proof fn voice_and_prompts_stay_apart(a: PromptVisual, b: PromptVisual)
    ensures
        is_voice(a) || is_voice(b) ==> !morphs(a, b),
        kind_of(a) == kind_of(b) <==> is_voice(a) == is_voice(b),
        morphs(a, b) ==> kind_of(a) == kind_of(b),
        morphs(a, b) <==> morphs(b, a),
        forall|phase: Seq<char>| is_voice(#[trigger] visual_of_phase(phase)),
{
}

pub open spec fn size_for(v: PromptVisual) -> (i32, i32) {
    if is_voice(v) {
        (VOICE_W, VOICE_H)
    } else {
        (PANEL_W, PANEL_H)
    }
}

pub fn panel_size_for_visual(v: PromptVisual) -> (s: (i32, i32))
    ensures
        s == size_for(v),
{
    if visual_is_voice(v) {
        (VOICE_W, VOICE_H)
    } else {
        (PANEL_W, PANEL_H)
    }
}

/// Where the overlay stands.
#[derive(Clone, Copy, Debug, PartialEq, Eq, Structural)]
pub struct PromptRect {
    pub x: i32,
    pub y: i32,
    pub w: i32,
    pub h: i32,
}

/// Dictation covers the screen; the prompt stands in the middle, near the
/// bottom.
pub open spec fn rect_for(v: PromptVisual, screen_w: i32, screen_h: i32) -> PromptRect {
    let w = monitor::max(screen_w as int, 1);
    let h = monitor::max(screen_h as int, 1);
    if is_voice(v) {
        PromptRect { x: 0, y: 0, w: w as i32, h: h as i32 }
    } else {
        PromptRect {
            x: monitor::max((w - PANEL_W) / 2, 0) as i32,
            y: monitor::max(h - PANEL_H - MARGIN_BOTTOM, 0) as i32,
            w: PANEL_W,
            h: PANEL_H,
        }
    }
}

fn at_least(n: i32, least: i32) -> (m: i32)
    ensures
        m == monitor::max(n as int, least as int),
{
    if n >= least {
        n
    } else {
        least
    }
}

/// `rect_for`, computed.
pub fn overlay_rect(v: PromptVisual, screen_w: i32, screen_h: i32) -> (r: PromptRect)
    ensures
        r == rect_for(v, screen_w, screen_h),
{
    let screen_w: i32 = at_least(screen_w, 1);
    let screen_h: i32 = at_least(screen_h, 1);
    if fullscreen_border(v) {
        return PromptRect { x: 0, y: 0, w: screen_w, h: screen_h };
    }
    let (w, h) = panel_size_for_visual(v);
    let x: i32 = if screen_w >= w {
        (screen_w - w) / 2
    } else {
        0
    };
    PromptRect { x, y: at_least(screen_h - h - MARGIN_BOTTOM, 0), w, h }
}

/// Every phase of dictation has the same frame: the whole screen.
pub proof fn dictation_frames_are_the_screen(v: PromptVisual, screen_w: i32, screen_h: i32)
    requires
        is_voice(v),
        screen_w >= 1,
        screen_h >= 1,
    ensures
        size_for(v) == (420i32, 104i32),
        rect_for(v, screen_w, screen_h) == (PromptRect { x: 0, y: 0, w: screen_w, h: screen_h }),
{
}

/// The prompt lies on any screen that has room for it.
pub proof fn prompt_stays_on_screen(v: PromptVisual, screen_w: i32, screen_h: i32)
    requires
        screen_w >= PANEL_W,
        screen_h >= PANEL_H,
    ensures
        ({
            let r = rect_for(v, screen_w, screen_h);
            0 <= r.x && 0 <= r.y && r.x + r.w <= screen_w && r.y + r.h <= screen_h
        }),
{
}

/// The overlay's window style: dictation lets clicks through.
pub fn overlay_ex_style(ex: u32, v: PromptVisual) -> (r: u32)
    ensures
        r == (if is_voice(v) {
            ex | WS_EX_TRANSPARENT
        } else {
            ex & !WS_EX_TRANSPARENT
        }),
        is_voice(v) ==> r == ex | 0x20,
        !is_voice(v) ==> r == ex & !0x20u32,
{
    if fullscreen_border(v) {
        ex | WS_EX_TRANSPARENT
    } else {
        ex & !WS_EX_TRANSPARENT
    }
}

pub open spec fn voice_visual(phase: Option<Seq<char>>, vk_open: bool) -> Option<PromptVisual> {
    match phase {
        None => None,
        Some(p) => if vk_open {
            Some(PromptVisual::VoiceBorder)
        } else {
            Some(visual_of_phase(p))
        },
    }
}

pub open spec fn phase_view(phase: Option<String>) -> Option<Seq<char>> {
    match phase {
        Some(p) => Some(p@),
        None => None,
    }
}

/// What dictation shows: with the keyboard open only the border, since the orb is
/// on its microphone key.
pub fn voice_overlay_visual(phase: &Option<String>, vk_open: bool) -> (v: Option<PromptVisual>)
    ensures
        v == voice_visual(phase_view(*phase), vk_open),
{
    match phase {
        None => None,
        Some(p) => if vk_open {
            Some(PromptVisual::VoiceBorder)
        } else {
            Some(PromptVisual::from_voice_phase(p.as_str()))
        },
    }
}

pub open spec fn replay_at(elapsed: u64) -> PromptVisual {
    let phase = elapsed % DEBUG_REPLAY_PERIOD_MS;
    if phase < DEBUG_REPLAY_CONNECT_AT_MS {
        PromptVisual::NoPad
    } else if phase < DEBUG_REPLAY_CONNECT_AT_MS + CONNECTED_VISUAL_MS {
        PromptVisual::Connected
    } else {
        PromptVisual::Ready
    }
}

/// What the demonstration shows: no pad, then the card, then the prompt, over and
/// over.
pub fn debug_replay_visual(elapsed: u64) -> (v: PromptVisual)
    ensures
        v == replay_at(elapsed),
{
    let phase: u64 = elapsed % DEBUG_REPLAY_PERIOD_MS;
    if phase < DEBUG_REPLAY_CONNECT_AT_MS {
        PromptVisual::NoPad
    } else if phase < DEBUG_REPLAY_CONNECT_AT_MS + CONNECTED_VISUAL_MS {
        PromptVisual::Connected
    } else {
        PromptVisual::Ready
    }
}

/// The demonstration repeats.
pub proof fn replay_repeats(elapsed: u64)
    requires
        elapsed + DEBUG_REPLAY_PERIOD_MS <= u64::MAX,
    ensures
        replay_at((elapsed + DEBUG_REPLAY_PERIOD_MS) as u64) == replay_at(elapsed),
{
}

/// The controller behind the overlay.
#[derive(Clone, Copy, Debug, PartialEq, Eq, Structural)]
pub struct PromptOverlayController {
    /// The window thread that runs, by the kind of visual it shows.
    pub thread: Option<PromptThreadKind>,
    pub last_tick: Option<u64>,
    pub last_visual: Option<PromptVisual>,
    pub last_connected: bool,
    /// The card of a connected pad is up until then.
    pub connected_visual_until: Option<u64>,
    /// The card has had its one turn.
    pub connected_card_shown: bool,
    /// When the demonstration began.
    pub debug_epoch: u64,
}

/// What a tick looks at.
#[derive(Debug)]
pub struct PromptLook {
    pub service_mode: bool,
    pub now: u64,
    pub userland_debug: bool,
    /// The surface that receives input.
    pub surface: Option<Surface>,
    /// The system's own keyboard is wanted at sign-in.
    pub yield_to_native: bool,
    /// A pad is connected.
    pub connected: bool,
    /// The phase of a running dictation.
    pub voice: Option<String>,
    /// The keyboard is open.
    pub vk_open: bool,
}

/// What a tick asks for.
#[derive(Clone, Copy, Debug, PartialEq, Eq, Structural)]
pub enum PromptStep {
    /// Nothing this time.
    Idle,
    /// Hide and end the running thread where `stop` says so, start one where
    /// `start` says so, then settle.
    Settle { visual: Option<PromptVisual>, stop: bool, start: bool },
}

/// What to do with the window.
#[derive(Clone, Copy, Debug, PartialEq, Eq, Structural)]
pub enum PromptVisibility {
    Keep,
    Show(PromptVisual),
    Hide,
}

pub open spec fn plus(now: u64, ms: u64) -> u64 {
    if now + ms <= u64::MAX {
        (now + ms) as u64
    } else {
        u64::MAX
    }
}

impl PromptOverlayController {
    /// Whether the throttle lets a tick through.
    pub open spec fn ticks(self, look: PromptLook) -> bool {
        look.service_mode && clock::due(self.last_tick, look.now, TICK_INTERVAL_MS)
    }

    /// The state once the pad's connection was noted: its card goes up the first
    /// time it is seen, and comes down when it leaves.
    pub open spec fn noted(self, connected: bool, now: u64) -> PromptOverlayController {
        let first = connected && !self.last_connected && !self.connected_card_shown;
        PromptOverlayController {
            connected_visual_until: if first {
                Some(plus(now, CONNECTED_VISUAL_MS))
            } else if !connected {
                None
            } else {
                self.connected_visual_until
            },
            connected_card_shown: self.connected_card_shown || first,
            last_connected: connected,
            ..self
        }
    }

    /// What the overlay should show once the connection was noted. Dictation comes
    /// first, then the demonstration, then the sign-in prompt.
    pub open spec fn wanted(self, look: PromptLook) -> Option<PromptVisual> {
        if look.voice is Some {
            voice_visual(phase_view(look.voice), look.vk_open)
        } else if look.userland_debug {
            Some(replay_at(clock::elapsed(self.debug_epoch, look.now) as u64))
        } else if look.surface == Some(Surface::Winlogon) && !look.yield_to_native {
            if look.vk_open {
                None
            } else if self.connected_visual_until matches Some(until) && look.now < until {
                Some(PromptVisual::Connected)
            } else if look.connected {
                Some(PromptVisual::Ready)
            } else {
                Some(PromptVisual::NoPad)
            }
        } else {
            None
        }
    }

    /// Whether the running thread shows another kind of visual than is wanted.
    pub open spec fn stops(self, visual: Option<PromptVisual>) -> bool {
        visual matches Some(v) && self.thread is Some && self.thread != Some(kind_of(v))
    }

    /// Whether a thread has to be started.
    pub open spec fn starts(self, visual: Option<PromptVisual>) -> bool {
        visual is Some && (self.thread is None || self.stops(visual))
    }

    /// The state after a tick, before its thread is started.
    pub open spec fn ticked(self, look: PromptLook) -> PromptOverlayController {
        let c = PromptOverlayController { last_tick: Some(look.now), ..self }.noted(
            look.connected,
            look.now,
        );
        PromptOverlayController {
            thread: if c.stops(c.wanted(look)) {
                None
            } else {
                c.thread
            },
            ..c
        }
    }

    pub open spec fn step(self, look: PromptLook) -> PromptStep {
        let c = PromptOverlayController { last_tick: Some(look.now), ..self }.noted(
            look.connected,
            look.now,
        );
        let visual = c.wanted(look);
        PromptStep::Settle { visual, stop: c.stops(visual), start: c.starts(visual) }
    }

    /// The state once a tick is settled; `started` says whether a thread that had
    /// to be started runs.
    pub open spec fn settled(self, visual: Option<PromptVisual>, started: bool) -> PromptOverlayController {
        PromptOverlayController {
            thread: match (self.thread, visual) {
                (None, Some(v)) => if started {
                    Some(kind_of(v))
                } else {
                    None
                },
                _ => self.thread,
            },
            last_visual: visual,
            ..self
        }
    }

    /// What settling asks of the window: a change is shown, and so is the first
    /// visual of a new thread.
    pub open spec fn visibility(self, visual: Option<PromptVisual>, started: bool) -> PromptVisibility {
        let fresh = self.thread is None && visual is Some && started;
        let runs = self.thread is Some || fresh;
        if runs && (fresh || visual != self.last_visual) {
            match visual {
                Some(v) => PromptVisibility::Show(v),
                None => PromptVisibility::Hide,
            }
        } else {
            PromptVisibility::Keep
        }
    }

    /// Nothing shown yet.
    pub fn new(now: u64) -> (c: Self)
        ensures
            c == (PromptOverlayController {
                thread: None,
                last_tick: None,
                last_visual: None,
                last_connected: false,
                connected_visual_until: None,
                connected_card_shown: false,
                debug_epoch: now,
            }),
    {
        PromptOverlayController {
            thread: None,
            last_tick: None,
            last_visual: None,
            last_connected: false,
            connected_visual_until: None,
            connected_card_shown: false,
            debug_epoch: now,
        }
    }

    /// Notes whether a pad is connected.
    pub fn update_connected_visual(&mut self, connected: bool, now: u64)
        ensures
            *final(self) == old(self).noted(connected, now),
    {
        if connected && !self.last_connected && !self.connected_card_shown {
            self.connected_visual_until = Some(now.saturating_add(CONNECTED_VISUAL_MS));
            self.connected_card_shown = true;
        } else if !connected {
            self.connected_visual_until = None;
        }
        self.last_connected = connected;
    }

    fn wanted_visual(&self, look: &PromptLook) -> (v: Option<PromptVisual>)
        ensures
            v == self.wanted(*look),
    {
        if look.voice.is_some() {
            return voice_overlay_visual(&look.voice, look.vk_open);
        }
        if look.userland_debug {
            return Some(debug_replay_visual(elapsed_since(self.debug_epoch, look.now)));
        }
        let on_winlogon: bool = match look.surface {
            Some(s) => s.is_winlogon(),
            None => false,
        };
        if !on_winlogon || look.yield_to_native || look.vk_open {
            return None;
        }
        let intro: bool = match self.connected_visual_until {
            Some(until) => look.now < until,
            None => false,
        };
        if intro {
            Some(PromptVisual::Connected)
        } else if look.connected {
            Some(PromptVisual::Ready)
        } else {
            Some(PromptVisual::NoPad)
        }
    }

    /// Decides what the overlay should show now.
    pub fn tick(&mut self, look: &PromptLook) -> (step: PromptStep)
        ensures
            old(self).ticks(*look) ==> step == old(self).step(*look) && *final(self) == old(
                self,
            ).ticked(*look),
            !old(self).ticks(*look) ==> step == PromptStep::Idle && *final(self) == *old(self),
    {
        if !look.service_mode || !is_due(self.last_tick, look.now, TICK_INTERVAL_MS) {
            return PromptStep::Idle;
        }
        self.last_tick = Some(look.now);
        self.update_connected_visual(look.connected, look.now);
        let visual = self.wanted_visual(look);
        let stop: bool = match (visual, self.thread) {
            (Some(v), Some(k)) => k != thread_kind_for_visual(v),
            _ => false,
        };
        if stop {
            self.thread = None;
        }
        let start: bool = visual.is_some() && self.thread.is_none();
        PromptStep::Settle { visual, stop, start }
    }

    /// Settles a tick, once a thread that had to be started was.
    pub fn settle(&mut self, visual: Option<PromptVisual>, started: bool) -> (r: PromptVisibility)
        ensures
            *final(self) == old(self).settled(visual, started),
            r == old(self).visibility(visual, started),
    {
        let mut fresh: bool = false;
        if self.thread.is_none() {
            if let Some(v) = visual {
                if started {
                    self.thread = Some(thread_kind_for_visual(v));
                    fresh = true;
                }
            }
        }
        let r = if self.thread.is_some() && (fresh || visual != self.last_visual) {
            match visual {
                Some(v) => PromptVisibility::Show(v),
                None => PromptVisibility::Hide,
            }
        } else {
            PromptVisibility::Keep
        };
        self.last_visual = visual;
        r
    }
}

/// Once the card of a pad was shown, it never starts again: it only stays until
/// its time is up or the pad leaves.
pub proof fn card_is_shown_once(c: PromptOverlayController, connected: bool, now: u64)
    requires
        c.connected_card_shown,
    ensures
        c.noted(connected, now).connected_card_shown,
        c.noted(connected, now).connected_visual_until == (if connected {
            c.connected_visual_until
        } else {
            None
        }),
{
}

/// A thread that runs after a tick shows the kind of visual that is wanted.
pub proof fn thread_fits_what_it_shows(c: PromptOverlayController, look: PromptLook, started: bool)
    requires
        c.ticks(look),
    ensures
        ({
            let step = c.step(look);
            let after = c.ticked(look).settled(step->visual, started);
            step->visual matches Some(v) ==> after.thread is None || after.thread == Some(
                kind_of(v),
            )
        }),
{
}

/// While the keyboard is open the sign-in prompt is away; only dictation and the
/// demonstration show anything.
pub proof fn open_keyboard_hides_the_prompt(c: PromptOverlayController, look: PromptLook)
    requires
        look.vk_open,
        !look.userland_debug,
    ensures
        c.wanted(look) == (if look.voice is Some {
            Some(PromptVisual::VoiceBorder)
        } else {
            None
        }),
{
}

/// A settled overlay that is looked at again unchanged is left as it is.
pub proof fn unchanged_visual_is_kept(c: PromptOverlayController, visual: Option<PromptVisual>)
    requires
        c.thread is Some || visual is None,
    ensures
        c.settled(visual, true).visibility(visual, true) == PromptVisibility::Keep,
{
}

/// A change from one visual to another, while it runs.
#[derive(Clone, Copy, Debug, PartialEq, Eq, Structural)]
pub struct VisualMorph {
    pub from: PromptVisual,
    pub to: PromptVisual,
    pub start: u64,
}

/// Progress is counted in parts of this.
pub const MORPH_WHOLE: u64 = 74_088_000;

/// How far a change has come after `m` milliseconds of its duration: slow at both
/// ends.
pub open spec fn eased(m: int) -> int {
    m * m * (3 * MORPH_MS - 2 * m)
}

pub open spec fn progress_at(start: u64, now: u64) -> int {
    let e = clock::elapsed(start, now);
    eased(
        if e < MORPH_MS {
            e
        } else {
            MORPH_MS as int
        },
    )
}

proof fn eased_is_bounded(m: int)
    requires
        0 <= m <= MORPH_MS,
    ensures
        0 <= m * m <= 176_400,
        0 <= eased(m) <= MORPH_WHOLE,
{
    assert(0 <= m * m <= 420 * 420) by (nonlinear_arith)
        requires
            0 <= m <= 420,
    ;
    assert(m * m * (1260 - 2 * m) <= 74_088_000) by (nonlinear_arith)
        requires
            0 <= m <= 420,
    {
        // (420 - m)^2 (420 + 2m) is what is left of the whole.
        let d = 420 - m;
        assert(d * d * (420 + 2 * m) >= 0);
        assert(74_088_000 - m * m * (1260 - 2 * m) == d * d * (420 + 2 * m));
    }
    assert(0 <= m * m * (1260 - 2 * m)) by (nonlinear_arith)
        requires
            0 <= m <= 420,
    ;
}

/// How far a change has come, in parts of `MORPH_WHOLE`.
pub fn eased_morph_progress(start: u64, now: u64) -> (p: u64)
    ensures
        p == progress_at(start, now),
        p <= MORPH_WHOLE,
{
    let e: u64 = elapsed_since(start, now);
    let m: u64 = if e < MORPH_MS {
        e
    } else {
        MORPH_MS
    };
    proof {
        eased_is_bounded(m as int);
    }
    let square: u64 = m * m;
    square * (3 * MORPH_MS - 2 * m)
}

/// A change begins at nothing, ends at the whole, and is never past it nor behind
/// where it was.
pub proof fn morph_eases_without_overshoot(start: u64, a: u64, b: u64)
    requires
        start <= a <= b,
    ensures
        0 <= progress_at(start, a) <= progress_at(start, b) <= MORPH_WHOLE,
        progress_at(start, start) == 0,
        b - start >= MORPH_MS ==> progress_at(start, b) == MORPH_WHOLE,
        a - start == MORPH_MS / 2 ==> 2 * progress_at(start, a) == MORPH_WHOLE,
{
    let m = if a - start < MORPH_MS {
        a - start
    } else {
        MORPH_MS as int
    };
    let n = if b - start < MORPH_MS {
        b - start
    } else {
        MORPH_MS as int
    };
    eased_is_bounded(m);
    eased_is_bounded(n);
    assert(m * m * (1260 - 2 * m) <= n * n * (1260 - 2 * n)) by (nonlinear_arith)
        requires
            0 <= m <= n <= 420,
    {
        let d = n - m;
        // The difference is d * (1260 (m + n) - 2 (m^2 + m n + n^2)).
        assert(n * n * (1260 - 2 * n) - m * m * (1260 - 2 * m) == d * (1260 * (m + n) - 2 * (m * m
            + m * n + n * n)));
        assert(m * m + m * n + n * n <= 420 * m + 420 * n + 0 + 0 + n * m) by (nonlinear_arith)
            requires
                0 <= m <= n <= 420,
        ;
        assert(m * n <= 210 * (m + n)) by (nonlinear_arith)
            requires
                0 <= m <= n <= 420,
        ;
        assert(1260 * (m + n) - 2 * (m * m + m * n + n * n) >= 0);
        assert(d * (1260 * (m + n) - 2 * (m * m + m * n + n * n)) >= 0);
    }
    assert(0int * 0 * (1260 - 2 * 0) == 0);
    assert(eased(420) == 74_088_000) by (nonlinear_arith);
    assert(eased(210) == 37_044_000) by (nonlinear_arith);
}

/// What the overlay's window does with a message.
#[derive(Clone, Copy, Debug, PartialEq, Eq, Structural)]
pub enum PromptWndAction {
    /// The point belongs to what lies below.
    LetThrough,
    Paint,
    /// A repaint where the timer is the overlay's own.
    Timer { repaint: bool },
    Destroyed,
    Default,
}

/// The overlay's window, seen from its thread.
#[derive(Clone, Copy, Debug, PartialEq, Eq, Structural)]
pub struct OverlayUi {
    pub hwnd: Option<u64>,
    pub renderer: bool,
    pub visual: PromptVisual,
    pub morph: Option<VisualMorph>,
    /// When the dictation frame appeared.
    pub voice_shown_at: Option<u64>,
    /// When the phase of dictation last changed.
    pub voice_label_at: Option<u64>,
    /// When the dictation frame began to leave.
    pub voice_exit_at: Option<u64>,
}

/// What hiding the window takes.
#[derive(Clone, Copy, Debug, PartialEq, Eq, Structural)]
pub struct OverlayHide {
    pub window: u64,
    /// Fade it out first.
    pub fade: bool,
}

/// What showing a visual takes.
#[derive(Clone, Copy, Debug, PartialEq, Eq, Structural)]
pub struct OverlayShow {
    /// A window that has to go first.
    pub hide_first: Option<OverlayHide>,
    pub then_do: OverlayNext,
}

#[derive(Clone, Copy, Debug, PartialEq, Eq, Structural)]
pub enum OverlayNext {
    /// Draw on the window that is there.
    Redraw(u64),
    /// Create a window, after attaching to the input desktop where `attach` says
    /// so; preload the pad's artwork in the same case.
    Create { attach: bool },
}

impl OverlayUi {
    /// A renderer is bound to a window, and a change that runs is one that flows.
    pub open spec fn wf(self) -> bool {
        &&& self.hwnd is None ==> !self.renderer
        &&& self.morph matches Some(m) ==> morphs(m.from, m.to)
    }

    /// The state without a window.
    pub open spec fn closed_state(self) -> OverlayUi {
        OverlayUi {
            hwnd: None,
            renderer: false,
            morph: None,
            voice_shown_at: None,
            voice_label_at: None,
            voice_exit_at: None,
            ..self
        }
    }

    pub open spec fn hide_plan(self) -> Option<OverlayHide> {
        match self.hwnd {
            None => None,
            Some(h) => Some(OverlayHide { window: h, fade: is_voice(self.visual) }),
        }
    }

    /// The state once the window is hidden.
    pub open spec fn hidden(self) -> OverlayUi {
        if self.hwnd is Some {
            self.closed_state()
        } else {
            self
        }
    }

    /// Whether showing a visual needs another window than the one that is there.
    pub open spec fn needs_other_window(self, visual: PromptVisual) -> bool {
        self.hwnd is Some && is_voice(self.visual) != is_voice(visual)
    }

    /// The state once a visual is asked for.
    pub open spec fn asked(self, visual: PromptVisual, now: u64) -> OverlayUi {
        let previous = self.visual;
        let u = if self.needs_other_window(visual) {
            self.closed_state()
        } else {
            self
        };
        if u.hwnd is Some {
            OverlayUi {
                visual,
                voice_label_at: if previous != visual && is_voice(previous) && is_voice(visual) {
                    Some(now)
                } else {
                    u.voice_label_at
                },
                morph: if morphs(previous, visual) {
                    Some(VisualMorph { from: previous, to: visual, start: now })
                } else {
                    u.morph
                },
                ..u
            }
        } else {
            OverlayUi { visual, morph: None, voice_label_at: None, voice_exit_at: None, ..u }
        }
    }

    pub open spec fn show_plan(self, visual: PromptVisual) -> OverlayShow {
        let other = self.needs_other_window(visual);
        OverlayShow {
            hide_first: if other {
                self.hide_plan()
            } else {
                None
            },
            then_do: match self.hwnd {
                Some(h) => if other {
                    OverlayNext::Create { attach: !is_voice(visual) }
                } else {
                    OverlayNext::Redraw(h)
                },
                None => OverlayNext::Create { attach: !is_voice(visual) },
            },
        }
    }

    /// No window.
    pub fn new() -> (u: Self)
        ensures
            u == (OverlayUi {
                hwnd: None,
                renderer: false,
                visual: PromptVisual::Ready,
                morph: None,
                voice_shown_at: None,
                voice_label_at: None,
                voice_exit_at: None,
            }),
            u.wf(),
    {
        OverlayUi {
            hwnd: None,
            renderer: false,
            visual: PromptVisual::Ready,
            morph: None,
            voice_shown_at: None,
            voice_label_at: None,
            voice_exit_at: None,
        }
    }

    /// Hides the window, if there is one. A fade runs while the caller still
    /// draws; see `begin_fade`.
    pub fn ui_hide(&mut self) -> (plan: Option<OverlayHide>)
        ensures
            plan == old(self).hide_plan(),
            *final(self) == old(self).hidden(),
            old(self).wf() ==> final(self).wf(),
    {
        match self.hwnd {
            None => None,
            Some(h) => {
                let fade: bool = visual_is_voice(self.visual);
                self.hwnd = None;
                self.renderer = false;
                self.morph = None;
                self.voice_shown_at = None;
                self.voice_label_at = None;
                self.voice_exit_at = None;
                Some(OverlayHide { window: h, fade })
            },
        }
    }

    /// Starts the exit clock of the dictation frame, which is drawn until it has
    /// faded.
    pub fn begin_fade(&mut self, now: u64)
        ensures
            *final(self) == (OverlayUi { voice_exit_at: Some(now), ..*old(self) }),
    {
        self.voice_exit_at = Some(now);
    }

    /// Asks for a visual.
    pub fn ui_show(&mut self, visual: PromptVisual, now: u64) -> (plan: OverlayShow)
        ensures
            plan == old(self).show_plan(visual),
            *final(self) == old(self).asked(visual, now),
            old(self).wf() ==> final(self).wf(),
    {
        let previous = self.visual;
        let mut hide_first: Option<OverlayHide> = None;
        if self.hwnd.is_some() && visual_is_voice(previous) != visual_is_voice(visual) {
            hide_first = self.ui_hide();
        }
        self.visual = visual;
        match self.hwnd {
            Some(h) => {
                if previous != visual && same_voice_pill(previous, visual) {
                    self.voice_label_at = Some(now);
                }
                if can_morph_between(previous, visual) {
                    self.morph = Some(VisualMorph { from: previous, to: visual, start: now });
                }
                OverlayShow { hide_first, then_do: OverlayNext::Redraw(h) }
            },
            None => {
                self.morph = None;
                self.voice_label_at = None;
                self.voice_exit_at = None;
                OverlayShow {
                    hide_first,
                    then_do: OverlayNext::Create { attach: !visual_is_voice(visual) },
                }
            },
        }
    }

    /// The state once a window was created, or not.
    pub open spec fn with_window(self, created: Option<u64>, renderer: bool, now: u64) -> OverlayUi {
        match created {
            None => self,
            Some(h) => OverlayUi {
                hwnd: Some(h),
                renderer,
                voice_shown_at: if is_voice(self.visual) {
                    Some(now)
                } else {
                    self.voice_shown_at
                },
                ..self
            },
        }
    }

    /// A window was created, or not, and a renderer bound to it, or not. The
    /// entrance clock of dictation starts now, not when the window was asked for.
    pub fn window_created(&mut self, created: Option<u64>, renderer: bool, now: u64)
        ensures
            *final(self) == old(self).with_window(created, renderer, now),
            old(self).wf() ==> final(self).wf(),
    {
        if let Some(h) = created {
            self.hwnd = Some(h);
            self.renderer = renderer;
            if visual_is_voice(self.visual) {
                self.voice_shown_at = Some(now);
            }
        }
    }

    /// A window is gone.
    pub fn on_destroyed(&mut self, hwnd: u64)
        ensures
            *final(self) == (OverlayUi {
                renderer: false,
                hwnd: if old(self).hwnd == Some(hwnd) {
                    None
                } else {
                    old(self).hwnd
                },
                ..*old(self)
            }),
            old(self).wf() ==> final(self).wf(),
    {
        self.renderer = false;
        if self.hwnd == Some(hwnd) {
            self.hwnd = None;
        }
    }

    pub open spec fn wnd_action(self, message: u32, wparam: u64) -> PromptWndAction {
        if message == WM_NCHITTEST && is_voice(self.visual) {
            PromptWndAction::LetThrough
        } else if message == WM_PAINT {
            PromptWndAction::Paint
        } else if message == WM_TIMER {
            PromptWndAction::Timer { repaint: wparam == REPAINT_TIMER_ID }
        } else if message == WM_DESTROY {
            PromptWndAction::Destroyed
        } else {
            PromptWndAction::Default
        }
    }

    /// What the window does with a message.
    pub fn prompt_wndproc(&self, message: u32, wparam: u64) -> (a: PromptWndAction)
        ensures
            a == self.wnd_action(message, wparam),
    {
        if message == WM_NCHITTEST && fullscreen_border(self.visual) {
            PromptWndAction::LetThrough
        } else if message == WM_PAINT {
            PromptWndAction::Paint
        } else if message == WM_TIMER {
            PromptWndAction::Timer { repaint: wparam == REPAINT_TIMER_ID }
        } else if message == WM_DESTROY {
            PromptWndAction::Destroyed
        } else {
            PromptWndAction::Default
        }
    }

    /// The change that runs now.
    pub open spec fn running(self, now: u64) -> Option<VisualMorph> {
        match self.morph {
            Some(m) => if clock::elapsed(m.start, now) < MORPH_MS {
                Some(m)
            } else {
                None
            },
            None => None,
        }
    }

    /// The change that runs now and how far it has come; one that is over is
    /// dropped.
    pub fn active_visual_morph(&mut self, now: u64) -> (r: Option<(VisualMorph, u64)>)
        ensures
            *final(self) == (OverlayUi { morph: old(self).running(now), ..*old(self) }),
            match old(self).running(now) {
                Some(m) => r matches Some((n, p)) && n == m && p == progress_at(m.start, now) && p
                    <= MORPH_WHOLE,
                None => r is None,
            },
            old(self).wf() ==> final(self).wf(),
    {
        match self.morph {
            None => None,
            Some(m) => if elapsed_since(m.start, now) >= MORPH_MS {
                self.morph = None;
                None
            } else {
                Some((m, eased_morph_progress(m.start, now)))
            },
        }
    }

    /// How much of the card is on show, in parts of `MORPH_WHOLE`, and which pill
    /// lies under it.
    pub open spec fn blend(self, now: u64) -> (int, PromptVisual) {
        let still: (int, PromptVisual) = if self.visual == PromptVisual::Connected {
            (MORPH_WHOLE as int, PromptVisual::Ready)
        } else {
            (0, self.visual)
        };
        match self.running(now) {
            Some(m) => if m.to == PromptVisual::Connected {
                (progress_at(m.start, now), m.from)
            } else if m.from == PromptVisual::Connected {
                (MORPH_WHOLE - progress_at(m.start, now), m.to)
            } else {
                still
            },
            None => still,
        }
    }

    /// `blend`, computed.
    pub fn card_blend(&mut self, now: u64) -> (r: (u64, PromptVisual))
        ensures
            (r.0 as int, r.1) == old(self).blend(now),
            r.0 <= MORPH_WHOLE,
            *final(self) == (OverlayUi { morph: old(self).running(now), ..*old(self) }),
            old(self).wf() ==> final(self).wf(),
    {
        let active = self.active_visual_morph(now);
        if let Some((m, p)) = active {
            if matches!(m.to, PromptVisual::Connected) {
                return (p, m.from);
            }
            if matches!(m.from, PromptVisual::Connected) {
                return (MORPH_WHOLE - p, m.to);
            }
        }
        if matches!(self.visual, PromptVisual::Connected) {
            (MORPH_WHOLE, PromptVisual::Ready)
        } else {
            (0, self.visual)
        }
    }
}

/// The dictation frame and the prompt never take each other's window, and a
/// window that stays is never resized.
pub proof fn windows_are_not_shared(u: OverlayUi, visual: PromptVisual, now: u64)
    requires
        u.wf(),
    ensures
        u.show_plan(visual).then_do is Redraw ==> is_voice(u.visual) == is_voice(visual) && forall|
            w: i32,
            h: i32,
        | #[trigger]
            rect_for(u.visual, w, h) == rect_for(visual, w, h),
        u.hwnd is Some && is_voice(u.visual) != is_voice(visual) ==> u.show_plan(visual).hide_first
            == u.hide_plan() && u.show_plan(visual).then_do is Create,
        u.show_plan(visual).then_do is Redraw <==> u.asked(visual, now).hwnd is Some,
        u.asked(visual, now).wf(),
        u.asked(visual, now).visual == visual,
{
}

/// Where a pad's card flows in and flows out again, it begins and ends as the
/// pill: the blend starts and ends where the still pictures are.
pub proof fn blend_joins_the_still_pictures(u: OverlayUi, visual: PromptVisual, now: u64)
    requires
        u.wf(),
        u.hwnd is Some,
        morphs(u.visual, visual),
    ensures
        ({
            let shown = u.asked(visual, now);
            &&& shown.blend(now).0 == (if u.visual == PromptVisual::Connected {
                MORPH_WHOLE as int
            } else {
                0
            })
            &&& forall|later: u64|
                later >= now + MORPH_MS ==> (#[trigger] shown.blend(later)).0 == (if visual
                    == PromptVisual::Connected {
                    MORPH_WHOLE as int
                } else {
                    0
                })
        }),
{
    morph_eases_without_overshoot(now, now, now);
}

/// What a connected pad is called on its card: its name, but a family instead of
/// a slot, the one whose artwork is shown.
pub open spec fn title_of(label: Seq<char>) -> Seq<char> {
    let l = text::trimmed(label);
    let low = text::ascii_lower_all(l);
    if l.len() == 0 || low == "none"@ {
        "Controller"@
    } else if text::occurs(low, "slot"@) {
        if vk_renderer::names_playstation(low) {
            "PlayStation Controller"@
        } else {
            "Xbox Controller"@
        }
    } else {
        l
    }
}

/// `title_of`, computed.
pub fn connected_card_title(label: &str) -> (title: String)
    ensures
        title@ == title_of(label@),
{
    let l = trim(label);
    let chars = chars_of(l.as_str());
    let low = lower_chars(chars.as_slice());
    if chars.len() == 0 || text::same_chars(low.as_slice(), chars_of("none").as_slice()) {
        "Controller".to_owned()
    } else if contains_str(low.as_slice(), "slot") {
        if playstation_name(low.as_slice()) {
            "PlayStation Controller".to_owned()
        } else {
            "Xbox Controller".to_owned()
        }
    } else {
        l
    }
}

/// Title and artwork of a card agree: a pad is shown as a PlayStation pad exactly
/// where its title names one, and one that is shown as an Xbox pad is called one.
pub proof fn title_and_artwork_agree(label: Seq<char>)
    ensures
        vk_renderer::art_of(label) == Some(ControllerArt::DualSense) <==> vk_renderer::art_of(
            title_of(label),
        ) == Some(ControllerArt::DualSense),
        vk_renderer::art_of(label) == Some(ControllerArt::XboxOne) ==> vk_renderer::art_of(
            title_of(label),
        ) == Some(ControllerArt::XboxOne),
{
    let l = text::trimmed(label);
    let low = text::ascii_lower_all(l);
    margin_picks_no_art(label);
    if l.len() == 0 || low == "none"@ {
        reveal_strlit("none");
        reveal_strlit("Controller");
        assert forall|i: int| 0 <= i < low.len() implies keyword_letter(#[trigger] low[i])
            == false by {
            assert(low == "none"@);
        }
        nameless_has_no_art(l);
        nameless_has_no_art("Controller"@);
    } else if text::occurs(low, "slot"@) {
        families_have_art();
    }
}

/// A letter that begins a keyword by which artwork is picked.
spec fn keyword_letter(c: char) -> bool {
    c == 'd' || c == 'p' || c == 'h' || c == 'x'
}

proof fn begins_with(hay: Seq<char>, needle: Seq<char>)
    requires
        text::occurs(hay, needle),
        needle.len() > 0,
    ensures
        exists|i: int| 0 <= i < hay.len() && #[trigger] hay[i] == needle[0],
{
    let at = choose|at: int| #[trigger] text::occurs_at(hay, needle, at);
    assert(hay.subrange(at, at + needle.len())[0] == hay[at]);
}

/// Keywords are there only where the letters that they begin with are.
proof fn keywords_need_their_letters(low: Seq<char>)
    ensures
        vk_renderer::names_playstation(low) ==> exists|i: int|
            0 <= i < low.len() && keyword_letter(#[trigger] low[i]) && low[i] != 'x',
        text::occurs(low, "xbox"@) || text::occurs(low, "xinput"@) ==> exists|i: int|
            0 <= i < low.len() && #[trigger] low[i] == 'x',
{
    reveal_strlit("dualsense");
    reveal_strlit("dualshock");
    reveal_strlit("playstation");
    reveal_strlit("ps5");
    reveal_strlit("ps4");
    reveal_strlit("hid slot");
    reveal_strlit("xbox");
    reveal_strlit("xinput");
    if text::occurs(low, "dualsense"@) {
        begins_with(low, "dualsense"@);
    }
    if text::occurs(low, "dualshock"@) {
        begins_with(low, "dualshock"@);
    }
    if text::occurs(low, "playstation"@) {
        begins_with(low, "playstation"@);
    }
    if text::occurs(low, "ps5"@) {
        begins_with(low, "ps5"@);
    }
    if text::occurs(low, "ps4"@) {
        begins_with(low, "ps4"@);
    }
    if text::occurs(low, "hid slot"@) {
        begins_with(low, "hid slot"@);
    }
    if text::occurs(low, "xbox"@) {
        begins_with(low, "xbox"@);
    }
    if text::occurs(low, "xinput"@) {
        begins_with(low, "xinput"@);
    }
}

proof fn nameless_has_no_art(label: Seq<char>)
    requires
        forall|i: int|
            0 <= i < label.len() ==> !keyword_letter(#[trigger] text::ascii_lower_all(label)[i]),
    ensures
        vk_renderer::art_of(label) is None,
{
    keywords_need_their_letters(text::ascii_lower_all(label));
}

proof fn families_have_art()
    ensures
        vk_renderer::art_of("PlayStation Controller"@) == Some(ControllerArt::DualSense),
        vk_renderer::art_of("Xbox Controller"@) == Some(ControllerArt::XboxOne),
{
    reveal_strlit("PlayStation Controller");
    reveal_strlit("Xbox Controller");
    reveal_strlit("playstation");
    reveal_strlit("xbox");
    let ps = text::ascii_lower_all("PlayStation Controller"@);
    assert(ps.subrange(0, 11) =~= "playstation"@);
    assert(text::occurs_at(ps, "playstation"@, 0));
    let xbox = text::ascii_lower_all("Xbox Controller"@);
    assert(xbox.subrange(0, 4) =~= "xbox"@);
    assert(text::occurs_at(xbox, "xbox"@, 0));
    keywords_need_their_letters(xbox);
}

proof fn margin_picks_no_art(label: Seq<char>)
    ensures
        vk_renderer::art_of(text::trimmed(label)) == vk_renderer::art_of(label),
{
    reveal_strlit("dualsense");
    reveal_strlit("dualshock");
    reveal_strlit("playstation");
    reveal_strlit("ps5");
    reveal_strlit("ps4");
    reveal_strlit("hid slot");
    reveal_strlit("xbox");
    reveal_strlit("xinput");
    text::trimming_hides_nothing(label, "dualsense"@);
    text::trimming_hides_nothing(label, "dualshock"@);
    text::trimming_hides_nothing(label, "playstation"@);
    text::trimming_hides_nothing(label, "ps5"@);
    text::trimming_hides_nothing(label, "ps4"@);
    text::trimming_hides_nothing(label, "hid slot"@);
    text::trimming_hides_nothing(label, "xbox"@);
    text::trimming_hides_nothing(label, "xinput"@);
}

/// The name that picks a card's title and artwork.
pub open spec fn label_of(name: Seq<char>) -> Seq<char> {
    let l = text::trimmed(name);
    if l.len() == 0 || text::ascii_equal(l, "none"@) {
        GENERIC_PAD@
    } else {
        l
    }
}

/// `label_of`, computed.
pub fn card_label(name: &str) -> (label: String)
    ensures
        label@ == label_of(name@),
{
    let l = trim(name);
    if chars_of(l.as_str()).len() == 0 || same_ignoring_case(l.as_str(), "none") {
        GENERIC_PAD.to_owned()
    } else {
        l
    }
}

/// The name that picks the artwork to preload: as it is, unless it is blank.
pub fn preload_label(name: &str) -> (label: String)
    ensures
        label@ == (if text::trimmed(name@).len() == 0 {
            GENERIC_PAD@
        } else {
            name@
        }),
{
    if chars_of(trim(name).as_str()).len() == 0 {
        GENERIC_PAD.to_owned()
    } else {
        name.to_owned()
    }
}

/// The overlay's colours, as GDI colours.
#[derive(Clone, Copy, Debug, PartialEq, Eq, Structural)]
pub struct PromptColors {
    pub bg: u32,
    pub border: u32,
    pub text: u32,
    pub accent: u32,
}

pub open spec fn either(a: Option<u32>, b: Option<u32>) -> Option<u32> {
    match a {
        Some(_) => a,
        None => b,
    }
}

pub open spec fn colors_for(t: KeyboardTheme) -> PromptColors {
    PromptColors {
        bg: vk_ui::or(t.bg, DEFAULT_BG),
        border: vk_ui::or(either(t.border, t.accent), DEFAULT_BORDER),
        text: vk_ui::or(t.text, DEFAULT_TEXT),
        accent: vk_ui::or(either(t.accent, t.border), DEFAULT_BORDER),
    }
}

fn first_of(a: Option<u32>, b: Option<u32>, base: u32) -> (c: u32)
    ensures
        c == vk_ui::or(either(a, b), base),
{
    match a {
        Some(c) => c,
        None => match b {
            Some(c) => c,
            None => base,
        },
    }
}

/// The overlay's colours: the user's, and the border and the accent stand in for
/// each other.
pub fn prompt_colors(theme: &KeyboardTheme) -> (c: PromptColors)
    ensures
        c == colors_for(*theme),
{
    PromptColors {
        bg: first_of(theme.bg, None, DEFAULT_BG),
        border: first_of(theme.border, theme.accent, DEFAULT_BORDER),
        text: first_of(theme.text, None, DEFAULT_TEXT),
        accent: first_of(theme.accent, theme.border, DEFAULT_BORDER),
    }
}

/// What a frame of the overlay draws.
#[derive(Clone, Copy, Debug, PartialEq, Eq, Structural)]
pub enum PromptFrame {
    Voice { phase: VoicePhase, show_orb: bool },
    Card {
        /// There is no pad: the pill is muted and names no button.
        no_pad: bool,
        /// How much of the card is on show, in parts of `MORPH_WHOLE`.
        card: u64,
    },
}

/// What a frame draws.
pub open spec fn frame_for(u: OverlayUi, now: u64) -> PromptFrame {
    match phase_of(u.visual) {
        Some(phase) => PromptFrame::Voice { phase, show_orb: u.visual != PromptVisual::VoiceBorder },
        None => {
            let (card, pill) = u.blend(now);
            PromptFrame::Card { no_pad: pill == PromptVisual::NoPad, card: card as u64 }
        },
    }
}

/// The text of the pill: before and after the button's chip, and whether there
/// is one.
pub fn pill_text(no_pad: bool) -> (r: (&'static str, &'static str, bool))
    ensures
        no_pad ==> r.0@ == NO_PAD_PROMPT@ && r.1@ == ""@ && !r.2,
        !no_pad ==> r.0@ == PROMPT_PREFIX@ && r.1@ == PROMPT_SUFFIX@ && r.2,
        no_pad ==> r.0@ == "Connect controller"@,
        !no_pad ==> r.0@ == "Press "@ && r.1@ == " for keyboard"@,
{
    if no_pad {
        (NO_PAD_PROMPT, "", false)
    } else {
        (PROMPT_PREFIX, PROMPT_SUFFIX, true)
    }
}

/// `frame_for`, computed; a change that is over is dropped on the way.
pub fn render_prompt(u: &mut OverlayUi, now: u64) -> (f: PromptFrame)
    ensures
        f == frame_for(*old(u), now),
        *final(u) == (OverlayUi { morph: old(u).running(now), ..*old(u) }),
{
    let (card, pill) = u.card_blend(now);
    match u.visual.voice_phase() {
        Some(phase) => PromptFrame::Voice {
            phase,
            show_orb: !matches!(u.visual, PromptVisual::VoiceBorder),
        },
        None => PromptFrame::Card { no_pad: matches!(pill, PromptVisual::NoPad), card },
    }
}

/// In a message each visual has its own number, and any other number stands for the prompt.
pub proof fn visuals_have_their_numbers(n: i64)
    ensures
        visual_of(n) == PromptVisual::NoPad <==> n == 2,
        visual_of(n) == PromptVisual::Connected <==> n == 3,
        visual_of(n) == PromptVisual::Listening <==> n == 4,
        visual_of(n) == PromptVisual::Transcribing <==> n == 5,
        visual_of(n) == PromptVisual::Starting <==> n == 6,
        visual_of(n) == PromptVisual::VoiceBorder <==> n == 7,
        lparam_of(PromptVisual::Ready) == 1,
{
}

/// What the helper says it is doing is what is shown: starting, transcribing, and anything
/// else as listening. A visual of dictation stands for the same phase.
pub proof fn phases_are_shown(phase: Seq<char>)
    ensures
        phase == "starting"@ ==> visual_of_phase(phase) == PromptVisual::Starting,
        phase == "transcribing"@ ==> visual_of_phase(phase) == PromptVisual::Transcribing,
        phase != "starting"@ && phase != "transcribing"@ ==> visual_of_phase(phase)
            == PromptVisual::Listening,
        phase_of(PromptVisual::Starting) == Some(VoicePhase::Starting),
        phase_of(PromptVisual::Transcribing) == Some(VoicePhase::Transcribing),
        phase_of(PromptVisual::Listening) == Some(VoicePhase::Listening),
        phase_of(PromptVisual::VoiceBorder) == Some(VoicePhase::Listening),
        voice_visual(Some(phase), false) == Some(visual_of_phase(phase)),
        voice_visual(Some(phase), true) == Some(PromptVisual::VoiceBorder),
        voice_visual(None, false) is None && voice_visual(None, true) is None,
{
    reveal_strlit("starting");
    reveal_strlit("transcribing");
    assert("starting"@[0] == 's' && "transcribing"@[0] == 't');
}

/// Dictation is what the microphone is on for; the three prompts are not, and only the card
/// flows from and into the other two.
pub proof fn only_the_card_flows(a: PromptVisual, b: PromptVisual)
    ensures
        !is_voice(a) <==> a == PromptVisual::Ready || a == PromptVisual::NoPad || a
            == PromptVisual::Connected,
        kind_of(a) == PromptThreadKind::Voice <==> is_voice(a),
        morphs(a, b) <==> (a == PromptVisual::Connected && (b == PromptVisual::Ready || b
            == PromptVisual::NoPad)) || (b == PromptVisual::Connected && (a == PromptVisual::Ready
            || a == PromptVisual::NoPad)),
{
}

/// The prompt is 720 by 420 pixels, in the middle of the screen to the pixel, and ends 72
/// lines above its bottom where the screen has room.
pub proof fn the_prompt_is_near_the_bottom(v: PromptVisual, screen_w: i32, screen_h: i32)
    requires
        !is_voice(v),
    ensures
        ({
            let r = rect_for(v, screen_w, screen_h);
            &&& r.w == 720 && r.h == 420
            &&& screen_w >= 720 ==> 0 <= screen_w - r.w - 2 * r.x <= 1
            &&& screen_w < 720 ==> r.x == 0
            &&& screen_h >= 492 ==> r.y + r.h + 72 == screen_h
            &&& screen_h < 492 ==> r.y == 0
        }),
        size_for(v) == (720i32, 420i32),
{
}

/// The demonstration shows no pad for a second and a half, then the card for 2400
/// milliseconds, then the prompt, and begins anew every six and a half seconds.
pub proof fn the_demonstration_has_three_acts(elapsed: u64)
    ensures
        replay_at(elapsed) == PromptVisual::NoPad <==> elapsed % 6500 < 1500,
        replay_at(elapsed) == PromptVisual::Connected <==> 1500 <= elapsed % 6500 < 3900,
        replay_at(elapsed) == PromptVisual::Ready <==> 3900 <= elapsed % 6500,
{
}

/// The card of a pad goes up the first time it is seen, for 2400 milliseconds, and comes
/// down when it leaves.
pub proof fn the_card_stays_for_its_time(c: PromptOverlayController, now: u64)
    requires
        now + 2400 <= u64::MAX,
    ensures
        !c.last_connected && !c.connected_card_shown ==> c.noted(true, now).connected_visual_until
            == Some((now + 2400) as u64) && c.noted(true, now).connected_card_shown,
        c.last_connected ==> c.noted(true, now).connected_visual_until == c.connected_visual_until,
        c.noted(false, now).connected_visual_until is None,
        c.noted(false, now).connected_card_shown == c.connected_card_shown,
        c.noted(true, now).last_connected && !c.noted(false, now).last_connected,
        c.noted(true, now).thread == c.thread && c.noted(true, now).last_visual == c.last_visual,
{
}

/// The overlay looks four times a second, and only in the service.
pub proof fn looks_come_every_quarter_second(c: PromptOverlayController, look: PromptLook)
    ensures
        !look.service_mode ==> !c.ticks(look),
        look.service_mode && c.last_tick is None ==> c.ticks(look),
        look.service_mode ==> (c.last_tick matches Some(t) ==> (c.ticks(look) <==> look.now >= t
            + 250)),
{
}

/// What is shown, in this order: a running dictation; the demonstration where it is on;
/// nothing away from the sign-in screen, where the system's own keyboard is wanted or while
/// the keyboard is open; the card while its time lasts; else the prompt, which tells whether
/// there is a pad.
pub proof fn what_is_shown(c: PromptOverlayController, look: PromptLook)
    ensures
        look.voice matches Some(p) ==> c.wanted(look) == voice_visual(Some(p@), look.vk_open),
        look.voice is None && look.userland_debug && look.now >= c.debug_epoch ==> c.wanted(look)
            == Some(replay_at((look.now - c.debug_epoch) as u64)),
        look.voice is None && !look.userland_debug ==> {
            let away = look.surface != Some(Surface::Winlogon) || look.yield_to_native
                || look.vk_open;
            let card = c.connected_visual_until matches Some(until) && look.now < until;
            &&& away <==> c.wanted(look) is None
            &&& !away && card ==> c.wanted(look) == Some(PromptVisual::Connected)
            &&& !away && !card && look.connected ==> c.wanted(look) == Some(PromptVisual::Ready)
            &&& !away && !card && !look.connected ==> c.wanted(look) == Some(PromptVisual::NoPad)
        },
{
}

/// A thread of the wrong kind is stopped, and one is started where none of the right kind
/// runs and something is to be shown; what is new is shown, and what is no longer wanted
/// hidden.
pub proof fn threads_follow_what_is_shown(
    c: PromptOverlayController,
    visual: Option<PromptVisual>,
    started: bool,
)
    ensures
        visual is None ==> !c.stops(visual) && !c.starts(visual),
        visual matches Some(v) ==> (c.stops(visual) <==> c.thread is Some && c.thread != Some(
            kind_of(v),
        )) && (c.starts(visual) <==> c.thread != Some(kind_of(v))),
        c.settled(visual, started).last_visual == visual,
        c.thread is Some ==> c.settled(visual, started).thread == c.thread,
        c.thread is None && !started ==> c.settled(visual, started).thread is None && c.visibility(
            visual,
            started,
        ) == PromptVisibility::Keep,
        c.thread is None && started ==> (visual matches Some(v) ==> c.visibility(visual, started)
            == PromptVisibility::Show(v) && c.settled(visual, started).thread == Some(kind_of(v))),
        c.thread is Some && visual != c.last_visual ==> (visual matches Some(v) ==> c.visibility(
            visual,
            started,
        ) == PromptVisibility::Show(v)),
        c.thread is Some && visual is None && c.last_visual is Some ==> c.visibility(
            visual,
            started,
        ) == PromptVisibility::Hide,
        c.thread is Some && visual == c.last_visual ==> c.visibility(visual, started)
            == PromptVisibility::Keep,
{
}

/// A change runs for 420 milliseconds.
pub proof fn changes_take_their_time(u: OverlayUi, m: VisualMorph, now: u64)
    requires
        u.morph == Some(m),
        now >= m.start,
    ensures
        u.running(now) == (if now - m.start < 420 {
            Some(m)
        } else {
            None
        }),
{
}

/// Dictation fades out and is drawn where it is; a prompt goes at once and is drawn on the
/// input desktop. A phase that changes is noted with its time, and so is the window of a
/// dictation.
pub proof fn dictation_comes_and_goes_softly(u: OverlayUi, visual: PromptVisual, now: u64, h: u64)
    ensures
        u.hide_plan() matches Some(p) ==> u.hwnd == Some(p.window) && p.fade == is_voice(u.visual),
        u.hide_plan() is None <==> u.hwnd is None,
        u.show_plan(visual).then_do matches OverlayNext::Create { attach } ==> attach == !is_voice(
            visual,
        ),
        u.show_plan(visual).then_do matches OverlayNext::Redraw(w) ==> u.hwnd == Some(w),
        u.hwnd is None ==> u.show_plan(visual).then_do is Create && u.show_plan(visual).hide_first
            is None,
        u.hwnd is Some && is_voice(u.visual) && is_voice(visual) && u.visual != visual ==> u.asked(
            visual,
            now,
        ).voice_label_at == Some(now),
        u.hwnd is Some && morphs(u.visual, visual) ==> u.asked(visual, now).morph == Some(
            VisualMorph { from: u.visual, to: visual, start: now },
        ),
        u.hwnd is Some && u.visual == visual ==> u.asked(visual, now) == u,
        u.hidden().hwnd is None,
        u.hwnd is Some ==> u.hidden().morph is None && u.hidden().voice_shown_at is None
            && u.hidden().voice_label_at is None && u.hidden().voice_exit_at is None
            && !u.hidden().renderer,
        u.with_window(Some(h), true, now).hwnd == Some(h) && u.with_window(Some(h), true, now).renderer,
        is_voice(u.visual) ==> u.with_window(Some(h), true, now).voice_shown_at == Some(now),
        !is_voice(u.visual) ==> u.with_window(Some(h), true, now).voice_shown_at
            == u.voice_shown_at,
        u.with_window(None, true, now) == u,
{
}

/// What the overlay's window does with each message, by the system's numbers; points are
/// let through only during dictation.
pub proof fn overlay_messages_have_their_actions(u: OverlayUi, message: u32, wparam: u64)
    ensures
        ({
            let a = u.wnd_action(message, wparam);
            &&& a == PromptWndAction::LetThrough <==> message == 0x0084 && is_voice(u.visual)
            &&& a == PromptWndAction::Paint <==> message == 0x000f
            &&& a is Timer <==> message == 0x0113
            &&& (a matches PromptWndAction::Timer { repaint } ==> (repaint <==> wparam == 12))
            &&& a == PromptWndAction::Destroyed <==> message == 0x0002
        }),
{
}

/// Between two pictures the card shows as much more as the other picture shows less, over
/// the pill that the change began or ends with; where nothing changes it shows whole or not
/// at all.
pub proof fn the_card_blends(u: OverlayUi, now: u64)
    requires
        u.wf(),
    ensures
        u.running(now) matches Some(m) ==> {
            &&& m.to == PromptVisual::Connected ==> u.blend(now) == (
                progress_at(m.start, now),
                m.from,
            )
            &&& m.from == PromptVisual::Connected ==> u.blend(now).0 + progress_at(m.start, now)
                == 74_088_000 && u.blend(now).1 == m.to
        },
        u.running(now) is None && u.visual == PromptVisual::Connected ==> u.blend(now) == (
            74_088_000int,
            PromptVisual::Ready,
        ),
        u.running(now) is None && u.visual != PromptVisual::Connected ==> u.blend(now) == (
            0int,
            u.visual,
        ),
{
}

/// A pad is called by its name without the blanks around it; one that has none is a
/// controller, and one that is named by its slot is called by its family.
pub proof fn pads_are_called_by_their_names(label: Seq<char>)
    ensures
        ({
            let l = text::trimmed(label);
            let low = text::ascii_lower_all(l);
            &&& l.len() == 0 || low == "none"@ ==> title_of(label) == "Controller"@
            &&& l.len() > 0 && low != "none"@ && !text::occurs(low, "slot"@) ==> title_of(label) == l
            &&& l.len() > 0 && low != "none"@ && text::occurs(low, "slot"@) && text::occurs(
                low,
                "hid slot"@,
            ) ==> title_of(label) == "PlayStation Controller"@
            &&& l.len() > 0 && low != "none"@ && text::occurs(low, "slot"@) ==> title_of(label)
                == "PlayStation Controller"@ || title_of(label) == "Xbox Controller"@
        }),
        ({
            let l = text::trimmed(label);
            let none = text::ascii_lower_all(l) == seq!['n', 'o', 'n', 'e'];
            &&& l.len() == 0 || none ==> label_of(label) == "Xbox Wireless Controller"@
            &&& l.len() > 0 && !none ==> label_of(label) == l
        }),
{
    reveal_strlit("none");
    assert("none"@ =~= seq!['n', 'o', 'n', 'e']);
    assert(text::ascii_lower_all("none"@) =~= "none"@);
}

/// The overlay takes the user's colours; its border and its accent stand in for each other,
/// and without either both have the overlay's own.
pub proof fn the_overlay_takes_chosen_colours(t: KeyboardTheme)
    ensures
        ({
            let c = colors_for(t);
            &&& t.bg matches Some(x) ==> c.bg == x
            &&& t.bg is None ==> c.bg == 0x141414
            &&& t.text matches Some(x) ==> c.text == x
            &&& t.text is None ==> c.text == 0xffffff
            &&& t.border matches Some(x) ==> c.border == x
            &&& t.accent matches Some(x) ==> c.accent == x
            &&& t.border is None ==> c.border == c.accent
            &&& t.accent is None ==> c.accent == c.border
            &&& t.border is None && t.accent is None ==> c.border == 0x997b4c
        }),
{
}

/// A frame of dictation shows its phase, with the orb unless only the border is shown; any
/// other frame shows the card and is muted exactly where its pill says that there is no pad.
pub proof fn frames_show_the_visual(u: OverlayUi, now: u64)
    ensures
        is_voice(u.visual) ==> (frame_for(u, now) matches PromptFrame::Voice { phase, show_orb }
            && Some(phase) == phase_of(u.visual) && (show_orb <==> u.visual
            != PromptVisual::VoiceBorder)),
        !is_voice(u.visual) ==> (frame_for(u, now) matches PromptFrame::Card { no_pad, card }
            && (no_pad <==> u.blend(now).1 == PromptVisual::NoPad) && card == u.blend(now).0 as u64),
{
}

/// A change begins and ends slowly: before its middle it is behind an even pace, after it
/// ahead of one, and what it has come after some time is what is left at that time before
/// its end.
pub proof fn changes_are_slow_at_both_ends(start: u64, m: u64)
    requires
        m <= 420,
        start + 420 <= u64::MAX,
    ensures
        0 < m < 210 ==> progress_at(start, (start + m) as u64) * 420 < m * 74_088_000,
        210 < m < 420 ==> progress_at(start, (start + m) as u64) * 420 > m * 74_088_000,
        progress_at(start, (start + m) as u64) + progress_at(start, (start + 420 - m) as u64)
            == 74_088_000,
{
    let k = m as int;
    assert(0 < k < 210 ==> k * k * (1260 - 2 * k) * 420 < k * 74_088_000) by (nonlinear_arith)
        requires
            0 <= k <= 420,
    {
        if 0 < k < 210 {
            assert((210 - k) * (420 - k) > 0);
            assert(k * (1260 - 2 * k) < 176_400);
            assert(k * (k * (1260 - 2 * k)) < k * 176_400);
            assert(k * k * (1260 - 2 * k) == k * (k * (1260 - 2 * k)));
        }
    }
    assert(210 < k < 420 ==> k * k * (1260 - 2 * k) * 420 > k * 74_088_000) by (nonlinear_arith)
        requires
            0 <= k <= 420,
    {
        if 210 < k < 420 {
            assert((k - 210) * (420 - k) > 0);
            assert(k * (1260 - 2 * k) > 176_400);
            assert(k * (k * (1260 - 2 * k)) > k * 176_400);
            assert(k * k * (1260 - 2 * k) == k * (k * (1260 - 2 * k)));
        }
    }
    let d = 420 - k;
    assert(k * k * (1260 - 2 * k) + d * d * (1260 - 2 * d) == 74_088_000) by (nonlinear_arith)
        requires
            d == 420 - k,
    ;
}

/// A visual that gets a window of its own begins afresh: nothing flows into it, and no clock
/// of the window before it runs on.
pub proof fn a_new_window_begins_afresh(u: OverlayUi, visual: PromptVisual, now: u64)
    requires
        u.hwnd is None || is_voice(u.visual) != is_voice(visual),
    ensures
        u.asked(visual, now).hwnd is None,
        u.asked(visual, now).morph is None,
        u.asked(visual, now).voice_label_at is None,
        u.asked(visual, now).voice_exit_at is None,
        u.hwnd is Some ==> u.asked(visual, now).voice_shown_at is None,
{
}

} // verus!

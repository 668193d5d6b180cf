//! The diagnostic panel on the secure desktop.

use vstd::prelude::*;

use crate::clock;
use crate::clock::is_due;
use crate::surface;
use crate::surface::{classify, Surface};
use crate::text::concat2;

verus! {

pub const TICK_INTERVAL_MS: u64 = 250;

/// Contrary looks that are tolerated while the panel is up.
pub const HOLD_LOOKS: u8 = 12;

/// The controller behind the panel.
#[derive(Clone, Copy, Debug, PartialEq, Eq, Structural)]
pub struct DebugOverlayController {
    /// The panel's thread is running.
    pub thread: bool,
    pub last_tick: Option<u64>,
    pub last_on_winlogon: bool,
    pub input_probe_failures: u8,
    pub off_winlogon_streak: u8,
}

/// What a tick asks for.
#[derive(Clone, Copy, Debug, PartialEq, Eq, Structural)]
pub enum DebugStep {
    /// Nothing this time.
    Idle,
    /// Make sure the panel's thread runs, then settle its visibility.
    Settle { on_winlogon: bool },
}

/// What to do with the panel.
#[derive(Clone, Copy, Debug, PartialEq, Eq, Structural)]
pub enum DebugVisibility {
    Keep,
    Show,
    Hide,
}

pub open spec fn bump(n: u8) -> u8 {
    if n < u8::MAX {
        (n + 1) as u8
    } else {
        n
    }
}

/// The state once a look at the input desktop is counted.
pub open spec fn looked(c: DebugOverlayController, now: u64, probe: Option<Surface>) -> DebugOverlayController {
    let c1 = DebugOverlayController { last_tick: Some(now), ..c };
    match probe {
        Some(s) => DebugOverlayController {
            input_probe_failures: 0,
            off_winlogon_streak: if s == Surface::Winlogon { 0 } else { bump(c.off_winlogon_streak) },
            ..c1
        },
        None => DebugOverlayController {
            input_probe_failures: bump(c.input_probe_failures),
            ..c1
        },
    }
}

/// Whether a contrary look is not believed yet.
pub open spec fn holds(c: DebugOverlayController, probe: Option<Surface>) -> bool {
    &&& c.thread && c.last_on_winlogon
    &&& match probe {
        Some(s) => s != Surface::Winlogon && c.off_winlogon_streak < HOLD_LOOKS,
        None => c.input_probe_failures < HOLD_LOOKS,
    }
}

impl DebugOverlayController {
    pub fn new() -> (c: Self)
        ensures
            c == (DebugOverlayController {
                thread: false,
                last_tick: None,
                last_on_winlogon: false,
                input_probe_failures: 0,
                off_winlogon_streak: 0,
            }),
    {
        DebugOverlayController {
            thread: false,
            last_tick: None,
            last_on_winlogon: false,
            input_probe_failures: 0,
            off_winlogon_streak: 0,
        }
    }

    /// One look at the input desktop, a few times a second. A probe that fails or
    /// sees another desktop is believed only when it repeats.
    pub fn tick(&mut self, service_mode: bool, now: u64, probe: &Result<String, String>) -> (step:
        DebugStep)
        ensures
            ({
                let seen = match *probe {
                    Ok(name) => Some(surface::surface_of(name@)),
                    Err(_) => None::<Surface>,
                };
                let after = looked(*old(self), now, seen);
                if !service_mode || !clock::due(old(self).last_tick, now, TICK_INTERVAL_MS) {
                    step == DebugStep::Idle && *final(self) == *old(self)
                } else {
                    &&& *final(self) == after
                    &&& step == (if holds(after, seen) {
                        DebugStep::Idle
                    } else {
                        DebugStep::Settle { on_winlogon: seen == Some(Surface::Winlogon) }
                    })
                }
            }),
    {
        if !service_mode || !is_due(self.last_tick, now, TICK_INTERVAL_MS) {
            return DebugStep::Idle;
        }
        self.last_tick = Some(now);
        match probe {
            Ok(name) => {
                self.input_probe_failures = 0;
                let on_winlogon = classify(name.as_str()).is_winlogon();
                if on_winlogon {
                    self.off_winlogon_streak = 0;
                } else {
                    self.off_winlogon_streak = self.off_winlogon_streak.saturating_add(1);
                    if self.thread && self.last_on_winlogon && self.off_winlogon_streak
                        < HOLD_LOOKS {
                        return DebugStep::Idle;
                    }
                }
                DebugStep::Settle { on_winlogon }
            },
            Err(_) => {
                self.input_probe_failures = self.input_probe_failures.saturating_add(1);
                if self.thread && self.last_on_winlogon && self.input_probe_failures < HOLD_LOOKS {
                    return DebugStep::Idle;
                }
                DebugStep::Settle { on_winlogon: false }
            },
        }
    }

    /// Settles the panel's visibility after a tick asked for it. `spawned` tells
    /// how starting the thread went, when it was not running.
    pub fn settle(&mut self, on_winlogon: bool, spawned: bool) -> (v: DebugVisibility)
        ensures
            final(self).thread == (old(self).thread || spawned),
            final(self).last_on_winlogon == on_winlogon,
            final(self).last_tick == old(self).last_tick,
            final(self).input_probe_failures == old(self).input_probe_failures,
            final(self).off_winlogon_streak == old(self).off_winlogon_streak,
            v == ({
                let fresh = !old(self).thread && spawned;
                let moved = old(self).thread && on_winlogon != old(self).last_on_winlogon;
                if !fresh && !moved {
                    DebugVisibility::Keep
                } else if on_winlogon {
                    DebugVisibility::Show
                } else {
                    DebugVisibility::Hide
                }
            }),
    {
        let just_spawned: bool = if !self.thread {
            if !spawned {
                self.last_on_winlogon = on_winlogon;
                return DebugVisibility::Keep;
            }
            self.thread = true;
            true
        } else {
            false
        };
        let transitioned = on_winlogon != self.last_on_winlogon;
        self.last_on_winlogon = on_winlogon;
        if just_spawned || transitioned {
            if on_winlogon {
                DebugVisibility::Show
            } else {
                DebugVisibility::Hide
            }
        } else {
            DebugVisibility::Keep
        }
    }
}

/// The panel stays up through short interruptions: while it is shown, a run of
/// fewer than twelve contrary looks changes nothing that is visible.
pub proof fn short_interruptions_are_ignored(c: DebugOverlayController, now: u64, probe: Option<Surface>)
    requires
        c.thread,
        c.last_on_winlogon,
        c.off_winlogon_streak < HOLD_LOOKS - 1,
        c.input_probe_failures < HOLD_LOOKS - 1,
        probe != Some(Surface::Winlogon),
    ensures
        holds(looked(c, now, probe), probe),
        looked(c, now, probe).last_on_winlogon,
{
}

/// The shortcut keys of the panel, as last seen.
#[derive(Clone, Copy, Debug, PartialEq, Eq, Structural)]
pub struct DebugShortcuts {
    pub f10_down: bool,
    pub f9_down: bool,
    /// A keyboard toggle is pending.
    pub vk_toggle_requested: bool,
}

/// Takes in the state of the two keys: F10 going down asks for a keyboard
/// toggle, F9 going down for a dump of the automation tree. Returns whether a
/// dump was asked for.
pub fn poll_debug_shortcut(keys: &mut DebugShortcuts, f10: bool, f9: bool) -> (dump: bool)
    ensures
        *final(keys) == (DebugShortcuts {
            f10_down: f10,
            f9_down: f9,
            vk_toggle_requested: old(keys).vk_toggle_requested || f10 && !old(keys).f10_down,
        }),
        dump == (f9 && !old(keys).f9_down),
{
    if f10 && !keys.f10_down {
        keys.vk_toggle_requested = true;
    }
    keys.f10_down = f10;
    let dump = f9 && !keys.f9_down;
    keys.f9_down = f9;
    dump
}

/// Takes a pending keyboard toggle.
pub fn take_vk_toggle_request(keys: &mut DebugShortcuts) -> (requested: bool)
    ensures
        requested == old(keys).vk_toggle_requested,
        *final(keys) == (DebugShortcuts { vk_toggle_requested: false, ..*old(keys) }),
{
    let requested = keys.vk_toggle_requested;
    keys.vk_toggle_requested = false;
    requested
}

pub open spec fn gamepad_line(connected: bool) -> Seq<char> {
    "gamepad: "@ + (if connected { "connected"@ } else { "not connected"@ })
}

pub open spec fn input_line(input: Seq<char>) -> Seq<char> {
    "input: "@ + (if input.len() == 0 { "\u{2014}"@ } else { input })
}

/// The two lines of the panel.
pub fn panel_lines(connected: bool, input: &str) -> (lines: (String, String))
    ensures
        lines.0@ == gamepad_line(connected),
        lines.1@ == input_line(input@),
{
    let state: &str = if connected {
        "connected"
    } else {
        "not connected"
    };
    let shown: &str = if input.is_empty() {
        "\u{2014}"
    } else {
        input
    };
    (concat2("gamepad: ", state), concat2("input: ", shown))
}

/// A contrary look is believed where it is the twelfth in a row, where the panel is not up,
/// and a look that sees the secure desktop always is; it ends every run.
pub proof fn twelve_contrary_looks_are_believed(
    c: DebugOverlayController,
    now: u64,
    probe: Option<Surface>,
)
    ensures
        ({
            let after = looked(c, now, probe);
            &&& probe == Some(Surface::Winlogon) ==> !holds(after, probe)
                && after.off_winlogon_streak == 0 && after.input_probe_failures == 0
            &&& probe is Some && c.off_winlogon_streak >= 11 ==> !holds(after, probe)
            &&& probe is None && c.input_probe_failures >= 11 ==> !holds(after, probe)
            &&& !c.thread || !c.last_on_winlogon ==> !holds(after, probe)
            &&& c.thread && c.last_on_winlogon && probe is Some && probe != Some(Surface::Winlogon)
                && c.off_winlogon_streak < 11 ==> holds(after, probe) && after.off_winlogon_streak
                == c.off_winlogon_streak + 1 && after.input_probe_failures == 0
            &&& c.thread && c.last_on_winlogon && probe is None && c.input_probe_failures < 11
                ==> holds(after, probe) && after.input_probe_failures == c.input_probe_failures + 1
                && after.off_winlogon_streak == c.off_winlogon_streak
            &&& after.last_tick == Some(now)
            &&& after.thread == c.thread && after.last_on_winlogon == c.last_on_winlogon
        }),
{
}

/// The panel looks four times a second.
pub proof fn looks_come_every_quarter_second(t: u64, now: u64)
    ensures
        clock::due(Some(t), now, TICK_INTERVAL_MS) <==> now >= t + 250,
{
    clock::due_once_the_interval_has_passed(t, now, TICK_INTERVAL_MS);
}

/// The panel says whether a pad is there, and what it last did, or a dash where it did
/// nothing.
pub proof fn the_panel_says_what_is_there(connected: bool, input: Seq<char>)
    ensures
        connected ==> gamepad_line(connected) == "gamepad: "@ + "connected"@,
        !connected ==> gamepad_line(connected) == "gamepad: "@ + "not connected"@,
        input.len() > 0 ==> input_line(input) == "input: "@ + input,
        input.len() == 0 ==> input_line(input) == "input: "@ + "\u{2014}"@,
{
}

} // verus!

//! The poll thread's message pump and window procedure, as decisions.

use vstd::prelude::*;

use super::types::{PollModel, PollState};
use crate::clock;
use crate::clock::is_due;
use crate::text;
use crate::text::{concat2, decimal_of, put};

verus! {

pub const POLL_TIMER_ID: usize = 21;
pub const POLL_TIMER_MS: u32 = 8;

pub const WM_DESTROY: u32 = 0x0002;
pub const WM_INPUT: u32 = 0x00ff;
pub const WM_TIMER: u32 = 0x0113;
pub const WM_POWERBROADCAST: u32 = 0x0218;

pub const PBT_APMRESUMESUSPEND: usize = 0x0007;
pub const PBT_APMRESUMEAUTOMATIC: usize = 0x0012;

/// Silent waits in a row after which the pump counts as wedged.
pub const IDLE_LIMIT: u8 = 3;

pub const PANIC_LOG_MS: u64 = 1000;

/// What happened last while the poll thread was starting.
pub enum StartEvent {
    Attached,
    AttachFailed(String),
    ModuleFailed(String),
    WindowFailed(String),
    WindowCreated,
    /// Whether the XInput functions were found.
    Loaded(bool),
    /// The pads are open: hints read from the mapping database at a path, and
    /// whether the poll timer was set.
    Opened { hints: u64, database: String, timer_set: bool },
}

/// What a starting poll thread does next.
#[derive(Clone, Copy, Debug, PartialEq, Eq, Structural)]
pub enum StartNext {
    /// Create the anchor window; it must stand before XInput is loaded.
    CreateWindow,
    LoadXInput,
    OpenDevices,
    Pump,
    Exit,
}

/// One step of the start.
pub struct StartStep {
    /// Tell the backend that the thread is on the input desktop.
    pub ready: bool,
    /// Lines for the service log, in order.
    pub lines: Vec<String>,
    /// Hand the thread's id to whoever waits for the start to end.
    pub publish_thread: bool,
    pub next: StartNext,
}

/// What a start event leads to.
pub open spec fn start_next(event: StartEvent) -> StartNext {
    match event {
        StartEvent::Attached => StartNext::CreateWindow,
        StartEvent::WindowCreated => StartNext::LoadXInput,
        StartEvent::Loaded(true) => StartNext::OpenDevices,
        StartEvent::Opened { .. } => StartNext::Pump,
        _ => StartNext::Exit,
    }
}

/// The log lines of a start event.
pub open spec fn start_lines(event: StartEvent) -> Seq<Seq<char>> {
    match event {
        StartEvent::AttachFailed(e) => seq!["desktop attach failed: "@ + e@],
        StartEvent::ModuleFailed(e) => seq!["GetModuleHandleW: "@ + e@],
        StartEvent::WindowFailed(e) => seq!["CreateWindowExW anchor: "@ + e@],
        StartEvent::WindowCreated => seq![
            "anchor window created (NOACTIVATE; no foreground steal)"@,
        ],
        StartEvent::Loaded(found) => if found {
            seq![]
        } else {
            seq!["loader failed"@]
        },
        StartEvent::Opened { hints, database, timer_set } => (if hints > 0 {
            seq!["HID: loaded "@ + text::decimal(hints as nat)
                + " gamecontrollerdb VID:PID hints from "@ + database@]
        } else {
            seq![]
        }) + (if timer_set {
            seq![]
        } else {
            seq!["SetTimer failed for anchor poll"@]
        }),
        StartEvent::Attached => seq![],
    }
}

/// One step of the start. The thread's id is published exactly when the start
/// is over, whichever way it went.
pub fn start_step(event: &StartEvent) -> (step: StartStep)
    ensures
        step.ready == (event is Attached),
        step.next == start_next(*event),
        step.publish_thread == (step.next is Pump || step.next is Exit),
        step.lines@.len() == start_lines(*event).len(),
        forall|i: int| 0 <= i < step.lines@.len() ==> (#[trigger] step.lines@[i])@
            == start_lines(*event)[i],
{
    let mut lines: Vec<String> = Vec::new();
    let next: StartNext = match event {
        StartEvent::Attached => StartNext::CreateWindow,
        StartEvent::AttachFailed(e) => {
            lines.push(concat2("desktop attach failed: ", e));
            StartNext::Exit
        },
        StartEvent::ModuleFailed(e) => {
            lines.push(concat2("GetModuleHandleW: ", e));
            StartNext::Exit
        },
        StartEvent::WindowFailed(e) => {
            lines.push(concat2("CreateWindowExW anchor: ", e));
            StartNext::Exit
        },
        StartEvent::WindowCreated => {
            lines.push("anchor window created (NOACTIVATE; no foreground steal)".to_owned());
            StartNext::LoadXInput
        },
        StartEvent::Loaded(found) => if *found {
            StartNext::OpenDevices
        } else {
            lines.push("loader failed".to_owned());
            StartNext::Exit
        },
        StartEvent::Opened { hints, database, timer_set } => {
            if *hints > 0 {
                let n: String = decimal_of(*hints);
                let mut line: String = concat2("HID: loaded ", &n);
                put(&mut line, " gamecontrollerdb VID:PID hints from ");
                put(&mut line, database);
                lines.push(line);
            }
            if !*timer_set {
                lines.push("SetTimer failed for anchor poll".to_owned());
            }
            StartNext::Pump
        },
    };
    let over: bool = matches!(next, StartNext::Pump | StartNext::Exit);
    StartStep {
        ready: matches!(event, StartEvent::Attached),
        lines,
        publish_thread: over,
        next,
    }
}

/// What the pump does after a wait.
#[derive(Clone, Copy, Debug, PartialEq, Eq, Structural)]
pub enum PumpStep {
    /// Stop was asked for.
    Stop,
    /// Nothing arrived for too long; end so that a fresh thread takes over.
    Wedged,
    /// Nothing arrived; wait again.
    Wait,
    /// Dispatch what is queued.
    Drain,
}

/// One turn of the pump.
pub fn pump_step(idle_streak: &mut u8, stop: bool, timed_out: bool) -> (step: PumpStep)
    ensures
        ({
            let streak: int = if stop {
                *old(idle_streak) as int
            } else if !timed_out {
                0
            } else if *old(idle_streak) < u8::MAX {
                *old(idle_streak) + 1
            } else {
                u8::MAX as int
            };
            &&& *final(idle_streak) == streak
            &&& step == (if stop {
                PumpStep::Stop
            } else if !timed_out {
                PumpStep::Drain
            } else if streak >= IDLE_LIMIT {
                PumpStep::Wedged
            } else {
                PumpStep::Wait
            })
        }),
        step is Wedged ==> *final(idle_streak) >= 3,
        step is Wait ==> *final(idle_streak) < 3,
{
    if stop {
        return PumpStep::Stop;
    }
    if timed_out {
        *idle_streak = idle_streak.saturating_add(1);
        if *idle_streak >= IDLE_LIMIT {
            PumpStep::Wedged
        } else {
            PumpStep::Wait
        }
    } else {
        *idle_streak = 0;
        PumpStep::Drain
    }
}

/// What a message to the anchor window asks for.
#[derive(Clone, Copy, Debug, PartialEq, Eq, Structural)]
pub enum AnchorAction {
    Poll,
    RawInput,
    /// The machine woke up: drop every device handle and look again.
    Resume,
    /// Another power event; acknowledged and ignored.
    Power,
    Destroy,
    Default,
}

/// Routes a message to the anchor window.
pub fn anchor_action(msg: u32, wparam: usize) -> (action: AnchorAction)
    ensures
        action == (if msg == WM_TIMER && wparam == POLL_TIMER_ID {
            AnchorAction::Poll
        } else if msg == WM_INPUT {
            AnchorAction::RawInput
        } else if msg == WM_POWERBROADCAST {
            if wparam == PBT_APMRESUMEAUTOMATIC || wparam == PBT_APMRESUMESUSPEND {
                AnchorAction::Resume
            } else {
                AnchorAction::Power
            }
        } else if msg == WM_DESTROY {
            AnchorAction::Destroy
        } else {
            AnchorAction::Default
        }),
        action == AnchorAction::Poll <==> msg == 0x0113 && wparam == 21,
        action == AnchorAction::RawInput <==> msg == 0x00ff,
        action == AnchorAction::Resume <==> msg == 0x0218 && (wparam == 0x12 || wparam == 0x7),
        action == AnchorAction::Power <==> msg == 0x0218 && wparam != 0x12 && wparam != 0x7,
        action == AnchorAction::Destroy <==> msg == 0x0002,
{
    if msg == WM_TIMER && wparam == POLL_TIMER_ID {
        AnchorAction::Poll
    } else if msg == WM_INPUT {
        AnchorAction::RawInput
    } else if msg == WM_POWERBROADCAST {
        if wparam == PBT_APMRESUMEAUTOMATIC || wparam == PBT_APMRESUMESUSPEND {
            AnchorAction::Resume
        } else {
            AnchorAction::Power
        }
    } else if msg == WM_DESTROY {
        AnchorAction::Destroy
    } else {
        AnchorAction::Default
    }
}

/// Makes both device scans due at once. The caller has dropped every handle.
pub fn flush_for_resume(state: &mut PollState)
    ensures
        final(state)@ == (PollModel { last_xusb_scan: None, last_hid_scan: None, ..old(state)@ }),
{
    state.last_xusb_scan = None;
    state.last_hid_scan = None;
}

/// The window to remember as the credential window: the foreground window,
/// unless it is the anchor or there is none.
pub fn credential_window(remembered: isize, anchor: isize, foreground: isize) -> (r: isize)
    ensures
        r == (if foreground != anchor && foreground != 0 { foreground } else { remembered }),
{
    if foreground != anchor && foreground != 0 {
        foreground
    } else {
        remembered
    }
}

/// The remembered credential window, if one was seen.
pub fn logon_credential_window(remembered: isize) -> (r: Option<isize>)
    ensures
        r == (if remembered != 0 { Some(remembered) } else { None::<isize> }),
{
    if remembered != 0 {
        Some(remembered)
    } else {
        None
    }
}

/// Records a recovered panic of a poll tick; tells whether to log it, at most
/// once a second.
pub fn note_poll_panic(last_log: &mut Option<u64>, now: u64) -> (log: bool)
    ensures
        log == clock::due(*old(last_log), now, PANIC_LOG_MS),
        *old(last_log) matches Some(t) ==> (log <==> now >= t + 1000),
        *final(last_log) == (if log { Some(now) } else { *old(last_log) }),
{
    if is_due(*last_log, now, PANIC_LOG_MS) {
        *last_log = Some(now);
        true
    } else {
        false
    }
}

/// A start goes through its steps in order, the window before XInput and XInput before
/// the devices, and ends at the first that fails.
pub proof fn starting_goes_step_by_step(e: String, hints: u64, timer_set: bool)
    ensures
        start_next(StartEvent::Attached) == StartNext::CreateWindow,
        start_next(StartEvent::WindowCreated) == StartNext::LoadXInput,
        start_next(StartEvent::Loaded(true)) == StartNext::OpenDevices,
        start_next(StartEvent::Opened { hints, database: e, timer_set }) == StartNext::Pump,
        start_next(StartEvent::AttachFailed(e)) == StartNext::Exit,
        start_next(StartEvent::ModuleFailed(e)) == StartNext::Exit,
        start_next(StartEvent::WindowFailed(e)) == StartNext::Exit,
        start_next(StartEvent::Loaded(false)) == StartNext::Exit,
{
}

/// A step that fails is logged with what the system said, the steps that go well say
/// nothing but that the window is there, and the end of a start says how many hints were
/// loaded, where any were, and that there is no timer, where there is none.
pub proof fn failed_steps_are_logged(e: String, hints: u64, database: String, timer_set: bool)
    ensures
        start_lines(StartEvent::AttachFailed(e)) == seq!["desktop attach failed: "@ + e@],
        start_lines(StartEvent::ModuleFailed(e)) == seq!["GetModuleHandleW: "@ + e@],
        start_lines(StartEvent::WindowFailed(e)) == seq!["CreateWindowExW anchor: "@ + e@],
        start_lines(StartEvent::Loaded(false)).len() == 1,
        start_lines(StartEvent::Loaded(true)).len() == 0,
        start_lines(StartEvent::Attached).len() == 0,
        start_lines(StartEvent::WindowCreated).len() == 1,
        ({
            let lines = start_lines(StartEvent::Opened { hints, database, timer_set });
            &&& lines.len() == (if hints > 0 { 1int } else { 0 }) + (if timer_set { 0int } else { 1 })
            &&& hints > 0 ==> lines[0] == "HID: loaded "@ + text::decimal(hints as nat)
                + " gamecontrollerdb VID:PID hints from "@ + database@
            &&& !timer_set ==> lines.last() == "SetTimer failed for anchor poll"@
        }),
{
}

} // verus!

//! The window thread that the keyboard and the overlays share: which thread
//! messages it understands, and what starting it can come to.

use vstd::prelude::*;

use crate::text;
use crate::text::{concat2, concat3, decimal_of, put};

verus! {

pub const WM_DESTROY: u32 = 0x2;

pub const WM_PAINT: u32 = 0xf;

pub const WM_MOUSEACTIVATE: u32 = 0x21;

pub const WM_WINDOWPOSCHANGING: u32 = 0x46;

pub const WM_NCHITTEST: u32 = 0x84;

pub const WM_TIMER: u32 = 0x113;

pub const WM_LBUTTONDOWN: u32 = 0x201;

/// The first message number that a program may use for itself.
pub const WM_USER: u32 = 0x400;

pub const WM_APP_SHOW: u32 = WM_USER;

pub const WM_APP_HIDE: u32 = WM_USER + 1;

pub const WM_APP_QUIT: u32 = WM_USER + 2;

pub const WM_APP_REPAINT: u32 = WM_USER + 3;

/// What the pump does with a message.
#[derive(Clone, Copy, Debug, PartialEq, Eq, Structural)]
pub enum PumpAction {
    Show,
    Hide,
    Repaint,
    Quit,
    /// Not one of the thread's own messages: hand it to its window.
    Dispatch,
}

pub open spec fn action_for(message: u32) -> PumpAction {
    if message == WM_APP_SHOW {
        PumpAction::Show
    } else if message == WM_APP_HIDE {
        PumpAction::Hide
    } else if message == WM_APP_REPAINT {
        PumpAction::Repaint
    } else if message == WM_APP_QUIT {
        PumpAction::Quit
    } else {
        PumpAction::Dispatch
    }
}

/// `action_for`, computed.
pub fn route(message: u32) -> (a: PumpAction)
    ensures
        a == action_for(message),
{
    if message == WM_APP_SHOW {
        PumpAction::Show
    } else if message == WM_APP_HIDE {
        PumpAction::Hide
    } else if message == WM_APP_REPAINT {
        PumpAction::Repaint
    } else if message == WM_APP_QUIT {
        PumpAction::Quit
    } else {
        PumpAction::Dispatch
    }
}

/// A message to post to a thread.
#[derive(Clone, Copy, Debug, PartialEq, Eq, Structural)]
pub struct Post {
    pub thread_id: u32,
    pub message: u32,
    pub lparam: i64,
}

/// A running window thread.
#[derive(Clone, Copy, Debug, PartialEq, Eq, Structural)]
pub struct DesktopWindowThread {
    pub thread_id: u32,
}

/// What starting a window thread comes to, given what starting the thread said
/// and what the thread then reported. No report means that it ended first.
pub open spec fn spawned(
    name: Seq<char>,
    started: Result<(), Seq<char>>,
    report: Option<Result<u32, Seq<char>>>,
) -> Result<u32, Seq<char>> {
    match started {
        Err(e) => Err(name + ": "@ + e),
        Ok(_) => match report {
            None => Err(name + " exited before ready"@),
            Some(Err(e)) => Err(e),
            Some(Ok(id)) => Ok(id),
        },
    }
}

pub open spec fn unit_view(r: Result<(), String>) -> Result<(), Seq<char>> {
    match r {
        Ok(_) => Ok(()),
        Err(e) => Err(e@),
    }
}

pub open spec fn id_view(r: Result<u32, String>) -> Result<u32, Seq<char>> {
    match r {
        Ok(id) => Ok(id),
        Err(e) => Err(e@),
    }
}

pub open spec fn report_view(r: Option<Result<u32, String>>) -> Option<Result<u32, Seq<char>>> {
    match r {
        None => None,
        Some(r) => Some(id_view(r)),
    }
}

/// `spawned`, computed.
pub fn spawn(name: &str, started: Result<(), String>, report: Option<Result<u32, String>>) -> (r:
    Result<DesktopWindowThread, String>)
    ensures
        match r {
            Ok(t) => spawned(name@, unit_view(started), report_view(report)) == Ok::<u32, Seq<char>>(
                t.thread_id,
            ),
            Err(e) => spawned(name@, unit_view(started), report_view(report)) == Err::<
                u32,
                Seq<char>,
            >(e@),
        },
{
    match started {
        Err(e) => Err(concat3(name, ": ", e.as_str())),
        Ok(_) => match report {
            None => Err(concat2(name, " exited before ready")),
            Some(Err(e)) => Err(e),
            Some(Ok(thread_id)) => Ok(DesktopWindowThread { thread_id }),
        },
    }
}

/// The message for a post that failed.
pub fn post_error(message: u32, error: &str) -> (out: String)
    ensures
        out@ == "PostThreadMessageW("@ + text::decimal(message as nat) + "): "@ + error@,
{
    let mut out = concat3("PostThreadMessageW(", decimal_of(message as u64).as_str(), "): ");
    put(&mut out, error);
    out
}

impl DesktopWindowThread {
    pub fn post(&self, message: u32, lparam: i64) -> (p: Post)
        ensures
            p == (Post { thread_id: self.thread_id, message, lparam }),
    {
        Post { thread_id: self.thread_id, message, lparam }
    }

    /// Asks the thread to show its window.
    pub fn show_window(&self, lparam: i64) -> (p: Post)
        ensures
            p == (Post { thread_id: self.thread_id, message: WM_APP_SHOW, lparam }),
    {
        self.post(WM_APP_SHOW, lparam)
    }

    /// Asks the thread to hide its window.
    pub fn hide_window(&self) -> (p: Post)
        ensures
            p == (Post { thread_id: self.thread_id, message: WM_APP_HIDE, lparam: 0 }),
    {
        self.post(WM_APP_HIDE, 0)
    }

    /// Asks the thread to end.
    pub fn quit(&self) -> (p: Post)
        ensures
            p == (Post { thread_id: self.thread_id, message: WM_APP_QUIT, lparam: 0 }),
    {
        self.post(WM_APP_QUIT, 0)
    }
}

/// The thread's own messages are four different ones, and it takes each for what
/// it is.
pub proof fn messages_are_told_apart()
    ensures
        action_for(WM_APP_SHOW) == PumpAction::Show,
        action_for(WM_APP_HIDE) == PumpAction::Hide,
        action_for(WM_APP_REPAINT) == PumpAction::Repaint,
        action_for(WM_APP_QUIT) == PumpAction::Quit,
        forall|m: u32| m < WM_USER ==> action_for(m) == PumpAction::Dispatch,
{
}

/// A thread's own messages are the first four that a program may use: show, hide, quit and
/// repaint; every other goes to its window.
pub proof fn own_messages_are_the_first_four(m: u32)
    ensures
        action_for(m) == PumpAction::Show <==> m == 0x400,
        action_for(m) == PumpAction::Hide <==> m == 0x401,
        action_for(m) == PumpAction::Quit <==> m == 0x402,
        action_for(m) == PumpAction::Repaint <==> m == 0x403,
        action_for(m) == PumpAction::Dispatch <==> m < 0x400 || m > 0x403,
{
}

/// A thread runs exactly where it started and reported its number, and a failure says
/// which thread it was or what the thread itself said.
pub proof fn threads_report_their_number(
    name: Seq<char>,
    started: Result<(), Seq<char>>,
    report: Option<Result<u32, Seq<char>>>,
    id: u32,
    e: Seq<char>,
)
    ensures
        spawned(name, started, report) == Ok::<u32, Seq<char>>(id) <==> started is Ok && report
            == Some(Ok::<u32, Seq<char>>(id)),
        spawned(name, Err(e), report) == Err::<u32, Seq<char>>(name + ": "@ + e),
        spawned(name, Ok(()), Some(Err(e))) == Err::<u32, Seq<char>>(e),
        spawned(name, Ok(()), None) == Err::<u32, Seq<char>>(name + " exited before ready"@),
{
}

} // verus!

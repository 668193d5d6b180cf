//! A keyboard session: opening it, and what its opening can come to.

use vstd::prelude::*;

use crate::vk_ui::{VkAttach, VkUiThread};

verus! {

/// How long the system's own keyboard is kept away when a session opens on the
/// input desktop.
pub const OPEN_SUPPRESS_MS: u64 = 2000;

/// How long a session may take to become visible.
pub const OPEN_TIMEOUT_MS: u64 = 5000;

/// An open keyboard.
#[derive(Clone, Copy, Debug, PartialEq, Eq, Structural)]
pub struct VkSession {
    pub ui: Option<VkUiThread>,
}

/// What opening a session comes to: each step's error as it is, and a message of
/// its own when the window never appears.
pub open spec fn opening(
    thread: Result<VkUiThread, String>,
    show: Result<(), String>,
    visible: bool,
) -> Result<VkUiThread, Seq<char>> {
    match thread {
        Err(e) => Err(e@),
        Ok(ui) => match show {
            Err(e) => Err(e@),
            Ok(_) => if visible {
                Ok(ui)
            } else {
                Err("VK window did not become visible (desktop attach or Session 0 UI)"@)
            },
        },
    }
}

/// Whether the window has to be hidden again: it was shown and never appeared.
pub open spec fn hides_after(
    thread: Result<VkUiThread, String>,
    show: Result<(), String>,
    visible: bool,
) -> bool {
    thread is Ok && show is Ok && !visible
}

impl VkSession {
    /// How long the system's own keyboard is kept away.
    pub fn suppress_ms(attach: VkAttach) -> (ms: Option<u64>)
        ensures
            ms == (match attach {
                VkAttach::Input => Some(OPEN_SUPPRESS_MS),
                VkAttach::Current => None,
            }),
            ms matches Some(ms) ==> ms == 2000,
    {
        match attach {
            VkAttach::Input => Some(OPEN_SUPPRESS_MS),
            VkAttach::Current => None,
        }
    }

    /// Opens a session, given what starting the thread, asking it to show and
    /// waiting for the window came to. The flag says to hide the window again.
    pub fn open(
        thread: Result<VkUiThread, String>,
        show: Result<(), String>,
        visible: bool,
    ) -> (r: (Result<Self, String>, bool))
        ensures
            match (r.0, opening(thread, show, visible)) {
                (Ok(s), Ok(ui)) => s.ui == Some(ui),
                (Err(e), Err(f)) => e@ == f,
                _ => false,
            },
            r.1 == hides_after(thread, show, visible),
    {
        match thread {
            Err(e) => (Err(e), false),
            Ok(ui) => match show {
                Err(e) => (Err(e), false),
                Ok(_) => if visible {
                    (Ok(VkSession { ui: Some(ui) }), false)
                } else {
                    (
                        Err(
                            "VK window did not become visible (desktop attach or Session 0 UI)".to_owned(),
                        ),
                        true,
                    )
                },
            },
        }
    }

    pub fn describe(&self) -> (out: &'static str)
        ensures
            out@ == "WarmupXboxVkWindow (native UI)"@,
    {
        "WarmupXboxVkWindow (native UI)"
    }

    /// Closes the session: the thread to hide and end, the first time.
    pub fn close(&mut self) -> (ui: Option<VkUiThread>)
        ensures
            ui == old(self).ui,
            final(self).ui is None,
    {
        let ui: Option<VkUiThread> = self.ui;
        self.ui = None;
        ui
    }
}

/// A session opens exactly where its thread starts, takes the request and shows its
/// window; the first step that fails is the one that is reported, and only a window that was
/// asked for and never appeared is hidden again.
pub proof fn sessions_open_step_by_step(
    thread: Result<VkUiThread, String>,
    show: Result<(), String>,
    visible: bool,
)
    ensures
        opening(thread, show, visible) is Ok <==> thread is Ok && show is Ok && visible,
        opening(thread, show, visible) matches Ok(ui) ==> thread == Ok::<VkUiThread, String>(ui),
        thread matches Err(e) ==> opening(thread, show, visible) == Err::<VkUiThread, Seq<char>>(
            e@,
        ),
        thread is Ok && show is Err ==> opening(thread, show, visible) == Err::<
            VkUiThread,
            Seq<char>,
        >(show->Err_0@),
        hides_after(thread, show, visible) ==> opening(thread, show, visible) is Err,
        hides_after(thread, show, visible) <==> thread is Ok && show is Ok && !visible,
{
}

} // verus!

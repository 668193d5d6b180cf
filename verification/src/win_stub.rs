//! What the desktop functions answer where there is no Windows.

use vstd::prelude::*;

verus! {

/// No desktop can be attached.
pub fn attach_named(_name: &str) -> (r: Result<(), String>)
    ensures
        r matches Err(e) && e@ == "real desktop attach requires Windows"@,
{
    Err("real desktop attach requires Windows".to_owned())
}

/// No input desktop can be attached either.
pub fn attach_input() -> (r: Result<(), String>)
    ensures
        r matches Err(e) && e@ == "real desktop attach requires Windows"@,
{
    Err("real desktop attach requires Windows".to_owned())
}

/// There is no current desktop.
pub fn current_desktop_name() -> (r: Option<String>)
    ensures
        r is None,
{
    None
}

/// A keyboard session; none is ever opened.
#[derive(Debug)]
pub struct VkSession;

pub enum VkAttach {
    Current,
    Input,
}

impl VkSession {
    /// Opening a session always fails.
    pub fn open(_attach: VkAttach) -> (r: Result<Self, String>)
        ensures
            r matches Err(e) && e@ == "real on-screen keyboard requires Windows"@,
    {
        Err("real on-screen keyboard requires Windows".to_owned())
    }

    pub fn describe(&self) -> (out: &'static str)
        ensures
            out@ == "n/a"@,
    {
        "n/a"
    }

    pub fn close(self) {
    }
}

} // verus!

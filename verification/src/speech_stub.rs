//! What dictation answers in a program that was built without it.

use vstd::prelude::*;

verus! {

/// There is no server to run.
pub fn run_parakeet_server() -> (r: Result<(), String>)
    ensures
        r matches Err(e) && e@ == "speech support not built into this binary"@,
{
    Err("speech support not built into this binary".to_owned())
}

pub fn parakeet_server_up() -> (r: bool)
    ensures
        !r,
{
    false
}

pub fn available() -> (r: bool)
    ensures
        !r,
{
    false
}

pub fn list_mics() -> (r: Vec<String>)
    ensures
        r@.len() == 0,
{
    Vec::new()
}

pub fn mic_choice() -> (r: Option<String>)
    ensures
        r is None,
{
    None
}

/// The engine is always the first.
pub fn engine() -> (r: String)
    ensures
        r@ == "whisper"@,
{
    "whisper".to_owned()
}

pub fn parakeet_available() -> (r: bool)
    ensures
        !r,
{
    false
}

pub fn current_phase() -> (r: Option<String>)
    ensures
        r is None,
{
    None
}

/// There is nothing to record with.
pub fn run_blocking() -> (r: Result<(), String>)
    ensures
        r matches Err(e) && e@ == "speech feature not built into this binary"@,
{
    Err("speech feature not built into this binary".to_owned())
}

/// The second engine's server is not there.
pub fn server_up() -> (r: bool)
    ensures
        !r,
{
    false
}

pub fn wait_ready() -> (r: Result<(), String>)
    ensures
        r matches Err(e) && e@ == "parakeet engine not built into this binary"@,
{
    Err("parakeet engine not built into this binary".to_owned())
}

/// A recording, by the bits of its samples, is not transcribed.
pub fn transcribe_via_server(_samples: &[u32]) -> (r: Result<String, String>)
    ensures
        r matches Err(e) && e@ == "parakeet engine not built into this binary"@,
{
    Err("parakeet engine not built into this binary".to_owned())
}

pub fn serve() -> (r: Result<(), String>)
    ensures
        r matches Err(e) && e@ == "parakeet engine not built into this binary"@,
{
    Err("parakeet engine not built into this binary".to_owned())
}

} // verus!

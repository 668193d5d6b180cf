//! Attaching to a desktop, and reading its name.

use vstd::prelude::*;

use crate::text::{concat2, concat3, put, same_str};

verus! {

/// The capacity, in UTF-16 units, of the buffer that a name is read into.
pub const NAME_CAPACITY: usize = 256;

/// The desktops that can be attached by name.
pub open spec fn known(name: Seq<char>) -> bool {
    name == "default"@ || name == "winlogon"@
}

/// Whether the named desktop may be attached, or why not.
pub fn attach_named(name: &str) -> (r: Result<(), String>)
    ensures
        r is Ok <==> known(name@),
        r matches Err(e) ==> e@ == "unknown desktop: "@ + name@,
{
    if same_str(name, "default") || same_str(name, "winlogon") {
        Ok(())
    } else {
        Err(concat2("unknown desktop: ", name))
    }
}

/// How many UTF-16 units a name has, its terminator left out, when the system
/// reports that it takes `needed` bytes.
pub fn name_len(needed: u32) -> (n: usize)
    ensures
        n == ({
            let units: int = if needed / 2 < NAME_CAPACITY {
                (needed / 2) as int
            } else {
                NAME_CAPACITY as int
            };
            if units > 0 {
                units - 1
            } else {
                0
            }
        }),
        n < NAME_CAPACITY,
        n <= 255,
        needed >= 512 ==> n == 255,
        2 <= needed < 512 ==> n == needed / 2 - 1,
{
    let units: usize = (needed / 2) as usize;
    let units: usize = if units < NAME_CAPACITY {
        units
    } else {
        NAME_CAPACITY
    };
    if units > 0 {
        units - 1
    } else {
        0
    }
}

/// The steps of attaching to a desktop.
#[derive(Clone, Copy, Debug, PartialEq, Eq, Structural)]
pub enum AttachStep {
    OpenStation,
    OpenNamed,
    OpenInput,
    SetStation,
    SetDesktop,
}

/// What is reported when a step fails.
pub open spec fn attach_failure(step: AttachStep, name: Seq<char>, e: Seq<char>) -> Seq<char> {
    match step {
        AttachStep::OpenStation => "OpenWindowStationW: "@ + e,
        AttachStep::OpenNamed => "OpenDesktopW("@ + name + "): "@ + e,
        AttachStep::OpenInput => "OpenInputDesktop: "@ + e,
        AttachStep::SetStation => "SetProcessWindowStation: "@ + e,
        AttachStep::SetDesktop => "SetThreadDesktop: "@ + e,
    }
}

/// `attach_failure`, computed.
pub fn attach_error(step: AttachStep, name: &str, e: &str) -> (out: String)
    ensures
        out@ == attach_failure(step, name@, e@),
{
    match step {
        AttachStep::OpenStation => concat2("OpenWindowStationW: ", e),
        AttachStep::OpenNamed => {
            let mut out = concat3("OpenDesktopW(", name, "): ");
            put(&mut out, e);
            out
        },
        AttachStep::OpenInput => concat2("OpenInputDesktop: ", e),
        AttachStep::SetStation => concat2("SetProcessWindowStation: ", e),
        AttachStep::SetDesktop => concat2("SetThreadDesktop: ", e),
    }
}

/// The handles that keep a thread attached: its window station and its desktop.
#[derive(Clone, Copy, Debug, PartialEq, Eq, Structural)]
pub struct DesktopGuard {
    pub station: u64,
    pub desktop: u64,
}

/// Holds the handles of a desktop that was just attached, and gives back those
/// of the one before it, which may now be closed.
pub fn apply_guard(active: &mut Option<DesktopGuard>, guard: DesktopGuard) -> (closing: Option<
    DesktopGuard,
>)
    ensures
        *final(active) == Some(guard),
        closing == *old(active),
{
    let before: Option<DesktopGuard> = *active;
    *active = Some(guard);
    before
}

/// The name of the desktop that receives input, given what opening the window
/// station and then the desktop came to, and what reading its name gave; an
/// unreadable name is `?`.
pub fn input_desktop_name(
    station: Result<(), String>,
    opened: Result<Option<String>, String>,
) -> (r: Result<String, String>)
    ensures
        match (station, opened) {
            (Err(e), _) => r matches Err(f) && f@ == attach_failure(
                AttachStep::OpenStation,
                ""@,
                e@,
            ),
            (Ok(_), Err(e)) => r matches Err(f) && f@ == attach_failure(
                AttachStep::OpenInput,
                ""@,
                e@,
            ),
            (Ok(_), Ok(Some(name))) => r == Ok::<String, String>(name),
            (Ok(_), Ok(None)) => r matches Ok(name) && name@ == "?"@,
        },
{
    match station {
        Err(e) => Err(attach_error(AttachStep::OpenStation, "", e.as_str())),
        Ok(_) => match opened {
            Err(e) => Err(attach_error(AttachStep::OpenInput, "", e.as_str())),
            Ok(Some(name)) => Ok(name),
            Ok(None) => Ok("?".to_owned()),
        },
    }
}

/// Only the user's desktop and the secure one can be attached by name, and their names are
/// written in small letters.
pub proof fn two_desktops_have_names(name: Seq<char>)
    ensures
        known(name) <==> name == seq!['d', 'e', 'f', 'a', 'u', 'l', 't'] || name == seq![
            'w',
            'i',
            'n',
            'l',
            'o',
            'g',
            'o',
            'n',
        ],
{
    reveal_strlit("default");
    reveal_strlit("winlogon");
    assert("default"@ =~= seq!['d', 'e', 'f', 'a', 'u', 'l', 't']);
    assert("winlogon"@ =~= seq!['w', 'i', 'n', 'l', 'o', 'g', 'o', 'n']);
}

/// What is reported of a failed step ends with what the system said, and names the desktop
/// only where a named one was to be opened.
pub proof fn failures_quote_the_system(step: AttachStep, name: Seq<char>, other: Seq<char>, e: Seq<char>)
    ensures
        attach_failure(step, name, e).len() >= e.len(),
        attach_failure(step, name, e).subrange(
            attach_failure(step, name, e).len() - e.len(),
            attach_failure(step, name, e).len() as int,
        ) == e,
        step != AttachStep::OpenNamed ==> attach_failure(step, name, e) == attach_failure(
            step,
            other,
            e,
        ),
        attach_failure(AttachStep::OpenNamed, name, e) == "OpenDesktopW("@ + name + "): "@ + e,
{
    let f = attach_failure(step, name, e);
    assert(f.subrange(f.len() - e.len(), f.len() as int) =~= e);
}

} // verus!

//! Which input desktop is in play: the user's own, or the secure one.

use vstd::prelude::*;

use crate::text;
use crate::text::same_ignoring_case;

verus! {

/// The input surface.
#[derive(Clone, Copy, Debug, PartialEq, Eq, Structural)]
pub enum Surface {
    /// The default interactive desktop.
    Userland,
    /// The secure desktop: sign-in, lock and elevation prompts.
    Winlogon,
}

/// The secure desktop is the one named "winlogon", in any case; every other
/// desktop is the user's.
pub open spec fn surface_of(desktop_name: Seq<char>) -> Surface {
    if text::ascii_equal(desktop_name, "winlogon"@) {
        Surface::Winlogon
    } else {
        Surface::Userland
    }
}

impl Surface {
    pub fn is_winlogon(self) -> (r: bool)
        ensures
            r == (self == Surface::Winlogon),
    {
        matches!(self, Surface::Winlogon)
    }

    pub fn is_userland(self) -> (r: bool)
        ensures
            r == (self == Surface::Userland),
    {
        matches!(self, Surface::Userland)
    }
}

/// Classifies a desktop name.
pub fn classify(desktop_name: &str) -> (s: Surface)
    ensures
        s == surface_of(desktop_name@),
{
    if same_ignoring_case(desktop_name, "winlogon") {
        Surface::Winlogon
    } else {
        Surface::Userland
    }
}

/// The surface of the desktop that receives user input, given what probing for
/// its name returned; unknown when the probe failed.
pub fn input(probe: &Result<String, String>) -> (s: Option<Surface>)
    ensures
        s == (match *probe {
            Ok(name) => Some(surface_of(name@)),
            Err(_) => None::<Surface>,
        }),
{
    match probe {
        Ok(name) => Some(classify(name.as_str())),
        Err(_) => None,
    }
}

/// The surface of the desktop a thread is attached to, given its name where it
/// is known.
pub fn thread(name: &Option<String>) -> (s: Option<Surface>)
    ensures
        s == (match *name {
            Some(n) => Some(surface_of(n@)),
            None => None::<Surface>,
        }),
{
    match name {
        Some(n) => Some(classify(n.as_str())),
        None => None,
    }
}

/// The case of a desktop name does not matter.
pub proof fn classification_ignores_case(a: Seq<char>, b: Seq<char>)
    requires
        text::ascii_equal(a, b),
    ensures
        surface_of(a) == surface_of(b),
{
}

/// The desktop named `Winlogon`, however its letters are written, is the secure one, and
/// no other is.
pub proof fn only_winlogon_is_secure(name: Seq<char>)
    ensures
        surface_of(name) == Surface::Winlogon <==> name.len() == 8 && (name[0] == 'w' || name[0]
            == 'W') && (name[1] == 'i' || name[1] == 'I') && (name[2] == 'n' || name[2] == 'N') && (
        name[3] == 'l' || name[3] == 'L') && (name[4] == 'o' || name[4] == 'O') && (name[5] == 'g'
            || name[5] == 'G') && (name[6] == 'o' || name[6] == 'O') && (name[7] == 'n' || name[7]
            == 'N'),
{
    reveal_strlit("winlogon");
    let low = text::ascii_lower_all(name);
    let want = text::ascii_lower_all("winlogon"@);
    assert(want =~= "winlogon"@);
    if low == want {
        assert(name.len() == low.len());
        assert(low[0] == 'w' && low[1] == 'i' && low[2] == 'n' && low[3] == 'l' && low[4] == 'o'
            && low[5] == 'g' && low[6] == 'o' && low[7] == 'n');
    } else if name.len() == 8 {
        if low[0] == 'w' && low[1] == 'i' && low[2] == 'n' && low[3] == 'l' && low[4] == 'o'
            && low[5] == 'g' && low[6] == 'o' && low[7] == 'n' {
            assert(low =~= want);
        }
    }
}

} // verus!

//! What the renderer decides when it sets up its device, its fonts and its size.

use vstd::prelude::*;

use crate::keys::VkStyle;
use crate::monitor;
use crate::monitor::ScreenRect;
use crate::text::concat2;

verus! {

/// A kind of graphics driver.
#[derive(Clone, Copy, Debug, PartialEq, Eq, Structural)]
pub enum Driver {
    Hardware,
    /// The software rasteriser.
    Warp,
}

/// What trying a driver came to.
#[derive(Debug)]
pub enum DeviceAttempt {
    Created,
    /// The call succeeded and gave nothing.
    Null,
    Failed(String),
}

/// The drivers in the order in which they are tried: software first where the
/// vendor's driver cannot be trusted.
pub open spec fn order_of(prefer_warp: bool) -> Seq<Driver> {
    if prefer_warp {
        seq![Driver::Warp, Driver::Hardware]
    } else {
        seq![Driver::Hardware, Driver::Warp]
    }
}

/// `order_of`, computed.
pub fn driver_order(prefer_warp: bool) -> (order: [Driver; 2])
    ensures
        order@ == order_of(prefer_warp),
{
    if prefer_warp {
        let order: [Driver; 2] = [Driver::Warp, Driver::Hardware];
        assert(order@ =~= order_of(prefer_warp));
        order
    } else {
        let order: [Driver; 2] = [Driver::Hardware, Driver::Warp];
        assert(order@ =~= order_of(prefer_warp));
        order
    }
}

/// What is said of the last attempt.
pub open spec fn last_failure(attempts: Seq<DeviceAttempt>) -> Seq<char> {
    if attempts.len() == 0 {
        "no driver attempted"@
    } else {
        match attempts.last() {
            DeviceAttempt::Failed(e) => e@,
            _ => "D3D11CreateDevice returned null"@,
        }
    }
}

/// The first attempt that gave a device.
pub open spec fn first_created(attempts: Seq<DeviceAttempt>, i: int) -> bool {
    &&& 0 <= i < attempts.len()
    &&& attempts[i] is Created
    &&& forall|k: int| 0 <= k < i ==> !(#[trigger] attempts[k] is Created)
}

/// The driver that gave a device, or why none did, given what trying them in
/// order came to.
pub fn create_d3d_device(prefer_warp: bool, attempts: &Vec<DeviceAttempt>) -> (r: Result<
    Driver,
    String,
>)
    requires
        attempts@.len() <= 2,
    ensures
        match r {
            Ok(d) => exists|i: int| #[trigger] first_created(attempts@, i) && d == order_of(
                prefer_warp,
            )[i],
            Err(e) => (forall|i: int|
                0 <= i < attempts@.len() ==> !(#[trigger] attempts@[i] is Created)) && e@
                == "D3D11CreateDevice (all driver types): "@ + last_failure(attempts@),
        },
{
    let order = driver_order(prefer_warp);
    let mut i: usize = 0;
    while i < attempts.len()
        invariant
            i <= attempts.len() <= 2,
            order@ == order_of(prefer_warp),
            forall|k: int| 0 <= k < i ==> !(#[trigger] attempts@[k] is Created),
        decreases attempts.len() - i,
    {
        if matches!(attempts[i], DeviceAttempt::Created) {
            assert(first_created(attempts@, i as int));
            return Ok(order[i]);
        }
        i += 1;
    }
    if attempts.len() == 0 {
        return Err(concat2("D3D11CreateDevice (all driver types): ", "no driver attempted"));
    }
    match &attempts[attempts.len() - 1] {
        DeviceAttempt::Failed(e) => Err(
            concat2("D3D11CreateDevice (all driver types): ", e.as_str()),
        ),
        _ => Err(
            concat2("D3D11CreateDevice (all driver types): ", "D3D11CreateDevice returned null"),
        ),
    }
}

/// The size of a client area: no edge is shorter than a pixel.
pub open spec fn size_of_client(r: ScreenRect) -> (u32, u32) {
    (
        monitor::max(monitor::width(r), 1) as u32,
        monitor::max(monitor::height(r), 1) as u32,
    )
}

/// `size_of_client`, computed.
pub fn client_size(r: &ScreenRect) -> (s: (u32, u32))
    ensures
        s == size_of_client(*r),
{
    let w: i64 = r.right as i64 - r.left as i64;
    let h: i64 = r.bottom as i64 - r.top as i64;
    let w: i64 = if w >= 1 {
        w
    } else {
        1
    };
    let h: i64 = if h >= 1 {
        h
    } else {
        1
    };
    (w as u32, h as u32)
}

/// Whether the buffers have to be resized, and to what.
pub fn resize(current: (u32, u32), client: &ScreenRect) -> (r: Option<(u32, u32)>)
    ensures
        r == (if size_of_client(*client) == current {
            None
        } else {
            Some(size_of_client(*client))
        }),
{
    let s = client_size(client);
    if s.0 == current.0 && s.1 == current.1 {
        None
    } else {
        Some(s)
    }
}

/// How many units of the buffer hold the user's locale name, its terminator left
/// out; none when the system gave no name, and "en-US" is used.
pub fn locale_units(len: i32) -> (n: Option<usize>)
    ensures
        n == (if len > 1 {
            Some((len - 1) as usize)
        } else {
            None
        }),
{
    if len > 1 {
        Some((len - 1) as usize)
    } else {
        None
    }
}

/// The font families of a look, best first.
pub fn families(style: VkStyle) -> (names: Vec<&'static str>)
    ensures
        match style {
            VkStyle::Refined => names@.len() == 2 && names@[0]@ == "Noto Sans"@ && names@[1]@
                == "Segoe UI"@,
            VkStyle::Apple => names@.len() == 4 && names@[0]@ == "Inter"@ && names@[1]@
                == "SF Pro Text"@ && names@[2]@ == "Segoe UI Variable Text"@ && names@[3]@
                == "Segoe UI"@,
        },
{
    let mut names: Vec<&'static str> = Vec::new();
    match style {
        VkStyle::Refined => {
            names.push("Noto Sans");
            names.push("Segoe UI");
        },
        VkStyle::Apple => {
            names.push("Inter");
            names.push("SF Pro Text");
            names.push("Segoe UI Variable Text");
            names.push("Segoe UI");
        },
    }
    names
}

/// The first family that is installed.
pub open spec fn resolved(names: Seq<&'static str>, installed: Seq<bool>) -> Seq<char>
    decreases names.len(),
{
    if names.len() == 0 || installed.len() == 0 {
        "Segoe UI"@
    } else if installed[0] {
        names[0]@
    } else {
        resolved(names.skip(1), installed.skip(1))
    }
}

/// `resolved`, computed.
pub fn resolve_family(names: &Vec<&'static str>, installed: &Vec<bool>) -> (out: &'static str)
    ensures
        out@ == resolved(names@, installed@),
{
    let mut i: usize = 0;
    assert(names@.skip(0) =~= names@);
    assert(installed@.skip(0) =~= installed@);
    while i < names.len() && i < installed.len()
        invariant
            i <= names.len(),
            i <= installed.len(),
            resolved(names@, installed@) == resolved(
                names@.skip(i as int),
                installed@.skip(i as int),
            ),
        decreases names.len() - i,
    {
        if installed[i] {
            return names[i];
        }
        assert(names@.skip(i as int).skip(1) =~= names@.skip(i + 1));
        assert(installed@.skip(i as int).skip(1) =~= installed@.skip(i + 1));
        i += 1;
    }
    "Segoe UI"
}

/// Whether the fonts made for a look and a key size can be used again.
pub fn fonts_are_current(made: Option<(VkStyle, i32)>, style: VkStyle, size_key: i32) -> (r: bool)
    ensures
        r == (made == Some((style, size_key))),
{
    match made {
        Some((s, k)) => s == style && k == size_key,
        None => false,
    }
}

/// Both drivers are tried, each once, and the software one first exactly where it is
/// preferred.
pub proof fn both_drivers_are_tried(prefer_warp: bool)
    ensures
        order_of(prefer_warp).len() == 2,
        order_of(prefer_warp)[0] == Driver::Warp <==> prefer_warp,
        order_of(prefer_warp)[1] == Driver::Hardware <==> prefer_warp,
{
}

/// A client area has its own width and height, and one pixel where it has none.
pub proof fn client_areas_have_pixels(r: ScreenRect)
    ensures
        size_of_client(r).0 == (if r.right > r.left {
            r.right - r.left
        } else {
            1
        }),
        size_of_client(r).1 == (if r.bottom > r.top {
            r.bottom - r.top
        } else {
            1
        }),
{
}

/// The first of the families that is installed is used, and `Segoe UI` where none is.
pub proof fn the_first_installed_family_is_used(
    names: Seq<&'static str>,
    installed: Seq<bool>,
    i: int,
)
    requires
        names.len() == installed.len(),
        0 <= i <= names.len(),
        forall|k: int| 0 <= k < i ==> !#[trigger] installed[k],
        i < installed.len() ==> installed[i],
    ensures
        i < names.len() ==> resolved(names, installed) == names[i]@,
        i == names.len() ==> resolved(names, installed) == "Segoe UI"@,
    decreases names.len(),
{
    if i > 0 {
        assert(!installed[0]);
        assert forall|k: int| 0 <= k < i - 1 implies !#[trigger] installed.skip(1)[k] by {
            assert(!installed[k + 1]);
        }
        the_first_installed_family_is_used(names.skip(1), installed.skip(1), i - 1);
    }
}

/// What is said of a failure is what the last driver said, or that it gave nothing.
pub proof fn the_last_driver_is_quoted(attempts: Seq<DeviceAttempt>, e: String)
    ensures
        last_failure(attempts.push(DeviceAttempt::Failed(e))) == e@,
        last_failure(attempts.push(DeviceAttempt::Null)) == "D3D11CreateDevice returned null"@,
        last_failure(Seq::empty()) == "no driver attempted"@,
{
}

} // verus!

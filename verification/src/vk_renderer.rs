//! What the keyboard shows: palettes, icons, the face of each key, and the
//! controller artwork. Geometry and drawing are the caller's.

use vstd::prelude::*;

use crate::keys::{
    KeyAction, VkStyle, VK_BACK, VK_DOWN, VK_LEFT, VK_RETURN, VK_RIGHT, VK_SPACE, VK_UP,
};
use crate::text;
use crate::text::{
    chars_of, contains_str, lower_chars, push_hex_byte_upper, replace_all, same_str,
};
use crate::vk_icons;
use crate::vk_icons::VkIcon;

verus! {

/// `0xRRGGBB` as a GDI colour, whose bytes are in the opposite order.
pub open spec fn gdi(v: u32) -> u32 {
    ((v % 256) * 0x1_0000 + (v / 256 % 256) * 256 + v / 0x1_0000 % 256) as u32
}

/// `gdi`, computed.
pub fn rgb(v: u32) -> (c: u32)
    ensures
        c == gdi(v),
        c < 0x100_0000,
{
    (v % 256) * 0x1_0000 + (v / 256 % 256) * 256 + v / 0x1_0000 % 256
}

/// Swapping the byte order twice gives the colour back.
pub proof fn rgb_is_its_own_inverse(v: u32)
    requires
        v < 0x100_0000,
    ensures
        gdi(gdi(v)) == v,
{
}

/// A GDI colour as `#RRGGBB`.
pub open spec fn hex_color(c: u32) -> Seq<char> {
    "#"@ + text::hex_byte_upper((c % 256) as u8) + text::hex_byte_upper((c / 256 % 256) as u8)
        + text::hex_byte_upper((c / 0x1_0000 % 256) as u8)
}

/// `hex_color`, computed.
pub fn colorref_hex(c: u32) -> (out: String)
    ensures
        out@ == hex_color(c),
{
    let mut out: String = "#".to_owned();
    push_hex_byte_upper(&mut out, (c % 256) as u8);
    push_hex_byte_upper(&mut out, (c / 256 % 256) as u8);
    push_hex_byte_upper(&mut out, (c / 0x1_0000 % 256) as u8);
    out
}

/// A drawing's text with its placeholder colour replaced by a GDI colour.
pub fn recolored_svg(svg: &str, color: u32) -> (out: String)
    ensures
        out@ == text::replaced(svg@, "currentColor"@, hex_color(color)),
{
    proof {
        reveal_strlit("currentColor");
    }
    replace_all(svg, "currentColor", colorref_hex(color).as_str())
}

/// The colours of the keyboard, as GDI colours.
#[derive(Clone, Copy, Debug, PartialEq, Eq, Structural)]
pub struct VkPalette {
    pub bg: u32,
    pub key: u32,
    pub key_action: u32,
    pub accent: u32,
    pub sel_ring: u32,
    pub text: u32,
    pub text_dim: u32,
    pub sel_text: u32,
    pub border: u32,
    pub panel_stroke: u32,
    /// Opacity of the panel's stroke, in 255ths.
    pub panel_stroke_alpha: u8,
    pub chip_sel: u32,
}

/// The palette of each look.
pub open spec fn palette_of(style: VkStyle, dark: bool) -> VkPalette {
    match (style, dark) {
        (VkStyle::Refined, true) => VkPalette {
            bg: gdi(0x15161C),
            key: gdi(0x2A2B36),
            key_action: gdi(0x1F2029),
            accent: gdi(0xA6D1FF),
            sel_ring: gdi(0xDCEBFF),
            text: gdi(0xFFFFFF),
            text_dim: gdi(0xFFFFFF),
            sel_text: gdi(0x1A2233),
            border: gdi(0x3A3B47),
            panel_stroke: gdi(0xFFFFFF),
            panel_stroke_alpha: 0x12,
            chip_sel: gdi(0x3A3C4A),
        },
        (VkStyle::Refined, false) => VkPalette {
            bg: gdi(0xF3F4F7),
            key: gdi(0xFFFFFF),
            key_action: gdi(0xE3E5EB),
            accent: gdi(0x0E80C7),
            sel_ring: gdi(0x7CC0EA),
            text: gdi(0x111217),
            text_dim: gdi(0x111217),
            sel_text: gdi(0xFFFFFF),
            border: gdi(0xD3D6DE),
            panel_stroke: gdi(0x000000),
            panel_stroke_alpha: 0x12,
            chip_sel: gdi(0xDADDE5),
        },
        (VkStyle::Apple, true) => VkPalette {
            bg: gdi(0x1C1C1E),
            key: gdi(0x3A3A3C),
            key_action: gdi(0x2C2C2E),
            accent: gdi(0xC9BCFF),
            sel_ring: gdi(0xB6A0FF),
            text: gdi(0xFFFFFF),
            text_dim: gdi(0xEBEBF5),
            sel_text: gdi(0x211047),
            border: gdi(0x545458),
            panel_stroke: gdi(0xFFFFFF),
            panel_stroke_alpha: 0x14,
            chip_sel: gdi(0x3A3A3C),
        },
        (VkStyle::Apple, false) => VkPalette {
            bg: gdi(0xD1D3D9),
            key: gdi(0xFFFFFF),
            key_action: gdi(0xABB0BA),
            accent: gdi(0x7E6AD8),
            sel_ring: gdi(0x7E6AD8),
            text: gdi(0x000000),
            text_dim: gdi(0x3C3C43),
            sel_text: gdi(0xFFFFFF),
            border: gdi(0x3C3C43),
            panel_stroke: gdi(0x000000),
            panel_stroke_alpha: 0x14,
            chip_sel: gdi(0xFFFFFF),
        },
    }
}

/// `palette_of`, computed.
pub fn style_palette(style: VkStyle, dark: bool) -> (p: VkPalette)
    ensures
        p == palette_of(style, dark),
{
    match (style, dark) {
        (VkStyle::Refined, true) => VkPalette {
            bg: rgb(0x15161C),
            key: rgb(0x2A2B36),
            key_action: rgb(0x1F2029),
            accent: rgb(0xA6D1FF),
            sel_ring: rgb(0xDCEBFF),
            text: rgb(0xFFFFFF),
            text_dim: rgb(0xFFFFFF),
            sel_text: rgb(0x1A2233),
            border: rgb(0x3A3B47),
            panel_stroke: rgb(0xFFFFFF),
            panel_stroke_alpha: 0x12,
            chip_sel: rgb(0x3A3C4A),
        },
        (VkStyle::Refined, false) => VkPalette {
            bg: rgb(0xF3F4F7),
            key: rgb(0xFFFFFF),
            key_action: rgb(0xE3E5EB),
            accent: rgb(0x0E80C7),
            sel_ring: rgb(0x7CC0EA),
            text: rgb(0x111217),
            text_dim: rgb(0x111217),
            sel_text: rgb(0xFFFFFF),
            border: rgb(0xD3D6DE),
            panel_stroke: rgb(0x000000),
            panel_stroke_alpha: 0x12,
            chip_sel: rgb(0xDADDE5),
        },
        (VkStyle::Apple, true) => VkPalette {
            bg: rgb(0x1C1C1E),
            key: rgb(0x3A3A3C),
            key_action: rgb(0x2C2C2E),
            accent: rgb(0xC9BCFF),
            sel_ring: rgb(0xB6A0FF),
            text: rgb(0xFFFFFF),
            text_dim: rgb(0xEBEBF5),
            sel_text: rgb(0x211047),
            border: rgb(0x545458),
            panel_stroke: rgb(0xFFFFFF),
            panel_stroke_alpha: 0x14,
            chip_sel: rgb(0x3A3A3C),
        },
        (VkStyle::Apple, false) => VkPalette {
            bg: rgb(0xD1D3D9),
            key: rgb(0xFFFFFF),
            key_action: rgb(0xABB0BA),
            accent: rgb(0x7E6AD8),
            sel_ring: rgb(0x7E6AD8),
            text: rgb(0x000000),
            text_dim: rgb(0x3C3C43),
            sel_text: rgb(0xFFFFFF),
            border: rgb(0x3C3C43),
            panel_stroke: rgb(0x000000),
            panel_stroke_alpha: 0x14,
            chip_sel: rgb(0xFFFFFF),
        },
    }
}

/// How suggestions are laid out.
#[derive(Clone, Copy, Debug, PartialEq, Eq, Structural)]
pub enum StripLook {
    Pills,
    Columns,
}

pub open spec fn strip_look_of(style: VkStyle) -> StripLook {
    match style {
        VkStyle::Refined => StripLook::Pills,
        VkStyle::Apple => StripLook::Columns,
    }
}

/// How a look lays suggestions out.
pub fn strip_look(style: VkStyle) -> (l: StripLook)
    ensures
        l == strip_look_of(style),
{
    match style {
        VkStyle::Refined => StripLook::Pills,
        VkStyle::Apple => StripLook::Columns,
    }
}

/// How many suggestions a look shows.
pub fn strip_slots(style: VkStyle) -> (n: usize)
    ensures
        n == (match style {
            VkStyle::Refined => 7usize,
            VkStyle::Apple => 3usize,
        }),
{
    match style {
        VkStyle::Refined => 7,
        VkStyle::Apple => 3,
    }
}

/// Modifier state for one frame.
#[derive(Clone, Copy, Debug, PartialEq, Eq, Structural)]
pub struct VkModifiers {
    pub shift: bool,
    pub caps: bool,
}

/// What the voice helper is doing.
#[derive(Clone, Copy, Debug, PartialEq, Eq, Structural)]
pub enum VoicePhase {
    Starting,
    Listening,
    Transcribing,
}

pub open spec fn shift_icon_of(shift: bool) -> VkIcon {
    if shift {
        VkIcon::CapsFilled
    } else {
        VkIcon::Caps
    }
}

/// The drawing on the Shift key.
pub fn shift_icon(shift: bool) -> (icon: VkIcon)
    ensures
        icon == shift_icon_of(shift),
{
    if shift {
        VkIcon::CapsFilled
    } else {
        VkIcon::Caps
    }
}

/// The drawing for sticky capitals.
pub fn caps_icon(caps: bool) -> (icon: VkIcon)
    ensures
        icon == (if caps { VkIcon::ShiftFilled } else { VkIcon::Shift }),
{
    if caps {
        VkIcon::ShiftFilled
    } else {
        VkIcon::Shift
    }
}

/// Whether a key has the look of an action key: everything but characters and
/// the space bar.
pub open spec fn is_action(action: KeyAction) -> bool {
    match action {
        KeyAction::Char(_) => false,
        KeyAction::Vk(vk) => vk != VK_SPACE,
        _ => true,
    }
}

pub fn is_action_key(action: &KeyAction) -> (r: bool)
    ensures
        r == is_action(*action),
{
    match action {
        KeyAction::Char(_) => false,
        KeyAction::Vk(vk) => *vk != VK_SPACE,
        _ => true,
    }
}

/// The drawing on a key that has one, and whether it is drawn large.
pub open spec fn icon_of(action: KeyAction, shift: bool) -> Option<(VkIcon, bool)> {
    match action {
        KeyAction::Vk(vk) => if vk == VK_BACK {
            Some((VkIcon::Backspace, true))
        } else if vk == VK_RETURN {
            Some((VkIcon::Enter, true))
        } else if vk == VK_LEFT {
            Some((VkIcon::ChevronLeft, false))
        } else if vk == VK_RIGHT {
            Some((VkIcon::ChevronRight, false))
        } else if vk == VK_UP {
            Some((VkIcon::ChevronUp, false))
        } else if vk == VK_DOWN {
            Some((VkIcon::ChevronDown, false))
        } else {
            None
        },
        KeyAction::PredictPrev => Some((VkIcon::ChevronLeft, false)),
        KeyAction::PredictNext => Some((VkIcon::ChevronRight, false)),
        KeyAction::Shift => Some((shift_icon_of(shift), false)),
        _ => None,
    }
}

/// `icon_of`, computed.
pub fn key_icon(action: &KeyAction, shift: bool) -> (r: Option<(VkIcon, bool)>)
    ensures
        r == icon_of(*action, shift),
{
    match action {
        KeyAction::Vk(vk) => if *vk == VK_BACK {
            Some((VkIcon::Backspace, true))
        } else if *vk == VK_RETURN {
            Some((VkIcon::Enter, true))
        } else if *vk == VK_LEFT {
            Some((VkIcon::ChevronLeft, false))
        } else if *vk == VK_RIGHT {
            Some((VkIcon::ChevronRight, false))
        } else if *vk == VK_UP {
            Some((VkIcon::ChevronUp, false))
        } else if *vk == VK_DOWN {
            Some((VkIcon::ChevronDown, false))
        } else {
            None
        },
        KeyAction::PredictPrev => Some((VkIcon::ChevronLeft, false)),
        KeyAction::PredictNext => Some((VkIcon::ChevronRight, false)),
        KeyAction::Shift => Some((shift_icon(shift), false)),
        _ => None,
    }
}

/// Controller artwork.
#[derive(Clone, Copy, Debug, PartialEq, Eq, Hash, Structural)]
pub enum ControllerArt {
    DualSense,
    XboxOne,
}

/// Whether a lower-cased pad name is that of a PlayStation pad. On the secure
/// desktop these are read through HID and named by their slot.
pub open spec fn names_playstation(l: Seq<char>) -> bool {
    ||| text::occurs(l, "dualsense"@)
    ||| text::occurs(l, "dualshock"@)
    ||| text::occurs(l, "playstation"@)
    ||| text::occurs(l, "ps5"@)
    ||| text::occurs(l, "ps4"@)
    ||| text::occurs(l, "hid slot"@)
}

/// `names_playstation`, computed.
pub fn playstation_name(l: &[char]) -> (r: bool)
    ensures
        r == names_playstation(l@),
{
    contains_str(l, "dualsense") || contains_str(l, "dualshock") || contains_str(l, "playstation")
        || contains_str(l, "ps5") || contains_str(l, "ps4") || contains_str(l, "hid slot")
}

/// The artwork for a pad name.
pub open spec fn art_of(label: Seq<char>) -> Option<ControllerArt> {
    let l = text::ascii_lower_all(label);
    if names_playstation(l) {
        Some(ControllerArt::DualSense)
    } else if text::occurs(l, "xbox"@) || text::occurs(l, "xinput"@) {
        Some(ControllerArt::XboxOne)
    } else {
        None
    }
}

impl ControllerArt {
    /// `art_of`, computed.
    pub fn from_label(label: &str) -> (art: Option<Self>)
        ensures
            art == art_of(label@),
    {
        let l = lower_chars(chars_of(label).as_slice());
        if playstation_name(l.as_slice()) {
            Some(ControllerArt::DualSense)
        } else if contains_str(l.as_slice(), "xbox") || contains_str(l.as_slice(), "xinput") {
            Some(ControllerArt::XboxOne)
        } else {
            None
        }
    }

    /// The file that holds the artwork.
    pub fn png(self) -> (path: &'static str)
        ensures
            path@ == (match self {
                ControllerArt::DualSense => "assets/controller-models/dualsense-controller.png"@,
                ControllerArt::XboxOne => "assets/controller-models/xbox-one-controller.png"@,
            }),
    {
        match self {
            ControllerArt::DualSense => "assets/controller-models/dualsense-controller.png",
            ControllerArt::XboxOne => "assets/controller-models/xbox-one-controller.png",
        }
    }

    pub open spec fn name_spec(self) -> Seq<char> {
        match self {
            ControllerArt::DualSense => "DualSense"@,
            ControllerArt::XboxOne => "XboxOne"@,
        }
    }

    /// The artwork's name in messages.
    pub fn name(self) -> (out: &'static str)
        ensures
            out@ == self.name_spec(),
    {
        match self {
            ControllerArt::DualSense => "DualSense",
            ControllerArt::XboxOne => "XboxOne",
        }
    }
}

/// Which button symbols to show.
#[derive(Clone, Copy, Debug, PartialEq, Eq, Hash, Structural)]
pub enum ControllerIconFamily {
    Ps5,
    Xbox,
}

/// The chip for a button hint.
pub open spec fn chip_of(family: ControllerIconFamily, hint: Seq<char>) -> Option<VkIcon> {
    let ps5 = family == ControllerIconFamily::Ps5;
    if hint == "A"@ {
        Some(if ps5 { VkIcon::Ps5Cross } else { VkIcon::XboxA })
    } else if hint == "B"@ {
        Some(if ps5 { VkIcon::Ps5Circle } else { VkIcon::XboxB })
    } else if hint == "X"@ {
        Some(if ps5 { VkIcon::Ps5Square } else { VkIcon::XboxX })
    } else if hint == "Y"@ {
        Some(if ps5 { VkIcon::Ps5Triangle } else { VkIcon::XboxY })
    } else if hint == "LB"@ {
        Some(if ps5 { VkIcon::Ps5L1 } else { VkIcon::XboxLb })
    } else if hint == "RB"@ {
        Some(if ps5 { VkIcon::Ps5R1 } else { VkIcon::XboxRb })
    } else if hint == "LT"@ {
        Some(if ps5 { VkIcon::Ps5L2 } else { VkIcon::XboxLt })
    } else if hint == "RT"@ {
        Some(if ps5 { VkIcon::Ps5R2 } else { VkIcon::XboxRt })
    } else if hint == "L3"@ {
        Some(if ps5 { VkIcon::L3Ps5 } else { VkIcon::L3Xbox })
    } else if hint == "R3"@ {
        Some(if ps5 { VkIcon::R3Ps5 } else { VkIcon::R3Xbox })
    } else if hint == "SELECT"@ {
        Some(if ps5 { VkIcon::SelectPs5 } else { VkIcon::SelectXbox })
    } else if hint == "START"@ {
        Some(if ps5 { VkIcon::StartPs5 } else { VkIcon::StartXbox })
    } else {
        None
    }
}

impl ControllerIconFamily {
    /// The symbols for a pad name: PlayStation's for PlayStation pads, Xbox's for
    /// every other.
    pub fn from_label(label: &str) -> (f: Self)
        ensures
            f == (if names_playstation(text::ascii_lower_all(label@)) {
                ControllerIconFamily::Ps5
            } else {
                ControllerIconFamily::Xbox
            }),
    {
        let l = lower_chars(chars_of(label).as_slice());
        if playstation_name(l.as_slice()) {
            ControllerIconFamily::Ps5
        } else {
            ControllerIconFamily::Xbox
        }
    }

    pub fn l3_icon(self) -> (icon: VkIcon)
        ensures
            icon == (match self {
                ControllerIconFamily::Ps5 => VkIcon::L3Ps5,
                ControllerIconFamily::Xbox => VkIcon::L3Xbox,
            }),
    {
        match self {
            ControllerIconFamily::Ps5 => VkIcon::L3Ps5,
            ControllerIconFamily::Xbox => VkIcon::L3Xbox,
        }
    }

    /// `chip_of`, computed.
    pub fn hint_icon(self, hint: &str) -> (icon: Option<VkIcon>)
        ensures
            icon == chip_of(self, hint@),
    {
        let ps5: bool = matches!(self, ControllerIconFamily::Ps5);
        if same_str(hint, "A") {
            Some(if ps5 { VkIcon::Ps5Cross } else { VkIcon::XboxA })
        } else if same_str(hint, "B") {
            Some(if ps5 { VkIcon::Ps5Circle } else { VkIcon::XboxB })
        } else if same_str(hint, "X") {
            Some(if ps5 { VkIcon::Ps5Square } else { VkIcon::XboxX })
        } else if same_str(hint, "Y") {
            Some(if ps5 { VkIcon::Ps5Triangle } else { VkIcon::XboxY })
        } else if same_str(hint, "LB") {
            Some(if ps5 { VkIcon::Ps5L1 } else { VkIcon::XboxLb })
        } else if same_str(hint, "RB") {
            Some(if ps5 { VkIcon::Ps5R1 } else { VkIcon::XboxRb })
        } else if same_str(hint, "LT") {
            Some(if ps5 { VkIcon::Ps5L2 } else { VkIcon::XboxLt })
        } else if same_str(hint, "RT") {
            Some(if ps5 { VkIcon::Ps5R2 } else { VkIcon::XboxRt })
        } else if same_str(hint, "L3") {
            Some(if ps5 { VkIcon::L3Ps5 } else { VkIcon::L3Xbox })
        } else if same_str(hint, "R3") {
            Some(if ps5 { VkIcon::R3Ps5 } else { VkIcon::R3Xbox })
        } else if same_str(hint, "SELECT") {
            Some(if ps5 { VkIcon::SelectPs5 } else { VkIcon::SelectXbox })
        } else if same_str(hint, "START") {
            Some(if ps5 { VkIcon::StartPs5 } else { VkIcon::StartXbox })
        } else {
            None
        }
    }
}

/// Every hint's symbol is a chip of the controller atlas, and the two families
/// never share one.
pub proof fn hints_are_chips(hint: Seq<char>)
    ensures
        chip_of(ControllerIconFamily::Ps5, hint) is Some <==> chip_of(
            ControllerIconFamily::Xbox,
            hint,
        ) is Some,
        chip_of(ControllerIconFamily::Ps5, hint) matches Some(a) ==> vk_icons::is_tip(a) && Some(a)
            != chip_of(ControllerIconFamily::Xbox, hint),
        chip_of(ControllerIconFamily::Xbox, hint) matches Some(b) ==> vk_icons::is_tip(b),
{
}

/// Pads with PlayStation artwork are the ones with PlayStation symbols.
pub proof fn art_and_symbols_agree(label: Seq<char>)
    ensures
        art_of(label) == Some(ControllerArt::DualSense) <==> names_playstation(
            text::ascii_lower_all(label),
        ),
{
}

/// The lowest byte of a GDI colour is its red, the next its green, the third its blue.
pub proof fn red_comes_first(v: u32)
    ensures
        gdi(v) % 256 == v / 0x1_0000 % 256,
        gdi(v) / 256 % 256 == v / 256 % 256,
        gdi(v) / 0x1_0000 == v % 256,
{
}

proof fn written_bytes(r: u8, g: u8, b: u8)
    ensures
        ({
            let h = "#"@ + text::hex_byte_upper(r) + text::hex_byte_upper(g) + text::hex_byte_upper(
                b,
            );
            &&& h.len() == 7
            &&& h[0] == '#'
            &&& text::hex_value(h[1]) * 16 + text::hex_value(h[2]) == r
            &&& text::hex_value(h[3]) * 16 + text::hex_value(h[4]) == g
            &&& text::hex_value(h[5]) * 16 + text::hex_value(h[6]) == b
        }),
{
    reveal_strlit("#");
    text::hex_bytes_stand_for_the_byte(r);
    text::hex_bytes_stand_for_the_byte(g);
    text::hex_bytes_stand_for_the_byte(b);
    let rs = text::hex_byte_upper(r);
    let gs = text::hex_byte_upper(g);
    let bs = text::hex_byte_upper(b);
    let h = "#"@ + rs + gs + bs;
    assert(h[1] == rs[0] && h[2] == rs[1] && h[3] == gs[0] && h[4] == gs[1] && h[5] == bs[0] && h[6]
        == bs[1]);
}

/// A colour is written with its red first: its digits, two by two, stand for the red, the
/// green and the blue that it was made of.
pub proof fn written_colours_read_back(v: u32)
    requires
        v < 0x100_0000,
    ensures
        ({
            let h = hex_color(gdi(v));
            &&& h.len() == 7
            &&& h[0] == '#'
            &&& text::hex_value(h[1]) * 16 + text::hex_value(h[2]) == v / 0x1_0000
            &&& text::hex_value(h[3]) * 16 + text::hex_value(h[4]) == v / 256 % 256
            &&& text::hex_value(h[5]) * 16 + text::hex_value(h[6]) == v % 256
        }),
{
    reveal_strlit("#");
    red_comes_first(v);
    let c = gdi(v);
    let r = (c % 256) as u8;
    let g = (c / 256 % 256) as u8;
    let b = (c / 0x1_0000 % 256) as u8;
    assert(r == v / 0x1_0000 && g == v / 256 % 256 && b == v % 256);
    written_bytes(r, g, b);
    assert(hex_color(c) =~= "#"@ + text::hex_byte_upper(r) + text::hex_byte_upper(g)
        + text::hex_byte_upper(b));
}

proof fn swapped_colours()
    ensures
        gdi(0x000000) == 0x000000,
        gdi(0x0E80C7) == 0xc7800e,
        gdi(0x111217) == 0x171211,
        gdi(0x15161C) == 0x1c1615,
        gdi(0x1A2233) == 0x33221a,
        gdi(0x1C1C1E) == 0x1e1c1c,
        gdi(0x1F2029) == 0x29201f,
        gdi(0x211047) == 0x471021,
        gdi(0x2A2B36) == 0x362b2a,
        gdi(0x2C2C2E) == 0x2e2c2c,
        gdi(0x3A3A3C) == 0x3c3a3a,
        gdi(0x3A3B47) == 0x473b3a,
        gdi(0x3A3C4A) == 0x4a3c3a,
        gdi(0x3C3C43) == 0x433c3c,
        gdi(0x545458) == 0x585454,
        gdi(0x7CC0EA) == 0xeac07c,
        gdi(0x7E6AD8) == 0xd86a7e,
        gdi(0xA6D1FF) == 0xffd1a6,
        gdi(0xABB0BA) == 0xbab0ab,
        gdi(0xB6A0FF) == 0xffa0b6,
        gdi(0xC9BCFF) == 0xffbcc9,
        gdi(0xD1D3D9) == 0xd9d3d1,
        gdi(0xD3D6DE) == 0xded6d3,
        gdi(0xDADDE5) == 0xe5ddda,
        gdi(0xDCEBFF) == 0xffebdc,
        gdi(0xE3E5EB) == 0xebe5e3,
        gdi(0xEBEBF5) == 0xf5ebeb,
        gdi(0xF3F4F7) == 0xf7f4f3,
        gdi(0xFFFFFF) == 0xffffff,
{
}

/// The colours of each look, their blue in the highest byte.
pub proof fn looks_have_their_colours(style: VkStyle, dark: bool)
    ensures
        ({
            let p = palette_of(style, dark);
            &&& style == VkStyle::Refined && dark ==> {
                &&& p.bg == 0x1c1615
                &&& p.key == 0x362b2a
                &&& p.key_action == 0x29201f
                &&& p.accent == 0xffd1a6
                &&& p.sel_ring == 0xffebdc
                &&& p.text == 0xffffff
                &&& p.text_dim == 0xffffff
                &&& p.sel_text == 0x33221a
                &&& p.border == 0x473b3a
                &&& p.panel_stroke == 0xffffff
                &&& p.panel_stroke_alpha == 0x12
                &&& p.chip_sel == 0x4a3c3a
            }
            &&& style == VkStyle::Refined && !dark ==> {
                &&& p.bg == 0xf7f4f3
                &&& p.key == 0xffffff
                &&& p.key_action == 0xebe5e3
                &&& p.accent == 0xc7800e
                &&& p.sel_ring == 0xeac07c
                &&& p.text == 0x171211
                &&& p.text_dim == 0x171211
                &&& p.sel_text == 0xffffff
                &&& p.border == 0xded6d3
                &&& p.panel_stroke == 0x000000
                &&& p.panel_stroke_alpha == 0x12
                &&& p.chip_sel == 0xe5ddda
            }
            &&& style == VkStyle::Apple && dark ==> {
                &&& p.bg == 0x1e1c1c
                &&& p.key == 0x3c3a3a
                &&& p.key_action == 0x2e2c2c
                &&& p.accent == 0xffbcc9
                &&& p.sel_ring == 0xffa0b6
                &&& p.text == 0xffffff
                &&& p.text_dim == 0xf5ebeb
                &&& p.sel_text == 0x471021
                &&& p.border == 0x585454
                &&& p.panel_stroke == 0xffffff
                &&& p.panel_stroke_alpha == 0x14
                &&& p.chip_sel == 0x3c3a3a
            }
            &&& style == VkStyle::Apple && !dark ==> {
                &&& p.bg == 0xd9d3d1
                &&& p.key == 0xffffff
                &&& p.key_action == 0xbab0ab
                &&& p.accent == 0xd86a7e
                &&& p.sel_ring == 0xd86a7e
                &&& p.text == 0x000000
                &&& p.text_dim == 0x433c3c
                &&& p.sel_text == 0xffffff
                &&& p.border == 0x433c3c
                &&& p.panel_stroke == 0x000000
                &&& p.panel_stroke_alpha == 0x14
                &&& p.chip_sel == 0xffffff
            }
        }),
{
    swapped_colours();
}

/// The refined look shows its suggestions as pills, the other one in columns.
pub proof fn looks_lay_suggestions_out(style: VkStyle)
    ensures
        strip_look_of(style) == StripLook::Pills <==> style == VkStyle::Refined,
        strip_look_of(style) == StripLook::Columns <==> style == VkStyle::Apple,
{
}

/// A key looks plain exactly where it types a character or a blank.
pub proof fn plain_keys_type(action: KeyAction)
    ensures
        !is_action(action) <==> action is Char || action == KeyAction::Vk(0x20),
{
}

/// The drawing on a key says what the key does: an arrow points where the cursor or the
/// suggestion goes, the Shift key's is filled while it holds, and keys that type have none.
pub proof fn drawings_say_what_keys_do(action: KeyAction, shift: bool)
    ensures
        icon_of(action, shift) == Some((VkIcon::Backspace, true)) <==> action == KeyAction::Vk(0x08),
        icon_of(action, shift) == Some((VkIcon::Enter, true)) <==> action == KeyAction::Vk(0x0d),
        icon_of(action, shift) == Some((VkIcon::ChevronLeft, false)) <==> action == KeyAction::Vk(
            0x25,
        ) || action == KeyAction::PredictPrev,
        icon_of(action, shift) == Some((VkIcon::ChevronUp, false)) <==> action == KeyAction::Vk(
            0x26,
        ),
        icon_of(action, shift) == Some((VkIcon::ChevronRight, false)) <==> action == KeyAction::Vk(
            0x27,
        ) || action == KeyAction::PredictNext,
        icon_of(action, shift) == Some((VkIcon::ChevronDown, false)) <==> action == KeyAction::Vk(
            0x28,
        ),
        icon_of(action, shift) == Some((VkIcon::CapsFilled, false)) <==> action == KeyAction::Shift
            && shift,
        icon_of(action, shift) == Some((VkIcon::Caps, false)) <==> action == KeyAction::Shift
            && !shift,
        action is Char ==> icon_of(action, shift) is None,
        icon_of(action, shift) is Some ==> action is Vk || action == KeyAction::Shift || action
            == KeyAction::PredictPrev || action == KeyAction::PredictNext,
{
}

/// Whether `word` is one of the words, in small letters, that name a PlayStation pad.
pub open spec fn is_playstation_word(word: Seq<char>) -> bool {
    ||| word == "dualsense"@
    ||| word == "dualshock"@
    ||| word == "playstation"@
    ||| word == "ps5"@
    ||| word == "ps4"@
    ||| word == "hid slot"@
}

/// Whether `word` is one of the words, in small letters, that name an Xbox pad.
pub open spec fn is_xbox_word(word: Seq<char>) -> bool {
    word == "xbox"@ || word == "xinput"@
}

/// A pad is drawn by the words in its name, wherever they stand and however their letters
/// are written: as a PlayStation pad where one of those words is there, else as an Xbox pad
/// where one of those is, and not at all where there is neither.
pub proof fn pads_are_drawn_by_name(head: Seq<char>, word: Seq<char>, rest: Seq<char>)
    ensures
        is_playstation_word(text::ascii_lower_all(word)) ==> art_of(head + word + rest) == Some(
            ControllerArt::DualSense,
        ),
        is_xbox_word(text::ascii_lower_all(word)) ==> art_of(head + word + rest) is Some,
        art_of(word) == Some(ControllerArt::DualSense) ==> exists|w: Seq<char>|
            #[trigger] is_playstation_word(w) && text::occurs(text::ascii_lower_all(word), w),
        art_of(word) == Some(ControllerArt::XboxOne) ==> (exists|w: Seq<char>|
            #[trigger] is_xbox_word(w) && text::occurs(text::ascii_lower_all(word), w)) && (forall|
            w: Seq<char>,
        | #[trigger]
            is_playstation_word(w) ==> !text::occurs(text::ascii_lower_all(word), w)),
{
    let name = head + word + rest;
    let l = text::ascii_lower_all(name);
    let w = text::ascii_lower_all(word);
    assert(l.subrange(head.len() as int, head.len() as int + w.len()) =~= w);
    assert(text::occurs_at(l, w, head.len() as int));
    assert(is_playstation_word("dualsense"@) && is_playstation_word("dualshock"@)
        && is_playstation_word("playstation"@) && is_playstation_word("ps5"@)
        && is_playstation_word("ps4"@) && is_playstation_word("hid slot"@));
    assert(is_xbox_word("xbox"@) && is_xbox_word("xinput"@));
}

/// Each button has its own symbol in each family.
pub proof fn buttons_have_their_symbols(hint: Seq<char>)
    ensures
        ({
            let x = chip_of(ControllerIconFamily::Xbox, hint);
            let p = chip_of(ControllerIconFamily::Ps5, hint);
            &&& hint == seq!['A'] ==> x == Some(VkIcon::XboxA) && p == Some(VkIcon::Ps5Cross)
            &&& hint == seq!['B'] ==> x == Some(VkIcon::XboxB) && p == Some(VkIcon::Ps5Circle)
            &&& hint == seq!['X'] ==> x == Some(VkIcon::XboxX) && p == Some(VkIcon::Ps5Square)
            &&& hint == seq!['Y'] ==> x == Some(VkIcon::XboxY) && p == Some(VkIcon::Ps5Triangle)
            &&& hint == seq!['L', 'B'] ==> x == Some(VkIcon::XboxLb) && p == Some(VkIcon::Ps5L1)
            &&& hint == seq!['R', 'B'] ==> x == Some(VkIcon::XboxRb) && p == Some(VkIcon::Ps5R1)
            &&& hint == seq!['L', 'T'] ==> x == Some(VkIcon::XboxLt) && p == Some(VkIcon::Ps5L2)
            &&& hint == seq!['R', 'T'] ==> x == Some(VkIcon::XboxRt) && p == Some(VkIcon::Ps5R2)
            &&& hint == seq!['L', '3'] ==> x == Some(VkIcon::L3Xbox) && p == Some(VkIcon::L3Ps5)
            &&& hint == seq!['R', '3'] ==> x == Some(VkIcon::R3Xbox) && p == Some(VkIcon::R3Ps5)
            &&& hint == seq!['S', 'E', 'L', 'E', 'C', 'T'] ==> x == Some(VkIcon::SelectXbox) && p
                == Some(VkIcon::SelectPs5)
            &&& hint == seq!['S', 'T', 'A', 'R', 'T'] ==> x == Some(VkIcon::StartXbox) && p == Some(
                VkIcon::StartPs5,
            )
        }),
{
    reveal_strlit("A");
    reveal_strlit("B");
    reveal_strlit("X");
    reveal_strlit("Y");
    reveal_strlit("LB");
    reveal_strlit("RB");
    reveal_strlit("LT");
    reveal_strlit("RT");
    reveal_strlit("L3");
    reveal_strlit("R3");
    reveal_strlit("SELECT");
    reveal_strlit("START");
    assert("A"@ =~= seq!['A'] && "B"@ =~= seq!['B'] && "X"@ =~= seq!['X'] && "Y"@ =~= seq!['Y']);
    assert("LB"@ =~= seq!['L', 'B'] && "RB"@ =~= seq!['R', 'B']);
    assert("LT"@ =~= seq!['L', 'T'] && "RT"@ =~= seq!['R', 'T']);
    assert("L3"@ =~= seq!['L', '3'] && "R3"@ =~= seq!['R', '3']);
    assert("SELECT"@ =~= seq!['S', 'E', 'L', 'E', 'C', 'T']);
    assert("START"@ =~= seq!['S', 'T', 'A', 'R', 'T']);
    assert("A"@[0] == 'A' && "B"@[0] == 'B' && "X"@[0] == 'X' && "Y"@[0] == 'Y');
    assert("LB"@[0] == 'L' && "RB"@[0] == 'R' && "LT"@[0] == 'L' && "RT"@[0] == 'R');
    assert("LB"@[1] == 'B' && "RB"@[1] == 'B' && "LT"@[1] == 'T' && "RT"@[1] == 'T');
    assert("L3"@[0] == 'L' && "R3"@[0] == 'R' && "L3"@[1] == '3' && "R3"@[1] == '3');
    assert("SELECT"@.len() == 6 && "START"@.len() == 5);
}

} // verus!

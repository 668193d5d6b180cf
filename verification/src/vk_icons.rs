//! The icons of the keyboard: inline drawings in the key colour, and chips from
//! the controller icon atlas in their own colours.

use vstd::prelude::*;

verus! {

pub const SVG_BACKSPACE: &'static str =
    "<svg xmlns=\"http://www.w3.org/2000/svg\" width=\"24\" height=\"24\" viewBox=\"0 0 24 24\" fill=\"none\" stroke=\"currentColor\" stroke-width=\"2\" stroke-linecap=\"round\" stroke-linejoin=\"round\"><path d=\"M10 5a2 2 0 0 0-1.344.519l-6.328 5.74a1 1 0 0 0 0 1.481l6.328 5.741A2 2 0 0 0 10 19h10a2 2 0 0 0 2-2V7a2 2 0 0 0-2-2z\"/><path d=\"m12 9 6 6\"/><path d=\"m18 9-6 6\"/></svg>";

pub const SVG_ENTER: &'static str =
    "<svg xmlns=\"http://www.w3.org/2000/svg\" width=\"24\" height=\"24\" viewBox=\"0 0 24 24\" fill=\"none\" stroke=\"currentColor\" stroke-width=\"2\" stroke-linecap=\"round\" stroke-linejoin=\"round\"><path d=\"M20 4v7a4 4 0 0 1-4 4H4\"/><path d=\"m9 10-5 5 5 5\"/></svg>";

pub const SVG_MIC: &'static str =
    "<svg xmlns=\"http://www.w3.org/2000/svg\" width=\"24\" height=\"24\" viewBox=\"0 0 24 24\" fill=\"none\" stroke=\"currentColor\" stroke-width=\"2\" stroke-linecap=\"round\" stroke-linejoin=\"round\"><path d=\"M12 19v3\"/><path d=\"M19 10v2a7 7 0 0 1-14 0v-2\"/><rect x=\"9\" y=\"2\" width=\"6\" height=\"13\" rx=\"3\"/></svg>";

pub const SVG_MIC_OFF: &'static str =
    "<svg xmlns=\"http://www.w3.org/2000/svg\" width=\"24\" height=\"24\" viewBox=\"0 0 24 24\" fill=\"none\" stroke=\"currentColor\" stroke-width=\"2\" stroke-linecap=\"round\" stroke-linejoin=\"round\"><path d=\"M12 19v3\"/><path d=\"M15 9.34V5a3 3 0 0 0-5.68-1.33\"/><path d=\"M16.95 16.95A7 7 0 0 1 5 12v-2\"/><path d=\"M18.89 13.23A7 7 0 0 0 19 12v-2\"/><path d=\"m2 2 20 20\"/><path d=\"M9 9v3a3 3 0 0 0 5.12 2.12\"/></svg>";

pub const SVG_SPACE: &'static str =
    "<svg xmlns=\"http://www.w3.org/2000/svg\" width=\"24\" height=\"24\" viewBox=\"0 0 24 24\" fill=\"none\" stroke=\"currentColor\" stroke-width=\"2\" stroke-linecap=\"round\" stroke-linejoin=\"round\"><path d=\"M22 17v1c0 .5-.5 1-1 1H3c-.5 0-1-.5-1-1v-1\"/></svg>";

pub const SVG_SHIFT: &'static str =
    "<svg xmlns=\"http://www.w3.org/2000/svg\" width=\"24\" height=\"24\" viewBox=\"0 0 24 24\" fill=\"none\" stroke=\"currentColor\" stroke-width=\"2\" stroke-linecap=\"round\" stroke-linejoin=\"round\"><path d=\"M14 16a1 1 0 0 0 1-1v-2a1 1 0 0 1 1-1h3.293a.707.707 0 0 0 .5-1.207l-6.939-6.939a1.207 1.207 0 0 0-1.708 0l-6.94 6.94a.707.707 0 0 0 .5 1.206H8a1 1 0 0 1 1 1v2a1 1 0 0 0 1 1z\"/><path d=\"M9 20h6\"/></svg>";

pub const SVG_SHIFT_FILLED: &'static str =
    "<svg xmlns=\"http://www.w3.org/2000/svg\" width=\"24\" height=\"24\" viewBox=\"0 0 24 24\" fill=\"currentColor\" stroke=\"currentColor\" stroke-width=\"2\" stroke-linecap=\"round\" stroke-linejoin=\"round\"><path d=\"M14 16a1 1 0 0 0 1-1v-2a1 1 0 0 1 1-1h3.293a.707.707 0 0 0 .5-1.207l-6.939-6.939a1.207 1.207 0 0 0-1.708 0l-6.94 6.94a.707.707 0 0 0 .5 1.206H8a1 1 0 0 1 1 1v2a1 1 0 0 0 1 1z\"/><path d=\"M9 20h6\" fill=\"none\"/></svg>";

pub const SVG_CAPS: &'static str =
    "<svg xmlns=\"http://www.w3.org/2000/svg\" width=\"24\" height=\"24\" viewBox=\"0 0 24 24\" fill=\"none\" stroke=\"currentColor\" stroke-width=\"2\" stroke-linecap=\"round\" stroke-linejoin=\"round\"><path d=\"M9 19a1 1 0 0 0 1 1h4a1 1 0 0 0 1-1v-6a1 1 0 0 1 1-1h3.293a.707.707 0 0 0 .5-1.207l-7.086-7.086a1 1 0 0 0-1.414 0l-7.086 7.086a.707.707 0 0 0 .5 1.207H8a1 1 0 0 1 1 1z\"/></svg>";

pub const SVG_CAPS_FILLED: &'static str =
    "<svg xmlns=\"http://www.w3.org/2000/svg\" width=\"24\" height=\"24\" viewBox=\"0 0 24 24\" fill=\"currentColor\" stroke=\"currentColor\" stroke-width=\"2\" stroke-linecap=\"round\" stroke-linejoin=\"round\"><path d=\"M9 19a1 1 0 0 0 1 1h4a1 1 0 0 0 1-1v-6a1 1 0 0 1 1-1h3.293a.707.707 0 0 0 .5-1.207l-7.086-7.086a1 1 0 0 0-1.414 0l-7.086 7.086a.707.707 0 0 0 .5 1.207H8a1 1 0 0 1 1 1z\"/></svg>";

pub const SVG_CHEVRON_LEFT: &'static str =
    "<svg xmlns=\"http://www.w3.org/2000/svg\" width=\"24\" height=\"24\" viewBox=\"0 0 24 24\" fill=\"none\" stroke=\"currentColor\" stroke-width=\"2\" stroke-linecap=\"round\" stroke-linejoin=\"round\"><path d=\"m15 18-6-6 6-6\"/></svg>";

pub const SVG_CHEVRON_RIGHT: &'static str =
    "<svg xmlns=\"http://www.w3.org/2000/svg\" width=\"24\" height=\"24\" viewBox=\"0 0 24 24\" fill=\"none\" stroke=\"currentColor\" stroke-width=\"2\" stroke-linecap=\"round\" stroke-linejoin=\"round\"><path d=\"m9 18 6-6-6-6\"/></svg>";

pub const SVG_CHEVRON_UP: &'static str =
    "<svg xmlns=\"http://www.w3.org/2000/svg\" width=\"24\" height=\"24\" viewBox=\"0 0 24 24\" fill=\"none\" stroke=\"currentColor\" stroke-width=\"2\" stroke-linecap=\"round\" stroke-linejoin=\"round\"><path d=\"m18 15-6-6-6 6\"/></svg>";

pub const SVG_CHEVRON_DOWN: &'static str =
    "<svg xmlns=\"http://www.w3.org/2000/svg\" width=\"24\" height=\"24\" viewBox=\"0 0 24 24\" fill=\"none\" stroke=\"currentColor\" stroke-width=\"2\" stroke-linecap=\"round\" stroke-linejoin=\"round\"><path d=\"m6 9 6 6 6-6\"/></svg>";

pub const SVG_GAMEPAD: &'static str =
    "<svg xmlns=\"http://www.w3.org/2000/svg\" width=\"96\" height=\"96\" viewBox=\"0 0 24 24\" fill=\"none\" stroke=\"currentColor\" stroke-width=\"1.65\" stroke-linecap=\"round\" stroke-linejoin=\"round\"><line x1=\"6\" x2=\"10\" y1=\"12\" y2=\"12\"/><line x1=\"8\" x2=\"8\" y1=\"10\" y2=\"14\"/><line x1=\"15\" x2=\"15.01\" y1=\"13\" y2=\"13\"/><line x1=\"18\" x2=\"18.01\" y1=\"11\" y2=\"11\"/><rect width=\"20\" height=\"12\" x=\"2\" y=\"6\" rx=\"4\"/><path d=\"M6 18v1a2 2 0 0 0 4 0v-1\"/><path d=\"M14 18v1a2 2 0 0 0 4 0v-1\"/></svg>";

pub const ASSET_L3_PS5: &'static str = "controller-icons/p5_l3_click.svg";

pub const ASSET_L3_XBOX: &'static str = "controller-icons/x_l3_click.svg";

pub const ASSET_R3_PS5: &'static str = "controller-icons/p5_r3_click.svg";

pub const ASSET_R3_XBOX: &'static str = "controller-icons/x_r3_click.svg";

pub const ASSET_SELECT_PS5: &'static str = "controller-icons/p5_share.svg";

pub const ASSET_SELECT_XBOX: &'static str = "controller-icons/x_menu_view.svg";

pub const ASSET_START_PS5: &'static str = "controller-icons/p5_options.svg";

pub const ASSET_START_XBOX: &'static str = "controller-icons/x_menu_menu.svg";

pub const ASSET_PS5_CROSS: &'static str = "controller-icons/p5_face_cross_colored.svg";

pub const ASSET_PS5_CIRCLE: &'static str = "controller-icons/p5_face_circle_colored.svg";

pub const ASSET_PS5_SQUARE: &'static str = "controller-icons/p5_face_square_colored.svg";

pub const ASSET_PS5_TRIANGLE: &'static str = "controller-icons/p5_face_triangle_colored.svg";

pub const ASSET_PS5_L1: &'static str = "controller-icons/p5_shoulder_l1.svg";

pub const ASSET_PS5_R1: &'static str = "controller-icons/p5_shoulder_r1.svg";

pub const ASSET_PS5_L2: &'static str = "controller-icons/p5_trigger_l2.svg";

pub const ASSET_PS5_R2: &'static str = "controller-icons/p5_trigger_r2.svg";

pub const ASSET_XBOX_A: &'static str = "controller-icons/x_face_a_colored.svg";

pub const ASSET_XBOX_B: &'static str = "controller-icons/x_face_b_colored.svg";

pub const ASSET_XBOX_X: &'static str = "controller-icons/x_face_x_colored.svg";

pub const ASSET_XBOX_Y: &'static str = "controller-icons/x_face_y_colored.svg";

pub const ASSET_XBOX_LB: &'static str = "controller-icons/x_shoulder_lb.svg";

pub const ASSET_XBOX_RB: &'static str = "controller-icons/x_shoulder_rb.svg";

pub const ASSET_XBOX_LT: &'static str = "controller-icons/x_trigger_lt.svg";

pub const ASSET_XBOX_RT: &'static str = "controller-icons/x_trigger_rt.svg";

/// An icon of the keyboard.
#[derive(Clone, Copy, Debug, PartialEq, Eq, Hash, Structural)]
pub enum VkIcon {
    Backspace,
    Enter,
    Mic,
    MicOff,
    Space,
    Shift,
    ShiftFilled,
    Caps,
    CapsFilled,
    ChevronLeft,
    ChevronRight,
    ChevronUp,
    ChevronDown,
    Gamepad,
    L3Ps5,
    L3Xbox,
    R3Ps5,
    R3Xbox,
    SelectPs5,
    SelectXbox,
    StartPs5,
    StartXbox,
    Ps5Cross,
    Ps5Circle,
    Ps5Square,
    Ps5Triangle,
    Ps5L1,
    Ps5R1,
    Ps5L2,
    Ps5R2,
    XboxA,
    XboxB,
    XboxX,
    XboxY,
    XboxLb,
    XboxRb,
    XboxLt,
    XboxRt,
}

/// Where an icon's drawing comes from.
#[derive(Clone, Copy, Debug, PartialEq, Eq)]
pub enum IconSource {
    /// SVG text that draws in `currentColor`.
    Inline(&'static str),
    /// A file of the controller icon atlas.
    Asset(&'static str),
}

/// Whether an icon is a chip of the controller atlas.
pub open spec fn is_tip(icon: VkIcon) -> bool {
    match icon {
        VkIcon::Backspace
        | VkIcon::Enter
        | VkIcon::Mic
        | VkIcon::MicOff
        | VkIcon::Space
        | VkIcon::Shift
        | VkIcon::ShiftFilled
        | VkIcon::Caps
        | VkIcon::CapsFilled
        | VkIcon::ChevronLeft
        | VkIcon::ChevronRight
        | VkIcon::ChevronUp
        | VkIcon::ChevronDown
        | VkIcon::Gamepad => false,
        _ => true,
    }
}

/// The drawing of an icon.
pub open spec fn source_of(icon: VkIcon) -> IconSource {
    match icon {
        VkIcon::Backspace => IconSource::Inline(SVG_BACKSPACE),
        VkIcon::Enter => IconSource::Inline(SVG_ENTER),
        VkIcon::Mic => IconSource::Inline(SVG_MIC),
        VkIcon::MicOff => IconSource::Inline(SVG_MIC_OFF),
        VkIcon::Space => IconSource::Inline(SVG_SPACE),
        VkIcon::Shift => IconSource::Inline(SVG_SHIFT),
        VkIcon::ShiftFilled => IconSource::Inline(SVG_SHIFT_FILLED),
        VkIcon::Caps => IconSource::Inline(SVG_CAPS),
        VkIcon::CapsFilled => IconSource::Inline(SVG_CAPS_FILLED),
        VkIcon::ChevronLeft => IconSource::Inline(SVG_CHEVRON_LEFT),
        VkIcon::ChevronRight => IconSource::Inline(SVG_CHEVRON_RIGHT),
        VkIcon::ChevronUp => IconSource::Inline(SVG_CHEVRON_UP),
        VkIcon::ChevronDown => IconSource::Inline(SVG_CHEVRON_DOWN),
        VkIcon::Gamepad => IconSource::Inline(SVG_GAMEPAD),
        VkIcon::L3Ps5 => IconSource::Asset(ASSET_L3_PS5),
        VkIcon::L3Xbox => IconSource::Asset(ASSET_L3_XBOX),
        VkIcon::R3Ps5 => IconSource::Asset(ASSET_R3_PS5),
        VkIcon::R3Xbox => IconSource::Asset(ASSET_R3_XBOX),
        VkIcon::SelectPs5 => IconSource::Asset(ASSET_SELECT_PS5),
        VkIcon::SelectXbox => IconSource::Asset(ASSET_SELECT_XBOX),
        VkIcon::StartPs5 => IconSource::Asset(ASSET_START_PS5),
        VkIcon::StartXbox => IconSource::Asset(ASSET_START_XBOX),
        VkIcon::Ps5Cross => IconSource::Asset(ASSET_PS5_CROSS),
        VkIcon::Ps5Circle => IconSource::Asset(ASSET_PS5_CIRCLE),
        VkIcon::Ps5Square => IconSource::Asset(ASSET_PS5_SQUARE),
        VkIcon::Ps5Triangle => IconSource::Asset(ASSET_PS5_TRIANGLE),
        VkIcon::Ps5L1 => IconSource::Asset(ASSET_PS5_L1),
        VkIcon::Ps5R1 => IconSource::Asset(ASSET_PS5_R1),
        VkIcon::Ps5L2 => IconSource::Asset(ASSET_PS5_L2),
        VkIcon::Ps5R2 => IconSource::Asset(ASSET_PS5_R2),
        VkIcon::XboxA => IconSource::Asset(ASSET_XBOX_A),
        VkIcon::XboxB => IconSource::Asset(ASSET_XBOX_B),
        VkIcon::XboxX => IconSource::Asset(ASSET_XBOX_X),
        VkIcon::XboxY => IconSource::Asset(ASSET_XBOX_Y),
        VkIcon::XboxLb => IconSource::Asset(ASSET_XBOX_LB),
        VkIcon::XboxRb => IconSource::Asset(ASSET_XBOX_RB),
        VkIcon::XboxLt => IconSource::Asset(ASSET_XBOX_LT),
        VkIcon::XboxRt => IconSource::Asset(ASSET_XBOX_RT),
    }
}

impl VkIcon {
    /// The drawing of the icon.
    pub fn svg(self) -> (s: IconSource)
        ensures
            s == source_of(self),
    {
        match self {
            VkIcon::Backspace => IconSource::Inline(SVG_BACKSPACE),
            VkIcon::Enter => IconSource::Inline(SVG_ENTER),
            VkIcon::Mic => IconSource::Inline(SVG_MIC),
            VkIcon::MicOff => IconSource::Inline(SVG_MIC_OFF),
            VkIcon::Space => IconSource::Inline(SVG_SPACE),
            VkIcon::Shift => IconSource::Inline(SVG_SHIFT),
            VkIcon::ShiftFilled => IconSource::Inline(SVG_SHIFT_FILLED),
            VkIcon::Caps => IconSource::Inline(SVG_CAPS),
            VkIcon::CapsFilled => IconSource::Inline(SVG_CAPS_FILLED),
            VkIcon::ChevronLeft => IconSource::Inline(SVG_CHEVRON_LEFT),
            VkIcon::ChevronRight => IconSource::Inline(SVG_CHEVRON_RIGHT),
            VkIcon::ChevronUp => IconSource::Inline(SVG_CHEVRON_UP),
            VkIcon::ChevronDown => IconSource::Inline(SVG_CHEVRON_DOWN),
            VkIcon::Gamepad => IconSource::Inline(SVG_GAMEPAD),
            VkIcon::L3Ps5 => IconSource::Asset(ASSET_L3_PS5),
            VkIcon::L3Xbox => IconSource::Asset(ASSET_L3_XBOX),
            VkIcon::R3Ps5 => IconSource::Asset(ASSET_R3_PS5),
            VkIcon::R3Xbox => IconSource::Asset(ASSET_R3_XBOX),
            VkIcon::SelectPs5 => IconSource::Asset(ASSET_SELECT_PS5),
            VkIcon::SelectXbox => IconSource::Asset(ASSET_SELECT_XBOX),
            VkIcon::StartPs5 => IconSource::Asset(ASSET_START_PS5),
            VkIcon::StartXbox => IconSource::Asset(ASSET_START_XBOX),
            VkIcon::Ps5Cross => IconSource::Asset(ASSET_PS5_CROSS),
            VkIcon::Ps5Circle => IconSource::Asset(ASSET_PS5_CIRCLE),
            VkIcon::Ps5Square => IconSource::Asset(ASSET_PS5_SQUARE),
            VkIcon::Ps5Triangle => IconSource::Asset(ASSET_PS5_TRIANGLE),
            VkIcon::Ps5L1 => IconSource::Asset(ASSET_PS5_L1),
            VkIcon::Ps5R1 => IconSource::Asset(ASSET_PS5_R1),
            VkIcon::Ps5L2 => IconSource::Asset(ASSET_PS5_L2),
            VkIcon::Ps5R2 => IconSource::Asset(ASSET_PS5_R2),
            VkIcon::XboxA => IconSource::Asset(ASSET_XBOX_A),
            VkIcon::XboxB => IconSource::Asset(ASSET_XBOX_B),
            VkIcon::XboxX => IconSource::Asset(ASSET_XBOX_X),
            VkIcon::XboxY => IconSource::Asset(ASSET_XBOX_Y),
            VkIcon::XboxLb => IconSource::Asset(ASSET_XBOX_LB),
            VkIcon::XboxRb => IconSource::Asset(ASSET_XBOX_RB),
            VkIcon::XboxLt => IconSource::Asset(ASSET_XBOX_LT),
            VkIcon::XboxRt => IconSource::Asset(ASSET_XBOX_RT),
        }
    }

    /// Whether the icon is a chip of the controller atlas.
    pub fn is_controller_tip(self) -> (r: bool)
        ensures
            r == is_tip(self),
    {
        match self {
            VkIcon::Backspace
            | VkIcon::Enter
            | VkIcon::Mic
            | VkIcon::MicOff
            | VkIcon::Space
            | VkIcon::Shift
            | VkIcon::ShiftFilled
            | VkIcon::Caps
            | VkIcon::CapsFilled
            | VkIcon::ChevronLeft
            | VkIcon::ChevronRight
            | VkIcon::ChevronUp
            | VkIcon::ChevronDown
            | VkIcon::Gamepad => false,
            _ => true,
        }
    }

    /// The edge length of the drawing's own coordinate system.
    pub fn source_px(self) -> (px: u32)
        ensures
            px == (if is_tip(self) { 32u32 } else { 24u32 }),
    {
        if self.is_controller_tip() {
            32
        } else {
            24
        }
    }
}

/// The chips are exactly the icons that come from the atlas.
pub proof fn tips_come_from_the_atlas(icon: VkIcon)
    ensures
        is_tip(icon) <==> source_of(icon) is Asset,
{
}

/// Each icon has its own drawing: those of the pads' buttons are files of the atlas, named
/// by the pad and the button.
pub proof fn icons_have_their_drawings(icon: VkIcon)
    ensures
        ({
            let s = source_of(icon);
            &&& icon == VkIcon::Backspace ==> s == IconSource::Inline(SVG_BACKSPACE)
            &&& icon == VkIcon::Enter ==> s == IconSource::Inline(SVG_ENTER)
            &&& icon == VkIcon::Mic ==> s == IconSource::Inline(SVG_MIC)
            &&& icon == VkIcon::MicOff ==> s == IconSource::Inline(SVG_MIC_OFF)
            &&& icon == VkIcon::Space ==> s == IconSource::Inline(SVG_SPACE)
            &&& icon == VkIcon::Shift ==> s == IconSource::Inline(SVG_SHIFT)
            &&& icon == VkIcon::ShiftFilled ==> s == IconSource::Inline(SVG_SHIFT_FILLED)
            &&& icon == VkIcon::Caps ==> s == IconSource::Inline(SVG_CAPS)
            &&& icon == VkIcon::CapsFilled ==> s == IconSource::Inline(SVG_CAPS_FILLED)
            &&& icon == VkIcon::ChevronLeft ==> s == IconSource::Inline(SVG_CHEVRON_LEFT)
            &&& icon == VkIcon::ChevronRight ==> s == IconSource::Inline(SVG_CHEVRON_RIGHT)
            &&& icon == VkIcon::ChevronUp ==> s == IconSource::Inline(SVG_CHEVRON_UP)
            &&& icon == VkIcon::ChevronDown ==> s == IconSource::Inline(SVG_CHEVRON_DOWN)
            &&& icon == VkIcon::Gamepad ==> s == IconSource::Inline(SVG_GAMEPAD)
            &&& icon == VkIcon::L3Ps5 ==> (s matches IconSource::Asset(f) && f@
                == "controller-icons/p5_l3_click.svg"@)
            &&& icon == VkIcon::L3Xbox ==> (s matches IconSource::Asset(f) && f@
                == "controller-icons/x_l3_click.svg"@)
            &&& icon == VkIcon::R3Ps5 ==> (s matches IconSource::Asset(f) && f@
                == "controller-icons/p5_r3_click.svg"@)
            &&& icon == VkIcon::R3Xbox ==> (s matches IconSource::Asset(f) && f@
                == "controller-icons/x_r3_click.svg"@)
            &&& icon == VkIcon::SelectPs5 ==> (s matches IconSource::Asset(f) && f@
                == "controller-icons/p5_share.svg"@)
            &&& icon == VkIcon::SelectXbox ==> (s matches IconSource::Asset(f) && f@
                == "controller-icons/x_menu_view.svg"@)
            &&& icon == VkIcon::StartPs5 ==> (s matches IconSource::Asset(f) && f@
                == "controller-icons/p5_options.svg"@)
            &&& icon == VkIcon::StartXbox ==> (s matches IconSource::Asset(f) && f@
                == "controller-icons/x_menu_menu.svg"@)
            &&& icon == VkIcon::Ps5Cross ==> (s matches IconSource::Asset(f) && f@
                == "controller-icons/p5_face_cross_colored.svg"@)
            &&& icon == VkIcon::Ps5Circle ==> (s matches IconSource::Asset(f) && f@
                == "controller-icons/p5_face_circle_colored.svg"@)
            &&& icon == VkIcon::Ps5Square ==> (s matches IconSource::Asset(f) && f@
                == "controller-icons/p5_face_square_colored.svg"@)
            &&& icon == VkIcon::Ps5Triangle ==> (s matches IconSource::Asset(f) && f@
                == "controller-icons/p5_face_triangle_colored.svg"@)
            &&& icon == VkIcon::Ps5L1 ==> (s matches IconSource::Asset(f) && f@
                == "controller-icons/p5_shoulder_l1.svg"@)
            &&& icon == VkIcon::Ps5R1 ==> (s matches IconSource::Asset(f) && f@
                == "controller-icons/p5_shoulder_r1.svg"@)
            &&& icon == VkIcon::Ps5L2 ==> (s matches IconSource::Asset(f) && f@
                == "controller-icons/p5_trigger_l2.svg"@)
            &&& icon == VkIcon::Ps5R2 ==> (s matches IconSource::Asset(f) && f@
                == "controller-icons/p5_trigger_r2.svg"@)
            &&& icon == VkIcon::XboxA ==> (s matches IconSource::Asset(f) && f@
                == "controller-icons/x_face_a_colored.svg"@)
            &&& icon == VkIcon::XboxB ==> (s matches IconSource::Asset(f) && f@
                == "controller-icons/x_face_b_colored.svg"@)
            &&& icon == VkIcon::XboxX ==> (s matches IconSource::Asset(f) && f@
                == "controller-icons/x_face_x_colored.svg"@)
            &&& icon == VkIcon::XboxY ==> (s matches IconSource::Asset(f) && f@
                == "controller-icons/x_face_y_colored.svg"@)
            &&& icon == VkIcon::XboxLb ==> (s matches IconSource::Asset(f) && f@
                == "controller-icons/x_shoulder_lb.svg"@)
            &&& icon == VkIcon::XboxRb ==> (s matches IconSource::Asset(f) && f@
                == "controller-icons/x_shoulder_rb.svg"@)
            &&& icon == VkIcon::XboxLt ==> (s matches IconSource::Asset(f) && f@
                == "controller-icons/x_trigger_lt.svg"@)
            &&& icon == VkIcon::XboxRt ==> (s matches IconSource::Asset(f) && f@
                == "controller-icons/x_trigger_rt.svg"@)
        }),
{
}

} // verus!

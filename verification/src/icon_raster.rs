//! The keyboard's drawings: from SVG text to premultiplied BGRA pixels.

use vstd::prelude::*;

use crate::controller_art;
use crate::controller_art::swap_red_blue;
use crate::text;
use crate::vk_icons;
use crate::vk_icons::{IconSource, VkIcon};
use crate::vk_renderer;
use crate::vk_renderer::recolored_svg;

verus! {

/// The smallest edge, in pixels, at which an icon is drawn.
pub const ICON_MIN_PX: u16 = 12;

/// The largest edge, in pixels, at which an icon is drawn.
pub const ICON_MAX_PX: u16 = 192;

/// The smallest edge to which a chip of the atlas is rasterised.
pub const CHIP_MIN_RASTER_PX: u16 = 54;

/// Chips are rasterised at this multiple of their drawn size.
pub const CHIP_OVERSAMPLING: u16 = 3;

/// The largest edge to which anything is rasterised.
pub const RASTER_MAX_PX: u16 = 576;

/// Why an icon was not drawn.
#[derive(Debug)]
pub enum IconFailure {
    /// The SVG text is not well formed.
    Parse(String),
    /// The icon is not one of the library's own drawings: its SVG text is in a file.
    InFile,
    /// There are no pixels of that size.
    Alloc,
}

/// The edge, in pixels, to which an icon is rasterised: its drawn size, or for
/// the finely detailed chips three times that.
pub open spec fn raster_edge(icon: VkIcon, draw_px: int) -> int {
    if !vk_icons::is_tip(icon) {
        draw_px
    } else if draw_px * 3 < CHIP_MIN_RASTER_PX {
        CHIP_MIN_RASTER_PX as int
    } else {
        draw_px * 3
    }
}

/// `raster_edge`, computed.
pub fn raster_px(icon: VkIcon, draw_px: u16) -> (px: u16)
    requires
        ICON_MIN_PX <= draw_px <= ICON_MAX_PX,
    ensures
        px == raster_edge(icon, draw_px as int),
        ICON_MIN_PX <= px <= RASTER_MAX_PX,
{
    if !icon.is_controller_tip() {
        return draw_px;
    }
    let wanted: u16 = draw_px * CHIP_OVERSAMPLING;
    if wanted < CHIP_MIN_RASTER_PX {
        CHIP_MIN_RASTER_PX
    } else {
        wanted
    }
}

/// A drawing's SVG text in a GDI colour.
pub open spec fn colored(drawing: Seq<char>, color: u32) -> Seq<char> {
    text::replaced(drawing, "currentColor"@, vk_renderer::hex_color(color))
}

/// Whether SVG text is one of the library's own drawings, in some colour.
pub open spec fn own_drawing(text: Seq<char>) -> bool {
    exists|icon: VkIcon, color: u32| #[trigger] draws(icon, color, text)
}

/// Whether SVG text is the library's own drawing of an icon in a colour.
pub open spec fn draws(icon: VkIcon, color: u32, text: Seq<char>) -> bool {
    match vk_icons::source_of(icon) {
        IconSource::Inline(drawing) => text == colored(drawing@, color),
        IconSource::Asset(_) => false,
    }
}

/// Whether SVG text is well formed, as `resvg::usvg::Tree::from_data` finds it with
/// its default options. That rests on the text alone.
pub uninterp spec fn svg_parses(text: Seq<char>) -> bool;

/// Draws SVG text on a square of `px` by `px` transparent pixels, with
/// `resvg::usvg::Tree::from_data`, `resvg::tiny_skia::Pixmap::new` and
/// `resvg::render`. The text's coordinates are scaled by `px / source`, which is
/// the width of a `px` by `source` size that `Size::scale_to_height` brings to
/// height one. Only the library's own drawings are admitted, at the sizes at which they
/// are drawn. On other texts the calls can panic, and no short condition on a text keeps
/// them from it: `NonZeroRect::bbox_transform` and `NonZeroRect::to_int_rect` do so for
/// the regions of some masks and filters, and `mono_cubic_closest_t` does so where it
/// looks for the point at which a very flat arc leaves the square. Of the admitted texts
/// a drawing is had exactly of those that `Tree::from_data` takes, named `svg_parses`: a
/// square of the admitted size can always be had. Its pixels are `px * px` times four
/// bytes. What they hold is left unsaid: the blending uses approximate instructions whose
/// results differ between processors.
#[verifier::external_body]
fn render_svg(svg: &str, px: u16, source: u16) -> (r: Result<Vec<u8>, IconFailure>)
    requires
        own_drawing(svg@),
        ICON_MIN_PX <= px <= ICON_MAX_PX,
        source == 24,
    ensures
        r is Ok <==> svg_parses(svg@),
        r matches Ok(pixels) ==> pixels@.len() == 4 * px * px,
        r matches Err(e) ==> e is Parse,
{
    let tree = resvg::usvg::Tree::from_data(svg.as_bytes(), &resvg::usvg::Options::default())
        .map_err(|e| IconFailure::Parse(e.to_string()))?;
    let mut pixmap = resvg::tiny_skia::Pixmap::new(px.into(), px.into())
        .ok_or(IconFailure::Alloc)?;
    let scale = resvg::usvg::Size::from_wh(px.into(), source.into())
        .and_then(|size| size.scale_to_height(1u8.into()))
        .ok_or(IconFailure::Alloc)?
        .width();
    let transform = resvg::tiny_skia::Transform::from_scale(scale, scale);
    resvg::render(&tree, transform, &mut pixmap.as_mut());
    Ok(pixmap.take())
}

/// A rendered drawing in the byte order of the screen's bitmaps. A failure is
/// passed on as it is.
pub fn icon_bitmap(rendered: Result<Vec<u8>, IconFailure>) -> (r: Result<Vec<u8>, IconFailure>)
    ensures
        match rendered {
            Ok(pixels) => r matches Ok(bitmap) && bitmap@ == controller_art::swapped(pixels@),
            Err(e) => r == Err::<Vec<u8>, IconFailure>(e),
        },
{
    match rendered {
        Ok(pixels) => {
            let mut bitmap: Vec<u8> = pixels;
            swap_red_blue(&mut bitmap);
            Ok(bitmap)
        },
        Err(e) => Err(e),
    }
}

/// What the renderer is asked to draw for an icon in a GDI colour, at a drawn size of
/// `draw_px`: the icon's SVG text in that colour, the edge of the square to draw on, and
/// the edge that the text's own coordinates span.
pub fn icon_request(icon: VkIcon, svg: &str, color: u32, draw_px: u16) -> (r: (String, u16, u16))
    requires
        ICON_MIN_PX <= draw_px <= ICON_MAX_PX,
    ensures
        r.0@ == colored(svg@, color),
        r.1 == raster_edge(icon, draw_px as int),
        r.2 == (if vk_icons::is_tip(icon) { 32u16 } else { 24u16 }),
{
    (recolored_svg(svg, color), raster_px(icon, draw_px), icon.source_px() as u16)
}

/// The pixels of an icon in a GDI colour, for a drawn size of `draw_px`. Of the library's
/// own drawings they are had exactly where the text, in that colour, is well formed, and
/// are a square of `raster_edge`; what they show is the renderer's. Of a chip of the atlas
/// they are not had here, since its text is in a file.
pub fn icon_pixels(icon: VkIcon, color: u32, draw_px: u16) -> (r: Result<Vec<u8>, IconFailure>)
    requires
        ICON_MIN_PX <= draw_px <= ICON_MAX_PX,
    ensures
        match vk_icons::source_of(icon) {
            IconSource::Inline(drawing) => match r {
                Ok(bitmap) => {
                    &&& svg_parses(colored(drawing@, color))
                    &&& bitmap@.len() == 4 * raster_edge(icon, draw_px as int) * raster_edge(
                        icon,
                        draw_px as int,
                    )
                },
                Err(IconFailure::Parse(_)) => !svg_parses(colored(drawing@, color)),
                Err(_) => false,
            },
            IconSource::Asset(_) => r matches Err(IconFailure::InFile),
        },
{
    match icon.svg() {
        IconSource::Inline(drawing) => {
            let (svg, px, source): (String, u16, u16) = icon_request(icon, drawing, color, draw_px);
            proof {
                vk_icons::tips_come_from_the_atlas(icon);
                assert(draws(icon, color, svg@));
            }
            icon_bitmap(render_svg(svg.as_str(), px, source))
        },
        IconSource::Asset(_) => Err(IconFailure::InFile),
    }
}

/// The chips of the atlas are rasterised at three times their drawn size, but at no fewer
/// than 54 pixels; every other icon at its drawn size.
pub proof fn chips_are_rasterised_finely(icon: VkIcon, draw_px: int)
    requires
        12 <= draw_px <= 192,
    ensures
        vk_icons::source_of(icon) is Inline ==> raster_edge(icon, draw_px) == draw_px,
        vk_icons::source_of(icon) is Asset && draw_px >= 18 ==> raster_edge(icon, draw_px) == 3
            * draw_px,
        vk_icons::source_of(icon) is Asset && draw_px < 18 ==> raster_edge(icon, draw_px) == 54,
{
    vk_icons::tips_come_from_the_atlas(icon);
}

/// A drawing takes a colour wherever its text leaves the colour open.
pub proof fn drawings_take_the_colour(head: Seq<char>, rest: Seq<char>, color: u32)
    requires
        forall|at: int|
            0 <= at < head.len() ==> !#[trigger] text::occurs_at(
                head + "currentColor"@ + rest,
                "currentColor"@,
                at,
            ),
    ensures
        colored(head + "currentColor"@ + rest, color) == head + vk_renderer::hex_color(color)
            + colored(rest, color),
{
    reveal_strlit("currentColor");
    text::replacing_replaces_what_is_there(
        head,
        "currentColor"@,
        vk_renderer::hex_color(color),
        rest,
    );
}

} // verus!

//! The controller artwork: from a PNG file to premultiplied BGRA pixels, and
//! down to the size that is kept.

use vstd::prelude::*;

use crate::downscale;
use crate::text::{concat3, put};
use crate::vk_renderer::ControllerArt;

verus! {

/// The longest edge, in pixels, that is kept of an artwork.
pub const CONTROLLER_ART_MAX_EDGE: u32 = 384;

/// PNG's number for colour pixels.
pub const PNG_RGB: u8 = 2;

/// PNG's number for colour pixels with transparency.
pub const PNG_RGBA: u8 = 6;

/// A decoded PNG frame.
#[derive(Debug)]
pub struct DecodedPng {
    pub width: u32,
    pub height: u32,
    /// PNG's number for the kind of pixels.
    pub color: u8,
    /// Bits per sample.
    pub depth: u8,
    pub bytes: Vec<u8>,
}

/// Why a PNG file was not decoded.
#[derive(Debug)]
pub enum PngFailure {
    Header(String),
    UnknownSize,
    Frame(String),
}

/// The first frame of a PNG file, as `png::Reader::next_frame` decodes it: width,
/// height, PNG's number for the kind of pixels, bits per sample, and the bytes.
pub uninterp spec fn png_frame(data: Seq<u8>) -> (u32, u32, u8, u8, Seq<u8>);

/// How many bytes a frame of colour pixels has: one sample after another, each of
/// one or two bytes.
pub open spec fn frame_len(width: u32, height: u32, color: u8, depth: u8) -> int {
    let samples: int = if color == PNG_RGBA { 4 } else { 3 };
    width * samples * (depth as int / 8) * height
}

/// Decodes the first frame of a PNG file, with `png::Decoder::new`, `read_info`,
/// `output_buffer_size` and `next_frame`. A frame that is returned is the one
/// named `png_frame`; where its pixels are colours, with or without transparency,
/// they have 8 or 16 bits to a sample, and the bytes are exactly those of the
/// pixels. Which files fail, and with what message, is left unsaid: that rests on
/// the machine's address space, and, in files with long side notes, on how much room
/// the allocator gives the decoder's buffer, which counts against its limit.
#[verifier::external_body]
fn decode_png(data: &[u8]) -> (r: Result<DecodedPng, PngFailure>)
    ensures
        r matches Ok(d) ==> png_frame(data@) == (d.width, d.height, d.color, d.depth, d.bytes@),
        r matches Ok(d) ==> (d.color == PNG_RGB || d.color == PNG_RGBA) ==> (d.depth == 8 || d.depth
            == 16) && d.bytes@.len() == frame_len(d.width, d.height, d.color, d.depth),
{
    let decoder = png::Decoder::new(std::io::Cursor::new(data));
    let mut reader = decoder.read_info().map_err(|e| PngFailure::Header(e.to_string()))?;
    let size: usize = reader.output_buffer_size().ok_or(PngFailure::UnknownSize)?;
    let mut bytes = vec![0u8; size];
    let info = reader.next_frame(&mut bytes).map_err(|e| PngFailure::Frame(e.to_string()))?;
    bytes.truncate(info.buffer_size());
    Ok(
        DecodedPng {
            width: info.width,
            height: info.height,
            color: info.color_type as u8,
            depth: info.bit_depth as u8,
            bytes,
        },
    )
}

/// A sample with its transparency multiplied in, to the nearest value.
pub open spec fn premultiplied(c: u8, a: u8) -> u8 {
    ((c * a + 127) / 255) as u8
}

/// `premultiplied`, computed.
pub fn premultiply(c: u8, a: u8) -> (p: u8)
    ensures
        p == premultiplied(c, a),
        p <= a,
{
    proof {
        premultiplied_is_bounded(c, a);
    }
    let sum: u32 = c as u32 * a as u32 + 127;
    (sum / 255) as u8
}

/// A premultiplied sample is at most the transparency.
pub proof fn premultiplied_is_bounded(c: u8, a: u8)
    ensures
        0 <= c * a <= 255 * 255,
        (c * a + 127) / 255 <= a,
        premultiplied(c, a) <= a,
        a == 255 ==> premultiplied(c, a) == c,
        premultiplied(c, 0) == 0,
{
    assert(0 <= c * a <= 255 * a) by (nonlinear_arith)
        requires
            0 <= c <= 255,
            0 <= a <= 255,
    ;
    assert(a == 255 ==> c * a == c * 255) by (nonlinear_arith);
    assert(c * 0 == 0) by (nonlinear_arith);
}

/// Byte `i` of the BGRA pixels made from RGBA bytes.
pub open spec fn bgra_of_rgba(bytes: Seq<u8>, i: int) -> u8 {
    let p = i / 4 * 4;
    let a = bytes[p + 3];
    if i % 4 == 3 {
        a
    } else {
        premultiplied(bytes[p + 2 - i % 4], a)
    }
}

/// Byte `i` of the BGRA pixels made from RGB bytes.
pub open spec fn bgra_of_rgb(bytes: Seq<u8>, i: int) -> u8 {
    if i % 4 == 3 {
        255
    } else {
        bytes[i / 4 * 3 + 2 - i % 4]
    }
}

/// The premultiplied BGRA pixels of a frame of colour pixels; bytes left over at
/// the end are dropped.
pub open spec fn bgra_pixels(color: u8, bytes: Seq<u8>) -> Seq<u8> {
    if color == PNG_RGBA {
        Seq::new((bytes.len() / 4 * 4) as nat, |i: int| bgra_of_rgba(bytes, i))
    } else {
        Seq::new((bytes.len() / 3 * 4) as nat, |i: int| bgra_of_rgb(bytes, i))
    }
}

fn rgba_to_bgra(bytes: &Vec<u8>) -> (out: Vec<u8>)
    ensures
        out@ == bgra_pixels(PNG_RGBA, bytes@),
{
    let n: usize = bytes.len() / 4;
    let mut out: Vec<u8> = Vec::new();
    let mut k: usize = 0;
    while k < n
        invariant
            k <= n,
            n == bytes.len() / 4,
            out@ == Seq::new((k * 4) as nat, |i: int| bgra_of_rgba(bytes@, i)),
        decreases n - k,
    {
        let p: usize = k * 4;
        let a: u8 = bytes[p + 3];
        out.push(premultiply(bytes[p + 2], a));
        out.push(premultiply(bytes[p + 1], a));
        out.push(premultiply(bytes[p], a));
        out.push(a);
        k += 1;
        assert(out@ =~= Seq::new((k * 4) as nat, |i: int| bgra_of_rgba(bytes@, i)));
    }
    out
}

fn rgb_to_bgra(bytes: &Vec<u8>) -> (out: Vec<u8>)
    ensures
        out@ == bgra_pixels(PNG_RGB, bytes@),
{
    let n: usize = bytes.len() / 3;
    let mut out: Vec<u8> = Vec::new();
    let mut k: usize = 0;
    while k < n
        invariant
            k <= n,
            n == bytes.len() / 3,
            out@ == Seq::new((k * 4) as nat, |i: int| bgra_of_rgb(bytes@, i)),
        decreases n - k,
    {
        let p: usize = k * 3;
        out.push(bytes[p + 2]);
        out.push(bytes[p + 1]);
        out.push(bytes[p]);
        out.push(255);
        k += 1;
        assert(out@ =~= Seq::new((k * 4) as nat, |i: int| bgra_of_rgb(bytes@, i)));
    }
    out
}

/// The name of a kind of pixels.
pub open spec fn color_name_spec(color: u8) -> Seq<char> {
    if color == 0 {
        "Grayscale"@
    } else if color == PNG_RGB {
        "Rgb"@
    } else if color == 3 {
        "Indexed"@
    } else if color == 4 {
        "GrayscaleAlpha"@
    } else {
        "Rgba"@
    }
}

pub fn color_name(color: u8) -> (out: &'static str)
    ensures
        out@ == color_name_spec(color),
{
    if color == 0 {
        "Grayscale"
    } else if color == PNG_RGB {
        "Rgb"
    } else if color == 3 {
        "Indexed"
    } else if color == 4 {
        "GrayscaleAlpha"
    } else {
        "Rgba"
    }
}

/// What is said of a frame whose pixels are not colours.
pub open spec fn unsupported(art: ControllerArt, color: u8) -> Seq<char> {
    "controller art "@ + art.name_spec() + ": unsupported PNG color "@ + color_name_spec(color)
}

/// The pixels of a decoded artwork.
pub fn art_pixels(art: ControllerArt, frame: &DecodedPng) -> (r: Result<Vec<u8>, String>)
    ensures
        r is Ok <==> frame.color == PNG_RGB || frame.color == PNG_RGBA,
        r matches Ok(px) ==> px@ == bgra_pixels(frame.color, frame.bytes@),
        r matches Err(e) ==> e@ == unsupported(art, frame.color),
{
    if frame.color == PNG_RGBA {
        Ok(rgba_to_bgra(&frame.bytes))
    } else if frame.color == PNG_RGB {
        Ok(rgb_to_bgra(&frame.bytes))
    } else {
        let mut e = concat3("controller art ", art.name(), ": unsupported PNG color ");
        put(&mut e, color_name(frame.color));
        Err(e)
    }
}

/// What is said of a file that was not decoded.
pub open spec fn decode_failure(art: ControllerArt, f: PngFailure) -> Seq<char> {
    match f {
        PngFailure::Header(e) => "decode controller art "@ + art.name_spec() + ": "@ + e@,
        PngFailure::UnknownSize => "controller art "@ + art.name_spec() + ": unknown decoded size"@,
        PngFailure::Frame(e) => "read controller art "@ + art.name_spec() + ": "@ + e@,
    }
}

/// `decode_failure`, computed.
pub fn decode_error(art: ControllerArt, f: &PngFailure) -> (out: String)
    ensures
        out@ == decode_failure(art, *f),
{
    match f {
        PngFailure::Header(e) => {
            let mut out = concat3("decode controller art ", art.name(), ": ");
            put(&mut out, e.as_str());
            out
        },
        PngFailure::UnknownSize => concat3("controller art ", art.name(), ": unknown decoded size"),
        PngFailure::Frame(e) => {
            let mut out = concat3("read controller art ", art.name(), ": ");
            put(&mut out, e.as_str());
            out
        },
    }
}

/// An artwork as premultiplied BGRA pixels.
#[derive(Debug)]
pub struct ArtBitmap {
    pub width: u32,
    pub height: u32,
    pub bgra: Vec<u8>,
}

/// A frame's bytes cover all its pixels.
proof fn pixels_cover_the_frame(width: u32, height: u32, color: u8, depth: u8, len: int)
    requires
        color == PNG_RGB || color == PNG_RGBA,
        depth == 8 || depth == 16,
        len == frame_len(width, height, color, depth),
    ensures
        color == PNG_RGBA ==> len / 4 * 4 >= width * height * 4,
        color == PNG_RGB ==> len / 3 * 4 >= width * height * 4,
{
    let m: int = depth as int / 8;
    let n: int = width * height;
    assert(n >= 0) by (nonlinear_arith)
        requires
            n == width * height,
            width >= 0,
            height >= 0,
    ;
    if color == PNG_RGBA {
        assert(len == (n * m) * 4) by (nonlinear_arith)
            requires
                len == width * 4 * m * height,
                n == width * height,
        ;
    } else {
        assert(len == (n * m) * 3) by (nonlinear_arith)
            requires
                len == width * 3 * m * height,
                n == width * height,
        ;
    }
    assert(n * m >= n) by (nonlinear_arith)
        requires
            m >= 1,
            n >= 0,
    ;
}

/// Whether a bitmap holds a whole pixel for each point.
pub open spec fn whole(width: u32, height: u32, bgra: Seq<u8>) -> bool {
    bgra.len() >= width * height * 4
}

/// The bitmap of an artwork, from what the decoder made of its file. A file that was not
/// decoded, or whose pixels are not colours, is an error.
pub fn art_bitmap(art: ControllerArt, decoded: Result<DecodedPng, PngFailure>) -> (r: Result<
    ArtBitmap,
    String,
>)
    ensures
        match decoded {
            Ok(frame) => if frame.color == PNG_RGB || frame.color == PNG_RGBA {
                r matches Ok(b) && b.width == frame.width && b.height == frame.height && b.bgra@
                    == bgra_pixels(frame.color, frame.bytes@)
            } else {
                r matches Err(e) && e@ == unsupported(art, frame.color)
            },
            Err(f) => r matches Err(e) && e@ == decode_failure(art, f),
        },
{
    match decoded {
        Ok(frame) => match art_pixels(art, &frame) {
            Ok(bgra) => Ok(ArtBitmap { width: frame.width, height: frame.height, bgra }),
            Err(e) => Err(e),
        },
        Err(f) => Err(decode_error(art, &f)),
    }
}

/// Decodes an artwork. What is decoded has the size and the pixels of the frame
/// that the decoder names; a file that it does not decode, or whose pixels are
/// not colours, is an error.
pub fn load_art(art: ControllerArt, data: &[u8]) -> (r: Result<ArtBitmap, String>)
    ensures
        ({
            let (width, height, color, depth, bytes) = png_frame(data@);
            match r {
                Ok(b) => {
                    &&& color == PNG_RGB || color == PNG_RGBA
                    &&& b.width == width && b.height == height
                    &&& b.bgra@ == bgra_pixels(color, bytes)
                    &&& whole(b.width, b.height, b.bgra@)
                },
                Err(e) => {
                    ||| color != PNG_RGB && color != PNG_RGBA && e@ == unsupported(art, color)
                    ||| exists|f: PngFailure| e@ == #[trigger] decode_failure(art, f)
                },
            }
        }),
{
    let decoded = decode_png(data);
    proof {
        if decoded is Ok && (decoded->Ok_0.color == PNG_RGB || decoded->Ok_0.color == PNG_RGBA) {
            let frame = decoded->Ok_0;
            pixels_cover_the_frame(
                frame.width,
                frame.height,
                frame.color,
                frame.depth,
                frame.bytes@.len() as int,
            );
        }
    }
    art_bitmap(art, decoded)
}

/// Decoded pixels are premultiplied: no sample exceeds the transparency of its
/// pixel.
pub proof fn decoded_pixels_are_premultiplied(color: u8, bytes: Seq<u8>)
    ensures
        downscale::is_premultiplied(bgra_pixels(color, bytes)),
{
    let out = bgra_pixels(color, bytes);
    assert forall|p: int, c: int| 0 <= p && p * 4 + 3 < out.len() && 0 <= c < 3 implies
        #[trigger] out[p * 4 + c] <= out[p * 4 + 3] by {
        assert((p * 4 + c) / 4 == p && (p * 4 + c) % 4 == c);
        assert((p * 4 + 3) / 4 == p && (p * 4 + 3) % 4 == 3);
        if color == PNG_RGBA {
            premultiplied_is_bounded(bytes[p * 4 + 2 - c], bytes[p * 4 + 3]);
        }
    }
}

/// Swaps the red and blue samples of four-byte pixels.
pub open spec fn swapped(bytes: Seq<u8>) -> Seq<u8> {
    Seq::new(
        bytes.len(),
        |i: int|
            if i / 4 * 4 + 4 <= bytes.len() && (i % 4 == 0 || i % 4 == 2) {
                bytes[i / 4 * 4 + 2 - i % 4]
            } else {
                bytes[i]
            },
    )
}

/// `swapped`, in place.
pub fn swap_red_blue(bytes: &mut Vec<u8>)
    ensures
        final(bytes)@ == swapped(old(bytes)@),
{
    let ghost src = bytes@;
    let n: usize = bytes.len() / 4;
    let mut k: usize = 0;
    while k < n
        invariant
            k <= n,
            n == bytes.len() / 4,
            bytes@.len() == src.len(),
            forall|i: int| 0 <= i < k * 4 ==> #[trigger] bytes@[i] == swapped(src)[i],
            forall|i: int| k * 4 <= i < src.len() ==> #[trigger] bytes@[i] == src[i],
        decreases n - k,
    {
        let p: usize = k * 4;
        let first: u8 = bytes[p];
        let third: u8 = bytes[p + 2];
        bytes.set(p, third);
        bytes.set(p + 2, first);
        k += 1;
    }
    assert(bytes@ =~= swapped(src));
}

/// Swapping twice changes nothing.
pub proof fn swapping_twice_is_nothing(bytes: Seq<u8>)
    ensures
        swapped(swapped(bytes)) == bytes,
{
    assert(swapped(swapped(bytes)) =~= bytes);
}

/// Multiplying a sample by its transparency rounds to the nearest value.
pub proof fn premultiplying_rounds_to_the_nearest(c: u8, a: u8)
    ensures
        -254 <= 2 * (255 * premultiplied(c, a) - c * a) <= 254,
{
    premultiplied_is_bounded(c, a);
}

/// Each pixel's blue comes first, then its green, its red and its transparency; pixels
/// without one are opaque and keep their samples.
pub proof fn pixels_are_blue_first(bytes: Seq<u8>, k: int)
    ensures
        0 <= k && 4 * k + 3 < bytes.len() ==> {
            let out = bgra_pixels(6, bytes);
            let a = bytes[4 * k + 3];
            &&& 4 * k + 3 < out.len()
            &&& out[4 * k] == premultiplied(bytes[4 * k + 2], a)
            &&& out[4 * k + 1] == premultiplied(bytes[4 * k + 1], a)
            &&& out[4 * k + 2] == premultiplied(bytes[4 * k], a)
            &&& out[4 * k + 3] == a
        },
        0 <= k && 3 * k + 2 < bytes.len() ==> {
            let out = bgra_pixels(2, bytes);
            &&& 4 * k + 3 < out.len()
            &&& out[4 * k] == bytes[3 * k + 2]
            &&& out[4 * k + 1] == bytes[3 * k + 1]
            &&& out[4 * k + 2] == bytes[3 * k]
            &&& out[4 * k + 3] == 255
        },
        bgra_pixels(6, bytes).len() == bytes.len() - bytes.len() % 4,
        3 * bgra_pixels(2, bytes).len() == 4 * (bytes.len() - bytes.len() % 3),
{
    if 0 <= k {
        assert((4 * k) / 4 == k && (4 * k) % 4 == 0);
        assert((4 * k + 1) / 4 == k && (4 * k + 1) % 4 == 1);
        assert((4 * k + 2) / 4 == k && (4 * k + 2) % 4 == 2);
        assert((4 * k + 3) / 4 == k && (4 * k + 3) % 4 == 3);
    }
}

/// Swapping exchanges the first and the third sample of each whole pixel and leaves the
/// second and the fourth, and what is left over at the end, where they are.
pub proof fn swapping_exchanges_first_and_third(bytes: Seq<u8>, k: int)
    requires
        0 <= k,
    ensures
        swapped(bytes).len() == bytes.len(),
        4 * k + 3 < bytes.len() ==> {
            &&& swapped(bytes)[4 * k] == bytes[4 * k + 2]
            &&& swapped(bytes)[4 * k + 1] == bytes[4 * k + 1]
            &&& swapped(bytes)[4 * k + 2] == bytes[4 * k]
            &&& swapped(bytes)[4 * k + 3] == bytes[4 * k + 3]
        },
        bytes.len() - bytes.len() % 4 <= k < bytes.len() ==> swapped(bytes)[k] == bytes[k],
{
    assert((4 * k) / 4 == k && (4 * k) % 4 == 0);
    assert((4 * k + 1) / 4 == k && (4 * k + 1) % 4 == 1);
    assert((4 * k + 2) / 4 == k && (4 * k + 2) % 4 == 2);
    assert((4 * k + 3) / 4 == k && (4 * k + 3) % 4 == 3);
}

/// The kinds of pixels are named by PNG's numbers, and a refusal names the artwork and the
/// kind.
pub proof fn kinds_of_pixels_have_names(art: ControllerArt, color: u8)
    ensures
        color == 0 ==> color_name_spec(color) == "Grayscale"@,
        color == 2 ==> color_name_spec(color) == "Rgb"@,
        color == 3 ==> color_name_spec(color) == "Indexed"@,
        color == 4 ==> color_name_spec(color) == "GrayscaleAlpha"@,
        color == 6 ==> color_name_spec(color) == "Rgba"@,
        art == ControllerArt::DualSense ==> unsupported(art, color) == "controller art "@
            + "DualSense"@ + ": unsupported PNG color "@ + color_name_spec(color),
        art == ControllerArt::XboxOne ==> unsupported(art, color) == "controller art "@ + "XboxOne"@
            + ": unsupported PNG color "@ + color_name_spec(color),
{
}

/// A file that was not decoded is reported with the artwork and with what the decoder said,
/// and apart from one whose size it did not know.
pub proof fn undecoded_files_are_reported(art: ControllerArt, e: String)
    ensures
        decode_failure(art, PngFailure::Header(e)) == "decode controller art "@ + art.name_spec()
            + ": "@ + e@,
        decode_failure(art, PngFailure::Frame(e)) == "read controller art "@ + art.name_spec()
            + ": "@ + e@,
        decode_failure(art, PngFailure::UnknownSize) == "controller art "@ + art.name_spec()
            + ": unknown decoded size"@,
{
}

} // verus!

//! Shrinking a bitmap by averaging.

use vstd::arithmetic::div_mod;
use vstd::prelude::*;

verus! {

/// The first source line of target line `t`, when `s` lines are shrunk to `n`.
pub open spec fn span_from(t: int, s: int, n: int) -> int {
    t * s / n
}

/// Where the source lines of target line `t` end: at least one line, and not past
/// the last.
pub open spec fn span_to(t: int, s: int, n: int) -> int {
    let next = (t + 1) * s / n;
    let least = span_from(t, s, n) + 1;
    let end = if next > least { next } else { least };
    if end < s {
        end
    } else {
        s
    }
}

/// A target line has at least one source line, and none that is not there.
pub proof fn span_is_proper(t: int, s: int, n: int)
    requires
        0 <= t < n,
        1 <= s,
    ensures
        0 <= span_from(t, s, n) < span_to(t, s, n) <= s,
{
    assert(0 <= t * s < n * s) by (nonlinear_arith)
        requires
            0 <= t < n,
            1 <= s,
    ;
    div_mod::lemma_multiply_divide_lt(t * s, n, s);
    assert(t * s / n >= 0) by (nonlinear_arith)
        requires
            t * s >= 0,
            n >= 1,
    ;
}

/// The sum of channel `c` over pixels `x0` to `x1` of line `y`.
pub open spec fn row_sum(src: Seq<u8>, sw: int, y: int, x0: int, x1: int, c: int) -> int
    decreases x1 - x0,
{
    if x1 <= x0 {
        0
    } else {
        row_sum(src, sw, y, x0, x1 - 1, c) + src[(y * sw + x1 - 1) * 4 + c]
    }
}

/// The sum of channel `c` over a box of pixels.
pub open spec fn box_sum(
    src: Seq<u8>,
    sw: int,
    y0: int,
    y1: int,
    x0: int,
    x1: int,
    c: int,
) -> int
    decreases y1 - y0,
{
    if y1 <= y0 {
        0
    } else {
        box_sum(src, sw, y0, y1 - 1, x0, x1, c) + row_sum(src, sw, y1 - 1, x0, x1, c)
    }
}

/// The mean of channel `c` over a box of pixels, rounded down.
pub open spec fn box_mean(
    src: Seq<u8>,
    sw: int,
    y0: int,
    y1: int,
    x0: int,
    x1: int,
    c: int,
) -> int {
    box_sum(src, sw, y0, y1, x0, x1, c) / ((y1 - y0) * (x1 - x0))
}

/// Byte `o` of the bitmap shrunk from `sw` by `sh` to `tw` by `th` pixels.
pub open spec fn shrunk_byte(src: Seq<u8>, sw: int, sh: int, tw: int, th: int, o: int) -> int {
    let ty = o / 4 / tw;
    let tx = o / 4 % tw;
    box_mean(
        src,
        sw,
        span_from(ty, sh, th),
        span_to(ty, sh, th),
        span_from(tx, sw, tw),
        span_to(tx, sw, tw),
        o % 4,
    )
}

/// The bitmap shrunk to `tw` by `th` pixels.
pub open spec fn shrunk(src: Seq<u8>, sw: int, sh: int, tw: int, th: int) -> Seq<u8> {
    Seq::new((tw * th * 4) as nat, |o: int| shrunk_byte(src, sw, sh, tw, th, o) as u8)
}

proof fn row_sum_bound(src: Seq<u8>, sw: int, y: int, x0: int, x1: int, c: int)
    requires
        x0 <= x1,
    ensures
        0 <= row_sum(src, sw, y, x0, x1, c) <= 255 * (x1 - x0),
    decreases x1 - x0,
{
    if x1 > x0 {
        row_sum_bound(src, sw, y, x0, x1 - 1, c);
    }
}

proof fn box_sum_bound(src: Seq<u8>, sw: int, y0: int, y1: int, x0: int, x1: int, c: int)
    requires
        x0 <= x1,
        y0 <= y1,
    ensures
        0 <= box_sum(src, sw, y0, y1, x0, x1, c) <= 255 * ((y1 - y0) * (x1 - x0)),
    decreases y1 - y0,
{
    if y1 > y0 {
        box_sum_bound(src, sw, y0, y1 - 1, x0, x1, c);
        row_sum_bound(src, sw, y1 - 1, x0, x1, c);
        assert((y1 - y0) * (x1 - x0) == (y1 - 1 - y0) * (x1 - x0) + (x1 - x0)) by (nonlinear_arith);
    } else {
        assert((y1 - y0) * (x1 - x0) == 0) by (nonlinear_arith)
            requires
                y1 == y0,
        ;
    }
}

/// A mean of bytes is a byte.
pub proof fn box_mean_is_a_byte(
    src: Seq<u8>,
    sw: int,
    y0: int,
    y1: int,
    x0: int,
    x1: int,
    c: int,
)
    requires
        x0 < x1,
        y0 < y1,
    ensures
        0 <= box_mean(src, sw, y0, y1, x0, x1, c) <= 255,
        (y1 - y0) * (x1 - x0) >= 1,
{
    let n = (y1 - y0) * (x1 - x0);
    assert(n >= 1) by (nonlinear_arith)
        requires
            n == (y1 - y0) * (x1 - x0),
            x0 < x1,
            y0 < y1,
    ;
    box_sum_bound(src, sw, y0, y1, x0, x1, c);
    let s = box_sum(src, sw, y0, y1, x0, x1, c);
    assert(n * 255 == 255 * n) by (nonlinear_arith);
    div_mod::lemma_multiply_divide_le(s, n, 255);
    assert(s / n >= 0) by (nonlinear_arith)
        requires
            s >= 0,
            n >= 1,
    ;
}

/// A pixel's bytes lie inside the bitmap.
proof fn pixel_is_inside(sw: int, sh: int, x: int, y: int, len: int)
    requires
        0 <= x < sw,
        0 <= y < sh,
        sw * sh * 4 <= len,
    ensures
        0 <= y * sw,
        (y * sw + x) * 4 + 3 < len,
{
    assert(y * sw + x < sw * sh && 0 <= y * sw) by (nonlinear_arith)
        requires
            0 <= x < sw,
            0 <= y < sh,
    ;
}

fn row_total(src: &[u8], sw: usize, sh: usize, y: usize, x0: usize, x1: usize, c: usize) -> (s: u64)
    requires
        x0 <= x1 <= sw <= u32::MAX,
        y < sh <= u32::MAX,
        c < 4,
        sw * sh * 4 <= src@.len(),
    ensures
        s == row_sum(src@, sw as int, y as int, x0 as int, x1 as int, c as int),
        s <= 255 * (x1 - x0),
{
    let len: usize = src.len();
    let mut x: usize = x0;
    let mut s: u64 = 0;
    while x < x1
        invariant
            x0 <= x <= x1 <= sw <= u32::MAX,
            y < sh <= u32::MAX,
            c < 4,
            sw * sh * 4 <= src@.len(),
            len == src@.len(),
            s == row_sum(src@, sw as int, y as int, x0 as int, x as int, c as int),
            s <= 255 * (x - x0),
        decreases x1 - x,
    {
        proof {
            pixel_is_inside(sw as int, sh as int, x as int, y as int, src@.len() as int);
        }
        let i: usize = (y * sw + x) * 4 + c;
        s += src[i] as u64;
        x += 1;
    }
    s
}

fn mean(
    src: &[u8],
    sw: usize,
    sh: usize,
    y0: usize,
    y1: usize,
    x0: usize,
    x1: usize,
    c: usize,
) -> (m: u8)
    requires
        x0 < x1 <= sw <= u32::MAX,
        y0 < y1 <= sh <= u32::MAX,
        c < 4,
        sw * sh * 4 <= src@.len(),
    ensures
        m == box_mean(
            src@,
            sw as int,
            y0 as int,
            y1 as int,
            x0 as int,
            x1 as int,
            c as int,
        ),
{
    let mut y: usize = y0;
    let mut s: u128 = 0;
    while y < y1
        invariant
            y0 <= y <= y1 <= sh <= u32::MAX,
            x0 < x1 <= sw <= u32::MAX,
            c < 4,
            sw * sh * 4 <= src@.len(),
            s == box_sum(src@, sw as int, y0 as int, y as int, x0 as int, x1 as int, c as int),
            s <= 0xff_0000_0000 * (y - y0),
        decreases y1 - y,
    {
        let r: u64 = row_total(src, sw, sh, y, x0, x1, c);
        s += r as u128;
        y += 1;
    }
    proof {
        box_mean_is_a_byte(
            src@,
            sw as int,
            y0 as int,
            y1 as int,
            x0 as int,
            x1 as int,
            c as int,
        );
        assert((y1 - y0) * (x1 - x0) < 0x1_0000_0000 * 0x1_0000_0000) by (nonlinear_arith)
            requires
                0 <= y0 < y1 <= 0xffff_ffff,
                0 <= x0 < x1 <= 0xffff_ffff,
        ;
    }
    let n: u128 = (y1 - y0) as u128 * (x1 - x0) as u128;
    (s / n) as u8
}

fn span(t: u32, s: u32, n: u32) -> (r: (usize, usize))
    requires
        t < n,
        1 <= s,
    ensures
        r.0 == span_from(t as int, s as int, n as int),
        r.1 == span_to(t as int, s as int, n as int),
        r.0 < r.1 <= s,
{
    proof {
        span_is_proper(t as int, s as int, n as int);
        assert(t * s <= 0xffff_ffff * 0xffff_ffff && (t + 1) * s <= 0xffff_ffff * 0xffff_ffff && t
            * s <= (t + 1) * s) by (nonlinear_arith)
            requires
                0 <= t < 0xffff_ffff,
                1 <= s <= 0xffff_ffff,
        ;
        assert(t * s / (n as int) <= t * s && (t + 1) * s / (n as int) <= (t + 1) * s)
            by (nonlinear_arith)
            requires
                n >= 1,
                t >= 0,
                s >= 1,
        ;
    }
    let from: u64 = t as u64 * s as u64 / n as u64;
    let next: u64 = (t as u64 + 1) * s as u64 / n as u64;
    let least: u64 = from + 1;
    let end: u64 = if next > least {
        next
    } else {
        least
    };
    let to: u64 = if end < s as u64 {
        end
    } else {
        s as u64
    };
    (from as usize, to as usize)
}

fn copied(src: &[u8]) -> (out: Vec<u8>)
    ensures
        out@ == src@,
{
    let mut out: Vec<u8> = Vec::new();
    let mut i: usize = 0;
    while i < src.len()
        invariant
            i <= src.len(),
            out@ == src@.take(i as int),
        decreases src.len() - i,
    {
        out.push(src[i]);
        i += 1;
        assert(src@.take(i as int) =~= src@.take(i - 1).push(src@[i - 1]));
    }
    assert(src@.take(i as int) =~= src@);
    out
}

/// Shrinks premultiplied BGRA pixels to `tw` by `th` by averaging the pixels that
/// fall on each target pixel. A bitmap whose edges are within `max_edge`, or that
/// has no pixels, is returned as it is.
pub fn downscale_bgra_premul(
    src: &[u8],
    sw: u32,
    sh: u32,
    max_edge: u32,
    tw: u32,
    th: u32,
) -> (r: (Vec<u8>, u32, u32))
    requires
        (sw > max_edge || sh > max_edge) && sw > 0 && sh > 0 ==> 1 <= tw <= sw && 1 <= th <= sh && sw
            * sh * 4 <= src@.len(),
    ensures
        if (sw > max_edge || sh > max_edge) && sw > 0 && sh > 0 {
            r.0@ == shrunk(src@, sw as int, sh as int, tw as int, th as int) && r.1 == tw && r.2
                == th
        } else {
            r.0@ == src@ && r.1 == sw && r.2 == sh
        },
{
    if (sw <= max_edge && sh <= max_edge) || sw == 0 || sh == 0 {
        return (copied(src), sw, sh);
    }
    proof {
        assert(src@.len() == src.len());
        assert(tw * th <= sw * sh && tw * th >= 1) by (nonlinear_arith)
            requires
                1 <= tw <= sw,
                1 <= th <= sh,
        ;
    }
    let pixels: usize = tw as usize * th as usize;
    let mut out: Vec<u8> = Vec::new();
    let mut px: usize = 0;
    while px < pixels
        invariant
            px <= pixels,
            pixels == tw * th,
            1 <= tw <= sw,
            1 <= th <= sh,
            sw * sh * 4 <= src@.len(),
            pixels * 4 <= usize::MAX,
            out@ == Seq::new(
                (px * 4) as nat,
                |o: int| shrunk_byte(src@, sw as int, sh as int, tw as int, th as int, o) as u8,
            ),
        decreases pixels - px,
    {
        let ghost before = out@;
        proof {
            assert(px as int / (tw as int) < th) by {
                div_mod::lemma_multiply_divide_lt(px as int, tw as int, th as int);
            }
        }
        let ty: u32 = (px / tw as usize) as u32;
        let tx: u32 = (px % tw as usize) as u32;
        let (y0, y1) = span(ty, sh, th);
        let (x0, x1) = span(tx, sw, tw);
        let mut c: usize = 0;
        while c < 4
            invariant
                c <= 4,
                px < pixels,
                pixels * 4 <= usize::MAX,
                ty == px as int / (tw as int),
                tx == px as int % (tw as int),
                y0 == span_from(ty as int, sh as int, th as int),
                y1 == span_to(ty as int, sh as int, th as int),
                x0 == span_from(tx as int, sw as int, tw as int),
                x1 == span_to(tx as int, sw as int, tw as int),
                y0 < y1 <= sh,
                x0 < x1 <= sw,
                sw * sh * 4 <= src@.len(),
                out@ == Seq::new(
                    (px * 4 + c) as nat,
                    |o: int| shrunk_byte(src@, sw as int, sh as int, tw as int, th as int, o) as u8,
                ),
            decreases 4 - c,
        {
            let m: u8 = mean(src, sw as usize, sh as usize, y0, y1, x0, x1, c);
            out.push(m);
            c += 1;
            assert((px * 4 + c - 1) / 4 == px && (px * 4 + c - 1) % 4 == c - 1);
            assert(out@ =~= Seq::new(
                (px * 4 + c) as nat,
                |o: int| shrunk_byte(src@, sw as int, sh as int, tw as int, th as int, o) as u8,
            ));
        }
        px += 1;
    }
    assert(out@ =~= shrunk(src@, sw as int, sh as int, tw as int, th as int));
    (out, tw, th)
}

/// Whether no sample of a bitmap exceeds the transparency of its pixel.
pub open spec fn is_premultiplied(src: Seq<u8>) -> bool {
    forall|p: int, c: int|
        0 <= p && p * 4 + 3 < src.len() && 0 <= c < 3 ==> #[trigger] src[p * 4 + c] <= src[p * 4 + 3]
}

proof fn row_sums_are_ordered(src: Seq<u8>, sw: int, sh: int, y: int, x0: int, x1: int, c: int)
    requires
        is_premultiplied(src),
        0 <= x0 <= x1 <= sw,
        0 <= y < sh,
        0 <= c < 3,
        sw * sh * 4 <= src.len(),
    ensures
        row_sum(src, sw, y, x0, x1, c) <= row_sum(src, sw, y, x0, x1, 3),
    decreases x1 - x0,
{
    if x1 > x0 {
        row_sums_are_ordered(src, sw, sh, y, x0, x1 - 1, c);
        pixel_is_inside(sw, sh, x1 - 1, y, src.len() as int);
        let p = y * sw + x1 - 1;
        assert(src[p * 4 + c] <= src[p * 4 + 3]);
    }
}

proof fn box_sums_are_ordered(
    src: Seq<u8>,
    sw: int,
    sh: int,
    y0: int,
    y1: int,
    x0: int,
    x1: int,
    c: int,
)
    requires
        is_premultiplied(src),
        0 <= x0 <= x1 <= sw,
        0 <= y0 <= y1 <= sh,
        0 <= c < 3,
        sw * sh * 4 <= src.len(),
    ensures
        box_sum(src, sw, y0, y1, x0, x1, c) <= box_sum(src, sw, y0, y1, x0, x1, 3),
    decreases y1 - y0,
{
    if y1 > y0 {
        box_sums_are_ordered(src, sw, sh, y0, y1 - 1, x0, x1, c);
        row_sums_are_ordered(src, sw, sh, y1 - 1, x0, x1, c);
    }
}

/// Shrinking keeps a bitmap premultiplied: no sample comes to exceed the
/// transparency of its pixel.
pub proof fn shrinking_keeps_premultiplied(src: Seq<u8>, sw: int, sh: int, tw: int, th: int)
    requires
        is_premultiplied(src),
        1 <= tw <= sw,
        1 <= th <= sh,
        sw * sh * 4 <= src.len(),
    ensures
        is_premultiplied(shrunk(src, sw, sh, tw, th)),
{
    let out = shrunk(src, sw, sh, tw, th);
    assert forall|p: int, c: int| 0 <= p && p * 4 + 3 < out.len() && 0 <= c < 3 implies
        #[trigger] out[p * 4 + c] <= out[p * 4 + 3] by {
        let ty = p / tw;
        let tx = p % tw;
        assert((p * 4 + c) / 4 == p && (p * 4 + c) % 4 == c);
        assert((p * 4 + 3) / 4 == p && (p * 4 + 3) % 4 == 3);
        assert(tw * th >= 1) by (nonlinear_arith)
            requires
                tw >= 1,
                th >= 1,
        ;
        assert(p < tw * th);
        div_mod::lemma_multiply_divide_lt(p, tw, th);
        assert(ty >= 0) by (nonlinear_arith)
            requires
                p >= 0,
                tw >= 1,
                ty == p / tw,
        ;
        span_is_proper(ty, sh, th);
        span_is_proper(tx, sw, tw);
        let (y0, y1) = (span_from(ty, sh, th), span_to(ty, sh, th));
        let (x0, x1) = (span_from(tx, sw, tw), span_to(tx, sw, tw));
        box_sums_are_ordered(src, sw, sh, y0, y1, x0, x1, c);
        box_mean_is_a_byte(src, sw, y0, y1, x0, x1, c);
        box_mean_is_a_byte(src, sw, y0, y1, x0, x1, 3);
        div_mod::lemma_div_is_ordered(
            box_sum(src, sw, y0, y1, x0, x1, c),
            box_sum(src, sw, y0, y1, x0, x1, 3),
            (y1 - y0) * (x1 - x0),
        );
    }
}

/// Whether channel `c` of every pixel of a bitmap lies within `lo` and `hi`.
pub open spec fn channel_within(src: Seq<u8>, c: int, lo: u8, hi: u8) -> bool {
    forall|p: int| 0 <= p && p * 4 + 3 < src.len() ==> lo <= #[trigger] src[p * 4 + c] <= hi
}

proof fn row_sum_within(
    src: Seq<u8>,
    sw: int,
    sh: int,
    y: int,
    x0: int,
    x1: int,
    c: int,
    lo: u8,
    hi: u8,
)
    requires
        channel_within(src, c, lo, hi),
        0 <= x0 <= x1 <= sw,
        0 <= y < sh,
        sw * sh * 4 <= src.len(),
    ensures
        lo * (x1 - x0) <= row_sum(src, sw, y, x0, x1, c) <= hi * (x1 - x0),
    decreases x1 - x0,
{
    if x1 > x0 {
        row_sum_within(src, sw, sh, y, x0, x1 - 1, c, lo, hi);
        pixel_is_inside(sw, sh, x1 - 1, y, src.len() as int);
        let p = y * sw + x1 - 1;
        assert(lo <= src[p * 4 + c] <= hi);
        assert(lo * (x1 - x0) == lo * (x1 - 1 - x0) + lo) by (nonlinear_arith);
        assert(hi * (x1 - x0) == hi * (x1 - 1 - x0) + hi) by (nonlinear_arith);
    } else {
        assert(lo * (x1 - x0) == 0 && hi * (x1 - x0) == 0) by (nonlinear_arith)
            requires
                x1 == x0,
        ;
    }
}

proof fn box_sum_within(
    src: Seq<u8>,
    sw: int,
    sh: int,
    y0: int,
    y1: int,
    x0: int,
    x1: int,
    c: int,
    lo: u8,
    hi: u8,
)
    requires
        channel_within(src, c, lo, hi),
        0 <= x0 <= x1 <= sw,
        0 <= y0 <= y1 <= sh,
        sw * sh * 4 <= src.len(),
    ensures
        lo * ((y1 - y0) * (x1 - x0)) <= box_sum(src, sw, y0, y1, x0, x1, c) <= hi * ((y1 - y0) * (x1
            - x0)),
    decreases y1 - y0,
{
    let w = x1 - x0;
    let h = y1 - y0;
    if y1 > y0 {
        box_sum_within(src, sw, sh, y0, y1 - 1, x0, x1, c, lo, hi);
        row_sum_within(src, sw, sh, y1 - 1, x0, x1, c, lo, hi);
        assert(lo * (h * w) == lo * ((h - 1) * w) + lo * w) by (nonlinear_arith);
        assert(hi * (h * w) == hi * ((h - 1) * w) + hi * w) by (nonlinear_arith);
    } else {
        assert(lo * (h * w) == 0 && hi * (h * w) == 0) by (nonlinear_arith)
            requires
                h == 0,
        ;
    }
}

/// Shrinking brings in no new shades: what bounds a channel of the source bounds that
/// channel of every pixel of the target, so each lies between the channel's smallest and
/// largest source value.
pub proof fn shrinking_stays_within(
    src: Seq<u8>,
    sw: int,
    sh: int,
    tw: int,
    th: int,
    c: int,
    lo: u8,
    hi: u8,
)
    requires
        channel_within(src, c, lo, hi),
        0 <= c < 4,
        1 <= tw <= sw,
        1 <= th <= sh,
        sw * sh * 4 <= src.len(),
    ensures
        channel_within(shrunk(src, sw, sh, tw, th), c, lo, hi),
{
    let out = shrunk(src, sw, sh, tw, th);
    assert forall|p: int| 0 <= p && p * 4 + 3 < out.len() implies lo <= #[trigger] out[p * 4 + c]
        <= hi by {
        let ty = p / tw;
        let tx = p % tw;
        assert((p * 4 + c) / 4 == p && (p * 4 + c) % 4 == c);
        assert(tw * th >= 1) by (nonlinear_arith)
            requires
                tw >= 1,
                th >= 1,
        ;
        assert(p < tw * th);
        div_mod::lemma_multiply_divide_lt(p, tw, th);
        assert(ty >= 0) by (nonlinear_arith)
            requires
                p >= 0,
                tw >= 1,
                ty == p / tw,
        ;
        span_is_proper(ty, sh, th);
        span_is_proper(tx, sw, tw);
        let (y0, y1) = (span_from(ty, sh, th), span_to(ty, sh, th));
        let (x0, x1) = (span_from(tx, sw, tw), span_to(tx, sw, tw));
        let n = (y1 - y0) * (x1 - x0);
        let s = box_sum(src, sw, y0, y1, x0, x1, c);
        box_sum_within(src, sw, sh, y0, y1, x0, x1, c, lo, hi);
        box_mean_is_a_byte(src, sw, y0, y1, x0, x1, c);
        assert(lo <= s / n <= hi) by (nonlinear_arith)
            requires
                lo * n <= s <= hi * n,
                n >= 1,
        ;
    }
}

/// Where lines are shrunk, each source line falls on exactly one target line: the first
/// target line begins with the first, each begins where the one before it ends, and the last
/// ends with the last.
pub proof fn spans_share_nothing_and_miss_nothing(t: int, s: int, n: int)
    requires
        0 <= t < n <= s,
    ensures
        span_from(0, s, n) == 0,
        span_to(n - 1, s, n) == s,
        t + 1 < n ==> span_to(t, s, n) == span_from(t + 1, s, n),
{
    assert(0 * s == 0) by (nonlinear_arith);
    assert(0int / n == 0) by (nonlinear_arith)
        requires
            n >= 1,
    ;
    assert(n * s / n == s) by {
        div_mod::lemma_div_multiples_vanish(s, n);
    }
    span_is_proper(n - 1, s, n);
    assert((n - 1 + 1) * s == n * s) by (nonlinear_arith);
    let from = t * s / n;
    let next = (t + 1) * s / n;
    assert(next >= from + 1) by {
        assert((t + 1) * s == t * s + s) by (nonlinear_arith);
        div_mod::lemma_div_is_ordered(t * s + n, t * s + s, n);
        div_mod::lemma_div_plus_one(t * s, n);
    }
    if t + 1 < n {
        assert(next <= s) by {
            assert((t + 1) * s <= n * s) by (nonlinear_arith)
                requires
                    t + 1 < n,
                    s >= 1,
            ;
            div_mod::lemma_div_is_ordered((t + 1) * s, n * s, n);
        }
    }
}

/// Each sample of a shrunk bitmap is the mean, rounded down, of the samples of its channel
/// over the source lines and columns that fall on its pixel.
pub proof fn shrunk_samples_are_means(
    src: Seq<u8>,
    sw: int,
    sh: int,
    tw: int,
    th: int,
    tx: int,
    ty: int,
    c: int,
)
    requires
        1 <= tw <= sw,
        1 <= th <= sh,
        0 <= tx < tw,
        0 <= ty < th,
        0 <= c < 4,
    ensures
        ({
            let x0 = tx * sw / tw;
            let x1 = (tx + 1) * sw / tw;
            let y0 = ty * sh / th;
            let y1 = (ty + 1) * sh / th;
            let n = (y1 - y0) * (x1 - x0);
            let m = shrunk(src, sw, sh, tw, th)[(ty * tw + tx) * 4 + c];
            let sum = box_sum(src, sw, y0, y1, x0, x1, c);
            &&& x0 < x1 <= sw && y0 < y1 <= sh
            &&& m * n <= sum < (m + 1) * n
        }),
        shrunk(src, sw, sh, tw, th).len() == tw * th * 4,
{
    let p = ty * tw + tx;
    let o = p * 4 + c;
    assert(0 <= p < tw * th) by (nonlinear_arith)
        requires
            0 <= tx < tw,
            0 <= ty < th,
            p == ty * tw + tx,
    ;
    assert(o / 4 == p && o % 4 == c);
    assert(p / tw == ty && p % tw == tx) by {
        div_mod::lemma_fundamental_div_mod_converse(p, tw, ty, tx);
    }
    span_is_proper(tx, sw, tw);
    span_is_proper(ty, sh, th);
    spans_share_nothing_and_miss_nothing(tx, sw, tw);
    spans_share_nothing_and_miss_nothing(ty, sh, th);
    full_span(tx, sw, tw);
    full_span(ty, sh, th);
    let (y0, y1) = (span_from(ty, sh, th), span_to(ty, sh, th));
    let (x0, x1) = (span_from(tx, sw, tw), span_to(tx, sw, tw));
    box_mean_is_a_byte(src, sw, y0, y1, x0, x1, c);
    let n = (y1 - y0) * (x1 - x0);
    let sum = box_sum(src, sw, y0, y1, x0, x1, c);
    assert((sum / n) * n <= sum < (sum / n + 1) * n) by (nonlinear_arith)
        requires
            n >= 1,
    ;
}

proof fn full_span(t: int, s: int, n: int)
    requires
        0 <= t < n <= s,
    ensures
        span_to(t, s, n) == (t + 1) * s / n,
{
    spans_share_nothing_and_miss_nothing(t, s, n);
    if t + 1 == n {
        div_mod::lemma_div_multiples_vanish(s, n);
        assert((t + 1) * s == n * s);
    }
}

/// The sum over a box is the sum over any two boxes it is cut into, by lines or by columns,
/// and over one pixel it is that pixel's sample.
pub proof fn boxes_add_up(
    src: Seq<u8>,
    sw: int,
    y0: int,
    y: int,
    y1: int,
    x0: int,
    x: int,
    x1: int,
    c: int,
)
    requires
        y0 <= y <= y1,
        x0 <= x <= x1,
    ensures
        box_sum(src, sw, y0, y1, x0, x1, c) == box_sum(src, sw, y0, y, x0, x1, c) + box_sum(
            src,
            sw,
            y,
            y1,
            x0,
            x1,
            c,
        ),
        box_sum(src, sw, y0, y1, x0, x1, c) == box_sum(src, sw, y0, y1, x0, x, c) + box_sum(
            src,
            sw,
            y0,
            y1,
            x,
            x1,
            c,
        ),
        box_sum(src, sw, y, y + 1, x, x + 1, c) == src[(y * sw + x) * 4 + c],
    decreases y1 - y0,
{
    reveal_with_fuel(box_sum, 2);
    reveal_with_fuel(row_sum, 2);
    if y1 > y0 {
        rows_add_up(src, sw, y1 - 1, x0, x, x1, c);
        if y < y1 {
            boxes_add_up(src, sw, y0, y, y1 - 1, x0, x, x1, c);
        } else {
            boxes_add_up(src, sw, y0, y - 1, y1 - 1, x0, x, x1, c);
        }
    }
}

proof fn rows_add_up(src: Seq<u8>, sw: int, y: int, x0: int, x: int, x1: int, c: int)
    requires
        x0 <= x <= x1,
    ensures
        row_sum(src, sw, y, x0, x1, c) == row_sum(src, sw, y, x0, x, c) + row_sum(
            src,
            sw,
            y,
            x,
            x1,
            c,
        ),
    decreases x1 - x0,
{
    if x < x1 {
        rows_add_up(src, sw, y, x0, x, x1 - 1, c);
    }
}

} // verus!

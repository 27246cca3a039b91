//! Image transforms on flat row-major RGB888 buffers: rotation by 270°,
//! mirroring along either axis, and conversion to big-endian RGB565.
//!
//! A pixel whose source lies outside the input buffer is dropped from the
//! output rather than reported as an error.

use vstd::prelude::*;

verus! {

/// The three bytes of pixel `k` of `s`, or nothing when the pixel lies
/// outside `s`.
pub open spec fn pixel_at(s: Seq<u8>, k: int) -> Seq<u8> {
    if 0 <= k && k * 3 + 2 < s.len() {
        s.subrange(k * 3, k * 3 + 3)
    } else {
        Seq::empty()
    }
}

/// Source pixel of output pixel `p` under a 270° rotation of a `w`×`h`
/// image: output row `p / h`, column `p % h` comes from input row `p % h`,
/// column `w - 1 - p / h`.
pub open spec fn rotate_source(p: int, w: int, h: int) -> int {
    (p % h) * w + (w - 1 - p / h)
}

/// Source pixel of output pixel `p` when mirroring left to right.
pub open spec fn hflip_source(p: int, w: int) -> int {
    (p / w) * w + (w - 1 - p % w)
}

/// Source pixel of output pixel `p` when mirroring top to bottom.
pub open spec fn vflip_source(p: int, w: int, h: int) -> int {
    (h - 1 - p / w) * w + p % w
}

/// The first `n` output pixels of the rotation.
pub open spec fn rotated(s: Seq<u8>, w: int, h: int, n: nat) -> Seq<u8>
    decreases n,
{
    if n == 0 {
        Seq::empty()
    } else {
        rotated(s, w, h, (n - 1) as nat) + pixel_at(s, rotate_source(n - 1, w, h))
    }
}

/// The first `n` output pixels of the horizontal mirror.
pub open spec fn hflipped(s: Seq<u8>, w: int, n: nat) -> Seq<u8>
    decreases n,
{
    if n == 0 {
        Seq::empty()
    } else {
        hflipped(s, w, (n - 1) as nat) + pixel_at(s, hflip_source(n - 1, w))
    }
}

/// The first `n` output pixels of the vertical mirror.
pub open spec fn vflipped(s: Seq<u8>, w: int, h: int, n: nat) -> Seq<u8>
    decreases n,
{
    if n == 0 {
        Seq::empty()
    } else {
        vflipped(s, w, h, (n - 1) as nat) + pixel_at(s, vflip_source(n - 1, w, h))
    }
}

pub open spec fn rotate_270_spec(s: Seq<u8>, w: int, h: int) -> Seq<u8> {
    rotated(s, w, h, (w * h) as nat)
}

pub open spec fn flip_horizontal_spec(s: Seq<u8>, w: int, h: int) -> Seq<u8> {
    hflipped(s, w, (w * h) as nat)
}

pub open spec fn flip_vertical_spec(s: Seq<u8>, w: int, h: int) -> Seq<u8> {
    vflipped(s, w, h, (w * h) as nat)
}

/// Rotation, then horizontal mirror, then vertical mirror, each when asked.
pub open spec fn transformed(
    s: Seq<u8>,
    w: int,
    h: int,
    rotate: bool,
    flip_h: bool,
    flip_v: bool,
) -> Seq<u8> {
    let a = if rotate {
        rotate_270_spec(s, w, h)
    } else {
        s
    };
    let b = if flip_h {
        flip_horizontal_spec(a, w, h)
    } else {
        a
    };
    if flip_v {
        flip_vertical_spec(b, w, h)
    } else {
        b
    }
}

/// RGB565 value of one RGB888 pixel: 5 bits red, 6 green, 5 blue.
pub open spec fn rgb565_value(r: u8, g: u8, b: u8) -> u16 {
    (((r >> 3u8) as u16) << 11u16) | (((g >> 2u8) as u16) << 5u16) | ((b >> 3u8) as u16)
}

/// The two big-endian bytes of pixel `k` of `s` in RGB565.
pub open spec fn rgb565_pixel(s: Seq<u8>, k: int) -> Seq<u8> {
    let v = rgb565_value(s[3 * k], s[3 * k + 1], s[3 * k + 2]);
    seq![(v >> 8u16) as u8, (v & 0xffu16) as u8]
}

/// The RGB565 bytes of the first `n` whole pixels of `s`.
pub open spec fn rgb565_prefix(s: Seq<u8>, n: nat) -> Seq<u8>
    decreases n,
{
    if n == 0 {
        Seq::empty()
    } else {
        rgb565_prefix(s, (n - 1) as nat) + rgb565_pixel(s, n - 1)
    }
}

pub open spec fn rgb888_to_rgb565_spec(s: Seq<u8>) -> Seq<u8> {
    rgb565_prefix(s, s.len() / 3)
}

/// Appends the pixel at byte offset `idx` of `data` when it lies inside.
fn push_pixel(out: &mut Vec<u8>, data: &[u8], idx: usize)
    requires
        idx % 3 == 0,
        idx + 2 <= usize::MAX,
    ensures
        final(out)@ == old(out)@ + pixel_at(data@, idx as int / 3),
{
    if idx + 2 < data.len() {
        out.push(data[idx]);
        out.push(data[idx + 1]);
        out.push(data[idx + 2]);
        assert(final(out)@ =~= old(out)@ + data@.subrange(idx as int, idx + 3));
    } else {
        assert(final(out)@ =~= old(out)@ + Seq::<u8>::empty());
    }
}

/// Converts RGB888 to big-endian RGB565; trailing bytes that make no whole
/// pixel are ignored.
pub fn rgb888_to_rgb565(rgb888: &[u8]) -> (r: Vec<u8>)
    ensures
        r@ == rgb888_to_rgb565_spec(rgb888@),
        r@.len() == rgb888@.len() / 3 * 2,
{
    let mut out: Vec<u8> = Vec::new();
    let n = rgb888.len() / 3;
    let mut k: usize = 0;
    let mut i: usize = 0;
    while k < n
        invariant
            n == rgb888@.len() / 3,
            k <= n,
            i == 3 * k,
            out@ == rgb565_prefix(rgb888@, k as nat),
            out@.len() == 2 * k,
        decreases n - k,
    {
        let r = rgb888[i];
        let g = rgb888[i + 1];
        let b = rgb888[i + 2];
        let v: u16 = (((r >> 3u8) as u16) << 11u16) | (((g >> 2u8) as u16) << 5u16) | ((b
            >> 3u8) as u16);
        assert((v >> 8u16) < 256u16) by (bit_vector);
        assert((v & 0xffu16) < 256u16) by (bit_vector);
        out.push((v >> 8u16) as u8);
        out.push((v & 0xffu16) as u8);
        assert(out@ =~= rgb565_prefix(rgb888@, k as nat) + rgb565_pixel(rgb888@, k as int));
        k = k + 1;
        i = i + 3;
    }
    out
}

/// Pixel `a * n + b` lies in row `a`, column `b` of rows `n` pixels long.
proof fn lemma_row_col(a: int, b: int, n: int)
    requires
        0 <= b < n,
    ensures
        (a * n + b) / n == a,
        (a * n + b) % n == b,
{
    vstd::arithmetic::div_mod::lemma_fundamental_div_mod_converse(a * n + b, n, a, b);
}

/// Rotates a `width`×`height` image by 270°; the result has `width` rows of
/// `height` pixels.
pub fn rotate_270(image_data: &[u8], width: usize, height: usize) -> (r: Vec<u8>)
    requires
        width * height * 3 <= usize::MAX,
    ensures
        r@ == rotate_270_spec(image_data@, width as int, height as int),
{
    let mut out: Vec<u8> = Vec::new();
    let mut new_y: usize = 0;
    while new_y < width
        invariant
            new_y <= width,
            width * height * 3 <= usize::MAX,
            out@ == rotated(image_data@, width as int, height as int, (new_y * height) as nat),
        decreases width - new_y,
    {
        let mut new_x: usize = 0;
        while new_x < height
            invariant
                new_y < width,
                new_x <= height,
                width * height * 3 <= usize::MAX,
                out@ == rotated(
                    image_data@,
                    width as int,
                    height as int,
                    (new_y * height + new_x) as nat,
                ),
            decreases height - new_x,
        {
            let old_x = width - 1 - new_y;
            let old_y = new_x;
            proof {
                lemma_row_col(new_y as int, new_x as int, height as int);
                assert(old_y * width + old_x < width * height) by (nonlinear_arith)
                    requires
                        old_y < height,
                        old_x < width,
                ;
                assert(new_y * height + new_x < width * height) by (nonlinear_arith)
                    requires
                        new_y < width,
                        new_x < height,
                ;
            }
            let old_idx = (old_y * width + old_x) * 3;
            push_pixel(&mut out, image_data, old_idx);
            new_x = new_x + 1;
        }
        assert((new_y + 1) * height == new_y * height + height) by (nonlinear_arith);
        new_y = new_y + 1;
    }
    out
}

/// Mirrors a `width`×`height` image left to right.
pub fn flip_horizontal(image_data: &[u8], width: usize, height: usize) -> (r: Vec<u8>)
    requires
        width * height * 3 <= usize::MAX,
    ensures
        r@ == flip_horizontal_spec(image_data@, width as int, height as int),
{
    let mut out: Vec<u8> = Vec::new();
    let mut y: usize = 0;
    while y < height
        invariant
            y <= height,
            width * height * 3 <= usize::MAX,
            out@ == hflipped(image_data@, width as int, (y * width) as nat),
        decreases height - y,
    {
        let mut x: usize = 0;
        while x < width
            invariant
                y < height,
                x <= width,
                width * height * 3 <= usize::MAX,
                out@ == hflipped(image_data@, width as int, (y * width + x) as nat),
            decreases width - x,
        {
            let src_x = width - 1 - x;
            proof {
                lemma_row_col(y as int, x as int, width as int);
                assert(y * width + src_x < width * height) by (nonlinear_arith)
                    requires
                        y < height,
                        src_x < width,
                ;
                assert(y * width + x < width * height) by (nonlinear_arith)
                    requires
                        y < height,
                        x < width,
                ;
            }
            let src_idx = (y * width + src_x) * 3;
            push_pixel(&mut out, image_data, src_idx);
            x = x + 1;
        }
        assert((y + 1) * width == y * width + width) by (nonlinear_arith);
        y = y + 1;
    }
    assert(height * width == width * height) by (nonlinear_arith);
    out
}

/// Mirrors a `width`×`height` image top to bottom.
pub fn flip_vertical(image_data: &[u8], width: usize, height: usize) -> (r: Vec<u8>)
    requires
        width * height * 3 <= usize::MAX,
    ensures
        r@ == flip_vertical_spec(image_data@, width as int, height as int),
{
    let mut out: Vec<u8> = Vec::new();
    let mut y: usize = 0;
    while y < height
        invariant
            y <= height,
            width * height * 3 <= usize::MAX,
            out@ == vflipped(image_data@, width as int, height as int, (y * width) as nat),
        decreases height - y,
    {
        let src_y = height - 1 - y;
        let mut x: usize = 0;
        while x < width
            invariant
                y < height,
                src_y == height - 1 - y,
                x <= width,
                width * height * 3 <= usize::MAX,
                out@ == vflipped(image_data@, width as int, height as int, (y * width + x) as nat),
            decreases width - x,
        {
            proof {
                lemma_row_col(y as int, x as int, width as int);
                assert(src_y * width + x < width * height) by (nonlinear_arith)
                    requires
                        src_y < height,
                        x < width,
                ;
                assert(y * width + x < width * height) by (nonlinear_arith)
                    requires
                        y < height,
                        x < width,
                ;
            }
            let src_idx = (src_y * width + x) * 3;
            push_pixel(&mut out, image_data, src_idx);
            x = x + 1;
        }
        assert((y + 1) * width == y * width + width) by (nonlinear_arith);
        y = y + 1;
    }
    assert(height * width == width * height) by (nonlinear_arith);
    out
}

/// Applies the transforms a display needs, in the fixed order rotation,
/// horizontal mirror, vertical mirror.
pub fn apply_transformations(
    image_data: &[u8],
    width: usize,
    height: usize,
    needs_rotation: bool,
    should_flip_horizontal: bool,
    should_flip_vertical: bool,
) -> (r: Vec<u8>)
    requires
        width * height * 3 <= usize::MAX,
    ensures
        r@ == transformed(
            image_data@,
            width as int,
            height as int,
            needs_rotation,
            should_flip_horizontal,
            should_flip_vertical,
        ),
{
    let mut result_data = crate::bytes::copy_bytes(image_data);
    if needs_rotation {
        result_data = rotate_270(result_data.as_slice(), width, height);
    }
    if should_flip_horizontal {
        result_data = flip_horizontal(result_data.as_slice(), width, height);
    }
    if should_flip_vertical {
        result_data = flip_vertical(result_data.as_slice(), width, height);
    }
    result_data
}

} // verus!

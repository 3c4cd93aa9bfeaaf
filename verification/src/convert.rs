//! Color conversion from the packed Y0-U-Y1-V byte layout to RGB.
//!
//! Every 4 input bytes encode 2 pixels: two luma samples sharing one
//! pair of chroma samples. Per output pixel, with bias-subtracted
//! samples y = Y - 16, u = U - 128, v = V - 128:
//!
//! ```text
//! R = 1.164 y + 1.596 v
//! G = 1.164 y - 0.392 u - 0.813 v
//! B = 1.164 y + 2.017 u
//! ```
//!
//! The coefficients are decimal with three fractional digits, so each
//! channel is computed exactly as an integer scaled by 1000; the
//! quotient by 1000 is the value truncated toward zero, which is then
//! clamped to the 8-bit range. The truncate-then-clamp order is part
//! of the contract.

use vstd::prelude::*;

verus! {

/// One output pixel: 8-bit red, green and blue samples.
#[derive(Clone, Copy, Debug, PartialEq, Eq, Structural)]
pub struct Rgb {
    pub r: u8,
    pub g: u8,
    pub b: u8,
}

/// Red channel scaled by 1000, before truncation and clamping.
pub open spec fn scaled_red(y: u8, v: u8) -> int {
    1164 * (y - 16) + 1596 * (v - 128)
}

/// Green channel scaled by 1000, before truncation and clamping.
pub open spec fn scaled_green(y: u8, u: u8, v: u8) -> int {
    1164 * (y - 16) - 392 * (u - 128) - 813 * (v - 128)
}

/// Blue channel scaled by 1000, before truncation and clamping.
pub open spec fn scaled_blue(y: u8, u: u8) -> int {
    1164 * (y - 16) + 2017 * (u - 128)
}

/// Truncates a channel value scaled by 1000 toward zero, then clamps
/// it to the 8-bit range. A negative value truncates to a value at
/// most zero, so it clamps to zero either way.
pub open spec fn spec_clamp(n: int) -> u8 {
    if n < 0 {
        0
    } else if n / 1000 > 255 {
        255
    } else {
        (n / 1000) as u8
    }
}

/// The RGB pixel produced from one luma sample and its chroma pair.
pub open spec fn spec_pixel(y: u8, u: u8, v: u8) -> Rgb {
    Rgb {
        r: spec_clamp(scaled_red(y, v)),
        g: spec_clamp(scaled_green(y, u, v)),
        b: spec_clamp(scaled_blue(y, u)),
    }
}

/// Luma byte of pixel `i` in the packed layout.
pub open spec fn pixel_y(data: Seq<u8>, i: int) -> u8 {
    data[4 * (i / 2) + 2 * (i % 2)]
}

/// Chroma U byte shared by the pixel pair containing pixel `i`.
pub open spec fn pixel_u(data: Seq<u8>, i: int) -> u8 {
    data[4 * (i / 2) + 1]
}

/// Chroma V byte shared by the pixel pair containing pixel `i`.
pub open spec fn pixel_v(data: Seq<u8>, i: int) -> u8 {
    data[4 * (i / 2) + 3]
}

/// The full converted image: `n_pixels` RGB samples, each a function
/// of the input bytes alone.
pub open spec fn spec_convert(data: Seq<u8>, n_pixels: int) -> Seq<Rgb>
    recommends
        n_pixels >= 0,
        data.len() == 2 * n_pixels,
{
    Seq::new(
        n_pixels as nat,
        |i: int| spec_pixel(pixel_y(data, i), pixel_u(data, i), pixel_v(data, i)),
    )
}

/// The grayscale fallback image: only luma bytes are sampled, chroma
/// is ignored, and each luma byte is used for all three channels.
pub open spec fn spec_convert_grayscale(data: Seq<u8>, n_pixels: int) -> Seq<Rgb>
    recommends
        n_pixels >= 0,
        data.len() == 2 * n_pixels,
{
    Seq::new(n_pixels as nat, |i: int| Rgb { r: data[2 * i], g: data[2 * i], b: data[2 * i] })
}

/// Truncate-toward-zero and clamp one scaled channel value.
fn clamp_channel(n: i32) -> (r: u8)
    ensures
        r == spec_clamp(n as int),
{
    if n < 0 {
        0
    } else {
        let q: i32 = n / 1000;
        if q > 255 {
            255
        } else {
            q as u8
        }
    }
}

/// Convert one pixel from its luma sample and chroma pair.
pub fn convert_pixel(y: u8, u: u8, v: u8) -> (r: Rgb)
    ensures
        r == spec_pixel(y, u, v),
{
    let yb: i32 = y as i32 - 16;
    let ub: i32 = u as i32 - 128;
    let vb: i32 = v as i32 - 128;
    Rgb {
        r: clamp_channel(1164 * yb + 1596 * vb),
        g: clamp_channel(1164 * yb - 392 * ub - 813 * vb),
        b: clamp_channel(1164 * yb + 2017 * ub),
    }
}

/// Convert a packed frame of `width * height` pixels to RGB.
///
/// The input must hold exactly 2 bytes per pixel, arranged in whole
/// 4-byte groups; the result holds exactly one RGB sample per pixel
/// and is a function of the bytes and dimensions alone.
pub fn convert(data: &[u8], width: usize, height: usize) -> (out: Vec<Rgb>)
    requires
        data@.len() == 2 * width * height,
        (width * height) % 2 == 0,
    ensures
        out@ == spec_convert(data@, width * height),
        out@.len() == width * height,
{
    proof {
        assert(2 * width * height == 2 * (width * height)) by (nonlinear_arith);
    }
    let len: usize = data.len();
    let n_pixels: usize = len / 2;
    assert(n_pixels == width * height);
    let n_groups: usize = n_pixels / 2;
    assert(n_pixels == 2 * n_groups);
    let mut out: Vec<Rgb> = Vec::new();
    let mut g: usize = 0;
    while g < n_groups
        invariant
            data@.len() == len,
            len == 2 * n_pixels,
            n_pixels == 2 * n_groups,
            g <= n_groups,
            out@.len() == 2 * g,
            forall|j: int|
                0 <= j < 2 * g ==> out@[j] == #[trigger] spec_convert(data@, n_pixels as int)[j],
        decreases n_groups - g,
    {
        let base: usize = 4 * g;
        let y0: u8 = data[base];
        let u: u8 = data[base + 1];
        let y1: u8 = data[base + 2];
        let v: u8 = data[base + 3];
        out.push(convert_pixel(y0, u, v));
        out.push(convert_pixel(y1, u, v));
        proof {
            let n = n_pixels as int;
            let i0 = 2 * g as int;
            let i1 = 2 * g as int + 1;
            assert(i0 / 2 == g as int && i0 % 2 == 0);
            assert(i1 / 2 == g as int && i1 % 2 == 1);
            assert(out@[i0] == spec_convert(data@, n)[i0]);
            assert(out@[i1] == spec_convert(data@, n)[i1]);
        }
        g = g + 1;
    }
    proof {
        assert(out@ =~= spec_convert(data@, n_pixels as int));
        assert(n_pixels == width * height);
    }
    out
}

/// Convert a packed frame to the grayscale fallback image.
pub fn convert_grayscale(data: &[u8], width: usize, height: usize) -> (out: Vec<Rgb>)
    requires
        data@.len() == 2 * width * height,
    ensures
        out@ == spec_convert_grayscale(data@, width * height),
        out@.len() == width * height,
{
    proof {
        assert(2 * width * height == 2 * (width * height)) by (nonlinear_arith);
    }
    let len: usize = data.len();
    let n_pixels: usize = len / 2;
    assert(n_pixels == width * height);
    let mut out: Vec<Rgb> = Vec::new();
    let mut i: usize = 0;
    while i < n_pixels
        invariant
            data@.len() == len,
            len == 2 * n_pixels,
            i <= n_pixels,
            out@.len() == i,
            forall|j: int|
                0 <= j < i ==> out@[j] == #[trigger] spec_convert_grayscale(
                    data@,
                    n_pixels as int,
                )[j],
        decreases n_pixels - i,
    {
        let y: u8 = data[2 * i];
        out.push(Rgb { r: y, g: y, b: y });
        i = i + 1;
    }
    proof {
        assert(out@ =~= spec_convert_grayscale(data@, n_pixels as int));
    }
    out
}

/// The conversion is pure: identical byte input and pixel count always
/// yield an identical RGB sequence.
pub proof fn lemma_convert_deterministic(d1: Seq<u8>, d2: Seq<u8>, n1: int, n2: int)
    requires
        d1 == d2,
        n1 == n2,
    ensures
        spec_convert(d1, n1) == spec_convert(d2, n2),
{
}

} // verus!

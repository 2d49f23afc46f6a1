//! Edge detection with the 3×3 Sobel operator.
//!
//! ```text
//! Gx = [[-1, 0, 1],      Gy = [[-1, -2, -1],
//!       [-2, 0, 2],            [ 0,  0,  0],
//!       [-1, 0, 1]]            [ 1,  2,  1]]
//! ```
//!
//! Both kernels are applied to a one-channel tensor with zero padding
//! outside the image, and each output byte is the gradient magnitude
//! `sqrt(Gx² + Gy²)` truncated and saturated to a byte.

use rayon::iter::{IntoParallelIterator, ParallelIterator};
use vstd::prelude::*;

use crate::engine::frame::Frame;
use crate::plugins::filters::grayscale::gray_view;
use crate::plugins::io::image_writer::{layout_for, PixelLayout};
use crate::pixels::{PixelBuffer, PixelView};

verus! {

/// Weight of the horizontal kernel `Gx` at row offset `dy`, column offset
/// `dx` (both in `-1..=1`).
pub open spec fn kernel_gx(dy: int, dx: int) -> int {
    if dx == 0 {
        0
    } else if dy == 0 {
        2 * dx
    } else {
        dx
    }
}

/// Weight of the vertical kernel `Gy`, the transpose of `Gx`.
pub open spec fn kernel_gy(dy: int, dx: int) -> int {
    kernel_gx(dx, dy)
}

/// Byte of pixel `(y, x)` of a one-channel tensor, `0` outside the image.
pub open spec fn padded(img: PixelView, y: int, x: int) -> int {
    if 0 <= y < img.height && 0 <= x < img.width {
        img.data[y * img.width + x] as int
    } else {
        0
    }
}

/// Kernel weight at `(dy, dx)` times the padded pixel at
/// `(y + dy, x + dx)`; `vertical` picks `Gy` over `Gx`.
pub open spec fn weighted(img: PixelView, y: int, x: int, dy: int, dx: int, vertical: bool) -> int {
    (if vertical {
        kernel_gy(dy, dx)
    } else {
        kernel_gx(dy, dx)
    }) * padded(img, y + dy, x + dx)
}

/// The 3×3 window around `(y, x)` weighted by the chosen kernel.
pub open spec fn window_sum(img: PixelView, y: int, x: int, vertical: bool) -> int {
    weighted(img, y, x, -1, -1, vertical) + weighted(img, y, x, -1, 0, vertical) + weighted(
        img,
        y,
        x,
        -1,
        1,
        vertical,
    ) + weighted(img, y, x, 0, -1, vertical) + weighted(img, y, x, 0, 0, vertical) + weighted(
        img,
        y,
        x,
        0,
        1,
        vertical,
    ) + weighted(img, y, x, 1, -1, vertical) + weighted(img, y, x, 1, 0, vertical) + weighted(
        img,
        y,
        x,
        1,
        1,
        vertical,
    )
}

/// Horizontal gradient at `(y, x)`.
pub open spec fn gradient_x(img: PixelView, y: int, x: int) -> int {
    window_sum(img, y, x, false)
}

/// Vertical gradient at `(y, x)`.
pub open spec fn gradient_y(img: PixelView, y: int, x: int) -> int {
    window_sum(img, y, x, true)
}

/// The gradients are the Sobel kernels applied to the padded pixels: with
/// the kernels' nonzero weights written out, `Gx` is the right column minus
/// the left column and `Gy` the bottom row minus the top row, the middle
/// entries counting twice.
pub proof fn lemma_gradients_expanded(img: PixelView, y: int, x: int)
    ensures
        gradient_x(img, y, x) == -padded(img, y - 1, x - 1) + padded(img, y - 1, x + 1) - 2 * padded(
            img,
            y,
            x - 1,
        ) + 2 * padded(img, y, x + 1) - padded(img, y + 1, x - 1) + padded(img, y + 1, x + 1),
        gradient_y(img, y, x) == -padded(img, y - 1, x - 1) - 2 * padded(img, y - 1, x) - padded(
            img,
            y - 1,
            x + 1,
        ) + padded(img, y + 1, x - 1) + 2 * padded(img, y + 1, x) + padded(img, y + 1, x + 1),
{
    assert(weighted(img, y, x, -1, -1, false) == -1 * padded(img, y - 1, x - 1));
    assert(weighted(img, y, x, -1, 0, false) == 0 * padded(img, y - 1, x));
    assert(weighted(img, y, x, -1, 1, false) == 1 * padded(img, y - 1, x + 1));
    assert(weighted(img, y, x, 0, -1, false) == -2 * padded(img, y, x - 1));
    assert(weighted(img, y, x, 0, 0, false) == 0 * padded(img, y, x));
    assert(weighted(img, y, x, 0, 1, false) == 2 * padded(img, y, x + 1));
    assert(weighted(img, y, x, 1, -1, false) == -1 * padded(img, y + 1, x - 1));
    assert(weighted(img, y, x, 1, 0, false) == 0 * padded(img, y + 1, x));
    assert(weighted(img, y, x, 1, 1, false) == 1 * padded(img, y + 1, x + 1));
    assert(weighted(img, y, x, -1, -1, true) == -1 * padded(img, y - 1, x - 1));
    assert(weighted(img, y, x, -1, 0, true) == -2 * padded(img, y - 1, x));
    assert(weighted(img, y, x, -1, 1, true) == -1 * padded(img, y - 1, x + 1));
    assert(weighted(img, y, x, 0, -1, true) == 0 * padded(img, y, x - 1));
    assert(weighted(img, y, x, 0, 0, true) == 0 * padded(img, y, x));
    assert(weighted(img, y, x, 0, 1, true) == 0 * padded(img, y, x + 1));
    assert(weighted(img, y, x, 1, -1, true) == 1 * padded(img, y + 1, x - 1));
    assert(weighted(img, y, x, 1, 0, true) == 2 * padded(img, y + 1, x));
    assert(weighted(img, y, x, 1, 1, true) == 1 * padded(img, y + 1, x + 1));
}

/// `m` is `sqrt(n)` truncated and saturated to a byte: the largest
/// `m <= 255` with `m * m <= n`.
pub open spec fn is_byte_root(n: int, m: int) -> bool {
    &&& 0 <= m <= 255
    &&& m * m <= n
    &&& (m == 255 || n < (m + 1) * (m + 1))
}

/// The largest `m <= bound` with `m * m <= n` (for `n >= 0`).
pub open spec fn root_at_most(n: int, bound: nat) -> nat
    decreases bound,
{
    if bound == 0 || bound * bound <= n {
        bound
    } else {
        root_at_most(n, (bound - 1) as nat)
    }
}

/// `sqrt(n)` truncated and saturated to a byte.
pub open spec fn byte_root(n: int) -> u8 {
    root_at_most(n, 255) as u8
}

/// The Sobel magnitude tensor of a one-channel tensor: same height and
/// width, one channel, the byte root of `Gx² + Gy²` at every pixel.
pub open spec fn sobel_view(img: PixelView) -> PixelView {
    PixelView {
        height: img.height,
        width: img.width,
        channels: 1,
        data: Seq::new(
            img.height * img.width,
            |i: int|
                {
                    let y = i / img.width as int;
                    let x = i % img.width as int;
                    let gx = gradient_x(img, y, x);
                    let gy = gradient_y(img, y, x);
                    byte_root(gx * gx + gy * gy)
                },
        ),
    }
}

/// A value meeting [`is_byte_root`] is the byte root.
pub proof fn lemma_byte_root_unique(n: int, m: int, bound: nat)
    requires
        is_byte_root(n, m),
        m <= bound <= 255,
    ensures
        root_at_most(n, bound) == m,
    decreases bound,
{
    if bound > m {
        assert(bound * bound > n) by (nonlinear_arith)
            requires bound >= m + 1, m >= 0, n < (m + 1) * (m + 1);
        lemma_byte_root_unique(n, m, (bound - 1) as nat);
    }
}

/// `sqrt(n)` truncated and saturated to a byte, by binary search.
pub fn byte_sqrt(n: u32) -> (res: u8)
    ensures
        is_byte_root(n as int, res as int),
        res == byte_root(n as int),
{
    let mut lo: u32 = 0;
    let mut hi: u32 = 255;
    while lo < hi
        invariant
            lo <= hi <= 255,
            lo * lo <= n,
            hi == 255 || (n as int) < (hi + 1) * (hi + 1),
        decreases hi - lo,
    {
        let mid = (lo + hi + 1) / 2;
        proof {
            assert(mid * mid <= 255 * 255) by (nonlinear_arith)
                requires mid <= 255;
        }
        if mid * mid <= n {
            lo = mid;
        } else {
            hi = mid - 1;
        }
    }
    proof {
        lemma_byte_root_unique(n as int, lo as int, 255);
    }
    lo as u8
}

/// Row-major layout of a one-channel tensor of the given size.
pub open spec fn mono_view(h: usize, w: usize, src: Seq<u8>) -> PixelView {
    PixelView { height: h as nat, width: w as nat, channels: 1, data: src }
}

/// Byte at `(y + dy, x + dx)` with zero padding.
fn neighbor(src: &[u8], h: usize, w: usize, y: usize, x: usize, dy: i8, dx: i8) -> (res: i32)
    requires
        src@.len() == h * w,
        y < h,
        x < w,
        -1 <= dy <= 1,
        -1 <= dx <= 1,
    ensures
        res == padded(mono_view(h, w, src@), y + dy, x + dx),
{
    // The slice length bounds every offset computed below.
    let len = src.len();
    if (dy == -1 && y == 0) || (dy == 1 && y + 1 >= h) || (dx == -1 && x == 0) || (dx == 1 && x
        + 1 >= w) {
        return 0;
    }
    let yy: usize = if dy == -1 {
        y - 1
    } else if dy == 1 {
        y + 1
    } else {
        y
    };
    let xx: usize = if dx == -1 {
        x - 1
    } else if dx == 1 {
        x + 1
    } else {
        x
    };
    proof {
        crate::pixels::lemma_offset_in_range(h as nat, w as nat, 1, yy as int, xx as int, 0);
        assert(h * w * 1 == h * w) by (nonlinear_arith);
        assert((yy * w + xx) * 1 == yy * w + xx) by (nonlinear_arith);
    }
    src[yy * w + xx] as i32
}

/// Sobel magnitude at `(y, x)` of the one-channel tensor `src`.
fn magnitude_at(src: &[u8], h: usize, w: usize, y: usize, x: usize) -> (res: u8)
    requires
        src@.len() == h * w,
        y < h,
        x < w,
    ensures
        ({
            let img = mono_view(h, w, src@);
            let gx = gradient_x(img, y as int, x as int);
            let gy = gradient_y(img, y as int, x as int);
            res == byte_root(gx * gx + gy * gy)
        }),
{
    let nw = neighbor(src, h, w, y, x, -1, -1);
    let nn = neighbor(src, h, w, y, x, -1, 0);
    let ne = neighbor(src, h, w, y, x, -1, 1);
    let ww = neighbor(src, h, w, y, x, 0, -1);
    let ee = neighbor(src, h, w, y, x, 0, 1);
    let sw = neighbor(src, h, w, y, x, 1, -1);
    let ss = neighbor(src, h, w, y, x, 1, 0);
    let se = neighbor(src, h, w, y, x, 1, 1);
    let gx: i32 = (ne + 2 * ee + se) - (nw + 2 * ww + sw);
    let gy: i32 = (sw + 2 * ss + se) - (nw + 2 * nn + ne);
    proof {
        let img = mono_view(h, w, src@);
        let (yi, xi) = (y as int, x as int);
        assert(nw == padded(img, yi - 1, xi - 1));
        assert(nn == padded(img, yi - 1, xi));
        assert(ne == padded(img, yi - 1, xi + 1));
        assert(ww == padded(img, yi, xi - 1));
        assert(ee == padded(img, yi, xi + 1));
        assert(sw == padded(img, yi + 1, xi - 1));
        assert(ss == padded(img, yi + 1, xi));
        assert(se == padded(img, yi + 1, xi + 1));
        lemma_gradients_expanded(img, yi, xi);
        assert(gx == gradient_x(img, y as int, x as int));
        assert(gy == gradient_y(img, y as int, x as int));
        assert(0 <= gx * gx <= 1020 * 1020) by (nonlinear_arith)
            requires -1020 <= gx <= 1020;
        assert(0 <= gy * gy <= 1020 * 1020) by (nonlinear_arith)
            requires -1020 <= gy <= 1020;
    }
    let n: i32 = gx * gx + gy * gy;
    byte_sqrt(n as u32)
}

/// Sobel magnitudes of row `y` of the one-channel tensor `src`.
pub fn sobel_row(src: &[u8], h: usize, w: usize, y: usize) -> (row: Vec<u8>)
    requires
        src@.len() == h * w,
        y < h,
    ensures
        row@.len() == w,
        forall|x: int|
            0 <= x < w ==> #[trigger] row@[x] == sobel_view(mono_view(h, w, src@)).data[y * w + x],
{
    let ghost img = mono_view(h, w, src@);
    let mut row: Vec<u8> = Vec::new();
    let mut x: usize = 0;
    while x < w
        invariant
            src@.len() == h * w,
            img == mono_view(h, w, src@),
            y < h,
            x <= w,
            row@.len() == x,
            forall|j: int| 0 <= j < x ==> #[trigger] row@[j] == sobel_view(img).data[y * w + j],
        decreases w - x,
    {
        let m = magnitude_at(src, h, w, y, x);
        proof {
            let i = y * w + x;
            assert(0 <= i < h * w) by (nonlinear_arith)
                requires y < h, x < w, i == y * w + x;
            assert(i / w as int == y && i % w as int == x) by (nonlinear_arith)
                requires i == y * w + x, 0 <= x < w;
        }
        row.push(m);
        x = x + 1;
    }
    row
}

/// Sobel magnitudes of every pixel, rows in parallel: calls `rayon`'s
/// `into_par_iter` on the row numbers `0..h`, `flat_map`s each row number
/// with the verified [`sobel_row`] and collects into a `Vec`.
///
/// Claimed of the outside code: collecting into a `Vec` keeps the order of
/// the rows (the collector appends each part's items after the parts
/// before it), so the result is row 0, then row 1, and so on.
#[verifier::external_body]
fn par_sobel_rows(src: &[u8], h: usize, w: usize) -> (res: Vec<u8>)
    requires
        src@.len() == h * w,
    ensures
        res@ == sobel_view(mono_view(h, w, src@)).data,
{
    (0..h).into_par_iter().flat_map(|y| sobel_row(src, h, w, y)).collect()
}

/// Applies the Sobel kernels to a one-channel tensor `[H, W, 1]` and
/// returns the gradient magnitude `[H, W, 1]`.
pub fn apply_sobel(input: &PixelBuffer) -> (res: PixelBuffer)
    requires
        input@.channels == 1,
    ensures
        res@ == sobel_view(input@),
        res@.height == input@.height,
        res@.width == input@.width,
        res@.channels == 1,
{
    let h = input.height();
    let w = input.width();
    let src = input.as_slice();
    proof {
        assert(h * w * 1 == h * w) by (nonlinear_arith);
    }
    let out = par_sobel_rows(src, h, w);
    proof {
        assert(mono_view(h, w, src@) == input@);
    }
    proof {
        assert(out@ =~= sobel_view(input@).data);
    }
    PixelBuffer::new((h, w, 1), out)
}

/// Inside a one-channel image of a single value, every pixel reads that value.
proof fn lemma_padded_uniform(img: PixelView, value: u8, y: int, x: int)
    requires
        img.wf(),
        img.channels == 1,
        forall|i: int| 0 <= i < img.data.len() ==> img.data[i] == value,
        0 <= y < img.height,
        0 <= x < img.width,
    ensures
        padded(img, y, x) == value as int,
{
    crate::pixels::lemma_offset_in_range(img.height, img.width, 1, y, x, 0);
    assert((y * img.width + x) * 1 + 0 == y * img.width + x) by (nonlinear_arith);
    assert(img.height * img.width * 1 == img.height * img.width) by (nonlinear_arith);
}

/// Sobel of a uniform image is zero away from the border: at every pixel
/// whose whole 3×3 window lies inside a one-channel image of a single
/// value, both gradients vanish and the magnitude is 0.
pub proof fn law_uniform_image_interior_is_zero(img: PixelView, value: u8, y: int, x: int)
    requires
        img.wf(),
        img.channels == 1,
        forall|i: int| 0 <= i < img.data.len() ==> img.data[i] == value,
        1 <= y < img.height - 1,
        1 <= x < img.width - 1,
    ensures
        gradient_x(img, y, x) == 0,
        gradient_y(img, y, x) == 0,
        sobel_view(img).data[y * img.width + x] == 0,
{
    let w = img.width;
    let h = img.height;
    lemma_padded_uniform(img, value, y - 1, x - 1);
    lemma_padded_uniform(img, value, y - 1, x);
    lemma_padded_uniform(img, value, y - 1, x + 1);
    lemma_padded_uniform(img, value, y, x - 1);
    lemma_padded_uniform(img, value, y, x);
    lemma_padded_uniform(img, value, y, x + 1);
    lemma_padded_uniform(img, value, y + 1, x - 1);
    lemma_padded_uniform(img, value, y + 1, x);
    lemma_padded_uniform(img, value, y + 1, x + 1);
    lemma_gradients_expanded(img, y, x);
    let i = y * w + x;
    assert(0 <= i < h * w && i / w as int == y && i % w as int == x) by (nonlinear_arith)
        requires i == y * w + x, 0 <= x < w, 0 <= y < h;
    lemma_byte_root_unique(0, 0, 255);
}

/// Byte `i` of a one-channel `width`-wide tensor lies in the 3×3 window
/// around `(y, x)`.
pub open spec fn in_window(width: nat, y: int, x: int, i: int) -> bool {
    let row = i / width as int;
    let col = i % width as int;
    &&& y - 1 <= row <= y + 1
    &&& x - 1 <= col <= x + 1
}

/// Two images that agree on the window's bytes read the same padded value
/// at each window position.
proof fn lemma_padded_agree(a: PixelView, b: PixelView, y: int, x: int, yy: int, xx: int)
    requires
        a.height == b.height,
        a.width == b.width,
        a.data.len() == a.height * a.width,
        b.data.len() == b.height * b.width,
        y - 1 <= yy <= y + 1,
        x - 1 <= xx <= x + 1,
        forall|i: int|
            0 <= i < a.data.len() && in_window(a.width, y, x, i) ==> #[trigger] a.data[i] == b.data[i],
    ensures
        padded(a, yy, xx) == padded(b, yy, xx),
{
    if 0 <= yy < a.height && 0 <= xx < a.width {
        let w = a.width;
        let j = yy * w + xx;
        assert(0 <= j < a.height * w) by (nonlinear_arith)
            requires j == yy * w + xx, 0 <= yy < a.height, 0 <= xx < w;
        vstd::arithmetic::div_mod::lemma_fundamental_div_mod_converse(j, w as int, yy, xx);
        assert(in_window(w, y, x, j));
    }
}

/// Sobel is local: the magnitude at `(y, x)` depends only on the input
/// bytes of the 3×3 window around it (with zero padding outside the
/// image), so two one-channel images of the same size that agree on that
/// window give the same magnitude there, whatever the rest of them holds.
pub proof fn law_sobel_is_local(a: PixelView, b: PixelView, y: int, x: int)
    requires
        a.wf(),
        b.wf(),
        a.channels == 1,
        b.channels == 1,
        a.height == b.height,
        a.width == b.width,
        0 <= y < a.height,
        0 <= x < a.width,
        forall|i: int|
            0 <= i < a.data.len() && in_window(a.width, y, x, i) ==> #[trigger] a.data[i] == b.data[i],
    ensures
        sobel_view(a).data[y * a.width + x] == sobel_view(b).data[y * a.width + x],
{
    let w = a.width;
    assert(a.data.len() == a.height * w) by (nonlinear_arith)
        requires a.data.len() == a.height * w * a.channels, a.channels == 1;
    assert(b.data.len() == b.height * w) by (nonlinear_arith)
        requires b.data.len() == b.height * w * b.channels, b.channels == 1, b.width == w;
    lemma_padded_agree(a, b, y, x, y - 1, x - 1);
    lemma_padded_agree(a, b, y, x, y - 1, x);
    lemma_padded_agree(a, b, y, x, y - 1, x + 1);
    lemma_padded_agree(a, b, y, x, y, x - 1);
    lemma_padded_agree(a, b, y, x, y, x + 1);
    lemma_padded_agree(a, b, y, x, y + 1, x - 1);
    lemma_padded_agree(a, b, y, x, y + 1, x);
    lemma_padded_agree(a, b, y, x, y + 1, x + 1);
    lemma_gradients_expanded(a, y, x);
    lemma_gradients_expanded(b, y, x);
    let i = y * w + x;
    assert(0 <= i < a.height * w) by (nonlinear_arith)
        requires i == y * w + x, 0 <= y < a.height, 0 <= x < w;
    vstd::arithmetic::div_mod::lemma_fundamental_div_mod_converse(i, w as int, y, x);
}

/// Gradient magnitudes computed for a frame, kept apart from the frame so
/// that the luminance tensor stays available.
#[derive(Debug)]
pub struct SobelMap {
    /// Gradient magnitude `[H, W, 1]`.
    pub magnitude: PixelBuffer,
}

/// What the Sobel system does for one frame: a one-channel frame gets its
/// gradient-magnitude map; any other frame gets none.
pub fn sobel_frame(frame: &Frame) -> (res: Option<SobelMap>)
    ensures
        res is Some <==> frame.data@.channels == 1,
        res matches Some(map) ==> map.magnitude@ == sobel_view(frame.data@),
{
    if frame.channels() != 1 {
        return None;
    }
    Some(SobelMap { magnitude: apply_sobel(&frame.data) })
}

} // verus!

verus! {

/// The filters chain: the luminance of a well-formed RGB tensor is a
/// well-formed one-channel tensor of the same height and width, so the
/// grayscale system never converts it again, the Sobel system accepts it
/// and produces a well-formed map of the same height and width, and the
/// writer encodes it as luminance.
pub proof fn law_grayscale_feeds_sobel(rgb: PixelView)
    requires
        rgb.wf(),
        rgb.channels == 3,
    ensures
        gray_view(rgb).wf(),
        gray_view(rgb).height == rgb.height,
        gray_view(rgb).width == rgb.width,
        gray_view(rgb).channels == 1,
        layout_for(gray_view(rgb).channels) == PixelLayout::Luma8,
        sobel_view(gray_view(rgb)).wf(),
        gray_view(rgb).channels != 3,
        sobel_view(gray_view(rgb)).height == rgb.height,
        sobel_view(gray_view(rgb)).width == rgb.width,
        sobel_view(gray_view(rgb)).channels == 1,
{
    assert(rgb.height * rgb.width * 1 == rgb.height * rgb.width) by (nonlinear_arith);
}

} // verus!

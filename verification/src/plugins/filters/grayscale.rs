//! Conversion to luminance with the BT.601 weights
//! `Y = 0.299 R + 0.587 G + 0.114 B`, evaluated as binary32 arithmetic
//! (each product and each of the two sums rounded to binary32, left to
//! right) and truncated to a byte.

use rayon::iter::ParallelIterator;
use rayon::slice::ParallelSlice;
use vstd::prelude::*;

use crate::binary32::{lemma_round_monotone, round_binary32, round_to_binary32, UNITS_PER_ONE};
use crate::engine::frame::Frame;
use crate::pixels::{PixelBuffer, PixelView};

verus! {

/// The binary32 value of `0.299`, in `2^-27` units (`10032775 / 2^25`).
pub const RED_WEIGHT: u64 = 40131100;

/// The binary32 value of `0.587`, in `2^-27` units (`4924113 / 2^23`).
pub const GREEN_WEIGHT: u64 = 78785808;

/// The binary32 value of `0.114`, in `2^-27` units (`15300821 / 2^27`).
pub const BLUE_WEIGHT: u64 = 15300821;

/// Luminance byte of an RGB pixel: `(0.299 * r + 0.587 * g) + 0.114 * b`
/// computed in binary32, then truncated toward zero and saturated to a byte.
pub open spec fn bt601_luma(r: u8, g: u8, b: u8) -> u8 {
    let yr = round_binary32(RED_WEIGHT as nat * r as nat);
    let yg = round_binary32(GREEN_WEIGHT as nat * g as nat);
    let yb = round_binary32(BLUE_WEIGHT as nat * b as nat);
    let y = round_binary32(round_binary32(yr + yg) + yb);
    let whole = y / UNITS_PER_ONE as nat;
    if whole > 255 {
        255
    } else {
        whole as u8
    }
}

/// The luminance tensor of an RGB tensor: same height and width, one
/// channel, pixel `i` holding the luminance of RGB pixel `i`.
pub open spec fn gray_view(input: PixelView) -> PixelView {
    PixelView {
        height: input.height,
        width: input.width,
        channels: 1,
        data: Seq::new(
            input.height * input.width,
            |i: int| bt601_luma(input.data[3 * i], input.data[3 * i + 1], input.data[3 * i + 2]),
        ),
    }
}

/// Luminance byte of one RGB pixel (see [`bt601_luma`]).
pub fn pixel_luma(r: u8, g: u8, b: u8) -> (res: u8)
    ensures
        res == bt601_luma(r, g, b),
{
    let yr = round_to_binary32(RED_WEIGHT * r as u64);
    let yg = round_to_binary32(GREEN_WEIGHT * g as u64);
    let yb = round_to_binary32(BLUE_WEIGHT * b as u64);
    let partial = round_to_binary32(yr + yg);
    let y = round_to_binary32(partial + yb);
    let whole = y / UNITS_PER_ONE;
    if whole > 255 {
        255
    } else {
        whole as u8
    }
}

/// Luminance of every RGB pixel of `src`, in parallel: calls `rayon`'s
/// `par_chunks(3)` on the bytes, maps each chunk with the verified
/// [`pixel_luma`] and collects into a `Vec`.
///
/// Claimed of the outside code: the chunks are the consecutive 3-byte
/// pixels, and collecting an indexed parallel iterator into a `Vec` keeps
/// its order, so byte `i` of the result is the luminance of pixel `i`.
#[verifier::external_body]
fn par_luma(src: &[u8]) -> (res: Vec<u8>)
    requires
        src@.len() % 3 == 0,
    ensures
        res@.len() == src@.len() / 3,
        forall|i: int|
            0 <= i < res@.len() ==> #[trigger] res@[i] == bt601_luma(
                src@[3 * i],
                src@[3 * i + 1],
                src@[3 * i + 2],
            ),
{
    src.par_chunks(3).map(|px| pixel_luma(px[0], px[1], px[2])).collect()
}

/// Converts an RGB tensor `[H, W, 3]` into its luminance `[H, W, 1]`.
pub fn convert_to_gray(input: &PixelBuffer) -> (res: PixelBuffer)
    requires
        input@.channels == 3,
    ensures
        res@ == gray_view(input@),
        res@.height == input@.height,
        res@.width == input@.width,
        res@.channels == 1,
{
    let h = input.height();
    let w = input.width();
    let src = input.as_slice();
    proof {
        assert(h * w * 3 == 3 * (h * w)) by (nonlinear_arith);
    }
    let out = par_luma(src);
    proof {
        assert(h * w * 1 == h * w) by (nonlinear_arith);
        assert(out@ =~= gray_view(input@).data);
    }
    PixelBuffer::new((h, w, 1), out)
}

/// What the grayscale system does to one frame: an RGB frame has its
/// tensor replaced by its luminance and the result is `true`; any other
/// frame is left as it is and the result is `false`.
pub fn grayscale_frame(frame: &mut Frame) -> (converted: bool)
    ensures
        converted == (old(frame).data@.channels == 3),
        converted ==> final(frame).data@ == gray_view(old(frame).data@),
        converted ==> final(frame).meta == old(frame).meta,
        !converted ==> *final(frame) == *old(frame),
{
    if frame.channels() != 3 {
        return false;
    }
    let gray = convert_to_gray(&frame.data);
    frame.data = gray;
    true
}

} // verus!

verus! {

/// Luminance is monotone: raising any channel never lowers it.
pub proof fn lemma_luma_monotone(r1: u8, g1: u8, b1: u8, r2: u8, g2: u8, b2: u8)
    requires
        r1 <= r2,
        g1 <= g2,
        b1 <= b2,
    ensures
        bt601_luma(r1, g1, b1) <= bt601_luma(r2, g2, b2),
{
    let (rw, gw, bw) = (RED_WEIGHT as nat, GREEN_WEIGHT as nat, BLUE_WEIGHT as nat);
    assert(rw * r1 as nat <= rw * r2 as nat) by (nonlinear_arith)
        requires r1 <= r2;
    assert(gw * g1 as nat <= gw * g2 as nat) by (nonlinear_arith)
        requires g1 <= g2;
    assert(bw * b1 as nat <= bw * b2 as nat) by (nonlinear_arith)
        requires b1 <= b2;
    lemma_round_monotone(rw * r1 as nat, rw * r2 as nat);
    lemma_round_monotone(gw * g1 as nat, gw * g2 as nat);
    lemma_round_monotone(bw * b1 as nat, bw * b2 as nat);
    let a1 = round_binary32(rw * r1 as nat) + round_binary32(gw * g1 as nat);
    let a2 = round_binary32(rw * r2 as nat) + round_binary32(gw * g2 as nat);
    lemma_round_monotone(a1, a2);
    let s1 = round_binary32(a1) + round_binary32(bw * b1 as nat);
    let s2 = round_binary32(a2) + round_binary32(bw * b2 as nat);
    lemma_round_monotone(s1, s2);
    vstd::arithmetic::div_mod::lemma_div_is_ordered(
        round_binary32(s1) as int,
        round_binary32(s2) as int,
        UNITS_PER_ONE as int,
    );
}

/// Grayscale conversion is monotone: if every byte of one RGB tensor is at
/// most the matching byte of another of the same shape, every luminance
/// byte of the first is at most the matching one of the second.
pub proof fn law_gray_is_monotone(a: PixelView, b: PixelView)
    requires
        a.wf(),
        b.wf(),
        a.channels == 3,
        b.channels == 3,
        a.height == b.height,
        a.width == b.width,
        forall|i: int| 0 <= i < a.data.len() ==> a.data[i] <= b.data[i],
    ensures
        forall|i: int|
            0 <= i < a.height * a.width ==> #[trigger] gray_view(a).data[i] <= gray_view(b).data[i],
{
    assert forall|i: int| 0 <= i < a.height * a.width implies #[trigger] gray_view(a).data[i]
        <= gray_view(b).data[i] by {
        assert(3 * i + 2 < a.data.len()) by (nonlinear_arith)
            requires 0 <= i < a.height * a.width, a.data.len() == a.height * a.width * 3;
        lemma_luma_monotone(
            a.data[3 * i],
            a.data[3 * i + 1],
            a.data[3 * i + 2],
            b.data[3 * i],
            b.data[3 * i + 1],
            b.data[3 * i + 2],
        );
    }
}

} // verus!

verus! {

/// Grayscale is pixel-wise: gray byte `i` depends only on RGB pixel `i`
/// (input bytes `3i`, `3i + 1`, `3i + 2`), so two RGB tensors of the same
/// shape that agree on that pixel give the same gray byte there, whatever
/// their other pixels hold.
pub proof fn law_gray_is_local(a: PixelView, b: PixelView, i: int)
    requires
        a.wf(),
        b.wf(),
        a.channels == 3,
        b.channels == 3,
        a.height == b.height,
        a.width == b.width,
        0 <= i < a.height * a.width,
        a.data[3 * i] == b.data[3 * i],
        a.data[3 * i + 1] == b.data[3 * i + 1],
        a.data[3 * i + 2] == b.data[3 * i + 2],
    ensures
        gray_view(a).data[i] == gray_view(b).data[i],
{
}

/// A pixel's gray byte is the BT.601 luminance of that pixel's own three
/// bytes, at every pixel of a tensor of any size.
pub proof fn law_gray_pixel_is_its_luma(a: PixelView, i: int)
    requires
        a.wf(),
        a.channels == 3,
        0 <= i < a.height * a.width,
    ensures
        3 * i + 2 < a.data.len(),
        gray_view(a).data[i] == bt601_luma(a.data[3 * i], a.data[3 * i + 1], a.data[3 * i + 2]),
{
    assert(3 * i + 2 < a.data.len()) by (nonlinear_arith)
        requires 0 <= i < a.height * a.width, a.data.len() == a.height * a.width * 3;
}

} // verus!

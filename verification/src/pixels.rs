//! `PixelBuffer`: a dense, row-major `[height, width, channels]` tensor of
//! bytes, the storage of every frame.
//!
//! The byte of pixel `(y, x)` in channel `c` sits at offset
//! `(y * width + x) * channels + c`, and the buffer always holds exactly
//! `height * width * channels` bytes.

use vstd::prelude::*;

verus! {

/// Abstract value of a [`PixelBuffer`]: its three dimensions and its bytes
/// in row-major order.
pub struct PixelView {
    pub height: nat,
    pub width: nat,
    pub channels: nat,
    pub data: Seq<u8>,
}

impl PixelView {
    /// The byte sequence has exactly one byte per (row, column, channel).
    pub open spec fn wf(self) -> bool {
        self.data.len() == self.height * self.width * self.channels
    }

    /// Offset of pixel `(y, x)`, channel `c`, in the row-major byte sequence.
    pub open spec fn offset(self, y: int, x: int, c: int) -> int {
        (y * self.width + x) * self.channels + c
    }

    /// `(y, x, c)` addresses a byte of the tensor.
    pub open spec fn in_bounds(self, y: int, x: int, c: int) -> bool {
        0 <= y < self.height && 0 <= x < self.width && 0 <= c < self.channels
    }

    /// The byte of pixel `(y, x)` in channel `c`.
    pub open spec fn at(self, y: int, x: int, c: int) -> u8 {
        self.data[self.offset(y, x, c)]
    }
}

/// Every in-bounds `(y, x, c)` has an offset inside the byte sequence.
pub proof fn lemma_offset_in_range(h: nat, w: nat, ch: nat, y: int, x: int, c: int)
    requires
        0 <= y < h,
        0 <= x < w,
        0 <= c < ch,
    ensures
        0 <= y * w <= y * w + x < h * w,
        0 <= (y * w + x) * ch <= (y * w + x) * ch + c < h * w * ch,
        h * w <= h * w * ch,
{
    assert(h * w <= h * w * ch) by (nonlinear_arith)
        requires ch >= 1;
    assert(0 <= y * w <= y * w + x < h * w) by (nonlinear_arith)
        requires 0 <= y < h, 0 <= x < w;
    assert(0 <= (y * w + x) * ch + c < h * w * ch) by (nonlinear_arith)
        requires 0 <= y * w + x < h * w, 0 <= c < ch;
    assert(0 <= (y * w + x) * ch) by (nonlinear_arith)
        requires 0 <= y * w + x;
}

/// `h * w * c` when it fits in a `usize`.
fn element_count(h: usize, w: usize, c: usize) -> (res: Option<usize>)
    ensures
        res matches Some(n) ==> n == h * w * c,
        res is None ==> h * w * c > usize::MAX,
{
    if h == 0 || w == 0 || c == 0 {
        proof {
            assert(h * w * c == 0) by (nonlinear_arith)
                requires h == 0 || w == 0 || c == 0;
        }
        Some(0)
    } else {
        match h.checked_mul(w) {
            None => {
                proof {
                    assert(h * w * c >= h * w) by (nonlinear_arith)
                        requires c >= 1;
                }
                None
            },
            Some(hw) => hw.checked_mul(c),
        }
    }
}

/// Error of [`PixelBuffer::from_shape_vec`]: the byte count does not match
/// the requested shape.
#[derive(Debug, Clone, Copy, PartialEq, Eq, Structural)]
pub enum ShapeError {
    IncompatibleShape,
}

/// A `[height, width, channels]` tensor of bytes.
#[derive(Debug)]
pub struct PixelBuffer {
    height: usize,
    width: usize,
    channels: usize,
    data: Vec<u8>,
}

impl View for PixelBuffer {
    type V = PixelView;

    closed spec fn view(&self) -> PixelView {
        PixelView {
            height: self.height as nat,
            width: self.width as nat,
            channels: self.channels as nat,
            data: self.data@,
        }
    }
}

impl PixelBuffer {
    #[verifier::type_invariant]
    spec fn shape_matches(self) -> bool {
        self.data@.len() == self.height * self.width * self.channels
    }

    /// Builds a tensor of shape `(height, width, channels)` from row-major
    /// bytes; refused unless there is exactly one byte per element.
    pub fn from_shape_vec(shape: (usize, usize, usize), data: Vec<u8>) -> (res: Result<
        PixelBuffer,
        ShapeError,
    >)
        ensures
            res is Ok <==> shape.0 * shape.1 * shape.2 == data@.len(),
            res matches Ok(b) ==> b@ == (PixelView {
                height: shape.0 as nat,
                width: shape.1 as nat,
                channels: shape.2 as nat,
                data: data@,
            }),
            res matches Err(e) ==> e == ShapeError::IncompatibleShape,
    {
        let (h, w, c) = shape;
        let len = data.len();
        match element_count(h, w, c) {
            Some(n) => {
                if n == len {
                    Ok(PixelBuffer { height: h, width: w, channels: c, data })
                } else {
                    Err(ShapeError::IncompatibleShape)
                }
            },
            None => Err(ShapeError::IncompatibleShape),
        }
    }

    /// Builds a tensor from row-major bytes already known to match `shape`.
    pub fn new(shape: (usize, usize, usize), data: Vec<u8>) -> (res: PixelBuffer)
        requires
            shape.0 * shape.1 * shape.2 == data@.len(),
        ensures
            res@ == (PixelView {
                height: shape.0 as nat,
                width: shape.1 as nat,
                channels: shape.2 as nat,
                data: data@,
            }),
            res@.wf(),
    {
        PixelBuffer { height: shape.0, width: shape.1, channels: shape.2, data }
    }

    /// A tensor of the given shape with every byte equal to `value`.
    pub fn from_elem(shape: (usize, usize, usize), value: u8) -> (res: PixelBuffer)
        requires
            shape.0 * shape.1 * shape.2 <= usize::MAX,
        ensures
            res@.height == shape.0,
            res@.width == shape.1,
            res@.channels == shape.2,
            res@.data == Seq::new(res@.data.len(), |i: int| value),
            res@.wf(),
    {
        let (h, w, c) = shape;
        let n: usize = match element_count(h, w, c) {
            Some(n) => n,
            None => 0,
        };
        let mut data: Vec<u8> = Vec::new();
        let mut i: usize = 0;
        while i < n
            invariant
                i <= n,
                data@.len() == i,
                forall|j: int| 0 <= j < i ==> data@[j] == value,
            decreases n - i,
        {
            data.push(value);
            i = i + 1;
        }
        let res = PixelBuffer { height: h, width: w, channels: c, data };
        assert(res@.data =~= Seq::new(res@.data.len(), |i: int| value));
        res
    }

    /// A tensor of the given shape filled with zeros.
    pub fn zeros(shape: (usize, usize, usize)) -> (res: PixelBuffer)
        requires
            shape.0 * shape.1 * shape.2 <= usize::MAX,
        ensures
            res@.height == shape.0,
            res@.width == shape.1,
            res@.channels == shape.2,
            res@.data == Seq::new(res@.data.len(), |i: int| 0u8),
            res@.wf(),
    {
        PixelBuffer::from_elem(shape, 0)
    }

    /// The shape `[height, width, channels]`.
    pub fn shape(&self) -> (res: [usize; 3])
        ensures
            res@ == seq![self@.height as usize, self@.width as usize, self@.channels as usize],
            self@.wf(),
    {
        proof {
            use_type_invariant(self);
        }
        [self.height, self.width, self.channels]
    }

    /// Number of rows.
    pub fn height(&self) -> (res: usize)
        ensures
            res == self@.height,
            self@.wf(),
    {
        proof {
            use_type_invariant(self);
        }
        self.height
    }

    /// Number of columns.
    pub fn width(&self) -> (res: usize)
        ensures
            res == self@.width,
            self@.wf(),
    {
        proof {
            use_type_invariant(self);
        }
        self.width
    }

    /// Number of channels per pixel.
    pub fn channels(&self) -> (res: usize)
        ensures
            res == self@.channels,
            self@.wf(),
    {
        proof {
            use_type_invariant(self);
        }
        self.channels
    }

    /// Total number of bytes, `height * width * channels`.
    pub fn len(&self) -> (res: usize)
        ensures
            res == self@.data.len(),
            self@.wf(),
    {
        proof {
            use_type_invariant(self);
        }
        self.data.len()
    }

    /// The bytes in row-major order.
    pub fn as_slice(&self) -> (res: &[u8])
        ensures
            res@ == self@.data,
            self@.wf(),
    {
        proof {
            use_type_invariant(self);
        }
        self.data.as_slice()
    }

    /// Gives up the tensor and returns its bytes in row-major order.
    pub fn into_raw_vec(self) -> (res: Vec<u8>)
        ensures
            res@ == self@.data,
            self@.wf(),
    {
        proof {
            use_type_invariant(&self);
        }
        self.data
    }

    /// The byte of pixel `(y, x)` in channel `c`.
    pub fn get(&self, y: usize, x: usize, c: usize) -> (res: u8)
        requires
            self@.in_bounds(y as int, x as int, c as int),
        ensures
            res == self@.at(y as int, x as int, c as int),
            self@.wf(),
    {
        // The byte count bounds the offset arithmetic below.
        let len = self.data.len();
        proof {
            use_type_invariant(self);
            lemma_offset_in_range(
                self.height as nat,
                self.width as nat,
                self.channels as nat,
                y as int,
                x as int,
                c as int,
            );
        }
        self.data[(y * self.width + x) * self.channels + c]
    }

    /// Overwrites the byte of pixel `(y, x)` in channel `c`.
    pub fn set(&mut self, y: usize, x: usize, c: usize, value: u8)
        requires
            old(self)@.in_bounds(y as int, x as int, c as int),
        ensures
            final(self)@ == (PixelView {
                data: old(self)@.data.update(old(self)@.offset(y as int, x as int, c as int), value),
                ..old(self)@
            }),
            final(self)@.wf(),
    {
        // The byte count bounds the offset arithmetic below.
        let len = self.data.len();
        proof {
            use_type_invariant(&*self);
            lemma_offset_in_range(
                self.height as nat,
                self.width as nat,
                self.channels as nat,
                y as int,
                x as int,
                c as int,
            );
        }
        let i = (y * self.width + x) * self.channels + c;
        let mut taken = PixelBuffer { height: 0, width: 0, channels: 0, data: Vec::new() };
        std::mem::swap(self, &mut taken);
        let PixelBuffer { height, width, channels, mut data } = taken;
        data.set(i, value);
        *self = PixelBuffer { height, width, channels, data };
    }
}

} // verus!

verus! {

/// The offset of an in-bounds position determines the position: dividing
/// by the channel count gives the pixel, whose row and column follow.
proof fn lemma_offset_decomposes(w: nat, ch: nat, y: int, x: int, c: int)
    requires
        0 <= y,
        0 <= x < w,
        0 <= c < ch,
    ensures
        ((y * w + x) * ch + c) / ch as int == y * w + x,
        ((y * w + x) * ch + c) % ch as int == c,
        (y * w + x) / w as int == y,
        (y * w + x) % w as int == x,
{
    assert(0 <= y * w + x) by (nonlinear_arith)
        requires 0 <= y, 0 <= x, w >= 0;
    vstd::arithmetic::div_mod::lemma_fundamental_div_mod_converse(
        (y * w + x) * ch + c,
        ch as int,
        y * w + x,
        c,
    );
    vstd::arithmetic::div_mod::lemma_fundamental_div_mod_converse(y * w + x, w as int, y, x);
}

/// Tensors built from row-major bytes read them back in row-major order:
/// with shape `(h, w, ch)` and bytes `v`, position `(y, x, c)` holds
/// `v[(y * w + x) * ch + c]`.
pub proof fn law_row_major_reads(h: nat, w: nat, ch: nat, v: Seq<u8>, y: int, x: int, c: int)
    requires
        v.len() == h * w * ch,
        0 <= y < h,
        0 <= x < w,
        0 <= c < ch,
    ensures
        0 <= (y * w + x) * ch + c < v.len(),
        (PixelView { height: h, width: w, channels: ch, data: v }).at(y, x, c) == v[(y * w + x) * ch
            + c],
{
    lemma_offset_in_range(h, w, ch, y, x, c);
}

/// Each in-bounds position has its own byte: writing one position (as
/// `set` does) makes it read the written value and leaves every other
/// in-bounds position reading what it read before.
pub proof fn law_positions_are_independent(
    v: PixelView,
    y1: int,
    x1: int,
    c1: int,
    y2: int,
    x2: int,
    c2: int,
    value: u8,
)
    requires
        v.wf(),
        v.in_bounds(y1, x1, c1),
        v.in_bounds(y2, x2, c2),
    ensures
        ({
            let written = PixelView { data: v.data.update(v.offset(y1, x1, c1), value), ..v };
            &&& written.at(y1, x1, c1) == value
            &&& (y1, x1, c1) != (y2, x2, c2) ==> written.at(y2, x2, c2) == v.at(y2, x2, c2)
        }),
{
    lemma_offset_in_range(v.height, v.width, v.channels, y1, x1, c1);
    lemma_offset_in_range(v.height, v.width, v.channels, y2, x2, c2);
    lemma_offset_decomposes(v.width, v.channels, y1, x1, c1);
    lemma_offset_decomposes(v.width, v.channels, y2, x2, c2);
}

} // verus!

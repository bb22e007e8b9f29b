//! Geometry of an interleaved (height × width × channels) image buffer.

use vstd::prelude::*;

use crate::error::GpuError;

verus! {

/// Offset of element (`row`, `col`, `ch`) in a row-major buffer whose rows
/// hold `width` pixels of `channels` interleaved values.
pub open spec fn flat_offset(width: int, channels: int, row: int, col: int, ch: int) -> int {
    (row * width + col) * channels + ch
}

/// Whether the pixel count `height * width`, and then the element count
/// `height * width * channels`, fit in `usize`.
pub open spec fn dims_fit(height: nat, width: nat, channels: nat) -> bool {
    &&& height * width <= usize::MAX
    &&& height * width * channels <= usize::MAX
}

/// Height, width and channel count of an image stored contiguously on the
/// device, row by row, channels interleaved. The element count always fits in
/// `usize`.
pub struct GpuImageLayout {
    height: usize,
    width: usize,
    channels: usize,
}

impl View for GpuImageLayout {
    /// (height, width, channels)
    type V = (nat, nat, nat);

    closed spec fn view(&self) -> (nat, nat, nat) {
        (self.height as nat, self.width as nat, self.channels as nat)
    }
}

impl GpuImageLayout {
    #[verifier::type_invariant]
    spec fn fits(self) -> bool {
        dims_fit(self.height as nat, self.width as nat, self.channels as nat)
    }

    /// Number of elements of a buffer with this layout.
    pub open spec fn spec_numel(self) -> nat {
        self@.0 * self@.1 * self@.2
    }

    /// Builds the layout of a `height` × `width` image with `channels`
    /// values per pixel; `None` when the pixel count or the element count
    /// overflows `usize`.
    pub fn new(height: usize, width: usize, channels: usize) -> (r: Option<Self>)
        ensures
            r is Some <==> dims_fit(height as nat, width as nat, channels as nat),
            r is Some <==> (height * width <= usize::MAX && height * width * channels <= usize::MAX),
            r matches Some(l) ==> l@ == (height as nat, width as nat, channels as nat),
    {
        match height.checked_mul(width) {
            None => None,
            Some(hw) => match hw.checked_mul(channels) {
                None => None,
                Some(_) => Some(GpuImageLayout { height, width, channels }),
            },
        }
    }

    /// Image height in pixels.
    pub fn height(&self) -> (r: usize)
        ensures r == self@.0,
    {
        self.height
    }

    /// Image width in pixels.
    pub fn width(&self) -> (r: usize)
        ensures r == self@.1,
    {
        self.width
    }

    /// Number of interleaved values per pixel.
    pub fn channels(&self) -> (r: usize)
        ensures r == self@.2,
    {
        self.channels
    }

    /// Number of elements (height × width × channels).
    pub fn numel(&self) -> (r: usize)
        ensures
            r == self.spec_numel(),
            r == self@.0 * self@.1 * self@.2,
            dims_fit(self@.0, self@.1, self@.2),
            self@.0 * self@.1 <= usize::MAX,
    {
        proof { use_type_invariant(self); }
        self.height * self.width * self.channels
    }

    /// Tensor shape `[height, width, channels]`.
    pub fn shape(&self) -> (r: [usize; 3])
        ensures r@ == seq![self@.0 as usize, self@.1 as usize, self@.2 as usize],
    {
        [self.height, self.width, self.channels]
    }

    /// Row-major strides `[width * channels, channels, 1]` of the contiguous buffer.
    ///
    /// The row length `width * channels` fits in `usize` whenever the image
    /// has a row; an empty image (height 0) may have rows too long for it.
    pub fn strides(&self) -> (r: [usize; 3])
        requires
            self@.1 * self@.2 <= usize::MAX,
        ensures
            r@ == seq![(self@.1 * self@.2) as usize, self@.2 as usize, 1usize],
    {
        [self.width * self.channels, self.channels, 1]
    }


    /// Size in bytes of the buffer when each element takes `elem_size`
    /// bytes; `None` when it overflows `usize`.
    pub fn size_in_bytes(&self, elem_size: usize) -> (r: Option<usize>)
        ensures
            r is Some <==> self.spec_numel() * elem_size <= usize::MAX,
            r matches Some(n) ==> n == self.spec_numel() * elem_size,
            r is Some <==> self@.0 * self@.1 * self@.2 * elem_size <= usize::MAX,
            r matches Some(n) ==> n == self@.0 * self@.1 * self@.2 * elem_size,
    {
        self.numel().checked_mul(elem_size)
    }

    /// Whether `self` and `other` have the same height and width.
    pub fn same_size(&self, other: &Self) -> (r: bool)
        ensures r <==> (self@.0 == other@.0 && self@.1 == other@.1),
    {
        self.height == other.height && self.width == other.width
    }

    /// Succeeds when a destination buffer `dst` has the height and width of
    /// this (source) layout, as writing into a pre-allocated buffer requires;
    /// otherwise reports both sizes.
    pub fn expect_same_size(&self, dst: &Self) -> (r: Result<(), GpuError>)
        ensures
            r is Ok <==> (self@.0 == dst@.0 && self@.1 == dst@.1),
            r is Err ==> r == Err::<(), GpuError>(GpuError::BufferSizeMismatch(
                self@.0 as usize, self@.1 as usize, dst@.0 as usize, dst@.1 as usize)),
    {
        if dst.height != self.height || dst.width != self.width {
            return Err(GpuError::BufferSizeMismatch(self.height, self.width, dst.height, dst.width));
        }
        Ok(())
    }

    /// Layout of an image with the same height and width and `channels`
    /// values per pixel; `None` when its element count overflows `usize`.
    pub fn with_channels(&self, channels: usize) -> (r: Option<Self>)
        ensures
            r is Some <==> dims_fit(self@.0, self@.1, channels as nat),
            r is Some <==> (self@.0 * self@.1 <= usize::MAX && self@.0 * self@.1 * channels <= usize::MAX),
            r matches Some(l) ==> l@ == (self@.0, self@.1, channels as nat),
    {
        Self::new(self.height, self.width, channels)
    }
}

/// Every element (`row`, `col`, `ch`) of an image addressed by the flat
/// row-major offset `(row * width + col) * channels + ch` lies inside the
/// buffer, and that offset is the dot product of the index with the layout's
/// strides.
pub proof fn lemma_flat_offset_in_bounds(l: GpuImageLayout, row: int, col: int, ch: int)
    requires
        0 <= row < l@.0,
        0 <= col < l@.1,
        0 <= ch < l@.2,
    ensures
        0 <= flat_offset(l@.1 as int, l@.2 as int, row, col, ch) < l.spec_numel(),
        flat_offset(l@.1 as int, l@.2 as int, row, col, ch) < l@.0 * l@.1 * l@.2,
        flat_offset(l@.1 as int, l@.2 as int, row, col, ch)
            == row * (l@.1 * l@.2) + col * l@.2 + ch,
{
    let h = l@.0 as int;
    let w = l@.1 as int;
    let c = l@.2 as int;
    assert((row * w + col) * c + ch == row * (w * c) + col * c + ch) by (nonlinear_arith);
    assert(0 <= (row * w + col) * c + ch < h * w * c) by (nonlinear_arith)
        requires 0 <= row < h, 0 <= col < w, 0 <= ch < c;
}

/// The four neighbours read by bilinear sampling at the top-left pixel
/// (`x0`, `y0`) are the pixels right of, below and diagonally below-right of
/// it, at offsets `+ channels`, `+ width * channels` and
/// `+ width * channels + channels` from its own; when the sampling window
/// passes the bounds test `0 <= x0`, `x0 + 1 < width`, `0 <= y0`,
/// `y0 + 1 < height`, all four reads of every channel lie inside the buffer.
pub proof fn lemma_bilinear_neighbours_in_bounds(l: GpuImageLayout, x0: int, y0: int, ch: int)
    requires
        0 <= x0,
        x0 + 1 < l@.1,
        0 <= y0,
        y0 + 1 < l@.0,
        0 <= ch < l@.2,
    ensures
        ({
            let w = l@.1 as int;
            let c = l@.2 as int;
            let base = flat_offset(w, c, y0, x0, ch);
            &&& base + c == flat_offset(w, c, y0, x0 + 1, ch)
            &&& base + w * c == flat_offset(w, c, y0 + 1, x0, ch)
            &&& base + w * c + c == flat_offset(w, c, y0 + 1, x0 + 1, ch)
            &&& 0 <= base
            &&& base + w * c + c < l.spec_numel()
            &&& base + c < l.spec_numel()
            &&& base + w * c < l.spec_numel()
            &&& base + w * c + c < l@.0 * l@.1 * l@.2
        }),
{
    let w = l@.1 as int;
    let c = l@.2 as int;
    lemma_flat_offset_in_bounds(l, y0, x0, ch);
    lemma_flat_offset_in_bounds(l, y0, x0 + 1, ch);
    lemma_flat_offset_in_bounds(l, y0 + 1, x0, ch);
    lemma_flat_offset_in_bounds(l, y0 + 1, x0 + 1, ch);
    assert((y0 * w + (x0 + 1)) * c + ch == (y0 * w + x0) * c + ch + c) by (nonlinear_arith);
    assert(((y0 + 1) * w + x0) * c + ch == (y0 * w + x0) * c + ch + w * c) by (nonlinear_arith);
    assert(((y0 + 1) * w + (x0 + 1)) * c + ch == (y0 * w + x0) * c + ch + w * c + c) by (nonlinear_arith);
}

/// The element count of a layout is exactly `height * width * channels`:
/// every offset below it is the flat offset of exactly one element (`row`,
/// `col`, `ch`) with `row < height`, `col < width`, `ch < channels`, and every
/// element's offset lies below it.
pub proof fn lemma_numel_counts_elements(l: GpuImageLayout, k: int)
    requires
        0 <= k < l.spec_numel(),
    ensures
        l.spec_numel() == l@.0 * l@.1 * l@.2,
        ({
            let w = l@.1 as int;
            let c = l@.2 as int;
            let row = k / (w * c);
            let col = (k % (w * c)) / c;
            let ch = k % c;
            &&& 0 <= row < l@.0
            &&& 0 <= col < l@.1
            &&& 0 <= ch < l@.2
            &&& flat_offset(w, c, row, col, ch) == k
        }),
{
    let h = l@.0 as int;
    let w = l@.1 as int;
    let c = l@.2 as int;
    assert(l.spec_numel() == h * w * c);
    assert(w > 0 && c > 0 && h > 0) by (nonlinear_arith)
        requires 0 <= k < h * w * c, h >= 0, w >= 0, c >= 0;
    let wc = w * c;
    assert(wc > 0) by (nonlinear_arith) requires w > 0, c > 0, wc == w * c;
    let row = k / wc;
    let rem = k % wc;
    let col = rem / c;
    let ch = k % c;
    vstd::arithmetic::div_mod::lemma_fundamental_div_mod(k, wc);
    vstd::arithmetic::div_mod::lemma_mod_pos_bound(k, wc);
    vstd::arithmetic::div_mod::lemma_div_pos_is_pos(k, wc);
    vstd::arithmetic::div_mod::lemma_fundamental_div_mod(rem, c);
    vstd::arithmetic::div_mod::lemma_mod_pos_bound(rem, c);
    vstd::arithmetic::div_mod::lemma_div_pos_is_pos(rem, c);
    vstd::arithmetic::div_mod::lemma_mod_mod(k, c, w);
    assert(w * c == c * w) by (nonlinear_arith);
    assert(rem % c == ch);
    assert(k == wc * row + rem);
    assert(rem == c * col + ch);
    assert(0 <= row < h) by (nonlinear_arith)
        requires k == wc * row + rem, 0 <= rem < wc, 0 <= k < h * w * c, wc == w * c, wc > 0, row >= 0;
    assert(0 <= col < w) by (nonlinear_arith)
        requires rem == c * col + ch, 0 <= ch < c, 0 <= rem < w * c, c > 0, col >= 0;
    assert((row * w + col) * c + ch == k) by (nonlinear_arith)
        requires k == wc * row + rem, wc == w * c, rem == c * col + ch;
}

/// Distinct elements of an image have distinct flat offsets: the row-major
/// addressing never makes two pixels (or two channels) share storage.
pub proof fn lemma_flat_offset_injective(
    l: GpuImageLayout,
    row1: int,
    col1: int,
    ch1: int,
    row2: int,
    col2: int,
    ch2: int,
)
    requires
        0 <= row1 < l@.0,
        0 <= col1 < l@.1,
        0 <= ch1 < l@.2,
        0 <= row2 < l@.0,
        0 <= col2 < l@.1,
        0 <= ch2 < l@.2,
        flat_offset(l@.1 as int, l@.2 as int, row1, col1, ch1)
            == flat_offset(l@.1 as int, l@.2 as int, row2, col2, ch2),
    ensures
        row1 == row2 && col1 == col2 && ch1 == ch2,
{
    let w = l@.1 as int;
    let c = l@.2 as int;
    let p1 = row1 * w + col1;
    let p2 = row2 * w + col2;
    assert(p1 == p2 && ch1 == ch2) by (nonlinear_arith)
        requires
            p1 * c + ch1 == p2 * c + ch2,
            0 <= ch1 < c,
            0 <= ch2 < c,
            p1 >= 0,
            p2 >= 0,
    {
        if p1 < p2 {
            assert(p1 * c + ch1 < p2 * c + ch2) by (nonlinear_arith)
                requires p1 < p2, 0 <= ch1 < c, 0 <= ch2;
        } else if p2 < p1 {
            assert(p2 * c + ch2 < p1 * c + ch1) by (nonlinear_arith)
                requires p2 < p1, 0 <= ch2 < c, 0 <= ch1;
        }
    }
    assert(row1 == row2 && col1 == col2) by (nonlinear_arith)
        requires
            row1 * w + col1 == row2 * w + col2,
            0 <= col1 < w,
            0 <= col2 < w,
            row1 >= 0,
            row2 >= 0,
    {
        if row1 < row2 {
            assert(row1 * w + col1 < row2 * w + col2) by (nonlinear_arith)
                requires row1 < row2, 0 <= col1 < w, 0 <= col2;
        } else if row2 < row1 {
            assert(row2 * w + col2 < row1 * w + col1) by (nonlinear_arith)
                requires row2 < row1, 0 <= col2 < w, 0 <= col1;
        }
    }
}

} // verus!

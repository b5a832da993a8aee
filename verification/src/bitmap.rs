//! The boolean pixel matrix that models the display's framebuffer.

use vstd::prelude::*;

verus! {

use vstd::arithmetic::div_mod::{
    lemma_fundamental_div_mod_converse_div, lemma_fundamental_div_mod_converse_mod,
};

/// Row-major index of the pixel at `(x, y)` in a matrix of width `w`.
pub open spec fn pixel_index(x: int, y: int, w: int) -> int {
    y * w + x
}

/// The row-major pixel index of an in-bounds coordinate is itself in bounds.
pub proof fn lemma_pixel_index_bound(x: int, y: int, w: int, h: int)
    requires
        0 <= x < w,
        0 <= y < h,
    ensures
        0 <= pixel_index(x, y, w) < w * h,
{
    assert(y * w + x < w * h) by (nonlinear_arith)
        requires
            0 <= x < w,
            0 <= y < h,
    ;
}

/// Recovers the coordinates from a row-major pixel index: `p == y * w + x`
/// with `x < w` holds exactly when `x == p % w` and `y == p / w`.
pub proof fn lemma_pixel_index_inverse(x: int, y: int, w: int)
    requires
        0 <= x < w,
        0 <= y,
    ensures
        pixel_index(x, y, w) % w == x,
        pixel_index(x, y, w) / w == y,
{
    lemma_fundamental_div_mod_converse_mod(y * w + x, w, y, x);
    lemma_fundamental_div_mod_converse_div(y * w + x, w, y, x);
}

/// A flat row-major index decomposes into the in-bounds coordinates
/// `(p % w, p / w)`.
pub proof fn lemma_flat_index_coords(p: int, w: int, h: int)
    requires
        0 <= p < w * h,
        0 < w,
    ensures
        0 <= p % w < w,
        0 <= p / w < h,
        pixel_index(p % w, p / w, w) == p,
{
    vstd::arithmetic::div_mod::lemma_mod_bound(p, w);
    vstd::arithmetic::div_mod::lemma_fundamental_div_mod(p, w);
    vstd::arithmetic::div_mod::lemma_div_pos_is_pos(p, w);
    vstd::arithmetic::div_mod::lemma_multiply_divide_lt(p, w, h);
    assert(p == w * (p / w) + p % w);
    assert((p / w) * w == w * (p / w)) by (nonlinear_arith);
}

/// Reads bit `i` of a byte sequence in most-significant-bit-first order:
/// bit 0 is the top bit of byte 0, bit 8 the top bit of byte 1, and so on.
/// This is the wire protocol's packing of pixel rows into payload bytes.
pub open spec fn msb0_bit(bytes: Seq<u8>, i: int) -> bool {
    (bytes[i / 8] >> ((7 - (i % 8)) as u8)) & 1u8 == 1u8
}

/// A fixed-size boolean pixel matrix. The width and height are set at
/// construction and never change; the cells are stored row-major, so pixel
/// `(x, y)` lives at index `y * width + x` of the view.
#[derive(Debug, Clone, PartialEq, Eq)]
pub struct Bitmap {
    pub width: usize,
    pub height: usize,
    pub cells: Vec<bool>,
}

impl View for Bitmap {
    type V = Seq<bool>;

    open spec fn view(&self) -> Seq<bool> {
        self.cells@
    }
}

impl Bitmap {
    /// The cell storage holds exactly one value per coordinate.
    pub open spec fn wf(&self) -> bool {
        self.cells@.len() == self.width * self.height
    }

    pub open spec fn spec_width(&self) -> usize {
        self.width
    }

    pub open spec fn spec_height(&self) -> usize {
        self.height
    }

    #[verifier::when_used_as_spec(spec_width)]
    pub fn width(&self) -> (r: usize)
        ensures
            r == self.width,
    {
        self.width
    }

    #[verifier::when_used_as_spec(spec_height)]
    pub fn height(&self) -> (r: usize)
        ensures
            r == self.height,
    {
        self.height
    }

    /// A new bitmap with every pixel off.
    pub fn new(width: usize, height: usize) -> (r: Bitmap)
        requires
            width * height <= usize::MAX,
        ensures
            r.wf(),
            r.width == width,
            r.height == height,
            r@ == Seq::new((width * height) as nat, |i: int| false),
    {
        let cells = filled(width * height, false);
        Bitmap { width, height, cells }
    }

    /// The display-sized bitmap the simulator owns.
    pub fn max_sized() -> (r: Bitmap)
        ensures
            r.wf(),
            r.width == crate::PIXEL_WIDTH,
            r.height == crate::PIXEL_HEIGHT,
            r@ == Seq::new(crate::PIXEL_COUNT as nat, |i: int| false),
    {
        Bitmap::new(crate::PIXEL_WIDTH, crate::PIXEL_HEIGHT)
    }

    /// Loads a bitmap from the wire format: each payload byte holds eight
    /// pixels of a row, most significant bit leftmost.
    pub fn from_bytes(width: usize, height: usize, data: &Vec<u8>) -> (r: Bitmap)
        requires
            width % 8 == 0,
            data@.len() * 8 == width * height,
        ensures
            r.wf(),
            r.width == width,
            r.height == height,
            r@.len() == width * height,
            forall|i: int| 0 <= i < r@.len() ==> r@[i] == msb0_bit(data@, i),
    {
        let cells = bits_from_bytes(data);
        Bitmap { width, height, cells }
    }

    pub fn get(&self, x: usize, y: usize) -> (r: bool)
        requires
            self.wf(),
            x < self.width,
            y < self.height,
        ensures
            r == self@[pixel_index(x as int, y as int, self.width as int)],
    {
        // the call puts the cell count's usize bound in scope for the
        // index arithmetic below
        let _len = self.cells.len();
        proof {
            lemma_pixel_index_bound(x as int, y as int, self.width as int, self.height as int);
        }
        self.cells[y * self.width + x]
    }

    pub fn set(&mut self, x: usize, y: usize, value: bool)
        requires
            old(self).wf(),
            x < old(self).width,
            y < old(self).height,
        ensures
            final(self).wf(),
            final(self).width == old(self).width,
            final(self).height == old(self).height,
            final(self)@ == old(self)@.update(
                pixel_index(x as int, y as int, old(self).width as int),
                value,
            ),
    {
        // the call puts the cell count's usize bound in scope for the
        // index arithmetic below
        let _len = self.cells.len();
        proof {
            lemma_pixel_index_bound(x as int, y as int, self.width as int, self.height as int);
        }
        let i = y * self.width + x;
        self.cells.set(i, value);
    }

    /// Sets every pixel to `value`.
    pub fn fill(&mut self, value: bool)
        requires
            old(self).wf(),
        ensures
            final(self).wf(),
            final(self).width == old(self).width,
            final(self).height == old(self).height,
            final(self)@ == Seq::new(old(self)@.len(), |i: int| value),
    {
        let n = self.cells.len();
        self.cells = filled(n, value);
    }
}

/// A vector of `n` copies of `value`.
pub(crate) fn filled<T: Copy>(n: usize, value: T) -> (v: Vec<T>)
    ensures
        v@ == Seq::new(n as nat, |i: int| value),
{
    let mut v: Vec<T> = Vec::new();
    let mut k: usize = 0;
    while k < n
        invariant
            k <= n,
            v@ =~= Seq::new(k as nat, |i: int| value),
        decreases n - k,
    {
        v.push(value);
        k = k + 1;
    }
    proof {
        assert(v@ =~= Seq::new(n as nat, |i: int| value));
    }
    v
}

/// Unpacks a byte sequence into its bits, most significant bit first.
pub fn bits_from_bytes(data: &Vec<u8>) -> (v: Vec<bool>)
    ensures
        v@.len() == data@.len() * 8,
        forall|i: int| 0 <= i < v@.len() ==> v@[i] == msb0_bit(data@, i),
{
    let mut v: Vec<bool> = Vec::new();
    let n = data.len();
    let mut k: usize = 0;
    while k < n
        invariant
            k <= n,
            n == data@.len(),
            v@.len() == k * 8,
            forall|i: int| 0 <= i < v@.len() ==> v@[i] == msb0_bit(data@, i),
        decreases n - k,
    {
        let byte = data[k];
        let mut b: usize = 0;
        while b < 8
            invariant
                b <= 8,
                k < n,
                n == data@.len(),
                byte == data@[k as int],
                v@.len() == k * 8 + b,
                forall|i: int| 0 <= i < v@.len() ==> v@[i] == msb0_bit(data@, i),
            decreases 8 - b,
        {
            let shift: u8 = (7 - b) as u8;
            let bit = (byte >> shift) & 1u8 == 1u8;
            proof {
                let i = k * 8 + b;
                lemma_pixel_index_inverse(b as int, k as int, 8);
                assert(i / 8 == k as int && i % 8 == b as int);
                assert(bit == msb0_bit(data@, i as int));
            }
            v.push(bit);
            b = b + 1;
        }
        k = k + 1;
    }
    v
}

} // verus!

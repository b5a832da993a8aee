//! The per-tile brightness matrix of the display.

use vstd::prelude::*;

verus! {

use crate::bitmap::{filled, lemma_pixel_index_bound, pixel_index};
use crate::BRIGHTNESS_MAX;

/// A fixed-size matrix of brightness values, one per display tile,
/// addressed by tile coordinates and stored row-major like [`crate::bitmap::Bitmap`].
/// Every held value is at most [`BRIGHTNESS_MAX`].
#[derive(Debug, Clone, PartialEq, Eq)]
pub struct BrightnessGrid {
    pub width: usize,
    pub height: usize,
    pub cells: Vec<u8>,
}

impl View for BrightnessGrid {
    type V = Seq<u8>;

    open spec fn view(&self) -> Seq<u8> {
        self.cells@
    }
}

impl BrightnessGrid {
    /// One value per tile, each within the brightness range.
    pub open spec fn wf(&self) -> bool {
        &&& self.cells@.len() == self.width * self.height
        &&& forall|i: int| 0 <= i < self.cells@.len() ==> self.cells@[i] <= BRIGHTNESS_MAX
    }

    pub open spec fn spec_width(&self) -> usize {
        self.width
    }

    pub open spec fn spec_height(&self) -> usize {
        self.height
    }

    #[verifier::when_used_as_spec(spec_width)]
    pub fn width(&self) -> (r: usize)
        ensures
            r == self.width,
    {
        self.width
    }

    #[verifier::when_used_as_spec(spec_height)]
    pub fn height(&self) -> (r: usize)
        ensures
            r == self.height,
    {
        self.height
    }

    /// A new grid with every tile at full brightness, as the display
    /// starts up.
    pub fn new(width: usize, height: usize) -> (r: BrightnessGrid)
        requires
            width * height <= usize::MAX,
        ensures
            r.wf(),
            r.width == width,
            r.height == height,
            r@ == Seq::new((width * height) as nat, |i: int| BRIGHTNESS_MAX),
    {
        let cells = filled(width * height, BRIGHTNESS_MAX);
        BrightnessGrid { width, height, cells }
    }

    /// Wraps already-validated brightness values.
    pub fn from_parts(width: usize, height: usize, cells: Vec<u8>) -> (r: BrightnessGrid)
        requires
            cells@.len() == width * height,
            forall|i: int| 0 <= i < cells@.len() ==> cells@[i] <= BRIGHTNESS_MAX,
        ensures
            r.wf(),
            r.width == width,
            r.height == height,
            r@ == cells@,
    {
        BrightnessGrid { width, height, cells }
    }

    pub fn get(&self, x: usize, y: usize) -> (r: u8)
        requires
            self.wf(),
            x < self.width,
            y < self.height,
        ensures
            r == self@[pixel_index(x as int, y as int, self.width as int)],
            r <= BRIGHTNESS_MAX,
    {
        // the call puts the cell count's usize bound in scope for the
        // index arithmetic below
        let _len = self.cells.len();
        proof {
            lemma_pixel_index_bound(x as int, y as int, self.width as int, self.height as int);
        }
        self.cells[y * self.width + x]
    }

    pub fn set(&mut self, x: usize, y: usize, value: u8)
        requires
            old(self).wf(),
            x < old(self).width,
            y < old(self).height,
            value <= BRIGHTNESS_MAX,
        ensures
            final(self).wf(),
            final(self).width == old(self).width,
            final(self).height == old(self).height,
            final(self)@ == old(self)@.update(
                pixel_index(x as int, y as int, old(self).width as int),
                value,
            ),
    {
        // the call puts the cell count's usize bound in scope for the
        // index arithmetic below
        let _len = self.cells.len();
        proof {
            lemma_pixel_index_bound(x as int, y as int, self.width as int, self.height as int);
        }
        let i = y * self.width + x;
        self.cells.set(i, value);
    }

    /// Sets every tile to `value`.
    pub fn fill(&mut self, value: u8)
        requires
            old(self).wf(),
            value <= BRIGHTNESS_MAX,
        ensures
            final(self).wf(),
            final(self).width == old(self).width,
            final(self).height == old(self).height,
            final(self)@ == Seq::new(old(self)@.len(), |i: int| value),
    {
        let n = self.cells.len();
        self.cells = filled(n, value);
    }
}

} // verus!

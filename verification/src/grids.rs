//! Payload matrices carried by grid commands: character codes and
//! Unicode characters.

use vstd::prelude::*;

verus! {

use crate::bitmap::{lemma_pixel_index_bound, pixel_index};

/// A fixed-size matrix of byte values, stored row-major. Carries the
/// CP437 character codes of a text command.
#[derive(Debug, Clone, PartialEq, Eq)]
pub struct ByteGrid {
    pub width: usize,
    pub height: usize,
    pub cells: Vec<u8>,
}

impl View for ByteGrid {
    type V = Seq<u8>;

    open spec fn view(&self) -> Seq<u8> {
        self.cells@
    }
}

impl ByteGrid {
    pub open spec fn wf(&self) -> bool {
        self.cells@.len() == self.width * self.height
    }

    pub open spec fn spec_width(&self) -> usize {
        self.width
    }

    pub open spec fn spec_height(&self) -> usize {
        self.height
    }

    #[verifier::when_used_as_spec(spec_width)]
    pub fn width(&self) -> (r: usize)
        ensures
            r == self.width,
    {
        self.width
    }

    #[verifier::when_used_as_spec(spec_height)]
    pub fn height(&self) -> (r: usize)
        ensures
            r == self.height,
    {
        self.height
    }

    pub fn from_parts(width: usize, height: usize, cells: Vec<u8>) -> (r: ByteGrid)
        requires
            cells@.len() == width * height,
        ensures
            r.wf(),
            r.width == width,
            r.height == height,
            r@ == cells@,
    {
        ByteGrid { width, height, cells }
    }

    pub fn get(&self, x: usize, y: usize) -> (r: u8)
        requires
            self.wf(),
            x < self.width,
            y < self.height,
        ensures
            r == self@[pixel_index(x as int, y as int, self.width as int)],
    {
        // the call puts the cell count's usize bound in scope for the
        // index arithmetic below
        let _len = self.cells.len();
        proof {
            lemma_pixel_index_bound(x as int, y as int, self.width as int, self.height as int);
        }
        self.cells[y * self.width + x]
    }
}

/// A fixed-size matrix of Unicode characters, stored row-major. Carries
/// the text of a character-grid command.
#[derive(Debug, Clone, PartialEq, Eq)]
pub struct CharGrid {
    pub width: usize,
    pub height: usize,
    pub cells: Vec<char>,
}

impl View for CharGrid {
    type V = Seq<char>;

    open spec fn view(&self) -> Seq<char> {
        self.cells@
    }
}

impl CharGrid {
    pub open spec fn wf(&self) -> bool {
        self.cells@.len() == self.width * self.height
    }

    pub open spec fn spec_width(&self) -> usize {
        self.width
    }

    pub open spec fn spec_height(&self) -> usize {
        self.height
    }

    #[verifier::when_used_as_spec(spec_width)]
    pub fn width(&self) -> (r: usize)
        ensures
            r == self.width,
    {
        self.width
    }

    #[verifier::when_used_as_spec(spec_height)]
    pub fn height(&self) -> (r: usize)
        ensures
            r == self.height,
    {
        self.height
    }

    pub fn from_parts(width: usize, height: usize, cells: Vec<char>) -> (r: CharGrid)
        requires
            cells@.len() == width * height,
        ensures
            r.wf(),
            r.width == width,
            r.height == height,
            r@ == cells@,
    {
        CharGrid { width, height, cells }
    }

    pub fn get(&self, x: usize, y: usize) -> (r: char)
        requires
            self.wf(),
            x < self.width,
            y < self.height,
        ensures
            r == self@[pixel_index(x as int, y as int, self.width as int)],
    {
        // the call puts the cell count's usize bound in scope for the
        // index arithmetic below
        let _len = self.cells.len();
        proof {
            lemma_pixel_index_bound(x as int, y as int, self.width as int, self.height as int);
        }
        self.cells[y * self.width + x]
    }
}

} // verus!

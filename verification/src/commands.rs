//! The typed display commands decoded from the wire protocol.

use vstd::prelude::*;

verus! {

use crate::bitmap::Bitmap;
use crate::brightness_grid::BrightnessGrid;
use crate::grids::{ByteGrid, CharGrid};
use crate::{BRIGHTNESS_MAX, TILE_SIZE};

/// Largest value of a 16-bit operand field; every decoded coordinate or
/// length is bounded by it.
pub const OPERAND_MAX: usize = 0xFFFF;

/// A coordinate pair in pixel space.
#[derive(Debug, Clone, Copy, PartialEq, Eq, Structural)]
pub struct PixelOrigin {
    pub x: usize,
    pub y: usize,
}

/// A coordinate pair in tile space. Tile and pixel offsets are distinct
/// types, so the two units can never be silently mixed.
#[derive(Debug, Clone, Copy, PartialEq, Eq, Structural)]
pub struct TileOrigin {
    pub x: usize,
    pub y: usize,
}

impl TileOrigin {
    /// The pixel coordinate of this tile's top-left corner.
    pub fn to_pixels(&self) -> (r: PixelOrigin)
        requires
            self.x * TILE_SIZE <= usize::MAX,
            self.y * TILE_SIZE <= usize::MAX,
        ensures
            r.x == self.x * TILE_SIZE,
            r.y == self.y * TILE_SIZE,
    {
        PixelOrigin { x: self.x * TILE_SIZE, y: self.y * TILE_SIZE }
    }
}

/// How a sent bit combines with the pixel already on the display.
#[derive(Debug, Clone, Copy, PartialEq, Eq, Structural)]
pub enum BinaryOperation {
    /// The sent bit replaces the pixel.
    Overwrite,
    And,
    Or,
    Xor,
}

/// Turn every pixel off.
#[derive(Debug, Clone, Copy, PartialEq, Eq, Structural)]
pub struct ClearCommand;

/// Shut the display down.
#[derive(Debug, Clone, Copy, PartialEq, Eq, Structural)]
pub struct HardResetCommand;

/// Fade the display out. The simulator does not implement the fade and
/// treats the command as a benign no-op.
#[derive(Debug, Clone, Copy, PartialEq, Eq, Structural)]
pub struct FadeOutCommand;

/// A deprecated legacy command; the simulator refuses it.
#[derive(Debug, Clone, Copy, PartialEq, Eq, Structural)]
pub struct BitmapLegacyCommand;

/// Set the brightness of every tile at once.
#[derive(Debug, Clone, Copy, PartialEq, Eq, Structural)]
pub struct GlobalBrightnessCommand {
    pub brightness: u8,
}

impl GlobalBrightnessCommand {
    pub open spec fn wf(&self) -> bool {
        self.brightness <= BRIGHTNESS_MAX
    }
}

/// Overwrite-copy a rectangle of pixels at a pixel-space origin.
#[derive(Debug, Clone, PartialEq, Eq)]
pub struct BitmapCommand {
    pub origin: PixelOrigin,
    pub bitmap: Bitmap,
    /// The wire's compression code; the identity codec is applied
    /// whatever it says.
    pub compression: u16,
}

impl BitmapCommand {
    /// Field bounds inherited from the 16-bit operand fields: the origin
    /// comes from a tile coordinate and a pixel row, the bitmap width
    /// from a tile count.
    pub open spec fn wf(&self) -> bool {
        &&& self.bitmap.wf()
        &&& self.origin.x <= OPERAND_MAX * TILE_SIZE
        &&& self.origin.y <= OPERAND_MAX
        &&& self.bitmap.width <= OPERAND_MAX * TILE_SIZE
        &&& self.bitmap.height <= OPERAND_MAX
    }
}

/// Apply a bit vector to the display's pixels in row-major linear order,
/// starting at a flat pixel offset.
#[derive(Debug, Clone, PartialEq, Eq)]
pub struct BitVecCommand {
    pub offset: usize,
    pub bitvec: Vec<bool>,
    pub operation: BinaryOperation,
    /// The wire's compression code; the identity codec is applied
    /// whatever it says.
    pub compression: u16,
}

impl BitVecCommand {
    /// Field bounds inherited from the wire: the offset and the payload
    /// byte length are 16-bit fields, and each byte holds eight bits.
    pub open spec fn wf(&self) -> bool {
        &&& self.offset <= OPERAND_MAX
        &&& self.bitvec@.len() <= OPERAND_MAX * 8
    }
}

/// Draw a grid of CP437 characters at a tile-space origin.
#[derive(Debug, Clone, PartialEq, Eq)]
pub struct Cp437GridCommand {
    pub origin: TileOrigin,
    pub grid: ByteGrid,
}

impl Cp437GridCommand {
    pub open spec fn wf(&self) -> bool {
        &&& self.grid.wf()
        &&& self.origin.x <= OPERAND_MAX
        &&& self.origin.y <= OPERAND_MAX
        &&& self.grid.width <= OPERAND_MAX
        &&& self.grid.height <= OPERAND_MAX
    }
}

/// Draw a grid of Unicode characters at a tile-space origin. The glyphs
/// themselves come from the external font renderer.
#[derive(Debug, Clone, PartialEq, Eq)]
pub struct CharGridCommand {
    pub origin: TileOrigin,
    pub grid: CharGrid,
}

impl CharGridCommand {
    pub open spec fn wf(&self) -> bool {
        &&& self.grid.wf()
        &&& self.origin.x <= OPERAND_MAX
        &&& self.origin.y <= OPERAND_MAX
        &&& self.grid.width <= OPERAND_MAX
        &&& self.grid.height <= OPERAND_MAX
    }
}

/// Copy a grid of brightness values into the tile grid at a tile-space
/// origin.
#[derive(Debug, Clone, PartialEq, Eq)]
pub struct BrightnessGridCommand {
    pub origin: TileOrigin,
    pub grid: BrightnessGrid,
}

impl BrightnessGridCommand {
    pub open spec fn wf(&self) -> bool {
        &&& self.grid.wf()
        &&& self.origin.x <= OPERAND_MAX
        &&& self.origin.y <= OPERAND_MAX
        &&& self.grid.width <= OPERAND_MAX
        &&& self.grid.height <= OPERAND_MAX
    }
}

/// The closed union of display commands, one variant per wire command.
#[derive(Debug, Clone, PartialEq, Eq)]
pub enum TypedCommand {
    Clear(ClearCommand),
    HardReset(HardResetCommand),
    FadeOut(FadeOutCommand),
    BitmapLegacy(BitmapLegacyCommand),
    Brightness(GlobalBrightnessCommand),
    Bitmap(BitmapCommand),
    BitVec(BitVecCommand),
    Cp437Grid(Cp437GridCommand),
    CharGrid(CharGridCommand),
    BrightnessGrid(BrightnessGridCommand),
}

impl TypedCommand {
    /// Every payload is well-formed and every field respects the bounds
    /// the 16-bit wire format imposes.
    pub open spec fn wf(&self) -> bool {
        match self {
            TypedCommand::Clear(_) => true,
            TypedCommand::HardReset(_) => true,
            TypedCommand::FadeOut(_) => true,
            TypedCommand::BitmapLegacy(_) => true,
            TypedCommand::Brightness(c) => c.wf(),
            TypedCommand::Bitmap(c) => c.wf(),
            TypedCommand::BitVec(c) => c.wf(),
            TypedCommand::Cp437Grid(c) => c.wf(),
            TypedCommand::CharGrid(c) => c.wf(),
            TypedCommand::BrightnessGrid(c) => c.wf(),
        }
    }
}

} // verus!

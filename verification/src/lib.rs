//! Simulator core for a network-addressable LED pixel display.
//!
//! The crate decodes the display's binary datagram protocol into typed
//! commands and applies those commands to an in-memory framebuffer: a
//! boolean pixel bitmap plus a per-tile brightness grid. Every decoding
//! rule and every mutation the command engine performs is stated in the
//! contracts and checked by Verus.

use vstd::prelude::*;

pub mod bitmap;
pub mod brightness_grid;
pub mod cli;
pub mod command_executor;
pub mod commands;
pub mod cp437_font;
pub mod decode;
pub mod grids;
pub mod laws;
pub mod protocol;
pub mod session;

verus! {

/// Size of a display tile in pixels, in both dimensions.
pub const TILE_SIZE: usize = 8;

/// Number of tiles in the x-direction.
pub const TILE_WIDTH: usize = 56;

/// Number of tiles in the y-direction.
pub const TILE_HEIGHT: usize = 20;

/// Display width in pixels: 56 tiles of 8 pixels.
pub const PIXEL_WIDTH: usize = 448;

/// Display height in pixels: 20 tiles of 8 pixels.
pub const PIXEL_HEIGHT: usize = 160;

/// Total pixel count of the display: 448 by 160 pixels.
pub const PIXEL_COUNT: usize = 71680;

/// Largest valid brightness value for a tile.
pub const BRIGHTNESS_MAX: u8 = 11;

} // verus!

//! Tests for the command execution engine against the framebuffer
//! model.

use servicepoint_simulator::bitmap::Bitmap;
use servicepoint_simulator::brightness_grid::BrightnessGrid;
use servicepoint_simulator::command_executor::{CommandExecutionContext, ExecutionResult};
use servicepoint_simulator::commands::{
    BinaryOperation, BitVecCommand, BitmapCommand, BitmapLegacyCommand, BrightnessGridCommand,
    CharGridCommand, ClearCommand, Cp437GridCommand, FadeOutCommand, GlobalBrightnessCommand,
    HardResetCommand, PixelOrigin, TileOrigin, TypedCommand,
};
use servicepoint_simulator::cp437_font::Cp437Font;
use servicepoint_simulator::grids::{ByteGrid, CharGrid};
use servicepoint_simulator::{
    BRIGHTNESS_MAX, PIXEL_COUNT, PIXEL_HEIGHT, PIXEL_WIDTH, TILE_HEIGHT, TILE_SIZE, TILE_WIDTH,
};

fn fresh_context() -> CommandExecutionContext {
    CommandExecutionContext::new(
        Bitmap::max_sized(),
        BrightnessGrid::new(TILE_WIDTH, TILE_HEIGHT),
    )
}

fn no_glyphs() -> Vec<Option<Bitmap>> {
    Vec::new()
}

/// An 8 by 2 test pattern: the first row alternating starting on, the
/// second row a single pixel at x = 1.
fn small_pattern() -> Bitmap {
    Bitmap::from_bytes(8, 2, &vec![0b1010_1010, 0b0100_0000])
}

#[test]
fn clear_turns_every_pixel_off() {
    let mut ctx = fresh_context();
    ctx.display.set(0, 0, true);
    ctx.display.set(17, 3, true);
    ctx.display.set(PIXEL_WIDTH - 1, PIXEL_HEIGHT - 1, true);
    let r = ClearCommand.execute(&mut ctx);
    assert_eq!(r, ExecutionResult::Success);
    for y in 0..PIXEL_HEIGHT {
        for x in 0..PIXEL_WIDTH {
            assert!(!ctx.display.get(x, y));
        }
    }
}

#[test]
fn hard_reset_shuts_down_without_mutation() {
    let mut ctx = fresh_context();
    ctx.display.set(5, 5, true);
    let r = HardResetCommand.execute(&mut ctx);
    assert_eq!(r, ExecutionResult::Shutdown);
    assert!(ctx.display.get(5, 5));
}

#[test]
fn fade_out_is_a_successful_no_op() {
    let mut ctx = fresh_context();
    ctx.display.set(5, 5, true);
    let r = FadeOutCommand.execute(&mut ctx);
    assert_eq!(r, ExecutionResult::Success);
    assert!(ctx.display.get(5, 5));
}

#[test]
fn bitmap_legacy_fails_without_mutation() {
    let mut ctx = fresh_context();
    let r = BitmapLegacyCommand.execute(&mut ctx);
    assert_eq!(r, ExecutionResult::Failure);
    for y in 0..PIXEL_HEIGHT {
        for x in 0..PIXEL_WIDTH {
            assert!(!ctx.display.get(x, y));
        }
    }
}

#[test]
fn brightness_fills_every_tile() {
    let mut ctx = fresh_context();
    let r = GlobalBrightnessCommand { brightness: 7 }.execute(&mut ctx);
    assert_eq!(r, ExecutionResult::Success);
    for ty in 0..TILE_HEIGHT {
        for tx in 0..TILE_WIDTH {
            assert_eq!(ctx.luma.get(tx, ty), 7);
        }
    }
}

#[test]
fn bitvec_overwrite_sets_exactly_the_window() {
    let mut ctx = fresh_context();
    ctx.display.set(0, 0, true); // offset 0: outside the written range
    let bits: Vec<bool> = vec![true, false, true, true];
    let cmd = BitVecCommand {
        offset: 10,
        bitvec: bits.clone(),
        operation: BinaryOperation::Overwrite,
        compression: 0,
    };
    let r = cmd.execute(&mut ctx);
    assert_eq!(r, ExecutionResult::Success);
    for (i, bit) in bits.iter().enumerate() {
        assert_eq!(ctx.display.get(10 + i, 0), *bit);
    }
    assert!(ctx.display.get(0, 0));
    assert!(!ctx.display.get(9, 0));
    assert!(!ctx.display.get(14, 0));
}

#[test]
fn bitvec_addresses_pixels_row_major() {
    let mut ctx = fresh_context();
    let cmd = BitVecCommand {
        offset: PIXEL_WIDTH + 3,
        bitvec: vec![true],
        operation: BinaryOperation::Overwrite,
        compression: 0,
    };
    assert_eq!(cmd.execute(&mut ctx), ExecutionResult::Success);
    assert!(ctx.display.get(3, 1));
}

#[test]
fn bitvec_masking_operations() {
    for (op, expected) in [
        (BinaryOperation::And, [false, false, true, false]),
        (BinaryOperation::Or, [true, true, true, false]),
        (BinaryOperation::Xor, [true, true, false, false]),
    ] {
        let mut ctx = fresh_context();
        // Pre-state: pixels 0..4 are F T T F.
        ctx.display.set(1, 0, true);
        ctx.display.set(2, 0, true);
        // Sent bits: T F T F.
        let cmd = BitVecCommand {
            offset: 0,
            bitvec: vec![true, false, true, false],
            operation: op,
            compression: 0,
        };
        assert_eq!(cmd.execute(&mut ctx), ExecutionResult::Success);
        for (x, want) in expected.iter().enumerate() {
            assert_eq!(ctx.display.get(x, 0), *want, "op {op:?} at {x}");
        }
    }
}

#[test]
fn bitvec_overwrite_then_xor_restores_darkness() {
    let mut ctx = fresh_context();
    // A non-trivial pre-populated display.
    ctx.display.set(7, 0, true);
    ctx.display.set(40, 2, true);
    let bits = vec![true, true, false, true, false, false, true, true];
    let overwrite = BitVecCommand {
        offset: 32,
        bitvec: bits.clone(),
        operation: BinaryOperation::Overwrite,
        compression: 0,
    };
    assert_eq!(overwrite.execute(&mut ctx), ExecutionResult::Success);
    let xor = BitVecCommand {
        offset: 32,
        bitvec: bits,
        operation: BinaryOperation::Xor,
        compression: 0,
    };
    assert_eq!(xor.execute(&mut ctx), ExecutionResult::Success);
    for i in 32..40 {
        assert!(!ctx.display.get(i, 0));
    }
    // Untouched pixels keep their values.
    assert!(ctx.display.get(7, 0));
    assert!(ctx.display.get(40, 2));
}

#[test]
fn bitvec_past_the_end_fails_without_any_write() {
    let mut ctx = fresh_context();
    ctx.display.set(100, 0, true);
    let cmd = BitVecCommand {
        offset: PIXEL_COUNT - 2,
        bitvec: vec![true, true, true],
        operation: BinaryOperation::Overwrite,
        compression: 0,
    };
    assert_eq!(cmd.execute(&mut ctx), ExecutionResult::Failure);
    // Byte-for-byte unchanged: the one lit pixel is still the only one.
    for y in 0..PIXEL_HEIGHT {
        for x in 0..PIXEL_WIDTH {
            assert_eq!(ctx.display.get(x, y), x == 100 && y == 0);
        }
    }
}

#[test]
fn bitmap_window_inside_bounds_copies_exactly() {
    let mut ctx = fresh_context();
    ctx.display.set(2, 0, true); // outside the window
    let cmd = BitmapCommand {
        origin: PixelOrigin { x: 100, y: 50 },
        bitmap: small_pattern(),
        compression: 0,
    };
    assert_eq!(cmd.execute(&mut ctx), ExecutionResult::Success);
    for iy in 0..2 {
        for ix in 0..8 {
            let want = if iy == 0 { ix % 2 == 0 } else { ix == 1 };
            assert_eq!(ctx.display.get(100 + ix, 50 + iy), want);
        }
    }
    // Pixels outside the rectangle are unchanged.
    assert!(ctx.display.get(2, 0));
    assert!(!ctx.display.get(99, 50));
    assert!(!ctx.display.get(108, 50));
    assert!(!ctx.display.get(100, 52));
}

#[test]
fn bitmap_window_partially_out_of_bounds_keeps_prefix() {
    let mut ctx = fresh_context();
    // An 8-wide window starting 4 pixels before the right edge: each
    // row's first 4 pixels are written, then the copy stops.
    let cmd = BitmapCommand {
        origin: PixelOrigin { x: PIXEL_WIDTH - 4, y: 0 },
        bitmap: small_pattern(),
        compression: 0,
    };
    assert_eq!(cmd.execute(&mut ctx), ExecutionResult::Failure);
    // Row-major traversal: row 0 pixels 0..4 (T F T F) were written
    // before the first out-of-bounds coordinate; nothing after.
    assert!(ctx.display.get(PIXEL_WIDTH - 4, 0));
    assert!(!ctx.display.get(PIXEL_WIDTH - 3, 0));
    assert!(ctx.display.get(PIXEL_WIDTH - 2, 0));
    assert!(!ctx.display.get(PIXEL_WIDTH - 1, 0));
    // Row 1 was never reached: its single set bit is absent.
    for x in 0..PIXEL_WIDTH {
        assert!(!ctx.display.get(x, 1));
    }
}

#[test]
fn bitmap_window_partial_run_is_deterministic() {
    let run = || {
        let mut ctx = fresh_context();
        let cmd = BitmapCommand {
            origin: PixelOrigin { x: PIXEL_WIDTH - 4, y: 0 },
            bitmap: small_pattern(),
            compression: 0,
        };
        let r = cmd.execute(&mut ctx);
        (r, ctx.display)
    };
    let (r1, d1) = run();
    let (r2, d2) = run();
    assert_eq!(r1, r2);
    assert_eq!(d1, d2);
}

#[test]
fn brightness_grid_copies_window() {
    let mut ctx = fresh_context();
    let cmd = BrightnessGridCommand {
        origin: TileOrigin { x: 3, y: 1 },
        grid: BrightnessGrid::from_parts(2, 2, vec![1, 2, 3, 4]),
    };
    assert_eq!(cmd.execute(&mut ctx), ExecutionResult::Success);
    assert_eq!(ctx.luma.get(3, 1), 1);
    assert_eq!(ctx.luma.get(4, 1), 2);
    assert_eq!(ctx.luma.get(3, 2), 3);
    assert_eq!(ctx.luma.get(4, 2), 4);
    // The rest still holds the startup value.
    assert_eq!(ctx.luma.get(0, 0), BRIGHTNESS_MAX);
    assert_eq!(ctx.luma.get(5, 1), BRIGHTNESS_MAX);
}

#[test]
fn brightness_grid_out_of_range_is_refused_whole() {
    // The wire protocol defines no size check for this command; the
    // engine refuses an ill-fitting window instead of writing out of
    // range.
    let mut ctx = fresh_context();
    let cmd = BrightnessGridCommand {
        origin: TileOrigin { x: TILE_WIDTH - 1, y: 0 },
        grid: BrightnessGrid::from_parts(2, 1, vec![1, 2]),
    };
    assert_eq!(cmd.execute(&mut ctx), ExecutionResult::Failure);
    for ty in 0..TILE_HEIGHT {
        for tx in 0..TILE_WIDTH {
            assert_eq!(ctx.luma.get(tx, ty), BRIGHTNESS_MAX);
        }
    }
}

#[test]
fn cp437_grid_draws_glyphs_at_tile_positions() {
    let mut ctx = fresh_context();
    let cmd = Cp437GridCommand {
        origin: TileOrigin { x: 2, y: 1 },
        grid: ByteGrid::from_parts(1, 1, vec![b'!']),
    };
    assert_eq!(cmd.execute(&mut ctx), ExecutionResult::Success);
    // The glyph was blitted into the tile at (2, 1), so pixel rows
    // 8..16, columns 16..24 hold the '!' glyph from the built-in font.
    let font = Cp437Font::default();
    let glyph = font.index(b'!');
    let mut any_on = false;
    for gy in 0..TILE_SIZE {
        for gx in 0..TILE_SIZE {
            let want = glyph.get(gx, gy);
            any_on = any_on || want;
            assert_eq!(ctx.display.get(2 * TILE_SIZE + gx, TILE_SIZE + gy), want);
        }
    }
    assert!(any_on, "the '!' glyph must not be blank");
}

#[test]
fn cp437_grid_out_of_bounds_cell_aborts() {
    let mut ctx = fresh_context();
    // Two cells; the second starts beyond the right edge of the display.
    let cmd = Cp437GridCommand {
        origin: TileOrigin { x: TILE_WIDTH - 1, y: 0 },
        grid: ByteGrid::from_parts(2, 1, vec![0xDB, 0xDB]), // full blocks
    };
    assert_eq!(cmd.execute(&mut ctx), ExecutionResult::Failure);
    // The first cell was drawn in full.
    for gy in 0..TILE_SIZE {
        for gx in 0..TILE_SIZE {
            assert!(ctx.display.get((TILE_WIDTH - 1) * TILE_SIZE + gx, gy));
        }
    }
}

#[test]
fn built_in_font_glyph_exclamation_mark() {
    // Row bytes of the '!' glyph in the packed table: a centered bar
    // with a gap above the final dot.
    let font = Cp437Font::default();
    let glyph = font.index(b'!');
    for y in 0..8 {
        for x in 0..8 {
            let want = x == 3 && y != 6;
            assert_eq!(glyph.get(x, y), want, "at {x} {y}");
        }
    }
}

#[test]
fn built_in_font_covers_all_256_codes() {
    let font = Cp437Font::default();
    for code in 0..=u8::MAX {
        let glyph = font.index(code);
        assert_eq!((glyph.width(), glyph.height()), (TILE_SIZE, TILE_SIZE));
    }
}

#[test]
fn char_grid_draws_pre_rendered_glyphs() {
    let mut ctx = fresh_context();
    // One cell, with a pre-rendered fully-lit tile standing in for the
    // renderer's output.
    let mut tile = Bitmap::new(TILE_SIZE, TILE_SIZE);
    tile.fill(true);
    let cmd = CharGridCommand {
        origin: TileOrigin { x: 0, y: 0 },
        grid: CharGrid::from_parts(1, 1, vec!['A']),
    };
    let glyphs = vec![Some(tile)];
    assert_eq!(cmd.execute(&mut ctx, &glyphs), ExecutionResult::Success);
    for gy in 0..TILE_SIZE {
        for gx in 0..TILE_SIZE {
            assert!(ctx.display.get(gx, gy));
        }
    }
    assert!(!ctx.display.get(TILE_SIZE, 0));
}

#[test]
fn char_grid_missing_glyph_aborts_remaining_cells() {
    let mut ctx = fresh_context();
    let mut tile = Bitmap::new(TILE_SIZE, TILE_SIZE);
    tile.fill(true);
    let cmd = CharGridCommand {
        origin: TileOrigin { x: 0, y: 0 },
        grid: CharGrid::from_parts(3, 1, vec!['a', 'b', 'c']),
    };
    // The second cell's glyph is missing: the first is drawn, the third
    // never reached.
    let glyphs = vec![Some(tile.clone()), None, Some(tile)];
    assert_eq!(cmd.execute(&mut ctx, &glyphs), ExecutionResult::Failure);
    assert!(ctx.display.get(0, 0));
    assert!(!ctx.display.get(2 * TILE_SIZE, 0));
}

#[test]
fn tile_origin_converts_to_pixels() {
    let origin = TileOrigin { x: 3, y: 2 };
    let pixels = origin.to_pixels();
    assert_eq!((pixels.x, pixels.y), (3 * TILE_SIZE, 2 * TILE_SIZE));
}

#[test]
fn dispatch_runs_the_matching_handler() {
    let mut ctx = fresh_context();
    let glyphs = no_glyphs();
    let r = TypedCommand::Brightness(GlobalBrightnessCommand { brightness: 3 })
        .execute(&mut ctx, &glyphs);
    assert_eq!(r, ExecutionResult::Success);
    assert_eq!(ctx.luma.get(0, 0), 3);
    let r = TypedCommand::HardReset(HardResetCommand).execute(&mut ctx, &glyphs);
    assert_eq!(r, ExecutionResult::Shutdown);
}

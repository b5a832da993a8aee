//! Laws of the codec and the engine, stated over the specification
//! functions the command contracts use and proved for all inputs.

use vstd::prelude::*;

verus! {

use crate::bitmap::{lemma_pixel_index_bound, lemma_pixel_index_inverse, pixel_index};
use crate::command_executor::{
    apply_op, bitvec_post, blit_ok, blit_stop, char_grid_run, cp437_run, spec_execute, window_post,
    ExecutionResult,
};
use crate::commands::{BinaryOperation, ClearCommand, TypedCommand};
use crate::decode::{spec_decode_error, DecodeError};
use crate::TILE_SIZE;
use crate::protocol::{spec_be16, spec_code_from_u16, spec_swap16, HEADER_SIZE};
use vstd::arithmetic::div_mod::{
    lemma_fundamental_div_mod, lemma_mod_bound, lemma_multiply_divide_lt, lemma_small_mod,
};

/// Executing a clear command succeeds and turns every pixel of the
/// display off, whatever the display and brightness grid held before.
pub proof fn lemma_clear_turns_display_off(
    display: Seq<bool>,
    luma: Seq<u8>,
    font: Seq<Seq<bool>>,
    glyphs: Seq<Option<Seq<bool>>>,
)
    ensures
        forall|p: int|
            0 <= p < display.len() ==> !spec_execute(
                TypedCommand::Clear(ClearCommand),
                display,
                luma,
                font,
                glyphs,
            ).0[p],
        spec_execute(TypedCommand::Clear(ClearCommand), display, luma, font, glyphs).2
            == ExecutionResult::Success,
{
}

/// An in-bounds overwrite bit vector of length `n` at flat offset `o`
/// makes pixel `o + i` equal bit `i` for every `i < n`, and changes no
/// other pixel.
pub proof fn lemma_bitvec_overwrite_exact(d: Seq<bool>, o: int, b: Seq<bool>)
    requires
        0 <= o,
        o + b.len() <= d.len(),
    ensures
        forall|i: int|
            0 <= i < b.len() ==> bitvec_post(d, o, b, BinaryOperation::Overwrite, b.len() as int)[o
                + i] == b[i],
        forall|p: int|
            0 <= p < d.len() && !(o <= p < o + b.len()) ==> bitvec_post(
                d,
                o,
                b,
                BinaryOperation::Overwrite,
                b.len() as int,
            )[p] == d[p],
{
}

/// An in-bounds masking bit vector leaves each touched pixel equal to
/// the compositing operation applied to the pixel's previous value and
/// the sent bit, and changes no other pixel.
pub proof fn lemma_bitvec_touched_pixels(d: Seq<bool>, o: int, b: Seq<bool>, op: BinaryOperation)
    requires
        0 <= o,
        o + b.len() <= d.len(),
    ensures
        forall|i: int|
            0 <= i < b.len() ==> bitvec_post(d, o, b, op, b.len() as int)[o + i] == apply_op(
                op,
                d[o + i],
                b[i],
            ),
        forall|p: int|
            0 <= p < d.len() && !(o <= p < o + b.len()) ==> bitvec_post(d, o, b, op, b.len() as int)[p]
                == d[p],
{
}

/// Overwriting with a bit vector and then applying the same vector with
/// exclusive-or turns every touched pixel off and leaves every other
/// pixel as it was — whatever the display held before.
pub proof fn lemma_overwrite_then_xor_clears(d: Seq<bool>, o: int, b: Seq<bool>)
    requires
        0 <= o,
        o + b.len() <= d.len(),
    ensures
        ({
            let d1 = bitvec_post(d, o, b, BinaryOperation::Overwrite, b.len() as int);
            let d2 = bitvec_post(d1, o, b, BinaryOperation::Xor, b.len() as int);
            &&& forall|i: int| 0 <= i < b.len() ==> !#[trigger] d2[o + i]
            &&& forall|p: int| 0 <= p < d.len() && !(o <= p < o + b.len()) ==> d2[p] == d[p]
        }),
{
}

/// A windowed copy whose window lies fully inside the display makes the
/// destination sub-rectangle exactly equal to the source, and leaves
/// every pixel outside the rectangle unchanged.
pub proof fn lemma_blit_inside_bounds(
    d: Seq<bool>,
    dw: int,
    dh: int,
    ox: int,
    oy: int,
    s: Seq<bool>,
    sw: int,
    sh: int,
)
    requires
        d.len() == dw * dh,
        0 < dw,
        0 <= dh,
        0 <= ox,
        0 <= oy,
        0 <= sw,
        0 <= sh,
        s.len() == sw * sh,
        blit_ok(dw, dh, ox, oy, sw, sh),
    ensures
        ({
            let post = window_post(d, dw, ox, oy, s, sw, blit_stop(dw, dh, ox, oy, sw, sh));
            &&& forall|ix: int, iy: int|
                0 <= ix < sw && 0 <= iy < sh ==> post[pixel_index(ox + ix, oy + iy, dw)] == s[
                    pixel_index(ix, iy, sw)]
            &&& forall|p: int|
                0 <= p < d.len() && !(ox <= p % dw < ox + sw && oy <= p / dw < oy + sh) ==> post[p]
                    == d[p]
        }),
{
    let k = blit_stop(dw, dh, ox, oy, sw, sh);
    let post = window_post(d, dw, ox, oy, s, sw, k);
    assert forall|ix: int, iy: int| 0 <= ix < sw && 0 <= iy < sh implies post[pixel_index(
        ox + ix,
        oy + iy,
        dw,
    )] == s[pixel_index(ix, iy, sw)] by {
        lemma_pixel_index_bound(ix, iy, sw, sh);
        lemma_pixel_index_inverse(ix, iy, sw);
        lemma_pixel_index_bound(ox + ix, oy + iy, dw, dh);
        lemma_pixel_index_inverse(ox + ix, oy + iy, dw);
    };
    assert forall|p: int|
        0 <= p < d.len() && !(ox <= p % dw < ox + sw && oy <= p / dw
            < oy + sh) implies post[p] == d[p] by {
        let px = p % dw;
        let py = p / dw;
        if ox <= px < ox + sw && oy <= py {
            let ix = px - ox;
            let iy = py - oy;
            if iy * sw + ix < k {
                assert(iy < sh) by (nonlinear_arith)
                    requires
                        0 <= ix < sw,
                        0 <= iy,
                        iy * sw + ix < sw * sh,
                ;
            }
        }
    };
}

/// A windowed copy that exceeds the display stops at the first
/// out-of-bounds coordinate of its deterministic row-major traversal:
/// the source cells before the stopping point are written and keep
/// their new value, the cells at or after it are not written, and
/// every pixel outside the window is unchanged.
pub proof fn lemma_blit_partial_writes(
    d: Seq<bool>,
    dw: int,
    dh: int,
    ox: int,
    oy: int,
    s: Seq<bool>,
    sw: int,
    sh: int,
)
    requires
        d.len() == dw * dh,
        0 < dw,
        0 <= dh,
        0 <= ox,
        0 <= oy,
        0 < sw,
        0 < sh,
        s.len() == sw * sh,
        !blit_ok(dw, dh, ox, oy, sw, sh),
    ensures
        ({
            let k = blit_stop(dw, dh, ox, oy, sw, sh);
            let post = window_post(d, dw, ox, oy, s, sw, k);
            &&& 0 <= k <= sw * sh
            &&& forall|i: int| 0 <= i < k ==> ox + #[trigger] (i % sw) < dw && oy + i / sw < dh
            &&& forall|i: int|
                0 <= i < k ==> post[pixel_index(ox + i % sw, oy + i / sw, dw)] == s[i]
            &&& forall|i: int|
                k <= i < sw * sh && ox + #[trigger] (i % sw) < dw && oy + i / sw < dh
                    ==> post[pixel_index(
                    ox + i % sw,
                    oy + i / sw,
                    dw,
                )] == d[pixel_index(ox + i % sw, oy + i / sw, dw)]
            &&& forall|p: int|
                0 <= p < d.len() && !(ox <= p % dw < ox + sw && oy <= p / dw < oy + sh) ==> post[p]
                    == d[p]
        }),
{
    let k = blit_stop(dw, dh, ox, oy, sw, sh);
    let post = window_post(d, dw, ox, oy, s, sw, k);
    assert(0 <= k <= sw * sh) by (nonlinear_arith)
        requires
            k == blit_stop(dw, dh, ox, oy, sw, sh),
            !blit_ok(dw, dh, ox, oy, sw, sh),
            0 < sw,
            0 < sh,
            0 <= ox,
            0 <= oy,
            0 < dw,
            0 <= dh,
    ;
    assert forall|i: int| 0 <= i < k implies ox + #[trigger] (i % sw) < dw && oy + i / sw < dh by {
        lemma_mod_bound(i, sw);
        if dh <= oy {
            assert(false);
        } else if dw - ox < sw {
            lemma_small_mod(i as nat, sw as nat);
            assert(i / sw == 0) by (nonlinear_arith)
                requires
                    0 <= i < sw,
                    0 < sw,
            ;
        } else {
            lemma_multiply_divide_lt(i, sw, dh - oy);
            assert(i < sw * (dh - oy)) by (nonlinear_arith)
                requires
                    i < (dh - oy) * sw,
            ;
        }
    };
    assert forall|i: int| 0 <= i < k implies post[pixel_index(ox + i % sw, oy + i / sw, dw)]
        == s[i] by {
        lemma_mod_bound(i, sw);
        lemma_fundamental_div_mod(i, sw);
        vstd::arithmetic::div_mod::lemma_div_pos_is_pos(i, sw);
        assert(ox + i % sw < dw && oy + i / sw < dh);
        lemma_pixel_index_bound(ox + i % sw, oy + i / sw, dw, dh);
        lemma_pixel_index_inverse(ox + i % sw, oy + i / sw, dw);
        assert((i / sw) * sw + i % sw == i) by (nonlinear_arith)
            requires
                i == sw * (i / sw) + i % sw,
        ;
    };
    assert forall|i: int|
        k <= i < sw * sh && ox + #[trigger] (i % sw) < dw && oy + i / sw
            < dh implies post[pixel_index(
        ox + i % sw,
        oy + i / sw,
        dw,
    )] == d[pixel_index(ox + i % sw, oy + i / sw, dw)] by {
        lemma_mod_bound(i, sw);
        lemma_fundamental_div_mod(i, sw);
        vstd::arithmetic::div_mod::lemma_div_pos_is_pos(i, sw);
        lemma_pixel_index_bound(ox + i % sw, oy + i / sw, dw, dh);
        lemma_pixel_index_inverse(ox + i % sw, oy + i / sw, dw);
        assert((i / sw) * sw + i % sw == i) by (nonlinear_arith)
            requires
                i == sw * (i / sw) + i % sw,
        ;
    };
    assert forall|p: int|
        0 <= p < d.len() && !(ox <= p % dw < ox + sw && oy <= p / dw
            < oy + sh) implies post[p] == d[p] by {
        let px = p % dw;
        let py = p / dw;
        if ox <= px < ox + sw && oy <= py {
            let ix = px - ox;
            let iy = py - oy;
            if iy * sw + ix < k {
                assert(iy < sh) by (nonlinear_arith)
                    requires
                        0 <= ix < sw,
                        0 <= iy,
                        iy * sw + ix < k,
                        k <= sw * sh,
                ;
            }
        }
    };
}

/// The decode errors of the header layer: a buffer shorter than the
/// header is too small; a known command code sent in the wrong byte
/// order is reported as such, naming the code; a code unknown either
/// way is an unknown command.
pub proof fn lemma_decode_header_errors(bytes: Seq<u8>)
    ensures
        bytes.len() < HEADER_SIZE ==> spec_decode_error(bytes) == Some(DecodeError::PacketTooSmall),
        bytes.len() >= HEADER_SIZE ==> ({
            let code = spec_be16(bytes[0], bytes[1]);
            &&& spec_code_from_u16(code) is None ==> (spec_code_from_u16(spec_swap16(code))
                matches Some(c) ==> spec_decode_error(bytes) == Some(
                DecodeError::WrongEndianness(code, c),
            ))
            &&& spec_code_from_u16(code) is None && spec_code_from_u16(spec_swap16(code)) is None
                ==> spec_decode_error(bytes) == Some(DecodeError::UnknownCommandCode(code))
        }),
{
}


/// Whether the glyph window of row-major cell `i` of a tile grid placed
/// at tile origin `(x, y)` lies fully inside a `dw` by `dh` display.
pub open spec fn tile_cell_ok(dw: int, dh: int, x: int, y: int, gw: int, i: int) -> bool {
    blit_ok(
        dw,
        dh,
        (x + i % gw) * (TILE_SIZE as int),
        (y + i / gw) * (TILE_SIZE as int),
        TILE_SIZE as int,
        TILE_SIZE as int,
    )
}

/// A CP437 run never asks for a shutdown, and succeeds exactly when
/// every cell it covers fits the display.
pub proof fn lemma_cp437_run_outcome(
    d: Seq<bool>,
    dw: int,
    dh: int,
    font: Seq<Seq<bool>>,
    codes: Seq<u8>,
    gw: int,
    x: int,
    y: int,
    n: int,
)
    requires
        0 < gw,
    ensures
        cp437_run(d, dw, dh, font, codes, gw, x, y, n).1 != ExecutionResult::Shutdown,
        cp437_run(d, dw, dh, font, codes, gw, x, y, n).1 == ExecutionResult::Success <==> (forall|
            i: int,
        |
            0 <= i < n ==> tile_cell_ok(dw, dh, x, y, gw, i)),
    decreases n,
{
    let ts = TILE_SIZE as int;
    if n > 0 {
        lemma_cp437_run_outcome(d, dw, dh, font, codes, gw, x, y, n - 1);
        let prev = cp437_run(d, dw, dh, font, codes, gw, x, y, n - 1);
        if prev.1 == ExecutionResult::Success {
            if blit_ok(dw, dh, (x + (n - 1) % gw) * ts, (y + (n - 1) / gw) * ts, ts, ts) {
                assert(tile_cell_ok(dw, dh, x, y, gw, n - 1));
                assert forall|i: int| 0 <= i < n implies tile_cell_ok(dw, dh, x, y, gw, i) by {}
            } else {
                assert(!tile_cell_ok(dw, dh, x, y, gw, n - 1));
            }
        } else {
            if forall|i: int| 0 <= i < n ==> tile_cell_ok(dw, dh, x, y, gw, i) {
                assert(forall|i: int| 0 <= i < n - 1 ==> tile_cell_ok(dw, dh, x, y, gw, i));
                assert(false);
            }
        }
    }
}

/// A CP437 grid command succeeds exactly when the whole grid of glyph
/// tiles fits the display: an empty grid always succeeds, and a
/// non-empty one succeeds exactly when its bottom-right tile does. It
/// never asks for a shutdown.
pub proof fn lemma_cp437_grid_success_criterion(
    d: Seq<bool>,
    dw: int,
    dh: int,
    font: Seq<Seq<bool>>,
    codes: Seq<u8>,
    gw: int,
    gh: int,
    x: int,
    y: int,
)
    requires
        0 <= gw,
        0 <= gh,
        0 <= x,
        0 <= y,
    ensures
        cp437_run(d, dw, dh, font, codes, gw, x, y, gw * gh).1 != ExecutionResult::Shutdown,
        cp437_run(d, dw, dh, font, codes, gw, x, y, gw * gh).1 == ExecutionResult::Success <==> (gw
            == 0 || gh == 0 || ((x + gw) * (TILE_SIZE as int) <= dw && (y + gh) * (TILE_SIZE as int)
            <= dh)),
{
    if gw == 0 || gh == 0 {
        assert(gw * gh == 0) by (nonlinear_arith)
            requires
                gw == 0 || gh == 0,
        ;
    } else {
        let n = gw * gh;
        assert(0 < n) by (nonlinear_arith)
            requires
                0 < gw,
                0 < gh,
                n == gw * gh,
        ;
        lemma_cp437_run_outcome(d, dw, dh, font, codes, gw, x, y, n);
        if (x + gw) * (TILE_SIZE as int) <= dw && (y + gh) * (TILE_SIZE as int) <= dh {
            assert forall|i: int| 0 <= i < n implies tile_cell_ok(dw, dh, x, y, gw, i) by {
                lemma_mod_bound(i, gw);
                lemma_multiply_divide_lt(i, gw, gh);
                assert(i < gw * gh);
            };
        } else {
            assert((gh - 1) * gw + (gw - 1) == n - 1) by (nonlinear_arith)
                requires
                    n == gw * gh,
            ;
            lemma_pixel_index_inverse(gw - 1, gh - 1, gw);
            assert(!tile_cell_ok(dw, dh, x, y, gw, n - 1));
        }
    }
}

/// A character grid run never asks for a shutdown, and succeeds exactly
/// when every cell it covers has a rendered glyph and fits the display.
pub proof fn lemma_char_grid_run_outcome(
    d: Seq<bool>,
    dw: int,
    dh: int,
    glyphs: Seq<Option<Seq<bool>>>,
    gw: int,
    x: int,
    y: int,
    n: int,
)
    requires
        0 < gw,
    ensures
        char_grid_run(d, dw, dh, glyphs, gw, x, y, n).1 != ExecutionResult::Shutdown,
        char_grid_run(d, dw, dh, glyphs, gw, x, y, n).1 == ExecutionResult::Success <==> (forall|
            i: int,
        |
            0 <= i < n ==> (#[trigger] glyphs[i]) is Some && tile_cell_ok(dw, dh, x, y, gw, i)),
    decreases n,
{
    if n > 0 {
        lemma_char_grid_run_outcome(d, dw, dh, glyphs, gw, x, y, n - 1);
    }
}

} // verus!

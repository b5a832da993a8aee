//! The command execution engine: one handler per command variant, each
//! a mutation of the framebuffer model with an exact contract.

use vstd::prelude::*;

verus! {

use crate::bitmap::{
    lemma_flat_index_coords, lemma_pixel_index_bound, lemma_pixel_index_inverse, pixel_index,
    Bitmap,
};
use crate::brightness_grid::BrightnessGrid;
use crate::commands::{
    BinaryOperation, BitVecCommand, BitmapCommand, BitmapLegacyCommand, BrightnessGridCommand,
    CharGridCommand, ClearCommand, Cp437GridCommand, FadeOutCommand, GlobalBrightnessCommand,
    HardResetCommand, TypedCommand,
};
use crate::cp437_font::Cp437Font;
use crate::{PIXEL_COUNT, PIXEL_HEIGHT, PIXEL_WIDTH, TILE_HEIGHT, TILE_SIZE, TILE_WIDTH};
use vstd::arithmetic::div_mod::lemma_fundamental_div_mod;

/// What executing one command came to: applied, refused, or the session
/// must end.
#[must_use]
#[derive(Debug, Clone, Copy, PartialEq, Eq, Structural)]
pub enum ExecutionResult {
    Success,
    Failure,
    Shutdown,
}

/// The state a command executes against: the pixel bitmap, the per-tile
/// brightness grid, and the built-in CP437 font.
pub struct CommandExecutionContext {
    pub display: Bitmap,
    pub luma: BrightnessGrid,
    pub cp437_font: Cp437Font,
}

impl CommandExecutionContext {
    /// The display has its fixed dimensions, the brightness grid covers
    /// exactly its tiles, and the font holds a full tile per character.
    pub open spec fn wf(&self) -> bool {
        &&& self.display.wf()
        &&& self.display.width == PIXEL_WIDTH
        &&& self.display.height == PIXEL_HEIGHT
        &&& self.luma.wf()
        &&& self.luma.width == TILE_WIDTH
        &&& self.luma.height == TILE_HEIGHT
        &&& self.cp437_font.wf()
    }

    pub fn new(display: Bitmap, luma: BrightnessGrid) -> (r: CommandExecutionContext)
        requires
            display.wf(),
            display.width == PIXEL_WIDTH,
            display.height == PIXEL_HEIGHT,
            luma.wf(),
            luma.width == TILE_WIDTH,
            luma.height == TILE_HEIGHT,
        ensures
            r.wf(),
            r.display@ == display@,
            r.luma@ == luma@,
    {
        CommandExecutionContext { display, luma, cp437_font: Cp437Font::default() }
    }
}

/// Whether a `sw` by `sh` window placed at `(ox, oy)` lies fully inside
/// a `dw` by `dh` destination. An empty window always fits: its copy
/// touches nothing.
pub open spec fn blit_ok(dw: int, dh: int, ox: int, oy: int, sw: int, sh: int) -> bool {
    sw == 0 || sh == 0 || (ox + sw <= dw && oy + sh <= dh)
}

/// How many source cells a windowed copy writes before it stops: all of
/// them when the window fits, otherwise the number of row-major steps up
/// to the first out-of-bounds coordinate.
pub open spec fn blit_stop(dw: int, dh: int, ox: int, oy: int, sw: int, sh: int) -> int {
    if blit_ok(dw, dh, ox, oy, sw, sh) {
        sw * sh
    } else if dh <= oy {
        0
    } else if dw - ox < sw {
        if dw <= ox {
            0
        } else {
            dw - ox
        }
    } else {
        (dh - oy) * sw
    }
}

/// The value at flat index `p` after the first `k` cells (in row-major
/// window order) of source `s` were copied to the window at `(ox, oy)`:
/// the source value where `p` lies under a copied cell, the old value
/// everywhere else.
pub open spec fn window_cell<T>(
    d: Seq<T>,
    dw: int,
    ox: int,
    oy: int,
    s: Seq<T>,
    sw: int,
    k: int,
    p: int,
) -> T {
    let px = p % dw;
    let py = p / dw;
    if ox <= px < ox + sw && oy <= py && (py - oy) * sw + (px - ox) < k {
        s[(py - oy) * sw + (px - ox)]
    } else {
        d[p]
    }
}

/// The whole destination after the first `k` cells of a windowed copy.
pub open spec fn window_post<T>(
    d: Seq<T>,
    dw: int,
    ox: int,
    oy: int,
    s: Seq<T>,
    sw: int,
    k: int,
) -> Seq<T> {
    Seq::new(d.len(), |p: int| window_cell(d, dw, ox, oy, s, sw, k, p))
}

/// Copying one more cell of the window changes exactly the destination
/// index under that cell.
pub proof fn lemma_window_post_step<T>(
    d: Seq<T>,
    dw: int,
    dh: int,
    ox: int,
    oy: int,
    s: Seq<T>,
    sw: int,
    ix: int,
    iy: int,
)
    requires
        d.len() == dw * dh,
        0 < dw,
        0 < dh,
        0 <= ox,
        0 <= oy,
        0 <= ix < sw,
        0 <= iy,
        iy * sw + ix < s.len(),
        ox + ix < dw,
        oy + iy < dh,
    ensures
        window_post(d, dw, ox, oy, s, sw, iy * sw + ix + 1) == window_post(
            d,
            dw,
            ox,
            oy,
            s,
            sw,
            iy * sw + ix,
        ).update(pixel_index(ox + ix, oy + iy, dw), s[iy * sw + ix]),
{
    let n = iy * sw + ix;
    let t = pixel_index(ox + ix, oy + iy, dw);
    lemma_pixel_index_bound(ox + ix, oy + iy, dw, dh);
    lemma_pixel_index_inverse(ox + ix, oy + iy, dw);
    let lhs = window_post(d, dw, ox, oy, s, sw, n + 1);
    let rhs = window_post(d, dw, ox, oy, s, sw, n).update(t, s[n]);
    assert forall|p: int| 0 <= p < d.len() implies lhs[p] == rhs[p] by {
        let px = p % dw;
        let py = p / dw;
        lemma_fundamental_div_mod(p, dw);
        if p == t {
            assert(px == ox + ix && py == oy + iy);
            assert((py - oy) * sw + (px - ox) == n);
            assert(lhs[p] == s[n]);
        } else {
            if ox <= px < ox + sw && oy <= py && (py - oy) * sw + (px - ox) == n {
                lemma_pixel_index_inverse(px - ox, py - oy, sw);
                lemma_pixel_index_inverse(ix, iy, sw);
                assert(px - ox == n % sw && py - oy == n / sw);
                assert(ix == n % sw && iy == n / sw);
                assert(p == py * dw + px);
                assert(false);
            }
        }
    };
    assert(lhs =~= rhs);
}

/// Copies a pixel grid into the display at a pixel offset, row by row.
/// Each destination coordinate is checked individually: the first
/// coordinate outside the display stops the copy, and what was already
/// written stays. Returns `Success` exactly when the whole window fits.
#[verifier::loop_isolation(false)]
pub fn print_pixel_grid(
    display: &mut Bitmap,
    offset_x: usize,
    offset_y: usize,
    pixels: &Bitmap,
) -> (r: ExecutionResult)
    requires
        old(display).wf(),
        pixels.wf(),
        offset_x + pixels.width <= usize::MAX,
        offset_y + pixels.height <= usize::MAX,
    ensures
        final(display).wf(),
        final(display).width == old(display).width,
        final(display).height == old(display).height,
        r == (if blit_ok(
            old(display).width as int,
            old(display).height as int,
            offset_x as int,
            offset_y as int,
            pixels.width as int,
            pixels.height as int,
        ) {
            ExecutionResult::Success
        } else {
            ExecutionResult::Failure
        }),
        final(display)@ == window_post(
            old(display)@,
            old(display).width as int,
            offset_x as int,
            offset_y as int,
            pixels@,
            pixels.width as int,
            blit_stop(
                old(display).width as int,
                old(display).height as int,
                offset_x as int,
                offset_y as int,
                pixels.width as int,
                pixels.height as int,
            ),
        ),
{
    let sw = pixels.width();
    let sh = pixels.height();
    let dw = display.width();
    let dh = display.height();
    let ghost d0 = display@;
    let mut inner_y: usize = 0;
    while inner_y < sh
        invariant
            inner_y <= sh,
            display.wf(),
            display.width == dw,
            display.height == dh,
            display@ == window_post(
                d0,
                dw as int,
                offset_x as int,
                offset_y as int,
                pixels@,
                sw as int,
                inner_y as int * sw as int,
            ),
            inner_y > 0 ==> (sw == 0 || (offset_x + sw <= dw && offset_y + inner_y <= dh)),
        decreases sh - inner_y,
    {
        let mut inner_x: usize = 0;
        while inner_x < sw
            invariant
                inner_x <= sw,
                inner_y < sh,
                display.wf(),
                display.width == dw,
                display.height == dh,
                display@ == window_post(
                    d0,
                    dw as int,
                    offset_x as int,
                    offset_y as int,
                    pixels@,
                    sw as int,
                    inner_y as int * sw as int + inner_x as int,
                ),
                inner_x > 0 ==> (offset_x + inner_x <= dw && offset_y + inner_y < dh),
                inner_y > 0 ==> (sw == 0 || (offset_x + sw <= dw && offset_y + inner_y <= dh)),
            decreases sw - inner_x,
        {
            let is_set = pixels.get(inner_x, inner_y);
            let x = offset_x + inner_x;
            let y = offset_y + inner_y;

            if x >= dw || y >= dh {
                proof {
                    assert(!blit_ok(
                        dw as int,
                        dh as int,
                        offset_x as int,
                        offset_y as int,
                        sw as int,
                        sh as int,
                    ));
                    assert(inner_y as int * sw as int + inner_x as int == blit_stop(
                        dw as int,
                        dh as int,
                        offset_x as int,
                        offset_y as int,
                        sw as int,
                        sh as int,
                    ));
                }
                return ExecutionResult::Failure;
            }

            proof {
                lemma_pixel_index_bound(inner_x as int, inner_y as int, sw as int, sh as int);
                lemma_window_post_step(
                    d0,
                    dw as int,
                    dh as int,
                    offset_x as int,
                    offset_y as int,
                    pixels@,
                    sw as int,
                    inner_x as int,
                    inner_y as int,
                );
            }
            display.set(x, y, is_set);
            inner_x = inner_x + 1;
        }
        proof {
            assert((inner_y as int + 1) * sw as int == inner_y as int * sw as int + sw as int)
                by (nonlinear_arith);
        }
        inner_y = inner_y + 1;
    }
    proof {
        assert(blit_ok(
            dw as int,
            dh as int,
            offset_x as int,
            offset_y as int,
            sw as int,
            sh as int,
        ));
        assert(sh as int * sw as int == sw as int * sh as int) by (nonlinear_arith);
    }
    ExecutionResult::Success
}

impl ClearCommand {
    /// Turns every pixel of the display off; the brightness grid is
    /// untouched.
    pub fn execute(&self, context: &mut CommandExecutionContext) -> (r: ExecutionResult)
        requires
            old(context).wf(),
        ensures
            final(context).wf(),
            final(context).display@ == Seq::new(old(context).display@.len(), |i: int| false),
            final(context).luma == old(context).luma,
            final(context).cp437_font == old(context).cp437_font,
            r == ExecutionResult::Success,
    {
        context.display.fill(false);
        ExecutionResult::Success
    }
}

impl HardResetCommand {
    /// Asks the session to shut down; no state changes.
    pub fn execute(&self, context: &mut CommandExecutionContext) -> (r: ExecutionResult)
        requires
            old(context).wf(),
        ensures
            *final(context) == *old(context),
            r == ExecutionResult::Shutdown,
    {
        ExecutionResult::Shutdown
    }
}

impl FadeOutCommand {
    /// The fade is not implemented: an explicit no-op that still counts
    /// as applied, so a benign unsupported command never fails a
    /// session.
    pub fn execute(&self, context: &mut CommandExecutionContext) -> (r: ExecutionResult)
        requires
            old(context).wf(),
        ensures
            *final(context) == *old(context),
            r == ExecutionResult::Success,
    {
        ExecutionResult::Success
    }
}

impl BitmapLegacyCommand {
    /// A deprecated command the simulator refuses; no state changes.
    pub fn execute(&self, context: &mut CommandExecutionContext) -> (r: ExecutionResult)
        requires
            old(context).wf(),
        ensures
            *final(context) == *old(context),
            r == ExecutionResult::Failure,
    {
        ExecutionResult::Failure
    }
}

impl GlobalBrightnessCommand {
    /// Sets every tile of the brightness grid to the carried value.
    pub fn execute(&self, context: &mut CommandExecutionContext) -> (r: ExecutionResult)
        requires
            old(context).wf(),
            self.wf(),
        ensures
            final(context).wf(),
            final(context).luma@ == Seq::new(
                old(context).luma@.len(),
                |i: int| self.brightness,
            ),
            final(context).display == old(context).display,
            final(context).cp437_font == old(context).cp437_font,
            r == ExecutionResult::Success,
    {
        context.luma.fill(self.brightness);
        ExecutionResult::Success
    }
}

impl BitmapCommand {
    /// Overwrite-copies the carried bitmap into the display at the
    /// pixel-space origin, row-major. The first out-of-bounds
    /// destination coordinate aborts the copy with `Failure`; pixels
    /// written before it keep their new value.
    pub fn execute(&self, context: &mut CommandExecutionContext) -> (r: ExecutionResult)
        requires
            old(context).wf(),
            self.wf(),
        ensures
            final(context).wf(),
            final(context).luma == old(context).luma,
            final(context).cp437_font == old(context).cp437_font,
            r == (if blit_ok(
                PIXEL_WIDTH as int,
                PIXEL_HEIGHT as int,
                self.origin.x as int,
                self.origin.y as int,
                self.bitmap.width as int,
                self.bitmap.height as int,
            ) {
                ExecutionResult::Success
            } else {
                ExecutionResult::Failure
            }),
            final(context).display@ == window_post(
                old(context).display@,
                PIXEL_WIDTH as int,
                self.origin.x as int,
                self.origin.y as int,
                self.bitmap@,
                self.bitmap.width as int,
                blit_stop(
                    PIXEL_WIDTH as int,
                    PIXEL_HEIGHT as int,
                    self.origin.x as int,
                    self.origin.y as int,
                    self.bitmap.width as int,
                    self.bitmap.height as int,
                ),
            ),
    {
        print_pixel_grid(&mut context.display, self.origin.x, self.origin.y, &self.bitmap)
    }
}


/// The new value of a pixel after a compositing operation combines the
/// pixel's old value with the sent bit.
pub open spec fn apply_op(op: BinaryOperation, old_value: bool, new_value: bool) -> bool {
    match op {
        BinaryOperation::Overwrite => new_value,
        BinaryOperation::And => old_value && new_value,
        BinaryOperation::Or => old_value || new_value,
        BinaryOperation::Xor => old_value != new_value,
    }
}

/// The display after the first `k` bits of a linear bit vector were
/// applied at flat offset `o`: pixel `o + i` combines its old value
/// with bit `i`, every other pixel keeps its value.
pub open spec fn bitvec_post(
    d: Seq<bool>,
    o: int,
    b: Seq<bool>,
    op: BinaryOperation,
    k: int,
) -> Seq<bool> {
    Seq::new(
        d.len(),
        |p: int|
            if o <= p < o + k {
                apply_op(op, d[p], b[p - o])
            } else {
                d[p]
            },
    )
}

/// Applying one more bit changes exactly the pixel at its flat index.
pub proof fn lemma_bitvec_post_step(d: Seq<bool>, o: int, b: Seq<bool>, op: BinaryOperation, k: int)
    requires
        0 <= o,
        0 <= k < b.len(),
        o + k < d.len(),
    ensures
        bitvec_post(d, o, b, op, k + 1) == bitvec_post(d, o, b, op, k).update(
            o + k,
            apply_op(op, d[o + k], b[k]),
        ),
{
    let lhs = bitvec_post(d, o, b, op, k + 1);
    let rhs = bitvec_post(d, o, b, op, k).update(o + k, apply_op(op, d[o + k], b[k]));
    assert forall|p: int| 0 <= p < d.len() implies lhs[p] == rhs[p] by {}
    assert(lhs =~= rhs);
}

/// One compositing step, as [`apply_op`] defines it.
fn apply_op_exec(op: BinaryOperation, old_value: bool, new_value: bool) -> (r: bool)
    ensures
        r == apply_op(op, old_value, new_value),
{
    match op {
        BinaryOperation::Overwrite => new_value,
        BinaryOperation::And => old_value && new_value,
        BinaryOperation::Or => old_value || new_value,
        BinaryOperation::Xor => old_value != new_value,
    }
}

impl BitVecCommand {
    /// Applies the bit vector to the display's pixels in flat row-major
    /// order starting at the carried offset. A vector that would run
    /// past the last pixel is refused whole: `Failure` and no change.
    /// Otherwise pixel `offset + i` becomes the operation applied to
    /// its old value and bit `i`, and no other pixel changes.
    #[verifier::loop_isolation(false)]
    pub fn execute(&self, context: &mut CommandExecutionContext) -> (r: ExecutionResult)
        requires
            old(context).wf(),
            self.wf(),
        ensures
            final(context).wf(),
            final(context).luma == old(context).luma,
            final(context).cp437_font == old(context).cp437_font,
            self.offset + self.bitvec@.len() <= PIXEL_COUNT ==> r == ExecutionResult::Success
                && final(context).display@ == bitvec_post(
                old(context).display@,
                self.offset as int,
                self.bitvec@,
                self.operation,
                self.bitvec@.len() as int,
            ),
            self.offset + self.bitvec@.len() > PIXEL_COUNT ==> r == ExecutionResult::Failure
                && final(context).display == old(context).display,
    {
        if self.offset + self.bitvec.len() > PIXEL_COUNT {
            return ExecutionResult::Failure;
        }
        let ghost d0 = context.display@;
        let n = self.bitvec.len();
        let mut i: usize = 0;
        while i < n
            invariant
                i <= n,
                context.display.wf(),
                context.display.width == PIXEL_WIDTH,
                context.display.height == PIXEL_HEIGHT,
                context.luma == old(context).luma,
                context.cp437_font == old(context).cp437_font,
                context.display@ == bitvec_post(
                    d0,
                    self.offset as int,
                    self.bitvec@,
                    self.operation,
                    i as int,
                ),
            decreases n - i,
        {
            let pixel = self.offset + i;
            proof {
                lemma_flat_index_coords(pixel as int, PIXEL_WIDTH as int, PIXEL_HEIGHT as int);
            }
            let x = pixel % PIXEL_WIDTH;
            let y = pixel / PIXEL_WIDTH;
            let old_value = context.display.get(x, y);
            let new_value = apply_op_exec(self.operation, old_value, self.bitvec[i]);
            proof {
                lemma_bitvec_post_step(d0, self.offset as int, self.bitvec@, self.operation, i as int);
            }
            context.display.set(x, y, new_value);
            i = i + 1;
        }
        ExecutionResult::Success
    }
}

impl BrightnessGridCommand {
    /// Copies the carried brightness values into the tile grid at the
    /// tile-space origin. The wire protocol defines no size check for
    /// this command; rather than trust the sender and write out of
    /// range, a window that does not fit the tile grid is refused whole:
    /// `Failure` and no change.
    #[verifier::loop_isolation(false)]
    pub fn execute(&self, context: &mut CommandExecutionContext) -> (r: ExecutionResult)
        requires
            old(context).wf(),
            self.wf(),
        ensures
            final(context).wf(),
            final(context).display == old(context).display,
            final(context).cp437_font == old(context).cp437_font,
            r == (if blit_ok(
                TILE_WIDTH as int,
                TILE_HEIGHT as int,
                self.origin.x as int,
                self.origin.y as int,
                self.grid.width as int,
                self.grid.height as int,
            ) {
                ExecutionResult::Success
            } else {
                ExecutionResult::Failure
            }),
            blit_ok(
                TILE_WIDTH as int,
                TILE_HEIGHT as int,
                self.origin.x as int,
                self.origin.y as int,
                self.grid.width as int,
                self.grid.height as int,
            ) ==> final(context).luma@ == window_post(
                old(context).luma@,
                TILE_WIDTH as int,
                self.origin.x as int,
                self.origin.y as int,
                self.grid@,
                self.grid.width as int,
                self.grid.width as int * self.grid.height as int,
            ),
            !blit_ok(
                TILE_WIDTH as int,
                TILE_HEIGHT as int,
                self.origin.x as int,
                self.origin.y as int,
                self.grid.width as int,
                self.grid.height as int,
            ) ==> final(context).luma == old(context).luma,
    {
        let gw = self.grid.width();
        let gh = self.grid.height();
        let ox = self.origin.x;
        let oy = self.origin.y;
        if gw > 0 && gh > 0 && (ox + gw > TILE_WIDTH || oy + gh > TILE_HEIGHT) {
            return ExecutionResult::Failure;
        }
        let ghost l0 = context.luma@;
        let mut inner_y: usize = 0;
        while inner_y < gh
            invariant
                inner_y <= gh,
                context.luma.wf(),
                context.luma.width == TILE_WIDTH,
                context.luma.height == TILE_HEIGHT,
                context.display == old(context).display,
                context.cp437_font == old(context).cp437_font,
                context.luma@ == window_post(
                    l0,
                    TILE_WIDTH as int,
                    ox as int,
                    oy as int,
                    self.grid@,
                    gw as int,
                    inner_y as int * gw as int,
                ),
            decreases gh - inner_y,
        {
            let mut inner_x: usize = 0;
            while inner_x < gw
                invariant
                    inner_x <= gw,
                    inner_y < gh,
                    context.luma.wf(),
                    context.luma.width == TILE_WIDTH,
                    context.luma.height == TILE_HEIGHT,
                    context.display == old(context).display,
                    context.cp437_font == old(context).cp437_font,
                    context.luma@ == window_post(
                        l0,
                        TILE_WIDTH as int,
                        ox as int,
                        oy as int,
                        self.grid@,
                        gw as int,
                        inner_y as int * gw as int + inner_x as int,
                    ),
                decreases gw - inner_x,
            {
                let brightness = self.grid.get(inner_x, inner_y);
                proof {
                    lemma_pixel_index_bound(inner_x as int, inner_y as int, gw as int, gh as int);
                    lemma_window_post_step(
                        l0,
                        TILE_WIDTH as int,
                        TILE_HEIGHT as int,
                        ox as int,
                        oy as int,
                        self.grid@,
                        gw as int,
                        inner_x as int,
                        inner_y as int,
                    );
                }
                context.luma.set(ox + inner_x, oy + inner_y, brightness);
                inner_x = inner_x + 1;
            }
            proof {
                assert((inner_y as int + 1) * gw as int == inner_y as int * gw as int + gw as int)
                    by (nonlinear_arith);
            }
            inner_y = inner_y + 1;
        }
        proof {
            assert(gh as int * gw as int == gw as int * gh as int) by (nonlinear_arith);
        }
        ExecutionResult::Success
    }
}


/// The display and outcome after the first `n` cells of a CP437 grid
/// command were drawn, row-major: each cell blits the glyph of its
/// character code as a windowed copy at the cell's pixel position, and
/// the first cell whose window does not fit stops the run with
/// `Failure`, keeping what that cell wrote before its first
/// out-of-bounds coordinate.
pub open spec fn cp437_run(
    d: Seq<bool>,
    dw: int,
    dh: int,
    font: Seq<Seq<bool>>,
    codes: Seq<u8>,
    gw: int,
    x: int,
    y: int,
    n: int,
) -> (Seq<bool>, ExecutionResult)
    decreases n,
{
    if n <= 0 {
        (d, ExecutionResult::Success)
    } else {
        let prev = cp437_run(d, dw, dh, font, codes, gw, x, y, n - 1);
        if !(prev.1 == ExecutionResult::Success) {
            prev
        } else {
            let cx = (n - 1) % gw;
            let cy = (n - 1) / gw;
            let ox = (x + cx) * (TILE_SIZE as int);
            let oy = (y + cy) * (TILE_SIZE as int);
            let tile = font[codes[n - 1] as int];
            let ts = TILE_SIZE as int;
            let post = window_post(prev.0, dw, ox, oy, tile, ts, blit_stop(dw, dh, ox, oy, ts, ts));
            if blit_ok(dw, dh, ox, oy, ts, ts) {
                (post, ExecutionResult::Success)
            } else {
                (post, ExecutionResult::Failure)
            }
        }
    }
}

/// Once a CP437 run has stopped, the remaining cells change nothing.
pub proof fn lemma_cp437_run_absorbing(
    d: Seq<bool>,
    dw: int,
    dh: int,
    font: Seq<Seq<bool>>,
    codes: Seq<u8>,
    gw: int,
    x: int,
    y: int,
    n: int,
    m: int,
)
    requires
        0 <= n <= m,
        cp437_run(d, dw, dh, font, codes, gw, x, y, n).1 != ExecutionResult::Success,
    ensures
        cp437_run(d, dw, dh, font, codes, gw, x, y, m) == cp437_run(
            d,
            dw,
            dh,
            font,
            codes,
            gw,
            x,
            y,
            n,
        ),
    decreases m - n,
{
    if m > n {
        lemma_cp437_run_absorbing(d, dw, dh, font, codes, gw, x, y, n, m - 1);
    }
}

impl Cp437GridCommand {
    /// Draws the grid's CP437 characters with the built-in font, one
    /// 8 by 8 glyph per cell, each blitted at its cell's tile position
    /// relative to the tile-space origin. A cell whose glyph does not
    /// fit the display aborts the rest of the grid with `Failure`;
    /// everything drawn up to that point stays.
    #[verifier::loop_isolation(false)]
    pub fn execute(&self, context: &mut CommandExecutionContext) -> (r: ExecutionResult)
        requires
            old(context).wf(),
            self.wf(),
        ensures
            final(context).wf(),
            final(context).luma == old(context).luma,
            final(context).cp437_font == old(context).cp437_font,
            ({
                let run = cp437_run(
                    old(context).display@,
                    PIXEL_WIDTH as int,
                    PIXEL_HEIGHT as int,
                    old(context).cp437_font.tile_views(),
                    self.grid@,
                    self.grid.width as int,
                    self.origin.x as int,
                    self.origin.y as int,
                    self.grid.width as int * self.grid.height as int,
                );
                final(context).display@ == run.0 && r == run.1
            }),
    {
        let gw = self.grid.width();
        let gh = self.grid.height();
        let ghost d0 = context.display@;
        let ghost font = context.cp437_font.tile_views();
        let ghost total = gw as int * gh as int;
        proof {
            lemma_operand_nonneg(gw as int, gh as int);
        }
        let mut char_y: usize = 0;
        let mut idx: usize = 0;
        while char_y < gh
            invariant
                char_y <= gh,
                idx == char_y as int * gw as int,
                idx as int <= total,
                context.display.wf(),
                context.display.width == PIXEL_WIDTH,
                context.display.height == PIXEL_HEIGHT,
                context.luma == old(context).luma,
                context.cp437_font == old(context).cp437_font,
                cp437_run(
                    d0,
                    PIXEL_WIDTH as int,
                    PIXEL_HEIGHT as int,
                    font,
                    self.grid@,
                    gw as int,
                    self.origin.x as int,
                    self.origin.y as int,
                    idx as int,
                ) == (context.display@, ExecutionResult::Success),
            decreases gh - char_y,
        {
            let mut char_x: usize = 0;
            while char_x < gw
                invariant
                    char_x <= gw,
                    char_y < gh,
                    idx == char_y as int * gw as int + char_x as int,
                    idx as int <= total,
                    context.display.wf(),
                    context.display.width == PIXEL_WIDTH,
                    context.display.height == PIXEL_HEIGHT,
                    context.luma == old(context).luma,
                    context.cp437_font == old(context).cp437_font,
                    cp437_run(
                        d0,
                        PIXEL_WIDTH as int,
                        PIXEL_HEIGHT as int,
                        font,
                        self.grid@,
                        gw as int,
                        self.origin.x as int,
                        self.origin.y as int,
                        idx as int,
                    ) == (context.display@, ExecutionResult::Success),
                decreases gw - char_x,
            {
                let char_code = self.grid.get(char_x, char_y);
                let tile_x = char_x + self.origin.x;
                let tile_y = char_y + self.origin.y;
                proof {
                    lemma_pixel_index_bound(char_x as int, char_y as int, gw as int, gh as int);
                    lemma_pixel_index_inverse(char_x as int, char_y as int, gw as int);
                }
                let glyph = context.cp437_font.index(char_code);
                let res = print_pixel_grid(
                    &mut context.display,
                    tile_x * TILE_SIZE,
                    tile_y * TILE_SIZE,
                    glyph,
                );
                match res {
                    ExecutionResult::Success => {},
                    ExecutionResult::Failure => {
                        proof {
                            lemma_cp437_run_absorbing(
                                d0,
                                PIXEL_WIDTH as int,
                                PIXEL_HEIGHT as int,
                                font,
                                self.grid@,
                                gw as int,
                                self.origin.x as int,
                                self.origin.y as int,
                                idx as int + 1,
                                total,
                            );
                        }
                        return ExecutionResult::Failure;
                    },
                    ExecutionResult::Shutdown => {
                        return ExecutionResult::Shutdown;
                    },
                }
                idx = idx + 1;
                char_x = char_x + 1;
            }
            proof {
                assert((char_y as int + 1) * gw as int == char_y as int * gw as int + gw as int)
                    by (nonlinear_arith);
                lemma_row_progress_bound(char_y as int + 1, gw as int, gh as int);
            }
            char_y = char_y + 1;
        }
        proof {
            assert(gh as int * gw as int == gw as int * gh as int) by (nonlinear_arith);
        }
        ExecutionResult::Success
    }
}

/// A product of two operand-bounded sizes is non-negative and below the
/// machine's address-space limit.
pub proof fn lemma_operand_nonneg(a: int, b: int)
    requires
        0 <= a <= 0xFFFF,
        0 <= b <= 0xFFFF,
    ensures
        0 <= a * b < 0x1_0000_0000,
{
    assert(0 <= a * b < 0x1_0000_0000) by (nonlinear_arith)
        requires
            0 <= a <= 0xFFFF,
            0 <= b <= 0xFFFF,
    ;
}

/// Finishing a row keeps the running cell index within the grid's cell
/// count.
pub proof fn lemma_row_progress_bound(rows: int, gw: int, gh: int)
    requires
        0 <= rows <= gh,
        0 <= gw,
    ensures
        rows * gw <= gh * gw,
{
    assert(rows * gw <= gh * gw) by (nonlinear_arith)
        requires
            0 <= rows <= gh,
            0 <= gw,
    ;
}

/// Whether a pre-rendered glyph slot holds a full 8 by 8 tile.
pub open spec fn glyph_tile_ok(g: Option<Bitmap>) -> bool {
    match g {
        Some(t) => t.wf() && t.width == TILE_SIZE && t.height == TILE_SIZE,
        None => true,
    }
}

/// The pixel contents of each pre-rendered glyph slot.
pub open spec fn glyph_views(gs: Seq<Option<Bitmap>>) -> Seq<Option<Seq<bool>>> {
    Seq::new(
        gs.len(),
        |i: int|
            match gs[i] {
                Some(b) => Some(b@),
                None => None,
            },
    )
}

/// The display and outcome after the first `n` cells of a character
/// grid command were drawn with pre-rendered glyphs, row-major. A cell
/// whose glyph the renderer could not produce (`None`) stops the run
/// with `Failure` before writing anything; a cell whose window does not
/// fit stops it after its partial write, as in [`cp437_run`].
pub open spec fn char_grid_run(
    d: Seq<bool>,
    dw: int,
    dh: int,
    glyphs: Seq<Option<Seq<bool>>>,
    gw: int,
    x: int,
    y: int,
    n: int,
) -> (Seq<bool>, ExecutionResult)
    decreases n,
{
    if n <= 0 {
        (d, ExecutionResult::Success)
    } else {
        let prev = char_grid_run(d, dw, dh, glyphs, gw, x, y, n - 1);
        if !(prev.1 == ExecutionResult::Success) {
            prev
        } else {
            match glyphs[n - 1] {
                None => (prev.0, ExecutionResult::Failure),
                Some(tile) => {
                    let cx = (n - 1) % gw;
                    let cy = (n - 1) / gw;
                    let ox = (x + cx) * (TILE_SIZE as int);
                    let oy = (y + cy) * (TILE_SIZE as int);
                    let ts = TILE_SIZE as int;
                    let post = window_post(
                        prev.0,
                        dw,
                        ox,
                        oy,
                        tile,
                        ts,
                        blit_stop(dw, dh, ox, oy, ts, ts),
                    );
                    if blit_ok(dw, dh, ox, oy, ts, ts) {
                        (post, ExecutionResult::Success)
                    } else {
                        (post, ExecutionResult::Failure)
                    }
                },
            }
        }
    }
}

/// Once a character grid run has stopped, the remaining cells change
/// nothing.
pub proof fn lemma_char_grid_run_absorbing(
    d: Seq<bool>,
    dw: int,
    dh: int,
    glyphs: Seq<Option<Seq<bool>>>,
    gw: int,
    x: int,
    y: int,
    n: int,
    m: int,
)
    requires
        0 <= n <= m,
        char_grid_run(d, dw, dh, glyphs, gw, x, y, n).1 != ExecutionResult::Success,
    ensures
        char_grid_run(d, dw, dh, glyphs, gw, x, y, m) == char_grid_run(
            d,
            dw,
            dh,
            glyphs,
            gw,
            x,
            y,
            n,
        ),
    decreases m - n,
{
    if m > n {
        lemma_char_grid_run_absorbing(d, dw, dh, glyphs, gw, x, y, n, m - 1);
    }
}

impl CharGridCommand {
    /// Draws the grid's Unicode characters from pre-rendered 8 by 8
    /// glyph tiles, one per cell in row-major order, each blitted at
    /// its cell's tile position relative to the tile-space origin. The
    /// glyphs come from the external font renderer: a `None` slot means
    /// the renderer failed for that cell and aborts the rest of the
    /// grid, as does a cell whose window does not fit the display.
    #[verifier::loop_isolation(false)]
    pub fn execute(
        &self,
        context: &mut CommandExecutionContext,
        glyphs: &Vec<Option<Bitmap>>,
    ) -> (r: ExecutionResult)
        requires
            old(context).wf(),
            self.wf(),
            glyphs@.len() == self.grid.width as int * self.grid.height as int,
            forall|i: int| 0 <= i < glyphs@.len() ==> glyph_tile_ok(#[trigger] glyphs@[i]),
        ensures
            final(context).wf(),
            final(context).luma == old(context).luma,
            final(context).cp437_font == old(context).cp437_font,
            ({
                let run = char_grid_run(
                    old(context).display@,
                    PIXEL_WIDTH as int,
                    PIXEL_HEIGHT as int,
                    glyph_views(glyphs@),
                    self.grid.width as int,
                    self.origin.x as int,
                    self.origin.y as int,
                    self.grid.width as int * self.grid.height as int,
                );
                final(context).display@ == run.0 && r == run.1
            }),
    {
        let gw = self.grid.width();
        let gh = self.grid.height();
        let ghost d0 = context.display@;
        let ghost gviews = glyph_views(glyphs@);
        let ghost total = gw as int * gh as int;
        proof {
            lemma_operand_nonneg(gw as int, gh as int);
        }
        let mut char_y: usize = 0;
        let mut idx: usize = 0;
        while char_y < gh
            invariant
                char_y <= gh,
                idx == char_y as int * gw as int,
                idx as int <= total,
                context.display.wf(),
                context.display.width == PIXEL_WIDTH,
                context.display.height == PIXEL_HEIGHT,
                context.luma == old(context).luma,
                context.cp437_font == old(context).cp437_font,
                char_grid_run(
                    d0,
                    PIXEL_WIDTH as int,
                    PIXEL_HEIGHT as int,
                    gviews,
                    gw as int,
                    self.origin.x as int,
                    self.origin.y as int,
                    idx as int,
                ) == (context.display@, ExecutionResult::Success),
            decreases gh - char_y,
        {
            let mut char_x: usize = 0;
            while char_x < gw
                invariant
                    char_x <= gw,
                    char_y < gh,
                    idx == char_y as int * gw as int + char_x as int,
                    idx as int <= total,
                    context.display.wf(),
                    context.display.width == PIXEL_WIDTH,
                    context.display.height == PIXEL_HEIGHT,
                    context.luma == old(context).luma,
                    context.cp437_font == old(context).cp437_font,
                    char_grid_run(
                        d0,
                        PIXEL_WIDTH as int,
                        PIXEL_HEIGHT as int,
                        gviews,
                        gw as int,
                        self.origin.x as int,
                        self.origin.y as int,
                        idx as int,
                    ) == (context.display@, ExecutionResult::Success),
                decreases gw - char_x,
            {
                let tile_x = char_x + self.origin.x;
                let tile_y = char_y + self.origin.y;
                proof {
                    lemma_pixel_index_bound(char_x as int, char_y as int, gw as int, gh as int);
                    lemma_pixel_index_inverse(char_x as int, char_y as int, gw as int);
                }
                match &glyphs[idx] {
                    None => {
                        proof {
                            lemma_char_grid_run_absorbing(
                                d0,
                                PIXEL_WIDTH as int,
                                PIXEL_HEIGHT as int,
                                gviews,
                                gw as int,
                                self.origin.x as int,
                                self.origin.y as int,
                                idx as int + 1,
                                total,
                            );
                        }
                        return ExecutionResult::Failure;
                    },
                    Some(tile) => {
                        let res = print_pixel_grid(
                            &mut context.display,
                            tile_x * TILE_SIZE,
                            tile_y * TILE_SIZE,
                            tile,
                        );
                        match res {
                            ExecutionResult::Success => {},
                            ExecutionResult::Failure => {
                                proof {
                                    lemma_char_grid_run_absorbing(
                                        d0,
                                        PIXEL_WIDTH as int,
                                        PIXEL_HEIGHT as int,
                                        gviews,
                                        gw as int,
                                        self.origin.x as int,
                                        self.origin.y as int,
                                        idx as int + 1,
                                        total,
                                    );
                                }
                                return ExecutionResult::Failure;
                            },
                            ExecutionResult::Shutdown => {
                                return ExecutionResult::Shutdown;
                            },
                        }
                    },
                }
                idx = idx + 1;
                char_x = char_x + 1;
            }
            proof {
                assert((char_y as int + 1) * gw as int == char_y as int * gw as int + gw as int)
                    by (nonlinear_arith);
                lemma_row_progress_bound(char_y as int + 1, gw as int, gh as int);
            }
            char_y = char_y + 1;
        }
        proof {
            assert(gh as int * gw as int == gw as int * gh as int) by (nonlinear_arith);
        }
        ExecutionResult::Success
    }
}

/// The framebuffer contents and the outcome after one command executes:
/// the new display pixels, the new brightness values, and the result.
pub open spec fn spec_execute(
    cmd: TypedCommand,
    display: Seq<bool>,
    luma: Seq<u8>,
    font: Seq<Seq<bool>>,
    glyphs: Seq<Option<Seq<bool>>>,
) -> (Seq<bool>, Seq<u8>, ExecutionResult) {
    match cmd {
        TypedCommand::Clear(_) => (
            Seq::new(display.len(), |i: int| false),
            luma,
            ExecutionResult::Success,
        ),
        TypedCommand::HardReset(_) => (display, luma, ExecutionResult::Shutdown),
        TypedCommand::FadeOut(_) => (display, luma, ExecutionResult::Success),
        TypedCommand::BitmapLegacy(_) => (display, luma, ExecutionResult::Failure),
        TypedCommand::Brightness(c) => (
            display,
            Seq::new(luma.len(), |i: int| c.brightness),
            ExecutionResult::Success,
        ),
        TypedCommand::Bitmap(c) => {
            let dw = PIXEL_WIDTH as int;
            let dh = PIXEL_HEIGHT as int;
            let post = window_post(
                display,
                dw,
                c.origin.x as int,
                c.origin.y as int,
                c.bitmap@,
                c.bitmap.width as int,
                blit_stop(
                    dw,
                    dh,
                    c.origin.x as int,
                    c.origin.y as int,
                    c.bitmap.width as int,
                    c.bitmap.height as int,
                ),
            );
            if blit_ok(
                dw,
                dh,
                c.origin.x as int,
                c.origin.y as int,
                c.bitmap.width as int,
                c.bitmap.height as int,
            ) {
                (post, luma, ExecutionResult::Success)
            } else {
                (post, luma, ExecutionResult::Failure)
            }
        },
        TypedCommand::BitVec(c) => {
            if c.offset + c.bitvec@.len() <= PIXEL_COUNT {
                (
                    bitvec_post(
                        display,
                        c.offset as int,
                        c.bitvec@,
                        c.operation,
                        c.bitvec@.len() as int,
                    ),
                    luma,
                    ExecutionResult::Success,
                )
            } else {
                (display, luma, ExecutionResult::Failure)
            }
        },
        TypedCommand::Cp437Grid(c) => {
            let run = cp437_run(
                display,
                PIXEL_WIDTH as int,
                PIXEL_HEIGHT as int,
                font,
                c.grid@,
                c.grid.width as int,
                c.origin.x as int,
                c.origin.y as int,
                c.grid.width as int * c.grid.height as int,
            );
            (run.0, luma, run.1)
        },
        TypedCommand::CharGrid(c) => {
            let run = char_grid_run(
                display,
                PIXEL_WIDTH as int,
                PIXEL_HEIGHT as int,
                glyphs,
                c.grid.width as int,
                c.origin.x as int,
                c.origin.y as int,
                c.grid.width as int * c.grid.height as int,
            );
            (run.0, luma, run.1)
        },
        TypedCommand::BrightnessGrid(c) => {
            if blit_ok(
                TILE_WIDTH as int,
                TILE_HEIGHT as int,
                c.origin.x as int,
                c.origin.y as int,
                c.grid.width as int,
                c.grid.height as int,
            ) {
                (
                    display,
                    window_post(
                        luma,
                        TILE_WIDTH as int,
                        c.origin.x as int,
                        c.origin.y as int,
                        c.grid@,
                        c.grid.width as int,
                        c.grid.width as int * c.grid.height as int,
                    ),
                    ExecutionResult::Success,
                )
            } else {
                (display, luma, ExecutionResult::Failure)
            }
        },
    }
}

/// What the glyph argument must provide for a command: a full set of
/// 8 by 8 tiles for a character grid, nothing for any other command.
pub open spec fn glyphs_ok_for(cmd: TypedCommand, glyphs: Seq<Option<Bitmap>>) -> bool {
    match cmd {
        TypedCommand::CharGrid(c) => glyphs.len() == c.grid.width as int * c.grid.height as int
            && forall|i: int| 0 <= i < glyphs.len() ==> glyph_tile_ok(#[trigger] glyphs[i]),
        _ => true,
    }
}

impl TypedCommand {
    /// Executes one decoded command against the framebuffer: dispatches
    /// to the variant's handler and leaves the state and result exactly
    /// as [`spec_execute`] says. The glyph argument carries the external
    /// renderer's output for a character grid command and is ignored by
    /// every other variant.
    pub fn execute(
        &self,
        context: &mut CommandExecutionContext,
        glyphs: &Vec<Option<Bitmap>>,
    ) -> (r: ExecutionResult)
        requires
            old(context).wf(),
            self.wf(),
            glyphs_ok_for(*self, glyphs@),
        ensures
            final(context).wf(),
            final(context).cp437_font == old(context).cp437_font,
            ({
                let out = spec_execute(
                    *self,
                    old(context).display@,
                    old(context).luma@,
                    old(context).cp437_font.tile_views(),
                    glyph_views(glyphs@),
                );
                final(context).display@ == out.0 && final(context).luma@ == out.1 && r == out.2
            }),
    {
        match self {
            TypedCommand::Clear(command) => command.execute(context),
            TypedCommand::HardReset(command) => command.execute(context),
            TypedCommand::FadeOut(command) => command.execute(context),
            TypedCommand::BitmapLegacy(command) => command.execute(context),
            TypedCommand::Brightness(command) => command.execute(context),
            TypedCommand::Bitmap(command) => command.execute(context),
            TypedCommand::BitVec(command) => command.execute(context),
            TypedCommand::Cp437Grid(command) => command.execute(context),
            TypedCommand::CharGrid(command) => command.execute(context, glyphs),
            TypedCommand::BrightnessGrid(command) => command.execute(context),
        }
    }
}

} // verus!

//! The built-in CP437 font: an 8 by 8 glyph for each of the 256
//! character codes.

use vstd::prelude::*;

verus! {

use crate::bitmap::{pixel_index, Bitmap};
use crate::TILE_SIZE;

/// Pixel `(x, y)` of a glyph packed into a 64-bit word: row `y` is byte
/// `y` of the word, least significant byte first, and within a row the
/// leftmost pixel is the most significant bit.
pub open spec fn glyph_bit(code: u64, x: int, y: int) -> bool {
    (code >> ((8 * y + 7 - x) as u64)) & 1u64 == 1u64
}

/// An immutable table of 256 glyphs, each an 8 by 8 bitmap tile, one
/// per CP437 character code.
pub struct Cp437Font {
    pub tiles: Vec<Bitmap>,
}

impl Cp437Font {
    /// One tile per character code, each a full 8 by 8 bitmap: the
    /// mapping is total over all 256 byte values.
    pub open spec fn wf(&self) -> bool {
        &&& self.tiles@.len() == 256
        &&& forall|c: int|
            0 <= c < 256 ==> (#[trigger] self.tiles@[c]).wf() && self.tiles@[c].width == TILE_SIZE
                && self.tiles@[c].height == TILE_SIZE
    }

    /// The pixel contents of each glyph.
    pub open spec fn tile_views(&self) -> Seq<Seq<bool>> {
        Seq::new(256, |c: int| self.tiles@[c]@)
    }

    pub fn new(tiles: Vec<Bitmap>) -> (r: Cp437Font)
        requires
            tiles@.len() == 256,
            forall|c: int|
                0 <= c < 256 ==> (#[trigger] tiles@[c]).wf() && tiles@[c].width == TILE_SIZE
                    && tiles@[c].height == TILE_SIZE,
        ensures
            r.wf(),
            r.tiles@ == tiles@,
    {
        Cp437Font { tiles }
    }

    /// The glyph for a character code.
    pub fn index(&self, char_code: u8) -> (r: &Bitmap)
        requires
            self.wf(),
        ensures
            r == self.tiles@[char_code as int],
            r@ == self.tile_views()[char_code as int],
            r.wf(),
            r.width == TILE_SIZE,
            r.height == TILE_SIZE,
    {
        &self.tiles[char_code as usize]
    }
}

impl Default for Cp437Font {
    /// The font built into the simulator, decoded from the packed glyph
    /// table.
    fn default() -> (r: Cp437Font)
        ensures
            r.wf(),
    {
        let codes = font_codes();
        let mut tiles: Vec<Bitmap> = Vec::new();
        let mut c: usize = 0;
        while c < 256
            invariant
                c <= 256,
                codes@.len() == 256,
                tiles@.len() == c,
                forall|i: int|
                    0 <= i < c as int ==> (#[trigger] tiles@[i]).wf() && tiles@[i].width
                        == TILE_SIZE && tiles@[i].height == TILE_SIZE,
            decreases 256 - c,
        {
            let tile = glyph_bitmap(codes[c]);
            tiles.push(tile);
            c = c + 1;
        }
        Cp437Font::new(tiles)
    }
}

/// Unpacks one 64-bit glyph word into its 8 by 8 bitmap tile.
pub fn glyph_bitmap(code: u64) -> (r: Bitmap)
    ensures
        r.wf(),
        r.width == TILE_SIZE,
        r.height == TILE_SIZE,
        forall|x: int, y: int|
            0 <= x < 8 && 0 <= y < 8 ==> r@[pixel_index(x, y, 8)] == glyph_bit(code, x, y),
{
    let mut bmp = Bitmap::new(TILE_SIZE, TILE_SIZE);
    let mut y: usize = 0;
    while y < 8
        invariant
            y <= 8,
            bmp.wf(),
            bmp.width == 8,
            bmp.height == 8,
            forall|i: int, j: int|
                0 <= i < 8 && 0 <= j < y as int ==> bmp@[pixel_index(i, j, 8)] == glyph_bit(
                    code,
                    i,
                    j,
                ),
        decreases 8 - y,
    {
        let mut x: usize = 0;
        while x < 8
            invariant
                x <= 8,
                y < 8,
                bmp.wf(),
                bmp.width == 8,
                bmp.height == 8,
                forall|i: int, j: int|
                    0 <= i < 8 && 0 <= j < y as int ==> bmp@[pixel_index(i, j, 8)] == glyph_bit(
                        code,
                        i,
                        j,
                    ),
                forall|i: int|
                    0 <= i < x as int ==> bmp@[pixel_index(i, y as int, 8)] == glyph_bit(
                        code,
                        i,
                        y as int,
                    ),
            decreases 8 - x,
        {
            let shift: u64 = (8 * y + 7 - x) as u64;
            let value = (code >> shift) & 1u64 == 1u64;
            bmp.set(x, y, value);
            x = x + 1;
        }
        y = y + 1;
    }
    bmp
}

/// The packed glyph data, one 64-bit word per character code, as the
/// display firmware defines it.
fn font_codes() -> (r: Vec<u64>)
    ensures
        r@.len() == 256,
{
    vec![
        0x0000000000000000, 0x003854ba82aa4438, 0x003844bafed67c38, 0x0010387cfeee4400,
        0x0010387cfe7c3810, 0x003810d6fefe3838, 0x003810d6fe7c3810, 0x0000387c7c7c3800,
        0x00fec6828282c6fe, 0x0000384444443800, 0x00fec6bababac6fe, 0x007088888a7a061e,
        0x1038103844444438, 0x0030301010141418, 0xc0c64642724e720e, 0x00927c44c6447c92,
        0x00c0f0fcfefcf0c0, 0x00061e7efe7e1e06, 0x1038541010543810, 0x2800282828282828,
        0x000e0a0a7a8a8a7e, 0x0038441c28704438, 0x000000ffff000000, 0xfe10385410543810,
        0x1010101010543810, 0x1038541010101010, 0x00000804fe040800, 0x00002040fe402000,
        0xffffc0c0c0c0c0c0, 0x00002844fe442800, 0x00fefe7c7c383810, 0x001038387c7cfefe,
        0x0000000000000000, 0x1000101010101010, 0x0000000000505028, 0x00247e24247e2400,
        0x1038541830543810, 0x00844a2a54a8a442, 0x003a444a32484830, 0x0000000000201010,
        0x0810202020201008, 0x2010080808081020, 0x0010543854100000, 0x0010107c10100000,
        0x2010100000000000, 0x0000007c00000000, 0x0010000000000000, 0x4020201010080804,
        0x0038444454444438, 0x007c101010503010, 0x007c201008044438, 0x003844043810087c,
        0x0004047e24140c04, 0x003844047840407c, 0x003844447840201c, 0x004020100804047c,
        0x0038444438444438, 0x007008043c444438, 0x0000100000100000, 0x2010100000100000,
        0x0006186018060000, 0x00007c007c000000, 0x00c0300c30c00000, 0x1000384038044438,
        0x001c2248564a221c, 0x0042427e24241818, 0x007c42427c444478, 0x001c22404040221c,
        0x0078444242424478, 0x007e40407e40407e, 0x004040407e40407e, 0x001c22424e40221c,
        0x004242427e424242, 0x007c10101010107c, 0x003844040404047c, 0x0042444870484442,
        0x007e404040404040, 0x0082828292aac682, 0x004242464a526242, 0x0018244242422418,
        0x004040407c42427c, 0x001a244a42422418, 0x004244487c42427c, 0x003c42023c40423c,
        0x00101010101010fe, 0x003c424242424242, 0x0010282844448282, 0x0044446caa929282,
        0x0082442810284482, 0x0010101010284482, 0x007e20100804027e, 0x3820202020202038,
        0x0408081010202040, 0x3808080808080838, 0x0000000000442810, 0x007e000000000000,
        0x0000000000080810, 0x003c443c04380000, 0x0038444444784040, 0x0038444044380000,
        0x003c4444443c0404, 0x003c407844380000, 0x2020202078202418, 0x78043c44443e0000,
        0x0044444464584040, 0x001c101010700010, 0x38440404047c0010, 0x0022243828242020,
        0x0018242020202020, 0x0054545454780000, 0x0044444464580000, 0x0038444444380000,
        0x4040784444780000, 0x04043c44443c0000, 0x0040404064580000, 0x00384418201c0000,
        0x0018242020782020, 0x0038444444440000, 0x0010282844440000, 0x0028285454440000,
        0x0044281028440000, 0x38043c4444440000, 0x007c2010087c0000, 0x0c0808083008080c,
        0x1010101010101010, 0x301010100c101030, 0x0000004c32000000, 0xfe82828282442810,
        0x18083c428080423c, 0x0038444444440028, 0x003c407844381008, 0x003c443c04382810,
        0x003c443c04380044, 0x003c443c04381020, 0x003c443c04382838, 0x1038444044380000,
        0x003c407844382810, 0x003c407844380044, 0x003c407844381020, 0x001c101010700028,
        0x001c101010702810, 0x001c101010701020, 0x0082827c44282892, 0x0082827c44281038,
        0x00fe80fe80fe1008, 0x007e907c126c0000, 0x008e88784e28281e, 0x0038444438002810,
        0x0038444444380028, 0x0038444438001020, 0x0038444444002810, 0x0038444444001020,
        0x38043c4444440028, 0x0038448282443882, 0x0038448282820082, 0x1038444044381010,
        0x00fc4240f0404438, 0x107c107c10284482, 0x001c22f840f8221c, 0x205010103810120c,
        0x003c443c04381008, 0x001c101010701008, 0x0038444438001008, 0x0038444444001008,
        0x0044446458004834, 0x00464a5262424834, 0x0000007090701060, 0x0000007088888870,
        0x3844403804380010, 0x0040407c00000000, 0x0004047c00000000, 0x0e84422c5048c442,
        0x049e542c5448c442, 0x1010101010100010, 0x0024489048240000, 0x0048241224480000,
        0x1122448811224488, 0x55aa55aa55aa55aa, 0xddbb77eeddbb77ee, 0x1010101010101010,
        0x101020c020101010, 0x1020c000c0201010, 0x2828488848282828, 0x282850e000000000,
        0x1030d020c0000000, 0x2848880888482828, 0x2828282828282828, 0x2828c810e0000000,
        0x000000e010c82828, 0x000000e050282828, 0x0000c020d0301010, 0x101020c000000000,
        0x0000000708101010, 0x000000c728101010, 0x101028c700000000, 0x1010080708101010,
        0x000000ff00000000, 0x101028c728101010, 0x1008070007081010, 0x2828242324282828,
        0x00000f1027282828, 0x282827100f000000, 0x0000ff0083442828, 0x28448300ff000000,
        0x2824232023242828, 0x0000ff00ff000000, 0x2844932893442828, 0x0000ff00c7281010,
        0x0000008344282828, 0x1028c700ff000000, 0x2828448300000000, 0x0000000f14282828,
        0x0000070817181010, 0x1018170807000000, 0x2828140f00000000, 0x2828448344282828,
        0x1028c700c7281010, 0x000000c020101010, 0x1010080700000000, 0xffffffffffffffff,
        0xffffffff00000000, 0xf0f0f0f0f0f0f0f0, 0x0f0f0f0f0f0f0f0f, 0x00000000ffffffff,
        0x0076888888740200, 0x5844444458484830, 0x00e04040404242fe, 0x00242828a87c0000,
        0x00fe8240204082fe, 0x00384444443e0000, 0x405a644444440000, 0x0010282020fc0000,
        0xfe103854543810fe, 0x003844aabaaa4438, 0x00ee448282824438, 0x007088887012221c,
        0x00006c92926c0000, 0x10107c92924c0000, 0x0038403040380000, 0x0082828282824438,
        0x00fe00fe00fe0000, 0x007c10107c101000, 0x007e006018061860, 0x007e000618601806,
        0x101010101010120c, 0x6090101010101010, 0x0010007c00100000, 0x000c926c92600000,
        0x0000000030484830, 0x0000103810000000, 0x0000001000000000, 0x10102828a4440202,
        0x00000000484848b0, 0x0000000070201060, 0x00007c7c7c7c7c00, 0x0000000000000000,
    ]
}

} // verus!

//! The wire codec: turns a raw datagram into a typed display command.

use vstd::prelude::*;

verus! {

use crate::bitmap::{bits_from_bytes, msb0_bit, Bitmap};
use crate::brightness_grid::BrightnessGrid;
use crate::commands::{
    BinaryOperation, BitVecCommand, BitmapCommand, BitmapLegacyCommand, BrightnessGridCommand,
    CharGridCommand, ClearCommand, Cp437GridCommand, FadeOutCommand, GlobalBrightnessCommand,
    HardResetCommand, PixelOrigin, TileOrigin, TypedCommand,
};
use crate::grids::{ByteGrid, CharGrid};
use crate::protocol::{
    read_header, spec_read_header, DisplayCommandCode, HdrWindow, ReadHeaderError, HEADER_SIZE,
};
use crate::{BRIGHTNESS_MAX, TILE_SIZE};

/// Why a datagram could not be decoded into a command.
#[derive(Debug, Clone, Copy, PartialEq, Eq, Structural)]
pub enum DecodeError {
    /// The buffer is shorter than the fixed header.
    PacketTooSmall,
    /// The leading 16-bit field matches no known command code.
    UnknownCommandCode(u16),
    /// The leading 16-bit field is unknown, but its byte-swapped value
    /// is the named known code: the sender probably used the wrong byte
    /// order.
    WrongEndianness(u16, DisplayCommandCode),
    /// The payload length does not match what the operand fields imply.
    PayloadSizeMismatch { expected: usize, actual: usize },
    /// Operand fields that the command does not use hold non-zero values.
    ExtraneousHeaderValues,
    /// A brightness value beyond [`BRIGHTNESS_MAX`].
    InvalidBrightness(u8),
    /// A character-grid payload that is not valid UTF-8.
    InvalidUtf8,
}

/// The characters a byte sequence decodes to under UTF-8, or `None`
/// where the bytes are not valid UTF-8. The decoding is a fixed function
/// of the bytes; this name stands for it.
pub uninterp spec fn utf8_chars(bytes: Seq<u8>) -> Option<Seq<char>>;

/// Relies on `String::from_utf8` for UTF-8 validation and decoding and
/// on `str::chars` for iterating the decoded characters. The result is a
/// function of the bytes alone; a UTF-8 character takes at least one
/// byte, and ASCII bytes decode to themselves.
#[verifier::external_body]
fn utf8_decode(bytes: &Vec<u8>) -> (r: Option<Vec<char>>)
    ensures
        r is Some <==> utf8_chars(bytes@) is Some,
        r matches Some(chars) ==> utf8_chars(bytes@) == Some(chars@) && chars@.len()
            <= bytes@.len(),
        r is None ==> !(forall|i: int| 0 <= i < bytes@.len() ==> bytes@[i] < 0x80),
        r matches Some(chars) ==> ((forall|i: int| 0 <= i < bytes@.len() ==> bytes@[i] < 0x80)
            ==> chars@ == Seq::new(bytes@.len(), |i: int| bytes@[i] as char)),
{
    match String::from_utf8(bytes.clone()) {
        Ok(s) => Some(s.chars().collect()),
        Err(_) => None,
    }
}

/// The product of two 16-bit operand fields stays well below the
/// machine's address-space limit.
pub proof fn lemma_operand_product_bound(a: u16, b: u16)
    ensures
        (a as int) * (b as int) < 0x1_0000_0000,
        (a as int) * (b as int) >= 0,
{
    let x = a as int;
    let y = b as int;
    assert(x * y < 0x1_0000_0000 && x * y >= 0) by (nonlinear_arith)
        requires
            0 <= x <= 0xFFFF,
            0 <= y <= 0xFFFF,
    ;
}

/// The payload part of a datagram: everything after the fixed header.
pub open spec fn payload_of(bytes: Seq<u8>) -> Seq<u8> {
    bytes.subrange(HEADER_SIZE as int, bytes.len() as int)
}

/// The compositing operation selected by a linear bitmap command code.
pub open spec fn spec_op_for(code: DisplayCommandCode) -> BinaryOperation {
    match code {
        DisplayCommandCode::BitmapLinearAnd => BinaryOperation::And,
        DisplayCommandCode::BitmapLinearOr => BinaryOperation::Or,
        DisplayCommandCode::BitmapLinearXor => BinaryOperation::Xor,
        _ => BinaryOperation::Overwrite,
    }
}

/// Decode outcome for the commands that carry no payload and use no
/// operand field.
pub open spec fn spec_code_only_error(hdr: HdrWindow, p: Seq<u8>) -> Option<DecodeError> {
    if p.len() != 0 {
        Some(DecodeError::PayloadSizeMismatch { expected: 0, actual: p.len() as usize })
    } else if hdr.x != 0 || hdr.y != 0 || hdr.w != 0 || hdr.h != 0 {
        Some(DecodeError::ExtraneousHeaderValues)
    } else {
        None
    }
}

/// Decode outcome for the global brightness command: no operand fields,
/// a single payload byte within the brightness range.
pub open spec fn spec_brightness_error(hdr: HdrWindow, p: Seq<u8>) -> Option<DecodeError> {
    if hdr.x != 0 || hdr.y != 0 || hdr.w != 0 || hdr.h != 0 {
        Some(DecodeError::ExtraneousHeaderValues)
    } else if p.len() != 1 {
        Some(DecodeError::PayloadSizeMismatch { expected: 1, actual: p.len() as usize })
    } else if p[0] > BRIGHTNESS_MAX {
        Some(DecodeError::InvalidBrightness(p[0]))
    } else {
        None
    }
}

/// Decode outcome of the payload length check shared by the grid
/// commands and the windowed bitmap: the payload must hold exactly
/// `w * h` bytes.
pub open spec fn spec_grid_size_error(hdr: HdrWindow, p: Seq<u8>) -> Option<DecodeError> {
    if p.len() != hdr.w as int * hdr.h as int {
        Some(
            DecodeError::PayloadSizeMismatch {
                expected: (hdr.w as int * hdr.h as int) as usize,
                actual: p.len() as usize,
            },
        )
    } else {
        None
    }
}

/// The first brightness value beyond the maximum at or after index `i`,
/// in row-major payload order.
pub open spec fn spec_first_invalid_brightness(p: Seq<u8>, i: int) -> Option<u8>
    decreases p.len() - i,
{
    if i < 0 || i >= p.len() {
        None
    } else if p[i] > BRIGHTNESS_MAX {
        Some(p[i])
    } else {
        spec_first_invalid_brightness(p, i + 1)
    }
}

/// Decode outcome for the brightness grid command: the size check, then
/// every value within range.
pub open spec fn spec_brightness_grid_error(hdr: HdrWindow, p: Seq<u8>) -> Option<DecodeError> {
    match spec_grid_size_error(hdr, p) {
        Some(e) => Some(e),
        None => match spec_first_invalid_brightness(p, 0) {
            Some(v) => Some(DecodeError::InvalidBrightness(v)),
            None => None,
        },
    }
}

/// Decode outcome for the linear bit vector commands: the reserved field
/// must be zero and the payload must hold exactly the announced number
/// of bytes. The compression field is accepted whatever it holds; the
/// identity codec is applied.
pub open spec fn spec_bitvec_error(hdr: HdrWindow, p: Seq<u8>) -> Option<DecodeError> {
    if hdr.h != 0 {
        Some(DecodeError::ExtraneousHeaderValues)
    } else if p.len() != hdr.y as int {
        Some(
            DecodeError::PayloadSizeMismatch {
                expected: hdr.y as usize,
                actual: p.len() as usize,
            },
        )
    } else {
        None
    }
}

/// Decode outcome for the character grid command: the size check in
/// bytes, then UTF-8 validity, then one character per cell.
pub open spec fn spec_char_grid_error(hdr: HdrWindow, p: Seq<u8>) -> Option<DecodeError> {
    match spec_grid_size_error(hdr, p) {
        Some(e) => Some(e),
        None => match utf8_chars(p) {
            None => Some(DecodeError::InvalidUtf8),
            Some(chars) => if chars.len() != hdr.w as int * hdr.h as int {
                Some(
                    DecodeError::PayloadSizeMismatch {
                        expected: (hdr.w as int * hdr.h as int) as usize,
                        actual: chars.len() as usize,
                    },
                )
            } else {
                None
            },
        },
    }
}

/// The error `decode` returns for a buffer, or `None` where the buffer
/// decodes to a command.
pub open spec fn spec_decode_error(bytes: Seq<u8>) -> Option<DecodeError> {
    match spec_read_header(bytes) {
        Err(ReadHeaderError::BufferTooSmall) => Some(DecodeError::PacketTooSmall),
        Err(ReadHeaderError::WrongCommandEndianness(v, c)) => Some(
            DecodeError::WrongEndianness(v, c),
        ),
        Err(ReadHeaderError::InvalidCommand(v)) => Some(DecodeError::UnknownCommandCode(v)),
        Ok(hdr) => {
            let p = payload_of(bytes);
            match hdr.command {
                DisplayCommandCode::Clear => spec_code_only_error(hdr, p),
                DisplayCommandCode::HardReset => spec_code_only_error(hdr, p),
                DisplayCommandCode::FadeOut => spec_code_only_error(hdr, p),
                DisplayCommandCode::BitmapLegacy => spec_code_only_error(hdr, p),
                DisplayCommandCode::Brightness => spec_brightness_error(hdr, p),
                DisplayCommandCode::BitmapLinearWin => spec_grid_size_error(hdr, p),
                DisplayCommandCode::BitmapLinear => spec_bitvec_error(hdr, p),
                DisplayCommandCode::BitmapLinearAnd => spec_bitvec_error(hdr, p),
                DisplayCommandCode::BitmapLinearOr => spec_bitvec_error(hdr, p),
                DisplayCommandCode::BitmapLinearXor => spec_bitvec_error(hdr, p),
                DisplayCommandCode::Cp437data => spec_grid_size_error(hdr, p),
                DisplayCommandCode::CharBrightness => spec_brightness_grid_error(hdr, p),
                DisplayCommandCode::Utf8Data => spec_char_grid_error(hdr, p),
            }
        },
    }
}

/// The decoded windowed bitmap: origin `(8x, y)`, a bitmap of `8w` by
/// `h` pixels read bit-for-bit from the payload, no compression.
pub open spec fn spec_bitmap_cmd_matches(hdr: HdrWindow, p: Seq<u8>, c: BitmapCommand) -> bool {
    &&& c.origin.x as int == hdr.x as int * TILE_SIZE
    &&& c.origin.y == hdr.y as usize
    &&& c.bitmap.wf()
    &&& c.bitmap.width as int == hdr.w as int * TILE_SIZE
    &&& c.bitmap.height == hdr.h as usize
    &&& forall|i: int| 0 <= i < c.bitmap@.len() ==> c.bitmap@[i] == msb0_bit(p, i)
    &&& c.compression == 0u16
}

/// The decoded linear bit vector: flat offset `x`, the payload unpacked
/// bit-for-bit, the operation the command code selects, the raw
/// compression field.
pub open spec fn spec_bitvec_cmd_matches(hdr: HdrWindow, p: Seq<u8>, c: BitVecCommand) -> bool {
    &&& c.offset == hdr.x as usize
    &&& c.operation == spec_op_for(hdr.command)
    &&& c.compression == hdr.w
    &&& c.bitvec@.len() == p.len() * 8
    &&& forall|i: int| 0 <= i < c.bitvec@.len() ==> c.bitvec@[i] == msb0_bit(p, i)
}

/// The decoded CP437 grid: tile origin `(x, y)`, a `w` by `h` grid whose
/// cells are the payload bytes.
pub open spec fn spec_cp437_cmd_matches(hdr: HdrWindow, p: Seq<u8>, c: Cp437GridCommand) -> bool {
    &&& c.origin.x == hdr.x as usize
    &&& c.origin.y == hdr.y as usize
    &&& c.grid.width == hdr.w as usize
    &&& c.grid.height == hdr.h as usize
    &&& c.grid@ == p
}

/// The decoded brightness grid: tile origin `(x, y)`, a `w` by `h` grid
/// whose cells are the payload bytes.
pub open spec fn spec_brightness_grid_cmd_matches(
    hdr: HdrWindow,
    p: Seq<u8>,
    c: BrightnessGridCommand,
) -> bool {
    &&& c.origin.x == hdr.x as usize
    &&& c.origin.y == hdr.y as usize
    &&& c.grid.width == hdr.w as usize
    &&& c.grid.height == hdr.h as usize
    &&& c.grid@ == p
}

/// The decoded character grid: tile origin `(x, y)`, a `w` by `h` grid
/// whose cells are the payload's UTF-8 characters.
pub open spec fn spec_char_grid_cmd_matches(hdr: HdrWindow, p: Seq<u8>, c: CharGridCommand) -> bool {
    &&& c.origin.x == hdr.x as usize
    &&& c.origin.y == hdr.y as usize
    &&& c.grid.width == hdr.w as usize
    &&& c.grid.height == hdr.h as usize
    &&& utf8_chars(p) == Some(c.grid@)
}

/// The command a successfully decoded buffer denotes, variant and
/// payload both pinned by the buffer's bytes.
pub open spec fn spec_decoded_command_matches(bytes: Seq<u8>, cmd: TypedCommand) -> bool {
    match spec_read_header(bytes) {
        Ok(hdr) => {
            let p = payload_of(bytes);
            match hdr.command {
                DisplayCommandCode::Clear => cmd == TypedCommand::Clear(ClearCommand),
                DisplayCommandCode::HardReset => cmd == TypedCommand::HardReset(HardResetCommand),
                DisplayCommandCode::FadeOut => cmd == TypedCommand::FadeOut(FadeOutCommand),
                DisplayCommandCode::BitmapLegacy => cmd == TypedCommand::BitmapLegacy(
                    BitmapLegacyCommand,
                ),
                DisplayCommandCode::Brightness => cmd == TypedCommand::Brightness(
                    GlobalBrightnessCommand { brightness: p[0] },
                ),
                DisplayCommandCode::BitmapLinearWin => cmd matches TypedCommand::Bitmap(c)
                    && spec_bitmap_cmd_matches(hdr, p, c),
                DisplayCommandCode::BitmapLinear => cmd matches TypedCommand::BitVec(c)
                    && spec_bitvec_cmd_matches(hdr, p, c),
                DisplayCommandCode::BitmapLinearAnd => cmd matches TypedCommand::BitVec(c)
                    && spec_bitvec_cmd_matches(hdr, p, c),
                DisplayCommandCode::BitmapLinearOr => cmd matches TypedCommand::BitVec(c)
                    && spec_bitvec_cmd_matches(hdr, p, c),
                DisplayCommandCode::BitmapLinearXor => cmd matches TypedCommand::BitVec(c)
                    && spec_bitvec_cmd_matches(hdr, p, c),
                DisplayCommandCode::Cp437data => cmd matches TypedCommand::Cp437Grid(c)
                    && spec_cp437_cmd_matches(hdr, p, c),
                DisplayCommandCode::CharBrightness => cmd matches TypedCommand::BrightnessGrid(c)
                    && spec_brightness_grid_cmd_matches(hdr, p, c),
                DisplayCommandCode::Utf8Data => cmd matches TypedCommand::CharGrid(c)
                    && spec_char_grid_cmd_matches(hdr, p, c),
            }
        },
        Err(_) => false,
    }
}

/// Decodes a raw datagram into a typed command.
///
/// Returns an error exactly on the buffers [`spec_decode_error`]
/// rejects: a buffer shorter than the header, an unknown or byte-swapped
/// command code, a payload whose length does not match the operand
/// fields, non-zero operand fields a command does not use, a brightness
/// value out of range, or text that is not UTF-8. No partial command is
/// ever produced, and no input panics.
pub fn decode(buffer: &[u8]) -> (r: Result<TypedCommand, DecodeError>)
    ensures
        match spec_decode_error(buffer@) {
            Some(e) => r == Err::<TypedCommand, DecodeError>(e),
            None => r matches Ok(cmd) && spec_decoded_command_matches(buffer@, cmd) && cmd.wf(),
        },
{
    let header = match read_header(buffer) {
        Err(ReadHeaderError::BufferTooSmall) => {
            return Err(DecodeError::PacketTooSmall);
        },
        Err(ReadHeaderError::WrongCommandEndianness(v, c)) => {
            return Err(DecodeError::WrongEndianness(v, c));
        },
        Err(ReadHeaderError::InvalidCommand(v)) => {
            return Err(DecodeError::UnknownCommandCode(v));
        },
        Ok(h) => h,
    };
    let payload: Vec<u8> = vstd::slice::slice_to_vec(
        vstd::slice::slice_subrange(buffer, HEADER_SIZE, buffer.len()),
    );

    match header.command {
        DisplayCommandCode::Clear => match check_code_only(&header, &payload) {
            Some(e) => Err(e),
            None => Ok(TypedCommand::Clear(ClearCommand)),
        },
        DisplayCommandCode::HardReset => match check_code_only(&header, &payload) {
            Some(e) => Err(e),
            None => Ok(TypedCommand::HardReset(HardResetCommand)),
        },
        DisplayCommandCode::FadeOut => match check_code_only(&header, &payload) {
            Some(e) => Err(e),
            None => Ok(TypedCommand::FadeOut(FadeOutCommand)),
        },
        DisplayCommandCode::BitmapLegacy => match check_code_only(&header, &payload) {
            Some(e) => Err(e),
            None => Ok(TypedCommand::BitmapLegacy(BitmapLegacyCommand)),
        },
        DisplayCommandCode::Brightness => parse_brightness(&header, &payload),
        DisplayCommandCode::BitmapLinearWin => parse_bitmap(&header, payload),
        DisplayCommandCode::BitmapLinear => parse_bitvec(&header, payload, BinaryOperation::Overwrite),
        DisplayCommandCode::BitmapLinearAnd => parse_bitvec(&header, payload, BinaryOperation::And),
        DisplayCommandCode::BitmapLinearOr => parse_bitvec(&header, payload, BinaryOperation::Or),
        DisplayCommandCode::BitmapLinearXor => parse_bitvec(&header, payload, BinaryOperation::Xor),
        DisplayCommandCode::Cp437data => parse_cp437(&header, payload),
        DisplayCommandCode::CharBrightness => parse_brightness_grid(&header, payload),
        DisplayCommandCode::Utf8Data => parse_char_grid(&header, payload),
    }
}

/// Checks a command that takes no payload and no operand values.
fn check_code_only(header: &HdrWindow, payload: &Vec<u8>) -> (r: Option<DecodeError>)
    ensures
        r == spec_code_only_error(*header, payload@),
{
    if payload.len() != 0 {
        Some(DecodeError::PayloadSizeMismatch { expected: 0, actual: payload.len() })
    } else if header.x != 0 || header.y != 0 || header.w != 0 || header.h != 0 {
        Some(DecodeError::ExtraneousHeaderValues)
    } else {
        None
    }
}

fn parse_brightness(header: &HdrWindow, payload: &Vec<u8>) -> (r: Result<TypedCommand, DecodeError>)
    ensures
        match spec_brightness_error(*header, payload@) {
            Some(e) => r == Err::<TypedCommand, DecodeError>(e),
            None => r == Ok::<TypedCommand, DecodeError>(
                TypedCommand::Brightness(GlobalBrightnessCommand { brightness: payload@[0] }),
            ),
        },
        r matches Ok(cmd) ==> cmd.wf(),
{
    if header.x != 0 || header.y != 0 || header.w != 0 || header.h != 0 {
        Err(DecodeError::ExtraneousHeaderValues)
    } else if payload.len() != 1 {
        Err(DecodeError::PayloadSizeMismatch { expected: 1, actual: payload.len() })
    } else {
        let value = payload[0];
        if value > BRIGHTNESS_MAX {
            Err(DecodeError::InvalidBrightness(value))
        } else {
            Ok(TypedCommand::Brightness(GlobalBrightnessCommand { brightness: value }))
        }
    }
}

fn parse_bitmap(header: &HdrWindow, payload: Vec<u8>) -> (r: Result<TypedCommand, DecodeError>)
    ensures
        match spec_grid_size_error(*header, payload@) {
            Some(e) => r == Err::<TypedCommand, DecodeError>(e),
            None => r matches Ok(cmd) && cmd matches TypedCommand::Bitmap(c)
                && spec_bitmap_cmd_matches(*header, payload@, c),
        },
        r matches Ok(cmd) ==> cmd.wf(),
{
    proof {
        lemma_operand_product_bound(header.w, header.h);
    }
    let expected = header.w as usize * header.h as usize;
    if payload.len() != expected {
        return Err(DecodeError::PayloadSizeMismatch { expected, actual: payload.len() });
    }
    let width = header.w as usize * TILE_SIZE;
    let height = header.h as usize;
    proof {
        lemma_operand_product_bound(header.w, header.h);
        assert(width * height == payload@.len() * 8) by (nonlinear_arith)
            requires
                width == header.w as int * 8,
                height == header.h as int,
                payload@.len() == header.w as int * header.h as int,
        ;
    }
    let bitmap = Bitmap::from_bytes(width, height, &payload);
    let origin = PixelOrigin { x: header.x as usize * TILE_SIZE, y: header.y as usize };
    Ok(TypedCommand::Bitmap(BitmapCommand { origin, bitmap, compression: 0 }))
}

fn parse_bitvec(header: &HdrWindow, payload: Vec<u8>, operation: BinaryOperation) -> (r: Result<
    TypedCommand,
    DecodeError,
>)
    requires
        operation == spec_op_for(header.command),
    ensures
        match spec_bitvec_error(*header, payload@) {
            Some(e) => r == Err::<TypedCommand, DecodeError>(e),
            None => r matches Ok(cmd) && cmd matches TypedCommand::BitVec(c)
                && spec_bitvec_cmd_matches(*header, payload@, c),
        },
        r matches Ok(cmd) ==> cmd.wf(),
{
    if header.h != 0 {
        return Err(DecodeError::ExtraneousHeaderValues);
    }
    if payload.len() != header.y as usize {
        return Err(
            DecodeError::PayloadSizeMismatch { expected: header.y as usize, actual: payload.len() },
        );
    }
    let bitvec = bits_from_bytes(&payload);
    Ok(
        TypedCommand::BitVec(
            BitVecCommand {
                offset: header.x as usize,
                bitvec,
                operation,
                compression: header.w,
            },
        ),
    )
}

fn parse_cp437(header: &HdrWindow, payload: Vec<u8>) -> (r: Result<TypedCommand, DecodeError>)
    ensures
        match spec_grid_size_error(*header, payload@) {
            Some(e) => r == Err::<TypedCommand, DecodeError>(e),
            None => r matches Ok(cmd) && cmd matches TypedCommand::Cp437Grid(c)
                && spec_cp437_cmd_matches(*header, payload@, c),
        },
        r matches Ok(cmd) ==> cmd.wf(),
{
    proof {
        lemma_operand_product_bound(header.w, header.h);
    }
    let expected = header.w as usize * header.h as usize;
    if payload.len() != expected {
        return Err(DecodeError::PayloadSizeMismatch { expected, actual: payload.len() });
    }
    let grid = ByteGrid::from_parts(header.w as usize, header.h as usize, payload);
    let origin = TileOrigin { x: header.x as usize, y: header.y as usize };
    Ok(TypedCommand::Cp437Grid(Cp437GridCommand { origin, grid }))
}

#[verifier::loop_isolation(false)]
fn parse_brightness_grid(header: &HdrWindow, payload: Vec<u8>) -> (r: Result<
    TypedCommand,
    DecodeError,
>)
    ensures
        match spec_brightness_grid_error(*header, payload@) {
            Some(e) => r == Err::<TypedCommand, DecodeError>(e),
            None => r matches Ok(cmd) && cmd matches TypedCommand::BrightnessGrid(c)
                && spec_brightness_grid_cmd_matches(*header, payload@, c),
        },
        r matches Ok(cmd) ==> cmd.wf(),
{
    proof {
        lemma_operand_product_bound(header.w, header.h);
    }
    let expected = header.w as usize * header.h as usize;
    if payload.len() != expected {
        return Err(DecodeError::PayloadSizeMismatch { expected, actual: payload.len() });
    }
    let n = payload.len();
    let mut k: usize = 0;
    while k < n
        invariant
            k <= n,
            n == payload@.len(),
            forall|j: int| 0 <= j < k ==> payload@[j] <= BRIGHTNESS_MAX,
            spec_first_invalid_brightness(payload@, 0) == spec_first_invalid_brightness(
                payload@,
                k as int,
            ),
        decreases n - k,
    {
        let value = payload[k];
        if value > BRIGHTNESS_MAX {
            proof {
                assert(spec_first_invalid_brightness(payload@, k as int) == Some(value));
            }
            return Err(DecodeError::InvalidBrightness(value));
        }
        proof {
            assert(spec_first_invalid_brightness(payload@, k as int)
                == spec_first_invalid_brightness(payload@, k as int + 1));
        }
        k = k + 1;
    }
    let grid = BrightnessGrid::from_parts(header.w as usize, header.h as usize, payload);
    let origin = TileOrigin { x: header.x as usize, y: header.y as usize };
    Ok(TypedCommand::BrightnessGrid(BrightnessGridCommand { origin, grid }))
}

fn parse_char_grid(header: &HdrWindow, payload: Vec<u8>) -> (r: Result<TypedCommand, DecodeError>)
    ensures
        match spec_char_grid_error(*header, payload@) {
            Some(e) => r == Err::<TypedCommand, DecodeError>(e),
            None => r matches Ok(cmd) && cmd matches TypedCommand::CharGrid(c)
                && spec_char_grid_cmd_matches(*header, payload@, c),
        },
        r matches Ok(cmd) ==> cmd.wf(),
{
    proof {
        lemma_operand_product_bound(header.w, header.h);
    }
    let expected = header.w as usize * header.h as usize;
    if payload.len() != expected {
        return Err(DecodeError::PayloadSizeMismatch { expected, actual: payload.len() });
    }
    let chars = match utf8_decode(&payload) {
        None => {
            return Err(DecodeError::InvalidUtf8);
        },
        Some(chars) => chars,
    };
    if chars.len() != expected {
        return Err(DecodeError::PayloadSizeMismatch { expected, actual: chars.len() });
    }
    let grid = CharGrid::from_parts(header.w as usize, header.h as usize, chars);
    let origin = TileOrigin { x: header.x as usize, y: header.y as usize };
    Ok(TypedCommand::CharGrid(CharGridCommand { origin, grid }))
}

} // verus!

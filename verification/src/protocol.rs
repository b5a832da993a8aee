//! The wire protocol's header layer: command codes and the fixed-size
//! packet header.

use vstd::prelude::*;

verus! {

/// Size in bytes of the fixed packet header: a 16-bit command code
/// followed by four 16-bit operand fields.
pub const HEADER_SIZE: usize = 10;

/// The command codes understood by the display, one per command of the
/// protocol.
#[derive(Debug, Clone, Copy, PartialEq, Eq, Structural)]
pub enum DisplayCommandCode {
    Clear,
    Cp437data,
    CharBrightness,
    Brightness,
    HardReset,
    FadeOut,
    BitmapLegacy,
    BitmapLinear,
    BitmapLinearWin,
    BitmapLinearAnd,
    BitmapLinearOr,
    BitmapLinearXor,
    Utf8Data,
}

/// The 16-bit wire value of each command code.
pub open spec fn spec_code_to_u16(code: DisplayCommandCode) -> u16 {
    match code {
        DisplayCommandCode::Clear => 0x0002,
        DisplayCommandCode::Cp437data => 0x0003,
        DisplayCommandCode::CharBrightness => 0x0005,
        DisplayCommandCode::Brightness => 0x0007,
        DisplayCommandCode::HardReset => 0x000b,
        DisplayCommandCode::FadeOut => 0x000d,
        DisplayCommandCode::BitmapLegacy => 0x0010,
        DisplayCommandCode::BitmapLinear => 0x0012,
        DisplayCommandCode::BitmapLinearWin => 0x0013,
        DisplayCommandCode::BitmapLinearAnd => 0x0014,
        DisplayCommandCode::BitmapLinearOr => 0x0015,
        DisplayCommandCode::BitmapLinearXor => 0x0016,
        DisplayCommandCode::Utf8Data => 0x0020,
    }
}

/// The command code denoted by a 16-bit wire value, if any.
pub open spec fn spec_code_from_u16(value: u16) -> Option<DisplayCommandCode> {
    match value {
        0x0002 => Some(DisplayCommandCode::Clear),
        0x0003 => Some(DisplayCommandCode::Cp437data),
        0x0005 => Some(DisplayCommandCode::CharBrightness),
        0x0007 => Some(DisplayCommandCode::Brightness),
        0x000b => Some(DisplayCommandCode::HardReset),
        0x000d => Some(DisplayCommandCode::FadeOut),
        0x0010 => Some(DisplayCommandCode::BitmapLegacy),
        0x0012 => Some(DisplayCommandCode::BitmapLinear),
        0x0013 => Some(DisplayCommandCode::BitmapLinearWin),
        0x0014 => Some(DisplayCommandCode::BitmapLinearAnd),
        0x0015 => Some(DisplayCommandCode::BitmapLinearOr),
        0x0016 => Some(DisplayCommandCode::BitmapLinearXor),
        0x0020 => Some(DisplayCommandCode::Utf8Data),
        _ => None,
    }
}

impl DisplayCommandCode {
    /// The command code for a 16-bit wire value, or `None` for an
    /// unknown value.
    pub fn from_primitive(value: u16) -> (r: Option<Self>)
        ensures
            r == spec_code_from_u16(value),
    {
        match value {
            0x0002 => Some(DisplayCommandCode::Clear),
            0x0003 => Some(DisplayCommandCode::Cp437data),
            0x0005 => Some(DisplayCommandCode::CharBrightness),
            0x0007 => Some(DisplayCommandCode::Brightness),
            0x000b => Some(DisplayCommandCode::HardReset),
            0x000d => Some(DisplayCommandCode::FadeOut),
            0x0010 => Some(DisplayCommandCode::BitmapLegacy),
            0x0012 => Some(DisplayCommandCode::BitmapLinear),
            0x0013 => Some(DisplayCommandCode::BitmapLinearWin),
            0x0014 => Some(DisplayCommandCode::BitmapLinearAnd),
            0x0015 => Some(DisplayCommandCode::BitmapLinearOr),
            0x0016 => Some(DisplayCommandCode::BitmapLinearXor),
            0x0020 => Some(DisplayCommandCode::Utf8Data),
            _ => None,
        }
    }

    /// The 16-bit wire value of this command code.
    pub fn to_primitive(&self) -> (r: u16)
        ensures
            r == spec_code_to_u16(*self),
    {
        match self {
            DisplayCommandCode::Clear => 0x0002,
            DisplayCommandCode::Cp437data => 0x0003,
            DisplayCommandCode::CharBrightness => 0x0005,
            DisplayCommandCode::Brightness => 0x0007,
            DisplayCommandCode::HardReset => 0x000b,
            DisplayCommandCode::FadeOut => 0x000d,
            DisplayCommandCode::BitmapLegacy => 0x0010,
            DisplayCommandCode::BitmapLinear => 0x0012,
            DisplayCommandCode::BitmapLinearWin => 0x0013,
            DisplayCommandCode::BitmapLinearAnd => 0x0014,
            DisplayCommandCode::BitmapLinearOr => 0x0015,
            DisplayCommandCode::BitmapLinearXor => 0x0016,
            DisplayCommandCode::Utf8Data => 0x0020,
        }
    }
}

/// The fixed packet header: the command code and the four 16-bit
/// operand fields whose meaning depends on the command.
#[derive(Debug, Clone, Copy, PartialEq, Eq, Structural)]
pub struct HdrWindow {
    pub command: DisplayCommandCode,
    pub x: u16,
    pub y: u16,
    pub w: u16,
    pub h: u16,
}

/// Subcommand codes that may accompany an inline bitmap payload. The
/// codes other than `SubCmdBitmapNormal` select a payload compression;
/// this core applies the identity codec whatever the code says.
#[derive(Debug, Clone, Copy, PartialEq, Eq, Structural)]
pub enum DisplaySubcommand {
    SubCmdBitmapNormal,
    SubCmdBitmapCompressZ,
    SubCmdBitmapCompressBz,
    SubCmdBitmapCompressLz,
    SubCmdBitmapCompressZs,
}

/// Why a buffer could not be read as a packet header.
#[derive(Debug, Clone, Copy, PartialEq, Eq, Structural)]
pub enum ReadHeaderError {
    /// The buffer is shorter than the fixed header.
    BufferTooSmall,
    /// The leading 16-bit field is no known command code, but its
    /// byte-swapped value is the named one: the sender most likely used
    /// the wrong byte order.
    WrongCommandEndianness(u16, DisplayCommandCode),
    /// The leading 16-bit field matches no known command code either way.
    InvalidCommand(u16),
}

/// The value of two bytes read in big-endian order.
pub open spec fn spec_be16(hi: u8, lo: u8) -> u16 {
    (hi as u16 * 256 + lo as u16) as u16
}

/// The 16-bit value with its two bytes exchanged.
pub open spec fn spec_swap16(value: u16) -> u16 {
    ((value % 256) * 256 + value / 256) as u16
}

/// Reads a 16-bit big-endian value.
pub fn read_beu16(buffer: &[u8]) -> (r: u16)
    requires
        buffer@.len() == 2,
    ensures
        r == spec_be16(buffer@[0], buffer@[1]),
{
    buffer[0] as u16 * 256 + buffer[1] as u16
}

/// What `read_header` returns for a given buffer.
pub open spec fn spec_read_header(buffer: Seq<u8>) -> Result<HdrWindow, ReadHeaderError> {
    if buffer.len() < HEADER_SIZE {
        Err(ReadHeaderError::BufferTooSmall)
    } else {
        let code = spec_be16(buffer[0], buffer[1]);
        match spec_code_from_u16(code) {
            Some(command) => Ok(
                HdrWindow {
                    command,
                    x: spec_be16(buffer[2], buffer[3]),
                    y: spec_be16(buffer[4], buffer[5]),
                    w: spec_be16(buffer[6], buffer[7]),
                    h: spec_be16(buffer[8], buffer[9]),
                },
            ),
            None => match spec_code_from_u16(spec_swap16(code)) {
                Some(command) => Err(ReadHeaderError::WrongCommandEndianness(code, command)),
                None => Err(ReadHeaderError::InvalidCommand(code)),
            },
        }
    }
}

/// Parses the fixed packet header from the front of a buffer: the
/// leading big-endian command code, then the operand fields `x`, `y`,
/// `w`, `h`. An unknown code whose byte-swapped value is known is
/// reported as a wrong-endianness mistake rather than an unknown code.
pub fn read_header(buffer: &[u8]) -> (r: Result<HdrWindow, ReadHeaderError>)
    ensures
        r == spec_read_header(buffer@),
{
    if buffer.len() < HEADER_SIZE {
        return Err(ReadHeaderError::BufferTooSmall);
    }

    let command_u16 = read_beu16(vstd::slice::slice_subrange(buffer, 0, 2));
    match DisplayCommandCode::from_primitive(command_u16) {
        Some(command) => Ok(
            HdrWindow {
                command,
                x: read_beu16(vstd::slice::slice_subrange(buffer, 2, 4)),
                y: read_beu16(vstd::slice::slice_subrange(buffer, 4, 6)),
                w: read_beu16(vstd::slice::slice_subrange(buffer, 6, 8)),
                h: read_beu16(vstd::slice::slice_subrange(buffer, 8, 10)),
            },
        ),
        None => {
            let swapped = (command_u16 % 256) * 256 + command_u16 / 256;
            match DisplayCommandCode::from_primitive(swapped) {
                None => Err(ReadHeaderError::InvalidCommand(command_u16)),
                Some(command) => Err(
                    ReadHeaderError::WrongCommandEndianness(command_u16, command),
                ),
            }
        },
    }
}

} // verus!

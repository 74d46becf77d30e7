//! The ways in which a stream can fail to hold a PCM WAVE header.

use vstd::prelude::*;
use vstd::string::*;
use crate::text::{append_decimal, append_lower_hex, decimal, lower_hex};

verus! {

/// The tag that starts a RIFF container: the bytes `RIFF` read as a
/// little-endian number.
pub const RIFF_MAGIC: u32 = 0x4646_4952;

/// The tag of a WAVE form: the bytes `WAVE` read as a little-endian number.
pub const WAVE_MAGIC: u32 = 0x4556_4157;

/// The tag of the format chunk: the bytes `fmt ` read as a little-endian
/// number.
pub const FMT_MAGIC: u32 = 0x2074_6d66;

/// One of the three fixed tags that a header is checked for.
#[derive(Clone, Copy, Debug, PartialEq, Eq, Structural)]
pub enum Magic {
    /// The container tag, `RIFF`.
    Riff,
    /// The form tag, `WAVE`.
    Wave,
    /// The format chunk tag, `fmt `.
    Fmt,
}

impl Magic {
    /// The number that the tagged field must hold.
    pub open spec fn expected(self) -> u32 {
        match self {
            Magic::Riff => RIFF_MAGIC,
            Magic::Wave => WAVE_MAGIC,
            Magic::Fmt => FMT_MAGIC,
        }
    }

    /// The four ASCII bytes of the tag, in stream order.
    pub open spec fn tag(self) -> Seq<u8> {
        match self {
            Magic::Riff => seq![0x52u8, 0x49u8, 0x46u8, 0x46u8],
            Magic::Wave => seq![0x57u8, 0x41u8, 0x56u8, 0x45u8],
            Magic::Fmt => seq![0x66u8, 0x6du8, 0x74u8, 0x20u8],
        }
    }

    /// The tag as text.
    pub open spec fn name_text(self) -> Seq<char> {
        match self {
            Magic::Riff => "RIFF"@,
            Magic::Wave => "WAVE"@,
            Magic::Fmt => "fmt "@,
        }
    }

    /// The number that the tagged field must hold.
    pub fn value(&self) -> (v: u32)
        ensures
            v == self.expected(),
    {
        match self {
            Magic::Riff => RIFF_MAGIC,
            Magic::Wave => WAVE_MAGIC,
            Magic::Fmt => FMT_MAGIC,
        }
    }

    /// The tag as text: `RIFF`, `WAVE` or `fmt `.
    pub fn name(&self) -> (s: &'static str)
        ensures
            s@ == self.name_text(),
    {
        match self {
            Magic::Riff => "RIFF",
            Magic::Wave => "WAVE",
            Magic::Fmt => "fmt ",
        }
    }
}

/// Why a decoded header is not a PCM WAVE header.
#[allow(inconsistent_fields)]
#[derive(Clone, Copy, Debug, PartialEq, Eq, Structural)]
pub enum ValidationError {
    /// A tag field holds `found` where the tag `field` is required.
    BadMagic { field: Magic, found: u32 },
    /// The format chunk declares `found` bytes, not the 16 of plain PCM.
    UnexpectedFormatChunkSize { found: u32 },
    /// The audio format is `found`, not 1 (linear PCM).
    UnsupportedAudioFormat { found: u16 },
}

/// Why no header came out of a stream.
#[derive(Debug, PartialEq, Eq)]
pub enum ParseError {
    /// The read itself failed; `message` is what the system said of it.
    Io { message: String },
    /// The stream ended after `actual_length` bytes, before a whole header.
    ShortRead { actual_length: usize },
    /// A whole header was read and decoded, and it is not PCM WAVE.
    Invalid(ValidationError),
}

impl ValidationError {
    /// The position, counted from 0, of the check that reports this error
    /// in the order in which a header is validated.
    pub open spec fn check_index(self) -> nat {
        match self {
            ValidationError::BadMagic { field: Magic::Riff, .. } => 0,
            ValidationError::BadMagic { field: Magic::Wave, .. } => 1,
            ValidationError::BadMagic { field: Magic::Fmt, .. } => 2,
            ValidationError::UnexpectedFormatChunkSize { .. } => 3,
            ValidationError::UnsupportedAudioFormat { .. } => 4,
        }
    }

    /// The one-line message of this error. A tag is shown in hexadecimal, a
    /// size or a format number in decimal.
    pub open spec fn message_text(self) -> Seq<char> {
        match self {
            ValidationError::BadMagic { field: Magic::Riff, found } => {
                "Stream must have 'RIFF' header, but got 0x"@ + lower_hex(found as nat) + "."@
            },
            ValidationError::BadMagic { field: Magic::Wave, found } => {
                "Stream must have 'WAVE' format, but got 0x"@ + lower_hex(found as nat) + "."@
            },
            ValidationError::BadMagic { field: Magic::Fmt, found } => {
                "Stream must have 'fmt ' sub chuck, but got 0x"@ + lower_hex(found as nat) + "."@
            },
            ValidationError::UnexpectedFormatChunkSize { found } => {
                "Stream 'fmt ' sub chuck size must be 16, but got "@ + decimal(found as nat) + "."@
            },
            ValidationError::UnsupportedAudioFormat { found } => {
                "Stream audio format must be 1 (PCM), but got "@ + decimal(found as nat) + "."@
            },
        }
    }

    /// Renders this error as a one-line message.
    pub fn message(&self) -> (s: String)
        ensures
            s@ == self.message_text(),
    {
        match self {
            ValidationError::BadMagic { field, found } => {
                let mut out = match field {
                    Magic::Riff => String::from_str("Stream must have 'RIFF' header, but got 0x"),
                    Magic::Wave => String::from_str("Stream must have 'WAVE' format, but got 0x"),
                    Magic::Fmt => String::from_str(
                        "Stream must have 'fmt ' sub chuck, but got 0x",
                    ),
                };
                append_lower_hex(&mut out, *found as u64);
                out.append(".");
                out
            },
            ValidationError::UnexpectedFormatChunkSize { found } => {
                let mut out = String::from_str("Stream 'fmt ' sub chuck size must be 16, but got ");
                append_decimal(&mut out, *found as u64);
                out.append(".");
                out
            },
            ValidationError::UnsupportedAudioFormat { found } => {
                let mut out = String::from_str("Stream audio format must be 1 (PCM), but got ");
                append_decimal(&mut out, *found as u64);
                out.append(".");
                out
            },
        }
    }
}

impl Clone for ParseError {
    fn clone(&self) -> (r: Self)
        ensures
            r == *self,
    {
        match self {
            ParseError::Io { message } => ParseError::Io { message: message.clone() },
            ParseError::ShortRead { actual_length } => ParseError::ShortRead {
                actual_length: *actual_length,
            },
            ParseError::Invalid(e) => ParseError::Invalid(*e),
        }
    }
}

impl ParseError {
    /// The one-line message of this error: what the system said of a
    /// failed read, the number of bytes that a short read gave, in decimal,
    /// or the message of the validation error.
    pub open spec fn message_text(self) -> Seq<char> {
        match self {
            ParseError::Io { message } => message@,
            ParseError::ShortRead { actual_length } => {
                "WAVE header size must be 44-bytes long, but got "@ + decimal(actual_length as nat)
                    + "."@
            },
            ParseError::Invalid(e) => e.message_text(),
        }
    }

    /// Renders this error as a one-line message.
    pub fn message(&self) -> (s: String)
        ensures
            s@ == self.message_text(),
    {
        match self {
            ParseError::Io { message } => message.clone(),
            ParseError::ShortRead { actual_length } => {
                let mut out = String::from_str("WAVE header size must be 44-bytes long, but got ");
                append_decimal(&mut out, *actual_length as u64);
                out.append(".");
                out
            },
            ParseError::Invalid(e) => e.message(),
        }
    }
}

} // verus!

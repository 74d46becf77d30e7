//! The canonical WAVE header: its layout, decoding and validation.

use vstd::prelude::*;
use vstd::slice::slice_subrange;
use vstd::string::*;
use crate::error::{Magic, ParseError, ValidationError, FMT_MAGIC, RIFF_MAGIC, WAVE_MAGIC};
use crate::le::{le_u16, le_u32, slice_to_u16, slice_to_u32, u16_le_bytes, u32_le_bytes};
use crate::text::{append_decimal, append_lower_hex, decimal, lower_hex};

verus! {

/// The length in bytes of the canonical header.
pub const HEADER_LEN: usize = 44;

/// The size that the format chunk of plain PCM declares.
pub const PCM_FORMAT_CHUNK_SIZE: u32 = 16;

/// The audio format number of linear PCM.
pub const PCM_AUDIO_FORMAT: u16 = 1;

/// The fields of the canonical 44-byte WAVE header, in stream order.
#[derive(Clone, Copy, Debug, PartialEq, Eq, Structural)]
pub struct WaveHeader {
    /// The container tag; `RIFF` in a valid header.
    pub chunk_id: u32,
    /// The declared size of what follows this field.
    pub chunk_size: u32,
    /// The form tag; `WAVE` in a valid header.
    pub format: u32,
    /// The format chunk tag; `fmt ` in a valid header.
    pub sub_chunk1_id: u32,
    /// The declared size of the format chunk; 16 in a valid header.
    pub sub_chunk1_size: u32,
    /// The audio format; 1 (linear PCM) in a valid header.
    pub audio_format: u16,
    /// The number of channels.
    pub num_channels: u16,
    /// Samples per second.
    pub sample_rate: u32,
    /// The declared number of bytes per second.
    pub byte_rate: u32,
    /// The declared size of one frame, all channels together.
    pub block_align: u16,
    /// The bit depth of one sample.
    pub bits_per_sample: u16,
    /// The tag of the chunk that holds the samples.
    pub sub_chunk2_id: u32,
    /// The declared size of the samples in bytes.
    pub sub_chunk2_size: u32,
}

impl WaveHeader {
    /// The header that 44 bytes stand for: every field little-endian, at its
    /// fixed offset.
    pub open spec fn decoded(b: Seq<u8>) -> WaveHeader
        recommends
            b.len() == HEADER_LEN,
    {
        WaveHeader {
            chunk_id: le_u32(b.subrange(0, 4)),
            chunk_size: le_u32(b.subrange(4, 8)),
            format: le_u32(b.subrange(8, 12)),
            sub_chunk1_id: le_u32(b.subrange(12, 16)),
            sub_chunk1_size: le_u32(b.subrange(16, 20)),
            audio_format: le_u16(b.subrange(20, 22)),
            num_channels: le_u16(b.subrange(22, 24)),
            sample_rate: le_u32(b.subrange(24, 28)),
            byte_rate: le_u32(b.subrange(28, 32)),
            block_align: le_u16(b.subrange(32, 34)),
            bits_per_sample: le_u16(b.subrange(34, 36)),
            sub_chunk2_id: le_u32(b.subrange(36, 40)),
            sub_chunk2_size: le_u32(b.subrange(40, 44)),
        }
    }

    /// The 44 bytes that stand for this header.
    pub open spec fn encoded(self) -> Seq<u8> {
        u32_le_bytes(self.chunk_id) + u32_le_bytes(self.chunk_size) + u32_le_bytes(self.format)
            + u32_le_bytes(self.sub_chunk1_id) + u32_le_bytes(self.sub_chunk1_size)
            + u16_le_bytes(self.audio_format) + u16_le_bytes(self.num_channels) + u32_le_bytes(
            self.sample_rate,
        ) + u32_le_bytes(self.byte_rate) + u16_le_bytes(self.block_align) + u16_le_bytes(
            self.bits_per_sample,
        ) + u32_le_bytes(self.sub_chunk2_id) + u32_le_bytes(self.sub_chunk2_size)
    }

    /// Whether the five constrained fields hold what PCM WAVE requires.
    pub open spec fn is_pcm_wave(self) -> bool {
        &&& self.chunk_id == RIFF_MAGIC
        &&& self.format == WAVE_MAGIC
        &&& self.sub_chunk1_id == FMT_MAGIC
        &&& self.sub_chunk1_size == PCM_FORMAT_CHUNK_SIZE
        &&& self.audio_format == PCM_AUDIO_FORMAT
    }

    /// The field that must hold the tag `field`.
    pub open spec fn tagged(self, field: Magic) -> u32 {
        match field {
            Magic::Riff => self.chunk_id,
            Magic::Wave => self.format,
            Magic::Fmt => self.sub_chunk1_id,
        }
    }

    /// Whether this header breaks the requirement that `e` speaks of, and
    /// `e` carries the value that the header holds there.
    pub open spec fn breaks(self, e: ValidationError) -> bool {
        match e {
            ValidationError::BadMagic { field, found } => {
                found == self.tagged(field) && found != field.expected()
            },
            ValidationError::UnexpectedFormatChunkSize { found } => {
                found == self.sub_chunk1_size && found != PCM_FORMAT_CHUNK_SIZE
            },
            ValidationError::UnsupportedAudioFormat { found } => {
                found == self.audio_format && found != PCM_AUDIO_FORMAT
            },
        }
    }

    /// The outcome of validation: the first check that fails, in the order
    /// container tag, form tag, format chunk tag, format chunk size, audio
    /// format, decides the error.
    pub open spec fn validation(self) -> Result<(), ValidationError> {
        if self.chunk_id != RIFF_MAGIC {
            Err(ValidationError::BadMagic { field: Magic::Riff, found: self.chunk_id })
        } else if self.format != WAVE_MAGIC {
            Err(ValidationError::BadMagic { field: Magic::Wave, found: self.format })
        } else if self.sub_chunk1_id != FMT_MAGIC {
            Err(ValidationError::BadMagic { field: Magic::Fmt, found: self.sub_chunk1_id })
        } else if self.sub_chunk1_size != PCM_FORMAT_CHUNK_SIZE {
            Err(ValidationError::UnexpectedFormatChunkSize { found: self.sub_chunk1_size })
        } else if self.audio_format != PCM_AUDIO_FORMAT {
            Err(ValidationError::UnsupportedAudioFormat { found: self.audio_format })
        } else {
            Ok(())
        }
    }

    /// The header as a block of text: an empty line, the opening line, one
    /// line for each field in stream order, the closing line. The four tags
    /// are shown in hexadecimal behind `0x`, every other field in decimal.
    /// The bit depth follows its colon directly and is followed by a space.
    pub open spec fn rendering(self) -> Seq<char> {
        "\nWaveHeader {\n    chunk_id: 0x"@ + lower_hex(self.chunk_id as nat)
            + "\n    chunk_size: "@ + decimal(self.chunk_size as nat)
            + "\n    format: 0x"@ + lower_hex(self.format as nat)
            + "\n    sub_chunk1_id: 0x"@ + lower_hex(self.sub_chunk1_id as nat)
            + "\n    sub_chunk1_size: "@ + decimal(self.sub_chunk1_size as nat)
            + "\n    audio_format: "@ + decimal(self.audio_format as nat)
            + "\n    num_channels: "@ + decimal(self.num_channels as nat)
            + "\n    sample_rate: "@ + decimal(self.sample_rate as nat)
            + "\n    byte_rate: "@ + decimal(self.byte_rate as nat)
            + "\n    block_align: "@ + decimal(self.block_align as nat)
            + "\n    bits_per_sample:"@ + decimal(self.bits_per_sample as nat)
            + " \n    sub_chunk2_id: 0x"@ + lower_hex(self.sub_chunk2_id as nat)
            + "\n    sub_chunk2_size: "@ + decimal(self.sub_chunk2_size as nat)
            + "\n}\n"@
    }

    /// Decodes the 44 bytes of a header, without validating it.
    pub fn decode(bytes: &[u8]) -> (header: WaveHeader)
        requires
            bytes@.len() == HEADER_LEN,
        ensures
            header == WaveHeader::decoded(bytes@),
    {
        WaveHeader {
            chunk_id: slice_to_u32(slice_subrange(bytes, 0, 4)),
            chunk_size: slice_to_u32(slice_subrange(bytes, 4, 8)),
            format: slice_to_u32(slice_subrange(bytes, 8, 12)),
            sub_chunk1_id: slice_to_u32(slice_subrange(bytes, 12, 16)),
            sub_chunk1_size: slice_to_u32(slice_subrange(bytes, 16, 20)),
            audio_format: slice_to_u16(slice_subrange(bytes, 20, 22)),
            num_channels: slice_to_u16(slice_subrange(bytes, 22, 24)),
            sample_rate: slice_to_u32(slice_subrange(bytes, 24, 28)),
            byte_rate: slice_to_u32(slice_subrange(bytes, 28, 32)),
            block_align: slice_to_u16(slice_subrange(bytes, 32, 34)),
            bits_per_sample: slice_to_u16(slice_subrange(bytes, 34, 36)),
            sub_chunk2_id: slice_to_u32(slice_subrange(bytes, 36, 40)),
            sub_chunk2_size: slice_to_u32(slice_subrange(bytes, 40, 44)),
        }
    }

    /// Checks the header against the PCM WAVE requirements and reports the
    /// first one that it breaks.
    pub fn is_valid(&self) -> (r: Result<(), ValidationError>)
        ensures
            r == self.validation(),
            r is Ok <==> self.is_pcm_wave(),
    {
        if self.chunk_id != RIFF_MAGIC {
            return Err(ValidationError::BadMagic { field: Magic::Riff, found: self.chunk_id });
        }
        if self.format != WAVE_MAGIC {
            return Err(ValidationError::BadMagic { field: Magic::Wave, found: self.format });
        }
        if self.sub_chunk1_id != FMT_MAGIC {
            return Err(ValidationError::BadMagic { field: Magic::Fmt, found: self.sub_chunk1_id });
        }
        if self.sub_chunk1_size != PCM_FORMAT_CHUNK_SIZE {
            return Err(
                ValidationError::UnexpectedFormatChunkSize { found: self.sub_chunk1_size },
            );
        }
        if self.audio_format != PCM_AUDIO_FORMAT {
            return Err(ValidationError::UnsupportedAudioFormat { found: self.audio_format });
        }
        Ok(())
    }

    /// Renders every field of the header as a block of text for people to
    /// read.
    pub fn render(&self) -> (s: String)
        ensures
            s@ == self.rendering(),
    {
        let mut out = String::from_str("\nWaveHeader {\n    chunk_id: 0x");
        append_lower_hex(&mut out, self.chunk_id as u64);
        out.append("\n    chunk_size: ");
        append_decimal(&mut out, self.chunk_size as u64);
        out.append("\n    format: 0x");
        append_lower_hex(&mut out, self.format as u64);
        out.append("\n    sub_chunk1_id: 0x");
        append_lower_hex(&mut out, self.sub_chunk1_id as u64);
        out.append("\n    sub_chunk1_size: ");
        append_decimal(&mut out, self.sub_chunk1_size as u64);
        out.append("\n    audio_format: ");
        append_decimal(&mut out, self.audio_format as u64);
        out.append("\n    num_channels: ");
        append_decimal(&mut out, self.num_channels as u64);
        out.append("\n    sample_rate: ");
        append_decimal(&mut out, self.sample_rate as u64);
        out.append("\n    byte_rate: ");
        append_decimal(&mut out, self.byte_rate as u64);
        out.append("\n    block_align: ");
        append_decimal(&mut out, self.block_align as u64);
        out.append("\n    bits_per_sample:");
        append_decimal(&mut out, self.bits_per_sample as u64);
        out.append(" \n    sub_chunk2_id: 0x");
        append_lower_hex(&mut out, self.sub_chunk2_id as u64);
        out.append("\n    sub_chunk2_size: ");
        append_decimal(&mut out, self.sub_chunk2_size as u64);
        out.append("\n}\n");
        out
    }
}

/// What parsing makes of a stream: a short read where it holds fewer than 44
/// bytes, else the header that its first 44 bytes stand for, if that header
/// is valid, and the validation error if it is not.
pub open spec fn parsed(stream: Seq<u8>) -> Result<WaveHeader, ParseError> {
    if stream.len() < HEADER_LEN {
        Err(ParseError::ShortRead { actual_length: stream.len() as usize })
    } else {
        let header = WaveHeader::decoded(stream.subrange(0, HEADER_LEN as int));
        match header.validation() {
            Ok(()) => Ok(header),
            Err(e) => Err(ParseError::Invalid(e)),
        }
    }
}

/// Parses the header at the start of `stream`, the bytes that the source
/// yields, and validates it. Nothing past the first 44 bytes is looked at.
pub fn parse_wave_header(stream: &[u8]) -> (r: Result<WaveHeader, ParseError>)
    ensures
        r == parsed(stream@),
{
    let n: usize = stream.len();
    if n < HEADER_LEN {
        return Err(ParseError::ShortRead { actual_length: n });
    }
    let header = WaveHeader::decode(slice_subrange(stream, 0, HEADER_LEN));
    match header.is_valid() {
        Ok(()) => Ok(header),
        Err(e) => Err(ParseError::Invalid(e)),
    }
}

/// What one read into a header-sized buffer amounts to. A failed read is an
/// I/O error with the message that the system gave; a read of any count but
/// 44 is a short read of that count; a read of 44 bytes is the buffer parsed.
pub open spec fn parsed_read(buf: Seq<u8>, outcome: Result<usize, String>) -> Result<
    WaveHeader,
    ParseError,
> {
    match outcome {
        Err(message) => Err(ParseError::Io { message }),
        Ok(count) => if count != HEADER_LEN {
            Err(ParseError::ShortRead { actual_length: count })
        } else {
            parsed(buf)
        },
    }
}

/// Parses the header out of `buf` after one read into it, where `outcome` is
/// what the read returned: the number of bytes that it put at the start of
/// `buf`, or the message of the error that it failed with.
pub fn parse_read(buf: &[u8; HEADER_LEN], outcome: Result<usize, String>) -> (r: Result<
    WaveHeader,
    ParseError,
>)
    ensures
        r == parsed_read(buf@, outcome),
{
    match outcome {
        Err(message) => Err(ParseError::Io { message }),
        Ok(count) => {
            if count != HEADER_LEN {
                Err(ParseError::ShortRead { actual_length: count })
            } else {
                parse_wave_header(buf.as_slice())
            }
        },
    }
}

} // verus!

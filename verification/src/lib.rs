//! Strict decoding and validation of the canonical 44-byte PCM WAVE header.
//!
//! The header is modelled as the sequence of its bytes: every contract in this
//! crate is stated over `Seq<u8>` and over the decoded [`wav::WaveHeader`]
//! record, whose fields are plain unsigned integers.

pub mod error;
pub mod laws;
pub mod le;
pub mod text;
pub mod wav;

pub use crate::error::{Magic, ParseError, ValidationError, FMT_MAGIC, RIFF_MAGIC, WAVE_MAGIC};
pub use crate::le::{slice_to_u16, slice_to_u32};
pub use crate::wav::{
    parse_read, parse_wave_header, WaveHeader, HEADER_LEN, PCM_AUDIO_FORMAT,
    PCM_FORMAT_CHUNK_SIZE,
};

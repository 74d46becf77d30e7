//! What holds of every header and of every stream, proved over the models
//! that the contracts of this crate are stated in.

use vstd::prelude::*;
use crate::error::{Magic, ParseError, ValidationError, FMT_MAGIC, RIFF_MAGIC, WAVE_MAGIC};
use crate::le::{
    le_u16, le_u32, lemma_le_u16_bytes_round_trip, lemma_le_u16_one_to_one,
    lemma_le_u32_bytes_round_trip, lemma_le_u32_one_to_one, lemma_u16_le_bytes_round_trip,
    lemma_u32_le_bytes_round_trip, u16_le_bytes, u32_le_bytes,
};
use crate::wav::{
    parsed, parsed_read, WaveHeader, HEADER_LEN, PCM_AUDIO_FORMAT, PCM_FORMAT_CHUNK_SIZE,
};

verus! {

/// A tag is a number and four ASCII letters at once: the number is the
/// letters' bytes read little-endian, and the bytes are the number written
/// little-endian.
pub proof fn lemma_magic_is_its_tag(m: Magic)
    ensures
        m.tag().len() == 4,
        le_u32(m.tag()) == m.expected(),
        u32_le_bytes(m.expected()) == m.tag(),
        m.name_text().len() == 4,
        forall|i: int| 0 <= i < 4 ==> m.name_text()[i] == m.tag()[i] as char,
{
    reveal_strlit("RIFF");
    reveal_strlit("WAVE");
    reveal_strlit("fmt ");
    lemma_le_u32_bytes_round_trip(m.tag());
}

/// Four bytes decode to a tag's number exactly when they are the tag's
/// letters.
pub proof fn lemma_magic_decodes_from_tag_only(m: Magic, b: Seq<u8>)
    requires
        b.len() == 4,
    ensures
        le_u32(b) == m.expected() <==> b == m.tag(),
{
    lemma_magic_is_its_tag(m);
    lemma_le_u32_one_to_one(b, m.expected());
}

/// Decoding 44 bytes and encoding the header gives the 44 bytes back.
pub proof fn lemma_decode_then_encode(b: Seq<u8>)
    requires
        b.len() == HEADER_LEN,
    ensures
        WaveHeader::decoded(b).encoded() == b,
{
    lemma_le_u32_bytes_round_trip(b.subrange(0, 4));
    lemma_le_u32_bytes_round_trip(b.subrange(4, 8));
    lemma_le_u32_bytes_round_trip(b.subrange(8, 12));
    lemma_le_u32_bytes_round_trip(b.subrange(12, 16));
    lemma_le_u32_bytes_round_trip(b.subrange(16, 20));
    lemma_le_u16_bytes_round_trip(b.subrange(20, 22));
    lemma_le_u16_bytes_round_trip(b.subrange(22, 24));
    lemma_le_u32_bytes_round_trip(b.subrange(24, 28));
    lemma_le_u32_bytes_round_trip(b.subrange(28, 32));
    lemma_le_u16_bytes_round_trip(b.subrange(32, 34));
    lemma_le_u16_bytes_round_trip(b.subrange(34, 36));
    lemma_le_u32_bytes_round_trip(b.subrange(36, 40));
    lemma_le_u32_bytes_round_trip(b.subrange(40, 44));
}

/// Encoding a header gives 44 bytes, and decoding them gives the header
/// back.
pub proof fn lemma_encode_then_decode(h: WaveHeader)
    ensures
        h.encoded().len() == HEADER_LEN,
        WaveHeader::decoded(h.encoded()) == h,
{
    lemma_u32_le_bytes_round_trip(h.chunk_id);
    lemma_u32_le_bytes_round_trip(h.chunk_size);
    lemma_u32_le_bytes_round_trip(h.format);
    lemma_u32_le_bytes_round_trip(h.sub_chunk1_id);
    lemma_u32_le_bytes_round_trip(h.sub_chunk1_size);
    lemma_u16_le_bytes_round_trip(h.audio_format);
    lemma_u16_le_bytes_round_trip(h.num_channels);
    lemma_u32_le_bytes_round_trip(h.sample_rate);
    lemma_u32_le_bytes_round_trip(h.byte_rate);
    lemma_u16_le_bytes_round_trip(h.block_align);
    lemma_u16_le_bytes_round_trip(h.bits_per_sample);
    lemma_u32_le_bytes_round_trip(h.sub_chunk2_id);
    lemma_u32_le_bytes_round_trip(h.sub_chunk2_size);
}

/// A header is valid exactly when its three tags, its format chunk size and
/// its audio format are those of PCM WAVE, whatever the other eight fields
/// hold.
pub proof fn lemma_valid_iff_pcm_wave(h: WaveHeader)
    ensures
        h.validation() is Ok <==> h.is_pcm_wave(),
        h.validation() is Ok <==> forall|e: ValidationError| !h.breaks(e),
{
    if h.chunk_id != RIFF_MAGIC {
        assert(h.breaks(ValidationError::BadMagic { field: Magic::Riff, found: h.chunk_id }));
    } else if h.format != WAVE_MAGIC {
        assert(h.breaks(ValidationError::BadMagic { field: Magic::Wave, found: h.format }));
    } else if h.sub_chunk1_id != FMT_MAGIC {
        assert(h.breaks(ValidationError::BadMagic { field: Magic::Fmt, found: h.sub_chunk1_id }));
    } else if h.sub_chunk1_size != PCM_FORMAT_CHUNK_SIZE {
        assert(h.breaks(ValidationError::UnexpectedFormatChunkSize { found: h.sub_chunk1_size }));
    } else if h.audio_format != PCM_AUDIO_FORMAT {
        assert(h.breaks(ValidationError::UnsupportedAudioFormat { found: h.audio_format }));
    }
}

/// A header whose container tag is not `RIFF` fails with the tag mismatch
/// that names `RIFF`, whatever its other fields hold: valid or not, they
/// change nothing.
pub proof fn lemma_bad_container_tag_is_reported(h: WaveHeader)
    requires
        h.chunk_id != RIFF_MAGIC,
    ensures
        h.validation() == Err::<(), ValidationError>(
            ValidationError::BadMagic { field: Magic::Riff, found: h.chunk_id },
        ),
{
}

/// A header that is PCM WAVE but for its audio format fails with that
/// format reported.
pub proof fn lemma_unsupported_audio_format_is_reported(h: WaveHeader)
    requires
        h.chunk_id == RIFF_MAGIC,
        h.format == WAVE_MAGIC,
        h.sub_chunk1_id == FMT_MAGIC,
        h.sub_chunk1_size == PCM_FORMAT_CHUNK_SIZE,
        h.audio_format != PCM_AUDIO_FORMAT,
    ensures
        h.validation() == Err::<(), ValidationError>(
            ValidationError::UnsupportedAudioFormat { found: h.audio_format },
        ),
{
}

/// The first check that fails decides: validation reports `e` exactly when
/// the header breaks `e` and breaks nothing that is checked before it.
pub proof fn lemma_first_failure_wins(h: WaveHeader, e: ValidationError)
    ensures
        h.validation() == Err::<(), ValidationError>(e) <==> h.breaks(e) && forall|
            o: ValidationError,
        | h.breaks(o) ==> e.check_index() <= o.check_index(),
{
    let riff = ValidationError::BadMagic { field: Magic::Riff, found: h.chunk_id };
    let wave = ValidationError::BadMagic { field: Magic::Wave, found: h.format };
    let fmt = ValidationError::BadMagic { field: Magic::Fmt, found: h.sub_chunk1_id };
    let size = ValidationError::UnexpectedFormatChunkSize { found: h.sub_chunk1_size };
    let audio = ValidationError::UnsupportedAudioFormat { found: h.audio_format };
    assert(h.breaks(riff) <==> h.chunk_id != RIFF_MAGIC);
    assert(h.breaks(wave) <==> h.format != WAVE_MAGIC);
    assert(h.breaks(fmt) <==> h.sub_chunk1_id != FMT_MAGIC);
    assert(h.breaks(size) <==> h.sub_chunk1_size != PCM_FORMAT_CHUNK_SIZE);
    assert(h.breaks(audio) <==> h.audio_format != PCM_AUDIO_FORMAT);
}

/// A stream is a short read exactly when it holds fewer than 44 bytes, and
/// the error then tells how many it holds.
pub proof fn lemma_short_read_iff_short_stream(stream: Seq<u8>)
    ensures
        stream.len() < HEADER_LEN <==> parsed(stream) matches Err(ParseError::ShortRead { .. }),
        stream.len() < HEADER_LEN ==> parsed(stream) == Err::<WaveHeader, ParseError>(
            ParseError::ShortRead { actual_length: stream.len() as usize },
        ),
        !(parsed(stream) matches Err(ParseError::Io { .. })),
{
}

/// The format chunk size of PCM is written as the bytes 16, 0, 0, 0 and its
/// audio format as the bytes 1, 0.
pub proof fn lemma_pcm_numbers_as_bytes()
    ensures
        u32_le_bytes(PCM_FORMAT_CHUNK_SIZE) == seq![16u8, 0u8, 0u8, 0u8],
        u16_le_bytes(PCM_AUDIO_FORMAT) == seq![1u8, 0u8],
{
    reveal(u32_le_bytes);
    reveal(u16_le_bytes);
}

/// The header that 44 bytes stand for is PCM WAVE exactly when the bytes
/// hold the letters `RIFF` at offset 0, `WAVE` at 8 and `fmt ` at 12, the
/// size 16 at offset 16 and the format 1 at offset 20.
pub proof fn lemma_decoded_is_pcm_wave_iff(b: Seq<u8>)
    requires
        b.len() == HEADER_LEN,
    ensures
        WaveHeader::decoded(b).is_pcm_wave() <==> {
            &&& b.subrange(0, 4) == Magic::Riff.tag()
            &&& b.subrange(8, 12) == Magic::Wave.tag()
            &&& b.subrange(12, 16) == Magic::Fmt.tag()
            &&& b.subrange(16, 20) == seq![16u8, 0u8, 0u8, 0u8]
            &&& b.subrange(20, 22) == seq![1u8, 0u8]
        },
{
    lemma_magic_decodes_from_tag_only(Magic::Riff, b.subrange(0, 4));
    lemma_magic_decodes_from_tag_only(Magic::Wave, b.subrange(8, 12));
    lemma_magic_decodes_from_tag_only(Magic::Fmt, b.subrange(12, 16));
    lemma_le_u32_one_to_one(b.subrange(16, 20), PCM_FORMAT_CHUNK_SIZE);
    lemma_le_u16_one_to_one(b.subrange(20, 22), PCM_AUDIO_FORMAT);
    lemma_pcm_numbers_as_bytes();
}

/// A stream parses exactly when it holds 44 bytes or more and starts with
/// the letters `RIFF`, holds `WAVE` and `fmt ` at offsets 8 and 12, the
/// size 16 at offset 16 and the format 1 at offset 20. What it holds
/// elsewhere decides nothing, and the header that comes out stands for its
/// first 44 bytes.
pub proof fn lemma_parse_accepts_exactly_pcm_wave(stream: Seq<u8>)
    ensures
        parsed(stream) is Ok <==> {
            &&& stream.len() >= HEADER_LEN
            &&& stream.subrange(0, 4) == Magic::Riff.tag()
            &&& stream.subrange(8, 12) == Magic::Wave.tag()
            &&& stream.subrange(12, 16) == Magic::Fmt.tag()
            &&& stream.subrange(16, 20) == seq![16u8, 0u8, 0u8, 0u8]
            &&& stream.subrange(20, 22) == seq![1u8, 0u8]
        },
        parsed(stream) matches Ok(h) ==> h.encoded() == stream.subrange(0, HEADER_LEN as int),
{
    if stream.len() >= HEADER_LEN {
        let b = stream.subrange(0, HEADER_LEN as int);
        assert(b.subrange(0, 4) =~= stream.subrange(0, 4));
        assert(b.subrange(8, 12) =~= stream.subrange(8, 12));
        assert(b.subrange(12, 16) =~= stream.subrange(12, 16));
        assert(b.subrange(16, 20) =~= stream.subrange(16, 20));
        assert(b.subrange(20, 22) =~= stream.subrange(20, 22));
        lemma_decoded_is_pcm_wave_iff(b);
        lemma_decode_then_encode(b);
    }
}

/// A stream whose first four bytes are not the letters `RIFF` fails with
/// the tag mismatch that names `RIFF`, whatever follows them.
pub proof fn lemma_parse_rejects_other_container(stream: Seq<u8>)
    requires
        stream.len() >= HEADER_LEN,
        stream.subrange(0, 4) != Magic::Riff.tag(),
    ensures
        parsed(stream) == Err::<WaveHeader, ParseError>(
            ParseError::Invalid(
                ValidationError::BadMagic {
                    field: Magic::Riff,
                    found: le_u32(stream.subrange(0, 4)),
                },
            ),
        ),
{
    let b = stream.subrange(0, HEADER_LEN as int);
    assert(b.subrange(0, 4) =~= stream.subrange(0, 4));
    lemma_magic_decodes_from_tag_only(Magic::Riff, b.subrange(0, 4));
}

/// A stream that is PCM WAVE but for the two bytes of its audio format
/// fails with the number that those bytes stand for reported as
/// unsupported.
pub proof fn lemma_parse_rejects_other_audio_format(stream: Seq<u8>)
    requires
        stream.len() >= HEADER_LEN,
        stream.subrange(0, 4) == Magic::Riff.tag(),
        stream.subrange(8, 12) == Magic::Wave.tag(),
        stream.subrange(12, 16) == Magic::Fmt.tag(),
        stream.subrange(16, 20) == seq![16u8, 0u8, 0u8, 0u8],
        stream.subrange(20, 22) != seq![1u8, 0u8],
    ensures
        parsed(stream) == Err::<WaveHeader, ParseError>(
            ParseError::Invalid(
                ValidationError::UnsupportedAudioFormat {
                    found: le_u16(stream.subrange(20, 22)),
                },
            ),
        ),
{
    let b = stream.subrange(0, HEADER_LEN as int);
    lemma_decoded_is_pcm_wave_iff(b);
    assert(b.subrange(0, 4) =~= stream.subrange(0, 4));
    assert(b.subrange(8, 12) =~= stream.subrange(8, 12));
    assert(b.subrange(12, 16) =~= stream.subrange(12, 16));
    assert(b.subrange(16, 20) =~= stream.subrange(16, 20));
    assert(b.subrange(20, 22) =~= stream.subrange(20, 22));
    lemma_pcm_numbers_as_bytes();
}

/// Parsing looks at the first 44 bytes only: what a stream holds after them
/// changes nothing.
pub proof fn lemma_parse_ignores_what_follows(stream: Seq<u8>, rest: Seq<u8>)
    requires
        stream.len() >= HEADER_LEN,
    ensures
        parsed(stream + rest) == parsed(stream),
{
    assert((stream + rest).subrange(0, HEADER_LEN as int) =~= stream.subrange(
        0,
        HEADER_LEN as int,
    ));
}

/// A read that put `count` bytes into a header-sized buffer parses as the
/// stream of those `count` bytes does.
pub proof fn lemma_read_is_stream_prefix(buf: Seq<u8>, count: usize)
    requires
        buf.len() == HEADER_LEN,
        count <= HEADER_LEN,
    ensures
        parsed_read(buf, Ok(count)) == parsed(buf.subrange(0, count as int)),
{
    if count == HEADER_LEN {
        assert(buf.subrange(0, count as int) =~= buf);
    }
}

} // verus!

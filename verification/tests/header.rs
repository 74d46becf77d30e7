use wave_header::{
    parse_read, parse_wave_header, Magic, ParseError, ValidationError, WaveHeader, FMT_MAGIC,
    HEADER_LEN, PCM_AUDIO_FORMAT, PCM_FORMAT_CHUNK_SIZE, RIFF_MAGIC, WAVE_MAGIC,
};

fn cd_header() -> WaveHeader {
    WaveHeader {
        chunk_id: RIFF_MAGIC,
        chunk_size: 36 + 1024,
        format: WAVE_MAGIC,
        sub_chunk1_id: FMT_MAGIC,
        sub_chunk1_size: 16,
        audio_format: 1,
        num_channels: 2,
        sample_rate: 44_100,
        byte_rate: 176_400,
        block_align: 4,
        bits_per_sample: 16,
        sub_chunk2_id: 0x6174_6164,
        sub_chunk2_size: 1024,
    }
}

fn bytes_of(h: &WaveHeader) -> Vec<u8> {
    let mut b: Vec<u8> = Vec::new();
    b.extend_from_slice(&h.chunk_id.to_le_bytes());
    b.extend_from_slice(&h.chunk_size.to_le_bytes());
    b.extend_from_slice(&h.format.to_le_bytes());
    b.extend_from_slice(&h.sub_chunk1_id.to_le_bytes());
    b.extend_from_slice(&h.sub_chunk1_size.to_le_bytes());
    b.extend_from_slice(&h.audio_format.to_le_bytes());
    b.extend_from_slice(&h.num_channels.to_le_bytes());
    b.extend_from_slice(&h.sample_rate.to_le_bytes());
    b.extend_from_slice(&h.byte_rate.to_le_bytes());
    b.extend_from_slice(&h.block_align.to_le_bytes());
    b.extend_from_slice(&h.bits_per_sample.to_le_bytes());
    b.extend_from_slice(&h.sub_chunk2_id.to_le_bytes());
    b.extend_from_slice(&h.sub_chunk2_size.to_le_bytes());
    b
}

fn cd_bytes() -> Vec<u8> {
    let mut b: Vec<u8> = Vec::new();
    b.extend_from_slice(b"RIFF");
    b.extend_from_slice(&[0x24, 0x04, 0x00, 0x00]);
    b.extend_from_slice(b"WAVE");
    b.extend_from_slice(b"fmt ");
    b.extend_from_slice(&[16, 0, 0, 0]);
    b.extend_from_slice(&[1, 0]);
    b.extend_from_slice(&[2, 0]);
    b.extend_from_slice(&[0x44, 0xac, 0x00, 0x00]);
    b.extend_from_slice(&[0x10, 0xb1, 0x02, 0x00]);
    b.extend_from_slice(&[4, 0]);
    b.extend_from_slice(&[16, 0]);
    b.extend_from_slice(b"data");
    b.extend_from_slice(&[0x00, 0x04, 0x00, 0x00]);
    b
}

#[test]
fn constants_are_the_tags_read_little_endian() {
    assert_eq!(HEADER_LEN, 44);
    assert_eq!(RIFF_MAGIC, u32::from_le_bytes(*b"RIFF"));
    assert_eq!(WAVE_MAGIC, u32::from_le_bytes(*b"WAVE"));
    assert_eq!(FMT_MAGIC, u32::from_le_bytes(*b"fmt "));
    assert_eq!(RIFF_MAGIC, 0x4646_4952);
    assert_eq!(WAVE_MAGIC, 0x4556_4157);
    assert_eq!(FMT_MAGIC, 0x2074_6d66);
    assert_eq!(PCM_FORMAT_CHUNK_SIZE, 16);
    assert_eq!(PCM_AUDIO_FORMAT, 1);
}

#[test]
fn magic_names_and_values() {
    assert_eq!(Magic::Riff.name(), "RIFF");
    assert_eq!(Magic::Wave.name(), "WAVE");
    assert_eq!(Magic::Fmt.name(), "fmt ");
    assert_eq!(Magic::Riff.value(), RIFF_MAGIC);
    assert_eq!(Magic::Wave.value(), WAVE_MAGIC);
    assert_eq!(Magic::Fmt.value(), FMT_MAGIC);
    for m in [Magic::Riff, Magic::Wave, Magic::Fmt] {
        let mut tag = [0u8; 4];
        tag.copy_from_slice(m.name().as_bytes());
        assert_eq!(u32::from_le_bytes(tag), m.value());
    }
}

#[test]
fn decode_reads_every_field_at_its_offset() {
    let mut b = [0u8; 44];
    for i in 0..44 {
        b[i] = (i as u8) + 1;
    }
    let h = WaveHeader::decode(&b);
    assert_eq!(h.chunk_id, 0x0403_0201);
    assert_eq!(h.chunk_size, 0x0807_0605);
    assert_eq!(h.format, 0x0c0b_0a09);
    assert_eq!(h.sub_chunk1_id, 0x100f_0e0d);
    assert_eq!(h.sub_chunk1_size, 0x1413_1211);
    assert_eq!(h.audio_format, 0x1615);
    assert_eq!(h.num_channels, 0x1817);
    assert_eq!(h.sample_rate, 0x1c1b_1a19);
    assert_eq!(h.byte_rate, 0x201f_1e1d);
    assert_eq!(h.block_align, 0x2221);
    assert_eq!(h.bits_per_sample, 0x2423);
    assert_eq!(h.sub_chunk2_id, 0x2827_2625);
    assert_eq!(h.sub_chunk2_size, 0x2c2b_2a29);
}

#[test]
fn decode_does_not_validate() {
    let h = WaveHeader::decode(&[0u8; 44]);
    assert_eq!(h.chunk_id, 0);
    assert_eq!(h.audio_format, 0);
    assert!(h.is_valid().is_err());
}

#[test]
fn decode_then_encode_gives_the_header_bytes_back() {
    let b = cd_bytes();
    assert_eq!(b.len(), 44);
    assert_eq!(bytes_of(&WaveHeader::decode(&b)), b);
    let mut c = [0u8; 44];
    for i in 0..44 {
        c[i] = 255 - (i as u8) * 3;
    }
    assert_eq!(bytes_of(&WaveHeader::decode(&c)), c.to_vec());
    assert_eq!(WaveHeader::decode(&bytes_of(&cd_header())), cd_header());
}

#[test]
fn pcm_header_validates() {
    assert_eq!(cd_header().is_valid(), Ok(()));
}

#[test]
fn pcm_header_validates_whatever_the_free_fields_hold() {
    for channels in [0u16, 1, 2, 6, u16::MAX] {
        for rate in [0u32, 8_000, 44_100, 192_000, u32::MAX] {
            for bits in [0u16, 8, 16, 24, 32, u16::MAX] {
                let mut h = cd_header();
                h.num_channels = channels;
                h.sample_rate = rate;
                h.bits_per_sample = bits;
                assert_eq!(h.is_valid(), Ok(()));
                assert_eq!(parse_wave_header(&bytes_of(&h)), Ok(h));
            }
        }
    }
    let mut h = cd_header();
    h.chunk_size = 0;
    h.byte_rate = 1;
    h.block_align = 3;
    h.sub_chunk2_size = u32::MAX;
    assert_eq!(h.is_valid(), Ok(()));
}

#[test]
fn data_chunk_tag_is_not_checked() {
    let mut h = cd_header();
    h.sub_chunk2_id = u32::from_le_bytes(*b"LIST");
    h.sub_chunk2_size = 0;
    assert_eq!(h.is_valid(), Ok(()));
    assert_eq!(parse_wave_header(&bytes_of(&h)), Ok(h));
}

#[test]
fn altered_container_tag_is_a_riff_mismatch() {
    let mut b = cd_bytes();
    b[3] = b'X';
    let found = u32::from_le_bytes(*b"RIFX");
    assert_eq!(
        WaveHeader::decode(&b).is_valid(),
        Err(ValidationError::BadMagic { field: Magic::Riff, found })
    );
    assert_eq!(
        parse_wave_header(&b),
        Err(ParseError::Invalid(ValidationError::BadMagic { field: Magic::Riff, found }))
    );
    match parse_wave_header(&b) {
        Err(ParseError::Invalid(ValidationError::BadMagic { field, found })) => {
            assert_eq!(field.name(), "RIFF");
            assert_eq!(found, 0x5846_4952);
        }
        other => panic!("not a tag mismatch: {:?}", other),
    }
}

#[test]
fn big_endian_container_tag_is_a_riff_mismatch() {
    let mut h = cd_header();
    h.chunk_id = 0x5249_4646;
    assert_eq!(
        h.is_valid(),
        Err(ValidationError::BadMagic { field: Magic::Riff, found: 0x5249_4646 })
    );
}

#[test]
fn first_failing_check_is_the_one_reported() {
    let mut h = cd_header();
    h.chunk_id = 0;
    h.format = 0;
    assert_eq!(h.is_valid(), Err(ValidationError::BadMagic { field: Magic::Riff, found: 0 }));
    assert_ne!(h.is_valid(), Err(ValidationError::BadMagic { field: Magic::Wave, found: 0 }));

    let mut all_wrong = cd_header();
    all_wrong.chunk_id = 1;
    all_wrong.format = 2;
    all_wrong.sub_chunk1_id = 3;
    all_wrong.sub_chunk1_size = 4;
    all_wrong.audio_format = 5;
    assert_eq!(
        all_wrong.is_valid(),
        Err(ValidationError::BadMagic { field: Magic::Riff, found: 1 })
    );
    all_wrong.chunk_id = RIFF_MAGIC;
    assert_eq!(
        all_wrong.is_valid(),
        Err(ValidationError::BadMagic { field: Magic::Wave, found: 2 })
    );
    all_wrong.format = WAVE_MAGIC;
    assert_eq!(
        all_wrong.is_valid(),
        Err(ValidationError::BadMagic { field: Magic::Fmt, found: 3 })
    );
    all_wrong.sub_chunk1_id = FMT_MAGIC;
    assert_eq!(
        all_wrong.is_valid(),
        Err(ValidationError::UnexpectedFormatChunkSize { found: 4 })
    );
    all_wrong.sub_chunk1_size = 16;
    assert_eq!(all_wrong.is_valid(), Err(ValidationError::UnsupportedAudioFormat { found: 5 }));
    all_wrong.audio_format = 1;
    assert_eq!(all_wrong.is_valid(), Ok(()));
}

#[test]
fn both_tags_wrong_in_a_buffer_reports_riff_only() {
    let mut b = cd_bytes();
    b[0..4].copy_from_slice(b"FFIR");
    b[8..12].copy_from_slice(b"AVI ");
    assert_eq!(
        parse_wave_header(&b),
        Err(ParseError::Invalid(ValidationError::BadMagic {
            field: Magic::Riff,
            found: u32::from_le_bytes(*b"FFIR"),
        }))
    );
}

#[test]
fn wrong_form_tag_is_a_wave_mismatch() {
    let mut b = cd_bytes();
    b[8..12].copy_from_slice(b"AVI ");
    assert_eq!(
        parse_wave_header(&b),
        Err(ParseError::Invalid(ValidationError::BadMagic {
            field: Magic::Wave,
            found: u32::from_le_bytes(*b"AVI "),
        }))
    );
}

#[test]
fn wrong_format_chunk_tag_is_a_fmt_mismatch() {
    let mut b = cd_bytes();
    b[12..16].copy_from_slice(b"fmt\0");
    assert_eq!(
        parse_wave_header(&b),
        Err(ParseError::Invalid(ValidationError::BadMagic {
            field: Magic::Fmt,
            found: 0x0074_6d66,
        }))
    );
}

#[test]
fn extended_format_chunk_is_rejected() {
    let mut h = cd_header();
    h.sub_chunk1_size = 18;
    assert_eq!(h.is_valid(), Err(ValidationError::UnexpectedFormatChunkSize { found: 18 }));
    h.sub_chunk1_size = 40;
    h.audio_format = 0xfffe;
    assert_eq!(h.is_valid(), Err(ValidationError::UnexpectedFormatChunkSize { found: 40 }));
}

#[test]
fn ieee_float_format_is_unsupported() {
    let mut b = cd_bytes();
    b[20] = 3;
    assert_eq!(
        WaveHeader::decode(&b).is_valid(),
        Err(ValidationError::UnsupportedAudioFormat { found: 3 })
    );
    assert_eq!(
        parse_wave_header(&b),
        Err(ParseError::Invalid(ValidationError::UnsupportedAudioFormat { found: 3 }))
    );
}

#[test]
fn audio_format_zero_and_high_byte_are_unsupported() {
    let mut h = cd_header();
    h.audio_format = 0;
    assert_eq!(h.is_valid(), Err(ValidationError::UnsupportedAudioFormat { found: 0 }));
    h.audio_format = 0x0101;
    assert_eq!(h.is_valid(), Err(ValidationError::UnsupportedAudioFormat { found: 0x0101 }));
}

#[test]
fn thirty_bytes_are_a_short_read() {
    let b = cd_bytes();
    assert_eq!(parse_wave_header(&b[..30]), Err(ParseError::ShortRead { actual_length: 30 }));
}

#[test]
fn every_shorter_stream_is_a_short_read_of_its_length() {
    let b = cd_bytes();
    for n in 0..44 {
        assert_eq!(parse_wave_header(&b[..n]), Err(ParseError::ShortRead { actual_length: n }));
    }
    assert_eq!(parse_wave_header(&[]), Err(ParseError::ShortRead { actual_length: 0 }));
}

#[test]
fn short_read_comes_before_validation() {
    let garbage = [0xffu8; 43];
    assert_eq!(parse_wave_header(&garbage), Err(ParseError::ShortRead { actual_length: 43 }));
}

#[test]
fn parse_gives_the_decoded_header() {
    assert_eq!(parse_wave_header(&cd_bytes()), Ok(cd_header()));
    assert_eq!(bytes_of(&cd_header()), cd_bytes());
}

#[test]
fn parse_looks_at_the_first_44_bytes_only() {
    let mut b = cd_bytes();
    b.extend_from_slice(&[0xde, 0xad, 0xbe, 0xef, 0, 1, 2, 3]);
    assert_eq!(parse_wave_header(&b), Ok(cd_header()));
    let mut bad = cd_bytes();
    bad[20] = 7;
    bad.extend_from_slice(&[0u8; 100]);
    assert_eq!(
        parse_wave_header(&bad),
        Err(ParseError::Invalid(ValidationError::UnsupportedAudioFormat { found: 7 }))
    );
}

#[test]
fn failed_read_is_an_io_error() {
    let buf = [0u8; 44];
    assert_eq!(
        parse_read(&buf, Err(String::from("broken pipe"))),
        Err(ParseError::Io { message: String::from("broken pipe") })
    );
    let mut full = [0u8; 44];
    full.copy_from_slice(&cd_bytes());
    assert_eq!(
        parse_read(&full, Err(String::new())),
        Err(ParseError::Io { message: String::new() })
    );
}

#[test]
fn read_of_another_count_is_a_short_read() {
    let mut buf = [0u8; 44];
    buf.copy_from_slice(&cd_bytes());
    assert_eq!(parse_read(&buf, Ok(30)), Err(ParseError::ShortRead { actual_length: 30 }));
    assert_eq!(parse_read(&buf, Ok(0)), Err(ParseError::ShortRead { actual_length: 0 }));
    assert_eq!(parse_read(&buf, Ok(43)), Err(ParseError::ShortRead { actual_length: 43 }));
    assert_eq!(parse_read(&buf, Ok(45)), Err(ParseError::ShortRead { actual_length: 45 }));
}

#[test]
fn read_of_44_bytes_is_parsed() {
    let mut buf = [0u8; 44];
    buf.copy_from_slice(&cd_bytes());
    assert_eq!(parse_read(&buf, Ok(44)), Ok(cd_header()));
    buf[0] = b'r';
    assert_eq!(
        parse_read(&buf, Ok(44)),
        Err(ParseError::Invalid(ValidationError::BadMagic {
            field: Magic::Riff,
            found: u32::from_le_bytes(*b"rIFF"),
        }))
    );
}

#[test]
fn read_agrees_with_the_stream_of_what_was_read() {
    let mut buf = [0u8; 44];
    buf.copy_from_slice(&cd_bytes());
    for n in 0..=44usize {
        assert_eq!(parse_read(&buf, Ok(n)), parse_wave_header(&buf[..n]));
    }
}

#[test]
fn parse_error_clone_is_equal() {
    let errors = [
        ParseError::Io { message: String::from("device gone") },
        ParseError::ShortRead { actual_length: 12 },
        ParseError::Invalid(ValidationError::UnexpectedFormatChunkSize { found: 18 }),
    ];
    for e in errors.iter() {
        assert_eq!(&e.clone(), e);
    }
}

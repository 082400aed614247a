use pinion::{
    accept_block, build_image, decompress, parse_header, payload_size, read_lz4i, ChannelLayout,
    ContainerHeader, FormatError, HEADER_SIZE, SIGNATURE,
};

fn container(width: u32, height: u32, channels: u8, payload: &[u8]) -> Vec<u8> {
    let mut bytes = Vec::new();
    bytes.extend_from_slice(&SIGNATURE);
    bytes.extend_from_slice(&width.to_be_bytes());
    bytes.extend_from_slice(&height.to_be_bytes());
    bytes.push(channels);
    bytes.push(0);
    bytes.extend_from_slice(payload);
    bytes
}

fn header(width: u32, height: u32, channels: u8) -> ContainerHeader {
    ContainerHeader { signature: SIGNATURE, width, height, channels, colorspace: 0 }
}

fn pixels(len: usize) -> Vec<u8> {
    (0..len).map(|i| (i * 7 + 1) as u8).collect()
}

fn compress(raw: &[u8]) -> Vec<u8> {
    lz4::block::compress(raw, None, false).unwrap()
}

#[test]
fn signature_is_ascii_lz4i() {
    assert_eq!(&SIGNATURE, b"lz4i");
    assert_eq!(HEADER_SIZE, 14);
}

#[test]
fn header_fields_are_big_endian() {
    let mut bytes = container(0x0102_0304, 0x0a0b_0c0d, 3, &[]);
    bytes[13] = 0x7f;
    assert_eq!(
        parse_header(&bytes),
        Ok(ContainerHeader {
            signature: *b"lz4i",
            width: 0x0102_0304,
            height: 0x0a0b_0c0d,
            channels: 3,
            colorspace: 0x7f,
        })
    );
}

#[test]
fn header_of_exactly_fourteen_bytes_parses() {
    let bytes = container(1, 2, 4, &[]);
    assert_eq!(bytes.len(), 14);
    assert_eq!(parse_header(&bytes), Ok(header(1, 2, 4)));
}

#[test]
fn short_input_is_truncated() {
    assert_eq!(parse_header(&[]), Err(FormatError::Truncated { available: 0 }));
    assert_eq!(read_lz4i(b"lz4i").unwrap_err(), FormatError::Truncated { available: 4 });
    let bytes = container(1, 1, 3, &[]);
    assert_eq!(
        read_lz4i(&bytes[..13]).unwrap_err(),
        FormatError::Truncated { available: 13 }
    );
}

#[test]
fn short_input_with_wrong_signature_is_truncated() {
    assert_eq!(read_lz4i(b"abcd").unwrap_err(), FormatError::Truncated { available: 4 });
}

#[test]
fn wrong_signature_is_refused_whatever_follows() {
    let good = container(2, 3, 3, &compress(&pixels(18)));
    for at in 0..4 {
        let mut bytes = good.clone();
        bytes[at] ^= 0x20;
        assert_eq!(parse_header(&bytes), Err(FormatError::InvalidSignature));
        assert_eq!(read_lz4i(&bytes).unwrap_err(), FormatError::InvalidSignature);
    }
    let mut bytes = vec![0xffu8; 64];
    bytes[..4].copy_from_slice(b"LZ4I");
    assert_eq!(read_lz4i(&bytes).unwrap_err(), FormatError::InvalidSignature);
}

#[test]
fn wrong_signature_comes_before_bad_channels() {
    let mut bytes = container(1, 1, 9, &[]);
    bytes[0] = b'L';
    assert_eq!(read_lz4i(&bytes).unwrap_err(), FormatError::InvalidSignature);
}

#[test]
fn one_and_five_channels_are_unsupported() {
    for channels in [1u8, 5u8] {
        let bytes = container(1, 1, channels, &compress(&pixels(channels as usize)));
        assert_eq!(parse_header(&bytes), Err(FormatError::UnsupportedChannels { channels }));
        assert_eq!(
            read_lz4i(&bytes).unwrap_err(),
            FormatError::UnsupportedChannels { channels }
        );
    }
}

#[test]
fn every_other_channel_count_is_unsupported() {
    for channels in 0..=255u8 {
        let parsed = parse_header(&container(1, 1, channels, &[]));
        if channels == 3 || channels == 4 {
            assert_eq!(parsed, Ok(header(1, 1, channels)));
        } else {
            assert_eq!(parsed, Err(FormatError::UnsupportedChannels { channels }));
        }
    }
}

#[test]
fn payload_size_is_the_product() {
    assert_eq!(payload_size(&header(640, 480, 3)), Ok(921_600));
    assert_eq!(payload_size(&header(2, 3, 4)), Ok(24));
    assert_eq!(payload_size(&header(0, 7, 3)), Ok(0));
    assert_eq!(payload_size(&header(7, 0, 4)), Ok(0));
}

#[test]
fn largest_header_overflows() {
    let overflow =
        FormatError::SizeOverflow { width: 0xFFFF_FFFF, height: 0xFFFF_FFFF, channels: 4 };
    assert_eq!(payload_size(&header(0xFFFF_FFFF, 0xFFFF_FFFF, 4)), Err(overflow));
    let bytes = container(0xFFFF_FFFF, 0xFFFF_FFFF, 4, &[0]);
    assert_eq!(read_lz4i(&bytes).unwrap_err(), overflow);
}

#[test]
fn pixel_count_that_overflows_is_refused_with_no_channels() {
    // Every multiplication is checked: the pixel count decides before the channels.
    let wide = usize::MAX as u128;
    let side = 0xFFFF_FFFFu32;
    if (side as u128) * (side as u128) > wide {
        assert_eq!(
            payload_size(&header(side, side, 0)),
            Err(FormatError::SizeOverflow { width: side, height: side, channels: 0 })
        );
    } else {
        assert_eq!(payload_size(&header(side, side, 0)), Ok(0));
        assert_eq!(payload_size(&header(side, side, 1)), Ok(side as usize * side as usize));
    }
}

#[test]
fn accept_block_takes_only_the_exact_count() {
    let buffer = pixels(6);
    assert_eq!(accept_block(Some(6), buffer.clone(), 6), Ok(buffer.clone()));
    assert_eq!(
        accept_block(Some(5), buffer.clone(), 6),
        Err(FormatError::DecompressionFailed { expected: 6, written: Some(5) })
    );
    assert_eq!(
        accept_block(Some(7), buffer.clone(), 6),
        Err(FormatError::DecompressionFailed { expected: 6, written: Some(7) })
    );
    assert_eq!(
        accept_block(None, buffer, 6),
        Err(FormatError::DecompressionFailed { expected: 6, written: None })
    );
}

#[test]
fn accept_block_refuses_a_count_of_zero() {
    assert_eq!(
        accept_block(Some(0), Vec::new(), 0),
        Err(FormatError::DecompressionFailed { expected: 0, written: Some(0) })
    );
    assert_eq!(
        accept_block(Some(0), pixels(3), 3),
        Err(FormatError::DecompressionFailed { expected: 3, written: Some(0) })
    );
}

#[test]
fn decompress_gives_back_what_was_compressed() {
    let raw = pixels(300);
    assert_eq!(decompress(&compress(&raw), 300), Ok(raw));
}

#[test]
fn decompress_of_repeated_bytes() {
    let raw = vec![0xabu8; 4096];
    let compressed = compress(&raw);
    assert!(compressed.len() < raw.len());
    assert_eq!(decompress(&compressed, 4096), Ok(raw));
}

#[test]
fn decompress_refuses_a_shorter_block() {
    let compressed = compress(&pixels(9));
    assert_eq!(
        decompress(&compressed, 12),
        Err(FormatError::DecompressionFailed { expected: 12, written: Some(9) })
    );
}

#[test]
fn decompress_refuses_a_longer_block() {
    let compressed = compress(&pixels(12));
    assert_eq!(
        decompress(&compressed, 9),
        Err(FormatError::DecompressionFailed { expected: 9, written: None })
    );
}

#[test]
fn decompress_refuses_a_malformed_block() {
    assert_eq!(
        decompress(&[0xff, 0xff, 0xff], 16),
        Err(FormatError::DecompressionFailed { expected: 16, written: None })
    );
    assert_eq!(
        decompress(&[], 16),
        Err(FormatError::DecompressionFailed { expected: 16, written: None })
    );
}

#[test]
fn decompress_refuses_an_empty_payload() {
    // One zero token is a well-formed block of no bytes.
    assert_eq!(
        decompress(&[0], 0),
        Err(FormatError::DecompressionFailed { expected: 0, written: Some(0) })
    );
}

#[test]
fn decompress_refuses_what_no_buffer_can_hold() {
    let expected = i32::MAX as usize + 1;
    assert_eq!(
        decompress(&[0], expected),
        Err(FormatError::DecompressionFailed { expected, written: None })
    );
}

#[test]
fn build_image_picks_the_layout() {
    let rgb = build_image(&header(2, 3, 3), pixels(18)).unwrap();
    assert_eq!(rgb.layout(), ChannelLayout::Rgb8);
    assert_eq!(rgb.layout().channels(), 3);
    assert_eq!((rgb.width(), rgb.height()), (2, 3));
    assert_eq!(rgb.data(), &pixels(18));
    let rgba = build_image(&header(2, 3, 4), pixels(24)).unwrap();
    assert_eq!(rgba.layout(), ChannelLayout::Rgba8);
    assert_eq!(rgba.layout().channels(), 4);
    assert_eq!(rgba.into_raw(), pixels(24));
}

#[test]
fn build_image_refuses_another_length() {
    assert_eq!(
        build_image(&header(2, 3, 3), pixels(17)).unwrap_err(),
        FormatError::BufferLengthMismatch { expected: 18, actual: 17 }
    );
    assert_eq!(
        build_image(&header(2, 3, 4), pixels(25)).unwrap_err(),
        FormatError::BufferLengthMismatch { expected: 24, actual: 25 }
    );
}

#[test]
fn build_image_refuses_other_channels_and_overflow() {
    assert_eq!(
        build_image(&header(2, 3, 2), pixels(12)).unwrap_err(),
        FormatError::UnsupportedChannels { channels: 2 }
    );
    assert_eq!(
        build_image(&header(0xFFFF_FFFF, 0xFFFF_FFFF, 4), pixels(4)).unwrap_err(),
        FormatError::SizeOverflow { width: 0xFFFF_FFFF, height: 0xFFFF_FFFF, channels: 4 }
    );
}

#[test]
fn build_image_of_no_pixels() {
    let empty = build_image(&header(0, 5, 3), Vec::new()).unwrap();
    assert_eq!((empty.width(), empty.height()), (0, 5));
    assert!(empty.data().is_empty());
}

#[test]
fn cloned_image_is_equal() {
    let image = build_image(&header(1, 2, 3), pixels(6)).unwrap();
    let copy = image.clone();
    assert_eq!(copy, image);
    assert_eq!(copy.into_raw(), pixels(6));
}

#[test]
fn rgb_round_trip() {
    let raw = pixels(2 * 3 * 3);
    let image = read_lz4i(&container(2, 3, 3, &compress(&raw))).unwrap();
    assert_eq!(image.width(), 2);
    assert_eq!(image.height(), 3);
    assert_eq!(image.layout(), ChannelLayout::Rgb8);
    assert_eq!(image.data(), &raw);
}

#[test]
fn rgba_round_trip() {
    let raw = pixels(5 * 4 * 4);
    let image = read_lz4i(&container(5, 4, 4, &compress(&raw))).unwrap();
    assert_eq!((image.width(), image.height()), (5, 4));
    assert_eq!(image.layout(), ChannelLayout::Rgba8);
    assert_eq!(image.data().len(), 80);
    assert_eq!(image.into_raw(), raw);
}

#[test]
fn larger_round_trip() {
    let raw: Vec<u8> = (0..64 * 48 * 3).map(|i| ((i / 5) % 251) as u8).collect();
    let image = read_lz4i(&container(64, 48, 3, &compress(&raw))).unwrap();
    assert_eq!(image.data(), &raw);
}

#[test]
fn payload_of_another_size_fails_the_decode() {
    let bytes = container(2, 2, 3, &compress(&pixels(9)));
    assert_eq!(
        read_lz4i(&bytes).unwrap_err(),
        FormatError::DecompressionFailed { expected: 12, written: Some(9) }
    );
    let bytes = container(2, 2, 3, &compress(&pixels(16)));
    assert_eq!(
        read_lz4i(&bytes).unwrap_err(),
        FormatError::DecompressionFailed { expected: 12, written: None }
    );
}

#[test]
fn missing_payload_fails_the_decode() {
    assert_eq!(
        read_lz4i(&container(2, 2, 3, &[])).unwrap_err(),
        FormatError::DecompressionFailed { expected: 12, written: None }
    );
}

#[test]
fn image_of_no_pixels_does_not_decode() {
    assert_eq!(
        read_lz4i(&container(0, 1, 3, &[0])).unwrap_err(),
        FormatError::DecompressionFailed { expected: 0, written: Some(0) }
    );
}

#[test]
fn decoding_twice_gives_the_same_image() {
    let bytes = container(3, 3, 4, &compress(&pixels(36)));
    assert_eq!(read_lz4i(&bytes), read_lz4i(&bytes));
}

use glycin::change_memory_format::{change_memory_format as convert, is_convertible};
use glycin::editing::EditingError;
use glycin::frame::{BinaryData, Frame};
use glycin::memory_format::{MemoryFormat, MemoryFormatInfo};
use glycin::pixel::{decode_pixel, encode_pixel, Rgba};

fn frame(width: u32, height: u32, format: MemoryFormat) -> Frame {
    Frame::new(width, height, format, BinaryData::from_data(vec![])).unwrap()
}

fn integer_formats() -> Vec<MemoryFormat> {
    (0..23)
        .map(|n| MemoryFormat::from_number(n).unwrap())
        .filter(|f| is_convertible(*f))
        .collect()
}

/// Whether pixels of `from` lose nothing in `to`.
fn widens(from: MemoryFormat, to: MemoryFormat) -> bool {
    !from.is_premultiplied()
        && !to.is_premultiplied()
        && (!from.has_alpha() || to.has_alpha())
        && (!to.is_grayscale() || from.is_grayscale())
        && (to.channel_type().n_bytes() >= from.channel_type().n_bytes())
}

#[test]
fn test() {
    let img_buf = vec![
        255, 0, 2, 2, 3, 3, 4, 4, 5, 5, 6, 6, 7, 7, 8, 8, 9, 9, 10, 10, 0, 11, 0, 12,
    ];
    let mut frame = Frame::new(
        2,
        2,
        MemoryFormat::R16g16b16,
        BinaryData::from_data(vec![]),
    )
    .unwrap();
    let x = convert(img_buf, &mut frame, MemoryFormat::R8g8b8).unwrap();
    assert_eq!(x.as_slice(), &[1, 2, 3, 4, 5, 6, 7, 8, 9, 10, 11, 12]);
    assert_eq!(frame.stride, 6);
    assert_eq!(frame.memory_format, MemoryFormat::R8g8b8);
}

#[test]
fn change_memory_format() {
    // a color image and an image of gray with alpha in 16 bits
    let sources = [
        (MemoryFormat::R8g8b8a8, vec![255u8, 0, 0, 255, 0, 255, 0, 128]),
        (MemoryFormat::G16a16, vec![0u8, 128, 255, 255, 255, 255, 0, 0]),
    ];
    for (source, pixels) in sources {
        for memory_format in [
            MemoryFormat::A8b8g8r8,
            MemoryFormat::R8g8b8,
            MemoryFormat::R16g16b16,
        ] {
            let mut converted = frame(2, 1, source);
            let new = convert(pixels.clone(), &mut converted, memory_format).unwrap();
            assert_eq!(converted.memory_format, memory_format);
            assert_eq!(new.len(), 2 * memory_format.n_bytes().usize());
            assert_eq!(converted.stride, 2 * memory_format.n_bytes().u32());
        }
    }
}

#[test]
fn red_pixel_to_rgb() {
    let mut red = frame(1, 1, MemoryFormat::R8g8b8a8);
    let new = convert(vec![0xff, 0x00, 0x00, 0xff], &mut red, MemoryFormat::R8g8b8).unwrap();
    assert_eq!(new, vec![0xff, 0x00, 0x00]);
    assert_eq!((red.width, red.height, red.stride), (1, 1, 3));
}

#[test]
fn same_format_hands_buffer_back() {
    let buf = vec![1, 2, 3, 99, 4, 5, 6, 99];
    let mut padded = Frame {
        stride: 4,
        ..frame(1, 2, MemoryFormat::R8g8b8)
    };
    let new = convert(buf.clone(), &mut padded, MemoryFormat::R8g8b8).unwrap();
    assert_eq!(new, buf);
    assert_eq!(padded.stride, 4);
}

#[test]
fn conversion_drops_padding() {
    let buf = vec![1, 2, 3, 99, 4, 5, 6, 99];
    let mut padded = Frame {
        stride: 4,
        ..frame(1, 2, MemoryFormat::R8g8b8)
    };
    let new = convert(buf, &mut padded, MemoryFormat::B8g8r8).unwrap();
    assert_eq!(new, vec![3, 2, 1, 6, 5, 4]);
    assert_eq!(padded.stride, 3);
}

#[test]
fn channel_orders() {
    let rgba = vec![1u8, 2, 3, 4];
    for (target, expected) in [
        (MemoryFormat::B8g8r8a8, vec![3u8, 2, 1, 4]),
        (MemoryFormat::A8r8g8b8, vec![4, 1, 2, 3]),
        (MemoryFormat::A8b8g8r8, vec![4, 3, 2, 1]),
        (MemoryFormat::B8g8r8, vec![3, 2, 1]),
        (MemoryFormat::R16g16b16a16, vec![1, 1, 2, 2, 3, 3, 4, 4]),
    ] {
        let mut source = frame(1, 1, MemoryFormat::R8g8b8a8);
        assert_eq!(convert(rgba.clone(), &mut source, target).unwrap(), expected);
    }
}

#[test]
fn gray_is_weighted() {
    // 299, 587 and 114 parts in a thousand
    for (rgb, gray) in [
        ([255u8, 0, 0], 76u8),
        ([0, 255, 0], 150),
        ([0, 0, 255], 29),
        ([255, 255, 255], 255),
        ([10, 10, 10], 10),
    ] {
        let mut source = frame(1, 1, MemoryFormat::R8g8b8);
        assert_eq!(convert(rgb.to_vec(), &mut source, MemoryFormat::G8).unwrap(), vec![gray]);
    }
    let mut source = frame(1, 1, MemoryFormat::G8);
    assert_eq!(
        convert(vec![7], &mut source, MemoryFormat::R8g8b8a8).unwrap(),
        vec![7, 7, 7, 255]
    );
}

#[test]
fn premultiplication() {
    // half transparent red
    let mut source = frame(1, 1, MemoryFormat::R8g8b8a8);
    assert_eq!(
        convert(vec![255, 100, 0, 128], &mut source, MemoryFormat::R8g8b8a8Premultiplied).unwrap(),
        vec![128, 50, 0, 128]
    );
    let mut source = frame(1, 1, MemoryFormat::R8g8b8a8Premultiplied);
    assert_eq!(
        convert(vec![128, 50, 0, 128], &mut source, MemoryFormat::R8g8b8a8).unwrap(),
        vec![255, 100, 0, 128]
    );
    // nothing shines through nothing
    let mut source = frame(1, 1, MemoryFormat::R8g8b8a8Premultiplied);
    assert_eq!(
        convert(vec![9, 9, 9, 0], &mut source, MemoryFormat::R8g8b8a8).unwrap(),
        vec![0, 0, 0, 0]
    );
}

#[test]
fn depth_is_rounded() {
    let mut decoded = Vec::new();
    for value in [0u16, 127, 128, 129, 255, 32767, 32768, 65406, 65407, 65535] {
        let buf = vec![(value % 256) as u8, (value / 256) as u8];
        let mut source = frame(1, 1, MemoryFormat::G16);
        let new = convert(buf, &mut source, MemoryFormat::G8).unwrap();
        let expected = (value as f64 * 255.0 / 65535.0).round() as u8;
        assert_eq!(new, vec![expected], "{value}");
        decoded.push(new[0]);
    }
    assert_eq!(decoded, vec![0, 0, 0, 1, 1, 127, 128, 254, 255, 255]);
}

#[test]
fn widening_round_trips_are_exact() {
    let samples: [u8; 8] = [0, 255, 1, 254, 127, 128, 200, 13];
    for from in integer_formats() {
        for to in integer_formats() {
            if from == to || !widens(from, to) {
                continue;
            }
            let size = from.n_bytes().usize();
            let mut pixels = Vec::new();
            for pixel in 0..3usize {
                for byte in 0..size {
                    pixels.push(samples[(pixel * 3 + byte) % samples.len()]);
                }
            }
            let mut there = frame(3, 1, from);
            let wide = convert(pixels.clone(), &mut there, to).unwrap();
            let back = convert(wide, &mut there, from).unwrap();
            assert_eq!(back, pixels, "{from:?} -> {to:?}");
            assert_eq!(there.memory_format, from);
        }
    }
}

#[test]
fn narrowing_round_trip_stays_close() {
    for value in [0u16, 1, 128, 129, 1000, 40000, 65535] {
        let buf = vec![(value % 256) as u8, (value / 256) as u8];
        let mut source = frame(1, 1, MemoryFormat::G16);
        let narrow = convert(buf, &mut source, MemoryFormat::G8).unwrap();
        let back = convert(narrow, &mut source, MemoryFormat::G16).unwrap();
        let again = back[0] as i32 + 256 * back[1] as i32;
        assert!((again - value as i32).abs() <= 128, "{value} -> {again}");
    }
}

#[test]
fn float_formats_are_not_converted() {
    let mut source = frame(1, 1, MemoryFormat::R32g32b32Float);
    assert_eq!(
        convert(vec![0; 12], &mut source, MemoryFormat::R8g8b8),
        Err(EditingError::UnsupportedFormat)
    );
    let mut source = frame(1, 1, MemoryFormat::R8g8b8);
    assert_eq!(
        convert(vec![0; 3], &mut source, MemoryFormat::R16g16b16Float),
        Err(EditingError::UnsupportedFormat)
    );
    assert_eq!(source.memory_format, MemoryFormat::R8g8b8);
    assert!(!is_convertible(MemoryFormat::R16g16b16a16Float));
    assert!(is_convertible(MemoryFormat::G16a16Premultiplied));
}

#[test]
fn conversion_errors() {
    // the rows of the result are longer than a stride can say
    let mut wide = Frame {
        stride: u32::MAX,
        ..frame(1 << 30, 0, MemoryFormat::G8)
    };
    assert_eq!(
        convert(vec![], &mut wide, MemoryFormat::R16g16b16a16),
        Err(EditingError::Math)
    );
    // the buffer does not hold the frame
    let mut short = frame(2, 2, MemoryFormat::R8g8b8);
    assert_eq!(
        convert(vec![0; 11], &mut short, MemoryFormat::G8),
        Err(EditingError::OutOfBounds)
    );
    assert_eq!(short.memory_format, MemoryFormat::R8g8b8);
}

#[test]
fn single_pixels() {
    let buf = vec![9, 0x34, 0x12, 0xff, 0xff];
    let pixel = decode_pixel(MemoryFormat::G16a16, &buf, 1);
    assert_eq!(
        pixel,
        Rgba { red: 0x1234, green: 0x1234, blue: 0x1234, alpha: 0xffff }
    );
    let mut out = vec![7];
    encode_pixel(MemoryFormat::A8r8g8b8, Rgba { red: 257, green: 514, blue: 0, alpha: 65535 }, &mut out);
    assert_eq!(out, vec![7, 255, 1, 2, 0]);
}

#[test]
fn multiplied_colors_are_found_again() {
    // every color from nothing up to alpha, for some alphas of 8 bits
    for alpha in [0u8, 1, 2, 3, 100, 127, 128, 254, 255] {
        for color in 0..=alpha {
            let pixel = vec![color, alpha / 2, 0, alpha];
            let mut there = frame(1, 1, MemoryFormat::R8g8b8a8Premultiplied);
            let wide = convert(pixel.clone(), &mut there, MemoryFormat::R16g16b16a16).unwrap();
            let back = convert(wide, &mut there, MemoryFormat::R8g8b8a8Premultiplied).unwrap();
            assert_eq!(back, pixel, "{color} of {alpha}");
        }
    }
    // gray with alpha, in 16 bits
    for (gray, alpha) in [(0u16, 0u16), (1, 1), (7, 300), (300, 300), (40_000, 65_535)] {
        let pixel = [gray.to_le_bytes(), alpha.to_le_bytes()].concat();
        let mut there = frame(1, 1, MemoryFormat::G16a16Premultiplied);
        let wide = convert(pixel.clone(), &mut there, MemoryFormat::R16g16b16a16).unwrap();
        let back = convert(wide, &mut there, MemoryFormat::G16a16Premultiplied).unwrap();
        assert_eq!(back, pixel, "{gray} of {alpha}");
    }
    // a color above its alpha stands for no color, and is not found again
    let pixel = vec![200, 0, 0, 100];
    let mut there = frame(1, 1, MemoryFormat::R8g8b8a8Premultiplied);
    let wide = convert(pixel.clone(), &mut there, MemoryFormat::R16g16b16a16).unwrap();
    let back = convert(wide, &mut there, MemoryFormat::R8g8b8a8Premultiplied).unwrap();
    assert_eq!(back, vec![100, 0, 0, 100]);
}

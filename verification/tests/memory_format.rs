use glycin::memory_format::{
    ChannelType, ExtendedMemoryFormat, MemoryFormat, MemoryFormatBytes, MemoryFormatInfo,
};

fn all_formats() -> Vec<MemoryFormat> {
    (0..23).map(|n| MemoryFormat::from_number(n).unwrap()).collect()
}

#[test]
fn bytes_per_pixel_of_rgba() {
    assert_eq!(MemoryFormat::R8g8b8a8.n_bytes().u32(), 4);
    assert_eq!(MemoryFormat::R8g8b8a8.n_channels(), 4);
    assert!(MemoryFormat::R8g8b8a8.has_alpha());
    assert!(!MemoryFormat::R8g8b8a8.is_premultiplied());
    assert_eq!(MemoryFormatBytes::B12.usize(), 12);
}

#[test]
fn there_are_23_formats() {
    assert_eq!(all_formats().len(), 23);
    assert_eq!(MemoryFormat::from_number(23), None);
    for (n, format) in all_formats().into_iter().enumerate() {
        assert_eq!(format.to_number() as usize, n);
    }
    assert_eq!(MemoryFormat::B8g8r8a8Premultiplied.to_number(), 0);
    assert_eq!(MemoryFormat::R8g8b8.to_number(), 7);
    assert_eq!(MemoryFormat::G16.to_number(), 22);
}

#[test]
fn bytes_of_every_format() {
    let expected: [u32; 23] = [
        4, 4, 4, 4, 4, 4, 4, 3, 3, 6, 8, 8, 6, 8, 12, 16, 16, 2, 2, 1, 4, 4, 2,
    ];
    for (format, bytes) in all_formats().into_iter().zip(expected) {
        assert_eq!(format.n_bytes().u32(), bytes, "{format:?}");
        assert_eq!(format.n_bytes().u64(), bytes as u64);
        assert_eq!(format.n_bytes().usize(), bytes as usize);
    }
}

#[test]
fn channels_of_every_format() {
    let expected: [u8; 23] = [
        4, 4, 4, 4, 4, 4, 4, 3, 3, 3, 4, 4, 3, 4, 3, 4, 4, 2, 2, 1, 2, 2, 1,
    ];
    for (format, channels) in all_formats().into_iter().zip(expected) {
        assert_eq!(format.n_channels(), channels, "{format:?}");
        // every channel of a format has the same width
        assert_eq!(
            format.n_bytes().u32(),
            channels as u32 * format.channel_type().n_bytes() as u32
        );
    }
}

#[test]
fn alpha_and_premultiplication() {
    let with_alpha: Vec<u32> = all_formats()
        .into_iter()
        .filter(|f| f.has_alpha())
        .map(|f| f.to_number())
        .collect();
    assert_eq!(
        with_alpha,
        vec![0, 1, 2, 3, 4, 5, 6, 10, 11, 13, 15, 16, 17, 18, 20, 21]
    );
    let premultiplied: Vec<u32> = all_formats()
        .into_iter()
        .filter(|f| f.is_premultiplied())
        .map(|f| f.to_number())
        .collect();
    assert_eq!(premultiplied, vec![0, 1, 2, 10, 15, 17, 20]);
    let gray: Vec<u32> = all_formats()
        .into_iter()
        .filter(|f| f.is_grayscale())
        .map(|f| f.to_number())
        .collect();
    assert_eq!(gray, vec![17, 18, 19, 20, 21, 22]);
}

#[test]
fn channel_types() {
    assert_eq!(MemoryFormat::R8g8b8.channel_type(), ChannelType::U8);
    assert_eq!(MemoryFormat::G16a16.channel_type(), ChannelType::U16);
    assert_eq!(MemoryFormat::R16g16b16Float.channel_type(), ChannelType::F16);
    assert_eq!(
        MemoryFormat::R32g32b32a32FloatPremultiplied.channel_type(),
        ChannelType::F32
    );
    assert_eq!(ChannelType::F32.n_bytes(), 4);
}

#[test]
fn extended_format() {
    assert_eq!(ExtendedMemoryFormat::Y8Cb8Cr8.n_bytes(), MemoryFormatBytes::B3);
    assert_eq!(ExtendedMemoryFormat::Y8Cb8Cr8.n_channels(), 3);
    let basic = ExtendedMemoryFormat::from_basic(MemoryFormat::G16a16);
    assert_eq!(basic, ExtendedMemoryFormat::Basic(MemoryFormat::G16a16));
    assert_eq!(basic.n_bytes(), MemoryFormatBytes::B4);
    assert_eq!(basic.n_channels(), 2);
}

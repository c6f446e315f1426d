use glycin::dbus_editor_api::{
    image_format, image_memory_format, EditorImplementation, ExtendedColorType, ImageFormat,
    ImgEditor,
};
use glycin::editor_output::{
    ByteChange, EncodingOptions, InitializationDetails, NewImage, SparseEdit,
};
use glycin::error::ProcessError;
use glycin::frame::{BinaryData, Frame, ImageDetails};
use glycin::jpeg::{rotate_sparse, rotated_orientation, shift_changes};
use glycin::memory_format::MemoryFormat;
use glycin::operations::{Operation, Operations};
use glycin::orientation::{Orientation, Rotation};
use glycin::png::{memory_format_of, reset_exif_orientation};
use image::ImageEncoder;

const ROTATIONS: [Rotation; 4] = [Rotation::_0, Rotation::_90, Rotation::_180, Rotation::_270];

/// Exif data that hold nothing but an orientation.
fn exif(orientation: u16, big_endian: bool) -> Vec<u8> {
    let value = orientation.to_le_bytes();
    if big_endian {
        vec![
            0x4d, 0x4d, 0x00, 0x2a, 0x00, 0x00, 0x00, 0x08, 0x00, 0x01, 0x01, 0x12, 0x00, 0x03,
            0x00, 0x00, 0x00, 0x01, value[1], value[0], 0x00, 0x00, 0x00, 0x00, 0x00, 0x00,
        ]
    } else {
        vec![
            0x49, 0x49, 0x2a, 0x00, 0x08, 0x00, 0x00, 0x00, 0x01, 0x00, 0x12, 0x01, 0x03, 0x00,
            0x01, 0x00, 0x00, 0x00, value[0], value[1], 0x00, 0x00, 0x00, 0x00, 0x00, 0x00,
        ]
    }
}

/// The segment of a JPEG that holds the Exif data.
fn exif_segment(exif: &[u8]) -> Vec<u8> {
    let len = (2 + 6 + exif.len()) as u16;
    let mut segment = vec![0xff, 0xe1];
    segment.extend_from_slice(&len.to_be_bytes());
    segment.extend_from_slice(b"Exif\0\0");
    segment.extend_from_slice(exif);
    segment
}

/// A JPEG of 16 by 8 pixels that get brighter to the right.
fn jpeg_image() -> Vec<u8> {
    let mut pixels = Vec::new();
    for _y in 0..8u32 {
        for x in 0..16u32 {
            pixels.extend_from_slice(&[(x * 16) as u8; 3]);
        }
    }
    let mut out = std::io::Cursor::new(Vec::new());
    image::codecs::jpeg::JpegEncoder::new_with_quality(&mut out, 90)
        .write_image(&pixels, 16, 8, image::ExtendedColorType::Rgb8)
        .unwrap();
    out.into_inner()
}

/// The JPEG with Exif data behind its start.
fn with_exif(jpeg: &[u8], exif: &[u8]) -> Vec<u8> {
    let mut data = jpeg[..2].to_vec();
    data.extend_from_slice(&exif_segment(exif));
    data.extend_from_slice(&jpeg[2..]);
    data
}

fn recorded_orientation(jpeg: &[u8]) -> u16 {
    let jpeg = gufo_jpeg::Jpeg::new(jpeg.to_vec()).unwrap();
    let exif = jpeg.exif_data().next().unwrap().to_vec();
    gufo_exif::Exif::for_vec(exif).unwrap().orientation().unwrap() as u16
}

fn decoded(data: &[u8]) -> image::DynamicImage {
    image::load_from_memory(data).unwrap()
}

/// A PNG of 2 by 2 pixels: red and green above blue and white.
fn png_image() -> Vec<u8> {
    let pixels = [255u8, 0, 0, 0, 255, 0, 0, 0, 255, 255, 255, 255];
    let mut out = std::io::Cursor::new(Vec::new());
    image::codecs::png::PngEncoder::new(&mut out)
        .write_image(&pixels, 2, 2, image::ExtendedColorType::Rgb8)
        .unwrap();
    out.into_inner()
}

fn crc32(data: &[u8]) -> u32 {
    let mut crc = 0xffff_ffffu32;
    for byte in data {
        crc ^= *byte as u32;
        for _ in 0..8 {
            crc = if crc & 1 == 1 { (crc >> 1) ^ 0xedb8_8320 } else { crc >> 1 };
        }
    }
    !crc
}

fn chunk(chunk_type: &[u8; 4], data: &[u8]) -> Vec<u8> {
    let mut chunk = (data.len() as u32).to_be_bytes().to_vec();
    let mut body = chunk_type.to_vec();
    body.extend_from_slice(data);
    chunk.extend_from_slice(&body);
    chunk.extend_from_slice(&crc32(&body).to_be_bytes());
    chunk
}

/// The PNG with a chunk behind its header.
fn with_chunk(png: &[u8], chunk_type: &[u8; 4], data: &[u8]) -> Vec<u8> {
    // 8 bytes of signature and 25 bytes of header
    let mut out = png[..33].to_vec();
    out.extend_from_slice(&chunk(chunk_type, data));
    out.extend_from_slice(&png[33..]);
    out
}

fn png_exif(png: &[u8]) -> Option<Vec<u8>> {
    let png = gufo_png::Png::new(png.to_vec()).unwrap();
    png.chunks()
        .into_iter()
        .find(|x| x.chunk_type().bytes() == *b"eXIf")
        .map(|x| x.chunk_data().to_vec())
}

fn has_chunk(png: &[u8], chunk_type: &[u8; 4]) -> bool {
    let png = gufo_png::Png::new(png.to_vec()).unwrap();
    png.chunks().into_iter().any(|x| x.chunk_type().bytes() == *chunk_type)
}

#[test]
fn jpeg_rotate_sparse_edit() {
    let mut file = with_exif(&[0xff, 0xd8, 0xff, 0xd9], &exif(1, false));
    assert_eq!(recorded_orientation(&file), 1);
    let operations = Operations::new(vec![Operation::Rotate(Rotation::_90)]);
    let output = glycin::jpeg::apply_sparse(file.clone(), &operations).unwrap();
    let (byte_changes, data, info) = output.into_parts();
    let byte_changes = byte_changes.unwrap();
    assert_eq!(
        byte_changes.changes,
        vec![ByteChange { offset: 30, new_value: 6 }]
    );
    assert_eq!(data, None);
    assert!(info.lossless);

    // applying the patch to the file in place
    SparseEdit::Sparse(byte_changes).apply_to(&mut file).unwrap();
    assert_eq!(recorded_orientation(&file), 6);
}

#[test]
fn jpeg_rotation_with_the_high_byte_first() {
    let file = with_exif(&[0xff, 0xd8, 0xff, 0xd9], &exif(1, true));
    let changes = rotate_sparse(Rotation::_90, &file).unwrap().unwrap();
    assert_eq!(changes.changes, vec![ByteChange { offset: 31, new_value: 6 }]);
}

#[test]
fn jpeg_rotation_from_every_orientation() {
    for value in 1..=8u16 {
        for rotation in ROTATIONS {
            let mut file = with_exif(&jpeg_image(), &exif(value, false));
            let current = Orientation::from_exif(value).unwrap();
            let expected = rotated_orientation(current, rotation);
            let theirs = gufo_common::orientation::Orientation::try_from(value).unwrap();
            let their_rotation = match rotation {
                Rotation::_0 => gufo_common::orientation::Rotation::_0,
                Rotation::_90 => gufo_common::orientation::Rotation::_90,
                Rotation::_180 => gufo_common::orientation::Rotation::_180,
                Rotation::_270 => gufo_common::orientation::Rotation::_270,
            };
            assert_eq!(
                expected.to_exif() as u16,
                gufo_common::orientation::Orientation::new(
                    theirs.mirror(),
                    theirs.rotate() - their_rotation
                ) as u16
            );
            let changes = rotate_sparse(rotation, &file).unwrap().unwrap();
            assert!(changes.fits(file.len()));
            changes.apply(&mut file);
            assert_eq!(recorded_orientation(&file), expected.to_exif() as u16);
        }
    }
    assert_eq!(
        rotated_orientation(Orientation::Id, Rotation::_90),
        Orientation::Rotation270
    );
    assert_eq!(
        rotated_orientation(Orientation::MirroredRotation90, Rotation::_270),
        Orientation::MirroredRotation180
    );
}

#[test]
fn jpeg_without_orientation() {
    assert_eq!(rotate_sparse(Rotation::_90, &jpeg_image()), Ok(None));
    // Exif data without the tag
    let mut no_tag = exif(1, false);
    no_tag[10] = 0x0f;
    no_tag[11] = 0x01;
    let file = with_exif(&jpeg_image(), &no_tag);
    assert_eq!(rotate_sparse(Rotation::_90, &file), Ok(None));
}

#[test]
fn jpeg_that_is_broken() {
    assert!(matches!(
        rotate_sparse(Rotation::_90, &vec![1, 2, 3, 4]),
        Err(ProcessError::ExpectedError(_))
    ));
    let operations = Operations::new(vec![Operation::Rotate(Rotation::_90)]);
    assert!(matches!(
        glycin::jpeg::apply_sparse(vec![], &operations),
        Err(ProcessError::ExpectedError(_))
    ));
    assert!(matches!(
        glycin::jpeg::apply_complete(b"GIF89a".to_vec(), &operations),
        Err(ProcessError::ExpectedError(_))
    ));
    // an orientation that is none of the eight
    let file = with_exif(&jpeg_image(), &exif(9, false));
    assert!(matches!(
        rotate_sparse(Rotation::_90, &file),
        Err(ProcessError::ExpectedError(_))
    ));
    // Exif data that are cut off
    let file = with_exif(&jpeg_image(), &exif(1, false)[..12]);
    assert!(matches!(
        rotate_sparse(Rotation::_90, &file),
        Err(ProcessError::ExpectedError(_))
    ));
}

#[test]
fn jpeg_complete_rotation_changes_the_record() {
    let file = with_exif(&jpeg_image(), &exif(3, false));
    let operations = Operations::new(vec![Operation::Rotate(Rotation::_180)]);
    let output = glycin::jpeg::apply_complete(file.clone(), &operations).unwrap();
    assert!(output.info.lossless);
    let new = output.data.get_full();
    assert_eq!(new.len(), file.len());
    assert_eq!(recorded_orientation(&new), 1);
    let differing: Vec<usize> = (0..file.len()).filter(|i| file[*i] != new[*i]).collect();
    assert_eq!(differing, vec![30]);
}

#[test]
fn jpeg_clip_is_made_on_the_pixels() {
    let operations = Operations::new(vec![Operation::Clip((8, 0, 8, 8))]);
    let output = glycin::jpeg::apply_complete(jpeg_image(), &operations).unwrap();
    assert!(!output.info.lossless);
    let image = decoded(output.data.get());
    assert_eq!((image.width(), image.height()), (8, 8));
    // the right half is the bright half
    let pixels = image.to_luma8();
    assert!(pixels.get_pixel(0, 0).0[0] > 100);
    assert!(pixels.get_pixel(7, 7).0[0] > 200);

    let sparse = glycin::jpeg::apply_sparse(jpeg_image(), &operations).unwrap();
    assert!(!sparse.is_sparse());
    let (_, data, info) = sparse.into_parts();
    assert!(!info.lossless);
    let image = decoded(data.unwrap().get());
    assert_eq!((image.width(), image.height()), (8, 8));
}

#[test]
fn jpeg_rotation_without_record_turns_the_pixels() {
    let operations = Operations::new(vec![Operation::Rotate(Rotation::_90)]);
    let output = glycin::jpeg::apply_sparse(jpeg_image(), &operations).unwrap();
    assert!(!output.is_sparse());
    let (_, data, _) = output.into_parts();
    let image = decoded(data.unwrap().get());
    assert_eq!((image.width(), image.height()), (8, 16));
    // the bright right side is the top after a quarter turn against the clock
    let pixels = image.to_luma8();
    assert!(pixels.get_pixel(4, 0).0[0] > 200);
    assert!(pixels.get_pixel(4, 15).0[0] < 50);
}

#[test]
fn jpeg_operations_that_fail() {
    let operations = Operations::new(vec![Operation::Clip((10, 0, 8, 8))]);
    assert!(matches!(
        glycin::jpeg::apply_complete(jpeg_image(), &operations),
        Err(ProcessError::ExpectedError(_))
    ));
}

#[test]
fn changes_are_moved_to_their_place() {
    assert_eq!(
        shift_changes(&vec![(0, 1), (18, 6)], 12).unwrap().changes,
        vec![
            ByteChange { offset: 12, new_value: 1 },
            ByteChange { offset: 30, new_value: 6 }
        ]
    );
    assert_eq!(shift_changes(&vec![], usize::MAX).unwrap().changes, vec![]);
    assert_eq!(shift_changes(&vec![(1, 1)], usize::MAX), None);
}

#[test]
fn editing_crop() {
    // a PNG
    let operations = Operations::new(vec![Operation::Clip((0, 0, 1, 1))]);
    let output = glycin::png::apply(png_image(), operations).unwrap();
    let image = decoded(output.data.get());
    assert_eq!((image.width(), image.height()), (1, 1));
    assert_eq!(image.to_rgb8().into_raw(), vec![255, 0, 0]);

    let operations = Operations::new(vec![Operation::Clip((1, 0, 1, 2))]);
    let output = glycin::png::apply(png_image(), operations).unwrap();
    let image = decoded(output.data.get());
    assert_eq!((image.width(), image.height()), (1, 2));
    assert_eq!(image.to_rgb8().into_raw(), vec![0, 255, 0, 255, 255, 255]);

    // a JPEG, through the editor
    let operations = Operations::new(vec![Operation::Clip((0, 0, 8, 8))]);
    let output = ImgEditor::apply_complete(
        jpeg_image(),
        "image/jpeg".to_string(),
        InitializationDetails::default(),
        operations,
    )
    .unwrap();
    let image = decoded(output.data.get());
    assert_eq!((image.width(), image.height()), (8, 8));
    assert!(image.to_luma8().get_pixel(7, 0).0[0] < 150);
}

#[test]
fn editing_rotation_90() {
    // a PNG: red and green above blue and white
    let operations = Operations::new(vec![Operation::Rotate(Rotation::_90)]);
    let output = ImgEditor::apply_complete(
        png_image(),
        "image/png".to_string(),
        InitializationDetails::default(),
        operations,
    )
    .unwrap();
    let image = decoded(output.data.get());
    assert_eq!((image.width(), image.height()), (2, 2));
    // green and white above red and blue
    assert_eq!(
        image.to_rgb8().into_raw(),
        vec![0, 255, 0, 255, 255, 255, 255, 0, 0, 0, 0, 255]
    );

    // a JPEG with a record of its orientation
    let file = with_exif(&jpeg_image(), &exif(1, false));
    let operations = Operations::new(vec![Operation::Rotate(Rotation::_90)]);
    let output = ImgEditor::apply_sparse(
        file.clone(),
        "image/jpeg".to_string(),
        InitializationDetails::default(),
        operations,
    )
    .unwrap();
    assert!(output.is_sparse());
    let (changes, _, _) = output.into_parts();
    let mut edited = file;
    SparseEdit::Sparse(changes.unwrap()).apply_to(&mut edited).unwrap();
    assert_eq!(recorded_orientation(&edited), 6);
}

#[test]
fn png_is_brought_upright() {
    // the image has to be turned by a quarter with the clock to be upright
    let file = with_chunk(&png_image(), b"eXIf", &exif(6, false));
    assert_eq!(png_exif(&file), Some(exif(6, false)));
    let output = glycin::png::apply(file, Operations::new(vec![])).unwrap();
    let new = output.data.get_full();
    let image = decoded(&new);
    // blue and red above white and green
    assert_eq!(
        image.to_rgb8().into_raw(),
        vec![0, 0, 255, 255, 0, 0, 255, 255, 255, 0, 255, 0]
    );
    // the record says upright now
    assert_eq!(png_exif(&new), Some(exif(1, false)));
}

#[test]
fn png_records_of_orientation_are_reset() {
    let file = with_chunk(&png_image(), b"eXIf", &exif(8, true));
    let file = with_chunk(&file, b"orNT", &[6]);
    assert!(has_chunk(&file, b"orNT"));
    let new = reset_exif_orientation(file.clone());
    assert!(!has_chunk(&new, b"orNT"));
    assert_eq!(png_exif(&new), Some(exif(1, true)));
    assert_eq!(decoded(&new).to_rgb8(), decoded(&file).to_rgb8());
    // nothing to reset
    assert_eq!(reset_exif_orientation(png_image()), png_image());
    // what is no PNG stays what it is
    assert_eq!(reset_exif_orientation(vec![1, 2, 3]), vec![1, 2, 3]);
}

#[test]
fn png_that_is_broken() {
    assert!(matches!(
        glycin::png::apply(vec![1, 2, 3], Operations::new(vec![])),
        Err(ProcessError::ExpectedError(_))
    ));
    let operations = Operations::new(vec![Operation::Clip((0, 0, 3, 1))]);
    assert!(matches!(
        glycin::png::apply(png_image(), operations),
        Err(ProcessError::ExpectedError(_))
    ));
}

#[test]
fn formats_of_decoded_pixels() {
    assert_eq!(memory_format_of(1, 8), Some(MemoryFormat::G8));
    assert_eq!(memory_format_of(2, 16), Some(MemoryFormat::G8a8));
    assert_eq!(memory_format_of(3, 24), Some(MemoryFormat::R8g8b8));
    assert_eq!(memory_format_of(4, 32), Some(MemoryFormat::R8g8b8a8));
    assert_eq!(memory_format_of(1, 16), Some(MemoryFormat::G16));
    assert_eq!(memory_format_of(2, 32), Some(MemoryFormat::G16a16));
    assert_eq!(memory_format_of(3, 48), Some(MemoryFormat::R16g16b16));
    assert_eq!(memory_format_of(4, 64), Some(MemoryFormat::R16g16b16a16));
    assert_eq!(memory_format_of(3, 96), None);
    assert_eq!(memory_format_of(5, 40), None);
}

#[test]
fn file_formats_of_mime_types() {
    for (mime_type, format) in [
        ("image/bmp", ImageFormat::Bmp),
        ("image/x-dds", ImageFormat::Dds),
        ("image/x-ff", ImageFormat::Farbfeld),
        ("image/gif", ImageFormat::Gif),
        ("image/vnd.microsoft.icon", ImageFormat::Ico),
        ("image/jpeg", ImageFormat::Jpeg),
        ("image/x-exr", ImageFormat::OpenExr),
        ("image/png", ImageFormat::Png),
        ("image/x-portable-bitmap", ImageFormat::Pnm),
        ("image/x-portable-graymap", ImageFormat::Pnm),
        ("image/x-portable-pixmap", ImageFormat::Pnm),
        ("image/x-portable-anymap", ImageFormat::Pnm),
        ("image/x-qoi", ImageFormat::Qoi),
        ("image/qoi", ImageFormat::Qoi),
        ("image/x-targa", ImageFormat::Tga),
        ("image/x-tga", ImageFormat::Tga),
        ("image/tiff", ImageFormat::Tiff),
        ("image/webp", ImageFormat::WebP),
    ] {
        assert_eq!(image_format(mime_type), Ok(format), "{mime_type}");
    }
    assert_eq!(
        image_format("image/svg+xml"),
        Err(ProcessError::UnsupportedImageFormat("image/svg+xml".to_string()))
    );
    assert_eq!(image_memory_format(MemoryFormat::G8), ExtendedColorType::L8);
    assert_eq!(image_memory_format(MemoryFormat::R16g16b16a16), ExtendedColorType::Rgba16);
    assert_eq!(image_memory_format(MemoryFormat::G16a16), ExtendedColorType::La16);
}

fn new_image(width: u32, height: u32, format: MemoryFormat, pixels: Vec<u8>) -> NewImage {
    let frame = Frame::new(width, height, format, BinaryData::from_data(pixels)).unwrap();
    NewImage::new(ImageDetails::new(width, height), vec![frame])
}

#[test]
fn create_png_of_one_pixel() {
    // blue, green, red
    let image = new_image(1, 1, MemoryFormat::B8g8r8, vec![0, 0, 255]);
    let encoded =
        ImgEditor::create("image/png".to_string(), image, EncodingOptions::default()).unwrap();
    let decoded = decoded(&encoded.data_full());
    assert_eq!(decoded.color(), image::ColorType::Rgb8);
    assert_eq!(decoded.to_rgb8().into_raw(), vec![255, 0, 0]);
}

#[test]
fn create_images_of_other_formats() {
    let pixels = vec![10u8, 20, 30, 255, 40, 50, 60, 255];
    for (mime_type, format) in [
        ("image/bmp", image::ImageFormat::Bmp),
        ("image/tiff", image::ImageFormat::Tiff),
        ("image/x-qoi", image::ImageFormat::Qoi),
        ("image/x-tga", image::ImageFormat::Tga),
    ] {
        let image = new_image(2, 1, MemoryFormat::R8g8b8a8, pixels.clone());
        let encoded =
            ImgEditor::create(mime_type.to_string(), image, EncodingOptions::default()).unwrap();
        let data = encoded.data_full();
        let decoded = image::load_from_memory_with_format(&data, format).unwrap();
        assert_eq!(decoded.to_rgba8().into_raw(), pixels, "{mime_type}");
    }
}

#[test]
fn create_keeps_what_a_png_can_hold() {
    // premultiplied colors are stored straight
    let image = new_image(1, 1, MemoryFormat::R8g8b8a8Premultiplied, vec![128, 50, 0, 128]);
    let encoded =
        ImgEditor::create("image/png".to_string(), image, EncodingOptions::default()).unwrap();
    assert_eq!(decoded(&encoded.data_full()).to_rgba8().into_raw(), vec![255, 100, 0, 128]);
    // 16 bits stay 16 bits
    let image = new_image(1, 1, MemoryFormat::G16, vec![0x34, 0x12]);
    let encoded =
        ImgEditor::create("image/png".to_string(), image, EncodingOptions::default()).unwrap();
    let decoded = decoded(&encoded.data_full());
    assert_eq!(decoded.color(), image::ColorType::L16);
    assert_eq!(decoded.to_luma16().into_raw(), vec![0x1234]);
}

#[test]
fn create_that_fails() {
    let image = new_image(1, 1, MemoryFormat::R8g8b8, vec![1, 2, 3]);
    assert_eq!(
        ImgEditor::create("image/avif".to_string(), image, EncodingOptions::default()),
        Err(ProcessError::UnsupportedImageFormat("image/avif".to_string()))
    );
    let no_frame = NewImage::new(ImageDetails::new(1, 1), vec![]);
    assert!(matches!(
        ImgEditor::create("image/png".to_string(), no_frame, EncodingOptions::default()),
        Err(ProcessError::ExpectedError(_))
    ));
    // too few pixels
    let image = new_image(2, 2, MemoryFormat::R8g8b8, vec![1, 2, 3]);
    assert!(matches!(
        ImgEditor::create("image/png".to_string(), image, EncodingOptions::default()),
        Err(ProcessError::ExpectedError(_))
    ));
    // floating point pixels
    let image = new_image(1, 1, MemoryFormat::R32g32b32Float, vec![0; 12]);
    assert!(matches!(
        ImgEditor::create("image/png".to_string(), image, EncodingOptions::default()),
        Err(ProcessError::ExpectedError(_))
    ));
}

#[test]
fn editor_for_other_formats() {
    assert!(ImgEditor::useable());
    let operations = Operations::new(vec![Operation::MirrorHorizontally]);
    assert_eq!(
        ImgEditor::apply_complete(
            vec![1, 2, 3],
            "image/gif".to_string(),
            InitializationDetails::default(),
            operations.clone(),
        ),
        Err(ProcessError::UnsupportedImageFormat("image/gif".to_string()))
    );
    assert!(matches!(
        ImgEditor::apply_sparse(
            vec![1, 2, 3],
            "image/webp".to_string(),
            InitializationDetails::default(),
            operations.clone(),
        ),
        Err(ProcessError::UnsupportedImageFormat(_))
    ));
    // a PNG is edited as a whole
    let output = ImgEditor::apply_sparse(
        png_image(),
        "image/png".to_string(),
        InitializationDetails::default(),
        operations,
    )
    .unwrap();
    assert!(!output.is_sparse());
    let (_, data, _) = output.into_parts();
    assert_eq!(
        decoded(data.unwrap().get()).to_rgb8().into_raw(),
        vec![0, 255, 0, 255, 0, 0, 255, 255, 255, 0, 0, 255]
    );
}

#[test]
fn jpeg_with_a_segment_that_ends_before_its_data() {
    // behind the start of the scan stands a segment of length 0
    let file = vec![
        0xff, 0xd8, 0xff, 0xda, 0x00, 0x02, 0xff, 0xe1, 0x00, 0x00, 0xff, 0xd9,
    ];
    assert!(gufo_jpeg::Jpeg::new(file.clone()).is_ok());
    let rotate = Operations::new(vec![Operation::Rotate(Rotation::_90)]);
    let clip = Operations::new(vec![Operation::Clip((0, 0, 1, 1))]);
    assert!(matches!(
        rotate_sparse(Rotation::_90, &file),
        Err(ProcessError::ExpectedError(_))
    ));
    for operations in [&rotate, &clip] {
        assert!(matches!(
            glycin::jpeg::apply_sparse(file.clone(), operations),
            Err(ProcessError::ExpectedError(_))
        ));
        assert!(matches!(
            glycin::jpeg::apply_complete(file.clone(), operations),
            Err(ProcessError::ExpectedError(_))
        ));
        assert!(matches!(
            glycin::jpeg::reencode(&file, Some((vec![0, 0, 0], 1, 1)), operations),
            Err(ProcessError::ExpectedError(_))
        ));
    }
}

#[test]
fn jpeg_with_an_empty_comment_behind_the_image_data() {
    let mut file = jpeg_image();
    let end = file.len() - 2;
    file.splice(end..end, [0xff, 0xfe, 0x00, 0x00]);
    assert!(gufo_jpeg::Jpeg::new(file.clone()).is_ok());
    let clip = Operations::new(vec![Operation::Clip((0, 0, 8, 8))]);
    assert!(matches!(
        glycin::jpeg::apply_complete(file.clone(), &clip),
        Err(ProcessError::ExpectedError(_))
    ));
    assert!(matches!(
        glycin::jpeg::apply_sparse(file.clone(), &clip),
        Err(ProcessError::ExpectedError(_))
    ));
    assert!(matches!(
        glycin::jpeg::reencode(&file, Some((vec![128; 16 * 8 * 3], 16, 8)), &clip),
        Err(ProcessError::ExpectedError(_))
    ));
}

#[test]
fn exif_with_wide_offsets_is_not_read() {
    let mut little = exif(6, false);
    little[2] = 0x2b;
    let mut big = exif(6, true);
    big[3] = 0x2b;
    for wide in [little, big] {
        assert!(!glycin::jpeg::is_exif_readable(&wide));
        let file = with_exif(&jpeg_image(), &wide);
        assert!(matches!(
            rotate_sparse(Rotation::_90, &file),
            Err(ProcessError::ExpectedError(_))
        ));
        let mut details = ImageDetails::new(16, 8);
        details.metadata_exif = Some(BinaryData::from_data(wide.clone()));
        assert_eq!(glycin::pipeline::orientation_of(&details), None);
        let png = with_chunk(&png_image(), b"eXIf", &wide);
        assert_eq!(reset_exif_orientation(png.clone()), png);
    }
    assert!(glycin::jpeg::is_exif_readable(&exif(6, false)));
    assert!(glycin::jpeg::is_exif_readable(&exif(6, true)));
    assert!(glycin::jpeg::is_exif_readable(&vec![0x49, 0x49, 0x2b]));
    assert!(glycin::jpeg::is_exif_readable(&vec![]));
}

#[test]
fn reencoding_takes_the_pixels_as_they_are_given() {
    let file = jpeg_image();
    let clip = Operations::new(vec![Operation::Clip((0, 0, 8, 8))]);
    // a decoder that has failed
    assert!(matches!(
        glycin::jpeg::reencode(&file, None, &clip),
        Err(ProcessError::ExpectedError(_))
    ));
    // a decoder that has given fewer pixels than it says
    assert!(matches!(
        glycin::jpeg::reencode(&file, Some((vec![128; 5], 16, 8)), &clip),
        Err(ProcessError::ExpectedError(_))
    ));
    // gray pixels of half the brightness
    let output = glycin::jpeg::reencode(&file, Some((vec![128; 16 * 8 * 3], 16, 8)), &clip)
        .unwrap();
    assert!(!output.info.lossless);
    let image = decoded(&output.data.get_full()).to_rgb8();
    assert_eq!((image.width(), image.height()), (8, 8));
    for pixel in image.pixels() {
        for channel in pixel.0 {
            assert!(channel.abs_diff(128) <= 2, "{channel}");
        }
    }
}

#[test]
fn a_rotation_on_the_record_needs_no_pixels() {
    let file = with_exif(&jpeg_image(), &exif(1, false));
    let rotate = Operations::new(vec![Operation::Rotate(Rotation::_90)]);
    let without = glycin::jpeg::apply_complete_decoded(file.clone(), None, &rotate).unwrap();
    let with = glycin::jpeg::apply_complete_decoded(
        file.clone(),
        Some((vec![0; 16 * 8 * 3], 16, 8)),
        &rotate,
    )
    .unwrap();
    assert_eq!(without, with);
    assert_eq!(glycin::jpeg::apply_complete(file.clone(), &rotate).unwrap(), with);
    assert!(with.info.lossless);
    assert_eq!(recorded_orientation(&with.data.get_full()), 6);
    let sparse = glycin::jpeg::apply_sparse_decoded(file.clone(), None, &rotate).unwrap();
    assert!(sparse.is_sparse());
    assert_eq!(glycin::jpeg::apply_sparse(file, &rotate).unwrap(), sparse);
}

#[test]
fn png_that_announces_more_pixels_than_fit() {
    let mut file = png_image();
    file[16..20].copy_from_slice(&0x7fff_ffffu32.to_be_bytes());
    file[20..24].copy_from_slice(&0x7fff_ffffu32.to_be_bytes());
    let checksum = crc32(&file[12..29]);
    file[29..33].copy_from_slice(&checksum.to_be_bytes());
    let operations = Operations::new(vec![Operation::Clip((0, 0, 1, 1))]);
    assert!(matches!(
        glycin::png::apply(file.clone(), operations.clone()),
        Err(ProcessError::ExpectedError(_))
    ));
    assert!(ImgEditor::apply_complete(
        file,
        "image/png".to_string(),
        InitializationDetails::default(),
        operations
    )
    .is_err());
}

/// Position of the first marker of the given kind.
fn marker_position(file: &[u8], marker: u8) -> usize {
    file.windows(2)
        .position(|x| x == [0xff, marker])
        .unwrap()
}

#[test]
fn progressive_jpeg_with_one_scan() {
    // the frame is marked as progressive, and there is one scan
    let mut file = jpeg_image();
    let frame = marker_position(&file, 0xc0);
    file[frame + 1] = 0xc2;
    let jpeg = gufo_jpeg::Jpeg::new(file.clone()).unwrap();
    assert!(jpeg.is_progressive().unwrap());
    assert_eq!(jpeg.n_sos(), 1);

    let clip = Operations::new(vec![Operation::Clip((0, 0, 8, 8))]);
    assert!(matches!(
        glycin::jpeg::reencode(&file, Some((vec![128; 16 * 8 * 3], 16, 8)), &clip),
        Err(ProcessError::ExpectedError(_))
    ));
    assert!(matches!(
        glycin::jpeg::apply_complete(file.clone(), &clip),
        Err(ProcessError::ExpectedError(_))
    ));
    assert!(matches!(
        glycin::jpeg::apply_sparse(file.clone(), &clip),
        Err(ProcessError::ExpectedError(_))
    ));
    // a rotation on the record does not encode anything
    let file = with_exif(&file, &exif(1, false));
    let rotate = Operations::new(vec![Operation::Rotate(Rotation::_90)]);
    let output = glycin::jpeg::apply_complete(file, &rotate).unwrap();
    assert_eq!(recorded_orientation(&output.data.get_full()), 6);
}

#[test]
fn progressive_jpeg_with_scans_that_fit() {
    let mut file = Vec::new();
    let mut encoder = jpeg_encoder::Encoder::new(&mut file, 90);
    encoder.set_progressive(true);
    encoder
        .encode(&vec![128; 16 * 8 * 3], 16, 8, jpeg_encoder::ColorType::Ycbcr)
        .unwrap();
    let jpeg = gufo_jpeg::Jpeg::new(file.clone()).unwrap();
    assert!(jpeg.is_progressive().unwrap());
    assert!((2..=64).contains(&jpeg.n_sos()));

    let clip = Operations::new(vec![Operation::Clip((0, 0, 8, 8))]);
    let output =
        glycin::jpeg::reencode(&file, Some((vec![128; 16 * 8 * 3], 16, 8)), &clip).unwrap();
    let image = decoded(&output.data.get_full());
    assert_eq!((image.width(), image.height()), (8, 8));
    assert!(glycin::jpeg::apply_complete(file, &clip).is_ok());
}

/// The text chunk in which older writers keep Exif data.
fn legacy_exif_chunk(exif: &[u8]) -> Vec<u8> {
    let mut with_mark = b"Exif\0\0".to_vec();
    with_mark.extend_from_slice(exif);
    let mut text = b"Raw profile type exif\0".to_vec();
    text.extend_from_slice(format!("\nexif\n{:8}\n", with_mark.len()).as_bytes());
    for byte in with_mark {
        text.extend_from_slice(format!("{byte:02x}").as_bytes());
    }
    text.push(b'\n');
    text
}

#[test]
fn png_with_exif_data_in_a_text_chunk() {
    let file = with_chunk(&png_image(), b"tEXt", &legacy_exif_chunk(&exif(6, false)));
    let output = glycin::png::apply(file, Operations::new(vec![])).unwrap();
    let image = decoded(&output.data.get_full());
    // blue and red above white and green
    assert_eq!(
        image.to_rgb8().into_raw(),
        vec![0, 0, 255, 255, 0, 0, 255, 255, 255, 0, 255, 0]
    );

    // the Exif chunk goes before the text chunk
    let file = with_chunk(&png_image(), b"tEXt", &legacy_exif_chunk(&exif(6, false)));
    let file = with_chunk(&file, b"eXIf", &exif(1, false));
    let output = glycin::png::apply(file, Operations::new(vec![])).unwrap();
    assert_eq!(
        decoded(&output.data.get_full()).to_rgb8().into_raw(),
        vec![255, 0, 0, 0, 255, 0, 0, 0, 255, 255, 255, 255]
    );

    // an Exif chunk without orientation leaves the word to the text chunk
    let mut no_tag = exif(1, false);
    no_tag[10] = 0x0f;
    no_tag[11] = 0x01;
    let file = with_chunk(&png_image(), b"tEXt", &legacy_exif_chunk(&exif(3, false)));
    let file = with_chunk(&file, b"eXIf", &no_tag);
    let output = glycin::png::apply(file, Operations::new(vec![])).unwrap();
    assert_eq!(
        decoded(&output.data.get_full()).to_rgb8().into_raw(),
        vec![255, 255, 255, 0, 0, 255, 0, 255, 0, 255, 0, 0]
    );
}

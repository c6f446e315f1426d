use glycin::api_common::{RunEnvironment, SandboxMechanism, SandboxSelector};
use glycin::api_creator::{single_frame_image, Creator, Editor, FeatureNotSupported, NewFrame};
use glycin::api_loader::{
    color_step, default_mime_type_list, float_target, prepare, Frame, Image, Loader, Prepared,
    Source,
};
use glycin::color::ColorState;
use glycin::config::{Config, ConfigGroup, MimeType};
use glycin::error::Error;
use glycin::frame::{BinaryData, Delay, FrameDetails, ImageDetails, MAX_TEXTURE_SIZE};
use glycin::memory_format::{MemoryFormat, MemoryFormatInfo};
use glycin::orientation::Orientation;
use glycin::pipeline::{apply_exif_orientation, orientation_of, MemoryFormatSelection};

fn remote(width: u32, height: u32, format: MemoryFormat) -> glycin::frame::Frame {
    glycin::frame::Frame::new(width, height, format, BinaryData::from_data(vec![])).unwrap()
}

fn selection(formats: &[MemoryFormat]) -> MemoryFormatSelection {
    let mut selection = MemoryFormatSelection::empty();
    for format in formats {
        selection = selection.with(*format);
    }
    selection
}

fn registry() -> Config {
    let mut config = Config::new();
    config.load_groups(&vec![
        ConfigGroup {
            name: "loader:image/svg+xml".to_string(),
            program: Some("/usr/libexec/glycin-svg".to_string()),
            expose_base_dir: Some(true),
            fontconfig: Some(true),
            operations: None,
        },
        ConfigGroup {
            name: "loader:image/png".to_string(),
            program: Some("/usr/libexec/glycin-image-rs".to_string()),
            expose_base_dir: None,
            fontconfig: None,
            operations: None,
        },
        ConfigGroup {
            name: "editor:image/png".to_string(),
            program: Some("/usr/libexec/glycin-image-rs".to_string()),
            expose_base_dir: None,
            fontconfig: None,
            operations: Some(vec!["Clip".to_string(), "Rotate".to_string()]),
        },
    ]);
    config
}

/// Exif data that hold nothing but an orientation.
fn exif(orientation: u8) -> Vec<u8> {
    vec![
        0x49, 0x49, 0x2a, 0x00, 0x08, 0x00, 0x00, 0x00, 0x01, 0x00, 0x12, 0x01, 0x03, 0x00, 0x01,
        0x00, 0x00, 0x00, orientation, 0x00, 0x00, 0x00, 0x00, 0x00, 0x00, 0x00,
    ]
}

#[test]
fn load_png_one_by_one_red() {
    for (format, pixels) in [
        (MemoryFormat::R8g8b8, vec![0xff, 0x00, 0x00]),
        (MemoryFormat::R8g8b8a8, vec![0xff, 0x00, 0x00, 0xff]),
    ] {
        let frame = Frame::deliver(
            remote(1, 1, format),
            pixels,
            &selection(&[MemoryFormat::R8g8b8]),
            ColorState::Srgb,
        )
        .unwrap();
        assert_eq!((frame.width(), frame.height()), (1, 1));
        assert_eq!(frame.memory_format(), MemoryFormat::R8g8b8);
        assert_eq!(frame.buf_slice(), &vec![0xff, 0x00, 0x00]);
        assert_eq!(frame.stride(), 3);
        assert_eq!(frame.color_state(), ColorState::Srgb);
    }
}

#[test]
fn delivered_frames_keep_their_limits() {
    let formats: Vec<MemoryFormat> =
        (0..23).map(|n| MemoryFormat::from_number(n).unwrap()).collect();
    for source in &formats {
        for target in &formats {
            let mut frame = remote(3, 2, *source);
            frame.stride += 5;
            let buffer = vec![7; frame.stride as usize * 2];
            let delivered =
                Frame::deliver(frame, buffer, &selection(&[*target]), ColorState::Srgb).unwrap();
            assert!(
                delivered.stride() as u64
                    >= delivered.width() as u64 * delivered.memory_format().n_bytes().u64()
            );
            assert!(delivered.stride() as u64 * delivered.height() as u64 <= MAX_TEXTURE_SIZE);
            assert!(delivered.buf_slice().len() as u64 >= delivered.stride() as u64 * 2);
        }
    }
}

#[test]
fn frame_without_selection_stays() {
    let mut frame = remote(2, 1, MemoryFormat::B8g8r8a8);
    frame.stride = 12;
    frame.delay = Some(Delay { secs: 1, nanos: 500 });
    frame.details.n_frame = Some(3);
    let buffer: Vec<u8> = (0..12).collect();
    let delivered = Frame::deliver(
        frame.clone(),
        buffer.clone(),
        &MemoryFormatSelection::empty(),
        ColorState::Srgb,
    )
    .unwrap();
    assert_eq!(delivered.buf_slice(), &buffer);
    assert_eq!(delivered.stride(), 12);
    assert_eq!(delivered.memory_format(), MemoryFormat::B8g8r8a8);
    assert_eq!(delivered.delay(), Some(Delay { secs: 1, nanos: 500 }));
    assert_eq!(delivered.details().n_frame, Some(3));
    // every format is accepted
    let delivered =
        Frame::deliver(frame, buffer.clone(), &MemoryFormatSelection::all(), ColorState::Srgb)
            .unwrap();
    assert_eq!(delivered.buf_slice(), &buffer);
}

#[test]
fn frames_that_are_refused() {
    let all = MemoryFormatSelection::all();
    let frame = remote(2, 2, MemoryFormat::R8g8b8);
    assert!(matches!(
        Frame::deliver(frame.clone(), vec![0; 11], &all, ColorState::Srgb),
        Err(Error::TextureTooSmall { texture_size: 11, .. })
    ));
    let narrow = glycin::frame::Frame { stride: 5, ..frame.clone() };
    assert!(matches!(
        Frame::deliver(narrow, vec![0; 12], &all, ColorState::Srgb),
        Err(Error::StrideTooSmall(_))
    ));
    let empty = glycin::frame::Frame { height: 0, ..frame };
    assert!(matches!(
        Frame::deliver(empty, vec![0; 12], &all, ColorState::Srgb),
        Err(Error::WidthOrHeightZero(_))
    ));
}

#[test]
fn floating_point_frames_stay_as_they_are() {
    let frame = remote(1, 1, MemoryFormat::R32g32b32Float);
    let buffer = vec![1; 12];
    let delivered = Frame::deliver(
        frame,
        buffer.clone(),
        &selection(&[MemoryFormat::R8g8b8]),
        ColorState::Srgb,
    )
    .unwrap();
    assert_eq!(delivered.memory_format(), MemoryFormat::R32g32b32Float);
    assert_eq!(delivered.buf_slice(), &buffer);
}

#[test]
fn best_formats() {
    let all = MemoryFormatSelection::all();
    assert!(all.contains(MemoryFormat::G16));
    assert_eq!(all.best_format_for(MemoryFormat::G16a16), Some(MemoryFormat::G16a16));
    assert_eq!(MemoryFormatSelection::empty().best_format_for(MemoryFormat::G8), None);
    assert!(!MemoryFormatSelection::empty().contains(MemoryFormat::G8));

    let some = selection(&[
        MemoryFormat::G8,
        MemoryFormat::R8g8b8,
        MemoryFormat::R8g8b8a8,
        MemoryFormat::R16g16b16a16,
    ]);
    // what loses nothing and is smallest
    assert_eq!(some.best_format_for(MemoryFormat::B8g8r8), Some(MemoryFormat::R8g8b8));
    assert_eq!(some.best_format_for(MemoryFormat::G8a8), Some(MemoryFormat::R8g8b8a8));
    assert_eq!(some.best_format_for(MemoryFormat::G16), Some(MemoryFormat::R16g16b16a16));
    assert_eq!(some.best_format_for(MemoryFormat::R16g16b16), Some(MemoryFormat::R16g16b16a16));
    // depth is lost before colors, and colors before alpha
    let lossy = selection(&[MemoryFormat::G16a16, MemoryFormat::R8g8b8a8, MemoryFormat::R16g16b16]);
    assert_eq!(
        lossy.best_format_for(MemoryFormat::R16g16b16a16),
        Some(MemoryFormat::R8g8b8a8)
    );
    let lossy = selection(&[MemoryFormat::G16a16, MemoryFormat::R16g16b16]);
    assert_eq!(
        lossy.best_format_for(MemoryFormat::R16g16b16a16),
        Some(MemoryFormat::G16a16)
    );
    // of equals the first in the list of formats
    let equal = selection(&[MemoryFormat::A8r8g8b8, MemoryFormat::B8g8r8a8]);
    assert_eq!(equal.best_format_for(MemoryFormat::R8g8b8a8), Some(MemoryFormat::B8g8r8a8));
}

#[test]
fn orientation_of_an_image() {
    let mut details = ImageDetails::new(3, 2);
    assert_eq!(orientation_of(&details), None);
    details.metadata_exif = Some(BinaryData::from_data(exif(6)));
    assert_eq!(orientation_of(&details), Some(Orientation::Rotation270));
    // the hint of the helper goes first
    details.transformation_orientation = Some(Orientation::Mirrored);
    assert_eq!(orientation_of(&details), Some(Orientation::Mirrored));
    // the helper has turned the image already
    details.transformation_ignore_exif = true;
    assert_eq!(orientation_of(&details), None);

    let mut details = ImageDetails::new(3, 2);
    details.metadata_exif = Some(BinaryData::from_data(exif(0)));
    assert_eq!(orientation_of(&details), None);
    details.metadata_exif = Some(BinaryData::from_data(vec![1, 2, 3]));
    assert_eq!(orientation_of(&details), None);
}

#[test]
fn frames_are_turned_upright() {
    let pixels = vec![1, 2, 3, 4, 5, 6];
    let mut details = ImageDetails::new(3, 2);
    details.metadata_exif = Some(BinaryData::from_data(exif(6)));
    let mut frame = remote(3, 2, MemoryFormat::G8);
    let new = apply_exif_orientation(pixels.clone(), &mut frame, &details);
    assert_eq!(new, vec![4, 1, 5, 2, 6, 3]);
    assert_eq!((frame.width, frame.height, frame.stride), (2, 3, 2));
    assert_eq!(frame.memory_format, MemoryFormat::G8);

    // once more with an upright image changes nothing
    let upright = ImageDetails::new(2, 3);
    let again = apply_exif_orientation(new.clone(), &mut frame, &upright);
    assert_eq!(again, new);
    let mut identity = ImageDetails::new(2, 3);
    identity.metadata_exif = Some(BinaryData::from_data(exif(1)));
    let again = apply_exif_orientation(new.clone(), &mut frame, &identity);
    assert_eq!(again, new);
    assert_eq!((frame.width, frame.height, frame.stride), (2, 3, 2));

    // a helper that has turned the image
    details.transformation_ignore_exif = true;
    let mut frame = remote(3, 2, MemoryFormat::G8);
    assert_eq!(apply_exif_orientation(pixels.clone(), &mut frame, &details), pixels);
    assert_eq!((frame.width, frame.height), (3, 2));

    // a frame that its buffer does not hold stays as it is
    details.transformation_ignore_exif = false;
    let mut frame = remote(3, 2, MemoryFormat::G8);
    assert_eq!(apply_exif_orientation(vec![1, 2, 3], &mut frame, &details), vec![1, 2, 3]);
    assert_eq!((frame.width, frame.height), (3, 2));
}

#[test]
fn sources() {
    let mut file = Source::File("/home/me/image.png".to_string());
    assert_eq!(file.file(), Some("/home/me/image.png".to_string()));
    assert_eq!(file.to_stream(), Ok(()));
    assert_eq!(file.send(), Source::File("/home/me/image.png".to_string()));
    assert_eq!(file, Source::File("/home/me/image.png".to_string()));

    let mut stream = Source::Stream;
    assert_eq!(stream.file(), None);
    assert_eq!(stream.to_stream(), Ok(()));
    assert_eq!(stream.send(), Source::Stream);
    // the stream is gone
    assert_eq!(stream, Source::TransferredStream);
    assert_eq!(stream.to_stream(), Err(Error::TransferredStream));
    assert_eq!(stream.send(), Source::TransferredStream);
}

#[test]
fn loader_options() {
    let mut loader = Loader::new("/home/me/image.svg".to_string());
    assert_eq!(loader.source, Source::File("/home/me/image.svg".to_string()));
    assert!(loader.apply_transformations);
    assert!(!loader.use_expose_base_dir);
    assert_eq!(loader.sandbox_selector, SandboxSelector::Auto);
    assert!(loader.memory_format_selection.contains(MemoryFormat::R32g32b32Float));
    loader.sandbox_selector(SandboxSelector::NotSandboxed);
    loader.apply_transformations(false);
    loader.use_expose_base_dir(true);
    loader.accepted_memory_formats(selection(&[MemoryFormat::G8]));
    assert_eq!(loader.sandbox_selector, SandboxSelector::NotSandboxed);
    assert!(!loader.apply_transformations);
    assert!(loader.use_expose_base_dir);
    assert!(!loader.memory_format_selection.contains(MemoryFormat::R8g8b8));
    assert_eq!(Loader::new_source(Source::Stream).source, Source::Stream);
}

#[test]
fn plan_of_a_load() {
    let config = registry();
    let parent = Some("/home/me".to_string());
    let mut loader = Loader::new("/home/me/image.svg".to_string());
    let svg = MimeType::new_static("image/svg+xml");

    let plan = loader.plan(&config, &svg, RunEnvironment::Host, parent.clone()).unwrap();
    assert_eq!(plan.program, "/usr/libexec/glycin-svg");
    assert!(plan.fontconfig);
    assert_eq!(plan.sandbox_mechanism, SandboxMechanism::Bwrap);
    // the caller has not agreed to show the directory
    assert_eq!(plan.base_dir, None);

    loader.use_expose_base_dir(true);
    let exposed = loader.plan(&config, &svg, RunEnvironment::Flatpak, parent.clone()).unwrap();
    assert_eq!(exposed.base_dir, parent);
    assert_eq!(exposed.sandbox_mechanism, SandboxMechanism::FlatpakSpawn);
    assert!(!exposed.key.same(&plan.key));
    assert_eq!(exposed.key.exec(), "/usr/libexec/glycin-svg");

    // the helper for PNG does not ask for the directory
    let png = loader.plan(&config, &MimeType::png(), RunEnvironment::Host, parent.clone()).unwrap();
    assert_eq!(png.base_dir, None);
    assert!(!png.fontconfig);
    let again = loader.plan(&config, &MimeType::png(), RunEnvironment::Host, None).unwrap();
    assert!(again.key.same(&png.key));

    assert_eq!(
        loader.plan(&config, &MimeType::jpeg(), RunEnvironment::Host, None),
        Err(Error::UnknownImageFormat("image/jpeg".to_string()))
    );
    assert_eq!(
        loader.plan(&Config::new(), &MimeType::png(), RunEnvironment::Host, None),
        Err(Error::NoLoadersConfigured)
    );
}

#[test]
fn default_mime_types() {
    let list = default_mime_type_list();
    assert_eq!(list.len(), 23);
    assert_eq!(list[0], "image/jpeg");
    assert_eq!(list[22], "image/svg+xml-compressed");
    assert!(list.contains(&"image/jxl"));
    assert!(list.contains(&"image/qoi"));
}

#[test]
fn image_handle() {
    let loader = Loader::new("/home/me/image.png".to_string());
    let image = Image::new(
        loader,
        "/org/gnome/glycin/image/1".to_string(),
        ImageDetails::new(4, 5),
        MimeType::png(),
        SandboxMechanism::Bwrap,
    );
    assert_eq!(image.details(), &ImageDetails::new(4, 5));
    assert_eq!(image.frame_request_path(), "/org/gnome/glycin/image/1");
    assert_eq!(image.mime_type(), &MimeType::png());
    assert_eq!(image.file(), Some("/home/me/image.png".to_string()));
    assert_eq!(image.active_sandbox_mechanism(), SandboxMechanism::Bwrap);
}

#[test]
fn new_frames() {
    let mut frame = NewFrame::new(2, 1, MemoryFormat::R8g8b8, vec![1, 2, 3, 4, 5, 6]);
    let sent = frame.frame().unwrap();
    assert_eq!((sent.width, sent.height, sent.stride), (2, 1, 6));
    assert_eq!(sent.texture.get_full(), vec![1, 2, 3, 4, 5, 6]);
    assert_eq!(sent.details, FrameDetails::default());
    frame.set_color_icc_profile(Some(vec![1, 2, 3]));
    let sent = frame.frame().unwrap();
    assert_eq!(sent.details.color_iccp, Some(BinaryData::from_data(vec![1, 2, 3])));
    let wide = NewFrame::new(1 << 31, 1, MemoryFormat::R8g8b8, vec![]);
    assert_eq!(wide.frame(), Err(Error::ConversionTooLarge));
}

#[test]
fn creator() {
    let config = registry();
    assert_eq!(
        Creator::new(MimeType::jpeg(), &config).err(),
        Some(Error::UnknownImageFormat("image/jpeg".to_string()))
    );
    let mut creator = Creator::new(MimeType::png(), &config).unwrap();
    assert_eq!(creator.mime_type(), &MimeType::png());
    assert_eq!(creator.selected_sandbox(), SandboxSelector::Auto);
    assert_eq!(creator.encoding_options().quality, None);
    assert_eq!(creator.set_encoding_quality(90), Ok(()));
    assert_eq!(creator.set_encoding_compression(50), Ok(()));
    assert_eq!(creator.encoding_options().quality, Some(90));
    assert_eq!(creator.encoding_options().compression, Some(50));
    creator.sandbox_selector(SandboxSelector::Bwrap);
    assert_eq!(creator.selected_sandbox(), SandboxSelector::Bwrap);

    assert_eq!(creator.add_frame(1, 1, MemoryFormat::R8g8b8, vec![255, 0, 0]), 0);
    assert_eq!(creator.add_frame(1, 1, MemoryFormat::G8, vec![7]), 1);
    assert!(creator.set_color_icc_profile(1, Some(vec![1, 2, 3])));
    assert!(!creator.set_color_icc_profile(2, None));

    creator.add_metadata_key_value("keyword".to_string(), "old".to_string()).unwrap();
    creator.add_metadata_key_value("other".to_string(), "x".to_string()).unwrap();
    creator.add_metadata_key_value("keyword".to_string(), "value".to_string()).unwrap();

    let image = creator.new_image().unwrap();
    assert_eq!(image.frames.len(), 2);
    assert_eq!(image.frames[0].texture.get_full(), vec![255, 0, 0]);
    assert_eq!(image.frames[0].memory_format, MemoryFormat::R8g8b8);
    assert_eq!(image.frames[1].details.color_iccp, Some(BinaryData::from_data(vec![1, 2, 3])));
    assert_eq!(
        image.image_info.metadata_key_value,
        Some(vec![
            ("other".to_string(), "x".to_string()),
            ("keyword".to_string(), "value".to_string())
        ])
    );

    creator.set_metadata_key_value(vec![("a".to_string(), "b".to_string())]).unwrap();
    assert_eq!(
        creator.new_image().unwrap().image_info.metadata_key_value,
        Some(vec![("a".to_string(), "b".to_string())])
    );
    creator.add_frame(1 << 31, 1, MemoryFormat::R8g8b8, vec![]);
    assert_eq!(creator.new_image(), Err(Error::ConversionTooLarge));
}

#[test]
fn editor_and_encoder_builders() {
    let mut editor = Editor::new("/home/me/image.jpg".to_string());
    assert_eq!(editor.source, Source::File("/home/me/image.jpg".to_string()));
    assert_eq!(editor.sandbox_selector, SandboxSelector::Auto);
    editor.sandbox_selector(SandboxSelector::FlatpakSpawn);
    assert_eq!(editor.sandbox_selector, SandboxSelector::FlatpakSpawn);
    assert_eq!(
        FeatureNotSupported.message(),
        "Feature not supported by this image format."
    );

    let image = single_frame_image(2, 1, MemoryFormat::G8a8, vec![1, 2, 3, 4]).unwrap();
    assert_eq!(image.image_info.width, 2);
    assert_eq!(image.image_info.height, 1);
    assert_eq!(image.frames.len(), 1);
    assert_eq!(image.frames[0].stride, 4);
    assert_eq!(image.frames[0].texture.get_full(), vec![1, 2, 3, 4]);
    assert_eq!(
        single_frame_image(1 << 31, 1, MemoryFormat::G8a8, vec![]),
        Err(Error::ConversionTooLarge)
    );
}

#[test]
fn plan_of_an_edit() {
    let mut config = registry();
    config.load_groups(&vec![ConfigGroup {
        name: "editor:image/svg+xml".to_string(),
        program: Some("/usr/libexec/glycin-svg".to_string()),
        expose_base_dir: Some(true),
        fontconfig: Some(true),
        operations: None,
    }]);
    let parent = Some("/home/me".to_string());
    let mut editor = Editor::new("/home/me/image.png".to_string());

    let plan = editor
        .plan(&config, &MimeType::png(), RunEnvironment::Host, parent.clone())
        .unwrap();
    assert_eq!(plan.program, "/usr/libexec/glycin-image-rs");
    assert!(!plan.fontconfig);
    assert_eq!(plan.sandbox_mechanism, SandboxMechanism::Bwrap);
    assert_eq!(plan.base_dir, None);
    assert_eq!(plan.key.exec(), "/usr/libexec/glycin-image-rs");

    editor.sandbox_selector(SandboxSelector::NotSandboxed);
    let open = editor
        .plan(&config, &MimeType::png(), RunEnvironment::Host, parent.clone())
        .unwrap();
    assert_eq!(open.sandbox_mechanism, SandboxMechanism::NotSandboxed);
    assert!(!open.key.same(&plan.key));
    assert!(plan.key.precedes(&open.key));

    // the helper for SVG asks for the directory of the image
    let svg = MimeType::new_static("image/svg+xml");
    let exposed = editor
        .plan(&config, &svg, RunEnvironment::Flatpak, parent.clone())
        .unwrap();
    assert_eq!(exposed.base_dir, parent);
    assert!(exposed.fontconfig);

    assert_eq!(
        editor.plan(&config, &MimeType::jpeg(), RunEnvironment::Host, None),
        Err(Error::UnknownImageFormat("image/jpeg".to_string()))
    );
    assert_eq!(
        editor.plan(&Config::new(), &MimeType::png(), RunEnvironment::Host, None),
        Err(Error::UnknownImageFormat("image/png".to_string()))
    );
}

#[test]
fn formats_that_need_floating_point_numbers() {
    let bytes = selection(&[MemoryFormat::R8g8b8, MemoryFormat::R8g8b8a8]);
    // a frame of floating point channels for a caller who takes bytes
    assert_eq!(
        float_target(MemoryFormat::R32g32b32Float, &bytes),
        Some(MemoryFormat::R8g8b8)
    );
    assert_eq!(
        float_target(MemoryFormat::R16g16b16a16Float, &bytes),
        Some(MemoryFormat::R8g8b8a8)
    );
    // a frame of bytes for a caller who takes floating point channels only
    let floats = selection(&[MemoryFormat::R32g32b32a32Float]);
    assert_eq!(
        float_target(MemoryFormat::R8g8b8, &floats),
        Some(MemoryFormat::R32g32b32a32Float)
    );
    // nothing is to be done where the format is accepted, where the library
    // converts, and where every format is taken
    assert_eq!(float_target(MemoryFormat::R32g32b32a32Float, &floats), None);
    assert_eq!(float_target(MemoryFormat::R16g16b16, &bytes), None);
    assert_eq!(float_target(MemoryFormat::R32g32b32Float, &selection(&[])), None);
    assert_eq!(
        float_target(MemoryFormat::R32g32b32Float, &MemoryFormatSelection::all()),
        None
    );
}

#[test]
fn new_image_as_it_is_sent() {
    let mut creator = Creator::new(MimeType::png(), &registry()).unwrap();
    creator.add_frame(2, 1, MemoryFormat::R16g16b16, vec![0; 12]);
    creator.add_frame(1, 1, MemoryFormat::G8, vec![7]);
    creator.set_color_icc_profile(0, Some(vec![9, 9]));
    let image = creator.new_image().unwrap();
    assert_eq!((image.image_info.width, image.image_info.height), (1, 1));
    assert_eq!(image.image_info.info_format_name, None);
    assert_eq!(image.image_info.info_dimensions_text, None);
    assert_eq!(image.image_info.metadata_exif, None);
    assert_eq!(image.image_info.metadata_xmp, None);
    assert_eq!(image.image_info.metadata_key_value, None);
    assert!(!image.image_info.transformation_ignore_exif);
    assert_eq!(image.image_info.transformation_orientation, None);
    assert_eq!(image.frames[0].stride, 12);
    assert_eq!(image.frames[1].stride, 1);
    for frame in &image.frames {
        assert_eq!(frame.delay, None);
        assert_eq!(frame.details.color_cicp, None);
        assert_eq!(frame.details.info_bit_depth, None);
        assert_eq!(frame.details.info_alpha_channel, None);
        assert_eq!(frame.details.info_grayscale, None);
        assert_eq!(frame.details.n_frame, None);
    }
    assert_eq!(
        image.frames[0].details.color_iccp,
        Some(BinaryData::from_data(vec![9, 9]))
    );
    assert_eq!(image.frames[1].details.color_iccp, None);
}

#[test]
fn steps_of_a_frame_in_their_order() {
    let mut loader = Loader::new("/home/me/image.png".to_string());
    let mut details = ImageDetails::new(2, 1);
    details.metadata_exif = Some(BinaryData::from_data(exif(6)));
    let mut frame = remote(2, 1, MemoryFormat::R8g8b8);
    frame.details.color_iccp = Some(BinaryData::from_data(vec![1, 2, 3]));
    frame.details.color_cicp = Some(vec![9, 16, 0, 1]);
    let pixels = vec![1, 2, 3, 4, 5, 6];

    // the profile is asked for, and a frame that fails its check is refused
    assert_eq!(color_step(&loader, &frame, 6), Ok(Some(vec![1, 2, 3])));
    assert!(matches!(
        color_step(&loader, &frame, 5),
        Err(Error::TextureTooSmall { .. })
    ));
    assert!(matches!(
        prepare(&loader, &details, frame.clone(), vec![0; 5], None),
        Err(Error::TextureTooSmall { .. })
    ));

    // the color space of the profile counts, and the pixels are turned
    let Ok(Prepared::Frame(turned)) = prepare(
        &loader,
        &details,
        frame.clone(),
        pixels.clone(),
        Some(ColorState::Srgb),
    ) else {
        panic!("no frame");
    };
    assert_eq!(turned.color_state(), ColorState::Srgb);
    assert_eq!((turned.width(), turned.height(), turned.stride()), (1, 2, 3));
    assert_eq!(
        turned.buf_slice(),
        &apply_exif_orientation(pixels.clone(), &mut frame.clone(), &details)
    );

    // without an applied profile the color space is what the helper told
    let Ok(Prepared::Frame(told)) =
        prepare(&loader, &details, frame.clone(), pixels.clone(), None)
    else {
        panic!("no frame");
    };
    assert!(matches!(told.color_state(), ColorState::Cicp(_)));

    // a caller who wants nothing applied gets the pixels as they came
    loader.apply_transformations(false);
    assert_eq!(color_step(&loader, &frame, 6), Ok(None));
    let Ok(Prepared::Frame(plain)) = prepare(
        &loader,
        &details,
        frame.clone(),
        pixels.clone(),
        Some(ColorState::Srgb),
    ) else {
        panic!("no frame");
    };
    assert_eq!(plain.buf_slice(), &pixels);
    assert_eq!((plain.width(), plain.height()), (2, 1));
    assert!(matches!(plain.color_state(), ColorState::Cicp(_)));

    // floating point channels are asked for after the pixels are turned
    loader.apply_transformations(true);
    loader.accepted_memory_formats(selection(&[MemoryFormat::R32g32b32Float]));
    let prepared = prepare(&loader, &details, frame.clone(), pixels.clone(), None).unwrap();
    let Prepared::Float {
        frame: turned,
        buffer,
        target,
        ..
    } = prepared
    else {
        panic!("no conversion");
    };
    assert_eq!(target, MemoryFormat::R32g32b32Float);
    assert_eq!((turned.width, turned.height), (1, 2));
    assert_eq!(buffer.len(), 6);
}

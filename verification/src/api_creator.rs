//! Editing and creating of images: what the caller asks for.

use crate::api_common::{base_dir_for, RunEnvironment, SandboxSelector};
use crate::api_loader::{text_of, LoadPlan, Source};
use crate::config::{Config, ConfigEntry, EditorEntry, EntryKey, ImageEditorConfig, MimeType};
use crate::editor_output::{EncodingOptions, NewImage};
use crate::error::Error;
use crate::frame::{BinaryData, Frame, FrameDetails, ImageDetails};
use crate::memory_format::{MemoryFormat, MemoryFormatInfo};
use crate::text::str_equal;
use vstd::prelude::*;
use vstd::string::*;

verus! {

/// The image format has no place for what was asked.
#[derive(Debug, Clone, Copy, PartialEq, Eq, Structural)]
pub struct FeatureNotSupported;

impl FeatureNotSupported {
    pub fn message(&self) -> (text: String)
        ensures
            text@ == "Feature not supported by this image format."@,
    {
        "Feature not supported by this image format.".to_owned()
    }
}

/// Image edit builder
#[derive(Debug, Clone, PartialEq, Eq)]
pub struct Editor {
    pub source: Source,
    pub sandbox_selector: SandboxSelector,
}

impl Editor {
    /// Create an editor.
    pub fn new(path: String) -> (editor: Editor)
        ensures
            editor.source == Source::File(path),
            editor.sandbox_selector == SandboxSelector::Auto,
    {
        Editor { source: Source::File(path), sandbox_selector: SandboxSelector::Auto }
    }

    /// Sets the method by which the sandbox mechanism is selected.
    ///
    /// The default without calling this function is [`SandboxSelector::Auto`].
    pub fn sandbox_selector(&mut self, sandbox_selector: SandboxSelector)
        ensures
            *final(self) == (Editor { sandbox_selector, ..*old(self) }),
    {
        self.sandbox_selector = sandbox_selector;
    }

    /// Settles what is needed to edit an image of the given MIME type: the
    /// helper of the registry, the sandbox for the environment, the
    /// directory that the helper may see, and the name of the helper in the
    /// pool.
    pub fn plan(
        &self,
        config: &Config,
        mime_type: &MimeType,
        environment: RunEnvironment,
        parent: Option<String>,
    ) -> (res: Result<LoadPlan, Error>)
        ensures
            match res {
                Ok(plan) => {
                    &&& config.editors().contains_key(mime_type@)
                    &&& plan.program@ == config.editors()[mime_type@].program
                    &&& plan.fontconfig == config.editors()[mime_type@].fontconfig
                    &&& plan.sandbox_mechanism == self.sandbox_selector.mechanism(environment)
                    &&& plan.base_dir == (if config.editors()[mime_type@].expose_base_dir {
                        parent
                    } else {
                        None
                    })
                    &&& plan.key@ == (EntryKey {
                        program: config.editors()[mime_type@].program,
                        expose_base_dir: config.editors()[mime_type@].expose_base_dir,
                        fontconfig: config.editors()[mime_type@].fontconfig,
                        base_dir: text_of(plan.base_dir),
                        sandbox_mechanism: plan.sandbox_mechanism,
                    })
                },
                Err(Error::UnknownImageFormat(name)) => name@ == mime_type@
                    && !config.editors().contains_key(mime_type@),
                Err(_) => false,
            },
    {
        let editor = match config.editor(mime_type) {
            Ok(editor) => editor,
            Err(e) => {
                return Err(e);
            },
        };
        let sandbox_mechanism = self.sandbox_selector.determine_sandbox_mechanism(environment);
        let base_dir = base_dir_for(editor.expose_base_dir, true, parent);
        let entry = ConfigEntry::Editor(
            ImageEditorConfig {
                program: editor.program.clone(),
                expose_base_dir: editor.expose_base_dir,
                fontconfig: editor.fontconfig,
                operations: editor.operations.clone(),
            },
        );
        let key_dir = match &base_dir {
            Some(dir) => Some(dir.clone()),
            None => None,
        };
        let key = entry.hash_value(key_dir, sandbox_mechanism);
        Ok(
            LoadPlan {
                program: editor.program.clone(),
                fontconfig: editor.fontconfig,
                sandbox_mechanism,
                base_dir,
                key,
            },
        )
    }
}

/// A frame of an image that is to be created.
#[derive(Debug, Clone, PartialEq, Eq)]
pub struct NewFrame {
    width: u32,
    height: u32,
    memory_format: MemoryFormat,
    texture: Vec<u8>,
    details: FrameDetails,
    icc_profile: Option<Vec<u8>>,
}

/// The bytes of optional bytes.
pub open spec fn bytes_of(bytes: Option<Vec<u8>>) -> Option<Seq<u8>> {
    match bytes {
        Some(b) => Some(b@),
        None => None,
    }
}

/// The bytes of optional binary data.
pub open spec fn binary_of(data: Option<BinaryData>) -> Option<Seq<u8>> {
    match data {
        Some(d) => Some(d@),
        None => None,
    }
}

impl NewFrame {
    /// Width of the frame in pixels.
    pub closed spec fn frame_width(&self) -> u32 {
        self.width
    }

    /// Height of the frame in pixels.
    pub closed spec fn frame_height(&self) -> u32 {
        self.height
    }

    /// Memory format of the pixels.
    pub closed spec fn format(&self) -> MemoryFormat {
        self.memory_format
    }

    /// The pixels.
    pub closed spec fn pixels(&self) -> Seq<u8> {
        self.texture@
    }

    /// The color profile of the frame.
    pub closed spec fn profile(&self) -> Option<Seq<u8>> {
        bytes_of(self.icc_profile)
    }

    pub fn new(width: u32, height: u32, memory_format: MemoryFormat, texture: Vec<u8>) -> (frame:
        NewFrame)
        ensures
            frame.frame_width() == width,
            frame.frame_height() == height,
            frame.format() == memory_format,
            frame.pixels() == texture@,
            frame.profile() is None,
    {
        NewFrame {
            width,
            height,
            memory_format,
            texture,
            details: FrameDetails::default(),
            icc_profile: None,
        }
    }

    pub fn set_color_icc_profile(&mut self, icc_profile: Option<Vec<u8>>)
        ensures
            final(self).profile() == bytes_of(icc_profile),
            final(self).frame_width() == old(self).frame_width(),
            final(self).frame_height() == old(self).frame_height(),
            final(self).format() == old(self).format(),
            final(self).pixels() == old(self).pixels(),
    {
        self.icc_profile = icc_profile;
    }

    /// Whether `frame` is this frame as it is sent to the helper: rows
    /// without padding, no delay, and of the details nothing but the color
    /// profile, where one was set.
    pub open spec fn sent_as(&self, frame: Frame) -> bool {
        &&& frame.width == self.frame_width()
        &&& frame.height == self.frame_height()
        &&& frame.memory_format == self.format()
        &&& frame.stride == self.frame_width() * self.format().bytes_per_pixel().count()
        &&& frame.texture@ == self.pixels()
        &&& frame.delay is None
        &&& binary_of(frame.details.color_iccp) == self.profile()
        &&& frame.details.color_cicp is None
        &&& frame.details.info_bit_depth is None
        &&& frame.details.info_alpha_channel is None
        &&& frame.details.info_grayscale is None
        &&& frame.details.n_frame is None
    }

    /// The frame as it is sent to the helper: rows without padding, with the
    /// color profile where one was set.
    pub fn frame(&self) -> (res: Result<Frame, Error>)
        ensures
            match res {
                Ok(frame) => self.sent_as(frame),
                Err(e) => e == Error::ConversionTooLarge && self.frame_width()
                    * self.format().bytes_per_pixel().count() > u32::MAX,
            },
    {
        let texture = BinaryData::from_data(self.texture.clone());
        let mut frame = match Frame::new(self.width, self.height, self.memory_format, texture) {
            Ok(frame) => frame,
            Err(e) => {
                return Err(Error::from_dimension_error(e));
            },
        };
        match &self.icc_profile {
            Some(profile) => {
                frame.details.color_iccp = Some(BinaryData::from_data(profile.clone()));
            },
            None => {},
        }
        Ok(frame)
    }
}

/// The entries of a list that do not have the given key.
pub open spec fn without_key(list: Seq<(String, String)>, key: Seq<char>) -> Seq<(String, String)>
    decreases list.len(),
{
    if list.len() == 0 {
        Seq::empty()
    } else {
        let head = without_key(list.drop_last(), key);
        if list.last().0@ == key {
            head
        } else {
            head.push(list.last())
        }
    }
}

/// Builder for a new image.
#[derive(Debug, Clone, PartialEq, Eq)]
pub struct Creator {
    mime_type: MimeType,
    config: ImageEditorConfig,
    sandbox_selector: SandboxSelector,
    encoding_options: EncodingOptions,
    key_value: Option<Vec<(String, String)>>,
    new_frames: Vec<NewFrame>,
}

impl Creator {
    /// The MIME type of the image that is created.
    pub closed spec fn mime(&self) -> MimeType {
        self.mime_type
    }

    /// The editor that creates the image.
    pub closed spec fn editor(&self) -> EditorEntry {
        self.config@
    }

    /// How the image is encoded.
    pub closed spec fn options(&self) -> EncodingOptions {
        self.encoding_options
    }

    /// The method by which the sandbox mechanism is selected.
    pub closed spec fn selector(&self) -> SandboxSelector {
        self.sandbox_selector
    }

    /// The frames of the image.
    pub closed spec fn frames(&self) -> Seq<NewFrame> {
        self.new_frames@
    }

    /// The metadata of the image as keys and values.
    pub closed spec fn key_values(&self) -> Option<Seq<(String, String)>> {
        match self.key_value {
            Some(list) => Some(list@),
            None => None,
        }
    }

    /// Create an encoder.
    pub fn new(mime_type: MimeType, config: &Config) -> (res: Result<Creator, Error>)
        ensures
            match res {
                Ok(creator) => config.editors().contains_key(mime_type@) && creator.editor()
                    == config.editors()[mime_type@] && creator.mime() == mime_type
                    && creator.frames().len() == 0 && creator.key_values() is None
                    && creator.options().quality is None && creator.options().compression is None
                    && creator.selector() == SandboxSelector::Auto,
                Err(Error::UnknownImageFormat(name)) => name@ == mime_type@
                    && !config.editors().contains_key(mime_type@),
                Err(_) => false,
            },
    {
        let editor = match config.editor(&mime_type) {
            Ok(editor) => editor,
            Err(e) => {
                return Err(e);
            },
        };
        let mut operations: Vec<crate::operations::OperationId> = Vec::new();
        let mut i: usize = 0;
        while i < editor.operations.len()
            invariant
                i <= editor.operations@.len(),
                operations@ == editor.operations@.subrange(0, i as int),
            decreases editor.operations@.len() - i,
        {
            operations.push(editor.operations[i]);
            assert(operations@ =~= editor.operations@.subrange(0, i + 1));
            i += 1;
        }
        assert(operations@ =~= editor.operations@);
        Ok(
            Creator {
                mime_type,
                config: ImageEditorConfig {
                    program: editor.program.clone(),
                    expose_base_dir: editor.expose_base_dir,
                    fontconfig: editor.fontconfig,
                    operations,
                },
                sandbox_selector: SandboxSelector::Auto,
                encoding_options: EncodingOptions::default(),
                key_value: None,
                new_frames: Vec::new(),
            },
        )
    }

    /// Adds a frame and tells its place among the frames.
    pub fn add_frame(
        &mut self,
        width: u32,
        height: u32,
        memory_format: MemoryFormat,
        texture: Vec<u8>,
    ) -> (index: usize)
        ensures
            index == old(self).frames().len(),
            final(self).frames().len() == index + 1,
            final(self).frames().subrange(0, index as int) == old(self).frames(),
            final(self).frames()[index as int].frame_width() == width,
            final(self).frames()[index as int].frame_height() == height,
            final(self).frames()[index as int].format() == memory_format,
            final(self).frames()[index as int].pixels() == texture@,
            final(self).frames()[index as int].profile() is None,
            final(self).mime() == old(self).mime(),
            final(self).options() == old(self).options(),
            final(self).key_values() == old(self).key_values(),
            final(self).selector() == old(self).selector(),
    {
        let index = self.new_frames.len();
        self.new_frames.push(NewFrame::new(width, height, memory_format, texture));
        assert(self.new_frames@.subrange(0, index as int) =~= old(self).new_frames@);
        index
    }

    /// Sets the color profile of a frame.
    pub fn set_color_icc_profile(&mut self, index: usize, icc_profile: Option<Vec<u8>>) -> (found:
        bool)
        ensures
            found == (index < old(self).frames().len()),
            final(self).frames().len() == old(self).frames().len(),
            found ==> {
                &&& final(self).frames()[index as int].profile() == bytes_of(icc_profile)
                &&& final(self).frames()[index as int].frame_width() == old(
                    self,
                ).frames()[index as int].frame_width()
                &&& final(self).frames()[index as int].frame_height() == old(
                    self,
                ).frames()[index as int].frame_height()
                &&& final(self).frames()[index as int].format() == old(
                    self,
                ).frames()[index as int].format()
                &&& final(self).frames()[index as int].pixels() == old(
                    self,
                ).frames()[index as int].pixels()
            },
            forall|i: int|
                0 <= i < old(self).frames().len() && i != index ==> final(self).frames()[i] == old(
                    self,
                ).frames()[i],
            final(self).mime() == old(self).mime(),
            final(self).options() == old(self).options(),
            final(self).key_values() == old(self).key_values(),
            final(self).selector() == old(self).selector(),
    {
        if index >= self.new_frames.len() {
            return false;
        }
        let mut frame = self.new_frames.remove(index);
        frame.set_color_icc_profile(icc_profile);
        self.new_frames.insert(index, frame);
        true
    }

    pub fn set_encoding_quality(&mut self, quality: u8) -> (res: Result<(), FeatureNotSupported>)
        ensures
            res is Ok,
            final(self).options() == (EncodingOptions {
                quality: Some(quality),
                ..old(self).options()
            }),
            final(self).frames() == old(self).frames(),
            final(self).mime() == old(self).mime(),
            final(self).key_values() == old(self).key_values(),
            final(self).selector() == old(self).selector(),
    {
        self.encoding_options.quality = Some(quality);
        Ok(())
    }

    /// Set compression level
    ///
    /// This sets the lossless compression level. The range is from 0 (no
    /// compression) to 100 (highest compression).
    pub fn set_encoding_compression(&mut self, compression: u8) -> (res: Result<
        (),
        FeatureNotSupported,
    >)
        ensures
            res is Ok,
            final(self).options() == (EncodingOptions {
                compression: Some(compression),
                ..old(self).options()
            }),
            final(self).frames() == old(self).frames(),
            final(self).mime() == old(self).mime(),
            final(self).key_values() == old(self).key_values(),
            final(self).selector() == old(self).selector(),
    {
        self.encoding_options.compression = Some(compression);
        Ok(())
    }

    pub fn set_metadata_key_value(&mut self, key_value: Vec<(String, String)>) -> (res: Result<
        (),
        FeatureNotSupported,
    >)
        ensures
            res is Ok,
            final(self).key_values() == Some(key_value@),
            final(self).frames() == old(self).frames(),
            final(self).mime() == old(self).mime(),
            final(self).options() == old(self).options(),
            final(self).selector() == old(self).selector(),
    {
        self.key_value = Some(key_value);
        Ok(())
    }

    /// Sets one value of the metadata. A value that was there for the key is
    /// replaced.
    pub fn add_metadata_key_value(&mut self, key: String, value: String) -> (res: Result<
        (),
        FeatureNotSupported,
    >)
        ensures
            res is Ok,
            final(self).key_values() == Some(
                without_key(
                    match old(self).key_values() {
                        Some(list) => list,
                        None => Seq::empty(),
                    },
                    key@,
                ).push((key, value)),
            ),
            final(self).frames() == old(self).frames(),
            final(self).mime() == old(self).mime(),
            final(self).options() == old(self).options(),
            final(self).selector() == old(self).selector(),
    {
        let mut kept: Vec<(String, String)> = Vec::new();
        match &self.key_value {
            Some(list) => {
                let mut i: usize = 0;
                while i < list.len()
                    invariant
                        i <= list@.len(),
                        kept@ == without_key(list@.subrange(0, i as int), key@),
                    decreases list@.len() - i,
                {
                    let ghost head = list@.subrange(0, i + 1);
                    assert(head.drop_last() =~= list@.subrange(0, i as int));
                    if !str_equal(list[i].0.as_str(), key.as_str()) {
                        kept.push((list[i].0.clone(), list[i].1.clone()));
                    }
                    i += 1;
                }
                assert(list@.subrange(0, i as int) =~= list@);
            },
            None => {},
        }
        kept.push((key, value));
        self.key_value = Some(kept);
        Ok(())
    }

    /// Sets the method by which the sandbox mechanism is selected.
    ///
    /// The default without calling this function is [`SandboxSelector::Auto`].
    pub fn sandbox_selector(&mut self, sandbox_selector: SandboxSelector)
        ensures
            final(self).selector() == sandbox_selector,
            final(self).frames() == old(self).frames(),
            final(self).mime() == old(self).mime(),
            final(self).options() == old(self).options(),
            final(self).key_values() == old(self).key_values(),
    {
        self.sandbox_selector = sandbox_selector;
    }

    /// The method by which the sandbox mechanism is selected.
    pub fn selected_sandbox(&self) -> (selector: SandboxSelector)
        ensures
            selector == self.selector(),
    {
        self.sandbox_selector
    }

    /// The options for the encoding.
    pub fn encoding_options(&self) -> (options: EncodingOptions)
        ensures
            options == self.options(),
    {
        self.encoding_options
    }

    /// The MIME type of the image.
    pub fn mime_type(&self) -> (mime_type: &MimeType)
        ensures
            *mime_type == self.mime(),
    {
        &self.mime_type
    }

    /// The image as it is sent to the helper: each frame as it is sent, and
    /// of the details of the image nothing but the keys and values. An image
    /// of one pixel stands for the sizes, which the frames tell.
    pub fn new_image(&self) -> (res: Result<NewImage, Error>)
        ensures
            match res {
                Ok(image) => {
                    &&& image.frames@.len() == self.frames().len()
                    &&& forall|i: int|
                        0 <= i < self.frames().len() ==> self.frames()[i].sent_as(
                            #[trigger] image.frames@[i],
                        )
                    &&& image.image_info.width == 1
                    &&& image.image_info.height == 1
                    &&& image.image_info.info_format_name is None
                    &&& image.image_info.info_dimensions_text is None
                    &&& image.image_info.metadata_exif is None
                    &&& image.image_info.metadata_xmp is None
                    &&& !image.image_info.transformation_ignore_exif
                    &&& image.image_info.transformation_orientation is None
                    &&& match self.key_values() {
                        Some(list) => image.image_info.metadata_key_value matches Some(copy)
                            && copy@ == list,
                        None => image.image_info.metadata_key_value is None,
                    }
                },
                Err(e) => e == Error::ConversionTooLarge && exists|i: int|
                    0 <= i < self.frames().len() && (#[trigger] self.frames()[i]).frame_width()
                        * self.frames()[i].format().bytes_per_pixel().count() > u32::MAX,
            },
    {
        let mut frames: Vec<Frame> = Vec::new();
        let mut i: usize = 0;
        while i < self.new_frames.len()
            invariant
                i <= self.new_frames@.len(),
                frames@.len() == i,
                forall|j: int| 0 <= j < i ==> self.new_frames@[j].sent_as(#[trigger] frames@[j]),
            decreases self.new_frames@.len() - i,
        {
            match self.new_frames[i].frame() {
                Ok(frame) => {
                    frames.push(frame);
                },
                Err(e) => {
                    assert(self.frames()[i as int].frame_width() * self.frames()[i as int].format(
                    ).bytes_per_pixel().count() > u32::MAX);
                    return Err(e);
                },
            }
            i += 1;
        }
        let mut image_info = ImageDetails::new(1, 1);
        image_info.metadata_key_value = match &self.key_value {
            Some(list) => {
                let mut copy: Vec<(String, String)> = Vec::new();
                let mut j: usize = 0;
                while j < list.len()
                    invariant
                        j <= list@.len(),
                        copy@ == list@.subrange(0, j as int),
                    decreases list@.len() - j,
                {
                    copy.push((list[j].0.clone(), list[j].1.clone()));
                    assert(copy@ =~= list@.subrange(0, j + 1));
                    j += 1;
                }
                assert(copy@ =~= list@);
                Some(copy)
            },
            None => None,
        };
        Ok(NewImage::new(image_info, frames))
    }
}

/// An image of one frame that is to be encoded.
pub fn single_frame_image(width: u32, height: u32, memory_format: MemoryFormat, data: Vec<u8>) -> (res:
    Result<NewImage, Error>)
    ensures
        match res {
            Ok(image) => image.frames@.len() == 1 && image.frames@[0].width == width
                && image.frames@[0].height == height && image.frames@[0].memory_format
                == memory_format && image.frames@[0].texture@ == data@ && image.frames@[0].stride
                == width * memory_format.bytes_per_pixel().count() && image.image_info.width
                == width && image.image_info.height == height,
            Err(e) => e == Error::ConversionTooLarge && width
                * memory_format.bytes_per_pixel().count() > u32::MAX,
        },
{
    let image_info = ImageDetails::new(width, height);
    let frame = match Frame::new(width, height, memory_format, BinaryData::from_data(data)) {
        Ok(frame) => frame,
        Err(e) => {
            return Err(Error::from_dimension_error(e));
        },
    };
    let mut frames: Vec<Frame> = Vec::new();
    frames.push(frame);
    Ok(NewImage::new(image_info, frames))
}

} // verus!

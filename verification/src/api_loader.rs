//! Loading of images: what the caller asks for, and what it gets.

use crate::api_common::{RunEnvironment, SandboxMechanism, SandboxSelector};
use crate::change_memory_format::{
    change_memory_format, conversion_fault, converted_frame, converted_rows, geometry,
};
use crate::color::{delivered_state, frame_color_state, ColorState};
use crate::editing::{oriented, oriented_frame};
use crate::config::{Config, ConfigEntry, ConfigEntryHash, EntryKey, MimeType};
use crate::error::Error;
use crate::frame::{
    frame_check, validate_frame, Delay, FrameDetails, FrameGeometry, ImageDetails,
};
use crate::memory_format::MemoryFormatInfo;
use crate::memory_format::MemoryFormat;
use crate::pipeline::{
    apply_exif_orientation, is_best, orientation_for, turnable, with_geometry,
    MemoryFormatSelection,
};
use crate::pixel::convertible;
use vstd::prelude::*;
use vstd::string::*;

verus! {

/// Image source for a loader/editor
#[derive(Debug, Clone, PartialEq, Eq)]
pub enum Source {
    /// A file, by its path
    File(String),
    /// A stream that the caller holds
    Stream,
    /// A stream that was handed to a helper and cannot be used again
    TransferredStream,
}

impl Source {
    /// The file of the source, if it is one.
    pub open spec fn path(self) -> Option<String> {
        match self {
            Source::File(path) => Some(path),
            _ => None,
        }
    }

    /// What is left of a source once it is handed to a helper: a file stays
    /// what it is, and a stream is gone.
    pub open spec fn left_behind(self) -> Source {
        match self {
            Source::File(path) => Source::File(path),
            _ => Source::TransferredStream,
        }
    }

    pub fn file(&self) -> (file: Option<String>)
        ensures
            file == self.path(),
    {
        match self {
            Source::File(path) => Some(path.clone()),
            _ => None,
        }
    }

    /// Tells whether the source can still be read.
    pub fn to_stream(&self) -> (res: Result<(), Error>)
        ensures
            match res {
                Ok(()) => *self != Source::TransferredStream,
                Err(e) => *self == Source::TransferredStream && e == Error::TransferredStream,
            },
    {
        match self {
            Source::TransferredStream => Err(Error::TransferredStream),
            _ => Ok(()),
        }
    }

    /// Get a [`Source`] for sending to a helper
    ///
    /// This will remove the stored stream from `self` to avoid it getting used
    /// anywhere else than the helper it has been sent to.
    pub fn send(&mut self) -> (sent: Source)
        ensures
            sent == *old(self),
            *final(self) == old(self).left_behind(),
    {
        let new = match self.file() {
            Some(path) => Source::File(path),
            None => Source::TransferredStream,
        };
        let mut sent = new;
        std::mem::swap(self, &mut sent);
        sent
    }
}

/// Image request builder
#[derive(Debug, Clone, PartialEq, Eq)]
pub struct Loader {
    pub source: Source,
    pub use_expose_base_dir: bool,
    pub apply_transformations: bool,
    pub sandbox_selector: SandboxSelector,
    pub memory_format_selection: MemoryFormatSelection,
}

/// What has to be there for an image to be loaded.
#[derive(Debug, Clone, PartialEq, Eq)]
pub struct LoadPlan {
    /// The program of the helper
    pub program: String,
    /// Whether the helper uses the fonts of the system
    pub fontconfig: bool,
    pub sandbox_mechanism: SandboxMechanism,
    /// The directory that the helper may see
    pub base_dir: Option<String>,
    /// What names the helper in the pool
    pub key: ConfigEntryHash,
}

/// The text of an optional text.
pub open spec fn text_of(text: Option<String>) -> Option<Seq<char>> {
    match text {
        Some(t) => Some(t@),
        None => None,
    }
}

impl Loader {
    /// Create a loader for a source
    pub fn new_source(source: Source) -> (loader: Loader)
        ensures
            loader.source == source,
            !loader.use_expose_base_dir,
            loader.apply_transformations,
            loader.sandbox_selector == SandboxSelector::Auto,
            forall|format: MemoryFormat| loader.memory_format_selection@.contains(format),
    {
        Loader {
            source,
            use_expose_base_dir: false,
            apply_transformations: true,
            sandbox_selector: SandboxSelector::Auto,
            memory_format_selection: MemoryFormatSelection::all(),
        }
    }

    /// Create a loader with a file as source
    pub fn new(path: String) -> (loader: Loader)
        ensures
            loader.source == Source::File(path),
            !loader.use_expose_base_dir,
            loader.apply_transformations,
            loader.sandbox_selector == SandboxSelector::Auto,
    {
        Loader::new_source(Source::File(path))
    }

    /// Sets the method by which the sandbox mechanism is selected.
    ///
    /// The default without calling this function is [`SandboxSelector::Auto`].
    pub fn sandbox_selector(&mut self, sandbox_selector: SandboxSelector)
        ensures
            *final(self) == (Loader { sandbox_selector, ..*old(self) }),
    {
        self.sandbox_selector = sandbox_selector;
    }

    /// Set whether to apply transformations to texture
    ///
    /// When enabled, transformations like image orientation are applied to the
    /// texture data.
    ///
    /// This option is enabled by default.
    pub fn apply_transformations(&mut self, apply_transformations: bool)
        ensures
            *final(self) == (Loader { apply_transformations, ..*old(self) }),
    {
        self.apply_transformations = apply_transformations;
    }

    /// Sets which memory formats can be returned by the loader
    ///
    /// If the memory format doesn't match one of the selected formats, the
    /// format will be transformed into the best suitable format selected.
    pub fn accepted_memory_formats(&mut self, memory_format_selection: MemoryFormatSelection)
        ensures
            *final(self) == (Loader { memory_format_selection, ..*old(self) }),
    {
        self.memory_format_selection = memory_format_selection;
    }

    /// Sets if the file's directory can be exposed to loaders
    ///
    /// Some loaders ask for the directory of the image to load external
    /// files. One example is SVGs which can display external images inside the
    /// picture. By default, this is off. The downside of enabling it is that
    /// separate sandboxes are needed for different base directories, which has
    /// a noticable performance impact when loading many small SVGs from many
    /// different directories.
    pub fn use_expose_base_dir(&mut self, use_expose_base_dir: bool)
        ensures
            *final(self) == (Loader { use_expose_base_dir, ..*old(self) }),
    {
        self.use_expose_base_dir = use_expose_base_dir;
    }

    /// Settles what is needed to load an image of the given MIME type: the
    /// helper of the registry, the sandbox for the environment, the
    /// directory that the helper may see, and the name of the helper in the
    /// pool.
    pub fn plan(
        &self,
        config: &Config,
        mime_type: &MimeType,
        environment: RunEnvironment,
        parent: Option<String>,
    ) -> (res: Result<LoadPlan, Error>)
        ensures
            match res {
                Ok(plan) => {
                    &&& config.loaders().contains_key(mime_type@)
                    &&& plan.program@ == config.loaders()[mime_type@].program
                    &&& plan.fontconfig == config.loaders()[mime_type@].fontconfig
                    &&& plan.sandbox_mechanism == self.sandbox_selector.mechanism(environment)
                    &&& plan.base_dir == (if config.loaders()[mime_type@].expose_base_dir
                        && self.use_expose_base_dir {
                        parent
                    } else {
                        None
                    })
                    &&& plan.key@ == (EntryKey {
                        program: config.loaders()[mime_type@].program,
                        expose_base_dir: config.loaders()[mime_type@].expose_base_dir,
                        fontconfig: config.loaders()[mime_type@].fontconfig,
                        base_dir: text_of(plan.base_dir),
                        sandbox_mechanism: plan.sandbox_mechanism,
                    })
                },
                Err(Error::NoLoadersConfigured) => config.loaders() == Map::<
                    Seq<char>,
                    crate::config::LoaderEntry,
                >::empty(),
                Err(Error::UnknownImageFormat(name)) => name@ == mime_type@
                    && !config.loaders().contains_key(mime_type@) && config.loaders() != Map::<
                    Seq<char>,
                    crate::config::LoaderEntry,
                >::empty(),
                Err(_) => false,
            },
    {
        let loader = match config.loader(mime_type) {
            Ok(loader) => loader,
            Err(e) => {
                return Err(e);
            },
        };
        let sandbox_mechanism = self.sandbox_selector.determine_sandbox_mechanism(environment);
        let base_dir = crate::api_common::base_dir_for(
            loader.expose_base_dir,
            self.use_expose_base_dir,
            parent,
        );
        let entry = ConfigEntry::Loader(
            crate::config::ImageLoaderConfig {
                program: loader.program.clone(),
                expose_base_dir: loader.expose_base_dir,
                fontconfig: loader.fontconfig,
            },
        );
        let key_dir = match &base_dir {
            Some(dir) => Some(dir.clone()),
            None => None,
        };
        let key = entry.hash_value(key_dir, sandbox_mechanism);
        Ok(
            LoadPlan {
                program: loader.program.clone(),
                fontconfig: loader.fontconfig,
                sandbox_mechanism,
                base_dir,
                key,
            },
        )
    }
}

/// The MIME types that the usual helpers load.
pub open spec fn default_mime_types() -> Seq<Seq<char>> {
    seq![
        "image/jpeg"@,
        "image/png"@,
        "image/gif"@,
        "image/webp"@,
        "image/tiff"@,
        "image/x-tga"@,
        "image/vnd-ms.dds"@,
        "image/x-dds"@,
        "image/bmp"@,
        "image/vnd.microsoft.icon"@,
        "image/vnd.radiance"@,
        "image/x-exr"@,
    ] + seq![
        "image/x-portable-bitmap"@,
        "image/x-portable-graymap"@,
        "image/x-portable-pixmap"@,
        "image/x-portable-anymap"@,
        "image/x-qoi"@,
        "image/qoi"@,
        "image/avif"@,
        "image/heif"@,
        "image/jxl"@,
        "image/svg+xml"@,
        "image/svg+xml-compressed"@,
    ]
}

/// Formats that the default glycin loaders support
pub fn default_mime_type_list() -> (list: Vec<&'static str>)
    ensures
        crate::seccomp::name_texts(list@) == default_mime_types(),
{
    let mut list: Vec<&'static str> = Vec::new();
    // image-rs
    list.push("image/jpeg");
    list.push("image/png");
    list.push("image/gif");
    list.push("image/webp");
    list.push("image/tiff");
    list.push("image/x-tga");
    list.push("image/vnd-ms.dds");
    list.push("image/x-dds");
    list.push("image/bmp");
    list.push("image/vnd.microsoft.icon");
    list.push("image/vnd.radiance");
    list.push("image/x-exr");
    let ghost first = crate::seccomp::name_texts(list@);
    assert(first =~= seq![
        "image/jpeg"@,
        "image/png"@,
        "image/gif"@,
        "image/webp"@,
        "image/tiff"@,
        "image/x-tga"@,
        "image/vnd-ms.dds"@,
        "image/x-dds"@,
        "image/bmp"@,
        "image/vnd.microsoft.icon"@,
        "image/vnd.radiance"@,
        "image/x-exr"@,
    ]);
    list.push("image/x-portable-bitmap");
    list.push("image/x-portable-graymap");
    list.push("image/x-portable-pixmap");
    list.push("image/x-portable-anymap");
    list.push("image/x-qoi");
    list.push("image/qoi");
    // HEIF
    list.push("image/avif");
    list.push("image/heif");
    // JXL
    list.push("image/jxl");
    // SVG
    list.push("image/svg+xml");
    list.push("image/svg+xml-compressed");
    assert(crate::seccomp::name_texts(list@) =~= first + seq![
        "image/x-portable-bitmap"@,
        "image/x-portable-graymap"@,
        "image/x-portable-pixmap"@,
        "image/x-portable-anymap"@,
        "image/x-qoi"@,
        "image/qoi"@,
        "image/avif"@,
        "image/heif"@,
        "image/jxl"@,
        "image/svg+xml"@,
        "image/svg+xml-compressed"@,
    ]);
    list
}

/// Image handle containing metadata and allowing frame requests
#[derive(Debug, Clone, PartialEq, Eq)]
pub struct Image {
    loader: Loader,
    frame_request: String,
    details: ImageDetails,
    mime_type: MimeType,
    active_sandbox_mechanism: SandboxMechanism,
}

impl Image {
    /// The request that the image came from.
    pub closed spec fn request(&self) -> Loader {
        self.loader
    }

    /// The place at which the helper serves the frames of the image.
    pub closed spec fn frame_request(&self) -> Seq<char> {
        self.frame_request@
    }

    /// What the helper has told of the image.
    pub closed spec fn info(&self) -> ImageDetails {
        self.details
    }

    /// The MIME type that was detected.
    pub closed spec fn mime(&self) -> MimeType {
        self.mime_type
    }

    /// The sandbox in which the helper runs.
    pub closed spec fn mechanism(&self) -> SandboxMechanism {
        self.active_sandbox_mechanism
    }

    /// The handle for an image that a helper has opened.
    pub fn new(
        loader: Loader,
        frame_request: String,
        details: ImageDetails,
        mime_type: MimeType,
        active_sandbox_mechanism: SandboxMechanism,
    ) -> (image: Image)
        ensures
            image.request() == loader,
            image.frame_request() == frame_request@,
            image.info() == details,
            image.mime() == mime_type,
            image.mechanism() == active_sandbox_mechanism,
    {
        Image { loader, frame_request, details, mime_type, active_sandbox_mechanism }
    }

    /// Returns already obtained info
    pub fn details(&self) -> (details: &ImageDetails)
        ensures
            *details == self.info(),
    {
        &self.details
    }

    /// Returns the place at which frames are asked for
    pub fn frame_request_path(&self) -> (path: &str)
        ensures
            path@ == self.frame_request(),
    {
        self.frame_request.as_str()
    }

    /// Returns detected MIME type of the file
    pub fn mime_type(&self) -> (mime_type: &MimeType)
        ensures
            *mime_type == self.mime(),
    {
        &self.mime_type
    }

    /// File the image was loaded from
    ///
    /// Is `None` if the file was loaded from a stream or binary data.
    pub fn file(&self) -> (file: Option<String>)
        ensures
            file == self.request().source.path(),
    {
        self.loader.source.file()
    }

    /// Active sandbox mechanism
    pub fn active_sandbox_mechanism(&self) -> (mechanism: SandboxMechanism)
        ensures
            mechanism == self.mechanism(),
    {
        self.active_sandbox_mechanism
    }
}

/// A frame of an image often being the complete image
#[derive(Debug, Clone, PartialEq, Eq)]
pub struct Frame {
    buffer: Vec<u8>,
    geometry: FrameGeometry,
    delay: Option<Delay>,
    details: FrameDetails,
    color_state: ColorState,
}

/// What the frame of a helper comes to on its way to the caller.
pub enum Delivered {
    /// The pixels and their frame
    Frame(Seq<u8>, crate::frame::Frame),
    /// The frame does not pass the checks
    Refused(Error),
}

/// The frame that the caller gets for the frame of a helper.
///
/// The frame has to pass the checks against its texture. It is brought
/// into the format that serves it best among those that the caller accepts.
/// Where the caller accepts none, the frame stays as it is. So it does where
/// the format of the frame or the best format has floating point channels:
/// that conversion has to be made before, as `float_conversion` tells. A
/// frame that would grow beyond the largest texture size is refused.
pub open spec fn delivered(
    remote: crate::frame::Frame,
    buffer: Seq<u8>,
    accepted: Seq<MemoryFormat>,
) -> Delivered {
    match frame_check(remote, buffer.len()) {
        Err(e) => Delivered::Refused(e),
        Ok(()) => if accepted.len() == 0 {
            Delivered::Frame(buffer, remote)
        } else {
            let target = choose|best: MemoryFormat| is_best(accepted, remote.memory_format, best);
            if target != remote.memory_format && conversion_fault(buffer.len(), remote, target)
                is None {
                if remote.width * target.bytes_per_pixel().count() * remote.height
                    > crate::frame::MAX_TEXTURE_SIZE {
                    Delivered::Refused(Error::TextureTooLarge)
                } else {
                    Delivered::Frame(
                        converted_rows(buffer, remote, target, remote.height as nat),
                        converted_frame(remote, target),
                    )
                }
            } else {
                Delivered::Frame(buffer, remote)
            }
        },
    }
}

/// The format into which pixels have to be brought before the frame is
/// delivered, because the conversion goes through floating point numbers:
/// the best of the accepted formats, where it is not the format of the frame
/// and one of the two has floating point channels.
pub open spec fn float_conversion(source: MemoryFormat, accepted: Seq<MemoryFormat>) -> Option<
    MemoryFormat,
> {
    if accepted.len() == 0 {
        None
    } else {
        let target = choose|best: MemoryFormat| is_best(accepted, source, best);
        if target != source && (!convertible(source) || !convertible(target)) {
            Some(target)
        } else {
            None
        }
    }
}

/// Tells the format into which the pixels of a frame have to be brought
/// with floating point numbers, before [`Frame::deliver`] takes the frame.
/// That conversion is not made in this library.
pub fn float_target(source: MemoryFormat, accepted: &MemoryFormatSelection) -> (target: Option<
    MemoryFormat,
>)
    ensures
        target == float_conversion(source, accepted@),
{
    match accepted.best_format_for(source) {
        Some(target) => {
            proof {
                let chosen = choose|best: MemoryFormat| is_best(accepted@, source, best);
                crate::dbus_editor_api::lemma_best_is_unique(accepted@, source, target, chosen);
            }
            if !(target == source) && (!crate::change_memory_format::is_convertible(source)
                || !crate::change_memory_format::is_convertible(target)) {
                Some(target)
            } else {
                None
            }
        },
        None => None,
    }
}

/// The bytes of optional bytes.
pub open spec fn bytes_view(bytes: Option<Vec<u8>>) -> Option<Seq<u8>> {
    match bytes {
        Some(b) => Some(b@),
        None => None,
    }
}

/// The color profile that is applied to the pixels of a frame before
/// anything else is done with them: the profile of the frame, where the
/// caller wants transformations applied.
pub open spec fn profile_to_apply(loader: Loader, remote: crate::frame::Frame) -> Option<Seq<u8>> {
    if loader.apply_transformations {
        match remote.details.color_iccp {
            Some(profile) => Some(profile@),
            None => None,
        }
    } else {
        None
    }
}

/// The first step on the way of a frame to the caller: the frame is checked
/// against its texture, and the color profile is told that has to be
/// applied to the pixels, if there is one.
pub fn color_step(loader: &Loader, remote: &crate::frame::Frame, buffer_len: usize) -> (res: Result<
    Option<Vec<u8>>,
    Error,
>)
    ensures
        match res {
            Ok(profile) => frame_check(*remote, buffer_len as nat) is Ok && bytes_view(profile)
                == profile_to_apply(*loader, *remote),
            Err(e) => frame_check(*remote, buffer_len as nat) == Err::<(), Error>(e),
        },
{
    match validate_frame(remote, buffer_len) {
        Ok(()) => {},
        Err(e) => {
            return Err(e);
        },
    }
    if !loader.apply_transformations {
        return Ok(None);
    }
    match &remote.details.color_iccp {
        Some(profile) => Ok(Some(profile.get_full())),
        None => Ok(None),
    }
}

/// The color space of the pixels after the color step: the one that the
/// profile has led to, where a profile was to be applied and was applied,
/// and else the one that the helper has told.
pub open spec fn color_after(
    loader: Loader,
    remote: crate::frame::Frame,
    transformed: Option<ColorState>,
) -> ColorState {
    match transformed {
        Some(state) => if profile_to_apply(loader, remote) is Some {
            state
        } else {
            delivered_state(bytes_view(remote.details.color_cicp))
        },
        None => delivered_state(bytes_view(remote.details.color_cicp)),
    }
}

/// Buffer and frame after the second step: turned upright, where the caller
/// wants transformations applied, the image has an orientation, and the
/// frame can be turned.
pub open spec fn turned(
    loader: Loader,
    details: ImageDetails,
    remote: crate::frame::Frame,
    buffer: Seq<u8>,
) -> (Seq<u8>, crate::frame::Frame) {
    if !loader.apply_transformations {
        (buffer, remote)
    } else {
        match orientation_for(details) {
            Some(orientation) => if turnable(buffer.len(), remote, orientation) {
                (
                    oriented(buffer, geometry(remote), orientation),
                    with_geometry(remote, oriented_frame(geometry(remote), orientation)),
                )
            } else {
                (buffer, remote)
            },
            None => (buffer, remote),
        }
    }
}

/// What a frame has come to after the steps that follow the color step.
#[derive(Debug, Clone, PartialEq, Eq)]
pub enum Prepared {
    /// The frame as the caller gets it
    Frame(Frame),
    /// The pixels have to be brought into the target format with floating
    /// point numbers, and then to be delivered
    Float {
        frame: crate::frame::Frame,
        buffer: Vec<u8>,
        target: MemoryFormat,
        color_state: ColorState,
    },
}

/// The steps on the way of a frame to the caller that follow the color step,
/// in their order: the frame is checked against its texture, the color space
/// is settled, the pixels are turned upright, and they are brought into a
/// format that the caller accepts. Where that takes floating point numbers,
/// the frame is handed back for it as it then stands.
///
/// `buffer` holds the pixels after the color step, and `transformed` the
/// color space that the step has led to, if a profile was applied.
pub fn prepare(
    loader: &Loader,
    details: &ImageDetails,
    remote: crate::frame::Frame,
    buffer: Vec<u8>,
    transformed: Option<ColorState>,
) -> (res: Result<Prepared, Error>)
    ensures
        match frame_check(remote, buffer@.len()) {
            Err(e) => res matches Err(found) && found == e,
            Ok(()) => {
                let after = turned(*loader, *details, remote, buffer@);
                let color = color_after(*loader, remote, transformed);
                match float_conversion(after.1.memory_format, loader.memory_format_selection@) {
                    Some(wanted) => res matches Ok(
                        Prepared::Float { frame, buffer: pixels, target, color_state },
                    ) && frame == after.1 && pixels@ == after.0 && target == wanted && color_state
                        == color,
                    None => match res {
                        Ok(Prepared::Frame(frame)) => delivered(
                            after.1,
                            after.0,
                            loader.memory_format_selection@,
                        ) matches Delivered::Frame(pixels, packed) && frame.pixels() == pixels
                            && frame.geometry() == packed.geometry() && frame.shown_for()
                            == after.1.delay && frame.about() == after.1.details && frame.colors()
                            == color,
                        Ok(_) => false,
                        Err(e) => delivered(after.1, after.0, loader.memory_format_selection@)
                            == Delivered::Refused(e),
                    },
                }
            },
        },
{
    match validate_frame(&remote, buffer.len()) {
        Ok(()) => {},
        Err(e) => {
            return Err(e);
        },
    }
    let told = frame_color_state(&remote.details.color_cicp);
    let color_state = match transformed {
        Some(state) => if loader.apply_transformations && remote.details.color_iccp.is_some() {
            state
        } else {
            told
        },
        None => told,
    };
    let mut frame = remote;
    let mut buffer = buffer;
    if loader.apply_transformations {
        buffer = apply_exif_orientation(buffer, &mut frame, details);
    }
    match float_target(frame.memory_format, &loader.memory_format_selection) {
        Some(target) => Ok(Prepared::Float { frame, buffer, target, color_state }),
        None => match Frame::deliver(frame, buffer, &loader.memory_format_selection, color_state) {
            Ok(frame) => Ok(Prepared::Frame(frame)),
            Err(e) => Err(e),
        },
    }
}

impl Frame {
    /// The pixels of the frame.
    pub closed spec fn pixels(&self) -> Seq<u8> {
        self.buffer@
    }

    /// Size and layout of the frame.
    pub closed spec fn geometry(&self) -> FrameGeometry {
        self.geometry
    }

    /// The time for which the frame is shown.
    pub closed spec fn shown_for(&self) -> Option<Delay> {
        self.delay
    }

    /// What the helper has told of the frame.
    pub closed spec fn about(&self) -> FrameDetails {
        self.details
    }

    /// The color space of the pixels.
    pub closed spec fn colors(&self) -> ColorState {
        self.color_state
    }

    /// Checks the frame of a helper and brings its pixels into a format that
    /// the caller accepts.
    ///
    /// A frame that reaches the caller has rows that hold its pixels and
    /// takes no more than the largest texture size.
    pub fn deliver(
        remote: crate::frame::Frame,
        buffer: Vec<u8>,
        accepted: &MemoryFormatSelection,
        color_state: ColorState,
    ) -> (res: Result<Frame, Error>)
        ensures
            match res {
                Ok(frame) => delivered(remote, buffer@, accepted@) matches Delivered::Frame(
                    pixels,
                    packed,
                ) && frame.pixels() == pixels && frame.geometry() == packed.geometry()
                    && frame.shown_for() == remote.delay && frame.about() == remote.details
                    && frame.colors() == color_state,
                Err(e) => delivered(remote, buffer@, accepted@) == Delivered::Refused(e),
            },
            res matches Ok(frame) ==> frame.geometry().stride >= frame.geometry().width
                * frame.geometry().memory_format.bytes_per_pixel().count()
                && frame.geometry().stride * frame.geometry().height
                <= crate::frame::MAX_TEXTURE_SIZE,
    {
        match validate_frame(&remote, buffer.len()) {
            Ok(()) => {},
            Err(e) => {
                return Err(e);
            },
        }
        let mut packed = remote;
        let ghost checked = packed;
        let mut buffer = buffer;
        let ghost original = buffer@;
        match accepted.best_format_for(packed.memory_format) {
            Some(target) => {
                proof {
                    let chosen = choose|best: MemoryFormat|
                        is_best(accepted@, checked.memory_format, best);
                    crate::dbus_editor_api::lemma_best_is_unique(
                        accepted@,
                        checked.memory_format,
                        target,
                        chosen,
                    );
                    crate::change_memory_format::lemma_converted_rows_len(
                        original,
                        checked,
                        target,
                        checked.height as nat,
                    );
                }
                if !(packed.memory_format == target) {
                    let copy = buffer.clone();
                    match change_memory_format(copy, &mut packed, target) {
                        Ok(new) => {
                            assert(packed.stride as int * packed.height as int <= 0xffff_ffff
                                * 0xffff_ffff) by (nonlinear_arith)
                                requires
                                    packed.stride <= 0xffff_ffff,
                                    packed.height <= 0xffff_ffff,
                            ;
                            assert(packed.stride * packed.height == checked.width
                                * target.bytes_per_pixel().count() * checked.height);
                            if packed.stride as u64 * packed.height as u64
                                > crate::frame::MAX_TEXTURE_SIZE {
                                return Err(Error::TextureTooLarge);
                            }
                            buffer = new;
                        },
                        Err(_) => {},
                    }
                }
            },
            None => {},
        }
        Ok(
            Frame {
                buffer,
                geometry: FrameGeometry {
                    width: packed.width,
                    height: packed.height,
                    stride: packed.stride,
                    memory_format: packed.memory_format,
                },
                delay: packed.delay,
                details: packed.details,
                color_state,
            },
        )
    }

    pub fn buf_slice(&self) -> (buffer: &Vec<u8>)
        ensures
            buffer@ == self.pixels(),
    {
        &self.buffer
    }

    /// Width in pixels
    pub fn width(&self) -> (width: u32)
        ensures
            width == self.geometry().width,
    {
        self.geometry.width
    }

    /// Height in pixels
    pub fn height(&self) -> (height: u32)
        ensures
            height == self.geometry().height,
    {
        self.geometry.height
    }

    /// Line stride in bytes
    pub fn stride(&self) -> (stride: u32)
        ensures
            stride == self.geometry().stride,
    {
        self.geometry.stride
    }

    pub fn memory_format(&self) -> (memory_format: MemoryFormat)
        ensures
            memory_format == self.geometry().memory_format,
    {
        self.geometry.memory_format
    }

    pub fn color_state(&self) -> (color_state: ColorState)
        ensures
            color_state == self.colors(),
    {
        self.color_state
    }

    /// Duration to show frame for animations.
    ///
    /// If the value is not set, the image is not animated.
    pub fn delay(&self) -> (delay: Option<Delay>)
        ensures
            delay == self.shown_for(),
    {
        self.delay
    }

    pub fn details(&self) -> (details: &FrameDetails)
        ensures
            *details == self.about(),
    {
        &self.details
    }
}

} // verus!

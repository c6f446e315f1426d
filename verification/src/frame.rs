//! Frames and image details as helpers hand them to the host, and the checks
//! that a frame passes before it is handed on.

use crate::editing::EditingFrame;
use crate::error::Error;
use crate::memory_format::{ExtendedMemoryFormat, MemoryFormat, MemoryFormatInfo};
use crate::orientation::Orientation;
use vstd::prelude::*;

verus! {

/// Largest number of bytes that a texture may have: 8 GB.
pub const MAX_TEXTURE_SIZE: u64 = 8_000_000_000;

/// A size does not fit into the integers that hold it.
#[derive(Debug, Clone, Copy, PartialEq, Eq, Structural)]
pub struct DimensionTooLargerError;

/// A block of bytes that cannot be changed once it is made.
#[derive(Debug, Clone, PartialEq, Eq)]
pub struct BinaryData {
    data: Vec<u8>,
}

impl View for BinaryData {
    type V = Seq<u8>;

    closed spec fn view(&self) -> Seq<u8> {
        self.data@
    }
}

impl BinaryData {
    pub fn from_data(data: Vec<u8>) -> (binary: BinaryData)
        ensures
            binary@ == data@,
    {
        BinaryData { data }
    }

    /// Get a copy of the binary data
    pub fn get_full(&self) -> (data: Vec<u8>)
        ensures
            data@ == self@,
    {
        self.data.clone()
    }

    /// Get a reference to the binary data
    pub fn get(&self) -> (data: &Vec<u8>)
        ensures
            data@ == self@,
    {
        &self.data
    }

    pub fn len(&self) -> (len: usize)
        ensures
            len == self@.len(),
    {
        self.data.len()
    }
}

/// Time for which a frame of an animation is shown.
#[derive(Debug, Clone, Copy, PartialEq, Eq, Structural)]
pub struct Delay {
    pub secs: u64,
    pub nanos: u32,
}

/// More information about a frame
#[derive(Debug, Clone, PartialEq, Eq)]
pub struct FrameDetails {
    /// ICC color profile
    pub color_iccp: Option<BinaryData>,
    /// Coding-independent code points (HDR information)
    pub color_cicp: Option<Vec<u8>>,
    /// Bit depth per channel
    ///
    /// Only set if it can differ for the format
    pub info_bit_depth: Option<u8>,
    /// Image has alpha channel
    ///
    /// Only set if it can differ for the format
    pub info_alpha_channel: Option<bool>,
    /// Image uses grayscale mode
    ///
    /// Only set if it can differ for the format
    pub info_grayscale: Option<bool>,
    pub n_frame: Option<u64>,
}

impl FrameDetails {
    /// Whether nothing is known about the frame.
    pub open spec fn is_empty(&self) -> bool {
        &&& self.color_iccp is None
        &&& self.color_cicp is None
        &&& self.info_bit_depth is None
        &&& self.info_alpha_channel is None
        &&& self.info_grayscale is None
        &&& self.n_frame is None
    }
}

impl Default for FrameDetails {
    fn default() -> (details: FrameDetails)
        ensures
            details.is_empty(),
    {
        FrameDetails {
            color_iccp: None,
            color_cicp: None,
            info_bit_depth: None,
            info_alpha_channel: None,
            info_grayscale: None,
            n_frame: None,
        }
    }
}

/// Various image metadata
#[derive(Debug, Clone, PartialEq, Eq)]
pub struct ImageDetails {
    /// Early dimension information.
    ///
    /// This information is often correct. However, it should only be used for
    /// an early rendering estimates. For everything else, the specific frame
    /// information should be used.
    pub width: u32,
    pub height: u32,
    pub info_format_name: Option<String>,
    /// Textual description of the image dimensions
    pub info_dimensions_text: Option<String>,
    pub metadata_exif: Option<BinaryData>,
    pub metadata_xmp: Option<BinaryData>,
    pub metadata_key_value: Option<Vec<(String, String)>>,
    /// The helper has applied the orientation already
    pub transformation_ignore_exif: bool,
    /// Orientation that goes before the one of the Exif data
    pub transformation_orientation: Option<Orientation>,
}

impl ImageDetails {
    pub fn new(width: u32, height: u32) -> (details: ImageDetails)
        ensures
            details.width == width,
            details.height == height,
            details.info_format_name is None,
            details.info_dimensions_text is None,
            details.metadata_exif is None,
            details.metadata_xmp is None,
            details.metadata_key_value is None,
            !details.transformation_ignore_exif,
            details.transformation_orientation is None,
    {
        ImageDetails {
            width,
            height,
            info_format_name: None,
            info_dimensions_text: None,
            metadata_exif: None,
            metadata_xmp: None,
            metadata_key_value: None,
            transformation_ignore_exif: false,
            transformation_orientation: None,
        }
    }
}

/// What a caller wants of a frame. Helpers may ignore parts that they do not
/// support.
#[derive(Debug, Clone, Copy, PartialEq, Eq)]
pub struct FrameRequest {
    /// Scale image to these dimensions
    pub scale: Option<(u32, u32)>,
    /// Instruction to only decode part of the image
    pub clip: Option<(u32, u32, u32, u32)>,
}

impl FrameRequest {
    pub fn new() -> (request: FrameRequest)
        ensures
            request.scale is None,
            request.clip is None,
    {
        FrameRequest { scale: None, clip: None }
    }

    pub fn scale(self, width: u32, height: u32) -> (request: FrameRequest)
        ensures
            request.scale == Some((width, height)),
            request.clip == self.clip,
    {
        FrameRequest { scale: Some((width, height)), clip: self.clip }
    }

    pub fn clip(self, x: u32, y: u32, width: u32, height: u32) -> (request: FrameRequest)
        ensures
            request.clip == Some((x, y, width, height)),
            request.scale == self.scale,
    {
        FrameRequest { scale: self.scale, clip: Some((x, y, width, height)) }
    }
}

/// Size and layout of a frame, for reports.
#[derive(Debug, Clone, Copy, PartialEq, Eq, Structural)]
pub struct FrameGeometry {
    pub width: u32,
    pub height: u32,
    pub stride: u32,
    pub memory_format: MemoryFormat,
}

/// One image of a file, with its pixels.
#[derive(Debug, Clone, PartialEq, Eq)]
pub struct Frame {
    pub width: u32,
    pub height: u32,
    /// Line stride
    pub stride: u32,
    pub memory_format: MemoryFormat,
    pub texture: BinaryData,
    /// Duration to show frame for animations.
    ///
    /// If the value is not set, the image is not animated.
    pub delay: Option<Delay>,
    pub details: FrameDetails,
}

impl Frame {
    /// Size and layout of the frame.
    pub open spec fn geometry(&self) -> FrameGeometry {
        FrameGeometry {
            width: self.width,
            height: self.height,
            stride: self.stride,
            memory_format: self.memory_format,
        }
    }

    /// Bytes of one pixel.
    pub open spec fn pixel_size(&self) -> int {
        self.memory_format.bytes_per_pixel().count()
    }

    /// A frame with rows that follow each other without padding.
    pub fn new(width: u32, height: u32, memory_format: MemoryFormat, texture: BinaryData) -> (res:
        Result<Frame, DimensionTooLargerError>)
        ensures
            match res {
                Ok(frame) => {
                    &&& frame.width == width
                    &&& frame.height == height
                    &&& frame.stride == width * memory_format.bytes_per_pixel().count()
                    &&& frame.memory_format == memory_format
                    &&& frame.texture == texture
                    &&& frame.delay is None
                    &&& frame.details.is_empty()
                },
                Err(_) => width * memory_format.bytes_per_pixel().count() > u32::MAX,
            },
    {
        let stride = width as u64 * memory_format.n_bytes().u64();
        if stride > u32::MAX as u64 {
            return Err(DimensionTooLargerError);
        }
        Ok(
            Frame {
                width,
                height,
                stride: stride as u32,
                memory_format,
                texture,
                delay: None,
                details: FrameDetails::default(),
            },
        )
    }

    /// Number of bytes that the rows of the frame take.
    pub fn n_bytes(&self) -> (res: Result<usize, DimensionTooLargerError>)
        ensures
            match res {
                Ok(n) => n == self.stride * self.height,
                Err(_) => self.stride * self.height > usize::MAX,
            },
    {
        assert(self.stride as int * self.height as int <= 0xffff_ffff * 0xffff_ffff)
            by (nonlinear_arith)
            requires
                self.stride <= 0xffff_ffff,
                self.height <= 0xffff_ffff,
        ;
        let total = self.stride as u64 * self.height as u64;
        if total > usize::MAX as u64 {
            Err(DimensionTooLargerError)
        } else {
            Ok(total as usize)
        }
    }

    /// The frame as the editing functions see it.
    pub fn editing_frame(&self) -> (frame: EditingFrame)
        ensures
            frame == (EditingFrame {
                width: self.width,
                height: self.height,
                stride: self.stride,
                memory_format: ExtendedMemoryFormat::Basic(self.memory_format),
            }),
    {
        EditingFrame {
            width: self.width,
            height: self.height,
            stride: self.stride,
            memory_format: ExtendedMemoryFormat::Basic(self.memory_format),
        }
    }

    fn report(&self) -> (geometry: FrameGeometry)
        ensures
            geometry == self.geometry(),
    {
        FrameGeometry {
            width: self.width,
            height: self.height,
            stride: self.stride,
            memory_format: self.memory_format,
        }
    }
}

/// What the check of a frame against a texture of `texture_len` bytes says.
///
/// The texture has to hold `stride * height` bytes, a row has to hold `width`
/// pixels, neither side may be zero, the rows may not take more than
/// [`MAX_TEXTURE_SIZE`] bytes, and the sizes have to fit the integers of the
/// toolkit that shows the frame.
pub open spec fn frame_check(frame: Frame, texture_len: nat) -> Result<(), Error> {
    let total = frame.stride * frame.height;
    if total > usize::MAX {
        Err(Error::ConversionTooLarge)
    } else if texture_len < total {
        Err(Error::TextureTooSmall { texture_size: texture_len as u64, frame: frame.geometry() })
    } else if frame.stride < frame.width * frame.pixel_size() {
        Err(Error::StrideTooSmall(frame.geometry()))
    } else if frame.width < 1 || frame.height < 1 {
        Err(Error::WidthOrHeightZero(frame.geometry()))
    } else if total > MAX_TEXTURE_SIZE {
        Err(Error::TextureTooLarge)
    } else if frame.width > i32::MAX || frame.height > i32::MAX {
        Err(Error::ConversionTooLarge)
    } else {
        Ok(())
    }
}

/// A frame that passes the check has rows that hold its pixels, takes no more
/// than the largest texture size, and lies inside of its texture.
pub proof fn lemma_checked_frame(frame: Frame, texture_len: nat)
    requires
        frame_check(frame, texture_len) is Ok,
    ensures
        frame.stride >= frame.width * frame.pixel_size(),
        frame.stride * frame.height <= MAX_TEXTURE_SIZE,
        frame.stride * frame.height <= texture_len,
        frame.width > 0 && frame.height > 0,
{
}

/// Checks a frame against the texture that came with it.
pub fn validate_frame(frame: &Frame, texture_len: usize) -> (res: Result<(), Error>)
    ensures
        res == frame_check(*frame, texture_len as nat),
        res is Ok ==> frame.stride >= frame.width * frame.pixel_size() && frame.stride
            * frame.height <= MAX_TEXTURE_SIZE,
{
    let total = match frame.n_bytes() {
        Ok(total) => total,
        Err(_) => {
            return Err(Error::ConversionTooLarge);
        },
    };
    if texture_len < total {
        return Err(Error::TextureTooSmall { texture_size: texture_len as u64, frame: frame.report() });
    }
    if (frame.stride as u64) < frame.width as u64 * frame.memory_format.n_bytes().u64() {
        return Err(Error::StrideTooSmall(frame.report()));
    }
    if frame.width < 1 || frame.height < 1 {
        return Err(Error::WidthOrHeightZero(frame.report()));
    }
    if total as u64 > MAX_TEXTURE_SIZE {
        return Err(Error::TextureTooLarge);
    }
    if frame.width > i32::MAX as u32 || frame.height > i32::MAX as u32 {
        return Err(Error::ConversionTooLarge);
    }
    Ok(())
}

} // verus!

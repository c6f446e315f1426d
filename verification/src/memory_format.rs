//! Pixel layouts of image data.

use vstd::prelude::*;

verus! {

/// Size and channel count of a pixel layout.
pub trait MemoryFormatInfo: Sized {
    /// Bytes that one pixel occupies.
    spec fn bytes_per_pixel(self) -> MemoryFormatBytes;

    /// Number of channels of one pixel.
    spec fn channel_count(self) -> int;

    fn n_bytes(self) -> (bytes: MemoryFormatBytes)
        ensures
            bytes == self.bytes_per_pixel(),
    ;

    fn n_channels(self) -> (channels: u8)
        ensures
            channels == self.channel_count(),
    ;
}

/// Describes the formats the image data can have.
#[derive(Debug, Clone, Copy, PartialEq, Eq, Structural)]
pub enum MemoryFormat {
    B8g8r8a8Premultiplied,
    A8r8g8b8Premultiplied,
    R8g8b8a8Premultiplied,
    B8g8r8a8,
    A8r8g8b8,
    R8g8b8a8,
    A8b8g8r8,
    R8g8b8,
    B8g8r8,
    R16g16b16,
    R16g16b16a16Premultiplied,
    R16g16b16a16,
    R16g16b16Float,
    R16g16b16a16Float,
    R32g32b32Float,
    R32g32b32a32FloatPremultiplied,
    R32g32b32a32Float,
    G8a8Premultiplied,
    G8a8,
    G8,
    G16a16Premultiplied,
    G16a16,
    G16,
}

/// How one channel of a pixel is stored.
#[derive(Debug, Clone, Copy, PartialEq, Eq, Structural)]
pub enum ChannelType {
    U8,
    U16,
    F16,
    F32,
}

impl ChannelType {
    /// Bytes that one channel occupies.
    pub open spec fn size(self) -> int {
        match self {
            ChannelType::U8 => 1,
            ChannelType::U16 => 2,
            ChannelType::F16 => 2,
            ChannelType::F32 => 4,
        }
    }

    pub fn n_bytes(self) -> (n: u8)
        ensures
            n == self.size(),
    {
        match self {
            ChannelType::U8 => 1,
            ChannelType::U16 => 2,
            ChannelType::F16 => 2,
            ChannelType::F32 => 4,
        }
    }

    /// Whether the channel holds an unsigned integer.
    pub open spec fn is_integer(self) -> bool {
        self == ChannelType::U8 || self == ChannelType::U16
    }
}

impl MemoryFormat {
    /// The wire number of the layout.
    pub open spec fn number(self) -> int {
        match self {
            MemoryFormat::B8g8r8a8Premultiplied => 0,
            MemoryFormat::A8r8g8b8Premultiplied => 1,
            MemoryFormat::R8g8b8a8Premultiplied => 2,
            MemoryFormat::B8g8r8a8 => 3,
            MemoryFormat::A8r8g8b8 => 4,
            MemoryFormat::R8g8b8a8 => 5,
            MemoryFormat::A8b8g8r8 => 6,
            MemoryFormat::R8g8b8 => 7,
            MemoryFormat::B8g8r8 => 8,
            MemoryFormat::R16g16b16 => 9,
            MemoryFormat::R16g16b16a16Premultiplied => 10,
            MemoryFormat::R16g16b16a16 => 11,
            MemoryFormat::R16g16b16Float => 12,
            MemoryFormat::R16g16b16a16Float => 13,
            MemoryFormat::R32g32b32Float => 14,
            MemoryFormat::R32g32b32a32FloatPremultiplied => 15,
            MemoryFormat::R32g32b32a32Float => 16,
            MemoryFormat::G8a8Premultiplied => 17,
            MemoryFormat::G8a8 => 18,
            MemoryFormat::G8 => 19,
            MemoryFormat::G16a16Premultiplied => 20,
            MemoryFormat::G16a16 => 21,
            MemoryFormat::G16 => 22,
        }
    }

    /// Whether pixels carry an alpha channel.
    pub open spec fn alpha(self) -> bool {
        match self {
            MemoryFormat::R8g8b8
            | MemoryFormat::B8g8r8
            | MemoryFormat::R16g16b16
            | MemoryFormat::R16g16b16Float
            | MemoryFormat::R32g32b32Float
            | MemoryFormat::G8
            | MemoryFormat::G16 => false,
            _ => true,
        }
    }

    /// Whether color channels are stored multiplied with alpha.
    pub open spec fn premultiplied(self) -> bool {
        match self {
            MemoryFormat::B8g8r8a8Premultiplied
            | MemoryFormat::A8r8g8b8Premultiplied
            | MemoryFormat::R8g8b8a8Premultiplied
            | MemoryFormat::R16g16b16a16Premultiplied
            | MemoryFormat::R32g32b32a32FloatPremultiplied
            | MemoryFormat::G8a8Premultiplied
            | MemoryFormat::G16a16Premultiplied => true,
            _ => false,
        }
    }

    /// Whether the layout stores one gray channel in place of three colors.
    pub open spec fn grayscale(self) -> bool {
        match self {
            MemoryFormat::G8a8Premultiplied
            | MemoryFormat::G8a8
            | MemoryFormat::G8
            | MemoryFormat::G16a16Premultiplied
            | MemoryFormat::G16a16
            | MemoryFormat::G16 => true,
            _ => false,
        }
    }

    /// Storage of each channel.
    pub open spec fn channel(self) -> ChannelType {
        match self {
            MemoryFormat::B8g8r8a8Premultiplied
            | MemoryFormat::A8r8g8b8Premultiplied
            | MemoryFormat::R8g8b8a8Premultiplied
            | MemoryFormat::B8g8r8a8
            | MemoryFormat::A8r8g8b8
            | MemoryFormat::R8g8b8a8
            | MemoryFormat::A8b8g8r8
            | MemoryFormat::R8g8b8
            | MemoryFormat::B8g8r8
            | MemoryFormat::G8a8Premultiplied
            | MemoryFormat::G8a8
            | MemoryFormat::G8 => ChannelType::U8,
            MemoryFormat::R16g16b16
            | MemoryFormat::R16g16b16a16Premultiplied
            | MemoryFormat::R16g16b16a16
            | MemoryFormat::G16a16Premultiplied
            | MemoryFormat::G16a16
            | MemoryFormat::G16 => ChannelType::U16,
            MemoryFormat::R16g16b16Float | MemoryFormat::R16g16b16a16Float => ChannelType::F16,
            MemoryFormat::R32g32b32Float
            | MemoryFormat::R32g32b32a32FloatPremultiplied
            | MemoryFormat::R32g32b32a32Float => ChannelType::F32,
        }
    }

    /// Bytes per pixel: every channel has the same width.
    pub proof fn lemma_bytes_are_channels_times_width(self)
        ensures
            self.bytes_per_pixel().count() == self.channel_count() * self.channel().size(),
            self.channel_count() == (if self.grayscale() {
                1int
            } else {
                3int
            }) + (if self.alpha() {
                1int
            } else {
                0int
            }),
    {
    }

    pub fn has_alpha(self) -> (alpha: bool)
        ensures
            alpha == self.alpha(),
    {
        match self {
            MemoryFormat::B8g8r8a8Premultiplied
            | MemoryFormat::A8r8g8b8Premultiplied
            | MemoryFormat::R8g8b8a8Premultiplied
            | MemoryFormat::B8g8r8a8
            | MemoryFormat::A8r8g8b8
            | MemoryFormat::R8g8b8a8
            | MemoryFormat::A8b8g8r8
            | MemoryFormat::R16g16b16a16Premultiplied
            | MemoryFormat::R32g32b32a32FloatPremultiplied
            | MemoryFormat::R32g32b32a32Float
            | MemoryFormat::G8a8Premultiplied
            | MemoryFormat::G8a8
            | MemoryFormat::R16g16b16a16
            | MemoryFormat::R16g16b16a16Float
            | MemoryFormat::G16a16Premultiplied
            | MemoryFormat::G16a16 => true,
            MemoryFormat::R8g8b8
            | MemoryFormat::B8g8r8
            | MemoryFormat::R16g16b16
            | MemoryFormat::R16g16b16Float
            | MemoryFormat::R32g32b32Float
            | MemoryFormat::G8
            | MemoryFormat::G16 => false,
        }
    }

    pub fn is_premultiplied(self) -> (premultiplied: bool)
        ensures
            premultiplied == self.premultiplied(),
    {
        match self {
            MemoryFormat::B8g8r8a8Premultiplied
            | MemoryFormat::A8r8g8b8Premultiplied
            | MemoryFormat::R8g8b8a8Premultiplied
            | MemoryFormat::R16g16b16a16Premultiplied
            | MemoryFormat::R32g32b32a32FloatPremultiplied
            | MemoryFormat::G8a8Premultiplied
            | MemoryFormat::G16a16Premultiplied => true,
            MemoryFormat::B8g8r8a8
            | MemoryFormat::A8r8g8b8
            | MemoryFormat::R8g8b8a8
            | MemoryFormat::A8b8g8r8
            | MemoryFormat::R8g8b8
            | MemoryFormat::B8g8r8
            | MemoryFormat::R16g16b16
            | MemoryFormat::R16g16b16a16
            | MemoryFormat::R16g16b16Float
            | MemoryFormat::R16g16b16a16Float
            | MemoryFormat::R32g32b32Float
            | MemoryFormat::R32g32b32a32Float
            | MemoryFormat::G8a8
            | MemoryFormat::G8
            | MemoryFormat::G16a16
            | MemoryFormat::G16 => false,
        }
    }

    pub fn is_grayscale(self) -> (grayscale: bool)
        ensures
            grayscale == self.grayscale(),
    {
        match self {
            MemoryFormat::G8a8Premultiplied
            | MemoryFormat::G8a8
            | MemoryFormat::G8
            | MemoryFormat::G16a16Premultiplied
            | MemoryFormat::G16a16
            | MemoryFormat::G16 => true,
            _ => false,
        }
    }

    pub fn channel_type(self) -> (channel: ChannelType)
        ensures
            channel == self.channel(),
    {
        match self {
            MemoryFormat::B8g8r8a8Premultiplied
            | MemoryFormat::A8r8g8b8Premultiplied
            | MemoryFormat::R8g8b8a8Premultiplied
            | MemoryFormat::B8g8r8a8
            | MemoryFormat::A8r8g8b8
            | MemoryFormat::R8g8b8a8
            | MemoryFormat::A8b8g8r8
            | MemoryFormat::R8g8b8
            | MemoryFormat::B8g8r8
            | MemoryFormat::G8a8Premultiplied
            | MemoryFormat::G8a8
            | MemoryFormat::G8 => ChannelType::U8,
            MemoryFormat::R16g16b16
            | MemoryFormat::R16g16b16a16Premultiplied
            | MemoryFormat::R16g16b16a16
            | MemoryFormat::G16a16Premultiplied
            | MemoryFormat::G16a16
            | MemoryFormat::G16 => ChannelType::U16,
            MemoryFormat::R16g16b16Float | MemoryFormat::R16g16b16a16Float => ChannelType::F16,
            MemoryFormat::R32g32b32Float
            | MemoryFormat::R32g32b32a32FloatPremultiplied
            | MemoryFormat::R32g32b32a32Float => ChannelType::F32,
        }
    }

    /// The layout with the given wire number, if there is one.
    pub fn from_number(number: u32) -> (format: Option<MemoryFormat>)
        ensures
            match format {
                Some(f) => f.number() == number,
                None => number > 22,
            },
    {
        match number {
            0 => Some(MemoryFormat::B8g8r8a8Premultiplied),
            1 => Some(MemoryFormat::A8r8g8b8Premultiplied),
            2 => Some(MemoryFormat::R8g8b8a8Premultiplied),
            3 => Some(MemoryFormat::B8g8r8a8),
            4 => Some(MemoryFormat::A8r8g8b8),
            5 => Some(MemoryFormat::R8g8b8a8),
            6 => Some(MemoryFormat::A8b8g8r8),
            7 => Some(MemoryFormat::R8g8b8),
            8 => Some(MemoryFormat::B8g8r8),
            9 => Some(MemoryFormat::R16g16b16),
            10 => Some(MemoryFormat::R16g16b16a16Premultiplied),
            11 => Some(MemoryFormat::R16g16b16a16),
            12 => Some(MemoryFormat::R16g16b16Float),
            13 => Some(MemoryFormat::R16g16b16a16Float),
            14 => Some(MemoryFormat::R32g32b32Float),
            15 => Some(MemoryFormat::R32g32b32a32FloatPremultiplied),
            16 => Some(MemoryFormat::R32g32b32a32Float),
            17 => Some(MemoryFormat::G8a8Premultiplied),
            18 => Some(MemoryFormat::G8a8),
            19 => Some(MemoryFormat::G8),
            20 => Some(MemoryFormat::G16a16Premultiplied),
            21 => Some(MemoryFormat::G16a16),
            22 => Some(MemoryFormat::G16),
            _ => None,
        }
    }

    /// The wire number of the layout.
    pub fn to_number(self) -> (number: u32)
        ensures
            number == self.number(),
    {
        match self {
            MemoryFormat::B8g8r8a8Premultiplied => 0,
            MemoryFormat::A8r8g8b8Premultiplied => 1,
            MemoryFormat::R8g8b8a8Premultiplied => 2,
            MemoryFormat::B8g8r8a8 => 3,
            MemoryFormat::A8r8g8b8 => 4,
            MemoryFormat::R8g8b8a8 => 5,
            MemoryFormat::A8b8g8r8 => 6,
            MemoryFormat::R8g8b8 => 7,
            MemoryFormat::B8g8r8 => 8,
            MemoryFormat::R16g16b16 => 9,
            MemoryFormat::R16g16b16a16Premultiplied => 10,
            MemoryFormat::R16g16b16a16 => 11,
            MemoryFormat::R16g16b16Float => 12,
            MemoryFormat::R16g16b16a16Float => 13,
            MemoryFormat::R32g32b32Float => 14,
            MemoryFormat::R32g32b32a32FloatPremultiplied => 15,
            MemoryFormat::R32g32b32a32Float => 16,
            MemoryFormat::G8a8Premultiplied => 17,
            MemoryFormat::G8a8 => 18,
            MemoryFormat::G8 => 19,
            MemoryFormat::G16a16Premultiplied => 20,
            MemoryFormat::G16a16 => 21,
            MemoryFormat::G16 => 22,
        }
    }
}

impl MemoryFormatInfo for MemoryFormat {
    open spec fn bytes_per_pixel(self) -> MemoryFormatBytes {
        match self {
            MemoryFormat::G8 => MemoryFormatBytes::B1,
            MemoryFormat::G8a8Premultiplied | MemoryFormat::G8a8 | MemoryFormat::G16 => {
                MemoryFormatBytes::B2
            },
            MemoryFormat::R8g8b8 | MemoryFormat::B8g8r8 => MemoryFormatBytes::B3,
            MemoryFormat::B8g8r8a8Premultiplied
            | MemoryFormat::A8r8g8b8Premultiplied
            | MemoryFormat::R8g8b8a8Premultiplied
            | MemoryFormat::B8g8r8a8
            | MemoryFormat::A8r8g8b8
            | MemoryFormat::R8g8b8a8
            | MemoryFormat::A8b8g8r8
            | MemoryFormat::G16a16Premultiplied
            | MemoryFormat::G16a16 => MemoryFormatBytes::B4,
            MemoryFormat::R16g16b16 | MemoryFormat::R16g16b16Float => MemoryFormatBytes::B6,
            MemoryFormat::R16g16b16a16Premultiplied
            | MemoryFormat::R16g16b16a16
            | MemoryFormat::R16g16b16a16Float => MemoryFormatBytes::B8,
            MemoryFormat::R32g32b32Float => MemoryFormatBytes::B12,
            MemoryFormat::R32g32b32a32FloatPremultiplied | MemoryFormat::R32g32b32a32Float => {
                MemoryFormatBytes::B16
            },
        }
    }

    open spec fn channel_count(self) -> int {
        match self {
            MemoryFormat::G8 | MemoryFormat::G16 => 1,
            MemoryFormat::G8a8Premultiplied
            | MemoryFormat::G8a8
            | MemoryFormat::G16a16Premultiplied
            | MemoryFormat::G16a16 => 2,
            MemoryFormat::R8g8b8
            | MemoryFormat::B8g8r8
            | MemoryFormat::R16g16b16
            | MemoryFormat::R16g16b16Float
            | MemoryFormat::R32g32b32Float => 3,
            _ => 4,
        }
    }

    fn n_bytes(self) -> (bytes: MemoryFormatBytes) {
        match self {
            MemoryFormat::B8g8r8a8Premultiplied => MemoryFormatBytes::B4,
            MemoryFormat::A8r8g8b8Premultiplied => MemoryFormatBytes::B4,
            MemoryFormat::R8g8b8a8Premultiplied => MemoryFormatBytes::B4,
            MemoryFormat::B8g8r8a8 => MemoryFormatBytes::B4,
            MemoryFormat::A8r8g8b8 => MemoryFormatBytes::B4,
            MemoryFormat::R8g8b8a8 => MemoryFormatBytes::B4,
            MemoryFormat::A8b8g8r8 => MemoryFormatBytes::B4,
            MemoryFormat::R8g8b8 => MemoryFormatBytes::B3,
            MemoryFormat::B8g8r8 => MemoryFormatBytes::B3,
            MemoryFormat::R16g16b16 => MemoryFormatBytes::B6,
            MemoryFormat::R16g16b16a16Premultiplied => MemoryFormatBytes::B8,
            MemoryFormat::R16g16b16a16 => MemoryFormatBytes::B8,
            MemoryFormat::R16g16b16Float => MemoryFormatBytes::B6,
            MemoryFormat::R16g16b16a16Float => MemoryFormatBytes::B8,
            MemoryFormat::R32g32b32Float => MemoryFormatBytes::B12,
            MemoryFormat::R32g32b32a32FloatPremultiplied => MemoryFormatBytes::B16,
            MemoryFormat::R32g32b32a32Float => MemoryFormatBytes::B16,
            MemoryFormat::G8a8Premultiplied => MemoryFormatBytes::B2,
            MemoryFormat::G8a8 => MemoryFormatBytes::B2,
            MemoryFormat::G8 => MemoryFormatBytes::B1,
            MemoryFormat::G16a16Premultiplied => MemoryFormatBytes::B4,
            MemoryFormat::G16a16 => MemoryFormatBytes::B4,
            MemoryFormat::G16 => MemoryFormatBytes::B2,
        }
    }

    fn n_channels(self) -> (channels: u8) {
        match self {
            MemoryFormat::B8g8r8a8Premultiplied
            | MemoryFormat::A8r8g8b8Premultiplied
            | MemoryFormat::R8g8b8a8Premultiplied
            | MemoryFormat::B8g8r8a8
            | MemoryFormat::A8r8g8b8
            | MemoryFormat::R8g8b8a8
            | MemoryFormat::A8b8g8r8
            | MemoryFormat::R16g16b16a16Premultiplied
            | MemoryFormat::R16g16b16a16
            | MemoryFormat::R16g16b16a16Float
            | MemoryFormat::R32g32b32a32FloatPremultiplied
            | MemoryFormat::R32g32b32a32Float => 4,
            MemoryFormat::R8g8b8
            | MemoryFormat::B8g8r8
            | MemoryFormat::R16g16b16
            | MemoryFormat::R16g16b16Float
            | MemoryFormat::R32g32b32Float => 3,
            MemoryFormat::G8a8Premultiplied
            | MemoryFormat::G8a8
            | MemoryFormat::G16a16Premultiplied
            | MemoryFormat::G16a16 => 2,
            MemoryFormat::G8 | MemoryFormat::G16 => 1,
        }
    }
}

/// A pixel layout of the wire protocol, or one that only editors use.
#[derive(Debug, Clone, Copy, PartialEq, Eq, Structural)]
pub enum ExtendedMemoryFormat {
    Basic(MemoryFormat),
    Y8Cb8Cr8,
}

impl MemoryFormatInfo for ExtendedMemoryFormat {
    open spec fn bytes_per_pixel(self) -> MemoryFormatBytes {
        match self {
            ExtendedMemoryFormat::Basic(basic) => basic.bytes_per_pixel(),
            ExtendedMemoryFormat::Y8Cb8Cr8 => MemoryFormatBytes::B3,
        }
    }

    open spec fn channel_count(self) -> int {
        match self {
            ExtendedMemoryFormat::Basic(basic) => basic.channel_count(),
            ExtendedMemoryFormat::Y8Cb8Cr8 => 3,
        }
    }

    fn n_bytes(self) -> (bytes: MemoryFormatBytes) {
        match self {
            ExtendedMemoryFormat::Basic(basic) => basic.n_bytes(),
            ExtendedMemoryFormat::Y8Cb8Cr8 => MemoryFormatBytes::B3,
        }
    }

    fn n_channels(self) -> (channels: u8) {
        match self {
            ExtendedMemoryFormat::Basic(basic) => basic.n_channels(),
            ExtendedMemoryFormat::Y8Cb8Cr8 => 3,
        }
    }
}

impl ExtendedMemoryFormat {
    /// Wraps a layout of the wire protocol.
    pub fn from_basic(value: MemoryFormat) -> (format: ExtendedMemoryFormat)
        ensures
            format == ExtendedMemoryFormat::Basic(value),
    {
        ExtendedMemoryFormat::Basic(value)
    }
}

/// Number of bytes one pixel occupies.
#[derive(Debug, Clone, Copy, PartialEq, Eq, Structural)]
pub enum MemoryFormatBytes {
    B1,
    B2,
    B3,
    B4,
    B6,
    B8,
    B12,
    B16,
}

impl MemoryFormatBytes {
    /// The byte count as a mathematical integer.
    pub open spec fn count(self) -> int {
        match self {
            MemoryFormatBytes::B1 => 1,
            MemoryFormatBytes::B2 => 2,
            MemoryFormatBytes::B3 => 3,
            MemoryFormatBytes::B4 => 4,
            MemoryFormatBytes::B6 => 6,
            MemoryFormatBytes::B8 => 8,
            MemoryFormatBytes::B12 => 12,
            MemoryFormatBytes::B16 => 16,
        }
    }

    pub fn u32(self) -> (n: u32)
        ensures
            n == self.count(),
    {
        match self {
            MemoryFormatBytes::B1 => 1,
            MemoryFormatBytes::B2 => 2,
            MemoryFormatBytes::B3 => 3,
            MemoryFormatBytes::B4 => 4,
            MemoryFormatBytes::B6 => 6,
            MemoryFormatBytes::B8 => 8,
            MemoryFormatBytes::B12 => 12,
            MemoryFormatBytes::B16 => 16,
        }
    }

    pub fn u64(self) -> (n: u64)
        ensures
            n == self.count(),
    {
        match self {
            MemoryFormatBytes::B1 => 1,
            MemoryFormatBytes::B2 => 2,
            MemoryFormatBytes::B3 => 3,
            MemoryFormatBytes::B4 => 4,
            MemoryFormatBytes::B6 => 6,
            MemoryFormatBytes::B8 => 8,
            MemoryFormatBytes::B12 => 12,
            MemoryFormatBytes::B16 => 16,
        }
    }

    pub fn usize(self) -> (n: usize)
        ensures
            n == self.count(),
    {
        match self {
            MemoryFormatBytes::B1 => 1,
            MemoryFormatBytes::B2 => 2,
            MemoryFormatBytes::B3 => 3,
            MemoryFormatBytes::B4 => 4,
            MemoryFormatBytes::B6 => 6,
            MemoryFormatBytes::B8 => 8,
            MemoryFormatBytes::B12 => 12,
            MemoryFormatBytes::B16 => 16,
        }
    }
}

} // verus!

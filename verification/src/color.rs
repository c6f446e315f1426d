//! Color spaces of frames.

use crate::memory_format::{MemoryFormat, MemoryFormatInfo};
use vstd::prelude::*;

verus! {

/// Coding-independent code points: a color space in four numbers.
#[derive(Debug, Clone, Copy, PartialEq, Eq, Structural)]
pub struct Cicp {
    pub color_primaries: u8,
    pub transfer_characteristics: u8,
    pub matrix_coefficients: u8,
    pub video_full_range_flag: u8,
}

impl Cicp {
    /// The four numbers in the order of the wire format.
    pub open spec fn bytes(self) -> Seq<u8> {
        seq![
            self.color_primaries,
            self.transfer_characteristics,
            self.matrix_coefficients,
            self.video_full_range_flag,
        ]
    }

    /// Rec. 2020 primaries with a linear transfer function, full range.
    pub open spec fn rec2020_linear() -> Cicp {
        Cicp {
            color_primaries: 9,
            transfer_characteristics: 8,
            matrix_coefficients: 0,
            video_full_range_flag: 1,
        }
    }

    pub fn color_primaries(&self) -> (value: u8)
        ensures
            value == self.color_primaries,
    {
        self.color_primaries
    }

    pub fn transfer_characteristics(&self) -> (value: u8)
        ensures
            value == self.transfer_characteristics,
    {
        self.transfer_characteristics
    }

    pub fn matrix_coefficients(&self) -> (value: u8)
        ensures
            value == self.matrix_coefficients,
    {
        self.matrix_coefficients
    }

    pub fn video_full_range_flag(&self) -> (value: u8)
        ensures
            value == self.video_full_range_flag,
    {
        self.video_full_range_flag
    }

    /// Reads the code points from their four bytes.
    pub fn from_bytes(bytes: &Vec<u8>) -> (cicp: Option<Cicp>)
        ensures
            match cicp {
                Some(c) => c.bytes() == bytes@,
                None => bytes@.len() != 4,
            },
    {
        if bytes.len() != 4 {
            return None;
        }
        let cicp = Cicp {
            color_primaries: bytes[0],
            transfer_characteristics: bytes[1],
            matrix_coefficients: bytes[2],
            video_full_range_flag: bytes[3],
        };
        assert(cicp.bytes() =~= bytes@);
        Some(cicp)
    }

    /// The four bytes of the code points.
    pub fn to_bytes(&self) -> (bytes: Vec<u8>)
        ensures
            bytes@ == self.bytes(),
    {
        let mut bytes: Vec<u8> = Vec::new();
        bytes.push(self.color_primaries);
        bytes.push(self.transfer_characteristics);
        bytes.push(self.matrix_coefficients);
        bytes.push(self.video_full_range_flag);
        assert(bytes@ =~= self.bytes());
        bytes
    }

    pub fn new_rec2020_linear() -> (cicp: Cicp)
        ensures
            cicp == Cicp::rec2020_linear(),
    {
        Cicp {
            color_primaries: 9,
            transfer_characteristics: 8,
            matrix_coefficients: 0,
            video_full_range_flag: 1,
        }
    }
}

/// The color space in which the pixels of a frame are to be read.
#[derive(Debug, Clone, Copy, PartialEq, Eq, Structural)]
pub enum ColorState {
    Srgb,
    Cicp(Cicp),
}

/// The color space that pixels have once their ICC profile is applied: sRGB
/// for gray formats, and for color formats either sRGB or linear Rec. 2020, as
/// the caller has chosen.
pub open spec fn profile_target(memory_format: MemoryFormat, linear_rec2020: bool) -> ColorState {
    if memory_format.channel_count() > 2 && linear_rec2020 {
        ColorState::Cicp(Cicp::rec2020_linear())
    } else {
        ColorState::Srgb
    }
}

/// Tells into which color space an ICC profile is resolved.
pub fn icc_target(memory_format: MemoryFormat, linear_rec2020: bool) -> (state: ColorState)
    ensures
        state == profile_target(memory_format, linear_rec2020),
{
    if memory_format.n_channels() > 2 && linear_rec2020 {
        ColorState::Cicp(Cicp::new_rec2020_linear())
    } else {
        ColorState::Srgb
    }
}

/// The color space of a frame as its helper delivers it: the code points
/// where the frame has four of them, sRGB else.
pub open spec fn delivered_state(cicp: Option<Seq<u8>>) -> ColorState {
    match cicp {
        Some(bytes) => if bytes.len() == 4 {
            ColorState::Cicp(
                Cicp {
                    color_primaries: bytes[0],
                    transfer_characteristics: bytes[1],
                    matrix_coefficients: bytes[2],
                    video_full_range_flag: bytes[3],
                },
            )
        } else {
            ColorState::Srgb
        },
        None => ColorState::Srgb,
    }
}

/// Tells the color space of a frame from the code points that came with it.
pub fn frame_color_state(cicp: &Option<Vec<u8>>) -> (state: ColorState)
    ensures
        state == delivered_state(
            match *cicp {
                Some(bytes) => Some(bytes@),
                None => None,
            },
        ),
{
    match cicp {
        Some(bytes) => match Cicp::from_bytes(bytes) {
            Some(cicp) => ColorState::Cicp(cicp),
            None => ColorState::Srgb,
        },
        None => ColorState::Srgb,
    }
}

} // verus!

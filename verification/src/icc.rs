//! How the pixels of a memory format are described to the color engine: one
//! number that holds the color space, the order of the channels, their
//! number and their size.

use crate::memory_format::{MemoryFormat, MemoryFormatInfo};
use lcms2::PixelFormat;
use vstd::prelude::*;

verus! {

/// Mark of a format whose color channels are multiplied with alpha.
pub const PREMULTIPLIED: u32 = 0x80_0000;

/// Mark of a format whose channels are floating point numbers.
pub const FLOATING_POINT: u32 = 0x40_0000;

/// Mark of the color space of gray pixels.
pub const GRAY: u32 = 0x3_0000;

/// Mark of the color space of red, green and blue pixels.
pub const RGB: u32 = 0x4_0000;

/// Mark of a format whose first channel has changed places with the rest.
pub const SWAP_FIRST: u32 = 0x4000;

/// Mark of a format whose channels stand in reverse order.
pub const SWAP: u32 = 0x400;

/// Mark of one channel beside the colors.
pub const ONE_EXTRA: u32 = 0x80;

/// Step of the number of color channels.
pub const ONE_CHANNEL: u32 = 0x8;

/// Whether the channels stand in reverse order, as the color engine counts
/// them: blue before red, or alpha before blue.
pub open spec fn reversed(format: MemoryFormat) -> bool {
    match format {
        MemoryFormat::B8g8r8a8Premultiplied
        | MemoryFormat::B8g8r8a8
        | MemoryFormat::A8b8g8r8
        | MemoryFormat::B8g8r8 => true,
        _ => false,
    }
}

/// Whether the first channel has changed places with the rest, as the color
/// engine counts them: alpha before red, or blue before alpha.
pub open spec fn first_swapped(format: MemoryFormat) -> bool {
    match format {
        MemoryFormat::B8g8r8a8Premultiplied
        | MemoryFormat::B8g8r8a8
        | MemoryFormat::A8r8g8b8Premultiplied
        | MemoryFormat::A8r8g8b8 => true,
        _ => false,
    }
}

/// The number that describes a memory format to the color engine, without
/// the mark for premultiplied colors.
pub open spec fn straight_format_of(format: MemoryFormat) -> int {
    (if format.grayscale() {
        GRAY + ONE_CHANNEL
    } else {
        RGB + 3 * ONE_CHANNEL
    }) + (if format.alpha() {
        ONE_EXTRA as int
    } else {
        0
    }) + (if reversed(format) {
        SWAP as int
    } else {
        0
    }) + (if first_swapped(format) {
        SWAP_FIRST as int
    } else {
        0
    }) + (if format.channel().is_integer() {
        0
    } else {
        FLOATING_POINT as int
    }) + format.channel().size()
}

/// The number that describes a memory format to the color engine.
pub open spec fn pixel_format_of(format: MemoryFormat) -> int {
    straight_format_of(format) + (if format.premultiplied() {
        PREMULTIPLIED as int
    } else {
        0
    })
}

/// The number of a pixel format with the mark for premultiplied colors.
pub fn premul(format: u32) -> (marked: u32)
    ensures
        marked == format | PREMULTIPLIED,
{
    format | PREMULTIPLIED
}

/// The number of the constant `lcms2::PixelFormat::BGRA_8`, as the crate defines it.
#[verifier::external_body]
fn bgra_8() -> (bits: u32)
    ensures
        bits == 279705,
{
    PixelFormat::BGRA_8.0
}

/// The number of the constant `lcms2::PixelFormat::ARGB_8`, as the crate defines it.
#[verifier::external_body]
fn argb_8() -> (bits: u32)
    ensures
        bits == 278681,
{
    PixelFormat::ARGB_8.0
}

/// The number of the constant `lcms2::PixelFormat::RGBA_8`, as the crate defines it.
#[verifier::external_body]
fn rgba_8() -> (bits: u32)
    ensures
        bits == 262297,
{
    PixelFormat::RGBA_8.0
}

/// The number of the constant `lcms2::PixelFormat::ABGR_8`, as the crate defines it.
#[verifier::external_body]
fn abgr_8() -> (bits: u32)
    ensures
        bits == 263321,
{
    PixelFormat::ABGR_8.0
}

/// The number of the constant `lcms2::PixelFormat::RGB_8`, as the crate defines it.
#[verifier::external_body]
fn rgb_8() -> (bits: u32)
    ensures
        bits == 262169,
{
    PixelFormat::RGB_8.0
}

/// The number of the constant `lcms2::PixelFormat::BGR_8`, as the crate defines it.
#[verifier::external_body]
fn bgr_8() -> (bits: u32)
    ensures
        bits == 263193,
{
    PixelFormat::BGR_8.0
}

/// The number of the constant `lcms2::PixelFormat::RGB_16`, as the crate defines it.
#[verifier::external_body]
fn rgb_16() -> (bits: u32)
    ensures
        bits == 262170,
{
    PixelFormat::RGB_16.0
}

/// The number of the constant `lcms2::PixelFormat::RGBA_16`, as the crate defines it.
#[verifier::external_body]
fn rgba_16() -> (bits: u32)
    ensures
        bits == 262298,
{
    PixelFormat::RGBA_16.0
}

/// The number of the constant `lcms2::PixelFormat::RGB_HALF_FLT`, as the crate defines it.
#[verifier::external_body]
fn rgb_half_flt() -> (bits: u32)
    ensures
        bits == 4456474,
{
    PixelFormat::RGB_HALF_FLT.0
}

/// The number of the constant `lcms2::PixelFormat::RGBA_HALF_FLT`, as the crate defines it.
#[verifier::external_body]
fn rgba_half_flt() -> (bits: u32)
    ensures
        bits == 4456602,
{
    PixelFormat::RGBA_HALF_FLT.0
}

/// The number of the constant `lcms2::PixelFormat::RGB_FLT`, as the crate defines it.
#[verifier::external_body]
fn rgb_flt() -> (bits: u32)
    ensures
        bits == 4456476,
{
    PixelFormat::RGB_FLT.0
}

/// The number of the constant `lcms2::PixelFormat::RGBA_FLT`, as the crate defines it.
#[verifier::external_body]
fn rgba_flt() -> (bits: u32)
    ensures
        bits == 4456604,
{
    PixelFormat::RGBA_FLT.0
}

/// The number of the constant `lcms2::PixelFormat::GRAYA_8`, as the crate defines it.
#[verifier::external_body]
fn graya_8() -> (bits: u32)
    ensures
        bits == 196745,
{
    PixelFormat::GRAYA_8.0
}

/// The number of the constant `lcms2::PixelFormat::GRAY_8`, as the crate defines it.
#[verifier::external_body]
fn gray_8() -> (bits: u32)
    ensures
        bits == 196617,
{
    PixelFormat::GRAY_8.0
}

/// The number of the constant `lcms2::PixelFormat::GRAYA_16`, as the crate defines it.
#[verifier::external_body]
fn graya_16() -> (bits: u32)
    ensures
        bits == 196746,
{
    PixelFormat::GRAYA_16.0
}

/// The number of the constant `lcms2::PixelFormat::GRAY_16`, as the crate defines it.
#[verifier::external_body]
fn gray_16() -> (bits: u32)
    ensures
        bits == 196618,
{
    PixelFormat::GRAY_16.0
}

/// Tells the number of the color engine for a memory format, without the
/// mark for premultiplied colors: the constant of the engine for the layout
/// of the format.
fn engine_format(format: MemoryFormat) -> (bits: u32)
    ensures
        bits == straight_format_of(format),
{
    match format {
        MemoryFormat::B8g8r8a8Premultiplied => bgra_8(),
        MemoryFormat::A8r8g8b8Premultiplied => argb_8(),
        MemoryFormat::R8g8b8a8Premultiplied => rgba_8(),
        MemoryFormat::B8g8r8a8 => bgra_8(),
        MemoryFormat::A8r8g8b8 => argb_8(),
        MemoryFormat::R8g8b8a8 => rgba_8(),
        MemoryFormat::A8b8g8r8 => abgr_8(),
        MemoryFormat::R8g8b8 => rgb_8(),
        MemoryFormat::B8g8r8 => bgr_8(),
        MemoryFormat::R16g16b16 => rgb_16(),
        MemoryFormat::R16g16b16a16Premultiplied => rgba_16(),
        MemoryFormat::R16g16b16a16 => rgba_16(),
        MemoryFormat::R16g16b16Float => rgb_half_flt(),
        MemoryFormat::R16g16b16a16Float => rgba_half_flt(),
        MemoryFormat::R32g32b32Float => rgb_flt(),
        MemoryFormat::R32g32b32a32FloatPremultiplied => rgba_flt(),
        MemoryFormat::R32g32b32a32Float => rgba_flt(),
        MemoryFormat::G8a8Premultiplied => graya_8(),
        MemoryFormat::G8a8 => graya_8(),
        MemoryFormat::G8 => gray_8(),
        MemoryFormat::G16a16Premultiplied => graya_16(),
        MemoryFormat::G16a16 => graya_16(),
        MemoryFormat::G16 => gray_16(),
    }
}

/// Tells the number that describes a memory format to the color engine.
pub fn lcms_pixel_format(format: MemoryFormat) -> (bits: u32)
    ensures
        bits == pixel_format_of(format),
{
    let bits = engine_format(format);
    if format.is_premultiplied() {
        assert(bits | 0x80_0000 == bits + 0x80_0000) by (bit_vector)
            requires
                bits < 0x80_0000,
        ;
        premul(bits)
    } else {
        bits
    }
}

/// The color engine is told what the memory format holds: the size of a
/// channel, the number of the channels, whether they are floating point
/// numbers, and whether the colors are multiplied with alpha.
pub proof fn lemma_engine_is_told_the_layout(format: MemoryFormat)
    ensures
        pixel_format_of(format) % 8 == format.channel().size(),
        (pixel_format_of(format) / 8) % 16 + (pixel_format_of(format) / 128) % 8
            == format.channel_count(),
        ((pixel_format_of(format) / 0x40_0000) % 2 == 1) == !format.channel().is_integer(),
        ((pixel_format_of(format) / 0x80_0000) % 2 == 1) == format.premultiplied(),
{
}

} // verus!

//! Conversion of single pixels between memory formats with integer channels.
//!
//! A pixel is read into four 16 bit channels with straight alpha, where 65535
//! stands for full intensity, and written from there. Channels of 16 bits are
//! stored with the low byte first: that is the order of the machine on the
//! machines with the low byte first, and the conversions are meant for
//! those.

use crate::memory_format::{ChannelType, MemoryFormat, MemoryFormatInfo};
use vstd::prelude::*;

verus! {

/// Red, green, blue and alpha of one pixel, each from 0 to 65535. The colors are
/// not multiplied with alpha.
#[derive(Debug, Clone, Copy, PartialEq, Eq, Structural)]
pub struct Rgba {
    pub red: u16,
    pub green: u16,
    pub blue: u16,
    pub alpha: u16,
}

/// What a channel of a memory format holds.
#[derive(Debug, Clone, Copy, PartialEq, Eq, Structural)]
pub enum Channel {
    Red,
    Green,
    Blue,
    Alpha,
    Gray,
}

/// The channel that a memory format stores at position `index` of a pixel.
pub open spec fn channel_at(format: MemoryFormat, index: int) -> Channel {
    match format {
        MemoryFormat::B8g8r8a8Premultiplied | MemoryFormat::B8g8r8a8 | MemoryFormat::B8g8r8 => {
            if index == 0 {
                Channel::Blue
            } else if index == 1 {
                Channel::Green
            } else if index == 2 {
                Channel::Red
            } else {
                Channel::Alpha
            }
        },
        MemoryFormat::A8r8g8b8Premultiplied | MemoryFormat::A8r8g8b8 => {
            if index == 0 {
                Channel::Alpha
            } else if index == 1 {
                Channel::Red
            } else if index == 2 {
                Channel::Green
            } else {
                Channel::Blue
            }
        },
        MemoryFormat::A8b8g8r8 => {
            if index == 0 {
                Channel::Alpha
            } else if index == 1 {
                Channel::Blue
            } else if index == 2 {
                Channel::Green
            } else {
                Channel::Red
            }
        },
        MemoryFormat::G8a8Premultiplied
        | MemoryFormat::G8a8
        | MemoryFormat::G8
        | MemoryFormat::G16a16Premultiplied
        | MemoryFormat::G16a16
        | MemoryFormat::G16 => {
            if index == 0 {
                Channel::Gray
            } else {
                Channel::Alpha
            }
        },
        _ => {
            if index == 0 {
                Channel::Red
            } else if index == 1 {
                Channel::Green
            } else if index == 2 {
                Channel::Blue
            } else {
                Channel::Alpha
            }
        },
    }
}

/// The position at which a memory format stores a channel. Gray formats have
/// their gray channel in place of each color.
pub open spec fn position_of(format: MemoryFormat, channel: Channel) -> int {
    if format.grayscale() {
        if channel == Channel::Alpha {
            1
        } else {
            0
        }
    } else {
        match format {
            MemoryFormat::B8g8r8a8Premultiplied | MemoryFormat::B8g8r8a8 | MemoryFormat::B8g8r8 => {
                match channel {
                    Channel::Blue => 0,
                    Channel::Green => 1,
                    Channel::Alpha => 3,
                    _ => 2,
                }
            },
            MemoryFormat::A8r8g8b8Premultiplied | MemoryFormat::A8r8g8b8 => {
                match channel {
                    Channel::Alpha => 0,
                    Channel::Green => 2,
                    Channel::Blue => 3,
                    _ => 1,
                }
            },
            MemoryFormat::A8b8g8r8 => {
                match channel {
                    Channel::Alpha => 0,
                    Channel::Blue => 1,
                    Channel::Green => 2,
                    _ => 3,
                }
            },
            _ => {
                match channel {
                    Channel::Green => 1,
                    Channel::Blue => 2,
                    Channel::Alpha => 3,
                    _ => 0,
                }
            },
        }
    }
}

/// Whether pixels of the format can be converted: its channels are integers.
pub open spec fn convertible(format: MemoryFormat) -> bool {
    format.channel().is_integer()
}

/// The value, from 0 to 65535, that the channel at `index` of a pixel holds.
pub open spec fn sample(format: MemoryFormat, pixel: Seq<u8>, index: int) -> int {
    if format.channel() == ChannelType::U8 {
        pixel[index] * 257
    } else {
        pixel[2 * index] + 256 * pixel[2 * index + 1]
    }
}

/// A color that was multiplied with `alpha`, without the multiplication: the
/// quotient rounded to the nearest value, and no more than full intensity.
pub open spec fn unpremultiplied(color: int, alpha: int) -> int {
    if alpha == 0 {
        0
    } else {
        let value = (color * 65535 + alpha / 2) / alpha;
        if value > 65535 {
            65535
        } else {
            value
        }
    }
}

/// A color multiplied with `alpha`, rounded to the nearest value.
pub open spec fn premultiplied(color: int, alpha: int) -> int {
    (color * alpha + 32767) / 65535
}

/// The brightness of a color: 299, 587 and 114 parts in a thousand of red,
/// green and blue, rounded to the nearest value.
pub open spec fn luma(red: int, green: int, blue: int) -> int {
    (299 * red + 587 * green + 114 * blue + 500) / 1000
}

/// The alpha of a pixel; full where the format stores none.
pub open spec fn decoded_alpha(format: MemoryFormat, pixel: Seq<u8>) -> int {
    if format.alpha() {
        sample(format, pixel, position_of(format, Channel::Alpha))
    } else {
        65535
    }
}

/// One color of a pixel, not multiplied with alpha.
pub open spec fn decoded_color(format: MemoryFormat, pixel: Seq<u8>, channel: Channel) -> int {
    let stored = sample(format, pixel, position_of(format, channel));
    if format.premultiplied() {
        unpremultiplied(stored, decoded_alpha(format, pixel))
    } else {
        stored
    }
}

/// The pixel that the bytes stand for in the given format.
pub open spec fn decoded(format: MemoryFormat, pixel: Seq<u8>) -> Rgba {
    Rgba {
        red: decoded_color(format, pixel, Channel::Red) as u16,
        green: decoded_color(format, pixel, Channel::Green) as u16,
        blue: decoded_color(format, pixel, Channel::Blue) as u16,
        alpha: decoded_alpha(format, pixel) as u16,
    }
}

/// The value, from 0 to 65535, that the format stores for a channel of a pixel.
pub open spec fn stored_value(format: MemoryFormat, pixel: Rgba, channel: Channel) -> int {
    let straight = match channel {
        Channel::Red => pixel.red as int,
        Channel::Green => pixel.green as int,
        Channel::Blue => pixel.blue as int,
        Channel::Alpha => pixel.alpha as int,
        Channel::Gray => luma(pixel.red as int, pixel.green as int, pixel.blue as int),
    };
    if format.premultiplied() && channel != Channel::Alpha {
        premultiplied(straight, pixel.alpha as int)
    } else {
        straight
    }
}

/// Byte `index` of the pixel as the format stores it. A channel of 8 bits holds
/// the value divided by 257, rounded to the nearest.
pub open spec fn encoded_byte(format: MemoryFormat, pixel: Rgba, index: int) -> u8 {
    if format.channel() == ChannelType::U8 {
        ((stored_value(format, pixel, channel_at(format, index)) + 128) / 257) as u8
    } else {
        let value = stored_value(format, pixel, channel_at(format, index / 2));
        if index % 2 == 0 {
            (value % 256) as u8
        } else {
            (value / 256) as u8
        }
    }
}

/// The bytes that stand for the pixel in the given format.
pub open spec fn encoded(format: MemoryFormat, pixel: Rgba) -> Seq<u8> {
    Seq::new(format.bytes_per_pixel().count() as nat, |index: int| encoded_byte(format, pixel, index))
}

/// The bytes of a pixel of format `source` in the format `target`.
pub open spec fn converted(source: MemoryFormat, pixel: Seq<u8>, target: MemoryFormat) -> Seq<u8> {
    encoded(target, decoded(source, pixel))
}

/// Whether every pixel of `from` can be stored in `to` without loss: both
/// store straight alpha in integer channels, and `to` has at least the depth,
/// the colors and the alpha channel of `from`.
pub open spec fn widens(from: MemoryFormat, to: MemoryFormat) -> bool {
    &&& convertible(from) && convertible(to)
    &&& !from.premultiplied() && !to.premultiplied()
    &&& from.alpha() ==> to.alpha()
    &&& to.grayscale() ==> from.grayscale()
    &&& to.channel() == ChannelType::U8 ==> from.channel() == ChannelType::U8
}

/// What holds of every pixel read from a format: equal colors where the format
/// is gray, full alpha where it stores none, and multiples of 257 where its
/// channels have 8 bits.
pub open spec fn within_range_of(format: MemoryFormat, pixel: Rgba) -> bool {
    &&& format.grayscale() ==> pixel.red == pixel.green && pixel.green == pixel.blue
    &&& !format.alpha() ==> pixel.alpha == 65535
    &&& format.channel() == ChannelType::U8 ==> {
        &&& pixel.red % 257 == 0
        &&& pixel.green % 257 == 0
        &&& pixel.blue % 257 == 0
        &&& pixel.alpha % 257 == 0
    }
}

/// A pixel read from a format with straight alpha lies in the range of that
/// format, and of every format that widens it.
pub proof fn lemma_decoded_within_range(from: MemoryFormat, to: MemoryFormat, pixel: Seq<u8>)
    requires
        widens(from, to),
        pixel.len() == from.bytes_per_pixel().count(),
    ensures
        within_range_of(from, decoded(from, pixel)),
        within_range_of(to, decoded(from, pixel)),
{
}

/// Writing a pixel that lies in the range of a format with straight alpha, and
/// reading it again, gives the same pixel.
pub proof fn lemma_decode_encode(format: MemoryFormat, pixel: Rgba)
    requires
        convertible(format),
        !format.premultiplied(),
        within_range_of(format, pixel),
    ensures
        decoded(format, encoded(format, pixel)) == pixel,
{
    let bytes = encoded(format, pixel);
    assert(bytes.len() == format.bytes_per_pixel().count());
    assert forall|index: int| 0 <= index < bytes.len() implies bytes[index] == encoded_byte(
        format,
        pixel,
        index,
    ) by {}
    if format.grayscale() {
        let gray = pixel.red as int;
        assert(luma(gray, gray, gray) == gray);
    }
}

/// Reading a pixel of a format with straight alpha and writing it again gives
/// the same bytes.
pub proof fn lemma_encode_decode(format: MemoryFormat, pixel: Seq<u8>)
    requires
        convertible(format),
        !format.premultiplied(),
        pixel.len() == format.bytes_per_pixel().count(),
    ensures
        encoded(format, decoded(format, pixel)) == pixel,
{
    let rgba = decoded(format, pixel);
    let bytes = encoded(format, rgba);
    if format.grayscale() {
        let gray = rgba.red as int;
        assert(luma(gray, gray, gray) == gray);
    }
    assert forall|index: int| 0 <= index < pixel.len() implies bytes[index] == pixel[index] by {
        assert(bytes[index] == encoded_byte(format, rgba, index));
    }
    assert(bytes =~= pixel);
}

/// Converting a pixel to a format that widens its own and back gives the same
/// bytes.
pub proof fn lemma_widening_round_trip(from: MemoryFormat, to: MemoryFormat, pixel: Seq<u8>)
    requires
        widens(from, to),
        pixel.len() == from.bytes_per_pixel().count(),
    ensures
        converted(to, converted(from, pixel, to), from) == pixel,
{
    let rgba = decoded(from, pixel);
    lemma_decoded_within_range(from, to, pixel);
    lemma_decode_encode(to, rgba);
    lemma_encode_decode(from, pixel);
}

/// Whether `to` has a place for every channel of `from`: both store straight
/// alpha in integer channels, and `to` has the colors and the alpha channel of
/// `from`. The depth of `to` may be the smaller one.
pub open spec fn keeps_channels(from: MemoryFormat, to: MemoryFormat) -> bool {
    &&& convertible(from) && convertible(to)
    &&& !from.premultiplied() && !to.premultiplied()
    &&& from.alpha() ==> to.alpha()
    &&& to.grayscale() ==> from.grayscale()
}

/// Whether no channel of `a` is further than `tolerance` from the same channel
/// of `b`.
pub open spec fn near(a: Rgba, b: Rgba, tolerance: int) -> bool {
    &&& -tolerance <= a.red - b.red <= tolerance
    &&& -tolerance <= a.green - b.green <= tolerance
    &&& -tolerance <= a.blue - b.blue <= tolerance
    &&& -tolerance <= a.alpha - b.alpha <= tolerance
}

/// The value that is read from a channel to which `value` was written: the
/// same for a channel of 16 bits, the nearest multiple of 257 for one of 8.
pub open spec fn read_back(format: MemoryFormat, value: int) -> int {
    if format.channel() == ChannelType::U8 {
        ((value + 128) / 257) * 257
    } else {
        value
    }
}

/// What is read from a pixel that was written in a format with straight
/// alpha.
proof fn lemma_written_and_read(format: MemoryFormat, pixel: Rgba)
    requires
        convertible(format),
        !format.premultiplied(),
    ensures
        ({
            let back = decoded(format, encoded(format, pixel));
            let gray = luma(pixel.red as int, pixel.green as int, pixel.blue as int);
            &&& back.alpha == (if format.alpha() {
                read_back(format, pixel.alpha as int)
            } else {
                65535
            })
            &&& format.grayscale() ==> back.red == read_back(format, gray) && back.green
                == back.red && back.blue == back.red
            &&& !format.grayscale() ==> back.red == read_back(format, pixel.red as int)
                && back.green == read_back(format, pixel.green as int) && back.blue == read_back(
                format,
                pixel.blue as int,
            )
        }),
{
    let bytes = encoded(format, pixel);
    assert(bytes.len() == format.bytes_per_pixel().count());
    assert forall|index: int| 0 <= index < bytes.len() implies bytes[index] == encoded_byte(
        format,
        pixel,
        index,
    ) by {}
    let gray = luma(pixel.red as int, pixel.green as int, pixel.blue as int);
    assert(0 <= gray <= 65535);
    lemma_depth_round_trip(pixel.red as int);
    lemma_depth_round_trip(pixel.green as int);
    lemma_depth_round_trip(pixel.blue as int);
    lemma_depth_round_trip(pixel.alpha as int);
    lemma_depth_round_trip(gray);
}

/// A pixel in the range of `from` that is written to a format with a place
/// for every channel of `from`, and read again, stays in the range of `from`,
/// and no channel has moved by more than 128 of 65535.
proof fn lemma_stays_near(from: MemoryFormat, to: MemoryFormat, pixel: Rgba)
    requires
        keeps_channels(from, to),
        within_range_of(from, pixel),
    ensures
        near(decoded(to, encoded(to, pixel)), pixel, 128),
        within_range_of(from, decoded(to, encoded(to, pixel))),
{
    lemma_written_and_read(to, pixel);
    lemma_depth_round_trip(pixel.red as int);
    lemma_depth_round_trip(pixel.green as int);
    lemma_depth_round_trip(pixel.blue as int);
    lemma_depth_round_trip(pixel.alpha as int);
    if to.grayscale() {
        let gray = pixel.red as int;
        assert(luma(gray, gray, gray) == gray);
    }
    if from.channel() == ChannelType::U8 {
        lemma_multiple_stays(pixel.red as int);
        lemma_multiple_stays(pixel.green as int);
        lemma_multiple_stays(pixel.blue as int);
        lemma_multiple_stays(pixel.alpha as int);
    }
}

/// A multiple of 257 is the nearest multiple of 257 to itself.
proof fn lemma_multiple_stays(value: int)
    requires
        0 <= value <= 65535,
        value % 257 == 0,
    ensures
        ((value + 128) / 257) * 257 == value,
{
}

/// Converting a pixel to a format with a place for each of its channels, and
/// back, moves no channel by more than 128 of 65535: what a channel of 8 bits
/// can lose of one of 16 bits.
pub proof fn lemma_round_trip_tolerance(from: MemoryFormat, to: MemoryFormat, pixel: Seq<u8>)
    requires
        keeps_channels(from, to),
        pixel.len() == from.bytes_per_pixel().count(),
    ensures
        near(
            decoded(from, converted(to, converted(from, pixel, to), from)),
            decoded(from, pixel),
            128,
        ),
{
    let first = decoded(from, pixel);
    lemma_decoded_within_range(from, from, pixel);
    lemma_stays_near(from, to, first);
    let second = decoded(to, encoded(to, first));
    lemma_decode_encode(from, second);
}

/// Converting a pixel of 16 bit channels to the same channels with 8 bits and
/// back moves no channel by more than 128 of 65535.
pub proof fn lemma_depth_round_trip(value: int)
    requires
        0 <= value <= 65535,
    ensures
        0 <= (value + 128) / 257 <= 255,
        -128 <= ((value + 128) / 257) * 257 - value <= 128,
{
}

impl Rgba {
    /// The value that a format stores for a channel of this pixel.
    fn stored(&self, format: MemoryFormat, channel: Channel) -> (value: u16)
        ensures
            value == stored_value(format, *self, channel),
    {
        let straight: u16 = match channel {
            Channel::Red => self.red,
            Channel::Green => self.green,
            Channel::Blue => self.blue,
            Channel::Alpha => self.alpha,
            Channel::Gray => {
                let sum: u64 = 299 * (self.red as u64) + 587 * (self.green as u64) + 114 * (
                self.blue as u64) + 500;
                (sum / 1000) as u16
            },
        };
        let is_alpha = match channel {
            Channel::Alpha => true,
            _ => false,
        };
        if format.is_premultiplied() && !is_alpha {
            assert(straight as int * self.alpha as int <= 65535 * 65535) by (nonlinear_arith)
                requires
                    0 <= straight <= 65535,
                    0 <= self.alpha <= 65535,
            ;
            let product: u64 = (straight as u64) * (self.alpha as u64);
            ((product + 32767) / 65535) as u16
        } else {
            straight
        }
    }
}

/// The channel stored at position `index`.
fn channel_of(format: MemoryFormat, index: usize) -> (channel: Channel)
    ensures
        channel == channel_at(format, index as int),
{
    match format {
        MemoryFormat::B8g8r8a8Premultiplied | MemoryFormat::B8g8r8a8 | MemoryFormat::B8g8r8 => {
            if index == 0 {
                Channel::Blue
            } else if index == 1 {
                Channel::Green
            } else if index == 2 {
                Channel::Red
            } else {
                Channel::Alpha
            }
        },
        MemoryFormat::A8r8g8b8Premultiplied | MemoryFormat::A8r8g8b8 => {
            if index == 0 {
                Channel::Alpha
            } else if index == 1 {
                Channel::Red
            } else if index == 2 {
                Channel::Green
            } else {
                Channel::Blue
            }
        },
        MemoryFormat::A8b8g8r8 => {
            if index == 0 {
                Channel::Alpha
            } else if index == 1 {
                Channel::Blue
            } else if index == 2 {
                Channel::Green
            } else {
                Channel::Red
            }
        },
        MemoryFormat::G8a8Premultiplied
        | MemoryFormat::G8a8
        | MemoryFormat::G8
        | MemoryFormat::G16a16Premultiplied
        | MemoryFormat::G16a16
        | MemoryFormat::G16 => {
            if index == 0 {
                Channel::Gray
            } else {
                Channel::Alpha
            }
        },
        _ => {
            if index == 0 {
                Channel::Red
            } else if index == 1 {
                Channel::Green
            } else if index == 2 {
                Channel::Blue
            } else {
                Channel::Alpha
            }
        },
    }
}

/// The position of a channel in a pixel.
fn position(format: MemoryFormat, channel: Channel) -> (index: usize)
    ensures
        index == position_of(format, channel),
        channel != Channel::Gray && (channel == Channel::Alpha ==> format.alpha()) ==> index
            < format.channel_count(),
{
    if format.is_grayscale() {
        match channel {
            Channel::Alpha => 1,
            _ => 0,
        }
    } else {
        match format {
            MemoryFormat::B8g8r8a8Premultiplied | MemoryFormat::B8g8r8a8 | MemoryFormat::B8g8r8 => {
                match channel {
                    Channel::Blue => 0,
                    Channel::Green => 1,
                    Channel::Alpha => 3,
                    _ => 2,
                }
            },
            MemoryFormat::A8r8g8b8Premultiplied | MemoryFormat::A8r8g8b8 => {
                match channel {
                    Channel::Alpha => 0,
                    Channel::Green => 2,
                    Channel::Blue => 3,
                    _ => 1,
                }
            },
            MemoryFormat::A8b8g8r8 => {
                match channel {
                    Channel::Alpha => 0,
                    Channel::Blue => 1,
                    Channel::Green => 2,
                    _ => 3,
                }
            },
            _ => {
                match channel {
                    Channel::Green => 1,
                    Channel::Blue => 2,
                    Channel::Alpha => 3,
                    _ => 0,
                }
            },
        }
    }
}

/// Reads the channel at position `index` of the pixel that starts at `start`.
fn read_sample(format: MemoryFormat, buf: &Vec<u8>, start: usize, index: usize) -> (value: u16)
    requires
        convertible(format),
        index < format.channel_count(),
        start + format.bytes_per_pixel().count() <= buf@.len(),
    ensures
        value == sample(
            format,
            buf@.subrange(start as int, start + format.bytes_per_pixel().count()),
            index as int,
        ),
{
    proof {
        format.lemma_bytes_are_channels_times_width();
    }
    let total = buf.len();
    match format.channel_type() {
        ChannelType::U8 => (buf[start + index] as u16) * 257,
        _ => {
            let low = buf[start + 2 * index] as u16;
            let high = buf[start + 2 * index + 1] as u16;
            low + 256 * high
        },
    }
}

/// Takes the multiplication with `alpha` out of a color.
fn unpremultiply(color: u16, alpha: u16) -> (value: u16)
    ensures
        value == unpremultiplied(color as int, alpha as int),
{
    if alpha == 0 {
        0
    } else {
        assert(color as int * 65535 <= 65535 * 65535) by (nonlinear_arith)
            requires
                0 <= color <= 65535,
        ;
        let value: u64 = ((color as u64) * 65535 + (alpha as u64) / 2) / (alpha as u64);
        if value > 65535 {
            65535
        } else {
            value as u16
        }
    }
}

/// Reads the pixel that starts at byte `start` of the buffer.
pub fn decode_pixel(format: MemoryFormat, buf: &Vec<u8>, start: usize) -> (pixel: Rgba)
    requires
        convertible(format),
        start + format.bytes_per_pixel().count() <= buf@.len(),
    ensures
        pixel == decoded(
            format,
            buf@.subrange(start as int, start + format.bytes_per_pixel().count()),
        ),
{
    let alpha = if format.has_alpha() {
        read_sample(format, buf, start, position(format, Channel::Alpha))
    } else {
        65535
    };
    let red = read_sample(format, buf, start, position(format, Channel::Red));
    let green = read_sample(format, buf, start, position(format, Channel::Green));
    let blue = read_sample(format, buf, start, position(format, Channel::Blue));
    if format.is_premultiplied() {
        Rgba {
            red: unpremultiply(red, alpha),
            green: unpremultiply(green, alpha),
            blue: unpremultiply(blue, alpha),
            alpha,
        }
    } else {
        Rgba { red, green, blue, alpha }
    }
}

/// Appends the bytes of the pixel in the given format to `out`.
pub fn encode_pixel(format: MemoryFormat, pixel: Rgba, out: &mut Vec<u8>)
    requires
        convertible(format),
    ensures
        final(out)@ == old(out)@ + encoded(format, pixel),
{
    let ghost before = out@;
    let channels = format.n_channels() as usize;
    let wide = match format.channel_type() {
        ChannelType::U8 => false,
        _ => true,
    };
    proof {
        format.lemma_bytes_are_channels_times_width();
    }
    let mut index: usize = 0;
    while index < channels
        invariant
            index <= channels,
            channels == format.channel_count(),
            convertible(format),
            wide == (format.channel() != ChannelType::U8),
            out@ == before + Seq::new(
                (index * format.channel().size()) as nat,
                |at: int| encoded_byte(format, pixel, at),
            ),
        decreases channels - index,
    {
        let ghost so_far = out@;
        let value = pixel.stored(format, channel_of(format, index));
        if wide {
            out.push((value % 256) as u8);
            out.push((value / 256) as u8);
            proof {
                let low = 2 * index as int;
                assert(format.channel().size() == 2);
                assert(index * format.channel().size() == low);
                assert((index + 1) * format.channel().size() == low + 2);
                assert(low / 2 == index && low % 2 == 0);
                assert((low + 1) / 2 == index && (low + 1) % 2 == 1);
                assert(encoded_byte(format, pixel, low) == (value % 256) as u8);
                assert(encoded_byte(format, pixel, low + 1) == (value / 256) as u8);
                assert(out@.len() == before.len() + low + 2);
            }
            assert(out@ =~= before + Seq::new(
                ((index + 1) * format.channel().size()) as nat,
                |at: int| encoded_byte(format, pixel, at),
            ));
        } else {
            out.push(((value as u32 + 128) / 257) as u8);
            assert(out@ =~= before + Seq::new(
                ((index + 1) * format.channel().size()) as nat,
                |at: int| encoded_byte(format, pixel, at),
            ));
        }
        index += 1;
    }
    assert(out@ =~= before + encoded(format, pixel));
}

} // verus!

//! Pixels whose colors are multiplied with alpha: what is found again of
//! them after a conversion and back.

use crate::change_memory_format::{
    conversion_fault, converted_frame, converted_rows, geometry, lemma_converted_pixel,
};
use crate::editing::{lemma_pixel_bounds, pixel_at};
use crate::frame::Frame;
use crate::memory_format::{ChannelType, MemoryFormat, MemoryFormatInfo};
use crate::pixel::{
    convertible, converted, decoded, decoded_alpha, encoded, encoded_byte, lemma_decode_encode,
    luma, position_of, premultiplied, sample, unpremultiplied, within_range_of, Channel,
};
use vstd::prelude::*;

verus! {

/// A color that was multiplied with alpha is found again when the
/// multiplication is taken back and made anew.
pub proof fn lemma_premultiplied_again(color: int, alpha: int)
    requires
        0 <= color <= alpha <= 65535,
    ensures
        0 <= unpremultiplied(color, alpha) <= 65535,
        premultiplied(unpremultiplied(color, alpha), alpha) == color,
{
    if alpha > 0 {
        let sum = color * 65535 + alpha / 2;
        let straight = sum / alpha;
        let rest = sum % alpha;
        assert(0 <= sum <= alpha * 65535 + alpha / 2) by (nonlinear_arith)
            requires
                0 <= color <= alpha,
                0 <= alpha / 2,
                sum == color * 65535 + alpha / 2,
        ;
        vstd::arithmetic::div_mod::lemma_fundamental_div_mod(sum, alpha);
        vstd::arithmetic::div_mod::lemma_mod_pos_bound(sum, alpha);
        vstd::arithmetic::div_mod::lemma_div_pos_is_pos(sum, alpha);
        assert(straight <= 65535) by (nonlinear_arith)
            requires
                sum == alpha * straight + rest,
                0 <= rest,
                sum <= alpha * 65535 + alpha / 2,
                alpha / 2 < alpha,
                alpha > 0,
        ;
        assert(unpremultiplied(color, alpha) == straight);
        let back = straight * alpha + 32767;
        let over = alpha / 2 - rest + 32767;
        assert(back == color * 65535 + over) by (nonlinear_arith)
            requires
                sum == alpha * straight + rest,
                sum == color * 65535 + alpha / 2,
                back == straight * alpha + 32767,
                over == alpha / 2 - rest + 32767,
        ;
        assert(0 <= over < 65535);
        vstd::arithmetic::div_mod::lemma_fundamental_div_mod_converse(back, 65535, color, over);
    }
}

/// Whether the colors of a pixel of a format with multiplied colors are no
/// greater than its alpha, as colors that were multiplied with alpha are.
pub open spec fn colors_within_alpha(format: MemoryFormat, pixel: Seq<u8>) -> bool {
    let alpha = decoded_alpha(format, pixel);
    &&& sample(format, pixel, position_of(format, Channel::Red)) <= alpha
    &&& sample(format, pixel, position_of(format, Channel::Green)) <= alpha
    &&& sample(format, pixel, position_of(format, Channel::Blue)) <= alpha
}

/// Reading a pixel of a format with multiplied colors and writing it again
/// gives the same bytes, where no color is greater than alpha.
#[verifier::rlimit(100)]
#[verifier::spinoff_prover]
pub proof fn lemma_encode_decode_premultiplied(format: MemoryFormat, pixel: Seq<u8>)
    requires
        convertible(format),
        format.premultiplied(),
        pixel.len() == format.bytes_per_pixel().count(),
        colors_within_alpha(format, pixel),
    ensures
        encoded(format, decoded(format, pixel)) == pixel,
{
    let rgba = decoded(format, pixel);
    let bytes = encoded(format, rgba);
    let alpha = decoded_alpha(format, pixel);
    let red = sample(format, pixel, position_of(format, Channel::Red));
    let green = sample(format, pixel, position_of(format, Channel::Green));
    let blue = sample(format, pixel, position_of(format, Channel::Blue));
    lemma_premultiplied_again(red, alpha);
    lemma_premultiplied_again(green, alpha);
    lemma_premultiplied_again(blue, alpha);
    assert(rgba.alpha == alpha);
    assert(rgba.red == unpremultiplied(red, alpha));
    assert(rgba.green == unpremultiplied(green, alpha));
    assert(rgba.blue == unpremultiplied(blue, alpha));
    if format.grayscale() {
        let gray = rgba.red as int;
        assert(luma(gray, gray, gray) == gray);
    }
    assert forall|index: int| 0 <= index < pixel.len() implies bytes[index] == pixel[index] by {
        assert(bytes[index] == encoded_byte(format, rgba, index));
    }
    assert(bytes =~= pixel);
}

/// Whether every pixel of `from`, a format with multiplied colors, can be
/// stored in `to` without loss: `to` stores straight alpha in channels of 16
/// bits, and has an alpha channel and the colors of `from`.
pub open spec fn widens_premultiplied(from: MemoryFormat, to: MemoryFormat) -> bool {
    &&& convertible(from) && convertible(to)
    &&& from.premultiplied() && !to.premultiplied()
    &&& to.alpha()
    &&& to.grayscale() ==> from.grayscale()
    &&& to.channel() == ChannelType::U16
}

/// Converting a pixel with multiplied colors to a format that loses nothing
/// of it, and back, gives the same bytes, where no color of the pixel is
/// greater than its alpha. A pixel with a color above its alpha stands for
/// no color at all, and is not found again.
pub proof fn lemma_premultiplied_round_trip(from: MemoryFormat, to: MemoryFormat, pixel: Seq<u8>)
    requires
        widens_premultiplied(from, to),
        pixel.len() == from.bytes_per_pixel().count(),
        colors_within_alpha(from, pixel),
    ensures
        converted(to, converted(from, pixel, to), from) == pixel,
{
    let rgba = decoded(from, pixel);
    assert(within_range_of(to, rgba)) by {
        let alpha = decoded_alpha(from, pixel);
        lemma_premultiplied_again(
            sample(from, pixel, position_of(from, Channel::Red)),
            alpha,
        );
        lemma_premultiplied_again(
            sample(from, pixel, position_of(from, Channel::Green)),
            alpha,
        );
        lemma_premultiplied_again(
            sample(from, pixel, position_of(from, Channel::Blue)),
            alpha,
        );
    }
    lemma_decode_encode(to, rgba);
    lemma_encode_decode_premultiplied(from, pixel);
}

/// Converting a frame with multiplied colors to a format that loses nothing
/// of it, and back, gives each pixel its bytes again, where no color of the
/// pixel is greater than its alpha.
pub proof fn lemma_premultiplied_frame_round_trip(
    buf: Seq<u8>,
    frame: Frame,
    to: MemoryFormat,
    x: int,
    y: int,
)
    requires
        conversion_fault(buf.len(), frame, to) is None,
        widens_premultiplied(frame.memory_format, to),
        0 <= x < frame.width,
        0 <= y < frame.height,
        colors_within_alpha(frame.memory_format, pixel_at(buf, geometry(frame), x, y)),
    ensures
        ({
            let there = converted_rows(buf, frame, to, frame.height as nat);
            let between = converted_frame(frame, to);
            let back = converted_rows(there, between, frame.memory_format, frame.height as nat);
            pixel_at(back, geometry(converted_frame(between, frame.memory_format)), x, y)
                == pixel_at(buf, geometry(frame), x, y)
        }),
{
    let from = frame.memory_format;
    let there = converted_rows(buf, frame, to, frame.height as nat);
    let between = converted_frame(frame, to);
    lemma_pixel_bounds(buf, geometry(frame), x, y);
    lemma_converted_pixel(buf, frame, to, x, y);
    assert(between.width * from.bytes_per_pixel().count() <= u32::MAX);
    lemma_converted_pixel(there, between, from, x, y);
    lemma_premultiplied_round_trip(from, to, pixel_at(buf, geometry(frame), x, y));
}

} // verus!

//! Conversion of a whole frame to another memory format.

use crate::editing::{lemma_pixel_bounds, pixel_at, EditingError, EditingFrame};
use crate::frame::Frame;
use crate::grid::{lemma_piece_of_piece, lemma_stacked_part, stacked};
use crate::memory_format::{ChannelType, ExtendedMemoryFormat, MemoryFormat, MemoryFormatInfo};
use crate::pixel::{
    convertible, converted, decode_pixel, decoded, encode_pixel, keeps_channels,
    lemma_round_trip_tolerance, lemma_widening_round_trip, near, widens,
};
use vstd::prelude::*;

verus! {

/// The frame as the buffer functions see it.
pub open spec fn geometry(frame: Frame) -> EditingFrame {
    EditingFrame {
        width: frame.width,
        height: frame.height,
        stride: frame.stride,
        memory_format: ExtendedMemoryFormat::Basic(frame.memory_format),
    }
}

/// The first `cols` pixels of row `y`, converted to the target format.
pub open spec fn converted_cols(
    buf: Seq<u8>,
    frame: Frame,
    target: MemoryFormat,
    y: int,
    cols: nat,
) -> Seq<u8>
    decreases cols,
{
    if cols == 0 {
        Seq::empty()
    } else {
        converted_cols(buf, frame, target, y, (cols - 1) as nat) + converted(
            frame.memory_format,
            pixel_at(buf, geometry(frame), cols - 1, y),
            target,
        )
    }
}

/// The first `rows` rows, converted to the target format and without padding.
pub open spec fn converted_rows(buf: Seq<u8>, frame: Frame, target: MemoryFormat, rows: nat) -> Seq<
    u8,
>
    decreases rows,
{
    if rows == 0 {
        Seq::empty()
    } else {
        converted_rows(buf, frame, target, (rows - 1) as nat) + converted_cols(
            buf,
            frame,
            target,
            rows - 1,
            frame.width as nat,
        )
    }
}

/// Why the frame cannot be converted, if it cannot.
///
/// Formats with floating point channels are not converted. The rows of the
/// result have to fit a stride, its size has to fit the machine, and the
/// buffer has to hold the frame.
pub open spec fn conversion_fault(buf_len: nat, frame: Frame, target: MemoryFormat) -> Option<
    EditingError,
> {
    let new_stride = frame.width * target.bytes_per_pixel().count();
    if !convertible(frame.memory_format) || !convertible(target) {
        Some(EditingError::UnsupportedFormat)
    } else if new_stride > u32::MAX || frame.height * new_stride > usize::MAX || frame.stride
        * frame.height > usize::MAX {
        Some(EditingError::Math)
    } else if !geometry(frame).fits(buf_len) {
        Some(EditingError::OutOfBounds)
    } else {
        None
    }
}

/// The frame once it is converted: the target format in tightly packed rows.
pub open spec fn converted_frame(frame: Frame, target: MemoryFormat) -> Frame {
    Frame {
        stride: (frame.width * target.bytes_per_pixel().count()) as u32,
        memory_format: target,
        ..frame
    }
}

proof fn lemma_converted_cols_len(
    buf: Seq<u8>,
    frame: Frame,
    target: MemoryFormat,
    y: int,
    cols: nat,
)
    ensures
        converted_cols(buf, frame, target, y, cols).len() == cols * target.bytes_per_pixel().count(),
    decreases cols,
{
    let size = target.bytes_per_pixel().count();
    if cols > 0 {
        lemma_converted_cols_len(buf, frame, target, y, (cols - 1) as nat);
        assert(cols * size == (cols - 1) * size + size) by (nonlinear_arith);
    } else {
        assert(cols * size == 0) by (nonlinear_arith)
            requires
                cols == 0,
        ;
    }
}

/// A converted buffer has `rows` rows of `width` pixels of the target format.
pub proof fn lemma_converted_rows_len(buf: Seq<u8>, frame: Frame, target: MemoryFormat, rows: nat)
    ensures
        converted_rows(buf, frame, target, rows).len() == rows * (frame.width
            * target.bytes_per_pixel().count()),
    decreases rows,
{
    let row_len = frame.width * target.bytes_per_pixel().count();
    if rows > 0 {
        lemma_converted_rows_len(buf, frame, target, (rows - 1) as nat);
        lemma_converted_cols_len(buf, frame, target, rows - 1, frame.width as nat);
        assert(rows * row_len == (rows - 1) * row_len + row_len) by (nonlinear_arith);
    } else {
        assert(rows * row_len == 0) by (nonlinear_arith)
            requires
                rows == 0,
        ;
    }
}

/// Tells whether pixels of the format can be converted.
pub fn is_convertible(format: MemoryFormat) -> (possible: bool)
    ensures
        possible == convertible(format),
{
    match format.channel_type() {
        ChannelType::U8 | ChannelType::U16 => true,
        _ => false,
    }
}

/// Converts the pixels of the frame to the target format.
///
/// A frame that has the target format already is handed back untouched. Every
/// other frame gets a new buffer of tightly packed rows, in which each pixel
/// is the one of the source, read and written as the formats say.
pub fn change_memory_format(buf: Vec<u8>, frame: &mut Frame, target: MemoryFormat) -> (res: Result<
    Vec<u8>,
    EditingError,
>)
    ensures
        old(frame).memory_format == target ==> res == Ok::<Vec<u8>, EditingError>(buf)
            && *final(frame) == *old(frame),
        old(frame).memory_format != target ==> match res {
            Ok(new) => {
                &&& conversion_fault(buf@.len(), *old(frame), target) is None
                &&& new@ == converted_rows(buf@, *old(frame), target, old(frame).height as nat)
                &&& *final(frame) == converted_frame(*old(frame), target)
                &&& geometry(*final(frame)).fits(new@.len())
            },
            Err(e) => conversion_fault(buf@.len(), *old(frame), target) == Some(e) && *final(frame)
                == *old(frame),
        },
{
    let source_format = frame.memory_format;
    if source_format == target {
        return Ok(buf);
    }
    if !is_convertible(source_format) || !is_convertible(target) {
        return Err(EditingError::UnsupportedFormat);
    }
    let ghost source = *frame;
    let width = frame.width;
    let height = frame.height;
    let target_size = target.n_bytes().usize();
    let source_size = source_format.n_bytes().usize();
    assert(target_size <= 16 && source_size <= 16);
    assert(width as int * target_size as int <= 0xffff_ffff * 16) by (nonlinear_arith)
        requires
            width <= 0xffff_ffff,
            target_size <= 16,
    ;
    let new_stride = width as u64 * target_size as u64;
    if new_stride > u32::MAX as u64 {
        return Err(EditingError::Math);
    }
    assert(height as int * new_stride as int <= 0xffff_ffff * 0xffff_ffff) by (nonlinear_arith)
        requires
            height <= 0xffff_ffff,
            new_stride <= 0xffff_ffff,
    ;
    if height as u64 * new_stride > usize::MAX as u64 {
        return Err(EditingError::Math);
    }
    if frame.n_bytes().is_err() {
        return Err(EditingError::Math);
    }
    if !frame.editing_frame().check_fits(buf.len()) {
        return Err(EditingError::OutOfBounds);
    }
    let stride = frame.stride as usize;
    let total = buf.len();
    let mut new: Vec<u8> = Vec::new();
    let mut y: u32 = 0;
    while y < height
        invariant
            y <= height,
            total == buf@.len(),
            geometry(source).fits(buf@.len()),
            source.width == width,
            source.height == height,
            source.memory_format == source_format,
            convertible(source_format),
            convertible(target),
            source_size == source_format.bytes_per_pixel().count(),
            stride == source.stride,
            new@ == converted_rows(buf@, source, target, y as nat),
        decreases height - y,
    {
        let ghost above = new@;
        let mut x: u32 = 0;
        while x < width
            invariant
                x <= width,
                y < height,
                total == buf@.len(),
                geometry(source).fits(buf@.len()),
                source.width == width,
                source.height == height,
                source.memory_format == source_format,
                convertible(source_format),
                convertible(target),
                source_size == source_format.bytes_per_pixel().count(),
                stride == source.stride,
                new@ == above + converted_cols(buf@, source, target, y as int, x as nat),
            decreases width - x,
        {
            proof {
                lemma_pixel_bounds(buf@, geometry(source), x as int, y as int);
            }
            let start = y as usize * stride + x as usize * source_size;
            let pixel = decode_pixel(source_format, &buf, start);
            encode_pixel(target, pixel, &mut new);
            x += 1;
        }
        y += 1;
    }
    proof {
        lemma_converted_rows_len(buf@, source, target, height as nat);
        assert(height * (width * target_size) == (width * target_size) * height)
            by (nonlinear_arith);
    }
    frame.stride = new_stride as u32;
    frame.memory_format = target;
    Ok(new)
}

/// The converted pixels of a row are parts that stand one after the other.
proof fn lemma_converted_cols_stacked(
    buf: Seq<u8>,
    frame: Frame,
    target: MemoryFormat,
    y: int,
    cols: nat,
    part: spec_fn(int) -> Seq<u8>,
)
    requires
        forall|x: int| #[trigger]
            part(x) == converted(
                frame.memory_format,
                pixel_at(buf, geometry(frame), x, y),
                target,
            ),
    ensures
        converted_cols(buf, frame, target, y, cols) == stacked(part, cols),
    decreases cols,
{
    if cols > 0 {
        lemma_converted_cols_stacked(buf, frame, target, y, (cols - 1) as nat, part);
        assert(part(cols - 1) == converted(
            frame.memory_format,
            pixel_at(buf, geometry(frame), cols - 1, y),
            target,
        ));
    }
}

/// The converted rows are parts that stand one after the other.
proof fn lemma_converted_rows_stacked(
    buf: Seq<u8>,
    frame: Frame,
    target: MemoryFormat,
    rows: nat,
    part: spec_fn(int) -> Seq<u8>,
)
    requires
        forall|y: int| #[trigger]
            part(y) == converted_cols(buf, frame, target, y, frame.width as nat),
    ensures
        converted_rows(buf, frame, target, rows) == stacked(part, rows),
    decreases rows,
{
    if rows > 0 {
        lemma_converted_rows_stacked(buf, frame, target, (rows - 1) as nat, part);
        assert(part(rows - 1) == converted_cols(buf, frame, target, rows - 1, frame.width as nat));
    }
}

/// Pixel `(x, y)` of a converted buffer is the pixel `(x, y)` of the source
/// in the target format.
pub proof fn lemma_converted_pixel(buf: Seq<u8>, frame: Frame, target: MemoryFormat, x: int, y: int)
    requires
        frame.width * target.bytes_per_pixel().count() <= u32::MAX,
        0 <= x < frame.width,
        0 <= y < frame.height,
    ensures
        pixel_at(
            converted_rows(buf, frame, target, frame.height as nat),
            geometry(converted_frame(frame, target)),
            x,
            y,
        ) == converted(frame.memory_format, pixel_at(buf, geometry(frame), x, y), target),
        converted(frame.memory_format, pixel_at(buf, geometry(frame), x, y), target).len()
            == target.bytes_per_pixel().count(),
{
    let size = target.bytes_per_pixel().count();
    let row_len = frame.width * size;
    let whole = converted_rows(buf, frame, target, frame.height as nat);
    let row = |r: int| converted_cols(buf, frame, target, r, frame.width as nat);
    let pixel = |c: int|
        converted(frame.memory_format, pixel_at(buf, geometry(frame), c, y), target);
    lemma_converted_rows_stacked(buf, frame, target, frame.height as nat, row);
    lemma_converted_cols_stacked(buf, frame, target, y, frame.width as nat, pixel);
    assert forall|r: int| 0 <= r < frame.height implies (#[trigger] row(r)).len() == row_len by {
        lemma_converted_cols_len(buf, frame, target, r, frame.width as nat);
    }
    assert forall|c: int| 0 <= c < frame.width implies (#[trigger] pixel(c)).len() == size by {}
    assert(0 <= row_len) by (nonlinear_arith)
        requires
            0 <= frame.width,
            0 < size,
            row_len == frame.width * size,
    ;
    lemma_stacked_part(row, frame.height as nat, row_len as nat, y);
    lemma_stacked_part(pixel, frame.width as nat, size as nat, x);
    assert(geometry(converted_frame(frame, target)).stride == row_len);
    assert(geometry(converted_frame(frame, target)).pixel_size() == size);
    lemma_piece_of_piece(whole, y * row_len, row_len, x * size, size);
}

/// Converting a frame to a format that loses nothing of its own, and back,
/// gives each pixel its bytes again.
pub proof fn lemma_conversion_round_trip(
    buf: Seq<u8>,
    frame: Frame,
    to: MemoryFormat,
    x: int,
    y: int,
)
    requires
        conversion_fault(buf.len(), frame, to) is None,
        widens(frame.memory_format, to),
        0 <= x < frame.width,
        0 <= y < frame.height,
    ensures
        ({
            let there = converted_rows(buf, frame, to, frame.height as nat);
            let between = converted_frame(frame, to);
            let back = converted_rows(there, between, frame.memory_format, frame.height as nat);
            pixel_at(back, geometry(converted_frame(between, frame.memory_format)), x, y)
                == pixel_at(buf, geometry(frame), x, y)
        }),
{
    let from = frame.memory_format;
    let there = converted_rows(buf, frame, to, frame.height as nat);
    let between = converted_frame(frame, to);
    lemma_pixel_bounds(buf, geometry(frame), x, y);
    lemma_converted_pixel(buf, frame, to, x, y);
    assert(between.width * from.bytes_per_pixel().count() <= u32::MAX);
    lemma_converted_pixel(there, between, from, x, y);
    lemma_widening_round_trip(from, to, pixel_at(buf, geometry(frame), x, y));
}

/// The pixel in which a byte of a buffer without padding lies, and the place
/// of the byte in the pixel.
proof fn lemma_place_of_byte(k: int, width: int, height: int, size: int)
    requires
        0 < size,
        0 <= width,
        0 <= height,
        0 <= k < (width * size) * height,
    ensures
        ({
            let row = width * size;
            let y = k / row;
            let x = (k % row) / size;
            let at = (k % row) % size;
            &&& 0 <= y < height
            &&& 0 <= x < width
            &&& 0 <= at < size
            &&& k == y * row + x * size + at
        }),
{
    let row = width * size;
    assert(row > 0) by (nonlinear_arith)
        requires
            0 <= k < row * height,
            0 <= height,
    ;
    let y = k / row;
    let r = k % row;
    let x = r / size;
    let at = r % size;
    vstd::arithmetic::div_mod::lemma_fundamental_div_mod(k, row);
    vstd::arithmetic::div_mod::lemma_mod_pos_bound(k, row);
    vstd::arithmetic::div_mod::lemma_div_pos_is_pos(k, row);
    vstd::arithmetic::div_mod::lemma_fundamental_div_mod(r, size);
    vstd::arithmetic::div_mod::lemma_mod_pos_bound(r, size);
    vstd::arithmetic::div_mod::lemma_div_pos_is_pos(r, size);
    assert(y < height) by (nonlinear_arith)
        requires
            k == row * y + r,
            0 <= r,
            k < row * height,
            row > 0,
    ;
    assert(x < width) by (nonlinear_arith)
        requires
            r == size * x + at,
            0 <= at,
            r < width * size,
            size > 0,
    ;
    assert(k == y * row + x * size + at) by (nonlinear_arith)
        requires
            k == row * y + r,
            r == size * x + at,
    ;
}

/// Converting a frame without padding to a format that loses nothing of its
/// own, and back, gives the buffer and the frame again: every byte is what it
/// was, and so are format and stride.
pub proof fn lemma_whole_round_trip(buf: Seq<u8>, frame: Frame, to: MemoryFormat)
    requires
        conversion_fault(buf.len(), frame, to) is None,
        widens(frame.memory_format, to),
        frame.stride == frame.width * frame.memory_format.bytes_per_pixel().count(),
        buf.len() == frame.stride * frame.height,
    ensures
        ({
            let there = converted_rows(buf, frame, to, frame.height as nat);
            let between = converted_frame(frame, to);
            let back = converted_rows(there, between, frame.memory_format, frame.height as nat);
            &&& conversion_fault(there.len(), between, frame.memory_format) is None
            &&& back == buf
            &&& converted_frame(between, frame.memory_format) == frame
        }),
{
    let from = frame.memory_format;
    let size = from.bytes_per_pixel().count();
    let wide = to.bytes_per_pixel().count();
    let there = converted_rows(buf, frame, to, frame.height as nat);
    let between = converted_frame(frame, to);
    let back = converted_rows(there, between, from, frame.height as nat);
    let width = frame.width as int;
    let height = frame.height as int;
    lemma_converted_rows_len(buf, frame, to, frame.height as nat);
    lemma_converted_rows_len(there, between, from, frame.height as nat);
    assert(between.stride == width * wide);
    assert(there.len() == between.stride * between.height) by (nonlinear_arith)
        requires
            there.len() == height * (width * wide),
            between.stride == width * wide,
            between.height == height,
    ;
    assert(back.len() == buf.len()) by (nonlinear_arith)
        requires
            back.len() == height * (width * size),
            buf.len() == (width * size) * height,
    ;
    assert(converted_frame(between, from) == frame);
    assert forall|k: int| 0 <= k < buf.len() implies back[k] == buf[k] by {
        lemma_place_of_byte(k, width, height, size);
        let row = width * size;
        let y = k / row;
        let x = (k % row) / size;
        let at = (k % row) % size;
        lemma_conversion_round_trip(buf, frame, to, x, y);
        lemma_pixel_bounds(buf, geometry(frame), x, y);
        let old_pixel = pixel_at(buf, geometry(frame), x, y);
        let new_pixel = pixel_at(back, geometry(frame), x, y);
        assert(old_pixel[at] == buf[y * row + x * size + at]);
        assert(y * row + x * size + size <= back.len());
        assert(new_pixel[at] == back[y * row + x * size + at]);
    }
    assert(back =~= buf);
}

/// Converting a frame to a format with a place for each of its channels, and
/// back, moves no channel of a pixel by more than 128 of 65535.
pub proof fn lemma_conversion_stays_near(
    buf: Seq<u8>,
    frame: Frame,
    to: MemoryFormat,
    x: int,
    y: int,
)
    requires
        conversion_fault(buf.len(), frame, to) is None,
        keeps_channels(frame.memory_format, to),
        0 <= x < frame.width,
        0 <= y < frame.height,
    ensures
        ({
            let there = converted_rows(buf, frame, to, frame.height as nat);
            let between = converted_frame(frame, to);
            let back = converted_rows(there, between, frame.memory_format, frame.height as nat);
            near(
                decoded(
                    frame.memory_format,
                    pixel_at(back, geometry(converted_frame(between, frame.memory_format)), x, y),
                ),
                decoded(frame.memory_format, pixel_at(buf, geometry(frame), x, y)),
                128,
            )
        }),
{
    let from = frame.memory_format;
    let there = converted_rows(buf, frame, to, frame.height as nat);
    let between = converted_frame(frame, to);
    lemma_pixel_bounds(buf, geometry(frame), x, y);
    lemma_converted_pixel(buf, frame, to, x, y);
    assert(between.width * from.bytes_per_pixel().count() <= u32::MAX);
    lemma_converted_pixel(there, between, from, x, y);
    lemma_round_trip_tolerance(from, to, pixel_at(buf, geometry(frame), x, y));
}

} // verus!

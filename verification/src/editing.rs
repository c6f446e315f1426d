//! Changes to raw pixel buffers: clipping and reorientation.
//!
//! A buffer is a grid of pixels. Row `y` starts at byte `y * stride`, and each
//! pixel takes the number of bytes that the frame's memory format gives.

use crate::grid::{lemma_piece_of_piece, lemma_stacked_part, stacked};
use crate::memory_format::{ExtendedMemoryFormat, MemoryFormatInfo};
use crate::orientation::{Orientation, Rotation};
use vstd::prelude::*;

verus! {

/// Why a pixel buffer could not be changed.
#[derive(Debug, Clone, Copy, PartialEq, Eq, Structural)]
pub enum EditingError {
    /// The buffer is shorter than the frame says, or the requested area lies
    /// outside of the frame.
    OutOfBounds,
    /// A size does not fit into the integers that hold it.
    Math,
    /// The memory format stores floating point channels.
    UnsupportedFormat,
}

/// Geometry of a pixel buffer that is being edited.
#[derive(Debug, Clone, Copy, PartialEq, Eq, Structural)]
pub struct EditingFrame {
    pub width: u32,
    pub height: u32,
    /// Line stride
    pub stride: u32,
    pub memory_format: ExtendedMemoryFormat,
}

impl EditingFrame {
    /// Bytes of one pixel.
    pub open spec fn pixel_size(self) -> int {
        self.memory_format.bytes_per_pixel().count()
    }

    /// Whether a buffer of `len` bytes holds every row of the frame.
    pub open spec fn fits(self, len: nat) -> bool {
        &&& self.stride >= self.width * self.pixel_size()
        &&& self.stride * self.height <= len
    }

    /// Tells whether a buffer of `len` bytes holds every row of the frame.
    pub fn check_fits(&self, len: usize) -> (fits: bool)
        ensures
            fits == self.fits(len as nat),
    {
        let size = self.memory_format.n_bytes().u64();
        let row = self.width as u64 * size;
        assert(self.stride as int * self.height as int <= 0xffff_ffff * 0xffff_ffff)
            by (nonlinear_arith)
            requires
                self.stride <= 0xffff_ffff,
                self.height <= 0xffff_ffff,
        ;
        let total = self.stride as u64 * self.height as u64;
        self.stride as u64 >= row && total <= len as u64
    }
}

/// The bytes of the pixel in column `x` of row `y`.
pub open spec fn pixel_at(buf: Seq<u8>, frame: EditingFrame, x: int, y: int) -> Seq<u8> {
    buf.subrange(
        y * frame.stride + x * frame.pixel_size(),
        y * frame.stride + x * frame.pixel_size() + frame.pixel_size(),
    )
}

/// Whether the area `(x, y, width, height)` lies inside of the frame.
pub open spec fn area_within(frame: EditingFrame, area: (u32, u32, u32, u32)) -> bool {
    &&& area.0 + area.2 <= frame.width
    &&& area.1 + area.3 <= frame.height
}

/// Row `row` of the area: `width * pixel_size` bytes of the source row.
pub open spec fn clip_row(
    buf: Seq<u8>,
    frame: EditingFrame,
    area: (u32, u32, u32, u32),
    row: int,
) -> Seq<u8> {
    buf.subrange(
        (area.1 + row) * frame.stride + area.0 * frame.pixel_size(),
        (area.1 + row) * frame.stride + (area.0 + area.2) * frame.pixel_size(),
    )
}

/// The first `rows` rows of the area, one after the other without padding.
pub open spec fn clip_rows(
    buf: Seq<u8>,
    frame: EditingFrame,
    area: (u32, u32, u32, u32),
    rows: nat,
) -> Seq<u8>
    decreases rows,
{
    if rows == 0 {
        Seq::empty()
    } else {
        clip_rows(buf, frame, area, (rows - 1) as nat) + clip_row(buf, frame, area, rows - 1)
    }
}

/// The frame of a clipped buffer: the area's size, tightly packed.
pub open spec fn clipped_frame(frame: EditingFrame, area: (u32, u32, u32, u32)) -> EditingFrame {
    EditingFrame {
        width: area.2,
        height: area.3,
        stride: (area.2 * frame.pixel_size()) as u32,
        memory_format: frame.memory_format,
    }
}

/// A clipped buffer has `height` rows of `width` pixels and nothing else.
pub proof fn lemma_clip_rows_len(
    buf: Seq<u8>,
    frame: EditingFrame,
    area: (u32, u32, u32, u32),
    rows: nat,
)
    requires
        frame.fits(buf.len()),
        area_within(frame, area),
        rows <= area.3,
    ensures
        clip_rows(buf, frame, area, rows).len() == rows * (area.2 * frame.pixel_size()),
    decreases rows,
{
    let row_len = area.2 * frame.pixel_size();
    if rows > 0 {
        lemma_clip_rows_len(buf, frame, area, (rows - 1) as nat);
        lemma_clip_row_len(buf, frame, area, rows - 1);
        let above = clip_rows(buf, frame, area, (rows - 1) as nat);
        let last = clip_row(buf, frame, area, rows - 1);
        assert(clip_rows(buf, frame, area, rows) == above + last);
        assert(above.len() == (rows - 1) * row_len);
        assert(last.len() == row_len);
        assert(rows * row_len == (rows - 1) * row_len + row_len) by (nonlinear_arith);
    } else {
        assert(rows * row_len == 0) by (nonlinear_arith)
            requires
                rows == 0,
        ;
    }
}

/// The rows of the area are parts that stand one after the other.
proof fn lemma_clip_rows_stacked(
    buf: Seq<u8>,
    frame: EditingFrame,
    area: (u32, u32, u32, u32),
    rows: nat,
    part: spec_fn(int) -> Seq<u8>,
)
    requires
        forall|row: int| #[trigger] part(row) == clip_row(buf, frame, area, row),
    ensures
        clip_rows(buf, frame, area, rows) == stacked(part, rows),
    decreases rows,
{
    if rows > 0 {
        lemma_clip_rows_stacked(buf, frame, area, (rows - 1) as nat, part);
        assert(part(rows - 1) == clip_row(buf, frame, area, rows - 1));
    }
}

/// Pixel `(x, y)` of a clipped buffer is the pixel of the source that stands
/// `x` columns and `y` rows after the corner of the area.
pub proof fn lemma_clipped_pixel(
    buf: Seq<u8>,
    frame: EditingFrame,
    area: (u32, u32, u32, u32),
    x: int,
    y: int,
)
    requires
        frame.fits(buf.len()),
        area_within(frame, area),
        0 <= x < area.2,
        0 <= y < area.3,
    ensures
        pixel_at(clip_rows(buf, frame, area, area.3 as nat), clipped_frame(frame, area), x, y)
            == pixel_at(buf, frame, area.0 + x, area.1 + y),
{
    let size = frame.pixel_size();
    let row_len = area.2 * size;
    let part = |row: int| clip_row(buf, frame, area, row);
    let whole = clip_rows(buf, frame, area, area.3 as nat);
    lemma_clip_rows_stacked(buf, frame, area, area.3 as nat, part);
    assert forall|row: int| 0 <= row < area.3 implies (#[trigger] part(row)).len()
        == row_len by {
        lemma_clip_row_len(buf, frame, area, row);
    }
    lemma_clip_row_len(buf, frame, area, y);
    lemma_row_bounds(frame, buf.len(), area.0 as int, area.2 as int, area.1 + y);
    lemma_stacked_part(part, area.3 as nat, row_len as nat, y);
    assert(0 <= x * size && x * size + size <= row_len && (area.0 + x) * size == area.0 * size
        + x * size) by (nonlinear_arith)
        requires
            0 <= x < area.2,
            0 < size,
            row_len == area.2 * size,
    ;
    assert(clipped_frame(frame, area).stride == row_len);
    let start = (area.1 + y) * frame.stride + area.0 * size;
    lemma_piece_of_piece(whole, y * row_len, row_len, x * size, size);
    lemma_piece_of_piece(buf, start, row_len, x * size, size);
    assert(clip_row(buf, frame, area, y) == buf.subrange(start, start + row_len));
}

/// Every row of the area has `width * pixel_size` bytes.
proof fn lemma_clip_row_len(
    buf: Seq<u8>,
    frame: EditingFrame,
    area: (u32, u32, u32, u32),
    row: int,
)
    requires
        frame.fits(buf.len()),
        area_within(frame, area),
        0 <= row < area.3,
    ensures
        clip_row(buf, frame, area, row).len() == area.2 * frame.pixel_size(),
        0 <= (area.1 + row) * frame.stride + area.0 * frame.pixel_size(),
        (area.1 + row) * frame.stride + area.0 * frame.pixel_size() + area.2 * frame.pixel_size()
            <= buf.len(),
        (area.0 + area.2) * frame.pixel_size() == area.0 * frame.pixel_size() + area.2
            * frame.pixel_size(),
{
    let size = frame.pixel_size();
    let x = area.0 as int;
    let width = area.2 as int;
    lemma_row_bounds(frame, buf.len(), x, width, area.1 + row);
    assert((x + width) * size == x * size + width * size) by (nonlinear_arith);
}

/// Bytes `left` to `left + count` pixels of row `y` lie inside of the buffer.
proof fn lemma_row_bounds(frame: EditingFrame, len: nat, left: int, count: int, y: int)
    requires
        frame.fits(len),
        0 <= left,
        0 <= count,
        left + count <= frame.width,
        0 <= y < frame.height,
    ensures
        0 <= y * frame.stride,
        0 <= left * frame.pixel_size() <= (left + count) * frame.pixel_size() <= frame.stride,
        y * frame.stride + frame.stride <= len,
{
    let size = frame.pixel_size();
    let stride = frame.stride as int;
    let width = frame.width as int;
    let height = frame.height as int;
    assert(0 <= left * size <= (left + count) * size <= width * size) by (nonlinear_arith)
        requires
            0 <= left,
            0 <= count,
            left + count <= width,
            0 < size,
    ;
    assert(0 <= y * stride && y * stride + stride <= stride * height) by (nonlinear_arith)
        requires
            0 <= y < height,
            0 <= stride,
    ;
}

/// Appends `len` bytes of `buf`, from `start` on, to `out`.
fn append_range(out: &mut Vec<u8>, buf: &Vec<u8>, start: usize, len: usize)
    requires
        start + len <= buf@.len(),
    ensures
        final(out)@ == old(out)@ + buf@.subrange(start as int, start + len),
{
    let ghost before = out@;
    let total = buf.len();
    let mut i: usize = 0;
    while i < len
        invariant
            i <= len,
            total == buf@.len(),
            start + len <= buf@.len(),
            out@ == before + buf@.subrange(start as int, start + i),
        decreases len - i,
    {
        out.push(buf[start + i]);
        proof {
            assert(buf@.subrange(start as int, start + i + 1) == buf@.subrange(
                start as int,
                start + i,
            ).push(buf@[start + i]));
        }
        i += 1;
    }
}

/// Cuts the area `(x, y, width, height)` out of the buffer.
///
/// The result holds the rows of the area without padding, and `frame` describes
/// it. An area that leaves the frame, or a frame that the buffer does not hold,
/// is refused, and `frame` stays as it is.
pub fn clip(buf: Vec<u8>, frame: &mut EditingFrame, area: (u32, u32, u32, u32)) -> (res: Result<
    Vec<u8>,
    EditingError,
>)
    ensures
        res is Ok <==> old(frame).fits(buf@.len()) && area_within(*old(frame), area),
        match res {
            Ok(new) => {
                &&& new@ == clip_rows(buf@, *old(frame), area, area.3 as nat)
                &&& *final(frame) == clipped_frame(*old(frame), area)
                &&& final(frame).fits(new@.len())
            },
            Err(e) => e == EditingError::OutOfBounds && *final(frame) == *old(frame),
        },
{
    let (x, y, width, height) = area;
    if !frame.check_fits(buf.len()) || x as u64 + width as u64 > frame.width as u64 || y as u64
        + height as u64 > frame.height as u64 {
        return Err(EditingError::OutOfBounds);
    }
    let ghost source = *frame;
    let size = frame.memory_format.n_bytes().usize();
    let stride = frame.stride as usize;
    let total = buf.len();
    proof {
        assert(0 <= x * size <= (x + width) * size <= source.width * size) by (nonlinear_arith)
            requires
                0 <= x,
                0 <= width,
                x + width <= source.width,
                0 < size,
        ;
        assert((x + width) * size == x * size + width * size) by (nonlinear_arith);
    }
    let left = x as usize * size;
    let row_len = width as usize * size;
    let mut new: Vec<u8> = Vec::new();
    let mut row: u32 = 0;
    while row < height
        invariant
            row <= height,
            source.fits(buf@.len()),
            area_within(source, area),
            area == (x, y, width, height),
            size == source.pixel_size(),
            stride == source.stride,
            left == x * size,
            row_len == width * size,
            total == buf@.len(),
            new@ == clip_rows(buf@, source, area, row as nat),
        decreases height - row,
    {
        proof {
            lemma_clip_row_len(buf@, source, area, row as int);
        }
        let start = (y + row) as usize * stride + left;
        append_range(&mut new, &buf, start, row_len);
        row += 1;
    }
    proof {
        lemma_clip_rows_len(buf@, source, area, height as nat);
        assert(height * (width * size) == (width * size) * height) by (nonlinear_arith);
    }
    frame.width = width;
    frame.height = height;
    frame.stride = row_len as u32;
    Ok(new)
}

/// Column of the source pixel that ends up in column `x` of row `y`, for a source
/// of `width` by `height` pixels.
pub open spec fn source_x(orientation: Orientation, width: int, height: int, x: int, y: int) -> int {
    match orientation {
        Orientation::Id | Orientation::MirroredRotation180 => x,
        Orientation::Rotation90 | Orientation::MirroredRotation270 => width - 1 - y,
        Orientation::Rotation180 | Orientation::Mirrored => width - 1 - x,
        Orientation::Rotation270 | Orientation::MirroredRotation90 => y,
    }
}

/// Row of the source pixel that ends up in column `x` of row `y`, for a source of
/// `width` by `height` pixels.
pub open spec fn source_y(orientation: Orientation, width: int, height: int, x: int, y: int) -> int {
    match orientation {
        Orientation::Id | Orientation::Mirrored => y,
        Orientation::Rotation90 | Orientation::MirroredRotation90 => x,
        Orientation::Rotation180 | Orientation::MirroredRotation180 => height - 1 - y,
        Orientation::Rotation270 | Orientation::MirroredRotation270 => height - 1 - x,
    }
}

/// Width of the frame once the orientation is applied.
pub open spec fn oriented_width(frame: EditingFrame, orientation: Orientation) -> int {
    if orientation.swaps_axes() {
        frame.height as int
    } else {
        frame.width as int
    }
}

/// Height of the frame once the orientation is applied.
pub open spec fn oriented_height(frame: EditingFrame, orientation: Orientation) -> int {
    if orientation.swaps_axes() {
        frame.width as int
    } else {
        frame.height as int
    }
}

/// Whether the stride of the reoriented frame can be stored.
pub open spec fn orientable(frame: EditingFrame, orientation: Orientation) -> bool {
    oriented_width(frame, orientation) * frame.pixel_size() <= u32::MAX
}

/// The frame once the orientation is applied: tightly packed rows.
pub open spec fn oriented_frame(frame: EditingFrame, orientation: Orientation) -> EditingFrame {
    if orientation == Orientation::Id {
        frame
    } else {
        EditingFrame {
            width: oriented_width(frame, orientation) as u32,
            height: oriented_height(frame, orientation) as u32,
            stride: (oriented_width(frame, orientation) * frame.pixel_size()) as u32,
            memory_format: frame.memory_format,
        }
    }
}

/// The first `cols` pixels of row `y` of the reoriented image.
pub open spec fn oriented_cols(
    buf: Seq<u8>,
    frame: EditingFrame,
    orientation: Orientation,
    y: int,
    cols: nat,
) -> Seq<u8>
    decreases cols,
{
    if cols == 0 {
        Seq::empty()
    } else {
        oriented_cols(buf, frame, orientation, y, (cols - 1) as nat) + pixel_at(
            buf,
            frame,
            source_x(orientation, frame.width as int, frame.height as int, cols - 1, y),
            source_y(orientation, frame.width as int, frame.height as int, cols - 1, y),
        )
    }
}

/// The first `rows` rows of the reoriented image.
pub open spec fn oriented_rows(
    buf: Seq<u8>,
    frame: EditingFrame,
    orientation: Orientation,
    rows: nat,
) -> Seq<u8>
    decreases rows,
{
    if rows == 0 {
        Seq::empty()
    } else {
        oriented_rows(buf, frame, orientation, (rows - 1) as nat) + oriented_cols(
            buf,
            frame,
            orientation,
            rows - 1,
            oriented_width(frame, orientation) as nat,
        )
    }
}

/// The buffer once the orientation is applied. The identity leaves the buffer
/// as it is, padding included; every other orientation packs the rows tightly.
pub open spec fn oriented(buf: Seq<u8>, frame: EditingFrame, orientation: Orientation) -> Seq<u8> {
    if orientation == Orientation::Id {
        buf
    } else {
        oriented_rows(buf, frame, orientation, oriented_height(frame, orientation) as nat)
    }
}

/// Every pixel of the frame lies inside of the buffer.
pub proof fn lemma_pixel_bounds(buf: Seq<u8>, frame: EditingFrame, x: int, y: int)
    requires
        frame.fits(buf.len()),
        0 <= x < frame.width,
        0 <= y < frame.height,
    ensures
        0 <= y * frame.stride,
        0 <= x * frame.pixel_size(),
        y * frame.stride + x * frame.pixel_size() + frame.pixel_size() <= buf.len(),
        pixel_at(buf, frame, x, y).len() == frame.pixel_size(),
{
    let size = frame.pixel_size();
    lemma_row_bounds(frame, buf.len(), x, 1, y);
    assert((x + 1) * size == x * size + size) by (nonlinear_arith);
}

/// The source of every pixel of the reoriented image lies in the source image.
pub proof fn lemma_source_in_frame(frame: EditingFrame, orientation: Orientation, x: int, y: int)
    requires
        0 <= x < oriented_width(frame, orientation),
        0 <= y < oriented_height(frame, orientation),
    ensures
        0 <= source_x(orientation, frame.width as int, frame.height as int, x, y) < frame.width,
        0 <= source_y(orientation, frame.width as int, frame.height as int, x, y) < frame.height,
{
}

proof fn lemma_oriented_cols_len(
    buf: Seq<u8>,
    frame: EditingFrame,
    orientation: Orientation,
    y: int,
    cols: nat,
)
    requires
        frame.fits(buf.len()),
        0 <= y < oriented_height(frame, orientation),
        cols <= oriented_width(frame, orientation),
    ensures
        oriented_cols(buf, frame, orientation, y, cols).len() == cols * frame.pixel_size(),
    decreases cols,
{
    if cols > 0 {
        lemma_oriented_cols_len(buf, frame, orientation, y, (cols - 1) as nat);
        lemma_source_in_frame(frame, orientation, cols - 1, y);
        let sx = source_x(orientation, frame.width as int, frame.height as int, cols - 1, y);
        let sy = source_y(orientation, frame.width as int, frame.height as int, cols - 1, y);
        lemma_pixel_bounds(buf, frame, sx, sy);
        let size = frame.pixel_size();
        assert(cols * size == (cols - 1) * size + size) by (nonlinear_arith);
    }
}

/// The pixels of a reoriented row are parts that stand one after the other.
proof fn lemma_oriented_cols_stacked(
    buf: Seq<u8>,
    frame: EditingFrame,
    orientation: Orientation,
    y: int,
    cols: nat,
    part: spec_fn(int) -> Seq<u8>,
)
    requires
        forall|x: int| #[trigger]
            part(x) == pixel_at(
                buf,
                frame,
                source_x(orientation, frame.width as int, frame.height as int, x, y),
                source_y(orientation, frame.width as int, frame.height as int, x, y),
            ),
    ensures
        oriented_cols(buf, frame, orientation, y, cols) == stacked(part, cols),
    decreases cols,
{
    if cols > 0 {
        lemma_oriented_cols_stacked(buf, frame, orientation, y, (cols - 1) as nat, part);
        assert(part(cols - 1) == pixel_at(
            buf,
            frame,
            source_x(orientation, frame.width as int, frame.height as int, cols - 1, y),
            source_y(orientation, frame.width as int, frame.height as int, cols - 1, y),
        ));
    }
}

/// The rows of a reoriented image are parts that stand one after the other.
proof fn lemma_oriented_rows_stacked(
    buf: Seq<u8>,
    frame: EditingFrame,
    orientation: Orientation,
    rows: nat,
    part: spec_fn(int) -> Seq<u8>,
)
    requires
        forall|y: int| #[trigger]
            part(y) == oriented_cols(
                buf,
                frame,
                orientation,
                y,
                oriented_width(frame, orientation) as nat,
            ),
    ensures
        oriented_rows(buf, frame, orientation, rows) == stacked(part, rows),
    decreases rows,
{
    if rows > 0 {
        lemma_oriented_rows_stacked(buf, frame, orientation, (rows - 1) as nat, part);
        assert(part(rows - 1) == oriented_cols(
            buf,
            frame,
            orientation,
            rows - 1,
            oriented_width(frame, orientation) as nat,
        ));
    }
}

/// Pixel `(x, y)` of a reoriented buffer is the pixel of the source that the
/// orientation brings there.
pub proof fn lemma_oriented_pixel(
    buf: Seq<u8>,
    frame: EditingFrame,
    orientation: Orientation,
    x: int,
    y: int,
)
    requires
        frame.fits(buf.len()),
        orientable(frame, orientation),
        0 <= x < oriented_width(frame, orientation),
        0 <= y < oriented_height(frame, orientation),
    ensures
        pixel_at(oriented(buf, frame, orientation), oriented_frame(frame, orientation), x, y)
            == pixel_at(
            buf,
            frame,
            source_x(orientation, frame.width as int, frame.height as int, x, y),
            source_y(orientation, frame.width as int, frame.height as int, x, y),
        ),
{
    if orientation != Orientation::Id {
        let size = frame.pixel_size();
        let width = oriented_width(frame, orientation);
        let height = oriented_height(frame, orientation);
        let row_len = width * size;
        let whole = oriented_rows(buf, frame, orientation, height as nat);
        let row = |r: int| oriented_cols(buf, frame, orientation, r, width as nat);
        let pixel = |c: int|
            pixel_at(
                buf,
                frame,
                source_x(orientation, frame.width as int, frame.height as int, c, y),
                source_y(orientation, frame.width as int, frame.height as int, c, y),
            );
        lemma_oriented_rows_stacked(buf, frame, orientation, height as nat, row);
        lemma_oriented_cols_stacked(buf, frame, orientation, y, width as nat, pixel);
        assert forall|r: int| 0 <= r < height implies (#[trigger] row(r)).len() == row_len by {
            lemma_oriented_cols_len(buf, frame, orientation, r, width as nat);
        }
        assert forall|c: int| 0 <= c < width implies (#[trigger] pixel(c)).len() == size by {
            lemma_source_in_frame(frame, orientation, c, y);
            lemma_pixel_bounds(
                buf,
                frame,
                source_x(orientation, frame.width as int, frame.height as int, c, y),
                source_y(orientation, frame.width as int, frame.height as int, c, y),
            );
        }
        assert(0 <= row_len) by (nonlinear_arith)
            requires
                0 <= width,
                0 < size,
                row_len == width * size,
        ;
        lemma_stacked_part(row, height as nat, row_len as nat, y);
        lemma_stacked_part(pixel, width as nat, size as nat, x);
        assert(oriented_frame(frame, orientation).stride == row_len);
        assert(oriented_frame(frame, orientation).pixel_size() == size);
        lemma_piece_of_piece(whole, y * row_len, row_len, x * size, size);
    }
}

/// A reoriented buffer has `rows` rows of the new width and nothing else.
pub proof fn lemma_oriented_rows_len(
    buf: Seq<u8>,
    frame: EditingFrame,
    orientation: Orientation,
    rows: nat,
)
    requires
        frame.fits(buf.len()),
        rows <= oriented_height(frame, orientation),
    ensures
        oriented_rows(buf, frame, orientation, rows).len() == rows * (oriented_width(
            frame,
            orientation,
        ) * frame.pixel_size()),
    decreases rows,
{
    let width = oriented_width(frame, orientation);
    let row_len = width * frame.pixel_size();
    if rows > 0 {
        lemma_oriented_rows_len(buf, frame, orientation, (rows - 1) as nat);
        lemma_oriented_cols_len(buf, frame, orientation, rows - 1, width as nat);
        let above = oriented_rows(buf, frame, orientation, (rows - 1) as nat);
        let last = oriented_cols(buf, frame, orientation, rows - 1, width as nat);
        assert(oriented_rows(buf, frame, orientation, rows) == above + last);
        assert(above.len() == (rows - 1) * row_len);
        assert(last.len() == row_len);
        assert(rows * row_len == (rows - 1) * row_len + row_len) by (nonlinear_arith);
    } else {
        assert(rows * row_len == 0) by (nonlinear_arith)
            requires
                rows == 0,
        ;
    }
}

/// Position in the source of the pixel that goes to column `x` of row `y`.
fn source_position(orientation: Orientation, width: u32, height: u32, x: u32, y: u32) -> (source: (
    u32,
    u32,
))
    requires
        x < (if orientation.swaps_axes() {
            height
        } else {
            width
        }),
        y < (if orientation.swaps_axes() {
            width
        } else {
            height
        }),
    ensures
        source.0 == source_x(orientation, width as int, height as int, x as int, y as int),
        source.1 == source_y(orientation, width as int, height as int, x as int, y as int),
        source.0 < width,
        source.1 < height,
{
    match orientation {
        Orientation::Id => (x, y),
        Orientation::Rotation90 => (width - 1 - y, x),
        Orientation::Rotation180 => (width - 1 - x, height - 1 - y),
        Orientation::Rotation270 => (y, height - 1 - x),
        Orientation::Mirrored => (width - 1 - x, y),
        Orientation::MirroredRotation90 => (y, x),
        Orientation::MirroredRotation180 => (x, height - 1 - y),
        Orientation::MirroredRotation270 => (width - 1 - y, height - 1 - x),
    }
}

/// Tells whether the stride of the reoriented frame can be stored.
pub fn check_orientable(frame: &EditingFrame, orientation: Orientation) -> (possible: bool)
    ensures
        possible == orientable(*frame, orientation),
{
    let size = frame.memory_format.n_bytes().u64();
    let width = match orientation.rotate() {
        Rotation::_90 | Rotation::_270 => frame.height,
        _ => frame.width,
    };
    width as u64 * size <= u32::MAX as u64
}

/// Mirrors and rotates the image as the orientation says: the result is the
/// image as it has to be shown.
///
/// The identity returns the buffer untouched. Every other orientation returns
/// tightly packed rows; a quarter turn exchanges width and height.
pub fn change_orientation(buf: Vec<u8>, frame: &mut EditingFrame, orientation: Orientation) -> (new:
    Vec<u8>)
    requires
        old(frame).fits(buf@.len()),
        orientable(*old(frame), orientation),
    ensures
        new@ == oriented(buf@, *old(frame), orientation),
        *final(frame) == oriented_frame(*old(frame), orientation),
        final(frame).fits(new@.len()),
{
    match orientation {
        Orientation::Id => {
            return buf;
        },
        _ => {},
    }
    let ghost source = *frame;
    let width = frame.width;
    let height = frame.height;
    let size = frame.memory_format.n_bytes().usize();
    let stride = frame.stride as usize;
    let (new_width, new_height) = match orientation.rotate() {
        Rotation::_90 | Rotation::_270 => (height, width),
        _ => (width, height),
    };
    let total = buf.len();
    let mut new: Vec<u8> = Vec::new();
    let mut y: u32 = 0;
    while y < new_height
        invariant
            y <= new_height,
            total == buf@.len(),
            source.fits(buf@.len()),
            source.width == width,
            source.height == height,
            size == source.pixel_size(),
            stride == source.stride,
            new_width == oriented_width(source, orientation),
            new_height == oriented_height(source, orientation),
            new@ == oriented_rows(buf@, source, orientation, y as nat),
        decreases new_height - y,
    {
        let ghost above = new@;
        let mut x: u32 = 0;
        while x < new_width
            invariant
                x <= new_width,
                y < new_height,
                total == buf@.len(),
                source.fits(buf@.len()),
                source.width == width,
                source.height == height,
                size == source.pixel_size(),
                stride == source.stride,
                new_width == oriented_width(source, orientation),
                new_height == oriented_height(source, orientation),
                new@ == above + oriented_cols(buf@, source, orientation, y as int, x as nat),
            decreases new_width - x,
        {
            let (sx, sy) = source_position(orientation, width, height, x, y);
            proof {
                lemma_pixel_bounds(buf@, source, sx as int, sy as int);
            }
            let start = sy as usize * stride + sx as usize * size;
            append_range(&mut new, &buf, start, size);
            x += 1;
        }
        y += 1;
    }
    proof {
        lemma_oriented_rows_len(buf@, source, orientation, new_height as nat);
        assert(new_height * (new_width * size) == (new_width * size) * new_height)
            by (nonlinear_arith);
    }
    frame.width = new_width;
    frame.height = new_height;
    frame.stride = (new_width as usize * size) as u32;
    new
}

} // verus!

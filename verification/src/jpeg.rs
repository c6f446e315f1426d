//! Editing of JPEG images.
//!
//! A single rotation is made without touching the pixels, by changing the
//! orientation that the Exif data of the image record. Everything else is made
//! on the decoded pixels, which are encoded again with the tables of the
//! image.

use crate::editing::EditingFrame;
use crate::editor_output::{
    changed, changes_within, ByteChange, ByteChanges, CompleteEditorOutput, SparseEditorOutput,
};
use crate::error::{ProcessError, ProcessErrorKind};
use crate::frame::BinaryData;
use crate::memory_format::ExtendedMemoryFormat;
use crate::operations::{applied, Edited, Operation, Operations};
use crate::orientation::{Orientation, Rotation};
use vstd::prelude::*;

verus! {

/// Number of bytes of the mark that stands before Exif data in a JPEG.
pub const EXIF_IDENTIFIER_LEN: usize = 6;

/// The marker of the segments that hold Exif data.
pub const MARKER_APP1: u8 = 0xe1;

/// The segments of a JPEG in their order, each with its marker, where it has
/// one, the place where its data start and the place where it ends: nothing
/// where the bytes are no JPEG.
pub uninterp spec fn jpeg_segments(data: Seq<u8>) -> Option<Seq<(Option<u8>, usize, usize)>>;

/// What the primary directory of Exif data holds as orientation: nothing
/// where the bytes are no Exif data or the orientation is no single short
/// number, and else the number, if there is one.
pub uninterp spec fn exif_short_orientation(exif: Seq<u8>) -> Option<Option<u16>>;

/// The bytes of Exif data that differ once the orientation is set to
/// `value`, each with its place in the Exif data and its new value: nothing
/// where the orientation cannot be set.
pub uninterp spec fn exif_orientation_diff(exif: Seq<u8>, value: u16) -> Option<Seq<(usize, u8)>>;

/// The JPEG that keeps the metadata of `original` and holds the given pixels,
/// encoded with the tables of `original`: nothing where this fails.
pub uninterp spec fn jpeg_with_pixels(
    original: Seq<u8>,
    pixels: Seq<u8>,
    width: u16,
    height: u16,
) -> Option<Seq<u8>>;

/// Calls `gufo_jpeg::Jpeg::new` and `Jpeg::segments`, and of each segment
/// `Segment::marker`, `Segment::data_pos` and `RawSegment::complete_data`.
/// Nothing is said of where the segments lie: a segment may end before its
/// data start.
#[verifier::external_body]
fn segments(data: &Vec<u8>) -> (res: Result<Vec<(Option<u8>, usize, usize)>, ()>)
    ensures
        match res {
            Ok(list) => jpeg_segments(data@) == Some(list@),
            Err(_) => jpeg_segments(data@) is None,
        },
{
    let jpeg = gufo_jpeg::Jpeg::new(data.clone()).map_err(|_| ())?;
    let mut list = Vec::new();
    for segment in jpeg.segments() {
        let marker = segment.marker().map(u8::from);
        let start = segment.data_pos();
        list.push((marker, start, segment.unsafe_raw_segment().complete_data().end));
    }
    Ok(list)
}

/// Calls `gufo_exif::Exif::for_vec` and `Document::lookup_short` for the
/// orientation tag of the primary directory. Exif data with offsets of 64
/// bits are left out, and so are machines with shorter addresses: there the
/// parser adds an offset and a count of the data without a check.
#[verifier::external_body]
fn lookup_orientation(exif: &Vec<u8>) -> (res: Result<Option<u16>, ()>)
    requires
        exif_readable(exif@),
    ensures
        match res {
            Ok(value) => exif_short_orientation(exif@) == Some(value),
            Err(_) => exif_short_orientation(exif@) is None,
        },
{
    let exif = gufo_exif::Exif::for_vec(exif.clone()).map_err(|_| ())?;
    exif.document(|document| document.lookup_short(gufo_common::field::Orientation.into()))
        .map_err(|_| ())
}

/// Calls `gufo_exif::Exif::for_vec` and `Exif::update_entry_diff` for the
/// orientation tag with one short number. Exif data with offsets of 64 bits
/// and machines with shorter addresses are left out, as for the lookup.
#[verifier::external_body]
fn orientation_diff(exif: &Vec<u8>, value: u16) -> (res: Result<Vec<(usize, u8)>, ()>)
    requires
        exif_readable(exif@),
    ensures
        match res {
            Ok(changes) => exif_orientation_diff(exif@, value) == Some(changes@),
            Err(_) => exif_orientation_diff(exif@, value) is None,
        },
{
    let mut exif = gufo_exif::Exif::for_vec(exif.clone()).map_err(|_| ())?;
    exif.update_entry_diff(
        gufo_common::field::Orientation.into(),
        gufo_exif::Typed::Short(vec![value]),
    ).map_err(|_| ())
}

/// Calls `zune_jpeg::JpegDecoder::decode` and `JpegDecoder::info`, with the
/// color space of the output set to that of the storage. The decoder picks
/// its routines by what the processor offers, so nothing is said of the
/// pixels that come back.
#[verifier::external_body]
fn decode_ycbcr(data: &Vec<u8>) -> (res: Result<(Vec<u8>, u16, u16), ()>) {
    let options = zune_jpeg::zune_core::options::DecoderOptions::new_fast()
        .jpeg_set_out_colorspace(zune_jpeg::zune_core::colorspace::ColorSpace::YCbCr)
        .set_max_height(u32::MAX as usize)
        .set_max_width(u32::MAX as usize);
    let mut decoder = zune_jpeg::JpegDecoder::new_with_options(
        std::io::Cursor::new(data.as_slice()),
        options,
    );
    let pixels = decoder.decode().map_err(|_| ())?;
    let info = decoder.info().ok_or(())?;
    Ok((pixels, info.width, info.height))
}

/// Calls `gufo_jpeg::Jpeg::encoder`, `jpeg_encoder::Encoder::encode` and
/// `gufo_jpeg::Jpeg::replace_image_data`: encodes the pixels with the
/// quantization tables of the original, and puts the result in the place of
/// the image data of the original. An original with a segment that ends
/// before its data start, or behind the file, is left out: its metadata
/// cannot be copied whole. So is a progressive original with fewer than 2 or
/// more than 64 scans: the encoder takes no such number of scans.
#[verifier::external_body]
fn encode_ycbcr(original: &Vec<u8>, pixels: &Vec<u8>, width: u16, height: u16) -> (res: Result<
    Vec<u8>,
    (),
>)
    requires
        jpeg_segments(original@) matches Some(list) && segments_fit(list, original@.len())
            && scans_fit(list),
    ensures
        match res {
            Ok(data) => jpeg_with_pixels(original@, pixels@, width, height) == Some(data@),
            Err(_) => jpeg_with_pixels(original@, pixels@, width, height) is None,
        },
{
    let mut jpeg = gufo_jpeg::Jpeg::new(original.clone()).map_err(|_| ())?;
    let mut encoded = Vec::new();
    let encoder = jpeg.encoder(&mut encoded).map_err(|_| ())?;
    encoder.encode(pixels, width, height, jpeg_encoder::ColorType::Ycbcr).map_err(|_| ())?;
    let new_jpeg = gufo_jpeg::Jpeg::new(encoded).map_err(|_| ())?;
    jpeg.replace_image_data(&new_jpeg).map_err(|_| ())?;
    Ok(jpeg.into_inner())
}

/// Whether every segment lies inside of a file of `len` bytes, and none
/// ends before its data start.
pub open spec fn segments_fit(segments: Seq<(Option<u8>, usize, usize)>, len: nat) -> bool {
    forall|i: int| 0 <= i < segments.len() ==> (#[trigger] segments[i]).1 <= segments[i].2 <= len
}

/// The markers of the frames that the encoder can follow: sequential ones
/// with `0xc0` and `0xc1`, and the progressive one with `0xc2`.
pub open spec fn frame_marker(segment: (Option<u8>, usize, usize)) -> bool {
    segment.0 == Some(0xc0u8) || segment.0 == Some(0xc1u8) || segment.0 == Some(0xc2u8)
}

/// Whether the first frame among the segments from `from` on is a
/// progressive one.
pub open spec fn progressive_from(segments: Seq<(Option<u8>, usize, usize)>, from: int) -> bool
    decreases segments.len() - from,
{
    if from < 0 || from >= segments.len() {
        false
    } else if frame_marker(segments[from]) {
        segments[from].0 == Some(0xc2u8)
    } else {
        progressive_from(segments, from + 1)
    }
}

/// Number of scans among the first `count` segments: the segments with the
/// marker `0xda`.
pub open spec fn scans(segments: Seq<(Option<u8>, usize, usize)>, count: nat) -> nat
    decreases count,
{
    if count == 0 {
        0
    } else {
        scans(segments, (count - 1) as nat) + (if segments[count - 1].0 == Some(0xdau8) {
            1nat
        } else {
            0nat
        })
    }
}

/// Whether the image can be encoded as it was: it is not progressive, or it
/// has from 2 to 64 scans.
pub open spec fn scans_fit(segments: Seq<(Option<u8>, usize, usize)>) -> bool {
    !progressive_from(segments, 0) || 2 <= scans(segments, segments.len()) <= 64
}

/// The mark that stands before Exif data in a segment: `Exif` and two zero
/// bytes.
pub open spec fn exif_mark() -> Seq<u8> {
    seq![0x45u8, 0x78u8, 0x69u8, 0x66u8, 0u8, 0u8]
}

/// Whether the segment holds Exif data: its marker says so, and its data
/// start with the mark.
pub open spec fn holds_exif(data: Seq<u8>, segment: (Option<u8>, usize, usize)) -> bool {
    &&& segment.0 == Some(MARKER_APP1)
    &&& segment.1 + EXIF_IDENTIFIER_LEN <= segment.2
    &&& data.subrange(segment.1 as int, segment.1 + EXIF_IDENTIFIER_LEN) == exif_mark()
}

/// The first of the segments from `from` on that holds Exif data: the place
/// of its data and the Exif data, which follow the mark.
pub open spec fn first_exif(
    data: Seq<u8>,
    segments: Seq<(Option<u8>, usize, usize)>,
    from: int,
) -> Option<(int, Seq<u8>)>
    decreases segments.len() - from,
{
    if from < 0 || from >= segments.len() {
        None
    } else if holds_exif(data, segments[from]) {
        Some(
            (
                segments[from].1 as int,
                data.subrange(segments[from].1 + EXIF_IDENTIFIER_LEN, segments[from].2 as int),
            ),
        )
    } else {
        first_exif(data, segments, from + 1)
    }
}

/// The segments of a JPEG, where all of them lie inside of the file and none
/// ends before its data start: nothing for every other file.
pub open spec fn sound_segments(data: Seq<u8>) -> Option<Seq<(Option<u8>, usize, usize)>> {
    match jpeg_segments(data) {
        Some(segments) => if segments_fit(segments, data.len()) {
            Some(segments)
        } else {
            None
        },
        None => None,
    }
}

/// What a JPEG holds of Exif data: nothing where the bytes are no JPEG or a
/// segment does not lie inside of the file, and else the place of the data of
/// the first Exif segment with the Exif data themselves, if there is such a
/// segment.
pub open spec fn jpeg_exif_segment(data: Seq<u8>) -> Option<Option<(int, Seq<u8>)>> {
    match sound_segments(data) {
        Some(segments) => Some(first_exif(data, segments, 0)),
        None => None,
    }
}

/// Whether the bytes start as Exif data with offsets of 64 bits do.
pub open spec fn big_tiff(exif: Seq<u8>) -> bool {
    exif.len() >= 4 && ((exif[0] == 0x49 && exif[1] == 0x49 && exif[2] == 0x2b && exif[3] == 0)
        || (exif[0] == 0x4d && exif[1] == 0x4d && exif[2] == 0 && exif[3] == 0x2b))
}

/// Whether Exif data are handed to the parser at all: data with offsets of 32
/// bits, on a machine whose addresses have 64 bits, where no offset and
/// count of such data add up to more than an address holds.
pub open spec fn exif_readable(exif: Seq<u8>) -> bool {
    !big_tiff(exif) && usize::MAX >= 0xffff_ffff_ffff_ffff
}

/// The orientation that Exif data record: nothing where the data are not read
/// or the orientation is no single short number, and else the number, if
/// there is one.
pub open spec fn exif_orientation_value(exif: Seq<u8>) -> Option<Option<u16>> {
    if exif_readable(exif) {
        exif_short_orientation(exif)
    } else {
        None
    }
}

/// The bytes of Exif data that change when the orientation is set to `value`,
/// each with its place in the Exif data and its new value: nothing where the
/// data are not read or the orientation cannot be set.
pub open spec fn exif_orientation_changes(exif: Seq<u8>, value: u16) -> Option<Seq<(usize, u8)>> {
    if exif_readable(exif) {
        exif_orientation_diff(exif, value)
    } else {
        None
    }
}

/// Tells whether Exif data are handed to the parser.
pub fn is_exif_readable(exif: &Vec<u8>) -> (readable: bool)
    ensures
        readable == exif_readable(exif@),
{
    let big = exif.len() >= 4 && ((exif[0] == 0x49 && exif[1] == 0x49 && exif[2] == 0x2b
        && exif[3] == 0) || (exif[0] == 0x4d && exif[1] == 0x4d && exif[2] == 0 && exif[3]
        == 0x2b));
    !big && usize::MAX as u128 >= 0xffff_ffff_ffff_ffff
}

/// Reads the orientation that Exif data record.
pub(crate) fn exif_orientation(exif: &Vec<u8>) -> (res: Result<Option<u16>, ()>)
    ensures
        match res {
            Ok(value) => exif_orientation_value(exif@) == Some(value),
            Err(_) => exif_orientation_value(exif@) is None,
        },
{
    if !is_exif_readable(exif) {
        return Err(());
    }
    lookup_orientation(exif)
}

/// Tells the bytes of Exif data that change when the orientation is set.
pub(crate) fn exif_set_orientation(exif: &Vec<u8>, value: u16) -> (res: Result<
    Vec<(usize, u8)>,
    (),
>)
    ensures
        match res {
            Ok(changes) => exif_orientation_changes(exif@, value) == Some(changes@),
            Err(_) => exif_orientation_changes(exif@, value) is None,
        },
{
    if !is_exif_readable(exif) {
        return Err(());
    }
    orientation_diff(exif, value)
}

/// Lists the segments of a JPEG, and refuses a file with a segment that does
/// not lie inside of it.
fn checked_segments(data: &Vec<u8>) -> (res: Result<Vec<(Option<u8>, usize, usize)>, ()>)
    ensures
        match res {
            Ok(list) => sound_segments(data@) == Some(list@),
            Err(_) => sound_segments(data@) is None,
        },
{
    let list = match segments(data) {
        Ok(list) => list,
        Err(_) => {
            return Err(());
        },
    };
    let len = data.len();
    let mut i: usize = 0;
    while i < list.len()
        invariant
            i <= list@.len(),
            len == data@.len(),
            jpeg_segments(data@) == Some(list@),
            forall|j: int| 0 <= j < i ==> (#[trigger] list@[j]).1 <= list@[j].2 <= len,
        decreases list@.len() - i,
    {
        let (_, start, end) = list[i];
        if start > end || end > len {
            assert(!segments_fit(list@, data@.len())) by {
                assert(!(list@[i as int].1 <= list@[i as int].2 <= len));
            }
            return Err(());
        }
        i += 1;
    }
    Ok(list)
}

/// The segments of a JPEG that can be encoded again: all of them lie inside
/// of the file, and the scans are as many as the encoder takes.
pub open spec fn encodable_segments(data: Seq<u8>) -> Option<Seq<(Option<u8>, usize, usize)>> {
    match sound_segments(data) {
        Some(segments) => if scans_fit(segments) {
            Some(segments)
        } else {
            None
        },
        None => None,
    }
}

fn marker_is(segment: (Option<u8>, usize, usize), marker: u8) -> (same: bool)
    ensures
        same == (segment.0 == Some(marker)),
{
    match segment.0 {
        Some(m) => m == marker,
        None => false,
    }
}

/// Tells whether the first frame among the segments is a progressive one.
fn is_progressive(list: &Vec<(Option<u8>, usize, usize)>) -> (progressive: bool)
    ensures
        progressive == progressive_from(list@, 0),
{
    let mut i: usize = 0;
    while i < list.len()
        invariant
            i <= list@.len(),
            progressive_from(list@, 0) == progressive_from(list@, i as int),
        decreases list@.len() - i,
    {
        let segment = list[i];
        if marker_is(segment, 0xc2) {
            return true;
        }
        if marker_is(segment, 0xc0) || marker_is(segment, 0xc1) {
            return false;
        }
        i += 1;
    }
    false
}

/// Counts the scans among the segments, up to 65 of them.
fn has_fitting_scans(list: &Vec<(Option<u8>, usize, usize)>) -> (fit: bool)
    ensures
        fit == (2 <= scans(list@, list@.len()) <= 64),
{
    let mut found: usize = 0;
    let mut i: usize = 0;
    while i < list.len()
        invariant
            i <= list@.len(),
            found <= i,
            found == scans(list@, i as nat),
        decreases list@.len() - i,
    {
        if marker_is(list[i], 0xda) {
            found += 1;
        }
        i += 1;
    }
    2 <= found && found <= 64
}

/// Lists the segments of a JPEG that can be encoded again.
fn encodable(data: &Vec<u8>) -> (res: Result<Vec<(Option<u8>, usize, usize)>, ()>)
    ensures
        match res {
            Ok(list) => encodable_segments(data@) == Some(list@),
            Err(_) => encodable_segments(data@) is None,
        },
{
    let list = match checked_segments(data) {
        Ok(list) => list,
        Err(_) => {
            return Err(());
        },
    };
    if is_progressive(&list) && !has_fitting_scans(&list) {
        return Err(());
    }
    Ok(list)
}

/// Tells whether the data of the segment start with the Exif mark.
fn has_exif_mark(data: &Vec<u8>, segment: (Option<u8>, usize, usize)) -> (found: bool)
    requires
        segment.1 <= segment.2 <= data@.len(),
    ensures
        found == holds_exif(data@, segment),
{
    let (marker, start, end) = segment;
    let app1 = match marker {
        Some(m) => m == MARKER_APP1,
        None => false,
    };
    if !app1 || end - start < EXIF_IDENTIFIER_LEN {
        return false;
    }
    let found = data[start] == 0x45 && data[start + 1] == 0x78 && data[start + 2] == 0x69
        && data[start + 3] == 0x66 && data[start + 4] == 0 && data[start + 5] == 0;
    proof {
        let mark = data@.subrange(start as int, start + EXIF_IDENTIFIER_LEN);
        assert(mark.len() == 6);
        assert(mark[0] == data@[start as int]);
        assert(mark[1] == data@[start + 1]);
        assert(mark[2] == data@[start + 2]);
        assert(mark[3] == data@[start + 3]);
        assert(mark[4] == data@[start + 4]);
        assert(mark[5] == data@[start + 5]);
        if found {
            assert(mark =~= exif_mark());
        }
    }
    found
}

/// Finds the first segment of a JPEG that holds Exif data.
fn first_exif_segment(data: &Vec<u8>) -> (res: Result<Option<(usize, Vec<u8>)>, ()>)
    ensures
        match res {
            Ok(Some((pos, exif))) => jpeg_exif_segment(data@) == Some(Some((pos as int, exif@)))
                && pos + EXIF_IDENTIFIER_LEN + exif@.len() <= data@.len() && data@.subrange(
                pos + EXIF_IDENTIFIER_LEN,
                pos + EXIF_IDENTIFIER_LEN + exif@.len(),
            ) == exif@,
            Ok(None) => jpeg_exif_segment(data@) == Some(None::<(int, Seq<u8>)>),
            Err(_) => jpeg_exif_segment(data@) is None,
        },
{
    let list = match checked_segments(data) {
        Ok(list) => list,
        Err(_) => {
            return Err(());
        },
    };
    let mut i: usize = 0;
    while i < list.len()
        invariant
            i <= list@.len(),
            sound_segments(data@) == Some(list@),
            first_exif(data@, list@, 0) == first_exif(data@, list@, i as int),
        decreases list@.len() - i,
    {
        let segment = list[i];
        if has_exif_mark(data, segment) {
            let exif = crate::png::copy_range(data, segment.1 + EXIF_IDENTIFIER_LEN, segment.2);
            return Ok(Some((segment.1, exif)));
        }
        i += 1;
    }
    Ok(None)
}

/// The orientation that an image has to record once it is rotated: the
/// mirroring stays, and the rotation is taken off.
pub open spec fn rotated(current: Orientation, rotation: Rotation) -> Orientation {
    Orientation::of(
        current.mirrored(),
        Rotation::of_quarters(current.rotation().quarters() - rotation.quarters()),
    )
}

/// Tells the orientation that an image has to record once it is rotated.
pub fn rotated_orientation(current: Orientation, rotation: Rotation) -> (new: Orientation)
    ensures
        new == rotated(current, rotation),
{
    Orientation::new(current.mirror(), current.rotate().minus(rotation))
}

/// The changes moved to the place that their data have in the file.
pub open spec fn shifted(changes: Seq<(usize, u8)>, base: int) -> Seq<ByteChange> {
    Seq::new(
        changes.len(),
        |i: int| ByteChange { offset: (base + changes[i].0) as u64, new_value: changes[i].1 },
    )
}

/// Whether every change has a place in a file once it is moved by `base`.
pub open spec fn shiftable(changes: Seq<(usize, u8)>, base: int) -> bool {
    forall|i: int| 0 <= i < changes.len() ==> base + (#[trigger] changes[i]).0 <= u64::MAX
}

/// Moves changes of Exif data to the place that the data have in the file.
pub fn shift_changes(changes: &Vec<(usize, u8)>, base: usize) -> (res: Option<ByteChanges>)
    ensures
        match res {
            Some(list) => shiftable(changes@, base as int) && list.changes@ == shifted(
                changes@,
                base as int,
            ),
            None => !shiftable(changes@, base as int),
        },
{
    let mut list: Vec<ByteChange> = Vec::new();
    let mut i: usize = 0;
    while i < changes.len()
        invariant
            i <= changes@.len(),
            shiftable(changes@.subrange(0, i as int), base as int),
            list@ == shifted(changes@.subrange(0, i as int), base as int),
        decreases changes@.len() - i,
    {
        let (offset, new_value) = changes[i];
        if offset as u64 > u64::MAX - base as u64 {
            assert(!shiftable(changes@, base as int)) by {
                assert(base + changes@[i as int].0 > u64::MAX);
            }
            return None;
        }
        list.push(ByteChange { offset: base as u64 + offset as u64, new_value });
        proof {
            let head = changes@.subrange(0, i + 1);
            assert forall|j: int| 0 <= j < head.len() implies base + (#[trigger] head[j]).0
                <= u64::MAX by {
                if j < i {
                    assert(changes@.subrange(0, i as int)[j] == head[j]);
                }
            }
            assert(list@ =~= shifted(head, base as int));
        }
        i += 1;
    }
    assert(changes@.subrange(0, i as int) =~= changes@);
    Some(ByteChanges { changes: list })
}

/// What a rotation without touching the pixels comes to.
pub enum SparseRotation {
    /// The image records no orientation that could be changed
    Impossible,
    /// The bytes that change
    Changes(Seq<ByteChange>),
    /// The image is broken
    Failed(ProcessErrorKind),
}

/// The rotation of a JPEG by changing its Exif data.
///
/// The image has to be a JPEG. Where its first Exif segment records an
/// orientation, the rotation is taken off that orientation, and the bytes
/// that record the new one are the result.
pub open spec fn sparse_rotation(data: Seq<u8>, rotation: Rotation) -> SparseRotation {
    match jpeg_exif_segment(data) {
        None => SparseRotation::Failed(ProcessErrorKind::Expected),
        Some(None) => SparseRotation::Impossible,
        Some(Some((pos, exif))) => match exif_orientation_value(exif) {
            None => SparseRotation::Failed(ProcessErrorKind::Expected),
            Some(None) => SparseRotation::Impossible,
            Some(Some(value)) => if value < 1 || value > 8 {
                SparseRotation::Failed(ProcessErrorKind::Expected)
            } else {
                let current = choose|o: Orientation| o.exif_value() == value;
                let new = rotated(current, rotation);
                match exif_orientation_changes(exif, new.exif_value() as u16) {
                    None => SparseRotation::Failed(ProcessErrorKind::Expected),
                    Some(changes) => if shiftable(changes, pos + EXIF_IDENTIFIER_LEN) {
                        SparseRotation::Changes(shifted(changes, pos + EXIF_IDENTIFIER_LEN))
                    } else {
                        SparseRotation::Failed(ProcessErrorKind::ConversionTooLarger)
                    },
                }
            },
        },
    }
}

/// Rotates a JPEG by changing the orientation that its Exif data record.
pub fn rotate_sparse(rotation: Rotation, data: &Vec<u8>) -> (res: Result<
    Option<ByteChanges>,
    ProcessError,
>)
    ensures
        match res {
            Ok(Some(list)) => sparse_rotation(data@, rotation) == SparseRotation::Changes(
                list.changes@,
            ),
            Ok(None) => sparse_rotation(data@, rotation) == SparseRotation::Impossible,
            Err(e) => sparse_rotation(data@, rotation) == SparseRotation::Failed(e.kind()),
        },
{
    let (pos, exif) = match first_exif_segment(data) {
        Ok(Some(segment)) => segment,
        Ok(None) => {
            return Ok(None);
        },
        Err(_) => {
            return Err(ProcessError::expected("The image is no JPEG"));
        },
    };
    let value = match exif_orientation(&exif) {
        Ok(Some(value)) => value,
        Ok(None) => {
            return Ok(None);
        },
        Err(_) => {
            return Err(ProcessError::expected("The Exif data cannot be read"));
        },
    };
    let current = match Orientation::from_exif(value) {
        Some(current) => current,
        None => {
            return Err(ProcessError::expected("The orientation is none of the eight"));
        },
    };
    proof {
        lemma_orientation_of_value(current);
    }
    let new = rotated_orientation(current, rotation);
    let changes = match exif_set_orientation(&exif, new.to_exif() as u16) {
        Ok(changes) => changes,
        Err(_) => {
            return Err(ProcessError::expected("The orientation cannot be changed"));
        },
    };
    let total = data.len();
    match shift_changes(&changes, pos + EXIF_IDENTIFIER_LEN) {
        Some(list) => Ok(Some(list)),
        None => Err(ProcessError::ConversionTooLargerError),
    }
}

/// Each of the eight values stands for one orientation.
pub proof fn lemma_orientation_of_value(orientation: Orientation)
    ensures
        (choose|o: Orientation| o.exif_value() == orientation.exif_value()) == orientation,
{
    let found = choose|o: Orientation| o.exif_value() == orientation.exif_value();
    assert(orientation.exif_value() == orientation.exif_value());
    assert(found.exif_value() == orientation.exif_value());
}

/// The rotation that a list of operations is, if it is nothing else.
pub open spec fn single_rotation(operations: Seq<Operation>) -> Option<Rotation> {
    if operations.len() == 1 {
        match operations[0] {
            Operation::Rotate(rotation) => Some(rotation),
            _ => None,
        }
    } else {
        None
    }
}

fn only_rotation(operations: &Operations) -> (rotation: Option<Rotation>)
    ensures
        rotation == single_rotation(operations@),
{
    let list = operations.operations();
    if list.len() == 1 {
        match list[0] {
            Operation::Rotate(rotation) => Some(rotation),
            _ => None,
        }
    } else {
        None
    }
}

/// The frame of decoded pixels of a JPEG.
pub open spec fn decoded_frame(width: u16, height: u16) -> EditingFrame {
    EditingFrame {
        width: width as u32,
        height: height as u32,
        stride: (width * 3) as u32,
        memory_format: ExtendedMemoryFormat::Y8Cb8Cr8,
    }
}

/// What an edit that writes the whole image comes to.
pub enum CompleteEdit {
    /// The bytes of the new image, and whether nothing was lost
    Image(Seq<u8>, bool),
    Failed(ProcessErrorKind),
}

/// What a decoder has made of an image, as values: the pixels with width and
/// height, or nothing where it has failed.
pub open spec fn decoded_view(decoded: Option<(Vec<u8>, u16, u16)>) -> Option<(Seq<u8>, u16, u16)> {
    match decoded {
        Some((pixels, width, height)) => Some((pixels@, width, height)),
        None => None,
    }
}

/// The edit of a JPEG on the pixels that a decoder has made of it: the
/// operations are applied to the pixels, and the result is encoded in the
/// place of the image data. The segments of the image have to lie inside of
/// it, a progressive image has to have from 2 to 64 scans, the decoder must
/// not have failed, and the result has to be no larger than a JPEG can be.
pub open spec fn reencoded(
    data: Seq<u8>,
    decoded: Option<(Seq<u8>, u16, u16)>,
    operations: Seq<Operation>,
) -> CompleteEdit {
    if encodable_segments(data) is None {
        CompleteEdit::Failed(ProcessErrorKind::Expected)
    } else {
        match decoded {
            None => CompleteEdit::Failed(ProcessErrorKind::Expected),
            Some((pixels, width, height)) => match applied(
                pixels,
                decoded_frame(width, height),
                operations,
                operations.len(),
            ) {
                Err(_) => CompleteEdit::Failed(ProcessErrorKind::Expected),
                Ok(edited) => if edited.frame.width > u16::MAX || edited.frame.height > u16::MAX {
                    CompleteEdit::Failed(ProcessErrorKind::ConversionTooLarger)
                } else {
                    match jpeg_with_pixels(
                        data,
                        edited.buf,
                        edited.frame.width as u16,
                        edited.frame.height as u16,
                    ) {
                        Some(image) => CompleteEdit::Image(image, false),
                        None => CompleteEdit::Failed(ProcessErrorKind::Expected),
                    }
                },
            },
        }
    }
}

/// The edit of a JPEG that writes the whole image, given what a decoder has
/// made of the image.
///
/// A single rotation of an image that records its orientation changes the
/// bytes of that record and loses nothing. Every other edit is made on the
/// decoded pixels.
pub open spec fn complete_edit(
    data: Seq<u8>,
    decoded: Option<(Seq<u8>, u16, u16)>,
    operations: Seq<Operation>,
) -> CompleteEdit {
    if jpeg_exif_segment(data) is None {
        CompleteEdit::Failed(ProcessErrorKind::Expected)
    } else {
        match single_rotation(operations) {
            Some(rotation) => match sparse_rotation(data, rotation) {
                SparseRotation::Changes(changes) => if changes_within(
                    changes,
                    data.len(),
                    changes.len(),
                ) {
                    CompleteEdit::Image(changed(data, changes, changes.len()), true)
                } else {
                    CompleteEdit::Failed(ProcessErrorKind::Expected)
                },
                SparseRotation::Impossible => reencoded(data, decoded, operations),
                SparseRotation::Failed(kind) => CompleteEdit::Failed(kind),
            },
            None => reencoded(data, decoded, operations),
        }
    }
}

/// Whether the answer of an editor is what the edit comes to.
pub open spec fn answers_complete(
    res: Result<CompleteEditorOutput, ProcessError>,
    edit: CompleteEdit,
) -> bool {
    match res {
        Ok(output) => edit == CompleteEdit::Image(output.data@, output.info.lossless),
        Err(e) => edit == CompleteEdit::Failed(e.kind()),
    }
}

/// Applies the operations to the pixels that a decoder has made of a JPEG,
/// and encodes the result in the place of the image data.
pub fn reencode(data: &Vec<u8>, decoded: Option<(Vec<u8>, u16, u16)>, operations: &Operations) -> (res:
    Result<CompleteEditorOutput, ProcessError>)
    ensures
        answers_complete(res, reencoded(data@, decoded_view(decoded), operations@)),
{
    if encodable(data).is_err() {
        return Err(ProcessError::expected("The image cannot be encoded again"));
    }
    let (pixels, width, height) = match decoded {
        Some(decoded) => decoded,
        None => {
            return Err(ProcessError::expected("The image cannot be decoded"));
        },
    };
    let mut frame = EditingFrame {
        width: width as u32,
        height: height as u32,
        stride: width as u32 * 3,
        memory_format: ExtendedMemoryFormat::Y8Cb8Cr8,
    };
    let pixels = match operations.apply(pixels, &mut frame) {
        Ok(pixels) => pixels,
        Err(_) => {
            return Err(ProcessError::expected("The operations cannot be applied"));
        },
    };
    if frame.width > u16::MAX as u32 || frame.height > u16::MAX as u32 {
        return Err(ProcessError::ConversionTooLargerError);
    }
    match encode_ycbcr(data, &pixels, frame.width as u16, frame.height as u16) {
        Ok(image) => Ok(CompleteEditorOutput::new(BinaryData::from_data(image))),
        Err(_) => Err(ProcessError::expected("The image cannot be encoded")),
    }
}

/// Decodes the pixels of a JPEG; nothing where the decoder fails.
fn decode(data: &Vec<u8>) -> (decoded: Option<(Vec<u8>, u16, u16)>) {
    match decode_ycbcr(data) {
        Ok(decoded) => Some(decoded),
        Err(_) => None,
    }
}

/// The edit of a JPEG that writes the whole image, once the pixels are at
/// hand where they are needed.
pub fn apply_complete_decoded(
    data: Vec<u8>,
    decoded: Option<(Vec<u8>, u16, u16)>,
    operations: &Operations,
) -> (res: Result<CompleteEditorOutput, ProcessError>)
    ensures
        answers_complete(res, complete_edit(data@, decoded_view(decoded), operations@)),
{
    if first_exif_segment(&data).is_err() {
        return Err(ProcessError::expected("The image is no JPEG"));
    }
    if let Some(rotation) = only_rotation(operations) {
        match rotate_sparse(rotation, &data) {
            Ok(Some(byte_changes)) => {
                if !byte_changes.fits(data.len()) {
                    return Err(ProcessError::expected("The Exif data lie outside of the image"));
                }
                let mut data = data;
                byte_changes.apply(&mut data);
                return Ok(CompleteEditorOutput::new_lossless(data));
            },
            Ok(None) => {},
            Err(e) => {
                return Err(e);
            },
        }
    }
    reencode(&data, decoded, operations)
}

/// Whether the pixels of a JPEG are needed for an edit that writes the whole
/// image: they are not where the image is no JPEG or cannot be encoded
/// again, or where a single rotation is made on the record of the orientation
/// or fails there.
pub open spec fn needs_pixels(data: Seq<u8>, operations: Seq<Operation>) -> bool {
    encodable_segments(data) is Some && match single_rotation(operations) {
        Some(rotation) => sparse_rotation(data, rotation) == SparseRotation::Impossible,
        None => true,
    }
}

/// Tells whether the pixels of a JPEG are needed for an edit.
fn wants_pixels(data: &Vec<u8>, operations: &Operations) -> (needed: bool)
    ensures
        needed == needs_pixels(data@, operations@),
{
    if encodable(data).is_err() {
        return false;
    }
    match only_rotation(operations) {
        Some(rotation) => match rotate_sparse(rotation, data) {
            Ok(None) => true,
            _ => false,
        },
        None => true,
    }
}

/// Applies operations to a JPEG and hands back the whole image.
///
/// The pixels are decoded only where the edit needs them. The result is the
/// edit on what the decoder has made of the image; where the pixels are not
/// needed, it does not depend on the decoder at all.
pub fn apply_complete(data: Vec<u8>, operations: &Operations) -> (res: Result<
    CompleteEditorOutput,
    ProcessError,
>)
    ensures
        exists|decoded: Option<(Seq<u8>, u16, u16)>|
            answers_complete(res, #[trigger] complete_edit(data@, decoded, operations@)),
        !needs_pixels(data@, operations@) ==> answers_complete(
            res,
            complete_edit(data@, None, operations@),
        ),
{
    let decoded = if wants_pixels(&data, operations) {
        decode(&data)
    } else {
        None
    };
    let ghost seen = decoded_view(decoded);
    let res = apply_complete_decoded(data, decoded, operations);
    assert(answers_complete(res, complete_edit(data@, seen, operations@)));
    res
}

/// What an edit that may be sparse comes to.
pub enum SparseResult {
    Changes(Seq<ByteChange>),
    Image(Seq<u8>, bool),
    Failed(ProcessErrorKind),
}

/// The edit of a JPEG that changes as little as it can, given what a decoder
/// has made of the image: a single rotation changes the record of the
/// orientation where there is one, and every other edit writes the whole
/// image.
pub open spec fn sparse_edit(
    data: Seq<u8>,
    decoded: Option<(Seq<u8>, u16, u16)>,
    operations: Seq<Operation>,
) -> SparseResult {
    if jpeg_exif_segment(data) is None {
        SparseResult::Failed(ProcessErrorKind::Expected)
    } else {
        match single_rotation(operations) {
            Some(rotation) => match sparse_rotation(data, rotation) {
                SparseRotation::Changes(changes) => SparseResult::Changes(changes),
                SparseRotation::Impossible => match reencoded(data, decoded, operations) {
                    CompleteEdit::Image(image, lossless) => SparseResult::Image(image, lossless),
                    CompleteEdit::Failed(kind) => SparseResult::Failed(kind),
                },
                SparseRotation::Failed(kind) => SparseResult::Failed(kind),
            },
            None => match reencoded(data, decoded, operations) {
                CompleteEdit::Image(image, lossless) => SparseResult::Image(image, lossless),
                CompleteEdit::Failed(kind) => SparseResult::Failed(kind),
            },
        }
    }
}

/// Whether the answer of an editor is what the edit comes to.
pub open spec fn answers_sparse(
    res: Result<SparseEditorOutput, ProcessError>,
    edit: SparseResult,
) -> bool {
    match res {
        Ok(output) => match edit {
            SparseResult::Changes(changes) => output.changes() matches Some(list) && list.changes@
                == changes && output.output_info().lossless,
            SparseResult::Image(image, lossless) => output.image() matches Some(binary) && binary@
                == image && output.output_info().lossless == lossless,
            SparseResult::Failed(_) => false,
        },
        Err(e) => edit == SparseResult::Failed(e.kind()),
    }
}

/// The edit of a JPEG with as few changed bytes as possible, once the pixels
/// are at hand where they are needed.
pub fn apply_sparse_decoded(
    data: Vec<u8>,
    decoded: Option<(Vec<u8>, u16, u16)>,
    operations: &Operations,
) -> (res: Result<SparseEditorOutput, ProcessError>)
    ensures
        answers_sparse(res, sparse_edit(data@, decoded_view(decoded), operations@)),
{
    if first_exif_segment(&data).is_err() {
        return Err(ProcessError::expected("The image is no JPEG"));
    }
    if let Some(rotation) = only_rotation(operations) {
        match rotate_sparse(rotation, &data) {
            Ok(Some(byte_changes)) => {
                return Ok(SparseEditorOutput::byte_changes(byte_changes));
            },
            Ok(None) => {},
            Err(e) => {
                return Err(e);
            },
        }
    }
    match reencode(&data, decoded, operations) {
        Ok(output) => Ok(SparseEditorOutput::from_complete(output)),
        Err(e) => Err(e),
    }
}

/// Applies operations to a JPEG with as few changed bytes as possible.
///
/// The pixels are decoded only where the edit needs them. The result is the
/// edit on what the decoder has made of the image; where the pixels are not
/// needed, it does not depend on the decoder at all.
pub fn apply_sparse(data: Vec<u8>, operations: &Operations) -> (res: Result<
    SparseEditorOutput,
    ProcessError,
>)
    ensures
        exists|decoded: Option<(Seq<u8>, u16, u16)>|
            answers_sparse(res, #[trigger] sparse_edit(data@, decoded, operations@)),
        !needs_pixels(data@, operations@) ==> answers_sparse(
            res,
            sparse_edit(data@, None, operations@),
        ),
{
    let decoded = if wants_pixels(&data, operations) {
        decode(&data)
    } else {
        None
    };
    let ghost seen = decoded_view(decoded);
    let res = apply_sparse_decoded(data, decoded, operations);
    assert(answers_sparse(res, sparse_edit(data@, seen, operations@)));
    res
}

} // verus!

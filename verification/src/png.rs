//! Editing of PNG images.
//!
//! The pixels are decoded and brought upright, the operations are applied,
//! and the result is encoded in the place of the image data. The metadata of
//! the image stay, but for the record of the orientation, which is set to
//! upright.

use crate::editing::EditingFrame;
use crate::editor_output::{changed, changes_within, ByteChange, CompleteEditorOutput};
use crate::error::{ProcessError, ProcessErrorKind};
use crate::frame::BinaryData;
use crate::jpeg::{
    exif_orientation, exif_orientation_changes, exif_orientation_value, exif_set_orientation,
    shift_changes, shiftable, shifted,
};
use crate::memory_format::{ExtendedMemoryFormat, MemoryFormat, MemoryFormatInfo};
use crate::operations::{applied, orientation_operations, Edited, Operation, Operations};
use crate::orientation::Orientation;
use image::ImageDecoder;
use gufo_common::image::ImageMetadata;
use image::ImageEncoder;
use vstd::prelude::*;

verus! {

/// Bytes of a chunk that stand before its data: its length and its type.
pub const CHUNK_HEADER_LEN: usize = 8;

/// Bytes of a chunk that stand behind its data: its checksum.
pub const CHUNK_TRAILER_LEN: usize = 4;

/// The pixels of a PNG with its width, its height, the number of its
/// channels and the bits of one pixel: nothing where the image cannot be
/// decoded.
pub uninterp spec fn png_pixels(data: Seq<u8>) -> Option<(Seq<u8>, u32, u32, u8, u16)>;

/// What the header of a PNG says of its pixels: width, height, the number
/// of the channels and the bits of one pixel; nothing where the bytes are no
/// PNG that the decoder takes.
pub uninterp spec fn png_layout(data: Seq<u8>) -> Option<(u32, u32, u8, u16)>;

/// The PNG that holds the given pixels in rows without padding, in the
/// memory format of the given number and with the strongest compression:
/// nothing where this fails.
pub uninterp spec fn png_of_pixels(pixels: Seq<u8>, width: u32, height: u32, format: u32) -> Option<
    Seq<u8>,
>;

/// The PNG that keeps the metadata of `original` and has the image data of
/// `image`: nothing where one of them is no PNG or has no image data.
pub uninterp spec fn png_with_image_data(original: Seq<u8>, image: Seq<u8>) -> Option<Seq<u8>>;

/// The blocks of Exif data that a PNG holds, in the order in which they are
/// to be asked: nothing where the bytes are no PNG.
pub uninterp spec fn png_exif(data: Seq<u8>) -> Option<Seq<Seq<u8>>>;

/// The blocks as sequences of bytes.
pub open spec fn blocks_view(blocks: Seq<Vec<u8>>) -> Seq<Seq<u8>> {
    Seq::new(blocks.len(), |i: int| blocks[i]@)
}

/// The chunks of a PNG in their order, each with its type and with the place
/// where it starts and ends in the file: nothing where the bytes are no PNG.
pub uninterp spec fn png_chunks(data: Seq<u8>) -> Option<Seq<(u32, usize, usize)>>;

/// The PNG without its chunk of the given index: nothing where the bytes are
/// no PNG, there is no such chunk, or what is left is no PNG.
pub uninterp spec fn png_without_chunk(data: Seq<u8>, index: usize) -> Option<Seq<u8>>;

/// Calls `image::codecs::png::PngDecoder::new` and, of `ImageDecoder`,
/// `dimensions` and `color_type`: what the header of a PNG says of its
/// pixels, without decoding them.
#[verifier::external_body]
fn layout(data: &Vec<u8>) -> (res: Result<(u32, u32, u8, u16), ()>)
    ensures
        match res {
            Ok(found) => png_layout(data@) == Some(found),
            Err(_) => png_layout(data@) is None,
        },
{
    let decoder = image::codecs::png::PngDecoder::new(std::io::Cursor::new(data.as_slice()))
        .map_err(|_| ())?;
    let (width, height) = decoder.dimensions();
    let color = decoder.color_type();
    Ok((width, height, color.channel_count(), color.bits_per_pixel()))
}

/// Calls `image::codecs::png::PngDecoder::new` and, of `ImageDecoder`,
/// `dimensions`, `color_type`, `total_bytes` and `read_image`. Samples of 16
/// bits come in the byte order of the machine, and go to the encoder in that
/// order again: the edits in between move whole pixels and do not read them.
/// An image whose pixels take more bytes than a buffer can have is left out.
#[verifier::external_body]
fn decode(data: &Vec<u8>) -> (res: Result<(Vec<u8>, u32, u32, u8, u16), ()>)
    requires
        png_layout(data@) matches Some(found) && pixels_fit(found),
    ensures
        match res {
            Ok((pixels, width, height, channels, bits)) => png_pixels(data@) == Some(
                (pixels@, width, height, channels, bits),
            ),
            Err(_) => png_pixels(data@) is None,
        },
{
    let decoder = image::codecs::png::PngDecoder::new(std::io::Cursor::new(data.as_slice()))
        .map_err(|_| ())?;
    let (width, height) = decoder.dimensions();
    let color = decoder.color_type();
    let mut pixels = vec![0; decoder.total_bytes() as usize];
    decoder.read_image(&mut pixels).map_err(|_| ())?;
    Ok((pixels, width, height, color.channel_count(), color.bits_per_pixel()))
}

/// Calls `image::codecs::png::PngEncoder::new_with_quality` and
/// `ImageEncoder::write_image`, which does not return unless the pixels fill
/// the rows exactly.
#[verifier::external_body]
fn encode(pixels: &Vec<u8>, width: u32, height: u32, format: MemoryFormat) -> (res: Result<
    Vec<u8>,
    (),
>)
    requires
        png_format(format),
        pixels@.len() == width * height * format.bytes_per_pixel().count(),
    ensures
        match res {
            Ok(data) => png_of_pixels(pixels@, width, height, format.number() as u32) == Some(
                data@,
            ),
            Err(_) => png_of_pixels(pixels@, width, height, format.number() as u32) is None,
        },
{
    let color = match format {
        MemoryFormat::G8 => image::ExtendedColorType::L8,
        MemoryFormat::G8a8 => image::ExtendedColorType::La8,
        MemoryFormat::R8g8b8 => image::ExtendedColorType::Rgb8,
        MemoryFormat::R8g8b8a8 => image::ExtendedColorType::Rgba8,
        MemoryFormat::G16 => image::ExtendedColorType::L16,
        MemoryFormat::G16a16 => image::ExtendedColorType::La16,
        MemoryFormat::R16g16b16 => image::ExtendedColorType::Rgb16,
        _ => image::ExtendedColorType::Rgba16,
    };
    let mut out = std::io::Cursor::new(Vec::new());
    image::codecs::png::PngEncoder::new_with_quality(&mut out, image::codecs::png::CompressionType::Best, image::codecs::png::FilterType::Adaptive)
        .write_image(pixels, width, height, color).map_err(|_| ())?;
    Ok(out.into_inner())
}

/// Calls `gufo_png::Png::new` for both images and `Png::replace_image_data`.
#[verifier::external_body]
fn replace_image_data(original: &Vec<u8>, image: &Vec<u8>) -> (res: Result<Vec<u8>, ()>)
    ensures
        match res {
            Ok(data) => png_with_image_data(original@, image@) == Some(data@),
            Err(_) => png_with_image_data(original@, image@) is None,
        },
{
    let mut png = gufo_png::Png::new(original.clone()).map_err(|_| ())?;
    let new_png = gufo_png::Png::new(image.clone()).map_err(|_| ())?;
    png.replace_image_data(&new_png).map_err(|_| ())?;
    Ok(png.into_inner())
}

/// Calls `gufo_png::Png::new` and `Png::chunks`, and of each chunk
/// `Chunk::chunk_type` and `RawChunk::complete_data`. Each chunk lies inside
/// of the file and has room for its length, its type and its checksum.
#[verifier::external_body]
fn chunks(data: &Vec<u8>) -> (res: Result<Vec<(u32, usize, usize)>, ()>)
    ensures
        match res {
            Ok(list) => png_chunks(data@) == Some(list@) && forall|i: int|
                0 <= i < list@.len() ==> (#[trigger] list@[i]).1 + CHUNK_HEADER_LEN
                    + CHUNK_TRAILER_LEN <= list@[i].2 <= data@.len(),
            Err(_) => png_chunks(data@) is None,
        },
{
    let png = gufo_png::Png::new(data.clone()).map_err(|_| ())?;
    let mut list = Vec::new();
    for chunk in png.chunks() {
        let chunk_type = u32::from_be_bytes(chunk.chunk_type().bytes());
        let place = chunk.unsafe_raw_chunk().complete_data();
        list.push((chunk_type, place.start, place.end));
    }
    Ok(list)
}

/// Calls `gufo_png::Png::new` and, of `gufo_common::image::ImageMetadata`,
/// `exif`: the data of the first Exif chunk, where there is one, and behind
/// it the Exif data that text chunks hold in the older form.
#[verifier::external_body]
fn exif_blocks(data: &Vec<u8>) -> (res: Result<Vec<Vec<u8>>, ()>)
    ensures
        match res {
            Ok(blocks) => png_exif(data@) == Some(blocks_view(blocks@)),
            Err(_) => png_exif(data@) is None,
        },
{
    let png = gufo_png::Png::new(data.clone()).map_err(|_| ())?;
    Ok(png.exif())
}

/// Calls `gufo_png::Png::new`, `Png::chunks` and `Png::remove_chunk` for the
/// chunk of the given index.
#[verifier::external_body]
fn remove_chunk(data: &Vec<u8>, index: usize) -> (res: Result<Vec<u8>, ()>)
    ensures
        match res {
            Ok(rest) => png_without_chunk(data@, index) == Some(rest@),
            Err(_) => png_without_chunk(data@, index) is None,
        },
{
    let mut png = gufo_png::Png::new(data.clone()).map_err(|_| ())?;
    let chunk = png.chunks().into_iter().nth(index).ok_or(())?.unsafe_raw_chunk();
    png.remove_chunk(chunk).map_err(|_| ())?;
    Ok(png.into_inner())
}

/// Whether the pixels that a header announces fit a buffer: they take no
/// more than half of the bytes that the machine can address.
pub open spec fn pixels_fit(layout: (u32, u32, u8, u16)) -> bool {
    layout.0 * layout.1 * (layout.3 / 8) <= usize::MAX / 2
}

/// The pixels of a PNG with the layout of its header, where the pixels fit a
/// buffer: nothing for every other image.
pub open spec fn png_image(data: Seq<u8>) -> Option<(Seq<u8>, u32, u32, u8, u16)> {
    match png_layout(data) {
        Some(layout) => if pixels_fit(layout) {
            png_pixels(data)
        } else {
            None
        },
        None => None,
    }
}

/// Decodes a PNG whose pixels fit a buffer.
fn decode_image(data: &Vec<u8>) -> (res: Result<(Vec<u8>, u32, u32, u8, u16), ()>)
    ensures
        match res {
            Ok((pixels, width, height, channels, bits)) => png_image(data@) == Some(
                (pixels@, width, height, channels, bits),
            ),
            Err(_) => png_image(data@) is None,
        },
{
    let (width, height, _channels, bits) = match layout(data) {
        Ok(found) => found,
        Err(_) => {
            return Err(());
        },
    };
    assert(width as int * height as int <= 0xffff_ffff * 0xffff_ffff) by (nonlinear_arith)
        requires
            0 <= width <= 0xffff_ffff,
            0 <= height <= 0xffff_ffff,
    ;
    let area: u128 = width as u128 * height as u128;
    let size: u128 = (bits / 8) as u128;
    assert(area as int * size as int <= 0xffff_ffff * 0xffff_ffff * 8191) by (nonlinear_arith)
        requires
            0 <= area <= 0xffff_ffff * 0xffff_ffff,
            0 <= size <= 8191,
    ;
    if area * size > (usize::MAX / 2) as u128 {
        return Err(());
    }
    decode(data)
}

/// The type of the chunk that holds Exif data: `eXIf`.
pub const CHUNK_EXIF: u32 = 0x6558_4966;

/// The type of the chunk that an Apple device writes for the orientation:
/// `orNT`.
pub const CHUNK_ORNT: u32 = 0x6f72_4e54;

/// Whether a PNG can store pixels of the format.
pub open spec fn png_format(format: MemoryFormat) -> bool {
    match format {
        MemoryFormat::G8
        | MemoryFormat::G8a8
        | MemoryFormat::R8g8b8
        | MemoryFormat::R8g8b8a8
        | MemoryFormat::G16
        | MemoryFormat::G16a16
        | MemoryFormat::R16g16b16
        | MemoryFormat::R16g16b16a16 => true,
        _ => false,
    }
}

/// The memory format of decoded pixels with the given number of channels and
/// of bits in a pixel.
pub open spec fn decoded_format(channels: u8, bits: u16) -> Option<MemoryFormat> {
    if channels == 1 && bits == 8 {
        Some(MemoryFormat::G8)
    } else if channels == 2 && bits == 16 {
        Some(MemoryFormat::G8a8)
    } else if channels == 3 && bits == 24 {
        Some(MemoryFormat::R8g8b8)
    } else if channels == 4 && bits == 32 {
        Some(MemoryFormat::R8g8b8a8)
    } else if channels == 1 && bits == 16 {
        Some(MemoryFormat::G16)
    } else if channels == 2 && bits == 32 {
        Some(MemoryFormat::G16a16)
    } else if channels == 3 && bits == 48 {
        Some(MemoryFormat::R16g16b16)
    } else if channels == 4 && bits == 64 {
        Some(MemoryFormat::R16g16b16a16)
    } else {
        None
    }
}

/// Tells the memory format of decoded pixels.
pub fn memory_format_of(channels: u8, bits: u16) -> (format: Option<MemoryFormat>)
    ensures
        format == decoded_format(channels, bits),
        format matches Some(f) ==> png_format(f) && f.bytes_per_pixel().count() * 8 == bits,
{
    if channels == 1 && bits == 8 {
        Some(MemoryFormat::G8)
    } else if channels == 2 && bits == 16 {
        Some(MemoryFormat::G8a8)
    } else if channels == 3 && bits == 24 {
        Some(MemoryFormat::R8g8b8)
    } else if channels == 4 && bits == 32 {
        Some(MemoryFormat::R8g8b8a8)
    } else if channels == 1 && bits == 16 {
        Some(MemoryFormat::G16)
    } else if channels == 2 && bits == 32 {
        Some(MemoryFormat::G16a16)
    } else if channels == 3 && bits == 48 {
        Some(MemoryFormat::R16g16b16)
    } else if channels == 4 && bits == 64 {
        Some(MemoryFormat::R16g16b16a16)
    } else {
        None
    }
}

/// Position of the first chunk of the given type among the first `count`.
pub open spec fn first_chunk(list: Seq<(u32, usize, usize)>, chunk_type: u32, count: nat) -> Option<
    int,
>
    decreases count,
{
    if count == 0 {
        None
    } else {
        match first_chunk(list, chunk_type, (count - 1) as nat) {
            Some(i) => Some(i),
            None => if list[count - 1].0 == chunk_type {
                Some(count - 1)
            } else {
                None
            },
        }
    }
}

fn find_chunk(list: &Vec<(u32, usize, usize)>, chunk_type: u32) -> (found: Option<usize>)
    ensures
        match found {
            Some(i) => first_chunk(list@, chunk_type, list@.len()) == Some(i as int) && i
                < list@.len() && list@[i as int].0 == chunk_type,
            None => first_chunk(list@, chunk_type, list@.len()) is None,
        },
{
    let mut i: usize = 0;
    while i < list.len()
        invariant
            i <= list@.len(),
            first_chunk(list@, chunk_type, i as nat) is None,
        decreases list@.len() - i,
    {
        if list[i].0 == chunk_type {
            proof {
                lemma_first_chunk_stays(list@, chunk_type, i as nat + 1);
            }
            return Some(i);
        }
        i += 1;
    }
    None
}

proof fn lemma_first_chunk_stays(list: Seq<(u32, usize, usize)>, chunk_type: u32, found: nat)
    requires
        found <= list.len(),
        first_chunk(list, chunk_type, found) is Some,
    ensures
        first_chunk(list, chunk_type, list.len()) == first_chunk(list, chunk_type, found),
    decreases list.len() - found,
{
    if found < list.len() {
        assert(first_chunk(list, chunk_type, found + 1) == first_chunk(list, chunk_type, found));
        lemma_first_chunk_stays(list, chunk_type, found + 1);
    }
}

/// The orientation that Exif data record, if it is one of the eight.
pub open spec fn recorded_orientation(exif: Seq<u8>) -> Option<Orientation> {
    match exif_orientation_value(exif) {
        Some(Some(value)) => if 1 <= value <= 8 {
            Some(choose|o: Orientation| o.exif_value() == value)
        } else {
            None
        },
        _ => None,
    }
}

/// The orientation of the first of the blocks of Exif data from `from` on
/// that records one.
pub open spec fn first_orientation(blocks: Seq<Seq<u8>>, from: int) -> Option<Orientation>
    decreases blocks.len() - from,
{
    if from < 0 || from >= blocks.len() {
        None
    } else {
        match recorded_orientation(blocks[from]) {
            Some(orientation) => Some(orientation),
            None => first_orientation(blocks, from + 1),
        }
    }
}

/// The orientation that a PNG records: that of the first of its blocks of
/// Exif data that records one of the eight. The Exif chunk goes before Exif
/// data in text chunks.
pub open spec fn png_orientation(data: Seq<u8>) -> Option<Orientation> {
    match png_exif(data) {
        Some(blocks) => first_orientation(blocks, 0),
        None => None,
    }
}

/// The data of a chunk: what stands between its header and its checksum.
pub open spec fn chunk_data(data: Seq<u8>, chunk: (u32, usize, usize)) -> Seq<u8> {
    data.subrange(chunk.1 + CHUNK_HEADER_LEN, chunk.2 - CHUNK_TRAILER_LEN)
}

pub(crate) fn copy_range(data: &Vec<u8>, start: usize, end: usize) -> (part: Vec<u8>)
    requires
        start <= end <= data@.len(),
    ensures
        part@ == data@.subrange(start as int, end as int),
{
    let mut part: Vec<u8> = Vec::new();
    let mut i = start;
    while i < end
        invariant
            start <= i <= end <= data@.len(),
            part@ == data@.subrange(start as int, i as int),
        decreases end - i,
    {
        part.push(data[i]);
        assert(part@ =~= data@.subrange(start as int, i + 1));
        i += 1;
    }
    part
}

fn orientation_of(data: &Vec<u8>) -> (orientation: Option<Orientation>)
    ensures
        orientation == png_orientation(data@),
{
    let blocks = match exif_blocks(data) {
        Ok(blocks) => blocks,
        Err(_) => {
            return None;
        },
    };
    let mut i: usize = 0;
    while i < blocks.len()
        invariant
            i <= blocks@.len(),
            png_exif(data@) == Some(blocks_view(blocks@)),
            first_orientation(blocks_view(blocks@), 0) == first_orientation(
                blocks_view(blocks@),
                i as int,
            ),
        decreases blocks@.len() - i,
    {
        assert(blocks_view(blocks@)[i as int] == blocks@[i as int]@);
        match exif_orientation(&blocks[i]) {
            Ok(Some(value)) => match Orientation::from_exif(value) {
                Some(orientation) => {
                    proof {
                        crate::jpeg::lemma_orientation_of_value(orientation);
                    }
                    return Some(orientation);
                },
                None => {},
            },
            _ => {},
        }
        i += 1;
    }
    None
}

/// The PNG with the orientation of the first `count` chunks set to upright.
/// Chunks that hold no Exif data, and Exif data whose orientation cannot be
/// set, stay as they are.
pub open spec fn upright_chunks(data: Seq<u8>, list: Seq<(u32, usize, usize)>, count: nat) -> Seq<u8>
    decreases count,
{
    if count == 0 {
        data
    } else {
        let before = upright_chunks(data, list, (count - 1) as nat);
        let chunk = list[count - 1];
        if chunk.0 != CHUNK_EXIF {
            before
        } else {
            match exif_orientation_changes(chunk_data(data, chunk), 1) {
                Some(changes) => {
                    let base = chunk.1 + CHUNK_HEADER_LEN;
                    if shiftable(changes, base) && changes_within(
                        shifted(changes, base),
                        data.len(),
                        changes.len(),
                    ) {
                        changed(before, shifted(changes, base), changes.len())
                    } else {
                        before
                    }
                },
                None => before,
            }
        }
    }
}

/// The PNG without the records of an orientation: the chunk of the Apple
/// devices is taken out where that can be done, and the Exif data say
/// upright.
pub open spec fn without_orientation(data: Seq<u8>) -> Seq<u8> {
    let kept = match png_chunks(data) {
        Some(list) => match first_chunk(list, CHUNK_ORNT, list.len()) {
            Some(i) => match png_without_chunk(data, i as usize) {
                Some(rest) => rest,
                None => data,
            },
            None => data,
        },
        None => data,
    };
    match png_chunks(kept) {
        Some(list) => upright_chunks(kept, list, list.len()),
        None => kept,
    }
}

/// Sets every record of an orientation to upright.
pub fn reset_exif_orientation(data: Vec<u8>) -> (new: Vec<u8>)
    ensures
        new@ == without_orientation(data@),
{
    let mut data = data;
    let ghost original = data@;
    match chunks(&data) {
        Ok(list) => match find_chunk(&list, CHUNK_ORNT) {
            Some(i) => match remove_chunk(&data, i) {
                Ok(rest) => {
                    data = rest;
                },
                Err(_) => {},
            },
            None => {},
        },
        Err(_) => {},
    }
    let ghost kept = data@;
    let list = match chunks(&data) {
        Ok(list) => list,
        Err(_) => {
            return data;
        },
    };
    let total = data.len();
    let source = data.clone();
    let mut i: usize = 0;
    while i < list.len()
        invariant
            i <= list@.len(),
            total == kept.len(),
            source@ == kept,
            data@.len() == kept.len(),
            png_chunks(kept) == Some(list@),
            forall|j: int|
                0 <= j < list@.len() ==> (#[trigger] list@[j]).1 + CHUNK_HEADER_LEN
                    + CHUNK_TRAILER_LEN <= list@[j].2 <= kept.len(),
            data@ == upright_chunks(kept, list@, i as nat),
        decreases list@.len() - i,
    {
        let chunk = list[i];
        if chunk.0 == CHUNK_EXIF {
            // the Exif data of the chunk as they were before any change
            let exif = copy_range(&source, chunk.1 + CHUNK_HEADER_LEN, chunk.2 - CHUNK_TRAILER_LEN);
            match exif_set_orientation(&exif, 1) {
                Ok(changes) => match shift_changes(&changes, chunk.1 + CHUNK_HEADER_LEN) {
                    Some(byte_changes) => {
                        if byte_changes.fits(total) {
                            byte_changes.apply(&mut data);
                            proof {
                                crate::editor_output::lemma_changed_len(
                                    upright_chunks(kept, list@, i as nat),
                                    byte_changes.changes@,
                                    byte_changes.changes@.len(),
                                );
                            }
                        }
                    },
                    None => {},
                },
                Err(_) => {},
            }
        }
        i += 1;
    }
    data
}

/// What the edit of a PNG comes to.
pub enum PngEdit {
    Image(Seq<u8>),
    Failed(ProcessErrorKind),
}

/// The operations that are applied to the pixels of a PNG: first those that
/// bring the image upright, then those of the caller.
pub open spec fn png_operations(data: Seq<u8>, operations: Seq<Operation>) -> Seq<Operation> {
    match png_orientation(data) {
        Some(orientation) => orientation_operations(orientation) + operations,
        None => operations,
    }
}

/// The frame of decoded pixels.
pub open spec fn decoded_frame(width: u32, height: u32, format: MemoryFormat) -> EditingFrame {
    EditingFrame {
        width,
        height,
        stride: (width * format.bytes_per_pixel().count()) as u32,
        memory_format: ExtendedMemoryFormat::Basic(format),
    }
}

/// The edit of a PNG.
///
/// The pixels are decoded, where they fit a buffer, brought upright and
/// changed as the operations say. The result is encoded, takes the place of the image data, and no
/// longer records an orientation.
pub open spec fn png_edit(data: Seq<u8>, operations: Seq<Operation>) -> PngEdit {
    match png_image(data) {
        None => PngEdit::Failed(ProcessErrorKind::Expected),
        Some((pixels, width, height, channels, bits)) => match decoded_format(channels, bits) {
            None => PngEdit::Failed(ProcessErrorKind::Internal),
            Some(format) => if width * format.bytes_per_pixel().count() > u32::MAX {
                PngEdit::Failed(ProcessErrorKind::ConversionTooLarger)
            } else if png_chunks(data) is None {
                PngEdit::Failed(ProcessErrorKind::Expected)
            } else {
                let all = png_operations(data, operations);
                match applied(pixels, decoded_frame(width, height, format), all, all.len()) {
                    Err(_) => PngEdit::Failed(ProcessErrorKind::Expected),
                    Ok(edited) => if edited.buf.len() != edited.frame.width * edited.frame.height
                        * format.bytes_per_pixel().count() {
                        PngEdit::Failed(ProcessErrorKind::Internal)
                    } else {
                        match png_of_pixels(
                            edited.buf,
                            edited.frame.width,
                            edited.frame.height,
                            format.number() as u32,
                        ) {
                            None => PngEdit::Failed(ProcessErrorKind::Internal),
                            Some(image) => match png_with_image_data(data, image) {
                                None => PngEdit::Failed(ProcessErrorKind::Expected),
                                Some(whole) => PngEdit::Image(without_orientation(whole)),
                            },
                        }
                    },
                }
            },
        },
    }
}

/// Applies operations to a PNG and hands back the whole image.
pub fn apply(data: Vec<u8>, operations: Operations) -> (res: Result<
    CompleteEditorOutput,
    ProcessError,
>)
    ensures
        match res {
            Ok(output) => png_edit(data@, operations@) == PngEdit::Image(output.data@)
                && !output.info.lossless,
            Err(e) => png_edit(data@, operations@) == PngEdit::Failed(e.kind()),
        },
{
    let (pixels, width, height, channels, bits) = match decode_image(&data) {
        Ok(decoded) => decoded,
        Err(_) => {
            return Err(ProcessError::expected("The image cannot be decoded"));
        },
    };
    let format = match memory_format_of(channels, bits) {
        Some(format) => format,
        None => {
            return Err(ProcessError::internal("The color type is not known"));
        },
    };
    let pixel_size = format.n_bytes().u64();
    assert(width as int * pixel_size as int <= 0xffff_ffff * 16) by (nonlinear_arith)
        requires
            width <= 0xffff_ffff,
            0 <= pixel_size <= 16,
    ;
    let stride = width as u64 * pixel_size;
    if stride > u32::MAX as u64 {
        return Err(ProcessError::ConversionTooLargerError);
    }
    let mut frame = EditingFrame {
        width,
        height,
        stride: stride as u32,
        memory_format: ExtendedMemoryFormat::Basic(format),
    };
    if chunks(&data).is_err() {
        return Err(ProcessError::expected("The image is no PNG"));
    }
    let mut operations = operations;
    match orientation_of(&data) {
        Some(orientation) => {
            operations.prepend(Operations::new_orientation(orientation));
        },
        None => {},
    }
    let pixels = match operations.apply(pixels, &mut frame) {
        Ok(pixels) => pixels,
        Err(_) => {
            return Err(ProcessError::expected("The operations cannot be applied"));
        },
    };
    let size = format.n_bytes().u64();
    assert(0 <= frame.width as int * frame.height as int <= 0xffff_ffff * 0xffff_ffff)
        by (nonlinear_arith)
        requires
            0 <= frame.width <= 0xffff_ffff,
            0 <= frame.height <= 0xffff_ffff,
    ;
    let area: u128 = frame.width as u128 * frame.height as u128;
    assert(area as int * size as int <= 0xffff_ffff * 0xffff_ffff * 16) by (nonlinear_arith)
        requires
            0 <= area <= 0xffff_ffff * 0xffff_ffff,
            0 <= size <= 16,
    ;
    let expected: u128 = area * size as u128;
    if pixels.len() as u128 != expected {
        return Err(ProcessError::internal("The pixels do not fill the image"));
    }
    let image = match encode(&pixels, frame.width, frame.height, format) {
        Ok(image) => image,
        Err(_) => {
            return Err(ProcessError::internal("The image cannot be encoded"));
        },
    };
    let whole = match replace_image_data(&data, &image) {
        Ok(whole) => whole,
        Err(_) => {
            return Err(ProcessError::expected("The image data cannot be replaced"));
        },
    };
    Ok(CompleteEditorOutput::new(BinaryData::from_data(reset_exif_orientation(whole))))
}

} // verus!

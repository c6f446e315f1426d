//! What the host does with a frame before it hands it on: it turns the frame
//! upright and brings it into a memory format that the caller accepts.

use crate::change_memory_format::geometry;
use crate::editing::{
    change_orientation, check_orientable, orientable, oriented, oriented_frame, EditingFrame,
};
use crate::frame::{Frame, ImageDetails};
use crate::jpeg::{exif_orientation, exif_orientation_value};
use crate::memory_format::{ChannelType, MemoryFormat, MemoryFormatInfo};
use crate::orientation::Orientation;
use vstd::prelude::*;

verus! {

/// The memory formats that a caller accepts.
#[derive(Debug, Clone, PartialEq, Eq)]
pub struct MemoryFormatSelection {
    formats: Vec<MemoryFormat>,
}

/// How exact a channel is: the number of bits that tell values apart.
pub open spec fn precision(channel: ChannelType) -> int {
    match channel {
        ChannelType::U8 => 8,
        ChannelType::F16 => 11,
        ChannelType::U16 => 16,
        ChannelType::F32 => 24,
    }
}

/// What is lost when pixels of `source` are stored as `target`: 8 for the
/// alpha channel, 4 for the colors, 2 for exactness, and 1 where only one of
/// the two multiplies colors with alpha.
pub open spec fn loss(source: MemoryFormat, target: MemoryFormat) -> int {
    (if source.alpha() && !target.alpha() {
        8int
    } else {
        0int
    }) + (if !source.grayscale() && target.grayscale() {
        4int
    } else {
        0int
    }) + (if precision(target.channel()) < precision(source.channel()) {
        2int
    } else {
        0int
    }) + (if source.premultiplied() != target.premultiplied() {
        1int
    } else {
        0int
    })
}

/// How well `target` serves for pixels of `source`; less is better. The loss
/// counts first, then the size of a pixel, then the number of the format.
pub open spec fn cost(source: MemoryFormat, target: MemoryFormat) -> int {
    loss(source, target) * 4096 + target.bytes_per_pixel().count() * 64 + target.number()
}

/// Whether `best` is the format of the list that serves best for `source`:
/// the source itself where the list holds it, and else the one of least cost.
pub open spec fn is_best(formats: Seq<MemoryFormat>, source: MemoryFormat, best: MemoryFormat) -> bool {
    &&& formats.contains(best)
    &&& if formats.contains(source) {
        best == source
    } else {
        forall|i: int| 0 <= i < formats.len() ==> cost(source, best) <= cost(source, formats[i])
    }
}

fn precision_of(channel: ChannelType) -> (bits: u8)
    ensures
        bits == precision(channel),
{
    match channel {
        ChannelType::U8 => 8,
        ChannelType::F16 => 11,
        ChannelType::U16 => 16,
        ChannelType::F32 => 24,
    }
}

fn cost_of(source: MemoryFormat, target: MemoryFormat) -> (value: u32)
    ensures
        value == cost(source, target),
{
    let mut lost: u32 = 0;
    if source.has_alpha() && !target.has_alpha() {
        lost += 8;
    }
    if !source.is_grayscale() && target.is_grayscale() {
        lost += 4;
    }
    if precision_of(target.channel_type()) < precision_of(source.channel_type()) {
        lost += 2;
    }
    if source.is_premultiplied() != target.is_premultiplied() {
        lost += 1;
    }
    lost * 4096 + target.n_bytes().u32() * 64 + target.to_number()
}

impl MemoryFormatSelection {
    /// The formats of the selection.
    pub closed spec fn view(&self) -> Seq<MemoryFormat> {
        self.formats@
    }

    /// A selection without formats.
    pub fn empty() -> (selection: MemoryFormatSelection)
        ensures
            selection@.len() == 0,
    {
        MemoryFormatSelection { formats: Vec::new() }
    }

    /// The selection of every format, in the order of their numbers.
    pub fn all() -> (selection: MemoryFormatSelection)
        ensures
            selection@.len() == 23,
            forall|i: int| 0 <= i < 23 ==> (#[trigger] selection@[i]).number() == i,
            forall|format: MemoryFormat| selection@.contains(format),
    {
        let mut formats: Vec<MemoryFormat> = Vec::new();
        let mut number: u32 = 0;
        while number < 23
            invariant
                number <= 23,
                formats@.len() == number,
                forall|i: int| 0 <= i < number ==> (#[trigger] formats@[i]).number() == i,
            decreases 23 - number,
        {
            match MemoryFormat::from_number(number) {
                Some(format) => {
                    formats.push(format);
                },
                None => {},
            }
            number += 1;
        }
        assert forall|format: MemoryFormat| formats@.contains(format) by {
            let i = format.number();
            assert(formats@[i].number() == i);
            assert(formats@[i] == format);
        }
        MemoryFormatSelection { formats }
    }

    /// The selection with one more format.
    pub fn with(self, format: MemoryFormat) -> (selection: MemoryFormatSelection)
        ensures
            selection@ == self@.push(format),
    {
        let mut formats = self.formats;
        formats.push(format);
        MemoryFormatSelection { formats }
    }

    /// Tells whether the selection holds the format.
    pub fn contains(&self, format: MemoryFormat) -> (found: bool)
        ensures
            found == self@.contains(format),
    {
        let mut i: usize = 0;
        while i < self.formats.len()
            invariant
                i <= self.formats@.len(),
                forall|j: int| 0 <= j < i ==> self.formats@[j] != format,
            decreases self.formats@.len() - i,
        {
            if self.formats[i] == format {
                return true;
            }
            i += 1;
        }
        false
    }

    /// The format of the selection into which pixels of `source` are
    /// brought: the source itself where the selection holds it, and else the
    /// format that loses least, takes the fewest bytes, and comes first.
    pub fn best_format_for(&self, source: MemoryFormat) -> (best: Option<MemoryFormat>)
        ensures
            match best {
                Some(format) => is_best(self@, source, format),
                None => self@.len() == 0,
            },
    {
        if self.formats.len() == 0 {
            return None;
        }
        if self.contains(source) {
            return Some(source);
        }
        let mut best = self.formats[0];
        let mut i: usize = 1;
        while i < self.formats.len()
            invariant
                1 <= i <= self.formats@.len(),
                !self.formats@.contains(source),
                self.formats@.contains(best),
                forall|j: int| 0 <= j < i ==> cost(source, best) <= cost(source, self.formats@[j]),
            decreases self.formats@.len() - i,
        {
            if cost_of(source, self.formats[i]) < cost_of(source, best) {
                best = self.formats[i];
            }
            i += 1;
        }
        Some(best)
    }
}

/// The orientation that the host has to apply to the frames of an image.
///
/// Nothing is applied where the helper has done so already. A hint of the
/// helper goes before the Exif data, and Exif data that cannot be read or
/// record none of the eight orientations count for nothing.
pub open spec fn orientation_for(details: ImageDetails) -> Option<Orientation> {
    if details.transformation_ignore_exif {
        None
    } else {
        match details.transformation_orientation {
            Some(orientation) => Some(orientation),
            None => match details.metadata_exif {
                Some(exif) => match exif_orientation_value(exif@) {
                    Some(Some(value)) => if 1 <= value <= 8 {
                        Some(choose|o: Orientation| o.exif_value() == value)
                    } else {
                        None
                    },
                    _ => None,
                },
                None => None,
            },
        }
    }
}

/// Tells the orientation that the host has to apply.
pub fn orientation_of(details: &ImageDetails) -> (orientation: Option<Orientation>)
    ensures
        orientation == orientation_for(*details),
{
    if details.transformation_ignore_exif {
        return None;
    }
    match details.transformation_orientation {
        Some(orientation) => Some(orientation),
        None => match &details.metadata_exif {
            Some(exif) => match exif_orientation(exif.get()) {
                Ok(Some(value)) => match Orientation::from_exif(value) {
                    Some(orientation) => {
                        proof {
                            crate::jpeg::lemma_orientation_of_value(orientation);
                        }
                        Some(orientation)
                    },
                    None => None,
                },
                _ => None,
            },
            None => None,
        },
    }
}

/// The frame with the geometry of an edited buffer.
pub open spec fn with_geometry(frame: Frame, edited: EditingFrame) -> Frame {
    Frame { width: edited.width, height: edited.height, stride: edited.stride, ..frame }
}

/// Whether the host can turn the frame: the buffer holds it, and the rows of
/// the turned frame are no longer than a stride can say.
pub open spec fn turnable(buf_len: nat, frame: Frame, orientation: Orientation) -> bool {
    geometry(frame).fits(buf_len) && orientable(geometry(frame), orientation)
}

/// Turns the pixels of a frame upright.
///
/// The orientation of the image is applied where there is one and the frame
/// can be turned; else buffer and frame stay as they are.
pub fn apply_exif_orientation(buf: Vec<u8>, frame: &mut Frame, image_info: &ImageDetails) -> (new:
    Vec<u8>)
    ensures
        match orientation_for(*image_info) {
            Some(orientation) => if turnable(buf@.len(), *old(frame), orientation) {
                new@ == oriented(buf@, geometry(*old(frame)), orientation) && *final(frame)
                    == with_geometry(
                    *old(frame),
                    oriented_frame(geometry(*old(frame)), orientation),
                )
            } else {
                new == buf && *final(frame) == *old(frame)
            },
            None => new == buf && *final(frame) == *old(frame),
        },
{
    match orientation_of(image_info) {
        Some(orientation) => {
            let mut editing = frame.editing_frame();
            if !editing.check_fits(buf.len()) || !check_orientable(&editing, orientation) {
                return buf;
            }
            let new = change_orientation(buf, &mut editing, orientation);
            frame.width = editing.width;
            frame.height = editing.height;
            frame.stride = editing.stride;
            new
        },
        None => buf,
    }
}

/// Turning a frame upright that is upright leaves every byte in its place.
pub proof fn lemma_upright_stays(buf: Seq<u8>, frame: EditingFrame, orientation: Orientation)
    ensures
        oriented(oriented(buf, frame, orientation), oriented_frame(frame, orientation), Orientation::Id)
            == oriented(buf, frame, orientation),
        oriented_frame(oriented_frame(frame, orientation), Orientation::Id) == oriented_frame(
            frame,
            orientation,
        ),
{
}

} // verus!

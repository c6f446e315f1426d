//! What the editor of a helper has to offer, and the editor for the formats
//! of the image library.

use crate::change_memory_format::{
    change_memory_format, conversion_fault, converted_frame, converted_rows,
};
use crate::dbus_loader_api::{editor_reply, told};
use crate::editor_output::{
    CompleteEditorOutput, EditRequest, EncodedImage, EncodingOptions, InitializationDetails,
    NewImage, SparseEditorOutput,
};
use crate::error::{ProcessError, ProcessErrorKind, RemoteError};
use crate::message_pack::{known, lossy_texts, read_message, unknown};
use crate::frame::{BinaryData, Frame};
use crate::jpeg::{
    answers_complete, answers_sparse, complete_edit, needs_pixels, sparse_edit, CompleteEdit,
};
use crate::memory_format::{MemoryFormat, MemoryFormatInfo};
use crate::operations::Operations;
use crate::pipeline::{is_best, MemoryFormatSelection};
use crate::png::{png_edit, png_format, PngEdit};
use crate::text::str_equal;
use vstd::prelude::*;
use vstd::string::*;

verus! {

/// Implement this trait to create an image editor
pub trait EditorImplementation {
    /// Whether the helper has an editor at all.
    fn useable() -> bool;

    /// Applies the operations to the image with as few changes as possible.
    fn apply_sparse(
        data: Vec<u8>,
        mime_type: String,
        details: InitializationDetails,
        operations: Operations,
    ) -> Result<SparseEditorOutput, ProcessError>;

    /// Applies the operations to the image and hands back the whole image.
    fn apply_complete(
        data: Vec<u8>,
        mime_type: String,
        details: InitializationDetails,
        operations: Operations,
    ) -> Result<CompleteEditorOutput, ProcessError>;

    /// Encodes a new image.
    fn create(mime_type: String, new_image: NewImage, encoding_options: EncodingOptions) -> Result<
        EncodedImage,
        ProcessError,
    >;
}

/// Stands in the place of an editor where a helper has none: it is not
/// useable, and each of its operations fails.
pub struct VoidEditorImplementation;

impl EditorImplementation for VoidEditorImplementation {
    fn useable() -> (useable: bool)
        ensures
            !useable,
    {
        false
    }

    fn apply_sparse(
        _data: Vec<u8>,
        _mime_type: String,
        _details: InitializationDetails,
        _operations: Operations,
    ) -> (res: Result<SparseEditorOutput, ProcessError>)
        ensures
            res matches Err(e) && e.kind() == ProcessErrorKind::Internal,
    {
        Err(ProcessError::internal("No editor available"))
    }

    fn apply_complete(
        _data: Vec<u8>,
        _mime_type: String,
        _details: InitializationDetails,
        _operations: Operations,
    ) -> (res: Result<CompleteEditorOutput, ProcessError>)
        ensures
            res matches Err(e) && e.kind() == ProcessErrorKind::Internal,
    {
        Err(ProcessError::internal("No editor available"))
    }

    fn create(_mime_type: String, _new_image: NewImage, _encoding_options: EncodingOptions) -> (res:
        Result<EncodedImage, ProcessError>)
        ensures
            res matches Err(e) && e.kind() == ProcessErrorKind::Internal,
    {
        Err(ProcessError::internal("No editor available"))
    }
}

/// What a helper answers when the host asks its editor to apply the
/// operations of a request with as few changes as possible. A request whose
/// operations cannot be read is refused before the editor is asked. Every
/// other request goes to the editor with its operations, with the data, the
/// MIME type and the details as they came, and the host is told the answer
/// of the editor.
pub fn apply<E: EditorImplementation>(
    data: Vec<u8>,
    mime_type: String,
    details: InitializationDetails,
    edit_request: &EditRequest,
) -> (reply: Result<SparseEditorOutput, RemoteError>)
    ensures
        read_message(edit_request.operations@) is None ==> (reply matches Err(e) && e
            is LoadingError),
        read_message(edit_request.operations@) matches Some(items) ==> exists|
            operations: Operations,
            answer: Result<SparseEditorOutput, ProcessError>,
        |
            operations@ == known(items) && operations.unknown() == lossy_texts(unknown(items))
                && call_ensures(E::apply_sparse, (data, mime_type, details, operations), answer)
                && told(answer, reply),
{
    match edit_request.operations() {
        Ok(operations) => editor_reply(E::apply_sparse(data, mime_type, details, operations)),
        Err(e) => Err(e),
    }
}

/// What a helper answers when the host asks its editor for the whole image
/// after the operations of a request: as for the sparse edit, the request is
/// refused where its operations cannot be read, and goes to the editor as it
/// came else.
pub fn apply_complete<E: EditorImplementation>(
    data: Vec<u8>,
    mime_type: String,
    details: InitializationDetails,
    edit_request: &EditRequest,
) -> (reply: Result<CompleteEditorOutput, RemoteError>)
    ensures
        read_message(edit_request.operations@) is None ==> (reply matches Err(e) && e
            is LoadingError),
        read_message(edit_request.operations@) matches Some(items) ==> exists|
            operations: Operations,
            answer: Result<CompleteEditorOutput, ProcessError>,
        |
            operations@ == known(items) && operations.unknown() == lossy_texts(unknown(items))
                && call_ensures(E::apply_complete, (data, mime_type, details, operations), answer)
                && told(answer, reply),
{
    match edit_request.operations() {
        Ok(operations) => editor_reply(E::apply_complete(data, mime_type, details, operations)),
        Err(e) => Err(e),
    }
}

/// The file formats that the image library writes.
#[derive(Debug, Clone, Copy, PartialEq, Eq, Structural)]
pub enum ImageFormat {
    Bmp,
    Dds,
    Farbfeld,
    Gif,
    Ico,
    Jpeg,
    OpenExr,
    Png,
    Pnm,
    Qoi,
    Tga,
    Tiff,
    WebP,
}

impl ImageFormat {
    /// The place of the format in the list of formats.
    pub open spec fn index(self) -> int {
        match self {
            ImageFormat::Bmp => 0,
            ImageFormat::Dds => 1,
            ImageFormat::Farbfeld => 2,
            ImageFormat::Gif => 3,
            ImageFormat::Ico => 4,
            ImageFormat::Jpeg => 5,
            ImageFormat::OpenExr => 6,
            ImageFormat::Png => 7,
            ImageFormat::Pnm => 8,
            ImageFormat::Qoi => 9,
            ImageFormat::Tga => 10,
            ImageFormat::Tiff => 11,
            ImageFormat::WebP => 12,
        }
    }

    fn to_index(self) -> (index: usize)
        ensures
            index == self.index(),
            index < 13,
    {
        match self {
            ImageFormat::Bmp => 0,
            ImageFormat::Dds => 1,
            ImageFormat::Farbfeld => 2,
            ImageFormat::Gif => 3,
            ImageFormat::Ico => 4,
            ImageFormat::Jpeg => 5,
            ImageFormat::OpenExr => 6,
            ImageFormat::Png => 7,
            ImageFormat::Pnm => 8,
            ImageFormat::Qoi => 9,
            ImageFormat::Tga => 10,
            ImageFormat::Tiff => 11,
            ImageFormat::WebP => 12,
        }
    }
}

/// The file format of a MIME type, for the MIME types that the editor can
/// write.
pub open spec fn format_of_mime(mime_type: Seq<char>) -> Option<ImageFormat> {
    if mime_type == "image/bmp"@ {
        Some(ImageFormat::Bmp)
    } else if mime_type == "image/x-dds"@ {
        Some(ImageFormat::Dds)
    } else if mime_type == "image/x-ff"@ {
        Some(ImageFormat::Farbfeld)
    } else if mime_type == "image/gif"@ {
        Some(ImageFormat::Gif)
    } else if mime_type == "image/vnd.microsoft.icon"@ {
        Some(ImageFormat::Ico)
    } else if mime_type == "image/jpeg"@ {
        Some(ImageFormat::Jpeg)
    } else if mime_type == "image/x-exr"@ {
        Some(ImageFormat::OpenExr)
    } else if mime_type == "image/png"@ {
        Some(ImageFormat::Png)
    } else if mime_type == "image/x-portable-bitmap"@ || mime_type == "image/x-portable-graymap"@
        || mime_type == "image/x-portable-pixmap"@ || mime_type == "image/x-portable-anymap"@ {
        Some(ImageFormat::Pnm)
    } else if mime_type == "image/x-qoi"@ || mime_type == "image/qoi"@ {
        Some(ImageFormat::Qoi)
    } else if mime_type == "image/x-targa"@ || mime_type == "image/x-tga"@ {
        Some(ImageFormat::Tga)
    } else if mime_type == "image/tiff"@ {
        Some(ImageFormat::Tiff)
    } else if mime_type == "image/webp"@ {
        Some(ImageFormat::WebP)
    } else {
        None
    }
}

/// Tells the file format of a MIME type.
pub fn image_format(mime_type: &str) -> (res: Result<ImageFormat, ProcessError>)
    ensures
        match res {
            Ok(format) => format_of_mime(mime_type@) == Some(format),
            Err(e) => format_of_mime(mime_type@) is None && e.kind()
                == ProcessErrorKind::UnsupportedImageFormat && e.message() == mime_type@,
        },
{
    if str_equal(mime_type, "image/bmp") {
        Ok(ImageFormat::Bmp)
    } else if str_equal(mime_type, "image/x-dds") {
        Ok(ImageFormat::Dds)
    } else if str_equal(mime_type, "image/x-ff") {
        Ok(ImageFormat::Farbfeld)
    } else if str_equal(mime_type, "image/gif") {
        Ok(ImageFormat::Gif)
    } else if str_equal(mime_type, "image/vnd.microsoft.icon") {
        Ok(ImageFormat::Ico)
    } else if str_equal(mime_type, "image/jpeg") {
        Ok(ImageFormat::Jpeg)
    } else if str_equal(mime_type, "image/x-exr") {
        Ok(ImageFormat::OpenExr)
    } else if str_equal(mime_type, "image/png") {
        Ok(ImageFormat::Png)
    } else if str_equal(mime_type, "image/x-portable-bitmap") || str_equal(
        mime_type,
        "image/x-portable-graymap",
    ) || str_equal(mime_type, "image/x-portable-pixmap") || str_equal(
        mime_type,
        "image/x-portable-anymap",
    ) {
        Ok(ImageFormat::Pnm)
    } else if str_equal(mime_type, "image/x-qoi") || str_equal(mime_type, "image/qoi") {
        Ok(ImageFormat::Qoi)
    } else if str_equal(mime_type, "image/x-targa") || str_equal(mime_type, "image/x-tga") {
        Ok(ImageFormat::Tga)
    } else if str_equal(mime_type, "image/tiff") {
        Ok(ImageFormat::Tiff)
    } else if str_equal(mime_type, "image/webp") {
        Ok(ImageFormat::WebP)
    } else {
        Err(ProcessError::UnsupportedImageFormat(mime_type.to_owned()))
    }
}

/// The color types of the image library for pixels of integers.
#[derive(Debug, Clone, Copy, PartialEq, Eq, Structural)]
pub enum ExtendedColorType {
    L8,
    La8,
    Rgb8,
    Rgba8,
    L16,
    La16,
    Rgb16,
    Rgba16,
}

impl ExtendedColorType {
    /// The place of the color type in the list of color types.
    pub open spec fn index(self) -> int {
        match self {
            ExtendedColorType::L8 => 0,
            ExtendedColorType::La8 => 1,
            ExtendedColorType::Rgb8 => 2,
            ExtendedColorType::Rgba8 => 3,
            ExtendedColorType::L16 => 4,
            ExtendedColorType::La16 => 5,
            ExtendedColorType::Rgb16 => 6,
            ExtendedColorType::Rgba16 => 7,
        }
    }

    fn to_index(self) -> (index: usize)
        ensures
            index == self.index(),
            index < 8,
    {
        match self {
            ExtendedColorType::L8 => 0,
            ExtendedColorType::La8 => 1,
            ExtendedColorType::Rgb8 => 2,
            ExtendedColorType::Rgba8 => 3,
            ExtendedColorType::L16 => 4,
            ExtendedColorType::La16 => 5,
            ExtendedColorType::Rgb16 => 6,
            ExtendedColorType::Rgba16 => 7,
        }
    }
}

/// The color type of a memory format that the image library can write.
pub open spec fn color_type_of(memory_format: MemoryFormat) -> ExtendedColorType {
    match memory_format {
        MemoryFormat::G8 => ExtendedColorType::L8,
        MemoryFormat::G8a8 => ExtendedColorType::La8,
        MemoryFormat::R8g8b8 => ExtendedColorType::Rgb8,
        MemoryFormat::R8g8b8a8 => ExtendedColorType::Rgba8,
        MemoryFormat::G16 => ExtendedColorType::L16,
        MemoryFormat::G16a16 => ExtendedColorType::La16,
        MemoryFormat::R16g16b16 => ExtendedColorType::Rgb16,
        _ => ExtendedColorType::Rgba16,
    }
}

/// Tells the color type of a memory format that the image library can write.
pub fn image_memory_format(memory_format: MemoryFormat) -> (color: ExtendedColorType)
    requires
        png_format(memory_format),
    ensures
        color == color_type_of(memory_format),
{
    match memory_format {
        MemoryFormat::G8 => ExtendedColorType::L8,
        MemoryFormat::G8a8 => ExtendedColorType::La8,
        MemoryFormat::R8g8b8 => ExtendedColorType::Rgb8,
        MemoryFormat::R8g8b8a8 => ExtendedColorType::Rgba8,
        MemoryFormat::G16 => ExtendedColorType::L16,
        MemoryFormat::G16a16 => ExtendedColorType::La16,
        MemoryFormat::R16g16b16 => ExtendedColorType::Rgb16,
        _ => ExtendedColorType::Rgba16,
    }
}

/// The file that holds the given pixels, in rows without padding, in the
/// color type and the file format of the given places in their lists: nothing
/// where the format cannot be written or the pixels do not fit it.
pub uninterp spec fn encoded_image(
    pixels: Seq<u8>,
    width: u32,
    height: u32,
    color: usize,
    format: usize,
) -> Option<Seq<u8>>;

/// Calls `image::write_buffer_with_format`, which does not return unless the
/// pixels fill the rows exactly. An image without pixels is left out: not
/// every writer is known to take one.
#[verifier::external_body]
fn write_buffer(pixels: &Vec<u8>, width: u32, height: u32, color: usize, format: usize) -> (res:
    Result<Vec<u8>, ()>)
    requires
        color < 8,
        format < 13,
        width > 0,
        height > 0,
        pixels@.len() == width * height * (if color < 4 {
            1int
        } else {
            2int
        }) * (color % 4 + 1),
    ensures
        match res {
            Ok(data) => encoded_image(pixels@, width, height, color, format) == Some(data@),
            Err(_) => encoded_image(pixels@, width, height, color, format) is None,
        },
{
    let color = [image::ExtendedColorType::L8, image::ExtendedColorType::La8, image::ExtendedColorType::Rgb8, image::ExtendedColorType::Rgba8, image::ExtendedColorType::L16, image::ExtendedColorType::La16, image::ExtendedColorType::Rgb16, image::ExtendedColorType::Rgba16][color];
    let format = [image::ImageFormat::Bmp, image::ImageFormat::Dds, image::ImageFormat::Farbfeld, image::ImageFormat::Gif, image::ImageFormat::Ico, image::ImageFormat::Jpeg, image::ImageFormat::OpenExr, image::ImageFormat::Png, image::ImageFormat::Pnm, image::ImageFormat::Qoi, image::ImageFormat::Tga, image::ImageFormat::Tiff, image::ImageFormat::WebP][format];
    let mut out = std::io::Cursor::new(Vec::new());
    image::write_buffer_with_format(&mut out, pixels, width, height, color, format)
        .map_err(|_| ())?;
    Ok(out.into_inner())
}

/// The memory formats that the image library can write.
pub open spec fn writable_formats() -> Seq<MemoryFormat> {
    seq![
        MemoryFormat::G8,
        MemoryFormat::G8a8,
        MemoryFormat::R8g8b8,
        MemoryFormat::R8g8b8a8,
        MemoryFormat::G16,
        MemoryFormat::G16a16,
        MemoryFormat::R16g16b16,
        MemoryFormat::R16g16b16a16,
    ]
}

fn writable_selection() -> (selection: MemoryFormatSelection)
    ensures
        selection@ == writable_formats(),
{
    let selection = MemoryFormatSelection::empty().with(MemoryFormat::G8).with(
        MemoryFormat::G8a8,
    ).with(MemoryFormat::R8g8b8).with(MemoryFormat::R8g8b8a8).with(MemoryFormat::G16).with(
        MemoryFormat::G16a16,
    ).with(MemoryFormat::R16g16b16).with(MemoryFormat::R16g16b16a16);
    assert(selection@ =~= writable_formats());
    selection
}

/// What the encoding of a new image comes to.
pub enum Created {
    Image(Seq<u8>),
    Failed(ProcessErrorKind),
}

/// The encoding of the first frame of a new image.
///
/// The frame is brought into the memory format that serves it best among
/// those that the image library writes, and is written in the file format of
/// the MIME type. A frame without pixels is not written.
pub open spec fn created(mime_type: Seq<char>, frames: Seq<Frame>) -> Created {
    if frames.len() == 0 {
        Created::Failed(ProcessErrorKind::Expected)
    } else {
        match format_of_mime(mime_type) {
            None => Created::Failed(ProcessErrorKind::UnsupportedImageFormat),
            Some(format) => {
                let frame = frames[0];
                let target = choose|best: MemoryFormat|
                    is_best(writable_formats(), frame.memory_format, best);
                let pixels = if frame.memory_format == target {
                    Some(frame.texture@)
                } else if conversion_fault(frame.texture@.len(), frame, target) is None {
                    Some(converted_rows(frame.texture@, frame, target, frame.height as nat))
                } else {
                    None
                };
                match pixels {
                    None => Created::Failed(ProcessErrorKind::Expected),
                    Some(pixels) => if pixels.len() != frame.width * frame.height
                        * target.bytes_per_pixel().count() || frame.width == 0 || frame.height
                        == 0 {
                        Created::Failed(ProcessErrorKind::Expected)
                    } else {
                        match encoded_image(
                            pixels,
                            frame.width,
                            frame.height,
                            color_type_of(target).index() as usize,
                            format.index() as usize,
                        ) {
                            Some(image) => Created::Image(image),
                            None => Created::Failed(ProcessErrorKind::Expected),
                        }
                    },
                }
            },
        }
    }
}

/// No two formats serve equally well, so the best one is the only best one.
pub proof fn lemma_best_is_unique(
    formats: Seq<MemoryFormat>,
    source: MemoryFormat,
    first: MemoryFormat,
    second: MemoryFormat,
)
    requires
        is_best(formats, source, first),
        is_best(formats, source, second),
    ensures
        first == second,
{
    if !formats.contains(source) {
        let i = choose|i: int| 0 <= i < formats.len() && formats[i] == first;
        let j = choose|j: int| 0 <= j < formats.len() && formats[j] == second;
        assert(crate::pipeline::cost(source, first) <= crate::pipeline::cost(source, formats[j]));
        assert(crate::pipeline::cost(source, second) <= crate::pipeline::cost(source, formats[i]));
        assert(first.number() == second.number());
    }
}

/// The editor for the formats of the image library.
#[derive(Debug, Clone, Copy, PartialEq, Eq)]
pub struct ImgEditor {}

impl Default for ImgEditor {
    fn default() -> (editor: ImgEditor) {
        ImgEditor {  }
    }
}

/// What an edit by the editor of the image library comes to.
///
/// A PNG is edited on its pixels as the decoder of PNG gives them. A JPEG is
/// edited on what the decoder of JPEG has made of it, where the edit needs
/// the pixels at all.
pub open spec fn img_complete(
    mime_type: Seq<char>,
    data: Seq<u8>,
    decoded: Option<(Seq<u8>, u16, u16)>,
    operations: Operations,
) -> CompleteEdit {
    if mime_type == "image/png"@ {
        match png_edit(data, operations@) {
            PngEdit::Image(image) => CompleteEdit::Image(image, false),
            PngEdit::Failed(kind) => CompleteEdit::Failed(kind),
        }
    } else if mime_type == "image/jpeg"@ {
        complete_edit(data, decoded, operations@)
    } else {
        CompleteEdit::Failed(ProcessErrorKind::UnsupportedImageFormat)
    }
}

impl EditorImplementation for ImgEditor {
    fn useable() -> (useable: bool)
        ensures
            useable,
    {
        true
    }

    fn apply_sparse(
        data: Vec<u8>,
        mime_type: String,
        details: InitializationDetails,
        operations: Operations,
    ) -> (res: Result<SparseEditorOutput, ProcessError>)
        ensures
            mime_type@ == "image/jpeg"@ ==> {
                &&& exists|decoded: Option<(Seq<u8>, u16, u16)>|
                    answers_sparse(res, #[trigger] sparse_edit(data@, decoded, operations@))
                &&& !needs_pixels(data@, operations@) ==> answers_sparse(
                    res,
                    sparse_edit(data@, None, operations@),
                )
            },
            mime_type@ != "image/jpeg"@ ==> match res {
                Ok(output) => output.image() matches Some(binary) && output.changes() is None
                    && img_complete(mime_type@, data@, None, operations) == CompleteEdit::Image(
                    binary@,
                    output.output_info().lossless,
                ),
                Err(e) => img_complete(mime_type@, data@, None, operations)
                    == CompleteEdit::Failed(e.kind()),
            },
    {
        if str_equal(mime_type.as_str(), "image/jpeg") {
            crate::jpeg::apply_sparse(data, &operations)
        } else {
            match ImgEditor::apply_complete(data, mime_type, details, operations) {
                Ok(output) => Ok(SparseEditorOutput::from_complete(output)),
                Err(e) => Err(e),
            }
        }
    }

    fn apply_complete(
        data: Vec<u8>,
        mime_type: String,
        _details: InitializationDetails,
        operations: Operations,
    ) -> (res: Result<CompleteEditorOutput, ProcessError>)
        ensures
            exists|decoded: Option<(Seq<u8>, u16, u16)>|
                answers_complete(
                    res,
                    #[trigger] img_complete(mime_type@, data@, decoded, operations),
                ),
            mime_type@ != "image/jpeg"@ || !needs_pixels(data@, operations@) ==> answers_complete(
                res,
                img_complete(mime_type@, data@, None, operations),
            ),
    {
        if str_equal(mime_type.as_str(), "image/png") {
            let res = crate::png::apply(data, operations);
            assert(answers_complete(res, img_complete(mime_type@, data@, None, operations)));
            res
        } else if str_equal(mime_type.as_str(), "image/jpeg") {
            let res = crate::jpeg::apply_complete(data, &operations);
            proof {
                let decoded = choose|decoded: Option<(Seq<u8>, u16, u16)>|
                    answers_complete(res, #[trigger] complete_edit(data@, decoded, operations@));
                assert(answers_complete(
                    res,
                    img_complete(mime_type@, data@, decoded, operations),
                ));
            }
            res
        } else {
            let res = Err(ProcessError::UnsupportedImageFormat(mime_type));
            assert(answers_complete(res, img_complete(mime_type@, data@, None, operations)));
            res
        }
    }

    fn create(mime_type: String, new_image: NewImage, _encoding_options: EncodingOptions) -> (res:
        Result<EncodedImage, ProcessError>)
        ensures
            match res {
                Ok(image) => created(mime_type@, new_image.frames@) == Created::Image(image.data@),
                Err(e) => created(mime_type@, new_image.frames@) == Created::Failed(e.kind()),
            },
    {
        let mut frames = new_image.frames;
        if frames.len() == 0 {
            return Err(ProcessError::expected("The image has no frame"));
        }
        let mut frame = frames.remove(0);
        let ghost first = frame;
        let format = match image_format(mime_type.as_str()) {
            Ok(format) => format,
            Err(e) => {
                return Err(e);
            },
        };
        let target = match writable_selection().best_format_for(frame.memory_format) {
            Some(target) => target,
            None => {
                return Err(ProcessError::internal("No memory format can be written"));
            },
        };
        proof {
            let chosen = choose|best: MemoryFormat|
                is_best(writable_formats(), first.memory_format, best);
            lemma_best_is_unique(writable_formats(), first.memory_format, target, chosen);
            let i = choose|i: int|
                0 <= i < writable_formats().len() && writable_formats()[i] == target;
            assert(png_format(writable_formats()[i]));
        }
        let texture = frame.texture.get_full();
        let pixels = match change_memory_format(texture, &mut frame, target) {
            Ok(pixels) => pixels,
            Err(_) => {
                return Err(ProcessError::expected("The pixels cannot be converted"));
            },
        };
        let size = target.n_bytes().u64();
        assert(0 <= frame.width as int * frame.height as int <= 0xffff_ffff * 0xffff_ffff)
            by (nonlinear_arith)
            requires
                0 <= frame.width <= 0xffff_ffff,
                0 <= frame.height <= 0xffff_ffff,
        ;
        let area: u128 = frame.width as u128 * frame.height as u128;
        assert(area as int * size as int <= 0xffff_ffff * 0xffff_ffff * 16) by (nonlinear_arith)
            requires
                0 <= area <= 0xffff_ffff * 0xffff_ffff,
                0 <= size <= 16,
        ;
        let expected: u128 = area * size as u128;
        if pixels.len() as u128 != expected || frame.width == 0 || frame.height == 0 {
            return Err(ProcessError::expected("The pixels do not fill the image"));
        }
        let color = image_memory_format(target);
        proof {
            let depth = if color.index() < 4 {
                1int
            } else {
                2int
            };
            let channels = color.index() % 4 + 1;
            assert(size == depth * channels);
            assert(frame.width * frame.height * depth * channels == area * size)
                by (nonlinear_arith)
                requires
                    area == frame.width * frame.height,
                    size == depth * channels,
            ;
        }
        match write_buffer(&pixels, frame.width, frame.height, color.to_index(), format.to_index()) {
            Ok(data) => Ok(EncodedImage::new(BinaryData::from_data(data))),
            Err(_) => Err(ProcessError::expected("The image cannot be encoded")),
        }
    }
}

} // verus!

use glycin::dbus_editor_api::{
    apply, apply_complete, EditorImplementation, ImgEditor, VoidEditorImplementation,
};
use glycin::dbus_loader_api::{editor_reply, loader_reply, LoaderImplementation};
use glycin::editor_output::{
    EditRequest, EncodingOptions, InitializationDetails, NewImage,
};
use glycin::error::{ProcessError, RemoteError};
use glycin::frame::{BinaryData, Frame, FrameRequest, ImageDetails};
use glycin::memory_format::MemoryFormat;
use glycin::operations::{Operation, Operations};
use glycin::orientation::Rotation;

struct OnePixel {
    ready: bool,
}

impl LoaderImplementation for OnePixel {
    fn init(
        &mut self,
        data: Vec<u8>,
        mime_type: String,
        _details: InitializationDetails,
    ) -> Result<ImageDetails, ProcessError> {
        if mime_type != "image/x-one-pixel" {
            return Err(ProcessError::UnsupportedImageFormat(mime_type));
        }
        if data.len() != 3 {
            return Err(ProcessError::expected("not one pixel"));
        }
        self.ready = true;
        Ok(ImageDetails::new(1, 1))
    }

    fn frame(&mut self, _frame_request: FrameRequest) -> Result<Frame, ProcessError> {
        if !self.ready {
            return Err(ProcessError::internal("no image"));
        }
        Frame::new(
            1,
            1,
            MemoryFormat::R8g8b8,
            BinaryData::from_data(vec![255, 0, 0]),
        )
        .map_err(|_| ProcessError::ConversionTooLargerError)
    }
}

#[test]
fn a_value_is_handed_on() {
    assert_eq!(loader_reply::<u8>(Ok(7)), Ok(7));
    assert_eq!(editor_reply::<u8>(Ok(9)), Ok(9));
}

#[test]
fn an_error_is_told_to_the_host() {
    assert_eq!(
        loader_reply::<u8>(Err(ProcessError::expected("broken"))),
        Err(RemoteError::LoadingError("broken".to_string()))
    );
    assert_eq!(
        loader_reply::<u8>(Err(ProcessError::internal("bug"))),
        Err(RemoteError::InternalLoaderError("bug".to_string()))
    );
    assert_eq!(
        editor_reply::<u8>(Err(ProcessError::UnsupportedImageFormat(
            "image/x-foo".to_string()
        ))),
        Err(RemoteError::UnsupportedImageFormat("image/x-foo".to_string()))
    );
    assert_eq!(
        editor_reply::<u8>(Err(ProcessError::OutOfMemory("much".to_string()))),
        Err(RemoteError::OutOfMemory("much".to_string()))
    );
    assert_eq!(
        loader_reply::<u8>(Err(ProcessError::ConversionTooLargerError)),
        Err(RemoteError::InternalLoaderError(
            "Conversion too large".to_string()
        ))
    );
}

#[test]
fn the_answers_of_a_loader_are_told_to_the_host() {
    let mut loader = OnePixel { ready: false };
    assert_eq!(
        loader_reply(loader.frame(FrameRequest::new())),
        Err(RemoteError::InternalLoaderError("no image".to_string()))
    );
    assert_eq!(
        loader_reply(loader.init(
            vec![255, 0, 0],
            "image/png".to_string(),
            InitializationDetails::default()
        )),
        Err(RemoteError::UnsupportedImageFormat("image/png".to_string()))
    );
    assert_eq!(
        loader_reply(loader.init(
            vec![255, 0],
            "image/x-one-pixel".to_string(),
            InitializationDetails::default()
        )),
        Err(RemoteError::LoadingError("not one pixel".to_string()))
    );
    let details = loader_reply(loader.init(
        vec![255, 0, 0],
        "image/x-one-pixel".to_string(),
        InitializationDetails::default(),
    ))
    .unwrap();
    assert_eq!((details.width, details.height), (1, 1));
    let frame = loader_reply(loader.frame(FrameRequest::new())).unwrap();
    assert_eq!(frame.texture.get_full(), vec![255, 0, 0]);
    assert_eq!(frame.stride, 3);
}

#[test]
fn a_request_that_cannot_be_read_is_refused() {
    let request = EditRequest {
        operations: BinaryData::from_data(vec![0xc1]),
    };
    let sparse = apply::<ImgEditor>(
        Vec::new(),
        "image/jpeg".to_string(),
        InitializationDetails::default(),
        &request,
    );
    assert!(matches!(sparse, Err(RemoteError::LoadingError(_))));
    let complete = apply_complete::<ImgEditor>(
        Vec::new(),
        "image/png".to_string(),
        InitializationDetails::default(),
        &request,
    );
    assert!(matches!(complete, Err(RemoteError::LoadingError(_))));
}

#[test]
fn an_editor_is_asked_through_its_service() {
    let operations = Operations::new(vec![Operation::Rotate(Rotation::_90)]);
    let request = EditRequest::for_operations(&operations).unwrap();
    // no image at all: the editor fails, and the host is told so
    let complete = apply_complete::<ImgEditor>(
        Vec::new(),
        "image/png".to_string(),
        InitializationDetails::default(),
        &request,
    );
    assert!(complete.is_err());
    let unsupported = apply_complete::<ImgEditor>(
        Vec::new(),
        "image/x-foo".to_string(),
        InitializationDetails::default(),
        &request,
    );
    assert_eq!(
        unsupported.err(),
        Some(RemoteError::UnsupportedImageFormat(
            "image/x-foo".to_string()
        ))
    );
}

#[test]
fn a_helper_without_editor_refuses() {
    assert!(!VoidEditorImplementation::useable());
    assert!(ImgEditor::useable());
    let operations = Operations::new(Vec::new());
    let request = EditRequest::for_operations(&operations).unwrap();
    let sparse = apply::<VoidEditorImplementation>(
        Vec::new(),
        "image/png".to_string(),
        InitializationDetails::default(),
        &request,
    );
    assert!(matches!(sparse, Err(RemoteError::InternalLoaderError(_))));
    let complete = apply_complete::<VoidEditorImplementation>(
        Vec::new(),
        "image/png".to_string(),
        InitializationDetails::default(),
        &request,
    );
    assert!(matches!(complete, Err(RemoteError::InternalLoaderError(_))));
    let created = editor_reply(VoidEditorImplementation::create(
        "image/png".to_string(),
        NewImage::new(ImageDetails::new(1, 1), Vec::new()),
        EncodingOptions::default(),
    ));
    assert!(matches!(created, Err(RemoteError::InternalLoaderError(_))));
}

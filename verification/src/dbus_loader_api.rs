//! What the loader of a helper has to offer, and what the host is told of
//! its answers.

use crate::editor_output::InitializationDetails;
use crate::error::{ProcessError, RemoteError};
use crate::frame::{Frame, FrameRequest, ImageDetails};
use vstd::prelude::*;

verus! {

/// Implement this trait to create an image loader
pub trait LoaderImplementation {
    /// Takes the image and tells what is known of it before any frame is
    /// decoded.
    fn init(&mut self, data: Vec<u8>, mime_type: String, details: InitializationDetails) -> Result<
        ImageDetails,
        ProcessError,
    >;

    /// Decodes the next frame.
    fn frame(&mut self, frame_request: FrameRequest) -> Result<Frame, ProcessError>;
}

/// Whether `reply` is what the host is told of the answer of a loader or an
/// editor: a value is handed on, and an error is told to the host.
pub open spec fn told<T>(answer: Result<T, ProcessError>, reply: Result<T, RemoteError>) -> bool {
    match answer {
        Ok(value) => reply == Ok::<T, RemoteError>(value),
        Err(error) => reply matches Err(remote) && error.told_as(remote),
    }
}

/// What the host is told of the answer of a loader.
pub fn loader_reply<T>(answer: Result<T, ProcessError>) -> (reply: Result<T, RemoteError>)
    ensures
        told(answer, reply),
{
    match answer {
        Ok(value) => Ok(value),
        Err(error) => Err(error.into_loader_error()),
    }
}

/// What the host is told of the answer of an editor.
pub fn editor_reply<T>(answer: Result<T, ProcessError>) -> (reply: Result<T, RemoteError>)
    ensures
        told(answer, reply),
{
    match answer {
        Ok(value) => Ok(value),
        Err(error) => Err(error.into_editor_error()),
    }
}

} // verus!

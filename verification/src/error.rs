//! What can go wrong, on the host and in a helper.

use crate::frame::{DimensionTooLargerError, FrameGeometry};
use vstd::prelude::*;
use vstd::string::*;

verus! {

/// Errors that a helper reports.
#[derive(Debug, Clone, PartialEq, Eq)]
pub enum RemoteError {
    LoadingError(String),
    InternalLoaderError(String),
    UnsupportedImageFormat(String),
    OutOfMemory(String),
}

/// Errors of the host.
#[derive(Debug, Clone, PartialEq, Eq)]
pub enum Error {
    RemoteError(RemoteError),
    GLibError(String),
    /// Number of the error of the operating system
    NixError(i32),
    StdIoError { err: String, info: String },
    DbusError(String),
    InternalCommunicationCanceled,
    NoLoadersConfigured,
    UnknownImageFormat(String),
    UnknownContentType(String),
    PrematureExit { status: i32, cmd: String },
    ConversionTooLarge,
    SpawnError { cmd: String, err: String },
    TextureTooSmall { texture_size: u64, frame: FrameGeometry },
    TextureTooLarge,
    StrideTooSmall(FrameGeometry),
    WidthOrHeightZero(FrameGeometry),
    MemFd(String),
    Seccomp(String),
    IccProfile(String),
    /// The caller has canceled the operation, with the reason if one was given
    Canceled(Option<String>),
    LoaderUsedTwice,
    TransferredStream,
}

impl Error {
    /// The MIME type that the error calls unsupported, if it does.
    pub open spec fn unsupported(self) -> Option<Seq<char>> {
        match self {
            Error::UnknownImageFormat(mime_type) => Some(mime_type@),
            Error::RemoteError(RemoteError::UnsupportedImageFormat(message)) => Some(message@),
            _ => None,
        }
    }

    /// Returns if the error is related to unsupported formats.
    ///
    /// Return the mime type of the unsupported format or [`None`] if the error
    /// is unrelated to unsupported formats.
    pub fn unsupported_format(&self) -> (mime_type: Option<String>)
        ensures
            match mime_type {
                Some(m) => self.unsupported() == Some(m@),
                None => self.unsupported() is None,
            },
    {
        match self {
            Error::UnknownImageFormat(mime_type) => Some(mime_type.clone()),
            Error::RemoteError(RemoteError::UnsupportedImageFormat(message)) => Some(
                message.clone(),
            ),
            _ => None,
        }
    }

    pub fn is_out_of_memory(&self) -> (out_of_memory: bool)
        ensures
            out_of_memory == (*self matches Error::RemoteError(RemoteError::OutOfMemory(_))),
    {
        match self {
            Error::RemoteError(RemoteError::OutOfMemory(_)) => true,
            _ => false,
        }
    }

    /// The host error for a size that does not fit.
    pub fn from_dimension_error(_err: DimensionTooLargerError) -> (error: Error)
        ensures
            error == Error::ConversionTooLarge,
    {
        Error::ConversionTooLarge
    }

    /// The host error for an error that a helper has reported.
    pub fn from_remote(err: RemoteError) -> (error: Error)
        ensures
            error == Error::RemoteError(err),
    {
        Error::RemoteError(err)
    }
}

/// An error together with what the helper wrote before it.
#[derive(Debug, Clone, PartialEq, Eq)]
pub struct ErrorCtx {
    error: Error,
    stderr: Option<String>,
    stdout: Option<String>,
}

/// The text of a captured output, where it is there and not empty.
pub open spec fn captured(output: Option<String>) -> Option<Seq<char>> {
    match output {
        Some(text) => if text@.len() > 0 {
            Some(text@)
        } else {
            None
        },
        None => None,
    }
}

/// The text that stands for an error with its context: the text of the error,
/// then each captured output that is not empty, under its heading.
pub open spec fn context_text(
    error_text: Seq<char>,
    stderr: Option<String>,
    stdout: Option<String>,
) -> Seq<char> {
    error_text + (match captured(stderr) {
        Some(text) => "\n\nstderr:\n"@ + text,
        None => Seq::empty(),
    }) + (match captured(stdout) {
        Some(text) => "\n\nstdout:\n"@ + text,
        None => Seq::empty(),
    })
}

impl ErrorCtx {
    /// The error without its context.
    pub closed spec fn kind(&self) -> Error {
        self.error
    }

    /// What the helper wrote to its error output.
    pub closed spec fn captured_stderr(&self) -> Option<String> {
        self.stderr
    }

    /// What the helper wrote to its standard output.
    pub closed spec fn captured_stdout(&self) -> Option<String> {
        self.stdout
    }

    pub fn from_error(kind: Error) -> (ctx: ErrorCtx)
        ensures
            ctx.kind() == kind,
            ctx.captured_stderr() is None,
            ctx.captured_stdout() is None,
    {
        ErrorCtx { error: kind, stderr: None, stdout: None }
    }

    /// The error with what its helper wrote.
    pub fn with_output(kind: Error, stderr: Option<String>, stdout: Option<String>) -> (ctx:
        ErrorCtx)
        ensures
            ctx.kind() == kind,
            ctx.captured_stderr() == stderr,
            ctx.captured_stdout() == stdout,
    {
        ErrorCtx { error: kind, stderr, stdout }
    }

    pub fn error(&self) -> (error: &Error)
        ensures
            *error == self.kind(),
    {
        &self.error
    }

    pub fn stderr(&self) -> (output: &Option<String>)
        ensures
            *output == self.captured_stderr(),
    {
        &self.stderr
    }

    pub fn stdout(&self) -> (output: &Option<String>)
        ensures
            *output == self.captured_stdout(),
    {
        &self.stdout
    }

    /// The text for the error with its context, given the text of the error
    /// itself.
    pub fn describe(&self, error_text: &str) -> (text: String)
        ensures
            text@ == context_text(error_text@, self.captured_stderr(), self.captured_stdout()),
    {
        let mut text = error_text.to_owned();
        match &self.stderr {
            Some(output) => {
                if output.as_str().unicode_len() > 0 {
                    text.append("\n\nstderr:\n");
                    text.append(output.as_str());
                }
            },
            None => {},
        }
        match &self.stdout {
            Some(output) => {
                if output.as_str().unicode_len() > 0 {
                    text.append("\n\nstdout:\n");
                    text.append(output.as_str());
                }
            },
            None => {},
        }
        assert(text@ =~= context_text(
            error_text@,
            self.captured_stderr(),
            self.captured_stdout(),
        ));
        text
    }
}

/// Adds what the helper wrote to an error.
pub fn err_context<T>(result: Result<T, Error>, stderr: Option<String>, stdout: Option<String>) -> (
    res: Result<T, ErrorCtx>)
    ensures
        match (result, res) {
            (Ok(value), Ok(same)) => value == same,
            (Err(kind), Err(ctx)) => ctx.kind() == kind && ctx.captured_stderr() == stderr
                && ctx.captured_stdout() == stdout,
            _ => false,
        },
{
    match result {
        Ok(value) => Ok(value),
        Err(kind) => Err(ErrorCtx::with_output(kind, stderr, stdout)),
    }
}

/// Wraps an error that no helper output belongs to.
pub fn err_no_context<T>(result: Result<T, Error>) -> (res: Result<T, ErrorCtx>)
    ensures
        match (result, res) {
            (Ok(value), Ok(same)) => value == same,
            (Err(kind), Err(ctx)) => ctx.kind() == kind && ctx.captured_stderr() is None
                && ctx.captured_stdout() is None,
            _ => false,
        },
{
    match result {
        Ok(value) => Ok(value),
        Err(kind) => Err(ErrorCtx::from_error(kind)),
    }
}

/// Errors inside of a helper.
#[derive(Debug, Clone, PartialEq, Eq)]
pub enum ProcessError {
    /// The image cannot be handled as it is
    ExpectedError(String),
    /// The helper itself has failed
    InternalError(String),
    UnsupportedImageFormat(String),
    ConversionTooLargerError,
    OutOfMemory(String),
}

/// The kind of a helper error.
#[derive(Debug, Clone, Copy, PartialEq, Eq, Structural)]
pub enum ProcessErrorKind {
    Expected,
    Internal,
    UnsupportedImageFormat,
    ConversionTooLarger,
    OutOfMemory,
}

impl ProcessError {
    /// The kind of the error.
    pub open spec fn kind(self) -> ProcessErrorKind {
        match self {
            ProcessError::ExpectedError(_) => ProcessErrorKind::Expected,
            ProcessError::InternalError(_) => ProcessErrorKind::Internal,
            ProcessError::UnsupportedImageFormat(_) => ProcessErrorKind::UnsupportedImageFormat,
            ProcessError::ConversionTooLargerError => ProcessErrorKind::ConversionTooLarger,
            ProcessError::OutOfMemory(_) => ProcessErrorKind::OutOfMemory,
        }
    }

    /// Whether `error` is what the host is told of this error: the text is
    /// kept, and the kind decides what the error is called.
    pub open spec fn told_as(self, error: RemoteError) -> bool {
        error.message() == self.message() && match self.kind() {
            ProcessErrorKind::Expected => error is LoadingError,
            ProcessErrorKind::Internal => error is InternalLoaderError,
            ProcessErrorKind::UnsupportedImageFormat => error is UnsupportedImageFormat,
            ProcessErrorKind::ConversionTooLarger => error is InternalLoaderError,
            ProcessErrorKind::OutOfMemory => error is OutOfMemory,
        }
    }

    /// The text that comes with the error.
    pub open spec fn message(self) -> Seq<char> {
        match self {
            ProcessError::ExpectedError(message) => message@,
            ProcessError::InternalError(message) => message@,
            ProcessError::UnsupportedImageFormat(mime_type) => mime_type@,
            ProcessError::ConversionTooLargerError => "Conversion too large"@,
            ProcessError::OutOfMemory(message) => message@,
        }
    }

    /// An error for an image that cannot be handled.
    pub fn expected(message: &str) -> (error: ProcessError)
        ensures
            error.kind() == ProcessErrorKind::Expected,
            error.message() == message@,
    {
        ProcessError::ExpectedError(message.to_owned())
    }

    /// An error for a failure of the helper itself.
    pub fn internal(message: &str) -> (error: ProcessError)
        ensures
            error.kind() == ProcessErrorKind::Internal,
            error.message() == message@,
    {
        ProcessError::InternalError(message.to_owned())
    }

    /// What the host is told of the error: the image could not be loaded,
    /// the helper has failed, the format is not supported, or the memory did
    /// not suffice.
    pub fn into_loader_error(self) -> (error: RemoteError)
        ensures
            self.told_as(error),
    {
        match self {
            ProcessError::ExpectedError(message) => RemoteError::LoadingError(message),
            ProcessError::InternalError(message) => RemoteError::InternalLoaderError(message),
            ProcessError::UnsupportedImageFormat(mime_type) => RemoteError::UnsupportedImageFormat(
                mime_type,
            ),
            ProcessError::ConversionTooLargerError => RemoteError::InternalLoaderError(
                "Conversion too large".to_owned(),
            ),
            ProcessError::OutOfMemory(message) => RemoteError::OutOfMemory(message),
        }
    }

    /// What the host is told of the error of an editor.
    pub fn into_editor_error(self) -> (error: RemoteError)
        ensures
            self.told_as(error),
    {
        self.into_loader_error()
    }
}

impl RemoteError {
    /// The text that comes with the error.
    pub open spec fn message(self) -> Seq<char> {
        match self {
            RemoteError::LoadingError(message) => message@,
            RemoteError::InternalLoaderError(message) => message@,
            RemoteError::UnsupportedImageFormat(mime_type) => mime_type@,
            RemoteError::OutOfMemory(message) => message@,
        }
    }
}

} // verus!

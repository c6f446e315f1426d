//! Choices that loading, editing and encoding have in common.

use crate::config::MimeType;
use crate::error::Error;
use crate::text::str_equal;
use vstd::prelude::*;
use vstd::string::*;

verus! {

/// Sandboxing mechanism for image loading and editing
#[derive(Debug, Clone, Copy, PartialEq, Eq, Structural)]
pub enum SandboxMechanism {
    Bwrap,
    FlatpakSpawn,
    NotSandboxed,
}

/// Where the process runs.
#[derive(Debug, Clone, Copy, PartialEq, Eq, Structural)]
pub enum RunEnvironment {
    /// Not inside of an application sandbox
    Host,
    /// Inside of an installed application sandbox
    Flatpak,
    /// Inside of an application sandbox that was started for development
    FlatpakDevel,
}

/// Method by which the [`SandboxMechanism`] is selected
#[derive(Debug, Clone, Copy, PartialEq, Eq, Structural)]
pub enum SandboxSelector {
    /// Namespaces outside of application sandboxes, the portal inside of them,
    /// and no sandbox inside of development environments.
    Auto,
    Bwrap,
    FlatpakSpawn,
    NotSandboxed,
}

impl SandboxMechanism {
    /// The mechanism that fits the environment.
    pub open spec fn for_environment(environment: RunEnvironment) -> SandboxMechanism {
        match environment {
            RunEnvironment::FlatpakDevel => SandboxMechanism::NotSandboxed,
            RunEnvironment::Flatpak => SandboxMechanism::FlatpakSpawn,
            RunEnvironment::Host => SandboxMechanism::Bwrap,
        }
    }

    pub fn detect(environment: RunEnvironment) -> (mechanism: SandboxMechanism)
        ensures
            mechanism == SandboxMechanism::for_environment(environment),
    {
        match environment {
            RunEnvironment::FlatpakDevel => SandboxMechanism::NotSandboxed,
            RunEnvironment::Flatpak => SandboxMechanism::FlatpakSpawn,
            RunEnvironment::Host => SandboxMechanism::Bwrap,
        }
    }

    pub fn into_selector(self) -> (selector: SandboxSelector)
        ensures
            selector != SandboxSelector::Auto,
            selector.mechanism(RunEnvironment::Host) == self,
    {
        match self {
            SandboxMechanism::Bwrap => SandboxSelector::Bwrap,
            SandboxMechanism::FlatpakSpawn => SandboxSelector::FlatpakSpawn,
            SandboxMechanism::NotSandboxed => SandboxSelector::NotSandboxed,
        }
    }
}

impl SandboxSelector {
    /// The mechanism that the selector stands for in the given environment.
    pub open spec fn mechanism(self, environment: RunEnvironment) -> SandboxMechanism {
        match self {
            SandboxSelector::Auto => SandboxMechanism::for_environment(environment),
            SandboxSelector::Bwrap => SandboxMechanism::Bwrap,
            SandboxSelector::FlatpakSpawn => SandboxMechanism::FlatpakSpawn,
            SandboxSelector::NotSandboxed => SandboxMechanism::NotSandboxed,
        }
    }

    pub fn determine_sandbox_mechanism(self, environment: RunEnvironment) -> (mechanism:
        SandboxMechanism)
        ensures
            mechanism == self.mechanism(environment),
    {
        match self {
            SandboxSelector::Auto => SandboxMechanism::detect(environment),
            SandboxSelector::Bwrap => SandboxMechanism::Bwrap,
            SandboxSelector::FlatpakSpawn => SandboxMechanism::FlatpakSpawn,
            SandboxSelector::NotSandboxed => SandboxMechanism::NotSandboxed,
        }
    }
}

impl Default for SandboxSelector {
    fn default() -> (selector: SandboxSelector)
        ensures
            selector == SandboxSelector::Auto,
    {
        SandboxSelector::Auto
    }
}

/// Tells where the process runs, from what the application sandbox leaves
/// behind: its info file, and the name under which the application runs.
pub fn run_environment(flatpak_info_present: bool, development_build: bool) -> (environment:
    RunEnvironment)
    ensures
        environment == (if !flatpak_info_present {
            RunEnvironment::Host
        } else if development_build {
            RunEnvironment::FlatpakDevel
        } else {
            RunEnvironment::Flatpak
        }),
{
    if !flatpak_info_present {
        RunEnvironment::Host
    } else if development_build {
        RunEnvironment::FlatpakDevel
    } else {
        RunEnvironment::Flatpak
    }
}

/// What the desktop guesses of the type of some content.
#[derive(Debug, Clone, PartialEq, Eq)]
pub struct ContentTypeGuess {
    /// The content type that was guessed
    pub content_type: String,
    /// The MIME type of that content type, if it has one
    pub mime_type: Option<String>,
    /// Whether the guess is unsure
    pub uncertain: bool,
}

/// Whether a MIME type says too little of the content: a TIFF may be a
/// camera raw image, XML may be an SVG, and gzip may be a compressed SVG.
pub open spec fn ambiguous(mime_type: Seq<char>) -> bool {
    mime_type == "image/tiff"@ || mime_type == "application/xml"@ || mime_type
        == "application/gzip"@
}

/// Whether a guess from the content alone is to be followed by a guess that
/// knows the name of the file.
pub open spec fn wants_file_name(guess: ContentTypeGuess) -> bool {
    guess.uncertain || (guess.mime_type matches Some(mime) && ambiguous(mime@))
}

/// The MIME type that a guess comes to.
pub open spec fn guessed(guess: ContentTypeGuess) -> Result<Seq<char>, Seq<char>> {
    match guess.mime_type {
        Some(mime) => Ok(mime@),
        None => Err(guess.content_type@),
    }
}

/// The MIME type of an image: what the content says, unless that is unsure or
/// says too little and the name of the file is known; then what content and
/// name say together.
pub open spec fn resolved(content: ContentTypeGuess, with_name: Option<ContentTypeGuess>) -> Result<
    Seq<char>,
    Seq<char>,
> {
    match with_name {
        Some(named) => if wants_file_name(content) {
            guessed(named)
        } else {
            guessed(content)
        },
        None => guessed(content),
    }
}

/// Tells whether the name of the file is to be asked as well.
pub fn needs_file_name(guess: &ContentTypeGuess) -> (needed: bool)
    ensures
        needed == wants_file_name(*guess),
{
    if guess.uncertain {
        return true;
    }
    match &guess.mime_type {
        Some(mime) => str_equal(mime.as_str(), "image/tiff") || str_equal(
            mime.as_str(),
            "application/xml",
        ) || str_equal(mime.as_str(), "application/gzip"),
        None => false,
    }
}

fn mime_of(guess: &ContentTypeGuess) -> (res: Result<MimeType, Error>)
    ensures
        match res {
            Ok(mime) => guessed(*guess) == Ok::<Seq<char>, Seq<char>>(mime@),
            Err(Error::UnknownContentType(content_type)) => guessed(*guess) == Err::<
                Seq<char>,
                Seq<char>,
            >(content_type@),
            Err(_) => false,
        },
{
    match &guess.mime_type {
        Some(mime) => Ok(MimeType::new(mime.clone())),
        None => Err(Error::UnknownContentType(guess.content_type.clone())),
    }
}

/// Settles the MIME type of an image from the guess by its content and, where
/// the name of its file is known, the guess by content and name.
pub fn guess_mime_type(content: &ContentTypeGuess, with_name: Option<&ContentTypeGuess>) -> (res:
    Result<MimeType, Error>)
    ensures
        match res {
            Ok(mime) => resolved(
                *content,
                match with_name {
                    Some(named) => Some(*named),
                    None => None,
                },
            ) == Ok::<Seq<char>, Seq<char>>(mime@),
            Err(Error::UnknownContentType(content_type)) => resolved(
                *content,
                match with_name {
                    Some(named) => Some(*named),
                    None => None,
                },
            ) == Err::<Seq<char>, Seq<char>>(content_type@),
            Err(_) => false,
        },
{
    match with_name {
        Some(named) => if needs_file_name(content) {
            mime_of(named)
        } else {
            mime_of(content)
        },
        None => mime_of(content),
    }
}

/// The directory of an image that its helper may see: the one of the file,
/// where the helper asks for it and the caller has agreed.
pub fn base_dir_for(
    expose_base_dir: bool,
    use_expose_base_dir: bool,
    parent: Option<String>,
) -> (dir: Option<String>)
    ensures
        dir == (if expose_base_dir && use_expose_base_dir {
            parent
        } else {
            None
        }),
{
    if expose_base_dir && use_expose_base_dir {
        parent
    } else {
        None
    }
}

} // verus!

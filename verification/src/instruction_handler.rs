//! The start of a helper: what it is told on its command line, and what it
//! serves.

use crate::text::{parse_i32, signed_number, str_equal};
use vstd::prelude::*;
use vstd::string::*;

verus! {

/// The interface of loaders.
pub open spec fn loader_interface() -> Seq<char> {
    "org.gnome.glycin.Loader"@
}

/// The interface of editors.
pub open spec fn editor_interface() -> Seq<char> {
    "org.gnome.glycin.Editor"@
}

/// Why a helper cannot start.
#[derive(Debug, Clone, Copy, PartialEq, Eq, Structural)]
pub enum StartError {
    /// FD that facilitates the D-Bus connection not specified via --dbus-fd
    MissingFd,
    /// FD specified via --dbus-fd is not a valid number
    InvalidFd,
}

impl StartError {
    /// The code with which the helper ends.
    pub fn exit_code(self) -> (code: i32)
        ensures
            code == 2,
    {
        2
    }
}

/// The texts of the arguments.
pub open spec fn arg_texts(args: Seq<String>) -> Seq<Seq<char>> {
    Seq::new(args.len(), |i: int| args[i]@)
}

/// The number of the socket that the arguments of a helper name: the first
/// argument after the name of the program has to be `--dbus-fd`, and the
/// second a number.
pub open spec fn dbus_fd_of(args: Seq<Seq<char>>) -> Result<i32, StartError> {
    if args.len() < 2 || args[1] != "--dbus-fd"@ {
        Err(StartError::MissingFd)
    } else if args.len() < 3 {
        Err(StartError::InvalidFd)
    } else {
        match signed_number(args[2]) {
            Some(n) => if i32::MIN <= n <= i32::MAX {
                Ok(n as i32)
            } else {
                Err(StartError::InvalidFd)
            },
            None => Err(StartError::InvalidFd),
        }
    }
}

/// Reads the number of the socket from the arguments of a helper.
pub fn dbus_fd(args: &Vec<String>) -> (res: Result<i32, StartError>)
    ensures
        res == dbus_fd_of(arg_texts(args@)),
{
    if args.len() < 2 || !str_equal(args[1].as_str(), "--dbus-fd") {
        return Err(StartError::MissingFd);
    }
    if args.len() < 3 {
        return Err(StartError::InvalidFd);
    }
    match parse_i32(args[2].as_str()) {
        Some(fd) => Ok(fd),
        None => Err(StartError::InvalidFd),
    }
}

/// The interfaces that a helper serves: the one of loaders, and the one of
/// editors where the helper has an editor.
pub open spec fn interfaces(editor_useable: bool) -> Seq<Seq<char>> {
    if editor_useable {
        seq![loader_interface(), editor_interface()]
    } else {
        seq![loader_interface()]
    }
}

/// Lists the interfaces that a helper serves.
pub fn served_interfaces(editor_useable: bool) -> (names: Vec<&'static str>)
    ensures
        crate::seccomp::name_texts(names@) == interfaces(editor_useable),
{
    let mut names: Vec<&'static str> = Vec::new();
    names.push("org.gnome.glycin.Loader");
    if editor_useable {
        names.push("org.gnome.glycin.Editor");
    }
    assert(crate::seccomp::name_texts(names@) =~= interfaces(editor_useable));
    names
}

} // verus!

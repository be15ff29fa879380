//! Errors of the serial link and of the message layer, in a form that can be
//! handed to a client: a closed kind and a description. The kinds of I/O error
//! are a closed enumeration of their own.

use vstd::prelude::*;
use crate::codes::ResultCode;

verus! {

/// `std::io::ErrorKind`, the kinds of I/O error that the standard library
/// names. It is declared with its variants, which have no fields, so that
/// [`ioe_from`] can tell them apart; nothing else is claimed of it.
#[verifier::external_type_specification]
pub struct ExIoErrorKind(std::io::ErrorKind);

/// `Result::clone` of the standard library, which the derived `Clone` of
/// [`ErrorKind`] calls. Nothing is claimed of its result.
pub assume_specification<T, E>[ <Result<T, E> as Clone>::clone ](r: &Result<T, E>) -> Result<
    T,
    E,
> where T: Clone, E: Clone
;

/// Kind of an error as a serial port reports it: three kinds of its own, and
/// the I/O errors with the kind that the standard library gives them.
#[derive(Debug, Clone, Copy, PartialEq, Eq)]
pub enum PortErrorKind {
    NoDevice,
    InvalidInput,
    Unknown,
    Io(std::io::ErrorKind),
}

/// Kind of an I/O error.
#[derive(Debug, Clone, Copy, PartialEq, Eq, Structural)]
pub enum IOErrorKind {
    NotFound,
    PermissionDenied,
    ConnectionRefused,
    ConnectionReset,
    HostUnreachable,
    NetworkUnreachable,
    ConnectionAborted,
    NotConnected,
    AddrInUse,
    AddrNotAvailable,
    NetworkDown,
    BrokenPipe,
    AlreadyExists,
    WouldBlock,
    NotADirectory,
    IsADirectory,
    DirectoryNotEmpty,
    ReadOnlyFilesystem,
    FilesystemLoop,
    StaleNetworkFileHandle,
    /// An invalid parameter; named apart from [`ErrorKind::InvalidInput`].
    InvalidInputX,
    InvalidData,
    TimedOut,
    WriteZero,
    StorageFull,
    NotSeekable,
    FilesystemQuotaExceeded,
    FileTooLarge,
    ResourceBusy,
    ExecutableFileBusy,
    Deadlock,
    CrossesDevices,
    TooManyLinks,
    InvalidFilename,
    ArgumentListTooLong,
    Interrupted,
    Unsupported,
    UnexpectedEof,
    OutOfMemory,
    Other,
    Uncategorized,
}

/// Kind of an error at the boundary of the message layer.
#[derive(Debug, Clone, PartialEq, Eq)]
pub enum ErrorKind {
    /// The device is not available: in use by another process, or removed.
    NoDevice,
    /// A parameter of the port was refused.
    InvalidInput,
    /// An error of no known kind.
    Unknown,
    /// Reading or writing the port failed. Holds the kind of I/O error, or a
    /// message where the kind has no name here.
    Io(Result<IOErrorKind, String>),
    /// The first byte of a frame was not the leader.
    NoLeader,
    /// The kind tag of a payload is not in the closed set.
    InvalidMessageType,
    /// The length of variable-length data is above the bound of its kind.
    InvalidMemLength,
    /// No complete reply frame came before the read timed out.
    ReplyTimeout,
    /// The remote node answered with a `Fail` that carries this code.
    RemoteFail(ResultCode),
}

/// An error of the serial link or of the message layer.
#[derive(Debug, Clone, PartialEq, Eq)]
pub struct Error {
    /// The kind of error this is.
    pub kind: ErrorKind,
    /// A description of the error suitable for end users.
    pub description: String,
}

/// The kind that an I/O error kind of the standard library is known as here,
/// if it has a name here.
pub open spec fn known_io_kind(kind: std::io::ErrorKind) -> Option<IOErrorKind> {
    match kind {
        std::io::ErrorKind::NotFound => Some(IOErrorKind::NotFound),
        std::io::ErrorKind::PermissionDenied => Some(IOErrorKind::PermissionDenied),
        std::io::ErrorKind::ConnectionRefused => Some(IOErrorKind::ConnectionRefused),
        std::io::ErrorKind::ConnectionReset => Some(IOErrorKind::ConnectionReset),
        std::io::ErrorKind::ConnectionAborted => Some(IOErrorKind::ConnectionAborted),
        std::io::ErrorKind::NotConnected => Some(IOErrorKind::NotConnected),
        std::io::ErrorKind::AddrInUse => Some(IOErrorKind::AddrInUse),
        std::io::ErrorKind::AddrNotAvailable => Some(IOErrorKind::AddrNotAvailable),
        std::io::ErrorKind::BrokenPipe => Some(IOErrorKind::BrokenPipe),
        std::io::ErrorKind::AlreadyExists => Some(IOErrorKind::AlreadyExists),
        std::io::ErrorKind::WouldBlock => Some(IOErrorKind::WouldBlock),
        std::io::ErrorKind::InvalidInput => Some(IOErrorKind::InvalidInputX),
        std::io::ErrorKind::InvalidData => Some(IOErrorKind::InvalidData),
        std::io::ErrorKind::TimedOut => Some(IOErrorKind::TimedOut),
        std::io::ErrorKind::WriteZero => Some(IOErrorKind::WriteZero),
        std::io::ErrorKind::Interrupted => Some(IOErrorKind::Interrupted),
        std::io::ErrorKind::Unsupported => Some(IOErrorKind::Unsupported),
        std::io::ErrorKind::UnexpectedEof => Some(IOErrorKind::UnexpectedEof),
        std::io::ErrorKind::OutOfMemory => Some(IOErrorKind::OutOfMemory),
        std::io::ErrorKind::Other => Some(IOErrorKind::Other),
        _ => None,
    }
}

/// The text that the standard library shows an I/O error kind as.
pub uninterp spec fn io_kind_text(kind: std::io::ErrorKind) -> Seq<char>;

/// Calls `to_string` on a `std::io::ErrorKind`, that is its `Display`: a fixed
/// text for each kind. The contract only gives that text a name.
#[verifier::external_body]
fn show_io_kind(kind: std::io::ErrorKind) -> (text: String)
    ensures
        text@ == io_kind_text(kind),
{
    kind.to_string()
}

/// `String::push_str` appends the given string slice onto the end of the
/// string, as the standard library documents it.
pub assume_specification[ String::push_str ](s: &mut String, string: &str)
    ensures
        final(s)@ == old(s)@ + string@,
;

/// The message for an I/O error kind that has no name here.
pub open spec fn unsupported_io_kind_message(kind: std::io::ErrorKind) -> Seq<char> {
    "unsupported std::io::ErrorKind: "@ + io_kind_text(kind)
}

/// The message for an I/O error kind that has no name here, from the text
/// that the standard library shows the kind as.
pub fn unsupported_io_kind(text: &str) -> (message: String)
    ensures
        message@ == "unsupported std::io::ErrorKind: "@ + text@,
{
    let mut message = "unsupported std::io::ErrorKind: ".to_string();
    message.push_str(text);
    message
}

/// Whether `r` names the I/O error kind `kind`: by the name it has here, or
/// by the message for a kind that has none.
pub open spec fn names_io_kind(r: Result<IOErrorKind, String>, kind: std::io::ErrorKind) -> bool {
    match known_io_kind(kind) {
        Some(k) => r == Ok::<IOErrorKind, String>(k),
        None => r matches Err(message) && message@ == unsupported_io_kind_message(kind),
    }
}

/// Names an I/O error kind of the standard library. The kinds that have a name
/// here keep it, `InvalidInput` as `InvalidInputX`; every other kind gives a
/// message that ends with the text the standard library shows it as.
pub fn ioe_from(kind: std::io::ErrorKind) -> (r: Result<IOErrorKind, String>)
    ensures
        names_io_kind(r, kind),
{
    match kind {
        std::io::ErrorKind::NotFound => Ok(IOErrorKind::NotFound),
        std::io::ErrorKind::PermissionDenied => Ok(IOErrorKind::PermissionDenied),
        std::io::ErrorKind::ConnectionRefused => Ok(IOErrorKind::ConnectionRefused),
        std::io::ErrorKind::ConnectionReset => Ok(IOErrorKind::ConnectionReset),
        std::io::ErrorKind::ConnectionAborted => Ok(IOErrorKind::ConnectionAborted),
        std::io::ErrorKind::NotConnected => Ok(IOErrorKind::NotConnected),
        std::io::ErrorKind::AddrInUse => Ok(IOErrorKind::AddrInUse),
        std::io::ErrorKind::AddrNotAvailable => Ok(IOErrorKind::AddrNotAvailable),
        std::io::ErrorKind::BrokenPipe => Ok(IOErrorKind::BrokenPipe),
        std::io::ErrorKind::AlreadyExists => Ok(IOErrorKind::AlreadyExists),
        std::io::ErrorKind::WouldBlock => Ok(IOErrorKind::WouldBlock),
        std::io::ErrorKind::InvalidInput => Ok(IOErrorKind::InvalidInputX),
        std::io::ErrorKind::InvalidData => Ok(IOErrorKind::InvalidData),
        std::io::ErrorKind::TimedOut => Ok(IOErrorKind::TimedOut),
        std::io::ErrorKind::WriteZero => Ok(IOErrorKind::WriteZero),
        std::io::ErrorKind::Interrupted => Ok(IOErrorKind::Interrupted),
        std::io::ErrorKind::Unsupported => Ok(IOErrorKind::Unsupported),
        std::io::ErrorKind::UnexpectedEof => Ok(IOErrorKind::UnexpectedEof),
        std::io::ErrorKind::OutOfMemory => Ok(IOErrorKind::OutOfMemory),
        std::io::ErrorKind::Other => Ok(IOErrorKind::Other),
        _ => {
            let text = show_io_kind(kind);
            Err(unsupported_io_kind(text.as_str()))
        },
    }
}

/// Whether `r` is the kind that an error kind of a serial port is known as
/// here.
pub open spec fn names_port_kind(r: ErrorKind, kind: PortErrorKind) -> bool {
    match kind {
        PortErrorKind::NoDevice => r == ErrorKind::NoDevice,
        PortErrorKind::InvalidInput => r == ErrorKind::InvalidInput,
        PortErrorKind::Unknown => r == ErrorKind::Unknown,
        PortErrorKind::Io(e) => r matches ErrorKind::Io(named) && names_io_kind(named, e),
    }
}

impl ErrorKind {
    /// The kind that an error kind of a serial port is known as here: its
    /// three own kinds keep their names, an I/O error is named by
    /// [`ioe_from`].
    pub fn of_port(kind: PortErrorKind) -> (r: ErrorKind)
        ensures
            names_port_kind(r, kind),
    {
        match kind {
            PortErrorKind::NoDevice => ErrorKind::NoDevice,
            PortErrorKind::InvalidInput => ErrorKind::InvalidInput,
            PortErrorKind::Unknown => ErrorKind::Unknown,
            PortErrorKind::Io(e) => ErrorKind::Io(ioe_from(e)),
        }
    }
}

impl Error {
    /// The error that an error of a serial port is known as here: its kind as
    /// [`ErrorKind::of_port`] names it, with its description.
    pub fn of_port(kind: PortErrorKind, description: String) -> (r: Error)
        ensures
            names_port_kind(r.kind, kind),
            r.description == description,
    {
        Error { kind: ErrorKind::of_port(kind), description }
    }
}

} // verus!

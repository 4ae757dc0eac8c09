//! The error type of the library and the engine's error codes.
use vstd::prelude::*;

verus! {

#[verifier::external_type_specification]
#[verifier::external_body]
pub struct ExSsh2Error(ssh2::Error);

#[verifier::external_type_specification]
#[verifier::external_body]
pub struct ExIoError(std::io::Error);

/// Representation of an error.
#[derive(Debug)]
pub enum AsyncError {
    /// An error reported by the engine for the call itself; surfaced unchanged.
    SSH2(ssh2::Error),
    /// An I/O error of the socket or of the readiness source.
    Io(std::io::Error),
    /// The engine reported that it would block, twice in a row, without
    /// naming a direction to wait for.
    NoBlockDirection,
}

impl From<ssh2::Error> for AsyncError {
    fn from(e: ssh2::Error) -> (r: AsyncError)
        ensures
            r == AsyncError::SSH2(e),
    {
        AsyncError::SSH2(e)
    }
}

impl vstd::std_specs::convert::FromSpecImpl<ssh2::Error> for AsyncError {
    open spec fn obeys_from_spec() -> bool {
        true
    }

    open spec fn from_spec(e: ssh2::Error) -> AsyncError {
        AsyncError::SSH2(e)
    }
}

impl From<std::io::Error> for AsyncError {
    fn from(e: std::io::Error) -> (r: AsyncError)
        ensures
            r == AsyncError::Io(e),
    {
        AsyncError::Io(e)
    }
}

impl vstd::std_specs::convert::FromSpecImpl<std::io::Error> for AsyncError {
    open spec fn obeys_from_spec() -> bool {
        true
    }

    open spec fn from_spec(e: std::io::Error) -> AsyncError {
        AsyncError::Io(e)
    }
}

/// The code carried by an engine error.
#[derive(Clone, Copy, Debug, PartialEq, Eq, Structural)]
pub enum ErrorCode {
    /// A `LIBSSH2_ERROR_*` code of the session layer.
    Session(i32),
    /// A `LIBSSH2_FX_*` code of the SFTP subsystem.
    Sftp(i32),
}

/// The session code with which the engine reports that a call would block.
pub open spec fn would_block_code() -> i32 {
    -37i32
}

/// The session code with which the engine reports the end of a directory listing.
pub open spec fn end_of_listing_code() -> i32 {
    -16i32
}

/// Relies on libssh2_sys::LIBSSH2_ERROR_EAGAIN, the "would block" code.
#[verifier::external_body]
fn eagain() -> (r: i32)
    ensures
        r == would_block_code(),
{
    libssh2_sys::LIBSSH2_ERROR_EAGAIN
}

/// Relies on libssh2_sys::LIBSSH2_ERROR_FILE, which ssh2's directory reader
/// returns once no entry is left.
#[verifier::external_body]
fn error_file() -> (r: i32)
    ensures
        r == end_of_listing_code(),
{
    libssh2_sys::LIBSSH2_ERROR_FILE
}

/// The code an engine error carries.
pub uninterp spec fn code_of(e: ssh2::Error) -> ErrorCode;

/// Relies on ssh2::Error::code, which returns the code the error was made
/// with, a plain field of the error.
#[verifier::external_body]
pub(crate) fn error_code(e: &ssh2::Error) -> (r: ErrorCode)
    ensures
        r == code_of(*e),
{
    match e.code() {
        ssh2::ErrorCode::Session(c) => ErrorCode::Session(c),
        ssh2::ErrorCode::SFTP(c) => ErrorCode::Sftp(c),
    }
}

/// Relies on std::io::Error::kind: whether the error's kind is `WouldBlock`.
#[verifier::external_body]
pub(crate) fn io_would_block(e: &std::io::Error) -> (r: bool) {
    matches!(e.kind(), std::io::ErrorKind::WouldBlock)
}

impl ErrorCode {
    /// Whether this code reports that the call would block.
    pub fn is_would_block(&self) -> (r: bool)
        ensures
            r == (*self == ErrorCode::Session(would_block_code())),
    {
        let eagain = eagain();
        match self {
            ErrorCode::Session(c) => *c == eagain,
            ErrorCode::Sftp(_) => false,
        }
    }

    /// Whether this code reports the end of a directory listing.
    pub fn is_end_of_listing(&self) -> (r: bool)
        ensures
            r == (*self == ErrorCode::Session(end_of_listing_code())),
    {
        let end = error_file();
        match self {
            ErrorCode::Session(c) => *c == end,
            ErrorCode::Sftp(_) => false,
        }
    }
}

/// Whether an engine error reports that the call would block.
pub fn would_block(e: &ssh2::Error) -> (r: bool)
    ensures
        r == (code_of(*e) == ErrorCode::Session(would_block_code())),
{
    error_code(e).is_would_block()
}

impl AsyncError {
    /// Whether this error is the engine's report that a directory listing has
    /// no entry left, which ends a listing rather than failing it.
    pub fn ends_listing(&self) -> (r: bool)
        ensures
            r == (*self matches AsyncError::SSH2(e) && code_of(e) == ErrorCode::Session(
                end_of_listing_code(),
            )),
    {
        match self {
            AsyncError::SSH2(e) => error_code(e).is_end_of_listing(),
            _ => false,
        }
    }
}

} // verus!

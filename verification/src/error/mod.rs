//! Errors: the result codes a modem reports, as digested from its output,
//! and the errors the library hands to its users.
pub mod cme_error;
pub mod cms_error;
pub mod connection_error;

pub use cme_error::CmeError;
pub use cms_error::CmsError;
pub use connection_error::ConnectionError;

use vstd::prelude::*;

verus! {

/// The decimal digit `d`.
pub open spec fn digit_char(d: nat) -> char {
    if d == 0 {
        '0'
    } else if d == 1 {
        '1'
    } else if d == 2 {
        '2'
    } else if d == 3 {
        '3'
    } else if d == 4 {
        '4'
    } else if d == 5 {
        '5'
    } else if d == 6 {
        '6'
    } else if d == 7 {
        '7'
    } else if d == 8 {
        '8'
    } else {
        '9'
    }
}

/// The decimal notation of `n`, most significant digit first, without
/// leading zeros.
pub open spec fn decimal(n: nat) -> Seq<char>
    decreases n,
{
    if n < 10 {
        seq![digit_char(n)]
    } else {
        decimal(n / 10) + seq![digit_char(n % 10)]
    }
}

/// The text of an error that carries a number: its message, a space and the
/// number in decimal.
pub open spec fn numbered_text(message: Seq<char>, n: nat) -> Seq<char> {
    message + seq![' '] + decimal(n)
}

/// The one-digit string of `d`.
fn digit_str(d: u16) -> (s: &'static str)
    requires
        d < 10,
    ensures
        s@ == seq![digit_char(d as nat)],
{
    proof {
        reveal_strlit("0");
        reveal_strlit("1");
        reveal_strlit("2");
        reveal_strlit("3");
        reveal_strlit("4");
        reveal_strlit("5");
        reveal_strlit("6");
        reveal_strlit("7");
        reveal_strlit("8");
        reveal_strlit("9");
    }
    match d {
        0 => "0",
        1 => "1",
        2 => "2",
        3 => "3",
        4 => "4",
        5 => "5",
        6 => "6",
        7 => "7",
        8 => "8",
        _ => "9",
    }
}

/// Appends the decimal notation of `n` to `s`.
fn push_decimal(s: &mut String, n: u16)
    ensures
        final(s)@ == old(s)@ + decimal(n as nat),
    decreases n,
{
    if n >= 10 {
        push_decimal(s, n / 10);
    }
    s.append(digit_str(n % 10));
    assert(s@ =~= old(s)@ + decimal(n as nat));
}

/// `message`, a space and `n` in decimal, as a `String`.
pub(crate) fn numbered_string(message: &str, n: u16) -> (s: String)
    ensures
        s@ == numbered_text(message@, n as nat),
{
    let mut s = String::from_str(message);
    proof {
        reveal_strlit(" ");
    }
    s.append(" ");
    push_decimal(&mut s, n);
    s
}

/// Errors returned used internally within the crate
#[derive(Clone, Debug, PartialEq, Eq)]
pub enum InternalError<'a> {
    /// Serial read error
    Read,
    /// Serial write error
    Write,
    /// Timed out while waiting for a response
    Timeout,
    /// Invalid response from module
    InvalidResponse,
    /// Command was aborted
    Aborted,
    /// Buffer overflow
    Overflow,
    /// Failed to parse received response
    Parse,
    /// Error response containing any error message
    Error,
    /// GSM Equipment related error
    CmeError(CmeError),
    /// GSM Network related error
    CmsError(CmsError),
    /// Connection Error
    ConnectionError(ConnectionError),
    /// Custom error match
    Custom(&'a [u8]),
}

/// Errors returned by the crate
#[derive(Clone, Debug, PartialEq, Eq, Structural)]
pub enum Error {
    /// Serial read error
    Read,
    /// Serial write error
    Write,
    /// Timed out while waiting for a response
    Timeout,
    /// Invalid response from module
    InvalidResponse,
    /// Command was aborted
    Aborted,
    /// Buffer overflow
    Overflow,
    /// Failed to parse received response
    Parse,
    /// Generic error response without any error message
    Error,
    /// GSM Equipment related error
    CmeError(CmeError),
    /// GSM Network related error
    CmsError(CmsError),
    /// Connection Error
    ConnectionError(ConnectionError),
    /// Error response containing any error message
    Custom,
}

/// The kind of an I/O error, as the embedded I/O traits classify errors.
#[derive(Clone, Copy, Debug, PartialEq, Eq, Structural)]
pub enum ErrorKind {
    /// Unspecified error kind.
    Other,
    /// The connection was reset by the remote side.
    ConnectionReset,
    /// The connection was aborted by the remote side.
    ConnectionAborted,
    /// The network operation failed because it was not connected yet.
    NotConnected,
    /// Data not valid for the operation were encountered.
    InvalidData,
    /// The I/O operation's timeout expired.
    TimedOut,
}

/// The error codes an internal error carries are canonical, so that they
/// survive being sent as numbers.
pub open spec fn internal_error_canonical(e: InternalError) -> bool {
    match e {
        InternalError::CmeError(c) => cme_error::cme_error_canonical(c),
        InternalError::CmsError(c) => cms_error::cms_error_canonical(c),
        _ => true,
    }
}

/// What each internal error becomes when it reaches the user.
pub open spec fn error_from_internal(ie: InternalError) -> Error {
    match ie {
        InternalError::Read => Error::Read,
        InternalError::Write => Error::Write,
        InternalError::Timeout => Error::Timeout,
        InternalError::InvalidResponse => Error::InvalidResponse,
        InternalError::Aborted => Error::Aborted,
        InternalError::Overflow => Error::Overflow,
        InternalError::Parse => Error::Parse,
        InternalError::Error => Error::Error,
        InternalError::CmeError(e) => Error::CmeError(e),
        InternalError::CmsError(e) => Error::CmsError(e),
        InternalError::ConnectionError(e) => Error::ConnectionError(e),
        InternalError::Custom(_) => Error::Custom,
    }
}

/// How each error is classified as an I/O error.
pub open spec fn error_kind(e: Error) -> ErrorKind {
    match e {
        Error::Timeout => ErrorKind::TimedOut,
        Error::InvalidResponse => ErrorKind::InvalidData,
        Error::Aborted => ErrorKind::ConnectionAborted,
        Error::Parse => ErrorKind::InvalidData,
        Error::ConnectionError(c) => match c {
            ConnectionError::Unknown => ErrorKind::NotConnected,
            ConnectionError::NoCarrier => ErrorKind::ConnectionReset,
            ConnectionError::NoDialtone => ErrorKind::NotConnected,
            ConnectionError::Busy => ErrorKind::Other,
            ConnectionError::NoAnswer => ErrorKind::TimedOut,
        },
        _ => ErrorKind::Other,
    }
}

impl Error {
    /// Classifies this error as an I/O error.
    pub fn kind(&self) -> (k: ErrorKind)
        ensures
            k == error_kind(*self),
    {
        match self {
            Self::Timeout => ErrorKind::TimedOut,
            Self::InvalidResponse => ErrorKind::InvalidData,
            Self::Aborted => ErrorKind::ConnectionAborted,
            Self::Parse => ErrorKind::InvalidData,
            Self::ConnectionError(e) => match e {
                ConnectionError::Unknown => ErrorKind::NotConnected,
                ConnectionError::NoCarrier => ErrorKind::ConnectionReset,
                ConnectionError::NoDialtone => ErrorKind::NotConnected,
                ConnectionError::Busy => ErrorKind::Other,
                ConnectionError::NoAnswer => ErrorKind::TimedOut,
            },
            _ => ErrorKind::Other,
        }
    }
}

impl<'a> From<InternalError<'a>> for Error {
    fn from(ie: InternalError<'a>) -> (e: Self)
        ensures
            e == error_from_internal(ie),
    {
        match ie {
            InternalError::Read => Self::Read,
            InternalError::Write => Self::Write,
            InternalError::Timeout => Self::Timeout,
            InternalError::InvalidResponse => Self::InvalidResponse,
            InternalError::Aborted => Self::Aborted,
            InternalError::Overflow => Self::Overflow,
            InternalError::Parse => Self::Parse,
            InternalError::Error => Self::Error,
            InternalError::CmeError(e) => Self::CmeError(e),
            InternalError::CmsError(e) => Self::CmsError(e),
            InternalError::ConnectionError(e) => Self::ConnectionError(e),
            InternalError::Custom(_) => Self::Custom,
        }
    }
}

impl<'a> vstd::std_specs::convert::FromSpecImpl<InternalError<'a>> for Error {
    open spec fn obeys_from_spec() -> bool {
        true
    }

    open spec fn from_spec(ie: InternalError<'a>) -> Self {
        error_from_internal(ie)
    }
}

} // verus!

//! Errors as they travel from the ingress side to the client: each internal
//! error is coded as a leading byte (followed, for a named error, by its
//! message), and turned into the user-facing `Error` on arrival.
use vstd::prelude::*;
use vstd::utf8::valid_utf8;

verus! {

/// Errors returned used internally within the crate
#[derive(Clone, Debug, PartialEq)]
pub enum InternalError<'a> {
    /// Serial read error
    Read,
    /// Serial write error
    Write,
    /// Timed out while waiting for a response
    Timeout,
    /// Invalid response from module
    InvalidResponse,
    /// Command was aborted
    Aborted,
    /// Buffer overflow
    Overflow,
    /// Failed to parse received response
    Parse,
    /// Error response containing any error message
    Error,
    NamedError(&'a [u8], &'a [u8]),
}

/// The leading byte that codes each internal error.
pub open spec fn error_byte(e: InternalError) -> u8 {
    match e {
        InternalError::Read => 0x00,
        InternalError::Write => 0x01,
        InternalError::Timeout => 0x02,
        InternalError::InvalidResponse => 0x03,
        InternalError::Aborted => 0x04,
        InternalError::Overflow => 0x05,
        InternalError::Parse => 0x06,
        InternalError::Error => 0x07,
        InternalError::NamedError(_, _) => 0x08,
    }
}

/// The internal error that a leading byte other than `0x08` codes; unassigned
/// bytes read as `Parse`.
pub open spec fn error_of_byte(b: u8) -> InternalError<'static> {
    if b == 0x00 {
        InternalError::Read
    } else if b == 0x01 {
        InternalError::Write
    } else if b == 0x02 {
        InternalError::Timeout
    } else if b == 0x03 {
        InternalError::InvalidResponse
    } else if b == 0x04 {
        InternalError::Aborted
    } else if b == 0x05 {
        InternalError::Overflow
    } else if b == 0x06 {
        InternalError::Parse
    } else if b == 0x07 {
        InternalError::Error
    } else {
        InternalError::Parse
    }
}

impl<'a> From<(&'a [u8], &'a [u8])> for InternalError<'a> {
    fn from(v: (&'a [u8], &'a [u8])) -> (r: Self)
        ensures
            r == InternalError::NamedError(v.0, v.1),
    {
        Self::NamedError(v.0, v.1)
    }
}

impl<'a> vstd::std_specs::convert::FromSpecImpl<(&'a [u8], &'a [u8])> for InternalError<'a> {
    open spec fn obeys_from_spec() -> bool {
        true
    }

    open spec fn from_spec(v: (&'a [u8], &'a [u8])) -> Self {
        InternalError::NamedError(v.0, v.1)
    }
}

impl<'a> InternalError<'a> {
    /// The leading byte that codes this error.
    pub fn as_byte(&self) -> (b: u8)
        ensures
            b == error_byte(*self),
    {
        match self {
            InternalError::Read => 0x00,
            InternalError::Write => 0x01,
            InternalError::Timeout => 0x02,
            InternalError::InvalidResponse => 0x03,
            InternalError::Aborted => 0x04,
            InternalError::Overflow => 0x05,
            InternalError::Parse => 0x06,
            InternalError::Error => 0x07,
            InternalError::NamedError(_, _) => 0x08,
        }
    }

    /// Decodes a coded error: the leading byte selects the error; a named error
    /// carries the bytes after it as its message (and an empty tag).
    pub fn from_bytes(b: &'a [u8]) -> (r: Self)
        requires
            b@.len() >= 1,
        ensures
            b@[0] != 0x08 ==> r == error_of_byte(b@[0]),
            b@[0] == 0x08 ==> (r matches InternalError::NamedError(t, m) && t@.len() == 0 && m@
                == b@.subrange(1, b@.len() as int)),
    {
        let empty: &[u8] = &b[0..0];
        match b[0] {
            0x00 => InternalError::Read,
            0x01 => InternalError::Write,
            0x02 => InternalError::Timeout,
            0x03 => InternalError::InvalidResponse,
            0x04 => InternalError::Aborted,
            0x05 => InternalError::Overflow,
            0x06 => InternalError::Parse,
            0x07 => InternalError::Error,
            0x08 => {
                if b.len() > 1 {
                    InternalError::NamedError(empty, &b[1..b.len()])
                } else {
                    assert(b@.subrange(1, b@.len() as int).len() == 0);
                    InternalError::NamedError(empty, &b[1..1])
                }
            },
            _ => InternalError::Parse,
        }
    }
}

/// Coding an internal error other than a named one as its leading byte and
/// decoding that byte gives the error back.
pub proof fn lemma_error_byte_roundtrip(e: InternalError)
    requires
        !(e is NamedError),
    ensures
        error_of_byte(error_byte(e)) == e,
{
}

/// A generic error response, for commands whose errors carry no detail.
#[derive(Debug, Clone, Copy, PartialEq, Eq, PartialOrd, Ord, Structural)]
pub struct GenericError;

impl core::str::FromStr for GenericError {
    type Err = core::convert::Infallible;

    fn from_str(_s: &str) -> (r: Result<Self, Self::Err>)
        ensures
            r == Ok::<GenericError, core::convert::Infallible>(GenericError),
    {
        Ok(GenericError)
    }
}

/// Errors returned by the crate
#[derive(Clone, Debug, PartialEq)]
pub enum Error<E = GenericError> {
    /// Serial read error
    Read,
    /// Serial write error
    Write,
    /// Timed out while waiting for a response
    Timeout,
    /// Invalid response from module
    InvalidResponse,
    /// Command was aborted
    Aborted,
    /// Buffer overflow
    Overflow,
    /// Failed to parse received response
    Parse,
    /// Generic error response without any error message
    Error,
    /// Error response containing any error message
    NamedError(E),
}

/// Calls `core::str::from_utf8` and reports whether it accepted `b`, which it
/// does exactly when `b` is well-formed UTF-8 (vstd's `valid_utf8`: each
/// scalar in its shortest encoding, no surrogates, nothing above U+10FFFF).
#[verifier::external_body]
pub(crate) fn utf8_valid(b: &[u8]) -> (r: bool)
    ensures
        r == valid_utf8(b@),
{
    core::str::from_utf8(b).is_ok()
}

/// What a named error becomes for the user when its message is `msg`: a
/// `GenericError` if the message is text, `Parse` otherwise.
pub open spec fn generic_error_of(ie: InternalError) -> Error<GenericError> {
    match ie {
        InternalError::Read => Error::Read,
        InternalError::Write => Error::Write,
        InternalError::Timeout => Error::Timeout,
        InternalError::InvalidResponse => Error::InvalidResponse,
        InternalError::Aborted => Error::Aborted,
        InternalError::Overflow => Error::Overflow,
        InternalError::Parse => Error::Parse,
        InternalError::Error => Error::Error,
        InternalError::NamedError(_, m) => if valid_utf8(m@) {
            Error::NamedError(GenericError)
        } else {
            Error::Parse
        },
    }
}

impl<'a> From<InternalError<'a>> for Error<GenericError> {
    fn from(ie: InternalError<'a>) -> (r: Self)
        ensures
            r == generic_error_of(ie),
    {
        match ie {
            InternalError::Read => Self::Read,
            InternalError::Write => Self::Write,
            InternalError::Timeout => Self::Timeout,
            InternalError::InvalidResponse => Self::InvalidResponse,
            InternalError::Aborted => Self::Aborted,
            InternalError::Overflow => Self::Overflow,
            InternalError::Parse => Self::Parse,
            InternalError::Error => Self::Error,
            InternalError::NamedError(_t, e) => {
                if utf8_valid(e) {
                    return Self::NamedError(GenericError);
                }
                Self::Parse
            },
        }
    }
}

impl<'a> vstd::std_specs::convert::FromSpecImpl<InternalError<'a>> for Error<GenericError> {
    open spec fn obeys_from_spec() -> bool {
        true
    }

    open spec fn from_spec(ie: InternalError<'a>) -> Self {
        generic_error_of(ie)
    }
}

} // verus!

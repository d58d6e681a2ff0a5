//! Frames: the form in which responses travel from the ingress to the client
//! through a byte queue, and the bound on their encoded size.
use crate::error::cme_error::{cme_error_code, cme_error_from_code};
use crate::error::cms_error::{cms_error_code, cms_error_from_code};
use crate::error::connection_error::{connection_error_code, connection_error_from_code};
use crate::error::cme_error::lemma_cme_error_canonical_roundtrip;
use crate::error::cms_error::lemma_cms_error_canonical_roundtrip;
use crate::error::connection_error::lemma_connection_error_code_roundtrip;
use crate::error::{internal_error_canonical, CmeError, CmsError, ConnectionError, InternalError};
use vstd::prelude::*;

verus! {

#[derive(Debug, Clone, Copy, PartialEq)]
pub enum Frame<'a> {
    Response(&'a [u8]),
    Prompt(u8),
    ReadError,
    WriteError,
    TimeoutError,
    InvalidResponseError,
    AbortedError,
    OverflowError,
    ParseError,
    OtherError,
    CmeError(u16),
    CmsError(u16),
    ConnectionError(u8),
    CustomError(&'a [u8]),
}

/// A response as the client receives it: a result, or a prompt for data.
#[derive(Debug, PartialEq)]
pub enum Response<'a> {
    Result(Result<&'a [u8], InternalError<'a>>),
    Prompt(u8),
}

/// Bytes taken by a length or number in variable-length integer encoding:
/// one below 251, three (a marker and two bytes) up to 65535.
pub open spec fn varint_len(n: nat) -> nat {
    if n < 251 {
        1
    } else {
        3
    }
}

/// The slices a frame carries fit the two-byte length encoding.
pub open spec fn frame_fits(f: Frame) -> bool {
    match f {
        Frame::Response(b) => b@.len() < 65536,
        Frame::CustomError(b) => b@.len() < 65536,
        _ => true,
    }
}

/// A frame that can be enqueued: its slices fit the two-byte length encoding,
/// and it is not a connection error, whose code does not fit in the
/// `max_len` bytes granted for it.
pub open spec fn frame_encodable(f: Frame) -> bool {
    frame_fits(f) && !(f is ConnectionError)
}

/// Upper bound on the encoded size of a frame: the one-byte discriminator and
/// the payload.
pub open spec fn frame_max_len(f: Frame) -> nat {
    1 + match f {
        Frame::Response(b) => varint_len(b@.len()) + b@.len(),
        Frame::Prompt(p) => varint_len(p as nat),
        Frame::CmeError(e) => varint_len(e as nat),
        Frame::CmsError(e) => varint_len(e as nat),
        Frame::CustomError(b) => varint_len(b@.len()) + b@.len(),
        _ => 0,
    }
}

pub(crate) fn variable_int_encoding_length(len: usize) -> (n: usize)
    requires
        len < 65536,
    ensures
        n == varint_len(len as nat),
{
    if len < 251 {
        1
    } else {
        1 + 2
    }
}

impl<'a> Frame<'a> {
    /// Upper bound on the number of bytes this frame takes when encoded.
    pub fn max_len(&self) -> (n: usize)
        requires
            frame_fits(*self),
        ensures
            n == frame_max_len(*self),
    {
        // the enum discriminator is 1 byte when variable int encoding is used
        1 + match self {
            Frame::Response(b) => variable_int_encoding_length(b.len()) + b.len(),
            Frame::Prompt(p) => variable_int_encoding_length(*p as usize),
            Frame::CmeError(e) => variable_int_encoding_length(*e as usize),
            Frame::CmsError(e) => variable_int_encoding_length(*e as usize),
            Frame::CustomError(b) => variable_int_encoding_length(b.len()) + b.len(),
            _ => 0,
        }
    }
}

/// A length or number in variable-length integer encoding, little endian:
/// one byte below 251, otherwise the marker 251 and two bytes.
pub open spec fn varint_bytes(n: nat) -> Seq<u8> {
    if n < 251 {
        seq![n as u8]
    } else {
        seq![251u8, (n % 256) as u8, (n / 256) as u8]
    }
}

/// A variant index followed by a byte string and its length before it.
pub open spec fn tagged_bytes(tag: u8, b: Seq<u8>) -> Seq<u8> {
    seq![tag] + varint_bytes(b.len()) + b
}

/// The bytes a frame is encoded as: its variant index (its place in the
/// declaration of `Frame`), then its field.
pub open spec fn frame_bytes(f: Frame) -> Seq<u8> {
    match f {
        Frame::Response(b) => tagged_bytes(0, b@),
        Frame::Prompt(p) => seq![1u8, p],
        Frame::ReadError => seq![2u8],
        Frame::WriteError => seq![3u8],
        Frame::TimeoutError => seq![4u8],
        Frame::InvalidResponseError => seq![5u8],
        Frame::AbortedError => seq![6u8],
        Frame::OverflowError => seq![7u8],
        Frame::ParseError => seq![8u8],
        Frame::OtherError => seq![9u8],
        Frame::CmeError(e) => seq![10u8] + varint_bytes(e as nat),
        Frame::CmsError(e) => seq![11u8] + varint_bytes(e as nat),
        Frame::ConnectionError(e) => seq![12u8, e],
        Frame::CustomError(b) => tagged_bytes(13, b@),
    }
}

/// The frame that carries an internal error.
pub open spec fn frame_of_error<'a>(e: InternalError<'a>) -> Frame<'a> {
    match e {
        InternalError::Read => Frame::ReadError,
        InternalError::Write => Frame::WriteError,
        InternalError::Timeout => Frame::TimeoutError,
        InternalError::InvalidResponse => Frame::InvalidResponseError,
        InternalError::Aborted => Frame::AbortedError,
        InternalError::Overflow => Frame::OverflowError,
        InternalError::Parse => Frame::ParseError,
        InternalError::Error => Frame::OtherError,
        InternalError::CmeError(c) => Frame::CmeError(cme_error_code(c)),
        InternalError::CmsError(c) => Frame::CmsError(cms_error_code(c)),
        InternalError::ConnectionError(c) => Frame::ConnectionError(connection_error_code(c)),
        InternalError::Custom(b) => Frame::CustomError(b),
    }
}

/// The frame that carries a digested result.
pub open spec fn frame_of_result<'a>(r: Result<&'a [u8], InternalError<'a>>) -> Frame<'a> {
    match r {
        Ok(slice) => Frame::Response(slice),
        Err(e) => frame_of_error(e),
    }
}

/// What the client reads out of a frame.
pub open spec fn response_of_frame<'a>(f: Frame<'a>) -> Response<'a> {
    match f {
        Frame::Response(slice) => Response::Result(Ok(slice)),
        Frame::Prompt(value) => Response::Prompt(value),
        Frame::ReadError => Response::Result(Err(InternalError::Read)),
        Frame::WriteError => Response::Result(Err(InternalError::Write)),
        Frame::TimeoutError => Response::Result(Err(InternalError::Timeout)),
        Frame::InvalidResponseError => Response::Result(Err(InternalError::InvalidResponse)),
        Frame::AbortedError => Response::Result(Err(InternalError::Aborted)),
        Frame::OverflowError => Response::Result(Err(InternalError::Overflow)),
        Frame::ParseError => Response::Result(Err(InternalError::Parse)),
        Frame::OtherError => Response::Result(Err(InternalError::Error)),
        Frame::CmeError(e) => Response::Result(Err(InternalError::CmeError(cme_error_from_code(e)))),
        Frame::CmsError(e) => Response::Result(Err(InternalError::CmsError(cms_error_from_code(e)))),
        Frame::ConnectionError(e) => Response::Result(
            Err(InternalError::ConnectionError(connection_error_from_code(e))),
        ),
        Frame::CustomError(e) => Response::Result(Err(InternalError::Custom(e))),
    }
}

impl<'a> From<InternalError<'a>> for Frame<'a> {
    fn from(v: InternalError<'a>) -> (f: Self)
        ensures
            f == frame_of_error(v),
    {
        match v {
            InternalError::Read => Frame::ReadError,
            InternalError::Write => Frame::WriteError,
            InternalError::Timeout => Frame::TimeoutError,
            InternalError::InvalidResponse => Frame::InvalidResponseError,
            InternalError::Aborted => Frame::AbortedError,
            InternalError::Overflow => Frame::OverflowError,
            InternalError::Parse => Frame::ParseError,
            InternalError::Error => Frame::OtherError,
            InternalError::CmeError(e) => Frame::CmeError(u16::from(e)),
            InternalError::CmsError(e) => Frame::CmsError(u16::from(e)),
            InternalError::ConnectionError(e) => Frame::ConnectionError(u8::from(e)),
            InternalError::Custom(e) => Frame::CustomError(e),
        }
    }
}

impl<'a> vstd::std_specs::convert::FromSpecImpl<InternalError<'a>> for Frame<'a> {
    open spec fn obeys_from_spec() -> bool {
        true
    }

    open spec fn from_spec(v: InternalError<'a>) -> Self {
        frame_of_error(v)
    }
}

impl<'a> From<Result<&'a [u8], InternalError<'a>>> for Frame<'a> {
    fn from(value: Result<&'a [u8], InternalError<'a>>) -> (f: Self)
        ensures
            f == frame_of_result(value),
    {
        match value {
            Ok(slice) => Frame::Response(slice),
            Err(error) => Frame::from(error),
        }
    }
}

impl<'a> vstd::std_specs::convert::FromSpecImpl<Result<&'a [u8], InternalError<'a>>> for Frame<'a> {
    open spec fn obeys_from_spec() -> bool {
        true
    }

    open spec fn from_spec(value: Result<&'a [u8], InternalError<'a>>) -> Self {
        frame_of_result(value)
    }
}

impl<'a> From<Frame<'a>> for Response<'a> {
    fn from(value: Frame<'a>) -> (r: Self)
        ensures
            r == response_of_frame(value),
    {
        match value {
            Frame::Response(slice) => Self::Result(Ok(slice)),
            Frame::Prompt(value) => Self::Prompt(value),
            Frame::ReadError => Self::Result(Err(InternalError::Read)),
            Frame::WriteError => Self::Result(Err(InternalError::Write)),
            Frame::TimeoutError => Self::Result(Err(InternalError::Timeout)),
            Frame::InvalidResponseError => Self::Result(Err(InternalError::InvalidResponse)),
            Frame::AbortedError => Self::Result(Err(InternalError::Aborted)),
            Frame::OverflowError => Self::Result(Err(InternalError::Overflow)),
            Frame::ParseError => Self::Result(Err(InternalError::Parse)),
            Frame::OtherError => Self::Result(Err(InternalError::Error)),
            Frame::CmeError(e) => Self::Result(Err(InternalError::CmeError(CmeError::from(e)))),
            Frame::CmsError(e) => Self::Result(Err(InternalError::CmsError(CmsError::from(e)))),
            Frame::ConnectionError(e) => Self::Result(
                Err(InternalError::ConnectionError(ConnectionError::from(e))),
            ),
            Frame::CustomError(e) => Self::Result(Err(InternalError::Custom(e))),
        }
    }
}

impl<'a> vstd::std_specs::convert::FromSpecImpl<Frame<'a>> for Response<'a> {
    open spec fn obeys_from_spec() -> bool {
        true
    }

    open spec fn from_spec(value: Frame<'a>) -> Self {
        response_of_frame(value)
    }
}

/// A digested result survives the trip through a frame: the client reads
/// back exactly the result that was framed, provided its error codes are
/// canonical.
pub proof fn lemma_frame_roundtrip<'a>(r: Result<&'a [u8], InternalError<'a>>)
    requires
        r matches Err(e) ==> internal_error_canonical(e),
    ensures
        response_of_frame(frame_of_result(r)) == Response::Result(r),
{
    if let Err(e) = r {
        match e {
            InternalError::CmeError(c) => lemma_cme_error_canonical_roundtrip(c),
            InternalError::CmsError(c) => lemma_cms_error_canonical_roundtrip(c),
            InternalError::ConnectionError(c) => lemma_connection_error_code_roundtrip(c),
            _ => {},
        }
    }
}

/// A prompt survives the trip through a frame.
pub proof fn lemma_frame_prompt(p: u8)
    ensures
        response_of_frame(Frame::Prompt(p)) == Response::Prompt(p),
{
}

/// A frame's encoding takes at most `max_len` bytes, except a connection
/// error's, which takes one byte more: its code is not counted.
pub proof fn lemma_frame_bytes_len(f: Frame)
    requires
        frame_fits(f),
    ensures
        !(f is ConnectionError) ==> frame_bytes(f).len() <= frame_max_len(f),
        f is ConnectionError ==> frame_bytes(f).len() == frame_max_len(f) + 1,
{
}

} // verus!

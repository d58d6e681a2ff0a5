//! Response messages as the ingress publishes them to the client over a
//! channel: owned copies of what the digester found, bounded by the ingress
//! buffer size `N`.
use crate::error::{CmeError, CmsError, ConnectionError, InternalError};
use crate::error::cme_error::cme_error_from_code;
use crate::error::cms_error::cms_error_from_code;
use crate::error::connection_error::connection_error_from_code;
use crate::frame::Response;
use crate::response::{error_fits, result_fits, view_of_error, view_of_result, ResponseView};
use vstd::prelude::*;
use vstd::slice::slice_to_vec;

verus! {

/// A response message held by value. The byte payloads hold at most `N` bytes.
#[derive(Debug, Clone, PartialEq)]
pub enum ResMessage<const N: usize> {
    Response(Vec<u8>),
    Prompt(u8),
    ReadError,
    WriteError,
    TimeoutError,
    InvalidResponseError,
    AbortedError,
    OverflowError,
    ParseError,
    OtherError,
    CmeError(u16),
    CmsError(u16),
    ConnectionError(u8),
    CustomError(Vec<u8>),
}

impl<const N: usize> View for ResMessage<N> {
    type V = ResponseView;

    open spec fn view(&self) -> ResponseView {
        match self {
            ResMessage::Response(v) => ResponseView::Success(v@),
            ResMessage::Prompt(p) => ResponseView::Prompt(*p),
            ResMessage::ReadError => ResponseView::ReadError,
            ResMessage::WriteError => ResponseView::WriteError,
            ResMessage::TimeoutError => ResponseView::TimeoutError,
            ResMessage::InvalidResponseError => ResponseView::InvalidResponseError,
            ResMessage::AbortedError => ResponseView::AbortedError,
            ResMessage::OverflowError => ResponseView::OverflowError,
            ResMessage::ParseError => ResponseView::ParseError,
            ResMessage::OtherError => ResponseView::OtherError,
            ResMessage::CmeError(c) => ResponseView::CmeError(*c),
            ResMessage::CmsError(c) => ResponseView::CmsError(*c),
            ResMessage::ConnectionError(c) => ResponseView::ConnectionError(*c),
            ResMessage::CustomError(v) => ResponseView::CustomError(v@),
        }
    }
}

/// What the client reads out of a message: the response as it was stored,
/// with numbers decoded into error codes.
pub open spec fn reads_as(v: ResponseView, r: Response) -> bool {
    match v {
        ResponseView::Prompt(p) => r == Response::Prompt(p),
        ResponseView::CmeError(c) => r == Response::Result(
            Err(InternalError::CmeError(cme_error_from_code(c))),
        ),
        ResponseView::CmsError(c) => r == Response::Result(
            Err(InternalError::CmsError(cms_error_from_code(c))),
        ),
        ResponseView::ConnectionError(c) => r == Response::Result(
            Err(InternalError::ConnectionError(connection_error_from_code(c))),
        ),
        _ => r matches Response::Result(x) && view_of_result(x) == v,
    }
}

impl<const N: usize> ResMessage<N> {
    /// A response message holding a copy of `value`.
    pub fn response(value: &[u8]) -> (r: Self)
        requires
            value@.len() <= N,
        ensures
            r@ == ResponseView::Success(value@),
    {
        ResMessage::Response(slice_to_vec(value))
    }

    /// The message for an internal error.
    pub fn from_error(v: InternalError) -> (r: Self)
        requires
            error_fits(v, N as nat),
        ensures
            r@ == view_of_error(v),
    {
        match v {
            InternalError::Read => ResMessage::ReadError,
            InternalError::Write => ResMessage::WriteError,
            InternalError::Timeout => ResMessage::TimeoutError,
            InternalError::InvalidResponse => ResMessage::InvalidResponseError,
            InternalError::Aborted => ResMessage::AbortedError,
            InternalError::Overflow => ResMessage::OverflowError,
            InternalError::Parse => ResMessage::ParseError,
            InternalError::Error => ResMessage::OtherError,
            InternalError::CmeError(e) => ResMessage::CmeError(u16::from(e)),
            InternalError::CmsError(e) => ResMessage::CmsError(u16::from(e)),
            InternalError::ConnectionError(e) => ResMessage::ConnectionError(u8::from(e)),
            InternalError::Custom(e) => ResMessage::CustomError(slice_to_vec(e)),
        }
    }

    /// The message for a digested result.
    pub fn from_result(value: Result<&[u8], InternalError>) -> (r: Self)
        requires
            result_fits(value, N as nat),
        ensures
            r@ == view_of_result(value),
    {
        match value {
            Ok(slice) => ResMessage::Response(slice_to_vec(slice)),
            Err(error) => Self::from_error(error),
        }
    }

    /// Reads the message as a response.
    pub fn as_response(&self) -> (r: Response<'_>)
        ensures
            reads_as(self@, r),
    {
        match self {
            ResMessage::Response(slice) => Response::Result(Ok(slice.as_slice())),
            ResMessage::Prompt(value) => Response::Prompt(*value),
            ResMessage::ReadError => Response::Result(Err(InternalError::Read)),
            ResMessage::WriteError => Response::Result(Err(InternalError::Write)),
            ResMessage::TimeoutError => Response::Result(Err(InternalError::Timeout)),
            ResMessage::InvalidResponseError => Response::Result(Err(InternalError::InvalidResponse)),
            ResMessage::AbortedError => Response::Result(Err(InternalError::Aborted)),
            ResMessage::OverflowError => Response::Result(Err(InternalError::Overflow)),
            ResMessage::ParseError => Response::Result(Err(InternalError::Parse)),
            ResMessage::OtherError => Response::Result(Err(InternalError::Error)),
            ResMessage::CmeError(e) => Response::Result(
                Err(InternalError::CmeError(CmeError::from(*e))),
            ),
            ResMessage::CmsError(e) => Response::Result(
                Err(InternalError::CmsError(CmsError::from(*e))),
            ),
            ResMessage::ConnectionError(e) => Response::Result(
                Err(InternalError::ConnectionError(ConnectionError::from(*e))),
            ),
            ResMessage::CustomError(e) => Response::Result(Err(InternalError::Custom(e.as_slice()))),
        }
    }
}

} // verus!

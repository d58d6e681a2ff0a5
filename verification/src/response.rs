//! Responses as the ingress stores them for the client: owned copies of what
//! the digester found, bounded by the ingress buffer size `N`.
use crate::error::cme_error::{
    cme_error_code, cme_error_from_code, lemma_cme_error_canonical_roundtrip,
    lemma_cme_error_code_of_decoded,
};
use crate::error::cms_error::{
    cms_error_code, cms_error_from_code, lemma_cms_error_canonical_roundtrip,
    lemma_cms_error_code_of_decoded,
};
use crate::error::connection_error::{
    connection_error_code, connection_error_from_code, lemma_connection_error_code_roundtrip,
};
use crate::error::{internal_error_canonical, CmeError, CmsError, ConnectionError, InternalError};
use vstd::prelude::*;
use vstd::slice::slice_to_vec;

verus! {

/// A response held by value. The byte payloads hold at most `N` bytes.
#[derive(Debug, Clone, PartialEq)]
pub enum Response<const N: usize> {
    Success(Vec<u8>),
    Prompt(u8),
    ReadError,
    WriteError,
    TimeoutError,
    InvalidResponseError,
    AbortedError,
    OverflowError,
    ParseError,
    OtherError,
    CmeError(u16),
    CmsError(u16),
    ConnectionError(u8),
    CustomError(Vec<u8>),
}

/// The value of a stored response, with its byte payloads seen as sequences.
pub enum ResponseView {
    Success(Seq<u8>),
    Prompt(u8),
    ReadError,
    WriteError,
    TimeoutError,
    InvalidResponseError,
    AbortedError,
    OverflowError,
    ParseError,
    OtherError,
    CmeError(u16),
    CmsError(u16),
    ConnectionError(u8),
    CustomError(Seq<u8>),
}

impl<const N: usize> View for Response<N> {
    type V = ResponseView;

    open spec fn view(&self) -> ResponseView {
        match self {
            Response::Success(v) => ResponseView::Success(v@),
            Response::Prompt(p) => ResponseView::Prompt(*p),
            Response::ReadError => ResponseView::ReadError,
            Response::WriteError => ResponseView::WriteError,
            Response::TimeoutError => ResponseView::TimeoutError,
            Response::InvalidResponseError => ResponseView::InvalidResponseError,
            Response::AbortedError => ResponseView::AbortedError,
            Response::OverflowError => ResponseView::OverflowError,
            Response::ParseError => ResponseView::ParseError,
            Response::OtherError => ResponseView::OtherError,
            Response::CmeError(c) => ResponseView::CmeError(*c),
            Response::CmsError(c) => ResponseView::CmsError(*c),
            Response::ConnectionError(c) => ResponseView::ConnectionError(*c),
            Response::CustomError(v) => ResponseView::CustomError(v@),
        }
    }
}

/// The byte payloads of `v` hold at most `n` bytes.
pub open spec fn view_fits(v: ResponseView, n: nat) -> bool {
    match v {
        ResponseView::Success(d) => d.len() <= n,
        ResponseView::CustomError(d) => d.len() <= n,
        _ => true,
    }
}

/// The stored form of an internal error: error codes become numbers.
pub open spec fn view_of_error(e: InternalError) -> ResponseView {
    match e {
        InternalError::Read => ResponseView::ReadError,
        InternalError::Write => ResponseView::WriteError,
        InternalError::Timeout => ResponseView::TimeoutError,
        InternalError::InvalidResponse => ResponseView::InvalidResponseError,
        InternalError::Aborted => ResponseView::AbortedError,
        InternalError::Overflow => ResponseView::OverflowError,
        InternalError::Parse => ResponseView::ParseError,
        InternalError::Error => ResponseView::OtherError,
        InternalError::CmeError(c) => ResponseView::CmeError(cme_error_code(c)),
        InternalError::CmsError(c) => ResponseView::CmsError(cms_error_code(c)),
        InternalError::ConnectionError(c) => ResponseView::ConnectionError(connection_error_code(c)),
        InternalError::Custom(b) => ResponseView::CustomError(b@),
    }
}

/// The stored form of a digested result.
pub open spec fn view_of_result(r: Result<&[u8], InternalError>) -> ResponseView {
    match r {
        Ok(d) => ResponseView::Success(d@),
        Err(e) => view_of_error(e),
    }
}

/// The payloads of an internal error hold at most `n` bytes.
pub open spec fn error_fits(e: InternalError, n: nat) -> bool {
    match e {
        InternalError::Custom(b) => b@.len() <= n,
        _ => true,
    }
}

/// The payloads of a digested result hold at most `n` bytes.
pub open spec fn result_fits(r: Result<&[u8], InternalError>, n: nat) -> bool {
    match r {
        Ok(d) => d@.len() <= n,
        Err(e) => error_fits(e, n),
    }
}

/// What the client reads back out of a stored response: a prompt reads as an
/// empty success, numbers are decoded into error codes, and everything else
/// is read as it was stored.
pub open spec fn reads_back(v: ResponseView, r: Result<&[u8], InternalError>) -> bool {
    match v {
        ResponseView::Prompt(_) => r matches Ok(d) && d@.len() == 0,
        ResponseView::CmeError(c) => r == Err::<&[u8], InternalError>(
            InternalError::CmeError(cme_error_from_code(c)),
        ),
        ResponseView::CmsError(c) => r == Err::<&[u8], InternalError>(
            InternalError::CmsError(cms_error_from_code(c)),
        ),
        ResponseView::ConnectionError(c) => r == Err::<&[u8], InternalError>(
            InternalError::ConnectionError(connection_error_from_code(c)),
        ),
        _ => view_of_result(r) == v,
    }
}

impl<const N: usize> Response<N> {
    /// A success response holding a copy of `value`.
    pub fn ok(value: &[u8]) -> (r: Self)
        requires
            value@.len() <= N,
        ensures
            r@ == ResponseView::Success(value@),
    {
        Response::Success(slice_to_vec(value))
    }

    /// The stored form of an internal error.
    pub fn from_error(v: InternalError) -> (r: Self)
        requires
            error_fits(v, N as nat),
        ensures
            r@ == view_of_error(v),
    {
        match v {
            InternalError::Read => Response::ReadError,
            InternalError::Write => Response::WriteError,
            InternalError::Timeout => Response::TimeoutError,
            InternalError::InvalidResponse => Response::InvalidResponseError,
            InternalError::Aborted => Response::AbortedError,
            InternalError::Overflow => Response::OverflowError,
            InternalError::Parse => Response::ParseError,
            InternalError::Error => Response::OtherError,
            InternalError::CmeError(e) => Response::CmeError(u16::from(e)),
            InternalError::CmsError(e) => Response::CmsError(u16::from(e)),
            InternalError::ConnectionError(e) => Response::ConnectionError(u8::from(e)),
            InternalError::Custom(e) => Response::CustomError(slice_to_vec(e)),
        }
    }

    /// The stored form of a digested result.
    pub fn from_result(value: Result<&[u8], InternalError>) -> (r: Self)
        requires
            result_fits(value, N as nat),
        ensures
            r@ == view_of_result(value),
    {
        match value {
            Ok(slice) => Response::Success(slice_to_vec(slice)),
            Err(error) => Self::from_error(error),
        }
    }

    /// Reads the response back as a result.
    pub fn as_result(&self) -> (r: Result<&[u8], InternalError<'_>>)
        ensures
            reads_back(self@, r),
    {
        match self {
            Response::Success(slice) => Ok(slice.as_slice()),
            Response::Prompt(_) => Ok(&[]),
            Response::ReadError => Err(InternalError::Read),
            Response::WriteError => Err(InternalError::Write),
            Response::TimeoutError => Err(InternalError::Timeout),
            Response::InvalidResponseError => Err(InternalError::InvalidResponse),
            Response::AbortedError => Err(InternalError::Aborted),
            Response::OverflowError => Err(InternalError::Overflow),
            Response::ParseError => Err(InternalError::Parse),
            Response::OtherError => Err(InternalError::Error),
            Response::CmeError(e) => Err(InternalError::CmeError(CmeError::from(*e))),
            Response::CmsError(e) => Err(InternalError::CmsError(CmsError::from(*e))),
            Response::ConnectionError(e) => Err(
                InternalError::ConnectionError(ConnectionError::from(*e)),
            ),
            Response::CustomError(e) => Err(InternalError::Custom(e.as_slice())),
        }
    }
}

impl<const N: usize> Default for Response<N> {
    fn default() -> (r: Self)
        ensures
            r@ == ResponseView::Success(Seq::empty()),
    {
        Response::Success(Vec::new())
    }
}

/// Storing a result and reading it back gives the result again, up to the
/// decoding of error codes: a code is read back as the error it stands for.
pub proof fn lemma_store_read_back<'a, 'b>(
    r: Result<&'a [u8], InternalError<'a>>,
    back: Result<&'b [u8], InternalError<'b>>,
)
    requires
        reads_back(view_of_result(r), back),
    ensures
        view_of_result(back) == view_of_result(r),
{
    if let Err(e) = r {
        match e {
            InternalError::CmeError(c) => lemma_cme_error_code_of_decoded(cme_error_code(c)),
            InternalError::CmsError(c) => lemma_cms_error_code_of_decoded(cms_error_code(c)),
            InternalError::ConnectionError(c) => lemma_connection_error_code_roundtrip(c),
            _ => {},
        }
    }
}

/// Storing a result and reading it back gives the same result. `back` is
/// what `as_result` reads out of `Response::from_result(r)` (whose view is
/// `view_of_result(r)`; `as_result` ensures `reads_back`): the same bytes for
/// a success or a custom error, and the same error otherwise, provided its
/// error code is canonical (a code that names an error reads back as that
/// error, not as a reserved number).
pub proof fn lemma_store_read_back_exact<'a>(
    r: Result<&'a [u8], InternalError<'a>>,
    back: Result<&'a [u8], InternalError<'a>>,
)
    requires
        reads_back(view_of_result(r), back),
        r matches Err(e) ==> internal_error_canonical(e),
    ensures
        r matches Ok(s) ==> back matches Ok(d) && d@ == s@,
        r matches Err(InternalError::Custom(c)) ==> back matches Err(InternalError::Custom(d))
            && d@ == c@,
        r matches Err(e) ==> (!(e is Custom) ==> back == r),
{
    if let Err(e) = r {
        match e {
            InternalError::CmeError(c) => lemma_cme_error_canonical_roundtrip(c),
            InternalError::CmsError(c) => lemma_cms_error_canonical_roundtrip(c),
            InternalError::ConnectionError(c) => lemma_connection_error_code_roundtrip(c),
            _ => {},
        }
    }
}

/// Reading back a stored result gives the result that was stored: for
/// `stored` built by `Response::from_result(r)` (so `stored@ ==
/// view_of_result(r)`) and `back` read out of it by `as_result` (so
/// `reads_back(stored@, back)`), a success reads back as the same bytes, a
/// custom error as the same message, and any other error as itself, provided
/// its error code is canonical.
pub proof fn lemma_response_round_trip<'a, const N: usize>(
    r: Result<&'a [u8], InternalError<'a>>,
    stored: Response<N>,
    back: Result<&'a [u8], InternalError<'a>>,
)
    requires
        stored@ == view_of_result(r),
        reads_back(stored@, back),
        r matches Err(e) ==> internal_error_canonical(e),
    ensures
        r matches Ok(s) ==> back matches Ok(d) && d@ == s@,
        r matches Err(InternalError::Custom(c)) ==> back matches Err(InternalError::Custom(d))
            && d@ == c@,
        r matches Err(e) ==> (!(e is Custom) ==> back == r),
{
    lemma_store_read_back_exact(r, back);
}

} // verus!

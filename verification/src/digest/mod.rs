//! The digester: splits what a modem sends into echoes, responses, prompts,
//! error result codes and unsolicited result codes (URCs).
//!
//! The buffer can contain ('...' meaning arbitrary data):
//! - '...AT\<CMD>\r\r\n\<RESPONSE>\r\n\<RESPONSE CODE>\r\n...'             (Echo enabled)
//! - '...AT\<CMD>\r\r\n\<CMD>: \<PARAMETERS>\r\n\<RESPONSE CODE>\r\n...'   (Echo enabled)
//! - '...AT\<CMD>\r\r\n\<RESPONSE CODE>\r\n...'                            (Echo enabled)
//! - '...\<CMD>:\<PARAMETERS>\r\n\<RESPONSE CODE>\r\n...'                  (Echo disabled)
//! - '...\<RESPONSE>\r\n\<RESPONSE CODE>\r\n...'                           (Echo disabled)
//! - '...\<URC>\r\n...'                                                    (Unsolicited response code)
//! - '...\<URC>:\<PARAMETERS>\r\n...'                                      (Unsolicited response code)
//! - '...\<PROMPT>'                                                        (Prompt for data)
pub mod parser;

use crate::error::InternalError;
use core::marker::PhantomData;
use parser::{spec_digest, ParseError};
use vstd::prelude::*;

verus! {

/// What one step of digesting found at the start of the buffer.
#[derive(Debug, PartialEq)]
pub enum DigestResult<'a> {
    Urc(&'a [u8]),
    Response(Result<&'a [u8], InternalError<'a>>),
    Prompt(u8),
    /// Nothing was found; the consumed bytes, if any, were an echo.
    Nothing,
}

/// The value of a `DigestResult`, with byte slices seen as sequences.
pub enum DigestOutcome {
    Nothing,
    Urc(Seq<u8>),
    Prompt(u8),
    Response(Seq<u8>),
    Failure(InternalError<'static>),
}

impl<'a> DigestResult<'a> {
    /// This result carries the value `o`.
    pub open spec fn is_outcome(self, o: DigestOutcome) -> bool {
        match self {
            DigestResult::Nothing => o is Nothing,
            DigestResult::Urc(u) => o matches DigestOutcome::Urc(v) && u@ == v,
            DigestResult::Prompt(p) => o matches DigestOutcome::Prompt(q) && p == q,
            DigestResult::Response(Ok(x)) => o matches DigestOutcome::Response(v) && x@ == v,
            DigestResult::Response(Err(e)) => o matches DigestOutcome::Failure(f) && e == f,
        }
    }
}

/// The payloads that an outcome carries are no longer than `n` bytes.
pub open spec fn outcome_fits(o: DigestOutcome, n: nat) -> bool {
    match o {
        DigestOutcome::Urc(u) => u.len() <= n,
        DigestOutcome::Response(v) => v.len() <= n,
        DigestOutcome::Failure(InternalError::Custom(e)) => e@.len() <= n,
        _ => true,
    }
}

impl<'a> DigestResult<'a> {
    /// The value this result carries.
    pub open spec fn outcome(self) -> DigestOutcome {
        match self {
            DigestResult::Nothing => DigestOutcome::Nothing,
            DigestResult::Urc(u) => DigestOutcome::Urc(u@),
            DigestResult::Prompt(p) => DigestOutcome::Prompt(p),
            DigestResult::Response(Ok(x)) => DigestOutcome::Response(x@),
            DigestResult::Response(Err(e)) => DigestOutcome::Failure(e),
        }
    }
}

/// A digester consumes a prefix of the buffer and reports what it found there,
/// together with the number of bytes it consumed. An implementation states
/// in `digest_spec` what `digest` reports for each buffer, and in `digested`
/// what becomes of its own state.
pub trait Digester: Sized {
    /// What `digest` reports for `buf`: the outcome and the bytes consumed.
    spec fn digest_spec(&self, buf: Seq<u8>) -> (DigestOutcome, nat);

    /// The digester after digesting `buf`.
    spec fn digested(&self, buf: Seq<u8>) -> Self;

    fn digest<'a>(&mut self, buf: &'a [u8]) -> (r: (DigestResult<'a>, usize))
        ensures
            r.0.outcome() == old(self).digest_spec(buf@).0,
            r.1 == old(self).digest_spec(buf@).1,
            *final(self) == old(self).digested(buf@),
            r.1 <= buf@.len(),
            outcome_fits(r.0.outcome(), buf@.len()),
    ;
}

/// A matcher for the unsolicited result codes a user expects; it reports the
/// URC found at the start of `buf` and the number of bytes it takes up. An
/// implementation states in `urc_spec` what `parse` reports for each buffer;
/// one that does not override it claims to match nothing.
pub trait Parser {
    /// The URC found at the start of `buf` and the bytes it takes up, if any.
    open spec fn urc_spec(buf: Seq<u8>) -> Option<(Seq<u8>, nat)> {
        None
    }

    fn parse<'a>(buf: &'a [u8]) -> (r: Result<(&'a [u8], usize), ParseError>)
        ensures
            match r {
                Ok((u, n)) => Self::urc_spec(buf@) == Some((u@, n as nat)),
                Err(_) => Self::urc_spec(buf@) is None,
            },
            r matches Ok((u, n)) ==> n <= buf@.len() && u@.len() <= buf@.len(),
    ;
}

/// A Digester that tries to implement the basic AT standard.
/// This digester should work for most usecases of ATAT.
///
/// Implements a request-response AT digester capable of working with or without AT echo enabled.
pub struct AtDigester<P: Parser> {
    _urc_parser: PhantomData<P>,
}

impl<P: Parser> AtDigester<P> {
    pub fn new() -> Self {
        Self { _urc_parser: PhantomData }
    }
}

impl<P: Parser> Digester for AtDigester<P> {
    /// URCs (as `P` matches them) come first; otherwise the echo is skipped and
    /// the rest of the buffer is searched for a success response, a prompt and
    /// an error response, in this order: see `spec_digest`.
    open spec fn digest_spec(&self, buf: Seq<u8>) -> (DigestOutcome, nat) {
        spec_digest(buf, P::urc_spec(buf))
    }

    /// The digester keeps no state.
    open spec fn digested(&self, buf: Seq<u8>) -> Self {
        *self
    }

    fn digest<'a>(&mut self, input: &'a [u8]) -> (r: (DigestResult<'a>, usize)) {
        let urc = P::parse(input);
        proof {
            parser::lemma_digest_response_fits(input@);
        }
        parser::digest_with(input, urc)
    }
}

} // verus!

//! A client that reads and digests the modem's output itself, without an
//! ingress: it keeps what it has read in a buffer and digests it until a
//! response turns up.
use crate::digest::{DigestOutcome, DigestResult, Digester};
use crate::error::InternalError;
use crate::ingress::offered;
use crate::response::{result_fits, view_of_error, view_of_result, Response, ResponseView};
use crate::digest::outcome_fits;
use vstd::prelude::*;

verus! {

/// What the client takes from an outcome: a response or error result; a
/// prompt reads as an empty success; anything else is no result.
pub open spec fn outcome_result(o: DigestOutcome) -> Option<Result<Seq<u8>, InternalError<'static>>> {
    match o {
        DigestOutcome::Prompt(_) => Some(Ok(Seq::empty())),
        DigestOutcome::Response(v) => Some(Ok(v)),
        DigestOutcome::Failure(e) => Some(Err(e)),
        _ => None,
    }
}

/// A result carries the value `v`.
pub open spec fn result_is(r: Result<&[u8], InternalError>, v: Result<Seq<u8>, InternalError>) -> bool {
    match (r, v) {
        (Ok(x), Ok(y)) => x@ == y,
        (Err(e), Err(f)) => e == f,
        _ => false,
    }
}

/// What the client takes from a digested result: a response or error
/// result; a prompt reads as an empty success; anything else is no result.
pub fn response_of(result: DigestResult) -> (r: Option<Result<&[u8], InternalError>>)
    ensures
        match outcome_result(result.outcome()) {
            Some(v) => r matches Some(x) && result_is(x, v),
            None => r is None,
        },
        r matches Some(x) ==> match result {
            DigestResult::Response(y) => x == y,
            _ => x matches Ok(d) && d@.len() == 0,
        },
{
    match result {
        DigestResult::Prompt(_) => {
            let empty: &[u8] = &[];
            assert(empty@ =~= Seq::<u8>::empty());
            Some(Ok(empty))
        },
        DigestResult::Response(resp) => Some(resp),
        _ => None,
    }
}

/// A digested result stored as a response: a prompt as a prompt, a response
/// or error result by value; anything else is no response.
pub fn stored_response<const N: usize>(result: DigestResult) -> (r: Option<Response<N>>)
    requires
        outcome_fits(result.outcome(), N as nat),
    ensures
        match result {
            DigestResult::Prompt(p) => r matches Some(x) && x@ == ResponseView::Prompt(p),
            DigestResult::Response(y) => r matches Some(x) && x@ == view_of_result(y),
            _ => r is None,
        },
{
    match result {
        DigestResult::Prompt(p) => Some(Response::Prompt(p)),
        DigestResult::Response(resp) => Some(Response::from_result(resp)),
        _ => None,
    }
}

/// The response `poll_response` hands out for an outcome: a prompt reads as
/// an empty success.
pub open spec fn polled(o: DigestOutcome) -> Option<ResponseView> {
    match o {
        DigestOutcome::Prompt(_) => Some(ResponseView::Success(Seq::empty())),
        DigestOutcome::Response(v) => Some(ResponseView::Success(v)),
        DigestOutcome::Failure(e) => Some(view_of_error(e)),
        _ => None,
    }
}

/// `poll_response` with the digester `d` on the buffer `buf`: step after step,
/// what each step consumes is dropped, until a step yields a result (which is
/// left in the buffer), the buffer is empty, or a step consumes nothing. The
/// response found, if any, the digester and the buffer after.
pub open spec fn poll_drain<D: Digester>(d: D, buf: Seq<u8>) -> (Option<ResponseView>, D, Seq<u8>)
    decreases buf.len(),
{
    if buf.len() == 0 {
        (None, d, buf)
    } else {
        let (o, n) = d.digest_spec(buf);
        let d2 = d.digested(buf);
        match polled(o) {
            Some(v) => (Some(v), d2, buf),
            None => if n == 0 || n > buf.len() {
                (None, d2, buf)
            } else {
                poll_drain(d2, buf.subrange(n as int, buf.len() as int))
            },
        }
    }
}

/// `take_response` with the digester `d` on the buffer `buf`: step after
/// step, what each step consumes is dropped, until a step that consumed
/// something yields a result (a prompt kept as a prompt), the buffer is
/// empty, or a step consumes nothing.
pub open spec fn take_drain<D: Digester>(d: D, buf: Seq<u8>) -> (Option<ResponseView>, D, Seq<u8>)
    decreases buf.len(),
{
    if buf.len() == 0 {
        (None, d, buf)
    } else {
        let (o, n) = d.digest_spec(buf);
        let d2 = d.digested(buf);
        if n == 0 || n > buf.len() {
            (None, d2, buf)
        } else {
            let rest = buf.subrange(n as int, buf.len() as int);
            match offered(o) {
                Some(v) => (Some(v), d2, rest),
                None => take_drain(d2, rest),
            }
        }
    }
}

/// Taking a response: on an empty buffer there is none. Otherwise the first
/// step decides: one that consumes no bytes (or more than there are) ends
/// the search with nothing; one that consumes bytes and finds a success, a
/// prompt or an error hands it out in its stored form, its bytes consumed;
/// one that consumes bytes and finds nothing, or only a URC, is skipped.
pub proof fn lemma_take_drain_step<D: Digester>(d: D, buf: Seq<u8>)
    ensures
        buf.len() == 0 ==> take_drain(d, buf) == (None::<ResponseView>, d, buf),
        ({
            let (o, n) = d.digest_spec(buf);
            let d2 = d.digested(buf);
            let rest = buf.subrange(n as int, buf.len() as int);
            buf.len() > 0 ==> {
                &&& (n == 0 || n > buf.len()) ==> take_drain(d, buf) == (None::<ResponseView>, d2, buf)
                &&& 0 < n <= buf.len() ==> {
                    &&& o matches DigestOutcome::Failure(e) ==> take_drain(d, buf) == (
                        Some(view_of_error(e)),
                        d2,
                        rest,
                    )
                    &&& o matches DigestOutcome::Response(v) ==> take_drain(d, buf) == (
                        Some(ResponseView::Success(v)),
                        d2,
                        rest,
                    )
                    &&& o matches DigestOutcome::Prompt(p) ==> take_drain(d, buf) == (
                        Some(ResponseView::Prompt(p)),
                        d2,
                        rest,
                    )
                    &&& (o is Nothing || o is Urc) ==> take_drain(d, buf) == take_drain(d2, rest)
                }
            }
        }),
{
}

/// Polling for a response: on an empty buffer there is none. Otherwise a
/// first step that finds a success, a prompt or an error hands it out (a
/// prompt as an empty success), leaving the buffer as it was; one that finds
/// nothing, or only a URC, is skipped when it consumes bytes and ends the
/// search otherwise.
pub proof fn lemma_poll_drain_step<D: Digester>(d: D, buf: Seq<u8>)
    ensures
        buf.len() == 0 ==> poll_drain(d, buf) == (None::<ResponseView>, d, buf),
        ({
            let (o, n) = d.digest_spec(buf);
            let d2 = d.digested(buf);
            let rest = buf.subrange(n as int, buf.len() as int);
            buf.len() > 0 ==> {
                &&& o matches DigestOutcome::Failure(e) ==> poll_drain(d, buf) == (
                    Some(view_of_error(e)),
                    d2,
                    buf,
                )
                &&& o matches DigestOutcome::Response(v) ==> poll_drain(d, buf) == (
                    Some(ResponseView::Success(v)),
                    d2,
                    buf,
                )
                &&& o is Prompt ==> poll_drain(d, buf) == (
                    Some(ResponseView::Success(Seq::empty())),
                    d2,
                    buf,
                )
                &&& (o is Nothing || o is Urc) ==> if 0 < n <= buf.len() {
                    poll_drain(d, buf) == poll_drain(d2, rest)
                } else {
                    poll_drain(d, buf) == (None::<ResponseView>, d2, buf)
                }
            }
        }),
{
}

/// The view of a handed-out response, if any.
pub open spec fn response_view_of<const N: usize>(r: Option<Response<N>>) -> Option<ResponseView> {
    match r {
        Some(x) => Some(x@),
        None => None,
    }
}

/// The blocking simple client's state: the serial port `rw`, the digester and
/// the bytes read and not yet digested, at most `capacity` of them.
pub struct SimpleClient<RW, D: Digester, const N: usize> {
    rw: RW,
    digester: D,
    buf: Vec<u8>,
}

impl<RW, D: Digester, const N: usize> SimpleClient<RW, D, N> {
    /// The bytes read and not yet digested.
    pub closed spec fn buffered(&self) -> Seq<u8> {
        self.buf@
    }

    /// The digester, as it is now.
    pub closed spec fn digester_state(&self) -> D {
        self.digester
    }

    /// The serial port.
    pub closed spec fn serial(&self) -> RW {
        self.rw
    }

    /// A client with an empty buffer.
    pub fn new(rw: RW, digester: D) -> (c: Self)
        ensures
            c.buffered() == Seq::<u8>::empty(),
            c.digester_state() == digester,
            c.serial() == rw,
    {
        Self { rw, digester, buf: Vec::new() }
    }

    /// The serial port.
    pub fn inner(&mut self) -> (r: &mut RW)
        ensures
            *r == old(self).serial(),
            final(self).serial() == *final(r),
            final(self).buffered() == old(self).buffered(),
            final(self).digester_state() == old(self).digester_state(),
    {
        &mut self.rw
    }

    /// Room left in the buffer.
    pub fn free(&self) -> (n: usize)
        requires
            self.buffered().len() <= N,
        ensures
            n == N - self.buffered().len(),
    {
        N - self.buf.len()
    }

    /// Appends bytes read from the modem to the buffer.
    pub fn received(&mut self, data: &[u8])
        requires
            old(self).buffered().len() + data@.len() <= N,
        ensures
            final(self).buffered() == old(self).buffered() + data@,
            final(self).digester_state() == old(self).digester_state(),
            final(self).serial() == old(self).serial(),
    {
        let mut i: usize = 0;
        let ghost start = self.buf@;
        while i < data.len()
            invariant
                i <= data@.len(),
                self.buf@ == start + data@.take(i as int),
                self.digester == old(self).digester,
                self.rw == old(self).rw,
            decreases data@.len() - i,
        {
            self.buf.push(data[i]);
            i += 1;
            assert(self.buf@ =~= start + data@.take(i as int));
        }
        assert(data@.take(data@.len() as int) =~= data@);
    }

    /// Drops the first `amt` bytes of the buffer.
    pub fn consume(&mut self, amt: usize)
        requires
            amt <= old(self).buffered().len(),
        ensures
            final(self).buffered() == old(self).buffered().subrange(
                amt as int,
                old(self).buffered().len() as int,
            ),
            final(self).digester_state() == old(self).digester_state(),
            final(self).serial() == old(self).serial(),
    {
        let n = self.buf.len();
        let mut rest: Vec<u8> = Vec::new();
        let mut j: usize = amt;
        while j < n
            invariant
                amt <= j <= n,
                n == self.buf@.len(),
                rest@ == self.buf@.subrange(amt as int, j as int),
            decreases n - j,
        {
            rest.push(self.buf[j]);
            j += 1;
        }
        self.buf = rest;
    }

    /// One digest step on the buffer: the result it yields, if any (see
    /// `response_of`), and the number of bytes the digester consumed.
    pub fn digest(&mut self) -> (r: (Option<Result<&[u8], InternalError<'_>>>, usize))
        ensures
            match outcome_result(old(self).digester_state().digest_spec(old(self).buffered()).0) {
                Some(v) => r.0 matches Some(x) && result_is(x, v),
                None => r.0 is None,
            },
            r.1 == old(self).digester_state().digest_spec(old(self).buffered()).1,
            final(self).digester_state() == old(self).digester_state().digested(old(self).buffered()),
            r.1 <= old(self).buffered().len(),
            r.0 matches Some(x) ==> result_fits(x, old(self).buffered().len()),
            final(self).buffered() == old(self).buffered(),
            final(self).serial() == old(self).serial(),
    {
        let (result, swallowed) = self.digester.digest(self.buf.as_slice());
        (response_of(result), swallowed)
    }

    /// Digests the buffer, dropping what each step consumes, until a step that
    /// consumed something yields a result (a prompt is kept as a prompt), the
    /// buffer is empty, or a step consumes nothing (then a result it yielded
    /// is left for later): see `take_drain`. The result is handed out as a
    /// stored response.
    pub fn take_response(&mut self) -> (r: Option<Response<N>>)
        requires
            old(self).buffered().len() <= N,
        ensures
            (response_view_of(r), final(self).digester_state(), final(self).buffered())
                == take_drain(old(self).digester_state(), old(self).buffered()),
            final(self).buffered().len() <= N,
            final(self).serial() == old(self).serial(),
        decreases old(self).buffered().len(),
    {
        if self.buf.len() == 0 {
            return None;
        }
        let (result, swallowed) = self.digester.digest(self.buf.as_slice());
        let found = stored_response::<N>(result);
        if swallowed == 0 {
            return None;
        }
        self.consume(swallowed);
        if found.is_some() {
            return found;
        }
        self.take_response()
    }

    /// Digests the buffer, dropping what each step consumes, until a step
    /// yields a result (which is left in the buffer, and handed out as a
    /// stored response), the buffer is empty, or a step consumes nothing: see
    /// `poll_drain`.
    pub fn poll_response(&mut self) -> (r: Option<Response<N>>)
        requires
            old(self).buffered().len() <= N,
        ensures
            (response_view_of(r), final(self).digester_state(), final(self).buffered())
                == poll_drain(old(self).digester_state(), old(self).buffered()),
            final(self).buffered().len() <= N,
            final(self).serial() == old(self).serial(),
        decreases old(self).buffered().len(),
    {
        if self.buf.len() == 0 {
            return None;
        }
        let (result, swallowed) = self.digester.digest(self.buf.as_slice());
        let found = match response_of(result) {
            Some(res) => Some(Response::from_result(res)),
            None => None,
        };
        if found.is_some() || swallowed == 0 {
            return found;
        }
        self.consume(swallowed);
        self.poll_response()
    }
}

} // verus!

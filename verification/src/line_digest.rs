//! A line-based digester: a small state machine that tells solicited
//! responses from URCs by whether a command echo was seen.
use crate::bytes::{index_of, lemma_index_of, lemma_trim_start_len, occurs_at, trim_start};
use crate::coded_error::Error;
use crate::helpers::{get_line, line_padding, spec_get_line, SliceExt};
use crate::urc_matcher::{UrcMatch, UrcMatcher, UrcMatcherResult};
use vstd::prelude::*;

verus! {

/// Command line termination character S3 (Default = b'\r' ASCII: \[013\])
pub const LINE_TERM_CHAR: u8 = 13;

/// Response formatting character S4 (Default = b'\n' ASCII: \[010\])
pub const FORMAT_CHAR: u8 = 10;

pub trait Digester {
    fn reset(&mut self);

    fn force_receive_state(&mut self);

    fn digest<M: UrcMatcher>(&mut self, buf: &mut Vec<u8>, urc_matcher: &mut M) -> DigestResult;
}

/// What one call of the digester found.
#[derive(Debug, PartialEq)]
pub enum DigestResult {
    Urc(Vec<u8>),
    Response(Result<Vec<u8>, Error>),
    /// Nothing complete was found.
    Nothing,
}

/// The value of a `DigestResult`.
pub enum LineOutcome {
    Nothing,
    Urc(Seq<u8>),
    Response(Seq<u8>),
    InvalidResponse,
}

impl DigestResult {
    /// This result carries the value `o`.
    pub open spec fn is_outcome(self, o: LineOutcome) -> bool {
        match self {
            DigestResult::Nothing => o is Nothing,
            DigestResult::Urc(u) => o matches LineOutcome::Urc(v) && u@ == v,
            DigestResult::Response(Ok(x)) => o matches LineOutcome::Response(v) && x@ == v,
            DigestResult::Response(Err(e)) => o is InvalidResponse && e == Error::<crate::coded_error::GenericError>::InvalidResponse,
        }
    }
}

/// State of the `DefaultDigester`, used to distiguish URCs from solicited
/// responses
#[derive(Debug, Copy, Clone, Hash, PartialEq, Eq, Structural)]
pub enum State {
    Idle,
    ReceivingResponse,
}

impl Default for State {
    fn default() -> (s: Self)
        ensures
            s == State::Idle,
    {
        Self::Idle
    }
}

/// A Digester that tries to implement the basic AT standard.
/// This digester should work for most usecases of ATAT.
///
/// Implements a request-response AT digester capable of working with or without AT echo enabled.
#[derive(Debug)]
pub struct DefaultDigester {
    /// Current processing state.
    pub state: State,
    /// A flag that is set to `true` when the buffer is cleared
    /// with an incomplete response.
    pub buf_incomplete: bool,
}

impl Default for DefaultDigester {
    fn default() -> (d: Self)
        ensures
            d.state == State::Idle,
            !d.buf_incomplete,
    {
        DefaultDigester { state: State::Idle, buf_incomplete: false }
    }
}

/// `\r`
pub open spec fn cr() -> Seq<u8> {
    seq![13u8]
}

/// Leading padding is dropped from a buffer that starts with a line termination
/// character.
pub open spec fn leading_trimmed(b: Seq<u8>) -> Seq<u8> {
    if b.len() > 0 && (b[0] == 13 || b[0] == 10) {
        trim_start(b, line_padding(13, 10))
    } else {
        b
    }
}

/// The buffer (after leading padding) starts with a command echo.
pub open spec fn starts_with_at(b: Seq<u8>) -> bool {
    b.len() >= 2 && b[0] == 65 && b[1] == 84
}

/// The call hands the buffer to the URC matcher: idle, not after an incomplete
/// line, no echo, and the buffer starts with `+`.
pub open spec fn in_urc_branch(state: State, incomplete: bool, b0: Seq<u8>) -> bool {
    let b1 = leading_trimmed(b0);
    state == State::Idle && !incomplete && !starts_with_at(b1) && b1.len() >= 1 && b1[0] == 43
}

/// `spec_get_line` with the default termination characters, no trimming, forward.
pub open spec fn cut_line(b: Seq<u8>, needle: Seq<u8>) -> Option<(Seq<u8>, Seq<u8>)> {
    spec_get_line(b, needle, 13, 10, false, false)
}

/// The response held by a line that ends in `OK`: everything before the last
/// `\r` (and the line terminators after it), trimmed; empty if there is no `\r`.
pub open spec fn response_body(line: Seq<u8>) -> Seq<u8> {
    match spec_get_line(line, cr(), 13, 10, true, true) {
        Some((l, _)) => l,
        None => Seq::empty(),
    }
}

/// One step of the digester outside of the URC-matcher branch: the new state,
/// the new incomplete flag, the new buffer and what is reported. A `+` line is
/// handled here as when the URC matcher leaves it alone.
pub open spec fn spec_line_digest(state: State, incomplete: bool, b0: Seq<u8>) -> (
    State,
    bool,
    Seq<u8>,
    LineOutcome,
) {
    let b1 = leading_trimmed(b0);
    match state {
        State::Idle => if !incomplete && starts_with_at(b1) {
            match cut_line(b1, cr()) {
                Some((_, rest)) => (State::ReceivingResponse, false, rest, LineOutcome::Nothing),
                None => (State::Idle, incomplete, b1, LineOutcome::Nothing),
            }
        } else if !incomplete && b1.len() >= 1 && b1[0] == 43 {
            match spec_get_line(b1, cr(), 13, 10, true, false) {
                Some((line, rest)) => (State::Idle, false, rest, LineOutcome::Urc(line)),
                None => (State::Idle, incomplete, b1, LineOutcome::Nothing),
            }
        } else if incomplete || b1.len() > 2 {
            let inc1 = b1.len() == 0 || (b1.last() != 13 && b1.last() != 10);
            let rest = match cut_line(b1, cr()) {
                Some((_, r)) => r,
                None => Seq::empty(),
            };
            (State::Idle, if rest.len() > 0 {
                false
            } else {
                inc1
            }, rest, LineOutcome::Nothing)
        } else {
            (State::Idle, incomplete, b1, LineOutcome::Nothing)
        },
        State::ReceivingResponse => match spec_get_line(b1, seq![79u8, 75u8], 13, 10, true, false) {
            Some((line, rest)) => (State::Idle, incomplete, rest, LineOutcome::Response(
                response_body(line),
            )),
            None => match spec_get_line(b1, seq![69u8, 82u8, 82u8, 79u8, 82u8], 13, 10, true, false) {
                Some((_, rest)) => (State::Idle, incomplete, rest, LineOutcome::InvalidResponse),
                None => match cut_line(b1, seq![62u8]) {
                    Some((_, rest)) => (State::Idle, incomplete, rest, LineOutcome::Response(
                        Seq::empty(),
                    )),
                    None => match cut_line(b1, seq![64u8]) {
                        Some((_, rest)) => (State::Idle, incomplete, rest, LineOutcome::Response(
                            Seq::empty(),
                        )),
                        None => (State::ReceivingResponse, incomplete, b1, LineOutcome::Nothing),
                    },
                },
            },
        },
    }
}

/// The step on a URC once the URC matcher has reported `m` and left the
/// buffer `b`: the new incomplete flag, the new buffer and what is reported.
/// A complete URC is reported as it is; an incomplete one waits for more
/// input; a URC the matcher did not handle is cut out of the buffer as a
/// line, trimmed, if the line is complete.
pub open spec fn matched_urc_step(incomplete: bool, m: UrcMatch, b: Seq<u8>) -> (
    bool,
    Seq<u8>,
    LineOutcome,
) {
    match m {
        UrcMatch::Complete(u) => (incomplete, b, LineOutcome::Urc(u)),
        UrcMatch::Incomplete => (incomplete, b, LineOutcome::Nothing),
        UrcMatch::NotHandled => match spec_get_line(b, cr(), 13, 10, true, false) {
            Some((line, rest)) => (false, rest, LineOutcome::Urc(line)),
            None => (incomplete, b, LineOutcome::Nothing),
        },
    }
}

impl DefaultDigester {
    /// The step on a URC, once the URC matcher has looked at the buffer:
    /// `matched` is what it reported, and `buf` the buffer as it left it. A
    /// complete URC is reported as it is; an incomplete one waits for more
    /// input; a URC that the matcher did not handle is cut out of the buffer
    /// as a line, trimmed, if the line is complete.
    pub fn digest_matched_urc(&mut self, buf: &mut Vec<u8>, matched: UrcMatcherResult) -> (r:
        DigestResult)
        ensures
            final(self).state == old(self).state,
            ({
                let (inc, b, o) = matched_urc_step(old(self).buf_incomplete, matched.matched(), old(buf)@);
                &&& final(self).buf_incomplete == inc
                &&& final(buf)@ == b
                &&& r.is_outcome(o)
            }),
    {
        let crt = [LINE_TERM_CHAR];
        assert(crt@ =~= cr());
        match matched {
            UrcMatcherResult::Complete(urc) => DigestResult::Urc(urc),
            UrcMatcherResult::Incomplete => DigestResult::Nothing,
            UrcMatcherResult::NotHandled => {
                // Always run some bare minimum URC handler
                if let Some(line) = get_line(buf, &crt, LINE_TERM_CHAR, FORMAT_CHAR, true, false) {
                    self.buf_incomplete = false;
                    DigestResult::Urc(line)
                } else {
                    DigestResult::Nothing
                }
            },
        }
    }

    /// Drops leading padding from a buffer that starts with a line termination character.
    fn trim_leading(buf: &mut Vec<u8>)
        ensures
            final(buf)@ == leading_trimmed(old(buf)@),
    {
        if buf.len() > 0 && (buf[0] == LINE_TERM_CHAR || buf[0] == FORMAT_CHAR) {
            let pad = [9u8, 32u8, FORMAT_CHAR, LINE_TERM_CHAR];
            assert(pad@ =~= line_padding(13, 10));
            let kept = vstd::slice::slice_to_vec(buf.as_slice().trim_start(&pad));
            *buf = kept;
        }
    }

    /// The step taken while a response is awaited, on a buffer whose leading
    /// padding was dropped.
    fn digest_response(&mut self, buf: &mut Vec<u8>) -> (r: DigestResult)
        requires
            old(self).state == State::ReceivingResponse,
        ensures
            ({
                let (s, inc, b, o) = spec_line_digest(
                    State::ReceivingResponse,
                    old(self).buf_incomplete,
                    old(buf)@,
                );
                leading_trimmed(old(buf)@) == old(buf)@ ==> {
                    &&& final(self).state == s
                    &&& final(self).buf_incomplete == inc
                    &&& final(buf)@ == b
                    &&& r.is_outcome(o)
                }
            }),
    {
        let ok = [79u8, 75u8];
        assert(ok@ =~= seq![79u8, 75u8]);
        if let Some(mut line) = get_line(buf, &ok, LINE_TERM_CHAR, FORMAT_CHAR, true, false) {
            let crt = [LINE_TERM_CHAR];
            assert(crt@ =~= cr());
            let body = match get_line(&mut line, &crt, LINE_TERM_CHAR, FORMAT_CHAR, true, true) {
                Some(l) => l,
                None => Vec::new(),
            };
            self.state = State::Idle;
            return DigestResult::Response(Ok(body));
        }
        let error = [69u8, 82u8, 82u8, 79u8, 82u8];
        assert(error@ =~= seq![69u8, 82u8, 82u8, 79u8, 82u8]);
        if get_line(buf, &error, LINE_TERM_CHAR, FORMAT_CHAR, true, false).is_some() {
            self.state = State::Idle;
            return DigestResult::Response(Err(Error::InvalidResponse));
        }
        let gt = [62u8];
        assert(gt@ =~= seq![62u8]);
        if get_line(buf, &gt, LINE_TERM_CHAR, FORMAT_CHAR, false, false).is_some() {
            self.state = State::Idle;
            return DigestResult::Response(Ok(Vec::new()));
        }
        let at = [64u8];
        assert(at@ =~= seq![64u8]);
        if get_line(buf, &at, LINE_TERM_CHAR, FORMAT_CHAR, false, false).is_some() {
            self.state = State::Idle;
            return DigestResult::Response(Ok(Vec::new()));
        }
        DigestResult::Nothing
    }
}

impl Digester for DefaultDigester {
    fn reset(&mut self)
        ensures
            final(self).state == State::Idle,
            !final(self).buf_incomplete,
    {
        self.state = State::Idle;
        self.buf_incomplete = false;
    }

    fn force_receive_state(&mut self)
        ensures
            final(self).state == State::ReceivingResponse,
            final(self).buf_incomplete == old(self).buf_incomplete,
    {
        self.state = State::ReceivingResponse;
    }

    /// Outside of the URC branch the step is `spec_line_digest` and the URC
    /// matcher is left alone; in it, the matcher looks at the buffer once,
    /// and the step is `matched_urc_step` on what it reported.
    fn digest<M: UrcMatcher>(&mut self, buf: &mut Vec<u8>, urc_matcher: &mut M) -> (r: DigestResult)
        ensures
            !in_urc_branch(old(self).state, old(self).buf_incomplete, old(buf)@) ==> ({
                let (s, inc, b, o) = spec_line_digest(
                    old(self).state,
                    old(self).buf_incomplete,
                    old(buf)@,
                );
                &&& final(self).state == s
                &&& final(self).buf_incomplete == inc
                &&& final(buf)@ == b
                &&& r.is_outcome(o)
                &&& *final(urc_matcher) == *old(urc_matcher)
            }),
            in_urc_branch(old(self).state, old(self).buf_incomplete, old(buf)@) ==> ({
                let b1 = leading_trimmed(old(buf)@);
                let (m, b2) = old(urc_matcher).process_spec(b1);
                let (inc, b3, o) = matched_urc_step(old(self).buf_incomplete, m, b2);
                &&& *final(urc_matcher) == old(urc_matcher).processed(b1)
                &&& final(self).state == State::Idle
                &&& final(self).buf_incomplete == inc
                &&& final(buf)@ == b3
                &&& r.is_outcome(o)
            }),
    {
        Self::trim_leading(buf);
        proof {
            lemma_leading_trimmed_idempotent(old(buf)@);
        }
        let crt = [LINE_TERM_CHAR];
        assert(crt@ =~= cr());
        match self.state {
            State::Idle => {
                if !self.buf_incomplete && buf.len() >= 2 && buf[0] == 65 && buf[1] == 84 {
                    // Handle AT echo responses
                    if get_line(buf, &crt, LINE_TERM_CHAR, FORMAT_CHAR, false, false).is_some() {
                        self.state = State::ReceivingResponse;
                        self.buf_incomplete = false;
                    }
                } else if !self.buf_incomplete && buf.len() >= 1 && buf[0] == 43 {
                    // Handle URCs: try to apply the custom URC matcher
                    let matched = urc_matcher.process(buf);
                    return self.digest_matched_urc(buf, matched);
                } else if self.buf_incomplete || buf.len() > 2 {
                    // Text sent by the device that is not a valid response type (e.g. starting
                    // with "AT" or "+") can be ignored. Clear the buffer, but only if we can
                    // ensure that we don't accidentally break a valid response.
                    let n = buf.len();
                    self.buf_incomplete = n == 0 || (n > 0 && buf[n - 1] != LINE_TERM_CHAR
                        && buf[n - 1] != FORMAT_CHAR);
                    let removed = get_line(buf, &crt, LINE_TERM_CHAR, FORMAT_CHAR, false, false);
                    if removed.is_none() {
                        buf.clear();
                    }
                    // If the buffer wasn't cleared completely, that means that
                    // a newline was found. In that case, the buffer cannot be
                    // in an incomplete state.
                    if buf.len() > 0 {
                        self.buf_incomplete = false;
                    }
                }
                DigestResult::Nothing
            },
            State::ReceivingResponse => self.digest_response(buf),
        }
    }
}

/// Dropping the leading padding twice drops nothing more.
pub proof fn lemma_leading_trimmed_idempotent(b: Seq<u8>)
    ensures
        leading_trimmed(leading_trimmed(b)) == leading_trimmed(b),
    decreases b.len(),
{
    if b.len() > 0 && (b[0] == 13 || b[0] == 10) {
        lemma_trim_start_idempotent(b, line_padding(13, 10));
    }
}

/// What `trim_start` leaves starts with a byte outside the set, so trimming again
/// changes nothing.
pub proof fn lemma_trim_start_idempotent(b: Seq<u8>, set: Seq<u8>)
    ensures
        trim_start(trim_start(b, set), set) == trim_start(b, set),
        trim_start(b, set).len() > 0 ==> !set.contains(trim_start(b, set)[0]),
    decreases b.len(),
{
    if b.len() > 0 && set.contains(b[0]) {
        lemma_trim_start_idempotent(b.drop_first(), set);
    }
}

/// While a response is awaited, a buffer (its leading padding dropped) that
/// holds neither `OK` nor `ERROR` but a `>` or `@`, the prompt for data, ends
/// the wait: the digester is idle again and reports an empty success, and
/// bytes through the prompt are consumed.
pub proof fn lemma_prompt_ends_the_wait(incomplete: bool, b0: Seq<u8>, p: u8, k: int)
    requires
        p == 62 || p == 64,
        occurs_at(leading_trimmed(b0), seq![p], k),
        forall|j: int| !occurs_at(leading_trimmed(b0), seq![79u8, 75u8], j),
        forall|j: int| !occurs_at(leading_trimmed(b0), seq![69u8, 82u8, 82u8, 79u8, 82u8], j),
    ensures
        ({
            let (s, inc, b, o) = spec_line_digest(State::ReceivingResponse, incomplete, b0);
            &&& s == State::Idle
            &&& inc == incomplete
            &&& o == LineOutcome::Response(Seq::empty())
            &&& b.len() < leading_trimmed(b0).len()
        }),
{
    let b1 = leading_trimmed(b0);
    lemma_index_of(b1, seq![79u8, 75u8]);
    lemma_index_of(b1, seq![69u8, 82u8, 82u8, 79u8, 82u8]);
    lemma_index_of(b1, seq![62u8]);
    lemma_index_of(b1, seq![64u8]);
    let q: u8 = if p == 64 && index_of(b1, seq![62u8]) is Some { 62 } else { p };
    let i = index_of(b1, seq![q]).unwrap();
    let end = i + 1;
    lemma_trim_start_len(b1.subrange(end as int, b1.len() as int), seq![10u8, 13u8]);
}

} // verus!

//! The grammar of modem output, as functions on bytes. Each parser returns
//! the unconsumed rest of its input together with what it recognised, or
//! says why it failed: `Incomplete` when more input could still make it
//! match, `Error` otherwise.
use super::{outcome_fits, DigestOutcome, DigestResult};
use crate::bytes::{
    ascii_whitespace, crlf, digit_run, is_digit, digit_run_len, digits_value, find, index_of,
    lead_len, lemma_digit_run, lemma_index_of, line_ending, line_ending_len, multispace,
    multispace_len, occurs_at, parse_u16_digits, trim, trim_ascii_whitespace, trim_start,
    lemma_trim_len,
};
use crate::error::cme_error::cme_error_from_code;
use crate::error::cme_error::cme_error_from_msg;
use crate::error::cms_error::cms_error_from_code;
use crate::error::cms_error::cms_error_from_msg;
use crate::error::{CmeError, CmsError, ConnectionError, InternalError};
use vstd::prelude::*;

verus! {

/// Why a parser did not match.
#[derive(Debug, Clone, Copy, PartialEq, Eq, Structural)]
pub enum ParseError {
    /// The input ends before the parser could decide; more input may make it match.
    Incomplete,
    /// The input does not match.
    Error,
}

/// `\r\nOK\r\n`
pub open spec fn ok_tag() -> Seq<u8> {
    seq![13u8, 10u8, 79u8, 75u8, 13u8, 10u8]
}

/// `\r\nCONNECT`
pub open spec fn connect_tag() -> Seq<u8> {
    seq![13u8, 10u8, 67u8, 79u8, 78u8, 78u8, 69u8, 67u8, 84u8]
}

/// `\r\n+CME ERROR:`
pub open spec fn cme_error_tag() -> Seq<u8> {
    seq![13u8, 10u8, 43u8, 67u8, 77u8, 69u8, 32u8, 69u8, 82u8, 82u8, 79u8, 82u8, 58u8]
}

/// `\r\n+CMS ERROR:`
pub open spec fn cms_error_tag() -> Seq<u8> {
    seq![13u8, 10u8, 43u8, 67u8, 77u8, 83u8, 32u8, 69u8, 82u8, 82u8, 79u8, 82u8, 58u8]
}

/// `\r\nMODEM ERROR:`
pub open spec fn modem_error_tag() -> Seq<u8> {
    seq![13u8, 10u8, 77u8, 79u8, 68u8, 69u8, 77u8, 32u8, 69u8, 82u8, 82u8, 79u8, 82u8, 58u8]
}

/// `\r\nERROR\r\n`
pub open spec fn error_tag() -> Seq<u8> {
    seq![13u8, 10u8, 69u8, 82u8, 82u8, 79u8, 82u8, 13u8, 10u8]
}

/// `\r\nCOMMAND NOT SUPPORT\r\n`
pub open spec fn not_supported_tag() -> Seq<u8> {
    seq![13u8, 10u8, 67u8, 79u8, 77u8, 77u8, 65u8, 78u8, 68u8, 32u8, 78u8, 79u8, 84u8, 32u8, 83u8, 85u8, 80u8, 80u8, 79u8, 82u8, 84u8, 13u8, 10u8]
}

/// `\r\nNO CARRIER\r\n`
pub open spec fn no_carrier_tag() -> Seq<u8> {
    seq![13u8, 10u8, 78u8, 79u8, 32u8, 67u8, 65u8, 82u8, 82u8, 73u8, 69u8, 82u8, 13u8, 10u8]
}

/// `\r\nBUSY\r\n`
pub open spec fn busy_tag() -> Seq<u8> {
    seq![13u8, 10u8, 66u8, 85u8, 83u8, 89u8, 13u8, 10u8]
}

/// `\r\nNO ANSWER\r\n`
pub open spec fn no_answer_tag() -> Seq<u8> {
    seq![13u8, 10u8, 78u8, 79u8, 32u8, 65u8, 78u8, 83u8, 87u8, 69u8, 82u8, 13u8, 10u8]
}

/// `\r\nNO DIALTONE\r\n`
pub open spec fn no_dialtone_tag() -> Seq<u8> {
    seq![13u8, 10u8, 78u8, 79u8, 32u8, 68u8, 73u8, 65u8, 76u8, 84u8, 79u8, 78u8, 69u8, 13u8, 10u8]
}

fn exec_ok_tag() -> (t: [u8; 6])
    ensures
        t@ == ok_tag(),
{
    let t = [13u8, 10u8, 79u8, 75u8, 13u8, 10u8];
    assert(t@ =~= ok_tag());
    t
}

fn exec_connect_tag() -> (t: [u8; 9])
    ensures
        t@ == connect_tag(),
{
    let t = [13u8, 10u8, 67u8, 79u8, 78u8, 78u8, 69u8, 67u8, 84u8];
    assert(t@ =~= connect_tag());
    t
}

fn exec_cme_error_tag() -> (t: [u8; 13])
    ensures
        t@ == cme_error_tag(),
{
    let t = [13u8, 10u8, 43u8, 67u8, 77u8, 69u8, 32u8, 69u8, 82u8, 82u8, 79u8, 82u8, 58u8];
    assert(t@ =~= cme_error_tag());
    t
}

fn exec_cms_error_tag() -> (t: [u8; 13])
    ensures
        t@ == cms_error_tag(),
{
    let t = [13u8, 10u8, 43u8, 67u8, 77u8, 83u8, 32u8, 69u8, 82u8, 82u8, 79u8, 82u8, 58u8];
    assert(t@ =~= cms_error_tag());
    t
}

fn exec_modem_error_tag() -> (t: [u8; 14])
    ensures
        t@ == modem_error_tag(),
{
    let t = [13u8, 10u8, 77u8, 79u8, 68u8, 69u8, 77u8, 32u8, 69u8, 82u8, 82u8, 79u8, 82u8, 58u8];
    assert(t@ =~= modem_error_tag());
    t
}

fn exec_error_tag() -> (t: [u8; 9])
    ensures
        t@ == error_tag(),
{
    let t = [13u8, 10u8, 69u8, 82u8, 82u8, 79u8, 82u8, 13u8, 10u8];
    assert(t@ =~= error_tag());
    t
}

fn exec_not_supported_tag() -> (t: [u8; 23])
    ensures
        t@ == not_supported_tag(),
{
    let t = [13u8, 10u8, 67u8, 79u8, 77u8, 77u8, 65u8, 78u8, 68u8, 32u8, 78u8, 79u8, 84u8, 32u8, 83u8, 85u8, 80u8, 80u8, 79u8, 82u8, 84u8, 13u8, 10u8];
    assert(t@ =~= not_supported_tag());
    t
}

fn exec_no_carrier_tag() -> (t: [u8; 14])
    ensures
        t@ == no_carrier_tag(),
{
    let t = [13u8, 10u8, 78u8, 79u8, 32u8, 67u8, 65u8, 82u8, 82u8, 73u8, 69u8, 82u8, 13u8, 10u8];
    assert(t@ =~= no_carrier_tag());
    t
}

fn exec_busy_tag() -> (t: [u8; 8])
    ensures
        t@ == busy_tag(),
{
    let t = [13u8, 10u8, 66u8, 85u8, 83u8, 89u8, 13u8, 10u8];
    assert(t@ =~= busy_tag());
    t
}

fn exec_no_answer_tag() -> (t: [u8; 13])
    ensures
        t@ == no_answer_tag(),
{
    let t = [13u8, 10u8, 78u8, 79u8, 32u8, 65u8, 78u8, 83u8, 87u8, 69u8, 82u8, 13u8, 10u8];
    assert(t@ =~= no_answer_tag());
    t
}

fn exec_no_dialtone_tag() -> (t: [u8; 15])
    ensures
        t@ == no_dialtone_tag(),
{
    let t = [13u8, 10u8, 78u8, 79u8, 32u8, 68u8, 73u8, 65u8, 76u8, 84u8, 79u8, 78u8, 69u8, 13u8, 10u8];
    assert(t@ =~= no_dialtone_tag());
    t
}

/// Length of an echoed command line: everything before the first `\r\n`.
/// Inputs shorter than two bytes hold no echo.
pub open spec fn spec_echo(s: Seq<u8>) -> Option<nat> {
    if s.len() < 2 {
        Some(0)
    } else {
        index_of(s, crlf())
    }
}

/// Length of `s` without its trailing `\r\n` pairs.
pub open spec fn spec_adjust_ending(s: Seq<u8>) -> nat
    decreases s.len(),
{
    if s.len() >= 2 && s.subrange(s.len() - 2, s.len() as int) == crlf() {
        spec_adjust_ending(s.subrange(0, s.len() - 2))
    } else {
        s.len()
    }
}

/// A success response: the data before the first `\r\nOK\r\n`, or else the data
/// before the first `\r\nCONNECT` that is followed by a line ending somewhere
/// later. The data is trimmed of ASCII whitespace; the length covers the result
/// code line as well.
#[verifier::opaque]
pub open spec fn spec_success(s: Seq<u8>) -> Option<(Seq<u8>, nat)> {
    match index_of(s, ok_tag()) {
        Some(k) => Some((trim(s.subrange(0, k as int), ascii_whitespace()), k + 6)),
        None => match index_of(s, connect_tag()) {
            Some(k) => match index_of(s.subrange((k + 9) as int, s.len() as int), crlf()) {
                Some(m) => Some((trim(s.subrange(0, k as int), ascii_whitespace()), k + 9 + m + 2)),
                None => None,
            },
            None => None,
        },
    }
}

/// The prompt character `p` occurs in `s` and only whitespace follows its first occurrence.
pub open spec fn prompt_at(s: Seq<u8>, p: u8) -> bool {
    index_of(s, seq![p]) matches Some(k) && trim_start(
        s.subrange((k + 1) as int, s.len() as int),
        multispace(),
    ).len() == 0
}

/// A prompt for data, `>` tried before `@`.
#[verifier::opaque]
pub open spec fn spec_prompt(s: Seq<u8>) -> Option<u8> {
    if prompt_at(s, 62) {
        Some(62u8)
    } else if prompt_at(s, 64) {
        Some(64u8)
    } else {
        None
    }
}

/// The equivalent of the regex `{token}\s*(\d+)\r?\n`, searched from the first
/// occurrence of `token`: the decimal value (which must fit a `u16`) and the
/// number of bytes up to and including the line ending.
pub open spec fn spec_numeric_error(s: Seq<u8>, token: Seq<u8>) -> Option<(u16, nat)> {
    match index_of(s, token) {
        None => None,
        Some(k) => {
            let a = k + token.len();
            let b = a + lead_len(s.subrange(a as int, s.len() as int), multispace());
            let d = digit_run(s.subrange(b as int, s.len() as int));
            let v = digits_value(s.subrange(b as int, (b + d) as int));
            if d == 0 || v > 65535 {
                None
            } else {
                match line_ending_len(s.subrange((b + d) as int, s.len() as int)) {
                    Some(l) => Some((v as u16, b + d + l)),
                    None => None,
                }
            }
        },
    }
}

/// The equivalent of the regex `{token}([^\r].*)\r\n`, searched from the first
/// occurrence of `token`: the message (trimmed of ASCII whitespace) and the
/// number of bytes up to and including the `\r\n`. It is `Incomplete` when the
/// input ends right after the token.
pub open spec fn spec_string_error(s: Seq<u8>, token: Seq<u8>) -> Result<(Seq<u8>, nat), ParseError> {
    match index_of(s, token) {
        None => Err(ParseError::Error),
        Some(k) => {
            let a = k + token.len();
            if a == s.len() {
                Err(ParseError::Incomplete)
            } else if s[a as int] == 13 {
                Err(ParseError::Error)
            } else {
                match index_of(s.subrange(a as int, s.len() as int), crlf()) {
                    Some(m) => Ok(
                        (trim(s.subrange(a as int, (a + m + 2) as int), ascii_whitespace()), a + m + 2),
                    ),
                    None => Err(ParseError::Error),
                }
            }
        },
    }
}

/// `\r\nERROR\r\n`, or else `\r\nCOMMAND NOT SUPPORT\r\n`: the number of bytes
/// up to and including its first occurrence.
pub open spec fn spec_generic_error(s: Seq<u8>) -> Option<nat> {
    match index_of(s, error_tag()) {
        Some(k) => Some(k + 9),
        None => match index_of(s, not_supported_tag()) {
            Some(k) => Some(k + 23),
            None => None,
        },
    }
}

/// `NO CARRIER`, `BUSY`, `NO ANSWER` and `NO DIALTONE` result codes, tried in
/// this order.
pub open spec fn spec_connection_error(s: Seq<u8>) -> Option<(ConnectionError, nat)> {
    match index_of(s, no_carrier_tag()) {
        Some(k) => Some((ConnectionError::NoCarrier, k + 14)),
        None => match index_of(s, busy_tag()) {
            Some(k) => Some((ConnectionError::Busy, k + 8)),
            None => match index_of(s, no_answer_tag()) {
                Some(k) => Some((ConnectionError::NoAnswer, k + 13)),
                None => match index_of(s, no_dialtone_tag()) {
                    Some(k) => Some((ConnectionError::NoDialtone, k + 15)),
                    None => None,
                },
            },
        },
    }
}

/// Error result codes, tried in this order: numeric `+CME ERROR`, numeric
/// `+CMS ERROR`, verbose `+CME ERROR`, verbose `+CMS ERROR`, numeric `MODEM
/// ERROR`, `ERROR`/`COMMAND NOT SUPPORT`, connection errors. A verbose error
/// whose token ends the input stops the search as `Incomplete`.
#[verifier::opaque]
pub open spec fn spec_error_response(s: Seq<u8>) -> Result<(InternalError<'static>, nat), ParseError> {
    match spec_numeric_error(s, cme_error_tag()) {
        Some((c, n)) => Ok((InternalError::CmeError(cme_error_from_code(c)), n)),
        None => match spec_numeric_error(s, cms_error_tag()) {
            Some((c, n)) => Ok((InternalError::CmsError(cms_error_from_code(c)), n)),
            None => match spec_string_error(s, cme_error_tag()) {
                Ok((m, n)) => Ok((InternalError::CmeError(cme_error_from_msg(m)), n)),
                Err(ParseError::Incomplete) => Err(ParseError::Incomplete),
                Err(ParseError::Error) => match spec_string_error(s, cms_error_tag()) {
                    Ok((m, n)) => Ok((InternalError::CmsError(cms_error_from_msg(m)), n)),
                    Err(ParseError::Incomplete) => Err(ParseError::Incomplete),
                    Err(ParseError::Error) => match spec_numeric_error(s, modem_error_tag()) {
                        Some((_, n)) => Ok((InternalError::CmeError(CmeError::Unknown), n)),
                        None => match spec_generic_error(s) {
                            Some(n) => Ok((InternalError::Error, n)),
                            None => match spec_connection_error(s) {
                                Some((e, n)) => Ok((InternalError::ConnectionError(e), n)),
                                None => Err(ParseError::Error),
                            },
                        },
                    },
                },
            },
        },
    }
}

/// A URC line introduced by `token`: a line ending, then `token` and the rest of
/// the line up to and including `\r\n`. The URC is that line without the
/// leading line ending, trimmed of ASCII whitespace; the length counts from
/// the start of the input. It is `Incomplete` when the input after the line
/// ending is a proper prefix of `token`.
pub open spec fn spec_urc_helper(s: Seq<u8>, token: Seq<u8>) -> Result<(Seq<u8>, nat), ParseError> {
    match line_ending_len(s) {
        None => Err(ParseError::Error),
        Some(le) => {
            let r = s.subrange(le as int, s.len() as int);
            if r.len() >= token.len() && r.subrange(0, token.len() as int) == token {
                match index_of(r.subrange(token.len() as int, r.len() as int), crlf()) {
                    Some(m) => Ok(
                        (
                            trim(
                                s.subrange(le as int, (le + token.len() + m + 2) as int),
                                ascii_whitespace(),
                            ),
                            le + token.len() + m + 2,
                        ),
                    ),
                    None => Err(ParseError::Error),
                }
            } else if r.len() < token.len() && token.subrange(0, r.len() as int) == r {
                Err(ParseError::Incomplete)
            } else {
                Err(ParseError::Error)
            }
        },
    }
}

/// One step of digesting when no URC matched: skip the echo, then look for a
/// success response, a prompt and an error response; when none is found, only
/// the echo (without trailing line endings) is consumed.
pub open spec fn spec_digest_response(input: Seq<u8>) -> (DigestOutcome, nat) {
    let e: nat = match spec_echo(input) {
        Some(n) => n,
        None => 0,
    };
    let buf = input.subrange(e as int, input.len() as int);
    match spec_success(buf) {
        Some((d, n)) => (DigestOutcome::Response(d), n + e),
        None => match spec_prompt(buf) {
            Some(p) => (DigestOutcome::Prompt(p), input.len()),
            None => match spec_error_response(buf) {
                Ok((err, n)) => (DigestOutcome::Failure(err), n + e),
                Err(_) => (DigestOutcome::Nothing, spec_adjust_ending(input.subrange(0, e as int))),
            },
        },
    }
}

/// One step of digesting, given what the URC matcher found at the start of the
/// input (the URC and its length).
pub open spec fn spec_digest(input: Seq<u8>, urc: Option<(Seq<u8>, nat)>) -> (DigestOutcome, nat) {
    match urc {
        Some((u, n)) => (DigestOutcome::Urc(u), n),
        None => spec_digest_response(input),
    }
}

/// The data a digest step reports is never longer than its input, and an
/// error it reports never carries a custom message.
pub proof fn lemma_digest_response_fits(input: Seq<u8>)
    ensures
        outcome_fits(spec_digest_response(input).0, input.len()),
        !(spec_digest_response(input).0 matches DigestOutcome::Failure(InternalError::Custom(_))),
{
    reveal(spec_success);
    reveal(spec_error_response);
    let e: nat = match spec_echo(input) {
        Some(n) => n,
        None => 0,
    };
    lemma_index_of(input, crlf());
    let buf = input.subrange(e as int, input.len() as int);
    lemma_index_of(buf, ok_tag());
    lemma_index_of(buf, connect_tag());
    match index_of(buf, ok_tag()) {
        Some(k) => lemma_trim_len(buf.subrange(0, k as int), ascii_whitespace()),
        None => match index_of(buf, connect_tag()) {
            Some(k) => lemma_trim_len(buf.subrange(0, k as int), ascii_whitespace()),
            None => {},
        },
    }
}

/// Number of bytes of `buf` left once trailing `\r\n` pairs are dropped.
pub fn adjust_ending(buf: &[u8]) -> (len: usize)
    ensures
        len == spec_adjust_ending(buf@),
        len <= buf@.len(),
{
    let mut len = buf.len();
    assert(buf@.subrange(0, len as int) =~= buf@);
    while len >= 2 && buf[len - 2] == 13 && buf[len - 1] == 10
        invariant
            len <= buf@.len(),
            spec_adjust_ending(buf@.subrange(0, len as int)) == spec_adjust_ending(buf@),
        decreases len,
    {
        proof {
            let s = buf@.subrange(0, len as int);
            assert(s.subrange(s.len() - 2, s.len() as int) =~= crlf());
            assert(s.subrange(0, s.len() - 2) =~= buf@.subrange(0, len - 2));
        }
        len -= 2;
    }
    proof {
        let s = buf@.subrange(0, len as int);
        if s.len() >= 2 {
            assert(s.subrange(s.len() - 2, s.len() as int)[0] == buf@[len - 2]);
            assert(s.subrange(s.len() - 2, s.len() as int)[1] == buf@[len - 1]);
        }
    }
    len
}

/// Splits `i` at the first occurrence of `tag`: the data before it and the tag
/// itself are returned, the rest after the tag is left.
pub fn take_until_including<'a>(tag: &[u8], i: &'a [u8]) -> (r: Result<
    (&'a [u8], (&'a [u8], &'a [u8])),
    ParseError,
>)
    ensures
        match index_of(i@, tag@) {
            Some(k) => r matches Ok((rest, (d, t))) && d@ == i@.subrange(0, k as int) && t@
                == tag@ && rest@ == i@.subrange((k + tag@.len()) as int, i@.len() as int)
                && k + tag@.len() <= i@.len() && d@.len() + t@.len() + rest@.len() == i@.len(),
            None => r matches Err(ParseError::Error),
        },
{
    let n = i.len();
    match find(i, tag) {
        Some(k) => {
            proof {
                lemma_index_of(i@, tag@);
            }
            let e = k + tag.len();
            assert(i@.subrange(k as int, e as int) == tag@);
            Ok((&i[e..i.len()], (&i[0..k], &i[k..e])))
        },
        None => Err(ParseError::Error),
    }
}

/// Matches a full AT echo, e.g. `AT+USORD=3,16` in front of `\r\n`: the rest
/// starts at the first `\r\n`. Inputs shorter than two bytes hold no echo.
pub fn echo<'a>(buf: &'a [u8]) -> (r: Result<(&'a [u8], &'a [u8]), ParseError>)
    ensures
        match spec_echo(buf@) {
            Some(n) => r matches Ok((rest, e)) && e@ == buf@.subrange(0, n as int) && rest@
                == buf@.subrange(n as int, buf@.len() as int),
            None => r matches Err(ParseError::Error),
        },
{
    if buf.len() < 2 {
        assert(buf@.subrange(0, 0) =~= Seq::<u8>::empty());
        assert(buf@.subrange(0, buf@.len() as int) =~= buf@);
        return Ok((buf, &buf[0..0]));
    }
    let t = [13u8, 10u8];
    assert(t@ =~= crlf());
    match find(buf, &t) {
        Some(k) => {
            proof {
                lemma_index_of(buf@, crlf());
            }
            Ok((&buf[k..buf.len()], &buf[0..k]))
        },
        None => Err(ParseError::Error),
    }
}

/// The generic success responses: data followed by `\r\nOK\r\n`, or by
/// `\r\nCONNECT` and the rest of that line.
pub fn success_response<'a>(buf: &'a [u8]) -> (r: Result<(&'a [u8], (DigestResult<'a>, usize)), ParseError>)
    ensures
        match spec_success(buf@) {
            Some((d, n)) => r matches Ok((rest, (DigestResult::Response(Ok(x)), len))) && x@ == d
                && len == n && n <= buf@.len() && rest@ == buf@.subrange(n as int, buf@.len() as int),
            None => r matches Err(ParseError::Error),
        },
{
    let _n = buf.len();
    reveal(spec_success);
    let ok = exec_ok_tag();
    match take_until_including(&ok, buf) {
        Ok((rest, (data, tag))) => {
            let len = data.len() + tag.len();
            return Ok((rest, (DigestResult::Response(Ok(trim_ascii_whitespace(data))), len)));
        },
        Err(_) => {},
    }
    let connect = exec_connect_tag();
    match take_until_including(&connect, buf) {
        Ok((rest, (data, tag))) => {
            let crlf_t = [13u8, 10u8];
            assert(crlf_t@ =~= crlf());
            match take_until_including(&crlf_t, rest) {
                Ok((rest2, (line, le))) => {
                    let len = data.len() + tag.len() + line.len() + le.len();
                    assert(rest2@ =~= buf@.subrange(len as int, buf@.len() as int));
                    Ok((rest2, (DigestResult::Response(Ok(trim_ascii_whitespace(data))), len)))
                },
                Err(e) => Err(e),
            }
        },
        Err(e) => Err(e),
    }
}

/// Whether the prompt character `p` occurs in `buf` followed by nothing but
/// whitespace.
fn prompt_found(buf: &[u8], p: u8) -> (r: bool)
    ensures
        r == prompt_at(buf@, p),
{
    let _n = buf.len();
    let t = [p];
    assert(t@ =~= seq![p]);
    match take_until_including(&t, buf) {
        Ok((rest, _)) => multispace_len(rest) == rest.len(),
        Err(_) => false,
    }
}

/// A prompt for data (`>` or `@`) followed by nothing but whitespace; the whole
/// buffer is consumed.
pub fn prompt_response<'a>(buf: &'a [u8]) -> (r: Result<(&'a [u8], (DigestResult<'a>, usize)), ParseError>)
    ensures
        match spec_prompt(buf@) {
            Some(p) => r matches Ok((rest, (DigestResult::Prompt(q), len))) && p == q && len
                == buf@.len() && rest@.len() == 0,
            None => r matches Err(ParseError::Error),
        },
{
    reveal(spec_prompt);
    if prompt_found(buf, 62) {
        return Ok((&buf[buf.len()..buf.len()], (DigestResult::Prompt(62), buf.len())));
    }
    if prompt_found(buf, 64) {
        return Ok((&buf[buf.len()..buf.len()], (DigestResult::Prompt(64), buf.len())));
    }
    Err(ParseError::Error)
}

/// Matches the equivalent of regex: "{token}\s*(\d+)\r\n", returning the
/// number and the length of the match.
pub fn numeric_error<'a>(token: &[u8], i: &'a [u8]) -> (r: Result<(&'a [u8], (u16, usize)), ParseError>)
    ensures
        match spec_numeric_error(i@, token@) {
            Some((v, n)) => r matches Ok((rest, (c, len))) && c == v && len == n && n <= i@.len() && rest@
                == i@.subrange(n as int, i@.len() as int),
            None => r matches Err(ParseError::Error),
        },
{
    let _n = i.len();
    let k = match find(i, token) {
        Some(k) => k,
        None => return Err(ParseError::Error),
    };
    proof {
        lemma_index_of(i@, token@);
    }
    let a = k + token.len();
    let ws = multispace_len(&i[a..i.len()]);
    let b = a + ws;
    let d = digit_run_len(&i[b..i.len()]);
    proof {
        lemma_digit_run(i@.subrange(b as int, i@.len() as int));
    }
    if d == 0 {
        return Err(ParseError::Error);
    }
    let digits = &i[b..b + d];
    assert forall|j: int| 0 <= j < digits@.len() implies crate::bytes::is_digit(
        #[trigger] digits@[j],
    ) by {
        assert(digits@[j] == i@.subrange(b as int, i@.len() as int)[j]);
    }
    let v = match parse_u16_digits(digits) {
        Some(v) => v,
        None => return Err(ParseError::Error),
    };
    let e = b + d;
    let le = match line_ending(&i[e..i.len()]) {
        Some(le) => le,
        None => return Err(ParseError::Error),
    };
    Ok((&i[e + le..i.len()], (v, e + le)))
}

/// Matches the equivalent of regex: "{token}\s*([^\n\r]+)\r\n", returning the
/// message (trimmed) and the length of the match.
pub fn string_error<'a>(token: &[u8], i: &'a [u8]) -> (r: Result<(&'a [u8], (&'a [u8], usize)), ParseError>)
    ensures
        match spec_string_error(i@, token@) {
            Ok((m, n)) => r matches Ok((rest, (msg, len))) && msg@ == m && len == n && n <= i@.len() && rest@
                == i@.subrange(n as int, i@.len() as int),
            Err(e) => r matches Err(f) && e == f,
        },
{
    let _n = i.len();
    let k = match find(i, token) {
        Some(k) => k,
        None => return Err(ParseError::Error),
    };
    proof {
        lemma_index_of(i@, token@);
    }
    let a = k + token.len();
    if a == i.len() {
        return Err(ParseError::Incomplete);
    }
    if i[a] == 13 {
        return Err(ParseError::Error);
    }
    let crlf_t = [13u8, 10u8];
    assert(crlf_t@ =~= crlf());
    match take_until_including(&crlf_t, &i[a..i.len()]) {
        Ok((rest, (line, le))) => {
            let len = a + line.len() + le.len();
            let msg = &i[a..len];
            assert(rest@ =~= i@.subrange(len as int, i@.len() as int));
            Ok((rest, (trim_ascii_whitespace(msg), len)))
        },
        Err(e) => Err(e),
    }
}

/// Matches the equivalent of regex: "\r\n(ERROR)|(COMMAND NOT SUPPORT)\r\n",
/// returning the length of the match.
pub fn generic_error<'a>(i: &'a [u8]) -> (r: Result<(&'a [u8], usize), ParseError>)
    ensures
        match spec_generic_error(i@) {
            Some(n) => r matches Ok((rest, len)) && len == n && n <= i@.len() && rest@ == i@.subrange(
                n as int,
                i@.len() as int,
            ),
            None => r matches Err(ParseError::Error),
        },
{
    let _n = i.len();
    let t = exec_error_tag();
    if let Ok((rest, (data, tag))) = take_until_including(&t, i) {
        return Ok((rest, data.len() + tag.len()));
    }
    let t = exec_not_supported_tag();
    match take_until_including(&t, i) {
        Ok((rest, (data, tag))) => Ok((rest, data.len() + tag.len())),
        Err(e) => Err(e),
    }
}

/// Matches the equivalent of regex: "\r\n(NO CARRIER)|(BUSY)|(NO ANSWER)|(NO DIALTONE)\r\n",
/// returning the connection error and the length of the match.
pub fn connection_error<'a>(i: &'a [u8]) -> (r: Result<(&'a [u8], (ConnectionError, usize)), ParseError>)
    ensures
        match spec_connection_error(i@) {
            Some((c, n)) => r matches Ok((rest, (e, len))) && e == c && len == n && n <= i@.len() && rest@
                == i@.subrange(n as int, i@.len() as int),
            None => r matches Err(ParseError::Error),
        },
{
    let _n = i.len();
    let t = exec_no_carrier_tag();
    if let Ok((rest, (data, tag))) = take_until_including(&t, i) {
        return Ok((rest, (ConnectionError::NoCarrier, data.len() + tag.len())));
    }
    let t = exec_busy_tag();
    if let Ok((rest, (data, tag))) = take_until_including(&t, i) {
        return Ok((rest, (ConnectionError::Busy, data.len() + tag.len())));
    }
    let t = exec_no_answer_tag();
    if let Ok((rest, (data, tag))) = take_until_including(&t, i) {
        return Ok((rest, (ConnectionError::NoAnswer, data.len() + tag.len())));
    }
    let t = exec_no_dialtone_tag();
    match take_until_including(&t, i) {
        Ok((rest, (data, tag))) => Ok((rest, (ConnectionError::NoDialtone, data.len() + tag.len()))),
        Err(e) => Err(e),
    }
}

/// The error result codes; see `spec_error_response` for the order in which
/// they are tried.
pub fn error_response<'a>(buf: &'a [u8]) -> (r: Result<(&'a [u8], (DigestResult<'a>, usize)), ParseError>)
    ensures
        match spec_error_response(buf@) {
            Ok((e, n)) => r matches Ok((rest, (DigestResult::Response(Err(f)), len))) && f == e
                && len == n && n <= buf@.len() && rest@ == buf@.subrange(n as int, buf@.len() as int),
            Err(e) => r matches Err(f) && e == f,
        },
{
    reveal(spec_error_response);
    let cme = exec_cme_error_tag();
    let cms = exec_cms_error_tag();
    if let Ok((rest, (code, len))) = numeric_error(&cme, buf) {
        return Ok((rest, (DigestResult::Response(Err(InternalError::CmeError(CmeError::from(code)))), len)));
    }
    if let Ok((rest, (code, len))) = numeric_error(&cms, buf) {
        return Ok((rest, (DigestResult::Response(Err(InternalError::CmsError(CmsError::from(code)))), len)));
    }
    match string_error(&cme, buf) {
        Ok((rest, (msg, len))) => {
            return Ok((rest, (DigestResult::Response(Err(InternalError::CmeError(CmeError::from_msg(msg)))), len)));
        },
        Err(ParseError::Incomplete) => return Err(ParseError::Incomplete),
        Err(ParseError::Error) => {},
    }
    match string_error(&cms, buf) {
        Ok((rest, (msg, len))) => {
            return Ok((rest, (DigestResult::Response(Err(InternalError::CmsError(CmsError::from_msg(msg)))), len)));
        },
        Err(ParseError::Incomplete) => return Err(ParseError::Incomplete),
        Err(ParseError::Error) => {},
    }
    let modem = exec_modem_error_tag();
    if let Ok((rest, (_code, len))) = numeric_error(&modem, buf) {
        return Ok((rest, (DigestResult::Response(Err(InternalError::CmeError(CmeError::Unknown))), len)));
    }
    if let Ok((rest, len)) = generic_error(buf) {
        return Ok((rest, (DigestResult::Response(Err(InternalError::Error)), len)));
    }
    match connection_error(buf) {
        Ok((rest, (e, len))) => Ok((rest, (DigestResult::Response(Err(InternalError::ConnectionError(e))), len))),
        Err(e) => Err(e),
    }
}

/// Matches the equivalent of regex: "\r\n{token}(.*)\r\n", returning the URC
/// line (trimmed) and the length of the match.
pub fn urc_helper<'a>(token: &[u8], i: &'a [u8]) -> (r: Result<(&'a [u8], (&'a [u8], usize)), ParseError>)
    ensures
        match spec_urc_helper(i@, token@) {
            Ok((u, n)) => r matches Ok((rest, (urc, len))) && urc@ == u && len == n && n <= i@.len() && rest@
                == i@.subrange(n as int, i@.len() as int),
            Err(e) => r matches Err(f) && e == f,
        },
{
    let _n = i.len();
    let le = match line_ending(i) {
        Some(le) => le,
        None => return Err(ParseError::Error),
    };
    let r = &i[le..i.len()];
    if r.len() >= token.len() {
        if !crate::bytes::eq_at(r, 0, token) {
            return Err(ParseError::Error);
        }
    } else {
        let t = &token[0..r.len()];
        if !crate::bytes::eq_at(r, 0, t) {
            assert(r@.subrange(0, t@.len() as int) =~= r@);
            return Err(ParseError::Error);
        }
        assert(r@.subrange(0, t@.len() as int) =~= r@);
        return Err(ParseError::Incomplete);
    }
    let crlf_t = [13u8, 10u8];
    assert(crlf_t@ =~= crlf());
    match take_until_including(&crlf_t, &r[token.len()..r.len()]) {
        Ok((rest, (line, tail))) => {
            let len = le + token.len() + line.len() + tail.len();
            assert(rest@ =~= i@.subrange(len as int, i@.len() as int));
            Ok((rest, (trim_ascii_whitespace(&i[le..len]), len)))
        },
        Err(e) => Err(e),
    }
}

/// One step of digesting `input` when no URC was found at its start.
pub fn digest_response<'a>(input: &'a [u8]) -> (r: (DigestResult<'a>, usize))
    ensures
        r.0.is_outcome(spec_digest_response(input@).0),
        r.1 == spec_digest_response(input@).1,
        r.1 <= input@.len(),
{
    let _n = input.len();
    proof {
        lemma_index_of(input@, crlf());
    }
    // 1. Optionally discard echo
    let echo_bytes = match echo(input) {
        Ok((_, e)) => e.len(),
        Err(_) => 0,
    };
    let buf = &input[echo_bytes..input.len()];
    // 2. Generic success replies
    if let Ok((_, (result, len))) = success_response(buf) {
        return (result, len + echo_bytes);
    }
    // 3. Generic prompts for data
    if let Ok((_, (result, len))) = prompt_response(buf) {
        return (result, len + echo_bytes);
    }
    // 4. Generic error matches
    if let Ok((_, (result, len))) = error_response(buf) {
        return (result, len + echo_bytes);
    }
    // No matches at all. Just eat the echo and do nothing else.
    (DigestResult::Nothing, adjust_ending(&input[0..echo_bytes]))
}

/// One step of digesting `input`, given what the URC matcher reported for it.
pub fn digest_with<'a>(input: &'a [u8], urc: Result<(&'a [u8], usize), ParseError>) -> (r: (
    DigestResult<'a>,
    usize,
))
    ensures
        match urc {
            Ok((u, n)) => r.0 == DigestResult::Urc(u) && r.1 == n,
            Err(_) => r.0.is_outcome(spec_digest_response(input@).0) && r.1 == spec_digest_response(
                input@,
            ).1 && r.1 <= input@.len(),
        },
{
    match urc {
        Ok((u, n)) => (DigestResult::Urc(u), n),
        Err(_) => digest_response(input),
    }
}

/// The first occurrence of `t` in `s` is at `k`.
pub open spec fn first_at(s: Seq<u8>, t: Seq<u8>, k: int) -> bool {
    occurs_at(s, t, k) && forall|j: int| 0 <= j < k ==> !occurs_at(s, t, j)
}

/// `index_of` is the first occurrence.
proof fn lemma_index_of_first(s: Seq<u8>, t: Seq<u8>, k: int)
    requires
        first_at(s, t, k),
    ensures
        index_of(s, t) == Some(k as nat),
{
    lemma_index_of(s, t);
    if let Some(k2) = index_of(s, t) {
        if k2 < k {
            assert(!occurs_at(s, t, k2 as int));
        }
        if k2 > k {
            assert(!occurs_at(s, t, k));
        }
    }
}

/// A success response that ends in `OK`: the data before the first
/// `\r\nOK\r\n`, trimmed of ASCII whitespace, and the bytes through it.
pub proof fn lemma_success_ok(s: Seq<u8>, k: int)
    requires
        first_at(s, seq![13u8, 10u8, 79u8, 75u8, 13u8, 10u8], k),
    ensures
        spec_success(s) == Some((trim(s.subrange(0, k), ascii_whitespace()), (k + 6) as nat)),
{
    reveal(spec_success);
    assert(ok_tag() =~= seq![13u8, 10u8, 79u8, 75u8, 13u8, 10u8]);
    lemma_index_of_first(s, ok_tag(), k);
}

/// A success response that ends in `CONNECT` (as after a dial): when there is
/// no `\r\nOK\r\n`, the first `\r\nCONNECT` is at `k`, and the first
/// `\r\n` after it at `k + 9 + m`, the data before `\r\nCONNECT`, trimmed of
/// ASCII whitespace, is the response, and the bytes through the end of the
/// `CONNECT` line are consumed.
pub proof fn lemma_success_connect(s: Seq<u8>, k: int, m: int)
    requires
        forall|j: int| !occurs_at(s, seq![13u8, 10u8, 79u8, 75u8, 13u8, 10u8], j),
        first_at(s, seq![13u8, 10u8, 67u8, 79u8, 78u8, 78u8, 69u8, 67u8, 84u8], k),
        0 <= m,
        occurs_at(s, seq![13u8, 10u8], k + 9 + m),
        forall|j: int| k + 9 <= j < k + 9 + m ==> !occurs_at(s, seq![13u8, 10u8], j),
    ensures
        spec_success(s) == Some((trim(s.subrange(0, k), ascii_whitespace()), (k + 9 + m + 2) as nat)),
{
    reveal(spec_success);
    assert(ok_tag() =~= seq![13u8, 10u8, 79u8, 75u8, 13u8, 10u8]);
    assert(connect_tag() =~= seq![13u8, 10u8, 67u8, 79u8, 78u8, 78u8, 69u8, 67u8, 84u8]);
    assert(crlf() =~= seq![13u8, 10u8]);
    lemma_index_of(s, ok_tag());
    lemma_index_of_first(s, connect_tag(), k);
    let rest = s.subrange(k + 9, s.len() as int);
    assert(rest.subrange(m, m + 2) =~= s.subrange(k + 9 + m, k + 9 + m + 2));
    assert forall|j: int| 0 <= j < m implies !occurs_at(rest, crlf(), j) by {
        assert(!occurs_at(s, seq![13u8, 10u8], k + 9 + j));
        if j + 2 <= rest.len() {
            assert(rest.subrange(j, j + 2) =~= s.subrange(k + 9 + j, k + 9 + j + 2));
        }
    }
    lemma_index_of_first(rest, crlf(), m);
}

/// Digesting a buffer that starts with a line ending (so holds no echo), when
/// no URC matches: a `CONNECT` line as `lemma_success_connect` describes it is
/// a success response holding the trimmed data before it, and the bytes
/// through the end of that line are consumed.
pub proof fn lemma_digest_connect(s: Seq<u8>, k: int, m: int)
    requires
        s.len() >= 2,
        s[0] == 13u8,
        s[1] == 10u8,
        forall|j: int| !occurs_at(s, seq![13u8, 10u8, 79u8, 75u8, 13u8, 10u8], j),
        first_at(s, seq![13u8, 10u8, 67u8, 79u8, 78u8, 78u8, 69u8, 67u8, 84u8], k),
        0 <= m,
        occurs_at(s, seq![13u8, 10u8], k + 9 + m),
        forall|j: int| k + 9 <= j < k + 9 + m ==> !occurs_at(s, seq![13u8, 10u8], j),
    ensures
        spec_digest(s, None) == (
            DigestOutcome::Response(trim(s.subrange(0, k), ascii_whitespace())),
            (k + 9 + m + 2) as nat,
        ),
{
    assert(crlf() =~= seq![13u8, 10u8]);
    assert(s.subrange(0, 2) =~= crlf());
    lemma_index_of_first(s, crlf(), 0);
    assert(s.subrange(0, s.len() as int) =~= s);
    lemma_success_connect(s, k, m);
}

/// Digesting a buffer that starts with a line ending, when no URC matches:
/// the data before the first `\r\nOK\r\n`, trimmed, is a success response,
/// and the bytes through it are consumed.
pub proof fn lemma_digest_ok(s: Seq<u8>, k: int)
    requires
        s.len() >= 2,
        s[0] == 13u8,
        s[1] == 10u8,
        first_at(s, seq![13u8, 10u8, 79u8, 75u8, 13u8, 10u8], k),
    ensures
        spec_digest(s, None) == (
            DigestOutcome::Response(trim(s.subrange(0, k), ascii_whitespace())),
            (k + 6) as nat,
        ),
{
    assert(crlf() =~= seq![13u8, 10u8]);
    assert(s.subrange(0, 2) =~= crlf());
    lemma_index_of_first(s, crlf(), 0);
    assert(s.subrange(0, s.len() as int) =~= s);
    lemma_success_ok(s, k);
}

/// A sequence made only of spaces, tabs and line endings trims to nothing.
proof fn lemma_trim_start_all(x: Seq<u8>)
    requires
        forall|j: int| 0 <= j < x.len() ==> x[j] == 32u8 || x[j] == 9u8 || x[j] == 13u8 || x[j] == 10u8,
    ensures
        trim_start(x, multispace()).len() == 0,
    decreases x.len(),
{
    if x.len() > 0 {
        assert(multispace().contains(x[0])) by {
            assert(multispace()[0] == 32u8 && multispace()[1] == 9u8 && multispace()[2] == 13u8
                && multispace()[3] == 10u8);
        }
        assert forall|j: int| 0 <= j < x.drop_first().len() implies x.drop_first()[j] == 32u8
            || x.drop_first()[j] == 9u8 || x.drop_first()[j] == 13u8 || x.drop_first()[j]
            == 10u8 by {
            assert(x.drop_first()[j] == x[j + 1]);
        }
        lemma_trim_start_all(x.drop_first());
    }
}

/// Digesting a buffer that starts with a line ending, when no URC matches and
/// it holds neither `\r\nOK\r\n` nor `\r\nCONNECT`: a `>` followed only by
/// spaces, tabs and line endings is the prompt for data, and the whole
/// buffer is consumed.
pub proof fn lemma_digest_prompt(s: Seq<u8>, k: int)
    requires
        s.len() >= 2,
        s[0] == 13u8,
        s[1] == 10u8,
        forall|j: int| !occurs_at(s, seq![13u8, 10u8, 79u8, 75u8, 13u8, 10u8], j),
        forall|j: int| !occurs_at(s, seq![13u8, 10u8, 67u8, 79u8, 78u8, 78u8, 69u8, 67u8, 84u8], j),
        first_at(s, seq![62u8], k),
        forall|j: int| k < j < s.len() ==> s[j] == 32u8 || s[j] == 9u8 || s[j] == 13u8 || s[j] == 10u8,
    ensures
        spec_digest(s, None) == (DigestOutcome::Prompt(62u8), s.len()),
{
    reveal(spec_success);
    reveal(spec_prompt);
    assert(crlf() =~= seq![13u8, 10u8]);
    assert(s.subrange(0, 2) =~= crlf());
    lemma_index_of_first(s, crlf(), 0);
    assert(s.subrange(0, s.len() as int) =~= s);
    assert(ok_tag() =~= seq![13u8, 10u8, 79u8, 75u8, 13u8, 10u8]);
    assert(connect_tag() =~= seq![13u8, 10u8, 67u8, 79u8, 78u8, 78u8, 69u8, 67u8, 84u8]);
    lemma_index_of(s, ok_tag());
    lemma_index_of(s, connect_tag());
    lemma_index_of_first(s, seq![62u8], k);
    let after = s.subrange(k + 1, s.len() as int);
    assert forall|j: int| 0 <= j < after.len() implies after[j] == 32u8 || after[j] == 9u8
        || after[j] == 13u8 || after[j] == 10u8 by {
        assert(after[j] == s[k + 1 + j]);
    }
    lemma_trim_start_all(after);
}

/// Dropping the leading spaces, tabs and line endings drops exactly the first
/// `n` bytes when those are such bytes and the next is not.
proof fn lemma_trim_start_prefix(x: Seq<u8>, n: int)
    requires
        0 <= n <= x.len(),
        forall|j: int| 0 <= j < n ==> x[j] == 32u8 || x[j] == 9u8 || x[j] == 13u8 || x[j] == 10u8,
        n < x.len() ==> !(x[n] == 32u8 || x[n] == 9u8 || x[n] == 13u8 || x[n] == 10u8),
    ensures
        trim_start(x, multispace()) == x.subrange(n, x.len() as int),
    decreases n,
{
    assert(multispace() =~= seq![32u8, 9u8, 13u8, 10u8]);
    if n == 0 {
        assert(x.subrange(0, x.len() as int) =~= x);
        if x.len() > 0 {
            assert(!multispace().contains(x[0])) by {
                if multispace().contains(x[0]) {
                    let i = choose|i: int| 0 <= i < 4 && multispace()[i] == x[0];
                }
            }
        }
    } else {
        assert(multispace().contains(x[0])) by {
            assert(multispace()[0] == 32u8 && multispace()[1] == 9u8 && multispace()[2] == 13u8
                && multispace()[3] == 10u8);
        }
        assert forall|j: int| 0 <= j < n - 1 implies x.drop_first()[j] == 32u8
            || x.drop_first()[j] == 9u8 || x.drop_first()[j] == 13u8 || x.drop_first()[j]
            == 10u8 by {
            assert(x.drop_first()[j] == x[j + 1]);
        }
        if n < x.len() {
            assert(x.drop_first()[n - 1] == x[n]);
        }
        lemma_trim_start_prefix(x.drop_first(), n - 1);
        assert(x.drop_first().subrange(n - 1, x.drop_first().len() as int) =~= x.subrange(
            n,
            x.len() as int,
        ));
    }
}

/// The digit run of `x` is its first `n` bytes when those are digits and the
/// next is not.
proof fn lemma_digit_run_prefix(x: Seq<u8>, n: int)
    requires
        0 <= n <= x.len(),
        forall|j: int| 0 <= j < n ==> is_digit(x[j]),
        n < x.len() ==> !is_digit(x[n]),
    ensures
        digit_run(x) == n,
    decreases n,
{
    if n > 0 {
        assert forall|j: int| 0 <= j < n - 1 implies is_digit(x.drop_first()[j]) by {
            assert(x.drop_first()[j] == x[j + 1]);
        }
        if n < x.len() {
            assert(x.drop_first()[n - 1] == x[n]);
        }
        lemma_digit_run_prefix(x.drop_first(), n - 1);
    }
}

/// A numeric error code: when the first occurrence of `token` ends at `a`,
/// spaces, tabs or line endings run from `a` to `b`, the digits from `b` to
/// `b + n` (a value that fits a `u16`), and a `\r\n` follows, the code is
/// that value and the bytes through the `\r\n` are consumed.
pub proof fn lemma_numeric_error(s: Seq<u8>, token: Seq<u8>, k: int, b: int, n: int)
    requires
        first_at(s, token, k),
        k + token.len() <= b,
        0 < n,
        b + n + 2 <= s.len(),
        forall|j: int| k + token.len() <= j < b ==> s[j] == 32u8 || s[j] == 9u8 || s[j] == 13u8
            || s[j] == 10u8,
        forall|j: int| b <= j < b + n ==> is_digit(s[j]),
        s[b + n] == 13u8,
        s[b + n + 1] == 10u8,
        digits_value(s.subrange(b, b + n)) <= 65535,
    ensures
        spec_numeric_error(s, token) == Some(
            (digits_value(s.subrange(b, b + n)) as u16, (b + n + 2) as nat),
        ),
{
    lemma_index_of_first(s, token, k);
    let a = k + token.len();
    let x = s.subrange(a, s.len() as int);
    assert forall|j: int| 0 <= j < b - a implies x[j] == 32u8 || x[j] == 9u8 || x[j] == 13u8
        || x[j] == 10u8 by {
        assert(x[j] == s[a + j]);
    }
    assert(x[b - a] == s[b]);
    assert(is_digit(s[b]));
    lemma_trim_start_prefix(x, b - a);
    let y = s.subrange(b, s.len() as int);
    assert forall|j: int| 0 <= j < n implies is_digit(y[j]) by {
        assert(y[j] == s[b + j]);
    }
    assert(y[n] == s[b + n]);
    lemma_digit_run_prefix(y, n);
    let z = s.subrange(b + n, s.len() as int);
    assert(z[0] == 13u8 && z[1] == 10u8);
}

/// Digesting a `+CME ERROR` with a numeric code, in a buffer that starts with
/// a line ending, when no URC matches and the buffer holds no success
/// result, no `>` or `@` prompt: the error is the one the code stands for,
/// and the bytes through its line are consumed.
pub proof fn lemma_digest_cme_error(s: Seq<u8>, k: int, b: int, n: int)
    requires
        s.len() >= 2,
        s[0] == 13u8,
        s[1] == 10u8,
        forall|j: int| !occurs_at(s, seq![13u8, 10u8, 79u8, 75u8, 13u8, 10u8], j),
        forall|j: int| !occurs_at(s, seq![13u8, 10u8, 67u8, 79u8, 78u8, 78u8, 69u8, 67u8, 84u8], j),
        forall|j: int| !occurs_at(s, seq![62u8], j),
        forall|j: int| !occurs_at(s, seq![64u8], j),
        first_at(
            s,
            seq![13u8, 10u8, 43u8, 67u8, 77u8, 69u8, 32u8, 69u8, 82u8, 82u8, 79u8, 82u8, 58u8],
            k,
        ),
        k + 13 <= b,
        0 < n,
        b + n + 2 <= s.len(),
        forall|j: int| k + 13 <= j < b ==> s[j] == 32u8 || s[j] == 9u8 || s[j] == 13u8 || s[j]
            == 10u8,
        forall|j: int| b <= j < b + n ==> is_digit(s[j]),
        s[b + n] == 13u8,
        s[b + n + 1] == 10u8,
        digits_value(s.subrange(b, b + n)) <= 65535,
    ensures
        spec_digest(s, None) == (
            DigestOutcome::Failure(
                InternalError::CmeError(
                    cme_error_from_code(digits_value(s.subrange(b, b + n)) as u16),
                ),
            ),
            (b + n + 2) as nat,
        ),
{
    reveal(spec_success);
    reveal(spec_prompt);
    reveal(spec_error_response);
    assert(crlf() =~= seq![13u8, 10u8]);
    assert(s.subrange(0, 2) =~= crlf());
    lemma_index_of_first(s, crlf(), 0);
    assert(s.subrange(0, s.len() as int) =~= s);
    assert(ok_tag() =~= seq![13u8, 10u8, 79u8, 75u8, 13u8, 10u8]);
    assert(connect_tag() =~= seq![13u8, 10u8, 67u8, 79u8, 78u8, 78u8, 69u8, 67u8, 84u8]);
    assert(cme_error_tag() =~= seq![13u8, 10u8, 43u8, 67u8, 77u8, 69u8, 32u8, 69u8, 82u8, 82u8, 79u8, 82u8, 58u8]);
    lemma_index_of(s, ok_tag());
    lemma_index_of(s, connect_tag());
    lemma_index_of(s, seq![62u8]);
    lemma_index_of(s, seq![64u8]);
    lemma_numeric_error(s, cme_error_tag(), k, b, n);
}

} // verus!

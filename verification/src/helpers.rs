//! Line handling for the line-based digester: trimming slices and cutting
//! complete lines out of a receive buffer.
use crate::bytes::{
    contains_byte, eq_at, find, index_of, lemma_index_of, lemma_trim_end_step,
    lemma_trim_start_step, lead_len, leading_len, occurs_at, trim, trim_end, trim_set,
    trim_start,
};
use crate::coded_error::utf8_valid;
use vstd::utf8::valid_utf8;
use vstd::prelude::*;

verus! {

/// Index of the last occurrence of `t` in `s` that starts before `i`.
pub open spec fn last_index_before(s: Seq<u8>, t: Seq<u8>, i: nat) -> Option<nat>
    decreases i,
{
    if i == 0 {
        None
    } else if occurs_at(s, t, i - 1) {
        Some((i - 1) as nat)
    } else {
        last_index_before(s, t, (i - 1) as nat)
    }
}

/// Index of the last occurrence of `t` in `s`.
pub open spec fn last_index_of(s: Seq<u8>, t: Seq<u8>) -> Option<nat> {
    if t.len() > s.len() {
        None
    } else {
        last_index_before(s, t, (s.len() - t.len() + 1) as nat)
    }
}

pub proof fn lemma_last_index_before(s: Seq<u8>, t: Seq<u8>, i: nat)
    ensures
        last_index_before(s, t, i) matches Some(k) ==> k < i && occurs_at(s, t, k as int),
    decreases i,
{
    if i > 0 && !occurs_at(s, t, i - 1) {
        lemma_last_index_before(s, t, (i - 1) as nat);
    }
}

/// Index of the last occurrence of `t` in `s`.
pub fn rfind(s: &[u8], t: &[u8]) -> (r: Option<usize>)
    ensures
        match r {
            Some(k) => last_index_of(s@, t@) == Some(k as nat) && k + t@.len() <= s@.len(),
            None => last_index_of(s@, t@) is None,
        },
{
    if t.len() > s.len() {
        return None;
    }
    let mut i: usize = s.len() - t.len();
    loop
        invariant
            i <= s@.len() - t@.len(),
            t@.len() <= s@.len(),
            last_index_of(s@, t@) == last_index_before(s@, t@, (i + 1) as nat),
        decreases i,
    {
        if eq_at(s, i, t) {
            assert(occurs_at(s@, t@, i as int));
            assert(last_index_before(s@, t@, (i + 1) as nat) == Some(i as nat));
            return Some(i);
        }
        if i == 0 {
            assert(!occurs_at(s@, t@, 0));
            assert(last_index_before(s@, t@, 1) == last_index_before(s@, t@, 0));
            return None;
        }
        i -= 1;
    }
}

/// The bytes a response line may be padded with: tab, space and the two line
/// termination characters.
pub open spec fn line_padding(line_term_char: u8, format_char: u8) -> Seq<u8> {
    seq![9u8, 32u8, format_char, line_term_char]
}

/// Cutting a line out of `buf`: the line runs from the start of `buf` through
/// the first (or, with `reverse`, the last) occurrence of `needle` and the line
/// termination characters that directly follow it. The line, trimmed of
/// padding when `trim_response` is set, and the rest of the buffer are
/// returned; nothing is found in an empty buffer or one without `needle`.
pub open spec fn spec_get_line(
    buf: Seq<u8>,
    needle: Seq<u8>,
    line_term_char: u8,
    format_char: u8,
    trim_response: bool,
    reverse: bool,
) -> Option<(Seq<u8>, Seq<u8>)> {
    let ind = if reverse {
        last_index_of(buf, needle)
    } else {
        index_of(buf, needle)
    };
    if buf.len() == 0 {
        None
    } else {
        match ind {
            None => None,
            Some(i) => {
                let end = i + needle.len();
                let cut = end + lead_len(
                    buf.subrange(end as int, buf.len() as int),
                    seq![format_char, line_term_char],
                );
                let left = buf.subrange(0, cut as int);
                Some(
                    (
                        if trim_response {
                            trim(left, line_padding(line_term_char, format_char))
                        } else {
                            left
                        },
                        buf.subrange(cut as int, buf.len() as int),
                    ),
                )
            },
        }
    }
}

/// Helper function to take a subsection from `buf`.
///
/// It searches for `needle`, either from the beginning of buf, or the end,
/// depending on `reverse`. If the search finds a match, it continues forward as
/// long as the next characters matches `line_term_char` or `format_char`. It
/// then returns a substring, trimming it for whitespaces if `trim_response` is
/// true, and leaves the remainder in `buf`.
pub fn get_line(
    buf: &mut Vec<u8>,
    needle: &[u8],
    line_term_char: u8,
    format_char: u8,
    trim_response: bool,
    reverse: bool,
) -> (r: Option<Vec<u8>>)
    requires
        needle@.len() > 0,
    ensures
        match spec_get_line(
            old(buf)@,
            needle@,
            line_term_char,
            format_char,
            trim_response,
            reverse,
        ) {
            Some((line, rest)) => r matches Some(l) && l@ == line && final(buf)@ == rest,
            None => r is None && final(buf)@ == old(buf)@,
        },
{
    if buf.len() == 0 {
        return None;
    }
    let ind = if reverse {
        rfind(buf.as_slice(), needle)
    } else {
        let f = find(buf.as_slice(), needle);
        proof {
            lemma_index_of(buf@, needle@);
        }
        f
    };
    match ind {
        Some(index) => {
            let end = index + needle.len();
            let stop = [format_char, line_term_char];
            assert(stop@ =~= seq![format_char, line_term_char]);
            let white_space = leading_len(&buf.as_slice()[end..buf.len()], &stop);
            let cut = end + white_space;
            let left = &buf.as_slice()[0..cut];
            let line = if trim_response {
                let pad = [9u8, 32u8, format_char, line_term_char];
                assert(pad@ =~= line_padding(line_term_char, format_char));
                trim_set(left, &pad)
            } else {
                left
            };
            let return_buf = vstd::slice::slice_to_vec(line);
            let rest = vstd::slice::slice_to_vec(&buf.as_slice()[cut..buf.len()]);
            *buf = rest;
            Some(return_buf)
        },
        None => None,
    }
}

/// Trimming of byte slices.
pub trait SliceExt {
    fn trim(&self, whitespaces: &[u8]) -> (r: &Self);

    fn trim_start(&self, whitespaces: &[u8]) -> (r: &Self);

    fn trim_end(&self, whitespaces: &[u8]) -> (r: &Self);
}

impl SliceExt for [u8] {
    /// Strips leading and trailing bytes that belong to `whitespaces`.
    fn trim(&self, whitespaces: &[u8]) -> (r: &[u8])
        ensures
            r@ == trim(self@, whitespaces@),
    {
        trim_set(self, whitespaces)
    }

    /// Strips leading bytes that belong to `whitespaces`.
    fn trim_start(&self, whitespaces: &[u8]) -> (r: &[u8])
        ensures
            r@ == trim_start(self@, whitespaces@),
    {
        let n = leading_len(self, whitespaces);
        &self[n..self.len()]
    }

    /// Strips trailing bytes that belong to `whitespaces`.
    fn trim_end(&self, whitespaces: &[u8]) -> (r: &[u8])
        ensures
            r@ == trim_end(self@, whitespaces@),
    {
        let mut e: usize = self.len();
        assert(self@.subrange(0, e as int) =~= self@);
        while e > 0 && contains_byte(whitespaces, self[e - 1])
            invariant
                e <= self@.len(),
                trim_end(self@.subrange(0, e as int), whitespaces@) == trim_end(self@, whitespaces@),
            decreases e,
        {
            proof {
                lemma_trim_end_step(self@, whitespaces@, 0, e as int);
            }
            e -= 1;
        }
        proof {
            if e > 0 {
                lemma_trim_end_step(self@, whitespaces@, 0, e as int);
            } else {
                assert(self@.subrange(0, 0).len() == 0);
            }
        }
        &self[0..e]
    }
}

/// Bytes shown as text where they are valid UTF-8, as raw bytes otherwise.
pub struct LossyStr<'a>(pub &'a [u8]);

impl<'a> LossyStr<'a> {
    /// The bytes are shown as text: they are valid UTF-8.
    pub fn is_text(&self) -> (r: bool)
        ensures
            r == valid_utf8(self.0@),
    {
        utf8_valid(self.0)
    }
}

} // verus!

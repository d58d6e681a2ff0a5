//! A transmitter for tests: it collects what is written to it as text (each
//! byte taken as the character of that code point) in a buffer of 64 bytes,
//! and hands the text over on flush.
use crate::error::ErrorKind;
use vstd::prelude::*;

verus! {

/// The buffer is full.
#[derive(Debug, Clone, Copy, PartialEq, Eq, Structural)]
pub struct IoError;

impl IoError {
    /// The kind of I/O error this is.
    pub fn kind(&self) -> (k: ErrorKind)
        ensures
            k == ErrorKind::Other,
    {
        ErrorKind::Other
    }
}

/// The UTF-8 encoding of the character whose code point is `c`.
pub open spec fn char_utf8(c: u8) -> Seq<u8> {
    if c < 128 {
        seq![c]
    } else {
        seq![(192 + c / 64) as u8, (128 + c % 64) as u8]
    }
}

/// Appending the characters of `data` to the text `t` of a buffer of `cap`
/// bytes: each character that still fits is appended; the first that does
/// not fit stops the write with an error (`false`).
pub open spec fn text_push(t: Seq<u8>, data: Seq<u8>, cap: nat) -> (bool, Seq<u8>)
    decreases data.len(),
{
    if data.len() == 0 {
        (true, t)
    } else if t.len() + char_utf8(data[0]).len() > cap {
        (false, t)
    } else {
        text_push(t + char_utf8(data[0]), data.drop_first(), cap)
    }
}

pub struct TxMock {
    buf: Vec<u8>,
}

impl TxMock {
    /// The text collected so far, as UTF-8.
    pub closed spec fn text(&self) -> Seq<u8> {
        self.buf@
    }

    pub fn new() -> (m: Self)
        ensures
            m.text() == Seq::<u8>::empty(),
    {
        TxMock { buf: Vec::new() }
    }

    /// Writes `buf` as characters; a full buffer stops the write with an error.
    pub fn write(&mut self, buf: &[u8]) -> (r: Result<usize, IoError>)
        requires
            old(self).text().len() <= 64,
        ensures
            text_push(old(self).text(), buf@, 64) == (r is Ok, final(self).text()),
            r matches Ok(n) ==> n == buf@.len(),
            final(self).text().len() <= 64,
    {
        let mut i: usize = 0;
        assert(buf@.subrange(0, buf@.len() as int) =~= buf@);
        while i < buf.len()
            invariant
                i <= buf@.len(),
                self.buf@.len() <= 64,
                text_push(old(self).text(), buf@, 64) == text_push(
                    self.buf@,
                    buf@.subrange(i as int, buf@.len() as int),
                    64,
                ),
            decreases buf@.len() - i,
        {
            let c = buf[i];
            let ghost rest = buf@.subrange(i as int, buf@.len() as int);
            assert(rest[0] == c);
            assert(rest.drop_first() =~= buf@.subrange(i + 1, buf@.len() as int));
            let ghost before = self.buf@;
            if c < 128 {
                if self.buf.len() + 1 > 64 {
                    return Err(IoError);
                }
                self.buf.push(c);
                assert(self.buf@ =~= before + char_utf8(c));
            } else {
                if self.buf.len() + 2 > 64 {
                    return Err(IoError);
                }
                self.buf.push(192 + c / 64);
                self.buf.push(128 + c % 64);
                assert(self.buf@ =~= before + char_utf8(c));
            }
            i += 1;
        }
        assert(buf@.subrange(i as int, buf@.len() as int).len() == 0);
        Ok(buf.len())
    }

    /// Hands over the text collected so far and empties the buffer.
    pub fn flush(&mut self) -> (text: Vec<u8>)
        ensures
            text@ == old(self).text(),
            final(self).text() == Seq::<u8>::empty(),
    {
        let mut out: Vec<u8> = Vec::new();
        std::mem::swap(&mut out, &mut self.buf);
        out
    }
}

} // verus!

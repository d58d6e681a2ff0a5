//! Custom matching of unsolicited result codes for the line-based digester.
use vstd::prelude::*;

verus! {

/// A user-defined URC matcher
///
/// This is used to detect and consume URCs that are not terminated with
/// standard response codes like "OK". An example could be an URC that returns
/// length-value (LV) encoded data without a terminator.
///
/// Note that you should only detect and consume but not process URCs.
/// Processing should be done by an `AtatUrc` implementation.
pub trait UrcMatcher: Sized {
    /// What `process` reports for `buf`, and the buffer it leaves behind. A
    /// matcher that does not override this claims never to handle anything.
    open spec fn process_spec(&self, buf: Seq<u8>) -> (UrcMatch, Seq<u8>) {
        (UrcMatch::NotHandled, buf)
    }

    /// The matcher after looking at `buf`; by default it keeps no state.
    open spec fn processed(&self, buf: Seq<u8>) -> Self {
        *self
    }

    /// Take a look at `buf`. Then:
    ///
    /// - If the buffer contains a full URC, remove these bytes from the buffer
    ///   and return `Complete` with the matched data.
    /// - If it contains an incomplete URC, return `Incomplete`.
    /// - Otherwise, return `NotHandled`.
    fn process(&mut self, buf: &mut Vec<u8>) -> (r: UrcMatcherResult)
        ensures
            r.matched() == old(self).process_spec(old(buf)@).0,
            final(buf)@ == old(self).process_spec(old(buf)@).1,
            *final(self) == old(self).processed(old(buf)@),
    ;
}

/// The type returned from a custom URC matcher.
#[derive(Debug, PartialEq)]
pub enum UrcMatcherResult {
    NotHandled,
    Incomplete,
    Complete(Vec<u8>),
}

/// The value of a `UrcMatcherResult`, with the matched bytes as a sequence.
pub enum UrcMatch {
    NotHandled,
    Incomplete,
    Complete(Seq<u8>),
}

impl UrcMatcherResult {
    /// The value this result carries.
    pub open spec fn matched(self) -> UrcMatch {
        match self {
            UrcMatcherResult::NotHandled => UrcMatch::NotHandled,
            UrcMatcherResult::Incomplete => UrcMatch::Incomplete,
            UrcMatcherResult::Complete(u) => UrcMatch::Complete(u@),
        }
    }
}

/// A URC matcher that does nothing (it always returns `NotHandled`).
#[derive(Debug, Default)]
pub struct DefaultUrcMatcher;

impl UrcMatcher for DefaultUrcMatcher {
    fn process(&mut self, buf: &mut Vec<u8>) -> (r: UrcMatcherResult)
        ensures
            r is NotHandled,
            final(buf)@ == old(buf)@,
    {
        UrcMatcherResult::NotHandled
    }
}

} // verus!

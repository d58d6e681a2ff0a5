//! The slot through which the ingress hands a response to the client: one
//! response at a time, signaled when it is there.
use crate::error::InternalError;
use crate::response::{result_fits, view_of_result, Response, ResponseView};
use vstd::prelude::*;

verus! {

/// The slot already holds a response that the client has not taken.
#[derive(Debug)]
pub struct SlotInUseError;

/// A single response slot.
pub struct ResponseSlot<const N: usize> {
    response: Response<N>,
    signaled: bool,
}

/// The state of a slot: the response it holds, and whether it is signaled.
pub struct SlotView {
    pub response: ResponseView,
    pub signaled: bool,
}

impl<const N: usize> View for ResponseSlot<N> {
    type V = SlotView;

    closed spec fn view(&self) -> SlotView {
        SlotView { response: self.response@, signaled: self.signaled }
    }
}

/// A slot that is offered the response `v`: a signaled slot refuses it and
/// stays as it is; otherwise it takes `v` and is signaled.
pub open spec fn slot_offer(s: SlotView, v: ResponseView) -> SlotView {
    if s.signaled {
        s
    } else {
        SlotView { response: v, signaled: true }
    }
}

impl<const N: usize> ResponseSlot<N> {
    /// An empty slot: not signaled, holding an empty success.
    pub fn new() -> (s: Self)
        ensures
            s@ == (SlotView { response: ResponseView::Success(Seq::empty()), signaled: false }),
    {
        Self { response: Response::default(), signaled: false }
    }

    /// Reset the current response slot
    pub fn reset(&mut self)
        ensures
            final(self)@ == (SlotView { response: old(self)@.response, signaled: false }),
    {
        self.signaled = false;
    }

    /// If signaled, get the response
    pub fn try_get(&self) -> (r: Option<&Response<N>>)
        ensures
            match r {
                Some(x) => self@.signaled && x@ == self@.response,
                None => !self@.signaled,
            },
    {
        if self.signaled {
            Some(&self.response)
        } else {
            None
        }
    }

    /// Stores a prompt, unless a response is already pending.
    pub fn signal_prompt(&mut self, prompt: u8) -> (r: Result<(), SlotInUseError>)
        ensures
            r is Err <==> old(self)@.signaled,
            final(self)@ == slot_offer(old(self)@, ResponseView::Prompt(prompt)),
    {
        if self.signaled {
            return Err(SlotInUseError);
        }
        self.response = Response::Prompt(prompt);
        self.signaled = true;
        Ok(())
    }

    /// Stores a digested result, unless a response is already pending.
    pub fn signal_response(&mut self, response: Result<&[u8], InternalError>) -> (r: Result<
        (),
        SlotInUseError,
    >)
        requires
            result_fits(response, N as nat),
        ensures
            r is Err <==> old(self)@.signaled,
            final(self)@ == slot_offer(old(self)@, view_of_result(response)),
    {
        if self.signaled {
            return Err(SlotInUseError);
        }
        self.response = Response::from_result(response);
        self.signaled = true;
        Ok(())
    }
}

} // verus!

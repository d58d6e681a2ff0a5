//! The ingress: it takes the bytes a modem sends, digests them, hands
//! responses and prompts to the response slot and publishes parsed URCs.
use crate::digest::{outcome_fits, DigestOutcome, DigestResult, Digester};
use crate::response::{view_of_error, ResponseView};
use crate::response_slot::{slot_offer, ResponseSlot, SlotView};
use crate::traits::AtatUrc;
use crate::urc_channel::{channel_publish, ChannelView, UrcChannel};
use vstd::prelude::*;

verus! {

#[derive(Debug, PartialEq, Eq, Structural)]
pub enum Error {
    ResponseSlotBusy,
    UrcChannelFull,
}

/// The state of an ingress apart from its digester: the bytes received and
/// not yet digested, the response slot and the URC channel.
pub struct IngressView<T> {
    pub buf: Seq<u8>,
    pub slot: SlotView,
    pub urcs: ChannelView<T>,
}

/// What one digest step reported: what the digester found and how many bytes
/// it consumed, and, for a URC, what parsing the URC gave.
pub struct StepReport<T> {
    pub outcome: DigestOutcome,
    pub consumed: nat,
    pub parsed: Option<T>,
}

/// What the response slot is offered for a digested outcome, if anything.
pub open spec fn offered(o: DigestOutcome) -> Option<ResponseView> {
    match o {
        DigestOutcome::Prompt(p) => Some(ResponseView::Prompt(p)),
        DigestOutcome::Response(v) => Some(ResponseView::Success(v)),
        DigestOutcome::Failure(e) => Some(view_of_error(e)),
        _ => None,
    }
}

/// Handing a digested outcome on: responses and prompts are offered to the
/// response slot, which keeps the first one until the client takes it; a URC
/// that parsed (to `parsed`) is published to the channel, which holds at most
/// `cap` URCs. `None` when the channel is full.
pub open spec fn dispatched<T>(
    slot: SlotView,
    urcs: ChannelView<T>,
    o: DigestOutcome,
    parsed: Option<T>,
    cap: nat,
) -> Option<(SlotView, ChannelView<T>)> {
    match o {
        DigestOutcome::Urc(_) => match parsed {
            Some(u) => match channel_publish(urcs, cap, u) {
                Some(c) => Some((slot, c)),
                None => None,
            },
            None => Some((slot, urcs)),
        },
        _ => match offered(o) {
            Some(v) => Some((slot_offer(slot, v), urcs)),
            None => Some((slot, urcs)),
        },
    }
}

/// One step of digesting: the report is dispatched, and its bytes dropped from
/// the front of the buffer. The flag tells whether digesting goes on: it stops
/// at a full URC channel (an error, which leaves the bytes of that URC in the
/// buffer) and when the step consumed nothing.
pub open spec fn ingress_step<T>(s: IngressView<T>, rep: StepReport<T>, cap: nat) -> (
    Result<(), Error>,
    bool,
    IngressView<T>,
) {
    match dispatched(s.slot, s.urcs, rep.outcome, rep.parsed, cap) {
        None => (Err(Error::UrcChannelFull), false, s),
        Some((slot, urcs)) => if rep.consumed == 0 || rep.consumed > s.buf.len() {
            (Ok(()), false, IngressView { buf: s.buf, slot, urcs })
        } else {
            (
                Ok(()),
                true,
                IngressView {
                    buf: s.buf.subrange(rep.consumed as int, s.buf.len() as int),
                    slot,
                    urcs,
                },
            )
        },
    }
}

/// What a digester and a URC type report on the buffer `buf`: the digester's
/// outcome and consumed bytes, and for a URC line what it parses to.
pub open spec fn report_of<D: Digester, U: AtatUrc>(d: D, buf: Seq<u8>) -> StepReport<U::Response> {
    let (o, n) = d.digest_spec(buf);
    StepReport {
        outcome: o,
        consumed: n,
        parsed: match o {
            DigestOutcome::Urc(line) => U::parse_spec(line),
            _ => None,
        },
    }
}

/// Digesting the buffer of `s` with the digester `d`, step after step (see
/// `ingress_step`), until the buffer is empty, a step consumes nothing, or a
/// URC finds the channel full: the result, the digester and the state after.
pub open spec fn ingress_drain<D: Digester, U: AtatUrc>(
    d: D,
    s: IngressView<U::Response>,
    cap: nat,
) -> (Result<(), Error>, D, IngressView<U::Response>)
    decreases s.buf.len(),
{
    if s.buf.len() == 0 {
        (Ok(()), d, s)
    } else {
        let d2 = d.digested(s.buf);
        let (r, go, t) = ingress_step(s, report_of::<D, U>(d, s.buf), cap);
        if go && t.buf.len() < s.buf.len() {
            ingress_drain::<D, U>(d2, t, cap)
        } else {
            (r, d2, t)
        }
    }
}

/// The ingress state with `data` appended to its buffer.
pub open spec fn with_received<T>(s: IngressView<T>, data: Seq<u8>) -> IngressView<T> {
    IngressView { buf: s.buf + data, slot: s.slot, urcs: s.urcs }
}

/// Digesting only ever drops bytes from the front of the buffer: what is left
/// is a suffix of what was there.
pub proof fn lemma_drain_leaves_suffix<D: Digester, U: AtatUrc>(
    d: D,
    s: IngressView<U::Response>,
    cap: nat,
)
    ensures
        exists|k: int|
            0 <= k <= s.buf.len() && #[trigger] s.buf.subrange(k, s.buf.len() as int)
                == ingress_drain::<D, U>(d, s, cap).2.buf,
    decreases s.buf.len(),
{
    if s.buf.len() == 0 {
        assert(s.buf.subrange(0, 0) =~= s.buf);
    } else {
        let d2 = d.digested(s.buf);
        let rep = report_of::<D, U>(d, s.buf);
        let (r, go, t) = ingress_step(s, rep, cap);
        if go && t.buf.len() < s.buf.len() {
            lemma_drain_leaves_suffix::<D, U>(d2, t, cap);
            let k = choose|k: int|
                0 <= k <= t.buf.len() && #[trigger] t.buf.subrange(k, t.buf.len() as int)
                    == ingress_drain::<D, U>(d2, t, cap).2.buf;
            let n = rep.consumed;
            assert(s.buf.subrange(n + k, s.buf.len() as int) =~= t.buf.subrange(
                k,
                t.buf.len() as int,
            ));
        } else {
            assert(s.buf.subrange(0, s.buf.len() as int) =~= s.buf);
        }
    }
}

/// A response in the slot is never replaced before the client takes it:
/// digesting leaves a signaled slot as it is.
pub proof fn lemma_drain_keeps_pending_response<D: Digester, U: AtatUrc>(
    d: D,
    s: IngressView<U::Response>,
    cap: nat,
)
    requires
        s.slot.signaled,
    ensures
        ingress_drain::<D, U>(d, s, cap).2.slot == s.slot,
    decreases s.buf.len(),
{
    if s.buf.len() > 0 {
        let (r, go, t) = ingress_step(s, report_of::<D, U>(d, s.buf), cap);
        if go && t.buf.len() < s.buf.len() {
            lemma_drain_keeps_pending_response::<D, U>(d.digested(s.buf), t, cap);
        }
    }
}

/// The URC channel keeps its subscribers while the ingress digests.
pub proof fn lemma_drain_keeps_subscribers<D: Digester, U: AtatUrc>(
    d: D,
    s: IngressView<U::Response>,
    cap: nat,
)
    ensures
        ingress_drain::<D, U>(d, s, cap).2.urcs.cursors == s.urcs.cursors,
    decreases s.buf.len(),
{
    if s.buf.len() > 0 {
        let (r, go, t) = ingress_step(s, report_of::<D, U>(d, s.buf), cap);
        if go && t.buf.len() < s.buf.len() {
            lemma_drain_keeps_subscribers::<D, U>(d.digested(s.buf), t, cap);
        }
    }
}

/// With nothing to digest, the ingress succeeds and changes nothing.
pub proof fn lemma_drain_empty<D: Digester, U: AtatUrc>(d: D, s: IngressView<U::Response>, cap: nat)
    requires
        s.buf.len() == 0,
    ensures
        ingress_drain::<D, U>(d, s, cap) == (Ok::<(), Error>(()), d, s),
{
}

/// Hands a digested result on: a response or prompt to the response slot, a
/// URC that parsed (to `parsed`) to the URC channel; see `dispatched`.
pub fn dispatch<Urc: AtatUrc, const N: usize, const CAP: usize, const SUBS: usize>(
    res_slot: &mut ResponseSlot<N>,
    urc_channel: &mut UrcChannel<Urc, CAP, SUBS>,
    result: DigestResult,
    parsed: Option<Urc::Response>,
) -> (r: Result<(), Error>)
    requires
        outcome_fits(result.outcome(), N as nat),
    ensures
        match dispatched(old(res_slot)@, old(urc_channel)@, result.outcome(), parsed, CAP as nat) {
            Some((slot, urcs)) => r is Ok && final(res_slot)@ == slot && final(urc_channel)@
                == urcs,
            None => r == Err::<(), Error>(Error::UrcChannelFull) && final(res_slot)@ == old(
                res_slot,
            )@ && final(urc_channel)@ == old(urc_channel)@,
        },
{
    match result {
        DigestResult::Nothing => Ok(()),
        DigestResult::Prompt(prompt) => {
            let _ = res_slot.signal_prompt(prompt);
            Ok(())
        },
        DigestResult::Urc(_) => {
            if let Some(urc) = parsed {
                if urc_channel.try_publish(urc).is_err() {
                    return Err(Error::UrcChannelFull);
                }
            }
            Ok(())
        },
        DigestResult::Response(resp) => {
            let _ = res_slot.signal_response(resp);
            Ok(())
        },
    }
}

/// One step of digesting for a caller that waits for room in the URC channel:
/// as `ingress_step`, except that a URC that finds the channel full is handed
/// back to the caller (to publish once there is room) with its bytes
/// consumed, and digesting stops there.
pub open spec fn ingress_wait_step<T>(s: IngressView<T>, rep: StepReport<T>, cap: nat) -> (
    Option<T>,
    bool,
    IngressView<T>,
) {
    let (handed, slot, urcs) = match dispatched(s.slot, s.urcs, rep.outcome, rep.parsed, cap) {
        Some((slot, urcs)) => (None, slot, urcs),
        None => (rep.parsed, s.slot, s.urcs),
    };
    if rep.consumed == 0 || rep.consumed > s.buf.len() {
        (handed, false, IngressView { buf: s.buf, slot, urcs })
    } else {
        (
            handed,
            handed is None,
            IngressView { buf: s.buf.subrange(rep.consumed as int, s.buf.len() as int), slot, urcs },
        )
    }
}

/// Digesting for a caller that waits for room in the URC channel: as
/// `ingress_drain`, step after step (see `ingress_wait_step`), until the
/// buffer is empty, a step consumes nothing, or a URC is handed back.
pub open spec fn ingress_wait_drain<D: Digester, U: AtatUrc>(
    d: D,
    s: IngressView<U::Response>,
    cap: nat,
) -> (Option<U::Response>, D, IngressView<U::Response>)
    decreases s.buf.len(),
{
    if s.buf.len() == 0 {
        (None, d, s)
    } else {
        let d2 = d.digested(s.buf);
        let (h, go, t) = ingress_wait_step(s, report_of::<D, U>(d, s.buf), cap);
        if go && t.buf.len() < s.buf.len() {
            ingress_wait_drain::<D, U>(d2, t, cap)
        } else {
            (h, d2, t)
        }
    }
}

/// For a waiting caller too, a response in the slot is never replaced before
/// the client takes it.
pub proof fn lemma_wait_drain_keeps_pending_response<D: Digester, U: AtatUrc>(
    d: D,
    s: IngressView<U::Response>,
    cap: nat,
)
    requires
        s.slot.signaled,
    ensures
        ingress_wait_drain::<D, U>(d, s, cap).2.slot == s.slot,
    decreases s.buf.len(),
{
    if s.buf.len() > 0 {
        let (h, go, t) = ingress_wait_step(s, report_of::<D, U>(d, s.buf), cap);
        if go && t.buf.len() < s.buf.len() {
            lemma_wait_drain_keeps_pending_response::<D, U>(d.digested(s.buf), t, cap);
        }
    }
}

/// Hands a digested result on, as `dispatch` does, except that a URC that
/// finds the channel full is handed back instead of being refused.
pub fn dispatch_waiting<Urc: AtatUrc, const N: usize, const CAP: usize, const SUBS: usize>(
    res_slot: &mut ResponseSlot<N>,
    urc_channel: &mut UrcChannel<Urc, CAP, SUBS>,
    result: DigestResult,
    parsed: Option<Urc::Response>,
) -> (r: Option<Urc::Response>)
    requires
        outcome_fits(result.outcome(), N as nat),
    ensures
        match dispatched(old(res_slot)@, old(urc_channel)@, result.outcome(), parsed, CAP as nat) {
            Some((slot, urcs)) => r is None && final(res_slot)@ == slot && final(urc_channel)@
                == urcs,
            None => r == parsed && final(res_slot)@ == old(res_slot)@ && final(urc_channel)@ == old(
                urc_channel,
            )@,
        },
{
    match result {
        DigestResult::Nothing => None,
        DigestResult::Prompt(prompt) => {
            let _ = res_slot.signal_prompt(prompt);
            None
        },
        DigestResult::Urc(_) => {
            match parsed {
                Some(urc) => match urc_channel.try_publish(urc) {
                    Ok(()) => None,
                    Err(urc) => Some(urc),
                },
                None => None,
            }
        },
        DigestResult::Response(resp) => {
            let _ = res_slot.signal_response(resp);
            None
        },
    }
}

/// The ingress: a digester, a buffer of at most `INGRESS_BUF_SIZE` bytes, the
/// response slot and the URC channel.
pub struct Ingress<
    D: Digester,
    Urc: AtatUrc,
    const INGRESS_BUF_SIZE: usize,
    const URC_CAPACITY: usize,
    const URC_SUBSCRIBERS: usize,
> {
    digester: D,
    buf: Vec<u8>,
    pub res_slot: ResponseSlot<INGRESS_BUF_SIZE>,
    pub urc_channel: UrcChannel<Urc, URC_CAPACITY, URC_SUBSCRIBERS>,
}

impl<
    D: Digester,
    Urc: AtatUrc,
    const INGRESS_BUF_SIZE: usize,
    const URC_CAPACITY: usize,
    const URC_SUBSCRIBERS: usize,
> View for Ingress<D, Urc, INGRESS_BUF_SIZE, URC_CAPACITY, URC_SUBSCRIBERS> {
    type V = IngressView<Urc::Response>;

    closed spec fn view(&self) -> IngressView<Urc::Response> {
        IngressView { buf: self.buf@, slot: self.res_slot@, urcs: self.urc_channel@ }
    }
}

impl<
    D: Digester,
    Urc: AtatUrc,
    const INGRESS_BUF_SIZE: usize,
    const URC_CAPACITY: usize,
    const URC_SUBSCRIBERS: usize,
> Ingress<D, Urc, INGRESS_BUF_SIZE, URC_CAPACITY, URC_SUBSCRIBERS> {
    /// An ingress with an empty buffer.
    pub fn new(
        digester: D,
        res_slot: ResponseSlot<INGRESS_BUF_SIZE>,
        urc_channel: UrcChannel<Urc, URC_CAPACITY, URC_SUBSCRIBERS>,
    ) -> (r: Self)
        ensures
            r@ == (IngressView { buf: Seq::empty(), slot: res_slot@, urcs: urc_channel@ }),
    {
        Self { digester, buf: Vec::new(), res_slot, urc_channel }
    }

    /// Room left in the buffer.
    pub fn free(&self) -> (n: usize)
        requires
            self@.buf.len() <= INGRESS_BUF_SIZE,
        ensures
            n == INGRESS_BUF_SIZE - self@.buf.len(),
    {
        INGRESS_BUF_SIZE - self.buf.len()
    }

    /// The digester, as it is now.
    pub closed spec fn digester_state(&self) -> D {
        self.digester
    }

    fn receive(&mut self, received: &[u8])
        requires
            old(self)@.buf.len() + received@.len() <= INGRESS_BUF_SIZE,
        ensures
            final(self)@ == with_received(old(self)@, received@),
            final(self).digester_state() == old(self).digester_state(),
    {
        let mut i: usize = 0;
        let ghost start = self@;
        while i < received.len()
            invariant
                i <= received@.len(),
                self@ == with_received(start, received@.take(i as int)),
                self.digester == old(self).digester,
                start == old(self)@,
                start.buf.len() + received@.len() <= INGRESS_BUF_SIZE,
            decreases received@.len() - i,
        {
            self.buf.push(received[i]);
            i += 1;
            proof {
                assert(self.buf@ =~= start.buf + received@.take(i as int));
            }
        }
        assert(received@.take(received@.len() as int) =~= received@);
    }

    fn drop_front(&mut self, n: usize)
        requires
            n <= old(self)@.buf.len(),
        ensures
            final(self)@ == (IngressView {
                buf: old(self)@.buf.subrange(n as int, old(self)@.buf.len() as int),
                ..old(self)@
            }),
            final(self).digester_state() == old(self).digester_state(),
    {
        let len = self.buf.len();
        let mut rest: Vec<u8> = Vec::new();
        let mut j: usize = n;
        while j < len
            invariant
                n <= j <= len,
                len == self.buf@.len(),
                rest@ == self.buf@.subrange(n as int, j as int),
            decreases len - j,
        {
            rest.push(self.buf[j]);
            j += 1;
        }
        self.buf = rest;
    }

    /// Commits the bytes `received` to the buffer and digests it step by step
    /// until the buffer is empty, a step consumes nothing or a URC finds the
    /// channel full: `ingress_drain` of the digester's and the URC type's
    /// reports.
    pub fn try_advance(&mut self, received: &[u8]) -> (r: Result<(), Error>)
        requires
            old(self)@.buf.len() + received@.len() <= INGRESS_BUF_SIZE,
        ensures
            (r, final(self).digester_state(), final(self)@) == ingress_drain::<D, Urc>(
                old(self).digester_state(),
                with_received(old(self)@, received@),
                URC_CAPACITY as nat,
            ),
            r matches Err(e) ==> e == Error::UrcChannelFull,
            final(self)@.buf.len() <= INGRESS_BUF_SIZE,
    {
        self.receive(received);
        let ghost target = ingress_drain::<D, Urc>(self.digester, self@, URC_CAPACITY as nat);
        loop
            invariant_except_break
                ingress_drain::<D, Urc>(self.digester, self@, URC_CAPACITY as nat) == target,
                self@.buf.len() <= INGRESS_BUF_SIZE,
                target == ingress_drain::<D, Urc>(
                    old(self).digester_state(),
                    with_received(old(self)@, received@),
                    URC_CAPACITY as nat,
                ),
            ensures
                target == (Ok::<(), Error>(()), self.digester, self@),
                self@.buf.len() <= INGRESS_BUF_SIZE,
            decreases self@.buf.len(),
        {
            if self.buf.len() == 0 {
                break;
            }
            let ghost before = self@;
            let ghost d0 = self.digester;
            let (result, swallowed) = self.digester.digest(self.buf.as_slice());
            let parsed = match result {
                DigestResult::Urc(urc_line) => Urc::parse(urc_line),
                _ => None,
            };
            assert(StepReport { outcome: result.outcome(), consumed: swallowed as nat, parsed }
                == report_of::<D, Urc>(d0, before.buf));
            let res = dispatch(&mut self.res_slot, &mut self.urc_channel, result, parsed);
            if res.is_err() {
                return res;
            }
            if swallowed == 0 {
                break;
            }
            self.drop_front(swallowed);
        }
        Ok(())
    }

    /// Commits the bytes `received` to the buffer and digests it for a caller
    /// that waits for room in the URC channel: as `try_advance`, except that a
    /// URC that finds the channel full is returned, its bytes consumed, for
    /// the caller to publish once there is room; the caller then goes on with
    /// `advance(&[])`. See `ingress_wait_drain`.
    pub fn advance(&mut self, received: &[u8]) -> (r: Option<Urc::Response>)
        requires
            old(self)@.buf.len() + received@.len() <= INGRESS_BUF_SIZE,
        ensures
            (r, final(self).digester_state(), final(self)@) == ingress_wait_drain::<D, Urc>(
                old(self).digester_state(),
                with_received(old(self)@, received@),
                URC_CAPACITY as nat,
            ),
            final(self)@.buf.len() <= INGRESS_BUF_SIZE,
    {
        self.receive(received);
        let ghost target = ingress_wait_drain::<D, Urc>(self.digester, self@, URC_CAPACITY as nat);
        let mut handed: Option<Urc::Response> = None;
        loop
            invariant_except_break
                ingress_wait_drain::<D, Urc>(self.digester, self@, URC_CAPACITY as nat) == target,
                handed is None,
                self@.buf.len() <= INGRESS_BUF_SIZE,
            ensures
                target == (handed, self.digester, self@),
                self@.buf.len() <= INGRESS_BUF_SIZE,
            decreases self@.buf.len(),
        {
            if self.buf.len() == 0 {
                break;
            }
            let ghost before = self@;
            let ghost d0 = self.digester;
            let (result, swallowed) = self.digester.digest(self.buf.as_slice());
            let parsed = match result {
                DigestResult::Urc(urc_line) => Urc::parse(urc_line),
                _ => None,
            };
            assert(StepReport { outcome: result.outcome(), consumed: swallowed as nat, parsed }
                == report_of::<D, Urc>(d0, before.buf));
            handed = dispatch_waiting(&mut self.res_slot, &mut self.urc_channel, result, parsed);
            if swallowed == 0 {
                break;
            }
            self.drop_front(swallowed);
            if handed.is_some() {
                break;
            }
        }
        handed
    }

    /// Writes `buf` into the ingress, as much as fits at a time, digesting
    /// after each part. All of `buf` is written unless the ingress buffer is
    /// left full; the number returned is how many bytes were written.
    pub fn try_write(&mut self, buf: &[u8]) -> (r: Result<usize, Error>)
        requires
            old(self)@.buf.len() <= INGRESS_BUF_SIZE,
        ensures
            r matches Ok(w) ==> w <= buf@.len() && (w == buf@.len() || final(self)@.buf.len()
                == INGRESS_BUF_SIZE),
            r matches Err(e) ==> e == Error::UrcChannelFull,
            final(self)@.buf.len() <= INGRESS_BUF_SIZE,
        decreases buf@.len(),
    {
        if buf.len() == 0 || self.buf.len() >= INGRESS_BUF_SIZE {
            return Ok(0);
        }
        let free = INGRESS_BUF_SIZE - self.buf.len();
        let len = if buf.len() <= free {
            buf.len()
        } else {
            free
        };
        let head = &buf[0..len];
        let tail = &buf[len..buf.len()];
        let res = self.try_advance(head);
        if let Err(e) = res {
            return Err(e);
        }
        match self.try_write(tail) {
            Ok(w) => Ok(w + len),
            Err(e) => Err(e),
        }
    }

    /// Drops the bytes received and not yet digested.
    pub fn clear(&mut self)
        ensures
            final(self)@ == (IngressView { buf: Seq::empty(), ..old(self)@ }),
    {
        self.buf = Vec::new();
    }
}

} // verus!

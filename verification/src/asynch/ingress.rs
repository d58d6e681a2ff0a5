//! An ingress that digests what the modem sends and enqueues what it finds:
//! responses and prompts as frames on the response queue, URC lines on the
//! URC queue. A queue that has no room stops digesting until it has.
use crate::digest::{DigestOutcome, DigestResult, Digester};
use crate::frame::{frame_bytes, frame_encodable, frame_of_error, tagged_bytes, varint_bytes, Frame};
use bbqueue::framed::FrameProducer;
use vstd::prelude::*;

verus! {

#[verifier::external_type_specification]
#[verifier::external_body]
pub struct ExFrameProducer<'a, const N: usize>(FrameProducer<'a, N>);

/// The frames of `tries` that were committed, oldest first.
pub open spec fn committed(tries: Seq<(Seq<u8>, bool)>) -> Seq<Seq<u8>>
    decreases tries.len(),
{
    if tries.len() == 0 {
        Seq::empty()
    } else if tries.last().1 {
        committed(tries.drop_last()).push(tries.last().0)
    } else {
        committed(tries.drop_last())
    }
}

/// One more try adds its frame to those committed if it had room.
pub proof fn lemma_committed_push(tries: Seq<(Seq<u8>, bool)>, frame: Seq<u8>, ok: bool)
    ensures
        committed(tries.push((frame, ok))) == if ok {
            committed(tries).push(frame)
        } else {
            committed(tries)
        },
{
    assert(tries.push((frame, ok)).drop_last() =~= tries);
}

/// The producer half of a frame queue, together with every frame offered to
/// it so far and whether the queue had room for it.
pub struct FrameWriter<'a, const N: usize> {
    producer: FrameProducer<'a, N>,
    tries: Ghost<Seq<(Seq<u8>, bool)>>,
}

impl<'a, const N: usize> FrameWriter<'a, N> {
    /// The frames offered through this writer, oldest first, each with
    /// whether it was committed.
    pub closed spec fn tries(&self) -> Seq<(Seq<u8>, bool)> {
        self.tries@
    }

    /// The frames committed through this writer, oldest first.
    pub open spec fn frames(&self) -> Seq<Seq<u8>> {
        committed(self.tries())
    }

    /// A writer through which nothing has been offered yet.
    pub fn new(producer: FrameProducer<'a, N>) -> (r: Self)
        ensures
            r.tries() == Seq::<(Seq<u8>, bool)>::empty(),
            r.frames() == Seq::<Seq<u8>>::empty(),
    {
        Self { producer, tries: Ghost(Seq::empty()) }
    }
}

/// Calls `FrameProducer::grant` for room for `bytes`; with a grant, copies
/// `bytes` into it, commits them as one frame and reports `true`. Without a
/// grant nothing is committed and it reports `false`. Either way the writer
/// records `bytes` as offered, with the answer (which is what the contract
/// states: whether there was a grant depends on what the consumer has taken,
/// and is not stated).
#[verifier::external_body]
fn enqueue_bytes<'a, const N: usize>(writer: &mut FrameWriter<'a, N>, bytes: &[u8]) -> (r: bool)
    ensures
        final(writer).tries() == old(writer).tries().push((bytes@, r)),
{
    match writer.producer.grant(bytes.len()) {
        Ok(mut grant) => {
            grant.copy_from_slice(bytes);
            grant.commit(bytes.len());
            true
        },
        Err(_) => false,
    }
}

/// Calls `FrameProducer::grant` for `max_len` bytes; with a grant, encodes the
/// pair of the variant index `tag` and the byte slice `payload` into it with
/// bincode (standard configuration: little endian, variable-length integers),
/// commits what was written as one frame and reports `true`. The encoding is
/// the index (one byte below 251), the length (one byte below 251, else 251
/// and two bytes) and the bytes, which `max_len` leaves room for. Without a
/// grant nothing is committed and it reports `false`. The writer records the
/// encoding as offered, with the answer; whether there is a grant is not
/// stated.
#[verifier::external_body]
fn enqueue_tagged_bytes<'a, const N: usize>(
    writer: &mut FrameWriter<'a, N>,
    tag: u32,
    payload: &[u8],
    max_len: usize,
) -> (r: bool)
    requires
        tag < 251,
        payload@.len() < 65536,
        max_len == 1 + (if payload@.len() < 251 { 1int } else { 3 }) + payload@.len(),
    ensures
        final(writer).tries() == old(writer).tries().push((tagged_bytes(tag as u8, payload@), r)),
{
    let config = bincode::config::standard().with_variable_int_encoding();
    match writer.producer.grant(max_len) {
        Ok(mut grant) => {
            let used = bincode::encode_into_slice((tag, payload), &mut grant[..], config).unwrap();
            grant.commit(used);
            true
        },
        Err(_) => false,
    }
}

/// As `enqueue_tagged_bytes`, with a `u8` payload, which bincode writes as
/// the byte itself.
#[verifier::external_body]
fn enqueue_tagged_u8<'a, const N: usize>(
    writer: &mut FrameWriter<'a, N>,
    tag: u32,
    payload: u8,
    max_len: usize,
) -> (r: bool)
    requires
        tag < 251,
        max_len >= 2,
    ensures
        final(writer).tries() == old(writer).tries().push((seq![tag as u8, payload], r)),
{
    let config = bincode::config::standard().with_variable_int_encoding();
    match writer.producer.grant(max_len) {
        Ok(mut grant) => {
            let used = bincode::encode_into_slice((tag, payload), &mut grant[..], config).unwrap();
            grant.commit(used);
            true
        },
        Err(_) => false,
    }
}

/// As `enqueue_tagged_bytes`, with a `u16` payload, which bincode writes as a
/// variable-length integer: one byte below 251, else 251 and two bytes.
#[verifier::external_body]
fn enqueue_tagged_u16<'a, const N: usize>(
    writer: &mut FrameWriter<'a, N>,
    tag: u32,
    payload: u16,
    max_len: usize,
) -> (r: bool)
    requires
        tag < 251,
        max_len == 1 + (if payload < 251 { 1int } else { 3 }),
    ensures
        final(writer).tries() == old(writer).tries().push((seq![tag as u8] + varint_bytes(payload as nat), r)),
{
    let config = bincode::config::standard().with_variable_int_encoding();
    match writer.producer.grant(max_len) {
        Ok(mut grant) => {
            let used = bincode::encode_into_slice((tag, payload), &mut grant[..], config).unwrap();
            grant.commit(used);
            true
        },
        Err(_) => false,
    }
}

/// As `enqueue_tagged_bytes`, with no payload: the frame is the index alone.
#[verifier::external_body]
fn enqueue_tag<'a, const N: usize>(writer: &mut FrameWriter<'a, N>, tag: u32) -> (r: bool)
    requires
        tag < 251,
    ensures
        final(writer).tries() == old(writer).tries().push((seq![tag as u8], r)),
{
    let config = bincode::config::standard().with_variable_int_encoding();
    match writer.producer.grant(1) {
        Ok(mut grant) => {
            let used = bincode::encode_into_slice(tag, &mut grant[..], config).unwrap();
            grant.commit(used);
            true
        },
        Err(_) => false,
    }
}

/// Enqueues `frame` through `writer`, encoded as `frame_bytes` gives it, in a
/// grant of `frame.max_len()` bytes. Reports whether the queue had room;
/// without room nothing is committed. A connection error is left out: its
/// code takes a byte more than `max_len` grants, so its encoding fails.
pub fn enqueue<'a, 'f, const N: usize>(writer: &mut FrameWriter<'a, N>, frame: Frame<'f>) -> (r: bool)
    requires
        frame_encodable(frame),
    ensures
        final(writer).tries() == old(writer).tries().push((frame_bytes(frame), r)),
        r ==> final(writer).frames() == old(writer).frames().push(frame_bytes(frame)),
        !r ==> final(writer).frames() == old(writer).frames(),
{
    let max_len = frame.max_len();
    let r = match frame {
        Frame::Response(b) => enqueue_tagged_bytes(writer, 0, b, max_len),
        Frame::Prompt(p) => enqueue_tagged_u8(writer, 1, p, max_len),
        Frame::ReadError => enqueue_tag(writer, 2),
        Frame::WriteError => enqueue_tag(writer, 3),
        Frame::TimeoutError => enqueue_tag(writer, 4),
        Frame::InvalidResponseError => enqueue_tag(writer, 5),
        Frame::AbortedError => enqueue_tag(writer, 6),
        Frame::OverflowError => enqueue_tag(writer, 7),
        Frame::ParseError => enqueue_tag(writer, 8),
        Frame::OtherError => enqueue_tag(writer, 9),
        Frame::CmeError(e) => enqueue_tagged_u16(writer, 10, e, max_len),
        Frame::CmsError(e) => enqueue_tagged_u16(writer, 11, e, max_len),
        Frame::ConnectionError(_) => false,
        Frame::CustomError(b) => enqueue_tagged_bytes(writer, 13, b, max_len),
    };
    proof {
        lemma_committed_push(old(writer).tries(), frame_bytes(frame), r);
    }
    r
}

/// What a digest outcome puts on a queue: nothing, a frame on the response
/// queue, or a line on the URC queue.
pub enum QueueItem {
    Nothing,
    Response(Seq<u8>),
    Urc(Seq<u8>),
}

/// Responses, errors and prompts go to the response queue as their frames;
/// URC lines go to the URC queue as they are.
pub open spec fn queue_item(o: DigestOutcome) -> QueueItem {
    match o {
        DigestOutcome::Nothing => QueueItem::Nothing,
        DigestOutcome::Urc(u) => QueueItem::Urc(u),
        DigestOutcome::Prompt(p) => QueueItem::Response(frame_bytes(Frame::Prompt(p))),
        DigestOutcome::Response(v) => QueueItem::Response(tagged_bytes(0, v)),
        DigestOutcome::Failure(e) => QueueItem::Response(frame_bytes(frame_of_error(e))),
    }
}

/// The frame an outcome puts on the response queue can be enqueued: a
/// response or custom error of fewer than 65536 bytes, and no connection
/// error.
pub open spec fn outcome_encodable(o: DigestOutcome) -> bool {
    match o {
        DigestOutcome::Response(v) => v.len() < 65536,
        DigestOutcome::Failure(e) => frame_encodable(frame_of_error(e)),
        _ => true,
    }
}

/// Digesting `buf` from the state `d`, with every queue taking what it is
/// offered, meets only outcomes whose frames can be enqueued. With less room
/// digesting stops earlier, at one of these steps.
pub open spec fn drain_encodable<D: Digester>(d: D, buf: Seq<u8>) -> bool
    decreases buf.len(),
{
    if buf.len() == 0 {
        true
    } else {
        let (o, n) = d.digest_spec(buf);
        &&& outcome_encodable(o)
        &&& (0 < n <= buf.len() ==> drain_encodable(
            d.digested(buf),
            buf.subrange(n as int, buf.len() as int),
        ))
    }
}

/// The buffer once `data` is written to it: appended if it fits in `cap`
/// bytes, dropped otherwise.
pub open spec fn written(buf: Seq<u8>, data: Seq<u8>, cap: nat) -> Seq<u8> {
    if buf.len() + data.len() <= cap {
        buf + data
    } else {
        buf
    }
}

/// The state of a frame-queue ingress: its digester, the bytes not yet
/// digested, and every frame offered to the response queue and every line
/// offered to the URC queue, each with whether its queue had room.
pub struct QueueState<D> {
    pub digester: D,
    pub buffer: Seq<u8>,
    pub responses: Seq<(Seq<u8>, bool)>,
    pub urcs: Seq<(Seq<u8>, bool)>,
}

/// Digesting the buffer of `s` step by step, each step as the digester
/// reports it. What a step finds is offered to its queue, which takes it if
/// it has room: `room[0]` tells that for the first step, the rest of `room`
/// for the steps after it. Digesting stops when the buffer is empty, a step
/// consumes nothing, or what it found had no room; then its bytes stay in the
/// buffer.
pub open spec fn queue_drain<D: Digester>(s: QueueState<D>, room: Seq<bool>) -> QueueState<D>
    decreases s.buffer.len(),
{
    if s.buffer.len() == 0 {
        s
    } else {
        let (o, n) = s.digester.digest_spec(s.buffer);
        let d = s.digester.digested(s.buffer);
        let has_room = room.len() > 0 && room[0];
        let (accepted, responses, urcs) = match queue_item(o) {
            QueueItem::Nothing => (true, s.responses, s.urcs),
            QueueItem::Response(f) => (has_room, s.responses.push((f, has_room)), s.urcs),
            QueueItem::Urc(u) => (has_room, s.responses, s.urcs.push((u, has_room))),
        };
        if accepted && 0 < n <= s.buffer.len() {
            queue_drain(
                QueueState {
                    digester: d,
                    buffer: s.buffer.subrange(n as int, s.buffer.len() as int),
                    responses,
                    urcs,
                },
                room.drop_first(),
            )
        } else {
            QueueState { digester: d, buffer: s.buffer, responses, urcs }
        }
    }
}

/// Writing `data` into the ingress of state `s`, with a buffer of `cap`
/// bytes: data that fits is appended and the buffer digested; data that does
/// not is dropped, an overflow frame is offered to the response queue (which
/// takes it if `room[0]` says it has room), and the buffer is digested as it
/// was.
pub open spec fn write_drain<D: Digester>(
    s: QueueState<D>,
    data: Seq<u8>,
    cap: nat,
    room: Seq<bool>,
) -> QueueState<D> {
    if s.buffer.len() + data.len() <= cap {
        queue_drain(QueueState { buffer: s.buffer + data, ..s }, room)
    } else {
        let has_room = room.len() > 0 && room[0];
        queue_drain(
            QueueState {
                responses: s.responses.push((frame_bytes(Frame::OverflowError), has_room)),
                ..s
            },
            room.drop_first(),
        )
    }
}

/// Digesting only drops bytes from the front of the buffer, and only adds
/// offers after those already made to each queue.
pub proof fn lemma_queue_drain_keeps_order<D: Digester>(s: QueueState<D>, room: Seq<bool>)
    ensures
        exists|k: int|
            0 <= k <= s.buffer.len() && #[trigger] s.buffer.subrange(k, s.buffer.len() as int)
                == queue_drain(s, room).buffer,
        queue_drain(s, room).responses.len() >= s.responses.len(),
        queue_drain(s, room).responses.subrange(0, s.responses.len() as int) == s.responses,
        queue_drain(s, room).urcs.len() >= s.urcs.len(),
        queue_drain(s, room).urcs.subrange(0, s.urcs.len() as int) == s.urcs,
    decreases s.buffer.len(),
{
    let out = queue_drain(s, room);
    if s.buffer.len() == 0 {
        assert(s.buffer.subrange(0, 0) =~= out.buffer);
        assert(out.responses.subrange(0, s.responses.len() as int) =~= s.responses);
        assert(out.urcs.subrange(0, s.urcs.len() as int) =~= s.urcs);
    } else {
        let (o, n) = s.digester.digest_spec(s.buffer);
        let d = s.digester.digested(s.buffer);
        let has_room = room.len() > 0 && room[0];
        let (accepted, responses, urcs) = match queue_item(o) {
            QueueItem::Nothing => (true, s.responses, s.urcs),
            QueueItem::Response(f) => (has_room, s.responses.push((f, has_room)), s.urcs),
            QueueItem::Urc(u) => (has_room, s.responses, s.urcs.push((u, has_room))),
        };
        assert(responses.subrange(0, s.responses.len() as int) =~= s.responses);
        assert(urcs.subrange(0, s.urcs.len() as int) =~= s.urcs);
        if accepted && 0 < n <= s.buffer.len() {
            let next = QueueState {
                digester: d,
                buffer: s.buffer.subrange(n as int, s.buffer.len() as int),
                responses,
                urcs,
            };
            lemma_queue_drain_keeps_order(next, room.drop_first());
            let k = choose|k: int|
                0 <= k <= next.buffer.len() && #[trigger] next.buffer.subrange(
                    k,
                    next.buffer.len() as int,
                ) == out.buffer;
            assert(s.buffer.subrange(n + k, s.buffer.len() as int) =~= out.buffer);
            assert(out.responses.subrange(0, s.responses.len() as int) =~= out.responses.subrange(
                0,
                responses.len() as int,
            ).subrange(0, s.responses.len() as int));
            assert(out.urcs.subrange(0, s.urcs.len() as int) =~= out.urcs.subrange(
                0,
                urcs.len() as int,
            ).subrange(0, s.urcs.len() as int));
        } else {
            assert(s.buffer.subrange(0, s.buffer.len() as int) =~= out.buffer);
        }
    }
}

/// The frame-queue ingress: a digester, a buffer of at most `INGRESS_BUF_SIZE`
/// bytes, and the producer halves of the response and URC queues.
pub struct Ingress<
    'a,
    D: Digester,
    const INGRESS_BUF_SIZE: usize,
    const RES_CAPACITY: usize,
    const URC_CAPACITY: usize,
> {
    digester: D,
    buffer: Vec<u8>,
    res_writer: FrameWriter<'a, RES_CAPACITY>,
    urc_writer: FrameWriter<'a, URC_CAPACITY>,
}

impl<
    'a,
    D: Digester,
    const INGRESS_BUF_SIZE: usize,
    const RES_CAPACITY: usize,
    const URC_CAPACITY: usize,
> Ingress<'a, D, INGRESS_BUF_SIZE, RES_CAPACITY, URC_CAPACITY> {
    /// The bytes received and not yet digested.
    pub closed spec fn buffered(&self) -> Seq<u8> {
        self.buffer@
    }

    /// The digester, the buffer, and what was offered to each queue.
    pub closed spec fn state(&self) -> QueueState<D> {
        QueueState {
            digester: self.digester,
            buffer: self.buffer@,
            responses: self.res_writer.tries(),
            urcs: self.urc_writer.tries(),
        }
    }

    /// The frames committed to the response queue, oldest first.
    pub open spec fn response_frames(&self) -> Seq<Seq<u8>> {
        committed(self.state().responses)
    }

    /// The lines committed to the URC queue, oldest first.
    pub open spec fn urc_lines(&self) -> Seq<Seq<u8>> {
        committed(self.state().urcs)
    }

    /// An ingress with an empty buffer, which has committed nothing yet.
    pub fn new(
        digester: D,
        res_writer: FrameProducer<'a, RES_CAPACITY>,
        urc_writer: FrameProducer<'a, URC_CAPACITY>,
    ) -> (r: Self)
        ensures
            r.state() == (QueueState {
                digester,
                buffer: Seq::<u8>::empty(),
                responses: Seq::<(Seq<u8>, bool)>::empty(),
                urcs: Seq::<(Seq<u8>, bool)>::empty(),
            }),
            r.buffered() == Seq::<u8>::empty(),
    {
        Self {
            digester,
            buffer: Vec::new(),
            res_writer: FrameWriter::new(res_writer),
            urc_writer: FrameWriter::new(urc_writer),
        }
    }

    /// Appends `data` to the buffer and digests it. Data that does not fit
    /// in the buffer is dropped whole, and an overflow error goes to the
    /// response queue in its place. The result is `write_drain`, with the
    /// queues' answers as the writers recorded them.
    pub fn write(&mut self, data: &[u8])
        requires
            old(self).buffered().len() <= INGRESS_BUF_SIZE,
            drain_encodable(
                old(self).state().digester,
                written(old(self).buffered(), data@, INGRESS_BUF_SIZE as nat),
            ),
        ensures
            exists|room: Seq<bool>|
                #[trigger] write_drain(old(self).state(), data@, INGRESS_BUF_SIZE as nat, room)
                    == final(self).state(),
            final(self).buffered() == final(self).state().buffer,
            final(self).buffered().len() <= INGRESS_BUF_SIZE,
    {
        let ghost s0 = self.state();
        if data.len() > INGRESS_BUF_SIZE - self.buffer.len() {
            let ok = enqueue(&mut self.res_writer, Frame::OverflowError);
            let ghost s1 = self.state();
            self.process();
            proof {
                let room = choose|room: Seq<bool>|
                    #[trigger] queue_drain(s1, room) == self.state();
                let all = seq![ok] + room;
                assert(all.drop_first() =~= room);
                assert(write_drain(s0, data@, INGRESS_BUF_SIZE as nat, all) == self.state());
            }
        } else {
            let mut i: usize = 0;
            let ghost start = self.buffer@;
            while i < data.len()
                invariant
                    i <= data@.len(),
                    self.buffer@ == start + data@.take(i as int),
                    start.len() + data@.len() <= INGRESS_BUF_SIZE,
                    self.state() == (QueueState { buffer: self.buffer@, ..s0 }),
                decreases data@.len() - i,
            {
                self.buffer.push(data[i]);
                i += 1;
                assert(self.buffer@ =~= start + data@.take(i as int));
            }
            assert(data@.take(data@.len() as int) =~= data@);
            let ghost s1 = self.state();
            self.process();
            proof {
                let room = choose|room: Seq<bool>|
                    #[trigger] queue_drain(s1, room) == self.state();
                assert(write_drain(s0, data@, INGRESS_BUF_SIZE as nat, room) == self.state());
            }
        }
    }

    /// Digests the buffer step by step until it is empty, a step consumes
    /// nothing, or what a step found has no room in its queue (then its bytes
    /// stay in the buffer). Responses, errors and prompts go to the response
    /// queue as frames, URC lines to the URC queue as they are. The result is
    /// `queue_drain`: every step is the digester's report on the buffer at
    /// that step, every offer to a queue is recorded with the queue's answer,
    /// and those answers are the ones digesting went by.
    pub fn process(&mut self)
        requires
            drain_encodable(old(self).state().digester, old(self).buffered()),
        ensures
            exists|room: Seq<bool>| #[trigger] queue_drain(old(self).state(), room) == final(self).state(),
            final(self).buffered() == final(self).state().buffer,
            final(self).buffered().len() <= old(self).buffered().len(),
        decreases old(self).buffered().len(),
    {
        let ghost s0 = self.state();
        if self.buffer.len() == 0 {
            assert(queue_drain(s0, Seq::<bool>::empty()) == self.state());
            return;
        }
        let (result, swallowed) = self.digester.digest(self.buffer.as_slice());
        let accepted = match result {
            DigestResult::Nothing => true,
            DigestResult::Prompt(prompt) => enqueue(&mut self.res_writer, Frame::Prompt(prompt)),
            DigestResult::Urc(urc_line) => enqueue_bytes(&mut self.urc_writer, urc_line),
            DigestResult::Response(resp) => enqueue(&mut self.res_writer, Frame::from(resp)),
        };
        if !accepted || swallowed == 0 {
            assert(queue_drain(s0, seq![accepted]) == self.state());
            return;
        }
        self.drop_front(swallowed);
        let ghost s1 = self.state();
        self.process();
        proof {
            let room = choose|room: Seq<bool>| #[trigger] queue_drain(s1, room) == self.state();
            let all = seq![true] + room;
            assert(all.drop_first() =~= room);
            assert(queue_drain(s0, all) == self.state());
        }
    }

    /// Drops the first `n` bytes of the buffer.
    fn drop_front(&mut self, n: usize)
        requires
            n <= old(self).buffered().len(),
        ensures
            final(self).state() == (QueueState {
                buffer: old(self).buffered().subrange(n as int, old(self).buffered().len() as int),
                ..old(self).state()
            }),
            final(self).buffered() == final(self).state().buffer,
    {
        let len = self.buffer.len();
        let mut rest: Vec<u8> = Vec::new();
        let mut j: usize = n;
        while j < len
            invariant
                n <= j <= len,
                len == self.buffer@.len(),
                rest@ == self.buffer@.subrange(n as int, j as int),
            decreases len - j,
        {
            rest.push(self.buffer[j]);
            j += 1;
        }
        self.buffer = rest;
    }
}

} // verus!

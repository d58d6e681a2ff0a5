//! The channel through which the ingress publishes parsed URCs to their
//! subscribers. Each subscriber reads every URC published after it
//! subscribed; a URC stays in the channel until every subscriber has read it.
use crate::traits::AtatUrc;
use vstd::prelude::*;

verus! {

#[derive(Clone, Debug, PartialEq, Eq, Structural)]
pub enum Error {
    MaximumSubscribersReached,
}

/// A URC channel holding at most `CAPACITY` URCs for at most `SUBSCRIBERS`
/// subscribers.
pub struct UrcChannel<Urc: AtatUrc, const CAPACITY: usize, const SUBSCRIBERS: usize> {
    /// The URCs not yet read by every subscriber, oldest first.
    messages: Vec<Urc::Response>,
    /// For each subscriber, how many of `messages` it has read.
    cursors: Vec<usize>,
}

/// The state of a channel: the URCs it holds, oldest first, and for each
/// subscriber how many of them it has read.
pub struct ChannelView<T> {
    pub messages: Seq<T>,
    pub cursors: Seq<usize>,
}

/// The channel holds at most `cap` URCs and `subs` subscribers; each cursor
/// lies within the URCs; and the oldest URC is held only while some
/// subscriber has yet to read it.
pub open spec fn channel_wf<T>(c: ChannelView<T>, cap: nat, subs: nat) -> bool {
    &&& c.messages.len() <= cap
    &&& c.cursors.len() <= subs
    &&& forall|i: int| 0 <= i < c.cursors.len() ==> #[trigger] c.cursors[i] <= c.messages.len()
    &&& c.messages.len() > 0 ==> exists|i: int|
        0 <= i < c.cursors.len() && #[trigger] c.cursors[i] == 0
}

/// Publishing `m` without waiting: with no subscriber the URC is dropped; a
/// full channel refuses it (`None`); otherwise it is appended.
pub open spec fn channel_publish<T>(c: ChannelView<T>, cap: nat, m: T) -> Option<ChannelView<T>> {
    if c.cursors.len() == 0 {
        Some(c)
    } else if c.messages.len() >= cap {
        None
    } else {
        Some(ChannelView { messages: c.messages.push(m), cursors: c.cursors })
    }
}

/// The channel after subscriber `sub` has read its next URC: its cursor moves
/// on, and once every subscriber has read the oldest URC, that URC leaves.
pub open spec fn channel_after_read<T>(c: ChannelView<T>, sub: int) -> ChannelView<T> {
    let cur = c.cursors.update(sub, (c.cursors[sub] + 1) as usize);
    if forall|i: int| 0 <= i < cur.len() ==> #[trigger] cur[i] > 0 {
        ChannelView {
            messages: c.messages.drop_first(),
            cursors: Seq::new(cur.len(), |i: int| (cur[i] - 1) as usize),
        }
    } else {
        ChannelView { messages: c.messages, cursors: cur }
    }
}

impl<Urc: AtatUrc, const CAPACITY: usize, const SUBSCRIBERS: usize> View for UrcChannel<
    Urc,
    CAPACITY,
    SUBSCRIBERS,
> {
    type V = ChannelView<Urc::Response>;

    closed spec fn view(&self) -> ChannelView<Urc::Response> {
        ChannelView { messages: self.messages@, cursors: self.cursors@ }
    }
}

impl<Urc: AtatUrc, const CAPACITY: usize, const SUBSCRIBERS: usize> UrcChannel<
    Urc,
    CAPACITY,
    SUBSCRIBERS,
> {
    /// The channel's state is always well formed.
    #[verifier::type_invariant]
    pub open spec fn inv(self) -> bool {
        channel_wf(self@, CAPACITY as nat, SUBSCRIBERS as nat)
    }

    /// An empty channel without subscribers.
    pub fn new() -> (c: Self)
        ensures
            c@.messages.len() == 0,
            c@.cursors.len() == 0,
    {
        Self { messages: Vec::new(), cursors: Vec::new() }
    }

    /// Adds a subscriber, which reads the URCs published from now on; it is
    /// known by the number returned.
    pub fn subscribe(&mut self) -> (r: Result<usize, Error>)
        ensures
            match r {
                Ok(id) => old(self)@.cursors.len() < SUBSCRIBERS && id == old(self)@.cursors.len()
                    && final(self)@ == (ChannelView {
                    messages: old(self)@.messages,
                    cursors: old(self)@.cursors.push(old(self)@.messages.len() as usize),
                }),
                Err(e) => old(self)@.cursors.len() >= SUBSCRIBERS && e == Error::MaximumSubscribersReached
                    && final(self)@ == old(self)@,
            },
    {
        proof {
            use_type_invariant(&*self);
        }
        if self.cursors.len() >= SUBSCRIBERS {
            return Err(Error::MaximumSubscribersReached);
        }
        let id = self.cursors.len();
        let n = self.messages.len();
        let mut taken = Self::new();
        std::mem::swap(self, &mut taken);
        proof {
            use_type_invariant(&taken);
        }
        let Self { messages, mut cursors } = taken;
        let ghost before = cursors@;
        cursors.push(n);
        assert(cursors@[id as int] == n);
        proof {
            if messages@.len() > 0 {
                let z = choose|k: int| 0 <= k < before.len() && before[k] == 0;
                assert(cursors@[z] == 0);
            }
        }
        assert(channel_wf(
            ChannelView { messages: messages@, cursors: cursors@ },
            CAPACITY as nat,
            SUBSCRIBERS as nat,
        ));
        *self = Self { messages, cursors };
        Ok(id)
    }

    /// Room left for URCs.
    pub fn free_capacity(&self) -> (n: usize)
        ensures
            n == CAPACITY - self@.messages.len(),
    {
        proof {
            use_type_invariant(self);
        }
        CAPACITY - self.messages.len()
    }

    /// Publishes `message` without waiting; a full channel hands it back.
    pub fn try_publish(&mut self, message: Urc::Response) -> (r: Result<(), Urc::Response>)
        ensures
            match channel_publish(old(self)@, CAPACITY as nat, message) {
                Some(c) => r is Ok && final(self)@ == c,
                None => r == Err::<(), Urc::Response>(message) && final(self)@ == old(self)@,
            },
    {
        proof {
            use_type_invariant(&*self);
        }
        if self.cursors.len() == 0 {
            return Ok(());
        }
        if self.messages.len() >= CAPACITY {
            return Err(message);
        }
        let mut taken = Self::new();
        std::mem::swap(self, &mut taken);
        proof {
            use_type_invariant(&taken);
        }
        let Self { mut messages, cursors } = taken;
        let ghost m0 = messages@;
        messages.push(message);
        proof {
            if m0.len() > 0 {
                let z = choose|k: int| 0 <= k < cursors@.len() && cursors@[k] == 0;
                assert(cursors@[z] == 0);
            } else {
                assert(cursors@[0] <= m0.len());
                assert(cursors@[0] == 0);
            }
            assert forall|i: int| 0 <= i < cursors@.len() implies #[trigger] cursors@[i]
                <= messages@.len() by {
                assert(cursors@[i] <= m0.len());
            }
        }
        assert(channel_wf(
            ChannelView { messages: messages@, cursors: cursors@ },
            CAPACITY as nat,
            SUBSCRIBERS as nat,
        ));
        *self = Self { messages, cursors };
        Ok(())
    }

    /// The next URC for subscriber `sub`, if there is one it has not read.
    pub fn try_next_message_pure(&mut self, sub: usize) -> (r: Option<Urc::Response>)
        requires
            sub < old(self)@.cursors.len(),
        ensures
            old(self)@.cursors[sub as int] < old(self)@.messages.len() ==> (r matches Some(m)
                && cloned(old(self)@.messages[old(self)@.cursors[sub as int] as int], m)
                && final(self)@ == channel_after_read(old(self)@, sub as int)),
            old(self)@.cursors[sub as int] >= old(self)@.messages.len() ==> (r is None
                && final(self)@ == old(self)@),
    {
        proof {
            use_type_invariant(&*self);
        }
        let c = self.cursors[sub];
        if c >= self.messages.len() {
            return None;
        }
        let m = self.messages[c].clone();
        let ghost old_view = self@;
        let ghost cur = old_view.cursors.update(sub as int, (c + 1) as usize);
        let n = self.cursors.len();
        let mut all_read = true;
        let mut i: usize = 0;
        while i < n
            invariant
                i <= n,
                n == cur.len(),
                n == old_view.cursors.len(),
                cur == old_view.cursors.update(sub as int, (c + 1) as usize),
                sub < n,
                c == old_view.cursors[sub as int],
                c < old_view.messages.len(),
                channel_wf(old_view, CAPACITY as nat, SUBSCRIBERS as nat),
                self@ == old_view,
                all_read <==> forall|k: int| 0 <= k < i ==> #[trigger] cur[k] > 0,
            decreases n - i,
        {
            let v = if i == sub {
                c + 1
            } else {
                self.cursors[i]
            };
            assert(v == cur[i as int]);
            if v == 0 {
                all_read = false;
            }
            i += 1;
        }
        let mut cursors: Vec<usize> = Vec::new();
        let mut j: usize = 0;
        while j < n
            invariant
                j <= n,
                n == cur.len(),
                n == old_view.cursors.len(),
                cur == old_view.cursors.update(sub as int, (c + 1) as usize),
                sub < n,
                c == old_view.cursors[sub as int],
                c < old_view.messages.len(),
                channel_wf(old_view, CAPACITY as nat, SUBSCRIBERS as nat),
                self@ == old_view,
                all_read ==> forall|k: int| 0 <= k < n ==> #[trigger] cur[k] > 0,
                cursors@.len() == j,
                forall|k: int|
                    0 <= k < j ==> #[trigger] cursors@[k] == (if all_read {
                        (cur[k] - 1) as usize
                    } else {
                        cur[k]
                    }),
            decreases n - j,
        {
            let v = if j == sub {
                c + 1
            } else {
                self.cursors[j]
            };
            assert(v == cur[j as int]);
            if all_read {
                assert(cur[j as int] > 0);
                cursors.push(v - 1);
            } else {
                cursors.push(v);
            }
            j += 1;
        }
        proof {
            if all_read {
                assert(cursors@ =~= Seq::new(cur.len(), |k: int| (cur[k] - 1) as usize));
                let z = choose|k: int| 0 <= k < old_view.cursors.len() && old_view.cursors[k] == 0;
                assert(cur[z] > 0);
                assert(z == sub);
                assert(cursors@[sub as int] == 0);
            } else {
                assert(cursors@ =~= cur);
                let k = choose|k: int| 0 <= k < cur.len() && !(cur[k] > 0);
                assert(cursors@[k] == 0);
            }
        }
        let mut taken = Self::new();
        std::mem::swap(self, &mut taken);
        proof {
            use_type_invariant(&taken);
        }
        let Self { mut messages, cursors: _ } = taken;
        let ghost m0 = messages@;
        if all_read {
            messages.remove(0);
        }
        proof {
            assert(m0 == old_view.messages);
            if all_read {
                assert forall|i: int| 0 <= i < cursors@.len() implies #[trigger] cursors@[i]
                    <= messages@.len() by {
                    assert(cur[i] <= m0.len());
                }
                assert(cursors@[sub as int] == 0);
            } else {
                assert forall|i: int| 0 <= i < cursors@.len() implies #[trigger] cursors@[i]
                    <= messages@.len() by {
                    assert(cur[i] <= m0.len());
                }
            }
        }
        proof {
            let cv = ChannelView { messages: messages@, cursors: cursors@ };
            if cv.messages.len() > 0 {
                if all_read {
                    assert(cv.cursors[sub as int] == 0);
                } else {
                    let k = choose|k: int| 0 <= k < cur.len() && !(cur[k] > 0);
                    assert(cv.cursors[k] == 0);
                }
            }
            assert forall|i: int| 0 <= i < cv.cursors.len() implies #[trigger] cv.cursors[i]
                <= cv.messages.len() by {
                assert(cursors@[i] <= messages@.len());
            }
            assert(channel_wf(cv, CAPACITY as nat, SUBSCRIBERS as nat));
        }
        *self = Self { messages, cursors };
        proof {
            assert(self@.messages =~= channel_after_read(old_view, sub as int).messages);
        }
        Some(m)
    }
}

} // verus!

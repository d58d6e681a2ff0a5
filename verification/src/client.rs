//! The decisions of the queue-based client: when a command is written, when
//! the client waits for its response, and what a response, or its absence,
//! makes of the client's state. Writing, reading the queues and running the
//! timer are left to the caller, which reports what happened.
use crate::coded_error::Error;
use vstd::prelude::*;

verus! {

/// How the client waits for a response.
#[derive(Debug, Copy, Clone, Hash, PartialEq, Eq, Structural)]
pub enum Mode {
    /// The function call will wait as long as necessary to complete the operation
    Blocking,
    /// The function call will not wait at all to complete the operation, and only do what it can.
    NonBlocking,
    /// The function call will wait only up the max timeout of each command to complete the operation.
    Timeout,
}

/// Commands that can be sent from the client to the ingress manager, for
/// configuration after initial setup. This is also used for stuff like clearing
/// the receive buffer on command timeouts.
#[derive(Debug, Copy, Clone, Hash, PartialEq, Eq, Structural)]
pub enum Command {
    /// Reset to initial state, including clearing the buffer,
    /// usually as a result of a command timeout
    Reset,
    /// Force the ingress manager into receive state
    ForceReceiveState,
}

/// Configuration of both the ingress manager, and the AT client.
#[derive(Debug, Copy, Clone, Hash, PartialEq, Eq, Structural)]
pub struct Config {
    pub mode: Mode,
    /// Milliseconds to wait after a response before the next command.
    pub cmd_cooldown: u32,
}

impl Default for Config {
    fn default() -> (c: Self)
        ensures
            c == (Config { mode: Mode::Blocking, cmd_cooldown: 20 }),
    {
        Self { mode: Mode::Blocking, cmd_cooldown: 20 }
    }
}

impl Config {
    /// The default configuration, waiting in mode `mode`.
    pub fn new(mode: Mode) -> (c: Self)
        ensures
            c == (Config { mode, cmd_cooldown: 20 }),
    {
        Self { mode, ..Self::default() }
    }

    /// The configuration with a cooldown of `ms` milliseconds.
    pub fn cmd_cooldown(self, ms: u32) -> (c: Self)
        ensures
            c == (Config { cmd_cooldown: ms, ..self }),
    {
        Self { cmd_cooldown: ms, ..self }
    }
}

/// Whether a command is on its way.
#[derive(Debug, Copy, Clone, PartialEq, Eq, Structural)]
pub enum ClientState {
    Idle,
    AwaitingResponse,
}

/// What the caller of a non-blocking operation learns: it is done, with a
/// result, or it has to be tried again.
#[derive(Debug, PartialEq)]
pub enum NbResult<T, E> {
    Done(Result<T, Error<E>>),
    WouldBlock,
}

/// How the client waits for the response to a command it has written.
#[derive(Debug, Copy, Clone, PartialEq, Eq, Structural)]
pub enum Wait {
    /// Check for the response until it is there.
    Block,
    /// Check for the response once.
    Once,
    /// Start the timer for the command's timeout, then check for the response
    /// until it is there or the timer runs out.
    BlockWithTimer,
}

/// The client's decisions on its state and configuration.
pub struct Client {
    pub state: ClientState,
    pub config: Config,
}

/// What the client does once a command is to be sent: whether to write it,
/// and the state it is in afterwards.
pub open spec fn send_step(state: ClientState) -> (bool, ClientState) {
    match state {
        ClientState::Idle => (true, ClientState::AwaitingResponse),
        ClientState::AwaitingResponse => (false, ClientState::AwaitingResponse),
    }
}

impl Client {
    /// An idle client.
    pub fn new(config: Config) -> (c: Self)
        ensures
            c.state == ClientState::Idle,
            c.config == config,
    {
        Self { state: ClientState::Idle, config }
    }

    /// The mode the client waits in.
    pub fn get_mode(&self) -> (m: Mode)
        ensures
            m == self.config.mode,
    {
        self.config.mode
    }

    /// How the client waits for a response: as its mode says.
    pub fn wait_plan(&self) -> (w: Wait)
        ensures
            w == (match self.config.mode {
                Mode::Blocking => Wait::Block,
                Mode::NonBlocking => Wait::Once,
                Mode::Timeout => Wait::BlockWithTimer,
            }),
    {
        match self.config.mode {
            Mode::Blocking => Wait::Block,
            Mode::NonBlocking => Wait::Once,
            Mode::Timeout => Wait::BlockWithTimer,
        }
    }

    /// A command is to be sent: an idle client has it written (true) and then
    /// awaits its response; a client already awaiting one writes nothing.
    pub fn begin_send(&mut self) -> (write: bool)
        ensures
            (write, final(self).state) == send_step(old(self).state),
            final(self).config == old(self).config,
    {
        if self.state == ClientState::Idle {
            self.state = ClientState::AwaitingResponse;
            true
        } else {
            false
        }
    }

    /// A command that expects no response code was sent: the client is idle
    /// again and the command's result is its parse of an empty response.
    pub fn no_response_expected<T, E>(&mut self, parsed: Result<T, Error<E>>) -> (r: NbResult<T, E>)
        ensures
            final(self).state == ClientState::Idle,
            final(self).config == old(self).config,
            r == NbResult::Done(parsed),
    {
        self.state = ClientState::Idle;
        NbResult::Done(parsed)
    }

    /// Checks for a response. `parsed` is the command's parse of the response
    /// that was read, if one was; `timer_expired` tells whether the timer had
    /// run out. Returns the outcome, and whether the cooldown timer is to be
    /// started.
    ///
    /// A parsed response ends the wait: an error always, a success only when
    /// a response was awaited (else the caller tries again); either way the
    /// client is idle afterwards and its cooldown starts. Without a
    /// response, a client in timeout mode whose timer ran out gives up with a
    /// timeout; otherwise the caller tries again.
    pub fn check_response<T, E>(&mut self, parsed: Option<Result<T, Error<E>>>, timer_expired: bool) -> (r: (
        NbResult<T, E>,
        bool,
    ))
        ensures
            final(self).config == old(self).config,
            match parsed {
                Some(Ok(v)) => if old(self).state == ClientState::AwaitingResponse {
                    r == (NbResult::<T, E>::Done(Ok(v)), true) && final(self).state == ClientState::Idle
                } else {
                    r == (NbResult::<T, E>::WouldBlock, true) && final(self).state == ClientState::Idle
                },
                Some(Err(e)) => r == (NbResult::<T, E>::Done(Err(e)), true) && final(self).state
                    == ClientState::Idle,
                None => if old(self).config.mode == Mode::Timeout && timer_expired {
                    r == (NbResult::<T, E>::Done(Err(Error::Timeout)), false) && final(self).state
                        == ClientState::Idle
                } else {
                    r == (NbResult::<T, E>::WouldBlock, false) && final(self).state == old(self).state
                },
            },
    {
        match parsed {
            Some(Ok(v)) => {
                if self.state == ClientState::AwaitingResponse {
                    self.state = ClientState::Idle;
                    (NbResult::Done(Ok(v)), true)
                } else {
                    self.state = ClientState::Idle;
                    (NbResult::WouldBlock, true)
                }
            },
            Some(Err(e)) => {
                self.state = ClientState::Idle;
                (NbResult::Done(Err(e)), true)
            },
            None => {
                if self.config.mode == Mode::Timeout && timer_expired {
                    self.state = ClientState::Idle;
                    (NbResult::Done(Err(Error::Timeout)), false)
                } else {
                    (NbResult::WouldBlock, false)
                }
            },
        }
    }
}

/// Waiting for a response with a deadline that the configuration computes
/// anew each time the old one passes: the wait goes on until the new
/// deadline, if it lies later than the one that passed, and times out
/// (`None`) otherwise. Deadlines are instants in timer ticks.
pub fn extend_deadline(expires: u64, new_expires: u64) -> (r: Option<u64>)
    ensures
        r == (if new_expires > expires {
            Some(new_expires)
        } else {
            None::<u64>
        }),
{
    if new_expires <= expires {
        None
    } else {
        Some(new_expires)
    }
}

/// What follows an attempt to send a command that may be sent again.
#[derive(Debug, PartialEq)]
pub enum Retry<T> {
    /// Send the command again.
    Again,
    /// The command is done, with this result.
    Done(Result<T, crate::error::Error>),
}

/// Whether a result calls for another attempt: a timeout does, and so does
/// a parse error when the command asks to be sent again on one.
pub open spec fn calls_for_retry<T>(r: Result<T, crate::error::Error>, reattempt_on_parse_err: bool) -> bool {
    r == Err::<T, crate::error::Error>(crate::error::Error::Timeout) || (reattempt_on_parse_err && r
        == Err::<T, crate::error::Error>(crate::error::Error::Parse))
}

/// After attempt number `attempt` of `attempts` gave `r`: a result that calls
/// for another attempt gets one while attempts are left, and ends as a
/// timeout after the last one; any other result is final.
pub fn after_attempt<T>(
    attempt: u8,
    attempts: u8,
    reattempt_on_parse_err: bool,
    r: Result<T, crate::error::Error>,
) -> (out: Retry<T>)
    ensures
        calls_for_retry(r, reattempt_on_parse_err) ==> (if attempt < attempts {
            out == Retry::<T>::Again
        } else {
            out == Retry::<T>::Done(Err(crate::error::Error::Timeout))
        }),
        !calls_for_retry(r, reattempt_on_parse_err) ==> out == Retry::Done(r),
{
    let retry = match &r {
        Err(crate::error::Error::Timeout) => true,
        Err(crate::error::Error::Parse) => reattempt_on_parse_err,
        _ => false,
    };
    if retry {
        if attempt < attempts {
            Retry::Again
        } else {
            Retry::Done(Err(crate::error::Error::Timeout))
        }
    } else {
        Retry::Done(r)
    }
}

/// The decision `after_attempt` makes after attempt number `attempt` of
/// `attempts` gave `r`.
pub open spec fn attempt_outcome<T>(
    attempt: nat,
    attempts: nat,
    reattempt_on_parse_err: bool,
    r: Result<T, crate::error::Error>,
) -> Retry<T> {
    if calls_for_retry(r, reattempt_on_parse_err) {
        if attempt < attempts {
            Retry::Again
        } else {
            Retry::Done(Err(crate::error::Error::Timeout))
        }
    } else {
        Retry::Done(r)
    }
}

/// Sending a command with up to `attempts` attempts, when its successive
/// sends give `rs`: the number of sends made and the result. Each send is
/// decided on by `after_attempt`; with no attempts left (or no more
/// results) it ends in a timeout.
pub open spec fn retry_run<T>(
    rs: Seq<Result<T, crate::error::Error>>,
    attempts: nat,
    reattempt_on_parse_err: bool,
) -> (nat, Result<T, crate::error::Error>)
    decreases attempts,
{
    if attempts == 0 || rs.len() == 0 {
        (0, Err(crate::error::Error::Timeout))
    } else {
        match attempt_outcome(1, attempts, reattempt_on_parse_err, rs[0]) {
            Retry::Done(r) => (1, r),
            Retry::Again => {
                let (k, r) = retry_run(rs.drop_first(), (attempts - 1) as nat, reattempt_on_parse_err);
                (k + 1, r)
            },
        }
    }
}

/// The results `rs` of the sends make a complete run of `a` attempts: every
/// send but the last called for a retry, and the run ends only on a result
/// that does not, or after the last attempt. With no attempts there are no
/// sends; with some there is at least one.
pub open spec fn retry_complete<T>(
    rs: Seq<Result<T, crate::error::Error>>,
    a: nat,
    p: bool,
) -> bool {
    &&& rs.len() <= a
    &&& (a > 0 ==> rs.len() >= 1)
    &&& forall|i: int| 0 <= i < rs.len() - 1 ==> #[trigger] calls_for_retry(rs[i], p)
    &&& (rs.len() == a || !calls_for_retry(rs.last(), p))
}

/// The attempts of a command: with `a` attempts and at least as many send
/// results, the command is sent `k` times, where `k` is the first attempt
/// whose result does not call for a retry, or `a` if there is none; it
/// returns that result, or a timeout if every attempt called for a retry
/// (or there were no attempts, and no sends).
pub proof fn lemma_retry_run<T>(
    rs: Seq<Result<T, crate::error::Error>>,
    a: nat,
    p: bool,
)
    requires
        rs.len() >= a,
    ensures
        retry_run(rs, a, p).0 <= a,
        a > 0 ==> retry_run(rs, a, p).0 >= 1,
        forall|i: int|
            0 <= i < retry_run(rs, a, p).0 - 1 ==> #[trigger] calls_for_retry(rs[i], p),
        retry_run(rs, a, p).0 > 0 && !calls_for_retry(rs[retry_run(rs, a, p).0 - 1], p)
            ==> retry_run(rs, a, p).1 == rs[retry_run(rs, a, p).0 - 1],
        retry_run(rs, a, p).0 > 0 && calls_for_retry(rs[retry_run(rs, a, p).0 - 1], p) ==> (
        retry_run(rs, a, p).0 == a && retry_run(rs, a, p).1 == Err::<T, crate::error::Error>(
            crate::error::Error::Timeout,
        )),
        a == 0 ==> retry_run(rs, a, p) == (0nat, Err::<T, crate::error::Error>(
            crate::error::Error::Timeout,
        )),
    decreases a,
{
    if a > 0 && rs.len() > 0 && !calls_for_retry(rs[0], p) {
    } else if a > 1 {
        let rest = rs.drop_first();
        lemma_retry_run(rest, (a - 1) as nat, p);
        assert forall|i: int|
            0 <= i < retry_run(rs, a, p).0 - 1 implies #[trigger] calls_for_retry(rs[i], p) by {
            if i > 0 {
                assert(rs[i] == rest[i - 1]);
                assert(calls_for_retry(rest[i - 1], p));
            }
        }
        let k = retry_run(rs, a, p).0;
        assert(rs[k - 1] == rest[k - 2]);
    }
}

/// Sends a command up to `attempts` times: `send` makes one attempt, and
/// after each the decision is `after_attempt`'s. The sends made gave `rs`,
/// each a result `send` may give; the run is complete (it stops only on a
/// final result or after the last attempt), and its number of sends and its
/// result are `retry_run` of them.
pub fn send_retry<R, F: FnMut() -> Result<R, crate::error::Error>>(
    attempts: u8,
    reattempt_on_parse_err: bool,
    send: F,
) -> (out: Result<R, crate::error::Error>)
    requires
        call_requires(send, ()),
        forall|r: Result<R, crate::error::Error>| call_ensures(send, (), r) ==> call_requires(send, ()),
    ensures
        exists|rs: Seq<Result<R, crate::error::Error>>|
            {
                &&& forall|i: int| 0 <= i < rs.len() ==> call_ensures(send, (), #[trigger] rs[i])
                &&& retry_complete(rs, attempts as nat, reattempt_on_parse_err)
                &&& #[trigger] retry_run(rs, attempts as nat, reattempt_on_parse_err) == (
                    rs.len(),
                    out,
                )
            },
{
    let ghost f0 = send;
    let mut sender = send;
    let ghost mut rs: Seq<Result<R, crate::error::Error>> = Seq::empty();
    let mut attempt: u8 = 1;
    while attempt <= attempts
        invariant
            1 <= attempt,
            attempt as nat == rs.len() + 1,
            attempts == 0 || attempt <= attempts,
            attempts == 0 ==> rs.len() == 0,
            sender == f0,
            f0 == send,
            call_requires(f0, ()),
            forall|r: Result<R, crate::error::Error>| call_ensures(f0, (), r) ==> call_requires(f0, ()),
            forall|i: int| 0 <= i < rs.len() ==> call_ensures(f0, (), #[trigger] rs[i]),
            forall|i: int| 0 <= i < rs.len() ==> #[trigger] calls_for_retry(rs[i], reattempt_on_parse_err),
        decreases attempts as int + 1 - attempt as int,
    {
        let r = sender();
        let ghost rg = r;
        assert(call_ensures(f0, (), rg));
        match after_attempt(attempt, attempts, reattempt_on_parse_err, r) {
            Retry::Again => {
                proof {
                    let old_rs = rs;
                    rs = rs.push(rg);
                    assert forall|i: int| 0 <= i < rs.len() implies call_ensures(
                        f0,
                        (),
                        #[trigger] rs[i],
                    ) && calls_for_retry(rs[i], reattempt_on_parse_err) by {
                        if i < old_rs.len() {
                            assert(rs[i] == old_rs[i]);
                        }
                    }
                }
                attempt = attempt + 1;
            },
            Retry::Done(out) => {
                proof {
                    lemma_retry_run_push(rs, attempts as nat, reattempt_on_parse_err, rg);
                    assert(attempt_outcome(attempt as nat, attempts as nat, reattempt_on_parse_err, rg)
                        == Retry::Done(out));
                    let old_rs = rs;
                    rs = rs.push(rg);
                    assert forall|i: int| 0 <= i < rs.len() implies call_ensures(
                        f0,
                        (),
                        #[trigger] rs[i],
                    ) by {
                        if i < old_rs.len() {
                            assert(rs[i] == old_rs[i]);
                        }
                    }
                    assert(retry_run(rs, attempts as nat, reattempt_on_parse_err) == (rs.len(), out));
                }
                return out;
            },
        }
    }
    assert(attempts == 0);
    assert(rs.len() == 0);
    assert(retry_run(rs, attempts as nat, reattempt_on_parse_err) == (
        rs.len(),
        Err::<R, crate::error::Error>(crate::error::Error::Timeout),
    ));
    Err(crate::error::Error::Timeout)
}

/// After sends that all called for a retry, one more send, decided on as
/// attempt number `rs.len() + 1`, ends the run where that decision does.
proof fn lemma_retry_run_push<T>(
    rs: Seq<Result<T, crate::error::Error>>,
    a: nat,
    p: bool,
    r: Result<T, crate::error::Error>,
)
    requires
        rs.len() < a,
        forall|i: int| 0 <= i < rs.len() ==> #[trigger] calls_for_retry(rs[i], p),
    ensures
        attempt_outcome(rs.len() + 1, a, p, r) matches Retry::Done(o) ==> retry_run(rs.push(r), a, p)
            == (rs.len() + 1, o),
    decreases rs.len(),
{
    if rs.len() > 0 {
        let rest = rs.drop_first();
        assert(rs.push(r).drop_first() =~= rest.push(r));
        assert forall|i: int| 0 <= i < rest.len() implies #[trigger] calls_for_retry(rest[i], p) by {
            assert(rest[i] == rs[i + 1]);
        }
        assert(calls_for_retry(rs[0], p));
        assert(rs.push(r)[0] == rs[0]);
        lemma_retry_run_push(rest, (a - 1) as nat, p, r);
    }
}

} // verus!

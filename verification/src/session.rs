//! The per-symbol stream session: a state machine that keeps one symbol's
//! feed alive forever.
//!
//! A session cycles `Connecting -> Streaming -> BackingOff -> Connecting`,
//! reconnecting after any failure with bounded exponential backoff and
//! jitter; the only terminal state, [`SessionState::Stopped`], is reached
//! when the delivery channel's consumer is gone.
//!
//! The session decides; the surrounding binary performs. [`StreamSession::step`]
//! maps the session's current state and one observed [`StreamEvent`] to the
//! next state and one [`SessionAction`] for the driver to carry out
//! (subscribe, pull the next tick, publish, sleep, or exit).

use vstd::prelude::*;
use vstd::arithmetic::power2::{pow2, lemma2_to64};
use crate::exchange::{now_millis, Price, PriceUpdate};

verus! {

/// After this many consecutive connect failures the extra cooldown applies
/// and the counter resets.
pub const MAX_CONSECUTIVE_ERRORS: u32 = 5;

/// The base of the exponential backoff, in seconds.
pub const BASE_BACKOFF_SECS: u64 = 1;

/// The extra fixed cooldown applied once when the failure counter reaches
/// [`MAX_CONSECUTIVE_ERRORS`], in seconds.
pub const COOLDOWN_SECS: u64 = 10;

/// How long a session waits before reconnecting: the exponential backoff,
/// a non-negative jitter bounded by half the backoff, and, only when the
/// failure counter just reached its threshold, the extra fixed cooldown.
#[derive(Debug, Clone, Copy, PartialEq, Eq, Structural)]
pub struct Delay {
    /// The exponential part, `BASE_BACKOFF_SECS * 2^min(errors, 5)`.
    pub backoff_secs: u64,
    /// Jitter derived from the wall clock; at most `backoff_secs / 2`.
    pub jitter_secs: u64,
    /// The extra cooldown; zero except on the threshold failure.
    pub cooldown_secs: u64,
}

/// The states of a stream session.
#[derive(Debug, Clone, Copy, PartialEq, Eq, Structural)]
pub enum SessionState {
    /// A subscribe request for the symbol is being issued.
    Connecting,
    /// Ticks are being pulled from an open subscription.
    Streaming,
    /// The session sleeps before the next connect attempt.
    BackingOff,
    /// The consumer is gone; the session is over.
    Stopped,
}

/// What the driver observed while carrying out the last action.
#[derive(Debug, Clone, Copy, PartialEq, Eq, Structural)]
pub enum StreamEvent {
    /// The subscribe request succeeded.
    Connected,
    /// The subscribe request failed.
    ConnectFailed,
    /// The open stream yielded a tick with this last price.
    Tick(Price),
    /// The open stream reported an error for one message; it is still open.
    StreamFault,
    /// The stream ended: the remote side closed it.
    StreamClosed,
    /// Publishing failed because the delivery channel's receiver is gone.
    SendFailed,
    /// The backoff sleep has elapsed.
    SleepFinished,
}

/// What the driver must do next.
#[derive(Debug, Clone)]
pub enum SessionAction {
    /// Issue a subscribe request for the session's symbol.
    Subscribe,
    /// Pull the next tick from the open subscription.
    PullNext,
    /// Publish this observation on the delivery channel, then pull again.
    Publish(PriceUpdate),
    /// Sleep for the given delay, then report `SleepFinished`.
    Sleep(Delay),
    /// The session is over; stop driving it.
    Exit,
}

/// Which events can be observed in which state: each state demands one
/// activity of the driver, and only that activity's outcomes can arrive.
/// No event fits `Stopped`: a stopped session is never stepped again.
pub open spec fn event_fits(state: SessionState, ev: StreamEvent) -> bool {
    match state {
        SessionState::Connecting => ev is Connected || ev is ConnectFailed,
        SessionState::Streaming => ev is Tick || ev is StreamFault || ev is StreamClosed
            || ev is SendFailed,
        SessionState::BackingOff => ev is SleepFinished,
        SessionState::Stopped => false,
    }
}

/// The state after one event.
pub open spec fn next_state(st: SessionState, ev: StreamEvent) -> SessionState {
    match (st, ev) {
        (SessionState::Connecting, StreamEvent::Connected) => SessionState::Streaming,
        (SessionState::Connecting, StreamEvent::ConnectFailed) => SessionState::BackingOff,
        (SessionState::Streaming, StreamEvent::Tick(_)) => SessionState::Streaming,
        (SessionState::Streaming, StreamEvent::StreamFault) => SessionState::Streaming,
        (SessionState::Streaming, StreamEvent::StreamClosed) => SessionState::BackingOff,
        (SessionState::Streaming, StreamEvent::SendFailed) => SessionState::Stopped,
        (SessionState::BackingOff, StreamEvent::SleepFinished) => SessionState::Connecting,
        _ => st,
    }
}

/// The failure counter after one event: reset on success, advanced on a
/// connect failure (wrapping to zero when the threshold is reached), and
/// untouched by everything else — in particular by a per-message stream
/// fault and by the end of an open stream.
pub open spec fn next_errors(st: SessionState, errors: u32, ev: StreamEvent) -> u32 {
    match (st, ev) {
        (SessionState::Connecting, StreamEvent::Connected) => 0,
        (SessionState::Connecting, StreamEvent::ConnectFailed) => {
            if errors as int + 1 >= MAX_CONSECUTIVE_ERRORS as int {
                0
            } else {
                (errors + 1) as u32
            }
        },
        _ => errors,
    }
}

/// The price published for one event, if any: only a tick on an open
/// stream emits an observation.
pub open spec fn emitted(st: SessionState, ev: StreamEvent) -> Option<Price> {
    match (st, ev) {
        (SessionState::Streaming, StreamEvent::Tick(p)) => Some(p),
        _ => None,
    }
}

/// The backoff before the next connect attempt, in seconds:
/// `BASE_BACKOFF_SECS * 2^min(errors, 5)`.
pub open spec fn backoff_secs_spec(errors: u32) -> u64 {
    (BASE_BACKOFF_SECS as nat * pow2(
        if errors >= MAX_CONSECUTIVE_ERRORS { 5 as nat } else { errors as nat },
    )) as u64
}

/// The jitter added to a backoff of `backoff_secs`, derived from a clock
/// reading: non-negative and strictly below `backoff_secs / 2 + 1`. Clock
/// readings from before the epoch contribute no jitter.
pub open spec fn jitter_spec(now_ms: i64, backoff_secs: u64) -> u64 {
    let m = backoff_secs as int / 2 + 1;
    let e = if now_ms >= 0 { now_ms as int } else { 0 };
    (e % m) as u64
}

/// The extra cooldown taken by a connect failure arriving on top of
/// `errors` earlier consecutive failures.
pub open spec fn failure_cooldown(errors: u32) -> u64 {
    if errors as int + 1 >= MAX_CONSECUTIVE_ERRORS as int {
        COOLDOWN_SECS
    } else {
        0
    }
}

/// Compute the exponential backoff for the given failure count.
pub fn backoff_secs(errors: u32) -> (b: u64)
    ensures
        b == backoff_secs_spec(errors),
        1 <= b <= 32,
{
    let e: u32 = if errors >= MAX_CONSECUTIVE_ERRORS { 5 } else { errors };
    proof {
        lemma2_to64();
    }
    if e == 0 {
        1
    } else if e == 1 {
        2
    } else if e == 2 {
        4
    } else if e == 3 {
        8
    } else if e == 4 {
        16
    } else {
        32
    }
}

/// Compute the jitter for a backoff from a clock reading.
pub fn jitter_secs(now_ms: i64, backoff_secs: u64) -> (j: u64)
    ensures
        j == jitter_spec(now_ms, backoff_secs),
        j <= backoff_secs / 2,
{
    let m: u64 = backoff_secs / 2 + 1;
    let e: u64 = if now_ms >= 0 { now_ms as u64 } else { 0 };
    e % m
}

/// Build the delay slept before the next connect attempt: the backoff for
/// `errors`, jitter from the current clock, and the given cooldown.
fn compute_delay(errors: u32, cooldown_secs: u64) -> (d: Delay)
    ensures
        d.backoff_secs == backoff_secs_spec(errors),
        d.jitter_secs <= d.backoff_secs / 2,
        d.cooldown_secs == cooldown_secs,
{
    let b = backoff_secs(errors);
    let now = now_millis();
    let j = jitter_secs(now, b);
    Delay { backoff_secs: b, jitter_secs: j, cooldown_secs }
}

/// One per-symbol worker: its symbol, its private failure counter, and its
/// current state. No other worker ever reads or writes these fields.
#[derive(Debug, Clone)]
pub struct StreamSession {
    /// The trading pair this session owns.
    pub symbol: String,
    /// Connect failures since the last successful connection.
    pub consecutive_errors: u32,
    /// Where in the connect/stream/backoff cycle the session stands.
    pub state: SessionState,
}

impl StreamSession {
    /// The session invariant: the failure counter stays strictly below the
    /// threshold, because reaching it resets the counter.
    pub open spec fn wf(self) -> bool {
        self.consecutive_errors < MAX_CONSECUTIVE_ERRORS
    }

    /// A fresh session for one symbol, about to make its first connect
    /// attempt.
    pub fn new(symbol: String) -> (s: StreamSession)
        ensures
            s.symbol == symbol,
            s.consecutive_errors == 0,
            s.state == SessionState::Connecting,
            s.wf(),
    {
        StreamSession { symbol, consecutive_errors: 0, state: SessionState::Connecting }
    }

    /// Advance the session by one observed event and say what to do next.
    ///
    /// The contract pins the whole transition: the new state and failure
    /// counter follow [`next_state`] and [`next_errors`], a tick is
    /// published as an observation carrying this session's symbol, a
    /// failure or stream end leads to a [`Delay`] with the specified
    /// backoff, bounded jitter and cooldown, and a failed publish ends the
    /// session at once.
    pub fn step(&mut self, event: StreamEvent) -> (action: SessionAction)
        requires
            old(self).wf(),
            event_fits(old(self).state, event),
        ensures
            final(self).wf(),
            final(self).symbol == old(self).symbol,
            final(self).state == next_state(old(self).state, event),
            final(self).consecutive_errors == next_errors(
                old(self).state,
                old(self).consecutive_errors,
                event,
            ),
            (match (old(self).state, event) {
                (SessionState::Connecting, StreamEvent::Connected) => action
                    == SessionAction::PullNext,
                (SessionState::Connecting, StreamEvent::ConnectFailed) => action
                    matches SessionAction::Sleep(d)
                    && d.backoff_secs == backoff_secs_spec(
                        (old(self).consecutive_errors + 1) as u32,
                    )
                    && d.jitter_secs <= d.backoff_secs / 2
                    && d.cooldown_secs == failure_cooldown(old(self).consecutive_errors),
                (SessionState::Streaming, StreamEvent::Tick(p)) => action
                    matches SessionAction::Publish(u)
                    && u.pair@ == old(self).symbol@
                    && u.price == p,
                (SessionState::Streaming, StreamEvent::StreamFault) => action
                    == SessionAction::PullNext,
                (SessionState::Streaming, StreamEvent::StreamClosed) => action
                    matches SessionAction::Sleep(d)
                    && d.backoff_secs == backoff_secs_spec(old(self).consecutive_errors)
                    && d.jitter_secs <= d.backoff_secs / 2
                    && d.cooldown_secs == 0,
                (SessionState::Streaming, StreamEvent::SendFailed) => action
                    == SessionAction::Exit,
                (SessionState::BackingOff, StreamEvent::SleepFinished) => action
                    == SessionAction::Subscribe,
                _ => true,
            }),
    {
        let st = self.state;
        match (st, event) {
            (SessionState::Connecting, StreamEvent::Connected) => {
                self.consecutive_errors = 0;
                self.state = SessionState::Streaming;
                SessionAction::PullNext
            },
            (SessionState::Connecting, StreamEvent::ConnectFailed) => {
                let e1 = self.consecutive_errors + 1;
                let cooldown: u64 = if e1 >= MAX_CONSECUTIVE_ERRORS {
                    COOLDOWN_SECS
                } else {
                    0
                };
                let d = compute_delay(e1, cooldown);
                self.consecutive_errors = if e1 >= MAX_CONSECUTIVE_ERRORS {
                    0
                } else {
                    e1
                };
                self.state = SessionState::BackingOff;
                SessionAction::Sleep(d)
            },
            (SessionState::Streaming, StreamEvent::Tick(p)) => {
                let update = PriceUpdate::new(self.symbol.clone(), p);
                SessionAction::Publish(update)
            },
            (SessionState::Streaming, StreamEvent::StreamFault) => SessionAction::PullNext,
            (SessionState::Streaming, StreamEvent::StreamClosed) => {
                let d = compute_delay(self.consecutive_errors, 0);
                self.state = SessionState::BackingOff;
                SessionAction::Sleep(d)
            },
            (SessionState::Streaming, StreamEvent::SendFailed) => {
                self.state = SessionState::Stopped;
                SessionAction::Exit
            },
            (SessionState::BackingOff, StreamEvent::SleepFinished) => {
                self.state = SessionState::Connecting;
                SessionAction::Subscribe
            },
            _ => {
                proof {
                    assert(false);
                }
                SessionAction::Exit
            },
        }
    }
}

/// The state a session reaches after a whole sequence of events.
pub open spec fn run_state(st: SessionState, evs: Seq<StreamEvent>) -> SessionState
    decreases evs.len(),
{
    if evs.len() == 0 {
        st
    } else {
        run_state(next_state(st, evs[0]), evs.skip(1))
    }
}

/// The prices a session publishes over a whole sequence of events, in the
/// order it publishes them.
pub open spec fn run_outputs(st: SessionState, evs: Seq<StreamEvent>) -> Seq<Price>
    decreases evs.len(),
{
    if evs.len() == 0 {
        Seq::empty()
    } else {
        let rest = run_outputs(next_state(st, evs[0]), evs.skip(1));
        match emitted(st, evs[0]) {
            Some(p) => seq![p] + rest,
            None => rest,
        }
    }
}

/// A subscription that yields its ticks in order with no errors has them
/// published in exactly that order: an uninterrupted streaming episode
/// preserves the tick sequence.
pub proof fn lemma_streaming_preserves_order(prices: Seq<Price>)
    ensures
        run_outputs(
            SessionState::Streaming,
            prices.map_values(|p: Price| StreamEvent::Tick(p)),
        ) == prices,
    decreases prices.len(),
{
    let evs = prices.map_values(|p: Price| StreamEvent::Tick(p));
    if prices.len() == 0 {
        assert(run_outputs(SessionState::Streaming, evs) =~= prices);
    } else {
        lemma_streaming_preserves_order(prices.skip(1));
        assert(evs.skip(1) =~= prices.skip(1).map_values(|p: Price| StreamEvent::Tick(p)));
        assert(run_outputs(SessionState::Streaming, evs) =~= prices);
    }
}

/// The backoff formula: when the failure counter reaches `k` (between 1
/// and the threshold), the delay before the next connect attempt is `2^k`
/// seconds plus a jitter strictly below `2^k / 2 + 1` seconds; and any
/// successful connect resets the counter, so the next failure is priced
/// by the `k = 1` formula again.
pub proof fn lemma_backoff_formula(k: u32, now_ms: i64, errors: u32)
    requires
        1 <= k <= MAX_CONSECUTIVE_ERRORS,
    ensures
        backoff_secs_spec(k) == pow2(k as nat),
        jitter_spec(now_ms, backoff_secs_spec(k)) < pow2(k as nat) / 2 + 1,
        next_errors(SessionState::Connecting, errors, StreamEvent::Connected) == 0,
{
    lemma2_to64();
}

/// After the threshold's worth of consecutive failures, the one extra
/// fixed cooldown of `10 * BASE_BACKOFF_SECS` seconds applies and the
/// counter resets to zero, so the following failure behaves exactly like
/// a first failure.
pub proof fn lemma_cooldown_resets_counter()
    ensures
        failure_cooldown((MAX_CONSECUTIVE_ERRORS - 1) as u32) == COOLDOWN_SECS,
        COOLDOWN_SECS == 10 * BASE_BACKOFF_SECS,
        next_errors(
            SessionState::Connecting,
            (MAX_CONSECUTIVE_ERRORS - 1) as u32,
            StreamEvent::ConnectFailed,
        ) == 0,
        // the failure after a reset is priced and counted like a first failure
        next_errors(SessionState::Connecting, 0, StreamEvent::ConnectFailed) == 1,
        failure_cooldown(0) == 0,
        backoff_secs_spec(1) == 2 * BASE_BACKOFF_SECS,
{
    lemma2_to64();
}

/// A per-message stream fault is harmless: it neither closes the
/// subscription nor advances the failure counter, and a tick arriving
/// right after it on the same open stream is still published.
pub proof fn lemma_stream_fault_harmless(errors: u32, p: Price)
    ensures
        next_state(SessionState::Streaming, StreamEvent::StreamFault) == SessionState::Streaming,
        next_errors(SessionState::Streaming, errors, StreamEvent::StreamFault) == errors,
        emitted(
            next_state(SessionState::Streaming, StreamEvent::StreamFault),
            StreamEvent::Tick(p),
        ) == Some(p),
{
}

/// A closed delivery channel ends the session within one send attempt:
/// the failed publish moves the session straight to `Stopped`, no event
/// fits a stopped session any more, and no run out of `Stopped` ever
/// reaches another state or publishes another observation — in
/// particular, none ever demands a connect attempt again.
pub proof fn lemma_consumer_gone_stops_session(ev: StreamEvent, evs: Seq<StreamEvent>)
    ensures
        next_state(SessionState::Streaming, StreamEvent::SendFailed) == SessionState::Stopped,
        !event_fits(SessionState::Stopped, ev),
        run_state(SessionState::Stopped, evs) == SessionState::Stopped,
        run_outputs(SessionState::Stopped, evs) == Seq::<Price>::empty(),
    decreases evs.len(),
{
    if evs.len() > 0 {
        lemma_consumer_gone_stops_session(ev, evs.skip(1));
    }
    assert(run_outputs(SessionState::Stopped, evs) =~= Seq::<Price>::empty());
}

} // verus!

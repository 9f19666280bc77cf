//! Bounded polling: evaluate a fallible condition again and again, with a
//! short pause between two attempts, until it holds or a deadline has passed.
//!
//! The module decides; its caller owns the clock, the pause and the condition.
//! Each [`Request`] names what the caller does next, and the answer comes back
//! as an [`Event`]. Times are readings of one monotonic clock, in nanoseconds
//! from an origin that the caller picks.

use vstd::prelude::*;

verus! {

/// Pause between two evaluations of the condition: one millisecond.
pub const POLL_INTERVAL: u64 = 1_000_000;

/// What a poll is waiting for.
#[derive(Clone, Copy, Debug, PartialEq, Eq, Structural)]
pub enum Phase {
    /// No clock reading yet: the first one fixes the deadline.
    Arming,
    /// The next clock reading is held against the deadline.
    Timing,
    /// The condition is being evaluated.
    Probing,
}

/// A poll in progress.
#[derive(Clone, Copy, Debug, PartialEq, Eq, Structural)]
pub struct Wait {
    /// How long the condition may stay false, in nanoseconds.
    pub timeout: u64,
    /// The clock reading that armed the poll.
    pub armed_at: u64,
    pub phase: Phase,
}

/// What the caller reports back.
#[derive(Debug, PartialEq, Eq)]
pub enum Event<E> {
    /// A reading of the clock.
    Clock(u64),
    /// The condition was evaluated: it holds, it does not, or it failed.
    Observed(Result<bool, E>),
}

/// What the caller does next.
#[derive(Clone, Copy, Debug, PartialEq, Eq, Structural)]
pub enum Request {
    /// Read the clock and report `Event::Clock`.
    ReadClock,
    /// Evaluate the condition and report `Event::Observed`.
    Evaluate,
    /// Pause for so many nanoseconds, then read the clock and report
    /// `Event::Clock`.
    Sleep(u64),
}

/// How one step of a poll ends.
#[derive(Debug, PartialEq, Eq)]
pub enum Step<E> {
    /// The poll goes on in the given state, with the given request.
    Continue(Wait, Request),
    /// The poll is over: `Ok(true)` if the condition held before the
    /// deadline, `Ok(false)` if the deadline passed, `Err` if the condition
    /// failed.
    Finished(Result<bool, E>),
}

/// One attempt of a poll as its caller lived it: the clock reading at the head
/// of the attempt, and what the condition gave if it was evaluated then.
pub struct Attempt<E> {
    pub now: u64,
    pub observed: Result<bool, E>,
}

impl Wait {
    /// The instant from which the poll gives up.
    pub open spec fn deadline(self) -> int {
        self.armed_at + self.timeout
    }

    /// The transition table of a poll.
    ///
    /// An event that does not answer the pending request changes nothing: the
    /// request is made again.
    pub open spec fn next<E>(self, event: Event<E>) -> Step<E> {
        match (self.phase, event) {
            (Phase::Arming, Event::Clock(now)) => Step::Continue(
                Wait { timeout: self.timeout, armed_at: now, phase: Phase::Timing },
                Request::ReadClock,
            ),
            (Phase::Timing, Event::Clock(now)) => if now < self.deadline() {
                Step::Continue(
                    Wait { timeout: self.timeout, armed_at: self.armed_at, phase: Phase::Probing },
                    Request::Evaluate,
                )
            } else {
                Step::Finished(Ok(false))
            },
            (Phase::Probing, Event::Observed(Ok(true))) => Step::Finished(Ok(true)),
            (Phase::Probing, Event::Observed(Ok(false))) => Step::Continue(
                Wait { timeout: self.timeout, armed_at: self.armed_at, phase: Phase::Timing },
                Request::Sleep(POLL_INTERVAL),
            ),
            (Phase::Probing, Event::Observed(Err(e))) => Step::Finished(Err(e)),
            (Phase::Probing, Event::Clock(_)) => Step::Continue(self, Request::Evaluate),
            (_, Event::Observed(_)) => Step::Continue(self, Request::ReadClock),
        }
    }

    /// What a poll armed at `armed_at` returns when the attempts in `script`
    /// are what its caller lives through, in order. `None`: the script ends
    /// before the poll does.
    ///
    /// An attempt whose clock reading has reached the deadline ends the poll
    /// with `Ok(false)`, whatever the condition would have given. Before the
    /// deadline, a condition that holds ends it with `Ok(true)`, one that
    /// fails ends it with that error, and one that does not hold leads to the
    /// next attempt.
    pub open spec fn outcome<E>(self, script: Seq<Attempt<E>>) -> Option<Result<bool, E>>
        decreases script.len(),
    {
        if script.len() == 0 {
            None
        } else if script[0].now >= self.deadline() {
            Some(Ok(false))
        } else {
            match script[0].observed {
                Ok(true) => Some(Ok(true)),
                Ok(false) => self.outcome(script.skip(1)),
                Err(e) => Some(Err(e)),
            }
        }
    }

    /// What the transition table returns when a caller that answers each
    /// request lives through the attempts in `script`, starting from a poll
    /// that waits for a clock reading.
    pub open spec fn run<E>(self, script: Seq<Attempt<E>>) -> Option<Result<bool, E>>
        decreases script.len(),
    {
        if script.len() == 0 {
            None
        } else {
            match self.next(Event::<E>::Clock(script[0].now)) {
                Step::Finished(result) => Some(result),
                Step::Continue(probing, _) => match probing.next(
                    Event::Observed(script[0].observed),
                ) {
                    Step::Finished(result) => Some(result),
                    Step::Continue(timing, _) => timing.run(script.skip(1)),
                },
            }
        }
    }
}

/// Starts a poll with the given timeout in nanoseconds.
///
/// The first request is for the clock reading that arms it.
pub fn begin(timeout: u64) -> (start: (Wait, Request))
    ensures
        start.0 == (Wait { timeout, armed_at: 0, phase: Phase::Arming }),
        start.1 == Request::ReadClock,
{
    (Wait { timeout, armed_at: 0, phase: Phase::Arming }, Request::ReadClock)
}

/// Advances a poll by one event.
///
/// The first clock reading arms the poll: the deadline is that reading plus
/// the timeout. Every later reading is held against the deadline: before it
/// the condition is evaluated, from it on the poll ends with `Ok(false)`. A
/// condition that holds ends the poll with `Ok(true)`, one that fails ends it
/// with its error at once, and one that does not hold asks for a pause of
/// [`POLL_INTERVAL`] before the next reading.
pub fn wait<E>(state: Wait, event: Event<E>) -> (step: Step<E>)
    ensures
        step == state.next(event),
{
    match event {
        Event::Clock(now) => match state.phase {
            Phase::Arming => Step::Continue(
                Wait { timeout: state.timeout, armed_at: now, phase: Phase::Timing },
                Request::ReadClock,
            ),
            Phase::Timing => if now < state.armed_at || now - state.armed_at < state.timeout {
                Step::Continue(
                    Wait {
                        timeout: state.timeout,
                        armed_at: state.armed_at,
                        phase: Phase::Probing,
                    },
                    Request::Evaluate,
                )
            } else {
                Step::Finished(Ok(false))
            },
            Phase::Probing => Step::Continue(state, Request::Evaluate),
        },
        Event::Observed(observed) => match state.phase {
            Phase::Probing => match observed {
                Ok(true) => Step::Finished(Ok(true)),
                Ok(false) => Step::Continue(
                    Wait {
                        timeout: state.timeout,
                        armed_at: state.armed_at,
                        phase: Phase::Timing,
                    },
                    Request::Sleep(POLL_INTERVAL),
                ),
                Err(e) => Step::Finished(Err(e)),
            },
            _ => Step::Continue(state, Request::ReadClock),
        },
    }
}

/// A poll that is driven as asked returns what [`Wait::outcome`] says: `true`
/// exactly if the condition held at an attempt before the deadline, `false`
/// once a clock reading has reached the deadline, and the condition's error
/// as soon as it fails.
pub proof fn lemma_wait_outcome<E>(state: Wait, script: Seq<Attempt<E>>)
    requires
        state.phase == Phase::Timing,
    ensures
        state.run(script) == state.outcome(script),
    decreases script.len(),
{
    if script.len() > 0 {
        lemma_wait_outcome(state, script.skip(1));
    }
}

/// A poll never outlives its deadline: the first attempt whose clock reading
/// has reached it ends the poll, and no attempt after it counts.
pub proof fn lemma_wait_is_bounded<E>(state: Wait, script: Seq<Attempt<E>>, late: int)
    requires
        0 <= late < script.len(),
        script[late].now >= state.deadline(),
    ensures
        state.outcome(script) is Some,
        state.outcome(script) == state.outcome(script.take(late + 1)),
    decreases late,
{
    if script[0].now >= state.deadline() {
    } else {
        match script[0].observed {
            Ok(false) => {
                assert(late > 0);
                lemma_wait_is_bounded(state, script.skip(1), late - 1);
                assert(script.take(late + 1).skip(1) =~= script.skip(1).take(late));
            },
            _ => {},
        }
    }
}

} // verus!

//! The handshake-line test: drive one output low and then high, and see the
//! paired input at the far end follow both times.
//!
//! The module decides; its caller owns the two lines. Each [`PinRequest`]
//! names what the caller does next, and the answer comes back as a
//! [`PinEvent`].

use vstd::prelude::*;
use crate::fault::Fault;
use crate::lines::LINE_BUDGET;

verus! {

/// How far a handshake-line test has come.
#[derive(Clone, Copy, Debug, PartialEq, Eq, Structural)]
pub enum PinState {
    /// Nothing has been done. The output is about to be driven low.
    Idle,
    /// The output is low. The input is being watched for following it.
    DrivenLow,
    /// The input has followed the output down. The output is about to be
    /// driven high.
    ConfirmedLow,
    /// The output is high. The input is being watched for following it.
    DrivenHigh,
}

/// What the caller reports back.
#[derive(Debug, PartialEq, Eq)]
pub enum PinEvent<E> {
    /// The output was driven.
    Driven(Result<(), E>),
    /// The poll of the input has ended: `Ok(true)` if the input read as asked
    /// within the budget, `Ok(false)` if it did not.
    Waited(Result<bool, E>),
}

/// What the caller does next.
#[derive(Clone, Copy, Debug, PartialEq, Eq, Structural)]
pub enum PinRequest {
    /// Drive the output to this level and report `Driven`.
    Drive(bool),
    /// Poll, for at most `budget` nanoseconds, whether the input reads
    /// `level`, and report `Waited`.
    Await { level: bool, budget: u64 },
}

/// How one step of a handshake-line test ends.
#[derive(Debug, PartialEq, Eq)]
pub enum PinStep<E> {
    /// The test goes on in the given state, with the given request.
    Continue(PinState, PinRequest),
    /// The input has followed the output up as well: the test has passed.
    ConfirmedHigh,
    /// The test has failed.
    Failed(Fault<E>),
}

impl PinState {
    /// The request that is pending in this state.
    pub open spec fn spec_pending(self) -> PinRequest {
        match self {
            PinState::Idle => PinRequest::Drive(false),
            PinState::DrivenLow => PinRequest::Await { level: false, budget: LINE_BUDGET },
            PinState::ConfirmedLow => PinRequest::Drive(true),
            PinState::DrivenHigh => PinRequest::Await { level: true, budget: LINE_BUDGET },
        }
    }

    /// The test moved on to another state, with the request of that state.
    pub open spec fn proceed<E>(self) -> PinStep<E> {
        PinStep::Continue(self, self.spec_pending())
    }

    /// The transition table of a handshake-line test.
    ///
    /// The output is driven low, and the input is given 100 ms to read low: if
    /// it does not, the test fails because the input stayed high. The output
    /// is then driven high, and the input is given 100 ms to read high: if it
    /// does not, the test fails because the input stayed low. An error of the
    /// port layer ends the test with that error.
    ///
    /// An event that does not answer the pending request changes nothing: the
    /// request is made again.
    pub open spec fn next<E>(self, event: PinEvent<E>) -> PinStep<E> {
        match (self, event) {
            (PinState::Idle, PinEvent::Driven(Ok(_))) => PinState::DrivenLow.proceed(),
            (PinState::DrivenLow, PinEvent::Waited(Ok(true))) => PinState::ConfirmedLow.proceed(),
            (PinState::DrivenLow, PinEvent::Waited(Ok(false))) => PinStep::Failed(
                Fault::StayedHigh,
            ),
            (PinState::ConfirmedLow, PinEvent::Driven(Ok(_))) => PinState::DrivenHigh.proceed(),
            (PinState::DrivenHigh, PinEvent::Waited(Ok(true))) => PinStep::ConfirmedHigh,
            (PinState::DrivenHigh, PinEvent::Waited(Ok(false))) => PinStep::Failed(
                Fault::StayedLow,
            ),
            (PinState::Idle | PinState::ConfirmedLow, PinEvent::Driven(Err(e))) => PinStep::Failed(
                Fault::Port(e),
            ),
            (PinState::DrivenLow | PinState::DrivenHigh, PinEvent::Waited(Err(e))) => {
                PinStep::Failed(Fault::Port(e))
            },
            _ => self.proceed(),
        }
    }

    /// Where the test stands after the caller has reported `events`, in order.
    /// Events that come after the end of the test are not read.
    pub open spec fn run<E>(self, events: Seq<PinEvent<E>>) -> PinStep<E>
        decreases events.len(),
    {
        if events.len() == 0 {
            self.proceed()
        } else {
            match self.next(events[0]) {
                PinStep::Continue(state, _) => state.run(events.skip(1)),
                over => over,
            }
        }
    }

    /// The request that is pending in this state.
    #[verifier::when_used_as_spec(spec_pending)]
    pub fn pending(self) -> (request: PinRequest)
        ensures
            request == self.spec_pending(),
    {
        match self {
            PinState::Idle => PinRequest::Drive(false),
            PinState::DrivenLow => PinRequest::Await { level: false, budget: LINE_BUDGET },
            PinState::ConfirmedLow => PinRequest::Drive(true),
            PinState::DrivenHigh => PinRequest::Await { level: true, budget: LINE_BUDGET },
        }
    }

    fn go<E>(self) -> (step: PinStep<E>)
        ensures
            step == self.proceed::<E>(),
    {
        PinStep::Continue(self, self.pending())
    }
}

impl<E> PinStep<E> {
    /// The result of a test that is over: `Ok` for one that has passed, the
    /// fault for one that has failed. `None` while the test goes on.
    pub open spec fn spec_verdict(self) -> Option<Result<(), Fault<E>>> {
        match self {
            PinStep::Continue(_, _) => None,
            PinStep::ConfirmedHigh => Some(Ok(())),
            PinStep::Failed(fault) => Some(Err(fault)),
        }
    }

    #[verifier::when_used_as_spec(spec_verdict)]
    pub fn verdict(self) -> (verdict: Option<Result<(), Fault<E>>>)
        ensures
            verdict == self.spec_verdict(),
    {
        match self {
            PinStep::Continue(_, _) => None,
            PinStep::ConfirmedHigh => Some(Ok(())),
            PinStep::Failed(fault) => Some(Err(fault)),
        }
    }
}

/// Starts a handshake-line test: nothing has been done, and the first request
/// is to drive the output low.
pub fn begin() -> (start: (PinState, PinRequest))
    ensures
        start.0 == PinState::Idle,
        start.1 == PinState::Idle.spec_pending(),
{
    (PinState::Idle, PinState::Idle.pending())
}

/// Advances a handshake-line test by one event, as [`PinState::next`] says.
pub fn test_pin<E>(state: PinState, event: PinEvent<E>) -> (step: PinStep<E>)
    ensures
        step == state.next(event),
{
    match event {
        PinEvent::Driven(driven) => match state {
            PinState::Idle => match driven {
                Ok(_) => PinState::DrivenLow.go(),
                Err(e) => PinStep::Failed(Fault::Port(e)),
            },
            PinState::ConfirmedLow => match driven {
                Ok(_) => PinState::DrivenHigh.go(),
                Err(e) => PinStep::Failed(Fault::Port(e)),
            },
            _ => state.go(),
        },
        PinEvent::Waited(waited) => match state {
            PinState::DrivenLow => match waited {
                Ok(true) => PinState::ConfirmedLow.go(),
                Ok(false) => PinStep::Failed(Fault::StayedHigh),
                Err(e) => PinStep::Failed(Fault::Port(e)),
            },
            PinState::DrivenHigh => match waited {
                Ok(true) => PinStep::ConfirmedHigh,
                Ok(false) => PinStep::Failed(Fault::StayedLow),
                Err(e) => PinStep::Failed(Fault::Port(e)),
            },
            _ => state.go(),
        },
    }
}

/// The events of a test in which the port layer reports no error: the output
/// is driven low, the poll for a low input ends with `fell`, and, if the test
/// goes on, the output is driven high and the poll for a high input ends with
/// `rose`.
pub open spec fn clean_events<E>(fell: bool, rose: bool) -> Seq<PinEvent<E>> {
    seq![
        PinEvent::Driven(Ok(())),
        PinEvent::Waited(Ok(fell)),
        PinEvent::Driven(Ok(())),
        PinEvent::Waited(Ok(rose)),
    ]
}

/// A test in which the port layer reports no error passes exactly if the
/// input followed the output down and then up, each time within 100 ms.
/// If the input did not follow it down, the test fails because the input
/// stayed high, and the output is never driven high. If the input followed it
/// down but not up, the test fails because the input stayed low.
pub proof fn lemma_pin_test_verdict<E>(fell: bool, rose: bool)
    ensures
        PinState::Idle.spec_pending() == PinRequest::Drive(false),
        PinState::Idle.next(PinEvent::<E>::Driven(Ok(()))) == PinStep::<E>::Continue(
            PinState::DrivenLow,
            PinRequest::Await { level: false, budget: LINE_BUDGET },
        ),
        PinState::DrivenLow.next(PinEvent::<E>::Waited(Ok(true))) == PinStep::<E>::Continue(
            PinState::ConfirmedLow,
            PinRequest::Drive(true),
        ),
        PinState::ConfirmedLow.next(PinEvent::<E>::Driven(Ok(()))) == PinStep::<E>::Continue(
            PinState::DrivenHigh,
            PinRequest::Await { level: true, budget: LINE_BUDGET },
        ),
        PinState::Idle.run(clean_events::<E>(fell, rose)) == if !fell {
            PinStep::<E>::Failed(Fault::StayedHigh)
        } else if !rose {
            PinStep::Failed(Fault::StayedLow)
        } else {
            PinStep::ConfirmedHigh
        },
{
    let events = clean_events::<E>(fell, rose);
    let after_one = events.skip(1);
    let after_two = after_one.skip(1);
    let after_three = after_two.skip(1);
    assert(after_one[0] == events[1]);
    assert(after_two[0] == events[2]);
    assert(after_three[0] == events[3]);
    assert(after_three.skip(1).len() == 0);
    reveal_with_fuel(PinState::run, 5);
}

} // verus!

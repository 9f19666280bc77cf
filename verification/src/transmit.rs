//! The transmission test: set the handshake lines at both ends, write a known
//! pattern at one end, and hold what arrives at the other end against it.
//!
//! The module decides; its caller owns the two ports. Each
//! [`TransmitRequest`] names what the caller does next, and the answer comes
//! back as a [`TransmitEvent`].

use vstd::prelude::*;
use crate::fault::Fault;
use crate::lines::{Input, Output, Pins, Side, LINE_BUDGET};

verus! {

/// Time that the full pattern is given to arrive: 500 ms, in nanoseconds.
pub const ARRIVAL_BUDGET: u64 = 500_000_000;

/// The pattern of a full test: the 256 byte values, in rising order.
pub open spec fn spec_full_pattern() -> Seq<u8> {
    Seq::new(256, |i: int| i as u8)
}

/// Builds the pattern of a full test.
pub fn full_pattern() -> (pattern: Vec<u8>)
    ensures
        pattern@ == spec_full_pattern(),
{
    let mut pattern: Vec<u8> = Vec::new();
    let mut value: u16 = 0;
    while value < 256
        invariant
            value <= 256,
            pattern@ =~= Seq::new(value as nat, |i: int| i as u8),
        decreases 256 - value,
    {
        pattern.push(value as u8);
        value = value + 1;
    }
    pattern
}

/// Whether two byte strings are the same, in length and in content.
pub fn same_bytes(left: &Vec<u8>, right: &Vec<u8>) -> (same: bool)
    ensures
        same == (left@ == right@),
{
    if left.len() != right.len() {
        return false;
    }
    let mut index: usize = 0;
    while index < left.len()
        invariant
            left.len() == right.len(),
            index <= left.len(),
            forall|i: int| 0 <= i < index ==> left@[i] == right@[i],
        decreases left.len() - index,
    {
        if left[index] != right[index] {
            return false;
        }
        index = index + 1;
    }
    assert(left@ =~= right@);
    true
}

/// Whether the receiver holds the whole pattern: its input buffer has at
/// least `expected` bytes.
pub fn has_arrived(available: u32, expected: usize) -> (arrived: bool)
    ensures
        arrived == (available >= expected),
{
    available as usize >= expected
}

/// One reading of the check that the lines have settled, in the order in which
/// the readings are made.
#[derive(Clone, Copy, Debug, PartialEq, Eq, Structural)]
pub enum Probe {
    /// The receiver's Data-Set-Ready, which follows the sender's
    /// Data-Terminal-Ready.
    ReceiverDsr,
    /// The sender's Data-Set-Ready, which follows the receiver's
    /// Data-Terminal-Ready.
    SenderDsr,
    /// The receiver's Clear-To-Send, which follows the sender's
    /// Request-To-Send.
    ReceiverCts,
    /// The sender's Clear-To-Send, which follows the receiver's
    /// Request-To-Send.
    SenderCts,
}

impl Probe {
    /// The end that makes the reading.
    pub open spec fn spec_side(self) -> Side {
        match self {
            Probe::ReceiverDsr | Probe::ReceiverCts => Side::Receiver,
            Probe::SenderDsr | Probe::SenderCts => Side::Sender,
        }
    }

    /// The far end's output that the reading follows.
    pub open spec fn spec_watched(self) -> Output {
        match self {
            Probe::ReceiverDsr | Probe::SenderDsr => Output::DataTerminalReady,
            Probe::ReceiverCts | Probe::SenderCts => Output::RequestToSend,
        }
    }

    /// The status line that is read.
    pub open spec fn spec_line(self) -> Input {
        self.spec_watched().spec_partner()
    }

    /// The level that the reading gives once the line has followed.
    pub open spec fn expected(self, pins: Pins) -> bool {
        pins.spec_commanded(self.spec_side().spec_other(), self.spec_watched())
    }

    /// The reading after this one, if any.
    pub open spec fn following(self) -> Option<Probe> {
        match self {
            Probe::ReceiverDsr => Some(Probe::SenderDsr),
            Probe::SenderDsr => Some(Probe::ReceiverCts),
            Probe::ReceiverCts => Some(Probe::SenderCts),
            Probe::SenderCts => None,
        }
    }

    #[verifier::when_used_as_spec(spec_side)]
    pub fn side(self) -> (side: Side)
        ensures
            side == self.spec_side(),
    {
        match self {
            Probe::ReceiverDsr | Probe::ReceiverCts => Side::Receiver,
            Probe::SenderDsr | Probe::SenderCts => Side::Sender,
        }
    }

    #[verifier::when_used_as_spec(spec_watched)]
    pub fn watched(self) -> (output: Output)
        ensures
            output == self.spec_watched(),
    {
        match self {
            Probe::ReceiverDsr | Probe::SenderDsr => Output::DataTerminalReady,
            Probe::ReceiverCts | Probe::SenderCts => Output::RequestToSend,
        }
    }

    #[verifier::when_used_as_spec(spec_line)]
    pub fn line(self) -> (input: Input)
        ensures
            input == self.spec_line(),
    {
        self.watched().partner()
    }
}

/// How one reading of the settle check ends.
#[derive(Debug, PartialEq, Eq)]
pub enum SettleStep<E> {
    /// Make the given reading next.
    Read(Probe),
    /// The check is over: `Ok(true)` if every line reads as commanded,
    /// `Ok(false)` if one does not yet, `Err` if a reading failed.
    Finished(Result<bool, E>),
}

/// What the settle check gives for a reading: the readings are made in order,
/// and the first one that fails or differs from the commanded level ends the
/// check.
pub open spec fn settle_next<E>(pins: Pins, probe: Probe, level: Result<bool, E>) -> SettleStep<
    E,
> {
    match level {
        Err(e) => SettleStep::Finished(Err(e)),
        Ok(seen) => if seen != probe.expected(pins) {
            SettleStep::Finished(Ok(false))
        } else {
            match probe.following() {
                Some(next) => SettleStep::Read(next),
                None => SettleStep::Finished(Ok(true)),
            }
        },
    }
}

/// The first reading of the settle check.
pub fn first_probe() -> (probe: Probe)
    ensures
        probe == Probe::ReceiverDsr,
{
    Probe::ReceiverDsr
}

/// Takes one reading of the settle check and says what comes next.
pub fn settled<E>(pins: Pins, probe: Probe, level: Result<bool, E>) -> (step: SettleStep<E>)
    ensures
        step == settle_next(pins, probe, level),
{
    match level {
        Err(e) => SettleStep::Finished(Err(e)),
        Ok(seen) => {
            let expected = pins.commanded(probe.side().other(), probe.watched());
            if seen != expected {
                SettleStep::Finished(Ok(false))
            } else {
                match probe {
                    Probe::ReceiverDsr => SettleStep::Read(Probe::SenderDsr),
                    Probe::SenderDsr => SettleStep::Read(Probe::ReceiverCts),
                    Probe::ReceiverCts => SettleStep::Read(Probe::SenderCts),
                    Probe::SenderCts => SettleStep::Finished(Ok(true)),
                }
            }
        },
    }
}

/// What the settle check gives when the readings in `levels` come in, in
/// order, from the reading `probe` on. `None`: the levels end before the check
/// does.
pub open spec fn settle_run<E>(pins: Pins, probe: Probe, levels: Seq<Result<bool, E>>) -> Option<
    Result<bool, E>,
>
    decreases levels.len(),
{
    if levels.len() == 0 {
        None
    } else {
        match settle_next(pins, probe, levels[0]) {
            SettleStep::Read(next) => settle_run(pins, next, levels.skip(1)),
            SettleStep::Finished(result) => Some(result),
        }
    }
}

/// When no reading fails, the lines have settled exactly if each end sees on
/// its two status lines what the other end was told to drive: the receiver
/// the sender's Data-Terminal-Ready and Request-To-Send, the sender what the
/// setting gives as its Data-Set-Ready and Clear-To-Send.
pub proof fn lemma_settle_outcome<E>(
    pins: Pins,
    receiver_dsr: bool,
    sender_dsr: bool,
    receiver_cts: bool,
    sender_cts: bool,
)
    ensures
        settle_run::<E>(
            pins,
            Probe::ReceiverDsr,
            seq![Ok(receiver_dsr), Ok(sender_dsr), Ok(receiver_cts), Ok(sender_cts)],
        ) == Some(
            Ok::<bool, E>(
                receiver_dsr == pins.data_terminal_ready && sender_dsr == pins.data_set_ready
                    && receiver_cts == pins.request_to_send && sender_cts == pins.clear_to_send,
            ),
        ),
{
    let levels: Seq<Result<bool, E>> = seq![
        Ok(receiver_dsr),
        Ok(sender_dsr),
        Ok(receiver_cts),
        Ok(sender_cts),
    ];
    let after_one = levels.skip(1);
    let after_two = after_one.skip(1);
    let after_three = after_two.skip(1);
    assert(after_one[0] == levels[1]);
    assert(after_two[0] == levels[2]);
    assert(after_three[0] == levels[3]);
    reveal_with_fuel(settle_run, 5);
}

/// Where a transmission test stands: the request that is pending.
#[derive(Clone, Copy, Debug, PartialEq, Eq, Structural)]
pub enum Stage {
    DrivingSenderDtr,
    DrivingReceiverDtr,
    DrivingSenderRts,
    DrivingReceiverRts,
    Settling,
    Writing,
    Arriving,
    Measuring,
    Reading { count: usize },
}

/// A transmission test in progress.
#[derive(Debug, PartialEq, Eq)]
pub struct Transmission {
    /// The handshake setting under which the pattern is sent.
    pub pins: Pins,
    /// The bytes that are sent.
    pub pattern: Vec<u8>,
    /// Time that the pattern is given to arrive, in nanoseconds.
    pub budget: u64,
    pub stage: Stage,
}

/// What the caller reports back.
#[derive(Debug, PartialEq, Eq)]
pub enum TransmitEvent<E> {
    /// A line was driven, or the pattern was written.
    Done(Result<(), E>),
    /// A poll has ended.
    Waited(Result<bool, E>),
    /// The receiver's input buffer was measured.
    Measured(Result<u32, E>),
    /// Bytes were read at the receiver.
    Received(Result<Vec<u8>, E>),
}

/// What the caller does next.
#[derive(Clone, Copy, Debug, PartialEq, Eq, Structural)]
pub enum TransmitRequest {
    /// Drive an output of one end to a level and report `Done`.
    Drive { side: Side, line: Output, level: bool },
    /// Poll the settle check for at most `budget` nanoseconds and report
    /// `Waited`.
    AwaitLines { budget: u64 },
    /// Write the whole pattern at the sender and report `Done`.
    Write,
    /// Poll, for at most `budget` nanoseconds, whether the receiver's input
    /// buffer holds `count` bytes, and report `Waited`.
    AwaitArrival { count: usize, budget: u64 },
    /// Ask the receiver how many bytes its input buffer holds and report
    /// `Measured`.
    Measure,
    /// Read exactly `count` bytes at the receiver and report `Received`.
    Read { count: usize },
}

/// How one step of a transmission test ends.
#[derive(Debug, PartialEq, Eq)]
pub enum TransmitStep<E> {
    /// The test goes on in the given state, with the given request.
    Continue(Transmission, TransmitRequest),
    /// The test is over.
    Finished(Result<(), Fault<E>>),
}

impl Transmission {
    /// The request that is pending in this state.
    pub open spec fn spec_pending(&self) -> TransmitRequest {
        match self.stage {
            Stage::DrivingSenderDtr => TransmitRequest::Drive {
                side: Side::Sender,
                line: Output::DataTerminalReady,
                level: self.pins.data_terminal_ready,
            },
            Stage::DrivingReceiverDtr => TransmitRequest::Drive {
                side: Side::Receiver,
                line: Output::DataTerminalReady,
                level: self.pins.data_set_ready,
            },
            Stage::DrivingSenderRts => TransmitRequest::Drive {
                side: Side::Sender,
                line: Output::RequestToSend,
                level: self.pins.request_to_send,
            },
            Stage::DrivingReceiverRts => TransmitRequest::Drive {
                side: Side::Receiver,
                line: Output::RequestToSend,
                level: self.pins.clear_to_send,
            },
            Stage::Settling => TransmitRequest::AwaitLines { budget: LINE_BUDGET },
            Stage::Writing => TransmitRequest::Write,
            Stage::Arriving => TransmitRequest::AwaitArrival {
                count: self.pattern.len(),
                budget: self.budget,
            },
            Stage::Measuring => TransmitRequest::Measure,
            Stage::Reading { count } => TransmitRequest::Read { count },
        }
    }

    /// This test at another stage.
    pub open spec fn at(self, stage: Stage) -> Transmission {
        Transmission { pins: self.pins, pattern: self.pattern, budget: self.budget, stage }
    }

    /// This test moved on to another stage, with the request of that stage.
    pub open spec fn proceed<E>(self, stage: Stage) -> TransmitStep<E> {
        TransmitStep::Continue(self.at(stage), self.at(stage).spec_pending())
    }

    /// The transition table of a transmission test.
    ///
    /// The four lines are driven in turn, the sender's before the receiver's,
    /// Data-Terminal-Ready before Request-To-Send. The test then waits for the
    /// lines to settle and goes on whether they did or not. It writes the
    /// pattern and waits for it to arrive in full: if it does not, the test
    /// fails as timed out. It measures the receiver's input buffer, reads as
    /// many bytes as were counted and holds them against the pattern. An error
    /// of the port layer at any step, the measurement among them, ends the
    /// test with that error.
    ///
    /// An event that does not answer the pending request changes nothing: the
    /// request is made again.
    pub open spec fn next<E>(self, event: TransmitEvent<E>) -> TransmitStep<E> {
        match (self.stage, event) {
            (Stage::DrivingSenderDtr, TransmitEvent::Done(Ok(_))) => self.proceed(
                Stage::DrivingReceiverDtr,
            ),
            (Stage::DrivingReceiverDtr, TransmitEvent::Done(Ok(_))) => self.proceed(
                Stage::DrivingSenderRts,
            ),
            (Stage::DrivingSenderRts, TransmitEvent::Done(Ok(_))) => self.proceed(
                Stage::DrivingReceiverRts,
            ),
            (Stage::DrivingReceiverRts, TransmitEvent::Done(Ok(_))) => self.proceed(
                Stage::Settling,
            ),
            (Stage::Settling, TransmitEvent::Waited(Ok(_))) => self.proceed(Stage::Writing),
            (Stage::Writing, TransmitEvent::Done(Ok(_))) => self.proceed(Stage::Arriving),
            (Stage::Arriving, TransmitEvent::Waited(Ok(true))) => self.proceed(Stage::Measuring),
            (Stage::Arriving, TransmitEvent::Waited(Ok(false))) => TransmitStep::Finished(
                Err(Fault::TimedOut),
            ),
            (Stage::Measuring, TransmitEvent::Measured(Ok(available))) => self.proceed(
                Stage::Reading { count: available as usize },
            ),
            (Stage::Reading { .. }, TransmitEvent::Received(Ok(received))) => if received@
                == self.pattern@ {
                TransmitStep::Finished(Ok(()))
            } else {
                TransmitStep::Finished(
                    Err(Fault::Mismatch { received, expected: self.pattern }),
                )
            },
            (
                Stage::DrivingSenderDtr
                | Stage::DrivingReceiverDtr
                | Stage::DrivingSenderRts
                | Stage::DrivingReceiverRts
                | Stage::Writing,
                TransmitEvent::Done(Err(e)),
            ) => TransmitStep::Finished(Err(Fault::Port(e))),
            (Stage::Settling | Stage::Arriving, TransmitEvent::Waited(Err(e))) => {
                TransmitStep::Finished(Err(Fault::Port(e)))
            },
            (Stage::Measuring, TransmitEvent::Measured(Err(e))) => TransmitStep::Finished(
                Err(Fault::Port(e)),
            ),
            (Stage::Reading { .. }, TransmitEvent::Received(Err(e))) => TransmitStep::Finished(
                Err(Fault::Port(e)),
            ),
            _ => TransmitStep::Continue(self, self.spec_pending()),
        }
    }

    /// Where the test stands after the caller has reported `events`, in order.
    /// Events that come after the end of the test are not read.
    pub open spec fn run<E>(self, events: Seq<TransmitEvent<E>>) -> TransmitStep<E>
        decreases events.len(),
    {
        if events.len() == 0 {
            TransmitStep::Continue(self, self.spec_pending())
        } else {
            match self.next(events[0]) {
                TransmitStep::Continue(state, _) => state.run(events.skip(1)),
                over => over,
            }
        }
    }

    /// The requests that the test makes while the caller reports `events`, in
    /// order, the pending one first.
    pub open spec fn requests<E>(self, events: Seq<TransmitEvent<E>>) -> Seq<TransmitRequest>
        decreases events.len(),
    {
        if events.len() == 0 {
            seq![self.spec_pending()]
        } else {
            match self.next(events[0]) {
                TransmitStep::Continue(state, _) => seq![self.spec_pending()] + state.requests(
                    events.skip(1),
                ),
                _ => seq![self.spec_pending()],
            }
        }
    }

    /// The request that is pending in this state.
    #[verifier::when_used_as_spec(spec_pending)]
    pub fn pending(&self) -> (request: TransmitRequest)
        ensures
            request == self.spec_pending(),
    {
        match self.stage {
            Stage::DrivingSenderDtr => TransmitRequest::Drive {
                side: Side::Sender,
                line: Output::DataTerminalReady,
                level: self.pins.data_terminal_ready,
            },
            Stage::DrivingReceiverDtr => TransmitRequest::Drive {
                side: Side::Receiver,
                line: Output::DataTerminalReady,
                level: self.pins.data_set_ready,
            },
            Stage::DrivingSenderRts => TransmitRequest::Drive {
                side: Side::Sender,
                line: Output::RequestToSend,
                level: self.pins.request_to_send,
            },
            Stage::DrivingReceiverRts => TransmitRequest::Drive {
                side: Side::Receiver,
                line: Output::RequestToSend,
                level: self.pins.clear_to_send,
            },
            Stage::Settling => TransmitRequest::AwaitLines { budget: LINE_BUDGET },
            Stage::Writing => TransmitRequest::Write,
            Stage::Arriving => TransmitRequest::AwaitArrival {
                count: self.pattern.len(),
                budget: self.budget,
            },
            Stage::Measuring => TransmitRequest::Measure,
            Stage::Reading { count } => TransmitRequest::Read { count },
        }
    }

    /// A test that sends `pattern` under `pins` and gives it `budget`
    /// nanoseconds to arrive. Nothing has been done yet: the first request is
    /// pending.
    pub fn new(pins: Pins, pattern: Vec<u8>, budget: u64) -> (test: Transmission)
        ensures
            test == (Transmission { pins, pattern, budget, stage: Stage::DrivingSenderDtr }),
    {
        Transmission { pins, pattern, budget, stage: Stage::DrivingSenderDtr }
    }

    /// The full test under `pins`: the 256 byte values, with 500 ms to arrive.
    pub fn full(pins: Pins) -> (test: Transmission)
        ensures
            test.pins == pins,
            test.pattern@ == spec_full_pattern(),
            test.budget == ARRIVAL_BUDGET,
            test.stage == Stage::DrivingSenderDtr,
    {
        Transmission::new(pins, full_pattern(), ARRIVAL_BUDGET)
    }

    fn go<E>(self, stage: Stage) -> (step: TransmitStep<E>)
        ensures
            step == self.proceed::<E>(stage),
    {
        let moved = Transmission {
            pins: self.pins,
            pattern: self.pattern,
            budget: self.budget,
            stage,
        };
        let request = moved.pending();
        TransmitStep::Continue(moved, request)
    }

    fn stay<E>(self) -> (step: TransmitStep<E>)
        ensures
            step == TransmitStep::<E>::Continue(self, self.spec_pending()),
    {
        let request = self.pending();
        TransmitStep::Continue(self, request)
    }
}

/// Advances a transmission test by one event, as [`Transmission::next`] says.
pub fn test_transmit<E>(state: Transmission, event: TransmitEvent<E>) -> (step: TransmitStep<E>)
    ensures
        step == state.next(event),
{
    match event {
        TransmitEvent::Done(done) => match state.stage {
            Stage::DrivingSenderDtr => match done {
                Ok(_) => state.go(Stage::DrivingReceiverDtr),
                Err(e) => TransmitStep::Finished(Err(Fault::Port(e))),
            },
            Stage::DrivingReceiverDtr => match done {
                Ok(_) => state.go(Stage::DrivingSenderRts),
                Err(e) => TransmitStep::Finished(Err(Fault::Port(e))),
            },
            Stage::DrivingSenderRts => match done {
                Ok(_) => state.go(Stage::DrivingReceiverRts),
                Err(e) => TransmitStep::Finished(Err(Fault::Port(e))),
            },
            Stage::DrivingReceiverRts => match done {
                Ok(_) => state.go(Stage::Settling),
                Err(e) => TransmitStep::Finished(Err(Fault::Port(e))),
            },
            Stage::Writing => match done {
                Ok(_) => state.go(Stage::Arriving),
                Err(e) => TransmitStep::Finished(Err(Fault::Port(e))),
            },
            _ => state.stay(),
        },
        TransmitEvent::Waited(waited) => match state.stage {
            Stage::Settling => match waited {
                Ok(_) => state.go(Stage::Writing),
                Err(e) => TransmitStep::Finished(Err(Fault::Port(e))),
            },
            Stage::Arriving => match waited {
                Ok(true) => state.go(Stage::Measuring),
                Ok(false) => TransmitStep::Finished(Err(Fault::TimedOut)),
                Err(e) => TransmitStep::Finished(Err(Fault::Port(e))),
            },
            _ => state.stay(),
        },
        TransmitEvent::Measured(measured) => match state.stage {
            Stage::Measuring => match measured {
                Ok(available) => state.go(Stage::Reading { count: available as usize }),
                Err(e) => TransmitStep::Finished(Err(Fault::Port(e))),
            },
            _ => state.stay(),
        },
        TransmitEvent::Received(read) => match state.stage {
            Stage::Reading { .. } => match read {
                Ok(received) => if same_bytes(&received, &state.pattern) {
                    TransmitStep::Finished(Ok(()))
                } else {
                    TransmitStep::Finished(
                        Err(Fault::Mismatch { received, expected: state.pattern }),
                    )
                },
                Err(e) => TransmitStep::Finished(Err(Fault::Port(e))),
            },
            _ => state.stay(),
        },
    }
}

/// The events of a test in which the port layer reports no error: the four
/// lines are driven, the settle poll ends with `settled`, the pattern is
/// written, the arrival poll ends with `arrived`, and, if the test goes on,
/// the measurement counts `measured` bytes and the read gives `received`.
pub open spec fn clean_events<E>(
    settled: bool,
    arrived: bool,
    measured: u32,
    received: Vec<u8>,
) -> Seq<TransmitEvent<E>> {
    seq![
        TransmitEvent::Done(Ok(())),
        TransmitEvent::Done(Ok(())),
        TransmitEvent::Done(Ok(())),
        TransmitEvent::Done(Ok(())),
        TransmitEvent::Waited(Ok(settled)),
        TransmitEvent::Done(Ok(())),
        TransmitEvent::Waited(Ok(arrived)),
        TransmitEvent::Measured(Ok(measured)),
        TransmitEvent::Received(Ok(received)),
    ]
}

/// The events of a clean test come in turn: what is left once the first of
/// them are taken away, one at a time, begins with the next one.
proof fn lemma_clean_events_in_turn<E>(
    settled: bool,
    arrived: bool,
    measured: u32,
    received: Vec<u8>,
)
    ensures
        ({
            let events = clean_events::<E>(settled, arrived, measured, received);
            let after_one = events.skip(1);
            let after_two = after_one.skip(1);
            let after_three = after_two.skip(1);
            let after_four = after_three.skip(1);
            let after_five = after_four.skip(1);
            let after_six = after_five.skip(1);
            let after_seven = after_six.skip(1);
            let after_eight = after_seven.skip(1);
            &&& after_one[0] == events[1]
            &&& after_two[0] == events[2]
            &&& after_three[0] == events[3]
            &&& after_four[0] == events[4]
            &&& after_five[0] == events[5]
            &&& after_six[0] == events[6]
            &&& after_seven[0] == events[7]
            &&& after_eight[0] == events[8]
            &&& after_eight.skip(1).len() == 0
        }),
{
}

/// A test in which the port layer reports no error passes exactly if the whole
/// pattern arrived within the budget and what was read is the pattern, byte
/// for byte and in length. Neither the handshake setting nor the outcome of
/// the settle poll changes the verdict. A pattern that did not arrive in time
/// fails the test as timed out, and nothing is read.
pub proof fn lemma_transmit_verdict<E>(
    test: Transmission,
    settled: bool,
    arrived: bool,
    measured: u32,
    received: Vec<u8>,
)
    requires
        test.stage == Stage::DrivingSenderDtr,
    ensures
        test.run(clean_events::<E>(settled, arrived, measured, received)) == if !arrived {
            TransmitStep::<E>::Finished(Err(Fault::TimedOut))
        } else if received@ == test.pattern@ {
            TransmitStep::Finished(Ok(()))
        } else {
            TransmitStep::Finished(Err(Fault::Mismatch { received, expected: test.pattern }))
        },
{
    lemma_clean_events_in_turn::<E>(settled, arrived, measured, received);
    reveal_with_fuel(Transmission::run, 10);
}

/// The requests of a test in which the port layer reports no error and the
/// pattern arrives in time. The sender's Data-Terminal-Ready and the
/// receiver's are driven, then the two Request-To-Send lines, each to the
/// level that the setting gives it. The lines get 100 ms to settle. The
/// pattern is written, and gets the budget of the test to arrive in full.
/// The receiver's input buffer is measured, and as many bytes are read as
/// were counted.
pub proof fn lemma_transmit_requests<E>(
    test: Transmission,
    settled: bool,
    measured: u32,
    received: Vec<u8>,
)
    requires
        test.stage == Stage::DrivingSenderDtr,
    ensures
        test.requests(clean_events::<E>(settled, true, measured, received)) == seq![
            TransmitRequest::Drive {
                side: Side::Sender,
                line: Output::DataTerminalReady,
                level: test.pins.data_terminal_ready,
            },
            TransmitRequest::Drive {
                side: Side::Receiver,
                line: Output::DataTerminalReady,
                level: test.pins.data_set_ready,
            },
            TransmitRequest::Drive {
                side: Side::Sender,
                line: Output::RequestToSend,
                level: test.pins.request_to_send,
            },
            TransmitRequest::Drive {
                side: Side::Receiver,
                line: Output::RequestToSend,
                level: test.pins.clear_to_send,
            },
            TransmitRequest::AwaitLines { budget: LINE_BUDGET },
            TransmitRequest::Write,
            TransmitRequest::AwaitArrival { count: test.pattern.len(), budget: test.budget },
            TransmitRequest::Measure,
            TransmitRequest::Read { count: measured as usize },
        ],
{
    lemma_clean_events_in_turn::<E>(settled, true, measured, received);
    reveal_with_fuel(Transmission::requests, 10);
}

/// A port error ends the test with that error at whichever step it comes: at
/// any of the four lines, at the settle poll, at the write, at the arrival
/// poll, at the measurement and at the read. In particular a measurement that
/// fails after the pattern has arrived is no mismatch and no pass.
pub proof fn lemma_port_error_ends_the_test<E>(test: Transmission, error: E)
    ensures
        test.stage != Stage::Settling && test.stage != Stage::Arriving && test.stage
            != Stage::Measuring && !(test.stage is Reading) ==> test.next(
            TransmitEvent::Done(Err(error)),
        ) == TransmitStep::Finished(Err(Fault::Port(error))),
        test.stage == Stage::Settling || test.stage == Stage::Arriving ==> test.next(
            TransmitEvent::Waited(Err(error)),
        ) == TransmitStep::Finished(Err(Fault::Port(error))),
        test.stage == Stage::Measuring ==> test.next(TransmitEvent::Measured(Err(error)))
            == TransmitStep::Finished(Err(Fault::Port(error))),
        test.stage is Reading ==> test.next(TransmitEvent::<E>::Received(Err(error)))
            == TransmitStep::Finished(Err(Fault::Port(error))),
{
}

/// The pattern of a full test holds each byte value once: the value at each
/// place is the number of that place.
pub proof fn lemma_full_pattern_is_distinct()
    ensures
        spec_full_pattern().len() == 256,
        forall|i: int| 0 <= i < 256 ==> spec_full_pattern()[i] == i,
        spec_full_pattern().no_duplicates(),
{
}

/// A link that delivers what it is given passes the test under every handshake
/// setting: if the whole pattern arrives within the budget and is read back
/// byte for byte, the verdict is a pass, whatever the setting is and whether
/// or not the lines had settled.
pub proof fn lemma_faithful_link_passes<E>(
    test: Transmission,
    settled: bool,
    measured: u32,
    received: Vec<u8>,
)
    requires
        test.stage == Stage::DrivingSenderDtr,
        received@ == test.pattern@,
    ensures
        test.run(clean_events::<E>(settled, true, measured, received)) == TransmitStep::<
            E,
        >::Finished(Ok(())),
{
    lemma_transmit_verdict::<E>(test, settled, true, measured, received);
}

} // verus!

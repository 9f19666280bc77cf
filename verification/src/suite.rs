//! The suite: the checks of a run, in order, and what each is called.
//!
//! A run opens the two ports, tests the four handshake-line pairings, and
//! then, at each baud rate and under each of the sixteen handshake settings,
//! sends the pattern from the first port to the second and back.

use vstd::prelude::*;
use crate::fault::Fault;
use crate::lines::{Input, Output, Pins, Side};
use crate::tap::{not_ok_lines_of, ok_line_of, skip_description_of, Diagnostic, Line, Tap};
use crate::text::{decimal, decimal_of, Style, Text};

verus! {

/// The checks of a run.
pub const PLAN: usize = 134;

/// Time that the ports are left alone after a change of baud rate: 10 ms, in
/// nanoseconds.
pub const SETTLE_TIME: u64 = 10_000_000;

/// The baud rates of a run.
pub const BAUD_RATES: [u32; 4] = [9_600, 19_200, 38_400, 115_200];

/// One of the two ports of a run.
#[derive(Clone, Copy, Debug, PartialEq, Eq, Structural)]
pub enum Port {
    First,
    Second,
}

/// A handshake line and the status line at the far end that follows it.
#[derive(Clone, Copy, Debug, PartialEq, Eq, Structural)]
pub enum Pairing {
    /// The first port's Request-To-Send, seen as the second port's
    /// Clear-To-Send.
    RtsToCts,
    /// The second port's Request-To-Send, seen as the first port's
    /// Clear-To-Send.
    CtsFromRts,
    /// The first port's Data-Terminal-Ready, seen as the second port's
    /// Data-Set-Ready.
    DtrToDsr,
    /// The second port's Data-Terminal-Ready, seen as the first port's
    /// Data-Set-Ready.
    DsrFromDtr,
}

/// The way of a transfer.
#[derive(Clone, Copy, Debug, PartialEq, Eq, Structural)]
pub enum Direction {
    /// From the first port to the second.
    Send,
    /// From the second port to the first.
    Receive,
}

/// One check of a run.
#[derive(Clone, Copy, Debug, PartialEq, Eq, Structural)]
pub enum Check {
    Open(Port),
    Pin(Pairing),
    Transmit { baud_rate: u32, pins: Pins, direction: Direction },
}

impl Port {
    pub open spec fn spec_other(self) -> Port {
        match self {
            Port::First => Port::Second,
            Port::Second => Port::First,
        }
    }

    /// The port at the far end of the cable.
    #[verifier::when_used_as_spec(spec_other)]
    pub fn other(self) -> (port: Port)
        ensures
            port == self.spec_other(),
    {
        match self {
            Port::First => Port::Second,
            Port::Second => Port::First,
        }
    }
}

impl Pairing {
    /// The port whose output is driven.
    pub open spec fn spec_driver(self) -> Port {
        match self {
            Pairing::RtsToCts | Pairing::DtrToDsr => Port::First,
            Pairing::CtsFromRts | Pairing::DsrFromDtr => Port::Second,
        }
    }

    /// The output that is driven.
    pub open spec fn spec_driven(self) -> Output {
        match self {
            Pairing::RtsToCts | Pairing::CtsFromRts => Output::RequestToSend,
            Pairing::DtrToDsr | Pairing::DsrFromDtr => Output::DataTerminalReady,
        }
    }

    /// The port whose status line is observed.
    pub open spec fn spec_observer(self) -> Port {
        match self {
            Pairing::RtsToCts | Pairing::DtrToDsr => Port::Second,
            Pairing::CtsFromRts | Pairing::DsrFromDtr => Port::First,
        }
    }

    /// The status line that is observed.
    pub open spec fn spec_observed(self) -> Input {
        match self {
            Pairing::RtsToCts | Pairing::CtsFromRts => Input::ClearToSend,
            Pairing::DtrToDsr | Pairing::DsrFromDtr => Input::DataSetReady,
        }
    }

    /// The port whose output is driven.
    #[verifier::when_used_as_spec(spec_driver)]
    pub fn driver(self) -> (port: Port)
        ensures
            port == self.spec_driver(),
    {
        match self {
            Pairing::RtsToCts | Pairing::DtrToDsr => Port::First,
            Pairing::CtsFromRts | Pairing::DsrFromDtr => Port::Second,
        }
    }

    /// The output that is driven.
    #[verifier::when_used_as_spec(spec_driven)]
    pub fn driven(self) -> (line: Output)
        ensures
            line == self.spec_driven(),
    {
        match self {
            Pairing::RtsToCts | Pairing::CtsFromRts => Output::RequestToSend,
            Pairing::DtrToDsr | Pairing::DsrFromDtr => Output::DataTerminalReady,
        }
    }

    /// The port whose status line is observed.
    #[verifier::when_used_as_spec(spec_observer)]
    pub fn observer(self) -> (port: Port)
        ensures
            port == self.spec_observer(),
    {
        match self {
            Pairing::RtsToCts | Pairing::DtrToDsr => Port::Second,
            Pairing::CtsFromRts | Pairing::DsrFromDtr => Port::First,
        }
    }

    /// The status line that is observed.
    #[verifier::when_used_as_spec(spec_observed)]
    pub fn observed(self) -> (line: Input)
        ensures
            line == self.spec_observed(),
    {
        match self {
            Pairing::RtsToCts | Pairing::CtsFromRts => Input::ClearToSend,
            Pairing::DtrToDsr | Pairing::DsrFromDtr => Input::DataSetReady,
        }
    }
}

impl Direction {
    /// The port at one end of a transfer this way.
    pub open spec fn spec_port(self, side: Side) -> Port {
        match (self, side) {
            (Direction::Send, Side::Sender) => Port::First,
            (Direction::Send, Side::Receiver) => Port::Second,
            (Direction::Receive, Side::Sender) => Port::Second,
            (Direction::Receive, Side::Receiver) => Port::First,
        }
    }

    /// The port at one end of a transfer this way.
    #[verifier::when_used_as_spec(spec_port)]
    pub fn port(self, side: Side) -> (port: Port)
        ensures
            port == self.spec_port(side),
    {
        match self {
            Direction::Send => match side {
                Side::Sender => Port::First,
                Side::Receiver => Port::Second,
            },
            Direction::Receive => match side {
                Side::Sender => Port::Second,
                Side::Receiver => Port::First,
            },
        }
    }
}

/// The pairing that is tested as the `place`th of the four.
pub open spec fn spec_pairing_at(place: int) -> Pairing {
    if place == 0 {
        Pairing::RtsToCts
    } else if place == 1 {
        Pairing::CtsFromRts
    } else if place == 2 {
        Pairing::DtrToDsr
    } else {
        Pairing::DsrFromDtr
    }
}

/// The check at a place of the plan, counted from zero: the two ports are
/// opened, the four pairings are tested, and then each baud rate has a block
/// of thirty-two transfers, two for each handshake setting in the order of
/// its counter, first to send and then to receive.
pub open spec fn spec_check_at(index: int) -> Check {
    if index == 0 {
        Check::Open(Port::First)
    } else if index == 1 {
        Check::Open(Port::Second)
    } else if index < 6 {
        Check::Pin(spec_pairing_at(index - 2))
    } else {
        Check::Transmit {
            baud_rate: BAUD_RATES[(index - 6) / 32],
            pins: Pins::spec_from_counter((((index - 6) % 32) / 2) as u8),
            direction: if (index - 6) % 2 == 0 {
                Direction::Send
            } else {
                Direction::Receive
            },
        }
    }
}

/// The check at a place of the plan, counted from zero. `None` from the end
/// of the plan on.
pub fn check_at(index: usize) -> (check: Option<Check>)
    ensures
        check == if index < PLAN {
            Some(spec_check_at(index as int))
        } else {
            None
        },
{
    if index >= PLAN {
        None
    } else if index == 0 {
        Some(Check::Open(Port::First))
    } else if index == 1 {
        Some(Check::Open(Port::Second))
    } else if index == 2 {
        Some(Check::Pin(Pairing::RtsToCts))
    } else if index == 3 {
        Some(Check::Pin(Pairing::CtsFromRts))
    } else if index == 4 {
        Some(Check::Pin(Pairing::DtrToDsr))
    } else if index == 5 {
        Some(Check::Pin(Pairing::DsrFromDtr))
    } else {
        let place = index - 6;
        let counter = ((place % 32) / 2) as u8;
        Some(
            Check::Transmit {
                baud_rate: BAUD_RATES[place / 32],
                pins: Pins::from_counter(counter),
                direction: if place % 2 == 0 {
                    Direction::Send
                } else {
                    Direction::Receive
                },
            },
        )
    }
}

/// What formatting a path for the eyes of a programmer gives: the path
/// between double quotes, with what cannot be shown as it is escaped.
pub uninterp spec fn quoted(path: Seq<char>) -> Seq<char>;

/// Formats `path` with `{:?}`, that is with `<str as core::fmt::Debug>::fmt`.
/// The contract gives the result its name and says nothing of what it holds.
#[verifier::external_body]
fn quote(path: &str) -> (text: String)
    ensures
        text@ == quoted(path@),
{
    format!("{:?}", path)
}

/// What opening a port is called: `open` and the path of the port as
/// `quoted` gives it.
pub open spec fn open_description_of(quoted_path: Seq<char>) -> Line {
    seq![(Style::Plain, "open "@ + quoted_path)]
}

/// What testing a pairing is called: the driven line and the observed line,
/// the first port's on the left, with an arrow from the one to the other.
pub open spec fn pin_description_of(pairing: Pairing) -> Line {
    seq![
        (
            Style::Plain,
            match pairing {
                Pairing::RtsToCts => "test RTS → CTS"@,
                Pairing::CtsFromRts => "test CTS ← RTS"@,
                Pairing::DtrToDsr => "test DTR → DSR"@,
                Pairing::DsrFromDtr => "test DSR ← DTR"@,
            },
        ),
    ]
}

/// The first words of what a transfer is called.
pub open spec fn verb_of(direction: Direction) -> Seq<char> {
    match direction {
        Direction::Send => "send data at "@,
        Direction::Receive => "receive data at "@,
    }
}

/// What a transfer is called: its way, its baud rate, and the handshake
/// setting in words, between brackets.
pub open spec fn transmit_description_of(baud_rate: u32, pins: Pins, direction: Direction) -> Line {
    seq![(Style::Plain, verb_of(direction) + decimal_of(baud_rate as nat) + " bps ("@)]
        + pins.spec_describe() + seq![(Style::Plain, ")"@)]
}

/// What a check is called in the report of a run on the ports at the paths
/// `first` and `second`.
pub open spec fn description_of(check: Check, first: Seq<char>, second: Seq<char>) -> Line {
    match check {
        Check::Open(Port::First) => open_description_of(quoted(first)),
        Check::Open(Port::Second) => open_description_of(quoted(second)),
        Check::Pin(pairing) => pin_description_of(pairing),
        Check::Transmit { baud_rate, pins, direction } => transmit_description_of(
            baud_rate,
            pins,
            direction,
        ),
    }
}

/// Writes what opening a port is called, from the formatted path.
pub fn open_description(quoted_path: &str) -> (words: Text)
    ensures
        words@ == open_description_of(quoted_path@),
{
    let mut words = String::from_str("open ");
    words.append(quoted_path);
    let line = Text::of(words.as_str());
    line
}

/// Writes what testing a pairing is called.
pub fn pin_description(pairing: Pairing) -> (words: Text)
    ensures
        words@ == pin_description_of(pairing),
{
    match pairing {
        Pairing::RtsToCts => Text::of("test RTS → CTS"),
        Pairing::CtsFromRts => Text::of("test CTS ← RTS"),
        Pairing::DtrToDsr => Text::of("test DTR → DSR"),
        Pairing::DsrFromDtr => Text::of("test DSR ← DTR"),
    }
}

/// Writes what a transfer is called.
pub fn transmit_description(baud_rate: u32, pins: Pins, direction: Direction) -> (words: Text)
    ensures
        words@ == transmit_description_of(baud_rate, pins, direction),
{
    let mut head = match direction {
        Direction::Send => String::from_str("send data at "),
        Direction::Receive => String::from_str("receive data at "),
    };
    head.append(decimal(baud_rate as u64).as_str());
    head.append(" bps (");
    let mut words = Text::of(head.as_str());
    words.append(pins.describe());
    words.push(Style::Plain, ")");
    assert(words@ =~= transmit_description_of(baud_rate, pins, direction));
    words
}

/// Writes what a check is called in the report of a run on the ports at the
/// paths `first` and `second`.
pub fn describe(check: Check, first: &str, second: &str) -> (words: Text)
    ensures
        words@ == description_of(check, first@, second@),
{
    match check {
        Check::Open(Port::First) => open_description(quote(first).as_str()),
        Check::Open(Port::Second) => open_description(quote(second).as_str()),
        Check::Pin(pairing) => pin_description(pairing),
        Check::Transmit { baud_rate, pins, direction } => transmit_description(
            baud_rate,
            pins,
            direction,
        ),
    }
}

/// What the caller of a run does next.
#[derive(Clone, Copy, Debug, PartialEq, Eq, Structural)]
pub enum Job {
    /// Open a port and report `Opened`.
    Open(Port),
    /// Run the handshake-line test on a pairing and report `Tested`.
    TestPin(Pairing),
    /// Set both ports to a baud rate, clear their buffers, leave them alone
    /// for `settle` nanoseconds and report `Configured`. A port that cannot be
    /// set or cleared ends the run: there is nothing to report then.
    Configure { baud_rate: u32, settle: u64 },
    /// Run the full transmission test under a handshake setting, one way, and
    /// report `Tested`.
    Transmit { pins: Pins, direction: Direction },
}

/// What the caller of a run reports back.
#[derive(Debug, PartialEq, Eq)]
pub enum SuiteEvent<E> {
    /// A port was opened, or could not be.
    Opened(Result<(), E>),
    /// A test has ended.
    Tested(Result<(), Fault<E>>),
    /// Both ports are set to the baud rate.
    Configured,
}

/// What an event means for the course of a run: which job it answers, and
/// whether that went well.
#[derive(Clone, Copy, Debug, PartialEq, Eq, Structural)]
pub enum Signal {
    Opened(bool),
    Tested(bool),
    Configured,
}

/// How a check is reported.
#[derive(Clone, Copy, Debug, PartialEq, Eq, Structural)]
pub enum Mark {
    Passed,
    Failed,
    Skipped,
}

/// How far a run has come.
#[derive(Clone, Copy, Debug, PartialEq, Eq, Structural)]
pub struct Progress {
    /// The checks reported so far: the place of the next check in the plan.
    pub index: usize,
    /// Whether the first port could be opened.
    pub first_open: bool,
    /// The baud rates that the ports were set to so far.
    pub configured: usize,
}

impl<E> SuiteEvent<E> {
    pub open spec fn spec_signal(&self) -> Signal {
        match self {
            SuiteEvent::Opened(result) => Signal::Opened(result is Ok),
            SuiteEvent::Tested(result) => Signal::Tested(result is Ok),
            SuiteEvent::Configured => Signal::Configured,
        }
    }

    /// What the event means for the course of the run.
    #[verifier::when_used_as_spec(spec_signal)]
    pub fn signal(&self) -> (signal: Signal)
        ensures
            signal == self.spec_signal(),
    {
        match self {
            SuiteEvent::Opened(result) => Signal::Opened(result.is_ok()),
            SuiteEvent::Tested(result) => Signal::Tested(result.is_ok()),
            SuiteEvent::Configured => Signal::Configured,
        }
    }
}

/// The mark of a check that was made.
pub open spec fn mark_of(passed: bool) -> Mark {
    if passed {
        Mark::Passed
    } else {
        Mark::Failed
    }
}

impl Progress {
    /// A run of which nothing has been done.
    pub open spec fn start() -> Progress {
        Progress { index: 0, first_open: false, configured: 0 }
    }

    /// The job that is pending. `None`: the run is over.
    ///
    /// The job of a check is to make it, but for a transfer at a baud rate
    /// that the ports were not set to yet: there the job is to set them.
    pub open spec fn spec_job(self) -> Option<Job> {
        if self.index >= PLAN {
            None
        } else {
            match spec_check_at(self.index as int) {
                Check::Open(port) => Some(Job::Open(port)),
                Check::Pin(pairing) => Some(Job::TestPin(pairing)),
                Check::Transmit { baud_rate, pins, direction } => if self.configured <= (self.index
                    - 6) / 32 {
                    Some(Job::Configure { baud_rate, settle: SETTLE_TIME })
                } else {
                    Some(Job::Transmit { pins, direction })
                },
            }
        }
    }

    /// How far the run has come after an event.
    ///
    /// Each check that is made, passed or failed, leads to the next one, with
    /// one exception: once both ports were tried and not both are open, no
    /// check is left to make. An event that does not answer the pending job
    /// changes nothing.
    pub open spec fn after(self, signal: Signal) -> Progress {
        match (self.spec_job(), signal) {
            (Some(Job::Open(Port::First)), Signal::Opened(opened)) => Progress {
                index: 1,
                first_open: opened,
                configured: self.configured,
            },
            (Some(Job::Open(Port::Second)), Signal::Opened(opened)) => Progress {
                index: if self.first_open && opened {
                    2
                } else {
                    PLAN
                },
                first_open: self.first_open,
                configured: self.configured,
            },
            (Some(Job::TestPin(_)), Signal::Tested(_))
            | (Some(Job::Transmit { .. }), Signal::Tested(_)) => Progress {
                index: (self.index + 1) as usize,
                first_open: self.first_open,
                configured: self.configured,
            },
            (Some(Job::Configure { .. }), Signal::Configured) => Progress {
                index: self.index,
                first_open: self.first_open,
                configured: (self.configured + 1) as usize,
            },
            _ => self,
        }
    }

    /// The marks of the checks that an event gets reported, in the order of
    /// the plan.
    ///
    /// A check that was made is reported as passed or failed. Once both ports
    /// were tried and not both are open, every check that is left is reported
    /// as skipped.
    pub open spec fn marks(self, signal: Signal) -> Seq<Mark> {
        match (self.spec_job(), signal) {
            (Some(Job::Open(Port::First)), Signal::Opened(opened)) => seq![mark_of(opened)],
            (Some(Job::Open(Port::Second)), Signal::Opened(opened)) => if self.first_open
                && opened {
                seq![mark_of(opened)]
            } else {
                seq![mark_of(opened)] + Seq::new((PLAN - 2) as nat, |i: int| Mark::Skipped)
            },
            (Some(Job::TestPin(_)), Signal::Tested(passed))
            | (Some(Job::Transmit { .. }), Signal::Tested(passed)) => seq![mark_of(passed)],
            _ => Seq::empty(),
        }
    }

    /// Whether an event gets a check reported as failed: it answers the job of
    /// a check, and that did not go well.
    pub open spec fn fails(self, signal: Signal) -> bool {
        match (self.spec_job(), signal) {
            (Some(Job::Open(_)), Signal::Opened(opened)) => !opened,
            (Some(Job::TestPin(_)), Signal::Tested(passed))
            | (Some(Job::Transmit { .. }), Signal::Tested(passed)) => !passed,
            _ => false,
        }
    }

    /// The marks of the checks that a run gets reported while its caller
    /// reports `signals`, in order.
    pub open spec fn pattern(self, signals: Seq<Signal>) -> Seq<Mark>
        decreases signals.len(),
    {
        if signals.len() == 0 {
            Seq::empty()
        } else {
            self.marks(signals[0]) + self.after(signals[0]).pattern(signals.skip(1))
        }
    }

    /// The job that is pending. `None`: the run is over.
    #[verifier::when_used_as_spec(spec_job)]
    pub fn job(self) -> (job: Option<Job>)
        ensures
            job == self.spec_job(),
    {
        match check_at(self.index) {
            None => None,
            Some(Check::Open(port)) => Some(Job::Open(port)),
            Some(Check::Pin(pairing)) => Some(Job::TestPin(pairing)),
            Some(Check::Transmit { baud_rate, pins, direction }) => if self.configured <= (
            self.index - 6) / 32 {
                Some(Job::Configure { baud_rate, settle: SETTLE_TIME })
            } else {
                Some(Job::Transmit { pins, direction })
            },
        }
    }
}

/// The lines of a check that was made, at a place of the plan: its line, and
/// under a failed one the diagnostic block of its error.
pub open spec fn report_of<T, E: Diagnostic>(
    index: int,
    first: Seq<char>,
    second: Seq<char>,
    result: Result<T, E>,
) -> Seq<Line> {
    let description = description_of(spec_check_at(index), first, second);
    match result {
        Ok(_) => seq![ok_line_of((index + 1) as nat, description)],
        Err(error) => not_ok_lines_of((index + 1) as nat, description, error.block()),
    }
}

/// The line of a check that was skipped, at a place of the plan.
pub open spec fn skipped_of(index: int, first: Seq<char>, second: Seq<char>) -> Line {
    ok_line_of(
        (index + 1) as nat,
        skip_description_of(description_of(spec_check_at(index), first, second)),
    )
}

/// The lines of the checks from a place of the plan to its end, all skipped.
pub open spec fn skips_from(from: int, first: Seq<char>, second: Seq<char>) -> Seq<Line> {
    Seq::new((PLAN - from) as nat, |i: int| skipped_of(from + i, first, second))
}

/// The lines that an event gets reported.
pub open spec fn lines_of<E: Diagnostic>(
    progress: Progress,
    first: Seq<char>,
    second: Seq<char>,
    event: SuiteEvent<E>,
) -> Seq<Line> {
    match (progress.spec_job(), event) {
        (Some(Job::Open(Port::First)), SuiteEvent::Opened(result)) => report_of(
            0,
            first,
            second,
            result,
        ),
        (Some(Job::Open(Port::Second)), SuiteEvent::Opened(result)) => report_of(
            1,
            first,
            second,
            result,
        ) + if progress.first_open && result is Ok {
            Seq::empty()
        } else {
            skips_from(2, first, second)
        },
        (Some(Job::TestPin(_)), SuiteEvent::Tested(result))
        | (Some(Job::Transmit { .. }), SuiteEvent::Tested(result)) => report_of(
            progress.index as int,
            first,
            second,
            result,
        ),
        _ => Seq::empty(),
    }
}

/// A run in progress: its reporter, the paths of its two ports, and how far
/// it has come.
pub struct Suite {
    tap: Tap,
    first: String,
    second: String,
    first_open: bool,
    configured: usize,
}

/// Reports every check that is left as skipped.
fn skip_rest(tap: &mut Tap, first: &str, second: &str) -> (lines: Vec<Text>)
    requires
        old(tap).spec_plan() == PLAN,
        old(tap).spec_counter() <= PLAN,
    ensures
        final(tap).spec_plan() == PLAN,
        final(tap).spec_counter() == PLAN,
        final(tap).spec_failed() == old(tap).spec_failed(),
        lines.deep_view() == skips_from(old(tap).spec_counter() as int, first@, second@),
{
    let mut lines: Vec<Text> = Vec::new();
    let ghost from = tap.spec_counter() as int;
    assert(lines.deep_view() =~= Seq::<Line>::empty());
    while tap.counter() < PLAN
        invariant
            tap.spec_plan() == PLAN,
            tap.spec_failed() == old(tap).spec_failed(),
            from <= tap.spec_counter() <= PLAN,
            lines.deep_view() == Seq::new(
                (tap.spec_counter() - from) as nat,
                |i: int| skipped_of(from + i, first@, second@),
            ),
        decreases PLAN - tap.spec_counter(),
    {
        let index = tap.counter();
        let ghost before = lines.deep_view();
        match check_at(index) {
            None => {},
            Some(check) => {
                let mut more = tap.skip(describe(check, first, second));
                let ghost added = more.deep_view();
                assert(added == seq![skipped_of(index as int, first@, second@)]);
                lines.append(&mut more);
                assert(lines.deep_view() =~= before + added);
            },
        }
        assert(lines.deep_view() =~= Seq::new(
            (tap.spec_counter() - from) as nat,
            |i: int| skipped_of(from + i, first@, second@),
        ));
    }
    assert(lines.deep_view() =~= skips_from(from, first@, second@));
    lines
}

impl Suite {
    /// Whether the run is one that [`Suite::new`] began: its reporter plans
    /// the checks of the plan.
    pub closed spec fn wf(&self) -> bool {
        self.tap.spec_plan() == PLAN
    }

    /// The path of the first port.
    pub closed spec fn first(&self) -> Seq<char> {
        self.first@
    }

    /// The path of the second port.
    pub closed spec fn second(&self) -> Seq<char> {
        self.second@
    }

    /// How far the run has come.
    pub closed spec fn spec_progress(&self) -> Progress {
        Progress {
            index: self.tap.spec_counter(),
            first_open: self.first_open,
            configured: self.configured,
        }
    }

    /// Whether a check of the run has failed.
    pub closed spec fn spec_failed(&self) -> bool {
        self.tap.spec_failed()
    }

    /// Whether the run is over and went well: every check of the plan was
    /// reported, and none as failed.
    pub open spec fn spec_passed(&self) -> bool {
        self.spec_progress().index == PLAN && !self.spec_failed()
    }

    /// Whether the run is over and went well.
    #[verifier::when_used_as_spec(spec_passed)]
    pub fn passed(&self) -> (passed: bool)
        requires
            self.wf(),
        ensures
            passed == self.spec_passed(),
    {
        self.tap.passed()
    }

    /// How far the run has come.
    #[verifier::when_used_as_spec(spec_progress)]
    pub fn progress(&self) -> (progress: Progress)
        ensures
            progress == self.spec_progress(),
    {
        Progress {
            index: self.tap.counter(),
            first_open: self.first_open,
            configured: self.configured,
        }
    }

    /// The job that is pending. `None`: the run is over.
    pub open spec fn spec_job(&self) -> Option<Job> {
        self.spec_progress().spec_job()
    }

    /// The job that is pending. `None`: the run is over.
    #[verifier::when_used_as_spec(spec_job)]
    pub fn job(&self) -> (job: Option<Job>)
        ensures
            job == self.spec_job(),
    {
        self.progress().job()
    }

    /// A run on the ports at the paths `first` and `second` of which nothing
    /// has been done, and the plan line of its report.
    pub fn new(first: &str, second: &str) -> (start: (Suite, Text))
        ensures
            start.0.wf(),
            !start.0.spec_failed(),
            start.0.spec_progress() == Progress::start(),
            start.0.first() == first@,
            start.0.second() == second@,
            start.1@ == crate::tap::plan_line_of(PLAN as nat),
    {
        let (tap, line) = Tap::new(PLAN);
        let suite = Suite {
            tap,
            first: String::from_str(first),
            second: String::from_str(second),
            first_open: false,
            configured: 0,
        };
        (suite, line)
    }

    /// Takes an event and returns the lines to print.
    ///
    /// The result of a check that was made is reported under the name of the
    /// check, and the run moves on as [`Progress::after`] says. Once both
    /// ports were tried and not both are open, every check that is left is
    /// reported as skipped, in the order of the plan.
    pub fn advance<E: Diagnostic>(&mut self, event: SuiteEvent<E>) -> (lines: Vec<Text>)
        requires
            old(self).wf(),
        ensures
            final(self).wf(),
            final(self).first() == old(self).first(),
            final(self).second() == old(self).second(),
            final(self).spec_progress() == old(self).spec_progress().after(event.spec_signal()),
            final(self).spec_failed() == (old(self).spec_failed() || old(
                self,
            ).spec_progress().fails(event.spec_signal())),
            lines.deep_view() == lines_of(
                old(self).spec_progress(),
                old(self).first(),
                old(self).second(),
                event,
            ),
    {
        let progress = self.progress();
        let mut lines: Vec<Text> = Vec::new();
        assert(lines.deep_view() =~= Seq::<Line>::empty());
        match progress.job() {
            None => {},
            Some(Job::Open(port)) => match event {
                SuiteEvent::Opened(result) => {
                    let opened = result.is_ok();
                    let words = describe(
                        Check::Open(port),
                        self.first.as_str(),
                        self.second.as_str(),
                    );
                    lines = self.tap.result(words, result);
                    match port {
                        Port::First => {
                            self.first_open = opened;
                        },
                        Port::Second => {
                            if !(self.first_open && opened) {
                                let mut rest = skip_rest(
                                    &mut self.tap,
                                    self.first.as_str(),
                                    self.second.as_str(),
                                );
                                lines.append(&mut rest);
                            }
                        },
                    }
                },
                _ => {},
            },
            Some(Job::Configure { .. }) => match event {
                SuiteEvent::Configured => {
                    self.configured = self.configured + 1;
                },
                _ => {},
            },
            Some(Job::TestPin(pairing)) => match event {
                SuiteEvent::Tested(result) => {
                    let words = pin_description(pairing);
                    lines = self.tap.result(words, result);
                },
                _ => {},
            },
            Some(Job::Transmit { pins, direction }) => match event {
                SuiteEvent::Tested(result) => {
                    let words = transmit_description(
                        BAUD_RATES[(progress.index - 6) / 32],
                        pins,
                        direction,
                    );
                    lines = self.tap.result(words, result);
                },
                _ => {},
            },
        }
        lines
    }
}

/// The place in the plan of the transfer at the `block`th baud rate, under
/// the handshake setting of `counter`, in a direction.
pub open spec fn transfer_index(block: int, counter: u8, direction: Direction) -> int {
    6 + 32 * block + 2 * counter + if direction == Direction::Send {
        0int
    } else {
        1int
    }
}

/// The pairing that tests an output of a port.
pub open spec fn pairing_of(port: Port, line: Output) -> Pairing {
    match (port, line) {
        (Port::First, Output::RequestToSend) => Pairing::RtsToCts,
        (Port::Second, Output::RequestToSend) => Pairing::CtsFromRts,
        (Port::First, Output::DataTerminalReady) => Pairing::DtrToDsr,
        (Port::Second, Output::DataTerminalReady) => Pairing::DsrFromDtr,
    }
}

/// Each pairing is tested across the cable: the status line is observed at the
/// port that does not drive, and it is the partner of the driven output. The
/// four pairings are the two outputs of each of the two ports, each tested
/// once.
pub proof fn lemma_pairings_cross_the_cable(pairing: Pairing, port: Port, line: Output)
    ensures
        pairing.spec_observer() == pairing.spec_driver().spec_other(),
        pairing.spec_observed() == pairing.spec_driven().spec_partner(),
        pairing_of(pairing.spec_driver(), pairing.spec_driven()) == pairing,
        pairing_of(port, line).spec_driver() == port,
        pairing_of(port, line).spec_driven() == line,
        exists|place: int| 0 <= place < 4 && spec_pairing_at(place) == pairing,
{
    let place: int = match pairing {
        Pairing::RtsToCts => 0,
        Pairing::CtsFromRts => 1,
        Pairing::DtrToDsr => 2,
        Pairing::DsrFromDtr => 3,
    };
    assert(spec_pairing_at(place) == pairing);
}

/// The plan holds the two ports, then the four pairings, then the transfers,
/// and nothing else.
pub proof fn lemma_plan_layout()
    ensures
        spec_check_at(0) == Check::Open(Port::First),
        spec_check_at(1) == Check::Open(Port::Second),
        spec_check_at(2) == Check::Pin(Pairing::RtsToCts),
        spec_check_at(3) == Check::Pin(Pairing::CtsFromRts),
        spec_check_at(4) == Check::Pin(Pairing::DtrToDsr),
        spec_check_at(5) == Check::Pin(Pairing::DsrFromDtr),
        forall|index: int| 6 <= index < PLAN ==> #[trigger] spec_check_at(index) is Transmit,
        BAUD_RATES[0] == 9_600,
        BAUD_RATES[1] == 19_200,
        BAUD_RATES[2] == 38_400,
        BAUD_RATES[3] == 115_200,
        PLAN == 2 + 4 + 4 * 16 * 2,
{
}

/// The plan holds a transfer at each of the four baud rates, under each of
/// the sixteen handshake settings, in each direction, at a place of its own.
pub proof fn lemma_plan_holds_every_transfer(block: int, counter: u8, direction: Direction)
    requires
        0 <= block < 4,
        counter < 16,
    ensures
        6 <= transfer_index(block, counter, direction) < PLAN,
        spec_check_at(transfer_index(block, counter, direction)) == (Check::Transmit {
            baud_rate: BAUD_RATES[block],
            pins: Pins::spec_from_counter(counter),
            direction,
        }),
        forall|other_block: int, other_counter: u8, other_direction: Direction|
            0 <= other_block < 4 && other_counter < 16 && #[trigger] transfer_index(
                other_block,
                other_counter,
                other_direction,
            ) == transfer_index(block, counter, direction) ==> other_block == block
                && other_counter == counter && other_direction == direction,
{
}

/// An event gets a check reported as failed exactly if one of its marks says
/// so.
pub proof fn lemma_fails_is_a_failed_mark(progress: Progress, signal: Signal)
    ensures
        progress.fails(signal) == progress.marks(signal).contains(Mark::Failed),
{
    let marks = progress.marks(signal);
    if progress.fails(signal) {
        assert(marks[0] == Mark::Failed);
    }
}

/// A run that is over reports nothing more, whatever its caller reports.
pub proof fn lemma_finished_run_is_silent(progress: Progress, signals: Seq<Signal>)
    requires
        progress.index >= PLAN,
    ensures
        progress.pattern(signals) == Seq::<Mark>::empty(),
    decreases signals.len(),
{
    if signals.len() > 0 {
        lemma_finished_run_is_silent(progress, signals.skip(1));
    }
}

/// If either port cannot be opened, every handshake-line test and every
/// transfer of the run is reported as skipped, none as passed or failed, and
/// no job is left: whatever the caller reports after the two ports, the
/// pattern of the run is the marks of the two ports and 132 skips.
pub proof fn lemma_closed_port_skips_all(
    first_opened: bool,
    second_opened: bool,
    later: Seq<Signal>,
)
    requires
        !(first_opened && second_opened),
    ensures
        Progress::start().after(Signal::Opened(first_opened)).after(
            Signal::Opened(second_opened),
        ).spec_job() is None,
        Progress::start().pattern(
            seq![Signal::Opened(first_opened), Signal::Opened(second_opened)] + later,
        ) == seq![mark_of(first_opened), mark_of(second_opened)] + Seq::new(
            (PLAN - 2) as nat,
            |i: int| Mark::Skipped,
        ),
{
    let signals = seq![Signal::Opened(first_opened), Signal::Opened(second_opened)] + later;
    let one = Progress::start().after(signals[0]);
    let two = one.after(signals[1]);
    assert(signals.skip(1)[0] == signals[1]);
    assert(signals.skip(1).skip(1) =~= later);
    lemma_finished_run_is_silent(two, later);
    assert(one.pattern(signals.skip(1)) == one.marks(signals[1]) + two.pattern(later));
    assert(Progress::start().pattern(signals) == Progress::start().marks(signals[0])
        + one.pattern(signals.skip(1)));
}

/// What a run reports is decided by which jobs went well and which did not,
/// and by nothing else: two runs whose events carry the same signals, in the
/// same order, have the same pattern of passed, failed and skipped checks,
/// whatever the errors say and whenever the runs are made.
pub proof fn lemma_same_signals_same_pattern<E>(
    once: Seq<SuiteEvent<E>>,
    again: Seq<SuiteEvent<E>>,
)
    requires
        once.len() == again.len(),
        forall|i: int| 0 <= i < once.len() ==> once[i].spec_signal() == again[i].spec_signal(),
    ensures
        Progress::start().pattern(once.map_values(|event: SuiteEvent<E>| event.spec_signal()))
            == Progress::start().pattern(
            again.map_values(|event: SuiteEvent<E>| event.spec_signal()),
        ),
{
    assert(once.map_values(|event: SuiteEvent<E>| event.spec_signal()) =~= again.map_values(
        |event: SuiteEvent<E>| event.spec_signal(),
    ));
}

/// The signal of a job that went well.
pub open spec fn went_well(job: Job) -> Signal {
    match job {
        Job::Open(_) => Signal::Opened(true),
        Job::TestPin(_) | Job::Transmit { .. } => Signal::Tested(true),
        Job::Configure { .. } => Signal::Configured,
    }
}

/// The signals of a run in which each pending job goes well, for so many
/// jobs or until the run is over.
pub open spec fn healthy_signals(progress: Progress, jobs: nat) -> Seq<Signal>
    decreases jobs,
{
    if jobs == 0 {
        Seq::empty()
    } else {
        match progress.spec_job() {
            None => Seq::empty(),
            Some(job) => seq![went_well(job)] + healthy_signals(
                progress.after(went_well(job)),
                (jobs - 1) as nat,
            ),
        }
    }
}

/// What holds of a run in which every job so far went well: once the first
/// port was tried it is open, and the ports were set to every baud rate
/// before the one in use and to no later one.
pub open spec fn on_track(progress: Progress) -> bool {
    &&& progress.index <= PLAN
    &&& progress.index >= 1 ==> progress.first_open
    &&& progress.index < 6 ==> progress.configured == 0
    &&& 6 <= progress.index < PLAN ==> progress.configured == (progress.index - 6) / 32 + 1 || (
    progress.configured == (progress.index - 6) / 32 && (progress.index - 6) % 32 == 0)
    &&& progress.index == PLAN ==> progress.configured == 4
}

/// The jobs that are left in a run in which every job goes well: the checks
/// that were not made, and the baud rates that the ports were not set to.
pub open spec fn jobs_left(progress: Progress) -> nat {
    ((PLAN - progress.index) + (4 - progress.configured)) as nat
}

/// From any point of a run in which every job went well, if every job that is
/// left goes well too, every check that is left is reported as passed.
pub proof fn lemma_healthy_rest_passes(progress: Progress)
    requires
        on_track(progress),
    ensures
        progress.pattern(healthy_signals(progress, jobs_left(progress))) == Seq::new(
            (PLAN - progress.index) as nat,
            |i: int| Mark::Passed,
        ),
    decreases jobs_left(progress),
{
    let passed = Seq::new((PLAN - progress.index) as nat, |i: int| Mark::Passed);
    if progress.index == PLAN {
        assert(progress.pattern(healthy_signals(progress, jobs_left(progress))) =~= passed);
    } else {
        let job = progress.spec_job()->0;
        let signal = went_well(job);
        let next = progress.after(signal);
        let rest = healthy_signals(next, (jobs_left(progress) - 1) as nat);
        let signals = healthy_signals(progress, jobs_left(progress));
        assert(jobs_left(next) == jobs_left(progress) - 1);
        assert(signals == seq![signal] + rest);
        assert(signals[0] == signal);
        assert(signals.skip(1) =~= rest);
        lemma_healthy_rest_passes(next);
        assert(progress.pattern(signals) == progress.marks(signal) + next.pattern(rest));
        assert(progress.marks(signal) + next.pattern(rest) =~= passed);
    }
}

/// A run in which every job goes well reports each of its 134 checks as
/// passed: on a cable that is wired as it should be, the report is the same
/// every time.
pub proof fn lemma_healthy_run_passes_all()
    ensures
        Progress::start().pattern(healthy_signals(Progress::start(), 138)) == Seq::new(
            PLAN as nat,
            |i: int| Mark::Passed,
        ),
{
    lemma_healthy_rest_passes(Progress::start());
}

} // verus!

//! The vocabulary of a two-port handshake test: the control lines of a port,
//! the two ends of a transfer, and a setting of the four handshake lines.

use vstd::prelude::*;
use crate::text::{Style, Text};

verus! {

/// Time that a control line is given to follow its partner: 100 ms, in
/// nanoseconds.
pub const LINE_BUDGET: u64 = 100_000_000;

/// A control line that a port drives.
#[derive(Clone, Copy, Debug, PartialEq, Eq, Structural)]
pub enum Output {
    DataTerminalReady,
    RequestToSend,
}

/// A modem-status line that a port observes.
#[derive(Clone, Copy, Debug, PartialEq, Eq, Structural)]
pub enum Input {
    ClearToSend,
    DataSetReady,
    RingIndicator,
    CarrierDetect,
}

/// The two ends of one transfer.
#[derive(Clone, Copy, Debug, PartialEq, Eq, Structural)]
pub enum Side {
    /// The port that writes the pattern.
    Sender,
    /// The port that reads it back.
    Receiver,
}

impl Output {
    /// The status line on which the far end sees this line: Data-Terminal-Ready
    /// arrives as Data-Set-Ready, Request-To-Send as Clear-To-Send.
    pub open spec fn spec_partner(self) -> Input {
        match self {
            Output::DataTerminalReady => Input::DataSetReady,
            Output::RequestToSend => Input::ClearToSend,
        }
    }

    #[verifier::when_used_as_spec(spec_partner)]
    pub fn partner(self) -> (input: Input)
        ensures
            input == self.spec_partner(),
    {
        match self {
            Output::DataTerminalReady => Input::DataSetReady,
            Output::RequestToSend => Input::ClearToSend,
        }
    }
}

impl Side {
    pub open spec fn spec_other(self) -> Side {
        match self {
            Side::Sender => Side::Receiver,
            Side::Receiver => Side::Sender,
        }
    }

    /// The far end.
    #[verifier::when_used_as_spec(spec_other)]
    pub fn other(self) -> (side: Side)
        ensures
            side == self.spec_other(),
    {
        match self {
            Side::Sender => Side::Receiver,
            Side::Receiver => Side::Sender,
        }
    }
}

/// The word for the level of a line, in its colour.
pub open spec fn level_of(level: bool) -> (Style, Seq<char>) {
    if level {
        (Style::Green, "up"@)
    } else {
        (Style::Red, "down"@)
    }
}

fn push_level(words: &mut Text, level: bool)
    ensures
        final(words)@ == old(words)@.push(level_of(level)),
{
    if level {
        words.push(Style::Green, "up");
    } else {
        words.push(Style::Red, "down");
    }
}

/// A setting of the four handshake lines of a link, seen from the sender:
/// its own two outputs, and the two status lines on which it sees the
/// receiver's outputs.
#[derive(Clone, Copy, Debug, PartialEq, Eq, Structural)]
pub struct Pins {
    pub data_terminal_ready: bool,
    pub data_set_ready: bool,
    pub request_to_send: bool,
    pub clear_to_send: bool,
}

impl Pins {
    /// The setting that a counter stands for: bit 0 is Data-Terminal-Ready,
    /// bit 1 Data-Set-Ready, bit 2 Request-To-Send, bit 3 Clear-To-Send.
    pub open spec fn spec_from_counter(counter: u8) -> Pins {
        Pins {
            data_terminal_ready: counter % 2 == 1,
            data_set_ready: (counter / 2) % 2 == 1,
            request_to_send: (counter / 4) % 2 == 1,
            clear_to_send: (counter / 8) % 2 == 1,
        }
    }

    /// The counter below 16 that stands for this setting.
    pub open spec fn spec_counter(self) -> u8 {
        ((if self.data_terminal_ready { 1int } else { 0 })
            + (if self.data_set_ready { 2int } else { 0 })
            + (if self.request_to_send { 4int } else { 0 })
            + (if self.clear_to_send { 8int } else { 0 })) as u8
    }

    /// Decodes a counter, one bit per line. Bits above the fourth are not
    /// read.
    #[verifier::when_used_as_spec(spec_from_counter)]
    pub fn from_counter(counter: u8) -> (pins: Pins)
        ensures
            pins == Pins::spec_from_counter(counter),
    {
        assert((counter & 1 != 0) == (counter % 2 == 1)) by (bit_vector);
        assert((counter & 2 != 0) == ((counter / 2) % 2 == 1)) by (bit_vector);
        assert((counter & 4 != 0) == ((counter / 4) % 2 == 1)) by (bit_vector);
        assert((counter & 8 != 0) == ((counter / 8) % 2 == 1)) by (bit_vector);
        Pins {
            data_terminal_ready: counter & 1 != 0,
            data_set_ready: counter & 2 != 0,
            request_to_send: counter & 4 != 0,
            clear_to_send: counter & 8 != 0,
        }
    }

    /// Encodes the setting as a counter below 16.
    #[verifier::when_used_as_spec(spec_counter)]
    pub fn counter(self) -> (counter: u8)
        ensures
            counter == self.spec_counter(),
            counter < 16,
    {
        let mut counter: u8 = 0;
        if self.data_terminal_ready {
            counter = counter + 1;
        }
        if self.data_set_ready {
            counter = counter + 2;
        }
        if self.request_to_send {
            counter = counter + 4;
        }
        if self.clear_to_send {
            counter = counter + 8;
        }
        counter
    }

    /// The setting in words: each line by its short name, with `up` in green
    /// for a line that is high and `down` in red for one that is low.
    pub open spec fn spec_describe(self) -> Seq<(Style, Seq<char>)> {
        seq![
            (Style::Plain, "DTR "@),
            level_of(self.data_terminal_ready),
            (Style::Plain, ", DSR "@),
            level_of(self.data_set_ready),
            (Style::Plain, ", RTS "@),
            level_of(self.request_to_send),
            (Style::Plain, ", CTS "@),
            level_of(self.clear_to_send),
        ]
    }

    /// Writes the setting in words.
    pub fn describe(self) -> (words: Text)
        ensures
            words@ == self.spec_describe(),
    {
        let mut words = Text::of("DTR ");
        push_level(&mut words, self.data_terminal_ready);
        words.push(Style::Plain, ", DSR ");
        push_level(&mut words, self.data_set_ready);
        words.push(Style::Plain, ", RTS ");
        push_level(&mut words, self.request_to_send);
        words.push(Style::Plain, ", CTS ");
        push_level(&mut words, self.clear_to_send);
        assert(words@ =~= self.spec_describe());
        words
    }

    /// The level at which an end drives one of its outputs under this setting.
    ///
    /// The sender's outputs carry Data-Terminal-Ready and Request-To-Send. The
    /// receiver's outputs carry what the sender is to see as Data-Set-Ready
    /// and Clear-To-Send.
    pub open spec fn spec_commanded(self, side: Side, line: Output) -> bool {
        match (side, line) {
            (Side::Sender, Output::DataTerminalReady) => self.data_terminal_ready,
            (Side::Receiver, Output::DataTerminalReady) => self.data_set_ready,
            (Side::Sender, Output::RequestToSend) => self.request_to_send,
            (Side::Receiver, Output::RequestToSend) => self.clear_to_send,
        }
    }

    #[verifier::when_used_as_spec(spec_commanded)]
    pub fn commanded(self, side: Side, line: Output) -> (level: bool)
        ensures
            level == self.spec_commanded(side, line),
    {
        match side {
            Side::Sender => match line {
                Output::DataTerminalReady => self.data_terminal_ready,
                Output::RequestToSend => self.request_to_send,
            },
            Side::Receiver => match line {
                Output::DataTerminalReady => self.data_set_ready,
                Output::RequestToSend => self.clear_to_send,
            },
        }
    }
}

/// The sixteen counters and the sixteen settings stand for each other, one to
/// one.
pub proof fn lemma_counter_round_trip(pins: Pins, counter: u8)
    ensures
        pins.spec_counter() < 16,
        Pins::spec_from_counter(pins.spec_counter()) == pins,
        counter < 16 ==> Pins::spec_from_counter(counter).spec_counter() == counter,
{
}

} // verus!

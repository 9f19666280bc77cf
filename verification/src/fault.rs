//! What can go wrong in a check, and how a report words it.

use vstd::prelude::*;
use crate::tap::{field_line, field_line_of, Diagnostic, Line};
use crate::text::{escape_ascii, escaped_of, Text};

verus! {

/// Why a check failed. `E` is the error type of the port layer.
#[derive(Debug, PartialEq, Eq)]
pub enum Fault<E> {
    /// The observed line was driven low at the far end and never dropped.
    StayedHigh,
    /// The observed line was driven high at the far end and never rose.
    StayedLow,
    /// The pattern did not arrive in full within its budget.
    TimedOut,
    /// What arrived is not what was sent.
    Mismatch { received: Vec<u8>, expected: Vec<u8> },
    /// The port layer reported an error.
    Port(E),
}

/// An error of the port layer as a report shows it: the name of its kind, and
/// its description for the reader.
#[derive(Debug, PartialEq, Eq)]
pub struct PortError {
    pub kind: String,
    pub description: String,
}

/// The words for received bytes that are not the expected ones: both byte
/// strings in printable form, between quotation marks.
pub open spec fn mismatch_of(received: Seq<u8>, expected: Seq<u8>) -> Seq<char> {
    "content mismatched: “"@ + escaped_of(received) + "” != “"@ + escaped_of(expected) + "”"@
}

/// Words received bytes that are not the expected ones.
pub fn mismatch(received: &Vec<u8>, expected: &Vec<u8>) -> (words: String)
    ensures
        words@ == mismatch_of(received@, expected@),
{
    let mut words = String::from_str("content mismatched: “");
    words.append(escape_ascii(received).as_str());
    words.append("” != “");
    words.append(escape_ascii(expected).as_str());
    words.append("”");
    words
}

impl<E> Fault<E> {
    /// The name of the kind of a fault that a check found itself: a pattern
    /// that did not arrive is a timeout, anything else has no kind of its
    /// own. `None` for an error of the port layer, which brings its own.
    pub open spec fn spec_kind(&self) -> Option<Seq<char>> {
        match self {
            Fault::Port(_) => None,
            Fault::TimedOut => Some("Io(TimedOut)"@),
            _ => Some("Io(Other)"@),
        }
    }

    /// The words for a fault that a check found itself. `None` for an error
    /// of the port layer, which brings its own.
    pub open spec fn spec_description(&self) -> Option<Seq<char>> {
        match self {
            Fault::StayedHigh => Some("stayed high"@),
            Fault::StayedLow => Some("stayed low"@),
            Fault::TimedOut => Some("timed out"@),
            Fault::Mismatch { received, expected } => Some(mismatch_of(received@, expected@)),
            Fault::Port(_) => None,
        }
    }

    /// The name of the kind of a fault that a check found itself.
    pub fn kind(&self) -> (kind: Option<String>)
        ensures
            kind is Some == self.spec_kind() is Some,
            kind is Some ==> kind->0@ == self.spec_kind()->0,
    {
        match self {
            Fault::Port(_) => None,
            Fault::TimedOut => Some(String::from_str("Io(TimedOut)")),
            _ => Some(String::from_str("Io(Other)")),
        }
    }

    /// The words for a fault that a check found itself.
    pub fn description(&self) -> (words: Option<String>)
        ensures
            words is Some == self.spec_description() is Some,
            words is Some ==> words->0@ == self.spec_description()->0,
    {
        match self {
            Fault::StayedHigh => Some(String::from_str("stayed high")),
            Fault::StayedLow => Some(String::from_str("stayed low")),
            Fault::TimedOut => Some(String::from_str("timed out")),
            Fault::Mismatch { received, expected } => Some(mismatch(received, expected)),
            Fault::Port(_) => None,
        }
    }
}

/// The diagnostic block of an error with a kind and a description: one entry
/// for each.
pub open spec fn block_of(kind: Seq<char>, description: Seq<char>) -> Seq<Line> {
    seq![field_line_of("kind"@, kind), field_line_of("description"@, description)]
}

/// Writes the diagnostic block of an error with a kind and a description.
pub fn block(kind: &str, description: &str) -> (lines: Vec<Text>)
    ensures
        lines.deep_view() == block_of(kind@, description@),
{
    let mut lines: Vec<Text> = Vec::new();
    lines.push(field_line("kind", kind));
    lines.push(field_line("description", description));
    assert(lines.deep_view() =~= block_of(kind@, description@));
    lines
}

impl Diagnostic for PortError {
    open spec fn block(self) -> Seq<Line> {
        block_of(self.kind@, self.description@)
    }

    fn diagnostic(self) -> (lines: Vec<Text>) {
        block(self.kind.as_str(), self.description.as_str())
    }
}

impl<E: Diagnostic> Diagnostic for Fault<E> {
    /// An error of the port layer speaks for itself. A fault that the check
    /// found has the kind and the words that this module gives it.
    open spec fn block(self) -> Seq<Line> {
        match self {
            Fault::Port(error) => error.block(),
            _ => block_of(self.spec_kind()->0, self.spec_description()->0),
        }
    }

    fn diagnostic(self) -> (lines: Vec<Text>) {
        match self {
            Fault::Port(error) => error.diagnostic(),
            Fault::StayedHigh => block("Io(Other)", "stayed high"),
            Fault::StayedLow => block("Io(Other)", "stayed low"),
            Fault::TimedOut => block("Io(TimedOut)", "timed out"),
            Fault::Mismatch { received, expected } => {
                let words = mismatch(&received, &expected);
                block("Io(Other)", words.as_str())
            },
        }
    }
}

} // verus!

//! Reading modem-status lines out of the status register of a port.
//!
//! The register is a word of bits that the operating system hands out on
//! request. Which bit stands for which line is the platform's business: the
//! caller brings the masks.

use vstd::prelude::*;
use crate::lines::Input;

verus! {

/// Whether bit `index` of a word is set.
pub open spec fn bit_is_set(word: i32, index: u32) -> bool {
    (word >> index) & 1 == 1
}

/// The word in which bit `index` alone is set.
pub open spec fn single_bit(index: u32) -> i32 {
    1i32 << index
}

/// Whether the line that `pin` stands for is high in `status`: every bit of
/// the mask is set in the register.
pub fn read_pin(status: i32, pin: i32) -> (level: bool)
    ensures
        level == (status & pin == pin),
{
    status & pin == pin
}

/// The masks of the four modem-status lines in the status register.
#[derive(Clone, Copy, Debug, PartialEq, Eq, Structural)]
pub struct StatusBits {
    pub clear_to_send: i32,
    pub data_set_ready: i32,
    pub ring_indicator: i32,
    pub carrier_detect: i32,
}

impl StatusBits {
    /// The mask of a line.
    pub open spec fn spec_mask(self, line: Input) -> i32 {
        match line {
            Input::ClearToSend => self.clear_to_send,
            Input::DataSetReady => self.data_set_ready,
            Input::RingIndicator => self.ring_indicator,
            Input::CarrierDetect => self.carrier_detect,
        }
    }

    /// The mask of a line.
    #[verifier::when_used_as_spec(spec_mask)]
    pub fn mask(self, line: Input) -> (mask: i32)
        ensures
            mask == self.spec_mask(line),
    {
        match line {
            Input::ClearToSend => self.clear_to_send,
            Input::DataSetReady => self.data_set_ready,
            Input::RingIndicator => self.ring_indicator,
            Input::CarrierDetect => self.carrier_detect,
        }
    }

    /// The level of a line in a reading of the status register. Nothing is
    /// kept from one reading to the next: the level is that of the register
    /// handed in.
    pub fn read(self, status: i32, line: Input) -> (level: bool)
        ensures
            level == (status & self.spec_mask(line) == self.spec_mask(line)),
    {
        read_pin(status, self.mask(line))
    }
}

/// A line whose mask is one bit is high exactly if that bit is set in the
/// register, whatever the other bits are.
pub proof fn lemma_single_bit_decides(status: i32, index: u32)
    requires
        index < 31,
    ensures
        (status & single_bit(index) == single_bit(index)) == bit_is_set(status, index),
{
    assert((status & (1i32 << index) == (1i32 << index)) == ((status >> index) & 1 == 1))
        by (bit_vector)
        requires
            index < 31,
    ;
}

/// Bits outside the mask do not change what is read.
pub proof fn lemma_other_bits_do_not_matter(status: i32, other: i32, pin: i32)
    requires
        other & pin == 0,
    ensures
        ((status ^ other) & pin == pin) == (status & pin == pin),
{
    assert(((status ^ other) & pin == pin) == (status & pin == pin)) by (bit_vector)
        requires
            other & pin == 0,
    ;
}

} // verus!

//! The mathematical model of the whole machine as the contracts see it.

use vstd::prelude::*;

use crate::registers::Registers;

verus! {

/// The complete architectural state of the emulated processor: the register
/// file, the cumulative cycle counter, and the contents of the memory bus.
///
/// Every contract in this crate describes an operation as a function from
/// one `CpuState` to the next.
#[verifier::ext_equal]
pub ghost struct CpuState {
    /// The register file, including the status flags.
    pub regs: Registers,
    /// Cycles consumed since the last reset.
    pub cycles: u64,
    /// The bytes visible through the bus, one per 16-bit address.
    pub mem: Map<u16, u8>,
}

/// Whether two addresses lie in different 256-byte pages, that is, differ
/// in their high byte.
pub open spec fn page_crossed(a: u16, b: u16) -> bool {
    (a & 0xFF00) != (b & 0xFF00)
}

/// The high byte of a 16-bit word.
pub open spec fn hi_byte(word: u16) -> u8 {
    (word >> 8) as u8
}

/// The low byte of a 16-bit word.
pub open spec fn lo_byte(word: u16) -> u8 {
    (word & 0xFF) as u8
}

/// The 16-bit word with low byte `lo` and high byte `hi`.
pub open spec fn make_word(lo: u8, hi: u8) -> u16 {
    ((hi as u16) << 8) | (lo as u16)
}

/// Extracts the high byte of a 16-bit word.
pub fn hi8(word: u16) -> (byte: u8)
    ensures
        byte == hi_byte(word),
{
    proof {
        lemma_word_bytes(word);
    }
    (word >> 8) as u8
}

/// Extracts the low byte of a 16-bit word.
pub fn lo8(word: u16) -> (byte: u8)
    ensures
        byte == lo_byte(word),
{
    proof {
        lemma_word_bytes(word);
    }
    (word & 0xFF) as u8
}

/// Splitting a word into bytes and joining them again is the identity, and
/// both bytes fit in eight bits.
pub proof fn lemma_word_bytes(word: u16)
    ensures
        word >> 8 <= 0xFF,
        word & 0xFF <= 0xFF,
        make_word(lo_byte(word), hi_byte(word)) == word,
{
    assert(word >> 8 <= 0xFF && word & 0xFF <= 0xFF && ((((word >> 8) as u8) as u16) << 8) | (
    ((word & 0xFF) as u8) as u16) == word) by (bit_vector);
}

} // verus!

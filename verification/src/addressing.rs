//! The addressing modes as a sum type, with one dispatching resolver.

use vstd::prelude::*;

use crate::addressing_modes::{
    absolute, absolute_x, absolute_y, accumulator, immediate, implied, indirect, indirect_x,
    indirect_y, relative, spec_absolute, spec_absolute_x, spec_absolute_y, spec_accumulator,
    spec_immediate, spec_implied, spec_indirect, spec_indirect_x, spec_indirect_y, spec_relative,
    spec_zero_page, spec_zero_page_x, spec_zero_page_y, zero_page, zero_page_x, zero_page_y,
};
use crate::bus::Bus;
use crate::cpu::CPU;
use crate::state::CpuState;

verus! {

/// One addressing mode of the 6502.
#[derive(Debug, Clone, Copy, PartialEq, Eq, Structural)]
pub enum AddressingMode {
    /// The operation works on A; no operand bytes.
    Accumulator,
    /// The operand word is the effective address.
    Absolute,
    /// The operand word plus X, wrapping at 16 bits.
    AbsoluteX,
    /// The operand word plus Y, wrapping at 16 bits.
    AbsoluteY,
    /// The operand byte itself is addressed.
    Immediate,
    /// No operand and no effective address.
    Implied,
    /// The operand word points at the effective address (JMP only).
    Indirect,
    /// (zp,X): the operand byte plus X names a zero-page pointer.
    IndexedIndirect,
    /// (zp),Y: a zero-page pointer plus Y.
    IndirectIndexed,
    /// A signed offset from the PC that follows the operand (branches).
    Relative,
    /// The operand byte is the effective address, in page 0x00.
    ZeroPage,
    /// The operand byte plus X, wrapping within page 0x00.
    ZeroPageX,
    /// The operand byte plus Y, wrapping within page 0x00.
    ZeroPageY,
}

impl AddressingMode {
    /// The printable name of this mode, for traces.
    pub open spec fn spec_name(self) -> Seq<char> {
        match self {
            AddressingMode::Accumulator => "Accumulator"@,
            AddressingMode::Absolute => "Absolute"@,
            AddressingMode::AbsoluteX => "AbsoluteX"@,
            AddressingMode::AbsoluteY => "AbsoluteY"@,
            AddressingMode::Immediate => "Immediate"@,
            AddressingMode::Implied => "Implied"@,
            AddressingMode::Indirect => "Indirect"@,
            AddressingMode::IndexedIndirect => "IndexedIndirect"@,
            AddressingMode::IndirectIndexed => "IndirectIndexed"@,
            AddressingMode::Relative => "Relative"@,
            AddressingMode::ZeroPage => "ZeroPage"@,
            AddressingMode::ZeroPageX => "ZeroPageX"@,
            AddressingMode::ZeroPageY => "ZeroPageY"@,
        }
    }

    /// Returns the printable name of this mode, for traces.
    pub fn name(&self) -> (name: &'static str)
        ensures
            name@ == self.spec_name(),
    {
        match self {
            AddressingMode::Accumulator => "Accumulator",
            AddressingMode::Absolute => "Absolute",
            AddressingMode::AbsoluteX => "AbsoluteX",
            AddressingMode::AbsoluteY => "AbsoluteY",
            AddressingMode::Immediate => "Immediate",
            AddressingMode::Implied => "Implied",
            AddressingMode::Indirect => "Indirect",
            AddressingMode::IndexedIndirect => "IndexedIndirect",
            AddressingMode::IndirectIndexed => "IndirectIndexed",
            AddressingMode::Relative => "Relative",
            AddressingMode::ZeroPage => "ZeroPage",
            AddressingMode::ZeroPageX => "ZeroPageX",
            AddressingMode::ZeroPageY => "ZeroPageY",
        }
    }

    /// How many inline operand bytes this mode consumes: 0, 1 or 2.
    pub open spec fn spec_operand_width(self) -> u16 {
        match self {
            AddressingMode::Accumulator => 0,
            AddressingMode::Implied => 0,
            AddressingMode::Immediate => 1,
            AddressingMode::ZeroPage => 1,
            AddressingMode::ZeroPageX => 1,
            AddressingMode::ZeroPageY => 1,
            AddressingMode::IndexedIndirect => 1,
            AddressingMode::IndirectIndexed => 1,
            AddressingMode::Relative => 1,
            AddressingMode::Absolute => 2,
            AddressingMode::AbsoluteX => 2,
            AddressingMode::AbsoluteY => 2,
            AddressingMode::Indirect => 2,
        }
    }

    /// The meaning of resolving this mode: the state with PC advanced past
    /// the operand bytes, the effective address, and the page-cross cycle
    /// penalty the mode reports.
    pub open spec fn spec_resolve(self, s: CpuState) -> (CpuState, u16, u8) {
        match self {
            AddressingMode::Accumulator => spec_accumulator(s),
            AddressingMode::Absolute => spec_absolute(s),
            AddressingMode::AbsoluteX => spec_absolute_x(s),
            AddressingMode::AbsoluteY => spec_absolute_y(s),
            AddressingMode::Immediate => spec_immediate(s),
            AddressingMode::Implied => spec_implied(s),
            AddressingMode::Indirect => spec_indirect(s),
            AddressingMode::IndexedIndirect => spec_indirect_x(s),
            AddressingMode::IndirectIndexed => spec_indirect_y(s),
            AddressingMode::Relative => spec_relative(s),
            AddressingMode::ZeroPage => spec_zero_page(s),
            AddressingMode::ZeroPageX => spec_zero_page_x(s),
            AddressingMode::ZeroPageY => spec_zero_page_y(s),
        }
    }

    /// Resolves this mode against the CPU: consumes the operand bytes and
    /// returns the effective address with the mode's cycle penalty.
    pub fn execute<B: Bus>(&self, cpu: &mut CPU<B>) -> (r: (u16, u8))
        ensures
            ({
                let (s, addr, extra) = self.spec_resolve(old(cpu)@);
                final(cpu)@ == s && r.0 == addr && r.1 == extra
            }),
    {
        match self {
            AddressingMode::Accumulator => accumulator(cpu),
            AddressingMode::Absolute => absolute(cpu),
            AddressingMode::AbsoluteX => absolute_x(cpu),
            AddressingMode::AbsoluteY => absolute_y(cpu),
            AddressingMode::Immediate => immediate(cpu),
            AddressingMode::Implied => implied(cpu),
            AddressingMode::Indirect => indirect(cpu),
            AddressingMode::IndexedIndirect => indirect_x(cpu),
            AddressingMode::IndirectIndexed => indirect_y(cpu),
            AddressingMode::Relative => relative(cpu),
            AddressingMode::ZeroPage => zero_page(cpu),
            AddressingMode::ZeroPageX => zero_page_x(cpu),
            AddressingMode::ZeroPageY => zero_page_y(cpu),
        }
    }
}

} // verus!

//! The processor itself: registers bound to a bus, plus the primitive
//! operations every instruction is built from.

use vstd::prelude::*;

use crate::addressing::AddressingMode;
use crate::bus::Bus;
use crate::instructions::{spec_execute, Instruction};
use crate::registers::{Registers, StatusFlags};
use crate::state::{hi_byte, lemma_word_bytes, lo_byte, make_word, page_crossed, CpuState};

verus! {

/// The 6502 CPU: the architectural registers, the bus it is bound to, and
/// the cumulative cycle counter.
pub struct CPU<B: Bus> {
    /// The current state of the CPU registers.
    pub registers: Registers,
    /// The bus used by the CPU to access memory and I/O.
    pub bus: B,
    /// Cycles consumed since the last reset; read it through [`CPU::cycles`].
    pub cycles: u64,
}

impl<B: Bus> View for CPU<B> {
    type V = CpuState;

    open spec fn view(&self) -> CpuState {
        CpuState { regs: self.registers, cycles: self.cycles, mem: self.bus.mem() }
    }
}

/// The state after fetching one byte at PC, together with the byte: PC
/// advances by one, nothing else changes.
pub open spec fn spec_fetch_byte(s: CpuState) -> (CpuState, u8) {
    (
        CpuState { regs: Registers { pc: s.regs.pc.wrapping_add(1), ..s.regs }, ..s },
        s.mem[s.regs.pc],
    )
}

/// The state after fetching a little-endian word at PC, together with the
/// word: PC advances by two.
pub open spec fn spec_fetch_word(s: CpuState) -> (CpuState, u16) {
    let (s1, lo) = spec_fetch_byte(s);
    let (s2, hi) = spec_fetch_byte(s1);
    (s2, make_word(lo, hi))
}

/// The state after pushing `data`: the byte lands at `0x0100 | SP` and SP
/// decrements, wrapping within the stack page.
pub open spec fn spec_stack_push(s: CpuState, data: u8) -> CpuState {
    CpuState {
        regs: Registers { sp: s.regs.sp.wrapping_sub(1), ..s.regs },
        mem: s.mem.insert((0x0100 + s.regs.sp) as u16, data),
        ..s
    }
}

/// The state after popping one byte, together with the byte: SP increments,
/// wrapping within the stack page, and the byte at the new `0x0100 | SP` is
/// returned.
pub open spec fn spec_stack_pop(s: CpuState) -> (CpuState, u8) {
    let sp = s.regs.sp.wrapping_add(1);
    (CpuState { regs: Registers { sp, ..s.regs }, ..s }, s.mem[(0x0100 + sp) as u16])
}

/// The state after a taken branch to `addr`, together with the cycle
/// penalty: 1, or 2 when the branch target lies in a different page than
/// the instruction that follows the branch.
pub open spec fn spec_branch(s: CpuState, addr: u16) -> (CpuState, u8) {
    let penalty: u8 = if page_crossed(s.regs.pc, addr) {
        2
    } else {
        1
    };
    (CpuState { regs: Registers { pc: addr, ..s.regs }, ..s }, penalty)
}

/// The state after servicing an interrupt.  A plain IRQ is ignored while
/// the I flag is set; otherwise PC is stacked high byte first, the status
/// byte is stacked with B cleared and U set, I is set, PC is loaded from
/// the NMI vector (0xFFFA) or the IRQ vector (0xFFFE), and seven cycles are
/// charged.
pub open spec fn spec_interrupt(s: CpuState, nmi: bool) -> CpuState {
    if s.regs.status.interrupt_disable && !nmi {
        s
    } else {
        let s1 = spec_stack_push(s, hi_byte(s.regs.pc));
        let s2 = spec_stack_push(s1, lo_byte(s.regs.pc));
        let pushed = (s.regs.status.spec_to_byte() & !0x10u8) | 0x20u8;
        let s3 = spec_stack_push(s2, pushed);
        let vector: u16 = if nmi {
            0xFFFA
        } else {
            0xFFFE
        };
        let pc = make_word(s3.mem[vector], s3.mem[(vector + 1) as u16]);
        CpuState {
            regs: Registers {
                pc,
                status: StatusFlags { interrupt_disable: true, ..s.regs.status },
                ..s3.regs
            },
            cycles: s.cycles.wrapping_add(7),
            ..s3
        }
    }
}

/// The state after the reset sequence: PC comes from the reset vector
/// (0xFFFC/0xFFFD), SP is 0xFD, the flags return to their reset state
/// (packed value 0x24: I and U set, so interrupts start masked), and the
/// cycle counter restarts.  A, X, Y and memory are untouched.  The reset
/// sequence itself takes eight cycles on the wire; the counter reports
/// cycles consumed since the reset completed, so it reads 0 here and the
/// first instruction counts from there.
pub open spec fn spec_reset(s: CpuState) -> CpuState {
    CpuState {
        regs: Registers {
            pc: make_word(s.mem[0xFFFC], s.mem[0xFFFD]),
            sp: 0xFD,
            status: StatusFlags::spec_reset(),
            ..s.regs
        },
        cycles: 0,
        ..s
    }
}

impl<B: Bus> CPU<B> {
    /// Creates a CPU bound to `bus`, with the initial register file and a
    /// zeroed cycle counter.
    pub fn new(bus: B) -> (cpu: CPU<B>)
        ensures
            cpu@ == (CpuState {
                regs: Registers::spec_initial(),
                cycles: 0,
                mem: bus.mem(),
            }),
    {
        CPU { registers: Registers::new(), bus, cycles: 0 }
    }

    /// Returns the number of cycles consumed since the last reset.
    pub fn cycles(&self) -> (total: u64)
        ensures
            total == self@.cycles,
    {
        self.cycles
    }

    /// Runs the reset sequence: loads PC from the reset vector, reinitialises
    /// SP and the flags (I set, masking interrupts), and restarts the cycle
    /// counter; see [`spec_reset`].
    pub fn reset(&mut self)
        ensures
            final(self)@ == spec_reset(old(self)@),
    {
        let lo = self.bus.read(0xFFFC);
        let hi = self.bus.read(0xFFFD);
        self.registers.pc = ((hi as u16) << 8) | (lo as u16);
        self.registers.sp = 0xFD;
        self.registers.status = StatusFlags::new();
        self.cycles = 0;
    }

    /// Fetches the byte at PC and advances PC past it.
    pub fn fetch_byte(&mut self) -> (byte: u8)
        ensures
            ({
                let (s, b) = spec_fetch_byte(old(self)@);
                final(self)@ == s && byte == b
            }),
    {
        let byte = self.bus.read(self.registers.pc);
        self.registers.pc = self.registers.pc.wrapping_add(1);
        byte
    }

    /// Fetches the little-endian word at PC and advances PC past it.
    pub fn fetch_word(&mut self) -> (word: u16)
        ensures
            ({
                let (s, w) = spec_fetch_word(old(self)@);
                final(self)@ == s && word == w
            }),
    {
        let lo = self.fetch_byte();
        let hi = self.fetch_byte();
        ((hi as u16) << 8) | (lo as u16)
    }

    /// Pushes `data` onto the stack: writes it at `0x0100 | SP`, then
    /// decrements SP.
    pub fn stack_push(&mut self, data: u8)
        ensures
            final(self)@ == spec_stack_push(old(self)@, data),
    {
        self.bus.write(0x0100 + self.registers.sp as u16, data);
        self.registers.sp = self.registers.sp.wrapping_sub(1);
    }

    /// Pops a byte from the stack: increments SP, then reads `0x0100 | SP`.
    pub fn stack_pop(&mut self) -> (data: u8)
        ensures
            ({
                let (s, b) = spec_stack_pop(old(self)@);
                final(self)@ == s && data == b
            }),
    {
        self.registers.sp = self.registers.sp.wrapping_add(1);
        self.bus.read(0x0100 + self.registers.sp as u16)
    }

    /// Sets the Z flag when `result` is zero and the N flag when its bit 7
    /// is set; no other state changes.
    pub fn update_zero_and_negative_flags(&mut self, result: u8)
        ensures
            final(self)@ == (CpuState {
                regs: Registers {
                    status: old(self)@.regs.status.with_nz(result),
                    ..old(self)@.regs
                },
                ..old(self)@
            }),
    {
        self.registers.status.zero = result == 0;
        self.registers.status.negative = (result & 0x80) != 0;
    }

    /// Takes a branch to `addr` and returns the cycle penalty: 1, or 2 when
    /// the target lies in a different page than the following instruction.
    pub fn branch(&mut self, addr: u16) -> (penalty: u8)
        ensures
            ({
                let (s, p) = spec_branch(old(self)@, addr);
                final(self)@ == s && penalty == p
            }),
    {
        let old_pc = self.registers.pc;
        self.registers.pc = addr;
        let page_cross = (old_pc & 0xFF00) != (addr & 0xFF00);
        if page_cross {
            2
        } else {
            1
        }
    }

    /// Services an interrupt; see [`spec_interrupt`].
    fn interrupt(&mut self, nmi: bool)
        ensures
            final(self)@ == spec_interrupt(old(self)@, nmi),
    {
        if self.registers.status.interrupt_disable && !nmi {
            return ;
        }
        proof {
            lemma_word_bytes(self.registers.pc);
        }
        self.stack_push((self.registers.pc >> 8) as u8);
        self.stack_push((self.registers.pc & 0xFF) as u8);
        let mut status = self.registers.status.to_byte();
        status &= !0x10u8;
        status |= 0x20u8;
        self.stack_push(status);
        self.registers.status.interrupt_disable = true;
        let vector_address: u16 = if nmi {
            0xFFFA
        } else {
            0xFFFE
        };
        let lo = self.bus.read(vector_address);
        let hi = self.bus.read(vector_address + 1);
        self.registers.pc = ((hi as u16) << 8) | (lo as u16);
        self.cycles = self.cycles.wrapping_add(7);
    }

    /// Raises an interrupt request; serviced only while the I flag is clear.
    pub fn irq(&mut self)
        ensures
            final(self)@ == spec_interrupt(old(self)@, false),
    {
        self.interrupt(false);
    }

    /// Raises a non-maskable interrupt; always serviced.
    pub fn nmi(&mut self)
        ensures
            final(self)@ == spec_interrupt(old(self)@, true),
    {
        self.interrupt(true);
    }
}

/// A decoded opcode: the operation, its addressing mode, and the base
/// cycle count from the opcode table.  Base cycles assume no page cross
/// and, for branches, not taken; the interpreter adds the penalties.
#[derive(Debug, Clone, Copy)]
pub struct DecodedInstruction {
    /// The operation to perform.
    pub instruction: Instruction,
    /// How the operand is addressed.
    pub addressing_mode: AddressingMode,
    /// Base number of cycles for the instruction.
    pub cycles: u8,
}

/// The opcode table: the decoded form of each documented opcode byte, or
/// `None` for a byte outside the documented set.
pub open spec fn spec_decode(opcode: u8) -> Option<DecodedInstruction> {
    match opcode {
        // ADC
        0x69 => Some(
            DecodedInstruction {
                instruction: Instruction::Adc,
                addressing_mode: AddressingMode::Immediate,
                cycles: 2,
            },
        ),
        0x65 => Some(
            DecodedInstruction {
                instruction: Instruction::Adc,
                addressing_mode: AddressingMode::ZeroPage,
                cycles: 3,
            },
        ),
        0x75 => Some(
            DecodedInstruction {
                instruction: Instruction::Adc,
                addressing_mode: AddressingMode::ZeroPageX,
                cycles: 4,
            },
        ),
        0x6D => Some(
            DecodedInstruction {
                instruction: Instruction::Adc,
                addressing_mode: AddressingMode::Absolute,
                cycles: 4,
            },
        ),
        0x7D => Some(
            DecodedInstruction {
                instruction: Instruction::Adc,
                addressing_mode: AddressingMode::AbsoluteX,
                cycles: 4,
            },
        ),
        0x79 => Some(
            DecodedInstruction {
                instruction: Instruction::Adc,
                addressing_mode: AddressingMode::AbsoluteY,
                cycles: 4,
            },
        ),
        0x61 => Some(
            DecodedInstruction {
                instruction: Instruction::Adc,
                addressing_mode: AddressingMode::IndexedIndirect,
                cycles: 6,
            },
        ),
        0x71 => Some(
            DecodedInstruction {
                instruction: Instruction::Adc,
                addressing_mode: AddressingMode::IndirectIndexed,
                cycles: 5,
            },
        ),
        // AND
        0x29 => Some(
            DecodedInstruction {
                instruction: Instruction::And,
                addressing_mode: AddressingMode::Immediate,
                cycles: 2,
            },
        ),
        0x25 => Some(
            DecodedInstruction {
                instruction: Instruction::And,
                addressing_mode: AddressingMode::ZeroPage,
                cycles: 3,
            },
        ),
        0x35 => Some(
            DecodedInstruction {
                instruction: Instruction::And,
                addressing_mode: AddressingMode::ZeroPageX,
                cycles: 4,
            },
        ),
        0x2D => Some(
            DecodedInstruction {
                instruction: Instruction::And,
                addressing_mode: AddressingMode::Absolute,
                cycles: 4,
            },
        ),
        0x3D => Some(
            DecodedInstruction {
                instruction: Instruction::And,
                addressing_mode: AddressingMode::AbsoluteX,
                cycles: 4,
            },
        ),
        0x39 => Some(
            DecodedInstruction {
                instruction: Instruction::And,
                addressing_mode: AddressingMode::AbsoluteY,
                cycles: 4,
            },
        ),
        0x21 => Some(
            DecodedInstruction {
                instruction: Instruction::And,
                addressing_mode: AddressingMode::IndexedIndirect,
                cycles: 6,
            },
        ),
        0x31 => Some(
            DecodedInstruction {
                instruction: Instruction::And,
                addressing_mode: AddressingMode::IndirectIndexed,
                cycles: 5,
            },
        ),
        // ASL
        0x0A => Some(
            DecodedInstruction {
                instruction: Instruction::AslAccumulator,
                addressing_mode: AddressingMode::Accumulator,
                cycles: 2,
            },
        ),
        0x06 => Some(
            DecodedInstruction {
                instruction: Instruction::Asl,
                addressing_mode: AddressingMode::ZeroPage,
                cycles: 5,
            },
        ),
        0x16 => Some(
            DecodedInstruction {
                instruction: Instruction::Asl,
                addressing_mode: AddressingMode::ZeroPageX,
                cycles: 6,
            },
        ),
        0x0E => Some(
            DecodedInstruction {
                instruction: Instruction::Asl,
                addressing_mode: AddressingMode::Absolute,
                cycles: 6,
            },
        ),
        0x1E => Some(
            DecodedInstruction {
                instruction: Instruction::Asl,
                addressing_mode: AddressingMode::AbsoluteX,
                cycles: 7,
            },
        ),
        // Branches
        0x90 => Some(
            DecodedInstruction {
                instruction: Instruction::Bcc,
                addressing_mode: AddressingMode::Relative,
                cycles: 2,
            },
        ),
        0xB0 => Some(
            DecodedInstruction {
                instruction: Instruction::Bcs,
                addressing_mode: AddressingMode::Relative,
                cycles: 2,
            },
        ),
        0xF0 => Some(
            DecodedInstruction {
                instruction: Instruction::Beq,
                addressing_mode: AddressingMode::Relative,
                cycles: 2,
            },
        ),
        0x30 => Some(
            DecodedInstruction {
                instruction: Instruction::Bmi,
                addressing_mode: AddressingMode::Relative,
                cycles: 2,
            },
        ),
        0xD0 => Some(
            DecodedInstruction {
                instruction: Instruction::Bne,
                addressing_mode: AddressingMode::Relative,
                cycles: 2,
            },
        ),
        0x10 => Some(
            DecodedInstruction {
                instruction: Instruction::Bpl,
                addressing_mode: AddressingMode::Relative,
                cycles: 2,
            },
        ),
        0x50 => Some(
            DecodedInstruction {
                instruction: Instruction::Bvc,
                addressing_mode: AddressingMode::Relative,
                cycles: 2,
            },
        ),
        0x70 => Some(
            DecodedInstruction {
                instruction: Instruction::Bvs,
                addressing_mode: AddressingMode::Relative,
                cycles: 2,
            },
        ),
        // BIT
        0x24 => Some(
            DecodedInstruction {
                instruction: Instruction::Bit,
                addressing_mode: AddressingMode::ZeroPage,
                cycles: 3,
            },
        ),
        0x2C => Some(
            DecodedInstruction {
                instruction: Instruction::Bit,
                addressing_mode: AddressingMode::Absolute,
                cycles: 4,
            },
        ),
        // BRK
        0x00 => Some(
            DecodedInstruction {
                instruction: Instruction::Brk,
                addressing_mode: AddressingMode::Implied,
                cycles: 7,
            },
        ),
        // Flag clears and sets
        0x18 => Some(
            DecodedInstruction {
                instruction: Instruction::Clc,
                addressing_mode: AddressingMode::Implied,
                cycles: 2,
            },
        ),
        0xD8 => Some(
            DecodedInstruction {
                instruction: Instruction::Cld,
                addressing_mode: AddressingMode::Implied,
                cycles: 2,
            },
        ),
        0x58 => Some(
            DecodedInstruction {
                instruction: Instruction::Cli,
                addressing_mode: AddressingMode::Implied,
                cycles: 2,
            },
        ),
        0xB8 => Some(
            DecodedInstruction {
                instruction: Instruction::Clv,
                addressing_mode: AddressingMode::Implied,
                cycles: 2,
            },
        ),
        0x38 => Some(
            DecodedInstruction {
                instruction: Instruction::Sec,
                addressing_mode: AddressingMode::Implied,
                cycles: 2,
            },
        ),
        0xF8 => Some(
            DecodedInstruction {
                instruction: Instruction::Sed,
                addressing_mode: AddressingMode::Implied,
                cycles: 2,
            },
        ),
        0x78 => Some(
            DecodedInstruction {
                instruction: Instruction::Sei,
                addressing_mode: AddressingMode::Implied,
                cycles: 2,
            },
        ),
        // CMP
        0xC9 => Some(
            DecodedInstruction {
                instruction: Instruction::Cmp,
                addressing_mode: AddressingMode::Immediate,
                cycles: 2,
            },
        ),
        0xC5 => Some(
            DecodedInstruction {
                instruction: Instruction::Cmp,
                addressing_mode: AddressingMode::ZeroPage,
                cycles: 3,
            },
        ),
        0xD5 => Some(
            DecodedInstruction {
                instruction: Instruction::Cmp,
                addressing_mode: AddressingMode::ZeroPageX,
                cycles: 4,
            },
        ),
        0xCD => Some(
            DecodedInstruction {
                instruction: Instruction::Cmp,
                addressing_mode: AddressingMode::Absolute,
                cycles: 4,
            },
        ),
        0xDD => Some(
            DecodedInstruction {
                instruction: Instruction::Cmp,
                addressing_mode: AddressingMode::AbsoluteX,
                cycles: 4,
            },
        ),
        0xD9 => Some(
            DecodedInstruction {
                instruction: Instruction::Cmp,
                addressing_mode: AddressingMode::AbsoluteY,
                cycles: 4,
            },
        ),
        0xC1 => Some(
            DecodedInstruction {
                instruction: Instruction::Cmp,
                addressing_mode: AddressingMode::IndexedIndirect,
                cycles: 6,
            },
        ),
        0xD1 => Some(
            DecodedInstruction {
                instruction: Instruction::Cmp,
                addressing_mode: AddressingMode::IndirectIndexed,
                cycles: 5,
            },
        ),
        // CPX
        0xE0 => Some(
            DecodedInstruction {
                instruction: Instruction::Cpx,
                addressing_mode: AddressingMode::Immediate,
                cycles: 2,
            },
        ),
        0xE4 => Some(
            DecodedInstruction {
                instruction: Instruction::Cpx,
                addressing_mode: AddressingMode::ZeroPage,
                cycles: 3,
            },
        ),
        0xEC => Some(
            DecodedInstruction {
                instruction: Instruction::Cpx,
                addressing_mode: AddressingMode::Absolute,
                cycles: 4,
            },
        ),
        // CPY
        0xC0 => Some(
            DecodedInstruction {
                instruction: Instruction::Cpy,
                addressing_mode: AddressingMode::Immediate,
                cycles: 2,
            },
        ),
        0xC4 => Some(
            DecodedInstruction {
                instruction: Instruction::Cpy,
                addressing_mode: AddressingMode::ZeroPage,
                cycles: 3,
            },
        ),
        0xCC => Some(
            DecodedInstruction {
                instruction: Instruction::Cpy,
                addressing_mode: AddressingMode::Absolute,
                cycles: 4,
            },
        ),
        // DEC
        0xC6 => Some(
            DecodedInstruction {
                instruction: Instruction::Dec,
                addressing_mode: AddressingMode::ZeroPage,
                cycles: 5,
            },
        ),
        0xD6 => Some(
            DecodedInstruction {
                instruction: Instruction::Dec,
                addressing_mode: AddressingMode::ZeroPageX,
                cycles: 6,
            },
        ),
        0xCE => Some(
            DecodedInstruction {
                instruction: Instruction::Dec,
                addressing_mode: AddressingMode::Absolute,
                cycles: 6,
            },
        ),
        0xDE => Some(
            DecodedInstruction {
                instruction: Instruction::Dec,
                addressing_mode: AddressingMode::AbsoluteX,
                cycles: 7,
            },
        ),
        // DEX and DEY
        0xCA => Some(
            DecodedInstruction {
                instruction: Instruction::Dex,
                addressing_mode: AddressingMode::Implied,
                cycles: 2,
            },
        ),
        0x88 => Some(
            DecodedInstruction {
                instruction: Instruction::Dey,
                addressing_mode: AddressingMode::Implied,
                cycles: 2,
            },
        ),
        // EOR
        0x49 => Some(
            DecodedInstruction {
                instruction: Instruction::Eor,
                addressing_mode: AddressingMode::Immediate,
                cycles: 2,
            },
        ),
        0x45 => Some(
            DecodedInstruction {
                instruction: Instruction::Eor,
                addressing_mode: AddressingMode::ZeroPage,
                cycles: 3,
            },
        ),
        0x55 => Some(
            DecodedInstruction {
                instruction: Instruction::Eor,
                addressing_mode: AddressingMode::ZeroPageX,
                cycles: 4,
            },
        ),
        0x4D => Some(
            DecodedInstruction {
                instruction: Instruction::Eor,
                addressing_mode: AddressingMode::Absolute,
                cycles: 4,
            },
        ),
        0x5D => Some(
            DecodedInstruction {
                instruction: Instruction::Eor,
                addressing_mode: AddressingMode::AbsoluteX,
                cycles: 4,
            },
        ),
        0x59 => Some(
            DecodedInstruction {
                instruction: Instruction::Eor,
                addressing_mode: AddressingMode::AbsoluteY,
                cycles: 4,
            },
        ),
        0x41 => Some(
            DecodedInstruction {
                instruction: Instruction::Eor,
                addressing_mode: AddressingMode::IndexedIndirect,
                cycles: 6,
            },
        ),
        0x51 => Some(
            DecodedInstruction {
                instruction: Instruction::Eor,
                addressing_mode: AddressingMode::IndirectIndexed,
                cycles: 5,
            },
        ),
        // INC
        0xE6 => Some(
            DecodedInstruction {
                instruction: Instruction::Inc,
                addressing_mode: AddressingMode::ZeroPage,
                cycles: 5,
            },
        ),
        0xF6 => Some(
            DecodedInstruction {
                instruction: Instruction::Inc,
                addressing_mode: AddressingMode::ZeroPageX,
                cycles: 6,
            },
        ),
        0xEE => Some(
            DecodedInstruction {
                instruction: Instruction::Inc,
                addressing_mode: AddressingMode::Absolute,
                cycles: 6,
            },
        ),
        0xFE => Some(
            DecodedInstruction {
                instruction: Instruction::Inc,
                addressing_mode: AddressingMode::AbsoluteX,
                cycles: 7,
            },
        ),
        // INX and INY
        0xE8 => Some(
            DecodedInstruction {
                instruction: Instruction::Inx,
                addressing_mode: AddressingMode::Implied,
                cycles: 2,
            },
        ),
        0xC8 => Some(
            DecodedInstruction {
                instruction: Instruction::Iny,
                addressing_mode: AddressingMode::Implied,
                cycles: 2,
            },
        ),
        // JMP
        0x4C => Some(
            DecodedInstruction {
                instruction: Instruction::Jmp,
                addressing_mode: AddressingMode::Absolute,
                cycles: 3,
            },
        ),
        0x6C => Some(
            DecodedInstruction {
                instruction: Instruction::Jmp,
                addressing_mode: AddressingMode::Indirect,
                cycles: 5,
            },
        ),
        // JSR
        0x20 => Some(
            DecodedInstruction {
                instruction: Instruction::Jsr,
                addressing_mode: AddressingMode::Absolute,
                cycles: 6,
            },
        ),
        // LDA
        0xA9 => Some(
            DecodedInstruction {
                instruction: Instruction::Lda,
                addressing_mode: AddressingMode::Immediate,
                cycles: 2,
            },
        ),
        0xA5 => Some(
            DecodedInstruction {
                instruction: Instruction::Lda,
                addressing_mode: AddressingMode::ZeroPage,
                cycles: 3,
            },
        ),
        0xB5 => Some(
            DecodedInstruction {
                instruction: Instruction::Lda,
                addressing_mode: AddressingMode::ZeroPageX,
                cycles: 4,
            },
        ),
        0xAD => Some(
            DecodedInstruction {
                instruction: Instruction::Lda,
                addressing_mode: AddressingMode::Absolute,
                cycles: 4,
            },
        ),
        0xBD => Some(
            DecodedInstruction {
                instruction: Instruction::Lda,
                addressing_mode: AddressingMode::AbsoluteX,
                cycles: 4,
            },
        ),
        0xB9 => Some(
            DecodedInstruction {
                instruction: Instruction::Lda,
                addressing_mode: AddressingMode::AbsoluteY,
                cycles: 4,
            },
        ),
        0xA1 => Some(
            DecodedInstruction {
                instruction: Instruction::Lda,
                addressing_mode: AddressingMode::IndexedIndirect,
                cycles: 6,
            },
        ),
        0xB1 => Some(
            DecodedInstruction {
                instruction: Instruction::Lda,
                addressing_mode: AddressingMode::IndirectIndexed,
                cycles: 5,
            },
        ),
        // LDX
        0xA2 => Some(
            DecodedInstruction {
                instruction: Instruction::Ldx,
                addressing_mode: AddressingMode::Immediate,
                cycles: 2,
            },
        ),
        0xA6 => Some(
            DecodedInstruction {
                instruction: Instruction::Ldx,
                addressing_mode: AddressingMode::ZeroPage,
                cycles: 3,
            },
        ),
        0xB6 => Some(
            DecodedInstruction {
                instruction: Instruction::Ldx,
                addressing_mode: AddressingMode::ZeroPageY,
                cycles: 4,
            },
        ),
        0xAE => Some(
            DecodedInstruction {
                instruction: Instruction::Ldx,
                addressing_mode: AddressingMode::Absolute,
                cycles: 4,
            },
        ),
        0xBE => Some(
            DecodedInstruction {
                instruction: Instruction::Ldx,
                addressing_mode: AddressingMode::AbsoluteY,
                cycles: 4,
            },
        ),
        // LDY
        0xA0 => Some(
            DecodedInstruction {
                instruction: Instruction::Ldy,
                addressing_mode: AddressingMode::Immediate,
                cycles: 2,
            },
        ),
        0xA4 => Some(
            DecodedInstruction {
                instruction: Instruction::Ldy,
                addressing_mode: AddressingMode::ZeroPage,
                cycles: 3,
            },
        ),
        0xB4 => Some(
            DecodedInstruction {
                instruction: Instruction::Ldy,
                addressing_mode: AddressingMode::ZeroPageX,
                cycles: 4,
            },
        ),
        0xAC => Some(
            DecodedInstruction {
                instruction: Instruction::Ldy,
                addressing_mode: AddressingMode::Absolute,
                cycles: 4,
            },
        ),
        0xBC => Some(
            DecodedInstruction {
                instruction: Instruction::Ldy,
                addressing_mode: AddressingMode::AbsoluteX,
                cycles: 4,
            },
        ),
        // LSR
        0x4A => Some(
            DecodedInstruction {
                instruction: Instruction::LsrAccumulator,
                addressing_mode: AddressingMode::Accumulator,
                cycles: 2,
            },
        ),
        0x46 => Some(
            DecodedInstruction {
                instruction: Instruction::LsrMemory,
                addressing_mode: AddressingMode::ZeroPage,
                cycles: 5,
            },
        ),
        0x56 => Some(
            DecodedInstruction {
                instruction: Instruction::LsrMemory,
                addressing_mode: AddressingMode::ZeroPageX,
                cycles: 6,
            },
        ),
        0x4E => Some(
            DecodedInstruction {
                instruction: Instruction::LsrMemory,
                addressing_mode: AddressingMode::Absolute,
                cycles: 6,
            },
        ),
        0x5E => Some(
            DecodedInstruction {
                instruction: Instruction::LsrMemory,
                addressing_mode: AddressingMode::AbsoluteX,
                cycles: 7,
            },
        ),
        // NOP
        0xEA => Some(
            DecodedInstruction {
                instruction: Instruction::Nop,
                addressing_mode: AddressingMode::Implied,
                cycles: 2,
            },
        ),
        // ORA
        0x09 => Some(
            DecodedInstruction {
                instruction: Instruction::Ora,
                addressing_mode: AddressingMode::Immediate,
                cycles: 2,
            },
        ),
        0x05 => Some(
            DecodedInstruction {
                instruction: Instruction::Ora,
                addressing_mode: AddressingMode::ZeroPage,
                cycles: 3,
            },
        ),
        0x15 => Some(
            DecodedInstruction {
                instruction: Instruction::Ora,
                addressing_mode: AddressingMode::ZeroPageX,
                cycles: 4,
            },
        ),
        0x0D => Some(
            DecodedInstruction {
                instruction: Instruction::Ora,
                addressing_mode: AddressingMode::Absolute,
                cycles: 4,
            },
        ),
        0x1D => Some(
            DecodedInstruction {
                instruction: Instruction::Ora,
                addressing_mode: AddressingMode::AbsoluteX,
                cycles: 4,
            },
        ),
        0x19 => Some(
            DecodedInstruction {
                instruction: Instruction::Ora,
                addressing_mode: AddressingMode::AbsoluteY,
                cycles: 4,
            },
        ),
        0x01 => Some(
            DecodedInstruction {
                instruction: Instruction::Ora,
                addressing_mode: AddressingMode::IndexedIndirect,
                cycles: 6,
            },
        ),
        0x11 => Some(
            DecodedInstruction {
                instruction: Instruction::Ora,
                addressing_mode: AddressingMode::IndirectIndexed,
                cycles: 5,
            },
        ),
        // Stack operations
        0x48 => Some(
            DecodedInstruction {
                instruction: Instruction::Pha,
                addressing_mode: AddressingMode::Implied,
                cycles: 3,
            },
        ),
        0x08 => Some(
            DecodedInstruction {
                instruction: Instruction::Php,
                addressing_mode: AddressingMode::Implied,
                cycles: 3,
            },
        ),
        0x68 => Some(
            DecodedInstruction {
                instruction: Instruction::Pla,
                addressing_mode: AddressingMode::Implied,
                cycles: 4,
            },
        ),
        0x28 => Some(
            DecodedInstruction {
                instruction: Instruction::Plp,
                addressing_mode: AddressingMode::Implied,
                cycles: 4,
            },
        ),
        // ROL
        0x2A => Some(
            DecodedInstruction {
                instruction: Instruction::RolAccumulator,
                addressing_mode: AddressingMode::Accumulator,
                cycles: 2,
            },
        ),
        0x26 => Some(
            DecodedInstruction {
                instruction: Instruction::RolMemory,
                addressing_mode: AddressingMode::ZeroPage,
                cycles: 5,
            },
        ),
        0x36 => Some(
            DecodedInstruction {
                instruction: Instruction::RolMemory,
                addressing_mode: AddressingMode::ZeroPageX,
                cycles: 6,
            },
        ),
        0x2E => Some(
            DecodedInstruction {
                instruction: Instruction::RolMemory,
                addressing_mode: AddressingMode::Absolute,
                cycles: 6,
            },
        ),
        0x3E => Some(
            DecodedInstruction {
                instruction: Instruction::RolMemory,
                addressing_mode: AddressingMode::AbsoluteX,
                cycles: 7,
            },
        ),
        // ROR
        0x6A => Some(
            DecodedInstruction {
                instruction: Instruction::RorAccumulator,
                addressing_mode: AddressingMode::Accumulator,
                cycles: 2,
            },
        ),
        0x66 => Some(
            DecodedInstruction {
                instruction: Instruction::RorMemory,
                addressing_mode: AddressingMode::ZeroPage,
                cycles: 5,
            },
        ),
        0x76 => Some(
            DecodedInstruction {
                instruction: Instruction::RorMemory,
                addressing_mode: AddressingMode::ZeroPageX,
                cycles: 6,
            },
        ),
        0x6E => Some(
            DecodedInstruction {
                instruction: Instruction::RorMemory,
                addressing_mode: AddressingMode::Absolute,
                cycles: 6,
            },
        ),
        0x7E => Some(
            DecodedInstruction {
                instruction: Instruction::RorMemory,
                addressing_mode: AddressingMode::AbsoluteX,
                cycles: 7,
            },
        ),
        // Returns
        0x40 => Some(
            DecodedInstruction {
                instruction: Instruction::Rti,
                addressing_mode: AddressingMode::Implied,
                cycles: 6,
            },
        ),
        0x60 => Some(
            DecodedInstruction {
                instruction: Instruction::Rts,
                addressing_mode: AddressingMode::Implied,
                cycles: 6,
            },
        ),
        // SBC
        0xE9 => Some(
            DecodedInstruction {
                instruction: Instruction::Sbc,
                addressing_mode: AddressingMode::Immediate,
                cycles: 2,
            },
        ),
        0xE5 => Some(
            DecodedInstruction {
                instruction: Instruction::Sbc,
                addressing_mode: AddressingMode::ZeroPage,
                cycles: 3,
            },
        ),
        0xF5 => Some(
            DecodedInstruction {
                instruction: Instruction::Sbc,
                addressing_mode: AddressingMode::ZeroPageX,
                cycles: 4,
            },
        ),
        0xED => Some(
            DecodedInstruction {
                instruction: Instruction::Sbc,
                addressing_mode: AddressingMode::Absolute,
                cycles: 4,
            },
        ),
        0xFD => Some(
            DecodedInstruction {
                instruction: Instruction::Sbc,
                addressing_mode: AddressingMode::AbsoluteX,
                cycles: 4,
            },
        ),
        0xF9 => Some(
            DecodedInstruction {
                instruction: Instruction::Sbc,
                addressing_mode: AddressingMode::AbsoluteY,
                cycles: 4,
            },
        ),
        0xE1 => Some(
            DecodedInstruction {
                instruction: Instruction::Sbc,
                addressing_mode: AddressingMode::IndexedIndirect,
                cycles: 6,
            },
        ),
        0xF1 => Some(
            DecodedInstruction {
                instruction: Instruction::Sbc,
                addressing_mode: AddressingMode::IndirectIndexed,
                cycles: 5,
            },
        ),
        // STA
        0x85 => Some(
            DecodedInstruction {
                instruction: Instruction::Sta,
                addressing_mode: AddressingMode::ZeroPage,
                cycles: 3,
            },
        ),
        0x95 => Some(
            DecodedInstruction {
                instruction: Instruction::Sta,
                addressing_mode: AddressingMode::ZeroPageX,
                cycles: 4,
            },
        ),
        0x8D => Some(
            DecodedInstruction {
                instruction: Instruction::Sta,
                addressing_mode: AddressingMode::Absolute,
                cycles: 4,
            },
        ),
        0x9D => Some(
            DecodedInstruction {
                instruction: Instruction::Sta,
                addressing_mode: AddressingMode::AbsoluteX,
                cycles: 5,
            },
        ),
        0x99 => Some(
            DecodedInstruction {
                instruction: Instruction::Sta,
                addressing_mode: AddressingMode::AbsoluteY,
                cycles: 5,
            },
        ),
        0x81 => Some(
            DecodedInstruction {
                instruction: Instruction::Sta,
                addressing_mode: AddressingMode::IndexedIndirect,
                cycles: 6,
            },
        ),
        0x91 => Some(
            DecodedInstruction {
                instruction: Instruction::Sta,
                addressing_mode: AddressingMode::IndirectIndexed,
                cycles: 6,
            },
        ),
        // STX
        0x86 => Some(
            DecodedInstruction {
                instruction: Instruction::Stx,
                addressing_mode: AddressingMode::ZeroPage,
                cycles: 3,
            },
        ),
        0x96 => Some(
            DecodedInstruction {
                instruction: Instruction::Stx,
                addressing_mode: AddressingMode::ZeroPageY,
                cycles: 4,
            },
        ),
        0x8E => Some(
            DecodedInstruction {
                instruction: Instruction::Stx,
                addressing_mode: AddressingMode::Absolute,
                cycles: 4,
            },
        ),
        // STY
        0x84 => Some(
            DecodedInstruction {
                instruction: Instruction::Sty,
                addressing_mode: AddressingMode::ZeroPage,
                cycles: 3,
            },
        ),
        0x94 => Some(
            DecodedInstruction {
                instruction: Instruction::Sty,
                addressing_mode: AddressingMode::ZeroPageX,
                cycles: 4,
            },
        ),
        0x8C => Some(
            DecodedInstruction {
                instruction: Instruction::Sty,
                addressing_mode: AddressingMode::Absolute,
                cycles: 4,
            },
        ),
        // Transfers
        0xAA => Some(
            DecodedInstruction {
                instruction: Instruction::Tax,
                addressing_mode: AddressingMode::Implied,
                cycles: 2,
            },
        ),
        0xA8 => Some(
            DecodedInstruction {
                instruction: Instruction::Tay,
                addressing_mode: AddressingMode::Implied,
                cycles: 2,
            },
        ),
        0xBA => Some(
            DecodedInstruction {
                instruction: Instruction::Tsx,
                addressing_mode: AddressingMode::Implied,
                cycles: 2,
            },
        ),
        0x8A => Some(
            DecodedInstruction {
                instruction: Instruction::Txa,
                addressing_mode: AddressingMode::Implied,
                cycles: 2,
            },
        ),
        0x9A => Some(
            DecodedInstruction {
                instruction: Instruction::Txs,
                addressing_mode: AddressingMode::Implied,
                cycles: 2,
            },
        ),
        0x98 => Some(
            DecodedInstruction {
                instruction: Instruction::Tya,
                addressing_mode: AddressingMode::Implied,
                cycles: 2,
            },
        ),
        _ => None,
    }
}

/// Decodes one opcode byte against the opcode table.
pub fn decode(opcode: u8) -> (decoded: Option<DecodedInstruction>)
    ensures
        decoded == spec_decode(opcode),
{
    match opcode {
        // ADC
        0x69 => Some(
            DecodedInstruction {
                instruction: Instruction::Adc,
                addressing_mode: AddressingMode::Immediate,
                cycles: 2,
            },
        ),
        0x65 => Some(
            DecodedInstruction {
                instruction: Instruction::Adc,
                addressing_mode: AddressingMode::ZeroPage,
                cycles: 3,
            },
        ),
        0x75 => Some(
            DecodedInstruction {
                instruction: Instruction::Adc,
                addressing_mode: AddressingMode::ZeroPageX,
                cycles: 4,
            },
        ),
        0x6D => Some(
            DecodedInstruction {
                instruction: Instruction::Adc,
                addressing_mode: AddressingMode::Absolute,
                cycles: 4,
            },
        ),
        0x7D => Some(
            DecodedInstruction {
                instruction: Instruction::Adc,
                addressing_mode: AddressingMode::AbsoluteX,
                cycles: 4,
            },
        ),
        0x79 => Some(
            DecodedInstruction {
                instruction: Instruction::Adc,
                addressing_mode: AddressingMode::AbsoluteY,
                cycles: 4,
            },
        ),
        0x61 => Some(
            DecodedInstruction {
                instruction: Instruction::Adc,
                addressing_mode: AddressingMode::IndexedIndirect,
                cycles: 6,
            },
        ),
        0x71 => Some(
            DecodedInstruction {
                instruction: Instruction::Adc,
                addressing_mode: AddressingMode::IndirectIndexed,
                cycles: 5,
            },
        ),
        // AND
        0x29 => Some(
            DecodedInstruction {
                instruction: Instruction::And,
                addressing_mode: AddressingMode::Immediate,
                cycles: 2,
            },
        ),
        0x25 => Some(
            DecodedInstruction {
                instruction: Instruction::And,
                addressing_mode: AddressingMode::ZeroPage,
                cycles: 3,
            },
        ),
        0x35 => Some(
            DecodedInstruction {
                instruction: Instruction::And,
                addressing_mode: AddressingMode::ZeroPageX,
                cycles: 4,
            },
        ),
        0x2D => Some(
            DecodedInstruction {
                instruction: Instruction::And,
                addressing_mode: AddressingMode::Absolute,
                cycles: 4,
            },
        ),
        0x3D => Some(
            DecodedInstruction {
                instruction: Instruction::And,
                addressing_mode: AddressingMode::AbsoluteX,
                cycles: 4,
            },
        ),
        0x39 => Some(
            DecodedInstruction {
                instruction: Instruction::And,
                addressing_mode: AddressingMode::AbsoluteY,
                cycles: 4,
            },
        ),
        0x21 => Some(
            DecodedInstruction {
                instruction: Instruction::And,
                addressing_mode: AddressingMode::IndexedIndirect,
                cycles: 6,
            },
        ),
        0x31 => Some(
            DecodedInstruction {
                instruction: Instruction::And,
                addressing_mode: AddressingMode::IndirectIndexed,
                cycles: 5,
            },
        ),
        // ASL
        0x0A => Some(
            DecodedInstruction {
                instruction: Instruction::AslAccumulator,
                addressing_mode: AddressingMode::Accumulator,
                cycles: 2,
            },
        ),
        0x06 => Some(
            DecodedInstruction {
                instruction: Instruction::Asl,
                addressing_mode: AddressingMode::ZeroPage,
                cycles: 5,
            },
        ),
        0x16 => Some(
            DecodedInstruction {
                instruction: Instruction::Asl,
                addressing_mode: AddressingMode::ZeroPageX,
                cycles: 6,
            },
        ),
        0x0E => Some(
            DecodedInstruction {
                instruction: Instruction::Asl,
                addressing_mode: AddressingMode::Absolute,
                cycles: 6,
            },
        ),
        0x1E => Some(
            DecodedInstruction {
                instruction: Instruction::Asl,
                addressing_mode: AddressingMode::AbsoluteX,
                cycles: 7,
            },
        ),
        // Branches
        0x90 => Some(
            DecodedInstruction {
                instruction: Instruction::Bcc,
                addressing_mode: AddressingMode::Relative,
                cycles: 2,
            },
        ),
        0xB0 => Some(
            DecodedInstruction {
                instruction: Instruction::Bcs,
                addressing_mode: AddressingMode::Relative,
                cycles: 2,
            },
        ),
        0xF0 => Some(
            DecodedInstruction {
                instruction: Instruction::Beq,
                addressing_mode: AddressingMode::Relative,
                cycles: 2,
            },
        ),
        0x30 => Some(
            DecodedInstruction {
                instruction: Instruction::Bmi,
                addressing_mode: AddressingMode::Relative,
                cycles: 2,
            },
        ),
        0xD0 => Some(
            DecodedInstruction {
                instruction: Instruction::Bne,
                addressing_mode: AddressingMode::Relative,
                cycles: 2,
            },
        ),
        0x10 => Some(
            DecodedInstruction {
                instruction: Instruction::Bpl,
                addressing_mode: AddressingMode::Relative,
                cycles: 2,
            },
        ),
        0x50 => Some(
            DecodedInstruction {
                instruction: Instruction::Bvc,
                addressing_mode: AddressingMode::Relative,
                cycles: 2,
            },
        ),
        0x70 => Some(
            DecodedInstruction {
                instruction: Instruction::Bvs,
                addressing_mode: AddressingMode::Relative,
                cycles: 2,
            },
        ),
        // BIT
        0x24 => Some(
            DecodedInstruction {
                instruction: Instruction::Bit,
                addressing_mode: AddressingMode::ZeroPage,
                cycles: 3,
            },
        ),
        0x2C => Some(
            DecodedInstruction {
                instruction: Instruction::Bit,
                addressing_mode: AddressingMode::Absolute,
                cycles: 4,
            },
        ),
        // BRK
        0x00 => Some(
            DecodedInstruction {
                instruction: Instruction::Brk,
                addressing_mode: AddressingMode::Implied,
                cycles: 7,
            },
        ),
        // Flag clears and sets
        0x18 => Some(
            DecodedInstruction {
                instruction: Instruction::Clc,
                addressing_mode: AddressingMode::Implied,
                cycles: 2,
            },
        ),
        0xD8 => Some(
            DecodedInstruction {
                instruction: Instruction::Cld,
                addressing_mode: AddressingMode::Implied,
                cycles: 2,
            },
        ),
        0x58 => Some(
            DecodedInstruction {
                instruction: Instruction::Cli,
                addressing_mode: AddressingMode::Implied,
                cycles: 2,
            },
        ),
        0xB8 => Some(
            DecodedInstruction {
                instruction: Instruction::Clv,
                addressing_mode: AddressingMode::Implied,
                cycles: 2,
            },
        ),
        0x38 => Some(
            DecodedInstruction {
                instruction: Instruction::Sec,
                addressing_mode: AddressingMode::Implied,
                cycles: 2,
            },
        ),
        0xF8 => Some(
            DecodedInstruction {
                instruction: Instruction::Sed,
                addressing_mode: AddressingMode::Implied,
                cycles: 2,
            },
        ),
        0x78 => Some(
            DecodedInstruction {
                instruction: Instruction::Sei,
                addressing_mode: AddressingMode::Implied,
                cycles: 2,
            },
        ),
        // CMP
        0xC9 => Some(
            DecodedInstruction {
                instruction: Instruction::Cmp,
                addressing_mode: AddressingMode::Immediate,
                cycles: 2,
            },
        ),
        0xC5 => Some(
            DecodedInstruction {
                instruction: Instruction::Cmp,
                addressing_mode: AddressingMode::ZeroPage,
                cycles: 3,
            },
        ),
        0xD5 => Some(
            DecodedInstruction {
                instruction: Instruction::Cmp,
                addressing_mode: AddressingMode::ZeroPageX,
                cycles: 4,
            },
        ),
        0xCD => Some(
            DecodedInstruction {
                instruction: Instruction::Cmp,
                addressing_mode: AddressingMode::Absolute,
                cycles: 4,
            },
        ),
        0xDD => Some(
            DecodedInstruction {
                instruction: Instruction::Cmp,
                addressing_mode: AddressingMode::AbsoluteX,
                cycles: 4,
            },
        ),
        0xD9 => Some(
            DecodedInstruction {
                instruction: Instruction::Cmp,
                addressing_mode: AddressingMode::AbsoluteY,
                cycles: 4,
            },
        ),
        0xC1 => Some(
            DecodedInstruction {
                instruction: Instruction::Cmp,
                addressing_mode: AddressingMode::IndexedIndirect,
                cycles: 6,
            },
        ),
        0xD1 => Some(
            DecodedInstruction {
                instruction: Instruction::Cmp,
                addressing_mode: AddressingMode::IndirectIndexed,
                cycles: 5,
            },
        ),
        // CPX
        0xE0 => Some(
            DecodedInstruction {
                instruction: Instruction::Cpx,
                addressing_mode: AddressingMode::Immediate,
                cycles: 2,
            },
        ),
        0xE4 => Some(
            DecodedInstruction {
                instruction: Instruction::Cpx,
                addressing_mode: AddressingMode::ZeroPage,
                cycles: 3,
            },
        ),
        0xEC => Some(
            DecodedInstruction {
                instruction: Instruction::Cpx,
                addressing_mode: AddressingMode::Absolute,
                cycles: 4,
            },
        ),
        // CPY
        0xC0 => Some(
            DecodedInstruction {
                instruction: Instruction::Cpy,
                addressing_mode: AddressingMode::Immediate,
                cycles: 2,
            },
        ),
        0xC4 => Some(
            DecodedInstruction {
                instruction: Instruction::Cpy,
                addressing_mode: AddressingMode::ZeroPage,
                cycles: 3,
            },
        ),
        0xCC => Some(
            DecodedInstruction {
                instruction: Instruction::Cpy,
                addressing_mode: AddressingMode::Absolute,
                cycles: 4,
            },
        ),
        // DEC
        0xC6 => Some(
            DecodedInstruction {
                instruction: Instruction::Dec,
                addressing_mode: AddressingMode::ZeroPage,
                cycles: 5,
            },
        ),
        0xD6 => Some(
            DecodedInstruction {
                instruction: Instruction::Dec,
                addressing_mode: AddressingMode::ZeroPageX,
                cycles: 6,
            },
        ),
        0xCE => Some(
            DecodedInstruction {
                instruction: Instruction::Dec,
                addressing_mode: AddressingMode::Absolute,
                cycles: 6,
            },
        ),
        0xDE => Some(
            DecodedInstruction {
                instruction: Instruction::Dec,
                addressing_mode: AddressingMode::AbsoluteX,
                cycles: 7,
            },
        ),
        // DEX and DEY
        0xCA => Some(
            DecodedInstruction {
                instruction: Instruction::Dex,
                addressing_mode: AddressingMode::Implied,
                cycles: 2,
            },
        ),
        0x88 => Some(
            DecodedInstruction {
                instruction: Instruction::Dey,
                addressing_mode: AddressingMode::Implied,
                cycles: 2,
            },
        ),
        // EOR
        0x49 => Some(
            DecodedInstruction {
                instruction: Instruction::Eor,
                addressing_mode: AddressingMode::Immediate,
                cycles: 2,
            },
        ),
        0x45 => Some(
            DecodedInstruction {
                instruction: Instruction::Eor,
                addressing_mode: AddressingMode::ZeroPage,
                cycles: 3,
            },
        ),
        0x55 => Some(
            DecodedInstruction {
                instruction: Instruction::Eor,
                addressing_mode: AddressingMode::ZeroPageX,
                cycles: 4,
            },
        ),
        0x4D => Some(
            DecodedInstruction {
                instruction: Instruction::Eor,
                addressing_mode: AddressingMode::Absolute,
                cycles: 4,
            },
        ),
        0x5D => Some(
            DecodedInstruction {
                instruction: Instruction::Eor,
                addressing_mode: AddressingMode::AbsoluteX,
                cycles: 4,
            },
        ),
        0x59 => Some(
            DecodedInstruction {
                instruction: Instruction::Eor,
                addressing_mode: AddressingMode::AbsoluteY,
                cycles: 4,
            },
        ),
        0x41 => Some(
            DecodedInstruction {
                instruction: Instruction::Eor,
                addressing_mode: AddressingMode::IndexedIndirect,
                cycles: 6,
            },
        ),
        0x51 => Some(
            DecodedInstruction {
                instruction: Instruction::Eor,
                addressing_mode: AddressingMode::IndirectIndexed,
                cycles: 5,
            },
        ),
        // INC
        0xE6 => Some(
            DecodedInstruction {
                instruction: Instruction::Inc,
                addressing_mode: AddressingMode::ZeroPage,
                cycles: 5,
            },
        ),
        0xF6 => Some(
            DecodedInstruction {
                instruction: Instruction::Inc,
                addressing_mode: AddressingMode::ZeroPageX,
                cycles: 6,
            },
        ),
        0xEE => Some(
            DecodedInstruction {
                instruction: Instruction::Inc,
                addressing_mode: AddressingMode::Absolute,
                cycles: 6,
            },
        ),
        0xFE => Some(
            DecodedInstruction {
                instruction: Instruction::Inc,
                addressing_mode: AddressingMode::AbsoluteX,
                cycles: 7,
            },
        ),
        // INX and INY
        0xE8 => Some(
            DecodedInstruction {
                instruction: Instruction::Inx,
                addressing_mode: AddressingMode::Implied,
                cycles: 2,
            },
        ),
        0xC8 => Some(
            DecodedInstruction {
                instruction: Instruction::Iny,
                addressing_mode: AddressingMode::Implied,
                cycles: 2,
            },
        ),
        // JMP
        0x4C => Some(
            DecodedInstruction {
                instruction: Instruction::Jmp,
                addressing_mode: AddressingMode::Absolute,
                cycles: 3,
            },
        ),
        0x6C => Some(
            DecodedInstruction {
                instruction: Instruction::Jmp,
                addressing_mode: AddressingMode::Indirect,
                cycles: 5,
            },
        ),
        // JSR
        0x20 => Some(
            DecodedInstruction {
                instruction: Instruction::Jsr,
                addressing_mode: AddressingMode::Absolute,
                cycles: 6,
            },
        ),
        // LDA
        0xA9 => Some(
            DecodedInstruction {
                instruction: Instruction::Lda,
                addressing_mode: AddressingMode::Immediate,
                cycles: 2,
            },
        ),
        0xA5 => Some(
            DecodedInstruction {
                instruction: Instruction::Lda,
                addressing_mode: AddressingMode::ZeroPage,
                cycles: 3,
            },
        ),
        0xB5 => Some(
            DecodedInstruction {
                instruction: Instruction::Lda,
                addressing_mode: AddressingMode::ZeroPageX,
                cycles: 4,
            },
        ),
        0xAD => Some(
            DecodedInstruction {
                instruction: Instruction::Lda,
                addressing_mode: AddressingMode::Absolute,
                cycles: 4,
            },
        ),
        0xBD => Some(
            DecodedInstruction {
                instruction: Instruction::Lda,
                addressing_mode: AddressingMode::AbsoluteX,
                cycles: 4,
            },
        ),
        0xB9 => Some(
            DecodedInstruction {
                instruction: Instruction::Lda,
                addressing_mode: AddressingMode::AbsoluteY,
                cycles: 4,
            },
        ),
        0xA1 => Some(
            DecodedInstruction {
                instruction: Instruction::Lda,
                addressing_mode: AddressingMode::IndexedIndirect,
                cycles: 6,
            },
        ),
        0xB1 => Some(
            DecodedInstruction {
                instruction: Instruction::Lda,
                addressing_mode: AddressingMode::IndirectIndexed,
                cycles: 5,
            },
        ),
        // LDX
        0xA2 => Some(
            DecodedInstruction {
                instruction: Instruction::Ldx,
                addressing_mode: AddressingMode::Immediate,
                cycles: 2,
            },
        ),
        0xA6 => Some(
            DecodedInstruction {
                instruction: Instruction::Ldx,
                addressing_mode: AddressingMode::ZeroPage,
                cycles: 3,
            },
        ),
        0xB6 => Some(
            DecodedInstruction {
                instruction: Instruction::Ldx,
                addressing_mode: AddressingMode::ZeroPageY,
                cycles: 4,
            },
        ),
        0xAE => Some(
            DecodedInstruction {
                instruction: Instruction::Ldx,
                addressing_mode: AddressingMode::Absolute,
                cycles: 4,
            },
        ),
        0xBE => Some(
            DecodedInstruction {
                instruction: Instruction::Ldx,
                addressing_mode: AddressingMode::AbsoluteY,
                cycles: 4,
            },
        ),
        // LDY
        0xA0 => Some(
            DecodedInstruction {
                instruction: Instruction::Ldy,
                addressing_mode: AddressingMode::Immediate,
                cycles: 2,
            },
        ),
        0xA4 => Some(
            DecodedInstruction {
                instruction: Instruction::Ldy,
                addressing_mode: AddressingMode::ZeroPage,
                cycles: 3,
            },
        ),
        0xB4 => Some(
            DecodedInstruction {
                instruction: Instruction::Ldy,
                addressing_mode: AddressingMode::ZeroPageX,
                cycles: 4,
            },
        ),
        0xAC => Some(
            DecodedInstruction {
                instruction: Instruction::Ldy,
                addressing_mode: AddressingMode::Absolute,
                cycles: 4,
            },
        ),
        0xBC => Some(
            DecodedInstruction {
                instruction: Instruction::Ldy,
                addressing_mode: AddressingMode::AbsoluteX,
                cycles: 4,
            },
        ),
        // LSR
        0x4A => Some(
            DecodedInstruction {
                instruction: Instruction::LsrAccumulator,
                addressing_mode: AddressingMode::Accumulator,
                cycles: 2,
            },
        ),
        0x46 => Some(
            DecodedInstruction {
                instruction: Instruction::LsrMemory,
                addressing_mode: AddressingMode::ZeroPage,
                cycles: 5,
            },
        ),
        0x56 => Some(
            DecodedInstruction {
                instruction: Instruction::LsrMemory,
                addressing_mode: AddressingMode::ZeroPageX,
                cycles: 6,
            },
        ),
        0x4E => Some(
            DecodedInstruction {
                instruction: Instruction::LsrMemory,
                addressing_mode: AddressingMode::Absolute,
                cycles: 6,
            },
        ),
        0x5E => Some(
            DecodedInstruction {
                instruction: Instruction::LsrMemory,
                addressing_mode: AddressingMode::AbsoluteX,
                cycles: 7,
            },
        ),
        // NOP
        0xEA => Some(
            DecodedInstruction {
                instruction: Instruction::Nop,
                addressing_mode: AddressingMode::Implied,
                cycles: 2,
            },
        ),
        // ORA
        0x09 => Some(
            DecodedInstruction {
                instruction: Instruction::Ora,
                addressing_mode: AddressingMode::Immediate,
                cycles: 2,
            },
        ),
        0x05 => Some(
            DecodedInstruction {
                instruction: Instruction::Ora,
                addressing_mode: AddressingMode::ZeroPage,
                cycles: 3,
            },
        ),
        0x15 => Some(
            DecodedInstruction {
                instruction: Instruction::Ora,
                addressing_mode: AddressingMode::ZeroPageX,
                cycles: 4,
            },
        ),
        0x0D => Some(
            DecodedInstruction {
                instruction: Instruction::Ora,
                addressing_mode: AddressingMode::Absolute,
                cycles: 4,
            },
        ),
        0x1D => Some(
            DecodedInstruction {
                instruction: Instruction::Ora,
                addressing_mode: AddressingMode::AbsoluteX,
                cycles: 4,
            },
        ),
        0x19 => Some(
            DecodedInstruction {
                instruction: Instruction::Ora,
                addressing_mode: AddressingMode::AbsoluteY,
                cycles: 4,
            },
        ),
        0x01 => Some(
            DecodedInstruction {
                instruction: Instruction::Ora,
                addressing_mode: AddressingMode::IndexedIndirect,
                cycles: 6,
            },
        ),
        0x11 => Some(
            DecodedInstruction {
                instruction: Instruction::Ora,
                addressing_mode: AddressingMode::IndirectIndexed,
                cycles: 5,
            },
        ),
        // Stack operations
        0x48 => Some(
            DecodedInstruction {
                instruction: Instruction::Pha,
                addressing_mode: AddressingMode::Implied,
                cycles: 3,
            },
        ),
        0x08 => Some(
            DecodedInstruction {
                instruction: Instruction::Php,
                addressing_mode: AddressingMode::Implied,
                cycles: 3,
            },
        ),
        0x68 => Some(
            DecodedInstruction {
                instruction: Instruction::Pla,
                addressing_mode: AddressingMode::Implied,
                cycles: 4,
            },
        ),
        0x28 => Some(
            DecodedInstruction {
                instruction: Instruction::Plp,
                addressing_mode: AddressingMode::Implied,
                cycles: 4,
            },
        ),
        // ROL
        0x2A => Some(
            DecodedInstruction {
                instruction: Instruction::RolAccumulator,
                addressing_mode: AddressingMode::Accumulator,
                cycles: 2,
            },
        ),
        0x26 => Some(
            DecodedInstruction {
                instruction: Instruction::RolMemory,
                addressing_mode: AddressingMode::ZeroPage,
                cycles: 5,
            },
        ),
        0x36 => Some(
            DecodedInstruction {
                instruction: Instruction::RolMemory,
                addressing_mode: AddressingMode::ZeroPageX,
                cycles: 6,
            },
        ),
        0x2E => Some(
            DecodedInstruction {
                instruction: Instruction::RolMemory,
                addressing_mode: AddressingMode::Absolute,
                cycles: 6,
            },
        ),
        0x3E => Some(
            DecodedInstruction {
                instruction: Instruction::RolMemory,
                addressing_mode: AddressingMode::AbsoluteX,
                cycles: 7,
            },
        ),
        // ROR
        0x6A => Some(
            DecodedInstruction {
                instruction: Instruction::RorAccumulator,
                addressing_mode: AddressingMode::Accumulator,
                cycles: 2,
            },
        ),
        0x66 => Some(
            DecodedInstruction {
                instruction: Instruction::RorMemory,
                addressing_mode: AddressingMode::ZeroPage,
                cycles: 5,
            },
        ),
        0x76 => Some(
            DecodedInstruction {
                instruction: Instruction::RorMemory,
                addressing_mode: AddressingMode::ZeroPageX,
                cycles: 6,
            },
        ),
        0x6E => Some(
            DecodedInstruction {
                instruction: Instruction::RorMemory,
                addressing_mode: AddressingMode::Absolute,
                cycles: 6,
            },
        ),
        0x7E => Some(
            DecodedInstruction {
                instruction: Instruction::RorMemory,
                addressing_mode: AddressingMode::AbsoluteX,
                cycles: 7,
            },
        ),
        // Returns
        0x40 => Some(
            DecodedInstruction {
                instruction: Instruction::Rti,
                addressing_mode: AddressingMode::Implied,
                cycles: 6,
            },
        ),
        0x60 => Some(
            DecodedInstruction {
                instruction: Instruction::Rts,
                addressing_mode: AddressingMode::Implied,
                cycles: 6,
            },
        ),
        // SBC
        0xE9 => Some(
            DecodedInstruction {
                instruction: Instruction::Sbc,
                addressing_mode: AddressingMode::Immediate,
                cycles: 2,
            },
        ),
        0xE5 => Some(
            DecodedInstruction {
                instruction: Instruction::Sbc,
                addressing_mode: AddressingMode::ZeroPage,
                cycles: 3,
            },
        ),
        0xF5 => Some(
            DecodedInstruction {
                instruction: Instruction::Sbc,
                addressing_mode: AddressingMode::ZeroPageX,
                cycles: 4,
            },
        ),
        0xED => Some(
            DecodedInstruction {
                instruction: Instruction::Sbc,
                addressing_mode: AddressingMode::Absolute,
                cycles: 4,
            },
        ),
        0xFD => Some(
            DecodedInstruction {
                instruction: Instruction::Sbc,
                addressing_mode: AddressingMode::AbsoluteX,
                cycles: 4,
            },
        ),
        0xF9 => Some(
            DecodedInstruction {
                instruction: Instruction::Sbc,
                addressing_mode: AddressingMode::AbsoluteY,
                cycles: 4,
            },
        ),
        0xE1 => Some(
            DecodedInstruction {
                instruction: Instruction::Sbc,
                addressing_mode: AddressingMode::IndexedIndirect,
                cycles: 6,
            },
        ),
        0xF1 => Some(
            DecodedInstruction {
                instruction: Instruction::Sbc,
                addressing_mode: AddressingMode::IndirectIndexed,
                cycles: 5,
            },
        ),
        // STA
        0x85 => Some(
            DecodedInstruction {
                instruction: Instruction::Sta,
                addressing_mode: AddressingMode::ZeroPage,
                cycles: 3,
            },
        ),
        0x95 => Some(
            DecodedInstruction {
                instruction: Instruction::Sta,
                addressing_mode: AddressingMode::ZeroPageX,
                cycles: 4,
            },
        ),
        0x8D => Some(
            DecodedInstruction {
                instruction: Instruction::Sta,
                addressing_mode: AddressingMode::Absolute,
                cycles: 4,
            },
        ),
        0x9D => Some(
            DecodedInstruction {
                instruction: Instruction::Sta,
                addressing_mode: AddressingMode::AbsoluteX,
                cycles: 5,
            },
        ),
        0x99 => Some(
            DecodedInstruction {
                instruction: Instruction::Sta,
                addressing_mode: AddressingMode::AbsoluteY,
                cycles: 5,
            },
        ),
        0x81 => Some(
            DecodedInstruction {
                instruction: Instruction::Sta,
                addressing_mode: AddressingMode::IndexedIndirect,
                cycles: 6,
            },
        ),
        0x91 => Some(
            DecodedInstruction {
                instruction: Instruction::Sta,
                addressing_mode: AddressingMode::IndirectIndexed,
                cycles: 6,
            },
        ),
        // STX
        0x86 => Some(
            DecodedInstruction {
                instruction: Instruction::Stx,
                addressing_mode: AddressingMode::ZeroPage,
                cycles: 3,
            },
        ),
        0x96 => Some(
            DecodedInstruction {
                instruction: Instruction::Stx,
                addressing_mode: AddressingMode::ZeroPageY,
                cycles: 4,
            },
        ),
        0x8E => Some(
            DecodedInstruction {
                instruction: Instruction::Stx,
                addressing_mode: AddressingMode::Absolute,
                cycles: 4,
            },
        ),
        // STY
        0x84 => Some(
            DecodedInstruction {
                instruction: Instruction::Sty,
                addressing_mode: AddressingMode::ZeroPage,
                cycles: 3,
            },
        ),
        0x94 => Some(
            DecodedInstruction {
                instruction: Instruction::Sty,
                addressing_mode: AddressingMode::ZeroPageX,
                cycles: 4,
            },
        ),
        0x8C => Some(
            DecodedInstruction {
                instruction: Instruction::Sty,
                addressing_mode: AddressingMode::Absolute,
                cycles: 4,
            },
        ),
        // Transfers
        0xAA => Some(
            DecodedInstruction {
                instruction: Instruction::Tax,
                addressing_mode: AddressingMode::Implied,
                cycles: 2,
            },
        ),
        0xA8 => Some(
            DecodedInstruction {
                instruction: Instruction::Tay,
                addressing_mode: AddressingMode::Implied,
                cycles: 2,
            },
        ),
        0xBA => Some(
            DecodedInstruction {
                instruction: Instruction::Tsx,
                addressing_mode: AddressingMode::Implied,
                cycles: 2,
            },
        ),
        0x8A => Some(
            DecodedInstruction {
                instruction: Instruction::Txa,
                addressing_mode: AddressingMode::Implied,
                cycles: 2,
            },
        ),
        0x9A => Some(
            DecodedInstruction {
                instruction: Instruction::Txs,
                addressing_mode: AddressingMode::Implied,
                cycles: 2,
            },
        ),
        0x98 => Some(
            DecodedInstruction {
                instruction: Instruction::Tya,
                addressing_mode: AddressingMode::Implied,
                cycles: 2,
            },
        ),
        _ => None,
    }
}

/// The meaning of one interpreter step on a decodable opcode: fetch the
/// opcode at PC, resolve the addressing mode, execute the operation, and
/// charge the base cycles plus the mode's page-cross penalty (for the
/// page-cross-sensitive read operations only) plus the operation's own
/// extra cycles.  On an opcode outside the table the state is returned
/// unchanged; `CPU::step` excludes that case by precondition.
pub open spec fn spec_step(s: CpuState) -> CpuState {
    let (s0, opcode) = spec_fetch_byte(s);
    match spec_decode(opcode) {
        Some(d) => {
            let (s1, addr, mode_extra) = d.addressing_mode.spec_resolve(s0);
            let (s2, op_extra) = spec_execute(d.instruction, s1, addr);
            let applied: u8 = if d.instruction.spec_page_cross_sensitive() {
                mode_extra
            } else {
                0
            };
            CpuState {
                cycles: s2.cycles.wrapping_add((d.cycles + applied + op_extra) as u64),
                ..s2
            }
        },
        None => s,
    }
}

impl<B: Bus> CPU<B> {
    /// Attempts one instruction: fetches the opcode at PC and, when the
    /// opcode table knows it, resolves the addressing mode, runs the
    /// operation and accumulates the cycle cost, returning `None`.  On a
    /// byte outside the table nothing more than the opcode fetch happens:
    /// the offending opcode and the PC after its fetch come back for the
    /// caller's illegal-opcode policy, and no cycles are charged.
    pub fn try_step(&mut self) -> (halted: Option<(u8, u16)>)
        ensures
            ({
                let (s0, opcode) = spec_fetch_byte(old(self)@);
                match spec_decode(opcode) {
                    Some(_d) => final(self)@ == spec_step(old(self)@) && halted.is_none(),
                    None => final(self)@ == s0 && halted == Some((opcode, s0.regs.pc)),
                }
            }),
    {
        let opcode = self.fetch_byte();
        match decode(opcode) {
            Some(decoded_instruction) => {
                let (addr, addr_additional_cycles) = decoded_instruction.addressing_mode.execute(
                    self,
                );
                let instr_additional_cycles = decoded_instruction.instruction.execute(self, addr);
                let applied: u8 = if decoded_instruction.instruction.page_cross_sensitive() {
                    addr_additional_cycles
                } else {
                    0
                };
                let total_cycles: u64 = decoded_instruction.cycles as u64 + applied as u64
                    + instr_additional_cycles as u64;
                self.cycles = self.cycles.wrapping_add(total_cycles);
                None
            },
            None => Some((opcode, self.registers.pc)),
        }
    }

    /// Executes one instruction: fetches and decodes the opcode at PC,
    /// resolves its addressing mode, runs the operation, and accumulates
    /// the cycle cost.  The opcode at PC must be in the opcode table;
    /// [`CPU::try_step`] is the total form for callers that cannot promise
    /// that.
    pub fn step(&mut self)
        requires
            spec_decode(old(self)@.mem[old(self)@.regs.pc]).is_some(),
        ensures
            final(self)@ == spec_step(old(self)@),
    {
        let _halted = self.try_step();
    }
}

} // verus!

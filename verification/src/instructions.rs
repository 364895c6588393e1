//! The operation set of the 6502.
//!
//! Each operation is an executable function taking the CPU and the resolved
//! effective address, returning the extra cycles the operation itself
//! contributes (branch penalties only).  Its contract equates the machine
//! state after the call with a spec-level transformer of [`CpuState`];
//! those transformers, composed by the interpreter, form the mathematical
//! meaning of every opcode.

use vstd::prelude::*;

use crate::bus::Bus;
use crate::cpu::{spec_branch, spec_stack_pop, spec_stack_push, CPU};
use crate::registers::{Registers, StatusFlags};
use crate::state::{hi8, hi_byte, lo8, lo_byte, make_word, CpuState};

verus! {

/// One operation of the instruction set.  Shift and rotate operations have
/// distinct accumulator and memory forms, since one mutates A and the other
/// mutates the addressed byte.
#[derive(Debug, Clone, Copy, PartialEq, Eq, Structural)]
pub enum Instruction {
    /// Add with carry.
    Adc,
    /// Bitwise AND into A.
    And,
    /// Arithmetic shift left of a memory byte.
    Asl,
    /// Arithmetic shift left of A.
    AslAccumulator,
    /// Branch if carry clear.
    Bcc,
    /// Branch if carry set.
    Bcs,
    /// Branch if zero set.
    Beq,
    /// Bit test of A against a memory byte.
    Bit,
    /// Branch if negative set.
    Bmi,
    /// Branch if zero clear.
    Bne,
    /// Branch if negative clear.
    Bpl,
    /// Force an interrupt.
    Brk,
    /// Branch if overflow clear.
    Bvc,
    /// Branch if overflow set.
    Bvs,
    /// Clear the carry flag.
    Clc,
    /// Clear the decimal-mode flag.
    Cld,
    /// Clear the interrupt-disable flag.
    Cli,
    /// Clear the overflow flag.
    Clv,
    /// Compare A with a memory byte.
    Cmp,
    /// Compare X with a memory byte.
    Cpx,
    /// Compare Y with a memory byte.
    Cpy,
    /// Decrement a memory byte.
    Dec,
    /// Decrement X.
    Dex,
    /// Decrement Y.
    Dey,
    /// Bitwise exclusive OR into A.
    Eor,
    /// Increment a memory byte.
    Inc,
    /// Increment X.
    Inx,
    /// Increment Y.
    Iny,
    /// Jump.
    Jmp,
    /// Jump to subroutine.
    Jsr,
    /// Load A.
    Lda,
    /// Load X.
    Ldx,
    /// Load Y.
    Ldy,
    /// Logical shift right of a memory byte.
    LsrMemory,
    /// Logical shift right of A.
    LsrAccumulator,
    /// No operation.
    Nop,
    /// Bitwise OR into A.
    Ora,
    /// Push A.
    Pha,
    /// Push the status byte.
    Php,
    /// Pull A.
    Pla,
    /// Pull the status byte.
    Plp,
    /// Rotate a memory byte left through carry.
    RolMemory,
    /// Rotate A left through carry.
    RolAccumulator,
    /// Rotate a memory byte right through carry.
    RorMemory,
    /// Rotate A right through carry.
    RorAccumulator,
    /// Return from interrupt.
    Rti,
    /// Return from subroutine.
    Rts,
    /// Subtract with carry.
    Sbc,
    /// Set the carry flag.
    Sec,
    /// Set the decimal-mode flag.
    Sed,
    /// Set the interrupt-disable flag.
    Sei,
    /// Store A.
    Sta,
    /// Store X.
    Stx,
    /// Store Y.
    Sty,
    /// Transfer A to X.
    Tax,
    /// Transfer A to Y.
    Tay,
    /// Transfer SP to X.
    Tsx,
    /// Transfer X to A.
    Txa,
    /// Transfer X to SP.
    Txs,
    /// Transfer Y to A.
    Tya,
}

impl Instruction {
    /// Whether this operation is one of the documented memory-read
    /// operations that pay one extra cycle when an indexed addressing mode
    /// crosses a page boundary.  Stores and read-modify-write operations
    /// never do: their tabled cycle count already assumes the worst case.
    pub open spec fn spec_page_cross_sensitive(self) -> bool {
        match self {
            Instruction::Adc => true,
            Instruction::And => true,
            Instruction::Cmp => true,
            Instruction::Eor => true,
            Instruction::Lda => true,
            Instruction::Ldx => true,
            Instruction::Ldy => true,
            Instruction::Ora => true,
            Instruction::Sbc => true,
            _ => false,
        }
    }

    /// Executable test for [`Instruction::spec_page_cross_sensitive`].
    pub fn page_cross_sensitive(&self) -> (sensitive: bool)
        ensures
            sensitive == self.spec_page_cross_sensitive(),
    {
        match self {
            Instruction::Adc => true,
            Instruction::And => true,
            Instruction::Cmp => true,
            Instruction::Eor => true,
            Instruction::Lda => true,
            Instruction::Ldx => true,
            Instruction::Ldy => true,
            Instruction::Ora => true,
            Instruction::Sbc => true,
            _ => false,
        }
    }
}

/// The decimal-mode ADC result and carry, following the NMOS nibble
/// algorithm: add the low nibbles with carry-in, adjust by 6 past 9, carry
/// into the high nibble sum, adjust that by 6 past 9; carry out reflects
/// BCD overflow of the high nibble.
pub open spec fn spec_adc_decimal(a: u8, value: u8, carry_in: u8) -> (u8, bool) {
    let al0 = ((a & 0x0F) + (value & 0x0F) + carry_in) as u16;
    let ah0 = ((a >> 4) + (value >> 4)) as u16;
    let al1 = if al0 > 9 {
        (al0 + 6) as u16
    } else {
        al0
    };
    let ah1 = if al1 > 0x0F {
        (ah0 + 1) as u16
    } else {
        ah0
    };
    let al2 = if al1 > 0x0F {
        al1 & 0x0F
    } else {
        al1
    };
    let ah2 = if ah1 > 9 {
        (ah1 + 6) as u16
    } else {
        ah1
    };
    (lo_byte((ah2 << 4) | (al2 & 0x0F)), ah2 > 0x0F)
}

/// ADC: add the addressed byte and the carry into A.
///
/// In binary mode C is the carry out of bit 7, V is the signed overflow,
/// and N and Z follow the result.  In decimal mode the nibble algorithm of
/// [`spec_adc_decimal`] runs instead and V is left unchanged.
pub open spec fn spec_adc(s: CpuState, addr: u16) -> (CpuState, u8) {
    let value = s.mem[addr];
    let a = s.regs.a;
    let carry_in: u8 = if s.regs.status.carry {
        1
    } else {
        0
    };
    if s.regs.status.decimal_mode {
        let (result, carry) = spec_adc_decimal(a, value, carry_in);
        let status = StatusFlags { carry, ..s.regs.status }.with_nz(result);
        (CpuState { regs: Registers { a: result, status, ..s.regs }, ..s }, 0)
    } else {
        let sum = (a + value + carry_in) as u16;
        let result = lo_byte(sum);
        let status = StatusFlags {
            carry: sum > 0xFF,
            overflow: ((!(a ^ value) & (a ^ result)) & 0x80) != 0,
            ..s.regs.status
        }.with_nz(result);
        (CpuState { regs: Registers { a: result, status, ..s.regs }, ..s }, 0)
    }
}

/// The decimal-mode SBC result, following the NMOS nibble algorithm: the
/// binary difference, corrected by 6 when the low nibble borrows and by
/// 0x60 when the whole difference borrows.
pub open spec fn spec_sbc_decimal(a: u8, value: u8, carry_in: u8) -> u8 {
    let temp0 = a - value - (1 - carry_in);
    let temp1 = if (a & 0x0F) < (value & 0x0F) + (1 - carry_in) {
        temp0 - 6
    } else {
        temp0
    };
    let temp2 = if temp1 < 0 {
        temp1 - 0x60
    } else {
        temp1
    };
    ((temp2 as i32) & 0xFF) as u8
}

/// SBC: subtract the addressed byte and the borrow (inverted carry) from A.
///
/// C is set when no borrow was needed, V is the signed overflow, and N and
/// Z follow the binary difference.  In decimal mode the flags still follow
/// the binary difference, while A receives the corrected BCD result of
/// [`spec_sbc_decimal`].
pub open spec fn spec_sbc(s: CpuState, addr: u16) -> (CpuState, u8) {
    let value = s.mem[addr];
    let a = s.regs.a;
    let carry_in: u8 = if s.regs.status.carry {
        1
    } else {
        0
    };
    let temp = (a as u16).wrapping_sub(value as u16).wrapping_sub((1 - carry_in) as u16);
    let binary = lo_byte(temp);
    let status = StatusFlags {
        carry: temp < 0x100,
        overflow: ((a ^ binary) & (a ^ value) & 0x80) != 0,
        ..s.regs.status
    }.with_nz(binary);
    let result = if s.regs.status.decimal_mode {
        spec_sbc_decimal(a, value, carry_in)
    } else {
        binary
    };
    (CpuState { regs: Registers { a: result, status, ..s.regs }, ..s }, 0)
}

/// AND: bitwise AND of the addressed byte into A; N and Z follow A.
pub open spec fn spec_and(s: CpuState, addr: u16) -> (CpuState, u8) {
    let result = s.regs.a & s.mem[addr];
    (
        CpuState {
            regs: Registers { a: result, status: s.regs.status.with_nz(result), ..s.regs },
            ..s
        },
        0,
    )
}

/// ORA: bitwise OR of the addressed byte into A; N and Z follow A.
pub open spec fn spec_ora(s: CpuState, addr: u16) -> (CpuState, u8) {
    let result = s.regs.a | s.mem[addr];
    (
        CpuState {
            regs: Registers { a: result, status: s.regs.status.with_nz(result), ..s.regs },
            ..s
        },
        0,
    )
}

/// EOR: bitwise exclusive OR of the addressed byte into A; N and Z follow A.
pub open spec fn spec_eor(s: CpuState, addr: u16) -> (CpuState, u8) {
    let result = s.regs.a ^ s.mem[addr];
    (
        CpuState {
            regs: Registers { a: result, status: s.regs.status.with_nz(result), ..s.regs },
            ..s
        },
        0,
    )
}

/// BIT: Z from A AND the addressed byte; N and V copy bits 7 and 6 of the
/// byte; A is untouched.
pub open spec fn spec_bit(s: CpuState, addr: u16) -> (CpuState, u8) {
    let value = s.mem[addr];
    let status = StatusFlags {
        zero: (s.regs.a & value) == 0,
        overflow: (value & 0x40) != 0,
        negative: (value & 0x80) != 0,
        ..s.regs.status
    };
    (CpuState { regs: Registers { status, ..s.regs }, ..s }, 0)
}

/// ASL on memory: shift the addressed byte left; bit 7 moves into C, N and
/// Z follow the result.
pub open spec fn spec_asl(s: CpuState, addr: u16) -> (CpuState, u8) {
    let value = s.mem[addr];
    let result = value << 1;
    let status = StatusFlags { carry: (value & 0x80) != 0, ..s.regs.status }.with_nz(result);
    (
        CpuState {
            regs: Registers { status, ..s.regs },
            mem: s.mem.insert(addr, result),
            ..s
        },
        0,
    )
}

/// ASL on A: shift A left; bit 7 moves into C, N and Z follow the result.
pub open spec fn spec_asl_accumulator(s: CpuState) -> (CpuState, u8) {
    let value = s.regs.a;
    let result = value << 1;
    let status = StatusFlags { carry: (value & 0x80) != 0, ..s.regs.status }.with_nz(result);
    (CpuState { regs: Registers { a: result, status, ..s.regs }, ..s }, 0)
}

/// LSR on memory: shift the addressed byte right; bit 0 moves into C, N
/// clears, Z follows the result.
pub open spec fn spec_lsr_memory(s: CpuState, addr: u16) -> (CpuState, u8) {
    let value = s.mem[addr];
    let result = value >> 1;
    let status = StatusFlags { carry: (value & 0x01) != 0, ..s.regs.status }.with_nz(result);
    (
        CpuState {
            regs: Registers { status, ..s.regs },
            mem: s.mem.insert(addr, result),
            ..s
        },
        0,
    )
}

/// LSR on A: shift A right; bit 0 moves into C, N clears, Z follows the
/// result.
pub open spec fn spec_lsr_accumulator(s: CpuState) -> (CpuState, u8) {
    let value = s.regs.a;
    let result = value >> 1;
    let status = StatusFlags { carry: (value & 0x01) != 0, ..s.regs.status }.with_nz(result);
    (CpuState { regs: Registers { a: result, status, ..s.regs }, ..s }, 0)
}

/// ROL on memory: rotate the addressed byte left through C; bit 7 moves
/// into C, the old C enters bit 0, N and Z follow the result.
pub open spec fn spec_rol_memory(s: CpuState, addr: u16) -> (CpuState, u8) {
    let value = s.mem[addr];
    let old_carry: u8 = if s.regs.status.carry {
        1
    } else {
        0
    };
    let result = (value << 1) | old_carry;
    let status = StatusFlags { carry: (value & 0x80) != 0, ..s.regs.status }.with_nz(result);
    (
        CpuState {
            regs: Registers { status, ..s.regs },
            mem: s.mem.insert(addr, result),
            ..s
        },
        0,
    )
}

/// ROL on A: rotate A left through C; bit 7 moves into C, the old C enters
/// bit 0, N and Z follow the result.
pub open spec fn spec_rol_accumulator(s: CpuState) -> (CpuState, u8) {
    let value = s.regs.a;
    let old_carry: u8 = if s.regs.status.carry {
        1
    } else {
        0
    };
    let result = (value << 1) | old_carry;
    let status = StatusFlags { carry: (value & 0x80) != 0, ..s.regs.status }.with_nz(result);
    (CpuState { regs: Registers { a: result, status, ..s.regs }, ..s }, 0)
}

/// ROR on memory: rotate the addressed byte right through C; bit 0 moves
/// into C, the old C enters bit 7, N and Z follow the result.
pub open spec fn spec_ror_memory(s: CpuState, addr: u16) -> (CpuState, u8) {
    let value = s.mem[addr];
    let old_carry: u8 = if s.regs.status.carry {
        1
    } else {
        0
    };
    let result = (value >> 1) | (old_carry << 7);
    let status = StatusFlags { carry: (value & 0x01) != 0, ..s.regs.status }.with_nz(result);
    (
        CpuState {
            regs: Registers { status, ..s.regs },
            mem: s.mem.insert(addr, result),
            ..s
        },
        0,
    )
}

/// ROR on A: rotate A right through C; bit 0 moves into C, the old C enters
/// bit 7, N and Z follow the result.
pub open spec fn spec_ror_accumulator(s: CpuState) -> (CpuState, u8) {
    let value = s.regs.a;
    let old_carry: u8 = if s.regs.status.carry {
        1
    } else {
        0
    };
    let result = (value >> 1) | (old_carry << 7);
    let status = StatusFlags { carry: (value & 0x01) != 0, ..s.regs.status }.with_nz(result);
    (CpuState { regs: Registers { a: result, status, ..s.regs }, ..s }, 0)
}

/// A compare: C when `reg >= value`, Z when equal, N from bit 7 of the
/// wrapping difference.
pub open spec fn spec_compare(s: CpuState, reg: u8, addr: u16) -> CpuState {
    let value = s.mem[addr];
    let diff = reg.wrapping_sub(value);
    let status = StatusFlags {
        carry: reg >= value,
        zero: reg == value,
        negative: (diff & 0x80) != 0,
        ..s.regs.status
    };
    CpuState { regs: Registers { status, ..s.regs }, ..s }
}

/// CMP: compare A with the addressed byte.
pub open spec fn spec_cmp(s: CpuState, addr: u16) -> (CpuState, u8) {
    (spec_compare(s, s.regs.a, addr), 0)
}

/// CPX: compare X with the addressed byte.
pub open spec fn spec_cpx(s: CpuState, addr: u16) -> (CpuState, u8) {
    (spec_compare(s, s.regs.x, addr), 0)
}

/// CPY: compare Y with the addressed byte.
pub open spec fn spec_cpy(s: CpuState, addr: u16) -> (CpuState, u8) {
    (spec_compare(s, s.regs.y, addr), 0)
}

/// DEC: decrement the addressed byte, wrapping; N and Z follow the result.
pub open spec fn spec_dec(s: CpuState, addr: u16) -> (CpuState, u8) {
    let result = s.mem[addr].wrapping_sub(1);
    (
        CpuState {
            regs: Registers { status: s.regs.status.with_nz(result), ..s.regs },
            mem: s.mem.insert(addr, result),
            ..s
        },
        0,
    )
}

/// INC: increment the addressed byte, wrapping; N and Z follow the result.
pub open spec fn spec_inc(s: CpuState, addr: u16) -> (CpuState, u8) {
    let result = s.mem[addr].wrapping_add(1);
    (
        CpuState {
            regs: Registers { status: s.regs.status.with_nz(result), ..s.regs },
            mem: s.mem.insert(addr, result),
            ..s
        },
        0,
    )
}

/// DEX: decrement X, wrapping; N and Z follow X.
pub open spec fn spec_dex(s: CpuState) -> (CpuState, u8) {
    let result = s.regs.x.wrapping_sub(1);
    (
        CpuState {
            regs: Registers { x: result, status: s.regs.status.with_nz(result), ..s.regs },
            ..s
        },
        0,
    )
}

/// DEY: decrement Y, wrapping; N and Z follow Y.
pub open spec fn spec_dey(s: CpuState) -> (CpuState, u8) {
    let result = s.regs.y.wrapping_sub(1);
    (
        CpuState {
            regs: Registers { y: result, status: s.regs.status.with_nz(result), ..s.regs },
            ..s
        },
        0,
    )
}

/// INX: increment X, wrapping; N and Z follow X.
pub open spec fn spec_inx(s: CpuState) -> (CpuState, u8) {
    let result = s.regs.x.wrapping_add(1);
    (
        CpuState {
            regs: Registers { x: result, status: s.regs.status.with_nz(result), ..s.regs },
            ..s
        },
        0,
    )
}

/// INY: increment Y, wrapping; N and Z follow Y.
pub open spec fn spec_iny(s: CpuState) -> (CpuState, u8) {
    let result = s.regs.y.wrapping_add(1);
    (
        CpuState {
            regs: Registers { y: result, status: s.regs.status.with_nz(result), ..s.regs },
            ..s
        },
        0,
    )
}

/// LDA: load the addressed byte into A; N and Z follow A.
pub open spec fn spec_lda(s: CpuState, addr: u16) -> (CpuState, u8) {
    let value = s.mem[addr];
    (
        CpuState {
            regs: Registers { a: value, status: s.regs.status.with_nz(value), ..s.regs },
            ..s
        },
        0,
    )
}

/// LDX: load the addressed byte into X; N and Z follow X.
pub open spec fn spec_ldx(s: CpuState, addr: u16) -> (CpuState, u8) {
    let value = s.mem[addr];
    (
        CpuState {
            regs: Registers { x: value, status: s.regs.status.with_nz(value), ..s.regs },
            ..s
        },
        0,
    )
}

/// LDY: load the addressed byte into Y; N and Z follow Y.
pub open spec fn spec_ldy(s: CpuState, addr: u16) -> (CpuState, u8) {
    let value = s.mem[addr];
    (
        CpuState {
            regs: Registers { y: value, status: s.regs.status.with_nz(value), ..s.regs },
            ..s
        },
        0,
    )
}

/// STA: store A at the effective address; no flag changes.
pub open spec fn spec_sta(s: CpuState, addr: u16) -> (CpuState, u8) {
    (CpuState { mem: s.mem.insert(addr, s.regs.a), ..s }, 0)
}

/// STX: store X at the effective address; no flag changes.
pub open spec fn spec_stx(s: CpuState, addr: u16) -> (CpuState, u8) {
    (CpuState { mem: s.mem.insert(addr, s.regs.x), ..s }, 0)
}

/// STY: store Y at the effective address; no flag changes.
pub open spec fn spec_sty(s: CpuState, addr: u16) -> (CpuState, u8) {
    (CpuState { mem: s.mem.insert(addr, s.regs.y), ..s }, 0)
}

/// A conditional branch: when `taken`, jump to `addr` for 1 extra cycle,
/// or 2 when the target lies in another page; otherwise nothing changes.
pub open spec fn spec_branch_if(s: CpuState, addr: u16, taken: bool) -> (CpuState, u8) {
    if taken {
        spec_branch(s, addr)
    } else {
        (s, 0)
    }
}

/// BCC: branch when C is clear.
pub open spec fn spec_bcc(s: CpuState, addr: u16) -> (CpuState, u8) {
    spec_branch_if(s, addr, !s.regs.status.carry)
}

/// BCS: branch when C is set.
pub open spec fn spec_bcs(s: CpuState, addr: u16) -> (CpuState, u8) {
    spec_branch_if(s, addr, s.regs.status.carry)
}

/// BEQ: branch when Z is set.
pub open spec fn spec_beq(s: CpuState, addr: u16) -> (CpuState, u8) {
    spec_branch_if(s, addr, s.regs.status.zero)
}

/// BNE: branch when Z is clear.
pub open spec fn spec_bne(s: CpuState, addr: u16) -> (CpuState, u8) {
    spec_branch_if(s, addr, !s.regs.status.zero)
}

/// BMI: branch when N is set.
pub open spec fn spec_bmi(s: CpuState, addr: u16) -> (CpuState, u8) {
    spec_branch_if(s, addr, s.regs.status.negative)
}

/// BPL: branch when N is clear.
pub open spec fn spec_bpl(s: CpuState, addr: u16) -> (CpuState, u8) {
    spec_branch_if(s, addr, !s.regs.status.negative)
}

/// BVC: branch when V is clear.
pub open spec fn spec_bvc(s: CpuState, addr: u16) -> (CpuState, u8) {
    spec_branch_if(s, addr, !s.regs.status.overflow)
}

/// BVS: branch when V is set.
pub open spec fn spec_bvs(s: CpuState, addr: u16) -> (CpuState, u8) {
    spec_branch_if(s, addr, s.regs.status.overflow)
}

/// BRK: advance PC past the padding byte, stack PC high byte first, stack
/// the status byte with B and U set, set I, and load PC from the IRQ/BRK
/// vector at 0xFFFE/0xFFFF.
pub open spec fn spec_brk(s: CpuState) -> (CpuState, u8) {
    let pc1 = s.regs.pc.wrapping_add(1);
    let s0 = CpuState { regs: Registers { pc: pc1, ..s.regs }, ..s };
    let s1 = spec_stack_push(s0, hi_byte(pc1));
    let s2 = spec_stack_push(s1, lo_byte(pc1));
    let pushed = s.regs.status.spec_to_byte() | 0x10u8 | 0x20u8;
    let s3 = spec_stack_push(s2, pushed);
    let pc = make_word(s3.mem[0xFFFE], s3.mem[0xFFFF]);
    (
        CpuState {
            regs: Registers {
                pc,
                status: StatusFlags { interrupt_disable: true, ..s.regs.status },
                ..s3.regs
            },
            ..s3
        },
        0,
    )
}

/// JMP: load PC with the effective address.
pub open spec fn spec_jmp(s: CpuState, addr: u16) -> (CpuState, u8) {
    (CpuState { regs: Registers { pc: addr, ..s.regs }, ..s }, 0)
}

/// JSR: stack PC minus one, high byte first, then load PC with the
/// effective address.
pub open spec fn spec_jsr(s: CpuState, addr: u16) -> (CpuState, u8) {
    let ret = s.regs.pc.wrapping_sub(1);
    let s1 = spec_stack_push(s, hi_byte(ret));
    let s2 = spec_stack_push(s1, lo_byte(ret));
    (CpuState { regs: Registers { pc: addr, ..s2.regs }, ..s2 }, 0)
}

/// RTS: pop the return address, low byte first, and resume one byte past
/// it.
pub open spec fn spec_rts(s: CpuState) -> (CpuState, u8) {
    let (s1, lo) = spec_stack_pop(s);
    let (s2, hi) = spec_stack_pop(s1);
    (
        CpuState {
            regs: Registers { pc: make_word(lo, hi).wrapping_add(1), ..s2.regs },
            ..s2
        },
        0,
    )
}

/// RTI: pop the status byte, restoring N, V, D, I, Z and C while the
/// effective B stays 0 and U stays 1, then pop PC, low byte first, with no
/// adjustment.
pub open spec fn spec_rti(s: CpuState) -> (CpuState, u8) {
    let (s1, status_byte) = spec_stack_pop(s);
    let status = StatusFlags {
        break_mode: false,
        unused: true,
        ..StatusFlags::spec_from_byte(status_byte)
    };
    let (s2, lo) = spec_stack_pop(s1);
    let (s3, hi) = spec_stack_pop(s2);
    (
        CpuState {
            regs: Registers { pc: make_word(lo, hi), status, ..s3.regs },
            ..s3
        },
        0,
    )
}

/// PHA: push A; no flag changes.
pub open spec fn spec_pha(s: CpuState) -> (CpuState, u8) {
    (spec_stack_push(s, s.regs.a), 0)
}

/// PHP: push the status byte with B and U set; the flags themselves are
/// unchanged.
pub open spec fn spec_php(s: CpuState) -> (CpuState, u8) {
    (spec_stack_push(s, s.regs.status.spec_to_byte() | 0x10u8 | 0x20u8), 0)
}

/// PLA: pop into A; N and Z follow A.
pub open spec fn spec_pla(s: CpuState) -> (CpuState, u8) {
    let (s1, value) = spec_stack_pop(s);
    (
        CpuState {
            regs: Registers { a: value, status: s1.regs.status.with_nz(value), ..s1.regs },
            ..s1
        },
        0,
    )
}

/// PLP: pop the status byte, restoring N, V, D, I, Z and C while the
/// effective B stays 0 and U stays 1.
pub open spec fn spec_plp(s: CpuState) -> (CpuState, u8) {
    let (s1, status_byte) = spec_stack_pop(s);
    let status = StatusFlags {
        break_mode: false,
        unused: true,
        ..StatusFlags::spec_from_byte(status_byte)
    };
    (CpuState { regs: Registers { status, ..s1.regs }, ..s1 }, 0)
}

/// A single-flag mutation; every other part of the state is unchanged.
pub open spec fn spec_with_status(s: CpuState, status: StatusFlags) -> (CpuState, u8) {
    (CpuState { regs: Registers { status, ..s.regs }, ..s }, 0)
}

/// CLC: clear C.
pub open spec fn spec_clc(s: CpuState) -> (CpuState, u8) {
    spec_with_status(s, StatusFlags { carry: false, ..s.regs.status })
}

/// SEC: set C.
pub open spec fn spec_sec(s: CpuState) -> (CpuState, u8) {
    spec_with_status(s, StatusFlags { carry: true, ..s.regs.status })
}

/// CLD: clear D.
pub open spec fn spec_cld(s: CpuState) -> (CpuState, u8) {
    spec_with_status(s, StatusFlags { decimal_mode: false, ..s.regs.status })
}

/// SED: set D.
pub open spec fn spec_sed(s: CpuState) -> (CpuState, u8) {
    spec_with_status(s, StatusFlags { decimal_mode: true, ..s.regs.status })
}

/// CLI: clear I.
pub open spec fn spec_cli(s: CpuState) -> (CpuState, u8) {
    spec_with_status(s, StatusFlags { interrupt_disable: false, ..s.regs.status })
}

/// SEI: set I.
pub open spec fn spec_sei(s: CpuState) -> (CpuState, u8) {
    spec_with_status(s, StatusFlags { interrupt_disable: true, ..s.regs.status })
}

/// CLV: clear V.
pub open spec fn spec_clv(s: CpuState) -> (CpuState, u8) {
    spec_with_status(s, StatusFlags { overflow: false, ..s.regs.status })
}

/// NOP: nothing changes.
pub open spec fn spec_nop(s: CpuState) -> (CpuState, u8) {
    (s, 0)
}

/// TAX: copy A to X; N and Z follow the copied value.
pub open spec fn spec_tax(s: CpuState) -> (CpuState, u8) {
    let value = s.regs.a;
    (
        CpuState {
            regs: Registers { x: value, status: s.regs.status.with_nz(value), ..s.regs },
            ..s
        },
        0,
    )
}

/// TAY: copy A to Y; N and Z follow the copied value.
pub open spec fn spec_tay(s: CpuState) -> (CpuState, u8) {
    let value = s.regs.a;
    (
        CpuState {
            regs: Registers { y: value, status: s.regs.status.with_nz(value), ..s.regs },
            ..s
        },
        0,
    )
}

/// TSX: copy SP to X; N and Z follow the copied value.
pub open spec fn spec_tsx(s: CpuState) -> (CpuState, u8) {
    let value = s.regs.sp;
    (
        CpuState {
            regs: Registers { x: value, status: s.regs.status.with_nz(value), ..s.regs },
            ..s
        },
        0,
    )
}

/// TXA: copy X to A; N and Z follow the copied value.
pub open spec fn spec_txa(s: CpuState) -> (CpuState, u8) {
    let value = s.regs.x;
    (
        CpuState {
            regs: Registers { a: value, status: s.regs.status.with_nz(value), ..s.regs },
            ..s
        },
        0,
    )
}

/// TXS: copy X to SP; no flag changes.
pub open spec fn spec_txs(s: CpuState) -> (CpuState, u8) {
    (CpuState { regs: Registers { sp: s.regs.x, ..s.regs }, ..s }, 0)
}

/// TYA: copy Y to A; N and Z follow the copied value.
pub open spec fn spec_tya(s: CpuState) -> (CpuState, u8) {
    let value = s.regs.y;
    (
        CpuState {
            regs: Registers { a: value, status: s.regs.status.with_nz(value), ..s.regs },
            ..s
        },
        0,
    )
}

/// The meaning of one operation: the state after executing it at effective
/// address `addr`, together with the extra cycles it contributes.
pub open spec fn spec_execute(i: Instruction, s: CpuState, addr: u16) -> (CpuState, u8) {
    match i {
        Instruction::Adc => spec_adc(s, addr),
        Instruction::And => spec_and(s, addr),
        Instruction::Asl => spec_asl(s, addr),
        Instruction::AslAccumulator => spec_asl_accumulator(s),
        Instruction::Bcc => spec_bcc(s, addr),
        Instruction::Bcs => spec_bcs(s, addr),
        Instruction::Beq => spec_beq(s, addr),
        Instruction::Bit => spec_bit(s, addr),
        Instruction::Bmi => spec_bmi(s, addr),
        Instruction::Bne => spec_bne(s, addr),
        Instruction::Bpl => spec_bpl(s, addr),
        Instruction::Brk => spec_brk(s),
        Instruction::Bvc => spec_bvc(s, addr),
        Instruction::Bvs => spec_bvs(s, addr),
        Instruction::Clc => spec_clc(s),
        Instruction::Cld => spec_cld(s),
        Instruction::Cli => spec_cli(s),
        Instruction::Clv => spec_clv(s),
        Instruction::Cmp => spec_cmp(s, addr),
        Instruction::Cpx => spec_cpx(s, addr),
        Instruction::Cpy => spec_cpy(s, addr),
        Instruction::Dec => spec_dec(s, addr),
        Instruction::Dex => spec_dex(s),
        Instruction::Dey => spec_dey(s),
        Instruction::Eor => spec_eor(s, addr),
        Instruction::Inc => spec_inc(s, addr),
        Instruction::Inx => spec_inx(s),
        Instruction::Iny => spec_iny(s),
        Instruction::Jmp => spec_jmp(s, addr),
        Instruction::Jsr => spec_jsr(s, addr),
        Instruction::Lda => spec_lda(s, addr),
        Instruction::Ldx => spec_ldx(s, addr),
        Instruction::Ldy => spec_ldy(s, addr),
        Instruction::LsrMemory => spec_lsr_memory(s, addr),
        Instruction::LsrAccumulator => spec_lsr_accumulator(s),
        Instruction::Nop => spec_nop(s),
        Instruction::Ora => spec_ora(s, addr),
        Instruction::Pha => spec_pha(s),
        Instruction::Php => spec_php(s),
        Instruction::Pla => spec_pla(s),
        Instruction::Plp => spec_plp(s),
        Instruction::RolMemory => spec_rol_memory(s, addr),
        Instruction::RolAccumulator => spec_rol_accumulator(s),
        Instruction::RorMemory => spec_ror_memory(s, addr),
        Instruction::RorAccumulator => spec_ror_accumulator(s),
        Instruction::Rti => spec_rti(s),
        Instruction::Rts => spec_rts(s),
        Instruction::Sbc => spec_sbc(s, addr),
        Instruction::Sec => spec_sec(s),
        Instruction::Sed => spec_sed(s),
        Instruction::Sei => spec_sei(s),
        Instruction::Sta => spec_sta(s, addr),
        Instruction::Stx => spec_stx(s, addr),
        Instruction::Sty => spec_sty(s, addr),
        Instruction::Tax => spec_tax(s),
        Instruction::Tay => spec_tay(s),
        Instruction::Tsx => spec_tsx(s),
        Instruction::Txa => spec_txa(s),
        Instruction::Txs => spec_txs(s),
        Instruction::Tya => spec_tya(s),
    }
}

impl Instruction {
    /// Executes this operation against the CPU at effective address `addr`
    /// and returns the extra cycles it contributes.
    pub fn execute<B: Bus>(&self, cpu: &mut CPU<B>, addr: u16) -> (extra: u8)
        ensures
            ({
                let (s, e) = spec_execute(*self, old(cpu)@, addr);
                final(cpu)@ == s && extra == e
            }),
    {
        match self {
            Instruction::Adc => adc(cpu, addr),
            Instruction::And => and(cpu, addr),
            Instruction::Asl => asl(cpu, addr),
            Instruction::AslAccumulator => asl_accumulator(cpu, addr),
            Instruction::Bcc => bcc(cpu, addr),
            Instruction::Bcs => bcs(cpu, addr),
            Instruction::Beq => beq(cpu, addr),
            Instruction::Bit => bit(cpu, addr),
            Instruction::Bmi => bmi(cpu, addr),
            Instruction::Bne => bne(cpu, addr),
            Instruction::Bpl => bpl(cpu, addr),
            Instruction::Brk => brk(cpu, addr),
            Instruction::Bvc => bvc(cpu, addr),
            Instruction::Bvs => bvs(cpu, addr),
            Instruction::Clc => clc(cpu, addr),
            Instruction::Cld => cld(cpu, addr),
            Instruction::Cli => cli(cpu, addr),
            Instruction::Clv => clv(cpu, addr),
            Instruction::Cmp => cmp(cpu, addr),
            Instruction::Cpx => cpx(cpu, addr),
            Instruction::Cpy => cpy(cpu, addr),
            Instruction::Dec => dec(cpu, addr),
            Instruction::Dex => dex(cpu, addr),
            Instruction::Dey => dey(cpu, addr),
            Instruction::Eor => eor(cpu, addr),
            Instruction::Inc => inc(cpu, addr),
            Instruction::Inx => inx(cpu, addr),
            Instruction::Iny => iny(cpu, addr),
            Instruction::Jmp => jmp(cpu, addr),
            Instruction::Jsr => jsr(cpu, addr),
            Instruction::Lda => lda(cpu, addr),
            Instruction::Ldx => ldx(cpu, addr),
            Instruction::Ldy => ldy(cpu, addr),
            Instruction::LsrMemory => lsr_memory(cpu, addr),
            Instruction::LsrAccumulator => lsr_accumulator(cpu, addr),
            Instruction::Nop => nop(cpu, addr),
            Instruction::Ora => ora(cpu, addr),
            Instruction::Pha => pha(cpu, addr),
            Instruction::Php => php(cpu, addr),
            Instruction::Pla => pla(cpu, addr),
            Instruction::Plp => plp(cpu, addr),
            Instruction::RolMemory => rol_memory(cpu, addr),
            Instruction::RolAccumulator => rol_accumulator(cpu, addr),
            Instruction::RorMemory => ror_memory(cpu, addr),
            Instruction::RorAccumulator => ror_accumulator(cpu, addr),
            Instruction::Rti => rti(cpu, addr),
            Instruction::Rts => rts(cpu, addr),
            Instruction::Sbc => sbc(cpu, addr),
            Instruction::Sec => sec(cpu, addr),
            Instruction::Sed => sed(cpu, addr),
            Instruction::Sei => sei(cpu, addr),
            Instruction::Sta => sta(cpu, addr),
            Instruction::Stx => stx(cpu, addr),
            Instruction::Sty => sty(cpu, addr),
            Instruction::Tax => tax(cpu, addr),
            Instruction::Tay => tay(cpu, addr),
            Instruction::Tsx => tsx(cpu, addr),
            Instruction::Txa => txa(cpu, addr),
            Instruction::Txs => txs(cpu, addr),
            Instruction::Tya => tya(cpu, addr),
        }
    }
}

/// ADC - Add with Carry; see [`spec_adc`].
pub fn adc<B: Bus>(cpu: &mut CPU<B>, addr: u16) -> (extra: u8)
    ensures
        ({
            let (s, e) = spec_adc(old(cpu)@, addr);
            final(cpu)@ == s && extra == e
        }),
{
    let value = cpu.bus.read(addr);
    let a = cpu.registers.a;
    let carry_in: u8 = if cpu.registers.status.carry {
        1
    } else {
        0
    };
    if cpu.registers.status.decimal_mode {
        let mut al: u16 = (a & 0x0F) as u16 + (value & 0x0F) as u16 + carry_in as u16;
        let mut ah: u16 = (a >> 4) as u16 + (value >> 4) as u16;
        if al > 9 {
            al = al + 6;
        }
        if al > 0x0F {
            ah = ah + 1;
            al = al & 0x0F;
        }
        if ah > 9 {
            ah = ah + 6;
        }
        let result = lo8((ah << 4u16) | (al & 0x0F));
        cpu.registers.status.carry = ah > 0x0F;
        cpu.registers.status.zero = result == 0;
        cpu.registers.status.negative = (result & 0x80) != 0;
        cpu.registers.a = result;
    } else {
        let sum: u16 = (a as u16) + (value as u16) + (carry_in as u16);
        let result = lo8(sum);
        cpu.registers.status.carry = sum > 0xFF;
        cpu.registers.status.zero = result == 0;
        cpu.registers.status.negative = (result & 0x80) != 0;
        cpu.registers.status.overflow = ((!(a ^ value) & (a ^ result)) & 0x80) != 0;
        cpu.registers.a = result;
    }
    0
}

/// SBC - Subtract with Carry; see [`spec_sbc`].
pub fn sbc<B: Bus>(cpu: &mut CPU<B>, addr: u16) -> (extra: u8)
    ensures
        ({
            let (s, e) = spec_sbc(old(cpu)@, addr);
            final(cpu)@ == s && extra == e
        }),
{
    let value = cpu.bus.read(addr);
    let a = cpu.registers.a;
    let carry_in: u8 = if cpu.registers.status.carry {
        1
    } else {
        0
    };
    let temp: u16 = (a as u16).wrapping_sub(value as u16).wrapping_sub((1 - carry_in) as u16);
    let binary = lo8(temp);
    cpu.registers.status.carry = temp < 0x100;
    cpu.registers.status.zero = binary == 0;
    cpu.registers.status.negative = (binary & 0x80) != 0;
    cpu.registers.status.overflow = ((a ^ binary) & (a ^ value) & 0x80) != 0;
    if cpu.registers.status.decimal_mode {
        let t0: i32 = a as i32 - value as i32 - (1 - carry_in) as i32;
        let t1: i32 = if ((a & 0x0F) as i32) < ((value & 0x0F) as i32) + ((1 - carry_in) as i32) {
            t0 - 6
        } else {
            t0
        };
        let t2: i32 = if t1 < 0 {
            t1 - 0x60
        } else {
            t1
        };
        proof {
            assert(0 <= t2 & 0xFF && t2 & 0xFF < 256) by (bit_vector);
        }
        cpu.registers.a = (t2 & 0xFF) as u8;
    } else {
        cpu.registers.a = binary;
    }
    0
}

/// AND - Logical AND into A; see [`spec_and`].
pub fn and<B: Bus>(cpu: &mut CPU<B>, addr: u16) -> (extra: u8)
    ensures
        ({
            let (s, e) = spec_and(old(cpu)@, addr);
            final(cpu)@ == s && extra == e
        }),
{
    let value = cpu.bus.read(addr);
    cpu.registers.a &= value;
    let a = cpu.registers.a;
    cpu.update_zero_and_negative_flags(a);
    0
}

/// ORA - Logical OR into A; see [`spec_ora`].
pub fn ora<B: Bus>(cpu: &mut CPU<B>, addr: u16) -> (extra: u8)
    ensures
        ({
            let (s, e) = spec_ora(old(cpu)@, addr);
            final(cpu)@ == s && extra == e
        }),
{
    let value = cpu.bus.read(addr);
    cpu.registers.a |= value;
    let a = cpu.registers.a;
    cpu.update_zero_and_negative_flags(a);
    0
}

/// EOR - Exclusive OR into A; see [`spec_eor`].
pub fn eor<B: Bus>(cpu: &mut CPU<B>, addr: u16) -> (extra: u8)
    ensures
        ({
            let (s, e) = spec_eor(old(cpu)@, addr);
            final(cpu)@ == s && extra == e
        }),
{
    let m = cpu.bus.read(addr);
    let result = cpu.registers.a ^ m;
    cpu.registers.a = result;
    cpu.update_zero_and_negative_flags(result);
    0
}

/// BIT - Bit Test of A against memory; see [`spec_bit`].
pub fn bit<B: Bus>(cpu: &mut CPU<B>, addr: u16) -> (extra: u8)
    ensures
        ({
            let (s, e) = spec_bit(old(cpu)@, addr);
            final(cpu)@ == s && extra == e
        }),
{
    let value = cpu.bus.read(addr);
    let result = cpu.registers.a & value;
    cpu.registers.status.zero = result == 0;
    cpu.registers.status.overflow = (value & 0x40) != 0;
    cpu.registers.status.negative = (value & 0x80) != 0;
    0
}

/// ASL - Arithmetic Shift Left of a memory byte; see [`spec_asl`].
pub fn asl<B: Bus>(cpu: &mut CPU<B>, addr: u16) -> (extra: u8)
    ensures
        ({
            let (s, e) = spec_asl(old(cpu)@, addr);
            final(cpu)@ == s && extra == e
        }),
{
    let value = cpu.bus.read(addr);
    let result = value << 1u8;
    cpu.bus.write(addr, result);
    cpu.registers.status.carry = (value & 0x80) != 0;
    cpu.update_zero_and_negative_flags(result);
    0
}

/// ASL - Arithmetic Shift Left of A; see [`spec_asl_accumulator`].
pub fn asl_accumulator<B: Bus>(cpu: &mut CPU<B>, _addr: u16) -> (extra: u8)
    ensures
        ({
            let (s, e) = spec_asl_accumulator(old(cpu)@);
            final(cpu)@ == s && extra == e
        }),
{
    let value = cpu.registers.a;
    let result = value << 1u8;
    cpu.registers.a = result;
    cpu.registers.status.carry = (value & 0x80) != 0;
    cpu.update_zero_and_negative_flags(result);
    0
}

/// LSR - Logical Shift Right of A; see [`spec_lsr_accumulator`].
pub fn lsr_accumulator<B: Bus>(cpu: &mut CPU<B>, _addr: u16) -> (extra: u8)
    ensures
        ({
            let (s, e) = spec_lsr_accumulator(old(cpu)@);
            final(cpu)@ == s && extra == e
        }),
{
    let m = cpu.registers.a;
    let result = m >> 1u8;
    cpu.registers.status.carry = (m & 0x01) != 0;
    cpu.registers.a = result;
    cpu.update_zero_and_negative_flags(result);
    0
}

/// LSR - Logical Shift Right of a memory byte; see [`spec_lsr_memory`].
pub fn lsr_memory<B: Bus>(cpu: &mut CPU<B>, addr: u16) -> (extra: u8)
    ensures
        ({
            let (s, e) = spec_lsr_memory(old(cpu)@, addr);
            final(cpu)@ == s && extra == e
        }),
{
    let m = cpu.bus.read(addr);
    let result = m >> 1u8;
    cpu.registers.status.carry = (m & 0x01) != 0;
    cpu.bus.write(addr, result);
    cpu.update_zero_and_negative_flags(result);
    0
}

/// ROL - Rotate Left of A through carry; see [`spec_rol_accumulator`].
pub fn rol_accumulator<B: Bus>(cpu: &mut CPU<B>, _addr: u16) -> (extra: u8)
    ensures
        ({
            let (s, e) = spec_rol_accumulator(old(cpu)@);
            final(cpu)@ == s && extra == e
        }),
{
    let m = cpu.registers.a;
    let old_carry: u8 = if cpu.registers.status.carry {
        1
    } else {
        0
    };
    cpu.registers.status.carry = (m & 0x80) != 0;
    let result = (m << 1u8) | old_carry;
    cpu.registers.a = result;
    cpu.update_zero_and_negative_flags(result);
    0
}

/// ROL - Rotate Left of a memory byte through carry; see
/// [`spec_rol_memory`].
pub fn rol_memory<B: Bus>(cpu: &mut CPU<B>, addr: u16) -> (extra: u8)
    ensures
        ({
            let (s, e) = spec_rol_memory(old(cpu)@, addr);
            final(cpu)@ == s && extra == e
        }),
{
    let m = cpu.bus.read(addr);
    let old_carry: u8 = if cpu.registers.status.carry {
        1
    } else {
        0
    };
    cpu.registers.status.carry = (m & 0x80) != 0;
    let result = (m << 1u8) | old_carry;
    cpu.bus.write(addr, result);
    cpu.update_zero_and_negative_flags(result);
    0
}

/// ROR - Rotate Right of A through carry; see [`spec_ror_accumulator`].
pub fn ror_accumulator<B: Bus>(cpu: &mut CPU<B>, _addr: u16) -> (extra: u8)
    ensures
        ({
            let (s, e) = spec_ror_accumulator(old(cpu)@);
            final(cpu)@ == s && extra == e
        }),
{
    let m = cpu.registers.a;
    let old_carry: u8 = if cpu.registers.status.carry {
        1
    } else {
        0
    };
    cpu.registers.status.carry = (m & 0x01) != 0;
    let result = (m >> 1u8) | (old_carry << 7u8);
    cpu.registers.a = result;
    cpu.update_zero_and_negative_flags(result);
    0
}

/// ROR - Rotate Right of a memory byte through carry; see
/// [`spec_ror_memory`].
pub fn ror_memory<B: Bus>(cpu: &mut CPU<B>, addr: u16) -> (extra: u8)
    ensures
        ({
            let (s, e) = spec_ror_memory(old(cpu)@, addr);
            final(cpu)@ == s && extra == e
        }),
{
    let m = cpu.bus.read(addr);
    let old_carry: u8 = if cpu.registers.status.carry {
        1
    } else {
        0
    };
    cpu.registers.status.carry = (m & 0x01) != 0;
    let result = (m >> 1u8) | (old_carry << 7u8);
    cpu.bus.write(addr, result);
    cpu.update_zero_and_negative_flags(result);
    0
}

/// CMP - Compare A with memory; see [`spec_cmp`].
pub fn cmp<B: Bus>(cpu: &mut CPU<B>, addr: u16) -> (extra: u8)
    ensures
        ({
            let (s, e) = spec_cmp(old(cpu)@, addr);
            final(cpu)@ == s && extra == e
        }),
{
    let m = cpu.bus.read(addr);
    let result = cpu.registers.a.wrapping_sub(m);
    cpu.registers.status.carry = cpu.registers.a >= m;
    cpu.registers.status.zero = cpu.registers.a == m;
    cpu.registers.status.negative = (result & 0x80) != 0;
    0
}

/// CPX - Compare X with memory; see [`spec_cpx`].
pub fn cpx<B: Bus>(cpu: &mut CPU<B>, addr: u16) -> (extra: u8)
    ensures
        ({
            let (s, e) = spec_cpx(old(cpu)@, addr);
            final(cpu)@ == s && extra == e
        }),
{
    let m = cpu.bus.read(addr);
    let result = cpu.registers.x.wrapping_sub(m);
    cpu.registers.status.carry = cpu.registers.x >= m;
    cpu.registers.status.zero = cpu.registers.x == m;
    cpu.registers.status.negative = (result & 0x80) != 0;
    0
}

/// CPY - Compare Y with memory; see [`spec_cpy`].
pub fn cpy<B: Bus>(cpu: &mut CPU<B>, addr: u16) -> (extra: u8)
    ensures
        ({
            let (s, e) = spec_cpy(old(cpu)@, addr);
            final(cpu)@ == s && extra == e
        }),
{
    let m = cpu.bus.read(addr);
    let result = cpu.registers.y.wrapping_sub(m);
    cpu.registers.status.carry = cpu.registers.y >= m;
    cpu.registers.status.zero = cpu.registers.y == m;
    cpu.registers.status.negative = (result & 0x80) != 0;
    0
}

/// DEC - Decrement a memory byte; see [`spec_dec`].
pub fn dec<B: Bus>(cpu: &mut CPU<B>, addr: u16) -> (extra: u8)
    ensures
        ({
            let (s, e) = spec_dec(old(cpu)@, addr);
            final(cpu)@ == s && extra == e
        }),
{
    let m = cpu.bus.read(addr);
    let result = m.wrapping_sub(1);
    cpu.bus.write(addr, result);
    cpu.update_zero_and_negative_flags(result);
    0
}

/// INC - Increment a memory byte; see [`spec_inc`].
pub fn inc<B: Bus>(cpu: &mut CPU<B>, addr: u16) -> (extra: u8)
    ensures
        ({
            let (s, e) = spec_inc(old(cpu)@, addr);
            final(cpu)@ == s && extra == e
        }),
{
    let m = cpu.bus.read(addr);
    let result = m.wrapping_add(1);
    cpu.bus.write(addr, result);
    cpu.update_zero_and_negative_flags(result);
    0
}

/// DEX - Decrement X; see [`spec_dex`].
pub fn dex<B: Bus>(cpu: &mut CPU<B>, _addr: u16) -> (extra: u8)
    ensures
        ({
            let (s, e) = spec_dex(old(cpu)@);
            final(cpu)@ == s && extra == e
        }),
{
    cpu.registers.x = cpu.registers.x.wrapping_sub(1);
    let x = cpu.registers.x;
    cpu.update_zero_and_negative_flags(x);
    0
}

/// DEY - Decrement Y; see [`spec_dey`].
pub fn dey<B: Bus>(cpu: &mut CPU<B>, _addr: u16) -> (extra: u8)
    ensures
        ({
            let (s, e) = spec_dey(old(cpu)@);
            final(cpu)@ == s && extra == e
        }),
{
    cpu.registers.y = cpu.registers.y.wrapping_sub(1);
    let y = cpu.registers.y;
    cpu.update_zero_and_negative_flags(y);
    0
}

/// INX - Increment X; see [`spec_inx`].
pub fn inx<B: Bus>(cpu: &mut CPU<B>, _addr: u16) -> (extra: u8)
    ensures
        ({
            let (s, e) = spec_inx(old(cpu)@);
            final(cpu)@ == s && extra == e
        }),
{
    cpu.registers.x = cpu.registers.x.wrapping_add(1);
    let x = cpu.registers.x;
    cpu.update_zero_and_negative_flags(x);
    0
}

/// INY - Increment Y; see [`spec_iny`].
pub fn iny<B: Bus>(cpu: &mut CPU<B>, _addr: u16) -> (extra: u8)
    ensures
        ({
            let (s, e) = spec_iny(old(cpu)@);
            final(cpu)@ == s && extra == e
        }),
{
    cpu.registers.y = cpu.registers.y.wrapping_add(1);
    let y = cpu.registers.y;
    cpu.update_zero_and_negative_flags(y);
    0
}

/// LDA - Load A from memory; see [`spec_lda`].
pub fn lda<B: Bus>(cpu: &mut CPU<B>, addr: u16) -> (extra: u8)
    ensures
        ({
            let (s, e) = spec_lda(old(cpu)@, addr);
            final(cpu)@ == s && extra == e
        }),
{
    let value = cpu.bus.read(addr);
    cpu.registers.a = value;
    cpu.update_zero_and_negative_flags(value);
    0
}

/// LDX - Load X from memory; see [`spec_ldx`].
pub fn ldx<B: Bus>(cpu: &mut CPU<B>, addr: u16) -> (extra: u8)
    ensures
        ({
            let (s, e) = spec_ldx(old(cpu)@, addr);
            final(cpu)@ == s && extra == e
        }),
{
    let value = cpu.bus.read(addr);
    cpu.registers.x = value;
    cpu.update_zero_and_negative_flags(value);
    0
}

/// LDY - Load Y from memory; see [`spec_ldy`].
pub fn ldy<B: Bus>(cpu: &mut CPU<B>, addr: u16) -> (extra: u8)
    ensures
        ({
            let (s, e) = spec_ldy(old(cpu)@, addr);
            final(cpu)@ == s && extra == e
        }),
{
    let value = cpu.bus.read(addr);
    cpu.registers.y = value;
    cpu.update_zero_and_negative_flags(value);
    0
}

/// STA - Store A to memory; see [`spec_sta`].
pub fn sta<B: Bus>(cpu: &mut CPU<B>, addr: u16) -> (extra: u8)
    ensures
        ({
            let (s, e) = spec_sta(old(cpu)@, addr);
            final(cpu)@ == s && extra == e
        }),
{
    let a = cpu.registers.a;
    cpu.bus.write(addr, a);
    0
}

/// STX - Store X to memory; see [`spec_stx`].
pub fn stx<B: Bus>(cpu: &mut CPU<B>, addr: u16) -> (extra: u8)
    ensures
        ({
            let (s, e) = spec_stx(old(cpu)@, addr);
            final(cpu)@ == s && extra == e
        }),
{
    let x = cpu.registers.x;
    cpu.bus.write(addr, x);
    0
}

/// STY - Store Y to memory; see [`spec_sty`].
pub fn sty<B: Bus>(cpu: &mut CPU<B>, addr: u16) -> (extra: u8)
    ensures
        ({
            let (s, e) = spec_sty(old(cpu)@, addr);
            final(cpu)@ == s && extra == e
        }),
{
    let y = cpu.registers.y;
    cpu.bus.write(addr, y);
    0
}

/// BCC - Branch if Carry Clear; see [`spec_bcc`].
pub fn bcc<B: Bus>(cpu: &mut CPU<B>, addr: u16) -> (extra: u8)
    ensures
        ({
            let (s, e) = spec_bcc(old(cpu)@, addr);
            final(cpu)@ == s && extra == e
        }),
{
    if !cpu.registers.status.carry {
        cpu.branch(addr)
    } else {
        0
    }
}

/// BCS - Branch if Carry Set; see [`spec_bcs`].
pub fn bcs<B: Bus>(cpu: &mut CPU<B>, addr: u16) -> (extra: u8)
    ensures
        ({
            let (s, e) = spec_bcs(old(cpu)@, addr);
            final(cpu)@ == s && extra == e
        }),
{
    if cpu.registers.status.carry {
        cpu.branch(addr)
    } else {
        0
    }
}

/// BEQ - Branch if Equal (Z set); see [`spec_beq`].
pub fn beq<B: Bus>(cpu: &mut CPU<B>, addr: u16) -> (extra: u8)
    ensures
        ({
            let (s, e) = spec_beq(old(cpu)@, addr);
            final(cpu)@ == s && extra == e
        }),
{
    if cpu.registers.status.zero {
        cpu.branch(addr)
    } else {
        0
    }
}

/// BNE - Branch if Not Equal (Z clear); see [`spec_bne`].
pub fn bne<B: Bus>(cpu: &mut CPU<B>, addr: u16) -> (extra: u8)
    ensures
        ({
            let (s, e) = spec_bne(old(cpu)@, addr);
            final(cpu)@ == s && extra == e
        }),
{
    if !cpu.registers.status.zero {
        cpu.branch(addr)
    } else {
        0
    }
}

/// BMI - Branch if Minus (N set); see [`spec_bmi`].
pub fn bmi<B: Bus>(cpu: &mut CPU<B>, addr: u16) -> (extra: u8)
    ensures
        ({
            let (s, e) = spec_bmi(old(cpu)@, addr);
            final(cpu)@ == s && extra == e
        }),
{
    if cpu.registers.status.negative {
        cpu.branch(addr)
    } else {
        0
    }
}

/// BPL - Branch if Plus (N clear); see [`spec_bpl`].
pub fn bpl<B: Bus>(cpu: &mut CPU<B>, addr: u16) -> (extra: u8)
    ensures
        ({
            let (s, e) = spec_bpl(old(cpu)@, addr);
            final(cpu)@ == s && extra == e
        }),
{
    if !cpu.registers.status.negative {
        cpu.branch(addr)
    } else {
        0
    }
}

/// BVC - Branch if Overflow Clear; see [`spec_bvc`].
pub fn bvc<B: Bus>(cpu: &mut CPU<B>, addr: u16) -> (extra: u8)
    ensures
        ({
            let (s, e) = spec_bvc(old(cpu)@, addr);
            final(cpu)@ == s && extra == e
        }),
{
    if !cpu.registers.status.overflow {
        cpu.branch(addr)
    } else {
        0
    }
}

/// BVS - Branch if Overflow Set; see [`spec_bvs`].
pub fn bvs<B: Bus>(cpu: &mut CPU<B>, addr: u16) -> (extra: u8)
    ensures
        ({
            let (s, e) = spec_bvs(old(cpu)@, addr);
            final(cpu)@ == s && extra == e
        }),
{
    if cpu.registers.status.overflow {
        cpu.branch(addr)
    } else {
        0
    }
}

/// BRK - Force Interrupt; see [`spec_brk`].
pub fn brk<B: Bus>(cpu: &mut CPU<B>, _addr: u16) -> (extra: u8)
    ensures
        ({
            let (s, e) = spec_brk(old(cpu)@);
            final(cpu)@ == s && extra == e
        }),
{
    cpu.registers.pc = cpu.registers.pc.wrapping_add(1);
    let pc = cpu.registers.pc;
    cpu.stack_push(hi8(pc));
    cpu.stack_push(lo8(pc));
    let status = cpu.registers.status.to_byte() | 0x10u8 | 0x20u8;
    cpu.stack_push(status);
    cpu.registers.status.interrupt_disable = true;
    let lo = cpu.bus.read(0xFFFE);
    let hi = cpu.bus.read(0xFFFF);
    cpu.registers.pc = ((hi as u16) << 8u16) | (lo as u16);
    0
}

/// JMP - Jump; see [`spec_jmp`].
pub fn jmp<B: Bus>(cpu: &mut CPU<B>, addr: u16) -> (extra: u8)
    ensures
        ({
            let (s, e) = spec_jmp(old(cpu)@, addr);
            final(cpu)@ == s && extra == e
        }),
{
    cpu.registers.pc = addr;
    0
}

/// JSR - Jump to Subroutine; see [`spec_jsr`].
pub fn jsr<B: Bus>(cpu: &mut CPU<B>, addr: u16) -> (extra: u8)
    ensures
        ({
            let (s, e) = spec_jsr(old(cpu)@, addr);
            final(cpu)@ == s && extra == e
        }),
{
    let pc = cpu.registers.pc.wrapping_sub(1);
    let hi = hi8(pc);
    let lo = lo8(pc);
    cpu.stack_push(hi);
    cpu.stack_push(lo);
    cpu.registers.pc = addr;
    0
}

/// RTS - Return from Subroutine; see [`spec_rts`].
pub fn rts<B: Bus>(cpu: &mut CPU<B>, _addr: u16) -> (extra: u8)
    ensures
        ({
            let (s, e) = spec_rts(old(cpu)@);
            final(cpu)@ == s && extra == e
        }),
{
    let lo = cpu.stack_pop();
    let hi = cpu.stack_pop();
    let pc = ((hi as u16) << 8u16) | (lo as u16);
    cpu.registers.pc = pc.wrapping_add(1);
    0
}

/// RTI - Return from Interrupt; see [`spec_rti`].
pub fn rti<B: Bus>(cpu: &mut CPU<B>, _addr: u16) -> (extra: u8)
    ensures
        ({
            let (s, e) = spec_rti(old(cpu)@);
            final(cpu)@ == s && extra == e
        }),
{
    let status = cpu.stack_pop();
    cpu.registers.status.from_byte(status);
    cpu.registers.status.break_mode = false;
    cpu.registers.status.unused = true;
    let lo = cpu.stack_pop();
    let hi = cpu.stack_pop();
    let pc = ((hi as u16) << 8u16) | (lo as u16);
    cpu.registers.pc = pc;
    0
}

/// PHA - Push A; see [`spec_pha`].
pub fn pha<B: Bus>(cpu: &mut CPU<B>, _addr: u16) -> (extra: u8)
    ensures
        ({
            let (s, e) = spec_pha(old(cpu)@);
            final(cpu)@ == s && extra == e
        }),
{
    let a = cpu.registers.a;
    cpu.stack_push(a);
    0
}

/// PHP - Push the status byte with B and U set; see [`spec_php`].
pub fn php<B: Bus>(cpu: &mut CPU<B>, _addr: u16) -> (extra: u8)
    ensures
        ({
            let (s, e) = spec_php(old(cpu)@);
            final(cpu)@ == s && extra == e
        }),
{
    let status = cpu.registers.status.to_byte() | 0x10u8 | 0x20u8;
    cpu.stack_push(status);
    0
}

/// PLA - Pull A; see [`spec_pla`].
pub fn pla<B: Bus>(cpu: &mut CPU<B>, _addr: u16) -> (extra: u8)
    ensures
        ({
            let (s, e) = spec_pla(old(cpu)@);
            final(cpu)@ == s && extra == e
        }),
{
    let value = cpu.stack_pop();
    cpu.registers.a = value;
    cpu.update_zero_and_negative_flags(value);
    0
}

/// PLP - Pull the status byte; the effective B stays 0 and U stays 1; see
/// [`spec_plp`].
pub fn plp<B: Bus>(cpu: &mut CPU<B>, _addr: u16) -> (extra: u8)
    ensures
        ({
            let (s, e) = spec_plp(old(cpu)@);
            final(cpu)@ == s && extra == e
        }),
{
    let status = cpu.stack_pop();
    cpu.registers.status.from_byte(status);
    cpu.registers.status.break_mode = false;
    cpu.registers.status.unused = true;
    0
}

/// CLC - Clear Carry Flag; see [`spec_clc`].
pub fn clc<B: Bus>(cpu: &mut CPU<B>, _addr: u16) -> (extra: u8)
    ensures
        ({
            let (s, e) = spec_clc(old(cpu)@);
            final(cpu)@ == s && extra == e
        }),
{
    cpu.registers.status.carry = false;
    0
}

/// SEC - Set Carry Flag; see [`spec_sec`].
pub fn sec<B: Bus>(cpu: &mut CPU<B>, _addr: u16) -> (extra: u8)
    ensures
        ({
            let (s, e) = spec_sec(old(cpu)@);
            final(cpu)@ == s && extra == e
        }),
{
    cpu.registers.status.carry = true;
    0
}

/// CLD - Clear Decimal Mode; see [`spec_cld`].
pub fn cld<B: Bus>(cpu: &mut CPU<B>, _addr: u16) -> (extra: u8)
    ensures
        ({
            let (s, e) = spec_cld(old(cpu)@);
            final(cpu)@ == s && extra == e
        }),
{
    cpu.registers.status.decimal_mode = false;
    0
}

/// SED - Set Decimal Mode; see [`spec_sed`].
pub fn sed<B: Bus>(cpu: &mut CPU<B>, _addr: u16) -> (extra: u8)
    ensures
        ({
            let (s, e) = spec_sed(old(cpu)@);
            final(cpu)@ == s && extra == e
        }),
{
    cpu.registers.status.decimal_mode = true;
    0
}

/// CLI - Clear Interrupt Disable; see [`spec_cli`].
pub fn cli<B: Bus>(cpu: &mut CPU<B>, _addr: u16) -> (extra: u8)
    ensures
        ({
            let (s, e) = spec_cli(old(cpu)@);
            final(cpu)@ == s && extra == e
        }),
{
    cpu.registers.status.interrupt_disable = false;
    0
}

/// SEI - Set Interrupt Disable; see [`spec_sei`].
pub fn sei<B: Bus>(cpu: &mut CPU<B>, _addr: u16) -> (extra: u8)
    ensures
        ({
            let (s, e) = spec_sei(old(cpu)@);
            final(cpu)@ == s && extra == e
        }),
{
    cpu.registers.status.interrupt_disable = true;
    0
}

/// CLV - Clear Overflow Flag; see [`spec_clv`].
pub fn clv<B: Bus>(cpu: &mut CPU<B>, _addr: u16) -> (extra: u8)
    ensures
        ({
            let (s, e) = spec_clv(old(cpu)@);
            final(cpu)@ == s && extra == e
        }),
{
    cpu.registers.status.overflow = false;
    0
}

/// NOP - No Operation; see [`spec_nop`].
pub fn nop<B: Bus>(_cpu: &mut CPU<B>, _addr: u16) -> (extra: u8)
    ensures
        ({
            let (s, e) = spec_nop(old(_cpu)@);
            final(_cpu)@ == s && extra == e
        }),
{
    0
}

/// TAX - Transfer A to X; see [`spec_tax`].
pub fn tax<B: Bus>(cpu: &mut CPU<B>, _addr: u16) -> (extra: u8)
    ensures
        ({
            let (s, e) = spec_tax(old(cpu)@);
            final(cpu)@ == s && extra == e
        }),
{
    cpu.registers.x = cpu.registers.a;
    let x = cpu.registers.x;
    cpu.update_zero_and_negative_flags(x);
    0
}

/// TAY - Transfer A to Y; see [`spec_tay`].
pub fn tay<B: Bus>(cpu: &mut CPU<B>, _addr: u16) -> (extra: u8)
    ensures
        ({
            let (s, e) = spec_tay(old(cpu)@);
            final(cpu)@ == s && extra == e
        }),
{
    cpu.registers.y = cpu.registers.a;
    let y = cpu.registers.y;
    cpu.update_zero_and_negative_flags(y);
    0
}

/// TSX - Transfer SP to X; see [`spec_tsx`].
pub fn tsx<B: Bus>(cpu: &mut CPU<B>, _addr: u16) -> (extra: u8)
    ensures
        ({
            let (s, e) = spec_tsx(old(cpu)@);
            final(cpu)@ == s && extra == e
        }),
{
    cpu.registers.x = cpu.registers.sp;
    let x = cpu.registers.x;
    cpu.update_zero_and_negative_flags(x);
    0
}

/// TXA - Transfer X to A; see [`spec_txa`].
pub fn txa<B: Bus>(cpu: &mut CPU<B>, _addr: u16) -> (extra: u8)
    ensures
        ({
            let (s, e) = spec_txa(old(cpu)@);
            final(cpu)@ == s && extra == e
        }),
{
    cpu.registers.a = cpu.registers.x;
    let a = cpu.registers.a;
    cpu.update_zero_and_negative_flags(a);
    0
}

/// TXS - Transfer X to SP; no flag changes; see [`spec_txs`].
pub fn txs<B: Bus>(cpu: &mut CPU<B>, _addr: u16) -> (extra: u8)
    ensures
        ({
            let (s, e) = spec_txs(old(cpu)@);
            final(cpu)@ == s && extra == e
        }),
{
    cpu.registers.sp = cpu.registers.x;
    0
}

/// TYA - Transfer Y to A; see [`spec_tya`].
pub fn tya<B: Bus>(cpu: &mut CPU<B>, _addr: u16) -> (extra: u8)
    ensures
        ({
            let (s, e) = spec_tya(old(cpu)@);
            final(cpu)@ == s && extra == e
        }),
{
    cpu.registers.a = cpu.registers.y;
    let a = cpu.registers.a;
    cpu.update_zero_and_negative_flags(a);
    0
}

} // verus!

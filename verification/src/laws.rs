//! The universal invariants of the core, stated and proved once over the
//! machine model.

use vstd::prelude::*;

use crate::addressing::AddressingMode;
use crate::cpu::{
    spec_decode, spec_fetch_byte, spec_interrupt, spec_stack_pop, spec_stack_push, spec_step,
};
use crate::instructions::{
    spec_brk, spec_execute, spec_jsr, spec_php, spec_plp, spec_rts, Instruction,
};
use crate::registers::{Registers, StatusFlags};
use crate::state::{lemma_word_bytes, page_crossed, CpuState};

verus! {

/// Every architectural register is bounded by its width in every reachable
/// state: SP and the byte registers fit in eight bits and PC fits in
/// sixteen.  This holds of any `CpuState` by construction, and therefore of
/// the state after any step.
pub proof fn lemma_state_widths(s: CpuState)
    ensures
        spec_step(s).regs.a <= 0xFF,
        spec_step(s).regs.x <= 0xFF,
        spec_step(s).regs.y <= 0xFF,
        spec_step(s).regs.sp <= 0xFF,
        spec_step(s).regs.pc <= 0xFFFF,
{
}

/// Packing the flags, forcing B and U as PHP and BRK do, and unpacking
/// again returns every flag, with B and U read back as set.
pub proof fn lemma_status_byte_round_trip(f: StatusFlags)
    ensures
        ({
            let g = StatusFlags::spec_from_byte(f.spec_to_byte() | 0x10 | 0x20);
            g.negative == f.negative && g.overflow == f.overflow && g.unused && g.break_mode
                && g.decimal_mode == f.decimal_mode && g.interrupt_disable
                == f.interrupt_disable && g.zero == f.zero && g.carry == f.carry
        }),
{
    let n: u8 = if f.negative { 0x80 } else { 0 };
    let v: u8 = if f.overflow { 0x40 } else { 0 };
    let u: u8 = if f.unused { 0x20 } else { 0 };
    let k: u8 = if f.break_mode { 0x10 } else { 0 };
    let d: u8 = if f.decimal_mode { 0x08 } else { 0 };
    let i: u8 = if f.interrupt_disable { 0x04 } else { 0 };
    let z: u8 = if f.zero { 0x02 } else { 0 };
    let c: u8 = if f.carry { 0x01 } else { 0 };
    let b: u8 = (n | v | u | k | d | i | z | c) | 0x10 | 0x20;
    assert(b & 0x80 == n && b & 0x40 == v && b & 0x20 == 0x20u8 && b & 0x10 == 0x10u8 && b & 0x08
        == d && b & 0x04 == i && b & 0x02 == z && b & 0x01 == c) by (bit_vector)
        requires
            b == (n | v | u | k | d | i | z | c) | 0x10 | 0x20,
            n == 0x80 || n == 0,
            v == 0x40 || v == 0,
            u == 0x20 || u == 0,
            k == 0x10 || k == 0,
            d == 0x08 || d == 0,
            i == 0x04 || i == 0,
            z == 0x02 || z == 0,
            c == 0x01 || c == 0,
    ;
}

/// Every status byte that leaves the CPU has the unused bit (bit 5) set:
/// the byte PHP pushes, the byte BRK pushes, and the byte an IRQ or NMI
/// pushes (which additionally has B clear).
pub proof fn lemma_pushed_status_unused_bit(s: CpuState)
    ensures
        spec_php(s).0.mem[(0x0100 + s.regs.sp) as u16] & 0x20 == 0x20,
        spec_brk(s).0.mem[(0x0100 + s.regs.sp.wrapping_sub(2)) as u16] & 0x20 == 0x20,
        !s.regs.status.interrupt_disable ==> spec_interrupt(s, false).mem[(0x0100
            + s.regs.sp.wrapping_sub(2)) as u16] & 0x20 == 0x20,
        spec_interrupt(s, true).mem[(0x0100 + s.regs.sp.wrapping_sub(2)) as u16] & 0x20 == 0x20,
        spec_interrupt(s, true).mem[(0x0100 + s.regs.sp.wrapping_sub(2)) as u16] & 0x10 == 0,
{
    let b = s.regs.status.spec_to_byte();
    assert((b | 0x10 | 0x20) & 0x20 == 0x20u8 && ((b & !0x10) | 0x20) & 0x20 == 0x20u8 && ((b
        & !0x10) | 0x20) & 0x10 == 0u8) by (bit_vector);
}

/// The same invariant at the interpreter level, with no precondition: when
/// the opcode at PC is PHP (0x08) or BRK (0x00) — the two instructions
/// that push a status byte — the byte a whole step leaves on the stack has
/// the unused bit (bit 5) set, whatever the rest of the state holds.
pub proof fn lemma_step_pushes_unused_bit(s: CpuState)
    ensures
        s.mem[s.regs.pc] == 0x08 ==> spec_step(s).mem[(0x0100 + s.regs.sp) as u16] & 0x20 == 0x20,
        s.mem[s.regs.pc] == 0x00 ==> spec_step(s).mem[(0x0100 + s.regs.sp.wrapping_sub(2)) as u16]
            & 0x20 == 0x20,
{
    let b = s.regs.status.spec_to_byte();
    assert((b | 0x10 | 0x20) & 0x20 == 0x20u8) by (bit_vector);
}

/// PC advances by exactly the operand width of the addressing mode, 0, 1
/// or 2 bytes, whatever the operand bytes hold; resolving a mode changes no
/// register besides PC, no memory, and no cycles.
pub proof fn lemma_mode_advances_pc(m: AddressingMode, s: CpuState)
    ensures
        ({
            let (s1, addr, extra) = m.spec_resolve(s);
            s1.regs.pc == s.regs.pc.wrapping_add(m.spec_operand_width()) && s1.regs
                == (Registers { pc: s1.regs.pc, ..s.regs }) && s1.mem == s.mem && s1.cycles
                == s.cycles
        }),
{
}

/// Resolving a mode and then executing any operation leaves the cycle
/// counter alone: cycle accounting is the interpreter's job.  Moreover, of
/// the page-cross-sensitive read operations none contributes extra cycles
/// of its own.
pub proof fn lemma_execute_cycles(i: Instruction, s: CpuState, addr: u16)
    ensures
        spec_execute(i, s, addr).0.cycles == s.cycles,
        i.spec_page_cross_sensitive() ==> spec_execute(i, s, addr).1 == 0,
{
}

/// For every memory-read operation that is documented page-cross sensitive
/// (ADC, AND, CMP, EOR, LDA, LDX, LDY, ORA, SBC), one step costs exactly
/// the tabled base cycles plus the addressing mode's page-cross penalty:
/// base + 1 when an indexed mode crossed a page, base otherwise.
pub proof fn lemma_read_op_cycles(s: CpuState)
    ensures
        ({
            let (s0, opcode) = spec_fetch_byte(s);
            match spec_decode(opcode) {
                Some(d) => d.instruction.spec_page_cross_sensitive() ==> spec_step(s).cycles
                    == s.cycles.wrapping_add(
                    (d.cycles + d.addressing_mode.spec_resolve(s0).2) as u64,
                ),
                None => true,
            }
        }),
{
    let (s0, opcode) = spec_fetch_byte(s);
    match spec_decode(opcode) {
        Some(d) => {
            lemma_mode_advances_pc(d.addressing_mode, s0);
            let (s1, addr, _extra) = d.addressing_mode.spec_resolve(s0);
            lemma_execute_cycles(d.instruction, s1, addr);
        },
        None => {},
    }
}

/// Whether this operation is a conditional branch.
pub open spec fn spec_is_branch(i: Instruction) -> bool {
    match i {
        Instruction::Bcc => true,
        Instruction::Bcs => true,
        Instruction::Beq => true,
        Instruction::Bne => true,
        Instruction::Bmi => true,
        Instruction::Bpl => true,
        Instruction::Bvc => true,
        Instruction::Bvs => true,
        _ => false,
    }
}

/// Whether a conditional branch is taken under the given flags.
pub open spec fn spec_branch_taken(i: Instruction, f: StatusFlags) -> bool {
    match i {
        Instruction::Bcc => !f.carry,
        Instruction::Bcs => f.carry,
        Instruction::Beq => f.zero,
        Instruction::Bne => !f.zero,
        Instruction::Bmi => f.negative,
        Instruction::Bpl => !f.negative,
        Instruction::Bvc => !f.overflow,
        Instruction::Bvs => f.overflow,
        _ => false,
    }
}

/// For every conditional branch, one step costs the tabled base cycles
/// when the branch is not taken, and base + 1 + 1 more when taken to a
/// target in a different page than the instruction that follows the
/// branch.
pub proof fn lemma_branch_cycles(s: CpuState)
    ensures
        ({
            let (s0, opcode) = spec_fetch_byte(s);
            match spec_decode(opcode) {
                Some(d) => spec_is_branch(d.instruction) ==> {
                    let (s1, addr, _extra) = d.addressing_mode.spec_resolve(s0);
                    let taken = spec_branch_taken(d.instruction, s1.regs.status);
                    spec_step(s).cycles == s.cycles.wrapping_add(
                        (d.cycles + (if taken {
                            1 + (if page_crossed(s1.regs.pc, addr) {
                                1int
                            } else {
                                0int
                            })
                        } else {
                            0int
                        })) as u64,
                    )
                },
                None => true,
            }
        }),
{
    let (s0, opcode) = spec_fetch_byte(s);
    match spec_decode(opcode) {
        Some(d) => {
            lemma_mode_advances_pc(d.addressing_mode, s0);
        },
        None => {},
    }
}

/// Stack round trip: pushing any byte and popping again returns that byte
/// and restores SP; no register other than SP is touched.
pub proof fn lemma_stack_round_trip(s: CpuState, b: u8)
    ensures
        ({
            let (s2, popped) = spec_stack_pop(spec_stack_push(s, b));
            popped == b && s2.regs == s.regs && s2.cycles == s.cycles
        }),
{
}

/// Flag round trip: PHP followed by PLP restores N, V, D, I, Z and C, the
/// effective B and U after PLP are 0 and 1, and SP is restored.
pub proof fn lemma_php_plp_round_trip(s: CpuState)
    ensures
        ({
            let (s1, _e1) = spec_php(s);
            let (s2, _e2) = spec_plp(s1);
            let f = s2.regs.status;
            f.negative == s.regs.status.negative && f.overflow == s.regs.status.overflow
                && f.decimal_mode == s.regs.status.decimal_mode && f.interrupt_disable
                == s.regs.status.interrupt_disable && f.zero == s.regs.status.zero && f.carry
                == s.regs.status.carry && !f.break_mode && f.unused && s2.regs.sp == s.regs.sp
                && s2.regs.a == s.regs.a && s2.regs.pc == s.regs.pc
        }),
{
    lemma_status_byte_round_trip(s.regs.status);
}

/// JSR/RTS round trip: a JSR resolved to any target, followed at once by
/// RTS, returns PC to the byte following the JSR operand (the PC at the
/// moment JSR executed) and restores SP.
pub proof fn lemma_jsr_rts_round_trip(s: CpuState, target: u16)
    ensures
        ({
            let (s1, _e1) = spec_jsr(s, target);
            let (s2, _e2) = spec_rts(s1);
            s1.regs.pc == target && s2.regs.pc == s.regs.pc && s2.regs.sp == s.regs.sp
        }),
{
    lemma_word_bytes(s.regs.pc.wrapping_sub(1));
}

/// The indirect JMP page-wrap defect: when the pointer's low byte is 0xFF,
/// the high byte of the target comes from the start of the pointer's own
/// page (`ptr & 0xFF00`), not from the next page.
pub proof fn lemma_indirect_jmp_page_wrap(s: CpuState)
    ensures
        ({
            let (s1, ptr) = crate::cpu::spec_fetch_word(s);
            let (_s2, addr, _e) = AddressingMode::Indirect.spec_resolve(s);
            ptr & 0x00FF == 0x00FF ==> addr == crate::state::make_word(
                s1.mem[ptr],
                s1.mem[ptr & 0xFF00],
            )
        }),
{
}

/// Zero-page indexed addressing wraps within the zero page: the effective
/// address is at most 0xFF, so its high byte is 0x00.
pub proof fn lemma_zero_page_indexed_wraps(s: CpuState)
    ensures
        ({
            let (_sx, ax, _ex) = AddressingMode::ZeroPageX.spec_resolve(s);
            let (_sy, ay, _ey) = AddressingMode::ZeroPageY.spec_resolve(s);
            ax <= 0xFF && ax & 0xFF00 == 0 && ay <= 0xFF && ay & 0xFF00 == 0
        }),
{
    let (_sx, ax, _ex) = AddressingMode::ZeroPageX.spec_resolve(s);
    let (_sy, ay, _ey) = AddressingMode::ZeroPageY.spec_resolve(s);
    assert(ax <= 0xFF ==> ax & 0xFF00 == 0) by (bit_vector);
    assert(ay <= 0xFF ==> ay & 0xFF00 == 0) by (bit_vector);
}

} // verus!


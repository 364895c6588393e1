//! The addressing-mode resolvers of the 6502.
//!
//! Each resolver consumes the instruction's inline operand bytes (advancing
//! PC past them), and returns the effective address together with the cycle
//! penalty the mode itself contributes: 1 when an indexed mode crossed a
//! page boundary, 0 otherwise.  Whether that penalty is actually charged is
//! decided per operation by the interpreter.

use vstd::prelude::*;

use crate::bus::Bus;
use crate::cpu::{spec_fetch_byte, spec_fetch_word, CPU};
use crate::state::{make_word, page_crossed, CpuState};

verus! {

/// Accumulator mode: no operand; the operation works on A.  The returned
/// address is the sentinel 0.
pub open spec fn spec_accumulator(s: CpuState) -> (CpuState, u16, u8) {
    (s, 0, 0)
}

/// Implied mode: no operand, no effective address.  The returned address is
/// the sentinel 0.
pub open spec fn spec_implied(s: CpuState) -> (CpuState, u16, u8) {
    (s, 0, 0)
}

/// Immediate mode: the operand byte itself is addressed; the effective
/// address is the current PC, and PC advances past the byte.
pub open spec fn spec_immediate(s: CpuState) -> (CpuState, u16, u8) {
    let (s1, _b) = spec_fetch_byte(s);
    (s1, s.regs.pc, 0)
}

/// Zero-page mode: the operand byte is the address, in page 0x00.
pub open spec fn spec_zero_page(s: CpuState) -> (CpuState, u16, u8) {
    let (s1, zp) = spec_fetch_byte(s);
    (s1, zp as u16, 0)
}

/// Zero-page,X mode: the operand byte plus X, wrapping within page 0x00.
pub open spec fn spec_zero_page_x(s: CpuState) -> (CpuState, u16, u8) {
    let (s1, zp) = spec_fetch_byte(s);
    (s1, zp.wrapping_add(s.regs.x) as u16, 0)
}

/// Zero-page,Y mode: the operand byte plus Y, wrapping within page 0x00.
pub open spec fn spec_zero_page_y(s: CpuState) -> (CpuState, u16, u8) {
    let (s1, zp) = spec_fetch_byte(s);
    (s1, zp.wrapping_add(s.regs.y) as u16, 0)
}

/// Absolute mode: the operand word is the address.
pub open spec fn spec_absolute(s: CpuState) -> (CpuState, u16, u8) {
    let (s1, addr) = spec_fetch_word(s);
    (s1, addr, 0)
}

/// Absolute,X mode: the operand word plus X, wrapping at 16 bits; the
/// penalty is 1 exactly when the sum leaves the operand's page.
pub open spec fn spec_absolute_x(s: CpuState) -> (CpuState, u16, u8) {
    let (s1, base) = spec_fetch_word(s);
    let addr = base.wrapping_add(s.regs.x as u16);
    (
        s1,
        addr,
        if page_crossed(base, addr) {
            1
        } else {
            0
        },
    )
}

/// Absolute,Y mode: the operand word plus Y, wrapping at 16 bits; the
/// penalty is 1 exactly when the sum leaves the operand's page.
pub open spec fn spec_absolute_y(s: CpuState) -> (CpuState, u16, u8) {
    let (s1, base) = spec_fetch_word(s);
    let addr = base.wrapping_add(s.regs.y as u16);
    (
        s1,
        addr,
        if page_crossed(base, addr) {
            1
        } else {
            0
        },
    )
}

/// Indirect mode (JMP only): the operand word points at the address.  The
/// high byte comes from the pointer with its low byte incremented *within
/// the page*: when the pointer's low byte is 0xFF the high byte is fetched
/// from the start of the same page, reproducing the NMOS page-wrap defect.
pub open spec fn spec_indirect(s: CpuState) -> (CpuState, u16, u8) {
    let (s1, ptr) = spec_fetch_word(s);
    let lo = s1.mem[ptr];
    let hi_address = if ptr & 0x00FF == 0x00FF {
        ptr & 0xFF00
    } else {
        (ptr + 1) as u16
    };
    let hi = s1.mem[hi_address];
    (s1, make_word(lo, hi), 0)
}

/// Indexed-indirect mode (zp,X): the operand byte plus X, wrapping in page
/// 0x00, names a zero-page cell that holds the address, low byte first; the
/// high byte comes from the next zero-page cell, wrapping within the page.
pub open spec fn spec_indirect_x(s: CpuState) -> (CpuState, u16, u8) {
    let (s1, zp) = spec_fetch_byte(s);
    let ptr = zp.wrapping_add(s.regs.x);
    let lo = s1.mem[ptr as u16];
    let hi = s1.mem[ptr.wrapping_add(1) as u16];
    (s1, make_word(lo, hi), 0)
}

/// Indirect-indexed mode (zp),Y: the operand byte names a zero-page cell
/// holding a base address (high byte from the next cell, wrapping within
/// the page); the effective address is the base plus Y, wrapping at 16
/// bits, with a penalty of 1 exactly when the sum leaves the base's page.
pub open spec fn spec_indirect_y(s: CpuState) -> (CpuState, u16, u8) {
    let (s1, zp) = spec_fetch_byte(s);
    let lo = s1.mem[zp as u16];
    let hi = s1.mem[zp.wrapping_add(1) as u16];
    let base = make_word(lo, hi);
    let addr = base.wrapping_add(s.regs.y as u16);
    (
        s1,
        addr,
        if page_crossed(base, addr) {
            1
        } else {
            0
        },
    )
}

/// Relative mode (branches only): the operand byte is a signed offset from
/// the PC that follows it; the returned address is that sum, wrapping at 16
/// bits.
pub open spec fn spec_relative(s: CpuState) -> (CpuState, u16, u8) {
    let (s1, offset) = spec_fetch_byte(s);
    let extended: u16 = if offset & 0x80 != 0 {
        0xFF00u16 | (offset as u16)
    } else {
        offset as u16
    };
    (s1, s1.regs.pc.wrapping_add(extended), 0)
}

/// Accumulator mode resolver; see [`spec_accumulator`].
pub fn accumulator<B: Bus>(_cpu: &mut CPU<B>) -> (r: (u16, u8))
    ensures
        ({
            let (s, addr, extra) = spec_accumulator(old(_cpu)@);
            final(_cpu)@ == s && r.0 == addr && r.1 == extra
        }),
{
    (0, 0)
}

/// Implied mode resolver; see [`spec_implied`].
pub fn implied<B: Bus>(_cpu: &mut CPU<B>) -> (r: (u16, u8))
    ensures
        ({
            let (s, addr, extra) = spec_implied(old(_cpu)@);
            final(_cpu)@ == s && r.0 == addr && r.1 == extra
        }),
{
    (0, 0)
}

/// Immediate mode resolver; see [`spec_immediate`].
pub fn immediate<B: Bus>(cpu: &mut CPU<B>) -> (r: (u16, u8))
    ensures
        ({
            let (s, addr, extra) = spec_immediate(old(cpu)@);
            final(cpu)@ == s && r.0 == addr && r.1 == extra
        }),
{
    let addr = cpu.registers.pc;
    cpu.registers.pc = cpu.registers.pc.wrapping_add(1);
    (addr, 0)
}

/// Zero-page mode resolver; see [`spec_zero_page`].
pub fn zero_page<B: Bus>(cpu: &mut CPU<B>) -> (r: (u16, u8))
    ensures
        ({
            let (s, addr, extra) = spec_zero_page(old(cpu)@);
            final(cpu)@ == s && r.0 == addr && r.1 == extra
        }),
{
    let addr = cpu.fetch_byte() as u16;
    (addr, 0)
}

/// Zero-page,X mode resolver; see [`spec_zero_page_x`].
pub fn zero_page_x<B: Bus>(cpu: &mut CPU<B>) -> (r: (u16, u8))
    ensures
        ({
            let (s, addr, extra) = spec_zero_page_x(old(cpu)@);
            final(cpu)@ == s && r.0 == addr && r.1 == extra
        }),
{
    let x = cpu.registers.x;
    let addr = cpu.fetch_byte().wrapping_add(x) as u16;
    (addr, 0)
}

/// Zero-page,Y mode resolver; see [`spec_zero_page_y`].
pub fn zero_page_y<B: Bus>(cpu: &mut CPU<B>) -> (r: (u16, u8))
    ensures
        ({
            let (s, addr, extra) = spec_zero_page_y(old(cpu)@);
            final(cpu)@ == s && r.0 == addr && r.1 == extra
        }),
{
    let y = cpu.registers.y;
    let addr = cpu.fetch_byte().wrapping_add(y) as u16;
    (addr, 0)
}

/// Absolute mode resolver; see [`spec_absolute`].
pub fn absolute<B: Bus>(cpu: &mut CPU<B>) -> (r: (u16, u8))
    ensures
        ({
            let (s, addr, extra) = spec_absolute(old(cpu)@);
            final(cpu)@ == s && r.0 == addr && r.1 == extra
        }),
{
    let addr = cpu.fetch_word();
    (addr, 0)
}

/// Absolute,X mode resolver; see [`spec_absolute_x`].
pub fn absolute_x<B: Bus>(cpu: &mut CPU<B>) -> (r: (u16, u8))
    ensures
        ({
            let (s, addr, extra) = spec_absolute_x(old(cpu)@);
            final(cpu)@ == s && r.0 == addr && r.1 == extra
        }),
{
    let base = cpu.fetch_word();
    let addr = base.wrapping_add(cpu.registers.x as u16);
    let page_cross = (base & 0xFF00) != (addr & 0xFF00);
    let additional_cycles: u8 = if page_cross {
        1
    } else {
        0
    };
    (addr, additional_cycles)
}

/// Absolute,Y mode resolver; see [`spec_absolute_y`].
pub fn absolute_y<B: Bus>(cpu: &mut CPU<B>) -> (r: (u16, u8))
    ensures
        ({
            let (s, addr, extra) = spec_absolute_y(old(cpu)@);
            final(cpu)@ == s && r.0 == addr && r.1 == extra
        }),
{
    let base = cpu.fetch_word();
    let addr = base.wrapping_add(cpu.registers.y as u16);
    let page_cross = (base & 0xFF00) != (addr & 0xFF00);
    let additional_cycles: u8 = if page_cross {
        1
    } else {
        0
    };
    (addr, additional_cycles)
}

/// Indirect mode resolver; see [`spec_indirect`].
pub fn indirect<B: Bus>(cpu: &mut CPU<B>) -> (r: (u16, u8))
    ensures
        ({
            let (s, addr, extra) = spec_indirect(old(cpu)@);
            final(cpu)@ == s && r.0 == addr && r.1 == extra
        }),
{
    let ptr = cpu.fetch_word();
    let lo = cpu.bus.read(ptr) as u16;
    let hi_address = if (ptr & 0x00FF) == 0x00FF {
        ptr & 0xFF00
    } else {
        proof {
            assert(ptr & 0x00FF != 0x00FF ==> ptr < 0xFFFF) by (bit_vector);
        }
        ptr + 1
    };
    let hi = cpu.bus.read(hi_address) as u16;
    let addr = (hi << 8) | lo;
    (addr, 0)
}

/// Indexed-indirect (zp,X) mode resolver; see [`spec_indirect_x`].
pub fn indirect_x<B: Bus>(cpu: &mut CPU<B>) -> (r: (u16, u8))
    ensures
        ({
            let (s, addr, extra) = spec_indirect_x(old(cpu)@);
            final(cpu)@ == s && r.0 == addr && r.1 == extra
        }),
{
    let x = cpu.registers.x;
    let ptr = cpu.fetch_byte().wrapping_add(x);
    let lo = cpu.bus.read(ptr as u16) as u16;
    let hi = cpu.bus.read(ptr.wrapping_add(1) as u16) as u16;
    let addr = (hi << 8) | lo;
    (addr, 0)
}

/// Indirect-indexed (zp),Y mode resolver; see [`spec_indirect_y`].
pub fn indirect_y<B: Bus>(cpu: &mut CPU<B>) -> (r: (u16, u8))
    ensures
        ({
            let (s, addr, extra) = spec_indirect_y(old(cpu)@);
            final(cpu)@ == s && r.0 == addr && r.1 == extra
        }),
{
    let ptr = cpu.fetch_byte();
    let lo = cpu.bus.read(ptr as u16) as u16;
    let hi = cpu.bus.read(ptr.wrapping_add(1) as u16) as u16;
    let base_addr = (hi << 8) | lo;
    let addr = base_addr.wrapping_add(cpu.registers.y as u16);
    let page_cross = (base_addr & 0xFF00) != (addr & 0xFF00);
    let additional_cycles: u8 = if page_cross {
        1
    } else {
        0
    };
    (addr, additional_cycles)
}

/// Relative mode resolver; see [`spec_relative`].
pub fn relative<B: Bus>(cpu: &mut CPU<B>) -> (r: (u16, u8))
    ensures
        ({
            let (s, addr, extra) = spec_relative(old(cpu)@);
            final(cpu)@ == s && r.0 == addr && r.1 == extra
        }),
{
    let offset = cpu.fetch_byte();
    let extended: u16 = if offset & 0x80 != 0 {
        0xFF00u16 | (offset as u16)
    } else {
        offset as u16
    };
    let pc = cpu.registers.pc;
    let addr = pc.wrapping_add(extended);
    (addr, 0)
}

} // verus!

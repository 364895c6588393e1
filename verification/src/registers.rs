//! The architectural register file of the 6502 and its packed status word.

use vstd::prelude::*;

verus! {

/// The eight status flags of the 6502, one `bool` per bit of the packed
/// status word `P`.
///
/// Bit layout of the packed byte, from bit 7 down to bit 0:
/// `N V U B D I Z C`.  The `U` (unused) bit reads as 1 in every byte the
/// processor pushes; `B` has no physical flag in hardware and only exists in
/// pushed bytes, where it distinguishes `PHP`/`BRK` (1) from `IRQ`/`NMI` (0).
pub struct StatusFlags {
    /// N flag (bit 7): set when the last result had bit 7 set.
    pub negative: bool,
    /// V flag (bit 6): signed overflow of the last arithmetic result.
    pub overflow: bool,
    /// U flag (bit 5): unused; 1 in every pushed status byte.
    pub unused: bool,
    /// B flag (bit 4): break marker in pushed status bytes.
    pub break_mode: bool,
    /// D flag (bit 3): decimal (BCD) arithmetic mode.
    pub decimal_mode: bool,
    /// I flag (bit 2): interrupt disable.
    pub interrupt_disable: bool,
    /// Z flag (bit 1): set when the last result was zero.
    pub zero: bool,
    /// C flag (bit 0): carry out / inverse borrow.
    pub carry: bool,
}

impl StatusFlags {
    /// The flag state after a reset: `I` and `U` set, everything else
    /// clear, a packed value of 0x24.  Reset masks interrupts until the
    /// program clears `I` itself.
    pub open spec fn spec_reset() -> StatusFlags {
        StatusFlags {
            negative: false,
            overflow: false,
            unused: true,
            break_mode: false,
            decimal_mode: false,
            interrupt_disable: true,
            zero: false,
            carry: false,
        }
    }

    /// The packed byte for this flag state: `N V U B D I Z C` from bit 7
    /// down to bit 0.
    pub open spec fn spec_to_byte(self) -> u8 {
        (if self.negative { 0x80u8 } else { 0u8 })
            | (if self.overflow { 0x40u8 } else { 0u8 })
            | (if self.unused { 0x20u8 } else { 0u8 })
            | (if self.break_mode { 0x10u8 } else { 0u8 })
            | (if self.decimal_mode { 0x08u8 } else { 0u8 })
            | (if self.interrupt_disable { 0x04u8 } else { 0u8 })
            | (if self.zero { 0x02u8 } else { 0u8 })
            | (if self.carry { 0x01u8 } else { 0u8 })
    }

    /// The flag state encoded by a packed byte, one flag per bit.
    pub open spec fn spec_from_byte(byte: u8) -> StatusFlags {
        StatusFlags {
            negative: byte & 0x80 != 0,
            overflow: byte & 0x40 != 0,
            unused: byte & 0x20 != 0,
            break_mode: byte & 0x10 != 0,
            decimal_mode: byte & 0x08 != 0,
            interrupt_disable: byte & 0x04 != 0,
            zero: byte & 0x02 != 0,
            carry: byte & 0x01 != 0,
        }
    }

    /// These flags with Z set when `result` is zero and N set when bit 7 of
    /// `result` is set; all other flags unchanged.
    pub open spec fn with_nz(self, result: u8) -> StatusFlags {
        StatusFlags { zero: result == 0, negative: (result & 0x80) != 0, ..self }
    }

    /// Creates the reset flag state.
    pub fn new() -> (flags: StatusFlags)
        ensures
            flags == StatusFlags::spec_reset(),
    {
        StatusFlags {
            negative: false,
            overflow: false,
            unused: true,
            break_mode: false,
            decimal_mode: false,
            interrupt_disable: true,
            zero: false,
            carry: false,
        }
    }

    /// Reports whether every flag equals the corresponding flag of `flag`.
    pub fn contains(&self, flag: StatusFlags) -> (same: bool)
        ensures
            same == (*self == flag),
    {
        self.negative == flag.negative && self.overflow == flag.overflow
            && self.unused == flag.unused && self.break_mode == flag.break_mode
            && self.decimal_mode == flag.decimal_mode
            && self.interrupt_disable == flag.interrupt_disable && self.zero == flag.zero
            && self.carry == flag.carry
    }

    /// Packs the flags into one byte, `N V U B D I Z C` from bit 7 down to
    /// bit 0.
    pub fn to_byte(&self) -> (byte: u8)
        ensures
            byte == self.spec_to_byte(),
    {
        (if self.negative { 0x80u8 } else { 0u8 })
            | (if self.overflow { 0x40u8 } else { 0u8 })
            | (if self.unused { 0x20u8 } else { 0u8 })
            | (if self.break_mode { 0x10u8 } else { 0u8 })
            | (if self.decimal_mode { 0x08u8 } else { 0u8 })
            | (if self.interrupt_disable { 0x04u8 } else { 0u8 })
            | (if self.zero { 0x02u8 } else { 0u8 })
            | (if self.carry { 0x01u8 } else { 0u8 })
    }

    /// Replaces every flag with the corresponding bit of `byte`.
    pub fn from_byte(&mut self, byte: u8)
        ensures
            *final(self) == StatusFlags::spec_from_byte(byte),
    {
        self.negative = byte & 0x80 != 0;
        self.overflow = byte & 0x40 != 0;
        self.unused = byte & 0x20 != 0;
        self.break_mode = byte & 0x10 != 0;
        self.decimal_mode = byte & 0x08 != 0;
        self.interrupt_disable = byte & 0x04 != 0;
        self.zero = byte & 0x02 != 0;
        self.carry = byte & 0x01 != 0;
    }
}

/// The six architectural registers of the 6502.
pub struct Registers {
    /// Accumulator (A).
    pub a: u8,
    /// X index register.
    pub x: u8,
    /// Y index register.
    pub y: u8,
    /// Stack pointer; the stack occupies 0x0100 + SP.
    pub sp: u8,
    /// Program counter.
    pub pc: u16,
    /// Status flags (P).
    pub status: StatusFlags,
}

impl Registers {
    /// The register file before the reset sequence has run: cleared
    /// registers, SP at 0xFD, and the reset flag state.
    pub open spec fn spec_initial() -> Registers {
        Registers {
            a: 0,
            x: 0,
            y: 0,
            sp: 0xFD,
            pc: 0x0000,
            status: StatusFlags::spec_reset(),
        }
    }

    /// Creates the initial register file.
    pub fn new() -> (regs: Registers)
        ensures
            regs == Registers::spec_initial(),
    {
        Registers { a: 0, x: 0, y: 0, sp: 0xFD, pc: 0x0000, status: StatusFlags::new() }
    }
}

} // verus!

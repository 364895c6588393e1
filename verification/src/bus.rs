//! The memory bus the processor is bound to.

use vstd::prelude::*;

verus! {

/// The system bus: the processor's only window onto memory and I/O.
///
/// Implementations are supplied by the host emulator.  The contracts model
/// the bus as a total mapping from 16-bit addresses to bytes: `read` returns
/// the mapped byte and leaves the mapping unchanged, `write` updates one
/// entry.  Address decoding, mirroring and device side effects are the
/// implementation's concern; the processor's own contracts are stated, and
/// proved, against this mapping.
pub trait Bus: Sized {
    /// The bytes currently visible through the bus.
    spec fn mem(&self) -> Map<u16, u8>;

    /// Reads the byte at `addr`.
    fn read(&mut self, addr: u16) -> (data: u8)
        ensures
            final(self).mem() == old(self).mem(),
            data == old(self).mem()[addr],
    ;

    /// Writes `data` to `addr`.
    fn write(&mut self, addr: u16, data: u8)
        ensures
            final(self).mem() == old(self).mem().insert(addr, data),
    ;
}

/// The simplest bus: a flat 64 KiB memory where every address reads back
/// the byte last written to it, and 0 before any write.  The backing
/// storage grows on demand; an address beyond it holds 0.
pub struct Ram {
    bytes: Vec<u8>,
}

impl Ram {
    /// Creates a memory holding 0 at every address.
    pub fn new() -> (ram: Ram)
        ensures
            forall|addr: u16| #[trigger] ram.mem()[addr] == 0u8,
    {
        Ram { bytes: Vec::new() }
    }
}

impl Bus for Ram {
    closed spec fn mem(&self) -> Map<u16, u8> {
        Map::total(
            |addr: u16|
                if (addr as int) < self.bytes.len() {
                    self.bytes[addr as int]
                } else {
                    0u8
                },
        )
    }

    fn read(&mut self, addr: u16) -> (data: u8) {
        let idx = addr as usize;
        if idx < self.bytes.len() {
            self.bytes[idx]
        } else {
            0
        }
    }

    fn write(&mut self, addr: u16, data: u8) {
        let ghost m0 = self.mem();
        let idx = addr as usize;
        while self.bytes.len() <= idx
            invariant
                idx <= 0xFFFF,
                self.mem() == m0,
            decreases idx + 1 - self.bytes.len(),
        {
            self.bytes.push(0);
            proof {
                assert(self.mem() =~= m0);
            }
        }
        self.bytes.set(idx, data);
        proof {
            assert(self.mem() =~= m0.insert(addr, data));
        }
    }
}

} // verus!

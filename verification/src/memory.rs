//! The 64 KiB address space with its write-protected and mirrored regions.
use vstd::prelude::*;

verus! {

/// Number of addressable bytes.
pub const MEMORY_SIZE: usize = 0x10000;

/// First writable address once a mirror boundary is configured; everything
/// below it is read-only program storage.
pub const ROM_LIMIT: u16 = 0x2000;

/// Why a program image could not be copied into the address space.
#[derive(Clone, Copy, Debug, PartialEq, Eq)]
pub enum LoadError {
    /// The image would run past the last address.
    OutOfRange,
}

/// The emulated address space: a fixed buffer plus an optional mirror boundary.
#[derive(Debug)]
pub struct Memory {
    pub memory: Vec<u8>,
    pub ram_mirror: Option<u16>,
}

/// Whether a store to `address` is silently dropped under the given mirror
/// boundary.
pub open spec fn write_blocked(mirror: Option<u16>, address: u16) -> bool {
    match mirror {
        Some(boundary) => address >= boundary || address < ROM_LIMIT,
        None => false,
    }
}

/// The buffer after a store of `value` to `address`.
pub open spec fn store(cells: Seq<u8>, mirror: Option<u16>, address: u16, value: u8) -> Seq<u8> {
    if write_blocked(mirror, address) {
        cells
    } else {
        cells.update(address as int, value)
    }
}

/// The buffer after `block` has been laid over it starting at `position`.
pub open spec fn overlay(cells: Seq<u8>, block: Seq<u8>, position: int) -> Seq<u8> {
    Seq::new(
        cells.len(),
        |i: int|
            if position <= i < position + block.len() {
                block[i - position]
            } else {
                cells[i]
            },
    )
}

impl Memory {
    /// The buffer covers the whole address space.
    pub open spec fn wf(&self) -> bool {
        self.memory@.len() == MEMORY_SIZE
    }

    /// An address space of zero bytes with no mirror boundary.
    pub fn new() -> (m: Memory)
        ensures
            m.wf(),
            m.ram_mirror is None,
            forall|i: int| 0 <= i < MEMORY_SIZE ==> m.memory@[i] == 0u8,
    {
        let cells: Vec<u8> = vec![0u8; 0x10000];
        Memory { memory: cells, ram_mirror: None }
    }

    /// Copies `block` into the buffer starting at `position`, ignoring write
    /// protection. Fails, touching nothing, when the block would not fit.
    pub fn load(&mut self, block: &[u8], position: u16) -> (r: Result<(), LoadError>)
        requires
            old(self).wf(),
        ensures
            final(self).wf(),
            final(self).ram_mirror == old(self).ram_mirror,
            r is Ok <==> position + block@.len() <= MEMORY_SIZE,
            r is Ok ==> final(self).memory@ == overlay(old(self).memory@, block@, position as int),
            r is Err ==> final(self).memory@ == old(self).memory@,
    {
        let start: usize = position as usize;
        if block.len() > MEMORY_SIZE - start {
            return Err(LoadError::OutOfRange);
        }
        let mut i: usize = 0;
        while i < block.len()
            invariant
                i <= block@.len(),
                start + block@.len() <= MEMORY_SIZE,
                self.wf(),
                self.ram_mirror == old(self).ram_mirror,
                self.memory@ == overlay(old(self).memory@, block@.take(i as int), start as int),
            decreases block@.len() - i,
        {
            let byte: u8 = block[i];
            self.memory.set(start + i, byte);
            i += 1;
            assert(self.memory@ =~= overlay(
                old(self).memory@,
                block@.take(i as int),
                start as int,
            ));
        }
        assert(block@.take(i as int) =~= block@);
        Ok(())
    }

    /// The byte stored at `address`.
    pub fn read(&self, address: u16) -> (value: u8)
        requires
            self.wf(),
        ensures
            value == self.memory@[address as int],
    {
        self.memory[address as usize]
    }

    /// Stores `value` at `address`, unless a mirror boundary is configured and
    /// the address lies in the protected or mirrored region.
    pub fn write(&mut self, address: u16, value: u8)
        requires
            old(self).wf(),
        ensures
            final(self).wf(),
            final(self).ram_mirror == old(self).ram_mirror,
            final(self).memory@ == store(old(self).memory@, old(self).ram_mirror, address, value),
    {
        let blocked: bool = match self.ram_mirror {
            Some(boundary) => address >= boundary || address < ROM_LIMIT,
            None => false,
        };
        if !blocked {
            self.memory.set(address as usize, value);
        }
    }
}

impl Default for Memory {
    fn default() -> (m: Memory)
        ensures
            m.wf(),
            m.ram_mirror is None,
            forall|i: int| 0 <= i < MEMORY_SIZE ==> m.memory@[i] == 0u8,
    {
        Memory::new()
    }
}

} // verus!

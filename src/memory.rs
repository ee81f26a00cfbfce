use vstd::prelude::*;

use crate::types::{Byte, Word};

verus! {

/// Size of the address space: the 16-bit address bus reaches 64 KiB.
pub const MEMORY_SIZE: usize = 0x10000;

/// First address of the read-only region, which extends to the top of memory.
pub const ROM_START: usize = 0x8000;

/// Why a memory access or an image load was refused.
#[derive(Clone, Copy, Debug, PartialEq, Eq, Structural)]
pub enum MemoryError {
    AddressOutOfBounds(u16),
    RomWriteAttempt(u16),
    /// An image of this many bytes does not fit between `ROM_START` and the top of memory.
    ImageTooLarge(usize),
}

/// What a read of `address` yields on the contents `mem`.
pub open spec fn read_outcome(mem: Seq<u8>, address: u16) -> Result<u8, MemoryError> {
    if address as int >= mem.len() {
        Err(MemoryError::AddressOutOfBounds(address))
    } else {
        Ok(mem[address as int])
    }
}

/// What a write of `value` at `address` does to the contents `mem`: the new contents, or the error.
pub open spec fn write_outcome(mem: Seq<u8>, address: u16, value: u8) -> Result<Seq<u8>, MemoryError> {
    if address as int >= mem.len() {
        Err(MemoryError::AddressOutOfBounds(address))
    } else if address as int >= ROM_START {
        Err(MemoryError::RomWriteAttempt(address))
    } else {
        Ok(mem.update(address as int, value))
    }
}

/// The contents `mem` with `image` placed from `ROM_START` on.
pub open spec fn with_image(mem: Seq<u8>, image: Seq<u8>) -> Seq<u8> {
    Seq::new(
        mem.len(),
        |i: int|
            if ROM_START <= i < ROM_START + image.len() {
                image[i - ROM_START]
            } else {
                mem[i]
            },
    )
}

/// A flat 64 KiB byte space whose upper half is read-only at run time.
pub struct Memory {
    data: Vec<Byte>,
}

impl View for Memory {
    type V = Seq<u8>;

    closed spec fn view(&self) -> Seq<u8> {
        self.data@
    }
}

impl Memory {
    /// The space holds exactly `MEMORY_SIZE` bytes.
    pub open spec fn wf(&self) -> bool {
        self@.len() == MEMORY_SIZE
    }

    /// A zero-filled memory.
    pub fn new() -> (r: Memory)
        ensures
            r.wf(),
            forall|i: int| 0 <= i < MEMORY_SIZE ==> #[trigger] r@[i] == 0,
    {
        Memory { data: vec![0u8; MEMORY_SIZE] }
    }

    /// The byte stored at `address`.
    pub fn read(&self, address: Word) -> (r: Result<Byte, MemoryError>)
        ensures
            r == read_outcome(self@, address),
    {
        if (address as usize) >= self.data.len() {
            return Err(MemoryError::AddressOutOfBounds(address));
        }
        Ok(self.data[address as usize])
    }

    /// Stores `value` at `address`, unless the address lies in the read-only region.
    pub fn write(&mut self, address: Word, value: Byte) -> (r: Result<(), MemoryError>)
        ensures
            match write_outcome(old(self)@, address, value) {
                Ok(mem) => r is Ok && final(self)@ == mem,
                Err(e) => r == Err::<(), MemoryError>(e) && final(self)@ == old(self)@,
            },
    {
        if (address as usize) >= self.data.len() {
            return Err(MemoryError::AddressOutOfBounds(address));
        }
        if (address as usize) >= ROM_START {
            return Err(MemoryError::RomWriteAttempt(address));
        }
        self.data.set(address as usize, value);
        Ok(())
    }

    /// Places `image` from `ROM_START` on, before execution starts; refuses an image that
    /// would run past the top of memory and then leaves the contents as they were.
    pub fn load_image(&mut self, image: &[u8]) -> (r: Result<(), MemoryError>)
        requires
            old(self).wf(),
        ensures
            final(self).wf(),
            image@.len() <= MEMORY_SIZE - ROM_START ==> r is Ok && final(self)@ == with_image(
                old(self)@,
                image@,
            ),
            image@.len() > MEMORY_SIZE - ROM_START ==> r == Err::<(), MemoryError>(
                MemoryError::ImageTooLarge(image@.len() as usize),
            ) && final(self)@ == old(self)@,
    {
        if image.len() > MEMORY_SIZE - ROM_START {
            return Err(MemoryError::ImageTooLarge(image.len()));
        }
        let mut i: usize = 0;
        while i < image.len()
            invariant
                image@.len() <= MEMORY_SIZE - ROM_START,
                i <= image@.len(),
                self@.len() == MEMORY_SIZE,
                forall|k: int|
                    0 <= k < MEMORY_SIZE ==> #[trigger] self@[k] == if ROM_START <= k < ROM_START
                        + i {
                        image@[k - ROM_START]
                    } else {
                        old(self)@[k]
                    },
            decreases image@.len() - i,
        {
            self.data.set(ROM_START + i, image[i]);
            i = i + 1;
        }
        assert(self@ =~= with_image(old(self)@, image@));
        Ok(())
    }
}

/// A write below `ROM_START` followed by a read of the same address gives back the value written.
pub proof fn lemma_write_then_read(mem: Seq<u8>, address: u16, value: u8)
    requires
        mem.len() == MEMORY_SIZE,
        address < ROM_START,
    ensures
        write_outcome(mem, address, value) is Ok,
        read_outcome(write_outcome(mem, address, value)->Ok_0, address) == Ok::<u8, MemoryError>(value),
{
}

/// A write at or above `ROM_START` is refused as a write to read-only memory, and a later
/// read still finds the byte that was there.
pub proof fn lemma_rom_write_refused(mem: Seq<u8>, address: u16, value: u8)
    requires
        mem.len() == MEMORY_SIZE,
        address >= ROM_START,
    ensures
        write_outcome(mem, address, value) == Err::<Seq<u8>, MemoryError>(MemoryError::RomWriteAttempt(address)),
        read_outcome(mem, address) == Ok::<u8, MemoryError>(mem[address as int]),
{
}

} // verus!

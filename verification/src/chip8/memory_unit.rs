//! The flat 4 KiB address space.

use vstd::prelude::*;
use crate::chip8::error::Chip8Error;

verus! {

/// Number of addressable bytes.
pub const MEMORY_SIZE: usize = 4096;

/// First address of the loaded program; everything below is reserved.
pub const PROGRAM_START: usize = 0x200;

/// Whether the `len` bytes starting at `addr` all lie inside the address space.
/// An empty block touches no address and is always in bounds.
pub open spec fn block_in_bounds(addr: int, len: int) -> bool {
    len == 0 || (0 <= addr && 0 <= len && addr + len <= 4096)
}

/// `memory` with `bytes` copied over it from `addr` on.
pub open spec fn with_block(memory: Seq<u8>, addr: int, bytes: Seq<u8>) -> Seq<u8> {
    Seq::new(
        memory.len(),
        |a: int|
            if addr <= a < addr + bytes.len() {
                bytes[a - addr]
            } else {
                memory[a]
            },
    )
}

/// The `len` bytes of `memory` from `addr` on.
pub open spec fn block_of(memory: Seq<u8>, addr: int, len: int) -> Seq<u8> {
    Seq::new(len as nat, |k: int| memory[addr + k])
}

pub struct MemoryUnit {
    pub memory: [u8; 4096],
}

impl View for MemoryUnit {
    type V = Seq<u8>;

    open spec fn view(&self) -> Seq<u8> {
        self.memory@
    }
}

impl MemoryUnit {
    /// A memory with every byte zero.
    pub fn new() -> (res: MemoryUnit)
        ensures
            res@ == Seq::new(4096, |a: int| 0u8),
    {
        MemoryUnit { memory: [0u8; 4096] }
    }

    /// The byte at `addr`.
    pub fn read_byte(&self, addr: usize) -> (res: Result<u8, Chip8Error>)
        ensures
            addr < 4096 ==> res == Ok::<u8, Chip8Error>(self@[addr as int]),
            addr >= 4096 ==> res == Err::<u8, Chip8Error>(Chip8Error::AddressOutOfBounds),
    {
        if addr < MEMORY_SIZE {
            Ok(self.memory[addr])
        } else {
            Err(Chip8Error::AddressOutOfBounds)
        }
    }

    /// Stores `value` at `addr`.
    pub fn write_byte(&mut self, addr: usize, value: u8) -> (res: Result<(), Chip8Error>)
        ensures
            addr < 4096 ==> res is Ok && final(self)@ == old(self)@.update(addr as int, value),
            addr >= 4096 ==> res == Err::<(), Chip8Error>(Chip8Error::AddressOutOfBounds)
                && final(self)@ == old(self)@,
    {
        if addr < MEMORY_SIZE {
            self.memory[addr] = value;
            Ok(())
        } else {
            Err(Chip8Error::AddressOutOfBounds)
        }
    }

    /// Copies out the `len` bytes from `addr` on.
    pub fn read_block(&self, addr: usize, len: usize) -> (res: Result<Vec<u8>, Chip8Error>)
        ensures
            block_in_bounds(addr as int, len as int) ==> res is Ok && res->Ok_0@ == block_of(
                self@,
                addr as int,
                len as int,
            ),
            !block_in_bounds(addr as int, len as int) ==> res == Err::<Vec<u8>, Chip8Error>(
                Chip8Error::AddressOutOfBounds,
            ),
    {
        let mut block: Vec<u8> = Vec::new();
        if len == 0 {
            return Ok(block);
        }
        if len > MEMORY_SIZE || addr > MEMORY_SIZE - len {
            return Err(Chip8Error::AddressOutOfBounds);
        }
        let mut k: usize = 0;
        while k < len
            invariant
                k <= len,
                addr + len <= 4096,
                block@ == block_of(self@, addr as int, k as int),
            decreases len - k,
        {
            block.push(self.memory[addr + k]);
            k += 1;
        }
        Ok(block)
    }

    /// Copies `bytes` into memory from `addr` on. A block that does not fit
    /// is refused whole: no byte of it is written.
    pub fn write_block(&mut self, addr: usize, bytes: &[u8]) -> (res: Result<(), Chip8Error>)
        ensures
            block_in_bounds(addr as int, bytes@.len() as int) ==> res is Ok && final(self)@
                == with_block(old(self)@, addr as int, bytes@),
            !block_in_bounds(addr as int, bytes@.len() as int) ==> res == Err::<(), Chip8Error>(
                Chip8Error::AddressOutOfBounds,
            ) && final(self)@ == old(self)@,
    {
        let len: usize = bytes.len();
        if len == 0 {
            return Ok(());
        }
        if len > MEMORY_SIZE || addr > MEMORY_SIZE - len {
            return Err(Chip8Error::AddressOutOfBounds);
        }
        let mut k: usize = 0;
        while k < len
            invariant
                k <= len,
                len == bytes@.len(),
                addr + len <= 4096,
                self@ == with_block(old(self)@, addr as int, bytes@.take(k as int)),
            decreases len - k,
        {
            self.memory[addr + k] = bytes[k];
            k += 1;
        }
        Ok(())
    }

    /// Copies a program into memory from the program start on. A program
    /// that does not fit is refused whole.
    pub fn load_program(&mut self, bytes: &[u8]) -> (res: Result<(), Chip8Error>)
        ensures
            bytes@.len() <= 4096 - 0x200 ==> res is Ok && final(self)@ == with_block(
                old(self)@,
                0x200,
                bytes@,
            ),
            bytes@.len() > 4096 - 0x200 ==> res == Err::<(), Chip8Error>(Chip8Error::RomTooLarge)
                && final(self)@ == old(self)@,
    {
        if bytes.len() > MEMORY_SIZE - PROGRAM_START {
            return Err(Chip8Error::RomTooLarge);
        }
        match self.write_block(PROGRAM_START, bytes) {
            Ok(()) => Ok(()),
            Err(_) => Err(Chip8Error::RomTooLarge),
        }
    }
}

} // verus!

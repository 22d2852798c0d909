//! The two address spaces of the machine and the decoding of bus addresses.

use vstd::prelude::*;
use crate::error::VmError;

verus! {

/// The number of bytes in the ROM, and in the RAM.
pub const MEMORY_SIZE: usize = 0xFFFF;

/// The first RAM address of a machine that was not told otherwise: the
/// address space is split by the top bit of the address.
pub const DEFAULT_RAM_BASE: u16 = 0x8000;

/// The address of the first byte of the stack window.
pub const STACK_BASE: u16 = 0xFF00;

/// The place that a bus address stands for: a space, and an offset into it.
#[derive(Clone, Copy, Debug, PartialEq, Eq, Structural)]
pub enum Location {
    Rom(usize),
    Ram(usize),
}

/// The contents of the memory as mathematical sequences.
#[verifier::ext_equal]
pub struct MemoryState {
    pub rom: Seq<u8>,
    pub ram: Seq<u8>,
    pub ram_base: u16,
}

impl MemoryState {
    /// Both spaces have their fixed size; the ROM holds address 0 and the RAM
    /// holds the whole stack window.
    pub open spec fn wf(self) -> bool {
        &&& self.rom.len() == MEMORY_SIZE
        &&& self.ram.len() == MEMORY_SIZE
        &&& 1 <= self.ram_base <= STACK_BASE
    }

    /// Addresses below the RAM base are ROM offsets; the others count from
    /// the RAM base.
    pub open spec fn locate(self, address: u16) -> Location {
        if address < self.ram_base {
            Location::Rom(address as usize)
        } else {
            Location::Ram((address - self.ram_base) as usize)
        }
    }

    /// The byte that a read of `address` yields.
    pub open spec fn read(self, address: u16) -> u8 {
        match self.locate(address) {
            Location::Rom(offset) => self.rom[offset as int],
            Location::Ram(offset) => self.ram[offset as int],
        }
    }

    /// The RAM bytes from offset `start` on, `length` of them or as many as
    /// there are.
    pub open spec fn ram_window(self, start: usize, length: usize) -> Seq<u8> {
        let first = if start < MEMORY_SIZE { start as int } else { MEMORY_SIZE as int };
        let end = if start + length < MEMORY_SIZE { start + length } else { MEMORY_SIZE as int };
        self.ram.subrange(first, end)
    }

    /// Whether a write to `address` is accepted.
    pub open spec fn writable(self, address: u16) -> bool {
        self.locate(address) is Ram
    }

    /// The memory after a write of `value` to `address`: a RAM address takes
    /// the byte, a ROM address changes nothing.
    pub open spec fn write(self, address: u16, value: u8) -> MemoryState {
        match self.locate(address) {
            Location::Rom(_) => self,
            Location::Ram(offset) => MemoryState {
                ram: self.ram.update(offset as int, value),
                ..self
            },
        }
    }
}

/// The ROM, the RAM and the address at which the RAM begins.
#[derive(Debug)]
pub struct Memory {
    rom: Vec<u8>,
    ram: Vec<u8>,
    ram_base: u16,
}

impl View for Memory {
    type V = MemoryState;

    closed spec fn view(&self) -> MemoryState {
        MemoryState { rom: self.rom@, ram: self.ram@, ram_base: self.ram_base }
    }
}

impl Memory {
    /// What every memory that this module hands out satisfies, and every
    /// method keeps.
    pub open spec fn wf(&self) -> bool {
        self@.wf()
    }

    /// Builds the memory around a program image: the image becomes the ROM,
    /// the RAM is all zero. Any image that is not exactly 65,535 bytes long
    /// is refused.
    pub fn new(image: Vec<u8>) -> (built: Result<Memory, VmError>)
        ensures
            built is Ok <==> image@.len() == MEMORY_SIZE,
            built matches Ok(memory) ==> memory.wf() && memory@ == (MemoryState {
                rom: image@,
                ram: Seq::new(MEMORY_SIZE as nat, |i: int| 0u8),
                ram_base: DEFAULT_RAM_BASE,
            }),
            built matches Err(error) ==> error == VmError::InvalidImageSize,
    {
        if image.len() != MEMORY_SIZE {
            return Err(VmError::InvalidImageSize);
        }
        let ram = vec![0u8; MEMORY_SIZE];
        let memory = Memory { rom: image, ram, ram_base: DEFAULT_RAM_BASE };
        assert(memory@.ram =~= Seq::new(MEMORY_SIZE as nat, |i: int| 0u8));
        Ok(memory)
    }

    /// The byte at `address`.
    pub fn read(&self, address: u16) -> (byte: u8)
        requires
            self.wf(),
        ensures
            byte == self@.read(address),
    {
        if address < self.ram_base {
            self.rom[address as usize]
        } else {
            self.ram[(address - self.ram_base) as usize]
        }
    }

    /// Stores `value` at `address` if that is a RAM address. A ROM address is
    /// refused with [`VmError::IllegalWrite`], and nothing changes.
    pub fn write(&mut self, address: u16, value: u8) -> (outcome: Result<(), VmError>)
        requires
            old(self).wf(),
        ensures
            final(self).wf(),
            final(self)@ == old(self)@.write(address, value),
            final(self)@.rom == old(self)@.rom,
            outcome is Ok <==> old(self)@.writable(address),
            outcome matches Err(error) ==> error == VmError::IllegalWrite,
    {
        if address < self.ram_base {
            Err(VmError::IllegalWrite)
        } else {
            let offset: usize = (address - self.ram_base) as usize;
            self.ram.set(offset, value);
            Ok(())
        }
    }

    /// The place that `address` stands for.
    pub fn locate(&self, address: u16) -> (location: Location)
        ensures
            location == self@.locate(address),
    {
        if address < self.ram_base {
            Location::Rom(address as usize)
        } else {
            Location::Ram((address - self.ram_base) as usize)
        }
    }

    /// The first RAM address.
    pub fn ram_base(&self) -> (base: u16)
        ensures
            base == self@.ram_base,
    {
        self.ram_base
    }

    /// Moves the boundary between ROM and RAM addresses.
    ///
    /// The new base is taken if address 0 stays in the ROM and the stack
    /// window stays in the RAM, that is from 1 up to [`STACK_BASE`].
    /// Otherwise nothing changes. The contents of both spaces stay either
    /// way.
    pub fn set_ram_base(&mut self, ram_base: u16) -> (accepted: bool)
        requires
            old(self).wf(),
        ensures
            final(self).wf(),
            accepted <==> 1 <= ram_base <= STACK_BASE,
            accepted ==> final(self)@ == (MemoryState { ram_base, ..old(self)@ }),
            !accepted ==> final(self)@ == old(self)@,
    {
        if ram_base < 1 || ram_base > STACK_BASE {
            return false;
        }
        self.ram_base = ram_base;
        true
    }

    /// Fills the RAM with zeros, as a reset does.
    pub fn clear_ram(&mut self)
        requires
            old(self).wf(),
        ensures
            final(self).wf(),
            final(self)@ == (MemoryState {
                ram: Seq::new(MEMORY_SIZE as nat, |i: int| 0u8),
                ..old(self)@
            }),
    {
        self.ram = vec![0u8; MEMORY_SIZE];
        assert(self@.ram =~= Seq::new(MEMORY_SIZE as nat, |i: int| 0u8));
    }

    /// Copies a window of the RAM for inspection: the bytes from offset
    /// `start` on, `length` of them or as many as there are.
    pub fn ram_window(&self, start: usize, length: usize) -> (window: Vec<u8>)
        requires
            self.wf(),
        ensures
            window@ == self@.ram_window(start, length),
    {
        let first: usize = if start < MEMORY_SIZE { start } else { MEMORY_SIZE };
        let room: usize = MEMORY_SIZE - first;
        let end: usize = if length < room { first + length } else { MEMORY_SIZE };
        let mut window: Vec<u8> = Vec::new();
        let mut offset: usize = first;
        while offset < end
            invariant
                self.wf(),
                first <= offset <= end <= MEMORY_SIZE,
                window@ == self.ram@.subrange(first as int, offset as int),
            decreases end - offset,
        {
            window.push(self.ram[offset]);
            offset = offset + 1;
        }
        window
    }

    /// The program image.
    pub fn rom(&self) -> (bytes: &Vec<u8>)
        ensures
            bytes@ == self@.rom,
    {
        &self.rom
    }

    /// The RAM, byte by byte from offset 0.
    pub fn ram(&self) -> (bytes: &Vec<u8>)
        ensures
            bytes@ == self@.ram,
    {
        &self.ram
    }
}

} // verus!

//! The memory manager: a 64 KiB address space made of a read-only boot image,
//! working RAM, high RAM and an unbacked remainder.

use vstd::prelude::*;

use crate::Fault;

verus! {

/// Size of the boot image mapped at 0x0000-0x00FF.
pub const BOOT_ROM_SIZE: usize = 0x100;

/// Size of working RAM, mapped at 0xC000-0xDFFF.
pub const RAM_SIZE: usize = 0x2000;

/// Size of high RAM, mapped at 0xFF80-0xFFFE.
pub const HRAM_SIZE: usize = 0x7f;

/// Number of addresses the CPU can reach.
pub const ADDR_SPACE: usize = 0x10000;

pub open spec fn in_boot_rom(addr: u16) -> bool {
    addr <= 0x00ff
}

pub open spec fn in_ram(addr: u16) -> bool {
    0xc000 <= addr <= 0xdfff
}

pub open spec fn in_hram(addr: u16) -> bool {
    0xff80 <= addr <= 0xfffe
}

/// An address whose writes are kept (working RAM or high RAM).
pub open spec fn writable(addr: u16) -> bool {
    in_ram(addr) || in_hram(addr)
}

/// The memory after a byte write: backed RAM takes the byte, every other
/// address ignores it.
pub open spec fn mem_write(mem: Seq<u8>, addr: u16, val: u8) -> Seq<u8> {
    if writable(addr) {
        mem.update(addr as int, val)
    } else {
        mem
    }
}

/// Little-endian 16-bit value at `addr` (the high byte at `addr + 1`, wrapping).
pub open spec fn mem_read16(mem: Seq<u8>, addr: u16) -> u16 {
    (mem[addr as int] as int + 256 * mem[addr.wrapping_add(1) as int] as int) as u16
}

/// The memory after a little-endian 16-bit write: low byte first.
pub open spec fn mem_write16(mem: Seq<u8>, addr: u16, val: u16) -> Seq<u8> {
    mem_write(mem_write(mem, addr, (val % 256) as u8), addr.wrapping_add(1), (val / 256) as u8)
}

#[derive(Debug)]
pub struct MMU {
    boot_rom: Vec<u8>,
    ram: Vec<u8>,
    hram: Vec<u8>,
}

impl MMU {
    /// Backing vectors have their region's size.
    pub closed spec fn wf(&self) -> bool {
        self.boot_rom.len() == BOOT_ROM_SIZE && self.ram.len() == RAM_SIZE && self.hram.len()
            == HRAM_SIZE
    }

    closed spec fn byte_at(&self, addr: u16) -> u8 {
        if in_boot_rom(addr) {
            self.boot_rom@[addr as int]
        } else if in_ram(addr) {
            self.ram@[addr as int - 0xc000]
        } else if in_hram(addr) {
            self.hram@[addr as int - 0xff80]
        } else {
            0xff
        }
    }

    /// The whole address space as the CPU reads it.
    pub closed spec fn view(&self) -> Seq<u8> {
        Seq::new(ADDR_SPACE as nat, |i: int| self.byte_at(i as u16))
    }

    pub proof fn lemma_view_len(&self)
        ensures
            self@.len() == ADDR_SPACE,
    {
    }

    /// Maps `boot_rom` at the lowest addresses and zero-fills both RAMs. The
    /// image must be exactly 256 bytes long.
    pub fn new(boot_rom: Vec<u8>) -> (r: Result<Self, Fault>)
        ensures
            boot_rom.len() == BOOT_ROM_SIZE <==> r is Ok,
            r is Err ==> r == Err::<Self, Fault>(Fault::BadBootImage { len: boot_rom.len() }),
            r matches Ok(m) ==> m.wf() && m@.len() == ADDR_SPACE && (forall|a: u16|
                #![trigger m@[a as int]]
                m@[a as int] == if in_boot_rom(a) {
                    boot_rom@[a as int]
                } else if writable(a) {
                    0
                } else {
                    0xff
                }),
    {
        let len = boot_rom.len();
        if len != BOOT_ROM_SIZE {
            return Err(Fault::BadBootImage { len });
        }
        let m = MMU { boot_rom, ram: vec![0u8; RAM_SIZE], hram: vec![0u8; HRAM_SIZE] };
        Ok(m)
    }

    /// Byte write; discarded outside working RAM and high RAM.
    pub fn write(&mut self, addr: u16, val: u8)
        requires
            old(self).wf(),
        ensures
            final(self).wf(),
            final(self)@ == mem_write(old(self)@, addr, val),
    {
        if 0xc000 <= addr && addr <= 0xdfff {
            self.ram.set((addr - 0xc000) as usize, val);
        } else if 0xff80 <= addr && addr <= 0xfffe {
            self.hram.set((addr - 0xff80) as usize, val);
        }
        assert(self@ =~= mem_write(old(self)@, addr, val));
    }

    /// Byte read; 0xFF outside the three backed regions.
    pub fn read(&self, addr: u16) -> (r: u8)
        requires
            self.wf(),
        ensures
            r == self@[addr as int],
    {
        if addr <= 0x00ff {
            self.boot_rom[addr as usize]
        } else if 0xc000 <= addr && addr <= 0xdfff {
            self.ram[(addr - 0xc000) as usize]
        } else if 0xff80 <= addr && addr <= 0xfffe {
            self.hram[(addr - 0xff80) as usize]
        } else {
            0xff
        }
    }

    /// Little-endian 16-bit write, low byte at `addr`.
    pub fn write16(&mut self, addr: u16, val: u16)
        requires
            old(self).wf(),
        ensures
            final(self).wf(),
            final(self)@ == mem_write16(old(self)@, addr, val),
    {
        self.write(addr, (val % 256) as u8);
        self.write(addr.wrapping_add(1), (val / 256) as u8);
    }

    /// Little-endian 16-bit read, low byte at `addr`.
    pub fn read16(&self, addr: u16) -> (r: u16)
        requires
            self.wf(),
        ensures
            r == mem_read16(self@, addr),
    {
        let lo = self.read(addr);
        let hi = self.read(addr.wrapping_add(1));
        (hi as u16) * 256 + lo as u16
    }
}

} // verus!

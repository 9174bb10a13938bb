//! MBC2: 4-bit ROM banking and 512 half-bytes of built-in RAM.

use vstd::prelude::*;
use crate::cartridge::{byte_or_ff, ram_store, read_banked, write_banked};

verus! {

#[derive(Clone, Copy, Debug, PartialEq, Eq, Structural)]
pub struct MBC2 {
    /// Last ROM bank number written (low four bits).
    pub rom_bank: u8,
    pub enable_ram: bool,
}

impl MBC2 {
    pub open spec fn wf(&self) -> bool {
        self.rom_bank < 0x10
    }

    /// Bank 0 selects bank 1.
    pub open spec fn rom_bank_spec(&self) -> nat {
        if self.rom_bank == 0 {
            1
        } else {
            self.rom_bank as nat
        }
    }

    /// Index into the built-in RAM: 0xA000..0xA1FF, mirrored up to 0xBFFF.
    pub open spec fn ram_index(address: u16) -> int {
        (address as int - 0xa000) % 0x200
    }

    pub open spec fn read_spec(&self, address: u16, rom: Seq<u8>, ram: Seq<u8>) -> u8 {
        if address < 0x4000 {
            byte_or_ff(rom, address as int)
        } else if address < 0x8000 {
            byte_or_ff(rom, self.rom_bank_spec() * 0x4000 + (address as int - 0x4000))
        } else if 0xa000 <= address < 0xc000 && self.enable_ram {
            byte_or_ff(ram, Self::ram_index(address))
        } else {
            0xff
        }
    }

    /// Below 0x4000 address bit 8 chooses: clear toggles RAM enable, set
    /// writes the ROM bank.
    pub open spec fn write_spec(self, address: u16, value: u8) -> MBC2 {
        if address < 0x4000 {
            if address & 0x0100 == 0 {
                MBC2 { enable_ram: !self.enable_ram, ..self }
            } else {
                MBC2 { rom_bank: value & 0x0f, ..self }
            }
        } else {
            self
        }
    }

    /// The RAM keeps the low half of each byte written.
    pub open spec fn ram_write_spec(&self, address: u16, value: u8, ram: Seq<u8>) -> Seq<u8> {
        if 0xa000 <= address < 0xc000 && self.enable_ram {
            ram_store(ram, Self::ram_index(address), value & 0x0f)
        } else {
            ram
        }
    }

    /// The controller at power-on.
    pub open spec fn new_spec() -> MBC2 {
        MBC2 { rom_bank: 1, enable_ram: true }
    }

    pub fn new() -> (r: Self)
        ensures
            r.wf(),
            r == Self::new_spec(),
    {
        MBC2 { rom_bank: 1, enable_ram: true }
    }

    pub fn get_rom_bank(&self) -> (r: u16)
        requires
            self.wf(),
        ensures
            r == self.rom_bank_spec(),
    {
        if self.rom_bank == 0 {
            1
        } else {
            self.rom_bank as u16
        }
    }

    pub fn write(&mut self, address: u16, value: u8, ram: &mut Vec<u8>)
        requires
            old(self).wf(),
        ensures
            final(self).wf(),
            *final(self) == old(self).write_spec(address, value),
            final(ram)@ == old(self).ram_write_spec(address, value, old(ram)@),
    {
        if address < 0x4000 {
            if address & 0x0100 == 0 {
                self.enable_ram = !self.enable_ram;
            } else {
                self.rom_bank = value & 0x0f;
                assert(value & 0x0f < 0x10) by (bit_vector);
            }
        } else if 0xa000 <= address && address < 0xc000 && self.enable_ram {
            write_banked(ram, 0, 0x200, (address - 0xa000) % 0x200, value & 0x0f);
        }
    }

    pub fn read(&self, address: u16, rom: &Vec<u8>, ram: &Vec<u8>) -> (r: u8)
        requires
            self.wf(),
        ensures
            r == self.read_spec(address, rom@, ram@),
    {
        if address < 0x4000 {
            read_banked(rom, 0, 0x4000, address)
        } else if address < 0x8000 {
            read_banked(rom, self.get_rom_bank(), 0x4000, address - 0x4000)
        } else if 0xa000 <= address && address < 0xc000 && self.enable_ram {
            read_banked(ram, 0, 0x200, (address - 0xa000) % 0x200)
        } else {
            0xff
        }
    }
}

} // verus!

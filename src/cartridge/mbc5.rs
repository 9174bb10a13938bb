//! MBC5: 9-bit ROM banking and up to sixteen 8 KiB RAM banks.

use vstd::prelude::*;
use crate::cartridge::{byte_or_ff, ram_store, read_banked, write_banked};

verus! {

#[derive(Clone, Copy, Debug, PartialEq, Eq, Structural)]
pub struct MBC5 {
    pub rom_bank_low: u8,
    /// Bit 8 of the ROM bank number.
    pub rom_bank_high: u8,
    pub ram_bank: u8,
    pub enable_ram: u8,
}

impl MBC5 {
    pub open spec fn wf(&self) -> bool {
        &&& self.rom_bank_high < 2
        &&& self.ram_bank < 0x10
    }

    pub open spec fn rom_bank_spec(&self) -> nat {
        (self.rom_bank_high as nat) * 256 + self.rom_bank_low as nat
    }

    pub open spec fn ram_enabled_spec(&self) -> bool {
        self.enable_ram & 0x0f == 0x0a
    }

    pub open spec fn read_spec(&self, address: u16, rom: Seq<u8>, ram: Seq<u8>) -> u8 {
        if address < 0x4000 {
            byte_or_ff(rom, address as int)
        } else if address < 0x8000 {
            byte_or_ff(rom, self.rom_bank_spec() * 0x4000 + (address as int - 0x4000))
        } else if 0xa000 <= address < 0xc000 && self.ram_enabled_spec() {
            byte_or_ff(ram, self.ram_bank as int * 0x2000 + (address as int - 0xa000))
        } else {
            0xff
        }
    }

    pub open spec fn write_spec(self, address: u16, value: u8) -> MBC5 {
        if address < 0x2000 {
            MBC5 { enable_ram: value, ..self }
        } else if address < 0x3000 {
            MBC5 { rom_bank_low: value, ..self }
        } else if address < 0x4000 {
            MBC5 { rom_bank_high: value & 0x01, ..self }
        } else if address < 0x6000 {
            MBC5 { ram_bank: value & 0x0f, ..self }
        } else {
            self
        }
    }

    pub open spec fn ram_write_spec(&self, address: u16, value: u8, ram: Seq<u8>) -> Seq<u8> {
        if 0xa000 <= address < 0xc000 && self.ram_enabled_spec() {
            ram_store(ram, self.ram_bank as int * 0x2000 + (address as int - 0xa000), value)
        } else {
            ram
        }
    }

    /// The controller at power-on.
    pub open spec fn new_spec() -> MBC5 {
        MBC5 { rom_bank_low: 0, rom_bank_high: 0, ram_bank: 0, enable_ram: 0 }
    }

    pub fn new() -> (r: Self)
        ensures
            r.wf(),
            r == Self::new_spec(),
    {
        MBC5 { rom_bank_low: 0, rom_bank_high: 0, ram_bank: 0, enable_ram: 0 }
    }

    pub fn get_rom_bank(&self) -> (r: u16)
        requires
            self.wf(),
        ensures
            r == self.rom_bank_spec(),
    {
        (self.rom_bank_high as u16) * 256 + self.rom_bank_low as u16
    }

    pub fn is_ram_enabled(&self) -> (r: bool)
        ensures
            r == self.ram_enabled_spec(),
    {
        self.enable_ram & 0x0f == 0x0a
    }

    pub fn write(&mut self, address: u16, value: u8, ram: &mut Vec<u8>)
        requires
            old(self).wf(),
        ensures
            final(self).wf(),
            *final(self) == old(self).write_spec(address, value),
            final(ram)@ == old(self).ram_write_spec(address, value, old(ram)@),
    {
        if address < 0x2000 {
            self.enable_ram = value;
        } else if address < 0x3000 {
            self.rom_bank_low = value;
        } else if address < 0x4000 {
            self.rom_bank_high = value & 0x01;
            assert(value & 0x01 < 2) by (bit_vector);
        } else if address < 0x6000 {
            self.ram_bank = value & 0x0f;
            assert(value & 0x0f < 0x10) by (bit_vector);
        } else if 0xa000 <= address && address < 0xc000 && self.is_ram_enabled() {
            write_banked(ram, self.ram_bank as u16, 0x2000, address - 0xa000, value);
        }
    }

    pub fn read(&self, address: u16, rom: &Vec<u8>, ram: &Vec<u8>) -> (r: u8)
        requires
            self.wf(),
        ensures
            r == self.read_spec(address, rom@, ram@),
    {
        if address < 0x4000 {
            read_banked(rom, 0, 0x4000, address)
        } else if address < 0x8000 {
            read_banked(rom, self.get_rom_bank(), 0x4000, address - 0x4000)
        } else if 0xa000 <= address && address < 0xc000 && self.is_ram_enabled() {
            read_banked(ram, self.ram_bank as u16, 0x2000, address - 0xa000)
        } else {
            0xff
        }
    }
}

} // verus!

//! MBC1 (and cartridges without a controller): 5+2 bit ROM banking and up to
//! four 8 KiB RAM banks.

use vstd::prelude::*;
use crate::cartridge::{byte_or_ff, ram_store, read_banked, write_banked};

verus! {

#[derive(Clone, Copy, Debug, PartialEq, Eq, Structural)]
pub struct MBC1 {
    /// 0: ROM banking mode, 1: RAM banking mode.
    pub bank_mode: u8,
    /// Low five bits of the ROM bank number.
    pub rom_bank: u8,
    /// Two-bit latch: RAM bank, or ROM bank bits 5..6.
    pub shared_bank: u8,
    /// Last value written to the RAM enable range.
    pub enable_ram: u8,
}

impl MBC1 {
    pub open spec fn wf(&self) -> bool {
        &&& self.bank_mode < 2
        &&& self.rom_bank < 0x20
        &&& self.shared_bank < 4
    }

    /// The ROM bank seen at 0x4000..0x7FFF: banks 0x00/0x20/0x40/0x60 map to
    /// the next one.
    pub open spec fn rom_bank_spec(&self) -> nat {
        let n: nat = if self.bank_mode == 1 {
            self.rom_bank as nat
        } else {
            (self.shared_bank as nat) * 32 + self.rom_bank as nat
        };
        if n % 32 == 0 {
            n + 1
        } else {
            n
        }
    }

    pub open spec fn ram_enabled_spec(&self) -> bool {
        self.enable_ram & 0x0f == 0x0a
    }

    pub open spec fn ram_bank_spec(&self) -> nat {
        if self.bank_mode == 1 {
            self.shared_bank as nat
        } else {
            0
        }
    }

    pub open spec fn read_spec(&self, address: u16, rom: Seq<u8>, ram: Seq<u8>) -> u8 {
        if address < 0x4000 {
            byte_or_ff(rom, address as int)
        } else if address < 0x8000 {
            byte_or_ff(rom, self.rom_bank_spec() * 0x4000 + (address as int - 0x4000))
        } else if 0xa000 <= address < 0xc000 && self.ram_enabled_spec() {
            byte_or_ff(ram, self.ram_bank_spec() * 0x2000 + (address as int - 0xa000))
        } else {
            0xff
        }
    }

    /// The controller latches after a write.
    pub open spec fn write_spec(self, address: u16, value: u8) -> MBC1 {
        if address < 0x2000 {
            MBC1 { enable_ram: value, ..self }
        } else if address < 0x4000 {
            MBC1 { rom_bank: value & 0x1f, ..self }
        } else if address < 0x6000 {
            MBC1 { shared_bank: value & 0x03, ..self }
        } else if address < 0x8000 {
            MBC1 { bank_mode: value & 0x01, ..self }
        } else {
            self
        }
    }

    /// The cartridge RAM after a write.
    pub open spec fn ram_write_spec(&self, address: u16, value: u8, ram: Seq<u8>) -> Seq<u8> {
        if 0xa000 <= address < 0xc000 && self.ram_enabled_spec() {
            ram_store(ram, self.ram_bank_spec() * 0x2000 + (address as int - 0xa000), value)
        } else {
            ram
        }
    }

    /// The controller at power-on.
    pub open spec fn new_spec() -> MBC1 {
        MBC1 { bank_mode: 0, rom_bank: 0, shared_bank: 0, enable_ram: 0 }
    }

    pub fn new() -> (r: Self)
        ensures
            r.wf(),
            r == Self::new_spec(),
    {
        MBC1 { bank_mode: 0, rom_bank: 0, shared_bank: 0, enable_ram: 0 }
    }

    pub fn get_rom_bank(&self) -> (r: u16)
        requires
            self.wf(),
        ensures
            r == self.rom_bank_spec(),
    {
        let n: u16 = if self.bank_mode == 1 {
            self.rom_bank as u16
        } else {
            (self.shared_bank as u16) * 32 + self.rom_bank as u16
        };
        if n % 32 == 0 {
            n + 1
        } else {
            n
        }
    }

    pub fn is_ram_enabled(&self) -> (r: bool)
        ensures
            r == self.ram_enabled_spec(),
    {
        self.enable_ram & 0x0f == 0x0a
    }

    pub fn get_ram_bank(&self) -> (r: u16)
        requires
            self.wf(),
        ensures
            r == self.ram_bank_spec(),
    {
        if self.bank_mode == 1 {
            self.shared_bank as u16
        } else {
            0
        }
    }

    pub fn write(&mut self, address: u16, value: u8, ram: &mut Vec<u8>)
        requires
            old(self).wf(),
        ensures
            final(self).wf(),
            *final(self) == old(self).write_spec(address, value),
            final(ram)@ == old(self).ram_write_spec(address, value, old(ram)@),
    {
        if address < 0x2000 {
            self.enable_ram = value;
        } else if address < 0x4000 {
            self.rom_bank = value & 0x1f;
            assert(value & 0x1f < 0x20) by (bit_vector);
        } else if address < 0x6000 {
            self.shared_bank = value & 0x03;
            assert(value & 0x03 < 4) by (bit_vector);
        } else if address < 0x8000 {
            self.bank_mode = value & 0x01;
            assert(value & 0x01 < 2) by (bit_vector);
        } else if 0xa000 <= address && address < 0xc000 && self.is_ram_enabled() {
            let bank = self.get_ram_bank();
            write_banked(ram, bank, 0x2000, address - 0xa000, value);
        }
    }

    pub fn read(&self, address: u16, rom: &Vec<u8>, ram: &Vec<u8>) -> (r: u8)
        requires
            self.wf(),
        ensures
            r == self.read_spec(address, rom@, ram@),
    {
        if address < 0x4000 {
            read_banked(rom, 0, 0x4000, address)
        } else if address < 0x8000 {
            read_banked(rom, self.get_rom_bank(), 0x4000, address - 0x4000)
        } else if 0xa000 <= address && address < 0xc000 && self.is_ram_enabled() {
            read_banked(ram, self.get_ram_bank(), 0x2000, address - 0xa000)
        } else {
            0xff
        }
    }
}

} // verus!

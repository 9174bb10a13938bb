//! The cartridge: ROM and battery RAM images, the header, and the bank
//! controller that the header selects.

use vstd::prelude::*;
use crate::log::Common;

pub mod mbc1;
pub mod mbc2;
pub mod mbc3;
pub mod mbc5;

use mbc1::MBC1;
use mbc2::MBC2;
use mbc3::{MBC3, rtc_tick};
use mbc5::MBC5;

verus! {

/// Byte `i` of `s`, or 0xFF where `s` has none (an open bus).
pub open spec fn byte_or_ff(s: Seq<u8>, i: int) -> u8 {
    if 0 <= i < s.len() {
        s[i]
    } else {
        0xff
    }
}

/// `s` with byte `i` set to `v`; unchanged where `s` has no byte `i`.
pub open spec fn ram_store(s: Seq<u8>, i: int, v: u8) -> Seq<u8> {
    if 0 <= i < s.len() {
        s.update(i, v)
    } else {
        s
    }
}

/// Reads byte `offset` of bank `bank` of `bank_size` bytes.
pub fn read_banked(data: &Vec<u8>, bank: u16, bank_size: u16, offset: u16) -> (r: u8)
    requires
        bank < 0x200,
        bank_size <= 0x4000,
        offset < bank_size,
    ensures
        r == byte_or_ff(data@, bank as int * bank_size as int + offset as int),
{
    assert(bank as int * bank_size as int <= 0x200 * 0x4000) by (nonlinear_arith)
        requires
            bank < 0x200,
            bank_size <= 0x4000,
    ;
    let i: usize = bank as usize * bank_size as usize + offset as usize;
    if i < data.len() {
        data[i]
    } else {
        0xff
    }
}

/// Writes byte `offset` of bank `bank` of `bank_size` bytes.
pub fn write_banked(data: &mut Vec<u8>, bank: u16, bank_size: u16, offset: u16, value: u8)
    requires
        bank < 0x200,
        bank_size <= 0x4000,
        offset < bank_size,
    ensures
        final(data)@ == ram_store(
            old(data)@,
            bank as int * bank_size as int + offset as int,
            value,
        ),
{
    assert(bank as int * bank_size as int <= 0x200 * 0x4000) by (nonlinear_arith)
        requires
            bank < 0x200,
            bank_size <= 0x4000,
    ;
    let i: usize = bank as usize * bank_size as usize + offset as usize;
    if i < data.len() {
        data.set(i, value);
    }
}


/// Why a ROM image cannot be used.
#[derive(Clone, Copy, Debug, PartialEq, Eq, Structural)]
pub enum CartridgeError {
    /// The image is empty or not a whole number of 16 KiB banks.
    RomSize(usize),
    /// The cartridge type byte (0x0147) names no supported controller.
    UnsupportedType(u8),
    /// The RAM size code (0x0149) is not one of 0..5.
    UnsupportedRamSize(u8),
}

/// The controller family of cartridge type `t`: 1 (none or MBC1), 2, 3 or 5;
/// 0 where unsupported.
pub open spec fn mbc_kind(t: u8) -> u8 {
    if t <= 0x03 {
        1
    } else if 0x05 <= t <= 0x06 {
        2
    } else if 0x0f <= t <= 0x13 {
        3
    } else if 0x19 <= t <= 0x1e {
        5
    } else {
        0
    }
}

/// MBC3 with the real-time clock.
pub open spec fn has_rtc(t: u8) -> bool {
    t == 0x0f || t == 0x10
}

/// RAM bytes for size code `code` on cartridge type `t`.
pub open spec fn ram_size_spec(t: u8, code: u8) -> nat {
    if code == 0 {
        if mbc_kind(t) == 2 {
            512
        } else {
            0
        }
    } else if code == 1 {
        0x800
    } else if code == 2 {
        0x2000
    } else if code == 3 {
        0x8000
    } else if code == 4 {
        0x20000
    } else {
        0x10000
    }
}

/// The header check: the size first, then the type byte, then the RAM code.
pub open spec fn check_rom(rom: Seq<u8>) -> Result<(), CartridgeError> {
    if rom.len() == 0 || rom.len() % 0x4000 != 0 {
        Err(CartridgeError::RomSize(rom.len() as usize))
    } else if mbc_kind(rom[0x0147]) == 0 {
        Err(CartridgeError::UnsupportedType(rom[0x0147]))
    } else if rom[0x0149] > 5 {
        Err(CartridgeError::UnsupportedRamSize(rom[0x0149]))
    } else {
        Ok(())
    }
}

pub ghost struct CartridgeView {
    pub rom: Seq<u8>,
    pub ram: Seq<u8>,
    pub cartridge_type: u8,
    pub counter: u8,
    pub mbc1: MBC1,
    pub mbc2: MBC2,
    pub mbc3: MBC3,
    pub mbc5: MBC5,
}

impl CartridgeView {
    pub open spec fn wf(&self) -> bool {
        &&& mbc_kind(self.cartridge_type) != 0
        &&& self.mbc1.wf()
        &&& self.mbc2.wf()
        &&& self.mbc3.wf()
        &&& self.mbc5.wf()
    }

    pub open spec fn read_spec(&self, address: u16) -> u8 {
        let k = mbc_kind(self.cartridge_type);
        if k == 1 {
            self.mbc1.read_spec(address, self.rom, self.ram)
        } else if k == 2 {
            self.mbc2.read_spec(address, self.rom, self.ram)
        } else if k == 3 {
            self.mbc3.read_spec(address, self.rom, self.ram)
        } else {
            self.mbc5.read_spec(address, self.rom, self.ram)
        }
    }

    pub open spec fn write_spec(self, address: u16, value: u8) -> CartridgeView {
        let k = mbc_kind(self.cartridge_type);
        if k == 1 {
            CartridgeView {
                mbc1: self.mbc1.write_spec(address, value),
                ram: self.mbc1.ram_write_spec(address, value, self.ram),
                ..self
            }
        } else if k == 2 {
            CartridgeView {
                mbc2: self.mbc2.write_spec(address, value),
                ram: self.mbc2.ram_write_spec(address, value, self.ram),
                ..self
            }
        } else if k == 3 {
            CartridgeView {
                mbc3: self.mbc3.write_spec(address, value),
                ram: self.mbc3.ram_write_spec(address, value, self.ram),
                ..self
            }
        } else {
            CartridgeView {
                mbc5: self.mbc5.write_spec(address, value),
                ram: self.mbc5.ram_write_spec(address, value, self.ram),
                ..self
            }
        }
    }

    /// The save-file image of the battery RAM.
    pub open spec fn save_spec(&self) -> Seq<u8> {
        self.ram
    }

    /// The cartridge after restoring a save-file image; one of another size
    /// is refused.
    pub open spec fn load_spec(self, data: Seq<u8>) -> CartridgeView {
        if data.len() == self.ram.len() {
            CartridgeView { ram: data, ..self }
        } else {
            self
        }
    }

    /// One frame: a clock cartridge ticks its clock once every `FPS` frames.
    pub open spec fn execute_spec(self) -> CartridgeView {
        if has_rtc(self.cartridge_type) {
            if self.counter + 1 >= Common::FPS {
                CartridgeView {
                    counter: 0,
                    mbc3: MBC3 { rtc: rtc_tick(self.mbc3.rtc), ..self.mbc3 },
                    ..self
                }
            } else {
                CartridgeView { counter: (self.counter + 1) as u8, ..self }
            }
        } else {
            self
        }
    }
}

pub struct Cartridge {
    pub rom: Vec<u8>,
    pub ram: Vec<u8>,
    pub cartridge_type: u8,
    /// Frames since the clock last ticked.
    pub counter: u8,
    pub mbc1: MBC1,
    pub mbc2: MBC2,
    pub mbc3: MBC3,
    pub mbc5: MBC5,
}

impl View for Cartridge {
    type V = CartridgeView;

    open spec fn view(&self) -> CartridgeView {
        CartridgeView {
            rom: self.rom@,
            ram: self.ram@,
            cartridge_type: self.cartridge_type,
            counter: self.counter,
            mbc1: self.mbc1,
            mbc2: self.mbc2,
            mbc3: self.mbc3,
            mbc5: self.mbc5,
        }
    }
}

impl Cartridge {
    /// Checks the header of `rom` and builds the cartridge with zeroed RAM of
    /// the size the header gives.
    pub fn new(rom: Vec<u8>) -> (r: Result<Self, CartridgeError>)
        ensures
            r is Ok <==> check_rom(rom@) is Ok,
            r matches Err(e) ==> check_rom(rom@) == Err::<(), CartridgeError>(e),
            r matches Ok(c) ==> {
                &&& c@.wf()
                &&& c@.rom == rom@
                &&& c@.cartridge_type == rom@[0x0147]
                &&& c@.ram == Seq::new(
                    ram_size_spec(rom@[0x0147], rom@[0x0149]),
                    |i: int| 0u8,
                )
                &&& c@.counter == 0
                &&& c@.mbc1 == MBC1::new_spec()
                &&& c@.mbc2 == MBC2::new_spec()
                &&& c@.mbc3 == MBC3::new_spec()
                &&& c@.mbc5 == MBC5::new_spec()
            },
    {
        let len = rom.len();
        if len == 0 || len % 0x4000 != 0 {
            return Err(CartridgeError::RomSize(len));
        }
        let cartridge_type = rom[0x0147];
        let supported = cartridge_type <= 0x03 || (0x05 <= cartridge_type && cartridge_type
            <= 0x06) || (0x0f <= cartridge_type && cartridge_type <= 0x13) || (0x19
            <= cartridge_type && cartridge_type <= 0x1e);
        if !supported {
            return Err(CartridgeError::UnsupportedType(cartridge_type));
        }
        let code = rom[0x0149];
        if code > 5 {
            return Err(CartridgeError::UnsupportedRamSize(code));
        }
        let ram_size: usize = if code == 0 {
            if 0x05 <= cartridge_type && cartridge_type <= 0x06 {
                512
            } else {
                0
            }
        } else if code == 1 {
            0x800
        } else if code == 2 {
            0x2000
        } else if code == 3 {
            0x8000
        } else if code == 4 {
            0x20000
        } else {
            0x10000
        };
        Ok(
            Cartridge {
                rom,
                ram: crate::bits::byte_vec(ram_size, 0),
                cartridge_type,
                counter: 0,
                mbc1: MBC1::new(),
                mbc2: MBC2::new(),
                mbc3: MBC3::new(),
                mbc5: MBC5::new(),
            },
        )
    }

    /// Called once per frame: a clock cartridge ticks its clock once every
    /// `FPS` frames.
    pub fn execute(&mut self)
        requires
            old(self)@.wf(),
        ensures
            final(self)@.wf(),
            final(self)@ == old(self)@.execute_spec(),
    {
        if self.cartridge_type == 0x0f || self.cartridge_type == 0x10 {
            if self.counter >= Common::FPS - 1 {
                self.counter = 0;
                self.mbc3.exec_rtc();
            } else {
                self.counter = self.counter + 1;
            }
        }
    }

    pub fn write(&mut self, address: u16, value: u8)
        requires
            old(self)@.wf(),
        ensures
            final(self)@.wf(),
            final(self)@ == old(self)@.write_spec(address, value),
    {
        let t = self.cartridge_type;
        if t <= 0x03 {
            self.mbc1.write(address, value, &mut self.ram);
        } else if 0x05 <= t && t <= 0x06 {
            self.mbc2.write(address, value, &mut self.ram);
        } else if 0x0f <= t && t <= 0x13 {
            self.mbc3.write(address, value, &mut self.ram);
        } else {
            self.mbc5.write(address, value, &mut self.ram);
        }
    }

    pub fn read(&self, address: u16) -> (r: u8)
        requires
            self@.wf(),
        ensures
            r == self@.read_spec(address),
    {
        let t = self.cartridge_type;
        if t <= 0x03 {
            self.mbc1.read(address, &self.rom, &self.ram)
        } else if 0x05 <= t && t <= 0x06 {
            self.mbc2.read(address, &self.rom, &self.ram)
        } else if 0x0f <= t && t <= 0x13 {
            self.mbc3.read(address, &self.rom, &self.ram)
        } else {
            self.mbc5.read(address, &self.rom, &self.ram)
        }
    }

    /// Whether the cartridge carries the MBC3 real-time clock.
    pub fn has_rtc(&self) -> (r: bool)
        ensures
            r == has_rtc(self.cartridge_type),
    {
        self.cartridge_type == 0x0f || self.cartridge_type == 0x10
    }

    /// The battery RAM image, as written to the save file.
    pub fn save(&self) -> (r: Vec<u8>)
        ensures
            r@ == self@.save_spec(),
    {
        let mut out: Vec<u8> = Vec::new();
        let mut i: usize = 0;
        while i < self.ram.len()
            invariant
                i <= self.ram@.len(),
                out@ == self.ram@.subrange(0, i as int),
            decreases self.ram@.len() - i,
        {
            out.push(self.ram[i]);
            i = i + 1;
            assert(out@ =~= self.ram@.subrange(0, i as int));
        }
        assert(out@ =~= self.ram@);
        out
    }

    /// Restores the battery RAM from a save file image. An image whose size
    /// differs from the RAM's is refused and the RAM is left as it was.
    pub fn load(&mut self, data: &[u8]) -> (ok: bool)
        requires
            old(self)@.wf(),
        ensures
            final(self)@.wf(),
            ok == (data@.len() == old(self)@.ram.len()),
            final(self)@ == old(self)@.load_spec(data@),
    {
        if data.len() != self.ram.len() {
            return false;
        }
        let mut i: usize = 0;
        while i < data.len()
            invariant
                data@.len() == self.ram@.len(),
                i <= data@.len(),
                self@ == (CartridgeView { ram: self@.ram, ..old(self)@ }),
                forall|j: int| 0 <= j < i ==> #[trigger] self.ram@[j] == data@[j],
            decreases data@.len() - i,
        {
            self.ram.set(i, data[i]);
            i = i + 1;
        }
        assert(self.ram@ =~= data@);
        true
    }
}
} // verus!

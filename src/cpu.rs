//! The CPU: registers, the memory bus that dispatches every access to its
//! device, the instruction interpreter and interrupt servicing.

use vstd::prelude::*;
use crate::alu::{Flags, flags_byte_spec};
use crate::apu::{APU, ApuView};
use crate::cartridge::{Cartridge, CartridgeView};
use crate::joypad::Joypad;
use crate::ppu::{PPU, PpuView};
use crate::timer::Timer;

verus! {

/// The eight 8-bit registers (F held as its four flags), SP and PC.
#[derive(Clone, Copy, Debug, PartialEq, Eq, Structural)]
pub struct Registers {
    pub a: u8,
    pub f: Flags,
    pub b: u8,
    pub c: u8,
    pub d: u8,
    pub e: u8,
    pub h: u8,
    pub l: u8,
    pub sp: u16,
    pub pc: u16,
}

pub open spec fn pair(hi: u8, lo: u8) -> u16 {
    (hi as int * 256 + lo as int) as u16
}

pub open spec fn hi_byte(v: u16) -> u8 {
    (v / 256) as u8
}

pub open spec fn lo_byte(v: u16) -> u8 {
    (v % 256) as u8
}

impl Registers {
    pub open spec fn af(&self) -> u16 {
        pair(self.a, flags_byte_spec(self.f))
    }

    pub open spec fn bc(&self) -> u16 {
        pair(self.b, self.c)
    }

    pub open spec fn de(&self) -> u16 {
        pair(self.d, self.e)
    }

    pub open spec fn hl(&self) -> u16 {
        pair(self.h, self.l)
    }
}

/// Register `i` of the operand slots B, C, D, E, H, L, -, A (slot 6 is the
/// byte at HL, which lives on the bus).
pub open spec fn reg8(r: Registers, i: u8) -> u8 {
    if i == 0 {
        r.b
    } else if i == 1 {
        r.c
    } else if i == 2 {
        r.d
    } else if i == 3 {
        r.e
    } else if i == 4 {
        r.h
    } else if i == 5 {
        r.l
    } else {
        r.a
    }
}

pub open spec fn set_reg8(r: Registers, i: u8, v: u8) -> Registers {
    if i == 0 {
        Registers { b: v, ..r }
    } else if i == 1 {
        Registers { c: v, ..r }
    } else if i == 2 {
        Registers { d: v, ..r }
    } else if i == 3 {
        Registers { e: v, ..r }
    } else if i == 4 {
        Registers { h: v, ..r }
    } else if i == 5 {
        Registers { l: v, ..r }
    } else {
        Registers { a: v, ..r }
    }
}

/// Register pair `i` of BC, DE, HL, SP.
pub open spec fn reg16(r: Registers, i: u8) -> u16 {
    if i == 0 {
        r.bc()
    } else if i == 1 {
        r.de()
    } else if i == 2 {
        r.hl()
    } else {
        r.sp
    }
}

pub open spec fn set_reg16(r: Registers, i: u8, v: u16) -> Registers {
    if i == 0 {
        Registers { b: hi_byte(v), c: lo_byte(v), ..r }
    } else if i == 1 {
        Registers { d: hi_byte(v), e: lo_byte(v), ..r }
    } else if i == 2 {
        Registers { h: hi_byte(v), l: lo_byte(v), ..r }
    } else {
        Registers { sp: v, ..r }
    }
}

/// Everything reachable through the bus.
pub ghost struct BusView {
    pub ram: Seq<u8>,
    pub hram: Seq<u8>,
    pub ie: u8,
    pub iflag: u8,
    pub timer: Timer,
    pub ppu: PpuView,
    pub apu: ApuView,
    pub joypad: Joypad,
    pub cart: CartridgeView,
}

impl BusView {
    pub open spec fn wf(&self) -> bool {
        &&& self.ram.len() == 0x2000
        &&& self.hram.len() == 0x7f
        &&& self.timer.wf()
        &&& self.ppu.wf()
        &&& self.apu.wf()
        &&& self.cart.wf()
    }

    /// The byte the CPU reads at `a`.
    pub open spec fn read(&self, a: u16) -> u8 {
        if a < 0x8000 {
            self.cart.read_spec(a)
        } else if a < 0xa000 {
            self.ppu.read_spec(a)
        } else if a < 0xc000 {
            self.cart.read_spec(a)
        } else if a < 0xe000 {
            self.ram[a - 0xc000]
        } else if a < 0xfe00 {
            self.ram[a - 0xe000]
        } else if a < 0xfea0 {
            self.ppu.read_spec(a)
        } else if a < 0xff00 {
            0xff
        } else if a == 0xff00 {
            self.joypad.read_spec(a)
        } else if 0xff04 <= a <= 0xff07 {
            self.timer.read_spec(a)
        } else if a == 0xff0f {
            self.iflag
        } else if 0xff10 <= a <= 0xff3f {
            self.apu.read_spec(a)
        } else if (0xff40 <= a <= 0xff45) || (0xff47 <= a <= 0xff4b) {
            self.ppu.read_spec(a)
        } else if 0xff80 <= a <= 0xfffe {
            self.hram[a - 0xff80]
        } else if a == 0xffff {
            self.ie
        } else {
            0xff
        }
    }

    /// OAM DMA from page `src`: 160 bytes from `src * 0x100` into OAM.
    pub open spec fn dma(self, src: u8) -> BusView {
        if 0x80 <= src <= 0xdf {
            BusView {
                ppu: PpuView {
                    oam: Seq::new(0xa0, |i: int| self.read((src as int * 256 + i) as u16)),
                    ..self.ppu
                },
                ..self
            }
        } else {
            self
        }
    }

    /// The bus after the CPU writes `v` at `a`.
    pub open spec fn write(self, a: u16, v: u8) -> BusView {
        if a < 0x8000 {
            BusView { cart: self.cart.write_spec(a, v), ..self }
        } else if a < 0xa000 {
            BusView { ppu: self.ppu.write_spec(a, v), ..self }
        } else if a < 0xc000 {
            BusView { cart: self.cart.write_spec(a, v), ..self }
        } else if a < 0xe000 {
            BusView { ram: self.ram.update(a - 0xc000, v), ..self }
        } else if a < 0xfe00 {
            BusView { ram: self.ram.update(a - 0xe000, v), ..self }
        } else if a < 0xfea0 {
            BusView { ppu: self.ppu.write_spec(a, v), ..self }
        } else if a < 0xff00 {
            self
        } else if a == 0xff00 {
            BusView { joypad: self.joypad.write_spec(a, v), ..self }
        } else if 0xff04 <= a <= 0xff07 {
            BusView { timer: self.timer.write_spec(a, v), ..self }
        } else if a == 0xff0f {
            BusView { iflag: v, ..self }
        } else if 0xff10 <= a <= 0xff3f {
            BusView { apu: self.apu.write_spec(a, v), ..self }
        } else if (0xff40 <= a <= 0xff45) || (0xff47 <= a <= 0xff4b) {
            BusView { ppu: self.ppu.write_spec(a, v), ..self }
        } else if a == 0xff46 {
            self.dma(v)
        } else if 0xff80 <= a <= 0xfffe {
            BusView { hram: self.hram.update(a - 0xff80, v), ..self }
        } else if a == 0xffff {
            BusView { ie: v, ..self }
        } else {
            self
        }
    }

    /// Little-endian 16-bit read.
    pub open spec fn read16(&self, a: u16) -> u16 {
        pair(self.read(((a + 1) % 65536) as u16), self.read(a))
    }

    /// Little-endian 16-bit write: low byte at `a`, then high byte at `a + 1`.
    pub open spec fn write16(self, a: u16, v: u16) -> BusView {
        self.write(a, lo_byte(v)).write(((a + 1) % 65536) as u16, hi_byte(v))
    }
}

/// The model of the whole machine.
pub ghost struct CpuView {
    pub regs: Registers,
    pub ime: bool,
    pub halt: bool,
    pub cycle: u8,
    pub bus: BusView,
}

pub struct Dmg01Cpu {
    pub regs: Registers,
    /// Interrupt master enable.
    pub ime: bool,
    pub halt: bool,
    /// T-cycles spent by the current step.
    pub cycle: u8,
    pub interrupt_enable: u8,
    pub interrupt_flag: u8,
    /// Work RAM, 0xC000..0xDFFF.
    pub ram: Vec<u8>,
    /// High RAM, 0xFF80..0xFFFE.
    pub hram: Vec<u8>,
    pub timer: Timer,
    pub ppu: PPU,
    pub apu: APU,
    pub joypad: Joypad,
    pub cartridge: Cartridge,
}

impl View for Dmg01Cpu {
    type V = CpuView;

    open spec fn view(&self) -> CpuView {
        CpuView {
            regs: self.regs,
            ime: self.ime,
            halt: self.halt,
            cycle: self.cycle,
            bus: self.bus(),
        }
    }
}

impl Dmg01Cpu {
    pub open spec fn bus(&self) -> BusView {
        BusView {
            ram: self.ram@,
            hram: self.hram@,
            ie: self.interrupt_enable,
            iflag: self.interrupt_flag,
            timer: self.timer,
            ppu: self.ppu@,
            apu: self.apu@,
            joypad: self.joypad,
            cart: self.cartridge@,
        }
    }

    pub open spec fn wf(&self) -> bool {
        self.bus().wf()
    }

    /// Reads the byte at `address` through the memory map.
    pub(crate) fn read_via_map(&self, address: u16) -> (r: u8)
        requires
            self.wf(),
        ensures
            r == self.bus().read(address),
    {
        let a = address;
        if a < 0x8000 {
            self.cartridge.read(a)
        } else if a < 0xa000 {
            self.ppu.read(a)
        } else if a < 0xc000 {
            self.cartridge.read(a)
        } else if a < 0xe000 {
            self.ram[(a - 0xc000) as usize]
        } else if a < 0xfe00 {
            self.ram[(a - 0xe000) as usize]
        } else if a < 0xfea0 {
            self.ppu.read(a)
        } else if a < 0xff00 {
            0xff
        } else if a == 0xff00 {
            self.joypad.read(a)
        } else if 0xff04 <= a && a <= 0xff07 {
            self.timer.read(a)
        } else if a == 0xff0f {
            self.interrupt_flag
        } else if 0xff10 <= a && a <= 0xff3f {
            self.apu.read(a)
        } else if (0xff40 <= a && a <= 0xff45) || (0xff47 <= a && a <= 0xff4b) {
            self.ppu.read(a)
        } else if 0xff80 <= a && a <= 0xfffe {
            self.hram[(a - 0xff80) as usize]
        } else if a == 0xffff {
            self.interrupt_enable
        } else {
            0xff
        }
    }

    /// OAM DMA: copies 160 bytes from `address * 0x100` into OAM. Sources
    /// outside 0x80..0xDF are ignored.
    fn dma_transfer(&mut self, address: u8)
        requires
            old(self).wf(),
        ensures
            final(self).wf(),
            final(self)@ == (CpuView { bus: old(self).bus().dma(address), ..old(self)@ }),
    {
        if 0x80 <= address && address <= 0xdf {
            let ghost b0 = self.bus();
            let src: u16 = (address as u16) * 256;
            let mut i: u16 = 0;
            while i < 0xa0
                invariant
                    self.wf(),
                    0x80 <= address <= 0xdf,
                    src == address as int * 256,
                    i <= 0xa0,
                    self@ == (CpuView { bus: self.bus(), ..old(self)@ }),
                    self.bus() == (BusView {
                        ppu: PpuView { oam: self.bus().ppu.oam, ..b0.ppu },
                        ..b0
                    }),
                    forall|j: int|
                        0 <= j < i ==> #[trigger] self.ppu.oam@[j] == b0.read(
                            (address as int * 256 + j) as u16,
                        ),
                decreases 0xa0 - i,
            {
                let value = self.read_via_map(src + i);
                assert(self.bus().read((src + i) as u16) == b0.read((src + i) as u16));
                self.ppu.oam.set(i as usize, value);
                i = i + 1;
            }
            assert(self.ppu.oam@ =~= Seq::new(
                0xa0,
                |j: int| b0.read((address as int * 256 + j) as u16),
            ));
        }
    }

    /// Writes `value` at `address` through the memory map.
    pub(crate) fn write_via_map(&mut self, address: u16, value: u8)
        requires
            old(self).wf(),
        ensures
            final(self).wf(),
            final(self)@ == (CpuView { bus: old(self).bus().write(address, value), ..old(self)@ }),
    {
        let a = address;
        if a < 0x8000 {
            self.cartridge.write(a, value);
        } else if a < 0xa000 {
            self.ppu.write(a, value);
        } else if a < 0xc000 {
            self.cartridge.write(a, value);
        } else if a < 0xe000 {
            self.ram.set((a - 0xc000) as usize, value);
        } else if a < 0xfe00 {
            self.ram.set((a - 0xe000) as usize, value);
        } else if a < 0xfea0 {
            self.ppu.write(a, value);
        } else if a < 0xff00 {
        } else if a == 0xff00 {
            self.joypad.write(a, value);
        } else if 0xff04 <= a && a <= 0xff07 {
            self.timer.write(a, value);
        } else if a == 0xff0f {
            self.interrupt_flag = value;
        } else if 0xff10 <= a && a <= 0xff3f {
            self.apu.write(a, value);
        } else if (0xff40 <= a && a <= 0xff45) || (0xff47 <= a && a <= 0xff4b) {
            self.ppu.write(a, value);
        } else if a == 0xff46 {
            self.dma_transfer(value);
        } else if 0xff80 <= a && a <= 0xfffe {
            self.hram.set((a - 0xff80) as usize, value);
        } else if a == 0xffff {
            self.interrupt_enable = value;
        }
    }
}

} // verus!

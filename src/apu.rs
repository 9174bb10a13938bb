//! The sound registers as the CPU sees them: a register file over
//! 0xFF10..0xFF3F with per-register read masks, and the log of writes that
//! the sample synthesiser consumes.

use vstd::prelude::*;
use crate::bits::byte_vec;

verus! {

pub const APU_BASE: u16 = 0xff10;
/// Bytes in the register file: 0xFF10..0xFF3F.
pub const APU_SIZE: usize = 0x30;

/// What a read of sound register `address` returns when it holds `value`:
/// write-only bits read back as 0, write-only registers as 0xFF, and wave RAM
/// as stored.
pub open spec fn apu_masked(address: u16, value: u8) -> u8 {
    if address == 0xff10 || address == 0xff12 || address == 0xff17 || address == 0xff21
        || address == 0xff22 || address == 0xff24 || address == 0xff25 {
        value
    } else if address == 0xff11 || address == 0xff16 {
        value & 0xc0
    } else if address == 0xff14 || address == 0xff19 || address == 0xff1e || address == 0xff23 {
        value & 0x40
    } else if address == 0xff1a || address == 0xff26 {
        value & 0x80
    } else if address == 0xff20 {
        value & 0x3f
    } else if address == 0xff13 || address == 0xff15 || address == 0xff18 || address == 0xff1b
        || address == 0xff1d || address == 0xff1f {
        0xff
    } else if 0xff30 <= address <= 0xff3f {
        value
    } else if 0xff27 <= address <= 0xff2f {
        0xff
    } else {
        0
    }
}

pub ghost struct ApuView {
    pub regs: Seq<u8>,
    pub pending: Seq<(u16, u8)>,
}

impl ApuView {
    pub open spec fn wf(&self) -> bool {
        self.regs.len() == APU_SIZE
    }

    pub open spec fn read_spec(&self, address: u16) -> u8 {
        if APU_BASE <= address < APU_BASE + APU_SIZE {
            apu_masked(address, self.regs[address - APU_BASE])
        } else {
            0xff
        }
    }

    /// A write is stored and appended to the log for the synthesiser.
    pub open spec fn write_spec(self, address: u16, value: u8) -> ApuView {
        if APU_BASE <= address < APU_BASE + APU_SIZE {
            ApuView {
                regs: self.regs.update(address - APU_BASE, value),
                pending: self.pending.push((address, value)),
            }
        } else {
            self
        }
    }
}

pub struct APU {
    pub regs: Vec<u8>,
    pub pending: Vec<(u16, u8)>,
}

impl View for APU {
    type V = ApuView;

    open spec fn view(&self) -> ApuView {
        ApuView { regs: self.regs@, pending: self.pending@ }
    }
}

impl APU {
    pub fn new() -> (r: Self)
        ensures
            r@.wf(),
            r@.regs == Seq::new(APU_SIZE as nat, |i: int| 0u8),
            r@.pending.len() == 0,
    {
        APU { regs: byte_vec(APU_SIZE, 0), pending: Vec::new() }
    }

    pub fn read(&self, address: u16) -> (r: u8)
        requires
            self@.wf(),
        ensures
            r == self@.read_spec(address),
    {
        if APU_BASE <= address && address < APU_BASE + APU_SIZE as u16 {
            let value = self.regs[(address - APU_BASE) as usize];
            if address == 0xff10 || address == 0xff12 || address == 0xff17 || address == 0xff21
                || address == 0xff22 || address == 0xff24 || address == 0xff25 {
                value
            } else if address == 0xff11 || address == 0xff16 {
                value & 0xc0
            } else if address == 0xff14 || address == 0xff19 || address == 0xff1e || address
                == 0xff23 {
                value & 0x40
            } else if address == 0xff1a || address == 0xff26 {
                value & 0x80
            } else if address == 0xff20 {
                value & 0x3f
            } else if address == 0xff13 || address == 0xff15 || address == 0xff18 || address
                == 0xff1b || address == 0xff1d || address == 0xff1f {
                0xff
            } else if 0xff30 <= address && address <= 0xff3f {
                value
            } else if 0xff27 <= address && address <= 0xff2f {
                0xff
            } else {
                0
            }
        } else {
            0xff
        }
    }

    pub fn write(&mut self, address: u16, value: u8)
        requires
            old(self)@.wf(),
        ensures
            final(self)@.wf(),
            final(self)@ == old(self)@.write_spec(address, value),
    {
        if APU_BASE <= address && address < APU_BASE + APU_SIZE as u16 {
            self.regs.set((address - APU_BASE) as usize, value);
            self.pending.push((address, value));
        }
    }

    /// Hands over the writes logged since the last call, oldest first.
    pub fn take_writes(&mut self) -> (r: Vec<(u16, u8)>)
        ensures
            r@ == old(self)@.pending,
            final(self)@ == (ApuView { pending: Seq::empty(), ..old(self)@ }),
    {
        let mut out: Vec<(u16, u8)> = Vec::new();
        std::mem::swap(&mut out, &mut self.pending);
        out
    }
}

} // verus!

//! The instruction interpreter: each executable step is proved to do what
//! the instruction-set model says.

use vstd::prelude::*;
use crate::alu::{
    add16,
    add8,
    add_sp,
    and8,
    daa,
    dec8,
    flags_byte,
    flags_of,
    inc8,
    or8,
    pow2_exec,
    shift,
    sub8,
    xor8,
    AluOut,
    Flags,
};
use crate::cartridge::{check_rom, Cartridge, CartridgeError};
use crate::apu::APU;
use crate::joypad::Joypad;
use crate::ppu::PPU;
use crate::timer::Timer;
use crate::bits::byte_vec;
use crate::cpu::{pair, reg16, set_reg16, Dmg01Cpu, Registers};
use crate::isa::{
    add_cycles,
    call_isr_spec,
    defined_opcode,
    first_irq,
    pending_irqs,
    run_spec,
    step_spec,
    update_device_spec,
    alu_op,
    cond,
    drop16,
    exec_block0,
    exec_block1,
    exec_block2,
    exec_block3,
    exec_cb,
    fetch_execute_spec,
    imm16,
    imm8,
    load_slot,
    push16,
    set_a_flags,
    skip,
    store_result,
    store_slot,
    top16,
    with_regs,
    wrap16,
    write16,
    write8,
    CB_OPECODE_CYCLES,
    OPECODE_CYCLES,
};

verus! {

fn make_16bit(high: u8, low: u8) -> (r: u16)
    ensures
        r == pair(high, low),
{
    high as u16 * 256 + low as u16
}

fn wrapping_step(v: u16, delta: i32) -> (r: u16)
    requires
        -256 <= delta <= 256,
    ensures
        r == wrap16(v + delta),
{
    ((v as i32 + delta + 0x20000) % 65536) as u16
}

impl Dmg01Cpu {
    fn get_bc(&self) -> (r: u16)
        ensures
            r == self.regs.bc(),
    {
        make_16bit(self.regs.b, self.regs.c)
    }

    fn get_de(&self) -> (r: u16)
        ensures
            r == self.regs.de(),
    {
        make_16bit(self.regs.d, self.regs.e)
    }

    fn get_hl(&self) -> (r: u16)
        ensures
            r == self.regs.hl(),
    {
        make_16bit(self.regs.h, self.regs.l)
    }

    fn get_af(&self) -> (r: u16)
        ensures
            r == self.regs.af(),
    {
        make_16bit(self.regs.a, flags_byte(self.regs.f))
    }

    fn read16_regster(&self, index: u8) -> (r: u16)
        ensures
            r == reg16(self.regs, index),
    {
        if index == 0 {
            self.get_bc()
        } else if index == 1 {
            self.get_de()
        } else if index == 2 {
            self.get_hl()
        } else {
            self.regs.sp
        }
    }

    fn write16_regster(&mut self, index: u8, value: u16)
        ensures
            final(self)@ == with_regs(old(self)@, set_reg16(old(self).regs, index, value)),
            final(self).bus() == old(self).bus(),
    {
        let hi = (value / 256) as u8;
        let lo = (value % 256) as u8;
        if index == 0 {
            self.regs.b = hi;
            self.regs.c = lo;
        } else if index == 1 {
            self.regs.d = hi;
            self.regs.e = lo;
        } else if index == 2 {
            self.regs.h = hi;
            self.regs.l = lo;
        } else {
            self.regs.sp = value;
        }
    }

    /// Reads the byte at `address` through the memory map.
    pub fn read8(&self, address: u16) -> (r: u8)
        requires
            self.wf(),
        ensures
            r == self.bus().read(address),
    {
        self.read_via_map(address)
    }

    /// Writes `value` at `address` through the memory map.
    pub fn write8(&mut self, address: u16, value: u8)
        requires
            old(self).wf(),
        ensures
            final(self).wf(),
            final(self)@ == write8(old(self)@, address, value),
    {
        self.write_via_map(address, value);
    }

    /// Little-endian 16-bit read.
    pub fn read16(&self, address: u16) -> (r: u16)
        requires
            self.wf(),
        ensures
            r == self.bus().read16(address),
    {
        let low = self.read8(address);
        let high = self.read8(wrapping_step(address, 1));
        make_16bit(high, low)
    }

    /// Little-endian 16-bit write: low byte at `address`, high byte after it.
    pub fn write16(&mut self, address: u16, value: u16)
        requires
            old(self).wf(),
        ensures
            final(self).wf(),
            final(self)@ == write16(old(self)@, address, value),
    {
        self.write8(address, (value % 256) as u8);
        self.write8(wrapping_step(address, 1), (value / 256) as u8);
    }

    /// The byte at PC; PC moves past it.
    fn read_pc(&mut self) -> (r: u8)
        requires
            old(self).wf(),
        ensures
            final(self).wf(),
            r == imm8(old(self)@),
            final(self)@ == skip(old(self)@, 1),
    {
        let r = self.read8(self.regs.pc);
        self.regs.pc = wrapping_step(self.regs.pc, 1);
        r
    }

    /// The word at PC; PC moves past it.
    fn read16_pc(&mut self) -> (r: u16)
        requires
            old(self).wf(),
        ensures
            final(self).wf(),
            r == imm16(old(self)@),
            final(self)@ == skip(old(self)@, 2),
    {
        let r = self.read16(self.regs.pc);
        self.regs.pc = wrapping_step(self.regs.pc, 2);
        r
    }

    /// Operand slot `index`: B, C, D, E, H, L, (HL), A.
    fn read_idx(&self, index: u8) -> (r: u8)
        requires
            self.wf(),
        ensures
            r == load_slot(self@, index),
    {
        if index == 0 {
            self.regs.b
        } else if index == 1 {
            self.regs.c
        } else if index == 2 {
            self.regs.d
        } else if index == 3 {
            self.regs.e
        } else if index == 4 {
            self.regs.h
        } else if index == 5 {
            self.regs.l
        } else if index == 6 {
            self.read8(self.get_hl())
        } else {
            self.regs.a
        }
    }

    fn write_idx(&mut self, index: u8, value: u8)
        requires
            old(self).wf(),
        ensures
            final(self).wf(),
            final(self)@ == store_slot(old(self)@, index, value),
    {
        if index == 0 {
            self.regs.b = value;
        } else if index == 1 {
            self.regs.c = value;
        } else if index == 2 {
            self.regs.d = value;
        } else if index == 3 {
            self.regs.e = value;
        } else if index == 4 {
            self.regs.h = value;
        } else if index == 5 {
            self.regs.l = value;
        } else if index == 6 {
            let hl = self.get_hl();
            self.write8(hl, value);
        } else {
            self.regs.a = value;
        }
    }

    fn set_a_flags(&mut self, out: AluOut)
        ensures
            final(self)@ == set_a_flags(old(self)@, out),
            final(self).bus() == old(self).bus(),
    {
        self.regs.a = out.0;
        self.regs.f = out.1;
    }

    fn store_result(&mut self, index: u8, out: AluOut)
        requires
            old(self).wf(),
        ensures
            final(self).wf(),
            final(self)@ == store_result(old(self)@, index, out),
    {
        self.regs.f = out.1;
        self.write_idx(index, out.0);
    }

    fn push(&mut self, value: u16)
        requires
            old(self).wf(),
        ensures
            final(self).wf(),
            final(self)@ == push16(old(self)@, value),
    {
        self.regs.sp = wrapping_step(self.regs.sp, -2);
        let sp = self.regs.sp;
        self.write16(sp, value);
    }

    fn pop(&mut self) -> (r: u16)
        requires
            old(self).wf(),
        ensures
            final(self).wf(),
            r == top16(old(self)@),
            final(self)@ == drop16(old(self)@),
    {
        let r = self.read16(self.regs.sp);
        self.regs.sp = wrapping_step(self.regs.sp, 2);
        r
    }

    /// ALU operation `k` on A and `value`.
    fn alu(&mut self, k: u8, value: u8)
        ensures
            final(self)@ == alu_op(old(self)@, k, value),
            final(self).bus() == old(self).bus(),
    {
        let a = self.regs.a;
        let c = self.regs.f.c;
        if k == 0 {
            self.set_a_flags(add8(a, value, false));
        } else if k == 1 {
            self.set_a_flags(add8(a, value, c));
        } else if k == 2 {
            self.set_a_flags(sub8(a, value, false));
        } else if k == 3 {
            self.set_a_flags(sub8(a, value, c));
        } else if k == 4 {
            self.set_a_flags(and8(a, value));
        } else if k == 5 {
            self.set_a_flags(xor8(a, value));
        } else if k == 6 {
            self.set_a_flags(or8(a, value));
        } else {
            self.regs.f = sub8(a, value, false).1;
        }
    }

    /// Condition code `index`: NZ, Z, NC, C.
    fn conditional(&self, index: u8) -> (r: bool)
        ensures
            r == cond(self.regs.f, index),
    {
        if index == 0 {
            !self.regs.f.z
        } else if index == 1 {
            self.regs.f.z
        } else if index == 2 {
            !self.regs.f.c
        } else {
            self.regs.f.c
        }
    }

    /// Opcodes 0x00..0x3F.
    #[verifier::rlimit(60)]
    fn exec_block0(&mut self, op: u8)
        requires
            old(self).wf(),
            op < 0x40,
            old(self).cycle <= 200,
        ensures
            final(self).wf(),
            final(self)@ == exec_block0(old(self)@, op),
            final(self).cycle <= old(self).cycle + 12,
    {
        let y = (op / 8) % 8;
        let p = op / 16;
        if op % 8 == 4 {
            let v = self.read_idx(y);
            let out = inc8(v, self.regs.f);
            self.store_result(y, out);
        } else if op % 8 == 5 {
            let v = self.read_idx(y);
            let out = dec8(v, self.regs.f);
            self.store_result(y, out);
        } else if op % 8 == 6 {
            let v = self.read_pc();
            self.write_idx(y, v);
        } else if op % 16 == 1 {
            let v = self.read16_pc();
            self.write16_regster(p, v);
        } else if op % 16 == 3 {
            let v = wrapping_step(self.read16_regster(p), 1);
            self.write16_regster(p, v);
        } else if op % 16 == 0x0b {
            let v = wrapping_step(self.read16_regster(p), -1);
            self.write16_regster(p, v);
        } else if op % 16 == 9 {
            let out = add16(self.get_hl(), self.read16_regster(p), self.regs.f);
            self.regs.f = out.1;
            self.write16_regster(2, out.0);
        } else if op == 0x02 {
            let a = self.get_bc();
            self.write8(a, self.regs.a);
        } else if op == 0x12 {
            let a = self.get_de();
            self.write8(a, self.regs.a);
        } else if op == 0x22 || op == 0x32 {
            let hl = self.get_hl();
            self.write8(hl, self.regs.a);
            let next = if op == 0x22 {
                wrapping_step(hl, 1)
            } else {
                wrapping_step(hl, -1)
            };
            self.write16_regster(2, next);
        } else if op == 0x0a {
            self.regs.a = self.read8(self.get_bc());
        } else if op == 0x1a {
            self.regs.a = self.read8(self.get_de());
        } else if op == 0x2a || op == 0x3a {
            let hl = self.get_hl();
            self.regs.a = self.read8(hl);
            let next = if op == 0x2a {
                wrapping_step(hl, 1)
            } else {
                wrapping_step(hl, -1)
            };
            self.write16_regster(2, next);
        } else if op == 0x07 || op == 0x0f || op == 0x17 || op == 0x1f {
            let k: u8 = if op == 0x07 {
                0
            } else if op == 0x0f {
                1
            } else if op == 0x17 {
                2
            } else {
                3
            };
            let out = shift(k, self.regs.a, self.regs.f);
            self.set_a_flags((out.0, Flags { z: false, ..out.1 }));
        } else if op == 0x27 {
            let out = daa(self.regs.a, self.regs.f);
            self.set_a_flags(out);
        } else if op == 0x2f {
            let f = self.regs.f;
            self.set_a_flags((255 - self.regs.a, Flags { n: true, h: true, ..f }));
        } else if op == 0x37 {
            self.regs.f = Flags { n: false, h: false, c: true, ..self.regs.f };
        } else if op == 0x3f {
            self.regs.f = Flags { n: false, h: false, c: !self.regs.f.c, ..self.regs.f };
        } else if op == 0x08 {
            let address = self.read16_pc();
            self.write16(address, self.regs.sp);
        } else if op == 0x18 {
            let d = self.read_pc();
            self.regs.pc = wrapping_step(self.regs.pc, if d < 128 {
                d as i32
            } else {
                d as i32 - 256
            });
        } else if op == 0x20 || op == 0x28 || op == 0x30 || op == 0x38 {
            let d = self.read_pc();
            if self.conditional(y - 4) {
                self.cycle = self.cycle + 4;
                self.regs.pc = wrapping_step(self.regs.pc, if d < 128 {
                    d as i32
                } else {
                    d as i32 - 256
                });
            }
        }
    }

    /// Opcodes 0x40..0x7F.
    fn exec_block1(&mut self, op: u8)
        requires
            old(self).wf(),
            0x40 <= op < 0x80,
        ensures
            final(self).wf(),
            final(self)@ == exec_block1(old(self)@, op),
            final(self).cycle == old(self).cycle,
    {
        if op == 0x76 {
            self.halt = true;
        } else {
            let v = self.read_idx(op % 8);
            self.write_idx((op / 8) % 8, v);
        }
    }

    /// Opcodes 0x80..0xBF.
    fn exec_block2(&mut self, op: u8)
        requires
            old(self).wf(),
            0x80 <= op < 0xc0,
        ensures
            final(self).wf(),
            final(self)@ == exec_block2(old(self)@, op),
            final(self).cycle == old(self).cycle,
    {
        let v = self.read_idx(op % 8);
        self.alu((op / 8) % 8, v);
    }

    /// A CB-prefixed opcode.
    fn exec_cb(&mut self, op: u8)
        requires
            old(self).wf(),
        ensures
            final(self).wf(),
            final(self)@ == exec_cb(old(self)@, op),
            final(self).cycle == old(self).cycle,
    {
        let i = op % 8;
        let b = (op / 8) % 8;
        let v = self.read_idx(i);
        if op < 0x40 {
            let out = shift(b, v, self.regs.f);
            self.store_result(i, out);
        } else if op < 0x80 {
            let m = pow2_exec(b);
            self.regs.f = Flags { z: (v / m) % 2 == 0, n: false, h: true, ..self.regs.f };
        } else if op < 0xc0 {
            let m = pow2_exec(b);
            self.write_idx(i, v & !m);
        } else {
            let m = pow2_exec(b);
            self.write_idx(i, v | m);
        }
    }

    /// Opcodes 0xC0..0xFF.
    #[verifier::rlimit(60)]
    fn exec_block3(&mut self, op: u8)
        requires
            old(self).wf(),
            0xc0 <= op,
            old(self).cycle <= 200,
        ensures
            final(self).wf(),
            final(self)@ == exec_block3(old(self)@, op),
            final(self).cycle <= old(self).cycle + 16,
    {
        let y = (op / 8) % 8;
        let cc = y % 4;
        if op % 8 == 6 {
            let v = self.read_pc();
            self.alu(y, v);
        } else if op % 8 == 7 {
            let pc = self.regs.pc;
            self.push(pc);
            self.regs.pc = (op - 0xc7) as u16;
        } else if op == 0xc1 || op == 0xd1 || op == 0xe1 {
            let v = self.pop();
            self.write16_regster((op - 0xc1) / 16, v);
        } else if op == 0xf1 {
            let v = self.pop();
            self.regs.a = (v / 256) as u8;
            self.regs.f = flags_of((v % 256) as u8);
        } else if op == 0xc5 || op == 0xd5 || op == 0xe5 {
            let v = self.read16_regster((op - 0xc5) / 16);
            self.push(v);
        } else if op == 0xf5 {
            let v = self.get_af();
            self.push(v);
        } else if op == 0xc2 || op == 0xca || op == 0xd2 || op == 0xda {
            let address = self.read16_pc();
            if self.conditional(cc) {
                self.cycle = self.cycle + 4;
                self.regs.pc = address;
            }
        } else if op == 0xc3 {
            let address = self.read16_pc();
            self.regs.pc = address;
        } else if op == 0xe9 {
            self.regs.pc = self.get_hl();
        } else if op == 0xc4 || op == 0xcc || op == 0xd4 || op == 0xdc {
            let address = self.read16_pc();
            if self.conditional(cc) {
                self.cycle = self.cycle + 12;
                let pc = self.regs.pc;
                self.push(pc);
                self.regs.pc = address;
            }
        } else if op == 0xcd {
            let address = self.read16_pc();
            let pc = self.regs.pc;
            self.push(pc);
            self.regs.pc = address;
        } else if op == 0xc0 || op == 0xc8 || op == 0xd0 || op == 0xd8 {
            if self.conditional(cc) {
                self.cycle = self.cycle + 12;
                let v = self.pop();
                self.regs.pc = v;
            }
        } else if op == 0xc9 {
            let v = self.pop();
            self.regs.pc = v;
        } else if op == 0xd9 {
            self.ime = true;
            let v = self.pop();
            self.regs.pc = v;
        } else if op == 0xe0 {
            let n = self.read_pc();
            self.write8(0xff00 + n as u16, self.regs.a);
        } else if op == 0xf0 {
            let n = self.read_pc();
            self.regs.a = self.read8(0xff00 + n as u16);
        } else if op == 0xe2 {
            self.write8(0xff00 + self.regs.c as u16, self.regs.a);
        } else if op == 0xf2 {
            self.regs.a = self.read8(0xff00 + self.regs.c as u16);
        } else if op == 0xea {
            let address = self.read16_pc();
            self.write8(address, self.regs.a);
        } else if op == 0xfa {
            let address = self.read16_pc();
            self.regs.a = self.read8(address);
        } else if op == 0xe8 {
            let d = self.read_pc();
            let out = add_sp(self.regs.sp, d);
            self.regs.sp = out.0;
            self.regs.f = out.1;
        } else if op == 0xf8 {
            let d = self.read_pc();
            let out = add_sp(self.regs.sp, d);
            self.regs.f = out.1;
            self.write16_regster(2, out.0);
        } else if op == 0xf9 {
            self.regs.sp = self.get_hl();
        } else if op == 0xf3 {
            self.ime = false;
        } else if op == 0xfb {
            self.ime = true;
        } else if op == 0xcb {
            self.cb_prefix();
        }
    }

    /// The CB prefix: fetches the second opcode, charges its cycles and runs
    /// it.
    fn cb_prefix(&mut self)
        requires
            old(self).wf(),
            old(self).cycle <= 200,
        ensures
            final(self).wf(),
            final(self)@ == ({
                let s = old(self)@;
                let op2 = imm8(s);
                exec_cb(add_cycles(skip(s, 1), CB_OPECODE_CYCLES@[op2 as int] as int), op2)
            }),
            final(self).cycle <= old(self).cycle + 16,
    {
        let op = self.read_pc();
        assert(CB_OPECODE_CYCLES@[op as int] <= 16);
        self.cycle = self.cycle + CB_OPECODE_CYCLES[op as usize];
        self.exec_cb(op);
    }

    /// Fetches, charges and executes one instruction.
    fn fetch_execute(&mut self)
        requires
            old(self).wf(),
            old(self).cycle <= 24,
        ensures
            final(self).wf(),
            final(self)@ == fetch_execute_spec(old(self)@),
            final(self).cycle <= old(self).cycle + 40,
    {
        let op = self.read_pc();
        assert(OPECODE_CYCLES@[op as int] <= 24);
        self.cycle = self.cycle + OPECODE_CYCLES[op as usize];
        if op < 0x40 {
            self.exec_block0(op);
        } else if op < 0x80 {
            self.exec_block1(op);
        } else if op < 0xc0 {
            self.exec_block2(op);
        } else {
            self.exec_block3(op);
        }
    }

    /// Runs the pixel pipeline and the timer for the step's cycles and
    /// collects the interrupt edges into IF.
    fn update_device(&mut self)
        requires
            old(self).wf(),
        ensures
            final(self).wf(),
            final(self)@ == update_device_spec(old(self)@),
    {
        self.ppu.update(self.cycle);
        self.timer.update(self.cycle);
        if self.ppu.regs.irq_vblank {
            self.interrupt_flag = self.interrupt_flag | 0x01;
            self.ppu.regs.irq_vblank = false;
        }
        if self.ppu.regs.irq_lcdc {
            self.interrupt_flag = self.interrupt_flag | 0x02;
            self.ppu.regs.irq_lcdc = false;
        }
        if self.timer.irq {
            self.interrupt_flag = self.interrupt_flag | 0x04;
            self.timer.irq = false;
        }
        if self.joypad.irq {
            self.interrupt_flag = self.interrupt_flag | 0x10;
            self.joypad.irq = false;
        }
    }

    /// Services interrupt line `index`.
    fn call_isr(&mut self, index: u8)
        requires
            old(self).wf(),
            index < 5,
            old(self).cycle <= 200,
        ensures
            final(self).wf(),
            final(self)@ == call_isr_spec(old(self)@, index),
    {
        self.interrupt_flag = self.interrupt_flag & !pow2_exec(index);
        self.ime = false;
        self.halt = false;
        let isr: u16 = if index == 0 {
            0x40
        } else if index == 1 {
            0x48
        } else if index == 2 {
            0x50
        } else if index == 3 {
            0x58
        } else {
            0x60
        };
        self.cycle = self.cycle + 24;
        let pc = self.regs.pc;
        self.push(pc);
        self.regs.pc = isr;
    }

    /// Services the highest-priority interrupt that is requested and enabled.
    fn update_irqs(&mut self)
        requires
            old(self).wf(),
            old(self).cycle <= 200,
        ensures
            final(self).wf(),
            final(self)@ == call_isr_spec(old(self)@, first_irq(pending_irqs(old(self)@))),
    {
        let p = self.interrupt_flag & self.interrupt_enable & 0x1f;
        let i: u8 = if p & 0x01 != 0 {
            0
        } else if p & 0x02 != 0 {
            1
        } else if p & 0x04 != 0 {
            2
        } else if p & 0x08 != 0 {
            3
        } else {
            4
        };
        self.call_isr(i);
    }

    /// Whether the next step can run: the CPU is halted, or the byte at PC
    /// is a defined opcode.
    pub fn can_execute(&self) -> (r: bool)
        requires
            self.wf(),
        ensures
            r == (self.halt || defined_opcode(self.bus().read(self.regs.pc))),
    {
        if self.halt {
            return true;
        }
        let op = self.read8(self.regs.pc);
        !(op == 0xd3 || op == 0xdb || op == 0xdd || op == 0xe3 || op == 0xe4 || op == 0xeb || op
            == 0xec || op == 0xed || op == 0xf4 || op == 0xfc || op == 0xfd)
    }

    /// One step: an instruction (or 4 idle cycles while halted), the devices
    /// for its cycles, and at most one interrupt. Returns the T-cycles spent.
    #[verifier::rlimit(60)]
    pub fn execute(&mut self) -> (r: u8)
        requires
            old(self).wf(),
            old(self).halt || defined_opcode(old(self).bus().read(old(self).regs.pc)),
        ensures
            final(self).wf(),
            (r, final(self)@) == step_spec(old(self)@),
    {
        self.cycle = 0;
        if self.halt {
            self.cycle = 4;
        } else {
            self.fetch_execute();
        }
        assert(self@ == run_spec(old(self)@));
        let total: u8 = self.cycle;
        self.update_device();
        if self.interrupt_flag & self.interrupt_enable & 0x1f != 0 {
            self.halt = false;
            if self.ime {
                self.cycle = 0;
                self.update_irqs();
                self.update_device();
                assert(total <= 64 && self.cycle <= 24);
                return total + self.cycle;
            }
        }
        total
    }

    /// The machine at power-on with the cartridge in `rom`: PC at 0x0100,
    /// every other register 0, IME and HALT off.
    pub fn new(rom: Vec<u8>) -> (r: Result<Self, CartridgeError>)
        ensures
            r is Ok <==> check_rom(rom@) is Ok,
            r matches Err(e) ==> check_rom(rom@) == Err::<(), CartridgeError>(e),
            r matches Ok(cpu) ==> {
                &&& cpu.wf()
                &&& cpu.regs == Registers {
                    a: 0,
                    f: Flags { z: false, n: false, h: false, c: false },
                    b: 0,
                    c: 0,
                    d: 0,
                    e: 0,
                    h: 0,
                    l: 0,
                    sp: 0,
                    pc: 0x0100,
                }
                &&& !cpu.ime
                &&& !cpu.halt
                &&& cpu.cycle == 0
                &&& cpu.ram@ == Seq::new(0x2000, |i: int| 0u8)
                &&& cpu.hram@ == Seq::new(0x7f, |i: int| 0u8)
                &&& cpu.timer == Timer { counter: 0, irq: false, tima: 0, tma: 0, tac: 0 }
                &&& cpu.joypad == Joypad { p1joyp: 0xff, state: 0xff, irq: false }
                &&& cpu.apu@.pending.len() == 0
                &&& cpu.interrupt_enable == 0
                &&& cpu.interrupt_flag == 0
                &&& cpu.cartridge@.rom == rom@
            },
    {
        let cartridge = match Cartridge::new(rom) {
            Ok(c) => c,
            Err(e) => {
                return Err(e);
            },
        };
        Ok(
            Dmg01Cpu {
                regs: Registers {
                    a: 0,
                    f: Flags { z: false, n: false, h: false, c: false },
                    b: 0,
                    c: 0,
                    d: 0,
                    e: 0,
                    h: 0,
                    l: 0,
                    sp: 0,
                    pc: 0x0100,
                },
                ime: false,
                halt: false,
                cycle: 0,
                interrupt_enable: 0,
                interrupt_flag: 0,
                ram: byte_vec(0x2000, 0),
                hram: byte_vec(0x7f, 0),
                timer: Timer::new(),
                ppu: PPU::new(),
                apu: APU::new(),
                joypad: Joypad::new(),
                cartridge,
            },
        )
    }
}

} // verus!

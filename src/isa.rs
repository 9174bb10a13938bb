//! The instruction set as functions on the machine model: what each opcode
//! does to the registers, the flags, the bus and the step's cycle count.

use vstd::prelude::*;
use crate::alu::{
    add16_spec,
    add8_spec,
    add_sp_spec,
    and8_spec,
    daa_spec,
    dec8_spec,
    flags_of_spec,
    inc8_spec,
    or8_spec,
    pow2,
    shift_spec,
    signed8,
    sub8_spec,
    xor8_spec,
    AluOut,
    Flags,
};
use crate::cpu::{hi_byte, lo_byte, reg16, reg8, set_reg16, set_reg8, BusView, CpuView, Registers};
use crate::joypad::Joypad;
use crate::ppu::{update_view, PpuRegs, PpuView};
use crate::timer::Timer;

verus! {

/// Base T-cycles of each primary opcode.
pub const OPECODE_CYCLES: [u8; 256] = [
    4, 12, 8, 8, 4, 4, 8, 4, 20, 8, 8, 8, 4, 4, 8, 4,
    0, 12, 8, 8, 4, 4, 8, 4, 12, 8, 8, 8, 4, 4, 8, 4,
    8, 12, 8, 8, 4, 4, 8, 4, 8, 8, 8, 8, 4, 4, 8, 4,
    8, 12, 8, 8, 12, 12, 12, 4, 8, 8, 8, 8, 4, 4, 8, 4,
    4, 4, 4, 4, 4, 4, 8, 4, 4, 4, 4, 4, 4, 4, 8, 4,
    4, 4, 4, 4, 4, 4, 8, 4, 4, 4, 4, 4, 4, 4, 8, 4,
    4, 4, 4, 4, 4, 4, 8, 4, 4, 4, 4, 4, 4, 4, 8, 4,
    8, 8, 8, 8, 8, 8, 0, 8, 4, 4, 4, 4, 4, 4, 8, 4,
    4, 4, 4, 4, 4, 4, 8, 4, 4, 4, 4, 4, 4, 4, 8, 4,
    4, 4, 4, 4, 4, 4, 8, 4, 4, 4, 4, 4, 4, 4, 8, 4,
    4, 4, 4, 4, 4, 4, 8, 4, 4, 4, 4, 4, 4, 4, 8, 4,
    4, 4, 4, 4, 4, 4, 8, 4, 4, 4, 4, 4, 4, 4, 8, 4,
    8, 12, 12, 16, 12, 16, 8, 16, 8, 16, 12, 0, 12, 24, 8, 16,
    8, 12, 12, 0, 12, 16, 8, 16, 8, 16, 12, 0, 12, 0, 8, 16,
    12, 12, 8, 0, 0, 16, 8, 16, 16, 4, 16, 0, 0, 0, 8, 16,
    12, 12, 8, 4, 0, 16, 8, 16, 12, 8, 16, 4, 0, 0, 8, 16,
];

/// T-cycles of each CB-prefixed opcode.
pub const CB_OPECODE_CYCLES: [u8; 256] = [
    8, 8, 8, 8, 8, 8, 16, 8, 8, 8, 8, 8, 8, 8, 16, 8,
    8, 8, 8, 8, 8, 8, 16, 8, 8, 8, 8, 8, 8, 8, 16, 8,
    8, 8, 8, 8, 8, 8, 16, 8, 8, 8, 8, 8, 8, 8, 16, 8,
    8, 8, 8, 8, 8, 8, 16, 8, 8, 8, 8, 8, 8, 8, 16, 8,
    8, 8, 8, 8, 8, 8, 12, 8, 8, 8, 8, 8, 8, 8, 12, 8,
    8, 8, 8, 8, 8, 8, 12, 8, 8, 8, 8, 8, 8, 8, 12, 8,
    8, 8, 8, 8, 8, 8, 12, 8, 8, 8, 8, 8, 8, 8, 12, 8,
    8, 8, 8, 8, 8, 8, 12, 8, 8, 8, 8, 8, 8, 8, 12, 8,
    8, 8, 8, 8, 8, 8, 16, 8, 8, 8, 8, 8, 8, 8, 16, 8,
    8, 8, 8, 8, 8, 8, 16, 8, 8, 8, 8, 8, 8, 8, 16, 8,
    8, 8, 8, 8, 8, 8, 16, 8, 8, 8, 8, 8, 8, 8, 16, 8,
    8, 8, 8, 8, 8, 8, 16, 8, 8, 8, 8, 8, 8, 8, 16, 8,
    8, 8, 8, 8, 8, 8, 16, 8, 8, 8, 8, 8, 8, 8, 16, 8,
    8, 8, 8, 8, 8, 8, 16, 8, 8, 8, 8, 8, 8, 8, 16, 8,
    8, 8, 8, 8, 8, 8, 16, 8, 8, 8, 8, 8, 8, 8, 16, 8,
    8, 8, 8, 8, 8, 8, 16, 8, 8, 8, 8, 8, 8, 8, 16, 8,
];

pub open spec fn opcode_cycles(op: u8) -> u8 {
    OPECODE_CYCLES@[op as int]
}

pub open spec fn cb_opcode_cycles(op: u8) -> u8 {
    CB_OPECODE_CYCLES@[op as int]
}

/// The eleven opcodes that the processor does not define.
pub open spec fn defined_opcode(op: u8) -> bool {
    !(op == 0xd3 || op == 0xdb || op == 0xdd || op == 0xe3 || op == 0xe4 || op == 0xeb || op
        == 0xec || op == 0xed || op == 0xf4 || op == 0xfc || op == 0xfd)
}

pub open spec fn wrap16(v: int) -> u16 {
    ((v + 0x20000) % 65536) as u16
}

pub open spec fn with_regs(s: CpuView, r: Registers) -> CpuView {
    CpuView { regs: r, ..s }
}

pub open spec fn set_pc(s: CpuView, pc: u16) -> CpuView {
    with_regs(s, Registers { pc: pc, ..s.regs })
}

/// Steps PC over `n` bytes.
pub open spec fn skip(s: CpuView, n: int) -> CpuView {
    set_pc(s, wrap16(s.regs.pc + n))
}

pub open spec fn set_flags(s: CpuView, f: Flags) -> CpuView {
    with_regs(s, Registers { f: f, ..s.regs })
}

pub open spec fn set_a_flags(s: CpuView, out: AluOut) -> CpuView {
    with_regs(s, Registers { a: out.0, f: out.1, ..s.regs })
}

pub open spec fn add_cycles(s: CpuView, n: int) -> CpuView {
    CpuView { cycle: (s.cycle + n) as u8, ..s }
}

/// The byte after the opcode.
pub open spec fn imm8(s: CpuView) -> u8 {
    s.bus.read(s.regs.pc)
}

/// The little-endian word after the opcode.
pub open spec fn imm16(s: CpuView) -> u16 {
    s.bus.read16(s.regs.pc)
}

pub open spec fn write8(s: CpuView, a: u16, v: u8) -> CpuView {
    CpuView { bus: s.bus.write(a, v), ..s }
}

pub open spec fn write16(s: CpuView, a: u16, v: u16) -> CpuView {
    CpuView { bus: s.bus.write16(a, v), ..s }
}

/// Operand slot `i`: a register, or the byte at HL for slot 6.
pub open spec fn load_slot(s: CpuView, i: u8) -> u8 {
    if i == 6 {
        s.bus.read(s.regs.hl())
    } else {
        reg8(s.regs, i)
    }
}

pub open spec fn store_slot(s: CpuView, i: u8, v: u8) -> CpuView {
    if i == 6 {
        write8(s, s.regs.hl(), v)
    } else {
        with_regs(s, set_reg8(s.regs, i, v))
    }
}

/// SP goes down by two and `v` is stored there.
pub open spec fn push16(s: CpuView, v: u16) -> CpuView {
    let sp = wrap16(s.regs.sp - 2);
    write16(with_regs(s, Registers { sp: sp, ..s.regs }), sp, v)
}

/// The word at SP.
pub open spec fn top16(s: CpuView) -> u16 {
    s.bus.read16(s.regs.sp)
}

/// SP goes up by two.
pub open spec fn drop16(s: CpuView) -> CpuView {
    with_regs(s, Registers { sp: wrap16(s.regs.sp + 2), ..s.regs })
}

/// Condition code `cc`: NZ, Z, NC, C.
pub open spec fn cond(f: Flags, cc: u8) -> bool {
    if cc == 0 {
        !f.z
    } else if cc == 1 {
        f.z
    } else if cc == 2 {
        !f.c
    } else {
        f.c
    }
}

/// ALU operation `k` on A and `v`: ADD, ADC, SUB, SBC, AND, XOR, OR, CP.
pub open spec fn alu_op(s: CpuView, k: u8, v: u8) -> CpuView {
    let a = s.regs.a;
    let f = s.regs.f;
    if k == 0 {
        set_a_flags(s, add8_spec(a, v, false))
    } else if k == 1 {
        set_a_flags(s, add8_spec(a, v, f.c))
    } else if k == 2 {
        set_a_flags(s, sub8_spec(a, v, false))
    } else if k == 3 {
        set_a_flags(s, sub8_spec(a, v, f.c))
    } else if k == 4 {
        set_a_flags(s, and8_spec(a, v))
    } else if k == 5 {
        set_a_flags(s, xor8_spec(a, v))
    } else if k == 6 {
        set_a_flags(s, or8_spec(a, v))
    } else {
        set_flags(s, sub8_spec(a, v, false).1)
    }
}

/// Writes an operation's result to slot `i` and its flags to F.
pub open spec fn store_result(s: CpuView, i: u8, out: AluOut) -> CpuView {
    store_slot(set_flags(s, out.1), i, out.0)
}

/// Opcodes 0x00..0x3F. `s` has PC past the opcode.
pub open spec fn exec_block0(s: CpuView, op: u8) -> CpuView {
    let y = (op / 8) % 8;
    let p = op / 16;
    let r = s.regs;
    if op % 8 == 4 {
        store_result(s, y, inc8_spec(load_slot(s, y), r.f))
    } else if op % 8 == 5 {
        store_result(s, y, dec8_spec(load_slot(s, y), r.f))
    } else if op % 8 == 6 {
        store_slot(skip(s, 1), y, imm8(s))
    } else if op % 16 == 1 {
        with_regs(skip(s, 2), set_reg16(skip(s, 2).regs, p, imm16(s)))
    } else if op % 16 == 3 {
        with_regs(s, set_reg16(r, p, wrap16(reg16(r, p) + 1)))
    } else if op % 16 == 0x0b {
        with_regs(s, set_reg16(r, p, wrap16(reg16(r, p) - 1)))
    } else if op % 16 == 9 {
        let out = add16_spec(r.hl(), reg16(r, p), r.f);
        with_regs(s, set_reg16(Registers { f: out.1, ..r }, 2, out.0))
    } else if op == 0x02 {
        write8(s, r.bc(), r.a)
    } else if op == 0x12 {
        write8(s, r.de(), r.a)
    } else if op == 0x22 {
        with_regs(write8(s, r.hl(), r.a), set_reg16(r, 2, wrap16(r.hl() + 1)))
    } else if op == 0x32 {
        with_regs(write8(s, r.hl(), r.a), set_reg16(r, 2, wrap16(r.hl() - 1)))
    } else if op == 0x0a {
        with_regs(s, Registers { a: s.bus.read(r.bc()), ..r })
    } else if op == 0x1a {
        with_regs(s, Registers { a: s.bus.read(r.de()), ..r })
    } else if op == 0x2a {
        with_regs(
            s,
            set_reg16(Registers { a: s.bus.read(r.hl()), ..r }, 2, wrap16(r.hl() + 1)),
        )
    } else if op == 0x3a {
        with_regs(
            s,
            set_reg16(Registers { a: s.bus.read(r.hl()), ..r }, 2, wrap16(r.hl() - 1)),
        )
    } else if op == 0x07 || op == 0x0f || op == 0x17 || op == 0x1f {
        let k: u8 = if op == 0x07 {
            0
        } else if op == 0x0f {
            1
        } else if op == 0x17 {
            2
        } else {
            3
        };
        let out = shift_spec(k, r.a, r.f);
        set_a_flags(s, (out.0, Flags { z: false, ..out.1 }))
    } else if op == 0x27 {
        set_a_flags(s, daa_spec(r.a, r.f))
    } else if op == 0x2f {
        set_a_flags(s, ((255 - r.a) as u8, Flags { n: true, h: true, ..r.f }))
    } else if op == 0x37 {
        set_flags(s, Flags { n: false, h: false, c: true, ..r.f })
    } else if op == 0x3f {
        set_flags(s, Flags { n: false, h: false, c: !r.f.c, ..r.f })
    } else if op == 0x08 {
        write16(skip(s, 2), imm16(s), r.sp)
    } else if op == 0x18 {
        set_pc(s, wrap16(r.pc + 1 + signed8(imm8(s))))
    } else if op == 0x20 || op == 0x28 || op == 0x30 || op == 0x38 {
        let t = skip(s, 1);
        if cond(r.f, (y - 4) as u8) {
            set_pc(add_cycles(t, 4), wrap16(r.pc + 1 + signed8(imm8(s))))
        } else {
            t
        }
    } else {
        s
    }
}

/// Opcodes 0x40..0x7F: 8-bit loads between slots, and HALT.
pub open spec fn exec_block1(s: CpuView, op: u8) -> CpuView {
    if op == 0x76 {
        CpuView { halt: true, ..s }
    } else {
        store_slot(s, (op / 8) % 8, load_slot(s, op % 8))
    }
}

/// Opcodes 0x80..0xBF: ALU operations on slots.
pub open spec fn exec_block2(s: CpuView, op: u8) -> CpuView {
    alu_op(s, (op / 8) % 8, load_slot(s, op % 8))
}

/// CB-prefixed opcode `op`: shifts and rotates, BIT, RES, SET.
pub open spec fn exec_cb(s: CpuView, op: u8) -> CpuView {
    let i = op % 8;
    let b = (op / 8) % 8;
    let v = load_slot(s, i);
    if op < 0x40 {
        store_result(s, i, shift_spec(b, v, s.regs.f))
    } else if op < 0x80 {
        set_flags(s, Flags { z: (v as int / pow2(b)) % 2 == 0, n: false, h: true, ..s.regs.f })
    } else if op < 0xc0 {
        store_slot(s, i, v & !(pow2(b) as u8))
    } else {
        store_slot(s, i, v | (pow2(b) as u8))
    }
}

/// Opcodes 0xC0..0xFF: control flow, stack, immediate ALU, high-page
/// loads, SP arithmetic, DI/EI and the CB prefix.
pub open spec fn exec_block3(s: CpuView, op: u8) -> CpuView {
    let r = s.regs;
    let y = (op / 8) % 8;
    let cc = y % 4;
    if op % 8 == 6 {
        alu_op(skip(s, 1), y, imm8(s))
    } else if op % 8 == 7 {
        set_pc(push16(s, r.pc), (op - 0xc7) as u16)
    } else if op == 0xc1 || op == 0xd1 || op == 0xe1 {
        with_regs(drop16(s), set_reg16(drop16(s).regs, (op - 0xc1) as u8 / 16, top16(s)))
    } else if op == 0xf1 {
        let v = top16(s);
        with_regs(drop16(s), Registers { a: hi_byte(v), f: flags_of_spec(lo_byte(v)), ..drop16(s).regs })
    } else if op == 0xc5 || op == 0xd5 || op == 0xe5 {
        push16(s, reg16(r, (op - 0xc5) as u8 / 16))
    } else if op == 0xf5 {
        push16(s, r.af())
    } else if op == 0xc2 || op == 0xca || op == 0xd2 || op == 0xda {
        let t = skip(s, 2);
        if cond(r.f, cc) {
            set_pc(add_cycles(t, 4), imm16(s))
        } else {
            t
        }
    } else if op == 0xc3 {
        set_pc(s, imm16(s))
    } else if op == 0xe9 {
        set_pc(s, r.hl())
    } else if op == 0xc4 || op == 0xcc || op == 0xd4 || op == 0xdc {
        let t = skip(s, 2);
        if cond(r.f, cc) {
            set_pc(push16(add_cycles(t, 12), t.regs.pc), imm16(s))
        } else {
            t
        }
    } else if op == 0xcd {
        let t = skip(s, 2);
        set_pc(push16(t, t.regs.pc), imm16(s))
    } else if op == 0xc0 || op == 0xc8 || op == 0xd0 || op == 0xd8 {
        if cond(r.f, cc) {
            set_pc(drop16(add_cycles(s, 12)), top16(s))
        } else {
            s
        }
    } else if op == 0xc9 {
        set_pc(drop16(s), top16(s))
    } else if op == 0xd9 {
        set_pc(drop16(CpuView { ime: true, ..s }), top16(s))
    } else if op == 0xe0 {
        write8(skip(s, 1), (0xff00 + imm8(s)) as u16, r.a)
    } else if op == 0xf0 {
        with_regs(skip(s, 1), Registers { a: s.bus.read((0xff00 + imm8(s)) as u16), ..skip(s, 1).regs })
    } else if op == 0xe2 {
        write8(s, (0xff00 + r.c) as u16, r.a)
    } else if op == 0xf2 {
        with_regs(s, Registers { a: s.bus.read((0xff00 + r.c) as u16), ..r })
    } else if op == 0xea {
        write8(skip(s, 2), imm16(s), r.a)
    } else if op == 0xfa {
        with_regs(skip(s, 2), Registers { a: s.bus.read(imm16(s)), ..skip(s, 2).regs })
    } else if op == 0xe8 {
        let out = add_sp_spec(r.sp, imm8(s));
        with_regs(skip(s, 1), Registers { sp: out.0, f: out.1, ..skip(s, 1).regs })
    } else if op == 0xf8 {
        let out = add_sp_spec(r.sp, imm8(s));
        with_regs(skip(s, 1), set_reg16(Registers { f: out.1, ..skip(s, 1).regs }, 2, out.0))
    } else if op == 0xf9 {
        with_regs(s, Registers { sp: r.hl(), ..r })
    } else if op == 0xf3 {
        CpuView { ime: false, ..s }
    } else if op == 0xfb {
        CpuView { ime: true, ..s }
    } else if op == 0xcb {
        let op2 = imm8(s);
        exec_cb(add_cycles(skip(s, 1), cb_opcode_cycles(op2) as int), op2)
    } else {
        s
    }
}

/// Fetches the opcode at PC, charges its base cycles and executes it.
pub open spec fn fetch_execute_spec(s: CpuView) -> CpuView {
    let op = s.bus.read(s.regs.pc);
    let t = add_cycles(skip(s, 1), opcode_cycles(op) as int);
    if op < 0x40 {
        exec_block0(t, op)
    } else if op < 0x80 {
        exec_block1(t, op)
    } else if op < 0xc0 {
        exec_block2(t, op)
    } else {
        exec_block3(t, op)
    }
}


/// Advances the pixel pipeline and the timer by the step's cycles, then
/// collects their interrupt edges and the joypad's into IF.
pub open spec fn update_device_spec(s: CpuView) -> CpuView {
    let p = update_view(s.bus.ppu, s.cycle);
    let t = s.bus.timer.update_spec(s.cycle);
    let j = s.bus.joypad;
    let f1 = if p.regs.irq_vblank {
        s.bus.iflag | 0x01
    } else {
        s.bus.iflag
    };
    let f2 = if p.regs.irq_lcdc {
        f1 | 0x02
    } else {
        f1
    };
    let f3 = if t.irq {
        f2 | 0x04
    } else {
        f2
    };
    let f4 = if j.irq {
        f3 | 0x10
    } else {
        f3
    };
    CpuView {
        bus: BusView {
            ppu: PpuView { regs: PpuRegs { irq_vblank: false, irq_lcdc: false, ..p.regs }, ..p },
            timer: Timer { irq: false, ..t },
            joypad: Joypad { irq: false, ..j },
            iflag: f4,
            ..s.bus
        },
        ..s
    }
}

/// The interrupts both requested and enabled.
pub open spec fn pending_irqs(s: CpuView) -> u8 {
    s.bus.iflag & s.bus.ie & 0x1f
}

/// The highest-priority line of a nonzero mask: the lowest set bit.
pub open spec fn first_irq(p: u8) -> u8 {
    if p & 0x01 != 0 {
        0
    } else if p & 0x02 != 0 {
        1
    } else if p & 0x04 != 0 {
        2
    } else if p & 0x08 != 0 {
        3
    } else {
        4
    }
}

/// Handler address of interrupt line `i`: VBlank, STAT, Timer, Serial,
/// Joypad.
pub open spec fn isr_vector(i: u8) -> u16 {
    if i == 0 {
        0x40
    } else if i == 1 {
        0x48
    } else if i == 2 {
        0x50
    } else if i == 3 {
        0x58
    } else {
        0x60
    }
}

/// Servicing line `i`: its IF bit is cleared, IME and HALT drop, 24 cycles
/// are charged, PC is pushed and the handler entered.
pub open spec fn call_isr_spec(s: CpuView, i: u8) -> CpuView {
    let t = CpuView {
        ime: false,
        halt: false,
        cycle: (s.cycle + 24) as u8,
        bus: BusView { iflag: s.bus.iflag & !(pow2(i) as u8), ..s.bus },
        ..s
    };
    set_pc(push16(t, t.regs.pc), isr_vector(i))
}

/// The instruction part of a step: 4 idle cycles while halted, else one
/// instruction.
pub open spec fn run_spec(s: CpuView) -> CpuView {
    let s0 = CpuView { cycle: 0, ..s };
    if s.halt {
        add_cycles(s0, 4)
    } else {
        fetch_execute_spec(s0)
    }
}

/// One step of the machine and the T-cycles it took: the instruction, the
/// devices, and then, when an enabled interrupt is pending, HALT ends and,
/// with IME set, one interrupt is serviced (the devices run again for its
/// cycles).
pub open spec fn step_spec(s: CpuView) -> (u8, CpuView) {
    let s1 = run_spec(s);
    let s2 = update_device_spec(s1);
    if pending_irqs(s2) != 0 {
        let s3 = CpuView { halt: false, ..s2 };
        if s3.ime {
            let s4 = update_device_spec(
                call_isr_spec(CpuView { cycle: 0, ..s3 }, first_irq(pending_irqs(s3))),
            );
            ((s1.cycle + s4.cycle) as u8, s4)
        } else {
            (s1.cycle, s3)
        }
    } else {
        (s1.cycle, s2)
    }
}
} // verus!

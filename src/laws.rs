//! Properties that hold across the library's operations, stated over the
//! models and proved.

use vstd::prelude::*;
use crate::alu::{daa_spec, flags_byte_spec, flags_of_spec, lemma_flags_round_trip, pow2, Flags};
use crate::cartridge::{mbc_kind, CartridgeView};
use crate::cartridge::mbc3::{elapsed, rtc_advance, rtc_file_spec, rtc_text, Rtc};
use crate::decimal::lemma_lines_round_trip;
use crate::cpu::{hi_byte, lo_byte, pair, BusView, CpuView};
use crate::isa::{
    call_isr_spec,
    cb_opcode_cycles,
    cond,
    drop16,
    fetch_execute_spec,
    isr_vector,
    opcode_cycles,
    push16,
    top16,
    wrap16,
};
use crate::ppu::{lemma_settle_wf, mode_of, regs_loose, regs_wf, update_regs, PpuRegs};

verus! {

/// Decimal adjust leaves a value already in BCD unchanged when the flags
/// are clear, and adjusting twice is adjusting once.
pub proof fn lemma_daa_idempotent_on_bcd(a: u8)
    requires
        a / 16 <= 9,
        a % 16 <= 9,
    ensures
        daa_spec(a, Flags { z: false, n: false, h: false, c: false }).0 == a,
        daa_spec(a, Flags { z: false, n: false, h: false, c: false }).1 == (Flags {
            z: a == 0,
            n: false,
            h: false,
            c: false,
        }),
        ({
            let once = daa_spec(a, Flags { z: false, n: false, h: false, c: false });
            daa_spec(once.0, once.1) == once
        }),
{
}

/// Whatever F holds, its low nibble reads as zero.
pub proof fn lemma_f_low_nibble_zero(s: CpuView)
    ensures
        flags_byte_spec(s.regs.f) % 16 == 0,
        s.regs.af() % 16 == 0,
{
}

/// Addresses that behave as plain memory: work RAM, its echo, high RAM, IE
/// and IF.
pub open spec fn plain_address(a: u16) -> bool {
    (0xc000 <= a < 0xfe00) || (0xff80 <= a <= 0xffff) || a == 0xff0f
}

/// A byte written to memory reads back: at the same address for plain
/// memory, and for VRAM and OAM while the pipeline leaves them open; through
/// the echo for work RAM below 0xDE00. The unusable range reads 0xFF.
pub proof fn lemma_write_then_read(b: BusView, a: u16, v: u8)
    requires
        b.wf(),
    ensures
        plain_address(a) ==> b.write(a, v).read(a) == v,
        0x8000 <= a < 0xa000 && mode_of(b.ppu.regs) != 3 ==> b.write(a, v).read(a) == v,
        0xfe00 <= a < 0xfea0 && (mode_of(b.ppu.regs) == 0 || mode_of(b.ppu.regs) == 1) ==> b.write(
            a,
            v,
        ).read(a) == v,
        0xc000 <= a < 0xde00 ==> b.write(a, v).read((a + 0x2000) as u16) == v,
        0xe000 <= a < 0xfe00 ==> b.write(a, v).read((a - 0x2000) as u16) == v,
        0xfea0 <= a < 0xff00 ==> b.write(a, v).read(a) == 0xff,
{
}

/// Stack addresses that are plain RAM.
pub open spec fn stack_in_ram(sp: u16) -> bool {
    let lo = wrap16(sp - 2);
    (0xc000 <= lo && lo + 1 < 0xfe00) || (0xff80 <= lo && lo + 1 <= 0xfffe)
}

/// A word pushed onto a stack in RAM pops back unchanged and SP returns to
/// where it was; popped into AF, it comes back with the low nibble of F
/// cleared.
pub proof fn lemma_push_pop(s: CpuView, v: u16)
    requires
        s.bus.wf(),
        stack_in_ram(s.regs.sp),
    ensures
        top16(push16(s, v)) == v,
        drop16(push16(s, v)).regs.sp == s.regs.sp,
        pair(hi_byte(v), flags_byte_spec(flags_of_spec(lo_byte(v)))) == v & 0xfff0,
{
    let sp = wrap16(s.regs.sp - 2);
    let b1 = s.bus.write(sp, lo_byte(v));
    let b2 = b1.write(wrap16(sp + 1), hi_byte(v));
    assert(wrap16(sp + 1) == sp + 1);
    assert(b2.read(sp) == lo_byte(v));
    assert(b2.read(wrap16(sp + 1)) == hi_byte(v));
    lemma_flags_round_trip(Flags { z: false, n: false, h: false, c: false }, lo_byte(v));
    let x = v;
    assert(((x / 256) as u8 as int * 256 + ((x % 256) as u8 & 0xf0) as int) as u16 == x & 0xfff0)
        by (bit_vector);
}

/// Servicing line `i` clears exactly that bit of IF (when the pushed return
/// address does not land on IF), clears IME and HALT, and enters the line's
/// handler.
pub proof fn lemma_isr_service(s: CpuView, i: u8)
    requires
        s.bus.wf(),
        i < 5,
        wrap16(s.regs.sp - 2) != 0xff0f,
        wrap16(s.regs.sp - 1) != 0xff0f,
        s.cycle <= 231,
    ensures
        call_isr_spec(s, i).bus.iflag == s.bus.iflag & !(pow2(i) as u8),
        !call_isr_spec(s, i).ime,
        !call_isr_spec(s, i).halt,
        call_isr_spec(s, i).regs.pc == isr_vector(i),
        call_isr_spec(s, i).cycle == s.cycle + 24,
{
    let sp = wrap16(s.regs.sp - 2);
    assert(wrap16(sp + 1) == wrap16(s.regs.sp - 1));
}

/// After any update of the pixel pipeline its scheduler invariant holds:
/// the mode in STAT[1:0] is one of 0..3 and agrees with LY, and the dot
/// counter is short of the mode's end.
pub proof fn lemma_update_keeps_mode(r: PpuRegs, cycles: u8)
    requires
        regs_wf(r),
    ensures
        regs_wf(update_regs(r, cycles)),
        mode_of(update_regs(r, cycles)) < 4,
{
    crate::ppu::lemma_mode_edges(update_regs(r, cycles));
    if r.lcdc & 0x80 != 0 {
        let r1 = PpuRegs { counter: (r.counter + cycles) as u16, ..r };
        assert(regs_loose(r1));
        lemma_settle_wf(r1);
    }
}


/// Restoring the image that was saved gives back the same cartridge.
pub proof fn lemma_save_load(c: CartridgeView)
    ensures
        c.load_spec(c.save_spec()) == c,
{
}

/// The extra T-cycles of a taken branch: 4 for JR cc and JP cc, 12 for
/// CALL cc and RET cc; none otherwise.
pub open spec fn branch_penalty(op: u8, f: Flags) -> int {
    let y = (op / 8) % 8;
    if op == 0x20 || op == 0x28 || op == 0x30 || op == 0x38 {
        if cond(f, (y - 4) as u8) {
            4
        } else {
            0
        }
    } else if op == 0xc2 || op == 0xca || op == 0xd2 || op == 0xda {
        if cond(f, y % 4) {
            4
        } else {
            0
        }
    } else if op == 0xc4 || op == 0xcc || op == 0xd4 || op == 0xdc || op == 0xc0 || op == 0xc8
        || op == 0xd0 || op == 0xd8 {
        if cond(f, y % 4) {
            12
        } else {
            0
        }
    } else {
        0
    }
}

/// An instruction costs its opcode's entry of the cycle table, plus the
/// CB table's entry for the second opcode after a CB prefix, plus the
/// penalty of a taken branch.
#[verifier::rlimit(100)]
pub proof fn lemma_cycle_accounting(s: CpuView)
    requires
        s.cycle == 0,
    ensures
        ({
            let op = s.bus.read(s.regs.pc);
            let extra = if op == 0xcb {
                cb_opcode_cycles(s.bus.read(wrap16(s.regs.pc + 1))) as int
            } else {
                0
            };
            fetch_execute_spec(s).cycle == opcode_cycles(op) + extra + branch_penalty(op, s.regs.f)
        }),
{
    let op = s.bus.read(s.regs.pc);
    assert(opcode_cycles(op) <= 24);
    assert(op == 0xcb ==> opcode_cycles(op) == 0);
}

/// A clock saved at time `t0` and loaded `delta` seconds later reads as the
/// saved clock advanced by `delta` seconds through its carry chain.
pub proof fn lemma_rtc_save_load(r: Rtc, t0: u64, delta: u64)
    requires
        t0 + delta < 0x1_0000_0000_0000_0000,
    ensures
        rtc_file_spec(rtc_text(r, t0)) == Some((r, t0)),
        elapsed(t0, (t0 + delta) as u64) == delta,
        rtc_advance(rtc_file_spec(rtc_text(r, t0)).unwrap().0, elapsed(t0, (t0 + delta) as u64))
            == rtc_advance(r, delta as nat),
{
    let ns = seq![r.sec as nat, r.min as nat, r.hour as nat, r.day_low as nat, r.day_high as nat, t0 as nat];
    lemma_lines_round_trip(ns);
}

/// Battery RAM reads back what was written while it is enabled, for the
/// controllers that keep whole bytes (MBC1, MBC3 with a RAM bank selected,
/// MBC5), wherever the selected bank holds the address.
pub proof fn lemma_cartridge_ram_write_then_read(b: BusView, a: u16, v: u8)
    requires
        b.wf(),
        0xa000 <= a < 0xc000,
    ensures
        ({
            let c = b.cart;
            let k = mbc_kind(c.cartridge_type);
            let off = a - 0xa000;
            &&& k == 1 && c.mbc1.ram_enabled_spec() && c.mbc1.ram_bank_spec() * 0x2000 + off
                < c.ram.len() ==> b.write(a, v).read(a) == v
            &&& k == 3 && c.mbc3.ram_rtc_enabled_spec() && c.mbc3.ram_rtc_status <= 3
                && c.mbc3.ram_rtc_status * 0x2000 + off < c.ram.len() ==> b.write(a, v).read(a) == v
            &&& k == 5 && c.mbc5.ram_enabled_spec() && c.mbc5.ram_bank * 0x2000 + off
                < c.ram.len() ==> b.write(a, v).read(a) == v
        }),
{
}
} // verus!

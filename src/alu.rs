//! The arithmetic and logic unit: 8- and 16-bit arithmetic, logic, rotates,
//! shifts, bit operations and decimal adjust, each with its flag results.

use vstd::prelude::*;

verus! {

/// The four CPU flags: zero, subtract, half-carry, carry.
#[derive(Clone, Copy, Debug, PartialEq, Eq, Structural)]
pub struct Flags {
    pub z: bool,
    pub n: bool,
    pub h: bool,
    pub c: bool,
}

pub open spec fn bit_val(b: bool) -> int {
    if b {
        1
    } else {
        0
    }
}

/// The F register: Z, N, H, C in bits 7..4, bits 3..0 zero.
pub open spec fn flags_byte_spec(f: Flags) -> u8 {
    (bit_val(f.z) * 0x80 + bit_val(f.n) * 0x40 + bit_val(f.h) * 0x20 + bit_val(f.c) * 0x10) as u8
}

/// The flags held in bits 7..4 of `v`.
pub open spec fn flags_of_spec(v: u8) -> Flags {
    Flags { z: v & 0x80 != 0, n: v & 0x40 != 0, h: v & 0x20 != 0, c: v & 0x10 != 0 }
}

pub fn flags_byte(f: Flags) -> (r: u8)
    ensures
        r == flags_byte_spec(f),
        r % 16 == 0,
{
    let mut r: u8 = 0;
    if f.z {
        r = r + 0x80;
    }
    if f.n {
        r = r + 0x40;
    }
    if f.h {
        r = r + 0x20;
    }
    if f.c {
        r = r + 0x10;
    }
    r
}

pub fn flags_of(v: u8) -> (r: Flags)
    ensures
        r == flags_of_spec(v),
{
    Flags { z: v & 0x80 != 0, n: v & 0x40 != 0, h: v & 0x20 != 0, c: v & 0x10 != 0 }
}

/// Reading the flags back from their byte gives them unchanged, and a byte
/// goes through the flags with its low nibble cleared.
pub proof fn lemma_flags_round_trip(f: Flags, v: u8)
    ensures
        flags_of_spec(flags_byte_spec(f)) == f,
        flags_byte_spec(flags_of_spec(v)) == v & 0xf0,
{
    let b = flags_byte_spec(f);
    assert(b == 0x80 * bit_val(f.z) + 0x40 * bit_val(f.n) + 0x20 * bit_val(f.h) + 0x10 * bit_val(
        f.c,
    ));
    let z = bit_val(f.z) as u8;
    let n = bit_val(f.n) as u8;
    let h = bit_val(f.h) as u8;
    let c = bit_val(f.c) as u8;
    assert(z <= 1 && n <= 1 && h <= 1 && c <= 1 ==> {
        let x = (0x80 * z + 0x40 * n + 0x20 * h + 0x10 * c) as u8;
        &&& (x & 0x80 != 0) == (z == 1)
        &&& (x & 0x40 != 0) == (n == 1)
        &&& (x & 0x20 != 0) == (h == 1)
        &&& (x & 0x10 != 0) == (c == 1)
    }) by (bit_vector);
    let g = flags_of_spec(v);
    let z2 = bit_val(g.z) as u8;
    let n2 = bit_val(g.n) as u8;
    let h2 = bit_val(g.h) as u8;
    let c2 = bit_val(g.c) as u8;
    assert(z2 == (if v & 0x80 != 0 { 1u8 } else { 0u8 }));
    assert(n2 == (if v & 0x40 != 0 { 1u8 } else { 0u8 }));
    assert(h2 == (if v & 0x20 != 0 { 1u8 } else { 0u8 }));
    assert(c2 == (if v & 0x10 != 0 { 1u8 } else { 0u8 }));
    assert((0x80 * (if v & 0x80 != 0 { 1u8 } else { 0u8 }) + 0x40 * (if v & 0x40 != 0 {
        1u8
    } else {
        0u8
    }) + 0x20 * (if v & 0x20 != 0 { 1u8 } else { 0u8 }) + 0x10 * (if v & 0x10 != 0 {
        1u8
    } else {
        0u8
    })) as u8 == v & 0xf0) by (bit_vector);
}

/// The result of an 8-bit operation: the value and the new flags.
pub type AluOut = (u8, Flags);

/// ADD / ADC: `a + v + carry_in`; H from the low nibbles, C from bit 7.
pub open spec fn add8_spec(a: u8, v: u8, cin: bool) -> AluOut {
    let sum = a + v + bit_val(cin);
    let r = (sum % 256) as u8;
    (r, Flags { z: r == 0, n: false, h: a % 16 + v % 16 + bit_val(cin) > 15, c: sum > 255 })
}

/// SUB / SBC / CP: `a - v - carry_in`; H and C are the borrows.
pub open spec fn sub8_spec(a: u8, v: u8, cin: bool) -> AluOut {
    let r = ((a - v - bit_val(cin) + 512) % 256) as u8;
    (r, Flags { z: r == 0, n: true, h: a % 16 < v % 16 + bit_val(cin), c: a < v + bit_val(cin) })
}

pub open spec fn and8_spec(a: u8, v: u8) -> AluOut {
    let r = a & v;
    (r, Flags { z: r == 0, n: false, h: true, c: false })
}

pub open spec fn or8_spec(a: u8, v: u8) -> AluOut {
    let r = a | v;
    (r, Flags { z: r == 0, n: false, h: false, c: false })
}

pub open spec fn xor8_spec(a: u8, v: u8) -> AluOut {
    let r = a ^ v;
    (r, Flags { z: r == 0, n: false, h: false, c: false })
}

/// INC: H when the low nibble wraps; C is kept.
pub open spec fn inc8_spec(v: u8, f: Flags) -> AluOut {
    let r = ((v + 1) % 256) as u8;
    (r, Flags { z: r == 0, n: false, h: v % 16 == 15, c: f.c })
}

/// DEC: H when the low nibble borrows; C is kept.
pub open spec fn dec8_spec(v: u8, f: Flags) -> AluOut {
    let r = ((v + 255) % 256) as u8;
    (r, Flags { z: r == 0, n: true, h: v % 16 == 0, c: f.c })
}

/// DAA: adjusts A to BCD after an addition (N clear) or a subtraction
/// (N set), as the flags of that operation say.
pub open spec fn daa_spec(a: u8, f: Flags) -> AluOut {
    if f.n {
        let a1 = if f.c {
            ((a + 256 - 0x60) % 256) as u8
        } else {
            a
        };
        let a2 = if f.h {
            ((a1 + 256 - 0x06) % 256) as u8
        } else {
            a1
        };
        (a2, Flags { z: a2 == 0, n: true, h: false, c: f.c })
    } else {
        let c = f.c || a > 0x99;
        let a1 = if c {
            ((a + 0x60) % 256) as u8
        } else {
            a
        };
        let a2 = if f.h || a1 % 16 > 9 {
            ((a1 + 0x06) % 256) as u8
        } else {
            a1
        };
        (a2, Flags { z: a2 == 0, n: false, h: false, c: c })
    }
}

/// The shift and rotate group on operand slots: 0 RLC, 1 RRC, 2 RL, 3 RR,
/// 4 SLA, 5 SRA, 6 SWAP, 7 SRL. Z from the result, N and H cleared, C from
/// the bit shifted out (cleared by SWAP).
pub open spec fn shift_spec(op: u8, v: u8, f: Flags) -> AluOut {
    let (r, c) = if op == 0 {
        (((v * 2) % 256 + v / 128) as u8, v >= 128)
    } else if op == 1 {
        ((v / 2 + (v % 2) * 128) as u8, v % 2 == 1)
    } else if op == 2 {
        (((v * 2) % 256 + bit_val(f.c)) as u8, v >= 128)
    } else if op == 3 {
        ((v / 2 + bit_val(f.c) * 128) as u8, v % 2 == 1)
    } else if op == 4 {
        (((v * 2) % 256) as u8, v >= 128)
    } else if op == 5 {
        ((v / 2 + if v >= 128 {
            128int
        } else {
            0int
        }) as u8, v % 2 == 1)
    } else if op == 6 {
        (((v % 16) * 16 + v / 16) as u8, false)
    } else {
        ((v / 2) as u8, v % 2 == 1)
    };
    (r, Flags { z: r == 0, n: false, h: false, c: c })
}

/// 2 to the power `n`, for bit numbers 0..7.
pub open spec fn pow2(n: u8) -> int {
    if n == 0 {
        1
    } else if n == 1 {
        2
    } else if n == 2 {
        4
    } else if n == 3 {
        8
    } else if n == 4 {
        16
    } else if n == 5 {
        32
    } else if n == 6 {
        64
    } else {
        128
    }
}

/// ADD HL,rr: N cleared, H from bit 11, C from bit 15, Z kept.
pub open spec fn add16_spec(hl: u16, v: u16, f: Flags) -> (u16, Flags) {
    let sum = hl + v;
    (
        (sum % 65536) as u16,
        Flags { z: f.z, n: false, h: hl % 4096 + v % 4096 > 4095, c: sum > 65535 },
    )
}

/// The signed byte `d` as an integer.
pub open spec fn signed8(d: u8) -> int {
    if d < 128 {
        d as int
    } else {
        d - 256
    }
}

/// ADD SP,dd and LD HL,SP+dd: Z and N cleared, H and C from the unsigned
/// sum of the low byte of SP and `d`.
pub open spec fn add_sp_spec(sp: u16, d: u8) -> (u16, Flags) {
    (
        ((sp + signed8(d) + 65536) % 65536) as u16,
        Flags { z: false, n: false, h: sp % 16 + d % 16 > 15, c: sp % 256 + d > 255 },
    )
}

pub fn add8(a: u8, v: u8, cin: bool) -> (r: AluOut)
    ensures
        r == add8_spec(a, v, cin),
{
    let ci: u16 = if cin {
        1
    } else {
        0
    };
    let sum: u16 = a as u16 + v as u16 + ci;
    let r = (sum % 256) as u8;
    (r, Flags { z: r == 0, n: false, h: (a % 16) as u16 + (v % 16) as u16 + ci > 15, c: sum > 255 })
}

pub fn sub8(a: u8, v: u8, cin: bool) -> (r: AluOut)
    ensures
        r == sub8_spec(a, v, cin),
{
    let ci: u16 = if cin {
        1
    } else {
        0
    };
    let r = ((a as u16 + 512 - v as u16 - ci) % 256) as u8;
    (
        r,
        Flags {
            z: r == 0,
            n: true,
            h: ((a % 16) as u16) < (v % 16) as u16 + ci,
            c: (a as u16) < v as u16 + ci,
        },
    )
}

pub fn and8(a: u8, v: u8) -> (r: AluOut)
    ensures
        r == and8_spec(a, v),
{
    let r = a & v;
    (r, Flags { z: r == 0, n: false, h: true, c: false })
}

pub fn or8(a: u8, v: u8) -> (r: AluOut)
    ensures
        r == or8_spec(a, v),
{
    let r = a | v;
    (r, Flags { z: r == 0, n: false, h: false, c: false })
}

pub fn xor8(a: u8, v: u8) -> (r: AluOut)
    ensures
        r == xor8_spec(a, v),
{
    let r = a ^ v;
    (r, Flags { z: r == 0, n: false, h: false, c: false })
}

pub fn inc8(v: u8, f: Flags) -> (r: AluOut)
    ensures
        r == inc8_spec(v, f),
{
    let r = ((v as u16 + 1) % 256) as u8;
    (r, Flags { z: r == 0, n: false, h: v % 16 == 15, c: f.c })
}

pub fn dec8(v: u8, f: Flags) -> (r: AluOut)
    ensures
        r == dec8_spec(v, f),
{
    let r = ((v as u16 + 255) % 256) as u8;
    (r, Flags { z: r == 0, n: true, h: v % 16 == 0, c: f.c })
}

pub fn daa(a: u8, f: Flags) -> (r: AluOut)
    ensures
        r == daa_spec(a, f),
{
    if f.n {
        let a1: u8 = if f.c {
            ((a as u16 + 256 - 0x60) % 256) as u8
        } else {
            a
        };
        let a2: u8 = if f.h {
            ((a1 as u16 + 256 - 0x06) % 256) as u8
        } else {
            a1
        };
        (a2, Flags { z: a2 == 0, n: true, h: false, c: f.c })
    } else {
        let c = f.c || a > 0x99;
        let a1: u8 = if c {
            ((a as u16 + 0x60) % 256) as u8
        } else {
            a
        };
        let a2: u8 = if f.h || a1 % 16 > 9 {
            ((a1 as u16 + 0x06) % 256) as u8
        } else {
            a1
        };
        (a2, Flags { z: a2 == 0, n: false, h: false, c: c })
    }
}

pub fn shift(op: u8, v: u8, f: Flags) -> (r: AluOut)
    requires
        op < 8,
    ensures
        r == shift_spec(op, v, f),
{
    let w = v as u16;
    let cin: u16 = if f.c {
        1
    } else {
        0
    };
    let (r, c): (u8, bool) = if op == 0 {
        (((w * 2) % 256 + w / 128) as u8, v >= 128)
    } else if op == 1 {
        ((w / 2 + (w % 2) * 128) as u8, v % 2 == 1)
    } else if op == 2 {
        (((w * 2) % 256 + cin) as u8, v >= 128)
    } else if op == 3 {
        ((w / 2 + cin * 128) as u8, v % 2 == 1)
    } else if op == 4 {
        (((w * 2) % 256) as u8, v >= 128)
    } else if op == 5 {
        ((w / 2 + if v >= 128 {
            128
        } else {
            0
        }) as u8, v % 2 == 1)
    } else if op == 6 {
        (((w % 16) * 16 + w / 16) as u8, false)
    } else {
        ((w / 2) as u8, v % 2 == 1)
    };
    (r, Flags { z: r == 0, n: false, h: false, c: c })
}

pub fn pow2_exec(n: u8) -> (r: u8)
    requires
        n < 8,
    ensures
        r == pow2(n),
{
    if n == 0 {
        1
    } else if n == 1 {
        2
    } else if n == 2 {
        4
    } else if n == 3 {
        8
    } else if n == 4 {
        16
    } else if n == 5 {
        32
    } else if n == 6 {
        64
    } else {
        128
    }
}

pub fn add16(hl: u16, v: u16, f: Flags) -> (r: (u16, Flags))
    ensures
        r == add16_spec(hl, v, f),
{
    let sum: u32 = hl as u32 + v as u32;
    (
        (sum % 65536) as u16,
        Flags { z: f.z, n: false, h: (hl % 4096) as u32 + (v % 4096) as u32 > 4095, c: sum > 65535 },
    )
}

pub fn add_sp(sp: u16, d: u8) -> (r: (u16, Flags))
    ensures
        r == add_sp_spec(sp, d),
{
    let sum: u32 = if d < 128 {
        sp as u32 + d as u32 + 65536
    } else {
        sp as u32 + d as u32 + 65536 - 256
    };
    (
        (sum % 65536) as u16,
        Flags {
            z: false,
            n: false,
            h: (sp % 16) as u16 + (d % 16) as u16 > 15,
            c: (sp % 256) as u16 + d as u16 > 255,
        },
    )
}

} // verus!

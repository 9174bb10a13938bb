use simple_rustboy::alu::Flags;
use simple_rustboy::cpu::Dmg01Cpu;

/// A 32 KiB ROM without a controller whose code at 0x0100 is `program`.
fn rom_with(program: &[u8]) -> Vec<u8> {
    let mut rom = vec![0u8; 0x8000];
    rom[0x100..0x100 + program.len()].copy_from_slice(program);
    rom
}

fn cpu_with(program: &[u8]) -> Dmg01Cpu {
    Dmg01Cpu::new(rom_with(program)).unwrap()
}

fn flags(cpu: &Dmg01Cpu) -> (bool, bool, bool, bool) {
    let f = cpu.regs.f;
    (f.z, f.n, f.h, f.c)
}

#[test]
fn boot_determinism() {
    let mut cpu = cpu_with(&[0x00]);
    assert_eq!(cpu.regs.a, 0);
    assert_eq!(cpu.regs.b, 0);
    assert_eq!(cpu.regs.c, 0);
    assert_eq!(cpu.regs.d, 0);
    assert_eq!(cpu.regs.e, 0);
    assert_eq!(cpu.regs.h, 0);
    assert_eq!(cpu.regs.l, 0);
    assert_eq!(cpu.regs.f, Flags { z: false, n: false, h: false, c: false });
    assert_eq!(cpu.regs.sp, 0);
    assert_eq!(cpu.regs.pc, 0x0100);
    assert!(!cpu.ime);
    assert!(!cpu.halt);
    let cycles = cpu.execute();
    assert_eq!(cycles, 4);
    assert_eq!(cpu.regs.pc, 0x0101);
}

#[test]
fn half_carry_on_add() {
    // LD A,0x0F; ADD A,0x01
    let mut cpu = cpu_with(&[0x3e, 0x0f, 0xc6, 0x01]);
    cpu.execute();
    cpu.execute();
    assert_eq!(cpu.regs.a, 0x10);
    assert_eq!(flags(&cpu), (false, false, true, false));
}

#[test]
fn bcd_add_then_daa() {
    // LD A,0x15; LD B,0x27; ADD A,B; DAA
    let mut cpu = cpu_with(&[0x3e, 0x15, 0x06, 0x27, 0x80, 0x27]);
    cpu.execute();
    cpu.execute();
    cpu.execute();
    assert_eq!(cpu.regs.a, 0x3c);
    cpu.execute();
    assert_eq!(cpu.regs.a, 0x42);
    assert_eq!(flags(&cpu), (false, false, false, false));
}

#[test]
fn interrupt_latency() {
    // A wait loop (JR -2) at 0x1234.
    let mut rom = rom_with(&[]);
    rom[0x1234] = 0x18;
    rom[0x1235] = 0xfe;
    let mut cpu = Dmg01Cpu::new(rom).unwrap();
    cpu.write8(0xffff, 0x01);
    cpu.write8(0xff0f, 0x01);
    cpu.ime = true;
    cpu.regs.pc = 0x1234;
    cpu.regs.sp = 0xfffe;
    let cycles = cpu.execute();
    assert_eq!(cpu.regs.pc, 0x0040);
    assert_eq!(cpu.regs.sp, 0xfffc);
    assert_eq!(cpu.read8(0xfffc), 0x34);
    assert_eq!(cpu.read8(0xfffd), 0x12);
    assert_eq!(cpu.read8(0xff0f) & 0x01, 0);
    assert!(!cpu.ime);
    assert!(cycles >= 24);
}

#[test]
fn interrupt_ends_halt_and_is_serviced() {
    let mut cpu = cpu_with(&[]);
    cpu.write8(0xffff, 0x04);
    cpu.write8(0xff0f, 0x04);
    cpu.ime = true;
    cpu.halt = true;
    cpu.regs.pc = 0x2000;
    cpu.regs.sp = 0xd000;
    let cycles = cpu.execute();
    assert_eq!(cycles, 28);
    assert!(!cpu.halt);
    assert_eq!(cpu.regs.pc, 0x0050);
    assert_eq!(cpu.read16(0xcffe), 0x2000);
}

#[test]
fn service_clears_exactly_one_bit() {
    let mut cpu = cpu_with(&[0x00]);
    cpu.write8(0xff40, 0x00);
    cpu.write8(0xffff, 0x1c);
    cpu.write8(0xff0f, 0x15);
    cpu.ime = true;
    cpu.regs.sp = 0xdff0;
    cpu.execute();
    // Timer (bit 2) has priority over joypad (bit 4); VBlank (bit 0) is not enabled.
    assert_eq!(cpu.read8(0xff0f), 0x11);
    assert_eq!(cpu.regs.pc, 0x0050);
}

#[test]
fn joypad_and_serial_vectors() {
    for (bit, vector) in [(3u8, 0x58u16), (4, 0x60)] {
        let mut cpu = cpu_with(&[0x00]);
        cpu.write8(0xff40, 0x00);
        cpu.write8(0xffff, 1 << bit);
        cpu.write8(0xff0f, 1 << bit);
        cpu.ime = true;
        cpu.regs.sp = 0xdff0;
        cpu.execute();
        assert_eq!(cpu.regs.pc, vector);
    }
}

#[test]
fn pending_interrupt_without_ime_only_ends_halt() {
    let mut cpu = cpu_with(&[]);
    cpu.write8(0xffff, 0x01);
    cpu.write8(0xff0f, 0x01);
    cpu.halt = true;
    let cycles = cpu.execute();
    assert_eq!(cycles, 4);
    assert!(!cpu.halt);
    assert_eq!(cpu.regs.pc, 0x0100);
}

#[test]
fn timer_overflow_latches_irq() {
    // Four NOPs: 16 T-cycles.
    let mut cpu = cpu_with(&[0x00, 0x00, 0x00, 0x00]);
    cpu.write8(0xff40, 0x00);
    cpu.write8(0xff07, 0x05);
    cpu.write8(0xff05, 0xff);
    cpu.write8(0xff06, 0x80);
    let mut spent = 0u32;
    while spent < 16 {
        spent += cpu.execute() as u32;
    }
    assert_eq!(spent, 16);
    assert_eq!(cpu.read8(0xff05), 0x80);
    assert_eq!(cpu.read8(0xff0f) & 0x04, 0x04);
}

#[test]
fn push_pop_round_trip() {
    // LD SP,0xDFFE; LD DE,0xBEEF; PUSH DE; POP BC
    let mut cpu = cpu_with(&[0x31, 0xfe, 0xdf, 0x11, 0xef, 0xbe, 0xd5, 0xc1]);
    for _ in 0..4 {
        cpu.execute();
    }
    assert_eq!(cpu.regs.b, 0xbe);
    assert_eq!(cpu.regs.c, 0xef);
    assert_eq!(cpu.regs.sp, 0xdffe);
}

#[test]
fn pop_af_clears_low_nibble() {
    // LD SP,0xDFFE; LD BC,0x12FF; PUSH BC; POP AF; PUSH AF; POP DE
    let mut cpu = cpu_with(&[0x31, 0xfe, 0xdf, 0x01, 0xff, 0x12, 0xc5, 0xf1, 0xf5, 0xd1]);
    for _ in 0..6 {
        cpu.execute();
    }
    assert_eq!(cpu.regs.a, 0x12);
    assert_eq!(flags(&cpu), (true, true, true, true));
    assert_eq!(cpu.regs.d, 0x12);
    assert_eq!(cpu.regs.e, 0xf0);
}

#[test]
fn cycle_table_and_branch_penalties() {
    // CALL 0x0110 (24); at 0x0110: JP NZ,0x0120 taken (16); at 0x0120:
    // XOR A (4), JP NZ,0x0000 not taken (12), CB BIT 0,(HL) (12), RET (16).
    let mut rom = rom_with(&[0xcd, 0x10, 0x01]);
    rom[0x110..0x113].copy_from_slice(&[0xc2, 0x20, 0x01]);
    rom[0x120..0x129].copy_from_slice(&[0xaf, 0xc2, 0x00, 0x00, 0xcb, 0x46, 0xc9, 0x00, 0x00]);
    let mut cpu = Dmg01Cpu::new(rom).unwrap();
    cpu.write8(0xff40, 0x00);
    cpu.regs.sp = 0xdff0;
    assert_eq!(cpu.execute(), 24);
    assert_eq!(cpu.regs.pc, 0x0110);
    assert_eq!(cpu.execute(), 16);
    assert_eq!(cpu.regs.pc, 0x0120);
    assert_eq!(cpu.execute(), 4);
    assert_eq!(cpu.execute(), 12);
    assert_eq!(cpu.regs.pc, 0x0124);
    assert_eq!(cpu.execute(), 12);
    assert_eq!(cpu.execute(), 16);
    assert_eq!(cpu.regs.pc, 0x0103);
}

#[test]
fn conditional_return_and_relative_jump() {
    // SCF; RET C (taken: 8 + 12)
    let mut cpu = cpu_with(&[0x37, 0xd8]);
    cpu.write8(0xff40, 0x00);
    cpu.regs.sp = 0xdff0;
    cpu.write16(0xdff0, 0x0150);
    assert_eq!(cpu.execute(), 4);
    assert_eq!(cpu.execute(), 20);
    assert_eq!(cpu.regs.pc, 0x0150);
    assert_eq!(cpu.regs.sp, 0xdff2);
}

#[test]
fn alu_flag_rules() {
    // LD A,0x3A; LD B,0xC6; ADD A,B -> 0x00 Z H C
    let mut cpu = cpu_with(&[0x3e, 0x3a, 0x06, 0xc6, 0x80]);
    for _ in 0..3 {
        cpu.execute();
    }
    assert_eq!(cpu.regs.a, 0x00);
    assert_eq!(flags(&cpu), (true, false, true, true));

    // SCF; LD A,0xE1; ADC A,0x0F -> 0xF1, H set
    let mut cpu = cpu_with(&[0x37, 0x3e, 0xe1, 0xce, 0x0f]);
    for _ in 0..3 {
        cpu.execute();
    }
    assert_eq!(cpu.regs.a, 0xf1);
    assert_eq!(flags(&cpu), (false, false, true, false));

    // LD A,0x3E; SUB 0x3E -> 0, Z N
    let mut cpu = cpu_with(&[0x3e, 0x3e, 0xd6, 0x3e]);
    cpu.execute();
    cpu.execute();
    assert_eq!(cpu.regs.a, 0);
    assert_eq!(flags(&cpu), (true, true, false, false));

    // SCF; LD A,0x3B; SBC A,0x2A -> 0x10
    let mut cpu = cpu_with(&[0x37, 0x3e, 0x3b, 0xde, 0x2a]);
    for _ in 0..3 {
        cpu.execute();
    }
    assert_eq!(cpu.regs.a, 0x10);
    assert_eq!(flags(&cpu), (false, true, false, false));

    // LD A,0x3C; CP 0x40 -> A kept, N C
    let mut cpu = cpu_with(&[0x3e, 0x3c, 0xfe, 0x40]);
    cpu.execute();
    cpu.execute();
    assert_eq!(cpu.regs.a, 0x3c);
    assert_eq!(flags(&cpu), (false, true, false, true));

    // LD A,0x5A; AND 0x3F; OR 0x80; XOR 0xFF
    let mut cpu = cpu_with(&[0x3e, 0x5a, 0xe6, 0x3f, 0xf6, 0x80, 0xee, 0xff]);
    cpu.execute();
    cpu.execute();
    assert_eq!(cpu.regs.a, 0x1a);
    assert_eq!(flags(&cpu), (false, false, true, false));
    cpu.execute();
    assert_eq!(cpu.regs.a, 0x9a);
    cpu.execute();
    assert_eq!(cpu.regs.a, 0x65);
    assert_eq!(flags(&cpu), (false, false, false, false));
}

#[test]
fn inc_dec_keep_carry() {
    // SCF; LD B,0x0F; INC B; LD C,0x10; DEC C; DEC A
    let mut cpu = cpu_with(&[0x37, 0x06, 0x0f, 0x04, 0x0e, 0x10, 0x0d, 0x3d]);
    cpu.execute();
    cpu.execute();
    cpu.execute();
    assert_eq!(cpu.regs.b, 0x10);
    assert_eq!(flags(&cpu), (false, false, true, true));
    cpu.execute();
    cpu.execute();
    assert_eq!(cpu.regs.c, 0x0f);
    assert_eq!(flags(&cpu), (false, true, true, true));
    cpu.execute();
    assert_eq!(cpu.regs.a, 0xff);
    assert_eq!(flags(&cpu), (false, true, true, true));
}

#[test]
fn sixteen_bit_arithmetic() {
    // LD HL,0x8A23; LD BC,0x0605; ADD HL,BC -> 0x9028 H
    let mut cpu = cpu_with(&[0x21, 0x23, 0x8a, 0x01, 0x05, 0x06, 0x09]);
    for _ in 0..3 {
        cpu.execute();
    }
    assert_eq!((cpu.regs.h, cpu.regs.l), (0x90, 0x28));
    assert_eq!(flags(&cpu), (false, false, true, false));

    // LD SP,0xFFF8; ADD SP,2 -> 0xFFFA; LD HL,SP+(-1) -> 0xFFF9 H C
    let mut cpu = cpu_with(&[0x31, 0xf8, 0xff, 0xe8, 0x02, 0xf8, 0xff]);
    for _ in 0..2 {
        cpu.execute();
    }
    assert_eq!(cpu.regs.sp, 0xfffa);
    assert_eq!(flags(&cpu), (false, false, false, false));
    cpu.execute();
    assert_eq!((cpu.regs.h, cpu.regs.l), (0xff, 0xf9));
    assert_eq!(flags(&cpu), (false, false, true, true));

    // LD DE,0x0000; DEC DE -> 0xFFFF; INC DE -> 0
    let mut cpu = cpu_with(&[0x11, 0x00, 0x00, 0x1b, 0x13]);
    cpu.execute();
    cpu.execute();
    assert_eq!((cpu.regs.d, cpu.regs.e), (0xff, 0xff));
    cpu.execute();
    assert_eq!((cpu.regs.d, cpu.regs.e), (0, 0));
}

#[test]
fn rotates_shifts_and_bits() {
    // LD A,0x85; RLCA -> 0x0B C, Z cleared
    let mut cpu = cpu_with(&[0x3e, 0x85, 0x07]);
    cpu.execute();
    cpu.execute();
    assert_eq!(cpu.regs.a, 0x0b);
    assert_eq!(flags(&cpu), (false, false, false, true));

    // LD B,0x80; SRA B -> 0xC0; SWAP B -> 0x0C; SRL B -> 0x06; RR B (C=0) -> 0x03
    let mut cpu = cpu_with(&[0x06, 0x80, 0xcb, 0x28, 0xcb, 0x30, 0xcb, 0x38, 0xcb, 0x18]);
    cpu.execute();
    cpu.execute();
    assert_eq!(cpu.regs.b, 0xc0);
    cpu.execute();
    assert_eq!(cpu.regs.b, 0x0c);
    cpu.execute();
    assert_eq!(cpu.regs.b, 0x06);
    cpu.execute();
    assert_eq!(cpu.regs.b, 0x03);
    assert_eq!(flags(&cpu), (false, false, false, false));

    // LD HL,0xC000; SET 3,(HL); BIT 3,(HL); RES 3,(HL); BIT 3,(HL)
    let mut cpu = cpu_with(&[0x21, 0x00, 0xc0, 0xcb, 0xde, 0xcb, 0x5e, 0xcb, 0x9e, 0xcb, 0x5e]);
    cpu.execute();
    cpu.execute();
    assert_eq!(cpu.read8(0xc000), 0x08);
    cpu.execute();
    assert_eq!(flags(&cpu), (false, false, true, false));
    cpu.execute();
    assert_eq!(cpu.read8(0xc000), 0x00);
    cpu.execute();
    assert_eq!(flags(&cpu), (true, false, true, false));
}

#[test]
fn loads_through_memory() {
    // LD HL,0xC010; LD A,0x77; LD (HL+),A; LD (HL-),A; LD B,(HL); LDH (0x80),A; LD A,(0xC011)
    let mut cpu = cpu_with(&[
        0x21, 0x10, 0xc0, 0x3e, 0x77, 0x22, 0x32, 0x46, 0xe0, 0x80, 0xfa, 0x11, 0xc0,
    ]);
    for _ in 0..3 {
        cpu.execute();
    }
    assert_eq!(cpu.read8(0xc010), 0x77);
    assert_eq!((cpu.regs.h, cpu.regs.l), (0xc0, 0x11));
    cpu.execute();
    assert_eq!(cpu.read8(0xc011), 0x77);
    assert_eq!((cpu.regs.h, cpu.regs.l), (0xc0, 0x10));
    cpu.execute();
    assert_eq!(cpu.regs.b, 0x77);
    cpu.execute();
    assert_eq!(cpu.read8(0xff80), 0x77);
    cpu.execute();
    assert_eq!(cpu.regs.a, 0x77);
}

#[test]
fn daa_after_subtraction() {
    // LD A,0x42; SUB 0x15 -> 0x2D; DAA -> 0x27
    let mut cpu = cpu_with(&[0x3e, 0x42, 0xd6, 0x15, 0x27]);
    for _ in 0..3 {
        cpu.execute();
    }
    assert_eq!(cpu.regs.a, 0x27);
    assert_eq!(flags(&cpu), (false, true, false, false));
}

#[test]
fn daa_keeps_bcd_values() {
    for a in [0x00u8, 0x09, 0x42, 0x90, 0x99] {
        // LD A,a; OR A clears N H C; DAA twice
        let mut cpu = cpu_with(&[0x3e, a, 0xb7, 0x27, 0x27]);
        cpu.execute();
        cpu.execute();
        cpu.execute();
        assert_eq!(cpu.regs.a, a);
        assert_eq!(flags(&cpu), (a == 0, false, false, false));
        cpu.execute();
        assert_eq!(cpu.regs.a, a);
    }
}

#[test]
fn halt_idles_four_cycles() {
    let mut cpu = cpu_with(&[0x76, 0x00]);
    cpu.write8(0xff40, 0x00);
    cpu.execute();
    assert!(cpu.halt);
    assert_eq!(cpu.execute(), 4);
    assert_eq!(cpu.regs.pc, 0x0101);
}

#[test]
fn di_ei_and_reti() {
    // EI; DI; at 0x0102 RETI returns to 0x0150 with IME set
    let mut cpu = cpu_with(&[0xfb, 0xf3, 0xd9]);
    cpu.write8(0xff40, 0x00);
    cpu.regs.sp = 0xdff0;
    cpu.write16(0xdff0, 0x0150);
    cpu.execute();
    assert!(cpu.ime);
    cpu.execute();
    assert!(!cpu.ime);
    cpu.execute();
    assert!(cpu.ime);
    assert_eq!(cpu.regs.pc, 0x0150);
}

#[test]
fn rst_pushes_and_jumps() {
    let mut cpu = cpu_with(&[0xef]);
    cpu.regs.sp = 0xdff0;
    cpu.execute();
    assert_eq!(cpu.regs.pc, 0x0028);
    assert_eq!(cpu.read16(0xdfee), 0x0101);
}

#[test]
fn undefined_opcode_is_reported() {
    let cpu = cpu_with(&[0xd3]);
    assert!(!cpu.can_execute());
    let cpu = cpu_with(&[0x00]);
    assert!(cpu.can_execute());
}

use simple_rustboy::apu::APU;
use simple_rustboy::cartridge::mbc3::{Rtc, MBC3};
use simple_rustboy::cartridge::{Cartridge, CartridgeError};
use simple_rustboy::cpu::Dmg01Cpu;
use simple_rustboy::decimal::{decode_lines, encode_lines};
use simple_rustboy::joypad::{button_mask, Button, Joypad};
use simple_rustboy::log::{Log, LogMode};
use simple_rustboy::ppu::PPU;
use simple_rustboy::timer::Timer;

fn rom(kind: u8, ram_code: u8, banks: usize) -> Vec<u8> {
    let mut rom = vec![0u8; 0x4000 * banks];
    rom[0x0147] = kind;
    rom[0x0149] = ram_code;
    for bank in 0..banks {
        rom[bank * 0x4000 + 0x10] = bank as u8;
    }
    rom
}

#[test]
fn timer_overflow_reloads_from_tma() {
    let mut t = Timer::new();
    t.write(0xff07, 0x05);
    t.write(0xff05, 0xff);
    t.write(0xff06, 0x80);
    t.update(15);
    assert_eq!(t.read(0xff05), 0xff);
    assert!(!t.irq);
    t.update(1);
    assert_eq!(t.read(0xff05), 0x80);
    assert!(t.irq);
}

#[test]
fn timer_divider_and_reset() {
    let mut t = Timer::new();
    t.update(255);
    t.update(1);
    assert_eq!(t.read(0xff04), 1);
    t.write(0xff04, 0x55);
    assert_eq!(t.read(0xff04), 0);
    // Disabled: TIMA stays.
    t.write(0xff07, 0x01);
    t.update(200);
    assert_eq!(t.read(0xff05), 0);
    // Period 1024 (select 0): 4 updates of 256.
    t.write(0xff07, 0x04);
    t.write(0xff04, 0);
    for _ in 0..4 {
        t.update(255);
        t.update(1);
    }
    assert_eq!(t.read(0xff05), 1);
    assert_eq!(t.read(0xff07), 0x04);
}

#[test]
fn joypad_select_lines() {
    let mut j = Joypad::new();
    j.keydown(Button::Start);
    j.keydown(Button::Left);
    assert!(j.irq);
    j.write(0xff00, 0x20); // select directions (bit 4 low)
    assert_eq!(j.read(0xff00) & 0x0f, 0x0d);
    j.write(0xff00, 0x10); // select buttons (bit 5 low)
    assert_eq!(j.read(0xff00) & 0x0f, 0x07);
    j.keyup(Button::Start);
    assert_eq!(j.read(0xff00) & 0x0f, 0x0f);
    j.write(0xff00, 0x30);
    assert_eq!(j.read(0xff00), 0xff);
}

#[test]
fn log_mode_bits() {
    assert!(Log::check_mode(0x21, LogMode::PPU));
    assert!(Log::check_mode(0x21, LogMode::INFO));
    assert!(!Log::check_mode(0x21, LogMode::CPU));
    assert_eq!(Log::parse_mode("21"), Some(0x21));
    assert_eq!(Log::parse_mode("07"), Some(0x07));
    assert_eq!(Log::parse_mode("7"), None);
    assert_eq!(Log::parse_mode("x1"), None);
}

#[test]
fn ppu_reaches_vblank() {
    let mut ppu = PPU::new();
    assert_eq!(ppu.read(0xff41) & 0x03, 2);
    let mut dots = 0u32;
    while ppu.read(0xff44) < 144 {
        ppu.update(4);
        dots += 4;
        assert!(dots <= 144 * 456);
    }
    assert_eq!(ppu.read(0xff44), 144);
    assert!(ppu.regs.irq_vblank);
    assert_eq!(ppu.read(0xff41) & 0x03, 1);
    assert!(dots >= 144 * 447);
}

#[test]
fn ppu_mode_follows_dot_counts() {
    let mut ppu = PPU::new();
    ppu.update(76);
    assert_eq!(ppu.read(0xff41) & 0x03, 2);
    ppu.update(1);
    assert_eq!(ppu.read(0xff41) & 0x03, 3);
    ppu.update(169);
    assert_eq!(ppu.read(0xff41) & 0x03, 0);
    ppu.update(201);
    assert_eq!(ppu.read(0xff41) & 0x03, 2);
    assert_eq!(ppu.read(0xff44), 1);
}

#[test]
fn ppu_access_windows() {
    let mut ppu = PPU::new();
    // Mode 2: VRAM open, OAM shut.
    ppu.write(0x8000, 0x12);
    assert_eq!(ppu.read(0x8000), 0x12);
    ppu.write(0xfe00, 0x34);
    assert_eq!(ppu.read(0xfe00), 0xff);
    ppu.update(80);
    // Mode 3: both shut.
    assert_eq!(ppu.read(0x8000), 0xff);
    ppu.write(0x8000, 0x56);
    // LCD off: mode 0, LY 0, everything open.
    ppu.write(0xff40, 0x00);
    assert_eq!(ppu.read(0xff41) & 0x03, 0);
    assert_eq!(ppu.read(0xff44), 0);
    assert_eq!(ppu.read(0x8000), 0x12);
    ppu.write(0xfe00, 0x34);
    assert_eq!(ppu.read(0xfe00), 0x34);
    ppu.write(0xff40, 0x80);
    assert_eq!(ppu.read(0xff41) & 0x03, 2);
}

#[test]
fn ppu_lyc_coincidence() {
    let mut ppu = PPU::new();
    ppu.write(0xff41, 0x40);
    ppu.write(0xff45, 1);
    assert_eq!(ppu.read(0xff41) & 0x04, 0);
    ppu.update(77);
    ppu.update(169);
    ppu.update(201);
    assert_eq!(ppu.read(0xff44), 1);
    assert_eq!(ppu.read(0xff41) & 0x04, 0x04);
    assert!(ppu.regs.irq_lcdc);
}

#[test]
fn ppu_renders_background_tile() {
    let mut ppu = PPU::new();
    ppu.write(0xff40, 0x00);
    // Tile 1: first row 0xF0 / 0xFF -> colours 3,3,3,3,2,2,2,2.
    ppu.write(0x8010, 0xf0);
    ppu.write(0x8011, 0xff);
    ppu.write(0x9800, 0x01);
    ppu.write(0xff47, 0xe4);
    ppu.write(0xff40, 0x91);
    ppu.update(77);
    ppu.update(169);
    let fb = ppu.get_frame_buffer();
    assert_eq!(fb.len(), 160 * 144);
    assert_eq!(&fb[0..8], &[0x00, 0x00, 0x00, 0x00, 0x55, 0x55, 0x55, 0x55]);
    assert_eq!(fb[8], 0xff);
}

#[test]
fn ppu_renders_sprite_over_background() {
    let mut ppu = PPU::new();
    ppu.write(0xff40, 0x00);
    ppu.write(0x8020, 0xff); // tile 2, row 0: colour 1 everywhere
    ppu.write(0xfe00, 16); // Y: line 0
    ppu.write(0xfe01, 8); // X: column 0
    ppu.write(0xfe02, 2);
    ppu.write(0xfe03, 0x00);
    ppu.write(0xff48, 0xe4);
    ppu.write(0xff47, 0xe4);
    ppu.write(0xff40, 0x93);
    ppu.update(77);
    ppu.update(169);
    let fb = ppu.get_frame_buffer();
    assert_eq!(&fb[0..8], &[0xaa; 8]);
    assert_eq!(fb[8], 0xff);
}

#[test]
fn rom_errors() {
    assert!(matches!(Cartridge::new(vec![0u8; 100]), Err(CartridgeError::RomSize(100))));
    assert!(matches!(Cartridge::new(vec![]), Err(CartridgeError::RomSize(0))));
    assert!(matches!(
        Cartridge::new(rom(0x04, 0, 2)),
        Err(CartridgeError::UnsupportedType(0x04))
    ));
    assert!(matches!(
        Cartridge::new(rom(0x01, 6, 2)),
        Err(CartridgeError::UnsupportedRamSize(6))
    ));
    assert!(Dmg01Cpu::new(rom(0x20, 0, 2)).is_err());
}

#[test]
fn ram_sizes_from_header() {
    assert_eq!(Cartridge::new(rom(0x00, 0, 2)).unwrap().ram.len(), 0);
    assert_eq!(Cartridge::new(rom(0x05, 0, 2)).unwrap().ram.len(), 512);
    assert_eq!(Cartridge::new(rom(0x03, 2, 2)).unwrap().ram.len(), 0x2000);
    assert_eq!(Cartridge::new(rom(0x13, 3, 2)).unwrap().ram.len(), 0x8000);
    assert_eq!(Cartridge::new(rom(0x1b, 4, 2)).unwrap().ram.len(), 0x20000);
    assert_eq!(Cartridge::new(rom(0x1b, 5, 2)).unwrap().ram.len(), 0x10000);
}

#[test]
fn mbc1_banking() {
    let mut c = Cartridge::new(rom(0x03, 3, 64)).unwrap();
    assert_eq!(c.read(0x4010), 1);
    c.write(0x2000, 0x05);
    assert_eq!(c.read(0x4010), 5);
    c.write(0x2000, 0x00);
    assert_eq!(c.read(0x4010), 1);
    c.write(0x4000, 0x01);
    c.write(0x2000, 0x00);
    assert_eq!(c.read(0x4010), 0x21);
    // RAM disabled: reads 0xFF, writes dropped.
    assert_eq!(c.read(0xa000), 0xff);
    c.write(0xa000, 0x12);
    c.write(0x0000, 0x0a);
    assert_eq!(c.read(0xa000), 0x00);
    c.write(0xa000, 0x12);
    assert_eq!(c.read(0xa000), 0x12);
    // RAM banking mode: bank 1.
    c.write(0x6000, 0x01);
    assert_eq!(c.read(0xa000), 0x00);
    c.write(0xa000, 0x34);
    assert_eq!(c.ram[0x2000], 0x34);
}

#[test]
fn mbc2_banking_and_nibble_ram() {
    let mut c = Cartridge::new(rom(0x06, 0, 16)).unwrap();
    c.write(0x2100, 0x03);
    assert_eq!(c.read(0x4010), 3);
    c.write(0xa001, 0xab);
    assert_eq!(c.read(0xa001), 0x0b);
    assert_eq!(c.read(0xa201), 0x0b);
    c.write(0x0000, 0x00);
    assert_eq!(c.read(0xa001), 0xff);
}

#[test]
fn mbc5_banking() {
    let mut c = Cartridge::new(rom(0x19, 0, 4)).unwrap();
    c.write(0x2000, 0x02);
    assert_eq!(c.read(0x4010), 2);
    c.write(0x2000, 0x00);
    assert_eq!(c.read(0x4010), 0);
    c.write(0x3000, 0x01);
    assert_eq!(c.read(0x4010), 0xff);
}

#[test]
fn mbc3_clock_latch() {
    let mut c = Cartridge::new(rom(0x10, 3, 4)).unwrap();
    assert!(c.has_rtc());
    c.write(0x0000, 0x0a);
    c.write(0x4000, 0x08);
    c.write(0xa000, 30);
    assert_eq!(c.read(0xa000), 30);
    c.write(0x6000, 0x00);
    c.write(0x6000, 0x01);
    for _ in 0..60 {
        c.execute();
    }
    assert_eq!(c.mbc3.rtc.sec, 31);
    assert_eq!(c.read(0xa000), 30);
    c.write(0x6000, 0x00);
    c.write(0x6000, 0x01);
    assert_eq!(c.read(0xa000), 31);
}

#[test]
fn rtc_carry_chain() {
    let mut r = Rtc { sec: 59, min: 59, hour: 23, day_low: 0xff, day_high: 0x01 };
    r.tick();
    assert_eq!(r, Rtc { sec: 0, min: 0, hour: 0, day_low: 0, day_high: 0x80 });
    let mut r = Rtc { sec: 59, min: 59, hour: 23, day_low: 0xff, day_high: 0x00 };
    r.tick();
    assert_eq!(r, Rtc { sec: 0, min: 0, hour: 0, day_low: 0, day_high: 0x01 });
    let mut r = Rtc { sec: 10, min: 0, hour: 0, day_low: 0, day_high: 0x40 };
    r.tick();
    assert_eq!(r.sec, 10);
    let mut r = Rtc::new();
    r.advance(3661);
    assert_eq!((r.hour, r.min, r.sec), (1, 1, 1));
}

#[test]
fn rtc_save_then_load_after_delay() {
    let mut m = MBC3::new();
    m.rtc = Rtc { sec: 50, min: 59, hour: 10, day_low: 3, day_high: 0 };
    let text = m.save_rtc(1_000_000);
    assert_eq!(text, b"50\n59\n10\n3\n0\n1000000\n".to_vec());
    let mut n = MBC3::new();
    assert!(n.load_rtc(&text, 1_000_000 + 70));
    assert_eq!(n.rtc, Rtc { sec: 0, min: 1, hour: 11, day_low: 3, day_high: 0 });
    assert!(!n.load_rtc(b"1\n2\n", 5));
    assert!(!n.load_rtc(b"300\n0\n0\n0\n0\n0\n", 5));
}

#[test]
fn battery_ram_round_trip() {
    let mut c = Cartridge::new(rom(0x03, 2, 2)).unwrap();
    c.write(0x0000, 0x0a);
    c.write(0xa123, 0x5a);
    let image = c.save();
    let mut d = Cartridge::new(rom(0x03, 2, 2)).unwrap();
    assert!(d.load(&image));
    assert_eq!(d.ram, c.ram);
    assert!(!d.load(&[1, 2, 3]));
}

#[test]
fn bus_round_trips_and_mirrors() {
    let mut cpu = Dmg01Cpu::new(rom(0x00, 0, 2)).unwrap();
    cpu.write8(0xc123, 0x42);
    assert_eq!(cpu.read8(0xc123), 0x42);
    assert_eq!(cpu.read8(0xe123), 0x42);
    cpu.write8(0xf000, 0x99);
    assert_eq!(cpu.read8(0xd000), 0x99);
    cpu.write8(0xff90, 0x17);
    assert_eq!(cpu.read8(0xff90), 0x17);
    cpu.write8(0xfea5, 0x17);
    assert_eq!(cpu.read8(0xfea5), 0xff);
    assert_eq!(cpu.read8(0xff7f), 0xff);
    cpu.write8(0xff11, 0xff);
    assert_eq!(cpu.read8(0xff11), 0xc0);
    cpu.write8(0xff30, 0xab);
    assert_eq!(cpu.read8(0xff30), 0xab);
    assert_eq!(cpu.apu.take_writes(), vec![(0xff11, 0xff), (0xff30, 0xab)]);
    assert!(cpu.apu.take_writes().is_empty());
}

#[test]
fn oam_dma_copies_160_bytes() {
    let mut cpu = Dmg01Cpu::new(rom(0x00, 0, 2)).unwrap();
    cpu.write8(0xff40, 0x00);
    for i in 0..0xa0u16 {
        cpu.write8(0xc100 + i, i as u8);
    }
    cpu.write8(0xff46, 0xc1);
    for i in 0..0xa0u16 {
        assert_eq!(cpu.read8(0xfe00 + i), i as u8);
    }
}

#[test]
fn decimal_lines_codec() {
    let text = encode_lines(&vec![0, 7, 42, 18446744073709551615]);
    assert_eq!(text, b"0\n7\n42\n18446744073709551615\n".to_vec());
    assert_eq!(decode_lines(&text), Some(vec![0, 7, 42, 18446744073709551615]));
    assert_eq!(decode_lines(b"12\n34"), Some(vec![12, 34]));
    assert_eq!(decode_lines(b""), Some(vec![]));
    assert_eq!(decode_lines(b"18446744073709551616\n"), None);
    assert_eq!(decode_lines(b"1\n\n2\n"), None);
    assert_eq!(decode_lines(b" 1\n"), None);
}

#[test]
fn button_bits() {
    assert_eq!(button_mask(Button::Down), 0x80);
    assert_eq!(button_mask(Button::Right), 0x10);
    assert_eq!(button_mask(Button::Start), 0x08);
    assert_eq!(button_mask(Button::A), 0x01);
}

#[test]
fn apu_register_masks() {
    let mut apu = APU::new();
    apu.write(0xff13, 0x12);
    assert_eq!(apu.read(0xff13), 0xff);
    apu.write(0xff26, 0xff);
    assert_eq!(apu.read(0xff26), 0x80);
    apu.write(0xff1c, 0x60);
    assert_eq!(apu.read(0xff1c), 0x00);
    apu.write(0xff24, 0x77);
    assert_eq!(apu.read(0xff24), 0x77);
    assert_eq!(apu.read(0xff40), 0xff);
    assert_eq!(apu.take_writes().len(), 3 + 1);
}

//! The pixel pipeline: VRAM and OAM, the LCD registers, the mode state
//! machine that paces scanlines, and the scanline renderer.

use vstd::prelude::*;
use crate::bits::{byte_vec, lemma_color_no_bound, lemma_stat_bits};

verus! {

pub const SCREEN_WIDTH: u8 = 160;
pub const SCREEN_HEIGHT: u8 = 144;
/// Bytes in the framebuffer: 160 x 144.
pub const FRAME_SIZE: usize = 23040;

/// Whether a background pixel used colour 0 (sprites with the priority flag
/// stay in front of it) or another colour.
#[derive(Clone, Copy, Debug, PartialEq, Eq, Structural)]
pub enum BGPriority {
    Color0,
    Color123,
}

/// The LCD registers and the dot scheduler's state.
#[derive(Clone, Copy, Debug, PartialEq, Eq, Structural)]
pub struct PpuRegs {
    /// Dots spent in the current mode.
    pub counter: u16,
    pub irq_vblank: bool,
    pub irq_lcdc: bool,
    pub lcdc: u8,
    /// Bits 1..0: mode; bit 2: LY == LYC; bits 3..6: interrupt selects.
    pub stat: u8,
    pub scy: u8,
    pub scx: u8,
    pub ly: u8,
    pub lyc: u8,
    pub wy: u8,
    pub wx: u8,
    pub bgp: u8,
    pub obp0: u8,
    pub obp1: u8,
}

pub open spec fn mode_of(r: PpuRegs) -> u8 {
    r.stat & 0x03
}

pub open spec fn lcd_on(r: PpuRegs) -> bool {
    r.lcdc & 0x80 != 0
}

/// Dots that each mode lasts: OAM scan 77, transfer 169, HBlank 201, one
/// VBlank line 456.
pub open spec fn mode_duration(mode: u8) -> u16 {
    if mode == 2 {
        77
    } else if mode == 3 {
        169
    } else if mode == 0 {
        201
    } else {
        456
    }
}

/// `r` with the mode bits set to `mode`.
pub open spec fn with_mode(r: PpuRegs, mode: u8) -> PpuRegs {
    PpuRegs { stat: (r.stat & 0xfc) | mode, ..r }
}

/// Entering mode 0, 1 or 2 raises the STAT edge when STAT bit 3, 4 or 5
/// selects it.
pub open spec fn mode_interrupt(r: PpuRegs) -> PpuRegs {
    let m = mode_of(r);
    if (m == 0 && r.stat & 0x08 != 0) || (m == 1 && r.stat & 0x10 != 0) || (m == 2 && r.stat
        & 0x20 != 0) {
        PpuRegs { irq_lcdc: true, ..r }
    } else {
        r
    }
}

/// The coincidence flag follows LY == LYC, and its rising check raises the
/// STAT edge when STAT bit 6 selects it.
pub open spec fn lyc_interrupt(r: PpuRegs) -> PpuRegs {
    if r.ly == r.lyc {
        PpuRegs {
            stat: r.stat | 0x04,
            irq_lcdc: r.irq_lcdc || (r.stat | 0x04) & 0x40 != 0,
            ..r
        }
    } else {
        PpuRegs { stat: r.stat & 0xfb, ..r }
    }
}

/// One mode transition, taken when the current mode's dots are spent.
pub open spec fn advance_once(r: PpuRegs) -> PpuRegs {
    let m = mode_of(r);
    let c = (r.counter - mode_duration(m)) as u16;
    if m == 2 {
        with_mode(PpuRegs { counter: c, ..r }, 3)
    } else if m == 3 {
        mode_interrupt(with_mode(PpuRegs { counter: c, ..r }, 0))
    } else if m == 0 {
        let ly = (r.ly + 1) as u8;
        if ly >= 144 {
            mode_interrupt(
                lyc_interrupt(
                    with_mode(PpuRegs { counter: c, ly: ly, irq_vblank: true, ..r }, 1),
                ),
            )
        } else {
            mode_interrupt(lyc_interrupt(with_mode(PpuRegs { counter: c, ly: ly, ..r }, 2)))
        }
    } else {
        let ly = (r.ly + 1) as u8;
        if ly >= 154 {
            lyc_interrupt(mode_interrupt(with_mode(PpuRegs { counter: c, ly: 0, ..r }, 2)))
        } else {
            lyc_interrupt(PpuRegs { counter: c, ly: ly, ..r })
        }
    }
}

/// Whether the transition out of the current mode is due.
pub open spec fn transition_due(r: PpuRegs) -> bool {
    lcd_on(r) && r.counter >= mode_duration(mode_of(r))
}

/// Takes every transition that the dots on the counter pay for.
pub open spec fn settle(r: PpuRegs) -> PpuRegs
    decreases r.counter,
{
    if transition_due(r) && advance_once(r).counter < r.counter {
        settle(advance_once(r))
    } else {
        r
    }
}

/// The registers after `cycles` T-cycles: nothing moves while the LCD is off.
pub open spec fn update_regs(r: PpuRegs, cycles: u8) -> PpuRegs {
    if !lcd_on(r) {
        r
    } else {
        settle(PpuRegs { counter: (r.counter + cycles) as u16, ..r })
    }
}

/// The scheduler's invariant: the mode agrees with LY, the counter is short of
/// the current mode's end, and a switched-off LCD rests at line 0 in mode 0.
pub open spec fn regs_wf(r: PpuRegs) -> bool {
    &&& r.ly <= 153
    &&& (mode_of(r) == 1) == (r.ly >= 144)
    &&& r.counter < mode_duration(mode_of(r))
    &&& !lcd_on(r) ==> r.ly == 0 && r.counter == 0 && mode_of(r) == 0
}

/// The grey level of colour `color_no` under `palette`.
pub open spec fn shade(color_no: u8, palette: u8) -> u8 {
    let v = (palette >> (2 * color_no) as u8) & 0x03;
    if v == 0 {
        0xff
    } else if v == 1 {
        0xaa
    } else if v == 2 {
        0x55
    } else {
        0x00
    }
}

pub open spec fn is_shade(p: u8) -> bool {
    p == 0xff || p == 0xaa || p == 0x55 || p == 0x00
}

/// Offset in VRAM of tile `tile_no`'s data: 16 bytes per tile, from 0x0000
/// with an unsigned index, or around 0x1000 with a signed one.
pub open spec fn tile_data_addr(tile_no: u8, unsigned_sel: bool) -> int {
    if unsigned_sel || tile_no >= 128 {
        tile_no as int * 16
    } else {
        0x1000 + tile_no as int * 16
    }
}

/// The colour number of bit `bit` of a tile row: the second byte gives the
/// high bit.
pub open spec fn color_no_spec(lo: u8, hi: u8, bit: u8) -> u8 {
    (((hi >> bit) & 0x01) << 1u8) | ((lo >> bit) & 0x01)
}

/// Colour number of pixel (`col`, `row`) of tile `tile_no`.
pub open spec fn tile_pixel(vram: Seq<u8>, tile_no: u8, unsigned_sel: bool, col: int, row: int) -> u8 {
    let a = tile_data_addr(tile_no, unsigned_sel) + 2 * row;
    color_no_spec(vram[a], vram[a + 1], (7 - col) as u8)
}

/// Colour number at pixel (`px`, `py`) of the 256 x 256 plane drawn by the
/// tile map at `map_base`.
pub open spec fn plane_pixel(vram: Seq<u8>, lcdc: u8, map_base: int, px: int, py: int) -> u8 {
    let tile_no = vram[map_base + (px / 8) % 32 + (py / 8) * 32];
    tile_pixel(vram, tile_no, lcdc & 0x10 != 0, px % 8, py % 8)
}

pub open spec fn bg_map_base(lcdc: u8) -> int {
    if lcdc & 0x08 != 0 {
        0x1c00
    } else {
        0x1800
    }
}

pub open spec fn window_map_base(lcdc: u8) -> int {
    if lcdc & 0x40 != 0 {
        0x1c00
    } else {
        0x1800
    }
}

/// Whether the window covers pixel `x` of the current line.
pub open spec fn window_covers(r: PpuRegs, x: int) -> bool {
    r.lcdc & 0x20 != 0 && r.wy <= r.ly && 7 <= r.wx && r.wx - 7 <= x
}

/// Background colour number of pixel `x` of line LY: from the window where it
/// covers the pixel, else from the scrolled background.
pub open spec fn bg_color_no_spec(r: PpuRegs, vram: Seq<u8>, x: int) -> u8 {
    if window_covers(r, x) {
        plane_pixel(vram, r.lcdc, window_map_base(r.lcdc), x - (r.wx - 7), r.ly - r.wy)
    } else {
        plane_pixel(vram, r.lcdc, bg_map_base(r.lcdc), (r.scx + x) % 256, (r.scy + r.ly) % 256)
    }
}


pub open spec fn sprite_height(lcdc: u8) -> int {
    if lcdc & 0x04 != 0 {
        16
    } else {
        8
    }
}

/// Whether OAM entry `i` covers line LY (Y is stored biased by 16).
pub open spec fn sprite_on_line(r: PpuRegs, oam: Seq<u8>, i: int) -> bool {
    let y = oam[4 * i] as int;
    !(y <= r.ly + 16 - sprite_height(r.lcdc) || y > r.ly + 16)
}

/// How many of the first `n` OAM entries cover line LY.
pub open spec fn sprites_before(r: PpuRegs, oam: Seq<u8>, n: nat) -> nat
    decreases n,
{
    if n == 0 {
        0
    } else {
        sprites_before(r, oam, (n - 1) as nat) + if sprite_on_line(r, oam, n - 1) {
            1nat
        } else {
            0nat
        }
    }
}

/// Entry `i` is drawn when it covers the line and fewer than ten entries
/// before it do.
pub open spec fn sprite_accepted(r: PpuRegs, oam: Seq<u8>, i: int) -> bool {
    sprite_on_line(r, oam, i) && sprites_before(r, oam, i as nat) < 10
}

/// The tile that entry `i` shows on line LY; in 8x16 mode the pair's upper
/// or lower tile, with Y-flip swapping them.
pub open spec fn sprite_tile(r: PpuRegs, oam: Seq<u8>, i: int) -> u8 {
    let y = oam[4 * i] as int;
    let t = oam[4 * i + 2];
    let flip_y = oam[4 * i + 3] & 0x40 != 0;
    if r.lcdc & 0x04 != 0 {
        if (r.ly + 8 < y) != flip_y {
            t & 0xfe
        } else {
            t | 0x01
        }
    } else {
        t
    }
}

/// The row of the tile that entry `i` shows on line LY.
pub open spec fn sprite_row(r: PpuRegs, oam: Seq<u8>, i: int) -> int {
    let y = oam[4 * i] as int;
    let row = (r.ly + 16 - y) % 8;
    if oam[4 * i + 3] & 0x40 != 0 {
        7 - row
    } else {
        row
    }
}

/// The colour that entry `i` gives screen pixel `x`, if any: none where the
/// sprite does not reach, where its colour is 0 (transparent), or where it
/// sits behind a background colour 1..3.
pub open spec fn sprite_pixel(
    r: PpuRegs,
    vram: Seq<u8>,
    oam: Seq<u8>,
    prio: Seq<BGPriority>,
    i: int,
    x: int,
) -> Option<u8> {
    let sx = oam[4 * i + 1] as int;
    let flags = oam[4 * i + 3];
    let px = x - sx + 8;
    if sx == 0 || sx >= 168 || px < 0 || px >= 8 {
        None
    } else {
        let bit = if flags & 0x20 != 0 {
            px
        } else {
            7 - px
        };
        let a = tile_data_addr(sprite_tile(r, oam, i), true) + 2 * sprite_row(r, oam, i);
        let c = color_no_spec(vram[a], vram[a + 1], bit as u8);
        let palette = if flags & 0x10 != 0 {
            r.obp1
        } else {
            r.obp0
        };
        if c == 0 || (flags & 0x80 != 0 && prio[x] == BGPriority::Color123) {
            None
        } else {
            Some(shade(c, palette))
        }
    }
}

/// Pixel `x` after drawing the first `n` OAM entries over `base`: later
/// entries are drawn over earlier ones.
pub open spec fn sprites_over(
    r: PpuRegs,
    vram: Seq<u8>,
    oam: Seq<u8>,
    prio: Seq<BGPriority>,
    base: u8,
    x: int,
    n: nat,
) -> u8
    decreases n,
{
    if n == 0 {
        base
    } else {
        let prev = sprites_over(r, vram, oam, prio, base, x, (n - 1) as nat);
        if sprite_accepted(r, oam, n - 1) {
            match sprite_pixel(r, vram, oam, prio, n - 1, x) {
                Some(c) => c,
                None => prev,
            }
        } else {
            prev
        }
    }
}


/// Pixel `x` of line LY as drawn: background (or 0 with the background off),
/// then the sprites over it when they are on.
pub open spec fn line_pixel(
    r: PpuRegs,
    vram: Seq<u8>,
    oam: Seq<u8>,
    prio: Seq<BGPriority>,
    x: int,
) -> u8 {
    let base = if r.lcdc & 0x01 != 0 {
        shade(bg_color_no_spec(r, vram, x), r.bgp)
    } else {
        0
    };
    if r.lcdc & 0x02 != 0 {
        sprites_over(r, vram, oam, prio, base, x, 40)
    } else {
        base
    }
}

pub proof fn lemma_sprites_over_shade(
    r: PpuRegs,
    vram: Seq<u8>,
    oam: Seq<u8>,
    prio: Seq<BGPriority>,
    base: u8,
    x: int,
    n: nat,
)
    requires
        is_shade(base),
    ensures
        is_shade(sprites_over(r, vram, oam, prio, base, x, n)),
    decreases n,
{
    if n > 0 {
        lemma_sprites_over_shade(r, vram, oam, prio, base, x, (n - 1) as nat);
    }
}


pub open spec fn prio_of(c: u8) -> BGPriority {
    if c == 0 {
        BGPriority::Color0
    } else {
        BGPriority::Color123
    }
}

/// The pipeline after rendering line LY into the framebuffer.
pub open spec fn render_view(v: PpuView) -> PpuView {
    let r = v.regs;
    let prio = if r.lcdc & 0x01 != 0 {
        Seq::new(SCREEN_WIDTH as nat, |x: int| prio_of(bg_color_no_spec(r, v.vram, x)))
    } else {
        v.bg_priority
    };
    PpuView {
        bg_priority: prio,
        frame: Seq::new(
            FRAME_SIZE as nat,
            |i: int|
                if r.ly * 160 <= i < r.ly * 160 + 160 {
                    line_pixel(r, v.vram, v.oam, prio, i - r.ly * 160)
                } else {
                    v.frame[i]
                },
        ),
        ..v
    }
}

/// One transition; leaving pixel transfer renders the line first.
pub open spec fn advance_view(v: PpuView) -> PpuView {
    let w = if mode_of(v.regs) == 3 {
        render_view(v)
    } else {
        v
    };
    PpuView { regs: advance_once(v.regs), ..w }
}

pub open spec fn settle_view(v: PpuView) -> PpuView
    decreases v.regs.counter,
{
    if transition_due(v.regs) && advance_once(v.regs).counter < v.regs.counter {
        settle_view(advance_view(v))
    } else {
        v
    }
}

/// The pipeline after `cycles` T-cycles.
pub open spec fn update_view(v: PpuView, cycles: u8) -> PpuView {
    if !lcd_on(v.regs) {
        v
    } else {
        settle_view(
            PpuView { regs: PpuRegs { counter: (v.regs.counter + cycles) as u16, ..v.regs }, ..v },
        )
    }
}

pub proof fn lemma_settle_view_regs(v: PpuView)
    ensures
        settle_view(v).regs == settle(v.regs),
    decreases v.regs.counter,
{
    if transition_due(v.regs) && advance_once(v.regs).counter < v.regs.counter {
        lemma_settle_view_regs(advance_view(v));
    }
}

/// The model of the pixel pipeline.
pub ghost struct PpuView {
    pub regs: PpuRegs,
    pub vram: Seq<u8>,
    pub oam: Seq<u8>,
    pub frame: Seq<u8>,
    pub bg_priority: Seq<BGPriority>,
}

impl PpuView {
    pub open spec fn wf(&self) -> bool {
        &&& regs_wf(self.regs)
        &&& self.mem_wf()
    }

    /// Sizes of the memories, and a framebuffer of grey levels only.
    pub open spec fn mem_wf(&self) -> bool {
        &&& self.vram.len() == 0x2000
        &&& self.oam.len() == 0xa0
        &&& self.frame.len() == FRAME_SIZE
        &&& self.bg_priority.len() == SCREEN_WIDTH
        &&& forall|i: int| 0 <= i < self.frame.len() ==> is_shade(#[trigger] self.frame[i])
    }

    pub open spec fn vram_accessible(&self) -> bool {
        mode_of(self.regs) != 3
    }

    pub open spec fn oam_accessible(&self) -> bool {
        mode_of(self.regs) == 0 || mode_of(self.regs) == 1
    }

    /// What the CPU reads at `address`; VRAM is shut during mode 3 and OAM
    /// during modes 2 and 3.
    pub open spec fn read_spec(&self, address: u16) -> u8 {
        let r = self.regs;
        if 0x8000 <= address < 0xa000 {
            if self.vram_accessible() {
                self.vram[address - 0x8000]
            } else {
                0xff
            }
        } else if 0xfe00 <= address < 0xfea0 {
            if self.oam_accessible() {
                self.oam[address - 0xfe00]
            } else {
                0xff
            }
        } else if address == 0xff40 {
            r.lcdc
        } else if address == 0xff41 {
            r.stat
        } else if address == 0xff42 {
            r.scy
        } else if address == 0xff43 {
            r.scx
        } else if address == 0xff44 {
            r.ly
        } else if address == 0xff45 {
            r.lyc
        } else if address == 0xff47 {
            r.bgp
        } else if address == 0xff48 {
            r.obp0
        } else if address == 0xff49 {
            r.obp1
        } else if address == 0xff4a {
            r.wy
        } else if address == 0xff4b {
            r.wx
        } else {
            0xff
        }
    }

    /// The pipeline after a CPU write.
    pub open spec fn write_spec(self, address: u16, value: u8) -> PpuView {
        let r = self.regs;
        if 0x8000 <= address < 0xa000 {
            if self.vram_accessible() {
                PpuView { vram: self.vram.update(address - 0x8000, value), ..self }
            } else {
                self
            }
        } else if 0xfe00 <= address < 0xfea0 {
            if self.oam_accessible() {
                PpuView { oam: self.oam.update(address - 0xfe00, value), ..self }
            } else {
                self
            }
        } else {
            PpuView { regs: write_reg(r, address, value), ..self }
        }
    }
}

/// The registers after a CPU write to 0xFF40..0xFF4B. Switching the LCD on
/// or off restarts line 0, in mode 2 or mode 0.
pub open spec fn write_reg(r: PpuRegs, address: u16, value: u8) -> PpuRegs {
    if address == 0xff40 {
        if (r.lcdc & 0x80) != (value & 0x80) {
            let mode: u8 = if value & 0x80 != 0 {
                2
            } else {
                0
            };
            PpuRegs {
                lcdc: value,
                ..mode_interrupt(
                    PpuRegs { ly: 0, counter: 0, stat: (r.stat & 0xf8) | mode, ..r },
                )
            }
        } else {
            PpuRegs { lcdc: value, ..r }
        }
    } else if address == 0xff41 {
        PpuRegs { stat: (value & 0xf8) | (r.stat & 0x07), ..r }
    } else if address == 0xff42 {
        PpuRegs { scy: value, ..r }
    } else if address == 0xff43 {
        PpuRegs { scx: value, ..r }
    } else if address == 0xff45 {
        lyc_interrupt(PpuRegs { lyc: value, ..r })
    } else if address == 0xff47 {
        PpuRegs { bgp: value, ..r }
    } else if address == 0xff48 {
        PpuRegs { obp0: value, ..r }
    } else if address == 0xff49 {
        PpuRegs { obp1: value, ..r }
    } else if address == 0xff4a {
        PpuRegs { wy: value, ..r }
    } else if address == 0xff4b {
        PpuRegs { wx: value, ..r }
    } else {
        r
    }
}

pub struct PPU {
    pub regs: PpuRegs,
    pub frame_buffer: Vec<u8>,
    pub bg_priority: Vec<BGPriority>,
    pub vram: Vec<u8>,
    pub oam: Vec<u8>,
}

impl View for PPU {
    type V = PpuView;

    open spec fn view(&self) -> PpuView {
        PpuView {
            regs: self.regs,
            vram: self.vram@,
            oam: self.oam@,
            frame: self.frame_buffer@,
            bg_priority: self.bg_priority@,
        }
    }
}


/// `regs_wf` with room for up to 255 extra dots on the counter.
pub open spec fn regs_loose(r: PpuRegs) -> bool {
    &&& r.ly <= 153
    &&& (mode_of(r) == 1) == (r.ly >= 144)
    &&& r.counter < mode_duration(mode_of(r)) + 256
    &&& lcd_on(r)
}

pub proof fn lemma_mode_edges(r: PpuRegs)
    ensures
        mode_of(mode_interrupt(r)) == mode_of(r),
        mode_interrupt(r).ly == r.ly,
        mode_interrupt(r).counter == r.counter,
        mode_interrupt(r).lcdc == r.lcdc,
        mode_of(lyc_interrupt(r)) == mode_of(r),
        lyc_interrupt(r).ly == r.ly,
        lyc_interrupt(r).counter == r.counter,
        lyc_interrupt(r).lcdc == r.lcdc,
        mode_of(r) < 4,
{
    lemma_stat_bits(r.stat, 0, 0);
}

/// A due transition keeps the loose invariant and spends dots.
pub proof fn lemma_advance_loose(r: PpuRegs)
    requires
        regs_loose(r),
        transition_due(r),
    ensures
        regs_loose(advance_once(r)),
        advance_once(r).counter < r.counter,
{
    let m = mode_of(r);
    let c = (r.counter - mode_duration(m)) as u16;
    lemma_stat_bits(r.stat, 0, 3);
    lemma_stat_bits(r.stat, 0, 0);
    lemma_stat_bits(r.stat, 0, 1);
    lemma_stat_bits(r.stat, 0, 2);
    if m == 2 {
        let a = with_mode(PpuRegs { counter: c, ..r }, 3);
        assert(mode_of(a) == 3);
    } else if m == 3 {
        let a = with_mode(PpuRegs { counter: c, ..r }, 0);
        lemma_mode_edges(a);
    } else if m == 0 {
        let ly = (r.ly + 1) as u8;
        if ly >= 144 {
            let a = with_mode(PpuRegs { counter: c, ly: ly, irq_vblank: true, ..r }, 1);
            lemma_mode_edges(a);
            lemma_mode_edges(lyc_interrupt(a));
        } else {
            let a = with_mode(PpuRegs { counter: c, ly: ly, ..r }, 2);
            lemma_mode_edges(a);
            lemma_mode_edges(lyc_interrupt(a));
        }
    } else {
        let ly = (r.ly + 1) as u8;
        if ly >= 154 {
            let a = with_mode(PpuRegs { counter: c, ly: 0, ..r }, 2);
            lemma_mode_edges(a);
            lemma_mode_edges(mode_interrupt(a));
        } else {
            lemma_mode_edges(PpuRegs { counter: c, ly: ly, ..r });
        }
    }
}

/// Settling a loose state reaches the strict invariant.
pub proof fn lemma_settle_wf(r: PpuRegs)
    requires
        regs_loose(r),
    ensures
        regs_wf(settle(r)),
    decreases r.counter,
{
    if transition_due(r) {
        lemma_advance_loose(r);
        lemma_settle_wf(advance_once(r));
    } else {
        lemma_mode_edges(r);
    }
}

/// A register write keeps the scheduler's invariant.
pub proof fn lemma_write_reg_wf(r: PpuRegs, address: u16, value: u8)
    requires
        regs_wf(r),
    ensures
        regs_wf(write_reg(r, address, value)),
{
    lemma_stat_bits(r.stat, value, 0);
    lemma_stat_bits(r.stat, value, 2);
    lemma_mode_edges(r);
    if address == 0xff40 && (r.lcdc & 0x80) != (value & 0x80) {
        let mode: u8 = if value & 0x80 != 0 {
            2
        } else {
            0
        };
        let a = PpuRegs { ly: 0, counter: 0, stat: (r.stat & 0xf8) | mode, ..r };
        lemma_stat_bits(r.stat, value, mode);
        lemma_mode_edges(a);
        let b = PpuRegs { lcdc: value, ..mode_interrupt(a) };
        assert(mode_of(b) == mode);
        assert(lcd_on(b) == (value & 0x80 != 0));
        assert(value & 0x80 != 0 ==> mode == 2);
    } else if address == 0xff40 {
        assert(lcd_on(PpuRegs { lcdc: value, ..r }) == lcd_on(r));
    } else if address == 0xff45 {
        lemma_mode_edges(PpuRegs { lyc: value, ..r });
    }
}

impl PPU {
    pub open spec fn wf(&self) -> bool {
        self@.wf()
    }

    pub fn new() -> (r: Self)
        ensures
            r.wf(),
            r.regs == (PpuRegs {
                counter: 0,
                irq_vblank: false,
                irq_lcdc: false,
                lcdc: 0x80,
                stat: 0x02,
                scy: 0,
                scx: 0,
                ly: 0,
                lyc: 0,
                wy: 0,
                wx: 0,
                bgp: 0,
                obp0: 0,
                obp1: 0,
            }),
            r.vram@ == Seq::new(0x2000, |i: int| 0u8),
            r.oam@ == Seq::new(0xa0, |i: int| 0u8),
    {
        let mut bg_priority: Vec<BGPriority> = Vec::new();
        let mut i: usize = 0;
        while i < 160
            invariant
                i <= 160,
                bg_priority@.len() == i,
            decreases 160 - i,
        {
            bg_priority.push(BGPriority::Color0);
            i = i + 1;
        }
        let r = PPU {
            regs: PpuRegs {
                counter: 0,
                irq_vblank: false,
                irq_lcdc: false,
                lcdc: 0x80,
                stat: 0x02,
                scy: 0,
                scx: 0,
                ly: 0,
                lyc: 0,
                wy: 0,
                wx: 0,
                bgp: 0,
                obp0: 0,
                obp1: 0,
            },
            frame_buffer: byte_vec(FRAME_SIZE, 0),
            bg_priority,
            vram: byte_vec(0x2000, 0),
            oam: byte_vec(0xa0, 0),
        };
        proof {
            assert(2u8 & 0x03u8 == 2) by (bit_vector);
            assert(0x80u8 & 0x80u8 != 0) by (bit_vector);
        }
        r
    }

    pub fn get_frame_buffer(&self) -> (r: &[u8])
        ensures
            r@ == self.frame_buffer@,
    {
        self.frame_buffer.as_slice()
    }

    fn is_vram_accessible(&self) -> (r: bool)
        ensures
            r == self@.vram_accessible(),
    {
        self.regs.stat & 0x03 != 0x03
    }

    fn is_oam_accessible(&self) -> (r: bool)
        ensures
            r == self@.oam_accessible(),
    {
        self.regs.stat & 0x03 == 0 || self.regs.stat & 0x03 == 1
    }

    fn is_lcd_enable_change(&self, value: u8) -> (r: bool)
        ensures
            r == ((self.regs.lcdc & 0x80) != (value & 0x80)),
    {
        self.regs.lcdc & 0x80 != value & 0x80
    }

    /// STAT with the coincidence flag and the mode bits cleared.
    fn get_masked_status(&self) -> (r: u8)
        ensures
            r == self.regs.stat & 0xf8,
    {
        self.regs.stat & 0xf8
    }

    fn update_mode_interrupt(&mut self)
        ensures
            final(self).regs == mode_interrupt(old(self).regs),
            final(self)@ == (PpuView { regs: final(self).regs, ..old(self)@ }),
    {
        let m = self.regs.stat & 0x03;
        if (m == 0 && self.regs.stat & 0x08 != 0) || (m == 1 && self.regs.stat & 0x10 != 0) || (m
            == 2 && self.regs.stat & 0x20 != 0) {
            self.regs.irq_lcdc = true;
        }
    }

    /// Compares LY with LYC: sets or clears the coincidence flag and raises
    /// the STAT edge when STAT bit 6 selects it.
    pub fn update_lyc_interrupt(&mut self)
        ensures
            final(self).regs == lyc_interrupt(old(self).regs),
            final(self)@ == (PpuView { regs: final(self).regs, ..old(self)@ }),
    {
        if self.regs.ly == self.regs.lyc {
            self.regs.stat = self.regs.stat | 0x04;
            if self.regs.stat & 0x40 != 0 {
                self.regs.irq_lcdc = true;
            }
        } else {
            self.regs.stat = self.regs.stat & 0xfb;
        }
    }

    pub fn write(&mut self, address: u16, value: u8)
        requires
            old(self).wf(),
        ensures
            final(self).wf(),
            final(self)@ == old(self)@.write_spec(address, value),
    {
        proof {
            lemma_write_reg_wf(self.regs, address, value);
        }
        if 0x8000 <= address && address < 0xa000 {
            if self.is_vram_accessible() {
                self.vram.set((address - 0x8000) as usize, value);
            }
        } else if 0xfe00 <= address && address < 0xfea0 {
            if self.is_oam_accessible() {
                self.oam.set((address - 0xfe00) as usize, value);
            }
        } else if address == 0xff40 {
            if self.is_lcd_enable_change(value) {
                self.regs.ly = 0;
                self.regs.counter = 0;
                let mode: u8 = if value & 0x80 != 0 {
                    2
                } else {
                    0
                };
                self.regs.stat = self.get_masked_status() | mode;
                self.update_mode_interrupt();
            }
            self.regs.lcdc = value;
        } else if address == 0xff41 {
            self.regs.stat = (value & 0xf8) | (self.regs.stat & 0x07);
        } else if address == 0xff42 {
            self.regs.scy = value;
        } else if address == 0xff43 {
            self.regs.scx = value;
        } else if address == 0xff45 {
            self.regs.lyc = value;
            self.update_lyc_interrupt();
        } else if address == 0xff47 {
            self.regs.bgp = value;
        } else if address == 0xff48 {
            self.regs.obp0 = value;
        } else if address == 0xff49 {
            self.regs.obp1 = value;
        } else if address == 0xff4a {
            self.regs.wy = value;
        } else if address == 0xff4b {
            self.regs.wx = value;
        }
        assert(final(self)@ =~= old(self)@.write_spec(address, value));
    }

    pub fn read(&self, address: u16) -> (r: u8)
        requires
            self.wf(),
        ensures
            r == self@.read_spec(address),
    {
        if 0x8000 <= address && address < 0xa000 {
            if self.is_vram_accessible() {
                self.vram[(address - 0x8000) as usize]
            } else {
                0xff
            }
        } else if 0xfe00 <= address && address < 0xfea0 {
            if self.is_oam_accessible() {
                self.oam[(address - 0xfe00) as usize]
            } else {
                0xff
            }
        } else if address == 0xff40 {
            self.regs.lcdc
        } else if address == 0xff41 {
            self.regs.stat
        } else if address == 0xff42 {
            self.regs.scy
        } else if address == 0xff43 {
            self.regs.scx
        } else if address == 0xff44 {
            self.regs.ly
        } else if address == 0xff45 {
            self.regs.lyc
        } else if address == 0xff47 {
            self.regs.bgp
        } else if address == 0xff48 {
            self.regs.obp0
        } else if address == 0xff49 {
            self.regs.obp1
        } else if address == 0xff4a {
            self.regs.wy
        } else if address == 0xff4b {
            self.regs.wx
        } else {
            0xff
        }
    }

    /// The grey level of colour `color_no` under `palette`.
    fn get_color(&self, color_no: u8, palette: u8) -> (r: u8)
        requires
            color_no < 4,
        ensures
            r == shade(color_no, palette),
            is_shade(r),
    {
        let v = (palette >> (2 * color_no)) & 0x03;
        if v == 0 {
            0xff
        } else if v == 1 {
            0xaa
        } else if v == 2 {
            0x55
        } else {
            0x00
        }
    }

    /// The colour number of bit `bitops` of the tile row `tile`.
    fn get_color_no(&self, tile: (u8, u8), bitops: u8) -> (r: u8)
        requires
            bitops < 8,
        ensures
            r == color_no_spec(tile.0, tile.1, bitops),
            r < 4,
    {
        proof {
            lemma_color_no_bound(tile.0, tile.1, bitops);
        }
        (((tile.1 >> bitops) & 0x01) << 1) | ((tile.0 >> bitops) & 0x01)
    }

    /// The two bytes of row `offset_y` of tile `tile_no`.
    fn fetch_tile(&self, tile_no: u8, offset_y: u8, tile_data_sel: bool) -> (r: (u8, u8))
        requires
            self@.mem_wf(),
            offset_y < 8,
        ensures
            r.0 == self.vram@[tile_data_addr(tile_no, tile_data_sel) + 2 * offset_y],
            r.1 == self.vram@[tile_data_addr(tile_no, tile_data_sel) + 2 * offset_y + 1],
    {
        let base: usize = if tile_data_sel || tile_no >= 128 {
            tile_no as usize * 16
        } else {
            0x1000 + tile_no as usize * 16
        };
        let row_addr: usize = base + 2 * offset_y as usize;
        (self.vram[row_addr], self.vram[row_addr + 1])
    }

    /// Row `offset_y` of the tile at (`tile_x`, `tile_y`) of a tile map.
    fn fetch_tile_via_xy(&self, tile_x: u8, tile_y: u8, offset_y: u8, tile_map_base: u16) -> (r: (
        u8,
        u8,
    ))
        requires
            self@.mem_wf(),
            offset_y < 8,
            tile_y < 32,
            tile_map_base == 0x1800 || tile_map_base == 0x1c00,
        ensures
            ({
                let tile_no = self.vram@[tile_map_base + tile_x % 32 + tile_y * 32];
                let a = tile_data_addr(tile_no, self.regs.lcdc & 0x10 != 0) + 2 * offset_y;
                r == (self.vram@[a], self.vram@[a + 1])
            }),
    {
        let tile_map_addr: usize = tile_map_base as usize + (tile_x % 32) as usize + tile_y as usize
            * 32;
        let tile_no = self.vram[tile_map_addr];
        self.fetch_tile(tile_no, offset_y, self.regs.lcdc & 0x10 != 0)
    }

    fn get_bg_tile_map_base(&self) -> (r: u16)
        ensures
            r == bg_map_base(self.regs.lcdc),
    {
        if self.regs.lcdc & 0x08 != 0 {
            0x1c00
        } else {
            0x1800
        }
    }

    fn get_window_tile_map_base(&self) -> (r: u16)
        ensures
            r == window_map_base(self.regs.lcdc),
    {
        if self.regs.lcdc & 0x40 != 0 {
            0x1c00
        } else {
            0x1800
        }
    }

    /// Background (or window) colour number of pixel `x` of line LY.
    fn bg_color_no(&self, x: u8) -> (r: u8)
        requires
            self@.mem_wf(),
        ensures
            r == bg_color_no_spec(self.regs, self.vram@, x as int),
            r < 4,
    {
        let r = self.regs;
        let (px, py, base): (u8, u8, u16) = if r.lcdc & 0x20 != 0 && r.wy <= r.ly && 7 <= r.wx
            && r.wx - 7 <= x {
            (x - (r.wx - 7), r.ly - r.wy, self.get_window_tile_map_base())
        } else {
            (
                ((r.scx as u16 + x as u16) % 256) as u8,
                ((r.scy as u16 + r.ly as u16) % 256) as u8,
                self.get_bg_tile_map_base(),
            )
        };
        let tile = self.fetch_tile_via_xy(px / 8, py / 8, py % 8, base);
        self.get_color_no(tile, 7 - px % 8)
    }

    /// Draws the background and window of line LY into `buffer` and records
    /// which pixels used colour 0.
    fn render_bg(&mut self, buffer: &mut Vec<u8>)
        requires
            old(self)@.mem_wf(),
            old(buffer)@.len() == SCREEN_WIDTH,
        ensures
            final(self)@.mem_wf(),
            final(self)@ == (PpuView { bg_priority: final(self)@.bg_priority, ..old(self)@ }),
            final(buffer)@.len() == SCREEN_WIDTH,
            forall|x: int|
                0 <= x < SCREEN_WIDTH ==> #[trigger] final(buffer)@[x] == shade(
                    bg_color_no_spec(old(self).regs, old(self).vram@, x),
                    old(self).regs.bgp,
                ),
            forall|x: int|
                0 <= x < SCREEN_WIDTH ==> #[trigger] final(self).bg_priority@[x] == if bg_color_no_spec(
                    old(self).regs,
                    old(self).vram@,
                    x,
                ) == 0 {
                    BGPriority::Color0
                } else {
                    BGPriority::Color123
                },
    {
        let mut x: u8 = 0;
        while x < SCREEN_WIDTH
            invariant
                self@.mem_wf(),
                self@ == (PpuView { bg_priority: self@.bg_priority, ..old(self)@ }),
                buffer@.len() == SCREEN_WIDTH,
                x <= SCREEN_WIDTH,
                forall|j: int|
                    0 <= j < x ==> #[trigger] buffer@[j] == shade(
                        bg_color_no_spec(old(self).regs, old(self).vram@, j),
                        old(self).regs.bgp,
                    ),
                forall|j: int|
                    0 <= j < x ==> #[trigger] self.bg_priority@[j] == if bg_color_no_spec(
                        old(self).regs,
                        old(self).vram@,
                        j,
                    ) == 0 {
                        BGPriority::Color0
                    } else {
                        BGPriority::Color123
                    },
            decreases SCREEN_WIDTH - x,
        {
            let color_no = self.bg_color_no(x);
            let color = self.get_color(color_no, self.regs.bgp);
            if color_no == 0 {
                self.bg_priority.set(x as usize, BGPriority::Color0);
            } else {
                self.bg_priority.set(x as usize, BGPriority::Color123);
            }
            buffer.set(x as usize, color);
            x = x + 1;
        }
    }

    /// Draws the sprites of line LY over `buffer`.
    fn render_sprites(&self, buffer: &mut Vec<u8>)
        requires
            self@.mem_wf(),
            self.regs.ly < 144,
            old(buffer)@.len() == SCREEN_WIDTH,
        ensures
            final(buffer)@.len() == SCREEN_WIDTH,
            forall|x: int|
                0 <= x < SCREEN_WIDTH ==> #[trigger] final(buffer)@[x] == sprites_over(
                    self.regs,
                    self.vram@,
                    self.oam@,
                    self.bg_priority@,
                    old(buffer)@[x],
                    x,
                    40,
                ),
    {
        let r = self.regs;
        let ghost orig = buffer@;
        let mut n_sprites: u8 = 0;
        let height: u8 = if r.lcdc & 0x04 != 0 {
            16
        } else {
            8
        };
        let mut i: usize = 0;
        while i < 40
            invariant
                self@.mem_wf(),
                r == self.regs,
                r.ly < 144,
                height as int == sprite_height(r.lcdc),
                i <= 40,
                n_sprites as nat == sprites_before(r, self.oam@, i as nat),
                n_sprites <= i,
                buffer@.len() == SCREEN_WIDTH,
                forall|x: int|
                    0 <= x < SCREEN_WIDTH ==> #[trigger] buffer@[x] == sprites_over(
                        r,
                        self.vram@,
                        self.oam@,
                        self.bg_priority@,
                        orig[x],
                        x,
                        i as nat,
                    ),
            decreases 40 - i,
        {
            let entry = i * 4;
            let sprite_y = self.oam[entry];
            let sprite_x = self.oam[entry + 1];
            let flags = self.oam[entry + 3];
            let on_line = !(sprite_y as u16 <= r.ly as u16 + 16 - height as u16 || sprite_y as u16
                > r.ly as u16 + 16);
            let ghost before = buffer@;
            if on_line {
                n_sprites = n_sprites + 1;
            }
            if on_line && n_sprites <= 10 && sprite_x != 0 && sprite_x < 168 {
                let obj_prio = flags & 0x80 != 0;
                let flip_y = flags & 0x40 != 0;
                let flip_x = flags & 0x20 != 0;
                let palette = if flags & 0x10 != 0 {
                    r.obp1
                } else {
                    r.obp0
                };
                let t = self.oam[entry + 2];
                let tile_no = if r.lcdc & 0x04 != 0 {
                    if (r.ly as u16 + 8 < sprite_y as u16) != flip_y {
                        t & 0xfe
                    } else {
                        t | 0x01
                    }
                } else {
                    t
                };
                let row = (r.ly + 16 - sprite_y) % 8;
                let offset_y = if flip_y {
                    7 - row
                } else {
                    row
                };
                let tile = self.fetch_tile(tile_no, offset_y, true);
                let mut px: u8 = 0;
                while px < 8
                    invariant
                        self@.mem_wf(),
                        r == self.regs,
                        i < 40,
                        entry == i * 4,
                        sprite_accepted(r, self.oam@, i as int),
                        sprite_x == self.oam@[4 * i + 1],
                        flags == self.oam@[4 * i + 3],
                        tile_no == sprite_tile(r, self.oam@, i as int),
                        offset_y == sprite_row(r, self.oam@, i as int),
                        tile.0 == self.vram@[tile_data_addr(tile_no, true) + 2 * offset_y],
                        tile.1 == self.vram@[tile_data_addr(tile_no, true) + 2 * offset_y + 1],
                        palette == if flags & 0x10 != 0 {
                            r.obp1
                        } else {
                            r.obp0
                        },
                        obj_prio == (flags & 0x80 != 0),
                        flip_x == (flags & 0x20 != 0),
                        0 < sprite_x < 168,
                        px <= 8,
                        buffer@.len() == SCREEN_WIDTH,
                        before.len() == SCREEN_WIDTH,
                        forall|x: int|
                            0 <= x < SCREEN_WIDTH ==> #[trigger] buffer@[x] == if x - sprite_x + 8
                                < px {
                                match sprite_pixel(
                                    r,
                                    self.vram@,
                                    self.oam@,
                                    self.bg_priority@,
                                    i as int,
                                    x,
                                ) {
                                    Some(c) => c,
                                    None => before[x],
                                }
                            } else {
                                before[x]
                            },
                    decreases 8 - px,
                {
                    if px + sprite_x >= 8 && (px + sprite_x - 8) < SCREEN_WIDTH {
                        let x = (px + sprite_x - 8) as usize;
                        let bit = if flip_x {
                            px
                        } else {
                            7 - px
                        };
                        let color_no = self.get_color_no(tile, bit);
                        if color_no != 0 && !(obj_prio && self.bg_priority[x]
                            == BGPriority::Color123) {
                            let color = self.get_color(color_no, palette);
                            buffer.set(x, color);
                        }
                    }
                    px = px + 1;
                }
                assert forall|x: int| 0 <= x < SCREEN_WIDTH implies #[trigger] buffer@[x]
                    == sprites_over(
                    r,
                    self.vram@,
                    self.oam@,
                    self.bg_priority@,
                    orig[x],
                    x,
                    (i + 1) as nat,
                ) by {
                    assert(before[x] == sprites_over(
                        r,
                        self.vram@,
                        self.oam@,
                        self.bg_priority@,
                        orig[x],
                        x,
                        i as nat,
                    ));
                }
            } else {
                assert forall|x: int| 0 <= x < SCREEN_WIDTH implies #[trigger] buffer@[x]
                    == sprites_over(
                    r,
                    self.vram@,
                    self.oam@,
                    self.bg_priority@,
                    orig[x],
                    x,
                    (i + 1) as nat,
                ) by {
                    assert(before[x] == sprites_over(
                        r,
                        self.vram@,
                        self.oam@,
                        self.bg_priority@,
                        orig[x],
                        x,
                        i as nat,
                    ));
                }
            }
            i = i + 1;
        }
    }

    /// Renders line LY into the framebuffer.
    fn render_line(&mut self)
        requires
            old(self)@.mem_wf(),
            old(self).regs.ly < 144,
        ensures
            final(self)@.mem_wf(),
            final(self)@ == render_view(old(self)@),
            final(self).regs == old(self).regs,
            final(self).vram@ == old(self).vram@,
            final(self).oam@ == old(self).oam@,
            old(self).regs.lcdc & 0x01 == 0 ==> final(self).bg_priority@
                == old(self).bg_priority@,
            forall|i: int|
                0 <= i < FRAME_SIZE && !(old(self).regs.ly * 160 <= i < old(self).regs.ly * 160
                    + 160) ==> #[trigger] final(self).frame_buffer@[i]
                    == old(self).frame_buffer@[i],
            forall|x: int|
                0 <= x < SCREEN_WIDTH ==> #[trigger] final(self).frame_buffer@[old(self).regs.ly
                    * 160 + x] == line_pixel(
                    old(self).regs,
                    old(self).vram@,
                    old(self).oam@,
                    final(self).bg_priority@,
                    x,
                ),
    {
        let mut line = byte_vec(160, 0);
        let ghost zero = line@;
        if self.regs.lcdc & 0x01 != 0 {
            self.render_bg(&mut line);
            assert(self.bg_priority@ =~= Seq::new(
                SCREEN_WIDTH as nat,
                |x: int| prio_of(bg_color_no_spec(self.regs, self.vram@, x)),
            ));
        }
        let ghost base = line@;
        assert forall|x: int| 0 <= x < SCREEN_WIDTH implies #[trigger] base[x] == (
        if self.regs.lcdc & 0x01 != 0 {
            shade(bg_color_no_spec(self.regs, self.vram@, x), self.regs.bgp)
        } else {
            0
        }) by {
            if self.regs.lcdc & 0x01 == 0 {
                assert(base[x] == zero[x]);
            }
        }
        if self.regs.lcdc & 0x02 != 0 {
            self.render_sprites(&mut line);
        }
        assert forall|x: int| 0 <= x < SCREEN_WIDTH implies #[trigger] line@[x] == line_pixel(
            self.regs,
            self.vram@,
            self.oam@,
            self.bg_priority@,
            x,
        ) by {
            if self.regs.lcdc & 0x02 == 0 {
                assert(line@[x] == base[x]);
            }
        }
        assert forall|x: int| 0 <= x < SCREEN_WIDTH implies is_shade(#[trigger] line@[x]) by {
            lemma_sprites_over_shade(
                self.regs,
                self.vram@,
                self.oam@,
                self.bg_priority@,
                base[x],
                x,
                40,
            );
        }
        let row: usize = self.regs.ly as usize * 160;
        let ghost frame0 = self.frame_buffer@;
        let ghost prio = self.bg_priority@;
        let mut x: usize = 0;
        while x < 160
            invariant
                self@.mem_wf(),
                self.regs == old(self).regs,
                self.vram@ == old(self).vram@,
                self.oam@ == old(self).oam@,
                old(self).regs.lcdc & 0x01 == 0 ==> self.bg_priority@ == old(self).bg_priority@,
                self.bg_priority@ == prio,
                forall|j: int|
                    0 <= j < SCREEN_WIDTH ==> #[trigger] line@[j] == line_pixel(
                        self.regs,
                        self.vram@,
                        self.oam@,
                        prio,
                        j,
                    ),
                self.regs.ly < 144,
                row == self.regs.ly * 160,
                line@.len() == 160,
                forall|j: int| 0 <= j < 160 ==> is_shade(#[trigger] line@[j]),
                x <= 160,
                frame0.len() == FRAME_SIZE,
                forall|i: int|
                    0 <= i < FRAME_SIZE && !(row <= i < row + x) ==> #[trigger] self.frame_buffer@[i]
                        == frame0[i],
                forall|j: int| 0 <= j < x ==> #[trigger] self.frame_buffer@[row + j] == line@[j],
            decreases 160 - x,
        {
            self.frame_buffer.set(row + x, line[x]);
            x = x + 1;
        }
        assert forall|j: int| 0 <= j < SCREEN_WIDTH implies #[trigger] self.frame_buffer@[
            old(self).regs.ly * 160 + j] == line_pixel(
            old(self).regs,
            old(self).vram@,
            old(self).oam@,
            prio,
            j,
        ) by {
            assert(self.frame_buffer@[row + j] == line@[j]);
        }
        let ghost rv = render_view(old(self)@);
        assert(prio =~= rv.bg_priority);
        assert forall|i: int| 0 <= i < FRAME_SIZE implies #[trigger] self.frame_buffer@[i]
            == rv.frame[i] by {
            if row <= i < row + 160 {
                assert(self.frame_buffer@[row + (i - row)] == line@[i - row]);
            }
        }
        assert(self.frame_buffer@ =~= rv.frame);
    }

    /// One transition of the mode state machine; leaving pixel transfer
    /// renders the line.
    fn advance_mode(&mut self)
        requires
            old(self)@.mem_wf(),
            regs_loose(old(self).regs),
            transition_due(old(self).regs),
        ensures
            final(self)@.mem_wf(),
            final(self)@ == advance_view(old(self)@),
            final(self).regs == advance_once(old(self).regs),
            final(self).vram@ == old(self).vram@,
            final(self).oam@ == old(self).oam@,
    {
        proof {
            lemma_advance_loose(self.regs);
            lemma_stat_bits(self.regs.stat, 0, 0);
            lemma_stat_bits(self.regs.stat, 0, 1);
            lemma_stat_bits(self.regs.stat, 0, 2);
            lemma_stat_bits(self.regs.stat, 0, 3);
        }
        let m = self.regs.stat & 0x03;
        if m == 2 {
            self.regs.counter = self.regs.counter - 77;
            self.regs.stat = (self.regs.stat & 0xfc) | 0x03;
        } else if m == 3 {
            self.render_line();
            self.regs.counter = self.regs.counter - 169;
            self.regs.stat = (self.regs.stat & 0xfc) | 0x00;
            self.update_mode_interrupt();
        } else if m == 0 {
            self.regs.counter = self.regs.counter - 201;
            self.regs.ly = self.regs.ly + 1;
            if self.regs.ly >= SCREEN_HEIGHT {
                self.regs.irq_vblank = true;
                self.regs.stat = (self.regs.stat & 0xfc) | 0x01;
            } else {
                self.regs.stat = (self.regs.stat & 0xfc) | 0x02;
            }
            self.update_lyc_interrupt();
            self.update_mode_interrupt();
        } else {
            self.regs.counter = self.regs.counter - 456;
            self.regs.ly = self.regs.ly + 1;
            if self.regs.ly >= 154 {
                self.regs.ly = 0;
                self.regs.stat = (self.regs.stat & 0xfc) | 0x02;
                self.update_mode_interrupt();
            }
            self.update_lyc_interrupt();
        }
    }

    /// Advances the pipeline by `cycles` T-cycles, taking every mode
    /// transition they pay for. Nothing moves while the LCD is off.
    pub fn update(&mut self, cycles: u8)
        requires
            old(self).wf(),
        ensures
            final(self).wf(),
            final(self)@ == update_view(old(self)@, cycles),
            final(self).regs == update_regs(old(self).regs, cycles),
            final(self).vram@ == old(self).vram@,
            final(self).oam@ == old(self).oam@,
    {
        if self.regs.lcdc & 0x80 == 0 {
            return;
        }
        self.regs.counter = self.regs.counter + cycles as u16;
        let ghost target = settle(self.regs);
        let ghost vtarget = settle_view(self@);
        proof {
            lemma_settle_wf(self.regs);
            lemma_settle_view_regs(self@);
        }
        while self.regs.counter >= self.mode_duration()
            invariant
                self@.mem_wf(),
                regs_loose(self.regs),
                settle(self.regs) == target,
                settle_view(self@) == vtarget,
                regs_wf(target),
                self.vram@ == old(self).vram@,
                self.oam@ == old(self).oam@,
            decreases self.regs.counter,
        {
            proof {
                lemma_advance_loose(self.regs);
            }
            self.advance_mode();
        }
    }

    /// Dots that the current mode lasts.
    fn mode_duration(&self) -> (r: u16)
        ensures
            r == mode_duration(mode_of(self.regs)),
    {
        let m = self.regs.stat & 0x03;
        if m == 2 {
            77
        } else if m == 3 {
            169
        } else if m == 0 {
            201
        } else {
            456
        }
    }
}

} // verus!

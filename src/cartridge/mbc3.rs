//! MBC3: 7-bit ROM banking, four RAM banks and a battery-backed real-time
//! clock with a latch.

use vstd::prelude::*;
use crate::bits::lemma_and_le;
use crate::decimal::{decimal_lines, decode_lines, encode_lines, parse_lines};
use crate::cartridge::{byte_or_ff, ram_store, read_banked, write_banked};

verus! {

/// The five clock registers: seconds, minutes, hours, day counter low byte,
/// and DH (bit 0: day bit 8, bit 6: halt, bit 7: day overflow).
#[derive(Clone, Copy, Debug, PartialEq, Eq, Structural)]
pub struct Rtc {
    pub sec: u8,
    pub min: u8,
    pub hour: u8,
    pub day_low: u8,
    pub day_high: u8,
}

/// The 9-bit day counter.
pub open spec fn rtc_day(r: Rtc) -> nat {
    (r.day_high & 0x01) as nat * 256 + r.day_low as nat
}

/// One second of the clock: carries run from seconds to minutes, hours and the
/// day counter; a day counter past 511 wraps to 0 and sets the sticky
/// overflow bit. Nothing moves while the halt bit is set.
pub open spec fn rtc_tick(r: Rtc) -> Rtc {
    if r.day_high & 0x40 != 0 {
        r
    } else if r.sec < 59 {
        Rtc { sec: (r.sec + 1) as u8, ..r }
    } else if r.min < 59 {
        Rtc { sec: 0, min: (r.min + 1) as u8, ..r }
    } else if r.hour < 23 {
        Rtc { sec: 0, min: 0, hour: (r.hour + 1) as u8, ..r }
    } else if rtc_day(r) + 1 > 511 {
        Rtc { sec: 0, min: 0, hour: 0, day_low: 0, day_high: (r.day_high | 0x80) & 0xc0 }
    } else {
        Rtc {
            sec: 0,
            min: 0,
            hour: 0,
            day_low: ((rtc_day(r) + 1) % 256) as u8,
            day_high: (r.day_high & 0xfe) | ((rtc_day(r) + 1) / 256) as u8,
        }
    }
}

/// The clock after `n` seconds.
pub open spec fn rtc_advance(r: Rtc, n: nat) -> Rtc
    decreases n,
{
    if n == 0 {
        r
    } else {
        rtc_tick(rtc_advance(r, (n - 1) as nat))
    }
}

/// Register `select` (0x08..0x0C) of `r`.
pub open spec fn rtc_register(r: Rtc, select: u8) -> u8 {
    if select == 0x08 {
        r.sec
    } else if select == 0x09 {
        r.min
    } else if select == 0x0a {
        r.hour
    } else if select == 0x0b {
        r.day_low
    } else {
        r.day_high
    }
}

/// `r` after a write of `value` to register `select` (0x08..0x0C).
pub open spec fn rtc_set_register(r: Rtc, select: u8, value: u8) -> Rtc {
    if select == 0x08 {
        Rtc { sec: value & 0x3f, ..r }
    } else if select == 0x09 {
        Rtc { min: value & 0x3f, ..r }
    } else if select == 0x0a {
        Rtc { hour: value & 0x1f, ..r }
    } else if select == 0x0b {
        Rtc { day_low: value, ..r }
    } else {
        Rtc { day_high: value & 0xc1, ..r }
    }
}


/// The clock save file: seconds, minutes, hours, DL, DH and the Unix time of
/// saving, one decimal number per line.
pub open spec fn rtc_text(r: Rtc, epoch: u64) -> Seq<u8> {
    decimal_lines(
        seq![r.sec as nat, r.min as nat, r.hour as nat, r.day_low as nat, r.day_high as nat, epoch as nat],
    )
}

/// The clock and save time that a clock save file holds: six numbers, the
/// first five bytes.
pub open spec fn rtc_file_spec(data: Seq<u8>) -> Option<(Rtc, u64)> {
    match parse_lines(data) {
        Some(ns) => if ns.len() == 6 && ns[0] < 256 && ns[1] < 256 && ns[2] < 256 && ns[3] < 256
            && ns[4] < 256 && ns[5] < 0x1_0000_0000_0000_0000 {
            Some(
                (
                    Rtc {
                        sec: ns[0] as u8,
                        min: ns[1] as u8,
                        hour: ns[2] as u8,
                        day_low: ns[3] as u8,
                        day_high: ns[4] as u8,
                    },
                    ns[5] as u64,
                ),
            )
        } else {
            None
        },
        None => None,
    }
}

/// Seconds that passed between saving at `saved` and loading at `now`.
pub open spec fn elapsed(saved: u64, now: u64) -> nat {
    if now >= saved {
        (now - saved) as nat
    } else {
        0
    }
}

impl Rtc {
    pub fn new() -> (r: Self)
        ensures
            r == (Rtc { sec: 0, min: 0, hour: 0, day_low: 0, day_high: 0 }),
    {
        Rtc { sec: 0, min: 0, hour: 0, day_low: 0, day_high: 0 }
    }

    /// Advances the clock by one second.
    pub fn tick(&mut self)
        ensures
            *final(self) == rtc_tick(*old(self)),
    {
        if self.day_high & 0x40 != 0 {
            return;
        }
        if self.sec < 59 {
            self.sec = self.sec + 1;
        } else if self.min < 59 {
            self.sec = 0;
            self.min = self.min + 1;
        } else if self.hour < 23 {
            self.sec = 0;
            self.min = 0;
            self.hour = self.hour + 1;
        } else {
            let hi: u8 = self.day_high & 0x01;
            proof {
                lemma_and_le(self.day_high, 0x01);
            }
            let day: u16 = hi as u16 * 256 + self.day_low as u16 + 1;
            self.sec = 0;
            self.min = 0;
            self.hour = 0;
            if day > 511 {
                self.day_low = 0;
                self.day_high = (self.day_high | 0x80) & 0xc0;
            } else {
                self.day_low = (day % 256) as u8;
                self.day_high = (self.day_high & 0xfe) | (day / 256) as u8;
            }
        }
    }

    /// Advances the clock by `seconds` seconds, one carry chain at a time.
    pub fn advance(&mut self, seconds: u64)
        ensures
            *final(self) == rtc_advance(*old(self), seconds as nat),
    {
        let ghost start = *self;
        let mut i: u64 = 0;
        while i < seconds
            invariant
                i <= seconds,
                *self == rtc_advance(start, i as nat),
            decreases seconds - i,
        {
            self.tick();
            i = i + 1;
        }
    }
}

#[derive(Clone, Copy, Debug, PartialEq, Eq, Structural)]
pub struct MBC3 {
    pub enable_ram_rtc: u8,
    /// RAM bank 0..3, or clock register 0x08..0x0C, mapped at 0xA000.
    pub ram_rtc_status: u8,
    pub rom_bank: u8,
    pub is_latch: bool,
    /// Last value written to the latch range.
    pub pre_latch: u8,
    pub latched: Rtc,
    pub rtc: Rtc,
}

impl MBC3 {
    pub open spec fn wf(&self) -> bool {
        self.rom_bank < 0x80
    }

    pub open spec fn rom_bank_spec(&self) -> nat {
        if self.rom_bank == 0 {
            1
        } else {
            self.rom_bank as nat
        }
    }

    pub open spec fn ram_rtc_enabled_spec(&self) -> bool {
        self.enable_ram_rtc & 0x0f == 0x0a
    }

    pub open spec fn read_spec(&self, address: u16, rom: Seq<u8>, ram: Seq<u8>) -> u8 {
        if address < 0x4000 {
            byte_or_ff(rom, address as int)
        } else if address < 0x8000 {
            byte_or_ff(rom, self.rom_bank_spec() * 0x4000 + (address as int - 0x4000))
        } else if 0xa000 <= address < 0xc000 && self.ram_rtc_enabled_spec() {
            if self.ram_rtc_status <= 0x03 {
                byte_or_ff(ram, self.ram_rtc_status as int * 0x2000 + (address as int - 0xa000))
            } else if 0x08 <= self.ram_rtc_status <= 0x0c {
                if self.is_latch {
                    rtc_register(self.latched, self.ram_rtc_status)
                } else {
                    rtc_register(self.rtc, self.ram_rtc_status)
                }
            } else {
                0xff
            }
        } else {
            0xff
        }
    }

    /// The controller after a write. Writing 0 then 1 to 0x6000..0x7FFF flips
    /// the latch; turning it on copies the live clock into the shadow one.
    pub open spec fn write_spec(self, address: u16, value: u8) -> MBC3 {
        if address < 0x2000 {
            MBC3 { enable_ram_rtc: value, ..self }
        } else if address < 0x4000 {
            MBC3 { rom_bank: value & 0x7f, ..self }
        } else if address < 0x6000 {
            MBC3 { ram_rtc_status: value, ..self }
        } else if address < 0x8000 {
            if self.pre_latch == 0 && value == 1 {
                MBC3 {
                    is_latch: !self.is_latch,
                    latched: if !self.is_latch {
                        self.rtc
                    } else {
                        self.latched
                    },
                    pre_latch: value,
                    ..self
                }
            } else {
                MBC3 { pre_latch: value, ..self }
            }
        } else if 0xa000 <= address < 0xc000 && self.ram_rtc_enabled_spec() && 0x08
            <= self.ram_rtc_status <= 0x0c && !self.is_latch {
            MBC3 { rtc: rtc_set_register(self.rtc, self.ram_rtc_status, value), ..self }
        } else {
            self
        }
    }

    pub open spec fn ram_write_spec(&self, address: u16, value: u8, ram: Seq<u8>) -> Seq<u8> {
        if 0xa000 <= address < 0xc000 && self.ram_rtc_enabled_spec() && self.ram_rtc_status
            <= 0x03 {
            ram_store(ram, self.ram_rtc_status as int * 0x2000 + (address as int - 0xa000), value)
        } else {
            ram
        }
    }

    /// The controller at power-on.
    pub open spec fn new_spec() -> MBC3 {
        MBC3 {
            enable_ram_rtc: 0,
            ram_rtc_status: 0,
            rom_bank: 0,
            is_latch: false,
            pre_latch: 1,
            latched: Rtc { sec: 0, min: 0, hour: 0, day_low: 0, day_high: 0 },
            rtc: Rtc { sec: 0, min: 0, hour: 0, day_low: 0, day_high: 0 },
        }
    }

    pub fn new() -> (r: Self)
        ensures
            r.wf(),
            r == Self::new_spec(),
    {
        MBC3 {
            enable_ram_rtc: 0,
            ram_rtc_status: 0,
            rom_bank: 0,
            is_latch: false,
            pre_latch: 1,
            latched: Rtc::new(),
            rtc: Rtc::new(),
        }
    }

    /// One second of the real-time clock.
    pub fn exec_rtc(&mut self)
        ensures
            *final(self) == (MBC3 { rtc: rtc_tick(old(self).rtc), ..*old(self) }),
    {
        self.rtc.tick();
    }

    pub fn get_rom_bank(&self) -> (r: u16)
        requires
            self.wf(),
        ensures
            r == self.rom_bank_spec(),
    {
        if self.rom_bank == 0 {
            1
        } else {
            self.rom_bank as u16
        }
    }

    pub fn is_ram_rtc_enabled(&self) -> (r: bool)
        ensures
            r == self.ram_rtc_enabled_spec(),
    {
        self.enable_ram_rtc & 0x0f == 0x0a
    }

    fn read_rtc_register(r: &Rtc, select: u8) -> (v: u8)
        ensures
            v == rtc_register(*r, select),
    {
        if select == 0x08 {
            r.sec
        } else if select == 0x09 {
            r.min
        } else if select == 0x0a {
            r.hour
        } else if select == 0x0b {
            r.day_low
        } else {
            r.day_high
        }
    }

    pub fn write(&mut self, address: u16, value: u8, ram: &mut Vec<u8>)
        requires
            old(self).wf(),
        ensures
            final(self).wf(),
            *final(self) == old(self).write_spec(address, value),
            final(ram)@ == old(self).ram_write_spec(address, value, old(ram)@),
    {
        if address < 0x2000 {
            self.enable_ram_rtc = value;
        } else if address < 0x4000 {
            self.rom_bank = value & 0x7f;
            assert(value & 0x7f < 0x80) by (bit_vector);
        } else if address < 0x6000 {
            self.ram_rtc_status = value;
        } else if address < 0x8000 {
            if self.pre_latch == 0 && value == 1 {
                self.is_latch = !self.is_latch;
                if self.is_latch {
                    self.latched = self.rtc;
                }
            }
            self.pre_latch = value;
        } else if 0xa000 <= address && address < 0xc000 && self.is_ram_rtc_enabled() {
            if self.ram_rtc_status <= 0x03 {
                write_banked(ram, self.ram_rtc_status as u16, 0x2000, address - 0xa000, value);
            } else if 0x08 <= self.ram_rtc_status && self.ram_rtc_status <= 0x0c && !self.is_latch {
                let s = self.ram_rtc_status;
                if s == 0x08 {
                    self.rtc.sec = value & 0x3f;
                } else if s == 0x09 {
                    self.rtc.min = value & 0x3f;
                } else if s == 0x0a {
                    self.rtc.hour = value & 0x1f;
                } else if s == 0x0b {
                    self.rtc.day_low = value;
                } else {
                    self.rtc.day_high = value & 0xc1;
                }
            }
        }
    }

    pub fn read(&self, address: u16, rom: &Vec<u8>, ram: &Vec<u8>) -> (r: u8)
        requires
            self.wf(),
        ensures
            r == self.read_spec(address, rom@, ram@),
    {
        if address < 0x4000 {
            read_banked(rom, 0, 0x4000, address)
        } else if address < 0x8000 {
            read_banked(rom, self.get_rom_bank(), 0x4000, address - 0x4000)
        } else if 0xa000 <= address && address < 0xc000 && self.is_ram_rtc_enabled() {
            if self.ram_rtc_status <= 0x03 {
                read_banked(ram, self.ram_rtc_status as u16, 0x2000, address - 0xa000)
            } else if 0x08 <= self.ram_rtc_status && self.ram_rtc_status <= 0x0c {
                if self.is_latch {
                    Self::read_rtc_register(&self.latched, self.ram_rtc_status)
                } else {
                    Self::read_rtc_register(&self.rtc, self.ram_rtc_status)
                }
            } else {
                0xff
            }
        } else {
            0xff
        }
    }

    /// The clock save file for the live clock, saved at Unix time `now`.
    pub fn save_rtc(&self, now: u64) -> (r: Vec<u8>)
        ensures
            r@ == rtc_text(self.rtc, now),
    {
        let mut ns: Vec<u64> = Vec::new();
        ns.push(self.rtc.sec as u64);
        ns.push(self.rtc.min as u64);
        ns.push(self.rtc.hour as u64);
        ns.push(self.rtc.day_low as u64);
        ns.push(self.rtc.day_high as u64);
        ns.push(now);
        let r = encode_lines(&ns);
        assert(ns@.map_values(|v: u64| v as nat) =~= seq![
            self.rtc.sec as nat,
            self.rtc.min as nat,
            self.rtc.hour as nat,
            self.rtc.day_low as nat,
            self.rtc.day_high as nat,
            now as nat,
        ]);
        r
    }

    /// Restores the clock from a save file read at Unix time `now`, replaying
    /// the seconds since it was saved. A file that does not parse leaves the
    /// controller as it was and gives `false`.
    pub fn load_rtc(&mut self, data: &[u8], now: u64) -> (ok: bool)
        requires
            old(self).wf(),
        ensures
            final(self).wf(),
            ok == rtc_file_spec(data@) is Some,
            match rtc_file_spec(data@) {
                Some((r, saved)) => *final(self) == (MBC3 {
                    rtc: rtc_advance(r, elapsed(saved, now)),
                    ..*old(self)
                }),
                None => *final(self) == *old(self),
            },
    {
        let ns = match decode_lines(data) {
            Some(ns) => ns,
            None => {
                return false;
            },
        };
        if ns.len() != 6 || ns[0] >= 256 || ns[1] >= 256 || ns[2] >= 256 || ns[3] >= 256 || ns[4]
            >= 256 {
            return false;
        }
        let mut r = Rtc {
            sec: ns[0] as u8,
            min: ns[1] as u8,
            hour: ns[2] as u8,
            day_low: ns[3] as u8,
            day_high: ns[4] as u8,
        };
        let saved = ns[5];
        let delta: u64 = if now >= saved {
            now - saved
        } else {
            0
        };
        r.advance(delta);
        self.rtc = r;
        true
    }
}

} // verus!

//! Log categories and the test that decides whether one is switched on.

use vstd::prelude::*;

verus! {

/// A category of diagnostic output.
#[derive(Clone, Copy, Debug, PartialEq, Eq, Structural)]
pub enum LogMode {
    INFO,
    CPU,
    IO,
    ROM,
    PPU,
    APU,
}

/// The bit of the log-mode byte that switches a category on.
pub open spec fn log_mode_bit_spec(m: LogMode) -> u8 {
    match m {
        LogMode::INFO => 0x01,
        LogMode::CPU => 0x02,
        LogMode::IO => 0x04,
        LogMode::ROM => 0x10,
        LogMode::PPU => 0x20,
        LogMode::APU => 0x40,
    }
}

impl LogMode {
    pub fn bit(self) -> (r: u8)
        ensures
            r == log_mode_bit_spec(self),
    {
        match self {
            LogMode::INFO => 0x01,
            LogMode::CPU => 0x02,
            LogMode::IO => 0x04,
            LogMode::ROM => 0x10,
            LogMode::PPU => 0x20,
            LogMode::APU => 0x40,
        }
    }
}

/// The log-mode byte that the emulator was started with.
pub struct Log {
    pub mode: u8,
}

impl Log {
    /// Whether category `value` is switched on in `mode`.
    pub fn check_mode(mode: u8, value: LogMode) -> (r: bool)
        ensures
            r == (mode & log_mode_bit_spec(value) != 0),
    {
        mode & value.bit() != 0
    }

    /// Decodes the two-digit decimal log-mode argument: the first digit is the
    /// high nibble, the second the low one. Anything else gives `None`.
    pub fn parse_mode(text: &str) -> (r: Option<u8>)
        ensures
            r == parse_mode_spec(text@),
    {
        let n = text.unicode_len();
        if n != 2 {
            return None;
        }
        let c1 = text.get_char(0);
        let c0 = text.get_char(1);
        if '0' <= c1 && c1 <= '9' && '0' <= c0 && c0 <= '9' {
            let hi = (c1 as u32 - '0' as u32) as u8;
            let lo = (c0 as u32 - '0' as u32) as u8;
            Some(hi * 16 + lo)
        } else {
            None
        }
    }
}

pub open spec fn is_digit(c: char) -> bool {
    '0' <= c <= '9'
}

pub open spec fn digit_value(c: char) -> int {
    c as int - '0' as int
}

/// Two decimal digits `d1 d0` give the byte `d1 * 16 + d0`.
pub open spec fn parse_mode_spec(s: Seq<char>) -> Option<u8> {
    if s.len() == 2 && is_digit(s[0]) && is_digit(s[1]) {
        Some((digit_value(s[0]) * 16 + digit_value(s[1])) as u8)
    } else {
        None
    }
}

/// Constants shared by the host loop and the devices.
pub struct Common {}

impl Common {
    /// Audio output rate in samples per second.
    pub const SAMPLE_RATE: u32 = 44100;
    /// Emulated frames per second.
    pub const FPS: u8 = 60;
}

} // verus!

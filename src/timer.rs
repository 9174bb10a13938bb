//! The programmable timer: a free-running divider and the TIMA counter that
//! ticks at a rate selected by TAC and reloads from TMA on overflow.

use vstd::prelude::*;

verus! {

/// Width of the internal cycle accumulator: it counts modulo 2^24.
pub const TIMER_COUNTER_MOD: u32 = 0x100_0000;

/// T-cycles per TIMA increment for the clock select bits TAC[1:0].
pub open spec fn timer_period(select: u8) -> nat {
    if select == 0 {
        1024
    } else if select == 1 {
        16
    } else if select == 2 {
        64
    } else {
        256
    }
}

/// One increment of TIMA: returns the new TIMA and whether it overflowed.
pub open spec fn tima_tick(tima: u8, tma: u8) -> (u8, bool) {
    if tima == 0xff {
        (tma, true)
    } else {
        ((tima + 1) as u8, false)
    }
}

/// `n` successive increments of TIMA: the final TIMA, and whether any of them
/// overflowed.
pub open spec fn tima_run(tima: u8, tma: u8, n: nat) -> (u8, bool)
    decreases n,
{
    if n == 0 {
        (tima, false)
    } else {
        let prev = tima_run(tima, tma, (n - 1) as nat);
        let next = tima_tick(prev.0, tma);
        (next.0, prev.1 || next.1)
    }
}

pub struct Timer {
    /// Internal T-cycle accumulator; DIV is bits 8..15 of it.
    pub counter: u32,
    /// Overflow edge, latched until the CPU collects it into IF.
    pub irq: bool,
    pub tima: u8,
    pub tma: u8,
    /// Timer control: bit 2 enables, bits 1..0 select the period.
    pub tac: u8,
}

impl Timer {
    pub open spec fn wf(&self) -> bool {
        &&& self.counter < TIMER_COUNTER_MOD
        &&& self.tac < 8
    }

    /// Number of TIMA increments that `cycles` more T-cycles bring.
    pub open spec fn ticks_for(&self, cycles: nat) -> nat {
        if self.tac & 0x04 == 0 {
            0
        } else {
            let d = timer_period(self.tac & 0x03) as int;
            ((self.counter as int % d + cycles as int) / d) as nat
        }
    }

    /// The value seen at each timer register.
    pub open spec fn read_spec(&self, address: u16) -> u8 {
        if address == 0xff04 {
            ((self.counter / 256) % 256) as u8
        } else if address == 0xff05 {
            self.tima
        } else if address == 0xff06 {
            self.tma
        } else if address == 0xff07 {
            self.tac
        } else {
            0xff
        }
    }

    /// The timer after a write of `value` to `address`.
    pub open spec fn write_spec(self, address: u16, value: u8) -> Timer {
        if address == 0xff04 {
            Timer { counter: 0, ..self }
        } else if address == 0xff05 {
            Timer { tima: value, ..self }
        } else if address == 0xff06 {
            Timer { tma: value, ..self }
        } else if address == 0xff07 {
            Timer { tac: value & 0x07, ..self }
        } else {
            self
        }
    }

    /// The timer after `cycles` T-cycles.
    pub open spec fn update_spec(self, cycles: u8) -> Timer {
        let run = tima_run(self.tima, self.tma, self.ticks_for(cycles as nat));
        Timer {
            counter: ((self.counter + cycles) % (TIMER_COUNTER_MOD as int)) as u32,
            tima: run.0,
            irq: self.irq || run.1,
            ..self
        }
    }

    pub fn new() -> (r: Self)
        ensures
            r.wf(),
            r == (Timer { counter: 0, irq: false, tima: 0, tma: 0, tac: 0 }),
    {
        Timer { counter: 0, irq: false, tima: 0, tma: 0, tac: 0 }
    }

    pub fn read(&self, address: u16) -> (r: u8)
        requires
            self.wf(),
        ensures
            r == self.read_spec(address),
    {
        if address == 0xff04 {
            proof {
                let c = self.counter;
                assert((c >> 8u32) & 0xff == (c / 256) % 256) by (bit_vector);
            }
            ((self.counter >> 8) & 0xff) as u8
        } else if address == 0xff05 {
            self.tima
        } else if address == 0xff06 {
            self.tma
        } else if address == 0xff07 {
            self.tac
        } else {
            0xff
        }
    }

    pub fn write(&mut self, address: u16, value: u8)
        requires
            old(self).wf(),
        ensures
            final(self).wf(),
            *final(self) == old(self).write_spec(address, value),
    {
        if address == 0xff04 {
            self.counter = 0;
        } else if address == 0xff05 {
            self.tima = value;
        } else if address == 0xff06 {
            self.tma = value;
        } else if address == 0xff07 {
            self.tac = value & 0x07;
            assert(value & 0x07 < 8) by (bit_vector);
        }
    }

    /// Advances the divider and TIMA by `cycles` T-cycles; an overflow
    /// reloads TIMA from TMA and raises the timer IRQ edge.
    pub fn update(&mut self, cycles: u8)
        requires
            old(self).wf(),
        ensures
            final(self).wf(),
            *final(self) == old(self).update_spec(cycles),
    {
        let ticks: u32 = if self.tac & 0x04 == 0 {
            0
        } else {
            let period: u32 = if self.tac & 0x03 == 0 {
                1024
            } else if self.tac & 0x03 == 1 {
                16
            } else if self.tac & 0x03 == 2 {
                64
            } else {
                256
            };
            (self.counter % period + cycles as u32) / period
        };
        assert(ticks == self.ticks_for(cycles as nat));
        let tma = self.tma;
        let ghost tima0 = self.tima;
        let mut tima = self.tima;
        let mut over = false;
        let mut i: u32 = 0;
        while i < ticks
            invariant
                i <= ticks,
                (tima, over) == tima_run(tima0, tma, i as nat),
            decreases ticks - i,
        {
            if tima == 0xff {
                tima = tma;
                over = true;
            } else {
                tima = tima + 1;
            }
            i = i + 1;
        }
        self.tima = tima;
        self.irq = self.irq || over;
        self.counter = (self.counter + cycles as u32) % TIMER_COUNTER_MOD;
    }
}

} // verus!

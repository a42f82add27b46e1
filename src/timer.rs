//! The timer unit: DIV (0xFF04), TIMA (0xFF05), TMA (0xFF06) and TAC (0xFF07).
use vstd::prelude::*;

use crate::interruption::{Interruption, Peripheral};
use crate::Address;

verus! {

/// T-cycles per second of the CPU master clock.
pub const CPU_CLOCK: u32 = 4194304;

/// T-cycles per increment of DIV (16384 Hz).
pub const DIV_PERIOD: u32 = 256;

/// T-cycles per increment of TIMA for a TAC clock select value.
pub open spec fn spec_tima_period(tac: u8) -> u32 {
    if tac % 4 == 0 {
        1024
    } else if tac % 4 == 1 {
        16
    } else if tac % 4 == 2 {
        64
    } else {
        256
    }
}

/// Whether TAC has the timer running.
pub open spec fn spec_enabled(tac: u8) -> bool {
    (tac / 4) % 2 == 1
}

/// TIMA after `n` increments, and whether it overflowed (and was reloaded
/// from TMA) on the way.
pub open spec fn tima_steps(tima: u8, tma: u8, n: nat) -> (u8, bool)
    decreases n,
{
    if n == 0 {
        (tima, false)
    } else {
        let (t, o) = tima_steps(tima, tma, (n - 1) as nat);
        if t == 0xFF {
            (tma, true)
        } else {
            ((t + 1) as u8, o)
        }
    }
}

#[derive(Clone, Copy, Debug, PartialEq, Eq, Structural)]
pub struct Timer {
    /// DIV; increments at 16384 Hz; any write resets it.
    pub div: u8,
    /// T-cycles counted toward the next DIV increment.
    pub div_tmp: u32,
    /// TIMA; increments at the rate TAC selects.
    pub tima: u8,
    /// T-cycles counted toward the next TIMA increment.
    pub tima_tmp: u32,
    /// TMA; loaded into TIMA when it overflows.
    pub tma: u8,
    /// TAC: bit 2 enables the timer, bits 1-0 select the clock.
    pub tac: u8,
}

/// Whether `address` is one of the four timer registers.
pub open spec fn is_timer_register(address: Address) -> bool {
    0xFF04 <= address <= 0xFF07
}

impl Timer {
    pub open spec fn wf(&self) -> bool {
        &&& self.div_tmp < 256
        &&& self.tima_tmp < 1024
        &&& self.tac < 8
    }

    pub open spec fn spec_read(&self, address: Address) -> u8 {
        if address == 0xFF04 {
            self.div
        } else if address == 0xFF05 {
            self.tima
        } else if address == 0xFF06 {
            self.tma
        } else {
            self.tac
        }
    }

    pub open spec fn spec_write(self, address: Address, data: u8) -> Timer {
        if address == 0xFF04 {
            Timer { div: 0, ..self }
        } else if address == 0xFF05 {
            Timer { tima: data, ..self }
        } else if address == 0xFF06 {
            Timer { tma: data, ..self }
        } else {
            Timer { tac: data % 8, ..self }
        }
    }

    /// The timer after `cycle` T-cycles, and whether TIMA overflowed.
    pub open spec fn spec_tick(self, cycle: u8) -> (Timer, bool) {
        let d = self.div_tmp + cycle;
        let div = ((self.div + d / 256) % 256) as u8;
        let div_tmp = (d % 256) as u32;
        if spec_enabled(self.tac) {
            let p = spec_tima_period(self.tac);
            let t = self.tima_tmp + cycle;
            let (tima, o) = tima_steps(self.tima, self.tma, (t / p as int) as nat);
            (Timer { div, div_tmp, tima, tima_tmp: (t % p as int) as u32, ..self }, o)
        } else {
            (Timer { div, div_tmp, ..self }, false)
        }
    }

    /// All registers and counters at zero, timer stopped.
    pub fn new() -> (r: Self)
        ensures
            r.wf(),
            r.div == 0 && r.tima == 0 && r.tma == 0 && r.tac == 0,
            r.div_tmp == 0 && r.tima_tmp == 0,
    {
        Timer { div: 0, div_tmp: 0, tima: 0, tima_tmp: 0, tma: 0, tac: 0 }
    }

    fn tima_period(&self) -> (r: u32)
        ensures
            r == spec_tima_period(self.tac),
    {
        let sel = self.tac % 4;
        if sel == 0 {
            CPU_CLOCK / 4096
        } else if sel == 1 {
            CPU_CLOCK / 262144
        } else if sel == 2 {
            CPU_CLOCK / 65536
        } else {
            CPU_CLOCK / 16384
        }
    }

    fn increment_div(&mut self, cycle: u8)
        requires
            old(self).wf(),
        ensures
            final(self).wf(),
            final(self).div == old(self).spec_tick(cycle).0.div,
            final(self).div_tmp == old(self).spec_tick(cycle).0.div_tmp,
            final(self).tima == old(self).tima,
            final(self).tima_tmp == old(self).tima_tmp,
            final(self).tma == old(self).tma,
            final(self).tac == old(self).tac,
    {
        let total = self.div_tmp + cycle as u32;
        let mut acc = total;
        let mut div = self.div;
        let ghost n: int = 0;
        while acc >= DIV_PERIOD
            invariant
                acc + 256 * n == total,
                0 <= n,
                div == (old(self).div + n) % 256,
                total < 512,
            decreases acc,
        {
            acc = acc - DIV_PERIOD;
            div = if div == 0xFF { 0 } else { div + 1 };
            proof {
                n = n + 1;
            }
        }
        assert(n == total / 256 && acc == total % 256) by (nonlinear_arith)
            requires
                acc + 256 * n == total,
                0 <= n,
                acc < 256,
        ;
        self.div = div;
        self.div_tmp = acc;
    }

    fn increment_tima(&mut self, cycle: u8) -> (overflow: bool)
        requires
            old(self).wf(),
            spec_enabled(old(self).tac),
        ensures
            final(self).wf(),
            (*final(self), overflow) == (Timer {
                div: old(self).div,
                div_tmp: old(self).div_tmp,
                ..old(self).spec_tick(cycle).0
            }, old(self).spec_tick(cycle).1),
    {
        let p = self.tima_period();
        let total = self.tima_tmp + cycle as u32;
        let mut acc = total;
        let mut tima = self.tima;
        let mut overflow = false;
        let ghost n: nat = 0;
        while acc >= p
            invariant
                acc + p * n == total,
                total < 1024 + 256,
                p == spec_tima_period(old(self).tac),
                p >= 16,
                (tima, overflow) == tima_steps(old(self).tima, old(self).tma, n),
            decreases acc,
        {
            acc = acc - p;
            if tima == 0xFF {
                tima = self.tma;
                overflow = true;
            } else {
                tima = tima + 1;
            }
            proof {
                n = n + 1;
            }
        }
        assert(n == total as int / p as int && acc == total as int % p as int) by (nonlinear_arith)
            requires
                acc + p * n == total,
                acc < p,
                p > 0,
        ;
        self.tima = tima;
        self.tima_tmp = acc;
        overflow
    }

    /// Advances the timer by `cycle` T-cycles; on a TIMA overflow the timer
    /// interrupt is requested.
    pub fn tick(&mut self, cycle: u8, ic: &mut Interruption)
        requires
            old(self).wf(),
        ensures
            final(self).wf(),
            *final(self) == old(self).spec_tick(cycle).0,
            final(ic).enables == old(ic).enables,
            final(ic).interrupts == if old(self).spec_tick(cycle).1 {
                old(ic).interrupts.spec_with(Peripheral::Timer, true)
            } else {
                old(ic).interrupts
            },
    {
        self.increment_div(cycle);
        if self.tac / 4 % 2 == 1 {
            let overflow = self.increment_tima(cycle);
            if overflow {
                ic.request(Peripheral::Timer);
            }
        }
    }

    /// Reads DIV, TIMA, TMA or TAC.
    pub fn read(&self, address: Address) -> (r: u8)
        requires
            is_timer_register(address),
        ensures
            r == self.spec_read(address),
    {
        if address == 0xFF04 {
            self.div
        } else if address == 0xFF05 {
            self.tima
        } else if address == 0xFF06 {
            self.tma
        } else {
            self.tac
        }
    }

    /// Writes a timer register; any write to DIV resets it to zero.
    pub fn write(&mut self, address: Address, data: u8)
        requires
            is_timer_register(address),
            old(self).wf(),
        ensures
            final(self).wf(),
            *final(self) == old(self).spec_write(address, data),
    {
        if address == 0xFF04 {
            self.div = 0;
        } else if address == 0xFF05 {
            self.tima = data;
        } else if address == 0xFF06 {
            self.tma = data;
        } else {
            self.tac = data % 8;
        }
    }
}

} // verus!

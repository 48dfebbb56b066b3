use vstd::prelude::*;

use crate::conf::{Error, DIV_REG_UPDATE_PER_MCYCLE, TIMA_UPDATE_PER_MCYCLE};
use crate::util::{is_bit, Counter};

verus! {

/// TIMA and its overflow flag after `k` increments, reloading from `tma` on overflow.
pub open spec fn tima_steps(tima: u8, tma: u8, k: nat) -> (u8, bool)
    decreases k,
{
    if k == 0 {
        (tima, false)
    } else {
        let (t, i) = tima_steps(tima, tma, (k - 1) as nat);
        if t == 0xFF {
            (tma, true)
        } else {
            ((t + 1) as u8, i)
        }
    }
}

/// What the timers hold: the four registers and the two counters that drive DIV and TIMA.
pub struct TimerState {
    pub div: u8,
    pub tac: u8,
    pub tma: u8,
    pub tima: u8,
    /// Cycles counted towards the next DIV increment.
    pub div_count: u64,
    /// Cycles between two DIV increments.
    pub div_period: u64,
    /// Cycles counted towards the next TIMA increment.
    pub tima_count: u64,
    /// Cycles between two TIMA increments.
    pub tima_period: u64,
}

impl TimerState {
    /// DIV counts in periods of 256 cycles, and TIMA's period is one of the four of TAC.
    pub open spec fn wf(&self) -> bool {
        &&& self.div_period == DIV_REG_UPDATE_PER_MCYCLE
        &&& self.div_count < DIV_REG_UPDATE_PER_MCYCLE
        &&& (self.tima_period == 1024 || self.tima_period == 16 || self.tima_period == 64
            || self.tima_period == 256)
        &&& self.tima_count <= u32::MAX
    }

    /// Whether TIMA counts (bit 2 of TAC).
    pub open spec fn tima_enabled(&self) -> bool {
        (self.tac >> 2u8) & 1 == 1
    }

    /// Whether `cycles` more cycles can be counted in one call.
    pub open spec fn ticks_ok(&self, cycles: u32) -> bool {
        &&& self.div_count + cycles < 2 * DIV_REG_UPDATE_PER_MCYCLE
        &&& (self.tima_enabled() ==> (self.tima_count + cycles) / (self.tima_period as int) <= 255)
    }

    /// The timers after `clocks` cycles, and whether TIMA overflowed (reloading from `tma`).
    pub open spec fn after_ticks(&self, clocks: u32, tma: u8) -> (TimerState, bool) {
        let d = self.div_count + clocks;
        let div = if d >= 256 {
            ((self.div + 1) % 256) as u8
        } else {
            self.div
        };
        if self.tima_enabled() {
            let total = self.tima_count + clocks;
            let k = (total / (self.tima_period as int)) as nat;
            let (tima, overflow) = tima_steps(self.tima, tma, k);
            (
                TimerState {
                    div,
                    div_count: (d % 256) as u64,
                    tima,
                    tima_count: (total % (self.tima_period as int)) as u64,
                    ..*self
                },
                overflow,
            )
        } else {
            (TimerState { div, div_count: (d % 256) as u64, ..*self }, false)
        }
    }

    /// Any write to DIV clears it and the count towards its next increment.
    pub open spec fn after_set_div(&self) -> TimerState {
        TimerState { div: 0, div_count: 0, ..*self }
    }

    /// TAC with its unused high bits set, the TIMA period it selects, and a restarted count
    /// when the frequency changed.
    pub open spec fn after_set_tac(&self, byte: u8) -> TimerState {
        TimerState {
            tac: byte | 0b1111_1000,
            tima_period: TIMA_UPDATE_PER_MCYCLE[(byte & 0b11) as int] as u64,
            tima_count: if byte & 0b11 != self.tac & 0b11 {
                0
            } else {
                self.tima_count
            },
            ..*self
        }
    }
}

/// The DIV and TIMA timers.
pub struct Timer {
    div: u8,
    tac: u8,
    tma: u8,
    tima: u8,
    div_ticker: Counter,
    tima_ticker: Counter,
}

impl View for Timer {
    type V = TimerState;

    open spec fn view(&self) -> TimerState {
        TimerState {
            div: self.spec_div(),
            tac: self.spec_tac(),
            tma: self.spec_tma(),
            tima: self.spec_tima(),
            div_count: self.div_count(),
            div_period: self.div_period(),
            tima_count: self.tima_count(),
            tima_period: self.tima_period(),
        }
    }
}

impl Timer {
    pub closed spec fn spec_div(&self) -> u8 {
        self.div
    }

    pub closed spec fn spec_tac(&self) -> u8 {
        self.tac
    }

    pub closed spec fn spec_tma(&self) -> u8 {
        self.tma
    }

    pub closed spec fn spec_tima(&self) -> u8 {
        self.tima
    }

    /// Cycles counted towards the next DIV increment.
    pub closed spec fn div_count(&self) -> u64 {
        self.div_ticker.count()
    }

    /// Cycles between two DIV increments.
    pub closed spec fn div_period(&self) -> u64 {
        self.div_ticker.modulo()
    }

    /// Cycles counted towards the next TIMA increment.
    pub closed spec fn tima_count(&self) -> u64 {
        self.tima_ticker.count()
    }

    /// Cycles between two TIMA increments.
    pub closed spec fn tima_period(&self) -> u64 {
        self.tima_ticker.modulo()
    }

    pub open spec fn wf(&self) -> bool {
        self@.wf()
    }

    pub open spec fn tima_enabled(&self) -> bool {
        self@.tima_enabled()
    }

    pub open spec fn ticks_ok(&self, cycles: u32) -> bool {
        self@.ticks_ok(cycles)
    }

    pub fn new() -> (r: Self)
        ensures
            r.wf(),
            r@ == (TimerState {
                div: 0,
                tac: 0b1111_1000,
                tma: 0,
                tima: 0,
                div_count: 0,
                div_period: 256,
                tima_count: 0,
                tima_period: 256,
            }),
    {
        Timer {
            div: 0,
            // High 5 bits unused - set to 1.
            tac: 0b1111_1000,
            tma: 0,
            tima: 0,
            div_ticker: Counter::new(DIV_REG_UPDATE_PER_MCYCLE as u64),
            tima_ticker: Counter::new(TIMA_UPDATE_PER_MCYCLE[3] as u64),
        }
    }

    /// Counts `cpu_clocks` cycles; gives back whether TIMA overflowed (and was reloaded
    /// from `pre_exec_tma`), which asks for the timer interrupt.
    #[must_use]
    pub fn handle_ticks(&mut self, cpu_clocks: u32, pre_exec_tma: u8) -> (r: Result<bool, Error>)
        requires
            old(self).wf(),
            old(self).ticks_ok(cpu_clocks),
        ensures
            final(self).wf(),
            (final(self)@, r) == ({
                let (t, overflow) = old(self)@.after_ticks(cpu_clocks, pre_exec_tma);
                (t, Ok::<bool, Error>(overflow))
            }),
    {
        let mut needs_tima_interrupt = false;

        self.div_ticker.tick(cpu_clocks as u64);
        if self.div_ticker.check_overflow() {
            self.div = self.div.wrapping_add(1);
        }
        proof {
            let c = old(self).div_count() + cpu_clocks;
            assert(c >= 256 ==> c % 256 == c - 256);
            assert(c < 256 ==> c % 256 == c);
        }

        let tima_enabled = is_bit(self.tac, 2);
        if tima_enabled {
            self.tima_ticker.tick(cpu_clocks as u64);

            let mut overflow_count = self.tima_ticker.check_overflow_count();
            let ghost k = overflow_count as nat;
            let ghost tima0 = self.tima;
            let ghost before = *self;
            while overflow_count > 0
                invariant
                    overflow_count <= k,
                    self.div == before.div,
                    self.tac == before.tac,
                    self.tma == before.tma,
                    self.div_ticker == before.div_ticker,
                    self.tima_ticker == before.tima_ticker,
                    (self.tima, needs_tima_interrupt) == tima_steps(
                        tima0,
                        pre_exec_tma,
                        (k - overflow_count) as nat,
                    ),
                decreases overflow_count,
            {
                if self.tima == 0xFF {
                    self.tima = pre_exec_tma;

                    needs_tima_interrupt = true;
                } else {
                    self.tima += 1;
                }

                overflow_count -= 1;
            }
        }
        Ok(needs_tima_interrupt)
    }

    /// Whether `handle_ticks(cycles, _)` is defined: DIV counts at most one period, and TIMA
    /// at most 255 increments.
    pub fn is_ticks_ok(&self, cycles: u32) -> (r: bool)
        requires
            self.wf(),
        ensures
            r == self.ticks_ok(cycles),
    {
        if self.div_ticker.counter + cycles as u64 >= 2 * DIV_REG_UPDATE_PER_MCYCLE as u64 {
            return false;
        }
        if is_bit(self.tac, 2) {
            (self.tima_ticker.counter + cycles as u64) / self.tima_ticker.modulo <= 255
        } else {
            true
        }
    }

    pub fn div(&self) -> (r: u8)
        ensures
            r == self@.div,
    {
        self.div
    }

    pub fn tac(&self) -> (r: u8)
        ensures
            r == self@.tac,
    {
        self.tac
    }

    pub fn tma(&self) -> (r: u8)
        ensures
            r == self@.tma,
    {
        self.tma
    }

    pub fn tima(&self) -> (r: u8)
        ensures
            r == self@.tima,
    {
        self.tima
    }

    /// Cycles counted towards the next TIMA increment.
    pub fn tima_counter(&self) -> (r: u64)
        ensures
            r == self.tima_count(),
    {
        self.tima_ticker.counter
    }

    /// Any write to DIV clears it.
    pub fn set_div(&mut self)
        requires
            old(self).wf(),
        ensures
            final(self).wf(),
            final(self)@ == old(self)@.after_set_div(),
    {
        self.div = 0;
        self.div_ticker.reset();
    }

    /// Sets TAC (its unused high bits read as 1) and the TIMA period it selects;
    /// a change of frequency restarts the count towards the next TIMA increment.
    pub fn set_tac(&mut self, byte: u8)
        requires
            old(self).wf(),
        ensures
            final(self).wf(),
            final(self)@ == old(self)@.after_set_tac(byte),
    {
        if byte & 0b11 != self.tac & 0b11 {
            self.tima_ticker.reset();
        }

        self.tac = byte | 0b1111_1000;  // Keep useless bits to 1.
        assert((byte | 0xF8u8) & 0b11u8 == byte & 0b11u8 && byte & 0b11u8 < 4) by (bit_vector);

        let tima_freq = TIMA_UPDATE_PER_MCYCLE[(self.tac & 0b11) as usize];
        self.tima_ticker.update_modulo(tima_freq as u64);
    }

    pub fn set_tma(&mut self, byte: u8)
        requires
            old(self).wf(),
        ensures
            final(self).wf(),
            final(self)@ == (TimerState { tma: byte, ..old(self)@ }),
    {
        self.tma = byte;
    }

    pub fn set_tima(&mut self, byte: u8)
        requires
            old(self).wf(),
        ensures
            final(self).wf(),
            final(self)@ == (TimerState { tima: byte, ..old(self)@ }),
    {
        self.tima = byte;
    }
}


/// TIMA counts only while bit 2 of TAC is set. With it clear, TIMA and the count towards its
/// next increment stay as they are, whatever the cycles, and no overflow is reported. With it
/// set, one full period moves TIMA on by one, or reloads it from TMA after 0xFF, and only that
/// reload is reported as an overflow.
pub proof fn lemma_tima_counts_only_when_enabled(t: TimerState, clocks: u32, tma: u8)
    requires
        t.wf(),
    ensures
        t.tac & 0b100 == 0 ==> {
            &&& t.after_ticks(clocks, tma).0.tima == t.tima
            &&& t.after_ticks(clocks, tma).0.tima_count == t.tima_count
            &&& !t.after_ticks(clocks, tma).1
        },
        t.tac & 0b100 != 0 && t.tima_count + clocks == t.tima_period ==> {
            &&& t.after_ticks(clocks, tma).0.tima == (if t.tima == 0xFF {
                tma
            } else {
                (t.tima + 1) as u8
            })
            &&& t.after_ticks(clocks, tma).1 == (t.tima == 0xFF)
            &&& t.after_ticks(clocks, tma).0.tima_count == 0
        },
{
    let tac = t.tac;
    assert(((tac >> 2u8) & 1 == 1) == (tac & 0b100 != 0)) by (bit_vector);
    if t.tac & 0b100 != 0 && t.tima_count + clocks == t.tima_period {
        let p = t.tima_period as int;
        assert(p / p == 1 && p % p == 0);
        reveal_with_fuel(tima_steps, 2);
    }
}

} // verus!

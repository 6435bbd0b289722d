use vstd::prelude::*;
use vstd::arithmetic::div_mod::{lemma_fundamental_div_mod, lemma_fundamental_div_mod_converse};

verus! {

/// Address of the divider register.
pub const TIMER_DIVIDER: u16 = 0xFF04;

/// Address of the counter register.
pub const TIMER_COUNTER: u16 = 0xFF05;

/// Address of the reload register.
pub const TIMER_MODULO: u16 = 0xFF06;

/// Address of the control register.
pub const TIMER_CONTROL: u16 = 0xFF07;

/// The pending-mask bit of the timer's interrupt line.
pub const TIMER_LINE: u8 = 0x04;

/// The timer: a free-running divider and a counter whose rate the control register selects.
#[derive(Clone, Copy, Debug, PartialEq, Eq, Structural)]
pub struct Timer {
    /// The divider register: one step every 256 cycles.
    pub divider: u8,
    /// The counter register.
    pub counter: u8,
    /// The value the counter restarts from when it overflows.
    pub modulo: u8,
    /// The control register: bit 2 switches the counter on, bits 0 and 1 select its period.
    pub control: u8,
    /// Cycles counted towards the next step of the divider.
    pub divider_cycles: u16,
    /// Cycles counted towards the next step of the counter.
    pub counter_cycles: u16,
    /// Interrupt lines raised since the owner last collected them.
    pub interrupt: u8,
}

/// The remainder of a number's successor is the successor of its remainder,
/// or zero where the remainder was the last below the divisor.
pub proof fn lemma_successor_remainder(x: int, d: int)
    requires
        0 <= x,
        0 < d,
    ensures
        0 <= x % d < d,
        (x + 1) % d == (if x % d == d - 1 {
            0
        } else {
            x % d + 1
        }),
{
    lemma_fundamental_div_mod(x, d);
    let q = x / d;
    let r = x % d;
    assert(x == d * q + r);
    assert(d * q == q * d) by (nonlinear_arith);
    if r == d - 1 {
        assert(x + 1 == (q + 1) * d + 0) by (nonlinear_arith)
            requires
                x == q * d + r,
                r == d - 1,
        ;
        lemma_fundamental_div_mod_converse(x + 1, d, q + 1, 0);
    } else {
        lemma_fundamental_div_mod_converse(x + 1, d, q, r + 1);
    }
}

impl Timer {
    /// Whether `a` is one of the four timer registers.
    pub open spec fn handles(a: u16) -> bool {
        TIMER_DIVIDER <= a <= TIMER_CONTROL
    }

    /// The cycle counts stay below the longest period they are measured against.
    pub open spec fn wf(&self) -> bool {
        self.divider_cycles < 256 && self.counter_cycles < 1024
    }

    /// Whether the control register has the counter switched on.
    pub open spec fn enabled(&self) -> bool {
        (self.control / 4) % 2 == 1
    }

    /// Cycles per step of the counter, as the control register selects.
    pub open spec fn period(&self) -> int {
        if self.control % 4 == 1 {
            16
        } else if self.control % 4 == 2 {
            64
        } else if self.control % 4 == 3 {
            256
        } else {
            1024
        }
    }

    /// The counter after `n` steps from `counter`, and whether it overflowed on
    /// the way. A step from 255 is an overflow and restarts from `modulo`.
    pub open spec fn counted(counter: u8, modulo: u8, n: nat) -> (u8, bool)
        decreases n,
    {
        if n == 0 {
            (counter, false)
        } else {
            let before = Timer::counted(counter, modulo, (n - 1) as nat);
            if before.0 == 255 {
                (modulo, true)
            } else {
                ((before.0 + 1) as u8, before.1)
            }
        }
    }

    /// The timer after `ticks` more cycles.
    pub open spec fn advanced(self, ticks: u32) -> Timer {
        let d = self.divider_cycles + ticks;
        let divided = Timer {
            divider: ((self.divider + d / 256) % 256) as u8,
            divider_cycles: (d % 256) as u16,
            ..self
        };
        if self.enabled() {
            let c = self.counter_cycles + ticks;
            let run = Timer::counted(self.counter, self.modulo, (c / self.period()) as nat);
            Timer {
                counter: run.0,
                counter_cycles: (c % self.period()) as u16,
                interrupt: if run.1 {
                    self.interrupt | TIMER_LINE
                } else {
                    self.interrupt
                },
                ..divided
            }
        } else {
            divided
        }
    }

    /// The value read at `a`.
    pub open spec fn spec_rb(&self, a: u16) -> u8 {
        if a == TIMER_DIVIDER {
            self.divider
        } else if a == TIMER_COUNTER {
            self.counter
        } else if a == TIMER_MODULO {
            self.modulo
        } else {
            self.control
        }
    }

    /// The timer after `v` was written at `a`. Any write to the divider restarts it from zero.
    pub open spec fn written(self, a: u16, v: u8) -> Timer {
        if a == TIMER_DIVIDER {
            Timer { divider: 0, divider_cycles: 0, ..self }
        } else if a == TIMER_COUNTER {
            Timer { counter: v, ..self }
        } else if a == TIMER_MODULO {
            Timer { modulo: v, ..self }
        } else {
            Timer { control: v, ..self }
        }
    }

    /// The timer as it starts out: everything zero, the counter switched off.
    pub open spec fn initial() -> Timer {
        Timer {
            divider: 0,
            counter: 0,
            modulo: 0,
            control: 0,
            divider_cycles: 0,
            counter_cycles: 0,
            interrupt: 0,
        }
    }

    /// The counter after `n` steps from `counter`, and whether it overflowed,
    /// without going through the steps: up to 255 the counter just counts; from
    /// the first overflow on it goes round through the values from `modulo` to 255.
    pub open spec fn counted_at_once(counter: u8, modulo: u8, n: nat) -> (u8, bool) {
        if counter + n <= 255 {
            ((counter + n) as u8, false)
        } else {
            ((modulo + (counter + n - 256) % (256 - modulo)) as u8, true)
        }
    }

    /// Counting step by step and counting at once come to the same.
    pub proof fn lemma_counted_at_once(counter: u8, modulo: u8, n: nat)
        ensures
            Timer::counted(counter, modulo, n) == Timer::counted_at_once(counter, modulo, n),
        decreases n,
    {
        if n > 0 {
            Timer::lemma_counted_at_once(counter, modulo, (n - 1) as nat);
            let round = 256 - modulo;
            if counter + n > 256 {
                lemma_successor_remainder(counter + n - 257, round);
            } else if counter + n == 256 {
                lemma_fundamental_div_mod_converse(0, round, 0, 0);
            }
        }
    }

    /// The timer as it starts out.
    pub fn new() -> (timer: Timer)
        ensures
            timer.wf(),
            timer == Timer::initial(),
    {
        Timer {
            divider: 0,
            counter: 0,
            modulo: 0,
            control: 0,
            divider_cycles: 0,
            counter_cycles: 0,
            interrupt: 0,
        }
    }

    fn counter_period(&self) -> (period: u64)
        ensures
            period == self.period(),
    {
        let rate: u8 = self.control % 4;
        if rate == 1 {
            16
        } else if rate == 2 {
            64
        } else if rate == 3 {
            256
        } else {
            1024
        }
    }

    /// Lets `ticks` cycles pass.
    pub fn cycle(&mut self, ticks: u32)
        requires
            old(self).wf(),
        ensures
            final(self).wf(),
            *final(self) == old(self).advanced(ticks),
    {
        let d: u64 = self.divider_cycles as u64 + ticks as u64;
        let enabled: bool = (self.control / 4) % 2 == 1;
        let period: u64 = self.counter_period();
        let c: u64 = self.counter_cycles as u64 + ticks as u64;
        self.divider = ((self.divider as u64 + d / 256) % 256) as u8;
        self.divider_cycles = (d % 256) as u16;
        if enabled {
            let steps: u64 = c / period;
            let reached: u64 = self.counter as u64 + steps;
            let fired: bool = reached > 255;
            let counter: u8 = if fired {
                (self.modulo as u64 + (reached - 256) % (256 - self.modulo as u64)) as u8
            } else {
                reached as u8
            };
            proof {
                Timer::lemma_counted_at_once(self.counter, self.modulo, steps as nat);
            }
            self.counter = counter;
            self.counter_cycles = (c % period) as u16;
            if fired {
                self.interrupt = self.interrupt | TIMER_LINE;
            }
        }
    }

    /// Reads the register at `a`.
    #[verifier::when_used_as_spec(spec_rb)]
    pub fn rb(&self, a: u16) -> (v: u8)
        requires
            Timer::handles(a),
        ensures
            v == self.spec_rb(a),
    {
        if a == TIMER_DIVIDER {
            self.divider
        } else if a == TIMER_COUNTER {
            self.counter
        } else if a == TIMER_MODULO {
            self.modulo
        } else {
            self.control
        }
    }

    /// Writes `v` to the register at `a`.
    pub fn wb(&mut self, a: u16, v: u8)
        requires
            Timer::handles(a),
            old(self).wf(),
        ensures
            final(self).wf(),
            *final(self) == old(self).written(a, v),
    {
        if a == TIMER_DIVIDER {
            self.divider = 0;
            self.divider_cycles = 0;
        } else if a == TIMER_COUNTER {
            self.counter = v;
        } else if a == TIMER_MODULO {
            self.modulo = v;
        } else {
            self.control = v;
        }
    }
}

} // verus!

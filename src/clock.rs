//! The elapsed-time counter shared by the compare-match interrupt and the
//! code that reads it.
//!
//! Exclusive access (`&mut self`) stands for the critical section: the
//! caller holds interrupts off while it advances, resets or reads the clock.
use vstd::prelude::*;
use vstd::arithmetic::div_mod::{lemma_add_mod_noop, lemma_small_mod};
use crate::timer::{
    TimerRegisters, ConfigError, MICROS_INCREMENT, TCCR0A_CTC, TIMSK0_OCIE0A, registers_for,
    prescaler_for, config_error, increment_of, check_config, micros_increment,
};

verus! {

/// Size of the counter's value range.
pub open spec fn counter_modulus() -> int {
    0x1_0000_0000
}

/// The counter after one interrupt: `micros + increment`, wrapping at 2^32.
pub open spec fn advanced(micros: u32, increment: u32) -> u32 {
    ((micros + increment) % counter_modulus()) as u32
}

/// The counter after `n` interrupts, starting from `micros`.
pub open spec fn advanced_n(micros: u32, increment: u32, n: nat) -> u32
    decreases n,
{
    if n == 0 {
        micros
    } else {
        advanced(advanced_n(micros, increment, (n - 1) as nat), increment)
    }
}

/// After `n` compare-match interrupts from a counter value `micros`, the
/// counter reads `micros + n * increment`, reduced modulo 2^32.
pub proof fn lemma_advanced_n(micros: u32, increment: u32, n: nat)
    ensures
        advanced_n(micros, increment, n) as int == (micros + n * increment) % counter_modulus(),
    decreases n,
{
    let m = counter_modulus();
    if n == 0 {
        lemma_small_mod(micros as nat, m as nat);
    } else {
        let k = (n - 1) as nat;
        lemma_advanced_n(micros, increment, k);
        let before = micros + k * increment;
        lemma_add_mod_noop(before, increment as int, m);
        lemma_small_mod(increment as nat, m as nat);
        assert(before + increment == micros + n * increment) by (nonlinear_arith)
            requires
                before == micros + k * increment,
                n == k + 1,
        ;
    }
}

/// Microseconds elapsed since initialization, wrapping at 2^32, together
/// with the fixed amount each compare-match interrupt adds.
#[derive(Clone, Copy, Debug)]
pub struct MicrosClock {
    micros: u32,
    increment: u32,
}

impl MicrosClock {
    /// The current counter value.
    pub closed spec fn spec_micros(self) -> u32 {
        self.micros
    }

    /// Microseconds added by each interrupt.
    pub closed spec fn spec_increment(self) -> u32 {
        self.increment
    }

    /// A clock at zero that advances by the configured `MICROS_INCREMENT`.
    pub fn new() -> (r: MicrosClock)
        ensures
            r.spec_micros() == 0,
            r.spec_increment() == MICROS_INCREMENT,
    {
        MicrosClock { micros: 0, increment: MICROS_INCREMENT }
    }

    /// A clock that reads `micros` and advances by `increment` per interrupt.
    pub fn from_parts(micros: u32, increment: u32) -> (r: MicrosClock)
        ensures
            r.spec_micros() == micros,
            r.spec_increment() == increment,
    {
        MicrosClock { micros, increment }
    }

    /// Configures the timer with divisor `prescaler` and compare value
    /// `timer_counts` and resets the counter to zero.
    ///
    /// Returns the register values to write to the timer: clear-on-compare-
    /// match mode, the compare value, the clock-select bits and the
    /// compare-match interrupt enabled. A configuration the hardware cannot
    /// run exactly is refused and the clock is left as it was.
    pub fn micros_init(&mut self, prescaler: u32, timer_counts: u32) -> (r: Result<
        TimerRegisters,
        ConfigError,
    >)
        ensures
            r is Err <==> config_error(prescaler, timer_counts) is Some,
            r matches Err(e) ==> config_error(prescaler, timer_counts) == Some(e) && *final(self)
                == *old(self),
            r matches Ok(regs) ==> {
                &&& final(self).spec_micros() == 0
                &&& final(self).spec_increment() == increment_of(prescaler, timer_counts)
                &&& regs == registers_for(prescaler_for(prescaler), timer_counts as u8)
            },
    {
        match check_config(prescaler, timer_counts) {
            Err(e) => Err(e),
            Ok((p, counts)) => {
                let regs = TimerRegisters {
                    tccr0a: TCCR0A_CTC,
                    ocr0a: counts,
                    tccr0b: p.clock_select(),
                    timsk0: TIMSK0_OCIE0A,
                };
                self.increment = micros_increment(p, counts);
                self.micros = 0;
                assert(regs == registers_for(p, timer_counts as u8));
                Ok(regs)
            },
        }
    }

    /// The compare-match interrupt: advances the counter by the increment,
    /// wrapping at 2^32.
    pub fn timer0_compa(&mut self)
        ensures
            final(self).spec_micros() == advanced(old(self).spec_micros(), old(self).spec_increment()),
            final(self).spec_increment() == old(self).spec_increment(),
    {
        self.micros = self.micros.wrapping_add(self.increment);
    }

    /// The elapsed microseconds.
    pub fn micros(&self) -> (r: u32)
        ensures
            r == self.spec_micros(),
    {
        self.micros
    }

    /// Microseconds added by each interrupt.
    pub fn increment(&self) -> (r: u32)
        ensures
            r == self.spec_increment(),
    {
        self.increment
    }
}

} // verus!

//! Timer configuration: prescale divisors, compare value, and the register
//! values that put the timer into clear-on-compare-match mode.
use vstd::prelude::*;

verus! {

/// Clock divider applied to the system clock before it reaches the timer.
pub const PRESCALER: u32 = 8;

/// Prescaled ticks between two compare-match interrupts.
pub const TIMER_COUNTS: u32 = 2;

/// Nominal system clock frequency, in MHz.
pub const CLOCK_MHZ: u32 = 16;

/// Microseconds that elapse between two compare-match interrupts.
pub const MICROS_INCREMENT: u32 = PRESCALER * TIMER_COUNTS / CLOCK_MHZ;

/// The divisors the timer's clock-select field can express.
pub open spec fn supported_prescaler(divisor: u32) -> bool {
    divisor == 8 || divisor == 64 || divisor == 256 || divisor == 1024
}

/// One interrupt interval is a whole number of microseconds.
pub open spec fn increment_is_exact(divisor: u32, counts: u32) -> bool {
    (divisor * counts) % (CLOCK_MHZ as int) == 0
}

/// Microseconds per interrupt interval for a divisor and compare value.
pub open spec fn increment_of(divisor: u32, counts: u32) -> int {
    (divisor * counts) / (CLOCK_MHZ as int)
}

/// The prescaler whose divisor is `divisor`, for a supported divisor.
pub open spec fn prescaler_for(divisor: u32) -> Prescaler {
    if divisor == 8 {
        Prescaler::Div8
    } else if divisor == 64 {
        Prescaler::Div64
    } else if divisor == 256 {
        Prescaler::Div256
    } else {
        Prescaler::Div1024
    }
}

/// Every accepted configuration advances the clock by exactly
/// `divisor * counts / CLOCK_MHZ` microseconds per interrupt, with no
/// remainder left over.
pub proof fn lemma_accepted_increment_exact(divisor: u32, counts: u32)
    requires
        config_error(divisor, counts) is None,
    ensures
        increment_of(divisor, counts) * (CLOCK_MHZ as int) == divisor * counts,
        increment_of(divisor, counts) >= 0,
{
    assert(divisor * counts >= 0) by (nonlinear_arith)
        requires
            divisor >= 0,
            counts >= 0,
    ;
    let p = divisor * counts;
    assert(p == (p / 16) * 16 + p % 16);
}

/// The configured constants give an exact increment, and
/// `MICROS_INCREMENT` is that increment.
pub proof fn lemma_configured_increment()
    ensures
        config_error(PRESCALER, TIMER_COUNTS) is None,
        MICROS_INCREMENT == increment_of(PRESCALER, TIMER_COUNTS),
        MICROS_INCREMENT * CLOCK_MHZ == PRESCALER * TIMER_COUNTS,
{
}

/// The standard divisor and compare-value pairs are accepted and give
/// 1, 1000, 2000, 4000, 8000 and 16000 microseconds per interrupt.
pub proof fn lemma_increment_table()
    ensures
        config_error(8, 2) is None && increment_of(8, 2) == 1,
        config_error(64, 250) is None && increment_of(64, 250) == 1000,
        config_error(256, 125) is None && increment_of(256, 125) == 2000,
        config_error(256, 250) is None && increment_of(256, 250) == 4000,
        config_error(1024, 125) is None && increment_of(1024, 125) == 8000,
        config_error(1024, 250) is None && increment_of(1024, 250) == 16000,
{
}

/// A supported clock divider.
#[derive(Clone, Copy, Debug, PartialEq, Eq, Structural)]
pub enum Prescaler {
    Div8,
    Div64,
    Div256,
    Div1024,
}

impl Prescaler {
    pub open spec fn spec_divisor(self) -> u32 {
        match self {
            Prescaler::Div8 => 8,
            Prescaler::Div64 => 64,
            Prescaler::Div256 => 256,
            Prescaler::Div1024 => 1024,
        }
    }

    /// Value of the three clock-select bits (CS02..CS00) of TCCR0B.
    pub open spec fn spec_clock_select(self) -> u8 {
        match self {
            Prescaler::Div8 => 2,
            Prescaler::Div64 => 3,
            Prescaler::Div256 => 4,
            Prescaler::Div1024 => 5,
        }
    }

    /// The factor by which this prescaler divides the system clock.
    pub fn divisor(&self) -> (r: u32)
        ensures
            r == self.spec_divisor(),
    {
        match self {
            Prescaler::Div8 => 8,
            Prescaler::Div64 => 64,
            Prescaler::Div256 => 256,
            Prescaler::Div1024 => 1024,
        }
    }

    /// The clock-select field value that selects this prescaler.
    pub fn clock_select(&self) -> (r: u8)
        ensures
            r == self.spec_clock_select(),
    {
        match self {
            Prescaler::Div8 => 2,
            Prescaler::Div64 => 3,
            Prescaler::Div256 => 4,
            Prescaler::Div1024 => 5,
        }
    }

    /// The prescaler with the given divisor, if the hardware has one.
    pub fn from_divisor(divisor: u32) -> (r: Option<Prescaler>)
        ensures
            r is Some <==> supported_prescaler(divisor),
            r matches Some(p) ==> p == prescaler_for(divisor) && p.spec_divisor() == divisor,
    {
        match divisor {
            8 => Some(Prescaler::Div8),
            64 => Some(Prescaler::Div64),
            256 => Some(Prescaler::Div256),
            1024 => Some(Prescaler::Div1024),
            _ => None,
        }
    }
}

/// TCCR0A value selecting clear-on-compare-match mode (WGM01 set).
pub const TCCR0A_CTC: u8 = 0x02;

/// TIMSK0 value enabling the compare-match-A interrupt (OCIE0A set).
pub const TIMSK0_OCIE0A: u8 = 0x02;

/// Register values written once to timer 0 at start-up.
#[derive(Clone, Copy, Debug, PartialEq, Eq, Structural)]
pub struct TimerRegisters {
    /// Waveform generation mode.
    pub tccr0a: u8,
    /// Compare value: the count at which the interrupt fires.
    pub ocr0a: u8,
    /// Clock-select (prescaler) bits.
    pub tccr0b: u8,
    /// Interrupt mask.
    pub timsk0: u8,
}

/// The register values that arm the timer with `prescaler` and `counts`.
pub open spec fn registers_for(prescaler: Prescaler, counts: u8) -> TimerRegisters {
    TimerRegisters {
        tccr0a: TCCR0A_CTC,
        ocr0a: counts,
        tccr0b: prescaler.spec_clock_select(),
        timsk0: TIMSK0_OCIE0A,
    }
}

/// Why a timer configuration was refused.
#[derive(Clone, Copy, Debug, PartialEq, Eq, Structural)]
pub enum ConfigError {
    /// The divisor is not one of 8, 64, 256 and 1024.
    UnsupportedPrescaler,
    /// The compare value does not fit the 8-bit compare register.
    CompareOutOfRange,
    /// One interrupt interval is not a whole number of microseconds.
    InexactIncrement,
}

/// The error, if any, that a divisor and compare value are refused with.
/// The divisor is checked first, then the compare range, then exactness.
pub open spec fn config_error(divisor: u32, counts: u32) -> Option<ConfigError> {
    if !supported_prescaler(divisor) {
        Some(ConfigError::UnsupportedPrescaler)
    } else if counts > 255 {
        Some(ConfigError::CompareOutOfRange)
    } else if !increment_is_exact(divisor, counts) {
        Some(ConfigError::InexactIncrement)
    } else {
        None
    }
}

/// Microseconds per interrupt interval: `prescaler * counts / CLOCK_MHZ`.
pub fn micros_increment(prescaler: Prescaler, counts: u8) -> (r: u32)
    ensures
        r == increment_of(prescaler.spec_divisor(), counts as u32),
{
    let d = prescaler.divisor();
    assert(d * counts <= 1024 * 255) by (nonlinear_arith)
        requires
            d <= 1024,
            counts <= 255,
    ;
    d * (counts as u32) / CLOCK_MHZ
}

/// Checks a divisor and compare value, giving the prescaler and the 8-bit
/// compare value on success.
pub fn check_config(divisor: u32, counts: u32) -> (r: Result<(Prescaler, u8), ConfigError>)
    ensures
        r is Err <==> config_error(divisor, counts) is Some,
        r matches Err(e) ==> config_error(divisor, counts) == Some(e),
        r matches Ok((p, c)) ==> p == prescaler_for(divisor) && p.spec_divisor() == divisor && c
            as u32 == counts,
{
    let prescaler = match Prescaler::from_divisor(divisor) {
        Some(p) => p,
        None => return Err(ConfigError::UnsupportedPrescaler),
    };
    if counts > 255 {
        return Err(ConfigError::CompareOutOfRange);
    }
    assert(divisor * counts <= 1024 * 255) by (nonlinear_arith)
        requires
            divisor <= 1024,
            counts <= 255,
    ;
    if (divisor * counts) % CLOCK_MHZ != 0 {
        return Err(ConfigError::InexactIncrement);
    }
    Ok((prescaler, counts as u8))
}

} // verus!

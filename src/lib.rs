//! Microsecond timekeeping for an 8-bit microcontroller.
//!
//! A hardware timer runs in clear-on-compare-match mode and interrupts at a
//! fixed interval; each interrupt advances a wrapping microsecond counter by
//! an exact whole number of microseconds. The hardware itself (register
//! writes, the critical section, the serial port) is driven by the caller:
//! this library decides what is written where and keeps the counter.
use vstd::prelude::*;

pub mod timer;
pub mod clock;
pub mod echo;

verus! {

} // verus!

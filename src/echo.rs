//! The line sent back for each byte received on the serial port.
use vstd::prelude::*;

verus! {

/// ASCII decimal digits of `n`, most significant first, without leading
/// zeros (`0` is the single digit `0`).
pub open spec fn decimal_digits(n: nat) -> Seq<u8>
    decreases n,
{
    if n < 10 {
        seq![(48 + n) as u8]
    } else {
        decimal_digits(n / 10).push((48 + n % 10) as u8)
    }
}

/// `Got ` in ASCII.
pub open spec fn got_text() -> Seq<u8> {
    seq![71u8, 111, 116, 32]
}

/// ` after ` in ASCII.
pub open spec fn after_text() -> Seq<u8> {
    seq![32u8, 97, 102, 116, 101, 114, 32]
}

/// ` us!` followed by carriage return and newline, in ASCII.
pub open spec fn us_text() -> Seq<u8> {
    seq![32u8, 117, 115, 33, 13, 10]
}

/// `Got {byte} after {micros} us!\r\n`, both numbers in decimal.
pub open spec fn echo_line_spec(byte: u8, micros: u32) -> Seq<u8> {
    got_text() + decimal_digits(byte as nat) + after_text() + decimal_digits(micros as nat)
        + us_text()
}

/// Relies on ufmt's `uDisplay` for `u32`, written into a `String`: the
/// decimal digits of the value, most significant first, without sign or
/// leading zeros.
#[verifier::external_body]
fn decimal_text(n: u32) -> (r: Vec<u8>)
    ensures
        r@ == decimal_digits(n as nat),
{
    let mut s = String::new();
    let _ = ufmt::uDisplay::fmt(&n, &mut ufmt::Formatter::new(&mut s));
    s.into_bytes()
}

/// The line reporting that `byte` arrived when the clock read `micros`.
pub fn echo_line(byte: u8, micros: u32) -> (r: Vec<u8>)
    ensures
        r@ == echo_line_spec(byte, micros),
{
    let mut line: Vec<u8> = vec![71u8, 111, 116, 32];
    assert(line@ == got_text());
    let mut byte_digits = decimal_text(byte as u32);
    line.append(&mut byte_digits);
    let mut after: Vec<u8> = vec![32u8, 97, 102, 116, 101, 114, 32];
    assert(after@ == after_text());
    line.append(&mut after);
    let mut micros_digits = decimal_text(micros);
    line.append(&mut micros_digits);
    let mut tail: Vec<u8> = vec![32u8, 117, 115, 33, 13, 10];
    assert(tail@ == us_text());
    line.append(&mut tail);
    line
}

} // verus!

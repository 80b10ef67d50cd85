use uno_micros::clock::MicrosClock;
use uno_micros::echo::echo_line;
use uno_micros::timer::{
    check_config, micros_increment, ConfigError, Prescaler, TimerRegisters, CLOCK_MHZ,
    MICROS_INCREMENT, PRESCALER, TIMER_COUNTS,
};

fn initialized(prescaler: u32, timer_counts: u32) -> MicrosClock {
    let mut clock = MicrosClock::new();
    clock.micros_init(prescaler, timer_counts).unwrap();
    clock
}

#[test]
fn interrupts_accumulate_increment() {
    let mut clock = MicrosClock::from_parts(500, 1000);
    for _ in 0..7 {
        clock.timer0_compa();
    }
    assert_eq!(clock.micros(), 500 + 7 * 1000);
}

#[test]
fn interrupts_accumulate_modulo_width() {
    let mut clock = MicrosClock::from_parts(u32::MAX - 10_000, 4000);
    for _ in 0..5 {
        clock.timer0_compa();
    }
    let expected = ((u32::MAX as u64 - 10_000 + 5 * 4000) % (1u64 << 32)) as u32;
    assert_eq!(clock.micros(), expected);
    assert_eq!(clock.micros(), 9_999);
}

#[test]
fn configured_increment_is_exact() {
    assert_eq!(PRESCALER * TIMER_COUNTS % CLOCK_MHZ, 0);
    assert_eq!(MICROS_INCREMENT, PRESCALER * TIMER_COUNTS / 16);
    assert_eq!(MICROS_INCREMENT, 1);
    assert_eq!(MicrosClock::new().increment(), MICROS_INCREMENT);
}

#[test]
fn increment_table_rows() {
    let rows: [(u32, u32, u32); 6] = [
        (8, 2, 1),
        (64, 250, 1000),
        (256, 125, 2000),
        (256, 250, 4000),
        (1024, 125, 8000),
        (1024, 250, 16000),
    ];
    for (divisor, counts, micros) in rows {
        assert_eq!(divisor * counts % 16, 0);
        let (p, c) = check_config(divisor, counts).unwrap();
        assert_eq!(p.divisor(), divisor);
        assert_eq!(micros_increment(p, c), micros);
        assert_eq!(initialized(divisor, counts).increment(), micros);
    }
}

#[test]
fn init_resets_counter() {
    let mut clock = MicrosClock::from_parts(123_456, 1);
    clock.timer0_compa();
    assert_eq!(clock.micros(), 123_457);
    assert!(clock.micros_init(64, 250).is_ok());
    assert_eq!(clock.micros(), 0);
    assert_eq!(clock.increment(), 1000);
    clock.timer0_compa();
    assert!(clock.micros_init(64, 250).is_ok());
    assert_eq!(clock.micros(), 0);
}

#[test]
fn init_rejects_unsupported_prescaler() {
    for divisor in [0u32, 1, 16, 100, 128, 512, 2048, u32::MAX] {
        let mut clock = MicrosClock::from_parts(42, 7);
        assert_eq!(
            clock.micros_init(divisor, 2),
            Err(ConfigError::UnsupportedPrescaler)
        );
        assert_eq!(clock.micros(), 42);
        assert_eq!(clock.increment(), 7);
    }
}

#[test]
fn init_rejects_compare_out_of_range() {
    let mut clock = MicrosClock::from_parts(42, 7);
    assert_eq!(clock.micros_init(64, 256), Err(ConfigError::CompareOutOfRange));
    assert_eq!(clock.micros(), 42);
}

#[test]
fn init_rejects_inexact_increment() {
    let mut clock = MicrosClock::from_parts(42, 7);
    assert_eq!(clock.micros_init(8, 3), Err(ConfigError::InexactIncrement));
    assert_eq!(clock.micros(), 42);
    assert_eq!(clock.increment(), 7);
}

#[test]
fn init_register_values() {
    let mut clock = MicrosClock::new();
    assert_eq!(
        clock.micros_init(8, 2),
        Ok(TimerRegisters { tccr0a: 0x02, ocr0a: 2, tccr0b: 2, timsk0: 0x02 })
    );
    assert_eq!(
        clock.micros_init(64, 250),
        Ok(TimerRegisters { tccr0a: 0x02, ocr0a: 250, tccr0b: 3, timsk0: 0x02 })
    );
    assert_eq!(
        clock.micros_init(256, 125),
        Ok(TimerRegisters { tccr0a: 0x02, ocr0a: 125, tccr0b: 4, timsk0: 0x02 })
    );
    assert_eq!(
        clock.micros_init(1024, 250),
        Ok(TimerRegisters { tccr0a: 0x02, ocr0a: 250, tccr0b: 5, timsk0: 0x02 })
    );
}

#[test]
fn prescaler_divisors() {
    assert_eq!(Prescaler::from_divisor(8), Some(Prescaler::Div8));
    assert_eq!(Prescaler::from_divisor(64), Some(Prescaler::Div64));
    assert_eq!(Prescaler::from_divisor(256), Some(Prescaler::Div256));
    assert_eq!(Prescaler::from_divisor(1024), Some(Prescaler::Div1024));
    assert_eq!(Prescaler::from_divisor(32), None);
    assert_eq!(Prescaler::Div1024.clock_select(), 5);
}

#[test]
fn thousand_interrupts_read_thousand() {
    let mut clock = MicrosClock::from_parts(987, 3);
    assert!(clock.micros_init(8, 2).is_ok());
    assert_eq!(clock.micros(), 0);
    for _ in 0..1000 {
        clock.timer0_compa();
    }
    assert_eq!(clock.micros(), 1000);
}

#[test]
fn echo_line_for_letter_a() {
    assert_eq!(echo_line(0x41, 12345), b"Got 65 after 12345 us!\r\n".to_vec());
}

#[test]
fn echo_line_extremes() {
    assert_eq!(echo_line(0, 0), b"Got 0 after 0 us!\r\n".to_vec());
    assert_eq!(
        echo_line(255, u32::MAX),
        b"Got 255 after 4294967295 us!\r\n".to_vec()
    );
    assert_eq!(echo_line(10, 100), b"Got 10 after 100 us!\r\n".to_vec());
}

#[test]
fn counter_wraps_at_maximum() {
    let mut clock = MicrosClock::new();
    assert!(clock.micros_init(8, 4).is_ok());
    assert_eq!(clock.increment(), 2);
    let mut clock = MicrosClock::from_parts(u32::MAX - 1, clock.increment());
    clock.timer0_compa();
    assert_eq!(clock.micros(), 0);
}

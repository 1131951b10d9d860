use rusty_probe::gpio::{Flex, IoPin, Level, PinWrite, PinWrites};

const IDLE: Flex = Flex { output: false, level: Level::Low };

#[test]
fn levels_from_booleans() {
    assert_eq!(Level::from(true), Level::High);
    assert_eq!(Level::from(false), Level::Low);
}

#[test]
fn direction_pin_starts_low() {
    assert_eq!(IoPin::new(IDLE, true).direction_pin, Some(Level::Low));
    assert_eq!(IoPin::new(IDLE, false).direction_pin, None);
    assert_eq!(IoPin::new(IDLE, true).pin, IDLE);
}

#[test]
fn output_enables_the_pin_before_the_translator() {
    let mut io = IoPin::new(IDLE, true);
    assert_eq!(
        io.set_as_output(),
        PinWrites {
            first: PinWrite::PinAsOutput,
            second: Some(PinWrite::DirectionLevel(Level::High)),
        }
    );
    assert!(io.pin.output);
    assert_eq!(io.direction_pin, Some(Level::High));
}

#[test]
fn input_releases_the_translator_before_the_pin() {
    let mut io = IoPin::new(IDLE, true);
    io.set_as_output();
    assert_eq!(
        io.set_as_input(),
        PinWrites {
            first: PinWrite::DirectionLevel(Level::Low),
            second: Some(PinWrite::PinAsInput),
        }
    );
    assert!(!io.pin.output);
    assert_eq!(io.direction_pin, Some(Level::Low));
}

#[test]
fn pin_without_direction_pin_makes_one_write() {
    let mut io = IoPin::new(IDLE, false);
    assert_eq!(io.set_as_output(), PinWrites { first: PinWrite::PinAsOutput, second: None });
    assert!(io.pin.output);
    assert_eq!(io.set_as_input(), PinWrites { first: PinWrite::PinAsInput, second: None });
    assert!(!io.pin.output);
    assert_eq!(io.direction_pin, None);
}

#[test]
fn level_survives_changes_of_direction() {
    let mut io = IoPin::new(IDLE, true);
    assert_eq!(io.set_high(true), PinWrite::PinLevel(Level::High));
    io.set_as_output();
    assert_eq!(io.pin, Flex { output: true, level: Level::High });
    assert_eq!(io.set_high(false), PinWrite::PinLevel(Level::Low));
    io.set_as_input();
    assert_eq!(io.pin, Flex { output: false, level: Level::Low });
}

#[test]
fn reading_changes_nothing() {
    let mut io = IoPin::new(IDLE, true);
    let before = io;
    assert!(io.is_high(Level::High));
    assert!(!io.is_high(Level::Low));
    assert_eq!(io, before);
}

#[test]
fn direction_pin_agrees_after_any_calls_with_a_change_of_direction() {
    for calls in 0..81u32 {
        let mut io = IoPin::new(IDLE, true);
        let mut rest = calls;
        for _ in 0..4 {
            match rest % 3 {
                0 => {
                    io.set_as_output();
                }
                1 => {
                    io.set_as_input();
                }
                _ => {
                    io.set_high(rest > 10);
                }
            }
            rest /= 3;
            assert_eq!(io.direction_pin, Some(Level::from(io.pin.output)));
        }
    }
}

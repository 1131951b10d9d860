use rusty_probe::gpio::Level;
use rusty_probe::power::{
    duty_cycle, power_up, InvalidDutyCycle, Pwm, PwmConfig, TargetPower, TranslatorPower,
    STARTUP_MV,
};

const SUPPLY: PwmConfig = PwmConfig { top: 4095, enable: true, phase_correct: false };

#[test]
fn duty_at_known_voltages() {
    assert_eq!(duty_cycle(1800), 3119);
    assert_eq!(duty_cycle(3300), 369);
    assert_eq!(duty_cycle(2500), 1835);
    assert_eq!(duty_cycle(2550), 1744);
    assert_eq!(duty_cycle(1801), 3117);
    assert_eq!(duty_cycle(3299), 370);
}

#[test]
fn voltages_out_of_range_are_clamped() {
    assert_eq!(duty_cycle(0), 3119);
    assert_eq!(duty_cycle(1799), 3119);
    assert_eq!(duty_cycle(3301), 369);
    assert_eq!(duty_cycle(u32::MAX), 369);
}

#[test]
fn duty_falls_strictly_within_the_range() {
    for mv in 1800..3300u32 {
        assert!(duty_cycle(mv) > duty_cycle(mv + 1));
    }
}

#[test]
fn duty_reads_back_to_within_a_millivolt() {
    for mv in 1800..=3300u32 {
        let given = 3300 - (duty_cycle(mv) as u32 - 369) * 1500 / 2750;
        assert!(mv <= given && given <= mv + 1);
    }
}

#[test]
fn slice_rejects_a_duty_above_its_top() {
    let mut pwm = Pwm::new(SUPPLY);
    assert_eq!(pwm.duty, 0);
    assert_eq!(pwm.set_duty_cycle(4095), Ok(()));
    assert_eq!(pwm.duty, 4095);
    assert_eq!(pwm.set_duty_cycle(4096), Err(InvalidDutyCycle));
    assert_eq!(pwm.duty, 4095);
}

#[test]
fn translator_supply_starts_and_follows() {
    let mut power = TranslatorPower::new();
    assert_eq!(power.pwm(), Pwm { config: SUPPLY, duty: 1023 });
    power.set_translator_vcc(STARTUP_MV);
    assert_eq!(power.pwm(), Pwm { config: SUPPLY, duty: 3119 });
    power.set_translator_vcc(3300);
    assert_eq!(power.pwm().duty, 369);
    power.set_translator_vcc(2500);
    assert_eq!(power.pwm().duty, 1835);
}

#[test]
fn target_supply_starts_and_follows() {
    let mut power = TargetPower::new(Level::Low, Level::High, Level::Low);
    assert_eq!(power.pwm(), Pwm { config: SUPPLY, duty: 1023 });
    assert_eq!(power.switches(), (Level::Low, Level::High, Level::Low));
    power.set_vtgt(STARTUP_MV);
    assert_eq!(power.pwm().duty, 3119);
    assert_eq!(power.switches(), (Level::Low, Level::High, Level::Low));
}

#[test]
fn switches_stay_on_and_leave_the_voltage_alone() {
    let mut power = TargetPower::new(Level::Low, Level::High, Level::Low);
    power.set_vtgt(2500);
    power.enable_vtgt();
    assert_eq!(power.switches(), (Level::Low, Level::High, Level::High));
    assert_eq!(power.pwm().duty, 1835);
    power.enable_5v_key();
    assert_eq!(power.switches(), (Level::High, Level::High, Level::High));
    assert_eq!(power.pwm().duty, 1835);
    power.set_vtgt(3300);
    assert_eq!(power.switches(), (Level::High, Level::High, Level::High));
    assert_eq!(power.pwm().duty, 369);
}

#[test]
fn both_supplies_get_the_same_duty() {
    let mut translator = TranslatorPower::new();
    let mut target = TargetPower::new(Level::Low, Level::High, Level::Low);
    for mv in [0, 1800, 1950, 2400, 3000, 3300, 5000] {
        translator.set_translator_vcc(mv);
        target.set_vtgt(mv);
        assert_eq!(translator.pwm(), target.pwm());
    }
}

#[test]
fn supplies_at_power_up() {
    let (translator, target) = power_up();
    assert_eq!(translator.pwm(), Pwm { config: SUPPLY, duty: 3119 });
    assert_eq!(target.pwm(), Pwm { config: SUPPLY, duty: 3119 });
    assert_eq!(target.switches(), (Level::Low, Level::High, Level::Low));
}

#[test]
fn duty_falls_short_of_the_line_by_less_than_a_count() {
    for mv in 1800..=3300u32 {
        let short = 11 * (3300 - mv) as i32 - 6 * (duty_cycle(mv) as i32 - 369);
        assert!(0 <= short && short <= 5);
    }
}

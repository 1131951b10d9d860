use rusty_probe::gpio::Level;
use rusty_probe::power::TranslatorPower;
use rusty_probe::voltage::{
    ControlAction, ControlEvent, TargetPhysicallyConnected, TargetVccReader, VoltageControl,
};

fn control() -> VoltageControl {
    let mut power = TranslatorPower::new();
    power.set_translator_vcc(1800);
    VoltageControl::new(power)
}

#[test]
fn readings_in_millivolts() {
    assert_eq!(TargetVccReader { adc: 0 }.read_voltage_mv(), 0);
    assert_eq!(TargetVccReader { adc: 1 }.read_voltage_mv(), 1);
    assert_eq!(TargetVccReader { adc: 930 }.read_voltage_mv(), 1498);
    assert_eq!(TargetVccReader { adc: 2048 }.read_voltage_mv(), 3300);
    assert_eq!(TargetVccReader { adc: 4095 }.read_voltage_mv(), 6600);
    assert_eq!(TargetVccReader { adc: u16::MAX }.read_voltage_mv(), 105624);
}

#[test]
fn readings_are_ordered() {
    for adc in 0..4095u16 {
        let mv = TargetVccReader { adc }.read_voltage_mv();
        assert!(mv < TargetVccReader { adc: adc + 1 }.read_voltage_mv());
    }
}

#[test]
fn detect_pin_is_active_low() {
    assert!(TargetPhysicallyConnected { pin: Level::Low }.target_detected());
    assert!(!TargetPhysicallyConnected { pin: Level::High }.target_detected());
}

/// Sets what the loop asks for and waits out the period.
fn finish_pass(control: &mut VoltageControl) {
    assert_eq!(control.step(ControlEvent::DutyCycleSet), ControlAction::WaitPeriod);
    assert_eq!(control.step(ControlEvent::PeriodElapsed), ControlAction::MeasureVcc);
}

#[test]
fn loop_begins_by_measuring() {
    assert_eq!(control().action(), ControlAction::MeasureVcc);
}

#[test]
fn powered_target_is_tracked_without_detection() {
    let mut control = control();
    assert_eq!(control.step(ControlEvent::TargetVcc(2500)), ControlAction::SetDutyCycle(1835));
    finish_pass(&mut control);
    assert_eq!(control.step(ControlEvent::TargetVcc(3300)), ControlAction::SetDutyCycle(369));
    finish_pass(&mut control);
    assert_eq!(control.step(ControlEvent::TargetVcc(1501)), ControlAction::SetDutyCycle(3119));
}

#[test]
fn unpowered_target_gets_3v3() {
    let mut control = control();
    assert_eq!(control.step(ControlEvent::TargetVcc(1500)), ControlAction::DetectTarget);
    assert_eq!(
        control.step(ControlEvent::TargetDetected(true)),
        ControlAction::SetDutyCycle(369)
    );
    finish_pass(&mut control);
}

#[test]
fn no_target_gets_the_least() {
    let mut control = control();
    assert_eq!(control.step(ControlEvent::TargetVcc(3300)), ControlAction::SetDutyCycle(369));
    finish_pass(&mut control);
    assert_eq!(control.step(ControlEvent::TargetVcc(0)), ControlAction::DetectTarget);
    assert_eq!(
        control.step(ControlEvent::TargetDetected(false)),
        ControlAction::SetDutyCycle(3119)
    );
    finish_pass(&mut control);
    assert_eq!(control.step(ControlEvent::TargetVcc(2500)), ControlAction::SetDutyCycle(1835));
}

#[test]
fn unexpected_events_leave_the_action_to_be_done() {
    let mut control = control();
    assert_eq!(control.step(ControlEvent::TargetDetected(true)), ControlAction::MeasureVcc);
    assert_eq!(control.step(ControlEvent::PeriodElapsed), ControlAction::MeasureVcc);
    assert_eq!(control.step(ControlEvent::TargetVcc(0)), ControlAction::DetectTarget);
    assert_eq!(control.step(ControlEvent::TargetVcc(3000)), ControlAction::DetectTarget);
    control.step(ControlEvent::TargetDetected(true));
    assert_eq!(control.step(ControlEvent::TargetVcc(2500)), ControlAction::SetDutyCycle(369));
    control.step(ControlEvent::DutyCycleSet);
    assert_eq!(control.step(ControlEvent::TargetVcc(2500)), ControlAction::WaitPeriod);
    assert_eq!(control.action(), ControlAction::WaitPeriod);
}

#[test]
fn one_measurement_and_setting_in_each_period() {
    let mut control = control();
    let (mut measured, mut set) = (0, 0);
    for period in 1..=5 {
        loop {
            let event = match control.action() {
                ControlAction::MeasureVcc => {
                    measured += 1;
                    ControlEvent::TargetVcc(600 * period)
                }
                ControlAction::DetectTarget => ControlEvent::TargetDetected(true),
                ControlAction::SetDutyCycle(_) => {
                    set += 1;
                    ControlEvent::DutyCycleSet
                }
                ControlAction::WaitPeriod => ControlEvent::PeriodElapsed,
            };
            if control.step(event) == ControlAction::MeasureVcc {
                break;
            }
        }
        assert_eq!((measured, set), (period, period));
    }
}

#[test]
fn last_pass_decides() {
    let mut first = control();
    let mut second = control();
    first.step(ControlEvent::TargetVcc(3000));
    finish_pass(&mut first);
    second.step(ControlEvent::TargetVcc(0));
    second.step(ControlEvent::TargetDetected(false));
    finish_pass(&mut second);
    assert_eq!(
        first.step(ControlEvent::TargetVcc(2000)),
        second.step(ControlEvent::TargetVcc(2000))
    );
}

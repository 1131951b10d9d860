//! Following the target's supply voltage with the voltage translators.

use vstd::prelude::*;

use crate::gpio::Level;
use crate::power::{Pwm, TranslatorPower};

verus! {

/// The full-scale reading of the converter.
pub const ADC_MAX: u32 = 4095;

/// The voltage of the converter's reference, in mV.
pub const ADC_REFERENCE_MV: u32 = 3300;

/// The target has a supply of its own if it is above this voltage, in mV.
pub const TARGET_POWERED_MV: u32 = 1500;

/// The voltage of the translators for a target without a supply, in mV.
pub const FALLBACK_MV: u32 = 3300;

/// The time between two passes of the control loop, in ms.
pub const CONTROL_PERIOD_MS: u64 = 100;

/// The target's voltage in mV for a reading of the converter, which sees half of that voltage.
pub open spec fn vcc_for_reading(reading: int) -> int {
    2 * ADC_REFERENCE_MV * reading / ADC_MAX as int
}

/// Whether a target is plugged in.
#[derive(Clone, Copy, Debug, PartialEq, Eq, Structural)]
pub struct TargetPhysicallyConnected {
    /// The level of the GND detect pin.
    pub pin: Level,
}

impl TargetPhysicallyConnected {
    /// This checks for the target being connected via the GND detect pin.
    pub fn target_detected(&mut self) -> (detected: bool)
        ensures
            detected == (old(self).pin == Level::Low),
            *final(self) == *old(self),
    {
        self.pin == Level::Low
    }
}

/// The target's supply voltage.
#[derive(Clone, Copy, Debug, PartialEq, Eq, Structural)]
pub struct TargetVccReader {
    /// The last reading of the converter.
    pub adc: u16,
}

impl TargetVccReader {
    /// The target's supply voltage in mV.
    pub fn read_voltage_mv(&mut self) -> (mv: u32)
        ensures
            mv == vcc_for_reading(old(self).adc as int),
            4095 * mv <= 6600 * old(self).adc < 4095 * (mv + 1),
            *final(self) == *old(self),
    {
        proof {
            voltage_is_proportional_to_the_reading(self.adc as int);
        }
        let val: u16 = self.adc;
        assert(2 * ADC_REFERENCE_MV * val == 6600 * val) by (nonlinear_arith);
        (2 * ADC_REFERENCE_MV * val as u32) / ADC_MAX
    }
}

/// The voltage for the translators in mV, given the target's supply voltage and whether a target
/// is plugged in: the target's own voltage if it has a supply; else 3.3 V if there is a target;
/// else none.
pub open spec fn translator_mv(target_vcc_mv: int, detected: bool) -> int {
    if target_vcc_mv > TARGET_POWERED_MV {
        target_vcc_mv
    } else if detected {
        FALLBACK_MV as int
    } else {
        0
    }
}

/// Where the control loop stands.
#[derive(Clone, Copy, Debug, PartialEq, Eq, Structural)]
pub enum ControlState {
    /// The target's supply voltage is to be measured.
    Measuring,
    /// The target has no supply of its own, and it is to be seen whether one is plugged in.
    Detecting,
    /// The translators' supply is to be set.
    Setting,
    /// The next period is to be waited for.
    Waiting,
}

/// What has come of an action.
#[derive(Clone, Copy, Debug, PartialEq, Eq, Structural)]
pub enum ControlEvent {
    /// The target's supply voltage in mV.
    TargetVcc(u32),
    /// Whether a target is plugged in.
    TargetDetected(bool),
    /// The duty cycle of the translators' supply was set.
    DutyCycleSet,
    /// The period is over.
    PeriodElapsed,
}

/// What the control loop has to do next.
#[derive(Clone, Copy, Debug, PartialEq, Eq, Structural)]
pub enum ControlAction {
    /// Measure the target's supply voltage.
    MeasureVcc,
    /// Look whether a target is plugged in.
    DetectTarget,
    /// Set the duty cycle of the translators' supply.
    SetDutyCycle(u16),
    /// Wait for the next period, of [`CONTROL_PERIOD_MS`].
    WaitPeriod,
}

/// The control loop as a mathematical value.
pub struct VoltageControlView {
    pub state: ControlState,
    pub pwm: Pwm,
}

impl VoltageControlView {
    /// What the loop has to do next.
    pub open spec fn action(self) -> ControlAction {
        match self.state {
            ControlState::Measuring => ControlAction::MeasureVcc,
            ControlState::Detecting => ControlAction::DetectTarget,
            ControlState::Setting => ControlAction::SetDutyCycle(self.pwm.duty),
            ControlState::Waiting => ControlAction::WaitPeriod,
        }
    }

    /// Whether an event can come of what the loop has to do next.
    pub open spec fn awaits(self, event: ControlEvent) -> bool {
        match event {
            ControlEvent::TargetVcc(_) => self.state == ControlState::Measuring,
            ControlEvent::TargetDetected(_) => self.state == ControlState::Detecting,
            ControlEvent::DutyCycleSet => self.state == ControlState::Setting,
            ControlEvent::PeriodElapsed => self.state == ControlState::Waiting,
        }
    }

    /// The loop after an event. An event that the loop does not wait for is ignored.
    pub open spec fn after(self, event: ControlEvent) -> VoltageControlView {
        if !self.awaits(event) {
            self
        } else {
            match event {
                ControlEvent::TargetVcc(mv) => if mv > TARGET_POWERED_MV {
                    VoltageControlView {
                        state: ControlState::Setting,
                        pwm: self.pwm.at_mv(mv as int),
                    }
                } else {
                    VoltageControlView { state: ControlState::Detecting, ..self }
                },
                ControlEvent::TargetDetected(detected) => VoltageControlView {
                    state: ControlState::Setting,
                    pwm: self.pwm.at_mv(
                        if detected {
                            FALLBACK_MV as int
                        } else {
                            0
                        },
                    ),
                },
                ControlEvent::DutyCycleSet => VoltageControlView {
                    state: ControlState::Waiting,
                    ..self
                },
                ControlEvent::PeriodElapsed => VoltageControlView {
                    state: ControlState::Measuring,
                    ..self
                },
            }
        }
    }

    /// The loop after a sequence of events.
    pub open spec fn after_events(self, events: Seq<ControlEvent>) -> VoltageControlView
        decreases events.len(),
    {
        if events.len() == 0 {
            self
        } else {
            self.after_events(events.drop_last()).after(events.last())
        }
    }

    /// Whether every event of a sequence comes of what the loop then has to do.
    pub open spec fn awaits_all(self, events: Seq<ControlEvent>) -> bool
        decreases events.len(),
    {
        events.len() > 0 ==> {
            &&& self.awaits_all(events.drop_last())
            &&& self.after_events(events.drop_last()).awaits(events.last())
        }
    }

    /// The loop when it has found out what to set the translators to. Whether a target is plugged
    /// in is asked only if the target has no supply of its own.
    pub open spec fn after_finding(self, mv: u32, detected: bool) -> VoltageControlView {
        let measured = self.after(ControlEvent::TargetVcc(mv));
        if measured.state == ControlState::Detecting {
            measured.after(ControlEvent::TargetDetected(detected))
        } else {
            measured
        }
    }

    /// The loop after a whole pass: it has found out what to set, set it, and waited out the
    /// period.
    pub open spec fn after_pass(self, mv: u32, detected: bool) -> VoltageControlView {
        self.after_finding(mv, detected).after(ControlEvent::DutyCycleSet).after(
            ControlEvent::PeriodElapsed,
        )
    }

    /// The loop after a sequence of whole passes.
    pub open spec fn after_passes(self, passes: Seq<(u32, bool)>) -> VoltageControlView
        decreases passes.len(),
    {
        if passes.len() == 0 {
            self
        } else {
            self.after_passes(passes.drop_last()).after_pass(passes.last().0, passes.last().1)
        }
    }
}

/// The loop that sets the voltage translators to track the target's supply voltage.
#[derive(Debug)]
pub struct VoltageControl {
    state: ControlState,
    translator_power: TranslatorPower,
}

impl View for VoltageControl {
    type V = VoltageControlView;

    closed spec fn view(&self) -> VoltageControlView {
        VoltageControlView { state: self.state, pwm: self.translator_power@ }
    }
}

impl VoltageControl {
    /// The translators' supply is set up.
    pub open spec fn wf(self) -> bool {
        self@.pwm.drives_supply()
    }

    /// Starts the loop. It begins by measuring.
    pub fn new(translator_power: TranslatorPower) -> (control: VoltageControl)
        requires
            translator_power.wf(),
        ensures
            control.wf(),
            control@.state == ControlState::Measuring,
            control@.pwm == translator_power@,
            control@.action() == ControlAction::MeasureVcc,
    {
        VoltageControl { state: ControlState::Measuring, translator_power }
    }

    /// What to do next.
    pub fn action(&self) -> (action: ControlAction)
        ensures
            action == self@.action(),
    {
        match self.state {
            ControlState::Measuring => ControlAction::MeasureVcc,
            ControlState::Detecting => ControlAction::DetectTarget,
            ControlState::Setting => ControlAction::SetDutyCycle(self.translator_power.pwm().duty),
            ControlState::Waiting => ControlAction::WaitPeriod,
        }
    }

    /// Takes in what has come of the last action and says what to do next. If the loop does not
    /// wait for that event, the last action is left to be done again.
    pub fn step(&mut self, event: ControlEvent) -> (action: ControlAction)
        requires
            old(self).wf(),
        ensures
            final(self).wf(),
            final(self)@ == old(self)@.after(event),
            action == final(self)@.action(),
    {
        match (self.state, event) {
            (ControlState::Measuring, ControlEvent::TargetVcc(target_vcc_mv)) => {
                if target_vcc_mv > TARGET_POWERED_MV {
                    self.translator_power.set_translator_vcc(target_vcc_mv);
                    self.state = ControlState::Setting;
                } else {
                    self.state = ControlState::Detecting;
                }
            },
            (ControlState::Detecting, ControlEvent::TargetDetected(detected)) => {
                if detected {
                    // If there is no VCC detected use 3.3v.
                    self.translator_power.set_translator_vcc(FALLBACK_MV);
                } else {
                    self.translator_power.set_translator_vcc(0);
                }
                self.state = ControlState::Setting;
            },
            (ControlState::Setting, ControlEvent::DutyCycleSet) => {
                self.state = ControlState::Waiting;
            },
            (ControlState::Waiting, ControlEvent::PeriodElapsed) => {
                self.state = ControlState::Measuring;
            },
            _ => {},
        }
        self.action()
    }
}

/// The number of measurements in a sequence of events.
pub open spec fn measurements(events: Seq<ControlEvent>) -> nat
    decreases events.len(),
{
    if events.len() == 0 {
        0
    } else {
        measurements(events.drop_last()) + if events.last() is TargetVcc {
            1nat
        } else {
            0nat
        }
    }
}

/// The number of times that the translators were set in a sequence of events.
pub open spec fn settings(events: Seq<ControlEvent>) -> nat
    decreases events.len(),
{
    if events.len() == 0 {
        0
    } else {
        settings(events.drop_last()) + if events.last() is DutyCycleSet {
            1nat
        } else {
            0nat
        }
    }
}

/// The number of periods waited out in a sequence of events.
pub open spec fn periods(events: Seq<ControlEvent>) -> nat
    decreases events.len(),
{
    if events.len() == 0 {
        0
    } else {
        periods(events.drop_last()) + if events.last() is PeriodElapsed {
            1nat
        } else {
            0nat
        }
    }
}

/// A higher reading always stands for a higher voltage; a reading of zero stands for no voltage;
/// and the full-scale reading stands for twice the reference.
pub proof fn readings_are_ordered(reading1: int, reading2: int)
    requires
        0 <= reading1 <= reading2,
    ensures
        0 <= vcc_for_reading(reading1) <= vcc_for_reading(reading2),
        reading1 < reading2 ==> vcc_for_reading(reading1) < vcc_for_reading(reading2),
        vcc_for_reading(0) == 0,
        vcc_for_reading(ADC_MAX as int) == 2 * ADC_REFERENCE_MV,
        reading2 <= ADC_MAX ==> vcc_for_reading(reading2) <= 2 * ADC_REFERENCE_MV,
{
    assert(2 * ADC_REFERENCE_MV * reading1 == 6600 * reading1) by (nonlinear_arith);
    assert(2 * ADC_REFERENCE_MV * reading2 == 6600 * reading2) by (nonlinear_arith);
}

/// A pass of the control loop finds out the voltage for the translators, asks for its duty cycle
/// to be set, then for a wait, and ends where it began, ready to measure. What the translators
/// were set to before plays no part, and the detect pin is looked at only for a target without a
/// supply of its own.
pub proof fn pass_sets_the_translators(control: VoltageControlView, mv: u32, detected: bool)
    requires
        control.state == ControlState::Measuring,
    ensures
        control.action() == ControlAction::MeasureVcc,
        control.after(ControlEvent::TargetVcc(mv)).action() == ControlAction::DetectTarget <==> mv
            <= TARGET_POWERED_MV,
        control.after_finding(mv, detected).action() == ControlAction::SetDutyCycle(
            control.pwm.at_mv(translator_mv(mv as int, detected)).duty,
        ),
        control.after_finding(mv, detected).after(ControlEvent::DutyCycleSet).action()
            == ControlAction::WaitPeriod,
        control.after_pass(mv, detected).action() == ControlAction::MeasureVcc,
        control.after_pass(mv, detected).state == ControlState::Measuring,
        control.after_pass(mv, detected).pwm == control.pwm.at_mv(
            translator_mv(mv as int, detected),
        ),
{
}

/// The loop measures at the start and then once after each period, and sets the translators once
/// for each measurement, before it waits: in any run the measurements are as many as the periods
/// waited out, but for the pass that is under way, and so are the settings.
pub proof fn one_measurement_and_setting_per_period(
    control: VoltageControlView,
    events: Seq<ControlEvent>,
)
    requires
        control.state == ControlState::Measuring,
        control.awaits_all(events),
    ensures
        measurements(events) == periods(events) + if control.after_events(events).state
            == ControlState::Measuring {
            0nat
        } else {
            1nat
        },
        settings(events) == periods(events) + if control.after_events(events).state
            == ControlState::Waiting {
            1nat
        } else {
            0nat
        },
    decreases events.len(),
{
    if events.len() > 0 {
        one_measurement_and_setting_per_period(control, events.drop_last());
    }
}

/// After any sequence of passes the translators stand at the voltage for the last one.
pub proof fn last_pass_decides(control: VoltageControlView, passes: Seq<(u32, bool)>)
    requires
        control.state == ControlState::Measuring,
        passes.len() > 0,
    ensures
        control.after_passes(passes).state == ControlState::Measuring,
        control.after_passes(passes).pwm == control.pwm.at_mv(
            translator_mv(passes.last().0 as int, passes.last().1),
        ),
    decreases passes.len(),
{
    if passes.len() > 1 {
        last_pass_decides(control, passes.drop_last());
    } else {
        assert(passes.drop_last() =~= Seq::<(u32, bool)>::empty());
        assert(control.after_passes(passes.drop_last()) == control);
    }
    pass_sets_the_translators(
        control.after_passes(passes.drop_last()),
        passes.last().0,
        passes.last().1,
    );
}

/// The translators track the target's supply: for a target with a supply they give its voltage,
/// brought into their range, to within a millivolt, whether or not the detect pin sees the
/// target. For a target without a supply they give 3.3 V, and without a target they give the
/// least that they can.
pub proof fn translators_track_the_target(pwm: Pwm, mv: u32, detected: bool)
    ensures
        mv > TARGET_POWERED_MV ==> crate::power::clamped_mv(mv as int)
            <= crate::power::mv_for_duty(
            pwm.at_mv(translator_mv(mv as int, detected)).duty as int,
        ) <= crate::power::clamped_mv(mv as int) + 1,
        mv <= TARGET_POWERED_MV && detected ==> pwm.at_mv(
            translator_mv(mv as int, detected),
        ).duty == crate::power::VCC_MAX_DUTY,
        mv <= TARGET_POWERED_MV && !detected ==> pwm.at_mv(
            translator_mv(mv as int, detected),
        ).duty == crate::power::VCC_MIN_DUTY,
{
    let asked = translator_mv(mv as int, detected);
    crate::power::duty_is_in_range(asked);
    crate::power::duty_at_the_ends(asked);
    crate::power::voltage_is_accurate(asked);
}

/// The voltage is proportional to the reading, at 6.6 V for 4095, rounded down to a millivolt, at
/// every reading.
pub proof fn voltage_is_proportional_to_the_reading(reading: int)
    requires
        0 <= reading,
    ensures
        4095 * vcc_for_reading(reading) <= 6600 * reading < 4095 * (vcc_for_reading(reading) + 1),
{
    assert(2 * ADC_REFERENCE_MV * reading == 6600 * reading) by (nonlinear_arith);
}

/// A target above 1.5 V decides the voltage of the translators alone; below that, it is 3.3 V
/// with a target and none without.
pub proof fn target_decides_the_voltage(mv: int, detected: bool)
    ensures
        mv > 1500 ==> translator_mv(mv, detected) == mv,
        mv <= 1500 && detected ==> translator_mv(mv, detected) == 3300,
        mv <= 1500 && !detected ==> translator_mv(mv, detected) == 0,
{
}

/// The loop asks for what its state is about, and the duty cycle that it asks for is the one that
/// the translators' slice has.
pub proof fn action_is_that_of_the_state(control: VoltageControlView)
    ensures
        control.action() == ControlAction::MeasureVcc <==> control.state
            == ControlState::Measuring,
        control.action() == ControlAction::DetectTarget <==> control.state
            == ControlState::Detecting,
        control.action() is SetDutyCycle <==> control.state == ControlState::Setting,
        control.state == ControlState::Setting ==> control.action() == ControlAction::SetDutyCycle(
            control.pwm.duty,
        ),
        control.action() == ControlAction::WaitPeriod <==> control.state == ControlState::Waiting,
{
}

/// Every measurement is acted on, whatever its value: above 1.5 V the duty cycle is the one on
/// the line for the voltage measured, and is asked for next; otherwise the translators stay as
/// they are and a target is looked for.
pub proof fn measurement_is_acted_on(control: VoltageControlView, mv: u32)
    requires
        control.state == ControlState::Measuring,
    ensures
        ({
            let next = control.after(ControlEvent::TargetVcc(mv));
            let duty = next.pwm.duty;
            &&& next.pwm.config == control.pwm.config
            &&& mv > 1500 ==> next.action() == ControlAction::SetDutyCycle(duty)
            &&& 1500 < mv < 1800 ==> duty == 3119
            &&& 1800 <= mv <= 3300 ==> 6 * (duty - 369) <= 11 * (3300 - mv) < 6 * (duty - 369 + 1)
            &&& mv > 3300 ==> duty == 369
            &&& mv <= 1500 ==> next.action() == ControlAction::DetectTarget
            &&& mv <= 1500 ==> next.pwm == control.pwm
        }),
{
    crate::power::slice_gets_the_duty_on_the_line(control.pwm, mv as int);
}

/// Every look for a target is acted on: with one the translators get the duty cycle for 3.3 V,
/// without one that for 1.8 V.
pub proof fn detection_is_acted_on(control: VoltageControlView, detected: bool)
    requires
        control.state == ControlState::Detecting,
    ensures
        ({
            let next = control.after(ControlEvent::TargetDetected(detected));
            &&& next.pwm.config == control.pwm.config
            &&& detected ==> next.action() == ControlAction::SetDutyCycle(369)
            &&& !detected ==> next.action() == ControlAction::SetDutyCycle(3119)
        }),
{
    crate::power::slice_gets_the_duty_on_the_line(control.pwm, 3300);
    crate::power::slice_gets_the_duty_on_the_line(control.pwm, 0);
}

/// Once the duty cycle is set the loop waits, and once the period is over it measures; neither
/// changes the translators.
pub proof fn setting_and_waiting_are_acted_on(control: VoltageControlView)
    ensures
        control.state == ControlState::Setting ==> control.after(ControlEvent::DutyCycleSet) == (
        VoltageControlView { state: ControlState::Waiting, pwm: control.pwm }),
        control.state == ControlState::Waiting ==> control.after(ControlEvent::PeriodElapsed) == (
        VoltageControlView { state: ControlState::Measuring, pwm: control.pwm }),
{
}

/// An event that is not of what the loop has to do changes nothing.
pub proof fn loop_ignores_other_events(control: VoltageControlView, mv: u32, detected: bool)
    ensures
        control.state != ControlState::Measuring ==> control.after(ControlEvent::TargetVcc(mv))
            == control,
        control.state != ControlState::Detecting ==> control.after(
            ControlEvent::TargetDetected(detected),
        ) == control,
        control.state != ControlState::Setting ==> control.after(ControlEvent::DutyCycleSet)
            == control,
        control.state != ControlState::Waiting ==> control.after(ControlEvent::PeriodElapsed)
            == control,
{
}

/// The periods of a run last a tenth of a second each.
pub proof fn periods_last_a_tenth_of_a_second(events: Seq<ControlEvent>)
    ensures
        periods(events) * CONTROL_PERIOD_MS == 100 * periods(events),
{
    assert(periods(events) * CONTROL_PERIOD_MS == 100 * periods(events)) by (nonlinear_arith);
}

} // verus!

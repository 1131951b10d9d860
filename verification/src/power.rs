//! The adjustable supplies: the voltage translators and the target's own supply.
//!
//! Each supply is set by a PWM output. The lower the duty cycle, the higher the voltage: 3119
//! counts give 1.8 V, 369 counts give 3.3 V, and the counts between lie on a straight line.

use vstd::prelude::*;

use crate::gpio::Level;

verus! {

/// The count at which the PWM counters wrap.
pub const PWM_TOP: u16 = 4095;

/// The duty cycle at which a supply starts.
pub const INITIAL_DUTY: u16 = 1023;

/// The lowest voltage of a supply, in mV.
pub const VCC_MIN_MV: u32 = 1800;

/// The highest voltage of a supply, in mV.
pub const VCC_MAX_MV: u32 = 3300;

/// The duty cycle that gives the lowest voltage: 0.7617 of the count.
pub const VCC_MIN_DUTY: u32 = 3119;

/// The duty cycle that gives the highest voltage: 0.0900 of the count.
pub const VCC_MAX_DUTY: u32 = 369;

/// The voltage of both supplies at power-up, in mV.
pub const STARTUP_MV: u32 = 1800;

/// A voltage brought into the range of a supply, in mV.
pub open spec fn clamped_mv(mv: int) -> int {
    if mv < VCC_MIN_MV {
        VCC_MIN_MV as int
    } else if mv > VCC_MAX_MV {
        VCC_MAX_MV as int
    } else {
        mv
    }
}

/// The duty cycle for a voltage in mV: on the line from 3.3 V at 369 counts to 1.8 V at 3119
/// counts, rounded down to a whole count.
pub open spec fn duty_for_mv(mv: int) -> int {
    VCC_MAX_DUTY + (VCC_MAX_MV - clamped_mv(mv)) * (VCC_MIN_DUTY - VCC_MAX_DUTY) / (VCC_MAX_MV
        - VCC_MIN_MV)
}

/// The duty cycle that makes a supply give `mv`, or the nearest voltage that it can give.
pub fn duty_cycle(mv: u32) -> (duty: u16)
    ensures
        duty == duty_for_mv(mv as int),
        VCC_MAX_DUTY <= duty <= VCC_MIN_DUTY,
{
    let mv: u32 = if mv > VCC_MAX_MV {
        VCC_MAX_MV
    } else {
        mv
    };
    let mv: u32 = if mv < VCC_MIN_MV {
        VCC_MIN_MV
    } else {
        mv
    };
    let limit_diff: u32 = VCC_MIN_DUTY - VCC_MAX_DUTY;
    let mv_diff: u32 = mv - VCC_MIN_MV;
    let cnt: u32 = ((VCC_MAX_MV - VCC_MIN_MV - mv_diff) * limit_diff) / (VCC_MAX_MV - VCC_MIN_MV)
        + VCC_MAX_DUTY;
    cnt as u16
}

/// The voltage that a duty cycle gives, in mV, rounded up: the line of [`duty_for_mv`] read the
/// other way.
pub open spec fn mv_for_duty(duty: int) -> int {
    VCC_MAX_MV - (duty - VCC_MAX_DUTY) * (VCC_MAX_MV - VCC_MIN_MV) / (VCC_MIN_DUTY - VCC_MAX_DUTY)
}

/// How a PWM slice counts.
#[derive(Clone, Copy, Debug, PartialEq, Eq, Structural)]
pub struct PwmConfig {
    /// The count at which the counter wraps.
    pub top: u16,
    pub enable: bool,
    pub phase_correct: bool,
}

/// A duty cycle was asked for that is above the count at which the counter wraps.
#[derive(Clone, Copy, Debug, PartialEq, Eq, Structural)]
pub struct InvalidDutyCycle;

/// The registers of a PWM slice.
#[derive(Clone, Copy, Debug, PartialEq, Eq, Structural)]
pub struct Pwm {
    pub config: PwmConfig,
    /// The duty cycle, in counts.
    pub duty: u16,
}

impl Pwm {
    /// The duty cycle is one that the counter can reach.
    pub open spec fn wf(self) -> bool {
        self.duty <= self.config.top
    }

    /// The slice of a supply: it counts to 4095 and its output runs.
    pub open spec fn drives_supply(self) -> bool {
        &&& self.config == (PwmConfig { top: PWM_TOP, enable: true, phase_correct: false })
        &&& self.wf()
    }

    /// The slice when the supply is set to `mv`.
    pub open spec fn at_mv(self, mv: int) -> Pwm {
        Pwm { config: self.config, duty: duty_for_mv(mv) as u16 }
    }

    /// Sets up a slice with a duty cycle of zero.
    pub fn new(config: PwmConfig) -> (pwm: Pwm)
        ensures
            pwm == (Pwm { config, duty: 0 }),
            pwm.wf(),
    {
        Pwm { config, duty: 0 }
    }

    /// Sets the duty cycle. Fails, and changes nothing, if it is above the top count.
    pub fn set_duty_cycle(&mut self, duty: u16) -> (set: Result<(), InvalidDutyCycle>)
        ensures
            set is Ok <==> duty <= old(self).config.top,
            set is Ok ==> *final(self) == (Pwm { config: old(self).config, duty }),
            set is Err ==> *final(self) == *old(self),
    {
        if duty > self.config.top {
            return Err(InvalidDutyCycle);
        }
        self.duty = duty;
        Ok(())
    }
}

/// Sets up the slice of a supply.
fn supply_pwm() -> (pwm: Pwm)
    ensures
        pwm.drives_supply(),
        pwm.duty == INITIAL_DUTY,
{
    let mut pwm = Pwm::new(PwmConfig { top: PWM_TOP, enable: true, phase_correct: false });
    pwm.set_duty_cycle(INITIAL_DUTY).unwrap();
    pwm
}

/// The supply of the voltage translators.
#[derive(Debug)]
pub struct TranslatorPower {
    vtranslator_pwm: Pwm,
}

impl View for TranslatorPower {
    type V = Pwm;

    closed spec fn view(&self) -> Pwm {
        self.vtranslator_pwm
    }
}

impl TranslatorPower {
    /// The slice is set up for a supply.
    pub open spec fn wf(self) -> bool {
        self@.drives_supply()
    }

    pub fn new() -> (power: TranslatorPower)
        ensures
            power.wf(),
            power@.duty == INITIAL_DUTY,
            power@.duty == 1023,
    {
        TranslatorPower { vtranslator_pwm: supply_pwm() }
    }

    /// The PWM slice that sets the supply.
    pub fn pwm(&self) -> (pwm: Pwm)
        ensures
            pwm == self@,
    {
        self.vtranslator_pwm
    }

    /// Sets the supply of the translators to `mv`, or to the nearest voltage that it can give.
    pub fn set_translator_vcc(&mut self, mv: u32)
        requires
            old(self).wf(),
        ensures
            final(self)@ == old(self)@.at_mv(mv as int),
            final(self).wf(),
            VCC_MAX_DUTY <= final(self)@.duty <= VCC_MIN_DUTY,
    {
        let cnt: u16 = duty_cycle(mv);
        self.vtranslator_pwm.set_duty_cycle(cnt).unwrap();
    }
}

/// What the outputs of the target's supply are set to.
#[verifier::ext_equal]
pub struct TargetPowerView {
    pub enable_5v_key: Level,
    pub enable_5v: Level,
    pub enable_vtgt: Level,
    pub vtgt_pwm: Pwm,
}

impl TargetPowerView {
    /// With the supply switched on.
    pub open spec fn vtgt_on(self) -> TargetPowerView {
        TargetPowerView { enable_vtgt: Level::High, ..self }
    }

    /// With the 5 V of the key pin switched on.
    pub open spec fn key_on(self) -> TargetPowerView {
        TargetPowerView { enable_5v_key: Level::High, ..self }
    }

    /// With the supply set to `mv`.
    pub open spec fn at_mv(self, mv: int) -> TargetPowerView {
        TargetPowerView { vtgt_pwm: self.vtgt_pwm.at_mv(mv), ..self }
    }
}

/// The target's supply, with the switches for it and for the 5 V outputs.
#[derive(Debug)]
pub struct TargetPower {
    enable_5v_key: Level,
    enable_5v: Level,
    enable_vtgt: Level,
    vtgt_pwm: Pwm,
}

impl View for TargetPower {
    type V = TargetPowerView;

    closed spec fn view(&self) -> TargetPowerView {
        TargetPowerView {
            enable_5v_key: self.enable_5v_key,
            enable_5v: self.enable_5v,
            enable_vtgt: self.enable_vtgt,
            vtgt_pwm: self.vtgt_pwm,
        }
    }
}

impl TargetPower {
    /// The slice is set up for a supply.
    pub open spec fn wf(self) -> bool {
        self@.vtgt_pwm.drives_supply()
    }

    /// Switches the supply on.
    pub fn enable_vtgt(&mut self)
        ensures
            final(self)@ == old(self)@.vtgt_on(),
    {
        self.enable_vtgt = Level::High;
    }

    /// Switches the 5 V of the key pin on.
    pub fn enable_5v_key(&mut self)
        ensures
            final(self)@ == old(self)@.key_on(),
    {
        self.enable_5v_key = Level::High;
    }

    /// Takes over the three switches at the levels that they stand at.
    pub fn new(enable_5v_key: Level, enable_5v: Level, enable_vtgt: Level) -> (power: TargetPower)
        ensures
            power.wf(),
            power@.enable_5v_key == enable_5v_key,
            power@.enable_5v == enable_5v,
            power@.enable_vtgt == enable_vtgt,
            power@.vtgt_pwm.duty == INITIAL_DUTY,
            power@.vtgt_pwm.duty == 1023,
    {
        TargetPower { enable_5v_key, enable_5v, enable_vtgt, vtgt_pwm: supply_pwm() }
    }

    /// Sets the supply of the target to `mv`, or to the nearest voltage that it can give.
    pub fn set_vtgt(&mut self, mv: u32)
        requires
            old(self).wf(),
        ensures
            final(self)@ == old(self)@.at_mv(mv as int),
            final(self).wf(),
            VCC_MAX_DUTY <= final(self)@.vtgt_pwm.duty <= VCC_MIN_DUTY,
    {
        let cnt: u16 = duty_cycle(mv);
        self.vtgt_pwm.set_duty_cycle(cnt).unwrap();
    }

    /// The PWM slice that sets the supply.
    pub fn pwm(&self) -> (pwm: Pwm)
        ensures
            pwm == self@.vtgt_pwm,
    {
        self.vtgt_pwm
    }

    /// The levels of the switches: the 5 V of the key pin, the protected 5 V, the supply.
    pub fn switches(&self) -> (levels: (Level, Level, Level))
        ensures
            levels == (self@.enable_5v_key, self@.enable_5v, self@.enable_vtgt),
    {
        (self.enable_5v_key, self.enable_5v, self.enable_vtgt)
    }
}

/// The supplies as they are at power-up: both set to the lowest voltage, the target's supply and
/// the 5 V of the key pin switched off, and the protected 5 V switched on.
pub fn power_up() -> (powers: (TranslatorPower, TargetPower))
    ensures
        powers.0.wf(),
        powers.0@.duty == VCC_MIN_DUTY,
        powers.0@.duty == 3119,
        powers.1.wf(),
        powers.1@ == (TargetPowerView {
            enable_5v_key: Level::Low,
            enable_5v: Level::High,
            enable_vtgt: Level::Low,
            vtgt_pwm: powers.0@,
        }),
{
    let mut translator_power = TranslatorPower::new();
    translator_power.set_translator_vcc(STARTUP_MV);
    let mut target_power = TargetPower::new(Level::Low, Level::High, Level::Low);
    target_power.set_vtgt(STARTUP_MV);
    (translator_power, target_power)
}

/// Whatever voltage is asked for, the duty cycle lies between those for 3.3 V and 1.8 V, so a
/// supply's slice always accepts it.
pub proof fn duty_is_in_range(mv: int)
    ensures
        VCC_MAX_DUTY <= duty_for_mv(mv) <= VCC_MIN_DUTY,
        duty_for_mv(mv) <= PWM_TOP,
{
}

/// Voltages at or beyond an end of the range get the duty cycle of that end, and a voltage out of
/// the range is treated as the nearest one in it.
pub proof fn duty_at_the_ends(mv: int)
    ensures
        mv <= VCC_MIN_MV ==> duty_for_mv(mv) == VCC_MIN_DUTY,
        mv >= VCC_MAX_MV ==> duty_for_mv(mv) == VCC_MAX_DUTY,
        duty_for_mv(mv) == duty_for_mv(clamped_mv(mv)),
{
}

/// A higher voltage never gets a higher duty cycle, and two different voltages in the range get
/// different duty cycles.
pub proof fn duty_falls_as_voltage_rises(mv1: int, mv2: int)
    requires
        mv1 <= mv2,
    ensures
        duty_for_mv(mv1) >= duty_for_mv(mv2),
        VCC_MIN_MV <= mv1 < mv2 <= VCC_MAX_MV ==> duty_for_mv(mv1) > duty_for_mv(mv2),
{
}

/// The voltage that a supply gives is the one asked for, brought into the range, to within a
/// millivolt. On the line there are eleven counts to six millivolts, and the duty cycle falls
/// short of it by less than a count.
pub proof fn voltage_is_accurate(mv: int)
    ensures
        clamped_mv(mv) <= mv_for_duty(duty_for_mv(mv)) <= clamped_mv(mv) + 1,
        0 <= 11 * (VCC_MAX_MV - clamped_mv(mv)) - 6 * (duty_for_mv(mv) - VCC_MAX_DUTY) <= 5,
{
}

/// A supply's slice stays set up for a supply whatever voltage is set, the last voltage set is
/// the one that holds, and the two supplies get the same duty cycle for the same voltage.
pub proof fn last_voltage_wins(pwm1: Pwm, pwm2: Pwm, mv1: int, mv2: int)
    requires
        pwm1.drives_supply(),
        pwm2.drives_supply(),
    ensures
        pwm1.at_mv(mv1).drives_supply(),
        pwm1.at_mv(mv1).at_mv(mv2) == pwm1.at_mv(mv2),
        pwm1.at_mv(mv1) == pwm2.at_mv(mv1),
{
    duty_is_in_range(mv1);
}

/// The switches and the voltage of the target's supply are set independently of each other, in
/// any order; what is switched on stays on; and the protected 5 V keeps the level that it was
/// given at the start.
pub proof fn switches_are_independent(power: TargetPowerView, mv: int)
    ensures
        power.vtgt_on().key_on() == power.key_on().vtgt_on(),
        power.vtgt_on().at_mv(mv) == power.at_mv(mv).vtgt_on(),
        power.key_on().at_mv(mv) == power.at_mv(mv).key_on(),
        power.vtgt_on().vtgt_on() == power.vtgt_on(),
        power.key_on().key_on() == power.key_on(),
        power.vtgt_on().enable_5v == power.enable_5v,
        power.key_on().enable_5v == power.enable_5v,
        power.at_mv(mv).enable_5v == power.enable_5v,
{
}

/// A voltage from 1.8 V to 3.3 V is left as it is, and any other becomes the nearer end.
pub proof fn clamping_keeps_what_is_in_range(mv: int)
    ensures
        1800 <= mv <= 3300 ==> clamped_mv(mv) == mv,
        mv < 1800 ==> clamped_mv(mv) == 1800,
        mv > 3300 ==> clamped_mv(mv) == 3300,
{
}

/// The duty cycle lies on the line through 369 counts at 3.3 V with eleven counts to six
/// millivolts, rounded down, at every voltage from 1.8 V to 3.3 V, and is that of the nearer end
/// at any other.
pub proof fn duty_lies_on_the_line(mv: int)
    ensures
        1800 <= mv <= 3300 ==> 6 * (duty_for_mv(mv) - 369) <= 11 * (3300 - mv) < 6 * (duty_for_mv(
            mv,
        ) - 369 + 1),
        mv < 1800 ==> duty_for_mv(mv) == 3119,
        mv > 3300 ==> duty_for_mv(mv) == 369,
{
}

/// Setting a voltage gives the slice the duty cycle on the line, at every voltage, whatever the
/// slice was set to before, and leaves the way that it counts alone.
pub proof fn slice_gets_the_duty_on_the_line(pwm: Pwm, mv: int)
    ensures
        ({
            let duty = pwm.at_mv(mv).duty;
            &&& 1800 <= mv <= 3300 ==> 6 * (duty - 369) <= 11 * (3300 - mv) < 6 * (duty - 369 + 1)
            &&& mv < 1800 ==> duty == 3119
            &&& mv > 3300 ==> duty == 369
        }),
        pwm.at_mv(mv).config == pwm.config,
{
    duty_lies_on_the_line(mv);
}

/// A supply's slice is one that runs, counts straight up to 4095, and has a duty cycle that the
/// counter reaches.
pub proof fn supply_slice_runs(pwm: Pwm)
    ensures
        pwm.drives_supply() <==> pwm.config.top == 4095 && pwm.config.enable
            && !pwm.config.phase_correct && pwm.duty <= 4095,
        pwm.wf() <==> pwm.duty <= pwm.config.top,
{
}

/// Setting the target's supply to a voltage gives its slice the duty cycle on the line, at every
/// voltage, so that the supply gives that voltage, brought into the range, to within a
/// millivolt; and it leaves the three switches as they were.
pub proof fn target_gets_the_voltage(power: TargetPowerView, mv: int)
    ensures
        power.at_mv(mv).vtgt_pwm.duty == duty_for_mv(mv),
        ({
            let duty = power.at_mv(mv).vtgt_pwm.duty;
            &&& 1800 <= mv <= 3300 ==> 6 * (duty - 369) <= 11 * (3300 - mv) < 6 * (duty - 369 + 1)
            &&& mv < 1800 ==> duty == 3119
            &&& mv > 3300 ==> duty == 369
            &&& clamped_mv(mv) <= mv_for_duty(duty as int) <= clamped_mv(mv) + 1
        }),
        power.at_mv(mv).vtgt_pwm.config == power.vtgt_pwm.config,
        power.at_mv(mv).enable_5v_key == power.enable_5v_key,
        power.at_mv(mv).enable_5v == power.enable_5v,
        power.at_mv(mv).enable_vtgt == power.enable_vtgt,
{
    duty_is_in_range(mv);
    voltage_is_accurate(mv);
    slice_gets_the_duty_on_the_line(power.vtgt_pwm, mv);
}

/// Each switch is switched on by itself: its own output goes high, and the other two outputs and
/// the slice stay as they were.
pub proof fn switch_turns_on_nothing_else(power: TargetPowerView)
    ensures
        power.key_on().enable_5v_key == Level::High,
        power.key_on().enable_5v == power.enable_5v,
        power.key_on().enable_vtgt == power.enable_vtgt,
        power.key_on().vtgt_pwm == power.vtgt_pwm,
        power.vtgt_on().enable_vtgt == Level::High,
        power.vtgt_on().enable_5v == power.enable_5v,
        power.vtgt_on().enable_5v_key == power.enable_5v_key,
        power.vtgt_on().vtgt_pwm == power.vtgt_pwm,
{
}

} // verus!

//! The status LEDs.

use vstd::prelude::*;

use crate::gpio::Level;

verus! {

/// What the host says of itself.
#[derive(Clone, Copy, Debug, PartialEq, Eq, Structural)]
pub enum HostStatus {
    /// Whether the host's debugger is connected to the probe.
    Connected(bool),
    /// Whether the target runs.
    Running(bool),
}

/// An LED of which the level follows the host status.
#[derive(Clone, Copy, Debug, PartialEq, Eq, Structural)]
pub enum Led {
    Green,
    Blue,
}

/// The levels of the LED outputs.
#[derive(Clone, Copy, Debug, PartialEq, Eq, Structural)]
pub struct Leds {
    pub red: Level,
    pub green: Level,
    pub blue: Level,
}

/// The level that stands for a yes or a no.
pub open spec fn level_for(on: bool) -> Level {
    if on {
        Level::High
    } else {
        Level::Low
    }
}

impl Leds {
    /// The LEDs after the host has told its status: the green one shows whether it is connected,
    /// the blue one whether the target runs.
    pub open spec fn after(self, host_status: HostStatus) -> Leds {
        match host_status {
            HostStatus::Connected(c) => Leds { green: level_for(c), ..self },
            HostStatus::Running(r) => Leds { blue: level_for(r), ..self },
        }
    }

    /// The LEDs as they are at power-up, with all outputs high.
    pub fn new() -> (leds: Leds)
        ensures
            leds == (Leds { red: Level::High, green: Level::High, blue: Level::High }),
    {
        Leds { red: Level::High, green: Level::High, blue: Level::High }
    }

    /// Shows the host status. Returns the one LED to set, and its level.
    pub fn react_to_host_status(&mut self, host_status: HostStatus) -> (update: (Led, Level))
        ensures
            *final(self) == old(self).after(host_status),
            update == match host_status {
                HostStatus::Connected(c) => (Led::Green, level_for(c)),
                HostStatus::Running(r) => (Led::Blue, level_for(r)),
            },
    {
        match host_status {
            HostStatus::Connected(c) => {
                self.green = Level::from(c);
                (Led::Green, self.green)
            },
            HostStatus::Running(r) => {
                self.blue = Level::from(r);
                (Led::Blue, self.blue)
            },
        }
    }
}

/// The two kinds of status do not disturb each other, a new status of a kind replaces the last of
/// that kind, and no status changes the red LED.
pub proof fn statuses_are_independent(leds: Leds, c1: bool, c2: bool, r1: bool, r2: bool)
    ensures
        leds.after(HostStatus::Connected(c1)).after(HostStatus::Running(r1)) == leds.after(
            HostStatus::Running(r1),
        ).after(HostStatus::Connected(c1)),
        leds.after(HostStatus::Connected(c1)).after(HostStatus::Connected(c2)) == leds.after(
            HostStatus::Connected(c2),
        ),
        leds.after(HostStatus::Running(r1)).after(HostStatus::Running(r2)) == leds.after(
            HostStatus::Running(r2),
        ),
        leds.after(HostStatus::Connected(c1)).red == leds.red,
        leds.after(HostStatus::Running(r1)).red == leds.red,
{
}

/// A status shows on its own LED, as high for a yes and low for a no, and on no other: the
/// connection on the green one, the run state on the blue one.
pub proof fn status_shows_on_its_led(leds: Leds, on: bool)
    ensures
        (level_for(on) == Level::High) == on,
        ({
            let shown = leds.after(HostStatus::Connected(on));
            &&& (shown.green == Level::High) == on
            &&& shown.blue == leds.blue
            &&& shown.red == leds.red
        }),
        ({
            let shown = leds.after(HostStatus::Running(on));
            &&& (shown.blue == Level::High) == on
            &&& shown.green == leds.green
            &&& shown.red == leds.red
        }),
{
}

} // verus!

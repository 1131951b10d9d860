//! Digital pins: output levels, and the bidirectional pins of the debug port.
//!
//! A debug pin reaches the target through a voltage translator. Some translators have a
//! direction pin, which says which of their two sides drives the other. [`IoPin`] decides which
//! registers are written, and in what order, so that the translator never drives the target from
//! a pin of ours that floats.

use vstd::prelude::*;

verus! {

/// A logic level.
#[derive(Clone, Copy, Debug, PartialEq, Eq, Structural)]
pub enum Level {
    Low,
    High,
}

impl From<bool> for Level {
    fn from(high: bool) -> (level: Level) {
        match high {
            true => Level::High,
            false => Level::Low,
        }
    }
}

impl vstd::std_specs::convert::FromSpecImpl<bool> for Level {
    open spec fn obeys_from_spec() -> bool {
        true
    }

    open spec fn from_spec(high: bool) -> Level {
        if high {
            Level::High
        } else {
            Level::Low
        }
    }
}

/// The registers of a pin that can be an input or an output.
#[derive(Clone, Copy, Debug, PartialEq, Eq, Structural)]
pub struct Flex {
    /// Whether the pin drives its line.
    pub output: bool,
    /// The level that the pin drives while it is an output.
    pub level: Level,
}

/// One register write.
#[derive(Clone, Copy, Debug, PartialEq, Eq, Structural)]
pub enum PinWrite {
    /// Let the pin drive its line.
    PinAsOutput,
    /// Stop the pin from driving its line.
    PinAsInput,
    /// Set the output level of the pin.
    PinLevel(Level),
    /// Set the level of the direction pin.
    DirectionLevel(Level),
}

/// At most two register writes, to be made in order.
#[derive(Clone, Copy, Debug, PartialEq, Eq, Structural)]
pub struct PinWrites {
    pub first: PinWrite,
    pub second: Option<PinWrite>,
}

impl View for PinWrites {
    type V = Seq<PinWrite>;

    open spec fn view(&self) -> Seq<PinWrite> {
        match self.second {
            Some(second) => seq![self.first, second],
            None => seq![self.first],
        }
    }
}

/// A call that changes a pin of the debug port.
#[derive(Clone, Copy, Debug, PartialEq, Eq, Structural)]
pub enum PinCall {
    SetAsOutput,
    SetAsInput,
    SetHigh(bool),
}

/// A pin of the debug port, with the direction pin of its translator if there is one.
#[derive(Clone, Copy, Debug, PartialEq, Eq, Structural)]
pub struct IoPin {
    pub pin: Flex,
    /// The level of the direction pin. High lets the translator drive the target.
    pub direction_pin: Option<Level>,
}

impl IoPin {
    /// What one register write makes of the pin. A write to a direction pin that is not there
    /// has no effect.
    pub open spec fn after_write(self, write: PinWrite) -> IoPin {
        match write {
            PinWrite::PinAsOutput => IoPin {
                pin: Flex { output: true, level: self.pin.level },
                direction_pin: self.direction_pin,
            },
            PinWrite::PinAsInput => IoPin {
                pin: Flex { output: false, level: self.pin.level },
                direction_pin: self.direction_pin,
            },
            PinWrite::PinLevel(level) => IoPin {
                pin: Flex { output: self.pin.output, level },
                direction_pin: self.direction_pin,
            },
            PinWrite::DirectionLevel(level) => IoPin {
                pin: self.pin,
                direction_pin: if self.direction_pin is Some {
                    Some(level)
                } else {
                    None
                },
            },
        }
    }

    /// What a sequence of register writes makes of the pin.
    pub open spec fn after_writes(self, writes: Seq<PinWrite>) -> IoPin
        decreases writes.len(),
    {
        if writes.len() == 0 {
            self
        } else {
            self.after_writes(writes.drop_last()).after_write(writes.last())
        }
    }

    /// The pin when it is told to be an output.
    pub open spec fn as_output(self) -> IoPin {
        IoPin {
            pin: Flex { output: true, level: self.pin.level },
            direction_pin: if self.direction_pin is Some {
                Some(Level::High)
            } else {
                None
            },
        }
    }

    /// The pin when it is told to be an input.
    pub open spec fn as_input(self) -> IoPin {
        IoPin {
            pin: Flex { output: false, level: self.pin.level },
            direction_pin: if self.direction_pin is Some {
                Some(Level::Low)
            } else {
                None
            },
        }
    }

    /// The pin when it is told to drive a level.
    pub open spec fn with_level(self, high: bool) -> IoPin {
        IoPin {
            pin: Flex {
                output: self.pin.output,
                level: if high {
                    Level::High
                } else {
                    Level::Low
                },
            },
            direction_pin: self.direction_pin,
        }
    }

    /// The pin after a call.
    pub open spec fn after_call(self, call: PinCall) -> IoPin {
        match call {
            PinCall::SetAsOutput => self.as_output(),
            PinCall::SetAsInput => self.as_input(),
            PinCall::SetHigh(high) => self.with_level(high),
        }
    }

    /// The pin after a sequence of calls.
    pub open spec fn after_calls(self, calls: Seq<PinCall>) -> IoPin
        decreases calls.len(),
    {
        if calls.len() == 0 {
            self
        } else {
            self.after_calls(calls.drop_last()).after_call(calls.last())
        }
    }

    /// The register writes that make the pin an output.
    pub open spec fn output_writes(self) -> Seq<PinWrite> {
        if self.direction_pin is Some {
            seq![PinWrite::PinAsOutput, PinWrite::DirectionLevel(Level::High)]
        } else {
            seq![PinWrite::PinAsOutput]
        }
    }

    /// The register writes that make the pin an input.
    pub open spec fn input_writes(self) -> Seq<PinWrite> {
        if self.direction_pin is Some {
            seq![PinWrite::DirectionLevel(Level::Low), PinWrite::PinAsInput]
        } else {
            seq![PinWrite::PinAsInput]
        }
    }

    /// The translator drives the target only while the pin drives the translator.
    pub open spec fn driven(self) -> bool {
        self.direction_pin == Some(Level::High) ==> self.pin.output
    }

    /// The direction pin agrees with the direction of the pin.
    pub open spec fn settled(self) -> bool {
        self.direction_pin is Some ==> self.direction_pin == Some(
            if self.pin.output {
                Level::High
            } else {
                Level::Low
            },
        )
    }

    /// Takes over a pin as it stands. A direction pin starts low, so that the target drives the
    /// translator.
    pub fn new(pin: Flex, has_direction_pin: bool) -> (io: IoPin)
        ensures
            io.pin == pin,
            has_direction_pin ==> io.direction_pin == Some(Level::Low),
            !has_direction_pin ==> io.direction_pin is None,
            io.driven(),
            !pin.output ==> io.settled(),
    {
        IoPin {
            pin,
            direction_pin: if has_direction_pin {
                Some(Level::Low)
            } else {
                None
            },
        }
    }

    /// Makes the pin an output: the pin first, then the direction pin.
    pub fn set_as_output(&mut self) -> (writes: PinWrites)
        ensures
            *final(self) == old(self).as_output(),
            writes@ == old(self).output_writes(),
    {
        self.pin.output = true;
        match self.direction_pin {
            Some(_) => {
                self.direction_pin = Some(Level::High);
                PinWrites {
                    first: PinWrite::PinAsOutput,
                    second: Some(PinWrite::DirectionLevel(Level::High)),
                }
            },
            None => PinWrites { first: PinWrite::PinAsOutput, second: None },
        }
    }

    /// Sets the level that the pin drives, or will drive once it is an output.
    pub fn set_high(&mut self, high: bool) -> (write: PinWrite)
        ensures
            *final(self) == old(self).with_level(high),
            write == PinWrite::PinLevel(
                if high {
                    Level::High
                } else {
                    Level::Low
                },
            ),
    {
        let level = match high {
            true => Level::High,
            false => Level::Low,
        };
        self.pin.level = level;
        PinWrite::PinLevel(level)
    }

    /// Makes the pin an input: the direction pin first, then the pin.
    pub fn set_as_input(&mut self) -> (writes: PinWrites)
        ensures
            *final(self) == old(self).as_input(),
            writes@ == old(self).input_writes(),
    {
        self.pin.output = false;
        match self.direction_pin {
            Some(_) => {
                self.direction_pin = Some(Level::Low);
                PinWrites {
                    first: PinWrite::DirectionLevel(Level::Low),
                    second: Some(PinWrite::PinAsInput),
                }
            },
            None => PinWrites { first: PinWrite::PinAsInput, second: None },
        }
    }

    /// Whether the level read from the pin's line is high. Reading changes nothing.
    pub fn is_high(&mut self, line: Level) -> (high: bool)
        ensures
            high == (line == Level::High),
            *final(self) == *old(self),
    {
        line == Level::High
    }
}

/// Making the register writes that the methods ask for brings the pin to the state that the
/// methods promise.
pub proof fn writes_reach_the_promised_state(io: IoPin, high: bool)
    ensures
        io.after_writes(io.output_writes()) == io.as_output(),
        io.after_writes(io.input_writes()) == io.as_input(),
        io.after_write(PinWrite::PinLevel(if high { Level::High } else { Level::Low }))
            == io.with_level(high),
{
    reveal_with_fuel(IoPin::after_writes, 3);
    if io.direction_pin is Some {
        assert(io.output_writes().drop_last() =~= seq![PinWrite::PinAsOutput]);
        assert(io.input_writes().drop_last() =~= seq![PinWrite::DirectionLevel(Level::Low)]);
    }
}

/// A change of direction never lets the translator drive the target from a pin that floats, not
/// even between two register writes.
pub proof fn direction_changes_stay_driven(io: IoPin, made: int)
    requires
        io.driven(),
    ensures
        0 <= made <= io.output_writes().len() ==> io.after_writes(
            io.output_writes().take(made),
        ).driven(),
        0 <= made <= io.input_writes().len() ==> io.after_writes(
            io.input_writes().take(made),
        ).driven(),
{
    reveal_with_fuel(IoPin::after_writes, 3);
    writes_reach_the_promised_state(io, true);
    if made == 0 {
    } else if made == io.output_writes().len() {
        assert(io.output_writes().take(made) =~= io.output_writes());
        assert(io.input_writes().take(made) =~= io.input_writes());
    } else if made == 1 {
        assert(io.output_writes().take(1) =~= seq![PinWrite::PinAsOutput]);
        assert(io.input_writes().take(1) =~= seq![PinWrite::DirectionLevel(Level::Low)]);
    }
}

/// After a change of direction the direction pin agrees with the pin, and setting a level leaves
/// that agreement alone.
pub proof fn direction_changes_settle(io: IoPin, high: bool)
    ensures
        io.as_output().settled() && io.as_output().driven(),
        io.as_input().settled() && io.as_input().driven(),
        io.with_level(high).settled() == io.settled(),
        io.with_level(high).driven() == io.driven(),
{
}

/// Over any sequence of calls the translator never drives the target from a pin that floats, not
/// even between two register writes of a change of direction that comes next, and the direction
/// pin agrees with the pin once the direction has been changed.
pub proof fn calls_stay_driven_and_settle(io: IoPin, calls: Seq<PinCall>, made: int)
    requires
        io.driven(),
    ensures
        io.after_calls(calls).driven(),
        (exists|i: int| 0 <= i < calls.len() && !(#[trigger] calls[i] is SetHigh))
            ==> io.after_calls(calls).settled(),
        0 <= made <= io.after_calls(calls).output_writes().len() ==> io.after_calls(
            calls,
        ).after_writes(io.after_calls(calls).output_writes().take(made)).driven(),
        0 <= made <= io.after_calls(calls).input_writes().len() ==> io.after_calls(
            calls,
        ).after_writes(io.after_calls(calls).input_writes().take(made)).driven(),
    decreases calls.len(),
{
    if calls.len() > 0 {
        let earlier = calls.drop_last();
        calls_stay_driven_and_settle(io, earlier, made);
        if calls.last() is SetHigh && exists|i: int|
            0 <= i < calls.len() && !(#[trigger] calls[i] is SetHigh) {
            let i = choose|i: int| 0 <= i < calls.len() && !(#[trigger] calls[i] is SetHigh);
            assert(!(earlier[i] is SetHigh));
        }
    }
    direction_changes_stay_driven(io.after_calls(calls), made);
}

/// The last direction asked for is the one that holds, and the output level survives changes of
/// direction: a level set while the pin is an input is driven once it is an output.
pub proof fn last_direction_wins(io: IoPin, high: bool)
    ensures
        io.as_input().as_output() == io.as_output(),
        io.as_output().as_input() == io.as_input(),
        io.as_output().as_output() == io.as_output(),
        io.as_input().as_input() == io.as_input(),
        io.as_input().with_level(high).as_output() == io.as_output().with_level(high),
{
}

/// A boolean and its level stand for each other: high for true, low for false.
pub proof fn level_stands_for_its_boolean(high: bool)
    ensures
        (<Level as vstd::std_specs::convert::FromSpec<bool>>::from_spec(high) == Level::High)
            == high,
        <Level as vstd::std_specs::convert::FromSpec<bool>>::obeys_from_spec(),
{
}

/// The register writes are made in the order in which they are named.
pub proof fn writes_are_made_in_order(writes: PinWrites)
    ensures
        writes@[0] == writes.first,
        writes.second is None ==> writes@.len() == 1,
        writes.second matches Some(second) ==> writes@.len() == 2 && writes@[1] == second,
{
}

/// Each register write changes the register that it names and no other.
pub proof fn write_changes_its_register(io: IoPin, level: Level)
    ensures
        io.after_write(PinWrite::PinAsOutput).pin == (Flex { output: true, level: io.pin.level }),
        io.after_write(PinWrite::PinAsOutput).direction_pin == io.direction_pin,
        io.after_write(PinWrite::PinAsInput).pin == (Flex { output: false, level: io.pin.level }),
        io.after_write(PinWrite::PinAsInput).direction_pin == io.direction_pin,
        io.after_write(PinWrite::PinLevel(level)).pin == (Flex { output: io.pin.output, level }),
        io.after_write(PinWrite::PinLevel(level)).direction_pin == io.direction_pin,
        io.after_write(PinWrite::DirectionLevel(level)).pin == io.pin,
        io.direction_pin is Some ==> io.after_write(PinWrite::DirectionLevel(level)).direction_pin
            == Some(level),
        io.direction_pin is None ==> io.after_write(PinWrite::DirectionLevel(level)).direction_pin
            is None,
{
}

/// A pin told to be an output drives its line, one told to be an input does not, and the
/// direction pin, where there is one, is high for an output and low for an input. The level to
/// drive stays as it was.
pub proof fn pin_and_translator_turn_together(io: IoPin)
    ensures
        io.as_output().pin.output,
        !io.as_input().pin.output,
        io.as_output().pin.level == io.pin.level,
        io.as_input().pin.level == io.pin.level,
        io.direction_pin is Some ==> io.as_output().direction_pin == Some(Level::High),
        io.direction_pin is Some ==> io.as_input().direction_pin == Some(Level::Low),
        io.direction_pin is None ==> io.as_output().direction_pin is None,
        io.direction_pin is None ==> io.as_input().direction_pin is None,
{
}

/// Setting a level sets that level, and leaves the direction of the pin and of the translator as
/// they were.
pub proof fn level_is_set_alone(io: IoPin, high: bool)
    ensures
        (io.with_level(high).pin.level == Level::High) == high,
        io.with_level(high).pin.output == io.pin.output,
        io.with_level(high).direction_pin == io.direction_pin,
{
}

/// A change of direction makes one write to the pin and, where there is a direction pin, one to
/// that. To become an output the pin is written first, and to become an input it is written last.
/// No write goes the other way or touches the level.
pub proof fn direction_changes_write_each_pin_once(io: IoPin, i: int)
    ensures
        io.output_writes().len() == io.input_writes().len(),
        io.output_writes().len() == if io.direction_pin is Some {
            2int
        } else {
            1
        },
        io.output_writes().first() == PinWrite::PinAsOutput,
        io.input_writes().last() == PinWrite::PinAsInput,
        0 < i < io.output_writes().len() ==> io.output_writes()[i] == PinWrite::DirectionLevel(
            Level::High,
        ),
        0 <= i < io.input_writes().len() - 1 ==> io.input_writes()[i] == PinWrite::DirectionLevel(
            Level::Low,
        ),
{
}

/// While a pin is made an input it never starts to drive its line, and its translator never
/// starts to drive the target: whatever does not drive before does not drive after any of the
/// writes. While it is made an output neither of them stops driving. The level to drive stays as
/// it was throughout.
pub proof fn direction_changes_never_go_the_other_way(io: IoPin, made: int)
    ensures
        0 <= made <= io.input_writes().len() ==> {
            let between = io.after_writes(io.input_writes().take(made));
            &&& !io.pin.output ==> !between.pin.output
            &&& io.direction_pin != Some(Level::High) ==> between.direction_pin != Some(Level::High)
            &&& between.pin.level == io.pin.level
        },
        0 <= made <= io.output_writes().len() ==> {
            let between = io.after_writes(io.output_writes().take(made));
            &&& io.pin.output ==> between.pin.output
            &&& io.direction_pin == Some(Level::High) ==> between.direction_pin == Some(Level::High)
            &&& between.pin.level == io.pin.level
        },
{
    reveal_with_fuel(IoPin::after_writes, 3);
    writes_reach_the_promised_state(io, true);
    if made == 0 {
    } else if made == io.output_writes().len() {
        assert(io.output_writes().take(made) =~= io.output_writes());
        assert(io.input_writes().take(made) =~= io.input_writes());
    } else if made == 1 {
        assert(io.output_writes().take(1) =~= seq![PinWrite::PinAsOutput]);
        assert(io.input_writes().take(1) =~= seq![PinWrite::DirectionLevel(Level::Low)]);
    }
}

} // verus!

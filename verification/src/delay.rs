//! Delays, counted in rounds of a busy loop.

use vstd::prelude::*;

verus! {

/// Cycles of the busy loop in a second.
///
/// This is half of the processor's clock. It serves to count the cycles to wait in an SWD or JTAG
/// clock cycle, so it need not be the real frequency: the busy loop halves the count that it is
/// given, and a Cortex-M0+ needs four clock cycles for a round of it.
pub const CPU_CLOCK: u32 = 125_000_000 / 2;

/// Nanoseconds in a second.
pub const NS_PER_S: u64 = 1_000_000_000;

/// The cycles that fit in a time, given in nanoseconds.
pub open spec fn cycles_in(ns: int) -> int {
    ns * CPU_CLOCK / NS_PER_S as int
}

/// The clock that the debug port's timing goes by.
#[derive(Clone, Copy, Debug, PartialEq, Eq, Structural)]
pub struct BitDelay;

impl BitDelay {
    /// The cycles to wait for a delay of `ns` nanoseconds.
    pub fn delay_ns(&mut self, ns: u32) -> (cycles: u32)
        ensures
            cycles == cycles_in(ns as int),
            16 * cycles <= ns < 16 * (cycles + 1),
    {
        proof {
            cycle_stands_for_16_ns(ns as int);
        }
        let clock: u32 = self.cpu_clock();
        assert(ns as u64 * clock as u64 <= 0xFFFF_FFFF * 62_500_000) by (nonlinear_arith)
            requires
                clock == 62_500_000,
        ;
        let cycles: u64 = ns as u64 * clock as u64 / NS_PER_S;
        cycles as u32
    }

    /// The cycles in a second.
    pub fn cpu_clock(&self) -> (clock: u32)
        ensures
            clock == CPU_CLOCK,
            2 * clock == 125_000_000,
    {
        CPU_CLOCK
    }
}

/// A cycle stands for sixteen nanoseconds. Counted so, a delay is never longer than asked for, and
/// is shorter by less than a cycle.
pub proof fn cycle_stands_for_16_ns(ns: int)
    requires
        0 <= ns,
    ensures
        cycles_in(ns) == ns / 16,
        16 * cycles_in(ns) <= ns < 16 * (cycles_in(ns) + 1),
{
    assert(ns * CPU_CLOCK == ns * 62_500_000) by (nonlinear_arith);
}

/// A longer delay never takes fewer cycles.
pub proof fn delays_are_ordered(ns1: int, ns2: int)
    requires
        0 <= ns1 <= ns2,
    ensures
        cycles_in(ns1) <= cycles_in(ns2),
{
    cycle_stands_for_16_ns(ns1);
    cycle_stands_for_16_ns(ns2);
}

} // verus!

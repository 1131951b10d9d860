# Rusty Probe

Firmware for the [Rusty Probe](https://github.com/probe-rs/rusty-probe), a debug probe built
around an RP2040. It speaks CMSIS-DAP v2 only.

`src/` is the logic of the firmware, written and proved in Verus. Each function states what it
returns or changes in `requires` and `ensures`. The public proof functions state what holds of
the library as a whole, for instance that the translators follow the target's supply, within
their range, to within a millivolt, that a change of direction never lets a translator drive the
target from a floating pin, or that every request gets one attempted response. The only outside
code that `src/` calls is `heapless::String`, in `src/serial.rs`.

`app/` is the firmware around it: it reads and writes the hardware through Embassy, and runs the
loops that `src/` decides about. It cannot be linked for the probe as it stands, because the
library, like the Verus standard library that it is built against, uses `std`. Besides a `no_std`
build of the library, the probe needs the features `arch-cortex-m` and `executor-thread` of
`embassy-executor`, and `bitbang-dap` and `dap-rs` from their repositories, since the adapter and
the JTAG scan chain are not in a released version.

`tests/` runs the library on the development machine.

//! The logic of a CMSIS-DAP v2 debug probe.
//!
//! - [`power`] sets the supplies of the voltage translators and of the target.
//! - [`voltage`] measures the target's supply and lets the translators follow it.
//! - [`gpio`] turns the pins of the debug port around, together with their translators.
//! - [`leds`] shows the host status.
//! - [`delay`] counts the cycles of a delay.
//! - [`session`] exchanges requests and responses with the host.
//! - [`serial`] and [`usb`] say how the probe presents itself on the bus.
//!
//! Nothing here touches the hardware. Functions take what was read from it and return what is to
//! be written to it.

pub mod delay;
pub mod gpio;
pub mod leds;
pub mod power;
pub mod serial;
pub mod session;
pub mod usb;
pub mod voltage;

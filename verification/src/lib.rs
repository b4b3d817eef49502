//! Generic GPIO driver for the TM1637 display controller.
//! With this driver you can control for example a 4-digit 7-segment
//! display. It does not depend on a specific GPIO library: the two lines
//! of the bus are reached through a [`PinBackend`].
//!
//! ```text
//! let mut display = TM1637Adapter::new(clock_write, data_write, data_read, bit_delay);
//! display.set_brightness(Brightness::L3);
//! display.write_segments_raw(&TM1637Adapter::encode_number(1234), 0);
//! ```
//!
//! The chip is driven bit by bit over a clock line and a data line. Every
//! operation of the driver states, as a sequence of [`PinOp`]s, exactly
//! which pin operations it requests from its backend; the module
//! [`protocol`] holds these sequences.
//!
//! * [`adapter`]: the driver itself, [`TM1637Adapter`].
//! * [`commands`]: the command bytes and the display state.
//! * [`encoding`]: what digits, numbers and text look like on the display.
//! * [`mappings`]: the segment bytes of the symbols.
//! * [`pins`]: levels, pin operations and the backend interface.
//! * [`protocol`]: the wire format.
//! * [`gpio_api`]: backends that are ready to use.
//! * [`fourdigit7segdis`]: stopwatch, timer, banner and clock for a
//!   4-digit display.

pub mod adapter;
pub mod commands;
pub mod encoding;
pub mod fourdigit7segdis;
pub mod gpio_api;
pub mod mappings;
pub mod pins;
pub mod protocol;

pub use crate::adapter::AdapterView;
pub use crate::adapter::TM1637Adapter;
pub use crate::commands::Brightness;
pub use crate::commands::DisplayState;
pub use crate::commands::DISPLAY_REGISTERS_COUNT;
pub use crate::commands::ISA;
pub use crate::pins::GpioPinValue;
pub use crate::pins::PinBackend;
pub use crate::pins::PinOp;

//! The two GPIO lines as the driver sees them: levels, single pin
//! operations, and the capability interface a GPIO backend provides.

use vstd::prelude::*;

verus! {

/// The value of a GPIO pin.
#[derive(Clone, Copy, Debug, PartialEq, Eq, Structural)]
pub enum GpioPinValue {
    /// Low.
    LOW,
    /// High.
    HIGH,
}

impl GpioPinValue {
    /// The level that stands for a number: `LOW` for zero, `HIGH` for
    /// everything else.
    pub open spec fn of(x: u8) -> GpioPinValue {
        if x == 0 {
            GpioPinValue::LOW
        } else {
            GpioPinValue::HIGH
        }
    }
}

impl From<u8> for GpioPinValue {
    fn from(x: u8) -> (level: GpioPinValue) {
        if x == 0 {
            GpioPinValue::LOW
        } else {
            GpioPinValue::HIGH
        }
    }
}

impl vstd::std_specs::convert::FromSpecImpl<u8> for GpioPinValue {
    open spec fn obeys_from_spec() -> bool {
        true
    }

    open spec fn from_spec(x: u8) -> GpioPinValue {
        GpioPinValue::of(x)
    }
}

/// One operation on the two lines of the bus, as the driver requests it
/// from its backend.
#[derive(Clone, Copy, Debug, PartialEq, Eq, Structural)]
pub enum PinOp {
    /// The clock line is driven to the given level.
    WriteClock(GpioPinValue),
    /// The data line is driven to the given level.
    WriteData(GpioPinValue),
    /// The data line is sampled.
    ReadData,
    /// The bit delay elapses, so that the last change can settle.
    Delay,
}

/// What the driver needs from a GPIO library: writing the clock line,
/// writing and reading the data line, and waiting for one bit delay.
///
/// Both lines must be configured as outputs before a backend is handed to
/// the driver. A backend whose hardware cannot sample a line that is
/// driven as output switches the data line to input inside `read_data` and
/// back to output before it returns.
///
/// `trace` is the history of the operations that were requested from the
/// backend, oldest first. Each method appends exactly its own operation;
/// this is what the driver's contracts are stated over.
pub trait PinBackend {
    /// The operations requested so far, oldest first.
    spec fn trace(&self) -> Seq<PinOp>;

    /// Drives the clock line to `level`.
    fn write_clock(&mut self, level: GpioPinValue)
        ensures
            final(self).trace() == old(self).trace().push(PinOp::WriteClock(level)),
    ;

    /// Drives the data line to `level`.
    fn write_data(&mut self, level: GpioPinValue)
        ensures
            final(self).trace() == old(self).trace().push(PinOp::WriteData(level)),
    ;

    /// Samples the data line. Nothing is promised of the level that
    /// comes back.
    fn read_data(&mut self) -> (level: GpioPinValue)
        ensures
            final(self).trace() == old(self).trace().push(PinOp::ReadData),
    ;

    /// Blocks for one bit delay, a duration that the backend chooses to
    /// suit the attached hardware.
    fn delay(&mut self)
        ensures
            final(self).trace() == old(self).trace().push(PinOp::Delay),
    ;
}

} // verus!

//! A backend made of four functions, for GPIO libraries that are driven
//! through closures.

use vstd::prelude::*;
use crate::pins::GpioPinValue;
use crate::pins::PinBackend;
use crate::pins::PinOp;

verus! {

/// A backend that hands each operation to a function of its own.
///
/// * `C` writes a level to the clock pin.
/// * `D` writes a level to the data pin.
/// * `R` reads the level of the data pin.
/// * `W` is invoked after a level has been written to a pin and blocks
///   for one bit delay. It depends on your hardware and your GPIO driver
///   how long that has to be; sometimes no delay at all is fine.
pub struct FnBackend<C: Fn(GpioPinValue), D: Fn(GpioPinValue), R: Fn() -> GpioPinValue, W: Fn()> {
    /// Function that writes the value on the GPIO pin that acts as the clock.
    pin_clock_write_fn: C,
    /// Function that writes the value on the GPIO pin that acts as data in and out.
    pin_dio_write_fn: D,
    /// Function that reads from the data in and out pin.
    pin_dio_read_fn: R,
    /// Delay function after data bits and clock bits have been set.
    bit_delay_fn: W,
    /// The operations requested so far.
    requested: Ghost<Seq<PinOp>>,
}

impl<C: Fn(GpioPinValue), D: Fn(GpioPinValue), R: Fn() -> GpioPinValue, W: Fn()> FnBackend<
    C,
    D,
    R,
    W,
> {
    /// Each function can be called at any time, with any level.
    #[verifier::type_invariant]
    spec fn callable(&self) -> bool {
        &&& forall|level: GpioPinValue| call_requires(self.pin_clock_write_fn, (level,))
        &&& forall|level: GpioPinValue| call_requires(self.pin_dio_write_fn, (level,))
        &&& call_requires(self.pin_dio_read_fn, ())
        &&& call_requires(self.bit_delay_fn, ())
    }

    /// A backend made of the four functions, of which nothing was
    /// requested yet. The functions must accept every call.
    pub fn new(pin_clock_write_fn: C, pin_dio_write_fn: D, pin_dio_read_fn: R, bit_delay_fn: W) -> (backend: Self)
        requires
            forall|level: GpioPinValue| call_requires(pin_clock_write_fn, (level,)),
            forall|level: GpioPinValue| call_requires(pin_dio_write_fn, (level,)),
            call_requires(pin_dio_read_fn, ()),
            call_requires(bit_delay_fn, ()),
        ensures
            backend.trace() == Seq::<PinOp>::empty(),
    {
        FnBackend {
            pin_clock_write_fn,
            pin_dio_write_fn,
            pin_dio_read_fn,
            bit_delay_fn,
            requested: Ghost(Seq::empty()),
        }
    }
}

impl<C: Fn(GpioPinValue), D: Fn(GpioPinValue), R: Fn() -> GpioPinValue, W: Fn()> PinBackend for FnBackend<
    C,
    D,
    R,
    W,
> {
    closed spec fn trace(&self) -> Seq<PinOp> {
        self.requested@
    }

    fn write_clock(&mut self, level: GpioPinValue) {
        proof {
            use_type_invariant(&*self);
        }
        (self.pin_clock_write_fn)(level);
        proof {
            self.requested@ = self.requested@.push(PinOp::WriteClock(level));
        }
    }

    fn write_data(&mut self, level: GpioPinValue) {
        proof {
            use_type_invariant(&*self);
        }
        (self.pin_dio_write_fn)(level);
        proof {
            self.requested@ = self.requested@.push(PinOp::WriteData(level));
        }
    }

    fn read_data(&mut self) -> (level: GpioPinValue) {
        proof {
            use_type_invariant(&*self);
        }
        let level = (self.pin_dio_read_fn)();
        proof {
            self.requested@ = self.requested@.push(PinOp::ReadData);
        }
        level
    }

    fn delay(&mut self) {
        proof {
            use_type_invariant(&*self);
        }
        (self.bit_delay_fn)();
        proof {
            self.requested@ = self.requested@.push(PinOp::Delay);
        }
    }
}

} // verus!

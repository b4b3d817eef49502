//! A backend that drives nothing. With it the driver runs on machines
//! that have no GPIO interface, where one can set breakpoints and so on.

use vstd::prelude::*;
use crate::adapter::TM1637Adapter;
use crate::pins::GpioPinValue;
use crate::pins::PinBackend;
use crate::pins::PinOp;

verus! {

/// A backend without pins: writes and delays do nothing, and the data
/// line always reads low, as if a chip acknowledged.
pub struct DummyBackend {
    /// The operations requested so far.
    requested: Ghost<Seq<PinOp>>,
}

impl DummyBackend {
    /// A dummy backend of which nothing was requested yet.
    pub fn new() -> (backend: Self)
        ensures
            backend.trace() == Seq::<PinOp>::empty(),
    {
        DummyBackend { requested: Ghost(Seq::empty()) }
    }
}

impl PinBackend for DummyBackend {
    closed spec fn trace(&self) -> Seq<PinOp> {
        self.requested@
    }

    fn write_clock(&mut self, level: GpioPinValue) {
        proof {
            self.requested@ = self.requested@.push(PinOp::WriteClock(level));
        }
    }

    fn write_data(&mut self, level: GpioPinValue) {
        proof {
            self.requested@ = self.requested@.push(PinOp::WriteData(level));
        }
    }

    fn read_data(&mut self) -> (level: GpioPinValue)
        ensures
            level == GpioPinValue::LOW,
    {
        proof {
            self.requested@ = self.requested@.push(PinOp::ReadData);
        }
        GpioPinValue::LOW
    }

    fn delay(&mut self) {
        proof {
            self.requested@ = self.requested@.push(PinOp::Delay);
        }
    }
}

/// Sets up an adapter on a dummy backend, for testing.
pub fn setup_dummy() -> (adapter: TM1637Adapter<DummyBackend>)
    ensures
        adapter@ == (crate::adapter::AdapterView {
            display: crate::commands::DisplayState::ON,
            brightness: crate::commands::Brightness::L7,
            trace: seq![
                PinOp::WriteClock(GpioPinValue::LOW),
                PinOp::WriteData(GpioPinValue::LOW),
            ],
        }),
{
    TM1637Adapter::with_backend(DummyBackend::new())
}

} // verus!

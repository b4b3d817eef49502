//! A backend that records what is requested of it.

use vstd::prelude::*;
use crate::pins::GpioPinValue;
use crate::pins::PinBackend;
use crate::pins::PinOp;

verus! {

/// A backend without pins that keeps every requested operation, so that
/// one can see what the driver puts on the wire. The data line reads as
/// the level the recorder was made with.
#[derive(Debug)]
pub struct Recorder {
    /// The operations requested so far, oldest first.
    ops: Vec<PinOp>,
    /// The level that every read of the data line returns.
    answer: GpioPinValue,
}

impl Recorder {
    /// A recorder that holds nothing yet and whose data line reads low,
    /// as if a chip acknowledged every byte.
    pub fn new() -> (recorder: Self)
        ensures
            recorder.trace() == Seq::<PinOp>::empty(),
            recorder.answer() == GpioPinValue::LOW,
    {
        Recorder { ops: Vec::new(), answer: GpioPinValue::LOW }
    }

    /// A recorder that holds nothing yet and whose data line reads as
    /// `answer`. With `HIGH` no byte is ever acknowledged.
    pub fn answering(answer: GpioPinValue) -> (recorder: Self)
        ensures
            recorder.trace() == Seq::<PinOp>::empty(),
            recorder.answer() == answer,
    {
        Recorder { ops: Vec::new(), answer }
    }

    /// The level that every read of the data line returns.
    pub closed spec fn answer(&self) -> GpioPinValue {
        self.answer
    }

    /// The operations recorded so far, oldest first.
    pub fn ops(&self) -> (ops: &Vec<PinOp>)
        ensures
            ops@ == self.trace(),
    {
        &self.ops
    }
}

impl PinBackend for Recorder {
    closed spec fn trace(&self) -> Seq<PinOp> {
        self.ops@
    }

    fn write_clock(&mut self, level: GpioPinValue)
        ensures
            final(self).answer() == old(self).answer(),
    {
        self.ops.push(PinOp::WriteClock(level));
    }

    fn write_data(&mut self, level: GpioPinValue)
        ensures
            final(self).answer() == old(self).answer(),
    {
        self.ops.push(PinOp::WriteData(level));
    }

    fn read_data(&mut self) -> (level: GpioPinValue)
        ensures
            level == old(self).answer(),
            final(self).answer() == old(self).answer(),
    {
        self.ops.push(PinOp::ReadData);
        self.answer
    }

    fn delay(&mut self)
        ensures
            final(self).answer() == old(self).answer(),
    {
        self.ops.push(PinOp::Delay);
    }
}

} // verus!

//! The wire format of the TM1637 as sequences of pin operations.
//!
//! The bus has a clock line and a data line. A transfer is framed by a
//! start and a stop condition, which are changes of the data line while
//! the clock is high. In between, bytes travel least significant bit
//! first, one bit per clock pulse, each byte followed by one more pulse in
//! which the chip acknowledges.
//!
//! Everything here is a specification: the driver's operations promise
//! that they request exactly these sequences from their backend.

use vstd::prelude::*;
use crate::commands::Brightness;
use crate::commands::DisplayState;
use crate::commands::ISA;
use crate::pins::GpioPinValue;
use crate::pins::PinOp;

verus! {

/// The start condition: the data line falls while the clock is high.
pub open spec fn start_ops() -> Seq<PinOp> {
    seq![
        PinOp::WriteData(GpioPinValue::HIGH),
        PinOp::WriteClock(GpioPinValue::HIGH),
        PinOp::Delay,
        PinOp::WriteData(GpioPinValue::LOW),
        PinOp::Delay,
    ]
}

/// The stop condition: the data line rises while the clock is high.
pub open spec fn stop_ops() -> Seq<PinOp> {
    seq![
        PinOp::WriteData(GpioPinValue::LOW),
        PinOp::WriteClock(GpioPinValue::HIGH),
        PinOp::Delay,
        PinOp::WriteData(GpioPinValue::HIGH),
        PinOp::Delay,
    ]
}

/// One data bit: the data line is set while the clock is low, then the
/// clock rises so that the chip samples it.
pub open spec fn bit_ops(level: GpioPinValue) -> Seq<PinOp> {
    seq![
        PinOp::WriteClock(GpioPinValue::LOW),
        PinOp::WriteData(level),
        PinOp::Delay,
        PinOp::WriteClock(GpioPinValue::HIGH),
        PinOp::Delay,
    ]
}

/// The acknowledge cycle after a byte: one more clock pulse with the data
/// line released low, the data line sampled while the clock is high, then
/// both lines low again. The sampled level takes no part in what follows.
pub open spec fn ack_ops() -> Seq<PinOp> {
    seq![
        PinOp::WriteClock(GpioPinValue::LOW),
        PinOp::WriteData(GpioPinValue::LOW),
        PinOp::Delay,
        PinOp::WriteClock(GpioPinValue::HIGH),
        PinOp::ReadData,
        PinOp::WriteClock(GpioPinValue::LOW),
        PinOp::WriteData(GpioPinValue::LOW),
        PinOp::Delay,
    ]
}

/// The level that carries bit `i` of `byte`; bit 0 is the least
/// significant one.
pub open spec fn bit_level(byte: u8, i: nat) -> GpioPinValue {
    GpioPinValue::of((byte >> i) & 1)
}

/// The first `n` data bits of `byte`, least significant bit first.
pub open spec fn data_bits_ops(byte: u8, n: nat) -> Seq<PinOp>
    decreases n,
{
    if n == 0 {
        Seq::empty()
    } else {
        data_bits_ops(byte, (n - 1) as nat) + bit_ops(bit_level(byte, (n - 1) as nat))
    }
}

/// One byte on the wire: its eight bits, then the acknowledge cycle.
pub open spec fn byte_ops(byte: u8) -> Seq<PinOp> {
    data_bits_ops(byte, 8) + ack_ops()
}

/// Several bytes on the wire, one after the other.
pub open spec fn bytes_ops(bytes: Seq<u8>) -> Seq<PinOp>
    decreases bytes.len(),
{
    if bytes.len() == 0 {
        Seq::empty()
    } else {
        bytes_ops(bytes.drop_last()) + byte_ops(bytes.last())
    }
}

/// A transfer that holds a single command byte.
pub open spec fn command_ops(command: u8) -> Seq<PinOp> {
    start_ops() + byte_ops(command) + stop_ops()
}

/// The "display control" transfer, which commits the on/off state and the
/// brightness to the chip.
pub open spec fn display_state_ops(display: DisplayState, brightness: Brightness) -> Seq<PinOp> {
    command_ops(crate::commands::display_command(display, brightness))
}

/// How many of `len` bytes a write at `pos` sends: as many as there are
/// registers from `first_register(pos)` on, and no more.
pub open spec fn written_len(len: nat, pos: u8) -> nat {
    let room = (6 - crate::commands::first_register(pos)) as nat;
    if len > room {
        room
    } else {
        len
    }
}

/// The bytes that a write of `segments` at `pos` sends: the longest prefix
/// that fits into the registers.
pub open spec fn written_segments(segments: Seq<u8>, pos: u8) -> Seq<u8> {
    segments.take(written_len(segments.len(), pos) as int)
}

/// The registers that a write of `segments` at `pos` fills, each with the
/// byte it receives, in the order in which the chip fills them. The chip
/// counts the address up by itself after each byte.
pub open spec fn register_writes(segments: Seq<u8>, pos: u8) -> Seq<(int, u8)> {
    Seq::new(
        written_len(segments.len(), pos),
        |i: int| (crate::commands::first_register(pos) + i, segments[i]),
    )
}

/// What carries `segments` into the registers from `pos` on: the data
/// command in a transfer of its own, then one transfer with the address
/// command and the bytes that fit. The address is sent once; the chip
/// counts it up.
pub open spec fn data_ops(segments: Seq<u8>, pos: u8) -> Seq<PinOp> {
    command_ops(ISA::DataCommandWriteToDisplay.spec_bits()) + start_ops() + byte_ops(
        crate::commands::address_command(pos),
    ) + bytes_ops(written_segments(segments, pos)) + stop_ops()
}

/// A write of raw segment bytes: the data, then the display control
/// transfer, so that no data reaches the chip without the display state.
/// An empty write is no operation.
pub open spec fn write_segments_ops(
    segments: Seq<u8>,
    pos: u8,
    display: DisplayState,
    brightness: Brightness,
) -> Seq<PinOp> {
    if segments.len() == 0 {
        Seq::empty()
    } else {
        data_ops(segments, pos) + display_state_ops(display, brightness)
    }
}

/// The level that the operations leave on the clock line: that of the last
/// write to it, if there is one.
pub open spec fn clock_level(ops: Seq<PinOp>) -> Option<GpioPinValue>
    decreases ops.len(),
{
    if ops.len() == 0 {
        None
    } else {
        match ops.last() {
            PinOp::WriteClock(level) => Some(level),
            _ => clock_level(ops.drop_last()),
        }
    }
}

/// The level that the operations leave on the data line, as far as the
/// driver drives it: that of the last write to it, if there is one.
pub open spec fn data_level(ops: Seq<PinOp>) -> Option<GpioPinValue>
    decreases ops.len(),
{
    if ops.len() == 0 {
        None
    } else {
        match ops.last() {
            PinOp::WriteData(level) => Some(level),
            _ => data_level(ops.drop_last()),
        }
    }
}

/// Appending a byte to what is sent appends its bits and its acknowledge
/// cycle to the operations.
pub proof fn lemma_bytes_ops_push(bytes: Seq<u8>, byte: u8)
    ensures
        bytes_ops(bytes.push(byte)) == bytes_ops(bytes) + byte_ops(byte),
{
    assert(bytes.push(byte).drop_last() == bytes);
}

/// A write never goes past the last register: the bytes sent are a prefix
/// of the bytes given, they fill consecutive registers from
/// `first_register(pos)` on, and every register filled is one of the six
/// that the chip has.
pub proof fn lemma_write_stays_in_registers(segments: Seq<u8>, pos: u8)
    ensures
        crate::commands::first_register(pos) + written_segments(segments, pos).len() <= 6,
        written_segments(segments, pos).len() <= segments.len(),
        register_writes(segments, pos).len() == written_segments(segments, pos).len(),
        forall|i: int|
            0 <= i < register_writes(segments, pos).len() ==> {
                &&& 0 <= (#[trigger] register_writes(segments, pos)[i]).0 <= 5
                &&& register_writes(segments, pos)[i].0 == crate::commands::first_register(pos) + i
                &&& register_writes(segments, pos)[i].1 == written_segments(segments, pos)[i]
                &&& register_writes(segments, pos)[i].1 == segments[i]
            },
{
}

/// A write that fits into the registers sends all of its bytes.
pub proof fn lemma_write_that_fits_is_whole(segments: Seq<u8>, pos: u8)
    requires
        crate::commands::first_register(pos) + segments.len() <= 6,
    ensures
        written_segments(segments, pos) == segments,
{
}

/// Whatever went before, a stop condition leaves both lines high: the bus
/// is idle.
pub proof fn lemma_stop_leaves_bus_idle(before: Seq<PinOp>)
    ensures
        clock_level(before + stop_ops()) == Some(GpioPinValue::HIGH),
        data_level(before + stop_ops()) == Some(GpioPinValue::HIGH),
{
    let ops = before + stop_ops();
    let n = ops.len() as int;
    assert(ops.len() == before.len() + 5);
    assert(ops[n - 1] == PinOp::Delay);
    assert(ops[n - 2] == PinOp::WriteData(GpioPinValue::HIGH));
    assert(ops[n - 3] == PinOp::Delay);
    assert(ops[n - 4] == PinOp::WriteClock(GpioPinValue::HIGH));
    let a = ops.drop_last();
    let b = a.drop_last();
    let c = b.drop_last();
    assert(a.last() == ops[n - 2]);
    assert(b.last() == ops[n - 3]);
    assert(c.last() == ops[n - 4]);
    assert(data_level(ops) == data_level(a));
    assert(clock_level(ops) == clock_level(a));
    assert(clock_level(a) == clock_level(b));
    assert(clock_level(b) == clock_level(c));
}

/// A write that sends something ends with the display control transfer,
/// and that with a stop condition: it leaves both lines high.
pub proof fn lemma_write_leaves_bus_idle(
    before: Seq<PinOp>,
    segments: Seq<u8>,
    pos: u8,
    display: DisplayState,
    brightness: Brightness,
)
    requires
        segments.len() > 0,
    ensures
        clock_level(before + write_segments_ops(segments, pos, display, brightness)) == Some(
            GpioPinValue::HIGH,
        ),
        data_level(before + write_segments_ops(segments, pos, display, brightness)) == Some(
            GpioPinValue::HIGH,
        ),
{
    let data = data_ops(segments, pos);
    assert(before + write_segments_ops(segments, pos, display, brightness) =~= (before + data)
        + display_state_ops(display, brightness));
    lemma_display_state_leaves_bus_idle(before + data, display, brightness);
}

/// The display control transfer ends with a stop condition: it leaves
/// both lines high.
pub proof fn lemma_display_state_leaves_bus_idle(
    before: Seq<PinOp>,
    display: DisplayState,
    brightness: Brightness,
)
    ensures
        clock_level(before + display_state_ops(display, brightness)) == Some(GpioPinValue::HIGH),
        data_level(before + display_state_ops(display, brightness)) == Some(GpioPinValue::HIGH),
{
    let sent = start_ops() + byte_ops(crate::commands::display_command(display, brightness));
    assert(before + display_state_ops(display, brightness) =~= (before + sent) + stop_ops());
    lemma_stop_leaves_bus_idle(before + sent);
}

/// A write with nothing to send requests no pin operation at all.
pub proof fn lemma_empty_write_is_silent(pos: u8, display: DisplayState, brightness: Brightness)
    ensures
        write_segments_ops(Seq::empty(), pos, display, brightness) == Seq::<PinOp>::empty(),
{
}

} // verus!

//! The protocol engine: an adapter between your code and the TM1637.

use vstd::prelude::*;
use crate::commands::Brightness;
use crate::commands::DisplayState;
use crate::commands::DISPLAY_REGISTERS_COUNT;
use crate::commands::ISA;
use crate::gpio_api::closures::FnBackend;
use crate::pins::GpioPinValue;
use crate::pins::PinBackend;
use crate::pins::PinOp;

verus! {

/// How many times the driver looks at the acknowledge level again before
/// it goes on regardless.
pub const ACK_SETTLE_CYCLES: u8 = 10;

/// What an adapter is, seen from outside: the display state that the next
/// write commits, and the pin operations requested from the backend so far.
#[verifier::ext_equal]
pub struct AdapterView {
    /// Whether the next write turns the display on or off.
    pub display: DisplayState,
    /// The brightness that the next write sets.
    pub brightness: Brightness,
    /// The operations requested from the backend, oldest first.
    pub trace: Seq<PinOp>,
}

impl AdapterView {
    /// The same adapter with another on/off state.
    pub open spec fn with_display(self, display: DisplayState) -> AdapterView {
        AdapterView { display, ..self }
    }

    /// The same adapter with another brightness.
    pub open spec fn with_brightness(self, brightness: Brightness) -> AdapterView {
        AdapterView { brightness, ..self }
    }

    /// The same adapter after `ops` more pin operations.
    pub open spec fn after(self, ops: Seq<PinOp>) -> AdapterView {
        AdapterView { trace: self.trace + ops, ..self }
    }

    /// Operations that follow one another add up: first `first`, then
    /// `then`, is the same as both in one go.
    pub proof fn lemma_after_after(self, first: Seq<PinOp>, then: Seq<PinOp>)
        ensures
            self.after(first).after(then) == self.after(first + then),
            self.after(Seq::empty()) == self,
    {
        assert(self.after(first).after(then) =~= self.after(first + then));
        assert(self.after(Seq::empty()) =~= self);
    }
}

/// Turning the display off and on again keeps the brightness that was set
/// before: the on/off state and the brightness share one byte, but neither
/// disturbs the other.
pub proof fn lemma_power_cycle_keeps_brightness(view: AdapterView, level: Brightness)
    ensures
        view.with_brightness(level).with_display(DisplayState::OFF).with_display(
            DisplayState::ON,
        ).brightness == level,
        view.with_brightness(level).with_display(DisplayState::OFF).with_display(DisplayState::ON)
            == view.with_brightness(level).with_display(DisplayState::ON),
{
}

/// The display state as the driver keeps it between writes: one byte that
/// packs the on/off bit and the brightness level as the "display control"
/// command carries them.
#[derive(Debug)]
struct ControlBits {
    /// Bit 3 is on/off, bits 0 to 2 are the brightness, bits 4 to 7 are
    /// zero.
    bits: u8,
}

impl ControlBits {
    /// The byte always is the packed form of a display state.
    #[verifier::type_invariant]
    spec fn well_formed(&self) -> bool {
        self.bits < 16
    }

    /// The on/off state that the byte holds.
    closed spec fn display(&self) -> DisplayState {
        crate::commands::display_of(self.bits)
    }

    /// The brightness that the byte holds.
    closed spec fn brightness(&self) -> Brightness {
        crate::commands::brightness_of(self.bits)
    }

    /// Display on, at the highest brightness.
    fn new() -> (state: Self)
        ensures
            state.display() == DisplayState::ON,
            state.brightness() == Brightness::L7,
    {
        let on: u8 = DisplayState::ON.bits();
        let l7: u8 = Brightness::L7.bits();
        assert(8u8 | 7u8 == 15u8) by (bit_vector);
        Self { bits: on | l7 }
    }

    /// Replaces the on/off bit and keeps the brightness.
    fn set_display_state(&mut self, ds: DisplayState)
        ensures
            final(self).display() == ds,
            final(self).brightness() == old(self).brightness(),
    {
        proof {
            use_type_invariant(&*self);
        }
        // keep old state for brightness
        let old_brightness: u8 = self.bits & 0b0000_0111;
        let ds_bits: u8 = ds.bits();
        let state: u8 = self.bits;
        assert(state & 7 == state % 8) by (bit_vector);
        assert(0u8 | old_brightness == old_brightness) by (bit_vector);
        assert(old_brightness < 8 ==> 8u8 | old_brightness == 8 + old_brightness) by (bit_vector);
        // take bit 3 (the one that says display on/off) into the new value
        self.bits = ds_bits | old_brightness;
    }

    /// Replaces the brightness and keeps the on/off bit.
    fn set_brightness(&mut self, brightness: Brightness)
        ensures
            final(self).display() == old(self).display(),
            final(self).brightness() == brightness,
    {
        proof {
            use_type_invariant(&*self);
        }
        // look if display is configured as on
        let display_on: u8 = self.bits & DisplayState::ON.bits();
        let level: u8 = brightness.bits();
        let state: u8 = self.bits;
        assert(state < 16 ==> state & 8 == (if state >= 8 { 8u8 } else { 0u8 })) by (bit_vector);
        assert(level < 8 ==> 0u8 | level == level && 8u8 | level == 8 + level) by (bit_vector);
        self.bits = display_on | level;
    }

    /// The "display control" command that commits this state.
    fn command(&self) -> (command: u8)
        ensures
            command == crate::commands::display_command(self.display(), self.brightness()),
    {
        proof {
            use_type_invariant(self);
            crate::commands::lemma_pack_unpack(self.bits);
        }
        let base: u8 = ISA::DisplayCommandBase.bits();
        let state: u8 = self.bits;
        assert(state < 16 ==> 0x80u8 | state == 0x80 + state) by (bit_vector);
        // bits 0-2 brightness; bit 3 is on/off
        base | state
    }
}

/// Adapter between your code and the TM1637 via a GPIO backend.
/// You can use the GPIO library that you want. Just provide the
/// corresponding "glue" functions to [`TM1637Adapter::new`], so that this
/// adapter can access GPIO, or hand a [`PinBackend`] of your own to
/// [`TM1637Adapter::with_backend`].
///
/// Be wise when you choose the bit delay of the backend. The delay makes
/// sure that changed signals are actually on the pins before the chip
/// samples them.
#[derive(Debug)]
pub struct TM1637Adapter<B: PinBackend> {
    /// The two GPIO lines and the bit delay.
    backend: B,
    /// The display state that the next write commits.
    brightness: ControlBits,
}

impl<B: PinBackend> View for TM1637Adapter<B> {
    type V = AdapterView;

    closed spec fn view(&self) -> AdapterView {
        AdapterView {
            display: self.brightness.display(),
            brightness: self.brightness.brightness(),
            trace: self.backend.trace(),
        }
    }
}

impl<C: Fn(GpioPinValue), D: Fn(GpioPinValue), R: Fn() -> GpioPinValue, W: Fn()> TM1637Adapter<
    FnBackend<C, D, R, W>,
> {
    /// Creates a new object to interact via GPIO with a TM1637.
    /// Drives both lines low, activates the display and sets the
    /// brightness to the highest value. Nothing is sent to the chip yet.
    ///
    /// * `pin_clock_write_fn` function to write bit to CLK pin
    /// * `pin_dio_write_fn` function to write bit to DIO pin
    /// * `pin_dio_read_fn` function to read value from DIO pin
    /// * `bit_delay_fn` function that is invoked after a bit has been
    ///                  written to a pin. It depends on your hardware and
    ///                  your GPIO driver. Sometimes no delay is even fine.
    ///
    /// Both pins must already be configured as outputs, and each function
    /// must accept every call.
    pub fn new(
        pin_clock_write_fn: C,
        pin_dio_write_fn: D,
        pin_dio_read_fn: R,
        bit_delay_fn: W,
    ) -> (adapter: Self)
        requires
            forall|level: GpioPinValue| call_requires(pin_clock_write_fn, (level,)),
            forall|level: GpioPinValue| call_requires(pin_dio_write_fn, (level,)),
            call_requires(pin_dio_read_fn, ()),
            call_requires(bit_delay_fn, ()),
        ensures
            adapter@ == (AdapterView {
                display: DisplayState::ON,
                brightness: Brightness::L7,
                trace: seq![
                    PinOp::WriteClock(GpioPinValue::LOW),
                    PinOp::WriteData(GpioPinValue::LOW),
                ],
            }),
    {
        let backend = FnBackend::new(
            pin_clock_write_fn,
            pin_dio_write_fn,
            pin_dio_read_fn,
            bit_delay_fn,
        );
        Self::with_backend(backend)
    }
}

impl<B: PinBackend> TM1637Adapter<B> {
    /// Creates a new adapter that talks to a TM1637 through `backend`.
    /// Drives both lines low, activates the display and sets the
    /// brightness to the highest value. Nothing is sent to the chip yet.
    ///
    /// Both lines must already be configured as outputs.
    pub fn with_backend(backend: B) -> (adapter: Self)
        ensures
            adapter@ == (AdapterView {
                display: DisplayState::ON,
                brightness: Brightness::L7,
                trace: backend.trace() + seq![
                    PinOp::WriteClock(GpioPinValue::LOW),
                    PinOp::WriteData(GpioPinValue::LOW),
                ],
            }),
    {
        let mut lines = backend;
        lines.write_clock(GpioPinValue::LOW);
        lines.write_data(GpioPinValue::LOW);
        let adapter = Self { backend: lines, brightness: ControlBits::new() };
        assert(adapter@.trace =~= backend.trace() + seq![
            PinOp::WriteClock(GpioPinValue::LOW),
            PinOp::WriteData(GpioPinValue::LOW),
        ]);
        adapter
    }

    /// The backend, to look at what it holds.
    pub fn backend(&self) -> (backend: &B)
        ensures
            backend.trace() == self@.trace,
    {
        &self.backend
    }

    /// Gives the backend back and ends the adapter.
    pub fn into_backend(self) -> (backend: B)
        ensures
            backend.trace() == self@.trace,
    {
        self.backend
    }

    /// Sets the display state. The display state is bit 3 of the
    /// "display control" command.
    /// This setting is not committed until a write operation has been made.
    pub fn set_display_state(&mut self, ds: DisplayState)
        ensures
            final(self)@ == old(self)@.with_display(ds),
    {
        self.brightness.set_display_state(ds);
    }

    /// Sets the brightness of the screen. The brightness are the lower
    /// 3 bits of the "display control" command.
    /// This setting is not committed until a write operation has been made.
    pub fn set_brightness(&mut self, brightness: Brightness)
        ensures
            final(self)@ == old(self)@.with_brightness(brightness),
    {
        self.brightness.set_brightness(brightness);
    }

    /// Writes all raw segments data beginning at the position into the
    /// display registers. The chip counts the address up by itself, so
    /// that each further byte goes into the next register.
    ///
    /// Not more than 6 registers can be written: bytes that would go past
    /// the last register are dropped. Writing nothing does nothing.
    /// Every write that sends data also commits the display state, since
    /// one who writes something expects the display to show it.
    ///
    /// * `segments` Raw data describing the bits of the 7 segment display.
    /// * `pos` The start position of the display register, taken modulo
    ///         6. Usually this is 0, if you want to write data to all 7
    ///         segment displays.
    pub fn write_segments_raw(&mut self, segments: &[u8], pos: u8)
        ensures
            final(self)@ == old(self)@.after(
                crate::protocol::write_segments_ops(
                    segments@,
                    pos,
                    old(self)@.display,
                    old(self)@.brightness,
                ),
            ),
            segments@.len() == 0 ==> final(self)@ == old(self)@,
    {
        let len: usize = segments.len();
        // being a little bit more failure tolerant
        if len == 0 {
            proof {
                self@.lemma_after_after(Seq::empty(), Seq::empty());
            }
            return ;
        }  // nothing to do
        // only valid positions/registers
        let first: u8 = pos % (DISPLAY_REGISTERS_COUNT as u8);

        // only write as much data as registers are available
        let room: usize = DISPLAY_REGISTERS_COUNT - first as usize;
        let n: usize = if len > room {
            room
        } else {
            len
        };

        // Command 1
        // for more information about this flow: see data sheet of the TM1637
        self.write_command(ISA::DataCommandWriteToDisplay.bits());

        // Command 2
        self.start();
        let address: u8 = ISA::AddressCommandD0.bits();
        assert(first < 6 ==> 0xC0u8 | first == 0xC0 + first) by (bit_vector);
        self.write_byte_and_wait_ack(address | first);

        // Write the data bytes
        // TM1637 does auto increment internally
        let ghost addressed = self@;
        let mut i: usize = 0;
        proof {
            assert(segments@.take(0) =~= Seq::<u8>::empty());
            addressed.lemma_after_after(Seq::empty(), Seq::empty());
        }
        while i < n
            invariant
                i <= n <= segments@.len(),
                self@ == addressed.after(crate::protocol::bytes_ops(segments@.take(i as int))),
            decreases n - i,
        {
            self.write_byte_and_wait_ack(segments[i]);
            proof {
                let sent = segments@.take(i as int);
                assert(segments@.take(i + 1) =~= sent.push(segments@[i as int]));
                crate::protocol::lemma_bytes_ops_push(sent, segments@[i as int]);
                addressed.lemma_after_after(
                    crate::protocol::bytes_ops(sent),
                    crate::protocol::byte_ops(segments@[i as int]),
                );
            }
            i += 1;
        }
        self.stop();

        // we do this every time because it will be a common flow that people
        // write something and expect the display to be on
        self.write_display_state();
        proof {
            let before = old(self)@;
            let data_command = crate::protocol::command_ops(
                ISA::DataCommandWriteToDisplay.spec_bits(),
            );
            let address_byte = crate::protocol::byte_ops(crate::commands::address_command(pos));
            let data_bytes = crate::protocol::bytes_ops(
                crate::protocol::written_segments(segments@, pos),
            );
            let control = crate::protocol::display_state_ops(before.display, before.brightness);
            assert(segments@.take(n as int) == crate::protocol::written_segments(segments@, pos));
            before.lemma_after_after(data_command, crate::protocol::start_ops());
            before.lemma_after_after(data_command + crate::protocol::start_ops(), address_byte);
            before.lemma_after_after(
                data_command + crate::protocol::start_ops() + address_byte,
                data_bytes,
            );
            before.lemma_after_after(
                data_command + crate::protocol::start_ops() + address_byte + data_bytes,
                crate::protocol::stop_ops(),
            );
            before.lemma_after_after(crate::protocol::data_ops(segments@, pos), control);
        }
    }

    /// Writes one raw segment byte to a specific position of the display.
    /// The position is taken modulo 6.
    pub fn write_segment_raw(&mut self, segments: u8, position: u8)
        ensures
            final(self)@ == old(self)@.after(
                crate::protocol::write_segments_ops(
                    seq![segments],
                    position,
                    old(self)@.display,
                    old(self)@.brightness,
                ),
            ),
    {
        let single: [u8; 1] = [segments];
        assert(single@ =~= seq![segments]);
        self.write_segments_raw(single.as_slice(), position)
    }

    /// Sends the command that sets the display state on the chip, without
    /// touching the segment data.
    pub fn write_display_state(&mut self)
        ensures
            final(self)@ == old(self)@.after(
                crate::protocol::display_state_ops(old(self)@.display, old(self)@.brightness),
            ),
    {
        let command: u8 = self.brightness.command();
        self.write_command(command);
    }

    /// Clears the display: begins at position 0 and writes 0 into the
    /// display registers 0 to 5.
    pub fn clear(&mut self)
        ensures
            final(self)@ == old(self)@.after(
                crate::protocol::write_segments_ops(
                    seq![0u8, 0u8, 0u8, 0u8, 0u8, 0u8],
                    0,
                    old(self)@.display,
                    old(self)@.brightness,
                ),
            ),
    {
        let blank: [u8; 6] = [0, 0, 0, 0, 0, 0];
        assert(blank@ =~= seq![0u8, 0u8, 0u8, 0u8, 0u8, 0u8]);
        self.write_segments_raw(blank.as_slice(), 0);
    }

    /// Sends one command byte in a transfer of its own.
    fn write_command(&mut self, command: u8)
        ensures
            final(self)@ == old(self)@.after(crate::protocol::command_ops(command)),
    {
        self.start();
        self.write_byte_and_wait_ack(command);
        self.stop();
        proof {
            let before = old(self)@;
            before.lemma_after_after(
                crate::protocol::start_ops(),
                crate::protocol::byte_ops(command),
            );
            before.lemma_after_after(
                crate::protocol::start_ops() + crate::protocol::byte_ops(command),
                crate::protocol::stop_ops(),
            );
        }
    }

    /// Waits for one bit delay, so that changed values on the pins are
    /// applied before the next change.
    #[inline]
    fn bit_delay(&mut self)
        ensures
            final(self)@ == old(self)@.after(seq![PinOp::Delay]),
    {
        self.backend.delay();
        assert(self@.trace =~= old(self)@.trace + seq![PinOp::Delay]);
    }

    /// This tells the TM1637 that data input starts: a transition from
    /// high to low on the data line while the clock is high.
    #[inline]
    fn start(&mut self)
        ensures
            final(self)@ == old(self)@.after(crate::protocol::start_ops()),
    {
        self.backend.write_data(GpioPinValue::HIGH);
        self.backend.write_clock(GpioPinValue::HIGH);
        self.bit_delay();
        self.backend.write_data(GpioPinValue::LOW);
        self.bit_delay();
        assert(self@.trace =~= old(self)@.trace + crate::protocol::start_ops());
    }

    /// This tells the TM1637 that data input stops: a transition from low
    /// to high on the data line while the clock is high.
    #[inline]
    fn stop(&mut self)
        ensures
            final(self)@ == old(self)@.after(crate::protocol::stop_ops()),
    {
        self.backend.write_data(GpioPinValue::LOW);
        self.backend.write_clock(GpioPinValue::HIGH);
        self.bit_delay();
        self.backend.write_data(GpioPinValue::HIGH);
        self.bit_delay();
        assert(self@.trace =~= old(self)@.trace + crate::protocol::stop_ops());
    }

    /// Receives one acknowledgment after a byte was sent. The chip should
    /// hold the data line low for one clock. A high level is tolerated:
    /// the driver gives the line a few cycles to settle and goes on.
    fn recv_ack(&mut self)
        ensures
            final(self)@ == old(self)@.after(crate::protocol::ack_ops()),
    {
        self.backend.write_clock(GpioPinValue::LOW);
        self.backend.write_data(GpioPinValue::LOW);
        self.bit_delay();
        self.backend.write_clock(GpioPinValue::HIGH);

        let ack: GpioPinValue = self.backend.read_data();

        // wait a few cycles for ACK to be more fail safe
        let mut cycle: u8 = 0;
        while cycle < ACK_SETTLE_CYCLES && ack == GpioPinValue::HIGH
            invariant
                cycle <= ACK_SETTLE_CYCLES,
            decreases ACK_SETTLE_CYCLES - cycle,
        {
            cycle += 1;
        }

        self.backend.write_clock(GpioPinValue::LOW);
        self.backend.write_data(GpioPinValue::LOW);
        self.bit_delay();
        assert(self@.trace =~= old(self)@.trace + crate::protocol::ack_ops());
    }

    /// Writes a byte bit by bit and waits for the acknowledge.
    fn write_byte_and_wait_ack(&mut self, byte: u8)
        ensures
            final(self)@ == old(self)@.after(crate::protocol::byte_ops(byte)),
    {
        let mut data: u8 = byte;

        // 8 bits
        let mut i: u8 = 0;
        assert(byte >> 0u8 == byte) by (bit_vector);
        while i < 8
            invariant
                i <= 8,
                data == byte >> i,
                self@ == old(self)@.after(crate::protocol::data_bits_ops(byte, i as nat)),
            decreases 8 - i,
        {
            let ghost before = self@;
            // CLK low
            self.backend.write_clock(GpioPinValue::LOW);
            // Set data bit (we send one bit of our byte per iteration)
            // LSF (least significant bit) first
            // => target device uses a shift register => this way the byte has the
            //    correct order on the target
            self.backend.write_data(GpioPinValue::from(data & 0x01));
            self.bit_delay();

            // CLK high
            self.backend.write_clock(GpioPinValue::HIGH);
            self.bit_delay();

            assert(self@.trace =~= before.trace + crate::protocol::bit_ops(
                crate::protocol::bit_level(byte, i as nat),
            ));
            assert((byte >> i) >> 1u8 == byte >> ((i + 1) as u8)) by (bit_vector)
                requires
                    i < 8,
            ;
            // shift to next bit
            data >>= 1;
            i += 1;
            assert(self@.trace =~= old(self)@.trace + crate::protocol::data_bits_ops(
                byte,
                i as nat,
            ));
        }

        self.recv_ack();
        assert(self@.trace =~= old(self)@.trace + crate::protocol::byte_ops(byte));
    }
}

} // verus!

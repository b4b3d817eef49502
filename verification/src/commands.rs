//! The command bytes of the TM1637 and the display state they carry.

use vstd::prelude::*;

verus! {

/// According to the data sheet the TM1637 can address 6 display registers.
/// Note that not all devices using it do as well: a four-digit display
/// only uses 4.
pub const DISPLAY_REGISTERS_COUNT: usize = 6;

/// The level of brightness.
/// The "display control" command transports it in bits 0 to 2.
#[derive(Clone, Copy, Debug, PartialEq, Eq, Structural)]
pub enum Brightness {
    /// Brightness level 0. Lowest brightness.
    L0,
    /// Brightness level 1.
    L1,
    /// Brightness level 2.
    L2,
    /// Brightness level 3.
    L3,
    /// Brightness level 4.
    L4,
    /// Brightness level 5.
    L5,
    /// Brightness level 6.
    L6,
    /// Brightness level 7. Highest brightness.
    L7,
}

impl Brightness {
    /// The level as the chip counts it, 0 to 7.
    pub open spec fn spec_bits(self) -> u8 {
        match self {
            Brightness::L0 => 0,
            Brightness::L1 => 1,
            Brightness::L2 => 2,
            Brightness::L3 => 3,
            Brightness::L4 => 4,
            Brightness::L5 => 5,
            Brightness::L6 => 6,
            Brightness::L7 => 7,
        }
    }

    /// The level as the chip counts it, 0 to 7.
    #[verifier::when_used_as_spec(spec_bits)]
    pub fn bits(self) -> (b: u8)
        ensures
            b == self.spec_bits(),
    {
        match self {
            Brightness::L0 => 0b000,
            Brightness::L1 => 0b001,
            Brightness::L2 => 0b010,
            Brightness::L3 => 0b011,
            Brightness::L4 => 0b100,
            Brightness::L5 => 0b101,
            Brightness::L6 => 0b110,
            Brightness::L7 => 0b111,
        }
    }

    /// The brightness with the given level; levels above 7 are taken
    /// modulo 8.
    pub open spec fn of_level(level: int) -> Brightness {
        let l = level % 8;
        if l == 0 {
            Brightness::L0
        } else if l == 1 {
            Brightness::L1
        } else if l == 2 {
            Brightness::L2
        } else if l == 3 {
            Brightness::L3
        } else if l == 4 {
            Brightness::L4
        } else if l == 5 {
            Brightness::L5
        } else if l == 6 {
            Brightness::L6
        } else {
            Brightness::L7
        }
    }
}

/// Whether the display is on or off.
/// The "display control" command transports it in bit 3.
#[derive(Clone, Copy, Debug, PartialEq, Eq, Structural)]
pub enum DisplayState {
    /// Display off.
    OFF,
    /// Display on.
    ON,
}

impl DisplayState {
    /// Bit 3 for `ON`, nothing for `OFF`.
    pub open spec fn spec_bits(self) -> u8 {
        match self {
            DisplayState::OFF => 0,
            DisplayState::ON => 8,
        }
    }

    /// Bit 3 for `ON`, nothing for `OFF`.
    #[verifier::when_used_as_spec(spec_bits)]
    pub fn bits(self) -> (b: u8)
        ensures
            b == self.spec_bits(),
    {
        match self {
            DisplayState::OFF => 0b0000,
            DisplayState::ON => 0b1000,
        }
    }
}

/// The commands of the TM1637. See the data sheet for more information.
/// This is only a subset of the possible values.
#[derive(Clone, Copy, Debug, PartialEq, Eq, Structural)]
pub enum ISA {
    /// Start instruction. "write data to display register" mode with
    /// automatic address increment.
    DataCommandWriteToDisplay,
    /// Starts at display address zero. Each further byte that is sent will
    /// go into the next display address: the chip increments the address
    /// by itself.
    AddressCommandD0,
    /// Like [`Self::AddressCommandD0`] but starts at display 1.
    AddressCommandD1,
    /// Like [`Self::AddressCommandD0`] but starts at display 2.
    AddressCommandD2,
    /// Like [`Self::AddressCommandD0`] but starts at display 3.
    AddressCommandD3,
    /// Base command for display control. It is combined with the bits of
    /// [`Brightness`] and [`DisplayState`]; alone it turns the display off.
    DisplayCommandBase,
}

impl ISA {
    /// The command byte.
    pub open spec fn spec_bits(self) -> u8 {
        match self {
            ISA::DataCommandWriteToDisplay => 0b0100_0000,
            ISA::AddressCommandD0 => 0b1100_0000,
            ISA::AddressCommandD1 => 0b1100_0001,
            ISA::AddressCommandD2 => 0b1100_0010,
            ISA::AddressCommandD3 => 0b1100_0011,
            ISA::DisplayCommandBase => 0b1000_0000,
        }
    }

    /// The command byte.
    #[verifier::when_used_as_spec(spec_bits)]
    pub fn bits(self) -> (b: u8)
        ensures
            b == self.spec_bits(),
    {
        match self {
            ISA::DataCommandWriteToDisplay => 0b0100_0000,
            ISA::AddressCommandD0 => 0b1100_0000,
            ISA::AddressCommandD1 => 0b1100_0001,
            ISA::AddressCommandD2 => 0b1100_0010,
            ISA::AddressCommandD3 => 0b1100_0011,
            ISA::DisplayCommandBase => 0b1000_0000,
        }
    }
}

/// The display state as the driver keeps it in one byte: the on/off bit
/// in bit 3, the brightness level in bits 0 to 2, bits 4 to 7 zero.
pub open spec fn pack_state(display: DisplayState, brightness: Brightness) -> u8 {
    (display.spec_bits() + brightness.spec_bits()) as u8
}

/// The on/off state that a packed state byte holds.
pub open spec fn display_of(state: u8) -> DisplayState {
    if state % 16 >= 8 {
        DisplayState::ON
    } else {
        DisplayState::OFF
    }
}

/// The brightness that a packed state byte holds.
pub open spec fn brightness_of(state: u8) -> Brightness {
    Brightness::of_level(state as int)
}

/// The register that a write at `pos` starts at: positions wrap around
/// after the last register.
pub open spec fn first_register(pos: u8) -> u8 {
    pos % 6
}

/// The "set address" command that makes the next data byte go to the
/// register `first_register(pos)`.
pub open spec fn address_command(pos: u8) -> u8 {
    (ISA::AddressCommandD0.spec_bits() + first_register(pos)) as u8
}

/// The "display control" command for the given state.
pub open spec fn display_command(display: DisplayState, brightness: Brightness) -> u8 {
    (ISA::DisplayCommandBase.spec_bits() + pack_state(display, brightness)) as u8
}

/// Packing a state and unpacking the byte gives the state back, and the
/// byte uses the low four bits only.
pub proof fn lemma_unpack_pack(display: DisplayState, brightness: Brightness)
    ensures
        pack_state(display, brightness) < 16,
        display_of(pack_state(display, brightness)) == display,
        brightness_of(pack_state(display, brightness)) == brightness,
{
}

/// A byte that uses the low four bits only is the packed form of the
/// state it holds.
pub proof fn lemma_pack_unpack(state: u8)
    requires
        state < 16,
    ensures
        pack_state(display_of(state), brightness_of(state)) == state,
{
}

} // verus!

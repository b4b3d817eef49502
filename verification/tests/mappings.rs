use tm1637_gpio_driver::mappings::{LoCharBits, NumCharBits, SegmentBits, SpecialCharBits, UpCharBits};
use tm1637_gpio_driver::{Brightness, DisplayState, GpioPinValue, DISPLAY_REGISTERS_COUNT, ISA};

#[test]
fn segment_bits() {
    assert_eq!(SegmentBits::SegA.bits(), 0b0000_0001);
    assert_eq!(SegmentBits::SegB.bits(), 0b0000_0010);
    assert_eq!(SegmentBits::SegC.bits(), 0b0000_0100);
    assert_eq!(SegmentBits::SegD.bits(), 0b0000_1000);
    assert_eq!(SegmentBits::SegE.bits(), 0b0001_0000);
    assert_eq!(SegmentBits::SegF.bits(), 0b0010_0000);
    assert_eq!(SegmentBits::SegG.bits(), 0b0100_0000);
    assert_eq!(SegmentBits::SegPoint.bits(), 0b1000_0000);
}

#[test]
fn num_char_bits() {
    assert_eq!(NumCharBits::Zero.bits(), 0b0011_1111);
    assert_eq!(NumCharBits::One.bits(), 0b0000_0110);
    assert_eq!(NumCharBits::Two.bits(), 0b0101_1011);
    assert_eq!(NumCharBits::Three.bits(), 0b0100_1111);
    assert_eq!(NumCharBits::Four.bits(), 0b0110_0110);
    assert_eq!(NumCharBits::Five.bits(), 0b0110_1101);
    assert_eq!(NumCharBits::Six.bits(), 0b0111_1101);
    assert_eq!(NumCharBits::Seven.bits(), 0b0000_0111);
    assert_eq!(NumCharBits::Eight.bits(), 0b0111_1111);
    assert_eq!(NumCharBits::Nine.bits(), 0b0110_1111);
}

#[test]
fn up_char_bits() {
    assert_eq!(UpCharBits::UpA.bits(), 0x77);
    assert_eq!(UpCharBits::UpC.bits(), 0x39);
    assert_eq!(UpCharBits::UpE.bits(), 0x79);
    assert_eq!(
        UpCharBits::UpF.bits(),
        SegmentBits::SegA.bits() | SegmentBits::SegF.bits() | SegmentBits::SegE.bits() | SegmentBits::SegG.bits()
    );
    assert_eq!(UpCharBits::UpF.bits(), 0x71);
    assert_eq!(UpCharBits::UpG.bits(), 0x3D);
    assert_eq!(UpCharBits::UpH.bits(), 0x76);
    assert_eq!(UpCharBits::UpI.bits(), 0x30);
    assert_eq!(UpCharBits::UpJ.bits(), 0x1E);
    assert_eq!(UpCharBits::UpL.bits(), 0x38);
    assert_eq!(UpCharBits::UpO.bits(), 0x3F);
    assert_eq!(UpCharBits::UpP.bits(), 0x73);
    assert_eq!(UpCharBits::UpS.bits(), 0x6D);
    assert_eq!(UpCharBits::UpU.bits(), 0x3E);
}

#[test]
fn lo_char_bits() {
    assert_eq!(LoCharBits::LoA.bits(), 0x5F);
    assert_eq!(LoCharBits::LoB.bits(), 0x7C);
    assert_eq!(LoCharBits::LoC.bits(), 0x58);
    assert_eq!(LoCharBits::LoD.bits(), 0x5E);
    assert_eq!(LoCharBits::LoH.bits(), 0x74);
    assert_eq!(LoCharBits::LoN.bits(), 0x54);
    assert_eq!(LoCharBits::LoO.bits(), 0x5C);
    assert_eq!(LoCharBits::LoQ.bits(), 0x67);
    assert_eq!(LoCharBits::LoR.bits(), 0x50);
    assert_eq!(LoCharBits::LoT.bits(), 0x78);
    assert_eq!(LoCharBits::LoU.bits(), 0x1C);
    assert_eq!(LoCharBits::LoY.bits(), 0x6E);
}

#[test]
fn special_char_bits() {
    assert_eq!(SpecialCharBits::Space.bits(), 0);
    assert_eq!(SpecialCharBits::Minus.bits(), SegmentBits::SegG.bits());
    assert_eq!(SpecialCharBits::Underscore.bits(), SegmentBits::SegD.bits());
    assert_eq!(SpecialCharBits::Equals.bits(), SegmentBits::SegG.bits() | SegmentBits::SegD.bits());
    assert_eq!(
        SpecialCharBits::QuestionMark.bits(),
        SegmentBits::SegA.bits() | SegmentBits::SegB.bits() | SegmentBits::SegG.bits() | SegmentBits::SegE.bits()
    );
    assert_eq!(SpecialCharBits::QuestionMark.bits(), 0x53);
    assert_eq!(SpecialCharBits::Equals.bits(), 0x48);
    assert_eq!(SpecialCharBits::Dot.bits(), SegmentBits::SegPoint.bits());
}

#[test]
fn brightness_bits() {
    assert_eq!(Brightness::L0.bits(), 0b000);
    assert_eq!(Brightness::L1.bits(), 0b001);
    assert_eq!(Brightness::L2.bits(), 0b010);
    assert_eq!(Brightness::L3.bits(), 0b011);
    assert_eq!(Brightness::L4.bits(), 0b100);
    assert_eq!(Brightness::L5.bits(), 0b101);
    assert_eq!(Brightness::L6.bits(), 0b110);
    assert_eq!(Brightness::L7.bits(), 0b111);
}

#[test]
fn display_state_bits() {
    assert_eq!(DisplayState::OFF.bits(), 0b0000);
    assert_eq!(DisplayState::ON.bits(), 0b1000);
}

#[test]
fn isa_bits() {
    assert_eq!(ISA::DataCommandWriteToDisplay.bits(), 0b0100_0000);
    assert_eq!(ISA::AddressCommandD0.bits(), 0b1100_0000);
    assert_eq!(ISA::AddressCommandD1.bits(), 0b1100_0001);
    assert_eq!(ISA::AddressCommandD2.bits(), 0b1100_0010);
    assert_eq!(ISA::AddressCommandD3.bits(), 0b1100_0011);
    assert_eq!(ISA::DisplayCommandBase.bits(), 0b1000_0000);
}

#[test]
fn register_count() {
    assert_eq!(DISPLAY_REGISTERS_COUNT, 6);
}

#[test]
fn pin_value_from_number() {
    assert_eq!(GpioPinValue::from(0), GpioPinValue::LOW);
    assert_eq!(GpioPinValue::from(1), GpioPinValue::HIGH);
    assert_eq!(GpioPinValue::from(2), GpioPinValue::HIGH);
    assert_eq!(GpioPinValue::from(255), GpioPinValue::HIGH);
}

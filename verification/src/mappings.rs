//! Mappings from symbols to their bit representation on a 7-segment display.
//!
//! ```text
//!       A
//!      ---
//!  F  |   |  B
//!      -G-
//!  E  |   |  C
//!      ---
//!       D
//! ```
//!
//! A segment byte holds segment A in bit 0 up to segment G in bit 6; bit 7
//! is the point. The variants carry no discriminant of their own: the byte
//! of a variant is what `bits` returns.

use vstd::prelude::*;

verus! {

/// Maps a segment of the device to its bit.
#[derive(Clone, Copy, Debug, PartialEq, Eq, Structural)]
pub enum SegmentBits {
    /// A segment
    SegA,
    /// B segment
    SegB,
    /// C segment
    SegC,
    /// D segment
    SegD,
    /// E segment
    SegE,
    /// F segment
    SegF,
    /// G segment
    SegG,
    /// Point; on four-digit clock displays the double point in the middle.
    SegPoint,
}

impl SegmentBits {
    /// The byte in which only this segment is lit.
    pub open spec fn spec_bits(self) -> u8 {
        match self {
            SegmentBits::SegA => 0b0000_0001,
            SegmentBits::SegB => 0b0000_0010,
            SegmentBits::SegC => 0b0000_0100,
            SegmentBits::SegD => 0b0000_1000,
            SegmentBits::SegE => 0b0001_0000,
            SegmentBits::SegF => 0b0010_0000,
            SegmentBits::SegG => 0b0100_0000,
            SegmentBits::SegPoint => 0b1000_0000,
        }
    }

    /// The byte in which only this segment is lit.
    #[verifier::when_used_as_spec(spec_bits)]
    pub fn bits(self) -> (b: u8)
        ensures
            b == self.spec_bits(),
    {
        match self {
            SegmentBits::SegA => 0b0000_0001,
            SegmentBits::SegB => 0b0000_0010,
            SegmentBits::SegC => 0b0000_0100,
            SegmentBits::SegD => 0b0000_1000,
            SegmentBits::SegE => 0b0001_0000,
            SegmentBits::SegF => 0b0010_0000,
            SegmentBits::SegG => 0b0100_0000,
            SegmentBits::SegPoint => 0b1000_0000,
        }
    }
}

/// Whether a segment byte lights the given segment.
pub open spec fn lights(bits: u8, segment: SegmentBits) -> bool {
    bits & segment.spec_bits() != 0
}

/// Maps a digit to its closest possible representation on a 7-segment display.
#[derive(Clone, Copy, Debug, PartialEq, Eq, Structural)]
pub enum NumCharBits {
    /// 0
    Zero,
    /// 1
    One,
    /// 2
    Two,
    /// 3
    Three,
    /// 4
    Four,
    /// 5
    Five,
    /// 6
    Six,
    /// 7
    Seven,
    /// 8
    Eight,
    /// 9
    Nine,
}

impl NumCharBits {
    /// The segment byte that renders this digit.
    pub open spec fn spec_bits(self) -> u8 {
        match self {
            NumCharBits::Zero => 0b0011_1111,
            NumCharBits::One => 0b0000_0110,
            NumCharBits::Two => 0b0101_1011,
            NumCharBits::Three => 0b0100_1111,
            NumCharBits::Four => 0b0110_0110,
            NumCharBits::Five => 0b0110_1101,
            NumCharBits::Six => 0b0111_1101,
            NumCharBits::Seven => 0b0000_0111,
            NumCharBits::Eight => 0b0111_1111,
            NumCharBits::Nine => 0b0110_1111,
        }
    }

    /// The segment byte that renders this digit.
    #[verifier::when_used_as_spec(spec_bits)]
    pub fn bits(self) -> (b: u8)
        ensures
            b == self.spec_bits(),
    {
        match self {
            NumCharBits::Zero => 0b0011_1111,
            NumCharBits::One => 0b0000_0110,
            NumCharBits::Two => 0b0101_1011,
            NumCharBits::Three => 0b0100_1111,
            NumCharBits::Four => 0b0110_0110,
            NumCharBits::Five => 0b0110_1101,
            NumCharBits::Six => 0b0111_1101,
            NumCharBits::Seven => 0b0000_0111,
            NumCharBits::Eight => 0b0111_1111,
            NumCharBits::Nine => 0b0110_1111,
        }
    }
}

/// Maps an uppercase letter to its closest possible representation on a
/// 7-segment display.
#[derive(Clone, Copy, Debug, PartialEq, Eq, Structural)]
pub enum UpCharBits {
    /// Uppercase A
    UpA,
    /// Uppercase C
    UpC,
    /// Uppercase E
    UpE,
    /// Uppercase F
    UpF,
    /// Uppercase G
    UpG,
    /// Uppercase H
    UpH,
    /// Uppercase I
    UpI,
    /// Uppercase J
    UpJ,
    /// Uppercase L
    UpL,
    /// Uppercase O
    UpO,
    /// Uppercase P
    UpP,
    /// Uppercase S
    UpS,
    /// Uppercase U
    UpU,
}

impl UpCharBits {
    /// The segment byte that renders this letter.
    pub open spec fn spec_bits(self) -> u8 {
        match self {
            UpCharBits::UpA => 0x77,
            UpCharBits::UpC => 0x39,
            UpCharBits::UpE => 0x79,
            // segments A, E, F and G
            UpCharBits::UpF => 0x71,
            UpCharBits::UpG => 0x3D,
            UpCharBits::UpH => 0x76,
            UpCharBits::UpI => 0x30,
            UpCharBits::UpJ => 0x1E,
            UpCharBits::UpL => 0x38,
            UpCharBits::UpO => 0x3F,
            UpCharBits::UpP => 0x73,
            UpCharBits::UpS => 0x6D,
            UpCharBits::UpU => 0x3E,
        }
    }

    /// The segment byte that renders this letter.
    #[verifier::when_used_as_spec(spec_bits)]
    pub fn bits(self) -> (b: u8)
        ensures
            b == self.spec_bits(),
    {
        match self {
            UpCharBits::UpA => 0x77,
            UpCharBits::UpC => 0x39,
            UpCharBits::UpE => 0x79,
            UpCharBits::UpF => {
                let a: u8 = SegmentBits::SegA.bits();
                let f: u8 = SegmentBits::SegF.bits();
                let e: u8 = SegmentBits::SegE.bits();
                let g: u8 = SegmentBits::SegG.bits();
                assert(0x01u8 | 0x20u8 | 0x10u8 | 0x40u8 == 0x71u8) by (bit_vector);
                a | f | e | g
            },
            UpCharBits::UpG => 0x3D,
            UpCharBits::UpH => 0x76,
            UpCharBits::UpI => 0x30,
            UpCharBits::UpJ => 0x1E,
            UpCharBits::UpL => 0x38,
            UpCharBits::UpO => 0x3F,
            UpCharBits::UpP => 0x73,
            UpCharBits::UpS => 0x6D,
            UpCharBits::UpU => 0x3E,
        }
    }
}

/// Maps a lowercase letter to its closest possible representation on a
/// 7-segment display.
#[derive(Clone, Copy, Debug, PartialEq, Eq, Structural)]
pub enum LoCharBits {
    /// Lowercase A
    LoA,
    /// Lowercase B
    LoB,
    /// Lowercase C
    LoC,
    /// Lowercase D
    LoD,
    /// Lowercase H
    LoH,
    /// Lowercase N
    LoN,
    /// Lowercase O
    LoO,
    /// Lowercase Q
    LoQ,
    /// Lowercase R
    LoR,
    /// Lowercase T
    LoT,
    /// Lowercase U
    LoU,
    /// Lowercase Y
    LoY,
}

impl LoCharBits {
    /// The segment byte that renders this letter.
    pub open spec fn spec_bits(self) -> u8 {
        match self {
            LoCharBits::LoA => 0x5F,
            LoCharBits::LoB => 0x7C,
            LoCharBits::LoC => 0x58,
            LoCharBits::LoD => 0x5E,
            LoCharBits::LoH => 0x74,
            LoCharBits::LoN => 0x54,
            LoCharBits::LoO => 0x5C,
            LoCharBits::LoQ => 0x67,
            LoCharBits::LoR => 0x50,
            LoCharBits::LoT => 0x78,
            LoCharBits::LoU => 0x1C,
            LoCharBits::LoY => 0x6E,
        }
    }

    /// The segment byte that renders this letter.
    #[verifier::when_used_as_spec(spec_bits)]
    pub fn bits(self) -> (b: u8)
        ensures
            b == self.spec_bits(),
    {
        match self {
            LoCharBits::LoA => 0x5F,
            LoCharBits::LoB => 0x7C,
            LoCharBits::LoC => 0x58,
            LoCharBits::LoD => 0x5E,
            LoCharBits::LoH => 0x74,
            LoCharBits::LoN => 0x54,
            LoCharBits::LoO => 0x5C,
            LoCharBits::LoQ => 0x67,
            LoCharBits::LoR => 0x50,
            LoCharBits::LoT => 0x78,
            LoCharBits::LoU => 0x1C,
            LoCharBits::LoY => 0x6E,
        }
    }
}

/// Maps a symbol to its closest possible representation on a 7-segment
/// display. The 8th segment is the dot.
#[derive(Clone, Copy, Debug, PartialEq, Eq, Structural)]
pub enum SpecialCharBits {
    /// Space symbol.
    Space,
    /// Minus or dash symbol.
    Minus,
    /// Underscore (_).
    Underscore,
    /// Equal sign (=).
    Equals,
    /// Question mark (?).
    QuestionMark,
    /// Dot (.).
    Dot,
}

impl SpecialCharBits {
    /// The segment byte that renders this symbol.
    pub open spec fn spec_bits(self) -> u8 {
        match self {
            SpecialCharBits::Space => 0x00,
            // segment G
            SpecialCharBits::Minus => 0x40,
            // segment D
            SpecialCharBits::Underscore => 0x08,
            // segments D and G
            SpecialCharBits::Equals => 0x48,
            // segments A, B, E and G
            SpecialCharBits::QuestionMark => 0x53,
            // the point
            SpecialCharBits::Dot => 0x80,
        }
    }

    /// The segment byte that renders this symbol.
    #[verifier::when_used_as_spec(spec_bits)]
    pub fn bits(self) -> (b: u8)
        ensures
            b == self.spec_bits(),
    {
        match self {
            SpecialCharBits::Space => 0,
            SpecialCharBits::Minus => SegmentBits::SegG.bits(),
            SpecialCharBits::Underscore => SegmentBits::SegD.bits(),
            SpecialCharBits::Equals => {
                let g: u8 = SegmentBits::SegG.bits();
                let d: u8 = SegmentBits::SegD.bits();
                assert(0x40u8 | 0x08u8 == 0x48u8) by (bit_vector);
                g | d
            },
            SpecialCharBits::QuestionMark => {
                let a: u8 = SegmentBits::SegA.bits();
                let b: u8 = SegmentBits::SegB.bits();
                let g: u8 = SegmentBits::SegG.bits();
                let e: u8 = SegmentBits::SegE.bits();
                assert(0x01u8 | 0x02u8 | 0x40u8 | 0x10u8 == 0x53u8) by (bit_vector);
                a | b | g | e
            },
            SpecialCharBits::Dot => SegmentBits::SegPoint.bits(),
        }
    }
}

} // verus!

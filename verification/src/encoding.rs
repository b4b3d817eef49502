//! Encoding of digits, numbers and text as segment bytes.
//!
//! The encoding is total: whatever cannot be shown comes out blank, and
//! numbers that are too large wrap around.

use vstd::prelude::*;
use crate::adapter::TM1637Adapter;
use crate::gpio_api::dummy::DummyBackend;
use crate::mappings::LoCharBits;
use crate::mappings::NumCharBits;
use crate::mappings::SegmentBits;
use crate::mappings::SpecialCharBits;
use crate::mappings::UpCharBits;

verus! {

/// The segment byte of the decimal digit `d % 10`.
pub open spec fn digit_segments(d: nat) -> u8 {
    let digit = d % 10;
    if digit == 0 {
        NumCharBits::Zero.spec_bits()
    } else if digit == 1 {
        NumCharBits::One.spec_bits()
    } else if digit == 2 {
        NumCharBits::Two.spec_bits()
    } else if digit == 3 {
        NumCharBits::Three.spec_bits()
    } else if digit == 4 {
        NumCharBits::Four.spec_bits()
    } else if digit == 5 {
        NumCharBits::Five.spec_bits()
    } else if digit == 6 {
        NumCharBits::Six.spec_bits()
    } else if digit == 7 {
        NumCharBits::Seven.spec_bits()
    } else if digit == 8 {
        NumCharBits::Eight.spec_bits()
    } else {
        NumCharBits::Nine.spec_bits()
    }
}

/// The four segment bytes of `n % 10000` in decimal, most significant
/// digit first, leading zeros included.
pub open spec fn number_segments(n: nat) -> Seq<u8> {
    let m = n % 10000;
    seq![
        digit_segments(m / 1000),
        digit_segments((m / 100) % 10),
        digit_segments((m / 10) % 10),
        digit_segments(m % 10),
    ]
}

/// Whether the display has a rendering of its own for the character:
/// the digits, the letters it can form in one case or the other, and a
/// few symbols.
pub open spec fn is_displayable(c: char) -> bool {
    ||| '0' <= c <= '9'
    ||| 'A' <= c <= 'J'
    ||| 'a' <= c <= 'j'
    ||| c == 'L' || c == 'l'
    ||| 'N' <= c <= 'U'
    ||| 'n' <= c <= 'u'
    ||| c == 'Y' || c == 'y'
    ||| c == ' ' || c == '?' || c == '-' || c == '_' || c == '=' || c == '.'
}

/// The segment byte of a character. Digits render as digits. A letter
/// renders in its own case where the display can form it, else in the
/// other case. Whatever has no rendering is blank.
pub open spec fn char_segments(c: char) -> u8 {
    if '0' <= c <= '9' {
        digit_segments((c as nat - '0' as nat) as nat)
    } else {
        match c {
            'A' => UpCharBits::UpA.spec_bits(),
            'a' => LoCharBits::LoA.spec_bits(),
            'B' | 'b' => LoCharBits::LoB.spec_bits(),
            'C' | 'c' => UpCharBits::UpC.spec_bits(),
            'D' | 'd' => LoCharBits::LoD.spec_bits(),
            'E' | 'e' => UpCharBits::UpE.spec_bits(),
            'F' | 'f' => UpCharBits::UpF.spec_bits(),
            'G' | 'g' => UpCharBits::UpG.spec_bits(),
            'H' => UpCharBits::UpH.spec_bits(),
            'h' => LoCharBits::LoH.spec_bits(),
            'I' | 'i' => UpCharBits::UpI.spec_bits(),
            'J' | 'j' => UpCharBits::UpJ.spec_bits(),
            'L' | 'l' => UpCharBits::UpL.spec_bits(),
            'N' | 'n' => LoCharBits::LoN.spec_bits(),
            'O' => UpCharBits::UpO.spec_bits(),
            'o' => LoCharBits::LoO.spec_bits(),
            'P' | 'p' => UpCharBits::UpP.spec_bits(),
            'Q' | 'q' => LoCharBits::LoQ.spec_bits(),
            'R' | 'r' => LoCharBits::LoR.spec_bits(),
            'S' | 's' => UpCharBits::UpS.spec_bits(),
            'T' | 't' => LoCharBits::LoT.spec_bits(),
            'U' => UpCharBits::UpU.spec_bits(),
            'u' => LoCharBits::LoU.spec_bits(),
            'Y' | 'y' => LoCharBits::LoY.spec_bits(),
            '?' => SpecialCharBits::QuestionMark.spec_bits(),
            '-' => SpecialCharBits::Minus.spec_bits(),
            '_' => SpecialCharBits::Underscore.spec_bits(),
            '=' => SpecialCharBits::Equals.spec_bits(),
            '.' => SpecialCharBits::Dot.spec_bits(),
            _ => SpecialCharBits::Space.spec_bits(),
        }
    }
}

/// The segment bytes of a text: one byte for each character, in the
/// order of the text.
pub open spec fn string_segments(text: Seq<char>) -> Seq<u8> {
    Seq::new(text.len(), |i: int| char_segments(text[i]))
}

/// Two numbers render as the same digit exactly if they agree modulo 10:
/// each of the ten digits has a pattern of its own.
pub proof fn lemma_digit_patterns_distinct(a: nat, b: nat)
    ensures
        digit_segments(a) == digit_segments(b) <==> a % 10 == b % 10,
{
}

/// The digit patterns repeat with period 10.
pub proof fn lemma_digit_wraps(d: nat, k: nat)
    ensures
        digit_segments(d + 10 * k) == digit_segments(d),
{
    assert((d + 10 * k) % 10 == d % 10) by (nonlinear_arith);
}

/// No digit pattern lights the point: it uses the seven segments only.
pub proof fn lemma_digit_has_no_point(d: nat)
    ensures
        !crate::mappings::lights(digit_segments(d), SegmentBits::SegPoint),
        digit_segments(d) < 0x80,
{
    let bits = digit_segments(d);
    assert(bits < 0x80 ==> bits & 0x80 == 0) by (bit_vector);
}

/// The number patterns repeat with period 10000.
pub proof fn lemma_number_wraps(n: nat, k: nat)
    ensures
        number_segments(n + 10000 * k) == number_segments(n),
{
    assert((n + 10000 * k) % 10000 == n % 10000) by (nonlinear_arith);
}

/// A character that the display has no rendering for comes out as a
/// space, and a space is blank.
pub proof fn lemma_undisplayable_is_blank(c: char)
    requires
        !is_displayable(c),
    ensures
        char_segments(c) == char_segments(' '),
        char_segments(' ') == 0,
{
}

/// The encoders need no backend. They stand on the adapter over the dummy
/// backend, so that `TM1637Adapter::encode_digit` names them without a
/// backend type.
impl TM1637Adapter<DummyBackend> {
    /// Encodes a number/digit from 0 to 9 to its bit representation on the
    /// display. This is not the char (ASCII) representation. It's a
    /// number/integer. Larger numbers are taken modulo 10.
    pub fn encode_digit(digit: u8) -> (bits: u8)
        ensures
            bits == digit_segments(digit as nat),
            !crate::mappings::lights(bits, SegmentBits::SegPoint),
    {
        proof {
            lemma_digit_has_no_point(digit as nat);
        }
        let digit: u8 = digit % 10;
        if digit == 0 {
            NumCharBits::Zero.bits()
        } else if digit == 1 {
            NumCharBits::One.bits()
        } else if digit == 2 {
            NumCharBits::Two.bits()
        } else if digit == 3 {
            NumCharBits::Three.bits()
        } else if digit == 4 {
            NumCharBits::Four.bits()
        } else if digit == 5 {
            NumCharBits::Five.bits()
        } else if digit == 6 {
            NumCharBits::Six.bits()
        } else if digit == 7 {
            NumCharBits::Seven.bits()
        } else if digit == 8 {
            NumCharBits::Eight.bits()
        } else {
            NumCharBits::Nine.bits()
        }
    }

    /// Encodes a number from 0 to 9999 for the display: four digits, the
    /// most significant one first, with leading zeros. Larger numbers are
    /// taken modulo 10000.
    pub fn encode_number(num: u16) -> (bits: [u8; 4])
        ensures
            bits@ == number_segments(num as nat),
            num <= 9999 ==> bits@ == seq![
                digit_segments(num as nat / 1000),
                digit_segments((num as nat / 100) % 10),
                digit_segments((num as nat / 10) % 10),
                digit_segments(num as nat % 10),
            ],
    {
        let mut num: u16 = num % 10000;
        let ghost m: nat = num as nat;
        let mut bits: [u8; 4] = [0;4];
        let mut i: usize = 0;
        while i < 4
            invariant
                i <= 4,
                m < 10000,
                i == 0 ==> num == m,
                i == 1 ==> num == m / 10,
                i == 2 ==> num == m / 100,
                i == 3 ==> num == m / 1000,
                i >= 1 ==> bits@[3] == digit_segments(m % 10),
                i >= 2 ==> bits@[2] == digit_segments((m / 10) % 10),
                i >= 3 ==> bits@[1] == digit_segments((m / 100) % 10),
                i >= 4 ==> bits@[0] == digit_segments(m / 1000),
            decreases 4 - i,
        {
            let digit: u8 = (num % 10) as u8;
            bits[3 - i] = Self::encode_digit(digit);
            num /= 10;
            i += 1;
        }
        assert(bits@ =~= number_segments(m));
        bits
    }

    /// Encodes a char for the 7-segment display. Unknown chars will be a
    /// zero byte (space). Since there is no representation for every char
    /// in each case (lower, upper), a lowercase char may be replaced by its
    /// uppercase counterpart and vice versa.
    pub fn encode_char(c: char) -> (bits: u8)
        ensures
            bits == char_segments(c),
            !is_displayable(c) ==> bits == char_segments(' '),
    {
        // nums
        if c == '0' {
            NumCharBits::Zero.bits()
        } else if c == '1' {
            NumCharBits::One.bits()
        } else if c == '2' {
            NumCharBits::Two.bits()
        } else if c == '3' {
            NumCharBits::Three.bits()
        } else if c == '4' {
            NumCharBits::Four.bits()
        } else if c == '5' {
            NumCharBits::Five.bits()
        } else if c == '6' {
            NumCharBits::Six.bits()
        } else if c == '7' {
            NumCharBits::Seven.bits()
        } else if c == '8' {
            NumCharBits::Eight.bits()
        } else if c == '9' {
            NumCharBits::Nine.bits()
        }
        // latin chars
        // we map as accurate as possible,
        // e.g.: a => lowercase a, A => uppercase A
        //
        // but in cases where we only have one mapping available
        // like: b => lowercase b, B => undefined
        // we map B => lowercase b
         else if c == 'A' {
            UpCharBits::UpA.bits()
        } else if c == 'a' {
            LoCharBits::LoA.bits()
        } else if c == 'B' || c == 'b' {
            LoCharBits::LoB.bits()
        } else if c == 'C' || c == 'c' {
            UpCharBits::UpC.bits()
        } else if c == 'D' || c == 'd' {
            LoCharBits::LoD.bits()
        } else if c == 'E' || c == 'e' {
            UpCharBits::UpE.bits()
        } else if c == 'F' || c == 'f' {
            UpCharBits::UpF.bits()
        } else if c == 'G' || c == 'g' {
            UpCharBits::UpG.bits()
        } else if c == 'H' {
            UpCharBits::UpH.bits()
        } else if c == 'h' {
            LoCharBits::LoH.bits()
        } else if c == 'I' || c == 'i' {
            UpCharBits::UpI.bits()
        } else if c == 'J' || c == 'j' {
            UpCharBits::UpJ.bits()
        } else if c == 'L' || c == 'l' {
            UpCharBits::UpL.bits()
        } else if c == 'N' || c == 'n' {
            LoCharBits::LoN.bits()
        } else if c == 'O' {
            UpCharBits::UpO.bits()
        } else if c == 'o' {
            LoCharBits::LoO.bits()
        } else if c == 'P' || c == 'p' {
            UpCharBits::UpP.bits()
        } else if c == 'Q' || c == 'q' {
            LoCharBits::LoQ.bits()
        } else if c == 'R' || c == 'r' {
            LoCharBits::LoR.bits()
        } else if c == 'S' || c == 's' {
            UpCharBits::UpS.bits()
        } else if c == 'T' || c == 't' {
            LoCharBits::LoT.bits()
        } else if c == 'U' {
            UpCharBits::UpU.bits()
        } else if c == 'u' {
            LoCharBits::LoU.bits()
        } else if c == 'Y' || c == 'y' {
            LoCharBits::LoY.bits()
        }
        // special chars
         else if c == ' ' {
            SpecialCharBits::Space.bits()
        } else if c == '?' {
            SpecialCharBits::QuestionMark.bits()
        } else if c == '-' {
            SpecialCharBits::Minus.bits()
        } else if c == '_' {
            SpecialCharBits::Underscore.bits()
        } else if c == '=' {
            SpecialCharBits::Equals.bits()
        } else if c == '.' {
            SpecialCharBits::Dot.bits()
        } else {
            SpecialCharBits::Space.bits()
        }
    }

    /// Encodes a string for the 7-segment display. This uses
    /// `encode_char` for each character.
    pub fn encode_string(str: &str) -> (bits: Vec<u8>)
        ensures
            bits@ == string_segments(str@),
            bits@.len() == str@.len(),
            forall|i: int| 0 <= i < str@.len() ==> bits@[i] == char_segments(#[trigger] str@[i]),
            str@.len() == 0 ==> bits@ == Seq::<u8>::empty(),
    {
        let mut bits: Vec<u8> = Vec::new();
        for c in chars: str.chars()
            invariant
                chars.seq() == str@,
                bits@ == string_segments(str@.take(chars.index() as int)),
        {
            bits.push(Self::encode_char(c));
        }
        bits
    }
}

} // verus!

//! Font stretch: the nine width keywords of CSS, their spellings, and their
//! places on the numeric axis along which a stretch is interpolated.
//!
//! On that axis the keywords sit at the whole numbers 1 to 9, narrowest
//! first. A point between two keywords arises when an animation interpolates;
//! it is taken back to a keyword by rounding to the nearest whole number, a
//! half going upward, and by saturating at both ends. Such a point is given
//! here as a binary fraction, a whole mantissa times a power of two, which is
//! what a floating-point number holds: the rounding is then exact integer
//! arithmetic.

use vstd::arithmetic::power2::{lemma2_to64, lemma_pow2_pos, lemma_pow2_strictly_increases, pow2};
use vstd::bits::{lemma_u64_pow2_no_overflow, lemma_u64_shl_is_mul};
use vstd::prelude::*;

use crate::text::str_eq;

verus! {

/// The width of a font face, as one of the nine keywords of CSS.
#[derive(Clone, Copy, Debug, Eq, Hash, PartialEq, Structural)]
pub enum FontStretch {
    Normal,
    UltraCondensed,
    ExtraCondensed,
    Condensed,
    SemiCondensed,
    SemiExpanded,
    Expanded,
    ExtraExpanded,
    UltraExpanded,
}

/// The whole number nearest to `mantissa * 2^exponent`, a half rounding
/// upward: the floor of that number plus one half.
pub open spec fn round_half_up(mantissa: int, exponent: int) -> int {
    if exponent >= 0 {
        mantissa * pow2(exponent as nat)
    } else {
        (2 * mantissa + pow2((-exponent) as nat)) / (2 * pow2((-exponent) as nat) as int)
    }
}

impl FontStretch {
    /// The spelling of the keyword in CSS.
    pub open spec fn spec_keyword(self) -> Seq<char> {
        match self {
            FontStretch::Normal => "normal"@,
            FontStretch::UltraCondensed => "ultra-condensed"@,
            FontStretch::ExtraCondensed => "extra-condensed"@,
            FontStretch::Condensed => "condensed"@,
            FontStretch::SemiCondensed => "semi-condensed"@,
            FontStretch::SemiExpanded => "semi-expanded"@,
            FontStretch::Expanded => "expanded"@,
            FontStretch::ExtraExpanded => "extra-expanded"@,
            FontStretch::UltraExpanded => "ultra-expanded"@,
        }
    }

    /// The keyword that `ident` spells, or an error when it spells none.
    /// The spelling has to match character for character.
    pub open spec fn spec_from_ident(ident: Seq<char>) -> Result<FontStretch, ()> {
        if ident == "normal"@ {
            Ok(FontStretch::Normal)
        } else if ident == "ultra-condensed"@ {
            Ok(FontStretch::UltraCondensed)
        } else if ident == "extra-condensed"@ {
            Ok(FontStretch::ExtraCondensed)
        } else if ident == "condensed"@ {
            Ok(FontStretch::Condensed)
        } else if ident == "semi-condensed"@ {
            Ok(FontStretch::SemiCondensed)
        } else if ident == "semi-expanded"@ {
            Ok(FontStretch::SemiExpanded)
        } else if ident == "expanded"@ {
            Ok(FontStretch::Expanded)
        } else if ident == "extra-expanded"@ {
            Ok(FontStretch::ExtraExpanded)
        } else if ident == "ultra-expanded"@ {
            Ok(FontStretch::UltraExpanded)
        } else {
            Err(())
        }
    }

    /// The place of the keyword on the numeric axis: 1 for the narrowest
    /// up to 9 for the widest, with `normal` at 5.
    pub open spec fn spec_number(self) -> int {
        match self {
            FontStretch::UltraCondensed => 1,
            FontStretch::ExtraCondensed => 2,
            FontStretch::Condensed => 3,
            FontStretch::SemiCondensed => 4,
            FontStretch::Normal => 5,
            FontStretch::SemiExpanded => 6,
            FontStretch::Expanded => 7,
            FontStretch::ExtraExpanded => 8,
            FontStretch::UltraExpanded => 9,
        }
    }

    /// The keyword at the whole number `index` of the axis; a number below
    /// 1 counts as 1 and a number above 9 as 9.
    pub open spec fn spec_from_index(index: int) -> FontStretch {
        if index <= 1 {
            FontStretch::UltraCondensed
        } else if index == 2 {
            FontStretch::ExtraCondensed
        } else if index == 3 {
            FontStretch::Condensed
        } else if index == 4 {
            FontStretch::SemiCondensed
        } else if index == 5 {
            FontStretch::Normal
        } else if index == 6 {
            FontStretch::SemiExpanded
        } else if index == 7 {
            FontStretch::Expanded
        } else if index == 8 {
            FontStretch::ExtraExpanded
        } else {
            FontStretch::UltraExpanded
        }
    }

    /// The keyword nearest to the point `mantissa * 2^exponent` of the axis.
    pub open spec fn spec_from_number(mantissa: int, exponent: int) -> FontStretch {
        Self::spec_from_index(round_half_up(mantissa, exponent))
    }

    /// Reads a keyword from its spelling in CSS.
    pub fn from_ident(ident: &str) -> (result: Result<FontStretch, ()>)
        ensures
            result == Self::spec_from_ident(ident@),
    {
        if str_eq(ident, "normal") {
            Ok(FontStretch::Normal)
        } else if str_eq(ident, "ultra-condensed") {
            Ok(FontStretch::UltraCondensed)
        } else if str_eq(ident, "extra-condensed") {
            Ok(FontStretch::ExtraCondensed)
        } else if str_eq(ident, "condensed") {
            Ok(FontStretch::Condensed)
        } else if str_eq(ident, "semi-condensed") {
            Ok(FontStretch::SemiCondensed)
        } else if str_eq(ident, "semi-expanded") {
            Ok(FontStretch::SemiExpanded)
        } else if str_eq(ident, "expanded") {
            Ok(FontStretch::Expanded)
        } else if str_eq(ident, "extra-expanded") {
            Ok(FontStretch::ExtraExpanded)
        } else if str_eq(ident, "ultra-expanded") {
            Ok(FontStretch::UltraExpanded)
        } else {
            Err(())
        }
    }

    /// The spelling of the keyword, as a string slice.
    pub fn keyword(self) -> (text: &'static str)
        ensures
            text@ == self.spec_keyword(),
    {
        match self {
            FontStretch::Normal => "normal",
            FontStretch::UltraCondensed => "ultra-condensed",
            FontStretch::ExtraCondensed => "extra-condensed",
            FontStretch::Condensed => "condensed",
            FontStretch::SemiCondensed => "semi-condensed",
            FontStretch::SemiExpanded => "semi-expanded",
            FontStretch::Expanded => "expanded",
            FontStretch::ExtraExpanded => "extra-expanded",
            FontStretch::UltraExpanded => "ultra-expanded",
        }
    }

    /// Appends the keyword to `dest` as it is written in CSS.
    pub fn to_css(&self, dest: &mut String)
        ensures
            final(dest)@ == old(dest)@ + self.spec_keyword(),
    {
        dest.append(self.keyword());
    }

    /// The keyword as it is written in CSS.
    pub fn to_css_string(&self) -> (css: String)
        ensures
            css@ == self.spec_keyword(),
    {
        String::from_str(self.keyword())
    }

    /// The place of the keyword on the numeric axis.
    pub fn to_number(self) -> (number: u8)
        ensures
            number == self.spec_number(),
            1 <= number <= 9,
    {
        match self {
            FontStretch::UltraCondensed => 1,
            FontStretch::ExtraCondensed => 2,
            FontStretch::Condensed => 3,
            FontStretch::SemiCondensed => 4,
            FontStretch::Normal => 5,
            FontStretch::SemiExpanded => 6,
            FontStretch::Expanded => 7,
            FontStretch::ExtraExpanded => 8,
            FontStretch::UltraExpanded => 9,
        }
    }

    /// The keyword at a whole number of the axis, saturating at both ends.
    pub fn from_index(index: i64) -> (stretch: FontStretch)
        ensures
            stretch == Self::spec_from_index(index as int),
    {
        if index <= 1 {
            FontStretch::UltraCondensed
        } else if index == 2 {
            FontStretch::ExtraCondensed
        } else if index == 3 {
            FontStretch::Condensed
        } else if index == 4 {
            FontStretch::SemiCondensed
        } else if index == 5 {
            FontStretch::Normal
        } else if index == 6 {
            FontStretch::SemiExpanded
        } else if index == 7 {
            FontStretch::Expanded
        } else if index == 8 {
            FontStretch::ExtraExpanded
        } else {
            FontStretch::UltraExpanded
        }
    }

    /// The keyword nearest to the point `mantissa * 2^exponent` of the axis:
    /// the point is rounded to a whole number, a half going upward, and the
    /// result saturates at both ends. Every input yields a keyword.
    pub fn from_number(mantissa: i64, exponent: i32) -> (stretch: FontStretch)
        ensures
            stretch == Self::spec_from_number(mantissa as int, exponent as int),
    {
        if mantissa <= 0 {
            proof {
                lemma_nonpositive_saturates(mantissa as int, exponent as int);
            }
            return FontStretch::UltraCondensed;
        }
        if exponent >= 0 {
            if exponent >= 4 || mantissa >= 9 {
                proof {
                    lemma_large_saturates(mantissa as int, exponent as int);
                }
                return FontStretch::UltraExpanded;
            }
            let scale: i64 = if exponent == 0 {
                1
            } else if exponent == 1 {
                2
            } else if exponent == 2 {
                4
            } else {
                8
            };
            proof {
                lemma2_to64();
            }
            return Self::from_index(mantissa * scale);
        }
        let shift: i64 = -(exponent as i64);
        if shift >= 64 {
            proof {
                lemma_tiny_rounds_to_zero(mantissa as int, exponent as int);
            }
            return FontStretch::UltraCondensed;
        }
        let unit: u64 = 1u64 << (shift as u64);
        proof {
            lemma_u64_pow2_no_overflow(shift as nat);
            lemma_u64_shl_is_mul(1u64, shift as u64);
            lemma_pow2_strictly_increases(0, shift as nat);
            lemma2_to64();
        }
        assert(unit == pow2(shift as nat));
        assert(unit >= 2);
        let doubled: u128 = 2 * (mantissa as u128) + (unit as u128);
        let rounded: u128 = doubled / (2 * (unit as u128));
        assert(rounded <= doubled / 4) by (nonlinear_arith)
            requires
                rounded as int == (doubled as int) / (2 * (unit as int)),
                unit >= 2,
        ;
        Self::from_index(rounded as i64)
    }
}

/// A point at or below zero rounds to a whole number at or below zero, and
/// so is taken to the narrow end of the axis.
pub proof fn lemma_nonpositive_saturates(mantissa: int, exponent: int)
    requires
        mantissa <= 0,
    ensures
        round_half_up(mantissa, exponent) <= 0,
        FontStretch::spec_from_number(mantissa, exponent) == FontStretch::UltraCondensed,
{
    if exponent >= 0 {
        let p = pow2(exponent as nat) as int;
        lemma_pow2_pos(exponent as nat);
        assert(mantissa * p <= 0) by (nonlinear_arith)
            requires
                mantissa <= 0,
                p > 0,
        ;
    } else {
        let p = pow2((-exponent) as nat) as int;
        lemma_pow2_pos((-exponent) as nat);
        assert((2 * mantissa + p) / (2 * p) <= 0) by (nonlinear_arith)
            requires
                mantissa <= 0,
                p > 0,
        ;
    }
}

/// A positive point below one half rounds to zero.
proof fn lemma_tiny_rounds_to_zero(mantissa: int, exponent: int)
    requires
        0 < mantissa < 0x8000_0000_0000_0000,
        exponent <= -64,
    ensures
        round_half_up(mantissa, exponent) == 0,
{
    let p = pow2((-exponent) as nat) as int;
    lemma2_to64();
    if -exponent > 64 {
        lemma_pow2_strictly_increases(64, (-exponent) as nat);
    }
    assert(p >= 0x1_0000_0000_0000_0000);
    assert((2 * mantissa + p) / (2 * p) == 0) by (nonlinear_arith)
        requires
            0 < mantissa,
            2 * mantissa < p,
    ;
}

/// A whole point of at least 9, be it a mantissa of at least 9 or a positive
/// one scaled by at least 16, is taken to the wide end of the axis.
pub proof fn lemma_large_saturates(mantissa: int, exponent: int)
    requires
        mantissa >= 1,
        exponent >= 0,
        exponent >= 4 || mantissa >= 9,
    ensures
        round_half_up(mantissa, exponent) >= 9,
        FontStretch::spec_from_number(mantissa, exponent) == FontStretch::UltraExpanded,
{
    let p = pow2(exponent as nat) as int;
    lemma_pow2_pos(exponent as nat);
    lemma2_to64();
    if exponent > 4 {
        lemma_pow2_strictly_increases(4, exponent as nat);
    }
    assert(mantissa * p >= 9) by (nonlinear_arith)
        requires
            mantissa >= 1,
            p >= 1,
            p >= 16 || mantissa >= 9,
    ;
}

/// Rounding a whole point gives the point itself.
pub proof fn lemma_round_half_up_of_whole(mantissa: int, exponent: int)
    requires
        exponent >= 0,
    ensures
        round_half_up(mantissa, exponent) == mantissa * pow2(exponent as nat),
        round_half_up(mantissa, 0) == mantissa,
{
    lemma2_to64();
    assert(mantissa * pow2(0) == mantissa);
}

/// Rounding a fraction picks the one whole number within one half of it, the
/// upper one when two are equally near: `rounded` is the result for
/// `mantissa / 2^s` exactly when `rounded - 1/2 <= mantissa / 2^s < rounded +
/// 1/2`, stated here with both sides scaled by `2 * 2^s`.
pub proof fn lemma_round_half_up_is_nearest(mantissa: int, exponent: int, rounded: int)
    requires
        exponent < 0,
    ensures
        round_half_up(mantissa, exponent) == rounded <==> (2 * rounded - 1) * pow2(
            (-exponent) as nat,
        ) <= 2 * mantissa < (2 * rounded + 1) * pow2((-exponent) as nat),
{
    let unit = pow2((-exponent) as nat) as int;
    let quotient = (2 * mantissa + unit) / (2 * unit);
    lemma_pow2_pos((-exponent) as nat);
    assert((2 * quotient - 1) * unit <= 2 * mantissa < (2 * quotient + 1) * unit)
        by (nonlinear_arith)
        requires
            unit > 0,
            quotient == (2 * mantissa + unit) / (2 * unit),
    ;
    if (2 * rounded - 1) * unit <= 2 * mantissa < (2 * rounded + 1) * unit {
        assert(rounded == quotient) by (nonlinear_arith)
            requires
                unit > 0,
                (2 * rounded - 1) * unit <= 2 * mantissa < (2 * rounded + 1) * unit,
                (2 * quotient - 1) * unit <= 2 * mantissa < (2 * quotient + 1) * unit,
        ;
    }
}

/// Going from a keyword to its number and back gives the keyword again,
/// whether the number is taken as a whole index or as a point of the axis.
pub proof fn lemma_number_round_trip(stretch: FontStretch)
    ensures
        1 <= stretch.spec_number() <= 9,
        FontStretch::spec_from_index(stretch.spec_number()) == stretch,
        FontStretch::spec_from_number(stretch.spec_number(), 0) == stretch,
{
    lemma_round_half_up_of_whole(stretch.spec_number(), 0);
}

/// Going from a whole number of the axis to its keyword and back gives the
/// number again when it lies from 1 to 9, and the nearer end otherwise.
pub proof fn lemma_index_saturates(index: int)
    ensures
        index <= 1 ==> FontStretch::spec_from_index(index) == FontStretch::UltraCondensed,
        index >= 9 ==> FontStretch::spec_from_index(index) == FontStretch::UltraExpanded,
        1 <= index <= 9 ==> FontStretch::spec_from_index(index).spec_number() == index,
{
}

/// The nine spellings are pairwise different.
pub proof fn lemma_keywords_differ(a: FontStretch, b: FontStretch)
    ensures
        a.spec_keyword() == b.spec_keyword() <==> a == b,
{
    reveal_strlit("normal");
    reveal_strlit("ultra-condensed");
    reveal_strlit("extra-condensed");
    reveal_strlit("condensed");
    reveal_strlit("semi-condensed");
    reveal_strlit("semi-expanded");
    reveal_strlit("expanded");
    reveal_strlit("extra-expanded");
    reveal_strlit("ultra-expanded");
    assert("normal"@.len() == 6);
    assert("ultra-condensed"@.len() == 15);
    assert("extra-condensed"@.len() == 15);
    assert("condensed"@.len() == 9);
    assert("semi-condensed"@.len() == 14);
    assert("semi-expanded"@.len() == 13);
    assert("expanded"@.len() == 8);
    assert("extra-expanded"@.len() == 14);
    assert("ultra-expanded"@.len() == 14);
    assert("ultra-condensed"@[0] == 'u' && "extra-condensed"@[0] == 'e');
    assert("semi-condensed"@[0] == 's' && "extra-expanded"@[0] == 'e' && "ultra-expanded"@[0]
        == 'u');
}

/// Reading the spelling of a keyword gives that keyword, and a text that is
/// read as a keyword is its spelling.
pub proof fn lemma_keyword_round_trip(stretch: FontStretch, ident: Seq<char>)
    ensures
        FontStretch::spec_from_ident(stretch.spec_keyword()) == Ok::<FontStretch, ()>(stretch),
        FontStretch::spec_from_ident(ident) == Ok::<FontStretch, ()>(stretch) <==> ident
            == stretch.spec_keyword(),
{
    lemma_keywords_differ(stretch, FontStretch::Normal);
    lemma_keywords_differ(stretch, FontStretch::UltraCondensed);
    lemma_keywords_differ(stretch, FontStretch::ExtraCondensed);
    lemma_keywords_differ(stretch, FontStretch::Condensed);
    lemma_keywords_differ(stretch, FontStretch::SemiCondensed);
    lemma_keywords_differ(stretch, FontStretch::SemiExpanded);
    lemma_keywords_differ(stretch, FontStretch::Expanded);
    lemma_keywords_differ(stretch, FontStretch::ExtraExpanded);
    lemma_keywords_differ(stretch, FontStretch::UltraExpanded);
}

} // verus!

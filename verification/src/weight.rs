//! Font weights: a 16-bit magnitude with the two named values of CSS, the
//! validating constructor for authored values, and relative stepping.

use vstd::prelude::*;

use crate::text::{decimal, lemma_decimal_denotes, numeral_value, push_decimal};

verus! {

/// The boldness of a font.
///
/// Authored CSS can only name the multiples of 100 from 100 to 900, but a
/// font installed on the system may report any magnitude, so every 16-bit
/// value is representable.
#[derive(Clone, Copy, Debug, Eq, Hash, PartialEq, Structural)]
pub struct FontWeight(pub u16);

/// Whether `n` is a weight that authored CSS can name: a multiple of 100
/// from 100 to 900.
pub open spec fn is_authored_weight(n: int) -> bool {
    100 <= n <= 900 && n % 100 == 0
}

/// The magnitude one relative step bolder than `magnitude`.
pub open spec fn bolder_magnitude(magnitude: u16) -> u16 {
    if magnitude < 400 {
        400
    } else if magnitude < 600 {
        700
    } else {
        900
    }
}

/// The magnitude one relative step lighter than `magnitude`.
pub open spec fn lighter_magnitude(magnitude: u16) -> u16 {
    if magnitude < 600 {
        100
    } else if magnitude < 800 {
        400
    } else {
        700
    }
}

impl FontWeight {
    /// The weight after one step bolder.
    pub open spec fn spec_bolder(self) -> FontWeight {
        FontWeight(bolder_magnitude(self.0))
    }

    /// The weight after one step lighter.
    pub open spec fn spec_lighter(self) -> FontWeight {
        FontWeight(lighter_magnitude(self.0))
    }

    /// Whether the weight counts as bold: its magnitude exceeds 500.
    pub open spec fn spec_is_bold(self) -> bool {
        self.0 > 500
    }

    /// How the weight is written in CSS: its magnitude in decimal, with no
    /// unit and no keyword.
    pub open spec fn spec_css(self) -> Seq<char> {
        decimal(self.0 as nat)
    }

    /// The weight named `normal`.
    pub fn normal() -> (weight: Self)
        ensures
            weight == FontWeight(400),
    {
        FontWeight(400)
    }

    /// The weight named `bold`.
    pub fn bold() -> (weight: Self)
        ensures
            weight == FontWeight(700),
    {
        FontWeight(700)
    }

    /// Accepts `n` exactly when authored CSS can name it, and then keeps it
    /// as the magnitude.
    pub fn from_int(n: i32) -> (result: Result<Self, ()>)
        ensures
            is_authored_weight(n as int) ==> result == Ok::<Self, ()>(FontWeight(n as u16)),
            !is_authored_weight(n as int) ==> result == Err::<Self, ()>(()),
    {
        if n >= 100 && n <= 900 && n % 100 == 0 {
            Ok(FontWeight(n as u16))
        } else {
            Err(())
        }
    }

    /// Takes a weight reported by the font system as it is, on or off the
    /// grid of authored values.
    pub fn from_gecko_weight(weight: u16) -> (result: Self)
        ensures
            result == FontWeight(weight),
    {
        FontWeight(weight)
    }

    /// Whether this weight is bold.
    pub fn is_bold(&self) -> (bold: bool)
        ensures
            bold == self.spec_is_bold(),
    {
        self.0 > 500
    }

    /// The next bolder weight: 400 below 400, 700 from 400 up to 599, and
    /// 900 from 600 on.
    pub fn bolder(self) -> (weight: Self)
        ensures
            weight == self.spec_bolder(),
    {
        if self.0 < 400 {
            FontWeight(400)
        } else if self.0 < 600 {
            FontWeight(700)
        } else {
            FontWeight(900)
        }
    }

    /// The next lighter weight: 100 below 600, 400 from 600 up to 799, and
    /// 700 from 800 on.
    pub fn lighter(self) -> (weight: Self)
        ensures
            weight == self.spec_lighter(),
    {
        if self.0 < 600 {
            FontWeight(100)
        } else if self.0 < 800 {
            FontWeight(400)
        } else {
            FontWeight(700)
        }
    }

    /// Appends the weight to `dest` as it is written in CSS.
    pub fn to_css(&self, dest: &mut String)
        ensures
            final(dest)@ == old(dest)@ + self.spec_css(),
    {
        push_decimal(dest, self.0);
    }

    /// The weight as it is written in CSS.
    pub fn to_css_string(&self) -> (css: String)
        ensures
            css@ == self.spec_css(),
    {
        let mut css = String::new();
        self.to_css(&mut css);
        assert(css@ =~= self.spec_css());
        css
    }
}

/// Stepping bolder stops at 900: from 600 on one step reaches it, a further
/// step changes nothing, and from any weight three steps are enough.
pub proof fn lemma_bolder_saturates(weight: FontWeight)
    ensures
        weight.0 >= 600 ==> weight.spec_bolder() == FontWeight(900),
        weight.0 >= 600 ==> weight.spec_bolder().spec_bolder() == weight.spec_bolder(),
        weight.spec_bolder().spec_bolder().spec_bolder() == FontWeight(900),
{
}

/// Stepping lighter stops at 100: below 600 one step reaches it, a further
/// step changes nothing, and from any weight three steps are enough.
pub proof fn lemma_lighter_saturates(weight: FontWeight)
    ensures
        weight.0 < 600 ==> weight.spec_lighter() == FontWeight(100),
        weight.0 < 600 ==> weight.spec_lighter().spec_lighter() == weight.spec_lighter(),
        weight.spec_lighter().spec_lighter().spec_lighter() == FontWeight(100),
{
}

/// A step bolder never lowers the magnitude of an authored weight, and a
/// step lighter never raises it.
pub proof fn lemma_steps_are_monotone(weight: FontWeight)
    requires
        is_authored_weight(weight.0 as int),
    ensures
        weight.spec_bolder().0 >= weight.0,
        weight.spec_lighter().0 <= weight.0,
        is_authored_weight(weight.spec_bolder().0 as int),
        is_authored_weight(weight.spec_lighter().0 as int),
{
}

/// What is written for a weight denotes its magnitude, so two weights are
/// written alike only when they are equal.
pub proof fn lemma_css_denotes_magnitude(weight: FontWeight, other: FontWeight)
    ensures
        numeral_value(weight.spec_css()) == weight.0,
        weight.spec_css() == other.spec_css() <==> weight == other,
{
    lemma_decimal_denotes(weight.0 as nat);
    lemma_decimal_denotes(other.0 as nat);
}

/// The authored weights are the nine multiples of 100 from 100 to 900.
pub proof fn lemma_authored_weights(n: int)
    ensures
        is_authored_weight(n) <==> (n == 100 || n == 200 || n == 300 || n == 400 || n == 500
            || n == 600 || n == 700 || n == 800 || n == 900),
{
}

} // verus!

//! The capitalisation variant of a font: the two keywords of CSS and their
//! spellings.

use vstd::prelude::*;

use crate::text::str_eq;

verus! {

/// Whether lower-case letters are drawn as small capitals.
#[derive(Clone, Copy, Debug, Eq, Hash, PartialEq, Structural)]
pub enum FontVariantCaps {
    Normal,
    SmallCaps,
}

impl FontVariantCaps {
    /// The spelling of the keyword in CSS.
    pub open spec fn spec_keyword(self) -> Seq<char> {
        match self {
            FontVariantCaps::Normal => "normal"@,
            FontVariantCaps::SmallCaps => "small-caps"@,
        }
    }

    /// The keyword that `ident` spells, or an error when it spells none.
    /// The spelling has to match character for character.
    pub open spec fn spec_from_ident(ident: Seq<char>) -> Result<FontVariantCaps, ()> {
        if ident == "normal"@ {
            Ok(FontVariantCaps::Normal)
        } else if ident == "small-caps"@ {
            Ok(FontVariantCaps::SmallCaps)
        } else {
            Err(())
        }
    }

    /// Reads a keyword from its spelling in CSS.
    pub fn from_ident(ident: &str) -> (result: Result<FontVariantCaps, ()>)
        ensures
            result == Self::spec_from_ident(ident@),
    {
        if str_eq(ident, "normal") {
            Ok(FontVariantCaps::Normal)
        } else if str_eq(ident, "small-caps") {
            Ok(FontVariantCaps::SmallCaps)
        } else {
            Err(())
        }
    }

    /// The spelling of the keyword, as a string slice.
    pub fn keyword(self) -> (text: &'static str)
        ensures
            text@ == self.spec_keyword(),
    {
        match self {
            FontVariantCaps::Normal => "normal",
            FontVariantCaps::SmallCaps => "small-caps",
        }
    }

    /// Appends the keyword to `dest` as it is written in CSS.
    pub fn to_css(&self, dest: &mut String)
        ensures
            final(dest)@ == old(dest)@ + self.spec_keyword(),
    {
        dest.append(self.keyword());
    }

    /// The keyword as it is written in CSS.
    pub fn to_css_string(&self) -> (css: String)
        ensures
            css@ == self.spec_keyword(),
    {
        String::from_str(self.keyword())
    }
}

/// The two spellings differ, so reading the spelling of a keyword gives that
/// keyword, and a text that is read as a keyword is its spelling.
pub proof fn lemma_keyword_round_trip(caps: FontVariantCaps, ident: Seq<char>)
    ensures
        FontVariantCaps::spec_from_ident(caps.spec_keyword()) == Ok::<FontVariantCaps, ()>(caps),
        FontVariantCaps::spec_from_ident(ident) == Ok::<FontVariantCaps, ()>(caps) <==> ident
            == caps.spec_keyword(),
{
    reveal_strlit("normal");
    reveal_strlit("small-caps");
    assert("normal"@.len() == 6);
    assert("small-caps"@.len() == 10);
}

} // verus!

//! What text layout needs to know of a resolved font record.

use app_units::Au;
use vstd::prelude::*;

use crate::stretch::FontStretch;
use crate::variant_caps::FontVariantCaps;
use crate::weight::FontWeight;

verus! {

/// The type `app_units::Au`, a length in sixtieths of a CSS pixel. A value
/// of it is opaque here: it is handed on and never looked into.
#[verifier::external_type_specification]
#[verifier::external_body]
pub struct ExAu(Au);

/// A read-only view of a resolved font record.
///
/// The record belongs to whoever computes styles; text layout borrows it for
/// one query at a time through this trait and never changes it.
pub trait FontStyleStruct {
    /// The resolved font size.
    fn size(&self) -> Au;

    /// A hash of the resolved values, equal for equal records; it keys caches
    /// and promises nothing beyond that.
    fn hash(&self) -> u64;

    /// The resolved weight.
    fn font_weight(&self) -> FontWeight;

    /// The resolved stretch.
    fn font_stretch(&self) -> FontStretch;

    /// The resolved capitalisation variant.
    fn font_variant_caps(&self) -> FontVariantCaps;

    /// Calls `f` once with each family name of the record, in the order in
    /// which the names were declared, and not at all when there is none. The
    /// caller hands in a visitor that accepts every name.
    fn each_font_family<F>(&self, f: F) where F: FnMut(&str)
        requires
            forall|name: &str| call_requires(f, (name,)),
    ;

    /// Whether the resolved style is oblique or italic.
    fn is_oblique_or_italic(&self) -> bool;
}

} // verus!

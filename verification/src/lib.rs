//! Font values shared between style computation and text layout: the weight
//! of a font, its stretch and capitalisation keywords, the read-only view of
//! a resolved font record, and the prioritised list of sources of a font face.
//!
//! The functions carry contracts that Verus proves from their bodies. The
//! contracts speak of plain mathematical values: a weight is its magnitude, a
//! keyword its spelling as a sequence of characters, a point of the stretch
//! axis a whole mantissa times a power of two, and a list of sources the
//! sequence in which the sources will be handed out.
//!
//! Three types come from other crates: `app_units::Au`, `url::Url` and
//! `string_cache::Atom`. Their values are opaque here, and what is believed of
//! them without proof, that a clone is the same value, is marked where it is
//! declared.

pub mod sources;
pub mod stretch;
pub mod style;
pub mod text;
pub mod variant_caps;
pub mod weight;

pub use sources::{EffectiveSources, Source};
pub use stretch::FontStretch;
pub use style::FontStyleStruct;
pub use variant_caps::FontVariantCaps;
pub use weight::FontWeight;

//! The sources of a font face: where a face may be loaded from, and the
//! list of candidates in the order in which they are to be tried.

use string_cache::{Atom, DefaultAtom, EmptyStaticAtomSet};
use url::Url;
use vstd::prelude::*;

verus! {

/// The type `url::Url`, a parsed URL. A value of it is opaque here: it is
/// stored, handed on and copied, and never looked into.
#[verifier::external_type_specification]
#[verifier::external_body]
pub struct ExUrl(Url);

/// The type `string_cache::Atom`, an interned string. A value of it is
/// opaque here: it is stored, handed on and copied, and never looked into.
#[verifier::external_type_specification]
#[verifier::external_body]
#[verifier::reject_recursive_types(Static)]
pub struct ExAtom<Static>(Atom<Static>);

/// The type `string_cache::EmptyStaticAtomSet`, which marks the atoms that
/// are all interned at run time. It only stands as a type argument.
#[verifier::external_type_specification]
#[verifier::external_body]
pub struct ExEmptyStaticAtomSet(EmptyStaticAtomSet);

/// Believed of `Clone::clone` for `url::Url`, not proved: the copy is the
/// same URL. The impl is derived, so every field of the copy is a clone of
/// the field that it copies.
pub assume_specification[ <url::Url as Clone>::clone ](value: &url::Url) -> (copy: url::Url)
    ensures
        copy == *value,
;

/// Believed of `Clone::clone` for `string_cache::Atom`, not proved: the copy
/// is the same atom. The impl copies the one packed word that an atom is made
/// of, after counting one more user of an entry interned at run time.
pub assume_specification<Static: string_cache::StaticAtomSet>[ <string_cache::Atom<Static> as Clone>::clone ](
    value: &string_cache::Atom<Static>,
) -> (copy: string_cache::Atom<Static>)
    ensures
        copy == *value,
;

/// One place a font face may be loaded from.
#[derive(Debug)]
pub enum Source {
    /// A `url()` source. The URL is absent when the reference could not be
    /// resolved; the source keeps its place in the list all the same.
    Url(Option<Url>),
    /// A `local()` source: the name of a font installed on the system.
    Local(DefaultAtom),
}

/// The sources of one font face, to be taken out one by one.
///
/// The vector stores them in reverse: the source to try first is its last
/// element, so that taking a source out never moves the others. The view of
/// the list is the order of trial, the first source to try at index 0.
#[derive(Debug)]
pub struct EffectiveSources(pub Vec<Source>);

impl Clone for Source {
    /// A copy that is the same source.
    fn clone(&self) -> (copy: Self)
        ensures
            copy == *self,
    {
        match self {
            Source::Url(Some(url)) => Source::Url(Some(url.clone())),
            Source::Url(None) => Source::Url(None),
            Source::Local(name) => Source::Local(name.clone()),
        }
    }
}

impl Clone for EffectiveSources {
    /// A copy that holds the same sources in the same order.
    fn clone(&self) -> (copy: Self)
        ensures
            copy.0@ == self.0@,
            copy@ == self@,
    {
        let copy = EffectiveSources(self.0.clone());
        assert(copy.0@ =~= self.0@);
        copy
    }
}

impl View for EffectiveSources {
    type V = Seq<Source>;

    open spec fn view(&self) -> Seq<Source> {
        self.0@.reverse()
    }
}

impl EffectiveSources {
    /// Takes out the source to try next: the first in order of trial, which
    /// is stored last. The others keep their order. An empty list gives
    /// `None` and stays empty.
    pub fn next(&mut self) -> (source: Option<Source>)
        ensures
            match source {
                Some(first) => {
                    &&& old(self)@.len() > 0
                    &&& first == old(self)@.first()
                    &&& final(self)@ == old(self)@.drop_first()
                    &&& final(self).0@ == old(self).0@.drop_last()
                },
                None => {
                    &&& old(self)@.len() == 0
                    &&& final(self).0@ == old(self).0@
                },
            },
    {
        let source = self.0.pop();
        assert(source is Some ==> self@ =~= old(self)@.drop_first());
        source
    }

    /// The number of sources still to be taken out, as the lower bound and
    /// as the upper bound.
    pub fn size_hint(&self) -> (hint: (usize, Option<usize>))
        ensures
            hint.0 == self@.len(),
            hint.1 == Some(hint.0),
            hint.0 == self.0@.len(),
    {
        (self.0.len(), Some(self.0.len()))
    }
}

/// The order of trial is the stored order read backwards: the source at
/// index `i` of the view is the one stored `i` places before the end.
pub proof fn lemma_trial_order_is_reversed_storage(sources: EffectiveSources, i: int)
    requires
        0 <= i < sources@.len(),
    ensures
        sources@.len() == sources.0@.len(),
        sources@[i] == sources.0@[sources.0@.len() - 1 - i],
{
}

/// Taking `k` sources out leaves the others in their order: what remains
/// after the first `k` of the order of trial is stored as the first
/// `len - k` elements.
pub proof fn lemma_rest_is_truncated_storage(storage: Seq<Source>, k: int)
    requires
        0 <= k <= storage.len(),
    ensures
        storage.reverse().skip(k) == storage.take(storage.len() - k).reverse(),
{
    assert(storage.reverse().skip(k) =~= storage.take(storage.len() - k).reverse());
}

} // verus!

//! Original-versus-proposed value tracking for moderator diffing.
//!
//! A [`VersionedField`] pairs, for one editable attribute, the value live in
//! the canonical store when the suggestion was first submitted (or the type's
//! empty value for a brand-new entry) with the value currently proposed, so a
//! moderator sees both side by side. Change detection is equality-based.

use vstd::prelude::*;
use crate::language::{NounClass, PartOfSpeech};

verus! {

/// Value equality for the attribute types a suggestion can carry. The spec
/// side says what equality means for the type; the exec side decides it.
pub trait FieldValue: Sized {
    /// What it means for two values of this type to be equal.
    spec fn value_eq(self, other: Self) -> bool;

    /// Decides [`FieldValue::value_eq`].
    fn eq_value(&self, other: &Self) -> (r: bool)
        ensures
            r == self.value_eq(*other);
}

impl FieldValue for String {
    open spec fn value_eq(self, other: Self) -> bool {
        self@ == other@
    }

    fn eq_value(&self, other: &Self) -> (r: bool) {
        self.eq(other)
    }
}

impl FieldValue for bool {
    open spec fn value_eq(self, other: Self) -> bool {
        self == other
    }

    fn eq_value(&self, other: &Self) -> (r: bool) {
        *self == *other
    }
}

impl FieldValue for PartOfSpeech {
    open spec fn value_eq(self, other: Self) -> bool {
        self == other
    }

    fn eq_value(&self, other: &Self) -> (r: bool) {
        *self == *other
    }
}

impl FieldValue for Option<NounClass> {
    open spec fn value_eq(self, other: Self) -> bool {
        self == other
    }

    fn eq_value(&self, other: &Self) -> (r: bool) {
        match (self, other) {
            (Some(a), Some(b)) => *a == *b,
            (None, None) => true,
            _ => false,
        }
    }
}

/// One editable attribute of a suggestion: the original baseline recorded at
/// first submission beside the value currently proposed.
#[derive(Debug)]
pub struct VersionedField<T> {
    /// The value live in the canonical store at first submission, or the
    /// type's empty value for a brand-new entry. Stable across edit rounds.
    pub original: T,
    /// The value currently suggested.
    pub proposed: T,
}

impl<T> VersionedField<T> {
    /// Pairs a recorded baseline with a proposed value.
    pub fn new(original: T, proposed: T) -> (r: Self)
        ensures
            r.original == original,
            r.proposed == proposed,
    {
        VersionedField { original, proposed }
    }

    /// The baseline recorded at first submission.
    pub fn original(&self) -> (r: &T)
        ensures
            *r == self.original,
    {
        &self.original
    }

    /// The value currently proposed.
    pub fn current(&self) -> (r: &T)
        ensures
            *r == self.proposed,
    {
        &self.proposed
    }
}

impl<T: FieldValue> VersionedField<T> {
    /// Whether the proposed value differs from the recorded baseline.
    pub open spec fn spec_changed(self) -> bool {
        !self.proposed.value_eq(self.original)
    }

    /// Whether this field proposes a change: false exactly when the current
    /// (proposed) value equals the original baseline by value equality.
    pub fn changed(&self) -> (r: bool)
        ensures
            r == self.spec_changed(),
    {
        !self.proposed.eq_value(&self.original)
    }
}

} // verus!

//! Equality, order and hashing of `Str`, all by the text alone, so that a
//! `Str` and a string slice with the same text can stand for each other.

use crate::order::{
    compare_text, lemma_precedes_asymmetric, lemma_precedes_irreflexive, lemma_precedes_total,
    lemma_precedes_transitive, precedes, same_text, text_order,
};
use crate::shared::Str;
use std::borrow::Borrow;
use std::cmp::Ordering;
use std::hash::{Hash, Hasher};
use vstd::prelude::*;
use vstd::std_specs::cmp::{PartialEqSpec, PartialOrdSpec};

verus! {

impl PartialEq<Str> for str {
    fn eq(&self, other: &Str) -> (r: bool) {
        let s2: &str = other.borrow_str();
        same_text(self, s2)
    }
}

impl vstd::std_specs::cmp::PartialEqSpecImpl<Str> for str {
    open spec fn obeys_eq_spec() -> bool {
        true
    }

    open spec fn eq_spec(&self, other: &Str) -> bool {
        self@ == other@
    }
}

impl PartialEq<Str> for &'static str {
    fn eq(&self, other: &Str) -> (r: bool) {
        let s2: &str = other.borrow_str();
        same_text(*self, s2)
    }
}

impl vstd::std_specs::cmp::PartialEqSpecImpl<Str> for &'static str {
    open spec fn obeys_eq_spec() -> bool {
        true
    }

    open spec fn eq_spec(&self, other: &Str) -> bool {
        (*self)@ == other@
    }
}

impl PartialEq<str> for Str {
    fn eq(&self, other: &str) -> (r: bool) {
        let s1: &str = self.borrow_str();
        same_text(s1, other)
    }
}

impl vstd::std_specs::cmp::PartialEqSpecImpl<str> for Str {
    open spec fn obeys_eq_spec() -> bool {
        true
    }

    open spec fn eq_spec(&self, other: &str) -> bool {
        self@ == other@
    }
}

impl PartialEq<Str> for Str {
    fn eq(&self, other: &Str) -> (r: bool) {
        let s2: &str = other.borrow_str();
        self.eq(s2)
    }
}

impl vstd::std_specs::cmp::PartialEqSpecImpl<Str> for Str {
    open spec fn obeys_eq_spec() -> bool {
        true
    }

    open spec fn eq_spec(&self, other: &Str) -> bool {
        self@ == other@
    }
}

impl Eq for Str {

}

impl PartialOrd<Str> for Str {
    fn partial_cmp(&self, other: &Str) -> (r: Option<Ordering>) {
        Some(self.cmp(other))
    }
}

impl vstd::std_specs::cmp::PartialOrdSpecImpl<Str> for Str {
    open spec fn obeys_partial_cmp_spec() -> bool {
        true
    }

    open spec fn partial_cmp_spec(&self, other: &Str) -> Option<Ordering> {
        Some(text_order(self@, other@))
    }
}

impl Str {
    /// Compares two values by their texts, lexicographically.
    pub fn cmp(&self, other: &Str) -> (r: Ordering)
        ensures
            r == text_order(self@, other@),
    {
        let s1: &str = self.borrow_str();
        let s2: &str = other.borrow_str();
        compare_text(s1, s2)
    }
}

impl Borrow<str> for Str {
    /// Borrows the text as a string slice. Nothing is allocated or copied.
    fn borrow(&self) -> (r: &str)
        ensures
            str::view(r) == self@,
    {
        self.borrow_str()
    }
}

/// `str`'s `Hash::hash`: feeds the text to the hasher, as hashing the slice
/// itself does.
#[verifier::external_body]
fn hash_text<H: Hasher>(s: &str, h: &mut H) {
    s.hash(h)
}

impl Hash for Str {
    /// Hashes the text, and nothing that tells how it is stored.
    fn hash<H: Hasher>(&self, h: &mut H) {
        let s: &str = self.borrow_str();
        hash_text(s, h)
    }
}

/// Two values are equal exactly when their texts are: how either is stored
/// plays no part.
pub proof fn lemma_eq_is_by_text(a: Str, b: Str)
    ensures
        a.eq_spec(&b) <==> a@ == b@,
{
}

/// A value and a string slice compare the same way from either side, and are
/// equal exactly when they hold the same text.
pub proof fn lemma_eq_with_slice_symmetric(a: Str, s: &str)
    ensures
        a.eq_spec(s) <==> s.eq_spec(&a),
        a.eq_spec(s) <==> a@ == s@,
{
}

/// A value stands to any other as a string slice with its text does: a
/// value can be replaced by another with the same text in any comparison.
pub proof fn lemma_order_is_by_text(a: Str, b: Str, c: Str)
    requires
        a@ == b@,
    ensures
        a.partial_cmp_spec(&c) == b.partial_cmp_spec(&c),
        c.partial_cmp_spec(&a) == c.partial_cmp_spec(&b),
        a.eq_spec(&c) == b.eq_spec(&c),
{
}

/// The order agrees with equality: two values compare as equal exactly when
/// they are equal.
pub proof fn lemma_order_agrees_with_eq(a: Str, b: Str)
    ensures
        a.partial_cmp_spec(&b) == Some(Ordering::Equal) <==> a.eq_spec(&b),
{
}

/// The order is total and strict: of two values exactly one is the case,
/// that the first is less, that they are equal, or that the second is less.
/// Less and greater mirror each other.
pub proof fn lemma_order_total(a: Str, b: Str)
    ensures
        a.partial_cmp_spec(&b) == Some(Ordering::Less) <==> precedes(a@, b@),
        a.partial_cmp_spec(&b) == Some(Ordering::Equal) <==> a@ == b@,
        a.partial_cmp_spec(&b) == Some(Ordering::Greater) <==> precedes(b@, a@),
        a.partial_cmp_spec(&b) == Some(Ordering::Less) <==> b.partial_cmp_spec(&a) == Some(
            Ordering::Greater,
        ),
{
    lemma_precedes_total(a@, b@);
    lemma_precedes_irreflexive(a@);
    if precedes(a@, b@) {
        lemma_precedes_asymmetric(a@, b@);
    }
    if precedes(b@, a@) {
        lemma_precedes_asymmetric(b@, a@);
    }
}

/// The order is transitive.
pub proof fn lemma_order_transitive(a: Str, b: Str, c: Str)
    requires
        a.partial_cmp_spec(&b) == Some(Ordering::Less),
        b.partial_cmp_spec(&c) == Some(Ordering::Less),
    ensures
        a.partial_cmp_spec(&c) == Some(Ordering::Less),
{
    lemma_precedes_transitive(a@, b@, c@);
    lemma_precedes_irreflexive(a@);
    if a@ == c@ {
        lemma_precedes_asymmetric(a@, b@);
    }
}

} // verus!

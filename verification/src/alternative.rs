//! A monoid on applicative functors: left-biased choice.
//!
//! An alternative extends [`Applicative`] for a single inner type with the
//! canonical failed value, `empty`, and an associative binary choice,
//! `mirror`, which returns its left operand whenever that operand is
//! successful and its right operand otherwise. `mirror` never builds a new
//! value: it selects one of its two operands unchanged.
//!
//! The laws proved here for the optional shape:
//!
//! - identity: choosing against `empty` on either side selects the other
//!   operand;
//! - left bias: a present left operand is selected whatever the right holds;
//! - associativity: nested choices can be re-associated;
//! - selection: the choice is always one of the two operands, unchanged.

use vstd::prelude::*;

use crate::applicative::Applicative;
use crate::shape::Shape;

verus! {

/// An applicative with a failed value and an associative, left-biased choice
/// between two wrapped values of the same inner type.
pub trait Alternative<A>: Applicative<A, A, A> {
    /// The canonical failed (absent) wrapped value: the identity of `mirror`.
    fn empty() -> (r: Self)
        ensures
            !r.present(),
    ;

    /// Left-biased choice: the left operand if it is successful, otherwise
    /// the right operand, either one returned unchanged.
    fn mirror(l: Self, r: Self) -> (out: Self)
        ensures
            l.present() ==> out == l,
            !l.present() ==> out == r,
    ;
}

impl<A> Alternative<A> for Option<A> {
    fn empty() -> (r: Option<A>) {
        None
    }

    fn mirror(l: Option<A>, r: Option<A>) -> (out: Option<A>) {
        match (l, r) {
            (None, r) => r,
            (l, _) => l,
        }
    }
}

/// What the left-biased choice between two optional values yields.
pub open spec fn spec_mirror_option<A>(l: Option<A>, r: Option<A>) -> Option<A> {
    if l is Some {
        l
    } else {
        r
    }
}

/// Alternative identity laws, optional shape: the absent value is a left and
/// right identity of the choice.
pub proof fn lemma_alternative_identity<A>(w: Option<A>)
    ensures
        spec_mirror_option(None, w) == w,
        spec_mirror_option(w, None) == w,
{
}

/// Alternative left bias, optional shape: a present left operand is chosen
/// unchanged, whatever the right operand holds.
pub proof fn lemma_alternative_bias<A>(l: Option<A>, r: Option<A>)
    requires
        l is Some,
    ensures
        spec_mirror_option(l, r) == l,
{
}

/// Alternative associativity, optional shape: nested choices can be
/// re-associated without changing the result.
pub proof fn lemma_alternative_associativity<A>(a: Option<A>, b: Option<A>, c: Option<A>)
    ensures
        spec_mirror_option(spec_mirror_option(a, b), c) == spec_mirror_option(
            a,
            spec_mirror_option(b, c),
        ),
{
}

/// The choice never constructs a new value: it is always one of the two
/// operands, unchanged.
pub proof fn lemma_alternative_selects<A>(l: Option<A>, r: Option<A>)
    ensures
        spec_mirror_option(l, r) == l || spec_mirror_option(l, r) == r,
{
}

} // verus!

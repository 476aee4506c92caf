//! A mapping between categories.
//!
//! A functor is a shape whose contents can be transformed by a pure mapping
//! while the shape itself — presence, or the failure payload — is left
//! untouched. The laws a functor obeys are stated here over spec-level models
//! of the transformation and proved for each reference shape:
//!
//! - identity: transforming with the identity mapping gives back the input;
//! - composition: transforming with `g` and then with `f` equals transforming
//!   once with their composition.

use vstd::prelude::*;

use crate::shape::Shape;

verus! {

/// A shape supporting `rmap`: transform the carried inner value of type `A`
/// into one of type `B`, preserving the shape itself.
///
/// The contract ranges over an arbitrary, possibly non-deterministic mapping:
/// whatever `rmap` returns is present exactly when the input was, its inner
/// value is an output the mapping admits for the input's inner value, and a
/// failure passes through with its payload unchanged. The mapping's
/// precondition is demanded only for a present inner value, so no
/// implementation can invoke the mapping on a failed input.
pub trait Functor<A, B>: Shape<A> {
    /// The wrapped type of the same shape whose inner type is `B`.
    type Target: Shape<B, Fail = Self::Fail>;

    /// Lift a mapping on inner values into the shape.
    fn rmap<F: FnOnce(A) -> B>(self, f: F) -> (r: Self::Target)
        requires
            self.present() ==> call_requires(f, (self.value(),)),
        ensures
            r.present() == self.present(),
            self.present() ==> call_ensures(f, (self.value(),), r.value()),
            !self.present() ==> r.fail() == self.fail(),
    ;
}

impl<A, B> Functor<A, B> for Option<A> {
    type Target = Option<B>;

    fn rmap<F: FnOnce(A) -> B>(self, f: F) -> (r: Option<B>) {
        match self {
            None => None,
            Some(a) => Some(f(a)),
        }
    }
}

impl<A, B, E> Functor<A, B> for Result<A, E> {
    type Target = Result<B, E>;

    fn rmap<F: FnOnce(A) -> B>(self, f: F) -> (r: Result<B, E>) {
        match self {
            Err(e) => Err(e),
            Ok(a) => Ok(f(a)),
        }
    }
}

/// Free-function form of [`Functor::rmap`]: lift a mapping over a wrapped value.
pub fn fmap<A, B, W: Functor<A, B>, F: FnOnce(A) -> B>(f: F, fa: W) -> (r: W::Target)
    requires
        fa.present() ==> call_requires(f, (fa.value(),)),
    ensures
        r.present() == fa.present(),
        fa.present() ==> call_ensures(f, (fa.value(),), r.value()),
        !fa.present() ==> r.fail() == fa.fail(),
{
    fa.rmap(f)
}

/// What transforming an optional value with the pure mapping `g` yields.
pub open spec fn spec_rmap_option<A, B>(w: Option<A>, g: spec_fn(A) -> B) -> Option<B> {
    match w {
        None => None,
        Some(a) => Some(g(a)),
    }
}

/// What transforming a fallible value with the pure mapping `g` yields.
pub open spec fn spec_rmap_result<A, B, E>(w: Result<A, E>, g: spec_fn(A) -> B) -> Result<B, E> {
    match w {
        Err(e) => Err(e),
        Ok(a) => Ok(g(a)),
    }
}

/// Any result the contract of `rmap` (or `seq`) admits on an optional value,
/// for a mapping that computes the pure function `g`, is exactly
/// `spec_rmap_option(w, g)`.
pub proof fn lemma_rmap_option_models<A, B, F: FnOnce(A) -> B>(
    w: Option<A>,
    f: F,
    r: Option<B>,
    g: spec_fn(A) -> B,
)
    requires
        r.present() == w.present(),
        w.present() ==> call_ensures(f, (w.value(),), r.value()),
        forall|a: A, b: B| call_ensures(f, (a,), b) ==> b == g(a),
    ensures
        r == spec_rmap_option(w, g),
{
}

/// Any result the contract of `rmap` (or `seq`) admits on a fallible value,
/// for a mapping that computes the pure function `g`, is exactly
/// `spec_rmap_result(w, g)`.
pub proof fn lemma_rmap_result_models<A, B, E, F: FnOnce(A) -> B>(
    w: Result<A, E>,
    f: F,
    r: Result<B, E>,
    g: spec_fn(A) -> B,
)
    requires
        r.present() == w.present(),
        w.present() ==> call_ensures(f, (w.value(),), r.value()),
        !w.present() ==> r.fail() == w.fail(),
        forall|a: A, b: B| call_ensures(f, (a,), b) ==> b == g(a),
    ensures
        r == spec_rmap_result(w, g),
{
}

/// Functor identity law, optional shape: transforming with the identity
/// mapping yields the input unchanged.
pub proof fn lemma_functor_identity_option<A>(w: Option<A>)
    ensures
        spec_rmap_option(w, (|a: A| a)) == w,
{
}

/// Functor identity law, fallible shape: transforming with the identity
/// mapping yields the input unchanged.
pub proof fn lemma_functor_identity_result<A, E>(w: Result<A, E>)
    ensures
        spec_rmap_result(w, (|a: A| a)) == w,
{
}

/// Functor composition law, optional shape: transforming with `g` and then
/// with `f` equals transforming once with the composition of `f` after `g`.
pub proof fn lemma_functor_composition_option<A, B, C>(
    w: Option<A>,
    f: spec_fn(B) -> C,
    g: spec_fn(A) -> B,
)
    ensures
        spec_rmap_option(spec_rmap_option(w, g), f) == spec_rmap_option(w, (|a: A| f(g(a)))),
{
}

/// Functor composition law, fallible shape: transforming with `g` and then
/// with `f` equals transforming once with the composition of `f` after `g`.
pub proof fn lemma_functor_composition_result<A, B, C, E>(
    w: Result<A, E>,
    f: spec_fn(B) -> C,
    g: spec_fn(A) -> B,
)
    ensures
        spec_rmap_result(spec_rmap_result(w, g), f) == spec_rmap_result(w, (|a: A| f(g(a)))),
{
}

} // verus!

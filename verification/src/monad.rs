//! Sequencing of computations inside a shape.
//!
//! A monad extends [`Applicative`] with `bind`: thread a wrapped value's
//! successful inner value through a function that itself returns a wrapped
//! value of the same shape, short-circuiting on failure. `ret` embeds a bare
//! value and is `pure` under another name, with no independent
//! implementation.
//!
//! The laws proved here for the optional shape:
//!
//! - left identity: binding an embedded value applies the function to it;
//! - right identity: binding with the embedding changes nothing;
//! - short-circuit: binding an absent value is absent;
//! - associativity: nested binds can be re-associated.

use vstd::prelude::*;

use crate::applicative::Applicative;
use crate::shape::Shape;

verus! {

/// An applicative whose computations can be sequenced: `bind` feeds the inner
/// value of type `A` to a continuation producing a wrapped `B` of the same
/// shape.
///
/// The continuation's precondition is demanded only for a present inner
/// value, so no implementation can invoke the continuation once the input has
/// failed — the short-circuit is part of the contract, not a convention.
pub trait Monad<A, B>: Applicative<A, A, B> {
    /// Sequence a computation: apply the continuation to a present inner
    /// value, pass a failure through unchanged.
    fn bind<F: Fn(A) -> Self::Target>(ma: Self, f: F) -> (r: Self::Target)
        requires
            ma.present() ==> call_requires(f, (ma.value(),)),
        ensures
            ma.present() ==> call_ensures(f, (ma.value(),), r),
            !ma.present() ==> !r.present() && r.fail() == ma.fail(),
    ;

    /// Embed a bare inner value; identical to [`Applicative::pure`].
    fn ret(a: A) -> (r: Self)
        ensures
            r.present(),
            r.value() == a,
    {
        Self::pure(a)
    }
}

impl<A, B> Monad<A, B> for Option<A> {
    fn bind<F: Fn(A) -> Option<B>>(ma: Option<A>, f: F) -> (r: Option<B>) {
        match ma {
            Some(a) => f(a),
            None => None,
        }
    }
}

/// What binding an optional value through the pure continuation `g` yields.
pub open spec fn spec_bind_option<A, B>(m: Option<A>, g: spec_fn(A) -> Option<B>) -> Option<B> {
    match m {
        Some(a) => g(a),
        None => None,
    }
}

/// Any result the contract of `bind` admits on an optional value, for a
/// continuation that computes the pure function `g`, is exactly
/// `spec_bind_option(m, g)`.
pub proof fn lemma_bind_option_models<A, B, F: Fn(A) -> Option<B>>(
    m: Option<A>,
    f: F,
    r: Option<B>,
    g: spec_fn(A) -> Option<B>,
)
    requires
        m.present() ==> call_ensures(f, (m.value(),), r),
        !m.present() ==> !r.present(),
        forall|a: A, w: Option<B>| call_ensures(f, (a,), w) ==> w == g(a),
    ensures
        r == spec_bind_option(m, g),
{
}

/// Monad left identity law, optional shape: binding an embedded value applies
/// the continuation to the bare value.
pub proof fn lemma_monad_left_identity<A, B>(a: A, g: spec_fn(A) -> Option<B>)
    ensures
        spec_bind_option(Some(a), g) == g(a),
{
}

/// Monad right identity law, optional shape: binding with the embedding gives
/// back the input unchanged.
pub proof fn lemma_monad_right_identity<A>(m: Option<A>)
    ensures
        spec_bind_option(m, (|a: A| Some(a))) == m,
{
}

/// Monad short-circuit law, optional shape: binding an absent value is
/// absent, whatever the continuation. (That the continuation is never
/// invoked on an absent input is enforced by `bind`'s precondition, which
/// admits the call only for a present inner value.)
pub proof fn lemma_monad_short_circuit<A, B>(g: spec_fn(A) -> Option<B>)
    ensures
        spec_bind_option(Option::<A>::None, g) is None,
{
}

/// Monad associativity law, optional shape: nested binds can be re-associated
/// without changing the result.
pub proof fn lemma_monad_associativity<A, B, C>(
    m: Option<A>,
    f: spec_fn(A) -> Option<B>,
    g: spec_fn(B) -> Option<C>,
)
    ensures
        spec_bind_option(spec_bind_option(m, f), g) == spec_bind_option(
            m,
            (|a: A| spec_bind_option(f(a), g)),
        ),
{
}

} // verus!

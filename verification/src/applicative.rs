//! A functor that can embed pure expressions and combine computations.
//!
//! An applicative functor extends [`Functor`] with two operations:
//! `pure` embeds a bare inner value as the minimal successful wrapped value,
//! and `lift_a2` applies a pure binary function to the inner values of two
//! wrapped arguments, but only when both are in their successful state;
//! otherwise the first failure, taken left to right, propagates unchanged.
//! `seq` applies a unary function to one wrapped argument and behaves exactly
//! as `rmap`; it is kept as a named operation for symmetry with `lift_a2`.
//!
//! The laws proved here for each reference shape:
//!
//! - homomorphism: combining two embedded values equals embedding the
//!   function's result;
//! - failure absorption: a failed argument makes the whole combination fail,
//!   and when both arguments have failed the first argument's failure is the
//!   one kept (left bias).

use vstd::prelude::*;

use crate::functor::Functor;
use crate::shape::Shape;

verus! {

/// A functor with application over inner types `A` and `B`, producing `C`.
///
/// `Self` is the wrapped type carrying `A`; [`Applicative::Second`] is the
/// companion wrapped type of the same shape carrying `B`; the inherited
/// [`Functor::Target`] is the one carrying `C`. All three share one failure
/// payload type.
///
/// `lift_a2`'s contract demands the combining function's precondition only
/// when both arguments are present, so no implementation can invoke it once
/// either argument has failed; the clauses on the failure payload fix the
/// left-to-right tie-break when both arguments have failed.
pub trait Applicative<A, B, C>: Functor<A, C> {
    /// The wrapped type of the same shape whose inner type is `B`.
    type Second: Shape<B, Fail = Self::Fail>;

    /// Embed a bare inner value as the minimal successful wrapped value.
    fn pure(a: A) -> (r: Self)
        ensures
            r.present(),
            r.value() == a,
    ;

    /// Apply a pure unary function inside the shape.
    fn seq<F: Fn(A) -> C>(f: F, fa: Self) -> (r: Self::Target)
        requires
            fa.present() ==> call_requires(f, (fa.value(),)),
        ensures
            r.present() == fa.present(),
            fa.present() ==> call_ensures(f, (fa.value(),), r.value()),
            !fa.present() ==> r.fail() == fa.fail(),
    ;

    /// Lift a pure binary function over two wrapped arguments.
    fn lift_a2<F: Fn(A, B) -> C>(f: F, fa: Self, fb: Self::Second) -> (r: Self::Target)
        requires
            fa.present() && fb.present() ==> call_requires(f, (fa.value(), fb.value())),
        ensures
            r.present() == (fa.present() && fb.present()),
            fa.present() && fb.present() ==> call_ensures(
                f,
                (fa.value(), fb.value()),
                r.value(),
            ),
            !fa.present() ==> r.fail() == fa.fail(),
            fa.present() && !fb.present() ==> r.fail() == fb.fail(),
    ;
}

impl<A, B, C> Applicative<A, B, C> for Option<A> {
    type Second = Option<B>;

    fn pure(a: A) -> (r: Option<A>) {
        Some(a)
    }

    fn seq<F: Fn(A) -> C>(f: F, fa: Option<A>) -> (r: Option<C>) {
        match fa {
            Some(a) => Some(f(a)),
            _ => None,
        }
    }

    fn lift_a2<F: Fn(A, B) -> C>(f: F, fa: Option<A>, fb: Option<B>) -> (r: Option<C>) {
        match (fa, fb) {
            (Some(a), Some(b)) => Some(f(a, b)),
            _ => None,
        }
    }
}

impl<A, B, C, E> Applicative<A, B, C> for Result<A, E> {
    type Second = Result<B, E>;

    fn pure(a: A) -> (r: Result<A, E>) {
        Ok(a)
    }

    fn seq<F: Fn(A) -> C>(f: F, fa: Result<A, E>) -> (r: Result<C, E>) {
        match fa {
            Ok(a) => Ok(f(a)),
            Err(e) => Err(e),
        }
    }

    fn lift_a2<F: Fn(A, B) -> C>(f: F, fa: Result<A, E>, fb: Result<B, E>) -> (r: Result<C, E>) {
        match (fa, fb) {
            (Ok(a), Ok(b)) => Ok(f(a, b)),
            (Err(e), _) => Err(e),
            (Ok(_), Err(e)) => Err(e),
        }
    }
}

/// What combining two optional values with the pure binary function `g`
/// yields: the function's result when both are present, absence otherwise.
pub open spec fn spec_lift_a2_option<A, B, C>(
    g: spec_fn(A, B) -> C,
    fa: Option<A>,
    fb: Option<B>,
) -> Option<C> {
    match (fa, fb) {
        (Some(a), Some(b)) => Some(g(a, b)),
        _ => None,
    }
}

/// What combining two fallible values with the pure binary function `g`
/// yields: the function's result when both succeeded, otherwise the first
/// error taken left to right.
pub open spec fn spec_lift_a2_result<A, B, C, E>(
    g: spec_fn(A, B) -> C,
    fa: Result<A, E>,
    fb: Result<B, E>,
) -> Result<C, E> {
    match (fa, fb) {
        (Ok(a), Ok(b)) => Ok(g(a, b)),
        (Err(e), _) => Err(e),
        (Ok(_), Err(e)) => Err(e),
    }
}

/// Any result the contract of `lift_a2` admits on optional values, for a
/// combining function that computes the pure function `g`, is exactly
/// `spec_lift_a2_option(g, fa, fb)`.
pub proof fn lemma_lift_a2_option_models<A, B, C, F: Fn(A, B) -> C>(
    fa: Option<A>,
    fb: Option<B>,
    f: F,
    r: Option<C>,
    g: spec_fn(A, B) -> C,
)
    requires
        r.present() == (fa.present() && fb.present()),
        fa.present() && fb.present() ==> call_ensures(f, (fa.value(), fb.value()), r.value()),
        forall|a: A, b: B, c: C| call_ensures(f, (a, b), c) ==> c == g(a, b),
    ensures
        r == spec_lift_a2_option(g, fa, fb),
{
}

/// Any result the contract of `lift_a2` admits on fallible values, for a
/// combining function that computes the pure function `g`, is exactly
/// `spec_lift_a2_result(g, fa, fb)`.
pub proof fn lemma_lift_a2_result_models<A, B, C, E, F: Fn(A, B) -> C>(
    fa: Result<A, E>,
    fb: Result<B, E>,
    f: F,
    r: Result<C, E>,
    g: spec_fn(A, B) -> C,
)
    requires
        r.present() == (fa.present() && fb.present()),
        fa.present() && fb.present() ==> call_ensures(f, (fa.value(), fb.value()), r.value()),
        !fa.present() ==> r.fail() == fa.fail(),
        fa.present() && !fb.present() ==> r.fail() == fb.fail(),
        forall|a: A, b: B, c: C| call_ensures(f, (a, b), c) ==> c == g(a, b),
    ensures
        r == spec_lift_a2_result(g, fa, fb),
{
}

/// Applicative homomorphism law, optional shape: combining two embedded
/// values equals embedding the already-applied result.
pub proof fn lemma_homomorphism_option<A, B, C>(g: spec_fn(A, B) -> C, a: A, b: B)
    ensures
        spec_lift_a2_option(g, Some(a), Some(b)) == Some(g(a, b)),
{
}

/// Applicative homomorphism law, fallible shape: combining two embedded
/// values equals embedding the already-applied result.
pub proof fn lemma_homomorphism_result<A, B, C, E>(g: spec_fn(A, B) -> C, a: A, b: B)
    ensures
        spec_lift_a2_result::<A, B, C, E>(g, Ok(a), Ok(b)) == Result::<C, E>::Ok(g(a, b)),
{
}

/// Applicative failure absorption, optional shape: one absent argument makes
/// the whole combination absent, on either side.
pub proof fn lemma_absorption_option<A, B, C>(g: spec_fn(A, B) -> C, fa: Option<A>, fb: Option<B>)
    ensures
        spec_lift_a2_option(g, None, fb) is None,
        spec_lift_a2_option(g, fa, None) is None,
{
}

/// Applicative failure absorption, fallible shape: a failed first argument
/// propagates its error whatever the second argument holds — in particular
/// when both have failed, the first error wins (left bias) — and a failed
/// second argument propagates its error when the first succeeded.
pub proof fn lemma_absorption_result<A, B, C, E>(
    g: spec_fn(A, B) -> C,
    e1: E,
    e2: E,
    fb: Result<B, E>,
    a: A,
)
    ensures
        spec_lift_a2_result::<A, B, C, E>(g, Err(e1), fb) == Result::<C, E>::Err(e1),
        spec_lift_a2_result::<A, B, C, E>(g, Err(e1), Err(e2)) == Result::<C, E>::Err(e1),
        spec_lift_a2_result::<A, B, C, E>(g, Ok(a), Err(e2)) == Result::<C, E>::Err(e2),
{
}

} // verus!

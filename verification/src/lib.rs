//! Algebraic capability traits over single-slot container shapes.
//!
//! A small hierarchy of capabilities — [`Functor`], [`Applicative`],
//! [`Monad`], [`Alternative`], and [`Semigroup`] — defined generically over
//! "effect shapes": types that wrap a single inner value which may be present
//! or absent, such as optional and fallible values. Each capability's
//! operations carry full functional contracts, and the algebraic laws the
//! capabilities obey are stated as proof functions and proved for every
//! reference shape.
//!
//! The language offers no generics over type constructors, so a shape family
//! is encoded by parameterizing each capability trait explicitly over the
//! inner types involved, with the wrapped companion types as associated types
//! constrained to share one failure payload.

use vstd::prelude::*;

pub mod alternative;
pub mod applicative;
pub mod functor;
pub mod monad;
pub mod semigroup;
pub mod shape;

pub use {
    alternative::Alternative, applicative::Applicative, functor::Functor, monad::Monad,
    semigroup::Monoid, semigroup::Semigroup, shape::Shape,
};

verus! {

/// Identity morphism: for any input, gives back the same value.
pub fn id<T>(t: T) -> (r: T)
    ensures
        r == t,
{
    t
}

} // verus!

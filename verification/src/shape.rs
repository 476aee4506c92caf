//! The spec-level view of a single-slot effect shape.
//!
//! Every wrapped value of a shape is, mathematically, one of two things: a
//! present (successful) value carrying the inner type, or a failure carrying a
//! failure payload. For the optional shape the payload is `()`; for the
//! fallible shape it is the error type. The capability traits state their
//! contracts over this view, so one contract ranges over every shape.

use vstd::prelude::*;

verus! {

/// What a wrapped value of a single-slot shape looks like to a specification:
/// whether an inner value is present, which inner value that is, and what the
/// failure payload is when none is.
pub trait Shape<A>: Sized {
    /// The failure payload carried when no inner value is present:
    /// `()` for the optional shape, the error type for the fallible shape.
    type Fail;

    /// Whether this wrapped value is in its successful state.
    spec fn present(self) -> bool;

    /// The inner value carried in the successful state.
    spec fn value(self) -> A;

    /// The failure payload carried in the failed state.
    spec fn fail(self) -> Self::Fail;
}

impl<A> Shape<A> for Option<A> {
    type Fail = ();

    open spec fn present(self) -> bool {
        self is Some
    }

    open spec fn value(self) -> A {
        self->0
    }

    open spec fn fail(self) -> () {
        ()
    }
}

impl<A, E> Shape<A> for Result<A, E> {
    type Fail = E;

    open spec fn present(self) -> bool {
        self is Ok
    }

    open spec fn value(self) -> A {
        self->Ok_0
    }

    open spec fn fail(self) -> E {
        self->Err_0
    }
}

} // verus!

//! Associative combination of whole values of one concrete type.
//!
//! A [`Semigroup`] has one operation, `rconcat`, combining two values of the
//! implementing type. Its law — associativity — is not merely documented: the
//! trait carries a proof obligation, so every instance proves that its
//! combination, seen through the instance's spec-level model, associates.
//!
//! A [`Monoid`] additionally designates an identity element that leaves any
//! value unchanged when combined on either side, again with the proof
//! obligations carried by the trait.
//!
//! Reference instances: text combines by concatenation (identity: empty
//! text); sequences combine by concatenation preserving left-then-right order
//! (identity: the empty sequence); an optional of a semigroup treats absence
//! as an identity and combines two present values through the inner semigroup
//! (identity: absent); the unit type combines to itself.

use vstd::prelude::*;

use vstd::string::StringExecFns;

verus! {

/// A type with an associative combination.
///
/// [`Semigroup::M`] is the mathematical model of a value (a sequence of
/// characters for text, a sequence for vectors); [`Semigroup::op`] is the
/// combination on models, proved associative by every instance through
/// [`Semigroup::op_associative`]; and the executable `rconcat` is exact with
/// respect to `op`.
pub trait Semigroup: Sized {
    /// The spec-level model of a value of this type.
    type M;

    /// The model of this value.
    spec fn model(self) -> Self::M;

    /// The associative combination, on models.
    spec fn op(a: Self::M, b: Self::M) -> Self::M;

    /// The semigroup law: `op` associates. Every instance must prove it.
    proof fn op_associative(a: Self::M, b: Self::M, c: Self::M)
        ensures
            Self::op(Self::op(a, b), c) == Self::op(a, Self::op(b, c)),
    ;

    /// Combine this value with another; neither operand's contents leak or
    /// reorder: the result models the combination of the operands' models.
    fn rconcat(self, x: Self) -> (r: Self)
        ensures
            r.model() == Self::op(self.model(), x.model()),
    ;
}

/// A semigroup with an identity element on both sides.
///
/// Declared as an extension point; instances designate their identity and
/// prove that it leaves any model unchanged when combined on either side.
pub trait Monoid: Semigroup {
    /// The model of the identity element.
    spec fn unit() -> Self::M;

    /// The identity law on the left: combining the identity with any value
    /// leaves it unchanged.
    proof fn unit_left(a: Self::M)
        ensures
            Self::op(Self::unit(), a) == a,
    ;

    /// The identity law on the right: combining any value with the identity
    /// leaves it unchanged.
    proof fn unit_right(a: Self::M)
        ensures
            Self::op(a, Self::unit()) == a,
    ;

    /// The identity element itself.
    fn identity() -> (r: Self)
        ensures
            r.model() == Self::unit(),
    ;
}

/// Free-function form of [`Semigroup::rconcat`]: combine two values of one
/// semigroup.
pub fn concat<S: Semigroup>(x: S, y: S) -> (r: S)
    ensures
        r.model() == S::op(x.model(), y.model()),
{
    x.rconcat(y)
}

impl Semigroup for String {
    type M = Seq<char>;

    open spec fn model(self) -> Seq<char> {
        self@
    }

    open spec fn op(a: Seq<char>, b: Seq<char>) -> Seq<char> {
        a + b
    }

    proof fn op_associative(a: Seq<char>, b: Seq<char>, c: Seq<char>) {
        assert((a + b) + c =~= a + (b + c));
    }

    fn rconcat(self, x: Self) -> (r: Self) {
        self.concat(x.as_str())
    }
}

impl Monoid for String {
    open spec fn unit() -> Seq<char> {
        Seq::empty()
    }

    proof fn unit_left(a: Seq<char>) {
        assert(Seq::<char>::empty() + a =~= a);
    }

    proof fn unit_right(a: Seq<char>) {
        assert(a + Seq::<char>::empty() =~= a);
    }

    fn identity() -> (r: Self) {
        String::new()
    }
}

impl<T: Copy> Semigroup for Vec<T> {
    type M = Seq<T>;

    open spec fn model(self) -> Seq<T> {
        self@
    }

    open spec fn op(a: Seq<T>, b: Seq<T>) -> Seq<T> {
        a + b
    }

    proof fn op_associative(a: Seq<T>, b: Seq<T>, c: Seq<T>) {
        assert((a + b) + c =~= a + (b + c));
    }

    fn rconcat(self, x: Self) -> (r: Self) {
        let ghost a = self@;
        let ghost b = x@;
        let mut v = self;
        let mut i: usize = 0;
        while i < x.len()
            invariant
                i <= b.len(),
                x@ == b,
                v@ == a + b.subrange(0, i as int),
            decreases b.len() - i,
        {
            v.push(x[i]);
            proof {
                assert(a + b.subrange(0, i as int) + seq![b[i as int]] =~= a + b.subrange(
                    0,
                    i as int + 1,
                ));
            }
            i = i + 1;
        }
        proof {
            assert(a + b.subrange(0, b.len() as int) =~= a + b);
        }
        v
    }
}

impl<T: Copy> Monoid for Vec<T> {
    open spec fn unit() -> Seq<T> {
        Seq::empty()
    }

    proof fn unit_left(a: Seq<T>) {
        assert(Seq::<T>::empty() + a =~= a);
    }

    proof fn unit_right(a: Seq<T>) {
        assert(a + Seq::<T>::empty() =~= a);
    }

    fn identity() -> (r: Self) {
        Vec::new()
    }
}

impl<T: Semigroup> Semigroup for Option<T> {
    type M = Option<T::M>;

    open spec fn model(self) -> Option<T::M> {
        match self {
            None => None,
            Some(t) => Some(t.model()),
        }
    }

    open spec fn op(a: Option<T::M>, b: Option<T::M>) -> Option<T::M> {
        match (a, b) {
            (None, y) => y,
            (x, None) => x,
            (Some(x), Some(y)) => Some(T::op(x, y)),
        }
    }

    proof fn op_associative(a: Option<T::M>, b: Option<T::M>, c: Option<T::M>) {
        if a is Some && b is Some && c is Some {
            T::op_associative(a->0, b->0, c->0);
        }
    }

    fn rconcat(self, x: Self) -> (r: Self) {
        match (self, x) {
            (None, y) => y,
            (s, None) => s,
            (Some(s), Some(y)) => Some(s.rconcat(y)),
        }
    }
}

impl<T: Semigroup> Monoid for Option<T> {
    open spec fn unit() -> Option<T::M> {
        None
    }

    proof fn unit_left(a: Option<T::M>) {
    }

    proof fn unit_right(a: Option<T::M>) {
    }

    fn identity() -> (r: Self) {
        None
    }
}

impl Semigroup for () {
    type M = ();

    open spec fn model(self) -> () {
        ()
    }

    open spec fn op(a: (), b: ()) -> () {
        ()
    }

    proof fn op_associative(a: (), b: (), c: ()) {
    }

    fn rconcat(self, _x: Self) -> (r: Self) {
        ()
    }
}

impl Monoid for () {
    open spec fn unit() -> () {
        ()
    }

    proof fn unit_left(a: ()) {
    }

    proof fn unit_right(a: ()) {
    }

    fn identity() -> (r: Self) {
        ()
    }
}

} // verus!

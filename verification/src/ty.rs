//! Type-level utilities: compile-time proofs that two types are the same.
use vstd::prelude::*;
use core::marker::PhantomData;

verus! {

/// A marker trait that is implemented for all types, and proves `Self == Self::This`.
pub trait Identity {
    /// `Self` by some other name.
    type This: ?Sized;
}

impl<T: ?Sized> Identity for T {
    type This = T;
}

/// A marker trait indicating that `Self == T`.
pub trait SameAs<T: ?Sized = Self>: Identity<This = T> {
}

impl<A: ?Sized + Identity<This = B>, B: ?Sized> SameAs<B> for A {
}

/// A value that exists only when the types `A` and `B` are the same: building one is a
/// compile-time check that they are.
#[must_use]
pub struct AssertSame<A: ?Sized + SameAs<B> = (), B: ?Sized = A>(PhantomData<A>, PhantomData<B>);

impl AssertSame {
    /// A witness that `A` and `B` are the same type.
    pub fn of<A: ?Sized + SameAs<B>, B: ?Sized>() -> (r: AssertSame<A, B>)
        ensures
            r == AssertSame::<A, B>::witness(),
    {
        AssertSame::new()
    }

    /// A witness that the types of two (optional) values are the same type.
    pub fn of_val<A: ?Sized + SameAs<B>, B: ?Sized>(_a: Option<&A>, _b: Option<&B>) -> (r:
        AssertSame<A, B>)
        ensures
            r == AssertSame::<A, B>::witness(),
    {
        AssertSame::new()
    }
}

impl<A: ?Sized + SameAs<B>, B: ?Sized> AssertSame<A, B> {
    /// The one value of this type.
    pub closed spec fn witness() -> AssertSame<A, B> {
        AssertSame(PhantomData, PhantomData)
    }

    /// This type has exactly one value.
    pub proof fn lemma_unique(a: AssertSame<A, B>)
        ensures
            a == AssertSame::<A, B>::witness(),
    {
    }

    /// A witness that `A` and `B` are the same type.
    pub fn new() -> (r: AssertSame<A, B>)
        ensures
            r == AssertSame::<A, B>::witness(),
    {
        AssertSame(PhantomData, PhantomData)
    }
}

impl<A: ?Sized + SameAs<B>, B: ?Sized> Clone for AssertSame<A, B> {
    fn clone(&self) -> (r: Self)
        ensures
            r == *self,
    {
        AssertSame(PhantomData, PhantomData)
    }
}

impl<A: ?Sized + SameAs<B>, B: ?Sized> Copy for AssertSame<A, B> {
}

impl<A: ?Sized + SameAs<B>, B: ?Sized> Default for AssertSame<A, B> {
    fn default() -> (r: Self)
        ensures
            r == AssertSame::<A, B>::witness(),
    {
        AssertSame::new()
    }
}

} // verus!

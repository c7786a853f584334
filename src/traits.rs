//! The conversion traits that a wrapper type implements.
use vstd::prelude::*;

verus! {

/// A wrapper around a sized inner value.
pub trait OpaqueTypedefSized: Sized {
    /// Inner sized type.
    type Inner: Sized;
    /// Error type for conversion from the inner type.
    type Error: core::fmt::Debug;

    /// The inner value that the wrapper carries.
    spec fn inner_value(&self) -> Self::Inner;

    /// Whether `inner` may be wrapped.
    spec fn accepts(inner: Self::Inner) -> bool;

    /// Creates a new value from the given inner value.
    fn try_from_inner(inner: Self::Inner) -> (r: Result<Self, Self::Error>)
        ensures
            r is Ok <==> Self::accepts(inner),
            r matches Ok(w) ==> w.inner_value() == inner,
    ;

    /// Creates a new value without validation: the caller vouches that
    /// `inner` is acceptable.
    fn from_inner_unchecked(inner: Self::Inner) -> (r: Self)
        ensures
            r.inner_value() == inner,
    ;

    /// Returns the inner value.
    fn into_inner(self) -> (r: Self::Inner)
        ensures
            r == self.inner_value(),
    ;

    /// Returns a reference to the inner value.
    fn as_inner(&self) -> (r: &Self::Inner)
        ensures
            *r == self.inner_value(),
    ;
}

/// A sized wrapper that accepts every inner value.
pub trait OpaqueTypedefSizedInfallible: OpaqueTypedefSized<Error = core::convert::Infallible> {
    /// Creates a new value from the given inner value, without possibility of failure.
    fn from_inner(inner: Self::Inner) -> (r: Self)
        ensures
            r.inner_value() == inner,
    ;
}

/// A sized wrapper whose inner value may be changed in place.
pub trait OpaqueTypedefSizedMut: OpaqueTypedefSized {
    /// Returns a mutable reference to the inner value.
    fn as_inner_mut(&mut self) -> (r: &mut Self::Inner)
        ensures
            *r == old(self).inner_value(),
            final(self).inner_value() == *final(r),
    ;
}

/// A wrapper around an unsized inner value, reached only through references.
pub trait OpaqueTypedefUnsized {
    /// Inner unsized type.
    type Inner: ?Sized;
    /// Error type for conversion from the inner type.
    type Error: core::fmt::Debug;

    /// Whether `inner` may be wrapped.
    spec fn accepts(inner: &Self::Inner) -> bool;

    /// The inner value that the wrapper `w` stands for.
    spec fn inner_of(w: &Self) -> &Self::Inner;

    /// Creates a new value from the given inner value.
    fn try_from_inner(inner: &Self::Inner) -> (r: Result<&Self, Self::Error>)
        ensures
            r is Ok <==> Self::accepts(inner),
            r matches Ok(w) ==> Self::inner_of(w) == inner,
    ;

    /// Creates a new value without validation: the caller vouches that
    /// `inner` is acceptable, and that `Self` has the layout of `Self::Inner`.
    fn from_inner_unchecked(inner: &Self::Inner) -> (r: &Self)
        ensures
            Self::inner_of(r) == inner,
    ;

    /// Returns a reference to the inner value.
    fn as_inner(&self) -> (r: &Self::Inner)
        ensures
            r == Self::inner_of(self),
    ;
}

/// An unsized wrapper that accepts every inner value.
pub trait OpaqueTypedefUnsizedInfallible: OpaqueTypedefUnsized<Error = core::convert::Infallible> {
    /// Creates a new value from the given inner value, without possibility of failure.
    fn from_inner(inner: &Self::Inner) -> (r: &Self)
        ensures
            Self::inner_of(r) == inner,
    ;
}

/// An unsized wrapper whose inner value may be changed in place.
pub trait OpaqueTypedefUnsizedMut: OpaqueTypedefUnsized {
    /// Creates a new value from the given inner value.
    fn try_from_inner_mut(inner: &mut Self::Inner) -> (r: Result<&mut Self, Self::Error>)
        ensures
            r is Ok <==> Self::accepts(&*old(inner)),
            r matches Ok(w) ==> Self::inner_of(&*w) == &*old(inner),
    ;

    /// Creates a new value without validation: the caller vouches that
    /// `inner` is acceptable, and that `Self` has the layout of `Self::Inner`.
    fn from_inner_unchecked_mut(inner: &mut Self::Inner) -> (r: &mut Self)
        ensures
            Self::inner_of(&*r) == &*old(inner),
    ;

    /// Returns a mutable reference to the inner value.
    fn as_inner_mut(&mut self) -> (r: &mut Self::Inner)
        ensures
            &*r == Self::inner_of(&*old(self)),
    ;
}

/// An unsized wrapper, changeable in place, that accepts every inner value.
pub trait OpaqueTypedefUnsizedInfallibleMut:
    OpaqueTypedefUnsizedMut + OpaqueTypedefUnsizedInfallible {
    /// Creates a new value from the given inner value, without possibility of failure.
    fn from_inner_mut(inner: &mut Self::Inner) -> (r: &mut Self)
        ensures
            Self::inner_of(&*r) == &*old(inner),
    ;
}

} // verus!

//! A container that pairs a value with a one-shot finalizer.
//!
//! [`WithDrop`] owns exactly one value and exactly one finalizer, a callable
//! that consumes the value. The pair is taken apart in exactly one of two
//! ways: [`WithDrop::finalize`] runs the finalizer once, on the value as it
//! stands at that moment, and [`WithDrop::into_inner`] hands the value back
//! and discards the finalizer without running it. Because both consume the
//! container, a second finalization is impossible by ownership alone.
//! Comparison and cloning delegate to the contained value; the finalizer
//! plays no role in them.

use vstd::prelude::*;

verus! {

use core::cmp::Ordering;
use vstd::pervasive::cloned;
use vstd::std_specs::cmp::{
    PartialEqSpec, PartialEqSpecImpl, PartialOrdSpec, PartialOrdSpecImpl,
};

/// Owns one value of type `T` and one finalizer `F`, a one-shot callable
/// that consumes a `T`. The two are released together, by `finalize` or by
/// `into_inner`, never twice.
pub struct WithDrop<T, F: FnOnce(T)> {
    inner: T,
    drop_fn: F,
}

impl<T, F: FnOnce(T)> WithDrop<T, F> {
    /// The contained value.
    pub closed spec fn value(self) -> T {
        self.inner
    }

    /// The finalizer that `finalize` will run on the contained value.
    pub closed spec fn finalizer(self) -> F {
        self.drop_fn
    }

    /// Builds a container from a value and a finalizer. Never fails.
    pub fn new(inner: T, drop_fn: F) -> (r: Self)
        ensures
            r.value() == inner,
            r.finalizer() == drop_fn,
    {
        WithDrop { inner, drop_fn }
    }

    /// Extracts the contained value while discarding the finalizer and the
    /// container. The finalizer is *not* executed: it is dropped unused, and
    /// since the container is consumed here, nothing can run it later.
    pub fn into_inner(self) -> (r: T)
        ensures
            r == self.value(),
    {
        let WithDrop { inner, drop_fn } = self;
        inner
    }

    /// Ends the container's life by running the finalizer, exactly once, on
    /// the value as it stands now — after any mutation made through
    /// `get_mut`. Consuming `self` makes a second run impossible.
    pub fn finalize(self)
        requires
            call_requires(self.finalizer(), (self.value(),)),
        ensures
            call_ensures(self.finalizer(), (self.value(),), ()),
    {
        let WithDrop { inner, drop_fn } = self;
        drop_fn(inner)
    }

    /// Read access to the contained value. No side effects.
    pub fn get(&self) -> (r: &T)
        ensures
            *r == self.value(),
    {
        &self.inner
    }

    /// Write access to the contained value: mutation through the returned
    /// reference becomes the value that `finalize` will hand to the
    /// finalizer. The finalizer itself is untouched.
    pub fn get_mut(&mut self) -> (r: &mut T)
        ensures
            *r == old(self).value(),
            final(self).value() == *final(r),
            final(self).finalizer() == old(self).finalizer(),
    {
        &mut self.inner
    }
}

/// Builds a container from a value and a finalizer; alias for `WithDrop::new`.
pub fn with_drop<T, F: FnOnce(T)>(inner: T, drop_fn: F) -> (r: WithDrop<T, F>)
    ensures
        r.value() == inner,
        r.finalizer() == drop_fn,
{
    WithDrop::new(inner, drop_fn)
}

impl<T: Clone, F: FnOnce(T) + Clone> Clone for WithDrop<T, F> {
    /// An independent container: its value is a clone of the original value
    /// and its finalizer a clone of the original finalizer. Each copy is
    /// finalized or extracted on its own.
    fn clone(&self) -> (r: Self)
        ensures
            cloned::<T>(self.value(), r.value()),
            cloned::<F>(self.finalizer(), r.finalizer()),
    {
        WithDrop { inner: self.inner.clone(), drop_fn: self.drop_fn.clone() }
    }
}

impl<T: PartialEq, F1: FnOnce(T), F2: FnOnce(T)> PartialEq<WithDrop<T, F2>> for WithDrop<T, F1> {
    /// Equality of the contained values; the finalizers are never compared.
    fn eq(&self, other: &WithDrop<T, F2>) -> (r: bool)
        ensures
            call_ensures(T::eq, (&self.value(), &other.value()), r),
            <T as PartialEqSpec>::obeys_eq_spec() ==> r == self.value().eq_spec(&other.value()),
    {
        self.inner.eq(&other.inner)
    }
}

impl<T: PartialEq, F1: FnOnce(T), F2: FnOnce(T)> PartialEqSpecImpl<WithDrop<T, F2>> for WithDrop<T, F1> {
    open spec fn obeys_eq_spec() -> bool {
        T::obeys_eq_spec()
    }

    open spec fn eq_spec(&self, other: &WithDrop<T, F2>) -> bool {
        self.value().eq_spec(&other.value())
    }
}

impl<T: PartialOrd, F1: FnOnce(T), F2: FnOnce(T)> PartialOrd<WithDrop<T, F2>> for WithDrop<T, F1> {
    /// Ordering of the contained values; the finalizers play no role.
    fn partial_cmp(&self, other: &WithDrop<T, F2>) -> (r: Option<Ordering>)
        ensures
            call_ensures(T::partial_cmp, (&self.value(), &other.value()), r),
            <T as PartialOrdSpec>::obeys_partial_cmp_spec() ==> r == self.value().partial_cmp_spec(
                &other.value(),
            ),
    {
        self.inner.partial_cmp(&other.inner)
    }
}

impl<T: PartialOrd, F1: FnOnce(T), F2: FnOnce(T)> PartialOrdSpecImpl<WithDrop<T, F2>> for WithDrop<T, F1> {
    open spec fn obeys_partial_cmp_spec() -> bool {
        T::obeys_partial_cmp_spec()
    }

    open spec fn partial_cmp_spec(&self, other: &WithDrop<T, F2>) -> Option<Ordering> {
        self.value().partial_cmp_spec(&other.value())
    }
}

/// Comparison delegates to the contained values alone: two containers
/// compare, for equality and for order, exactly as their values do,
/// whatever their finalizers are.
pub proof fn lemma_compare_ignores_finalizers<T: PartialOrd, F1: FnOnce(T), F2: FnOnce(T)>(
    a: WithDrop<T, F1>,
    b: WithDrop<T, F2>,
)
    ensures
        PartialEqSpec::eq_spec(&a, &b) == a.value().eq_spec(&b.value()),
        PartialOrdSpec::partial_cmp_spec(&a, &b) == a.value().partial_cmp_spec(&b.value()),
{
}

} // verus!

//! Small wrappers.
use core::ops::{Deref, DerefMut};
use vstd::prelude::*;

verus! {

/// Hides what a value looks like when it is printed.
#[derive(Copy, Clone, PartialEq, Eq, PartialOrd, Ord, Hash)]
pub struct Opaque<T>(pub T);

impl<T> Opaque<T> {
    /// What stands for the value where it would be printed: the same for every value.
    pub fn debug_text(&self) -> (text: String)
        ensures
            text@ == "Any { .. }"@,
    {
        "Any { .. }".to_owned()
    }
}

impl<T> Deref for Opaque<T> {
    type Target = T;

    fn deref(&self) -> (value: &T)
        ensures
            *value == self.0,
    {
        &self.0
    }
}

impl<T> DerefMut for Opaque<T> {
    fn deref_mut(&mut self) -> (value: &mut T)
        ensures
            *value == old(self).0,
            *final(self) == Opaque(*final(value)),
    {
        &mut self.0
    }
}

/// The handle of a background task that is cancelled when its owner goes away, unless the
/// handle was taken out before.
#[derive(Debug)]
pub struct OwnedHandle<H> {
    inner: Option<H>,
}

impl<H> OwnedHandle<H> {
    /// The handle that is still owned, if any.
    pub closed spec fn owned(self) -> Option<H> {
        self.inner
    }

    /// Takes ownership of a task's handle.
    pub fn new(inner: H) -> (handle: Self)
        ensures
            handle.owned() == Some(inner),
    {
        OwnedHandle { inner: Some(inner) }
    }

    /// Gives the handle back. The task is then no longer cancelled.
    pub fn into_inner(self) -> (inner: H)
        requires
            self.owned() is Some,
        ensures
            inner == self.owned()->0,
    {
        let mut this = self;
        this.inner.take().unwrap()
    }

    /// Takes out the handle that is to be cancelled when the owner goes away. There is one at
    /// most once.
    pub fn release(&mut self) -> (inner: Option<H>)
        ensures
            inner == old(self).owned(),
            final(self).owned() is None,
    {
        self.inner.take()
    }
}

/// Tells whether two texts are the same.
pub fn same_text(a: &str, b: &str) -> (same: bool)
    ensures
        same == (a@ == b@),
{
    a.to_owned() == b.to_owned()
}

} // verus!

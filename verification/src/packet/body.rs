use std::ops::Deref;
use vstd::prelude::*;
use vstd::std_specs::convert::FromSpecImpl;

verus! {

/// A payload marked as the body of a packet. The wrapper adds nothing to the value.
#[derive(Clone, Copy, Debug, Eq, Hash, Ord, PartialEq, PartialOrd)]
pub struct PacketBody<T = ()> {
    pub inner: T,
}

impl<T> PacketBody<T> {
    /// Gives the payload back.
    pub fn into_inner(self) -> (inner: T)
        ensures
            inner == self.inner,
    {
        self.inner
    }
}

impl<T> AsRef<T> for PacketBody<T> {
    fn as_ref(&self) -> (inner: &T)
        ensures
            *inner == self.inner,
    {
        &self.inner
    }
}

impl<T> Deref for PacketBody<T> {
    type Target = T;

    fn deref(&self) -> (inner: &T)
        ensures
            *inner == self.inner,
    {
        &self.inner
    }
}

impl<T> From<T> for PacketBody<T> {
    fn from(inner: T) -> (body: Self) {
        PacketBody { inner }
    }
}

impl<T> FromSpecImpl<T> for PacketBody<T> {
    open spec fn obeys_from_spec() -> bool {
        true
    }

    open spec fn from_spec(inner: T) -> Self {
        PacketBody { inner }
    }
}

impl<T: Default> Default for PacketBody<T> {
    fn default() -> (body: Self)
        ensures
            call_ensures(T::default, (), body.inner),
    {
        PacketBody { inner: T::default() }
    }
}

} // verus!

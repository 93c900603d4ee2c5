use vstd::prelude::*;

verus! {

/// A wrapper that carries a value whose contents should stay out of debug
/// output.
pub struct NotDebugged<T> {
    pub inner: T,
}

impl<T> NotDebugged<T> {
    /// Wraps `data`.
    pub fn new(data: T) -> (wrapped: NotDebugged<T>)
        ensures
            wrapped.inner == data,
    {
        NotDebugged { inner: data }
    }

    /// Gives the wrapped value back.
    pub fn unwrap(self) -> (data: T)
        ensures
            data == self.inner,
    {
        self.inner
    }

    /// Borrows the wrapped value.
    pub fn get(&self) -> (data: &T)
        ensures
            *data == self.inner,
    {
        &self.inner
    }
}

impl<T> From<T> for NotDebugged<T> {
    fn from(value: T) -> (wrapped: Self) {
        NotDebugged::new(value)
    }
}

impl<T> vstd::std_specs::convert::FromSpecImpl<T> for NotDebugged<T> {
    open spec fn obeys_from_spec() -> bool {
        true
    }

    open spec fn from_spec(value: T) -> Self {
        NotDebugged { inner: value }
    }
}

} // verus!

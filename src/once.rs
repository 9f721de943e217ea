use vstd::prelude::*;

verus! {

/// A payload that can be moved out exactly once.
pub struct OnceData<T> {
    data: Option<T>,
}

impl<T> OnceData<T> {
    /// What is still held: `Some` until the payload has been taken.
    pub closed spec fn held(&self) -> Option<T> {
        self.data
    }

    pub open spec fn is_taken(&self) -> bool {
        self.held() is None
    }

    pub fn new(data: T) -> (r: Self)
        ensures
            r.held() == Some(data),
    {
        OnceData { data: Some(data) }
    }

    /// Whether the payload has been moved out already.
    pub fn taken(&self) -> (r: bool)
        ensures
            r == self.is_taken(),
    {
        self.data.is_none()
    }

    /// Moves the payload out; a second take is a caller error.
    pub fn take(&mut self) -> (r: T)
        requires
            !old(self).is_taken(),
        ensures
            old(self).held() == Some(r),
            final(self).is_taken(),
    {
        self.data.take().unwrap()
    }

    /// Moves the payload out if it is still there.
    pub fn try_take(&mut self) -> (r: Option<T>)
        ensures
            r == old(self).held(),
            final(self).is_taken(),
    {
        self.data.take()
    }
}

} // verus!

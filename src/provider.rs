use vstd::prelude::*;

verus! {

/// Relies on `core::any::Any::downcast_ref`: the value itself when `T` and
/// `R` are the same type, and `None` otherwise.
#[verifier::external_body]
fn downcast<'a, T: 'static, R: 'static>(value: &'a T) -> (r: Option<&'a R>) {
    (value as &dyn core::any::Any).downcast_ref::<R>()
}

/// A request for a value of type `R`, which a provider may answer.
pub struct Request<'a, R: 'static> {
    slot: Option<&'a R>,
}

impl<'a, R: 'static> Request<'a, R> {
    /// The answer so far.
    pub closed spec fn answer(&self) -> Option<&'a R> {
        self.slot
    }

    /// A request that has not been answered.
    pub fn new() -> (r: Self)
        ensures
            r.answer() is None,
    {
        Request { slot: None }
    }

    /// Offers `val`: it answers the request when the request is still open
    /// and `val` has the requested type. A request once answered keeps its
    /// answer.
    pub fn provide<T: 'static>(&mut self, val: &'a T) -> (r: &mut Self)
        ensures
            old(self).answer() is Some ==> r.answer() == old(self).answer(),
            *final(self) == *final(r),
    {
        if self.slot.is_none() {
            self.slot = downcast::<T, R>(val);
        }
        self
    }

    /// The answer, if any.
    pub fn into_answer(self) -> (r: Option<&'a R>)
        ensures
            r == self.answer(),
    {
        self.slot
    }
}

/// A value that can hand out references to values of various types on
/// request.
pub trait Provider {
    fn provide<'a, R: 'static>(&'a self, request: &mut Request<'a, R>);
}

/// Asks `provider` for a value of type `T`.
pub fn request<'a, T: 'static>(provider: &'a (impl Provider + ?Sized)) -> (r: Option<&'a T>) {
    let mut request: Request<'a, T> = Request::new();
    provider.provide(&mut request);
    request.into_answer()
}

} // verus!

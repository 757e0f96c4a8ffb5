use vstd::prelude::*;

use crate::context::Context;
use crate::culprit::{is_mapped, is_pushed, is_rendering, Culprit};
use crate::src_location::SrcLocation;
use crate::trace::{extends, is_noted, is_trace_of_err, is_unrolled_err, Trace, MAX_TRACE_LEN};

verus! {

/// Turns the failure of a result into a culprit with a new context, at each
/// boundary of a call stack, while the trace records where that happened.
/// A success passes through untouched. Results that already carry a culprit
/// implement it; for a foreign error see `or_ctx_from_err` and its siblings.
pub trait ResultExt: Sized {
    type Ok;

    type Residual;

    /// The success value, if the result is a success.
    spec fn spec_success(&self) -> Option<Self::Ok>;

    /// What the failure hands to a mapper, if the result is a failure.
    spec fn spec_residual(&self) -> Option<Self::Residual>;

    /// The failure, if any, has room for one more trace point.
    spec fn has_room(&self) -> bool;

    /// Re-contextualizes a failure with `op`, converted by `From`.
    fn or_ctx<I, C, F>(self, op: F, location: SrcLocation) -> (r: Result<Self::Ok, Culprit<C>>) where
        F: FnOnce(Self::Residual) -> I,
        C: Context + From<I>,

        requires
            self.has_room(),
            self.spec_residual() matches Some(e) ==> call_requires(op, (e,)),
        ensures
            self.spec_success() matches Some(v) ==> r == Ok::<Self::Ok, Culprit<C>>(v),
            self.spec_success() is None ==> r is Err,
    ;

    /// Re-contextualizes a failure with the target context's own `From`.
    fn or_into_ctx<C>(self, location: SrcLocation) -> (r: Result<Self::Ok, Culprit<C>>) where
        C: Context + From<Self::Residual>,

        requires
            self.has_room(),
        ensures
            self.spec_success() matches Some(v) ==> r == Ok::<Self::Ok, Culprit<C>>(v),
            self.spec_success() is None ==> r is Err,
    ;

    /// Re-contextualizes a failure with `op` and explains why with `note`.
    fn or_culprit<I, C, F>(self, note: String, op: F, location: SrcLocation) -> (r: Result<
        Self::Ok,
        Culprit<C>,
    >) where F: FnOnce(Self::Residual) -> I, C: Context + From<I>
        requires
            self.has_room(),
            self.spec_residual() matches Some(e) ==> call_requires(op, (e,)),
        ensures
            self.spec_success() matches Some(v) ==> r == Ok::<Self::Ok, Culprit<C>>(v),
            self.spec_success() is None ==> r is Err,
    ;

    /// Re-contextualizes a failure with the target context's own `From` and
    /// explains why with `note`.
    fn or_into_culprit<C>(self, note: String, location: SrcLocation) -> (r: Result<
        Self::Ok,
        Culprit<C>,
    >) where C: Context + From<Self::Residual>
        requires
            self.has_room(),
        ensures
            self.spec_success() matches Some(v) ==> r == Ok::<Self::Ok, Culprit<C>>(v),
            self.spec_success() is None ==> r is Err,
    ;
}

/// A result that already carries a culprit: the trace is carried over and
/// grows by exactly one point, so the old context's identity survives in it
/// even though its type is replaced.
impl<T, C1: Context> ResultExt for Result<T, Culprit<C1>> {
    type Ok = T;

    type Residual = C1;

    open spec fn spec_success(&self) -> Option<T> {
        match *self {
            Ok(v) => Some(v),
            Err(_) => None,
        }
    }

    open spec fn spec_residual(&self) -> Option<C1> {
        match *self {
            Ok(_) => None,
            Err(c) => Some(c.spec_ctx()),
        }
    }

    open spec fn has_room(&self) -> bool {
        match *self {
            Ok(_) => true,
            Err(c) => c.spec_trace()@.len() < MAX_TRACE_LEN,
        }
    }

    /// On failure: the context is what `op` makes of the old one, converted
    /// by `From`, and the trace gains one point at `location` whose note is
    /// the old context's rendered form.
    fn or_ctx<I, C2, F>(self, op: F, location: SrcLocation) -> (r: Result<T, Culprit<C2>>) where
        F: FnOnce(C1) -> I,
        C2: Context + From<I>,

        ensures
            self matches Err(c) ==> r matches Err(c2) && is_mapped(op, c.spec_ctx(), c2.spec_ctx())
                && c2.spec_trace()@.len() == c.spec_trace()@.len() + 1 && c2.spec_trace()@.drop_last()
                == c.spec_trace()@ && c2.spec_trace()@.last().spec_location() == Some(location)
                && is_rendering(c.spec_ctx(), c2.spec_trace()@.last().spec_note()) && extends(
                c2.spec_trace(),
                c.spec_trace(),
            ),
    {
        match self {
            Ok(t) => Ok(t),
            Err(culprit) => {
                let note = culprit.ctx().to_string();
                Err(culprit.map_ctx(op).with_note(note, location))
            },
        }
    }

    /// On failure: as `or_ctx`, with the new context converted from the old
    /// one by `From`.
    fn or_into_ctx<C2>(self, location: SrcLocation) -> (r: Result<T, Culprit<C2>>) where
        C2: Context + From<C1>,

        ensures
            self matches Err(c) ==> r matches Err(c2) && call_ensures(
                C2::from,
                (c.spec_ctx(),),
                c2.spec_ctx(),
            ) && c2.spec_trace()@.len() == c.spec_trace()@.len() + 1
                && c2.spec_trace()@.drop_last() == c.spec_trace()@
                && c2.spec_trace()@.last().spec_location() == Some(location) && is_rendering(
                c.spec_ctx(),
                c2.spec_trace()@.last().spec_note(),
            ) && extends(c2.spec_trace(), c.spec_trace()),
    {
        match self {
            Ok(t) => Ok(t),
            Err(culprit) => {
                let note = culprit.ctx().to_string();
                Err(culprit.convert_ctx().with_note(note, location))
            },
        }
    }

    /// On failure: the context is what `op` makes of the old one, converted
    /// by `From`, and the trace gains one point at `location` that carries
    /// `note`.
    fn or_culprit<I, C2, F>(self, note: String, op: F, location: SrcLocation) -> (r: Result<
        T,
        Culprit<C2>,
    >) where F: FnOnce(C1) -> I, C2: Context + From<I>
        ensures
            self matches Err(c) ==> r matches Err(c2) && is_mapped(op, c.spec_ctx(), c2.spec_ctx())
                && is_pushed(c2.spec_trace(), c.spec_trace(), note, location) && extends(
                c2.spec_trace(),
                c.spec_trace(),
            ),
    {
        match self {
            Ok(t) => Ok(t),
            Err(culprit) => Err(culprit.map_ctx(op).with_note(note, location)),
        }
    }

    /// On failure: as `or_culprit`, with the new context converted from the
    /// old one by `From`.
    fn or_into_culprit<C2>(self, note: String, location: SrcLocation) -> (r: Result<
        T,
        Culprit<C2>,
    >) where C2: Context + From<C1>
        ensures
            self matches Err(c) ==> r matches Err(c2) && call_ensures(
                C2::from,
                (c.spec_ctx(),),
                c2.spec_ctx(),
            ) && is_pushed(c2.spec_trace(), c.spec_trace(), note, location) && extends(
                c2.spec_trace(),
                c.spec_trace(),
            ),
    {
        match self {
            Ok(t) => Ok(t),
            Err(culprit) => Err(culprit.convert_ctx().with_note(note, location)),
        }
    }
}

// The combinators on a result that carries a foreign error: the first
// wrapping bootstraps the trace from the error's own chain of causes. They
// are free functions because the verifier accepts no trait implementation
// bounded by `core::error::Error`.

/// On failure: the trace is unrolled from the error at `location`, and
/// the context is what `op` makes of the error, converted by `From`.
pub fn or_ctx_from_err<T, E, I, C, F>(
    result: Result<T, E>,
    op: F,
    location: SrcLocation,
) -> (r: Result<T, Culprit<C>>) where E: core::error::Error, F: FnOnce(E) -> I, C: Context + From<I>

    requires
        result matches Err(e) ==> call_requires(op, (e,)),
    ensures
        result matches Ok(v) ==> r == Ok::<T, Culprit<C>>(v),
        result matches Err(e) ==> r matches Err(c) && is_trace_of_err(c.spec_trace(), e, location)
            && is_mapped(op, e, c.spec_ctx()),
{
    match result {
        Ok(t) => Ok(t),
        Err(e) => {
            let stack = Trace::from_err(&e, location);
            let mid = op(e);
            Err(Culprit::new_with_stack(mid, stack))
        },
    }
}

/// On failure: the trace is unrolled from the error at `location`, and
/// the context is the error converted by `From`.
pub fn or_into_ctx_from_err<T, E, C>(result: Result<T, E>, location: SrcLocation) -> (r: Result<
    T,
    Culprit<C>,
>) where E: core::error::Error, C: Context + From<E>
    ensures
        result matches Ok(v) ==> r == Ok::<T, Culprit<C>>(v),
        result matches Err(e) ==> r matches Err(c) && is_trace_of_err(c.spec_trace(), e, location)
            && call_ensures(C::from, (e,), c.spec_ctx()),
{
    match result {
        Ok(t) => Ok(t),
        Err(e) => Err(Culprit::from_err(e, location)),
    }
}

/// On failure: as `or_ctx_from_err`, with one more point on top that carries
/// `note`.
pub fn or_culprit_from_err<T, E, I, C, F>(
    result: Result<T, E>,
    note: String,
    op: F,
    location: SrcLocation,
) -> (r: Result<T, Culprit<C>>) where E: core::error::Error, F: FnOnce(E) -> I, C: Context + From<I>
    requires
        result matches Err(e) ==> call_requires(op, (e,)),
    ensures
        result matches Ok(v) ==> r == Ok::<T, Culprit<C>>(v),
        result matches Err(e) ==> r matches Err(c) && c.spec_trace()@.len() >= 2 && is_noted(
            c.spec_trace().newest_first()[0],
            note,
            location,
        ) && is_unrolled_err(c.spec_trace().newest_first().drop_first(), e, location)
            && is_mapped(op, e, c.spec_ctx()),
{
    match result {
        Ok(t) => Ok(t),
        Err(e) => {
            let stack = Trace::from_err_with_note(&e, note, location);
            let mid = op(e);
            Err(Culprit::new_with_stack(mid, stack))
        },
    }
}

/// On failure: as `or_into_ctx_from_err`, with one more point on top that
/// carries `note`.
pub fn or_into_culprit_from_err<T, E, C>(
    result: Result<T, E>,
    note: String,
    location: SrcLocation,
) -> (r: Result<T, Culprit<C>>) where E: core::error::Error, C: Context + From<E>
    ensures
        result matches Ok(v) ==> r == Ok::<T, Culprit<C>>(v),
        result matches Err(e) ==> r matches Err(c) && c.spec_trace()@.len() >= 2 && is_noted(
            c.spec_trace().newest_first()[0],
            note,
            location,
        ) && is_unrolled_err(c.spec_trace().newest_first().drop_first(), e, location)
            && call_ensures(C::from, (e,), c.spec_ctx()),
{
    match result {
        Ok(t) => Ok(t),
        Err(e) => {
            let stack = Trace::from_err_with_note(&e, note, location);
            Err(Culprit::new_with_stack(e, stack))
        },
    }
}

} // verus!

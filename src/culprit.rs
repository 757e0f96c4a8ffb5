use vstd::prelude::*;

use crate::context::Context;
use crate::src_location::SrcLocation;
use crate::trace::{extends, is_noted, is_trace_of_err, Trace, TracePoint, MAX_TRACE_LEN};

verus! {

/// `new_ctx` is what `map` makes of `old_ctx`, converted by `From`.
pub open spec fn is_mapped<C, I, C2: From<I>, F: FnOnce(C) -> I>(
    map: F,
    old_ctx: C,
    new_ctx: C2,
) -> bool {
    exists|mid: I| call_ensures(map, (old_ctx,), mid) && call_ensures(C2::from, (mid,), new_ctx)
}

/// `note` is the rendered form of `ctx`, as its `Display` gives it.
pub open spec fn is_rendering<C: core::fmt::Display>(ctx: C, note: String) -> bool {
    vstd::string::to_string_from_display_ensures::<C>(&ctx, note)
}

/// `after` is `before` with exactly one more point on top, which carries
/// `note` and was recorded at `location`.
pub open spec fn is_pushed(after: Trace, before: Trace, note: String, location: SrcLocation) -> bool {
    &&& after@.len() == before@.len() + 1
    &&& after@.drop_last() == before@
    &&& is_noted(after@.last(), note, location)
}

/// Relies on `core::fmt::Debug`: the value's debug form.
#[verifier::external_body]
fn debug_form<C: core::fmt::Debug>(ctx: &C) -> (r: String) {
    format!("{:?}", ctx)
}

/// A propagated failure: exactly one application context and the trace of
/// how the failure was found and re-interpreted.
#[derive(Clone)]
pub struct Culprit<C: Context> {
    ctx: C,
    stack: Trace,
}

impl<C: Context> Culprit<C> {
    /// The context.
    pub closed spec fn spec_ctx(&self) -> C {
        self.ctx
    }

    /// The trace.
    pub closed spec fn spec_trace(&self) -> Trace {
        self.stack
    }

    /// The first failure: the trace holds one point, recorded at `location`,
    /// whose note is the context's rendered form.
    pub fn new(ctx: C, location: SrcLocation) -> (r: Self)
        ensures
            r.spec_ctx() == ctx,
            r.spec_trace()@.len() == 1,
            r.spec_trace()@[0].spec_location() == Some(location),
            is_rendering(ctx, r.spec_trace()@[0].spec_note()),
    {
        let note = ctx.to_string();
        let stack = Trace::from_ctx(TracePoint::new(note, location));
        Culprit { ctx, stack }
    }

    /// The first failure, described by `note` rather than by the context's
    /// rendered form.
    pub fn new_with_note(ctx: C, note: String, location: SrcLocation) -> (r: Self)
        ensures
            r.spec_ctx() == ctx,
            r.spec_trace()@.len() == 1,
            is_noted(r.spec_trace()@[0], note, location),
    {
        let stack = Trace::from_ctx(TracePoint::new(note, location));
        Culprit { ctx, stack }
    }

    /// A culprit from a context and a trace built elsewhere; nothing is
    /// recorded.
    pub fn new_with_stack<I>(ctx: I, stack: Trace) -> (r: Self) where C: From<I>
        ensures
            call_ensures(C::from, (ctx,), r.spec_ctx()),
            r.spec_trace() == stack,
    {
        Culprit { ctx: C::from(ctx), stack }
    }

    /// Wraps a foreign error: the context is converted from it, and the
    /// trace is unrolled from it at `location`.
    pub fn from_err<E: core::error::Error>(err: E, location: SrcLocation) -> (r: Self) where
        C: From<E>,

        ensures
            call_ensures(C::from, (err,), r.spec_ctx()),
            is_trace_of_err(r.spec_trace(), err, location),
    {
        let stack = Trace::from_err(&err, location);
        let ctx = C::from(err);
        Culprit { ctx, stack }
    }

    /// The same failure with one more point on top, carrying `note`.
    pub fn with_note(self, note: String, location: SrcLocation) -> (r: Self)
        requires
            self.spec_trace()@.len() < MAX_TRACE_LEN,
        ensures
            r.spec_ctx() == self.spec_ctx(),
            is_pushed(r.spec_trace(), self.spec_trace(), note, location),
            extends(r.spec_trace(), self.spec_trace()),
    {
        let ghost before = self.stack@;
        let mut culprit = self;
        culprit.stack.push(TracePoint::new(note, location));
        assert(culprit.stack@.drop_last() =~= before);
        culprit
    }

    /// Replaces the context by what `map` makes of it, converted by `From`;
    /// the trace is carried over untouched.
    pub fn map_ctx<I, C2, F>(self, map: F) -> (r: Culprit<C2>) where
        C2: Context + From<I>,
        F: FnOnce(C) -> I,

        requires
            call_requires(map, (self.spec_ctx(),)),
        ensures
            is_mapped(map, self.spec_ctx(), r.spec_ctx()),
            r.spec_trace() == self.spec_trace(),
    {
        let Culprit { ctx, stack } = self;
        let mid = map(ctx);
        Culprit { ctx: C2::from(mid), stack }
    }

    /// Replaces the context by its conversion through `From`; the trace is
    /// carried over untouched.
    pub(crate) fn convert_ctx<C2>(self) -> (r: Culprit<C2>) where C2: Context + From<C>
        ensures
            call_ensures(C2::from, (self.spec_ctx(),), r.spec_ctx()),
            r.spec_trace() == self.spec_trace(),
    {
        let Culprit { ctx, stack } = self;
        Culprit { ctx: C2::from(ctx), stack }
    }

    pub fn ctx(&self) -> (r: &C)
        ensures
            *r == self.spec_ctx(),
    {
        &self.ctx
    }

    pub fn trace(&self) -> (r: &Trace)
        ensures
            *r == self.spec_trace(),
    {
        &self.stack
    }

    /// Splits the culprit into its context and its trace.
    pub fn into_parts(self) -> (r: (C, Trace))
        ensures
            r.0 == self.spec_ctx(),
            r.1 == self.spec_trace(),
    {
        (self.ctx, self.stack)
    }

    pub fn into_err(self) -> (r: CulpritErr<C>)
        ensures
            r.spec_culprit() == self,
    {
        CulpritErr(self)
    }

    /// The human-facing form: the context's rendered form, then the trace,
    /// newest first, one numbered line per point.
    pub fn to_text(&self) -> (r: String)
        ensures
            exists|shown: String|
                is_rendering(self.spec_ctx(), shown) && r@ == shown@ + seq!['\n']
                    + self.spec_trace().spec_text(),
    {
        proof {
            reveal_strlit("\n");
        }
        let mut out = self.ctx.to_string();
        let ghost shown = out;
        out.append("\n");
        self.stack.write_text(&mut out);
        assert(out@ =~= shown@ + seq!['\n'] + self.spec_trace().spec_text());
        assert(is_rendering(self.spec_ctx(), shown));
        out
    }

    /// The diagnostic form: the context's debug form, then the trace,
    /// newest first, one numbered line per point.
    pub fn to_debug_text(&self) -> (r: String)
        ensures
            exists|shown: Seq<char>| r@ == shown + seq!['\n'] + self.spec_trace().spec_text(),
    {
        proof {
            reveal_strlit("\n");
        }
        let mut out = debug_form(&self.ctx);
        let ghost shown = out@;
        out.append("\n");
        self.stack.write_text(&mut out);
        assert(out@ =~= shown + seq!['\n'] + self.spec_trace().spec_text());
        out
    }
}

impl<C: Context> From<Culprit<C>> for (C, Trace) {
    fn from(culprit: Culprit<C>) -> (r: (C, Trace)) {
        culprit.into_parts()
    }
}

impl<C: Context> vstd::std_specs::convert::FromSpecImpl<Culprit<C>> for (C, Trace) {
    open spec fn obeys_from_spec() -> bool {
        true
    }

    open spec fn from_spec(culprit: Culprit<C>) -> (C, Trace) {
        (culprit.spec_ctx(), culprit.spec_trace())
    }
}

/// A culprit handed out as a standalone error value.
pub struct CulpritErr<C: Context>(Culprit<C>);

impl<C: Context> CulpritErr<C> {
    /// The culprit inside.
    pub closed spec fn spec_culprit(&self) -> Culprit<C> {
        self.0
    }

    pub fn into_culprit(self) -> (r: Culprit<C>)
        ensures
            r == self.spec_culprit(),
    {
        self.0
    }
}

} // verus!

use vstd::prelude::*;

use smallvec::SmallVec;

use crate::src_location::SrcLocation;
use crate::text::{decimal, push_decimal, push_str};

verus! {

/// The most points a trace may grow to by `push`. Below it, growing the
/// inline-or-heap buffer can never ask for more memory than an address
/// space can describe, on 32-bit and on 64-bit targets alike.
pub const MAX_TRACE_LEN: usize = 16777216;

/// The storage of a trace: a `smallvec::SmallVec` that keeps one point
/// inline and moves to the heap only when a second one arrives.
#[verifier::external_body]
pub struct PointBuffer {
    items: SmallVec<[TracePoint; 1]>,
}

/// What a trace's buffer holds, oldest point first.
pub uninterp spec fn buffered_points(v: PointBuffer) -> Seq<TracePoint>;

/// Relies on `smallvec::SmallVec::from_buf`: the buffer holds the array's
/// single item, stored inline.
#[verifier::external_body]
fn buffer_of_one(point: TracePoint) -> (r: PointBuffer)
    ensures
        buffered_points(r) == seq![point],
{
    PointBuffer { items: SmallVec::from_buf([point]) }
}

/// Relies on `smallvec::SmallVec::from_vec`: the buffer holds the vector's
/// items in their order.
#[verifier::external_body]
fn buffer_of_vec(points: Vec<TracePoint>) -> (r: PointBuffer)
    ensures
        buffered_points(r) == points@,
{
    PointBuffer { items: SmallVec::from_vec(points) }
}

/// Relies on `smallvec::SmallVec::push`: the item is appended after the
/// others. It panics only where the grown buffer would exceed `isize::MAX`
/// bytes, which the bound on the length rules out.
#[verifier::external_body]
fn buffer_push(v: &mut PointBuffer, point: TracePoint)
    requires
        buffered_points(*old(v)).len() < MAX_TRACE_LEN,
    ensures
        buffered_points(*final(v)) == buffered_points(*old(v)).push(point),
    no_unwind
{
    v.items.push(point)
}

/// Relies on `smallvec::SmallVec::as_slice`: the items, in their order.
#[verifier::external_body]
fn buffer_slice(v: &PointBuffer) -> (r: &[TracePoint])
    ensures
        r@ == buffered_points(*v),
{
    v.items.as_slice()
}

/// One hop in a failure's journey: a note, and the source location of the
/// library call that recorded it. Points unrolled from a foreign error's own
/// chain of causes have no location.
pub struct TracePoint {
    location: Option<SrcLocation>,
    note: String,
}

/// The separator between a note and its location.
pub open spec fn at_separator() -> Seq<char> {
    seq![',', ' ', 'a', 't', ' ']
}

impl Clone for TracePoint {
    fn clone(&self) -> (r: Self)
        ensures
            r.spec_location() == self.spec_location(),
            r.spec_note()@ == self.spec_note()@,
    {
        TracePoint { location: self.location, note: self.note.clone() }
    }
}

impl TracePoint {
    /// Where the point was recorded, if it came from a library call.
    pub closed spec fn spec_location(&self) -> Option<SrcLocation> {
        self.location
    }

    /// The note.
    pub closed spec fn spec_note(&self) -> String {
        self.note
    }

    /// The rendered form: `note`, or `note, at file:line:column`.
    pub open spec fn spec_text(&self) -> Seq<char> {
        match self.spec_location() {
            None => self.spec_note()@,
            Some(loc) => self.spec_note()@ + at_separator() + loc.spec_text(),
        }
    }

    /// A point recorded at `location` with the given note.
    pub fn new(note: String, location: SrcLocation) -> (r: Self)
        ensures
            r.spec_location() == Some(location),
            r.spec_note() == note,
    {
        TracePoint { location: Some(location), note }
    }

    /// A point for one link of a foreign error's chain of causes: the
    /// cause's message, with no location.
    pub fn from_cause(note: String) -> (r: Self)
        ensures
            r.spec_location() is None,
            r.spec_note() == note,
    {
        TracePoint { location: None, note }
    }

    pub fn note(&self) -> (r: &str)
        ensures
            r@ == self.spec_note()@,
    {
        self.note.as_str()
    }

    pub fn location(&self) -> (r: Option<SrcLocation>)
        ensures
            r == self.spec_location(),
    {
        self.location
    }

    /// Appends the rendered form of this point to `out`.
    pub fn write_text(&self, out: &mut String)
        ensures
            final(out)@ == old(out)@ + self.spec_text(),
    {
        proof {
            reveal_strlit(", at ");
        }
        let ghost start = out@;
        push_str(out, self.note.as_str());
        match self.location {
            None => {},
            Some(loc) => {
                push_str(out, ", at ");
                loc.write_text(out);
            },
        }
        assert(out@ =~= start + self.spec_text());
    }

    /// The rendered form: `note`, or `note, at file:line:column`.
    pub fn to_text(&self) -> (r: String)
        ensures
            r@ == self.spec_text(),
    {
        let mut out = String::new();
        self.write_text(&mut out);
        out
    }
}

/// One numbered line of a rendered trace: `index: point`.
pub open spec fn line_text(index: nat, point: TracePoint) -> Seq<char> {
    decimal(index) + seq![':', ' '] + point.spec_text()
}

/// The numbered lines of `points`, in the given order, joined by newlines.
pub open spec fn lines_text(points: Seq<TracePoint>) -> Seq<char>
    decreases points.len(),
{
    if points.len() == 0 {
        seq![]
    } else if points.len() == 1 {
        line_text(0, points[0])
    } else {
        lines_text(points.drop_last()) + seq!['\n'] + line_text(
            (points.len() - 1) as nat,
            points.last(),
        )
    }
}

/// `points`, listed newest first, is what unrolling a foreign error gives:
/// the error's own message, recorded at `location`, then each underlying
/// cause from the outermost to the deepest, with no location.
pub open spec fn is_unrolled(
    points: Seq<TracePoint>,
    message: String,
    causes: Seq<String>,
    location: SrcLocation,
) -> bool {
    &&& points.len() == causes.len() + 1
    &&& points[0].spec_location() == Some(location)
    &&& points[0].spec_note() == message
    &&& forall|k: int|
        1 <= k <= causes.len() ==> (#[trigger] points[k]).spec_location() is None
            && points[k].spec_note() == causes[k - 1]
}

/// `point` was recorded at `location` with the given note.
pub open spec fn is_noted(point: TracePoint, note: String, location: SrcLocation) -> bool {
    point.spec_location() == Some(location) && point.spec_note() == note
}

/// `points`, listed newest first, is what unrolling `err` at `location`
/// gives: the error's own message, as its `Display` renders it, on top of
/// some chain of causes.
pub open spec fn is_unrolled_err<E: core::fmt::Display>(
    points: Seq<TracePoint>,
    err: E,
    location: SrcLocation,
) -> bool {
    exists|message: String, causes: Seq<String>|
        vstd::string::to_string_from_display_ensures::<E>(&err, message) && is_unrolled(
            points,
            message,
            causes,
            location,
        )
}

/// `trace` is what unrolling `err` at `location` gives.
pub open spec fn is_trace_of_err<E: core::fmt::Display>(
    trace: Trace,
    err: E,
    location: SrcLocation,
) -> bool {
    is_unrolled_err(trace.newest_first(), err, location)
}

/// `after` holds every point of `before`, unchanged and in place, and
/// possibly more on top.
pub open spec fn extends(after: Trace, before: Trace) -> bool {
    before@.is_prefix_of(after@)
}

/// Growth is monotonic: along a sequence of traces in which each one extends
/// the one before (as `with_note`, `or_ctx` and `or_culprit` each do), every
/// later trace holds every point of every earlier one, unchanged and in
/// place, and is at least as long.
pub proof fn lemma_growth_is_monotonic(steps: Seq<Trace>)
    requires
        forall|k: int| 0 < k < steps.len() ==> extends(#[trigger] steps[k], steps[k - 1]),
    ensures
        forall|i: int, j: int|
            0 <= i <= j < steps.len() ==> extends(steps[j], steps[i]) && steps[i]@.len()
                <= steps[j]@.len(),
    decreases steps.len(),
{
    if steps.len() > 0 {
        let shorter = steps.drop_last();
        assert forall|k: int| 0 < k < shorter.len() implies extends(
            #[trigger] shorter[k],
            shorter[k - 1],
        ) by {
            assert(shorter[k] == steps[k] && shorter[k - 1] == steps[k - 1]);
        }
        lemma_growth_is_monotonic(shorter);
        let last = steps.len() - 1;
        assert forall|i: int, j: int| 0 <= i <= j < steps.len() implies extends(steps[j], steps[i])
            && steps[i]@.len() <= steps[j]@.len() by {
            if j < last {
                assert(shorter[i] == steps[i] && shorter[j] == steps[j]);
            } else if i < j {
                assert(shorter[i] == steps[i] && shorter[last - 1] == steps[last - 1]);
                assert(extends(steps[last - 1], steps[i]));
                assert(steps[i]@ =~= steps[j]@.subrange(0, steps[i]@.len() as int));
            }
        }
    }
}

/// The ordered lineage of a failure. Points are only ever appended; the
/// newest point is the top of the stack.
pub struct Trace(PointBuffer);

impl Clone for Trace {
    fn clone(&self) -> (r: Self)
        ensures
            r@.len() == self@.len(),
            forall|i: int|
                0 <= i < self@.len() ==> (#[trigger] r@[i]).spec_location() == self@[i].spec_location()
                    && r@[i].spec_note()@ == self@[i].spec_note()@,
    {
        proof {
            use_type_invariant(self);
        }
        let points = buffer_slice(&self.0);
        let n = points.len();
        let mut copies: Vec<TracePoint> = Vec::new();
        let mut i: usize = 0;
        while i < n
            invariant
                i <= n,
                n == self@.len(),
                points@ == self@,
                copies@.len() == i,
                forall|j: int|
                    0 <= j < i ==> (#[trigger] copies@[j]).spec_location() == self@[j].spec_location()
                        && copies@[j].spec_note()@ == self@[j].spec_note()@,
            decreases n - i,
        {
            copies.push(points[i].clone());
            i = i + 1;
        }
        Trace(buffer_of_vec(copies))
    }
}

impl View for Trace {
    /// The points, oldest first.
    type V = Seq<TracePoint>;

    closed spec fn view(&self) -> Seq<TracePoint> {
        buffered_points(self.0)
    }
}

/// Relies on `core::error::Error::source`: the messages of the error's
/// underlying causes, from the outermost to the deepest, each rendered by its
/// `Display`. The walk stays here because each link is a `dyn Error`, a type
/// verified code cannot hold.
#[verifier::external_body]
fn cause_messages<E: core::error::Error>(err: &E) -> (r: Vec<String>) {
    let mut messages = Vec::new();
    let mut source = err.source();
    while let Some(cause) = source {
        messages.push(cause.to_string());
        source = cause.source();
    }
    messages
}

impl Trace {
    #[verifier::type_invariant]
    closed spec fn never_empty(self) -> bool {
        buffered_points(self.0).len() >= 1
    }

    /// The points, newest first: the order in which a trace is listed.
    pub open spec fn newest_first(&self) -> Seq<TracePoint> {
        Seq::new(self@.len(), |i: int| self@[self@.len() - 1 - i])
    }

    /// A trace of one point.
    pub fn from_ctx(point: TracePoint) -> (r: Self)
        ensures
            r@ == seq![point],
    {
        Trace(buffer_of_one(point))
    }

    /// The points of an unrolled foreign error, oldest first: the deepest
    /// cause at the bottom, the error's own message on top.
    fn unrolled_points(message: String, causes: Vec<String>, location: SrcLocation) -> (r: Vec<
        TracePoint,
    >)
        ensures
            r@.len() == causes@.len() + 1,
            is_noted(r@.last(), message, location),
            forall|j: int|
                0 <= j < causes@.len() ==> (#[trigger] r@[j]).spec_location() is None
                    && r@[j].spec_note() == causes@[causes@.len() - 1 - j],
    {
        let ghost all = causes@;
        let n = causes.len();
        let mut causes = causes;
        let mut stack: Vec<TracePoint> = Vec::new();
        // the deepest cause goes to the bottom of the stack
        while causes.len() > 0
            invariant
                causes@ == all.take(causes@.len() as int),
                stack@.len() + causes@.len() == n,
                n == all.len(),
                forall|j: int|
                    0 <= j < stack@.len() ==> (#[trigger] stack@[j]).spec_location() is None
                        && stack@[j].spec_note() == all[n - 1 - j],
            decreases causes@.len(),
        {
            let cause = causes.pop().unwrap();
            stack.push(TracePoint::from_cause(cause));
            assert(causes@ =~= all.take(causes@.len() as int));
        }
        stack.push(TracePoint::new(message, location));
        stack
    }

    /// The trace of a foreign error whose message is `message` and whose
    /// chain of underlying causes, from the outermost to the deepest, is
    /// `causes`: listed newest first, the message recorded at `location`
    /// comes first, then the causes in order, the deepest last.
    pub fn from_chain(message: String, causes: Vec<String>, location: SrcLocation) -> (r: Self)
        ensures
            is_unrolled(r.newest_first(), message, causes@, location),
    {
        if causes.len() == 0 {
            // a single point stays inline
            let r = Trace(buffer_of_one(TracePoint::new(message, location)));
            assert(r.newest_first()[0] == r@[0]);
            return r;
        }
        let ghost cs = causes@;
        let points = Trace::unrolled_points(message, causes, location);
        let r = Trace(buffer_of_vec(points));
        assert forall|k: int| 1 <= k <= cs.len() implies (#[trigger] r.newest_first()[k]).spec_location()
            is None && r.newest_first()[k].spec_note() == cs[k - 1] by {
            assert(r.newest_first()[k] == points@[cs.len() - k]);
        }
        assert(r.newest_first()[0] == points@.last());
        r
    }

    /// The trace of a foreign error: its own message, recorded at
    /// `location`, on top of one point for each of its underlying causes,
    /// from the outermost to the deepest.
    pub fn from_err<E: core::error::Error>(err: &E, location: SrcLocation) -> (r: Self)
        ensures
            is_trace_of_err(r, *err, location),
            r@.len() >= 1,
    {
        let message = err.to_string();
        let causes = cause_messages(err);
        let ghost m = message;
        let ghost cs = causes@;
        let r = Trace::from_chain(message, causes, location);
        assert(is_unrolled(r.newest_first(), m, cs, location));
        r
    }

    /// The trace of a foreign error as `from_err` gives it, with one more
    /// point on top that carries `note`, both recorded at `location`.
    pub(crate) fn from_err_with_note<E: core::error::Error>(
        err: &E,
        note: String,
        location: SrcLocation,
    ) -> (r: Self)
        ensures
            r@.len() >= 2,
            is_noted(r.newest_first()[0], note, location),
            is_unrolled_err(r.newest_first().drop_first(), *err, location),
    {
        let message = err.to_string();
        let causes = cause_messages(err);
        let ghost m = message;
        let ghost cs = causes@;
        let mut points = Trace::unrolled_points(message, causes, location);
        let ghost n = points@.len();
        points.push(TracePoint::new(note, location));
        let r = Trace(buffer_of_vec(points));
        proof {
            let below = r.newest_first().drop_first();
            assert(r.newest_first()[0] == points@.last());
            assert forall|k: int| 1 <= k <= cs.len() implies (#[trigger] below[k]).spec_location()
                is None && below[k].spec_note() == cs[k - 1] by {
                assert(below[k] == points@[n - 1 - k]);
            }
            assert(below[0] == points@[n - 1]);
            assert(is_unrolled(below, m, cs, location));
        }
        r
    }

    /// Appends `point` as the newest point.
    pub fn push(&mut self, point: TracePoint)
        requires
            old(self)@.len() < MAX_TRACE_LEN,
        ensures
            final(self)@ == old(self)@.push(point),
    {
        proof {
            use_type_invariant(&*self);
        }
        buffer_push(&mut self.0, point);
    }

    /// The points, newest first.
    pub fn iter(&self) -> (r: Vec<&TracePoint>)
        ensures
            r@.len() == self@.len(),
            forall|i: int| 0 <= i < self@.len() ==> *(#[trigger] r@[i]) == self.newest_first()[i],
    {
        let points = buffer_slice(&self.0);
        let n = points.len();
        let mut r: Vec<&TracePoint> = Vec::new();
        let mut i: usize = n;
        while i > 0
            invariant
                i <= n,
                n == self@.len(),
                points@ == self@,
                r@.len() == n - i,
                forall|j: int| 0 <= j < n - i ==> *(#[trigger] r@[j]) == self@[n - 1 - j],
            decreases i,
        {
            i = i - 1;
            r.push(&points[i]);
        }
        r
    }

    pub fn len(&self) -> (r: usize)
        ensures
            r == self@.len(),
            r >= 1,
    {
        proof {
            use_type_invariant(self);
        }
        buffer_slice(&self.0).len()
    }

    pub fn is_empty(&self) -> (r: bool)
        ensures
            r == (self@.len() == 0),
            !r,
    {
        proof {
            use_type_invariant(self);
        }
        self.len() == 0
    }

    /// The rendered trace, newest first, one numbered line per point.
    pub open spec fn spec_text(&self) -> Seq<char> {
        lines_text(self.newest_first())
    }

    /// Appends the rendered trace to `out`.
    pub fn write_text(&self, out: &mut String)
        ensures
            final(out)@ == old(out)@ + self.spec_text(),
    {
        let ghost start = out@;
        let ghost newest = self.newest_first();
        let points = buffer_slice(&self.0);
        let n = points.len();
        let mut i: usize = 0;
        while i < n
            invariant
                i <= n,
                n == self@.len(),
                points@ == self@,
                newest == self.newest_first(),
                out@ == start + lines_text(newest.take(i as int)),
            decreases n - i,
        {
            proof {
                reveal_strlit("\n");
                reveal_strlit(": ");
            }
            let ghost before = out@;
            if i > 0 {
                push_str(out, "\n");
            }
            let ghost mid = out@;
            push_decimal(out, i as u64);
            push_str(out, ": ");
            points[n - 1 - i].write_text(out);
            proof {
                let point = newest[i as int];
                assert(points@[n - 1 - i] == point);
                assert(": "@ =~= seq![':', ' ']);
                assert(out@ =~= mid + line_text(i as nat, point));
                let next = newest.take(i + 1);
                assert(next.last() == point);
                if i > 0 {
                    assert("\n"@ =~= seq!['\n']);
                    assert(mid =~= before + seq!['\n']);
                    assert(next.drop_last() =~= newest.take(i as int));
                    assert(lines_text(next) == lines_text(newest.take(i as int)) + seq!['\n']
                        + line_text(i as nat, point));
                } else {
                    assert(lines_text(newest.take(0)) =~= seq![]);
                    assert(next[0] == point);
                    assert(lines_text(next) == line_text(0, point));
                }
                assert(out@ =~= start + lines_text(next));
            }
            i = i + 1;
        }
        assert(newest.take(n as int) =~= newest);
    }

    /// The rendered trace, newest first, one numbered line per point.
    pub fn to_text(&self) -> (r: String)
        ensures
            r@ == self.spec_text(),
    {
        let mut out = String::new();
        self.write_text(&mut out);
        out
    }
}

} // verus!

use std::error::Error;
use std::fmt::{Display, Formatter};

use culprit::{
    or_ctx_from_err, or_culprit_from_err, or_into_ctx_from_err, or_into_culprit_from_err, Culprit,
    ResultExt, SrcLocation,
};

#[derive(Debug)]
struct SimpleError;

impl Display for SimpleError {
    fn fmt(&self, f: &mut Formatter<'_>) -> std::fmt::Result {
        f.write_str("SimpleError")
    }
}

impl Error for SimpleError {}

#[derive(Debug)]
struct Wrapped {
    inner: SimpleError,
}

impl Display for Wrapped {
    fn fmt(&self, f: &mut Formatter<'_>) -> std::fmt::Result {
        f.write_str("wrapped failure")
    }
}

impl Error for Wrapped {
    fn source(&self) -> Option<&(dyn Error + 'static)> {
        Some(&self.inner)
    }
}

#[derive(Debug, PartialEq)]
enum Low {
    A,
}

impl Display for Low {
    fn fmt(&self, f: &mut Formatter<'_>) -> std::fmt::Result {
        f.write_str("Low::A")
    }
}

impl From<SimpleError> for Low {
    fn from(_: SimpleError) -> Self {
        Low::A
    }
}

impl From<Wrapped> for Low {
    fn from(_: Wrapped) -> Self {
        Low::A
    }
}

#[derive(Debug, PartialEq)]
enum High {
    Wrapped(Low),
    Other,
}

impl Display for High {
    fn fmt(&self, f: &mut Formatter<'_>) -> std::fmt::Result {
        match self {
            High::Wrapped(x) => f.write_str(&format!("High::Wrapped({x})")),
            High::Other => f.write_str("High::Other"),
        }
    }
}

impl From<Low> for High {
    fn from(low: Low) -> Self {
        High::Wrapped(low)
    }
}

fn at(line: u32) -> SrcLocation {
    SrcLocation::new("tests/culprit.rs", line, 1)
}

fn notes<C: culprit::Context>(c: &Culprit<C>) -> Vec<String> {
    c.trace().iter().iter().map(|p| p.note().to_string()).collect()
}

fn raise() -> Result<(), SimpleError> {
    Err(SimpleError)
}

fn wrap_in_culprit() -> Result<(), Culprit<Low>> {
    or_into_ctx_from_err(raise(), at(1))
}

fn map_context() -> Result<(), Culprit<High>> {
    wrap_in_culprit().or_into_ctx(at(2))
}

fn add_note() -> Result<(), Culprit<High>> {
    map_context().or_into_culprit("extra detail".to_string(), at(3))
}

fn map_context_without_changing() -> Result<(), Culprit<High>> {
    add_note().or_into_ctx(at(4))
}

#[test]
fn end_to_end_scenario() {
    let culprit = map_context_without_changing().unwrap_err();
    assert_eq!(&High::Wrapped(Low::A), culprit.ctx());
    assert_eq!(4, culprit.trace().len());
    assert_eq!(
        vec![
            "High::Wrapped(Low::A)".to_string(),
            "extra detail".to_string(),
            "Low::A".to_string(),
            "SimpleError".to_string()
        ],
        notes(&culprit)
    );
    assert_eq!(
        "Wrapped(A)\n\
         0: High::Wrapped(Low::A), at tests/culprit.rs:4:1\n\
         1: extra detail, at tests/culprit.rs:3:1\n\
         2: Low::A, at tests/culprit.rs:2:1\n\
         3: SimpleError, at tests/culprit.rs:1:1",
        culprit.to_debug_text()
    );
    assert_eq!(
        "High::Wrapped(Low::A)\n\
         0: High::Wrapped(Low::A), at tests/culprit.rs:4:1\n\
         1: extra detail, at tests/culprit.rs:3:1\n\
         2: Low::A, at tests/culprit.rs:2:1\n\
         3: SimpleError, at tests/culprit.rs:1:1",
        culprit.to_text()
    );
}

#[test]
fn new_seeds_one_located_point_with_the_rendered_context() {
    let culprit = Culprit::new(Low::A, at(10));
    assert_eq!(1, culprit.trace().len());
    let top = culprit.trace().iter()[0];
    assert_eq!("Low::A", top.note());
    assert_eq!("tests/culprit.rs:10:1", top.location().unwrap().to_text());
    assert_eq!(&Low::A, culprit.ctx());
}

#[test]
fn new_with_note_uses_the_given_note() {
    let culprit = Culprit::new_with_note(High::Other, "expected a number".to_string(), at(11));
    assert_eq!(vec!["expected a number"], notes(&culprit));
    assert_eq!(&High::Other, culprit.ctx());
}

#[test]
fn with_note_adds_one_point_on_top() {
    let culprit = Culprit::new(Low::A, at(12)).with_note("retrying".to_string(), at(13));
    assert_eq!(vec!["retrying", "Low::A"], notes(&culprit));
    assert_eq!(&Low::A, culprit.ctx());
}

#[test]
fn map_ctx_keeps_the_trace_untouched() {
    let culprit = Culprit::new(Low::A, at(14));
    let mapped: Culprit<High> = culprit.map_ctx(|low| low);
    assert_eq!(&High::Wrapped(Low::A), mapped.ctx());
    assert_eq!(vec!["Low::A"], notes(&mapped));
}

#[test]
fn from_err_unrolls_the_cause_chain() {
    let culprit: Culprit<Low> = Culprit::from_err(Wrapped { inner: SimpleError }, at(15));
    assert_eq!(vec!["wrapped failure", "SimpleError"], notes(&culprit));
    let points = culprit.trace().iter();
    assert!(points[0].location().is_some());
    assert!(points[1].location().is_none());
}

#[test]
fn new_with_stack_records_nothing_more() {
    let (ctx, trace) = Culprit::new(Low::A, at(16)).into_parts();
    assert_eq!(Low::A, ctx);
    let rebuilt: Culprit<High> = Culprit::new_with_stack(Low::A, trace);
    assert_eq!(vec!["Low::A"], notes(&rebuilt));
    assert_eq!(&High::Wrapped(Low::A), rebuilt.ctx());
}

#[test]
fn or_ctx_on_culprit_keeps_the_old_context_as_a_note() {
    let start: Result<(), Culprit<Low>> = Err(Culprit::new(Low::A, at(17)));
    let next: Result<(), Culprit<High>> = start.or_ctx(|_| High::Other, at(18));
    let culprit = next.unwrap_err();
    assert_eq!(&High::Other, culprit.ctx());
    assert_eq!(vec!["Low::A", "Low::A"], notes(&culprit));
    assert_eq!(
        "tests/culprit.rs:18:1",
        culprit.trace().iter()[0].location().unwrap().to_text()
    );
}

#[test]
fn or_culprit_on_culprit_adds_the_given_note() {
    let start: Result<(), Culprit<Low>> = Err(Culprit::new(Low::A, at(19)));
    let next: Result<(), Culprit<High>> =
        start.or_culprit("while loading".to_string(), |_| High::Other, at(20));
    let culprit = next.unwrap_err();
    assert_eq!(&High::Other, culprit.ctx());
    assert_eq!(vec!["while loading", "Low::A"], notes(&culprit));
}

#[test]
fn or_ctx_on_foreign_error_uses_the_mapper() {
    let next: Result<(), Culprit<High>> = or_ctx_from_err(raise(), |_| High::Other, at(21));
    let culprit = next.unwrap_err();
    assert_eq!(&High::Other, culprit.ctx());
    assert_eq!(vec!["SimpleError"], notes(&culprit));
}

#[test]
fn or_culprit_on_foreign_error_puts_the_note_above_the_chain() {
    let failing: Result<(), Wrapped> = Err(Wrapped { inner: SimpleError });
    let next: Result<(), Culprit<Low>> =
        or_culprit_from_err(failing, "reading header".to_string(), |e| e, at(22));
    let culprit = next.unwrap_err();
    assert_eq!(
        vec!["reading header", "wrapped failure", "SimpleError"],
        notes(&culprit)
    );
}

#[test]
fn or_into_culprit_on_foreign_error() {
    let next: Result<(), Culprit<Low>> =
        or_into_culprit_from_err(raise(), "parsing".to_string(), at(23));
    let culprit = next.unwrap_err();
    assert_eq!(&Low::A, culprit.ctx());
    assert_eq!(vec!["parsing", "SimpleError"], notes(&culprit));
}

#[test]
fn combinators_pass_success_through() {
    let ok: Result<u32, SimpleError> = Ok(7);
    let r: Result<u32, Culprit<Low>> = or_into_ctx_from_err(ok, at(24));
    assert_eq!(Some(7), r.ok());
    let ok: Result<u32, SimpleError> = Ok(8);
    let r: Result<u32, Culprit<High>> = or_ctx_from_err(ok, |_| High::Other, at(25));
    assert_eq!(Some(8), r.ok());
    let ok: Result<u32, SimpleError> = Ok(9);
    let r: Result<u32, Culprit<Low>> = or_culprit_from_err(ok, "n".to_string(), |e| e, at(26));
    assert_eq!(Some(9), r.ok());
    let ok: Result<u32, SimpleError> = Ok(10);
    let r: Result<u32, Culprit<Low>> = or_into_culprit_from_err(ok, "n".to_string(), at(27));
    assert_eq!(Some(10), r.ok());
    let ok: Result<u32, Culprit<Low>> = Ok(11);
    let r: Result<u32, Culprit<High>> = ok.or_into_ctx(at(28));
    assert_eq!(Some(11), r.ok());
    let ok: Result<u32, Culprit<Low>> = Ok(12);
    let r: Result<u32, Culprit<High>> = ok.or_ctx(|_| High::Other, at(29));
    assert_eq!(Some(12), r.ok());
    let ok: Result<u32, Culprit<Low>> = Ok(13);
    let r: Result<u32, Culprit<High>> = ok.or_culprit("n".to_string(), |_| High::Other, at(30));
    assert_eq!(Some(13), r.ok());
    let ok: Result<u32, Culprit<Low>> = Ok(14);
    let r: Result<u32, Culprit<High>> = ok.or_into_culprit("n".to_string(), at(31));
    assert_eq!(Some(14), r.ok());
}

#[test]
fn culprit_converts_into_context_and_trace() {
    let culprit = Culprit::new(Low::A, at(33)).with_note("n".to_string(), at(34));
    let (ctx, trace): (Low, culprit::Trace) = culprit.into();
    assert_eq!(Low::A, ctx);
    assert_eq!(2, trace.len());
    assert_eq!("n", trace.iter()[0].note());
}

#[test]
fn into_err_and_back_keeps_the_culprit() {
    let culprit = Culprit::new(Low::A, at(32)).into_err().into_culprit();
    assert_eq!(&Low::A, culprit.ctx());
    assert_eq!(vec!["Low::A"], notes(&culprit));
}

#[derive(Debug, Clone)]
struct Ctx;

impl Display for Ctx {
    fn fmt(&self, f: &mut Formatter<'_>) -> std::fmt::Result {
        f.write_str("Ctx")
    }
}

impl Error for Ctx {}

#[test]
fn test_clone() {
    let culprit = Culprit::new(Ctx, at(40));
    let _ = culprit.clone();
}

#[test]
fn clone_copies_notes_and_locations() {
    let culprit = Culprit::new(Ctx, at(41)).with_note("later".to_string(), at(42));
    let copy = culprit.clone();
    assert_eq!(notes(&culprit), notes(&copy));
    assert_eq!(culprit.to_text(), copy.to_text());
}

fn rendered_points<C: culprit::Context>(c: &Culprit<C>) -> Vec<String> {
    c.trace().iter().iter().map(|p| p.to_text()).collect()
}

#[test]
fn earlier_points_survive_every_step_unchanged() {
    let first: Result<(), Culprit<Low>> = Err(Culprit::new(Low::A, at(50)));
    let before = rendered_points(first.as_ref().err().unwrap());

    let second: Result<(), Culprit<High>> = first.or_ctx(|low| low, at(51));
    let after_second = rendered_points(second.as_ref().err().unwrap());
    assert_eq!(before.len() + 1, after_second.len());
    assert_eq!(before[..], after_second[1..]);

    let third = second
        .map_err(|c| c.with_note("checked".to_string(), at(52)))
        .or_culprit("escalated".to_string(), |high| high, at(53));
    let third: Result<(), Culprit<High>> = third;
    let after_third = rendered_points(third.as_ref().err().unwrap());
    assert_eq!(after_second.len() + 2, after_third.len());
    assert_eq!(after_second[..], after_third[2..]);
    assert_eq!("escalated, at tests/culprit.rs:53:1", after_third[0]);
    assert_eq!("checked, at tests/culprit.rs:52:1", after_third[1]);
}

//! Error lineage: a failure carries an application-defined context together
//! with the trace of places that created, annotated and re-interpreted it.
mod context;
mod culprit;
mod fingerprint;
mod location_stack;
mod provider;
mod result;
mod src_location;
mod static_location;
mod text;
mod trace;

pub use context::Context;
pub use culprit::{is_mapped, is_pushed, is_rendering, Culprit, CulpritErr};
pub use fingerprint::Fingerprint;
pub use location_stack::{
    format_location_stack, link_line, link_lines, listed_links, stack_text, StackLink,
};
pub use provider::{request, Provider, Request};
pub use result::{
    or_ctx_from_err, or_culprit_from_err, or_into_ctx_from_err, or_into_culprit_from_err, ResultExt,
};
pub use src_location::SrcLocation;
pub use static_location::StaticLocation;
pub use text::{decimal, digit_char};
pub use trace::{
    at_separator, extends, is_noted, is_trace_of_err, is_unrolled, is_unrolled_err,
    lemma_growth_is_monotonic, line_text, lines_text, Trace, TracePoint, MAX_TRACE_LEN,
};

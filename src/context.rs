use vstd::prelude::*;

verus! {

/// What an application value needs to classify a failure: a human-readable
/// form, a debug form, and freedom to cross threads.
pub trait Context: core::fmt::Display + core::fmt::Debug + Send + Sync + 'static {}

impl<T: core::fmt::Display + core::fmt::Debug + Send + Sync + 'static> Context for T {}

} // verus!

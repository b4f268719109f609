//! Probing a GameCube controller adapter over USB.
//!
//! The library holds the decisions: which enumerated device is the adapter,
//! how each USB failure is reported, how the status report decodes into
//! port states, and the order of the steps. The USB calls themselves are
//! made by the caller, which feeds their results back to a [`probe::Prober`].
use vstd::prelude::*;

pub mod device;
pub mod error;
pub mod probe;
pub mod report;
pub mod text;

verus! {

} // verus!

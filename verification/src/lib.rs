//! Preparation of privacy-preserving telemetry reports for a Distributed
//! Aggregation Protocol (DAP) client: a raw measurement is secret-shared,
//! each share is sealed toward its aggregator with HPKE, and the result is
//! assembled into a single wire-encoded report.

use vstd::prelude::*;

pub mod codec;
pub mod errors;
pub mod hpke;
pub mod messages;
pub mod report;
pub mod vdaf;

verus! {

} // verus!

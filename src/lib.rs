// Dynamic-DNS updating for one host: the zone lookup, the record change and the
// order of the calls are decided here; the network calls themselves are made by
// the caller, which feeds their results back into a `session::Session`.
use vstd::prelude::*;

pub mod change;
pub mod error;
pub mod session;
pub mod zone;

verus! {

} // verus!

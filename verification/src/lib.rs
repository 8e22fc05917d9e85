//! Resolution of short-lived service credentials from a container metadata
//! endpoint: endpoint selection from environment values, request
//! construction, a deadline-bounded fetch state machine, response
//! accumulation, and parsing of the credential document.

use vstd::prelude::*;

pub mod env;
pub mod errors;
pub mod fetch;
pub mod parse;
pub mod provider;
pub mod request;

verus! {

/// The default timeout for a whole fetch operation, in seconds.
pub const DEFAULT_TIMEOUT_SECS: u64 = 30;

} // verus!

//! Service-message layer of a cross-chain asset-transfer bridge.
//!
//! The crate tracks outbound transfer requests by monotonic sequence
//! number, demultiplexes inbound service messages, and resolves each
//! pending request to a terminal outcome exactly once.

use vstd::prelude::*;

pub mod address;
pub mod codec;
pub mod engine;
pub mod laws;
pub mod types;

verus! {

/// Response code reported on a successfully handled request.
pub const RC_OK: u64 = 0;

/// Response code reported on a failed or unrecognized request.
pub const RC_ERR: u64 = 1;

} // verus!

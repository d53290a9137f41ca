//! Receiving side of an asynchronous cross-chain query protocol.
//!
//! Acknowledgements that carry the answer to a query sent over an
//! interchain channel are validated, their relayer is paid, and the answer
//! is kept as the latest result of the local channel the query left from.
//! Other logic then looks the result up synchronously.
use vstd::prelude::*;

pub mod contract;
pub mod error;
pub mod ibc;
pub mod msg;
pub mod state;

verus! {

} // verus!

//! Why an operation of the contract was rejected.
use vstd::prelude::*;

verus! {

/// The ways in which receiving an acknowledgement or looking up a result fails.
#[derive(Clone, Copy, Debug, PartialEq, Eq, Structural)]
pub enum ContractError {
    /// The invoker attached funds to a call that takes none.
    UnexpectedPayment,
    /// The relayer's address did not pass the host's validation.
    InvalidAddress,
    /// No result was ever stored for the channel asked about.
    NotFound,
}

} // verus!

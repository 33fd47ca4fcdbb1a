//! The failure kinds an escrow invocation can produce.

use vstd::prelude::*;

use crate::state::Coin;

verus! {

/// A failure reported by the hosting runtime itself rather than by the
/// contract's own rules.
#[derive(Debug, PartialEq, Eq, Clone, Copy)]
pub enum StdError {
    /// The contract's storage slot holds no record: the instance was never
    /// instantiated.
    NotFound,
}

/// Every way an escrow invocation can fail.
#[derive(Debug)]
pub enum ContractError {
    /// A wrapped host failure.
    Std(StdError),
    /// The caller is not the address the policy admits.
    Unauthorized,
    /// A configured deadline has been reached; carries the configured
    /// bounds.
    Expired { end_height: Option<u64>, end_time: Option<u64> },
    /// The attached funds do not equal the stored capital under the active
    /// policy; carries the required capital and the funds actually sent.
    InsufficientFunds { required: Vec<Coin>, sent: Vec<Coin> },
}

} // verus!

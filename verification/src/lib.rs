//! Settlement cores for two escrow-style state machines.
//!
//! `trade_nft` holds a trade exchange engine that conditionally transfers a
//! non-fungible asset between a seller and a buyer upon seller-authorized
//! approval or rejection. `vault` holds an escrow vault that keeps a buyer's
//! deposited value locked until a designated approver releases it to the
//! seller within a fixed time window.
//!
//! Both engines are pure state-transition cores. The surrounding host supplies
//! the authenticated caller identity, the current timestamp and the value
//! attached to a call as plain arguments, and receives back the notifications
//! to emit and the external transfer requests to perform. The host is expected
//! to apply a call's state change and its requested transfer atomically:
//! either both take effect or neither does.

use vstd::prelude::*;

pub mod trade_nft;
pub mod vault;

verus! {

/// An authenticated identity: an account of the host ledger, reduced to a
/// plain number. Used for sellers, buyers, approvers and asset contracts.
pub type AccountId = u128;

/// Why an operation was refused. Every failure aborts the whole call with no
/// partial effect; the host rolls back any state change of a failed call.
#[derive(Clone, Copy, Debug, PartialEq, Eq, Structural)]
pub enum Error {
    /// No record carries the given id.
    NotFound,
    /// The caller does not hold the role the operation demands.
    Unauthorized,
    /// The record is in a terminal or wrong-phase state for the operation.
    InvalidState,
    /// An argument is rejected outright, such as a zero-value deposit.
    InvalidInput,
    /// The settlement deadline has passed.
    Expired,
}

} // verus!

//! The controller's error taxonomy. Every error path is terminal for the
//! current invocation: the controller performs no partial writes.

use vstd::prelude::*;

verus! {

/// Why an operation was refused. Each variant is surfaced to the caller with
/// no state change.
#[derive(Clone, Copy, PartialEq, Eq, Structural, Debug)]
pub enum ContractError {
    /// The caller is not the configured trigger address.
    Unauthorized,
    /// The targeted schedule's cursor has reached its release count.
    ScheduleExhausted,
    /// The treasury balance is below the required release amount.
    InsufficientTreasuryBalance,
    /// The underlying persistence layer failed; raised by the host, never by
    /// the controller itself.
    StorageFault,
    /// An address could not be canonicalized or humanized; raised by the
    /// host's address codec, never by the controller itself.
    MalformedAddress,
}

} // verus!

//! Error taxonomy of the pool's public operations.

use vstd::prelude::*;

verus! {

/// Why a pool operation was refused. Every failure aborts the whole
/// settlement chain: no reserve value changes on an `Err`.
#[derive(Clone, Copy, Debug, PartialEq, Eq)]
pub enum AmmError {
    /// The one-time initialization was attempted a second time.
    AlreadyInitialized,
    /// An owner-only operation was called by a non-owner, or an internal
    /// continuation was invoked by an identity other than the contract itself.
    Unauthorized,
    /// The quoting step produced a non-positive payout, or normalizing the
    /// proposed reserve gave a zero divisor.
    InvalidQuote,
    /// An external ledger reported that a transfer failed; the chain ends
    /// here with no commit.
    ExternalTransferFailed,
}

} // verus!

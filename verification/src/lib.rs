//! Accounting core of a two-asset constant-product market maker.
//!
//! The pool holds reserves of two fungible assets, A and B, keeps a cached
//! constant-product invariant over their whole-unit quantities, and quotes the
//! counter-asset amount owed for each deposit. Settlement is asynchronous: a
//! deposit first computes a plan (the scaled debit, the proposed reserves and
//! the payout), the host then drives the external ledger transfers, and only a
//! confirmed chain of transfers commits the proposed reserves. The host glue
//! that issues the external calls lives outside this crate; every decision —
//! quoting, authorization, commit — is made here.

pub mod error;
pub mod laws;
pub mod math;
pub mod pool;

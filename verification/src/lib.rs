//! Delegated-spending authorization for a token holding.
//!
//! An owner grants a delegate a bounded right to move tokens from one of the
//! owner's token holdings without transferring custody. The crate holds the
//! allowance record, the checks every operation makes, and the decisions the
//! surrounding runtime must carry out against the token ledger; the ledger
//! itself, account persistence and signature checking are the runtime's.

pub mod addr;
pub mod allowance;
pub mod codec;
pub mod derivation;
pub mod laws;

//! A minimal versioned counter state machine.
//!
//! The library holds a single mutable record: a counter, the owner who is
//! authorized to reset it, and the ordered history of callers who incremented
//! it. The record lives in an explicit in-memory [`state::Store`] handle that
//! every operation takes, mirroring the key-addressed persistence engine of
//! the surrounding runtime at the record level. The store also carries a
//! legacy record slot (an older schema without the incrementor history) and a
//! version marker; [`contract::migrate`] transforms the legacy record into the
//! current schema exactly once, gated by the contract name and a strictly
//! increasing, lexicographically compared version string.

pub mod contract;
pub mod error;
pub mod msg;
pub mod state;

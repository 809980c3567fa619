//! Multi-party authorization engine for a shared wallet.
//!
//! A group of designated signers jointly controls a shared account: any
//! consequential action must clear a configurable approval threshold before
//! it takes effect.  The crate holds the proposal lifecycle and
//! voting/threshold state machine, the spending-limit rate limiter and the
//! delegation bookkeeping, each with a verified contract.  Persistence of
//! the records, signature verification and the dispatch of approved
//! instruction payloads belong to outside collaborators: callers hand the
//! core an authenticated identity and the current clock reading as plain
//! values.

pub mod errors;
pub mod laws;
pub mod proposal;
pub mod types;
pub mod wallet;

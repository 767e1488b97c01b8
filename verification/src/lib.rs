//! A trust-minimized performance-bond escrow.
//!
//! A principal posts a task together with a collateral requirement; an agent
//! stakes that collateral into a vault; independent verifiers cast
//! approve/reject votes once proof of completion is submitted; a deterministic
//! tally either releases the stake back to the agent or slashes it to the
//! principal. This crate holds the bond lifecycle state machine, the
//! quorum-based tally, and the value-movement bookkeeping, each with a
//! verified contract.

pub mod bond;
pub mod errors;
pub mod ledger;
pub mod tally;
pub mod transitions;
pub mod laws;
pub mod pda;

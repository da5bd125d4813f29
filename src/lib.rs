//! Ledger core for a leveraged-trading venue: fixed-point margin math,
//! position accounting, liquidation and auto-deleveraging checks, funding
//! accrual, and a quorum-signed batch settlement protocol.
//!
//! Every function here is pure with respect to the outside world: it reads and
//! updates the ledger's own records and returns the actions (collateral
//! locks, releases, insurance-pool calls) that a host must carry out.

pub mod error;
pub mod math;
pub mod hashing;
pub mod state;
pub mod settlement;
pub mod risk;
pub mod codec;
pub mod batch;
pub mod events;
pub mod admin;

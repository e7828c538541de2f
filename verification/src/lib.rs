//! A pooled-fund vault with proportional share accounting, the orchestration
//! of its asynchronous external calls, and the registry of vaults created by
//! a factory.
//!
//! The vault accepts deposits of a single supported fungible asset, mints
//! proportional claim tokens ("shares"), routes pooled funds into an external
//! yield strategy, and unwinds on withdrawal. Every multi-step operation is
//! driven by correlation-identifier callbacks delivered by the host; the
//! decision logic of each step lives here, stated and verified over plain
//! values, while the host plumbing around it stays outside the library.

pub mod accounting;
pub mod msg;
pub mod state;
pub mod reply;
pub mod vault;
pub mod vault_msg;
pub mod error;
pub mod factory;
pub mod factory_msg;

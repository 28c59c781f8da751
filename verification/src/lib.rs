//! Companion contracts of the SpooVault Stellar vault: a custom account that
//! approves every authorization it is asked to check, its error type, and an
//! access registry that records the last document grant it was notified of.
//!
//! The decisions these contracts make are stated and proved here; the Soroban
//! entry points that expose them on the ledger live in `app/`.

pub mod error;
pub mod account;
pub mod registry;

pub use error::MockAaError;
pub use account::MockAaAccount;
pub use registry::{GrantEntry, MockAccessRegistry};

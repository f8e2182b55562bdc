//! Core logic of a per-owner virtual companion ledger: deterministic record
//! addressing, once-only creation, and owner-gated state transitions over
//! companion and accessory records.

pub mod address;
pub mod error;
pub mod laws;
pub mod ops;
pub mod state;

pub use error::CompanionError;
pub use ops::{InitializeCompanion, MintAccessory, ToggleAccessory, UpdateCompanion};
pub use state::{Accessory, AccessoryType, Companion};

//! Ledger that splits incoming token transfers between two receivers, net of
//! a basis-point fee, and lets receivers withdraw what they have accrued.

pub mod contract;
pub mod error;
pub mod fee;
pub mod split;
pub mod state;

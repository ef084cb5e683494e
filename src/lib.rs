//! A journal-entry store: records keyed by `(title, owner)`, created,
//! updated and deleted under length rules on their text fields.

pub mod accounts;
pub mod crud;
pub mod error;
pub mod laws;
pub mod pubkey;
pub mod state;
pub mod store;

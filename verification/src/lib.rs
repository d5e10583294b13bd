//! Save-slot management for an interactive-fiction player: file naming,
//! listing, and the outcome of each save operation, as functions on plain values.

pub mod error;
pub mod json;
pub mod listing;
pub mod names;
pub mod record;
pub mod store;

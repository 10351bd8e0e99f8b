//! The terminal vocabulary of a retry loop: why it stopped and what it reports.

pub mod error;
pub mod state;

//! Helpers shared by the operations: file sizes and progress reporting.

pub mod fichiers;
pub mod progression;

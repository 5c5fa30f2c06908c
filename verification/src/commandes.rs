//! The operations offered to the interface, by domain.

pub mod analyse;
pub mod conversion;
pub mod fusion;
pub mod images;
pub mod pdf;
pub mod productivite;
pub mod source;
pub mod suppression;

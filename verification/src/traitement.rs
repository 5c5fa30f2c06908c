//! Pixel-level processing: the RGBA buffer, chroma-key removal and edge
//! softening.

pub mod bords;
pub mod fond;
pub mod tampon;

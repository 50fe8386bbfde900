//! Where the lyrics of a song are written.

pub mod writer;

//! The interfaces that the parts of the library meet in.

pub mod traits;

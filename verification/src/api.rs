//! The lyric sources that speak to a provider over HTTP, and what is exchanged with
//! a provider.

pub mod exchange;
pub mod lrclib_api;
pub mod lyric_api;

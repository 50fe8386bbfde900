//! The lyric source that reads lyrics off a web page.

pub mod scrapper;

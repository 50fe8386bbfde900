//! What is known of a song from the tags and the audio stream of its file.

pub mod metadata_extractor;

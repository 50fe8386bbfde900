//! The choice of the audio files among what a walk through a directory found.

pub mod parallel_helper;

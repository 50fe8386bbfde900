//! Lyrics for audio files.
//!
//! The library decides which files of a directory are songs, whether a song was
//! processed before, what to ask which lyric source, what to make of a reply, and
//! where the lyrics go. It reads no file, sends no request and writes nothing: its
//! caller does, as `pipeline` tells it to.
//!
//! - `pipeline`: the way of one file, step by step, and the files of a directory
//! - `hasher`: the ledger of processed files, and the policy of a forced run
//! - `orchestrator`: the lyric sources in order of preference
//! - `api`, `scrapper`: the lyric sources
//! - `metadata`, `writer`, `parallel_helper`, `cli`: tags, lyrics files, audio
//!   files, the command line
//! - `model`, `traits`: the data and the interfaces
//! - `path`, `text`: paths and strings

pub mod api;
pub mod cli;
pub mod hasher;
pub mod metadata;
pub mod model;
pub mod orchestrator;
pub mod parallel_helper;
pub mod path;
pub mod pipeline;
pub mod scrapper;
pub mod text;
pub mod traits;
pub mod writer;

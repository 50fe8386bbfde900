//! The data that the library works on.

pub mod data_model;

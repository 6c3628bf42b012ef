//! The package manifest, one module for each version of its format.
pub mod prealpha_001_2;

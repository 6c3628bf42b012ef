//! Manifests: the records that describe a package, in their known formats.
pub mod formats;

//! The manifest formats, one module for each kind of manifest.
pub mod web3api;
pub mod web3api_meta;

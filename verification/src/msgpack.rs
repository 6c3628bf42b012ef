//! The MessagePack data view and what it is built from.
use vstd::prelude::*;

pub mod byte_order;
pub mod context;
pub mod data_view;
pub mod laws;
pub mod utils;

verus! {

/// The largest declared length that a data view accepts: 2 to the power 30.
pub const BLOCK_MAX_SIZE: usize = 0x4000_0000;

/// How the message of a rejected access names its fault.
pub const E_INDEX_OUT_OF_RANGE: &'static str = "Index out of range";

/// How the message of a rejected construction names its fault.
pub const E_INVALID_LENGTH: &'static str = "Invalid length";

} // verus!

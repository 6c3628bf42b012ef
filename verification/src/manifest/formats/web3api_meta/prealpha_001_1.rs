//! The meta manifest in format 0.0.1-prealpha.1.
use super::{Links, Queries};
use vstd::prelude::*;

verus! {

/// A meta manifest.
#[derive(Clone, Debug)]
pub struct MetaManifest {
    pub format: String,
    pub name: String,
    pub subtext: Option<String>,
    pub description: Option<String>,
    pub repository: Option<String>,
    pub icon: Option<String>,
    pub links: Option<Vec<Links>>,
    pub queries: Option<Vec<Queries>>,
    pub __type: String,
}

} // verus!

//! The meta manifest: what a package shows of itself.
use vstd::prelude::*;

pub mod prealpha_001_1;

pub use prealpha_001_1::MetaManifest as MetaManifest001Prealpha1;

verus! {

/// The meta manifest in its latest format.
pub type MetaManifest = MetaManifest001Prealpha1;

/// The name of the latest format.
pub const LATEST_META_MANIFEST_FORMAT: &'static str = MetaManifestFormats::PREALPHA_001_1;

/// The names of the known formats.
#[non_exhaustive]
#[derive(Copy, Clone, Debug, PartialEq)]
pub struct MetaManifestFormats;

impl MetaManifestFormats {
    pub const PREALPHA_001_1: &'static str = "0.0.1-prealpha.1";

    /// The name of the known format that `input` spells, `None` where it spells
    /// none.
    pub fn get_format_name(input: &str) -> (name: Option<&str>)
        ensures
            input@ == MetaManifestFormats::PREALPHA_001_1@ ==> name is Some && name->Some_0@
                == MetaManifestFormats::PREALPHA_001_1@,
            input@ != MetaManifestFormats::PREALPHA_001_1@ ==> name is None,
    {
        if input.to_owned() == MetaManifestFormats::PREALPHA_001_1.to_owned() {
            Some(MetaManifestFormats::PREALPHA_001_1)
        } else {
            None
        }
    }
}

/// A meta manifest in any of the known formats.
#[derive(Debug, Clone)]
pub enum AnyMetaManifest {
    MetaManifest001Prealpha1(MetaManifest001Prealpha1),
}

impl AnyMetaManifest {
    /// The format that `manifest` says it is in.
    pub fn get_manifest_format(manifest: &AnyMetaManifest) -> (format: &String)
        ensures
            format == (match manifest {
                AnyMetaManifest::MetaManifest001Prealpha1(one) => &one.format,
            }),
    {
        match manifest {
            AnyMetaManifest::MetaManifest001Prealpha1(one) => &one.format,
        }
    }
}

/// A link that a package shows.
#[derive(Clone, Debug)]
pub struct Links {
    pub name: String,
    pub icon: Option<String>,
    pub url: String,
}

/// An example query that a package shows.
#[derive(Clone, Debug)]
pub struct Queries {
    pub name: String,
    pub description: Option<String>,
    pub query: String,
    pub vars: Option<String>,
}

} // verus!

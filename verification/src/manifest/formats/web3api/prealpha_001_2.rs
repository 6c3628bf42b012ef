//! The package manifest in format 0.0.1-prealpha.2.
use vstd::prelude::*;
use vstd::string::*;

verus! {

/// A package manifest.
#[derive(Clone, Debug)]
pub struct Web3ApiManifest {
    pub format: String,
    pub repository: Option<String>,
    pub build: Option<String>,
    pub language: String,
    pub modules: Modules,
    pub import_redirects: Option<Vec<ImportRedirects>>,
    pub __type: String,
}

impl Default for Web3ApiManifest {
    /// A manifest of this format with nothing filled in.
    fn default() -> (manifest: Web3ApiManifest)
        ensures
            manifest.format@ == "0.0.1-prealpha.2"@,
            manifest.repository is None,
            manifest.build is None,
            manifest.language@ == Seq::<char>::empty(),
            manifest.modules.mutation is None,
            manifest.modules.query is None,
            manifest.import_redirects is None,
            manifest.__type@ == "Web3ApiManifest"@,
    {
        Web3ApiManifest {
            format: String::from_str("0.0.1-prealpha.2"),
            repository: None,
            build: None,
            language: String::new(),
            modules: Modules::default(),
            import_redirects: None,
            __type: String::from_str("Web3ApiManifest"),
        }
    }
}

/// The modules of a package.
#[derive(Clone, Debug)]
pub struct Modules {
    pub mutation: Option<Mutation>,
    pub query: Option<Query>,
}

impl Default for Modules {
    /// No module.
    fn default() -> (modules: Modules)
        ensures
            modules.mutation is None,
            modules.query is None,
    {
        Modules { mutation: None, query: None }
    }
}

/// The module that changes state.
#[derive(Clone, Debug)]
pub struct Mutation {
    schema: Schema,
    module: Module,
}

/// The module that answers queries.
#[derive(Clone, Debug)]
pub struct Query {
    schema: Schema,
    module: Module,
}

/// Where a module's code is, and in what language.
#[derive(Clone, Debug)]
pub struct Module {
    language: String,
    file: String,
}

/// Where a module's schema is.
#[derive(Clone, Debug)]
pub struct Schema {
    file: String,
}

/// One redirection of an import to another schema.
#[derive(Clone, Debug)]
pub struct ImportRedirects {
    pub uri: String,
    pub schema: String,
}

} // verus!

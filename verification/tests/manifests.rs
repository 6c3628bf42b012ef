use web3api::manifest::formats::web3api::prealpha_001_2::{ImportRedirects, Modules, Web3ApiManifest};
use web3api::manifest::formats::web3api_meta::{
    AnyMetaManifest, Links, MetaManifest, MetaManifestFormats, Queries, LATEST_META_MANIFEST_FORMAT,
};

#[test]
fn default_manifest() {
    let manifest = Web3ApiManifest::default();
    assert_eq!(manifest.format, "0.0.1-prealpha.2");
    assert_eq!(manifest.repository, None);
    assert_eq!(manifest.build, None);
    assert_eq!(manifest.language, "");
    assert!(manifest.modules.mutation.is_none());
    assert!(manifest.modules.query.is_none());
    assert!(manifest.import_redirects.is_none());
    assert_eq!(manifest.__type, "Web3ApiManifest");
}

#[test]
fn default_modules() {
    let modules = Modules::default();
    assert!(modules.mutation.is_none());
    assert!(modules.query.is_none());
}

#[test]
fn import_redirects_are_plain_records() {
    let mut manifest = Web3ApiManifest::default();
    manifest.import_redirects = Some(vec![ImportRedirects {
        uri: "w3://ens/a.eth".to_string(),
        schema: "schema.graphql".to_string(),
    }]);
    let copy = manifest.clone();
    let redirects = copy.import_redirects.unwrap();
    assert_eq!(redirects.len(), 1);
    assert_eq!(redirects[0].uri, "w3://ens/a.eth");
    assert_eq!(redirects[0].schema, "schema.graphql");
}

#[test]
fn known_format_name() {
    assert_eq!(MetaManifestFormats::get_format_name("0.0.1-prealpha.1"), Some("0.0.1-prealpha.1"));
    assert_eq!(
        MetaManifestFormats::get_format_name(MetaManifestFormats::PREALPHA_001_1),
        Some(MetaManifestFormats::PREALPHA_001_1)
    );
    assert_eq!(LATEST_META_MANIFEST_FORMAT, "0.0.1-prealpha.1");
}

#[test]
fn unknown_format_name() {
    assert_eq!(MetaManifestFormats::get_format_name(""), None);
    assert_eq!(MetaManifestFormats::get_format_name("0.0.1-prealpha.2"), None);
    assert_eq!(MetaManifestFormats::get_format_name("0.0.1-prealpha.1 "), None);
    assert_eq!(MetaManifestFormats::get_format_name("0.0.1-prealpha."), None);
}

#[test]
fn manifest_format_is_the_format_field() {
    let manifest = MetaManifest {
        format: "0.0.1-prealpha.1".to_string(),
        name: "example".to_string(),
        subtext: None,
        description: None,
        repository: None,
        icon: None,
        links: Some(vec![Links { name: "home".to_string(), icon: None, url: "https://example.org".to_string() }]),
        queries: Some(vec![Queries {
            name: "all".to_string(),
            description: None,
            query: "query { all }".to_string(),
            vars: None,
        }]),
        __type: "MetaManifest".to_string(),
    };
    let any = AnyMetaManifest::MetaManifest001Prealpha1(manifest);
    assert_eq!(AnyMetaManifest::get_manifest_format(&any), "0.0.1-prealpha.1");
    let AnyMetaManifest::MetaManifest001Prealpha1(inner) = any.clone();
    assert_eq!(inner.links.unwrap()[0].url, "https://example.org");
    assert_eq!(inner.queries.unwrap()[0].query, "query { all }");
}

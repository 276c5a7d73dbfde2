//! Fingerprints, held against hashes that the standard library derives.

use abap_lsp::config::DestinationConfig;
use abap_lsp::dotfile::{
    FacetConfig, FilterConfig, LoadedSystem, MountConfig, ProjectSystemConfig, ResolvedDestination,
};
use abap_lsp::path::FilePath;
use std::collections::hash_map::DefaultHasher;
use std::hash::{Hash, Hasher};

fn some(text: &str) -> Option<String> {
    Some(text.to_owned())
}

fn resolved(password: &str) -> ResolvedDestination {
    ResolvedDestination {
        url: "https://example.invalid".to_owned(),
        client: "100".to_owned(),
        language: "EN".to_owned(),
        username: "DEVELOPER".to_owned(),
        password: password.to_owned(),
    }
}

fn mounts() -> Vec<MountConfig> {
    vec![
        MountConfig::system_library(None, None),
        MountConfig::system_library(some("ä"), Some(Vec::new())),
        MountConfig::Package {
            package: "/DMO/FLIGHT".to_owned(),
            label: some("Flight"),
            facets: Some(vec![
                FacetConfig::Always("GROUP".to_owned()),
                FacetConfig::Detailed { facet: "TYPE".to_owned(), minimum_objects: Some(70000) },
                FacetConfig::Detailed { facet: "OWNER".to_owned(), minimum_objects: None },
            ]),
        },
        MountConfig::Package { package: "P".to_owned(), label: None, facets: None },
        MountConfig::Selection {
            label: "Local Objects".to_owned(),
            filters: vec![
                FilterConfig {
                    facet: "PACKAGE".to_owned(),
                    values: vec!["..$TMP".to_owned(), "X".to_owned()],
                    exclude: vec!["Y".to_owned()],
                },
                FilterConfig { facet: String::new(), values: Vec::new(), exclude: Vec::new() },
            ],
            facets: None,
        },
    ]
}

fn system(folder: Option<String>, mounts: Vec<MountConfig>, password: &str) -> LoadedSystem {
    LoadedSystem {
        project_root: FilePath::from_text("/p"),
        system_id: "S4".to_owned(),
        config: ProjectSystemConfig { folder, provider: None, destination: some("DEV"), mounts },
        destination: resolved(password),
    }
}

#[test]
fn systems_are_hashed_as_their_parts_are() {
    for system in [
        system(None, Vec::new(), "secret"),
        system(some("SAP-DEV"), mounts(), "secret"),
        system(some(""), mounts(), ""),
    ] {
        let mut hasher = DefaultHasher::new();
        system.config.hash(&mut hasher);
        system.destination.hash(&mut hasher);
        assert_eq!(system.fingerprint(), hasher.finish());
    }
}

#[test]
fn connection_settings_are_hashed_as_derived() {
    let config = DestinationConfig::new(
        "https://example.invalid".to_owned(),
        "100".to_owned(),
        None,
        "DEVELOPER".to_owned(),
        "fixture".to_owned(),
    );
    let mut hasher = DefaultHasher::new();
    config.hash(&mut hasher);
    assert_eq!(config.fingerprint(), hasher.finish());
    let mut changed = config.clone();
    assert_eq!(changed.fingerprint(), config.fingerprint());
    changed.password = "changed".to_owned();
    assert_ne!(changed.fingerprint(), config.fingerprint());
}

#[test]
fn text_boundaries_take_part() {
    let config = |client: &str, language: &str| {
        DestinationConfig::new(
            "u".to_owned(),
            client.to_owned(),
            some(language),
            "n".to_owned(),
            "p".to_owned(),
        )
    };
    assert_ne!(config("ab", "c").fingerprint(), config("a", "bc").fingerprint());
}

#[test]
fn neither_the_name_nor_the_project_of_a_system_takes_part() {
    let one = system(None, mounts(), "p");
    let mut other = system(None, mounts(), "p");
    other.system_id = "OTHER".to_owned();
    other.project_root = FilePath::from_text("/q");
    assert_eq!(one.fingerprint(), other.fingerprint());
    assert_ne!(one.fingerprint(), system(some("F"), mounts(), "p").fingerprint());
    assert_ne!(one.fingerprint(), system(None, Vec::new(), "p").fingerprint());
}

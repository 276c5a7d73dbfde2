//! Configuration by dotfiles.

use abap_lsp::config::FileOutcome;
use abap_lsp::dotfile::{
    config_version, default_system_library_label, directory_from, environment_value, load_project,
    load_project_from, load_system, load_system_of, nonempty, project_directory, project_file,
    resolve_value, user_config_path, validate_label, ConfigError, DestinationConfig, FacetConfig,
    FilterConfig, MountConfig, ProjectConfig, ProjectSystemConfig, ResolvedDestination, UserConfig,
};
use abap_lsp::environment::{Environment, Variable};
use abap_lsp::file_url::{classify, read_file_url, FileUrl};
use abap_lsp::path::FilePath;
use abap_lsp::repository::{FacetLevel, MountScope};
use abap_lsp::text_map::TextMap;
use serde_yaml_ng::Value;

fn path(text: &str) -> FilePath {
    FilePath::from_text(text)
}

fn environment(variables: &[(&str, &str)]) -> Environment {
    Environment {
        variables: variables
            .iter()
            .map(|(name, value)| Variable {
                name: name.to_string(),
                value: value.as_bytes().to_vec(),
            })
            .collect(),
    }
}

fn text(value: &Value, key: &str) -> Option<String> {
    value.get(key).map(|value| value.as_str().unwrap().to_owned())
}

fn texts(value: &Value) -> Vec<String> {
    value.as_sequence().unwrap().iter().map(|item| item.as_str().unwrap().to_owned()).collect()
}

fn facet(value: &Value) -> FacetConfig {
    match value {
        Value::String(name) => FacetConfig::Always(name.clone()),
        _ => FacetConfig::Detailed {
            facet: text(value, "facet").unwrap(),
            minimum_objects: value.get("minimumObjects").map(|least| least.as_u64().unwrap() as u32),
        },
    }
}

fn mount(value: &Value) -> MountConfig {
    let facets = value
        .get("facets")
        .map(|facets| facets.as_sequence().unwrap().iter().map(facet).collect());
    match value["kind"].as_str().unwrap() {
        "systemLibrary" => MountConfig::system_library(text(value, "label"), facets),
        "package" => MountConfig::Package {
            package: text(value, "package").unwrap(),
            label: text(value, "label"),
            facets,
        },
        _ => MountConfig::Selection {
            label: text(value, "label").unwrap(),
            filters: value["filters"]
                .as_sequence()
                .unwrap()
                .iter()
                .map(|filter| FilterConfig {
                    facet: text(filter, "facet").unwrap(),
                    values: texts(&filter["values"]),
                    exclude: filter.get("exclude").map(texts).unwrap_or_default(),
                })
                .collect(),
            facets,
        },
    }
}

fn project(contents: &str) -> ProjectConfig {
    let value: Value = serde_yaml_ng::from_str(contents).unwrap();
    let mut systems = TextMap::new();
    for (name, system) in value["systems"].as_mapping().unwrap() {
        systems.insert(
            name.as_str().unwrap().to_owned(),
            ProjectSystemConfig {
                folder: text(system, "folder"),
                provider: text(system, "provider"),
                destination: text(system, "destination"),
                mounts: system
                    .get("mounts")
                    .map(|mounts| mounts.as_sequence().unwrap().iter().map(mount).collect())
                    .unwrap_or_default(),
            },
        );
    }
    let version = value.get("version").map(|version| version.as_u64().unwrap() as u32);
    ProjectConfig::new(version, systems)
}

fn destination(password_env: &str) -> DestinationConfig {
    DestinationConfig {
        url: None,
        url_env: None,
        client: None,
        client_env: None,
        language: None,
        language_env: None,
        username: None,
        username_env: None,
        password_env: password_env.to_owned(),
    }
}

fn user(contents: &str) -> UserConfig {
    let table: toml::Table = toml::from_str(contents).unwrap();
    let mut destinations = TextMap::new();
    for (name, settings) in table["destinations"].as_table().unwrap() {
        let setting = |key: &str| settings.get(key).map(|value| value.as_str().unwrap().to_owned());
        destinations.insert(
            name.clone(),
            DestinationConfig {
                url: setting("url"),
                url_env: setting("url_env"),
                client: setting("client"),
                client_env: setting("client_env"),
                language: setting("language"),
                language_env: setting("language_env"),
                username: setting("username"),
                username_env: setting("username_env"),
                password_env: setting("password_env").unwrap(),
            },
        );
    }
    let version = table.get("version").map(|version| version.as_integer().unwrap() as u32);
    UserConfig::new(version, destinations)
}

#[test]
fn config_parses_project_mounts() {
    let config = project(
        r#"
version: 1
systems:
  S4:
    folder: SAP-DEV
    destination: DEV
    mounts:
      - kind: package
        label: Flight
        package: /DMO/FLIGHT
        facets: [GROUP, TYPE]
      - kind: selection
        label: Local Objects
        filters:
          - facet: PACKAGE
            values: ["..$TMP"]
        facets:
          - facet: OWNER
          - facet: TYPE
            minimumObjects: 10
"#,
    );
    let system = config.systems.get("S4").unwrap();
    assert_eq!(system.folder.as_deref(), Some("SAP-DEV"));
    assert_eq!(system.destination.as_deref(), Some("DEV"));
    assert_eq!(system.mounts.len(), 2);
    assert_eq!(system.mounts[0].build().unwrap().label(), "Flight");
    assert_eq!(
        system.mounts[1].build().unwrap().facets,
        Some(vec![
            FacetLevel { facet: "OWNER".to_owned(), minimum_objects: None },
            FacetLevel { facet: "TYPE".to_owned(), minimum_objects: Some(10) },
        ])
    );
}

const ENVIRONMENT_BACKED: &str = r#"
version = 1
[destinations.DEV]
url_env = "SAP_DESTINATION"
client_env = "SAP_CLIENT"
language = "EN"
username_env = "SAP_USERNAME"
password_env = "SAP_PASSWORD"
"#;

#[test]
fn parses_environment_backed_destination() {
    let config = user(ENVIRONMENT_BACKED);
    assert_eq!(config.version, 1);
    assert!(config.destinations.get("DEV").is_some());
}

#[test]
fn loads_project_configuration_from_a_file_uri() {
    let contents = "version: 1\nsystems:\n  S4:\n    destination: DEV\n";
    let uri = url::Url::from_directory_path("/work/my project").unwrap();
    let directory = project_directory(uri.as_str()).unwrap();
    assert_eq!(directory, path("/work/my project/"));
    let resolved = path("/work/my project");
    let (root, config) = load_project(
        uri.as_str(),
        Ok(resolved.clone()),
        FileOutcome::Parsed(project(contents)),
    )
    .unwrap();
    assert_eq!(root, resolved);
    assert_eq!(config.systems.get("S4").unwrap().destination.as_deref(), Some("DEV"));
}

#[test]
fn versions_and_labels_have_defaults() {
    assert_eq!(config_version(), 1);
    assert_eq!(default_system_library_label(), "System Library");
    assert_eq!(project("systems: {}").version, 1);
    assert_eq!(user("[destinations]").version, 1);
    assert_eq!(
        MountConfig::system_library(None, None).build().unwrap().label(),
        "System Library"
    );
}

#[test]
fn project_uris_must_name_local_files() {
    assert_eq!(read_file_url("/home/user/project"), FileUrl::Invalid);
    assert_eq!(read_file_url("https://example.invalid/project"), FileUrl::Remote);
    // Such a URL has a path, but its scheme names no local file.
    assert_eq!(read_file_url("http://localhost/project"), FileUrl::Remote);
    assert_eq!(read_file_url("file://example.invalid/project"), FileUrl::Remote);
    assert_eq!(read_file_url("file:///a%20b"), FileUrl::Local(path("/a b")));
    assert_eq!(read_file_url("FILE://localhost/a%20b"), FileUrl::Local(path("/a b")));
    assert_eq!(classify(None), FileUrl::Invalid);
    let parts = |scheme: &str, path: Option<&str>| {
        Some((scheme.to_owned(), path.map(|path| path.as_bytes().to_vec())))
    };
    assert_eq!(classify(parts("file", None)), FileUrl::Remote);
    assert_eq!(classify(parts("http", Some("/p"))), FileUrl::Remote);
    assert_eq!(classify(parts("file", Some("/p"))), FileUrl::Local(path("/p")));
    assert_eq!(
        project_directory("/home/user/project").unwrap_err().to_string(),
        "invalid project URI `/home/user/project`"
    );
    assert_eq!(
        project_directory("https://example.invalid/p").unwrap_err().to_string(),
        "project URI must use the file scheme: `https://example.invalid/p`"
    );
    assert_eq!(directory_from("x", FileUrl::Local(path("/p"))), Ok(path("/p")));
    let error = load_project_from(
        "x",
        FileUrl::Local(path("/p")),
        Err("gone".to_owned()),
        FileOutcome::Unreadable("file".to_owned()),
    )
    .err()
    .unwrap();
    assert_eq!(error.to_string(), "cannot read `/p`: gone");
}

#[test]
fn projects_must_be_readable_and_of_the_supported_version() {
    let load = |file| {
        load_project("file:///p", Ok(path("/q")), file).err().unwrap().to_string()
    };
    assert_eq!(project_file(&path("/q")), path("/q/.ziege"));
    assert_eq!(load(FileOutcome::Unreadable("no".to_owned())), "cannot read `/q/.ziege`: no");
    assert_eq!(load(FileOutcome::Malformed("no".to_owned())), "cannot parse `/q/.ziege`: no");
    assert_eq!(
        load(FileOutcome::Parsed(project("version: 3\nsystems: {}"))),
        "unsupported project configuration version 3"
    );
}

#[test]
fn user_configuration_is_overridden_or_lies_at_home() {
    assert_eq!(
        user_config_path(&environment(&[("HOME", "/h"), ("ZIEGE_CONFIG", "/c")])).unwrap(),
        path("/c")
    );
    assert_eq!(user_config_path(&environment(&[("HOME", "/h")])).unwrap(), path("/h/.ziegerc"));
    assert_eq!(
        user_config_path(&environment(&[])).unwrap_err(),
        ConfigError::MissingEnvironment {
            destination: "global configuration".to_owned(),
            variable: "HOME".to_owned(),
        }
    );
}

#[test]
fn values_come_from_one_source() {
    let variables = environment(&[("SET", "value"), ("EMPTY", "")]);
    let some = |text: &str| Some(text.to_owned());
    assert_eq!(
        resolve_value("D", "url", &some("literal"), &None, None, &variables).unwrap(),
        "literal"
    );
    assert_eq!(
        resolve_value("D", "url", &None, &some("SET"), Some("default"), &variables).unwrap(),
        "value"
    );
    assert_eq!(
        resolve_value("D", "url", &None, &None, Some("default"), &variables).unwrap(),
        "default"
    );
    let invalid =
        ConfigError::InvalidDestinationField { destination: "D".to_owned(), field: "url" };
    assert_eq!(
        resolve_value("D", "url", &some("literal"), &some("SET"), Some("x"), &variables),
        Err(invalid)
    );
    let error = resolve_value("D", "url", &None, &None, None, &variables).unwrap_err();
    assert_eq!(
        error.to_string(),
        "destination `D` must configure exactly one of `url` or `url_env`"
    );
    let error = resolve_value("D", "url", &some(""), &None, Some("x"), &variables).unwrap_err();
    assert_eq!(error.to_string(), "destination `D` has an empty `url` value");
    let error = environment_value("D", "EMPTY", &variables).unwrap_err();
    assert_eq!(error.to_string(), "destination `D` has an empty `environment variable` value");
    let error = environment_value("D", "UNSET", &variables).unwrap_err();
    assert_eq!(
        error.to_string(),
        "environment variable `UNSET` required by destination `D` is not set"
    );
    assert_eq!(nonempty("D", "client", "c".to_owned()), Ok("c".to_owned()));
}

#[test]
fn a_variable_that_is_no_text_counts_as_missing() {
    let mut variables = environment(&[]);
    variables.variables.push(Variable { name: "V".to_owned(), value: vec![0xff] });
    assert!(matches!(
        environment_value("D", "V", &variables),
        Err(ConfigError::MissingEnvironment { .. })
    ));
    variables.variables[0].value = "ä".as_bytes().to_vec();
    assert_eq!(environment_value("D", "V", &variables), Ok("ä".to_owned()));
}

#[test]
fn destinations_are_resolved_setting_by_setting() {
    let config = user(ENVIRONMENT_BACKED);
    let config = config.destinations.get("DEV").unwrap();
    let variables = environment(&[
        ("SAP_DESTINATION", "https://example.invalid"),
        ("SAP_CLIENT", "100"),
        ("SAP_USERNAME", "DEVELOPER"),
        ("SAP_PASSWORD", "secret"),
    ]);
    let expected = ResolvedDestination {
        url: "https://example.invalid".to_owned(),
        client: "100".to_owned(),
        language: "EN".to_owned(),
        username: "DEVELOPER".to_owned(),
        password: "secret".to_owned(),
    };
    assert!(config.resolve("DEV", &variables) == Ok(expected));
    let missing = |variables: &[(&str, &str)]| match config.resolve("DEV", &environment(variables)) {
        Err(ConfigError::MissingEnvironment { variable, .. }) => variable,
        _ => panic!("resolved"),
    };
    assert_eq!(missing(&[]), "SAP_DESTINATION");
    assert_eq!(missing(&[("SAP_DESTINATION", "u")]), "SAP_CLIENT");
    assert_eq!(missing(&[("SAP_DESTINATION", "u"), ("SAP_CLIENT", "c")]), "SAP_USERNAME");
    assert_eq!(
        missing(&[("SAP_DESTINATION", "u"), ("SAP_CLIENT", "c"), ("SAP_USERNAME", "n")]),
        "SAP_PASSWORD"
    );
    let mut plain = destination("SAP_PASSWORD");
    plain.url = Some("u".to_owned());
    plain.client = Some("c".to_owned());
    plain.username = Some("n".to_owned());
    assert_eq!(plain.resolve("DEV", &variables).unwrap().language, "EN");
    plain.language_env = Some("SAP_CLIENT".to_owned());
    assert_eq!(plain.resolve("DEV", &variables).unwrap().language, "100");
}

fn system_variables() -> Environment {
    environment(&[
        ("HOME", "/h"),
        ("SAP_DESTINATION", "u"),
        ("SAP_CLIENT", "c"),
        ("SAP_USERNAME", "n"),
        ("SAP_PASSWORD", "p"),
    ])
}

#[test]
fn systems_name_a_destination_of_the_user() {
    let contents = "systems:\n  S4:\n    destination: DEV\n  DEV: {}\n  OTHER: {}\n";
    let load = |system: &str, variables: &Environment, user| {
        load_system(
            "file:///p",
            system,
            Ok(path("/p")),
            FileOutcome::Parsed(project(contents)),
            variables,
            user,
        )
    };
    let variables = system_variables();
    let parsed = || FileOutcome::Parsed(user(ENVIRONMENT_BACKED));
    for system in ["S4", "DEV"] {
        let loaded = load(system, &variables, parsed()).unwrap();
        assert_eq!(loaded.project_root, path("/p"));
        assert_eq!(loaded.system_id, system);
        assert_eq!(loaded.destination.url, "u");
        assert_eq!(loaded.mounts().unwrap()[0].scope, MountScope::SystemLibrary);
    }
    let failed = |system: &str, variables: &Environment, user| {
        load(system, variables, user).err().unwrap().to_string()
    };
    assert_eq!(
        failed("NONE", &environment(&[]), parsed()),
        "system `NONE` is not configured in `/p/.ziege`"
    );
    assert_eq!(
        failed("S4", &environment(&[]), parsed()),
        "environment variable `HOME` required by destination `global configuration` is not set"
    );
    assert_eq!(
        failed("S4", &variables, FileOutcome::Unreadable("no".to_owned())),
        "cannot read `/h/.ziegerc`: no"
    );
    assert_eq!(
        failed("S4", &variables, FileOutcome::Malformed("no".to_owned())),
        "cannot parse `/h/.ziegerc`: no"
    );
    assert_eq!(
        failed("S4", &variables, FileOutcome::Parsed(user("version = 9\n[destinations]"))),
        "unsupported user configuration version 9"
    );
    assert_eq!(
        failed("OTHER", &variables, parsed()),
        "destination `OTHER` is not configured in `/h/.ziegerc`"
    );
    assert_eq!(
        failed("S4", &environment(&[("HOME", "/h")]), parsed()),
        "environment variable `SAP_DESTINATION` required by destination `DEV` is not set"
    );
    let error = load_system(
        "nonsense",
        "S4",
        Ok(path("/p")),
        FileOutcome::Parsed(project(contents)),
        &variables,
        parsed(),
    )
    .err()
    .unwrap();
    assert_eq!(error, ConfigError::InvalidProjectUri("nonsense".to_owned()));
    let loaded =
        load_system_of(path("/p"), project(contents), "S4", &variables, parsed()).unwrap();
    assert_eq!(loaded.config.destination.as_deref(), Some("DEV"));
}

#[test]
fn mounts_are_validated_in_order() {
    let package = |package: &str, label: Option<&str>| MountConfig::Package {
        package: package.to_owned(),
        label: label.map(str::to_owned),
        facets: None,
    };
    let selection = |label: &str, values: &[&str]| MountConfig::Selection {
        label: label.to_owned(),
        filters: vec![FilterConfig {
            facet: "F".to_owned(),
            values: values.iter().map(|value| value.to_string()).collect(),
            exclude: Vec::new(),
        }],
        facets: None,
    };
    assert_eq!(package("", Some("")).build(), Err(ConfigError::EmptyPackage));
    assert_eq!(package("P", Some("")).build(), Err(ConfigError::EmptyMountLabel));
    assert_eq!(package("P", None).build().unwrap().label(), "P");
    assert_eq!(package("P", Some("L")).build().unwrap().label(), "L");
    assert_eq!(package("P", None).build().unwrap().scope, MountScope::Package("P".to_owned()));
    assert_eq!(
        package("P", Some("L")).build().unwrap().scope,
        MountScope::NamedPackage("P".to_owned())
    );
    // An empty label is noticed before a filter without values.
    assert_eq!(selection("", &[]).build(), Err(ConfigError::EmptyMountLabel));
    let error = selection("S", &[]).build().unwrap_err();
    assert_eq!(error.to_string(), "selection mount `S` requires at least one filter value");
    assert!(selection("S", &["v"]).build().is_ok());
    assert_eq!(validate_label(""), Err(ConfigError::EmptyMountLabel));
    assert_eq!(validate_label("x"), Ok(()));
    assert_eq!(ConfigError::EmptyMountLabel.to_string(), "mount labels must not be empty");
    assert_eq!(ConfigError::EmptyPackage.to_string(), "package mount names must not be empty");
}

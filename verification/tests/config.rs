//! Project, user and connection configuration.

use abap_lsp::config::{
    destinations_file, load_destination, load_local_project, load_system_configuration,
    load_user_configuration, project_system, resolve_user_config_path, user_config_path,
    ConfigError, DestinationConfig, DestinationId, DestinationsConfig, EditingPolicy, FacetConfig,
    FileOutcome, FilterConfig, LockingMode, MountConfig, ProjectConfig, ProjectRoot,
    ProjectSystemConfig, UserConfig,
};
use abap_lsp::config::project::{project_file, same_mounts};
use abap_lsp::environment::{Environment, Variable};
use abap_lsp::path::FilePath;
use abap_lsp::repository::{FacetLevel, MountScope, Preselection};
use abap_lsp::text_map::TextMap;
use toml::{Table, Value};

fn text(table: &Table, key: &str) -> Option<String> {
    table.get(key).map(|value| value.as_str().unwrap().to_owned())
}

fn texts(value: &Value) -> Vec<String> {
    value.as_array().unwrap().iter().map(|item| item.as_str().unwrap().to_owned()).collect()
}

fn facet(value: &Value) -> FacetConfig {
    match value {
        Value::String(name) => FacetConfig::Always(name.clone()),
        _ => FacetConfig::Adaptive {
            facet: value["facet"].as_str().unwrap().to_owned(),
            minimum_objects: value["minimum_objects"].as_integer().unwrap() as u32,
        },
    }
}

fn filter(value: &Value) -> FilterConfig {
    FilterConfig {
        facet: value["facet"].as_str().unwrap().to_owned(),
        values: texts(&value["values"]),
        exclude: value.get("exclude").map(texts).unwrap_or_default(),
    }
}

fn mount(table: &Table) -> MountConfig {
    let facets = table
        .get("facets")
        .map(|facets| facets.as_array().unwrap().iter().map(facet).collect());
    match table["kind"].as_str().unwrap() {
        "systemLibrary" => MountConfig::system_library(text(table, "label"), facets),
        "package" => MountConfig::Package {
            package: text(table, "package").unwrap(),
            label: text(table, "label"),
            facets,
        },
        _ => MountConfig::Selection {
            label: text(table, "label").unwrap(),
            filters: table["filters"].as_array().unwrap().iter().map(filter).collect(),
            facets,
        },
    }
}

fn project(contents: &str) -> ProjectConfig {
    let table: Table = toml::from_str(contents).unwrap();
    let mut systems = TextMap::new();
    for (name, system) in table["systems"].as_table().unwrap() {
        let system = system.as_table().unwrap();
        systems.insert(
            name.clone(),
            ProjectSystemConfig {
                folder: text(system, "folder"),
                readonly: system.get("readonly").is_some_and(|value| value.as_bool().unwrap()),
                mounts: system
                    .get("mounts")
                    .map(|mounts| {
                        mounts
                            .as_array()
                            .unwrap()
                            .iter()
                            .map(|value| mount(value.as_table().unwrap()))
                            .collect()
                    })
                    .unwrap_or_default(),
            },
        );
    }
    ProjectConfig { version: table["version"].as_integer().unwrap() as u32, systems }
}

fn user(contents: &str) -> UserConfig {
    let table: Table = toml::from_str(contents).unwrap();
    let version = table.get("version").map(|value| value.as_integer().unwrap() as u32);
    let locking = table
        .get("editing")
        .and_then(|editing| editing.get("locking"))
        .map(|mode| match mode.as_str().unwrap() {
            "explicit" => LockingMode::Explicit,
            "implicit" => LockingMode::Implicit,
            _ => LockingMode::Unlocked,
        });
    UserConfig::new(version, locking)
}

fn catalog(contents: &str) -> DestinationsConfig {
    let table: Table = toml::from_str(contents).unwrap();
    let mut destinations = TextMap::new();
    for (name, settings) in table["destinations"].as_table().unwrap() {
        let settings = settings.as_table().unwrap();
        destinations.insert(
            name.clone(),
            DestinationConfig::new(
                text(settings, "url").unwrap(),
                text(settings, "client").unwrap(),
                text(settings, "language"),
                text(settings, "username").unwrap(),
                text(settings, "password").unwrap(),
            ),
        );
    }
    DestinationsConfig { version: table["version"].as_integer().unwrap() as u32, destinations }
}

fn path(text: &str) -> FilePath {
    FilePath::from_text(text)
}

fn id(name: &str) -> DestinationId {
    DestinationId::from(name.to_owned())
}

#[test]
fn loads_literal_destination_and_defaults_language() {
    let contents = "version = 1\n[destinations.DEV]\nurl = 'https://example.invalid'\nclient = '001'\nusername = 'DEVELOPER'\npassword = 'example-password'\n";
    let destination = load_destination(
        path("destinations.toml"),
        &"DEV".to_owned().into(),
        FileOutcome::Parsed(catalog(contents)),
    )
    .unwrap();
    assert_eq!(destination.url, "https://example.invalid");
    assert_eq!(destination.client, "001");
    assert_eq!(destination.language, "EN");
    assert_eq!(destination.username, "DEVELOPER");
    assert_eq!(destination.password, "example-password");
}

#[test]
fn system_configuration_requires_the_sibling_destination_file() {
    let user_path = path("/work/custom.toml");
    let root = ProjectRoot(path("/work"));
    let dev = id("DEV");
    let destinations = path("/work/destinations.toml");
    let load = |contents: &str, outcome| {
        load_system_configuration(
            &root,
            &dev,
            &user_path,
            FileOutcome::Parsed(project(contents)),
            FileOutcome::Parsed(user("version = 1")),
            outcome,
        )
    };
    let configured = "version = 1\n[systems.DEV]\nreadonly = true\n";
    assert_eq!(destinations_file(&user_path), destinations);
    assert!(
        matches!(load(configured, FileOutcome::Unreadable("missing".to_owned())),
        Err(ConfigError::Read { path, .. }) if path == destinations)
    );
    assert!(matches!(
        load(configured, FileOutcome::Malformed("invalid TOML!".to_owned())),
        Err(ConfigError::Parse { path, .. }) if path == destinations
    ));
    assert!(matches!(
        load(configured, FileOutcome::Parsed(catalog("version = 2\n[destinations]"))),
        Err(ConfigError::UnsupportedVersion {
            kind: "destinations",
            version: 2
        })
    ));
    assert!(
        matches!(load(configured, FileOutcome::Parsed(catalog("version = 1\n[destinations]"))),
        Err(ConfigError::UnknownDestination { path, destination }) if path == destinations && destination == "DEV")
    );
    let complete = "version = 1\n[destinations.DEV]\nurl = 'https://example.invalid'\nclient = '100'\nusername = 'DEVELOPER'\npassword = 'fixture'\n";
    let loaded = load(configured, FileOutcome::Parsed(catalog(complete))).unwrap();
    assert_eq!(loaded.destination.client, "100");
    assert!(loaded.config.readonly);
    assert!(loaded.editing.readonly);
    assert_eq!(loaded.mounts().unwrap()[0].label(), "System Library");

    // A catalog entry alone does not make it available in the project.
    assert!(matches!(
        load("version = 1\n[systems.OTHER]\n", FileOutcome::Parsed(catalog(complete))),
        Err(ConfigError::UnknownDestination { destination, path })
            if destination == "DEV" && path == FilePath::from_text("/work/ziege.toml")
    ));
}

#[test]
fn project_parses_project_mounts() {
    let config = project(
        r#"
version = 1
[systems.DEV]
folder = "SAP-DEV"

[[systems.DEV.mounts]]
kind = "package"
label = "Flight"
package = "/DMO/FLIGHT"
facets = ["GROUP", "TYPE"]

[[systems.DEV.mounts]]
kind = "selection"
label = "Local Objects"
filters = [{ facet = "PACKAGE", values = ["..$TMP"] }]
facets = ["OWNER", { facet = "TYPE", minimum_objects = 10 }]
"#,
    );
    let system = config.systems.get("DEV").unwrap();
    assert_eq!(system.folder.as_deref(), Some("SAP-DEV"));
    assert!(!system.readonly);
    assert_eq!(system.mounts.len(), 2);
    assert_eq!(system.mounts[0].build().unwrap().label(), "Flight");
    let selection = system.mounts[1].build().unwrap();
    assert_eq!(
        selection.scope,
        MountScope::Selection(vec![Preselection {
            facet: "PACKAGE".to_owned(),
            included: vec!["..$TMP".to_owned()],
            excluded: Vec::new(),
        }])
    );
    assert_eq!(
        selection.facets,
        Some(vec![
            FacetLevel { facet: "OWNER".to_owned(), minimum_objects: None },
            FacetLevel { facet: "TYPE".to_owned(), minimum_objects: Some(10) },
        ])
    );
}

#[test]
fn project_systems_default_to_editable_and_allow_readonly() {
    let default = project("version = 1\n[systems.DEV]\n");
    let readonly = project("version = 1\n[systems.DEV]\nreadonly = true\n");
    assert!(!default.systems.get("DEV").unwrap().readonly);
    assert!(readonly.systems.get("DEV").unwrap().readonly);
}

#[test]
fn loads_project_configuration_from_a_directory_path() {
    let outcome = FileOutcome::Parsed(project("version = 1\n[systems.DEV]\n[systems.dev]\n"));
    let config = load_local_project(&path("/p"), outcome).unwrap();
    let keys: Vec<String> =
        config.systems.into_entries().into_iter().map(|entry| entry.key).collect();
    assert_eq!(keys, ["DEV", "dev"]);
}

#[test]
fn user_config_path_respects_override_xdg_and_home_fallback() {
    assert_eq!(
        resolve_user_config_path(Some(path("/custom/config.toml")), Some(path("/xdg")), None)
            .unwrap(),
        path("/custom/config.toml")
    );
    assert_eq!(
        resolve_user_config_path(None, Some(path("/xdg")), None).unwrap(),
        path("/xdg/ziege/config.toml")
    );
    for xdg in [None, Some(path("")), Some(path("relative"))] {
        assert_eq!(
            resolve_user_config_path(None, xdg, Some(path("/home/user"))).unwrap(),
            path("/home/user/.config/ziege/config.toml")
        );
    }
    assert!(
        matches!(resolve_user_config_path(None, None, None), Err(ConfigError::MissingEnvironment { variable, .. }) if variable == "HOME")
    );
}

#[test]
fn parses_user_preferences() {
    let config = user(
        r#"
version = 1
[editing]
locking = "implicit"
"#,
    );
    assert_eq!(config.version, 1);
    assert_eq!(config.editing.locking, LockingMode::Implicit);
}

#[test]
fn editing_defaults_to_explicit_without_changing_project_readonly() {
    let preferences = user("version = 1\n[editing]\nlocking = 'implicit'\n");
    let project = project("version = 1\n[systems.DEV]\n");
    let policy = preferences.editing_policy(project.systems.get("DEV").unwrap().readonly);
    assert_eq!(policy.locking, LockingMode::Implicit);
    assert!(!policy.readonly);
    let default = user("version = 1");
    assert_eq!(default.editing.locking, LockingMode::Explicit);
}

#[test]
fn preferences_default_as_a_whole() {
    let config = UserConfig::new(None, None);
    assert_eq!(config.version, 1);
    assert_eq!(
        config.editing_policy(true),
        EditingPolicy { readonly: true, locking: LockingMode::Explicit }
    );
    let config = UserConfig::new(Some(7), Some(LockingMode::Unlocked));
    assert_eq!(config.version, 7);
    assert_eq!(config.editing.locking, LockingMode::Unlocked);
}

fn environment(variables: &[(&str, &[u8])]) -> Environment {
    Environment {
        variables: variables
            .iter()
            .map(|(name, value)| Variable { name: name.to_string(), value: value.to_vec() })
            .collect(),
    }
}

#[test]
fn the_environment_selects_the_user_configuration() {
    let variables = environment(&[("HOME", b"/h"), ("XDG_CONFIG_HOME", b"/x\xff"), ("HOME", b"/no")]);
    assert_eq!(user_config_path(&variables).unwrap().bytes, b"/x\xff/ziege/config.toml");
    let variables = environment(&[("HOME", b"/h"), ("HOME", b"/no")]);
    assert_eq!(user_config_path(&variables).unwrap(), path("/h/.config/ziege/config.toml"));
    let variables = environment(&[("ZIEGE_CONFIG", b"c.toml"), ("HOME", b"/h")]);
    let selected = user_config_path(&variables).unwrap();
    assert_eq!(selected, path("c.toml"));
    assert_eq!(destinations_file(&selected), path("destinations.toml"));
    assert_eq!(
        user_config_path(&environment(&[])).unwrap_err().to_string(),
        "environment variable `HOME` required by destination `global configuration` is not set"
    );
}

#[test]
fn destinations_lie_beside_the_user_configuration() {
    for (override_path, xdg, home, expected) in [
        (Some("/custom/c.toml"), Some("/xdg"), Some("/home/u"), "/custom/destinations.toml"),
        (None, Some("/xdg"), Some("/home/u"), "/xdg/ziege/destinations.toml"),
        (None, Some("/xdg/"), None, "/xdg/ziege/destinations.toml"),
        (None, None, Some("/home/u"), "/home/u/.config/ziege/destinations.toml"),
        (None, None, Some(""), ".config/ziege/destinations.toml"),
    ] {
        let selected =
            resolve_user_config_path(override_path.map(path), xdg.map(path), home.map(path)).unwrap();
        assert_eq!(destinations_file(&selected), path(expected));
    }
}

#[test]
fn files_are_looked_at_in_order() {
    let root = ProjectRoot(path("/p"));
    let user_path = path("/u/config.toml");
    let load = |project, user| {
        load_system_configuration(
            &root,
            &id("DEV"),
            &user_path,
            project,
            user,
            FileOutcome::Unreadable("catalog".to_owned()),
        )
        .err()
        .unwrap()
        .to_string()
    };
    let systems = || FileOutcome::Parsed(project("version = 1\n[systems.DEV]\n"));
    assert_eq!(
        load(FileOutcome::Unreadable("gone".to_owned()), FileOutcome::Unreadable("user".to_owned())),
        "cannot read `/p/ziege.toml`: gone"
    );
    assert_eq!(
        load(FileOutcome::Malformed("bad".to_owned()), FileOutcome::Unreadable("user".to_owned())),
        "cannot parse `/p/ziege.toml`: bad"
    );
    assert_eq!(
        load(
            FileOutcome::Parsed(project("version = 2\n[systems.DEV]\n")),
            FileOutcome::Unreadable("user".to_owned())
        ),
        "unsupported project configuration version 2"
    );
    assert_eq!(
        load(
            FileOutcome::Parsed(project("version = 1\n[systems.dev]\n")),
            FileOutcome::Unreadable("user".to_owned())
        ),
        "destination `DEV` is not configured in `/p/ziege.toml`"
    );
    assert_eq!(
        load(systems(), FileOutcome::Unreadable("user".to_owned())),
        "cannot read `/u/config.toml`: user"
    );
    assert_eq!(
        load(systems(), FileOutcome::Malformed("user".to_owned())),
        "cannot parse `/u/config.toml`: user"
    );
    assert_eq!(
        load(systems(), FileOutcome::Parsed(UserConfig::new(Some(4294967295), None))),
        "unsupported user configuration version 4294967295"
    );
    assert_eq!(
        load(systems(), FileOutcome::Parsed(user(""))),
        "cannot read `/u/destinations.toml`: catalog"
    );
    assert!(project_system(&root, &id("DEV"), systems()).is_ok());
    assert!(load_user_configuration(&user_path, FileOutcome::Parsed(user(""))).is_ok());
    assert_eq!(project_file(&path("/p")), path("/p/ziege.toml"));
}

#[test]
fn empty_connection_settings_are_named_in_order() {
    let load = |settings: [&str; 5]| {
        let mut destinations = TextMap::new();
        destinations.insert(
            "D V".to_owned(),
            DestinationConfig::new(
                settings[0].to_owned(),
                settings[1].to_owned(),
                Some(settings[2].to_owned()),
                settings[3].to_owned(),
                settings[4].to_owned(),
            ),
        );
        let catalog = DestinationsConfig { version: 1, destinations };
        load_destination(path("d.toml"), &id("D V"), FileOutcome::Parsed(catalog))
    };
    for (settings, field) in [
        (["", "", "", "", ""], "url"),
        (["u", "", "", "", ""], "client"),
        (["u", "c", "", "", ""], "language"),
        (["u", "c", "l", "", ""], "username"),
        (["u", "c", "l", "n", ""], "password"),
    ] {
        assert_eq!(
            load(settings).err().unwrap(),
            ConfigError::EmptyField { field: format!("destinations.D V.{field}") }
        );
    }
    assert!(load(["u", "c", "l", "n", "p"]).is_ok());
    assert_eq!(
        ConfigError::EmptyField { field: "destinations.DEV.url".to_owned() }.to_string(),
        "configuration field `destinations.DEV.url` must not be empty"
    );
}

fn selection(label: &str, values: &[&str]) -> MountConfig {
    MountConfig::Selection {
        label: label.to_owned(),
        filters: vec![
            FilterConfig {
                facet: "OWNER".to_owned(),
                values: vec!["A".to_owned(), "B".to_owned()],
                exclude: vec!["C".to_owned()],
            },
            FilterConfig {
                facet: "PACKAGE".to_owned(),
                values: values.iter().map(|value| value.to_string()).collect(),
                exclude: Vec::new(),
            },
        ],
        facets: None,
    }
}

#[test]
fn mounts_need_labels_and_filter_values() {
    let package = |package: &str, label: Option<&str>| MountConfig::Package {
        package: package.to_owned(),
        label: label.map(str::to_owned),
        facets: Some(Vec::new()),
    };
    assert_eq!(package("P", None).build().unwrap().label(), "P");
    assert_eq!(package("P", Some("L")).build().unwrap().label(), "L");
    assert_eq!(package("P", None).build().unwrap().scope, MountScope::Package("P".to_owned()));
    assert_eq!(
        package("P", Some("P")).build().unwrap().scope,
        MountScope::NamedPackage("P".to_owned())
    );
    assert_eq!(package("P", None).build().unwrap().facets, Some(Vec::new()));
    assert_eq!(package("", Some("Flight")).build(), Err(ConfigError::EmptyPackage));
    assert_eq!(package("", None).build(), Err(ConfigError::EmptyPackage));
    // A package without a name is noticed before an empty label.
    assert_eq!(package("", Some("")).build(), Err(ConfigError::EmptyPackage));
    assert_eq!(package("P", Some("")).build(), Err(ConfigError::EmptyMountLabel));
    assert_eq!(
        MountConfig::system_library(Some(String::new()), None).build(),
        Err(ConfigError::EmptyMountLabel)
    );
    assert_eq!(selection("", &["x"]).build(), Err(ConfigError::EmptyMountLabel));
    // A filter without values is noticed before an empty label.
    assert_eq!(
        selection("", &[]).build(),
        Err(ConfigError::EmptyFilter { label: String::new() })
    );
    let error = selection("S", &[]).build().unwrap_err();
    assert_eq!(error.to_string(), "selection mount `S` requires at least one filter value");
    assert_eq!(ConfigError::EmptyMountLabel.to_string(), "mount labels must not be empty");
    assert_eq!(ConfigError::EmptyPackage.to_string(), "package mount names must not be empty");
    let built = selection("S", &["x"]).build().unwrap();
    assert_eq!(
        built.scope,
        MountScope::Selection(vec![
            Preselection {
                facet: "OWNER".to_owned(),
                included: vec!["A".to_owned(), "B".to_owned()],
                excluded: vec!["C".to_owned()],
            },
            Preselection {
                facet: "PACKAGE".to_owned(),
                included: vec!["x".to_owned()],
                excluded: Vec::new(),
            },
        ])
    );
    assert_eq!(built.facets, None);
}

#[test]
fn the_first_bad_mount_decides_the_error() {
    let config = ProjectSystemConfig {
        folder: None,
        readonly: false,
        mounts: vec![selection("A", &["x"]), selection("B", &[]), selection("", &["x"])],
    };
    assert_eq!(
        config.build_mounts(),
        Err(ConfigError::EmptyFilter { label: "B".to_owned() })
    );
    let config = ProjectSystemConfig { folder: None, readonly: false, mounts: Vec::new() };
    let mounts = config.build_mounts().unwrap();
    assert_eq!(mounts.len(), 1);
    assert_eq!(mounts[0].label(), "System Library");
    assert_eq!(mounts[0].scope, MountScope::SystemLibrary);
    assert_eq!(mounts[0].facets, None);
}

#[test]
fn mounts_are_the_same_where_they_are_equal() {
    let facets = |least| {
        Some(vec![
            FacetConfig::Always("A".to_owned()),
            FacetConfig::Adaptive { facet: "B".to_owned(), minimum_objects: least },
        ])
    };
    let all = [
        MountConfig::system_library(None, None),
        MountConfig::system_library(None, facets(1)),
        MountConfig::system_library(None, facets(2)),
        MountConfig::system_library(Some("X".to_owned()), None),
        MountConfig::Package { package: "P".to_owned(), label: None, facets: None },
        MountConfig::Package { package: "P".to_owned(), label: Some("P".to_owned()), facets: None },
        MountConfig::Package { package: "Q".to_owned(), label: None, facets: facets(1) },
        selection("S", &[]),
        selection("S", &["x"]),
        selection("S", &["x", "y"]),
        selection("T", &["x"]),
    ];
    for left in &all {
        assert_eq!(left.clone(), *left);
        for right in &all {
            assert_eq!(left.same(right), left == right);
            assert_eq!(
                same_mounts(&vec![left.clone()], &vec![right.clone()]),
                left == right
            );
        }
    }
    assert!(!same_mounts(&vec![], &vec![selection("S", &[])]));
}

#[test]
fn names_are_equal_and_ordered_as_their_spellings() {
    let spellings = ["", "DEV", "DEV ", "DEV/", "DEVX", "dev", "d\u{e9}v", "\u{1f410}"];
    for left in spellings {
        for right in spellings {
            assert_eq!(id(left) == id(right), left == right);
            assert_eq!(id(left) < id(right), left < right);
            assert_eq!(id(left) > id(right), left > right);
            assert_eq!(id(left).cmp(&id(right)), left.cmp(right));
            assert_eq!(id(left).partial_cmp(&id(right)), Some(left.cmp(right)));
        }
        assert_eq!(id(left).as_str(), left);
        assert_eq!(DestinationId::from_uri(left.to_owned()), id(left));
    }
}

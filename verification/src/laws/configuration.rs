//! What is loaded from configuration files.

use crate::config;
use crate::config::project::{copy_mounts, project_file, same_mounts};
use crate::config::{
    destinations_file, load_destination, load_local_project, load_system_configuration,
    load_user_configuration, project_system, read_config, resolve_user_config_path,
    user_config_path, ConfigError, DestinationConfig, DestinationId, DestinationsConfig,
    EditingPolicy, FileOutcome, LockingMode, MountConfig, ProjectConfig, ProjectRoot,
    ProjectSystemConfig, ResolvedSystemConfig, UserConfig,
};
use crate::environment::Environment;
use crate::fingerprint;
use crate::model;
use crate::path;
use crate::path::FilePath;
use crate::text;
use vstd::prelude::*;
use vstd::utf8::*;

verus! {

/// Preferences that a file does not give have their defaults, and all others are kept.
pub proof fn lemma_preferences_have_defaults(
    version: Option<u32>,
    locking: Option<LockingMode>,
    config: UserConfig,
)
    requires
        call_ensures(UserConfig::new, (version, locking), config),
    ensures
        version matches Some(version) ==> config.version == version,
        version is None ==> config.version == 1,
        locking matches Some(locking) ==> config.editing.locking == locking,
        locking is None ==> config.editing.locking == LockingMode::Explicit,
{
}

/// Whether files can be edited comes from the project, and how they are locked from the
/// user.
pub proof fn lemma_editing_policy(config: UserConfig, readonly: bool, policy: EditingPolicy)
    requires
        call_ensures(UserConfig::editing_policy, (&config, readonly), policy),
    ensures
        policy.readonly == readonly,
        policy.locking == config.editing.locking,
{
}

/// Connection settings are those that a file gives. Only the language has a default.
pub proof fn lemma_settings_are_those_given(
    url: String,
    client: String,
    language: Option<String>,
    username: String,
    password: String,
    config: DestinationConfig,
)
    requires
        call_ensures(
            DestinationConfig::new,
            (url, client, language, username, password),
            config,
        ),
    ensures
        config.url@ == url@,
        config.client@ == client@,
        language matches Some(language) ==> config.language@ == language@,
        language is None ==> config.language@ == "EN"@,
        config.username@ == username@,
        config.password@ == password@,
{
}

/// The configuration of a project lies directly in its directory, and the catalog of
/// destinations beside the configuration of the user.
pub proof fn lemma_where_files_lie(
    root: FilePath,
    file: FilePath,
    user: FilePath,
    catalog: FilePath,
)
    requires
        call_ensures(project_file, (&root,), file),
        call_ensures(destinations_file, (&user,), catalog),
    ensures
        file.bytes@ == path::joined(root.bytes@, encode_utf8("ziege.toml"@)),
        catalog.bytes@ == path::with_name(user.bytes@, encode_utf8("destinations.toml"@)),
{
}

/// An overriding path is used as it is, else an absolute XDG directory, else the home
/// directory. Without any of them there is no path.
pub proof fn lemma_user_configuration_path(
    override_path: Option<FilePath>,
    xdg_config_home: Option<FilePath>,
    home: Option<FilePath>,
    resolved: Result<FilePath, ConfigError>,
)
    requires
        call_ensures(
            resolve_user_config_path,
            (override_path, xdg_config_home, home),
            resolved,
        ),
    ensures
        ({
            let xdg = xdg_config_home is Some && xdg_config_home->0.bytes@.len() > 0
                && xdg_config_home->0.bytes@[0] == 0x2f;
            if override_path is Some {
                resolved matches Ok(path) && path.bytes@ == override_path->0.bytes@
            } else if xdg {
                resolved matches Ok(path) && path.bytes@ == path::joined(
                    xdg_config_home->0.bytes@,
                    encode_utf8("ziege/config.toml"@),
                )
            } else if home is Some {
                resolved matches Ok(path) && path.bytes@ == path::joined(
                    home->0.bytes@,
                    encode_utf8(".config/ziege/config.toml"@),
                )
            } else {
                resolved matches Err(ConfigError::MissingEnvironment { destination, variable })
                    && destination@ == "global configuration"@ && variable@ == "HOME"@
            }
        }),
{
}

/// The three places are taken from the environment variables that name them.
pub proof fn lemma_environment_names_the_places(
    environment: Environment,
    found: Result<FilePath, ConfigError>,
    override_path: Option<FilePath>,
    xdg_config_home: Option<FilePath>,
    home: Option<FilePath>,
    resolved: Result<FilePath, ConfigError>,
    override_name: &str,
    xdg_name: &str,
    home_name: &str,
)
    requires
        override_name@ == "ZIEGE_CONFIG"@,
        xdg_name@ == "XDG_CONFIG_HOME"@,
        home_name@ == "HOME"@,
        call_ensures(Environment::path_value, (&environment, override_name), override_path),
        call_ensures(Environment::path_value, (&environment, xdg_name), xdg_config_home),
        call_ensures(Environment::path_value, (&environment, home_name), home),
        call_ensures(
            resolve_user_config_path,
            (override_path, xdg_config_home, home),
            resolved,
        ),
        call_ensures(user_config_path, (&environment,), found),
    ensures
        found is Ok <==> resolved is Ok,
        found is Ok ==> found->Ok_0.bytes@ == resolved->Ok_0.bytes@,
{
}

/// What is wrong with a file that could not be used: it could not be read or parsed, for
/// the given reason, or has another version.
pub open spec fn reports_file<T>(
    error: ConfigError,
    path: Seq<u8>,
    file: FileOutcome<T>,
    kind: Seq<char>,
    version: u32,
) -> bool {
    match file {
        FileOutcome::Unreadable(reason) => error matches ConfigError::Read { path: at, source }
            && at.bytes@ == path && source@ == reason@,
        FileOutcome::Malformed(reason) => error matches ConfigError::Parse { path: at, message }
            && at.bytes@ == path && message@ == reason@,
        FileOutcome::Parsed(_) => error matches ConfigError::UnsupportedVersion {
            kind: of,
            version: found,
        } && of@ == kind && found == version && version != 1,
    }
}

/// A project file of version 1 is taken over as it is. For any other the error says what is
/// wrong with it.
pub proof fn lemma_loaded_project(
    root: FilePath,
    file: FileOutcome<ProjectConfig>,
    loaded: Result<ProjectConfig, ConfigError>,
)
    requires
        call_ensures(load_local_project, (&root, file), loaded),
    ensures
        match loaded {
            Ok(config) => file == FileOutcome::Parsed(config) && config.version == 1,
            Err(error) => reports_file(
                error,
                path::joined(root.bytes@, encode_utf8("ziege.toml"@)),
                file,
                "project"@,
                file->Parsed_0.version,
            ),
        },
{
}

/// A user file of version 1 is taken over as it is. For any other the error says what is
/// wrong with it.
pub proof fn lemma_loaded_preferences(
    path: FilePath,
    file: FileOutcome<UserConfig>,
    loaded: Result<UserConfig, ConfigError>,
)
    requires
        call_ensures(load_user_configuration, (&path, file), loaded),
    ensures
        match loaded {
            Ok(config) => file == FileOutcome::Parsed(config) && config.version == 1,
            Err(error) => reports_file(
                error,
                path.bytes@,
                file,
                "user"@,
                file->Parsed_0.version,
            ),
        },
{
}

/// Whether a setting is empty and all before it are not.
pub open spec fn is_first_empty(config: DestinationConfig, field: Seq<char>) -> bool {
    ||| field == "url"@ && config.url@.len() == 0
    ||| field == "client"@ && config.url@.len() > 0 && config.client@.len() == 0
    ||| field == "language"@ && config.url@.len() > 0 && config.client@.len() > 0
        && config.language@.len() == 0
    ||| field == "username"@ && config.url@.len() > 0 && config.client@.len() > 0
        && config.language@.len() > 0 && config.username@.len() == 0
    ||| field == "password"@ && config.url@.len() > 0 && config.client@.len() > 0
        && config.language@.len() > 0 && config.username@.len() > 0 && config.password@.len() == 0
}

/// A destination is loaded with the settings that a catalog of version 1 holds under
/// exactly its name, where none of them is empty. Otherwise the error says what is missing.
pub proof fn lemma_loaded_destination(
    path: FilePath,
    id: DestinationId,
    file: FileOutcome<DestinationsConfig>,
    loaded: Result<DestinationConfig, ConfigError>,
)
    requires
        call_ensures(load_destination, (path, &id, file), loaded),
    ensures
        match loaded {
            Ok(config) => file matches FileOutcome::Parsed(catalog) && {
                &&& catalog.version == 1
                &&& catalog.destinations@.dom().contains(id.0@)
                &&& config == catalog.destinations@[id.0@]
                &&& config.url@.len() > 0
                &&& config.client@.len() > 0
                &&& config.language@.len() > 0
                &&& config.username@.len() > 0
                &&& config.password@.len() > 0
            },
            Err(error) => {
                ||| reports_file(
                    error,
                    path.bytes@,
                    file,
                    "destinations"@,
                    file->Parsed_0.version,
                )
                ||| file matches FileOutcome::Parsed(catalog) && catalog.version == 1
                    && !catalog.destinations@.dom().contains(id.0@) && (error
                    matches ConfigError::UnknownDestination { destination, path: at }
                    && destination@ == id.0@ && at.bytes@ == path.bytes@)
                ||| file matches FileOutcome::Parsed(catalog) && catalog.version == 1
                    && catalog.destinations@.dom().contains(id.0@) && (error
                    matches ConfigError::EmptyField { field } && exists|name: Seq<char>|
                    #[trigger] is_first_empty(catalog.destinations@[id.0@], name) && field@
                        == "destinations."@ + id.0@ + "."@ + name)
            },
        },
{
    if let FileOutcome::Parsed(catalog) = file {
        let config = catalog.destinations@[id.0@];
        assert(is_first_empty(config, "url"@) || config.url@.len() > 0);
        assert(is_first_empty(config, "client"@) || config.url@.len() == 0 || config.client@.len()
            > 0);
        assert(is_first_empty(config, "language"@) || config.url@.len() == 0
            || config.client@.len() == 0 || config.language@.len() > 0);
        assert(is_first_empty(config, "username"@) || config.url@.len() == 0
            || config.client@.len() == 0 || config.language@.len() == 0 || config.username@.len()
            > 0);
        assert(is_first_empty(config, "password"@) || config.url@.len() == 0
            || config.client@.len() == 0 || config.language@.len() == 0 || config.username@.len()
            == 0 || config.password@.len() > 0);
    }
}

/// A system is selected by exactly the name of its destination.
pub proof fn lemma_selected_system(
    root: ProjectRoot,
    id: DestinationId,
    file: FileOutcome<ProjectConfig>,
    found: Result<ProjectSystemConfig, ConfigError>,
    project: Result<ProjectConfig, ConfigError>,
)
    requires
        call_ensures(load_local_project, (&root.0, file), project),
        call_ensures(project_system, (&root, &id, file), found),
    ensures
        match found {
            Ok(config) => project matches Ok(project) && project.systems@.dom().contains(id.0@)
                && config == project.systems@[id.0@],
            Err(error) => match project {
                Err(reported) => error@ == reported@,
                Ok(project) => !project.systems@.dom().contains(id.0@) && (error
                    matches ConfigError::UnknownDestination { destination, path: at }
                    && destination@ == id.0@ && at.bytes@ == path::joined(
                    root.0.bytes@,
                    encode_utf8("ziege.toml"@),
                )),
            },
        },
{
}

/// The full configuration of a system is what the three files give, each taken over as it
/// is, and is loaded exactly where all of them give something. The first that gives nothing
/// is what is reported.
pub proof fn lemma_loaded_configuration(
    root: ProjectRoot,
    id: DestinationId,
    user_config_path: FilePath,
    catalog_path: FilePath,
    project: FileOutcome<ProjectConfig>,
    user: FileOutcome<UserConfig>,
    destinations: FileOutcome<DestinationsConfig>,
    system: Result<ProjectSystemConfig, ConfigError>,
    preferences: Result<UserConfig, ConfigError>,
    settings: Result<DestinationConfig, ConfigError>,
    loaded: Result<ResolvedSystemConfig, ConfigError>,
)
    requires
        call_ensures(project_system, (&root, &id, project), system),
        call_ensures(load_user_configuration, (&user_config_path, user), preferences),
        call_ensures(destinations_file, (&user_config_path,), catalog_path),
        call_ensures(load_destination, (catalog_path, &id, destinations), settings),
        call_ensures(
            load_system_configuration,
            (&root, &id, &user_config_path, project, user, destinations),
            loaded,
        ),
    ensures
        loaded is Ok <==> system is Ok && preferences is Ok && settings is Ok,
        loaded matches Ok(loaded) ==> {
            &&& loaded.config == system->Ok_0
            &&& loaded.destination == settings->Ok_0
            &&& loaded.editing.readonly == system->Ok_0.readonly
            &&& loaded.editing.locking == preferences->Ok_0.editing.locking
        },
        loaded matches Err(error) ==> if system is Err {
            error@ == system->Err_0@
        } else if preferences is Err {
            error@ == preferences->Err_0@
        } else {
            error@ == settings->Err_0@
        },
{
}

/// The same settings always have the same fingerprint.
pub proof fn lemma_same_settings_have_one_fingerprint(
    left: DestinationConfig,
    right: DestinationConfig,
    hash: u64,
    other: u64,
)
    requires
        left.url@ == right.url@,
        left.client@ == right.client@,
        left.language@ == right.language@,
        left.username@ == right.username@,
        left.password@ == right.password@,
        call_ensures(DestinationConfig::fingerprint, (&left,), hash),
        call_ensures(DestinationConfig::fingerprint, (&right,), other),
    ensures
        hash == other,
{
}

/// A destination keeps the spelling of its name.
pub proof fn lemma_destination_keeps_its_name(value: String, id: DestinationId, name: &str)
    requires
        call_ensures(DestinationId::from_uri, (value,), id),
        call_ensures(DestinationId::as_str, (&id,), name),
    ensures
        id.0@ == value@,
        name@ == value@,
{
}

/// Whether two lists of facets are the same.
pub open spec fn are_same_facets(
    left: Option<Vec<config::FacetConfig>>,
    right: Option<Vec<config::FacetConfig>>,
) -> bool {
    match (left, right) {
        (None, None) => true,
        (Some(left), Some(right)) => left@.len() == right@.len() && forall|i: int|
            0 <= i < left@.len() ==> match (#[trigger] left@[i], right@[i]) {
                (config::FacetConfig::Always(left), config::FacetConfig::Always(right)) => left@
                    == right@,
                (
                    config::FacetConfig::Adaptive { facet: left, minimum_objects: least },
                    config::FacetConfig::Adaptive { facet: right, minimum_objects: other },
                ) => left@ == right@ && least == other,
                _ => false,
            },
        _ => false,
    }
}

/// Whether two configurations of a mount say the same in all that they hold.
pub open spec fn are_same_mounts(left: MountConfig, right: MountConfig) -> bool {
    match (left, right) {
        (
            MountConfig::SystemLibrary { label, facets },
            MountConfig::SystemLibrary { label: other_label, facets: other_facets },
        ) => label@ == other_label@ && are_same_facets(facets, other_facets),
        (
            MountConfig::Package { package, label, facets },
            MountConfig::Package { package: other_package, label: other_label, facets: other_facets },
        ) => {
            &&& package@ == other_package@
            &&& label is Some <==> other_label is Some
            &&& label is Some ==> label->0@ == other_label->0@
            &&& are_same_facets(facets, other_facets)
        },
        (
            MountConfig::Selection { label, filters, facets },
            MountConfig::Selection { label: other_label, filters: others, facets: other_facets },
        ) => {
            &&& label@ == other_label@
            &&& filters@.len() == others@.len()
            &&& forall|i: int|
                0 <= i < filters@.len() ==> {
                    &&& (#[trigger] filters@[i]).facet@ == others@[i].facet@
                    &&& model::are_same_texts(filters@[i].values@, others@[i].values@)
                    &&& model::are_same_texts(filters@[i].exclude@, others@[i].exclude@)
                }
            &&& are_same_facets(facets, other_facets)
        },
        _ => false,
    }
}

proof fn lemma_same_facets(
    left: Option<Vec<config::FacetConfig>>,
    right: Option<Vec<config::FacetConfig>>,
)
    requires
        model::optional_views(left) == model::optional_views(right),
    ensures
        are_same_facets(left, right),
{
    if let (Some(left), Some(right)) = (left, right) {
        model::lemma_views(left@);
        model::lemma_views(right@);
        assert forall|i: int| 0 <= i < left@.len() implies (#[trigger] left@[i])@ == right@[i]@ by {
            assert(model::views(left@)[i] == model::views(right@)[i]);
        }
    }
}

proof fn lemma_same_views_are_same_mounts(left: MountConfig, right: MountConfig)
    requires
        left@ == right@,
    ensures
        are_same_mounts(left, right),
{
    match (left, right) {
        (
            MountConfig::SystemLibrary { label, facets },
            MountConfig::SystemLibrary { label: other_label, facets: other_facets },
        ) => {
            lemma_same_facets(facets, other_facets);
        },
        (
            MountConfig::Package { package, label, facets },
            MountConfig::Package { package: other_package, label: other_label, facets: other_facets },
        ) => {
            lemma_same_facets(facets, other_facets);
        },
        (
            MountConfig::Selection { label, filters, facets },
            MountConfig::Selection { label: other_label, filters: others, facets: other_facets },
        ) => {
            lemma_same_facets(facets, other_facets);
            model::lemma_views(filters@);
            model::lemma_views(others@);
            assert forall|i: int| 0 <= i < filters@.len() implies {
                &&& (#[trigger] filters@[i]).facet@ == others@[i].facet@
                &&& model::are_same_texts(filters@[i].values@, others@[i].values@)
                &&& model::are_same_texts(filters@[i].exclude@, others@[i].exclude@)
            } by {
                assert(model::views(filters@)[i] == model::views(others@)[i]);
                assert(filters@[i]@ == others@[i]@);
                model::lemma_same_texts(filters@[i].values@, others@[i].values@);
                model::lemma_same_texts(filters@[i].exclude@, others@[i].exclude@);
            }
        },
        _ => {},
    }
}

/// Two lists configure the same mounts only where they agree, one by one, in every label,
/// package, filter and facet. A copy agrees with what it was made from.
pub proof fn lemma_same_lists_of_mounts(
    left: Vec<MountConfig>,
    right: Vec<MountConfig>,
    same: bool,
    copy: Vec<MountConfig>,
)
    requires
        call_ensures(same_mounts, (&left, &right), same),
        call_ensures(copy_mounts, (&left,), copy),
    ensures
        same ==> left@.len() == right@.len() && forall|i: int|
            0 <= i < left@.len() ==> are_same_mounts(#[trigger] left@[i], right@[i]),
        left@ == right@ ==> same,
        copy@.len() == left@.len(),
        forall|i: int|
            0 <= i < left@.len() ==> are_same_mounts(#[trigger] copy@[i], left@[i]),
{
    model::lemma_views(left@);
    model::lemma_views(right@);
    model::lemma_views(copy@);
    assert forall|i: int| 0 <= i < left@.len() implies are_same_mounts(
        #[trigger] copy@[i],
        left@[i],
    ) by {
        assert(model::views(copy@)[i] == model::views(left@)[i]);
        lemma_same_views_are_same_mounts(copy@[i], left@[i]);
    }
    if same {
        assert forall|i: int| 0 <= i < left@.len() implies are_same_mounts(
            #[trigger] left@[i],
            right@[i],
        ) by {
            assert(model::views(left@)[i] == model::views(right@)[i]);
            lemma_same_views_are_same_mounts(left@[i], right@[i]);
        }
    }
}

/// The message of an error names what the error holds.
pub proof fn lemma_error_message(error: ConfigError, message: String)
    requires
        call_ensures(ConfigError::to_string, (&error,), message),
    ensures
        match error {
            ConfigError::Read { path, source } => message@ == "cannot read `"@ + path::shown(
                path.bytes@,
            ) + "`: "@ + source@,
            ConfigError::Parse { path, message: reason } => message@ == "cannot parse `"@
                + path::shown(path.bytes@) + "`: "@ + reason@,
            ConfigError::UnsupportedVersion { kind, version } => message@ == "unsupported "@ + kind@
                + " configuration version "@ + text::decimal(version as nat),
            ConfigError::UnknownDestination { destination, path } => message@ == "destination `"@
                + destination@ + "` is not configured in `"@ + path::shown(path.bytes@) + "`"@,
            ConfigError::MissingEnvironment { destination, variable } => message@
                == "environment variable `"@ + variable@ + "` required by destination `"@
                + destination@ + "` is not set"@,
            ConfigError::EmptyField { field } => message@ == "configuration field `"@ + field@
                + "` must not be empty"@,
            ConfigError::EmptyMountLabel => message@ == "mount labels must not be empty"@,
            ConfigError::EmptyPackage => message@ == "package mount names must not be empty"@,
            ConfigError::EmptyFilter { label } => message@ == "selection mount `"@ + label@
                + "` requires at least one filter value"@,
        },
{
}

/// The fingerprint of settings is the hash of all of them, each told apart from the next.
pub proof fn lemma_fingerprint_of_settings(config: DestinationConfig, hash: u64)
    requires
        call_ensures(DestinationConfig::fingerprint, (&config,), hash),
    ensures
        hash == fingerprint::hash_of(
            fingerprint::text_code(config.url@) + fingerprint::text_code(config.client@)
                + fingerprint::text_code(config.language@) + fingerprint::text_code(
                config.username@,
            ) + fingerprint::text_code(config.password@),
        ),
{
}

/// A file is taken over as it is, and what is wrong with it is reported with its path.
pub proof fn lemma_read_file(
    path: FilePath,
    file: FileOutcome<ProjectConfig>,
    read: Result<ProjectConfig, ConfigError>,
)
    requires
        call_ensures(read_config::<ProjectConfig, ConfigError>, (&path, file), read),
    ensures
        match file {
            FileOutcome::Parsed(config) => read is Ok && read->Ok_0 == config,
            FileOutcome::Unreadable(reason) => read matches Err(
                ConfigError::Read { path: at, source },
            ) && at.bytes@ == path.bytes@ && source@ == reason@,
            FileOutcome::Malformed(reason) => read matches Err(
                ConfigError::Parse { path: at, message },
            ) && at.bytes@ == path.bytes@ && message@ == reason@,
        },
{
}

} // verus!

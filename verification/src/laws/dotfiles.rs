//! What is loaded from dotfiles.

use crate::config::FileOutcome;
use crate::dotfile::codes;
use crate::dotfile::mounts;
use crate::dotfile::mounts::default_system_library_label;
use crate::dotfile::{
    config_version, directory_from, environment_value, facet_policy, load_destination,
    load_project, load_project_from, load_system, load_system_of, nonempty, project_directory,
    project_root, read_project, resolve_value, select_system, user_config_path, validate_label,
    ConfigError, ConfigFault, DestinationConfig, FacetConfig, LoadedSystem, MountConfig,
    ProjectConfig, ProjectSystemConfig, ResolvedDestination, UserConfig,
};
use crate::environment::Environment;
use crate::file_url::{read_file_url, FileUrl};
use crate::fingerprint;
use crate::laws::mounts::{all_select, lemma_all_select, lemma_selects_by, selects_by};
use crate::model;
use crate::mounts::{lemma_each_mount_is_described, MountSource};
use crate::path;
use crate::path::FilePath;
use crate::repository::{FacetLevel, Mount, MountScope, MountView};
use crate::text;
use crate::text_map::TextMap;
use vstd::prelude::*;
use vstd::utf8::*;

verus! {

/// A file without a version has version 1, and what it holds is kept.
pub proof fn lemma_files_have_a_version(
    version: Option<u32>,
    systems: TextMap<ProjectSystemConfig>,
    project: ProjectConfig,
    destinations: TextMap<DestinationConfig>,
    user: UserConfig,
    default: u32,
)
    requires
        call_ensures(ProjectConfig::new, (version, systems), project),
        call_ensures(UserConfig::new, (version, destinations), user),
        call_ensures(config_version, (), default),
    ensures
        default == 1,
        project.systems == systems,
        user.destinations == destinations,
        version matches Some(version) ==> project.version == version && user.version == version,
        version is None ==> project.version == 1 && user.version == 1,
{
}

/// Labels must not be empty, and the usual one is not.
pub proof fn lemma_labels(label: &str, valid: Result<(), ConfigError>, usual: String)
    requires
        call_ensures(validate_label, (label,), valid),
        call_ensures(default_system_library_label, (), usual),
    ensures
        valid is Ok <==> label@.len() > 0,
        valid matches Err(error) ==> error is EmptyMountLabel,
        usual@ == "System Library"@,
{
}

/// Whether a level is the one that a facet configures.
pub open spec fn is_level_of(level: FacetLevel, facet: FacetConfig) -> bool {
    match facet {
        FacetConfig::Always(name) => level.facet@ == name@ && level.minimum_objects is None,
        FacetConfig::Detailed { facet: name, minimum_objects } => level.facet@ == name@
            && level.minimum_objects == minimum_objects,
    }
}

/// Whether levels are those that facets configure, in the same order.
pub open spec fn are_levels_of(levels: Seq<FacetLevel>, facets: Seq<FacetConfig>) -> bool {
    &&& levels.len() == facets.len()
    &&& forall|i: int| 0 <= i < facets.len() ==> is_level_of(#[trigger] levels[i], facets[i])
}

/// Whether levels are those that facets configure, and there are some exactly where facets
/// are configured.
pub open spec fn groups_by(
    levels: Option<Vec<FacetLevel>>,
    facets: Option<Vec<FacetConfig>>,
) -> bool {
    match (levels, facets) {
        (None, None) => true,
        (Some(levels), Some(facets)) => are_levels_of(levels@, facets@),
        _ => false,
    }
}

proof fn lemma_levels(levels: Seq<FacetLevel>, facets: Seq<FacetConfig>)
    requires
        model::views(levels) == mounts::levels_of(model::views(facets)),
    ensures
        are_levels_of(levels, facets),
{
    model::lemma_views(levels);
    model::lemma_views(facets);
    assert forall|i: int| 0 <= i < facets.len() implies is_level_of(
        #[trigger] levels[i],
        facets[i],
    ) by {
        assert(model::views(levels)[i] == mounts::level_of(model::views(facets)[i]));
        assert(model::views(levels)[i] == levels[i]@);
    }
}

/// Facets give one level each, in order, with their names and thresholds.
pub proof fn lemma_facet_policy(facets: Vec<FacetConfig>, levels: Vec<FacetLevel>)
    requires
        call_ensures(facet_policy, (&facets,), levels),
    ensures
        are_levels_of(levels@, facets@),
{
    lemma_levels(levels@, facets@);
}

/// A mount is built with the label, the scope and the facets of its configuration. It is
/// refused exactly where a package has no name, there is no label to show or a filter has
/// no values, in this order.
pub proof fn lemma_built_mount(config: MountConfig, built: Result<Mount, ConfigError>)
    requires
        call_ensures(MountConfig::build, (&config,), built),
    ensures
        match config {
            MountConfig::SystemLibrary { label, facets } => if label@.len() == 0 {
                built matches Err(error) && error is EmptyMountLabel
            } else {
                built matches Ok(mount) && {
                    &&& mount.label@ == label@
                    &&& mount.scope is SystemLibrary
                    &&& groups_by(mount.facets, facets)
                }
            },
            MountConfig::Package { package, label, facets } => if package@.len() == 0 {
                built matches Err(error) && error is EmptyPackage
            } else if label is Some && label->0@.len() == 0 {
                built matches Err(error) && error is EmptyMountLabel
            } else {
                built matches Ok(mount) && {
                    &&& groups_by(mount.facets, facets)
                    &&& match label {
                        None => mount.label@ == package@ && (mount.scope
                            matches MountScope::Package(shown) && shown@ == package@),
                        Some(label) => mount.label@ == label@ && (mount.scope
                            matches MountScope::NamedPackage(shown) && shown@ == package@),
                    }
                }
            },
            MountConfig::Selection { label, filters, facets } => if label@.len() == 0 {
                built matches Err(error) && error is EmptyMountLabel
            } else if !all_select(filters@) {
                built matches Err(ConfigError::EmptyFilter { label: named }) && named@ == label@
            } else {
                built matches Ok(mount) && {
                    &&& mount.label@ == label@
                    &&& mount.scope matches MountScope::Selection(selected) && selects_by(
                        selected@,
                        filters@,
                    )
                    &&& groups_by(mount.facets, facets)
                }
            },
        },
{
    let configured = match config {
        MountConfig::SystemLibrary { facets, .. } => facets,
        MountConfig::Package { facets, .. } => facets,
        MountConfig::Selection { facets, .. } => facets,
    };
    if let Ok(mount) = built {
        if let (Some(levels), Some(facets)) = (mount.facets, configured) {
            lemma_levels(levels@, facets@);
        }
        if let (MountScope::Selection(selected), MountConfig::Selection { filters, .. }) = (
            mount.scope,
            config,
        ) {
            lemma_selects_by(selected@, filters@);
        }
    }
    if let MountConfig::Selection { filters, .. } = config {
        lemma_all_select(filters@);
    }
}

/// An empty value is refused, and any other is kept.
pub proof fn lemma_nonempty_value(
    destination: &str,
    field: &'static str,
    value: String,
    checked: Result<String, ConfigError>,
)
    requires
        call_ensures(nonempty, (destination, field, value), checked),
    ensures
        value@.len() > 0 ==> checked is Ok && checked->Ok_0@ == value@,
        value@.len() == 0 ==> (checked matches Err(
            ConfigError::EmptyDestinationField { destination: named, field: of },
        ) && named@ == destination@ && of@ == field@),
{
}

/// A variable that a destination needs must be set to a text that is not empty.
pub proof fn lemma_needed_variable(
    destination: &str,
    variable: &str,
    environment: Environment,
    set: Option<String>,
    value: Result<String, ConfigError>,
)
    requires
        call_ensures(Environment::text_value, (&environment, variable), set),
        call_ensures(environment_value, (destination, variable, &environment), value),
    ensures
        match set {
            None => value matches Err(
                ConfigError::MissingEnvironment { destination: named, variable: missing },
            ) && named@ == destination@ && missing@ == variable@,
            Some(set) => {
                &&& set@.len() > 0 ==> value is Ok && value->Ok_0@ == set@
                &&& set@.len() == 0 ==> (value matches Err(
                    ConfigError::EmptyDestinationField { destination: named, field },
                ) && named@ == destination@ && field@ == "environment variable"@)
            },
        },
{
}

/// A setting comes from its literal or from its variable, not from both, and else from its
/// default.
pub proof fn lemma_resolved_value(
    destination: &str,
    field: &'static str,
    literal: Option<String>,
    variable: Option<String>,
    default: Option<&str>,
    environment: Environment,
    name: &str,
    set: Result<String, ConfigError>,
    value: Result<String, ConfigError>,
)
    requires
        variable matches Some(variable) ==> name@ == variable@,
        call_ensures(environment_value, (destination, name, &environment), set),
        call_ensures(
            resolve_value,
            (destination, field, &literal, &variable, default, &environment),
            value,
        ),
    ensures
        ({
            let refused = value matches Err(
                ConfigError::InvalidDestinationField { destination: named, field: of },
            ) && named@ == destination@ && of@ == field@;
            match (literal, variable) {
                (Some(_), Some(_)) => refused,
                (Some(literal), None) => {
                    &&& literal@.len() > 0 ==> value is Ok && value->Ok_0@ == literal@
                    &&& literal@.len() == 0 ==> (value matches Err(
                        ConfigError::EmptyDestinationField { destination: named, field: of },
                    ) && named@ == destination@ && of@ == field@)
                },
                (None, Some(_)) => model::outcome(value) == model::outcome(set),
                (None, None) => match default {
                    Some(default) => value is Ok && value->Ok_0@ == default@,
                    None => refused,
                },
            }
        }),
{
}

/// A destination is resolved with each setting from its own source, or not at all.
pub proof fn lemma_resolved_destination(
    config: DestinationConfig,
    destination: &str,
    environment: Environment,
    resolved: Result<ResolvedDestination, ConfigError>,
)
    requires
        call_ensures(DestinationConfig::resolve, (&config, destination, &environment), resolved),
    ensures
        resolved matches Ok(settings) ==> {
            &&& comes_from(settings.url@, config.url, config.url_env, environment)
            &&& comes_from(settings.client@, config.client, config.client_env, environment)
            &&& comes_from(settings.username@, config.username, config.username_env, environment)
            &&& config.language is None && config.language_env is None ==> settings.language@
                == "EN"@
            &&& config.language is Some || config.language_env is Some ==> comes_from(
                settings.language@,
                config.language,
                config.language_env,
                environment,
            )
            &&& environment.text(config.password_env@) == Some(settings.password@)
            &&& settings.password@.len() > 0
        },
        resolved is Err ==> {
            ||| !exists|value: Seq<char>| comes_from(value, config.url, config.url_env, environment)
            ||| !exists|value: Seq<char>|
                comes_from(value, config.client, config.client_env, environment)
            ||| !exists|value: Seq<char>|
                comes_from(value, config.username, config.username_env, environment)
            ||| (config.language is Some || config.language_env is Some) && !exists|
                value: Seq<char>,
            | comes_from(value, config.language, config.language_env, environment)
            ||| environment.text(config.password_env@) is None
            ||| environment.text(config.password_env@) == Some(Seq::<char>::empty())
        },
{
    if resolved is Err {
        lemma_source(config.url, config.url_env, environment);
        lemma_source(config.client, config.client_env, environment);
        lemma_source(config.username, config.username_env, environment);
        lemma_source(config.language, config.language_env, environment);
        if let Some(password) = environment.text(config.password_env@) {
            if password.len() == 0 {
                assert(password =~= Seq::<char>::empty());
            }
        }
    }
}

/// Whether a value is what a literal or a variable, and not both, give for a setting.
pub open spec fn comes_from(
    value: Seq<char>,
    literal: Option<String>,
    variable: Option<String>,
    environment: Environment,
) -> bool {
    &&& value.len() > 0
    &&& match (literal, variable) {
        (Some(literal), None) => value == literal@,
        (None, Some(variable)) => environment.text(variable@) == Some(value),
        _ => false,
    }
}

/// A setting that has a source has a value.
proof fn lemma_source(
    literal: Option<String>,
    variable: Option<String>,
    environment: Environment,
)
    ensures
        literal is Some && variable is None && literal->0@.len() > 0 ==> comes_from(
            literal->0@,
            literal,
            variable,
            environment,
        ),
        literal is None && variable is Some && environment.text(variable->0@) is Some
            && environment.text(variable->0@)->0.len() > 0 ==> comes_from(
            environment.text(variable->0@)->0,
            literal,
            variable,
            environment,
        ),
{
}

/// A project file of version 1 is taken over as it is.
pub proof fn lemma_read_project(
    root: FilePath,
    file: FileOutcome<ProjectConfig>,
    read: Result<ProjectConfig, ConfigError>,
)
    requires
        call_ensures(read_project, (&root, file), read),
    ensures
        match file {
            FileOutcome::Parsed(config) => {
                &&& config.version == 1 ==> read is Ok && read->Ok_0 == config
                &&& config.version != 1 ==> (read matches Err(
                    ConfigError::UnsupportedVersion { kind, version },
                ) && kind@ == "project"@ && version == config.version)
            },
            FileOutcome::Unreadable(reason) => read matches Err(
                ConfigError::Read { path: at, source },
            ) && at.bytes@ == path::joined(root.bytes@, encode_utf8(".ziege"@)) && source@
                == reason@,
            FileOutcome::Malformed(reason) => read matches Err(
                ConfigError::Parse { path: at, message },
            ) && at.bytes@ == path::joined(root.bytes@, encode_utf8(".ziege"@)) && message@
                == reason@,
        },
{
}

/// A project is loaded from the directory that its local URL was resolved to.
pub proof fn lemma_loaded_project(
    uri: &str,
    url: FileUrl,
    resolved: Result<FilePath, String>,
    file: FileOutcome<ProjectConfig>,
    read: Result<ProjectConfig, ConfigError>,
    loaded: Result<(FilePath, ProjectConfig), ConfigError>,
)
    requires
        resolved matches Ok(root) ==> call_ensures(read_project, (&root, file), read),
        call_ensures(load_project_from, (uri, url, resolved, file), loaded),
    ensures
        match url {
            FileUrl::Invalid => loaded matches Err(ConfigError::InvalidProjectUri(named)) && named@
                == uri@,
            FileUrl::Remote => loaded matches Err(ConfigError::UnsupportedProjectUri(named))
                && named@ == uri@,
            FileUrl::Local(directory) => match resolved {
                Err(reason) => loaded matches Err(ConfigError::Read { path: at, source })
                    && at.bytes@ == directory.bytes@ && source@ == reason@,
                Ok(root) => match read {
                    Err(error) => loaded is Err && loaded->Err_0@ == error@,
                    Ok(project) => loaded matches Ok((at, config)) && at.bytes@ == root.bytes@
                        && config == project,
                },
            },
        },
{
}

/// The configuration of the user is found by its variable, and else in the home directory.
pub proof fn lemma_user_configuration_path(
    environment: Environment,
    found: Result<FilePath, ConfigError>,
)
    requires
        call_ensures(user_config_path, (&environment,), found),
    ensures
        ({
            let named = environment.value("ZIEGE_CONFIG"@);
            let home = environment.value("HOME"@);
            if named is Some {
                found is Ok && found->Ok_0.bytes@ == named->0
            } else if home is Some {
                found is Ok && found->Ok_0.bytes@ == path::joined(
                    home->0,
                    encode_utf8(".ziegerc"@),
                )
            } else {
                found matches Err(ConfigError::MissingEnvironment { destination, variable })
                    && destination@ == "global configuration"@ && variable@ == "HOME"@
            }
        }),
{
}

/// A system is selected by exactly its name.
pub proof fn lemma_selected_system(
    root: FilePath,
    project: ProjectConfig,
    id: &str,
    selected: Result<ProjectSystemConfig, ConfigError>,
)
    requires
        call_ensures(select_system, (&root, project, id), selected),
    ensures
        project.systems@.dom().contains(id@) ==> selected is Ok && selected->Ok_0
            == project.systems@[id@],
        !project.systems@.dom().contains(id@) ==> (selected matches Err(
            ConfigError::UnknownSystem { system, path: at },
        ) && system@ == id@ && at.bytes@ == path::joined(root.bytes@, encode_utf8(".ziege"@))),
{
}

/// A destination of the user is found by exactly its name and resolved.
pub proof fn lemma_loaded_destination(
    path: FilePath,
    user: FileOutcome<UserConfig>,
    destination: &str,
    environment: Environment,
    resolved: Result<ResolvedDestination, ConfigError>,
    loaded: Result<ResolvedDestination, ConfigError>,
)
    requires
        user matches FileOutcome::Parsed(read) ==> (read.destinations@.dom().contains(destination@)
            ==> call_ensures(
            DestinationConfig::resolve,
            (&read.destinations@[destination@], destination, &environment),
            resolved,
        )),
        call_ensures(load_destination, (path, user, destination, &environment), loaded),
    ensures
        match user {
            FileOutcome::Parsed(user) => if user.version != 1 {
                loaded matches Err(ConfigError::UnsupportedVersion { kind, version }) && kind@
                    == "user"@ && version == user.version
            } else if user.destinations@.dom().contains(destination@) {
                model::outcome(loaded) == model::outcome(resolved)
            } else {
                loaded matches Err(
                    ConfigError::UnknownDestination { destination: named, path: at },
                ) && named@ == destination@ && at.bytes@ == path.bytes@
            },
            FileOutcome::Unreadable(reason) => loaded matches Err(
                ConfigError::Read { path: at, source },
            ) && at.bytes@ == path.bytes@ && source@ == reason@,
            FileOutcome::Malformed(reason) => loaded matches Err(
                ConfigError::Parse { path: at, message },
            ) && at.bytes@ == path.bytes@ && message@ == reason@,
        },
{
}

/// A system is loaded with its own configuration and the settings of the destination that
/// it names, or else of the one with its own name.
pub proof fn lemma_loaded_system(
    root: FilePath,
    project: ProjectConfig,
    id: &str,
    environment: Environment,
    user: FileOutcome<UserConfig>,
    selected: Result<ProjectSystemConfig, ConfigError>,
    location: Result<FilePath, ConfigError>,
    name: &str,
    destination: Result<ResolvedDestination, ConfigError>,
    loaded: Result<LoadedSystem, ConfigError>,
)
    requires
        call_ensures(select_system, (&root, project, id), selected),
        call_ensures(user_config_path, (&environment,), location),
        selected matches Ok(config) ==> name@ == (match config.destination {
            Some(named) => named@,
            None => id@,
        }),
        location matches Ok(location) ==> call_ensures(
            load_destination,
            (location, user, name, &environment),
            destination,
        ),
        call_ensures(load_system_of, (root, project, id, &environment, user), loaded),
    ensures
        if selected is Err {
            loaded is Err && loaded->Err_0@ == selected->Err_0@
        } else if location is Err {
            loaded is Err && loaded->Err_0@ == location->Err_0@
        } else if destination is Err {
            loaded is Err && loaded->Err_0@ == destination->Err_0@
        } else {
            &&& loaded is Ok
            &&& loaded->Ok_0.project_root.bytes@ == root.bytes@
            &&& loaded->Ok_0.system_id@ == id@
            &&& loaded->Ok_0.config == selected->Ok_0
            &&& loaded->Ok_0.destination@ == destination->Ok_0@
        },
{
}

/// A loaded system builds the mounts that it configures, one by one, or the whole system.
pub proof fn lemma_mounts_of_a_system(
    system: LoadedSystem,
    built: Result<Vec<Mount>, ConfigError>,
)
    requires
        call_ensures(LoadedSystem::mounts, (&system,), built),
    ensures
        system.config.mounts@.len() == 0 ==> (built matches Ok(mounts) && mounts@.len() == 1
            && mounts@[0].label@ == "System Library"@ && mounts@[0].scope is SystemLibrary
            && mounts@[0].facets is None),
        system.config.mounts@.len() > 0 ==> (built matches Ok(mounts) ==> mounts@.len()
            == system.config.mounts@.len() && forall|i: int|
            0 <= i < mounts@.len() ==> mounts::mount_of(system.config.mounts@[i]@) == Ok::<
                MountView,
                ConfigFault,
            >((#[trigger] mounts@[i])@)),
{
    let configs = system.config.mounts@;
    let seen = model::views(configs);
    model::lemma_views(configs);
    lemma_each_mount_is_described::<MountConfig>(seen);
    if let Ok(mounts) = built {
        model::lemma_views(mounts@);
        if configs.len() == 0 {
            assert(model::views(mounts@)[0] == mounts@[0]@);
        } else {
            assert forall|i: int| 0 <= i < mounts@.len() implies mounts::mount_of(configs[i]@)
                == Ok::<MountView, ConfigFault>((#[trigger] mounts@[i])@) by {
                assert(model::views(mounts@)[i] == mounts@[i]@);
                assert(seen[i] == configs[i]@);
                assert(<MountConfig as MountSource>::described(seen[i]) is Ok);
            }
        }
    }
}

/// A project is read as its URI says, and its system is loaded from what was read.
pub proof fn lemma_system_of_a_uri(
    uri: &str,
    url: FileUrl,
    id: &str,
    resolved: Result<FilePath, String>,
    file: FileOutcome<ProjectConfig>,
    environment: Environment,
    user: FileOutcome<UserConfig>,
    directory: Result<FilePath, ConfigError>,
    named: Result<FilePath, ConfigError>,
    read: Result<(FilePath, ProjectConfig), ConfigError>,
    project: Result<(FilePath, ProjectConfig), ConfigError>,
    system: Result<LoadedSystem, ConfigError>,
    loaded: Result<LoadedSystem, ConfigError>,
)
    requires
        call_ensures(read_file_url, (uri,), url),
        call_ensures(directory_from, (uri, url), directory),
        call_ensures(project_directory, (uri,), named),
        call_ensures(load_project_from, (uri, url, resolved, file), read),
        call_ensures(load_project, (uri, resolved, file), project),
        read matches Ok((root, config)) ==> call_ensures(
            load_system_of,
            (root, config, id, &environment, user),
            system,
        ),
        call_ensures(load_system, (uri, id, resolved, file, &environment, user), loaded),
    ensures
        model::outcome(named) == model::outcome(directory),
        match read {
            Err(error) => {
                &&& project is Err && project->Err_0@ == error@
                &&& loaded is Err && loaded->Err_0@ == error@
            },
            Ok((root, config)) => {
                &&& project matches Ok((at, same)) && at.bytes@ == root.bytes@ && same == config
                &&& model::outcome(loaded) == model::outcome(system)
            },
        },
{
}

/// A local URL names the directory of a project, and nothing else does. The project is
/// rooted where that directory was resolved to.
pub proof fn lemma_resolved_project(
    uri: &str,
    url: FileUrl,
    resolved: Result<FilePath, String>,
    directory: Result<FilePath, ConfigError>,
    root: Result<FilePath, ConfigError>,
)
    requires
        call_ensures(directory_from, (uri, url), directory),
        call_ensures(project_root, (uri, url, resolved), root),
    ensures
        match url {
            FileUrl::Invalid => {
                &&& directory matches Err(ConfigError::InvalidProjectUri(named)) && named@ == uri@
                &&& root matches Err(ConfigError::InvalidProjectUri(named)) && named@ == uri@
            },
            FileUrl::Remote => {
                &&& directory matches Err(ConfigError::UnsupportedProjectUri(named)) && named@
                    == uri@
                &&& root matches Err(ConfigError::UnsupportedProjectUri(named)) && named@ == uri@
            },
            FileUrl::Local(path) => {
                &&& directory is Ok && directory->Ok_0.bytes@ == path.bytes@
                &&& match resolved {
                    Ok(found) => root is Ok && root->Ok_0.bytes@ == found.bytes@,
                    Err(reason) => root matches Err(ConfigError::Read { path: at, source })
                        && at.bytes@ == path.bytes@ && source@ == reason@,
                }
            },
        },
{
}

/// The fingerprint of a system is the hash of all that is configured for it and of all
/// settings of its destination, each told apart from the next.
pub proof fn lemma_fingerprint_of_a_system(system: LoadedSystem, hash: u64)
    requires
        call_ensures(LoadedSystem::fingerprint, (&system,), hash),
    ensures
        hash == fingerprint::hash_of(
            fingerprint::optional_text_code(model::optional(system.config.folder))
                + fingerprint::optional_text_code(model::optional(system.config.provider))
                + fingerprint::optional_text_code(model::optional(system.config.destination))
                + codes::mounts_code(model::views(system.config.mounts@)) + (
            fingerprint::text_code(system.destination.url@) + fingerprint::text_code(
                system.destination.client@,
            ) + fingerprint::text_code(system.destination.language@) + fingerprint::text_code(
                system.destination.username@,
            ) + fingerprint::text_code(system.destination.password@)),
        ),
{
}

/// The message of an error names what the error holds.
pub proof fn lemma_error_message(error: ConfigError, message: String)
    requires
        call_ensures(ConfigError::to_string, (&error,), message),
    ensures
        match error {
            ConfigError::InvalidProjectUri(uri) => message@ == "invalid project URI `"@ + uri@
                + "`"@,
            ConfigError::UnsupportedProjectUri(uri) => message@
                == "project URI must use the file scheme: `"@ + uri@ + "`"@,
            ConfigError::Read { path, source } => message@ == "cannot read `"@ + path::shown(
                path.bytes@,
            ) + "`: "@ + source@,
            ConfigError::Parse { path, message: reason } => message@ == "cannot parse `"@
                + path::shown(path.bytes@) + "`: "@ + reason@,
            ConfigError::UnsupportedVersion { kind, version } => message@ == "unsupported "@ + kind@
                + " configuration version "@ + text::decimal(version as nat),
            ConfigError::UnknownSystem { system, path } => message@ == "system `"@ + system@
                + "` is not configured in `"@ + path::shown(path.bytes@) + "`"@,
            ConfigError::UnknownDestination { destination, path } => message@ == "destination `"@
                + destination@ + "` is not configured in `"@ + path::shown(path.bytes@) + "`"@,
            ConfigError::InvalidDestinationField { destination, field } => message@
                == "destination `"@ + destination@ + "` must configure exactly one of `"@ + field@
                + "` or `"@ + field@ + "_env`"@,
            ConfigError::MissingEnvironment { destination, variable } => message@
                == "environment variable `"@ + variable@ + "` required by destination `"@
                + destination@ + "` is not set"@,
            ConfigError::EmptyDestinationField { destination, field } => message@
                == "destination `"@ + destination@ + "` has an empty `"@ + field@ + "` value"@,
            ConfigError::EmptyMountLabel => message@ == "mount labels must not be empty"@,
            ConfigError::EmptyPackage => message@ == "package mount names must not be empty"@,
            ConfigError::EmptyFilter { label } => message@ == "selection mount `"@ + label@
                + "` requires at least one filter value"@,
        },
{
}

} // verus!

//! Laws of configuration by dotfiles.

use crate::config::project;
use crate::config::FileOutcome;
use crate::dotfile;
use crate::dotfile::mounts;
use crate::dotfile::mounts::{FacetConfigView, MountConfigView};
use crate::dotfile::{
    ConfigFault, DestinationConfig, LoadedSystemView, ProjectConfig, ProjectSystemConfig,
    ResolvedDestinationView, UserConfig,
};
use crate::environment::Environment;
use crate::file_url::FileUrlView;
use crate::model;
use crate::path;
use crate::path::FilePath;
use crate::repository::{MountScopeView, MountView};
use crate::text;
use vstd::prelude::*;
use vstd::utf8::*;

verus! {

/// A literal setting is taken as it is, and one from the environment has the value of its
/// variable. Neither may be empty, and the variable must be set. Where both are configured
/// the setting is refused, and where none is, only a default helps.
pub proof fn lemma_where_a_setting_comes_from(
    destination: Seq<char>,
    field: Seq<char>,
    literal: Option<Seq<char>>,
    variable: Option<Seq<char>>,
    default: Option<Seq<char>>,
    environment: Environment,
)
    ensures
        ({
            let value = dotfile::setting_value(
                destination,
                field,
                literal,
                variable,
                default,
                environment,
            );
            let ambiguous = Err::<Seq<char>, ConfigFault>(
                ConfigFault::InvalidDestinationField { destination, field },
            );
            &&& literal is Some && variable is Some ==> value == ambiguous
            &&& literal is Some && variable is None ==> {
                &&& literal->0.len() > 0 ==> value == Ok::<Seq<char>, ConfigFault>(literal->0)
                &&& literal->0.len() == 0 ==> value == Err::<Seq<char>, ConfigFault>(
                    ConfigFault::EmptyDestinationField { destination, field },
                )
            }
            &&& literal is None && variable is Some ==> value == dotfile::variable_value(
                destination,
                variable->0,
                environment.text(variable->0),
            )
            &&& literal is None && variable is None && default is Some ==> value == Ok::<
                Seq<char>,
                ConfigFault,
            >(default->0)
            &&& literal is None && variable is None && default is None ==> value == ambiguous
        }),
{
}

/// A variable that a destination needs gives its value, unless it is not set or is empty.
pub proof fn lemma_needed_variables_are_set(
    destination: Seq<char>,
    variable: Seq<char>,
    set: Option<Seq<char>>,
)
    ensures
        ({
            let value = dotfile::variable_value(destination, variable, set);
            &&& set is None ==> value == Err::<Seq<char>, ConfigFault>(
                ConfigFault::MissingEnvironment { destination, variable },
            )
            &&& set is Some && set->0.len() == 0 ==> value == Err::<Seq<char>, ConfigFault>(
                ConfigFault::EmptyDestinationField { destination, field: "environment variable"@ },
            )
            &&& set is Some && set->0.len() > 0 ==> value == Ok::<Seq<char>, ConfigFault>(set->0)
        }),
{
}

/// A destination is resolved exactly where each of its settings is, from its own literal or
/// variable, the language with English as its default and the password from its variable
/// alone. The first setting that is not resolved gives the error.
pub proof fn lemma_destinations_are_resolved(
    config: DestinationConfig,
    destination: Seq<char>,
    environment: Environment,
)
    ensures
        ({
            let resolved = dotfile::resolved_settings(config, destination, environment);
            let url = dotfile::setting_value(
                destination,
                "url"@,
                model::optional(config.url),
                model::optional(config.url_env),
                None,
                environment,
            );
            let client = dotfile::setting_value(
                destination,
                "client"@,
                model::optional(config.client),
                model::optional(config.client_env),
                None,
                environment,
            );
            let language = dotfile::setting_value(
                destination,
                "language"@,
                model::optional(config.language),
                model::optional(config.language_env),
                Some("EN"@),
                environment,
            );
            let username = dotfile::setting_value(
                destination,
                "username"@,
                model::optional(config.username),
                model::optional(config.username_env),
                None,
                environment,
            );
            let password = dotfile::variable_value(
                destination,
                config.password_env@,
                environment.text(config.password_env@),
            );
            &&& resolved is Ok <==> url is Ok && client is Ok && language is Ok && username is Ok
                && password is Ok
            &&& resolved is Ok ==> {
                &&& resolved->Ok_0.url == url->Ok_0
                &&& resolved->Ok_0.client == client->Ok_0
                &&& resolved->Ok_0.language == language->Ok_0
                &&& resolved->Ok_0.username == username->Ok_0
                &&& resolved->Ok_0.password == password->Ok_0
            }
            &&& resolved matches Err(fault) ==> if url is Err {
                fault == url->Err_0
            } else if client is Err {
                fault == client->Err_0
            } else if language is Err {
                fault == language->Err_0
            } else if username is Err {
                fault == username->Err_0
            } else {
                fault == password->Err_0
            }
        }),
{
}

/// A system uses the destination that it names, and the one of its own name only where it
/// names none.
pub proof fn lemma_systems_name_their_destination(
    config: ProjectSystemConfig,
    system_id: Seq<char>,
)
    ensures
        config.destination matches Some(named) ==> dotfile::destination_of(config, system_id)
            == named@,
        config.destination is None ==> dotfile::destination_of(config, system_id) == system_id,
{
}

/// A project is what its `.ziege` file holds, taken over unchanged, where the file can be
/// read, can be parsed and has version 1.
pub proof fn lemma_project_file_decides(root: Seq<u8>, file: FileOutcome<ProjectConfig>)
    ensures
        ({
            let path = path::joined(root, encode_utf8(".ziege"@));
            let loaded = dotfile::project_contents(root, file);
            match file {
                FileOutcome::Unreadable(source) => loaded == Err::<ProjectConfig, ConfigFault>(
                    ConfigFault::Read { path, source: source@ },
                ),
                FileOutcome::Malformed(message) => loaded == Err::<ProjectConfig, ConfigFault>(
                    ConfigFault::Parse { path, message: message@ },
                ),
                FileOutcome::Parsed(config) => {
                    &&& config.version == 1 ==> loaded == Ok::<ProjectConfig, ConfigFault>(config)
                    &&& config.version != 1 ==> loaded == Err::<ProjectConfig, ConfigFault>(
                        ConfigFault::UnsupportedVersion {
                            kind: "project"@,
                            version: config.version,
                        },
                    )
                },
            }
        }),
{
}

/// A project has the root that resolving the path of its local URL led to, and the
/// configuration in that directory.
pub proof fn lemma_projects_are_loaded(
    uri: Seq<char>,
    url: FileUrlView,
    resolved: Result<FilePath, String>,
    file: FileOutcome<ProjectConfig>,
)
    ensures
        ({
            let root = dotfile::root_of(uri, url, resolved);
            let loaded = dotfile::loaded_project(root, file);
            &&& url is Invalid ==> root == Err::<Seq<u8>, ConfigFault>(
                ConfigFault::InvalidProjectUri(uri),
            )
            &&& url is Remote ==> root == Err::<Seq<u8>, ConfigFault>(
                ConfigFault::UnsupportedProjectUri(uri),
            )
            &&& url matches FileUrlView::Local(path) ==> match resolved {
                Ok(found) => root == Ok::<Seq<u8>, ConfigFault>(found@),
                Err(source) => root == Err::<Seq<u8>, ConfigFault>(
                    ConfigFault::Read { path, source: source@ },
                ),
            }
            &&& root is Err ==> loaded is Err && loaded->Err_0 == root->Err_0
            &&& root is Ok ==> match dotfile::project_contents(root->Ok_0, file) {
                Err(fault) => loaded is Err && loaded->Err_0 == fault,
                Ok(project) => loaded is Ok && loaded->Ok_0.0 == root->Ok_0 && loaded->Ok_0.1
                    == project,
            }
        }),
        ({
            let directory = dotfile::directory_of(uri, url);
            &&& url matches FileUrlView::Local(path) ==> directory == Ok::<Seq<u8>, ConfigFault>(
                path,
            )
            &&& url is Invalid ==> directory == Err::<Seq<u8>, ConfigFault>(
                ConfigFault::InvalidProjectUri(uri),
            )
            &&& url is Remote ==> directory == Err::<Seq<u8>, ConfigFault>(
                ConfigFault::UnsupportedProjectUri(uri),
            )
        }),
{
}

/// The configuration of the user lies at the overriding path, as it is, and otherwise in
/// the home directory. Without both the home directory is missed.
pub proof fn lemma_user_configuration_is_found(
    override_path: Option<Seq<u8>>,
    home: Option<Seq<u8>>,
)
    ensures
        ({
            let found = dotfile::user_config_location(override_path, home);
            &&& override_path matches Some(path) ==> found == Ok::<Seq<u8>, ConfigFault>(path)
            &&& override_path is None && home is Some ==> found == Ok::<Seq<u8>, ConfigFault>(
                path::joined(home->0, encode_utf8(".ziegerc"@)),
            )
            &&& override_path is None && home is None ==> found == Err::<Seq<u8>, ConfigFault>(
                ConfigFault::MissingEnvironment {
                    destination: "global configuration"@,
                    variable: "HOME"@,
                },
            )
        }),
{
}

/// A destination of the user is what the file holds under exactly its name, resolved with
/// the environment, where the file can be read, can be parsed, has version 1 and has the
/// name.
pub proof fn lemma_user_file_decides(
    path: Seq<u8>,
    user: FileOutcome<UserConfig>,
    destination: Seq<char>,
    environment: Environment,
)
    ensures
        ({
            let loaded = dotfile::user_destination(path, user, destination, environment);
            match user {
                FileOutcome::Unreadable(source) => loaded == Err::<
                    ResolvedDestinationView,
                    ConfigFault,
                >(ConfigFault::Read { path, source: source@ }),
                FileOutcome::Malformed(message) => loaded == Err::<
                    ResolvedDestinationView,
                    ConfigFault,
                >(ConfigFault::Parse { path, message: message@ }),
                FileOutcome::Parsed(user) => if user.version != 1 {
                    loaded == Err::<ResolvedDestinationView, ConfigFault>(
                        ConfigFault::UnsupportedVersion { kind: "user"@, version: user.version },
                    )
                } else if user.destinations@.dom().contains(destination) {
                    loaded == dotfile::resolved_settings(
                        user.destinations@[destination],
                        destination,
                        environment,
                    )
                } else {
                    loaded == Err::<ResolvedDestinationView, ConfigFault>(
                        ConfigFault::UnknownDestination { destination, path },
                    )
                },
            }
        }),
{
}

/// A system is loaded with what the project holds under exactly its name and with the
/// settings of its destination, from the file of the user. What is missing is reported in
/// the order project, system, place of the user configuration, destination.
pub proof fn lemma_systems_are_loaded(
    root: Seq<u8>,
    project: ProjectConfig,
    fault: ConfigFault,
    system_id: Seq<char>,
    environment: Environment,
    user: FileOutcome<UserConfig>,
)
    ensures
        dotfile::loaded_system(Err(fault), system_id, environment, user) == Err::<
            LoadedSystemView,
            ConfigFault,
        >(fault),
        ({
            let loaded = dotfile::loaded_system(Ok((root, project)), system_id, environment, user);
            let location = dotfile::user_config_location(
                environment.value("ZIEGE_CONFIG"@),
                environment.value("HOME"@),
            );
            if !project.systems@.dom().contains(system_id) {
                loaded == Err::<LoadedSystemView, ConfigFault>(
                    ConfigFault::UnknownSystem {
                        system: system_id,
                        path: path::joined(root, encode_utf8(".ziege"@)),
                    },
                )
            } else if location is Err {
                loaded is Err && loaded->Err_0 == location->Err_0
            } else {
                let config = project.systems@[system_id];
                let named = match config.destination {
                    Some(destination) => destination@,
                    None => system_id,
                };
                match dotfile::user_destination(location->Ok_0, user, named, environment) {
                    Err(missing) => loaded is Err && loaded->Err_0 == missing,
                    Ok(destination) => {
                        &&& loaded is Ok
                        &&& loaded->Ok_0.project_root == root
                        &&& loaded->Ok_0.system_id == system_id
                        &&& loaded->Ok_0.config == config
                        &&& loaded->Ok_0.destination == destination
                    },
                }
            }
        }),
{
}

/// A mount appears under its configured label, a package without one under its name, and
/// shows what is configured: the system, the package, or the objects that its filters
/// select.
pub proof fn lemma_mount_shows_what_is_configured(config: MountConfigView)
    ensures
        mounts::mount_of(config) matches Ok(mount) ==> match config {
            MountConfigView::SystemLibrary { label, .. } => {
                &&& mount.label == label
                &&& mount.scope is SystemLibrary
            },
            MountConfigView::Package { package, label, .. } => match label {
                None => {
                    &&& mount.label == package
                    &&& mount.scope == MountScopeView::Package(package)
                },
                Some(label) => {
                    &&& mount.label == label
                    &&& mount.scope == MountScopeView::NamedPackage(package)
                },
            },
            MountConfigView::Selection { label, filters, .. } => {
                &&& mount.label == label
                &&& mount.scope matches MountScopeView::Selection(selected) && {
                    &&& selected.len() == filters.len()
                    &&& forall|i: int|
                        0 <= i < filters.len() ==> {
                            &&& (#[trigger] selected[i]).facet == filters[i].facet
                            &&& selected[i].included == filters[i].values
                            &&& selected[i].excluded == filters[i].exclude
                        }
                }
            },
        },
{
}

/// A mount of every kind is grouped exactly where facets are configured for it, by as many
/// levels in the same order, each with the configured facet and its threshold, if any.
pub proof fn lemma_mount_keeps_its_facets(config: MountConfigView)
    ensures
        mounts::mount_of(config) matches Ok(mount) ==> {
            let configured = match config {
                MountConfigView::SystemLibrary { facets, .. } => facets,
                MountConfigView::Package { facets, .. } => facets,
                MountConfigView::Selection { facets, .. } => facets,
            };
            &&& mount.facets is Some <==> configured is Some
            &&& configured matches Some(facets) ==> {
                let levels = mount.facets->0;
                &&& levels.len() == facets.len()
                &&& forall|i: int|
                    0 <= i < facets.len() ==> match facets[i] {
                        FacetConfigView::Always(facet) => (#[trigger] levels[i]).facet == facet
                            && levels[i].minimum_objects is None,
                        FacetConfigView::Detailed { facet, minimum_objects } => levels[i].facet
                            == facet && levels[i].minimum_objects == minimum_objects,
                    }
            }
        },
{
}

/// A mount is refused exactly where a package has no name, there is no label to show or a
/// filter selects nothing, in this order, and is built otherwise.
pub proof fn lemma_which_mounts_are_refused(config: MountConfigView)
    ensures
        ({
            let built = mounts::mount_of(config);
            let no_label = Err::<MountView, ConfigFault>(ConfigFault::EmptyMountLabel);
            match config {
                MountConfigView::SystemLibrary { label, .. } => {
                    &&& label.len() > 0 ==> built is Ok
                    &&& label.len() == 0 ==> built == no_label
                },
                MountConfigView::Package { package, label, .. } => {
                    let unlabelled = label is Some && label->0.len() == 0;
                    &&& package.len() == 0 ==> built == Err::<MountView, ConfigFault>(
                        ConfigFault::EmptyPackage,
                    )
                    &&& package.len() > 0 && unlabelled ==> built == no_label
                    &&& package.len() > 0 && !unlabelled ==> built is Ok
                },
                MountConfigView::Selection { label, filters, .. } => {
                    let selects = forall|i: int|
                        0 <= i < filters.len() ==> (#[trigger] filters[i]).values.len() > 0;
                    &&& label.len() == 0 ==> built == no_label
                    &&& label.len() > 0 && !selects ==> built == Err::<MountView, ConfigFault>(
                        ConfigFault::EmptyFilter { label },
                    )
                    &&& label.len() > 0 && selects ==> built is Ok
                },
            }
        }),
{
    if let MountConfigView::Selection { filters, .. } = config {
        if project::has_empty_filter(filters) {
            let i = choose|i: int|
                0 <= i < filters.len() && (#[trigger] filters[i]).values.len() == 0;
            assert(filters[i].values.len() == 0);
        }
    }
}

/// A message names all that the error holds.
pub proof fn lemma_messages_name_what_failed(
    path: Seq<u8>,
    first: Seq<char>,
    second: Seq<char>,
    version: u32,
)
    ensures
        dotfile::fault_text(ConfigFault::InvalidProjectUri(first)) == "invalid project URI `"@
            + first + "`"@,
        dotfile::fault_text(ConfigFault::UnsupportedProjectUri(first))
            == "project URI must use the file scheme: `"@ + first + "`"@,
        dotfile::fault_text(ConfigFault::Read { path, source: first }) == "cannot read `"@
            + path::shown(path) + "`: "@ + first,
        dotfile::fault_text(ConfigFault::Parse { path, message: first }) == "cannot parse `"@
            + path::shown(path) + "`: "@ + first,
        dotfile::fault_text(ConfigFault::UnsupportedVersion { kind: first, version })
            == "unsupported "@ + first + " configuration version "@ + text::decimal(version as nat),
        dotfile::fault_text(ConfigFault::UnknownSystem { system: first, path }) == "system `"@
            + first + "` is not configured in `"@ + path::shown(path) + "`"@,
        dotfile::fault_text(ConfigFault::UnknownDestination { destination: first, path })
            == "destination `"@ + first + "` is not configured in `"@ + path::shown(path) + "`"@,
        dotfile::fault_text(
            ConfigFault::InvalidDestinationField { destination: first, field: second },
        ) == "destination `"@ + first + "` must configure exactly one of `"@ + second + "` or `"@
            + second + "_env`"@,
        dotfile::fault_text(
            ConfigFault::MissingEnvironment { destination: first, variable: second },
        ) == "environment variable `"@ + second + "` required by destination `"@ + first
            + "` is not set"@,
        dotfile::fault_text(
            ConfigFault::EmptyDestinationField { destination: first, field: second },
        ) == "destination `"@ + first + "` has an empty `"@ + second + "` value"@,
        dotfile::fault_text(ConfigFault::EmptyMountLabel) == "mount labels must not be empty"@,
        dotfile::fault_text(ConfigFault::EmptyPackage) == "package mount names must not be empty"@,
        dotfile::fault_text(ConfigFault::EmptyFilter { label: first }) == "selection mount `"@
            + first + "` requires at least one filter value"@,
{
}

} // verus!

//! Laws of configuration.

use crate::config;
use crate::config::destinations;
use crate::config::project;
use crate::config::user;
use crate::config::{
    ConfigFault, DestinationConfig, DestinationsConfig, FileOutcome, MountConfig, ProjectConfig,
    ProjectSystemConfig, UserConfig,
};
use crate::config::project::MountConfigView;
use crate::mounts;
use crate::mounts::MountSource;
use crate::path;
use crate::repository::MountView;
use crate::text;
use vstd::prelude::*;
use vstd::utf8::*;

verus! {

/// A destination must be configured in the project: an entry of the catalog alone does
/// not make it available there.
pub proof fn lemma_catalog_entry_alone_is_not_enough(
    root: Seq<u8>,
    id: Seq<char>,
    user_config_path: Seq<u8>,
    project: ProjectConfig,
    user: FileOutcome<UserConfig>,
    destinations: FileOutcome<DestinationsConfig>,
)
    requires
        project.version == config::CONFIG_VERSION,
        !project.systems@.dom().contains(id),
    ensures
        config::system_configuration(
            root,
            id,
            user_config_path,
            FileOutcome::Parsed(project),
            user,
            destinations,
        ) == Err::<config::ResolvedSystemConfig, ConfigFault>(
            ConfigFault::UnknownDestination {
                destination: id,
                path: project::project_file_location(root),
            },
        ),
{
}

/// Files are looked at in order: where the project gives nothing for a destination, the
/// other files do not matter, and where the user configuration gives nothing, the
/// catalog does not matter.
pub proof fn lemma_earlier_files_decide(
    root: Seq<u8>,
    id: Seq<char>,
    user_config_path: Seq<u8>,
    project: FileOutcome<ProjectConfig>,
    user: FileOutcome<UserConfig>,
    destinations: FileOutcome<DestinationsConfig>,
    other_user: FileOutcome<UserConfig>,
    other_destinations: FileOutcome<DestinationsConfig>,
)
    ensures
        config::project_system_settings(root, id, project) is Err ==> config::system_configuration(
            root,
            id,
            user_config_path,
            project,
            user,
            destinations,
        ) == config::system_configuration(
            root,
            id,
            user_config_path,
            project,
            other_user,
            other_destinations,
        ),
        user::user_configuration(user_config_path, user) is Err ==> config::system_configuration(
            root,
            id,
            user_config_path,
            project,
            user,
            destinations,
        ) == config::system_configuration(
            root,
            id,
            user_config_path,
            project,
            user,
            other_destinations,
        ),
{
}

/// Whether files can be edited is decided by the project alone, how they are locked by
/// the user alone.
pub proof fn lemma_editing_policy_has_two_sources(
    root: Seq<u8>,
    id: Seq<char>,
    user_config_path: Seq<u8>,
    project: ProjectConfig,
    user: UserConfig,
    destinations: FileOutcome<DestinationsConfig>,
)
    ensures
        config::system_configuration(
            root,
            id,
            user_config_path,
            FileOutcome::Parsed(project),
            FileOutcome::Parsed(user),
            destinations,
        ) matches Ok(resolved) ==> {
            &&& resolved.config == project.systems@[id]
            &&& resolved.editing.readonly == project.systems@[id].readonly
            &&& resolved.editing.locking == user.editing.locking
        },
{
}

/// Connection settings that were loaded are those of the catalog, and none is empty.
pub proof fn lemma_loaded_settings_are_complete(
    path: Seq<u8>,
    id: Seq<char>,
    catalog: DestinationsConfig,
)
    ensures
        destinations::destination_settings(path, id, FileOutcome::Parsed(catalog)) matches Ok(
            settings,
        ) ==> {
            &&& catalog.destinations@.dom().contains(id)
            &&& settings == catalog.destinations@[id]
            &&& settings.url@.len() > 0
            &&& settings.client@.len() > 0
            &&& settings.language@.len() > 0
            &&& settings.username@.len() > 0
            &&& settings.password@.len() > 0
        },
{
}

/// Every mount of a view can be shown: it has a label, a package mount has a package, and
/// a selection mount values to select.
pub proof fn lemma_view_mounts_can_be_shown(configs: Seq<MountConfigView>)
    ensures
        project::view_mounts(configs) matches Ok(built) ==> {
            &&& built.len() > 0
            &&& forall|i: int| 0 <= i < built.len() ==> mounts::can_be_shown(#[trigger] built[i])
        },
{
    reveal_strlit("System Library");
    mounts::lemma_each_mount_is_described::<MountConfig>(configs);
    if configs.len() > 0 && project::view_mounts(configs) is Ok {
        let built = project::view_mounts(configs)->Ok_0;
        assert forall|i: int| 0 <= i < built.len() implies mounts::can_be_shown(
            #[trigger] built[i],
        ) by {
            assert(MountConfig::described(configs[i]) == Ok::<MountView, ConfigFault>(built[i]));
        }
    }
}

/// The configuration of a project is what its `ziege.toml` holds, taken over unchanged,
/// where it can be read, can be parsed and has version 1. Otherwise the error says which of
/// these failed, with the path of the file and the reason given for it.
pub proof fn lemma_project_file_decides(root: Seq<u8>, file: FileOutcome<ProjectConfig>)
    ensures
        ({
            let path = path::joined(root, encode_utf8("ziege.toml"@));
            let loaded = project::local_project(root, file);
            match file {
                FileOutcome::Unreadable(source) => loaded == Err::<ProjectConfig, ConfigFault>(
                    ConfigFault::Read { path, source: source@ },
                ),
                FileOutcome::Malformed(message) => loaded == Err::<ProjectConfig, ConfigFault>(
                    ConfigFault::Parse { path, message: message@ },
                ),
                FileOutcome::Parsed(config) => {
                    &&& config.version == 1 ==> loaded == Ok::<ProjectConfig, ConfigFault>(config)
                    &&& config.version != 1 ==> loaded == Err::<ProjectConfig, ConfigFault>(
                        ConfigFault::UnsupportedVersion {
                            kind: "project"@,
                            version: config.version,
                        },
                    )
                },
            }
        }),
{
}

/// The preferences of a user are what the file holds, taken over unchanged, where it can be
/// read, can be parsed and has version 1.
pub proof fn lemma_user_file_decides(path: Seq<u8>, file: FileOutcome<UserConfig>)
    ensures
        ({
            let loaded = user::user_configuration(path, file);
            match file {
                FileOutcome::Unreadable(source) => loaded == Err::<UserConfig, ConfigFault>(
                    ConfigFault::Read { path, source: source@ },
                ),
                FileOutcome::Malformed(message) => loaded == Err::<UserConfig, ConfigFault>(
                    ConfigFault::Parse { path, message: message@ },
                ),
                FileOutcome::Parsed(config) => {
                    &&& config.version == 1 ==> loaded == Ok::<UserConfig, ConfigFault>(config)
                    &&& config.version != 1 ==> loaded == Err::<UserConfig, ConfigFault>(
                        ConfigFault::UnsupportedVersion { kind: "user"@, version: config.version },
                    )
                },
            }
        }),
{
}

/// The name of a setting within the catalog.
pub open spec fn setting_name(id: Seq<char>, field: Seq<char>) -> Seq<char> {
    "destinations."@ + id + "."@ + field
}

/// A destination has the settings that the catalog holds under exactly its name, where the
/// catalog can be read, can be parsed, has version 1, has the name and none of the settings
/// is empty. Otherwise the error says which of these failed, and of several empty settings
/// the first.
pub proof fn lemma_catalog_decides(
    path: Seq<u8>,
    id: Seq<char>,
    file: FileOutcome<DestinationsConfig>,
)
    ensures
        ({
            let loaded = destinations::destination_settings(path, id, file);
            match file {
                FileOutcome::Unreadable(source) => loaded == Err::<DestinationConfig, ConfigFault>(
                    ConfigFault::Read { path, source: source@ },
                ),
                FileOutcome::Malformed(message) => loaded == Err::<DestinationConfig, ConfigFault>(
                    ConfigFault::Parse { path, message: message@ },
                ),
                FileOutcome::Parsed(catalog) => if catalog.version != 1 {
                    loaded == Err::<DestinationConfig, ConfigFault>(
                        ConfigFault::UnsupportedVersion {
                            kind: "destinations"@,
                            version: catalog.version,
                        },
                    )
                } else if !catalog.destinations@.dom().contains(id) {
                    loaded == Err::<DestinationConfig, ConfigFault>(
                        ConfigFault::UnknownDestination { destination: id, path },
                    )
                } else {
                    let found = catalog.destinations@[id];
                    let values = seq![
                        found.url@,
                        found.client@,
                        found.language@,
                        found.username@,
                        found.password@,
                    ];
                    let names = seq!["url"@, "client"@, "language"@, "username"@, "password"@];
                    &&& (forall|i: int| 0 <= i < 5 ==> (#[trigger] values[i]).len() > 0)
                        ==> loaded == Ok::<DestinationConfig, ConfigFault>(found)
                    &&& forall|i: int|
                        0 <= i < 5 && (#[trigger] values[i]).len() == 0 && (forall|j: int|
                            0 <= j < i ==> (#[trigger] values[j]).len() > 0) ==> loaded == Err::<
                            DestinationConfig,
                            ConfigFault,
                        >(ConfigFault::EmptyField { field: setting_name(id, names[i]) })
                },
            }
        }),
{
    if let FileOutcome::Parsed(catalog) = file {
        let found = catalog.destinations@[id];
        let values = seq![
            found.url@,
            found.client@,
            found.language@,
            found.username@,
            found.password@,
        ];
        assert(values[0] == found.url@);
        assert(values[1] == found.client@);
        assert(values[2] == found.language@);
        assert(values[3] == found.username@);
        assert(values[4] == found.password@);
    }
}

/// A system is configured with what the project holds under exactly the name of the
/// destination.
pub proof fn lemma_project_selects_the_system(
    root: Seq<u8>,
    id: Seq<char>,
    file: FileOutcome<ProjectConfig>,
)
    ensures
        match project::local_project(root, file) {
            Err(fault) => config::project_system_settings(root, id, file) == Err::<
                ProjectSystemConfig,
                ConfigFault,
            >(fault),
            Ok(project) => {
                &&& project.systems@.dom().contains(id) ==> config::project_system_settings(
                    root,
                    id,
                    file,
                ) == Ok::<ProjectSystemConfig, ConfigFault>(project.systems@[id])
                &&& !project.systems@.dom().contains(id) ==> config::project_system_settings(
                    root,
                    id,
                    file,
                ) == Err::<ProjectSystemConfig, ConfigFault>(
                    ConfigFault::UnknownDestination {
                        destination: id,
                        path: path::joined(root, encode_utf8("ziege.toml"@)),
                    },
                )
            },
        },
{
}

/// A system is configured exactly where all three files give something for it, with the
/// catalog beside the configuration of the user. What they give is taken over unchanged.
/// Otherwise the error is that of the first file that gives nothing, in the order project,
/// user, catalog.
pub proof fn lemma_three_files_configure_a_system(
    root: Seq<u8>,
    id: Seq<char>,
    user_config_path: Seq<u8>,
    project: FileOutcome<ProjectConfig>,
    user: FileOutcome<UserConfig>,
    destinations: FileOutcome<DestinationsConfig>,
)
    ensures
        ({
            let system = config::project_system_settings(root, id, project);
            let preferences = user::user_configuration(user_config_path, user);
            let catalog = path::with_name(user_config_path, encode_utf8("destinations.toml"@));
            let settings = destinations::destination_settings(catalog, id, destinations);
            let resolved = config::system_configuration(
                root,
                id,
                user_config_path,
                project,
                user,
                destinations,
            );
            &&& resolved is Ok <==> system is Ok && preferences is Ok && settings is Ok
            &&& resolved is Ok ==> {
                &&& resolved->Ok_0.config == system->Ok_0
                &&& resolved->Ok_0.destination == settings->Ok_0
                &&& resolved->Ok_0.editing.readonly == system->Ok_0.readonly
                &&& resolved->Ok_0.editing.locking == preferences->Ok_0.editing.locking
            }
            &&& system is Err ==> resolved is Err && resolved->Err_0 == system->Err_0
            &&& system is Ok && preferences is Err ==> resolved is Err && resolved->Err_0
                == preferences->Err_0
            &&& system is Ok && preferences is Ok && settings is Err ==> resolved is Err
                && resolved->Err_0 == settings->Err_0
        }),
{
}

/// An overriding path is taken as it is, whatever else is set. Without one an absolute XDG
/// directory is used, and otherwise the home directory, with the file at its usual place
/// below. A relative XDG directory counts as none. Without any of these the home directory
/// is missed.
pub proof fn lemma_user_configuration_is_found(
    override_path: Option<Seq<u8>>,
    xdg_config_home: Option<Seq<u8>>,
    home: Option<Seq<u8>>,
)
    ensures
        ({
            let found = user::user_config_location(override_path, xdg_config_home, home);
            let xdg = xdg_config_home is Some && xdg_config_home->0.len() > 0
                && xdg_config_home->0[0] == 0x2f;
            &&& override_path matches Some(path) ==> found == Ok::<Seq<u8>, ConfigFault>(path)
            &&& override_path is None && xdg ==> found == Ok::<Seq<u8>, ConfigFault>(
                path::joined(xdg_config_home->0, encode_utf8("ziege/config.toml"@)),
            )
            &&& override_path is None && !xdg && home is Some ==> found == Ok::<
                Seq<u8>,
                ConfigFault,
            >(path::joined(home->0, encode_utf8(".config/ziege/config.toml"@)))
            &&& override_path is None && !xdg && home is None ==> found == Err::<
                Seq<u8>,
                ConfigFault,
            >(
                ConfigFault::MissingEnvironment {
                    destination: "global configuration"@,
                    variable: "HOME"@,
                },
            )
        }),
{
}

/// A message names all that the error holds: the file and the reason, the version and what
/// has it, the destination and where it was looked for, the field or the mount.
pub proof fn lemma_messages_name_what_failed(
    path: Seq<u8>,
    first: Seq<char>,
    second: Seq<char>,
    version: u32,
)
    ensures
        config::fault_text(ConfigFault::Read { path, source: first }) == "cannot read `"@
            + path::shown(path) + "`: "@ + first,
        config::fault_text(ConfigFault::Parse { path, message: first }) == "cannot parse `"@
            + path::shown(path) + "`: "@ + first,
        config::fault_text(ConfigFault::UnsupportedVersion { kind: first, version })
            == "unsupported "@ + first + " configuration version "@ + text::decimal(version as nat),
        config::fault_text(ConfigFault::UnknownDestination { destination: first, path })
            == "destination `"@ + first + "` is not configured in `"@ + path::shown(path) + "`"@,
        config::fault_text(
            ConfigFault::MissingEnvironment { destination: first, variable: second },
        ) == "environment variable `"@ + second + "` required by destination `"@ + first
            + "` is not set"@,
        config::fault_text(ConfigFault::EmptyField { field: first }) == "configuration field `"@
            + first + "` must not be empty"@,
        config::fault_text(ConfigFault::EmptyMountLabel) == "mount labels must not be empty"@,
        config::fault_text(ConfigFault::EmptyPackage) == "package mount names must not be empty"@,
        config::fault_text(ConfigFault::EmptyFilter { label: first }) == "selection mount `"@
            + first + "` requires at least one filter value"@,
{
}

} // verus!

//! Project, user and connection configuration.
//!
//! Three files take part, all of them TOML:
//! - `ziege.toml` in a project selects the systems of the project and their mounts.
//! - `$XDG_CONFIG_HOME/ziege/config.toml` of a user, by default
//!   `~/.config/ziege/config.toml`, holds editor preferences. `ZIEGE_CONFIG`
//!   overrides this path.
//! - `destinations.toml`, beside the user configuration, holds named connections.
//!
//! Reading and parsing a file is left to the caller, which hands over what became of
//! it as a [`FileOutcome`]. What follows from it is decided here.

pub mod destinations;
pub mod file;
pub mod laws;
pub mod mount_laws;
pub mod project;
pub mod user;

pub use destinations::{load_destination, DestinationConfig, DestinationId, DestinationsConfig};
pub use file::{read_config, FileError, FileOutcome};
pub use project::{
    load_local_project, FacetConfig, FilterConfig, MountConfig, ProjectConfig, ProjectRoot,
    ProjectSystemConfig,
};
pub use user::{
    load_user_configuration, resolve_user_config_path, user_config_path, EditingConfig,
    EditingPolicy, LockingMode, UserConfig,
};

use crate::model;
use crate::path;
use crate::path::FilePath;
use crate::repository::Mount;
use crate::text;
use crate::text::decimal_text;
use vstd::prelude::*;
use vstd::utf8::*;

verus! {

/// The schema version that all configuration files must have.
pub const CONFIG_VERSION: u32 = 1;

/// Configuration discovery, parsing, and validation failures.
#[derive(Debug, Eq, PartialEq)]
pub enum ConfigError {
    Read { path: FilePath, source: String },
    Parse { path: FilePath, message: String },
    UnsupportedVersion { kind: &'static str, version: u32 },
    UnknownDestination { destination: String, path: FilePath },
    MissingEnvironment { destination: String, variable: String },
    EmptyField { field: String },
    EmptyMountLabel,
    EmptyPackage,
    EmptyFilter { label: String },
}

/// What a configuration error says.
pub enum ConfigFault {
    Read { path: Seq<u8>, source: Seq<char> },
    Parse { path: Seq<u8>, message: Seq<char> },
    UnsupportedVersion { kind: Seq<char>, version: u32 },
    UnknownDestination { destination: Seq<char>, path: Seq<u8> },
    MissingEnvironment { destination: Seq<char>, variable: Seq<char> },
    EmptyField { field: Seq<char> },
    EmptyMountLabel,
    EmptyPackage,
    EmptyFilter { label: Seq<char> },
}

impl View for ConfigError {
    type V = ConfigFault;

    open spec fn view(&self) -> ConfigFault {
        match self {
            ConfigError::Read { path, source } => ConfigFault::Read {
                path: path@,
                source: source@,
            },
            ConfigError::Parse { path, message } => ConfigFault::Parse {
                path: path@,
                message: message@,
            },
            ConfigError::UnsupportedVersion { kind, version } => ConfigFault::UnsupportedVersion {
                kind: kind@,
                version: *version,
            },
            ConfigError::UnknownDestination {
                destination,
                path,
            } => ConfigFault::UnknownDestination { destination: destination@, path: path@ },
            ConfigError::MissingEnvironment {
                destination,
                variable,
            } => ConfigFault::MissingEnvironment {
                destination: destination@,
                variable: variable@,
            },
            ConfigError::EmptyField { field } => ConfigFault::EmptyField { field: field@ },
            ConfigError::EmptyMountLabel => ConfigFault::EmptyMountLabel,
            ConfigError::EmptyPackage => ConfigFault::EmptyPackage,
            ConfigError::EmptyFilter { label } => ConfigFault::EmptyFilter { label: label@ },
        }
    }
}

/// The message of a configuration error.
pub open spec fn fault_text(fault: ConfigFault) -> Seq<char> {
    match fault {
        ConfigFault::Read { path, source } => "cannot read `"@ + path::shown(path) + "`: "@
            + source,
        ConfigFault::Parse { path, message } => "cannot parse `"@ + path::shown(path) + "`: "@
            + message,
        ConfigFault::UnsupportedVersion { kind, version } => "unsupported "@ + kind
            + " configuration version "@ + text::decimal(version as nat),
        ConfigFault::UnknownDestination { destination, path } => "destination `"@ + destination
            + "` is not configured in `"@ + path::shown(path) + "`"@,
        ConfigFault::MissingEnvironment { destination, variable } => "environment variable `"@
            + variable + "` required by destination `"@ + destination + "` is not set"@,
        ConfigFault::EmptyField { field } => "configuration field `"@ + field
            + "` must not be empty"@,
        ConfigFault::EmptyMountLabel => "mount labels must not be empty"@,
        ConfigFault::EmptyPackage => "package mount names must not be empty"@,
        ConfigFault::EmptyFilter { label } => "selection mount `"@ + label
            + "` requires at least one filter value"@,
    }
}

impl ConfigError {
    /// The message of the error.
    pub fn to_string(&self) -> (message: String)
        ensures
            message@ == fault_text(self@),
    {
        match self {
            ConfigError::Read { path, source } => {
                let mut message = "cannot read `".to_owned();
                message.append(path.display().as_str());
                message.append("`: ");
                message.append(source.as_str());
                message
            },
            ConfigError::Parse { path, message: reason } => {
                let mut message = "cannot parse `".to_owned();
                message.append(path.display().as_str());
                message.append("`: ");
                message.append(reason.as_str());
                message
            },
            ConfigError::UnsupportedVersion { kind, version } => {
                let mut message = "unsupported ".to_owned();
                message.append(kind);
                message.append(" configuration version ");
                message.append(decimal_text(*version).as_str());
                message
            },
            ConfigError::UnknownDestination { destination, path } => {
                let mut message = "destination `".to_owned();
                message.append(destination.as_str());
                message.append("` is not configured in `");
                message.append(path.display().as_str());
                message.append("`");
                message
            },
            ConfigError::MissingEnvironment { destination, variable } => {
                let mut message = "environment variable `".to_owned();
                message.append(variable.as_str());
                message.append("` required by destination `");
                message.append(destination.as_str());
                message.append("` is not set");
                message
            },
            ConfigError::EmptyField { field } => {
                let mut message = "configuration field `".to_owned();
                message.append(field.as_str());
                message.append("` must not be empty");
                message
            },
            ConfigError::EmptyMountLabel => "mount labels must not be empty".to_owned(),
            ConfigError::EmptyPackage => "package mount names must not be empty".to_owned(),
            ConfigError::EmptyFilter { label } => {
                let mut message = "selection mount `".to_owned();
                message.append(label.as_str());
                message.append("` requires at least one filter value");
                message
            },
        }
    }
}

impl FileError for ConfigError {
    open spec fn read_fault(path: Seq<u8>, source: Seq<char>) -> ConfigFault {
        ConfigFault::Read { path, source }
    }

    open spec fn parse_fault(path: Seq<u8>, message: Seq<char>) -> ConfigFault {
        ConfigFault::Parse { path, message }
    }

    fn unreadable(path: FilePath, source: String) -> (error: Self) {
        ConfigError::Read { path, source }
    }

    fn malformed(path: FilePath, message: String) -> (error: Self) {
        ConfigError::Parse { path, message }
    }
}

/// The full configuration for a system to connect to.
///
/// It combines what the project says of the system, the editing preferences of the
/// user and the connection settings of the destination.
pub struct ResolvedSystemConfig {
    /// The configuration of the system in the project.
    pub config: ProjectSystemConfig,
    /// Connection settings of `destinations.toml`.
    pub destination: DestinationConfig,
    /// The editing policy for the objects of the system.
    pub editing: EditingPolicy,
}

impl ResolvedSystemConfig {
    /// Builds the root mounts of the system.
    pub fn mounts(&self) -> (mounts: Result<Vec<Mount>, ConfigError>)
        ensures
            model::list_outcome(mounts) == project::view_mounts(
                model::views(self.config.mounts@),
            ),
    {
        self.config.build_mounts()
    }
}

/// Where the catalog of destinations lies: beside the user configuration.
pub open spec fn destinations_location(user_config_path: Seq<u8>) -> Seq<u8> {
    path::with_name(user_config_path, encode_utf8("destinations.toml"@))
}

/// The path of the catalog of destinations.
pub fn destinations_file(user_config_path: &FilePath) -> (file: FilePath)
    ensures
        file@ == destinations_location(user_config_path@),
{
    user_config_path.with_file_name("destinations.toml")
}

/// The configuration that a project gives for a destination, or why it gives none.
pub open spec fn project_system_settings(
    root: Seq<u8>,
    id: Seq<char>,
    file: FileOutcome<ProjectConfig>,
) -> Result<ProjectSystemConfig, ConfigFault> {
    match project::local_project(root, file) {
        Err(fault) => Err(fault),
        Ok(project) => if project.systems@.dom().contains(id) {
            Ok(project.systems@[id])
        } else {
            Err(
                ConfigFault::UnknownDestination {
                    destination: id,
                    path: project::project_file_location(root),
                },
            )
        },
    }
}

/// Takes over what a project configures for a destination.
pub fn project_system(
    project_root: &ProjectRoot,
    id: &DestinationId,
    file: FileOutcome<ProjectConfig>,
) -> (found: Result<ProjectSystemConfig, ConfigError>)
    ensures
        model::failure(found) == project_system_settings(project_root@, id@, file),
{
    let mut project = match load_local_project(project_root.as_path(), file) {
        Err(error) => {
            return Err(error);
        },
        Ok(project) => project,
    };
    match project.systems.remove(id.as_str()) {
        Some(config) => Ok(config),
        None => Err(
            ConfigError::UnknownDestination {
                destination: id.as_str().to_owned(),
                path: project::project_file(project_root.as_path()),
            },
        ),
    }
}

/// What three configuration files give for a destination, or the first reason why
/// they give nothing. The project comes first, then the user, then the catalog.
pub open spec fn system_configuration(
    root: Seq<u8>,
    id: Seq<char>,
    user_config_path: Seq<u8>,
    project: FileOutcome<ProjectConfig>,
    user: FileOutcome<UserConfig>,
    destinations: FileOutcome<DestinationsConfig>,
) -> Result<ResolvedSystemConfig, ConfigFault> {
    match project_system_settings(root, id, project) {
        Err(fault) => Err(fault),
        Ok(config) => match user::user_configuration(user_config_path, user) {
            Err(fault) => Err(fault),
            Ok(preferences) => match destinations::destination_settings(
                destinations_location(user_config_path),
                id,
                destinations,
            ) {
                Err(fault) => Err(fault),
                Ok(destination) => Ok(
                    ResolvedSystemConfig {
                        config,
                        destination,
                        editing: EditingPolicy {
                            readonly: config.readonly,
                            locking: preferences.editing.locking,
                        },
                    },
                ),
            },
        },
    }
}

/// Combines the project settings of a destination, the preferences of the user and
/// the connection settings. The destination must be configured in the project and in
/// the catalog.
pub fn load_system_configuration(
    project_root: &ProjectRoot,
    id: &DestinationId,
    user_config_path: &FilePath,
    project: FileOutcome<ProjectConfig>,
    user: FileOutcome<UserConfig>,
    destinations: FileOutcome<DestinationsConfig>,
) -> (loaded: Result<ResolvedSystemConfig, ConfigError>)
    ensures
        model::failure(loaded) == system_configuration(
            project_root@,
            id@,
            user_config_path@,
            project,
            user,
            destinations,
        ),
{
    let config = match project_system(project_root, id, project) {
        Err(error) => {
            return Err(error);
        },
        Ok(config) => config,
    };
    let preferences = match load_user_configuration(user_config_path, user) {
        Err(error) => {
            return Err(error);
        },
        Ok(preferences) => preferences,
    };
    let editing = preferences.editing_policy(config.readonly);
    match load_destination(destinations_file(user_config_path), id, destinations) {
        Err(error) => Err(error),
        Ok(destination) => Ok(ResolvedSystemConfig { config, destination, editing }),
    }
}

} // verus!

//! Configuration by dotfiles: `.ziege` in a project and `.ziegerc` of a user.
//!
//! Systems have names of their own here, and name a destination of the user. Settings
//! of a destination are literal or come from the environment. Reading, parsing and
//! resolving paths is left to the caller, which hands over what became of it.

pub mod codes;
pub mod laws;
pub mod mounts;

pub use crate::config::FilterConfig;
pub use mounts::{
    default_system_library_label, facet_policy, validate_label, FacetConfig, MountConfig,
};

use crate::config::file;
use crate::config::{read_config, FileError, FileOutcome};
use crate::environment::Environment;
use crate::file_url;
use crate::file_url::{read_file_url, FileUrl, FileUrlView};
use crate::model;
use crate::mounts::build_mounts;
use crate::path;
use crate::path::FilePath;
use crate::repository::Mount;
use crate::text;
use crate::text::decimal_text;
use crate::text_map::TextMap;
use vstd::prelude::*;
use vstd::utf8::*;

verus! {

/// The systems of a project.
pub struct ProjectConfig {
    pub version: u32,
    pub systems: TextMap<ProjectSystemConfig>,
}

/// One system of a project.
#[derive(Debug, Hash)]
pub struct ProjectSystemConfig {
    pub folder: Option<String>,
    pub provider: Option<String>,
    pub destination: Option<String>,
    pub mounts: Vec<MountConfig>,
}

/// The destinations of a user.
pub struct UserConfig {
    pub version: u32,
    pub destinations: TextMap<DestinationConfig>,
}

/// One destination of a user. Each setting is literal or names an environment
/// variable, the password always the latter.
pub struct DestinationConfig {
    pub url: Option<String>,
    pub url_env: Option<String>,
    pub client: Option<String>,
    pub client_env: Option<String>,
    pub language: Option<String>,
    pub language_env: Option<String>,
    pub username: Option<String>,
    pub username_env: Option<String>,
    pub password_env: String,
}

/// The settings of a destination.
#[derive(Eq, Hash, PartialEq)]
pub struct ResolvedDestination {
    pub url: String,
    pub client: String,
    pub language: String,
    pub username: String,
    pub password: String,
}

/// A system with all that is configured for it.
pub struct LoadedSystem {
    pub project_root: FilePath,
    pub system_id: String,
    pub config: ProjectSystemConfig,
    pub destination: ResolvedDestination,
}

/// Configuration discovery, parsing, and validation failures.
#[derive(Debug, Eq, PartialEq)]
#[allow(inconsistent_fields)]
pub enum ConfigError {
    InvalidProjectUri(String),
    UnsupportedProjectUri(String),
    Read { path: FilePath, source: String },
    Parse { path: FilePath, message: String },
    UnsupportedVersion { kind: &'static str, version: u32 },
    UnknownSystem { system: String, path: FilePath },
    UnknownDestination { destination: String, path: FilePath },
    InvalidDestinationField { destination: String, field: &'static str },
    MissingEnvironment { destination: String, variable: String },
    EmptyDestinationField { destination: String, field: &'static str },
    EmptyMountLabel,
    EmptyPackage,
    EmptyFilter { label: String },
}

/// What a configuration error says.
pub enum ConfigFault {
    InvalidProjectUri(Seq<char>),
    UnsupportedProjectUri(Seq<char>),
    Read { path: Seq<u8>, source: Seq<char> },
    Parse { path: Seq<u8>, message: Seq<char> },
    UnsupportedVersion { kind: Seq<char>, version: u32 },
    UnknownSystem { system: Seq<char>, path: Seq<u8> },
    UnknownDestination { destination: Seq<char>, path: Seq<u8> },
    InvalidDestinationField { destination: Seq<char>, field: Seq<char> },
    MissingEnvironment { destination: Seq<char>, variable: Seq<char> },
    EmptyDestinationField { destination: Seq<char>, field: Seq<char> },
    EmptyMountLabel,
    EmptyPackage,
    EmptyFilter { label: Seq<char> },
}

/// The settings of a destination.
pub struct ResolvedDestinationView {
    pub url: Seq<char>,
    pub client: Seq<char>,
    pub language: Seq<char>,
    pub username: Seq<char>,
    pub password: Seq<char>,
}

impl View for ResolvedDestination {
    type V = ResolvedDestinationView;

    open spec fn view(&self) -> ResolvedDestinationView {
        ResolvedDestinationView {
            url: self.url@,
            client: self.client@,
            language: self.language@,
            username: self.username@,
            password: self.password@,
        }
    }
}

impl View for ConfigError {
    type V = ConfigFault;

    open spec fn view(&self) -> ConfigFault {
        match self {
            ConfigError::InvalidProjectUri(uri) => ConfigFault::InvalidProjectUri(uri@),
            ConfigError::UnsupportedProjectUri(uri) => ConfigFault::UnsupportedProjectUri(uri@),
            ConfigError::Read { path, source } => ConfigFault::Read {
                path: path@,
                source: source@,
            },
            ConfigError::Parse { path, message } => ConfigFault::Parse {
                path: path@,
                message: message@,
            },
            ConfigError::UnsupportedVersion { kind, version } => ConfigFault::UnsupportedVersion {
                kind: kind@,
                version: *version,
            },
            ConfigError::UnknownSystem { system, path } => ConfigFault::UnknownSystem {
                system: system@,
                path: path@,
            },
            ConfigError::UnknownDestination {
                destination,
                path,
            } => ConfigFault::UnknownDestination { destination: destination@, path: path@ },
            ConfigError::InvalidDestinationField {
                destination,
                field,
            } => ConfigFault::InvalidDestinationField { destination: destination@, field: field@ },
            ConfigError::MissingEnvironment {
                destination,
                variable,
            } => ConfigFault::MissingEnvironment {
                destination: destination@,
                variable: variable@,
            },
            ConfigError::EmptyDestinationField {
                destination,
                field,
            } => ConfigFault::EmptyDestinationField { destination: destination@, field: field@ },
            ConfigError::EmptyMountLabel => ConfigFault::EmptyMountLabel,
            ConfigError::EmptyPackage => ConfigFault::EmptyPackage,
            ConfigError::EmptyFilter { label } => ConfigFault::EmptyFilter { label: label@ },
        }
    }
}

/// The message of a configuration error.
pub open spec fn fault_text(fault: ConfigFault) -> Seq<char> {
    match fault {
        ConfigFault::InvalidProjectUri(uri) => "invalid project URI `"@ + uri + "`"@,
        ConfigFault::UnsupportedProjectUri(uri) => "project URI must use the file scheme: `"@ + uri
            + "`"@,
        ConfigFault::Read { path, source } => "cannot read `"@ + path::shown(path) + "`: "@
            + source,
        ConfigFault::Parse { path, message } => "cannot parse `"@ + path::shown(path) + "`: "@
            + message,
        ConfigFault::UnsupportedVersion { kind, version } => "unsupported "@ + kind
            + " configuration version "@ + text::decimal(version as nat),
        ConfigFault::UnknownSystem { system, path } => "system `"@ + system
            + "` is not configured in `"@ + path::shown(path) + "`"@,
        ConfigFault::UnknownDestination { destination, path } => "destination `"@ + destination
            + "` is not configured in `"@ + path::shown(path) + "`"@,
        ConfigFault::InvalidDestinationField { destination, field } => "destination `"@
            + destination + "` must configure exactly one of `"@ + field + "` or `"@ + field
            + "_env`"@,
        ConfigFault::MissingEnvironment { destination, variable } => "environment variable `"@
            + variable + "` required by destination `"@ + destination + "` is not set"@,
        ConfigFault::EmptyDestinationField { destination, field } => "destination `"@ + destination
            + "` has an empty `"@ + field + "` value"@,
        ConfigFault::EmptyMountLabel => "mount labels must not be empty"@,
        ConfigFault::EmptyPackage => "package mount names must not be empty"@,
        ConfigFault::EmptyFilter { label } => "selection mount `"@ + label
            + "` requires at least one filter value"@,
    }
}

impl ConfigError {
    /// The message of the error.
    pub fn to_string(&self) -> (message: String)
        ensures
            message@ == fault_text(self@),
    {
        match self {
            ConfigError::InvalidProjectUri(uri) => {
                let mut message = "invalid project URI `".to_owned();
                message.append(uri.as_str());
                message.append("`");
                message
            },
            ConfigError::UnsupportedProjectUri(uri) => {
                let mut message = "project URI must use the file scheme: `".to_owned();
                message.append(uri.as_str());
                message.append("`");
                message
            },
            ConfigError::Read { path, source } => {
                let mut message = "cannot read `".to_owned();
                message.append(path.display().as_str());
                message.append("`: ");
                message.append(source.as_str());
                message
            },
            ConfigError::Parse { path, message: reason } => {
                let mut message = "cannot parse `".to_owned();
                message.append(path.display().as_str());
                message.append("`: ");
                message.append(reason.as_str());
                message
            },
            ConfigError::UnsupportedVersion { kind, version } => {
                let mut message = "unsupported ".to_owned();
                message.append(kind);
                message.append(" configuration version ");
                message.append(decimal_text(*version).as_str());
                message
            },
            ConfigError::UnknownSystem { system, path } => {
                let mut message = "system `".to_owned();
                message.append(system.as_str());
                message.append("` is not configured in `");
                message.append(path.display().as_str());
                message.append("`");
                message
            },
            ConfigError::UnknownDestination { destination, path } => {
                let mut message = "destination `".to_owned();
                message.append(destination.as_str());
                message.append("` is not configured in `");
                message.append(path.display().as_str());
                message.append("`");
                message
            },
            ConfigError::InvalidDestinationField { destination, field } => {
                let mut message = "destination `".to_owned();
                message.append(destination.as_str());
                message.append("` must configure exactly one of `");
                message.append(field);
                message.append("` or `");
                message.append(field);
                message.append("_env`");
                message
            },
            ConfigError::MissingEnvironment { destination, variable } => {
                let mut message = "environment variable `".to_owned();
                message.append(variable.as_str());
                message.append("` required by destination `");
                message.append(destination.as_str());
                message.append("` is not set");
                message
            },
            ConfigError::EmptyDestinationField { destination, field } => {
                let mut message = "destination `".to_owned();
                message.append(destination.as_str());
                message.append("` has an empty `");
                message.append(field);
                message.append("` value");
                message
            },
            ConfigError::EmptyMountLabel => "mount labels must not be empty".to_owned(),
            ConfigError::EmptyPackage => "package mount names must not be empty".to_owned(),
            ConfigError::EmptyFilter { label } => {
                let mut message = "selection mount `".to_owned();
                message.append(label.as_str());
                message.append("` requires at least one filter value");
                message
            },
        }
    }
}

/// The schema version of both files, also where they do not name one.
pub fn config_version() -> (version: u32)
    ensures
        version == 1,
{
    1
}

impl ProjectConfig {
    /// A project as its file gives it.
    pub fn new(version: Option<u32>, systems: TextMap<ProjectSystemConfig>) -> (config: Self)
        ensures
            config.version == (match version {
                Some(version) => version,
                None => 1,
            }),
            config.systems == systems,
    {
        let version = match version {
            Some(version) => version,
            None => config_version(),
        };
        ProjectConfig { version, systems }
    }
}

impl UserConfig {
    /// The destinations of a user as the file gives them.
    pub fn new(version: Option<u32>, destinations: TextMap<DestinationConfig>) -> (config: Self)
        ensures
            config.version == (match version {
                Some(version) => version,
                None => 1,
            }),
            config.destinations == destinations,
    {
        let version = match version {
            Some(version) => version,
            None => config_version(),
        };
        UserConfig { version, destinations }
    }
}

impl FileError for ConfigError {
    open spec fn read_fault(path: Seq<u8>, source: Seq<char>) -> ConfigFault {
        ConfigFault::Read { path, source }
    }

    open spec fn parse_fault(path: Seq<u8>, message: Seq<char>) -> ConfigFault {
        ConfigFault::Parse { path, message }
    }

    fn unreadable(path: FilePath, source: String) -> (error: Self) {
        ConfigError::Read { path, source }
    }

    fn malformed(path: FilePath, message: String) -> (error: Self) {
        ConfigError::Parse { path, message }
    }
}

/// The directory that a project URI names, or why it names none.
pub open spec fn directory_of(project_uri: Seq<char>, url: FileUrlView) -> Result<
    Seq<u8>,
    ConfigFault,
> {
    match url {
        FileUrlView::Invalid => Err(ConfigFault::InvalidProjectUri(project_uri)),
        FileUrlView::Remote => Err(ConfigFault::UnsupportedProjectUri(project_uri)),
        FileUrlView::Local(path) => Ok(path),
    }
}

/// The root of a project, given what resolving its directory led to.
pub open spec fn root_of(
    project_uri: Seq<char>,
    url: FileUrlView,
    resolved: Result<FilePath, String>,
) -> Result<Seq<u8>, ConfigFault> {
    match directory_of(project_uri, url) {
        Err(fault) => Err(fault),
        Ok(path) => match resolved {
            Err(source) => Err(ConfigFault::Read { path, source: source@ }),
            Ok(root) => Ok(root@),
        },
    }
}

/// The directory that a project URI names, given what it is as a URL.
pub fn directory_from(project_uri: &str, url: FileUrl) -> (directory: Result<FilePath, ConfigError>)
    ensures
        model::outcome(directory) == directory_of(project_uri@, url@),
{
    match url {
        FileUrl::Invalid => Err(ConfigError::InvalidProjectUri(project_uri.to_owned())),
        FileUrl::Remote => Err(ConfigError::UnsupportedProjectUri(project_uri.to_owned())),
        FileUrl::Local(path) => Ok(path),
    }
}

/// The directory that a project URI names.
pub fn project_directory(project_uri: &str) -> (directory: Result<FilePath, ConfigError>)
    ensures
        model::outcome(directory) == directory_of(
            project_uri@,
            file_url::file_url(file_url::url_parts(project_uri@)),
        ),
{
    directory_from(project_uri, read_file_url(project_uri))
}

/// The root of a project, given what its URI is as a URL and what resolving the
/// directory led to.
pub fn project_root(project_uri: &str, url: FileUrl, resolved: Result<FilePath, String>) -> (root:
    Result<FilePath, ConfigError>)
    ensures
        model::outcome(root) == root_of(project_uri@, url@, resolved),
{
    match directory_from(project_uri, url) {
        Err(error) => Err(error),
        Ok(path) => match resolved {
            Err(source) => Err(ConfigError::Read { path, source }),
            Ok(root) => Ok(root),
        },
    }
}

/// Where the configuration of a project lies.
pub open spec fn project_file_location(root: Seq<u8>) -> Seq<u8> {
    path::joined(root, encode_utf8(".ziege"@))
}

/// The path of the configuration of a project.
pub fn project_file(root: &FilePath) -> (file: FilePath)
    ensures
        file@ == project_file_location(root@),
{
    root.join(".ziege")
}

/// The project that a file gives, or why it gives none.
pub open spec fn project_contents(root: Seq<u8>, file: FileOutcome<ProjectConfig>) -> Result<
    ProjectConfig,
    ConfigFault,
> {
    match file::file_contents::<ProjectConfig, ConfigError>(project_file_location(root), file) {
        Err(fault) => Err(fault),
        Ok(config) => if config.version != 1 {
            Err(ConfigFault::UnsupportedVersion { kind: "project"@, version: config.version })
        } else {
            Ok(config)
        },
    }
}

/// Takes over the configuration of a project.
pub fn read_project(root: &FilePath, file: FileOutcome<ProjectConfig>) -> (read: Result<
    ProjectConfig,
    ConfigError,
>)
    ensures
        model::failure(read) == project_contents(root@, file),
{
    let config = match read_config(&project_file(root), file) {
        Err(error) => {
            return Err(error);
        },
        Ok(config) => config,
    };
    if config.version != config_version() {
        return Err(ConfigError::UnsupportedVersion { kind: "project", version: config.version });
    }
    Ok(config)
}

/// The root and the configuration of a project, or why there is none.
pub open spec fn loaded_project(
    root: Result<Seq<u8>, ConfigFault>,
    file: FileOutcome<ProjectConfig>,
) -> Result<(Seq<u8>, ProjectConfig), ConfigFault> {
    match root {
        Err(fault) => Err(fault),
        Ok(root) => match project_contents(root, file) {
            Err(fault) => Err(fault),
            Ok(config) => Ok((root, config)),
        },
    }
}

/// What a loaded project stands for.
pub open spec fn project_outcome(loaded: Result<(FilePath, ProjectConfig), ConfigError>) -> Result<
    (Seq<u8>, ProjectConfig),
    ConfigFault,
> {
    match loaded {
        Ok((root, config)) => Ok((root@, config)),
        Err(error) => Err(error@),
    }
}

/// The root and the configuration of a project, given what its URI is as a URL, what
/// resolving the directory led to and what became of its file.
pub fn load_project_from(
    project_uri: &str,
    url: FileUrl,
    resolved: Result<FilePath, String>,
    file: FileOutcome<ProjectConfig>,
) -> (loaded: Result<(FilePath, ProjectConfig), ConfigError>)
    ensures
        project_outcome(loaded) == loaded_project(root_of(project_uri@, url@, resolved), file),
{
    let root = match project_root(project_uri, url, resolved) {
        Err(error) => {
            return Err(error);
        },
        Ok(root) => root,
    };
    match read_project(&root, file) {
        Err(error) => Err(error),
        Ok(config) => Ok((root, config)),
    }
}

/// The root and the configuration of a project, given what resolving the directory of
/// its URI led to and what became of its file.
pub fn load_project(
    project_uri: &str,
    resolved: Result<FilePath, String>,
    file: FileOutcome<ProjectConfig>,
) -> (loaded: Result<(FilePath, ProjectConfig), ConfigError>)
    ensures
        project_outcome(loaded) == loaded_project(
            root_of(
                project_uri@,
                file_url::file_url(file_url::url_parts(project_uri@)),
                resolved,
            ),
            file,
        ),
{
    load_project_from(project_uri, read_file_url(project_uri), resolved, file)
}

/// Where the configuration of the user lies: at the overriding path, else in the home
/// directory.
pub open spec fn user_config_location(
    override_path: Option<Seq<u8>>,
    home: Option<Seq<u8>>,
) -> Result<Seq<u8>, ConfigFault> {
    if override_path is Some {
        Ok(override_path->0)
    } else if home is Some {
        Ok(path::joined(home->0, encode_utf8(".ziegerc"@)))
    } else {
        Err(
            ConfigFault::MissingEnvironment {
                destination: "global configuration"@,
                variable: "HOME"@,
            },
        )
    }
}

/// Resolves `ZIEGE_CONFIG`, then the default in the home directory.
pub fn user_config_path(environment: &Environment) -> (resolved: Result<FilePath, ConfigError>)
    ensures
        model::outcome(resolved) == user_config_location(
            environment.value("ZIEGE_CONFIG"@),
            environment.value("HOME"@),
        ),
{
    if let Some(path) = environment.path_value("ZIEGE_CONFIG") {
        return Ok(path);
    }
    match environment.path_value("HOME") {
        Some(home) => Ok(home.join(".ziegerc")),
        None => Err(
            ConfigError::MissingEnvironment {
                destination: "global configuration".to_owned(),
                variable: "HOME".to_owned(),
            },
        ),
    }
}

/// A value that must not be empty.
pub open spec fn nonempty_value(
    destination: Seq<char>,
    field: Seq<char>,
    value: Seq<char>,
) -> Result<Seq<char>, ConfigFault> {
    if value.len() == 0 {
        Err(ConfigFault::EmptyDestinationField { destination, field })
    } else {
        Ok(value)
    }
}

/// Refuses an empty value.
pub fn nonempty(destination: &str, field: &'static str, value: String) -> (checked: Result<
    String,
    ConfigError,
>)
    ensures
        model::outcome(checked) == nonempty_value(destination@, field@, value@),
{
    if value.as_str().is_empty() {
        Err(ConfigError::EmptyDestinationField { destination: destination.to_owned(), field })
    } else {
        Ok(value)
    }
}

/// The value of an environment variable that a destination needs, given what the
/// variable is set to.
pub open spec fn variable_value(
    destination: Seq<char>,
    variable: Seq<char>,
    value: Option<Seq<char>>,
) -> Result<Seq<char>, ConfigFault> {
    match value {
        None => Err(ConfigFault::MissingEnvironment { destination, variable }),
        Some(value) => nonempty_value(destination, "environment variable"@, value),
    }
}

/// The value of an environment variable that a destination needs.
pub fn environment_value(destination: &str, variable: &str, environment: &Environment) -> (value:
    Result<String, ConfigError>)
    ensures
        model::outcome(value) == variable_value(
            destination@,
            variable@,
            environment.text(variable@),
        ),
{
    match environment.text_value(variable) {
        None => Err(
            ConfigError::MissingEnvironment {
                destination: destination.to_owned(),
                variable: variable.to_owned(),
            },
        ),
        Some(value) => nonempty(destination, "environment variable", value),
    }
}

/// The value of a setting, or why it has none. A literal and a variable exclude each
/// other. Where neither is configured, only a default helps.
pub open spec fn setting_value(
    destination: Seq<char>,
    field: Seq<char>,
    literal: Option<Seq<char>>,
    variable: Option<Seq<char>>,
    default: Option<Seq<char>>,
    environment: Environment,
) -> Result<Seq<char>, ConfigFault> {
    match (literal, variable) {
        (Some(_), Some(_)) => Err(ConfigFault::InvalidDestinationField { destination, field }),
        (Some(value), None) => nonempty_value(destination, field, value),
        (None, Some(variable)) => variable_value(destination, variable, environment.text(variable)),
        (None, None) => match default {
            Some(value) => Ok(value),
            None => Err(ConfigFault::InvalidDestinationField { destination, field }),
        },
    }
}

/// What an optional borrowed text stands for.
pub open spec fn optional_text(value: Option<&str>) -> Option<Seq<char>> {
    match value {
        Some(value) => Some(value@),
        None => None,
    }
}

/// The value of a setting.
pub fn resolve_value(
    destination: &str,
    field: &'static str,
    literal: &Option<String>,
    variable: &Option<String>,
    default: Option<&str>,
    environment: &Environment,
) -> (value: Result<String, ConfigError>)
    ensures
        model::outcome(value) == setting_value(
            destination@,
            field@,
            model::optional(*literal),
            model::optional(*variable),
            optional_text(default),
            *environment,
        ),
{
    match (literal, variable) {
        (Some(_), Some(_)) => Err(
            ConfigError::InvalidDestinationField { destination: destination.to_owned(), field },
        ),
        (Some(value), None) => nonempty(destination, field, value.clone()),
        (None, Some(variable)) => environment_value(destination, variable.as_str(), environment),
        (None, None) => match default {
            Some(value) => Ok(value.to_owned()),
            None => Err(
                ConfigError::InvalidDestinationField { destination: destination.to_owned(), field },
            ),
        },
    }
}

/// The settings of a destination, or the first reason why they are not complete.
pub open spec fn resolved_settings(
    config: DestinationConfig,
    destination: Seq<char>,
    environment: Environment,
) -> Result<ResolvedDestinationView, ConfigFault> {
    match setting_value(
        destination,
        "url"@,
        model::optional(config.url),
        model::optional(config.url_env),
        None,
        environment,
    ) {
        Err(fault) => Err(fault),
        Ok(url) => match setting_value(
            destination,
            "client"@,
            model::optional(config.client),
            model::optional(config.client_env),
            None,
            environment,
        ) {
            Err(fault) => Err(fault),
            Ok(client) => match setting_value(
                destination,
                "language"@,
                model::optional(config.language),
                model::optional(config.language_env),
                Some("EN"@),
                environment,
            ) {
                Err(fault) => Err(fault),
                Ok(language) => match setting_value(
                    destination,
                    "username"@,
                    model::optional(config.username),
                    model::optional(config.username_env),
                    None,
                    environment,
                ) {
                    Err(fault) => Err(fault),
                    Ok(username) => match variable_value(
                        destination,
                        config.password_env@,
                        environment.text(config.password_env@),
                    ) {
                        Err(fault) => Err(fault),
                        Ok(password) => Ok(
                            ResolvedDestinationView { url, client, language, username, password },
                        ),
                    },
                },
            },
        },
    }
}

impl DestinationConfig {
    /// The settings of the destination, with what the environment supplies.
    pub fn resolve(&self, destination: &str, environment: &Environment) -> (resolved: Result<
        ResolvedDestination,
        ConfigError,
    >)
        ensures
            model::outcome(resolved) == resolved_settings(*self, destination@, *environment),
    {
        let url = match resolve_value(
            destination,
            "url",
            &self.url,
            &self.url_env,
            None,
            environment,
        ) {
            Err(error) => {
                return Err(error);
            },
            Ok(url) => url,
        };
        let client = match resolve_value(
            destination,
            "client",
            &self.client,
            &self.client_env,
            None,
            environment,
        ) {
            Err(error) => {
                return Err(error);
            },
            Ok(client) => client,
        };
        let language = match resolve_value(
            destination,
            "language",
            &self.language,
            &self.language_env,
            Some("EN"),
            environment,
        ) {
            Err(error) => {
                return Err(error);
            },
            Ok(language) => language,
        };
        let username = match resolve_value(
            destination,
            "username",
            &self.username,
            &self.username_env,
            None,
            environment,
        ) {
            Err(error) => {
                return Err(error);
            },
            Ok(username) => username,
        };
        match environment_value(destination, self.password_env.as_str(), environment) {
            Err(error) => Err(error),
            Ok(password) => Ok(ResolvedDestination { url, client, language, username, password }),
        }
    }
}

/// The configuration of a system of a project, or why there is none.
pub open spec fn system_settings(
    root: Seq<u8>,
    project: ProjectConfig,
    system_id: Seq<char>,
) -> Result<ProjectSystemConfig, ConfigFault> {
    if project.systems@.dom().contains(system_id) {
        Ok(project.systems@[system_id])
    } else {
        Err(ConfigFault::UnknownSystem { system: system_id, path: project_file_location(root) })
    }
}

/// Takes the configuration of a system out of a project.
pub fn select_system(root: &FilePath, project: ProjectConfig, system_id: &str) -> (selected: Result<
    ProjectSystemConfig,
    ConfigError,
>)
    ensures
        model::failure(selected) == system_settings(root@, project, system_id@),
{
    let mut systems = project.systems;
    match systems.remove(system_id) {
        Some(config) => Ok(config),
        None => Err(
            ConfigError::UnknownSystem { system: system_id.to_owned(), path: project_file(root) },
        ),
    }
}

/// The destination that a system uses: the one that it names, else the one that is
/// named like the system.
pub open spec fn destination_of(config: ProjectSystemConfig, system_id: Seq<char>) -> Seq<char> {
    match config.destination {
        Some(destination) => destination@,
        None => system_id,
    }
}

/// The settings of a destination of the user, or why there are none.
pub open spec fn user_destination(
    path: Seq<u8>,
    user: FileOutcome<UserConfig>,
    destination: Seq<char>,
    environment: Environment,
) -> Result<ResolvedDestinationView, ConfigFault> {
    match file::file_contents::<UserConfig, ConfigError>(path, user) {
        Err(fault) => Err(fault),
        Ok(user) => if user.version != 1 {
            Err(ConfigFault::UnsupportedVersion { kind: "user"@, version: user.version })
        } else if !user.destinations@.dom().contains(destination) {
            Err(ConfigFault::UnknownDestination { destination, path })
        } else {
            resolved_settings(user.destinations@[destination], destination, environment)
        },
    }
}

/// The settings of a destination of the user.
pub fn load_destination(
    path: FilePath,
    user: FileOutcome<UserConfig>,
    destination: &str,
    environment: &Environment,
) -> (loaded: Result<ResolvedDestination, ConfigError>)
    ensures
        model::outcome(loaded) == user_destination(path@, user, destination@, *environment),
{
    let user = match read_config(&path, user) {
        Err(error) => {
            return Err(error);
        },
        Ok(user) => user,
    };
    if user.version != config_version() {
        return Err(ConfigError::UnsupportedVersion { kind: "user", version: user.version });
    }
    match user.destinations.get(destination) {
        None => Err(
            ConfigError::UnknownDestination { destination: destination.to_owned(), path },
        ),
        Some(config) => config.resolve(destination, environment),
    }
}

/// A system with all that is configured for it.
pub struct LoadedSystemView {
    pub project_root: Seq<u8>,
    pub system_id: Seq<char>,
    pub config: ProjectSystemConfig,
    pub destination: ResolvedDestinationView,
}

impl View for LoadedSystem {
    type V = LoadedSystemView;

    open spec fn view(&self) -> LoadedSystemView {
        LoadedSystemView {
            project_root: self.project_root@,
            system_id: self.system_id@,
            config: self.config,
            destination: self.destination@,
        }
    }
}

/// What a project and the user give for a system, or the first reason why they give
/// nothing.
pub open spec fn loaded_system(
    project: Result<(Seq<u8>, ProjectConfig), ConfigFault>,
    system_id: Seq<char>,
    environment: Environment,
    user: FileOutcome<UserConfig>,
) -> Result<LoadedSystemView, ConfigFault> {
    match project {
        Err(fault) => Err(fault),
        Ok((root, project)) => match system_settings(root, project, system_id) {
            Err(fault) => Err(fault),
            Ok(config) => match user_config_location(
                environment.value("ZIEGE_CONFIG"@),
                environment.value("HOME"@),
            ) {
                Err(fault) => Err(fault),
                Ok(path) => match user_destination(
                    path,
                    user,
                    destination_of(config, system_id),
                    environment,
                ) {
                    Err(fault) => Err(fault),
                    Ok(destination) => Ok(
                        LoadedSystemView { project_root: root, system_id, config, destination },
                    ),
                },
            },
        },
    }
}

/// All that is configured for a system of a loaded project, given what became of the
/// configuration of the user.
pub fn load_system_of(
    project_root: FilePath,
    project: ProjectConfig,
    system_id: &str,
    environment: &Environment,
    user: FileOutcome<UserConfig>,
) -> (loaded: Result<LoadedSystem, ConfigError>)
    ensures
        model::outcome(loaded) == loaded_system(
            Ok((project_root@, project)),
            system_id@,
            *environment,
            user,
        ),
{
    let config = match select_system(&project_root, project, system_id) {
        Err(error) => {
            return Err(error);
        },
        Ok(config) => config,
    };
    let user_path = match user_config_path(environment) {
        Err(error) => {
            return Err(error);
        },
        Ok(path) => path,
    };
    let destination_id = match &config.destination {
        Some(destination) => destination.as_str(),
        None => system_id,
    };
    match load_destination(user_path, user, destination_id, environment) {
        Err(error) => Err(error),
        Ok(destination) => Ok(
            LoadedSystem { project_root, system_id: system_id.to_owned(), config, destination },
        ),
    }
}

/// All that is configured for a system of a project, given what resolving the
/// directory of its URI led to and what became of the files.
pub fn load_system(
    project_uri: &str,
    system_id: &str,
    resolved: Result<FilePath, String>,
    project: FileOutcome<ProjectConfig>,
    environment: &Environment,
    user: FileOutcome<UserConfig>,
) -> (loaded: Result<LoadedSystem, ConfigError>)
    ensures
        model::outcome(loaded) == loaded_system(
            loaded_project(
                root_of(
                    project_uri@,
                    file_url::file_url(file_url::url_parts(project_uri@)),
                    resolved,
                ),
                project,
            ),
            system_id@,
            *environment,
            user,
        ),
{
    match load_project(project_uri, resolved, project) {
        Err(error) => Err(error),
        Ok((project_root, project)) => load_system_of(
            project_root,
            project,
            system_id,
            environment,
            user,
        ),
    }
}

impl LoadedSystem {
    /// The mounts of the system, the whole system where none are configured.
    pub fn mounts(&self) -> (mounts: Result<Vec<Mount>, ConfigError>)
        ensures
            model::list_outcome(mounts) == mounts::system_mounts(model::views(self.config.mounts@)),
    {
        build_mounts(&self.config.mounts)
    }
}

/// No setting of a resolved destination is empty.
pub proof fn lemma_resolved_settings_are_complete(
    config: DestinationConfig,
    destination: Seq<char>,
    environment: Environment,
)
    ensures
        resolved_settings(config, destination, environment) matches Ok(settings) ==> {
            &&& settings.url.len() > 0
            &&& settings.client.len() > 0
            &&& settings.language.len() > 0
            &&& settings.username.len() > 0
            &&& settings.password.len() > 0
        },
{
    reveal_strlit("EN");
}

/// A setting that is both literal and taken from the environment is refused, whatever
/// the environment holds, and so is one that is neither and has no default.
pub proof fn lemma_settings_have_one_source(
    destination: Seq<char>,
    field: Seq<char>,
    literal: Option<Seq<char>>,
    variable: Option<Seq<char>>,
    default: Option<Seq<char>>,
    environment: Environment,
)
    ensures
        literal is Some && variable is Some ==> setting_value(
            destination,
            field,
            literal,
            variable,
            default,
            environment,
        ) == Err::<Seq<char>, ConfigFault>(
            ConfigFault::InvalidDestinationField { destination, field },
        ),
        literal is None && variable is None && default is None ==> setting_value(
            destination,
            field,
            literal,
            variable,
            default,
            environment,
        ) == Err::<Seq<char>, ConfigFault>(
            ConfigFault::InvalidDestinationField { destination, field },
        ),
{
}

} // verus!

//! User-wide editing preferences of `config.toml`.
//!
//! Path discovery honors `ZIEGE_CONFIG`, then an absolute `XDG_CONFIG_HOME`, falling
//! back to `~/.config/ziege/config.toml`. No destinations are loaded here.

use crate::config;
use crate::config::file;
use crate::config::{read_config, ConfigError, ConfigFault, FileOutcome, CONFIG_VERSION};
use crate::environment::Environment;
use crate::model;
use crate::path;
use crate::path::FilePath;
use vstd::prelude::*;
use vstd::utf8::*;

verus! {

/// General preferences of the user-wide `config.toml`, loaded when opening a system.
#[derive(Clone, Copy, Debug)]
pub struct UserConfig {
    /// Configuration schema version.
    pub version: u32,
    /// Locking preferences.
    pub editing: EditingConfig,
}

#[derive(Clone, Copy, Debug)]
pub struct EditingConfig {
    /// The mode to lock objects for editing.
    pub locking: LockingMode,
}

#[derive(Clone, Copy, Debug, Eq, PartialEq, Structural)]
pub enum LockingMode {
    /// The file must be locked explicitly before editing is possible.
    Explicit,
    /// The file can be written to right away, locking takes place in the background.
    Implicit,
    /// The file is not locked. Optimistic concurrency control is used.
    Unlocked,
}

#[derive(Clone, Copy, Debug, Eq, PartialEq, Structural)]
pub struct EditingPolicy {
    /// Whether files can be edited. Comes from the project configuration.
    pub readonly: bool,
    /// How files are to be locked, if at all, for editing.
    pub locking: LockingMode,
}

impl Default for LockingMode {
    fn default() -> (mode: Self)
        ensures
            mode == LockingMode::Explicit,
    {
        LockingMode::Explicit
    }
}

impl Default for EditingConfig {
    fn default() -> (config: Self)
        ensures
            config.locking == LockingMode::Explicit,
    {
        EditingConfig { locking: LockingMode::default() }
    }
}

impl UserConfig {
    /// Preferences as a file gives them. The version defaults to the supported one, and
    /// locking to the explicit mode.
    pub fn new(version: Option<u32>, locking: Option<LockingMode>) -> (config: Self)
        ensures
            config.version == (match version {
                Some(version) => version,
                None => CONFIG_VERSION,
            }),
            config.editing.locking == (match locking {
                Some(locking) => locking,
                None => LockingMode::Explicit,
            }),
    {
        let version = match version {
            Some(version) => version,
            None => CONFIG_VERSION,
        };
        let editing = match locking {
            Some(locking) => EditingConfig { locking },
            None => EditingConfig::default(),
        };
        UserConfig { version, editing }
    }

    /// Combines user locking preferences with the read-only setting of the project.
    pub fn editing_policy(&self, readonly: bool) -> (policy: EditingPolicy)
        ensures
            policy == (EditingPolicy { readonly, locking: self.editing.locking }),
    {
        EditingPolicy { readonly, locking: self.editing.locking }
    }
}

/// The preferences that a user configuration file gives, or why it gives none.
pub open spec fn user_configuration(path: Seq<u8>, file: FileOutcome<UserConfig>) -> Result<
    UserConfig,
    ConfigFault,
> {
    match file::file_contents::<UserConfig, ConfigError>(path, file) {
        Err(fault) => Err(fault),
        Ok(config) => if config.version != CONFIG_VERSION {
            Err(ConfigFault::UnsupportedVersion { kind: "user"@, version: config.version })
        } else {
            Ok(config)
        },
    }
}

/// Takes over the user configuration of the file at the given path.
pub fn load_user_configuration(path: &FilePath, file: FileOutcome<UserConfig>) -> (loaded: Result<
    UserConfig,
    ConfigError,
>)
    ensures
        model::failure(loaded) == user_configuration(path@, file),
{
    let config = match read_config(path, file) {
        Err(error) => {
            return Err(error);
        },
        Ok(config) => config,
    };
    if config.version != CONFIG_VERSION {
        return Err(ConfigError::UnsupportedVersion { kind: "user", version: config.version });
    }
    Ok(config)
}

/// Where the user configuration lies: at the overriding path, else below an absolute
/// XDG directory, else below the home directory.
pub open spec fn user_config_location(
    override_path: Option<Seq<u8>>,
    xdg_config_home: Option<Seq<u8>>,
    home: Option<Seq<u8>>,
) -> Result<Seq<u8>, ConfigFault> {
    if override_path is Some {
        Ok(override_path->0)
    } else if xdg_config_home is Some && path::is_absolute(xdg_config_home->0) {
        Ok(path::joined(xdg_config_home->0, encode_utf8("ziege/config.toml"@)))
    } else if home is Some {
        Ok(path::joined(home->0, encode_utf8(".config/ziege/config.toml"@)))
    } else {
        Err(
            ConfigFault::MissingEnvironment {
                destination: "global configuration"@,
                variable: "HOME"@,
            },
        )
    }
}

/// Selects the path of the user configuration.
pub fn resolve_user_config_path(
    override_path: Option<FilePath>,
    xdg_config_home: Option<FilePath>,
    home: Option<FilePath>,
) -> (resolved: Result<FilePath, ConfigError>)
    ensures
        model::outcome(resolved) == user_config_location(
            model::optional(override_path),
            model::optional(xdg_config_home),
            model::optional(home),
        ),
{
    if let Some(path) = override_path {
        return Ok(path);
    }
    if let Some(path) = xdg_config_home {
        if path.is_absolute() {
            return Ok(path.join("ziege/config.toml"));
        }
    }
    match home {
        Some(home) => Ok(home.join(".config/ziege/config.toml")),
        None => Err(
            ConfigError::MissingEnvironment {
                destination: "global configuration".to_owned(),
                variable: "HOME".to_owned(),
            },
        ),
    }
}

/// Resolves `ZIEGE_CONFIG`, then XDG, then the default below the home directory.
pub fn user_config_path(environment: &Environment) -> (resolved: Result<FilePath, ConfigError>)
    ensures
        model::outcome(resolved) == user_config_location(
            environment.value("ZIEGE_CONFIG"@),
            environment.value("XDG_CONFIG_HOME"@),
            environment.value("HOME"@),
        ),
{
    let override_path = environment.path_value("ZIEGE_CONFIG");
    let xdg_config_home = environment.path_value("XDG_CONFIG_HOME");
    let home = environment.path_value("HOME");
    resolve_user_config_path(override_path, xdg_config_home, home)
}

/// Texts of ASCII characters are encoded character by character.
proof fn lemma_ascii(chars: Seq<char>, bytes: Seq<u8>)
    requires
        chars.len() == bytes.len(),
        is_ascii_chars(chars),
        forall|i: int| 0 <= i < chars.len() ==> (#[trigger] chars[i]) as u8 == bytes[i],
    ensures
        encode_utf8(chars) == bytes,
{
    is_ascii_chars_encode_utf8(chars);
    assert(encode_utf8(chars) =~= bytes);
}

/// A relative path of two parts is reached part by part.
proof fn lemma_joined_parts(base: Seq<u8>, first: Seq<u8>, second: Seq<u8>)
    requires
        first.len() > 0,
        first[0] != 0x2f,
        first.last() != 0x2f,
        !path::is_absolute(second),
    ensures
        path::joined(base, first.push(0x2f) + second) == path::joined(
            path::joined(base, first),
            second,
        ),
{
    assert(path::joined(base, first).last() == first.last());
    assert(path::joined(base, first.push(0x2f) + second) =~= path::joined(
        path::joined(base, first),
        second,
    ));
}

/// The catalog of destinations is a sibling of the user configuration: it is looked for
/// in the directory of that file, wherever the file is found. An override may name any
/// file, so long as its path ends in a name. Without an override, the directory is the
/// `ziege` directory of the XDG or home configuration.
pub proof fn lemma_destinations_beside_user_config(
    override_path: Option<Seq<u8>>,
    xdg_config_home: Option<Seq<u8>>,
    home: Option<Seq<u8>>,
)
    requires
        override_path matches Some(path) ==> path::directory(path) is Some,
    ensures
        user_config_location(override_path, xdg_config_home, home) matches Ok(location) ==> {
            &&& path::directory(location) is Some
            &&& path::directory(config::destinations_location(location)) == path::directory(
                location,
            )
            &&& config::destinations_location(location) == path::joined(
                path::directory(location)->0,
                encode_utf8("destinations.toml"@),
            )
        },
        user_config_location(None, xdg_config_home, home) matches Ok(location) ==> {
            ||| xdg_config_home is Some && config::destinations_location(location) == path::joined(
                path::joined(xdg_config_home->0, encode_utf8("ziege"@)),
                encode_utf8("destinations.toml"@),
            )
            ||| home is Some && config::destinations_location(location) == path::joined(
                path::joined(home->0, encode_utf8(".config/ziege"@)),
                encode_utf8("destinations.toml"@),
            )
        },
{
    let catalog = encode_utf8("destinations.toml"@);
    reveal_strlit("ziege");
    reveal_strlit(".config/ziege");
    reveal_strlit("ziege/config.toml");
    reveal_strlit(".config/ziege/config.toml");
    reveal_strlit("config.toml");
    reveal_strlit(".config");
    reveal_strlit("destinations.toml");
    let file = encode_utf8("config.toml"@);
    let ziege = encode_utf8("ziege"@);
    let dot_config = encode_utf8(".config"@);
    is_ascii_chars_encode_utf8("config.toml"@);
    is_ascii_chars_encode_utf8("ziege"@);
    is_ascii_chars_encode_utf8(".config"@);
    is_ascii_chars_encode_utf8("destinations.toml"@);
    lemma_ascii("ziege/config.toml"@, ziege.push(0x2f) + file);
    lemma_ascii(".config/ziege"@, dot_config.push(0x2f) + ziege);
    lemma_ascii(".config/ziege/config.toml"@, encode_utf8(".config/ziege"@).push(0x2f) + file);
    assert(path::is_name(ziege));
    assert(path::is_name(file));
    assert(path::is_name(catalog));
    if xdg_config_home is Some {
        lemma_joined_parts(xdg_config_home->0, ziege, file);
        path::lemma_sibling(xdg_config_home->0, ziege, file, catalog);
        path::lemma_joined_has_a_directory(path::joined(xdg_config_home->0, ziege), file);
    }
    if home is Some {
        let below = path::joined(home->0, dot_config);
        lemma_joined_parts(home->0, dot_config, ziege);
        lemma_joined_parts(home->0, encode_utf8(".config/ziege"@), file);
        path::lemma_sibling(below, ziege, file, catalog);
        path::lemma_joined_has_a_directory(path::joined(below, ziege), file);
    }
    if let Ok(location) = user_config_location(override_path, xdg_config_home, home) {
        path::lemma_renaming_keeps_the_directory(location, catalog);
    }
}

} // verus!

//! Named ADT connections of `destinations.toml`.
//!
//! The catalog lies beside the user configuration and is loaded on demand. Connection
//! settings and credentials are literal file values.

use crate::config::file;
use crate::config::{read_config, ConfigError, ConfigFault, FileOutcome, CONFIG_VERSION};
use crate::fingerprint;
use crate::fingerprint::Stream;
use crate::model;
use crate::path::FilePath;
use crate::text_map;
use crate::text_map::{is_less, TextMap};
use std::cmp::Ordering;
use vstd::prelude::*;

verus! {

/// A destination name read from configuration, either as a catalog key or a project
/// system key. A [`crate::uri::ResourceUri`] can also supply the name. Its spelling
/// is retained, so that destinations such as `DEV` and `dev` remain distinct.
#[derive(Debug, Eq, Hash, Ord)]
pub struct DestinationId(pub String);

impl View for DestinationId {
    type V = Seq<char>;

    open spec fn view(&self) -> Seq<char> {
        self.0@
    }
}

/// Two names are the same where their spellings are.
impl PartialEq for DestinationId {
    fn eq(&self, other: &Self) -> (same: bool) {
        self.0 == other.0
    }
}

impl vstd::std_specs::cmp::PartialEqSpecImpl for DestinationId {
    open spec fn obeys_eq_spec() -> bool {
        true
    }

    open spec fn eq_spec(&self, other: &Self) -> bool {
        self@ == other@
    }
}

/// Names are ordered as their spellings.
impl PartialOrd for DestinationId {
    fn partial_cmp(&self, other: &Self) -> (order: Option<Ordering>) {
        proof {
            text_map::lemma_text_less_total(self@, other@);
        }
        if is_less(self.as_str(), other.as_str()) {
            Some(Ordering::Less)
        } else if is_less(other.as_str(), self.as_str()) {
            Some(Ordering::Greater)
        } else {
            Some(Ordering::Equal)
        }
    }
}

impl vstd::std_specs::cmp::PartialOrdSpecImpl for DestinationId {
    open spec fn obeys_partial_cmp_spec() -> bool {
        true
    }

    open spec fn partial_cmp_spec(&self, other: &Self) -> Option<Ordering> {
        if text_map::text_less(self@, other@) {
            Some(Ordering::Less)
        } else if self@ == other@ {
            Some(Ordering::Equal)
        } else {
            Some(Ordering::Greater)
        }
    }
}

impl Clone for DestinationId {
    fn clone(&self) -> (copy: Self)
        ensures
            copy == *self,
    {
        DestinationId(self.0.clone())
    }
}

impl DestinationId {
    /// A name taken from the authority of a resource URI.
    pub fn from_uri(value: String) -> (id: Self)
        ensures
            id@ == value@,
    {
        DestinationId(value)
    }

    /// The name as it was spelled.
    pub fn as_str(&self) -> (name: &str)
        ensures
            name@ == self@,
    {
        self.0.as_str()
    }
}

impl From<String> for DestinationId {
    fn from(value: String) -> (id: Self) {
        DestinationId(value)
    }
}

impl vstd::std_specs::convert::FromSpecImpl<String> for DestinationId {
    open spec fn obeys_from_spec() -> bool {
        true
    }

    open spec fn from_spec(value: String) -> Self {
        DestinationId(value)
    }
}

/// Names keep the spelling that they were made from, and are equal and ordered exactly as
/// those spellings are. Names that differ only in case are different names.
pub proof fn lemma_names_are_their_spellings(left: String, right: String)
    ensures
        ({
            let one = DestinationId(left);
            let other = DestinationId(right);
            &&& one@ == left@
            &&& vstd::std_specs::cmp::PartialEqIs::is_eq(&one, &other) <==> left@ == right@
            &&& vstd::std_specs::cmp::PartialOrdIs::is_lt(&one, &other) <==> text_map::text_less(
                left@,
                right@,
            )
            &&& vstd::std_specs::cmp::PartialOrdIs::is_gt(&one, &other) <==> text_map::text_less(
                right@,
                left@,
            )
        }),
{
    text_map::lemma_text_less_total(left@, right@);
}

/// Named ADT connections of `destinations.toml`.
pub struct DestinationsConfig {
    /// Configuration schema version.
    pub version: u32,
    /// Connections by the names that the `systems` table of a project uses.
    pub destinations: TextMap<DestinationConfig>,
}

/// ADT connection settings of one destination.
#[derive(Eq, Hash, PartialEq)]
pub struct DestinationConfig {
    /// Base URL of the ADT system.
    pub url: String,
    /// SAP client number, kept as text to preserve leading zeroes.
    pub client: String,
    /// Logon language.
    pub language: String,
    /// ADT logon username.
    pub username: String,
    /// ADT logon password.
    pub password: String,
}

impl Clone for DestinationConfig {
    fn clone(&self) -> (copy: Self)
        ensures
            copy == *self,
    {
        DestinationConfig {
            url: self.url.clone(),
            client: self.client.clone(),
            language: self.language.clone(),
            username: self.username.clone(),
            password: self.password.clone(),
        }
    }
}

impl DestinationConfig {
    /// Connection settings as a file gives them. The language defaults to English.
    pub fn new(
        url: String,
        client: String,
        language: Option<String>,
        username: String,
        password: String,
    ) -> (config: Self)
        ensures
            config.url == url,
            config.client == client,
            config.language@ == (match language {
                Some(language) => language@,
                None => "EN"@,
            }),
            config.username == username,
            config.password == password,
    {
        let language = match language {
            Some(language) => language,
            None => "EN".to_owned(),
        };
        DestinationConfig { url, client, language, username, password }
    }
}

/// The name of the first connection setting that is empty.
pub open spec fn empty_setting(config: DestinationConfig) -> Option<Seq<char>> {
    if config.url@.len() == 0 {
        Some("url"@)
    } else if config.client@.len() == 0 {
        Some("client"@)
    } else if config.language@.len() == 0 {
        Some("language"@)
    } else if config.username@.len() == 0 {
        Some("username"@)
    } else if config.password@.len() == 0 {
        Some("password"@)
    } else {
        None
    }
}

/// The name of the first connection setting that is empty.
fn find_empty_setting(config: &DestinationConfig) -> (found: Option<&'static str>)
    ensures
        match found {
            Some(name) => empty_setting(*config) == Some(name@),
            None => empty_setting(*config) is None,
        },
{
    if config.url.as_str().is_empty() {
        Some("url")
    } else if config.client.as_str().is_empty() {
        Some("client")
    } else if config.language.as_str().is_empty() {
        Some("language")
    } else if config.username.as_str().is_empty() {
        Some("username")
    } else if config.password.as_str().is_empty() {
        Some("password")
    } else {
        None
    }
}

/// The settings of a destination, or why there are none: the file must hold a catalog
/// of the supported version, which has the destination, all of whose settings are set.
pub open spec fn destination_settings(
    path: Seq<u8>,
    id: Seq<char>,
    file: FileOutcome<DestinationsConfig>,
) -> Result<DestinationConfig, ConfigFault> {
    match file::file_contents::<DestinationsConfig, ConfigError>(path, file) {
        Err(fault) => Err(fault),
        Ok(catalog) => if catalog.version != CONFIG_VERSION {
            Err(
                ConfigFault::UnsupportedVersion {
                    kind: "destinations"@,
                    version: catalog.version,
                },
            )
        } else if !catalog.destinations@.dom().contains(id) {
            Err(ConfigFault::UnknownDestination { destination: id, path })
        } else {
            match empty_setting(catalog.destinations@[id]) {
                Some(field) => Err(
                    ConfigFault::EmptyField { field: "destinations."@ + id + "."@ + field },
                ),
                None => Ok(catalog.destinations@[id]),
            }
        },
    }
}

/// Takes over and validates a named destination of the catalog at the given path.
pub fn load_destination(
    path: FilePath,
    id: &DestinationId,
    file: FileOutcome<DestinationsConfig>,
) -> (loaded: Result<DestinationConfig, ConfigError>)
    ensures
        model::failure(loaded) == destination_settings(path@, id@, file),
{
    let mut catalog = match read_config(&path, file) {
        Err(error) => {
            return Err(error);
        },
        Ok(catalog) => catalog,
    };
    if catalog.version != CONFIG_VERSION {
        return Err(
            ConfigError::UnsupportedVersion { kind: "destinations", version: catalog.version },
        );
    }
    let destination = match catalog.destinations.remove(id.as_str()) {
        None => {
            return Err(
                ConfigError::UnknownDestination { destination: id.as_str().to_owned(), path },
            );
        },
        Some(destination) => destination,
    };
    if let Some(name) = find_empty_setting(&destination) {
        let mut field = "destinations.".to_owned();
        field.append(id.as_str());
        field.append(".");
        field.append(name);
        return Err(ConfigError::EmptyField { field });
    }
    Ok(destination)
}

/// What is hashed of connection settings.
pub open spec fn settings_code(
    url: Seq<char>,
    client: Seq<char>,
    language: Seq<char>,
    username: Seq<char>,
    password: Seq<char>,
) -> Seq<u8> {
    fingerprint::text_code(url) + fingerprint::text_code(client) + fingerprint::text_code(language)
        + fingerprint::text_code(username) + fingerprint::text_code(password)
}

/// What is hashed of a destination.
pub open spec fn destination_code(config: DestinationConfig) -> Seq<u8> {
    settings_code(
        config.url@,
        config.client@,
        config.language@,
        config.username@,
        config.password@,
    )
}

/// Different connection settings are hashed from different bytes, whatever follows.
pub proof fn lemma_settings_are_told_apart(
    url: Seq<char>,
    client: Seq<char>,
    language: Seq<char>,
    username: Seq<char>,
    password: Seq<char>,
    other_url: Seq<char>,
    other_client: Seq<char>,
    other_language: Seq<char>,
    other_username: Seq<char>,
    other_password: Seq<char>,
    after: Seq<u8>,
    behind: Seq<u8>,
)
    requires
        settings_code(url, client, language, username, password) + after == settings_code(
            other_url,
            other_client,
            other_language,
            other_username,
            other_password,
        ) + behind,
    ensures
        url == other_url,
        client == other_client,
        language == other_language,
        username == other_username,
        password == other_password,
        after == behind,
{
    let last = fingerprint::text_code(password) + after;
    let other_last = fingerprint::text_code(other_password) + behind;
    let user = fingerprint::text_code(username) + last;
    let other_user = fingerprint::text_code(other_username) + other_last;
    let rest = fingerprint::text_code(language) + user;
    let other_rest = fingerprint::text_code(other_language) + other_user;
    let tail = fingerprint::text_code(client) + rest;
    let other_tail = fingerprint::text_code(other_client) + other_rest;
    assert(settings_code(url, client, language, username, password) + after
        =~= fingerprint::text_code(url) + tail);
    assert(settings_code(other_url, other_client, other_language, other_username, other_password)
        + behind =~= fingerprint::text_code(other_url) + other_tail);
    fingerprint::lemma_text_code(url, other_url, tail, other_tail);
    fingerprint::lemma_text_code(client, other_client, rest, other_rest);
    fingerprint::lemma_text_code(language, other_language, user, other_user);
    fingerprint::lemma_text_code(username, other_username, last, other_last);
    fingerprint::lemma_text_code(password, other_password, after, behind);
}

impl DestinationConfig {
    /// A hash of all settings.
    pub fn fingerprint(&self) -> (hash: u64)
        ensures
            hash == fingerprint::hash_of(destination_code(*self)),
    {
        let mut stream = Stream::new();
        stream.put_text(self.url.as_str());
        stream.put_text(self.client.as_str());
        stream.put_text(self.language.as_str());
        stream.put_text(self.username.as_str());
        stream.put_text(self.password.as_str());
        assert(stream@ =~= destination_code(*self));
        stream.hash()
    }
}

} // verus!

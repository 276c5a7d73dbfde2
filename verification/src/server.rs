//! The state of one editor connection, and how it is set up.
//!
//! The listener creates a server for each editor connection. It is bound to one project
//! and holds the presentation preferences of its client.

use crate::config::ProjectRoot;
use crate::file_url;
use crate::file_url::{read_file_url, FileUrl, FileUrlView};
use crate::lifecycle::ConnectionEvent;
use crate::model;
use crate::path;
use crate::path::FilePath;
use crate::rpc;
use crate::rpc::{Failure, RpcError};
use crate::text;
use crate::text::ascii_lowercase;
use vstd::prelude::*;

verus! {

/// The request that lists the systems of a project.
pub const PROJECT_SYSTEMS_METHOD: &'static str = "ziege/project/systems";

/// The request that lists a directory.
pub const READ_DIRECTORY_METHOD: &'static str = "ziege/fileSystem/readDirectory";

/// How technical ABAP namespaces are displayed in repository listings.
#[derive(Clone, Copy, Debug, Eq, PartialEq, Structural)]
pub enum NamespaceDelimiter {
    Parentheses,
    /// This causes issues in a lot of editors, but some have workarounds.
    Slash,
}

impl Default for NamespaceDelimiter {
    fn default() -> (delimiter: Self)
        ensures
            delimiter == NamespaceDelimiter::Parentheses,
    {
        NamespaceDelimiter::Parentheses
    }
}

/// How a technical name is displayed, given its encoding with parentheses. Names that
/// have none remain readable by their lowercase spelling.
pub open spec fn formatted_name(
    delimiter: NamespaceDelimiter,
    name: Seq<char>,
    encoded: Option<Seq<char>>,
) -> Seq<char> {
    if delimiter == NamespaceDelimiter::Parentheses && encoded is Some {
        encoded->0
    } else {
        text::lowercase(name)
    }
}

impl NamespaceDelimiter {
    /// Formats a technical name for repository listings, given its encoding with
    /// parentheses where it has one.
    pub fn format_name(self, name: &str, encoded: Option<String>) -> (formatted: String)
        ensures
            formatted@ == formatted_name(self, name@, model::optional(encoded)),
    {
        match self {
            NamespaceDelimiter::Parentheses => match encoded {
                Some(encoded) => encoded,
                None => ascii_lowercase(name),
            },
            NamespaceDelimiter::Slash => ascii_lowercase(name),
        }
    }
}

/// Repository presentation preferences of an editor connection.
#[derive(Clone, Copy, Debug, Eq, PartialEq, Structural)]
pub struct PresentationOptions {
    pub namespace_delimiter: NamespaceDelimiter,
}

/// Custom options supplied with the `initialize` request.
#[derive(Clone, Copy, Debug, Eq, PartialEq, Structural)]
pub struct InitializationOptions {
    pub presentation: PresentationOptions,
}

/// The options of a client that prefers a delimiter, or has no preference.
pub open spec fn options_with(delimiter: Option<NamespaceDelimiter>) -> InitializationOptions {
    InitializationOptions {
        presentation: PresentationOptions {
            namespace_delimiter: match delimiter {
                Some(delimiter) => delimiter,
                None => NamespaceDelimiter::Parentheses,
            },
        },
    }
}

impl Default for PresentationOptions {
    fn default() -> (options: Self)
        ensures
            options == options_with(None).presentation,
    {
        PresentationOptions { namespace_delimiter: NamespaceDelimiter::default() }
    }
}

impl Default for InitializationOptions {
    fn default() -> (options: Self)
        ensures
            options == options_with(None),
    {
        InitializationOptions { presentation: PresentationOptions::default() }
    }
}

/// What a client supplies as options.
pub enum SuppliedOptions {
    /// Nothing.
    Missing,
    /// Something that holds no options, for the given reason.
    Malformed(String),
    /// Options, with the delimiter where one is named.
    Given(Option<NamespaceDelimiter>),
}

/// The options that a connection uses, or why it cannot be set up.
pub open spec fn used_options(supplied: SuppliedOptions) -> Result<InitializationOptions, Failure> {
    match supplied {
        SuppliedOptions::Missing => Ok(options_with(None)),
        SuppliedOptions::Malformed(message) => Err(rpc::bad_params(message@)),
        SuppliedOptions::Given(delimiter) => Ok(options_with(delimiter)),
    }
}

/// The options that a connection uses.
pub fn initialization_options(supplied: SuppliedOptions) -> (options: Result<
    InitializationOptions,
    RpcError,
>)
    ensures
        model::failure(options) == used_options(supplied),
{
    match supplied {
        SuppliedOptions::Missing => Ok(InitializationOptions::default()),
        SuppliedOptions::Malformed(message) => Err(RpcError::invalid_params(message)),
        SuppliedOptions::Given(Some(namespace_delimiter)) => Ok(
            InitializationOptions { presentation: PresentationOptions { namespace_delimiter } },
        ),
        SuppliedOptions::Given(None) => Ok(InitializationOptions::default()),
    }
}

/// The URI of the project that a client names, or why it names none. Older clients
/// supply a root instead of workspace folders. Several roots need separate connections,
/// so that an address always belongs to an unambiguous view.
pub open spec fn project_uri_of(
    workspace_folders: Option<Seq<Seq<char>>>,
    root_uri: Option<Seq<char>>,
) -> Result<Seq<char>, Failure> {
    if workspace_folders is Some && workspace_folders->0.len() == 1 {
        Ok(workspace_folders->0[0])
    } else if workspace_folders is Some && workspace_folders->0.len() > 1 {
        Err(rpc::bad_params("Use one Ziege connection per project root"@))
    } else if root_uri is Some {
        Ok(root_uri->0)
    } else {
        Err(rpc::bad_params("Ziege requires one project root during initialize"@))
    }
}

/// Selects the URI of the single project served by a connection.
pub fn select_project_uri(
    workspace_folders: &Option<Vec<String>>,
    root_uri: &Option<String>,
) -> (selected: Result<String, RpcError>)
    ensures
        model::outcome(selected) == project_uri_of(
            model::optional_views(*workspace_folders),
            model::optional(*root_uri),
        ),
{
    if let Some(folders) = workspace_folders {
        if folders.len() == 1 {
            assert(model::views(folders@)[0] == folders@[0]@);
            return Ok(folders[0].clone());
        }
        if folders.len() > 1 {
            return Err(
                RpcError::invalid_params("Use one Ziege connection per project root".to_owned()),
            );
        }
    }
    match root_uri {
        Some(uri) => Ok(uri.clone()),
        None => Err(
            RpcError::invalid_params(
                "Ziege requires one project root during initialize".to_owned(),
            ),
        ),
    }
}

/// What became of resolving a project directory.
pub enum Resolution {
    /// It could not be resolved, for the given reason.
    Failed(String),
    /// It is at this path, but is no directory.
    NotADirectory(FilePath),
    /// It is the directory at this path.
    Directory(FilePath),
}

/// The directory that a project URI names, or why it names none.
pub open spec fn directory_of(project_uri: Seq<char>, url: FileUrlView) -> Result<
    Seq<u8>,
    Failure,
> {
    match url {
        FileUrlView::Invalid => Err(
            rpc::bad_params("Invalid project URI `"@ + project_uri + "`"@),
        ),
        FileUrlView::Remote => Err(
            rpc::bad_params(
                "Project URI must identify a local file directory: `"@ + project_uri + "`"@,
            ),
        ),
        FileUrlView::Local(path) => Ok(path),
    }
}

/// The root of the project that a URI names, or why it names none.
pub open spec fn root_of(
    project_uri: Seq<char>,
    url: FileUrlView,
    resolution: Resolution,
) -> Result<Seq<u8>, Failure> {
    match directory_of(project_uri, url) {
        Err(failure) => Err(failure),
        Ok(directory) => match resolution {
            Resolution::Failed(error) => Err(
                rpc::bad_params(
                    "Cannot resolve project directory `"@ + path::shown(directory) + "`: "@
                        + error@,
                ),
            ),
            Resolution::NotADirectory(_) => Err(
                rpc::bad_params("Project URI must identify a directory"@),
            ),
            Resolution::Directory(root) => Ok(root@),
        },
    }
}

/// The directory that a project URI names, given what it is as a URL.
pub fn directory_from(project_uri: &str, url: FileUrl) -> (directory: Result<FilePath, RpcError>)
    ensures
        model::outcome(directory) == directory_of(project_uri@, url@),
{
    match url {
        FileUrl::Invalid => {
            let mut message = "Invalid project URI `".to_owned();
            message.append(project_uri);
            message.append("`");
            Err(RpcError::invalid_params(message))
        },
        FileUrl::Remote => {
            let mut message = "Project URI must identify a local file directory: `".to_owned();
            message.append(project_uri);
            message.append("`");
            Err(RpcError::invalid_params(message))
        },
        FileUrl::Local(path) => Ok(path),
    }
}

/// The directory that a project URI names, which is then to be resolved.
pub fn project_directory(project_uri: &str) -> (directory: Result<FilePath, RpcError>)
    ensures
        model::outcome(directory) == directory_of(
            project_uri@,
            file_url::file_url(file_url::url_parts(project_uri@)),
        ),
{
    directory_from(project_uri, read_file_url(project_uri))
}

/// The root of the project that a URI names, given what the URI is as a URL and what
/// became of resolving its directory.
pub fn root_from(project_uri: &str, url: FileUrl, resolution: Resolution) -> (root: Result<
    ProjectRoot,
    RpcError,
>)
    ensures
        model::outcome(root) == root_of(project_uri@, url@, resolution),
{
    let directory = match directory_from(project_uri, url) {
        Err(error) => {
            return Err(error);
        },
        Ok(directory) => directory,
    };
    match resolution {
        Resolution::Failed(error) => {
            let mut message = "Cannot resolve project directory `".to_owned();
            message.append(directory.display().as_str());
            message.append("`: ");
            message.append(error.as_str());
            Err(RpcError::invalid_params(message))
        },
        Resolution::NotADirectory(_) => Err(
            RpcError::invalid_params("Project URI must identify a directory".to_owned()),
        ),
        Resolution::Directory(root) => Ok(ProjectRoot(root)),
    }
}

/// Converts the URI of a client to a project root, given what became of resolving its
/// directory.
pub fn canonicalize_project_uri(project_uri: &str, resolution: Resolution) -> (root: Result<
    ProjectRoot,
    RpcError,
>)
    ensures
        model::outcome(root) == root_of(
            project_uri@,
            file_url::file_url(file_url::url_parts(project_uri@)),
            resolution,
        ),
{
    root_from(project_uri, read_file_url(project_uri), resolution)
}

/// The root of the single project served by a connection, given what became of resolving
/// its directory.
pub fn client_project_root(
    workspace_folders: &Option<Vec<String>>,
    root_uri: &Option<String>,
    resolution: Resolution,
) -> (root: Result<ProjectRoot, RpcError>)
    ensures
        model::outcome(root) == match project_uri_of(
            model::optional_views(*workspace_folders),
            model::optional(*root_uri),
        ) {
            Err(failure) => Err(failure),
            Ok(uri) => root_of(uri, file_url::file_url(file_url::url_parts(uri)), resolution),
        },
{
    match select_project_uri(workspace_folders, root_uri) {
        Err(error) => Err(error),
        Ok(uri) => canonicalize_project_uri(uri.as_str(), resolution),
    }
}

/// What the server tells a client that it can do.
#[derive(Clone, Copy, Debug, Eq, PartialEq, Structural)]
pub struct Capabilities {
    pub protocol_version: u32,
    pub project_configuration: bool,
    pub repository_navigation: bool,
}

/// What follows from an `initialize` request that succeeds: the answer, and what the
/// listener is to be told.
#[derive(Clone, Copy, Debug, Eq, PartialEq, Structural)]
pub struct Initialized {
    pub capabilities: Capabilities,
    pub event: ConnectionEvent,
}

/// The answer to an `initialize` request that succeeds.
pub open spec fn initialized_answer() -> Initialized {
    Initialized {
        capabilities: Capabilities {
            protocol_version: 1,
            project_configuration: true,
            repository_navigation: true,
        },
        event: ConnectionEvent::Initialized,
    }
}

/// A server worker handling one editor connection.
pub struct Server {
    /// Configuration location resolved once at process startup.
    pub user_config_path: FilePath,
    /// Options set by the `initialize` request.
    pub options: Option<InitializationOptions>,
    /// The project that the connection is bound to.
    pub project_root: Option<ProjectRoot>,
}

/// The state of one editor connection.
pub struct ServerState {
    pub user_config_path: Seq<u8>,
    pub options: Option<InitializationOptions>,
    pub project_root: Option<Seq<u8>>,
}

impl View for Server {
    type V = ServerState;

    open spec fn view(&self) -> ServerState {
        ServerState {
            user_config_path: self.user_config_path@,
            options: self.options,
            project_root: model::optional(self.project_root),
        }
    }
}

/// A connection that was not set up yet.
pub open spec fn fresh(user_config_path: Seq<u8>) -> ServerState {
    ServerState { user_config_path, options: None, project_root: None }
}

/// The state after an `initialize` request, and its answer. A connection is set up only
/// once.
pub open spec fn initialized(
    server: ServerState,
    root: Result<Seq<u8>, Failure>,
    supplied: SuppliedOptions,
) -> (ServerState, Result<Initialized, Failure>) {
    match root {
        Err(failure) => (server, Err(failure)),
        Ok(root) => match used_options(supplied) {
            Err(failure) => (server, Err(failure)),
            Ok(options) => if server.options is Some {
                (
                    server,
                    Err(rpc::bad_request("Initialization options have already been set"@)),
                )
            } else if server.project_root is Some {
                (
                    ServerState { options: Some(options), ..server },
                    Err(rpc::bad_request("The connection is already bound to a project root"@)),
                )
            } else {
                (
                    ServerState { options: Some(options), project_root: Some(root), ..server },
                    Ok(initialized_answer()),
                )
            },
        },
    }
}

impl Server {
    /// A connection that was not set up yet.
    pub fn new(user_config_path: FilePath) -> (server: Server)
        ensures
            server@ == fresh(user_config_path@),
    {
        Server { user_config_path, options: None, project_root: None }
    }

    /// The project that the connection is bound to. All requests on the connection use
    /// the same root.
    pub fn project_root(&self) -> (root: Result<&ProjectRoot, RpcError>)
        ensures
            match root {
                Ok(root) => self@.project_root == Some(root@),
                Err(error) => self@.project_root is None && error@ == rpc::plain_bad_request(),
            },
    {
        match &self.project_root {
            Some(root) => Ok(root),
            None => Err(RpcError::invalid_request()),
        }
    }

    /// Answers an `initialize` request, given the project root that the client names and
    /// the options that it supplies.
    pub fn initialize(
        &mut self,
        project_root: Result<ProjectRoot, RpcError>,
        supplied: SuppliedOptions,
    ) -> (answer: Result<Initialized, RpcError>)
        ensures
            final(self)@ == initialized(old(self)@, model::outcome(project_root), supplied).0,
            model::failure(answer) == initialized(
                old(self)@,
                model::outcome(project_root),
                supplied,
            ).1,
    {
        let root = match project_root {
            Err(error) => {
                return Err(error);
            },
            Ok(root) => root,
        };
        let options = match initialization_options(supplied) {
            Err(error) => {
                return Err(error);
            },
            Ok(options) => options,
        };
        if self.options.is_some() {
            return Err(
                RpcError::invalid_request_because(
                    "Initialization options have already been set".to_owned(),
                ),
            );
        }
        self.options = Some(options);
        if self.project_root.is_some() {
            return Err(
                RpcError::invalid_request_because(
                    "The connection is already bound to a project root".to_owned(),
                ),
            );
        }
        self.project_root = Some(root);
        Ok(
            Initialized {
                capabilities: Capabilities {
                    protocol_version: 1,
                    project_configuration: true,
                    repository_navigation: true,
                },
                event: ConnectionEvent::Initialized,
            },
        )
    }
}

/// A connection stays bound to the project and the options of its first successful
/// `initialize` request: whatever follows, neither changes, and all later requests of
/// this kind fail.
pub proof fn lemma_connection_stays_bound(
    server: ServerState,
    root: Result<Seq<u8>, Failure>,
    supplied: SuppliedOptions,
)
    requires
        server.options is Some,
    ensures
        initialized(server, root, supplied).0 == server,
        initialized(server, root, supplied).1 is Err,
{
}

/// A connection is set up as a whole or not at all: it has options exactly when it is
/// bound to a project.
pub proof fn lemma_set_up_as_a_whole(
    server: ServerState,
    root: Result<Seq<u8>, Failure>,
    supplied: SuppliedOptions,
)
    requires
        server.options is Some <==> server.project_root is Some,
    ensures
        fresh(server.user_config_path).options is Some <==> fresh(
            server.user_config_path,
        ).project_root is Some,
        ({
            let (after, answer) = initialized(server, root, supplied);
            &&& after.options is Some <==> after.project_root is Some
            &&& answer is Ok ==> after.project_root == Some(root->Ok_0)
            &&& answer is Err ==> after == server
        }),
{
}

} // verus!

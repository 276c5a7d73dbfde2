//! What is given when a connection is set up.

use crate::config::ProjectRoot;
use crate::file_url::{read_file_url, FileUrl};
use crate::lifecycle::ConnectionEvent;
use crate::model;
use crate::path;
use crate::path::FilePath;
use crate::rpc::RpcError;
use crate::server::{
    canonicalize_project_uri, client_project_root, directory_from, initialization_options,
    project_directory, root_from, select_project_uri, InitializationOptions, Initialized,
    NamespaceDelimiter, Resolution, Server, SuppliedOptions,
};
use vstd::prelude::*;

verus! {

/// A new connection knows where the user configuration lies, and nothing else.
pub proof fn lemma_new_connection(location: FilePath, server: Server)
    requires
        call_ensures(Server::new, (location,), server),
    ensures
        server.user_config_path.bytes@ == location.bytes@,
        server.options is None,
        server.project_root is None,
{
}

/// A connection has the project that it is bound to, and is refused without one.
pub proof fn lemma_bound_project(server: Server, root: Result<&ProjectRoot, RpcError>)
    requires
        call_ensures(Server::project_root, (&server,), root),
    ensures
        match server.project_root {
            Some(bound) => root is Ok && root->Ok_0.0.bytes@ == bound.0.bytes@,
            None => root is Err && root->Err_0.code == -32600 && root->Err_0.message@
                == "Invalid request"@,
        },
{
}

/// The delimiter that a client names is used, and parentheses otherwise.
pub proof fn lemma_used_options(
    supplied: SuppliedOptions,
    options: Result<InitializationOptions, RpcError>,
)
    requires
        call_ensures(initialization_options, (supplied,), options),
    ensures
        match supplied {
            SuppliedOptions::Malformed(message) => options is Err && options->Err_0.code == -32602
                && options->Err_0.message@ == message@,
            SuppliedOptions::Given(Some(delimiter)) => options is Ok
                && options->Ok_0.presentation.namespace_delimiter == delimiter,
            _ => options is Ok && options->Ok_0.presentation.namespace_delimiter
                == NamespaceDelimiter::Parentheses,
        },
{
}

/// A single folder names the project, or else a root where there is no folder.
pub proof fn lemma_selected_project(
    folders: Option<Vec<String>>,
    root: Option<String>,
    selected: Result<String, RpcError>,
)
    requires
        call_ensures(select_project_uri, (&folders, &root), selected),
    ensures
        ({
            let count = if folders is Some {
                folders->0@.len()
            } else {
                0
            };
            if count == 1 {
                selected is Ok && selected->Ok_0@ == folders->0@[0]@
            } else if count > 1 {
                selected is Err && selected->Err_0.code == -32602 && selected->Err_0.message@
                    == "Use one Ziege connection per project root"@
            } else if root is Some {
                selected is Ok && selected->Ok_0@ == root->0@
            } else {
                selected is Err && selected->Err_0.code == -32602 && selected->Err_0.message@
                    == "Ziege requires one project root during initialize"@
            }
        }),
{
    if let Some(folders) = folders {
        model::lemma_views(folders@);
        if folders@.len() == 1 {
            assert(model::views(folders@)[0] == folders@[0]@);
        }
    }
}

/// A project is rooted at the directory that the path of its local URL was resolved to.
pub proof fn lemma_resolved_project(
    uri: &str,
    url: FileUrl,
    resolution: Resolution,
    directory: Result<FilePath, RpcError>,
    root: Result<ProjectRoot, RpcError>,
)
    requires
        call_ensures(directory_from, (uri, url), directory),
        call_ensures(root_from, (uri, url, resolution), root),
    ensures
        match url {
            FileUrl::Invalid => directory is Err && root is Err && root->Err_0@
                == directory->Err_0@ && root->Err_0.code == -32602 && root->Err_0.message@
                == "Invalid project URI `"@ + uri@ + "`"@,
            FileUrl::Remote => directory is Err && root is Err && root->Err_0@
                == directory->Err_0@ && root->Err_0.code == -32602 && root->Err_0.message@
                == "Project URI must identify a local file directory: `"@ + uri@ + "`"@,
            FileUrl::Local(path) => {
                &&& directory is Ok
                &&& directory->Ok_0.bytes@ == path.bytes@
                &&& match resolution {
                    Resolution::Directory(found) => root is Ok && root->Ok_0.0.bytes@
                        == found.bytes@,
                    Resolution::NotADirectory(_) => root is Err && root->Err_0.code == -32602
                        && root->Err_0.message@ == "Project URI must identify a directory"@,
                    Resolution::Failed(reason) => root is Err && root->Err_0.code == -32602
                        && root->Err_0.message@ == "Cannot resolve project directory `"@
                        + path::shown(path.bytes@) + "`: "@ + reason@,
                }
            },
        },
{
}

/// A fresh connection is bound to the project and the options of its first usable request.
/// A connection that has options keeps all that it has, and refuses. So does one whose
/// request has no usable project or options. One that only has a project keeps it, and takes
/// the options though it refuses.
pub proof fn lemma_initialized_connection(
    server: &mut Server,
    root: Result<ProjectRoot, RpcError>,
    supplied: SuppliedOptions,
    options: Result<InitializationOptions, RpcError>,
    answer: Result<Initialized, RpcError>,
)
    requires
        call_ensures(initialization_options, (supplied,), options),
        call_ensures(Server::initialize, (server, root, supplied), answer),
    ensures
        ({
            let usable = root is Ok && options is Ok;
            &&& usable && old(server).options is None && old(server).project_root is None ==> {
                &&& answer is Ok
                &&& answer->Ok_0.event == ConnectionEvent::Initialized
                &&& answer->Ok_0.capabilities.protocol_version == 1
                &&& answer->Ok_0.capabilities.project_configuration
                &&& answer->Ok_0.capabilities.repository_navigation
                &&& final(server).options == Some(options->Ok_0)
                &&& final(server).project_root matches Some(bound) && bound.0.bytes@
                    == root->Ok_0.0.bytes@
            }
            &&& !usable || old(server).options is Some ==> answer is Err && final(server)@ == old(
                server,
            )@
            &&& usable && old(server).options is Some ==> answer->Err_0.code == -32600
                && answer->Err_0.message@ == "Initialization options have already been set"@
            &&& usable && old(server).options is None && old(server).project_root is Some ==> {
                &&& answer is Err
                &&& answer->Err_0.code == -32600
                &&& answer->Err_0.message@ == "The connection is already bound to a project root"@
                &&& final(server).options == Some(options->Ok_0)
                &&& final(server)@.project_root == old(server)@.project_root
            }
            &&& root matches Err(refused) ==> answer is Err && answer->Err_0@ == refused@
            &&& root is Ok && options is Err ==> answer is Err && answer->Err_0@
                == options->Err_0@
            &&& final(server).user_config_path.bytes@ == old(server).user_config_path.bytes@
        }),
{
}

/// A project URI is read as a URL, and the project is rooted as that URL says.
pub proof fn lemma_project_of_a_uri(
    uri: &str,
    url: FileUrl,
    resolution: Resolution,
    directory: Result<FilePath, RpcError>,
    read: Result<FilePath, RpcError>,
    root: Result<ProjectRoot, RpcError>,
    rooted: Result<ProjectRoot, RpcError>,
)
    requires
        call_ensures(read_file_url, (uri,), url),
        call_ensures(directory_from, (uri, url), directory),
        call_ensures(project_directory, (uri,), read),
        call_ensures(root_from, (uri, url, resolution), root),
        call_ensures(canonicalize_project_uri, (uri, resolution), rooted),
    ensures
        model::outcome(read) == model::outcome(directory),
        model::outcome(rooted) == model::outcome(root),
{
}

/// The root of a connection is that of the project that its client selects.
pub proof fn lemma_project_of_a_client(
    folders: Option<Vec<String>>,
    root_uri: Option<String>,
    resolution: Resolution,
    selected: Result<String, RpcError>,
    uri: &str,
    rooted: Result<ProjectRoot, RpcError>,
    root: Result<ProjectRoot, RpcError>,
)
    requires
        call_ensures(select_project_uri, (&folders, &root_uri), selected),
        selected matches Ok(selected) ==> uri@ == selected@,
        call_ensures(canonicalize_project_uri, (uri, resolution), rooted),
        call_ensures(client_project_root, (&folders, &root_uri, resolution), root),
    ensures
        match selected {
            Err(error) => root is Err && root->Err_0@ == error@,
            Ok(_) => model::outcome(root) == model::outcome(rooted),
        },
{
}

} // verus!

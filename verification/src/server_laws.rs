//! Laws of setting up a connection: which project it is bound to, and how names are shown.

use crate::file_url::FileUrlView;
use crate::lifecycle::ConnectionEvent;
use crate::path;
use crate::rpc;
use crate::rpc::Failure;
use crate::server;
use crate::server::{
    InitializationOptions, NamespaceDelimiter, Resolution, ServerState, SuppliedOptions,
};
use crate::text;
use vstd::prelude::*;

verus! {

/// A name is shown by its encoding where the client prefers parentheses and there is one,
/// and in lower case otherwise.
pub proof fn lemma_names_are_formatted(name: Seq<char>, encoded: Option<Seq<char>>)
    ensures
        encoded matches Some(spelled) ==> server::formatted_name(
            NamespaceDelimiter::Parentheses,
            name,
            encoded,
        ) == spelled,
        encoded is None ==> text::is_lowercase_of(
            server::formatted_name(NamespaceDelimiter::Parentheses, name, encoded),
            name,
        ),
        text::is_lowercase_of(
            server::formatted_name(NamespaceDelimiter::Slash, name, encoded),
            name,
        ),
{
    text::lemma_lowercase(name);
}

/// A connection uses the delimiter that its client names, and parentheses where the client
/// names none or supplies no options. Options that hold something else are refused with the
/// reason given for it.
pub proof fn lemma_supplied_options_are_used(supplied: SuppliedOptions)
    ensures
        ({
            let used = server::used_options(supplied);
            match supplied {
                SuppliedOptions::Given(Some(delimiter)) => used is Ok
                    && used->Ok_0.presentation.namespace_delimiter == delimiter,
                SuppliedOptions::Given(None) => used is Ok
                    && used->Ok_0.presentation.namespace_delimiter
                    == NamespaceDelimiter::Parentheses,
                SuppliedOptions::Missing => used is Ok
                    && used->Ok_0.presentation.namespace_delimiter
                    == NamespaceDelimiter::Parentheses,
                SuppliedOptions::Malformed(message) => rpc::fails_with(used, -32602, message@),
            }
        }),
{
}

/// A client names its project by a single workspace folder, or by a root where it names no
/// folder. Several folders are refused, whatever the root is, and so is no project at all.
pub proof fn lemma_one_project_per_connection(
    folders: Option<Seq<Seq<char>>>,
    root: Option<Seq<char>>,
)
    ensures
        ({
            let selected = server::project_uri_of(folders, root);
            let count = if folders is Some {
                folders->0.len()
            } else {
                0
            };
            &&& count == 1 ==> selected == Ok::<Seq<char>, Failure>(folders->0[0])
            &&& count > 1 ==> rpc::fails_with(
                selected,
                -32602,
                "Use one Ziege connection per project root"@,
            )
            &&& count == 0 && root is Some ==> selected == Ok::<Seq<char>, Failure>(root->0)
            &&& count == 0 && root is None ==> rpc::fails_with(
                selected,
                -32602,
                "Ziege requires one project root during initialize"@,
            )
        }),
{
}

/// The root of a project is the directory that resolving the path of a local URL led to.
/// What is no URL, names no local file, cannot be resolved or is no directory is refused,
/// with a message that names it.
pub proof fn lemma_project_root_is_a_local_directory(
    uri: Seq<char>,
    url: FileUrlView,
    resolution: Resolution,
)
    ensures
        ({
            let root = server::root_of(uri, url, resolution);
            match url {
                FileUrlView::Invalid => rpc::fails_with(
                    root,
                    -32602,
                    "Invalid project URI `"@ + uri + "`"@,
                ),
                FileUrlView::Remote => rpc::fails_with(
                    root,
                    -32602,
                    "Project URI must identify a local file directory: `"@ + uri + "`"@,
                ),
                FileUrlView::Local(path) => match resolution {
                    Resolution::Failed(error) => rpc::fails_with(
                        root,
                        -32602,
                        "Cannot resolve project directory `"@ + path::shown(path) + "`: "@ + error@,
                    ),
                    Resolution::NotADirectory(_) => rpc::fails_with(
                        root,
                        -32602,
                        "Project URI must identify a directory"@,
                    ),
                    Resolution::Directory(found) => root == Ok::<Seq<u8>, Failure>(found@),
                },
            }
        }),
        ({
            let directory = server::directory_of(uri, url);
            &&& url matches FileUrlView::Local(path) ==> directory == Ok::<Seq<u8>, Failure>(path)
            &&& !(url is Local) ==> directory is Err && directory->Err_0 == server::root_of(
                uri,
                url,
                resolution,
            )->Err_0
        }),
{
}

/// The first `initialize` request that names a project and has usable options binds the
/// connection to both, and is answered with what the server can do. It succeeds on every
/// fresh connection, and the location of the user configuration does not change.
pub proof fn lemma_first_request_binds_the_connection(
    location: Seq<u8>,
    root: Seq<u8>,
    supplied: SuppliedOptions,
    options: InitializationOptions,
)
    requires
        server::used_options(supplied) == Ok::<InitializationOptions, Failure>(options),
    ensures
        ({
            let (after, answer) = server::initialized(
                server::fresh(location),
                Ok(root),
                supplied,
            );
            &&& after.project_root == Some(root)
            &&& after.options == Some(options)
            &&& after.user_config_path == location
            &&& answer is Ok
            &&& answer->Ok_0.event == ConnectionEvent::Initialized
            &&& answer->Ok_0.capabilities.protocol_version == 1
            &&& answer->Ok_0.capabilities.project_configuration
            &&& answer->Ok_0.capabilities.repository_navigation
        }),
        server::fresh(location).options is None,
        server::fresh(location).project_root is None,
        server::fresh(location).user_config_path == location,
{
}

/// A request without a usable project fails as naming the project did, one with unusable
/// options as reading them did, in this order, and neither changes the connection. A
/// second request is out of place. A connection that has a project but no options takes the
/// options, and keeps its project.
pub proof fn lemma_refused_requests_change_nothing(
    server: ServerState,
    root: Result<Seq<u8>, Failure>,
    supplied: SuppliedOptions,
)
    ensures
        ({
            let (after, answer) = server::initialized(server, root, supplied);
            let options = server::used_options(supplied);
            &&& root is Err ==> after == server && answer is Err && answer->Err_0 == root->Err_0
            &&& root is Ok && options is Err ==> after == server && answer is Err && answer->Err_0
                == options->Err_0
            &&& root is Ok && options is Ok && server.options is Some ==> after == server
                && rpc::fails_with(answer, -32600, "Initialization options have already been set"@)
            &&& root is Ok && options is Ok && server.options is None && server.project_root is Some
                ==> after.project_root == server.project_root && after.options == Some(
                options->Ok_0,
            ) && rpc::fails_with(
                answer,
                -32600,
                "The connection is already bound to a project root"@,
            )
            &&& after.user_config_path == server.user_config_path
        }),
{
}

} // verus!

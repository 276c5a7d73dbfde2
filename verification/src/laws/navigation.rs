//! What is answered to requests for systems and directories.

use crate::config;
use crate::config::{
    load_local_project, ConfigError, DestinationId, FileOutcome, ProjectConfig,
};
use crate::context;
use crate::context::{ContextError, SystemContext, SystemContextStore, SystemView};
use crate::handlers::browsing::{
    FindView, Found, ListNodes, OpenView, ReadDestinations, ReadProject, ReadUser, ResolvePath,
    ViewOutcomes,
};
use crate::handlers::navigation;
use crate::handlers::navigation::{
    DirectoryEntry, DirectoryRequest, EntryKind, ListedNode, Listing, ParentNode,
    ProjectSystemsParams, ProjectSystemsResult, ReadDirectoryParams, ReadDirectoryResult,
};
use crate::handlers::navigation_laws;
use crate::model;
use crate::path;
use crate::repository::{Node, NodeKind};
use crate::rpc::RpcError;
use crate::server::{NamespaceDelimiter, Server};
use crate::text;
use crate::text_map;
use crate::uri;
use crate::uri::{Address, Place, ResourcePath, ResourceUri, UriError};
use vstd::prelude::*;
use vstd::utf8::*;

verus! {

/// Whether an entry is the one of a node in a directory of the given address.
pub open spec fn is_entry_of(
    entry: DirectoryEntry,
    directory: Seq<char>,
    node: Node,
    delimiter: NamespaceDelimiter,
    encoded: Option<String>,
) -> bool {
    let technical = match node.kind {
        NodeKind::Object => true,
        NodeKind::Package { package } => package@ == node.label@,
        NodeKind::Mount => false,
        NodeKind::Facet => false,
        NodeKind::Other => false,
    };
    &&& entry.uri@ == directory + uri::encoded_segment(node.label@).push('/')
    &&& entry.kind == EntryKind::Object <==> node.kind is Object
    &&& entry.kind == EntryKind::Package <==> node.kind is Package
    &&& !technical ==> entry.name@ == node.label@
    &&& technical && delimiter == NamespaceDelimiter::Slash ==> text::is_lowercase_of(
        entry.name@,
        node.label@,
    )
    &&& technical && encoded is None ==> text::is_lowercase_of(entry.name@, node.label@)
    &&& technical && delimiter == NamespaceDelimiter::Parentheses && encoded is Some
        ==> entry.name@ == encoded->0@
}

/// The address of the directory at a path.
pub open spec fn directory_address(system: DestinationId, path: Seq<String>) -> Seq<char> {
    uri::spelling(Address { system: system.0@, path: Place::Vfs(model::views(path)) })
}

/// An entry extends the address of its directory by the label of its node, has the kind of
/// the node, and is named by its label unless that is a technical name, which is formatted.
pub proof fn lemma_assembled_entry(
    system: DestinationId,
    path: Vec<String>,
    node: Node,
    delimiter: NamespaceDelimiter,
    encoded: Option<String>,
    entry: DirectoryEntry,
)
    requires
        call_ensures(
            DirectoryEntry::assemble,
            (system, &path, node, delimiter, encoded),
            entry,
        ),
    ensures
        is_entry_of(entry, directory_address(system, path@), node, delimiter, encoded),
{
    let seen = model::views(path@);
    navigation_laws::lemma_technical_names_are_formatted(
        system@,
        seen,
        node@,
        delimiter,
        model::optional(encoded),
    );
    navigation_laws::lemma_entry_extends_its_directory(
        system@,
        seen,
        node@,
        delimiter,
        model::optional(encoded),
    );
}

/// Every listed node has its entry, in order, below the directory that was asked for and
/// as the client prefers it. A connection without options is refused.
pub proof fn lemma_presented_directory(
    server: Server,
    request: DirectoryRequest,
    nodes: Vec<ListedNode>,
    answer: Result<ReadDirectoryResult, RpcError>,
)
    requires
        call_ensures(Server::present_directory, (&server, &request, nodes), answer),
    ensures
        match server.options {
            None => answer matches Err(error) && error.code == -32600 && error.message@
                == "Options were not initialized"@,
            Some(options) => answer matches Ok(result) && {
                &&& result.entries@.len() == nodes@.len()
                &&& forall|i: int|
                    0 <= i < nodes@.len() ==> is_entry_of(
                        #[trigger] result.entries@[i],
                        directory_address(request.system, request.path@),
                        nodes@[i].node,
                        options.presentation.namespace_delimiter,
                        nodes@[i].encoded,
                    )
            },
        },
{
    if let Some(options) = server.options {
        lemma_listed(
            answer->Ok_0.entries@,
            request,
            nodes@,
            options.presentation.namespace_delimiter,
        );
    }
}

proof fn lemma_listed(
    entries: Seq<DirectoryEntry>,
    request: DirectoryRequest,
    nodes: Seq<ListedNode>,
    delimiter: NamespaceDelimiter,
)
    requires
        model::views(entries) == navigation::entries_of(
            request@.system,
            request@.path,
            model::views(nodes),
            delimiter,
        ),
    ensures
        entries.len() == nodes.len(),
        forall|i: int|
            0 <= i < nodes.len() ==> is_entry_of(
                #[trigger] entries[i],
                directory_address(request.system, request.path@),
                nodes[i].node,
                delimiter,
                nodes[i].encoded,
            ),
{
    model::lemma_views(entries);
    model::lemma_views(nodes);
    assert forall|i: int| 0 <= i < nodes.len() implies is_entry_of(
        #[trigger] entries[i],
        directory_address(request.system, request.path@),
        nodes[i].node,
        delimiter,
        nodes[i].encoded,
    ) by {
        assert(model::views(entries)[i] == entries[i]@);
        assert(model::views(nodes)[i] == nodes[i]@);
        navigation_laws::lemma_nodes_are_listed_in_order(
            request@.system,
            request@.path,
            model::views(nodes),
            delimiter,
        );
        navigation_laws::lemma_technical_names_are_formatted(
            request@.system,
            request@.path,
            nodes[i].node@,
            delimiter,
            model::optional(nodes[i].encoded),
        );
        navigation_laws::lemma_entry_extends_its_directory(
            request@.system,
            request@.path,
            nodes[i].node@,
            delimiter,
            model::optional(nodes[i].encoded),
        );
    }
}

/// A technical name is shown by its encoding with parentheses, or in lower case.
pub proof fn lemma_formatted_name(
    delimiter: NamespaceDelimiter,
    name: &str,
    encoded: Option<String>,
    formatted: String,
)
    requires
        call_ensures(NamespaceDelimiter::format_name, (delimiter, name, encoded), formatted),
    ensures
        delimiter == NamespaceDelimiter::Parentheses && encoded is Some ==> formatted@
            == encoded->0@,
        delimiter == NamespaceDelimiter::Slash || encoded is None ==> text::is_lowercase_of(
            formatted@,
            name@,
        ),
{
    text::lemma_lowercase(name@);
}

/// The systems that a loaded project configures are listed in the order of their names,
/// each with its configured folder or else its name, and with the address of its root. A
/// connection without a project is refused, and what is wrong with the project file is
/// passed on.
pub proof fn lemma_listed_systems(
    server: Server,
    params: ProjectSystemsParams,
    file: FileOutcome<ProjectConfig>,
    project: Result<ProjectConfig, ConfigError>,
    names: Seq<Seq<char>>,
    answer: Result<ProjectSystemsResult, RpcError>,
)
    requires
        server.project_root matches Some(root) ==> call_ensures(
            load_local_project,
            (&root.0, file),
            project,
        ),
        project matches Ok(project) ==> text_map::lists_keys(names, project.systems@),
        call_ensures(Server::project_systems, (&server, params, file), answer),
    ensures
        server.project_root is None ==> answer is Err && answer->Err_0.code == -32600,
        server.project_root is Some && project is Err ==> answer is Err && answer->Err_0.code
            == -32803 && answer->Err_0.message@ == config::fault_text(project->Err_0@),
        server.project_root is Some && project is Ok ==> {
            let systems = project->Ok_0.systems@;
            &&& answer is Ok
            &&& answer->Ok_0.systems@.len() == names.len()
            &&& forall|i: int|
                0 <= i < names.len() ==> {
                    &&& (#[trigger] answer->Ok_0.systems@[i]).uri@ == "abap://"@ + uri::encoded_text(
                        names[i],
                        false,
                    ) + "/vfs/"@
                    &&& systems[names[i]].folder matches Some(folder)
                        ==> answer->Ok_0.systems@[i].folder@ == folder@
                    &&& systems[names[i]].folder is None ==> answer->Ok_0.systems@[i].folder@
                        == names[i]
                }
        },
{
    if server.project_root is Some && project is Ok {
        let systems = project->Ok_0.systems@;
        navigation_laws::lemma_every_system_has_a_portal(systems, names);
        let listed = answer->Ok_0.systems@;
        model::lemma_views(listed);
        assert forall|i: int| 0 <= i < names.len() implies {
            &&& (#[trigger] listed[i]).uri@ == "abap://"@ + uri::encoded_text(names[i], false)
                + "/vfs/"@
            &&& systems[names[i]].folder matches Some(folder) ==> listed[i].folder@ == folder@
            &&& systems[names[i]].folder is None ==> listed[i].folder@ == names[i]
        } by {
            assert(model::views(listed)[i] == listed[i]@);
            assert(navigation::portals_of(systems)[i] == navigation::portal_of(
                names[i],
                systems[names[i]],
            ));
            navigation_laws::lemma_portals_have_the_configured_folder(
                names[i],
                systems[names[i]],
                systems[names[i]],
            );
        }
    }
}

/// A request asks for the directory that its address names, on the project of the
/// connection and with its own flag. Only directories can be asked for.
pub proof fn lemma_requested_directory(
    server: Server,
    params: ReadDirectoryParams,
    address: Result<ResourceUri, UriError>,
    spelled: &str,
    request: Result<DirectoryRequest, RpcError>,
)
    requires
        spelled@ == params.uri@,
        call_ensures(ResourceUri::from_str, (spelled,), address),
        call_ensures(Server::request_directory, (&server, &params), request),
    ensures
        match address {
            Err(_) => request is Err && request->Err_0.code == -32602,
            Ok(address) => match address.path {
                ResourcePath::Document(_) => request is Err && request->Err_0.code == -32602
                    && request->Err_0.message@ == "readDirectory requires a VFS URI"@,
                ResourcePath::Vfs(path) => match server.project_root {
                    None => request is Err && request->Err_0.code == -32600,
                    Some(root) => request matches Ok(request) && {
                        &&& request.system.0@ == address.system.0@
                        &&& model::are_same_texts(request.path@, path@)
                        &&& request.root.0.bytes@ == root.0.bytes@
                        &&& request.refresh == params.refresh
                    },
                },
            },
        },
{
    if let Ok(address) = address {
        if let ResourcePath::Vfs(path) = address.path {
            if server.project_root is Some {
                model::lemma_same_texts(request->Ok_0.path@, path@);
            }
        }
    }
}

/// A refresh renews a view at its root only, and reads children again below it only. What
/// is no directory has none.
pub proof fn lemma_refreshed_directory(
    request: DirectoryRequest,
    parent: ParentNode,
    renews: bool,
    listing: Listing,
)
    requires
        call_ensures(DirectoryRequest::renews_view, (&request,), renews),
        call_ensures(DirectoryRequest::listing, (&request, parent), listing),
    ensures
        renews <==> request.refresh && request.path@.len() == 0,
        parent.is_directory == Some(false) ==> listing == Listing::Empty,
        parent.is_directory != Some(false) ==> (listing == Listing::Refresh <==> request.refresh
            && !parent.is_root),
        parent.is_directory != Some(false) && !(request.refresh && !parent.is_root) ==> listing
            == Listing::Children,
{
}

/// The view that is known is used exactly where it is not renewed. Otherwise the project
/// file in the directory of the project is read next.
pub proof fn lemma_looked_up_view<T>(step: FindView, found: Option<T>, next: Found<T>)
    requires
        call_ensures(FindView::resume::<T>, (step, found), next),
    ensures
        ({
            let renews = step.request.refresh && step.request.path@.len() == 0;
            &&& found is Some && !renews ==> (next matches Found::Use(resolve, view) && found
                == Some(view) && resolve.request == step.request)
            &&& found is None || renews ==> (next matches Found::Load(read) && read.request
                == step.request && read.path.bytes@ == path::joined(
                step.request.root.0.bytes@,
                encode_utf8("ziege.toml"@),
            ))
        }),
{
}

/// Behind the project file comes that of the user, then the catalog beside it, then the
/// view with the mounts of the system and the settings of its destination.
pub proof fn lemma_configuration_is_read_in_order(
    read: ReadProject,
    server: Server,
    project: FileOutcome<ProjectConfig>,
    user_step: Result<ReadUser, RpcError>,
    user: FileOutcome<config::UserConfig>,
    catalog_step: Result<ReadDestinations, RpcError>,
    catalog: FileOutcome<config::DestinationsConfig>,
    open: Result<OpenView, RpcError>,
)
    requires
        call_ensures(ReadProject::resume, (read, &server, project), user_step),
        user_step matches Ok(step) ==> call_ensures(ReadUser::resume, (step, user), catalog_step),
        catalog_step matches Ok(step) ==> call_ensures(
            ReadDestinations::resume,
            (step, catalog),
            open,
        ),
    ensures
        ({
            let configured = config::system_configuration(
                read.request.root.0.bytes@,
                read.request.system.0@,
                server.user_config_path.bytes@,
                project,
                user,
                catalog,
            );
            &&& user_step is Err ==> configured is Err && user_step->Err_0.code == -32803
                && user_step->Err_0.message@ == config::fault_text(configured->Err_0)
            &&& user_step matches Ok(step) ==> step.request == read.request
                && step.path.bytes@ == server.user_config_path.bytes@
            &&& user_step is Ok && catalog_step is Err ==> configured is Err
                && catalog_step->Err_0.code == -32803 && catalog_step->Err_0.message@
                == config::fault_text(configured->Err_0)
            &&& user_step is Ok && catalog_step is Ok && open is Err ==> configured is Err
                && open->Err_0.code == -32803 && open->Err_0.message@ == config::fault_text(
                configured->Err_0,
            )
            &&& user_step is Ok && catalog_step is Ok && open is Ok ==> {
                &&& configured is Ok
                &&& open->Ok_0.request == read.request
                &&& open->Ok_0.destination == configured->Ok_0.destination
                &&& open->Ok_0.mounts == configured->Ok_0.config.mounts
            }
        }),
{
}

/// An opened view is used, and what went wrong in opening it is passed on.
pub proof fn lemma_opened_view<T>(
    step: OpenView,
    opened: Result<T, ContextError>,
    next: Result<(ResolvePath, T), RpcError>,
)
    requires
        call_ensures(OpenView::resume::<T>, (step, opened), next),
    ensures
        match opened {
            Ok(view) => next matches Ok((resolve, used)) && used == view && resolve.request
                == step.request,
            Err(error) => next matches Err(failure) && failure.code == -32803 && failure.message@
                == context::fault_text(error@),
        },
{
}

/// A resolved path is listed in the way that the request asks for, and what went wrong in
/// resolving it is passed on.
pub proof fn lemma_resolved_path<N>(
    step: ResolvePath,
    parent: Result<(N, ParentNode), String>,
    next: Result<(ListNodes, N), RpcError>,
    listing: Listing,
)
    requires
        call_ensures(ResolvePath::resume::<N>, (step, parent), next),
        parent matches Ok((_, parent)) ==> call_ensures(
            DirectoryRequest::listing,
            (&step.request, parent),
            listing,
        ),
    ensures
        match parent {
            Ok((node, _)) => next matches Ok((list, found)) && found == node && list.request
                == step.request && list.listing == listing,
            Err(message) => next matches Err(failure) && failure.code == -32803 && failure.message@
                == message@,
        },
{
}

/// Listed nodes are presented. Where there are none to list, nothing is presented whatever
/// listing led to, and otherwise what went wrong there is passed on.
pub proof fn lemma_finished_listing(
    step: ListNodes,
    server: Server,
    nodes: Result<Vec<ListedNode>, String>,
    answer: Result<ReadDirectoryResult, RpcError>,
)
    requires
        server.options is Some,
        call_ensures(ListNodes::finish, (step, &server, nodes), answer),
    ensures
        step.listing == Listing::Empty ==> answer is Ok && answer->Ok_0.entries@.len() == 0,
        step.listing != Listing::Empty ==> match nodes {
            Err(message) => answer is Err && answer->Err_0.code == -32803
                && answer->Err_0.message@ == message@,
            Ok(nodes) => answer matches Ok(result) && {
                &&& result.entries@.len() == nodes@.len()
                &&& forall|i: int|
                    0 <= i < nodes@.len() ==> is_entry_of(
                        #[trigger] result.entries@[i],
                        directory_address(step.request.system, step.request.path@),
                        nodes@[i].node,
                        server.options->0.presentation.namespace_delimiter,
                        nodes@[i].encoded,
                    )
            },
        },
{
    let delimiter = server.options->0.presentation.namespace_delimiter;
    if step.listing == Listing::Empty {
        model::lemma_views(answer->Ok_0.entries@);
        assert(model::views(answer->Ok_0.entries@).len() == 0);
    } else if let Ok(nodes) = nodes {
        lemma_listed(answer->Ok_0.entries@, step.request, nodes@, delimiter);
    }
}

/// A directory whose steps all succeed is listed with one entry for each node, in order,
/// below the directory that the address names.
pub proof fn lemma_read_directory<C, T>(
    server: Server,
    params: ReadDirectoryParams,
    contexts: &mut SystemContextStore<SystemContext<C, T>>,
    outcomes: ViewOutcomes<C, T>,
    parent: Result<ParentNode, String>,
    nodes: Result<Vec<ListedNode>, String>,
    request: Result<DirectoryRequest, RpcError>,
    answer: Result<ReadDirectoryResult, RpcError>,
)
    requires
        call_ensures(Server::request_directory, (&server, &params), request),
        call_ensures(
            Server::read_directory::<C, T>,
            (&server, params, contexts, outcomes, parent, nodes),
            answer,
        ),
    ensures
        request matches Err(refused) ==> {
            &&& answer matches Err(error) && error@ == refused@
            &&& final(contexts).states() == old(contexts).states()
        },
        answer matches Ok(result) ==> {
            &&& request is Ok
            &&& parent is Ok
            &&& server.options is Some
            &&& parent->Ok_0.is_directory == Some(false) ==> result.entries@.len() == 0
            &&& parent->Ok_0.is_directory != Some(false) ==> {
                &&& nodes is Ok
                &&& result.entries@.len() == nodes->Ok_0@.len()
                &&& forall|i: int|
                    0 <= i < nodes->Ok_0@.len() ==> is_entry_of(
                        #[trigger] result.entries@[i],
                        directory_address(request->Ok_0.system, request->Ok_0.path@),
                        nodes->Ok_0@[i].node,
                        server.options->0.presentation.namespace_delimiter,
                        nodes->Ok_0@[i].encoded,
                    )
            }
            &&& context::is_browsed(
                final(contexts).states(),
                request->Ok_0.system.0@,
                request->Ok_0.root.0.bytes@,
            )
        },
{
    if answer is Ok {
        let entries = answer->Ok_0.entries@;
        model::lemma_views(entries);
        if parent->Ok_0.is_directory != Some(false) {
            lemma_listed(
                entries,
                request->Ok_0,
                nodes->Ok_0@,
                server.options->0.presentation.namespace_delimiter,
            );
        } else {
            assert(model::views(entries).len() == 0);
        }
    }
}

/// The view for a request is the one that is known, or the one that its configuration asks
/// for, and is held by the store afterwards.
pub proof fn lemma_view_for_a_request<'a, C, T>(
    server: Server,
    first: FindView,
    contexts: &'a mut SystemContextStore<SystemContext<C, T>>,
    outcomes: ViewOutcomes<C, T>,
    view: Result<(ResolvePath, &'a SystemView<T>), RpcError>,
)
    requires
        call_ensures(
            Server::repository_view::<C, T>,
            (&server, first, contexts, outcomes),
            view,
        ),
    ensures
        ({
            let before = old(contexts).states();
            let after = final(contexts).states();
            let id = first.request.system.0@;
            let root = first.request.root.0.bytes@;
            let known = before.dom().contains(id) && before[id].context.views.dom().contains(root);
            let renews = first.request.refresh && first.request.path@.len() == 0;
            &&& known && !renews ==> after == before && view is Ok && view->Ok_0.1.tree
                == before[id].context.views[root].tree
            &&& view matches Ok((step, used)) ==> {
                &&& step.request == first.request
                &&& after.dom().contains(id)
                &&& after[id].context.views.dom().contains(root)
                &&& after[id].context.views[root].tree == used.tree
                &&& after[id].context.views[root].mounts == model::views(used.mounts@)
            }
            &&& view matches Err(error) ==> error.code == -32803
        }),
{
}

/// A listing starts with the lookup of the directory that is asked for.
pub proof fn lemma_started_listing(
    server: Server,
    params: ReadDirectoryParams,
    request: Result<DirectoryRequest, RpcError>,
    first: Result<FindView, RpcError>,
)
    requires
        call_ensures(Server::request_directory, (&server, &params), request),
        call_ensures(Server::browse, (&server, &params), first),
    ensures
        match request {
            Err(error) => first is Err && first->Err_0@ == error@,
            Ok(request) => first is Ok && first->Ok_0.request@ == request@,
        },
{
}

} // verus!

//! The steps of a request to list a directory.
//!
//! Every step says what is to be done outside of the library, and is resumed with what
//! came of it. A step is only reached where all earlier ones succeeded: configuration is
//! read one file after the other, and only where no view can be used.

use crate::config;
use crate::config::destinations;
use crate::config::project::project_file;
use crate::config::project;
use crate::config::user;
use crate::config::{
    destinations_file, load_destination, load_user_configuration, project_system, ConfigFault,
    DestinationConfig, DestinationsConfig, FileOutcome, MountConfig, ProjectConfig,
    ProjectSystemConfig, ResolvedSystemConfig, UserConfig,
};
use crate::context;
use crate::context::{
    ContextError, ContextFault, ContextSlot, ContextState, SystemContext, SystemContextStore,
    SystemView, ViewState,
};
use crate::handlers::navigation;
use crate::handlers::navigation::{
    DirectoryEntryView, DirectoryRequest, DirectoryRequestView, ListedNode, ListedNodeView,
    Listing, ParentNode, ReadDirectoryParams, ReadDirectoryResult,
};
use crate::model;
use crate::path::FilePath;
use crate::rpc;
use crate::rpc::{Failure, RpcError};
use crate::server::{Server, ServerState};
use crate::uri;
use vstd::prelude::*;

verus! {

/// The view of the project is to be looked up, unless it is renewed.
pub struct FindView {
    pub request: DirectoryRequest,
}

/// What follows from looking up the view.
pub enum Found<T> {
    /// The view is used.
    Use(ResolvePath, T),
    /// The configuration is loaded to open a view.
    Load(ReadProject),
}

/// The configuration of the project is to be read.
pub struct ReadProject {
    pub request: DirectoryRequest,
    pub path: FilePath,
}

/// The configuration of the user is to be read.
pub struct ReadUser {
    pub request: DirectoryRequest,
    pub system: ProjectSystemConfig,
    pub path: FilePath,
}

/// The catalog of destinations is to be read.
pub struct ReadDestinations {
    pub request: DirectoryRequest,
    pub system: ProjectSystemConfig,
    pub path: FilePath,
}

/// A view with these mounts is to be opened on a connection with these settings.
pub struct OpenView {
    pub request: DirectoryRequest,
    pub destination: DestinationConfig,
    pub mounts: Vec<MountConfig>,
}

/// The path of the request is to be resolved in the tree of the view.
pub struct ResolvePath {
    pub request: DirectoryRequest,
}

/// The nodes of the directory are to be listed in this way.
pub struct ListNodes {
    pub request: DirectoryRequest,
    pub listing: Listing,
}

/// The failure of a request for which no view is available.
pub open spec fn view_failure(fault: ContextFault) -> Failure {
    rpc::failed(context::fault_text(fault))
}

impl FindView {
    /// Goes on with the view that was found, or without one.
    pub fn resume<T>(self, found: Option<T>) -> (next: Found<T>)
        ensures
            match next {
                Found::Use(step, view) => {
                    &&& found == Some(view)
                    &&& !navigation::renews_view(self.request@)
                    &&& step.request == self.request
                },
                Found::Load(step) => {
                    &&& found is None || navigation::renews_view(self.request@)
                    &&& step.request == self.request
                    &&& step.path@ == project::project_file_location(self.request@.root)
                },
            },
    {
        if !self.request.renews_view() {
            if let Some(view) = found {
                return Found::Use(ResolvePath { request: self.request }, view);
            }
        }
        let path = project_file(self.request.root.as_path());
        Found::Load(ReadProject { request: self.request, path })
    }
}

impl ReadProject {
    /// Goes on with what became of the configuration of the project.
    pub fn resume(self, server: &Server, file: FileOutcome<ProjectConfig>) -> (next: Result<
        ReadUser,
        RpcError,
    >)
        ensures
            match config::project_system_settings(self.request@.root, self.request@.system, file) {
                Err(fault) => next is Err && next->Err_0@ == view_failure(
                    ContextFault::Config(fault),
                ),
                Ok(system) => {
                    &&& next is Ok
                    &&& next->Ok_0.request == self.request
                    &&& next->Ok_0.system == system
                    &&& next->Ok_0.path@ == server@.user_config_path
                },
            },
    {
        match project_system(&self.request.root, &self.request.system, file) {
            Err(error) => Err(RpcError::request_failed(ContextError::Config(error).to_string())),
            Ok(system) => Ok(
                ReadUser { request: self.request, system, path: server.user_config_path.clone() },
            ),
        }
    }
}

impl ReadUser {
    /// Goes on with what became of the configuration of the user.
    pub fn resume(self, file: FileOutcome<UserConfig>) -> (next: Result<ReadDestinations, RpcError>)
        ensures
            match user::user_configuration(self.path@, file) {
                Err(fault) => next is Err && next->Err_0@ == view_failure(
                    ContextFault::Config(fault),
                ),
                Ok(_) => {
                    &&& next is Ok
                    &&& next->Ok_0.request == self.request
                    &&& next->Ok_0.system == self.system
                    &&& next->Ok_0.path@ == config::destinations_location(self.path@)
                },
            },
    {
        match load_user_configuration(&self.path, file) {
            Err(error) => Err(RpcError::request_failed(ContextError::Config(error).to_string())),
            Ok(_) => {
                let path = destinations_file(&self.path);
                Ok(ReadDestinations { request: self.request, system: self.system, path })
            },
        }
    }
}

impl ReadDestinations {
    /// Goes on with what became of the catalog of destinations.
    pub fn resume(self, file: FileOutcome<DestinationsConfig>) -> (next: Result<OpenView, RpcError>)
        ensures
            match destinations::destination_settings(self.path@, self.request@.system, file) {
                Err(fault) => next is Err && next->Err_0@ == view_failure(
                    ContextFault::Config(fault),
                ),
                Ok(destination) => {
                    &&& next is Ok
                    &&& next->Ok_0.request == self.request
                    &&& next->Ok_0.destination == destination
                    &&& next->Ok_0.mounts == self.system.mounts
                },
            },
    {
        match load_destination(self.path, &self.request.system, file) {
            Err(error) => Err(RpcError::request_failed(ContextError::Config(error).to_string())),
            Ok(destination) => Ok(
                OpenView { request: self.request, destination, mounts: self.system.mounts },
            ),
        }
    }
}

impl OpenView {
    /// Goes on with what became of opening the view.
    pub fn resume<T>(self, opened: Result<T, ContextError>) -> (next: Result<
        (ResolvePath, T),
        RpcError,
    >)
        ensures
            match opened {
                Err(error) => next is Err && next->Err_0@ == view_failure(error@),
                Ok(view) => next is Ok && next->Ok_0.0.request == self.request && next->Ok_0.1
                    == view,
            },
    {
        match opened {
            Err(error) => Err(RpcError::request_failed(error.to_string())),
            Ok(view) => Ok((ResolvePath { request: self.request }, view)),
        }
    }
}

impl ResolvePath {
    /// Goes on with what became of resolving the path: a node, and what the tree knows of
    /// it.
    pub fn resume<N>(self, parent: Result<(N, ParentNode), String>) -> (next: Result<
        (ListNodes, N),
        RpcError,
    >)
        ensures
            match parent {
                Err(message) => next is Err && next->Err_0@ == rpc::failed(message@),
                Ok((node, parent)) => {
                    &&& next is Ok
                    &&& next->Ok_0.0.request == self.request
                    &&& next->Ok_0.0.listing == navigation::listing_of(
                        self.request@.refresh,
                        parent,
                    )
                    &&& next->Ok_0.1 == node
                },
            },
    {
        match parent {
            Err(message) => Err(RpcError::request_failed(message)),
            Ok((node, parent)) => {
                let listing = self.request.listing(parent);
                Ok((ListNodes { request: self.request, listing }, node))
            },
        }
    }
}

/// The answer for the nodes that were listed. Where there are none to list, what became
/// of listing them does not matter.
pub open spec fn listed_answer(
    server: ServerState,
    request: DirectoryRequestView,
    listing: Listing,
    nodes: Result<Seq<ListedNodeView>, Seq<char>>,
) -> Result<Seq<DirectoryEntryView>, Failure> {
    if listing == Listing::Empty {
        navigation::presented(server, request, Seq::empty())
    } else {
        match nodes {
            Err(message) => Err(rpc::failed(message)),
            Ok(nodes) => navigation::presented(server, request, nodes),
        }
    }
}

impl ListNodes {
    /// Answers the request with what became of listing the nodes.
    pub fn finish(self, server: &Server, nodes: Result<Vec<ListedNode>, String>) -> (answer: Result<
        ReadDirectoryResult,
        RpcError,
    >)
        ensures
            model::outcome(answer) == listed_answer(
                server@,
                self.request@,
                self.listing,
                model::list_outcome(nodes),
            ),
    {
        let nodes = match self.listing {
            Listing::Empty => {
                let none: Vec<ListedNode> = Vec::new();
                assert(model::views(none@) =~= Seq::empty());
                none
            },
            _ => match nodes {
                Err(message) => {
                    return Err(RpcError::request_failed(message));
                },
                Ok(nodes) => nodes,
            },
        };
        server.present_directory(&self.request, nodes)
    }
}

/// What came of the steps that lead to a view. Those of steps that are not reached do not
/// matter.
pub struct ViewOutcomes<C, T> {
    pub project: FileOutcome<ProjectConfig>,
    pub user: FileOutcome<UserConfig>,
    pub destinations: FileOutcome<DestinationsConfig>,
    pub connected: Result<C, ContextError>,
    pub opened: Result<T, ContextError>,
}

/// The configuration for a request, given what became of the files.
pub open spec fn loaded_configuration<C, T>(
    server: ServerState,
    request: DirectoryRequestView,
    outcomes: ViewOutcomes<C, T>,
) -> Result<ResolvedSystemConfig, ConfigFault> {
    config::system_configuration(
        request.root,
        request.system,
        server.user_config_path,
        outcomes.project,
        outcomes.user,
        outcomes.destinations,
    )
}

/// All systems after the view for a request was looked up or opened, and the view.
pub open spec fn selected_view<C, T>(
    server: ServerState,
    contexts: Map<Seq<char>, ContextSlot<ContextState<C, T>>>,
    request: DirectoryRequestView,
    outcomes: ViewOutcomes<C, T>,
) -> (Map<Seq<char>, ContextSlot<ContextState<C, T>>>, Result<ViewState<T>, ContextFault>) {
    context::selected(
        contexts,
        request.system,
        request.root,
        navigation::renews_view(request),
        loaded_configuration(server, request, outcomes),
        model::failure(outcomes.connected),
        model::failure(outcomes.opened),
    )
}

/// All systems after a request to list a directory, and its answer, given what came of
/// its steps. The first step that fails decides the error. What became of resolving the
/// path and of listing the nodes is what the tree of the view said.
pub open spec fn directory_answer<C, T>(
    server: ServerState,
    contexts: Map<Seq<char>, ContextSlot<ContextState<C, T>>>,
    uri: Seq<char>,
    refresh: bool,
    outcomes: ViewOutcomes<C, T>,
    parent: Result<ParentNode, String>,
    nodes: Result<Vec<ListedNode>, String>,
) -> (Map<Seq<char>, ContextSlot<ContextState<C, T>>>, Result<Seq<DirectoryEntryView>, Failure>) {
    match navigation::requested_directory(server, uri, refresh) {
        Err(failure) => (contexts, Err(failure)),
        Ok(request) => {
            let (after, view) = selected_view(server, contexts, request, outcomes);
            let answer = match view {
                Err(fault) => Err(view_failure(fault)),
                Ok(_) => match parent {
                    Err(message) => Err(rpc::failed(message@)),
                    Ok(parent) => listed_answer(
                        server,
                        request,
                        navigation::listing_of(refresh, parent),
                        model::list_outcome(nodes),
                    ),
                },
            };
            (after, answer)
        },
    }
}

impl Server {
    /// Starts a request to list a directory.
    pub fn browse(&self, params: &ReadDirectoryParams) -> (first: Result<FindView, RpcError>)
        ensures
            (match first {
                Ok(step) => Ok(step.request@),
                Err(error) => Err(error@),
            }) == navigation::requested_directory(self@, params.uri@, params.refresh),
    {
        match self.request_directory(params) {
            Err(error) => Err(error),
            Ok(request) => Ok(FindView { request }),
        }
    }

    /// The view for a request whose steps led to the given outcomes. A view that is there
    /// is used without configuration. A missing one, or a refresh of the root, loads the
    /// configuration and opens a view.
    pub fn repository_view<'a, C, T>(
        &self,
        first: FindView,
        contexts: &'a mut SystemContextStore<SystemContext<C, T>>,
        outcomes: ViewOutcomes<C, T>,
    ) -> (view: Result<(ResolvePath, &'a SystemView<T>), RpcError>)
        ensures
            final(contexts).states() == selected_view(
                self@,
                old(contexts).states(),
                first.request@,
                outcomes,
            ).0,
            match selected_view(self@, old(contexts).states(), first.request@, outcomes).1 {
                Err(fault) => view is Err && view->Err_0@ == view_failure(fault),
                Ok(selected) => {
                    &&& view is Ok
                    &&& view->Ok_0.0.request == first.request
                    &&& view->Ok_0.1@ == selected
                },
            },
    {
        let found = match contexts.find_view(&first.request.system, &first.request.root) {
            Some(_) => Some(()),
            None => None,
        };
        let step = match first.resume(found) {
            Found::Use(step, _) => {
                let view = contexts.find_view(&step.request.system, &step.request.root).unwrap();
                return Ok((step, view));
            },
            Found::Load(step) => step,
        };
        let step = match step.resume(self, outcomes.project) {
            Err(error) => {
                return Err(error);
            },
            Ok(step) => step,
        };
        let step = match step.resume(outcomes.user) {
            Err(error) => {
                return Err(error);
            },
            Ok(step) => step,
        };
        let step = match step.resume(outcomes.destinations) {
            Err(error) => {
                return Err(error);
            },
            Ok(step) => step,
        };
        let opened = contexts.open_view(
            &step.request.system,
            &step.destination,
            outcomes.connected,
            &step.request.root,
            &step.mounts,
            outcomes.opened,
        );
        step.resume(opened)
    }

    /// Answers a request to list a directory whose steps led to the given outcomes, the
    /// last two of which are what the tree of the view said.
    pub fn read_directory<C, T>(
        &self,
        params: ReadDirectoryParams,
        contexts: &mut SystemContextStore<SystemContext<C, T>>,
        outcomes: ViewOutcomes<C, T>,
        parent: Result<ParentNode, String>,
        nodes: Result<Vec<ListedNode>, String>,
    ) -> (answer: Result<ReadDirectoryResult, RpcError>)
        ensures
            final(contexts).states() == directory_answer(
                self@,
                old(contexts).states(),
                params.uri@,
                params.refresh,
                outcomes,
                parent,
                nodes,
            ).0,
            model::outcome(answer) == directory_answer(
                self@,
                old(contexts).states(),
                params.uri@,
                params.refresh,
                outcomes,
                parent,
                nodes,
            ).1,
    {
        let first = match self.browse(&params) {
            Err(error) => {
                return Err(error);
            },
            Ok(step) => step,
        };
        let step = match self.repository_view(first, contexts, outcomes) {
            Err(error) => {
                return Err(error);
            },
            Ok((step, _)) => step,
        };
        let parent = match parent {
            Err(message) => Err(message),
            Ok(parent) => Ok(((), parent)),
        };
        match step.resume(parent) {
            Err(error) => Err(error),
            Ok((step, _)) => step.finish(self, nodes),
        }
    }
}

/// A view that is there is used without configuration: unless it is renewed, neither the
/// files nor a connection have a say, and nothing changes.
pub proof fn lemma_known_view_needs_no_configuration<C, T>(
    server: ServerState,
    contexts: Map<Seq<char>, ContextSlot<ContextState<C, T>>>,
    uri: Seq<char>,
    refresh: bool,
    outcomes: ViewOutcomes<C, T>,
    others: ViewOutcomes<C, T>,
    parent: Result<ParentNode, String>,
    nodes: Result<Vec<ListedNode>, String>,
)
    requires
        navigation::requested_directory(server, uri, refresh) matches Ok(request)
            ==> !navigation::renews_view(request) && context::is_browsed(
            contexts,
            request.system,
            request.root,
        ),
    ensures
        directory_answer(server, contexts, uri, refresh, outcomes, parent, nodes)
            == directory_answer(server, contexts, uri, refresh, others, parent, nodes),
        directory_answer(server, contexts, uri, refresh, outcomes, parent, nodes).0 == contexts,
{
}

/// A refresh of a root whose configuration cannot be loaded is refused and changes
/// nothing. A directory that was read before is then read from the same view, and is
/// answered as before where the tree of the view says the same.
pub proof fn lemma_failed_root_refresh_keeps_the_view<C, T>(
    server: ServerState,
    contexts: Map<Seq<char>, ContextSlot<ContextState<C, T>>>,
    uri: Seq<char>,
    outcomes: ViewOutcomes<C, T>,
    parent: Result<ParentNode, String>,
    nodes: Result<Vec<ListedNode>, String>,
    refresh_outcomes: ViewOutcomes<C, T>,
    refresh_parent: Result<ParentNode, String>,
    refresh_nodes: Result<Vec<ListedNode>, String>,
    later_outcomes: ViewOutcomes<C, T>,
)
    requires
        directory_answer(server, contexts, uri, false, outcomes, parent, nodes).1 is Ok,
        navigation::requested_directory(server, uri, true) matches Ok(request)
            ==> navigation::renews_view(request) && loaded_configuration(
            server,
            request,
            refresh_outcomes,
        ) is Err,
    ensures
        ({
            let (read, entries) = directory_answer(
                server,
                contexts,
                uri,
                false,
                outcomes,
                parent,
                nodes,
            );
            let (refreshed, refused) = directory_answer(
                server,
                read,
                uri,
                true,
                refresh_outcomes,
                refresh_parent,
                refresh_nodes,
            );
            let request = navigation::requested_directory(server, uri, false)->Ok_0;
            let renewal = navigation::requested_directory(server, uri, true)->Ok_0;
            let fault = loaded_configuration(server, renewal, refresh_outcomes)->Err_0;
            &&& refused == Err::<Seq<DirectoryEntryView>, Failure>(
                rpc::failed(config::fault_text(fault)),
            )
            &&& refreshed == read
            &&& selected_view(server, refreshed, request, later_outcomes).1 == selected_view(
                server,
                contexts,
                request,
                outcomes,
            ).1
            &&& directory_answer(server, refreshed, uri, false, later_outcomes, parent, nodes) == (
                read,
                entries,
            )
        }),
{
}

/// A failed request has the failure of its first failing step: configuration that gives
/// nothing for the destination is reported whatever a connection would have led to, and
/// changes nothing. A view that is not available is reported whatever its tree would have
/// held.
pub proof fn lemma_configuration_fails_before_connecting<C, T>(
    server: ServerState,
    contexts: Map<Seq<char>, ContextSlot<ContextState<C, T>>>,
    uri: Seq<char>,
    refresh: bool,
    outcomes: ViewOutcomes<C, T>,
    parent: Result<ParentNode, String>,
    nodes: Result<Vec<ListedNode>, String>,
)
    ensures
        navigation::requested_directory(server, uri, refresh) matches Ok(request) ==> {
            let configured = loaded_configuration(server, request, outcomes);
            let known = context::is_browsed(contexts, request.system, request.root);
            let loads = !known || navigation::renews_view(request);
            let view = selected_view(server, contexts, request, outcomes).1;
            let answer = directory_answer(server, contexts, uri, refresh, outcomes, parent, nodes);
            &&& (loads && configured is Err) ==> answer == (
                contexts,
                Err::<Seq<DirectoryEntryView>, Failure>(
                    rpc::failed(config::fault_text(configured->Err_0)),
                ),
            )
            &&& view is Err ==> answer.1 == Err::<Seq<DirectoryEntryView>, Failure>(
                rpc::failed(context::fault_text(view->Err_0)),
            )
        },
{
}

/// An address that is refused is refused in every state and changes nothing: neither the
/// connection nor the repository has a say.
pub proof fn lemma_bad_addresses_are_refused_first<C, T>(
    server: ServerState,
    contexts: Map<Seq<char>, ContextSlot<ContextState<C, T>>>,
    uri: Seq<char>,
    refresh: bool,
    outcomes: ViewOutcomes<C, T>,
    parent: Result<ParentNode, String>,
    nodes: Result<Vec<ListedNode>, String>,
)
    ensures
        uri::address_of(uri) matches Err(error) ==> directory_answer(
            server,
            contexts,
            uri,
            refresh,
            outcomes,
            parent,
            nodes,
        ) == (
            contexts,
            Err::<Seq<DirectoryEntryView>, Failure>(rpc::bad_params(uri::uri_error_text(error))),
        ),
        (uri::address_of(uri) matches Ok(address) && address.path is Document)
            ==> directory_answer(
            server,
            contexts,
            uri,
            refresh,
            outcomes,
            parent,
            nodes,
        ) == (
            contexts,
            Err::<Seq<DirectoryEntryView>, Failure>(
                rpc::bad_params("readDirectory requires a VFS URI"@),
            ),
        ),
{
}

/// A request to list a directory is answered by its steps in order: the address, the view,
/// the path in its tree, and the nodes that are listed there. The first that fails gives
/// the error. What is no directory has no entries, whatever listing it led to.
pub proof fn lemma_steps_answer_in_order<C, T>(
    server: ServerState,
    contexts: Map<Seq<char>, ContextSlot<ContextState<C, T>>>,
    uri: Seq<char>,
    refresh: bool,
    outcomes: ViewOutcomes<C, T>,
    parent: Result<ParentNode, String>,
    nodes: Result<Vec<ListedNode>, String>,
)
    ensures
        ({
            let (after, answer) = directory_answer(
                server,
                contexts,
                uri,
                refresh,
                outcomes,
                parent,
                nodes,
            );
            match navigation::requested_directory(server, uri, refresh) {
                Err(failure) => {
                    &&& after == contexts
                    &&& rpc::fails_with(answer, failure.code as int, failure.message)
                },
                Ok(request) => {
                    let (updated, view) = context::selected(
                        contexts,
                        request.system,
                        request.root,
                        refresh && request.path.len() == 0,
                        config::system_configuration(
                            request.root,
                            request.system,
                            server.user_config_path,
                            outcomes.project,
                            outcomes.user,
                            outcomes.destinations,
                        ),
                        model::failure(outcomes.connected),
                        model::failure(outcomes.opened),
                    );
                    &&& after == updated
                    &&& view matches Err(fault) ==> rpc::fails_with(
                        answer,
                        -32803,
                        context::fault_text(fault),
                    )
                    &&& view is Ok && parent is Err ==> rpc::fails_with(
                        answer,
                        -32803,
                        parent->Err_0@,
                    )
                    &&& view is Ok && parent is Ok ==> {
                        let empty = parent->Ok_0.is_directory == Some(false);
                        &&& empty ==> answer == navigation::presented(server, request, Seq::empty())
                        &&& !empty && nodes is Err ==> rpc::fails_with(
                            answer,
                            -32803,
                            nodes->Err_0@,
                        )
                        &&& !empty && nodes is Ok ==> answer == navigation::presented(
                            server,
                            request,
                            model::views(nodes->Ok_0@),
                        )
                    }
                },
            }
        }),
{
}

} // verus!

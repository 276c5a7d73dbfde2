//! Navigation of the virtual filesystem.
//!
//! A client names a directory by its address, which it can spell without state of the
//! server. What the repository answers is handed in by the caller, step by step.

use crate::config::project;
use crate::config::{
    load_local_project, DestinationId, FileOutcome, ProjectConfig, ProjectRoot, ProjectSystemConfig,
};
use crate::config;
use crate::model;
use crate::model::copy_texts;
use crate::repository::{Node, NodeKind, NodeKindView, NodeView};
use crate::rpc;
use crate::rpc::{Failure, RpcError};
use crate::server;
use crate::server::{NamespaceDelimiter, Server, ServerState};
use crate::text_map;
use crate::text_map::{TextEntry, TextMap};
use crate::uri;
use crate::uri::{Address, Place, ResourcePath, ResourceUri};
use vstd::prelude::*;

verus! {

/// Parameters of the request for the systems of a project. The project is that of the
/// connection.
#[derive(Clone, Copy, Debug)]
pub struct ProjectSystemsParams {}

/// The systems of a project for the client to present.
#[derive(Debug, Eq, PartialEq)]
pub struct ProjectSystemsResult {
    pub systems: Vec<ProjectSystem>,
}

/// A system that is part of a project.
#[derive(Debug, Eq, PartialEq)]
pub struct ProjectSystem {
    /// The name of the folder that serves as portal into this system. Defaults to the
    /// destination where no folder is configured.
    pub folder: String,
    /// The address to open with the folder.
    pub uri: String,
}

pub struct ProjectSystemView {
    pub folder: Seq<char>,
    pub uri: Seq<char>,
}

impl View for ProjectSystem {
    type V = ProjectSystemView;

    open spec fn view(&self) -> ProjectSystemView {
        ProjectSystemView { folder: self.folder@, uri: self.uri@ }
    }
}

impl View for ProjectSystemsResult {
    type V = Seq<ProjectSystemView>;

    open spec fn view(&self) -> Seq<ProjectSystemView> {
        model::views(self.systems@)
    }
}

/// How a system of a project is presented.
pub open spec fn portal_of(system: Seq<char>, config: ProjectSystemConfig) -> ProjectSystemView {
    ProjectSystemView {
        folder: match config.folder {
            Some(folder) => folder@,
            None => system,
        },
        uri: uri::spelling(Address { system, path: Place::Vfs(Seq::empty()) }),
    }
}

/// How the systems of a project are presented, in the order of their names.
pub open spec fn portals_of(systems: Map<Seq<char>, ProjectSystemConfig>) -> Seq<
    ProjectSystemView,
> {
    text_map::sorted_keys(systems).map_values(
        |system: Seq<char>| portal_of(system, systems[system]),
    )
}

/// The answer to a request for the systems of a project.
pub open spec fn systems_answer(
    server: ServerState,
    file: FileOutcome<ProjectConfig>,
) -> Result<Seq<ProjectSystemView>, Failure> {
    match server.project_root {
        None => Err(rpc::plain_bad_request()),
        Some(root) => match project::local_project(root, file) {
            Err(fault) => Err(rpc::failed(config::fault_text(fault))),
            Ok(project) => Ok(portals_of(project.systems@)),
        },
    }
}

/// Presents one system.
fn portal(entry: TextEntry<ProjectSystemConfig>) -> (system: ProjectSystem)
    ensures
        system@ == portal_of(entry.key@, entry.value),
{
    let TextEntry { key, value } = entry;
    let folder = match value.folder {
        Some(folder) => folder,
        None => key.clone(),
    };
    let path: Vec<String> = Vec::new();
    assert(model::views(path@) =~= Seq::empty());
    let uri = ResourceUri { system: DestinationId(key), path: ResourcePath::Vfs(path) };
    ProjectSystem { folder, uri: uri.to_string() }
}

/// Presents all systems, in the order of their names.
fn portals(systems: TextMap<ProjectSystemConfig>) -> (portals: Vec<ProjectSystem>)
    ensures
        model::views(portals@) == portals_of(systems@),
{
    let ghost wanted = portals_of(systems@);
    let entries = systems.into_entries();
    let mut portals: Vec<ProjectSystem> = Vec::new();
    for entry in walk: entries
        invariant
            walk.seq().len() == wanted.len(),
            forall|i: int|
                0 <= i < wanted.len() ==> wanted[i] == portal_of(
                    (#[trigger] walk.seq()[i]).key@,
                    walk.seq()[i].value,
                ),
            portals@.len() == walk.index(),
            forall|i: int| 0 <= i < portals@.len() ==> (#[trigger] portals@[i])@ == wanted[i],
    {
        assert(walk.seq()[walk.index()] == entry);
        portals.push(portal(entry));
    }
    assert(model::views(portals@) =~= wanted);
    portals
}

impl Server {
    /// Lists the systems of the project, given what became of its configuration file.
    /// Nothing but that file is needed.
    pub fn project_systems(
        &self,
        _params: ProjectSystemsParams,
        file: FileOutcome<ProjectConfig>,
    ) -> (answer: Result<ProjectSystemsResult, RpcError>)
        ensures
            model::outcome(answer) == systems_answer(self@, file),
    {
        let root = match self.project_root() {
            Err(error) => {
                return Err(error);
            },
            Ok(root) => root,
        };
        match load_local_project(root.as_path(), file) {
            Err(error) => Err(RpcError::request_failed(error.to_string())),
            Ok(project) => Ok(
                ProjectSystemsResult { systems: portals(project.systems) },
            ),
        }
    }
}

/// Parameters of the request to list a directory.
#[derive(Debug, Eq, PartialEq)]
pub struct ReadDirectoryParams {
    /// The address of a directory in the project view, such as
    /// `abap://DEV/vfs/Flight/Classes/`.
    pub uri: String,
    /// Whether to reload the directory if it had been loaded before.
    pub refresh: bool,
}

/// The entries of a directory.
#[derive(Debug, Eq, PartialEq)]
pub struct ReadDirectoryResult {
    pub entries: Vec<DirectoryEntry>,
}

/// One entry of a directory.
#[derive(Debug, Eq, PartialEq)]
pub struct DirectoryEntry {
    /// The address of the entry, used for further navigation. It may drift visually from
    /// the name, due to display preferences.
    pub uri: String,
    /// The display name.
    pub name: String,
    /// What the entry is, which decides what happens on navigation.
    pub kind: EntryKind,
}

/// Kinds of entries that editor clients understand.
#[derive(Clone, Copy, Debug, Eq, PartialEq, Structural)]
pub enum EntryKind {
    Folder,
    Package,
    Object,
}

pub struct DirectoryEntryView {
    pub uri: Seq<char>,
    pub name: Seq<char>,
    pub kind: EntryKind,
}

impl View for DirectoryEntry {
    type V = DirectoryEntryView;

    open spec fn view(&self) -> DirectoryEntryView {
        DirectoryEntryView { uri: self.uri@, name: self.name@, kind: self.kind }
    }
}

impl View for ReadDirectoryResult {
    type V = Seq<DirectoryEntryView>;

    open spec fn view(&self) -> Seq<DirectoryEntryView> {
        model::views(self.entries@)
    }
}

/// The kind under which a node is listed.
pub open spec fn entry_kind(kind: NodeKindView) -> EntryKind {
    match kind {
        NodeKindView::Package { .. } => EntryKind::Package,
        NodeKindView::Object => EntryKind::Object,
        _ => EntryKind::Folder,
    }
}

/// Whether the label of a node is a name of the system, rather than a label that a user
/// chose.
pub open spec fn is_technical(node: NodeView) -> bool {
    match node.kind {
        NodeKindView::Package { package } => package == node.label,
        NodeKindView::Object => true,
        _ => false,
    }
}

/// How a node below a path is listed, given the encoding of its label with parentheses.
pub open spec fn entry_of(
    system: Seq<char>,
    path: Seq<Seq<char>>,
    node: NodeView,
    delimiter: NamespaceDelimiter,
    encoded: Option<Seq<char>>,
) -> DirectoryEntryView {
    DirectoryEntryView {
        uri: uri::spelling(Address { system, path: Place::Vfs(path.push(node.label)) }),
        name: if is_technical(node) {
            server::formatted_name(delimiter, node.label, encoded)
        } else {
            node.label
        },
        kind: entry_kind(node.kind),
    }
}

impl DirectoryEntry {
    /// Lists a node below a path, given the encoding of its label with parentheses where
    /// it has one.
    pub fn assemble(
        system: DestinationId,
        path: &Vec<String>,
        node: Node,
        delimiter: NamespaceDelimiter,
        encoded: Option<String>,
    ) -> (entry: DirectoryEntry)
        ensures
            entry@ == entry_of(
                system@,
                model::views(path@),
                node@,
                delimiter,
                model::optional(encoded),
            ),
    {
        let Node { label, kind: node_kind } = node;
        // The label can just be appended to the path of the parent.
        let mut segments = copy_texts(path);
        let ghost parents = model::views(segments@);
        segments.push(label.clone());
        assert(model::views(segments@) =~= parents.push(label@));
        let uri = ResourceUri { system, path: ResourcePath::Vfs(segments) }.to_string();

        let (kind, technical) = match node_kind {
            NodeKind::Package { package } => (EntryKind::Package, package == label),
            NodeKind::Object => (EntryKind::Object, true),
            _ => (EntryKind::Folder, false),
        };
        let name = if technical {
            delimiter.format_name(label.as_str(), encoded)
        } else {
            label
        };
        DirectoryEntry { uri, name, kind }
    }
}

/// A node that the repository lists, with the encoding of its label with parentheses
/// where it has one.
pub struct ListedNode {
    pub node: Node,
    pub encoded: Option<String>,
}

pub struct ListedNodeView {
    pub node: NodeView,
    pub encoded: Option<Seq<char>>,
}

impl View for ListedNode {
    type V = ListedNodeView;

    open spec fn view(&self) -> ListedNodeView {
        ListedNodeView { node: self.node@, encoded: model::optional(self.encoded) }
    }
}

/// How nodes below a path are listed, in order.
pub open spec fn entries_of(
    system: Seq<char>,
    path: Seq<Seq<char>>,
    nodes: Seq<ListedNodeView>,
    delimiter: NamespaceDelimiter,
) -> Seq<DirectoryEntryView> {
    nodes.map_values(
        |listed: ListedNodeView| entry_of(system, path, listed.node, delimiter, listed.encoded),
    )
}

/// What a request to list a directory asks for.
pub struct DirectoryRequest {
    /// The destination of the directory.
    pub system: DestinationId,
    /// The labels that lead to the directory.
    pub path: Vec<String>,
    /// The project whose view holds the directory.
    pub root: ProjectRoot,
    /// Whether the directory is to be reloaded.
    pub refresh: bool,
}

pub struct DirectoryRequestView {
    pub system: Seq<char>,
    pub path: Seq<Seq<char>>,
    pub root: Seq<u8>,
    pub refresh: bool,
}

impl View for DirectoryRequest {
    type V = DirectoryRequestView;

    open spec fn view(&self) -> DirectoryRequestView {
        DirectoryRequestView {
            system: self.system@,
            path: model::views(self.path@),
            root: self.root@,
            refresh: self.refresh,
        }
    }
}

/// What a request asks for, or why it cannot be answered. The address is looked at
/// before the state of the connection.
pub open spec fn requested_directory(
    server: ServerState,
    uri: Seq<char>,
    refresh: bool,
) -> Result<DirectoryRequestView, Failure> {
    match uri::address_of(uri) {
        Err(error) => Err(rpc::bad_params(uri::uri_error_text(error))),
        Ok(address) => match address.path {
            Place::Document(_) => Err(rpc::bad_params("readDirectory requires a VFS URI"@)),
            Place::Vfs(path) => match server.project_root {
                None => Err(rpc::plain_bad_request()),
                Some(root) => Ok(
                    DirectoryRequestView { system: address.system, path, root, refresh },
                ),
            },
        },
    }
}

/// Whether the view of the project is to be renewed: a refresh of its root directory
/// does so. A refresh further down leaves the view alone, since the path could not be
/// resolved any more in a view with other mounts.
pub open spec fn renews_view(request: DirectoryRequestView) -> bool {
    request.refresh && request.path.len() == 0
}

/// What the tree of a view knows of the directory.
#[derive(Clone, Copy, Debug, Eq, PartialEq, Structural)]
pub struct ParentNode {
    /// Whether the node is a directory, where the tree has a node for it.
    pub is_directory: Option<bool>,
    /// Whether it is the root of the tree.
    pub is_root: bool,
}

/// How the children of a directory are found.
#[derive(Clone, Copy, Debug, Eq, PartialEq, Structural)]
pub enum Listing {
    /// There are none.
    Empty,
    /// They are read again.
    Refresh,
    /// They are read, unless they are known.
    Children,
}

/// How the children of a directory are found. What is no directory has none, and the
/// root has static children that cannot be read again.
pub open spec fn listing_of(refresh: bool, parent: ParentNode) -> Listing {
    if parent.is_directory == Some(false) {
        Listing::Empty
    } else if refresh && !parent.is_root {
        Listing::Refresh
    } else {
        Listing::Children
    }
}

/// The entries of a directory for a connection, or why they cannot be listed.
pub open spec fn presented(
    server: ServerState,
    request: DirectoryRequestView,
    nodes: Seq<ListedNodeView>,
) -> Result<Seq<DirectoryEntryView>, Failure> {
    match server.options {
        None => Err(rpc::bad_request("Options were not initialized"@)),
        Some(options) => Ok(
            entries_of(
                request.system,
                request.path,
                nodes,
                options.presentation.namespace_delimiter,
            ),
        ),
    }
}

impl DirectoryRequest {
    /// Whether the view of the project is to be renewed.
    pub fn renews_view(&self) -> (renews: bool)
        ensures
            renews == renews_view(self@),
    {
        self.refresh && self.path.len() == 0
    }

    /// How the children of the directory are found.
    pub fn listing(&self, parent: ParentNode) -> (listing: Listing)
        ensures
            listing == listing_of(self@.refresh, parent),
    {
        if let Some(false) = parent.is_directory {
            Listing::Empty
        } else if self.refresh && !parent.is_root {
            Listing::Refresh
        } else {
            Listing::Children
        }
    }

    /// Lists the nodes of the directory.
    fn entries(&self, nodes: Vec<ListedNode>, delimiter: NamespaceDelimiter) -> (entries: Vec<
        DirectoryEntry,
    >)
        ensures
            model::views(entries@) == entries_of(
                self@.system,
                self@.path,
                model::views(nodes@),
                delimiter,
            ),
    {
        let ghost all = model::views(nodes@);
        let ghost wanted = entries_of(self@.system, self@.path, all, delimiter);
        let mut entries: Vec<DirectoryEntry> = Vec::new();
        for listed in walk: nodes
            invariant
                all == model::views(walk.seq()),
                wanted == entries_of(self@.system, self@.path, all, delimiter),
                entries@.len() == walk.index(),
                forall|i: int| 0 <= i < entries@.len() ==> (#[trigger] entries@[i])@ == wanted[i],
        {
            let ghost at = walk.index();
            assert(all[at] == listed@);
            let entry = DirectoryEntry::assemble(
                self.system.clone(),
                &self.path,
                listed.node,
                delimiter,
                listed.encoded,
            );
            entries.push(entry);
        }
        assert(model::views(entries@) =~= wanted);
        entries
    }
}

impl Server {
    /// What a request to list a directory asks for.
    pub fn request_directory(&self, params: &ReadDirectoryParams) -> (request: Result<
        DirectoryRequest,
        RpcError,
    >)
        ensures
            model::outcome(request) == requested_directory(self@, params.uri@, params.refresh),
    {
        let uri = match ResourceUri::from_str(params.uri.as_str()) {
            Err(error) => {
                return Err(RpcError::invalid_params(error.to_string()));
            },
            Ok(uri) => uri,
        };
        // A document address cannot be used for navigation.
        let path = match uri.path {
            ResourcePath::Document(_) => {
                return Err(
                    RpcError::invalid_params("readDirectory requires a VFS URI".to_owned()),
                );
            },
            ResourcePath::Vfs(path) => path,
        };
        match self.project_root() {
            Err(error) => Err(error),
            Ok(root) => Ok(
                DirectoryRequest {
                    system: uri.system,
                    path,
                    root: root.clone(),
                    refresh: params.refresh,
                },
            ),
        }
    }

    /// Lists the nodes of a directory as the client prefers it.
    pub fn present_directory(&self, request: &DirectoryRequest, nodes: Vec<ListedNode>) -> (answer:
        Result<ReadDirectoryResult, RpcError>)
        ensures
            model::outcome(answer) == presented(self@, request@, model::views(nodes@)),
    {
        match self.options {
            None => Err(
                RpcError::invalid_request_because("Options were not initialized".to_owned()),
            ),
            Some(options) => Ok(
                ReadDirectoryResult {
                    entries: request.entries(nodes, options.presentation.namespace_delimiter),
                },
            ),
        }
    }
}

} // verus!

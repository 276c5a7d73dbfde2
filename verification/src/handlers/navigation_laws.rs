//! Laws of navigation: where listed addresses lead, and what presentation changes.

use crate::config;
use crate::config::project;
use crate::config::{FileOutcome, ProjectConfig, ProjectSystemConfig};
use crate::handlers::navigation;
use crate::handlers::navigation::{
    DirectoryEntryView, DirectoryRequestView, EntryKind, ListedNodeView, Listing, ParentNode,
    ProjectSystemView,
};
use crate::repository::{NodeKindView, NodeView};
use crate::rpc;
use crate::rpc::Failure;
use crate::server::{NamespaceDelimiter, ServerState};
use crate::text;
use crate::text_map;
use crate::uri;
use crate::uri::{Address, Place};
use crate::uri_laws;
use vstd::prelude::*;

verus! {

/// A listed entry leads to its node: asking for the address of the entry, on a connection
/// that is bound to a project, asks for the directory at the path of the parent followed
/// by the label.
pub proof fn lemma_entry_leads_to_its_node(
    server: ServerState,
    request: DirectoryRequestView,
    node: NodeView,
    delimiter: NamespaceDelimiter,
    encoded: Option<Seq<char>>,
    refresh: bool,
)
    requires
        server.project_root == Some(request.root),
        uri_laws::is_component_text(request.system),
        uri_laws::is_component_text(node.label),
        forall|i: int|
            0 <= i < request.path.len() ==> uri_laws::is_component_text(#[trigger] request.path[i]),
    ensures
        navigation::requested_directory(
            server,
            navigation::entry_of(request.system, request.path, node, delimiter, encoded).uri,
            refresh,
        ) == Ok::<DirectoryRequestView, Failure>(
            DirectoryRequestView {
                system: request.system,
                path: request.path.push(node.label),
                root: request.root,
                refresh,
            },
        ),
{
    let address = Address {
        system: request.system,
        path: Place::Vfs(request.path.push(node.label)),
    };
    assert(uri_laws::is_addressable(address));
    uri_laws::lemma_address_reads_back(address);
}

/// The portal of a system leads to the root directory of that system.
pub proof fn lemma_portal_leads_to_its_system(
    server: ServerState,
    root: Seq<u8>,
    system: Seq<char>,
    config: ProjectSystemConfig,
    refresh: bool,
)
    requires
        server.project_root == Some(root),
        uri_laws::is_component_text(system),
    ensures
        navigation::requested_directory(
            server,
            navigation::portal_of(system, config).uri,
            refresh,
        ) == Ok::<DirectoryRequestView, Failure>(
            DirectoryRequestView { system, path: Seq::empty(), root, refresh },
        ),
{
    let address = Address { system, path: Place::Vfs(Seq::empty()) };
    assert(uri_laws::is_addressable(address));
    uri_laws::lemma_address_reads_back(address);
}

/// Whatever a request asks for was spelled with texts that an address can carry, so that
/// what is listed below it leads back.
pub proof fn lemma_requested_paths_are_addressable(
    server: ServerState,
    uri: Seq<char>,
    refresh: bool,
)
    ensures
        navigation::requested_directory(server, uri, refresh) matches Ok(request) ==> {
            &&& uri_laws::is_component_text(request.system)
            &&& forall|i: int|
                0 <= i < request.path.len() ==> uri_laws::is_component_text(
                    #[trigger] request.path[i],
                )
        },
{
    if uri::address_of(uri) is Ok {
        uri_laws::lemma_parsed_is_addressable(uri);
    }
}

/// Presentation preferences change names only: the address and the kind of an entry do
/// not depend on them, nor does the name of an entry that carries a label of a user.
pub proof fn lemma_presentation_changes_names_only(
    system: Seq<char>,
    path: Seq<Seq<char>>,
    node: NodeView,
    delimiter: NamespaceDelimiter,
    encoded: Option<Seq<char>>,
    other_delimiter: NamespaceDelimiter,
    other_encoded: Option<Seq<char>>,
)
    ensures
        ({
            let one = navigation::entry_of(system, path, node, delimiter, encoded);
            let other = navigation::entry_of(system, path, node, other_delimiter, other_encoded);
            &&& one.uri == other.uri
            &&& one.kind == other.kind
            &&& !navigation::is_technical(node) ==> one.name == node.label && other.name
                == node.label
        }),
        node.kind matches NodeKindView::Package { package } ==> (navigation::is_technical(node)
            <==> package == node.label),
{
}

/// Different labels in a directory have different addresses, whatever they hold.
pub proof fn lemma_entries_have_addresses_of_their_own(
    system: Seq<char>,
    path: Seq<Seq<char>>,
    left: NodeView,
    right: NodeView,
    delimiter: NamespaceDelimiter,
    left_encoded: Option<Seq<char>>,
    right_encoded: Option<Seq<char>>,
)
    requires
        left.label != right.label,
    ensures
        navigation::entry_of(system, path, left, delimiter, left_encoded).uri
            != navigation::entry_of(system, path, right, delimiter, right_encoded).uri,
{
    let one = Address { system, path: Place::Vfs(path.push(left.label)) };
    let other = Address { system, path: Place::Vfs(path.push(right.label)) };
    if uri::spelling(one) == uri::spelling(other) {
        uri_laws::lemma_spelling_is_unique(one, other);
        assert(path.push(left.label).last() == path.push(right.label).last());
    }
}

/// A refresh below the root of a view neither renews the view nor, on what is no
/// directory, reads anything.
pub proof fn lemma_refresh_stays_local(request: DirectoryRequestView, parent: ParentNode)
    ensures
        request.path.len() > 0 ==> !navigation::renews_view(request),
        !request.refresh ==> !navigation::renews_view(request) && navigation::listing_of(
            request.refresh,
            parent,
        ) != Listing::Refresh,
        parent.is_root ==> navigation::listing_of(request.refresh, parent) != Listing::Refresh,
        parent.is_directory == Some(false) ==> navigation::listing_of(request.refresh, parent)
            == Listing::Empty,
{
}

/// The name of an entry follows from the kind of its node. An object, whatever its label
/// is, and a package that is labelled with its own name are shown by the given encoding
/// where the client prefers parentheses, and in lower case where it prefers slashes or
/// there is no encoding. All other nodes are shown by their label.
pub proof fn lemma_technical_names_are_formatted(
    system: Seq<char>,
    path: Seq<Seq<char>>,
    node: NodeView,
    delimiter: NamespaceDelimiter,
    encoded: Option<Seq<char>>,
)
    ensures
        ({
            let name = navigation::entry_of(system, path, node, delimiter, encoded).name;
            let technical = match node.kind {
                NodeKindView::Object => true,
                NodeKindView::Package { package } => package == node.label,
                NodeKindView::Mount => false,
                NodeKindView::Facet => false,
                NodeKindView::Other => false,
            };
            &&& technical && delimiter == NamespaceDelimiter::Slash ==> text::is_lowercase_of(
                name,
                node.label,
            )
            &&& technical && encoded is None ==> text::is_lowercase_of(name, node.label)
            &&& technical && delimiter == NamespaceDelimiter::Parentheses && encoded is Some
                ==> name == encoded->0
            &&& !technical ==> name == node.label
        }),
{
    text::lemma_lowercase(node.label);
}

/// Objects are listed as objects, packages as packages whatever their label is, and all
/// else as folders.
pub proof fn lemma_entry_kinds(
    system: Seq<char>,
    path: Seq<Seq<char>>,
    node: NodeView,
    delimiter: NamespaceDelimiter,
    encoded: Option<Seq<char>>,
)
    ensures
        ({
            let kind = navigation::entry_of(system, path, node, delimiter, encoded).kind;
            &&& kind == EntryKind::Object <==> node.kind is Object
            &&& kind == EntryKind::Package <==> node.kind is Package
            &&& kind == EntryKind::Folder <==> node.kind is Mount || node.kind is Facet
                || node.kind is Other
        }),
{
}

/// The address of an entry is that of the listed directory, followed by the spelling of
/// its label as one segment and a slash, whatever the node is.
pub proof fn lemma_entry_extends_its_directory(
    system: Seq<char>,
    path: Seq<Seq<char>>,
    node: NodeView,
    delimiter: NamespaceDelimiter,
    encoded: Option<Seq<char>>,
)
    ensures
        navigation::entry_of(system, path, node, delimiter, encoded).uri == uri::spelling(
            Address { system, path: Place::Vfs(path) },
        ) + uri::encoded_segment(node.label).push('/'),
{
    uri_laws::lemma_child_extends_the_directory(system, path, node.label);
}

/// Every listed node has one entry, at the same place, which depends on that node alone.
pub proof fn lemma_nodes_are_listed_in_order(
    system: Seq<char>,
    path: Seq<Seq<char>>,
    nodes: Seq<ListedNodeView>,
    delimiter: NamespaceDelimiter,
)
    ensures
        ({
            let entries = navigation::entries_of(system, path, nodes, delimiter);
            &&& entries.len() == nodes.len()
            &&& forall|i: int|
                0 <= i < nodes.len() ==> #[trigger] entries[i] == navigation::entry_of(
                    system,
                    path,
                    nodes[i].node,
                    delimiter,
                    nodes[i].encoded,
                )
        }),
{
}

/// A directory is presented as the client of the connection prefers it, below the path that
/// was asked for. Only a connection without options presents nothing.
pub proof fn lemma_directory_is_presented(
    server: ServerState,
    request: DirectoryRequestView,
    nodes: Seq<ListedNodeView>,
)
    ensures
        match server.options {
            Some(options) => navigation::presented(server, request, nodes) == Ok::<
                Seq<DirectoryEntryView>,
                Failure,
            >(
                navigation::entries_of(
                    request.system,
                    request.path,
                    nodes,
                    options.presentation.namespace_delimiter,
                ),
            ),
            None => rpc::fails_with(
                navigation::presented(server, request, nodes),
                -32600,
                "Options were not initialized"@,
            ),
        },
{
}

/// The portal of a system has the folder that is configured for the system, whatever else
/// is configured for it, and the name of the destination only where there is none. Its
/// address depends on the destination alone.
pub proof fn lemma_portals_have_the_configured_folder(
    system: Seq<char>,
    config: ProjectSystemConfig,
    other: ProjectSystemConfig,
)
    ensures
        config.folder matches Some(folder) ==> navigation::portal_of(system, config).folder
            == folder@,
        config.folder is None ==> navigation::portal_of(system, config).folder == system,
        navigation::portal_of(system, config).uri == navigation::portal_of(system, other).uri,
        navigation::portal_of(system, config).uri == "abap://"@ + uri::encoded_text(system, false)
            + "/vfs/"@,
{
    uri_laws::lemma_child_extends_the_directory(system, Seq::empty(), Seq::empty());
}

/// Every system of a project has one portal, in the order of the destination names, made
/// from what is configured under that name.
pub proof fn lemma_every_system_has_a_portal(
    systems: Map<Seq<char>, ProjectSystemConfig>,
    names: Seq<Seq<char>>,
)
    requires
        text_map::lists_keys(names, systems),
    ensures
        ({
            let portals = navigation::portals_of(systems);
            &&& portals.len() == names.len()
            &&& forall|i: int|
                0 <= i < names.len() ==> #[trigger] portals[i] == navigation::portal_of(
                    names[i],
                    systems[names[i]],
                )
            &&& forall|name: Seq<char>| #[trigger]
                systems.dom().contains(name) ==> portals.contains(
                    navigation::portal_of(name, systems[name]),
                )
        }),
{
    text_map::lemma_sorted_keys(names, systems);
    let portals = navigation::portals_of(systems);
    assert forall|name: Seq<char>| #[trigger]
        systems.dom().contains(name) implies portals.contains(
        navigation::portal_of(name, systems[name]),
    ) by {
        assert(names.contains(name));
        let i = choose|i: int| 0 <= i < names.len() && names[i] == name;
        assert(portals[i] == navigation::portal_of(name, systems[name]));
    }
}

/// The systems of a project are listed from its file alone, where the connection is bound
/// and the file holds a project. What is wrong with the file is what the request fails with.
pub proof fn lemma_systems_come_from_the_project_file(
    server: ServerState,
    file: FileOutcome<ProjectConfig>,
)
    ensures
        match server.project_root {
            None => rpc::fails_with(
                navigation::systems_answer(server, file),
                -32600,
                "Invalid request"@,
            ),
            Some(root) => match project::local_project(root, file) {
                Ok(project) => navigation::systems_answer(server, file) == Ok::<
                    Seq<ProjectSystemView>,
                    Failure,
                >(navigation::portals_of(project.systems@)),
                Err(fault) => rpc::fails_with(
                    navigation::systems_answer(server, file),
                    -32803,
                    config::fault_text(fault),
                ),
            },
        },
{
}

/// What is asked for is what the address names, below the root of the connection and with
/// the flag of the request. Texts that are no addresses and documents are unusable
/// parameters, and only then does a connection without a project matter.
pub proof fn lemma_request_follows_the_address(
    server: ServerState,
    uri: Seq<char>,
    refresh: bool,
)
    ensures
        ({
            let request = navigation::requested_directory(server, uri, refresh);
            match uri::address_of(uri) {
                Err(error) => rpc::fails_with(request, -32602, uri::uri_error_text(error)),
                Ok(address) => match address.path {
                    Place::Document(_) => rpc::fails_with(
                        request,
                        -32602,
                        "readDirectory requires a VFS URI"@,
                    ),
                    Place::Vfs(path) => match server.project_root {
                        None => rpc::fails_with(request, -32600, "Invalid request"@),
                        Some(root) => {
                            &&& request is Ok
                            &&& request->Ok_0.system == address.system
                            &&& request->Ok_0.path == path
                            &&& request->Ok_0.root == root
                            &&& request->Ok_0.refresh == refresh
                        },
                    },
                },
            }
        }),
{
}

/// A refresh renews the view exactly at the root, and reads children again exactly where
/// the tree has a directory, or no node, that is not its root. What is no directory has no
/// children, and all others are read unless they are known.
pub proof fn lemma_refresh_reads_again(request: DirectoryRequestView, parent: ParentNode)
    ensures
        navigation::renews_view(request) <==> request.refresh && request.path =~= Seq::empty(),
        ({
            let listing = navigation::listing_of(request.refresh, parent);
            let listable = match parent.is_directory {
                Some(is_directory) => is_directory,
                None => true,
            };
            &&& listing == Listing::Empty <==> !listable
            &&& listing == Listing::Refresh <==> listable && request.refresh && !parent.is_root
            &&& listing == Listing::Children <==> listable && (!request.refresh || parent.is_root)
        }),
{
}

} // verus!

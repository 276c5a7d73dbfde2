//! Answers of the protocol that addresses nodes by identifiers.
//!
//! An identifier is a prefix that says what it identifies, followed by the identity of a
//! node as JSON. The identity itself belongs to the repository tree and is not looked
//! into. What the repository answers is handed in by the caller.

use crate::config::FileOutcome;
use crate::dotfile;
use crate::dotfile::{load_project, ConfigError, ConfigFault, ProjectConfig, ProjectSystemConfig};
use crate::file_url;
use crate::model;
use crate::path::FilePath;
use crate::protocol::{
    DirectoryView, EntryType, FileSystemEntry, FileSystemEntryView, FileView,
    InitializationOptions, NamespaceDelimiter, ObjectCreationOptionsParams,
    ObjectCreationOptionsResult, ProjectSystem, ProjectSystemView, ProjectSystemsParams,
    ProjectSystemsResult, ReadDirectoryParams, ReadDirectoryResult, ReadFileParams, ReadFileResult,
    RefreshTransportsParams, RefreshTransportsResult,
};
use crate::repository::{Node, NodeKind, NodeView};
use crate::rpc;
use crate::rpc::{Failure, RpcError};
use crate::server;
use crate::server::{initialization_options, SuppliedOptions};
use crate::text;
use crate::text::{chars_of, find_char, starts_with, text_between};
use crate::text_map;
use crate::text_map::TextEntry;
use vstd::prelude::*;

verus! {

/// The prefix of identifiers of directories.
pub const NODE_ID_PREFIX: &'static str = "node:";

/// The prefix of identifiers of sources.
pub const SOURCE_ID_PREFIX: &'static str = "source:";

/// The identity that an identifier carries, or why it carries none of this kind.
pub open spec fn identity_of(id: Seq<char>, prefix: Seq<char>) -> Result<Seq<char>, Failure> {
    if prefix.is_prefix_of(id) {
        Ok(id.skip(prefix.len() as int))
    } else {
        Err(rpc::bad_params("resource ID has the wrong kind"@))
    }
}

/// The identifier of a node, given its identity as JSON.
pub fn encode_id(prefix: &str, identity: &str) -> (id: String)
    ensures
        id@ == prefix@ + identity@,
{
    let mut id = prefix.to_owned();
    id.append(identity);
    id
}

/// The identity that an identifier carries, as JSON.
pub fn decode_id(id: &str, prefix: &str) -> (identity: Result<String, RpcError>)
    ensures
        model::outcome(identity) == identity_of(id@, prefix@),
{
    let chars = chars_of(id);
    if !starts_with(&chars, prefix) {
        return Err(RpcError::invalid_params("resource ID has the wrong kind".to_owned()));
    }
    let len: usize = chars_of(prefix).len();
    let identity = text_between(&chars, len, chars.len());
    assert(identity@ =~= id@.skip(len as int));
    Ok(identity)
}

/// The identity of a directory, as JSON.
pub fn decode_node_id(id: &str) -> (identity: Result<String, RpcError>)
    ensures
        model::outcome(identity) == identity_of(id@, NODE_ID_PREFIX@),
{
    decode_id(id, NODE_ID_PREFIX)
}

/// The identity of a source, as JSON.
pub fn decode_source_id(id: &str) -> (identity: Result<String, RpcError>)
    ensures
        model::outcome(identity) == identity_of(id@, SOURCE_ID_PREFIX@),
{
    decode_id(id, SOURCE_ID_PREFIX)
}

/// An identifier carries the identity that it was made from, and one kind of identifier
/// is never taken for the other.
pub proof fn lemma_identifiers_read_back(prefix: Seq<char>, identity: Seq<char>)
    ensures
        identity_of(prefix + identity, prefix) == Ok::<Seq<char>, Failure>(identity),
        identity_of(NODE_ID_PREFIX@ + identity, SOURCE_ID_PREFIX@) is Err,
        identity_of(SOURCE_ID_PREFIX@ + identity, NODE_ID_PREFIX@) is Err,
{
    let id = prefix + identity;
    assert(prefix.is_prefix_of(id)) by {
        assert(prefix =~= id.subrange(0, prefix.len() as int));
    }
    assert(id.skip(prefix.len() as int) =~= identity);
    reveal_strlit("node:");
    reveal_strlit("source:");
    let node = NODE_ID_PREFIX@ + identity;
    let source = SOURCE_ID_PREFIX@ + identity;
    assert(NODE_ID_PREFIX@[0] == 'n');
    assert(SOURCE_ID_PREFIX@[0] == 's');
    if SOURCE_ID_PREFIX@.is_prefix_of(node) {
        assert(node.subrange(0, SOURCE_ID_PREFIX@.len() as int)[0] == node[0]);
    }
    if NODE_ID_PREFIX@.is_prefix_of(source) {
        assert(source.subrange(0, NODE_ID_PREFIX@.len() as int)[0] == source[0]);
    }
}

/// How the name of a source is presented. With slashes, a namespace that parentheses
/// enclose at the start is enclosed by slashes instead.
pub open spec fn presented_name(name: Seq<char>, delimiter: NamespaceDelimiter) -> Seq<char> {
    let rest = name.skip(1);
    let end = text::first_index(rest, ')');
    if delimiter == NamespaceDelimiter::Slash && name.len() > 0 && name[0] == '(' && end
        < rest.len() {
        "/"@ + rest.take(end) + "/"@ + rest.skip(end + 1)
    } else {
        name
    }
}

/// Presents the name of a source.
pub fn present_source_name(name: String, namespace_delimiter: NamespaceDelimiter) -> (presented:
    String)
    ensures
        presented@ == presented_name(name@, namespace_delimiter),
{
    let chars = chars_of(name.as_str());
    let len: usize = chars.len();
    if namespace_delimiter == NamespaceDelimiter::Slash && len > 0 && chars[0] == '(' {
        let end = find_char(&chars, ')', 1, len);
        let ghost rest = name@.skip(1);
        assert(chars@.subrange(1, len as int) =~= rest);
        if end < len {
            let mut presented = "/".to_owned();
            let namespace = text_between(&chars, 1, end);
            let local = text_between(&chars, end + 1, len);
            assert(namespace@ =~= rest.take(end - 1));
            assert(local@ =~= rest.skip(end - 1 + 1));
            presented.append(namespace.as_str());
            presented.append("/");
            presented.append(local.as_str());
            return presented;
        }
    }
    name
}

/// Presentation leaves names alone that start with no namespace, and with parentheses it
/// leaves all names alone.
pub proof fn lemma_plain_names_are_kept(name: Seq<char>, delimiter: NamespaceDelimiter)
    ensures
        presented_name(name, NamespaceDelimiter::Parentheses) == name,
        name.len() == 0 || name[0] != '(' ==> presented_name(name, delimiter) == name,
{
}

/// A name in parentheses is presented with the same namespace and local name between
/// slashes.
pub proof fn lemma_namespaces_are_presented(namespace: Seq<char>, local: Seq<char>)
    requires
        forall|i: int| 0 <= i < namespace.len() ==> namespace[i] != ')',
    ensures
        presented_name("("@ + namespace + ")"@ + local, NamespaceDelimiter::Slash) == "/"@
            + namespace + "/"@ + local,
{
    reveal_strlit("(");
    reveal_strlit(")");
    let name = "("@ + namespace + ")"@ + local;
    let rest = name.skip(1);
    assert(rest =~= namespace + ")"@ + local);
    let end = namespace.len() as int;
    assert forall|i: int| 0 <= i < end implies rest[i] != ')' by {
        assert(rest[i] == namespace[i]);
    }
    text::lemma_first_index_unique(rest, ')', end);
    assert(rest.take(end) =~= namespace);
    assert(rest.skip(end + 1) =~= local);
}

/// The kinds of objects that have a source.
#[derive(Clone, Copy, Debug, Eq, PartialEq, Structural)]
pub enum ObjectFormat {
    Program,
    Class,
}

/// The parts of an object that are sources on their own.
#[derive(Clone, Copy, Debug, Eq, PartialEq, Structural)]
pub enum SourceComponent {
    Program,
    ClassMain,
}

/// The main source of an object.
pub open spec fn main_component_of(format: ObjectFormat) -> SourceComponent {
    match format {
        ObjectFormat::Program => SourceComponent::Program,
        ObjectFormat::Class => SourceComponent::ClassMain,
    }
}

/// The extension of the main source of an object.
pub open spec fn extension_of(format: ObjectFormat) -> Seq<char> {
    match format {
        ObjectFormat::Program => "prog.abap"@,
        ObjectFormat::Class => "clas.abap"@,
    }
}

/// The main source of an object.
pub fn main_component(format: ObjectFormat) -> (component: SourceComponent)
    ensures
        component == main_component_of(format),
{
    match format {
        ObjectFormat::Program => SourceComponent::Program,
        ObjectFormat::Class => SourceComponent::ClassMain,
    }
}

/// The file of a main source: its name and its extension.
#[derive(Debug, Eq, PartialEq)]
pub struct SourceFile {
    pub name: String,
    pub extension: &'static str,
}

pub struct SourceFileView {
    pub name: Seq<char>,
    pub extension: Seq<char>,
}

impl View for SourceFile {
    type V = SourceFileView;

    open spec fn view(&self) -> SourceFileView {
        SourceFileView { name: self.name@, extension: self.extension@ }
    }
}

/// The file of the main source of an object, or why it has none: the object must have a
/// known format, and its main source a file name.
pub open spec fn main_source_of(
    format: Result<ObjectFormat, Seq<char>>,
    file_name: Result<Seq<char>, Seq<char>>,
) -> Result<SourceFileView, Seq<char>> {
    match format {
        Err(message) => Err(message),
        Ok(format) => match file_name {
            Err(message) => Err(message),
            Ok(name) => Ok(SourceFileView { name, extension: extension_of(format) }),
        },
    }
}

/// The file of the main source of an object, given its format and the file name of its
/// main component.
pub fn main_source_file(
    format: Result<ObjectFormat, String>,
    file_name: Result<String, String>,
) -> (file: Result<SourceFile, String>)
    ensures
        model::outcome(file) == main_source_of(model::failure(format), model::outcome(file_name)),
{
    let format = match format {
        Err(message) => {
            return Err(message);
        },
        Ok(format) => format,
    };
    match file_name {
        Err(message) => Err(message),
        Ok(name) => Ok(
            SourceFile {
                name,
                extension: match format {
                    ObjectFormat::Program => "prog.abap",
                    ObjectFormat::Class => "clas.abap",
                },
            },
        ),
    }
}

/// A node that the tree lists, with its identity as JSON and, for an object, its main
/// source where it has one.
pub struct ListedNode {
    pub identity: String,
    pub node: Node,
    pub source: Option<SourceFile>,
}

pub struct ListedNodeView {
    pub identity: Seq<char>,
    pub node: NodeView,
    pub source: Option<SourceFileView>,
}

impl View for ListedNode {
    type V = ListedNodeView;

    open spec fn view(&self) -> ListedNodeView {
        ListedNodeView {
            identity: self.identity@,
            node: self.node@,
            source: model::optional(self.source),
        }
    }
}

/// How a node is listed. An object is listed as the file of its main source, and not at
/// all where it has none. All else is a directory.
pub open spec fn entry_of(listed: ListedNodeView, delimiter: NamespaceDelimiter) -> Option<
    FileSystemEntryView,
> {
    if listed.node.kind is Object {
        match listed.source {
            None => None,
            Some(source) => Some(
                FileSystemEntryView {
                    id: SOURCE_ID_PREFIX@ + listed.identity,
                    name: presented_name(source.name, delimiter),
                    entry_type: EntryType::File,
                    extension: Some(source.extension),
                    virtual_folder: false,
                },
            ),
        }
    } else {
        Some(
            FileSystemEntryView {
                id: NODE_ID_PREFIX@ + listed.identity,
                name: listed.node.label,
                entry_type: EntryType::Directory,
                extension: None,
                virtual_folder: listed.node.kind is Mount || listed.node.kind is Facet,
            },
        )
    }
}

/// How nodes are listed, in order.
pub open spec fn entries_of(listed: Seq<ListedNodeView>, delimiter: NamespaceDelimiter) -> Seq<
    FileSystemEntryView,
>
    decreases listed.len(),
{
    if listed.len() == 0 {
        Seq::empty()
    } else {
        let earlier = entries_of(listed.drop_last(), delimiter);
        match entry_of(listed.last(), delimiter) {
            None => earlier,
            Some(entry) => earlier.push(entry),
        }
    }
}

/// Lists a node.
pub fn project_node(listed: ListedNode, namespace_delimiter: NamespaceDelimiter) -> (entry: Option<
    FileSystemEntry,
>)
    ensures
        model::optional(entry) == entry_of(listed@, namespace_delimiter),
{
    let ListedNode { identity, node, source } = listed;
    let Node { label, kind } = node;
    let virtual_folder = match kind {
        NodeKind::Object => {
            return match source {
                None => None,
                Some(source) => Some(
                    FileSystemEntry {
                        id: encode_id(SOURCE_ID_PREFIX, identity.as_str()),
                        name: present_source_name(source.name, namespace_delimiter),
                        entry_type: EntryType::File,
                        extension: Some(source.extension.to_owned()),
                        virtual_folder: false,
                    },
                ),
            };
        },
        NodeKind::Mount => true,
        NodeKind::Facet => true,
        _ => false,
    };
    Some(
        FileSystemEntry {
            id: encode_id(NODE_ID_PREFIX, identity.as_str()),
            name: label,
            entry_type: EntryType::Directory,
            extension: None,
            virtual_folder,
        },
    )
}

/// Lists nodes, in order.
fn project_nodes(nodes: Vec<ListedNode>, delimiter: NamespaceDelimiter) -> (entries: Vec<
    FileSystemEntry,
>)
    ensures
        model::views(entries@) == entries_of(model::views(nodes@), delimiter),
{
    let ghost all = model::views(nodes@);
    let mut entries: Vec<FileSystemEntry> = Vec::new();
    assert(all.take(0) =~= Seq::empty());
    assert(model::views(entries@) =~= Seq::empty());
    for listed in walk: nodes
        invariant
            all == model::views(walk.seq()),
            model::views(entries@) == entries_of(all.take(walk.index()), delimiter),
    {
        let ghost before = model::views(entries@);
        proof {
            let next = all.take(walk.index() + 1);
            assert(next.drop_last() =~= all.take(walk.index()));
            assert(next.last() == listed@);
        }
        if let Some(entry) = project_node(listed, delimiter) {
            entries.push(entry);
            assert(model::views(entries@) =~= before.push(entry@));
        }
    }
    assert(all.take(all.len() as int) =~= all);
    entries
}

/// How a system of a project is presented.
pub open spec fn system_of(name: Seq<char>, config: ProjectSystemConfig) -> ProjectSystemView {
    ProjectSystemView {
        name,
        folder: match config.folder {
            Some(folder) => folder@,
            None => name,
        },
        provider: model::optional(config.provider),
        destination: model::optional(config.destination),
    }
}

/// How the systems of a project are presented, in the order of their names.
pub open spec fn systems_of(systems: Map<Seq<char>, ProjectSystemConfig>) -> Seq<
    ProjectSystemView,
> {
    text_map::sorted_keys(systems).map_values(|name: Seq<char>| system_of(name, systems[name]))
}

/// The answer to a request for the systems of a project.
pub open spec fn systems_answer(
    loaded: Result<(Seq<u8>, ProjectConfig), ConfigFault>,
) -> Result<Seq<ProjectSystemView>, Failure> {
    match loaded {
        Err(fault) => Err(rpc::internal(dotfile::fault_text(fault))),
        Ok((_, project)) => Ok(systems_of(project.systems@)),
    }
}

/// Answers a request for the systems of a project that was loaded.
pub fn present_systems(loaded: Result<(FilePath, ProjectConfig), ConfigError>) -> (answer: Result<
    ProjectSystemsResult,
    RpcError,
>)
    ensures
        model::outcome(answer) == systems_answer(dotfile::project_outcome(loaded)),
{
    let project = match loaded {
        Err(error) => {
            return Err(RpcError::internal_error(error.to_string()));
        },
        Ok((_, project)) => project,
    };
    let ghost wanted = systems_of(project.systems@);
    let entries = project.systems.into_entries();
    let mut systems: Vec<ProjectSystem> = Vec::new();
    for entry in walk: entries
        invariant
            walk.seq().len() == wanted.len(),
            forall|i: int|
                0 <= i < wanted.len() ==> wanted[i] == system_of(
                    (#[trigger] walk.seq()[i]).key@,
                    walk.seq()[i].value,
                ),
            systems@.len() == walk.index(),
            forall|i: int| 0 <= i < systems@.len() ==> (#[trigger] systems@[i])@ == wanted[i],
    {
        assert(walk.seq()[walk.index()] == entry);
        let TextEntry { key, value } = entry;
        let folder = match value.folder {
            Some(folder) => folder,
            None => key.clone(),
        };
        let system = ProjectSystem {
            name: key,
            folder,
            provider: value.provider,
            destination: value.destination,
        };
        systems.push(system);
    }
    assert(model::views(systems@) =~= wanted);
    Ok(ProjectSystemsResult { systems })
}

/// The identity of the directory that a request names, or why it names none. Without an
/// identifier the root is meant.
pub open spec fn parent_of(parent_id: Option<Seq<char>>) -> Result<Option<Seq<char>>, Failure> {
    match parent_id {
        None => Ok(None),
        Some(id) => match identity_of(id, NODE_ID_PREFIX@) {
            Err(failure) => Err(failure),
            Ok(identity) => Ok(Some(identity)),
        },
    }
}

/// The answer to a request to list a directory, given what the steps led to: whether the
/// system is available, whether the identity could be read, and the nodes listed.
pub open spec fn directory_answer(
    delimiter: NamespaceDelimiter,
    parent_id: Option<Seq<char>>,
    context: Result<(), Seq<char>>,
    known: bool,
    nodes: Result<Seq<ListedNodeView>, Seq<char>>,
) -> Result<DirectoryView, Failure> {
    match context {
        Err(message) => Err(rpc::internal(message)),
        Ok(_) => match parent_of(parent_id) {
            Err(failure) => Err(failure),
            Ok(parent) => if parent is Some && !known {
                Err(rpc::bad_params("invalid resource ID"@))
            } else {
                match nodes {
                    Err(message) => Err(rpc::internal(message)),
                    Ok(nodes) => Ok(
                        DirectoryView { entries: entries_of(nodes, delimiter), modifiable: false },
                    ),
                }
            },
        },
    }
}

/// A source as the system gives it.
#[derive(Debug, Eq, PartialEq)]
pub struct SourceText {
    pub content: String,
    pub etag: Option<String>,
}

/// The answer to a request for a source, given what the steps led to.
pub open spec fn file_answer(
    resource_id: Seq<char>,
    context: Result<(), Seq<char>>,
    known: bool,
    file: Result<SourceFile, Seq<char>>,
    source: Result<SourceText, Seq<char>>,
) -> Result<FileView, Failure> {
    match context {
        Err(message) => Err(rpc::internal(message)),
        Ok(_) => match identity_of(resource_id, SOURCE_ID_PREFIX@) {
            Err(failure) => Err(failure),
            Ok(_) => if !known {
                Err(rpc::bad_params("invalid resource ID"@))
            } else {
                match file {
                    Err(message) => Err(rpc::internal(message)),
                    Ok(_) => match source {
                        Err(message) => Err(rpc::internal(message)),
                        Ok(source) => Ok(
                            FileView {
                                content: source.content@,
                                language_id: "abap"@,
                                revision: model::optional(source.etag),
                                writable: false,
                            },
                        ),
                    },
                }
            },
        },
    }
}

/// What a backend tells a client that it can do.
#[derive(Clone, Copy, Debug, Eq, PartialEq, Structural)]
pub struct BackendCapabilities {
    pub protocol_version: u32,
    pub project_configuration: bool,
    pub virtual_file_system: bool,
    pub namespace_presentation: bool,
    pub creation_options: bool,
    pub refresh_transports: bool,
    pub create_objects: bool,
}

/// What a backend can do.
pub open spec fn backend_capabilities() -> BackendCapabilities {
    BackendCapabilities {
        protocol_version: 1,
        project_configuration: true,
        virtual_file_system: true,
        namespace_presentation: true,
        creation_options: true,
        refresh_transports: true,
        create_objects: false,
    }
}

/// The options after an `initialize` request, and its answer. Options are set only once.
pub open spec fn initialized(
    options: Option<InitializationOptions>,
    supplied: SuppliedOptions,
) -> (Option<InitializationOptions>, Result<BackendCapabilities, Failure>) {
    match server::used_options(supplied) {
        Err(failure) => (options, Err(failure)),
        Ok(used) => if options is Some {
            (options, Err(rpc::plain_bad_request()))
        } else {
            (Some(used), Ok(backend_capabilities()))
        },
    }
}

/// The namespace delimiter that options ask for.
pub open spec fn delimiter_of(options: Option<InitializationOptions>) -> NamespaceDelimiter {
    match options {
        Some(options) => options.presentation.namespace_delimiter,
        None => NamespaceDelimiter::Parentheses,
    }
}

/// The state of one editor connection.
#[derive(Debug)]
pub struct Backend {
    pub initialization_options: Option<InitializationOptions>,
}

impl Backend {
    /// A connection that was not set up yet.
    pub fn new() -> (backend: Backend)
        ensures
            backend.initialization_options is None,
    {
        Backend { initialization_options: None }
    }

    /// Answers an `initialize` request.
    pub fn initialize(&mut self, supplied: SuppliedOptions) -> (answer: Result<
        BackendCapabilities,
        RpcError,
    >)
        ensures
            final(self).initialization_options == initialized(
                old(self).initialization_options,
                supplied,
            ).0,
            model::failure(answer) == initialized(old(self).initialization_options, supplied).1,
    {
        let options = match initialization_options(supplied) {
            Err(error) => {
                return Err(error);
            },
            Ok(options) => options,
        };
        if self.initialization_options.is_some() {
            return Err(RpcError::invalid_request());
        }
        self.initialization_options = Some(options);
        Ok(
            BackendCapabilities {
                protocol_version: 1,
                project_configuration: true,
                virtual_file_system: true,
                namespace_presentation: true,
                creation_options: true,
                refresh_transports: true,
                create_objects: false,
            },
        )
    }

    /// Lists the systems of a project, given what resolving its directory led to and what
    /// became of its file.
    pub fn project_systems(
        &self,
        params: ProjectSystemsParams,
        resolved: Result<FilePath, String>,
        file: FileOutcome<ProjectConfig>,
    ) -> (answer: Result<ProjectSystemsResult, RpcError>)
        ensures
            model::outcome(answer) == systems_answer(
                dotfile::loaded_project(
                    dotfile::root_of(
                        params.project_uri@,
                        file_url::file_url(file_url::url_parts(params.project_uri@)),
                        resolved,
                    ),
                    file,
                ),
            ),
    {
        present_systems(load_project(params.project_uri.as_str(), resolved, file))
    }

    /// Lists a directory, given what the steps led to.
    pub fn read_directory(
        &self,
        params: ReadDirectoryParams,
        context: Result<(), String>,
        known: bool,
        nodes: Result<Vec<ListedNode>, String>,
    ) -> (answer: Result<ReadDirectoryResult, RpcError>)
        ensures
            model::outcome(answer) == directory_answer(
                delimiter_of(self.initialization_options),
                model::optional(params.parent_id),
                model::failure(context),
                known,
                model::list_outcome(nodes),
            ),
    {
        if let Err(message) = context {
            return Err(RpcError::internal_error(message));
        }
        if let Some(id) = &params.parent_id {
            if let Err(error) = decode_node_id(id.as_str()) {
                return Err(error);
            }
            if !known {
                return Err(RpcError::invalid_params("invalid resource ID".to_owned()));
            }
        }
        let nodes = match nodes {
            Err(message) => {
                return Err(RpcError::internal_error(message));
            },
            Ok(nodes) => nodes,
        };
        let delimiter = match self.initialization_options {
            Some(options) => options.presentation.namespace_delimiter,
            None => NamespaceDelimiter::Parentheses,
        };
        Ok(ReadDirectoryResult { entries: project_nodes(nodes, delimiter), modifiable: false })
    }

    /// Reads a source, given what the steps led to.
    pub fn read_file(
        &self,
        params: ReadFileParams,
        context: Result<(), String>,
        known: bool,
        file: Result<SourceFile, String>,
        source: Result<SourceText, String>,
    ) -> (answer: Result<ReadFileResult, RpcError>)
        ensures
            model::outcome(answer) == file_answer(
                params.resource_id@,
                model::failure(context),
                known,
                model::failure(file),
                model::failure(source),
            ),
    {
        if let Err(message) = context {
            return Err(RpcError::internal_error(message));
        }
        if let Err(error) = decode_source_id(params.resource_id.as_str()) {
            return Err(error);
        }
        if !known {
            return Err(RpcError::invalid_params("invalid resource ID".to_owned()));
        }
        if let Err(message) = file {
            return Err(RpcError::internal_error(message));
        }
        match source {
            Err(message) => Err(RpcError::internal_error(message)),
            Ok(source) => Ok(
                ReadFileResult {
                    content: source.content,
                    language_id: "abap",
                    revision: source.etag,
                    writable: false,
                },
            ),
        }
    }

    /// Objects cannot be created.
    pub fn object_creation_options(&self, _params: ObjectCreationOptionsParams) -> (result:
        ObjectCreationOptionsResult)
        ensures
            !result.supported,
            result.message is Some,
            result.message->0@
                == "Object creation is unavailable until the ADT lifecycle APIs are implemented"@,
            result.context_token is None,
            result.revision is None,
            result.forms@.len() == 0,
            result.transports@.len() == 0,
    {
        ObjectCreationOptionsResult::unsupported(
            "Object creation is unavailable until the ADT lifecycle APIs are implemented".to_owned(),
        )
    }

    /// Transports cannot be found.
    pub fn refresh_transports(&self, _params: RefreshTransportsParams) -> (result:
        RefreshTransportsResult)
        ensures
            !result.supported,
            result.message is Some,
            result.message->0@
                == "Transport discovery is unavailable until the ADT CTS APIs are implemented"@,
            result.context_token is None,
            result.revision is None,
            result.transports@.len() == 0,
    {
        RefreshTransportsResult::unsupported(
            "Transport discovery is unavailable until the ADT CTS APIs are implemented".to_owned(),
        )
    }
}

} // verus!

//! What is answered by the protocol that addresses nodes by identifiers.

use crate::backend;
use crate::backend::{
    decode_id, decode_node_id, decode_source_id, encode_id, main_component, main_source_file,
    present_source_name, present_systems, project_node, Backend, BackendCapabilities, ListedNode,
    ObjectFormat, SourceComponent, SourceFile, SourceText,
};
use crate::backend_laws;
use crate::dotfile;
use crate::dotfile::{ConfigError, ProjectConfig};
use crate::model;
use crate::path::FilePath;
use crate::protocol::{
    EntryType, FileSystemEntry, InitializationOptions, NamespaceDelimiter,
    ObjectCreationOptionsParams, ObjectCreationOptionsResult, ProjectSystemsResult,
    ReadDirectoryParams, ReadDirectoryResult, ReadFileParams, ReadFileResult,
    RefreshTransportsParams, RefreshTransportsResult,
};
use crate::repository::NodeKind;
use crate::rpc::RpcError;
use crate::server::{initialization_options, SuppliedOptions};
use crate::text_map;
use vstd::prelude::*;

verus! {

/// An identifier carries the identity that it was made from, and is refused as one of
/// another kind.
pub proof fn lemma_identifier_reads_back(
    prefix: &str,
    identity: &str,
    id: String,
    given: &str,
    read: Result<String, RpcError>,
    other: &str,
    refused: Result<String, RpcError>,
)
    requires
        call_ensures(encode_id, (prefix, identity), id),
        given@ == id@,
        call_ensures(decode_id, (given, prefix), read),
        !prefix@.is_prefix_of(other@),
        call_ensures(decode_id, (other, prefix), refused),
    ensures
        read matches Ok(read) && read@ == identity@,
        refused matches Err(error) && error.code == -32602 && error.message@
            == "resource ID has the wrong kind"@,
{
    backend::lemma_identifiers_read_back(prefix@, identity@);
}

/// Directories and sources have identifiers that start differently, and each is read as
/// what it is.
pub proof fn lemma_kinds_of_identifiers(
    id: &str,
    identity: Seq<char>,
    node: Result<String, RpcError>,
    source: Result<String, RpcError>,
)
    requires
        call_ensures(decode_node_id, (id,), node),
        call_ensures(decode_source_id, (id,), source),
    ensures
        id@ == "node:"@ + identity ==> node is Ok && node->Ok_0@ == identity && source is Err,
        id@ == "source:"@ + identity ==> source is Ok && source->Ok_0@ == identity && node is Err,
{
    backend::lemma_identifiers_read_back("node:"@, identity);
    backend::lemma_identifiers_read_back("source:"@, identity);
}

/// A namespace in parentheses at the start of a name is presented between slashes where
/// the client prefers them. All other names are presented as they are.
pub proof fn lemma_presented_source_name(
    name: String,
    delimiter: NamespaceDelimiter,
    namespace: Seq<char>,
    local: Seq<char>,
    presented: String,
)
    requires
        call_ensures(present_source_name, (name, delimiter), presented),
        forall|i: int| 0 <= i < namespace.len() ==> namespace[i] != ')',
    ensures
        delimiter == NamespaceDelimiter::Slash && name@ == "("@ + namespace + ")"@ + local
            ==> presented@ == "/"@ + namespace + "/"@ + local,
        delimiter == NamespaceDelimiter::Parentheses ==> presented@ == name@,
        name@.len() == 0 || name@[0] != '(' ==> presented@ == name@,
        (forall|i: int| 0 < i < name@.len() ==> #[trigger] name@[i] != ')') ==> presented@
            == name@,
{
    backend::lemma_namespaces_are_presented(namespace, local);
    backend::lemma_plain_names_are_kept(name@, delimiter);
    if forall|i: int| 0 < i < name@.len() ==> #[trigger] name@[i] != ')' {
        backend_laws::lemma_open_namespaces_are_kept(name@, delimiter);
    }
}

/// A program has a program source and a class a class source, under the given name.
pub proof fn lemma_main_source(
    format: Result<ObjectFormat, String>,
    name: Result<String, String>,
    file: Result<SourceFile, String>,
)
    requires
        call_ensures(main_source_file, (format, name), file),
    ensures
        match (format, name) {
            (Err(message), _) => file is Err && file->Err_0@ == message@,
            (Ok(_), Err(message)) => file is Err && file->Err_0@ == message@,
            (Ok(format), Ok(name)) => {
                &&& file is Ok
                &&& file->Ok_0.name@ == name@
                &&& format == ObjectFormat::Program ==> file->Ok_0.extension@ == "prog.abap"@
                &&& format == ObjectFormat::Class ==> file->Ok_0.extension@ == "clas.abap"@
            },
        },
{
}

/// The main source of a program is the program, and that of a class its main part.
pub proof fn lemma_main_component(format: ObjectFormat, component: SourceComponent)
    requires
        call_ensures(main_component, (format,), component),
    ensures
        format == ObjectFormat::Program ==> component == SourceComponent::Program,
        format == ObjectFormat::Class ==> component == SourceComponent::ClassMain,
{
}

/// Whether an entry is the one of a node.
pub open spec fn is_entry_of(
    entry: Option<FileSystemEntry>,
    listed: ListedNode,
    delimiter: NamespaceDelimiter,
) -> bool {
    match listed.node.kind {
        NodeKind::Object => match listed.source {
            None => entry is None,
            Some(source) => entry matches Some(entry) && {
                &&& entry.id@ == "source:"@ + listed.identity@
                &&& entry.name@ == backend::presented_name(source.name@, delimiter)
                &&& entry.entry_type == EntryType::File
                &&& entry.extension matches Some(extension) && extension@ == source.extension@
                &&& !entry.virtual_folder
            },
        },
        _ => entry matches Some(entry) && {
            &&& entry.id@ == "node:"@ + listed.identity@
            &&& entry.name@ == listed.node.label@
            &&& entry.entry_type == EntryType::Directory
            &&& entry.extension is None
            &&& entry.virtual_folder <==> listed.node.kind is Mount || listed.node.kind is Facet
        },
    }
}

/// An object is listed as the file of its main source, and not at all without one. All
/// else is a directory, and mounts and facets are virtual ones.
pub proof fn lemma_projected_node(
    listed: ListedNode,
    delimiter: NamespaceDelimiter,
    entry: Option<FileSystemEntry>,
)
    requires
        call_ensures(project_node, (listed, delimiter), entry),
    ensures
        is_entry_of(entry, listed, delimiter),
{
}

/// Systems are presented in the order of their names, with all that is configured for
/// their presentation.
pub proof fn lemma_presented_systems(
    loaded: Result<(FilePath, ProjectConfig), ConfigError>,
    names: Seq<Seq<char>>,
    answer: Result<ProjectSystemsResult, RpcError>,
)
    requires
        loaded matches Ok((_, project)) ==> text_map::lists_keys(names, project.systems@),
        call_ensures(present_systems, (loaded,), answer),
    ensures
        match loaded {
            Err(error) => answer is Err && answer->Err_0.code == -32603 && answer->Err_0.message@
                == dotfile::fault_text(error@),
            Ok((_, project)) => {
                &&& answer is Ok
                &&& answer->Ok_0.systems@.len() == names.len()
                &&& forall|i: int|
                    0 <= i < names.len() ==> {
                        let config = project.systems@[names[i]];
                        &&& (#[trigger] answer->Ok_0.systems@[i]).name@ == names[i]
                        &&& config.folder matches Some(folder)
                            ==> answer->Ok_0.systems@[i].folder@ == folder@
                        &&& config.folder is None ==> answer->Ok_0.systems@[i].folder@ == names[i]
                        &&& model::optional(answer->Ok_0.systems@[i].provider) == model::optional(
                            config.provider,
                        )
                        &&& model::optional(answer->Ok_0.systems@[i].destination)
                            == model::optional(config.destination)
                    }
            },
        },
{
    if let Ok((_, project)) = loaded {
        let listed = answer->Ok_0.systems@;
        text_map::lemma_sorted_keys(names, project.systems@);
        model::lemma_views(listed);
        assert forall|i: int| 0 <= i < names.len() implies (#[trigger] listed[i])@
            == backend::system_of(names[i], project.systems@[names[i]]) by {
            assert(model::views(listed)[i] == listed[i]@);
        }
    }
}

/// A directory is listed in order, and cannot be changed. What fails on the way is
/// reported, the first failure first.
pub proof fn lemma_read_directory(
    server: Backend,
    params: ReadDirectoryParams,
    context: Result<(), String>,
    known: bool,
    nodes: Result<Vec<ListedNode>, String>,
    answer: Result<ReadDirectoryResult, RpcError>,
)
    requires
        call_ensures(Backend::read_directory, (&server, params, context, known, nodes), answer),
    ensures
        ({
            let wrong_kind = params.parent_id is Some && !"node:"@.is_prefix_of(
                params.parent_id->0@,
            );
            let delimiter = match server.initialization_options {
                Some(options) => options.presentation.namespace_delimiter,
                None => NamespaceDelimiter::Parentheses,
            };
            if context is Err {
                answer is Err && answer->Err_0.code == -32603 && answer->Err_0.message@
                    == context->Err_0@
            } else if wrong_kind {
                answer is Err && answer->Err_0.code == -32602 && answer->Err_0.message@
                    == "resource ID has the wrong kind"@
            } else if params.parent_id is Some && !known {
                answer is Err && answer->Err_0.code == -32602 && answer->Err_0.message@
                    == "invalid resource ID"@
            } else if nodes is Err {
                answer is Err && answer->Err_0.code == -32603 && answer->Err_0.message@
                    == nodes->Err_0@
            } else {
                &&& answer is Ok
                &&& !answer->Ok_0.modifiable
                &&& model::views(answer->Ok_0.entries@) == backend::entries_of(
                    model::views(nodes->Ok_0@),
                    delimiter,
                )
            }
        }),
{
}

/// A source is given with its text and revision, and cannot be written. What fails on the
/// way is reported, the first failure first.
pub proof fn lemma_read_file(
    server: Backend,
    params: ReadFileParams,
    context: Result<(), String>,
    known: bool,
    file: Result<SourceFile, String>,
    source: Result<SourceText, String>,
    answer: Result<ReadFileResult, RpcError>,
)
    requires
        call_ensures(
            Backend::read_file,
            (&server, params, context, known, file, source),
            answer,
        ),
    ensures
        if context is Err {
            answer is Err && answer->Err_0.code == -32603 && answer->Err_0.message@
                == context->Err_0@
        } else if !"source:"@.is_prefix_of(params.resource_id@) {
            answer is Err && answer->Err_0.code == -32602 && answer->Err_0.message@
                == "resource ID has the wrong kind"@
        } else if !known {
            answer is Err && answer->Err_0.code == -32602 && answer->Err_0.message@
                == "invalid resource ID"@
        } else if file is Err {
            answer is Err && answer->Err_0.code == -32603 && answer->Err_0.message@ == file->Err_0@
        } else if source is Err {
            answer is Err && answer->Err_0.code == -32603 && answer->Err_0.message@
                == source->Err_0@
        } else {
            &&& answer is Ok
            &&& answer->Ok_0.content@ == source->Ok_0.content@
            &&& answer->Ok_0.language_id@ == "abap"@
            &&& model::optional(answer->Ok_0.revision) == model::optional(source->Ok_0.etag)
            &&& !answer->Ok_0.writable
        },
{
}

/// A backend starts without options, takes those of its first usable request and keeps
/// them.
pub proof fn lemma_initialized_backend(
    fresh: Backend,
    server: &mut Backend,
    supplied: SuppliedOptions,
    options: Result<InitializationOptions, RpcError>,
    answer: Result<BackendCapabilities, RpcError>,
)
    requires
        call_ensures(Backend::new, (), fresh),
        call_ensures(initialization_options, (supplied,), options),
        call_ensures(Backend::initialize, (server, supplied), answer),
    ensures
        fresh.initialization_options is None,
        options is Err ==> answer is Err && answer->Err_0@ == options->Err_0@,
        options is Ok && old(server).initialization_options is None ==> {
            &&& final(server).initialization_options == Some(options->Ok_0)
            &&& answer is Ok
            &&& answer->Ok_0.protocol_version == 1
            &&& answer->Ok_0.project_configuration
            &&& answer->Ok_0.virtual_file_system
            &&& answer->Ok_0.namespace_presentation
            &&& answer->Ok_0.creation_options
            &&& answer->Ok_0.refresh_transports
            &&& !answer->Ok_0.create_objects
        },
        options is Ok && old(server).initialization_options is Some ==> answer is Err
            && answer->Err_0.code == -32600,
        answer is Err ==> final(server).initialization_options == old(
            server,
        ).initialization_options,
{
}

/// Neither creating objects nor finding transports is supported, and both say so without
/// offering anything.
pub proof fn lemma_unsupported_requests(
    server: Backend,
    creation: ObjectCreationOptionsParams,
    created: ObjectCreationOptionsResult,
    transports: RefreshTransportsParams,
    refreshed: RefreshTransportsResult,
)
    requires
        call_ensures(Backend::object_creation_options, (&server, creation), created),
        call_ensures(Backend::refresh_transports, (&server, transports), refreshed),
    ensures
        !created.supported,
        created.message matches Some(message) && message@
            == "Object creation is unavailable until the ADT lifecycle APIs are implemented"@,
        created.forms@.len() == 0,
        created.transports@.len() == 0,
        created.context_token is None,
        created.revision is None,
        !refreshed.supported,
        refreshed.message matches Some(message) && message@
            == "Transport discovery is unavailable until the ADT CTS APIs are implemented"@,
        refreshed.transports@.len() == 0,
        refreshed.context_token is None,
        refreshed.revision is None,
{
}

} // verus!

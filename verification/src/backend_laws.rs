//! Laws of the protocol that addresses nodes by identifiers: what is listed, and how.

use crate::backend;
use crate::backend::{ListedNodeView, ObjectFormat, SourceFile, SourceText};
use crate::dotfile;
use crate::dotfile::{ConfigFault, ProjectConfig, ProjectSystemConfig};
use crate::protocol::{
    EntryType, FileSystemEntryView, InitializationOptions, NamespaceDelimiter,
};
use crate::rpc;
use crate::server;
use crate::server::SuppliedOptions;
use crate::text;
use crate::text_map;
use vstd::prelude::*;

verus! {

/// Every node that is no object is listed as a directory under its label, whatever it is,
/// with an identifier that carries its identity. Mounts and facets, and only they, are
/// virtual.
pub proof fn lemma_directories_are_listed(listed: ListedNodeView, delimiter: NamespaceDelimiter)
    requires
        !(listed.node.kind is Object),
    ensures
        backend::entry_of(listed, delimiter) matches Some(entry) && {
            &&& entry.id == "node:"@ + listed.identity
            &&& entry.name == listed.node.label
            &&& entry.entry_type == EntryType::Directory
            &&& entry.extension is None
            &&& entry.virtual_folder <==> listed.node.kind is Mount || listed.node.kind is Facet
        },
{
}

/// An object is listed exactly where it has a main source, as the file of that source, with
/// its name as the client prefers it and its extension.
pub proof fn lemma_objects_are_listed_by_their_source(
    listed: ListedNodeView,
    delimiter: NamespaceDelimiter,
)
    requires
        listed.node.kind is Object,
    ensures
        listed.source is None ==> backend::entry_of(listed, delimiter) is None,
        listed.source matches Some(source) ==> (backend::entry_of(listed, delimiter) matches Some(
            entry,
        ) && {
            &&& entry.id == "source:"@ + listed.identity
            &&& entry.name == backend::presented_name(source.name, delimiter)
            &&& entry.entry_type == EntryType::File
            &&& entry.extension == Some(source.extension)
            &&& !entry.virtual_folder
        }),
{
}

/// Nodes are listed in order: the entries of two lists one after the other are those of the
/// first followed by those of the second, and a single node gives its entry or nothing.
pub proof fn lemma_nodes_are_listed_in_order(
    left: Seq<ListedNodeView>,
    right: Seq<ListedNodeView>,
    listed: ListedNodeView,
    delimiter: NamespaceDelimiter,
)
    ensures
        backend::entries_of(left + right, delimiter) == backend::entries_of(left, delimiter)
            + backend::entries_of(right, delimiter),
        backend::entry_of(listed, delimiter) matches Some(entry) ==> backend::entries_of(
            seq![listed],
            delimiter,
        ) == seq![entry],
        backend::entry_of(listed, delimiter) is None ==> backend::entries_of(
            seq![listed],
            delimiter,
        ) == Seq::<FileSystemEntryView>::empty(),
    decreases right.len(),
{
    assert(seq![listed].drop_last() =~= Seq::empty());
    assert(backend::entries_of(seq![listed].drop_last(), delimiter) =~= Seq::empty());
    assert(backend::entry_of(listed, delimiter) matches Some(entry) ==> backend::entries_of(
        seq![listed],
        delimiter,
    ) =~= seq![entry]);
    if right.len() == 0 {
        assert(left + right =~= left);
        assert(backend::entries_of(left, delimiter) + backend::entries_of(right, delimiter)
            =~= backend::entries_of(left, delimiter));
    } else {
        lemma_nodes_are_listed_in_order(left, right.drop_last(), listed, delimiter);
        assert((left + right).drop_last() =~= left + right.drop_last());
        assert((left + right).last() == right.last());
        assert(backend::entries_of(left + right, delimiter) =~= backend::entries_of(left, delimiter)
            + backend::entries_of(right, delimiter));
    }
}

/// A name that opens no namespace, or does not close it, is presented as it is.
pub proof fn lemma_open_namespaces_are_kept(name: Seq<char>, delimiter: NamespaceDelimiter)
    requires
        forall|i: int| 0 < i < name.len() ==> #[trigger] name[i] != ')',
    ensures
        backend::presented_name(name, delimiter) == name,
{
    let rest = name.skip(1);
    if name.len() > 0 {
        assert forall|i: int| 0 <= i < rest.len() implies rest[i] != ')' by {
            assert(rest[i] == name[i + 1]);
        }
        text::lemma_first_index_unique(rest, ')', rest.len() as int);
    }
}

/// The main source of a program is a program source and that of a class a class source,
/// under the given file name. Where the format is not known or there is no file name, that
/// is the reason, in this order.
pub proof fn lemma_main_source_follows_the_format(
    format: Result<ObjectFormat, Seq<char>>,
    name: Result<Seq<char>, Seq<char>>,
)
    ensures
        ({
            let file = backend::main_source_of(format, name);
            &&& format is Err ==> file is Err && file->Err_0 == format->Err_0
            &&& format is Ok && name is Err ==> file is Err && file->Err_0 == name->Err_0
            &&& format is Ok && name is Ok ==> {
                &&& file is Ok
                &&& file->Ok_0.name == name->Ok_0
                &&& format->Ok_0 == ObjectFormat::Program ==> file->Ok_0.extension == "prog.abap"@
                &&& format->Ok_0 == ObjectFormat::Class ==> file->Ok_0.extension == "clas.abap"@
            }
        }),
        backend::main_component_of(ObjectFormat::Program) == backend::SourceComponent::Program,
        backend::main_component_of(ObjectFormat::Class) == backend::SourceComponent::ClassMain,
{
}

/// A system is presented under its name, with the folder, the provider and the destination
/// that are configured for it, whatever else is. Only a missing folder is replaced, by the
/// name.
pub proof fn lemma_systems_are_presented(name: Seq<char>, config: ProjectSystemConfig)
    ensures
        ({
            let system = backend::system_of(name, config);
            &&& system.name == name
            &&& config.folder matches Some(folder) ==> system.folder == folder@
            &&& config.folder is None ==> system.folder == name
            &&& system.provider is Some <==> config.provider is Some
            &&& config.provider matches Some(provider) ==> system.provider == Some(provider@)
            &&& system.destination is Some <==> config.destination is Some
            &&& config.destination matches Some(destination) ==> system.destination == Some(
                destination@,
            )
        }),
{
}

/// All systems of a project are presented, in the order of their names. A project that
/// could not be loaded is a failure inside the server.
pub proof fn lemma_every_system_is_presented(
    root: Seq<u8>,
    project: ProjectConfig,
    names: Seq<Seq<char>>,
    fault: ConfigFault,
)
    requires
        text_map::lists_keys(names, project.systems@),
    ensures
        ({
            let answer = backend::systems_answer(Ok((root, project)));
            &&& answer is Ok
            &&& answer->Ok_0.len() == names.len()
            &&& forall|i: int|
                0 <= i < names.len() ==> #[trigger] answer->Ok_0[i] == backend::system_of(
                    names[i],
                    project.systems@[names[i]],
                )
        }),
        rpc::fails_with(
            backend::systems_answer(Err(fault)),
            -32603,
            dotfile::fault_text(fault),
        ),
{
    text_map::lemma_sorted_keys(names, project.systems@);
}

/// A directory is listed where the system is available, the identifier, if there is one, is
/// that of a directory whose identity can be read, and the nodes could be listed. The first
/// of these that fails gives the error.
pub proof fn lemma_directory_request(
    delimiter: NamespaceDelimiter,
    parent_id: Option<Seq<char>>,
    context: Result<(), Seq<char>>,
    known: bool,
    nodes: Result<Seq<ListedNodeView>, Seq<char>>,
)
    ensures
        ({
            let answer = backend::directory_answer(delimiter, parent_id, context, known, nodes);
            let wrong_kind = parent_id is Some && !"node:"@.is_prefix_of(parent_id->0);
            let unknown = parent_id is Some && !known;
            if context is Err {
                rpc::fails_with(answer, -32603, context->Err_0)
            } else if wrong_kind {
                rpc::fails_with(answer, -32602, "resource ID has the wrong kind"@)
            } else if unknown {
                rpc::fails_with(answer, -32602, "invalid resource ID"@)
            } else if nodes is Err {
                rpc::fails_with(answer, -32603, nodes->Err_0)
            } else {
                &&& answer is Ok
                &&& answer->Ok_0.entries == backend::entries_of(nodes->Ok_0, delimiter)
                &&& !answer->Ok_0.modifiable
            }
        }),
{
}

/// A source is read where the system is available, the identifier is that of a source whose
/// identity can be read, the object has a main source and its text could be read. The first
/// of these that fails gives the error. Text and revision are those of the system.
pub proof fn lemma_file_request(
    resource_id: Seq<char>,
    context: Result<(), Seq<char>>,
    known: bool,
    file: Result<SourceFile, Seq<char>>,
    source: Result<SourceText, Seq<char>>,
)
    ensures
        ({
            let answer = backend::file_answer(resource_id, context, known, file, source);
            if context is Err {
                rpc::fails_with(answer, -32603, context->Err_0)
            } else if !"source:"@.is_prefix_of(resource_id) {
                rpc::fails_with(answer, -32602, "resource ID has the wrong kind"@)
            } else if !known {
                rpc::fails_with(answer, -32602, "invalid resource ID"@)
            } else if file is Err {
                rpc::fails_with(answer, -32603, file->Err_0)
            } else if source is Err {
                rpc::fails_with(answer, -32603, source->Err_0)
            } else {
                let given = source->Ok_0;
                &&& answer is Ok
                &&& answer->Ok_0.content == given.content@
                &&& answer->Ok_0.language_id == "abap"@
                &&& answer->Ok_0.revision is Some <==> given.etag is Some
                &&& given.etag matches Some(etag) ==> answer->Ok_0.revision == Some(etag@)
                &&& !answer->Ok_0.writable
            }
        }),
{
}

/// Options are set by the first request that has usable ones, and are used from then on.
/// Until then names are shown with parentheses. A later request is out of place and
/// changes nothing.
pub proof fn lemma_options_are_set_once(
    options: Option<InitializationOptions>,
    supplied: SuppliedOptions,
)
    ensures
        ({
            let (after, answer) = backend::initialized(options, supplied);
            let used = server::used_options(supplied);
            &&& used is Err ==> after == options && answer is Err && answer->Err_0 == used->Err_0
            &&& used is Ok && options is Some ==> after == options && rpc::fails_with(
                answer,
                -32600,
                "Invalid request"@,
            )
            &&& used is Ok && options is None ==> {
                &&& after == Some(used->Ok_0)
                &&& backend::delimiter_of(after) == used->Ok_0.presentation.namespace_delimiter
                &&& answer is Ok
                &&& answer->Ok_0.protocol_version == 1
                &&& answer->Ok_0.project_configuration
                &&& answer->Ok_0.virtual_file_system
                &&& answer->Ok_0.namespace_presentation
                &&& answer->Ok_0.creation_options
                &&& answer->Ok_0.refresh_transports
                &&& !answer->Ok_0.create_objects
            }
        }),
        backend::delimiter_of(None) == NamespaceDelimiter::Parentheses,
        options matches Some(set) ==> backend::delimiter_of(options)
            == set.presentation.namespace_delimiter,
{
}

} // verus!

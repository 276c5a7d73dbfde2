//! The protocol that addresses nodes by identifiers.

use abap_lsp::backend::{
    decode_id, decode_node_id, decode_source_id, encode_id, main_component, main_source_file,
    present_source_name, present_systems, project_node, Backend, ListedNode, ObjectFormat,
    SourceComponent, SourceFile, SourceText, NODE_ID_PREFIX, SOURCE_ID_PREFIX,
};
use abap_lsp::config::FileOutcome;
use abap_lsp::dotfile::{ConfigError, ProjectConfig, ProjectSystemConfig};
use abap_lsp::path::FilePath;
use abap_lsp::protocol::{
    EntryType, NamespaceDelimiter, ObjectCreationOptionsParams, ProjectSystem,
    ProjectSystemsParams, ReadDirectoryParams, ReadFileParams, RefreshTransportsParams,
};
use abap_lsp::repository::{Node, NodeKind};
use abap_lsp::rpc::{INTERNAL_ERROR, INVALID_PARAMS, INVALID_REQUEST};
use abap_lsp::server::SuppliedOptions;
use abap_lsp::text_map::TextMap;

const IDENTITY: &str = r#"{"scope":"52f2732a-9c0d-4d90-a6ff-f6aa55759c06","index":42}"#;

fn listed(label: &str, kind: NodeKind, source: Option<SourceFile>) -> ListedNode {
    ListedNode {
        identity: IDENTITY.to_owned(),
        node: Node { label: label.to_owned(), kind },
        source,
    }
}

fn source(name: &str) -> SourceFile {
    main_source_file(Ok(ObjectFormat::Class), Ok(name.to_owned())).unwrap()
}

#[test]
fn node_ids_round_trip_without_exposing_identity_semantics() {
    let id: serde_json::Value = serde_json::from_str(IDENTITY).unwrap();
    let decoded = decode_node_id(&encode_id(NODE_ID_PREFIX, &id.to_string())).unwrap();
    assert_eq!(serde_json::from_str::<serde_json::Value>(&decoded).unwrap(), id);
    assert!(decode_source_id(&encode_id(NODE_ID_PREFIX, &id.to_string())).is_err());
}

#[test]
fn presentation_changes_namespaces_without_changing_plain_names() {
    assert_eq!(
        "/dmo/tatfta.clas.abap",
        present_source_name(
            "(dmo)tatfta.clas.abap".to_owned(),
            NamespaceDelimiter::Slash
        )
    );
    assert_eq!(
        "(dmo)tatfta.clas.abap",
        present_source_name(
            "(dmo)tatfta.clas.abap".to_owned(),
            NamespaceDelimiter::Parentheses
        )
    );
    assert_eq!(
        "zexample.prog.abap",
        present_source_name("zexample.prog.abap".to_owned(), NamespaceDelimiter::Slash)
    );
}

#[test]
fn only_an_enclosed_namespace_is_presented() {
    for (name, presented) in [
        ("", ""),
        ("(", "("),
        ("(dmo", "(dmo"),
        ("()", "//"),
        ("(a)(b)c", "/a/(b)c"),
        ("x(a)b", "x(a)b"),
    ] {
        assert_eq!(
            present_source_name(name.to_owned(), NamespaceDelimiter::Slash),
            presented
        );
    }
}

#[test]
fn identifiers_of_the_wrong_kind_are_refused() {
    let error = decode_source_id("node:{}").unwrap_err();
    assert_eq!(error.code, INVALID_PARAMS);
    assert_eq!(error.message, "resource ID has the wrong kind");
    assert!(decode_node_id("nod").is_err());
    assert_eq!(decode_node_id("node:").unwrap(), "");
    assert_eq!(encode_id(SOURCE_ID_PREFIX, "1"), "source:1");
    assert_eq!(decode_id("x:1", "x:").unwrap(), "1");
}

#[test]
fn sources_are_listed_as_files_and_all_else_as_directories() {
    let entry = project_node(
        listed("ZCL", NodeKind::Object, Some(source("(dmo)zcl.clas.abap"))),
        NamespaceDelimiter::Slash,
    )
    .unwrap();
    assert_eq!(entry.id, format!("source:{IDENTITY}"));
    assert_eq!(entry.name, "/dmo/zcl.clas.abap");
    assert_eq!(entry.entry_type, EntryType::File);
    assert_eq!(entry.extension.as_deref(), Some("clas.abap"));
    assert!(!entry.virtual_folder);

    assert!(project_node(listed("T", NodeKind::Object, None), NamespaceDelimiter::Slash).is_none());

    for (kind, virtual_folder) in [
        (NodeKind::Mount, true),
        (NodeKind::Facet, true),
        (NodeKind::Package { package: "P".to_owned() }, false),
        (NodeKind::Other, false),
    ] {
        let entry = project_node(listed("(a)b", kind, None), NamespaceDelimiter::Slash).unwrap();
        assert_eq!(entry.id, format!("node:{IDENTITY}"));
        assert_eq!(entry.name, "(a)b");
        assert_eq!(entry.entry_type, EntryType::Directory);
        assert_eq!(entry.extension, None);
        assert_eq!(entry.virtual_folder, virtual_folder);
    }
}

#[test]
fn main_sources_follow_the_format() {
    assert_eq!(main_component(ObjectFormat::Program), SourceComponent::Program);
    assert_eq!(main_component(ObjectFormat::Class), SourceComponent::ClassMain);
    let program = main_source_file(Ok(ObjectFormat::Program), Ok("z.prog.abap".to_owned())).unwrap();
    assert_eq!(program.name, "z.prog.abap");
    assert_eq!(program.extension, "prog.abap");
    assert_eq!(
        main_source_file(Err("format".to_owned()), Err("name".to_owned())),
        Err("format".to_owned())
    );
    assert_eq!(
        main_source_file(Ok(ObjectFormat::Class), Err("name".to_owned())),
        Err("name".to_owned())
    );
}

fn directory_params(parent_id: Option<&str>) -> ReadDirectoryParams {
    ReadDirectoryParams {
        project_uri: "file:///p".to_owned(),
        system: "S4".to_owned(),
        parent_id: parent_id.map(str::to_owned),
    }
}

#[test]
fn directories_are_listed_in_order_without_objects_that_have_no_source() {
    let backend = Backend::new();
    let nodes = vec![
        listed("M", NodeKind::Mount, None),
        listed("T", NodeKind::Object, None),
        listed("Z", NodeKind::Object, Some(source("(n)z.clas.abap"))),
    ];
    let result = backend
        .read_directory(directory_params(None), Ok(()), false, Ok(nodes))
        .unwrap();
    assert!(!result.modifiable);
    let names: Vec<_> = result.entries.iter().map(|entry| entry.name.as_str()).collect();
    assert_eq!(names, ["M", "(n)z.clas.abap"]);
}

#[test]
fn the_first_failing_step_answers_a_listing() {
    let backend = Backend::new();
    let failed = |parent, context, known, nodes| {
        let error = backend.read_directory(directory_params(parent), context, known, nodes).unwrap_err();
        (error.code, error.message)
    };
    assert_eq!(
        failed(Some("source:1"), Err("context".to_owned()), false, Err("nodes".to_owned())),
        (INTERNAL_ERROR, "context".to_owned())
    );
    assert_eq!(
        failed(Some("source:1"), Ok(()), false, Err("nodes".to_owned())),
        (INVALID_PARAMS, "resource ID has the wrong kind".to_owned())
    );
    assert_eq!(
        failed(Some("node:1"), Ok(()), false, Err("nodes".to_owned())),
        (INVALID_PARAMS, "invalid resource ID".to_owned())
    );
    assert_eq!(
        failed(Some("node:1"), Ok(()), true, Err("nodes".to_owned())),
        (INTERNAL_ERROR, "nodes".to_owned())
    );
}

#[test]
fn sources_are_read_only_abap() {
    let backend = Backend::new();
    let params = |id: &str| ReadFileParams {
        project_uri: "file:///p".to_owned(),
        system: "S4".to_owned(),
        resource_id: id.to_owned(),
    };
    let text = || SourceText { content: "REPORT z.".to_owned(), etag: Some("e1".to_owned()) };
    let file = || Ok(source("z.clas.abap"));
    let result = backend
        .read_file(params("source:1"), Ok(()), true, file(), Ok(text()))
        .unwrap();
    assert_eq!(result.content, "REPORT z.");
    assert_eq!(result.language_id, "abap");
    assert_eq!(result.revision.as_deref(), Some("e1"));
    assert!(!result.writable);

    let failed = |id: &str, context, known, file, source| {
        let error = backend.read_file(params(id), context, known, file, source).unwrap_err();
        (error.code, error.message)
    };
    assert_eq!(
        failed("node:1", Err("c".to_owned()), false, Err("f".to_owned()), Err("s".to_owned())),
        (INTERNAL_ERROR, "c".to_owned())
    );
    assert_eq!(
        failed("node:1", Ok(()), false, Err("f".to_owned()), Err("s".to_owned())).0,
        INVALID_PARAMS
    );
    assert_eq!(
        failed("source:1", Ok(()), false, Err("f".to_owned()), Err("s".to_owned())),
        (INVALID_PARAMS, "invalid resource ID".to_owned())
    );
    assert_eq!(
        failed("source:1", Ok(()), true, Err("f".to_owned()), Err("s".to_owned())),
        (INTERNAL_ERROR, "f".to_owned())
    );
    assert_eq!(
        failed("source:1", Ok(()), true, file(), Err("s".to_owned())),
        (INTERNAL_ERROR, "s".to_owned())
    );
}

#[test]
fn options_are_set_once() {
    let mut backend = Backend::new();
    let error = backend.initialize(SuppliedOptions::Malformed("bad".to_owned())).unwrap_err();
    assert_eq!((error.code, error.message.as_str()), (INVALID_PARAMS, "bad"));
    let capabilities = backend
        .initialize(SuppliedOptions::Given(Some(NamespaceDelimiter::Slash)))
        .unwrap();
    assert_eq!(capabilities.protocol_version, 1);
    assert!(capabilities.project_configuration);
    assert!(capabilities.virtual_file_system);
    assert!(capabilities.namespace_presentation);
    assert!(capabilities.creation_options);
    assert!(capabilities.refresh_transports);
    assert!(!capabilities.create_objects);
    let error = backend.initialize(SuppliedOptions::Missing).unwrap_err();
    assert_eq!((error.code, error.message.as_str()), (INVALID_REQUEST, "Invalid request"));
    let nodes = vec![listed("Z", NodeKind::Object, Some(source("(n)z.clas.abap")))];
    let result = backend.read_directory(directory_params(None), Ok(()), true, Ok(nodes)).unwrap();
    assert_eq!(result.entries[0].name, "/n/z.clas.abap");
}

fn project() -> ProjectConfig {
    let mut systems = TextMap::new();
    for (name, folder, destination) in
        [("S4", Some("SAP-DEV"), Some("DEV")), ("A4H", None, None)]
    {
        systems.insert(
            name.to_owned(),
            ProjectSystemConfig {
                folder: folder.map(str::to_owned),
                provider: None,
                destination: destination.map(str::to_owned),
                mounts: Vec::new(),
            },
        );
    }
    ProjectConfig::new(None, systems)
}

#[test]
fn systems_are_listed_by_name_with_their_folder() {
    let expected = [
        ProjectSystem {
            name: "A4H".to_owned(),
            folder: "A4H".to_owned(),
            provider: None,
            destination: None,
        },
        ProjectSystem {
            name: "S4".to_owned(),
            folder: "SAP-DEV".to_owned(),
            provider: None,
            destination: Some("DEV".to_owned()),
        },
    ];
    let root = FilePath::from_text("/p");
    assert_eq!(present_systems(Ok((root.clone(), project()))).unwrap().systems, expected);
    let params = || ProjectSystemsParams { project_uri: "file:///p".to_owned() };
    let answer = Backend::new().project_systems(params(), Ok(root), FileOutcome::Parsed(project()));
    assert_eq!(answer.unwrap().systems, expected);

    let error = present_systems(Err(ConfigError::EmptyPackage)).unwrap_err();
    assert_eq!(
        (error.code, error.message.as_str()),
        (INTERNAL_ERROR, "package mount names must not be empty")
    );
}

#[test]
fn creation_is_not_available() {
    let backend = Backend::new();
    let result = backend.object_creation_options(ObjectCreationOptionsParams {
        project_uri: "file:///p".to_owned(),
        system: "S4".to_owned(),
        parent_id: None,
    });
    assert!(!result.supported);
    assert_eq!(
        result.message.as_deref(),
        Some("Object creation is unavailable until the ADT lifecycle APIs are implemented")
    );
    assert_eq!(result.context_token, None);
    assert_eq!(result.revision, None);
    assert!(result.forms.is_empty() && result.transports.is_empty());

    let result = backend.refresh_transports(RefreshTransportsParams {
        project_uri: "file:///p".to_owned(),
        system: "S4".to_owned(),
        parent_id: None,
        context_token: "t".to_owned(),
        revision: "1".to_owned(),
    });
    assert!(!result.supported);
    assert_eq!(
        result.message.as_deref(),
        Some("Transport discovery is unavailable until the ADT CTS APIs are implemented")
    );
    assert_eq!(result.context_token, None);
    assert_eq!(result.revision, None);
    assert!(result.transports.is_empty());
}

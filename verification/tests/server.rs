//! Setting up an editor connection.

use abap_lsp::config::ProjectRoot;
use abap_lsp::file_url::FileUrl;
use abap_lsp::lifecycle::ConnectionEvent;
use abap_lsp::path::FilePath;
use abap_lsp::rpc::{RpcError, INVALID_PARAMS, INVALID_REQUEST};
use abap_lsp::server::{
    canonicalize_project_uri, client_project_root, initialization_options, project_directory,
    root_from, select_project_uri, InitializationOptions, NamespaceDelimiter, Resolution, Server,
    SuppliedOptions, PROJECT_SYSTEMS_METHOD, READ_DIRECTORY_METHOD,
};

fn path(text: &str) -> FilePath {
    FilePath::from_text(text)
}

fn server() -> Server {
    Server::new(path("/u/config.toml"))
}

#[test]
fn initialization_options_default_to_parentheses() {
    let options = initialization_options(SuppliedOptions::Given(None)).unwrap();
    assert_eq!(
        NamespaceDelimiter::Parentheses,
        options.presentation.namespace_delimiter
    );
    let options =
        initialization_options(SuppliedOptions::Given(Some(NamespaceDelimiter::Slash))).unwrap();
    assert_eq!(
        NamespaceDelimiter::Slash,
        options.presentation.namespace_delimiter
    );
    let options = initialization_options(SuppliedOptions::Missing).unwrap();
    assert_eq!(options, InitializationOptions::default());
    let error = initialization_options(SuppliedOptions::Malformed("why".to_owned())).unwrap_err();
    assert_eq!(error, RpcError { code: INVALID_PARAMS, message: "why".to_owned() });
}

#[test]
fn unsupported_names_remain_readable_in_repository_listings() {
    for delimiter in [NamespaceDelimiter::Parentheses, NamespaceDelimiter::Slash] {
        assert_eq!(delimiter.format_name("<MEMBER>", None), "<member>");
    }
}

#[test]
fn technical_names_are_encoded_with_parentheses_only() {
    let encoded = || Some("(dmo)flight".to_owned());
    assert_eq!(
        NamespaceDelimiter::Parentheses.format_name("/DMO/FLIGHT", encoded()),
        "(dmo)flight"
    );
    assert_eq!(NamespaceDelimiter::Slash.format_name("/DMO/FLIGHT", encoded()), "/dmo/flight");
}

#[test]
fn project_uri_decodes_spaces_and_canonicalizes_paths() {
    let uri = url::Url::from_directory_path("/tmp/ziege project 1/.").unwrap();
    assert!(uri.as_str().contains("%20"));
    let directory = project_directory(uri.as_str()).unwrap();
    assert!(directory.display().starts_with("/tmp/ziege project 1/"));
    assert_eq!(
        canonicalize_project_uri(uri.as_str(), Resolution::Directory(path("/tmp/ziege project 1")))
            .unwrap()
            .as_path(),
        &path("/tmp/ziege project 1")
    );
}

#[test]
fn project_uri_rejects_paths_and_remote_schemes() {
    for uri in ["/home/user/project", "https://example.invalid/project"] {
        let error =
            canonicalize_project_uri(uri, Resolution::Directory(path("/home"))).unwrap_err();
        assert_eq!(error.code, INVALID_PARAMS);
    }
    assert_eq!(
        project_directory("/home/user/project").unwrap_err().message,
        "Invalid project URI `/home/user/project`"
    );
    assert_eq!(
        project_directory("https://example.invalid/project").unwrap_err().message,
        "Project URI must identify a local file directory: `https://example.invalid/project`"
    );
}

#[test]
fn project_directories_must_exist() {
    let resolve = |resolution| root_from("uri", FileUrl::Local(path("/a b")), resolution);
    assert_eq!(
        resolve(Resolution::Failed("gone".to_owned())).unwrap_err(),
        RpcError {
            code: INVALID_PARAMS,
            message: "Cannot resolve project directory `/a b`: gone".to_owned(),
        }
    );
    assert_eq!(
        resolve(Resolution::NotADirectory(path("/a"))).unwrap_err(),
        RpcError {
            code: INVALID_PARAMS,
            message: "Project URI must identify a directory".to_owned(),
        }
    );
    assert_eq!(resolve(Resolution::Directory(path("/c"))).unwrap(), ProjectRoot(path("/c")));
    let invalid = root_from("uri", FileUrl::Invalid, Resolution::Failed("gone".to_owned()));
    assert_eq!(invalid.unwrap_err().message, "Invalid project URI `uri`");
}

#[test]
fn initialize_requires_one_project_and_accepts_legacy_root_uri() {
    let uri = url::Url::from_directory_path("/work").unwrap().to_string();
    let root = || Resolution::Directory(path("/work"));
    for (folders, legacy) in [
        (Some(vec![uri.clone()]), None),
        (None, Some(uri.clone())),
        (Some(Vec::new()), Some(uri.clone())),
        (Some(vec![uri.clone()]), Some("ignored".to_owned())),
    ] {
        assert_eq!(
            client_project_root(&folders, &legacy, root()).unwrap().as_path(),
            &path("/work")
        );
    }
    let error = client_project_root(&None, &None, root()).unwrap_err();
    assert_eq!(error.message, "Ziege requires one project root during initialize");
    assert_eq!(error.code, INVALID_PARAMS);
    let error = client_project_root(&Some(vec![uri.clone(), uri.clone()]), &Some(uri), root())
        .unwrap_err();
    assert_eq!(error.message, "Use one Ziege connection per project root");
    assert_eq!(error.code, INVALID_PARAMS);
    assert_eq!(select_project_uri(&None, &Some("x".to_owned())).unwrap(), "x");
}

#[test]
fn a_connection_is_set_up_once() {
    let mut server = server();
    let error = server.project_root().unwrap_err();
    assert_eq!((error.code, error.message.as_str()), (INVALID_REQUEST, "Invalid request"));

    let refused = RpcError::invalid_params("root".to_owned());
    let error = server
        .initialize(Err(refused), SuppliedOptions::Malformed("options".to_owned()))
        .unwrap_err();
    assert_eq!(error.message, "root");
    let root = || Ok(ProjectRoot(path("/p")));
    let error = server
        .initialize(root(), SuppliedOptions::Malformed("options".to_owned()))
        .unwrap_err();
    assert_eq!(error.message, "options");
    assert!(server.project_root().is_err());

    let answer = server
        .initialize(root(), SuppliedOptions::Given(Some(NamespaceDelimiter::Slash)))
        .unwrap();
    assert_eq!(answer.event, ConnectionEvent::Initialized);
    assert_eq!(answer.capabilities.protocol_version, 1);
    assert!(answer.capabilities.project_configuration);
    assert!(answer.capabilities.repository_navigation);
    assert_eq!(server.project_root().unwrap().as_path(), &path("/p"));

    let error = server
        .initialize(Ok(ProjectRoot(path("/other"))), SuppliedOptions::Missing)
        .unwrap_err();
    assert_eq!(
        (error.code, error.message.as_str()),
        (INVALID_REQUEST, "Initialization options have already been set")
    );
    assert_eq!(server.project_root().unwrap().as_path(), &path("/p"));
    assert_eq!(
        server.options.unwrap().presentation.namespace_delimiter,
        NamespaceDelimiter::Slash
    );
}

#[test]
fn a_bound_connection_is_not_bound_again() {
    let mut server = server();
    server.project_root = Some(ProjectRoot(path("/p")));
    let error = server
        .initialize(Ok(ProjectRoot(path("/q"))), SuppliedOptions::Missing)
        .unwrap_err();
    assert_eq!(
        (error.code, error.message.as_str()),
        (INVALID_REQUEST, "The connection is already bound to a project root")
    );
    assert_eq!(server.project_root().unwrap().as_path(), &path("/p"));
}

#[test]
fn requests_have_names() {
    assert_eq!(PROJECT_SYSTEMS_METHOD, "ziege/project/systems");
    assert_eq!(READ_DIRECTORY_METHOD, "ziege/fileSystem/readDirectory");
}

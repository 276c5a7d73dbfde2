//! Navigation of the virtual filesystem.

use abap_lsp::config::{
    DestinationConfig, DestinationsConfig, FileOutcome, MountConfig, ProjectConfig, ProjectRoot,
    ProjectSystemConfig, UserConfig,
};
use abap_lsp::context::{ContextError, SystemContext, SystemContextStore};
use abap_lsp::handlers::browsing::{Found, ViewOutcomes};
use abap_lsp::handlers::navigation::{
    DirectoryEntry, EntryKind, ListedNode, Listing, ParentNode, ProjectSystem,
    ProjectSystemsParams, ReadDirectoryParams,
};
use abap_lsp::path::FilePath;
use abap_lsp::repository::{Node, NodeKind};
use abap_lsp::rpc::{INVALID_PARAMS, INVALID_REQUEST, REQUEST_FAILED};
use abap_lsp::server::{NamespaceDelimiter, Server, SuppliedOptions};
use abap_lsp::text_map::TextMap;

fn root() -> ProjectRoot {
    ProjectRoot(FilePath::from_text("/p"))
}

fn server(delimiter: NamespaceDelimiter) -> Server {
    let mut server = Server::new(FilePath::from_text("/u/config.toml"));
    server.initialize(Ok(root()), SuppliedOptions::Given(Some(delimiter))).unwrap();
    server
}

fn params(uri: &str, refresh: bool) -> ReadDirectoryParams {
    ReadDirectoryParams { uri: uri.to_owned(), refresh }
}

fn listed(label: &str, kind: NodeKind, encoded: Option<&str>) -> ListedNode {
    ListedNode {
        node: Node { label: label.to_owned(), kind },
        encoded: encoded.map(str::to_owned),
    }
}

type Contexts = SystemContextStore<SystemContext<&'static str, u32>>;
type Parent = Result<ParentNode, String>;
type Nodes = Result<Vec<ListedNode>, String>;

/// Outcomes of steps that are not reached.
fn nothing_reached() -> ViewOutcomes<&'static str, u32> {
    ViewOutcomes {
        project: FileOutcome::Unreadable("project".to_owned()),
        user: FileOutcome::Unreadable("user".to_owned()),
        destinations: FileOutcome::Unreadable("destinations".to_owned()),
        connected: Err(ContextError::Operation("connection".to_owned())),
        opened: Err(ContextError::Vfs("view".to_owned())),
    }
}

/// Outcomes that lead to a view with the given tree.
fn all_reached(tree: u32) -> ViewOutcomes<&'static str, u32> {
    ViewOutcomes {
        project: FileOutcome::Parsed(project()),
        user: FileOutcome::Parsed(UserConfig::new(None, None)),
        destinations: FileOutcome::Parsed(catalog()),
        connected: Ok("client"),
        opened: Ok(tree),
    }
}

/// Contexts in which the project has a view on the system `DEMO`.
fn browsed(server: &Server, tree: u32) -> Contexts {
    let mut contexts = Contexts::new();
    server
        .read_directory(
            params("abap://DEMO/vfs/", false),
            &mut contexts,
            all_reached(tree),
            Ok(DIRECTORY),
            Ok(Vec::new()),
        )
        .unwrap();
    contexts
}

fn tree_of(contexts: &Contexts) -> Option<u32> {
    contexts.find_view(&"DEMO".to_owned().into(), &root()).map(|view| view.tree)
}

const DIRECTORY: ParentNode = ParentNode { is_directory: Some(true), is_root: false };

#[test]
fn custom_package_labels_preserve_their_spelling_and_uri() {
    for delimiter in [NamespaceDelimiter::Parentheses, NamespaceDelimiter::Slash] {
        let node = Node {
            label: "/Examples/Flight".to_owned(),
            kind: NodeKind::Package { package: "/DMO/FLIGHT".to_owned() },
        };
        let entry = DirectoryEntry::assemble(
            "DEV".to_owned().into(),
            &Vec::new(),
            node,
            delimiter,
            Some("(examples)flight".to_owned()),
        );
        assert_eq!(entry.name, "/Examples/Flight");
        assert_eq!(entry.uri, "abap://DEV/vfs/%2FExamples%2FFlight/");
        assert!(matches!(entry.kind, EntryKind::Package));
    }
}

#[test]
fn entries_are_listed_in_order_as_the_client_prefers() {
    let nodes = || {
        vec![
            listed("System Library", NodeKind::Mount, None),
            listed(
                "/DMO/FLIGHT",
                NodeKind::Package { package: "/DMO/FLIGHT".to_owned() },
                Some("(dmo)flight"),
            ),
            listed("/DMO/CL_FLIGHT", NodeKind::Object, Some("(dmo)cl_flight")),
            listed("Classes", NodeKind::Facet, Some("no name")),
            listed("Any Thing", NodeKind::Other, None),
        ]
    };
    let list = |delimiter| {
        let server = server(delimiter);
        let mut contexts = browsed(&server, 1);
        server
            .read_directory(
                params("abap://DEMO/vfs/A%20B/", false),
                &mut contexts,
                nothing_reached(),
                Ok(DIRECTORY),
                Ok(nodes()),
            )
            .unwrap()
            .entries
    };
    let parentheses = list(NamespaceDelimiter::Parentheses);
    let names: Vec<_> = parentheses.iter().map(|entry| entry.name.as_str()).collect();
    assert_eq!(names, ["System Library", "(dmo)flight", "(dmo)cl_flight", "Classes", "Any Thing"]);
    let kinds: Vec<_> = parentheses.iter().map(|entry| entry.kind).collect();
    assert_eq!(
        kinds,
        [
            EntryKind::Folder,
            EntryKind::Package,
            EntryKind::Object,
            EntryKind::Folder,
            EntryKind::Folder
        ]
    );
    assert_eq!(parentheses[2].uri, "abap://DEMO/vfs/A%20B/%2FDMO%2FCL_FLIGHT/");
    let slash = list(NamespaceDelimiter::Slash);
    let names: Vec<_> = slash.iter().map(|entry| entry.name.as_str()).collect();
    assert_eq!(names, ["System Library", "/dmo/flight", "/dmo/cl_flight", "Classes", "Any Thing"]);
    for (one, other) in parentheses.iter().zip(&slash) {
        assert_eq!(one.uri, other.uri);
        assert_eq!(one.kind, other.kind);
    }
}

#[test]
fn entries_lead_to_their_nodes() {
    let server = server(NamespaceDelimiter::Parentheses);
    let request = server.request_directory(&params("abap://DeV%20/vfs/a/..%2F/", false)).unwrap();
    assert_eq!(request.system.as_str(), "DeV ");
    assert_eq!(request.path, ["a", "../"]);
    for label in [".", "..", "/DMO/X", "ä b", "%2F"] {
        let entry = DirectoryEntry::assemble(
            request.system.clone(),
            &request.path,
            Node { label: label.to_owned(), kind: NodeKind::Facet },
            NamespaceDelimiter::Parentheses,
            None,
        );
        let next = server.request_directory(&params(&entry.uri, true)).unwrap();
        assert_eq!(next.system, request.system);
        assert_eq!(next.path, ["a", "../", label]);
        assert_eq!(next.root, root());
        assert!(next.refresh);
    }
}

fn catalog() -> DestinationsConfig {
    let mut destinations = TextMap::new();
    destinations.insert(
        "DEMO".to_owned(),
        DestinationConfig::new(
            "u".to_owned(),
            "c".to_owned(),
            None,
            "n".to_owned(),
            "p".to_owned(),
        ),
    );
    DestinationsConfig { version: 1, destinations }
}

#[test]
fn the_first_failing_step_answers_a_directory_request() {
    let answer = |server: &Server, uri: &str, outcomes, parent: Parent, nodes: Nodes| {
        let mut contexts = Contexts::new();
        server.read_directory(params(uri, false), &mut contexts, outcomes, parent, nodes)
    };
    let failed = |server: &Server, uri: &str, outcomes| {
        let no_parent = Err("parent".to_owned());
        let error = answer(server, uri, outcomes, no_parent, Err("nodes".to_owned())).unwrap_err();
        (error.code, error.message)
    };
    let fresh = Server::new(FilePath::from_text("/u/config.toml"));
    let bound = server(NamespaceDelimiter::Slash);
    assert_eq!(
        failed(&fresh, "abap:/x", nothing_reached()),
        (
            INVALID_PARAMS,
            "Expected abap://DESTINATION/vfs/path/ or abap://DESTINATION/filename".to_owned()
        )
    );
    assert_eq!(
        failed(&fresh, "abap://D/%", nothing_reached()),
        (
            INVALID_PARAMS,
            "Invalid URI component. Reserved characters must be percent encoded".to_owned()
        )
    );
    assert_eq!(
        failed(&fresh, "abap://D/file", nothing_reached()),
        (INVALID_PARAMS, "readDirectory requires a VFS URI".to_owned())
    );
    assert_eq!(
        failed(&fresh, "abap://D/vfs", nothing_reached()),
        (INVALID_REQUEST, "Invalid request".to_owned())
    );
    let root = "abap://DEMO/vfs";
    let request_failed = |message: &str| (REQUEST_FAILED, message.to_owned());
    assert_eq!(
        failed(&bound, root, nothing_reached()),
        request_failed("cannot read `/p/ziege.toml`: project")
    );
    let configured = || FileOutcome::Parsed(project());
    assert_eq!(
        failed(
            &bound,
            "abap://demo/vfs",
            ViewOutcomes { project: configured(), ..nothing_reached() }
        ),
        request_failed("destination `demo` is not configured in `/p/ziege.toml`")
    );
    assert_eq!(
        failed(&bound, root, ViewOutcomes { project: configured(), ..nothing_reached() }),
        request_failed("cannot read `/u/config.toml`: user")
    );
    let preferred = || FileOutcome::Parsed(UserConfig::new(None, None));
    assert_eq!(
        failed(
            &bound,
            root,
            ViewOutcomes { project: configured(), user: preferred(), ..nothing_reached() }
        ),
        request_failed("cannot read `/u/destinations.toml`: destinations")
    );
    let complete = || ViewOutcomes {
        project: configured(),
        user: preferred(),
        destinations: FileOutcome::Parsed(catalog()),
        ..nothing_reached()
    };
    assert_eq!(failed(&bound, root, complete()), request_failed("connection"));
    assert_eq!(
        failed(&bound, root, ViewOutcomes { connected: Ok("client"), ..complete() }),
        request_failed("view")
    );
    assert_eq!(failed(&bound, root, all_reached(1)), request_failed("parent"));
    let listed = |server: &Server, nodes| answer(server, root, all_reached(1), Ok(DIRECTORY), nodes);
    let error = listed(&bound, Err("nodes".to_owned())).unwrap_err();
    assert_eq!((error.code, error.message), request_failed("nodes"));
    let mut without_options = server(NamespaceDelimiter::Slash);
    without_options.options = None;
    let error = listed(&without_options, Ok(Vec::new())).unwrap_err();
    assert_eq!(
        (error.code, error.message),
        (INVALID_REQUEST, "Options were not initialized".to_owned())
    );
    assert!(listed(&bound, Ok(Vec::new())).unwrap().entries.is_empty());
}

#[test]
fn a_known_view_needs_no_configuration() {
    let bound = server(NamespaceDelimiter::Slash);
    let mut contexts = browsed(&bound, 7);
    assert_eq!(tree_of(&contexts), Some(7));
    let nodes = || vec![listed("a", NodeKind::Mount, None)];
    let mut answer = |uri: &str, refresh, parent| {
        let given = params(uri, refresh);
        bound.read_directory(given, &mut contexts, nothing_reached(), Ok(parent), Ok(nodes()))
    };
    assert_eq!(answer("abap://DEMO/vfs", false, DIRECTORY).unwrap().entries.len(), 1);
    assert_eq!(answer("abap://DEMO/vfs/a", true, DIRECTORY).unwrap().entries.len(), 1);
    // What is no directory has no entries, whatever could have been read.
    let object = ParentNode { is_directory: Some(false), is_root: false };
    assert!(answer("abap://DEMO/vfs/x", true, object).unwrap().entries.is_empty());
    // Another system has no view.
    assert_eq!(
        answer("abap://demo/vfs", false, DIRECTORY).unwrap_err().message,
        "cannot read `/p/ziege.toml`: project"
    );
}

#[test]
fn a_failed_root_refresh_keeps_the_view() {
    let bound = server(NamespaceDelimiter::Slash);
    let mut contexts = Contexts::new();
    let mut answer = |refresh, outcomes| {
        let given = params("abap://DEMO/vfs/", refresh);
        let nodes = vec![listed("System Library", NodeKind::Mount, None)];
        let answer =
            bound.read_directory(given, &mut contexts, outcomes, Ok(DIRECTORY), Ok(nodes));
        (answer, tree_of(&contexts))
    };
    let (first, tree) = answer(false, all_reached(1));
    let first = first.unwrap().entries;
    assert_eq!(first[0].uri, "abap://DEMO/vfs/System%20Library/");
    assert_eq!(tree, Some(1));
    // A refresh of the root loads the configuration again, which is gone.
    let (refused, tree) = answer(true, nothing_reached());
    assert_eq!(refused.unwrap_err().code, REQUEST_FAILED);
    assert_eq!(tree, Some(1));
    let (retained, tree) = answer(false, nothing_reached());
    assert_eq!(retained.unwrap().entries, first);
    assert_eq!(tree, Some(1));
    // Unchanged configuration keeps the view, changed mounts replace it.
    assert_eq!(answer(true, all_reached(2)).1, Some(1));
    let mut changed = project();
    let mut system = changed.systems.remove("DEMO").unwrap();
    system.mounts = vec![MountConfig::system_library(Some("Changed View".to_owned()), None)];
    changed.systems.insert("DEMO".to_owned(), system);
    let changed = ViewOutcomes { project: FileOutcome::Parsed(changed), ..all_reached(3) };
    assert_eq!(answer(true, changed).1, Some(3));
    assert_eq!(answer(true, all_reached(4)).1, Some(4));
}

#[test]
fn steps_say_what_is_to_be_done() {
    let bound = server(NamespaceDelimiter::Slash);
    let first = || bound.browse(&params("abap://DEMO/vfs/a/b", false)).unwrap();
    match first().resume(Some(5)) {
        Found::Use(step, view) => {
            assert_eq!(view, 5);
            let (step, node) = step.resume(Ok((7, DIRECTORY))).unwrap();
            assert_eq!(node, 7);
            assert_eq!(step.listing, Listing::Children);
            assert!(step.finish(&bound, Ok(Vec::new())).unwrap().entries.is_empty());
        }
        Found::Load(_) => panic!("a known view is used"),
    }
    match first().resume(None::<u32>) {
        Found::Load(step) => {
            assert_eq!(step.path, FilePath::from_text("/p/ziege.toml"));
            let step = step.resume(&bound, FileOutcome::Parsed(project())).unwrap();
            assert_eq!(step.path, FilePath::from_text("/u/config.toml"));
            let step = step.resume(FileOutcome::Parsed(UserConfig::new(None, None))).unwrap();
            assert_eq!(step.path, FilePath::from_text("/u/destinations.toml"));
            let step = step.resume(FileOutcome::Parsed(catalog())).unwrap();
            assert_eq!(step.destination.url, "u");
            assert!(step.mounts.is_empty());
            let (step, tree) = step.resume(Ok("tree")).unwrap();
            assert_eq!(tree, "tree");
            assert_eq!(step.request.path, ["a", "b"]);
        }
        Found::Use(..) => panic!("no view is known"),
    }
}

#[test]
fn a_refresh_stays_where_it_was_asked_for() {
    let server = server(NamespaceDelimiter::Slash);
    let request = |uri: &str, refresh| server.request_directory(&params(uri, refresh)).unwrap();
    assert!(request("abap://D/vfs/", true).renews_view());
    assert!(!request("abap://D/vfs/", false).renews_view());
    assert!(!request("abap://D/vfs/a", true).renews_view());
    let below = ParentNode { is_directory: None, is_root: false };
    let top = ParentNode { is_directory: None, is_root: true };
    let object = ParentNode { is_directory: Some(false), is_root: false };
    let refreshed = request("abap://D/vfs/a", true);
    assert_eq!(refreshed.listing(below), Listing::Refresh);
    assert_eq!(refreshed.listing(DIRECTORY), Listing::Refresh);
    assert_eq!(refreshed.listing(top), Listing::Children);
    assert_eq!(refreshed.listing(object), Listing::Empty);
    let plain = request("abap://D/vfs/a", false);
    assert_eq!(plain.listing(below), Listing::Children);
    assert_eq!(plain.listing(DIRECTORY), Listing::Children);
}

fn project() -> ProjectConfig {
    let mut systems = TextMap::new();
    for (name, folder) in [("DeV @:/", Some("SAP")), ("DEMO", None)] {
        systems.insert(
            name.to_owned(),
            ProjectSystemConfig {
                folder: folder.map(str::to_owned),
                readonly: false,
                mounts: Vec::new(),
            },
        );
    }
    ProjectConfig { version: 1, systems }
}

#[test]
fn systems_are_listed_with_their_portals() {
    let bound = server(NamespaceDelimiter::Parentheses);
    let result = bound
        .project_systems(ProjectSystemsParams {}, FileOutcome::Parsed(project()))
        .unwrap();
    assert_eq!(
        result.systems,
        [
            ProjectSystem { folder: "DEMO".to_owned(), uri: "abap://DEMO/vfs/".to_owned() },
            ProjectSystem {
                folder: "SAP".to_owned(),
                uri: "abap://DeV%20%40%3A%2F/vfs/".to_owned()
            },
        ]
    );
    let request = bound.request_directory(&params(&result.systems[1].uri, false)).unwrap();
    assert_eq!(request.system.as_str(), "DeV @:/");
    assert!(request.path.is_empty());

    let error = bound
        .project_systems(ProjectSystemsParams {}, FileOutcome::Unreadable("gone".to_owned()))
        .unwrap_err();
    assert_eq!(error.code, REQUEST_FAILED);
    assert_eq!(error.message, "cannot read `/p/ziege.toml`: gone");
    let fresh = Server::new(FilePath::from_text("/u"));
    let error =
        fresh.project_systems(ProjectSystemsParams {}, FileOutcome::Parsed(project())).unwrap_err();
    assert_eq!(error.code, INVALID_REQUEST);
}

//! Shared connections and views.

use abap_lsp::config::{
    ConfigError, DestinationConfig, DestinationId, FacetConfig, MountConfig, ProjectRoot,
};
use abap_lsp::context::{ContextError, SystemContext, SystemContextStore, ViewPlan};
use abap_lsp::path::FilePath;

fn project(path: &str) -> ProjectRoot {
    ProjectRoot(FilePath::from_text(path))
}

fn config() -> DestinationConfig {
    DestinationConfig::new(
        "http://localhost".to_owned(),
        "100".to_owned(),
        None,
        "DEVELOPER".to_owned(),
        "fixture".to_owned(),
    )
}

#[test]
fn backend_and_view_initialization_are_shared_and_retryable() {
    let project_a = project("/a");
    let mut store: SystemContextStore<u32> = SystemContextStore::new();
    let id = DestinationId::from("DEV".to_owned());
    let config = config();
    assert!(store.get(&id).is_none());
    assert!(store.current(&id, &config).is_none());
    assert_eq!(store.upsert(&id, &config, Ok(1)).unwrap(), &1);
    assert_eq!(store.upsert(&id, &config, Ok(2)).unwrap(), &1);
    assert_eq!(store.current(&id, &config), Some(&1));
    assert_eq!(store.get(&id), Some(&1));

    let mut context: SystemContext<&str, u32> = SystemContext::new("client");
    let none: Vec<MountConfig> = Vec::new();
    let explicit_defaults = vec![MountConfig::SystemLibrary {
        label: "System Library".into(),
        facets: Some(vec![
            FacetConfig::Always("GROUP".into()),
            FacetConfig::Always("TYPE".into()),
        ]),
    }];
    match context.plan_view(&project_a, &none) {
        ViewPlan::Open(mounts) => {
            assert_eq!(mounts.len(), 1);
            assert_eq!(mounts[0].label(), "System Library");
        }
        _ => panic!("nothing to open"),
    }
    assert_eq!(context.upsert_view(&project_a, &none, Ok(10)).unwrap().tree, 10);
    assert!(matches!(context.plan_view(&project_a, &none), ViewPlan::Reuse));
    assert_eq!(context.upsert_view(&project_a, &none, Ok(11)).unwrap().tree, 10);
    assert!(context.view(&project_a).unwrap().mounts.is_empty());

    let explicit = context.upsert_view(&project_a, &explicit_defaults, Ok(12)).unwrap();
    assert_eq!(explicit.tree, 12);
    assert_eq!(explicit.mounts, explicit_defaults);

    let changed_mounts =
        vec![MountConfig::SystemLibrary { label: "Another view".into(), facets: None }];
    let failure = Err(ContextError::Operation("fixture failure".into()));
    assert!(context.upsert_view(&project_a, &changed_mounts, failure).is_err());
    assert_eq!(context.view(&project_a).unwrap().tree, 12);
    assert_eq!(context.upsert_view(&project_a, &changed_mounts, Ok(13)).unwrap().tree, 13);
    assert_eq!(context.view(&project_a).unwrap().tree, 13);
    assert_eq!(context.client, "client");

    // Identical mounts in another project get an independent tree on the same backend.
    let project_b = project("/b");
    assert!(context.view(&project_b).is_none());
    assert_eq!(context.upsert_view(&project_b, &changed_mounts, Ok(14)).unwrap().tree, 14);
    assert_eq!(context.view(&project_a).unwrap().tree, 13);

    let mut invalid_config = config.clone();
    invalid_config.url = "not a URL".into();
    let failure = Err(ContextError::Transport("not a URL".into()));
    assert!(store.upsert(&id, &invalid_config, failure).is_err());
    assert_eq!(store.get(&id), Some(&1));

    // Credential revisions cannot share clients, views or node ownership.
    let mut new_config = config.clone();
    new_config.password = "changed".into();
    assert_eq!(store.upsert(&id, &new_config, Ok(3)).unwrap(), &3);
    assert_eq!(store.get(&id), Some(&3));
    assert!(store.current(&id, &config).is_none());
    assert_eq!(store.upsert(&id, &config, Ok(4)).unwrap(), &4);
}

#[test]
fn destinations_are_independent() {
    let mut store: SystemContextStore<u32> = SystemContextStore::new();
    let upper = DestinationId::from("DEV".to_owned());
    let lower = DestinationId::from("dev".to_owned());
    assert_eq!(store.upsert(&upper, &config(), Ok(1)).unwrap(), &1);
    assert!(store.get(&lower).is_none());
    assert_eq!(store.upsert(&lower, &config(), Ok(2)).unwrap(), &2);
    assert_eq!(store.get(&upper), Some(&1));
}

#[test]
fn invalid_mounts_are_refused_before_anything_is_opened() {
    let mut context: SystemContext<(), u32> = SystemContext::new(());
    let invalid = vec![MountConfig::SystemLibrary { label: String::new(), facets: None }];
    let expected = ContextError::Config(ConfigError::EmptyMountLabel);
    match context.plan_view(&project("/a"), &invalid) {
        ViewPlan::Refuse(error) => assert_eq!(error, expected),
        _ => panic!("not refused"),
    }
    let error = context.upsert_view(&project("/a"), &invalid, Ok(1)).err().unwrap();
    assert_eq!(error, expected);
    assert!(context.view(&project("/a")).is_none());
}

#[test]
fn errors_say_what_went_wrong() {
    for (error, message) in [
        (ContextError::Config(ConfigError::EmptyPackage), "package mount names must not be empty"),
        (ContextError::Transport("t".into()), "t"),
        (ContextError::Operation("o".into()), "o"),
        (ContextError::Vfs("v".into()), "v"),
        (
            ContextError::BuildTimeout,
            "Timed out while connecting to the repository or building its view",
        ),
    ] {
        assert_eq!(error.to_string(), message);
    }
}

type Contexts = SystemContextStore<SystemContext<u32, u32>>;

fn browse(
    store: &mut Contexts,
    config: &DestinationConfig,
    connected: Option<u32>,
    mounts: &Vec<MountConfig>,
    opened: Result<u32, ContextError>,
) -> Result<u32, ContextError> {
    let id = DestinationId::from("DEV".to_owned());
    let connected = connected.ok_or(ContextError::Operation("unreachable".into()));
    let view = store.open_view(&id, config, connected, &project("/a"), mounts, opened)?;
    Ok(view.tree)
}

#[test]
fn a_failed_refresh_retains_the_view() {
    let mut store = Contexts::new();
    let id = DestinationId::from("DEV".to_owned());
    let none: Vec<MountConfig> = Vec::new();
    let other = vec![MountConfig::system_library(Some("Changed View".into()), None)];
    let failure = || Err(ContextError::Vfs("closed".into()));
    assert_eq!(browse(&mut store, &config(), Some(10), &none, Ok(1)), Ok(1));
    assert_eq!(store.find_view(&id, &project("/a")).unwrap().tree, 1);
    assert!(store.find_view(&id, &project("/b")).is_none());
    // Unchanged configuration gives the same view, even where nothing can be reached.
    assert_eq!(browse(&mut store, &config(), None, &none, failure()), Ok(1));
    assert!(browse(&mut store, &config(), None, &other, failure()).is_err());
    assert_eq!(browse(&mut store, &config(), None, &none, failure()), Ok(1));
    let mut changed = config();
    changed.client = "200".into();
    assert!(browse(&mut store, &changed, None, &none, Ok(2)).is_err());
    assert_eq!(browse(&mut store, &config(), None, &none, failure()), Ok(1));
    assert_eq!(store.get(&id).unwrap().client, 10);
    // A new connection starts without views.
    assert!(browse(&mut store, &changed, Some(20), &none, failure()).is_err());
    assert_eq!(store.get(&id).unwrap().client, 20);
    assert!(store.find_view(&id, &project("/a")).is_none());
    assert_eq!(browse(&mut store, &changed, None, &none, Ok(3)), Ok(3));
}

#[test]
fn other_projects_and_destinations_keep_their_views() {
    let mut store = Contexts::new();
    let id = DestinationId::from("DEV".to_owned());
    let none: Vec<MountConfig> = Vec::new();
    let other = vec![MountConfig::system_library(Some("Changed View".into()), None)];
    let lower = DestinationId::from("dev".to_owned());
    store.open_view(&id, &config(), Ok(1), &project("/b"), &none, Ok(2)).unwrap();
    store.open_view(&lower, &config(), Ok(3), &project("/a"), &none, Ok(4)).unwrap();
    assert_eq!(browse(&mut store, &config(), None, &other, Ok(5)), Ok(5));
    assert_eq!(store.find_view(&id, &project("/b")).unwrap().tree, 2);
    assert_eq!(store.find_view(&lower, &project("/a")).unwrap().tree, 4);
}

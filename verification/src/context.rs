//! Shared connections and repository views.
//!
//! The server can outlive a client session and handle any number of clients at once.
//! Connections and views are therefore held for all clients: two editors that work on
//! the same system share one connection to it, and two that work on the same project
//! also share its view.
//!
//! Connecting to a system and opening a view is left to the caller. A plan says what
//! is to be done, and what came of it is handed back.

use crate::config::destinations;
use crate::config::project;
use crate::config::project::{copy_mounts, same_mounts, MountConfigView};
use crate::config::{
    ConfigError, ConfigFault, DestinationConfig, DestinationId, MountConfig, ProjectRoot,
    ResolvedSystemConfig,
};
use crate::config;
use crate::fingerprint;
use crate::model;
use crate::mounts::build_mounts;
use crate::repository::{Mount, MountView};
use crate::slots::{Identity, Slots};
use crate::text::same_text;
use vstd::prelude::*;

verus! {

impl Identity for DestinationId {
    fn same(&self, other: &Self) -> (yes: bool) {
        same_text(self.as_str(), other.as_str())
    }
}

impl Identity for ProjectRoot {
    fn same(&self, other: &Self) -> (yes: bool) {
        self.0.same(&other.0)
    }
}

/// Why a system or a view of it is not available.
#[derive(Debug, Eq, PartialEq)]
pub enum ContextError {
    Config(ConfigError),
    /// The connection could not be set up.
    Transport(String),
    /// The system did not answer as expected.
    Operation(String),
    /// The view could not be opened.
    Vfs(String),
    BuildTimeout,
}

/// What an error says.
pub enum ContextFault {
    Config(ConfigFault),
    Transport(Seq<char>),
    Operation(Seq<char>),
    Vfs(Seq<char>),
    BuildTimeout,
}

impl View for ContextError {
    type V = ContextFault;

    open spec fn view(&self) -> ContextFault {
        match self {
            ContextError::Config(error) => ContextFault::Config(error@),
            ContextError::Transport(message) => ContextFault::Transport(message@),
            ContextError::Operation(message) => ContextFault::Operation(message@),
            ContextError::Vfs(message) => ContextFault::Vfs(message@),
            ContextError::BuildTimeout => ContextFault::BuildTimeout,
        }
    }
}

/// The message of an error.
pub open spec fn fault_text(fault: ContextFault) -> Seq<char> {
    match fault {
        ContextFault::Config(fault) => config::fault_text(fault),
        ContextFault::Transport(message) => message,
        ContextFault::Operation(message) => message,
        ContextFault::Vfs(message) => message,
        ContextFault::BuildTimeout =>
            "Timed out while connecting to the repository or building its view"@,
    }
}

impl ContextError {
    /// The message of the error.
    pub fn to_string(&self) -> (message: String)
        ensures
            message@ == fault_text(self@),
    {
        match self {
            ContextError::Config(error) => error.to_string(),
            ContextError::Transport(message) => message.clone(),
            ContextError::Operation(message) => message.clone(),
            ContextError::Vfs(message) => message.clone(),
            ContextError::BuildTimeout =>
                "Timed out while connecting to the repository or building its view".to_owned(),
        }
    }
}

/// A view on a system, with the mounts that it was opened for.
pub struct SystemView<T> {
    pub mounts: Vec<MountConfig>,
    pub tree: T,
}

/// A view on a system, with the mounts that it was opened for.
pub struct ViewState<T> {
    pub mounts: Seq<MountConfigView>,
    pub tree: T,
}

impl<T> View for SystemView<T> {
    type V = ViewState<T>;

    open spec fn view(&self) -> ViewState<T> {
        ViewState { mounts: model::views(self.mounts@), tree: self.tree }
    }
}

/// Whether a project has a view for these mounts.
pub open spec fn has_view<T>(
    views: Map<Seq<u8>, ViewState<T>>,
    project: Seq<u8>,
    mounts: Seq<MountConfigView>,
) -> bool {
    views.dom().contains(project) && views[project].mounts == mounts
}

/// The views after one was asked for, and what the request gave. A view for the same
/// mounts is kept. Otherwise the mounts must be valid and the tree must have been
/// opened. What fails changes nothing.
pub open spec fn upserted_view<T>(
    views: Map<Seq<u8>, ViewState<T>>,
    project: Seq<u8>,
    mounts: Seq<MountConfigView>,
    opened: Result<T, ContextFault>,
) -> (Map<Seq<u8>, ViewState<T>>, Result<ViewState<T>, ContextFault>) {
    if has_view(views, project, mounts) {
        (views, Ok(views[project]))
    } else {
        match project::view_mounts(mounts) {
            Err(fault) => (views, Err(ContextFault::Config(fault))),
            Ok(_) => match opened {
                Err(fault) => (views, Err(fault)),
                Ok(tree) => (
                    views.insert(project, ViewState { mounts, tree }),
                    Ok(ViewState { mounts, tree }),
                ),
            },
        }
    }
}

/// What is to be done for a view.
pub enum ViewPlan {
    /// The view that is there is to be used.
    Reuse,
    /// A tree with these mounts is to be opened.
    Open(Vec<Mount>),
    /// The mounts are not valid.
    Refuse(ContextError),
}

/// What is to be done for a view.
pub enum ViewPlanView {
    Reuse,
    Open(Seq<MountView>),
    Refuse(ContextFault),
}

impl View for ViewPlan {
    type V = ViewPlanView;

    open spec fn view(&self) -> ViewPlanView {
        match self {
            ViewPlan::Reuse => ViewPlanView::Reuse,
            ViewPlan::Open(mounts) => ViewPlanView::Open(model::views(mounts@)),
            ViewPlan::Refuse(error) => ViewPlanView::Refuse(error@),
        }
    }
}

/// What is to be done for a view of a project.
pub open spec fn view_plan<T>(
    views: Map<Seq<u8>, ViewState<T>>,
    project: Seq<u8>,
    mounts: Seq<MountConfigView>,
) -> ViewPlanView {
    if has_view(views, project, mounts) {
        ViewPlanView::Reuse
    } else {
        match project::view_mounts(mounts) {
            Err(fault) => ViewPlanView::Refuse(ContextFault::Config(fault)),
            Ok(mounts) => ViewPlanView::Open(mounts),
        }
    }
}

/// Shared state for one connected system: the client that talks to it, and the views of
/// the projects that browse it.
pub struct SystemContext<C, T> {
    pub client: C,
    pub views: Slots<ProjectRoot, SystemView<T>>,
}

/// A connected system: its client, and its views by project.
pub struct ContextState<C, T> {
    pub client: C,
    pub views: Map<Seq<u8>, ViewState<T>>,
}

impl<C, T> SystemContext<C, T> {
    /// The views by project.
    pub open spec fn views(&self) -> Map<Seq<u8>, ViewState<T>> {
        self.views@.map_values(|view: SystemView<T>| view@)
    }

    /// The client and the views.
    pub open spec fn state(&self) -> ContextState<C, T> {
        ContextState { client: self.client, views: self.views() }
    }

    /// A connected system without views.
    pub fn new(client: C) -> (context: Self)
        ensures
            context.client == client,
            context.views() == Map::<Seq<u8>, ViewState<T>>::empty(),
    {
        let context = SystemContext { client, views: Slots::new() };
        assert(context.views() =~= Map::<Seq<u8>, ViewState<T>>::empty());
        context
    }

    /// The view of a project, if it has one.
    pub fn view(&self, project: &ProjectRoot) -> (found: Option<&SystemView<T>>)
        ensures
            found is Some <==> self.views().dom().contains(project@),
            found matches Some(view) ==> view@ == self.views()[project@],
    {
        self.views.get(project)
    }

    /// What is to be done for a view of a project with the given mounts.
    pub fn plan_view(&self, project: &ProjectRoot, mounts: &Vec<MountConfig>) -> (plan: ViewPlan)
        ensures
            plan@ == view_plan(self.views(), project@, model::views(mounts@)),
    {
        if let Some(view) = self.view(project) {
            // This is overly sensitive regarding labels, but that is ok.
            if same_mounts(&view.mounts, mounts) {
                return ViewPlan::Reuse;
            }
        }
        match build_mounts(mounts) {
            Err(error) => ViewPlan::Refuse(ContextError::Config(error)),
            Ok(mounts) => ViewPlan::Open(mounts),
        }
    }

    /// Inserts or updates the view of a project, given the tree that was opened for its
    /// mounts. A view for the same mounts is left untouched and returned.
    pub fn upsert_view(
        &mut self,
        project: &ProjectRoot,
        mounts: &Vec<MountConfig>,
        opened: Result<T, ContextError>,
    ) -> (view: Result<&SystemView<T>, ContextError>)
        ensures
            final(self).client == old(self).client,
            final(self).views() == upserted_view(
                old(self).views(),
                project@,
                model::views(mounts@),
                model::failure(opened),
            ).0,
            (match view {
                Ok(view) => Ok(view@),
                Err(error) => Err(error@),
            }) == upserted_view(
                old(self).views(),
                project@,
                model::views(mounts@),
                model::failure(opened),
            ).1,
    {
        match self.plan_view(project, mounts) {
            ViewPlan::Reuse => {},
            ViewPlan::Refuse(error) => {
                return Err(error);
            },
            ViewPlan::Open(_) => match opened {
                Err(error) => {
                    return Err(error);
                },
                Ok(tree) => {
                    let view = SystemView { mounts: copy_mounts(mounts), tree };
                    let ghost state = view@;
                    self.views.insert(project.clone(), view);
                    assert(self.views() =~= old(self).views().insert(project@, state));
                },
            },
        }
        Ok(self.view(project).unwrap())
    }
}

/// A connected system under the fingerprint of the settings that it was connected with.
pub struct ContextSlot<H> {
    pub fingerprint: u64,
    pub context: H,
}

/// Whether a destination is connected with settings of this fingerprint.
pub open spec fn is_current<H>(
    contexts: Map<Seq<char>, ContextSlot<H>>,
    id: Seq<char>,
    fingerprint: u64,
) -> bool {
    contexts.dom().contains(id) && contexts[id].fingerprint == fingerprint
}

/// The contexts after one was asked for, and what the request gave. A context with the
/// same fingerprint is kept. Otherwise the new connection takes its place, unless it
/// failed, which changes nothing.
pub open spec fn upserted<H>(
    contexts: Map<Seq<char>, ContextSlot<H>>,
    id: Seq<char>,
    fingerprint: u64,
    connected: Result<H, ContextFault>,
) -> (Map<Seq<char>, ContextSlot<H>>, Result<H, ContextFault>) {
    if is_current(contexts, id, fingerprint) {
        (contexts, Ok(contexts[id].context))
    } else {
        match connected {
            Err(fault) => (contexts, Err(fault)),
            Ok(context) => (
                contexts.insert(id, ContextSlot { fingerprint, context }),
                Ok(context),
            ),
        }
    }
}

/// The fingerprint of connection settings.
pub open spec fn settings_fingerprint(config: DestinationConfig) -> u64 {
    fingerprint::hash_of(destinations::destination_code(config))
}

/// Contexts of the whole process by the name of their destination.
///
/// A change of configuration replaces the context of a destination. No history of
/// connections is kept.
pub struct SystemContextStore<H> {
    contexts: Slots<DestinationId, ContextSlot<H>>,
}

impl<H> View for SystemContextStore<H> {
    type V = Map<Seq<char>, ContextSlot<H>>;

    closed spec fn view(&self) -> Map<Seq<char>, ContextSlot<H>> {
        self.contexts@
    }
}

impl<H> SystemContextStore<H> {
    /// A store without contexts.
    pub fn new() -> (store: Self)
        ensures
            store@ == Map::<Seq<char>, ContextSlot<H>>::empty(),
    {
        SystemContextStore { contexts: Slots::new() }
    }

    /// The context of a destination, if it has one.
    pub fn get(&self, id: &DestinationId) -> (found: Option<&H>)
        ensures
            found is Some <==> self@.dom().contains(id@),
            found matches Some(context) ==> *context == self@[id@].context,
    {
        match self.contexts.get(id) {
            Some(slot) => Some(&slot.context),
            None => None,
        }
    }

    /// The context of a destination, if it was connected with these settings. Otherwise
    /// a new connection is to be made.
    pub fn current(&self, id: &DestinationId, config: &DestinationConfig) -> (found: Option<&H>)
        ensures
            found is Some <==> is_current(self@, id@, settings_fingerprint(*config)),
            found matches Some(context) ==> *context == self@[id@].context,
    {
        let fingerprint: u64 = config.fingerprint();
        match self.contexts.get(id) {
            Some(slot) => if slot.fingerprint == fingerprint {
                Some(&slot.context)
            } else {
                None
            },
            None => None,
        }
    }

    /// Inserts or updates the context of a destination, given the connection that was
    /// made with its settings. A context with the same settings is left untouched and
    /// returned.
    pub fn upsert(
        &mut self,
        id: &DestinationId,
        config: &DestinationConfig,
        connected: Result<H, ContextError>,
    ) -> (context: Result<&H, ContextError>)
        ensures
            final(self)@ == upserted(
                old(self)@,
                id@,
                settings_fingerprint(*config),
                model::failure(connected),
            ).0,
            (match context {
                Ok(context) => Ok(*context),
                Err(error) => Err(error@),
            }) == upserted(
                old(self)@,
                id@,
                settings_fingerprint(*config),
                model::failure(connected),
            ).1,
    {
        let fingerprint: u64 = config.fingerprint();
        if self.current(id, config).is_none() {
            match connected {
                Err(error) => {
                    return Err(error);
                },
                Ok(context) => {
                    self.contexts.insert(id.clone(), ContextSlot { fingerprint, context });
                },
            }
        }
        Ok(self.get(id).unwrap())
    }
}

/// The state of all connected systems.
pub open spec fn states<C, T>(
    contexts: Map<Seq<char>, ContextSlot<SystemContext<C, T>>>,
) -> Map<Seq<char>, ContextSlot<ContextState<C, T>>> {
    contexts.map_values(
        |slot: ContextSlot<SystemContext<C, T>>|
            ContextSlot { fingerprint: slot.fingerprint, context: slot.context.state() },
    )
}

/// Whether a project has a view on a destination.
pub open spec fn is_browsed<C, T>(
    contexts: Map<Seq<char>, ContextSlot<ContextState<C, T>>>,
    id: Seq<char>,
    project: Seq<u8>,
) -> bool {
    contexts.dom().contains(id) && contexts[id].context.views.dom().contains(project)
}

/// All systems after the view of a project was asked for with current configuration, and
/// what the request gave: first the context of the destination is inserted or updated, a
/// new connection having no views yet, and then the view of the project on that context.
pub open spec fn browsed<C, T>(
    contexts: Map<Seq<char>, ContextSlot<ContextState<C, T>>>,
    id: Seq<char>,
    fingerprint: u64,
    connected: Result<C, ContextFault>,
    project: Seq<u8>,
    mounts: Seq<MountConfigView>,
    opened: Result<T, ContextFault>,
) -> (Map<Seq<char>, ContextSlot<ContextState<C, T>>>, Result<ViewState<T>, ContextFault>) {
    let connection = match connected {
        Ok(client) => Ok(ContextState { client, views: Map::<Seq<u8>, ViewState<T>>::empty() }),
        Err(fault) => Err(fault),
    };
    let (updated, context) = upserted(contexts, id, fingerprint, connection);
    match context {
        Err(fault) => (updated, Err(fault)),
        Ok(state) => {
            let (views, view) = upserted_view(state.views, project, mounts, opened);
            let context = ContextState { client: state.client, views };
            (updated.insert(id, ContextSlot { fingerprint, context }), view)
        },
    }
}

/// All systems after a project was given a view, and the view. One that is there is used,
/// unless it is to be renewed. Otherwise the configuration decides what is asked for.
/// Where it could not be loaded, nothing changes.
pub open spec fn selected<C, T>(
    contexts: Map<Seq<char>, ContextSlot<ContextState<C, T>>>,
    id: Seq<char>,
    project: Seq<u8>,
    renew: bool,
    configured: Result<ResolvedSystemConfig, ConfigFault>,
    connected: Result<C, ContextFault>,
    opened: Result<T, ContextFault>,
) -> (Map<Seq<char>, ContextSlot<ContextState<C, T>>>, Result<ViewState<T>, ContextFault>) {
    if !renew && is_browsed(contexts, id, project) {
        (contexts, Ok(contexts[id].context.views[project]))
    } else {
        match configured {
            Err(fault) => (contexts, Err(ContextFault::Config(fault))),
            Ok(system) => browsed(
                contexts,
                id,
                settings_fingerprint(system.destination),
                connected,
                project,
                model::views(system.config.mounts@),
                opened,
            ),
        }
    }
}

impl<C, T> SystemContextStore<SystemContext<C, T>> {
    /// The state of all connected systems.
    pub open spec fn states(&self) -> Map<Seq<char>, ContextSlot<ContextState<C, T>>> {
        states(self@)
    }

    /// The view of a project on a destination, if it has one.
    pub fn find_view(&self, id: &DestinationId, project: &ProjectRoot) -> (found: Option<
        &SystemView<T>,
    >)
        ensures
            found is Some <==> is_browsed(self.states(), id@, project@),
            found matches Some(view) ==> view@ == self.states()[id@].context.views[project@],
    {
        match self.get(id) {
            Some(context) => context.view(project),
            None => None,
        }
    }

    /// Inserts or updates the context of a destination and the view of a project on it,
    /// given the client that was connected with its settings and the tree that was opened
    /// for its mounts. What has the same settings and mounts is left untouched.
    pub fn open_view(
        &mut self,
        id: &DestinationId,
        config: &DestinationConfig,
        connected: Result<C, ContextError>,
        project: &ProjectRoot,
        mounts: &Vec<MountConfig>,
        opened: Result<T, ContextError>,
    ) -> (view: Result<&SystemView<T>, ContextError>)
        ensures
            final(self).states() == browsed(
                old(self).states(),
                id@,
                settings_fingerprint(*config),
                model::failure(connected),
                project@,
                model::views(mounts@),
                model::failure(opened),
            ).0,
            (match view {
                Ok(view) => Ok(view@),
                Err(error) => Err(error@),
            }) == browsed(
                old(self).states(),
                id@,
                settings_fingerprint(*config),
                model::failure(connected),
                project@,
                model::views(mounts@),
                model::failure(opened),
            ).1,
    {
        let connection = match connected {
            Ok(client) => Ok(SystemContext::new(client)),
            Err(error) => Err(error),
        };
        if let Err(error) = self.upsert(id, config, connection) {
            return Err(error);
        }
        let mut slot = self.contexts.remove(id).unwrap();
        let failed = match slot.context.upsert_view(project, mounts, opened) {
            Ok(_) => None,
            Err(error) => Some(error),
        };
        self.contexts.insert(id.clone(), slot);
        assert(self.states() =~= browsed(
            old(self).states(),
            id@,
            settings_fingerprint(*config),
            model::failure(connected),
            project@,
            model::views(mounts@),
            model::failure(opened),
        ).0);
        match failed {
            Some(error) => Err(error),
            None => Ok(self.find_view(id, project).unwrap()),
        }
    }
}

} // verus!

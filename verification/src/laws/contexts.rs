//! What is shared between clients, and what is given for a view.

use crate::config;
use crate::config::{ConfigError, DestinationConfig, DestinationId, MountConfig, ProjectRoot};
use crate::context::{
    ContextError, SystemContext, SystemContextStore, SystemView, ViewPlan, ViewState,
};
use crate::model;
use crate::mounts::build_mounts;
use crate::repository::Mount;
use vstd::prelude::*;

verus! {

/// A newly connected system has its client and no views, and a new store has no systems.
pub proof fn lemma_new_context<C, T>(
    client: C,
    context: SystemContext<C, T>,
    store: SystemContextStore<SystemContext<C, T>>,
)
    requires
        call_ensures(SystemContext::<C, T>::new, (client,), context),
        call_ensures(SystemContextStore::<SystemContext<C, T>>::new, (), store),
    ensures
        context.client == client,
        context.views() == Map::<Seq<u8>, ViewState<T>>::empty(),
        store@.dom() == Set::<Seq<char>>::empty(),
{
}

/// A plan reuses the view of a project exactly where all of its mounts are those asked
/// for. Otherwise it opens what these mounts build, or refuses them as building does.
pub proof fn lemma_planned_view<C, T>(
    context: SystemContext<C, T>,
    project: ProjectRoot,
    mounts: Vec<MountConfig>,
    known: Option<&SystemView<T>>,
    built: Result<Vec<Mount>, ConfigError>,
    plan: ViewPlan,
)
    requires
        call_ensures(SystemContext::<C, T>::view, (&context, &project), known),
        call_ensures(build_mounts::<MountConfig>, (&mounts,), built),
        call_ensures(SystemContext::<C, T>::plan_view, (&context, &project, &mounts), plan),
    ensures
        ({
            let same = known is Some && model::views(known->0.mounts@) == model::views(mounts@);
            &&& plan is Reuse <==> same
            &&& plan matches ViewPlan::Open(opened) ==> built is Ok && model::views(opened@)
                == model::views(built->Ok_0@)
            &&& plan matches ViewPlan::Refuse(error) ==> built is Err && (error
                matches ContextError::Config(reported) && reported@ == built->Err_0@)
        }),
{
}

/// A request for a view gives one with exactly the mounts asked for: the one that is there
/// where it has them, and otherwise one with the tree that was opened. It is there
/// afterwards. What fails changes nothing, and the client stays the same.
pub proof fn lemma_requested_view<C, T>(
    context: &mut SystemContext<C, T>,
    project: ProjectRoot,
    mounts: Vec<MountConfig>,
    opened: Result<T, ContextError>,
    built: Result<Vec<Mount>, ConfigError>,
    given: Result<&SystemView<T>, ContextError>,
    other: ProjectRoot,
)
    requires
        call_ensures(build_mounts::<MountConfig>, (&mounts,), built),
        call_ensures(
            SystemContext::<C, T>::upsert_view,
            (context, &project, &mounts, opened),
            given,
        ),
    ensures
        ({
            let root = project.0.bytes@;
            let before = old(context).views();
            let after = final(context).views();
            let asked = model::views(mounts@);
            let same = before.dom().contains(root) && before[root].mounts == asked;
            &&& final(context).client == old(context).client
            &&& given matches Ok(view) ==> {
                &&& model::views(view.mounts@) == asked
                &&& after.dom().contains(root)
                &&& after[root].mounts == asked
                &&& after[root].tree == view.tree
                &&& same ==> view.tree == before[root].tree
                &&& !same ==> opened is Ok && view.tree == opened->Ok_0
            }
            &&& given is Ok <==> same || (built is Ok && opened is Ok)
            &&& given is Err || same ==> after == before
            &&& given matches Err(error) ==> if built is Err {
                error matches ContextError::Config(reported) && reported@ == built->Err_0@
            } else {
                opened is Err && error@ == opened->Err_0@
            }
            &&& other.0.bytes@ != root ==> {
                &&& after.dom().contains(other.0.bytes@) <==> before.dom().contains(
                    other.0.bytes@,
                )
                &&& before.dom().contains(other.0.bytes@) ==> after[other.0.bytes@]
                    == before[other.0.bytes@]
            }
        }),
{
}

/// A request for a context gives the one that was connected with the same settings, and
/// otherwise what connecting led to, which is then held in its place. Other destinations
/// keep theirs.
pub proof fn lemma_requested_context<H>(
    store: &mut SystemContextStore<H>,
    id: DestinationId,
    config: DestinationConfig,
    connected: Result<H, ContextError>,
    fingerprint: u64,
    given: Result<&H, ContextError>,
    other: DestinationId,
    found: Option<&H>,
)
    requires
        call_ensures(DestinationConfig::fingerprint, (&config,), fingerprint),
        call_ensures(SystemContextStore::<H>::upsert, (store, &id, &config, connected), given),
        call_ensures(SystemContextStore::<H>::get, (&*final(store), &other), found),
    ensures
        ({
            let before = old(store)@;
            let same = before.dom().contains(id.0@) && before[id.0@].fingerprint == fingerprint;
            &&& same ==> given is Ok && *given->Ok_0 == before[id.0@].context && final(store)@
                == before
            &&& !same && connected is Ok ==> given is Ok && *given->Ok_0 == connected->Ok_0
            &&& !same && connected is Err ==> given is Err && given->Err_0@ == connected->Err_0@
                && final(store)@ == before
            &&& given is Ok && other.0@ == id.0@ ==> found == Some(given->Ok_0)
            &&& other.0@ != id.0@ ==> (found is Some <==> before.dom().contains(other.0@))
            &&& other.0@ != id.0@ && found is Some ==> *found->0 == before[other.0@].context
            &&& given is Ok ==> final(store)@[id.0@].fingerprint == fingerprint
        }),
{
}

/// A context is current exactly where it is held under the fingerprint of the settings.
pub proof fn lemma_current_context<H>(
    store: SystemContextStore<H>,
    id: DestinationId,
    config: DestinationConfig,
    fingerprint: u64,
    found: Option<&H>,
)
    requires
        call_ensures(DestinationConfig::fingerprint, (&config,), fingerprint),
        call_ensures(SystemContextStore::<H>::current, (&store, &id, &config), found),
    ensures
        found is Some <==> store@.dom().contains(id.0@) && store@[id.0@].fingerprint == fingerprint,
        found is Some ==> *found->0 == store@[id.0@].context,
{
}

/// A view that was opened through the store is found there, with the mounts and settings
/// asked for, and what fails keeps every view unless it follows a new connection.
pub proof fn lemma_opened_view_is_found<C, T>(
    store: &mut SystemContextStore<SystemContext<C, T>>,
    id: DestinationId,
    config: DestinationConfig,
    connected: Result<C, ContextError>,
    project: ProjectRoot,
    mounts: Vec<MountConfig>,
    opened: Result<T, ContextError>,
    fingerprint: u64,
    given: Result<&SystemView<T>, ContextError>,
    found: Option<&SystemView<T>>,
)
    requires
        call_ensures(DestinationConfig::fingerprint, (&config,), fingerprint),
        call_ensures(
            SystemContextStore::<SystemContext<C, T>>::open_view,
            (store, &id, &config, connected, &project, &mounts, opened),
            given,
        ),
        call_ensures(
            SystemContextStore::<SystemContext<C, T>>::find_view,
            (&*final(store), &id, &project),
            found,
        ),
    ensures
        ({
            let before = old(store).states();
            let after = final(store).states();
            let name = id.0@;
            let root = project.0.bytes@;
            let same = before.dom().contains(name) && before[name].fingerprint == fingerprint;
            &&& given matches Ok(view) ==> {
                &&& found is Some
                &&& found->0.tree == view.tree
                &&& model::views(found->0.mounts@) == model::views(mounts@)
                &&& model::views(view.mounts@) == model::views(mounts@)
                &&& after[name].fingerprint == fingerprint
                &&& same ==> after[name].context.client == before[name].context.client
                &&& !same ==> connected is Ok && after[name].context.client == connected->Ok_0
            }
            &&& given is Err && (same || connected is Err) ==> after == before
        }),
{
    let before = old(store).states();
    if before.dom().contains(id.0@) {
        assert(before.insert(id.0@, before[id.0@]) =~= before);
    }
}

/// What a failure reports is passed on unchanged.
pub proof fn lemma_failure_message(error: ContextError, message: String)
    requires
        call_ensures(ContextError::to_string, (&error,), message),
    ensures
        match error {
            ContextError::Config(error) => message@ == config::fault_text(error@),
            ContextError::Transport(reason) => message@ == reason@,
            ContextError::Operation(reason) => message@ == reason@,
            ContextError::Vfs(reason) => message@ == reason@,
            ContextError::BuildTimeout => message@
                == "Timed out while connecting to the repository or building its view"@,
        },
{
}

} // verus!

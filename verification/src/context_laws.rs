//! Laws of shared contexts and views: what is shared, what is kept and what is replaced.

use crate::config;
use crate::config::destinations;
use crate::config::project;
use crate::config::project::MountConfigView;
use crate::config::{ConfigFault, DestinationConfig, ResolvedSystemConfig};
use crate::context;
use crate::context::{
    ContextFault, ContextSlot, ContextState, SystemContext, ViewPlanView, ViewState,
};
use crate::model;
use crate::repository::MountView;
use vstd::prelude::*;

verus! {

/// Requests with the same settings share one context: once a destination is connected,
/// asking again changes nothing and gives the same context, whatever another attempt to
/// connect would have led to.
pub proof fn lemma_same_settings_share_a_context<H>(
    contexts: Map<Seq<char>, ContextSlot<H>>,
    id: Seq<char>,
    fingerprint: u64,
    first: Result<H, ContextFault>,
    second: Result<H, ContextFault>,
)
    requires
        context::upserted(contexts, id, fingerprint, first).1 is Ok,
    ensures
        context::upserted(
            context::upserted(contexts, id, fingerprint, first).0,
            id,
            fingerprint,
            second,
        ) == context::upserted(contexts, id, fingerprint, first),
{
}

/// A connection that fails leaves all contexts as they were, so that a request can be
/// repeated.
pub proof fn lemma_failed_connection_keeps_contexts<H>(
    contexts: Map<Seq<char>, ContextSlot<H>>,
    id: Seq<char>,
    fingerprint: u64,
    fault: ContextFault,
)
    ensures
        context::upserted(contexts, id, fingerprint, Err(fault)).0 == contexts,
        context::upserted(contexts, id, fingerprint, Err(fault)).1 is Err
            <==> !context::is_current(contexts, id, fingerprint),
{
}

/// New settings replace the context of a destination: the new connection is the only
/// one that the destination has, and going back to the old settings connects again.
pub proof fn lemma_new_settings_replace_the_context<H>(
    contexts: Map<Seq<char>, ContextSlot<H>>,
    id: Seq<char>,
    fingerprint: u64,
    connection: H,
    old_fingerprint: u64,
)
    requires
        !context::is_current(contexts, id, fingerprint),
        fingerprint != old_fingerprint,
    ensures
        ({
            let (after, given) = context::upserted(contexts, id, fingerprint, Ok(connection));
            &&& given == Ok::<H, ContextFault>(connection)
            &&& after.dom() == contexts.dom().insert(id)
            &&& after[id].context == connection
            &&& context::is_current(after, id, fingerprint)
            &&& !context::is_current(after, id, old_fingerprint)
        }),
{
}

/// A request for one destination leaves the contexts of all others as they were.
pub proof fn lemma_destinations_are_independent<H>(
    contexts: Map<Seq<char>, ContextSlot<H>>,
    id: Seq<char>,
    fingerprint: u64,
    connected: Result<H, ContextFault>,
    other: Seq<char>,
)
    requires
        other != id,
    ensures
        ({
            let after = context::upserted(contexts, id, fingerprint, connected).0;
            &&& after.dom().contains(other) == contexts.dom().contains(other)
            &&& contexts.dom().contains(other) ==> after[other] == contexts[other]
        }),
{
}

/// Settings that differ anywhere are hashed from different bytes, and settings that are
/// the same have the same fingerprint.
pub proof fn lemma_settings_decide_the_fingerprint(
    left: DestinationConfig,
    right: DestinationConfig,
)
    ensures
        destinations::destination_code(left) == destinations::destination_code(right) <==> left.url@
            == right.url@ && left.client@ == right.client@ && left.language@ == right.language@
            && left.username@ == right.username@ && left.password@ == right.password@,
        destinations::destination_code(left) == destinations::destination_code(right)
            ==> context::settings_fingerprint(left) == context::settings_fingerprint(right),
{
    if destinations::destination_code(left) == destinations::destination_code(right) {
        let nothing = Seq::<u8>::empty();
        assert(destinations::destination_code(left) + nothing =~= destinations::destination_code(
            left,
        ));
        assert(destinations::destination_code(right) + nothing =~= destinations::destination_code(
            right,
        ));
        destinations::lemma_settings_are_told_apart(
            left.url@,
            left.client@,
            left.language@,
            left.username@,
            left.password@,
            right.url@,
            right.client@,
            right.language@,
            right.username@,
            right.password@,
            nothing,
            nothing,
        );
    }
}

/// Requests for the same mounts share one view: once a project has a view, asking again
/// changes nothing and gives the same view, whatever opening another tree would have
/// led to.
pub proof fn lemma_same_mounts_share_a_view<T>(
    views: Map<Seq<u8>, ViewState<T>>,
    project: Seq<u8>,
    mounts: Seq<MountConfigView>,
    first: Result<T, ContextFault>,
    second: Result<T, ContextFault>,
)
    requires
        context::upserted_view(views, project, mounts, first).1 is Ok,
    ensures
        context::upserted_view(
            context::upserted_view(views, project, mounts, first).0,
            project,
            mounts,
            second,
        ) == context::upserted_view(views, project, mounts, first),
        context::view_plan(
            context::upserted_view(views, project, mounts, first).0,
            project,
            mounts,
        ) == ViewPlanView::Reuse,
{
}

/// A view that cannot be opened, and mounts that are not valid, leave all views as they
/// were.
pub proof fn lemma_failure_keeps_views<T>(
    views: Map<Seq<u8>, ViewState<T>>,
    project: Seq<u8>,
    mounts: Seq<MountConfigView>,
    opened: Result<T, ContextFault>,
)
    requires
        opened is Err || project::view_mounts(mounts) is Err,
    ensures
        context::upserted_view(views, project, mounts, opened).0 == views,
        context::upserted_view(views, project, mounts, opened).1 is Err <==> !context::has_view(
            views,
            project,
            mounts,
        ),
{
}

/// A tree that was opened for changed mounts takes the place of the view of the project,
/// and is given with these mounts.
pub proof fn lemma_changed_mounts_replace_the_view<T>(
    views: Map<Seq<u8>, ViewState<T>>,
    project: Seq<u8>,
    mounts: Seq<MountConfigView>,
    tree: T,
)
    requires
        !context::has_view(views, project, mounts),
        project::view_mounts(mounts) is Ok,
    ensures
        ({
            let (after, given) = context::upserted_view(views, project, mounts, Ok(tree));
            &&& given == Ok::<ViewState<T>, ContextFault>(ViewState { mounts, tree })
            &&& after.dom() == views.dom().insert(project)
            &&& after[project] == (ViewState { mounts, tree })
        }),
{
}

/// A request for one project leaves the views of all others as they were.
pub proof fn lemma_projects_are_independent<T>(
    views: Map<Seq<u8>, ViewState<T>>,
    project: Seq<u8>,
    mounts: Seq<MountConfigView>,
    opened: Result<T, ContextFault>,
    other: Seq<u8>,
)
    requires
        other != project,
    ensures
        ({
            let after = context::upserted_view(views, project, mounts, opened).0;
            &&& after.dom().contains(other) == views.dom().contains(other)
            &&& views.dom().contains(other) ==> after[other] == views[other]
        }),
{
}

/// The plan agrees with what a request gives: nothing is opened where a view is reused
/// or the mounts are refused, and otherwise the opened tree decides.
pub proof fn lemma_plan_agrees_with_request<T>(
    views: Map<Seq<u8>, ViewState<T>>,
    project: Seq<u8>,
    mounts: Seq<MountConfigView>,
    opened: Result<T, ContextFault>,
)
    ensures
        match context::view_plan(views, project, mounts) {
            ViewPlanView::Reuse => context::upserted_view(views, project, mounts, opened) == (
                views,
                Ok::<ViewState<T>, ContextFault>(views[project]),
            ),
            ViewPlanView::Refuse(fault) => context::upserted_view(views, project, mounts, opened)
                == (views, Err::<ViewState<T>, ContextFault>(fault)),
            ViewPlanView::Open(_) => match opened {
                Ok(tree) => context::upserted_view(views, project, mounts, opened).1 == Ok::<
                    ViewState<T>,
                    ContextFault,
                >(ViewState { mounts, tree }),
                Err(fault) => context::upserted_view(views, project, mounts, opened).1 == Err::<
                    ViewState<T>,
                    ContextFault,
                >(fault),
            },
        },
{
}

/// With unchanged configuration a refresh gives the view that is there and changes
/// nothing, whatever connecting and opening again would have led to.
pub proof fn lemma_unchanged_configuration_keeps_the_view<C, T>(
    contexts: Map<Seq<char>, ContextSlot<ContextState<C, T>>>,
    id: Seq<char>,
    project: Seq<u8>,
    renew: bool,
    system: ResolvedSystemConfig,
    connected: Result<C, ContextFault>,
    opened: Result<T, ContextFault>,
)
    requires
        context::is_current(contexts, id, context::settings_fingerprint(system.destination)),
        context::has_view(
            contexts[id].context.views,
            project,
            model::views(system.config.mounts@),
        ),
    ensures
        context::selected(contexts, id, project, renew, Ok(system), connected, opened) == (
            contexts,
            Ok::<ViewState<T>, ContextFault>(contexts[id].context.views[project]),
        ),
{
    assert(contexts.insert(id, contexts[id]) =~= contexts);
}

/// A request that fails retains all contexts and views, whether its configuration could
/// not be loaded, a connection could not be made or a view could not be opened. The one
/// exception is a view that could not be opened on a connection that was newly made with
/// changed settings.
pub proof fn lemma_failed_refresh_retains_views<C, T>(
    contexts: Map<Seq<char>, ContextSlot<ContextState<C, T>>>,
    id: Seq<char>,
    project: Seq<u8>,
    renew: bool,
    configured: Result<ResolvedSystemConfig, ConfigFault>,
    connected: Result<C, ContextFault>,
    opened: Result<T, ContextFault>,
)
    requires
        context::selected(contexts, id, project, renew, configured, connected, opened).1 is Err,
        configured matches Ok(system) ==> connected is Err || context::is_current(
            contexts,
            id,
            context::settings_fingerprint(system.destination),
        ),
    ensures
        context::selected(contexts, id, project, renew, configured, connected, opened).0
            == contexts,
{
    if contexts.dom().contains(id) {
        assert(contexts.insert(id, contexts[id]) =~= contexts);
    }
}

/// A view that was asked for and given is there afterwards: it is used from then on,
/// whatever becomes of configuration, connections and trees, until it is renewed.
pub proof fn lemma_given_view_is_there<C, T>(
    contexts: Map<Seq<char>, ContextSlot<ContextState<C, T>>>,
    id: Seq<char>,
    project: Seq<u8>,
    renew: bool,
    configured: Result<ResolvedSystemConfig, ConfigFault>,
    connected: Result<C, ContextFault>,
    opened: Result<T, ContextFault>,
    later_configured: Result<ResolvedSystemConfig, ConfigFault>,
    later_connected: Result<C, ContextFault>,
    later_opened: Result<T, ContextFault>,
)
    requires
        context::selected(contexts, id, project, renew, configured, connected, opened).1 is Ok,
    ensures
        context::selected(
            context::selected(contexts, id, project, renew, configured, connected, opened).0,
            id,
            project,
            false,
            later_configured,
            later_connected,
            later_opened,
        ) == context::selected(contexts, id, project, renew, configured, connected, opened),
{
}

/// A request for a view leaves the views of other projects as they were, but for those
/// on a connection whose settings changed. Other destinations keep all they have.
pub proof fn lemma_other_views_are_kept<C, T>(
    contexts: Map<Seq<char>, ContextSlot<ContextState<C, T>>>,
    id: Seq<char>,
    project: Seq<u8>,
    renew: bool,
    configured: Result<ResolvedSystemConfig, ConfigFault>,
    connected: Result<C, ContextFault>,
    opened: Result<T, ContextFault>,
    other_id: Seq<char>,
    other: Seq<u8>,
)
    requires
        context::is_browsed(contexts, other_id, other),
        other_id != id || other != project && (configured matches Ok(system)
            ==> context::is_current(
            contexts,
            id,
            context::settings_fingerprint(system.destination),
        )),
    ensures
        ({
            let after = context::selected(
                contexts,
                id,
                project,
                renew,
                configured,
                connected,
                opened,
            ).0;
            &&& context::is_browsed(after, other_id, other)
            &&& after[other_id].context.views[other] == contexts[other_id].context.views[other]
            &&& after[other_id].context.client == contexts[other_id].context.client
        }),
{
}

/// Whatever a request for a view gives has exactly the mounts that were asked for, and is
/// there afterwards. The view that was there is given exactly where all of its mounts are
/// those asked for. Otherwise it is a new one, with the tree that was opened, or there is
/// none and nothing changes.
pub proof fn lemma_given_view_has_the_requested_mounts<T>(
    views: Map<Seq<u8>, ViewState<T>>,
    project: Seq<u8>,
    mounts: Seq<MountConfigView>,
    opened: Result<T, ContextFault>,
)
    ensures
        ({
            let (after, given) = context::upserted_view(views, project, mounts, opened);
            let unchanged = views.dom().contains(project) && views[project].mounts == mounts;
            &&& given matches Ok(view) ==> {
                &&& view.mounts == mounts
                &&& after.dom().contains(project)
                &&& after[project] == view
            }
            &&& unchanged ==> given == Ok::<ViewState<T>, ContextFault>(views[project])
            &&& !unchanged && given is Ok ==> opened is Ok && given->Ok_0.tree == opened->Ok_0
            &&& unchanged || given is Err ==> after == views
            &&& given is Ok <==> unchanged || (project::view_mounts(mounts) is Ok && opened is Ok)
        }),
{
}

/// Mounts that are not valid are what a request fails with, whatever opening a tree would
/// have led to. With valid mounts it fails with what went wrong there.
pub proof fn lemma_invalid_mounts_are_reported_first<T>(
    views: Map<Seq<u8>, ViewState<T>>,
    project: Seq<u8>,
    mounts: Seq<MountConfigView>,
    opened: Result<T, ContextFault>,
)
    ensures
        context::upserted_view(views, project, mounts, opened).1 matches Err(fault) ==> {
            ||| project::view_mounts(mounts) matches Err(invalid) && fault == ContextFault::Config(
                invalid,
            )
            ||| project::view_mounts(mounts) is Ok && opened == Err::<T, ContextFault>(fault)
        },
{
}

/// A view is reused only where its mounts are, as a whole, those asked for. Otherwise a
/// tree is opened for the mounts that are described, or they are refused.
pub proof fn lemma_only_the_same_mounts_are_reused<T>(
    views: Map<Seq<u8>, ViewState<T>>,
    project: Seq<u8>,
    mounts: Seq<MountConfigView>,
)
    ensures
        ({
            let plan = context::view_plan(views, project, mounts);
            let unchanged = views.dom().contains(project) && views[project].mounts == mounts;
            &&& plan is Reuse <==> unchanged
            &&& plan matches ViewPlanView::Open(opened) ==> project::view_mounts(mounts) == Ok::<
                Seq<MountView>,
                ConfigFault,
            >(opened)
            &&& plan matches ViewPlanView::Refuse(fault) ==> project::view_mounts(mounts)
                matches Err(invalid) && fault == ContextFault::Config(invalid)
        }),
{
}

/// Whatever a request for a context gives was connected with the settings asked for, and
/// is there afterwards under their fingerprint. The context that was there is given exactly
/// where its fingerprint is the one asked for. Otherwise the request gives what connecting
/// led to.
pub proof fn lemma_given_context_has_the_requested_settings<H>(
    contexts: Map<Seq<char>, ContextSlot<H>>,
    id: Seq<char>,
    fingerprint: u64,
    connected: Result<H, ContextFault>,
)
    ensures
        ({
            let (after, given) = context::upserted(contexts, id, fingerprint, connected);
            let unchanged = contexts.dom().contains(id) && contexts[id].fingerprint == fingerprint;
            &&& given matches Ok(context) ==> {
                &&& after.dom().contains(id)
                &&& after[id].fingerprint == fingerprint
                &&& after[id].context == context
            }
            &&& unchanged ==> given == Ok::<H, ContextFault>(contexts[id].context)
            &&& !unchanged ==> given == connected
            &&& unchanged || given is Err ==> after == contexts
        }),
{
}

/// A project is given the view that it has, whatever its mounts are, as long as it is not
/// renewed. Where it has none, or renews it, configuration that could not be loaded is what
/// the request fails with.
pub proof fn lemma_known_view_is_given<C, T>(
    contexts: Map<Seq<char>, ContextSlot<ContextState<C, T>>>,
    id: Seq<char>,
    project: Seq<u8>,
    renew: bool,
    configured: Result<ResolvedSystemConfig, ConfigFault>,
    connected: Result<C, ContextFault>,
    opened: Result<T, ContextFault>,
)
    ensures
        ({
            let result = context::selected(
                contexts,
                id,
                project,
                renew,
                configured,
                connected,
                opened,
            );
            let known = contexts.dom().contains(id) && contexts[id].context.views.dom().contains(
                project,
            );
            &&& known && !renew ==> result == (
                contexts,
                Ok::<ViewState<T>, ContextFault>(contexts[id].context.views[project]),
            )
            &&& (!known || renew) && configured is Err ==> result == (
                contexts,
                Err::<ViewState<T>, ContextFault>(ContextFault::Config(configured->Err_0)),
            )
        }),
{
}

/// A view that is opened or renewed has the configured mounts and is held on a connection
/// with the configured settings. A connection with the same settings keeps its client, and
/// there the view is the one that the project has for the same mounts, if any. A new
/// connection has the client that was connected and no other view. In all other cases the
/// tree of the view is the one that was opened.
pub proof fn lemma_renewed_view_is_the_configured_one<C, T>(
    contexts: Map<Seq<char>, ContextSlot<ContextState<C, T>>>,
    id: Seq<char>,
    project: Seq<u8>,
    system: ResolvedSystemConfig,
    connected: Result<C, ContextFault>,
    opened: Result<T, ContextFault>,
)
    ensures
        ({
            let (after, given) = context::selected(
                contexts,
                id,
                project,
                true,
                Ok(system),
                connected,
                opened,
            );
            let fingerprint = context::settings_fingerprint(system.destination);
            let mounts = model::views(system.config.mounts@);
            let same_connection = contexts.dom().contains(id) && contexts[id].fingerprint
                == fingerprint;
            let views = contexts[id].context.views;
            let same_view = same_connection && views.dom().contains(project)
                && views[project].mounts == mounts;
            &&& given matches Ok(view) ==> {
                &&& view.mounts == mounts
                &&& after.dom() == contexts.dom().insert(id)
                &&& after[id].fingerprint == fingerprint
                &&& after[id].context.views.dom().contains(project)
                &&& after[id].context.views[project] == view
                &&& same_connection ==> after[id].context.client == contexts[id].context.client
                &&& !same_connection ==> {
                    &&& connected == Ok::<C, ContextFault>(after[id].context.client)
                    &&& after[id].context.views.dom() =~= set![project]
                }
                &&& same_view ==> view == views[project]
                &&& !same_view ==> opened == Ok::<T, ContextFault>(view.tree)
            }
            &&& given is Err ==> !same_view && (!same_connection && connected == Err::<
                C,
                ContextFault,
            >(given->Err_0) || project::view_mounts(mounts) is Err || opened == Err::<
                T,
                ContextFault,
            >(given->Err_0))
        }),
{
    if contexts.dom().contains(id) {
        assert(contexts.dom().insert(id) =~= contexts.dom());
    }
}

/// The state of a store shows every connected system, with its client, the fingerprint of
/// its settings and the mounts and trees of all of its views.
pub proof fn lemma_states_show_everything<C, T>(
    contexts: Map<Seq<char>, ContextSlot<SystemContext<C, T>>>,
    id: Seq<char>,
    project: Seq<u8>,
)
    ensures
        context::states(contexts).dom() == contexts.dom(),
        contexts.dom().contains(id) ==> {
            let shown = context::states(contexts)[id];
            let held = contexts[id].context.views@;
            &&& shown.fingerprint == contexts[id].fingerprint
            &&& shown.context.client == contexts[id].context.client
            &&& shown.context.views.dom() == held.dom()
            &&& held.dom().contains(project) ==> {
                &&& shown.context.views[project].mounts == model::views(held[project].mounts@)
                &&& shown.context.views[project].tree == held[project].tree
            }
        },
{
    assert(context::states(contexts).dom() =~= contexts.dom());
    if contexts.dom().contains(id) {
        assert(context::states(contexts)[id].context.views.dom()
            =~= contexts[id].context.views@.dom());
    }
}

/// A failure to provide a view says what went wrong: what configuration, connecting or
/// opening reported is passed on unchanged.
pub proof fn lemma_reasons_are_passed_on(fault: ConfigFault, message: Seq<char>)
    ensures
        context::fault_text(ContextFault::Config(fault)) == config::fault_text(fault),
        context::fault_text(ContextFault::Transport(message)) == message,
        context::fault_text(ContextFault::Operation(message)) == message,
        context::fault_text(ContextFault::Vfs(message)) == message,
        context::fault_text(ContextFault::BuildTimeout)
            == "Timed out while connecting to the repository or building its view"@,
{
}

} // verus!

//! Laws of configured mounts: what of a configuration appears in a mount.

use crate::config::project;
use crate::config::project::{FacetConfigView, MountConfigView};
use crate::config::ConfigFault;
use crate::config::MountConfig;
use crate::mounts;
use crate::mounts::MountSource;
use crate::repository::{MountScopeView, MountView};
use vstd::prelude::*;

verus! {

/// A mount appears under its configured label, a package without one under its name, and
/// shows what is configured: the system, the package, or the objects that its filters
/// select, each filter with its facet, its values and what it excludes.
pub proof fn lemma_mount_shows_what_is_configured(config: MountConfigView)
    ensures
        project::mount_of(config) matches Ok(mount) ==> match config {
            MountConfigView::SystemLibrary { label, .. } => {
                &&& mount.label == label
                &&& mount.scope is SystemLibrary
            },
            MountConfigView::Package { package, label, .. } => match label {
                None => {
                    &&& mount.label == package
                    &&& mount.scope == MountScopeView::Package(package)
                },
                Some(label) => {
                    &&& mount.label == label
                    &&& mount.scope == MountScopeView::NamedPackage(package)
                },
            },
            MountConfigView::Selection { label, filters, .. } => {
                &&& mount.label == label
                &&& mount.scope matches MountScopeView::Selection(selected) && {
                    &&& selected.len() == filters.len()
                    &&& forall|i: int|
                        0 <= i < filters.len() ==> {
                            &&& (#[trigger] selected[i]).facet == filters[i].facet
                            &&& selected[i].included == filters[i].values
                            &&& selected[i].excluded == filters[i].exclude
                        }
                }
            },
        },
{
}

/// A mount of every kind is grouped exactly where facets are configured for it, by as many
/// levels in the same order, each with the configured facet and its threshold, if any.
pub proof fn lemma_mount_keeps_its_facets(config: MountConfigView)
    ensures
        project::mount_of(config) matches Ok(mount) ==> {
            let configured = match config {
                MountConfigView::SystemLibrary { facets, .. } => facets,
                MountConfigView::Package { facets, .. } => facets,
                MountConfigView::Selection { facets, .. } => facets,
            };
            &&& mount.facets is Some <==> configured is Some
            &&& configured matches Some(facets) ==> {
                let levels = mount.facets->0;
                &&& levels.len() == facets.len()
                &&& forall|i: int|
                    0 <= i < facets.len() ==> match facets[i] {
                        FacetConfigView::Always(facet) => (#[trigger] levels[i]).facet == facet
                            && levels[i].minimum_objects is None,
                        FacetConfigView::Adaptive { facet, minimum_objects } => levels[i].facet
                            == facet && levels[i].minimum_objects == Some(minimum_objects),
                    }
            }
        },
{
}

/// A mount is refused exactly where a package has no name, a filter selects nothing or
/// there is no label to show, in this order, and is built otherwise.
pub proof fn lemma_which_mounts_are_refused(config: MountConfigView)
    ensures
        match config {
            MountConfigView::SystemLibrary { label, .. } => {
                &&& label.len() > 0 ==> project::mount_of(config) is Ok
                &&& label.len() == 0 ==> project::mount_of(config) == Err::<
                    MountView,
                    ConfigFault,
                >(ConfigFault::EmptyMountLabel)
            },
            MountConfigView::Package { package, label, .. } => {
                let unlabelled = label is Some && label->0.len() == 0;
                &&& package.len() == 0 ==> project::mount_of(config) == Err::<
                    MountView,
                    ConfigFault,
                >(ConfigFault::EmptyPackage)
                &&& package.len() > 0 && unlabelled ==> project::mount_of(config) == Err::<
                    MountView,
                    ConfigFault,
                >(ConfigFault::EmptyMountLabel)
                &&& package.len() > 0 && !unlabelled ==> project::mount_of(config) is Ok
            },
            MountConfigView::Selection { label, filters, .. } => {
                let selects = forall|i: int|
                    0 <= i < filters.len() ==> (#[trigger] filters[i]).values.len() > 0;
                &&& !selects ==> project::mount_of(config) == Err::<MountView, ConfigFault>(
                    ConfigFault::EmptyFilter { label },
                )
                &&& selects && label.len() == 0 ==> project::mount_of(config) == Err::<
                    MountView,
                    ConfigFault,
                >(ConfigFault::EmptyMountLabel)
                &&& selects && label.len() > 0 ==> project::mount_of(config) is Ok
            },
        },
{
}

/// A view opens one mount for each configured one, in the same order, or fails as the
/// first of them does that is refused. Without mounts it opens the whole system.
pub proof fn lemma_view_opens_the_configured_mounts(configs: Seq<MountConfigView>)
    ensures
        configs.len() == 0 ==> project::view_mounts(configs) == Ok::<Seq<MountView>, ConfigFault>(
            seq![
                MountView {
                    label: "System Library"@,
                    scope: MountScopeView::SystemLibrary,
                    facets: None,
                },
            ],
        ),
        configs.len() > 0 ==> match project::view_mounts(configs) {
            Ok(built) => {
                &&& built.len() == configs.len()
                &&& forall|i: int|
                    0 <= i < configs.len() ==> #[trigger] project::mount_of(configs[i]) == Ok::<
                        MountView,
                        ConfigFault,
                    >(built[i])
            },
            Err(fault) => exists|i: int|
                {
                    &&& 0 <= i < configs.len()
                    &&& #[trigger] project::mount_of(configs[i]) == Err::<MountView, ConfigFault>(
                        fault,
                    )
                    &&& forall|j: int|
                        0 <= j < i ==> #[trigger] project::mount_of(configs[j]) is Ok
                },
        },
{
    mounts::lemma_first_refused_mount_decides::<MountConfig>(configs);
    mounts::lemma_each_mount_is_described::<MountConfig>(configs);
    assert forall|i: int| #[trigger] MountConfig::described(configs[i]) == project::mount_of(
        configs[i],
    ) by {}
    if configs.len() > 0 {
        match project::view_mounts(configs) {
            Ok(built) => {
                assert forall|i: int| 0 <= i < configs.len() implies #[trigger] project::mount_of(
                    configs[i],
                ) == Ok::<MountView, ConfigFault>(built[i]) by {
                    assert(MountConfig::described(configs[i]) is Ok);
                }
            },
            Err(fault) => {
                let i = choose|i: int|
                    {
                        &&& 0 <= i < configs.len()
                        &&& #[trigger] MountConfig::described(configs[i]) == Err::<
                            MountView,
                            ConfigFault,
                        >(fault)
                        &&& forall|j: int|
                            0 <= j < i ==> #[trigger] MountConfig::described(configs[j]) is Ok
                    };
                assert(project::mount_of(configs[i]) == Err::<MountView, ConfigFault>(fault));
                assert forall|j: int| 0 <= j < i implies #[trigger] project::mount_of(
                    configs[j],
                ) is Ok by {
                    assert(MountConfig::described(configs[j]) is Ok);
                }
            },
        }
    }
}

} // verus!

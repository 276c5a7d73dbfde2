//! What is built from configured mounts.

use crate::config::project;
use crate::config::project::{preselections, FilterConfigView};
use crate::config::{
    ConfigError, ConfigFault, FacetConfig, FilterConfig, MountConfig, ProjectSystemConfig,
    ResolvedSystemConfig,
};
use crate::model;
use crate::mounts;
use crate::mounts::MountSource;
use crate::repository::{FacetLevel, Mount, MountScope, MountView, Preselection};
use vstd::prelude::*;

verus! {

/// Whether a level is the one that a facet configures: it has the name of the facet, and
/// its threshold exactly where one is configured.
pub open spec fn is_level_of(level: FacetLevel, facet: FacetConfig) -> bool {
    match facet {
        FacetConfig::Always(name) => level.facet@ == name@ && level.minimum_objects is None,
        FacetConfig::Adaptive { facet: name, minimum_objects } => level.facet@ == name@
            && level.minimum_objects == Some(minimum_objects),
    }
}

/// Whether levels are those that facets configure, in the same order, and there are some
/// exactly where facets are configured.
pub open spec fn groups_by(
    levels: Option<Vec<FacetLevel>>,
    facets: Option<Vec<FacetConfig>>,
) -> bool {
    match (levels, facets) {
        (None, None) => true,
        (Some(levels), Some(facets)) => {
            &&& levels@.len() == facets@.len()
            &&& forall|i: int|
                0 <= i < facets@.len() ==> is_level_of(#[trigger] levels@[i], facets@[i])
        },
        _ => false,
    }
}

/// Whether a preselection is the one that a filter configures: of the same facet, with all
/// of its values included and all that it excludes excluded.
pub open spec fn is_preselection_of(selected: Preselection, filter: FilterConfig) -> bool {
    &&& selected.facet@ == filter.facet@
    &&& model::are_same_texts(selected.included@, filter.values@)
    &&& model::are_same_texts(selected.excluded@, filter.exclude@)
}

/// Whether preselections are those that filters configure, in the same order.
pub open spec fn selects_by(selected: Seq<Preselection>, filters: Seq<FilterConfig>) -> bool {
    &&& selected.len() == filters.len()
    &&& forall|i: int|
        0 <= i < filters.len() ==> is_preselection_of(#[trigger] selected[i], filters[i])
}

/// Whether all filters have values.
pub open spec fn all_select(filters: Seq<FilterConfig>) -> bool {
    forall|i: int| 0 <= i < filters.len() ==> (#[trigger] filters[i]).values@.len() > 0
}

/// Whether the outcome of building a mount is right for its configuration.
pub open spec fn is_mount_of(built: Result<Mount, ConfigError>, config: MountConfig) -> bool {
    match config {
        MountConfig::SystemLibrary { label, facets } => if label@.len() == 0 {
            built matches Err(error) && error is EmptyMountLabel
        } else {
            built matches Ok(mount) && {
                &&& mount.label@ == label@
                &&& mount.scope is SystemLibrary
                &&& groups_by(mount.facets, facets)
            }
        },
        MountConfig::Package { package, label, facets } => if package@.len() == 0 {
            built matches Err(error) && error is EmptyPackage
        } else if label is Some && label->0@.len() == 0 {
            built matches Err(error) && error is EmptyMountLabel
        } else {
            built matches Ok(mount) && {
                &&& groups_by(mount.facets, facets)
                &&& match label {
                    None => mount.label@ == package@ && (mount.scope matches MountScope::Package(
                        shown,
                    ) && shown@ == package@),
                    Some(label) => mount.label@ == label@ && (mount.scope
                        matches MountScope::NamedPackage(shown) && shown@ == package@),
                }
            }
        },
        MountConfig::Selection { label, filters, facets } => if !all_select(filters@) {
            built matches Err(ConfigError::EmptyFilter { label: named }) && named@ == label@
        } else if label@.len() == 0 {
            built matches Err(error) && error is EmptyMountLabel
        } else {
            built matches Ok(mount) && {
                &&& mount.label@ == label@
                &&& mount.scope matches MountScope::Selection(selected) && selects_by(
                    selected@,
                    filters@,
                )
                &&& groups_by(mount.facets, facets)
            }
        },
    }
}

pub(crate) proof fn lemma_selects_by(selected: Seq<Preselection>, filters: Seq<FilterConfig>)
    requires
        model::views(selected) == model::views(filters).map_values(
            |filter: FilterConfigView|
                project::preselection_of(filter),
        ),
    ensures
        selects_by(selected, filters),
{
    model::lemma_views(selected);
    model::lemma_views(filters);
    assert forall|i: int| 0 <= i < filters.len() implies is_preselection_of(
        #[trigger] selected[i],
        filters[i],
    ) by {
        assert(model::views(selected)[i] == project::preselection_of(
            model::views(filters)[i],
        ));
        assert(model::views(selected)[i] == selected[i]@);
        model::lemma_same_texts(selected[i].included@, filters[i].values@);
        model::lemma_same_texts(selected[i].excluded@, filters[i].exclude@);
    }
}

proof fn lemma_groups_by(levels: Option<Vec<FacetLevel>>, facets: Option<Vec<FacetConfig>>)
    requires
        model::optional_views(levels) == project::levels_of(
            model::optional_views(facets),
        ),
    ensures
        groups_by(levels, facets),
{
    if let (Some(levels), Some(facets)) = (levels, facets) {
        model::lemma_views(levels@);
        model::lemma_views(facets@);
        assert forall|i: int| 0 <= i < facets@.len() implies is_level_of(
            #[trigger] levels@[i],
            facets@[i],
        ) by {
            assert(model::views(levels@)[i] == project::level_of(
                model::views(facets@)[i],
            ));
            assert(model::views(levels@)[i] == levels@[i]@);
        }
    }
}

/// All filters have values exactly where none is empty.
pub(crate) proof fn lemma_all_select(filters: Seq<FilterConfig>)
    ensures
        all_select(filters) <==> !project::has_empty_filter(model::views(filters)),
{
    model::lemma_views(filters);
    let seen = model::views(filters);
    if project::has_empty_filter(seen) {
        let i = choose|i: int| 0 <= i < seen.len() && (#[trigger] seen[i]).values.len() == 0;
        assert(seen[i] == filters[i]@);
        assert(filters[i].values@.len() == 0);
    } else {
        assert forall|i: int| 0 <= i < filters.len() implies (
        #[trigger] filters[i]).values@.len() > 0 by {
            assert(seen[i] == filters[i]@);
        }
    }
}

proof fn lemma_is_mount_of(built: Result<Mount, ConfigError>, config: MountConfig)
    requires
        model::outcome(built) == project::mount_of(config@),
    ensures
        is_mount_of(built, config),
{
    match config {
        MountConfig::SystemLibrary { label, facets } => {
            if let Ok(mount) = built {
                lemma_groups_by(mount.facets, facets);
            }
        },
        MountConfig::Package { package, label, facets } => {
            if let Ok(mount) = built {
                lemma_groups_by(mount.facets, facets);
            }
        },
        MountConfig::Selection { label, filters, facets } => {
            lemma_all_select(filters@);
            if let Ok(mount) = built {
                lemma_groups_by(mount.facets, facets);
                if let MountScope::Selection(selected) = mount.scope {
                    lemma_selects_by(selected@, filters@);
                }
            }
        },
    }
}

/// A mount is built with the label, the scope and the facets of its configuration,
/// whatever its kind. It is refused exactly where a package has no name, a filter has no
/// values or there is no label to show, in this order.
pub proof fn lemma_built_mount_is_the_configured_one(
    config: MountConfig,
    built: Result<Mount, ConfigError>,
)
    requires
        call_ensures(MountConfig::build, (&config,), built),
    ensures
        is_mount_of(built, config),
{
    lemma_is_mount_of(built, config);
}

/// The level of a facet has its name and its threshold.
pub proof fn lemma_level_of_a_facet(facet: FacetConfig, level: FacetLevel)
    requires
        call_ensures(FacetConfig::level, (&facet,), level),
    ensures
        is_level_of(level, facet),
{
}

/// Filters that all have values give their preselections, in order. Others give nothing.
pub proof fn lemma_preselections_of_filters(
    filters: Vec<FilterConfig>,
    selected: Option<Vec<Preselection>>,
)
    requires
        call_ensures(preselections, (&filters,), selected),
    ensures
        selected is Some <==> all_select(filters@),
        selected matches Some(selected) ==> selects_by(selected@, filters@),
{
    lemma_all_select(filters@);
    if let Some(selected) = selected {
        lemma_selects_by(selected@, filters@);
    }
}

/// Whether the outcome of building all mounts is right for their configurations: one mount
/// for each, in order, or the error of the first that is refused. Without any, the whole
/// system under its usual label.
pub open spec fn are_mounts_of(
    built: Result<Vec<Mount>, ConfigError>,
    configs: Seq<MountConfig>,
) -> bool {
    if configs.len() == 0 {
        built matches Ok(mounts) && {
            &&& mounts@.len() == 1
            &&& mounts@[0].label@ == "System Library"@
            &&& mounts@[0].scope is SystemLibrary
            &&& mounts@[0].facets is None
        }
    } else {
        match built {
            Ok(mounts) => {
                &&& mounts@.len() == configs.len()
                &&& forall|i: int|
                    0 <= i < configs.len() ==> is_mount_of(Ok(#[trigger] mounts@[i]), configs[i])
            },
            Err(error) => exists|i: int|
                {
                    &&& 0 <= i < configs.len()
                    &&& is_mount_of(Err(error), #[trigger] configs[i])
                    &&& forall|j: int|
                        0 <= j < i ==> !is_mount_of(Err(error), #[trigger] configs[j])
                },
        }
    }
}

proof fn lemma_are_mounts_of(built: Result<Vec<Mount>, ConfigError>, configs: Seq<MountConfig>)
    requires
        model::list_outcome(built) == project::view_mounts(model::views(configs)),
    ensures
        are_mounts_of(built, configs),
{
    let seen = model::views(configs);
    model::lemma_views(configs);
    mounts::lemma_first_refused_mount_decides::<MountConfig>(seen);
    mounts::lemma_each_mount_is_described::<MountConfig>(seen);
    if configs.len() == 0 {
        let mounts = built->Ok_0;
        model::lemma_views(mounts@);
        assert(model::views(mounts@)[0] == mounts@[0]@);
    } else {
        match built {
            Ok(mounts) => {
                model::lemma_views(mounts@);
                assert forall|i: int| 0 <= i < configs.len() implies is_mount_of(
                    Ok(#[trigger] mounts@[i]),
                    configs[i],
                ) by {
                    assert(MountConfig::described(seen[i]) is Ok);
                    assert(model::views(mounts@)[i] == mounts@[i]@);
                    lemma_is_mount_of(Ok(mounts@[i]), configs[i]);
                }
            },
            Err(error) => {
                let i = choose|i: int|
                    {
                        &&& 0 <= i < seen.len()
                        &&& #[trigger] MountConfig::described(seen[i]) == Err::<
                            MountView,
                            ConfigFault,
                        >(error@)
                        &&& forall|j: int|
                            0 <= j < i ==> #[trigger] MountConfig::described(seen[j]) is Ok
                    };
                assert(seen[i] == configs[i]@);
                lemma_is_mount_of(Err(error), configs[i]);
                assert forall|j: int| 0 <= j < i implies !is_mount_of(
                    Err(error),
                    #[trigger] configs[j],
                ) by {
                    assert(MountConfig::described(seen[j]) is Ok);
                    assert(seen[j] == configs[j]@);
                    lemma_refused_is_not_built(error, configs[j]);
                }
            },
        }
    }
}

/// What is built is not refused.
proof fn lemma_refused_is_not_built(error: ConfigError, config: MountConfig)
    requires
        project::mount_of(config@) is Ok,
    ensures
        !is_mount_of(Err(error), config),
{
    if let MountConfig::Selection { filters, .. } = config {
        lemma_all_select(filters@);
    }
}

/// A system builds one mount for each that is configured, in order, or fails as the first
/// that is refused. Without any it shows the whole system.
pub proof fn lemma_system_builds_its_mounts(
    config: ProjectSystemConfig,
    built: Result<Vec<Mount>, ConfigError>,
)
    requires
        call_ensures(ProjectSystemConfig::build_mounts, (&config,), built),
    ensures
        are_mounts_of(built, config.mounts@),
{
    lemma_are_mounts_of(built, config.mounts@);
}

/// A resolved system has the mounts that its project configures.
pub proof fn lemma_resolved_system_has_its_mounts(
    system: ResolvedSystemConfig,
    built: Result<Vec<Mount>, ConfigError>,
)
    requires
        call_ensures(ResolvedSystemConfig::mounts, (&system,), built),
    ensures
        are_mounts_of(built, system.config.mounts@),
{
    lemma_are_mounts_of(built, system.config.mounts@);
}

/// A mount of the whole system has the label that a file gives, and otherwise the usual
/// one. Its facets are those of the file.
pub proof fn lemma_system_library_has_a_label(
    label: Option<String>,
    facets: Option<Vec<FacetConfig>>,
    config: MountConfig,
)
    requires
        call_ensures(MountConfig::system_library, (label, facets), config),
    ensures
        config matches MountConfig::SystemLibrary { label: shown, facets: grouped } && {
            &&& label matches Some(given) ==> shown@ == given@
            &&& label is None ==> shown@ == "System Library"@
            &&& model::optional_views(grouped) == model::optional_views(facets)
        },
{
}

} // verus!

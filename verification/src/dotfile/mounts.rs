//! Mounts of a `.ziege` project file.

use crate::config::project;
use crate::config::project::{preselections, FilterConfig, FilterConfigView};
use crate::dotfile::{ConfigError, ConfigFault};
use crate::model;
use crate::mounts;
use crate::mounts::MountSource;
use crate::repository::{FacetLevel, FacetLevelView, Mount, MountScopeView, MountView};
use vstd::prelude::*;

verus! {

/// A root entry in a repository, optionally organized by repository facets.
#[derive(Debug, Hash)]
#[allow(inconsistent_fields)]
pub enum MountConfig {
    SystemLibrary { label: String, facets: Option<Vec<FacetConfig>> },
    Package { package: String, label: Option<String>, facets: Option<Vec<FacetConfig>> },
    Selection {
        label: String,
        filters: Vec<FilterConfig>,
        facets: Option<Vec<FacetConfig>>,
    },
}

/// A facet name, or a facet for which an object-count threshold can be given.
#[derive(Debug, Hash)]
#[allow(inconsistent_fields)]
pub enum FacetConfig {
    Always(String),
    Detailed { facet: String, minimum_objects: Option<u32> },
}

pub enum FacetConfigView {
    Always(Seq<char>),
    Detailed { facet: Seq<char>, minimum_objects: Option<u32> },
}

#[allow(inconsistent_fields)]
pub enum MountConfigView {
    SystemLibrary { label: Seq<char>, facets: Option<Seq<FacetConfigView>> },
    Package {
        package: Seq<char>,
        label: Option<Seq<char>>,
        facets: Option<Seq<FacetConfigView>>,
    },
    Selection {
        label: Seq<char>,
        filters: Seq<FilterConfigView>,
        facets: Option<Seq<FacetConfigView>>,
    },
}

impl View for FacetConfig {
    type V = FacetConfigView;

    open spec fn view(&self) -> FacetConfigView {
        match self {
            FacetConfig::Always(facet) => FacetConfigView::Always(facet@),
            FacetConfig::Detailed { facet, minimum_objects } => FacetConfigView::Detailed {
                facet: facet@,
                minimum_objects: *minimum_objects,
            },
        }
    }
}

impl View for MountConfig {
    type V = MountConfigView;

    open spec fn view(&self) -> MountConfigView {
        match self {
            MountConfig::SystemLibrary { label, facets } => MountConfigView::SystemLibrary {
                label: label@,
                facets: model::optional_views(*facets),
            },
            MountConfig::Package { package, label, facets } => MountConfigView::Package {
                package: package@,
                label: model::optional(*label),
                facets: model::optional_views(*facets),
            },
            MountConfig::Selection { label, filters, facets } => MountConfigView::Selection {
                label: label@,
                filters: model::views(filters@),
                facets: model::optional_views(*facets),
            },
        }
    }
}

/// The grouping level that a facet configures.
pub open spec fn level_of(config: FacetConfigView) -> FacetLevelView {
    match config {
        FacetConfigView::Always(facet) => FacetLevelView { facet, minimum_objects: None },
        FacetConfigView::Detailed { facet, minimum_objects } => FacetLevelView {
            facet,
            minimum_objects,
        },
    }
}

/// The grouping levels that facets configure, in order.
pub open spec fn levels_of(facets: Seq<FacetConfigView>) -> Seq<FacetLevelView> {
    facets.map_values(|facet: FacetConfigView| level_of(facet))
}

/// The grouping levels of a mount, where it configures any.
pub open spec fn policy_of(facets: Option<Seq<FacetConfigView>>) -> Option<Seq<FacetLevelView>> {
    match facets {
        Some(facets) => Some(levels_of(facets)),
        None => None,
    }
}

/// The mount that a configuration describes, or why it describes none. A package name
/// is looked at before its label, and a label before its filters.
pub open spec fn mount_of(config: MountConfigView) -> Result<MountView, ConfigFault> {
    match config {
        MountConfigView::SystemLibrary { label, facets } => if label.len() == 0 {
            Err(ConfigFault::EmptyMountLabel)
        } else {
            Ok(
                MountView {
                    label,
                    scope: MountScopeView::SystemLibrary,
                    facets: policy_of(facets),
                },
            )
        },
        MountConfigView::Package { package, label, facets } => if package.len() == 0 {
            Err(ConfigFault::EmptyPackage)
        } else if label is Some && label->0.len() == 0 {
            Err(ConfigFault::EmptyMountLabel)
        } else {
            Ok(
                MountView {
                    label: if label is Some {
                        label->0
                    } else {
                        package
                    },
                    scope: if label is Some {
                        MountScopeView::NamedPackage(package)
                    } else {
                        MountScopeView::Package(package)
                    },
                    facets: policy_of(facets),
                },
            )
        },
        MountConfigView::Selection { label, filters, facets } => if label.len() == 0 {
            Err(ConfigFault::EmptyMountLabel)
        } else if project::has_empty_filter(filters) {
            Err(ConfigFault::EmptyFilter { label })
        } else {
            Ok(
                MountView {
                    label,
                    scope: MountScopeView::Selection(
                        filters.map_values(
                            |filter: FilterConfigView| project::preselection_of(filter),
                        ),
                    ),
                    facets: policy_of(facets),
                },
            )
        },
    }
}

/// Refuses an empty label.
pub fn validate_label(label: &str) -> (valid: Result<(), ConfigError>)
    ensures
        match valid {
            Ok(()) => label@.len() > 0,
            Err(error) => label@.len() == 0 && error@ == ConfigFault::EmptyMountLabel,
        },
{
    if label.is_empty() {
        Err(ConfigError::EmptyMountLabel)
    } else {
        Ok(())
    }
}

/// The label of a system library mount where none is configured.
pub fn default_system_library_label() -> (label: String)
    ensures
        label@ == "System Library"@,
{
    "System Library".to_owned()
}

/// The grouping levels that facets configure.
pub fn facet_policy(facets: &Vec<FacetConfig>) -> (levels: Vec<FacetLevel>)
    ensures
        model::views(levels@) == levels_of(model::views(facets@)),
{
    let mut levels: Vec<FacetLevel> = Vec::new();
    let mut at: usize = 0;
    while at < facets.len()
        invariant
            at <= facets@.len(),
            levels@.len() == at,
            forall|i: int| 0 <= i < at ==> (#[trigger] levels@[i])@ == level_of(facets@[i]@),
        decreases facets@.len() - at,
    {
        let level = match &facets[at] {
            FacetConfig::Always(facet) => FacetLevel {
                facet: facet.clone(),
                minimum_objects: None,
            },
            FacetConfig::Detailed { facet, minimum_objects } => FacetLevel {
                facet: facet.clone(),
                minimum_objects: *minimum_objects,
            },
        };
        levels.push(level);
        at = at + 1;
    }
    assert(model::views(levels@) =~= levels_of(model::views(facets@)));
    levels
}

impl MountConfig {
    /// A mount of the whole system as a file gives it.
    pub fn system_library(label: Option<String>, facets: Option<Vec<FacetConfig>>) -> (config: Self)
        ensures
            config@ == (MountConfigView::SystemLibrary {
                label: match label {
                    Some(label) => label@,
                    None => "System Library"@,
                },
                facets: model::optional_views(facets),
            }),
    {
        let label = match label {
            Some(label) => label,
            None => default_system_library_label(),
        };
        MountConfig::SystemLibrary { label, facets }
    }

    /// The mount that the configuration describes.
    pub fn build(&self) -> (built: Result<Mount, ConfigError>)
        ensures
            model::outcome(built) == mount_of(self@),
    {
        let (mount, facets) = match self {
            MountConfig::SystemLibrary { label, facets } => {
                if let Err(error) = validate_label(label.as_str()) {
                    return Err(error);
                }
                (Mount::system_library(label.clone()), facets)
            },
            MountConfig::Package { package, label, facets } => {
                if package.as_str().is_empty() {
                    return Err(ConfigError::EmptyPackage);
                }
                let mount = match label {
                    Some(label) => {
                        if let Err(error) = validate_label(label.as_str()) {
                            return Err(error);
                        }
                        Mount::named_package(label.clone(), package.clone())
                    },
                    None => Mount::package(package.clone()),
                };
                (mount, facets)
            },
            MountConfig::Selection { label, filters, facets } => {
                if let Err(error) = validate_label(label.as_str()) {
                    return Err(error);
                }
                match preselections(filters) {
                    None => {
                        return Err(ConfigError::EmptyFilter { label: label.clone() });
                    },
                    Some(preselections) => (
                        Mount::selection(label.clone(), preselections),
                        facets,
                    ),
                }
            },
        };
        let facets = match facets {
            None => None,
            Some(facets) => Some(facet_policy(facets)),
        };
        Ok(Mount { label: mount.label, scope: mount.scope, facets })
    }
}

impl MountSource for MountConfig {
    type Error = ConfigError;

    open spec fn described(config: MountConfigView) -> Result<MountView, ConfigFault> {
        mount_of(config)
    }

    fn build_mount(&self) -> (built: Result<Mount, ConfigError>) {
        self.build()
    }
}

/// The mounts of a system: those configured, or the whole system where none are.
pub open spec fn system_mounts(mounts: Seq<MountConfigView>) -> Result<
    Seq<MountView>,
    ConfigFault,
> {
    mounts::view_mounts::<MountConfig>(mounts)
}

/// Every mount of a system can be shown: it has a label, a package mount has a package,
/// and a selection mount values to select.
pub proof fn lemma_system_mounts_can_be_shown(configs: Seq<MountConfigView>)
    ensures
        system_mounts(configs) matches Ok(built) ==> {
            &&& built.len() > 0
            &&& forall|i: int| 0 <= i < built.len() ==> mounts::can_be_shown(#[trigger] built[i])
        },
{
    reveal_strlit("System Library");
    mounts::lemma_each_mount_is_described::<MountConfig>(configs);
    if configs.len() > 0 && system_mounts(configs) is Ok {
        let built = system_mounts(configs)->Ok_0;
        assert forall|i: int| 0 <= i < built.len() implies mounts::can_be_shown(
            #[trigger] built[i],
        ) by {
            assert(MountConfig::described(configs[i]) == Ok::<MountView, ConfigFault>(built[i]));
        }
    }
}

} // verus!

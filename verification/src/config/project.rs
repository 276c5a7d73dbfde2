//! Project-local systems, mounts, and repository selection of `ziege.toml`.

use crate::config::file;
use crate::config::{read_config, ConfigError, ConfigFault, FileOutcome, CONFIG_VERSION};
use crate::model;
use crate::model::{copy_text, copy_texts, same_optional, same_texts};
use crate::mounts;
use crate::mounts::{build_mounts, MountSource};
use crate::path;
use crate::path::FilePath;
use crate::repository::{
    FacetLevel, FacetLevelView, Mount, MountScopeView, MountView, Preselection, PreselectionView,
};
use crate::text_map::TextMap;
use vstd::prelude::*;
use vstd::utf8::*;

verus! {

/// Canonical project path used to identify a repository view across clients.
/// Symlinks and relative components are resolved before it is made.
#[derive(Debug, Eq, Hash, PartialEq)]
pub struct ProjectRoot(pub FilePath);

/// Configuration of the project-local `ziege.toml` file.
pub struct ProjectConfig {
    /// Version of the configuration format.
    pub version: u32,
    /// Configuration per destination, in the order of the destination names.
    pub systems: TextMap<ProjectSystemConfig>,
}

/// Configuration for a system inside a project.
#[derive(Debug, Hash)]
pub struct ProjectSystemConfig {
    /// Name of the folder that presents the portal to the system.
    pub folder: Option<String>,
    /// Editing preference.
    pub readonly: bool,
    /// Root mounts for the repository. Empty means a System Library mount.
    pub mounts: Vec<MountConfig>,
}

/// A root entry in a repository, optionally organized by repository facets.
#[derive(Debug, Eq, Hash, PartialEq)]
#[allow(inconsistent_fields)]
pub enum MountConfig {
    SystemLibrary { label: String, facets: Option<Vec<FacetConfig>> },
    Package { package: String, label: Option<String>, facets: Option<Vec<FacetConfig>> },
    Selection {
        label: String,
        filters: Vec<FilterConfig>,
        facets: Option<Vec<FacetConfig>>,
    },
}

/// A facet name, or a facet with an adaptive object-count threshold.
#[derive(Debug, Eq, Hash, PartialEq)]
pub enum FacetConfig {
    Always(String),
    Adaptive { facet: String, minimum_objects: u32 },
}

/// Inclusion and exclusion values for one selection-mount facet.
#[derive(Debug, Eq, Hash, PartialEq)]
pub struct FilterConfig {
    pub facet: String,
    pub values: Vec<String>,
    pub exclude: Vec<String>,
}

pub enum FacetConfigView {
    Always(Seq<char>),
    Adaptive { facet: Seq<char>, minimum_objects: u32 },
}

pub struct FilterConfigView {
    pub facet: Seq<char>,
    pub values: Seq<Seq<char>>,
    pub exclude: Seq<Seq<char>>,
}

#[allow(inconsistent_fields)]
pub enum MountConfigView {
    SystemLibrary { label: Seq<char>, facets: Option<Seq<FacetConfigView>> },
    Package {
        package: Seq<char>,
        label: Option<Seq<char>>,
        facets: Option<Seq<FacetConfigView>>,
    },
    Selection {
        label: Seq<char>,
        filters: Seq<FilterConfigView>,
        facets: Option<Seq<FacetConfigView>>,
    },
}

impl View for ProjectRoot {
    type V = Seq<u8>;

    open spec fn view(&self) -> Seq<u8> {
        self.0@
    }
}

impl Clone for ProjectRoot {
    fn clone(&self) -> (copy: Self)
        ensures
            copy@ == self@,
    {
        ProjectRoot(self.0.clone())
    }
}

impl ProjectRoot {
    /// The path of the project directory.
    pub fn as_path(&self) -> (path: &FilePath)
        ensures
            path@ == self@,
    {
        &self.0
    }
}

impl View for FacetConfig {
    type V = FacetConfigView;

    open spec fn view(&self) -> FacetConfigView {
        match self {
            FacetConfig::Always(facet) => FacetConfigView::Always(facet@),
            FacetConfig::Adaptive { facet, minimum_objects } => FacetConfigView::Adaptive {
                facet: facet@,
                minimum_objects: *minimum_objects,
            },
        }
    }
}

impl View for FilterConfig {
    type V = FilterConfigView;

    open spec fn view(&self) -> FilterConfigView {
        FilterConfigView {
            facet: self.facet@,
            values: model::views(self.values@),
            exclude: model::views(self.exclude@),
        }
    }
}

impl View for MountConfig {
    type V = MountConfigView;

    open spec fn view(&self) -> MountConfigView {
        match self {
            MountConfig::SystemLibrary { label, facets } => MountConfigView::SystemLibrary {
                label: label@,
                facets: model::optional_views(*facets),
            },
            MountConfig::Package { package, label, facets } => MountConfigView::Package {
                package: package@,
                label: model::optional(*label),
                facets: model::optional_views(*facets),
            },
            MountConfig::Selection { label, filters, facets } => MountConfigView::Selection {
                label: label@,
                filters: model::views(filters@),
                facets: model::optional_views(*facets),
            },
        }
    }
}

/// The grouping level that a facet configures.
pub open spec fn level_of(config: FacetConfigView) -> FacetLevelView {
    match config {
        FacetConfigView::Always(facet) => FacetLevelView { facet, minimum_objects: None },
        FacetConfigView::Adaptive { facet, minimum_objects } => FacetLevelView {
            facet,
            minimum_objects: Some(minimum_objects),
        },
    }
}

/// The grouping levels that facets configure, in order.
pub open spec fn levels_of(facets: Option<Seq<FacetConfigView>>) -> Option<Seq<FacetLevelView>> {
    match facets {
        Some(facets) => Some(facets.map_values(|facet: FacetConfigView| level_of(facet))),
        None => None,
    }
}

/// The preselection that a filter configures.
pub open spec fn preselection_of(filter: FilterConfigView) -> PreselectionView {
    PreselectionView { facet: filter.facet, included: filter.values, excluded: filter.exclude }
}

/// Some filter selects nothing.
pub open spec fn has_empty_filter(filters: Seq<FilterConfigView>) -> bool {
    exists|i: int| 0 <= i < filters.len() && (#[trigger] filters[i]).values.len() == 0
}

/// The label under which a mount appears.
pub open spec fn label_of(config: MountConfigView) -> Seq<char> {
    match config {
        MountConfigView::SystemLibrary { label, .. } => label,
        MountConfigView::Package { label: Some(label), .. } => label,
        MountConfigView::Package { package, .. } => package,
        MountConfigView::Selection { label, .. } => label,
    }
}

/// The facets that a mount configures.
pub open spec fn facets_of(config: MountConfigView) -> Option<Seq<FacetConfigView>> {
    match config {
        MountConfigView::SystemLibrary { facets, .. } => facets,
        MountConfigView::Package { facets, .. } => facets,
        MountConfigView::Selection { facets, .. } => facets,
    }
}

/// What a mount shows.
pub open spec fn scope_of(config: MountConfigView) -> MountScopeView {
    match config {
        MountConfigView::SystemLibrary { .. } => MountScopeView::SystemLibrary,
        MountConfigView::Package { package, label: None, .. } => MountScopeView::Package(package),
        MountConfigView::Package { package, .. } => MountScopeView::NamedPackage(package),
        MountConfigView::Selection { filters, .. } => MountScopeView::Selection(
            filters.map_values(|filter: FilterConfigView| preselection_of(filter)),
        ),
    }
}

/// The mount that a configuration describes, or why it describes none. A package
/// without a name and a filter without values are noticed before an empty label.
pub open spec fn mount_of(config: MountConfigView) -> Result<MountView, ConfigFault> {
    if config matches MountConfigView::Package { package, .. } && package.len() == 0 {
        Err(ConfigFault::EmptyPackage)
    } else if config is Selection && has_empty_filter(config->filters) {
        Err(ConfigFault::EmptyFilter { label: label_of(config) })
    } else if label_of(config).len() == 0 {
        Err(ConfigFault::EmptyMountLabel)
    } else {
        Ok(
            MountView {
                label: label_of(config),
                scope: scope_of(config),
                facets: levels_of(facets_of(config)),
            },
        )
    }
}

impl FacetConfig {
    /// The grouping level that the facet configures.
    pub fn level(&self) -> (level: FacetLevel)
        ensures
            level@ == level_of(self@),
    {
        match self {
            FacetConfig::Always(facet) => FacetLevel {
                facet: facet.clone(),
                minimum_objects: None,
            },
            FacetConfig::Adaptive { facet, minimum_objects } => FacetLevel {
                facet: facet.clone(),
                minimum_objects: Some(*minimum_objects),
            },
        }
    }
}

/// The grouping levels that facets configure.
fn levels(facets: &Option<Vec<FacetConfig>>) -> (levels: Option<Vec<FacetLevel>>)
    ensures
        model::optional_views(levels) == levels_of(model::optional_views(*facets)),
{
    match facets {
        None => None,
        Some(facets) => {
            let mut levels: Vec<FacetLevel> = Vec::new();
            let mut at: usize = 0;
            while at < facets.len()
                invariant
                    at <= facets@.len(),
                    levels@.len() == at,
                    forall|i: int| 0 <= i < at ==> (#[trigger] levels@[i])@ == level_of(facets@[i]@),
                decreases facets@.len() - at,
            {
                levels.push(facets[at].level());
                at = at + 1;
            }
            assert(model::views(levels@) =~= model::views(facets@).map_values(
                |facet: FacetConfigView| level_of(facet),
            ));
            Some(levels)
        },
    }
}

/// The preselections that filters configure, unless one of them selects nothing.
pub fn preselections(filters: &Vec<FilterConfig>) -> (preselections: Option<Vec<Preselection>>)
    ensures
        preselections is None <==> has_empty_filter(model::views(filters@)),
        preselections matches Some(preselections) ==> model::views(preselections@) == model::views(
            filters@,
        ).map_values(|filter: FilterConfigView| preselection_of(filter)),
{
    let mut preselections: Vec<Preselection> = Vec::new();
    let mut at: usize = 0;
    let ghost seen = model::views(filters@);
    while at < filters.len()
        invariant
            at <= filters@.len(),
            preselections@.len() == at,
            seen == model::views(filters@),
            forall|i: int| 0 <= i < at ==> (#[trigger] seen[i]).values.len() > 0,
            forall|i: int|
                0 <= i < at ==> (#[trigger] preselections@[i])@ == preselection_of(filters@[i]@),
        decreases filters@.len() - at,
    {
        let filter = &filters[at];
        assert(seen[at as int] == filter@);
        if filter.values.len() == 0 {
            assert(seen[at as int].values.len() == 0);
            return None;
        }
        preselections.push(
            Preselection {
                facet: filter.facet.clone(),
                included: copy_texts(&filter.values),
                excluded: copy_texts(&filter.exclude),
            },
        );
        at = at + 1;
    }
    assert(model::views(preselections@) =~= seen.map_values(
        |filter: FilterConfigView| preselection_of(filter),
    ));
    Some(preselections)
}

impl MountConfig {
    /// A mount of the whole system as a file gives it.
    pub fn system_library(label: Option<String>, facets: Option<Vec<FacetConfig>>) -> (config: Self)
        ensures
            config@ == (MountConfigView::SystemLibrary {
                label: match label {
                    Some(label) => label@,
                    None => "System Library"@,
                },
                facets: model::optional_views(facets),
            }),
    {
        let label = match label {
            Some(label) => label,
            None => "System Library".to_owned(),
        };
        MountConfig::SystemLibrary { label, facets }
    }

    /// The mount that the configuration describes.
    pub fn build(&self) -> (built: Result<Mount, ConfigError>)
        ensures
            model::outcome(built) == mount_of(self@),
    {
        let (mount, facets) = match self {
            MountConfig::SystemLibrary { label, facets } => (
                Mount::system_library(label.clone()),
                facets,
            ),
            MountConfig::Package { package, label, facets } => {
                if package.as_str().is_empty() {
                    return Err(ConfigError::EmptyPackage);
                }
                match label {
                    Some(label) => (Mount::named_package(label.clone(), package.clone()), facets),
                    None => (Mount::package(package.clone()), facets),
                }
            },
            MountConfig::Selection { label, filters, facets } => match preselections(filters) {
                None => {
                    return Err(ConfigError::EmptyFilter { label: label.clone() });
                },
                Some(preselections) => (Mount::selection(label.clone(), preselections), facets),
            },
        };

        // A folder without a label cannot be rendered.
        if mount.label().is_empty() {
            return Err(ConfigError::EmptyMountLabel);
        }
        Ok(Mount { label: mount.label, scope: mount.scope, facets: levels(facets) })
    }
}

impl Clone for FacetConfig {
    fn clone(&self) -> (copy: Self)
        ensures
            copy@ == self@,
    {
        match self {
            FacetConfig::Always(facet) => FacetConfig::Always(facet.clone()),
            FacetConfig::Adaptive { facet, minimum_objects } => FacetConfig::Adaptive {
                facet: facet.clone(),
                minimum_objects: *minimum_objects,
            },
        }
    }
}

impl Clone for FilterConfig {
    fn clone(&self) -> (copy: Self)
        ensures
            copy@ == self@,
    {
        FilterConfig {
            facet: self.facet.clone(),
            values: copy_texts(&self.values),
            exclude: copy_texts(&self.exclude),
        }
    }
}

fn copy_facets(facets: &Option<Vec<FacetConfig>>) -> (copy: Option<Vec<FacetConfig>>)
    ensures
        model::optional_views(copy) == model::optional_views(*facets),
{
    match facets {
        None => None,
        Some(facets) => {
            let copy = facets.clone();
            proof {
                model::lemma_same_views(copy@, facets@);
            }
            Some(copy)
        },
    }
}

impl Clone for MountConfig {
    fn clone(&self) -> (copy: Self)
        ensures
            copy@ == self@,
    {
        match self {
            MountConfig::SystemLibrary { label, facets } => MountConfig::SystemLibrary {
                label: label.clone(),
                facets: copy_facets(facets),
            },
            MountConfig::Package { package, label, facets } => MountConfig::Package {
                package: package.clone(),
                label: copy_text(label),
                facets: copy_facets(facets),
            },
            MountConfig::Selection { label, filters, facets } => {
                let copy = filters.clone();
                proof {
                    model::lemma_same_views(copy@, filters@);
                }
                MountConfig::Selection {
                    label: label.clone(),
                    filters: copy,
                    facets: copy_facets(facets),
                }
            },
        }
    }
}

/// Copies a list of mounts.
pub fn copy_mounts(mounts: &Vec<MountConfig>) -> (copy: Vec<MountConfig>)
    ensures
        model::views(copy@) == model::views(mounts@),
{
    let copy = mounts.clone();
    proof {
        model::lemma_same_views(copy@, mounts@);
    }
    copy
}

fn same_facet(left: &FacetConfig, right: &FacetConfig) -> (same: bool)
    ensures
        same == (left@ == right@),
{
    match (left, right) {
        (FacetConfig::Always(left), FacetConfig::Always(right)) => *left == *right,
        (
            FacetConfig::Adaptive { facet: left, minimum_objects: least },
            FacetConfig::Adaptive { facet: right, minimum_objects: other_least },
        ) => *left == *right && *least == *other_least,
        _ => false,
    }
}

fn same_levels(left: &Vec<FacetConfig>, right: &Vec<FacetConfig>) -> (same: bool)
    ensures
        same == (model::views(left@) == model::views(right@)),
{
    if left.len() != right.len() {
        assert(model::views(left@).len() != model::views(right@).len());
        return false;
    }
    let mut at: usize = 0;
    while at < left.len()
        invariant
            at <= left@.len() == right@.len(),
            forall|i: int| 0 <= i < at ==> (#[trigger] left@[i])@ == right@[i]@,
        decreases left@.len() - at,
    {
        if !same_facet(&left[at], &right[at]) {
            assert(model::views(left@)[at as int] != model::views(right@)[at as int]);
            return false;
        }
        at = at + 1;
    }
    proof {
        model::lemma_same_views(left@, right@);
    }
    true
}

fn same_facets(left: &Option<Vec<FacetConfig>>, right: &Option<Vec<FacetConfig>>) -> (same: bool)
    ensures
        same == (model::optional_views(*left) == model::optional_views(*right)),
{
    match (left, right) {
        (None, None) => true,
        (Some(left), Some(right)) => same_levels(left, right),
        _ => false,
    }
}

fn same_filters(left: &Vec<FilterConfig>, right: &Vec<FilterConfig>) -> (same: bool)
    ensures
        same == (model::views(left@) == model::views(right@)),
{
    if left.len() != right.len() {
        assert(model::views(left@).len() != model::views(right@).len());
        return false;
    }
    let mut at: usize = 0;
    while at < left.len()
        invariant
            at <= left@.len() == right@.len(),
            forall|i: int| 0 <= i < at ==> (#[trigger] left@[i])@ == right@[i]@,
        decreases left@.len() - at,
    {
        let one = &left[at];
        let other = &right[at];
        if one.facet != other.facet || !same_texts(&one.values, &other.values) || !same_texts(
            &one.exclude,
            &other.exclude,
        ) {
            assert(model::views(left@)[at as int] != model::views(right@)[at as int]);
            return false;
        }
        at = at + 1;
    }
    proof {
        model::lemma_same_views(left@, right@);
    }
    true
}

impl MountConfig {
    /// Whether two configurations say the same.
    pub fn same(&self, other: &MountConfig) -> (same: bool)
        ensures
            same == (self@ == other@),
    {
        match (self, other) {
            (
                MountConfig::SystemLibrary { label, facets },
                MountConfig::SystemLibrary { label: other_label, facets: other_facets },
            ) => *label == *other_label && same_facets(facets, other_facets),
            (
                MountConfig::Package { package, label, facets },
                MountConfig::Package {
                    package: other_package,
                    label: other_label,
                    facets: other_facets,
                },
            ) => *package == *other_package && same_optional(label, other_label) && same_facets(
                facets,
                other_facets,
            ),
            (
                MountConfig::Selection { label, filters, facets },
                MountConfig::Selection {
                    label: other_label,
                    filters: other_filters,
                    facets: other_facets,
                },
            ) => *label == *other_label && same_filters(filters, other_filters) && same_facets(
                facets,
                other_facets,
            ),
            _ => false,
        }
    }
}

/// Whether two lists configure the same mounts.
pub fn same_mounts(left: &Vec<MountConfig>, right: &Vec<MountConfig>) -> (same: bool)
    ensures
        same == (model::views(left@) == model::views(right@)),
{
    if left.len() != right.len() {
        assert(model::views(left@).len() != model::views(right@).len());
        return false;
    }
    let mut at: usize = 0;
    while at < left.len()
        invariant
            at <= left@.len() == right@.len(),
            forall|i: int| 0 <= i < at ==> (#[trigger] left@[i])@ == right@[i]@,
        decreases left@.len() - at,
    {
        if !left[at].same(&right[at]) {
            assert(model::views(left@)[at as int] != model::views(right@)[at as int]);
            return false;
        }
        at = at + 1;
    }
    proof {
        model::lemma_same_views(left@, right@);
    }
    true
}

impl MountSource for MountConfig {
    type Error = ConfigError;

    open spec fn described(config: MountConfigView) -> Result<MountView, ConfigFault> {
        mount_of(config)
    }

    fn build_mount(&self) -> (built: Result<Mount, ConfigError>) {
        self.build()
    }
}

/// The mounts that a view opens: those configured, or the whole system where none are.
pub open spec fn view_mounts(mounts: Seq<MountConfigView>) -> Result<Seq<MountView>, ConfigFault> {
    mounts::view_mounts::<MountConfig>(mounts)
}

impl ProjectSystemConfig {
    /// Builds the mounts of the system, the whole system where none are configured.
    pub fn build_mounts(&self) -> (built: Result<Vec<Mount>, ConfigError>)
        ensures
            model::list_outcome(built) == view_mounts(model::views(self.mounts@)),
    {
        build_mounts(&self.mounts)
    }
}

/// Where the configuration of a project lies.
pub open spec fn project_file_location(root: Seq<u8>) -> Seq<u8> {
    path::joined(root, encode_utf8("ziege.toml"@))
}

/// The path of the configuration of a project.
pub fn project_file(root: &FilePath) -> (file: FilePath)
    ensures
        file@ == project_file_location(root@),
{
    root.join("ziege.toml")
}

/// The configuration that a project file gives, or why it gives none.
pub open spec fn local_project(root: Seq<u8>, file: FileOutcome<ProjectConfig>) -> Result<
    ProjectConfig,
    ConfigFault,
> {
    match file::file_contents::<ProjectConfig, ConfigError>(project_file_location(root), file) {
        Err(fault) => Err(fault),
        Ok(config) => if config.version != CONFIG_VERSION {
            Err(ConfigFault::UnsupportedVersion { kind: "project"@, version: config.version })
        } else {
            Ok(config)
        },
    }
}

/// Takes over the configuration of a project directory.
pub fn load_local_project(project_root: &FilePath, file: FileOutcome<ProjectConfig>) -> (loaded:
    Result<ProjectConfig, ConfigError>)
    ensures
        model::failure(loaded) == local_project(project_root@, file),
{
    let config = match read_config(&project_file(project_root), file) {
        Err(error) => {
            return Err(error);
        },
        Ok(config) => config,
    };
    if config.version != CONFIG_VERSION {
        return Err(ConfigError::UnsupportedVersion { kind: "project", version: config.version });
    }
    Ok(config)
}

} // verus!

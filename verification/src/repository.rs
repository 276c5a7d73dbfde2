//! What a project shows of a repository, as plain values.
//!
//! A mount is a root entry of a repository view. The types here hold what is needed
//! to open such a view, independently of the client that talks to the repository.

use crate::model;
use vstd::prelude::*;

verus! {

/// One level of a hierarchy by which objects are grouped. With a threshold, the
/// level only appears where at least that many objects are found.
#[derive(Debug, Eq, PartialEq)]
pub struct FacetLevel {
    pub facet: String,
    pub minimum_objects: Option<u32>,
}

/// The values of one facet that a selection shows and hides.
#[derive(Debug, Eq, PartialEq)]
pub struct Preselection {
    pub facet: String,
    pub included: Vec<String>,
    pub excluded: Vec<String>,
}

/// What a mount shows.
#[derive(Debug, Eq, PartialEq)]
pub enum MountScope {
    /// The whole system.
    SystemLibrary,
    /// One package with what it contains, under its own name.
    Package(String),
    /// One package with what it contains, under a name that a user chose.
    NamedPackage(String),
    /// The objects that match all preselections.
    Selection(Vec<Preselection>),
}

/// A root entry of a repository view.
#[derive(Debug, Eq, PartialEq)]
pub struct Mount {
    pub label: String,
    pub scope: MountScope,
    /// How objects are grouped below the mount. Without it the repository decides.
    pub facets: Option<Vec<FacetLevel>>,
}

pub struct FacetLevelView {
    pub facet: Seq<char>,
    pub minimum_objects: Option<u32>,
}

#[verifier::ext_equal]
pub struct PreselectionView {
    pub facet: Seq<char>,
    pub included: Seq<Seq<char>>,
    pub excluded: Seq<Seq<char>>,
}

pub enum MountScopeView {
    SystemLibrary,
    Package(Seq<char>),
    NamedPackage(Seq<char>),
    Selection(Seq<PreselectionView>),
}

pub struct MountView {
    pub label: Seq<char>,
    pub scope: MountScopeView,
    pub facets: Option<Seq<FacetLevelView>>,
}

impl View for FacetLevel {
    type V = FacetLevelView;

    open spec fn view(&self) -> FacetLevelView {
        FacetLevelView { facet: self.facet@, minimum_objects: self.minimum_objects }
    }
}

impl View for Preselection {
    type V = PreselectionView;

    open spec fn view(&self) -> PreselectionView {
        PreselectionView {
            facet: self.facet@,
            included: model::views(self.included@),
            excluded: model::views(self.excluded@),
        }
    }
}

impl View for MountScope {
    type V = MountScopeView;

    open spec fn view(&self) -> MountScopeView {
        match self {
            MountScope::SystemLibrary => MountScopeView::SystemLibrary,
            MountScope::Package(package) => MountScopeView::Package(package@),
            MountScope::NamedPackage(package) => MountScopeView::NamedPackage(package@),
            MountScope::Selection(preselections) => MountScopeView::Selection(
                model::views(preselections@),
            ),
        }
    }
}

impl View for Mount {
    type V = MountView;

    open spec fn view(&self) -> MountView {
        MountView {
            label: self.label@,
            scope: self.scope@,
            facets: model::optional_views(self.facets),
        }
    }
}

/// What an entry of a repository view is.
#[derive(Debug, Eq, PartialEq)]
pub enum NodeKind {
    /// A root entry.
    Mount,
    /// A group of objects.
    Facet,
    /// A package, with its name in the system.
    Package { package: String },
    /// An object of the system.
    Object,
    /// Anything else.
    Other,
}

/// An entry of a repository view.
#[derive(Debug, Eq, PartialEq)]
pub struct Node {
    pub label: String,
    pub kind: NodeKind,
}

pub enum NodeKindView {
    Mount,
    Facet,
    Package { package: Seq<char> },
    Object,
    Other,
}

pub struct NodeView {
    pub label: Seq<char>,
    pub kind: NodeKindView,
}

impl View for NodeKind {
    type V = NodeKindView;

    open spec fn view(&self) -> NodeKindView {
        match self {
            NodeKind::Mount => NodeKindView::Mount,
            NodeKind::Facet => NodeKindView::Facet,
            NodeKind::Package { package } => NodeKindView::Package { package: package@ },
            NodeKind::Object => NodeKindView::Object,
            NodeKind::Other => NodeKindView::Other,
        }
    }
}

impl View for Node {
    type V = NodeView;

    open spec fn view(&self) -> NodeView {
        NodeView { label: self.label@, kind: self.kind@ }
    }
}

/// The mount of the whole system.
pub open spec fn system_library(label: Seq<char>) -> MountView {
    MountView { label, scope: MountScopeView::SystemLibrary, facets: None }
}

/// What a view shows where no mounts are configured.
pub open spec fn default_mounts() -> Seq<MountView> {
    seq![system_library("System Library"@)]
}

impl Mount {
    /// A mount of the whole system.
    pub fn system_library(label: String) -> (mount: Mount)
        ensures
            mount@ == system_library(label@),
    {
        Mount { label, scope: MountScope::SystemLibrary, facets: None }
    }

    /// A mount of one package, labelled with the name of the package.
    pub fn package(package: String) -> (mount: Mount)
        ensures
            mount@ == (MountView {
                label: package@,
                scope: MountScopeView::Package(package@),
                facets: None,
            }),
    {
        Mount { label: package.clone(), scope: MountScope::Package(package), facets: None }
    }

    /// A mount of one package under a label of its own.
    pub fn named_package(label: String, package: String) -> (mount: Mount)
        ensures
            mount@ == (MountView {
                label: label@,
                scope: MountScopeView::NamedPackage(package@),
                facets: None,
            }),
    {
        Mount { label, scope: MountScope::NamedPackage(package), facets: None }
    }

    /// A mount of all objects that match the preselections.
    pub fn selection(label: String, preselections: Vec<Preselection>) -> (mount: Mount)
        ensures
            mount@ == (MountView {
                label: label@,
                scope: MountScopeView::Selection(model::views(preselections@)),
                facets: None,
            }),
    {
        Mount { label, scope: MountScope::Selection(preselections), facets: None }
    }

    /// The name under which the mount appears.
    pub fn label(&self) -> (label: &str)
        ensures
            label@ == self@.label,
    {
        self.label.as_str()
    }

    /// The mounts of a view where none are configured.
    pub fn defaults() -> (mounts: Vec<Mount>)
        ensures
            model::views(mounts@) == default_mounts(),
    {
        let mut mounts: Vec<Mount> = Vec::new();
        mounts.push(Mount::system_library("System Library".to_owned()));
        assert(model::views(mounts@) =~= default_mounts());
        mounts
    }
}

} // verus!

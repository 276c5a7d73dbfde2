//! Fingerprints of systems: what is hashed, and that it tells systems apart.

use crate::config::destinations;
use crate::config::project::FilterConfigView;
use crate::config::FilterConfig;
use crate::dotfile::mounts::{FacetConfig, FacetConfigView, MountConfig, MountConfigView};
use crate::dotfile::{LoadedSystem, ProjectSystemConfig, ResolvedDestinationView};
use crate::fingerprint;
use crate::fingerprint::Stream;
use crate::model;
use vstd::prelude::*;

verus! {

/// What a project configures for a system.
pub struct SystemSettings {
    pub folder: Option<Seq<char>>,
    pub provider: Option<Seq<char>>,
    pub destination: Option<Seq<char>>,
    pub mounts: Seq<MountConfigView>,
}

impl View for ProjectSystemConfig {
    type V = SystemSettings;

    open spec fn view(&self) -> SystemSettings {
        SystemSettings {
            folder: model::optional(self.folder),
            provider: model::optional(self.provider),
            destination: model::optional(self.destination),
            mounts: model::views(self.mounts@),
        }
    }
}

pub open spec fn number_or_none_code(number: Option<u32>) -> Seq<u8> {
    fingerprint::optional_code(number, |number: u32| fingerprint::number_code(number))
}

pub open spec fn facet_code(facet: FacetConfigView) -> Seq<u8> {
    match facet {
        FacetConfigView::Always(facet) => fingerprint::count_code(0) + fingerprint::text_code(
            facet,
        ),
        FacetConfigView::Detailed { facet, minimum_objects } => fingerprint::count_code(1)
            + fingerprint::text_code(facet) + number_or_none_code(minimum_objects),
    }
}

pub open spec fn facets_code(facets: Seq<FacetConfigView>) -> Seq<u8> {
    fingerprint::list_code(facets, |facet: FacetConfigView| facet_code(facet))
}

pub open spec fn policy_code(facets: Option<Seq<FacetConfigView>>) -> Seq<u8> {
    fingerprint::optional_code(facets, |facets: Seq<FacetConfigView>| facets_code(facets))
}

pub open spec fn filter_code(filter: FilterConfigView) -> Seq<u8> {
    fingerprint::text_code(filter.facet) + fingerprint::texts_code(filter.values)
        + fingerprint::texts_code(filter.exclude)
}

pub open spec fn filters_code(filters: Seq<FilterConfigView>) -> Seq<u8> {
    fingerprint::list_code(filters, |filter: FilterConfigView| filter_code(filter))
}

pub open spec fn mount_code(mount: MountConfigView) -> Seq<u8> {
    match mount {
        MountConfigView::SystemLibrary { label, facets } => fingerprint::count_code(0)
            + fingerprint::text_code(label) + policy_code(facets),
        MountConfigView::Package { package, label, facets } => fingerprint::count_code(1)
            + fingerprint::text_code(package) + fingerprint::optional_text_code(label)
            + policy_code(facets),
        MountConfigView::Selection { label, filters, facets } => fingerprint::count_code(2)
            + fingerprint::text_code(label) + filters_code(filters) + policy_code(facets),
    }
}

pub open spec fn mounts_code(mounts: Seq<MountConfigView>) -> Seq<u8> {
    fingerprint::list_code(mounts, |mount: MountConfigView| mount_code(mount))
}

pub open spec fn system_code(settings: SystemSettings) -> Seq<u8> {
    fingerprint::optional_text_code(settings.folder) + fingerprint::optional_text_code(
        settings.provider,
    ) + fingerprint::optional_text_code(settings.destination) + mounts_code(settings.mounts)
}

pub open spec fn destination_code(settings: ResolvedDestinationView) -> Seq<u8> {
    destinations::settings_code(
        settings.url,
        settings.client,
        settings.language,
        settings.username,
        settings.password,
    )
}

/// What is hashed of a system: its configuration, and the settings of its destination.
pub open spec fn loaded_code(
    settings: SystemSettings,
    destination: ResolvedDestinationView,
) -> Seq<u8> {
    system_code(settings) + destination_code(destination)
}

fn put_optional_text(stream: &mut Stream, text: &Option<String>)
    ensures
        final(stream)@ == old(stream)@ + fingerprint::optional_text_code(model::optional(*text)),
{
    match text {
        None => {
            stream.put_count(0);
        },
        Some(text) => {
            stream.put_count(1);
            stream.put_text(text.as_str());
            assert(stream@ =~= old(stream)@ + fingerprint::optional_text_code(Some(text@)));
        },
    }
}

fn put_texts(stream: &mut Stream, texts: &Vec<String>)
    ensures
        final(stream)@ == old(stream)@ + fingerprint::texts_code(model::views(texts@)),
{
    let ghost views = model::views(texts@);
    let ghost code = |text: Seq<char>| fingerprint::text_code(text);
    stream.put_count(texts.len() as u64);
    let ghost start = stream@;
    let mut at: usize = 0;
    assert(views.take(0) =~= Seq::empty());
    assert(start + fingerprint::codes(views.take(0), code) =~= start);
    while at < texts.len()
        invariant
            at <= texts@.len(),
            views == model::views(texts@),
            code == (|text: Seq<char>| fingerprint::text_code(text)),
            stream@ == start + fingerprint::codes(views.take(at as int), code),
        decreases texts@.len() - at,
    {
        stream.put_text(texts[at].as_str());
        proof {
            let next = views.take(at + 1);
            assert(next.drop_last() =~= views.take(at as int));
            assert(next.last() == texts@[at as int]@);
            assert(stream@ =~= start + fingerprint::codes(next, code));
        }
        at = at + 1;
    }
    assert(views.take(at as int) =~= views);
    assert(stream@ =~= old(stream)@ + fingerprint::texts_code(views));
}

fn put_facet(stream: &mut Stream, facet: &FacetConfig)
    ensures
        final(stream)@ == old(stream)@ + facet_code(facet@),
{
    match facet {
        FacetConfig::Always(facet) => {
            stream.put_count(0);
            stream.put_text(facet.as_str());
        },
        FacetConfig::Detailed { facet, minimum_objects } => {
            stream.put_count(1);
            stream.put_text(facet.as_str());
            match minimum_objects {
                None => {
                    stream.put_count(0);
                },
                Some(minimum_objects) => {
                    stream.put_count(1);
                    stream.put_number(*minimum_objects);
                },
            }
        },
    }
    assert(stream@ =~= old(stream)@ + facet_code(facet@));
}

fn put_policy(stream: &mut Stream, facets: &Option<Vec<FacetConfig>>)
    ensures
        final(stream)@ == old(stream)@ + policy_code(model::optional_views(*facets)),
{
    match facets {
        None => {
            stream.put_count(0);
        },
        Some(facets) => {
            stream.put_count(1);
            let ghost views = model::views(facets@);
            let ghost code = |facet: FacetConfigView| facet_code(facet);
            stream.put_count(facets.len() as u64);
            let ghost start = stream@;
            let mut at: usize = 0;
            assert(views.take(0) =~= Seq::empty());
            assert(start + fingerprint::codes(views.take(0), code) =~= start);
            while at < facets.len()
                invariant
                    at <= facets@.len(),
                    views == model::views(facets@),
                    code == (|facet: FacetConfigView| facet_code(facet)),
                    stream@ == start + fingerprint::codes(views.take(at as int), code),
                decreases facets@.len() - at,
            {
                put_facet(stream, &facets[at]);
                proof {
                    let next = views.take(at + 1);
                    assert(next.drop_last() =~= views.take(at as int));
                    assert(next.last() == facets@[at as int]@);
                    assert(stream@ =~= start + fingerprint::codes(next, code));
                }
                at = at + 1;
            }
            assert(views.take(at as int) =~= views);
            assert(stream@ =~= old(stream)@ + policy_code(Some(views)));
        },
    }
}

fn put_filters(stream: &mut Stream, filters: &Vec<FilterConfig>)
    ensures
        final(stream)@ == old(stream)@ + filters_code(model::views(filters@)),
{
    let ghost views = model::views(filters@);
    let ghost code = |filter: FilterConfigView| filter_code(filter);
    stream.put_count(filters.len() as u64);
    let ghost start = stream@;
    let mut at: usize = 0;
    assert(views.take(0) =~= Seq::empty());
    assert(start + fingerprint::codes(views.take(0), code) =~= start);
    while at < filters.len()
        invariant
            at <= filters@.len(),
            views == model::views(filters@),
            code == (|filter: FilterConfigView| filter_code(filter)),
            stream@ == start + fingerprint::codes(views.take(at as int), code),
        decreases filters@.len() - at,
    {
        stream.put_text(filters[at].facet.as_str());
        put_texts(stream, &filters[at].values);
        put_texts(stream, &filters[at].exclude);
        proof {
            let next = views.take(at + 1);
            assert(next.drop_last() =~= views.take(at as int));
            assert(next.last() == filters@[at as int]@);
            assert(stream@ =~= start + fingerprint::codes(next, code));
        }
        at = at + 1;
    }
    assert(views.take(at as int) =~= views);
    assert(stream@ =~= old(stream)@ + filters_code(views));
}

fn put_mount(stream: &mut Stream, mount: &MountConfig)
    ensures
        final(stream)@ == old(stream)@ + mount_code(mount@),
{
    match mount {
        MountConfig::SystemLibrary { label, facets } => {
            stream.put_count(0);
            stream.put_text(label.as_str());
            put_policy(stream, facets);
        },
        MountConfig::Package { package, label, facets } => {
            stream.put_count(1);
            stream.put_text(package.as_str());
            put_optional_text(stream, label);
            put_policy(stream, facets);
        },
        MountConfig::Selection { label, filters, facets } => {
            stream.put_count(2);
            stream.put_text(label.as_str());
            put_filters(stream, filters);
            put_policy(stream, facets);
        },
    }
    assert(stream@ =~= old(stream)@ + mount_code(mount@));
}

fn put_mounts(stream: &mut Stream, mounts: &Vec<MountConfig>)
    ensures
        final(stream)@ == old(stream)@ + mounts_code(model::views(mounts@)),
{
    let ghost views = model::views(mounts@);
    let ghost code = |mount: MountConfigView| mount_code(mount);
    stream.put_count(mounts.len() as u64);
    let ghost start = stream@;
    let mut at: usize = 0;
    assert(views.take(0) =~= Seq::empty());
    assert(start + fingerprint::codes(views.take(0), code) =~= start);
    while at < mounts.len()
        invariant
            at <= mounts@.len(),
            views == model::views(mounts@),
            code == (|mount: MountConfigView| mount_code(mount)),
            stream@ == start + fingerprint::codes(views.take(at as int), code),
        decreases mounts@.len() - at,
    {
        put_mount(stream, &mounts[at]);
        proof {
            let next = views.take(at + 1);
            assert(next.drop_last() =~= views.take(at as int));
            assert(next.last() == mounts@[at as int]@);
            assert(stream@ =~= start + fingerprint::codes(next, code));
        }
        at = at + 1;
    }
    assert(views.take(at as int) =~= views);
    assert(stream@ =~= old(stream)@ + mounts_code(views));
}

impl LoadedSystem {
    /// A hash of the configuration and the destination of the system. Neither its name
    /// nor its project take part.
    pub fn fingerprint(&self) -> (hash: u64)
        ensures
            hash == fingerprint::hash_of(loaded_code(self.config@, self.destination@)),
    {
        let mut stream = Stream::new();
        put_optional_text(&mut stream, &self.config.folder);
        put_optional_text(&mut stream, &self.config.provider);
        put_optional_text(&mut stream, &self.config.destination);
        put_mounts(&mut stream, &self.config.mounts);
        assert(stream@ =~= system_code(self.config@));
        stream.put_text(self.destination.url.as_str());
        stream.put_text(self.destination.client.as_str());
        stream.put_text(self.destination.language.as_str());
        stream.put_text(self.destination.username.as_str());
        stream.put_text(self.destination.password.as_str());
        assert(stream@ =~= loaded_code(self.config@, self.destination@));
        stream.hash()
    }
}

/// A list whose length can be counted.
pub open spec fn countable<T>(items: Seq<T>) -> bool {
    items.len() <= u64::MAX
}

pub open spec fn filter_fits(filter: FilterConfigView) -> bool {
    countable(filter.values) && countable(filter.exclude)
}

pub open spec fn policy_fits(facets: Option<Seq<FacetConfigView>>) -> bool {
    facets matches Some(facets) ==> countable(facets)
}

pub open spec fn mount_fits(mount: MountConfigView) -> bool {
    match mount {
        MountConfigView::SystemLibrary { facets, .. } => policy_fits(facets),
        MountConfigView::Package { facets, .. } => policy_fits(facets),
        MountConfigView::Selection { filters, facets, .. } => {
            &&& countable(filters)
            &&& forall|i: int| 0 <= i < filters.len() ==> filter_fits(#[trigger] filters[i])
            &&& policy_fits(facets)
        },
    }
}

/// All lists of a system have lengths that can be counted.
pub open spec fn system_fits(settings: SystemSettings) -> bool {
    &&& countable(settings.mounts)
    &&& forall|i: int| 0 <= i < settings.mounts.len() ==> mount_fits(#[trigger] settings.mounts[i])
}

proof fn lemma_numbers_are_told_apart()
    ensures
        fingerprint::self_delimiting(
            |number: u32| fingerprint::number_code(number),
            |number: u32| true,
        ),
{
    let code = |number: u32| fingerprint::number_code(number);
    assert forall|left: u32, right: u32, after: Seq<u8>, behind: Seq<u8>| #[trigger]
        (code(left) + after) == #[trigger] (code(right) + behind) implies left == right && after
        == behind by {
        fingerprint::lemma_number_code(left, right, after, behind);
    }
}

proof fn lemma_facet_code(
    left: FacetConfigView,
    right: FacetConfigView,
    after: Seq<u8>,
    behind: Seq<u8>,
)
    requires
        facet_code(left) + after == facet_code(right) + behind,
    ensures
        left == right,
        after == behind,
{
    let name = match left {
        FacetConfigView::Always(facet) => facet,
        FacetConfigView::Detailed { facet, .. } => facet,
    };
    let other_name = match right {
        FacetConfigView::Always(facet) => facet,
        FacetConfigView::Detailed { facet, .. } => facet,
    };
    let rest = match left {
        FacetConfigView::Always(_) => after,
        FacetConfigView::Detailed { minimum_objects, .. } => number_or_none_code(minimum_objects)
            + after,
    };
    let other_rest = match right {
        FacetConfigView::Always(_) => behind,
        FacetConfigView::Detailed { minimum_objects, .. } => number_or_none_code(minimum_objects)
            + behind,
    };
    let tag: nat = if left is Always { 0 } else { 1 };
    let other_tag: nat = if right is Always { 0 } else { 1 };
    let tail = fingerprint::text_code(name) + rest;
    let other_tail = fingerprint::text_code(other_name) + other_rest;
    assert(facet_code(left) + after =~= fingerprint::count_code(tag) + tail);
    assert(facet_code(right) + behind =~= fingerprint::count_code(other_tag) + other_tail);
    fingerprint::lemma_count_code(tag, other_tag, tail, other_tail);
    fingerprint::lemma_text_code(name, other_name, rest, other_rest);
    if left is Detailed {
        lemma_numbers_are_told_apart();
        fingerprint::lemma_optional_code(
            left->minimum_objects,
            right->minimum_objects,
            after,
            behind,
            |number: u32| fingerprint::number_code(number),
            |number: u32| true,
        );
    }
}

proof fn lemma_policy_code(
    left: Option<Seq<FacetConfigView>>,
    right: Option<Seq<FacetConfigView>>,
    after: Seq<u8>,
    behind: Seq<u8>,
)
    requires
        policy_fits(left),
        policy_fits(right),
        policy_code(left) + after == policy_code(right) + behind,
    ensures
        left == right,
        after == behind,
{
    let code = |facet: FacetConfigView| facet_code(facet);
    let all = |facet: FacetConfigView| true;
    assert(fingerprint::self_delimiting(code, all)) by {
        assert forall|a: FacetConfigView, b: FacetConfigView, x: Seq<u8>, y: Seq<u8>| #[trigger]
            (code(a) + x) == #[trigger] (code(b) + y) implies a == b && x == y by {
            lemma_facet_code(a, b, x, y);
        }
    }
    let list = |facets: Seq<FacetConfigView>| facets_code(facets);
    let fits = |facets: Seq<FacetConfigView>| countable(facets);
    assert(fingerprint::self_delimiting(list, fits)) by {
        assert forall|
            a: Seq<FacetConfigView>,
            b: Seq<FacetConfigView>,
            x: Seq<u8>,
            y: Seq<u8>,
        |
            fits(a) && fits(b) && #[trigger] (list(a) + x) == #[trigger] (list(b) + y) implies a
            == b && x == y by {
            fingerprint::lemma_list_code(a, b, x, y, code, all);
        }
    }
    fingerprint::lemma_optional_code(left, right, after, behind, list, fits);
}

proof fn lemma_filter_code(
    left: FilterConfigView,
    right: FilterConfigView,
    after: Seq<u8>,
    behind: Seq<u8>,
)
    requires
        filter_fits(left),
        filter_fits(right),
        filter_code(left) + after == filter_code(right) + behind,
    ensures
        left == right,
        after == behind,
{
    let rest = fingerprint::texts_code(left.exclude) + after;
    let other_rest = fingerprint::texts_code(right.exclude) + behind;
    let tail = fingerprint::texts_code(left.values) + rest;
    let other_tail = fingerprint::texts_code(right.values) + other_rest;
    assert(filter_code(left) + after =~= fingerprint::text_code(left.facet) + tail);
    assert(filter_code(right) + behind =~= fingerprint::text_code(right.facet) + other_tail);
    fingerprint::lemma_text_code(left.facet, right.facet, tail, other_tail);
    fingerprint::lemma_texts_code(left.values, right.values, rest, other_rest);
    fingerprint::lemma_texts_code(left.exclude, right.exclude, after, behind);
}

proof fn lemma_filters_code(
    left: Seq<FilterConfigView>,
    right: Seq<FilterConfigView>,
    after: Seq<u8>,
    behind: Seq<u8>,
)
    requires
        countable(left),
        countable(right),
        forall|i: int| 0 <= i < left.len() ==> filter_fits(#[trigger] left[i]),
        forall|i: int| 0 <= i < right.len() ==> filter_fits(#[trigger] right[i]),
        filters_code(left) + after == filters_code(right) + behind,
    ensures
        left == right,
        after == behind,
{
    let code = |filter: FilterConfigView| filter_code(filter);
    let fits = |filter: FilterConfigView| filter_fits(filter);
    assert(fingerprint::self_delimiting(code, fits)) by {
        assert forall|a: FilterConfigView, b: FilterConfigView, x: Seq<u8>, y: Seq<u8>|
            fits(a) && fits(b) && #[trigger] (code(a) + x) == #[trigger] (code(b) + y) implies a
            == b && x == y by {
            lemma_filter_code(a, b, x, y);
        }
    }
    fingerprint::lemma_list_code(left, right, after, behind, code, fits);
}

proof fn lemma_chain_3(a: Seq<u8>, b: Seq<u8>, c: Seq<u8>, after: Seq<u8>)
    ensures
        a + b + c + after == a + (b + (c + after)),
{
    assert(a + b + c + after =~= a + (b + (c + after)));
}

proof fn lemma_chain_4(a: Seq<u8>, b: Seq<u8>, c: Seq<u8>, d: Seq<u8>, after: Seq<u8>)
    ensures
        a + b + c + d + after == a + (b + (c + (d + after))),
{
    assert(a + b + c + d + after =~= a + (b + (c + (d + after))));
}

/// What follows the tag of a mount.
spec fn mount_tail(mount: MountConfigView, after: Seq<u8>) -> Seq<u8> {
    match mount {
        MountConfigView::SystemLibrary { label, facets } => fingerprint::text_code(label) + (
        policy_code(facets) + after),
        MountConfigView::Package { package, label, facets } => fingerprint::text_code(package) + (
        fingerprint::optional_text_code(label) + (policy_code(facets) + after)),
        MountConfigView::Selection { label, filters, facets } => fingerprint::text_code(label) + (
        filters_code(filters) + (policy_code(facets) + after)),
    }
}

/// Which alternative a mount is.
spec fn mount_tag(mount: MountConfigView) -> nat {
    match mount {
        MountConfigView::SystemLibrary { .. } => 0,
        MountConfigView::Package { .. } => 1,
        MountConfigView::Selection { .. } => 2,
    }
}

proof fn lemma_mount_parts(mount: MountConfigView, after: Seq<u8>)
    ensures
        mount_code(mount) + after == fingerprint::count_code(mount_tag(mount)) + mount_tail(
            mount,
            after,
        ),
{
    let tag = fingerprint::count_code(mount_tag(mount));
    match mount {
        MountConfigView::SystemLibrary { label, facets } => {
            lemma_chain_3(tag, fingerprint::text_code(label), policy_code(facets), after);
        },
        MountConfigView::Package { package, label, facets } => {
            lemma_chain_4(
                tag,
                fingerprint::text_code(package),
                fingerprint::optional_text_code(label),
                policy_code(facets),
                after,
            );
        },
        MountConfigView::Selection { label, filters, facets } => {
            lemma_chain_4(
                tag,
                fingerprint::text_code(label),
                filters_code(filters),
                policy_code(facets),
                after,
            );
        },
    }
}

proof fn lemma_mount_tail(
    left: MountConfigView,
    right: MountConfigView,
    after: Seq<u8>,
    behind: Seq<u8>,
)
    requires
        mount_fits(left),
        mount_fits(right),
        mount_tag(left) == mount_tag(right),
        mount_tail(left, after) == mount_tail(right, behind),
    ensures
        left == right,
        after == behind,
{
    match (left, right) {
        (
            MountConfigView::SystemLibrary { label, facets },
            MountConfigView::SystemLibrary { label: other_label, facets: other_facets },
        ) => {
            fingerprint::lemma_text_code(
                label,
                other_label,
                policy_code(facets) + after,
                policy_code(other_facets) + behind,
            );
            lemma_policy_code(facets, other_facets, after, behind);
        },
        (
            MountConfigView::Package { package, label, facets },
            MountConfigView::Package {
                package: other_package,
                label: other_label,
                facets: other_facets,
            },
        ) => {
            let rest = policy_code(facets) + after;
            let other_rest = policy_code(other_facets) + behind;
            fingerprint::lemma_text_code(
                package,
                other_package,
                fingerprint::optional_text_code(label) + rest,
                fingerprint::optional_text_code(other_label) + other_rest,
            );
            fingerprint::lemma_optional_text_code(label, other_label, rest, other_rest);
            lemma_policy_code(facets, other_facets, after, behind);
        },
        (
            MountConfigView::Selection { label, filters, facets },
            MountConfigView::Selection {
                label: other_label,
                filters: other_filters,
                facets: other_facets,
            },
        ) => {
            let rest = policy_code(facets) + after;
            let other_rest = policy_code(other_facets) + behind;
            fingerprint::lemma_text_code(
                label,
                other_label,
                filters_code(filters) + rest,
                filters_code(other_filters) + other_rest,
            );
            lemma_filters_code(filters, other_filters, rest, other_rest);
            lemma_policy_code(facets, other_facets, after, behind);
        },
        _ => {},
    }
}

proof fn lemma_mount_code(
    left: MountConfigView,
    right: MountConfigView,
    after: Seq<u8>,
    behind: Seq<u8>,
)
    requires
        mount_fits(left),
        mount_fits(right),
        mount_code(left) + after == mount_code(right) + behind,
    ensures
        left == right,
        after == behind,
{
    lemma_mount_parts(left, after);
    lemma_mount_parts(right, behind);
    fingerprint::lemma_count_code(
        mount_tag(left),
        mount_tag(right),
        mount_tail(left, after),
        mount_tail(right, behind),
    );
    lemma_mount_tail(left, right, after, behind);
}

proof fn lemma_mounts_code(
    left: Seq<MountConfigView>,
    right: Seq<MountConfigView>,
    after: Seq<u8>,
    behind: Seq<u8>,
)
    requires
        countable(left),
        countable(right),
        forall|i: int| 0 <= i < left.len() ==> mount_fits(#[trigger] left[i]),
        forall|i: int| 0 <= i < right.len() ==> mount_fits(#[trigger] right[i]),
        mounts_code(left) + after == mounts_code(right) + behind,
    ensures
        left == right,
        after == behind,
{
    let code = |mount: MountConfigView| mount_code(mount);
    let fits = |mount: MountConfigView| mount_fits(mount);
    assert(fingerprint::self_delimiting(code, fits)) by {
        assert forall|a: MountConfigView, b: MountConfigView, x: Seq<u8>, y: Seq<u8>|
            fits(a) && fits(b) && #[trigger] (code(a) + x) == #[trigger] (code(b) + y) implies a
            == b && x == y by {
            lemma_mount_code(a, b, x, y);
        }
    }
    fingerprint::lemma_list_code(left, right, after, behind, code, fits);
}

/// Systems whose configuration or destination differ are hashed from different bytes,
/// so that a change of configuration goes unnoticed only where the hash collides.
pub proof fn lemma_systems_are_told_apart(
    left: SystemSettings,
    left_destination: ResolvedDestinationView,
    right: SystemSettings,
    right_destination: ResolvedDestinationView,
)
    requires
        system_fits(left),
        system_fits(right),
        loaded_code(left, left_destination) == loaded_code(right, right_destination),
    ensures
        left == right,
        left_destination == right_destination,
{
    let end = destination_code(left_destination);
    let other_end = destination_code(right_destination);
    let mounts = mounts_code(left.mounts) + end;
    let other_mounts = mounts_code(right.mounts) + other_end;
    let rest = fingerprint::optional_text_code(left.destination) + mounts;
    let other_rest = fingerprint::optional_text_code(right.destination) + other_mounts;
    let tail = fingerprint::optional_text_code(left.provider) + rest;
    let other_tail = fingerprint::optional_text_code(right.provider) + other_rest;
    lemma_chain_4(
        fingerprint::optional_text_code(left.folder),
        fingerprint::optional_text_code(left.provider),
        fingerprint::optional_text_code(left.destination),
        mounts_code(left.mounts),
        end,
    );
    lemma_chain_4(
        fingerprint::optional_text_code(right.folder),
        fingerprint::optional_text_code(right.provider),
        fingerprint::optional_text_code(right.destination),
        mounts_code(right.mounts),
        other_end,
    );
    fingerprint::lemma_optional_text_code(left.folder, right.folder, tail, other_tail);
    fingerprint::lemma_optional_text_code(left.provider, right.provider, rest, other_rest);
    fingerprint::lemma_optional_text_code(
        left.destination,
        right.destination,
        mounts,
        other_mounts,
    );
    lemma_mounts_code(left.mounts, right.mounts, end, other_end);
    assert(end + Seq::<u8>::empty() =~= end);
    assert(other_end + Seq::<u8>::empty() =~= other_end);
    destinations::lemma_settings_are_told_apart(
        left_destination.url,
        left_destination.client,
        left_destination.language,
        left_destination.username,
        left_destination.password,
        right_destination.url,
        right_destination.client,
        right_destination.language,
        right_destination.username,
        right_destination.password,
        Seq::empty(),
        Seq::empty(),
    );
}

/// Every configured system has lists of countable lengths.
pub proof fn lemma_configured_systems_fit(config: ProjectSystemConfig)
    ensures
        system_fits(config@),
{
    assert(config.mounts@.len() == config.mounts.len());
    assert forall|i: int| 0 <= i < config@.mounts.len() implies mount_fits(
        #[trigger] config@.mounts[i],
    ) by {
        lemma_configured_mounts_fit(config.mounts@[i]);
    }
}

proof fn lemma_configured_policies_fit(facets: Option<Vec<FacetConfig>>)
    ensures
        policy_fits(model::optional_views(facets)),
{
    if let Some(facets) = facets {
        assert(facets@.len() == facets.len());
    }
}

proof fn lemma_configured_mounts_fit(mount: MountConfig)
    ensures
        mount_fits(mount@),
{
    match mount {
        MountConfig::SystemLibrary { facets, .. } => {
            lemma_configured_policies_fit(facets);
        },
        MountConfig::Package { facets, .. } => {
            lemma_configured_policies_fit(facets);
        },
        MountConfig::Selection { filters, facets, .. } => {
            lemma_configured_policies_fit(facets);
            assert(filters@.len() == filters.len());
            assert forall|k: int| 0 <= k < model::views(filters@).len() implies filter_fits(
                #[trigger] model::views(filters@)[k],
            ) by {
                let filter = filters@[k];
                assert(filter.values@.len() == filter.values.len());
                assert(filter.exclude@.len() == filter.exclude.len());
            }
        },
    }
}

} // verus!

//! The mounts that a list of configurations describes.

use crate::model;
use crate::repository;
use crate::repository::{Mount, MountScopeView, MountView};
use vstd::prelude::*;

verus! {

/// A configuration that describes a mount, or says why it describes none.
pub trait MountSource: View + Sized {
    /// Why a configuration describes no mount.
    type Error: View;

    /// The mount that a configuration describes, or why it describes none.
    spec fn described(config: Self::V) -> Result<MountView, <Self::Error as View>::V>;

    /// Builds the mount that the configuration describes.
    fn build_mount(&self) -> (built: Result<Mount, Self::Error>)
        ensures
            model::outcome(built) == Self::described(self@),
    ;
}

/// The mounts that several configurations describe. The first one that describes none
/// decides the error.
pub open spec fn mounts_of<M: MountSource>(configs: Seq<M::V>) -> Result<
    Seq<MountView>,
    <M::Error as View>::V,
>
    decreases configs.len(),
{
    if configs.len() == 0 {
        Ok(Seq::empty())
    } else {
        match mounts_of::<M>(configs.drop_last()) {
            Err(fault) => Err(fault),
            Ok(earlier) => match M::described(configs.last()) {
                Err(fault) => Err(fault),
                Ok(mount) => Ok(earlier.push(mount)),
            },
        }
    }
}

/// The mounts that a view opens: those configured, or the whole system where none are.
pub open spec fn view_mounts<M: MountSource>(configs: Seq<M::V>) -> Result<
    Seq<MountView>,
    <M::Error as View>::V,
> {
    if configs.len() == 0 {
        Ok(repository::default_mounts())
    } else {
        mounts_of::<M>(configs)
    }
}

/// Once a configuration describes no mount, more configurations change nothing.
proof fn lemma_first_fault_decides<M: MountSource>(configs: Seq<M::V>, len: int)
    requires
        0 <= len <= configs.len(),
        mounts_of::<M>(configs.take(len)) is Err,
    ensures
        mounts_of::<M>(configs) == mounts_of::<M>(configs.take(len)),
    decreases configs.len(),
{
    if len == configs.len() {
        assert(configs.take(len) =~= configs);
    } else {
        assert(configs.drop_last().take(len) =~= configs.take(len));
        lemma_first_fault_decides::<M>(configs.drop_last(), len);
    }
}

/// Builds the mounts of a view, the whole system where none are configured.
pub fn build_mounts<M: MountSource>(configs: &Vec<M>) -> (built: Result<Vec<Mount>, M::Error>)
    ensures
        model::list_outcome(built) == view_mounts::<M>(model::views(configs@)),
{
    if configs.len() == 0 {
        return Ok(Mount::defaults());
    }
    let ghost wanted = model::views(configs@);
    let mut built: Vec<Mount> = Vec::new();
    let mut at: usize = 0;
    assert(wanted.take(0) =~= Seq::empty());
    assert(model::views(built@) =~= Seq::empty());
    while at < configs.len()
        invariant
            at <= configs@.len(),
            configs@.len() > 0,
            wanted == model::views(configs@),
            mounts_of::<M>(wanted.take(at as int)) == Ok::<Seq<MountView>, <M::Error as View>::V>(
                model::views(built@),
            ),
        decreases configs@.len() - at,
    {
        let ghost next = wanted.take(at + 1);
        proof {
            assert(next.drop_last() =~= wanted.take(at as int));
            assert(next.last() == configs@[at as int]@);
        }
        match configs[at].build_mount() {
            Err(error) => {
                proof {
                    lemma_first_fault_decides::<M>(wanted, at + 1);
                }
                return Err(error);
            },
            Ok(mount) => {
                let ghost before = model::views(built@);
                built.push(mount);
                assert(model::views(built@) =~= before.push(mount@));
            },
        }
        at = at + 1;
    }
    assert(wanted.take(at as int) =~= wanted);
    Ok(built)
}

/// A mount that can be shown: it has a label, a package mount has a package, and every
/// preselection includes something.
pub open spec fn can_be_shown(mount: MountView) -> bool {
    &&& mount.label.len() > 0
    &&& match mount.scope {
        MountScopeView::SystemLibrary => true,
        MountScopeView::Package(package) => package.len() > 0,
        MountScopeView::NamedPackage(package) => package.len() > 0,
        MountScopeView::Selection(preselections) => forall|i: int|
            0 <= i < preselections.len() ==> (#[trigger] preselections[i]).included.len() > 0,
    }
}

/// The mounts of a list are those that its configurations describe, one by one.
pub proof fn lemma_each_mount_is_described<M: MountSource>(configs: Seq<M::V>)
    ensures
        mounts_of::<M>(configs) matches Ok(built) ==> {
            &&& built.len() == configs.len()
            &&& forall|i: int|
                0 <= i < configs.len() ==> #[trigger] M::described(configs[i]) == Ok::<
                    MountView,
                    <M::Error as View>::V,
                >(built[i])
        },
    decreases configs.len(),
{
    if configs.len() > 0 {
        lemma_each_mount_is_described::<M>(configs.drop_last());
        if mounts_of::<M>(configs) is Ok {
            let built = mounts_of::<M>(configs)->Ok_0;
            assert forall|i: int| 0 <= i < configs.len() implies #[trigger] M::described(configs[i])
                == Ok::<MountView, <M::Error as View>::V>(built[i]) by {
                if i < configs.len() - 1 {
                    assert(configs.drop_last()[i] == configs[i]);
                }
            }
        }
    }
}

/// A list of configurations describes mounts exactly where each of them does, and the
/// first that describes none gives the error. Without configurations a view shows the
/// whole system, under the label `System Library` and grouped as the repository decides.
pub proof fn lemma_first_refused_mount_decides<M: MountSource>(configs: Seq<M::V>)
    ensures
        configs.len() == 0 ==> view_mounts::<M>(configs) == Ok::<
            Seq<MountView>,
            <M::Error as View>::V,
        >(
            seq![
                MountView {
                    label: "System Library"@,
                    scope: MountScopeView::SystemLibrary,
                    facets: None,
                },
            ],
        ),
        configs.len() > 0 ==> view_mounts::<M>(configs) == mounts_of::<M>(configs),
        mounts_of::<M>(configs) is Ok <==> forall|i: int|
            0 <= i < configs.len() ==> #[trigger] M::described(configs[i]) is Ok,
        mounts_of::<M>(configs) matches Err(fault) ==> exists|i: int|
            {
                &&& 0 <= i < configs.len()
                &&& #[trigger] M::described(configs[i]) == Err::<MountView, <M::Error as View>::V>(
                    fault,
                )
                &&& forall|j: int| 0 <= j < i ==> #[trigger] M::described(configs[j]) is Ok
            },
    decreases configs.len(),
{
    if configs.len() > 0 {
        let shorter = configs.drop_last();
        let last = configs.len() - 1;
        lemma_first_refused_mount_decides::<M>(shorter);
        assert(configs[last] == configs.last());
        assert forall|i: int| 0 <= i < last implies shorter[i] == configs[i] by {}
        if mounts_of::<M>(shorter) is Err {
            let fault = mounts_of::<M>(shorter)->Err_0;
            let i = choose|i: int|
                {
                    &&& 0 <= i < shorter.len()
                    &&& #[trigger] M::described(shorter[i]) == Err::<
                        MountView,
                        <M::Error as View>::V,
                    >(fault)
                    &&& forall|j: int| 0 <= j < i ==> #[trigger] M::described(shorter[j]) is Ok
                };
            assert(M::described(configs[i]) == Err::<MountView, <M::Error as View>::V>(fault));
            assert forall|j: int| 0 <= j < i implies #[trigger] M::described(configs[j]) is Ok by {
                assert(M::described(shorter[j]) is Ok);
            }
        } else {
            assert forall|j: int| 0 <= j < last implies #[trigger] M::described(
                configs[j],
            ) is Ok by {
                assert(M::described(shorter[j]) is Ok);
            }
        }
    }
}

} // verus!

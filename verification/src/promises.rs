//! What each operation is for, said of what it is given and what comes of it.
//!
//! Volumes are spoken of by their fields here, and operations by what they ask
//! for and come to.

use crate::effect::{EffectView, ReplyView};
use crate::error::ErrorView;
use crate::laws::lemma_same_volume_again;
use crate::mounting::{MountStageView, MountingView};
use crate::outcome::{mount_outcome, remove_outcome, removal_outcome, unmount_outcome, World};
use crate::removal::RemovalView;
use crate::repo::{checked, supported_url, RawRepo, RawRepoView, RepoErrorView, RepoView};
use crate::state::PluginView;
use crate::text::{blank, text_of};
use crate::unmounting::UnmountingView;
use crate::volume::{directory, VolumeStatus, VolumeView};
use crate::volumes::{options_of, with_created, VolumeMap, VolumesErrorView};
use vstd::prelude::*;

verus! {

// Options and creation.

/// Checked options are the options that were given: the same URL, branch and
/// tag, each whatever the others are, and a fetch on each mount if and only if
/// `refetch` is `true`. They are refused without a URL, with one that cannot be
/// cloned from, or with both a branch and a tag, and for no other reason.
pub proof fn law_options_as_given(raw: RawRepoView)
    ensures
        checked(raw) is Ok <==> {
            &&& raw.url matches Some(url) && supported_url(url)
            &&& !(raw.branch is Some && raw.tag is Some)
        },
        checked(raw) matches Ok(repo) ==> {
            &&& raw.url == Some(repo.url)
            &&& repo.branch == raw.branch
            &&& repo.tag == raw.tag
            &&& repo.refetch <==> raw.refetch == Some("true"@)
        },
        raw.url is None ==> checked(raw) == Err::<RepoView, RepoErrorView>(
            RepoErrorView::MissingUrl,
        ),
        raw.url matches Some(url) ==> !supported_url(url) ==> checked(raw) == Err::<
            RepoView,
            RepoErrorView,
        >(RepoErrorView::UnsupportedUrl(url)),
        raw.url matches Some(url) ==> supported_url(url) && raw.branch is Some && raw.tag is Some
            ==> checked(raw) == Err::<RepoView, RepoErrorView>(RepoErrorView::BranchAndTag),
{
}

/// A volume is created with the options that were given, field by field, not
/// mounted and `Created`; and everything else in the store stays as it is.
pub proof fn law_created_as_given(volumes: VolumeMap, name: Seq<char>, raw: RawRepo)
    ensures
        with_created(volumes, name, options_of(Some(raw))) is Ok <==> {
            &&& !blank(name)
            &&& !volumes.contains_key(name)
            &&& raw.url matches Some(url) && supported_url(url@)
            &&& raw.branch is None || raw.tag is None
        },
        with_created(volumes, name, options_of(Some(raw))) matches Ok(after) ==> {
            &&& after.dom() == volumes.dom().insert(name)
            &&& forall|other: Seq<char>|
                other != name && volumes.contains_key(other) ==> #[trigger] after[other]
                    == volumes[other]
            &&& after[name].repo.url == raw.url->Some_0@
            &&& match raw.branch {
                Some(branch) => after[name].repo.branch == Some(branch@),
                None => after[name].repo.branch is None,
            }
            &&& match raw.tag {
                Some(tag) => after[name].repo.tag == Some(tag@),
                None => after[name].repo.tag is None,
            }
            &&& after[name].repo.refetch <==> (raw.refetch matches Some(refetch) && refetch@
                == "true"@)
            &&& after[name].path is None
            &&& after[name].containers == Set::<Seq<char>>::empty()
            &&& after[name].status == VolumeStatus::Created
            &&& !after[name].leftovers
            &&& !after[name].busy
        },
{
}

/// Why a volume is not created: its name is blank, or taken, or its options are
/// refused, where no options at all lack a URL.
pub proof fn law_not_created(volumes: VolumeMap, name: Seq<char>, opts: Option<RawRepo>)
    ensures
        blank(name) ==> with_created(volumes, name, options_of(opts)) == Err::<
            VolumeMap,
            VolumesErrorView,
        >(VolumesErrorView::EmptyName),
        !blank(name) && volumes.contains_key(name) ==> with_created(
            volumes,
            name,
            options_of(opts),
        ) == Err::<VolumeMap, VolumesErrorView>(VolumesErrorView::AlreadyExists(name)),
        !blank(name) && !volumes.contains_key(name) ==> {
            &&& opts is None || opts->Some_0.url is None ==> with_created(
                volumes,
                name,
                options_of(opts),
            ) == Err::<VolumeMap, VolumesErrorView>(
                VolumesErrorView::Repo(RepoErrorView::MissingUrl),
            )
            &&& opts matches Some(raw) ==> raw.url matches Some(url) ==> !supported_url(url@)
                ==> with_created(volumes, name, options_of(opts)) == Err::<
                VolumeMap,
                VolumesErrorView,
            >(VolumesErrorView::Repo(RepoErrorView::UnsupportedUrl(url@)))
            &&& opts matches Some(raw) ==> raw.url matches Some(url) ==> supported_url(url@)
                && raw.branch is Some && raw.tag is Some ==> with_created(
                volumes,
                name,
                options_of(opts),
            ) == Err::<VolumeMap, VolumesErrorView>(
                VolumesErrorView::Repo(RepoErrorView::BranchAndTag),
            )
        },
{
}

/// What is cloned is what was asked for: the first mount of a volume, however
/// it finds the directory, asks for a clone of the URL, the branch and the tag
/// that the volume was created with.
pub proof fn law_clones_what_was_asked_for(
    state: PluginView,
    name: Seq<char>,
    raw: RawRepo,
    volumes: VolumeMap,
    id: Seq<char>,
)
    requires
        with_created(state.volumes, name, options_of(Some(raw))) == Ok::<
            VolumeMap,
            VolumesErrorView,
        >(volumes),
    ensures
        ({
            let created = PluginView { volumes, ..state };
            let (begun, probing) = created.mount_started(name, id);
            let (cleared, cloning) = begun.mount_resumed(probing->Some_0, ReplyView::Exists(false));
            let (found, clearing) = begun.mount_resumed(probing->Some_0, ReplyView::Exists(true));
            let freed = found.mount_resumed(clearing, ReplyView::Removed(Ok(()))).1;
            &&& probing is Some
            &&& freed.effect() == cloning.effect()
            &&& cloning.effect() matches Some(EffectView::Clone { path, repo }) && {
                &&& path == directory(state.base_path, name)
                &&& raw.url matches Some(url) && repo.url == url@
                &&& repo.branch == text_of(raw.branch)
                &&& repo.tag == text_of(raw.tag)
                &&& repo.refetch <==> text_of(raw.refetch) == Some("true"@)
            }
        }),
{
}

// Mounts.

/// What a mount waits for: to know whether anything is there, to have it
/// deleted, to have the repository cloned, or to have changes fetched, always
/// at the path it is about.
pub proof fn law_mount_asks(
    name: Seq<char>,
    id: Seq<char>,
    path: Seq<char>,
    repo: RepoView,
    outcome: Result<Seq<char>, ErrorView>,
)
    ensures
        (MountingView { name, id, stage: MountStageView::Probing { path, repo } }).effect() == Some(
            EffectView::Exists { path },
        ),
        (MountingView { name, id, stage: MountStageView::Clearing { path, repo } }).effect()
            == Some(EffectView::RemoveDirAll { path }),
        (MountingView { name, id, stage: MountStageView::Cloning { path, repo } }).effect() == Some(
            EffectView::Clone { path, repo },
        ),
        (MountingView { name, id, stage: MountStageView::Refetching { path } }).effect() == Some(
            EffectView::Refetch { path },
        ),
        (MountingView { name, id, stage: MountStageView::Done(outcome) }).effect() is None,
{
}

/// A mount of a volume that is not there is refused at once.
pub proof fn law_mount_of_absent(state: PluginView, name: Seq<char>, id: Seq<char>, world: World)
    requires
        !state.volumes.contains_key(name),
    ensures
        state.mount_started(name, id) == (
            state,
            Some(
                MountingView {
                    name,
                    id,
                    stage: MountStageView::Done(
                        Err(ErrorView::Volumes(VolumesErrorView::NonExists(name))),
                    ),
                },
            ),
        ),
        mount_outcome(state, name, id, world) == (
            state,
            Err::<Seq<char>, ErrorView>(ErrorView::Volumes(VolumesErrorView::NonExists(name))),
        ),
{
}

/// A mount of a volume without a directory looks first: whatever the volume's
/// options, and whether or not a mount has failed before, it asks whether there
/// is anything in the directory before anything else. Until it is known what
/// became of it, the volume is held, and there may be anything there.
pub proof fn law_first_mount_looks(state: PluginView, name: Seq<char>, id: Seq<char>)
    requires
        state.volumes.contains_key(name),
        !state.volumes[name].busy,
        state.volumes[name].path is None,
    ensures
        ({
            let volume = state.volumes[name];
            let path = directory(state.base_path, name);
            let (after, mounting) = state.mount_started(name, id);
            &&& state.mount_begun(name, id) == (after, mounting->Some_0)
            &&& mounting == Some(
                MountingView {
                    name,
                    id,
                    stage: MountStageView::Probing { path, repo: volume.repo },
                },
            )
            &&& mounting->Some_0.effect() == Some(EffectView::Exists { path })
            &&& after.base_path == state.base_path
            &&& after.volumes == state.volumes.insert(
                name,
                VolumeView { leftovers: true, busy: true, ..volume },
            )
        }),
{
}

/// What was found decides: a directory that is there is deleted, and one that is
/// not there is cloned into.
pub proof fn law_probe_decides(
    state: PluginView,
    name: Seq<char>,
    id: Seq<char>,
    path: Seq<char>,
    repo: RepoView,
    exists: bool,
)
    requires
        state.volumes.contains_key(name),
        state.volumes[name].busy,
    ensures
        ({
            let probing = MountingView { name, id, stage: MountStageView::Probing { path, repo } };
            let (after, next) = state.mount_resumed(probing, ReplyView::Exists(exists));
            &&& after == state
            &&& next.name == name && next.id == id
            &&& exists ==> next.stage == (MountStageView::Clearing { path, repo })
            &&& !exists ==> next.stage == (MountStageView::Cloning { path, repo })
        }),
{
    lemma_same_volume_again(state, name);
}

/// A directory that was deleted is cloned into. One that could not be deleted
/// ends the mount with that error, and nothing but the hold on the volume
/// changes.
pub proof fn law_clearing_decides(
    state: PluginView,
    name: Seq<char>,
    id: Seq<char>,
    path: Seq<char>,
    repo: RepoView,
    outcome: Result<(), std::io::ErrorKind>,
)
    requires
        state.volumes.contains_key(name),
        state.volumes[name].busy,
    ensures
        ({
            let clearing = MountingView {
                name,
                id,
                stage: MountStageView::Clearing { path, repo },
            };
            let (after, next) = state.mount_resumed(clearing, ReplyView::Removed(outcome));
            &&& next.name == name && next.id == id
            &&& outcome is Ok ==> {
                &&& after == state
                &&& next.stage == (MountStageView::Cloning { path, repo })
            }
            &&& outcome matches Err(kind) ==> {
                &&& after.base_path == state.base_path
                &&& after.volumes == state.volumes.insert(
                    name,
                    VolumeView { busy: false, ..state.volumes[name] },
                )
                &&& next.stage == MountStageView::Done(
                    Err(
                        ErrorView::RemoveDir { path, operation: "exists repository dir"@, kind },
                    ),
                )
            }
        }),
{
    lemma_same_volume_again(state, name);
}

/// A clone that went well gives the volume its directory, puts the container on
/// it, and makes it `Clonned`. One that failed ends the mount with what git
/// said, and nothing but the hold on the volume changes.
pub proof fn law_clone_decides(
    state: PluginView,
    name: Seq<char>,
    id: Seq<char>,
    path: Seq<char>,
    repo: RepoView,
    outcome: Result<(), Seq<char>>,
)
    requires
        state.volumes.contains_key(name),
        state.volumes[name].busy,
    ensures
        ({
            let volume = state.volumes[name];
            let own = directory(state.base_path, name);
            let cloning = MountingView { name, id, stage: MountStageView::Cloning { path, repo } };
            let (after, next) = state.mount_resumed(cloning, ReplyView::Git(outcome));
            &&& next.name == name && next.id == id
            &&& after.base_path == state.base_path
            &&& outcome is Ok ==> {
                &&& next.stage == MountStageView::Done(Ok(own))
                &&& after.volumes == state.volumes.insert(
                    name,
                    VolumeView {
                        path: Some(own),
                        repo: volume.repo,
                        containers: volume.containers.insert(id),
                        status: VolumeStatus::Clonned,
                        leftovers: false,
                        busy: false,
                    },
                )
            }
            &&& outcome matches Err(error) ==> {
                &&& next.stage == MountStageView::Done(Err(ErrorView::Git(error)))
                &&& after.volumes == state.volumes.insert(
                    name,
                    VolumeView { busy: false, ..volume },
                )
            }
        }),
{
}

/// A fetch that went well puts the container on the volume, and changes nothing
/// else about it. One that failed ends the mount with what git said, and puts
/// no container on it, whatever the volume's options.
pub proof fn law_fetch_decides(
    state: PluginView,
    name: Seq<char>,
    id: Seq<char>,
    asked: Seq<char>,
    outcome: Result<(), Seq<char>>,
)
    requires
        state.volumes.contains_key(name),
        state.volumes[name].busy,
    ensures
        ({
            let volume = state.volumes[name];
            let fetching = MountingView {
                name,
                id,
                stage: MountStageView::Refetching { path: asked },
            };
            let (after, next) = state.mount_resumed(fetching, ReplyView::Git(outcome));
            &&& next.name == name && next.id == id
            &&& after.base_path == state.base_path
            &&& outcome matches Err(error) ==> {
                &&& next.stage == MountStageView::Done(Err(ErrorView::Git(error)))
                &&& after.volumes == state.volumes.insert(
                    name,
                    VolumeView { busy: false, ..volume },
                )
            }
            &&& outcome is Ok ==> match volume.path {
                Some(path) => {
                    &&& next.stage == MountStageView::Done(Ok(path))
                    &&& after.volumes == state.volumes.insert(
                        name,
                        VolumeView { containers: volume.containers.insert(id), busy: false, ..volume },
                    )
                },
                None => {
                    &&& next.stage == MountStageView::Done(
                        Err(ErrorView::Volumes(VolumesErrorView::NonExists(name))),
                    )
                    &&& after.volumes == state.volumes.insert(
                        name,
                        VolumeView { busy: false, ..volume },
                    )
                },
            }
        }),
{
}

/// No clone is asked for before the directory was found absent or was deleted,
/// no deletion before something was found there, and no fetch after a mount has
/// begun. What is asked for next is about the same path and the same repository.
pub proof fn law_mount_asks_in_order(
    state: PluginView,
    name: Seq<char>,
    id: Seq<char>,
    mounting: MountingView,
    reply: ReplyView,
)
    ensures
        ({
            let first = state.mount_started(name, id).1;
            first matches Some(mounting) ==> {
                &&& !(mounting.effect() matches Some(EffectView::Clone { .. }))
                &&& !(mounting.effect() matches Some(EffectView::RemoveDirAll { .. }))
            }
        }),
        ({
            let next = state.mount_resumed(mounting, reply).1;
            next.stage != mounting.stage ==> {
                &&& next.effect() matches Some(EffectView::Clone { path, repo }) ==> {
                    ||| mounting.stage == (MountStageView::Probing { path, repo }) && reply
                        == ReplyView::Exists(false)
                    ||| mounting.stage == (MountStageView::Clearing { path, repo }) && (reply
                        matches ReplyView::Removed(Ok(_)))
                }
                &&& next.effect() matches Some(EffectView::RemoveDirAll { path }) ==> {
                    &&& mounting.effect() == Some(EffectView::Exists { path })
                    &&& reply == ReplyView::Exists(true)
                }
                &&& !(next.effect() matches Some(EffectView::Exists { .. }))
                &&& !(next.effect() matches Some(EffectView::Refetch { .. }))
            }
        }),
{
}

/// A mount is done well only with a volume that has its clone: either it was
/// there and nothing had to be fetched, or the fetch or the clone has just gone
/// well.
pub proof fn law_mount_well_done(
    state: PluginView,
    name: Seq<char>,
    id: Seq<char>,
    mounting: MountingView,
    reply: ReplyView,
)
    requires
        !(mounting.stage is Done),
    ensures
        state.mount_started(name, id).1 matches Some(first) ==> first.stage matches
            MountStageView::Done(Ok(path)) ==> {
            &&& state.volumes.contains_key(name)
            &&& state.volumes[name].path == Some(path)
            &&& !state.volumes[name].repo.refetch
        },
        state.mount_resumed(mounting, reply).1.stage matches MountStageView::Done(Ok(path)) ==> {
            let after = state.mount_resumed(mounting, reply).0;
            &&& reply matches ReplyView::Git(Ok(_))
            &&& mounting.stage is Cloning || mounting.stage is Refetching
            &&& after.volumes.contains_key(mounting.name)
            &&& after.volumes[mounting.name].path == Some(path)
            &&& after.volumes[mounting.name].containers.contains(mounting.id)
        },
{
}

/// A first mount goes well if and only if what is in the directory, if there is
/// anything, can be deleted and the clone goes well. Otherwise it fails with
/// what stood in the way, and the volume is without a directory and without the
/// container as before.
pub proof fn law_first_mount_comes_to(
    state: PluginView,
    name: Seq<char>,
    id: Seq<char>,
    world: World,
)
    requires
        state.volumes.contains_key(name),
        state.volumes[name].path is None,
    ensures
        ({
            let volume = state.volumes[name];
            let path = directory(state.base_path, name);
            let (after, outcome) = mount_outcome(state, name, id, world);
            &&& outcome is Ok <==> (world.exists ==> world.removed is Ok) && world.cloned is Ok
            &&& outcome is Ok ==> {
                &&& outcome == Ok::<Seq<char>, ErrorView>(path)
                &&& after.volumes == state.volumes.insert(
                    name,
                    VolumeView {
                        path: Some(path),
                        containers: volume.containers.insert(id),
                        status: VolumeStatus::Clonned,
                        leftovers: false,
                        ..volume
                    },
                )
            }
            &&& world.removed matches Err(kind) ==> world.exists ==> outcome == Err::<
                Seq<char>,
                ErrorView,
            >(ErrorView::RemoveDir { path, operation: "exists repository dir"@, kind })
            &&& world.cloned matches Err(error) ==> (world.exists ==> world.removed is Ok)
                ==> outcome == Err::<Seq<char>, ErrorView>(ErrorView::Git(error))
            &&& outcome is Err ==> after.volumes == state.volumes.insert(
                name,
                VolumeView { leftovers: true, ..volume },
            )
            &&& after.base_path == state.base_path
        }),
{
}

/// A volume that has its clone is shared: a mount gives the path it has. Where
/// its options ask for no fetch that happens at once; where they do, a fetch is
/// asked for at that path, and the volume is held until it is done.
pub proof fn law_mount_of_cloned(
    state: PluginView,
    name: Seq<char>,
    id: Seq<char>,
    path: Seq<char>,
)
    requires
        state.volumes.contains_key(name),
        !state.volumes[name].busy,
        state.volumes[name].path == Some(path),
    ensures
        ({
            let volume = state.volumes[name];
            let (after, mounting) = state.mount_started(name, id);
            &&& after.base_path == state.base_path
            &&& volume.repo.refetch ==> {
                &&& mounting == Some(
                    MountingView { name, id, stage: MountStageView::Refetching { path } },
                )
                &&& mounting->Some_0.effect() == Some(EffectView::Refetch { path })
                &&& after.volumes == state.volumes.insert(
                    name,
                    VolumeView { busy: true, ..volume },
                )
            }
            &&& !volume.repo.refetch ==> {
                &&& mounting == Some(
                    MountingView { name, id, stage: MountStageView::Done(Ok(path)) },
                )
                &&& after.volumes == state.volumes.insert(
                    name,
                    VolumeView { containers: volume.containers.insert(id), ..volume },
                )
            }
        }),
{
}

/// A mount of a volume that has its clone goes well unless a fetch that its
/// options ask for fails; and whatever a deletion or a clone would come to does
/// not matter. If it fails, it fails with what git said, and nothing changes.
pub proof fn law_mount_of_cloned_comes_to(
    state: PluginView,
    name: Seq<char>,
    id: Seq<char>,
    path: Seq<char>,
    world: World,
)
    requires
        state.volumes.contains_key(name),
        state.volumes[name].path == Some(path),
    ensures
        ({
            let volume = state.volumes[name];
            let (after, outcome) = mount_outcome(state, name, id, world);
            &&& outcome is Ok <==> (volume.repo.refetch ==> world.refetched is Ok)
            &&& outcome is Ok ==> {
                &&& outcome == Ok::<Seq<char>, ErrorView>(path)
                &&& after.base_path == state.base_path
                &&& after.volumes == state.volumes.insert(
                    name,
                    VolumeView { containers: volume.containers.insert(id), ..volume },
                )
            }
            &&& world.refetched matches Err(error) ==> volume.repo.refetch ==> {
                &&& outcome == Err::<Seq<char>, ErrorView>(ErrorView::Git(error))
                &&& after == state
            }
        }),
{
}

// Unmounts and removals.

/// What a removal of a directory waits for, and how it goes on: it asks whether
/// there is anything, asks to delete it if there is, and goes well if and only
/// if there was nothing or it was deleted.
pub proof fn law_removal_goes(
    path: Seq<char>,
    exists: bool,
    outcome: Result<(), std::io::ErrorKind>,
    done: Result<(), ErrorView>,
    reply: ReplyView,
)
    ensures
        RemovalView::started(Some(path)) == (RemovalView::Probing { path }),
        RemovalView::started(None) == RemovalView::Done(Ok(())),
        (RemovalView::Probing { path }).effect() == Some(EffectView::Exists { path }),
        (RemovalView::Deleting { path }).effect() == Some(EffectView::RemoveDirAll { path }),
        RemovalView::Done(done).effect() is None,
        exists ==> (RemovalView::Probing { path }).resumed(ReplyView::Exists(exists)) == (
        RemovalView::Deleting { path }),
        !exists ==> (RemovalView::Probing { path }).resumed(ReplyView::Exists(exists))
            == RemovalView::Done(Ok(())),
        outcome is Ok ==> (RemovalView::Deleting { path }).resumed(ReplyView::Removed(outcome))
            == RemovalView::Done(Ok(())),
        outcome matches Err(kind) ==> (RemovalView::Deleting { path }).resumed(
            ReplyView::Removed(outcome),
        ) == RemovalView::Done(
            Err(ErrorView::RemoveDir { path, operation: "remove dir if exists"@, kind }),
        ),
        RemovalView::Done(done).resumed(reply) == RemovalView::Done(done),
        !(reply is Exists) ==> (RemovalView::Probing { path }).resumed(reply) == (
        RemovalView::Probing { path }),
        !(reply is Removed) ==> (RemovalView::Deleting { path }).resumed(reply) == (
        RemovalView::Deleting { path }),
{
}

/// Where a volume may have anything on disk: at its path, if it has one; else in
/// its directory, if a mount may have left something there; else nowhere.
pub proof fn law_occupied(volume: VolumeView, base_path: Seq<char>, name: Seq<char>)
    ensures
        volume.path is Some ==> volume.occupied(base_path, name) == volume.path,
        volume.path is None && volume.leftovers ==> volume.occupied(base_path, name) == Some(
            directory(base_path, name),
        ),
        volume.path is None && !volume.leftovers ==> volume.occupied(base_path, name) is None,
{
}

/// The unmount of the last container deletes the clone: whatever the volume's
/// options, it asks whether there is anything at the path that the volume has.
/// The volume is `Cleared` and held, and keeps its path meanwhile.
pub proof fn law_last_unmount_deletes(
    state: PluginView,
    name: Seq<char>,
    id: Seq<char>,
    path: Seq<char>,
)
    requires
        state.volumes.contains_key(name),
        !state.volumes[name].busy,
        state.volumes[name].path == Some(path),
        forall|other: Seq<char>| #[trigger]
            state.volumes[name].containers.contains(other) ==> other == id,
    ensures
        ({
            let (after, unmounting) = state.unmount_started(name, id);
            &&& unmounting == Some(
                UnmountingView { name, removal: RemovalView::Probing { path } },
            )
            &&& state.unmount_begun(name, id).1.removal == (RemovalView::Probing { path })
            &&& after.base_path == state.base_path
            &&& after.volumes == state.volumes.insert(
                name,
                VolumeView {
                    containers: Set::empty(),
                    status: VolumeStatus::Cleared,
                    busy: true,
                    ..state.volumes[name]
                },
            )
        }),
{
    assert(state.volumes[name].containers.remove(id) =~= Set::<Seq<char>>::empty());
}

/// It goes well if and only if there was nothing at that path, or it was
/// deleted; then the volume has no path any longer. Otherwise it fails with what
/// stood in the way, and the path is kept.
pub proof fn law_last_unmount_comes_to(
    state: PluginView,
    name: Seq<char>,
    id: Seq<char>,
    path: Seq<char>,
    world: World,
)
    requires
        state.volumes.contains_key(name),
        state.volumes[name].path == Some(path),
        forall|other: Seq<char>| #[trigger]
            state.volumes[name].containers.contains(other) ==> other == id,
    ensures
        ({
            let (after, outcome) = unmount_outcome(state, name, id, world);
            let volume = after.volumes[name];
            &&& outcome is Ok <==> (world.exists ==> world.removed is Ok)
            &&& outcome is Ok ==> volume.path is None && !volume.leftovers
            &&& world.removed matches Err(kind) ==> world.exists ==> {
                &&& outcome == Err::<(), ErrorView>(
                    ErrorView::RemoveDir { path, operation: "remove dir if exists"@, kind },
                )
                &&& volume.path == Some(path)
            }
            &&& volume.status == VolumeStatus::Cleared
            &&& volume.containers == Set::<Seq<char>>::empty()
            &&& volume.repo == state.volumes[name].repo
            &&& after.base_path == state.base_path
            &&& after.volumes == state.volumes.insert(name, volume)
        }),
{
    assert(state.volumes[name].containers.remove(id) =~= Set::<Seq<char>>::empty());
}

/// Without a path, an unmount that leaves no container deletes what a mount may
/// have left in the directory, and otherwise just leaves the volume `Cleared`.
pub proof fn law_last_unmount_without_clone(
    state: PluginView,
    name: Seq<char>,
    id: Seq<char>,
    world: World,
)
    requires
        state.volumes.contains_key(name),
        !state.volumes[name].busy,
        state.volumes[name].path is None,
        forall|other: Seq<char>| #[trigger]
            state.volumes[name].containers.contains(other) ==> other == id,
    ensures
        ({
            let volume = state.volumes[name];
            let path = directory(state.base_path, name);
            let (after, unmounting) = state.unmount_started(name, id);
            let (left, outcome) = unmount_outcome(state, name, id, world);
            &&& volume.leftovers ==> unmounting == Some(
                UnmountingView { name, removal: RemovalView::Probing { path } },
            )
            &&& !volume.leftovers ==> unmounting == Some(
                UnmountingView { name, removal: RemovalView::Done(Ok(())) },
            )
            &&& after.base_path == state.base_path
            &&& after.volumes == state.volumes.insert(
                name,
                VolumeView {
                    containers: Set::empty(),
                    status: VolumeStatus::Cleared,
                    busy: volume.leftovers,
                    ..volume
                },
            )
            &&& outcome is Ok <==> (volume.leftovers && world.exists ==> world.removed is Ok)
            &&& left.base_path == state.base_path
            &&& left.volumes == state.volumes.insert(
                name,
                VolumeView {
                    containers: Set::empty(),
                    status: VolumeStatus::Cleared,
                    leftovers: outcome is Err,
                    ..volume
                },
            )
        }),
{
    assert(state.volumes[name].containers.remove(id) =~= Set::<Seq<char>>::empty());
}

/// As long as another container holds the volume, an unmount just takes its own
/// container off it: nothing is asked for, and path and status stay.
pub proof fn law_unmount_of_one_of_many(
    state: PluginView,
    name: Seq<char>,
    id: Seq<char>,
    other: Seq<char>,
    world: World,
)
    requires
        state.volumes.contains_key(name),
        !state.volumes[name].busy,
        state.volumes[name].containers.contains(other),
        other != id,
    ensures
        ({
            let volume = state.volumes[name];
            let (after, unmounting) = state.unmount_started(name, id);
            &&& unmounting == Some(UnmountingView { name, removal: RemovalView::Done(Ok(())) })
            &&& after.base_path == state.base_path
            &&& after.volumes == state.volumes.insert(
                name,
                VolumeView { containers: volume.containers.remove(id), ..volume },
            )
            &&& unmount_outcome(state, name, id, world) == (after, Ok::<(), ErrorView>(()))
        }),
{
    assert(state.volumes[name].containers.remove(id).contains(other));
}

/// An unmount or a removal of a volume that is not there has nothing to do.
pub proof fn law_nothing_to_undo(
    state: PluginView,
    name: Seq<char>,
    id: Seq<char>,
    world: World,
)
    requires
        !state.volumes.contains_key(name),
    ensures
        state.unmount_started(name, id) == (
            state,
            Some(UnmountingView { name, removal: RemovalView::Done(Ok(())) }),
        ),
        state.remove_started(name) == (state, Some(RemovalView::Done(Ok(())))),
        unmount_outcome(state, name, id, world) == (state, Ok::<(), ErrorView>(())),
        remove_outcome(state, name, world) == (state, Ok::<(), ErrorView>(())),
{
}

/// How an unmount that deletes goes on. What it found decides whether it asks
/// for a deletion. The volume loses its path, and the hold on it, as soon as
/// nothing is there any longer; if a deletion fails it loses just the hold.
pub proof fn law_unmount_goes(
    state: PluginView,
    name: Seq<char>,
    path: Seq<char>,
    exists: bool,
    outcome: Result<(), std::io::ErrorKind>,
)
    requires
        state.volumes.contains_key(name),
        state.volumes[name].busy,
        state.volumes[name].containers == Set::<Seq<char>>::empty(),
    ensures
        ({
            let volume = state.volumes[name];
            let gone = PluginView {
                volumes: state.volumes.insert(
                    name,
                    VolumeView { path: None, leftovers: false, busy: false, ..volume },
                ),
                ..state
            };
            let kept = PluginView {
                volumes: state.volumes.insert(name, VolumeView { busy: false, ..volume }),
                ..state
            };
            let probing = UnmountingView { name, removal: RemovalView::Probing { path } };
            let deleting = UnmountingView { name, removal: RemovalView::Deleting { path } };
            let done = UnmountingView { name, removal: RemovalView::Done(Ok(())) };
            &&& exists ==> state.unmount_resumed(probing, ReplyView::Exists(exists)) == (
                state,
                deleting,
            )
            &&& !exists ==> state.unmount_resumed(probing, ReplyView::Exists(exists)) == (
                gone,
                done,
            )
            &&& outcome is Ok ==> state.unmount_resumed(deleting, ReplyView::Removed(outcome)) == (
                gone,
                done,
            )
            &&& outcome matches Err(kind) ==> state.unmount_resumed(
                deleting,
                ReplyView::Removed(outcome),
            ) == (
                kept,
                UnmountingView {
                    name,
                    removal: RemovalView::Done(
                        Err(
                            ErrorView::RemoveDir {
                                path,
                                operation: "remove dir if exists"@,
                                kind,
                            },
                        ),
                    ),
                },
            )
        }),
{
    lemma_same_volume_again(state, name);
}

/// An unmount spares a volume that a container is on: at its end it lets go of
/// it, and takes nothing from it.
pub proof fn law_unmount_spares_a_container(
    state: PluginView,
    unmounting: UnmountingView,
    reply: ReplyView,
    container: Seq<char>,
)
    requires
        state.volumes.contains_key(unmounting.name),
        state.volumes[unmounting.name].busy,
        state.volumes[unmounting.name].containers.contains(container),
        !(unmounting.removal is Done),
    ensures
        ({
            let name = unmounting.name;
            let (after, next) = state.unmount_resumed(unmounting, reply);
            &&& next.name == name
            &&& next.removal == unmounting.removal.resumed(reply)
            &&& after.base_path == state.base_path
            &&& after.volumes == state.volumes.insert(
                name,
                VolumeView { busy: !(next.removal is Done), ..state.volumes[name] },
            )
        }),
{
}

/// How a mount and an unmount go on does not depend on the hold: with it or
/// without, the same comes next, and the volume ends up the same. As long as
/// they are not at their end they leave the volume alone.
pub proof fn law_steps_apart_from_the_hold(
    volume: VolumeView,
    base_path: Seq<char>,
    name: Seq<char>,
    id: Seq<char>,
    stage: MountStageView,
    unmounting: UnmountingView,
    reply: ReplyView,
)
    ensures
        ({
            let held = VolumeView { busy: true, ..volume };
            let (after, next) = stage.advanced(volume, base_path, name, id, reply);
            let (expected, then_next) = stage.advanced(held, base_path, name, id, reply);
            &&& next == then_next
            &&& !(stage is Done) && next is Done ==> after == expected && !after.busy
            &&& stage is Done || !(next is Done) ==> after == volume && expected == held
        }),
        ({
            let held = VolumeView { busy: true, ..volume };
            let (after, next) = unmounting.advanced(volume, reply);
            let (expected, then_next) = unmounting.advanced(held, reply);
            &&& next == then_next
            &&& next.removal is Done ==> after == expected && !after.busy
            &&& !(next.removal is Done) ==> after == volume && expected == held
        }),
{
}

/// No volume loses its path but by a reply to an unmount that nothing is there
/// any longer; no mount takes it away, and no unmount does as it begins.
pub proof fn law_path_goes_with_the_directory(
    state: PluginView,
    volume: Seq<char>,
    name: Seq<char>,
    id: Seq<char>,
    mounting: MountingView,
    unmounting: UnmountingView,
    reply: ReplyView,
)
    requires
        state.volumes.contains_key(volume),
        state.volumes[volume].path is Some,
    ensures
        ({
            let path = state.volumes[volume].path;
            &&& state.mount_started(name, id).0.volumes[volume].path == path
            &&& state.unmount_started(name, id).0.volumes[volume].path == path
            &&& state.mount_resumed(mounting, reply).0.volumes[volume].path is Some
            &&& state.mount_abandoned(mounting).volumes[volume].path == path
            &&& state.unmount_abandoned(unmounting).volumes[volume].path == path
            &&& state.unmount_resumed(unmounting, reply).0.volumes[volume].path == path || {
                &&& unmounting.name == volume
                &&& state.volumes[volume].containers == Set::<Seq<char>>::empty()
                &&& (unmounting.removal is Probing && reply == ReplyView::Exists(false))
                    || (unmounting.removal is Deleting && (reply matches ReplyView::Removed(Ok(_))))
            }
        }),
{
}

/// No container comes onto a volume but by a mount of its own, and none leaves
/// but by an unmount of its own.
pub proof fn law_containers_come_and_go(
    state: PluginView,
    volume: Seq<char>,
    container: Seq<char>,
    name: Seq<char>,
    id: Seq<char>,
    mounting: MountingView,
    unmounting: UnmountingView,
    reply: ReplyView,
)
    requires
        state.volumes.contains_key(volume),
    ensures
        ({
            let before = state.volumes[volume].containers.contains(container);
            let mounts = state.mount_started(name, id).0.volumes[volume].containers;
            let mounted = state.mount_resumed(mounting, reply).0.volumes[volume].containers;
            let unmounts = state.unmount_started(name, id).0.volumes[volume].containers;
            let unmounted = state.unmount_resumed(unmounting, reply).0.volumes[volume].containers;
            &&& before ==> mounts.contains(container) && mounted.contains(container)
            &&& mounts.contains(container) ==> before || (volume == name && container == id)
            &&& mounted.contains(container) ==> before || {
                &&& volume == mounting.name && container == mounting.id
                &&& reply matches ReplyView::Git(Ok(_))
            }
            &&& unmounts.contains(container) ==> before
            &&& before ==> unmounts.contains(container) || (volume == name && container == id)
            &&& unmounted == state.volumes[volume].containers
            &&& state.mount_abandoned(mounting).volumes[volume].containers
                == state.volumes[volume].containers
            &&& state.unmount_abandoned(unmounting).volumes[volume].containers
                == state.volumes[volume].containers
        }),
{
}

/// A removal takes the volume out, and its clone with it: whatever its options
/// and whoever holds it, it asks whether there is anything at the path that the
/// volume has, or, without one, where a mount may have left something.
pub proof fn law_removal_deletes(state: PluginView, name: Seq<char>)
    requires
        state.volumes.contains_key(name),
        !state.volumes[name].busy,
    ensures
        ({
            let volume = state.volumes[name];
            let (after, removal) = state.remove_started(name);
            &&& state.remove_begun(name) == (after, removal->Some_0)
            &&& after.base_path == state.base_path
            &&& after.volumes == state.volumes.remove(name)
            &&& volume.path matches Some(path) ==> removal == Some(RemovalView::Probing { path })
            &&& volume.path is None && volume.leftovers ==> removal == Some(
                RemovalView::Probing { path: directory(state.base_path, name) },
            )
            &&& volume.path is None && !volume.leftovers ==> removal == Some(
                RemovalView::Done(Ok(())),
            )
        }),
{
}

/// A removal goes well if and only if there was nothing there, or it was
/// deleted. The volume is gone either way, and no other is.
pub proof fn law_removal_comes_to(state: PluginView, name: Seq<char>, world: World)
    requires
        state.volumes.contains_key(name),
    ensures
        ({
            let volume = state.volumes[name];
            let (after, outcome) = remove_outcome(state, name, world);
            let path = match volume.path {
                Some(path) => path,
                None => directory(state.base_path, name),
            };
            &&& after.base_path == state.base_path
            &&& after.volumes == state.volumes.remove(name)
            &&& volume.path is Some ==> (outcome is Ok <==> (world.exists ==> world.removed is Ok))
            &&& volume.leftovers ==> (outcome is Ok <==> (world.exists ==> world.removed is Ok))
            &&& volume.path is None && !volume.leftovers ==> outcome is Ok
            &&& outcome matches Err(error) ==> {
                &&& world.removed matches Err(kind)
                &&& error == (ErrorView::RemoveDir {
                    path,
                    operation: "remove dir if exists"@,
                    kind,
                })
            }
        }),
{
}

/// What a mount gave is what an unmount or a removal afterwards deletes: a path
/// that a mount has given is looked for by the unmount of the last container and
/// by the removal of the volume.
pub proof fn law_what_was_mounted_is_deleted(
    state: PluginView,
    name: Seq<char>,
    id: Seq<char>,
    world: World,
    later: World,
)
    requires
        state.volumes.contains_key(name),
        !state.volumes[name].busy,
        mount_outcome(state, name, id, world).1 is Ok,
    ensures
        ({
            let (mounted, outcome) = mount_outcome(state, name, id, world);
            let path = outcome->Ok_0;
            let unmounting = mounted.unmount_started(name, id).1;
            &&& mounted.remove_started(name).1 == Some(RemovalView::Probing { path })
            &&& remove_outcome(mounted, name, later).1 is Ok <==> (later.exists
                ==> later.removed is Ok)
            &&& (forall|other: Seq<char>| #[trigger]
                state.volumes[name].containers.contains(other) ==> other == id)
                ==> unmounting == Some(
                UnmountingView { name, removal: RemovalView::Probing { path } },
            )
        }),
{
    let containers = mount_outcome(state, name, id, world).0.volumes[name].containers;
    if forall|other: Seq<char>| #[trigger]
        state.volumes[name].containers.contains(other) ==> other == id {
        assert(containers.remove(id) =~= Set::<Seq<char>>::empty());
    }
}

// All operations.

/// As long as an operation is under way on a volume, no other begins on it.
pub proof fn law_no_second_operation(state: PluginView, name: Seq<char>, id: Seq<char>)
    requires
        state.volumes.contains_key(name),
        state.volumes[name].busy,
    ensures
        state.mount_started(name, id) == (state, None::<MountingView>),
        state.unmount_started(name, id) == (state, None::<UnmountingView>),
        state.remove_started(name) == (state, None::<RemovalView>),
{
}

/// An operation on a volume that is not held begins.
pub proof fn law_operation_begins(state: PluginView, name: Seq<char>, id: Seq<char>)
    requires
        state.volumes.contains_key(name) ==> !state.volumes[name].busy,
    ensures
        state.mount_started(name, id) == (
            state.mount_begun(name, id).0,
            Some(state.mount_begun(name, id).1),
        ),
        state.unmount_started(name, id) == (
            state.unmount_begun(name, id).0,
            Some(state.unmount_begun(name, id).1),
        ),
        state.remove_started(name) == (
            state.remove_begun(name).0,
            Some(state.remove_begun(name).1),
        ),
{
}

/// A reply to something that was not asked for changes nothing; nor does any
/// reply to an operation that is done.
pub proof fn law_unasked_replies(
    state: PluginView,
    mounting: MountingView,
    unmounting: UnmountingView,
    reply: ReplyView,
)
    requires
        mounting.stage is Done || (state.volumes.contains_key(mounting.name)
            && state.volumes[mounting.name].busy),
        unmounting.removal is Done || (state.volumes.contains_key(unmounting.name)
            && state.volumes[unmounting.name].busy),
    ensures
        mounting.stage is Done || (mounting.stage is Probing && !(reply is Exists)) || (
        mounting.stage is Clearing && !(reply is Removed)) || (mounting.stage is Cloning && !(
        reply is Git)) || (mounting.stage is Refetching && !(reply is Git)) ==> state.mount_resumed(
            mounting,
            reply,
        ) == (state, mounting),
        unmounting.removal is Done || (unmounting.removal is Probing && !(reply is Exists)) || (
        unmounting.removal is Deleting && !(reply is Removed)) ==> state.unmount_resumed(
            unmounting,
            reply,
        ) == (state, unmounting),
{
    lemma_same_volume_again(state, mounting.name);
    lemma_same_volume_again(state, unmounting.name);
}

/// An operation that does not hold its volume does nothing to it: a mount ends
/// as if the volume were not there, and so does an unmount.
pub proof fn law_operation_without_hold(
    state: PluginView,
    mounting: MountingView,
    unmounting: UnmountingView,
    reply: ReplyView,
)
    requires
        state.volumes.contains_key(mounting.name) ==> !state.volumes[mounting.name].busy,
        state.volumes.contains_key(unmounting.name) ==> !state.volumes[unmounting.name].busy,
        !(mounting.stage is Done),
        !(unmounting.removal is Done),
    ensures
        state.mount_resumed(mounting, reply) == (
            state,
            MountingView {
                name: mounting.name,
                id: mounting.id,
                stage: MountStageView::Done(
                    Err(ErrorView::Volumes(VolumesErrorView::NonExists(mounting.name))),
                ),
            },
        ),
        state.unmount_resumed(unmounting, reply) == (
            state,
            UnmountingView { name: unmounting.name, removal: RemovalView::Done(Ok(())) },
        ),
{
}

/// An operation that is given up lets go of its volume, and changes nothing
/// else; one that is done has nothing to let go of.
pub proof fn law_given_up(state: PluginView, mounting: MountingView, unmounting: UnmountingView)
    ensures
        mounting.stage is Done || !state.volumes.contains_key(mounting.name)
            ==> state.mount_abandoned(mounting) == state,
        !(mounting.stage is Done) && state.volumes.contains_key(mounting.name)
            ==> state.mount_abandoned(mounting) == (PluginView {
            base_path: state.base_path,
            volumes: state.volumes.insert(
                mounting.name,
                VolumeView { busy: false, ..state.volumes[mounting.name] },
            ),
        }),
        unmounting.removal is Done || !state.volumes.contains_key(unmounting.name)
            ==> state.unmount_abandoned(unmounting) == state,
        !(unmounting.removal is Done) && state.volumes.contains_key(unmounting.name)
            ==> state.unmount_abandoned(unmounting) == (PluginView {
            base_path: state.base_path,
            volumes: state.volumes.insert(
                unmounting.name,
                VolumeView { busy: false, ..state.volumes[unmounting.name] },
            ),
        }),
{
}

/// What the changes of a volume change, and what they leave.
pub proof fn law_changes_of_a_volume(
    volume: VolumeView,
    repo: RepoView,
    path: Option<Seq<char>>,
    id: Seq<char>,
    status: VolumeStatus,
    busy: bool,
)
    ensures
        VolumeView::created(repo) == (VolumeView {
            path: None,
            repo,
            containers: Set::empty(),
            status: VolumeStatus::Created,
            leftovers: false,
            busy: false,
        }),
        volume.at(path) == (VolumeView { path, leftovers: false, ..volume }),
        volume.with_leftovers() == (VolumeView { leftovers: true, ..volume }),
        volume.held(busy) == (VolumeView { busy, ..volume }),
        volume.attached(id) == (VolumeView { containers: volume.containers.insert(id), ..volume }),
        volume.detached(id) == (VolumeView { containers: volume.containers.remove(id), ..volume }),
        volume.in_status(status) == (VolumeView { status, ..volume }),
{
}

/// What a valid state promises of each of its volumes.
pub proof fn law_valid_volumes(state: PluginView, name: Seq<char>)
    requires
        state.valid(),
        state.volumes.contains_key(name),
    ensures
        ({
            let volume = state.volumes[name];
            &&& !blank(name)
            &&& supported_url(volume.repo.url)
            &&& !(volume.repo.branch is Some && volume.repo.tag is Some)
            &&& volume.path matches Some(path) ==> path == directory(state.base_path, name)
            &&& volume.path is Some ==> !volume.leftovers
            &&& volume.status == VolumeStatus::Created ==> volume.path is None
            &&& volume.status == VolumeStatus::Clonned ==> exists|id: Seq<char>|
                volume.containers.contains(id)
            &&& (exists|id: Seq<char>| volume.containers.contains(id)) ==> volume.path is Some
        }),
{
    let containers = state.volumes[name].containers;
    if forall|id: Seq<char>| !containers.contains(id) {
        assert(containers =~= Set::<Seq<char>>::empty());
    }
}

/// The removal of a directory comes to what its deletion comes to, if there is
/// anything to delete.
pub proof fn law_removal_of_a_directory(path: Option<Seq<char>>, world: World)
    ensures
        removal_outcome(path, world) is Ok <==> (path is Some && world.exists
            ==> world.removed is Ok),
        removal_outcome(path, world) matches Err(error) ==> {
            &&& world.removed matches Err(kind)
            &&& error == (ErrorView::RemoveDir {
                path: path->Some_0,
                operation: "remove dir if exists"@,
                kind,
            })
        },
        world.can_clear() <==> (world.exists ==> world.removed is Ok),
{
}

/// What the world does is what it answers.
pub proof fn law_world_answers(world: World, path: Seq<char>, repo: RepoView)
    ensures
        world.reply(EffectView::Exists { path }) == ReplyView::Exists(world.exists),
        world.reply(EffectView::RemoveDirAll { path }) == ReplyView::Removed(world.removed),
        world.reply(EffectView::Clone { path, repo }) == ReplyView::Git(world.cloned),
        world.reply(EffectView::Refetch { path }) == ReplyView::Git(world.refetched),
{
}

} // verus!

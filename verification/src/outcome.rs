//! Whole operations: what each comes to, given what the world outside does.

use crate::effect::{EffectView, ReplyView};
use crate::error::{non_exists, ErrorView};
use crate::mounting::{not_cleared, MountStageView, MountingView};
use crate::removal::{not_removed, RemovalView};
use crate::state::PluginView;
use crate::unmounting::UnmountingView;
use crate::volume::{directory, VolumeStatus};
use vstd::prelude::*;

verus! {

/// What the world outside does during one operation.
pub struct World {
    /// Whether there is anything in the directory.
    pub exists: bool,
    /// How its deletion goes.
    pub removed: Result<(), std::io::ErrorKind>,
    /// How a clone into it goes.
    pub cloned: Result<(), Seq<char>>,
    /// How a fetch in it goes.
    pub refetched: Result<(), Seq<char>>,
}

impl World {
    /// The reply to an effect.
    pub open spec fn reply(self, effect: EffectView) -> ReplyView {
        match effect {
            EffectView::Exists { .. } => ReplyView::Exists(self.exists),
            EffectView::RemoveDirAll { .. } => ReplyView::Removed(self.removed),
            EffectView::Clone { .. } => ReplyView::Git(self.cloned),
            EffectView::Refetch { .. } => ReplyView::Git(self.refetched),
        }
    }

    /// No directory that is there, deleted on request, is left behind.
    pub open spec fn can_clear(self) -> bool {
        self.exists ==> self.removed is Ok
    }
}

/// A mount after at most `steps` more replies.
pub open spec fn mount_run(
    state: PluginView,
    mounting: MountingView,
    world: World,
    steps: nat,
) -> (PluginView, MountingView)
    decreases steps,
{
    match mounting.effect() {
        Some(effect) if steps > 0 => {
            let (state, mounting) = state.mount_resumed(mounting, world.reply(effect));
            mount_run(state, mounting, world, (steps - 1) as nat)
        },
        _ => (state, mounting),
    }
}

/// An unmount after at most `steps` more replies.
pub open spec fn unmount_run(
    state: PluginView,
    unmounting: UnmountingView,
    world: World,
    steps: nat,
) -> (PluginView, UnmountingView)
    decreases steps,
{
    match unmounting.removal.effect() {
        Some(effect) if steps > 0 => {
            let (state, unmounting) = state.unmount_resumed(unmounting, world.reply(effect));
            unmount_run(state, unmounting, world, (steps - 1) as nat)
        },
        _ => (state, unmounting),
    }
}

/// A removal after at most `steps` more replies.
pub open spec fn removal_run(removal: RemovalView, world: World, steps: nat) -> RemovalView
    decreases steps,
{
    match removal.effect() {
        Some(effect) if steps > 0 => removal_run(
            removal.resumed(world.reply(effect)),
            world,
            (steps - 1) as nat,
        ),
        _ => removal,
    }
}

/// What a mount comes to.
///
/// Only a mount that goes well puts the container on the volume, and gives it
/// its directory if it has just been cloned. All that a first mount which fails
/// leaves is that there may be anything in the directory.
pub open spec fn mount_outcome(
    state: PluginView,
    name: Seq<char>,
    id: Seq<char>,
    world: World,
) -> (PluginView, Result<Seq<char>, ErrorView>) {
    let volume = state.volumes[name];
    if !state.has(name) {
        (state, Err(non_exists(name)))
    } else {
        match volume.path {
            Some(path) => match (volume.repo.refetch, world.refetched) {
                (true, Err(error)) => (state, Err(ErrorView::Git(error))),
                _ => (state.with(name, volume.attached(id)), Ok(path)),
            },
            None => {
                let path = directory(state.base_path, name);
                let failed = state.with(name, volume.with_leftovers());
                match (world.exists, world.removed, world.cloned) {
                    (true, Err(kind), _) => (failed, Err(not_cleared(path, kind))),
                    (_, _, Err(error)) => (failed, Err(ErrorView::Git(error))),
                    _ => (
                        state.with(
                            name,
                            volume.at(Some(path)).attached(id).in_status(VolumeStatus::Clonned),
                        ),
                        Ok(path),
                    ),
                }
            },
        }
    }
}

/// What the removal of the directory at `path`, if there is one, comes to.
pub open spec fn removal_outcome(path: Option<Seq<char>>, world: World) -> Result<(), ErrorView> {
    match (path, world.exists, world.removed) {
        (Some(path), true, Err(kind)) => Err(not_removed(path, kind)),
        _ => Ok(()),
    }
}

/// What an unmount comes to.
///
/// A volume that no container holds any longer is `Cleared`. It loses its
/// directory as well, with all that may have been left in it, unless that could
/// not be deleted.
pub open spec fn unmount_outcome(
    state: PluginView,
    name: Seq<char>,
    id: Seq<char>,
    world: World,
) -> (PluginView, Result<(), ErrorView>) {
    let volume = state.volumes[name].detached(id);
    let cleared = volume.in_status(VolumeStatus::Cleared);
    if !state.has(name) {
        (state, Ok(()))
    } else if volume.containers != Set::<Seq<char>>::empty() {
        (state.with(name, volume), Ok(()))
    } else {
        match removal_outcome(volume.occupied(state.base_path, name), world) {
            Ok(_) => (state.with(name, cleared.at(None)), Ok(())),
            Err(error) => (state.with(name, cleared), Err(error)),
        }
    }
}

/// What a removal of a volume comes to.
///
/// The volume is gone, even where its directory could not be deleted.
pub open spec fn remove_outcome(state: PluginView, name: Seq<char>, world: World) -> (
    PluginView,
    Result<(), ErrorView>,
) {
    if state.has(name) {
        (
            PluginView { volumes: state.volumes.remove(name), ..state },
            removal_outcome(state.volumes[name].occupied(state.base_path, name), world),
        )
    } else {
        (state, Ok(()))
    }
}

/// A mount of a volume that is not held ends after no more than three replies,
/// and comes to `mount_outcome`.
pub proof fn law_mount_outcome(state: PluginView, name: Seq<char>, id: Seq<char>, world: World)
    requires
        !state.held(name),
    ensures
        ({
            let (begun, mounting) = state.mount_begun(name, id);
            let (after, mounted) = mount_run(begun, mounting, world, 3);
            let (expected, outcome) = mount_outcome(state, name, id, world);
            &&& state.mount_started(name, id) == (begun, Some(mounting))
            &&& after == expected
            &&& mounted.stage == MountStageView::Done(outcome)
        }),
{
    reveal_with_fuel(mount_run, 4);
    let (begun, mounting) = state.mount_begun(name, id);
    let after = mount_run(begun, mounting, world, 3).0;
    let expected = mount_outcome(state, name, id, world).0;
    assert(after.volumes =~= expected.volumes);
}

/// The removal of a directory ends after no more than two replies, and comes
/// to `removal_outcome`.
pub proof fn law_removal_outcome(path: Option<Seq<char>>, world: World)
    ensures
        removal_run(RemovalView::started(path), world, 2) == RemovalView::Done(
            removal_outcome(path, world),
        ),
{
    reveal_with_fuel(removal_run, 3);
}

/// An unmount of a volume that is not held ends after no more than two replies,
/// and comes to `unmount_outcome`.
pub proof fn law_unmount_outcome(state: PluginView, name: Seq<char>, id: Seq<char>, world: World)
    requires
        !state.held(name),
    ensures
        ({
            let (begun, unmounting) = state.unmount_begun(name, id);
            let (after, unmounted) = unmount_run(begun, unmounting, world, 2);
            let (expected, outcome) = unmount_outcome(state, name, id, world);
            &&& state.unmount_started(name, id) == (begun, Some(unmounting))
            &&& after == expected
            &&& unmounted.removal == RemovalView::Done(outcome)
        }),
{
    reveal_with_fuel(unmount_run, 3);
    let (begun, unmounting) = state.unmount_begun(name, id);
    let after = unmount_run(begun, unmounting, world, 2).0;
    let expected = unmount_outcome(state, name, id, world).0;
    assert(after.volumes =~= expected.volumes);
}

/// A removal of a volume that is not held ends after no more than two replies,
/// and comes to `remove_outcome`.
pub proof fn law_remove_outcome(state: PluginView, name: Seq<char>, world: World)
    requires
        !state.held(name),
    ensures
        ({
            let (after, removal) = state.remove_begun(name);
            let (expected, outcome) = remove_outcome(state, name, world);
            &&& state.remove_started(name) == (after, Some(removal))
            &&& after == expected
            &&& removal_run(removal, world, 2) == RemovalView::Done(outcome)
        }),
{
    reveal_with_fuel(removal_run, 3);
    law_removal_outcome(state.volumes[name].occupied(state.base_path, name), world);
}

} // verus!

//! The state of the driver, and how each operation moves it on.
//!
//! An operation that waits for something holds its volume until it is done. As
//! long as it does, no other operation begins on that volume.

use crate::effect::ReplyView;
use crate::error::non_exists;
use crate::mounting::{MountStageView, MountingView};
use crate::removal::RemovalView;
use crate::text::blank;
use crate::unmounting::UnmountingView;
use crate::volume::{directory, VolumeStatus, VolumeView};
use crate::volumes::VolumeMap;
use vstd::prelude::*;

verus! {

/// The state of the driver.
pub struct PluginView {
    /// Where the directories of the volumes are.
    pub base_path: Seq<char>,
    /// The volumes by their names.
    pub volumes: VolumeMap,
}

impl PluginView {
    /// There is a volume `name`.
    pub open spec fn has(self, name: Seq<char>) -> bool {
        self.volumes.contains_key(name)
    }

    /// There is a volume `name`, and it has a directory.
    pub open spec fn placed(self, name: Seq<char>) -> bool {
        self.has(name) && self.volumes[name].path is Some
    }

    /// There is a volume `name`, and an operation is under way on it.
    pub open spec fn held(self, name: Seq<char>) -> bool {
        self.has(name) && self.volumes[name].busy
    }

    /// The state with another volume `name`.
    pub open spec fn with(self, name: Seq<char>, volume: VolumeView) -> PluginView {
        PluginView { volumes: self.volumes.insert(name, volume), ..self }
    }

    /// The state with no operation under way on the volume `name`.
    pub open spec fn freed(self, name: Seq<char>) -> PluginView {
        if self.has(name) {
            self.with(name, self.volumes[name].held(false))
        } else {
            self
        }
    }

    /// What holds at all times: every volume has a name that is not blank, and
    /// is itself valid.
    pub open spec fn valid(self) -> bool {
        forall|name: Seq<char>| #[trigger]
            self.volumes.contains_key(name) ==> !blank(name) && self.volumes[name].valid(
                self.base_path,
                name,
            )
    }

    /// A mount begins where no operation is under way. A volume with a
    /// directory is mounted at once, or after a fetch where its options ask for
    /// one. Another has to be cloned first, and there may be anything in its
    /// directory until it is.
    pub open spec fn mount_begun(self, name: Seq<char>, id: Seq<char>) -> (
        PluginView,
        MountingView,
    ) {
        let volume = self.volumes[name];
        let (state, stage) = if !self.has(name) {
            (self, MountStageView::Done(Err(non_exists(name))))
        } else {
            match volume.path {
                Some(path) => if volume.repo.refetch {
                    (self.with(name, volume.held(true)), MountStageView::Refetching { path })
                } else {
                    (self.with(name, volume.attached(id)), MountStageView::Done(Ok(path)))
                },
                None => (
                    self.with(name, volume.with_leftovers().held(true)),
                    MountStageView::Probing {
                        path: directory(self.base_path, name),
                        repo: volume.repo,
                    },
                ),
            }
        };
        (state, MountingView { name, id, stage })
    }

    /// A mount begins, unless another operation is under way on the volume.
    pub open spec fn mount_started(self, name: Seq<char>, id: Seq<char>) -> (
        PluginView,
        Option<MountingView>,
    ) {
        if self.held(name) {
            (self, None)
        } else {
            (self.mount_begun(name, id).0, Some(self.mount_begun(name, id).1))
        }
    }

    /// A mount goes on after a reply. One that is done stays so; one that does
    /// not hold its volume any longer is answered as if that were not there.
    pub open spec fn mount_resumed(self, mounting: MountingView, reply: ReplyView) -> (
        PluginView,
        MountingView,
    ) {
        if mounting.stage is Done {
            (self, mounting)
        } else if !self.held(mounting.name) {
            (self, mounting.at(MountStageView::Done(Err(non_exists(mounting.name)))))
        } else {
            let (volume, stage) = mounting.stage.advanced(
                self.volumes[mounting.name],
                self.base_path,
                mounting.name,
                mounting.id,
                reply,
            );
            (self.with(mounting.name, volume), mounting.at(stage))
        }
    }

    /// A mount is given up: it does not hold its volume any longer.
    pub open spec fn mount_abandoned(self, mounting: MountingView) -> PluginView {
        if mounting.stage is Done {
            self
        } else {
            self.freed(mounting.name)
        }
    }

    /// An unmount begins where no operation is under way. As long as another
    /// container holds the volume nothing else happens. The last one leaves it
    /// `Cleared`, and with nothing in its directory as soon as that is gone.
    pub open spec fn unmount_begun(self, name: Seq<char>, id: Seq<char>) -> (
        PluginView,
        UnmountingView,
    ) {
        let volume = self.volumes[name].detached(id);
        let cleared = volume.in_status(VolumeStatus::Cleared);
        let path = volume.occupied(self.base_path, name);
        let (state, removal) = if !self.has(name) {
            (self, RemovalView::Done(Ok(())))
        } else if volume.containers != Set::<Seq<char>>::empty() {
            (self.with(name, volume), RemovalView::Done(Ok(())))
        } else {
            (self.with(name, cleared.held(path is Some)), RemovalView::started(path))
        };
        (state, UnmountingView { name, removal })
    }

    /// An unmount begins, unless another operation is under way on the volume.
    pub open spec fn unmount_started(self, name: Seq<char>, id: Seq<char>) -> (
        PluginView,
        Option<UnmountingView>,
    ) {
        if self.held(name) {
            (self, None)
        } else {
            (self.unmount_begun(name, id).0, Some(self.unmount_begun(name, id).1))
        }
    }

    /// An unmount goes on after a reply. One that is done stays so; one that
    /// does not hold its volume any longer is answered as if that were not
    /// there.
    pub open spec fn unmount_resumed(self, unmounting: UnmountingView, reply: ReplyView) -> (
        PluginView,
        UnmountingView,
    ) {
        if unmounting.removal is Done {
            (self, unmounting)
        } else if !self.held(unmounting.name) {
            (self, UnmountingView { removal: RemovalView::Done(Ok(())), ..unmounting })
        } else {
            let (volume, next) = unmounting.advanced(self.volumes[unmounting.name], reply);
            (self.with(unmounting.name, volume), next)
        }
    }

    /// An unmount is given up: it does not hold its volume any longer.
    pub open spec fn unmount_abandoned(self, unmounting: UnmountingView) -> PluginView {
        if unmounting.removal is Done {
            self
        } else {
            self.freed(unmounting.name)
        }
    }

    /// A volume on which no operation is under way is taken out, and the
    /// removal of its directory begins.
    pub open spec fn remove_begun(self, name: Seq<char>) -> (PluginView, RemovalView) {
        if self.has(name) {
            (
                PluginView { volumes: self.volumes.remove(name), ..self },
                RemovalView::started(self.volumes[name].occupied(self.base_path, name)),
            )
        } else {
            (self, RemovalView::Done(Ok(())))
        }
    }

    /// A removal begins, unless an operation is under way on the volume.
    pub open spec fn remove_started(self, name: Seq<char>) -> (PluginView, Option<RemovalView>) {
        if self.held(name) {
            (self, None)
        } else {
            (self.remove_begun(name).0, Some(self.remove_begun(name).1))
        }
    }
}

} // verus!

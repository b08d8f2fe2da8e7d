//! The driver: its volumes, and what it does with them.
//!
//! What needs the file system or git is not done here. `mount`, `unmount` and
//! `remove` say what they wait for, and go on when they are told what became
//! of it.
//! As long as a mount or an unmount waits, no other operation begins on its
//! volume.

use crate::driver::{listing, ItemVolume, VolumeInfo};
use crate::effect::Reply;
use crate::error::{non_exists, Error};
use crate::laws::{
    law_freeing_keeps_valid, law_mount_resume_keeps_valid, law_mount_start_keeps_valid,
    law_remove_keeps_valid, law_unmount_resume_keeps_valid, law_unmount_start_keeps_valid,
    lemma_same_volume_again,
};
use crate::mounting::{mounting_of, MountStage, Mounting};
use crate::removal::{remove_dir_if_exists, removal_of, Removal};
use crate::repo::RawRepo;
use crate::state::PluginView;
use crate::text::{copy_text, text_of};
use crate::unmounting::{unmounting_of, Unmounting};
use crate::volume::{directory_of, VolumeStatus};
use crate::volumes::{options_of, with_created, Volumes, VolumesError};
use vstd::prelude::*;

verus! {

/// What the driver has to say about a volume.
#[derive(Debug, Clone, Copy, PartialEq, Eq, Structural)]
pub struct Status {
    /// How far the volume has come.
    pub status: VolumeStatus,
}

impl From<VolumeStatus> for Status {
    fn from(status: VolumeStatus) -> (res: Self) {
        Status { status }
    }
}

impl vstd::std_specs::convert::FromSpecImpl<VolumeStatus> for Status {
    open spec fn obeys_from_spec() -> bool {
        true
    }

    open spec fn from_spec(status: VolumeStatus) -> Self {
        Status { status }
    }
}

/// The driver.
pub struct Plugin {
    base_path: String,
    volumes: Volumes,
}

impl View for Plugin {
    type V = PluginView;

    closed spec fn view(&self) -> PluginView {
        PluginView { base_path: self.base_path@, volumes: self.volumes@ }
    }
}

impl Plugin {
    /// The store is in order, and the state is valid.
    pub closed spec fn wf(&self) -> bool {
        self.volumes.wf() && self@.valid()
    }

    /// What a driver in order promises of its state.
    pub proof fn lemma_wf(&self)
        requires
            self.wf(),
        ensures
            self@.valid(),
    {
    }

    /// A driver without volumes, which keeps their directories in `base_path`.
    pub fn new(base_path: &str) -> (res: Plugin)
        ensures
            res.wf(),
            res@ == (PluginView { base_path: base_path@, volumes: Map::empty() }),
    {
        Plugin { base_path: base_path.to_owned(), volumes: Volumes::new() }
    }

    /// Where the volume `name` is mounted; nowhere if there is no such volume.
    pub fn path(&self, name: &str) -> (res: Result<Option<String>, Error>)
        requires
            self.wf(),
        ensures
            res matches Ok(path) && text_of(path) == (if self@.has(name@) {
                self@.volumes[name@].path
            } else {
                None
            }),
    {
        let Some(volume) = self.volumes.read(name) else {
            return Ok(None);
        };
        Ok(copy_text(&volume.path))
    }

    /// What is known of the volume `name`.
    pub fn get(&self, name: &str) -> (res: Result<VolumeInfo<Status>, Error>)
        requires
            self.wf(),
        ensures
            match res {
                Ok(info) => {
                    &&& self@.has(name@)
                    &&& text_of(info.mountpoint) == self@.volumes[name@].path
                    &&& info.status.status == self@.volumes[name@].status
                },
                Err(error) => !self@.has(name@) && error@ == non_exists(name@),
            },
    {
        match self.volumes.try_read(name) {
            Ok(volume) => Ok(
                VolumeInfo {
                    mountpoint: copy_text(&volume.path),
                    status: Status { status: volume.status },
                },
            ),
            Err(error) => Err(Error::from(error)),
        }
    }

    /// How many containers hold the volume `name`; none if there is no such
    /// volume.
    pub fn container_count(&self, name: &str) -> (res: usize)
        requires
            self.wf(),
        ensures
            res == (if self@.has(name@) {
                self@.volumes[name@].containers.len()
            } else {
                0
            }),
    {
        match self.volumes.read(name) {
            Some(volume) => volume.containers.len(),
            None => 0,
        }
    }

    /// All volumes, each once, in no order that counts.
    pub fn list(&self) -> (res: Result<Vec<ItemVolume>, Error>)
        requires
            self.wf(),
        ensures
            res matches Ok(items) && listing(items@, self@.volumes),
    {
        let volumes = self.volumes.read_all();
        let mut items: Vec<ItemVolume> = Vec::new();
        let mut i: usize = 0;
        while i < volumes.len()
            invariant
                i <= volumes@.len(),
                items@.len() == i,
                forall|j: int|
                    0 <= j < i ==> {
                        &&& (#[trigger] items@[j]).name@ == volumes@[j].name@
                        &&& text_of(items@[j].mountpoint) == volumes@[j]@.path
                    },
            decreases volumes@.len() - i,
        {
            items.push(
                ItemVolume {
                    name: volumes[i].name.clone(),
                    mountpoint: copy_text(&volumes[i].path),
                },
            );
            i += 1;
        }
        proof {
            assert forall|name: Seq<char>| #[trigger] self@.volumes.contains_key(name) implies exists|
                j: int,
            | 0 <= j < items@.len() && (#[trigger] items@[j]).name@ == name by {
                let j = choose|j: int|
                    0 <= j < volumes@.len() && (#[trigger] volumes@[j]).name@ == name;
                assert(items@[j].name@ == name);
            }
        }
        Ok(items)
    }

    /// Creates the volume `name`.
    pub fn create(&mut self, name: &str, opts: Option<RawRepo>) -> (res: Result<(), Error>)
        requires
            old(self).wf(),
        ensures
            final(self).wf(),
            match with_created(old(self)@.volumes, name@, options_of(opts)) {
                Ok(volumes) => res is Ok && final(self)@ == (PluginView { volumes, ..old(self)@ }),
                Err(error) => {
                    &&& res matches Err(Error::Volumes(e)) && e@ == error
                    &&& final(self)@ == old(self)@
                },
            },
    {
        match self.volumes.create(name, opts) {
            Ok(()) => Ok(()),
            Err(error) => Err(Error::from(error)),
        }
    }

    /// Whether an operation is under way on the volume `name`.
    pub fn is_busy(&self, name: &str) -> (res: bool)
        requires
            self.wf(),
        ensures
            res == self@.held(name@),
    {
        match self.volumes.read(name) {
            Some(volume) => volume.busy,
            None => false,
        }
    }

    /// Removes the volume `name`, and its directory with it: also one that a
    /// mount which came to nothing has left behind.
    ///
    /// As long as another operation is under way on the volume nothing happens,
    /// and nothing comes back: the removal has to be begun again later. Once it
    /// is begun the volume is gone and its name is free. What comes back is the
    /// removal of its directory, which holds nothing: a mount of a volume that
    /// was created anew under that name may find the directory as it goes.
    pub fn remove(&mut self, name: &str) -> (res: Option<Removal>)
        requires
            old(self).wf(),
        ensures
            final(self).wf(),
            final(self)@ == old(self)@.remove_started(name@).0,
            removal_of(res) == old(self)@.remove_started(name@).1,
    {
        proof {
            law_remove_keeps_valid(self@, name@);
            if !self@.has(name@) {
                assert(self@.volumes.remove(name@) =~= self@.volumes);
            }
        }
        if self.is_busy(name) {
            return None;
        }
        match self.volumes.remove(name) {
            Some(volume) => Some(
                remove_dir_if_exists(volume.occupied_path(self.base_path.as_str())),
            ),
            None => Some(Removal::Done(Ok(()))),
        }
    }

    /// Begins to mount the volume `name` for the container `id`.
    ///
    /// As long as another operation is under way on the volume nothing happens,
    /// and nothing comes back: the mount has to be begun again later. A mount
    /// that waits for an effect holds the volume. It is either taken to its end
    /// with `resume_mount` or given up with `abandon_mount`.
    pub fn mount(&mut self, name: &str, id: &str) -> (res: Option<Mounting>)
        requires
            old(self).wf(),
        ensures
            final(self).wf(),
            final(self)@ == old(self)@.mount_started(name@, id@).0,
            mounting_of(res) == old(self)@.mount_started(name@, id@).1,
    {
        proof {
            law_mount_start_keeps_valid(self@, name@, id@);
        }
        if self.is_busy(name) {
            return None;
        }
        let stage = match self.volumes.try_write(name) {
            Ok(volume) => match copy_text(&volume.path) {
                Some(path) => if volume.repo.refetch {
                    volume.busy = true;
                    MountStage::Refetching { path }
                } else {
                    volume.attach(id);
                    MountStage::Done(Ok(path))
                },
                None => {
                    volume.leftovers = true;
                    volume.busy = true;
                    MountStage::Probing {
                        path: directory_of(self.base_path.as_str(), name),
                        repo: volume.repo.clone(),
                    }
                },
            },
            Err(error) => MountStage::Done(Err(Error::from(error))),
        };
        Some(Mounting { name: name.to_owned(), id: id.to_owned(), stage })
    }

    /// Goes on with a mount, now that it is known what became of its effect.
    pub fn resume_mount(&mut self, mounting: Mounting, reply: Reply) -> (res: Mounting)
        requires
            old(self).wf(),
        ensures
            final(self).wf(),
            (final(self)@, res@) == old(self)@.mount_resumed(mounting@, reply@),
    {
        proof {
            law_mount_resume_keeps_valid(self@, mounting@, reply@);
            lemma_same_volume_again(self@, mounting@.name);
        }
        let Mounting { name, id, stage } = mounting;
        let stage = match stage {
            MountStage::Done(outcome) => MountStage::Done(outcome),
            pending => match self.volumes.write(name.as_str()) {
                Some(volume) if volume.busy => pending.advance(
                    volume,
                    self.base_path.as_str(),
                    id.as_str(),
                    reply,
                ),
                _ => MountStage::Done(Err(Error::from(VolumesError::NonExists(name.clone())))),
            },
        };
        Mounting { name, id, stage }
    }

    /// Lets go of the volume `name`.
    fn free(&mut self, name: &str)
        requires
            old(self).wf(),
        ensures
            final(self).wf(),
            final(self)@ == old(self)@.freed(name@),
    {
        proof {
            law_freeing_keeps_valid(self@, name@);
        }
        if let Some(volume) = self.volumes.write(name) {
            volume.busy = false;
        }
    }

    /// Gives a mount up: it does not hold its volume any longer, and whatever
    /// it has left in the directory is deleted with the volume, or by the next
    /// mount.
    pub fn abandon_mount(&mut self, mounting: Mounting)
        requires
            old(self).wf(),
        ensures
            final(self).wf(),
            final(self)@ == old(self)@.mount_abandoned(mounting@),
    {
        match mounting.stage {
            MountStage::Done(_) => {},
            _ => self.free(mounting.name.as_str()),
        }
    }

    /// Begins to unmount the volume `name` from the container `id`.
    ///
    /// As long as another operation is under way on the volume nothing happens,
    /// and nothing comes back: the unmount has to be begun again later. An
    /// unmount that waits for an effect holds the volume. It is either taken to
    /// its end with `resume_unmount` or given up with `abandon_unmount`.
    pub fn unmount(&mut self, name: &str, id: &str) -> (res: Option<Unmounting>)
        requires
            old(self).wf(),
        ensures
            final(self).wf(),
            final(self)@ == old(self)@.unmount_started(name@, id@).0,
            unmounting_of(res) == old(self)@.unmount_started(name@, id@).1,
    {
        proof {
            law_unmount_start_keeps_valid(self@, name@, id@);
        }
        if self.is_busy(name) {
            return None;
        }
        let removal = match self.volumes.write(name) {
            Some(volume) => {
                volume.detach(id);
                if volume.containers.is_empty() {
                    volume.status = VolumeStatus::Cleared;
                    let path = volume.occupied_path(self.base_path.as_str());
                    volume.busy = path.is_some();
                    remove_dir_if_exists(path)
                } else {
                    Removal::Done(Ok(()))
                }
            },
            None => Removal::Done(Ok(())),
        };
        Some(Unmounting { name: name.to_owned(), removal })
    }

    /// Goes on with an unmount, now that it is known what became of its
    /// effect.
    pub fn resume_unmount(&mut self, unmounting: Unmounting, reply: Reply) -> (res: Unmounting)
        requires
            old(self).wf(),
        ensures
            final(self).wf(),
            (final(self)@, res@) == old(self)@.unmount_resumed(unmounting@, reply@),
    {
        proof {
            law_unmount_resume_keeps_valid(self@, unmounting@, reply@);
            lemma_same_volume_again(self@, unmounting@.name);
        }
        match &unmounting.removal {
            Removal::Done(_) => unmounting,
            _ => match self.volumes.write(unmounting.name.as_str()) {
                Some(volume) if volume.busy => unmounting.advance(volume, reply),
                _ => Unmounting { name: unmounting.name, removal: Removal::Done(Ok(())) },
            },
        }
    }

    /// Gives an unmount up: it does not hold its volume any longer. The
    /// container has left it, and its directory is kept.
    pub fn abandon_unmount(&mut self, unmounting: Unmounting)
        requires
            old(self).wf(),
        ensures
            final(self).wf(),
            final(self)@ == old(self)@.unmount_abandoned(unmounting@),
    {
        match unmounting.removal {
            Removal::Done(_) => {},
            _ => self.free(unmounting.name.as_str()),
        }
    }
}

} // verus!

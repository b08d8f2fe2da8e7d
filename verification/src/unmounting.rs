//! An unmount under way.

use crate::effect::{effect_of, Effect, Reply, ReplyView};
use crate::error::{done_of, Error};
use crate::removal::{Removal, RemovalView};
use crate::volume::{Volume, VolumeView};
use vstd::prelude::*;

verus! {

/// An unmount of the volume `name`.
#[derive(Debug)]
pub struct Unmounting {
    /// The volume.
    pub name: String,
    /// How far the removal of its directory has come.
    pub removal: Removal,
}

/// An `Unmounting` with its text.
pub struct UnmountingView {
    pub name: Seq<char>,
    pub removal: RemovalView,
}

impl View for Unmounting {
    type V = UnmountingView;

    open spec fn view(&self) -> UnmountingView {
        UnmountingView { name: self.name@, removal: self.removal@ }
    }
}

/// The `Unmounting`, if there is one, with its text.
pub open spec fn unmounting_of(unmounting: Option<Unmounting>) -> Option<UnmountingView> {
    match unmounting {
        Some(unmounting) => Some(unmounting@),
        None => None,
    }
}

impl UnmountingView {
    /// What a reply does to an unmount and to the volume that it holds. The
    /// unmount lets go of the volume as soon as nothing is left to be done. A
    /// directory that is gone is taken from the volume, unless a container is
    /// on it.
    pub open spec fn advanced(self, volume: VolumeView, reply: ReplyView) -> (
        VolumeView,
        UnmountingView,
    ) {
        let removal = self.removal.resumed(reply);
        let volume = match removal {
            RemovalView::Done(Ok(_)) if volume.containers == Set::<Seq<char>>::empty() => volume.at(
                None,
            ).held(false),
            RemovalView::Done(_) => volume.held(false),
            _ => volume,
        };
        (volume, UnmountingView { removal, ..self })
    }
}

impl Unmounting {
    /// Goes on with an unmount, now that it is known what became of its
    /// effect.
    pub fn advance(self, volume: &mut Volume, reply: Reply) -> (res: Unmounting)
        ensures
            final(volume).name == old(volume).name,
            (final(volume)@, res@) == self@.advanced(old(volume)@, reply@),
    {
        let removal = self.removal.resume(reply);
        if let Removal::Done(outcome) = &removal {
            if outcome.is_ok() && volume.containers.is_empty() {
                volume.vacate();
            }
            volume.busy = false;
        }
        Unmounting { name: self.name, removal }
    }

    /// What is to be done before the unmount can go on; nothing once it is
    /// done.
    pub fn effect(&self) -> (res: Option<Effect>)
        ensures
            effect_of(res) == self@.removal.effect(),
    {
        self.removal.effect()
    }

    /// How the unmount ended, once it has.
    pub fn into_result(self) -> (res: Option<Result<(), Error>>)
        ensures
            match res {
                Some(outcome) => self@.removal == RemovalView::Done(done_of(outcome)),
                None => !(self@.removal is Done),
            },
    {
        self.removal.into_result()
    }
}

} // verus!

//! A mount under way.

use crate::effect::{effect_of, Effect, EffectView, Reply, ReplyView};
use crate::error::{non_exists, path_of, Error, ErrorView};
use crate::repo::{Repo, RepoView};
use crate::text::copy_text;
use crate::volume::{directory, Volume, VolumeStatus, VolumeView};
use crate::volumes::VolumesError;
use vstd::prelude::*;

verus! {

/// How far a mount has come.
#[derive(Debug)]
pub enum MountStage {
    /// The clone at `path` is there; changes have to be fetched into it.
    Refetching { path: String },
    /// It is not known yet whether there is anything at `path`.
    Probing { path: String, repo: Repo },
    /// There is, and it has to go before `repo` is cloned.
    Clearing { path: String, repo: Repo },
    /// `repo` has to be cloned into `path`.
    Cloning { path: String, repo: Repo },
    /// Nothing is left to be done.
    Done(Result<String, Error>),
}

/// A mount of the volume `name` for the container `id`.
#[derive(Debug)]
pub struct Mounting {
    /// The volume.
    pub name: String,
    /// The container.
    pub id: String,
    /// How far the mount has come.
    pub stage: MountStage,
}

/// A `MountStage` with its text.
pub enum MountStageView {
    Refetching { path: Seq<char> },
    Probing { path: Seq<char>, repo: RepoView },
    Clearing { path: Seq<char>, repo: RepoView },
    Cloning { path: Seq<char>, repo: RepoView },
    Done(Result<Seq<char>, ErrorView>),
}

/// A `Mounting` with its text.
pub struct MountingView {
    pub name: Seq<char>,
    pub id: Seq<char>,
    pub stage: MountStageView,
}

impl View for MountStage {
    type V = MountStageView;

    open spec fn view(&self) -> MountStageView {
        match self {
            MountStage::Refetching { path } => MountStageView::Refetching { path: path@ },
            MountStage::Probing { path, repo } => MountStageView::Probing {
                path: path@,
                repo: repo@,
            },
            MountStage::Clearing { path, repo } => MountStageView::Clearing {
                path: path@,
                repo: repo@,
            },
            MountStage::Cloning { path, repo } => MountStageView::Cloning {
                path: path@,
                repo: repo@,
            },
            MountStage::Done(outcome) => MountStageView::Done(path_of(*outcome)),
        }
    }
}

impl View for Mounting {
    type V = MountingView;

    open spec fn view(&self) -> MountingView {
        MountingView { name: self.name@, id: self.id@, stage: self.stage@ }
    }
}

/// The error of a mount that found its directory taken and could not free it.
pub open spec fn not_cleared(path: Seq<char>, kind: std::io::ErrorKind) -> ErrorView {
    ErrorView::RemoveDir { path, operation: "exists repository dir"@, kind }
}

/// The `Mounting`, if there is one, with its text.
pub open spec fn mounting_of(mounting: Option<Mounting>) -> Option<MountingView> {
    match mounting {
        Some(mounting) => Some(mounting@),
        None => None,
    }
}

impl MountStageView {
    /// What a reply does to a mount for the container `id` and to the volume
    /// `name` that it holds. The mount lets go of the volume as soon as nothing
    /// is left to be done.
    ///
    /// Only a clone that went well gives the volume its directory and makes it
    /// `Clonned`. Only a clone or a fetch that went well puts the container on
    /// it. A reply to another effect than the one the mount waits for changes
    /// nothing.
    pub open spec fn advanced(
        self,
        volume: VolumeView,
        base_path: Seq<char>,
        name: Seq<char>,
        id: Seq<char>,
        reply: ReplyView,
    ) -> (VolumeView, MountStageView) {
        let own = directory(base_path, name);
        match (self, reply) {
            (MountStageView::Refetching { .. }, ReplyView::Git(Ok(_))) => match volume.path {
                Some(path) => (
                    volume.attached(id).held(false),
                    MountStageView::Done(Ok(path)),
                ),
                None => (volume.held(false), MountStageView::Done(Err(non_exists(name)))),
            },
            (MountStageView::Refetching { .. }, ReplyView::Git(Err(error))) => (
                volume.held(false),
                MountStageView::Done(Err(ErrorView::Git(error))),
            ),
            (MountStageView::Probing { path, repo }, ReplyView::Exists(exists)) => (
                volume,
                if exists {
                    MountStageView::Clearing { path, repo }
                } else {
                    MountStageView::Cloning { path, repo }
                },
            ),
            (MountStageView::Clearing { path, repo }, ReplyView::Removed(Ok(_))) => (
                volume,
                MountStageView::Cloning { path, repo },
            ),
            (MountStageView::Clearing { path, .. }, ReplyView::Removed(Err(kind))) => (
                volume.held(false),
                MountStageView::Done(Err(not_cleared(path, kind))),
            ),
            (MountStageView::Cloning { .. }, ReplyView::Git(Ok(_))) => (
                volume.at(Some(own)).attached(id).in_status(VolumeStatus::Clonned).held(false),
                MountStageView::Done(Ok(own)),
            ),
            (MountStageView::Cloning { .. }, ReplyView::Git(Err(error))) => (
                volume.held(false),
                MountStageView::Done(Err(ErrorView::Git(error))),
            ),
            (stage, _) => (volume, stage),
        }
    }
}

impl MountingView {
    /// What the mount waits for.
    pub open spec fn effect(self) -> Option<EffectView> {
        match self.stage {
            MountStageView::Refetching { path } => Some(EffectView::Refetch { path }),
            MountStageView::Probing { path, .. } => Some(EffectView::Exists { path }),
            MountStageView::Clearing { path, .. } => Some(EffectView::RemoveDirAll { path }),
            MountStageView::Cloning { path, repo } => Some(EffectView::Clone { path, repo }),
            MountStageView::Done(_) => None,
        }
    }

    /// The mount at another stage.
    pub open spec fn at(self, stage: MountStageView) -> MountingView {
        MountingView { stage, ..self }
    }
}

impl MountStage {
    /// Goes on with a mount for the container `id`, now that it is known what
    /// became of its effect.
    pub fn advance(self, volume: &mut Volume, base_path: &str, id: &str, reply: Reply) -> (res:
        MountStage)
        ensures
            final(volume).name == old(volume).name,
            (final(volume)@, res@) == self@.advanced(
                old(volume)@,
                base_path@,
                old(volume).name@,
                id@,
                reply@,
            ),
    {
        let stage = match (self, reply) {
            (MountStage::Refetching { .. }, Reply::Git(Ok(()))) => match copy_text(&volume.path) {
                Some(path) => {
                    volume.attach(id);
                    MountStage::Done(Ok(path))
                },
                None => MountStage::Done(
                    Err(Error::from(VolumesError::NonExists(volume.name.clone()))),
                ),
            },
            (MountStage::Probing { path, repo }, Reply::Exists(exists)) => {
                return if exists {
                    MountStage::Clearing { path, repo }
                } else {
                    MountStage::Cloning { path, repo }
                };
            },
            (MountStage::Clearing { path, repo }, Reply::Removed(outcome)) => match outcome {
                Ok(()) => {
                    return MountStage::Cloning { path, repo };
                },
                Err(kind) => MountStage::Done(
                    Err(
                        Error::RemoveDir {
                            path,
                            operation: "exists repository dir".to_owned(),
                            kind,
                        },
                    ),
                ),
            },
            (MountStage::Cloning { .. }, Reply::Git(Ok(()))) => {
                let path = volume.create_path_from(base_path);
                volume.attach(id);
                volume.status = VolumeStatus::Clonned;
                MountStage::Done(Ok(path))
            },
            (MountStage::Refetching { .. }, Reply::Git(Err(error))) => MountStage::Done(
                Err(Error::from(error)),
            ),
            (MountStage::Cloning { .. }, Reply::Git(Err(error))) => MountStage::Done(
                Err(Error::from(error)),
            ),
            (stage, _) => {
                return stage;
            },
        };
        volume.busy = false;
        stage
    }
}

impl Mounting {
    /// What is to be done before the mount can go on; nothing once it is done.
    pub fn effect(&self) -> (res: Option<Effect>)
        ensures
            effect_of(res) == self@.effect(),
    {
        match &self.stage {
            MountStage::Refetching { path } => Some(Effect::Refetch { path: path.clone() }),
            MountStage::Probing { path, .. } => Some(Effect::Exists { path: path.clone() }),
            MountStage::Clearing { path, .. } => Some(Effect::RemoveDirAll { path: path.clone() }),
            MountStage::Cloning { path, repo } => Some(
                Effect::Clone { path: path.clone(), repo: repo.clone() },
            ),
            MountStage::Done(_) => None,
        }
    }

    /// How the mount ended, once it has.
    pub fn into_result(self) -> (res: Option<Result<String, Error>>)
        ensures
            match res {
                Some(outcome) => self@.stage == MountStageView::Done(path_of(outcome)),
                None => !(self@.stage is Done),
            },
    {
        match self.stage {
            MountStage::Done(outcome) => Some(outcome),
            _ => None,
        }
    }
}

} // verus!

//! What an operation asks of the world outside before it can go on, and what
//! it is told.

use crate::error::GitError;
use crate::repo::{Repo, RepoView};
use std::io::ErrorKind;
use vstd::prelude::*;

verus! {

/// Something to be done, or found out, outside.
#[derive(Debug)]
pub enum Effect {
    /// Find out whether there is anything at `path`.
    Exists { path: String },
    /// Delete the directory at `path` and all that is in it.
    RemoveDirAll { path: String },
    /// Clone `repo` into `path`.
    Clone { path: String, repo: Repo },
    /// Fetch what has changed in the clone at `path`.
    Refetch { path: String },
}

/// An `Effect` with its text.
pub enum EffectView {
    Exists { path: Seq<char> },
    RemoveDirAll { path: Seq<char> },
    Clone { path: Seq<char>, repo: RepoView },
    Refetch { path: Seq<char> },
}

impl View for Effect {
    type V = EffectView;

    open spec fn view(&self) -> EffectView {
        match self {
            Effect::Exists { path } => EffectView::Exists { path: path@ },
            Effect::RemoveDirAll { path } => EffectView::RemoveDirAll { path: path@ },
            Effect::Clone { path, repo } => EffectView::Clone { path: path@, repo: repo@ },
            Effect::Refetch { path } => EffectView::Refetch { path: path@ },
        }
    }
}

/// The effect, where there is one.
pub open spec fn effect_of(effect: Option<Effect>) -> Option<EffectView> {
    match effect {
        Some(effect) => Some(effect@),
        None => None,
    }
}

impl EffectView {
    /// The path that the effect is about.
    pub open spec fn path(self) -> Seq<char> {
        match self {
            EffectView::Exists { path } => path,
            EffectView::RemoveDirAll { path } => path,
            EffectView::Clone { path, .. } => path,
            EffectView::Refetch { path } => path,
        }
    }
}

/// What became of an effect.
#[derive(Debug)]
pub enum Reply {
    /// Whether there is anything at the path of an `Exists`.
    Exists(bool),
    /// How a `RemoveDirAll` went.
    Removed(Result<(), ErrorKind>),
    /// How a `Clone` or a `Refetch` went.
    Git(Result<(), GitError>),
}

/// A `Reply` with its text.
pub enum ReplyView {
    Exists(bool),
    Removed(Result<(), ErrorKind>),
    Git(Result<(), Seq<char>>),
}

impl View for Reply {
    type V = ReplyView;

    open spec fn view(&self) -> ReplyView {
        match self {
            Reply::Exists(exists) => ReplyView::Exists(*exists),
            Reply::Removed(outcome) => ReplyView::Removed(*outcome),
            Reply::Git(Ok(())) => ReplyView::Git(Ok(())),
            Reply::Git(Err(error)) => ReplyView::Git(Err(error@)),
        }
    }
}

} // verus!

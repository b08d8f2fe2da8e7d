//! Deleting a directory that may not be there.

use crate::effect::{effect_of, Effect, EffectView, Reply, ReplyView};
use crate::error::{done_of, Error, ErrorView};
use crate::text::text_of;
use vstd::prelude::*;

verus! {

/// How far the removal of a directory has come.
#[derive(Debug)]
pub enum Removal {
    /// It is not known yet whether there is anything at `path`.
    Probing { path: String },
    /// There is, and it has to go.
    Deleting { path: String },
    /// Nothing is left to be done.
    Done(Result<(), Error>),
}

/// A `Removal` with its text.
pub enum RemovalView {
    Probing { path: Seq<char> },
    Deleting { path: Seq<char> },
    Done(Result<(), ErrorView>),
}

impl View for Removal {
    type V = RemovalView;

    open spec fn view(&self) -> RemovalView {
        match self {
            Removal::Probing { path } => RemovalView::Probing { path: path@ },
            Removal::Deleting { path } => RemovalView::Deleting { path: path@ },
            Removal::Done(outcome) => RemovalView::Done(done_of(*outcome)),
        }
    }
}

/// The `Removal`, if there is one, with its text.
pub open spec fn removal_of(removal: Option<Removal>) -> Option<RemovalView> {
    match removal {
        Some(removal) => Some(removal@),
        None => None,
    }
}

/// The error of a removal that failed.
pub open spec fn not_removed(path: Seq<char>, kind: std::io::ErrorKind) -> ErrorView {
    ErrorView::RemoveDir { path, operation: "remove dir if exists"@, kind }
}

impl RemovalView {
    /// The removal of the directory at `path`: without a path there is nothing
    /// to be done.
    pub open spec fn started(path: Option<Seq<char>>) -> RemovalView {
        match path {
            Some(path) => RemovalView::Probing { path },
            None => RemovalView::Done(Ok(())),
        }
    }

    /// What the removal waits for.
    pub open spec fn effect(self) -> Option<EffectView> {
        match self {
            RemovalView::Probing { path } => Some(EffectView::Exists { path }),
            RemovalView::Deleting { path } => Some(EffectView::RemoveDirAll { path }),
            RemovalView::Done(_) => None,
        }
    }

    /// The removal after a reply. One that answers another effect than the
    /// one it waits for changes nothing.
    pub open spec fn resumed(self, reply: ReplyView) -> RemovalView {
        match (self, reply) {
            (RemovalView::Probing { path }, ReplyView::Exists(exists)) => if exists {
                RemovalView::Deleting { path }
            } else {
                RemovalView::Done(Ok(()))
            },
            (RemovalView::Deleting { path }, ReplyView::Removed(Ok(_))) => RemovalView::Done(
                Ok(()),
            ),
            (RemovalView::Deleting { path }, ReplyView::Removed(Err(kind))) => RemovalView::Done(
                Err(not_removed(path, kind)),
            ),
            _ => self,
        }
    }
}

/// Begins to delete the directory at `path`, if there is a path and anything
/// at it.
pub fn remove_dir_if_exists(path: Option<String>) -> (res: Removal)
    ensures
        res@ == RemovalView::started(text_of(path)),
{
    match path {
        Some(path) => Removal::Probing { path },
        None => Removal::Done(Ok(())),
    }
}

impl Removal {
    /// What is to be done before the removal can go on; nothing once it is
    /// done.
    pub fn effect(&self) -> (res: Option<Effect>)
        ensures
            effect_of(res) == self@.effect(),
    {
        match self {
            Removal::Probing { path } => Some(Effect::Exists { path: path.clone() }),
            Removal::Deleting { path } => Some(Effect::RemoveDirAll { path: path.clone() }),
            Removal::Done(_) => None,
        }
    }

    /// Goes on with what became of the effect.
    pub fn resume(self, reply: Reply) -> (res: Removal)
        ensures
            res@ == self@.resumed(reply@),
    {
        match (self, reply) {
            (Removal::Probing { path }, Reply::Exists(exists)) => if exists {
                Removal::Deleting { path }
            } else {
                Removal::Done(Ok(()))
            },
            (Removal::Deleting { path }, Reply::Removed(outcome)) => match outcome {
                Ok(()) => Removal::Done(Ok(())),
                Err(kind) => Removal::Done(
                    Err(
                        Error::RemoveDir {
                            path,
                            operation: "remove dir if exists".to_owned(),
                            kind,
                        },
                    ),
                ),
            },
            (removal, _) => removal,
        }
    }

    /// How the removal ended, once it has.
    pub fn into_result(self) -> (res: Option<Result<(), Error>>)
        ensures
            match res {
                Some(outcome) => self@ == RemovalView::Done(done_of(outcome)),
                None => !(self@ is Done),
            },
    {
        match self {
            Removal::Done(outcome) => Some(outcome),
            _ => None,
        }
    }
}

} // verus!

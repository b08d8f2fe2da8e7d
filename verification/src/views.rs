//! What the views keep of the values they stand for: everything that is text,
//! and nothing else than that.

use crate::driver::{listing, ItemVolume};
use crate::effect::{effect_of, Effect, EffectView, Reply, ReplyView};
use crate::error::{done_of, non_exists, path_of, Error, ErrorView, GitError};
use crate::mounting::{mounting_of, MountStage, MountStageView, Mounting, MountingView};
use crate::plugin::Status;
use crate::removal::{removal_of, Removal, RemovalView};
use crate::repo::{no_options, RawRepo, RawRepoView, Repo, RepoError, RepoErrorView, RepoView};
use crate::state::PluginView;
use crate::text::text_of;
use crate::unmounting::{unmounting_of, Unmounting, UnmountingView};
use crate::volume::{Volume, VolumeStatus, VolumeView};
use crate::volumes::{complete, options_of, VolumeMap, VolumesError, VolumesErrorView};
use vstd::prelude::*;
use vstd::std_specs::convert::FromSpec;

verus! {

/// An optional string is seen exactly if it is there, as it is.
pub proof fn law_text_is_kept(text: String)
    ensures
        text_of(Some(text)) == Some(text@),
        text_of(None) is None,
{
}

/// Options are seen as they are, given or checked, and so is their absence.
pub proof fn law_options_are_kept(raw: RawRepo, repo: Repo)
    ensures
        raw@ == (RawRepoView {
            url: text_of(raw.url),
            branch: text_of(raw.branch),
            tag: text_of(raw.tag),
            refetch: text_of(raw.refetch),
        }),
        options_of(Some(raw)) == raw@,
        no_options() == (RawRepoView { url: None, branch: None, tag: None, refetch: None }),
        options_of(None) == (RawRepoView { url: None, branch: None, tag: None, refetch: None }),
        repo@ == (RepoView {
            url: repo.url@,
            branch: text_of(repo.branch),
            tag: text_of(repo.tag),
            refetch: repo.refetch,
        }),
{
}

/// A volume is seen with its directory, its options, its containers and how far
/// it has come.
pub proof fn law_volume_is_kept(volume: Volume)
    ensures
        volume@ == (VolumeView {
            path: text_of(volume.path),
            repo: volume.repo@,
            containers: volume.containers@,
            status: volume.status,
            leftovers: volume.leftovers,
            busy: volume.busy,
        }),
{
}

/// What is to be done is seen as it is: the kind of it, the path, and the
/// repository to clone.
pub proof fn law_effect_is_kept(
    path: String,
    repo: Repo,
    effect: Effect,
    at: Seq<char>,
    planned: RepoView,
)
    ensures
        (Effect::Exists { path })@ == (EffectView::Exists { path: path@ }),
        (Effect::RemoveDirAll { path })@ == (EffectView::RemoveDirAll { path: path@ }),
        (Effect::Clone { path, repo })@ == (EffectView::Clone { path: path@, repo: repo@ }),
        (Effect::Refetch { path })@ == (EffectView::Refetch { path: path@ }),
        effect_of(Some(effect)) == Some(effect@),
        effect_of(None) is None,
        (EffectView::Exists { path: at }).path() == at,
        (EffectView::RemoveDirAll { path: at }).path() == at,
        (EffectView::Clone { path: at, repo: planned }).path() == at,
        (EffectView::Refetch { path: at }).path() == at,
{
}

/// What became of it is seen as it is: what failed is never seen as something
/// that went well, nor the other way round.
pub proof fn law_reply_is_kept(
    exists: bool,
    outcome: Result<(), std::io::ErrorKind>,
    error: GitError,
)
    ensures
        Reply::Exists(exists)@ == ReplyView::Exists(exists),
        Reply::Removed(outcome)@ == ReplyView::Removed(outcome),
        Reply::Git(Ok(()))@ == ReplyView::Git(Ok(())),
        Reply::Git(Err(error))@ == ReplyView::Git(Err(error.message@)),
{
}

/// An error is seen as it is: the kind of it, and all that it says.
pub proof fn law_error_is_kept(
    text: String,
    operation: String,
    kind: std::io::ErrorKind,
    refused: RepoError,
    error: VolumesError,
    failure: GitError,
)
    ensures
        RepoError::MissingUrl@ == RepoErrorView::MissingUrl,
        RepoError::UnsupportedUrl(text)@ == RepoErrorView::UnsupportedUrl(text@),
        RepoError::BranchAndTag@ == RepoErrorView::BranchAndTag,
        VolumesError::NonExists(text)@ == VolumesErrorView::NonExists(text@),
        VolumesError::AlreadyExists(text)@ == VolumesErrorView::AlreadyExists(text@),
        VolumesError::EmptyName@ == VolumesErrorView::EmptyName,
        VolumesError::Repo(refused)@ == VolumesErrorView::Repo(refused@),
        Error::Volumes(error)@ == ErrorView::Volumes(error@),
        Error::Git(failure)@ == ErrorView::Git(failure.message@),
        (Error::RemoveDir { path: text, operation, kind })@ == (ErrorView::RemoveDir {
            path: text@,
            operation: operation@,
            kind,
        }),
{
}

/// An error of the store or of git becomes the error of the driver that holds
/// it, and a status becomes what the driver says of it.
pub proof fn law_conversions(error: VolumesError, failure: GitError, status: VolumeStatus)
    ensures
        <Error as FromSpec<VolumesError>>::obeys_from_spec(),
        <Error as FromSpec<VolumesError>>::from_spec(error) == Error::Volumes(error),
        <Error as FromSpec<GitError>>::obeys_from_spec(),
        <Error as FromSpec<GitError>>::from_spec(failure) == Error::Git(failure),
        <Status as FromSpec<VolumeStatus>>::obeys_from_spec(),
        <Status as FromSpec<VolumeStatus>>::from_spec(status) == (Status { status }),
{
}

/// What an operation came to is seen as it is: success with the path it gives,
/// failure with its error.
pub proof fn law_outcome_is_kept(path: String, error: Error)
    ensures
        done_of(Ok(())) == Ok::<(), ErrorView>(()),
        done_of(Err(error)) == Err::<(), ErrorView>(error@),
        path_of(Ok(path)) == Ok::<Seq<char>, ErrorView>(path@),
        path_of(Err(error)) == Err::<Seq<char>, ErrorView>(error@),
{
}

/// An operation under way is seen as it is: its volume, its container, and how
/// far it has come.
pub proof fn law_operation_is_kept(
    path: String,
    repo: Repo,
    mounted: Result<String, Error>,
    done: Result<(), Error>,
    mounting: Mounting,
    unmounting: Unmounting,
    removal: Removal,
)
    ensures
        (MountStage::Refetching { path })@ == (MountStageView::Refetching { path: path@ }),
        (MountStage::Probing { path, repo })@ == (MountStageView::Probing {
            path: path@,
            repo: repo@,
        }),
        (MountStage::Clearing { path, repo })@ == (MountStageView::Clearing {
            path: path@,
            repo: repo@,
        }),
        (MountStage::Cloning { path, repo })@ == (MountStageView::Cloning {
            path: path@,
            repo: repo@,
        }),
        MountStage::Done(mounted)@ == MountStageView::Done(path_of(mounted)),
        mounting@ == (MountingView {
            name: mounting.name@,
            id: mounting.id@,
            stage: mounting.stage@,
        }),
        mounting_of(Some(mounting)) == Some(mounting@),
        mounting_of(None) is None,
        (Removal::Probing { path })@ == (RemovalView::Probing { path: path@ }),
        (Removal::Deleting { path })@ == (RemovalView::Deleting { path: path@ }),
        Removal::Done(done)@ == RemovalView::Done(done_of(done)),
        removal_of(Some(removal)) == Some(removal@),
        removal_of(None) is None,
        unmounting@ == (UnmountingView {
            name: unmounting.name@,
            removal: unmounting.removal@,
        }),
        unmounting_of(Some(unmounting)) == Some(unmounting@),
        unmounting_of(None) is None,
{
}

/// What is said of volumes by name: which are there and which are not, which
/// have a directory, and on which an operation is under way.
pub proof fn law_words_about_volumes(state: PluginView, name: Seq<char>)
    ensures
        non_exists(name) == ErrorView::Volumes(VolumesErrorView::NonExists(name)),
        state.has(name) <==> state.volumes.contains_key(name),
        state.placed(name) <==> state.volumes.contains_key(name) && state.volumes[name].path is Some,
        state.held(name) <==> state.volumes.contains_key(name) && state.volumes[name].busy,
{
}

/// A list names each volume once, with the directory it has, and nothing else.
pub proof fn law_list_is_true(items: Seq<ItemVolume>, volumes: VolumeMap)
    ensures
        listing(items, volumes) <==> {
            &&& forall|i: int|
                0 <= i < items.len() ==> volumes.contains_key((#[trigger] items[i]).name@)
            &&& forall|i: int|
                0 <= i < items.len() ==> match (#[trigger] items[i]).mountpoint {
                    Some(path) => volumes[items[i].name@].path == Some(path@),
                    None => volumes[items[i].name@].path is None,
                }
            &&& forall|i: int, j: int|
                0 <= i < j < items.len() ==> (#[trigger] items[i]).name@ != (
                #[trigger] items[j]).name@
            &&& forall|name: Seq<char>| #[trigger]
                volumes.contains_key(name) ==> exists|i: int|
                    0 <= i < items.len() && (#[trigger] items[i]).name@ == name
        },
{
}

/// The volumes that the store hands out are all it has, each once, as they are.
pub proof fn law_store_is_complete(items: Seq<Volume>, volumes: VolumeMap)
    ensures
        complete(items, volumes) <==> {
            &&& forall|i: int|
                0 <= i < items.len() ==> volumes.contains_key((#[trigger] items[i]).name@)
            &&& forall|i: int|
                0 <= i < items.len() ==> volumes[(#[trigger] items[i]).name@] == items[i]@
            &&& forall|i: int, j: int|
                0 <= i < j < items.len() ==> (#[trigger] items[i]).name@ != (
                #[trigger] items[j]).name@
            &&& forall|name: Seq<char>| #[trigger]
                volumes.contains_key(name) ==> exists|i: int|
                    0 <= i < items.len() && (#[trigger] items[i]).name@ == name
        },
{
}

} // verus!

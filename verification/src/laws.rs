//! What holds of the driver as a whole.

use crate::driver::{listing, ItemVolume};
use crate::effect::{EffectView, ReplyView};
use crate::error::{non_exists, ErrorView};
use crate::mounting::{MountStageView, MountingView};
use crate::outcome::{mount_outcome, remove_outcome, unmount_outcome, World};
use crate::removal::RemovalView;
use crate::repo::{checked, RawRepoView, RepoErrorView, RepoView};
use crate::state::PluginView;
use crate::text::blank;
use crate::unmounting::UnmountingView;
use crate::volume::{
    component, directory, entry_name, escape, escaped, prefix, VolumeStatus, VolumeView,
};
use crate::volumes::{with_created, VolumeMap, VolumesErrorView};
use vstd::prelude::*;

verus! {

/// `reply` is one to `effect`.
pub open spec fn answers(effect: Option<EffectView>, reply: ReplyView) -> bool {
    match effect {
        Some(EffectView::Exists { .. }) => reply is Exists,
        Some(EffectView::RemoveDirAll { .. }) => reply is Removed,
        Some(EffectView::Clone { .. }) => reply is Git,
        Some(EffectView::Refetch { .. }) => reply is Git,
        None => false,
    }
}

/// How many replies a mount can still wait for.
pub open spec fn mount_steps_left(stage: MountStageView) -> nat {
    match stage {
        MountStageView::Refetching { .. } => 1,
        MountStageView::Probing { .. } => 3,
        MountStageView::Clearing { .. } => 2,
        MountStageView::Cloning { .. } => 1,
        MountStageView::Done(_) => 0,
    }
}

/// How many replies a removal can still wait for.
pub open spec fn removal_steps_left(removal: RemovalView) -> nat {
    match removal {
        RemovalView::Probing { .. } => 2,
        RemovalView::Deleting { .. } => 1,
        RemovalView::Done(_) => 0,
    }
}

/// The repository that a mount is going to clone.
pub open spec fn planned(stage: MountStageView) -> Option<RepoView> {
    match stage {
        MountStageView::Probing { repo, .. } => Some(repo),
        MountStageView::Clearing { repo, .. } => Some(repo),
        MountStageView::Cloning { repo, .. } => Some(repo),
        _ => None,
    }
}

/// The volume `name` is the same before and after.
pub open spec fn same_volume(before: PluginView, after: PluginView, name: Seq<char>) -> bool {
    &&& after.base_path == before.base_path
    &&& after.has(name) == before.has(name)
    &&& before.has(name) ==> after.volumes[name] == before.volumes[name]
}

/// Two steps do the same to the volume `name`, and come to the same.
pub open spec fn same_step<T>(one: (PluginView, T), other: (PluginView, T), name: Seq<char>) -> bool {
    same_volume(one.0, other.0, name) && one.1 == other.1
}

/// What a mount under way has to do with its volume: it holds it, and either
/// fetches into its clone, or is about to clone its repository into its
/// directory, where there is no clone and no container. One that is done has
/// nothing to do with it any longer.
pub open spec fn mount_fits(state: PluginView, mounting: MountingView) -> bool {
    let volume = state.volumes[mounting.name];
    let own = directory(state.base_path, mounting.name);
    let cloning = |path: Seq<char>, repo: RepoView|
        {
            &&& path == own
            &&& repo == volume.repo
            &&& volume.path is None
            &&& volume.leftovers
            &&& volume.containers == Set::<Seq<char>>::empty()
        };
    mounting.stage is Done || (state.held(mounting.name) && match mounting.stage {
        MountStageView::Refetching { path } => path == own && volume.path == Some(path),
        MountStageView::Probing { path, repo } => cloning(path, repo),
        MountStageView::Clearing { path, repo } => cloning(path, repo),
        MountStageView::Cloning { path, repo } => cloning(path, repo),
        MountStageView::Done(_) => true,
    })
}

/// What an unmount under way has to do with its volume: it holds it, and is
/// about to delete its directory, and no container is on it. One that is done
/// has nothing to do with it any longer.
pub open spec fn unmount_fits(state: PluginView, unmounting: UnmountingView) -> bool {
    let volume = state.volumes[unmounting.name];
    let own = directory(state.base_path, unmounting.name);
    unmounting.removal is Done || {
        &&& state.held(unmounting.name)
        &&& volume.containers == Set::<Seq<char>>::empty()
        &&& unmounting.removal.effect() matches Some(effect) && effect.path() == own
    }
}

/// A volume that is put back as it was changes nothing.
pub proof fn lemma_same_volume_again(state: PluginView, name: Seq<char>)
    ensures
        state.has(name) ==> state.with(name, state.volumes[name]) == state,
{
    if state.has(name) {
        assert(state.with(name, state.volumes[name]).volumes =~= state.volumes);
    }
}

proof fn lemma_with_keeps_valid(state: PluginView, name: Seq<char>, volume: VolumeView)
    requires
        state.valid(),
        state.has(name),
        volume.valid(state.base_path, name),
    ensures
        state.with(name, volume).valid(),
{
    let after = state.with(name, volume);
    assert forall|other: Seq<char>| #[trigger]
        after.volumes.contains_key(other) implies !blank(other)
        && after.volumes[other].valid(after.base_path, other) by {
        assert(state.volumes.contains_key(other));
    }
}

/// A driver without volumes is valid.
pub proof fn law_empty_is_valid(base_path: Seq<char>)
    ensures
        (PluginView { base_path, volumes: Map::empty() }).valid(),
{
}

/// Creating a volume keeps the state valid.
pub proof fn law_create_keeps_valid(
    state: PluginView,
    name: Seq<char>,
    opts: RawRepoView,
    volumes: VolumeMap,
)
    requires
        state.valid(),
        with_created(state.volumes, name, opts) == Ok::<VolumeMap, VolumesErrorView>(volumes),
    ensures
        (PluginView { volumes, ..state }).valid(),
{
    let after = PluginView { volumes, ..state };
    assert forall|other: Seq<char>| #[trigger]
        after.volumes.contains_key(other) implies !blank(other)
        && after.volumes[other].valid(after.base_path, other) by {
        if other != name {
            assert(state.volumes.contains_key(other));
        }
    }
}

/// Beginning a mount keeps the state valid.
pub proof fn law_mount_start_keeps_valid(state: PluginView, name: Seq<char>, id: Seq<char>)
    requires
        state.valid(),
    ensures
        state.mount_started(name, id).0.valid(),
{
    if state.has(name) && !state.held(name) {
        let volume = state.volumes[name].attached(id);
        assert(volume.containers.contains(id));
        lemma_with_keeps_valid(state, name, state.mount_begun(name, id).0.volumes[name]);
    }
}

/// Going on with a mount keeps the state valid, whatever the reply.
pub proof fn law_mount_resume_keeps_valid(
    state: PluginView,
    mounting: MountingView,
    reply: ReplyView,
)
    requires
        state.valid(),
    ensures
        state.mount_resumed(mounting, reply).0.valid(),
{
    let name = mounting.name;
    let volume = state.volumes[name];
    if state.held(name) {
        assert(state.volumes.contains_key(name));
        assert(volume.attached(mounting.id).containers.contains(mounting.id));
        lemma_with_keeps_valid(
            state,
            name,
            mounting.stage.advanced(volume, state.base_path, name, mounting.id, reply).0,
        );
    }
}

/// Beginning an unmount keeps the state valid.
pub proof fn law_unmount_start_keeps_valid(state: PluginView, name: Seq<char>, id: Seq<char>)
    requires
        state.valid(),
    ensures
        state.unmount_started(name, id).0.valid(),
{
    if state.has(name) {
        let volume = state.volumes[name].detached(id);
        if volume.containers == Set::<Seq<char>>::empty() {
            let path = volume.occupied(state.base_path, name);
            lemma_with_keeps_valid(
                state,
                name,
                volume.in_status(VolumeStatus::Cleared).held(path is Some),
            );
        } else {
            if state.volumes[name].containers == Set::<Seq<char>>::empty() {
                assert(volume.containers =~= Set::<Seq<char>>::empty());
            }
            lemma_with_keeps_valid(state, name, volume);
        }
    }
}

/// Going on with an unmount keeps the state valid, whatever the reply.
pub proof fn law_unmount_resume_keeps_valid(
    state: PluginView,
    unmounting: UnmountingView,
    reply: ReplyView,
)
    requires
        state.valid(),
    ensures
        state.unmount_resumed(unmounting, reply).0.valid(),
{
    let name = unmounting.name;
    if state.held(name) {
        assert(state.volumes.contains_key(name));
        lemma_with_keeps_valid(state, name, unmounting.advanced(state.volumes[name], reply).0);
    }
}

/// Giving an operation up keeps the state valid.
pub proof fn law_freeing_keeps_valid(state: PluginView, name: Seq<char>)
    requires
        state.valid(),
    ensures
        state.freed(name).valid(),
{
    if state.has(name) {
        assert(state.volumes.contains_key(name));
        lemma_with_keeps_valid(state, name, state.volumes[name].held(false));
    }
}

/// Removing a volume keeps the state valid.
pub proof fn law_remove_keeps_valid(state: PluginView, name: Seq<char>)
    requires
        state.valid(),
    ensures
        state.remove_started(name).0.valid(),
{
    let after = state.remove_started(name).0;
    assert forall|other: Seq<char>| #[trigger]
        after.volumes.contains_key(other) implies !blank(other)
        && after.volumes[other].valid(after.base_path, other) by {
        assert(state.volumes.contains_key(other));
    }
}

/// Whole operations keep the state valid, whatever the world does.
pub proof fn law_outcomes_keep_valid(
    state: PluginView,
    name: Seq<char>,
    id: Seq<char>,
    world: World,
)
    requires
        state.valid(),
    ensures
        mount_outcome(state, name, id, world).0.valid(),
        unmount_outcome(state, name, id, world).0.valid(),
        remove_outcome(state, name, world).0.valid(),
{
    let after = remove_outcome(state, name, world).0;
    assert forall|other: Seq<char>| #[trigger]
        after.volumes.contains_key(other) implies !blank(other)
        && after.volumes[other].valid(after.base_path, other) by {
        assert(state.volumes.contains_key(other));
    }
    if state.has(name) {
        let volume = state.volumes[name];
        assert(state.volumes.contains_key(name));
        assert(volume.attached(id).containers.contains(id));
        lemma_same_volume_again(state, name);
        lemma_with_keeps_valid(
            state,
            name,
            mount_outcome(state, name, id, world).0.volumes[name],
        );
        if volume.containers == Set::<Seq<char>>::empty() {
            assert(volume.detached(id).containers =~= Set::<Seq<char>>::empty());
        }
        lemma_with_keeps_valid(
            state,
            name,
            unmount_outcome(state, name, id, world).0.volumes[name],
        );
    }
}

/// Nothing but a reply that is waited for moves a mount on, and each such
/// reply brings it nearer to its end. A mount that does not hold its volume is
/// at its end with any reply, and leaves the volume alone.
pub proof fn law_mount_makes_progress(
    state: PluginView,
    mounting: MountingView,
    reply: ReplyView,
)
    ensures
        ({
            let (after, next) = state.mount_resumed(mounting, reply);
            if mounting.stage is Done {
                after == state && next == mounting
            } else if !state.held(mounting.name) {
                after == state && next.stage is Done
            } else if answers(mounting.effect(), reply) {
                mount_steps_left(next.stage) < mount_steps_left(mounting.stage)
            } else {
                after == state && next == mounting
            }
        }),
        mounting.effect() is None <==> mounting.stage is Done,
        mounting.effect() is None <==> mount_steps_left(mounting.stage) == 0,
{
    lemma_same_volume_again(state, mounting.name);
}

/// Nothing but a reply that is waited for moves an unmount on, and each such
/// reply brings it nearer to its end. An unmount that does not hold its volume
/// is at its end with any reply, and leaves the volume alone.
pub proof fn law_unmount_makes_progress(
    state: PluginView,
    unmounting: UnmountingView,
    reply: ReplyView,
)
    ensures
        ({
            let (after, next) = state.unmount_resumed(unmounting, reply);
            if unmounting.removal is Done {
                after == state && next == unmounting
            } else if !state.held(unmounting.name) {
                after == state && next.removal is Done
            } else if answers(unmounting.removal.effect(), reply) {
                removal_steps_left(next.removal) < removal_steps_left(unmounting.removal)
            } else {
                after == state && next == unmounting
            }
        }),
        unmounting.removal.effect() is None <==> unmounting.removal is Done,
        unmounting.removal.effect() is None <==> removal_steps_left(unmounting.removal) == 0,
{
    lemma_same_volume_again(state, unmounting.name);
}

/// One operation at a time: as long as one is under way on a volume, no other
/// begins on it, no volume is created under its name, and nothing that is done
/// with other volumes touches it.
pub proof fn law_held_volume_is_left_alone(
    state: PluginView,
    name: Seq<char>,
    id: Seq<char>,
    opts: RawRepoView,
    other: Seq<char>,
    mounting: MountingView,
    unmounting: UnmountingView,
    reply: ReplyView,
)
    requires
        state.valid(),
        state.held(name),
        other != name,
        mounting.name != name,
        unmounting.name != name,
    ensures
        state.mount_started(name, id) == (state, None::<MountingView>),
        state.unmount_started(name, id) == (state, None::<UnmountingView>),
        state.remove_started(name) == (state, None::<RemovalView>),
        with_created(state.volumes, name, opts) == Err::<VolumeMap, VolumesErrorView>(
            VolumesErrorView::AlreadyExists(name),
        ),
        with_created(state.volumes, other, opts) matches Ok(volumes) ==> same_volume(
            state,
            PluginView { volumes, ..state },
            name,
        ),
        same_volume(state, state.mount_started(other, id).0, name),
        same_volume(state, state.mount_resumed(mounting, reply).0, name),
        same_volume(state, state.mount_abandoned(mounting), name),
        same_volume(state, state.unmount_started(other, id).0, name),
        same_volume(state, state.unmount_resumed(unmounting, reply).0, name),
        same_volume(state, state.unmount_abandoned(unmounting), name),
        same_volume(state, state.remove_started(other).0, name),
{
    assert(state.volumes.contains_key(name));
}

/// A mount that begins holds its volume exactly if it waits for an effect, and
/// fits it.
pub proof fn law_mount_takes_its_volume(state: PluginView, name: Seq<char>, id: Seq<char>)
    requires
        state.valid(),
        !state.held(name),
    ensures
        ({
            let (begun, mounting) = state.mount_begun(name, id);
            &&& state.mount_started(name, id) == (begun, Some(mounting))
            &&& mount_fits(begun, mounting)
            &&& begun.held(name) <==> mounting.effect() is Some
        }),
{
    if state.has(name) {
        assert(state.volumes.contains_key(name));
    }
}

/// A mount holds its volume exactly as long as it waits for an effect, and
/// fits it all the while: after each of its replies, and whatever becomes of
/// other volumes in between. Given up, it holds the volume no longer.
pub proof fn law_mount_keeps_its_volume(
    state: PluginView,
    mounting: MountingView,
    reply: ReplyView,
    changed: PluginView,
)
    requires
        state.valid(),
        mount_fits(state, mounting),
        mounting.effect() is Some,
        same_volume(state, changed, mounting.name),
    ensures
        ({
            let (after, next) = state.mount_resumed(mounting, reply);
            &&& mount_fits(after, next)
            &&& after.held(mounting.name) <==> next.effect() is Some
        }),
        !state.mount_abandoned(mounting).held(mounting.name),
        mount_fits(changed, mounting),
{
    assert(state.volumes.contains_key(mounting.name));
}

/// An unmount that begins holds its volume exactly if it waits for an effect,
/// and fits it.
pub proof fn law_unmount_takes_its_volume(state: PluginView, name: Seq<char>, id: Seq<char>)
    requires
        state.valid(),
        !state.held(name),
    ensures
        ({
            let (begun, unmounting) = state.unmount_begun(name, id);
            &&& state.unmount_started(name, id) == (begun, Some(unmounting))
            &&& unmount_fits(begun, unmounting)
            &&& begun.held(name) <==> unmounting.removal.effect() is Some
        }),
{
    if state.has(name) {
        assert(state.volumes.contains_key(name));
    }
}

/// An unmount holds its volume exactly as long as it waits for an effect, and
/// fits it all the while: after each of its replies, and whatever becomes of
/// other volumes in between. Given up, it holds the volume no longer.
pub proof fn law_unmount_keeps_its_volume(
    state: PluginView,
    unmounting: UnmountingView,
    reply: ReplyView,
    changed: PluginView,
)
    requires
        unmount_fits(state, unmounting),
        unmounting.removal.effect() is Some,
        same_volume(state, changed, unmounting.name),
    ensures
        ({
            let (after, next) = state.unmount_resumed(unmounting, reply);
            &&& unmount_fits(after, next)
            &&& after.held(unmounting.name) <==> next.removal.effect() is Some
        }),
        !state.unmount_abandoned(unmounting).held(unmounting.name),
        unmount_fits(changed, unmounting),
{
}

/// What a container holds is not deleted: the directory that a mount or an
/// unmount asks to delete, or to clone into, is not that of any volume with a
/// container on it.
pub proof fn law_no_deletion_under_a_container(
    state: PluginView,
    mounting: MountingView,
    unmounting: UnmountingView,
    name: Seq<char>,
)
    requires
        state.valid(),
        mount_fits(state, mounting),
        unmount_fits(state, unmounting),
        state.has(name),
        state.volumes[name].containers != Set::<Seq<char>>::empty(),
    ensures
        mounting.effect() matches Some(effect) ==> effect is Refetch || state.volumes[name].path
            != Some(effect.path()),
        unmounting.removal.effect() matches Some(effect) ==> state.volumes[name].path != Some(
            effect.path(),
        ),
{
    assert(state.volumes.contains_key(name));
    if name != mounting.name {
        law_directories_differ(state.base_path, name, mounting.name);
    }
    if name != unmounting.name {
        law_directories_differ(state.base_path, name, unmounting.name);
    }
}

pub(crate) proof fn lemma_codes()
    ensures
        "%25"@ == seq!['%', '2', '5'],
        "%2F"@ == seq!['%', '2', 'F'],
        "%00"@ == seq!['%', '0', '0'],
        "%2E"@ == seq!['%', '2', 'E'],
{
    reveal_strlit("%25");
    reveal_strlit("%2F");
    reveal_strlit("%00");
    reveal_strlit("%2E");
    assert("%25"@ =~= seq!['%', '2', '5']);
    assert("%2F"@ =~= seq!['%', '2', 'F']);
    assert("%00"@ =~= seq!['%', '0', '0']);
    assert("%2E"@ =~= seq!['%', '2', 'E']);
}

proof fn lemma_escaped_differs(name: Seq<char>, other: Seq<char>)
    requires
        escaped(name) == escaped(other),
    ensures
        name == other,
    decreases name.len(),
{
    lemma_codes();
    let text = escaped(name);
    if name.len() > 0 {
        assert(text[0] == escape(name[0])[0]);
        assert(other.len() > 0);
        assert(text[0] == escape(other[0])[0]);
        if text[0] == '%' {
            assert(text[2] == escape(name[0])[2]);
            assert(text[2] == escape(other[0])[2]);
        }
        assert(name[0] == other[0]);
        let code = escape(name[0]).len() as int;
        assert(escaped(name.skip(1)) =~= text.skip(code));
        assert(escaped(other.skip(1)) =~= text.skip(code));
        lemma_escaped_differs(name.skip(1), other.skip(1));
        assert(name =~= seq![name[0]] + name.skip(1));
        assert(other =~= seq![other[0]] + other.skip(1));
    } else if other.len() > 0 {
        assert(text.len() >= escape(other[0]).len());
    }
}

proof fn lemma_escaped_has_no_separator(name: Seq<char>)
    ensures
        !escaped(name).contains('/'),
        !escaped(name).contains('\0'),
    decreases name.len(),
{
    lemma_codes();
    if name.len() > 0 {
        let tail = escaped(name.skip(1));
        let code = escape(name[0]);
        lemma_escaped_has_no_separator(name.skip(1));
        assert forall|i: int| 0 <= i < escaped(name).len() implies escaped(name)[i] != '/'
            && escaped(name)[i] != '\0' by {
            if i < code.len() {
                assert(escaped(name)[i] == code[i]);
            } else {
                assert(escaped(name)[i] == tail[i - code.len()]);
                assert(tail.contains(tail[i - code.len()]));
            }
        }
    }
}

/// The directory of a volume is an entry of the base path: one path component,
/// which is neither the base path itself nor the directory above.
pub proof fn law_directory_is_an_entry(name: Seq<char>)
    requires
        !blank(name),
    ensures
        entry_name(component(name)),
{
    lemma_codes();
    assert(name.len() > 0);
    lemma_escaped_has_no_separator(name);
    lemma_escaped_has_no_separator(name.skip(1));
    if name[0] == '.' {
        let tail = escaped(name.skip(1));
        let text = component(name);
        assert forall|i: int| 0 <= i < text.len() implies text[i] != '/' && text[i] != '\0' by {
            if i >= 3 {
                assert(text[i] == tail[i - 3]);
                assert(tail.contains(tail[i - 3]));
            }
        }
    } else {
        assert(component(name)[0] == escape(name[0])[0]);
    }
}

/// Volumes of different names have different path components.
pub proof fn law_components_differ(name: Seq<char>, other: Seq<char>)
    requires
        name != other,
    ensures
        component(name) != component(other),
{
    lemma_codes();
    if component(name) == component(other) {
        let text = component(name);
        let dotted = name.len() > 0 && name[0] == '.';
        let other_dotted = other.len() > 0 && other[0] == '.';
        if dotted && other_dotted {
            assert(escaped(name.skip(1)) =~= text.skip(3));
            assert(escaped(other.skip(1)) =~= text.skip(3));
            lemma_escaped_differs(name.skip(1), other.skip(1));
            assert(name =~= seq!['.'] + name.skip(1));
            assert(other =~= seq!['.'] + other.skip(1));
        } else if !dotted && !other_dotted {
            lemma_escaped_differs(name, other);
        } else {
            let plain = if dotted { other } else { name };
            assert(text.len() >= 3 && text[0] == '%' && text[2] == 'E');
            assert(text == escaped(plain));
            assert(plain.len() > 0) by {
                if plain.len() == 0 {
                    assert(escaped(plain).len() == 0);
                }
            }
            assert(text[0] == escape(plain[0])[0]);
            assert(text[2] == escape(plain[0])[2]);
        }
    }
}

/// Volumes of different names have different directories: different entries of
/// the same base path.
pub proof fn law_directories_differ(base_path: Seq<char>, name: Seq<char>, other: Seq<char>)
    requires
        name != other,
    ensures
        directory(base_path, name) != directory(base_path, other),
{
    let start = prefix(base_path).len() as int;
    law_components_differ(name, other);
    if directory(base_path, name) == directory(base_path, other) {
        assert(component(name) =~= directory(base_path, name).skip(start));
        assert(component(other) =~= directory(base_path, other).skip(start));
    }
}

/// Two volumes never share a directory: each has an entry of the base path of
/// its own.
pub proof fn law_no_shared_directory(state: PluginView, name: Seq<char>, other: Seq<char>)
    requires
        state.valid(),
        state.placed(name),
        state.placed(other),
        name != other,
    ensures
        state.volumes[name].path != state.volumes[other].path,
        state.volumes[name].path == Some(prefix(state.base_path) + component(name)),
        entry_name(component(name)),
{
    assert(state.volumes.contains_key(name) && state.volumes.contains_key(other));
    law_directory_is_an_entry(name);
    law_directories_differ(state.base_path, name, other);
}

/// Whatever a mount asks for is about the directory of its own volume.
pub proof fn law_mount_stays_in_its_directory(
    state: PluginView,
    name: Seq<char>,
    id: Seq<char>,
    later: PluginView,
    mounting: MountingView,
    reply: ReplyView,
)
    requires
        state.valid(),
    ensures
        state.mount_begun(name, id).1.effect() matches Some(effect) ==> effect.path() == directory(
            state.base_path,
            name,
        ),
        later.mount_resumed(mounting, reply).1.effect() matches Some(effect) ==> {
            &&& mounting.effect() matches Some(before)
            &&& effect.path() == before.path()
        },
{
    if state.has(name) {
        assert(state.volumes.contains_key(name));
    }
}

/// Whatever an unmount or a removal asks for is about the directory of its own
/// volume.
pub proof fn law_removal_stays_in_its_directory(
    state: PluginView,
    name: Seq<char>,
    id: Seq<char>,
    removal: RemovalView,
    reply: ReplyView,
)
    requires
        state.valid(),
    ensures
        state.unmount_begun(name, id).1.removal.effect() matches Some(effect) ==> effect.path()
            == directory(state.base_path, name),
        state.remove_begun(name).1.effect() matches Some(effect) ==> effect.path() == directory(
            state.base_path,
            name,
        ),
        removal.resumed(reply).effect() matches Some(effect) ==> {
            &&& removal.effect() matches Some(before)
            &&& effect.path() == before.path()
        },
{
    if state.has(name) {
        assert(state.volumes.contains_key(name));
    }
}

/// A volume is cloned once: as long as it has a directory, no mount under way
/// asks for a clone or for a deletion.
pub proof fn law_cloned_once(state: PluginView, mounting: MountingView)
    requires
        mount_fits(state, mounting),
        state.placed(mounting.name),
    ensures
        mounting.effect() matches Some(effect) ==> effect is Refetch,
{
}

/// A mount fetches if and only if the volume has a directory and its options
/// ask for a fetch.
pub proof fn law_fetched_on_request(state: PluginView, name: Seq<char>, id: Seq<char>)
    ensures
        ({
            let mounting = state.mount_begun(name, id).1;
            (mounting.effect() matches Some(effect) && effect is Refetch) <==> (state.placed(name)
                && state.volumes[name].repo.refetch)
        }),
{
}

/// A clone is one of the repository of the volume, as its options are while it
/// is made, into the directory of the volume.
pub proof fn law_clones_own_repository(state: PluginView, mounting: MountingView)
    requires
        mount_fits(state, mounting),
    ensures
        mounting.effect() matches Some(EffectView::Clone { path, repo }) ==> {
            &&& state.has(mounting.name)
            &&& repo == state.volumes[mounting.name].repo
            &&& path == directory(state.base_path, mounting.name)
        },
{
}

/// A mount that goes well is to be seen: the volume is where the mount says,
/// in its own directory, and the container is on it.
pub proof fn law_mount_is_seen(state: PluginView, name: Seq<char>, id: Seq<char>, world: World)
    requires
        state.valid(),
        mount_outcome(state, name, id, world).1 is Ok,
    ensures
        ({
            let (after, outcome) = mount_outcome(state, name, id, world);
            &&& after.has(name)
            &&& after.volumes[name].path == Some(outcome->Ok_0)
            &&& outcome->Ok_0 == directory(state.base_path, name)
            &&& after.volumes[name].containers == state.volumes[name].containers.insert(id)
        }),
{
    assert(state.volumes.contains_key(name));
}

/// The first mount that goes well leaves a volume `Clonned`.
pub proof fn law_first_mount_clones(
    state: PluginView,
    name: Seq<char>,
    id: Seq<char>,
    world: World,
)
    requires
        state.has(name),
        !state.placed(name),
        world.can_clear(),
        world.cloned is Ok,
    ensures
        ({
            let (after, outcome) = mount_outcome(state, name, id, world);
            &&& outcome == Ok::<Seq<char>, ErrorView>(directory(state.base_path, name))
            &&& after.volumes[name].status == VolumeStatus::Clonned
        }),
{
}

/// Containers share the clone: a mount after one that went well gives the same
/// path, unless a fetch that was asked for fails.
pub proof fn law_mounts_share(
    state: PluginView,
    name: Seq<char>,
    id: Seq<char>,
    world: World,
    other: Seq<char>,
    later: World,
)
    requires
        mount_outcome(state, name, id, world).1 is Ok,
        state.volumes[name].repo.refetch ==> later.refetched is Ok,
    ensures
        ({
            let (between, outcome) = mount_outcome(state, name, id, world);
            let (after, shared) = mount_outcome(between, name, other, later);
            &&& shared == outcome
            &&& after.volumes[name].containers.contains(id)
            &&& after.volumes[name].containers.contains(other)
            &&& after.volumes[name].status == between.volumes[name].status
        }),
{
}

/// A mount that fails changes nothing but this: where it was to clone the
/// volume, there may be anything in the directory.
pub proof fn law_failed_mount(state: PluginView, name: Seq<char>, id: Seq<char>, world: World)
    requires
        mount_outcome(state, name, id, world).1 is Err,
    ensures
        mount_outcome(state, name, id, world).0 == (if state.has(name) && !state.placed(name) {
            state.with(name, state.volumes[name].with_leftovers())
        } else {
            state
        }),
{
}

/// What a first mount that failed has left behind is deleted with the volume:
/// a removal of the volume, and an unmount of it, ask whether the directory is
/// there, and go well only if it is not or can be deleted. After that unmount
/// nothing is left.
pub proof fn law_leftovers_are_deleted(
    state: PluginView,
    name: Seq<char>,
    id: Seq<char>,
    world: World,
    other: Seq<char>,
    later: World,
)
    requires
        state.valid(),
        state.has(name),
        !state.placed(name),
        mount_outcome(state, name, id, world).1 is Err,
    ensures
        ({
            let path = directory(state.base_path, name);
            let between = mount_outcome(state, name, id, world).0;
            let (unmounted, outcome) = unmount_outcome(between, name, other, later);
            &&& !between.placed(name)
            &&& between.remove_begun(name).1 == RemovalView::Probing { path }
            &&& between.unmount_begun(name, other).1.removal == RemovalView::Probing { path }
            &&& remove_outcome(between, name, later).1 is Ok <==> later.can_clear()
            &&& outcome is Ok <==> later.can_clear()
            &&& unmounted.volumes[name].leftovers <==> outcome is Err
        }),
{
    assert(state.volumes.contains_key(name));
    assert(state.volumes[name].detached(other).containers =~= Set::<Seq<char>>::empty());
}

/// What a mount that was given up has left behind is deleted with the volume
/// as well.
pub proof fn law_abandoned_mount(
    state: PluginView,
    mounting: MountingView,
    other: Seq<char>,
)
    requires
        mount_fits(state, mounting),
        planned(mounting.stage) is Some,
    ensures
        ({
            let name = mounting.name;
            let path = directory(state.base_path, name);
            let after = state.mount_abandoned(mounting);
            &&& after == state.with(name, state.volumes[name].held(false))
            &&& after.remove_started(name).1 == Some(RemovalView::Probing { path })
            &&& after.unmount_started(name, other).1 == Some(
                UnmountingView { name, removal: RemovalView::Probing { path } },
            )
        }),
{
    assert(state.volumes[mounting.name].detached(other).containers
        =~= Set::<Seq<char>>::empty());
}

/// After a first mount that failed the next one clones: it asks whether the
/// directory is there, and goes well only if its own clone does.
pub proof fn law_mount_after_failed_mount(
    state: PluginView,
    name: Seq<char>,
    id: Seq<char>,
    world: World,
    other: Seq<char>,
    later: World,
)
    requires
        state.has(name),
        !state.placed(name),
        mount_outcome(state, name, id, world).1 is Err,
    ensures
        ({
            let between = mount_outcome(state, name, id, world).0;
            let path = directory(state.base_path, name);
            let (after, outcome) = mount_outcome(between, name, other, later);
            &&& between.mount_begun(name, other).1 == (MountingView {
                name,
                id: other,
                stage: MountStageView::Probing { path, repo: state.volumes[name].repo },
            })
            &&& outcome is Ok <==> later.can_clear() && later.cloned is Ok
            &&& outcome is Ok ==> {
                &&& after.volumes[name].path == Some(path)
                &&& after.volumes[name].status == VolumeStatus::Clonned
            }
        }),
{
}

/// As long as a volume has not been cloned, no mount of it is done without a
/// clone of its own.
pub proof fn law_no_mount_without_clone(
    state: PluginView,
    id: Seq<char>,
    mounting: MountingView,
    reply: ReplyView,
)
    requires
        state.has(mounting.name),
        !state.placed(mounting.name),
        planned(mounting.stage) is Some,
    ensures
        planned(state.mount_begun(mounting.name, id).1.stage) is Some,
        !state.mount_begun(mounting.name, id).0.placed(mounting.name),
        ({
            let (after, next) = state.mount_resumed(mounting, reply);
            if next.stage matches MountStageView::Done(Ok(_)) {
                &&& mounting.stage is Cloning
                &&& reply matches ReplyView::Git(Ok(_))
            } else {
                !after.placed(mounting.name)
            }
        }),
{
}

/// As long as another container holds the volume, an unmount asks for nothing,
/// and leaves the volume where and what it is.
pub proof fn law_unmount_of_shared(
    state: PluginView,
    name: Seq<char>,
    id: Seq<char>,
    other: Seq<char>,
    world: World,
)
    requires
        state.has(name),
        state.volumes[name].containers.contains(other),
        other != id,
    ensures
        state.unmount_begun(name, id).1.removal == RemovalView::Done(Ok(())),
        unmount_outcome(state, name, id, world) == (
            state.with(name, state.volumes[name].detached(id)),
            Ok::<(), ErrorView>(()),
        ),
        unmount_outcome(state, name, id, world).0.volumes[name].path == state.volumes[name].path,
        unmount_outcome(state, name, id, world).0.volumes[name].status
            == state.volumes[name].status,
{
    assert(state.volumes[name].detached(id).containers.contains(other));
}

/// An unmount from a container that does not hold the volume, while another
/// does, changes nothing.
pub proof fn law_unmount_of_stranger(
    state: PluginView,
    name: Seq<char>,
    id: Seq<char>,
    other: Seq<char>,
    world: World,
)
    requires
        state.has(name),
        state.volumes[name].containers.contains(other),
        !state.volumes[name].containers.contains(id),
    ensures
        unmount_outcome(state, name, id, world) == (state, Ok::<(), ErrorView>(())),
{
    law_unmount_of_shared(state, name, id, other, world);
    let volume = state.volumes[name];
    assert(volume.detached(id).containers =~= volume.containers);
    assert(state.with(name, volume).volumes =~= state.volumes);
}

/// The unmount of the last container that goes well leaves a volume `Cleared`,
/// without containers, without a directory and with nothing in it. It fails
/// only where the directory could not be deleted, which is then kept.
pub proof fn law_unmount_of_last(
    state: PluginView,
    name: Seq<char>,
    id: Seq<char>,
    world: World,
)
    requires
        state.has(name),
        state.volumes[name].containers.subset_of(set![id]),
    ensures
        ({
            let (after, outcome) = unmount_outcome(state, name, id, world);
            &&& after.volumes[name].status == VolumeStatus::Cleared
            &&& after.volumes[name].containers == Set::<Seq<char>>::empty()
            &&& outcome is Ok <==> (state.volumes[name].occupied(state.base_path, name) is Some
                ==> world.can_clear())
            &&& outcome is Ok ==> after.volumes[name].path is None && !after.volumes[name].leftovers
            &&& outcome is Err ==> {
                &&& after.volumes[name].path == state.volumes[name].path
                &&& after.volumes[name].leftovers == state.volumes[name].leftovers
            }
        }),
{
    assert(state.volumes[name].detached(id).containers =~= Set::<Seq<char>>::empty());
}

/// An unmount undoes a mount. Where nobody held the volume before, it is
/// without its directory again, with nothing in it, and `Cleared`; where somebody did, it is back
/// to what it was.
pub proof fn law_unmount_undoes_mount(
    state: PluginView,
    name: Seq<char>,
    id: Seq<char>,
    world: World,
    later: World,
)
    requires
        state.valid(),
        mount_outcome(state, name, id, world).1 is Ok,
        later.can_clear(),
        !state.volumes[name].containers.contains(id),
    ensures
        ({
            let volume = state.volumes[name];
            let between = mount_outcome(state, name, id, world).0;
            let (after, outcome) = unmount_outcome(between, name, id, later);
            &&& outcome is Ok
            &&& if volume.containers == Set::<Seq<char>>::empty() {
                after == state.with(name, volume.at(None).in_status(VolumeStatus::Cleared))
            } else {
                after == state
            }
        }),
{
    let volume = state.volumes[name];
    let between = mount_outcome(state, name, id, world).0;
    assert(state.volumes.contains_key(name));
    assert(between.volumes[name].detached(id).containers =~= volume.containers);
    let after = unmount_outcome(between, name, id, later).0;
    if volume.containers == Set::<Seq<char>>::empty() {
        assert(after.volumes =~= state.with(
            name,
            volume.at(None).in_status(VolumeStatus::Cleared),
        ).volumes);
    } else {
        assert(after.volumes =~= state.volumes);
    }
}

/// An unmount or a removal of a volume that is not there goes well and changes
/// nothing; a mount of it is refused and changes nothing.
pub proof fn law_absent_volume(state: PluginView, name: Seq<char>, id: Seq<char>, world: World)
    requires
        !state.has(name),
    ensures
        unmount_outcome(state, name, id, world) == (state, Ok::<(), ErrorView>(())),
        remove_outcome(state, name, world) == (state, Ok::<(), ErrorView>(())),
        mount_outcome(state, name, id, world) == (
            state,
            Err::<Seq<char>, ErrorView>(non_exists(name)),
        ),
{
}

/// After a removal there is no such volume, whether or not its directory could
/// be deleted, and the name is free again.
pub proof fn law_removed_is_gone(
    state: PluginView,
    name: Seq<char>,
    world: World,
    opts: RawRepoView,
    repo: RepoView,
)
    requires
        !blank(name),
        checked(opts) == Ok::<RepoView, RepoErrorView>(repo),
    ensures
        ({
            let after = remove_outcome(state, name, world).0;
            &&& !after.has(name)
            &&& with_created(after.volumes, name, opts) == Ok::<VolumeMap, VolumesErrorView>(
                after.volumes.insert(name, VolumeView::created(repo)),
            )
        }),
{
}

/// A volume that has been created is there, unmounted and `Created`, with the
/// options it was given, nothing in its directory and no operation under way,
/// and no other volume has changed.
pub proof fn law_created_is_there(
    state: PluginView,
    name: Seq<char>,
    opts: RawRepoView,
    volumes: VolumeMap,
)
    requires
        with_created(state.volumes, name, opts) == Ok::<VolumeMap, VolumesErrorView>(volumes),
    ensures
        volumes.contains_key(name),
        volumes[name].path is None,
        volumes[name].status == VolumeStatus::Created,
        volumes[name].containers == Set::<Seq<char>>::empty(),
        !volumes[name].leftovers,
        !volumes[name].busy,
        checked(opts) == Ok::<RepoView, RepoErrorView>(volumes[name].repo),
        forall|other: Seq<char>|
            other != name ==> (#[trigger] volumes.contains_key(other)
                == state.volumes.contains_key(other)),
        forall|other: Seq<char>|
            other != name && state.volumes.contains_key(other) ==> #[trigger] volumes[other]
                == state.volumes[other],
{
}

/// A name is given once: a second volume of the same name is refused, whatever
/// its options.
pub proof fn law_no_second_volume(
    state: PluginView,
    name: Seq<char>,
    opts: RawRepoView,
    volumes: VolumeMap,
    others: RawRepoView,
)
    requires
        with_created(state.volumes, name, opts) == Ok::<VolumeMap, VolumesErrorView>(volumes),
    ensures
        with_created(volumes, name, others) == Err::<VolumeMap, VolumesErrorView>(
            VolumesErrorView::AlreadyExists(name),
        ),
{
}

/// Options that pass have an `http` or `https` URL and not both a branch and a
/// tag, all as they were given; and they ask for fetches exactly if `refetch`
/// is `true`.
pub proof fn law_checked_options(opts: RawRepoView)
    ensures
        checked(opts) matches Ok(repo) ==> {
            &&& repo.valid()
            &&& opts.url == Some(repo.url)
            &&& opts.branch == repo.branch
            &&& opts.tag == repo.tag
            &&& repo.refetch <==> opts.refetch == Some("true"@)
        },
        opts.url is None ==> checked(opts) is Err,
        opts.branch is Some && opts.tag is Some ==> checked(opts) is Err,
{
}

/// What is done with one volume does not touch another, nor the base path.
pub proof fn law_other_volumes_untouched(
    state: PluginView,
    name: Seq<char>,
    id: Seq<char>,
    world: World,
    other: Seq<char>,
)
    requires
        other != name,
    ensures
        same_volume(state, mount_outcome(state, name, id, world).0, other),
        same_volume(state, unmount_outcome(state, name, id, world).0, other),
        same_volume(state, remove_outcome(state, name, world).0, other),
{
}

/// Single steps of operations on one volume do not touch another either.
pub proof fn law_steps_leave_others_untouched(
    state: PluginView,
    name: Seq<char>,
    id: Seq<char>,
    mounting: MountingView,
    unmounting: UnmountingView,
    reply: ReplyView,
    other: Seq<char>,
)
    requires
        other != name,
        other != mounting.name,
        other != unmounting.name,
    ensures
        same_volume(state, state.mount_started(name, id).0, other),
        same_volume(state, state.mount_resumed(mounting, reply).0, other),
        same_volume(state, state.mount_abandoned(mounting), other),
        same_volume(state, state.unmount_started(name, id).0, other),
        same_volume(state, state.unmount_resumed(unmounting, reply).0, other),
        same_volume(state, state.unmount_abandoned(unmounting), other),
        same_volume(state, state.remove_started(name).0, other),
{
}

/// What a step does to its volume, and what comes next, depends on no other
/// volume. So operations on different volumes may take turns step by step.
pub proof fn law_steps_depend_on_their_volume(
    state: PluginView,
    changed: PluginView,
    name: Seq<char>,
    id: Seq<char>,
    mounting: MountingView,
    unmounting: UnmountingView,
    reply: ReplyView,
)
    requires
        same_volume(state, changed, name),
        mounting.name == name,
        unmounting.name == name,
    ensures
        same_step(state.mount_started(name, id), changed.mount_started(name, id), name),
        same_step(
            state.mount_resumed(mounting, reply),
            changed.mount_resumed(mounting, reply),
            name,
        ),
        same_step(state.unmount_started(name, id), changed.unmount_started(name, id), name),
        same_step(
            state.unmount_resumed(unmounting, reply),
            changed.unmount_resumed(unmounting, reply),
            name,
        ),
        same_step(state.remove_started(name), changed.remove_started(name), name),
{
}

/// The options of a volume never change, neither over a whole operation nor with
/// any step of one.
pub proof fn law_options_stay(
    state: PluginView,
    name: Seq<char>,
    id: Seq<char>,
    world: World,
    mounting: MountingView,
    unmounting: UnmountingView,
    reply: ReplyView,
)
    requires
        state.has(name),
    ensures
        state.mount_started(name, id).0.volumes[name].repo == state.volumes[name].repo,
        state.mount_resumed(mounting, reply).0.volumes[name].repo == state.volumes[name].repo,
        state.mount_abandoned(mounting).volumes[name].repo == state.volumes[name].repo,
        state.unmount_started(name, id).0.volumes[name].repo == state.volumes[name].repo,
        state.unmount_resumed(unmounting, reply).0.volumes[name].repo == state.volumes[name].repo,
        state.unmount_abandoned(unmounting).volumes[name].repo == state.volumes[name].repo,
        ({
            let mounted = mount_outcome(state, name, id, world).0;
            let unmounted = unmount_outcome(state, name, id, world).0;
            &&& mounted.has(name) && mounted.volumes[name].repo == state.volumes[name].repo
            &&& unmounted.has(name) && unmounted.volumes[name].repo == state.volumes[name].repo
        }),
{
}

/// A list is as long as there are volumes.
pub proof fn law_list_is_as_long_as_the_store(items: Seq<ItemVolume>, volumes: VolumeMap)
    requires
        listing(items, volumes),
    ensures
        volumes.dom().finite(),
        items.len() == volumes.dom().len(),
{
    let names = items.map_values(|item: ItemVolume| item.name@);
    assert(names.no_duplicates());
    assert(names.to_set() =~= volumes.dom()) by {
        assert forall|name: Seq<char>| volumes.dom().contains(name) implies names.contains(
            name,
        ) by {
            assert(volumes.contains_key(name));
            let i = choose|i: int| 0 <= i < items.len() && (#[trigger] items[i]).name@ == name;
            assert(names[i] == name);
        }
        assert forall|name: Seq<char>| names.contains(name) implies volumes.dom().contains(
            name,
        ) by {
            let i = choose|i: int| 0 <= i < names.len() && names[i] == name;
            assert(items[i].name@ == name);
        }
    }
    names.unique_seq_to_set();
}

} // verus!

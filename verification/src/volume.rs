//! A single volume: its repository, its directory and the containers on it.

use crate::repo::{Repo, RepoView};
use crate::text::text_of;
use vstd::hash_set::StringHashSet;
use vstd::prelude::*;
use vstd::string::{StrSliceExecFns, StringExecFns};

verus! {

/// How far a volume has come.
#[derive(Debug, Clone, Copy, PartialEq, Eq, Structural)]
pub enum VolumeStatus {
    /// Created, and not cloned yet.
    Created,
    /// Cloned into its directory.
    Clonned,
    /// Given up by its last container.
    Cleared,
}

/// A volume.
pub struct Volume {
    /// The name it was created under.
    pub name: String,
    /// The directory of its clone, once there is one.
    pub path: Option<String>,
    /// The repository it is a clone of.
    pub repo: Repo,
    /// The containers that hold it mounted.
    pub containers: StringHashSet,
    /// How far it has come.
    pub status: VolumeStatus,
    /// Whether there may be anything in its directory though it has none: what
    /// a mount that came to nothing has left there.
    pub leftovers: bool,
    /// Whether an operation is under way on it.
    pub busy: bool,
}

/// A volume but for its name.
#[verifier::ext_equal]
pub struct VolumeView {
    pub path: Option<Seq<char>>,
    pub repo: RepoView,
    pub containers: Set<Seq<char>>,
    pub status: VolumeStatus,
    pub leftovers: bool,
    pub busy: bool,
}

impl View for Volume {
    type V = VolumeView;

    open spec fn view(&self) -> VolumeView {
        VolumeView {
            path: text_of(self.path),
            repo: self.repo@,
            containers: self.containers@,
            status: self.status,
            leftovers: self.leftovers,
            busy: self.busy,
        }
    }
}

/// What stands for `c` in the name of a directory. The characters that a path
/// component cannot hold, and the one that marks them, become codes.
pub open spec fn escape(c: char) -> Seq<char> {
    if c == '%' {
        "%25"@
    } else if c == '/' {
        "%2F"@
    } else if c == '\0' {
        "%00"@
    } else {
        seq![c]
    }
}

/// What stands for `name`, character by character.
pub open spec fn escaped(name: Seq<char>) -> Seq<char>
    decreases name.len(),
{
    if name.len() == 0 {
        Seq::empty()
    } else {
        escape(name[0]) + escaped(name.skip(1))
    }
}

/// The path component that stands for `name`. It never begins with a dot, so it
/// is neither the directory it is in nor the one above.
pub open spec fn component(name: Seq<char>) -> Seq<char> {
    if name.len() > 0 && name[0] == '.' {
        "%2E"@ + escaped(name.skip(1))
    } else {
        escaped(name)
    }
}

/// `text` is the name of an entry of a directory: one path component, which is
/// neither the directory itself nor the one above.
pub open spec fn entry_name(text: Seq<char>) -> bool {
    &&& text.len() > 0
    &&& text[0] != '.'
    &&& !text.contains('/')
    &&& !text.contains('\0')
}

/// What comes before the entries of `base_path`: a separator after it, unless it
/// is empty, which is the current directory, or ends in one.
pub open spec fn prefix(base_path: Seq<char>) -> Seq<char> {
    if base_path.len() == 0 || base_path.last() == '/' {
        base_path
    } else {
        base_path + "/"@
    }
}

/// The directory of the volume `name`: an entry of `base_path`.
pub open spec fn directory(base_path: Seq<char>, name: Seq<char>) -> Seq<char> {
    prefix(base_path) + component(name)
}

/// Adds what stands for the character of `name` at `i`.
fn push_escaped(text: &mut String, name: &str, i: usize)
    requires
        i < name@.len(),
        i < usize::MAX,
    ensures
        final(text)@ == old(text)@ + escape(name@[i as int]),
{
    let c = name.get_char(i);
    if c == '%' {
        text.append("%25");
    } else if c == '/' {
        text.append("%2F");
    } else if c == '\0' {
        text.append("%00");
    } else {
        let own = name.substring_char(i, i + 1);
        assert(own@ =~= seq![c]);
        text.append(own);
    }
}

/// The path component that stands for `name`.
pub fn component_of(name: &str) -> (res: String)
    ensures
        res@ == component(name@),
{
    let len: usize = name.unicode_len();
    let mut res: String = String::new();
    let mut i: usize = 0;
    if len > 0 && name.get_char(0) == '.' {
        res.append("%2E");
        i = 1;
        assert(res@ =~= "%2E"@);
    } else {
        assert(name@.skip(0) =~= name@);
    }
    while i < len
        invariant
            len == name@.len(),
            i <= len,
            res@ + escaped(name@.skip(i as int)) =~= component(name@),
        decreases len - i,
    {
        assert(name@.skip(i as int).skip(1) =~= name@.skip(i + 1));
        push_escaped(&mut res, name, i);
        i += 1;
    }
    res
}

/// The directory of the volume `name`: an entry of `base_path`.
pub fn directory_of(base_path: &str, name: &str) -> (res: String)
    ensures
        res@ == directory(base_path@, name@),
{
    let len: usize = base_path.unicode_len();
    let mut res: String = base_path.to_owned();
    if len > 0 && base_path.get_char(len - 1) != '/' {
        res.append("/");
    }
    res.append(component_of(name).as_str());
    res
}

impl VolumeView {
    /// A volume that has just been created.
    pub open spec fn created(repo: RepoView) -> VolumeView {
        VolumeView {
            path: None,
            repo,
            containers: Set::empty(),
            status: VolumeStatus::Created,
            leftovers: false,
            busy: false,
        }
    }

    /// The volume with its clone at `path`, or, without a path, with nothing in
    /// its directory.
    pub open spec fn at(self, path: Option<Seq<char>>) -> VolumeView {
        VolumeView { path, leftovers: false, ..self }
    }

    /// The volume when there may be anything in its directory.
    pub open spec fn with_leftovers(self) -> VolumeView {
        VolumeView { leftovers: true, ..self }
    }

    /// The volume with an operation under way on it, or without one.
    pub open spec fn held(self, busy: bool) -> VolumeView {
        VolumeView { busy, ..self }
    }

    /// The path at which the volume `name` may have anything.
    pub open spec fn occupied(self, base_path: Seq<char>, name: Seq<char>) -> Option<Seq<char>> {
        if self.path is None && self.leftovers {
            Some(directory(base_path, name))
        } else {
            self.path
        }
    }

    /// The volume with the container `id` on it.
    pub open spec fn attached(self, id: Seq<char>) -> VolumeView {
        VolumeView { containers: self.containers.insert(id), ..self }
    }

    /// The volume without the container `id`.
    pub open spec fn detached(self, id: Seq<char>) -> VolumeView {
        VolumeView { containers: self.containers.remove(id), ..self }
    }

    /// The volume in another status.
    pub open spec fn in_status(self, status: VolumeStatus) -> VolumeView {
        VolumeView { status, ..self }
    }

    /// What holds of the volume `name` under `base_path` at all times:
    /// its options are good, its clone can only be in its own directory, where
    /// there are no leftovers then, it has none before a clone has gone well,
    /// no container holds a volume without a directory, and none is `Clonned`
    /// that no container holds.
    pub open spec fn valid(self, base_path: Seq<char>, name: Seq<char>) -> bool {
        &&& self.repo.valid()
        &&& self.path matches Some(path) ==> path == directory(base_path, name)
        &&& self.path is Some ==> !self.leftovers
        &&& self.status == VolumeStatus::Created ==> self.path is None
        &&& self.containers != Set::<Seq<char>>::empty() ==> self.path is Some
        &&& self.status == VolumeStatus::Clonned ==> self.containers != Set::<Seq<char>>::empty()
    }
}

impl Volume {
    /// A volume that has just been created.
    pub fn new(name: &str, repo: Repo) -> (res: Volume)
        ensures
            res.name@ == name@,
            res@ == VolumeView::created(repo@),
    {
        Volume {
            name: name.to_owned(),
            path: None,
            repo,
            containers: StringHashSet::new(),
            status: VolumeStatus::Created,
            leftovers: false,
            busy: false,
        }
    }

    /// Gives the volume its directory under `base_path`, and returns it.
    pub fn create_path_from(&mut self, base_path: &str) -> (res: String)
        ensures
            final(self).name == old(self).name,
            res@ == directory(base_path@, old(self).name@),
            final(self)@ == old(self)@.at(Some(res@)),
    {
        let path = directory_of(base_path, self.name.as_str());
        self.path = Some(path.clone());
        self.leftovers = false;
        path
    }

    /// The path below `base_path` at which the volume may have anything.
    pub fn occupied_path(&self, base_path: &str) -> (res: Option<String>)
        ensures
            text_of(res) == self@.occupied(base_path@, self.name@),
    {
        match &self.path {
            Some(path) => Some(path.clone()),
            None => if self.leftovers {
                Some(directory_of(base_path, self.name.as_str()))
            } else {
                None
            },
        }
    }

    /// Takes its directory from the volume: there is nothing in it any longer.
    pub fn vacate(&mut self)
        ensures
            final(self).name == old(self).name,
            final(self)@ == old(self)@.at(None),
    {
        self.path = None;
        self.leftovers = false;
    }

    /// Puts the container `id` on the volume.
    pub fn attach(&mut self, id: &str)
        ensures
            final(self).name == old(self).name,
            final(self)@ == old(self)@.attached(id@),
    {
        self.containers.insert(id.to_owned());
    }

    /// Takes the container `id` off the volume.
    pub fn detach(&mut self, id: &str)
        ensures
            final(self).name == old(self).name,
            final(self)@ == old(self)@.detached(id@),
    {
        self.containers.remove(id);
    }
}

} // verus!

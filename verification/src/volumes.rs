//! The store of volumes, each under its name.

use crate::repo::{checked, no_options, RawRepo, RawRepoView, Repo, RepoError, RepoErrorView};
use crate::text::{blank, is_blank};
use crate::volume::{Volume, VolumeView};
use vstd::prelude::*;
use vstd::string::StringExecFns;

verus! {

/// Why the store refuses a request.
#[derive(Debug)]
pub enum VolumesError {
    /// No volume has the name given here.
    NonExists(String),
    /// Another volume has the name given here already.
    AlreadyExists(String),
    /// The name is blank.
    EmptyName,
    /// The options are not good.
    Repo(RepoError),
}

/// A `VolumesError` with its text.
pub enum VolumesErrorView {
    NonExists(Seq<char>),
    AlreadyExists(Seq<char>),
    EmptyName,
    Repo(RepoErrorView),
}

impl View for VolumesError {
    type V = VolumesErrorView;

    open spec fn view(&self) -> VolumesErrorView {
        match self {
            VolumesError::NonExists(name) => VolumesErrorView::NonExists(name@),
            VolumesError::AlreadyExists(name) => VolumesErrorView::AlreadyExists(name@),
            VolumesError::EmptyName => VolumesErrorView::EmptyName,
            VolumesError::Repo(error) => VolumesErrorView::Repo(error@),
        }
    }
}

impl VolumesErrorView {
    /// The error in words.
    pub open spec fn text(self) -> Seq<char> {
        match self {
            VolumesErrorView::NonExists(name) => "Volume named "@ + name + " not found"@,
            VolumesErrorView::AlreadyExists(name) => "Volume named "@ + name + " already exists"@,
            VolumesErrorView::EmptyName => "The volume name is empty"@,
            VolumesErrorView::Repo(error) => error.text(),
        }
    }
}

impl VolumesError {
    /// The error in words.
    pub fn message(&self) -> (res: String)
        ensures
            res@ == self@.text(),
    {
        match self {
            VolumesError::NonExists(name) => "Volume named ".to_owned().concat(
                name.as_str(),
            ).concat(" not found"),
            VolumesError::AlreadyExists(name) => "Volume named ".to_owned().concat(
                name.as_str(),
            ).concat(" already exists"),
            VolumesError::EmptyName => "The volume name is empty".to_owned(),
            VolumesError::Repo(error) => error.message(),
        }
    }
}

/// Volumes by their names.
pub type VolumeMap = Map<Seq<char>, VolumeView>;

/// The options that a volume is created with.
pub open spec fn options_of(opts: Option<RawRepo>) -> RawRepoView {
    match opts {
        Some(raw) => raw@,
        None => no_options(),
    }
}

/// The store once a volume has been created in it, or why it is refused.
pub open spec fn with_created(volumes: VolumeMap, name: Seq<char>, opts: RawRepoView) -> Result<
    VolumeMap,
    VolumesErrorView,
> {
    if blank(name) {
        Err(VolumesErrorView::EmptyName)
    } else if volumes.contains_key(name) {
        Err(VolumesErrorView::AlreadyExists(name))
    } else {
        match checked(opts) {
            Ok(repo) => Ok(volumes.insert(name, VolumeView::created(repo))),
            Err(error) => Err(VolumesErrorView::Repo(error)),
        }
    }
}

/// `items` are the volumes of the store, each once.
pub open spec fn complete(items: Seq<Volume>, volumes: VolumeMap) -> bool {
    &&& forall|i: int|
        0 <= i < items.len() ==> {
            &&& volumes.contains_key((#[trigger] items[i]).name@)
            &&& volumes[items[i].name@] == items[i]@
        }
    &&& forall|i: int, j: int|
        0 <= i < items.len() && 0 <= j < items.len() && (#[trigger] items[i]).name@ == (
        #[trigger] items[j]).name@ ==> i == j
    &&& forall|name: Seq<char>| #[trigger]
        volumes.contains_key(name) ==> exists|i: int|
            0 <= i < items.len() && (#[trigger] items[i]).name@ == name
}

/// The store of volumes.
pub struct Volumes {
    items: Vec<Volume>,
}

/// One of `items` is called `name`.
spec fn named(items: Seq<Volume>, name: Seq<char>) -> bool {
    exists|i: int| 0 <= i < items.len() && (#[trigger] items[i]).name@ == name
}

/// Where the volume `name` is among `items`.
spec fn position(items: Seq<Volume>, name: Seq<char>) -> int {
    choose|i: int| 0 <= i < items.len() && (#[trigger] items[i]).name@ == name
}

/// No two of `items` share a name.
spec fn distinct(items: Seq<Volume>) -> bool {
    forall|i: int, j: int|
        0 <= i < items.len() && 0 <= j < items.len() && (#[trigger] items[i]).name@ == (
        #[trigger] items[j]).name@ ==> i == j
}

/// `items` by their names.
spec fn by_name(items: Seq<Volume>) -> VolumeMap {
    Map::new(|name: Seq<char>| named(items, name), |name: Seq<char>| items[position(items, name)]@)
}

impl View for Volumes {
    type V = VolumeMap;

    closed spec fn view(&self) -> VolumeMap {
        by_name(self.items@)
    }
}

proof fn lemma_lookup(items: Seq<Volume>, i: int)
    requires
        distinct(items),
        0 <= i < items.len(),
    ensures
        by_name(items).contains_key(items[i].name@),
        by_name(items)[items[i].name@] == items[i]@,
{
    assert(named(items, items[i].name@));
    assert(position(items, items[i].name@) == i);
}

proof fn lemma_update(items: Seq<Volume>, i: int, volume: Volume)
    requires
        distinct(items),
        0 <= i < items.len(),
        volume.name@ == items[i].name@,
    ensures
        distinct(items.update(i, volume)),
        by_name(items.update(i, volume)) == by_name(items).insert(volume.name@, volume@),
{
    let updated = items.update(i, volume);
    let expected = by_name(items).insert(volume.name@, volume@);
    assert forall|name: Seq<char>| named(updated, name) == #[trigger] expected.contains_key(name) by {
        if named(items, name) {
            assert(updated[position(items, name)].name@ == name);
        }
        if name == volume.name@ {
            assert(updated[i].name@ == name);
        }
        if named(updated, name) {
            assert(items[position(updated, name)].name@ == name);
        }
    }
    assert forall|name: Seq<char>| #[trigger] expected.contains_key(name) implies by_name(
        updated,
    )[name] == expected[name] by {
        let k = position(updated, name);
        assert(named(updated, name));
        lemma_lookup(items, k);
    }
    assert(by_name(updated) =~= expected);
}

proof fn lemma_push(items: Seq<Volume>, volume: Volume)
    requires
        distinct(items),
        !named(items, volume.name@),
    ensures
        distinct(items.push(volume)),
        by_name(items.push(volume)) == by_name(items).insert(volume.name@, volume@),
{
    let pushed = items.push(volume);
    let expected = by_name(items).insert(volume.name@, volume@);
    assert forall|i: int, j: int|
        0 <= i < pushed.len() && 0 <= j < pushed.len() && (#[trigger] pushed[i]).name@ == (
        #[trigger] pushed[j]).name@ implies i == j by {
        if i < items.len() {
            assert(pushed[i] == items[i]);
        }
        if j < items.len() {
            assert(pushed[j] == items[j]);
        }
    }
    assert forall|name: Seq<char>| named(pushed, name) == #[trigger] expected.contains_key(name) by {
        if named(items, name) {
            assert(pushed[position(items, name)].name@ == name);
        }
        assert(pushed[items.len() as int].name@ == volume.name@);
        if named(pushed, name) && name != volume.name@ {
            assert(items[position(pushed, name)].name@ == name);
        }
    }
    assert forall|name: Seq<char>| #[trigger] expected.contains_key(name) implies by_name(
        pushed,
    )[name] == expected[name] by {
        let k = position(pushed, name);
        assert(named(pushed, name));
        if k < items.len() {
            lemma_lookup(items, k);
            assert(pushed[k] == items[k]);
        }
    }
    assert(by_name(pushed) =~= expected);
}

proof fn lemma_remove(items: Seq<Volume>, i: int)
    requires
        distinct(items),
        0 <= i < items.len(),
    ensures
        distinct(items.remove(i)),
        by_name(items.remove(i)) == by_name(items).remove(items[i].name@),
{
    let removed = items.remove(i);
    let expected = by_name(items).remove(items[i].name@);
    let back = |k: int| if k < i { k } else { k + 1 };
    assert forall|k: int| 0 <= k < removed.len() implies #[trigger] removed[k] == items[back(k)] by {}
    assert forall|name: Seq<char>| named(removed, name) == #[trigger] expected.contains_key(name) by {
        if named(items, name) && name != items[i].name@ {
            let k = position(items, name);
            assert(removed[if k < i { k } else { k - 1 }].name@ == name);
        }
        if named(removed, name) {
            let k = position(removed, name);
            assert(items[back(k)].name@ == name);
        }
    }
    assert forall|name: Seq<char>| #[trigger] expected.contains_key(name) implies by_name(
        removed,
    )[name] == expected[name] by {
        let k = position(removed, name);
        assert(named(removed, name));
        lemma_lookup(items, back(k));
    }
    assert(by_name(removed) =~= expected);
}

impl Volumes {
    /// No two volumes share a name.
    pub closed spec fn wf(&self) -> bool {
        distinct(self.items@)
    }

    /// An empty store.
    pub fn new() -> (res: Volumes)
        ensures
            res.wf(),
            res@ == Map::<Seq<char>, VolumeView>::empty(),
    {
        let res = Volumes { items: Vec::new() };
        assert(res@ =~= Map::empty());
        res
    }

    fn find(&self, name: &str) -> (res: Option<usize>)
        ensures
            match res {
                Some(i) => i < self.items@.len() && self.items@[i as int].name@ == name@,
                None => !named(self.items@, name@),
            },
    {
        let wanted: String = name.to_owned();
        let mut i: usize = 0;
        while i < self.items.len()
            invariant
                wanted@ == name@,
                forall|j: int| 0 <= j < i ==> (#[trigger] self.items@[j]).name@ != name@,
            decreases self.items@.len() - i,
        {
            if self.items[i].name == wanted {
                return Some(i);
            }
            i += 1;
        }
        None
    }

    /// The volume `name`, to read.
    pub fn read(&self, name: &str) -> (res: Option<&Volume>)
        requires
            self.wf(),
        ensures
            match res {
                Some(volume) => {
                    &&& self@.contains_key(name@)
                    &&& volume@ == self@[name@]
                    &&& volume.name@ == name@
                },
                None => !self@.contains_key(name@),
            },
    {
        match self.find(name) {
            Some(i) => {
                proof {
                    lemma_lookup(self.items@, i as int);
                }
                Some(&self.items[i])
            },
            None => None,
        }
    }

    /// The volume `name`, to read, or the error that there is none.
    pub fn try_read(&self, name: &str) -> (res: Result<&Volume, VolumesError>)
        requires
            self.wf(),
        ensures
            match res {
                Ok(volume) => {
                    &&& self@.contains_key(name@)
                    &&& volume@ == self@[name@]
                    &&& volume.name@ == name@
                },
                Err(error) => {
                    &&& !self@.contains_key(name@)
                    &&& error@ == VolumesErrorView::NonExists(name@)
                },
            },
    {
        match self.read(name) {
            Some(volume) => Ok(volume),
            None => Err(VolumesError::NonExists(name.to_owned())),
        }
    }

    /// The volume `name`, to change anything but its name.
    pub fn write(&mut self, name: &str) -> (res: Option<&mut Volume>)
        requires
            old(self).wf(),
        ensures
            match res {
                Some(volume) => {
                    &&& old(self)@.contains_key(name@)
                    &&& volume@ == old(self)@[name@]
                    &&& volume.name@ == name@
                    &&& final(volume).name@ == name@ ==> {
                        &&& final(self).wf()
                        &&& final(self)@ == old(self)@.insert(name@, final(volume)@)
                    }
                },
                None => {
                    &&& !old(self)@.contains_key(name@)
                    &&& *final(self) == *old(self)
                },
            },
    {
        match self.find(name) {
            Some(i) => {
                let ghost items = self.items@;
                proof {
                    lemma_lookup(items, i as int);
                    assert forall|volume: Volume| volume.name@ == name@ implies {
                        &&& distinct(#[trigger] items.update(i as int, volume))
                        &&& by_name(items.update(i as int, volume)) == by_name(items).insert(
                            name@,
                            volume@,
                        )
                    } by {
                        lemma_update(items, i as int, volume);
                    }
                }
                Some(&mut self.items[i])
            },
            None => None,
        }
    }

    /// The volume `name`, to change anything but its name, or the error that
    /// there is none.
    pub fn try_write(&mut self, name: &str) -> (res: Result<&mut Volume, VolumesError>)
        requires
            old(self).wf(),
        ensures
            match res {
                Ok(volume) => {
                    &&& old(self)@.contains_key(name@)
                    &&& volume@ == old(self)@[name@]
                    &&& volume.name@ == name@
                    &&& final(volume).name@ == name@ ==> {
                        &&& final(self).wf()
                        &&& final(self)@ == old(self)@.insert(name@, final(volume)@)
                    }
                },
                Err(error) => {
                    &&& !old(self)@.contains_key(name@)
                    &&& error@ == VolumesErrorView::NonExists(name@)
                    &&& *final(self) == *old(self)
                },
            },
    {
        match self.write(name) {
            Some(volume) => Ok(volume),
            None => Err(VolumesError::NonExists(name.to_owned())),
        }
    }

    /// All volumes, each once, in no order that counts.
    pub fn read_all(&self) -> (res: &Vec<Volume>)
        requires
            self.wf(),
        ensures
            complete(res@, self@),
    {
        proof {
            assert forall|i: int| 0 <= i < self.items@.len() implies {
                &&& self@.contains_key((#[trigger] self.items@[i]).name@)
                &&& self@[self.items@[i].name@] == self.items@[i]@
            } by {
                lemma_lookup(self.items@, i);
            }
        }
        &self.items
    }

    /// Creates a volume.
    pub fn create(&mut self, name: &str, opts: Option<RawRepo>) -> (res: Result<(), VolumesError>)
        requires
            old(self).wf(),
        ensures
            final(self).wf(),
            match with_created(old(self)@, name@, options_of(opts)) {
                Ok(volumes) => res is Ok && final(self)@ == volumes,
                Err(error) => {
                    &&& res matches Err(e) && e@ == error
                    &&& final(self)@ == old(self)@
                },
            },
    {
        if is_blank(name) {
            return Err(VolumesError::EmptyName);
        }
        if self.find(name).is_some() {
            proof {
                let i = choose|i: int|
                    0 <= i < self.items@.len() && (#[trigger] self.items@[i]).name@ == name@;
                lemma_lookup(self.items@, i);
            }
            return Err(VolumesError::AlreadyExists(name.to_owned()));
        }
        let raw = match opts {
            Some(raw) => raw,
            None => RawRepo::default(),
        };
        match Repo::check(raw) {
            Ok(repo) => {
                let volume = Volume::new(name, repo);
                proof {
                    lemma_push(self.items@, volume);
                }
                self.items.push(volume);
                Ok(())
            },
            Err(error) => Err(VolumesError::Repo(error)),
        }
    }

    /// Takes the volume `name` out of the store.
    pub fn remove(&mut self, name: &str) -> (res: Option<Volume>)
        requires
            old(self).wf(),
        ensures
            final(self).wf(),
            final(self)@ == old(self)@.remove(name@),
            match res {
                Some(volume) => {
                    &&& old(self)@.contains_key(name@)
                    &&& volume@ == old(self)@[name@]
                    &&& volume.name@ == name@
                },
                None => !old(self)@.contains_key(name@),
            },
    {
        match self.find(name) {
            Some(i) => {
                proof {
                    lemma_lookup(self.items@, i as int);
                    lemma_remove(self.items@, i as int);
                }
                Some(self.items.remove(i))
            },
            None => {
                assert(self@.remove(name@) =~= self@);
                None
            },
        }
    }
}

} // verus!

//! What the driver answers about volumes.

use crate::text::text_of;
use crate::volumes::VolumeMap;
use vstd::prelude::*;

verus! {

/// A volume in a list.
#[derive(Debug, PartialEq, Eq)]
pub struct ItemVolume {
    /// The name of the volume.
    pub name: String,
    /// The directory of its clone, once there is one.
    pub mountpoint: Option<String>,
}

/// What is known of one volume.
#[derive(Debug, PartialEq, Eq)]
pub struct VolumeInfo<S> {
    /// The directory of its clone, once there is one.
    pub mountpoint: Option<String>,
    /// What the driver has to say about it.
    pub status: S,
}

/// `items` names each of `volumes` once, with its directory.
pub open spec fn listing(items: Seq<ItemVolume>, volumes: VolumeMap) -> bool {
    &&& forall|i: int|
        0 <= i < items.len() ==> {
            &&& volumes.contains_key((#[trigger] items[i]).name@)
            &&& text_of(items[i].mountpoint) == volumes[items[i].name@].path
        }
    &&& forall|i: int, j: int|
        0 <= i < items.len() && 0 <= j < items.len() && (#[trigger] items[i]).name@ == (
        #[trigger] items[j]).name@ ==> i == j
    &&& forall|name: Seq<char>| #[trigger]
        volumes.contains_key(name) ==> exists|i: int|
            0 <= i < items.len() && (#[trigger] items[i]).name@ == name
}

} // verus!

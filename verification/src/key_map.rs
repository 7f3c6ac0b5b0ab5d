use vstd::prelude::*;
use crate::key::Key;
use crate::key_property::KeyProperty;

verus! {

/// The numbers of the indicators among the first `count` that are bound to
/// `key`, in rising order.
pub open spec fn bound_indices(key_properties: Seq<KeyProperty>, key: Key, count: int) -> Seq<
    usize,
>
    decreases count,
{
    if count <= 0 {
        Seq::empty()
    } else {
        let before = bound_indices(key_properties, key, count - 1);
        if key_properties[count - 1].key_bind == key {
            before.push((count - 1) as usize)
        } else {
            before
        }
    }
}

/// The numbers of the indicators that `key` drives, in rising order.
/// `Key::Unknown` drives none: an indicator bound to it is bound to no key.
pub open spec fn key_indices(key_properties: Seq<KeyProperty>, key: Key) -> Seq<usize> {
    if key == Key::Unknown {
        Seq::empty()
    } else {
        bound_indices(key_properties, key, key_properties.len() as int)
    }
}

/// The numbers that `bound_indices` lists rise strictly, each is the number
/// of an indicator bound to the key, and no such indicator is missing.
pub proof fn lemma_bound_indices(key_properties: Seq<KeyProperty>, key: Key, count: int)
    requires
        0 <= count <= key_properties.len() <= usize::MAX,
    ensures
        ({
            let indices = bound_indices(key_properties, key, count);
            &&& indices.len() <= count
            &&& forall|a: int, b: int|
                0 <= a < b < indices.len() ==> #[trigger] indices[a] < #[trigger] indices[b]
            &&& forall|a: int|
                0 <= a < indices.len() ==> (#[trigger] indices[a]) < count
                    && key_properties[indices[a] as int].key_bind == key
            &&& forall|i: int|
                0 <= i < count && (#[trigger] key_properties[i]).key_bind == key
                    ==> indices.contains(i as usize)
        }),
    decreases count,
{
    if count > 0 {
        lemma_bound_indices(key_properties, key, count - 1);
        let before = bound_indices(key_properties, key, count - 1);
        let indices = bound_indices(key_properties, key, count);
        if key_properties[count - 1].key_bind == key {
            assert(indices[before.len() as int] == (count - 1) as usize);
            assert forall|i: int|
                0 <= i < count && (#[trigger] key_properties[i]).key_bind
                    == key implies indices.contains(i as usize) by {
                if i < count - 1 {
                    let a = choose|a: int| 0 <= a < before.len() && before[a] == i as usize;
                    assert(indices[a] == i as usize);
                }
            }
        }
    }
}

/// What `key_indices` lists: the numbers of the indicators bound to the
/// key, each once, in rising order; nothing for `Key::Unknown`.
pub proof fn lemma_key_indices(key_properties: Seq<KeyProperty>, key: Key)
    requires
        key_properties.len() <= usize::MAX,
    ensures
        ({
            let indices = key_indices(key_properties, key);
            &&& indices.len() <= key_properties.len()
            &&& forall|a: int, b: int|
                0 <= a < b < indices.len() ==> #[trigger] indices[a] < #[trigger] indices[b]
            &&& forall|a: int|
                0 <= a < indices.len() ==> (#[trigger] indices[a]) < key_properties.len()
                    && key_properties[indices[a] as int].key_bind == key
            &&& forall|i: int|
                0 <= i < key_properties.len() && (#[trigger] key_properties[i]).key_bind == key
                    && key != Key::Unknown ==> indices.contains(i as usize)
        }),
{
    if key != Key::Unknown {
        lemma_bound_indices(key_properties, key, key_properties.len() as int);
    }
}

/// The table from a key to the indicators that it drives.
#[derive(Debug)]
pub struct KeyMap {
    map: Vec<Vec<usize>>,
}

impl KeyMap {
    /// The number of keys that an indicator can be bound to: all but
    /// `Key::Unknown`.
    pub const CAP: usize = 110;

    /// The numbers that the table lists for `key`.
    pub closed spec fn spec_get(&self, key: Key) -> Seq<usize> {
        if key.spec_index() < self.map@.len() {
            self.map@[key.spec_index() as int]@
        } else {
            Seq::empty()
        }
    }

    /// Whether the table is the one of these indicators: for each key it
    /// lists the indicators that the key drives, in rising order.
    pub open spec fn maps(&self, key_properties: Seq<KeyProperty>) -> bool {
        forall|key: Key| #[trigger] self.spec_get(key) == key_indices(key_properties, key)
    }

    pub fn new(key_properties: &[KeyProperty]) -> (key_map: Self)
        ensures
            key_map.maps(key_properties@),
    {
        let mut map: Vec<Vec<usize>> = Vec::with_capacity(Self::CAP);
        while map.len() < Self::CAP
            invariant
                map@.len() <= Self::CAP,
                forall|slot: int| 0 <= slot < map@.len() ==> (#[trigger] map@[slot])@.len() == 0,
            decreases Self::CAP - map@.len(),
        {
            map.push(Vec::new());
        }
        let mut index: usize = 0;
        while index < key_properties.len()
            invariant
                index <= key_properties@.len(),
                map@.len() == Self::CAP,
                forall|slot: int|
                    0 <= slot < Self::CAP ==> (#[trigger] map@[slot])@ == bound_indices(
                        key_properties@,
                        Key::spec_from_index(slot as nat),
                        index as int,
                    ),
            decreases key_properties@.len() - index,
        {
            let key = key_properties[index].key_bind;
            let key_slot = key.index();
            if key_slot < Self::CAP {
                map[key_slot].push(index);
            }
            proof {
                key.lemma_index();
            }
            index = index + 1;
        }
        Self { map }
    }

    /// The indicators that `key` drives, in rising order; `None` where it
    /// drives none.
    pub fn get(&self, key: Key) -> (indexes: Option<&[usize]>)
        ensures
            match indexes {
                Some(indexes) => indexes@.len() > 0 && indexes@ == self.spec_get(key),
                None => self.spec_get(key).len() == 0,
            },
    {
        let key_slot = key.index();
        if key_slot < self.map.len() {
            let indexes = &self.map[key_slot];
            if indexes.len() > 0 {
                Some(indexes.as_slice())
            } else {
                None
            }
        } else {
            None
        }
    }
}

} // verus!

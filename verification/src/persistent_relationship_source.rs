use crate::entity::Entity;
use vstd::prelude::*;
use vstd::relations::{sorted_by, total_ordering};
use vstd::seq_lib::lemma_sorted_unique;

verus! {

/// An ordered collection of entities that never reports itself empty.
///
/// It backs the list of texts that use a font collection. A host that drops
/// such a list as soon as the list says it is empty would take the
/// collection's defaults down with it, so `is_empty` answers `false` whatever
/// the length is. This is meant, and it is the only way in which the
/// collection differs from a vector: its view is the sequence of its items,
/// and every other operation does to that sequence what it does to a vector.
#[derive(Clone, Debug, PartialEq, Eq)]
pub struct NeverEmptyVec<T>(Vec<T>);

impl<T> View for NeverEmptyVec<T> {
    type V = Seq<T>;

    closed spec fn view(&self) -> Seq<T> {
        self.0@
    }
}

impl<T> Default for NeverEmptyVec<T> {
    fn default() -> (collection: Self)
        ensures
            collection@ == Seq::<T>::empty(),
    {
        Self(Vec::new())
    }
}

/// The sequence after an insertion that may reorder: `value` takes the place
/// at `index` and what stood there goes to the end; an `index` at or past the
/// end appends.
pub open spec fn swap_insert<T>(items: Seq<T>, index: int, value: T) -> Seq<T> {
    if 0 <= index < items.len() {
        items.update(index, value).push(items[index])
    } else {
        items.push(value)
    }
}

/// The sequence after a removal that may reorder: the last item takes the
/// place at `index`.
pub open spec fn swap_remove<T>(items: Seq<T>, index: int) -> Seq<T>
    recommends
        0 <= index < items.len(),
{
    items.update(index, items.last()).drop_last()
}

/// Whether the entities stand in ascending order.
pub open spec fn is_sorted(entities: Seq<Entity>) -> bool {
    forall|i: int, j: int| 0 <= i < j < entities.len() ==> entities[i] <= entities[j]
}

/// Whether `index` is a place at which `entity` can go in without standing
/// before a smaller neighbour or after a greater one: what is just before it
/// is at most `entity`, what is at it is greater. In a sorted sequence there
/// is one such place, after every entity that is at most `entity`.
pub open spec fn is_partition_point(entities: Seq<Entity>, entity: Entity, index: int) -> bool {
    &&& 0 <= index <= entities.len()
    &&& index > 0 ==> entities[index - 1] <= entity
    &&& index < entities.len() ==> entities[index] > entity
}

/// The place that a search by halving finds for `entity` between `low` and
/// `high`: the middle entity is looked at, and the search goes on to its right
/// where it is at most `entity`, to its left where it is greater. In a sorted
/// sequence this is the one place that `is_partition_point` accepts; in any
/// sequence it is one of them.
pub open spec fn halving_point(entities: Seq<Entity>, entity: Entity, low: int, high: int) -> int
    decreases high - low,
{
    if low >= high {
        low
    } else {
        let middle = low + (high - low) / 2;
        if entities[middle] <= entity {
            halving_point(entities, entity, middle + 1, high)
        } else {
            halving_point(entities, entity, low, middle)
        }
    }
}

/// The place at which `insert_sorted` puts `entity`.
pub open spec fn sorted_place(entities: Seq<Entity>, entity: Entity) -> int {
    halving_point(entities, entity, 0, entities.len() as int)
}

/// The machine's limit on a vector of entities: its storage, eight bytes an
/// entity, has to fit in `isize::MAX` bytes.
pub open spec fn fits_in_memory(entities: int) -> bool {
    entities * 8 <= isize::MAX
}

/// Calls `Vec::shrink_to_fit`. Taken on trust, not proved: the call gives
/// spare capacity back and leaves the items and their order as they are.
#[verifier::external_body]
fn shrink_to_fit(entities: &mut Vec<Entity>)
    ensures
        final(entities)@ == old(entities)@,
{
    entities.shrink_to_fit();
}

/// Calls `sort_unstable` of the slice of entities. Taken on trust, not proved:
/// afterwards the entities stand in ascending order, and each occurs as often
/// as before. Equal integers cannot be told apart, so that the sort is not
/// stable shows nowhere.
#[verifier::external_body]
fn sort_unstable(entities: &mut Vec<Entity>)
    ensures
        is_sorted(final(entities)@),
        final(entities)@.to_multiset() == old(entities)@.to_multiset(),
{
    entities.sort_unstable();
}

/// In a sorted sequence, the place that `is_partition_point` describes has
/// everything at most `entity` before it and everything greater from it on, so
/// an insertion there keeps the order.
pub proof fn lemma_insert_at_partition_point_keeps_sorted(
    entities: Seq<Entity>,
    entity: Entity,
    index: int,
)
    requires
        is_sorted(entities),
        is_partition_point(entities, entity, index),
    ensures
        is_sorted(entities.insert(index, entity)),
        forall|other: int|
            is_partition_point(entities, entity, other) ==> other == index,
{
    let inserted = entities.insert(index, entity);
    assert forall|i: int, j: int| 0 <= i < j < inserted.len() implies inserted[i] <= inserted[j] by {
        if j < index {
            assert(inserted[i] == entities[i] && inserted[j] == entities[j]);
        } else if j == index {
            assert(inserted[i] == entities[i]);
            assert(entities[i] <= entities[index - 1]);
        } else if i < index {
            assert(inserted[i] == entities[i] && inserted[j] == entities[j - 1]);
        } else if i == index {
            assert(inserted[j] == entities[j - 1]);
            assert(entities[index] <= entities[j - 1]);
        } else {
            assert(inserted[i] == entities[i - 1] && inserted[j] == entities[j - 1]);
        }
    }
    assert forall|other: int| is_partition_point(entities, entity, other) implies other
        == index by {
        if other < index {
            assert(entities[other] <= entities[index - 1]);
        } else if index < other {
            assert(entities[index] <= entities[other - 1]);
        }
    }
}

/// A search by halving ends at a place that `is_partition_point` accepts,
/// whatever the order of the entities: it starts between a neighbour to the
/// left that is at most `entity`, if there is one, and a neighbour to the
/// right that is greater, if there is one, and every step keeps it there.
pub proof fn lemma_halving_point_is_partition_point(
    entities: Seq<Entity>,
    entity: Entity,
    low: int,
    high: int,
)
    requires
        0 <= low <= high <= entities.len(),
        low > 0 ==> entities[low - 1] <= entity,
        high < entities.len() ==> entities[high] > entity,
    ensures
        is_partition_point(entities, entity, halving_point(entities, entity, low, high)),
    decreases high - low,
{
    if low < high {
        let middle = low + (high - low) / 2;
        if entities[middle] <= entity {
            lemma_halving_point_is_partition_point(entities, entity, middle + 1, high);
        } else {
            lemma_halving_point_is_partition_point(entities, entity, low, middle);
        }
    }
}

/// Sorting leaves no choice: two sorted sequences of the same entities, each
/// as often in the one as in the other, are the same sequence.
pub proof fn lemma_sorted_is_determined(left: Seq<Entity>, right: Seq<Entity>)
    requires
        is_sorted(left),
        is_sorted(right),
        left.to_multiset() == right.to_multiset(),
    ensures
        left == right,
{
    let at_most = |a: Entity, b: Entity| a <= b;
    assert(sorted_by(left, at_most));
    assert(sorted_by(right, at_most));
    assert(total_ordering(at_most));
    lemma_sorted_unique(left, right, at_most);
}

impl NeverEmptyVec<Entity> {
    /// An empty collection.
    pub fn new() -> (collection: Self)
        ensures
            collection@ == Seq::<Entity>::empty(),
    {
        Self(Vec::new())
    }

    /// Makes room for `additional` more entities. The entities stay as they
    /// are.
    pub fn reserve(&mut self, additional: usize)
        requires
            fits_in_memory(old(self)@.len() + additional),
        ensures
            final(self)@ == old(self)@,
    {
        self.0.reserve(additional);
    }

    /// An empty collection with room for `capacity` entities.
    pub fn with_capacity(capacity: usize) -> (collection: Self)
        requires
            fits_in_memory(capacity as int),
        ensures
            collection@ == Seq::<Entity>::empty(),
    {
        Self(Vec::with_capacity(capacity))
    }

    /// Whether the collection could be given room for `additional` more
    /// entities: whether that many entities fit in memory.
    pub fn has_room_for(&self, additional: usize) -> (fits: bool)
        ensures
            fits == fits_in_memory(self@.len() + additional),
    {
        let limit = (isize::MAX as usize) / 8;
        let len = self.0.len();
        len <= limit && additional <= limit - len
    }

    /// Makes room for `additional` more entities where so many fit in memory,
    /// and says whether it did. The entities stay as they are either way.
    pub fn try_reserve(&mut self, additional: usize) -> (reserved: bool)
        ensures
            reserved == fits_in_memory(old(self)@.len() + additional),
            final(self)@ == old(self)@,
    {
        if self.has_room_for(additional) {
            self.reserve(additional);
            true
        } else {
            false
        }
    }

    /// An empty collection with room for `capacity` entities, where so many
    /// fit in memory; else nothing.
    pub fn try_with_capacity(capacity: usize) -> (collection: Option<Self>)
        ensures
            collection is Some <==> fits_in_memory(capacity as int),
            collection matches Some(collection) ==> collection@ == Seq::<Entity>::empty(),
    {
        if capacity <= (isize::MAX as usize) / 8 {
            Some(Self::with_capacity(capacity))
        } else {
            None
        }
    }

    /// Appends `entity`, also where it is in the collection already, and says
    /// that it was added.
    pub fn add(&mut self, entity: Entity) -> (added: bool)
        ensures
            added,
            final(self)@ == old(self)@.push(entity),
    {
        self.0.push(entity);
        true
    }

    /// The index of the first occurrence of `entity`, if there is one.
    pub fn position(&self, entity: Entity) -> (index: Option<usize>)
        ensures
            match index {
                Some(index) => index < self@.len() && self@.index_of_first(entity) == Some(
                    index as int,
                ),
                None => self@.index_of_first(entity) == None::<int>,
            },
            index is Some <==> self@.contains(entity),
    {
        let len = self.0.len();
        let mut index: usize = 0;
        while index < len
            invariant
                len == self.0@.len(),
                index <= len,
                forall|before: int| 0 <= before < index ==> self.0@[before] != entity,
            decreases len - index,
        {
            if self.0[index] == entity {
                proof {
                    assert(self.0@[index as int] == entity);
                    self.0@.index_of_first_ensures(entity);
                }
                return Some(index);
            }
            index += 1;
        }
        proof {
            self.0@.index_of_first_ensures(entity);
        }
        None
    }

    /// Takes the first occurrence of `entity` out, moving what follows it one
    /// place down, and says whether there was one.
    pub fn remove(&mut self, entity: Entity) -> (removed: bool)
        ensures
            removed == old(self)@.contains(entity),
            final(self)@ == old(self)@.remove_value(entity),
    {
        if let Some(index) = self.position(entity) {
            self.0.remove(index);
            return true;
        }
        false
    }

    /// The entities, in their order.
    pub fn as_slice(&self) -> (entities: &[Entity])
        ensures
            entities@ == self@,
    {
        self.0.as_slice()
    }

    /// A copy of the entities, in their order.
    pub fn iter(&self) -> (entities: Vec<Entity>)
        ensures
            entities@ == self@,
    {
        let len = self.0.len();
        let mut entities: Vec<Entity> = Vec::with_capacity(len);
        let mut index: usize = 0;
        while index < len
            invariant
                len == self.0@.len(),
                index <= len,
                entities@ == self.0@.subrange(0, index as int),
            decreases len - index,
        {
            entities.push(self.0[index]);
            index += 1;
        }
        entities
    }

    /// How many entities there are, each occurrence counted.
    pub fn len(&self) -> (len: usize)
        ensures
            len == self@.len(),
    {
        self.0.len()
    }

    /// Takes every entity out.
    pub fn clear(&mut self)
        ensures
            final(self)@ == Seq::<Entity>::empty(),
    {
        self.0.clear();
    }

    /// Gives spare room back. The entities stay as they are.
    pub fn shrink_to_fit(&mut self)
        ensures
            final(self)@ == old(self)@,
    {
        shrink_to_fit(&mut self.0);
    }

    /// Appends `entities`, in their order.
    pub fn extend_from_iter(&mut self, entities: Vec<Entity>)
        ensures
            final(self)@ == old(self)@ + entities@,
    {
        let mut entities = entities;
        self.0.append(&mut entities);
    }

    /// Always `false`, also for a collection without entities: see the type.
    /// A caller that wants to know whether there are entities asks `len`.
    pub fn is_empty(&self) -> (empty: bool)
        ensures
            !empty,
    {
        false
    }

    /// Puts `entity` at `index` in constant time: what stood at `index` goes
    /// to the end. With `index` at or past the end, `entity` is appended.
    pub fn insert(&mut self, index: usize, entity: Entity)
        ensures
            final(self)@ == swap_insert(old(self)@, index as int, entity),
    {
        self.0.push(entity);
        let len = self.0.len();
        if index < len {
            let displaced = self.0[index];
            self.0.set(index, entity);
            self.0.set(len - 1, displaced);
        }
    }

    /// Takes out the entity at `index` in constant time, if there is one: the
    /// last entity takes its place.
    pub fn remove_at(&mut self, index: usize) -> (removed: Option<Entity>)
        ensures
            index < old(self)@.len() ==> removed == Some(old(self)@[index as int]) && final(self)@
                == swap_remove(old(self)@, index as int),
            index >= old(self)@.len() ==> removed == None::<Entity> && final(self)@ == old(self)@,
    {
        if index < self.0.len() {
            Some(self.0.swap_remove(index))
        } else {
            None
        }
    }

    /// Puts `entity` at `index` and moves what stood there and after it one
    /// place up. With `index` at or past the end, `entity` is appended.
    pub fn insert_stable(&mut self, index: usize, entity: Entity)
        ensures
            index < old(self)@.len() ==> final(self)@ == old(self)@.insert(index as int, entity),
            index >= old(self)@.len() ==> final(self)@ == old(self)@.push(entity),
    {
        if index < self.0.len() {
            self.0.insert(index, entity);
        } else {
            self.0.push(entity);
        }
    }

    /// Takes out the entity at `index`, if there is one, and moves what
    /// followed it one place down.
    pub fn remove_at_stable(&mut self, index: usize) -> (removed: Option<Entity>)
        ensures
            index < old(self)@.len() ==> removed == Some(old(self)@[index as int]) && final(self)@
                == old(self)@.remove(index as int),
            index >= old(self)@.len() ==> removed == None::<Entity> && final(self)@ == old(self)@,
    {
        if index < self.0.len() {
            Some(self.0.remove(index))
        } else {
            None
        }
    }

    /// Puts the entities in ascending order. Nothing is added or lost.
    pub fn sort(&mut self)
        ensures
            is_sorted(final(self)@),
            final(self)@.to_multiset() == old(self)@.to_multiset(),
    {
        sort_unstable(&mut self.0);
    }

    /// The place for `entity` that a search by halving finds: see
    /// `halving_point`. In a sorted collection it is the place after every
    /// entity that is at most `entity`.
    pub fn partition_point(&self, entity: Entity) -> (index: usize)
        ensures
            index == sorted_place(self@, entity),
            is_partition_point(self@, entity, index as int),
    {
        let mut low: usize = 0;
        let mut high: usize = self.0.len();
        while low < high
            invariant
                low <= high <= self.0@.len(),
                low > 0 ==> self.0@[low - 1] <= entity,
                high < self.0@.len() ==> self.0@[high as int] > entity,
                halving_point(self.0@, entity, low as int, high as int) == sorted_place(
                    self.0@,
                    entity,
                ),
            decreases high - low,
        {
            let middle = low + (high - low) / 2;
            if self.0[middle] <= entity {
                low = middle + 1;
            } else {
                high = middle;
            }
        }
        low
    }

    /// Puts `entity` where the order asks for it and moves what stood there
    /// and after it one place up. Into a sorted collection `entity` goes after
    /// every entity that is at most `entity`, and the collection stays sorted.
    /// In a collection that is not sorted, `entity` still goes where the
    /// search by halving ends: behind an entity that is not greater and before
    /// one that is.
    pub fn insert_sorted(&mut self, entity: Entity)
        ensures
            final(self)@ == old(self)@.insert(sorted_place(old(self)@, entity), entity),
            is_partition_point(old(self)@, entity, sorted_place(old(self)@, entity)),
            is_sorted(old(self)@) ==> is_sorted(final(self)@),
    {
        let index = self.partition_point(entity);
        proof {
            if is_sorted(self@) {
                lemma_insert_at_partition_point_keeps_sorted(self@, entity, index as int);
            }
            assert(self@.insert(self@.len() as int, entity) =~= self@.push(entity));
        }
        self.insert_stable(index, entity);
    }

    /// Moves the entity that was added last to `index`, as `insert` would put
    /// it there; an `index` past the end stands for the end. A collection
    /// without entities stays as it is.
    pub fn place_most_recent(&mut self, index: usize)
        ensures
            old(self)@.len() == 0 ==> final(self)@ == old(self)@,
            old(self)@.len() > 0 ==> final(self)@ == swap_insert(
                old(self)@.drop_last(),
                index as int,
                old(self)@.last(),
            ),
    {
        if let Some(entity) = self.0.pop() {
            let len = self.0.len();
            let index = if index < len {
                index
            } else {
                len
            };
            self.insert(index, entity);
        }
    }

    /// Moves the first occurrence of `entity` to `index`: it is taken out as
    /// `remove` does and put back as `insert` does; an `index` past the end
    /// stands for the end. A collection that does not hold `entity` stays as
    /// it is.
    pub fn place(&mut self, entity: Entity, index: usize)
        ensures
            !old(self)@.contains(entity) ==> final(self)@ == old(self)@,
            old(self)@.contains(entity) ==> final(self)@ == swap_insert(
                old(self)@.remove_value(entity),
                index as int,
                entity,
            ),
    {
        if let Some(current) = self.position(entity) {
            let len = self.0.len();
            let index = if index < len {
                index
            } else {
                len
            };
            self.0.remove(current);
            self.insert(index, entity);
        }
    }

    /// Replaces each entity by what `entity_mapper` gives for it. The length
    /// and the places stay.
    pub fn map_entities<F>(&mut self, entity_mapper: F) where F: Fn(Entity) -> Entity
        requires
            forall|entity: Entity| call_requires(entity_mapper, (entity,)),
        ensures
            final(self)@.len() == old(self)@.len(),
            forall|index: int|
                0 <= index < old(self)@.len() ==> call_ensures(
                    entity_mapper,
                    (old(self)@[index],),
                    #[trigger] final(self)@[index],
                ),
    {
        let len = self.0.len();
        let mut index: usize = 0;
        while index < len
            invariant
                forall|entity: Entity| call_requires(entity_mapper, (entity,)),
                len == self.0@.len(),
                len == old(self).0@.len(),
                index <= len,
                forall|done: int|
                    0 <= done < index ==> call_ensures(
                        entity_mapper,
                        (old(self).0@[done],),
                        #[trigger] self.0@[done],
                    ),
                forall|rest: int| index <= rest < len ==> self.0@[rest] == old(self).0@[rest],
            decreases len - index,
        {
            let mapped = entity_mapper(self.0[index]);
            self.0.set(index, mapped);
            index += 1;
        }
    }
}

} // verus!

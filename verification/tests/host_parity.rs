use bevy::color::Color as HostColor;
use bevy::ecs::entity::Entity as HostEntity;
use bevy::ecs::relationship::{OrderedRelationshipSourceCollection, RelationshipSourceCollection};
use reactive_font::color::{Color, ColorSpace};
use reactive_font::entity::Entity;
use reactive_font::persistent_relationship_source::NeverEmptyVec;

/// A small generator of numbers, the same run every time.
struct Numbers(u64);

impl Numbers {
    fn next(&mut self) -> u64 {
        self.0 ^= self.0 << 13;
        self.0 ^= self.0 >> 7;
        self.0 ^= self.0 << 17;
        self.0
    }

    /// The bits of an entity: a few rows, a few generations.
    fn entity(&mut self) -> Entity {
        let row = self.next() % 6 + 1;
        let generation = self.next() % 3;
        (generation << 32) | row
    }

    fn index(&mut self, len: usize) -> usize {
        match self.next() % 8 {
            0 => usize::MAX,
            1 => len,
            2 => len + 1,
            _ => (self.next() as usize) % (len + 1),
        }
    }
}

fn host(bits: Entity) -> HostEntity {
    HostEntity::from_bits(bits)
}

fn bits_of(entities: &Vec<HostEntity>) -> Vec<Entity> {
    entities.iter().map(|entity| entity.to_bits()).collect()
}

#[test]
fn entities_are_ordered_and_told_apart_as_their_bits_are() {
    let mut numbers = Numbers(0x2545_f491_4f6c_dd1d);
    for _ in 0..500 {
        let left = numbers.entity();
        let right = numbers.entity();
        assert_eq!(host(left).to_bits(), left);
        assert_eq!(host(left) == host(right), left == right);
        assert_eq!(host(left) <= host(right), left <= right);
        assert_eq!(host(left).cmp(&host(right)), left.cmp(&right));
    }
}

#[test]
fn every_operation_does_what_the_hosts_vector_of_entities_does() {
    let mut numbers = Numbers(0x9e37_79b9_7f4a_7c15);
    let mut ours = NeverEmptyVec::<Entity>::new();
    let mut theirs = <Vec<HostEntity> as RelationshipSourceCollection>::new();
    for step in 0..6000 {
        let entity = numbers.entity();
        let index = numbers.index(ours.len());
        let before = ours.iter();
        let choice = numbers.next() % 14;
        match choice {
            0 | 1 => {
                assert_eq!(
                    ours.add(entity),
                    RelationshipSourceCollection::add(&mut theirs, host(entity))
                );
            }
            2 => {
                assert_eq!(
                    ours.remove(entity),
                    RelationshipSourceCollection::remove(&mut theirs, host(entity))
                );
            }
            3 => {
                ours.insert(index, entity);
                OrderedRelationshipSourceCollection::insert(&mut theirs, index, host(entity));
            }
            4 => {
                assert_eq!(
                    ours.remove_at(index).map(host),
                    OrderedRelationshipSourceCollection::remove_at(&mut theirs, index)
                );
            }
            5 => {
                ours.insert_stable(index, entity);
                OrderedRelationshipSourceCollection::insert_stable(
                    &mut theirs,
                    index,
                    host(entity),
                );
            }
            6 => {
                assert_eq!(
                    ours.remove_at_stable(index).map(host),
                    OrderedRelationshipSourceCollection::remove_at_stable(&mut theirs, index)
                );
            }
            7 => {
                // A move puts the entity back with the constant-time `insert`,
                // where the host's plain vector shifts: the move is held
                // against the host's removal followed by the host's `insert`.
                ours.place_most_recent(index);
                if let Some(last) = theirs.pop() {
                    let index = index.min(theirs.len());
                    OrderedRelationshipSourceCollection::insert(&mut theirs, index, last);
                }
            }
            8 => {
                ours.place(entity, index);
                if let Some(current) = theirs.as_slice().iter().position(|held| *held == host(entity)) {
                    let index = index.min(theirs.len());
                    theirs.remove(current);
                    OrderedRelationshipSourceCollection::insert(&mut theirs, index, host(entity));
                }
            }
            9 => {
                let more = vec![numbers.entity(), numbers.entity()];
                ours.extend_from_iter(more.clone());
                RelationshipSourceCollection::extend_from_iter(
                    &mut theirs,
                    more.into_iter().map(host),
                );
            }
            10 => {
                ours.sort();
                OrderedRelationshipSourceCollection::sort(&mut theirs);
            }
            11 => {
                // On what is sorted, where the place is fixed.
                ours.sort();
                OrderedRelationshipSourceCollection::sort(&mut theirs);
                ours.insert_sorted(entity);
                OrderedRelationshipSourceCollection::insert_sorted(&mut theirs, host(entity));
            }
            12 => {
                ours.reserve(index % 64);
                RelationshipSourceCollection::reserve(&mut theirs, index % 64);
                ours.shrink_to_fit();
                RelationshipSourceCollection::shrink_to_fit(&mut theirs);
            }
            _ => {
                if step % 40 == 0 {
                    ours.clear();
                    RelationshipSourceCollection::clear(&mut theirs);
                }
            }
        }
        assert_eq!(
            ours.iter(),
            bits_of(&theirs),
            "after step {step}: operation {choice} with entity {entity} and index {index} on {before:?}"
        );
        assert_eq!(ours.len(), RelationshipSourceCollection::len(&theirs));
        assert!(!ours.is_empty());
    }
}

#[test]
fn the_default_colour_is_the_hosts_black_bit_for_bit() {
    match HostColor::BLACK {
        HostColor::LinearRgba(black) => {
            assert_eq!(
                Color::default(),
                Color {
                    space: ColorSpace::LinearRgba,
                    first: black.red.to_bits(),
                    second: black.green.to_bits(),
                    third: black.blue.to_bits(),
                    alpha: black.alpha.to_bits(),
                }
            );
        }
        other => panic!("the host's black is {other:?}"),
    }
}

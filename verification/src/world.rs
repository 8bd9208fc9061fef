//! The part of an entity-component world that templates write into:
//! entity identities and one bounded storage per kind of component.

use vstd::prelude::*;

verus! {

/// Identity of an entity. Two entities are the same when their ids are.
#[derive(Clone, Copy, Debug, PartialEq, Eq, Structural)]
pub struct Entity {
    pub id: usize,
}

impl Entity {
    /// The entity with the given id.
    pub fn new(id: usize) -> (entity: Entity)
        ensures
            entity.id == id,
    {
        Entity { id }
    }

    /// The id of this entity.
    pub fn id(&self) -> (id: usize)
        ensures
            id == self.id,
    {
        self.id
    }
}

/// Hands out entity identities, each one once, in ascending order of id.
pub struct Entities {
    next: usize,
}

impl View for Entities {
    type V = nat;

    /// The number of entities handed out so far; they are those with a
    /// smaller id.
    closed spec fn view(&self) -> nat {
        self.next as nat
    }
}

impl Entities {
    /// An allocator that has handed out nothing.
    pub fn new() -> (entities: Entities)
        ensures
            entities@ == 0,
    {
        Entities { next: 0 }
    }

    /// An allocator that counts the entities with an id below `count` as
    /// handed out, for a world that has entities already.
    pub fn with_count(count: usize) -> (entities: Entities)
        ensures
            entities@ == count,
    {
        Entities { next: count }
    }

    /// Whether `entity` was handed out by this allocator.
    pub open spec fn allocated(&self, entity: Entity) -> bool {
        entity.id < self@
    }

    /// Number of entities handed out so far.
    pub fn count(&self) -> (n: usize)
        ensures
            n == self@,
    {
        self.next
    }

    /// Whether `entity` was handed out by this allocator.
    pub fn is_allocated(&self, entity: Entity) -> (answer: bool)
        ensures
            answer == self.allocated(entity),
    {
        entity.id < self.next
    }

    /// Hands out the next entity, or nothing once every id but the largest
    /// machine word has been used.
    pub fn create(&mut self) -> (entity: Option<Entity>)
        ensures
            old(self)@ < usize::MAX ==> entity == Some(Entity { id: old(self)@ as usize })
                && final(self)@ == old(self)@ + 1,
            old(self)@ >= usize::MAX ==> entity is None && final(self)@ == old(self)@,
    {
        if self.next == usize::MAX {
            return None;
        }
        let entity = Entity { id: self.next };
        self.next = self.next + 1;
        Some(entity)
    }
}

/// Why a storage refused a component.
#[derive(Clone, Copy, Debug, PartialEq, Eq, Structural)]
pub enum InsertError {
    /// The entity's id lies beyond the storage's capacity.
    OutOfCapacity,
    /// The entity already has a component of this kind.
    Occupied,
}

/// Whether a storage would take a component for `entity`: the entity lies
/// within the capacity and has no component of this kind yet.
pub open spec fn vacant<T>(slots: Seq<Option<T>>, entity: Entity) -> bool {
    entity.id < slots.len() && slots[entity.id as int] is None
}

/// Whether a storage would take the component, if there is one.
pub open spec fn vacant_for<T, U>(slots: Seq<Option<T>>, entity: Entity, value: Option<U>) -> bool {
    value is Some ==> vacant(slots, entity)
}

/// What a storage holds after `entity` was offered `value`, and whether it
/// took it: a free slot within the capacity takes the value, anything else
/// leaves the storage as it was.
pub open spec fn insert_model<T>(slots: Seq<Option<T>>, entity: Entity, value: T) -> (
    Seq<Option<T>>,
    Result<(), InsertError>,
) {
    if entity.id >= slots.len() {
        (slots, Err(InsertError::OutOfCapacity))
    } else if slots[entity.id as int] is Some {
        (slots, Err(InsertError::Occupied))
    } else {
        (slots.update(entity.id as int, Some(value)), Ok(()))
    }
}

/// As [`insert_model`], for a component that may be absent: without a value
/// nothing is offered and nothing can be refused.
pub open spec fn insert_optional_model<T>(
    slots: Seq<Option<T>>,
    entity: Entity,
    value: Option<T>,
) -> (Seq<Option<T>>, Result<(), InsertError>) {
    match value {
        Some(value) => insert_model(slots, entity, value),
        None => (slots, Ok(())),
    }
}

/// Components of one kind, at most one per entity, for the entities whose id
/// is below the capacity the storage was made with.
pub struct Storage<T> {
    slots: Vec<Option<T>>,
}

impl<T> View for Storage<T> {
    type V = Seq<Option<T>>;

    /// One slot per entity id below the capacity: the component of that
    /// entity, if it has one.
    closed spec fn view(&self) -> Seq<Option<T>> {
        self.slots@
    }
}

impl<T> Storage<T> {
    /// An empty storage for the entities with an id below `capacity`.
    pub fn with_capacity(capacity: usize) -> (storage: Storage<T>)
        ensures
            storage@.len() == capacity,
            forall|i: int| 0 <= i < capacity ==> storage@[i] is None,
    {
        let mut slots: Vec<Option<T>> = Vec::new();
        let mut filled: usize = 0;
        while filled < capacity
            invariant
                filled <= capacity,
                slots@.len() == filled,
                forall|i: int| 0 <= i < filled ==> slots@[i] is None,
            decreases capacity - filled,
        {
            slots.push(None);
            filled = filled + 1;
        }
        Storage { slots }
    }

    /// Number of entity ids the storage has room for.
    pub fn capacity(&self) -> (n: usize)
        ensures
            n == self@.len(),
    {
        self.slots.len()
    }

    /// Whether `entity` has a component here.
    pub open spec fn holds(&self, entity: Entity) -> bool {
        entity.id < self@.len() && self@[entity.id as int] is Some
    }

    /// Whether `entity` has a component here.
    pub fn contains(&self, entity: Entity) -> (answer: bool)
        ensures
            answer == self.holds(entity),
    {
        entity.id < self.slots.len() && self.slots[entity.id].is_some()
    }

    /// The component of `entity`, if it has one here.
    pub fn get(&self, entity: Entity) -> (component: Option<&T>)
        ensures
            self.holds(entity) ==> component == Some(&self@[entity.id as int]->0),
            !self.holds(entity) ==> component is None,
    {
        if entity.id < self.slots.len() {
            self.slots[entity.id].as_ref()
        } else {
            None
        }
    }

    /// Gives `entity` the component `value`. Refused, with the storage left
    /// as it was, when the entity lies beyond the capacity or has a component
    /// of this kind already.
    pub fn insert(&mut self, entity: Entity, value: T) -> (outcome: Result<(), InsertError>)
        ensures
            (final(self)@, outcome) == insert_model(old(self)@, entity, value),
            outcome is Ok <==> vacant(old(self)@, entity),
    {
        if entity.id >= self.slots.len() {
            return Err(InsertError::OutOfCapacity);
        }
        if self.slots[entity.id].is_some() {
            return Err(InsertError::Occupied);
        }
        self.slots[entity.id] = Some(value);
        Ok(())
    }

    /// Gives `entity` the component `value` where there is one; without a
    /// value the storage is left alone.
    pub fn insert_optional(&mut self, entity: Entity, value: Option<T>) -> (outcome: Result<
        (),
        InsertError,
    >)
        ensures
            (final(self)@, outcome) == insert_optional_model(old(self)@, entity, value),
            outcome is Ok <==> vacant_for(old(self)@, entity, value),
    {
        match value {
            Some(value) => self.insert(entity, value),
            None => Ok(()),
        }
    }

    /// Number of entities that have a component here.
    pub fn count(&self) -> (n: usize)
        ensures
            n == occupied(self@),
    {
        let mut n: usize = 0;
        let mut i: usize = 0;
        while i < self.slots.len()
            invariant
                i <= self.slots@.len(),
                n == occupied(self.slots@.take(i as int)),
                n <= i,
            decreases self.slots@.len() - i,
        {
            proof {
                let upto = self.slots@.take(i + 1);
                assert(upto.drop_last() == self.slots@.take(i as int));
            }
            if self.slots[i].is_some() {
                n = n + 1;
            }
            i = i + 1;
        }
        proof {
            assert(self.slots@.take(i as int) == self.slots@);
        }
        n
    }
}

/// Number of slots that hold a component.
pub open spec fn occupied<T>(slots: Seq<Option<T>>) -> nat
    decreases slots.len(),
{
    if slots.len() == 0 {
        0
    } else {
        occupied(slots.drop_last()) + if slots.last() is Some {
            1nat
        } else {
            0nat
        }
    }
}

} // verus!

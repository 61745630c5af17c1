//! The entity world: which entities exist and which room each is in, and
//! the entity methods that act on them. Entities are named by the bits of
//! their `hecs::Entity`.

use vstd::prelude::*;
use crate::room::{entity_room_change, room_name_of, RoomError, RoomNames};

verus! {

/// `hecs::World`: the entity-component store.
#[verifier::external_type_specification]
#[verifier::external_body]
pub struct ExWorld(hecs::World);

/// The room component of an entity: the id of its room.
#[derive(Clone, Copy, Debug)]
pub struct Room(pub u64);

/// The entities of a world, by the bits of their `hecs::Entity`.
pub uninterp spec fn world_entities(w: hecs::World) -> Set<u64>;

/// The room component of each entity that has one.
pub uninterp spec fn world_rooms(w: hecs::World) -> Map<u64, u64>;

/// Calls `hecs::World::contains` on the entity with bits `e`; bits that no
/// entity can have (`hecs::Entity::from_bits` refuses them) name none.
#[verifier::external_body]
fn world_contains(w: &hecs::World, e: u64) -> (r: bool)
    ensures
        r == world_entities(*w).contains(e),
{
    match hecs::Entity::from_bits(e) {
        Some(entity) => w.contains(entity),
        None => false,
    }
}

/// Calls `hecs::World::get::<&Room>`: the entity's room component, if it
/// exists and has one.
#[verifier::external_body]
fn world_room(w: &hecs::World, e: u64) -> (r: Option<u64>)
    ensures
        r == (if world_rooms(*w).contains_key(e) {
            Some(world_rooms(*w)[e])
        } else {
            None
        }),
{
    match hecs::Entity::from_bits(e) {
        Some(entity) => match w.get::<&Room>(entity) {
            Ok(room) => Some(room.0),
            Err(_) => None,
        },
        None => None,
    }
}

/// Calls `hecs::World::insert_one` with a room component, which adds it or
/// replaces the one there; refused when the entity does not exist.
#[verifier::external_body]
fn world_insert_room(w: &mut hecs::World, e: u64, room: u64) -> (r: bool)
    ensures
        r == world_entities(*old(w)).contains(e),
        world_entities(*final(w)) == world_entities(*old(w)),
        r ==> world_rooms(*final(w)) == world_rooms(*old(w)).insert(e, room),
        !r ==> world_rooms(*final(w)) == world_rooms(*old(w)),
{
    match hecs::Entity::from_bits(e) {
        Some(entity) => w.insert_one(entity, Room(room)).is_ok(),
        None => false,
    }
}

/// Calls `hecs::World::despawn`, which removes the entity with all its
/// components; refused when it does not exist.
#[verifier::external_body]
fn world_despawn(w: &mut hecs::World, e: u64) -> (r: bool)
    ensures
        r == world_entities(*old(w)).contains(e),
        world_entities(*final(w)) == world_entities(*old(w)).remove(e),
        world_rooms(*final(w)) == world_rooms(*old(w)).remove(e),
{
    match hecs::Entity::from_bits(e) {
        Some(entity) => w.despawn(entity).is_ok(),
        None => false,
    }
}

/// What is marked for replication about an entity.
#[derive(Clone, Copy, Debug, PartialEq, Eq, Structural)]
pub enum EntityMark {
    /// The entity left the world from its room.
    Despawn { entity: u64, room: u64 },
    /// The entity moved from its room, if any, to another.
    Warp { entity: u64, from: Option<u64>, to: u64 },
}

/// Why an entity method was refused.
#[derive(Debug)]
pub enum EntityError {
    /// The entity no longer exists.
    NoSuchEntity(u64),
}

pub open spec fn room_of(w: hecs::World, e: u64) -> Option<u64> {
    if world_rooms(w).contains_key(e) {
        Some(world_rooms(w)[e])
    } else {
        None
    }
}

/// `entity:exists()`.
pub fn entity_exists(w: &hecs::World, e: u64) -> (r: bool)
    ensures
        r == world_entities(*w).contains(e),
{
    world_contains(w, e)
}

/// `entity:despawn()`: removes the entity, saying whether it existed, and
/// marks the despawn from its room when it had one.
pub fn despawn_entity(w: &mut hecs::World, e: u64) -> (r: (bool, Option<EntityMark>))
    ensures
        r.0 == world_entities(*old(w)).contains(e),
        world_entities(*final(w)) == world_entities(*old(w)).remove(e),
        world_rooms(*final(w)) == world_rooms(*old(w)).remove(e),
        r.1 == (if r.0 && room_of(*old(w), e) is Some {
            Some(EntityMark::Despawn { entity: e, room: room_of(*old(w), e)->0 })
        } else {
            None
        }),
{
    let room = world_room(w, e);
    let removed = world_despawn(w, e);
    let mark = if removed {
        match room {
            Some(room) => Some(EntityMark::Despawn { entity: e, room }),
            None => None,
        }
    } else {
        None
    };
    (removed, mark)
}

/// `entity:room(name)`: records the room name, gives the entity that room
/// (replacing the one it had) and marks the warp from its previous room;
/// refused when the entity does not exist, after the name is recorded.
pub fn entity_set_room(w: &mut hecs::World, names: &mut RoomNames, e: u64, name: &str) -> (r: Result<
    EntityMark,
    EntityError,
>)
    ensures
        world_entities(*final(w)) == world_entities(*old(w)),
        exists|id: u64|
            {
                &&& final(names)@.dom() == old(names)@.dom().insert(id)
                &&& final(names)@[id]@ == name@
                &&& forall|k: u64| k != id && old(names)@.contains_key(k) ==> final(names)@[k] == old(names)@[k]
                &&& if world_entities(*old(w)).contains(e) {
                    &&& r == Ok::<EntityMark, EntityError>(
                        EntityMark::Warp { entity: e, from: room_of(*old(w), e), to: id },
                    )
                    &&& world_rooms(*final(w)) == world_rooms(*old(w)).insert(e, id)
                } else {
                    &&& r matches Err(EntityError::NoSuchEntity(x)) && x == e
                    &&& world_rooms(*final(w)) == world_rooms(*old(w))
                }
            },
{
    let previous = world_room(w, e);
    let warp = entity_room_change(names, previous, name);
    if world_insert_room(w, e, warp.to) {
        Ok(EntityMark::Warp { entity: e, from: warp.from, to: warp.to })
    } else {
        Err(EntityError::NoSuchEntity(e))
    }
}

/// `entity:room()`: the name of the entity's room, or none when it has no
/// room; refused when no name is recorded for the room id.
pub fn entity_room_name(w: &hecs::World, names: &RoomNames, e: u64) -> (r: Result<Option<String>, RoomError>)
    ensures
        room_of(*w, e) is None ==> r matches Ok(None),
        room_of(*w, e) matches Some(id) ==> match room_name_of(names@, id) {
            Some(n) => r matches Ok(Some(t)) && t@ == n,
            None => r matches Err(RoomError::NameNotFound(x)) && x == id,
        },
{
    match world_room(w, e) {
        None => Ok(None),
        Some(id) => match names.room_id_to_name(id) {
            Ok(n) => Ok(Some(n)),
            Err(err) => Err(err),
        },
    }
}

} // verus!

use rock_runtime::room::{get_str_hash, RoomError, RoomNames};
use rock_runtime::world::{
    despawn_entity, entity_exists, entity_room_name, entity_set_room, EntityError, EntityMark, Room,
};

fn bits(e: hecs::Entity) -> u64 {
    e.to_bits().get()
}

#[test]
fn despawn_marks_the_room_it_leaves() {
    let mut w = hecs::World::new();
    let a = bits(w.spawn((Room(7),)));
    let b = bits(w.spawn((1u8,)));
    assert!(entity_exists(&w, a));
    assert_eq!(despawn_entity(&mut w, a), (true, Some(EntityMark::Despawn { entity: a, room: 7 })));
    assert!(!entity_exists(&w, a));
    assert_eq!(despawn_entity(&mut w, a), (false, None));
    assert_eq!(despawn_entity(&mut w, b), (true, None));
    assert!(!entity_exists(&w, 0));
}

#[test]
fn setting_a_room_warps_the_entity() {
    let mut w = hecs::World::new();
    let mut names = RoomNames::new();
    let e = bits(w.spawn((1u8,)));
    let hall = get_str_hash("hall");
    assert_eq!(
        entity_set_room(&mut w, &mut names, e, "hall").unwrap(),
        EntityMark::Warp { entity: e, from: None, to: hall }
    );
    assert_eq!(entity_room_name(&w, &names, e).unwrap().as_deref(), Some("hall"));
    let yard = get_str_hash("yard");
    assert_eq!(
        entity_set_room(&mut w, &mut names, e, "yard").unwrap(),
        EntityMark::Warp { entity: e, from: Some(hall), to: yard }
    );
    assert_eq!(entity_room_name(&w, &names, e).unwrap().as_deref(), Some("yard"));
}

#[test]
fn room_methods_on_missing_entities_and_rooms() {
    let mut w = hecs::World::new();
    let mut names = RoomNames::new();
    let e = bits(w.spawn((1u8,)));
    assert_eq!(entity_room_name(&w, &names, e).unwrap(), None);
    let gone = bits(w.spawn((2u8,)));
    w.despawn(hecs::Entity::from_bits(gone).unwrap()).unwrap();
    match entity_set_room(&mut w, &mut names, gone, "hall") {
        Err(EntityError::NoSuchEntity(x)) => assert_eq!(x, gone),
        _ => panic!("expected NoSuchEntity"),
    }
    let f = bits(w.spawn((Room(99),)));
    match entity_room_name(&w, &names, f) {
        Err(RoomError::NameNotFound(id)) => assert_eq!(id, 99),
        _ => panic!("expected NameNotFound"),
    }
}

use rock_runtime::room::{entity_room_change, get_str_hash, RoomError, RoomNames, RoomWarp};

#[test]
fn room_hash_is_stable_within_a_process() {
    assert_eq!(get_str_hash("lobby"), get_str_hash("lobby"));
}

#[test]
fn room_id_gives_back_its_name() {
    let mut names = RoomNames::new();
    let id = names.room_str_to_id("lobby");
    assert_eq!(id, get_str_hash("lobby"));
    assert_eq!(names.room_id_to_name(id).unwrap(), "lobby");
}

#[test]
fn other_room_names_stay_after_a_new_one() {
    let mut names = RoomNames::new();
    let a = names.room_str_to_id("arena");
    let b = names.room_str_to_id("garden");
    assert_eq!(names.room_id_to_name(a).unwrap(), "arena");
    assert_eq!(names.room_id_to_name(b).unwrap(), "garden");
    let again = names.room_str_to_id("arena");
    assert_eq!(again, a);
    assert_eq!(names.room_id_to_name(a).unwrap(), "arena");
}

#[test]
fn unknown_room_id_is_refused() {
    let names = RoomNames::new();
    match names.room_id_to_name(42) {
        Err(RoomError::NameNotFound(id)) => assert_eq!(id, 42),
        Ok(n) => panic!("unexpected name {n}"),
    }
}

#[test]
fn entity_room_change_records_the_new_room() {
    use_room_change();
}

fn use_room_change() {
    let mut names = RoomNames::new();
    let first = entity_room_change(&mut names, None, "hall");
    assert_eq!(first, RoomWarp { from: None, to: get_str_hash("hall") });
    let second = entity_room_change(&mut names, Some(first.to), "yard");
    assert_eq!(second.from, Some(first.to));
    assert_eq!(names.room_id_to_name(second.to).unwrap(), "yard");
    assert_eq!(names.room_id_to_name(first.to).unwrap(), "hall");
}

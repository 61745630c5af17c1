use rock_runtime::entity::{
    check_spawn_allowed, BlueprintError, BlueprintRegistry, ComponentKey, EntityBlueprint, EntityFacts,
    QueryFilter,
};

fn facts() -> EntityFacts {
    EntityFacts {
        blueprint: 3,
        name: Some("orc".to_string()),
        owned_by: Some(11),
        room: Some(5),
        has_position: true,
        in_area: false,
    }
}

#[test]
fn blueprint_builders_keep_the_id() {
    let bp: EntityBlueprint<u8, u8> = EntityBlueprint::new(4)
        .with_name("tree".to_string())
        .with_component(ComponentKey::Position, 1)
        .with_component(ComponentKey::Position, 2);
    assert_eq!(bp.id(), 4);
    assert_eq!(bp.name.as_deref(), Some("tree"));
    assert_eq!(bp.components.len(), 1);
    assert_eq!(bp.components.get(&ComponentKey::Position), Some(&2));
}

#[test]
fn empty_customs_clear_them() {
    let bp: EntityBlueprint<u8, u8> = EntityBlueprint::new(0).with_customs(vec![("hp".to_string(), 3)]);
    assert_eq!(bp.customs.as_ref().map(|c| c.len()), Some(1));
    let bp = bp.with_customs(Vec::new());
    assert!(bp.customs.is_none());
}

#[test]
fn spawn_keys_leave_out_the_blueprint_marker() {
    let bp: EntityBlueprint<u8, u8> = EntityBlueprint::new(1)
        .with_component(ComponentKey::Position, 0)
        .with_component(ComponentKey::Blueprint, 0)
        .with_component(ComponentKey::Sprite2D, 0);
    let keys = bp.spawn_keys();
    assert_eq!(keys.len(), 2);
    assert!(keys.contains(&ComponentKey::Position));
    assert!(keys.contains(&ComponentKey::Sprite2D));
    assert!(!keys.contains(&ComponentKey::Blueprint));
}

#[test]
fn spawning_during_loading_is_refused() {
    assert!(check_spawn_allowed(false).is_ok());
    assert!(matches!(check_spawn_allowed(true), Err(BlueprintError::SpawnDuringLoading)));
}

#[test]
fn blueprint_names_are_unique() {
    let mut reg: BlueprintRegistry<u8, u8> = BlueprintRegistry::new();
    assert_eq!(reg.increment_id(), 0);
    reg.register("tree".to_string(), EntityBlueprint::new(0)).unwrap();
    match reg.register("tree".to_string(), EntityBlueprint::new(1)) {
        Err(BlueprintError::AlreadyExists(n)) => assert_eq!(n, "tree"),
        _ => panic!("duplicate accepted"),
    }
    assert_eq!(reg.get(&"tree".to_string()).unwrap().id(), 0);
    assert!(reg.get(&"rock".to_string()).is_none());
}

#[test]
fn from_copies_a_registered_blueprint() {
    let mut reg: BlueprintRegistry<u8, u8> = BlueprintRegistry::new();
    let tmpl = EntityBlueprint::new(0)
        .with_component(ComponentKey::Position, 7)
        .with_customs(vec![("hp".to_string(), 9)]);
    reg.register("orc".to_string(), tmpl).unwrap();
    let bp = EntityBlueprint::new(5).with_name("boss".to_string());
    let bp = bp.from_registered(&reg, &"orc".to_string()).unwrap();
    assert_eq!(bp.id(), 5);
    assert_eq!(bp.name.as_deref(), Some("boss"));
    assert_eq!(bp.components.get(&ComponentKey::Position), Some(&7));
    assert_eq!(bp.customs.as_ref().unwrap()[0].1, 9);
}

#[test]
fn from_is_refused_when_missing_or_filled() {
    let reg: BlueprintRegistry<u8, u8> = BlueprintRegistry::new();
    match EntityBlueprint::<u8, u8>::new(0).from_registered(&reg, &"ghost".to_string()) {
        Err(BlueprintError::NotFound(n)) => assert_eq!(n, "ghost"),
        _ => panic!("expected NotFound"),
    }
    let filled: EntityBlueprint<u8, u8> = EntityBlueprint::new(0).with_component(ComponentKey::Name, 1);
    match filled.from_registered(&reg, &"ghost".to_string()) {
        Err(BlueprintError::AlreadyHasData(n)) => assert_eq!(n, "ghost"),
        _ => panic!("expected AlreadyHasData"),
    }
}

#[test]
fn unfiltered_query_needs_no_area() {
    let q = QueryFilter::new();
    assert!(q.matches(&facts()));
}

#[test]
fn query_filters_each_field() {
    let mut q = QueryFilter::new();
    q.owned_by = Some(11);
    q.named = Some("orc".to_string());
    q.in_room = Some(5);
    q.blueprint_id = Some(3);
    assert!(q.matches(&facts()));
    q.owned_by = Some(12);
    assert!(!q.matches(&facts()));
    q.owned_by = None;
    q.has_area = true;
    assert!(!q.matches(&facts()));
    let mut inside = facts();
    inside.in_area = true;
    assert!(q.matches(&inside));
}

#[test]
fn filter_on_a_missing_component_fails() {
    let mut q = QueryFilter::new();
    q.in_room = Some(5);
    let mut e = facts();
    e.room = None;
    assert!(!q.matches(&e));
    let q = QueryFilter::new();
    assert!(q.matches(&e));
}

#[test]
fn matching_positions_are_in_order() {
    let mut q = QueryFilter::new();
    q.in_room = Some(5);
    let mut other_room = facts();
    other_room.room = Some(6);
    let mut no_room = facts();
    no_room.room = None;
    let es = vec![facts(), other_room, facts(), no_room, facts()];
    assert_eq!(q.matching_positions(&es), vec![0, 2, 4]);
    assert_eq!(QueryFilter::new().matching_positions(&es), vec![0, 1, 2, 3, 4]);
    assert!(q.matching_positions(&Vec::new()).is_empty());
}

#[test]
fn spawn_plan_follows_the_blueprint() {
    let bp: EntityBlueprint<u8, u8> = EntityBlueprint::new(6)
        .with_component(ComponentKey::Room, 1)
        .with_component(ComponentKey::Position, 2)
        .with_customs(vec![("hp".to_string(), 1)]);
    assert!(matches!(bp.spawn_plan(true, &vec![]), Err(BlueprintError::SpawnDuringLoading)));
    let p = bp.spawn_plan(false, &vec![3, 8]).unwrap();
    assert_eq!(p.blueprint_id, 6);
    assert!(p.store_customs);
    assert!(p.mark_spawn);
    assert_eq!(p.cleanup_layer, Some(8));
    assert_eq!(p.keys.len(), 2);
    let plain: EntityBlueprint<u8, u8> = EntityBlueprint::new(7).with_component(ComponentKey::Name, 0);
    let p = plain.spawn_plan(false, &vec![]).unwrap();
    assert!(!p.store_customs);
    assert!(!p.mark_spawn);
    assert_eq!(p.cleanup_layer, None);
}

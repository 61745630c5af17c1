use rock_runtime::layer::{active_layer, LayerRegistry};

#[test]
fn layer_ids_are_fresh() {
    let mut l: LayerRegistry<u32> = LayerRegistry::new();
    assert!(l.can_increment_id());
    assert_eq!(l.increment_id(), 0);
    assert_eq!(l.increment_id(), 1);
    assert_eq!(l.increment_id(), 2);
}

#[test]
fn clearing_a_layer_hands_back_its_cleaners_in_order() {
    let mut l: LayerRegistry<u32> = LayerRegistry::new();
    let id = l.increment_id();
    l.insert_layer(id, None);
    l.add_cleaner(id, 10);
    l.add_cleaner(id, 20);
    l.add_cleaner(id, 30);
    assert_eq!(l.clear_layer_by_id(id), vec![10, 20, 30]);
    assert!(l.clear_layer_by_id(id).is_empty());
}

#[test]
fn cleaners_for_a_missing_layer_are_dropped() {
    let mut l: LayerRegistry<u32> = LayerRegistry::new();
    l.add_cleaner(7, 1);
    assert!(l.clear_layer_by_id(7).is_empty());
}

#[test]
fn named_layers_clear_by_name_once() {
    let mut l: LayerRegistry<u32> = LayerRegistry::new();
    let a = l.increment_id();
    let b = l.increment_id();
    l.insert_layer(a, Some("ui".to_string()));
    l.insert_layer(b, Some("world".to_string()));
    l.add_cleaner(a, 1);
    l.add_cleaner(b, 2);
    assert_eq!(l.clear_layer_by_name(&"ui".to_string()), Some(vec![1]));
    assert_eq!(l.clear_layer_by_name(&"ui".to_string()), None);
    assert_eq!(l.clear_layer_by_id(b), vec![2]);
    assert_eq!(l.clear_layer_by_name(&"world".to_string()), None);
}

#[test]
fn clearing_by_name_drops_the_alias() {
    let mut l: LayerRegistry<u32> = LayerRegistry::new();
    let a = l.increment_id();
    l.insert_layer(a, Some("hud".to_string()));
    l.add_cleaner(a, 4);
    assert_eq!(l.clear_layer_by_name(&"hud".to_string()), Some(vec![4]));
    assert_eq!(l.clear_layer_by_name(&"hud".to_string()), None);
    assert_eq!(active_layer(&vec![]), None);
    assert_eq!(active_layer(&vec![1, 2, 5]), Some(5));
}

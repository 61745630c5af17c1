use rock_runtime::events::PlayerEventData;
use rock_runtime::events::{EventScope, GameModeEventKey, PlayerEventKey, TimerEventKey, WorldEventKey};
use rock_runtime::on::{
    find_descriptor, global_event_descriptors, EventListeners, GameModeListener,
    GameModeListenerParams, ListenerError, OnRx, OnRxError,
};

fn listener(name: Option<&str>, priority: u32, seq: u64) -> GameModeListener<u64> {
    GameModeListener::new(GameModeListenerParams {
        name: name.map(|s| s.to_string()),
        created_at_seq: seq,
        scope: EventScope::Global,
        handle: seq,
        priority,
    })
}

const KEY: GameModeEventKey = GameModeEventKey::World(WorldEventKey::Awake);

fn order(l: &EventListeners<u64>) -> Vec<u64> {
    l.listeners_of(KEY).iter().map(|x| x.get_seq()).collect()
}

#[test]
fn listeners_dispatch_by_priority_then_creation() {
    let mut l = EventListeners::new();
    l.add_listener(KEY, listener(None, 0, 1)).unwrap();
    l.add_listener(KEY, listener(None, 5, 2)).unwrap();
    l.add_listener(KEY, listener(None, 0, 3)).unwrap();
    l.add_listener(KEY, listener(None, 5, 4)).unwrap();
    l.add_listener(KEY, listener(None, 9, 5)).unwrap();
    assert_eq!(order(&l), vec![5, 2, 4, 1, 3]);
}

#[test]
fn duplicate_names_are_refused_per_key() {
    let mut l = EventListeners::new();
    l.add_listener(KEY, listener(Some("a"), 0, 1)).unwrap();
    match l.add_listener(KEY, listener(Some("a"), 3, 2)) {
        Err(ListenerError::DuplicateName(n)) => assert_eq!(n, "a"),
        Ok(()) => panic!("duplicate accepted"),
    }
    let other = GameModeEventKey::Timer(TimerEventKey::Fire);
    assert!(l.add_listener(other, listener(Some("a"), 0, 3)).is_ok());
    assert!(l.add_listener(KEY, listener(None, 0, 4)).is_ok());
    assert_eq!(order(&l), vec![1, 4]);
}

#[test]
fn removing_a_listener_keeps_the_rest_in_order() {
    let mut l = EventListeners::new();
    for (p, s) in [(1, 1), (3, 2), (2, 3), (3, 4)] {
        l.add_listener(KEY, listener(None, p, s)).unwrap();
    }
    l.remove_listener(KEY, 2);
    assert_eq!(order(&l), vec![4, 3, 1]);
    l.remove_listener(KEY, 42);
    assert_eq!(order(&l), vec![4, 3, 1]);
}

#[test]
fn listener_only_sees_later_events() {
    let x = listener(None, 0, 10);
    assert!(!x.accepts(9));
    assert!(!x.accepts(10));
    assert!(x.accepts(11));
}

#[test]
fn descriptors_look_up_by_name() {
    let d = global_event_descriptors();
    assert_eq!(d.len(), 8);
    assert_eq!(find_descriptor(&d, "input"), Some(GameModeEventKey::Player(PlayerEventKey::Input)));
    assert_eq!(find_descriptor(&d, "fire"), Some(GameModeEventKey::Timer(TimerEventKey::Fire)));
    assert_eq!(find_descriptor(&d, "nope"), None);
    assert_eq!(d[0].namespace, Some("world"));
}

#[test]
fn subscription_builder_checks() {
    let rx: OnRx<u8> = OnRx::new(GameModeEventKey::Player(PlayerEventKey::Input), EventScope::Global);
    assert!(rx.check_bind_action().is_ok());
    assert!(matches!(rx.check_named(), Err(OnRxError::NamedNotTimer)));
    let rx: OnRx<u8> = OnRx::new(GameModeEventKey::Timer(TimerEventKey::Fire), EventScope::Entity(3));
    assert!(rx.check_named().is_ok());
    assert!(matches!(rx.check_bind_action(), Err(OnRxError::BindActionNotInput)));
    let mut rx = rx.with_name("n".into()).with_priority(7);
    rx.add_operator(1);
    assert_eq!(rx.pipeline, vec![1]);
    let l = rx.construct_listener(12, "h");
    assert_eq!(l.name.as_deref(), Some("n"));
    assert_eq!(l.priority, 7);
    assert_eq!(l.scope, EventScope::Entity(3));
    assert_eq!(l.get_seq(), 12);
}

#[test]
fn player_event_keys() {
    type D = PlayerEventData<u8, u16, (), u32, i8>;
    let cases: [(D, PlayerEventKey); 6] = [
        (PlayerEventData::Online { player: 1, connection_params: () }, PlayerEventKey::Online),
        (PlayerEventData::Offline { snapshot: 2 }, PlayerEventKey::Offline),
        (PlayerEventData::Input { player: 1, name: "jump".into(), data: 3 }, PlayerEventKey::Input),
        (PlayerEventData::Enter { player: 1, room: 7 }, PlayerEventKey::Enter),
        (PlayerEventData::Exit { player: 1, room: 7 }, PlayerEventKey::Exit),
        (PlayerEventData::Signal { player: 1, signal: -1 }, PlayerEventKey::Signal),
    ];
    for (d, k) in cases {
        assert_eq!(d.key(), k);
    }
}

#[test]
fn adding_then_removing_a_listener_restores_the_list() {
    let mut l = EventListeners::new();
    for (p, s) in [(4, 1), (2, 2), (2, 3)] {
        l.add_listener(KEY, listener(None, p, s)).unwrap();
    }
    let before = order(&l);
    l.add_listener(KEY, listener(Some("tmp"), 2, 9)).unwrap();
    assert_eq!(order(&l), vec![1, 2, 3, 9]);
    l.remove_listener(KEY, 9);
    assert_eq!(order(&l), before);
}

use rock_runtime::input::{InputBindings, InputError, InputEventRegistry, InputKind, InputRx};

#[test]
fn bindings_know_their_kind() {
    let b: InputBindings<u8, u16, u32> = InputBindings::Button(3);
    assert_eq!(b.kind(), InputKind::Button);
    let v: InputBindings<u8, u16, u32> = InputBindings::Vector2D(1);
    assert_eq!(v.kind(), InputKind::Vector2D);
    let a: InputBindings<u8, u16, u32> = InputBindings::Axis(2);
    assert_eq!(a.kind(), InputKind::Axis);
}

#[test]
fn defaults_are_set_once() {
    let mut rx: InputRx<&str> = InputRx::new(InputKind::Button);
    assert!(rx.defaults_allowed().is_ok());
    assert!(matches!(rx.registered_bindings(), Err(InputError::NoBindings)));
    rx.set_defaults("space").unwrap();
    assert!(matches!(rx.defaults_allowed(), Err(InputError::CannotOverwrite)));
    assert!(matches!(rx.set_defaults("enter"), Err(InputError::CannotOverwrite)));
    assert_eq!(*rx.registered_bindings().unwrap(), "space");
    assert_eq!(rx.kind, InputKind::Button);
}

#[test]
fn input_events_are_numbered_in_order() {
    let mut reg: InputEventRegistry<u8> = InputEventRegistry::new();
    assert_eq!(reg.register("jump".to_string(), 1).unwrap(), 0);
    assert_eq!(reg.register("move".to_string(), 2).unwrap(), 1);
    assert_eq!(reg.id_of(&"jump".to_string()), Some(0));
    assert_eq!(reg.id_of(&"move".to_string()), Some(1));
    assert_eq!(reg.id_of(&"fire".to_string()), None);
}

#[test]
fn input_event_names_are_unique() {
    let mut reg: InputEventRegistry<u8> = InputEventRegistry::new();
    reg.register("jump".to_string(), 1).unwrap();
    match reg.register("jump".to_string(), 5) {
        Err(InputError::AlreadyExists(n)) => assert_eq!(n, "jump"),
        _ => panic!("duplicate accepted"),
    }
    assert_eq!(reg.register("fire".to_string(), 3).unwrap(), 1);
}

use rock_runtime::player::{parse_u64, PlayerSnapshot, SignalError, SignalRecipients, SignalRx, SignalScope};
use rock_runtime::room::{get_str_hash, RoomNames};

#[test]
fn parse_u64_follows_from_str() {
    assert_eq!(parse_u64("0"), Some(0));
    assert_eq!(parse_u64("123"), Some(123));
    assert_eq!(parse_u64("+5"), Some(5));
    assert_eq!(parse_u64("007"), Some(7));
    assert_eq!(parse_u64("18446744073709551615"), Some(u64::MAX));
    for bad in ["", "+", "-1", "12a", " 1", "18446744073709551616", "1_000"] {
        assert_eq!(parse_u64(bad), None, "{bad}");
        assert!(bad.parse::<u64>().is_err());
    }
}

#[test]
fn fid_comes_from_a_farcaster_identity() {
    assert_eq!(PlayerSnapshot::fid_from_identity("fc:123"), Some(123));
    assert_eq!(PlayerSnapshot::fid_from_identity("fc:"), None);
    assert_eq!(PlayerSnapshot::fid_from_identity("eth:123"), None);
    assert_eq!(PlayerSnapshot::fid_from_identity("fc:12x"), None);
}

#[test]
fn snapshot_reports_identity_and_fid() {
    let p = PlayerSnapshot::new(Some("fc:77".to_string()));
    assert_eq!(p.who().as_deref(), Some("fc:77"));
    assert_eq!(p.fid(), Some(77));
    let anon = PlayerSnapshot::new(None);
    assert_eq!(anon.who(), None);
    assert_eq!(anon.fid(), None);
}

#[test]
fn signal_without_data_is_refused() {
    let s: SignalRx<u32, u8, (i32, i32)> = SignalRx::new(SignalScope::Global, None);
    assert!(matches!(s.recipients(), Err(SignalError::NoData)));
}

#[test]
fn global_signal_goes_to_everyone() {
    let s: SignalRx<u32, u8, (i32, i32)> = SignalRx::new(SignalScope::Global, Some("tick".into())).with_data(1);
    assert_eq!(s.recipients().unwrap(), SignalRecipients::All);
    let s = s.with_area((1, 2)).unwrap();
    assert_eq!(s.recipients().unwrap(), SignalRecipients::All);
}

#[test]
fn room_signal_goes_to_the_room() {
    let mut names = RoomNames::new();
    let s: SignalRx<u32, u8, (i32, i32)> = SignalRx::new(SignalScope::Global, None).with_data(1);
    let s = s.with_room(&mut names, "arena").unwrap();
    let id = get_str_hash("arena");
    assert_eq!(s.recipients().unwrap(), SignalRecipients::InRoom(id));
    assert_eq!(names.room_id_to_name(id).unwrap(), "arena");
    let s = s.with_area((3, 4)).unwrap();
    assert_eq!(s.recipients().unwrap(), SignalRecipients::InArea(id, (3, 4)));
}

#[test]
fn player_signal_refuses_area_and_room() {
    let mut names = RoomNames::new();
    let s: SignalRx<u32, u8, (i32, i32)> = SignalRx::new(SignalScope::Player(9), None).with_data(1);
    assert_eq!(s.recipients().unwrap(), SignalRecipients::Single(9));
    let s2: SignalRx<u32, u8, (i32, i32)> = SignalRx::new(SignalScope::Player(9), None);
    assert!(matches!(s2.with_area((0, 0)), Err(SignalError::AreaOnPlayerSignal)));
    let s3: SignalRx<u32, u8, (i32, i32)> = SignalRx::new(SignalScope::Player(9), None);
    assert!(matches!(s3.with_room(&mut names, "arena"), Err(SignalError::RoomOnPlayerSignal)));
    assert!(names.room_id_to_name(get_str_hash("arena")).is_err());
}

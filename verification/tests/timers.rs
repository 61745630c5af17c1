use rock_runtime::timer::{timer_fire_event, TimerData, TimerError, TimerEvent, TimerKind, TimerManager, TimerRx, TimerRxError};
use rock_runtime::events::{EventScope, TimerEventData};

fn interval(id: &str) -> TimerData {
    TimerData::Interval { id: id.to_string(), seconds: 5, data: None }
}

#[test]
fn pending_timers_are_handed_out_once() {
    let mut m: TimerManager<u32> = TimerManager::new();
    m.create_timer(interval("a")).unwrap();
    m.create_timer(TimerData::Timeout { id: "b".into(), seconds: 1, data: None }).unwrap();
    let taken = m.take_pending();
    assert_eq!(taken.len(), 2);
    assert_eq!(taken[0].id(), "a");
    assert_eq!(taken[1].kind(), TimerKind::Timeout);
    assert!(m.take_pending().is_empty());
}

#[test]
fn running_interval_id_is_refused_until_cancelled() {
    let mut m: TimerManager<u32> = TimerManager::new();
    m.create_timer(interval("tick")).unwrap();
    for t in m.take_pending() {
        m.record_handle(t.id().clone(), 7);
    }
    assert!(m.contains_timer(&"tick".to_string()));
    match m.create_timer(interval("tick")) {
        Err(TimerError::AlreadyExists(id)) => assert_eq!(id, "tick"),
        Ok(()) => panic!("duplicate interval accepted"),
    }
    assert_eq!(m.cancel_timer("tick".to_string()), vec![7]);
    assert!(!m.contains_timer(&"tick".to_string()));
    assert!(m.create_timer(interval("tick")).is_ok());
}

#[test]
fn timeouts_are_never_refused() {
    let mut m: TimerManager<u32> = TimerManager::new();
    m.record_handle("t".to_string(), 1);
    assert!(m.create_timer(TimerData::Timeout { id: "t".into(), seconds: 0, data: None }).is_ok());
}

#[test]
fn handles_accumulate_per_id() {
    let mut m: TimerManager<u32> = TimerManager::new();
    m.record_handle("x".to_string(), 1);
    m.record_handle("x".to_string(), 2);
    m.record_handle("y".to_string(), 3);
    assert_eq!(m.cancel_timer("x".to_string()), vec![1, 2]);
    assert_eq!(m.cancel_timer("x".to_string()), Vec::<u32>::new());
    assert_eq!(m.cancel_timer("y".to_string()), vec![3]);
}

#[test]
fn fire_event_is_global_and_keeps_id_and_data() {
    let (scopes, data) = timer_fire_event(TimerEvent { id: "boom".into(), data: Some(serde_json::Value::from(3)) });
    assert_eq!(scopes, vec![EventScope::Global]);
    match data {
        TimerEventData::Fire { id, data } => {
            assert_eq!(id, "boom");
            assert_eq!(data, Some(serde_json::Value::from(3)));
        }
    }
}

#[test]
fn builder_needs_a_kind() {
    let b = TimerRx::new();
    assert!(matches!(b.register("a".into(), None), Err(TimerRxError::NoKind)));
}

#[test]
fn builder_period_defaults_to_zero() {
    let b = TimerRx { kind: Some(TimerKind::Interval), seconds: None, schedule: None };
    match b.register("a".into(), None).unwrap() {
        TimerData::Interval { seconds, .. } => assert_eq!(seconds, 0),
        _ => panic!("wrong kind"),
    }
}

#[test]
fn builder_timeout_and_interval() {
    let t = TimerRx::new().timeout(3).register("a".into(), None).unwrap();
    assert!(matches!(t, TimerData::Timeout { seconds: 3, .. }));
    let t = TimerRx::new().interval(9).register("b".into(), None).unwrap();
    assert!(matches!(t, TimerData::Interval { seconds: 9, .. }));
}

#[test]
fn builder_cron_parses_expression() {
    let b = TimerRx::new().cron("0 * * * * *").unwrap();
    assert_eq!(b.kind, Some(TimerKind::Cron));
    let t = b.register("c".into(), None).unwrap();
    assert_eq!(t.kind(), TimerKind::Cron);
    assert!(matches!(TimerRx::new().cron("not a cron"), Err(TimerRxError::InvalidCron(_))));
}

#[test]
fn cron_without_schedule_is_refused() {
    let b = TimerRx { kind: Some(TimerKind::Cron), seconds: None, schedule: None };
    assert!(matches!(b.register("c".into(), None), Err(TimerRxError::NoSchedule)));
}

#[test]
fn cloned_builder_keeps_its_schedule() {
    let b = TimerRx::new().cron("0 0 * * * *").unwrap();
    let c = b.clone();
    assert_eq!(c.kind, Some(TimerKind::Cron));
    assert_eq!(c.schedule.as_ref().map(|s| s.expression().to_string()), b.schedule.as_ref().map(|s| s.expression().to_string()));
    assert_eq!(c.schedule.as_ref().unwrap().schedule().to_string(), "0 0 * * * *");
    match c.register("hourly".into(), None).unwrap() {
        TimerData::Cron { id, schedule, .. } => {
            assert_eq!(id, "hourly");
            assert_eq!(schedule.expression(), "0 0 * * * *");
            assert_eq!(schedule.schedule().to_string(), "0 0 * * * *");
        },
        _ => panic!("expected a cron timer"),
    }
}

#[test]
fn cron_builder_keeps_its_expression() {
    let b = TimerRx::new().interval(4).cron("*/5 * * * * *").unwrap();
    assert_eq!(b.seconds, Some(4));
    let s = b.schedule.as_ref().unwrap();
    assert_eq!(s.expression(), "*/5 * * * * *");
    assert_eq!(s.schedule().to_string(), "*/5 * * * * *");
}

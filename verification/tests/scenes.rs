use rock_runtime::plugin::{PluginComposer, PluginName};
use rock_runtime::scene::{
    classify_yield, function_location, scene_play_label, scene_run_label, script_chain_label, sleep_seconds, FunctionInfo,
    SceneError, SceneManager, SceneYieldOp, YieldKind,
};

fn manager() -> SceneManager<&'static str, u8> {
    let mut c = PluginComposer::new();
    c.add_plugin(PluginName::Memory, 1u8);
    c.add_plugin(PluginName::Farcaster, 2u8);
    SceneManager::new(c)
}

#[test]
fn yield_kinds_read() {
    assert!(matches!(classify_yield(false, None), Err(SceneError::NotATable)));
    assert_eq!(classify_yield(true, None).unwrap(), YieldKind::Plugin);
    assert_eq!(classify_yield(true, Some("scene")).unwrap(), YieldKind::Scene);
    assert_eq!(classify_yield(true, Some("plugin")).unwrap(), YieldKind::Plugin);
    match classify_yield(true, Some("Scene")) {
        Err(SceneError::InvalidKind(k)) => assert_eq!(k, "Scene"),
        _ => panic!("kind accepted"),
    }
}

#[test]
fn yield_texts_round_trip() {
    for k in [YieldKind::Scene, YieldKind::Plugin] {
        assert_eq!(YieldKind::parse(k.as_str()), Some(k));
    }
    assert_eq!(SceneYieldOp::parse(SceneYieldOp::Sleep.as_str()), Some(SceneYieldOp::Sleep));
}

#[test]
fn sleep_limits() {
    assert_eq!(sleep_seconds(5).unwrap(), 5);
    assert_eq!(sleep_seconds(i64::MAX as u64).unwrap(), i64::MAX);
    assert!(matches!(sleep_seconds(i64::MAX as u64 + 1), Err(SceneError::SleepTooLong)));
}

#[test]
fn task_ids_are_fresh() {
    let mut m = manager();
    let a = m.add_task("t1", "first".into());
    let b = m.add_task("t2", "second".into());
    assert_ne!(a, b);
    assert!(m.remove_task(a).is_some());
    let c = m.add_task("t3", "third".into());
    assert_ne!(c, a);
    assert!(!m.contains_task(a));
    assert_eq!(m.label(c).unwrap(), "third");
    assert_eq!(m.thread(b), Some(&"t2"));
}

#[test]
fn plugin_yield_routes_to_installed_plugin() {
    let mut m = manager();
    let id = m.add_task("t", "scene".into());
    let (n, op) = m.plan_plugin_yield(id, Some("MEMORY_RECALL")).unwrap();
    assert_eq!(n, PluginName::Memory);
    assert_eq!(op, "RECALL");
    assert_eq!(m.waiting_on(id).unwrap(), "memory.recall");
    assert_eq!(m.waiting_phase(id, "resuming scene"), "resuming scene after `memory.recall`");
}

#[test]
fn plugin_yield_errors() {
    let mut m = manager();
    let id = m.add_task("t", "scene".into());
    assert!(matches!(m.plan_plugin_yield(id, None), Err(SceneError::MissingOpcode)));
    assert!(matches!(m.plan_plugin_yield(id, Some("NOPE")), Err(SceneError::InvalidOpcode(_))));
    match m.plan_plugin_yield(id, Some("BOGUS_OP")) {
        Err(SceneError::UnknownPlugin(p)) => assert_eq!(p, "bogus"),
        _ => panic!("unknown plugin accepted"),
    }
    assert_eq!(m.waiting_on(id).unwrap(), "bogus.op");
    match m.plan_plugin_yield(id, Some("TIMER_X")) {
        Err(SceneError::PluginNotFound(p)) => assert_eq!(p, "TIMER"),
        _ => panic!("missing plugin accepted"),
    }
    assert!(matches!(m.plan_plugin_yield(id, Some("CONST_X")), Err(SceneError::UnknownPlugin(_))));
}

#[test]
fn scene_yield_sleep() {
    let mut m = manager();
    let id = m.add_task("t", "scene".into());
    assert_eq!(m.plan_scene_yield(id, Some("sleep"), Some(3)).unwrap(), 3);
    assert_eq!(m.waiting_on(id).unwrap(), "scene.sleep");
    assert!(matches!(m.plan_scene_yield(id, Some("sleep"), None), Err(SceneError::MissingArgs)));
    assert!(matches!(m.plan_scene_yield(id, Some("nap"), Some(1)), Err(SceneError::UnknownSceneOp(_))));
    assert!(matches!(m.plan_scene_yield(id, None, Some(1)), Err(SceneError::MissingOpcode)));
}

#[test]
fn waiting_phase_of_unknown_or_idle_task() {
    let mut m = manager();
    assert_eq!(m.waiting_phase(99, "starting scene"), "starting scene");
    let id = m.add_task("t", "scene".into());
    assert_eq!(m.waiting_phase(id, "starting scene"), "starting scene");
    m.set_waiting_on(id, "x.y".into());
    assert_eq!(m.waiting_phase(id, "p"), "p after `x.y`");
}

fn info(name: Option<&str>, short: Option<&str>, src: Option<&str>, line: Option<usize>) -> FunctionInfo {
    FunctionInfo {
        name: name.map(|s| s.to_string()),
        short_src: short.map(|s| s.to_string()),
        source: src.map(|s| s.to_string()),
        line_defined: line,
    }
}

#[test]
fn function_locations() {
    assert_eq!(function_location(&info(Some("f"), Some("a.lua"), None, Some(12))), "f at a.lua:12");
    assert_eq!(function_location(&info(Some("f"), None, Some("@b.lua"), None)), "f at @b.lua");
    assert_eq!(function_location(&info(None, None, None, Some(0))), "<unknown>:0");
    assert_eq!(function_location(&info(None, Some("c"), Some("d"), None)), "c");
}

#[test]
fn chain_labels() {
    assert_eq!(script_chain_label(&[]), "empty script chain");
    assert_eq!(script_chain_label(&[info(None, Some("a"), None, Some(1))]), "a:1");
    let three = [
        info(None, Some("a"), None, Some(1)),
        info(Some("g"), Some("b"), None, Some(20)),
        info(None, Some("c"), None, None),
    ];
    assert_eq!(script_chain_label(&three), "3 scripts: a:1 -> g at b:20 -> c");
}

#[test]
fn scene_task_labels() {
    let f = info(Some("intro"), Some("intro.lua"), None, Some(3));
    let g = info(None, None, Some("@outro.lua"), Some(9));
    assert_eq!(scene_run_label(&[f]), "scene.run (intro at intro.lua:3)");
    let f = info(Some("intro"), Some("intro.lua"), None, Some(3));
    assert_eq!(
        scene_play_label("lobby", &[f, g]),
        "scene.play(\"lobby\") (2 scripts: intro at intro.lua:3 -> @outro.lua:9)"
    );
    assert_eq!(scene_play_label("x", &[]), "scene.play(\"x\") (empty script chain)");
}

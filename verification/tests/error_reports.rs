use rock_runtime::plugin::PluginComposer;
use rock_runtime::scene::{SceneManager, SceneMessage, SceneStep};
use rock_runtime::text::indent_lines;

#[test]
fn indent_follows_str_lines() {
    for text in ["", "a", "a\nb", "a\r\nb\n", "\n", "a\n\nb", "tail\r", "x\r\ny\r", "\r\n\r\n"] {
        let expected = text.lines().map(|l| format!("    {l}")).collect::<Vec<_>>().join("\n");
        assert_eq!(indent_lines(text), expected, "{text:?}");
    }
}

#[test]
fn indent_examples() {
    assert_eq!(indent_lines("boom\n  at line 3"), "    boom\n      at line 3");
    assert_eq!(indent_lines("one\n"), "    one");
}

#[test]
fn report_of_a_running_task() {
    let mut m: SceneManager<u8, u8> = SceneManager::new(PluginComposer::new());
    let id = m.add_task(1, "intro.lua".to_string());
    m.set_waiting_on(id, "memory.recall".to_string());
    let phase = m.waiting_phase(id, "resuming scene");
    assert_eq!(phase, "resuming scene after `memory.recall`");
    assert_eq!(
        m.task_error_report(id, &phase, "bad\nworse"),
        format!(
            "[SCENE] intro.lua\n  task: {id}\n  phase: resuming scene after `memory.recall`\n  waiting on: memory.recall\n  error:\n    bad\n    worse"
        )
    );
}

#[test]
fn report_of_an_unknown_task() {
    let m: SceneManager<u8, u8> = SceneManager::new(PluginComposer::new());
    assert_eq!(
        m.task_error_report(42, "starting scene", "oops"),
        "[SCENE] Unknown scene task 42\n  phase: starting scene\n  error:\n    oops"
    );
}

#[test]
fn scene_messages_drive_the_task_table() {
    let mut m: SceneManager<u8, u8> = SceneManager::new(PluginComposer::new());
    let id = match m.handle_message::<&str>(SceneMessage::AddTask { thread: 7, label: "intro".to_string() }) {
        SceneStep::Start(id) => id,
        _ => panic!("expected a start"),
    };
    assert!(m.contains_task(id));
    match m.handle_message(SceneMessage::Wake { task_id: id, result: "done" }) {
        SceneStep::Resume(t, r) => assert_eq!((t, r), (id, "done")),
        _ => panic!("expected a resume"),
    }
    assert!(m.contains_task(id));
    m.set_waiting_on(id, "fc.cast_get".to_string());
    match m.handle_message::<&str>(SceneMessage::Error { task_id: id, err: "timeout".to_string() }) {
        SceneStep::Report(r) => assert_eq!(
            r,
            format!(
                "[SCENE] intro\n  task: {id}\n  phase: running async scene operation after `fc.cast_get`\n  waiting on: fc.cast_get\n  error:\n    timeout"
            )
        ),
        _ => panic!("expected a report"),
    }
    assert!(!m.contains_task(id));
    let id2 = match m.handle_message::<&str>(SceneMessage::AddTask { thread: 8, label: "b".to_string() }) {
        SceneStep::Start(id) => id,
        _ => panic!("expected a start"),
    };
    assert!(matches!(m.handle_message::<&str>(SceneMessage::Cancel(id2)), SceneStep::Nothing));
    assert!(!m.contains_task(id2));
}

#[test]
fn failing_a_task_drops_and_reports_it() {
    let mut m: SceneManager<u8, u8> = SceneManager::new(PluginComposer::new());
    let id = m.add_task(1, "x".to_string());
    let r = m.fail_task(id, "resuming scene", "bad");
    assert_eq!(r, format!("[SCENE] x\n  task: {id}\n  phase: resuming scene\n  error:\n    bad"));
    assert!(!m.contains_task(id));
}

//! Scene tasks: the table of running scene coroutines and the decisions
//! taken when a coroutine yields.
//!
//! Resuming a coroutine is outside work done by the caller; this module says
//! which plugin or scene operation a yield asks for, what the task is
//! waiting on, and which tasks are dropped.

use vstd::prelude::*;
use vstd::string::StringExecFns;
use crate::plugin::{
    label_for_plugin_op, plugin_for_prefix, plugin_name_from_text, split_plugin_opcode, PluginComposer,
    PluginName,
};
use std::collections::HashMap;
use crate::text::{
    decimal_text, indent_lines, indented_text, joined, push_decimal, split_once_text, str_eq, unicode_lowercase,
};

verus! {

broadcast use vstd::std_specs::hash::group_hash_axioms;

/// What a coroutine's yield table asks for.
#[derive(Clone, Copy, Debug, PartialEq, Eq, Structural)]
pub enum YieldKind {
    Scene,
    Plugin,
}

pub open spec fn yield_kind_text(k: YieldKind) -> Seq<char> {
    match k {
        YieldKind::Scene => "scene"@,
        YieldKind::Plugin => "plugin"@,
    }
}

pub open spec fn yield_kind_from_text(s: Seq<char>) -> Option<YieldKind> {
    if s == "scene"@ {
        Some(YieldKind::Scene)
    } else if s == "plugin"@ {
        Some(YieldKind::Plugin)
    } else {
        None
    }
}

impl YieldKind {
    pub fn as_str(&self) -> (r: &'static str)
        ensures
            r@ == yield_kind_text(*self),
    {
        match self {
            YieldKind::Scene => "scene",
            YieldKind::Plugin => "plugin",
        }
    }

    pub fn parse(s: &str) -> (r: Option<YieldKind>)
        ensures
            r == yield_kind_from_text(s@),
    {
        if str_eq(s, "scene") {
            Some(YieldKind::Scene)
        } else if str_eq(s, "plugin") {
            Some(YieldKind::Plugin)
        } else {
            None
        }
    }
}

/// Operations a scene can yield to the scene manager itself.
#[derive(Clone, Copy, Debug, PartialEq, Eq, Structural)]
pub enum SceneYieldOp {
    Sleep,
}

pub open spec fn scene_yield_op_text(op: SceneYieldOp) -> Seq<char> {
    match op {
        SceneYieldOp::Sleep => "sleep"@,
    }
}

pub open spec fn scene_yield_op_from_text(s: Seq<char>) -> Option<SceneYieldOp> {
    if s == "sleep"@ {
        Some(SceneYieldOp::Sleep)
    } else {
        None
    }
}

impl SceneYieldOp {
    pub fn as_str(&self) -> (r: &'static str)
        ensures
            r@ == scene_yield_op_text(*self),
    {
        match self {
            SceneYieldOp::Sleep => "sleep",
        }
    }

    pub fn parse(s: &str) -> (r: Option<SceneYieldOp>)
        ensures
            r == scene_yield_op_from_text(s@),
    {
        if str_eq(s, "sleep") {
            Some(SceneYieldOp::Sleep)
        } else {
            None
        }
    }
}

/// Parsing the text of a yield kind or scene operation gives it back.
pub proof fn lemma_scene_texts_round_trip(k: YieldKind, op: SceneYieldOp)
    ensures
        yield_kind_from_text(yield_kind_text(k)) == Some(k),
        scene_yield_op_from_text(scene_yield_op_text(op)) == Some(op),
{
    reveal_strlit("scene");
    reveal_strlit("plugin");
    assert("scene"@.len() != "plugin"@.len());
}

/// Why a yield, or a scene operation, could not be carried out.
#[derive(Debug)]
pub enum SceneError {
    /// The coroutine yielded something other than a table.
    NotATable,
    /// The yield table's `kind` is neither `scene` nor `plugin`.
    InvalidKind(String),
    /// The yield table has no `opcode`.
    MissingOpcode,
    /// The plugin opcode has no `_` between plugin and operation.
    InvalidOpcode(String),
    /// The plugin part of the opcode, lowercased, names no plugin.
    UnknownPlugin(String),
    /// The plugin named by the opcode is not installed; the plugin part.
    PluginNotFound(String),
    /// The scene opcode names no scene operation.
    UnknownSceneOp(String),
    /// The yield table has no `args`.
    MissingArgs,
    /// A sleep longer than `i64::MAX` seconds.
    SleepTooLong,
}

/// How a yield is read, given whether the yielded value is a table and the
/// table's `kind` field if it holds a string: a missing `kind` means a plugin
/// yield.
pub fn classify_yield(is_table: bool, kind: Option<&str>) -> (r: Result<YieldKind, SceneError>)
    ensures
        !is_table ==> r matches Err(SceneError::NotATable),
        is_table && kind is None ==> r == Ok::<YieldKind, SceneError>(YieldKind::Plugin),
        is_table && kind is Some ==> match yield_kind_from_text(kind->0@) {
            Some(k) => r == Ok::<YieldKind, SceneError>(k),
            None => r matches Err(SceneError::InvalidKind(t)) && t@ == kind->0@,
        },
{
    if !is_table {
        return Err(SceneError::NotATable);
    }
    match kind {
        None => Ok(YieldKind::Plugin),
        Some(k) => match YieldKind::parse(k) {
            Some(kind) => Ok(kind),
            None => Err(SceneError::InvalidKind(k.to_owned())),
        },
    }
}

/// The seconds of `ctx.sleep` as a Lua integer; refused above `i64::MAX`.
pub fn sleep_seconds(seconds: u64) -> (r: Result<i64, SceneError>)
    ensures
        seconds <= i64::MAX ==> r == Ok::<i64, SceneError>(seconds as i64),
        seconds > i64::MAX ==> r matches Err(SceneError::SleepTooLong),
{
    if seconds <= 0x7fff_ffff_ffff_ffffu64 {
        Ok(seconds as i64)
    } else {
        Err(SceneError::SleepTooLong)
    }
}

/// What is known of a script function for labels: its name, its short
/// source, its source, and the line it is defined on.
pub struct FunctionInfo {
    pub name: Option<String>,
    pub short_src: Option<String>,
    pub source: Option<String>,
    pub line_defined: Option<usize>,
}

/// The source shown for a function: its short source, else its source,
/// else `<unknown>`.
pub open spec fn source_text(f: FunctionInfo) -> Seq<char> {
    match f.short_src {
        Some(s) => s@,
        None => match f.source {
            Some(s) => s@,
            None => "<unknown>"@,
        },
    }
}

/// `name at source:line`, leaving out what is unknown.
pub open spec fn location_text(f: FunctionInfo) -> Seq<char> {
    let src = source_text(f);
    match (f.name, f.line_defined) {
        (Some(n), Some(l)) => n@ + " at "@ + src + ":"@ + decimal_text(l as nat),
        (Some(n), None) => n@ + " at "@ + src,
        (None, Some(l)) => src + ":"@ + decimal_text(l as nat),
        (None, None) => src,
    }
}

/// Where a script function is defined, as shown in scene labels.
pub fn function_location(f: &FunctionInfo) -> (r: String)
    ensures
        r@ == location_text(*f),
{
    let src: String = match &f.short_src {
        Some(s) => s.clone(),
        None => match &f.source {
            Some(s) => s.clone(),
            None => "<unknown>".to_owned(),
        },
    };
    match (&f.name, f.line_defined) {
        (Some(n), Some(l)) => {
            let mut r = n.clone();
            r.append(" at ");
            r.append(src.as_str());
            r.append(":");
            push_decimal(&mut r, l as u64);
            r
        },
        (Some(n), None) => {
            let mut r = n.clone();
            r.append(" at ");
            r.append(src.as_str());
            r
        },
        (None, Some(l)) => {
            let mut r = src;
            r.append(":");
            push_decimal(&mut r, l as u64);
            r
        },
        (None, None) => src,
    }
}

/// The label of a chain of scripts run as one scene: `empty script chain`,
/// the one script's location, or the count and the locations joined by
/// ` -> `.
pub open spec fn chain_label_text(fs: Seq<FunctionInfo>) -> Seq<char> {
    if fs.len() == 0 {
        "empty script chain"@
    } else if fs.len() == 1 {
        location_text(fs[0])
    } else {
        decimal_text(fs.len()) + " scripts: "@ + joined(fs.map_values(|f: FunctionInfo| location_text(f)), " -> "@)
    }
}

/// The label of a chain of scripts.
pub fn script_chain_label(fs: &[FunctionInfo]) -> (r: String)
    ensures
        r@ == chain_label_text(fs@),
{
    let n = fs.len();
    if n == 0 {
        return "empty script chain".to_owned();
    }
    if n == 1 {
        return function_location(&fs[0]);
    }
    let ghost locs = fs@.map_values(|f: FunctionInfo| location_text(f));
    let mut joined_locs = function_location(&fs[0]);
    proof {
        assert(locs.take(1) =~= seq![locs[0]]);
    }
    let mut i: usize = 1;
    while i < n
        invariant
            n == fs@.len(),
            1 <= i <= n,
            locs == fs@.map_values(|f: FunctionInfo| location_text(f)),
            joined_locs@ == joined(locs.take(i as int), " -> "@),
        decreases n - i,
    {
        joined_locs.append(" -> ");
        let loc = function_location(&fs[i]);
        joined_locs.append(loc.as_str());
        proof {
            assert(locs.take(i as int + 1).drop_last() =~= locs.take(i as int));
            assert(locs.take(i as int + 1).last() == locs[i as int]);
        }
        i = i + 1;
    }
    proof {
        assert(locs.take(n as int) =~= locs);
    }
    let mut r = String::new();
    push_decimal(&mut r, n as u64);
    r.append(" scripts: ");
    r.append(joined_locs.as_str());
    r
}

/// The label of a task started by `scene.run`.
pub fn scene_run_label(fs: &[FunctionInfo]) -> (r: String)
    ensures
        r@ == "scene.run ("@ + chain_label_text(fs@) + ")"@,
{
    let mut r = String::new();
    r.append("scene.run (");
    let chain = script_chain_label(fs);
    r.append(chain.as_str());
    r.append(")");
    proof {
        assert(r@ =~= "scene.run ("@ + chain_label_text(fs@) + ")"@);
    }
    r
}

/// The label of a task started by `scene.play` for the scene `name`.
pub fn scene_play_label(name: &str, fs: &[FunctionInfo]) -> (r: String)
    ensures
        r@ == "scene.play(\""@ + name@ + "\") ("@ + chain_label_text(fs@) + ")"@,
{
    let mut r = String::new();
    r.append("scene.play(\"");
    r.append(name);
    r.append("\") (");
    let chain = script_chain_label(fs);
    r.append(chain.as_str());
    r.append(")");
    proof {
        assert(r@ =~= "scene.play(\""@ + name@ + "\") ("@ + chain_label_text(fs@) + ")"@);
    }
    r
}

/// A running scene coroutine.
pub struct SceneTask<T> {
    pub thread: T,
    pub label: String,
    pub waiting_on: Option<String>,
}

/// The text `default after `w``, or `default` when there is nothing waited on.
pub open spec fn waiting_phase_text(default: Seq<char>, waiting: Option<Seq<char>>) -> Seq<char> {
    match waiting {
        Some(w) => default + " after `"@ + w + "`"@,
        None => default,
    }
}

/// The report of a task error: for a running task its label, id, phase and
/// what it waits on; for an unknown task its id and the phase; then the
/// error, each line indented.
pub open spec fn task_report_text(
    label: Option<Seq<char>>,
    id: u64,
    phase: Seq<char>,
    waiting: Option<Seq<char>>,
    err: Seq<char>,
) -> Seq<char> {
    let head = match label {
        Some(l) => "[SCENE] "@ + l + "\n  task: "@ + decimal_text(id as nat) + "\n  phase: "@ + phase + match waiting {
            Some(w) => "\n  waiting on: "@ + w,
            None => Seq::<char>::empty(),
        },
        None => "[SCENE] "@ + "Unknown scene task "@ + decimal_text(id as nat) + "\n  phase: "@ + phase,
    };
    head + "\n  error:\n"@ + indented_text(err)
}

/// A message to the scene tasks: start a coroutine, hand a task the result
/// of what it waited on, cancel a task, or report that its operation failed.
pub enum SceneMessage<T, R> {
    AddTask { thread: T, label: String },
    Wake { task_id: u64, result: R },
    Cancel(u64),
    Error { task_id: u64, err: String },
}

/// What the caller does after a message: resume a task (with the scene
/// context for a new one, with the result for a woken one), log a report,
/// or nothing.
pub enum SceneStep<R> {
    Start(u64),
    Resume(u64, R),
    Report(String),
    NoIdLeft(String),
    Nothing,
}

/// The optional label and waited-on text of task `id`, as reports use them.
pub open spec fn task_label_of<T>(tasks: Map<u64, SceneTask<T>>, id: u64) -> Option<Seq<char>> {
    if tasks.contains_key(id) {
        Some(tasks[id].label@)
    } else {
        None
    }
}

pub open spec fn task_waiting_of<T>(tasks: Map<u64, SceneTask<T>>, id: u64) -> Option<Seq<char>> {
    if tasks.contains_key(id) {
        match tasks[id].waiting_on {
            Some(w) => Some(w@),
            None => None,
        }
    } else {
        None
    }
}

/// The report of task `id` failing in the phase named `default` (followed
/// by what it waits on), before it is dropped.
pub open spec fn failure_report<T>(tasks: Map<u64, SceneTask<T>>, id: u64, default: Seq<char>, err: Seq<char>) -> Seq<
    char,
> {
    task_report_text(
        task_label_of(tasks, id),
        id,
        waiting_phase_text(default, task_waiting_of(tasks, id)),
        task_waiting_of(tasks, id),
        err,
    )
}

/// The scene coroutines and the installed plugins they may yield to.
pub struct SceneManager<T, P> {
    tasks: HashMap<u64, SceneTask<T>>,
    next_id: u64,
    plugins: PluginComposer<P>,
}

impl<T, P> SceneManager<T, P> {
    /// The running tasks by id.
    pub closed spec fn tasks(&self) -> Map<u64, SceneTask<T>> {
        self.tasks@
    }

    /// The installed plugins.
    pub closed spec fn plugins(&self) -> Map<PluginName, P> {
        self.plugins@
    }

    /// The id the next task gets; every task id is below it.
    pub closed spec fn next_id(&self) -> u64 {
        self.next_id
    }

    pub closed spec fn wf(&self) -> bool {
        &&& self.plugins.wf()
        &&& forall|id: u64| self.tasks@.contains_key(id) ==> id < self.next_id
    }

    /// A manager with no tasks, dispatching to the plugins of `plugins`.
    pub fn new(plugins: PluginComposer<P>) -> (r: Self)
        requires
            plugins.wf(),
        ensures
            r.wf(),
            r.tasks() == Map::<u64, SceneTask<T>>::empty(),
            r.next_id() == 0,
            r.plugins() == plugins@,
    {
        SceneManager { tasks: HashMap::new(), next_id: 0, plugins }
    }

    /// The plugin installed under `name`.
    pub fn plugin(&self, name: PluginName) -> (r: Option<&P>)
        requires
            self.wf(),
        ensures
            r is Some <==> self.plugins().contains_key(name),
            r matches Some(p) ==> *p == self.plugins()[name],
    {
        self.plugins.get(name)
    }

    /// Whether a task is running under `id`.
    pub fn contains_task(&self, id: u64) -> (r: bool)
        requires
            self.wf(),
        ensures
            r == self.tasks().contains_key(id),
    {
        self.tasks.contains_key(&id)
    }

    /// Whether another task can be added (ids are never reused).
    pub fn can_add_task(&self) -> (r: bool)
        ensures
            r == (self.next_id() < u64::MAX),
    {
        self.next_id < u64::MAX
    }

    /// Adds a task that waits on nothing yet, under a fresh id that no task
    /// had before.
    pub fn add_task(&mut self, thread: T, label: String) -> (r: u64)
        requires
            old(self).wf(),
            old(self).next_id() < u64::MAX,
        ensures
            final(self).wf(),
            r == old(self).next_id(),
            !old(self).tasks().contains_key(r),
            final(self).tasks() == old(self).tasks().insert(
                r,
                SceneTask { thread, label, waiting_on: None },
            ),
            final(self).next_id() == old(self).next_id() + 1,
            final(self).plugins() == old(self).plugins(),
    {
        let id = self.next_id;
        self.tasks.insert(id, SceneTask { thread, label, waiting_on: None });
        self.next_id = self.next_id + 1;
        id
    }

    /// Drops the task `id`, if it is running, and returns it.
    pub fn remove_task(&mut self, id: u64) -> (r: Option<SceneTask<T>>)
        requires
            old(self).wf(),
        ensures
            final(self).wf(),
            final(self).tasks() == old(self).tasks().remove(id),
            r is Some <==> old(self).tasks().contains_key(id),
            r matches Some(t) ==> t == old(self).tasks()[id],
            final(self).next_id() == old(self).next_id(),
            final(self).plugins() == old(self).plugins(),
    {
        self.tasks.remove(&id)
    }

    /// The thread of task `id`.
    pub fn thread(&self, id: u64) -> (r: Option<&T>)
        requires
            self.wf(),
        ensures
            r is Some <==> self.tasks().contains_key(id),
            r matches Some(t) ==> *t == self.tasks()[id].thread,
    {
        match self.tasks.get(&id) {
            Some(task) => Some(&task.thread),
            None => None,
        }
    }

    /// The label of task `id`.
    pub fn label(&self, id: u64) -> (r: Option<&String>)
        requires
            self.wf(),
        ensures
            r is Some <==> self.tasks().contains_key(id),
            r matches Some(l) ==> *l == self.tasks()[id].label,
    {
        match self.tasks.get(&id) {
            Some(task) => Some(&task.label),
            None => None,
        }
    }

    /// What task `id` waits on, if it is running and waits on something.
    pub fn waiting_on(&self, id: u64) -> (r: Option<&String>)
        requires
            self.wf(),
        ensures
            self.tasks().contains_key(id) ==> match self.tasks()[id].waiting_on {
                Some(w) => r == Some(&w),
                None => r is None,
            },
            !self.tasks().contains_key(id) ==> r is None,
    {
        match self.tasks.get(&id) {
            Some(task) => task.waiting_on.as_ref(),
            None => None,
        }
    }

    /// Records that task `id`, if running, waits on `label`.
    pub fn set_waiting_on(&mut self, id: u64, label: String)
        requires
            old(self).wf(),
        ensures
            final(self).wf(),
            old(self).tasks().contains_key(id) ==> final(self).tasks() == old(self).tasks().insert(
                id,
                SceneTask { waiting_on: Some(label), ..old(self).tasks()[id] },
            ),
            !old(self).tasks().contains_key(id) ==> final(self).tasks() == old(self).tasks(),
            final(self).next_id() == old(self).next_id(),
            final(self).plugins() == old(self).plugins(),
    {
        match self.tasks.remove(&id) {
            Some(task) => {
                let SceneTask { thread, label: l, waiting_on: _ } = task;
                self.tasks.insert(id, SceneTask { thread, label: l, waiting_on: Some(label) });
                proof {
                    assert(self.tasks@ =~= old(self).tasks@.insert(
                        id,
                        SceneTask { waiting_on: Some(label), ..old(self).tasks@[id] },
                    ));
                }
            },
            None => {
                proof {
                    assert(self.tasks@ =~= old(self).tasks@);
                }
            },
        }
    }

    /// The phase text of an error report about task `id`: `default`, followed
    /// by what the task waits on when it is running and waits on something.
    pub fn waiting_phase(&self, id: u64, default: &str) -> (r: String)
        requires
            self.wf(),
        ensures
            r@ == waiting_phase_text(
                default@,
                if self.tasks().contains_key(id) {
                    match self.tasks()[id].waiting_on {
                        Some(w) => Some(w@),
                        None => None,
                    }
                } else {
                    None
                },
            ),
    {
        let mut r = default.to_owned();
        match self.waiting_on(id) {
            Some(w) => {
                r.append(" after `");
                r.append(w.as_str());
                r.append("`");
            },
            None => {},
        }
        r
    }

    /// The report of an error in task `id` during `phase`: the task's label,
    /// id, phase and what it waits on, then the error with each line
    /// indented; a task that is no longer running is reported as unknown.
    pub fn task_error_report(&self, id: u64, phase: &str, err: &str) -> (r: String)
        requires
            self.wf(),
        ensures
            r@ == task_report_text(
                if self.tasks().contains_key(id) {
                    Some(self.tasks()[id].label@)
                } else {
                    None
                },
                id,
                phase@,
                if self.tasks().contains_key(id) {
                    match self.tasks()[id].waiting_on {
                        Some(w) => Some(w@),
                        None => None,
                    }
                } else {
                    None
                },
                err@,
            ),
    {
        let ghost label_v = if self.tasks().contains_key(id) {
            Some(self.tasks()[id].label@)
        } else {
            None
        };
        let ghost waiting_v = if self.tasks().contains_key(id) {
            match self.tasks()[id].waiting_on {
                Some(w) => Some(w@),
                None => None,
            }
        } else {
            None
        };
        let mut r = String::new();
        r.append("[SCENE] ");
        match self.label(id) {
            Some(label) => {
                r.append(label.as_str());
                r.append("\n  task: ");
                push_decimal(&mut r, id);
                r.append("\n  phase: ");
                r.append(phase);
                match self.waiting_on(id) {
                    Some(w) => {
                        r.append("\n  waiting on: ");
                        r.append(w.as_str());
                        proof {
                            assert(waiting_v == Some(w@));
                            assert(r@ =~= "[SCENE] "@ + label@ + "\n  task: "@ + decimal_text(id as nat) + "\n  phase: "@
                                + phase@ + ("\n  waiting on: "@ + w@));
                        }
                    },
                    None => {
                        proof {
                            assert(waiting_v is None);
                            assert(r@ =~= "[SCENE] "@ + label@ + "\n  task: "@ + decimal_text(id as nat) + "\n  phase: "@
                                + phase@ + Seq::<char>::empty());
                        }
                    },
                }
                proof {
                    assert(label_v == Some(label@));
                }
            },
            None => {
                r.append("Unknown scene task ");
                push_decimal(&mut r, id);
                r.append("\n  phase: ");
                r.append(phase);
                proof {
                    assert(label_v is None);
                    assert(r@ =~= "[SCENE] "@ + "Unknown scene task "@ + decimal_text(id as nat) + "\n  phase: "@ + phase@);
                }
            },
        }
        let ghost head = r@;
        proof {
            assert(head =~= match label_v {
                Some(l) => "[SCENE] "@ + l + "\n  task: "@ + decimal_text(id as nat) + "\n  phase: "@ + phase@ + match waiting_v {
                    Some(w) => "\n  waiting on: "@ + w,
                    None => Seq::<char>::empty(),
                },
                None => "[SCENE] "@ + "Unknown scene task "@ + decimal_text(id as nat) + "\n  phase: "@ + phase@,
            });
        }
        r.append("\n  error:\n");
        let body = indent_lines(err);
        r.append(body.as_str());
        proof {
            assert(r@ =~= head + "\n  error:\n"@ + indented_text(err@));
        }
        r
    }

    /// Drops task `id` after it failed in the phase named `default`, and
    /// gives the report to log.
    pub fn fail_task(&mut self, id: u64, default: &str, err: &str) -> (r: String)
        requires
            old(self).wf(),
        ensures
            final(self).wf(),
            final(self).tasks() == old(self).tasks().remove(id),
            final(self).next_id() == old(self).next_id(),
            final(self).plugins() == old(self).plugins(),
            r@ == failure_report(old(self).tasks(), id, default@, err@),
    {
        let phase = self.waiting_phase(id, default);
        let report = self.task_error_report(id, phase.as_str(), err);
        self.remove_task(id);
        report
    }

    /// Takes one message: a new coroutine becomes a task to start (unless
    /// no id is left); a woken task is to be resumed with its result; a
    /// cancelled task is dropped; a task whose operation failed is dropped
    /// and reported.
    pub fn handle_message<R>(&mut self, msg: SceneMessage<T, R>) -> (r: SceneStep<R>)
        requires
            old(self).wf(),
        ensures
            final(self).wf(),
            final(self).plugins() == old(self).plugins(),
            match msg {
                SceneMessage::AddTask { thread, label } => if old(self).next_id() < u64::MAX {
                    &&& r matches SceneStep::Start(id) && id == old(self).next_id()
                    &&& final(self).tasks() == old(self).tasks().insert(
                        old(self).next_id(),
                        SceneTask { thread, label, waiting_on: None },
                    )
                    &&& final(self).next_id() == old(self).next_id() + 1
                } else {
                    &&& r matches SceneStep::NoIdLeft(l) && l@ == label@
                    &&& final(self).tasks() == old(self).tasks()
                    &&& final(self).next_id() == old(self).next_id()
                },
                SceneMessage::Wake { task_id, result } => {
                    &&& r == SceneStep::Resume(task_id, result)
                    &&& final(self).tasks() == old(self).tasks()
                    &&& final(self).next_id() == old(self).next_id()
                },
                SceneMessage::Cancel(task_id) => {
                    &&& r is Nothing
                    &&& final(self).tasks() == old(self).tasks().remove(task_id)
                    &&& final(self).next_id() == old(self).next_id()
                },
                SceneMessage::Error { task_id, err } => {
                    &&& r matches SceneStep::Report(t) && t@ == failure_report(
                        old(self).tasks(),
                        task_id,
                        "running async scene operation"@,
                        err@,
                    )
                    &&& final(self).tasks() == old(self).tasks().remove(task_id)
                    &&& final(self).next_id() == old(self).next_id()
                },
            },
    {
        match msg {
            SceneMessage::AddTask { thread, label } => {
                if self.can_add_task() {
                    let id = self.add_task(thread, label);
                    SceneStep::Start(id)
                } else {
                    SceneStep::NoIdLeft(label)
                }
            },
            SceneMessage::Wake { task_id, result } => SceneStep::Resume(task_id, result),
            SceneMessage::Cancel(task_id) => {
                self.remove_task(task_id);
                SceneStep::Nothing
            },
            SceneMessage::Error { task_id, err } => {
                let report = self.fail_task(task_id, "running async scene operation", err.as_str());
                SceneStep::Report(report)
            },
        }
    }

    /// Reads a plugin yield of task `id`: the opcode must be present and
    /// hold `_`; the task then waits on the opcode's label; the plugin part,
    /// lowercased, must name an installed plugin. Gives the plugin and the
    /// operation part.
    pub fn plan_plugin_yield(&mut self, id: u64, opcode: Option<&str>) -> (r: Result<
        (PluginName, String),
        SceneError,
    >)
        requires
            old(self).wf(),
        ensures
            final(self).wf(),
            final(self).next_id() == old(self).next_id(),
            final(self).plugins() == old(self).plugins(),
            final(self).tasks().dom() == old(self).tasks().dom(),
            opcode is None ==> (r matches Err(SceneError::MissingOpcode) && final(self).tasks()
                == old(self).tasks()),
            opcode is Some ==> match split_once_text(opcode->0@, '_') {
                None => (r matches Err(SceneError::InvalidOpcode(t)) && t@ == opcode->0@
                    && final(self).tasks() == old(self).tasks()),
                Some((prefix, op)) => {
                    &&& (old(self).tasks().contains_key(id) ==> (final(self).tasks()[id].waiting_on
                        matches Some(w) && w@ == unicode_lowercase(prefix) + seq!['.']
                        + unicode_lowercase(op)))
                    &&& match plugin_name_from_text(unicode_lowercase(prefix)) {
                        None => r matches Err(SceneError::UnknownPlugin(t)) && t@
                            == unicode_lowercase(prefix),
                        Some(n) => if old(self).plugins().contains_key(n) {
                            r matches Ok((m, o)) && m == n && o@ == op
                        } else {
                            r matches Err(SceneError::PluginNotFound(t)) && t@ == prefix
                        },
                    }
                },
            },
    {
        let opcode = match opcode {
            Some(o) => o,
            None => return Err(SceneError::MissingOpcode),
        };
        let (prefix, op) = match split_plugin_opcode(opcode) {
            Some(parts) => parts,
            None => return Err(SceneError::InvalidOpcode(opcode.to_owned())),
        };
        let label = label_for_plugin_op(prefix.as_str(), op.as_str());
        self.set_waiting_on(id, label);
        let name = match plugin_for_prefix(prefix.as_str()) {
            Some(n) => n,
            None => return Err(SceneError::UnknownPlugin(crate::text::to_lowercase(prefix.as_str()))),
        };
        if self.plugins.contains(name) {
            Ok((name, op))
        } else {
            Err(SceneError::PluginNotFound(prefix))
        }
    }

    /// Reads a scene yield of task `id`: the opcode must name a scene
    /// operation; for a sleep the task then waits on `scene.sleep`, and the
    /// seconds argument must be present. Gives the seconds to sleep.
    pub fn plan_scene_yield(&mut self, id: u64, opcode: Option<&str>, seconds: Option<u64>) -> (r:
        Result<u64, SceneError>)
        requires
            old(self).wf(),
        ensures
            final(self).wf(),
            final(self).next_id() == old(self).next_id(),
            final(self).plugins() == old(self).plugins(),
            final(self).tasks().dom() == old(self).tasks().dom(),
            opcode is None ==> (r matches Err(SceneError::MissingOpcode) && final(self).tasks()
                == old(self).tasks()),
            opcode is Some && scene_yield_op_from_text(opcode->0@) is None ==> (r matches Err(
                SceneError::UnknownSceneOp(t),
            ) && t@ == opcode->0@ && final(self).tasks() == old(self).tasks()),
            opcode is Some && scene_yield_op_from_text(opcode->0@) == Some(SceneYieldOp::Sleep) ==> {
                &&& (old(self).tasks().contains_key(id) ==> (final(self).tasks()[id].waiting_on
                    matches Some(w) && w@ == "scene.sleep"@))
                &&& match seconds {
                    Some(s) => r == Ok::<u64, SceneError>(s),
                    None => r matches Err(SceneError::MissingArgs),
                }
            },
    {
        let opcode = match opcode {
            Some(o) => o,
            None => return Err(SceneError::MissingOpcode),
        };
        match SceneYieldOp::parse(opcode) {
            None => Err(SceneError::UnknownSceneOp(opcode.to_owned())),
            Some(SceneYieldOp::Sleep) => {
                self.set_waiting_on(id, "scene.sleep".to_owned());
                match seconds {
                    Some(s) => Ok(s),
                    None => Err(SceneError::MissingArgs),
                }
            },
        }
    }
}

/// A task id that was ever handed out is never handed out again: every
/// running task's id is below the next id, and `add_task` hands out the next
/// id and then moves past it.
pub proof fn lemma_task_ids_never_reused<T, P>(m: SceneManager<T, P>, old_id: u64)
    requires
        m.wf(),
        m.tasks().contains_key(old_id) || old_id < m.next_id(),
    ensures
        old_id != m.next_id(),
{
}

} // verus!

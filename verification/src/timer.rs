//! Timer bookkeeping: timers waiting to be started, and the abort handles of
//! started timers, by timer id.
//!
//! Starting a timer is outside work: `take_pending` hands the waiting timers
//! out, and the caller reports each started task back with `record_handle`.

use vstd::prelude::*;
use crate::events::{EventScope, TimerEventData};
use crate::registry::Registry;

verus! {

/// A timer that a script registered.
pub enum TimerData {
    Timeout { id: String, seconds: u64, data: Option<serde_json::Value> },
    Interval { id: String, seconds: u64, data: Option<serde_json::Value> },
    Cron { id: String, schedule: CronSchedule, data: Option<serde_json::Value> },
}

/// The kind of a timer.
#[derive(Clone, Copy, Debug, PartialEq, Eq, Structural)]
pub enum TimerKind {
    Timeout,
    Interval,
    Cron,
}

pub open spec fn timer_id(t: TimerData) -> Seq<char> {
    match t {
        TimerData::Timeout { id, .. } => id@,
        TimerData::Interval { id, .. } => id@,
        TimerData::Cron { id, .. } => id@,
    }
}

pub open spec fn timer_kind(t: TimerData) -> TimerKind {
    match t {
        TimerData::Timeout { .. } => TimerKind::Timeout,
        TimerData::Interval { .. } => TimerKind::Interval,
        TimerData::Cron { .. } => TimerKind::Cron,
    }
}

impl TimerData {
    pub fn id(&self) -> (r: &String)
        ensures
            r@ == timer_id(*self),
    {
        match self {
            TimerData::Timeout { id, .. } => id,
            TimerData::Interval { id, .. } => id,
            TimerData::Cron { id, .. } => id,
        }
    }

    pub fn kind(&self) -> (r: TimerKind)
        ensures
            r == timer_kind(*self),
    {
        match self {
            TimerData::Timeout { .. } => TimerKind::Timeout,
            TimerData::Interval { .. } => TimerKind::Interval,
            TimerData::Cron { .. } => TimerKind::Cron,
        }
    }
}

/// A timer fired: its id and the data it was registered with.
pub struct TimerEvent {
    pub id: String,
    pub data: Option<serde_json::Value>,
}

/// Why a timer could not be created.
#[derive(Debug)]
pub enum TimerError {
    /// An interval or cron timer with this id is already running.
    AlreadyExists(String),
}

/// Whether creating `t` is refused: an interval or cron timer whose id
/// already has running tasks. Timeouts are never refused.
pub open spec fn create_refused<H>(handles: Map<Seq<char>, Vec<H>>, t: TimerData) -> bool {
    timer_kind(t) != TimerKind::Timeout && handles.contains_key(timer_id(t))
}

/// Timers waiting to be started, and abort handles of started ones by id.
pub struct TimerManager<H> {
    timers: Vec<TimerData>,
    handles: Registry<String, Vec<H>>,
}

impl<H> TimerManager<H> {
    /// Timers registered since the last tick, in registration order.
    pub closed spec fn pending(&self) -> Seq<TimerData> {
        self.timers@
    }

    /// The abort handles of started timers, by timer id.
    pub closed spec fn handles(&self) -> Map<Seq<char>, Vec<H>> {
        self.handles@
    }

    pub closed spec fn wf(&self) -> bool {
        self.handles.wf()
    }

    pub fn new() -> (r: Self)
        ensures
            r.wf(),
            r.pending() == Seq::<TimerData>::empty(),
            r.handles() == Map::<Seq<char>, Vec<H>>::empty(),
    {
        TimerManager { timers: Vec::new(), handles: Registry::new() }
    }

    /// Whether timers under `id` are running.
    pub fn contains_timer(&self, id: &String) -> (r: bool)
        requires
            self.wf(),
        ensures
            r == self.handles().contains_key(id@),
    {
        self.handles.contains_key(id)
    }

    /// Queues `timer` to be started at the next tick, unless it is an interval
    /// or cron timer whose id is already running.
    pub fn create_timer(&mut self, timer: TimerData) -> (r: Result<(), TimerError>)
        requires
            old(self).wf(),
        ensures
            final(self).wf(),
            r is Err <==> create_refused(old(self).handles(), timer),
            r matches Err(TimerError::AlreadyExists(id)) ==> id@ == timer_id(timer),
            r is Ok ==> final(self).pending() == old(self).pending().push(timer),
            r is Err ==> final(self).pending() == old(self).pending(),
            final(self).handles() == old(self).handles(),
    {
        let refused = match &timer {
            TimerData::Interval { id, .. } => self.handles.contains_key(id),
            TimerData::Cron { id, .. } => self.handles.contains_key(id),
            TimerData::Timeout { .. } => false,
        };
        if refused {
            let id = timer.id().clone();
            return Err(TimerError::AlreadyExists(id));
        }
        self.timers.push(timer);
        Ok(())
    }

    /// Forgets every running task under `id` and hands their abort handles
    /// back, so that the caller aborts them.
    pub fn cancel_timer(&mut self, id: String) -> (r: Vec<H>)
        requires
            old(self).wf(),
        ensures
            final(self).wf(),
            final(self).handles() == old(self).handles().remove(id@),
            final(self).pending() == old(self).pending(),
            old(self).handles().contains_key(id@) ==> r@ == old(self).handles()[id@]@,
            !old(self).handles().contains_key(id@) ==> r@.len() == 0,
    {
        match self.handles.remove(&id) {
            Some(hs) => hs,
            None => Vec::new(),
        }
    }

    /// Hands out the timers waiting to be started, leaving none waiting.
    pub fn take_pending(&mut self) -> (r: Vec<TimerData>)
        requires
            old(self).wf(),
        ensures
            final(self).wf(),
            r@ == old(self).pending(),
            final(self).pending() == Seq::<TimerData>::empty(),
            final(self).handles() == old(self).handles(),
    {
        let mut taken = Vec::new();
        std::mem::swap(&mut taken, &mut self.timers);
        taken
    }

    /// Records the abort handle of a task started for timer `id`, after
    /// those already recorded under that id.
    pub fn record_handle(&mut self, id: String, h: H)
        requires
            old(self).wf(),
        ensures
            final(self).wf(),
            final(self).pending() == old(self).pending(),
            final(self).handles().dom() == old(self).handles().dom().insert(id@),
            final(self).handles()[id@]@ == (if old(self).handles().contains_key(id@) {
                old(self).handles()[id@]@
            } else {
                Seq::<H>::empty()
            }).push(h),
            forall|k: Seq<char>| k != id@ && old(self).handles().contains_key(k) ==> final(self).handles()[k]
                == old(self).handles()[k],
    {
        let mut hs = match self.handles.remove(&id) {
            Some(hs) => hs,
            None => Vec::new(),
        };
        hs.push(h);
        self.handles.insert(id, hs);
    }
}

/// The event a fired timer schedules: addressed globally, carrying the
/// timer's id and data.
pub fn timer_fire_event(ev: TimerEvent) -> (r: (Vec<EventScope>, TimerEventData))
    ensures
        r.0@ == seq![EventScope::Global],
        r.1 matches TimerEventData::Fire { id, data } && id@ == ev.id@ && data == ev.data,
{
    let mut scopes = Vec::new();
    scopes.push(EventScope::Global);
    (scopes, TimerEventData::Fire { id: ev.id, data: ev.data })
}

/// Whether `cron::Schedule` parses the expression `s`.
pub uninterp spec fn cron_expression_accepted(s: Seq<char>) -> bool;

/// A parsed cron schedule, kept with the expression it was parsed from.
/// Only parsing makes one, so the schedule is always that of the
/// expression.
pub struct CronSchedule {
    expression: String,
    schedule: cron::Schedule,
}

impl View for CronSchedule {
    type V = Seq<char>;

    /// The expression the schedule was parsed from.
    closed spec fn view(&self) -> Seq<char> {
        self.expression@
    }
}

impl CronSchedule {
    pub closed spec fn parsed_schedule(&self) -> cron::Schedule {
        self.schedule
    }

    /// The expression the schedule was parsed from.
    pub fn expression(&self) -> (r: &str)
        ensures
            r@ == self@,
    {
        self.expression.as_str()
    }

    /// The parsed schedule, for the runtime that fires the timer.
    pub fn schedule(&self) -> (r: &cron::Schedule)
        ensures
            *r == self.parsed_schedule(),
    {
        &self.schedule
    }
}

impl Clone for CronSchedule {
    fn clone(&self) -> (r: Self)
        ensures
            r == *self,
    {
        CronSchedule { expression: self.expression.clone(), schedule: clone_schedule(&self.schedule) }
    }
}

/// Calls `<cron::Schedule as FromStr>::from_str` on `s` and keeps the
/// schedule with `s`. Whether parsing succeeds depends on the expression
/// alone and is named `cron_expression_accepted`; on failure the error's
/// text is handed back, which the contract leaves unsaid.
#[verifier::external_body]
fn parse_cron_schedule(s: &str) -> (r: Result<CronSchedule, String>)
    ensures
        r is Ok <==> cron_expression_accepted(s@),
        r matches Ok(c) ==> c@ == s@,
{
    match <cron::Schedule as std::str::FromStr>::from_str(s) {
        Ok(schedule) => Ok(CronSchedule { expression: s.to_owned(), schedule }),
        Err(e) => Err(e.to_string()),
    }
}

/// Calls `<cron::Schedule as Clone>::clone`, a derived clone: the copy is
/// equal to the schedule it was made from.
#[verifier::external_body]
fn clone_schedule(s: &cron::Schedule) -> (r: cron::Schedule)
    ensures
        r == *s,
{
    s.clone()
}

/// Why a timer builder cannot register a timer.
#[derive(Debug)]
pub enum TimerRxError {
    /// The cron expression did not parse; the parser's message.
    InvalidCron(String),
    /// No kind (timeout, interval or cron) was chosen.
    NoKind,
    /// A cron timer without a schedule.
    NoSchedule,
}

/// A timer being described by a script: its kind, period and schedule.
pub struct TimerRx {
    pub kind: Option<TimerKind>,
    pub seconds: Option<u64>,
    pub schedule: Option<CronSchedule>,
}

impl Clone for TimerRx {
    fn clone(&self) -> (r: Self)
        ensures
            r == *self,
    {
        let schedule = match &self.schedule {
            Some(s) => Some(s.clone()),
            None => None,
        };
        TimerRx { kind: self.kind, seconds: self.seconds, schedule }
    }
}

/// The timer that `register` builds from a builder, an id and data; `None`
/// when the builder is refused.
pub open spec fn timer_from_builder(
    b: TimerRx,
    id: String,
    data: Option<serde_json::Value>,
) -> Option<TimerData> {
    let seconds = match b.seconds {
        Some(s) => s,
        None => 0,
    };
    match b.kind {
        None => None,
        Some(TimerKind::Timeout) => Some(TimerData::Timeout { id, seconds, data }),
        Some(TimerKind::Interval) => Some(TimerData::Interval { id, seconds, data }),
        Some(TimerKind::Cron) => match b.schedule {
            Some(schedule) => Some(TimerData::Cron { id, schedule, data }),
            None => None,
        },
    }
}

impl TimerRx {
    /// A builder with nothing chosen.
    pub fn new() -> (r: Self)
        ensures
            r.kind is None && r.seconds is None && r.schedule is None,
    {
        TimerRx { kind: None, seconds: None, schedule: None }
    }

    /// A one-shot timer after `seconds`.
    pub fn timeout(self, seconds: u64) -> (r: Self)
        ensures
            r == (TimerRx { kind: Some(TimerKind::Timeout), seconds: Some(seconds), ..self }),
    {
        TimerRx { kind: Some(TimerKind::Timeout), seconds: Some(seconds), ..self }
    }

    /// A timer repeating every `seconds`.
    pub fn interval(self, seconds: u64) -> (r: Self)
        ensures
            r == (TimerRx { kind: Some(TimerKind::Interval), seconds: Some(seconds), ..self }),
    {
        TimerRx { kind: Some(TimerKind::Interval), seconds: Some(seconds), ..self }
    }

    /// A timer following a cron expression; refused when it does not parse.
    pub fn cron(self, expression: &str) -> (r: Result<Self, TimerRxError>)
        ensures
            r is Ok <==> cron_expression_accepted(expression@),
            r matches Ok(b) ==> b.kind == Some(TimerKind::Cron) && b.seconds == self.seconds
                && (b.schedule matches Some(c) && c@ == expression@),
    {
        match parse_cron_schedule(expression) {
            Ok(schedule) => Ok(TimerRx { kind: Some(TimerKind::Cron), schedule: Some(schedule), ..self }),
            Err(msg) => Err(TimerRxError::InvalidCron(msg)),
        }
    }

    /// The timer described, under `id` with `data`; the period defaults to
    /// zero seconds.
    pub fn register(&self, id: String, data: Option<serde_json::Value>) -> (r: Result<
        TimerData,
        TimerRxError,
    >)
        ensures
            match timer_from_builder(*self, id, data) {
                Some(t) => r == Ok::<TimerData, TimerRxError>(t),
                None => r is Err,
            },
            r matches Err(e) ==> (self.kind is None <==> e is NoKind),
    {
        let seconds = match self.seconds {
            Some(s) => s,
            None => 0,
        };
        match self.kind {
            None => Err(TimerRxError::NoKind),
            Some(TimerKind::Timeout) => Ok(TimerData::Timeout { id, seconds, data }),
            Some(TimerKind::Interval) => Ok(TimerData::Interval { id, seconds, data }),
            Some(TimerKind::Cron) => match &self.schedule {
                Some(s) => Ok(TimerData::Cron { id, schedule: s.clone(), data }),
                None => Err(TimerRxError::NoSchedule),
            },
        }
    }
}

/// The data a timer carries, which its firing hands back.
pub open spec fn timer_data(t: TimerData) -> Option<serde_json::Value> {
    match t {
        TimerData::Timeout { data, .. } => data,
        TimerData::Interval { data, .. } => data,
        TimerData::Cron { data, .. } => data,
    }
}

/// A builder registers a timer exactly when it has a kind, and a schedule
/// if that kind is cron. The timer registered is of the builder's kind, under
/// the id and with the data it was registered with; a timeout or interval
/// lasts the builder's seconds (zero when unset), and a cron timer follows
/// the builder's schedule.
pub proof fn lemma_register_keeps_id_and_data(b: TimerRx, id: String, data: Option<serde_json::Value>)
    ensures
        timer_from_builder(b, id, data) is Some <==> (b.kind is Some && (b.kind == Some(TimerKind::Cron)
            ==> b.schedule is Some)),
        timer_from_builder(b, id, data) matches Some(t) ==> {
            &&& timer_id(t) == id@
            &&& timer_data(t) == data
            &&& b.kind == Some(timer_kind(t))
            &&& match t {
                TimerData::Timeout { seconds, .. } | TimerData::Interval { seconds, .. } => seconds == (
                match b.seconds {
                    Some(s) => s,
                    None => 0,
                }),
                TimerData::Cron { schedule, .. } => b.schedule == Some(schedule),
            }
        },
{
}

/// Once a timer's id has a recorded task, creating an interval or cron timer
/// under that id is refused until the timer is cancelled; after cancelling,
/// it is accepted again.
pub proof fn lemma_running_id_blocks_until_cancelled<H>(
    handles: Map<Seq<char>, Vec<H>>,
    t: TimerData,
)
    requires
        timer_kind(t) != TimerKind::Timeout,
        handles.contains_key(timer_id(t)),
    ensures
        create_refused(handles, t),
        !create_refused(handles.remove(timer_id(t)), t),
{
}

} // verus!

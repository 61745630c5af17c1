//! Event listeners: the listener records kept per event key, ordered by
//! priority, and the builder scripts use to subscribe.

use vstd::prelude::*;
use crate::events::{EventScope, GameModeEventKey, PlayerEventKey, TimerEventKey, WorldEventKey};
use crate::registry::{Registry, RegistryKey};
use crate::text::str_eq;

verus! {

impl View for GameModeEventKey {
    type V = GameModeEventKey;

    open spec fn view(&self) -> GameModeEventKey {
        *self
    }
}

impl RegistryKey for GameModeEventKey {
    fn key_eq(&self, other: &Self) -> (r: bool) {
        *self == *other
    }

    fn key_clone(&self) -> (r: Self) {
        *self
    }
}

/// A subscription of a script function to an event key.
pub struct GameModeListener<H> {
    pub name: Option<String>,
    pub scope: EventScope,
    pub priority: u32,
    pub handle: H,
    pub created_at_seq: u64,
}

/// What a listener is made from.
pub struct GameModeListenerParams<H> {
    pub name: Option<String>,
    pub created_at_seq: u64,
    pub scope: EventScope,
    pub handle: H,
    pub priority: u32,
}

impl<H> GameModeListener<H> {
    /// The event sequence number at which the listener was created.
    pub open spec fn seq(&self) -> u64 {
        self.created_at_seq
    }

    pub fn new(params: GameModeListenerParams<H>) -> (r: Self)
        ensures
            r.name == params.name,
            r.scope == params.scope,
            r.priority == params.priority,
            r.handle == params.handle,
            r.seq() == params.created_at_seq,
    {
        GameModeListener {
            name: params.name,
            scope: params.scope,
            priority: params.priority,
            handle: params.handle,
            created_at_seq: params.created_at_seq,
        }
    }

    pub fn get_seq(&self) -> (r: u64)
        ensures
            r == self.seq(),
    {
        self.created_at_seq
    }

    /// Whether an event with sequence number `seq` reaches the listener: only
    /// events scheduled after its creation do.
    pub fn accepts(&self, seq: u64) -> (r: bool)
        ensures
            r == (self.seq() < seq),
    {
        self.created_at_seq < seq
    }
}

/// Higher priority first; among equal priorities, earlier creation first.
pub open spec fn listeners_ordered<H>(s: Seq<GameModeListener<H>>) -> bool {
    forall|i: int, j: int|
        0 <= i < j < s.len() ==> (#[trigger] s[i]).priority > (#[trigger] s[j]).priority || (
        s[i].priority == s[j].priority && s[i].seq() < s[j].seq())
}

/// Higher priority first.
pub open spec fn priority_sorted<H>(s: Seq<GameModeListener<H>>) -> bool {
    forall|i: int, j: int| 0 <= i < j < s.len() ==> (#[trigger] s[i]).priority >= (#[trigger] s[j]).priority
}

/// Where a listener of priority `p` goes in a list sorted by priority: after
/// every listener of priority at least `p`.
pub open spec fn is_priority_slot<H>(s: Seq<GameModeListener<H>>, p: u32, k: int) -> bool {
    &&& 0 <= k <= s.len()
    &&& forall|i: int| 0 <= i < k ==> (#[trigger] s[i]).priority >= p
    &&& forall|i: int| k <= i < s.len() ==> (#[trigger] s[i]).priority < p
}

/// Some listener of `s` is named `n`.
pub open spec fn has_listener_named<H>(s: Seq<GameModeListener<H>>, n: Seq<char>) -> bool {
    exists|i: int| 0 <= i < s.len() && ((#[trigger] s[i]).name matches Some(m) && m@ == n)
}

/// The listener `l` with the given name would clash with a listener of `s`.
pub open spec fn name_taken<H>(s: Seq<GameModeListener<H>>, l: GameModeListener<H>) -> bool {
    l.name matches Some(n) && has_listener_named(s, n@)
}

/// Why a listener could not be added.
#[derive(Debug)]
pub enum ListenerError {
    /// A listener with this name already listens to the event key.
    DuplicateName(String),
}

/// The listeners of every event key, each list in dispatch order.
pub struct EventListeners<H> {
    lists: Registry<GameModeEventKey, Vec<GameModeListener<H>>>,
}

impl<H> EventListeners<H> {
    /// The listeners of `key` in dispatch order (none when the key has no list).
    pub closed spec fn listeners(&self, key: GameModeEventKey) -> Seq<GameModeListener<H>> {
        if self.lists@.contains_key(key) {
            self.lists@[key]@
        } else {
            Seq::empty()
        }
    }

    /// The event keys that have a list.
    pub closed spec fn keys(&self) -> Set<GameModeEventKey> {
        self.lists@.dom()
    }

    pub closed spec fn wf(&self) -> bool {
        &&& self.lists.wf()
        &&& forall|k: GameModeEventKey| #[trigger] self.lists@.contains_key(k) ==> priority_sorted(
            self.lists@[k]@,
        )
    }

    pub fn new() -> (r: Self)
        ensures
            r.wf(),
            forall|k: GameModeEventKey| r.listeners(k) == Seq::<GameModeListener<H>>::empty(),
    {
        EventListeners { lists: Registry::new() }
    }

    /// Adds `l` to the listeners of `key`, after every listener of at least
    /// its priority. Refused when `l` is named and a listener of `key` has the
    /// same name; the key then has a list all the same, as before.
    #[verifier::loop_isolation(false)]
    pub fn add_listener(&mut self, key: GameModeEventKey, l: GameModeListener<H>) -> (r: Result<
        (),
        ListenerError,
    >)
        requires
            old(self).wf(),
        ensures
            final(self).wf(),
            final(self).keys() == old(self).keys().insert(key),
            r is Err <==> name_taken(old(self).listeners(key), l),
            r matches Err(ListenerError::DuplicateName(n)) ==> l.name == Some(n),
            r is Err ==> forall|k: GameModeEventKey| final(self).listeners(k) == old(self).listeners(k),
            r is Ok ==> exists|p: int|
                is_priority_slot(old(self).listeners(key), l.priority, p) && final(self).listeners(key)
                    == old(self).listeners(key).insert(p, l),
            r is Ok ==> forall|k: GameModeEventKey| k != key ==> final(self).listeners(k)
                == old(self).listeners(k),
            r is Ok && listeners_ordered(old(self).listeners(key)) && (forall|i: int|
                0 <= i < old(self).listeners(key).len() ==> (#[trigger] old(self).listeners(key)[i]).seq()
                    < l.seq()) ==> listeners_ordered(final(self).listeners(key)),
    {
        let mut list = match self.lists.remove(&key) {
            Some(v) => v,
            None => Vec::new(),
        };
        let ghost s0 = list@;
        assert(self.lists.wf());
        assert(s0 == old(self).listeners(key));
        assert(priority_sorted(s0));
        // refuse a clashing name
        if let Some(n) = &l.name {
            if named_in(&list, n) {
                let name = n.clone();
                self.lists.insert(key, list);
                proof {
                    assert forall|k: GameModeEventKey| self.listeners(k) == old(self).listeners(k) by {
                        if k == key && !old(self).lists@.contains_key(key) {
                            assert(self.listeners(k) =~= old(self).listeners(k));
                        }
                    }
                }
                return Err(ListenerError::DuplicateName(name));
            }
        }
        // find the slot after every listener of at least this priority
        let mut p: usize = 0;
        while p < list.len() && list[p].priority >= l.priority
            invariant
                list@ == s0,
                p <= s0.len(),
                forall|j: int| 0 <= j < p ==> (#[trigger] s0[j]).priority >= l.priority,
            decreases s0.len() - p,
        {
            p = p + 1;
        }
        proof {
            assert forall|j: int| p <= j < s0.len() implies (#[trigger] s0[j]).priority < l.priority by {
                assert(s0[p as int].priority < l.priority);
                assert(s0[p as int].priority >= s0[j].priority);
            }
        }
        let ghost lnew = l;
        list.insert(p, l);
        proof {
            let s1 = list@;
            assert(s1 == s0.insert(p as int, lnew));
            assert(priority_sorted(s1)) by {
                assert forall|a: int, b: int| 0 <= a < b < s1.len() implies (#[trigger] s1[a]).priority
                    >= (#[trigger] s1[b]).priority by {
                    if a < p && b < p {
                        assert(s1[a] == s0[a] && s1[b] == s0[b]);
                    } else if a < p && b == p {
                        assert(s1[a] == s0[a]);
                    } else if a < p {
                        assert(s1[a] == s0[a] && s1[b] == s0[b - 1]);
                    } else if a == p {
                        assert(s1[b] == s0[b - 1]);
                    } else {
                        assert(s1[a] == s0[a - 1] && s1[b] == s0[b - 1]);
                    }
                }
            }
            if listeners_ordered(s0) && (forall|i: int|
                0 <= i < s0.len() ==> (#[trigger] s0[i]).seq() < lnew.seq()) {
                assert forall|a: int, b: int| 0 <= a < b < s1.len() implies (#[trigger] s1[a]).priority
                    > (#[trigger] s1[b]).priority || (s1[a].priority == s1[b].priority && s1[a].seq()
                    < s1[b].seq()) by {
                    if a < p && b < p {
                        assert(s1[a] == s0[a] && s1[b] == s0[b]);
                    } else if a < p && b == p {
                        assert(s1[a] == s0[a]);
                    } else if a < p {
                        assert(s1[a] == s0[a] && s1[b] == s0[b - 1]);
                    } else if a == p {
                        assert(s1[b] == s0[b - 1]);
                    } else {
                        assert(s1[a] == s0[a - 1] && s1[b] == s0[b - 1]);
                    }
                }
            }
        }
        self.lists.insert(key, list);
        proof {
            assert(is_priority_slot(s0, lnew.priority, p as int));
        }
        Ok(())
    }

    /// Drops the listener of `key` created at `seq`, if any.
    #[verifier::loop_isolation(false)]
    pub fn remove_listener(&mut self, key: GameModeEventKey, seq: u64)
        requires
            old(self).wf(),
        ensures
            final(self).wf(),
            final(self).keys() == old(self).keys(),
            final(self).listeners(key) == old(self).listeners(key).filter(
                |l: GameModeListener<H>| l.seq() != seq,
            ),
            forall|k: GameModeEventKey| k != key ==> final(self).listeners(k) == old(self).listeners(k),
            listeners_ordered(old(self).listeners(key)) ==> listeners_ordered(final(self).listeners(key)),
    {
        proof {
            if listeners_ordered(old(self).listeners(key)) {
                lemma_filter_keeps_order(old(self).listeners(key), |l: GameModeListener<H>| l.seq() != seq);
            }
        }
        match self.lists.remove(&key) {
            None => {
                proof {
                    reveal_with_fuel(Seq::<_>::filter, 1);
                    assert(self.lists@ =~= old(self).lists@);
                }
            },
            Some(list) => {
                let ghost s0 = list@;
                let ghost pred = |l: GameModeListener<H>| l.seq() != seq;
                let mut kept: Vec<GameModeListener<H>> = Vec::new();
                let n0 = list.len();
                let mut rest = list;
                let mut i: usize = 0;
                while rest.len() > 0
                    invariant
                        s0.len() == n0,
                        i + rest@.len() == s0.len(),
                        rest@ == s0.subrange(i as int, s0.len() as int),
                        kept@ == s0.subrange(0, i as int).filter(pred),
                        priority_sorted(s0),
                    decreases rest@.len(),
                {
                    let l = rest.remove(0);
                    proof {
                        assert(l == s0[i as int]);
                        reveal_with_fuel(Seq::<_>::filter, 1);
                        assert(s0.subrange(0, i as int + 1).drop_last() =~= s0.subrange(0, i as int));
                        assert(rest@ =~= s0.subrange(i as int + 1, s0.len() as int));
                    }
                    if l.created_at_seq != seq {
                        kept.push(l);
                    }
                    i = i + 1;
                }
                proof {
                    assert(s0.subrange(0, s0.len() as int) =~= s0);
                    assert(priority_sorted(kept@)) by {
                        lemma_filter_keeps_sorted(s0, pred);
                    }
                }
                self.lists.insert(key, kept);
                proof {
                    assert(self.lists@.dom() =~= old(self).lists@.dom());
                }
            },
        }
    }

    /// The listeners of `key` in dispatch order.
    pub fn listeners_of(&self, key: GameModeEventKey) -> (r: &[GameModeListener<H>])
        requires
            self.wf(),
        ensures
            r@ == self.listeners(key),
    {
        match self.lists.get(&key) {
            Some(v) => v.as_slice(),
            None => &[],
        }
    }
}

/// An event a script can subscribe to by name, optionally inside a namespace.
pub struct EventDescriptor {
    pub namespace: Option<&'static str>,
    pub name: &'static str,
    pub event_key: GameModeEventKey,
}

/// The events of the global `on` table, as (namespace, name, key).
pub open spec fn global_descriptor_table() -> Seq<(Seq<char>, Seq<char>, GameModeEventKey)> {
    seq![
        ("world"@, "awake"@, GameModeEventKey::World(WorldEventKey::Awake)),
        ("world"@, "impromptu"@, GameModeEventKey::World(WorldEventKey::Impromptu)),
        ("player"@, "online"@, GameModeEventKey::Player(PlayerEventKey::Online)),
        ("player"@, "offline"@, GameModeEventKey::Player(PlayerEventKey::Offline)),
        ("player"@, "input"@, GameModeEventKey::Player(PlayerEventKey::Input)),
        ("player"@, "enter"@, GameModeEventKey::Player(PlayerEventKey::Enter)),
        ("player"@, "exit"@, GameModeEventKey::Player(PlayerEventKey::Exit)),
        ("timer"@, "fire"@, GameModeEventKey::Timer(TimerEventKey::Fire)),
    ]
}

fn descriptor(ns: &'static str, name: &'static str, key: GameModeEventKey) -> (r: EventDescriptor)
    ensures
        r.namespace == Some(ns),
        r.name == name,
        r.event_key == key,
{
    EventDescriptor { namespace: Some(ns), name, event_key: key }
}

/// The events of the global `on` table.
pub fn global_event_descriptors() -> (r: Vec<EventDescriptor>)
    ensures
        r@.len() == global_descriptor_table().len(),
        forall|i: int| 0 <= i < r@.len() ==> ((#[trigger] r@[i]).namespace matches Some(ns) && ns@
            == global_descriptor_table()[i].0 && r@[i].name@ == global_descriptor_table()[i].1
            && r@[i].event_key == global_descriptor_table()[i].2),
{
    let mut v = Vec::new();
    v.push(descriptor("world", "awake", GameModeEventKey::World(WorldEventKey::Awake)));
    v.push(descriptor("world", "impromptu", GameModeEventKey::World(WorldEventKey::Impromptu)));
    v.push(descriptor("player", "online", GameModeEventKey::Player(PlayerEventKey::Online)));
    v.push(descriptor("player", "offline", GameModeEventKey::Player(PlayerEventKey::Offline)));
    v.push(descriptor("player", "input", GameModeEventKey::Player(PlayerEventKey::Input)));
    v.push(descriptor("player", "enter", GameModeEventKey::Player(PlayerEventKey::Enter)));
    v.push(descriptor("player", "exit", GameModeEventKey::Player(PlayerEventKey::Exit)));
    v.push(descriptor("timer", "fire", GameModeEventKey::Timer(TimerEventKey::Fire)));
    v
}

/// The namespace and name a script writes for an event: `on.world.awake`,
/// `on.player.enter`, `on.timer.fire` and so on.
pub open spec fn event_path(k: GameModeEventKey) -> (Seq<char>, Seq<char>) {
    match k {
        GameModeEventKey::World(WorldEventKey::Awake) => ("world"@, "awake"@),
        GameModeEventKey::World(WorldEventKey::Impromptu) => ("world"@, "impromptu"@),
        GameModeEventKey::Player(PlayerEventKey::Online) => ("player"@, "online"@),
        GameModeEventKey::Player(PlayerEventKey::Offline) => ("player"@, "offline"@),
        GameModeEventKey::Player(PlayerEventKey::Input) => ("player"@, "input"@),
        GameModeEventKey::Player(PlayerEventKey::Enter) => ("player"@, "enter"@),
        GameModeEventKey::Player(PlayerEventKey::Exit) => ("player"@, "exit"@),
        GameModeEventKey::Player(PlayerEventKey::Signal) => ("player"@, "signal"@),
        GameModeEventKey::Timer(TimerEventKey::Fire) => ("timer"@, "fire"@),
    }
}

/// `d` holds the global descriptors, as `global_event_descriptors` gives
/// them.
pub open spec fn describes_global_events(d: Seq<EventDescriptor>) -> bool {
    &&& d.len() == global_descriptor_table().len()
    &&& forall|i: int| 0 <= i < d.len() ==> ((#[trigger] d[i]).namespace matches Some(ns) && ns@
        == global_descriptor_table()[i].0 && d[i].name@ == global_descriptor_table()[i].1
        && d[i].event_key == global_descriptor_table()[i].2)
}

/// Every global descriptor is named after its event: its namespace and name
/// are those a script writes for its key. Looking a name up in the global
/// descriptors gives the event of that name, and every event but the player
/// signal is found under its name.
pub proof fn lemma_global_descriptors_named_by_event(d: Seq<EventDescriptor>, name: Seq<char>, k: GameModeEventKey)
    requires
        describes_global_events(d),
    ensures
        forall|i: int| 0 <= i < d.len() ==> ((#[trigger] d[i]).namespace matches Some(ns) && (ns@, d[i].name@)
            == event_path(d[i].event_key)),
        forall|i: int| is_first_named(d, name, i) ==> event_path(#[trigger] d[i].event_key).1 == name,
        k != GameModeEventKey::Player(PlayerEventKey::Signal) ==> exists|i: int|
            is_first_named(d, event_path(k).1, i) && #[trigger] d[i].event_key == k,
{
    reveal_strlit("world");
    reveal_strlit("player");
    reveal_strlit("timer");
    reveal_strlit("awake");
    reveal_strlit("impromptu");
    reveal_strlit("online");
    reveal_strlit("offline");
    reveal_strlit("input");
    reveal_strlit("enter");
    reveal_strlit("exit");
    reveal_strlit("fire");
    let t = global_descriptor_table();
    assert forall|i: int| 0 <= i < d.len() implies ((#[trigger] d[i]).namespace matches Some(ns) && (ns@, d[i].name@)
        == event_path(d[i].event_key)) by {
        assert(d[i].name@ == t[i].1);
    }
    if k != GameModeEventKey::Player(PlayerEventKey::Signal) {
        let i: int = match k {
            GameModeEventKey::World(WorldEventKey::Awake) => 0,
            GameModeEventKey::World(WorldEventKey::Impromptu) => 1,
            GameModeEventKey::Player(PlayerEventKey::Online) => 2,
            GameModeEventKey::Player(PlayerEventKey::Offline) => 3,
            GameModeEventKey::Player(PlayerEventKey::Input) => 4,
            GameModeEventKey::Player(PlayerEventKey::Enter) => 5,
            GameModeEventKey::Player(PlayerEventKey::Exit) => 6,
            GameModeEventKey::Player(PlayerEventKey::Signal) => 0,
            GameModeEventKey::Timer(TimerEventKey::Fire) => 7,
        };
        assert(d[0].name@ == t[0].1 && d[1].name@ == t[1].1 && d[2].name@ == t[2].1 && d[3].name@ == t[3].1);
        assert(d[4].name@ == t[4].1 && d[5].name@ == t[5].1 && d[6].name@ == t[6].1 && d[7].name@ == t[7].1);
        let names = seq!["awake"@, "impromptu"@, "online"@, "offline"@, "input"@, "enter"@, "exit"@, "fire"@];
        assert("awake"@.len() != "impromptu"@.len());
        assert("awake"@.len() != "online"@.len());
        assert("awake"@.len() != "offline"@.len());
        assert("awake"@[0] != "input"@[0]);
        assert("awake"@[0] != "enter"@[0]);
        assert("awake"@.len() != "exit"@.len());
        assert("awake"@.len() != "fire"@.len());
        assert("impromptu"@.len() != "online"@.len());
        assert("impromptu"@.len() != "offline"@.len());
        assert("impromptu"@.len() != "input"@.len());
        assert("impromptu"@.len() != "enter"@.len());
        assert("impromptu"@.len() != "exit"@.len());
        assert("impromptu"@.len() != "fire"@.len());
        assert("online"@.len() != "offline"@.len());
        assert("online"@.len() != "input"@.len());
        assert("online"@.len() != "enter"@.len());
        assert("online"@.len() != "exit"@.len());
        assert("online"@.len() != "fire"@.len());
        assert("offline"@.len() != "input"@.len());
        assert("offline"@.len() != "enter"@.len());
        assert("offline"@.len() != "exit"@.len());
        assert("offline"@.len() != "fire"@.len());
        assert("input"@[0] != "enter"@[0]);
        assert("input"@.len() != "exit"@.len());
        assert("input"@.len() != "fire"@.len());
        assert("enter"@.len() != "exit"@.len());
        assert("enter"@.len() != "fire"@.len());
        assert("exit"@[0] != "fire"@[0]);
        assert forall|j: int| 0 <= j < 8 implies (#[trigger] d[j]).name@ == names[j] by {
            assert(d[j].name@ == t[j].1);
        }
        assert(event_path(k).1 == names[i]);
        assert forall|j: int| 0 <= j < i implies (#[trigger] d[j]).name@ != event_path(k).1 by {
            assert(d[j].name@ == names[j]);
        }
        assert(is_first_named(d, event_path(k).1, i));
        assert(d[i].event_key == k);
    }
}

/// `i` is the first descriptor of `d` named `name`.
pub open spec fn is_first_named(d: Seq<EventDescriptor>, name: Seq<char>, i: int) -> bool {
    &&& 0 <= i < d.len()
    &&& d[i].name@ == name
    &&& forall|j: int| 0 <= j < i ==> (#[trigger] d[j]).name@ != name
}

/// The key of the first descriptor named `name`, as a lazy `on` table looks
/// events up by name; `None` when no descriptor has that name.
pub fn find_descriptor(d: &[EventDescriptor], name: &str) -> (r: Option<GameModeEventKey>)
    ensures
        match r {
            Some(k) => exists|i: int| is_first_named(d@, name@, i) && d@[i].event_key == k,
            None => forall|i: int| 0 <= i < d@.len() ==> (#[trigger] d@[i]).name@ != name@,
        },
{
    let mut i: usize = 0;
    while i < d.len()
        invariant
            i <= d@.len(),
            forall|j: int| 0 <= j < i ==> (#[trigger] d@[j]).name@ != name@,
        decreases d@.len() - i,
    {
        if str_eq(d[i].name, name) {
            assert(is_first_named(d@, name@, i as int));
            return Some(d[i].event_key);
        }
        i = i + 1;
    }
    None
}

/// Why a subscription builder refused a method.
#[derive(Debug)]
pub enum OnRxError {
    /// `bind_action` on an event other than `on.player.input`.
    BindActionNotInput,
    /// `named` on an event other than `on.timer.fire`.
    NamedNotTimer,
}

/// A subscription being built by a script: the event, its scope, the
/// listener's name and priority, and the operators its events go through.
pub struct OnRx<O> {
    pub event_key: GameModeEventKey,
    pub scope: EventScope,
    pub name: Option<String>,
    pub priority: u32,
    pub pipeline: Vec<O>,
}

impl<O> OnRx<O> {
    /// A subscription to `event_key` in `scope`, unnamed, of priority zero,
    /// with no operators.
    pub fn new(event_key: GameModeEventKey, scope: EventScope) -> (r: Self)
        ensures
            r.event_key == event_key,
            r.scope == scope,
            r.name is None,
            r.priority == 0,
            r.pipeline@.len() == 0,
    {
        OnRx { event_key, scope, name: None, priority: 0, pipeline: Vec::new() }
    }

    pub fn with_name(self, name: String) -> (r: Self)
        ensures
            r == (OnRx { name: Some(name), ..self }),
    {
        OnRx { name: Some(name), ..self }
    }

    pub fn with_priority(self, priority: u32) -> (r: Self)
        ensures
            r == (OnRx { priority, ..self }),
    {
        OnRx { priority, ..self }
    }

    /// Appends an operator to the pipeline.
    pub fn add_operator(&mut self, op: O)
        ensures
            final(self).pipeline@ == old(self).pipeline@.push(op),
            final(self).event_key == old(self).event_key,
            final(self).scope == old(self).scope,
            final(self).name == old(self).name,
            final(self).priority == old(self).priority,
    {
        self.pipeline.push(op);
    }

    /// `bind_action` is only for `on.player.input`.
    pub fn check_bind_action(&self) -> (r: Result<(), OnRxError>)
        ensures
            r is Ok <==> self.event_key == GameModeEventKey::Player(PlayerEventKey::Input),
    {
        if self.event_key == GameModeEventKey::Player(PlayerEventKey::Input) {
            Ok(())
        } else {
            Err(OnRxError::BindActionNotInput)
        }
    }

    /// `named` is only for `on.timer.fire`.
    pub fn check_named(&self) -> (r: Result<(), OnRxError>)
        ensures
            r is Ok <==> self.event_key == GameModeEventKey::Timer(TimerEventKey::Fire),
    {
        if self.event_key == GameModeEventKey::Timer(TimerEventKey::Fire) {
            Ok(())
        } else {
            Err(OnRxError::NamedNotTimer)
        }
    }

    /// The listener this subscription makes, created at `seq`.
    pub fn construct_listener<H>(&self, seq: u64, handle: H) -> (r: GameModeListener<H>)
        ensures
            r.name == self.name,
            r.scope == self.scope,
            r.priority == self.priority,
            r.handle == handle,
            r.seq() == seq,
    {
        let name = match &self.name {
            Some(n) => Some(n.clone()),
            None => None,
        };
        GameModeListener::new(GameModeListenerParams {
            name,
            created_at_seq: seq,
            scope: self.scope,
            handle,
            priority: self.priority,
        })
    }
}

/// Dropping listeners keeps a list in dispatch order.
pub proof fn lemma_filter_keeps_order<H>(
    s: Seq<GameModeListener<H>>,
    pred: spec_fn(GameModeListener<H>) -> bool,
)
    requires
        listeners_ordered(s),
    ensures
        listeners_ordered(s.filter(pred)),
    decreases s.len(),
{
    reveal_with_fuel(Seq::<_>::filter, 1);
    if s.len() > 0 {
        let t = s.drop_last();
        assert(listeners_ordered(t)) by {
            assert forall|a: int, b: int| 0 <= a < b < t.len() implies (#[trigger] t[a]).priority
                > (#[trigger] t[b]).priority || (t[a].priority == t[b].priority && t[a].seq() < t[b].seq()) by {
                assert(t[a] == s[a] && t[b] == s[b]);
            }
        }
        lemma_filter_keeps_order(t, pred);
        let f = t.filter(pred);
        assert(priority_sorted(t)) by {
            assert forall|a: int, b: int| 0 <= a < b < t.len() implies (#[trigger] t[a]).priority
                >= (#[trigger] t[b]).priority by {
            }
        }
        lemma_filter_keeps_sorted(t, pred);
        if pred(s.last()) {
            let g = f.push(s.last());
            assert forall|a: int, b: int| 0 <= a < b < g.len() implies (#[trigger] g[a]).priority
                > (#[trigger] g[b]).priority || (g[a].priority == g[b].priority && g[a].seq() < g[b].seq()) by {
                if b == f.len() {
                    assert(t.contains(f[a]));
                    let j = choose|j: int| 0 <= j < t.len() && t[j] == f[a];
                    assert(s[j] == t[j]);
                    assert(g[b] == s[s.len() - 1]);
                }
            }
        }
    }
}

/// Whether a listener of `list` is named `n`.
fn named_in<H>(list: &Vec<GameModeListener<H>>, n: &String) -> (r: bool)
    ensures
        r == has_listener_named(list@, n@),
{
    let mut i: usize = 0;
    while i < list.len()
        invariant
            i <= list@.len(),
            forall|j: int| 0 <= j < i ==> !((#[trigger] list@[j]).name matches Some(m) && m@ == n@),
        decreases list@.len() - i,
    {
        let same = match &list[i].name {
            Some(m) => str_eq(m.as_str(), n.as_str()),
            None => false,
        };
        if same {
            assert(has_listener_named(list@, n@));
            return true;
        }
        i = i + 1;
    }
    false
}

/// Filtering a list sorted by priority keeps it sorted.
pub proof fn lemma_filter_keeps_sorted<H>(
    s: Seq<GameModeListener<H>>,
    pred: spec_fn(GameModeListener<H>) -> bool,
)
    requires
        priority_sorted(s),
    ensures
        priority_sorted(s.filter(pred)),
        forall|i: int| 0 <= i < s.filter(pred).len() ==> s.contains(#[trigger] s.filter(pred)[i]),
    decreases s.len(),
{
    reveal_with_fuel(Seq::<_>::filter, 1);
    if s.len() > 0 {
        let t = s.drop_last();
        assert(priority_sorted(t)) by {
            assert forall|a: int, b: int| 0 <= a < b < t.len() implies (#[trigger] t[a]).priority
                >= (#[trigger] t[b]).priority by {
                assert(t[a] == s[a] && t[b] == s[b]);
            }
        }
        lemma_filter_keeps_sorted(t, pred);
        let f = t.filter(pred);
        assert forall|i: int| 0 <= i < f.len() implies #[trigger] f[i].priority >= s.last().priority by {
            assert(t.contains(f[i]));
            let j = choose|j: int| 0 <= j < t.len() && t[j] == f[i];
            assert(s[j] == t[j]);
        }
        assert forall|i: int| 0 <= i < s.filter(pred).len() implies s.contains(#[trigger] s.filter(pred)[i]) by {
            if i < f.len() {
                assert(t.contains(f[i]));
                let j = choose|j: int| 0 <= j < t.len() && t[j] == f[i];
                assert(s[j] == t[j]);
            } else {
                assert(s[s.len() - 1] == s.last());
            }
        }
    }
}

proof fn lemma_filter_keeps_all<H>(s: Seq<GameModeListener<H>>, pred: spec_fn(GameModeListener<H>) -> bool)
    requires
        forall|i: int| 0 <= i < s.len() ==> pred(#[trigger] s[i]),
    ensures
        s.filter(pred) == s,
    decreases s.len(),
{
    reveal_with_fuel(Seq::<_>::filter, 1);
    if s.len() > 0 {
        let t = s.drop_last();
        assert forall|i: int| 0 <= i < t.len() implies pred(#[trigger] t[i]) by {
            assert(t[i] == s[i]);
        }
        lemma_filter_keeps_all(t, pred);
        assert(pred(s[s.len() - 1]));
        assert(t.push(s.last()) =~= s);
    }
}

/// Dropping a listener right after adding it, by the sequence number it was
/// created at, gives back the listeners the key had before, provided none of
/// them was created at that same sequence number.
pub proof fn lemma_add_then_remove_listener<H>(s: Seq<GameModeListener<H>>, p: int, l: GameModeListener<H>)
    requires
        0 <= p <= s.len(),
        forall|i: int| 0 <= i < s.len() ==> (#[trigger] s[i]).seq() != l.seq(),
    ensures
        s.insert(p, l).filter(|x: GameModeListener<H>| x.seq() != l.seq()) == s,
{
    let pred = |x: GameModeListener<H>| x.seq() != l.seq();
    let a = s.take(p);
    let b = s.skip(p);
    assert(s.insert(p, l) =~= a + (seq![l] + b));
    Seq::filter_distributes_over_add(a, seq![l] + b, pred);
    Seq::filter_distributes_over_add(seq![l], b, pred);
    assert forall|i: int| 0 <= i < a.len() implies pred(#[trigger] a[i]) by {
        assert(a[i] == s[i]);
    }
    assert forall|i: int| 0 <= i < b.len() implies pred(#[trigger] b[i]) by {
        assert(b[i] == s[p + i]);
    }
    lemma_filter_keeps_all(a, pred);
    lemma_filter_keeps_all(b, pred);
    reveal_with_fuel(Seq::<_>::filter, 2);
    assert(seq![l].filter(pred) =~= Seq::<GameModeListener<H>>::empty()) by {
        assert(seq![l].drop_last() =~= Seq::<GameModeListener<H>>::empty());
    }
    assert(a + b =~= s);
    assert(a.filter(pred) + (Seq::<GameModeListener<H>>::empty() + b.filter(pred)) =~= s);
}

} // verus!

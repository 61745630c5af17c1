//! Input events: the kinds of input, the bindings a script sets as
//! defaults, and the registry that numbers input events by name.

use vstd::prelude::*;
use crate::registry::Registry;

verus! {

/// The shape of an input.
#[derive(Clone, Copy, Debug, PartialEq, Eq, Structural)]
pub enum InputKind {
    Vector2D,
    Axis,
    Button,
}

/// Default bindings of an input, by shape.
pub enum InputBindings<V, B, A> {
    Vector2D(V),
    Button(B),
    Axis(A),
}

impl<V, B, A> InputBindings<V, B, A> {
    /// The shape the bindings are for.
    pub fn kind(&self) -> (r: InputKind)
        ensures
            r == (match *self {
                InputBindings::Vector2D(_) => InputKind::Vector2D,
                InputBindings::Button(_) => InputKind::Button,
                InputBindings::Axis(_) => InputKind::Axis,
            }),
    {
        match self {
            InputBindings::Vector2D(_) => InputKind::Vector2D,
            InputBindings::Button(_) => InputKind::Button,
            InputBindings::Axis(_) => InputKind::Axis,
        }
    }
}

/// Why an input builder or the input registry refused a call.
#[derive(Debug)]
pub enum InputError {
    /// Default bindings were already set.
    CannotOverwrite,
    /// Registering without default bindings.
    NoBindings,
    /// An input event with this name is already registered.
    AlreadyExists(String),
}

/// An input being described by a script: its shape and default bindings.
pub struct InputRx<T> {
    pub kind: InputKind,
    pub bindings: Option<T>,
}

impl<T> InputRx<T> {
    pub fn new(kind: InputKind) -> (r: Self)
        ensures
            r.kind == kind,
            r.bindings is None,
    {
        InputRx { kind, bindings: None }
    }

    /// Default bindings may be set once.
    pub fn defaults_allowed(&self) -> (r: Result<(), InputError>)
        ensures
            r is Ok <==> self.bindings is None,
            r matches Err(e) ==> e is CannotOverwrite,
    {
        match self.bindings {
            Some(_) => Err(InputError::CannotOverwrite),
            None => Ok(()),
        }
    }

    /// Sets the default bindings, unless they were already set.
    pub fn set_defaults(&mut self, bindings: T) -> (r: Result<(), InputError>)
        ensures
            r is Ok <==> old(self).bindings is None,
            r is Ok ==> final(self).bindings == Some(bindings),
            r is Err ==> final(self).bindings == old(self).bindings,
            final(self).kind == old(self).kind,
    {
        match self.bindings {
            Some(_) => Err(InputError::CannotOverwrite),
            None => {
                self.bindings = Some(bindings);
                Ok(())
            },
        }
    }

    /// The bindings to register; refused when none were set.
    pub fn registered_bindings(&self) -> (r: Result<&T, InputError>)
        ensures
            self.bindings is None ==> r matches Err(InputError::NoBindings),
            self.bindings matches Some(b) ==> r == Ok::<&T, InputError>(&b),
    {
        match &self.bindings {
            Some(b) => Ok(b),
            None => Err(InputError::NoBindings),
        }
    }
}

/// A registered input event.
pub struct InputEvent<T> {
    pub name: String,
    pub bindings: T,
}

/// Registered input events, numbered in registration order, and their ids
/// by name.
pub struct InputEventRegistry<T> {
    events: Vec<InputEvent<T>>,
    name_to_id: Registry<String, usize>,
}

impl<T> InputEventRegistry<T> {
    /// The events, in registration order (an event's id is its position).
    pub closed spec fn events(&self) -> Seq<InputEvent<T>> {
        self.events@
    }

    /// The id of each registered name.
    pub closed spec fn ids(&self) -> Map<Seq<char>, usize> {
        self.name_to_id@
    }

    /// Every registered name maps to the event that bears it, and every
    /// event is registered under its name.
    pub closed spec fn wf(&self) -> bool {
        &&& self.name_to_id.wf()
        &&& forall|n: Seq<char>| #[trigger] self.name_to_id@.contains_key(n) ==> self.name_to_id@[n]
            < self.events@.len() && self.events@[self.name_to_id@[n] as int].name@ == n
        &&& forall|i: int| 0 <= i < self.events@.len() ==> self.name_to_id@.contains_key(
            (#[trigger] self.events@[i]).name@,
        ) && self.name_to_id@[self.events@[i].name@] == i
    }

    pub fn new() -> (r: Self)
        ensures
            r.wf(),
            r.events().len() == 0,
            r.ids() == Map::<Seq<char>, usize>::empty(),
    {
        InputEventRegistry { events: Vec::new(), name_to_id: Registry::new() }
    }

    /// Registers `bindings` under `name` with the next id; refused when the
    /// name is taken.
    pub fn register(&mut self, name: String, bindings: T) -> (r: Result<usize, InputError>)
        requires
            old(self).wf(),
        ensures
            final(self).wf(),
            r is Err <==> old(self).ids().contains_key(name@),
            r matches Err(InputError::AlreadyExists(n)) ==> n@ == name@,
            r is Err ==> final(self).events() == old(self).events() && final(self).ids() == old(self).ids(),
            r matches Ok(id) ==> id == old(self).events().len() && final(self).ids() == old(self).ids().insert(
                name@,
                id,
            ) && final(self).events().len() == id + 1 && final(self).events()[id as int].name@ == name@
                && final(self).events()[id as int].bindings == bindings && final(self).events().subrange(0, id as int)
                == old(self).events(),
    {
        if self.name_to_id.contains_key(&name) {
            return Err(InputError::AlreadyExists(name));
        }
        let id = self.events.len();
        let key = name.clone();
        self.name_to_id.insert(key, id);
        self.events.push(InputEvent { name, bindings });
        proof {
            let ev = self.events@;
            assert(ev.subrange(0, id as int) =~= old(self).events@);
            assert forall|n: Seq<char>| #[trigger] self.name_to_id@.contains_key(n) implies self.name_to_id@[n]
                < ev.len() && ev[self.name_to_id@[n] as int].name@ == n by {
                if n != name@ {
                    assert(old(self).name_to_id@.contains_key(n));
                    assert(ev[old(self).name_to_id@[n] as int] == old(self).events@[old(self).name_to_id@[n] as int]);
                }
            }
            assert forall|i: int| 0 <= i < ev.len() implies self.name_to_id@.contains_key(
                (#[trigger] ev[i]).name@,
            ) && self.name_to_id@[ev[i].name@] == i by {
                if i < id {
                    assert(ev[i] == old(self).events@[i]);
                    assert(ev[i].name@ != name@);
                }
            }
        }
        Ok(id)
    }

    /// The id registered for `name`.
    pub fn id_of(&self, name: &String) -> (r: Option<usize>)
        requires
            self.wf(),
        ensures
            r is Some <==> self.ids().contains_key(name@),
            r matches Some(id) ==> id == self.ids()[name@] && id < self.events().len()
                && self.events()[id as int].name@ == name@,
    {
        match self.name_to_id.get(name) {
            Some(id) => Some(*id),
            None => None,
        }
    }
}

} // verus!

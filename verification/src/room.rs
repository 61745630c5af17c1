//! Room names: scripts name rooms by text, the runtime keys them by the
//! text's hash, and the table kept here maps each id back to its name.

use vstd::prelude::*;
use std::collections::HashMap;
use std::hash::{Hash, Hasher};

verus! {

broadcast use vstd::std_specs::hash::group_hash_axioms;

/// Calls `ahash::AHasher::default()`, feeds `s` through `Hash::hash` and
/// returns `Hasher::finish`. The default hasher's keys are drawn once per
/// process, so nothing is promised of the value.
#[verifier::external_body]
pub fn get_str_hash(s: &str) -> u64 {
    let mut hasher = ahash::AHasher::default();
    s.hash(&mut hasher);
    hasher.finish()
}

/// Why a room id could not be turned back into a name.
#[derive(Debug)]
pub enum RoomError {
    /// No room name is known for this id.
    NameNotFound(u64),
}

/// The names of the rooms seen so far, by room id.
pub struct RoomNames {
    names: HashMap<u64, String>,
}

impl View for RoomNames {
    type V = Map<u64, String>;

    closed spec fn view(&self) -> Map<u64, String> {
        self.names@
    }
}

impl RoomNames {
    pub fn new() -> (r: Self)
        ensures
            r@ == Map::<u64, String>::empty(),
    {
        RoomNames { names: HashMap::new() }
    }

    /// The id of the room named `s`, recording the name under it (a later
    /// name with the same id replaces an earlier one).
    pub fn room_str_to_id(&mut self, s: &str) -> (r: u64)
        ensures
            final(self)@.dom() == old(self)@.dom().insert(r),
            final(self)@[r]@ == s@,
            forall|k: u64| k != r && old(self)@.contains_key(k) ==> final(self)@[k] == old(self)@[k],
    {
        let id = get_str_hash(s);
        self.names.insert(id, s.to_owned());
        id
    }

    /// The name recorded for room `id`.
    pub fn room_id_to_name(&self, id: u64) -> (r: Result<String, RoomError>)
        ensures
            r is Ok <==> room_name_of(self@, id) is Some,
            r matches Ok(n) ==> Some(n@) == room_name_of(self@, id),
            r matches Err(RoomError::NameNotFound(x)) ==> x == id,
    {
        match self.names.get(&id) {
            Some(n) => Ok(n.clone()),
            None => Err(RoomError::NameNotFound(id)),
        }
    }
}

/// A move of an entity between rooms: the room it was in, if any, and the
/// room it goes to.
#[derive(Clone, Copy, Debug, PartialEq, Eq, Structural)]
pub struct RoomWarp {
    pub from: Option<u64>,
    pub to: u64,
}

/// Moving an entity that was in room `previous` (if any) to the room named
/// `name`: records the name and gives the warp to replicate, whose target is
/// the room id the entity gets.
pub fn entity_room_change(names: &mut RoomNames, previous: Option<u64>, name: &str) -> (r: RoomWarp)
    ensures
        r.from == previous,
        final(names)@.dom() == old(names)@.dom().insert(r.to),
        final(names)@[r.to]@ == name@,
        forall|k: u64| k != r.to && old(names)@.contains_key(k) ==> final(names)@[k] == old(names)@[k],
{
    let to = names.room_str_to_id(name);
    RoomWarp { from: previous, to }
}

/// The name recorded under `id`, if any.
pub open spec fn room_name_of(names: Map<u64, String>, id: u64) -> Option<Seq<char>> {
    if names.contains_key(id) {
        Some(names[id]@)
    } else {
        None
    }
}

/// Looking up the id that `room_str_to_id` returned gives back the name it
/// was given, and every other recorded name is unchanged.
pub proof fn lemma_room_name_round_trip(
    before: Map<u64, String>,
    after: Map<u64, String>,
    id: u64,
    s: Seq<char>,
)
    requires
        after.dom() == before.dom().insert(id),
        after[id]@ == s,
        forall|k: u64| k != id && before.contains_key(k) ==> after[k] == before[k],
    ensures
        room_name_of(after, id) == Some(s),
        forall|k: u64| k != id ==> room_name_of(after, k) == room_name_of(before, k),
{
    assert forall|k: u64| k != id implies room_name_of(after, k) == room_name_of(before, k) by {
        assert(after.dom().contains(k) == before.dom().contains(k));
    }
}

} // verus!

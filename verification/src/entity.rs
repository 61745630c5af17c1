//! Entity blueprints and queries: the blueprint builder, the registry of
//! named blueprints, and the filters that entity queries apply.

use vstd::prelude::*;
use crate::registry::{Registry, RegistryKey};

verus! {

/// The built-in components an entity can carry.
#[derive(Clone, Copy, Debug, PartialEq, Eq, Structural, Hash)]
pub enum ComponentKey {
    Position,
    Rotation,
    Control,
    Sprite2D,
    SpriteChar,
    OwnedBy,
    Blueprint,
    Name,
    Room,
}

impl View for ComponentKey {
    type V = ComponentKey;

    open spec fn view(&self) -> ComponentKey {
        *self
    }
}

impl RegistryKey for ComponentKey {
    fn key_eq(&self, other: &Self) -> (r: bool) {
        *self == *other
    }

    fn key_clone(&self) -> (r: Self) {
        *self
    }
}

/// Why a blueprint call was refused.
#[derive(Debug)]
pub enum BlueprintError {
    /// `from(name)` on a blueprint that already has components or custom data.
    AlreadyHasData(String),
    /// No blueprint is registered under this name.
    NotFound(String),
    /// A blueprint is already registered under this name.
    AlreadyExists(String),
    /// Spawning while blueprints are being loaded.
    SpawnDuringLoading,
}

/// A blueprint: its id, optional name, components by key, and custom fields.
pub struct EntityBlueprint<C, V> {
    pub id: u64,
    pub name: Option<String>,
    pub components: Registry<ComponentKey, C>,
    pub customs: Option<Vec<(String, V)>>,
}

impl<C, V> EntityBlueprint<C, V> {
    pub open spec fn spec_id(&self) -> u64 {
        self.id
    }

    pub open spec fn wf(&self) -> bool {
        self.components.wf()
    }

    /// Whether `from` refuses this blueprint: it has components, or custom
    /// data that is present but empty. This is the guard `from` applies as
    /// it stands: an empty custom map counts as data, a non-empty one does
    /// not.
    pub open spec fn has_data(&self) -> bool {
        self.components@.len() > 0 || (self.customs matches Some(c) && c@.len() == 0)
    }

    /// An empty blueprint with id `id`.
    pub fn new(id: u64) -> (r: Self)
        ensures
            r.wf(),
            r.spec_id() == id,
            r.name is None,
            r.components@ == Map::<ComponentKey, C>::empty(),
            r.customs is None,
    {
        EntityBlueprint { id, name: None, components: Registry::new(), customs: None }
    }

    pub fn id(&self) -> (r: u64)
        ensures
            r == self.spec_id(),
    {
        self.id
    }

    pub fn with_name(self, name: String) -> (r: Self)
        ensures
            r.spec_id() == self.spec_id(),
            r.name == Some(name),
            r.components == self.components,
            r.customs == self.customs,
    {
        EntityBlueprint { name: Some(name), ..self }
    }

    /// Sets the component of `key`, replacing one already there.
    pub fn with_component(self, key: ComponentKey, data: C) -> (r: Self)
        requires
            self.wf(),
        ensures
            r.wf(),
            r.spec_id() == self.spec_id(),
            r.name == self.name,
            r.components@ == self.components@.insert(key, data),
            r.customs == self.customs,
    {
        let mut s = self;
        s.components.insert(key, data);
        s
    }

    /// Sets the custom fields; an empty set of fields clears them.
    pub fn with_customs(self, customs: Vec<(String, V)>) -> (r: Self)
        ensures
            r.spec_id() == self.spec_id(),
            r.name == self.name,
            r.components == self.components,
            customs@.len() == 0 ==> r.customs is None,
            customs@.len() > 0 ==> r.customs == Some(customs),
    {
        if customs.len() == 0 {
            EntityBlueprint { customs: None, ..self }
        } else {
            EntityBlueprint { customs: Some(customs), ..self }
        }
    }

    /// The components an entity spawned from the blueprint gets, by key, in
    /// order: the blueprint's own components except a blueprint marker, which
    /// cannot be set by hand; the spawn then adds the marker of this
    /// blueprint's id.
    pub fn spawn_keys(&self) -> (r: Vec<ComponentKey>)
        requires
            self.wf(),
        ensures
            forall|k: ComponentKey| r@.contains(k) <==> self.components@.contains_key(k) && k
                != ComponentKey::Blueprint,
            r@.no_duplicates(),
    {
        let n = self.components.len();
        let mut out: Vec<ComponentKey> = Vec::new();
        let mut i: usize = 0;
        proof {
            self.components.lemma_view();
        }
        while i < n
            invariant
                n == self.components.entries().len(),
                i <= n,
                self.components.wf(),
                self.components@ == crate::registry::entries_map(self.components.entries()),
                crate::registry::distinct_keys(self.components.entries()),
                out@.no_duplicates(),
                forall|k: ComponentKey| out@.contains(k) <==> exists|j: int|
                    0 <= j < i && (#[trigger] self.components.entries()[j]).0 == k && k != ComponentKey::Blueprint,
            decreases n - i,
        {
            let k = self.components.entry_at(i).0;
            let ghost before = out@;
            if k != ComponentKey::Blueprint {
                proof {
                    if before.contains(k) {
                        let j = choose|j: int|
                            0 <= j < i && (#[trigger] self.components.entries()[j]).0 == k && k != ComponentKey::Blueprint;
                        assert(self.components.entries()[j].0@ == self.components.entries()[i as int].0@);
                    }
                }
                out.push(k);
                proof {
                    assert forall|a: int, b: int| 0 <= a < out@.len() && 0 <= b < out@.len() && a != b implies out@[a]
                        != out@[b] by {
                        if a < before.len() && b < before.len() {
                            assert(out@[a] == before[a] && out@[b] == before[b]);
                        } else if a < before.len() {
                            assert(before.contains(out@[a]));
                        } else if b < before.len() {
                            assert(before.contains(out@[b]));
                        }
                    }
                }
            }
            proof {
                assert forall|q: ComponentKey| out@.contains(q) <==> exists|j: int|
                    0 <= j < i + 1 && (#[trigger] self.components.entries()[j]).0 == q && q
                        != ComponentKey::Blueprint by {
                    if k != ComponentKey::Blueprint {
                        assert(out@ == before.push(k));
                        assert(out@.contains(q) <==> (before.contains(q) || q == k)) by {
                            if out@.contains(q) {
                                let m = choose|m: int| 0 <= m < out@.len() && out@[m] == q;
                                if m < before.len() {
                                    assert(before[m] == q);
                                }
                            }
                            if before.contains(q) {
                                let m = choose|m: int| 0 <= m < before.len() && before[m] == q;
                                assert(out@[m] == q);
                            }
                            if q == k {
                                assert(out@[before.len() as int] == q);
                            }
                        }
                    }
                    if exists|j: int| 0 <= j < i + 1 && (#[trigger] self.components.entries()[j]).0 == q && q
                        != ComponentKey::Blueprint {
                        let j = choose|j: int| 0 <= j < i + 1 && (#[trigger] self.components.entries()[j]).0 == q
                            && q != ComponentKey::Blueprint;
                        if j < i {
                            assert(before.contains(q));
                        }
                    }
                    if before.contains(q) {
                        let j = choose|j: int| 0 <= j < i && (#[trigger] self.components.entries()[j]).0 == q && q
                            != ComponentKey::Blueprint;
                        assert(0 <= j < i + 1);
                    }
                }
            }
            i = i + 1;
        }
        proof {
            assert forall|k: ComponentKey| out@.contains(k) <==> self.components@.contains_key(k) && k
                != ComponentKey::Blueprint by {
                if self.components@.contains_key(k) {
                    let j = choose|j: int|
                        0 <= j < self.components.entries().len() && (#[trigger] self.components.entries()[j]).0@ == k;
                    assert(self.components.entries()[j].0 == k);
                }
            }
        }
        out
    }
}

/// Spawning is refused while blueprints are being loaded.
pub fn check_spawn_allowed(loading_blueprints: bool) -> (r: Result<(), BlueprintError>)
    ensures
        r is Ok <==> !loading_blueprints,
        r matches Err(e) ==> e is SpawnDuringLoading,
{
    if loading_blueprints {
        Err(BlueprintError::SpawnDuringLoading)
    } else {
        Ok(())
    }
}

/// How an entity is spawned from a blueprint: the components it gets by
/// key (besides the marker of the blueprint's id), whether its custom data
/// is stored, whether a spawn is marked for replication (it is when the
/// entity has a room), and the layer its despawn goes to, if any.
pub struct SpawnPlan {
    pub keys: Vec<ComponentKey>,
    pub blueprint_id: u64,
    pub store_customs: bool,
    pub mark_spawn: bool,
    pub cleanup_layer: Option<u64>,
}

impl<C, V> EntityBlueprint<C, V> {
    /// `bp:spawn()`: refused while blueprints are being loaded; otherwise the
    /// spawn keys, the blueprint id, custom data stored exactly when the
    /// blueprint has some, a spawn mark exactly when it has a room, and the
    /// last active layer, if any, to clean the entity up.
    pub fn spawn_plan(&self, loading_blueprints: bool, active_layers: &Vec<u64>) -> (r: Result<
        SpawnPlan,
        BlueprintError,
    >)
        requires
            self.wf(),
        ensures
            loading_blueprints ==> r matches Err(BlueprintError::SpawnDuringLoading),
            !loading_blueprints ==> (r matches Ok(p) && {
                &&& forall|k: ComponentKey| p.keys@.contains(k) <==> self.components@.contains_key(k) && k
                    != ComponentKey::Blueprint
                &&& p.keys@.no_duplicates()
                &&& p.blueprint_id == self.spec_id()
                &&& p.store_customs == self.customs is Some
                &&& p.mark_spawn == self.components@.contains_key(ComponentKey::Room)
                &&& p.cleanup_layer == (if active_layers@.len() == 0 {
                    None
                } else {
                    Some(active_layers@.last())
                })
            }),
    {
        check_spawn_allowed(loading_blueprints)?;
        let keys = self.spawn_keys();
        let store_customs = self.customs.is_some();
        let mark_spawn = self.components.contains_key(&ComponentKey::Room);
        let cleanup_layer = crate::layer::active_layer(active_layers);
        Ok(SpawnPlan { keys, blueprint_id: self.id, store_customs, mark_spawn, cleanup_layer })
    }
}

/// Named blueprints, and the next blueprint id.
pub struct BlueprintRegistry<C, V> {
    blueprints: Registry<String, EntityBlueprint<C, V>>,
    next_id: u64,
}

impl<C, V> BlueprintRegistry<C, V> {
    pub closed spec fn blueprints(&self) -> Map<Seq<char>, EntityBlueprint<C, V>> {
        self.blueprints@
    }

    pub closed spec fn next_id(&self) -> u64 {
        self.next_id
    }

    pub closed spec fn wf(&self) -> bool {
        &&& self.blueprints.wf()
        &&& forall|n: Seq<char>| #[trigger] self.blueprints@.contains_key(n) ==> self.blueprints@[n].wf()
    }

    pub fn new() -> (r: Self)
        ensures
            r.wf(),
            r.blueprints() == Map::<Seq<char>, EntityBlueprint<C, V>>::empty(),
            r.next_id() == 0,
    {
        BlueprintRegistry { blueprints: Registry::new(), next_id: 0 }
    }

    /// Whether another blueprint id can be handed out.
    pub fn can_increment_id(&self) -> (r: bool)
        ensures
            r == (self.next_id() < u64::MAX),
    {
        self.next_id < u64::MAX
    }

    /// Hands out a blueprint id that was not handed out before.
    pub fn increment_id(&mut self) -> (r: u64)
        requires
            old(self).next_id() < u64::MAX,
        ensures
            r == old(self).next_id(),
            final(self).next_id() == old(self).next_id() + 1,
            final(self).blueprints() == old(self).blueprints(),
            final(self).wf() == old(self).wf(),
    {
        let id = self.next_id;
        self.next_id = self.next_id + 1;
        id
    }

    /// Registers `bp` under `name`; refused when the name is taken.
    pub fn register(&mut self, name: String, bp: EntityBlueprint<C, V>) -> (r: Result<(), BlueprintError>)
        requires
            old(self).wf(),
            bp.wf(),
        ensures
            final(self).wf(),
            r is Err <==> old(self).blueprints().contains_key(name@),
            r matches Err(BlueprintError::AlreadyExists(n)) ==> n@ == name@,
            r is Err ==> final(self).blueprints() == old(self).blueprints(),
            r is Ok ==> final(self).blueprints() == old(self).blueprints().insert(name@, bp),
            final(self).next_id() == old(self).next_id(),
    {
        if self.blueprints.contains_key(&name) {
            return Err(BlueprintError::AlreadyExists(name));
        }
        let ghost nv = name@;
        self.blueprints.insert(name, bp);
        proof {
            assert forall|n: Seq<char>| #[trigger] self.blueprints@.contains_key(n) implies self.blueprints@[n].wf() by {
                if n != nv {
                    assert(old(self).blueprints@.contains_key(n));
                }
            }
        }
        Ok(())
    }

    /// The blueprint registered under `name`.
    pub fn get(&self, name: &String) -> (r: Option<&EntityBlueprint<C, V>>)
        requires
            self.wf(),
        ensures
            r is Some <==> self.blueprints().contains_key(name@),
            r matches Some(b) ==> *b == self.blueprints()[name@],
    {
        self.blueprints.get(name)
    }
}

impl<C: Clone, V: Clone> EntityBlueprint<C, V> {
    /// `from(name)`: the blueprint takes over copies of the components and
    /// custom fields of the blueprint registered under `name`, keeping its own
    /// id and name. Refused when it already has data, or when no blueprint is
    /// registered under `name`.
    pub fn from_registered(self, registry: &BlueprintRegistry<C, V>, name: &String) -> (r: Result<
        Self,
        BlueprintError,
    >)
        requires
            self.wf(),
            registry.wf(),
        ensures
            self.has_data() ==> (r matches Err(BlueprintError::AlreadyHasData(n)) && n@ == name@),
            !self.has_data() && !registry.blueprints().contains_key(name@) ==> (r matches Err(
                BlueprintError::NotFound(n),
            ) && n@ == name@),
            !self.has_data() && registry.blueprints().contains_key(name@) ==> (r matches Ok(b) && {
                let t = registry.blueprints()[name@];
                &&& b.wf()
                &&& b.spec_id() == self.spec_id()
                &&& b.name == self.name
                &&& b.components@.dom() == t.components@.dom()
                &&& b.components.entries().len() == t.components.entries().len()
                &&& forall|i: int| 0 <= i < t.components.entries().len() ==> (#[trigger] b.components.entries()[i]).0
                    == t.components.entries()[i].0 && cloned(t.components.entries()[i].1, b.components.entries()[i].1)
                &&& (t.customs is None <==> b.customs is None)
                &&& t.customs matches Some(tc) ==> (b.customs matches Some(bc) && bc@.len() == tc@.len() && forall|i: int|
                    0 <= i < tc@.len() ==> cloned(tc@[i], bc@[i]))
            }),
    {
        let has_customs = match &self.customs {
            Some(c) => c.len() == 0,
            None => false,
        };
        if self.components.len() > 0 || has_customs {
            return Err(BlueprintError::AlreadyHasData(name.clone()));
        }
        match registry.get(name) {
            Some(t) => {
                let components = t.components.clone_registry();
                let customs = match &t.customs {
                    Some(c) => Some(c.clone()),
                    None => None,
                };
                Ok(EntityBlueprint { id: self.id, name: self.name, components, customs })
            },
            None => Err(BlueprintError::NotFound(name.clone())),
        }
    }
}

/// The filters of an entity query: each set filter must hold of an entity
/// for it to match.
pub struct QueryFilter {
    pub owned_by: Option<u64>,
    pub named: Option<String>,
    pub in_room: Option<u64>,
    pub has_area: bool,
    pub blueprint_id: Option<u64>,
}

/// What an entity offers to a query: its blueprint, and its name, owner,
/// room and position where it has them; `in_area` says whether its position
/// lies in the query's area (read only when both exist).
pub struct EntityFacts {
    pub blueprint: u64,
    pub name: Option<String>,
    pub owned_by: Option<u64>,
    pub room: Option<u64>,
    pub has_position: bool,
    pub in_area: bool,
}

/// An optional component passes an optional filter when the component is
/// present and the filter is unset or agrees, or when both are absent.
pub open spec fn option_check<T>(filter: Option<T>, value: Option<T>) -> bool {
    match value {
        Some(v) => match filter {
            Some(f) => f == v,
            None => true,
        },
        None => filter is None,
    }
}

pub open spec fn query_matches(q: QueryFilter, e: EntityFacts) -> bool {
    &&& (q.blueprint_id matches Some(b) ==> b == e.blueprint)
    &&& option_check(q.owned_by, e.owned_by)
    &&& option_check(
        match q.named {
            Some(n) => Some(n@),
            None => None,
        },
        match e.name {
            Some(n) => Some(n@),
            None => None,
        },
    )
    &&& option_check(q.in_room, e.room)
    &&& if e.has_position {
        !q.has_area || e.in_area
    } else {
        !q.has_area
    }
}

/// What a query asks of an entity: each filter that is set holds of it, and
/// nothing else. A blueprint filter names the entity's blueprint; an owner,
/// name or room filter is met only by an entity that has that owner, that
/// name or that room; an area filter only by an entity with a position in
/// the area. A query with no filters matches every entity.
pub proof fn lemma_query_matches_meaning(q: QueryFilter, e: EntityFacts)
    ensures
        query_matches(q, e) <==> {
            &&& (q.blueprint_id matches Some(b) ==> e.blueprint == b)
            &&& (q.owned_by matches Some(o) ==> e.owned_by == Some(o))
            &&& (q.named matches Some(n) ==> (e.name matches Some(m) && m@ == n@))
            &&& (q.in_room matches Some(r) ==> e.room == Some(r))
            &&& (q.has_area ==> e.has_position && e.in_area)
        },
{
}

fn name_check(filter: &Option<String>, name: &Option<String>) -> (r: bool)
    ensures
        r == option_check(
            match *filter {
                Some(n) => Some(n@),
                None => None,
            },
            match *name {
                Some(n) => Some(n@),
                None => None,
            },
        ),
{
    match name {
        Some(n) => match filter {
            Some(f) => crate::text::str_eq(f.as_str(), n.as_str()),
            None => true,
        },
        None => filter.is_none(),
    }
}

fn id_check(filter: Option<u64>, value: Option<u64>) -> (r: bool)
    ensures
        r == option_check(filter, value),
{
    match value {
        Some(v) => match filter {
            Some(f) => f == v,
            None => true,
        },
        None => filter.is_none(),
    }
}

impl QueryFilter {
    /// A query with no filters.
    pub fn new() -> (r: Self)
        ensures
            r.owned_by is None && r.named is None && r.in_room is None && !r.has_area
                && r.blueprint_id is None,
    {
        QueryFilter { owned_by: None, named: None, in_room: None, has_area: false, blueprint_id: None }
    }

    /// Whether an entity matches every filter.
    pub fn matches(&self, e: &EntityFacts) -> (r: bool)
        ensures
            r == query_matches(*self, *e),
    {
        let blueprint_check = match self.blueprint_id {
            Some(b) => b == e.blueprint,
            None => true,
        };
        let ownership_check = id_check(self.owned_by, e.owned_by);
        let named_check = name_check(&self.named, &e.name);
        let room_check = id_check(self.in_room, e.room);
        let pos_check = if e.has_position {
            !self.has_area || e.in_area
        } else {
            !self.has_area
        };
        blueprint_check && ownership_check && named_check && room_check && pos_check
    }

    /// The positions of the entities that match, in order.
    pub fn matching_positions(&self, entities: &Vec<EntityFacts>) -> (r: Vec<usize>)
        ensures
            forall|k: int| 0 <= k < r@.len() ==> #[trigger] r@[k] < entities@.len() && query_matches(
                *self,
                entities@[r@[k] as int],
            ),
            forall|k1: int, k2: int| 0 <= k1 < k2 < r@.len() ==> r@[k1] < r@[k2],
            forall|i: int| 0 <= i < entities@.len() && query_matches(*self, #[trigger] entities@[i]) ==> r@.contains(
                i as usize,
            ),
    {
        let mut out: Vec<usize> = Vec::new();
        let mut i: usize = 0;
        while i < entities.len()
            invariant
                i <= entities@.len(),
                forall|k: int| 0 <= k < out@.len() ==> #[trigger] out@[k] < i && query_matches(
                    *self,
                    entities@[out@[k] as int],
                ),
                forall|k1: int, k2: int| 0 <= k1 < k2 < out@.len() ==> out@[k1] < out@[k2],
                forall|j: int| 0 <= j < i && query_matches(*self, #[trigger] entities@[j]) ==> out@.contains(
                    j as usize,
                ),
            decreases entities@.len() - i,
        {
            if self.matches(&entities[i]) {
                let ghost before = out@;
                out.push(i);
                proof {
                    assert(out@ == before.push(i));
                    assert forall|k: int| 0 <= k < out@.len() implies #[trigger] out@[k] < i + 1 && query_matches(
                        *self,
                        entities@[out@[k] as int],
                    ) by {
                        if k < before.len() {
                            assert(out@[k] == before[k]);
                        }
                    }
                    assert forall|j: int| 0 <= j < i + 1 && query_matches(*self, #[trigger] entities@[j]) implies out@.contains(
                        j as usize,
                    ) by {
                        if j < i {
                            let m = choose|m: int| 0 <= m < before.len() && before[m] == j as usize;
                            assert(out@[m] == j as usize);
                        } else {
                            assert(out@[before.len() as int] == i);
                        }
                    }
                }
            }
            i = i + 1;
        }
        out
    }
}

} // verus!

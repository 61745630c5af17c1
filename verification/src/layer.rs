//! Layers: groups of cleanup actions (despawning entities, dropping
//! listeners) that are run together when a layer is cleared.

use vstd::prelude::*;
use crate::registry::Registry;
use std::collections::HashMap;

verus! {

broadcast use vstd::std_specs::hash::group_hash_axioms;

/// A layer: its optional name and the cleanup actions registered in it.
pub struct LayerEntry<C> {
    pub name: Option<String>,
    pub cleaners: Vec<C>,
}

/// The layer that cleanup actions of newly made entities and listeners go
/// to: the last of the active layers, if any is active.
pub fn active_layer(active: &Vec<u64>) -> (r: Option<u64>)
    ensures
        active@.len() == 0 ==> r is None,
        active@.len() > 0 ==> r == Some(active@.last()),
{
    if active.len() == 0 {
        None
    } else {
        Some(active[active.len() - 1])
    }
}

/// The layers by id, the ids of named layers, and the next layer id.
pub struct LayerRegistry<C> {
    layers: HashMap<u64, LayerEntry<C>>,
    aliases: Registry<String, u64>,
    next_id: u64,
}

impl<C> LayerRegistry<C> {
    pub closed spec fn layers(&self) -> Map<u64, LayerEntry<C>> {
        self.layers@
    }

    pub closed spec fn aliases(&self) -> Map<Seq<char>, u64> {
        self.aliases@
    }

    pub closed spec fn next_id(&self) -> u64 {
        self.next_id
    }

    pub closed spec fn wf(&self) -> bool {
        self.aliases.wf()
    }

    pub fn new() -> (r: Self)
        ensures
            r.wf(),
            r.layers() == Map::<u64, LayerEntry<C>>::empty(),
            r.aliases() == Map::<Seq<char>, u64>::empty(),
            r.next_id() == 0,
    {
        LayerRegistry { layers: HashMap::new(), aliases: Registry::new(), next_id: 0 }
    }

    /// Hands out a layer id that was not handed out before.
    pub fn increment_id(&mut self) -> (r: u64)
        requires
            old(self).next_id() < u64::MAX,
        ensures
            r == old(self).next_id(),
            final(self).next_id() == old(self).next_id() + 1,
            final(self).layers() == old(self).layers(),
            final(self).aliases() == old(self).aliases(),
            final(self).wf() == old(self).wf(),
    {
        let id = self.next_id;
        self.next_id = self.next_id + 1;
        id
    }

    /// Whether another id can be handed out.
    pub fn can_increment_id(&self) -> (r: bool)
        ensures
            r == (self.next_id() < u64::MAX),
    {
        self.next_id < u64::MAX
    }

    /// Records layer `id`, named or not, with no cleanup actions yet.
    pub fn insert_layer(&mut self, id: u64, name: Option<String>)
        requires
            old(self).wf(),
        ensures
            final(self).wf(),
            final(self).layers().dom() == old(self).layers().dom().insert(id),
            final(self).layers()[id].cleaners@.len() == 0,
            final(self).layers()[id].name == name,
            forall|k: u64| k != id && old(self).layers().contains_key(k) ==> final(self).layers()[k]
                == old(self).layers()[k],
            name matches Some(n) ==> final(self).aliases() == old(self).aliases().insert(n@, id),
            name is None ==> final(self).aliases() == old(self).aliases(),
            final(self).next_id() == old(self).next_id(),
    {
        match &name {
            Some(n) => {
                self.aliases.insert(n.clone(), id);
            },
            None => {},
        }
        self.layers.insert(id, LayerEntry { name, cleaners: Vec::new() });
        proof {
            assert(self.layers@.dom() =~= old(self).layers@.dom().insert(id));
        }
    }

    /// Adds a cleanup action to layer `id`, if that layer exists.
    pub fn add_cleaner(&mut self, id: u64, cleaner: C)
        requires
            old(self).wf(),
        ensures
            final(self).wf(),
            final(self).layers().dom() == old(self).layers().dom(),
            old(self).layers().contains_key(id) ==> final(self).layers()[id].cleaners@ == old(
                self,
            ).layers()[id].cleaners@.push(cleaner) && final(self).layers()[id].name == old(self).layers()[id].name,
            forall|k: u64| k != id && old(self).layers().contains_key(k) ==> final(self).layers()[k]
                == old(self).layers()[k],
            final(self).aliases() == old(self).aliases(),
            final(self).next_id() == old(self).next_id(),
    {
        match self.layers.remove(&id) {
            Some(entry) => {
                let LayerEntry { name, cleaners } = entry;
                let mut cleaners = cleaners;
                cleaners.push(cleaner);
                self.layers.insert(id, LayerEntry { name, cleaners });
                proof {
                    assert(self.layers@.dom() =~= old(self).layers@.dom());
                }
            },
            None => {
                proof {
                    assert(self.layers@ =~= old(self).layers@);
                }
            },
        }
    }

    /// Removes layer `id` and, when it is named, the alias of its name;
    /// hands back its cleanup actions in registration order (none when the
    /// layer does not exist), for the caller to run.
    pub fn clear_layer_by_id(&mut self, id: u64) -> (r: Vec<C>)
        requires
            old(self).wf(),
        ensures
            final(self).wf(),
            final(self).layers() == old(self).layers().remove(id),
            old(self).layers().contains_key(id) ==> r@ == old(self).layers()[id].cleaners@,
            !old(self).layers().contains_key(id) ==> r@.len() == 0,
            old(self).layers().contains_key(id) ==> match old(self).layers()[id].name {
                Some(n) => final(self).aliases() == old(self).aliases().remove(n@),
                None => final(self).aliases() == old(self).aliases(),
            },
            !old(self).layers().contains_key(id) ==> final(self).aliases() == old(self).aliases(),
            final(self).next_id() == old(self).next_id(),
    {
        match self.layers.remove(&id) {
            Some(entry) => {
                match &entry.name {
                    Some(n) => {
                        self.aliases.remove(n);
                    },
                    None => {},
                }
                entry.cleaners
            },
            None => Vec::new(),
        }
    }

    /// Clears the layer named `name`; `None` when no layer has that name.
    pub fn clear_layer_by_name(&mut self, name: &String) -> (r: Option<Vec<C>>)
        requires
            old(self).wf(),
        ensures
            final(self).wf(),
            !old(self).aliases().contains_key(name@) ==> r is None && final(self).layers() == old(self).layers()
                && final(self).aliases() == old(self).aliases(),
            old(self).aliases().contains_key(name@) ==> r is Some && final(self).layers() == old(self).layers().remove(
                old(self).aliases()[name@],
            ),
            old(self).aliases().contains_key(name@) && old(self).layers().contains_key(
                old(self).aliases()[name@],
            ) ==> (r matches Some(v) && v@ == old(self).layers()[old(self).aliases()[name@]].cleaners@),
            old(self).aliases().contains_key(name@) && old(self).layers().contains_key(old(self).aliases()[name@])
                ==> match old(self).layers()[old(self).aliases()[name@]].name {
                Some(n) => final(self).aliases() == old(self).aliases().remove(n@),
                None => final(self).aliases() == old(self).aliases(),
            },
            old(self).aliases().contains_key(name@) && !old(self).layers().contains_key(old(self).aliases()[name@])
                ==> (r matches Some(v) && v@.len() == 0) && final(self).aliases() == old(self).aliases(),
            final(self).next_id() == old(self).next_id(),
    {
        let id = match self.aliases.get(name) {
            Some(id) => *id,
            None => return None,
        };
        Some(self.clear_layer_by_id(id))
    }
}

} // verus!

use vstd::prelude::*;

use std::collections::HashMap;

use crate::position::Position;

verus! {

/// One connected client's avatar: the identity of the connection that owns
/// it and its current position.
#[derive(Clone, Copy, Debug, PartialEq, Eq, Structural)]
pub struct SimulationEntity {
    pub identity: u128,
    pub translation: Position,
}

/// One identity directory entry: the triple of connection identity (the
/// key it is stored under), simulation entity, and outbound delivery
/// handle.
#[derive(Clone, Copy, Debug, PartialEq, Eq, Structural)]
pub struct DirectoryEntry {
    pub entity: SimulationEntity,
    pub outbound: u64,
}

/// The mapping from connection identity to simulation entity and outbound
/// delivery handle. Only the simulation loop mutates it, and it holds at
/// most one live entry per identity.
pub struct IdentityDirectory {
    map: HashMap<u128, DirectoryEntry>,
}

impl View for IdentityDirectory {
    type V = Map<u128, DirectoryEntry>;

    closed spec fn view(&self) -> Map<u128, DirectoryEntry> {
        self.map@
    }
}

impl IdentityDirectory {
    /// Every entry's entity is the avatar of the identity it is stored
    /// under.
    pub open spec fn wf(&self) -> bool {
        forall|id: u128| #[trigger]
            self@.contains_key(id) ==> self@[id].entity.identity == id
    }

    pub fn new() -> (r: IdentityDirectory)
        ensures
            r@ == Map::<u128, DirectoryEntry>::empty(),
            r.wf(),
    {
        IdentityDirectory { map: HashMap::new() }
    }

    /// Records a freshly connected client: its entity and the handle of
    /// its outbound delivery queue, under its connection identity. A
    /// second entry under the same identity replaces the first, so the
    /// directory keeps at most one live entry per identity.
    pub fn register(&mut self, identity: u128, entity: SimulationEntity, outbound: u64)
        requires
            entity.identity == identity,
            old(self).wf(),
        ensures
            final(self)@ == old(self)@.insert(identity, DirectoryEntry { entity, outbound }),
            final(self).wf(),
    {
        self.map.insert(identity, DirectoryEntry { entity, outbound });
        proof {
            assert forall|id: u128| #[trigger]
                self@.contains_key(id) implies self@[id].entity.identity == id by {
                if id != identity {
                    assert(old(self)@.contains_key(id));
                }
            }
        }
    }

    /// Looks an identity up before a movement command is applied; a miss
    /// means the command is dropped.
    pub fn lookup(&self, identity: u128) -> (r: Option<DirectoryEntry>)
        ensures
            r == if self@.contains_key(identity) {
                Some(self@[identity])
            } else {
                None::<DirectoryEntry>
            },
    {
        match self.map.get(&identity) {
            Some(e) => Some(*e),
            None => None,
        }
    }

    /// Removes a disconnected client's entry, releasing its entity and
    /// outbound handle.
    pub fn remove(&mut self, identity: u128)
        requires
            old(self).wf(),
        ensures
            final(self)@ == old(self)@.remove(identity),
            final(self).wf(),
    {
        self.map.remove(&identity);
        proof {
            assert forall|id: u128| #[trigger]
                self@.contains_key(id) implies self@[id].entity.identity == id by {
                assert(old(self)@.contains_key(id));
            }
        }
    }

    /// The number of live entries.
    pub fn len(&self) -> (r: usize)
        ensures
            r == self@.dom().len(),
    {
        self.map.len()
    }
}

} // verus!

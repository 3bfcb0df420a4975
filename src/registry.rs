//! The actor registry: a map from actor id to that actor's inbound sink.
use vstd::prelude::*;
use std::collections::HashMap;

use crate::ids::ActorId;

verus! {

broadcast use vstd::std_specs::hash::group_hash_axioms;

/// Maps the id of each live actor to the sink that feeds its input. At most
/// one entry is held per id; entries are never removed.
pub struct Registry<S> {
    sinks: HashMap<u128, S>,
}

impl<S> View for Registry<S> {
    type V = Map<u128, S>;

    closed spec fn view(&self) -> Map<u128, S> {
        self.sinks@
    }
}

impl<S> Registry<S> {
    /// A registry with no actor in it.
    pub fn new() -> (r: Self)
        ensures
            r@ == Map::<u128, S>::empty(),
    {
        Registry { sinks: HashMap::new() }
    }

    /// Installs `sink` as the input of actor `id`, replacing any earlier one.
    pub fn register(&mut self, id: ActorId, sink: S)
        ensures
            final(self)@ == old(self)@.insert(id.0, sink),
    {
        self.sinks.insert(id.0, sink);
    }

    /// The sink of actor `id`, if it is registered.
    pub fn lookup(&self, id: ActorId) -> (r: Option<&S>)
        ensures
            match r {
                Some(s) => self@.contains_key(id.0) && *s == self@[id.0],
                None => !self@.contains_key(id.0),
            },
    {
        self.sinks.get(&id.0)
    }

    /// Whether actor `id` is registered.
    pub fn contains(&self, id: ActorId) -> (r: bool)
        ensures
            r == self@.contains_key(id.0),
    {
        self.sinks.contains_key(&id.0)
    }
}

} // verus!

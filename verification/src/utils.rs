//! Maps keyed by id.
use std::collections::HashMap;

use vstd::prelude::*;

use crate::id::Id;

verus! {

broadcast use vstd::std_specs::hash::group_hash_axioms;

/// A map from ids to values.
#[derive(Debug)]
pub struct IdMap<T>(pub HashMap<Id, T>);

impl<T: View> View for IdMap<T> {
    type V = Map<Id, T::V>;

    open spec fn view(&self) -> Map<Id, T::V> {
        self.0@.map_values(|value: T| value@)
    }
}

impl<T> IdMap<T> {
    /// A map that holds nothing.
    pub fn new() -> (map: IdMap<T>)
        ensures
            map.0@ == Map::<Id, T>::empty(),
    {
        IdMap(HashMap::new())
    }
}

impl<T: View> IdMap<T> {
    /// The value of an id, if it has one.
    pub fn get(&self, id: &Id) -> (value: Option<&T>)
        ensures
            match value {
                Some(value) => self@.contains_key(*id) && value@ == self@[*id],
                None => !self@.contains_key(*id),
            },
    {
        self.0.get(id)
    }

    /// Gives an id a value, in place of the one that it has.
    pub fn insert(&mut self, id: Id, value: T)
        ensures
            final(self)@ == old(self)@.insert(id, value@),
    {
        let _ = self.0.insert(id, value);
        assert(self@ =~= old(self)@.insert(id, value@));
    }
}

impl<T: Clone> Clone for IdMap<T> {
    fn clone(&self) -> (copy: IdMap<T>)
        ensures
            copy.0@.dom() == self.0@.dom(),
            forall|id: Id| #[trigger]
                self.0@.contains_key(id) ==> cloned(self.0@[id], copy.0@[id]),
    {
        IdMap(self.0.clone())
    }
}

} // verus!

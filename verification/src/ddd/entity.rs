//! Immutable identity of a message or aggregate: a generated id plus a
//! human-readable name.

use crate::ddd::constants::{entity_anonymous, entity_anonymous_str};
use crate::util::fresh_uuid;
use vstd::prelude::*;

verus! {

/// Mathematical value of an [`Entity`]: its id and name as character
/// sequences.
pub ghost struct EntityV {
    pub id: Seq<char>,
    pub name: Seq<char>,
}

/// Immutable identity: `id` is generated once and never changes; `name`
/// is a human-readable category label.
#[derive(Debug, PartialEq)]
pub struct Entity {
    id: String,
    name: String,
}

impl View for Entity {
    type V = EntityV;

    closed spec fn view(&self) -> EntityV {
        EntityV { id: self.id@, name: self.name@ }
    }
}

impl Entity {
    /// Builds an entity from an explicit id and name.
    pub fn new(id: String, name: String) -> (r: Self)
        ensures
            r@.id == id@,
            r@.name == name@,
    {
        Entity { id, name }
    }

    /// Builds an entity with a freshly generated id and the given name.
    pub fn from_name(name: String) -> (r: Self)
        ensures
            r@.id.len() == 36,
            r@.name == name@,
    {
        Entity { id: fresh_uuid(), name }
    }

    /// The entity's id.
    pub fn id(&self) -> (r: String)
        ensures
            r@ == self@.id,
    {
        self.id.clone()
    }

    /// The entity's name.
    pub fn name(&self) -> (r: String)
        ensures
            r@ == self@.name,
    {
        self.name.clone()
    }
}

impl Clone for Entity {
    /// Clones preserve the entity's value exactly.
    fn clone(&self) -> (r: Self)
        ensures
            r == *self,
    {
        Entity { id: self.id.clone(), name: self.name.clone() }
    }
}

impl Default for Entity {
    /// The default entity has the anonymous well-known name and a freshly
    /// generated id.
    fn default() -> (r: Self)
        ensures
            r@.id.len() == 36,
            r@.name == entity_anonymous(),
    {
        Entity { id: fresh_uuid(), name: entity_anonymous_str().to_owned() }
    }
}

} // verus!

//! The concrete message kind used for domain events.

use crate::ddd::constants::{
    entity_id_key, entity_id_key_str, entity_key, entity_key_str, entity_name_key,
    entity_name_key_str, event_name_key, event_name_key_str,
};
use crate::ddd::entity::{Entity, EntityV};
use crate::ddd::metadata::{MetaData, Value, ValueV};
use crate::message::payload::Payload;
use crate::message::Message;
use vstd::prelude::*;

verus! {

/// Mathematical value of an [`EventMessage`].
#[verifier::ext_equal]
pub ghost struct EventMessageV {
    pub identifier: EntityV,
    pub metadata: Map<Seq<char>, ValueV>,
    pub payload: ValueV,
}

/// A message that carries a domain event. On construction the metadata is
/// stamped with the event's name and the originating entity's key, id and
/// name, in addition to any metadata added later.
#[derive(Debug)]
pub struct EventMessage {
    identifier: Entity,
    metadata: MetaData,
    payload: Payload,
}

impl View for EventMessage {
    type V = EventMessageV;

    closed spec fn view(&self) -> EventMessageV {
        EventMessageV {
            identifier: self.identifier@,
            metadata: self.metadata@,
            payload: self.payload@,
        }
    }
}

impl EventMessage {
    /// Builds an event message for the named event: the identifier gets a
    /// fresh id, and the metadata is stamped with the event name and the
    /// entity's key, id and name.
    pub fn new(event_name: String, payload: Value) -> (r: Self)
        ensures
            r@.identifier.name == event_name@,
            r@.identifier.id.len() == 36,
            r@.payload == payload@,
            r@.metadata == Map::<Seq<char>, ValueV>::empty().insert(
                event_name_key(),
                ValueV::Text(event_name@),
            ).insert(entity_key(), ValueV::Entity(r@.identifier)).insert(
                entity_id_key(),
                ValueV::Text(r@.identifier.id),
            ).insert(entity_name_key(), ValueV::Text(event_name@)),
    {
        let identifier = Entity::from_name(event_name);
        let metadata = MetaData::new().insert(
            event_name_key_str().to_owned(),
            Value::Text(identifier.name()),
        ).insert(entity_key_str().to_owned(), Value::Entity(identifier.clone())).insert(
            entity_id_key_str().to_owned(),
            Value::Text(identifier.id()),
        ).insert(entity_name_key_str().to_owned(), Value::Text(identifier.name()));
        EventMessage { identifier, metadata, payload: Payload::new(payload) }
    }

    /// Replaces the message's identifier; metadata and payload stay as
    /// they are.
    pub fn set_identifier(self, identifier: Entity) -> (r: Self)
        ensures
            r@.identifier == identifier@,
            r@.metadata == self@.metadata,
            r@.payload == self@.payload,
    {
        EventMessage { identifier, metadata: self.metadata, payload: self.payload }
    }

    /// Adds a metadata entry and returns the updated message.
    pub fn add_meta(self, key: String, value: Value) -> (r: Self)
        ensures
            r@.identifier == self@.identifier,
            r@.metadata == self@.metadata.insert(key@, value@),
            r@.payload == self@.payload,
    {
        EventMessage {
            identifier: self.identifier,
            metadata: self.metadata.insert(key, value),
            payload: self.payload,
        }
    }
}

impl Message for EventMessage {
    open spec fn spec_identifier(&self) -> EntityV {
        self@.identifier
    }

    open spec fn spec_metadata(&self) -> Map<Seq<char>, ValueV> {
        self@.metadata
    }

    open spec fn spec_payload(&self) -> ValueV {
        self@.payload
    }

    fn identifier(&self) -> (r: Entity) {
        self.identifier.clone()
    }

    fn metadata(&self) -> (r: MetaData) {
        self.metadata.clone()
    }

    fn payload(&self) -> (r: Payload) {
        self.payload.clone()
    }
}

impl Clone for EventMessage {
    /// Clones preserve the message's value.
    fn clone(&self) -> (r: Self)
        ensures
            r@ == self@,
    {
        EventMessage {
            identifier: self.identifier.clone(),
            metadata: self.metadata.clone(),
            payload: self.payload.clone(),
        }
    }
}

} // verus!

//! The fixed metadata keys used on every serialized message.

use vstd::prelude::*;

verus! {

/// Key under which an event message records the event's name.
pub open spec fn event_name_key() -> Seq<char> {
    "bor:event:name"@
}

/// Key under which an event message records its originating entity.
pub open spec fn entity_key() -> Seq<char> {
    "bor:entity"@
}

/// Key under which an event message records its entity's id.
pub open spec fn entity_id_key() -> Seq<char> {
    "bor:entity:id"@
}

/// Key under which an event message records its entity's name.
pub open spec fn entity_name_key() -> Seq<char> {
    "bor:entity:name"@
}

/// Key under which correlation data records the correlation id.
pub open spec fn correlation_id_key() -> Seq<char> {
    "bor:correlation:id"@
}

/// Key under which correlation data records the trace id.
pub open spec fn trace_id_key() -> Seq<char> {
    "bor:trace:id"@
}

/// Name given to entities that were created without one.
pub open spec fn entity_anonymous() -> Seq<char> {
    "bor:event:name/anonymous"@
}

/// The event-name key, as a runtime string.
pub fn event_name_key_str() -> (r: &'static str)
    ensures
        r@ == event_name_key(),
{
    "bor:event:name"
}

/// The entity key, as a runtime string.
pub fn entity_key_str() -> (r: &'static str)
    ensures
        r@ == entity_key(),
{
    "bor:entity"
}

/// The entity-id key, as a runtime string.
pub fn entity_id_key_str() -> (r: &'static str)
    ensures
        r@ == entity_id_key(),
{
    "bor:entity:id"
}

/// The entity-name key, as a runtime string.
pub fn entity_name_key_str() -> (r: &'static str)
    ensures
        r@ == entity_name_key(),
{
    "bor:entity:name"
}

/// The correlation-id key, as a runtime string.
pub fn correlation_id_key_str() -> (r: &'static str)
    ensures
        r@ == correlation_id_key(),
{
    "bor:correlation:id"
}

/// The trace-id key, as a runtime string.
pub fn trace_id_key_str() -> (r: &'static str)
    ensures
        r@ == trace_id_key(),
{
    "bor:trace:id"
}

/// The anonymous entity name, as a runtime string.
pub fn entity_anonymous_str() -> (r: &'static str)
    ensures
        r@ == entity_anonymous(),
{
    "bor:event:name/anonymous"
}

} // verus!

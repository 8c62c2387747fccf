//! Correlation that stamps a configured correlation id and propagates or
//! supplies a trace id.

use crate::correlation::CorrelationProvider;
use crate::ddd::constants::{
    correlation_id_key, correlation_id_key_str, trace_id_key, trace_id_key_str,
};
use crate::ddd::metadata::{MetaData, Value, ValueV};
use crate::message::generic::EventMessage;
use crate::message::Message;
use vstd::prelude::*;

verus! {

/// Always stamps the configured correlation id; propagates the source
/// message's trace id if present, otherwise stamps the configured
/// fallback trace id.
#[derive(Debug)]
pub struct OriginatorCorrelationProvider {
    correlation_id: String,
    trace_id: String,
}

impl OriginatorCorrelationProvider {
    /// The configured correlation id.
    pub closed spec fn spec_correlation_id(&self) -> Seq<char> {
        self.correlation_id@
    }

    /// The configured fallback trace id.
    pub closed spec fn spec_trace_id(&self) -> Seq<char> {
        self.trace_id@
    }

    /// Configures the provider with a correlation id and a fallback trace
    /// id.
    pub fn new(correlation_id: String, trace_id: String) -> (r: Self)
        ensures
            r.spec_correlation_id() == correlation_id@,
            r.spec_trace_id() == trace_id@,
    {
        OriginatorCorrelationProvider { correlation_id, trace_id }
    }
}

impl CorrelationProvider<EventMessage> for OriginatorCorrelationProvider {
    /// Exactly two entries: the configured correlation id, and the source
    /// message's trace id when present, else the configured fallback.
    open spec fn spec_correlation_for(&self, message: EventMessage) -> Map<Seq<char>, ValueV> {
        Map::<Seq<char>, ValueV>::empty().insert(
            correlation_id_key(),
            ValueV::Text(self.spec_correlation_id()),
        ).insert(
            trace_id_key(),
            if message.spec_metadata().contains_key(trace_id_key()) {
                message.spec_metadata()[trace_id_key()]
            } else {
                ValueV::Text(self.spec_trace_id())
            },
        )
    }

    fn correlation_for(&self, message: EventMessage) -> (r: MetaData) {
        let metadata = message.metadata();
        let trace = match metadata.get(trace_id_key_str()) {
            Some(value) => value,
            None => Value::Text(self.trace_id.clone()),
        };
        MetaData::new().insert(
            correlation_id_key_str().to_owned(),
            Value::Text(self.correlation_id.clone()),
        ).insert(trace_id_key_str().to_owned(), trace)
    }
}

/// Law: the originator policy always stamps its configured correlation id
/// whatever the source metadata holds; the derived trace id is the source
/// message's when present, and the configured fallback otherwise.
pub proof fn lemma_originator_correlation(
    provider: &OriginatorCorrelationProvider,
    message: EventMessage,
)
    ensures
        provider.spec_correlation_for(message).contains_key(correlation_id_key()),
        provider.spec_correlation_for(message)[correlation_id_key()] == ValueV::Text(
            provider.spec_correlation_id(),
        ),
        provider.spec_correlation_for(message).contains_key(trace_id_key()),
        provider.spec_correlation_for(message)[trace_id_key()] == (
        if message.spec_metadata().contains_key(trace_id_key()) {
            message.spec_metadata()[trace_id_key()]
        } else {
            ValueV::Text(provider.spec_trace_id())
        }),
{
    reveal_strlit("bor:correlation:id");
    reveal_strlit("bor:trace:id");
    assert(correlation_id_key().len() == 18);
    assert(trace_id_key().len() == 12);
    assert(correlation_id_key() != trace_id_key());
}

} // verus!

//! Correlation that combines the results of an ordered list of delegate
//! providers.

use crate::correlation::originator::OriginatorCorrelationProvider;
use crate::correlation::simple::SimpleCorrelationProvider;
use crate::correlation::CorrelationProvider;
use crate::ddd::metadata::{MetaData, ValueV};
use crate::message::generic::EventMessage;
use vstd::prelude::*;

verus! {

/// One delegate of a [`MultiCorrelationProvider`].
#[derive(Debug)]
pub enum CorrelationDelegate {
    Simple(SimpleCorrelationProvider),
    Originator(OriginatorCorrelationProvider),
}

impl CorrelationProvider<EventMessage> for CorrelationDelegate {
    open spec fn spec_correlation_for(&self, message: EventMessage) -> Map<Seq<char>, ValueV> {
        match *self {
            CorrelationDelegate::Simple(ref p) => p.spec_correlation_for(message),
            CorrelationDelegate::Originator(ref p) => p.spec_correlation_for(message),
        }
    }

    fn correlation_for(&self, message: EventMessage) -> (r: MetaData) {
        match self {
            CorrelationDelegate::Simple(p) => p.correlation_for(message),
            CorrelationDelegate::Originator(p) => p.correlation_for(message),
        }
    }
}

/// The combined correlation data of the delegates, merged in list order:
/// a later delegate's binding overrides an earlier one's.
pub open spec fn multi_correlation(
    delegates: Seq<CorrelationDelegate>,
    message: EventMessage,
) -> Map<Seq<char>, ValueV>
    decreases delegates.len(),
{
    if delegates.len() == 0 {
        Map::empty()
    } else {
        multi_correlation(delegates.drop_last(), message).union_prefer_right(
            delegates.last().spec_correlation_for(message),
        )
    }
}

/// Holds an ordered list of delegate providers; computes each delegate's
/// result and merges them in list order, later delegates overwriting
/// earlier ones on key collision.
#[derive(Debug)]
pub struct MultiCorrelationProvider {
    delegates: Vec<CorrelationDelegate>,
}

impl MultiCorrelationProvider {
    /// The configured delegates, in order.
    pub closed spec fn spec_delegates(&self) -> Seq<CorrelationDelegate> {
        self.delegates@
    }

    /// Configures the provider with its ordered delegates.
    pub fn new(delegates: Vec<CorrelationDelegate>) -> (r: Self)
        ensures
            r.spec_delegates() == delegates@,
    {
        MultiCorrelationProvider { delegates }
    }
}

impl CorrelationProvider<EventMessage> for MultiCorrelationProvider {
    open spec fn spec_correlation_for(&self, message: EventMessage) -> Map<Seq<char>, ValueV> {
        multi_correlation(self.spec_delegates(), message)
    }

    fn correlation_for(&self, message: EventMessage) -> (r: MetaData) {
        let mut data = MetaData::new();
        let mut i: usize = 0;
        while i < self.delegates.len()
            invariant
                i <= self.delegates@.len(),
                data@ == multi_correlation(self.delegates@.take(i as int), message),
            decreases self.delegates@.len() - i,
        {
            let cloned = message.clone();
            let correlation_data = self.delegates[i].correlation_for(cloned);
            data.extend(correlation_data);
            proof {
                let taken = self.delegates@.take(i + 1int);
                assert(taken.drop_last() =~= self.delegates@.take(i as int));
                assert(taken.last() == self.delegates@[i as int]);
                assert(self.delegates@[i as int].spec_correlation_for(cloned) == self.delegates@[i
                    as int].spec_correlation_for(message));
            }
            i += 1;
        }
        proof {
            assert(self.delegates@.take(self.delegates@.len() as int) =~= self.delegates@);
        }
        data
    }
}

/// Law: when the last delegate binds a key, the combined correlation data
/// binds that key to the last delegate's value, whatever earlier
/// delegates bound it to.
pub proof fn lemma_multi_last_delegate_wins(
    delegates: Seq<CorrelationDelegate>,
    message: EventMessage,
    key: Seq<char>,
)
    requires
        delegates.len() > 0,
        delegates.last().spec_correlation_for(message).contains_key(key),
    ensures
        multi_correlation(delegates, message).contains_key(key),
        multi_correlation(delegates, message)[key] == delegates.last().spec_correlation_for(
            message,
        )[key],
{
}

} // verus!

//! Correlation by a fixed set of header names.

use crate::correlation::CorrelationProvider;
use crate::ddd::metadata::{MetaData, ValueV};
use crate::message::generic::EventMessage;
use crate::message::Message;
use vstd::prelude::*;

verus! {

/// Copies through the configured header names: the source message's
/// entries under those keys become the correlation data; absent keys are
/// skipped.
#[derive(Debug)]
pub struct SimpleCorrelationProvider {
    header_names: Vec<String>,
}

impl SimpleCorrelationProvider {
    /// The configured header names, as character sequences.
    pub closed spec fn spec_header_names(&self) -> Seq<Seq<char>> {
        self.header_names@.map_values(|h: String| h@)
    }

    /// Configures the provider with the headers to copy through.
    pub fn new(header_names: Vec<String>) -> (r: Self)
        ensures
            r.spec_header_names() == header_names@.map_values(|h: String| h@),
    {
        SimpleCorrelationProvider { header_names }
    }
}

impl CorrelationProvider<EventMessage> for SimpleCorrelationProvider {
    /// The source metadata restricted to the configured header names.
    open spec fn spec_correlation_for(&self, message: EventMessage) -> Map<Seq<char>, ValueV> {
        message.spec_metadata().restrict(self.spec_header_names().to_set())
    }

    fn correlation_for(&self, message: EventMessage) -> (r: MetaData) {
        let mut data = MetaData::new();
        let metadata = message.metadata();
        let ghost md = message.spec_metadata();
        let mut i: usize = 0;
        while i < self.header_names.len()
            invariant
                i <= self.header_names@.len(),
                metadata@ == md,
                forall|k: Seq<char>| #[trigger]
                    data@.contains_key(k) ==> md.contains_key(k) && data@[k] == md[k] && exists|
                        j: int,
                    | 0 <= j < i && self.header_names@[j]@ == k,
                forall|j: int|
                    0 <= j < i && md.contains_key(#[trigger] self.header_names@[j]@)
                        ==> data@.contains_key(self.header_names@[j]@),
            decreases self.header_names@.len() - i,
        {
            let ghost before = data@;
            let header = &self.header_names[i];
            let ghost h = self.header_names@[i as int]@;
            match metadata.get(header.as_str()) {
                Some(value) => {
                    data.add(header.clone(), value);
                },
                None => {},
            }
            proof {
                assert forall|k: Seq<char>| #[trigger]
                    data@.contains_key(k) implies md.contains_key(k) && data@[k] == md[k] && exists|
                    j: int,
                | 0 <= j < i + 1 && self.header_names@[j]@ == k by {
                    if k == h && md.contains_key(h) {
                        assert(0 <= i < i + 1 && self.header_names@[i as int]@ == k);
                    } else {
                        assert(before.contains_key(k));
                        let j = choose|j: int| 0 <= j < i && self.header_names@[j]@ == k;
                        assert(0 <= j < i + 1 && self.header_names@[j]@ == k);
                    }
                }
            }
            i += 1;
        }
        proof {
            let names = self.header_names@;
            let mapped = self.spec_header_names();
            let spec_result = self.spec_correlation_for(message);
            assert forall|k: Seq<char>| data@.contains_key(k)
                == spec_result.contains_key(k) by {
                if data@.contains_key(k) {
                    let j = choose|j: int| 0 <= j < i && names[j]@ == k;
                    assert(mapped[j] == k);
                    assert(mapped.contains(k));
                    assert(mapped.to_set().contains(k));
                }
                if spec_result.contains_key(k) {
                    assert(mapped.to_set().contains(k));
                    let j = choose|j: int| 0 <= j < mapped.len() && mapped[j] == k;
                    assert(md.contains_key(names[j]@));
                }
            }
            assert(data@ =~= spec_result);
        }
        data
    }
}

} // verus!

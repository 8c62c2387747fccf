//! Key-value metadata carried beside a message payload. Keys are unique
//! strings; values are structured data that is not domain-specific
//! (for example an originating IP address or an executing user id).

use crate::ddd::entity::{Entity, EntityV};
use vstd::prelude::*;

verus! {

/// Mathematical value of a [`Value`].
pub ghost enum ValueV {
    Null,
    Bool(bool),
    Int(int),
    Text(Seq<char>),
    Entity(EntityV),
}

/// A structured value stored in metadata or carried as a payload.
#[derive(Debug, PartialEq)]
pub enum Value {
    Null,
    Bool(bool),
    Int(i64),
    Text(String),
    Entity(Entity),
}

impl View for Value {
    type V = ValueV;

    open spec fn view(&self) -> ValueV {
        match *self {
            Value::Null => ValueV::Null,
            Value::Bool(b) => ValueV::Bool(b),
            Value::Int(i) => ValueV::Int(i as int),
            Value::Text(ref s) => ValueV::Text(s@),
            Value::Entity(ref e) => ValueV::Entity(e@),
        }
    }
}

impl Clone for Value {
    /// Clones preserve the value's mathematical meaning.
    fn clone(&self) -> (r: Self)
        ensures
            r@ == self@,
    {
        match self {
            Value::Null => Value::Null,
            Value::Bool(b) => Value::Bool(*b),
            Value::Int(i) => Value::Int(*i),
            Value::Text(s) => Value::Text(s.clone()),
            Value::Entity(e) => Value::Entity(e.clone()),
        }
    }
}

/// The finite map described by an association list, where a later entry
/// overrides an earlier one with the same key.
pub open spec fn kv_map(s: Seq<(String, Value)>) -> Map<Seq<char>, ValueV>
    decreases s.len(),
{
    if s.len() == 0 {
        Map::empty()
    } else {
        kv_map(s.drop_last()).insert(s.last().0@, s.last().1@)
    }
}

/// All keys of the association list differ.
pub open spec fn distinct_keys(s: Seq<(String, Value)>) -> bool {
    forall|i: int, j: int| 0 <= i < j < s.len() ==> s[i].0@ != s[j].0@
}

/// On an association list with distinct keys, the derived map has exactly
/// the listed keys, bound to the listed values.
proof fn lemma_kv_map_props(s: Seq<(String, Value)>)
    requires
        distinct_keys(s),
    ensures
        kv_map(s).dom().finite(),
        kv_map(s).dom().len() == s.len(),
        forall|k: Seq<char>|
            kv_map(s).contains_key(k) <==> exists|i: int| 0 <= i < s.len() && s[i].0@ == k,
        forall|i: int| 0 <= i < s.len() ==> kv_map(s)[s[i].0@] == s[i].1@,
    decreases s.len(),
{
    if s.len() > 0 {
        let dl = s.drop_last();
        let last = s.last();
        lemma_kv_map_props(dl);
        assert forall|k: Seq<char>| kv_map(s).contains_key(k) implies exists|i: int|
            0 <= i < s.len() && s[i].0@ == k by {
            if k == last.0@ {
                assert(s[s.len() - 1].0@ == k);
            } else {
                let i = choose|i: int| 0 <= i < dl.len() && dl[i].0@ == k;
                assert(s[i].0@ == k);
            }
        }
        assert forall|i: int| 0 <= i < s.len() implies kv_map(s).contains_key(s[i].0@) by {
            if i < s.len() - 1 {
                assert(dl[i].0@ == s[i].0@);
            }
        }
        assert(!kv_map(dl).contains_key(last.0@));
        assert(kv_map(s).dom() =~= kv_map(dl).dom().insert(last.0@));
        assert forall|i: int| 0 <= i < s.len() implies kv_map(s)[s[i].0@] == s[i].1@ by {
            if i < s.len() - 1 {
                assert(s[i].0@ != last.0@);
                assert(dl[i] == s[i]);
            }
        }
    }
}

/// Removing one entry of an association list with distinct keys removes
/// exactly that key from the derived map.
proof fn lemma_kv_map_remove(s: Seq<(String, Value)>, i: int)
    requires
        distinct_keys(s),
        0 <= i < s.len(),
    ensures
        distinct_keys(s.remove(i)),
        kv_map(s.remove(i)) == kv_map(s).remove(s[i].0@),
    decreases s.len(),
{
    lemma_kv_map_props(s);
    let r = s.remove(i);
    assert forall|a: int, b: int| 0 <= a < b < r.len() implies r[a].0@ != r[b].0@ by {
        let a0 = if a < i { a } else { a + 1 };
        let b0 = if b < i { b } else { b + 1 };
        assert(r[a] == s[a0] && r[b] == s[b0]);
    }
    if i == s.len() - 1 {
        assert(r =~= s.drop_last());
        lemma_kv_map_props(s.drop_last());
        assert(!kv_map(s.drop_last()).contains_key(s[i].0@));
        assert(kv_map(r) =~= kv_map(s).remove(s[i].0@));
    } else {
        let dl = s.drop_last();
        assert(r.drop_last() =~= dl.remove(i));
        assert(r.last() == s.last());
        lemma_kv_map_remove(dl, i);
        assert(dl[i] == s[i]);
        assert(s[i].0@ != s.last().0@);
        assert(kv_map(r) =~= kv_map(s).remove(s[i].0@));
    }
}

/// Mapping from string key to [`Value`]; keys are unique, and no ordering
/// is guaranteed.
#[derive(Debug)]
pub struct MetaData {
    store: Vec<(String, Value)>,
}

impl View for MetaData {
    type V = Map<Seq<char>, ValueV>;

    closed spec fn view(&self) -> Map<Seq<char>, ValueV> {
        kv_map(self.store@)
    }
}

impl MetaData {
    #[verifier::type_invariant]
    spec fn wf(self) -> bool {
        distinct_keys(self.store@)
    }

    /// Creates empty metadata.
    pub fn new() -> (r: Self)
        ensures
            r@ == Map::<Seq<char>, ValueV>::empty(),
            r@.dom().finite(),
    {
        let store: Vec<(String, Value)> = Vec::new();
        proof {
            lemma_kv_map_props(store@);
        }
        MetaData { store }
    }

    /// Adds a key/value pair in place; an existing binding of the key is
    /// replaced.
    pub fn add(&mut self, key: String, value: Value)
        ensures
            final(self)@ == old(self)@.insert(key@, value@),
            final(self)@.dom().finite(),
    {
        proof {
            use_type_invariant(&*self);
        }
        let ghost orig = self.store@;
        let mut found: Option<usize> = None;
        let mut i: usize = 0;
        while i < self.store.len()
            invariant
                self.store@ == orig,
                distinct_keys(orig),
                i <= orig.len(),
                match found {
                    Some(j) => j < orig.len() && orig[j as int].0@ == key@,
                    None => forall|j: int| 0 <= j < i ==> orig[j].0@ != key@,
                },
            decreases orig.len() - i,
        {
            if found.is_none() && self.store[i].0 == key {
                found = Some(i);
            }
            i += 1;
        }
        proof {
            lemma_kv_map_props(orig);
        }
        let mut store: Vec<(String, Value)> = Vec::new();
        core::mem::swap(&mut store, &mut self.store);
        match found {
            Some(j) => {
                proof {
                    lemma_kv_map_remove(orig, j as int);
                }
                store.remove(j);
                let ghost removed = store@;
                store.push((key, value));
                proof {
                    assert forall|a: int| 0 <= a < removed.len() implies removed[a].0@ != key@ by {
                        let a0 = if a < j { a } else { a + 1 };
                        assert(removed[a] == orig[a0]);
                    }
                    assert(store@.drop_last() =~= removed);
                    assert(kv_map(store@) =~= kv_map(orig).insert(key@, value@));
                }
            },
            None => {
                store.push((key, value));
                proof {
                    assert(store@.drop_last() =~= orig);
                    assert(!kv_map(orig).contains_key(key@));
                }
            },
        }
        core::mem::swap(&mut store, &mut self.store);
        proof {
            use_type_invariant(&*self);
            lemma_kv_map_props(self.store@);
        }
    }

    /// Adds a key/value pair and returns the updated metadata.
    pub fn insert(self, key: String, value: Value) -> (r: Self)
        ensures
            r@ == self@.insert(key@, value@),
            r@.dom().finite(),
    {
        let mut r = self;
        r.add(key, value);
        r
    }

    /// Whether the key is bound in the metadata.
    pub fn contains_key(&self, key: &str) -> (r: bool)
        ensures
            r == self@.contains_key(key@),
    {
        proof {
            use_type_invariant(self);
            lemma_kv_map_props(self.store@);
        }
        let k: String = key.to_owned();
        let mut i: usize = 0;
        while i < self.store.len()
            invariant
                i <= self.store@.len(),
                k@ == key@,
                forall|j: int| 0 <= j < i ==> self.store@[j].0@ != key@,
                self@.contains_key(key@) <==> exists|j: int|
                    0 <= j < self.store@.len() && self.store@[j].0@ == key@,
            decreases self.store@.len() - i,
        {
            if self.store[i].0 == k {
                return true;
            }
            i += 1;
        }
        false
    }

    /// Looks the key up, returning a copy of the bound value if any.
    pub fn get(&self, key: &str) -> (r: Option<Value>)
        ensures
            match r {
                Some(v) => self@.contains_key(key@) && v@ == self@[key@],
                None => !self@.contains_key(key@),
            },
    {
        proof {
            use_type_invariant(self);
            lemma_kv_map_props(self.store@);
        }
        let k: String = key.to_owned();
        let mut i: usize = 0;
        while i < self.store.len()
            invariant
                i <= self.store@.len(),
                k@ == key@,
                forall|j: int| 0 <= j < i ==> self.store@[j].0@ != key@,
                self@.contains_key(key@) <==> exists|j: int|
                    0 <= j < self.store@.len() && self.store@[j].0@ == key@,
                forall|j: int|
                    0 <= j < self.store@.len() ==> self@[self.store@[j].0@] == self.store@[j].1@,
            decreases self.store@.len() - i,
        {
            if self.store[i].0 == k {
                return Some(self.store[i].1.clone());
            }
            i += 1;
        }
        None
    }

    /// Merges the given metadata into this one; on a key collision the
    /// incoming binding wins.
    pub fn extend(&mut self, metadata: MetaData)
        ensures
            final(self)@ == old(self)@.union_prefer_right(metadata@),
            final(self)@.dom().finite(),
    {
        proof {
            use_type_invariant(&metadata);
        }
        let ghost incoming = metadata.store@;
        let mut j: usize = 0;
        while j < metadata.store.len()
            invariant
                metadata.store@ == incoming,
                j <= incoming.len(),
                self@ == old(self)@.union_prefer_right(kv_map(incoming.take(j as int))),
            decreases incoming.len() - j,
        {
            let key = metadata.store[j].0.clone();
            let value = metadata.store[j].1.clone();
            self.add(key, value);
            proof {
                assert(incoming.take(j + 1int).drop_last() =~= incoming.take(j as int));
                assert(incoming.take(j + 1int).last() == incoming[j as int]);
                assert(self@ =~= old(self)@.union_prefer_right(kv_map(incoming.take(j + 1int))));
            }
            j += 1;
        }
        proof {
            assert(incoming.take(incoming.len() as int) =~= incoming);
            use_type_invariant(&*self);
            lemma_kv_map_props(self.store@);
        }
    }

    /// The bindings as key/value pairs, with distinct keys; no order is
    /// guaranteed.
    pub fn entries(&self) -> (r: Vec<(String, Value)>)
        ensures
            kv_map(r@) == self@,
            distinct_keys(r@),
            r@.len() == self@.dom().len(),
    {
        proof {
            use_type_invariant(self);
            lemma_kv_map_props(self.store@);
        }
        let mut entries: Vec<(String, Value)> = Vec::new();
        let mut i: usize = 0;
        while i < self.store.len()
            invariant
                i <= self.store@.len(),
                entries@.len() == i,
                forall|j: int|
                    0 <= j < i ==> entries@[j].0@ == self.store@[j].0@ && entries@[j].1@
                        == self.store@[j].1@,
            decreases self.store@.len() - i,
        {
            entries.push((self.store[i].0.clone(), self.store[i].1.clone()));
            i += 1;
        }
        proof {
            lemma_kv_map_views_equal(entries@, self.store@);
            lemma_kv_map_props(self.store@);
        }
        entries
    }

    /// Whether the metadata holds no binding.
    pub fn is_empty(&self) -> (r: bool)
        ensures
            r == (self@.dom().len() == 0),
    {
        proof {
            use_type_invariant(self);
            lemma_kv_map_props(self.store@);
        }
        self.store.len() == 0
    }

    /// The number of bindings held.
    pub fn len(&self) -> (r: usize)
        ensures
            r == self@.dom().len(),
    {
        proof {
            use_type_invariant(self);
            lemma_kv_map_props(self.store@);
        }
        self.store.len()
    }
}

impl Clone for MetaData {
    /// Clones preserve the metadata's bindings exactly.
    fn clone(&self) -> (r: Self)
        ensures
            r@ == self@,
            r@.dom().finite(),
    {
        proof {
            use_type_invariant(self);
        }
        let mut store: Vec<(String, Value)> = Vec::new();
        let mut i: usize = 0;
        while i < self.store.len()
            invariant
                i <= self.store@.len(),
                store@.len() == i,
                forall|j: int|
                    0 <= j < i ==> store@[j].0@ == self.store@[j].0@ && store@[j].1@
                        == self.store@[j].1@,
            decreases self.store@.len() - i,
        {
            store.push((self.store[i].0.clone(), self.store[i].1.clone()));
            i += 1;
        }
        proof {
            lemma_kv_map_views_equal(store@, self.store@);
            lemma_kv_map_props(store@);
        }
        MetaData { store }
    }
}

/// Association lists with pointwise view-equal entries derive the same map.
proof fn lemma_kv_map_views_equal(s1: Seq<(String, Value)>, s2: Seq<(String, Value)>)
    requires
        s1.len() == s2.len(),
        forall|j: int| 0 <= j < s1.len() ==> s1[j].0@ == s2[j].0@ && s1[j].1@ == s2[j].1@,
    ensures
        kv_map(s1) == kv_map(s2),
        distinct_keys(s2) ==> distinct_keys(s1),
    decreases s1.len(),
{
    if s1.len() > 0 {
        lemma_kv_map_views_equal(s1.drop_last(), s2.drop_last());
        assert(kv_map(s1) =~= kv_map(s2));
    } else {
        assert(kv_map(s1) =~= kv_map(s2));
    }
}

} // verus!

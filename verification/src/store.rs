//! The durable key-value record store.
//!
//! After a successful transfer, the workflow records the resulting
//! transaction identifier under a well-known key so it can be audited
//! later. The store is handed into the workflow explicitly — callers
//! decide where it lives and when it is persisted — which keeps the
//! workflow free of hidden global state and lets a test use a plain
//! in-memory store. Callers performing concurrent transfers must use
//! distinct keys; the store itself resolves nothing.
//!
//! A store is a map from string keys to string values; its contracts
//! speak of that map.

use vstd::prelude::*;
use vstd::map::*;

verus! {

/// The key under which the direct and bundle paths record the transfer's
/// resulting transaction identifier.
pub fn last_transfer_signature_key() -> (r: String)
    ensures
        r@ == "last_confidential_transfer_signature"@,
{
    "last_confidential_transfer_signature".to_owned()
}

/// A durable string-to-string record store. The newest binding for a key
/// shadows any earlier one.
pub struct KvStore {
    entries: Vec<(String, String)>,
}

/// The value bound to `key` in `entries`, scanning from the front, so
/// that the entry nearest the front wins.
pub open spec fn spec_lookup(entries: Seq<(String, String)>, key: Seq<char>) -> Option<Seq<char>>
    decreases entries.len(),
{
    if entries.len() == 0 {
        Option::None
    } else if entries[0].0@ == key {
        Option::Some(entries[0].1@)
    } else {
        spec_lookup(entries.drop_first(), key)
    }
}

impl View for KvStore {
    type V = Map<Seq<char>, Seq<char>>;

    closed spec fn view(&self) -> Map<Seq<char>, Seq<char>> {
        Map::new(
            |k: Seq<char>| spec_lookup(self.entries@, k) is Some,
            |k: Seq<char>| spec_lookup(self.entries@, k)->Some_0,
        )
    }
}

impl KvStore {
    /// An empty store.
    pub fn new() -> (r: KvStore)
        ensures
            r@ == Map::<Seq<char>, Seq<char>>::empty(),
    {
        let r = KvStore { entries: Vec::new() };
        proof {
            assert(r@ =~= Map::<Seq<char>, Seq<char>>::empty());
        }
        r
    }

    /// Binds `key` to `value`, replacing any current binding.
    pub fn record_value(&mut self, key: String, value: String)
        ensures
            final(self)@ == old(self)@.insert(key@, value@),
    {
        let ghost previous = self.entries@;
        let ghost keyv = key@;
        let ghost valuev = value@;
        self.entries.insert(0, (key, value));
        proof {
            assert(self.entries@.drop_first() =~= previous);
            assert(self@ =~= old(self)@.insert(keyv, valuev));
        }
    }

    /// The value bound to `key`, if any.
    pub fn load_value(&self, key: &String) -> (r: Option<String>)
        ensures
            match r {
                Option::Some(v) => self@.contains_key(key@) && v@ == self@[key@],
                Option::None => !self@.contains_key(key@),
            },
    {
        let mut i: usize = 0;
        proof {
            assert(self.entries@.skip(0) =~= self.entries@);
        }
        while i < self.entries.len()
            invariant
                i <= self.entries.len(),
                spec_lookup(self.entries@, key@) == spec_lookup(
                    self.entries@.skip(i as int),
                    key@,
                ),
            decreases self.entries.len() - i,
        {
            proof {
                assert(self.entries@.skip(i as int)[0] == self.entries@[i as int]);
                assert(self.entries@.skip(i as int).drop_first() =~= self.entries@.skip(
                    i as int + 1,
                ));
            }
            if self.entries[i].0 == *key {
                return Option::Some(self.entries[i].1.clone());
            }
            i = i + 1;
        }
        proof {
            assert(self.entries@.skip(i as int).len() == 0);
        }
        Option::None
    }

    /// The bindings of the store, newest first; an entry for a key
    /// shadows any later entry for the same key. This is the order a
    /// caller persisting the store must honor.
    pub fn entries(&self) -> (r: &Vec<(String, String)>)
        ensures
            forall|k: Seq<char>| #[trigger] spec_lookup(r@, k) == (if self@.contains_key(k) {
                Option::Some(self@[k])
            } else {
                Option::<Seq<char>>::None
            }),
    {
        &self.entries
    }
}

} // verus!

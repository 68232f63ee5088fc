//! The reference implementation of the persistence capability: an in-memory
//! store backed by a hash map, seeded with a fixed deterministic set of
//! entries so the example is runnable and testable. A save always succeeds
//! (no capacity limit is modeled) and a load of a missing key hands back the
//! sentinel text.

use vstd::prelude::*;
use vstd::string::StringExecFns;
use std::collections::HashMap;

use crate::persistence::Persistable;
use crate::persistence::lookup;

verus! {

/// The sentinel text this store hands back for an identifier with no stored
/// value: the documented missing-key policy of `DummyPersistable`.
pub open spec fn sentinel_text() -> Seq<char> {
    "NAN"@
}

/// The fixed seed entries that `init` loads into the store.
pub open spec fn seed_map() -> Map<u32, Seq<char>> {
    map![1u32 => "hola"@, 2u32 => "adios"@, 3u32 => "mundo"@, 4u32 => "nube"@]
}

/// An in-memory stand-in for a real persistence technology: a mapping from
/// identifiers to text, unique keys, insertion order irrelevant.
pub struct DummyPersistable {
    pub dummy_database: HashMap<u32, String>,
}

impl DummyPersistable {
    /// The store's contents as a ghost map from identifier to stored text.
    pub open spec fn contents(&self) -> Map<u32, Seq<char>> {
        self.dummy_database@.map_values(|s: String| s@)
    }

    /// Resets the mapping and seeds it with the fixed entries.
    pub fn init(&mut self)
        ensures
            final(self).contents() == seed_map(),
    {
        self.dummy_database = HashMap::new();
        self.dummy_database.insert(1, String::from_str("hola"));
        self.dummy_database.insert(2, String::from_str("adios"));
        self.dummy_database.insert(3, String::from_str("mundo"));
        self.dummy_database.insert(4, String::from_str("nube"));
        proof {
            assert(self.contents() =~= seed_map());
        }
    }
}

impl Persistable for DummyPersistable {
    open spec fn storage(&self) -> Map<u32, Seq<char>> {
        self.contents()
    }

    open spec fn absent_text(&self) -> Seq<char> {
        sentinel_text()
    }

    /// Inserts or replaces the entry for the given key; always succeeds.
    fn save(&mut self, id: u32, message: String) {
        let ghost before = self.dummy_database@;
        self.dummy_database.insert(id, message);
        proof {
            assert(self.contents() =~= before.map_values(|s: String| s@).insert(id, message@));
        }
    }

    /// Returns the stored text if present, else the sentinel.
    fn load(&self, id: u32) -> (r: String) {
        match self.dummy_database.get(&id) {
            Some(m) => m.clone(),
            None => String::from_str("NAN"),
        }
    }
}

/// Every identifier in the seed set reads back exactly its seeded text from
/// a freshly seeded store.
pub proof fn lemma_seed_reads_exact(id: u32)
    requires
        seed_map().dom().contains(id),
    ensures
        lookup(seed_map(), sentinel_text(), id) == seed_map()[id],
{
}

} // verus!

//! The persistence capability: an abstract contract with exactly two
//! operations, `save` and `load`, stated over a ghost map from identifiers to
//! text. Domain logic is written against this contract alone, so it stays
//! independent of any concrete storage technology.

use vstd::prelude::*;

verus! {

/// What a `load` of `id` observes in a store whose contents are `store` and
/// whose documented policy for a missing key is to hand back `absent`.
pub open spec fn lookup(store: Map<u32, Seq<char>>, absent: Seq<char>, id: u32) -> Seq<char> {
    if store.dom().contains(id) {
        store[id]
    } else {
        absent
    }
}

/// The persistence capability. Any concrete type exposing both operations
/// with these contracts satisfies it; implementers describe their backing
/// storage as a ghost map (`storage`) and commit to one sentinel text
/// (`absent_text`) for identifiers that are not present, so a `load` never
/// fails and domain logic stays exception-free.
pub trait Persistable {
    /// The contents of the backing storage: each identifier maps to the text
    /// currently stored under it.
    spec fn storage(&self) -> Map<u32, Seq<char>>;

    /// The sentinel text that `load` hands back for an identifier with no
    /// stored value; the implementer's documented missing-key policy.
    spec fn absent_text(&self) -> Seq<char>;

    /// Records `message` under `id`, inserting a fresh entry or overwriting
    /// the earlier one. No constraint on the range of `id`.
    fn save(&mut self, id: u32, message: String)
        ensures
            final(self).storage() == old(self).storage().insert(id, message@),
            final(self).absent_text() == old(self).absent_text(),
    ;

    /// Retrieves the text stored under `id`, or the sentinel where no value
    /// exists; `load` observes the storage and never alters it.
    fn load(&self, id: u32) -> (r: String)
        ensures
            r@ == lookup(self.storage(), self.absent_text(), id),
    ;
}

/// An identifier that is present reads back exactly the stored text,
/// whatever the sentinel is.
pub proof fn lemma_present_reads_stored(store: Map<u32, Seq<char>>, absent: Seq<char>, id: u32)
    requires
        store.dom().contains(id),
    ensures
        lookup(store, absent, id) == store[id],
{
}

/// An identifier that is absent reads as the sentinel; since a read settles
/// nothing in the store, every repeated read gives the sentinel again.
pub proof fn lemma_absent_reads_sentinel(store: Map<u32, Seq<char>>, absent: Seq<char>, id: u32)
    requires
        !store.dom().contains(id),
    ensures
        lookup(store, absent, id) == absent,
{
}

/// Read-your-writes: a load of `id` immediately after a save of `value`
/// under `id` observes exactly `value`, for any store, any key, any text.
pub proof fn lemma_read_your_writes(
    store: Map<u32, Seq<char>>,
    absent: Seq<char>,
    id: u32,
    value: Seq<char>,
)
    ensures
        lookup(store.insert(id, value), absent, id) == value,
{
}

/// Last-write-wins: two saves under the same key leave the second text, for
/// a single key and a single caller.
pub proof fn lemma_last_write_wins(
    store: Map<u32, Seq<char>>,
    absent: Seq<char>,
    id: u32,
    first: Seq<char>,
    second: Seq<char>,
)
    ensures
        lookup(store.insert(id, first).insert(id, second), absent, id) == second,
{
}

} // verus!

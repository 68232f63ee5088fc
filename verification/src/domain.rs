//! The domain entity: one unit of business logic that depends on persisted
//! state but is ignorant of storage mechanics. It holds an identifier and a
//! mutable message, and its `logic` consults whatever persistence capability
//! it is handed.

use vstd::prelude::*;

use crate::persistence::Persistable;
use crate::persistence::lookup;

verus! {

/// A domain entity: an identifier chosen by the caller and a mutable message
/// used as scratch state. Constructed fresh per request and discarded after
/// the response is built.
pub struct Dominio01 {
    pub id: u32,
    pub message: String,
}

impl Dominio01 {
    /// The entity's business logic: load the text stored under the entity's
    /// own identifier, keep it as the message, and hand it back. The entity
    /// touches storage only through the capability it is passed, and since
    /// the capability comes in behind a shared borrow, `logic` cannot mutate
    /// its storage; the result is determined by the capability's response.
    pub fn logic<P: Persistable>(&mut self, capability: &P) -> (r: String)
        ensures
            r@ == lookup(capability.storage(), capability.absent_text(), old(self).id),
            final(self).id == old(self).id,
            final(self).message@ == r@,
    {
        let loaded = capability.load(self.id);
        self.message = loaded.clone();
        loaded
    }
}

} // verus!
